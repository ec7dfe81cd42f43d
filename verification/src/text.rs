//! Character-level helpers on engine strings.
use vstd::prelude::*;
use vstd::utf8::{decode_utf8, valid_utf8};

verus! {

/// Collects the characters of `s`, in order.
pub fn chars_of(s: &str) -> (v: Vec<char>)
    ensures
        v@ == s@,
{
    let mut v: Vec<char> = Vec::new();
    for c in it: s.chars()
        invariant
            v@ == it.seq().take(it.index() as int),
    {
        v.push(c);
    }
    v
}

} // verus!

verus! {

/// `c` is one of the ASCII digits `0` to `9`.
pub open spec fn is_digit(c: char) -> bool {
    '0' <= c && c <= '9'
}

/// The value of the decimal numeral `s` (a sequence of digits), most significant first.
pub open spec fn digits_value(s: Seq<char>) -> int
    decreases s.len(),
{
    if s.len() == 0 {
        0
    } else {
        digits_value(s.drop_last()) * 10 + (s.last() as int - '0' as int)
    }
}

/// The part of a numeral after its optional leading `+` or `-` sign.
pub open spec fn unsigned_part(s: Seq<char>) -> Seq<char> {
    if s.len() > 0 && (s[0] == '-' || s[0] == '+') {
        s.skip(1)
    } else {
        s
    }
}

/// Every character of `s` is an ASCII digit.
pub open spec fn all_digits(s: Seq<char>) -> bool {
    forall|k: int| 0 <= k < s.len() ==> #[trigger] is_digit(s[k])
}

/// What `str::parse::<i32>` gives back: an optional `+` or `-` sign followed by
/// one or more ASCII digits, whose value fits in an `i32`; anything else is refused.
pub open spec fn spec_parse_i32(s: Seq<char>) -> Option<i32> {
    let body = unsigned_part(s);
    let value = if s.len() > 0 && s[0] == '-' {
        -digits_value(body)
    } else {
        digits_value(body)
    };
    if body.len() == 0 || !all_digits(body) {
        None
    } else if i32::MIN <= value && value <= i32::MAX {
        Some(value as i32)
    } else {
        None
    }
}

proof fn lemma_digits_value_nonneg(s: Seq<char>)
    requires
        forall|k: int| 0 <= k < s.len() ==> #[trigger] is_digit(s[k]),
    ensures
        digits_value(s) >= 0,
    decreases s.len(),
{
    if s.len() > 0 {
        let p = s.drop_last();
        assert forall|k: int| 0 <= k < p.len() implies #[trigger] is_digit(p[k]) by {
            assert(p[k] == s[k]);
            assert(is_digit(s[k]));
        }
        lemma_digits_value_nonneg(p);
        assert(is_digit(s[s.len() - 1]));
    }
}

/// A numeral is at least as large as any of its prefixes.
proof fn lemma_digits_value_grows(s: Seq<char>, n: int)
    requires
        0 <= n <= s.len(),
        forall|k: int| 0 <= k < s.len() ==> #[trigger] is_digit(s[k]),
    ensures
        digits_value(s.take(n)) <= digits_value(s),
    decreases s.len() - n,
{
    if n < s.len() {
        lemma_digits_value_grows(s, n + 1);
        let t = s.take(n + 1);
        assert(t.drop_last() =~= s.take(n));
        assert forall|k: int| 0 <= k < n implies #[trigger] is_digit(s.take(n)[k]) by {
            assert(s.take(n)[k] == s[k]);
            assert(is_digit(s[k]));
        }
        lemma_digits_value_nonneg(s.take(n));
        assert(t.last() == s[n]);
        assert(is_digit(s[n]));
        assert(digits_value(t) == digits_value(s.take(n)) * 10 + (s[n] as int - '0' as int));
    } else {
        assert(s.take(n) =~= s);
    }
}

/// Parses a decimal `i32` the way `str::parse::<i32>` does.
pub fn parse_i32(s: &str) -> (r: Option<i32>)
    ensures
        r == spec_parse_i32(s@),
{
    let chars = chars_of(s);
    let len = chars.len();
    if len == 0 {
        return None;
    }
    let negative = chars[0] == '-';
    let start: usize = if chars[0] == '-' || chars[0] == '+' {
        1
    } else {
        0
    };
    let ghost body = if start == 1 {
        s@.skip(1)
    } else {
        s@
    };
    if start == len {
        return None;
    }
    // The magnitude is accumulated in an i64, which holds any value whose
    // magnitude is at most 2^31, the largest that an i32 result allows.
    let limit: i64 = 0x8000_0000;
    let mut acc: i64 = 0;
    let mut i: usize = start;
    while i < len
        invariant
            chars@ == s@,
            len == chars@.len(),
            start <= i <= len,
            start < len,
            body == (if start == 1 {
                s@.skip(1)
            } else {
                s@
            }),
            start == 0 || start == 1,
            negative == (s@[0] == '-'),
            start == 1 <==> (s@[0] == '-' || s@[0] == '+'),
            forall|k: int| 0 <= k < i - start ==> #[trigger] is_digit(body[k]),
            acc == digits_value(body.take(i - start)),
            0 <= acc <= limit,
            limit == 0x8000_0000,
        decreases len - i,
    {
        let c = chars[i];
        assert(body[i - start] == c);
        if !('0' <= c && c <= '9') {
            proof {
                let k = i - start;
                assert(0 <= k < body.len());
                assert(!is_digit(body[k]));
                assert(body == unsigned_part(s@));
                assert(!all_digits(body));
            }
            return None;
        }
        let d: i64 = (c as u32 - '0' as u32) as i64;
        assert(body.take(i - start + 1).drop_last() =~= body.take(i - start));
        let next = acc * 10 + d;
        assert(digits_value(body.take(i - start + 1)) == next);
        if next > limit {
            proof {
                assert(body == unsigned_part(s@));
                if all_digits(body) {
                    lemma_digits_value_grows(body, i - start + 1);
                    assert(digits_value(body) > 0x8000_0000);
                }
            }
            return None;
        }
        acc = next;
        i = i + 1;
    }
    assert(body.take(len - start) =~= body);
    assert(forall|k: int| 0 <= k < body.len() ==> #[trigger] is_digit(body[k]));
    if negative {
        Some((0 - acc) as i32)
    } else if acc <= 0x7FFF_FFFF {
        Some(acc as i32)
    } else {
        None
    }
}

} // verus!

verus! {

/// What `String::from_utf8_lossy` makes of `bytes`: their UTF-8 decoding, with each
/// ill-formed part replaced by U+FFFD.
pub uninterp spec fn lossy_utf8(bytes: Seq<u8>) -> Seq<char>;

/// Decodes bytes as UTF-8, replacing each ill-formed part with U+FFFD, by
/// `String::from_utf8_lossy`. Trusted: the result is named by `lossy_utf8`; of it,
/// two things are stated. Well-formed UTF-8 is decoded plainly. And a single byte
/// at or above 0x80 standing between two well-formed parts is ill-formed on its
/// own (a well-formed part never begins with a continuation byte, so it cannot
/// complete a sequence that the byte begins): it becomes one U+FFFD, and the
/// parts on either side are decoded plainly. What the call makes of longer
/// ill-formed runs is left to the name.
#[verifier::external_body]
fn decode_lossy(bytes: &[u8]) -> (r: String)
    ensures
        r@ == lossy_utf8(bytes@),
        valid_utf8(bytes@) ==> r@ == decode_utf8(bytes@),
        forall|k: int|
            #![trigger bytes@.take(k)]
            0 <= k < bytes@.len() && bytes@[k] >= 0x80 && valid_utf8(bytes@.take(k)) && valid_utf8(
                bytes@.skip(k + 1),
            ) ==> r@ == decode_utf8(bytes@.take(k)) + seq!['\u{FFFD}'] + decode_utf8(
                bytes@.skip(k + 1),
            ),
{
    String::from_utf8_lossy(bytes).into_owned()
}

/// The bytes of a NUL-terminated C string held in `buf`: everything before the
/// first NUL byte, or the whole buffer where it holds none.
pub open spec fn until_nul(buf: Seq<u8>) -> Seq<u8>
    decreases buf.len(),
{
    if buf.len() == 0 {
        buf
    } else if buf[0] == 0 {
        Seq::empty()
    } else {
        seq![buf[0]] + until_nul(buf.skip(1))
    }
}

proof fn lemma_until_nul_prefix(buf: Seq<u8>, n: int)
    requires
        0 <= n <= buf.len(),
        forall|k: int| 0 <= k < n ==> buf[k] != 0,
    ensures
        n < buf.len() && buf[n] == 0 ==> until_nul(buf) == buf.take(n),
        n == buf.len() ==> until_nul(buf) == buf,
    decreases n,
{
    if n > 0 {
        let rest = buf.skip(1);
        assert forall|k: int| 0 <= k < n - 1 implies rest[k] != 0 by {
            assert(rest[k] == buf[k + 1]);
        }
        lemma_until_nul_prefix(rest, n - 1);
        if n < buf.len() && buf[n] == 0 {
            assert(rest[n - 1] == buf[n]);
            assert(seq![buf[0]] + rest.take(n - 1) =~= buf.take(n));
        }
        if n == buf.len() {
            assert(seq![buf[0]] + rest =~= buf);
        }
    } else {
        if n < buf.len() && buf[n] == 0 {
            assert(buf.take(0) =~= Seq::<u8>::empty());
        }
    }
}

/// The text of a NUL-terminated C string held in a buffer that the engine filled:
/// the bytes before the first NUL (all of them where there is none), decoded as
/// UTF-8 with ill-formed parts replaced. A stray byte at or above 0x80 between
/// well-formed text becomes one U+FFFD and the text around it is kept as it is.
pub fn c_string_lossy(buf: &[u8]) -> (r: String)
    ensures
        r@ == lossy_utf8(until_nul(buf@)),
        valid_utf8(until_nul(buf@)) ==> r@ == decode_utf8(until_nul(buf@)),
        forall|k: int|
            #![trigger until_nul(buf@).take(k)]
            0 <= k < until_nul(buf@).len() && until_nul(buf@)[k] >= 0x80 && valid_utf8(
                until_nul(buf@).take(k),
            ) && valid_utf8(until_nul(buf@).skip(k + 1)) ==> r@ == decode_utf8(
                until_nul(buf@).take(k),
            ) + seq!['\u{FFFD}'] + decode_utf8(until_nul(buf@).skip(k + 1)),
{
    let mut n: usize = 0;
    while n < buf.len() && buf[n] != 0
        invariant
            n <= buf@.len(),
            forall|k: int| 0 <= k < n ==> buf@[k] != 0,
        decreases buf@.len() - n,
    {
        n = n + 1;
    }
    proof {
        lemma_until_nul_prefix(buf@, n as int);
    }
    let mut bytes: Vec<u8> = Vec::new();
    let mut i: usize = 0;
    while i < n
        invariant
            n <= buf@.len(),
            i <= n,
            bytes@ == buf@.take(i as int),
        decreases n - i,
    {
        bytes.push(buf[i]);
        assert(buf@.take(i + 1) =~= buf@.take(i as int).push(buf@[i as int]));
        i = i + 1;
    }
    assert(n == buf@.len() ==> buf@.take(n as int) =~= buf@);
    let r = decode_lossy(bytes.as_slice());
    assert forall|k: int|
        #![trigger until_nul(buf@).take(k)]
        0 <= k < until_nul(buf@).len() && until_nul(buf@)[k] >= 0x80 && valid_utf8(until_nul(buf@).take(k))
            && valid_utf8(until_nul(buf@).skip(k + 1)) implies r@ == decode_utf8(until_nul(buf@).take(k))
        + seq!['\u{FFFD}'] + decode_utf8(until_nul(buf@).skip(k + 1)) by {
        assert(bytes@.take(k) == until_nul(buf@).take(k));
    }
    r
}

} // verus!
