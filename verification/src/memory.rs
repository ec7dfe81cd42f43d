//! Byte-pattern scanning over a module's memory image.
use vstd::prelude::*;

use crate::text::chars_of;
use vstd::string::StringExecFns;

verus! {

/// The wildcard character of a scan mask: the byte at that position may be anything.
pub open spec fn is_wildcard(c: char) -> bool {
    c == '?'
}

/// The window of `memory` that starts at `start` matches `pattern` under `mask`:
/// every position that both the pattern and the mask's characters reach is either
/// a wildcard in the mask or holds the pattern's byte.
pub open spec fn window_matches(memory: Seq<u8>, pattern: Seq<u8>, mask: Seq<char>, start: int) -> bool {
    forall|k: int|
        0 <= k < pattern.len() && k < mask.len() ==> (#[trigger] is_wildcard(mask[k]) || memory[start + k]
            == pattern[k])
}

/// `start` is a place where a whole window of the pattern's length fits into `memory`.
pub open spec fn window_fits(memory: Seq<u8>, pattern: Seq<u8>, start: int) -> bool {
    0 <= start && start + pattern.len() <= memory.len()
}

/// Checks the window of `memory` at `start` against the first `checked` positions
/// of the pattern and the mask.
fn matches_at(memory: &[u8], pattern: &[u8], mask_chars: &Vec<char>, checked: usize, start: usize) -> (r: bool)
    requires
        checked <= pattern@.len(),
        checked <= mask_chars@.len(),
        checked == pattern@.len() || checked == mask_chars@.len(),
        start + pattern@.len() <= memory@.len(),
        memory@.len() <= usize::MAX,
    ensures
        r == window_matches(memory@, pattern@, mask_chars@, start as int),
{
    let mut k: usize = 0;
    while k < checked
        invariant
            checked <= pattern@.len(),
            checked <= mask_chars@.len(),
            start + pattern@.len() <= memory@.len(),
            memory@.len() <= usize::MAX,
            k <= checked,
            forall|m: int|
                0 <= m < k ==> (#[trigger] is_wildcard(mask_chars@[m]) || memory@[start + m] == pattern@[m]),
        decreases checked - k,
    {
        if mask_chars[k] != '?' && memory[start + k] != pattern[k] {
            assert(!is_wildcard(mask_chars@[k as int]));
            return false;
        }
        k = k + 1;
    }
    true
}

/// Searches for a byte pattern in a memory slice using a mask.
/// `?` in the mask means "any byte"; any other character means "the byte must match".
/// Returns the offset of the first match from the start of `memory`.
pub fn find_pattern(memory: &[u8], pattern: &[u8], mask: &str) -> (r: Option<usize>)
    requires
        pattern@.len() > 0 || mask.len() > 0,
    ensures
        match r {
            None => pattern@.len() != mask.len() || forall|i: int|
                window_fits(memory@, pattern@, i) ==> !window_matches(memory@, pattern@, mask@, i),
            Some(i) => {
                &&& pattern@.len() == mask.len()
                &&& window_fits(memory@, pattern@, i as int)
                &&& window_matches(memory@, pattern@, mask@, i as int)
                &&& forall|j: int| 0 <= j < i ==> !window_matches(memory@, pattern@, mask@, j)
            },
        },
{
    if pattern.len() != mask.len() {
        return None;
    }
    let pattern_len = pattern.len();
    if memory.len() < pattern_len {
        return None;
    }
    let mask_chars = chars_of(mask);
    let checked = if mask_chars.len() < pattern_len {
        mask_chars.len()
    } else {
        pattern_len
    };
    let last = memory.len() - pattern_len;
    let mut i: usize = 0;
    while i <= last
        invariant
            pattern_len == pattern@.len(),
            pattern_len == mask.len(),
            pattern_len > 0,
            memory@.len() <= usize::MAX,
            last == memory@.len() - pattern_len,
            mask_chars@ == mask@,
            checked <= pattern_len,
            checked <= mask_chars@.len(),
            checked == pattern_len || checked == mask_chars@.len(),
            i <= last + 1,
            forall|j: int| 0 <= j < i ==> !window_matches(memory@, pattern@, mask@, j),
        decreases last + 1 - i,
    {
        if matches_at(memory, pattern, &mask_chars, checked, i) {
            return Some(i);
        }
        i = i + 1;
    }
    None
}

/// The offset of an engine function's signature in a module's memory image, or
/// the message "`fn_name` signature not found!" where the pattern does not occur.
pub fn find_fn(memory: &[u8], pattern: &[u8], mask: &str, fn_name: &str) -> (r: Result<usize, String>)
    requires
        pattern@.len() > 0 || mask.len() > 0,
    ensures
        match r {
            Ok(offset) => {
                &&& pattern@.len() == mask.len()
                &&& window_fits(memory@, pattern@, offset as int)
                &&& window_matches(memory@, pattern@, mask@, offset as int)
                &&& forall|j: int| 0 <= j < offset ==> !window_matches(memory@, pattern@, mask@, j)
            },
            Err(message) => {
                &&& message@ == fn_name@ + " signature not found!"@
                &&& (pattern@.len() != mask.len() || forall|i: int|
                    window_fits(memory@, pattern@, i) ==> !window_matches(memory@, pattern@, mask@, i))
            },
        },
{
    match find_pattern(memory, pattern, mask) {
        Some(offset) => Ok(offset),
        None => Err(String::from_str(fn_name).concat(" signature not found!")),
    }
}

} // verus!
