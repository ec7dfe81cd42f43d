use portal2_sdk::cvar::{ConVar, CvarFlags};
use portal2_sdk::masks::{ContentsFlags, MaskFlags, SurfaceFlags};

#[test]
fn cvar_flag_values() {
    assert_eq!(CvarFlags::HIDDEN, 1 << 4);
    assert_eq!(CvarFlags::CHEAT, 1 << 14);
    assert_eq!(CvarFlags::SERVER_CAN_EXECUTE, 1 << 28);
    assert_eq!(CvarFlags::CLIENTCMD_CAN_EXECUTE, 1 << 30);
    assert_eq!(CvarFlags::all().bits(), 0x73FF_FFFF);
    assert_eq!(CvarFlags::empty().bits(), 0);
}

#[test]
fn cvar_truncate_drops_unnamed_bits() {
    let f = CvarFlags::from_bits_truncate(CvarFlags::HIDDEN | (1 << 26) | (1 << 31));
    assert_eq!(f.bits(), CvarFlags::HIDDEN);
    let g = CvarFlags::from_bits_retain(1 << 26);
    assert_eq!(g.bits(), 1 << 26);
}

#[test]
fn cvar_contains_and_union() {
    let hidden = CvarFlags::from_bits_retain(CvarFlags::HIDDEN);
    let cheat = CvarFlags::from_bits_retain(CvarFlags::CHEAT);
    let both = hidden.union(cheat);
    assert!(both.contains(hidden));
    assert!(both.contains(cheat));
    assert!(!hidden.contains(both));
    assert!(hidden.contains(CvarFlags::empty()));
}

#[test]
fn convar_add_then_flag_is_set() {
    let mut v = ConVar::new(CvarFlags::ARCHIVE, 1, true);
    let cheat = CvarFlags::from_bits_retain(CvarFlags::CHEAT);
    assert!(!v.is_flag_set(cheat));
    v.add_flags(cheat);
    assert!(v.is_flag_set(cheat));
    assert_eq!(v.raw_flags(), CvarFlags::ARCHIVE | CvarFlags::CHEAT);
}

#[test]
fn convar_remove_hidden_flag() {
    let mut v = ConVar::new(CvarFlags::HIDDEN | CvarFlags::CHEAT, 0, true);
    let hidden = CvarFlags::from_bits_retain(CvarFlags::HIDDEN);
    assert!(v.is_flag_set(hidden));
    v.remove_flags(hidden);
    assert!(!v.is_flag_set(hidden));
    assert_eq!(v.raw_flags(), CvarFlags::CHEAT);
}

#[test]
fn convar_remove_undoes_add() {
    let mut v = ConVar::new(CvarFlags::NOTIFY, 3, false);
    let demo = CvarFlags::from_bits_retain(CvarFlags::DEMO);
    v.add_flags(demo);
    v.remove_flags(demo);
    assert_eq!(v.raw_flags(), CvarFlags::NOTIFY);
}

#[test]
fn convar_get_flags_truncates() {
    let v = ConVar::new(CvarFlags::HIDDEN | (1 << 27), 0, true);
    assert_eq!(v.get_flags().bits(), CvarFlags::HIDDEN);
    assert_eq!(v.raw_flags(), CvarFlags::HIDDEN | (1 << 27));
    let unnamed = CvarFlags::from_bits_retain(1 << 27);
    assert!(!v.is_flag_set(unnamed));
}

#[test]
fn convar_values() {
    let v = ConVar::new(0, 7, true);
    assert_eq!(v.get_int(), 7);
    assert!(v.get_bool());
    assert!(v.is_registered());
    let w = ConVar::new(0, 0, false);
    assert!(!w.get_bool());
    assert!(!w.is_registered());
}

#[test]
fn mask_flag_compositions() {
    assert_eq!(MaskFlags::ALL, -1);
    assert_eq!(MaskFlags::SOLID, 0x1 | 0x4000 | 0x2 | 0x200_0000 | 0x8);
    assert_eq!(MaskFlags::VISIBLE, MaskFlags::OPAQUE | ContentsFlags::IGNORE_NODRAW_OPAQUE);
    assert_eq!(MaskFlags::WATER, 0x20 | 0x4000 | 0x10);
    assert_eq!(MaskFlags::SHOT_PORTAL, 0x1 | 0x4000 | 0x2 | 0x200_0000);
    let solid = MaskFlags::from_bits_retain(MaskFlags::SOLID);
    let portal = MaskFlags::from_bits_retain(MaskFlags::SHOT_PORTAL);
    assert!(solid.contains(portal));
    assert!(MaskFlags::all().contains(solid));
    assert_eq!(MaskFlags::from_bits_truncate(-5).bits(), -5);
}

#[test]
fn contents_flags_operations() {
    assert_eq!(ContentsFlags::all().bits(), 0x7F0F_FFFF);
    let f = ContentsFlags::from_bits_truncate(0x0010_0000 | ContentsFlags::WATER);
    assert_eq!(f.bits(), ContentsFlags::WATER);
    let s = ContentsFlags::from_bits_retain(ContentsFlags::SOLID).union(ContentsFlags::from_bits_retain(ContentsFlags::WINDOW));
    assert_eq!(s.bits(), 0x3);
    assert!(s.contains(ContentsFlags::from_bits_retain(ContentsFlags::WINDOW)));
    assert_eq!(ContentsFlags::empty().bits(), 0);
}

#[test]
fn surface_nopaint_is_nodecals() {
    assert_eq!(SurfaceFlags::NOPAINT, SurfaceFlags::NODECALS);
    assert_eq!(SurfaceFlags::all().bits(), 0xFFFF);
    assert_eq!(SurfaceFlags::from_bits_truncate(0x1234).bits(), 0x1234);
    let f = SurfaceFlags::from_bits_retain(SurfaceFlags::SKY).union(SurfaceFlags::empty());
    assert!(f.contains(SurfaceFlags::from_bits_retain(SurfaceFlags::SKY)));
}

#[test]
fn cvar_from_bits_checks_unnamed_bits() {
    assert_eq!(CvarFlags::from_bits(CvarFlags::HIDDEN).map(|f| f.bits()), Some(CvarFlags::HIDDEN));
    assert_eq!(CvarFlags::from_bits(1 << 26), None);
    assert_eq!(CvarFlags::from_bits(0x73FF_FFFF).map(|f| f.bits()), Some(0x73FF_FFFF));
    assert_eq!(ContentsFlags::from_bits(1 << 20), None);
    assert_eq!(MaskFlags::from_bits(-1).map(|f| f.bits()), Some(-1));
    assert_eq!(SurfaceFlags::from_bits(0xFFFF).map(|f| f.bits()), Some(0xFFFF));
}

#[test]
fn cvar_empty_all_and_intersects() {
    assert!(CvarFlags::empty().is_empty());
    assert!(!CvarFlags::empty().is_all());
    assert!(CvarFlags::all().is_all());
    assert!(CvarFlags::from_bits_retain(-1).is_all());
    assert!(!CvarFlags::from_bits_retain(CvarFlags::HIDDEN).is_empty());
    let hidden = CvarFlags::from_bits_retain(CvarFlags::HIDDEN);
    let cheat = CvarFlags::from_bits_retain(CvarFlags::CHEAT);
    assert!(!hidden.intersects(cheat));
    assert!(hidden.union(cheat).intersects(cheat));
    assert!(MaskFlags::all().is_all());
    assert!(!MaskFlags::from_bits_retain(0x7FFF_FFFF).is_all());
}

#[test]
fn cvar_set_operations() {
    let hidden = CvarFlags::from_bits_retain(CvarFlags::HIDDEN);
    let cheat = CvarFlags::from_bits_retain(CvarFlags::CHEAT);
    let both = hidden.union(cheat);
    assert_eq!(both.intersection(cheat).bits(), CvarFlags::CHEAT);
    assert_eq!(both.difference(cheat).bits(), CvarFlags::HIDDEN);
    assert_eq!(hidden.symmetric_difference(both).bits(), CvarFlags::CHEAT);
    assert_eq!(CvarFlags::empty().complement().bits(), 0x73FF_FFFF);
    assert_eq!(hidden.complement().bits(), 0x73FF_FFFF & !CvarFlags::HIDDEN);
    assert_eq!(CvarFlags::from_bits_retain(1 << 26).complement().bits(), 0x73FF_FFFF);
    assert_eq!(MaskFlags::from_bits_retain(1).complement().bits(), !1);
}

#[test]
fn cvar_insert_remove_toggle_set() {
    let hidden = CvarFlags::from_bits_retain(CvarFlags::HIDDEN);
    let cheat = CvarFlags::from_bits_retain(CvarFlags::CHEAT);
    let mut f = CvarFlags::empty();
    f.insert(hidden);
    assert_eq!(f.bits(), CvarFlags::HIDDEN);
    f.toggle(cheat);
    assert_eq!(f.bits(), CvarFlags::HIDDEN | CvarFlags::CHEAT);
    f.toggle(hidden);
    assert_eq!(f.bits(), CvarFlags::CHEAT);
    f.remove(cheat);
    assert!(f.is_empty());
    f.set(hidden, true);
    assert_eq!(f.bits(), CvarFlags::HIDDEN);
    f.set(hidden, false);
    assert!(f.is_empty());
    let mut s = SurfaceFlags::empty();
    s.insert(SurfaceFlags::from_bits_retain(SurfaceFlags::SKY));
    assert_eq!(s.bits(), SurfaceFlags::SKY);
}

#[test]
fn flag_operators() {
    let hidden = CvarFlags::from_bits_retain(CvarFlags::HIDDEN);
    let cheat = CvarFlags::from_bits_retain(CvarFlags::CHEAT);
    let both = hidden | cheat;
    assert_eq!(both.bits(), CvarFlags::HIDDEN | CvarFlags::CHEAT);
    assert_eq!((both & cheat).bits(), CvarFlags::CHEAT);
    assert_eq!((both ^ cheat).bits(), CvarFlags::HIDDEN);
    assert_eq!((both - hidden).bits(), CvarFlags::CHEAT);
    assert_eq!((!hidden).bits(), 0x73FF_FFFF & !CvarFlags::HIDDEN);
    let solid = ContentsFlags::from_bits_retain(ContentsFlags::SOLID);
    assert_eq!((!ContentsFlags::empty()).bits(), 0x7F0F_FFFF);
    assert_eq!((solid | ContentsFlags::empty()).bits(), ContentsFlags::SOLID);
    assert_eq!((!MaskFlags::empty()).bits(), -1);
    assert_eq!((!SurfaceFlags::all()).bits(), 0);
}
