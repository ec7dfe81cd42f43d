use portal2_sdk::entity::{CBaseEntity, CBaseHandle};
use portal2_sdk::keyvalues::KeyValuesType;
use portal2_sdk::player::CSteamID;
use portal2_sdk::trace::{csurface_t, HitGroup};

#[test]
fn entity_index_is_low_twelve_bits() {
    assert_eq!(CBaseEntity::get_index(CBaseHandle(0)), 0);
    assert_eq!(CBaseEntity::get_index(CBaseHandle(0x0001_2ABC)), 0xABC);
    assert_eq!(CBaseEntity::get_index(CBaseHandle(0xFFFF_FFFF)), 0xFFF);
    assert_eq!(CBaseEntity::get_index(CBaseHandle(4096)), 0);
}

#[test]
fn entity_health_from_key_value() {
    assert_eq!(CBaseEntity::get_health(Some("100".to_string())), 100);
    assert_eq!(CBaseEntity::get_health(Some("-5".to_string())), -5);
    assert_eq!(CBaseEntity::get_health(Some("full".to_string())), 0);
    assert_eq!(CBaseEntity::get_health(None), 0);
}

#[test]
fn entity_names_default_to_empty() {
    assert_eq!(CBaseEntity::get_name(Some("door_1".to_string())), "door_1");
    assert_eq!(CBaseEntity::get_name(None), "");
    assert_eq!(CBaseEntity::get_class_name(Some("prop_dynamic".to_string())), "prop_dynamic");
    assert_eq!(CBaseEntity::get_class_name(None), "");
    assert_eq!(CBaseEntity::get_classname(Some("player".to_string())), "player");
    assert_eq!(CBaseEntity::get_classname(None), "");
}

#[test]
fn entity_destroy_needs_a_hammer_id() {
    assert_eq!(CBaseEntity::destroy(Some("1234".to_string())), Some(1234));
    assert_eq!(CBaseEntity::destroy(Some("x".to_string())), None);
    assert_eq!(CBaseEntity::destroy(Some(String::new())), None);
    assert_eq!(CBaseEntity::destroy(None), None);
}

#[test]
fn steam_id_account_and_validity() {
    let id = CSteamID(76561197960287930);
    assert_eq!(id.account_id(), 22202);
    assert!(id.is_valid());
    assert!(!CSteamID(0).is_valid());
    assert_eq!(CSteamID(0xFFFF_FFFF_0000_0001).account_id(), 1);
}

#[test]
fn hit_groups_from_codes() {
    assert_eq!(HitGroup::from(0), HitGroup::Generic);
    assert_eq!(HitGroup::from(1), HitGroup::Head);
    assert_eq!(HitGroup::from(7), HitGroup::RightLeg);
    assert_eq!(HitGroup::from(10), HitGroup::Gear);
    assert_eq!(HitGroup::from(8), HitGroup::Unknown);
    assert_eq!(HitGroup::from(-1), HitGroup::Unknown);
    for code in [0, 1, 2, 3, 4, 5, 6, 7, 10] {
        assert_eq!(HitGroup::from(code).code(), code);
    }
    assert_eq!(HitGroup::Unknown.code(), -1);
}

#[test]
fn surface_queries() {
    let sky = csurface_t { surface_props: 0, flags: 0x0004 };
    assert!(sky.is_sky());
    let sky2d = csurface_t { surface_props: 0, flags: 0x0002 };
    assert!(sky2d.is_sky());
    let wall = csurface_t { surface_props: 3, flags: 0x0020 | 0x2000 };
    assert!(!wall.is_sky());
    assert!(wall.is_no_portal());
    assert!(wall.is_no_paint());
    assert!(!wall.is_nodraw());
    let hidden = csurface_t { surface_props: 0, flags: 0x0080 };
    assert!(hidden.is_nodraw());
    assert_eq!(wall.get_flags().bits(), 0x2020);
}

#[test]
fn key_values_type_codes() {
    assert_eq!(KeyValuesType::from_code(0), Some(KeyValuesType::Empty));
    assert_eq!(KeyValuesType::from_code(3), Some(KeyValuesType::Float));
    assert_eq!(KeyValuesType::from_code(8), Some(KeyValuesType::CompiledIntByte));
    assert_eq!(KeyValuesType::from_code(9), None);
    for code in 0u8..=8 {
        assert_eq!(KeyValuesType::from_code(code).unwrap().code(), code);
    }
}

use portal2_sdk::trace::TraceTypeT;

#[test]
fn trace_type_codes() {
    assert_eq!(TraceTypeT::Everything.code(), 0);
    assert_eq!(TraceTypeT::WorldOnly.code(), 1);
    assert_eq!(TraceTypeT::EntitiesOnly.code(), 2);
    assert_eq!(TraceTypeT::EverythingFilterProps.code(), 3);
}

use portal2_sdk::trace::did_hit_entity;

#[test]
fn world_is_not_a_hit_entity() {
    assert!(!did_hit_entity(Some("worldspawn".to_string())));
    assert!(did_hit_entity(Some("prop_weighted_cube".to_string())));
    assert!(did_hit_entity(Some(String::new())));
    assert!(!did_hit_entity(None));
}
