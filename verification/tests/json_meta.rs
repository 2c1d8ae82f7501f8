use cluster_manager::crd::utils::{remove_crd_version, remove_served_version};
use cluster_manager::json::{json_equal, json_str, object_get, object_insert, JsonEntry, JsonNumber, JsonValue};
use cluster_manager::meta::{ObjectMeta, StringMap};
use cluster_manager::text::{join_strings, split_char, u64_to_decimal, u8_to_hex};

fn num(n: u64) -> JsonValue {
    JsonValue::Number(JsonNumber::PosInt(n))
}

fn get_num(entries: &Vec<JsonEntry>, key: &str) -> Option<u64> {
    match object_get(entries, key) {
        Some(JsonValue::Number(JsonNumber::PosInt(n))) => Some(*n),
        _ => None,
    }
}

#[test]
fn json_lookup_after_insert() {
    let mut entries: Vec<JsonEntry> = Vec::new();
    object_insert(&mut entries, "a".to_string(), num(1));
    object_insert(&mut entries, "b".to_string(), num(2));
    object_insert(&mut entries, "a".to_string(), num(3));
    assert_eq!(entries.len(), 2);
    assert_eq!(get_num(&entries, "a"), Some(3));
    assert_eq!(get_num(&entries, "b"), Some(2));
    assert_eq!(get_num(&entries, "c"), None);
}

#[test]
fn json_equality_and_copies() {
    let a = JsonValue::Array(vec![json_str("x"), num(1), JsonValue::Null]);
    let b = a.deep_clone();
    assert!(json_equal(&a, &b));
    let c = JsonValue::Array(vec![json_str("x"), num(2), JsonValue::Null]);
    assert!(!json_equal(&a, &c));
    assert!(!json_equal(&JsonValue::Bool(true), &JsonValue::Null));
}

#[test]
fn string_map_get_insert_remove() {
    let mut m = StringMap::new();
    m.insert("k".to_string(), "v1".to_string());
    m.insert("j".to_string(), "w".to_string());
    m.insert("k".to_string(), "v2".to_string());
    assert_eq!(m.get("k"), Some(&"v2".to_string()));
    assert_eq!(m.entries.len(), 2);
    m.remove("k");
    assert_eq!(m.get("k"), None);
    assert_eq!(m.get("j"), Some(&"w".to_string()));
}

#[test]
fn prefixed_names() {
    let meta = ObjectMeta {
        name: Some("vm".to_string()),
        namespace: Some("ns".to_string()),
        ..ObjectMeta::default()
    };
    assert_eq!(meta.name_prefixed_with_namespace(), "ns-vm");
}

#[test]
fn crd_version_removed() {
    let versions = vec!["v1beta2".to_string(), "v1beta3".to_string(), "v1beta2".to_string()];
    assert_eq!(remove_crd_version(&versions, "v1beta2"), vec!["v1beta3".to_string()]);
    assert_eq!(remove_crd_version(&versions, "v9"), versions);
}

#[test]
fn served_versions_lose_the_removed_one() {
    let names = vec!["v1beta2".to_string(), "v1beta3".to_string(), "v1beta2".to_string()];
    let served = vec![(1u32, "old"), (2u32, "new"), (3u32, "old again")];
    let kept = remove_served_version(served.clone(), &names, "v1beta2");
    assert_eq!(kept, vec![(2u32, "new")]);
    let kept_names = remove_crd_version(&names, "v1beta2");
    assert_eq!(remove_served_version(kept.clone(), &kept_names, "v1beta2"), kept);
    assert_eq!(remove_served_version(served.clone(), &names, "v9"), served);
}

#[test]
fn text_helpers() {
    assert_eq!(split_char("a/b//c", '/'), vec!["a", "b", "", "c"]);
    assert_eq!(join_strings(&vec!["10.0.0.5".to_string(), "fd00::5".to_string()], ","), "10.0.0.5,fd00::5");
    assert_eq!(join_strings(&vec![], ","), "");
    assert_eq!(u8_to_hex(0), "00");
    assert_eq!(u8_to_hex(0x0f), "0f");
    assert_eq!(u8_to_hex(0xab), "ab");
    assert_eq!(u64_to_decimal(6641), "6641");
    assert_eq!(u64_to_decimal(u64::MAX), "18446744073709551615");
}
