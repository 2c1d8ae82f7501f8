use cluster_manager::cluster::ceph::lowlevel::{
    auth_get_key_command, auth_key_from_reply, check_call, is_utf8, null_separeted_to_vec,
    try_null_separated_to_vec, KEYRING,
    POOL_TEMPLATES, POOL_VOLUMES,
};
use cluster_manager::cluster::ceph::volumes::{
    ceph_ensure_image_exists, ceph_ensure_image_removed, ensure_exists, ensure_finalizer,
    ensure_removed, image_listed, keyring_secret, remove_finalizer, volume_size, ImageAction, VolumeAction,
    CEPH_FINALIZER, KEYRING_SECRET,
};
use cluster_manager::crd::ceph::{Volume, VolumeSpec};
use cluster_manager::errors::{Error, RadosError};
use cluster_manager::json::{JsonNumber, JsonValue};
use cluster_manager::meta::ObjectMeta;

fn to_serde(v: &JsonValue) -> serde_json::Value {
    match v {
        JsonValue::Null => serde_json::Value::Null,
        JsonValue::Bool(b) => serde_json::Value::Bool(*b),
        JsonValue::Number(JsonNumber::PosInt(n)) => serde_json::Value::from(*n),
        JsonValue::Number(JsonNumber::NegInt(n)) => serde_json::Value::from(*n),
        JsonValue::Number(JsonNumber::Float(s)) => serde_json::Value::String(s.clone()),
        JsonValue::Str(s) => serde_json::Value::String(s.clone()),
        JsonValue::Array(items) => serde_json::Value::Array(items.iter().map(to_serde).collect()),
        JsonValue::Object(entries) => serde_json::Value::Object(
            entries.iter().map(|e| (e.key.clone(), to_serde(&e.value))).collect(),
        ),
    }
}

fn parse(text: &str) -> serde_json::Value {
    serde_json::from_str(text).unwrap()
}

fn strings(items: &[&str]) -> Vec<String> {
    items.iter().map(|s| s.to_string()).collect()
}

#[test]
fn pool_and_user_names() {
    assert_eq!(POOL_VOLUMES, "volumes");
    assert_eq!(POOL_TEMPLATES, "templates");
    assert_eq!(KEYRING, "client.libvirt");
    assert_eq!(KEYRING_SECRET, "ceph-client.libvirt");
}

#[test]
fn negative_codes_are_errors() {
    assert!(check_call("rbd_list", 0).is_ok());
    assert!(check_call("rbd_list", 3).is_ok());
    match check_call("rbd_list", -2) {
        Err(Error::Rados(RadosError { operation, code })) => {
            assert_eq!(operation, "rbd_list");
            assert_eq!(code, -2);
        }
        other => panic!("unexpected {other:?}"),
    }
}

#[test]
fn rados_error_message() {
    let e = RadosError { operation: "rbd_create".to_string(), code: -17 };
    assert_eq!(e.describe("File exists"), "librados error during rbd_create: File exists (-17)");
    let e = RadosError { operation: "auth get-key".to_string(), code: 1 };
    assert_eq!(e.describe("Operation not permitted"), "librados error during auth get-key: Operation not permitted (1)");
    let e = RadosError { operation: "x".to_string(), code: i32::MIN };
    assert_eq!(e.describe("n"), "librados error during x: n (-2147483648)");
}

#[test]
fn zero_separated_names_read_back() {
    let mut buffer = b"volumes\0templates\0\0".to_vec();
    buffer.resize(1024, 0);
    assert_eq!(null_separeted_to_vec(buffer), strings(&["volumes", "templates"]));
}

#[test]
fn zero_separated_list_edge_cases() {
    assert_eq!(null_separeted_to_vec(vec![0; 16]), Vec::<String>::new());
    assert_eq!(null_separeted_to_vec(vec![]), Vec::<String>::new());
    assert_eq!(null_separeted_to_vec(b"last".to_vec()), strings(&["last"]));
    assert_eq!(null_separeted_to_vec(b"a\0\0b\0".to_vec()), strings(&["a"]));
    assert_eq!(null_separeted_to_vec("v\u{e9}\0".as_bytes().to_vec()), strings(&["v\u{e9}"]));
}

#[test]
fn zero_separated_round_trip() {
    let names = ["ns-vm1", "ns-vm2", "template-debian"];
    let mut buffer = Vec::new();
    for name in names {
        buffer.extend_from_slice(name.as_bytes());
        buffer.push(0);
    }
    buffer.extend_from_slice(&[0, 7, 7]);
    assert_eq!(null_separeted_to_vec(buffer), strings(&names));
}

#[test]
fn auth_command_names_the_user() {
    assert_eq!(
        to_serde(&auth_get_key_command("client.libvirt")),
        parse(r#"{"prefix": "auth get-key", "entity": "client.libvirt"}"#)
    );
}

#[test]
fn auth_key_reply() {
    assert_eq!(auth_key_from_reply(0, b"AQBk==".to_vec()).unwrap(), "AQBk==");
    match auth_key_from_reply(0, vec![]) {
        Err(Error::Rados(RadosError { operation, code })) => {
            assert_eq!(operation, "auth get-key");
            assert_eq!(code, 1);
        }
        other => panic!("unexpected {other:?}"),
    }
    match auth_key_from_reply(-13, b"ignored".to_vec()) {
        Err(Error::Rados(RadosError { operation, code })) => {
            assert_eq!(operation, "rados_mon_command (auth get-key)");
            assert_eq!(code, -13);
        }
        other => panic!("unexpected {other:?}"),
    }
}

#[test]
fn volume_image_creation_plan() {
    let images = strings(&["ns-a", "ns-b"]);
    assert!(image_listed(&images, "ns-b"));
    assert!(!image_listed(&images, "ns-c"));
    assert!(matches!(ensure_exists(&images, "ns-a", 10, None), VolumeAction::Keep));
    match ensure_exists(&images, "ns-c", 1 << 30, None) {
        VolumeAction::Create { name, size } => {
            assert_eq!(name, "ns-c");
            assert_eq!(size, 1 << 30);
        }
        _ => panic!("expected a new image"),
    }
    match ensure_exists(&images, "ns-c", 5, Some("debian".to_string())) {
        VolumeAction::CloneFrom { name, size, template } => {
            assert_eq!((name.as_str(), size, template.as_str()), ("ns-c", 5, "debian"));
        }
        _ => panic!("expected a clone"),
    }
    assert!(ensure_removed(&images, "ns-a"));
    assert!(!ensure_removed(&images, "ns-x"));
}

#[test]
fn template_images() {
    let images = strings(&["ns-debian"]);
    assert!(matches!(ceph_ensure_image_exists(&images, "ns-debian", "http://x"), ImageAction::Keep));
    assert!(matches!(
        ceph_ensure_image_exists(&images, "ns-ubuntu", "http://x/ubuntu.img"),
        ImageAction::CreateFrom { name, source } if name == "ns-ubuntu" && source == "http://x/ubuntu.img"
    ));
    assert!(ceph_ensure_image_removed(&images, "ns-debian"));
    assert!(!ceph_ensure_image_removed(&images, "ns-ubuntu"));
}

fn volume(size: &str) -> Volume {
    Volume {
        spec: VolumeSpec { size: size.to_string(), template: None },
        ..Volume::default()
    }
}

#[test]
fn volume_sizes() {
    assert_eq!(volume_size(&volume("1 GiB")).unwrap(), 1 << 30);
    assert_eq!(volume_size(&volume("10Gi")).unwrap(), 10 << 30);
    assert_eq!(volume_size(&volume("512")).unwrap(), 512);
    assert_eq!(volume_size(&volume("2 MB")).unwrap(), 2_000_000);
    assert!(matches!(volume_size(&volume("lots")), Err(Error::ParseHumanize(_))));
    assert!(matches!(volume_size(&volume("")), Err(Error::ParseHumanize(_))));
}

#[test]
fn finalizer_round_trip() {
    let mut meta = ObjectMeta::default();
    assert!(ensure_finalizer(&mut meta, CEPH_FINALIZER));
    assert_eq!(meta.finalizers, Some(strings(&[CEPH_FINALIZER])));
    assert!(!ensure_finalizer(&mut meta, CEPH_FINALIZER));
    meta.finalizers.as_mut().unwrap().insert(0, "other".to_string());
    assert!(remove_finalizer(&mut meta, CEPH_FINALIZER));
    assert_eq!(meta.finalizers, Some(strings(&["other"])));
    assert!(!remove_finalizer(&mut meta, CEPH_FINALIZER));
    assert_eq!(CEPH_FINALIZER, "cluster-virt.acl.fi/ceph");
}

#[test]
fn finalizer_appended_after_others() {
    let mut meta = ObjectMeta { finalizers: Some(strings(&["a"])), ..ObjectMeta::default() };
    assert!(ensure_finalizer(&mut meta, "b"));
    assert_eq!(meta.finalizers, Some(strings(&["a", "b"])));
}

#[test]
fn keyring_secret_document() {
    assert_eq!(
        to_serde(&keyring_secret("AQBk==", "cluster")),
        parse(
            r#"{"apiVersion": "v1", "kind": "Secret",
                "metadata": {"name": "ceph-client.libvirt", "namespace": "cluster"},
                "data": {"key": "AQBk=="}}"#
        )
    );
}

#[test]
fn invalid_names_are_refused() {
    assert_eq!(try_null_separated_to_vec(b"ok\0\xff\xfe\0".to_vec()), None);
    assert_eq!(try_null_separated_to_vec(b"ok\0\0\xff".to_vec()), Some(strings(&["ok"])));
    assert!(is_utf8(&b"AQBk==".to_vec()));
    assert!(!is_utf8(&vec![0xc3]));
}
