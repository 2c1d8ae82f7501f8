//! The decisions of the volume and image controllers: which Ceph images to create,
//! clone or remove, the finalizer that guards them, and the secret that holds the key
//! libvirt uses.
use vstd::prelude::*;
use vstd::utf8::is_ascii_chars;

use crate::crd::ceph::Volume;
use crate::errors::Error;
use crate::json::{json_entry, json_object, json_str, JsonData, JsonEntry, JsonValue};
use crate::meta::{finalizer_list, ObjectMeta};
use crate::text::{str_equal, string_views};

verus! {

broadcast use crate::json::data::group_json_view;

/// The API group of the cluster's resources, which names their finalizers.
pub const GROUP_NAME: &'static str = "cluster-virt.acl.fi";

/// The finalizer that keeps a volume or an image until its Ceph image is removed.
pub const CEPH_FINALIZER: &'static str = "cluster-virt.acl.fi/ceph";

/// The secret that holds the key of the Ceph user of libvirt.
pub const KEYRING_SECRET: &'static str = "ceph-client.libvirt";

/// Whether the image `name` is among `images`.
pub fn image_listed(images: &Vec<String>, name: &str) -> (r: bool)
    ensures
        r == string_views(images@).contains(name@),
{
    let mut i: usize = 0;
    while i < images.len()
        invariant
            i <= images.len(),
            forall|j: int| 0 <= j < i ==> images@[j]@ != name@,
        decreases images.len() - i,
    {
        if str_equal(images[i].as_str(), name) {
            assert(string_views(images@)[i as int] == name@);
            return true;
        }
        i = i + 1;
    }
    proof {
        if string_views(images@).contains(name@) {
            let j = choose|j: int| 0 <= j < images.len() && string_views(images@)[j] == name@;
            assert(images@[j]@ == name@);
        }
    }
    false
}

/// What makes a volume's image exist.
pub enum VolumeAction {
    /// The image exists already.
    Keep,
    /// A new image of `size` bytes is created.
    Create { name: String, size: u64 },
    /// The image is cloned from the template image `template`, with `size` bytes.
    CloneFrom { name: String, size: u64, template: String },
}

/// What makes the image `name` exist in the volume pool, whose images are `images`:
/// nothing when it is there, else a clone of the template when the volume names one,
/// else a new image.
pub fn ensure_exists(images: &Vec<String>, name: &str, size: u64, template: Option<String>) -> (r: VolumeAction)
    ensures
        string_views(images@).contains(name@) ==> r is Keep,
        !string_views(images@).contains(name@) ==> match template {
            Some(t) => r matches VolumeAction::CloneFrom { name: n, size: s, template: u } && n@ == name@ && s
                == size && u == t,
            None => r matches VolumeAction::Create { name: n, size: s } && n@ == name@ && s == size,
        },
{
    if image_listed(images, name) {
        return VolumeAction::Keep;
    }
    match template {
        Some(t) => VolumeAction::CloneFrom { name: name.to_owned(), size, template: t },
        None => VolumeAction::Create { name: name.to_owned(), size },
    }
}

/// Whether the image `name` must be removed from a pool whose images are `images`: it
/// is when it is there.
pub fn ensure_removed(images: &Vec<String>, name: &str) -> (r: bool)
    ensures
        r == string_views(images@).contains(name@),
{
    image_listed(images, name)
}

/// What makes an image of the template pool exist.
pub enum ImageAction {
    /// The image exists already.
    Keep,
    /// The image `name` is created from `source`, where it is fetched from.
    CreateFrom { name: String, source: String },
}

/// What makes the image `name` exist in the template pool, whose images are `images`:
/// nothing when it is there, else creating it from `source`.
pub fn ceph_ensure_image_exists(images: &Vec<String>, name: &str, source: &str) -> (r: ImageAction)
    ensures
        string_views(images@).contains(name@) ==> r is Keep,
        !string_views(images@).contains(name@) ==> (r matches ImageAction::CreateFrom { name: n, source: s }
            && n@ == name@ && s@ == source@),
{
    if image_listed(images, name) {
        ImageAction::Keep
    } else {
        ImageAction::CreateFrom { name: name.to_owned(), source: source.to_owned() }
    }
}

/// Whether the image `name` must be removed from the template pool, whose images are
/// `images`.
pub fn ceph_ensure_image_removed(images: &Vec<String>, name: &str) -> (r: bool)
    ensures
        r == string_views(images@).contains(name@),
{
    image_listed(images, name)
}

/// The size in bytes that a size text such as "10 GiB" names, as `humanize_rs` reads
/// `Bytes<u64>`.
pub uninterp spec fn spec_parse_bytes(text: Seq<char>) -> Option<u64>;

/// `str::parse::<humanize_rs::bytes::Bytes<u64>>` then `size()`: the number of bytes a
/// size text names, or the parser's error. The parser finds the unit by counting
/// characters and splits the text at that count as a byte index, which panics when a
/// character of more than one byte comes first; ASCII text never does.
#[verifier::external_body]
fn parse_bytes(text: &str) -> (r: Result<u64, humanize_rs::ParseError>)
    requires
        is_ascii_chars(text@),
    ensures
        match r {
            Ok(n) => spec_parse_bytes(text@) == Some(n),
            Err(_) => spec_parse_bytes(text@) is None,
        },
{
    match text.parse::<humanize_rs::bytes::Bytes<u64>>() {
        Ok(b) => Ok(b.size()),
        Err(e) => Err(e),
    }
}

/// The size in bytes of a volume, read from its ASCII size text; `ParseHumanize` when
/// the text names no size. The parser can panic on text that is not ASCII.
pub fn volume_size(volume: &Volume) -> (r: Result<u64, Error>)
    requires
        is_ascii_chars(volume.spec.size@),
    ensures
        match spec_parse_bytes(volume.spec.size@) {
            Some(n) => r == Ok::<u64, Error>(n),
            None => r matches Err(e) && e is ParseHumanize,
        },
{
    match parse_bytes(volume.spec.size.as_str()) {
        Ok(n) => Ok(n),
        Err(e) => Err(Error::ParseHumanize(e)),
    }
}

/// Adds the finalizer `finalizer` to an object that lacks it, creating the list when
/// it has none; says whether it did, that is whether the object must be written back.
pub fn ensure_finalizer(meta: &mut ObjectMeta, finalizer: &str) -> (r: bool)
    ensures
        r == !finalizer_list(old(meta).finalizers).contains(finalizer@),
        r ==> finalizer_list(final(meta).finalizers) == finalizer_list(old(meta).finalizers).push(finalizer@),
        !r ==> final(meta).finalizers == old(meta).finalizers,
        final(meta).name == old(meta).name,
        final(meta).namespace == old(meta).namespace,
        final(meta).labels == old(meta).labels,
        final(meta).annotations == old(meta).annotations,
        final(meta).deletion_timestamp == old(meta).deletion_timestamp,
{
    let present = match &meta.finalizers {
        Some(list) => image_listed(list, finalizer),
        None => false,
    };
    if present {
        return false;
    }
    match &mut meta.finalizers {
        Some(list) => {
            let ghost before = string_views(list@);
            list.push(finalizer.to_owned());
            assert(string_views(list@) =~= before.push(finalizer@));
        },
        None => {
            let mut list: Vec<String> = Vec::new();
            list.push(finalizer.to_owned());
            assert(string_views(list@) =~= Seq::<Seq<char>>::empty().push(finalizer@));
            meta.finalizers = Some(list);
        },
    }
    true
}

/// The finalizers other than `finalizer`, in order.
pub open spec fn without_finalizer(list: Seq<Seq<char>>, finalizer: Seq<char>) -> Seq<Seq<char>> {
    list.filter(other_than(finalizer))
}

/// The test that keeps the finalizers other than `finalizer`.
pub open spec fn other_than(finalizer: Seq<char>) -> spec_fn(Seq<char>) -> bool {
    |f: Seq<char>| f != finalizer
}

/// The finalizers once `finalizer` is ensured: unchanged when it is there, else with it
/// at the end.
pub open spec fn with_finalizer(list: Seq<Seq<char>>, finalizer: Seq<char>) -> Seq<Seq<char>> {
    if list.contains(finalizer) {
        list
    } else {
        list.push(finalizer)
    }
}

/// An object whose finalizer was ensured carries it; once it is removed the object
/// carries it no more, and its other finalizers are those it had before, in order.
pub proof fn lemma_finalizer_round_trip(list: Seq<Seq<char>>, finalizer: Seq<char>)
    ensures
        with_finalizer(list, finalizer).contains(finalizer),
        !without_finalizer(with_finalizer(list, finalizer), finalizer).contains(finalizer),
        without_finalizer(with_finalizer(list, finalizer), finalizer) == without_finalizer(list, finalizer),
{
    let pred = other_than(finalizer);
    broadcast use vstd::seq_lib::group_filter_ensures;
    if !list.contains(finalizer) {
        list.lemma_filter_push(finalizer, pred);
        assert(list.push(finalizer)[list.len() as int] == finalizer);
    }
    let w = without_finalizer(with_finalizer(list, finalizer), finalizer);
    if w.contains(finalizer) {
        let i = choose|i: int| 0 <= i < w.len() && w[i] == finalizer;
        assert(pred(w[i]));
    }
}

/// Removes the finalizer `finalizer` from an object that has it; says whether it did,
/// that is whether the object must be written back.
pub fn remove_finalizer(meta: &mut ObjectMeta, finalizer: &str) -> (r: bool)
    ensures
        r == finalizer_list(old(meta).finalizers).contains(finalizer@),
        r ==> finalizer_list(final(meta).finalizers) == without_finalizer(
            finalizer_list(old(meta).finalizers),
            finalizer@,
        ),
        !r ==> final(meta).finalizers == old(meta).finalizers,
        final(meta).name == old(meta).name,
        final(meta).namespace == old(meta).namespace,
        final(meta).labels == old(meta).labels,
        final(meta).annotations == old(meta).annotations,
        final(meta).deletion_timestamp == old(meta).deletion_timestamp,
{
    let present = match &meta.finalizers {
        Some(list) => image_listed(list, finalizer),
        None => false,
    };
    if !present {
        return false;
    }
    let ghost all = finalizer_list(meta.finalizers);
    let mut kept: Vec<String> = Vec::new();
    match &meta.finalizers {
        Some(list) => {
            let mut i: usize = 0;
            while i < list.len()
                invariant
                    i <= list.len(),
                    all == string_views(list@),
                    string_views(kept@) == without_finalizer(all.take(i as int), finalizer@),
                decreases list.len() - i,
            {
                proof {
                    assert(all.take(i + 1).drop_last() =~= all.take(i as int));
                    assert(all.take(i + 1).last() == list@[i as int]@);
                    all.take(i as int).lemma_filter_push(list@[i as int]@, other_than(finalizer@));
                    assert(all.take(i + 1) =~= all.take(i as int).push(list@[i as int]@));
                }
                if !str_equal(list[i].as_str(), finalizer) {
                    let ghost before = string_views(kept@);
                    kept.push(list[i].clone());
                    assert(string_views(kept@) =~= before.push(list@[i as int]@));
                }
                i = i + 1;
            }
            assert(all.take(list.len() as int) =~= all);
        },
        None => {},
    }
    meta.finalizers = Some(kept);
    true
}

/// The secret that holds the key of the Ceph user of libvirt, in the namespace
/// `namespace`.
pub open spec fn spec_keyring_secret(key: Seq<char>, namespace: Seq<char>) -> JsonData {
    JsonData::Object(
        seq![
            ("apiVersion"@, JsonData::Str("v1"@)),
            ("kind"@, JsonData::Str("Secret"@)),
            (
                "metadata"@,
                JsonData::Object(
                    seq![("name"@, JsonData::Str(KEYRING_SECRET@)), ("namespace"@, JsonData::Str(namespace))],
                ),
            ),
            ("data"@, JsonData::Object(seq![("key"@, JsonData::Str(key))])),
        ],
    )
}

/// The secret that stores the key `key` of the Ceph user of libvirt.
pub fn keyring_secret(key: &str, namespace: &str) -> (r: JsonValue)
    ensures
        r@ == spec_keyring_secret(key@, namespace@),
{
    let mut meta: Vec<JsonEntry> = Vec::new();
    meta.push(json_entry("name", json_str(KEYRING_SECRET)));
    meta.push(json_entry("namespace", json_str(namespace)));
    let mut data: Vec<JsonEntry> = Vec::new();
    data.push(json_entry("key", json_str(key)));
    let mut top: Vec<JsonEntry> = Vec::new();
    top.push(json_entry("apiVersion", json_str("v1")));
    top.push(json_entry("kind", json_str("Secret")));
    let ghost meta_view = crate::json::entries_view(meta@);
    let ghost data_view = crate::json::entries_view(data@);
    top.push(json_entry("metadata", json_object(meta)));
    top.push(json_entry("data", json_object(data)));
    assert(meta_view =~= seq![("name"@, JsonData::Str(KEYRING_SECRET@)), ("namespace"@, JsonData::Str(namespace@))]);
    assert(data_view =~= seq![("key"@, JsonData::Str(key@))]);
    let r = json_object(top);
    assert(crate::json::entries_view(top@) =~= spec_keyring_secret(key@, namespace@)->Object_0);
    r
}

} // verus!
