//! Ceph volumes and images.
use vstd::prelude::*;

use crate::meta::ObjectMeta;

verus! {

/// A quantity with a unit suffix, such as "1 Gi".
#[derive(Debug, PartialEq, Eq, Default)]
pub struct Quantity(pub String);

/// The spec of a volume: its size (a quantity such as "1 Gi") and the image it is a
/// copy of, if any.
#[derive(Debug, PartialEq, Eq, Default)]
pub struct VolumeSpec {
    pub size: String,
    pub template: Option<String>,
}

/// The status of a volume.
#[derive(Debug, PartialEq, Eq)]
pub struct VolumeStatus {
    pub is_created: bool,
}

/// The spec of an image: where it is fetched from.
#[derive(Debug, PartialEq, Eq, Default)]
pub struct ImageSpec {
    pub source: String,
}

/// The status of an image.
#[derive(Debug, PartialEq, Eq)]
pub struct ImageStatus {
    pub size: usize,
    pub is_allocated: bool,
    pub is_imported: bool,
    pub import_in_progress: bool,
}

/// A volume resource.
#[derive(Debug, PartialEq, Eq, Default)]
pub struct Volume {
    pub metadata: ObjectMeta,
    pub spec: VolumeSpec,
    pub status: Option<VolumeStatus>,
}

/// An image resource.
#[derive(Debug, PartialEq, Eq, Default)]
pub struct Image {
    pub metadata: ObjectMeta,
    pub spec: ImageSpec,
    pub status: Option<ImageStatus>,
}

} // verus!
