//! The query-facing records and their construction from the engine's models.

use bollard::models::{
    ImageManifestSummary, ImageManifestSummaryAttestationData, ImageManifestSummaryImageData,
    ImageManifestSummaryImageDataSize, ImageManifestSummaryKindEnum, ImageSummary, OciDescriptor,
    OciPlatform,
};
use std::collections::HashMap;
use vstd::prelude::*;
use vstd::std_specs::convert::FromSpecImpl;

verus! {

/// A platform: architecture, operating system and its details.
#[derive(Clone)]
pub struct Op {
    pub architecture: Option<String>,
    pub os: Option<String>,
    pub os_version: Option<String>,
    pub os_features: Option<Vec<String>>,
    pub variant: Option<String>,
}

/// The record for an engine platform: every field copied as it stands.
pub open spec fn platform_of(p: OciPlatform) -> Op {
    Op {
        architecture: p.architecture,
        os: p.os,
        os_version: p.os_version,
        os_features: p.os_features,
        variant: p.variant,
    }
}

impl From<OciPlatform> for Op {
    fn from(p: OciPlatform) -> (r: Op) {
        Op {
            architecture: p.architecture,
            os: p.os,
            os_version: p.os_version,
            os_features: p.os_features,
            variant: p.variant,
        }
    }
}

impl FromSpecImpl<OciPlatform> for Op {
    open spec fn obeys_from_spec() -> bool {
        true
    }

    open spec fn from_spec(p: OciPlatform) -> Op {
        platform_of(p)
    }
}

/// A content-addressable reference to a manifest or a blob.
#[derive(Clone)]
pub struct Od {
    pub media_type: Option<String>,
    pub digest: Option<String>,
    pub size: Option<i64>,
    pub urls: Option<Vec<String>>,
    pub annotations: Option<HashMap<String, String>>,
    pub data: Option<String>,
    pub platform: Option<Op>,
    pub artifact_type: Option<String>,
}

/// The record for an engine descriptor: every field copied, the platform
/// through `platform_of`, each absent field left absent.
pub open spec fn descriptor_of(d: OciDescriptor) -> Od {
    Od {
        media_type: d.media_type,
        digest: d.digest,
        size: d.size,
        urls: d.urls,
        annotations: d.annotations,
        data: d.data,
        platform: match d.platform {
            Some(p) => Some(platform_of(p)),
            None => None,
        },
        artifact_type: d.artifact_type,
    }
}

impl From<OciDescriptor> for Od {
    fn from(d: OciDescriptor) -> (r: Od) {
        let platform = match d.platform {
            Some(p) => Some(Op::from(p)),
            None => None,
        };
        Od {
            media_type: d.media_type,
            digest: d.digest,
            size: d.size,
            urls: d.urls,
            annotations: d.annotations,
            data: d.data,
            platform,
            artifact_type: d.artifact_type,
        }
    }
}

impl FromSpecImpl<OciDescriptor> for Od {
    open spec fn obeys_from_spec() -> bool {
        true
    }

    open spec fn from_spec(d: OciDescriptor) -> Od {
        descriptor_of(d)
    }
}

/// What a manifest describes.
#[derive(Clone, Copy, PartialEq, Eq, Structural)]
pub enum ManifestSummaryKind {
    Empty,
    Image,
    Attestation,
    Unknown,
}

/// The kind for an engine manifest kind. Every value the engine may send
/// besides the three it names maps to `Unknown`: the mapping is total.
pub open spec fn kind_of(k: ImageManifestSummaryKindEnum) -> ManifestSummaryKind {
    match k {
        ImageManifestSummaryKindEnum::EMPTY => ManifestSummaryKind::Empty,
        ImageManifestSummaryKindEnum::IMAGE => ManifestSummaryKind::Image,
        ImageManifestSummaryKindEnum::ATTESTATION => ManifestSummaryKind::Attestation,
        _ => ManifestSummaryKind::Unknown,
    }
}

impl From<ImageManifestSummaryKindEnum> for ManifestSummaryKind {
    fn from(k: ImageManifestSummaryKindEnum) -> (r: ManifestSummaryKind) {
        match k {
            ImageManifestSummaryKindEnum::EMPTY => ManifestSummaryKind::Empty,
            ImageManifestSummaryKindEnum::IMAGE => ManifestSummaryKind::Image,
            ImageManifestSummaryKindEnum::ATTESTATION => ManifestSummaryKind::Attestation,
            _ => ManifestSummaryKind::Unknown,
        }
    }
}

impl FromSpecImpl<ImageManifestSummaryKindEnum> for ManifestSummaryKind {
    open spec fn obeys_from_spec() -> bool {
        true
    }

    open spec fn from_spec(k: ImageManifestSummaryKindEnum) -> ManifestSummaryKind {
        kind_of(k)
    }
}

/// The total and content sizes of a manifest.
#[derive(Clone)]
pub struct ManifestSummarySize {
    pub total: i64,
    pub content: i64,
}

/// The unpacked size of an image manifest's layers.
#[derive(Clone)]
pub struct ManifestSummaryImageDataSize {
    pub unpacked: i64,
}

impl From<ImageManifestSummaryImageDataSize> for ManifestSummaryImageDataSize {
    fn from(s: ImageManifestSummaryImageDataSize) -> (r: ManifestSummaryImageDataSize) {
        ManifestSummaryImageDataSize { unpacked: s.unpacked }
    }
}

impl FromSpecImpl<ImageManifestSummaryImageDataSize> for ManifestSummaryImageDataSize {
    open spec fn obeys_from_spec() -> bool {
        true
    }

    open spec fn from_spec(s: ImageManifestSummaryImageDataSize) -> ManifestSummaryImageDataSize {
        ManifestSummaryImageDataSize { unpacked: s.unpacked }
    }
}

/// What an image manifest holds: its platform, the containers that use it,
/// and its size.
#[derive(Clone)]
pub struct ManifestSummaryImageData {
    pub platform: Op,
    pub containers: Vec<String>,
    pub size: ManifestSummaryImageDataSize,
}

/// The record for an engine image-manifest payload.
pub open spec fn image_data_of(d: ImageManifestSummaryImageData) -> ManifestSummaryImageData {
    ManifestSummaryImageData {
        platform: platform_of(d.platform),
        containers: d.containers,
        size: ManifestSummaryImageDataSize { unpacked: d.size.unpacked },
    }
}

impl From<ImageManifestSummaryImageData> for ManifestSummaryImageData {
    fn from(d: ImageManifestSummaryImageData) -> (r: ManifestSummaryImageData) {
        ManifestSummaryImageData {
            platform: Op::from(d.platform),
            containers: d.containers,
            size: ManifestSummaryImageDataSize::from(d.size),
        }
    }
}

impl FromSpecImpl<ImageManifestSummaryImageData> for ManifestSummaryImageData {
    open spec fn obeys_from_spec() -> bool {
        true
    }

    open spec fn from_spec(d: ImageManifestSummaryImageData) -> ManifestSummaryImageData {
        image_data_of(d)
    }
}

/// The subject that an attestation manifest speaks for.
#[derive(Clone)]
pub struct ManifestSummaryAttestationData {
    pub _for: String,
}

impl From<ImageManifestSummaryAttestationData> for ManifestSummaryAttestationData {
    fn from(d: ImageManifestSummaryAttestationData) -> (r: ManifestSummaryAttestationData) {
        ManifestSummaryAttestationData { _for: d._for }
    }
}

impl FromSpecImpl<ImageManifestSummaryAttestationData> for ManifestSummaryAttestationData {
    open spec fn obeys_from_spec() -> bool {
        true
    }

    open spec fn from_spec(d: ImageManifestSummaryAttestationData) -> ManifestSummaryAttestationData {
        ManifestSummaryAttestationData { _for: d._for }
    }
}

/// One platform-specific manifest of an image.
#[derive(Clone)]
pub struct ManifestSummary {
    pub id: String,
    pub descriptor: Od,
    pub available: bool,
    pub size: ManifestSummarySize,
    pub kind: Option<ManifestSummaryKind>,
    pub image_data: Option<ManifestSummaryImageData>,
    pub attestation_data: Option<ManifestSummaryAttestationData>,
}

/// The record for an engine manifest: each field copied or mapped, each
/// absent field left absent.
pub open spec fn manifest_of(s: ImageManifestSummary) -> ManifestSummary {
    ManifestSummary {
        id: s.id,
        descriptor: descriptor_of(s.descriptor),
        available: s.available,
        size: ManifestSummarySize { total: s.size.total, content: s.size.content },
        kind: match s.kind {
            Some(k) => Some(kind_of(k)),
            None => None,
        },
        image_data: match s.image_data {
            Some(d) => Some(image_data_of(d)),
            None => None,
        },
        attestation_data: match s.attestation_data {
            Some(d) => Some(ManifestSummaryAttestationData { _for: d._for }),
            None => None,
        },
    }
}

impl From<ImageManifestSummary> for ManifestSummary {
    fn from(s: ImageManifestSummary) -> (r: ManifestSummary) {
        let kind = match s.kind {
            Some(k) => Some(ManifestSummaryKind::from(k)),
            None => None,
        };
        let image_data = match s.image_data {
            Some(d) => Some(ManifestSummaryImageData::from(d)),
            None => None,
        };
        let attestation_data = match s.attestation_data {
            Some(d) => Some(ManifestSummaryAttestationData::from(d)),
            None => None,
        };
        ManifestSummary {
            id: s.id,
            descriptor: Od::from(s.descriptor),
            available: s.available,
            size: ManifestSummarySize { total: s.size.total, content: s.size.content },
            kind,
            image_data,
            attestation_data,
        }
    }
}

impl FromSpecImpl<ImageManifestSummary> for ManifestSummary {
    open spec fn obeys_from_spec() -> bool {
        true
    }

    open spec fn from_spec(s: ImageManifestSummary) -> ManifestSummary {
        manifest_of(s)
    }
}

/// One stored image, as the query serves it.
#[derive(Clone)]
pub struct ImgSummary {
    pub id: String,
    pub parent_id: String,
    pub repo_tags: Vec<String>,
    pub repo_digests: Vec<String>,
    pub created: i64,
    pub size: i64,
    pub shared_size: i64,
    pub virtual_size: Option<i64>,
    pub labels: HashMap<String, String>,
    pub containers: i64,
    pub manifests: Option<Vec<ManifestSummary>>,
    pub descriptor: Option<Od>,
}

/// `r` is `s` mapped element by element through `manifest_of`.
pub open spec fn manifests_mapped(s: Seq<ImageManifestSummary>, r: Seq<ManifestSummary>) -> bool {
    r == s.map_values(|m: ImageManifestSummary| manifest_of(m))
}

/// `r` is the record for the engine image `s`: the scalar, list and map
/// fields are copied as they stand, the manifests are mapped one by one in
/// their order, the descriptor through `descriptor_of`, and every absent
/// field stays absent.
pub open spec fn image_mapped(s: ImageSummary, r: ImgSummary) -> bool {
    &&& r.id == s.id
    &&& r.parent_id == s.parent_id
    &&& r.repo_tags == s.repo_tags
    &&& r.repo_digests == s.repo_digests
    &&& r.created == s.created
    &&& r.size == s.size
    &&& r.shared_size == s.shared_size
    &&& r.virtual_size == s.virtual_size
    &&& r.labels == s.labels
    &&& r.containers == s.containers
    &&& match (s.manifests, r.manifests) {
        (None, None) => true,
        (Some(sm), Some(rm)) => manifests_mapped(sm@, rm@),
        _ => false,
    }
    &&& r.descriptor == match s.descriptor {
        Some(d) => Some(descriptor_of(d)),
        None => None,
    }
}

fn manifest_records(ms: Vec<ImageManifestSummary>) -> (r: Vec<ManifestSummary>)
    ensures
        manifests_mapped(ms@, r@),
{
    let ghost src = ms@;
    let mut out: Vec<ManifestSummary> = Vec::new();
    for m in it: ms.into_iter()
        invariant
            it.seq() == src,
            out@ == src.take(it.index() as int).map_values(|m: ImageManifestSummary| manifest_of(m)),
    {
        proof {
            assert(src.take(it.index() + 1) == src.take(it.index() as int).push(m));
        }
        out.push(ManifestSummary::from(m));
    }
    assert(src.take(src.len() as int) == src);
    out
}

impl ImgSummary {
    /// The record for the engine image `s`. The manifest list has no closed
    /// form in specifications, so the result is described by `image_mapped`.
    pub fn from(s: ImageSummary) -> (r: ImgSummary)
        ensures
            image_mapped(s, r),
    {
        let manifests = match s.manifests {
            Some(ms) => Some(manifest_records(ms)),
            None => None,
        };
        let descriptor = match s.descriptor {
            Some(d) => Some(Od::from(d)),
            None => None,
        };
        ImgSummary {
            id: s.id,
            parent_id: s.parent_id,
            repo_tags: s.repo_tags,
            repo_digests: s.repo_digests,
            created: s.created,
            size: s.size,
            shared_size: s.shared_size,
            virtual_size: s.virtual_size,
            labels: s.labels,
            containers: s.containers,
            manifests,
            descriptor,
        }
    }
}

/// An engine manifest kind other than the three named ones maps to
/// `Unknown`; the mapping has no failing case.
pub proof fn lemma_unrecognized_kind_is_unknown(k: ImageManifestSummaryKindEnum)
    requires
        k != ImageManifestSummaryKindEnum::EMPTY,
        k != ImageManifestSummaryKindEnum::IMAGE,
        k != ImageManifestSummaryKindEnum::ATTESTATION,
    ensures
        kind_of(k) == ManifestSummaryKind::Unknown,
{
}

/// The record of a descriptor keeps each optional field: absent where the
/// engine's is absent, equal to it where present, the platform's own
/// optional fields included.
pub proof fn lemma_descriptor_keeps_optional_fields(d: OciDescriptor)
    ensures
        descriptor_of(d).media_type == d.media_type,
        descriptor_of(d).digest == d.digest,
        descriptor_of(d).size == d.size,
        descriptor_of(d).urls == d.urls,
        descriptor_of(d).annotations == d.annotations,
        descriptor_of(d).data == d.data,
        descriptor_of(d).artifact_type == d.artifact_type,
        descriptor_of(d).platform is None <==> d.platform is None,
        d.platform is Some ==> descriptor_of(d).platform->0 == platform_of(d.platform->0),
        d.platform is Some ==> {
            let (p, o) = (d.platform->0, descriptor_of(d).platform->0);
            &&& o.architecture == p.architecture
            &&& o.os == p.os
            &&& o.os_version == p.os_version
            &&& o.os_features == p.os_features
            &&& o.variant == p.variant
        },
{
}

/// The record of an image keeps each optional field: absent where the
/// engine's is absent, and where present equal to it, or for the manifest
/// list, of the same length with each manifest mapped in place.
pub proof fn lemma_image_keeps_optional_fields(s: ImageSummary, r: ImgSummary)
    requires
        image_mapped(s, r),
    ensures
        r.virtual_size == s.virtual_size,
        r.manifests is None <==> s.manifests is None,
        s.manifests is Some ==> r.manifests->0@.len() == s.manifests->0@.len(),
        s.manifests is Some ==> forall|i: int| 0 <= i < s.manifests->0@.len()
            ==> r.manifests->0@[i] == manifest_of(#[trigger] s.manifests->0@[i]),
        r.descriptor is None <==> s.descriptor is None,
        s.descriptor is Some ==> r.descriptor->0 == descriptor_of(s.descriptor->0),
{
}

} // verus!
