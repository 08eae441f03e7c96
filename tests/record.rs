use bollard::models::{
    ImageManifestSummary, ImageManifestSummaryAttestationData, ImageManifestSummaryImageData,
    ImageManifestSummaryImageDataSize, ImageManifestSummaryKindEnum, ImageManifestSummarySize,
    ImageSummary, OciDescriptor, OciPlatform,
};
use rs_docker_images2ql::record::{
    ImgSummary, ManifestSummary, ManifestSummaryAttestationData, ManifestSummaryImageData,
    ManifestSummaryImageDataSize, ManifestSummaryKind, Od, Op,
};
use std::collections::HashMap;

fn platform() -> OciPlatform {
    OciPlatform {
        architecture: Some("arm64".to_string()),
        os: Some("linux".to_string()),
        os_version: None,
        os_features: Some(vec!["sse4".to_string()]),
        variant: Some("v8".to_string()),
    }
}

fn descriptor() -> OciDescriptor {
    let mut annotations = HashMap::new();
    annotations.insert("k".to_string(), "v".to_string());
    OciDescriptor {
        media_type: Some("application/vnd.oci.image.index.v1+json".to_string()),
        digest: Some("sha256:abc".to_string()),
        size: Some(512),
        urls: None,
        annotations: Some(annotations),
        data: None,
        platform: Some(platform()),
        artifact_type: None,
    }
}

fn manifest(kind: Option<ImageManifestSummaryKindEnum>) -> ImageManifestSummary {
    ImageManifestSummary {
        id: "m1".to_string(),
        descriptor: descriptor(),
        available: true,
        size: ImageManifestSummarySize { total: 900, content: 700 },
        kind,
        image_data: Some(ImageManifestSummaryImageData {
            platform: platform(),
            containers: vec!["c1".to_string(), "c2".to_string()],
            size: ImageManifestSummaryImageDataSize { unpacked: 1200 },
        }),
        attestation_data: None,
    }
}

#[test]
fn kind_maps_each_variant() {
    assert!(ManifestSummaryKind::from(ImageManifestSummaryKindEnum::EMPTY) == ManifestSummaryKind::Empty);
    assert!(ManifestSummaryKind::from(ImageManifestSummaryKindEnum::IMAGE) == ManifestSummaryKind::Image);
    assert!(
        ManifestSummaryKind::from(ImageManifestSummaryKindEnum::ATTESTATION)
            == ManifestSummaryKind::Attestation
    );
}

#[test]
fn unrecognized_kind_maps_to_unknown() {
    assert!(ManifestSummaryKind::from(ImageManifestSummaryKindEnum::UNKNOWN) == ManifestSummaryKind::Unknown);
}

#[test]
fn platform_copies_every_field() {
    let o = Op::from(platform());
    assert_eq!(o.architecture.as_deref(), Some("arm64"));
    assert_eq!(o.os.as_deref(), Some("linux"));
    assert_eq!(o.os_version, None);
    assert_eq!(o.os_features, Some(vec!["sse4".to_string()]));
    assert_eq!(o.variant.as_deref(), Some("v8"));
}

#[test]
fn descriptor_keeps_absent_and_present_fields() {
    let o = Od::from(descriptor());
    assert_eq!(o.media_type.as_deref(), Some("application/vnd.oci.image.index.v1+json"));
    assert_eq!(o.digest.as_deref(), Some("sha256:abc"));
    assert_eq!(o.size, Some(512));
    assert_eq!(o.urls, None);
    assert_eq!(o.annotations.as_ref().and_then(|a| a.get("k")).map(|v| v.as_str()), Some("v"));
    assert_eq!(o.data, None);
    assert_eq!(o.platform.as_ref().and_then(|p| p.variant.as_deref()), Some("v8"));
    assert_eq!(o.artifact_type, None);
    let bare = Od::from(OciDescriptor::default());
    assert!(bare.platform.is_none() && bare.annotations.is_none() && bare.size.is_none());
}

#[test]
fn image_data_and_attestation_are_copied() {
    let d = ManifestSummaryImageData::from(manifest(None).image_data.unwrap());
    assert_eq!(d.containers, vec!["c1".to_string(), "c2".to_string()]);
    assert_eq!(d.size.unpacked, 1200);
    assert_eq!(d.platform.os.as_deref(), Some("linux"));
    let s = ManifestSummaryImageDataSize::from(ImageManifestSummaryImageDataSize { unpacked: 7 });
    assert_eq!(s.unpacked, 7);
    let a = ManifestSummaryAttestationData::from(ImageManifestSummaryAttestationData {
        _for: "sha256:def".to_string(),
    });
    assert_eq!(a._for, "sha256:def");
}

#[test]
fn manifest_maps_fields_and_kind() {
    let m = ManifestSummary::from(manifest(Some(ImageManifestSummaryKindEnum::IMAGE)));
    assert_eq!(m.id, "m1");
    assert!(m.available);
    assert_eq!((m.size.total, m.size.content), (900, 700));
    assert!(m.kind == Some(ManifestSummaryKind::Image));
    assert_eq!(m.image_data.as_ref().map(|d| d.size.unpacked), Some(1200));
    assert!(m.attestation_data.is_none());
    assert_eq!(m.descriptor.digest.as_deref(), Some("sha256:abc"));
    let none = ManifestSummary::from(manifest(None));
    assert!(none.kind.is_none());
}

#[test]
fn image_copies_fields_and_maps_manifests() {
    let mut labels = HashMap::new();
    labels.insert("team".to_string(), "infra".to_string());
    let s = ImageSummary {
        id: "sha256:1".to_string(),
        parent_id: "sha256:0".to_string(),
        repo_tags: vec!["app:latest".to_string()],
        repo_digests: vec!["app@sha256:9".to_string()],
        created: 1_700_000_000,
        size: 4096,
        shared_size: -1,
        virtual_size: Some(8192),
        labels,
        containers: 2,
        manifests: Some(vec![
            manifest(Some(ImageManifestSummaryKindEnum::ATTESTATION)),
            manifest(Some(ImageManifestSummaryKindEnum::UNKNOWN)),
        ]),
        descriptor: Some(descriptor()),
    };
    let r = ImgSummary::from(s);
    assert_eq!(r.id, "sha256:1");
    assert_eq!(r.parent_id, "sha256:0");
    assert_eq!(r.repo_tags, vec!["app:latest".to_string()]);
    assert_eq!(r.repo_digests, vec!["app@sha256:9".to_string()]);
    assert_eq!((r.created, r.size, r.shared_size), (1_700_000_000, 4096, -1));
    assert_eq!(r.virtual_size, Some(8192));
    assert_eq!(r.labels.get("team").map(|v| v.as_str()), Some("infra"));
    assert_eq!(r.containers, 2);
    let ms = r.manifests.unwrap();
    assert_eq!(ms.len(), 2);
    assert!(ms[0].kind == Some(ManifestSummaryKind::Attestation));
    assert!(ms[1].kind == Some(ManifestSummaryKind::Unknown));
    assert_eq!(r.descriptor.and_then(|d| d.size), Some(512));
}

#[test]
fn image_keeps_absent_optional_fields_absent() {
    let r = ImgSummary::from(ImageSummary::default());
    assert!(r.virtual_size.is_none());
    assert!(r.manifests.is_none());
    assert!(r.descriptor.is_none());
    let empty = ImgSummary::from(ImageSummary { manifests: Some(Vec::new()), ..Default::default() });
    assert_eq!(empty.manifests.map(|m| m.len()), Some(0));
}
