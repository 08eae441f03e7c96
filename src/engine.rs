//! The engine's image models, made known to the verifier field by field.

use vstd::prelude::*;

verus! {

#[verifier::external_type_specification]
pub struct ExImageSummary(bollard::models::ImageSummary);

#[verifier::external_type_specification]
pub struct ExImageManifestSummary(bollard::models::ImageManifestSummary);

#[verifier::external_type_specification]
pub struct ExImageManifestSummarySize(bollard::models::ImageManifestSummarySize);

#[verifier::external_type_specification]
pub struct ExImageManifestSummaryKindEnum(bollard::models::ImageManifestSummaryKindEnum);

#[verifier::external_type_specification]
pub struct ExImageManifestSummaryImageData(bollard::models::ImageManifestSummaryImageData);

#[verifier::external_type_specification]
pub struct ExImageManifestSummaryImageDataSize(bollard::models::ImageManifestSummaryImageDataSize);

#[verifier::external_type_specification]
pub struct ExImageManifestSummaryAttestationData(
    bollard::models::ImageManifestSummaryAttestationData,
);

#[verifier::external_type_specification]
pub struct ExOciDescriptor(bollard::models::OciDescriptor);

#[verifier::external_type_specification]
pub struct ExOciPlatform(bollard::models::OciPlatform);

} // verus!
