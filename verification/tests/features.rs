use descriptor_pool::device::features::{FeatureRestriction, FeatureRestrictionError};

#[test]
fn restriction_not_supported() {
    assert_eq!(
        FeatureRestriction::NotSupported.to_string(),
        "not supported by the physical device"
    );
}

#[test]
fn restriction_requires_feature() {
    assert_eq!(
        FeatureRestriction::RequiresFeature("geometry_shader").to_string(),
        "requires feature geometry_shader to be enabled"
    );
}

#[test]
fn restriction_conflicts_feature() {
    assert_eq!(
        FeatureRestriction::ConflictsFeature("robust_buffer_access").to_string(),
        "requires feature robust_buffer_access to be disabled"
    );
}

#[test]
fn restriction_required_by_extension() {
    assert_eq!(
        FeatureRestriction::RequiredByExtension("khr_multiview").to_string(),
        "required to be enabled by extension khr_multiview"
    );
}

#[test]
fn restriction_with_empty_name() {
    assert_eq!(
        FeatureRestriction::RequiresFeature("").to_string(),
        "requires feature  to be enabled"
    );
}

#[test]
fn error_names_feature_and_restriction() {
    let error = FeatureRestrictionError {
        feature: "multiview",
        restriction: FeatureRestriction::RequiredByExtension("khr_multiview"),
    };
    assert_eq!(
        error.to_string(),
        "a restriction for the feature multiview was not met: \
         required to be enabled by extension khr_multiview"
    );
    let error = FeatureRestrictionError {
        feature: "tessellation_shader",
        restriction: FeatureRestriction::NotSupported,
    };
    assert_eq!(
        error.to_string(),
        "a restriction for the feature tessellation_shader was not met: \
         not supported by the physical device"
    );
}

#[test]
fn error_is_copy() {
    let error = FeatureRestrictionError {
        feature: "a",
        restriction: FeatureRestriction::ConflictsFeature("b"),
    };
    let copy = error;
    assert_eq!(error.to_string(), copy.to_string());
    assert_eq!(format!("{:?}", copy.restriction), "ConflictsFeature(\"b\")");
}
