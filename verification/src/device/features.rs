//! Errors reported when a feature cannot be enabled on a device.

use vstd::prelude::*;
use vstd::string::*;

verus! {

/// An error that can happen when enabling a feature on a device.
#[derive(Clone, Copy, Debug)]
pub struct FeatureRestrictionError {
    /// The feature in question.
    pub feature: &'static str,
    /// The restriction that was not met.
    pub restriction: FeatureRestriction,
}

/// The reason why a feature could not be enabled.
#[derive(Clone, Copy, Debug)]
pub enum FeatureRestriction {
    /// Not supported by the physical device.
    NotSupported,
    /// Requires a feature to be enabled.
    RequiresFeature(&'static str),
    /// Requires a feature to be disabled.
    ConflictsFeature(&'static str),
    /// An extension requires this feature to be enabled.
    RequiredByExtension(&'static str),
}

impl FeatureRestriction {
    /// The text that describes this restriction.
    pub open spec fn message(self) -> Seq<char> {
        match self {
            FeatureRestriction::NotSupported => "not supported by the physical device"@,
            FeatureRestriction::RequiresFeature(feat) => "requires feature "@ + feat@
                + " to be enabled"@,
            FeatureRestriction::ConflictsFeature(feat) => "requires feature "@ + feat@
                + " to be disabled"@,
            FeatureRestriction::RequiredByExtension(ext) => "required to be enabled by extension "@
                + ext@,
        }
    }

    /// Renders the restriction as text.
    pub fn to_string(&self) -> (text: String)
        ensures
            text@ == self.message(),
    {
        match *self {
            FeatureRestriction::NotSupported => String::from_str(
                "not supported by the physical device",
            ),
            FeatureRestriction::RequiresFeature(feat) => {
                let mut text = String::from_str("requires feature ");
                text.append(feat);
                text.append(" to be enabled");
                text
            },
            FeatureRestriction::ConflictsFeature(feat) => {
                let mut text = String::from_str("requires feature ");
                text.append(feat);
                text.append(" to be disabled");
                text
            },
            FeatureRestriction::RequiredByExtension(ext) => {
                let mut text = String::from_str("required to be enabled by extension ");
                text.append(ext);
                text
            },
        }
    }
}

impl FeatureRestrictionError {
    /// The text that describes this error.
    pub open spec fn message(self) -> Seq<char> {
        "a restriction for the feature "@ + self.feature@ + " was not met: "@
            + self.restriction.message()
    }

    /// Renders the error as text.
    pub fn to_string(&self) -> (text: String)
        ensures
            text@ == self.message(),
    {
        let mut text = String::from_str("a restriction for the feature ");
        text.append(self.feature);
        text.append(" was not met: ");
        let reason = self.restriction.to_string();
        text.append(reason.as_str());
        text
    }
}

} // verus!
