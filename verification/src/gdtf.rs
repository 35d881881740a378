//! Errors found in a fixture type definition.

use vstd::prelude::*;

verus! {

/// A part of a fixture type definition that lacks its name.
#[derive(Debug, Clone, Copy, PartialEq, Eq, Structural)]
pub enum DemexGdtfError {
    UnnamedFeature,
    UnnamedFeatureGroup,
    UnnamedAttribute,
}

/// The message describing an error.
pub open spec fn gdtf_error_message(e: DemexGdtfError) -> Seq<char> {
    match e {
        DemexGdtfError::UnnamedFeature => "A feature in a fixture type definition is unnamed"@,
        DemexGdtfError::UnnamedFeatureGroup => "A feature group in a fixture type definition is unnamed"@,
        DemexGdtfError::UnnamedAttribute => "An attribute in a fixture type definition is unnamed"@,
    }
}

impl DemexGdtfError {
    /// The message describing the error.
    pub fn to_string(&self) -> (res: String)
        ensures
            res@ == gdtf_error_message(*self),
    {
        match self {
            DemexGdtfError::UnnamedFeature => "A feature in a fixture type definition is unnamed".to_owned(),
            DemexGdtfError::UnnamedFeatureGroup => "A feature group in a fixture type definition is unnamed".to_owned(),
            DemexGdtfError::UnnamedAttribute => "An attribute in a fixture type definition is unnamed".to_owned(),
        }
    }
}

} // verus!
