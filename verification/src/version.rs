//! The API version tag and the path segment it stands for.

use vstd::prelude::*;

verus! {

/// Version of the Redfish API that an endpoint speaks.
#[derive(Copy, Clone, Debug, PartialEq, Eq, Structural)]
pub enum ApiVersion {
    /// Version 1
    V1,
    /// Version 2
    V2,
}

impl ApiVersion {
    /// The literal path segment of this version, as a sequence of characters.
    pub open spec fn segment(self) -> Seq<char> {
        match self {
            ApiVersion::V1 => "redfish/v1"@,
            ApiVersion::V2 => "redfish/v2"@,
        }
    }

    /// The literal path segment of this version.
    pub fn as_str(&self) -> (s: &'static str)
        ensures
            s@ == self.segment(),
    {
        match self {
            ApiVersion::V1 => "redfish/v1",
            ApiVersion::V2 => "redfish/v2",
        }
    }

    /// The path segment of this version as an owned string: the text that
    /// stands for the version wherever it is written out.
    pub fn to_string(&self) -> (s: String)
        ensures
            s@ == self.segment(),
    {
        self.as_str().to_owned()
    }
}

impl Default for ApiVersion {
    /// Version 1. A configuration that names no version is a different thing:
    /// it leaves the segment out of the URI altogether.
    fn default() -> (v: ApiVersion)
        ensures
            v == ApiVersion::V1,
    {
        ApiVersion::V1
    }
}

} // verus!
