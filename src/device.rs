//! The role a unit of the earbud set plays in a battery report.
use vstd::prelude::*;

verus! {

/// Which physical unit a battery report entry describes.
#[derive(Debug, Clone, Copy, PartialEq, Eq, Structural)]
pub enum DeviceType {
    LeftEar,
    RightEar,
    Case,
    Unknown,
}

/// The unit that a one-byte role code names; unknown codes are not an error.
pub open spec fn classify(code: u8) -> DeviceType {
    match code {
        2 => DeviceType::LeftEar,
        3 => DeviceType::RightEar,
        4 => DeviceType::Case,
        _ => DeviceType::Unknown,
    }
}

/// The name under which a unit is reported.
pub open spec fn name_spec(d: DeviceType) -> Seq<char> {
    match d {
        DeviceType::LeftEar => "LeftEar"@,
        DeviceType::RightEar => "RightEar"@,
        DeviceType::Case => "Case"@,
        DeviceType::Unknown => "Unknown"@,
    }
}

impl DeviceType {
    /// The name under which this unit is reported.
    pub fn name(&self) -> (r: &'static str)
        ensures
            r@ == name_spec(*self),
    {
        match self {
            DeviceType::LeftEar => "LeftEar",
            DeviceType::RightEar => "RightEar",
            DeviceType::Case => "Case",
            DeviceType::Unknown => "Unknown",
        }
    }
}

impl From<u8> for DeviceType {
    fn from(value: u8) -> (r: DeviceType)
        ensures
            r == classify(value),
    {
        match value {
            2 => DeviceType::LeftEar,
            3 => DeviceType::RightEar,
            4 => DeviceType::Case,
            _ => DeviceType::Unknown,
        }
    }
}

impl vstd::std_specs::convert::FromSpecImpl<u8> for DeviceType {
    open spec fn obeys_from_spec() -> bool {
        true
    }

    open spec fn from_spec(v: u8) -> DeviceType {
        classify(v)
    }
}

} // verus!
