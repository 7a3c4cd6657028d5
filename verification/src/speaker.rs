//! Device descriptors.

use vstd::prelude::*;

verus! {

use crate::utils::{str_ieq, eq_ignore_ascii_case};

/// A lightweight description of a speaker: display name, stable uuid and
/// network location.  Descriptors come out of topology payloads and carry
/// everything needed to reach the device again.
#[derive(Clone, Debug)]
pub struct SpeakerInfo {
    /// Display name of the room the speaker stands in.
    pub name: String,
    /// Stable identity of the device.
    pub uuid: String,
    /// Network location of the device description.
    pub location: String,
}

impl SpeakerInfo {
    /// Builds a descriptor from its parts.
    pub fn new(name: String, uuid: String, location: String) -> (r: SpeakerInfo)
        ensures
            r.name == name,
            r.uuid == uuid,
            r.location == location,
    {
        SpeakerInfo { name, uuid, location }
    }

    /// A copy of this descriptor, equal to the original.
    pub fn duplicate(&self) -> (r: SpeakerInfo)
        ensures
            r == *self,
    {
        SpeakerInfo {
            name: self.name.clone(),
            uuid: self.uuid.clone(),
            location: self.location.clone(),
        }
    }

    /// The display name.
    pub fn name(&self) -> (r: &str)
        ensures
            r@ == self.name@,
    {
        self.name.as_str()
    }

    /// The stable uuid.
    pub fn uuid(&self) -> (r: &str)
        ensures
            r@ == self.uuid@,
    {
        self.uuid.as_str()
    }

    /// The network location.
    pub fn location(&self) -> (r: &str)
        ensures
            r@ == self.location@,
    {
        self.location.as_str()
    }
}

impl PartialEq for SpeakerInfo {
    /// Two descriptors denote the same device when their uuids agree up to
    /// ASCII letter case.
    fn eq(&self, other: &Self) -> (r: bool) {
        eq_ignore_ascii_case(self.uuid.as_str(), other.uuid.as_str())
    }
}

impl vstd::std_specs::cmp::PartialEqSpecImpl for SpeakerInfo {
    open spec fn obeys_eq_spec() -> bool {
        true
    }

    open spec fn eq_spec(&self, other: &Self) -> bool {
        str_ieq(self.uuid@, other.uuid@)
    }
}

} // verus!
