//! CPU related types.
use vstd::prelude::*;
use vstd::std_specs::convert::FromSpecImpl;
use vstd::std_specs::convert::TryFromSpecImpl;

verus! {

/// Priority of a service request.
#[derive(Debug, Clone, Copy, PartialEq, Eq, Structural)]
pub struct Priority(u8);

impl Priority {
    /// The priority as a number.
    pub closed spec fn view(self) -> u8 {
        self.0
    }
}

impl From<Priority> for u8 {
    fn from(value: Priority) -> (r: u8) {
        value.0
    }
}

impl FromSpecImpl<Priority> for u8 {
    open spec fn obeys_from_spec() -> bool {
        true
    }

    open spec fn from_spec(v: Priority) -> u8 {
        v@
    }
}

impl TryFrom<u8> for Priority {
    type Error = ();

    fn try_from(value: u8) -> (r: Result<Self, Self::Error>)
        ensures
            r matches Ok(p) && p@ == value,
    {
        Ok(Priority(value))
    }
}

impl TryFromSpecImpl<u8> for Priority {
    open spec fn obeys_try_from_spec() -> bool {
        true
    }

    closed spec fn try_from_spec(v: u8) -> Result<Self, ()> {
        Ok(Priority(v))
    }
}

} // verus!
