//! Object names handed out by the driver.

use vstd::prelude::*;

use crate::driver::{Call, Driver, Gl, ObjectKind};

verus! {

/// A non-zero object name handed out by the driver. Zero is reserved for
/// "no object" and is never held by an `Id`.
#[derive(Debug, PartialEq, Eq)]
pub struct Id {
    value: u32,
}

impl Id {
    #[verifier::type_invariant]
    spec fn non_zero(self) -> bool {
        self.value != 0
    }

    pub closed spec fn view(&self) -> u32 {
        self.value
    }

    /// Wraps a driver-provided name; zero means the driver could not allocate.
    pub(crate) fn new(value: u32) -> (r: Option<Id>)
        ensures
            r is Some <==> value != 0,
            r matches Some(id) ==> id@ == value,
    {
        if value == 0 {
            None
        } else {
            Some(Id { value })
        }
    }

    pub fn get(&self) -> (r: u32)
        ensures
            r == self@,
            r != 0,
    {
        proof {
            use_type_invariant(self);
        }
        self.value
    }

    /// Asks the driver for a new object of the given kind.
    pub(crate) fn create<D: Driver>(gl: &mut Gl<D>, kind: ObjectKind) -> (r: Option<Id>)
        ensures
            final(gl).log() == old(gl).log().push(Call::Create { kind, name: name_or_zero(r) }),
            r matches Some(id) ==> id@ != 0,
    {
        let name = gl.create(kind);
        Id::new(name)
    }

    /// Hands the object back to the driver; consumes the only owner of the name.
    pub(crate) fn delete<D: Driver>(self, gl: &mut Gl<D>, kind: ObjectKind)
        ensures
            final(gl).log() == old(gl).log().push(Call::Delete { kind, name: self@ }),
    {
        gl.delete(kind, self.value);
    }
}

/// The name an allocation produced: the new object's, or zero when it failed.
pub open spec fn name_or_zero(r: Option<Id>) -> u32 {
    match r {
        Some(id) => id@,
        None => 0,
    }
}

} // verus!
