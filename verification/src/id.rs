//! The identity of a reminder.

use uuid::Uuid;
use vstd::prelude::*;
use vstd::std_specs::cmp::PartialEqSpecImpl;

verus! {

/// Trusted, not proved: `uuid::Uuid`, taken as a value that verified code
/// carries and never looks into.
#[verifier::external_type_specification]
#[verifier::external_body]
pub struct ExUuid(Uuid);

/// Trusted, not proved: `uuid::Uuid`'s `PartialEq::eq`, which the `uuid`
/// crate derives over the sixteen bytes that make up an identifier. The
/// contract takes it to hold of two identifiers exactly where they are the
/// same value.
#[verifier::external_body]
fn same_uuid(a: &Uuid, b: &Uuid) -> (r: bool)
    ensures
        r == (*a == *b),
{
    a == b
}

/// A reminder's identity: a unique identifier, and a description for people
/// to read. Two identities are equal where their identifiers are, whatever
/// their descriptions say.
pub struct ID {
    pub description: String,
    pub uuid: Uuid,
}

impl PartialEq for ID {
    fn eq(&self, other: &Self) -> (r: bool) {
        same_uuid(&self.uuid, &other.uuid)
    }
}

impl PartialEqSpecImpl for ID {
    open spec fn obeys_eq_spec() -> bool {
        true
    }

    open spec fn eq_spec(&self, other: &Self) -> bool {
        self.uuid == other.uuid
    }
}

} // verus!
