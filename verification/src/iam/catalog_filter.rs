//! Pre-planning IAM visibility filter for the catalog: datasets that the
//! requesting user cannot SELECT from are hidden.

use vstd::prelude::*;
use crate::iam::engine::IamEngine;
use crate::iam::types::{ResourceId, Subject};

verus! {

/// Whether `subject` may SELECT from dataset `namespace.name`.
pub fn is_visible<E: IamEngine>(engine: &E, subject: &Subject, namespace: &str, name: &str) -> (r: bool)
    ensures
        r == (engine.decision(*subject, namespace@, name@, "SELECT"@) is Allow),
{
    let resource = ResourceId { namespace: namespace.to_string(), name: name.to_string() };
    proof {
        broadcast use vstd::string::group_string_axioms;
    }
    assert(resource.namespace@ == namespace@);
    engine.check(subject, &resource, "SELECT").is_allowed()
}

} // verus!
