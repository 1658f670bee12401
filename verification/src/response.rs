//! Responses that do not depend on the kind of entity.

use vstd::prelude::*;

verus! {

/// A status with a message, for a request that returns no entity.
#[derive(Clone, Debug, PartialEq, Eq)]
pub struct GenericResponse {
    pub status: String,
    pub message: String,
}

/// The status of every response that carries a result.
pub open spec fn success() -> Seq<char> {
    "success"@
}

} // verus!
