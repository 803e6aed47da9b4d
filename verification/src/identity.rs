use vstd::prelude::*;

verus! {

/// The identity that an upstream authentication stage attaches to a request:
/// the authenticated subject and, when the policy model is multi-tenant, its
/// domain. The enforcement stage only reads it; it never creates one.
///
/// An empty-string domain counts as a present domain: the stage does not
/// second-guess what the upstream stage attached.
#[derive(Clone)]
pub struct CasbinVals {
    pub subject: String,
    pub domain: Option<String>,
}

/// A carrier authenticates a request when it is present and its subject is
/// non-empty; a missing carrier means the request is anonymous.
pub open spec fn authenticated(carrier: Option<CasbinVals>) -> bool {
    carrier matches Some(v) && v.subject@.len() > 0
}

} // verus!
