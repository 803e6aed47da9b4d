use vstd::prelude::*;

use crate::identity::authenticated;
use crate::identity::CasbinVals;

verus! {

/// Verdict of one policy evaluation.
#[derive(Clone, Copy, Debug, PartialEq, Eq, Structural)]
pub enum Decision {
    Allow,
    Deny,
    EngineError,
}

/// The statuses with which the stage itself answers a request instead of
/// forwarding it. Each denial carries an empty body; no error detail leaks.
#[derive(Clone, Copy, Debug, PartialEq, Eq, Structural)]
pub enum Status {
    Unauthorized,
    Forbidden,
    BadGateway,
}

/// What the stage does with a request once the policy question is settled:
/// hand it to the downstream service, or answer it with a denial status.
#[derive(Clone, Copy, Debug, PartialEq, Eq, Structural)]
pub enum Access {
    Forward,
    Respond(Status),
}

/// What the stage does with a request before any lock is taken: turn it away
/// as unauthenticated, or take the enforcer lock and evaluate this tuple.
pub enum Gate {
    Unauthorized,
    Evaluate(Vec<String>),
}

/// Numeric HTTP status code of each denial.
pub open spec fn status_code(s: Status) -> u16 {
    match s {
        Status::Unauthorized => 401u16,
        Status::Forbidden => 403u16,
        Status::BadGateway => 502u16,
    }
}

/// How a policy verdict is answered: allow forwards the request, deny is
/// 403, an engine failure is 502.
pub open spec fn settle_spec(d: Decision) -> Access {
    match d {
        Decision::Allow => Access::Forward,
        Decision::Deny => Access::Respond(Status::Forbidden),
        Decision::EngineError => Access::Respond(Status::BadGateway),
    }
}

/// The tuple handed to the policy engine: [subject, domain, path, action]
/// when the carrier names a domain (even an empty one), else
/// [subject, path, action].
pub open spec fn request_tuple(v: CasbinVals, path: Seq<char>, action: Seq<char>) -> Seq<
    Seq<char>,
> {
    match v.domain {
        Some(d) => seq![v.subject@, d@, path, action],
        None => seq![v.subject@, path, action],
    }
}

/// The character sequences held by a sequence of strings.
pub open spec fn views_of(ss: Seq<String>) -> Seq<Seq<char>> {
    Seq::new(ss.len(), |i: int| ss[i]@)
}

/// The whole stage as a function of the carrier and of the verdict the
/// engine returns when it is consulted: anonymous and empty-subject requests
/// are turned away with 401 before the engine is reached; for the rest the
/// verdict decides.
pub open spec fn stage_outcome(carrier: Option<CasbinVals>, d: Decision) -> Access {
    if authenticated(carrier) {
        settle_spec(d)
    } else {
        Access::Respond(Status::Unauthorized)
    }
}

impl Status {
    /// The numeric code placed on the wire for this denial.
    pub fn code(&self) -> (c: u16)
        ensures
            c == status_code(*self),
    {
        match self {
            Status::Unauthorized => 401,
            Status::Forbidden => 403,
            Status::BadGateway => 502,
        }
    }
}

/// Screens a request before the enforcer lock is taken: an absent carrier or
/// an empty subject is turned away at once; otherwise the request tuple for
/// the engine is built from the carrier and the request metadata.
pub fn screen(carrier: &Option<CasbinVals>, path: String, action: String) -> (g: Gate)
    ensures
        g is Unauthorized <==> !authenticated(*carrier),
        g matches Gate::Evaluate(t) ==> views_of(t@) == request_tuple(
            (*carrier)->0,
            path@,
            action@,
        ),
{
    match carrier {
        None => Gate::Unauthorized,
        Some(vals) => {
            if vals.subject.as_str().is_empty() {
                Gate::Unauthorized
            } else {
                let ghost p: Seq<char> = path@;
                let ghost a: Seq<char> = action@;
                let mut rvals: Vec<String> = Vec::new();
                rvals.push(vals.subject.clone());
                match &vals.domain {
                    Some(d) => {
                        rvals.push(d.clone());
                    },
                    None => {},
                }
                rvals.push(path);
                rvals.push(action);
                proof {
                    assert(views_of(rvals@) =~= request_tuple((*carrier)->0, p, a));
                }
                Gate::Evaluate(rvals)
            }
        },
    }
}

/// Maps the engine's verdict to the stage's answer, exactly as
/// `settle_spec` says: allow forwards, deny is 403, engine failure is 502.
pub fn settle(d: &Decision) -> (a: Access)
    ensures
        a == settle_spec(*d),
{
    match d {
        Decision::Allow => Access::Forward,
        Decision::Deny => Access::Respond(Status::Forbidden),
        Decision::EngineError => Access::Respond(Status::BadGateway),
    }
}

/// A request with no identity carrier is answered 401 and the downstream
/// handler is never reached, whatever the engine would have said.
pub proof fn lemma_missing_carrier_unauthorized(d: Decision)
    ensures
        stage_outcome(None, d) == Access::Respond(Status::Unauthorized),
{
}

/// A request whose carrier has an empty subject is answered 401 and the
/// downstream handler is never reached, whatever the engine would have said.
pub proof fn lemma_empty_subject_unauthorized(v: CasbinVals, d: Decision)
    requires
        v.subject@.len() == 0,
    ensures
        stage_outcome(Some(v), d) == Access::Respond(Status::Unauthorized),
{
}

/// When the engine denies an authenticated request, the stage answers 403
/// and the downstream handler is not invoked.
pub proof fn lemma_deny_forbidden(v: CasbinVals)
    requires
        v.subject@.len() > 0,
    ensures
        stage_outcome(Some(v), Decision::Deny) == Access::Respond(Status::Forbidden),
{
}

/// When the engine allows an authenticated request, the stage forwards it to
/// the downstream handler.
pub proof fn lemma_allow_forwards(v: CasbinVals)
    requires
        v.subject@.len() > 0,
    ensures
        stage_outcome(Some(v), Decision::Allow) == Access::Forward,
{
}

/// When the engine fails on an authenticated request, the stage answers 502
/// and the downstream handler is not invoked.
pub proof fn lemma_engine_error_bad_gateway(v: CasbinVals)
    requires
        v.subject@.len() > 0,
    ensures
        stage_outcome(Some(v), Decision::EngineError) == Access::Respond(Status::BadGateway),
{
}

} // verus!
