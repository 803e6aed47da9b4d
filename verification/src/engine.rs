use vstd::prelude::*;

use crate::decision::Decision;

verus! {

/// casbin's cached enforcer, carried opaquely: the model, the policy, the
/// role graph and the decision cache all live inside it.
#[verifier::external_type_specification]
#[verifier::external_body]
pub struct ExCachedEnforcer(casbin::CachedEnforcer);

/// Relies on casbin's CoreApi::enforce_mut on CachedEnforcer: it evaluates
/// the request tuple against the loaded model and policy, updating the
/// internal decision cache, and returns Ok(true) on allow, Ok(false) on
/// deny, and Err when the engine fails. Which verdict comes back depends on
/// the policy state inside the enforcer, which is opaque here, so nothing
/// more is stated of it; `settle` says exactly how each verdict is answered.
///
/// casbin's DefaultEffector::new_stream supports exactly four policy-effect
/// expressions and panics on every other one, and nothing validates the
/// expression before evaluation; a model whose effect expression is not one
/// of the four is answered as an engine failure here, before enforce_mut is
/// reached, so the call cannot panic. An absent effect definition is left to
/// enforce_mut itself, which reports it as an ordinary error.
#[verifier::external_body]
fn enforce_tuple(enforcer: &mut casbin::CachedEnforcer, rvals: Vec<String>) -> (d: Decision) {
    let model = casbin::CoreApi::get_model(enforcer).get_model();
    match model.get("e").and_then(|sec| sec.get("e")).map(|ast| ast.value.as_str()) {
        Some("some(where (p_eft == allow))")
        | Some("!some(where (p_eft == deny))")
        | Some("some(where (p_eft == allow)) && !some(where (p_eft == deny))")
        | Some("priority(p_eft) || deny")
        | None => {}
        Some(_) => return Decision::EngineError,
    }
    match casbin::CoreApi::enforce_mut(enforcer, rvals) {
        Ok(true) => Decision::Allow,
        Ok(false) => Decision::Deny,
        Err(_) => Decision::EngineError,
    }
}

/// Consults the policy engine once on the given request tuple. The caller
/// must hold the enforcer exclusively (evaluation mutates the decision
/// cache); the verdict is whatever the model and policy inside the enforcer
/// yield, and `settle` maps each possible verdict to the stage's answer.
pub fn evaluate(enforcer: &mut casbin::CachedEnforcer, rvals: Vec<String>) -> Decision {
    enforce_tuple(enforcer, rvals)
}

} // verus!
