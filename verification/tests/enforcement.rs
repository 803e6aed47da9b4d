use actix_casbin_auth::screen;
use actix_casbin_auth::settle;
use actix_casbin_auth::Access;
use actix_casbin_auth::CasbinVals;
use actix_casbin_auth::Decision;
use actix_casbin_auth::Gate;
use actix_casbin_auth::Status;

#[test]
fn screen_missing_carrier_is_unauthorized() {
    let g = screen(&None, String::from("/pen/1"), String::from("GET"));
    assert!(matches!(g, Gate::Unauthorized));
}

#[test]
fn screen_empty_subject_is_unauthorized() {
    let carrier = Some(CasbinVals {
        subject: String::new(),
        domain: None,
    });
    let g = screen(&carrier, String::from("/pen/1"), String::from("GET"));
    assert!(matches!(g, Gate::Unauthorized));
}

#[test]
fn screen_builds_triple_without_domain() {
    let carrier = Some(CasbinVals {
        subject: String::from("alice"),
        domain: None,
    });
    let g = screen(&carrier, String::from("/pen/1"), String::from("GET"));
    match g {
        Gate::Evaluate(t) => {
            assert_eq!(t, vec!["alice", "/pen/1", "GET"]);
        }
        Gate::Unauthorized => panic!("authenticated request was turned away"),
    }
}

#[test]
fn screen_builds_quadruple_with_domain() {
    let carrier = Some(CasbinVals {
        subject: String::from("alice"),
        domain: Some(String::from("domain1")),
    });
    let g = screen(&carrier, String::from("/book/1"), String::from("GET"));
    match g {
        Gate::Evaluate(t) => {
            assert_eq!(t, vec!["alice", "domain1", "/book/1", "GET"]);
        }
        Gate::Unauthorized => panic!("authenticated request was turned away"),
    }
}

#[test]
fn screen_keeps_empty_string_domain() {
    let carrier = Some(CasbinVals {
        subject: String::from("alice"),
        domain: Some(String::new()),
    });
    let g = screen(&carrier, String::from("/pen/1"), String::from("GET"));
    match g {
        Gate::Evaluate(t) => {
            assert_eq!(t, vec!["alice", "", "/pen/1", "GET"]);
        }
        Gate::Unauthorized => panic!("authenticated request was turned away"),
    }
}

#[test]
fn settle_allow_forwards() {
    assert_eq!(settle(&Decision::Allow), Access::Forward);
}

#[test]
fn settle_deny_is_forbidden() {
    assert_eq!(settle(&Decision::Deny), Access::Respond(Status::Forbidden));
}

#[test]
fn settle_engine_error_is_bad_gateway() {
    assert_eq!(
        settle(&Decision::EngineError),
        Access::Respond(Status::BadGateway)
    );
}

#[test]
fn status_codes_are_401_403_502() {
    assert_eq!(Status::Unauthorized.code(), 401);
    assert_eq!(Status::Forbidden.code(), 403);
    assert_eq!(Status::BadGateway.code(), 502);
}
