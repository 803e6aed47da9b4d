//! Access-control middleware core: for each request, an identity carrier
//! attached by an upstream authentication stage is screened, the shared
//! casbin enforcer is consulted, and the verdict is mapped to either a
//! forwarded response or a synthetic denial.

mod decision;
mod engine;
mod handle;
mod identity;

pub use decision::lemma_allow_forwards;
pub use decision::lemma_deny_forbidden;
pub use decision::lemma_empty_subject_unauthorized;
pub use decision::lemma_engine_error_bad_gateway;
pub use decision::lemma_missing_carrier_unauthorized;
pub use decision::request_tuple;
pub use decision::screen;
pub use decision::settle;
pub use decision::settle_spec;
pub use decision::stage_outcome;
pub use decision::status_code;
pub use decision::views_of;
pub use decision::Access;
pub use decision::Decision;
pub use decision::Gate;
pub use decision::Status;
pub use engine::evaluate;
pub use handle::lock_cell_of;
pub use handle::CasbinService;
pub use identity::authenticated;
pub use identity::CasbinVals;
