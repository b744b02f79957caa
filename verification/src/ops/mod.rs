//! "Safe ops" layer: allow-list policies, per-command execution modes,
//! retries with exponential backoff, and in-flight de-duplication.

pub mod plan;
pub mod policy;
pub mod retry;
pub mod state;
pub mod types;

pub use plan::{CallPlan, plan_call};
pub use policy::{
    CommandMode, CommandRule, Policy, PolicyBuilder, PolicyBuilderView, PolicyView, Profile,
};
pub use retry::{RetryPolicy, RetryStep};
pub use state::{
    Begin, BeginKind, Flight, IdempotencyStore, Slot, default_idempotency_key, is_expired,
};
pub use types::{QueryStatus, QueryVersion};
