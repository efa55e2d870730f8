//! A spending gate for a name registry on a ledger.
//!
//! An output cell may be spent only if the capacity it commits covers a price.
//! The price is computed from the registered name by a pricing rule that the
//! spender supplies as script text; the rule runs in a sandboxed `rhai` engine
//! under fixed resource limits.
//!
//! * [`verdict`]: the error kinds and the accept/reject outcome.
//! * [`limits`]: the resource limits under which a rule runs.
//! * [`engine`]: the calls into `rhai` and `core::str`, with what is taken on
//!   trust about them.
//! * [`pricing`]: the price of a name under a rule.
//! * [`controller`]: decoding, the capacity comparison and a whole run.
//! * [`machine`]: the run as a state machine that a driver feeds with events.

pub mod verdict;
pub mod limits;
pub mod engine;
pub mod pricing;
pub mod controller;
pub mod machine;

pub use controller::{judge, load_args, load_witness, validate, validate_with_limits, UNIT_MULTIPLIER};
pub use limits::Limits;
pub use machine::{next_action, step, Action, Event, State};
pub use pricing::{calc_price, calc_price_with_limits, ACCOUNT_CHARS};
pub use verdict::{Error, Verdict};
