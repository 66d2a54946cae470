//! Optimal stake selection for a repeated biased wager.
//!
//! Given a success probability `p`, a win/loss payout ratio `k`, and a stake
//! bound `b`, the library locates the stake that maximizes the expected-growth
//! objective. The derivative of that objective with respect to the stake is a
//! cubic whose sign is evaluated exactly over rational inputs; a bisection
//! search over a dyadic grid on `[0, b]` then finds the zero crossing.

pub mod frac;
pub mod repl;
pub mod search;
pub mod slope;
pub mod stake;

pub use frac::Frac;
pub use frac::FRAC_BOUND;
pub use repl::Action;
pub use repl::Command;
pub use repl::Event;
pub use repl::ParamKind;
pub use repl::ReplState;
pub use repl::classify;
pub use repl::tokenize;
pub use search::bracket_result;
pub use search::search;
pub use search::search_steps;
pub use slope::GRID;
pub use slope::GRID_LOG;
pub use slope::slope;
pub use stake::Stake;
pub use stake::find_optimal_stake;
pub use stake::optimal_fraction;
