//! Authority-gated supply control for a fungible token kept by an external
//! ledger service.
//!
//! The library owns one persistent record per deployment — authority, managed
//! token, mirrored total supply, pause flag, display precision — and mediates
//! who may mint, burn, transfer, pause, or re-delegate authority over the
//! managed token. Each operation is a guarded transition on that record which,
//! on success, also yields the instruction the host must deliver to the
//! external ledger or metadata registry. The host executes the transition and
//! the delivered instruction as one atomic unit; the library itself performs
//! no I/O.

pub mod accounts;
pub mod errors;
pub mod handlers;
pub mod instructions;
pub mod laws;
pub mod state;
