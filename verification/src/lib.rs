//! A workflow state-transition engine.
//!
//! A `Diagram` names the states of one business process and the directed
//! edges along which an order may move between them.  A transition request
//! is legal exactly when it follows a single edge of the governing diagram;
//! the `OrderStateCoordinator` is the only path by which an order's state
//! changes, and it applies a validated transition with a compare-and-swap
//! write so that a stale read can never overwrite a newer state.

pub mod coordinator;
pub mod diagram;
pub mod diagram_store;
pub mod errors;
pub mod graph;
pub mod ids;
pub mod middleware;
pub mod order;
pub mod state;
pub mod validator;

pub use errors::Error;
