//! Control-plane bridge for a programmable network switch.
//!
//! The crate keeps a switch's forwarding tables synchronized with the output
//! of an incremental-dataflow policy engine and feeds switch-originated
//! digest notifications back into that engine as new facts.  It holds the
//! verified core of that loop: the generic fact representation, the
//! substring-based schema resolver, the delta-to-table-write translator, the
//! transactional engine facade, and the decision logic of the controller and
//! digest actors.  The host process supplies the switch connection and the
//! task runtime and drives these functions from an actor loop.

pub mod actor;
pub mod digest;
pub mod engine;
pub mod errors;
pub mod record;
pub mod schema;
pub mod text;
pub mod translate;
