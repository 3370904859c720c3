//! A contract compiler for a two-sided process boundary.
//!
//! One abstract interface definition — an ordered list of method signatures —
//! is the single source of truth from which this crate derives the artifacts
//! that keep a caller context and a callee context mechanically synchronized:
//!
//! - caller-side stub descriptions that marshal arguments into a wire record
//!   and address a remote operation by its verbatim name (`stubgen`);
//! - callee-side dispatch registrations that elide host-injected context
//!   parameters from the public contract while retaining them in the
//!   generated call (`dispatch`);
//! - typed publish/subscribe event bindings shared by both sides (`events`),
//!   together with an in-process reference model of their fan-out semantics
//!   (`bus`);
//! - a runtime call engine that selects the failure-decodable or the plain
//!   transport path from the declared return shape (`engine`).
//!
//! Around the compiler stand the application pieces decided on plain
//! values: the chat messages and their replay filter (`message`), the
//! set-once host state and the callee's compute steps (`state`), this
//! application's own contract as data (`api`), the connect screen's ticket
//! rendering (`ticket`) and the scanner records (`barcode_scanner`).
//!
//! The transport primitive that actually crosses the boundary is an external
//! collaborator; it is consumed as an opaque dependency and never implemented
//! here.

pub mod api;
pub mod barcode_scanner;
pub mod bus;
pub mod dispatch;
pub mod engine;
pub mod errors;
pub mod events;
pub mod message;
pub mod schema;
pub mod state;
pub mod stubgen;
pub mod text;
pub mod ticket;
