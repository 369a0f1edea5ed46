//! Reconciliation engine of a controller that keeps a declared set of labels
//! on cluster resources of a kind chosen at run time.
//!
//! Every function in this crate carries a contract that is checked statically.
//! Network traffic, clocks and the process environment stay outside: the
//! engine is driven with plain values and answers with plain values.

pub mod controller;
pub mod diagnostics;
pub mod discovery;
pub mod error;
pub mod events;
pub mod json;
pub mod labels;
pub mod lease;
pub mod planner;
pub mod predicate;
pub mod rego;
pub mod telemetry;
pub mod text;
pub mod v1_alpha1;

pub use crate::controller::{Context, State};
pub use crate::diagnostics::{Diagnostics, Timestamp};
pub use crate::error::Error;
pub use crate::labels::Labels;
pub use crate::v1_alpha1::{Labeler, LabelerSpec, LabelerStatus, ObjectMeta, RegoRule};
