//! Policy enforcement for a confidential-computing guest agent, and the
//! normalization of Kubernetes workloads into the container, mount and storage
//! model that policy generation consumes.
//!
//! - `policy`: the evaluation core, its fail-open flag, the diagnostic log
//!   records and the enforcement entry points.
//! - `binding`: the check of a new policy against the launch measurement.
//! - `sanitize`: the document that the policy sees of a file-copy request.
//! - `mounts` and `workload`: workload kinds, their accessors and the
//!   resolution of claim-template mounts.
//! - `document`: manifests as trees, and the insertion of the policy.
//! - `engine`: the rule engine of the `regorus` crate, as Verus sees it.

pub mod binding;
pub mod document;
pub mod engine;
pub mod mounts;
pub mod policy;
pub mod sanitize;
pub mod text;
pub mod workload;
