//! Typed Kubernetes controller logic for the `LavaArchitecture` resource.
//!
//! A resource names a `.tlisp` source, bindings for it, and an engine:
//!
//! ```yaml
//! apiVersion: lava.pleme.io/v1alpha1
//! kind: LavaArchitecture
//! metadata: { name: prod-vpc, namespace: infra }
//! spec:
//!   source:
//!     inline: |
//!       (deflava-architecture demo-vpc
//!         :inputs ((:cidr "10.42.0.0/16"))
//!         :resources ((aws-vpc "main" :cidr-block "{cidr}")))
//!   bindings:
//!     cidr: 10.42.0.0/16
//!   gate: aws-vpc-network
//!   engine: embedded
//! ```
//!
//! The modules:
//!
//! - [`architecture`]: the resource, its phases and its conditions
//! - [`reconcile`]: the state machine of one pass
//! - [`drift`]: from a planner's findings to a report, a phase and a hint
//! - [`anomaly`], [`anomaly_bridge`]: from what went wrong to a decision
//! - [`finalizer`]: the destroy before a resource is removed
//! - [`chain`], [`attest`]: linked receipts of what was done
//! - [`viggy_loop`]: the beats of a tick
//! - [`controller`]: the resource as the cluster holds it
//! - [`magma_bridge`]: the renderer's terms
//! - [`crd`]: the manifest
//! - [`laws`]: what the operations do, from what goes in to what comes out
//! - [`text`], [`bindings`], [`hash`]: what the others build on

pub mod anomaly;
pub mod anomaly_bridge;
pub mod architecture;
pub mod attest;
pub mod bindings;
pub mod chain;
pub mod controller;
pub mod crd;
pub mod drift;
pub mod finalizer;
pub mod hash;
pub mod laws;
pub mod magma_bridge;
pub mod reconcile;
pub mod text;
pub mod viggy_loop;

pub use architecture::{
    Condition, LavaArchitecture, LavaArchitectureSpec, LavaArchitectureStatus, ObjectMeta, Phase,
    Source,
};
pub use crd::crd_yaml;
pub use reconcile::{reconcile, ReconcileError, ReconcileOutcome};
