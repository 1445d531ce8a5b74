//! Reconciliation logic of a controller that keeps one replica set per `Queue`
//! custom resource.
//!
//! The crate decides; it never talks to the platform. Every function maps plain
//! values to plain values: a snapshot of a `Queue` to the next call to issue, the
//! platform's answer to the call after that, and finally to a scheduling
//! directive. The process that owns the connection performs the calls.

pub mod api;
pub mod controller;
pub mod crd;
pub mod finalizer;
pub mod labels;
pub mod queue;
pub mod run;
