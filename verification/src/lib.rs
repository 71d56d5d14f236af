//! Decision logic of a Kubernetes operator that keeps TCP port-forwards to
//! target Services alive, verified against mathematical models of its data.
//!
//! - `crd`, `meta` and `children` hold the `ForwardedService` resource, the
//!   object metadata and the Service and Deployment that realize a
//!   resource, each with its view.
//! - `controller` holds the resource synthesizer, the update predicates,
//!   create-or-update, the stages of a reconciliation, the finalizer
//!   protocol, and the laws that relate them.
//! - `service` holds the retry loop of a forwarding session.
//! - `ports`, `text` and `string_map` hold the port notation, decimal
//!   numbers and the map type that the others build on; `error` and `cli`
//!   hold the errors and the two modes of the program.
//!
//! The library makes no request to a cluster itself. Wherever the operator
//! has to wait for the cluster, a function says which request to make, and
//! another takes the answer and says how to go on.

pub mod children;
pub mod cli;
pub mod controller;
pub mod crd;
pub mod error;
pub mod meta;
pub mod ports;
pub mod service;
pub mod string_map;
pub mod text;
