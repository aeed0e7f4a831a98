//! Keeps the PROXY protocol setting of the target groups behind a load-balanced
//! Kubernetes service in step with the annotations of that service.
//!
//! The library holds the decisions of the controller: how a service is
//! classified from its annotations, what is asked of the tagging and load
//! balancer services, when a target group attribute is written, and the state
//! machine that strings these together into a reconciliation pass. The caller
//! performs the remote calls that the machine asks for and reports back what
//! they returned.

pub mod annotations;
pub mod annotator;
pub mod classifier;
pub mod config;
pub mod locator;
pub mod reconciler;
pub mod runs;
pub mod service;
pub mod synchronizer;
pub mod text;
