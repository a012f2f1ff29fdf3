//! From the name of a service in a container cluster to a shell on the
//! machine that runs it.
//!
//! The way there is a chain of four lookups, each starting from what the one
//! before it found: the service, one of its tasks, the container instance that
//! hosts the task, the machine under that. This library holds every decision
//! on that way and makes no call itself: `resolver` steps the chain, `ecs`
//! reads each answer, `session` settles what is run on the machine and how the
//! session program is started. `cluster` and `laws` state what the chain comes
//! to against any cluster.

pub mod cluster;
pub mod ecs;
pub mod error;
pub mod fragment;
pub mod laws;
pub mod resolver;
pub mod session;
