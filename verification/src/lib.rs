//! Boot-health verification and recovery decisions for image-based,
//! immutable operating-system deployments.
//!
//! The crate holds the decision core: the boot-counter store model, the
//! health-check verdict over discovered check scripts, the orchestration of
//! the post-boot verification flow, the rollback trigger, and the service
//! liveness classifier. All external effects (running scripts, editing the
//! bootloader environment, rebooting, rolling back) are described as data:
//! the functions here compute which effects to perform and how the
//! persistent state changes, and an unverified shell around the crate
//! carries them out.

pub mod checks;
pub mod config;
pub mod handler;
pub mod health;
pub mod monitor;
pub mod policy;
pub mod rollback;
pub mod scan;
