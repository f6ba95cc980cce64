//! Provisioning of TLS-enabled virtual-host configuration for a single
//! domain on one of two web-server backends.
//!
//! The crate models the pure core of the provisioning tool: the domain
//! value type with its validation rules, the rendered configuration text
//! blocks, the detector that decides whether a configuration file already
//! declares a domain, and the orchestrator that plans a provisioning run
//! as an explicit sequence of actions.  All filesystem and process work
//! is left to the caller, which executes the planned actions.

pub mod apache;
pub mod certer;
pub mod chars;
pub mod configuration_file;
pub mod domain;
pub mod http_config;
pub mod linker;
pub mod nginx;
pub mod provision;
pub mod sites;
pub mod webroot;
