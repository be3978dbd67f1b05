//! The core of a self-contained Node.js runtime for a host application.
//!
//! The host wants a pinned version of the interpreter and of its package manager on disk,
//! installed on first use and repaired when broken, and wants to run the package manager
//! in isolation from the user's own configuration. This library holds the decisions of
//! that task, each with a proved contract:
//!
//! - [`platform`] maps the host's operating system and architecture to the vendor's names;
//! - [`layout`] names the installation, its archive and its entries;
//! - [`command`] builds the command lines that run the package manager in isolation;
//! - [`install`] is the provisioning sequence: health check, removal, download,
//!   extraction, support files;
//! - [`invoke`] is a run of a subcommand, with its one retry and the verdict on the exit
//!   status;
//! - [`npm`] builds the requests to the package manager and reads the registry's answer;
//! - [`upgrade`] decides whether an installed package has to be installed again, with
//!   [`manifest`] and [`version`] reading the package manifest and the versions.
//!
//! The library touches neither disk, network nor processes. Its caller performs the steps
//! that the sequences ask for and reports what happened.

pub mod command;
pub mod error;
pub mod install;
pub mod invoke;
pub mod layout;
pub mod manifest;
pub mod npm;
pub mod platform;
pub mod text;
pub mod upgrade;
pub mod version;
