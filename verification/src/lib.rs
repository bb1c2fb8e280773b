//! Watching source repositories and deploying what changes.
//!
//! A tracked repository is described by a [`config::ConfigFile`]. One daemon
//! per tracked repository polls the remote for a new version of the tracked
//! branch and, when there is one, clones, builds and deploys it.
//!
//! This library holds the decisions and leaves the doing to its host: it
//! touches no file, runs no command and knows no clock.
//!
//! - [`cycle`] is one poll cycle as a state machine, and [`history`] says
//!   what holds of every cycle, whatever the host reports.
//! - [`supervisor`] is the life of one daemon: take over from an earlier
//!   one, detach, then poll for ever.
//! - [`control`] plans which daemons to launch and to stop, and [`status`]
//!   what to list of each tracked repository.
//! - [`remote`] reads remote locators and the answers of the remote,
//!   [`commands`] writes the command lines, [`text`] cuts strings.
//! - [`runner`], [`entry`] and [`env`] serve the entry point of a deployed
//!   application; [`content`] holds the boilerplate of a new descriptor and
//!   [`cli`] the commands of the control surface.

pub mod cli;
pub mod commands;
pub mod config;
pub mod content;
pub mod control;
pub mod cycle;
pub mod entry;
pub mod env;
pub mod history;
pub mod remote;
pub mod runner;
pub mod status;
pub mod supervisor;
pub mod text;
