//! Provisioning of dotfiles: a tree of dotfiles is fetched from a repository
//! or an archive, the files of a profile are backed up and replaced by
//! symlinks into the tree, and one state record tells what was done.
//!
//! The library decides and never acts. Each lifecycle operation (`init`,
//! `setup`, `status`, `destroy`) is a machine that hands out one
//! [`effect::Action`] at a time and is told what came of it as an
//! [`effect::Event`]; whoever drives the machine touches the disk, runs the
//! programs, reads the clock, and reads and writes the state file. What a
//! machine asks for, in which order, and what it makes of each answer is
//! stated in its contract and proved.
//!
//! The remaining modules hold what the machines are made of (the state
//! record, paths, the classification of sources, text), and the tables of a
//! small generator of Dockerfiles for trying the dotfiles out.

pub mod backup;
pub mod clock;
pub mod dedent;
pub mod destroy;
pub mod distro;
pub mod effect;
pub mod error;
pub mod fetch;
pub mod init;
pub mod lifecycle;
pub mod link;
pub mod paths;
pub mod report;
pub mod setup;
pub mod source;
pub mod state;
pub mod status;
pub mod store;
pub mod text;
