//! A microVM fleet manager for ephemeral CI runners, split into a verified
//! core and a thin unverified shell.
//!
//! The core computes everything that can be stated exactly: the MAC/IPv4
//! address codec, per-slot network allocations, boot-argument and hypervisor
//! configuration documents, the external commands each subsystem issues, and
//! the per-instance lifecycle state machine. Process spawning, file system
//! access and HTTP calls live outside the library and consume the plans the
//! library produces.

pub mod allocation;
pub mod allocator;
pub mod builder;
pub mod cache;
pub mod command;
pub mod config;
pub mod disk;
pub mod docker;
pub mod firecracker;
pub mod forwarding;
pub mod fs;
pub mod github;
pub mod guest_network;
pub mod initialiser;
pub mod instance;
pub mod json;
pub mod manager;
pub mod manager_config;
pub mod mount;
pub mod network;
pub mod qemu;
pub mod runner;
pub mod service;
pub mod strutil;
