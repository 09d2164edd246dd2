//! Fleet-wide constants and the configuration-loading error.

use vstd::prelude::*;

verus! {

/// The kernel arguments every guest boots with, before any per-instance
/// additions.
pub const DEFAULT_BOOT_ARGS: &'static str =
    "random.trust_cpu=on reboot=k panic=1 pci=off overlay_root=vdb init=/sbin/actions-init";

/// The marker prefix of a MAC address that carries an IPv4 address.
pub const NETWORK_MAGIC_MAC_START: &'static str = "06:00";

/// The network mask of each per-slot subnet: four addresses per slot.
pub const NETWORK_MASK_SHORT: u8 = 30;

/// The number of allocatable slots; slot indices run from 0 to one below
/// this bound.
pub const NETWORK_MAX_ALLOCATIONS: u8 = 200;

/// Why a configuration file could not be loaded; each variant carries the
/// rendered underlying message.
#[derive(Debug)]
pub enum ConfigError {
    /// The file could not be read.
    Io(String),
    /// The file is not valid TOML of the expected shape.
    Toml(String),
}

} // verus!
