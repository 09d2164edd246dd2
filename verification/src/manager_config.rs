//! The supervisor's configuration: the host interface, the run directory,
//! the credentials for the job-dispatch API, and the declared roles. The
//! shell loads these values from a TOML file and hands them over as plain
//! values.

use vstd::prelude::*;

verus! {

/// A declared class of worker: the images, resources, population and labels
/// shared by its instances.
pub struct Role {
    pub name: String,
    pub rootfs_image: String,
    pub kernel_image: String,
    pub kernel_cmdline: Option<String>,
    pub cpus: u32,
    pub memory_size: u32,
    pub cache_size: u32,
    pub overlay_size: u32,
    pub instance_count: u8,
    pub cache_paths: Vec<String>,
    pub labels: Vec<String>,
}

/// The lower-case folding of a string of characters.
pub uninterp spec fn lower_of(s: Seq<char>) -> Seq<char>;

/// Relies on str::to_lowercase: the result is the Unicode lower-case
/// equivalent of the input and depends on the input characters alone.
#[verifier::external_body]
fn lowercase(s: &str) -> (r: String)
    ensures
        r@ == lower_of(s@),
        s@.len() == 0 ==> r@.len() == 0,
{
    s.to_lowercase()
}

impl Role {
    /// The role's slug: its name folded to lower case, used in paths, labels
    /// and diagnostics.
    pub fn slug(&self) -> (s: String)
        ensures
            s@ == lower_of(self.name@),
    {
        lowercase(self.name.as_str())
    }
}

/// The overlay size a role gets when its declaration omits one.
pub fn _default_overlay_size() -> (r: u32)
    ensures
        r == 10,
{
    10
}

/// The supervisor's whole configuration.
pub struct ManagerConfig {
    pub network_interface: String,
    pub run_path: String,
    pub roles: Vec<Role>,
    pub github_org: String,
    pub github_pat: String,
}

} // verus!
