//! The image build: from a container recipe to a bootable raw ext4 image
//! with the agent binary installed at its well-known path. The pipeline's
//! commands are computed and proved here; the shell executes them in order,
//! feeding each captured identifier into the next stage, and pipes the
//! export pair. Cleanup on failure is deliberately absent so operators can
//! inspect the partial state.

use vstd::prelude::*;

use crate::command::{Cmd, CommandExecutionError};
use crate::docker;
use crate::fs::{cmd_is, copy_sparse, mkdir_p, mkfs_ext4, rm_rf};
use crate::mount::{mount_image, unmount};
use crate::qemu;
use crate::strutil::{path_join, spec_dec_nat, spec_path_join};

verus! {

/// Why an image build failed; the string payloads carry the rendered
/// underlying messages.
#[derive(Debug)]
pub enum BuildError {
    /// A file-system step failed.
    IO(String),
    /// A pipeline command could not be executed or exited non-zero.
    Command(CommandExecutionError),
    /// Captured output was not valid UTF-8.
    Utf8(String),
    /// The container build produced no usable image identifier.
    DockerBuild(String),
    /// The raw-image creation failed.
    QemuBuild(CommandExecutionError),
    /// The running executable's own path could not be determined.
    SelfNotFound(String),
}

/// The image build's fixed parameters: the builder's own executable, the
/// recipe, the output path, the scratch locations, and the image size.
pub struct Builder {
    pub own_path: String,
    pub source_path: String,
    pub output_path: String,
    pub work_path: String,
    pub mount_path: String,
    pub size_gb: u8,
}

/// The default image size in gibibytes.
pub const DEFAULT_IMAGE_SIZE_GB: u8 = 10;

impl Builder {
    /// A build of the recipe at `source_path` into `output_path`, both
    /// resolved against `current_dir`, embedding the executable at
    /// `own_path`, with the default size unless one is given.
    pub fn new(
        own_path: &str,
        current_dir: &str,
        source_path: &str,
        output_path: &str,
        size_gb: Option<u8>,
    ) -> (b: Builder)
        ensures
            b.own_path@ == own_path@,
            b.source_path@ == spec_path_join(current_dir@, source_path@),
            b.output_path@ == spec_path_join(current_dir@, output_path@),
            b.work_path@ == "/tmp/actions-runner"@,
            b.mount_path@ == "/tmp/actions-runner/mnt"@,
            b.size_gb == (match size_gb {
                Some(size) => size,
                None => DEFAULT_IMAGE_SIZE_GB,
            }),
    {
        let size = match size_gb {
            Some(size) => size,
            None => DEFAULT_IMAGE_SIZE_GB,
        };
        Builder {
            own_path: String::from_str(own_path),
            source_path: path_join(current_dir, source_path),
            output_path: path_join(current_dir, output_path),
            work_path: String::from_str("/tmp/actions-runner"),
            mount_path: String::from_str("/tmp/actions-runner/mnt"),
            size_gb: size,
        }
    }

    /// The command that builds the container image from the recipe; its
    /// whitespace-stripped output is the image identifier.
    pub fn build_image(&self) -> (c: Cmd)
        ensures
            cmd_is(c, "docker"@, seq!["build"@, "-q"@, "--file"@, self.source_path@, "."@]),
    {
        docker::build_image(self.source_path.as_str())
    }

    /// The command that instantiates a detached container from the built
    /// image; its whitespace-stripped output is the container identifier.
    pub fn create_container(&self, image_id: &str) -> (c: Cmd)
        ensures
            cmd_is(c, "docker"@, seq!["run"@, "-td"@, image_id@]),
    {
        docker::create_container(image_id)
    }

    /// The rest of the pipeline, once the container exists: create the mount
    /// directory, create and format the raw image, mount it, stream the
    /// container's root file system in (the fifth command's output pipes
    /// into the sixth), install the builder's own executable as the guest
    /// init, unmount, copy the image to the output path, and remove the
    /// work directory. Any command's failure aborts the build; nothing is
    /// cleaned up on failure.
    pub fn build_inner(&self, container_id: &str) -> (cmds: Vec<Cmd>)
        ensures
            cmds@.len() == 10,
            cmd_is(cmds@[0], "mkdir"@, seq!["-p"@, self.mount_path@]),
            cmd_is(cmds@[1], "qemu-img"@, seq![
                "create"@,
                "-f"@,
                "raw"@,
                spec_path_join(self.work_path@, "image.ext4"@),
                spec_dec_nat(self.size_gb as nat) + "G"@,
            ]),
            cmd_is(cmds@[2], "mkfs.ext4"@, seq![
                spec_path_join(self.work_path@, "image.ext4"@),
            ]),
            cmd_is(cmds@[3], "mount"@, seq![
                spec_path_join(self.work_path@, "image.ext4"@),
                self.mount_path@,
            ]),
            cmd_is(cmds@[4], "docker"@, seq!["cp"@, container_id@ + ":/"@, "-"@]),
            cmd_is(cmds@[5], "tar"@, seq!["xf"@, "-"@, "-C"@, self.mount_path@]),
            cmd_is(cmds@[6], "cp"@, seq![
                "--sparse=always"@,
                self.own_path@,
                spec_path_join(self.mount_path@, "sbin/actions-init"@),
            ]),
            cmd_is(cmds@[7], "umount"@, seq![self.mount_path@]),
            cmd_is(cmds@[8], "cp"@, seq![
                "--sparse=always"@,
                spec_path_join(self.work_path@, "image.ext4"@),
                self.output_path@,
            ]),
            cmd_is(cmds@[9], "rm"@, seq!["-rf"@, self.work_path@]),
    {
        let mut cmds: Vec<Cmd> = Vec::new();
        cmds.push(mkdir_p(self.mount_path.as_str()));
        let (create_cmd, image_path) = qemu::create_fs(self.work_path.as_str(), self.size_gb);
        cmds.push(create_cmd);
        cmds.push(mkfs_ext4(image_path.as_str()));
        cmds.push(mount_image(image_path.as_str(), self.mount_path.as_str()));
        let (cp_cmd, tar_cmd) = docker::export_container(container_id, self.mount_path.as_str());
        cmds.push(cp_cmd);
        cmds.push(tar_cmd);
        let init_path = path_join(self.mount_path.as_str(), "sbin/actions-init");
        cmds.push(copy_sparse(self.own_path.as_str(), init_path.as_str()));
        cmds.push(unmount(self.mount_path.as_str()));
        cmds.push(copy_sparse(image_path.as_str(), self.output_path.as_str()));
        cmds.push(rm_rf(self.work_path.as_str()));
        cmds
    }
}

} // verus!
