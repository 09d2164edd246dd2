//! The in-guest runner service: the systemd unit that starts the job runner
//! as the runner user, carries the four registration variables as
//! environment, and reboots the guest when the ephemeral runner exits.

use vstd::prelude::*;

verus! {

/// Where the runner service unit is written.
pub const SERVICE_PATH: &'static str = "/etc/systemd/system/runner.service";

/// The unit template; each placeholder is filled with one registration
/// variable.
pub const SERVICE_TEMPLATE: &'static str = "\n[Unit]\nDescription=Actions Runner\nAfter=network.target\n\n[Service]\nExecStart=/sbin/actions-run\nKillMode=control-group\nKillSignal=SIGTERM\nTimeoutStopSec=5min\nWorkingDirectory=/home/runner\nUser=runner\nRestart=never\nEnvironment=\"GITHUB_ORG={github_org}\"\nEnvironment=\"GITHUB_TOKEN={github_token}\"\nEnvironment=\"GITHUB_RUNNER_NAME={github_runner_name}\"\nEnvironment=\"GITHUB_RUNNER_LABELS={github_runner_labels}\"\nExecStopPost=+/usr/sbin/reboot\n";

/// The unit's text with the four registration variables spliced in.
pub open spec fn spec_service_content(
    github_org: Seq<char>,
    github_token: Seq<char>,
    github_runner_name: Seq<char>,
    github_runner_labels: Seq<char>,
) -> Seq<char> {
    "\n[Unit]\nDescription=Actions Runner\nAfter=network.target\n\n[Service]\nExecStart=/sbin/actions-run\nKillMode=control-group\nKillSignal=SIGTERM\nTimeoutStopSec=5min\nWorkingDirectory=/home/runner\nUser=runner\nRestart=never\nEnvironment=\"GITHUB_ORG="@
        + github_org + "\"\nEnvironment=\"GITHUB_TOKEN="@ + github_token
        + "\"\nEnvironment=\"GITHUB_RUNNER_NAME="@ + github_runner_name
        + "\"\nEnvironment=\"GITHUB_RUNNER_LABELS="@ + github_runner_labels
        + "\"\nExecStopPost=+/usr/sbin/reboot\n"@
}

/// The runner service unit: where to write it and its exact contents under
/// the given registration variables.
pub fn setup_service(
    github_org: &str,
    github_token: &str,
    github_runner_name: &str,
    github_runner_labels: &str,
) -> (r: (String, String))
    ensures
        r.0@ == SERVICE_PATH@,
        r.1@ == spec_service_content(
            github_org@,
            github_token@,
            github_runner_name@,
            github_runner_labels@,
        ),
{
    let mut content = String::from_str(
        "\n[Unit]\nDescription=Actions Runner\nAfter=network.target\n\n[Service]\nExecStart=/sbin/actions-run\nKillMode=control-group\nKillSignal=SIGTERM\nTimeoutStopSec=5min\nWorkingDirectory=/home/runner\nUser=runner\nRestart=never\nEnvironment=\"GITHUB_ORG=",
    );
    content.append(github_org);
    content.append("\"\nEnvironment=\"GITHUB_TOKEN=");
    content.append(github_token);
    content.append("\"\nEnvironment=\"GITHUB_RUNNER_NAME=");
    content.append(github_runner_name);
    content.append("\"\nEnvironment=\"GITHUB_RUNNER_LABELS=");
    content.append(github_runner_labels);
    content.append("\"\nExecStopPost=+/usr/sbin/reboot\n");
    (String::from_str(SERVICE_PATH), content)
}

/// The symlink that starts the runner service at boot: its source (the unit
/// file) and the place the link is created.
pub fn enable_service() -> (r: (String, String))
    ensures
        r.0@ == SERVICE_PATH@,
        r.1@ == "/etc/systemd/system/multi-user.target.wants/runner.service"@,
{
    (
        String::from_str(SERVICE_PATH),
        String::from_str("/etc/systemd/system/multi-user.target.wants/runner.service"),
    )
}

} // verus!
