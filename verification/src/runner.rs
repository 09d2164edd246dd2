//! The guest job-runner phase: the commands that configure the ephemeral
//! runner against the job-dispatch platform and hand control to its run
//! script. The registration values arrive through the service unit's
//! environment; the shell reads them and executes the commands in order.

use vstd::prelude::*;

use crate::command::Cmd;
use crate::fs::cmd_is;

verus! {

/// The runner phase.
pub struct Runner {}

impl Default for Runner {
    fn default() -> (r: Runner)
        ensures
            r == (Runner {  }),
    {
        Runner {  }
    }
}

impl Runner {
    /// The runner phase.
    pub fn new() -> (r: Runner)
        ensures
            r == (Runner {  }),
    {
        Runner {  }
    }

    /// The two commands of the runner phase, in order: configure an
    /// unattended ephemeral runner for the organisation under the given
    /// name, token and labels, then execute the run script. The second runs
    /// only if the first succeeded.
    pub fn run(&self, org: &str, token: &str, name: &str, labels: &str) -> (cmds: Vec<Cmd>)
        ensures
            cmds@.len() == 2,
            cmd_is(cmds@[0], "/home/runner/config.sh"@, seq![
                "--url"@,
                "https://github.com/"@ + org@,
                "--token"@,
                token@,
                "--unattended"@,
                "--ephemeral"@,
                "--name"@,
                name@,
                "--labels"@,
                labels@,
            ]),
            cmd_is(cmds@[1], "/home/runner/run.sh"@, Seq::<Seq<char>>::empty()),
    {
        let mut cmds: Vec<Cmd> = Vec::new();

        let mut config = Cmd::new(String::from_str("/home/runner/config.sh"));
        config.arg(String::from_str("--url"));
        let mut url = String::from_str("https://github.com/");
        url.append(org);
        config.arg(url);
        config.arg(String::from_str("--token"));
        config.arg(String::from_str(token));
        config.arg(String::from_str("--unattended"));
        config.arg(String::from_str("--ephemeral"));
        config.arg(String::from_str("--name"));
        config.arg(String::from_str(name));
        config.arg(String::from_str("--labels"));
        config.arg(String::from_str(labels));
        proof {
            assert(config.args.deep_view() =~= seq![
                "--url"@,
                "https://github.com/"@ + org@,
                "--token"@,
                token@,
                "--unattended"@,
                "--ephemeral"@,
                "--name"@,
                name@,
                "--labels"@,
                labels@,
            ]);
        }
        cmds.push(config);
        cmds.push(Cmd::new(String::from_str("/home/runner/run.sh")));
        cmds
    }
}

} // verus!
