//! Provisioning of the virtual interface pair: the exact command plans
//! the networking tool must run, and the exit-code check applied to each
//! step.
//!
//! Only the decisions live here — which program, which arguments, in
//! which order, and which exit status each step must return. The shell
//! spawns the processes and hands each observed exit status back to
//! [`check_exit`].

use vstd::prelude::*;
use vstd::string::StringExecFns;

verus! {

/// A virtual interface pair: the main link, its peer link, and the
/// address to put on the main link.
pub struct Veth {
    name: String,
    peer: String,
    cidr: String,
}

/// One provisioning step: the program to run, its argument list, the
/// exit status it must return, and a short description for diagnostics.
pub struct CmdStep {
    pub program: String,
    pub args: Vec<String>,
    pub expected: i32,
    pub description: String,
}

/// Why a provisioning step was rejected.
#[derive(Clone, Copy, Debug, PartialEq, Eq, Structural)]
pub enum SetupError {
    /// The command ended without an exit status (for instance, killed by
    /// a signal).
    MissingExitCode,
    /// The command exited with a status other than the expected one.
    UnexpectedExitCode { expected: i32, actual: i32 },
}

/// How an observed exit status is judged against the expected one.
pub open spec fn check_exit_spec(expected: i32, actual: Option<i32>) -> Result<(), SetupError> {
    match actual {
        None => Err(SetupError::MissingExitCode),
        Some(code) => if code == expected {
            Ok(())
        } else {
            Err(SetupError::UnexpectedExitCode { expected: expected, actual: code })
        },
    }
}

/// Judges one step's observed exit status: accepted exactly when it is
/// present and equals the expected one; otherwise the error says what
/// was observed instead.
pub fn check_exit(expected: i32, actual: Option<i32>) -> (r: Result<(), SetupError>)
    ensures
        r == check_exit_spec(expected, actual),
{
    match actual {
        None => Err(SetupError::MissingExitCode),
        Some(code) => {
            if code == expected {
                Ok(())
            } else {
                Err(SetupError::UnexpectedExitCode { expected: expected, actual: code })
            }
        },
    }
}

impl Veth {
    pub closed spec fn name_spec(&self) -> Seq<char> {
        self.name@
    }

    pub closed spec fn peer_spec(&self) -> Seq<char> {
        self.peer@
    }

    pub closed spec fn cidr_spec(&self) -> Seq<char> {
        self.cidr@
    }

    /// A pair named after the main link: the peer link carries the main
    /// link's name with the `-peer` suffix.
    pub fn init(name: &str, cidr: &str) -> (r: Self)
        ensures
            r.name_spec() == name@,
            r.cidr_spec() == cidr@,
            r.peer_spec() == name@ + "-peer"@,
    {
        let mut peer = name.to_owned();
        peer.append("-peer");
        Veth { name: name.to_owned(), peer, cidr: cidr.to_owned() }
    }

    /// The plan that brings the pair up: check that the main link does
    /// not already exist (the probe must fail), create the pair, put the
    /// address on the main link, then bring both links up. Each step
    /// names the exact arguments for the networking tool and the exit
    /// status it must return; the steps run in this order and the plan
    /// aborts on the first mismatch.
    pub fn create_device(&self) -> (r: Vec<CmdStep>)
        ensures
            r@.len() == 5,
            forall|i: int| 0 <= i < 5 ==> (#[trigger] r@[i]).program@ == "ip"@,
            r@[0].expected == 1 && r@[0].args.deep_view() =~= seq!["link"@, "show"@, self.name_spec()],
            r@[1].expected == 0 && r@[1].args.deep_view() =~= seq![
                "link"@,
                "add"@,
                self.name_spec(),
                "type"@,
                "veth"@,
                "peer"@,
                "name"@,
                self.peer_spec(),
            ],
            r@[2].expected == 0 && r@[2].args.deep_view() =~= seq![
                "addr"@,
                "add"@,
                self.cidr_spec(),
                "dev"@,
                self.name_spec(),
            ],
            r@[3].expected == 0 && r@[3].args.deep_view() =~= seq![
                "link"@,
                "set"@,
                self.name_spec(),
                "up"@,
            ],
            r@[4].expected == 0 && r@[4].args.deep_view() =~= seq![
                "link"@,
                "set"@,
                self.peer_spec(),
                "up"@,
            ],
    {
        let mut plan: Vec<CmdStep> = Vec::new();
        plan.push(CmdStep {
            program: "ip".to_owned(),
            args: vec![
                "link".to_owned(),
                "show".to_owned(),
                self.name.clone(),
            ],
            expected: 1,
            description: "Check if interface exists".to_owned(),
        });
        plan.push(CmdStep {
            program: "ip".to_owned(),
            args: vec![
                "link".to_owned(),
                "add".to_owned(),
                self.name.clone(),
                "type".to_owned(),
                "veth".to_owned(),
                "peer".to_owned(),
                "name".to_owned(),
                self.peer.clone(),
            ],
            expected: 0,
            description: "Create veth pair".to_owned(),
        });
        plan.push(CmdStep {
            program: "ip".to_owned(),
            args: vec![
                "addr".to_owned(),
                "add".to_owned(),
                self.cidr.clone(),
                "dev".to_owned(),
                self.name.clone(),
            ],
            expected: 0,
            description: "Set IPv4 address".to_owned(),
        });
        plan.push(CmdStep {
            program: "ip".to_owned(),
            args: vec![
                "link".to_owned(),
                "set".to_owned(),
                self.name.clone(),
                "up".to_owned(),
            ],
            expected: 0,
            description: "Bring main link up".to_owned(),
        });
        plan.push(CmdStep {
            program: "ip".to_owned(),
            args: vec![
                "link".to_owned(),
                "set".to_owned(),
                self.peer.clone(),
                "up".to_owned(),
            ],
            expected: 0,
            description: "Bring peer link up".to_owned(),
        });
        plan
    }

    /// The step that tears the pair down: deleting the main link also
    /// removes its peer. Its outcome is advisory — the caller may ignore
    /// a failure, as a pair that never existed needs no teardown.
    pub fn destroy_device(&self) -> (r: CmdStep)
        ensures
            r.program@ == "ip"@,
            r.expected == 0,
            r.args.deep_view() =~= seq!["link"@, "del"@, self.name_spec()],
    {
        CmdStep {
            program: "ip".to_owned(),
            args: vec![
                "link".to_owned(),
                "del".to_owned(),
                self.name.clone(),
            ],
            expected: 0,
            description: "Delete veth pair".to_owned(),
        }
    }
}

} // verus!
