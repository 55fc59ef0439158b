//! How the worker is started: which program, with which arguments and
//! environment, and whether a launch that was attempted counts as a start.

use vstd::prelude::*;
use crate::text::opt_text;

verus! {

/// The interpreter that runs the worker's script during development.
pub const SCRIPT_RUNNER: &'static str = "node";

/// The worker's script, relative to the project directory.
pub const WORKER_SCRIPT: &'static str = "sidecar/build/index.js";

/// The bundled worker, relative to the application's resource directory.
pub const WORKER_BINARY: &'static str = "../MacOS/roon-sidecar";

/// The variable that overrides the host the worker connects to.
pub const HOST_VARIABLE: &'static str = "ROON_HOST";

/// The variable that overrides the port the worker connects to.
pub const PORT_VARIABLE: &'static str = "ROON_PORT";

/// Why no worker was started.
#[derive(Clone, Copy, Debug, PartialEq, Eq, Structural)]
pub enum SpawnError {
    /// The program was found at none of the candidate paths, or it could not be launched.
    SpawnFailure,
    /// The worker was launched but one of its three standard streams could not be captured.
    StreamCaptureFailure,
}

/// How the worker is packaged.
#[derive(Clone, Copy, Debug, PartialEq, Eq, Structural)]
pub enum LaunchMode {
    /// The worker is a script, run by [`SCRIPT_RUNNER`].
    Development,
    /// The worker is a program of its own.
    Production,
}

/// View of [`Candidate`].
pub struct CandidateView {
    pub path: Seq<char>,
    pub exists: bool,
}

/// A place where the worker may be, and whether the caller found a file there.
#[derive(Debug, PartialEq, Eq)]
pub struct Candidate {
    pub path: String,
    pub exists: bool,
}

impl View for Candidate {
    type V = CandidateView;

    open spec fn view(&self) -> CandidateView {
        CandidateView { path: self.path@, exists: self.exists }
    }
}

/// The views of a list of candidates, in order.
pub open spec fn candidates_view(candidates: Seq<Candidate>) -> Seq<CandidateView> {
    Seq::new(candidates.len(), |i: int| candidates[i]@)
}

/// View of [`LaunchRequest`].
pub struct LaunchRequestView {
    pub mode: LaunchMode,
    pub candidates: Seq<CandidateView>,
    pub host: Option<Seq<char>>,
    pub port: Option<Seq<char>>,
}

/// What the caller found out before a launch.
#[derive(Debug, PartialEq, Eq)]
pub struct LaunchRequest {
    pub mode: LaunchMode,
    /// Where the worker may be, the preferred place first.
    pub candidates: Vec<Candidate>,
    /// The value of [`HOST_VARIABLE`], if it is set.
    pub host: Option<String>,
    /// The value of [`PORT_VARIABLE`], if it is set.
    pub port: Option<String>,
}

impl View for LaunchRequest {
    type V = LaunchRequestView;

    open spec fn view(&self) -> LaunchRequestView {
        LaunchRequestView {
            mode: self.mode,
            candidates: candidates_view(self.candidates@),
            host: opt_text(self.host),
            port: opt_text(self.port),
        }
    }
}

/// View of [`LaunchPlan`].
#[verifier::ext_equal]
pub struct LaunchPlanView {
    pub program: Seq<char>,
    pub args: Seq<Seq<char>>,
    pub env: Seq<(Seq<char>, Seq<char>)>,
}

/// The command that starts the worker. Its three standard streams are to be piped.
#[derive(Debug, PartialEq, Eq)]
pub struct LaunchPlan {
    pub program: String,
    pub args: Vec<String>,
    /// Variables to set for the worker, beside those it inherits.
    pub env: Vec<(String, String)>,
}

impl View for LaunchPlan {
    type V = LaunchPlanView;

    open spec fn view(&self) -> LaunchPlanView {
        LaunchPlanView {
            program: self.program@,
            args: Seq::new(self.args@.len(), |i: int| self.args@[i]@),
            env: Seq::new(self.env@.len(), |i: int| (self.env@[i].0@, self.env@[i].1@)),
        }
    }
}

/// The first candidate at or after `from` where a file exists.
pub open spec fn first_existing(candidates: Seq<CandidateView>, from: int) -> Option<int>
    decreases candidates.len() - from,
{
    if from < 0 || from >= candidates.len() {
        None
    } else if candidates[from].exists {
        Some(from)
    } else {
        first_existing(candidates, from + 1)
    }
}

/// The variables handed to the worker: the host, then the port, each if it is set.
pub open spec fn worker_env(host: Option<Seq<char>>, port: Option<Seq<char>>) -> Seq<
    (Seq<char>, Seq<char>),
> {
    let host_part = match host {
        Some(h) => seq![(HOST_VARIABLE@, h)],
        None => seq![],
    };
    let port_part = match port {
        Some(p) => seq![(PORT_VARIABLE@, p)],
        None => seq![],
    };
    host_part + port_part
}

/// The command for `request`: the first candidate where a file exists, run
/// directly or by the script runner, with the connection overrides passed on
/// unchanged. Without such a candidate there is nothing to launch.
pub open spec fn launch_plan_for(request: LaunchRequestView) -> Result<LaunchPlanView, SpawnError> {
    match first_existing(request.candidates, 0) {
        None => Err(SpawnError::SpawnFailure),
        Some(i) => {
            let path = request.candidates[i].path;
            let env = worker_env(request.host, request.port);
            match request.mode {
                LaunchMode::Development => Ok(
                    LaunchPlanView { program: SCRIPT_RUNNER@, args: seq![path], env },
                ),
                LaunchMode::Production => Ok(LaunchPlanView { program: path, args: seq![], env }),
            }
        },
    }
}

/// The view of a planning result.
pub open spec fn plan_result_view(result: Result<LaunchPlan, SpawnError>) -> Result<
    LaunchPlanView,
    SpawnError,
> {
    match result {
        Ok(plan) => Ok(plan@),
        Err(e) => Err(e),
    }
}

/// Decides how to start the worker.
pub fn plan_launch(request: &LaunchRequest) -> (result: Result<LaunchPlan, SpawnError>)
    ensures
        plan_result_view(result) == launch_plan_for(request@),
{
    let mut i: usize = 0;
    while i < request.candidates.len()
        invariant
            i <= request.candidates.len(),
            first_existing(request@.candidates, 0) == first_existing(request@.candidates, i as int),
        decreases request.candidates.len() - i,
    {
        if request.candidates[i].exists {
            let path = request.candidates[i].path.clone();
            let mut env: Vec<(String, String)> = Vec::new();
            match &request.host {
                Some(h) => {
                    env.push((HOST_VARIABLE.to_owned(), h.clone()));
                },
                None => {},
            }
            match &request.port {
                Some(p) => {
                    env.push((PORT_VARIABLE.to_owned(), p.clone()));
                },
                None => {},
            }
            let plan = match request.mode {
                LaunchMode::Development => {
                    let mut args: Vec<String> = Vec::new();
                    args.push(path);
                    LaunchPlan { program: SCRIPT_RUNNER.to_owned(), args, env }
                },
                LaunchMode::Production => LaunchPlan { program: path, args: Vec::new(), env },
            };
            proof {
                let want = launch_plan_for(request@)->Ok_0;
                assert(plan@.env =~= want.env);
                assert(plan@.args =~= want.args);
            }
            return Ok(plan);
        }
        i += 1;
    }
    Err(SpawnError::SpawnFailure)
}

/// What became of a launch that was attempted.
#[derive(Clone, Copy, Debug, PartialEq, Eq, Structural)]
pub struct LaunchReport {
    /// The operating system started the process.
    pub launched: bool,
    pub stdin_captured: bool,
    pub stdout_captured: bool,
    pub stderr_captured: bool,
}

/// Whether a launch counts as a start: the process runs and all three of its
/// standard streams are in hand.
pub open spec fn launch_outcome(report: LaunchReport) -> Result<(), SpawnError> {
    if !report.launched {
        Err(SpawnError::SpawnFailure)
    } else if !(report.stdin_captured && report.stdout_captured && report.stderr_captured) {
        Err(SpawnError::StreamCaptureFailure)
    } else {
        Ok(())
    }
}

/// Judges a launch that was attempted.
pub fn check_launch(report: LaunchReport) -> (result: Result<(), SpawnError>)
    ensures
        result == launch_outcome(report),
{
    if !report.launched {
        Err(SpawnError::SpawnFailure)
    } else if !(report.stdin_captured && report.stdout_captured && report.stderr_captured) {
        Err(SpawnError::StreamCaptureFailure)
    } else {
        Ok(())
    }
}

} // verus!
