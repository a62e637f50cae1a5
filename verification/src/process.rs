//! The process-isolation core: what the driver decides about a child
//! process's outcome, what the worker decides about a backend outcome,
//! and the write-once override of the executable that is re-launched.
//!
//! Compiling one unit is a pure function of its request, but it runs in
//! a dedicated child process so that a crashing or hanging backend
//! cannot take the driver down. The pipes, spawning and waiting live
//! outside this crate; every decision about the bytes that crossed the
//! boundary is made — and verified — here.

use vstd::prelude::*;

use crate::request::{Build, BuildV, Input, Output, OutputV};
use crate::wire::{
    lemma_response_round_trip, parse_response, parse_response_spec, ser_response,
    serialize_response,
};

verus! {

/// The command-line flag that selects worker mode in a spawned child.
pub fn worker_mode_flag() -> (r: &'static str)
    ensures
        r@ == "--recursive-process"@,
{
    "--recursive-process"
}

/// Everything that can go wrong around one worker call, each annotated
/// with the resolved executable path; transport, protocol and
/// exit-status failures also carry the child's full diagnostic text.
#[derive(Debug, Clone, PartialEq, Eq)]
pub enum ProcessError {
    /// The child's executable path could not be determined.
    ExecutableResolution {
        /// What the path lookup reported.
        detail: String,
    },
    /// The operating system refused to create the child.
    Spawn {
        /// The resolved executable path.
        executable: String,
        /// What the spawn reported.
        detail: String,
    },
    /// The child's input handle could not be taken.
    StdinAccess {
        /// The resolved executable path.
        executable: String,
    },
    /// Writing the request into the child failed.
    StdinWrite {
        /// The resolved executable path.
        executable: String,
        /// What the write reported.
        detail: String,
    },
    /// Collecting the child's output failed.
    OutputRead {
        /// The resolved executable path.
        executable: String,
        /// What the read reported.
        detail: String,
    },
    /// The child's output does not parse as a response.
    Protocol {
        /// The resolved executable path.
        executable: String,
        /// Everything the child wrote to its diagnostic stream.
        stderr: String,
    },
    /// The child terminated with a non-zero status.
    ExitStatus {
        /// The resolved executable path.
        executable: String,
        /// Everything the child wrote to its diagnostic stream.
        stderr: String,
    },
}

impl ProcessError {
    /// The full text of this error, diagnostic output included.
    pub open spec fn message_spec(self) -> Seq<char> {
        match self {
            ProcessError::ExecutableResolution { detail } => "executable resolution error: "@
                + detail@,
            ProcessError::Spawn { executable, detail } => executable@
                + " subprocess spawning error: "@ + detail@,
            ProcessError::StdinAccess { executable } => executable@
                + " subprocess stdin getting error"@,
            ProcessError::StdinWrite { executable, detail } => executable@
                + " subprocess stdin writing error: "@ + detail@,
            ProcessError::OutputRead { executable, detail } => executable@
                + " subprocess output reading error: "@ + detail@,
            ProcessError::Protocol { executable, stderr } => executable@
                + " subprocess stdout parsing error (stderr: "@ + stderr@ + ")"@,
            ProcessError::ExitStatus { executable, stderr } => executable@ + " error: "@
                + stderr@,
        }
    }

    /// Renders the full error text, reproducing the captured
    /// diagnostic output verbatim.
    pub fn message(&self) -> (r: String)
        ensures
            r@ == self.message_spec(),
    {
        let mut m = String::new();
        match self {
            ProcessError::ExecutableResolution { detail } => {
                m.append("executable resolution error: ");
                m.append(detail.as_str());
                proof {
                    assert(Seq::<char>::empty() + "executable resolution error: "@
                        =~= "executable resolution error: "@);
                }
            },
            ProcessError::Spawn { executable, detail } => {
                m.append(executable.as_str());
                m.append(" subprocess spawning error: ");
                m.append(detail.as_str());
                proof {
                    assert(Seq::<char>::empty() + executable@ =~= executable@);
                }
            },
            ProcessError::StdinAccess { executable } => {
                m.append(executable.as_str());
                m.append(" subprocess stdin getting error");
                proof {
                    assert(Seq::<char>::empty() + executable@ =~= executable@);
                }
            },
            ProcessError::StdinWrite { executable, detail } => {
                m.append(executable.as_str());
                m.append(" subprocess stdin writing error: ");
                m.append(detail.as_str());
                proof {
                    assert(Seq::<char>::empty() + executable@ =~= executable@);
                }
            },
            ProcessError::OutputRead { executable, detail } => {
                m.append(executable.as_str());
                m.append(" subprocess output reading error: ");
                m.append(detail.as_str());
                proof {
                    assert(Seq::<char>::empty() + executable@ =~= executable@);
                }
            },
            ProcessError::Protocol { executable, stderr } => {
                m.append(executable.as_str());
                m.append(" subprocess stdout parsing error (stderr: ");
                m.append(stderr.as_str());
                m.append(")");
                proof {
                    assert(Seq::<char>::empty() + executable@ =~= executable@);
                }
            },
            ProcessError::ExitStatus { executable, stderr } => {
                m.append(executable.as_str());
                m.append(" error: ");
                m.append(stderr.as_str());
                proof {
                    assert(Seq::<char>::empty() + executable@ =~= executable@);
                }
            },
        }
        m
    }
}

// ------------------------------------------------------------------
// The driver side: judging a finished child.
// ------------------------------------------------------------------

/// Judges a finished child from everything it left behind: its output
/// text, its diagnostic text, and whether it exited successfully.
///
/// Output that does not parse is a protocol error even when the child
/// exited cleanly; a non-zero exit is a failure even when the output
/// parses. Both failures carry the full diagnostic text. The call
/// succeeds exactly when the output parses and the exit was clean.
pub fn interpret_child_output(
    executable: &String,
    stdout_text: &String,
    stderr_text: &String,
    exit_success: bool,
) -> (r: Result<Output, ProcessError>)
    ensures
        (match r {
            Ok(out) => exit_success && parse_response_spec(stdout_text@) == Some(out@),
            Err(e) => match e {
                ProcessError::Protocol { executable: ex, stderr } => parse_response_spec(
                    stdout_text@,
                ) is None && ex@ == executable@ && stderr@ == stderr_text@,
                ProcessError::ExitStatus { executable: ex, stderr } => parse_response_spec(
                    stdout_text@,
                ) is Some && !exit_success && ex@ == executable@ && stderr@ == stderr_text@,
                _ => false,
            },
        }),
{
    match parse_response(stdout_text.as_str()) {
        Some(output) => {
            if exit_success {
                Ok(output)
            } else {
                Err(
                    ProcessError::ExitStatus {
                        executable: executable.clone(),
                        stderr: stderr_text.clone(),
                    },
                )
            }
        },
        None => Err(
            ProcessError::Protocol {
                executable: executable.clone(),
                stderr: stderr_text.clone(),
            },
        ),
    }
}

// ------------------------------------------------------------------
// The worker side: judging a backend outcome.
// ------------------------------------------------------------------

/// The single write a worker performs before it exits.
#[derive(Debug, Clone, PartialEq, Eq)]
pub enum WorkerAction {
    /// Write this response to standard output and exit successfully.
    Respond {
        /// The serialized response.
        payload: String,
    },
    /// Write this text to standard error and exit with a failure
    /// status; nothing reaches standard output.
    Fail {
        /// The backend's diagnostic text, verbatim.
        message: String,
    },
}

/// Decides the worker's one write from the backend outcome: a
/// successful build becomes a serialized response on standard output,
/// a failure becomes its diagnostic text on standard error. Exactly
/// one of the two ever happens.
pub fn plan_worker_output(result: Result<Build, String>) -> (action: WorkerAction)
    ensures
        (match (result, action) {
            (Ok(build), WorkerAction::Respond { payload }) => payload@ == ser_response(
                OutputV { build: build@ },
            ),
            (Err(message), WorkerAction::Fail { message: written }) => written@ == message@,
            _ => false,
        }),
{
    match result {
        Ok(build) => {
            let output = Output::new(build);
            let payload = serialize_response(&output);
            WorkerAction::Respond { payload }
        },
        Err(message) => WorkerAction::Fail { message },
    }
}

/// Worker success, end to end: the response a worker writes for a
/// successfully built artifact reads back, on the driver's side, as
/// exactly that artifact.
pub proof fn lemma_worker_response_reads_back(build: BuildV)
    ensures
        parse_response_spec(ser_response(OutputV { build })) == Some(OutputV { build }),
{
    lemma_response_round_trip(OutputV { build });
}

/// Whether a request asks the worker to switch the backend into the
/// test bytecode encoding before compiling.
pub fn wants_test_encoding(input: &Input) -> (r: bool)
    ensures
        r == input@.enable_test_encoding,
{
    input.enable_test_encoding
}

// ------------------------------------------------------------------
// The executable override.
// ------------------------------------------------------------------

/// The process-wide choice of which binary to re-launch for worker
/// calls: set at most once, read thereafter. While unset, the running
/// binary's own path (supplied by the caller at resolution time) is
/// used.
pub struct ExecutableOverride {
    path: Option<String>,
}

impl View for ExecutableOverride {
    type V = Option<Seq<char>>;

    closed spec fn view(&self) -> Option<Seq<char>> {
        match self.path {
            Some(p) => Some(p@),
            None => None,
        }
    }
}

impl ExecutableOverride {
    /// A fresh, unset override.
    pub fn new() -> (r: Self)
        ensures
            r@ is None,
    {
        ExecutableOverride { path: None }
    }

    /// Sets the override once. A second attempt changes nothing and
    /// hands the rejected path back.
    pub fn set(&mut self, path: String) -> (r: Result<(), String>)
        ensures
            old(self)@ is None ==> final(self)@ == Some(path@) && r is Ok,
            old(self)@ is Some ==> final(self)@ == old(self)@ && (r matches Err(rejected)
                && rejected@ == path@),
    {
        match self.path {
            Some(_) => Err(path),
            None => {
                self.path = Some(path);
                Ok(())
            },
        }
    }

    /// The override, if one was set.
    pub fn get(&self) -> (r: Option<&String>)
        ensures
            (match r {
                Some(p) => self@ == Some(p@),
                None => self@ is None,
            }),
    {
        match &self.path {
            Some(p) => Some(p),
            None => None,
        }
    }

    /// Resolves the executable to launch: the override if set — every
    /// call after a successful `set` goes to that path — else the
    /// current executable as the caller looked it up. A failed lookup
    /// is fatal and is never retried.
    pub fn resolve(&self, current_exe: Result<String, String>) -> (r: Result<
        String,
        ProcessError,
    >)
        ensures
            self@ is Some ==> (r matches Ok(path) && Some(path@) == self@),
            self@ is None ==> (match (current_exe, r) {
                (Ok(exe), Ok(path)) => path@ == exe@,
                (Err(detail), Err(e)) => e matches ProcessError::ExecutableResolution {
                    detail: d,
                } && d@ == detail@,
                _ => false,
            }),
    {
        match &self.path {
            Some(p) => Ok(p.clone()),
            None => match current_exe {
                Ok(exe) => Ok(exe),
                Err(detail) => Err(ProcessError::ExecutableResolution { detail }),
            },
        }
    }
}

} // verus!
