//! The suggestion pipeline as a state machine.
//!
//! The machine decides; a driver performs. `Pipeline::step` consumes the
//! outcome of the last external command and returns the next [`Action`]:
//! which command to run, or the final [`Outcome`]. The driver owns every
//! process launch, so the machine itself never touches the outside world,
//! and every transition is verified against the functional model
//! [`step_model`].
//!
//! The stages, in order: probe the path for a repository; list the changed
//! files; diff the changed files one at a time, in listing order, gathering
//! the aggregate text; hand the prompt to the inference process; interpret
//! its output.

use crate::aggregate::entry_of;
use crate::prompt::build_prompt;
use crate::prompt::prompt_of;
use crate::text::line_seq;
use crate::text::split_lines;
use vstd::prelude::*;
use vstd::string::StringExecFns;

verus! {

/// The successful probe outcome carrying this message is the answer for a
/// path that is not under version control. It is not an error.
pub const NOT_A_REPO_MESSAGE: &'static str = "Not a git repo";

/// The error reported when the changed-file listing cannot be obtained, and
/// when the inference process exits with a failure status.
pub const PATH_ERROR_MESSAGE: &'static str = "Path error occurred";

/// The error reported when a per-file diff query succeeds but its output is
/// not decodable as text.
pub const DIFF_DECODE_ERROR_MESSAGE: &'static str = "could not decode a file diff";

/// The error reported when the inference process succeeds but its output is
/// not decodable as text.
pub const OUTPUT_DECODE_ERROR_MESSAGE: &'static str = "inference output was not valid text";

/// Stage of the pipeline.
#[derive(Clone, Copy, PartialEq, Eq, Debug, Structural)]
pub enum Phase {
    /// Waiting for the outcome of the repository probe.
    Probe,
    /// Waiting for the outcome of the changed-file listing.
    List,
    /// Waiting for the diff of the next changed file.
    Diff,
    /// Waiting for the outcome of the inference process.
    Infer,
    /// Finished; no further command is wanted.
    Done,
}

/// What the driver reports about one external command.
#[derive(Debug)]
pub enum CmdOutcome {
    /// The command could not be started at all.
    LaunchFailed { message: String },
    /// The command ran to completion. `stdout` is its standard output as
    /// text, or `None` where the output was not decodable.
    Exited { success: bool, stdout: Option<String> },
}

/// Final result of the pipeline.
#[derive(Debug)]
pub enum Outcome {
    /// The inference process produced this suggestion text.
    Suggestion { text: String },
    /// The path is not under version control; a successful answer, not an
    /// error.
    NotARepository { message: String },
    /// The request failed; the message says why.
    Failure { message: String },
}

/// What the driver must do next.
#[derive(Debug)]
pub enum Action {
    /// Ask the version-control tool whether `path` is inside a repository.
    Probe { path: String },
    /// Ask for the names of the changed files under `path`.
    ListChanged { path: String },
    /// Ask for the diff of `file`, relative to the repository at `path`.
    DiffFile { path: String, file: String },
    /// Run the inference process on `prompt`.
    Infer { prompt: String },
    /// Nothing: the pipeline is finished with this outcome.
    Finish { outcome: Outcome },
}

/// Model of a [`CmdOutcome`].
pub enum CmdOutcomeV {
    LaunchFailed(Seq<char>),
    Exited(bool, Option<Seq<char>>),
}

/// Model of an [`Outcome`].
pub enum OutcomeV {
    Suggestion(Seq<char>),
    NotARepository(Seq<char>),
    Failure(Seq<char>),
}

/// Model of an [`Action`].
pub enum ActionV {
    Probe(Seq<char>),
    ListChanged(Seq<char>),
    DiffFile(Seq<char>, Seq<char>),
    Infer(Seq<char>),
    Finish(OutcomeV),
}

impl View for CmdOutcome {
    type V = CmdOutcomeV;

    open spec fn view(&self) -> CmdOutcomeV {
        match self {
            CmdOutcome::LaunchFailed { message } => CmdOutcomeV::LaunchFailed(message@),
            CmdOutcome::Exited { success, stdout } => CmdOutcomeV::Exited(
                *success,
                match stdout {
                    Some(s) => Some(s@),
                    None => None,
                },
            ),
        }
    }
}

impl View for Outcome {
    type V = OutcomeV;

    open spec fn view(&self) -> OutcomeV {
        match self {
            Outcome::Suggestion { text } => OutcomeV::Suggestion(text@),
            Outcome::NotARepository { message } => OutcomeV::NotARepository(message@),
            Outcome::Failure { message } => OutcomeV::Failure(message@),
        }
    }
}

impl View for Action {
    type V = ActionV;

    open spec fn view(&self) -> ActionV {
        match self {
            Action::Probe { path } => ActionV::Probe(path@),
            Action::ListChanged { path } => ActionV::ListChanged(path@),
            Action::DiffFile { path, file } => ActionV::DiffFile(path@, file@),
            Action::Infer { prompt } => ActionV::Infer(prompt@),
            Action::Finish { outcome } => ActionV::Finish(outcome@),
        }
    }
}

/// Model of a [`Pipeline`].
#[verifier::ext_equal]
pub struct PipelineV {
    /// Current stage.
    pub phase: Phase,
    /// The path given at the start; every command is scoped to it.
    pub path: Seq<char>,
    /// The changed files, in listing order; empty until the listing arrives.
    pub files: Seq<Seq<char>>,
    /// How many of `files` have been diffed so far.
    pub next: int,
    /// The aggregate diff text gathered so far.
    pub aggregate: Seq<char>,
}

impl PipelineV {
    /// Internal consistency of a pipeline state.
    pub open spec fn wf(self) -> bool {
        &&& 0 <= self.next <= self.files.len()
        &&& (self.phase == Phase::Diff ==> self.next < self.files.len())
        &&& ((self.phase == Phase::Probe || self.phase == Phase::List) ==> self.files.len() == 0
            && self.next == 0 && self.aggregate.len() == 0)
    }
}

/// The state a fresh pipeline for `path` is in.
pub open spec fn init_model(path: Seq<char>) -> PipelineV {
    PipelineV { phase: Phase::Probe, path: path, files: Seq::empty(), next: 0, aggregate: Seq::empty() }
}

/// `p` with its phase set to `Done`.
pub open spec fn done_model(p: PipelineV) -> PipelineV {
    PipelineV { phase: Phase::Done, ..p }
}

/// After a listing or a diff: either the next file is diffed, or — once no
/// file is pending — the prompt goes to the inference process.
pub open spec fn advance_model(p: PipelineV) -> (PipelineV, ActionV) {
    if p.next < p.files.len() {
        (PipelineV { phase: Phase::Diff, ..p }, ActionV::DiffFile(p.path, p.files[p.next]))
    } else {
        (PipelineV { phase: Phase::Infer, ..p }, ActionV::Infer(prompt_of(p.aggregate)))
    }
}

/// A per-file diff query failed (bad exit status, or it could not be
/// launched): aggregation stops early, and the text gathered so far goes to
/// the inference process. No error is raised.
pub open spec fn stop_diffing_model(p: PipelineV) -> (PipelineV, ActionV) {
    (PipelineV { phase: Phase::Infer, ..p }, ActionV::Infer(prompt_of(p.aggregate)))
}

/// The functional model of one step: what the machine in state `p` does with
/// the outcome `ev` of the command it was waiting for.
pub open spec fn step_model(p: PipelineV, ev: CmdOutcomeV) -> (PipelineV, ActionV) {
    match p.phase {
        Phase::Probe => match ev {
            // the probe tool itself could not be started: a configuration
            // error, surfaced verbatim
            CmdOutcomeV::LaunchFailed(message) => (
                done_model(p),
                ActionV::Finish(OutcomeV::Failure(message)),
            ),
            CmdOutcomeV::Exited(success, _) => if success {
                (PipelineV { phase: Phase::List, ..p }, ActionV::ListChanged(p.path))
            } else {
                // not a repository: a successful, non-error answer
                (done_model(p), ActionV::Finish(OutcomeV::NotARepository(NOT_A_REPO_MESSAGE@)))
            },
        },
        Phase::List => match ev {
            CmdOutcomeV::LaunchFailed(message) => (
                done_model(p),
                ActionV::Finish(OutcomeV::Failure(message)),
            ),
            CmdOutcomeV::Exited(success, stdout) => if !success {
                (done_model(p), ActionV::Finish(OutcomeV::Failure(PATH_ERROR_MESSAGE@)))
            } else {
                match stdout {
                    // a listing that cannot be decoded is as fatal as one
                    // that cannot be obtained
                    None => (done_model(p), ActionV::Finish(OutcomeV::Failure(PATH_ERROR_MESSAGE@))),
                    Some(listing) => advance_model(
                        PipelineV { files: line_seq(listing), ..p },
                    ),
                }
            },
        },
        Phase::Diff => match ev {
            CmdOutcomeV::LaunchFailed(_) => stop_diffing_model(p),
            CmdOutcomeV::Exited(success, stdout) => if !success {
                stop_diffing_model(p)
            } else {
                match stdout {
                    // a diff that ran but is not text: fatal for the request
                    None => (
                        done_model(p),
                        ActionV::Finish(OutcomeV::Failure(DIFF_DECODE_ERROR_MESSAGE@)),
                    ),
                    Some(diff) => advance_model(
                        PipelineV {
                            aggregate: p.aggregate + entry_of(p.files[p.next], diff),
                            next: p.next + 1,
                            ..p
                        },
                    ),
                }
            },
        },
        Phase::Infer => match ev {
            CmdOutcomeV::LaunchFailed(message) => (
                done_model(p),
                ActionV::Finish(OutcomeV::Failure(message)),
            ),
            CmdOutcomeV::Exited(success, stdout) => if !success {
                (done_model(p), ActionV::Finish(OutcomeV::Failure(PATH_ERROR_MESSAGE@)))
            } else {
                match stdout {
                    None => (
                        done_model(p),
                        ActionV::Finish(OutcomeV::Failure(OUTPUT_DECODE_ERROR_MESSAGE@)),
                    ),
                    Some(text) => (done_model(p), ActionV::Finish(OutcomeV::Suggestion(text))),
                }
            },
        },
        // never reached: the machine is only stepped while it is running
        Phase::Done => (p, ActionV::Finish(OutcomeV::Failure(Seq::empty()))),
    }
}

/// The suggestion pipeline. Drive it by performing the returned actions and
/// feeding each command's outcome back through [`Pipeline::step`].
pub struct Pipeline {
    /// Current stage.
    pub phase: Phase,
    /// The path given at the start.
    pub path: String,
    /// The changed files, in listing order.
    pub files: Vec<String>,
    /// How many of `files` have been diffed so far.
    pub next: usize,
    /// The aggregate diff text gathered so far.
    pub aggregate: String,
}

impl View for Pipeline {
    type V = PipelineV;

    open spec fn view(&self) -> PipelineV {
        PipelineV {
            phase: self.phase,
            path: self.path@,
            files: self.files.deep_view(),
            next: self.next as int,
            aggregate: self.aggregate@,
        }
    }
}

impl Pipeline {
    /// A fresh pipeline for `path`, waiting for the repository probe.
    pub fn new(path: String) -> (p: Pipeline)
        ensures
            p@ == init_model(path@),
            p@.wf(),
    {
        let p = Pipeline {
            phase: Phase::Probe,
            path: path,
            files: Vec::new(),
            next: 0,
            aggregate: String::new(),
        };
        proof {
            assert(p@ =~= init_model(p.path@));
        }
        p
    }

    /// The first command to run: the repository probe.
    pub fn start_action(&self) -> (action: Action)
        requires
            self@.phase == Phase::Probe,
        ensures
            action@ == ActionV::Probe(self@.path),
    {
        Action::Probe { path: self.path.clone() }
    }

    /// Whether the pipeline has finished.
    pub fn finished(&self) -> (done: bool)
        ensures
            done == (self@.phase == Phase::Done),
    {
        match self.phase {
            Phase::Done => true,
            _ => false,
        }
    }

    /// After a listing or a diff: emits the next pending diff query, or the
    /// inference query once every file is handled.
    fn advance(&mut self) -> (action: Action)
        requires
            old(self)@.next <= old(self)@.files.len(),
        ensures
            final(self)@ == advance_model(old(self)@).0,
            action@ == advance_model(old(self)@).1,
    {
        if self.next < self.files.len() {
            self.phase = Phase::Diff;
            let file = self.files[self.next].clone();
            let action = Action::DiffFile { path: self.path.clone(), file: file };
            proof {
                assert(self@ =~= advance_model(old(self)@).0);
            }
            action
        } else {
            self.phase = Phase::Infer;
            let prompt = build_prompt(self.aggregate.as_str());
            proof {
                assert(self@ =~= advance_model(old(self)@).0);
            }
            Action::Infer { prompt }
        }
    }

    /// One step of the pipeline: consumes the outcome of the command the
    /// machine was waiting for and returns the next action. The step is
    /// exactly [`step_model`] on the models of the state and the outcome.
    pub fn step(&mut self, outcome: CmdOutcome) -> (action: Action)
        requires
            old(self)@.wf(),
            old(self)@.phase != Phase::Done,
        ensures
            final(self)@ == step_model(old(self)@, outcome@).0,
            action@ == step_model(old(self)@, outcome@).1,
            final(self)@.wf(),
    {
        match self.phase {
            Phase::Probe => match outcome {
                CmdOutcome::LaunchFailed { message } => self.fail(message),
                CmdOutcome::Exited { success, stdout: _ } => {
                    if success {
                        self.phase = Phase::List;
                        proof {
                            assert(self@ =~= step_model(old(self)@, outcome@).0);
                        }
                        Action::ListChanged { path: self.path.clone() }
                    } else {
                        self.phase = Phase::Done;
                        proof {
                            assert(self@ =~= done_model(old(self)@));
                        }
                        Action::Finish {
                            outcome: Outcome::NotARepository {
                                message: String::from_str(NOT_A_REPO_MESSAGE),
                            },
                        }
                    }
                },
            },
            Phase::List => match outcome {
                CmdOutcome::LaunchFailed { message } => self.fail(message),
                CmdOutcome::Exited { success, stdout } => {
                    if !success {
                        self.fail(String::from_str(PATH_ERROR_MESSAGE))
                    } else {
                        match stdout {
                            None => self.fail(String::from_str(PATH_ERROR_MESSAGE)),
                            Some(listing) => {
                                self.files = split_lines(listing.as_str());
                                proof {
                                    assert(self@ =~= (PipelineV {
                                        files: line_seq(listing@),
                                        ..old(self)@
                                    }));
                                }
                                self.advance()
                            },
                        }
                    }
                },
            },
            Phase::Diff => match outcome {
                CmdOutcome::LaunchFailed { message: _ } => self.stop_diffing(),
                CmdOutcome::Exited { success, stdout } => {
                    if !success {
                        self.stop_diffing()
                    } else {
                        match stdout {
                            None => self.fail(String::from_str(DIFF_DECODE_ERROR_MESSAGE)),
                            Some(diff) => {
                                let ghost pre = self@;
                                let file = self.files[self.next].clone();
                                self.aggregate.append(file.as_str());
                                self.aggregate.append("\n");
                                self.aggregate.append(diff.as_str());
                                self.aggregate.append("\n");
                                let total = self.files.len();
                                proof {
                                    assert(self.next < total);
                                }
                                self.next = self.next + 1;
                                proof {
                                    reveal_strlit("\n");
                                    assert("\n"@ =~= seq!['\n']);
                                    assert(self@.aggregate =~= pre.aggregate + entry_of(
                                        pre.files[pre.next],
                                        diff@,
                                    ));
                                    assert(self@ =~= (PipelineV {
                                        aggregate: pre.aggregate + entry_of(
                                            pre.files[pre.next],
                                            diff@,
                                        ),
                                        next: pre.next + 1,
                                        ..pre
                                    }));
                                }
                                self.advance()
                            },
                        }
                    }
                },
            },
            Phase::Infer => match outcome {
                CmdOutcome::LaunchFailed { message } => self.fail(message),
                CmdOutcome::Exited { success, stdout } => {
                    if !success {
                        self.fail(String::from_str(PATH_ERROR_MESSAGE))
                    } else {
                        match stdout {
                            None => self.fail(String::from_str(OUTPUT_DECODE_ERROR_MESSAGE)),
                            Some(text) => {
                                self.phase = Phase::Done;
                                proof {
                                    assert(self@ =~= done_model(old(self)@));
                                }
                                Action::Finish { outcome: Outcome::Suggestion { text } }
                            },
                        }
                    }
                },
            },
            Phase::Done => unreached(),  // excluded by the precondition
        }
    }

    /// Finishes the pipeline with a failure carrying `message`.
    fn fail(&mut self, message: String) -> (action: Action)
        ensures
            final(self)@ == done_model(old(self)@),
            action@ == ActionV::Finish(OutcomeV::Failure(message@)),
    {
        self.phase = Phase::Done;
        proof {
            assert(self@ =~= done_model(old(self)@));
        }
        Action::Finish { outcome: Outcome::Failure { message } }
    }

    /// Stops aggregation early after a failed diff query and hands the text
    /// gathered so far to the inference process.
    fn stop_diffing(&mut self) -> (action: Action)
        ensures
            final(self)@ == stop_diffing_model(old(self)@).0,
            action@ == stop_diffing_model(old(self)@).1,
    {
        self.phase = Phase::Infer;
        let prompt = build_prompt(self.aggregate.as_str());
        proof {
            assert(self@ =~= stop_diffing_model(old(self)@).0);
        }
        Action::Infer { prompt }
    }
}

} // verus!
