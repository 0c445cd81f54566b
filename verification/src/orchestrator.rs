//! The orchestrator: a state machine that sequences the run — resolve
//! the configuration, check eligibility, await confirmation, build the
//! archive, upload it — and decides, on every outside event, what happens
//! next. The outside work itself (network calls, filesystem walks,
//! prompts) happens around the library: the caller performs the action
//! this machine returns and hands back the event that resulted.

use vstd::prelude::*;
use crate::config::Settings;
use crate::eligibility::{interpret_check_response, EligibilityDecision};
use crate::errors::SubmitError;
use crate::filter::{format_of, parse_format, ArchiveFormat};
use crate::http::http_success;

verus! {

/// Where a run stands. `Done` and `Aborted` are terminal: `Done` after a
/// completed upload, `Aborted` after a clean early end (not approved, or
/// declined at confirmation) or a fatal error.
#[derive(Clone, Copy, Debug, PartialEq, Eq, Structural)]
pub enum Phase {
    ResolvingConfig,
    CheckingEligibility,
    AwaitingConfirmation,
    BuildingArchive,
    Uploading,
    Done,
    Aborted,
}

/// What happened outside the library since the machine last decided.
pub enum Event {
    Start,
    CheckFinished { status: u16, body: String, parsed: Option<EligibilityDecision> },
    CheckTransportFailed { message: String },
    ConfirmAnswer(bool),
    ArchiveBuilt,
    BuildFailed { message: String },
    UploadReadFailed { message: String },
    UploadFinished { status: u16, body: String },
    UploadTransportFailed { message: String },
}

/// What the caller must do next. `Halt` asks for nothing: the run is
/// over, or the event did not belong to the current phase.
#[derive(Debug, PartialEq, Eq)]
pub enum Action {
    CheckEligibility,
    AskConfirmation { remaining_attempts: i32 },
    BuildArchive(ArchiveFormat),
    Upload,
    ReportNotApproved,
    ReportDeclined,
    ReportSuccess(String),
    Halt,
}

/// The shape of a step's outcome, with the data stripped: which action
/// was asked for, or that the step failed.
#[derive(Clone, Copy, Debug, PartialEq, Eq, Structural)]
pub enum StepKind {
    Check,
    Ask,
    Build,
    Upload,
    NotApproved,
    Declined,
    Success,
    Halt,
    Fail,
}

/// The shape of a step's outcome.
pub open spec fn kind_of(r: Result<Action, SubmitError>) -> StepKind {
    match r {
        Ok(a) => match a {
            Action::CheckEligibility => StepKind::Check,
            Action::AskConfirmation { .. } => StepKind::Ask,
            Action::BuildArchive(_) => StepKind::Build,
            Action::Upload => StepKind::Upload,
            Action::ReportNotApproved => StepKind::NotApproved,
            Action::ReportDeclined => StepKind::Declined,
            Action::ReportSuccess(_) => StepKind::Success,
            Action::Halt => StepKind::Halt,
        },
        Err(_) => StepKind::Fail,
    }
}

/// An action that touches the filesystem or the remote server.
pub open spec fn does_work(k: StepKind) -> bool {
    k == StepKind::Build || k == StepKind::Upload
}

/// One run of the pipeline.
pub struct Orchestrator {
    pub settings: Settings,
    pub phase: Phase,
    pub format: Option<ArchiveFormat>,
}

/// The machine's phase after an event.
pub open spec fn next_phase(m: Orchestrator, e: Event) -> Phase {
    match m.phase {
        Phase::ResolvingConfig => match e {
            Event::Start => match m.settings.format_choice {
                Some(name) => if format_of(name@) is Some {
                    Phase::BuildingArchive
                } else {
                    Phase::Aborted
                },
                None => Phase::CheckingEligibility,
            },
            _ => m.phase,
        },
        Phase::CheckingEligibility => match e {
            Event::CheckFinished { status, body, parsed } => {
                if !http_success(status) {
                    Phase::Aborted
                } else {
                    match parsed {
                        None => Phase::Aborted,
                        Some(d) => {
                            if !d.approved {
                                Phase::Aborted
                            } else if format_of(d.required_format@) is None {
                                Phase::Aborted
                            } else if m.settings.auto_confirm {
                                Phase::BuildingArchive
                            } else {
                                Phase::AwaitingConfirmation
                            }
                        },
                    }
                }
            },
            Event::CheckTransportFailed { .. } => Phase::Aborted,
            _ => m.phase,
        },
        Phase::AwaitingConfirmation => match e {
            Event::ConfirmAnswer(yes) => if yes {
                Phase::BuildingArchive
            } else {
                Phase::Aborted
            },
            _ => m.phase,
        },
        Phase::BuildingArchive => match e {
            Event::ArchiveBuilt => Phase::Uploading,
            Event::BuildFailed { .. } => Phase::Aborted,
            _ => m.phase,
        },
        Phase::Uploading => match e {
            Event::UploadFinished { status, body } => if http_success(status) {
                Phase::Done
            } else {
                Phase::Aborted
            },
            Event::UploadReadFailed { .. } => Phase::Aborted,
            Event::UploadTransportFailed { .. } => Phase::Aborted,
            _ => m.phase,
        },
        Phase::Done => m.phase,
        Phase::Aborted => m.phase,
    }
}

/// The format the machine holds after an event: set once, where the run's
/// format is resolved.
pub open spec fn next_format(m: Orchestrator, e: Event) -> Option<ArchiveFormat> {
    match m.phase {
        Phase::ResolvingConfig => match e {
            Event::Start => match m.settings.format_choice {
                Some(name) => format_of(name@),
                None => m.format,
            },
            _ => m.format,
        },
        Phase::CheckingEligibility => match e {
            Event::CheckFinished { status, body, parsed } => {
                if !http_success(status) {
                    m.format
                } else {
                    match parsed {
                        None => m.format,
                        Some(d) => {
                            if d.approved && format_of(d.required_format@) is Some {
                                format_of(d.required_format@)
                            } else {
                                m.format
                            }
                        },
                    }
                }
            },
            _ => m.format,
        },
        _ => m.format,
    }
}

/// The shape of the outcome a step yields on an event.
pub open spec fn action_kind(m: Orchestrator, e: Event) -> StepKind {
    match m.phase {
        Phase::ResolvingConfig => match e {
            Event::Start => match m.settings.format_choice {
                Some(name) => if format_of(name@) is Some {
                    StepKind::Build
                } else {
                    StepKind::Fail
                },
                None => StepKind::Check,
            },
            _ => StepKind::Halt,
        },
        Phase::CheckingEligibility => match e {
            Event::CheckFinished { status, body, parsed } => {
                if !http_success(status) {
                    StepKind::Fail
                } else {
                    match parsed {
                        None => StepKind::Fail,
                        Some(d) => {
                            if !d.approved {
                                StepKind::NotApproved
                            } else if format_of(d.required_format@) is None {
                                StepKind::Fail
                            } else if m.settings.auto_confirm {
                                StepKind::Build
                            } else {
                                StepKind::Ask
                            }
                        },
                    }
                }
            },
            Event::CheckTransportFailed { .. } => StepKind::Fail,
            _ => StepKind::Halt,
        },
        Phase::AwaitingConfirmation => match e {
            Event::ConfirmAnswer(yes) => if yes {
                StepKind::Build
            } else {
                StepKind::Declined
            },
            _ => StepKind::Halt,
        },
        Phase::BuildingArchive => match e {
            Event::ArchiveBuilt => StepKind::Upload,
            Event::BuildFailed { .. } => StepKind::Fail,
            _ => StepKind::Halt,
        },
        Phase::Uploading => match e {
            Event::UploadFinished { status, body } => if http_success(status) {
                StepKind::Success
            } else {
                StepKind::Fail
            },
            Event::UploadReadFailed { .. } => StepKind::Fail,
            Event::UploadTransportFailed { .. } => StepKind::Fail,
            _ => StepKind::Halt,
        },
        Phase::Done => StepKind::Halt,
        Phase::Aborted => StepKind::Halt,
    }
}

/// The machine after an event: same settings, the next phase, the next
/// format.
pub open spec fn spec_step(m: Orchestrator, e: Event) -> Orchestrator {
    Orchestrator { settings: m.settings, phase: next_phase(m, e), format: next_format(m, e) }
}

/// A machine awaiting confirmation has a resolved format to build with.
pub open spec fn wf(m: Orchestrator) -> bool {
    m.phase == Phase::AwaitingConfirmation ==> m.format is Some
}

impl Orchestrator {
    /// A fresh run over resolved settings.
    pub fn new(settings: Settings) -> (m: Self)
        ensures
            m.settings == settings,
            m.phase == Phase::ResolvingConfig,
            m.format is None,
            wf(m),
    {
        Orchestrator { settings, phase: Phase::ResolvingConfig, format: None }
    }

    /// Advance the run by one event. The machine moves to `next_phase`,
    /// resolves the format per `next_format`, and answers with the action
    /// of `action_kind` — or with the error that ends the run: a
    /// transport failure is a network error; a non-success status of the
    /// check or the upload is a rejection carrying status and body; an
    /// unreadable check response is a protocol error; an invalid format
    /// name, whatever its source, is a configuration error; a build
    /// failure is an I/O error.
    pub fn step(&mut self, e: Event) -> (r: Result<Action, SubmitError>)
        requires
            wf(*old(self)),
        ensures
            wf(*final(self)),
            final(self).settings == old(self).settings,
            final(self).phase == next_phase(*old(self), e),
            final(self).format == next_format(*old(self), e),
            kind_of(r) == action_kind(*old(self), e),
            r matches Ok(Action::BuildArchive(f)) ==> Some(f) == next_format(*old(self), e),
            old(self).phase == Phase::ResolvingConfig ==> (e matches Event::Start ==> (match old(
                self,
            ).settings.format_choice {
                Some(name) => format_of(name@) is None ==> (r matches Err(err)
                    && err is ConfigError),
                None => r == Ok::<Action, SubmitError>(Action::CheckEligibility),
            })),
            old(self).phase == Phase::CheckingEligibility ==> (e matches Event::CheckFinished {
                status,
                body,
                parsed,
            } ==> {
                &&& !http_success(status) ==> r == Err::<Action, SubmitError>(
                    SubmitError::ServerRejected { status, body },
                )
                &&& (http_success(status) && parsed is None) ==> (r matches Err(err)
                    && err is ProtocolError)
                &&& parsed matches Some(d) ==> http_success(status) ==> {
                    &&& !d.approved ==> r == Ok::<Action, SubmitError>(Action::ReportNotApproved)
                    &&& (d.approved && format_of(d.required_format@) is None) ==> (r matches Err(
                        err,
                    ) && err is ConfigError)
                    &&& (d.approved && format_of(d.required_format@) is Some && !old(
                        self,
                    ).settings.auto_confirm) ==> r == Ok::<Action, SubmitError>(
                        Action::AskConfirmation { remaining_attempts: d.remaining_attempts },
                    )
                }
            }),
            old(self).phase == Phase::CheckingEligibility ==> (e
                matches Event::CheckTransportFailed { message } ==> r == Err::<
                Action,
                SubmitError,
            >(SubmitError::NetworkError(message))),
            old(self).phase == Phase::AwaitingConfirmation ==> (e matches Event::ConfirmAnswer(yes)
                ==> !yes ==> r == Ok::<Action, SubmitError>(Action::ReportDeclined)),
            old(self).phase == Phase::BuildingArchive ==> (e matches Event::BuildFailed { message }
                ==> r == Err::<Action, SubmitError>(SubmitError::IoError(message))),
            old(self).phase == Phase::Uploading ==> (e matches Event::UploadFinished {
                status,
                body,
            } ==> (if http_success(status) {
                r == Ok::<Action, SubmitError>(Action::ReportSuccess(body))
            } else {
                r == Err::<Action, SubmitError>(SubmitError::ServerRejected { status, body })
            })),
            old(self).phase == Phase::Uploading ==> (e matches Event::UploadTransportFailed {
                message,
            } ==> r == Err::<Action, SubmitError>(SubmitError::NetworkError(message))),
            old(self).phase == Phase::Uploading ==> (e matches Event::UploadReadFailed { message }
                ==> r == Err::<Action, SubmitError>(SubmitError::IoError(message))),
    {
        match self.phase {
            Phase::ResolvingConfig => match e {
                Event::Start => match &self.settings.format_choice {
                    Some(name) => {
                        let parsed = parse_format(name.as_str());
                        match parsed {
                            Ok(f) => {
                                self.phase = Phase::BuildingArchive;
                                self.format = Some(f);
                                Ok(Action::BuildArchive(f))
                            },
                            Err(err) => {
                                self.phase = Phase::Aborted;
                                self.format = None;
                                Err(err)
                            },
                        }
                    },
                    None => {
                        self.phase = Phase::CheckingEligibility;
                        Ok(Action::CheckEligibility)
                    },
                },
                _ => Ok(Action::Halt),
            },
            Phase::CheckingEligibility => match e {
                Event::CheckFinished { status, body, parsed } => {
                    let decision = interpret_check_response(status, body, parsed);
                    match decision {
                        Err(err) => {
                            self.phase = Phase::Aborted;
                            Err(err)
                        },
                        Ok(d) => {
                            if !d.approved {
                                self.phase = Phase::Aborted;
                                Ok(Action::ReportNotApproved)
                            } else {
                                match parse_format(d.required_format.as_str()) {
                                    Err(err) => {
                                        self.phase = Phase::Aborted;
                                        Err(err)
                                    },
                                    Ok(f) => {
                                        self.format = Some(f);
                                        if self.settings.auto_confirm {
                                            self.phase = Phase::BuildingArchive;
                                            Ok(Action::BuildArchive(f))
                                        } else {
                                            self.phase = Phase::AwaitingConfirmation;
                                            Ok(
                                                Action::AskConfirmation {
                                                    remaining_attempts: d.remaining_attempts,
                                                },
                                            )
                                        }
                                    },
                                }
                            }
                        },
                    }
                },
                Event::CheckTransportFailed { message } => {
                    self.phase = Phase::Aborted;
                    Err(SubmitError::NetworkError(message))
                },
                _ => Ok(Action::Halt),
            },
            Phase::AwaitingConfirmation => match e {
                Event::ConfirmAnswer(yes) => {
                    if yes {
                        self.phase = Phase::BuildingArchive;
                        match self.format {
                            Some(f) => Ok(Action::BuildArchive(f)),
                            None => vstd::pervasive::unreached(),
                        }
                    } else {
                        self.phase = Phase::Aborted;
                        Ok(Action::ReportDeclined)
                    }
                },
                _ => Ok(Action::Halt),
            },
            Phase::BuildingArchive => match e {
                Event::ArchiveBuilt => {
                    self.phase = Phase::Uploading;
                    Ok(Action::Upload)
                },
                Event::BuildFailed { message } => {
                    self.phase = Phase::Aborted;
                    Err(SubmitError::IoError(message))
                },
                _ => Ok(Action::Halt),
            },
            Phase::Uploading => match e {
                Event::UploadFinished { status, body } => {
                    let outcome = crate::upload::interpret_upload_response(status, body);
                    match outcome {
                        Ok(confirmation) => {
                            self.phase = Phase::Done;
                            Ok(Action::ReportSuccess(confirmation))
                        },
                        Err(err) => {
                            self.phase = Phase::Aborted;
                            Err(err)
                        },
                    }
                },
                Event::UploadReadFailed { message } => {
                    self.phase = Phase::Aborted;
                    Err(SubmitError::IoError(message))
                },
                Event::UploadTransportFailed { message } => {
                    self.phase = Phase::Aborted;
                    Err(SubmitError::NetworkError(message))
                },
                _ => Ok(Action::Halt),
            },
            Phase::Done => Ok(Action::Halt),
            Phase::Aborted => Ok(Action::Halt),
        }
    }
}

/// Does any step of a run, driven by these events from this state, ask
/// for filesystem or upload work?
pub open spec fn trace_has_work(m: Orchestrator, events: Seq<Event>) -> bool
    decreases events.len(),
{
    if events.len() == 0 {
        false
    } else {
        does_work(action_kind(m, events[0])) || trace_has_work(spec_step(m, events[0]), events.skip(1))
    }
}

/// A finished run asks for nothing more: from either terminal phase, no
/// sequence of further events produces build or upload work.
pub proof fn lemma_terminal_stays_idle(m: Orchestrator, events: Seq<Event>)
    requires
        m.phase == Phase::Aborted || m.phase == Phase::Done,
    ensures
        !trace_has_work(m, events),
    decreases events.len(),
{
    if events.len() > 0 {
        lemma_terminal_stays_idle(spec_step(m, events[0]), events.skip(1));
    }
}

/// Eligibility gating: when the check answers that submission is not
/// approved, the machine reports it, moves to the aborted terminal, and —
/// whatever events follow — never asks for an archive to be built nor for
/// an upload.
pub proof fn lemma_not_approved_never_works(m: Orchestrator, e: Event, events: Seq<Event>)
    requires
        m.phase == Phase::CheckingEligibility,
        e matches Event::CheckFinished { status, body, parsed } && http_success(status) && (
        parsed matches Some(d) && !d.approved),
    ensures
        action_kind(m, e) == StepKind::NotApproved,
        next_phase(m, e) == Phase::Aborted,
        !does_work(action_kind(m, e)),
        !trace_has_work(spec_step(m, e), events),
{
    lemma_terminal_stays_idle(spec_step(m, e), events);
}

} // verus!
