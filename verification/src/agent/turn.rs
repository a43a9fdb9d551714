//! One turn through an external harness, as a state machine: the caller performs each
//! action (look up the session, run the harness, store results) and reports back.

use vstd::prelude::*;

use crate::agent::harness::{HarnessConfig, SessionMode};
use crate::error::BeaconError;
use crate::text::concat;

verus! {

/// Token usage a harness reported (its cost stays with the caller).
#[derive(Debug, Clone)]
pub struct RunUsage {
    /// Input tokens
    pub input_tokens: u64,
    /// Input tokens read from the prompt cache
    pub cached_input_tokens: u64,
    /// Output tokens
    pub output_tokens: u64,
    /// Model the harness used, when it said
    pub model: Option<String>,
}

/// What one harness run produced.
#[derive(Debug, Clone)]
pub struct HarnessRun {
    /// Final text response
    pub response: String,
    /// Session id for resumption
    pub session_id: Option<String>,
    /// Token usage
    pub usage: Option<RunUsage>,
}

/// Where a turn stands.
#[derive(Debug, Clone)]
pub enum TurnPhase {
    /// Waiting to hear whether the harness is installed
    CheckingAvailability,
    /// Waiting for the stored session id
    LoadingSession,
    /// Waiting for a run; `resumed` when it resumes a stored session
    Running { resumed: bool },
    /// Waiting for the stale session to be forgotten
    Forgetting,
    /// Waiting for the new session id to be stored
    Saving { run: HarnessRun },
    /// Waiting for usage to be recorded
    Recording { run: HarnessRun },
    /// Waiting for the messages to be stored
    Storing { response: String },
    /// Finished
    Done,
}

/// What the caller reports.
#[derive(Debug)]
pub enum TurnEvent {
    /// Whether the harness command is installed
    Available(bool),
    /// The stored session id, if any
    SessionLoaded(Result<Option<String>, BeaconError>),
    /// The outcome of a run
    Ran(Result<HarnessRun, BeaconError>),
    /// The stale session was forgotten
    Forgot(Result<(), BeaconError>),
    /// The session id was stored
    Saved(Result<(), BeaconError>),
    /// Usage was recorded (failures are only logged)
    Recorded,
    /// The prompt and response were added to the history
    Stored(Result<(), BeaconError>),
}

/// What the caller does next.
#[derive(Debug)]
pub enum TurnAction {
    /// Check whether the harness command is installed
    CheckAvailable,
    /// Load the stored session id for the agent and channel
    LoadSession,
    /// Run the harness, resuming the given session if any
    Run { resume: Option<String> },
    /// Forget the stored session
    ForgetSession,
    /// Store the session id the harness reported
    SaveSession { session_id: String },
    /// Record usage under this model, provider "harness"
    RecordUsage { model: String, input_tokens: u32, output_tokens: u32 },
    /// Add the prompt and this response to the session history
    StoreMessages { response: String },
    /// The turn is over: reply with this text
    Reply(String),
    /// The turn failed
    Fail(BeaconError),
}

/// A harness turn in progress.
#[derive(Debug)]
pub struct HarnessTurn {
    /// Adapter identifier
    pub adapter: String,
    /// Session mode of the harness configuration
    pub mode: SessionMode,
    /// Where the turn stands
    pub phase: TurnPhase,
}

/// The model usage is recorded under: the reported one, or "unknown".
pub open spec fn usage_model(u: RunUsage) -> Seq<char> {
    match u.model {
        Some(m) => m@,
        None => "unknown"@,
    }
}

impl HarnessTurn {
    /// Begin a turn for the configured adapter: an unknown adapter fails the turn.
    pub fn begin(config: &HarnessConfig, adapter_found: bool) -> (r: (Self, TurnAction))
        ensures
            r.0.adapter@ == config.adapter@,
            r.0.mode == config.session_mode,
            adapter_found ==> r.0.phase is CheckingAvailability && r.1 is CheckAvailable,
            !adapter_found ==> r.0.phase is Done && (r.1 matches TurnAction::Fail(e) && e is Harness
                && e.spec_message() == "unknown harness adapter: "@ + config.adapter@),
    {
        let turn = HarnessTurn {
            adapter: config.adapter.clone(),
            mode: config.session_mode,
            phase: if adapter_found {
                TurnPhase::CheckingAvailability
            } else {
                TurnPhase::Done
            },
        };
        if adapter_found {
            (turn, TurnAction::CheckAvailable)
        } else {
            proof {
                reveal_strlit("unknown harness adapter: ");
            }
            let e = BeaconError::Harness(concat("unknown harness adapter: ", config.adapter.as_str()));
            (turn, TurnAction::Fail(e))
        }
    }

    /// The action that follows a successful run.
    fn after_success(&mut self, run: HarnessRun) -> (a: TurnAction)
        ensures
            final(self).adapter == old(self).adapter,
            final(self).mode == old(self).mode,
            match run.session_id {
                Some(sid) => a == TurnAction::SaveSession { session_id: sid } && final(self).phase
                    == TurnPhase::Saving { run },
                None => Self::settled(run, a, final(self).phase),
            },
    {
        match &run.session_id {
            Some(sid) => {
                let session_id = sid.clone();
                self.phase = TurnPhase::Saving { run };
                TurnAction::SaveSession { session_id }
            },
            None => self.settle(run),
        }
    }

    /// Once a run's session is settled: record its usage if it reported any, otherwise
    /// store the messages.
    pub open spec fn settled(run: HarnessRun, a: TurnAction, phase: TurnPhase) -> bool {
        match run.usage {
            Some(u) => phase == TurnPhase::Recording { run } && (a matches TurnAction::RecordUsage {
                model,
                input_tokens,
                output_tokens,
            } && model@ == usage_model(u) && input_tokens == u.input_tokens as u32 && output_tokens
                == u.output_tokens as u32),
            None => phase == TurnPhase::Storing { response: run.response } && a == TurnAction::StoreMessages {
                response: run.response,
            },
        }
    }

    fn settle(&mut self, run: HarnessRun) -> (a: TurnAction)
        ensures
            final(self).adapter == old(self).adapter,
            final(self).mode == old(self).mode,
            Self::settled(run, a, final(self).phase),
    {
        match &run.usage {
            Some(u) => {
                let model = match &u.model {
                    Some(m) => m.clone(),
                    None => String::from_str("unknown"),
                };
                let a = TurnAction::RecordUsage {
                    model,
                    input_tokens: u.input_tokens as u32,
                    output_tokens: u.output_tokens as u32,
                };
                self.phase = TurnPhase::Recording { run };
                a
            },
            None => {
                let response = run.response.clone();
                self.phase = TurnPhase::Storing { response: run.response };
                TurnAction::StoreMessages { response }
            },
        }
    }

    /// Advance the turn with what the caller reports.
    ///
    /// An unavailable harness fails the turn; in resume mode the stored session is
    /// loaded first; a failed run that resumed a session forgets that session and is
    /// retried once without it; a successful run has its session id stored and its
    /// usage recorded, then the prompt and response are added to the history and the
    /// response is the reply. Any storage error fails the turn.
    pub fn advance(&mut self, event: TurnEvent) -> (a: TurnAction)
        ensures
            final(self).adapter == old(self).adapter,
            final(self).mode == old(self).mode,
            match (old(self).phase, event) {
                (TurnPhase::CheckingAvailability, TurnEvent::Available(ok)) => if !ok {
                    final(self).phase is Done && (a matches TurnAction::Fail(e) && e is Harness
                        && e.spec_message() == "harness CLI not found for adapter: "@ + old(self).adapter@)
                } else if old(self).mode == SessionMode::Resume {
                    final(self).phase is LoadingSession && a is LoadSession
                } else {
                    final(self).phase == TurnPhase::Running { resumed: false } && a
                        == TurnAction::Run { resume: None }
                },
                (TurnPhase::LoadingSession, TurnEvent::SessionLoaded(r)) => match r {
                    Err(e) => final(self).phase is Done && a == TurnAction::Fail(e),
                    Ok(stored) => final(self).phase == TurnPhase::Running { resumed: stored is Some }
                        && a == TurnAction::Run { resume: stored },
                },
                (TurnPhase::Running { resumed }, TurnEvent::Ran(r)) => match r {
                    Err(e) => if resumed {
                        final(self).phase is Forgetting && a is ForgetSession
                    } else {
                        final(self).phase is Done && a == TurnAction::Fail(e)
                    },
                    Ok(run) => match run.session_id {
                        Some(sid) => a == TurnAction::SaveSession { session_id: sid } && final(self).phase
                            == TurnPhase::Saving { run },
                        None => Self::settled(run, a, final(self).phase),
                    },
                },
                (TurnPhase::Forgetting, TurnEvent::Forgot(r)) => match r {
                    Err(e) => final(self).phase is Done && a == TurnAction::Fail(e),
                    Ok(_) => final(self).phase == TurnPhase::Running { resumed: false } && a
                        == TurnAction::Run { resume: None },
                },
                (TurnPhase::Saving { run }, TurnEvent::Saved(r)) => match r {
                    Err(e) => final(self).phase is Done && a == TurnAction::Fail(e),
                    Ok(_) => Self::settled(run, a, final(self).phase),
                },
                (TurnPhase::Recording { run }, TurnEvent::Recorded) => final(self).phase
                    == TurnPhase::Storing { response: run.response } && a == TurnAction::StoreMessages {
                    response: run.response,
                },
                (TurnPhase::Storing { response }, TurnEvent::Stored(r)) => final(self).phase is Done && match r {
                    Err(e) => a == TurnAction::Fail(e),
                    Ok(_) => a == TurnAction::Reply(response),
                },
                _ => final(self).phase == old(self).phase && (a matches TurnAction::Fail(e) && e is Harness),
            },
    {
        let mut phase = TurnPhase::Done;
        std::mem::swap(&mut phase, &mut self.phase);
        match (phase, event) {
            (TurnPhase::CheckingAvailability, TurnEvent::Available(ok)) => {
                if !ok {
                    proof {
                        reveal_strlit("harness CLI not found for adapter: ");
                    }
                    TurnAction::Fail(
                        BeaconError::Harness(
                            concat("harness CLI not found for adapter: ", self.adapter.as_str()),
                        ),
                    )
                } else if self.mode == SessionMode::Resume {
                    self.phase = TurnPhase::LoadingSession;
                    TurnAction::LoadSession
                } else {
                    self.phase = TurnPhase::Running { resumed: false };
                    TurnAction::Run { resume: None }
                }
            },
            (TurnPhase::LoadingSession, TurnEvent::SessionLoaded(r)) => match r {
                Err(e) => TurnAction::Fail(e),
                Ok(stored) => {
                    self.phase = TurnPhase::Running { resumed: stored.is_some() };
                    TurnAction::Run { resume: stored }
                },
            },
            (TurnPhase::Running { resumed }, TurnEvent::Ran(r)) => match r {
                Err(e) => {
                    if resumed {
                        self.phase = TurnPhase::Forgetting;
                        TurnAction::ForgetSession
                    } else {
                        TurnAction::Fail(e)
                    }
                },
                Ok(run) => self.after_success(run),
            },
            (TurnPhase::Forgetting, TurnEvent::Forgot(r)) => match r {
                Err(e) => TurnAction::Fail(e),
                Ok(_) => {
                    self.phase = TurnPhase::Running { resumed: false };
                    TurnAction::Run { resume: None }
                },
            },
            (TurnPhase::Saving { run }, TurnEvent::Saved(r)) => match r {
                Err(e) => TurnAction::Fail(e),
                Ok(_) => self.settle(run),
            },
            (TurnPhase::Recording { run }, TurnEvent::Recorded) => {
                let response = run.response.clone();
                self.phase = TurnPhase::Storing { response: run.response };
                TurnAction::StoreMessages { response }
            },
            (TurnPhase::Storing { response }, TurnEvent::Stored(r)) => match r {
                Err(e) => TurnAction::Fail(e),
                Ok(_) => TurnAction::Reply(response),
            },
            (other, _) => {
                self.phase = other;
                TurnAction::Fail(BeaconError::Harness(String::from_str("harness turn out of order")))
            },
        }
    }
}

} // verus!
