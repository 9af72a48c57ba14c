//! The protocol of one playback session.
//!
//! A session is launched once, reports `Playing`, then waits on its control
//! channel. Each wake-up (a command, a timeout, or the channel closing) is an
//! event; the worker answers with the action its caller performs on the
//! audio sinks and the state channel. Time is counted in milliseconds since
//! the session's audio was enqueued.

use vstd::prelude::*;
use crate::settings::{AudioSettings, Gains, gains_of};

verus! {

/// How long a session waits when its source cannot report a duration.
pub const FALLBACK_BUDGET_MS: u64 = 20_000;

/// Longest single wait once the budget is spent, or while it is only a guess.
pub const POLL_INTERVAL_MS: u64 = 250;

/// A command from the owner of a session to its worker.
#[derive(Debug, Clone, Copy, PartialEq, Eq, Structural)]
pub enum PlayerMessage {
    SettingsChange,
    Stop,
}

/// A state reported by a worker to the owner of its session.
#[derive(Debug, Clone, Copy, PartialEq, Eq, Structural)]
pub enum PlayState {
    Playing,
    Stopped,
    Failed,
}

/// Why a session could not start.
#[derive(Debug, Clone, Copy, PartialEq, Eq, Structural)]
pub enum LaunchFailure {
    /// An output stream or sink could not be opened on a device.
    StreamOpen,
    /// The sound file could not be opened.
    FileOpen,
    /// The sound file could not be decoded.
    Decode,
}

/// What woke a waiting worker.
#[derive(Debug, Clone)]
pub enum WorkerEvent {
    /// A `Stop` command arrived.
    Stop,
    /// A `SettingsChange` command arrived; carries the settings read after it.
    SettingsChanged(AudioSettings),
    /// The wait ran out with no command; tells whether every sink is empty.
    TimedOut { sinks_empty: bool },
    /// The owner of the session is gone.
    ControlClosed,
}

/// What the caller of a worker does next.
#[derive(Debug, Clone, Copy, PartialEq, Eq, Structural)]
pub enum WorkerAction {
    /// Wait on the control channel for at most `timeout_ms`.
    Wait { timeout_ms: u64 },
    /// Set each running sink to its new gain, then wait as for `Wait`.
    Retune { gains: Gains, timeout_ms: u64 },
    /// Stop every sink, send `report` on the state channel, and end.
    Finish { report: PlayState },
}

/// State of a running session.
#[derive(Debug, Clone, Copy, PartialEq, Eq, Structural)]
pub struct PlaybackWorker {
    /// Expected play time: the probed duration, or the fallback.
    pub budget_ms: u64,
    /// Whether `budget_ms` is the source's reported duration.
    pub probed: bool,
    /// Gains the sinks are currently set to.
    pub gains: Gains,
    /// `Playing` until the session ends, then `Stopped`.
    pub state: PlayState,
}

/// Outcome of launching a session.
#[derive(Debug, Clone, Copy, PartialEq, Eq, Structural)]
pub enum Launch {
    /// Set the sinks to `worker.gains`, enqueue the sources, report
    /// `Playing`, then wait for at most `timeout_ms`.
    Started { worker: PlaybackWorker, timeout_ms: u64 },
    /// Report `Failed` and end; nothing keeps playing.
    Failed(LaunchFailure),
}

/// How long to wait next: the rest of a probed budget; the rest of a guessed
/// budget in slices of at most the poll interval, so that an early end is
/// seen; the poll interval once the budget is spent and audio still plays.
pub open spec fn wait_for(budget_ms: u64, probed: bool, elapsed_ms: u64) -> u64 {
    if elapsed_ms >= budget_ms {
        POLL_INTERVAL_MS
    } else if probed || budget_ms - elapsed_ms <= POLL_INTERVAL_MS {
        (budget_ms - elapsed_ms) as u64
    } else {
        POLL_INTERVAL_MS
    }
}

/// The budget for a probed duration, or the fallback when there is none.
pub open spec fn budget_of(duration_ms: Option<u64>) -> u64 {
    match duration_ms {
        Some(ms) => ms,
        None => FALLBACK_BUDGET_MS,
    }
}

/// A launch: any failure ends the session at once; otherwise the session
/// plays at the gains the settings call for, with the budget its duration
/// gives.
pub open spec fn launched(
    outcome: Result<Option<u64>, LaunchFailure>,
    settings: AudioSettings,
) -> Launch {
    match outcome {
        Err(f) => Launch::Failed(f),
        Ok(duration_ms) => Launch::Started {
            worker: PlaybackWorker {
                budget_ms: budget_of(duration_ms),
                probed: duration_ms is Some,
                gains: gains_of(settings),
                state: PlayState::Playing,
            },
            timeout_ms: wait_for(budget_of(duration_ms), duration_ms is Some, 0),
        },
    }
}

/// One transition of a running worker. `Stop` and a closed control channel
/// end the session; a settings change retunes the gains and nothing else; a
/// timeout ends the session only once every sink is empty.
pub open spec fn next(w: PlaybackWorker, event: WorkerEvent, elapsed_ms: u64) -> (
    PlaybackWorker,
    WorkerAction,
) {
    let done = PlaybackWorker { state: PlayState::Stopped, ..w };
    let timeout_ms = wait_for(w.budget_ms, w.probed, elapsed_ms);
    match event {
        WorkerEvent::Stop => (done, WorkerAction::Finish { report: PlayState::Stopped }),
        WorkerEvent::ControlClosed => (done, WorkerAction::Finish { report: PlayState::Stopped }),
        WorkerEvent::SettingsChanged(s) => (
            PlaybackWorker { gains: gains_of(s), ..w },
            WorkerAction::Retune { gains: gains_of(s), timeout_ms },
        ),
        WorkerEvent::TimedOut { sinks_empty } => if sinks_empty {
            (done, WorkerAction::Finish { report: PlayState::Stopped })
        } else {
            (w, WorkerAction::Wait { timeout_ms })
        },
    }
}

/// A settings change during a session only retunes it: the session keeps
/// playing with the budget and start it had, its sinks take the gains of the
/// new settings, and it goes on waiting for what remains of its budget.
pub proof fn lemma_settings_change_only_retunes(w: PlaybackWorker, s: AudioSettings, elapsed_ms: u64)
    requires
        w.running(),
    ensures
        next(w, WorkerEvent::SettingsChanged(s), elapsed_ms).0 == (PlaybackWorker {
            gains: gains_of(s),
            ..w
        }),
        next(w, WorkerEvent::SettingsChanged(s), elapsed_ms).0.running(),
        next(w, WorkerEvent::SettingsChanged(s), elapsed_ms).1 == (WorkerAction::Retune {
            gains: gains_of(s),
            timeout_ms: wait_for(w.budget_ms, w.probed, elapsed_ms),
        }),
{
}

/// A running session ends, reporting `Stopped`, right after a `Stop` command,
/// and at the first timeout that finds every sink empty; a timeout while a
/// sink still plays keeps it running unchanged.
pub proof fn lemma_session_ends_stopped(w: PlaybackWorker, elapsed_ms: u64)
    requires
        w.running(),
    ensures
        next(w, WorkerEvent::Stop, elapsed_ms).1 == (WorkerAction::Finish {
            report: PlayState::Stopped,
        }),
        !next(w, WorkerEvent::Stop, elapsed_ms).0.running(),
        next(w, WorkerEvent::TimedOut { sinks_empty: true }, elapsed_ms).1 == (WorkerAction::Finish {
            report: PlayState::Stopped,
        }),
        !next(w, WorkerEvent::TimedOut { sinks_empty: true }, elapsed_ms).0.running(),
        next(w, WorkerEvent::TimedOut { sinks_empty: false }, elapsed_ms).0 == w,
{
}

/// A session whose duration could not be probed never waits longer than the
/// poll interval, so sinks that empty before the fallback budget is spent
/// are seen at the next timeout.
pub proof fn lemma_guessed_budget_polls(w: PlaybackWorker, elapsed_ms: u64)
    requires
        !w.probed,
    ensures
        wait_for(w.budget_ms, w.probed, elapsed_ms) <= POLL_INTERVAL_MS,
{
}

/// Computes the next wait.
fn next_wait(budget_ms: u64, probed: bool, elapsed_ms: u64) -> (t: u64)
    ensures
        t == wait_for(budget_ms, probed, elapsed_ms),
        t <= POLL_INTERVAL_MS || (probed && t == budget_ms - elapsed_ms),
{
    if elapsed_ms >= budget_ms {
        POLL_INTERVAL_MS
    } else if probed || budget_ms - elapsed_ms <= POLL_INTERVAL_MS {
        budget_ms - elapsed_ms
    } else {
        POLL_INTERVAL_MS
    }
}

impl PlaybackWorker {
    /// Decides how a session starts, from what opening the devices and the
    /// file gave (the source's duration in milliseconds if it has one) and
    /// the settings read at launch.
    pub fn launch(outcome: Result<Option<u64>, LaunchFailure>, settings: &AudioSettings) -> (r:
        Launch)
        requires
            settings.wf(),
        ensures
            r == launched(outcome, *settings),
    {
        match outcome {
            Err(f) => Launch::Failed(f),
            Ok(duration_ms) => {
                let (budget_ms, probed) = match duration_ms {
                    Some(ms) => (ms, true),
                    None => (FALLBACK_BUDGET_MS, false),
                };
                let worker = PlaybackWorker {
                    budget_ms,
                    probed,
                    gains: settings.gains(),
                    state: PlayState::Playing,
                };
                Launch::Started { worker, timeout_ms: next_wait(budget_ms, probed, 0) }
            },
        }
    }

    /// Whether the session still runs.
    pub open spec fn running(&self) -> bool {
        self.state is Playing
    }

    /// Handles one wake-up of a running worker, `elapsed_ms` after the audio
    /// was enqueued.
    pub fn step(&mut self, event: WorkerEvent, elapsed_ms: u64) -> (action: WorkerAction)
        requires
            old(self).running(),
            event matches WorkerEvent::SettingsChanged(s) ==> s.wf(),
        ensures
            (*final(self), action) == next(*old(self), event, elapsed_ms),
    {
        let timeout_ms = next_wait(self.budget_ms, self.probed, elapsed_ms);
        match event {
            WorkerEvent::Stop | WorkerEvent::ControlClosed => {
                self.state = PlayState::Stopped;
                WorkerAction::Finish { report: PlayState::Stopped }
            },
            WorkerEvent::SettingsChanged(s) => {
                let gains = s.gains();
                self.gains = gains;
                WorkerAction::Retune { gains, timeout_ms }
            },
            WorkerEvent::TimedOut { sinks_empty } => {
                if sinks_empty {
                    self.state = PlayState::Stopped;
                    WorkerAction::Finish { report: PlayState::Stopped }
                } else {
                    WorkerAction::Wait { timeout_ms }
                }
            },
        }
    }
}

} // verus!
