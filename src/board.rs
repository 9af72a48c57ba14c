//! The board of sound buttons: what a press of a button means for its sound
//! and its playback session.
//!
//! A sound shows as playing from the press that starts its session until a
//! report of the session's end is observed. While it shows as playing, a
//! press stops the session instead of starting a second one.

use vstd::prelude::*;
use crate::player::{next, PlayState, PlaybackWorker, WorkerAction, WorkerEvent};

verus! {

/// A sound file bound to a button, and whether it shows as playing.
#[derive(Debug, Clone)]
pub struct Sound {
    pub file_path: String,
    pub state: PlayState,
}

/// What a press of a button asks of its session.
#[derive(Debug, Clone, Copy, PartialEq, Eq, Structural)]
pub enum Trigger {
    /// Launch a new session for the sound.
    Start,
    /// Send `Stop` to the sound's session.
    Stop,
}

/// The state a sound shows after a report from its session: playing only on
/// `Playing`; a session that stopped or failed leaves the sound stopped.
pub open spec fn observed(report: PlayState) -> PlayState {
    match report {
        PlayState::Playing => PlayState::Playing,
        _ => PlayState::Stopped,
    }
}

/// A press: a playing sound is stopped and keeps showing as playing until its
/// session reports; any other sound is started and shows as playing at once.
pub open spec fn triggered(state: PlayState) -> (PlayState, Trigger) {
    match state {
        PlayState::Playing => (PlayState::Playing, Trigger::Stop),
        _ => (PlayState::Playing, Trigger::Start),
    }
}

/// A press of a stopped sound starts a session and shows the sound as
/// playing; the session reports `Stopped` right after a `Stop` command or at
/// the first timeout that finds its sinks empty, and that report shows the
/// sound as stopped again.
pub proof fn lemma_press_plays_until_stopped(state: PlayState, w: PlaybackWorker, elapsed_ms: u64)
    requires
        state is Stopped,
        w.running(),
    ensures
        triggered(state) == (PlayState::Playing, Trigger::Start),
        next(w, WorkerEvent::Stop, elapsed_ms).1 == (WorkerAction::Finish {
            report: PlayState::Stopped,
        }),
        next(w, WorkerEvent::TimedOut { sinks_empty: true }, elapsed_ms).1 == (WorkerAction::Finish {
            report: PlayState::Stopped,
        }),
        observed(PlayState::Stopped) == PlayState::Stopped,
{
}

/// Two presses of one button with no `Stopped` observed between them start
/// at most one session: the second press sends `Stop` and changes nothing
/// else, also when a `Playing` report was observed between them.
pub proof fn lemma_second_press_stops(b: Seq<PlayButton>, index: usize)
    requires
        index < b.len(),
    ensures
        pressed(pressed(b, index).0, index).1 == ButtonEffect::SendStop(index),
        pressed(pressed(b, index).0, index).0 == pressed(b, index).0,
        triggered(observed(triggered(b[index as int].sound.state).0)).1 == Trigger::Stop,
{
    let b1 = pressed(b, index).0;
    assert(b1[index as int].sound.state is Playing);
    assert(b1.update(index as int, b1[index as int]) =~= b1);
}

impl Sound {
    /// A stopped sound for the given file.
    pub fn new(p: String) -> (r: Sound)
        ensures
            r.file_path == p,
            r.state == PlayState::Stopped,
    {
        Sound { file_path: p, state: PlayState::Stopped }
    }

    /// Takes in a report from the sound's session.
    pub fn observe(&mut self, report: PlayState)
        ensures
            final(self).state == observed(report),
            final(self).file_path == old(self).file_path,
    {
        self.state = match report {
            PlayState::Playing => PlayState::Playing,
            _ => PlayState::Stopped,
        };
    }

    /// Handles a press of the sound's button.
    pub fn trigger(&mut self) -> (t: Trigger)
        ensures
            (final(self).state, t) == triggered(old(self).state),
            final(self).file_path == old(self).file_path,
    {
        match self.state {
            PlayState::Playing => Trigger::Stop,
            _ => {
                self.state = PlayState::Playing;
                Trigger::Start
            },
        }
    }
}

/// A button of the board: its sound and its label.
#[derive(Debug, Clone)]
pub struct PlayButton {
    pub sound: Sound,
    pub name: String,
}

impl PlayButton {
    /// A button for a sound, with a label.
    pub fn new(sound: Sound, name: String) -> (r: PlayButton)
        ensures
            r.sound == sound,
            r.name == name,
    {
        PlayButton { sound, name }
    }
}

/// A request to the board.
#[derive(Debug, Clone)]
pub enum ButtonMessage {
    PlayButtonPressed(usize),
    AddButtonPressed,
    DeleteButtonPressed(usize),
    /// Adds a button for a sound, with a label.
    ButtonAdded(Sound, String),
}

/// What the owner of the sessions must do after a request to the board.
#[derive(Debug, Clone, Copy, PartialEq, Eq, Structural)]
pub enum ButtonEffect {
    Nothing,
    /// Launch a session for the button at this index.
    StartSession(usize),
    /// Send `Stop` to the session of the button at this index.
    SendStop(usize),
    /// The button at `index` is gone; its session, if `stop_session`, must
    /// be sent `Stop` before it is dropped.
    Removed { index: usize, stop_session: bool },
}

/// The buttons, in the order they were added.
#[derive(Debug, Clone)]
pub struct PlayButtons {
    pub buttons: Vec<PlayButton>,
    /// How many buttons a row of the board holds.
    pub button_row_len: usize,
    /// Whether the dialog that adds a button is open.
    pub is_being_added: bool,
}

/// The effect of a trigger on the button at `index`.
pub open spec fn trigger_effect(t: Trigger, index: usize) -> ButtonEffect {
    match t {
        Trigger::Start => ButtonEffect::StartSession(index),
        Trigger::Stop => ButtonEffect::SendStop(index),
    }
}

/// The buttons after a press of the one at `index`, and the effect asked for.
/// A press on no button does nothing.
pub open spec fn pressed(b: Seq<PlayButton>, index: usize) -> (Seq<PlayButton>, ButtonEffect) {
    if index < b.len() {
        let (state, t) = triggered(b[index as int].sound.state);
        (
            b.update(
                index as int,
                PlayButton { sound: Sound { state, ..b[index as int].sound }, ..b[index as int] },
            ),
            trigger_effect(t, index),
        )
    } else {
        (b, ButtonEffect::Nothing)
    }
}

/// The indices, in increasing order, of the buttons among the first `n`
/// whose sound shows as playing: those with a live session.
pub open spec fn playing_below(b: Seq<PlayButton>, n: int) -> Seq<usize>
    decreases n,
{
    if n <= 0 {
        Seq::empty()
    } else if b[n - 1].sound.state is Playing {
        playing_below(b, n - 1).push((n - 1) as usize)
    } else {
        playing_below(b, n - 1)
    }
}

/// Room left around each button for spacing and padding.
pub const BUTTON_MARGIN: usize = 15;

/// Width of a button on a board `width` wide with `row_len` buttons a row:
/// an equal share of the row less an eighth of it, less the margin when the
/// share is wider than the margin.
pub open spec fn button_width_of(width: int, row_len: int) -> int {
    let share = width / row_len - width / row_len / 8;
    if share > BUTTON_MARGIN {
        share - BUTTON_MARGIN
    } else {
        share
    }
}

/// Size of each button, width then height (half the width), or `None` when
/// the window is too small to lay out a row.
pub fn button_size(width: usize, height: usize, row_len: usize) -> (r: Option<(usize, usize)>)
    ensures
        match r {
            None => row_len == 0 || width < row_len || height == 0,
            Some((w, h)) => {
                &&& 0 < row_len <= width
                &&& height != 0
                &&& w == button_width_of(width as int, row_len as int)
                &&& h == w / 2
            },
        },
{
    if row_len == 0 || width < row_len || height == 0 {
        return None;
    }
    let share = width / row_len - width / row_len / 8;
    let w = if share > BUTTON_MARGIN {
        share - BUTTON_MARGIN
    } else {
        share
    };
    Some((w, w / 2))
}

impl Default for PlayButtons {
    /// An empty board of rows of five, with the add dialog closed.
    fn default() -> (r: PlayButtons)
        ensures
            r.buttons@.len() == 0,
            r.button_row_len == 5,
            !r.is_being_added,
    {
        PlayButtons { buttons: Vec::new(), button_row_len: 5, is_being_added: false }
    }
}

impl PlayButtons {
    /// Takes in a report from the session of the button at `index`; a report
    /// for no button is ignored.
    pub fn observe(&mut self, index: usize, report: PlayState)
        ensures
            index < old(self).buttons@.len() ==> final(self).buttons@ == old(self).buttons@.update(
                index as int,
                PlayButton {
                    sound: Sound { state: observed(report), ..old(self).buttons@[index as int].sound },
                    ..old(self).buttons@[index as int]
                },
            ),
            index >= old(self).buttons@.len() ==> final(self).buttons@ == old(self).buttons@,
            final(self).button_row_len == old(self).button_row_len,
            final(self).is_being_added == old(self).is_being_added,
    {
        if index < self.buttons.len() {
            self.buttons[index].sound.observe(report);
        }
    }

    /// The session of the button at `index` can no longer be reached: it is
    /// taken as ended, and its sound shows as stopped.
    pub fn session_lost(&mut self, index: usize)
        ensures
            index < old(self).buttons@.len() ==> final(self).buttons@ == old(self).buttons@.update(
                index as int,
                PlayButton {
                    sound: Sound { state: PlayState::Stopped, ..old(self).buttons@[index as int].sound },
                    ..old(self).buttons@[index as int]
                },
            ),
            index >= old(self).buttons@.len() ==> final(self).buttons@ == old(self).buttons@,
            final(self).button_row_len == old(self).button_row_len,
            final(self).is_being_added == old(self).is_being_added,
    {
        self.observe(index, PlayState::Stopped);
    }

    /// Handles a request to the board, and says what must happen to the
    /// sessions.
    pub fn update(&mut self, msg: ButtonMessage) -> (e: ButtonEffect)
        ensures
            final(self).button_row_len == old(self).button_row_len,
            match msg {
                ButtonMessage::PlayButtonPressed(index) => {
                    &&& (final(self).buttons@, e) == pressed(old(self).buttons@, index)
                    &&& final(self).is_being_added == old(self).is_being_added
                },
                ButtonMessage::AddButtonPressed => {
                    &&& final(self).buttons@ == old(self).buttons@
                    &&& final(self).is_being_added
                    &&& e == ButtonEffect::Nothing
                },
                ButtonMessage::DeleteButtonPressed(index) => {
                    &&& final(self).is_being_added == old(self).is_being_added
                    &&& if index < old(self).buttons@.len() {
                        &&& final(self).buttons@ == old(self).buttons@.remove(index as int)
                        &&& e == (ButtonEffect::Removed {
                            index,
                            stop_session: old(self).buttons@[index as int].sound.state is Playing,
                        })
                    } else {
                        &&& final(self).buttons@ == old(self).buttons@
                        &&& e == ButtonEffect::Nothing
                    }
                },
                ButtonMessage::ButtonAdded(sound, name) => {
                    &&& final(self).buttons@ == old(self).buttons@.push(
                        PlayButton { sound, name },
                    )
                    &&& final(self).is_being_added == old(self).is_being_added
                    &&& e == ButtonEffect::Nothing
                },
            },
    {
        match msg {
            ButtonMessage::PlayButtonPressed(index) => {
                if index < self.buttons.len() {
                    match self.buttons[index].sound.trigger() {
                        Trigger::Start => ButtonEffect::StartSession(index),
                        Trigger::Stop => ButtonEffect::SendStop(index),
                    }
                } else {
                    ButtonEffect::Nothing
                }
            },
            ButtonMessage::AddButtonPressed => {
                self.is_being_added = true;
                ButtonEffect::Nothing
            },
            ButtonMessage::DeleteButtonPressed(index) => {
                if index < self.buttons.len() {
                    let stop_session = match self.buttons[index].sound.state {
                        PlayState::Playing => true,
                        _ => false,
                    };
                    self.buttons.remove(index);
                    ButtonEffect::Removed { index, stop_session }
                } else {
                    ButtonEffect::Nothing
                }
            },
            ButtonMessage::ButtonAdded(sound, name) => {
                self.buttons.push(PlayButton::new(sound, name));
                ButtonEffect::Nothing
            },
        }
    }

    /// The indices of the buttons with a live session, in increasing order:
    /// those a settings change must be sent to.
    pub fn live_sessions(&self) -> (r: Vec<usize>)
        ensures
            r@ == playing_below(self.buttons@, self.buttons@.len() as int),
    {
        let mut r: Vec<usize> = Vec::new();
        let mut i: usize = 0;
        while i < self.buttons.len()
            invariant
                i <= self.buttons@.len(),
                r@ == playing_below(self.buttons@, i as int),
            decreases self.buttons@.len() - i,
        {
            if let PlayState::Playing = self.buttons[i].sound.state {
                r.push(i);
            }
            i = i + 1;
        }
        r
    }
}

} // verus!
