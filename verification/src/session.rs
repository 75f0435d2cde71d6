//! The playback session: one player process and, at most, one connection to
//! its control socket.
//!
//! The session holds no handle. It records in which state the caller's
//! handles are, and tells the caller what to do with them.

use vstd::prelude::*;
use crate::effect::{Effect, EffectView, effects_of};
use crate::protocol::{command_line, command_line_text, player_args, player_args_text, texts_of};

verus! {

/// The number of connection attempts that a new player process is given.
pub const CONNECT_ATTEMPTS: u8 = 10;

/// The state of the playback session.
#[derive(Debug, Clone, Copy, PartialEq, Eq)]
pub enum SessionState {
    /// Nothing was ever played.
    Idle,
    /// A player process runs without a control connection, and no further
    /// connection attempt will be made: commands are dropped.
    Starting,
    /// A player process runs, and this many connection attempts are left.
    ConnectingControl { attempts_remaining: u8 },
    /// A player process runs and its control socket is connected.
    Connected,
    /// The last session was torn down.
    Stopped,
}

/// Whether the caller holds a process handle in this state.
pub open spec fn has_process(state: SessionState) -> bool {
    state is Starting || state is ConnectingControl || state is Connected
}

/// Whether the caller holds a control-socket handle in this state.
pub open spec fn has_control(state: SessionState) -> bool {
    state is Connected
}

/// A state is valid when its count of attempts is between 1 and
/// [`CONNECT_ATTEMPTS`].
pub open spec fn state_wf(state: SessionState) -> bool {
    state matches SessionState::ConnectingControl { attempts_remaining } ==> 1
        <= attempts_remaining <= CONNECT_ATTEMPTS
}

/// The steps that tear a session down: the control socket is dropped first,
/// then the process is signalled and reaped, then the socket's path is
/// removed. Only the last step is left where no session exists.
pub open spec fn teardown_steps(state: SessionState) -> Seq<EffectView> {
    let close = if has_control(state) {
        seq![EffectView::CloseControl]
    } else {
        Seq::empty()
    };
    let end = if has_process(state) {
        seq![EffectView::Kill, EffectView::Reap]
    } else {
        Seq::empty()
    };
    close + end + seq![EffectView::RemoveSocketFile]
}

/// The state after a teardown.
pub open spec fn state_after_stop(state: SessionState) -> SessionState {
    if has_process(state) { SessionState::Stopped } else { state }
}

/// The steps that start the player for an item: the teardown of the session
/// that exists, if one does, and then the spawn.
pub open spec fn start_steps(state: SessionState, id: Seq<char>) -> Seq<EffectView> {
    let teardown = if has_process(state) { teardown_steps(state) } else { Seq::empty() };
    teardown + seq![EffectView::Spawn { args: player_args_text(id) }]
}

/// The state after the caller reported that the player was spawned.
pub open spec fn state_after_spawn(state: SessionState) -> SessionState {
    if has_process(state) {
        state
    } else {
        SessionState::ConnectingControl { attempts_remaining: CONNECT_ATTEMPTS }
    }
}

/// The state after one connection attempt that ended as `connected` says.
pub open spec fn state_after_connect(state: SessionState, connected: bool) -> SessionState {
    match state {
        SessionState::ConnectingControl { attempts_remaining } => if connected {
            SessionState::Connected
        } else if attempts_remaining > 1 {
            SessionState::ConnectingControl {
                attempts_remaining: (attempts_remaining - 1) as u8,
            }
        } else {
            SessionState::Starting
        },
        _ => state,
    }
}

/// What sending a command asks of the caller: one write where the control
/// socket is connected, nothing otherwise.
pub open spec fn send_step(state: SessionState, words: Seq<Seq<char>>) -> Option<EffectView> {
    if has_control(state) {
        Some(EffectView::Send { line: command_line_text(words) })
    } else {
        None
    }
}

/// The view of a step that may be absent.
pub open spec fn effect_of(step: Option<Effect>) -> Option<EffectView> {
    match step {
        Some(effect) => Some(effect@),
        None => None,
    }
}

/// The words that toggle between playing and pausing.
pub open spec fn play_pause_words() -> Seq<Seq<char>> {
    seq!["cycle"@, "pause"@]
}

/// The words that raise the volume by one step.
pub open spec fn increase_volume_words() -> Seq<Seq<char>> {
    seq!["add"@, "volume"@, "5"@]
}

/// The words that lower the volume by one step.
pub open spec fn decrease_volume_words() -> Seq<Seq<char>> {
    seq!["add"@, "volume"@, "-5"@]
}

/// The words that ask for the current volume.
pub open spec fn get_volume_words() -> Seq<Seq<char>> {
    seq!["get_property"@, "volume"@]
}

/// The record of the session's state.
#[derive(Debug)]
pub struct PlaybackSession {
    state: SessionState,
}

impl View for PlaybackSession {
    type V = SessionState;

    closed spec fn view(&self) -> SessionState {
        self.state
    }
}

impl PlaybackSession {
    /// The session is valid when its state is.
    pub open spec fn wf(&self) -> bool {
        state_wf(self@)
    }

    /// A session in which nothing was ever played.
    pub fn new() -> (session: PlaybackSession)
        ensures
            session@ == SessionState::Idle,
            session.wf(),
    {
        PlaybackSession { state: SessionState::Idle }
    }

    /// The state.
    pub fn state(&self) -> (state: SessionState)
        ensures
            state == self@,
    {
        self.state
    }

    /// Whether a player process exists.
    pub fn is_active(&self) -> (active: bool)
        ensures
            active == has_process(self@),
    {
        match self.state {
            SessionState::Starting => true,
            SessionState::ConnectingControl { .. } => true,
            SessionState::Connected => true,
            _ => false,
        }
    }

    /// Whether the control socket is connected.
    pub fn is_connected(&self) -> (connected: bool)
        ensures
            connected == has_control(self@),
    {
        match self.state {
            SessionState::Connected => true,
            _ => false,
        }
    }

    /// Whether the caller is to attempt a connection in this tick.
    pub fn needs_connect(&self) -> (needed: bool)
        ensures
            needed == (self@ is ConnectingControl),
    {
        match self.state {
            SessionState::ConnectingControl { .. } => true,
            _ => false,
        }
    }

    /// Tears the session down. Without a session only the socket's path is
    /// removed, and the state stays as it is.
    pub fn stop(&mut self) -> (steps: Vec<Effect>)
        ensures
            effects_of(steps@) == teardown_steps(old(self)@),
            final(self)@ == state_after_stop(old(self)@),
            final(self).wf(),
    {
        let mut steps: Vec<Effect> = Vec::new();
        if self.is_connected() {
            steps.push(Effect::CloseControl);
        }
        if self.is_active() {
            steps.push(Effect::Kill);
            steps.push(Effect::Reap);
            self.state = SessionState::Stopped;
        }
        steps.push(Effect::RemoveSocketFile);
        assert(effects_of(steps@) =~= teardown_steps(old(self)@));
        steps
    }

    /// Asks for the player to be started for the item with this identifier. A
    /// session that exists is torn down first. The new process is not counted
    /// until [`PlaybackSession::spawned`] reports it.
    pub fn start(&mut self, id: &str) -> (steps: Vec<Effect>)
        ensures
            effects_of(steps@) == start_steps(old(self)@, id@),
            final(self)@ == state_after_stop(old(self)@),
            final(self).wf(),
    {
        let ghost before = self@;
        let mut steps: Vec<Effect> = if self.is_active() {
            self.stop()
        } else {
            Vec::new()
        };
        assert(effects_of(steps@) =~= if has_process(before) {
            teardown_steps(before)
        } else {
            Seq::empty()
        });
        let ghost torn = effects_of(steps@);
        let spawn = Effect::Spawn { args: player_args(id) };
        assert(spawn@ == EffectView::Spawn { args: player_args_text(id@) });
        steps.push(spawn);
        assert(effects_of(steps@) =~= torn + seq![spawn@]);
        steps
    }

    /// Records that the player process was spawned: it is given
    /// [`CONNECT_ATTEMPTS`] connection attempts. Where a process is already
    /// counted, nothing changes.
    pub fn spawned(&mut self)
        requires
            old(self).wf(),
        ensures
            final(self)@ == state_after_spawn(old(self)@),
            final(self).wf(),
    {
        if !self.is_active() {
            self.state = SessionState::ConnectingControl { attempts_remaining: CONNECT_ATTEMPTS };
        }
    }

    /// Records the outcome of one connection attempt. A success connects the
    /// session; a failure uses one attempt up, and the last one leaves the
    /// process without a control connection. Where no attempt was due,
    /// nothing changes.
    pub fn poll_connect(&mut self, connected: bool)
        requires
            old(self).wf(),
        ensures
            final(self)@ == state_after_connect(old(self)@, connected),
            final(self).wf(),
    {
        match self.state {
            SessionState::ConnectingControl { attempts_remaining } => {
                if connected {
                    self.state = SessionState::Connected;
                } else if attempts_remaining > 1 {
                    self.state = SessionState::ConnectingControl {
                        attempts_remaining: attempts_remaining - 1,
                    };
                } else {
                    self.state = SessionState::Starting;
                }
            },
            _ => {},
        }
    }

    /// The write that sends a command, or nothing where the control socket is
    /// not connected.
    pub fn send_command(&self, words: &Vec<&str>) -> (step: Option<Effect>)
        ensures
            effect_of(step) == send_step(self@, texts_of(words@)),
    {
        if self.is_connected() {
            Some(Effect::Send { line: command_line(words) })
        } else {
            None
        }
    }

    /// Toggles between playing and pausing.
    pub fn play_pause(&self) -> (step: Option<Effect>)
        ensures
            effect_of(step) == send_step(self@, play_pause_words()),
    {
        let words: Vec<&str> = vec!["cycle", "pause"];
        assert(texts_of(words@) =~= play_pause_words());
        self.send_command(&words)
    }

    /// Raises the volume by one step.
    pub fn increase_volume(&self) -> (step: Option<Effect>)
        ensures
            effect_of(step) == send_step(self@, increase_volume_words()),
    {
        let words: Vec<&str> = vec!["add", "volume", "5"];
        assert(texts_of(words@) =~= increase_volume_words());
        self.send_command(&words)
    }

    /// Lowers the volume by one step.
    pub fn decrease_volume(&self) -> (step: Option<Effect>)
        ensures
            effect_of(step) == send_step(self@, decrease_volume_words()),
    {
        let words: Vec<&str> = vec!["add", "volume", "-5"];
        assert(texts_of(words@) =~= decrease_volume_words());
        self.send_command(&words)
    }

    /// Asks the player for the current volume.
    pub fn get_current_volume(&self) -> (step: Option<Effect>)
        ensures
            effect_of(step) == send_step(self@, get_volume_words()),
    {
        let words: Vec<&str> = vec!["get_property", "volume"];
        assert(texts_of(words@) =~= get_volume_words());
        self.send_command(&words)
    }
}

} // verus!
