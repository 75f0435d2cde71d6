//! The state of the interface, and its transitions.
//!
//! Every transition is a function of the state and of what happened: a key
//! press, the outcome of a poll, the report of a spawn or of a connection
//! attempt. Where the outside world has to act, the transition returns the
//! steps for the caller.

use vstd::prelude::*;
use crate::effect::{Effect, EffectView, effects_of};
use crate::keys::{Intent, KeyPress, Mode, Screen, intent_of, interpret};
use crate::list::{VideoList, VideoListView, cursor_after_next, cursor_after_previous, cursor_fits};
use crate::protocol::search_args_text;
use crate::search::{
    SearchPipeline, SearchPoll, SearchView, next_ticket, poll_failure, results_after_poll,
    search_after_poll, search_after_submit,
};
use crate::session::{
    PlaybackSession, SessionState, decrease_volume_words, get_volume_words, has_process,
    increase_volume_words, play_pause_words, send_step, start_steps, state_after_connect,
    state_after_spawn, state_after_stop, state_wf, teardown_steps,
};
use crate::video::{Video, VideoView};

verus! {

/// `String::push` of std appends the character to the end of the string.
pub assume_specification[ String::push ](text: &mut String, ch: char)
    ensures
        final(text)@ == old(text)@.push(ch),
;

/// `String::pop` of std removes the last character and returns it, and
/// returns `None` for an empty string, which it leaves empty.
pub assume_specification[ String::pop ](text: &mut String) -> (last: Option<char>)
    ensures
        old(text)@.len() > 0 ==> last == Some(old(text)@.last()) && final(text)@ == old(
            text,
        )@.drop_last(),
        old(text)@.len() == 0 ==> last is None && final(text)@ == old(text)@,
;

/// The number of screens.
pub const TAB_COUNT: usize = 2;

/// The tab under which a screen is shown.
pub open spec fn tab_of(screen: Screen) -> usize {
    match screen {
        Screen::Queue => 0,
        Screen::Results => 1,
    }
}

/// The screen that a tab shows.
pub open spec fn screen_at(tab: usize) -> Screen {
    if tab == 0 { Screen::Queue } else { Screen::Results }
}

/// The tab after `tab`; the first one follows the last.
pub open spec fn next_tab(tab: usize) -> usize {
    ((tab + 1) % (TAB_COUNT as int)) as usize
}

/// The tab before `tab`; the last one precedes the first.
pub open spec fn previous_tab(tab: usize) -> usize {
    if tab > 0 { (tab - 1) as usize } else { (TAB_COUNT - 1) as usize }
}

/// A record whose player the caller was asked to spawn.
#[verifier::ext_equal]
pub struct PendingView {
    /// The record.
    pub video: VideoView,
    /// Whether it joins the queue once it plays.
    pub enqueue: bool,
}

/// What an [`App`] is.
#[verifier::ext_equal]
pub struct AppView {
    pub running: bool,
    pub mode: Mode,
    pub screen: Screen,
    pub tab: usize,
    pub query: Seq<char>,
    pub results: VideoListView,
    pub queue: VideoListView,
    pub session: SessionState,
    pub search: SearchView,
    pub now_playing: VideoView,
    pub pending: Option<PendingView>,
}

/// The state is valid when each list obeys the cursor rule, the tab is that of
/// the screen, the session's state is valid, and the search text is empty
/// while commands are taken.
pub open spec fn app_wf(a: AppView) -> bool {
    &&& cursor_fits(a.results.cursor, a.results.items.len())
    &&& cursor_fits(a.queue.cursor, a.queue.items.len())
    &&& a.tab == tab_of(a.screen)
    &&& state_wf(a.session)
    &&& (a.mode is Normal ==> a.query.len() == 0)
}

/// The state in which the interface starts.
pub open spec fn initial_view() -> AppView {
    AppView {
        running: true,
        mode: Mode::Normal,
        screen: Screen::Queue,
        tab: 0,
        query: Seq::empty(),
        results: VideoListView { items: Seq::empty(), cursor: None },
        queue: VideoListView { items: Seq::empty(), cursor: None },
        session: SessionState::Idle,
        search: SearchView { loading: false, ticket: 0 },
        now_playing: VideoView { id: Seq::empty(), title: Seq::empty(), uploader: Seq::empty() },
        pending: None,
    }
}

/// The list of the screen that is shown.
pub open spec fn shown_list(a: AppView) -> VideoListView {
    match a.screen {
        Screen::Queue => a.queue,
        Screen::Results => a.results,
    }
}

/// The state with the cursor of the shown list at `cursor`.
pub open spec fn with_shown_cursor(a: AppView, cursor: Option<usize>) -> AppView {
    match a.screen {
        Screen::Queue => AppView { queue: VideoListView { cursor, ..a.queue }, ..a },
        Screen::Results => AppView { results: VideoListView { cursor, ..a.results }, ..a },
    }
}

/// The state with a tab selected, and with it the screen that it shows.
pub open spec fn with_tab(a: AppView, tab: usize) -> AppView {
    AppView { tab, screen: screen_at(tab), ..a }
}

/// The state after an intent while the search text is edited.
pub open spec fn after_search_intent(a: AppView, intent: Intent) -> AppView {
    match intent {
        Intent::Input(c) => AppView { query: a.query.push(c), ..a },
        Intent::Erase => AppView {
            query: if a.query.len() > 0 { a.query.drop_last() } else { a.query },
            ..a
        },
        Intent::Commit => AppView {
            mode: Mode::Normal,
            query: Seq::empty(),
            screen: Screen::Results,
            tab: tab_of(Screen::Results),
            results: VideoListView { items: Seq::empty(), cursor: None },
            search: search_after_submit(a.search),
            ..a
        },
        Intent::Cancel => AppView { mode: Mode::Normal, query: Seq::empty(), ..a },
        _ => a,
    }
}

/// The state after an intent while commands are taken.
pub open spec fn after_command_intent(a: AppView, intent: Intent) -> AppView {
    let shown = shown_list(a);
    match intent {
        Intent::EnterSearch => AppView { mode: Mode::SearchEntry, query: Seq::empty(), ..a },
        Intent::CursorNext => with_shown_cursor(
            a,
            cursor_after_next(shown.cursor, shown.items.len()),
        ),
        Intent::CursorPrevious => with_shown_cursor(a, cursor_after_previous(shown.cursor)),
        Intent::TabForward => with_tab(a, next_tab(a.tab)),
        Intent::TabBackward => with_tab(a, previous_tab(a.tab)),
        Intent::Activate => match shown.cursor {
            Some(i) if i < shown.items.len() => AppView {
                session: state_after_stop(a.session),
                pending: Some(
                    PendingView { video: shown.items[i as int], enqueue: a.screen is Results },
                ),
                ..a
            },
            _ => a,
        },
        Intent::Stop => AppView { session: state_after_stop(a.session), ..a },
        _ => a,
    }
}

/// The state after an intent. Quitting is possible in either mode; every
/// other intent belongs to one mode and changes nothing in the other.
pub open spec fn after_intent(a: AppView, intent: Intent) -> AppView {
    match intent {
        Intent::Quit => AppView { running: false, session: state_after_stop(a.session), ..a },
        _ => match a.mode {
            Mode::SearchEntry => after_search_intent(a, intent),
            Mode::Normal => after_command_intent(a, intent),
        },
    }
}

/// The writes that send a command: one where the control socket is connected,
/// none otherwise.
pub open spec fn sends(session: SessionState, words: Seq<Seq<char>>) -> Seq<EffectView> {
    match send_step(session, words) {
        Some(step) => seq![step],
        None => Seq::empty(),
    }
}

/// The steps that an intent asks of the caller while commands are taken.
pub open spec fn command_steps(a: AppView, intent: Intent) -> Seq<EffectView> {
    let shown = shown_list(a);
    match intent {
        Intent::Activate => match shown.cursor {
            Some(i) if i < shown.items.len() => start_steps(a.session, shown.items[i as int].id),
            _ => Seq::empty(),
        },
        Intent::Stop => if has_process(a.session) {
            teardown_steps(a.session)
        } else {
            Seq::empty()
        },
        Intent::PauseToggle => sends(a.session, play_pause_words()),
        Intent::VolumeUp => sends(a.session, increase_volume_words()),
        Intent::VolumeDown => sends(a.session, decrease_volume_words()) + sends(
            a.session,
            get_volume_words(),
        ),
        _ => Seq::empty(),
    }
}

/// The steps that an intent asks of the caller.
pub open spec fn intent_steps(a: AppView, intent: Intent) -> Seq<EffectView> {
    match intent {
        Intent::Quit => teardown_steps(a.session),
        _ => match a.mode {
            Mode::SearchEntry => match intent {
                Intent::Commit => seq![
                    EffectView::Lookup {
                        ticket: next_ticket(a.search.ticket),
                        args: search_args_text(a.query),
                    },
                ],
                _ => Seq::empty(),
            },
            Mode::Normal => command_steps(a, intent),
        },
    }
}

/// The state after a poll of the receiving end under `ticket`.
pub open spec fn after_poll(a: AppView, ticket: u64, polled: SearchPoll) -> AppView {
    AppView {
        search: search_after_poll(a.search, ticket, polled),
        results: results_after_poll(a.search, a.results, ticket, polled),
        ..a
    }
}

/// The state after the caller reported how the spawn went that it was asked
/// for. A player that runs is given its connection attempts and becomes what
/// is playing; a record that was activated among the results joins the end of
/// the queue, and the queue is shown. A failed spawn leaves all that as it
/// was. Without a spawn asked for, nothing changes.
pub open spec fn after_spawn(a: AppView, spawned: bool) -> AppView {
    match a.pending {
        None => a,
        Some(pending) => if !spawned {
            AppView { pending: None, ..a }
        } else if pending.enqueue {
            AppView {
                pending: None,
                session: state_after_spawn(a.session),
                now_playing: pending.video,
                queue: VideoListView {
                    items: a.queue.items.push(pending.video),
                    cursor: match a.queue.cursor {
                        None => Some(0usize),
                        Some(i) => Some(i),
                    },
                },
                screen: Screen::Queue,
                tab: tab_of(Screen::Queue),
                ..a
            }
        } else {
            AppView {
                pending: None,
                session: state_after_spawn(a.session),
                now_playing: pending.video,
                ..a
            }
        },
    }
}

/// The state after one connection attempt.
pub open spec fn after_connect(a: AppView, connected: bool) -> AppView {
    AppView { session: state_after_connect(a.session, connected), ..a }
}

#[derive(Debug)]
struct Pending {
    video: Video,
    enqueue: bool,
}

/// The interface: the two lists, what is shown, the search text, the playback
/// session and the search pipeline.
#[derive(Debug)]
pub struct App {
    running: bool,
    mode: Mode,
    screen: Screen,
    tab: usize,
    query: String,
    results: VideoList,
    queue: VideoList,
    session: PlaybackSession,
    search: SearchPipeline,
    now_playing: Video,
    pending: Option<Pending>,
}

impl View for App {
    type V = AppView;

    closed spec fn view(&self) -> AppView {
        AppView {
            running: self.running,
            mode: self.mode,
            screen: self.screen,
            tab: self.tab,
            query: self.query@,
            results: self.results@,
            queue: self.queue@,
            session: self.session@,
            search: self.search@,
            now_playing: self.now_playing@,
            pending: match self.pending {
                Some(pending) => Some(
                    PendingView { video: pending.video@, enqueue: pending.enqueue },
                ),
                None => None,
            },
        }
    }
}

impl App {
    /// The interface is valid when its state is.
    pub open spec fn wf(&self) -> bool {
        app_wf(self@)
    }

    /// The interface as it starts: running, taking commands, showing the
    /// empty queue, with nothing played and nothing searched.
    pub fn new() -> (app: App)
        ensures
            app@ == initial_view(),
            app.wf(),
    {
        App {
            running: true,
            mode: Mode::Normal,
            screen: Screen::Queue,
            tab: 0,
            query: String::new(),
            results: VideoList::new(),
            queue: VideoList::new(),
            session: PlaybackSession::new(),
            search: SearchPipeline::new(),
            now_playing: Video::empty(),
            pending: None,
        }
    }

    /// Whether the interface goes on.
    pub fn is_running(&self) -> (running: bool)
        ensures
            running == self@.running,
    {
        self.running
    }

    /// The mode.
    pub fn mode(&self) -> (mode: Mode)
        ensures
            mode == self@.mode,
    {
        self.mode
    }

    /// The screen that is shown.
    pub fn screen(&self) -> (screen: Screen)
        ensures
            screen == self@.screen,
    {
        self.screen
    }

    /// The tab that is selected.
    pub fn tab(&self) -> (tab: usize)
        ensures
            tab == self@.tab,
    {
        self.tab
    }

    /// The search text.
    pub fn query(&self) -> (query: &str)
        ensures
            query@ == self@.query,
    {
        self.query.as_str()
    }

    /// The search results.
    pub fn results(&self) -> (results: &VideoList)
        ensures
            results@ == self@.results,
    {
        &self.results
    }

    /// The queue.
    pub fn queue(&self) -> (queue: &VideoList)
        ensures
            queue@ == self@.queue,
    {
        &self.queue
    }

    /// The playback session.
    pub fn session(&self) -> (session: &PlaybackSession)
        ensures
            session@ == self@.session,
    {
        &self.session
    }

    /// The record that plays, or played last.
    pub fn now_playing(&self) -> (video: &Video)
        ensures
            video@ == self@.now_playing,
    {
        &self.now_playing
    }

    /// Whether a player process exists.
    pub fn is_nowplaying(&self) -> (playing: bool)
        ensures
            playing == has_process(self@.session),
    {
        self.session.is_active()
    }

    /// Whether the outcome of a lookup is awaited.
    pub fn is_loading(&self) -> (loading: bool)
        ensures
            loading == self@.search.loading,
    {
        self.search.is_loading()
    }

    /// The ticket under which the latest lookup was asked for.
    pub fn ticket(&self) -> (ticket: u64)
        ensures
            ticket == self@.search.ticket,
    {
        self.search.ticket()
    }

    /// Whether the caller is to attempt a connection to the control socket in
    /// this tick.
    pub fn needs_connect(&self) -> (needed: bool)
        ensures
            needed == (self@.session is ConnectingControl),
    {
        self.session.needs_connect()
    }

    /// Shows a screen, and selects its tab with it.
    pub fn tabs_choose(&mut self, screen: Screen)
        ensures
            final(self)@ == (AppView { screen, tab: tab_of(screen), ..old(self)@ }),
            old(self).wf() ==> final(self).wf(),
    {
        self.screen = screen;
        self.tab = match screen {
            Screen::Queue => 0,
            Screen::Results => 1,
        };
    }

    /// Selects the next tab, the first one after the last, and shows its
    /// screen.
    pub fn tabs_next(&mut self)
        requires
            old(self).wf(),
        ensures
            final(self)@ == with_tab(old(self)@, next_tab(old(self)@.tab)),
            final(self).wf(),
    {
        let tab = (self.tab + 1) % TAB_COUNT;
        self.tab = tab;
        self.screen = if tab == 0 { Screen::Queue } else { Screen::Results };
    }

    /// Selects the previous tab, the last one before the first, and shows its
    /// screen.
    pub fn tabs_previous(&mut self)
        requires
            old(self).wf(),
        ensures
            final(self)@ == with_tab(old(self)@, previous_tab(old(self)@.tab)),
            final(self).wf(),
    {
        let tab = if self.tab > 0 { self.tab - 1 } else { TAB_COUNT - 1 };
        self.tab = tab;
        self.screen = if tab == 0 { Screen::Queue } else { Screen::Results };
    }

    /// Tears the session down and ends the interface.
    pub fn quit(&mut self) -> (steps: Vec<Effect>)
        requires
            old(self).wf(),
        ensures
            final(self)@ == after_intent(old(self)@, Intent::Quit),
            effects_of(steps@) == intent_steps(old(self)@, Intent::Quit),
            final(self).wf(),
    {
        let steps = self.session.stop();
        self.running = false;
        steps
    }

    /// Submits the search text: the results are emptied, the lookup is asked
    /// for, the text is cleared, and the results are shown.
    fn search(&mut self) -> (steps: Vec<Effect>)
        requires
            old(self).wf(),
            old(self)@.mode is SearchEntry,
        ensures
            final(self)@ == after_intent(old(self)@, Intent::Commit),
            effects_of(steps@) == intent_steps(old(self)@, Intent::Commit),
            final(self).wf(),
    {
        let step = self.search.submit(&mut self.results, self.query.as_str());
        self.query = String::new();
        self.mode = Mode::Normal;
        self.tabs_choose(Screen::Results);
        let steps = vec![step];
        assert(effects_of(steps@) =~= seq![step@]);
        steps
    }

    /// Asks for the selected record of the shown list to be played. Nothing
    /// is asked for where nothing is selected.
    fn play_video(&mut self) -> (steps: Vec<Effect>)
        requires
            old(self).wf(),
            old(self)@.mode is Normal,
        ensures
            final(self)@ == after_intent(old(self)@, Intent::Activate),
            effects_of(steps@) == intent_steps(old(self)@, Intent::Activate),
            final(self).wf(),
    {
        let selected = match self.screen {
            Screen::Queue => self.queue.selected_item(),
            Screen::Results => self.results.selected_item(),
        };
        match selected {
            None => Vec::new(),
            Some(video) => {
                let video = video.clone();
                let enqueue = match self.screen {
                    Screen::Queue => false,
                    Screen::Results => true,
                };
                let steps = self.session.start(video.id.as_str());
                self.pending = Some(Pending { video, enqueue });
                steps
            },
        }
    }

    /// The steps of the playback intents, which change no state.
    fn control_steps(&self, intent: Intent) -> (steps: Vec<Effect>)
        requires
            self@.mode is Normal,
            intent is PauseToggle || intent is VolumeUp || intent is VolumeDown,
        ensures
            effects_of(steps@) == intent_steps(self@, intent),
    {
        let mut steps: Vec<Effect> = Vec::new();
        let first = match intent {
            Intent::PauseToggle => self.session.play_pause(),
            Intent::VolumeUp => self.session.increase_volume(),
            _ => self.session.decrease_volume(),
        };
        if let Some(step) = first {
            steps.push(step);
        }
        let ghost sent = effects_of(steps@);
        assert(sent =~= match intent {
            Intent::PauseToggle => sends(self@.session, play_pause_words()),
            Intent::VolumeUp => sends(self@.session, increase_volume_words()),
            _ => sends(self@.session, decrease_volume_words()),
        });
        if let Intent::VolumeDown = intent {
            if let Some(step) = self.session.get_current_volume() {
                steps.push(step);
            }
            assert(effects_of(steps@) =~= sent + sends(self@.session, get_volume_words()));
        }
        steps
    }

    /// Carries an intent out and returns the steps that it asks of the
    /// caller, in order.
    pub fn apply(&mut self, intent: Intent) -> (steps: Vec<Effect>)
        requires
            old(self).wf(),
        ensures
            final(self)@ == after_intent(old(self)@, intent),
            effects_of(steps@) == intent_steps(old(self)@, intent),
            final(self).wf(),
    {
        if let Intent::Quit = intent {
            return self.quit();
        }
        match self.mode {
            Mode::SearchEntry => match intent {
                Intent::Input(c) => {
                    self.query.push(c);
                    Vec::new()
                },
                Intent::Erase => {
                    self.query.pop();
                    Vec::new()
                },
                Intent::Commit => self.search(),
                Intent::Cancel => {
                    self.query = String::new();
                    self.mode = Mode::Normal;
                    Vec::new()
                },
                _ => Vec::new(),
            },
            Mode::Normal => match intent {
                Intent::EnterSearch => {
                    self.query = String::new();
                    self.mode = Mode::SearchEntry;
                    Vec::new()
                },
                Intent::CursorNext => {
                    match self.screen {
                        Screen::Queue => self.queue.select_next(),
                        Screen::Results => self.results.select_next(),
                    }
                    Vec::new()
                },
                Intent::CursorPrevious => {
                    match self.screen {
                        Screen::Queue => self.queue.select_previous(),
                        Screen::Results => self.results.select_previous(),
                    }
                    Vec::new()
                },
                Intent::TabForward => {
                    self.tabs_next();
                    Vec::new()
                },
                Intent::TabBackward => {
                    self.tabs_previous();
                    Vec::new()
                },
                Intent::Activate => self.play_video(),
                Intent::Stop => {
                    if self.session.is_active() {
                        self.session.stop()
                    } else {
                        Vec::new()
                    }
                },
                Intent::PauseToggle | Intent::VolumeUp | Intent::VolumeDown => self.control_steps(
                    intent,
                ),
                _ => Vec::new(),
            },
        }
    }

    /// Takes a key press: reads what it means in the mode and on the screen
    /// of the moment, and carries that out.
    pub fn on_key_event(&mut self, press: KeyPress) -> (steps: Vec<Effect>)
        requires
            old(self).wf(),
        ensures
            final(self)@ == after_intent(
                old(self)@,
                intent_of(old(self)@.mode, old(self)@.screen, press),
            ),
            effects_of(steps@) == intent_steps(
                old(self)@,
                intent_of(old(self)@.mode, old(self)@.screen, press),
            ),
            final(self).wf(),
    {
        let intent = interpret(self.mode, self.screen, press);
        self.apply(intent)
    }

    /// Takes what one poll of the receiving end under `ticket` gave; see
    /// [`SearchPipeline::poll`]. A failure of the lookup is returned as the
    /// message to show.
    pub fn check_search_results(&mut self, ticket: u64, polled: SearchPoll) -> (outcome: Result<
        (),
        String,
    >)
        requires
            old(self).wf(),
        ensures
            final(self)@ == after_poll(old(self)@, ticket, polled),
            final(self).wf(),
            match outcome {
                Ok(_) => poll_failure(old(self)@.search, ticket, polled) is None,
                Err(message) => poll_failure(old(self)@.search, ticket, polled) == Some(
                    message@,
                ),
            },
    {
        self.search.poll(&mut self.results, ticket, polled)
    }

    /// Takes the caller's report of the spawn that it was asked for; see
    /// [`after_spawn`].
    pub fn spawn_finished(&mut self, spawned: bool)
        requires
            old(self).wf(),
        ensures
            final(self)@ == after_spawn(old(self)@, spawned),
            final(self).wf(),
    {
        let pending = self.pending.take();
        if let Some(pending) = pending {
            if spawned {
                self.session.spawned();
                self.now_playing = pending.video.clone();
                if pending.enqueue {
                    self.queue.push(pending.video);
                    self.tabs_choose(Screen::Queue);
                }
            }
        }
    }

    /// Takes the outcome of one connection attempt; see
    /// [`PlaybackSession::poll_connect`].
    pub fn try_connect_mpv(&mut self, connected: bool)
        requires
            old(self).wf(),
        ensures
            final(self)@ == after_connect(old(self)@, connected),
            final(self).wf(),
    {
        self.session.poll_connect(connected);
    }
}

} // verus!
