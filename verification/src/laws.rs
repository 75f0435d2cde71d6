//! What holds of the interface whatever happens to it.

use vstd::prelude::*;
use crate::app::{
    AppView, TAB_COUNT, after_connect, after_intent, after_poll, after_spawn, app_wf, screen_at,
    tab_of,
};
use crate::effect::EffectView;
use crate::keys::{Intent, KeyPress, intent_of};
use crate::list::{VideoListView, cursor_at_start};
use crate::protocol::player_args_text;
use crate::search::{SearchPoll, accepts, poll_failure};
use crate::session::{
    CONNECT_ATTEMPTS, SessionState, has_control, has_process, start_steps, state_after_connect,
    state_after_stop, teardown_steps,
};
use crate::video::{Video, views_of};

verus! {

/// One thing that happens to the interface.
pub enum Event {
    /// A key was pressed.
    Pressed(KeyPress),
    /// An intent was carried out.
    Asked(Intent),
    /// The receiving end under a ticket was polled.
    Polled(u64, SearchPoll),
    /// The caller reported how a spawn went.
    SpawnReported(bool),
    /// The caller reported how a connection attempt went.
    ConnectReported(bool),
}

/// The state after an event.
pub open spec fn after_event(a: AppView, event: Event) -> AppView {
    match event {
        Event::Pressed(press) => after_intent(a, intent_of(a.mode, a.screen, press)),
        Event::Asked(intent) => after_intent(a, intent),
        Event::Polled(ticket, polled) => after_poll(a, ticket, polled),
        Event::SpawnReported(spawned) => after_spawn(a, spawned),
        Event::ConnectReported(connected) => after_connect(a, connected),
    }
}

/// The state after a sequence of events, the first one first.
pub open spec fn after_events(a: AppView, events: Seq<Event>) -> AppView
    decreases events.len(),
{
    if events.len() == 0 {
        a
    } else {
        after_event(after_events(a, events.drop_last()), events.last())
    }
}

/// A valid state stays valid through any event.
pub proof fn lemma_event_keeps_valid(a: AppView, event: Event)
    requires
        app_wf(a),
    ensures
        app_wf(after_event(a, event)),
{
}

/// A valid state stays valid through any sequence of events.
pub proof fn lemma_events_keep_valid(a: AppView, events: Seq<Event>)
    requires
        app_wf(a),
    ensures
        app_wf(after_events(a, events)),
    decreases events.len(),
{
    if events.len() > 0 {
        lemma_events_keep_valid(a, events.drop_last());
        lemma_event_keeps_valid(after_events(a, events.drop_last()), events.last());
    }
}

/// Whatever happens, an empty list has no selection, and a list with records
/// has its cursor on one of them.
pub proof fn lemma_cursor_obeys_list(a: AppView, events: Seq<Event>)
    requires
        app_wf(a),
    ensures
        ({
            let b = after_events(a, events);
            &&& b.results.items.len() == 0 <==> b.results.cursor is None
            &&& b.queue.items.len() == 0 <==> b.queue.cursor is None
            &&& b.results.cursor matches Some(i) ==> i < b.results.items.len()
            &&& b.queue.cursor matches Some(i) ==> i < b.queue.items.len()
        }),
{
    lemma_events_keep_valid(a, events);
}

/// Whenever an event gives records to a list that was empty, the cursor of
/// that list stands on the first record afterwards.
pub proof fn lemma_cursor_starts_on_first_record(a: AppView, event: Event)
    requires
        app_wf(a),
    ensures
        ({
            let b = after_event(a, event);
            &&& a.results.items.len() == 0 && b.results.items.len() > 0 ==> b.results.cursor
                == Some(0usize)
            &&& a.queue.items.len() == 0 && b.queue.items.len() > 0 ==> b.queue.cursor == Some(
                0usize,
            )
        }),
{
}

/// Whether an event is a movement of the cursor, or the arrival of awaited
/// records, which puts the cursor on the first of them.
pub open spec fn places_cursor(a: AppView, event: Event) -> bool {
    match event {
        Event::Pressed(press) => {
            let intent = intent_of(a.mode, a.screen, press);
            intent is CursorNext || intent is CursorPrevious
        },
        Event::Asked(intent) => intent is CursorNext || intent is CursorPrevious,
        Event::Polled(ticket, polled) => accepts(a.search, ticket) && polled is Delivered,
        _ => false,
    }
}

/// The cursor of a list is kept through every other event that leaves the
/// records of the list as they are.
pub proof fn lemma_cursor_kept_with_list(a: AppView, event: Event)
    requires
        app_wf(a),
        !places_cursor(a, event),
    ensures
        ({
            let b = after_event(a, event);
            &&& b.results.items == a.results.items ==> b.results.cursor == a.results.cursor
            &&& b.queue.items == a.queue.items ==> b.queue.cursor == a.queue.cursor
        }),
{
    let b = after_event(a, event);
    if b.queue.items == a.queue.items && b.queue.cursor != a.queue.cursor {
        assert(a.queue.items.push(a.pending->0.video).len() == a.queue.items.len() + 1);
    }
}

/// The number of tabs by which a sequence of switches moves forward: one for
/// each forward switch, minus one for each backward switch.
pub open spec fn net_switches(forward: Seq<bool>) -> int
    decreases forward.len(),
{
    if forward.len() == 0 {
        0
    } else {
        net_switches(forward.drop_last()) + if forward.last() { 1int } else { -1int }
    }
}

/// The state after a sequence of tab switches, each forward or backward.
pub open spec fn after_switches(a: AppView, forward: Seq<bool>) -> AppView
    decreases forward.len(),
{
    if forward.len() == 0 {
        a
    } else {
        after_intent(
            after_switches(a, forward.drop_last()),
            if forward.last() { Intent::TabForward } else { Intent::TabBackward },
        )
    }
}

/// Through any sequence of tab switches the tab stays that of the screen
/// (the queue under tab 0, the results under tab 1), the tab moves by the net
/// number of switches and wraps round at both ends, and nothing else changes.
pub proof fn lemma_tabs_cycle(a: AppView, forward: Seq<bool>)
    requires
        app_wf(a),
        a.mode is Normal,
    ensures
        ({
            let b = after_switches(a, forward);
            &&& b.tab == tab_of(b.screen)
            &&& b.screen == screen_at(b.tab)
            &&& b.tab == (a.tab + net_switches(forward)) % (TAB_COUNT as int)
            &&& b == AppView { tab: b.tab, screen: b.screen, ..a }
        }),
    decreases forward.len(),
{
    if forward.len() > 0 {
        lemma_tabs_cycle(a, forward.drop_last());
    }
}

/// One switch forward from the last tab shows the first screen, one switch
/// backward from the first tab shows the last, and a switch is undone by the
/// opposite one.
pub proof fn lemma_tabs_wrap_around(a: AppView)
    requires
        app_wf(a),
        a.mode is Normal,
    ensures
        a.screen is Results ==> after_intent(a, Intent::TabForward).screen is Queue,
        a.screen is Queue ==> after_intent(a, Intent::TabBackward).screen is Results,
        after_intent(after_intent(a, Intent::TabForward), Intent::TabBackward) == a,
        after_intent(after_intent(a, Intent::TabBackward), Intent::TabForward) == a,
{
}

/// A search that is submitted while an earlier one is awaited takes its
/// place: what arrives under the earlier ticket is never looked at, and what
/// arrives under the new one is installed.
pub proof fn lemma_newer_search_supersedes(
    a: AppView,
    results: VideoListView,
    late: SearchPoll,
    videos: Vec<Video>,
)
    requires
        a.mode is SearchEntry,
    ensures
        ({
            let earlier = a.search.ticket;
            let b = after_intent(a, Intent::Commit);
            let newer = b.search.ticket;
            let shown = AppView { results, ..b };
            let c = after_poll(shown, newer, SearchPoll::Delivered(videos));
            &&& newer != earlier
            &&& b.search.loading
            &&& b.results.items.len() == 0
            &&& after_poll(shown, earlier, late) == shown
            &&& poll_failure(shown.search, earlier, late) is None
            &&& c.results.items == views_of(videos@)
            &&& c.results.cursor == cursor_at_start(videos@.len())
            &&& !c.search.loading
        }),
{
}

/// What is polled under any ticket but the awaited one changes nothing.
pub proof fn lemma_stale_poll_is_ignored(a: AppView, ticket: u64, polled: SearchPoll)
    requires
        !accepts(a.search, ticket),
    ensures
        after_poll(a, ticket, polled) == a,
        poll_failure(a.search, ticket, polled) is None,
{
}

/// Each awaited lookup has one outcome: once it has arrived, a further poll
/// under the same ticket changes nothing.
pub proof fn lemma_one_outcome_per_search(
    a: AppView,
    ticket: u64,
    first: SearchPoll,
    second: SearchPoll,
)
    requires
        !(first is Empty),
    ensures
        after_poll(after_poll(a, ticket, first), ticket, second) == after_poll(a, ticket, first),
{
}

/// A control connection exists only beside a process.
pub proof fn lemma_control_needs_process(state: SessionState)
    ensures
        has_control(state) ==> has_process(state),
{
}

/// Stopping leaves neither a process nor a control connection, and ends with
/// the removal of the socket's path. Stopping again changes nothing and asks
/// for that removal alone.
pub proof fn lemma_stop_is_idempotent(state: SessionState)
    ensures
        ({
            let stopped = state_after_stop(state);
            &&& !has_process(stopped)
            &&& !has_control(stopped)
            &&& teardown_steps(state).last() == EffectView::RemoveSocketFile
            &&& state_after_stop(stopped) == stopped
            &&& teardown_steps(stopped) == seq![EffectView::RemoveSocketFile]
        }),
{
}

/// The teardown of a connected session drops the control socket, signals the
/// process, reaps it and removes the socket's path, in this order.
pub proof fn lemma_teardown_order()
    ensures
        teardown_steps(SessionState::Connected) == seq![
            EffectView::CloseControl,
            EffectView::Kill,
            EffectView::Reap,
            EffectView::RemoveSocketFile,
        ],
{
}

/// Starting while a session exists tears that session down in full before
/// the one spawn, which is the last step; the state that the spawn meets has
/// neither a process nor a control connection.
pub proof fn lemma_start_tears_down_first(state: SessionState, id: Seq<char>)
    requires
        has_process(state),
    ensures
        ({
            let steps = start_steps(state, id);
            let spawn = EffectView::Spawn { args: player_args_text(id) };
            &&& steps == teardown_steps(state).push(spawn)
            &&& steps.last() == spawn
            &&& forall|i: int| 0 <= i < steps.len() - 1 ==> !(#[trigger] steps[i] is Spawn)
            &&& exists|i: int, j: int, k: int|
                0 <= i < j < k < steps.len() - 1 && steps[i] is Kill && steps[j] is Reap
                    && steps[k] is RemoveSocketFile
            &&& has_control(state) ==> steps[0] is CloseControl
            &&& !has_process(state_after_stop(state))
            &&& !has_control(state_after_stop(state))
        }),
{
    let steps = start_steps(state, id);
    if has_control(state) {
        assert(steps[1] is Kill && steps[2] is Reap && steps[3] is RemoveSocketFile);
    } else {
        assert(steps[0] is Kill && steps[1] is Reap && steps[2] is RemoveSocketFile);
    }
}

/// The state after a number of failed connection attempts in a row.
pub open spec fn after_failures(state: SessionState, count: nat) -> SessionState
    decreases count,
{
    if count == 0 {
        state
    } else {
        state_after_connect(after_failures(state, (count - 1) as nat), false)
    }
}

/// The connection is attempted as often as attempts are left and no more:
/// after that many failures the process is left without a control
/// connection, and until then every attempt is still due.
pub proof fn lemma_attempts_run_out(attempts: u8, failures: nat)
    requires
        1 <= attempts <= CONNECT_ATTEMPTS,
        failures <= attempts,
    ensures
        ({
            let state = SessionState::ConnectingControl { attempts_remaining: attempts };
            after_failures(state, failures) == if failures < attempts {
                SessionState::ConnectingControl {
                    attempts_remaining: (attempts - failures) as u8,
                }
            } else {
                SessionState::Starting
            }
        }),
    decreases failures,
{
    if failures > 0 {
        lemma_attempts_run_out(attempts, (failures - 1) as nat);
    }
}

} // verus!
