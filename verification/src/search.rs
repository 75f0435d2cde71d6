//! The search pipeline: at most one lookup is awaited at a time, and each
//! delivers one outcome.
//!
//! The lookup runs outside the library. A ticket names the receiving end that
//! the caller keeps for it: a new submission takes the next ticket, and what
//! is polled under any other ticket is ignored.

use vstd::prelude::*;
use crate::effect::{Effect, EffectView};
use crate::list::{VideoList, VideoListView, cursor_at_start};
use crate::protocol::{
    lookup_failure, lookup_failure_text, parse_warning, parse_warning_text, search_args,
    search_args_text, search_failure, search_failure_text,
};
use crate::video::{Video, views_of};

verus! {

/// What one non-blocking poll of the receiving end gave.
#[derive(Debug)]
pub enum SearchPoll {
    /// The lookup delivered these records.
    Delivered(Vec<Video>),
    /// The lookup delivered a failure, with this reason.
    Failed(String),
    /// Nothing has arrived yet.
    Empty,
    /// The sending end was dropped before anything was sent.
    Disconnected,
}

/// What a [`SearchPipeline`] is: whether an outcome is awaited, and the ticket
/// of the latest submission.
pub struct SearchView {
    pub loading: bool,
    pub ticket: u64,
}

/// The ticket after `ticket`. The numbering starts over after the last one.
pub open spec fn next_ticket(ticket: u64) -> u64 {
    if ticket == u64::MAX { 0u64 } else { (ticket + 1) as u64 }
}

/// The pipeline after a submission.
pub open spec fn search_after_submit(search: SearchView) -> SearchView {
    SearchView { loading: true, ticket: next_ticket(search.ticket) }
}

/// Whether the pipeline awaits an outcome under this ticket.
pub open spec fn accepts(search: SearchView, ticket: u64) -> bool {
    search.loading && search.ticket == ticket
}

/// The pipeline after a poll: an awaited outcome that arrived, and a sending
/// end found dropped, end the wait; anything else changes nothing.
pub open spec fn search_after_poll(search: SearchView, ticket: u64, polled: SearchPoll) -> SearchView {
    if accepts(search, ticket) && !(polled is Empty) {
        SearchView { loading: false, ticket: search.ticket }
    } else {
        search
    }
}

/// The result list after a poll: awaited records replace it, with the cursor
/// on the first of them; anything else changes nothing.
pub open spec fn results_after_poll(
    search: SearchView,
    results: VideoListView,
    ticket: u64,
    polled: SearchPoll,
) -> VideoListView {
    match polled {
        SearchPoll::Delivered(videos) if accepts(search, ticket) => VideoListView {
            items: views_of(videos@),
            cursor: cursor_at_start(videos@.len()),
        },
        _ => results,
    }
}

/// The message that a poll surfaces: the awaited failure, if that is what
/// arrived.
pub open spec fn poll_failure(search: SearchView, ticket: u64, polled: SearchPoll) -> Option<
    Seq<char>,
> {
    match polled {
        SearchPoll::Failed(reason) if accepts(search, ticket) => Some(
            search_failure_text(reason@),
        ),
        _ => None,
    }
}

/// The record of the lookup that is awaited.
#[derive(Debug)]
pub struct SearchPipeline {
    loading: bool,
    ticket: u64,
}

impl View for SearchPipeline {
    type V = SearchView;

    closed spec fn view(&self) -> SearchView {
        SearchView { loading: self.loading, ticket: self.ticket }
    }
}

impl SearchPipeline {
    /// A pipeline that awaits nothing.
    pub fn new() -> (search: SearchPipeline)
        ensures
            search@ == (SearchView { loading: false, ticket: 0 }),
    {
        SearchPipeline { loading: false, ticket: 0 }
    }

    /// Whether an outcome is awaited.
    pub fn is_loading(&self) -> (loading: bool)
        ensures
            loading == self@.loading,
    {
        self.loading
    }

    /// The ticket of the latest submission.
    pub fn ticket(&self) -> (ticket: u64)
        ensures
            ticket == self@.ticket,
    {
        self.ticket
    }

    /// Submits a query: the result list is emptied at once, and the caller is
    /// asked to start the lookup under the next ticket. An earlier lookup is
    /// not cancelled; its outcome is no longer awaited.
    pub fn submit(&mut self, results: &mut VideoList, query: &str) -> (step: Effect)
        ensures
            final(self)@ == search_after_submit(old(self)@),
            final(results).wf(),
            final(results)@ == (VideoListView { items: Seq::empty(), cursor: None }),
            step@ == (EffectView::Lookup {
                ticket: next_ticket(old(self)@.ticket),
                args: search_args_text(query@),
            }),
    {
        results.clear();
        self.loading = true;
        self.ticket = if self.ticket == u64::MAX { 0 } else { self.ticket + 1 };
        Effect::Lookup { ticket: self.ticket, args: search_args(query) }
    }

    /// Takes what one poll of the receiving end under `ticket` gave. Awaited
    /// records replace the result list; an awaited failure is returned as a
    /// message and leaves the list as it is; both end the wait, and so does a
    /// dropped sending end. Nothing changes while nothing has arrived, and
    /// nothing that was polled under another ticket is looked at.
    pub fn poll(&mut self, results: &mut VideoList, ticket: u64, polled: SearchPoll) -> (outcome:
        Result<(), String>)
        requires
            old(results).wf(),
        ensures
            final(self)@ == search_after_poll(old(self)@, ticket, polled),
            final(results).wf(),
            final(results)@ == results_after_poll(old(self)@, old(results)@, ticket, polled),
            match outcome {
                Ok(_) => poll_failure(old(self)@, ticket, polled) is None,
                Err(message) => poll_failure(old(self)@, ticket, polled) == Some(message@),
            },
    {
        if !self.loading || self.ticket != ticket {
            return Ok(());
        }
        match polled {
            SearchPoll::Delivered(videos) => {
                results.replace(videos);
                self.loading = false;
                Ok(())
            },
            SearchPoll::Failed(reason) => {
                self.loading = false;
                Err(search_failure(reason.as_str()))
            },
            SearchPoll::Empty => Ok(()),
            SearchPoll::Disconnected => {
                self.loading = false;
                Ok(())
            },
        }
    }
}

/// A line of the lookup's output that was dropped.
#[derive(Debug, PartialEq, Eq)]
pub struct Warning {
    /// The number of the line, the first line being line 1.
    pub line: usize,
    /// What is logged for it.
    pub message: String,
}

/// What a [`Warning`] is.
pub struct WarningView {
    pub line: nat,
    pub message: Seq<char>,
}

impl View for Warning {
    type V = WarningView;

    open spec fn view(&self) -> WarningView {
        WarningView { line: self.line as nat, message: self.message@ }
    }
}

/// The views of a sequence of warnings, in the same order.
pub open spec fn warnings_of(warnings: Seq<Warning>) -> Seq<WarningView> {
    Seq::new(warnings.len(), |i: int| warnings[i]@)
}

/// What a lookup that exited with success gave: the records of the lines that
/// parsed, and a warning for each line that did not.
#[derive(Debug, PartialEq, Eq)]
pub struct Batch {
    pub videos: Vec<Video>,
    pub warnings: Vec<Warning>,
}

/// The records among the parsed lines, in the order of the lines.
pub open spec fn kept_records(parsed: Seq<Result<Video, String>>) -> Seq<Video>
    decreases parsed.len(),
{
    if parsed.len() == 0 {
        Seq::empty()
    } else {
        match parsed.last() {
            Ok(video) => kept_records(parsed.drop_last()).push(video),
            Err(_) => kept_records(parsed.drop_last()),
        }
    }
}

/// The warnings for the lines that did not parse, in the order of the lines.
pub open spec fn dropped_lines(parsed: Seq<Result<Video, String>>) -> Seq<WarningView>
    decreases parsed.len(),
{
    if parsed.len() == 0 {
        Seq::empty()
    } else {
        match parsed.last() {
            Ok(_) => dropped_lines(parsed.drop_last()),
            Err(reason) => dropped_lines(parsed.drop_last()).push(
                WarningView { line: parsed.len(), message: parse_warning_text(reason@) },
            ),
        }
    }
}

/// Every line is either kept or dropped.
pub proof fn lemma_lines_kept_or_dropped(parsed: Seq<Result<Video, String>>)
    ensures
        kept_records(parsed).len() + dropped_lines(parsed).len() == parsed.len(),
    decreases parsed.len(),
{
    if parsed.len() > 0 {
        lemma_lines_kept_or_dropped(parsed.drop_last());
    }
}

/// Gathers the records of the lines that parsed, and a warning for each line
/// that did not. One line that does not parse fails no other line.
pub fn collect_records(parsed: &Vec<Result<Video, String>>) -> (batch: Batch)
    ensures
        batch.videos@ == kept_records(parsed@),
        warnings_of(batch.warnings@) == dropped_lines(parsed@),
{
    let mut videos: Vec<Video> = Vec::new();
    let mut warnings: Vec<Warning> = Vec::new();
    let mut i: usize = 0;
    assert(parsed@.take(0) =~= Seq::<Result<Video, String>>::empty());
    assert(warnings_of(warnings@) =~= dropped_lines(parsed@.take(0)));
    while i < parsed.len()
        invariant
            i <= parsed@.len(),
            videos@ == kept_records(parsed@.take(i as int)),
            warnings_of(warnings@) == dropped_lines(parsed@.take(i as int)),
        decreases parsed@.len() - i,
    {
        let ghost seen = parsed@.take(i + 1);
        assert(seen.drop_last() =~= parsed@.take(i as int));
        assert(seen.last() == parsed@[i as int]);
        match &parsed[i] {
            Ok(video) => {
                videos.push(video.clone());
            },
            Err(reason) => {
                let warning = Warning { line: i + 1, message: parse_warning(reason.as_str()) };
                let ghost before = warnings@;
                warnings.push(warning);
                assert(warnings_of(warnings@) =~= warnings_of(before).push(warning@));
            },
        }
        i += 1;
    }
    assert(parsed@.take(i as int) =~= parsed@);
    Batch { videos, warnings }
}

/// The outcome of a lookup that has exited: a failure with what it wrote to
/// its error stream where it did not succeed, the batch of its records
/// otherwise.
pub fn finish_lookup(succeeded: bool, stderr: &str, parsed: &Vec<Result<Video, String>>) -> (outcome:
    Result<Batch, String>)
    ensures
        match outcome {
            Ok(batch) => succeeded && batch.videos@ == kept_records(parsed@) && warnings_of(
                batch.warnings@,
            ) == dropped_lines(parsed@),
            Err(message) => !succeeded && message@ == lookup_failure_text(stderr@),
        },
{
    if succeeded {
        Ok(collect_records(parsed))
    } else {
        Err(lookup_failure(stderr))
    }
}

} // verus!
