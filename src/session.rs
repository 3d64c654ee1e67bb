use vstd::prelude::*;

use std::sync::mpsc::Receiver;

use crate::entries::Entry;
use crate::result_list::{ListModel, ResultList, moved_to_next, moved_to_previous};

verus! {

/// The receiving end of a `std::sync::mpsc` channel, carried through as is.
#[verifier::external_type_specification]
#[verifier::external_body]
#[verifier::reject_recursive_types(T)]
pub struct ExReceiver<T>(Receiver<T>);

/// What a search worker reports.
pub enum Event {
    /// A file with matches, complete.
    NewEntry(Entry),
    /// The walk is over; no event follows.
    SearchingFinished,
    /// The search could not go on; no event follows.
    Error,
}

/// Mode of a session.
#[derive(Clone, Copy, Debug, PartialEq, Eq, Structural)]
pub enum State {
    /// No search runs and no file is to be opened.
    Idle,
    /// A search worker is active.
    Searching,
    /// Opening the selected file was requested; the flag says whether the
    /// session was idle (rather than searching) when it was.
    OpenFile(bool),
    /// Terminal: the session is over.
    Exit,
}

/// The abstract content of a session.
pub struct SessionModel {
    pub state: State,
    pub list: ListModel,
}

/// The session after taking one event.
pub open spec fn apply_event(m: SessionModel, ev: Event) -> SessionModel {
    match ev {
        Event::NewEntry(e) => SessionModel { state: m.state, list: m.list.add(e) },
        Event::SearchingFinished => SessionModel { state: State::Idle, list: m.list },
        Event::Error => SessionModel { state: State::Exit, list: m.list },
    }
}

/// The session after taking each of `evs` in turn.
pub open spec fn apply_events(m: SessionModel, evs: Seq<Event>) -> SessionModel
    decreases evs.len(),
{
    if evs.len() == 0 {
        m
    } else {
        apply_event(apply_events(m, evs.drop_last()), evs.last())
    }
}

/// The entries carried by the new-entry events of `evs`, in order.
pub open spec fn new_entries(evs: Seq<Event>) -> Seq<Entry>
    decreases evs.len(),
{
    if evs.len() == 0 {
        Seq::empty()
    } else {
        match evs.last() {
            Event::NewEntry(e) => new_entries(evs.drop_last()).push(e),
            _ => new_entries(evs.drop_last()),
        }
    }
}

/// Taking events appends the entries they carry, in the order they were
/// sent, after the results already there; nothing is reordered or dropped.
pub proof fn lemma_events_append_entries(m: SessionModel, evs: Seq<Event>)
    ensures
        apply_events(m, evs).list.entries == m.list.entries + new_entries(evs),
    decreases evs.len(),
{
    if evs.len() == 0 {
        assert(m.list.entries + new_entries(evs) =~= m.list.entries);
    } else {
        lemma_events_append_entries(m, evs.drop_last());
        let prior = new_entries(evs.drop_last());
        if let Event::NewEntry(e) = evs.last() {
            assert(m.list.entries + prior.push(e) =~= (m.list.entries + prior).push(e));
        }
    }
}

/// Every event after index `i` of `evs` is a new entry.
pub open spec fn only_entries_after(evs: Seq<Event>, i: int) -> bool {
    forall|j: int| i < j < evs.len() ==> #[trigger] evs[j] is NewEntry
}

/// The end of a search makes the session idle whatever its mode was before,
/// a pending request to open a file included; new entries that arrive after
/// it leave it idle.
pub proof fn lemma_finished_forces_idle(m: SessionModel, evs: Seq<Event>, i: int)
    requires
        0 <= i < evs.len(),
        evs[i] is SearchingFinished,
        only_entries_after(evs, i),
    ensures
        apply_events(m, evs).state == State::Idle,
    decreases evs.len(),
{
    if i < evs.len() - 1 {
        assert(evs.last() is NewEntry);
        assert(evs.drop_last()[i] == evs[i]);
        assert(only_entries_after(evs.drop_last(), i)) by {
            assert forall|j: int| i < j < evs.drop_last().len() implies #[trigger] evs.drop_last()[j] is NewEntry by {
                assert(evs.drop_last()[j] == evs[j]);
            }
        }
        lemma_finished_forces_idle(m, evs.drop_last(), i);
    }
}

/// An error ends the session whatever its mode was before; new entries that
/// arrive after it leave it ended.
pub proof fn lemma_error_forces_exit(m: SessionModel, evs: Seq<Event>, i: int)
    requires
        0 <= i < evs.len(),
        evs[i] is Error,
        only_entries_after(evs, i),
    ensures
        apply_events(m, evs).state == State::Exit,
    decreases evs.len(),
{
    if i < evs.len() - 1 {
        assert(evs.last() is NewEntry);
        assert(evs.drop_last()[i] == evs[i]);
        assert(only_entries_after(evs.drop_last(), i)) by {
            assert forall|j: int| i < j < evs.drop_last().len() implies #[trigger] evs.drop_last()[j] is NewEntry by {
                assert(evs.drop_last()[j] == evs[j]);
            }
        }
        lemma_error_forces_exit(m, evs.drop_last(), i);
    }
}

/// Relies on `Receiver::try_iter` of `std::sync::mpsc`: it hands out the
/// events queued so far without waiting for more. Which ones have arrived
/// depends on the worker's progress, so nothing is stated of them.
#[verifier::external_body]
fn pending_events(rx: &Receiver<Event>) -> (r: Vec<Event>) {
    rx.try_iter().collect()
}

/// A search session: the receiving end of the worker's events, the mode, and
/// the results gathered so far.
pub struct Ig {
    rx: Receiver<Event>,
    state: State,
    result_list: ResultList,
}

impl View for Ig {
    type V = SessionModel;

    closed spec fn view(&self) -> SessionModel {
        SessionModel { state: self.state, list: self.result_list@ }
    }
}

impl Ig {
    /// The selection of the results addresses an existing match.
    pub open spec fn wf(&self) -> bool {
        self@.list.wf()
    }

    /// An idle session with no results, reading worker events from `rx`.
    pub fn new(rx: Receiver<Event>) -> (r: Ig)
        ensures
            r@.state == State::Idle,
            r@.list.entries.len() == 0,
            r@.list.selected is None,
            r.wf(),
    {
        Ig { rx, state: State::Idle, result_list: ResultList::new() }
    }

    /// Takes one event: a new entry is appended to the results, the end of
    /// the search makes the session idle, an error ends it.
    pub fn handle_event(&mut self, event: Event)
        requires
            old(self).wf(),
        ensures
            final(self).wf(),
            final(self)@ == apply_event(old(self)@, event),
    {
        match event {
            Event::NewEntry(e) => self.result_list.add_entry(e),
            Event::SearchingFinished => self.state = State::Idle,
            Event::Error => self.state = State::Exit,
        }
    }

    /// Takes each of `events` in order.
    pub fn handle_events(&mut self, events: Vec<Event>)
        requires
            old(self).wf(),
        ensures
            final(self).wf(),
            final(self)@ == apply_events(old(self)@, events@),
    {
        let ghost all = events@;
        let ghost start = self@;
        let mut rest = events;
        while rest.len() > 0
            invariant
                self.wf(),
                rest@.len() <= all.len(),
                rest@ == all.skip(all.len() - rest@.len()),
                self@ == apply_events(start, all.take(all.len() - rest@.len())),
            decreases rest@.len(),
        {
            let ghost k = all.len() - rest@.len();
            let ev = rest.remove(0);
            self.handle_event(ev);
            assert(all.take(k + 1).drop_last() =~= all.take(k));
            assert(rest@ =~= all.skip(k + 1));
        }
        assert(all.take(all.len() as int) =~= all);
    }

    /// Takes, without waiting, every event the worker has sent so far.
    pub fn handle_searcher_event(&mut self)
        requires
            old(self).wf(),
        ensures
            final(self).wf(),
            exists|evs: Seq<Event>| #[trigger] apply_events(old(self)@, evs) == final(self)@,
    {
        let events = pending_events(&self.rx);
        let ghost evs = events@;
        self.handle_events(events);
        assert(apply_events(old(self)@, evs) == self@);
    }

    /// Starts a search if the session is idle: the results are cleared and
    /// the session is searching. Returns whether a worker is to be started;
    /// in any other mode nothing changes.
    pub fn search(&mut self) -> (start: bool)
        requires
            old(self).wf(),
        ensures
            final(self).wf(),
            start == (old(self)@.state == State::Idle),
            start ==> final(self)@.state == State::Searching && final(self)@.list.entries.len() == 0
                && final(self)@.list.selected is None,
            !start ==> final(self)@ == old(self)@,
    {
        if self.state == State::Idle {
            self.result_list.clear();
            self.state = State::Searching;
            true
        } else {
            false
        }
    }

    /// Requests opening the selected file, remembering whether the session
    /// was idle.
    pub fn open_file(&mut self)
        ensures
            final(self)@.state == State::OpenFile(old(self)@.state == State::Idle),
            final(self)@.list == old(self)@.list,
    {
        self.state = State::OpenFile(self.state == State::Idle);
    }

    /// Acts on a pending request to open a file: the session goes back to
    /// idle or searching, as it was when the request was made, and the file
    /// name and line number of the selection, if there is one, are returned
    /// for the editor. Without a pending request nothing changes.
    pub fn open_file_if_requested(&mut self) -> (r: Option<(String, u64)>)
        requires
            old(self).wf(),
        ensures
            final(self).wf(),
            final(self)@.list == old(self)@.list,
            match old(self)@.state {
                State::OpenFile(idle) => {
                    &&& final(self)@.state == (if idle {
                        State::Idle
                    } else {
                        State::Searching
                    })
                    &&& match r {
                        Some(t) => old(self)@.list.selected_target() == Some((t.0@, t.1)),
                        None => old(self)@.list.selected_target() is None,
                    }
                },
                _ => r is None && final(self)@.state == old(self)@.state,
            },
    {
        if let State::OpenFile(idle) = self.state {
            let target = self.result_list.get_selected_entry();
            self.state = if idle {
                State::Idle
            } else {
                State::Searching
            };
            target
        } else {
            None
        }
    }

    /// Ends the session.
    pub fn exit(&mut self)
        ensures
            final(self)@.state == State::Exit,
            final(self)@.list == old(self)@.list,
    {
        self.state = State::Exit;
    }

    pub fn is_idle(&self) -> (r: bool)
        ensures
            r == (self@.state == State::Idle),
    {
        self.state == State::Idle
    }

    pub fn is_searching(&self) -> (r: bool)
        ensures
            r == (self@.state == State::Searching),
    {
        self.state == State::Searching
    }

    pub fn exit_requested(&self) -> (r: bool)
        ensures
            r == (self@.state == State::Exit),
    {
        self.state == State::Exit
    }

    /// The results gathered so far.
    pub fn result_list(&self) -> (r: &ResultList)
        ensures
            r@ == self@.list,
    {
        &self.result_list
    }

    /// Moves the selection of the results as `ResultList::next_match` does.
    pub fn next_match(&mut self)
        requires
            old(self).wf(),
        ensures
            final(self).wf(),
            final(self)@.state == old(self)@.state,
            moved_to_next(old(self)@.list, final(self)@.list),
    {
        self.result_list.next_match();
    }

    /// Moves the selection of the results as `ResultList::previous_match` does.
    pub fn previous_match(&mut self)
        requires
            old(self).wf(),
        ensures
            final(self).wf(),
            final(self)@.state == old(self)@.state,
            moved_to_previous(old(self)@.list, final(self)@.list),
    {
        self.result_list.previous_match();
    }

    /// The current mode.
    pub fn state(&self) -> (r: State)
        ensures
            r == self@.state,
    {
        self.state
    }
}

} // verus!
