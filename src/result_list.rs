use vstd::prelude::*;

use crate::entries::Entry;

verus! {

/// A position in the flattened match space: (entry index, match index).
pub type Position = (int, int);

/// The model of a cursor held as machine integers.
pub open spec fn cursor_view(c: Option<(usize, usize)>) -> Option<Position> {
    match c {
        Some(p) => Some((p.0 as int, p.1 as int)),
        None => None,
    }
}

/// The abstract content of a result list.
pub struct ListModel {
    pub entries: Seq<Entry>,
    pub selected: Option<Position>,
}

/// `p` addresses a match that exists in `entries`.
pub open spec fn valid_position(entries: Seq<Entry>, p: Position) -> bool {
    &&& 0 <= p.0 < entries.len()
    &&& 0 <= p.1 < entries[p.0].matches@.len()
}

/// `a` comes strictly before `b` in the flattened match order.
pub open spec fn position_lt(a: Position, b: Position) -> bool {
    a.0 < b.0 || (a.0 == b.0 && a.1 < b.1)
}

/// `p` lies after the cursor `c` (every position lies after an absent cursor).
pub open spec fn after_cursor(c: Option<Position>, p: Position) -> bool {
    match c {
        Some(q) => position_lt(q, p),
        None => true,
    }
}

/// `p` lies before the cursor `c` (every position lies before an absent cursor).
pub open spec fn before_cursor(c: Option<Position>, p: Position) -> bool {
    match c {
        Some(q) => position_lt(p, q),
        None => true,
    }
}

/// Some existing match lies after the cursor.
pub open spec fn has_next(entries: Seq<Entry>, c: Option<Position>) -> bool {
    exists|p: Position| valid_position(entries, p) && after_cursor(c, p)
}

/// Some existing match lies before the cursor.
pub open spec fn has_previous(entries: Seq<Entry>, c: Option<Position>) -> bool {
    exists|p: Position| valid_position(entries, p) && before_cursor(c, p)
}

/// `p` is the first existing match after the cursor.
pub open spec fn is_next(entries: Seq<Entry>, c: Option<Position>, p: Position) -> bool {
    &&& valid_position(entries, p)
    &&& after_cursor(c, p)
    &&& forall|q: Position|
        valid_position(entries, q) && after_cursor(c, q) ==> !#[trigger] position_lt(q, p)
}

/// `p` is the last existing match before the cursor.
pub open spec fn is_previous(entries: Seq<Entry>, c: Option<Position>, p: Position) -> bool {
    &&& valid_position(entries, p)
    &&& before_cursor(c, p)
    &&& forall|q: Position|
        valid_position(entries, q) && before_cursor(c, q) ==> !#[trigger] position_lt(p, q)
}

/// `after` is `before` with the cursor moved to the first match after it,
/// or unchanged where there is none.
pub open spec fn moved_to_next(before: ListModel, after: ListModel) -> bool {
    &&& after.entries == before.entries
    &&& if has_next(before.entries, before.selected) {
        after.selected matches Some(p) && is_next(before.entries, before.selected, p)
    } else {
        after.selected == before.selected
    }
}

/// `after` is `before` with the cursor moved to the last match before it,
/// or unchanged where there is none.
pub open spec fn moved_to_previous(before: ListModel, after: ListModel) -> bool {
    &&& after.entries == before.entries
    &&& if has_previous(before.entries, before.selected) {
        after.selected matches Some(p) && is_previous(before.entries, before.selected, p)
    } else {
        after.selected == before.selected
    }
}

impl ListModel {
    /// The cursor, if present, addresses an existing match.
    pub open spec fn wf(self) -> bool {
        match self.selected {
            Some(p) => valid_position(self.entries, p),
            None => true,
        }
    }

    /// File name and line number of the match under the cursor.
    pub open spec fn selected_target(self) -> Option<(Seq<char>, u64)> {
        match self.selected {
            Some(p) => Some((self.entries[p.0].name@, self.entries[p.0].matches@[p.1].line_number)),
            None => None,
        }
    }

    /// The list after appending `e`: the first match of the list becomes
    /// selected when nothing was selected before.
    pub open spec fn add(self, e: Entry) -> ListModel {
        ListModel {
            entries: self.entries.push(e),
            selected: if self.selected is None && e.matches@.len() > 0 {
                Some((self.entries.len() as int, 0))
            } else {
                self.selected
            },
        }
    }

    /// The list after appending each of `es` in turn.
    pub open spec fn add_all(self, es: Seq<Entry>) -> ListModel
        decreases es.len(),
    {
        if es.len() == 0 {
            self
        } else {
            self.add_all(es.drop_last()).add(es.last())
        }
    }
}

/// Appending entries one by one keeps them in call order, after the entries
/// already there.
pub proof fn lemma_add_all_keeps_order(m: ListModel, es: Seq<Entry>)
    ensures
        m.add_all(es).entries == m.entries + es,
    decreases es.len(),
{
    if es.len() == 0 {
        assert(m.entries + es =~= m.entries);
    } else {
        lemma_add_all_keeps_order(m, es.drop_last());
        assert(m.entries + es =~= (m.entries + es.drop_last()).push(es.last()));
    }
}

/// Appending entries keeps the cursor on an existing match.
pub proof fn lemma_add_all_wf(m: ListModel, es: Seq<Entry>)
    requires
        m.wf(),
    ensures
        m.add_all(es).wf(),
    decreases es.len(),
{
    if es.len() > 0 {
        lemma_add_all_wf(m, es.drop_last());
        let prior = m.add_all(es.drop_last());
        let next = prior.add(es.last());
        if let Some(p) = next.selected {
            if prior.selected is None {
                assert(next.entries[prior.entries.len() as int] == es.last());
            } else {
                assert(next.entries[p.0] == prior.entries[p.0]);
            }
        }
    }
}

/// The ordered results of one search and a cursor on one of their matches.
pub struct ResultList {
    entries: Vec<Entry>,
    selected: Option<(usize, usize)>,
}

impl View for ResultList {
    type V = ListModel;

    closed spec fn view(&self) -> ListModel {
        ListModel { entries: self.entries@, selected: cursor_view(self.selected) }
    }
}

impl ResultList {
    /// An empty list with no selection.
    pub fn new() -> (r: ResultList)
        ensures
            r@.entries.len() == 0,
            r@.selected is None,
            r@.wf(),
    {
        ResultList { entries: Vec::new(), selected: None }
    }

    /// Appends `entry` after all entries already present.
    pub fn add_entry(&mut self, entry: Entry)
        requires
            old(self)@.wf(),
        ensures
            final(self)@ == old(self)@.add(entry),
            final(self)@.wf(),
    {
        if self.selected.is_none() && entry.matches.len() > 0 {
            self.selected = Some((self.entries.len(), 0));
        }
        self.entries.push(entry);
        assert(self@.entries == old(self)@.entries.push(entry));
    }

    /// Removes every entry and the selection.
    pub fn clear(&mut self)
        ensures
            final(self)@.entries.len() == 0,
            final(self)@.selected is None,
            final(self)@.wf(),
    {
        self.entries.clear();
        self.selected = None;
    }

    /// The file name and line number of the selected match, if any.
    pub fn get_selected_entry(&self) -> (r: Option<(String, u64)>)
        requires
            self@.wf(),
        ensures
            match r {
                Some(t) => self@.selected_target() == Some((t.0@, t.1)),
                None => self@.selected_target() is None,
            },
    {
        match self.selected {
            Some((e, m)) => {
                let entry = &self.entries[e];
                Some((entry.name.clone(), entry.matches[m].line_number))
            },
            None => None,
        }
    }

    /// The first entry at index `start` or later that has a match.
    fn first_with_matches(&self, start: usize) -> (r: Option<usize>)
        ensures
            match r {
                Some(i) => start <= i < self@.entries.len() && self@.entries[i as int].matches@.len() > 0
                    && forall|j: int| start <= j < i ==> #[trigger] self@.entries[j].matches@.len() == 0,
                None => forall|j: int|
                    start <= j < self@.entries.len() ==> #[trigger] self@.entries[j].matches@.len() == 0,
            },
    {
        let mut i: usize = start;
        while i < self.entries.len()
            invariant
                start <= i,
                forall|j: int| start <= j < i ==> #[trigger] self@.entries[j].matches@.len() == 0,
            decreases self.entries.len() - i,
        {
            if self.entries[i].matches.len() > 0 {
                return Some(i);
            }
            i = i + 1;
        }
        None
    }

    /// The last entry before index `end` that has a match.
    fn last_with_matches(&self, end: usize) -> (r: Option<usize>)
        requires
            end <= self@.entries.len(),
        ensures
            match r {
                Some(i) => i < end && self@.entries[i as int].matches@.len() > 0
                    && forall|j: int| i < j < end ==> #[trigger] self@.entries[j].matches@.len() == 0,
                None => forall|j: int| 0 <= j < end ==> #[trigger] self@.entries[j].matches@.len() == 0,
            },
    {
        let mut i: usize = end;
        while i > 0
            invariant
                i <= end <= self@.entries.len(),
                forall|j: int| i <= j < end ==> #[trigger] self@.entries[j].matches@.len() == 0,
            decreases i,
        {
            if self.entries[i - 1].matches.len() > 0 {
                return Some(i - 1);
            }
            i = i - 1;
        }
        None
    }

    /// Moves the selection to the next match in the flattened order; the
    /// first match when nothing is selected. Stays put at the last match and
    /// on a list without matches.
    pub fn next_match(&mut self)
        requires
            old(self)@.wf(),
        ensures
            final(self)@.wf(),
            moved_to_next(old(self)@, final(self)@),
    {
        let ghost entries = self@.entries;
        let ghost c = self@.selected;
        let start: usize = match self.selected {
            Some((e, m)) => {
                let k: usize = self.entries[e].matches.len();
                if k - m > 1 {
                    self.selected = Some((e, m + 1));
                    let ghost p: Position = (e as int, m + 1);
                    assert(valid_position(entries, p) && after_cursor(c, p));
                    return;
                }
                let n: usize = self.entries.len();
                assert(e < n);
                e + 1
            },
            None => 0,
        };
        match self.first_with_matches(start) {
            Some(i) => {
                self.selected = Some((i, 0));
                let ghost p: Position = (i as int, 0);
                assert(valid_position(entries, p) && after_cursor(c, p));
                assert forall|q: Position|
                    valid_position(entries, q) && after_cursor(c, q) implies !#[trigger] position_lt(
                    q,
                    p,
                ) by {
                    assert(q.0 >= start);
                }
            },
            None => {
                assert forall|q: Position| valid_position(entries, q) implies !after_cursor(c, q) by {
                    if after_cursor(c, q) {
                        assert(q.0 >= start);
                        assert(entries[q.0].matches@.len() == 0);
                    }
                }
            },
        }
    }

    /// Moves the selection to the previous match in the flattened order; the
    /// last match when nothing is selected. Stays put at the first match and
    /// on a list without matches.
    pub fn previous_match(&mut self)
        requires
            old(self)@.wf(),
        ensures
            final(self)@.wf(),
            moved_to_previous(old(self)@, final(self)@),
    {
        let ghost entries = self@.entries;
        let ghost c = self@.selected;
        let end: usize = match self.selected {
            Some((e, m)) => {
                if m > 0 {
                    self.selected = Some((e, m - 1));
                    let ghost p: Position = (e as int, m - 1);
                    assert(valid_position(entries, p) && before_cursor(c, p));
                    return;
                }
                e
            },
            None => self.entries.len(),
        };
        match self.last_with_matches(end) {
            Some(i) => {
                let last: usize = self.entries[i].matches.len() - 1;
                self.selected = Some((i, last));
                let ghost p: Position = (i as int, last as int);
                assert(valid_position(entries, p) && before_cursor(c, p));
                assert forall|q: Position|
                    valid_position(entries, q) && before_cursor(c, q) implies !#[trigger] position_lt(
                    p,
                    q,
                ) by {
                    assert(q.0 < end);
                }
            },
            None => {
                assert forall|q: Position| valid_position(entries, q) implies !before_cursor(c, q) by {
                    if before_cursor(c, q) {
                        assert(q.0 < end);
                        assert(entries[q.0].matches@.len() == 0);
                    }
                }
            },
        }
    }

    /// The entries, in the order they were added.
    pub fn entries(&self) -> (r: &Vec<Entry>)
        ensures
            r@ == self@.entries,
    {
        &self.entries
    }

    /// Number of entries.
    pub fn len(&self) -> (r: usize)
        ensures
            r == self@.entries.len(),
    {
        self.entries.len()
    }

    pub fn is_empty(&self) -> (r: bool)
        ensures
            r == (self@.entries.len() == 0),
    {
        self.entries.len() == 0
    }

    /// The selected position, if any.
    pub fn selected(&self) -> (r: Option<(usize, usize)>)
        ensures
            cursor_view(r) == self@.selected,
    {
        self.selected
    }
}

} // verus!
