//! The selectable list of the TUI: items, the filter over them, the selected
//! item and the scroll position.
use vstd::prelude::*;
use crate::text::{chars_in_order, lowercase, lowercase_fuzzy, to_lowercase, concat3};

verus! {

/// Every filtered index points at an item.
pub open spec fn indices_in_range(filtered: Seq<usize>, n: nat) -> bool {
    forall|i: int| 0 <= i < filtered.len() ==> filtered[i] < n
}

/// Indices strictly increase.
pub open spec fn strictly_increasing(filtered: Seq<usize>) -> bool {
    forall|i: int, j: int| 0 <= i < j < filtered.len() ==> filtered[i] < filtered[j]
}

/// `0, 1, ..., n-1`.
pub open spec fn all_indices(n: nat) -> Seq<usize> {
    Seq::new(n, |i: int| i as usize)
}

/// The item indices whose lowercase text contains `query_lower`, in order.
pub open spec fn matching_indices(items: Seq<String>, query_lower: Seq<char>, upto: nat) -> Seq<usize>
    decreases upto,
{
    if upto == 0 {
        seq![]
    } else {
        let rest = matching_indices(items, query_lower, (upto - 1) as nat);
        if chars_in_order(query_lower, lowercase(items[upto - 1]@)) {
            rest.push((upto - 1) as usize)
        } else {
            rest
        }
    }
}

/// The filter of a query: every item for an empty query, else the items
/// whose lowercase text holds the characters of the lowercase query in
/// order (a fuzzy match: "ssn" finds "Sky Sports News").
pub open spec fn filter_of(items: Seq<String>, query: Seq<char>) -> Seq<usize> {
    if query.len() == 0 {
        all_indices(items.len())
    } else {
        matching_indices(items, lowercase(query), items.len())
    }
}

/// `after` holds the items of `before` filtered by the query `query`: the
/// selection goes to the first match at the top, or stays where it was
/// when nothing matches.
pub open spec fn refiltered(before: ListView, after: ListView, query: Seq<char>) -> bool {
    &&& after.items@ == before.items@
    &&& after.search_query@ == query
    &&& after.filtered_indices@ == filter_of(before.items@, query)
    &&& after.filtered_indices@.len() > 0 ==> after.selected_index == after.filtered_indices@[0] && after.scroll_offset == 0
    &&& after.filtered_indices@.len() == 0 ==> after.selected_index == before.selected_index
        && after.scroll_offset == before.scroll_offset
    &&& after.visible_height == before.visible_height
}

/// The status line while a query is typed: the prompt while it is empty,
/// else the query.
pub open spec fn search_status_of(query: Seq<char>) -> Seq<char> {
    if query.len() == 0 { "Search: Type to filter, Enter to confirm, Esc to cancel"@ } else { "Search: "@ + query }
}

/// Position of `sel` in the filtered list, if it occurs (first occurrence).
pub open spec fn position_of(filtered: Seq<usize>, sel: usize) -> Option<int>
    decreases filtered.len(),
{
    if filtered.len() == 0 {
        None
    } else {
        match position_of(filtered.drop_last(), sel) {
            Some(p) => Some(p),
            None => if filtered.last() == sel { Some(filtered.len() - 1) } else { None },
        }
    }
}

/// The selection after moving up: the previous filtered item, from the first
/// the last; a selection outside the filter stays.
pub open spec fn up_of(filtered: Seq<usize>, sel: usize) -> usize {
    match position_of(filtered, sel) {
        None => sel,
        Some(p) => if p > 0 { filtered[p - 1] } else { filtered.last() },
    }
}

/// The selection after moving down: the next filtered item, from the last
/// the first; a selection outside the filter stays.
pub open spec fn down_of(filtered: Seq<usize>, sel: usize) -> usize {
    match position_of(filtered, sel) {
        None => sel,
        Some(p) => if p + 1 < filtered.len() { filtered[p + 1] } else { filtered[0] },
    }
}

/// The scroll offset after making position `pos` visible in a window of
/// `height` rows over `count` rows, keeping one row of context.
pub open spec fn scroll_to_show(pos: int, scroll: int, height: int, count: int) -> int {
    let h = if height < 1 { 1 } else { height };
    if pos < scroll + 1 {
        if pos - 1 < 0 { 0 } else { pos - 1 }
    } else if pos >= scroll + h - 1 {
        let max_scroll = if count - h < 0 { 0 } else { count - h };
        let want = if pos + 2 - h < 0 { 0 } else { pos + 2 - h };
        if want < max_scroll { want } else { max_scroll }
    } else {
        scroll
    }
}

/// Scrolling to show a position of the list puts that position inside the
/// window of rows shown, whenever the window has room for it and a row of
/// context (two rows or more); the scroll offset never becomes negative, and
/// a position already shown with a row of context on either side leaves the
/// scroll where it was.
pub proof fn law_scroll_shows_position(pos: int, scroll: int, height: int, count: int)
    requires
        0 <= pos < count,
        0 <= scroll,
        2 <= height,
    ensures
        0 <= scroll_to_show(pos, scroll, height, count),
        scroll_to_show(pos, scroll, height, count) <= pos,
        pos < scroll_to_show(pos, scroll, height, count) + height,
        scroll + 1 <= pos < scroll + height - 1 ==> scroll_to_show(pos, scroll, height, count) == scroll,
{
}

/// The selected item (the first item when the selection is outside the
/// filter) lies in the window of rows shown.
pub open spec fn shows_selection(l: ListView) -> bool {
    let p = match position_of(l.filtered_indices@, l.selected_index) { Some(p) => p, None => 0 };
    l.scroll_offset <= p < l.scroll_offset + l.visible_height
}

/// The page size used to scroll a text: the visible height less two rows,
/// at least one.
pub open spec fn page_size(visible_height: int) -> int {
    if visible_height - 2 < 1 { 1 } else { visible_height - 2 }
}

/// How many items page up and down move the selection of a list.
pub const LIST_PAGE: usize = 10;

/// The list shown by the TUI.
#[derive(Debug)]
pub struct ListView {
    pub items: Vec<String>,
    pub selected_index: usize,
    pub scroll_offset: usize,
    pub filtered_indices: Vec<usize>,
    pub search_query: String,
    pub search_active: bool,
    pub status_message: Option<String>,
    pub visible_height: usize,
}

pub(crate) fn find_position(filtered: &Vec<usize>, sel: usize) -> (r: Option<usize>)
    ensures
        match r {
            Some(p) => position_of(filtered@, sel) == Some(p as int) && p < filtered@.len() && filtered@[p as int] == sel,
            None => position_of(filtered@, sel) is None,
        },
{
    let mut i: usize = 0;
    while i < filtered.len()
        invariant
            i <= filtered@.len(),
            position_of(filtered@.subrange(0, i as int), sel) is None,
        decreases filtered@.len() - i,
    {
        if filtered[i] == sel {
            proof {
                let s = filtered@.subrange(0, i + 1);
                assert(s.drop_last() =~= filtered@.subrange(0, i as int));
                lemma_position_prefix(filtered@, i as int + 1, sel);
            }
            return Some(i);
        }
        proof {
            assert(filtered@.subrange(0, i + 1).drop_last() =~= filtered@.subrange(0, i as int));
        }
        i = i + 1;
    }
    assert(filtered@.subrange(0, filtered@.len() as int) =~= filtered@);
    None
}

proof fn lemma_position_prefix(s: Seq<usize>, k: int, sel: usize)
    requires
        0 < k <= s.len(),
        position_of(s.subrange(0, k), sel) is Some,
    ensures
        position_of(s, sel) == position_of(s.subrange(0, k), sel),
    decreases s.len() - k,
{
    if k < s.len() {
        assert(s.subrange(0, k + 1).drop_last() =~= s.subrange(0, k));
        lemma_position_prefix(s, k + 1, sel);
    } else {
        assert(s.subrange(0, k) =~= s);
    }
}

/// Whether `sel` occurs in the filtered list.
pub proof fn lemma_position_some(s: Seq<usize>, sel: usize)
    ensures
        position_of(s, sel) is Some <==> exists|i: int| 0 <= i < s.len() && s[i] == sel,
        position_of(s, sel) matches Some(p) ==> 0 <= p < s.len() && s[p] == sel,
    decreases s.len(),
{
    if s.len() > 0 {
        lemma_position_some(s.drop_last(), sel);
        if position_of(s.drop_last(), sel) is None && s.last() != sel {
            assert forall|i: int| 0 <= i < s.len() implies s[i] != sel by {
                if i < s.len() - 1 {
                    assert(s.drop_last()[i] == s[i]);
                }
            }
        }
        if exists|i: int| 0 <= i < s.drop_last().len() && s.drop_last()[i] == sel {
            let i = choose|i: int| 0 <= i < s.drop_last().len() && s.drop_last()[i] == sel;
            assert(s[i] == sel);
        }
    }
}

proof fn lemma_position_of_first(s: Seq<usize>)
    requires
        s.len() > 0,
    ensures
        position_of(s, s[0]) == Some(0int),
    decreases s.len(),
{
    if s.len() > 1 {
        lemma_position_of_first(s.drop_last());
        assert(s.drop_last()[0] == s[0]);
    } else {
        assert(s.drop_last().len() == 0);
        assert(position_of(s.drop_last(), s[0]) is None);
    }
}

fn all_indices_vec(n: usize) -> (r: Vec<usize>)
    ensures
        r@ == all_indices(n as nat),
{
    let mut v: Vec<usize> = Vec::new();
    let mut i: usize = 0;
    while i < n
        invariant
            i <= n,
            v@ == all_indices(i as nat),
        decreases n - i,
    {
        v.push(i);
        i = i + 1;
        assert(v@ =~= all_indices(i as nat));
    }
    v
}

impl ListView {
    /// The filtered indices point at items.
    pub open spec fn wf(self) -> bool {
        indices_in_range(self.filtered_indices@, self.items@.len())
    }

    /// Only the selection and scroll position may have changed.
    pub open spec fn same_content(self, o: ListView) -> bool {
        &&& self.items@ == o.items@
        &&& self.filtered_indices@ == o.filtered_indices@
        &&& self.search_query@ == o.search_query@
        &&& self.search_active == o.search_active
        &&& self.status_message == o.status_message
        &&& self.visible_height == o.visible_height
    }

    /// A list of the given items with nothing filtered and the first selected.
    pub fn new(items: Vec<String>) -> (r: ListView)
        ensures
            r.wf(),
            r.items@ == items@,
            r.filtered_indices@ == all_indices(items@.len()),
            r.selected_index == 0,
            r.scroll_offset == 0,
            r.search_query@.len() == 0,
            !r.search_active,
            r.status_message is None,
            r.visible_height == 20,
    {
        let n = items.len();
        ListView {
            items,
            selected_index: 0,
            scroll_offset: 0,
            filtered_indices: all_indices_vec(n),
            search_query: String::new(),
            search_active: false,
            status_message: None,
            visible_height: 20,
        }
    }

    /// Sets the number of visible rows from the terminal's content height
    /// (header and footer take four rows; at least one row remains).
    pub fn update_visible_height(&mut self, height: usize)
        ensures
            final(self).visible_height == (if height < 5 { 1 } else { height - 4 }),
            final(self).items@ == old(self).items@,
            final(self).filtered_indices@ == old(self).filtered_indices@,
            final(self).selected_index == old(self).selected_index,
            final(self).scroll_offset == old(self).scroll_offset,
            final(self).search_query@ == old(self).search_query@,
            final(self).search_active == old(self).search_active,
            final(self).status_message == old(self).status_message,
    {
        self.visible_height = if height < 5 { 1 } else { height - 4 };
    }

    /// Scrolls so that the selected item is visible with one row of context.
    pub fn ensure_selected_visible(&mut self)
        requires
            old(self).wf(),
        ensures
            final(self).wf(),
            final(self).same_content(*old(self)),
            final(self).selected_index == old(self).selected_index,
            old(self).filtered_indices@.len() == 0 ==> final(self).scroll_offset == old(self).scroll_offset,
            old(self).filtered_indices@.len() > 0 ==> final(self).scroll_offset == scroll_to_show(
                match position_of(old(self).filtered_indices@, old(self).selected_index) {
                    Some(p) => p,
                    None => 0,
                },
                old(self).scroll_offset as int,
                old(self).visible_height as int,
                old(self).filtered_indices@.len() as int,
            ),
            old(self).filtered_indices@.len() > 0 && old(self).visible_height >= 2 ==> shows_selection(*final(self)),
    {
        proof {
            if self.filtered_indices@.len() > 0 && self.visible_height >= 2 {
                lemma_position_some(self.filtered_indices@, self.selected_index);
                law_scroll_shows_position(
                    match position_of(self.filtered_indices@, self.selected_index) { Some(p) => p, None => 0 },
                    self.scroll_offset as int, self.visible_height as int, self.filtered_indices@.len() as int);
            }
        }
        let visible_height = if self.visible_height < 1 { 1 } else { self.visible_height };
        if self.filtered_indices.len() == 0 {
            return;
        }
        let position = match find_position(&self.filtered_indices, self.selected_index) {
            Some(p) => p,
            None => 0,
        };
        let count = self.filtered_indices.len();
        if (position as u128) < self.scroll_offset as u128 + 1 {
            self.scroll_offset = if position < 1 { 0 } else { position - 1 };
        } else if position as u128 >= self.scroll_offset as u128 + visible_height as u128 - 1 {
            let max_scroll = if count < visible_height { 0 } else { count - visible_height };
            let want = if (position as u128) + 2 < visible_height as u128 { 0 } else { ((position as u128) + 2 - visible_height as u128) as usize };
            self.scroll_offset = if want < max_scroll { want } else { max_scroll };
        }
    }

    /// Moves the selection to the previous filtered item, wrapping from the
    /// first to the last.
    pub fn move_selection_up(&mut self)
        requires
            old(self).wf(),
        ensures
            final(self).wf(),
            final(self).same_content(*old(self)),
            final(self).selected_index == up_of(old(self).filtered_indices@, old(self).selected_index),
            position_of(old(self).filtered_indices@, old(self).selected_index) is None
                ==> final(self).scroll_offset == old(self).scroll_offset,
            position_of(old(self).filtered_indices@, old(self).selected_index) is Some ==> final(self).scroll_offset == scroll_to_show(
                match position_of(old(self).filtered_indices@, final(self).selected_index) { Some(q) => q, None => 0 },
                old(self).scroll_offset as int, old(self).visible_height as int, old(self).filtered_indices@.len() as int),
            position_of(old(self).filtered_indices@, old(self).selected_index) is Some && old(self).visible_height >= 2
                ==> shows_selection(*final(self)),
    {
        proof { lemma_position_some(self.filtered_indices@, self.selected_index); }
        match find_position(&self.filtered_indices, self.selected_index) {
            None => {},
            Some(p) => {
                if p > 0 {
                    self.selected_index = self.filtered_indices[p - 1];
                } else {
                    self.selected_index = self.filtered_indices[self.filtered_indices.len() - 1];
                }
                self.ensure_selected_visible();
            },
        }
    }

    /// Moves the selection to the next filtered item, wrapping from the last
    /// to the first.
    pub fn move_selection_down(&mut self)
        requires
            old(self).wf(),
        ensures
            final(self).wf(),
            final(self).same_content(*old(self)),
            final(self).selected_index == down_of(old(self).filtered_indices@, old(self).selected_index),
            position_of(old(self).filtered_indices@, old(self).selected_index) is None
                ==> final(self).scroll_offset == old(self).scroll_offset,
            position_of(old(self).filtered_indices@, old(self).selected_index) is Some ==> final(self).scroll_offset == scroll_to_show(
                match position_of(old(self).filtered_indices@, final(self).selected_index) { Some(q) => q, None => 0 },
                old(self).scroll_offset as int, old(self).visible_height as int, old(self).filtered_indices@.len() as int),
            position_of(old(self).filtered_indices@, old(self).selected_index) is Some && old(self).visible_height >= 2
                ==> shows_selection(*final(self)),
    {
        proof { lemma_position_some(self.filtered_indices@, self.selected_index); }
        match find_position(&self.filtered_indices, self.selected_index) {
            None => {},
            Some(p) => {
                if p < self.filtered_indices.len() - 1 {
                    self.selected_index = self.filtered_indices[p + 1];
                } else {
                    self.selected_index = self.filtered_indices[0];
                }
                self.ensure_selected_visible();
            },
        }
    }

    /// Moves the selection a page (`LIST_PAGE` items) up, stopping at the
    /// first item, and scrolls it into view.
    pub fn move_selection_page_up(&mut self)
        requires
            old(self).wf(),
        ensures
            final(self).wf(),
            final(self).same_content(*old(self)),
            match position_of(old(self).filtered_indices@, old(self).selected_index) {
                None => final(self).selected_index == old(self).selected_index
                    && final(self).scroll_offset == old(self).scroll_offset,
                Some(p) => final(self).selected_index == old(self).filtered_indices@[
                    if p - LIST_PAGE < 0 { 0 } else { p - LIST_PAGE }
                ]
                    && final(self).scroll_offset == scroll_to_show(
                        match position_of(old(self).filtered_indices@, final(self).selected_index) { Some(q) => q, None => 0 },
                        old(self).scroll_offset as int, old(self).visible_height as int, old(self).filtered_indices@.len() as int),
            },
            position_of(old(self).filtered_indices@, old(self).selected_index) is Some && old(self).visible_height >= 2
                ==> shows_selection(*final(self)),
    {
        proof { lemma_position_some(self.filtered_indices@, self.selected_index); }
        match find_position(&self.filtered_indices, self.selected_index) {
            None => {},
            Some(p) => {
                let new_pos = if p < LIST_PAGE { 0 } else { p - LIST_PAGE };
                self.selected_index = self.filtered_indices[new_pos];
                self.ensure_selected_visible();
            },
        }
    }

    /// Moves the selection a page (`LIST_PAGE` items) down, stopping at the
    /// last item, and scrolls it into view.
    pub fn move_selection_page_down(&mut self)
        requires
            old(self).wf(),
        ensures
            final(self).wf(),
            final(self).same_content(*old(self)),
            match position_of(old(self).filtered_indices@, old(self).selected_index) {
                None => final(self).selected_index == old(self).selected_index
                    && final(self).scroll_offset == old(self).scroll_offset,
                Some(p) => final(self).selected_index == old(self).filtered_indices@[
                    if p + LIST_PAGE < old(self).filtered_indices@.len() - 1 {
                        p + LIST_PAGE
                    } else {
                        old(self).filtered_indices@.len() - 1
                    }
                ]
                    && final(self).scroll_offset == scroll_to_show(
                        match position_of(old(self).filtered_indices@, final(self).selected_index) { Some(q) => q, None => 0 },
                        old(self).scroll_offset as int, old(self).visible_height as int, old(self).filtered_indices@.len() as int),
            },
            position_of(old(self).filtered_indices@, old(self).selected_index) is Some && old(self).visible_height >= 2
                ==> shows_selection(*final(self)),
    {
        proof { lemma_position_some(self.filtered_indices@, self.selected_index); }
        match find_position(&self.filtered_indices, self.selected_index) {
            None => {},
            Some(p) => {
                let last = self.filtered_indices.len() - 1;
                let new_pos = if p < last && LIST_PAGE < last - p { p + LIST_PAGE } else { last };
                self.selected_index = self.filtered_indices[new_pos];
                self.ensure_selected_visible();
            },
        }
    }

    /// Selects the first filtered item and scrolls to the top.
    pub fn move_selection_home(&mut self)
        requires
            old(self).wf(),
        ensures
            final(self).wf(),
            final(self).same_content(*old(self)),
            old(self).filtered_indices@.len() == 0 ==> final(self).selected_index == old(self).selected_index
                && final(self).scroll_offset == old(self).scroll_offset,
            old(self).filtered_indices@.len() > 0 ==> final(self).selected_index == old(self).filtered_indices@[0]
                && final(self).scroll_offset == 0,
            old(self).filtered_indices@.len() > 0 && old(self).visible_height >= 1 ==> shows_selection(*final(self)),
    {
        if self.filtered_indices.len() > 0 {
            self.selected_index = self.filtered_indices[0];
            self.scroll_offset = 0;
            proof { lemma_position_of_first(self.filtered_indices@); }
        }
    }

    /// Selects the last filtered item.
    pub fn move_selection_end(&mut self)
        requires
            old(self).wf(),
        ensures
            final(self).wf(),
            final(self).same_content(*old(self)),
            old(self).filtered_indices@.len() == 0 ==> final(self).selected_index == old(self).selected_index
                && final(self).scroll_offset == old(self).scroll_offset,
            old(self).filtered_indices@.len() > 0 ==> final(self).selected_index == old(self).filtered_indices@.last(),
            old(self).filtered_indices@.len() > 0 && old(self).visible_height >= 2 ==> shows_selection(*final(self)),
    {
        if self.filtered_indices.len() > 0 {
            self.selected_index = self.filtered_indices[self.filtered_indices.len() - 1];
            self.ensure_selected_visible();
        }
    }

    /// Recomputes the filter from the query; when anything matches, the first
    /// match is selected and the list scrolls to the top.
    pub fn apply_filter(&mut self)
        requires
            old(self).wf(),
        ensures
            final(self).wf(),
            final(self).items@ == old(self).items@,
            final(self).search_query@ == old(self).search_query@,
            final(self).search_active == old(self).search_active,
            final(self).status_message == old(self).status_message,
            final(self).visible_height == old(self).visible_height,
            final(self).filtered_indices@ == filter_of(old(self).items@, old(self).search_query@),
            strictly_increasing(final(self).filtered_indices@),
            final(self).filtered_indices@.len() > 0 ==> final(self).selected_index == final(self).filtered_indices@[0]
                && final(self).scroll_offset == 0,
            final(self).filtered_indices@.len() == 0 ==> final(self).selected_index == old(self).selected_index
                && final(self).scroll_offset == old(self).scroll_offset,
    {
        if self.search_query.unicode_len() == 0 {
            self.filtered_indices = all_indices_vec(self.items.len());
        } else {
            let q = to_lowercase(self.search_query.as_str());
            let mut out: Vec<usize> = Vec::new();
            let mut i: usize = 0;
            while i < self.items.len()
                invariant
                    i <= self.items@.len(),
                    out@ == matching_indices(self.items@, q@, i as nat),
                    q@ == lowercase(self.search_query@),
                    indices_in_range(out@, i as nat),
                    strictly_increasing(out@),
                decreases self.items@.len() - i,
            {
                if lowercase_fuzzy(self.items[i].as_str(), q.as_str()) {
                    out.push(i);
                }
                i = i + 1;
            }
            self.filtered_indices = out;
        }
        if self.filtered_indices.len() > 0 {
            self.selected_index = self.filtered_indices[0];
            self.scroll_offset = 0;
        }
    }

    /// Starts a search with an empty query (every item shown).
    pub fn start_search(&mut self)
        requires
            old(self).wf(),
        ensures
            final(self).wf(),
            final(self).search_active,
            final(self).search_query@.len() == 0,
            final(self).items@ == old(self).items@,
            final(self).filtered_indices@ == all_indices(old(self).items@.len()),
            refiltered(*old(self), *final(self), seq![]),
            final(self).status_message matches Some(m) && m@ == "Search: Type to filter, Enter to confirm, Esc to cancel"@,
    {
        self.search_active = true;
        self.search_query = String::new();
        self.apply_filter();
        assert(self.search_query@ =~= seq![]);
        self.status_message = Some(String::from_str("Search: Type to filter, Enter to confirm, Esc to cancel"));
    }

    /// Adds a character to the query of an active search and refilters.
    pub fn update_search(&mut self, c: char)
        requires
            old(self).wf(),
        ensures
            final(self).wf(),
            final(self).items@ == old(self).items@,
            final(self).search_active == old(self).search_active,
            !old(self).search_active ==> final(self).search_query@ == old(self).search_query@
                && final(self).filtered_indices@ == old(self).filtered_indices@
                && final(self).selected_index == old(self).selected_index,
            !old(self).search_active ==> *final(self) == *old(self),
            old(self).search_active ==> final(self).search_query@ == old(self).search_query@.push(c)
                && final(self).filtered_indices@ == filter_of(old(self).items@, old(self).search_query@.push(c))
                && refiltered(*old(self), *final(self), old(self).search_query@.push(c))
                && (final(self).status_message matches Some(m) && m@ == "Search: "@ + final(self).search_query@),
    {
        if self.search_active {
            crate::text::push_char(&mut self.search_query, c);
            self.apply_filter();
            self.status_message = Some(crate::text::concat2("Search: ", self.search_query.as_str()));
        }
    }

    /// Removes the last character of an active search's query and refilters.
    pub fn delete_search_char(&mut self)
        requires
            old(self).wf(),
        ensures
            final(self).wf(),
            final(self).items@ == old(self).items@,
            final(self).search_active == old(self).search_active,
            (!old(self).search_active || old(self).search_query@.len() == 0) ==> final(self).search_query@ == old(self).search_query@
                && final(self).filtered_indices@ == old(self).filtered_indices@
                && final(self).selected_index == old(self).selected_index,
            (!old(self).search_active || old(self).search_query@.len() == 0) ==> *final(self) == *old(self),
            old(self).search_active && old(self).search_query@.len() > 0 ==>
                final(self).search_query@ == old(self).search_query@.drop_last()
                && final(self).filtered_indices@ == filter_of(old(self).items@, old(self).search_query@.drop_last())
                && refiltered(*old(self), *final(self), old(self).search_query@.drop_last())
                && (final(self).status_message matches Some(m) && m@ == search_status_of(final(self).search_query@)),
    {
        if self.search_active {
            let n = self.search_query.unicode_len();
            if n > 0 {
                let shorter = self.search_query.as_str().substring_char(0, n - 1).to_owned();
                self.search_query = shorter;
                self.apply_filter();
                if self.search_query.unicode_len() == 0 {
                    self.status_message = Some(String::from_str("Search: Type to filter, Enter to confirm, Esc to cancel"));
                } else {
                    self.status_message = Some(crate::text::concat2("Search: ", self.search_query.as_str()));
                }
            }
        }
    }

    /// Ends the search and shows every item again.
    pub fn cancel_search(&mut self)
        ensures
            final(self).wf(),
            !final(self).search_active,
            final(self).search_query@.len() == 0,
            final(self).items@ == old(self).items@,
            final(self).filtered_indices@ == all_indices(old(self).items@.len()),
            final(self).status_message is None,
            final(self).selected_index == old(self).selected_index,
            final(self).scroll_offset == old(self).scroll_offset,
            final(self).visible_height == old(self).visible_height,
    {
        self.search_active = false;
        self.search_query = String::new();
        self.filtered_indices = all_indices_vec(self.items.len());
        self.status_message = None;
    }

    /// Ends the search and keeps its filter.
    pub fn confirm_search(&mut self)
        requires
            old(self).wf(),
        ensures
            final(self).wf(),
            !final(self).search_active,
            final(self).search_query@ == old(self).search_query@,
            final(self).items@ == old(self).items@,
            final(self).filtered_indices@ == old(self).filtered_indices@,
            final(self).selected_index == old(self).selected_index,
            final(self).scroll_offset == old(self).scroll_offset,
            final(self).visible_height == old(self).visible_height,
            old(self).search_query@.len() == 0 ==> final(self).status_message is None,
            old(self).search_query@.len() > 0 ==> (final(self).status_message matches Some(m)
                && m@ == "Filtered: \""@ + old(self).search_query@ + "\" (Press '/' to search again)"@),
    {
        self.search_active = false;
        if self.search_query.unicode_len() == 0 {
            self.status_message = None;
        } else {
            self.status_message = Some(concat3("Filtered: \"", self.search_query.as_str(), "\" (Press '/' to search again)"));
        }
    }

    /// Clears the query and the filter.
    pub fn reset_filter(&mut self)
        ensures
            final(self).wf(),
            !final(self).search_active,
            final(self).search_query@.len() == 0,
            final(self).items@ == old(self).items@,
            final(self).filtered_indices@ == all_indices(old(self).items@.len()),
            final(self).status_message is None,
            final(self).selected_index == old(self).selected_index,
            final(self).scroll_offset == old(self).scroll_offset,
            final(self).visible_height == old(self).visible_height,
    {
        self.search_query = String::new();
        self.search_active = false;
        self.filtered_indices = all_indices_vec(self.items.len());
        self.status_message = None;
    }

    /// Replaces the items and clears the filter.
    pub fn set_items(&mut self, items: Vec<String>)
        ensures
            final(self).wf(),
            final(self).items@ == items@,
            !final(self).search_active,
            final(self).search_query@.len() == 0,
            final(self).filtered_indices@ == all_indices(items@.len()),
            final(self).status_message is None,
            final(self).selected_index == old(self).selected_index,
            final(self).scroll_offset == old(self).scroll_offset,
            final(self).visible_height == old(self).visible_height,
    {
        self.items = items;
        self.reset_filter();
    }
}

} // verus!
