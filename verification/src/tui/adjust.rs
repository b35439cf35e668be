//! Where the selection and the scroll position go when hiding or showing an
//! item reloads the list: an item that stays visible anchors the scroll
//! position, and the selection moves to a neighbour of the hidden item.
use vstd::prelude::*;
use crate::text::str_eq;
use crate::tui::list::{find_position, indices_in_range, position_of};
use crate::xtream_api::opt_str_view;

verus! {

/// The first filter position in `[from, to)` whose item is not named `name`.
pub open spec fn first_other(filtered: Seq<usize>, names: Seq<String>, from: nat, to: nat, name: Seq<char>) -> Option<int>
    decreases to - from,
{
    if from >= to {
        None
    } else if names[filtered[from as int] as int]@ != name {
        Some(from as int)
    } else {
        first_other(filtered, names, from + 1, to, name)
    }
}

/// The last filter position below `upto` whose item is not named `name`.
pub open spec fn last_other(filtered: Seq<usize>, names: Seq<String>, upto: nat, name: Seq<char>) -> Option<int>
    decreases upto,
{
    if upto == 0 {
        None
    } else if names[filtered[upto - 1] as int]@ != name {
        Some(upto - 1)
    } else {
        last_other(filtered, names, (upto - 1) as nat, name)
    }
}

/// The first filter position from `from` on whose item is named `name`.
pub open spec fn first_named(filtered: Seq<usize>, names: Seq<String>, from: nat, name: Seq<char>) -> Option<int>
    decreases filtered.len() - from,
{
    if from >= filtered.len() {
        None
    } else if names[filtered[from as int] as int]@ == name {
        Some(from as int)
    } else {
        first_named(filtered, names, from + 1, name)
    }
}

/// The name of the item at a filter position, if there is one.
pub open spec fn name_at(filtered: Seq<usize>, names: Seq<String>, p: Option<int>) -> Option<Seq<char>> {
    match p {
        Some(i) => Some(names[filtered[i] as int]@),
        None => None,
    }
}

/// The position of the selection in the filter (the first position when it
/// is not there).
pub open spec fn filter_pos_of(filtered: Seq<usize>, selected: usize) -> int {
    match position_of(filtered, selected) {
        Some(p) => p,
        None => 0,
    }
}

/// The scroll anchor: the first item at or below the top row that is not
/// the one being toggled.
pub open spec fn anchor_of(filtered: Seq<usize>, names: Seq<String>, scroll: nat, name: Seq<char>) -> Option<Seq<char>> {
    name_at(filtered, names, first_other(filtered, names, scroll, filtered.len(), name))
}

/// The item to select after hiding `name`: the previous other item when the
/// hidden one is the last of several, else the next other item, wrapping
/// round to the start. Nothing is chosen when the item is shown again.
pub open spec fn next_name_of(filtered: Seq<usize>, names: Seq<String>, pos: nat, name: Seq<char>, hidden: bool) -> Option<Seq<char>> {
    if !hidden {
        None
    } else if pos + 1 == filtered.len() && pos > 0 {
        name_at(filtered, names, last_other(filtered, names, pos, name))
    } else {
        match first_other(filtered, names, pos + 1, filtered.len(), name) {
            Some(p) => name_at(filtered, names, Some(p)),
            None => name_at(filtered, names, first_other(filtered, names, 0, pos, name)),
        }
    }
}

/// `a - b`, or 0 when that is negative.
pub open spec fn sat_sub(a: int, b: int) -> int {
    if a - b < 0 { 0 } else { a - b }
}

/// The smaller of two integers.
pub open spec fn min_int(a: int, b: int) -> int {
    if a < b { a } else { b }
}

/// The scroll position after the reload: the anchor's new position, else
/// the old scroll position kept within the list.
pub open spec fn adjusted_scroll(filtered: Seq<usize>, names: Seq<String>, anchor: Option<Seq<char>>, scroll: int, height: int) -> int {
    let fallback = min_int(scroll, sat_sub(filtered.len() as int, height));
    match anchor {
        Some(a) => match first_named(filtered, names, 0, a) {
            Some(p) => p,
            None => fallback,
        },
        None => fallback,
    }
}

/// The selection after the reload: the chosen neighbour, else the item at
/// the top row; when showing an item, the item at the old filter position.
pub open spec fn adjusted_selection(filtered: Seq<usize>, names: Seq<String>, next: Option<Seq<char>>, filter_pos: int, scroll: int) -> usize {
    let last = filtered.len() - 1;
    match next {
        Some(n) => match first_named(filtered, names, 0, n) {
            Some(p) => filtered[p],
            None => filtered[min_int(scroll, last)],
        },
        None => filtered[min_int(filter_pos, last)],
    }
}

/// The scroll position that brings the selection into view, moving only
/// when it is outside the window.
pub open spec fn final_scroll(filtered: Seq<usize>, selected: usize, scroll: int, height: int) -> int {
    match position_of(filtered, selected) {
        Some(fp) => if fp < scroll {
            fp
        } else if fp >= scroll + height {
            sat_sub(fp, sat_sub(height, 1))
        } else {
            scroll
        },
        None => scroll,
    }
}

fn find_first_other(filtered: &Vec<usize>, names: &Vec<String>, from: usize, to: usize, name: &str) -> (r: Option<usize>)
    requires
        indices_in_range(filtered@, names@.len()),
        to <= filtered@.len(),
    ensures
        match r {
            Some(p) => first_other(filtered@, names@, from as nat, to as nat, name@) == Some(p as int) && p < to,
            None => first_other(filtered@, names@, from as nat, to as nat, name@) is None,
        },
{
    let mut k: usize = from;
    while k < to
        invariant
            indices_in_range(filtered@, names@.len()),
            to <= filtered@.len(),
            from <= k || to <= from,
            first_other(filtered@, names@, from as nat, to as nat, name@) == first_other(filtered@, names@, k as nat, to as nat, name@),
        decreases to - k,
    {
        if !str_eq(names[filtered[k]].as_str(), name) {
            return Some(k);
        }
        k = k + 1;
    }
    None
}

fn find_last_other(filtered: &Vec<usize>, names: &Vec<String>, upto: usize, name: &str) -> (r: Option<usize>)
    requires
        indices_in_range(filtered@, names@.len()),
        upto <= filtered@.len(),
    ensures
        match r {
            Some(p) => last_other(filtered@, names@, upto as nat, name@) == Some(p as int) && p < upto,
            None => last_other(filtered@, names@, upto as nat, name@) is None,
        },
{
    let mut k: usize = upto;
    while k > 0
        invariant
            indices_in_range(filtered@, names@.len()),
            k <= upto <= filtered@.len(),
            last_other(filtered@, names@, upto as nat, name@) == last_other(filtered@, names@, k as nat, name@),
        decreases k,
    {
        if !str_eq(names[filtered[k - 1]].as_str(), name) {
            return Some(k - 1);
        }
        k = k - 1;
    }
    None
}

fn find_first_named(filtered: &Vec<usize>, names: &Vec<String>, name: &str) -> (r: Option<usize>)
    requires
        indices_in_range(filtered@, names@.len()),
    ensures
        match r {
            Some(p) => first_named(filtered@, names@, 0, name@) == Some(p as int) && p < filtered@.len(),
            None => first_named(filtered@, names@, 0, name@) is None,
        },
{
    let mut k: usize = 0;
    while k < filtered.len()
        invariant
            indices_in_range(filtered@, names@.len()),
            k <= filtered@.len(),
            first_named(filtered@, names@, 0, name@) == first_named(filtered@, names@, k as nat, name@),
        decreases filtered@.len() - k,
    {
        if str_eq(names[filtered[k]].as_str(), name) {
            return Some(k);
        }
        k = k + 1;
    }
    None
}

fn name_of_pos(filtered: &Vec<usize>, names: &Vec<String>, p: Option<usize>) -> (r: Option<String>)
    requires
        indices_in_range(filtered@, names@.len()),
        p matches Some(i) ==> i < filtered@.len(),
    ensures
        opt_str_view(r) == name_at(filtered@, names@, match p { Some(i) => Some(i as int), None => None }),
{
    match p {
        Some(i) => Some(names[filtered[i]].clone()),
        None => None,
    }
}

/// Before hiding or showing `name`: the selection's filter position, the
/// scroll anchor and the item to select afterwards.
pub fn ignore_anchor(filtered: &Vec<usize>, names: &Vec<String>, selected: usize, scroll: usize, name: &str, hidden: bool)
    -> (r: (usize, Option<String>, Option<String>))
    requires
        indices_in_range(filtered@, names@.len()),
    ensures
        r.0 == filter_pos_of(filtered@, selected),
        opt_str_view(r.1) == anchor_of(filtered@, names@, scroll as nat, name@),
        opt_str_view(r.2) == next_name_of(filtered@, names@, r.0 as nat, name@, hidden),
{
    let pos = match find_position(filtered, selected) {
        Some(p) => p,
        None => 0,
    };
    let n = filtered.len();
    let anchor = if scroll < n {
        name_of_pos(filtered, names, find_first_other(filtered, names, scroll, n, name))
    } else {
        None
    };
    let next = if !hidden {
        None
    } else if n > 0 && pos == n - 1 && pos > 0 {
        name_of_pos(filtered, names, find_last_other(filtered, names, pos, name))
    } else {
        let fwd = if pos < n { find_first_other(filtered, names, pos + 1, n, name) } else { None };
        match fwd {
            Some(p) => name_of_pos(filtered, names, Some(p)),
            None => {
                let upto = if pos <= n { pos } else { n };
                name_of_pos(filtered, names, find_first_other(filtered, names, 0, upto, name))
            },
        }
    };
    (pos, anchor, next)
}

/// After the reload: the new selection and scroll position.
pub fn ignore_adjusted(filtered: &Vec<usize>, names: &Vec<String>, anchor: &Option<String>, next: &Option<String>,
    filter_pos: usize, scroll: usize, height: usize) -> (r: (usize, usize))
    requires
        indices_in_range(filtered@, names@.len()),
        filtered@.len() > 0,
    ensures
        ({
            let s = adjusted_scroll(filtered@, names@, opt_str_view(*anchor), scroll as int, height as int);
            &&& r.0 == adjusted_selection(filtered@, names@, opt_str_view(*next), filter_pos as int, s)
            &&& r.1 == final_scroll(filtered@, r.0, s, height as int)
        }),
{
    let n = filtered.len();
    let fallback = if scroll < (if n < height { 0 } else { n - height }) { scroll } else if n < height { 0 } else { n - height };
    let s = match anchor {
        Some(a) => match find_first_named(filtered, names, a.as_str()) {
            Some(p) => p,
            None => fallback,
        },
        None => fallback,
    };
    let last = n - 1;
    let sel = match next {
        Some(nm) => match find_first_named(filtered, names, nm.as_str()) {
            Some(p) => filtered[p],
            None => filtered[if s < last { s } else { last }],
        },
        None => filtered[if filter_pos < last { filter_pos } else { last }],
    };
    let scroll2 = match find_position(filtered, sel) {
        Some(fp) => if fp < s {
            fp
        } else if fp as u128 >= s as u128 + height as u128 {
            let h1 = if height < 1 { 0 } else { height - 1 };
            if fp < h1 { 0 } else { fp - h1 }
        } else {
            s
        },
        None => s,
    };
    (sel, scroll2)
}

} // verus!
