//! The laws of the library: what holds of every input, and what one call
//! does to the result of another.
use vstd::prelude::*;
use crate::cache::{lists_provider, provider_hash_step, CacheMetadata};
use crate::cli::search::search_hits;
use crate::favourites::{contains_favourite, favourite_added, favourite_removed, is_fav_key};
use crate::ignore::IgnoreConfig;
use crate::text::{chars_in_order, has_substring, lowercase};
use crate::tui::app::{
    list_nav_view, nav_slot, restored_filter, restored_selection, visible_categories, visible_streams, below, Action, App,
    Command, ContentType, KeyCode, main_menu_choice_of, main_menu_of, MainMenuChoice,
};
use crate::tui::list::{
    all_indices, down_of, filter_of, indices_in_range, lemma_position_some, matching_indices, position_of,
    strictly_increasing, up_of,
};
use crate::tui::keys::advanced_menu_keyed;
use crate::tui::playback::{menu_closed, menu_opened, needs_connect};
use crate::xtream_api::{series_in_category, streams_in_category, Category, FavouriteStream, SeriesInfo, Stream, XTreamAPI};
use crate::tui::adjust::{first_other, last_other, next_name_of};

verus! {

// ---------------------------------------------------------------- favourites

/// After adding a favourite the list holds an entry for its stream: either
/// the new one at the end, or the one that was already there.
pub proof fn law_favourite_add_present(list: Seq<FavouriteStream>, fav: FavouriteStream)
    ensures
        match favourite_added(list, fav) {
            Some(l) => l.len() == list.len() + 1 && contains_favourite(l, fav.stream_id, fav.stream_type@),
            None => contains_favourite(list, fav.stream_id, fav.stream_type@),
        },
{
    if favourite_added(list, fav) is Some {
        let l = list.push(fav);
        assert(is_fav_key(l[list.len() as int], fav.stream_id, fav.stream_type@));
    }
}

/// Adding the same favourite a second time is refused.
pub proof fn law_favourite_add_twice(list: Seq<FavouriteStream>, fav: FavouriteStream)
    ensures
        favourite_added(list, fav) matches Some(l) ==> favourite_added(l, fav) is None,
{
    law_favourite_add_present(list, fav);
}

/// No two favourites share a stream id and type.
pub open spec fn favourites_unique(list: Seq<FavouriteStream>) -> bool {
    forall|i: int, j: int| 0 <= i < j < list.len()
        ==> !is_fav_key(list[j], list[i].stream_id, list[i].stream_type@)
}

/// Adding a favourite keeps a list without repeated (id, type) entries so:
/// a repeated one is refused and the list stays, a new one goes at the end.
pub proof fn law_favourite_add_keeps_unique(list: Seq<FavouriteStream>, fav: FavouriteStream)
    requires
        favourites_unique(list),
    ensures
        favourite_added(list, fav) is None ==> contains_favourite(list, fav.stream_id, fav.stream_type@),
        favourite_added(list, fav) matches Some(l) ==> l == list.push(fav) && favourites_unique(l),
{
    if !contains_favourite(list, fav.stream_id, fav.stream_type@) {
        let l = list.push(fav);
        assert forall|i: int, j: int| 0 <= i < j < l.len()
            implies !is_fav_key(l[j], l[i].stream_id, l[i].stream_type@) by {
            if j == list.len() {
                assert(l[i] == list[i]);
                if is_fav_key(l[j], l[i].stream_id, l[i].stream_type@) {
                    assert(is_fav_key(list[i], fav.stream_id, fav.stream_type@));
                }
            } else {
                assert(l[i] == list[i]);
                assert(l[j] == list[j]);
            }
        }
    }
}

/// After removing a stream's favourites none is left for it.
pub proof fn law_favourite_removed_absent(list: Seq<FavouriteStream>, stream_id: u32, stream_type: Seq<char>)
    ensures
        !contains_favourite(favourite_removed(list, stream_id, stream_type), stream_id, stream_type),
    decreases list.len(),
{
    if list.len() > 0 {
        law_favourite_removed_absent(list.drop_last(), stream_id, stream_type);
        let rest = favourite_removed(list.drop_last(), stream_id, stream_type);
        if !is_fav_key(list.last(), stream_id, stream_type) {
            let r = rest.push(list.last());
            assert forall|i: int| 0 <= i < r.len() implies !is_fav_key(#[trigger] r[i], stream_id, stream_type) by {
                if i < rest.len() {
                    assert(r[i] == rest[i]);
                }
            }
        }
    }
}

proof fn lemma_contains_push(l: Seq<FavouriteStream>, x: FavouriteStream, id: u32, t: Seq<char>)
    ensures
        contains_favourite(l.push(x), id, t) <==> (contains_favourite(l, id, t) || is_fav_key(x, id, t)),
{
    let p = l.push(x);
    if contains_favourite(l, id, t) {
        let i = choose|i: int| 0 <= i < l.len() && is_fav_key(#[trigger] l[i], id, t);
        assert(p[i] == l[i]);
    }
    if is_fav_key(x, id, t) {
        assert(p[l.len() as int] == x);
    }
    if contains_favourite(p, id, t) {
        let i = choose|i: int| 0 <= i < p.len() && is_fav_key(#[trigger] p[i], id, t);
        if i < l.len() {
            assert(p[i] == l[i]);
        }
    }
}

/// Removing a stream's favourites keeps the favourites of every other
/// stream.
pub proof fn law_favourite_remove_keeps_others(
    list: Seq<FavouriteStream>,
    stream_id: u32,
    stream_type: Seq<char>,
    other_id: u32,
    other_type: Seq<char>,
)
    requires
        !(other_id == stream_id && other_type == stream_type),
    ensures
        contains_favourite(favourite_removed(list, stream_id, stream_type), other_id, other_type)
            <==> contains_favourite(list, other_id, other_type),
    decreases list.len(),
{
    if list.len() > 0 {
        let init = list.drop_last();
        law_favourite_remove_keeps_others(init, stream_id, stream_type, other_id, other_type);
        let rest = favourite_removed(init, stream_id, stream_type);
        assert(init.push(list.last()) =~= list);
        lemma_contains_push(init, list.last(), other_id, other_type);
        if !is_fav_key(list.last(), stream_id, stream_type) {
            lemma_contains_push(rest, list.last(), other_id, other_type);
        }
    }
}

proof fn lemma_removed_unchanged(list: Seq<FavouriteStream>, stream_id: u32, stream_type: Seq<char>)
    requires
        !contains_favourite(list, stream_id, stream_type),
    ensures
        favourite_removed(list, stream_id, stream_type) == list,
    decreases list.len(),
{
    if list.len() > 0 {
        let init = list.drop_last();
        assert forall|i: int| 0 <= i < init.len() implies !is_fav_key(#[trigger] init[i], stream_id, stream_type) by {
            assert(init[i] == list[i]);
        }
        lemma_removed_unchanged(init, stream_id, stream_type);
        assert(!is_fav_key(list[list.len() - 1], stream_id, stream_type));
        assert(init.push(list.last()) =~= list);
    }
}

/// Pressing `f` twice on a stream that is not a favourite leaves the
/// favourites as they were: the first press adds it at the end, the second
/// finds it and removes it again.
pub proof fn law_favourite_toggle_twice(list: Seq<FavouriteStream>, fav: FavouriteStream)
    requires
        !contains_favourite(list, fav.stream_id, fav.stream_type@),
    ensures
        favourite_added(list, fav) == Some(list.push(fav)),
        contains_favourite(list.push(fav), fav.stream_id, fav.stream_type@),
        favourite_removed(list.push(fav), fav.stream_id, fav.stream_type@) == list,
{
    assert(is_fav_key(list.push(fav)[list.len() as int], fav.stream_id, fav.stream_type@));
    assert(!contains_favourite(list, fav.stream_id, fav.stream_type@));
    assert(list.push(fav)[list.len() as int] == fav);
    assert(list.push(fav).drop_last() =~= list);
    lemma_removed_unchanged(list, fav.stream_id, fav.stream_type@);
}

// ---------------------------------------------------------------- search

proof fn lemma_matching_exact(items: Seq<String>, q: Seq<char>, upto: nat, i: int)
    requires
        upto <= items.len() <= usize::MAX,
        0 <= i < items.len(),
    ensures
        indices_in_range(matching_indices(items, q, upto), upto),
        matching_indices(items, q, upto).contains(i as usize)
            <==> (i < upto && chars_in_order(q, lowercase(items[i]@))),
    decreases upto,
{
    if upto > 0 {
        let rest = matching_indices(items, q, (upto - 1) as nat);
        lemma_matching_exact(items, q, (upto - 1) as nat, i);
        let m = matching_indices(items, q, upto);
        if chars_in_order(q, lowercase(items[upto - 1]@)) {
            assert(m == rest.push((upto - 1) as usize));
            assert(m[rest.len() as int] == (upto - 1) as usize);
            if i < upto - 1 && rest.contains(i as usize) {
                let k = choose|k: int| 0 <= k < rest.len() && rest[k] == i as usize;
                assert(m[k] == rest[k]);
            }
            if m.contains(i as usize) && i != upto - 1 {
                let k = choose|k: int| 0 <= k < m.len() && m[k] == i as usize;
                assert(k != rest.len() as int);
                assert(rest[k] == m[k]);
            }
        }
    }
}

/// The search filter of a list shows exactly the items whose lowercase
/// text holds the characters of the lowercase search text in order (every
/// item when it is empty).
pub proof fn law_filter_exact(items: Seq<String>, query: Seq<char>, i: int)
    requires
        0 <= i < items.len() <= usize::MAX,
    ensures
        filter_of(items, query).contains(i as usize)
            <==> (query.len() == 0 || chars_in_order(lowercase(query), lowercase(items[i]@))),
{
    if query.len() == 0 {
        assert(all_indices(items.len())[i] == i as usize);
    } else {
        lemma_matching_exact(items, lowercase(query), items.len(), i);
    }
}

/// A search over names finds exactly the entries whose lowercase name
/// contains the (lowercase) search text.
pub proof fn law_search_hits_exact(items: Seq<(u32, Seq<char>)>, q: Seq<char>, x: (u32, Seq<char>))
    ensures
        search_hits(items, q).contains(x) <==> (items.contains(x) && has_substring(lowercase(x.1), q)),
    decreases items.len(),
{
    if items.len() > 0 {
        let init = items.drop_last();
        law_search_hits_exact(init, q, x);
        let rest = search_hits(init, q);
        let h = search_hits(items, q);
        if items.contains(x) && has_substring(lowercase(x.1), q) {
            let k = choose|k: int| 0 <= k < items.len() && items[k] == x;
            if k < init.len() {
                assert(init[k] == x);
                let j = choose|j: int| 0 <= j < rest.len() && rest[j] == x;
                if has_substring(lowercase(items.last().1), q) {
                    assert(h[j] == rest[j]);
                }
            } else {
                assert(h[rest.len() as int] == x);
            }
        }
        if h.contains(x) {
            let j = choose|j: int| 0 <= j < h.len() && h[j] == x;
            if j < rest.len() {
                if has_substring(lowercase(items.last().1), q) {
                    assert(h[j] == rest[j]);
                }
                assert(rest.contains(x));
                let k = choose|k: int| 0 <= k < init.len() && init[k] == x;
                assert(items[k] == x);
            } else {
                assert(items[items.len() - 1] == x);
            }
        }
    }
}

// ---------------------------------------------------------------- hidden names

/// A category is listed exactly when it is in the provider's categories and
/// its name is not hidden.
pub proof fn law_hidden_categories(cats: Seq<Category>, ignore: IgnoreConfig, c: Category)
    ensures
        visible_categories(cats, ignore).contains(c)
            <==> (cats.contains(c) && !ignore.category_set().contains(c.category_name@)),
    decreases cats.len(),
{
    if cats.len() > 0 {
        let init = cats.drop_last();
        law_hidden_categories(init, ignore, c);
        let rest = visible_categories(init, ignore);
        let v = visible_categories(cats, ignore);
        let shown = !ignore.category_set().contains(cats.last().category_name@);
        if cats.contains(c) && !ignore.category_set().contains(c.category_name@) {
            let k = choose|k: int| 0 <= k < cats.len() && cats[k] == c;
            if k < init.len() {
                assert(init[k] == c);
                let j = choose|j: int| 0 <= j < rest.len() && rest[j] == c;
                if shown {
                    assert(v[j] == rest[j]);
                }
            } else {
                assert(v[rest.len() as int] == c);
            }
        }
        if v.contains(c) {
            let j = choose|j: int| 0 <= j < v.len() && v[j] == c;
            if j < rest.len() {
                if shown {
                    assert(v[j] == rest[j]);
                }
                assert(rest.contains(c));
                let k = choose|k: int| 0 <= k < init.len() && init[k] == c;
                assert(cats[k] == c);
            } else {
                assert(cats[cats.len() - 1] == c);
            }
        }
    }
}

/// A channel is listed exactly when it is in the category's channels and
/// its name is not hidden.
pub proof fn law_hidden_channels(streams: Seq<Stream>, ignore: IgnoreConfig, s: Stream)
    ensures
        visible_streams(streams, ignore).contains(s)
            <==> (streams.contains(s) && !ignore.channel_set().contains(s.name@)),
    decreases streams.len(),
{
    if streams.len() > 0 {
        let init = streams.drop_last();
        law_hidden_channels(init, ignore, s);
        let rest = visible_streams(init, ignore);
        let v = visible_streams(streams, ignore);
        let shown = !ignore.channel_set().contains(streams.last().name@);
        if streams.contains(s) && !ignore.channel_set().contains(s.name@) {
            let k = choose|k: int| 0 <= k < streams.len() && streams[k] == s;
            if k < init.len() {
                assert(init[k] == s);
                let j = choose|j: int| 0 <= j < rest.len() && rest[j] == s;
                if shown {
                    assert(v[j] == rest[j]);
                }
            } else {
                assert(v[rest.len() as int] == s);
            }
        }
        if v.contains(s) {
            let j = choose|j: int| 0 <= j < v.len() && v[j] == s;
            if j < rest.len() {
                if shown {
                    assert(v[j] == rest[j]);
                }
                assert(rest.contains(s));
                let k = choose|k: int| 0 <= k < init.len() && init[k] == s;
                assert(streams[k] == s);
            } else {
                assert(streams[streams.len() - 1] == s);
            }
        }
    }
}

// ---------------------------------------------------------------- cache

/// Looking up a provider's hash a second time gives the same hash and leaves
/// the index as the first lookup left it; the hashes recorded before stay.
pub proof fn law_provider_hash_stable(index: Map<Seq<char>, Seq<char>>, url: Seq<char>)
    ensures
        provider_hash_step(provider_hash_step(index, url).1, url) == provider_hash_step(index, url),
        provider_hash_step(index, url).1.contains_key(url),
        provider_hash_step(index, url).1[url] == provider_hash_step(index, url).0,
        forall|u: Seq<char>| #[trigger] index.contains_key(u) ==>
            provider_hash_step(index, url).1.contains_key(u) && provider_hash_step(index, url).1[u] == index[u],
{
}

/// Once `get_provider_hash` has given a URL its hash, a listing of the cached
/// providers taken afterwards holds that URL with that hash: `after` is the
/// index the lookup left, and `listing` holds exactly the pairs of `after`,
/// as `list_cached_providers` promises.
pub proof fn law_hashed_provider_listed(before: Map<Seq<char>, Seq<char>>, url: Seq<char>, hash: Seq<char>,
    after: Map<Seq<char>, Seq<char>>, listing: Seq<(String, String)>)
    requires
        (hash, after) == provider_hash_step(before, url),
        forall|u: Seq<char>, h: Seq<char>| #[trigger] lists_provider(listing, u, h) <==> (after.contains_key(u) && after[u] == h),
    ensures
        lists_provider(listing, url, hash),
{
    assert(after.contains_key(url) && after[url] == hash);
    assert(lists_provider(listing, url, hash));
}

/// Expiry and the time left agree: an expired entry has no time left, an
/// entry with time left is not expired, and a live entry has exactly the
/// seconds up to its expiry left. A new entry is live for its whole lifetime.
pub proof fn law_expiry_consistent(m: CacheMetadata, now: int)
    ensures
        m.expired_at(now) ==> m.remaining_at(now) == 0,
        m.remaining_at(now) > 0 ==> !m.expired_at(now),
        !m.expired_at(now) ==> m.remaining_at(now) == m.expiry() - now,
        !m.expired_at(m.created_at as int),
        m.remaining_at(m.created_at as int) == m.ttl_seconds,
{
}

/// Once expired, an entry stays expired.
pub proof fn law_expiry_monotone(m: CacheMetadata, earlier: int, later: int)
    requires
        earlier <= later,
        m.expired_at(earlier),
    ensures
        m.expired_at(later),
{
}

// ---------------------------------------------------------------- navigation

proof fn lemma_below_in_range(v: Seq<usize>, n: nat)
    requires
        indices_in_range(v, n),
    ensures
        below(v, n) == v,
    decreases v.len(),
{
    if v.len() > 0 {
        lemma_below_in_range(v.drop_last(), n);
        assert(v.drop_last().push(v.last()) =~= v);
    }
}

/// Moving the selection down and then up (or up and then down) returns to
/// the same item, when the selection is in the filter and the filter lists
/// each item once, in order.
pub proof fn law_down_then_up(filtered: Seq<usize>, sel: usize)
    requires
        strictly_increasing(filtered),
        position_of(filtered, sel) is Some,
    ensures
        up_of(filtered, down_of(filtered, sel)) == sel,
        down_of(filtered, up_of(filtered, sel)) == sel,
{
    lemma_position_some(filtered, sel);
    let p = position_of(filtered, sel)->Some_0;
    let di = if p + 1 < filtered.len() { p + 1 } else { 0 };
    let down = filtered[di];
    lemma_position_some(filtered, down);
    let q = position_of(filtered, down)->Some_0;
    if q != di {
        if q < di { assert(filtered[q] < filtered[di]); } else { assert(filtered[di] < filtered[q]); }
    }
    let ui = if p > 0 { p - 1 } else { filtered.len() - 1 };
    let up = filtered[ui];
    lemma_position_some(filtered, up);
    let r = position_of(filtered, up)->Some_0;
    if r != ui {
        if r < ui { assert(filtered[r] < filtered[ui]); } else { assert(filtered[ui] < filtered[r]); }
    }
}

/// Coming back to a screen whose position was remembered, with the same
/// items and nothing remembered over it since, shows the list at the same
/// position: selection, scroll, search text and filter. This holds for a
/// position the list can show: the selection is an item in the filter, and
/// an empty filter goes with a search text (or no items).
pub proof fn law_nav_round_trip(a0: App, a1: App, b: App, a2: App)
    requires
        a0.wf(),
        App::nav_saved(a0, a1),
        nav_slot(a0.state) is Some,
        b.saved_nav_view(a0.state) == a1.saved_nav_view(a0.state),
        b.list.items@ == a0.list.items@,
        App::nav_restored(b, a0.state, a2),
        a0.list.selected_index < a0.list.items@.len() || (a0.list.items@.len() == 0 && a0.list.selected_index == 0),
        a0.list.filtered_indices@.len() > 0 ==> a0.list.filtered_indices@.contains(a0.list.selected_index),
        a0.list.filtered_indices@.len() == 0 && a0.list.search_query@.len() == 0 ==> a0.list.items@.len() == 0,
    ensures
        list_nav_view(a2.list) == list_nav_view(a0.list),
        a2.list.items@ == a0.list.items@,
{
    let v = list_nav_view(a0.list);
    let n = a0.list.items@.len();
    lemma_below_in_range(a0.list.filtered_indices@, n);
    assert(restored_filter(v, n) =~= a0.list.filtered_indices@);
    assert(restored_selection(v, n) == a0.list.selected_index);
}

/// Up and down in a list.
pub open spec fn is_move_key(code: KeyCode) -> bool {
    code == KeyCode::Up || code == KeyCode::Char('k') || code == KeyCode::Down || code == KeyCode::Char('j')
}

/// `steps` are the app after the advanced play menu opened and after each
/// key of `codes` in it, all of them moves.
pub open spec fn moved_in_menu(steps: Seq<App>, stream: Stream, codes: Seq<KeyCode>,
    results: Seq<(Option<Action>, Vec<Command>)>) -> bool {
    &&& steps.len() == codes.len() + 1
    &&& results.len() == codes.len()
    &&& forall|k: int| 0 <= k < codes.len() ==> is_move_key(#[trigger] codes[k])
        && advanced_menu_keyed(steps[k], steps[k + 1], stream, codes[k], results[k])
}

proof fn lemma_moves_keep_saved(steps: Seq<App>, stream: Stream, codes: Seq<KeyCode>,
    results: Seq<(Option<Action>, Vec<Command>)>, k: int)
    requires
        moved_in_menu(steps, stream, codes, results),
        0 <= k < steps.len(),
    ensures
        steps[k].previous_state_before_menu == steps[0].previous_state_before_menu,
        steps[k].previous_items_before_menu == steps[0].previous_items_before_menu,
        steps[k].previous_nav_before_menu == steps[0].previous_nav_before_menu,
    decreases k,
{
    if k > 0 {
        lemma_moves_keep_saved(steps, stream, codes, results, k - 1);
        assert(is_move_key(codes[k - 1]));
    }
}

/// Opening the advanced play menu, pressing any number of up and down keys
/// in it and leaving it brings back the screen, its items and the list
/// position it had, and forgets what it remembered.
pub proof fn law_advanced_menu_round_trip_after_moves(a0: App, stream: Stream, ct: ContentType, steps: Seq<App>,
    codes: Seq<KeyCode>, results: Seq<(Option<Action>, Vec<Command>)>, a2: App)
    requires
        menu_opened(a0, steps[0], stream, ct),
        moved_in_menu(steps, stream, codes, results),
        menu_closed(steps.last(), a2),
    ensures
        a2.state == a0.state,
        a2.list.items@ == a0.list.items@,
        list_nav_view(a2.list) == list_nav_view(a0.list),
        a2.previous_state_before_menu is None,
        a2.previous_items_before_menu@.len() == 0,
{
    lemma_moves_keep_saved(steps, stream, codes, results, steps.len() - 1);
}

/// Opening the advanced play menu and leaving it brings back the screen,
/// its items and the list position it had.
pub proof fn law_advanced_menu_round_trip(a0: App, a1: App, a2: App, stream: Stream, ct: ContentType)
    requires
        menu_opened(a0, a1, stream, ct),
        menu_closed(a1, a2),
    ensures
        a2.state == a0.state,
        a2.list.items@ == a0.list.items@,
        list_nav_view(a2.list) == list_nav_view(a0.list),
{
}

// ---------------------------------------------------------------- playing favourites

/// A favourite played while no provider is connected, or while another
/// provider (one with a different hash) is, needs its own provider's
/// connection; a favourite of the connected provider keeps the connection.
pub proof fn law_favourite_provider_switch(current: Option<XTreamAPI>, a: XTreamAPI)
    ensures
        match current {
            Some(c) => c.provider_hash@ != a.provider_hash@,
            None => true,
        } ==> needs_connect(current, Ok::<XTreamAPI, String>(a)),
        match current {
            Some(c) => c.provider_hash@ == a.provider_hash@,
            None => false,
        } ==> !needs_connect(current, Ok::<XTreamAPI, String>(a)),
{
}

// ---------------------------------------------------------------- categories

/// The streams kept for a category are exactly the streams whose category
/// id is that category (an id that only starts with it does not count), and
/// there are no more of them than streams.
pub proof fn law_streams_of_category(streams: Seq<Stream>, cat: Seq<char>, s: Stream)
    ensures
        streams_in_category(streams, Some(cat)).contains(s) <==> (streams.contains(s)
            && (s.category_id matches Some(id) && id@ == cat)),
        forall|i: int| 0 <= i < streams_in_category(streams, Some(cat)).len() ==>
            ((#[trigger] streams_in_category(streams, Some(cat))[i]).category_id matches Some(id) && id@ == cat),
        streams_in_category(streams, Some(cat)).len() <= streams.len(),
    decreases streams.len(),
{
    if streams.len() > 0 {
        let rest = streams.drop_last();
        let x = streams.last();
        law_streams_of_category(rest, cat, s);
        assert(streams =~= rest.push(x));
        lemma_push_contains(rest, x, s);
        let rr = streams_in_category(rest, Some(cat));
        lemma_push_contains(rr, x, s);
        assert forall|i: int| 0 <= i < streams_in_category(streams, Some(cat)).len() implies
            (#[trigger] streams_in_category(streams, Some(cat))[i]).category_id matches Some(id) && id@ == cat by {
            if i < rr.len() {
                assert(rr[i].category_id matches Some(id) && id@ == cat);
            }
        }
    }
}

/// Filtering keeps the order of the streams: the streams of a category in
/// two lists one after the other are those of the first list followed by
/// those of the second.
pub proof fn law_streams_of_category_in_order(a: Seq<Stream>, b: Seq<Stream>, cat: Seq<char>)
    ensures
        streams_in_category(a + b, Some(cat)) == streams_in_category(a, Some(cat)) + streams_in_category(b, Some(cat)),
    decreases b.len(),
{
    if b.len() == 0 {
        assert(a + b =~= a);
        assert(streams_in_category(a, Some(cat)) + streams_in_category(b, Some(cat)) =~= streams_in_category(a, Some(cat)));
    } else {
        law_streams_of_category_in_order(a, b.drop_last(), cat);
        assert((a + b).drop_last() =~= a + b.drop_last());
        assert((a + b).last() == b.last());
        let fa = streams_in_category(a, Some(cat));
        let fb = streams_in_category(b.drop_last(), Some(cat));
        assert((fa + fb).push(b.last()) =~= fa + fb.push(b.last()));
    }
}

/// The series kept for a category are exactly the series whose category id
/// is that category (an id that only starts with it does not count).
pub proof fn law_series_of_category(series: Seq<SeriesInfo>, cat: Seq<char>, s: SeriesInfo)
    ensures
        series_in_category(series, Some(cat)).contains(s) <==> (series.contains(s)
            && (s.category_id matches Some(id) && id@ == cat)),
        forall|i: int| 0 <= i < series_in_category(series, Some(cat)).len() ==>
            ((#[trigger] series_in_category(series, Some(cat))[i]).category_id matches Some(id) && id@ == cat),
    decreases series.len(),
{
    if series.len() > 0 {
        let rest = series.drop_last();
        let x = series.last();
        law_series_of_category(rest, cat, s);
        assert(series =~= rest.push(x));
        lemma_push_contains(rest, x, s);
        let rr = series_in_category(rest, Some(cat));
        lemma_push_contains(rr, x, s);
        assert forall|i: int| 0 <= i < series_in_category(series, Some(cat)).len() implies
            (#[trigger] series_in_category(series, Some(cat))[i]).category_id matches Some(id) && id@ == cat by {
            if i < rr.len() {
                assert(rr[i].category_id matches Some(id) && id@ == cat);
            }
        }
    }
}

proof fn lemma_push_contains<A>(v: Seq<A>, x: A, s: A)
    ensures
        v.push(x).contains(s) <==> (v.contains(s) || x == s),
{
    if v.push(x).contains(s) {
        let i = choose|i: int| 0 <= i < v.push(x).len() && v.push(x)[i] == s;
        if i < v.len() {
            assert(v[i] == s);
        }
    }
    if v.contains(s) {
        let i = choose|i: int| 0 <= i < v.len() && v[i] == s;
        assert(v.push(x)[i] == s);
    }
    if x == s {
        assert(v.push(x)[v.len() as int] == s);
    }
}

// ---------------------------------------------------------------- main menu

/// The choice behind a main menu entry is the one its label names, with or
/// without the favourites entry; past the entries nothing is chosen.
pub proof fn law_main_menu_choice_matches_label(single: bool, i: int)
    ensures
        0 <= i < main_menu_of(single).len() && main_menu_of(single)[i] == "Favourites"@ ==>
            main_menu_choice_of(i, single) == MainMenuChoice::Favourites,
        0 <= i < main_menu_of(single).len() && main_menu_of(single)[i] == "Live TV"@ ==>
            main_menu_choice_of(i, single) == MainMenuChoice::Browse(ContentType::Live),
        0 <= i < main_menu_of(single).len() && main_menu_of(single)[i] == "Movies (VOD)"@ ==>
            main_menu_choice_of(i, single) == MainMenuChoice::Browse(ContentType::Movies),
        0 <= i < main_menu_of(single).len() && main_menu_of(single)[i] == "TV Series"@ ==>
            main_menu_choice_of(i, single) == MainMenuChoice::Browse(ContentType::Series),
        0 <= i < main_menu_of(single).len() && main_menu_of(single)[i] == "Configuration"@ ==>
            main_menu_choice_of(i, single) == MainMenuChoice::Configuration,
        0 <= i < main_menu_of(single).len() && main_menu_of(single)[i] == "Refresh Cache"@ ==>
            main_menu_choice_of(i, single) == MainMenuChoice::RefreshCache,
        i >= main_menu_of(single).len() ==> main_menu_choice_of(i, single) == MainMenuChoice::Nothing,
{
    reveal_strlit("Favourites");
    reveal_strlit("Live TV");
    reveal_strlit("Movies (VOD)");
    reveal_strlit("TV Series");
    reveal_strlit("Configuration");
    reveal_strlit("Refresh Cache");
    let m = main_menu_of(single);
    if 0 <= i < m.len() {
        let l = m[i];
        if l == "Favourites"@ || l == "Live TV"@ || l == "Movies (VOD)"@ || l == "TV Series"@
            || l == "Configuration"@ || l == "Refresh Cache"@ {
            assert("Favourites"@[0] == 'F');
            assert("Live TV"@[0] == 'L');
            assert("Movies (VOD)"@[0] == 'M');
            assert("TV Series"@[0] == 'T');
            assert("Configuration"@[0] == 'C');
            assert("Refresh Cache"@[0] == 'R');
        }
    }
}

// ---------------------------------------------------------------- hiding

/// Hiding an item that is not the last of the filter moves the selection to
/// the first later item with another name, when there is one; only when it
/// is the last (of several) does the selection go back, to the nearest
/// earlier item with another name.
pub proof fn law_hide_selects_following(filtered: Seq<usize>, names: Seq<String>, pos: nat, name: Seq<char>)
    ensures
        pos + 1 < filtered.len() && (exists|q: int| pos < q < filtered.len() && (#[trigger] names[filtered[q] as int])@ != name)
            ==> exists|q: int| {
                &&& pos < q < filtered.len()
                &&& (#[trigger] names[filtered[q] as int])@ != name
                &&& next_name_of(filtered, names, pos, name, true) == Some(names[filtered[q] as int]@)
                &&& forall|k: int| pos < k < q ==> (#[trigger] names[filtered[k] as int])@ == name
            },
        pos + 1 == filtered.len() && pos > 0 && (exists|q: int| 0 <= q < pos && (#[trigger] names[filtered[q] as int])@ != name)
            ==> exists|q: int| {
                &&& 0 <= q < pos
                &&& (#[trigger] names[filtered[q] as int])@ != name
                &&& next_name_of(filtered, names, pos, name, true) == Some(names[filtered[q] as int]@)
                &&& forall|k: int| q < k < pos ==> (#[trigger] names[filtered[k] as int])@ == name
            },
{
    if pos + 1 < filtered.len() && (exists|q: int| pos < q < filtered.len() && (#[trigger] names[filtered[q] as int])@ != name) {
        lemma_first_other(filtered, names, pos + 1, filtered.len(), name);
        let p = first_other(filtered, names, pos + 1, filtered.len(), name)->Some_0;
        assert(names[filtered[p] as int]@ != name);
    }
    if pos + 1 == filtered.len() && pos > 0 && (exists|q: int| 0 <= q < pos && (#[trigger] names[filtered[q] as int])@ != name) {
        lemma_last_other(filtered, names, pos, name);
        let p = last_other(filtered, names, pos, name)->Some_0;
        assert(names[filtered[p] as int]@ != name);
    }
}

proof fn lemma_first_other(filtered: Seq<usize>, names: Seq<String>, from: nat, to: nat, name: Seq<char>)
    ensures
        match first_other(filtered, names, from, to, name) {
            Some(p) => from <= p < to && names[filtered[p] as int]@ != name
                && forall|k: int| from <= k < p ==> (#[trigger] names[filtered[k] as int])@ == name,
            None => forall|k: int| from <= k < to ==> (#[trigger] names[filtered[k] as int])@ == name,
        },
    decreases to - from,
{
    if from < to && names[filtered[from as int] as int]@ == name {
        lemma_first_other(filtered, names, from + 1, to, name);
    }
}

proof fn lemma_last_other(filtered: Seq<usize>, names: Seq<String>, upto: nat, name: Seq<char>)
    ensures
        match last_other(filtered, names, upto, name) {
            Some(p) => 0 <= p < upto && names[filtered[p] as int]@ != name
                && forall|k: int| p < k < upto ==> (#[trigger] names[filtered[k] as int])@ == name,
            None => forall|k: int| 0 <= k < upto ==> (#[trigger] names[filtered[k] as int])@ == name,
        },
    decreases upto,
{
    if upto > 0 && names[filtered[upto - 1] as int]@ == name {
        lemma_last_other(filtered, names, (upto - 1) as nat, name);
    }
}

} // verus!
