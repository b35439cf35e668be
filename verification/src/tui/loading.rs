//! Streams, seasons, episodes, favourites and movie details arriving in the
//! TUI, and the playback requests made from them.
use vstd::prelude::*;
use crate::config::{PlayMode, ProviderConfig};
use crate::ignore::IgnoreConfig;
use crate::text::{concat2, concat3, decimal, parse_u32, parse_u32_spec, str_eq, u64_to_string};
use crate::tui::app::{logged, visible_streams, App, AppState, Command, ContentType, TuiSeason};
use crate::tui::list::{all_indices, indices_in_range};
use crate::favourites::{add_favourite_to, contains_favourite, favourite_added, favourite_removed, has_favourite_id, list_has_favourite, list_has_favourite_id, opt_list_view, remove_favourite_from};
use crate::text::str_starts_with;
use crate::xtream_api::{views, ApiEpisode, Category, FavouriteStream, SeriesInfoResponse, Stream};

verus! {

/// The stream names, in order.
pub open spec fn stream_names_of(streams: Seq<Stream>) -> Seq<Seq<char>> {
    streams.map_values(|s: Stream| s.name@)
}

/// The names of the streams, in order.
pub fn stream_names(streams: &Vec<Stream>) -> (r: Vec<String>)
    ensures
        views(r@) == stream_names_of(streams@),
{
    let mut out: Vec<String> = Vec::new();
    let mut i: usize = 0;
    while i < streams.len()
        invariant
            i <= streams@.len(),
            views(out@) == stream_names_of(streams@.subrange(0, i as int)),
        decreases streams@.len() - i,
    {
        let ghost before = out@;
        out.push(streams[i].name.clone());
        proof {
            assert(views(out@) =~= views(before).push(streams@[i as int].name@));
            assert(stream_names_of(streams@.subrange(0, i + 1)) =~= stream_names_of(streams@.subrange(0, i as int)).push(streams@[i as int].name@));
        }
        i = i + 1;
    }
    assert(streams@.subrange(0, streams@.len() as int) =~= streams@);
    out
}

/// Whether every index lies below `n`.
pub fn all_below(v: &Vec<usize>, n: usize) -> (r: bool)
    ensures
        r == indices_in_range(v@, n as nat),
{
    let mut i: usize = 0;
    while i < v.len()
        invariant
            i <= v@.len(),
            forall|j: int| 0 <= j < i ==> v@[j] < n,
        decreases v@.len() - i,
    {
        if v[i] >= n {
            return false;
        }
        i = i + 1;
    }
    true
}

/// Two stream lists hold the same streams (list fields compared by contents).
pub open spec fn same_streams(a: Seq<Stream>, b: Seq<Stream>) -> bool {
    &&& a.len() == b.len()
    &&& forall|i: int| 0 <= i < a.len() ==> (#[trigger] a[i]).same_as(b[i])
}

/// The list entry of a stream: its name, after `marker` when some favourite
/// has the stream's id.
pub open spec fn stream_item_of(s: Stream, favourites: Seq<FavouriteStream>, marker: Seq<char>) -> Seq<char> {
    if has_favourite_id(favourites, s.stream_id) { marker + s.name@ } else { s.name@ }
}

/// The list entries of streams.
pub open spec fn stream_items_of(streams: Seq<Stream>, favourites: Seq<FavouriteStream>, marker: Seq<char>) -> Seq<Seq<char>> {
    streams.map_values(|s: Stream| stream_item_of(s, favourites, marker))
}

/// The list entries of streams, favourites marked with `marker`.
pub fn stream_items(streams: &Vec<Stream>, favourites: &Vec<FavouriteStream>, marker: &str) -> (r: Vec<String>)
    ensures
        views(r@) == stream_items_of(streams@, favourites@, marker@),
{
    let mut out: Vec<String> = Vec::new();
    let mut i: usize = 0;
    while i < streams.len()
        invariant
            i <= streams@.len(),
            views(out@) == stream_items_of(streams@.subrange(0, i as int), favourites@, marker@),
        decreases streams@.len() - i,
    {
        let ghost before = out@;
        let item = if list_has_favourite_id(favourites, streams[i].stream_id) {
            concat2(marker, streams[i].name.as_str())
        } else {
            streams[i].name.clone()
        };
        out.push(item);
        proof {
            assert(views(out@) =~= views(before).push(stream_item_of(streams@[i as int], favourites@, marker@)));
            assert(stream_items_of(streams@.subrange(0, i + 1), favourites@, marker@)
                =~= stream_items_of(streams@.subrange(0, i as int), favourites@, marker@).push(stream_item_of(streams@[i as int], favourites@, marker@)));
        }
        i = i + 1;
    }
    assert(streams@.subrange(0, streams@.len() as int) =~= streams@);
    out
}

/// A copy of the streams.
pub fn copy_streams(v: &Vec<Stream>) -> (r: Vec<Stream>)
    ensures
        same_streams(r@, v@),
{
    let mut r: Vec<Stream> = Vec::new();
    let mut i: usize = 0;
    while i < v.len()
        invariant
            i <= v@.len(),
            same_streams(r@, v@.subrange(0, i as int)),
        decreases v@.len() - i,
    {
        r.push(v[i].clone());
        i = i + 1;
    }
    r
}

proof fn lemma_visible_same(a: Seq<Stream>, b: Seq<Stream>, ignore: IgnoreConfig)
    requires
        same_streams(a, b),
    ensures
        same_streams(visible_streams(a, ignore), visible_streams(b, ignore)),
    decreases a.len(),
{
    if a.len() > 0 {
        assert(same_streams(a.drop_last(), b.drop_last()));
        lemma_visible_same(a.drop_last(), b.drop_last(), ignore);
        assert(a.last().same_as(b.last()));
    }
}

/// The channels that are not hidden, in order (copies).
pub fn filter_streams(streams: &Vec<Stream>, ignore: &IgnoreConfig) -> (r: Vec<Stream>)
    ensures
        same_streams(r@, visible_streams(streams@, *ignore)),
{
    let mut out: Vec<Stream> = Vec::new();
    let mut i: usize = 0;
    while i < streams.len()
        invariant
            i <= streams@.len(),
            same_streams(out@, visible_streams(streams@.subrange(0, i as int), *ignore)),
        decreases streams@.len() - i,
    {
        assert(streams@.subrange(0, i + 1).drop_last() =~= streams@.subrange(0, i as int));
        if !ignore.is_channel_ignored(streams[i].name.as_str()) {
            out.push(streams[i].clone());
        }
        i = i + 1;
    }
    assert(streams@.subrange(0, streams@.len() as int) =~= streams@);
    out
}

fn find_cached_streams(v: &Vec<(ContentType, String, Vec<Stream>)>, ct: ContentType, id: &str) -> (r: Option<usize>)
    ensures
        r matches Some(i) ==> first_cached_at(v@, ct, id@, i as int),
        r is None ==> forall|i: int| 0 <= i < v@.len() ==> !(v@[i].0 == ct && v@[i].1@ == id@),
{
    let mut i: usize = 0;
    while i < v.len()
        invariant
            i <= v@.len(),
            forall|j: int| 0 <= j < i ==> !(v@[j].0 == ct && v@[j].1@ == id@),
        decreases v@.len() - i,
    {
        if v[i].0 == ct && str_eq(v[i].1.as_str(), id) {
            return Some(i);
        }
        i = i + 1;
    }
    None
}

/// Whether downloaded streams of a content type and category are kept.
pub open spec fn streams_cached(v: Seq<(ContentType, String, Vec<Stream>)>, ct: ContentType, id: Seq<char>) -> bool {
    exists|i: int| 0 <= i < v.len() && v[i].0 == ct && v[i].1@ == id
}

/// The entry at `i` is the first one kept for this content type and category.
pub open spec fn first_cached_at(v: Seq<(ContentType, String, Vec<Stream>)>, ct: ContentType, id: Seq<char>, i: int) -> bool {
    &&& 0 <= i < v.len()
    &&& v[i].0 == ct
    &&& v[i].1@ == id
    &&& forall|j: int| 0 <= j < i ==> !((#[trigger] v[j]).0 == ct && v[j].1@ == id)
}

/// The streams kept for a content type and category: those of the first
/// entry for them.
pub open spec fn cached_streams_for(v: Seq<(ContentType, String, Vec<Stream>)>, ct: ContentType, id: Seq<char>) -> Seq<Stream> {
    v[choose|i: int| first_cached_at(v, ct, id, i)].2@
}

proof fn lemma_first_cached_unique(v: Seq<(ContentType, String, Vec<Stream>)>, ct: ContentType, id: Seq<char>, i: int)
    requires
        first_cached_at(v, ct, id, i),
    ensures
        cached_streams_for(v, ct, id) == v[i].2@,
{
    let k = choose|k: int| first_cached_at(v, ct, id, k);
    assert(first_cached_at(v, ct, id, k));
    if k < i {
        assert(!(v[k].0 == ct && v[k].1@ == id));
    } else if i < k {
        assert(!(v[i].0 == ct && v[i].1@ == id));
    }
}

proof fn lemma_same_streams_trans(a: Seq<Stream>, b: Seq<Stream>, c: Seq<Stream>)
    requires
        same_streams(a, b),
        same_streams(b, c),
    ensures
        same_streams(a, c),
{
    assert forall|i: int| 0 <= i < a.len() implies (#[trigger] a[i]).same_as(c[i]) by {
        assert(a[i].same_as(b[i]));
        assert(b[i].same_as(c[i]));
    }
}

impl App {
    /// Shows streams: live channels that are hidden are left out, favourites
    /// are marked, the filter is reset, and the remembered position is put
    /// back when asked.
    fn show_streams(&mut self, ct: ContentType, category: Category, streams: Vec<Stream>, favourites: &Vec<FavouriteStream>,
        marker: &str, restore_nav: bool)
        requires
            old(self).wf(),
        ensures
            final(self).wf(),
            final(self).state == AppState::StreamSelection(ct, category),
            ct == ContentType::Live ==> same_streams(final(self).streams@, visible_streams(streams@, old(self).ignore_config)),
            ct != ContentType::Live ==> final(self).streams@ == streams@,
            views(final(self).list.items@) == stream_items_of(final(self).streams@, favourites@, marker@),
            final(self).ignore_config == old(self).ignore_config,
            final(self).cached_streams == old(self).cached_streams,
            final(self).current_api == old(self).current_api,
            final(self).pending_adjust == old(self).pending_adjust,
            !restore_nav ==> final(self).list.filtered_indices@ == all_indices(final(self).list.items@.len()),
            final(self).logs == old(self).logs,
    {
        if ct == ContentType::Live {
            self.streams = filter_streams(&streams, &self.ignore_config);
        } else {
            self.streams = streams;
        }
        let items = stream_items(&self.streams, favourites, marker);
        self.list.set_items(items);
        self.state = AppState::StreamSelection(ct, category.clone());
        if restore_nav {
            self.restore_navigation_state(&AppState::StreamSelection(ct, category));
        }
    }

    /// Opens the streams of a category: from the downloaded ones when there
    /// are some and no refresh is forced (favourites marked `[FAV] `, as
    /// after a download); else the loading screen shows and the download is
    /// asked for (when connected).
    /// `favourites` are the current provider's.
    pub fn load_streams(&mut self, ct: ContentType, category: Category, force_refresh: bool, restore_nav: bool,
        favourites: Vec<FavouriteStream>) -> (r: Option<Command>)
        requires
            old(self).wf(),
        ensures
            final(self).wf(),
            final(self).ignore_config == old(self).ignore_config,
            final(self).current_api == old(self).current_api,
            (!force_refresh && streams_cached(old(self).cached_streams@, ct, category.category_id@)) ==> {
                &&& r is None
                &&& final(self).state == AppState::StreamSelection(ct, category)
                &&& ct == ContentType::Live ==> same_streams(final(self).streams@,
                    visible_streams(cached_streams_for(old(self).cached_streams@, ct, category.category_id@), old(self).ignore_config))
                &&& ct != ContentType::Live ==> same_streams(final(self).streams@,
                    cached_streams_for(old(self).cached_streams@, ct, category.category_id@))
                &&& views(final(self).list.items@) == stream_items_of(final(self).streams@, favourites@, "[FAV] "@)
            },
            (force_refresh || !streams_cached(old(self).cached_streams@, ct, category.category_id@)) ==> {
                &&& final(self).state matches AppState::Loading(m) && m@ == "Loading streams from "@ + category.category_name@ + "..."@
                &&& old(self).current_api is Some ==> (r matches Some(Command::FetchStreams { content_type, category: c, restore_nav: rn, favourites: f })
                    && content_type == ct && c == category && rn == restore_nav && f == favourites)
                &&& old(self).current_api is None ==> r is None
                &&& final(self).list == old(self).list
            },
            (!force_refresh && streams_cached(old(self).cached_streams@, ct, category.category_id@)) ==>
                logged(old(self).logs@, final(self).logs@, seq!["Using cached streams for "@ + category.category_name@]),
            (force_refresh || !streams_cached(old(self).cached_streams@, ct, category.category_id@)) ==>
                logged(old(self).logs@, final(self).logs@, seq!["Loading streams from category: "@ + category.category_name@]),
    {
        if !force_refresh {
            match find_cached_streams(&self.cached_streams, ct, category.category_id.as_str()) {
                Some(i) => {
                    let cached = copy_streams(&self.cached_streams[i].2);
                    let ghost kept = self.cached_streams@[i as int].2@;
                    proof {
                        lemma_first_cached_unique(self.cached_streams@, ct, category.category_id@, i as int);
                        lemma_visible_same(cached@, kept, self.ignore_config);
                    }
                    let name = category.category_name.clone();
                    self.show_streams(ct, category, cached, &favourites, "[FAV] ", restore_nav);
                    proof {
                        if ct == ContentType::Live {
                            lemma_same_streams_trans(self.streams@, visible_streams(cached@, self.ignore_config), visible_streams(kept, self.ignore_config));
                        }
                    }
                    self.add_log(concat2("Using cached streams for ", name.as_str()));
                    self.finish_pending_adjust();
                    return None;
                },
                None => {},
            }
        }
        self.state = AppState::Loading(concat3("Loading streams from ", category.category_name.as_str(), "..."));
        self.add_log(concat2("Loading streams from category: ", category.category_name.as_str()));
        if self.current_api.is_some() {
            Some(Command::FetchStreams { content_type: ct, category, restore_nav, favourites })
        } else {
            None
        }
    }

    /// The streams of a category arrived (or their download failed). They
    /// are kept for later, and shown with favourites marked `[FAV] `.
    pub fn streams_loaded(&mut self, ct: ContentType, category: Category, restore_nav: bool,
        favourites: Vec<FavouriteStream>, result: Result<Vec<Stream>, String>)
        requires
            old(self).wf(),
        ensures
            final(self).wf(),
            final(self).ignore_config == old(self).ignore_config,
            final(self).current_api == old(self).current_api,
            result matches Ok(streams) ==> {
                &&& final(self).state == AppState::StreamSelection(ct, category)
                &&& ct == ContentType::Live ==> same_streams(final(self).streams@, visible_streams(streams@, old(self).ignore_config))
                &&& ct != ContentType::Live ==> final(self).streams@ == streams@
                &&& views(final(self).list.items@) == stream_items_of(final(self).streams@, favourites@, "[FAV] "@)
                &&& exists|i: int| 0 <= i < final(self).cached_streams@.len() && final(self).cached_streams@[i].0 == ct
                    && final(self).cached_streams@[i].1@ == category.category_id@
                    && same_streams(final(self).cached_streams@[i].2@, streams@)
            },
            result matches Err(e) ==> final(self).state matches AppState::Error(m) && m@ == "Failed to load streams: "@ + e@,
            result is Ok ==> logged(old(self).logs@, final(self).logs@, seq!["Loaded "@ + decimal(final(self).streams@.len()) + " streams"@]),
            result matches Err(e) ==> logged(old(self).logs@, final(self).logs@, seq!["Failed to load streams: "@ + e@]),
    {
        match result {
            Ok(streams) => {
                let ghost sv = streams@;
                let copy = copy_streams(&streams);
                let id = category.category_id.clone();
                let idx: usize = match find_cached_streams(&self.cached_streams, ct, id.as_str()) {
                    Some(i) => {
                        self.cached_streams.set(i, (ct, id, copy));
                        i
                    },
                    None => {
                        self.cached_streams.push((ct, id, copy));
                        self.cached_streams.len() - 1
                    },
                };
                assert(same_streams(self.cached_streams@[idx as int].2@, sv));
                self.show_streams(ct, category, streams, &favourites, "[FAV] ", restore_nav);
                let n = u64_to_string(self.streams.len() as u64);
                self.add_log(concat3("Loaded ", n.as_str(), " streams"));
                self.finish_pending_adjust();
                assert(self.cached_streams@[idx as int].0 == ct);
                assert(same_streams(self.cached_streams@[idx as int].2@, sv));
            },
            Err(e) => {
                self.state = AppState::Error(concat2("Failed to load streams: ", e.as_str()));
                self.add_log(concat2("Failed to load streams: ", e.as_str()));
                self.finish_pending_adjust();
            },
        }
    }
}

/// The seasons listed for the season groups of a series: the number read
/// from the group key (0 when it is not a number), `Season <key>` and the
/// number of episodes.
pub open spec fn seasons_match(seasons: Seq<TuiSeason>, groups: Seq<(String, Vec<ApiEpisode>)>) -> bool {
    &&& seasons.len() == groups.len()
    &&& forall|i: int| 0 <= i < seasons.len() ==> {
        &&& (#[trigger] seasons[i]).season_number == (match parse_u32_spec(groups[i].0@) { Some(n) => n, None => 0 })
        &&& seasons[i].name@ == "Season "@ + groups[i].0@
        &&& seasons[i].episode_count == groups[i].1@.len()
    }
}

/// The list entries of seasons: `<name> (<n> episodes)`.
pub open spec fn season_items_of(seasons: Seq<TuiSeason>) -> Seq<Seq<char>> {
    seasons.map_values(|s: TuiSeason| s.name@ + " ("@ + decimal(s.episode_count as nat) + " episodes)"@)
}

/// The list entries of episodes: `Episode <n>: <title>`.
pub open spec fn episode_items_of(eps: Seq<ApiEpisode>) -> Seq<Seq<char>> {
    eps.map_values(|e: ApiEpisode| "Episode "@ + decimal(e.episode_num as nat) + ": "@ + e.title@)
}

/// The first season group with the given key.
pub open spec fn group_index(groups: Seq<(String, Vec<ApiEpisode>)>, key: Seq<char>) -> Option<int>
    decreases groups.len(),
{
    if groups.len() == 0 {
        None
    } else {
        match group_index(groups.drop_last(), key) {
            Some(i) => Some(i),
            None => if groups.last().0@ == key { Some(groups.len() - 1) } else { None },
        }
    }
}

/// The list entry of a favourite: `[<type>] <name> [<provider>]`.
pub open spec fn favourite_item_of(f: FavouriteStream, p: ProviderConfig) -> Seq<char> {
    "["@ + f.stream_type@ + "] "@ + f.name@ + " ["@ + p.label_of() + "]"@
}

/// The list entries of favourites of every provider.
pub open spec fn favourite_items_of(favs: Seq<(FavouriteStream, ProviderConfig)>) -> Seq<Seq<char>> {
    favs.map_values(|fp: (FavouriteStream, ProviderConfig)| favourite_item_of(fp.0, fp.1))
}

fn seasons_of(groups: &Vec<(String, Vec<ApiEpisode>)>) -> (r: Vec<TuiSeason>)
    ensures
        seasons_match(r@, groups@),
{
    let mut out: Vec<TuiSeason> = Vec::new();
    let mut i: usize = 0;
    while i < groups.len()
        invariant
            i <= groups@.len(),
            seasons_match(out@, groups@.subrange(0, i as int)),
        decreases groups@.len() - i,
    {
        let key = &groups[i].0;
        let number = match parse_u32(key.as_str()) {
            Some(n) => n,
            None => 0,
        };
        out.push(TuiSeason { season_number: number, name: concat2("Season ", key.as_str()), episode_count: groups[i].1.len() });
        i = i + 1;
    }
    assert(groups@.subrange(0, groups@.len() as int) =~= groups@);
    out
}

fn season_items(seasons: &Vec<TuiSeason>) -> (r: Vec<String>)
    ensures
        views(r@) == season_items_of(seasons@),
{
    let mut out: Vec<String> = Vec::new();
    let mut i: usize = 0;
    while i < seasons.len()
        invariant
            i <= seasons@.len(),
            views(out@) == season_items_of(seasons@.subrange(0, i as int)),
        decreases seasons@.len() - i,
    {
        let ghost before = out@;
        let n = u64_to_string(seasons[i].episode_count as u64);
        let a = concat3(seasons[i].name.as_str(), " (", n.as_str());
        out.push(concat2(a.as_str(), " episodes)"));
        proof {
            assert(views(out@) =~= views(before).push(out@.last()@));
            assert(season_items_of(seasons@.subrange(0, i + 1)) =~= season_items_of(seasons@.subrange(0, i as int)).push(out@.last()@));
        }
        i = i + 1;
    }
    assert(seasons@.subrange(0, seasons@.len() as int) =~= seasons@);
    out
}

fn episode_items(eps: &Vec<ApiEpisode>) -> (r: Vec<String>)
    ensures
        views(r@) == episode_items_of(eps@),
{
    let mut out: Vec<String> = Vec::new();
    let mut i: usize = 0;
    while i < eps.len()
        invariant
            i <= eps@.len(),
            views(out@) == episode_items_of(eps@.subrange(0, i as int)),
        decreases eps@.len() - i,
    {
        let ghost before = out@;
        let n = u64_to_string(eps[i].episode_num as u64);
        let a = concat3("Episode ", n.as_str(), ": ");
        out.push(concat2(a.as_str(), eps[i].title.as_str()));
        proof {
            assert(views(out@) =~= views(before).push(out@.last()@));
            assert(episode_items_of(eps@.subrange(0, i + 1)) =~= episode_items_of(eps@.subrange(0, i as int)).push(out@.last()@));
        }
        i = i + 1;
    }
    assert(eps@.subrange(0, eps@.len() as int) =~= eps@);
    out
}

fn find_group(groups: &Vec<(String, Vec<ApiEpisode>)>, key: &str) -> (r: Option<usize>)
    ensures
        match r {
            Some(i) => group_index(groups@, key@) == Some(i as int) && i < groups@.len(),
            None => group_index(groups@, key@) is None,
        },
{
    let mut i: usize = 0;
    while i < groups.len()
        invariant
            i <= groups@.len(),
            group_index(groups@.subrange(0, i as int), key@) is None,
        decreases groups@.len() - i,
    {
        assert(groups@.subrange(0, i + 1).drop_last() =~= groups@.subrange(0, i as int));
        if str_eq(groups[i].0.as_str(), key) {
            proof { lemma_group_index_prefix(groups@, i + 1, key@); }
            return Some(i);
        }
        i = i + 1;
    }
    assert(groups@.subrange(0, groups@.len() as int) =~= groups@);
    None
}

proof fn lemma_group_index_prefix(groups: Seq<(String, Vec<ApiEpisode>)>, k: int, key: Seq<char>)
    requires
        0 < k <= groups.len(),
        group_index(groups.subrange(0, k), key) is Some,
    ensures
        group_index(groups, key) == group_index(groups.subrange(0, k), key),
    decreases groups.len() - k,
{
    if k < groups.len() {
        assert(groups.subrange(0, k + 1).drop_last() =~= groups.subrange(0, k));
        lemma_group_index_prefix(groups, k + 1, key);
    } else {
        assert(groups.subrange(0, k) =~= groups);
    }
}

fn favourite_items(favs: &Vec<(FavouriteStream, ProviderConfig)>) -> (r: Vec<String>)
    ensures
        views(r@) == favourite_items_of(favs@),
{
    let mut out: Vec<String> = Vec::new();
    let mut i: usize = 0;
    while i < favs.len()
        invariant
            i <= favs@.len(),
            views(out@) == favourite_items_of(favs@.subrange(0, i as int)),
        decreases favs@.len() - i,
    {
        let ghost before = out@;
        let (f, p) = (&favs[i].0, &favs[i].1);
        let label = p.label();
        let a = concat3("[", f.stream_type.as_str(), "] ");
        let b = concat3(a.as_str(), f.name.as_str(), " [");
        out.push(concat3(b.as_str(), label.as_str(), "]"));
        proof {
            assert(views(out@) =~= views(before).push(favourite_item_of(favs@[i as int].0, favs@[i as int].1)));
            assert(favourite_items_of(favs@.subrange(0, i + 1)) =~= favourite_items_of(favs@.subrange(0, i as int)).push(favourite_item_of(favs@[i as int].0, favs@[i as int].1)));
        }
        i = i + 1;
    }
    assert(favs@.subrange(0, favs@.len() as int) =~= favs@);
    out
}

impl App {
    /// Starts loading the seasons of a series (when connected).
    pub fn load_seasons(&mut self, series: Stream) -> (r: Option<Command>)
        requires
            old(self).wf(),
        ensures
            final(self).wf(),
            final(self).state matches AppState::Loading(m) && m@ == "Loading seasons for "@ + series.name@ + "..."@,
            old(self).current_api is Some ==> (r matches Some(Command::FetchSeasons(s)) && s == series),
            old(self).current_api is None ==> r is None,
            final(self).list == old(self).list,
            logged(old(self).logs@, final(self).logs@, seq!["Loading seasons for: "@ + series.name@]),
    {
        self.state = AppState::Loading(concat3("Loading seasons for ", series.name.as_str(), "..."));
        self.add_log(concat2("Loading seasons for: ", series.name.as_str()));
        if self.current_api.is_some() { Some(Command::FetchSeasons(series)) } else { None }
    }

    /// The details of a series arrived: its season groups become the season
    /// list (none when it has no episodes).
    pub fn seasons_loaded(&mut self, series: Stream, result: Result<SeriesInfoResponse, String>)
        requires
            old(self).wf(),
        ensures
            final(self).wf(),
            result matches Ok(info) ==> {
                &&& final(self).state == AppState::SeasonSelection(series)
                &&& (info.episodes matches Some(groups) ==> seasons_match(final(self).seasons@, groups@))
                &&& (info.episodes is None ==> final(self).seasons@.len() == 0)
                &&& views(final(self).list.items@) == season_items_of(final(self).seasons@)
            },
            result matches Err(e) ==> final(self).state matches AppState::Error(m) && m@ == "Failed to load seasons: "@ + e@,
            result is Ok ==> logged(old(self).logs@, final(self).logs@, seq!["Loaded "@ + decimal(final(self).seasons@.len()) + " seasons"@]),
            result matches Err(e) ==> logged(old(self).logs@, final(self).logs@, seq!["Failed to load seasons: "@ + e@]),
    {
        match result {
            Ok(info) => {
                self.seasons = match &info.episodes {
                    Some(groups) => seasons_of(groups),
                    None => Vec::new(),
                };
                let items = season_items(&self.seasons);
                self.list.set_items(items);
                let nav_key = AppState::SeasonSelection(series.clone());
                self.state = AppState::SeasonSelection(series);
                self.restore_navigation_state(&nav_key);
                let n = u64_to_string(self.seasons.len() as u64);
                self.add_log(concat3("Loaded ", n.as_str(), " seasons"));
            },
            Err(e) => {
                self.state = AppState::Error(concat2("Failed to load seasons: ", e.as_str()));
                self.add_log(concat2("Failed to load seasons: ", e.as_str()));
            },
        }
    }

    /// Starts loading the episodes of a season (when connected).
    pub fn load_episodes(&mut self, series: Stream, season: TuiSeason) -> (r: Option<Command>)
        requires
            old(self).wf(),
        ensures
            final(self).wf(),
            final(self).state matches AppState::Loading(m) && m@ == "Loading episodes for "@ + season.name@ + "..."@,
            old(self).current_api is Some ==> (r matches Some(Command::FetchEpisodes(s, t)) && s == series && t == season),
            old(self).current_api is None ==> r is None,
            final(self).list == old(self).list,
            logged(old(self).logs@, final(self).logs@, seq!["Loading episodes for "@ + series.name@ + " - "@ + season.name@]),
    {
        self.state = AppState::Loading(concat3("Loading episodes for ", season.name.as_str(), "..."));
        let a = concat3("Loading episodes for ", series.name.as_str(), " - ");
        self.add_log(concat2(a.as_str(), season.name.as_str()));
        if self.current_api.is_some() { Some(Command::FetchEpisodes(series, season)) } else { None }
    }

    /// The details of a series arrived for a season: the episodes of the
    /// group whose key is the season number become the list, starting at
    /// the first; without such a group an error shows.
    pub fn episodes_loaded(&mut self, series: Stream, season: TuiSeason, result: Result<SeriesInfoResponse, String>)
        requires
            old(self).wf(),
        ensures
            final(self).wf(),
            result matches Ok(info) ==> match info.episodes {
                Some(groups) => match group_index(groups@, decimal(season.season_number as nat)) {
                    Some(i) => {
                        &&& final(self).state == AppState::EpisodeSelection(series, season)
                        &&& final(self).episodes@ == groups@[i].1@
                        &&& views(final(self).list.items@) == episode_items_of(final(self).episodes@)
                        &&& final(self).list.selected_index == 0
                        &&& final(self).list.scroll_offset == 0
                    },
                    None => final(self).state matches AppState::Error(m) && m@ == "No episodes found for this season"@,
                },
                None => final(self).state matches AppState::Error(m) && m@ == "No episodes available"@,
            },
            result matches Err(e) ==> final(self).state matches AppState::Error(m) && m@ == "Failed to load episodes: "@ + e@,
            result matches Err(e) ==> logged(old(self).logs@, final(self).logs@, seq!["Failed to load episodes: "@ + e@]),
            result matches Ok(info) ==> logged(old(self).logs@, final(self).logs@, match info.episodes {
                Some(groups) => match group_index(groups@, decimal(season.season_number as nat)) {
                    Some(i) => seq!["Loaded "@ + decimal(final(self).episodes@.len()) + " episodes"@],
                    None => seq![],
                },
                None => seq![],
            }),
    {
        proof { crate::tui::app::lemma_logged_nothing(self.logs@); }
        match result {
            Ok(info) => {
                match info.episodes {
                    Some(groups) => {
                        let key = u64_to_string(season.season_number as u64);
                        match find_group(&groups, key.as_str()) {
                            Some(i) => {
                                let mut groups = groups;
                                let (_, eps) = groups.remove(i);
                                let items = episode_items(&eps);
                                self.episodes = eps;
                                self.list.set_items(items);
                                self.state = AppState::EpisodeSelection(series, season);
                                self.list.selected_index = 0;
                                self.list.scroll_offset = 0;
                                let n = u64_to_string(self.episodes.len() as u64);
                                self.add_log(concat3("Loaded ", n.as_str(), " episodes"));
                            },
                            None => {
                                self.state = AppState::Error(String::from_str("No episodes found for this season"));
                            },
                        }
                    },
                    None => {
                        self.state = AppState::Error(String::from_str("No episodes available"));
                    },
                }
            },
            Err(e) => {
                self.state = AppState::Error(concat2("Failed to load episodes: ", e.as_str()));
                self.add_log(concat2("Failed to load episodes: ", e.as_str()));
            },
        }
    }

    /// Starts reading the favourites of every provider.
    pub fn load_all_favourites(&mut self) -> (r: Command)
        requires
            old(self).wf(),
        ensures
            final(self).wf(),
            final(self).state matches AppState::Loading(m) && m@ == "Loading all favourites..."@,
            final(self).current_provider_name matches Some(n) && n@ == "Favourites"@,
            r matches Command::LoadAllFavourites,
            final(self).list == old(self).list,
            logged(old(self).logs@, final(self).logs@, seq!["Loading favourites from all providers"@]),
    {
        self.state = AppState::Loading(String::from_str("Loading all favourites..."));
        self.add_log(String::from_str("Loading favourites from all providers"));
        self.current_provider_name = Some(String::from_str("Favourites"));
        Command::LoadAllFavourites
    }

    /// The favourites of every provider were read (`Err` when the
    /// favourites could not be reached at all); `messages` are the problems
    /// met on the way, logged in order. With no favourite an error shows.
    pub fn all_favourites_loaded(&mut self, result: Result<(Vec<(FavouriteStream, ProviderConfig)>, Vec<String>), String>)
        requires
            old(self).wf(),
        ensures
            final(self).wf(),
            result matches Err(e) ==> final(self).state matches AppState::Error(m) && m@ == "Failed to access favourites: "@ + e@,
            result matches Ok((favs, _)) ==> {
                &&& favs@.len() == 0 ==> (final(self).state matches AppState::Error(m) && m@ == "No favourites found across any provider"@)
                &&& favs@.len() > 0 ==> {
                    &&& final(self).state is CrossProviderFavourites
                    &&& final(self).cross_provider_favourites@ == favs@
                    &&& views(final(self).list.items@) == favourite_items_of(favs@)
                }
            },
            result is Err ==> logged(old(self).logs@, final(self).logs@, seq![]),
            result matches Ok((favs, messages)) ==> logged(old(self).logs@, final(self).logs@, views(messages@)
                + if favs@.len() > 0 { seq!["Loaded "@ + decimal(favs@.len()) + " favourites"@] } else { seq![] }),
    {
        proof { crate::tui::app::lemma_logged_nothing(self.logs@); }
        let ghost l0 = self.logs@;
        match result {
            Err(e) => {
                self.state = AppState::Error(concat2("Failed to access favourites: ", e.as_str()));
            },
            Ok((favs, messages)) => {
                let ghost mv = views(messages@);
                self.add_logs(messages);
                let ghost l1 = self.logs@;
                if favs.len() == 0 {
                    assert(mv + seq![] =~= mv);
                    self.state = AppState::Error(String::from_str("No favourites found across any provider"));
                    return;
                }
                let items = favourite_items(&favs);
                self.cross_provider_favourites = favs;
                self.list.set_items(items);
                self.state = AppState::CrossProviderFavourites;
                self.restore_navigation_state(&AppState::CrossProviderFavourites);
                assert(views(self.list.items@).len() == favs@.len());
                assert(self.logs@ == l1);
                let n = u64_to_string(self.list.items.len() as u64);
                self.add_log(concat3("Loaded ", n.as_str(), " favourites"));
                proof {
                    crate::tui::app::lemma_logged_then(l0, l1, self.logs@, mv, seq!["Loaded "@ + decimal(favs@.len()) + " favourites"@]);
                }
            },
        }
    }

    /// Adds the stream to the current provider's favourites `current`, or
    /// removes it when a favourite of its id and type is there; returns the list to
    /// save (nothing without a connection). The selected entry gains or
    /// loses its `[FAV] ` mark, and the favourites of every provider must be
    /// read again.
    pub fn toggle_favourite(&mut self, stream: &Stream, current: Vec<FavouriteStream>, added_date: String) -> (r: Option<Vec<FavouriteStream>>)
        requires
            old(self).wf(),
        ensures
            final(self).wf(),
            final(self).state == old(self).state,
            final(self).list.items@.len() == old(self).list.items@.len(),
            old(self).current_api is None ==> r is None && final(self).list == old(self).list,
            old(self).current_api matches Some(api) ==> {
                &&& contains_favourite(current@, stream.stream_id, stream.stream_type@) ==> opt_list_view(r) == Some(favourite_removed(current@, stream.stream_id, stream.stream_type@))
                &&& !contains_favourite(current@, stream.stream_id, stream.stream_type@) ==> opt_list_view(r) == favourite_added(current@, FavouriteStream {
                    stream_id: stream.stream_id,
                    name: stream.name,
                    stream_type: stream.stream_type,
                    provider_hash: api.provider_hash,
                    added_date: added_date,
                    category_id: stream.category_id,
                })
                &&& final(self).cross_provider_favourites@.len() == 0
                &&& forall|k: int| 0 <= k < old(self).list.items@.len() && k != old(self).list.selected_index
                    ==> #[trigger] final(self).list.items@[k] == old(self).list.items@[k]
                &&& old(self).list.selected_index < old(self).list.items@.len() ==> {
                    let old_item = old(self).list.items@[old(self).list.selected_index as int]@;
                    let new_item = final(self).list.items@[old(self).list.selected_index as int]@;
                    let marked = old_item.len() >= 6 && old_item.subrange(0, 6) == "[FAV] "@;
                    &&& contains_favourite(current@, stream.stream_id, stream.stream_type@) ==> new_item == (if marked { old_item.subrange(6, old_item.len() as int) } else { old_item })
                    &&& !contains_favourite(current@, stream.stream_id, stream.stream_type@) ==> new_item == (if marked { old_item } else { "[FAV] "@ + old_item })
                }
            },
            old(self).current_api is None ==> logged(old(self).logs@, final(self).logs@, seq![]),
            old(self).current_api is Some ==> logged(old(self).logs@, final(self).logs@, seq![
                if contains_favourite(current@, stream.stream_id, stream.stream_type@) { "Removed "@ + stream.name@ + " from favourites"@ }
                else { "Added "@ + stream.name@ + " to favourites"@ }]),
    {
        proof { crate::tui::app::lemma_logged_nothing(self.logs@); }
        let hash = match &self.current_api {
            Some(api) => api.provider_hash.clone(),
            None => return None,
        };
        let sel = self.list.selected_index;
        proof { reveal_strlit("[FAV] "); }
        if list_has_favourite(&current, stream.stream_id, stream.stream_type.as_str()) {
            let updated = remove_favourite_from(current, stream.stream_id, stream.stream_type.as_str());
            self.add_log(concat3("Removed ", stream.name.as_str(), " from favourites"));
            self.cross_provider_favourites = Vec::new();
            if sel < self.list.items.len() && str_starts_with(self.list.items[sel].as_str(), "[FAV] ") {
                let item = &self.list.items[sel];
                let n = item.as_str().unicode_len();
                let rest = item.as_str().substring_char(6, n).to_owned();
                self.list.items.set(sel, rest);
            }
            Some(updated)
        } else {
            let favourite = FavouriteStream {
                stream_id: stream.stream_id,
                name: stream.name.clone(),
                stream_type: stream.stream_type.clone(),
                provider_hash: hash,
                added_date,
                category_id: stream.category_id.clone(),
            };
            let updated = add_favourite_to(current, favourite);
            self.add_log(concat3("Added ", stream.name.as_str(), " to favourites"));
            self.cross_provider_favourites = Vec::new();
            if sel < self.list.items.len() && !str_starts_with(self.list.items[sel].as_str(), "[FAV] ") {
                let marked = concat2("[FAV] ", self.list.items[sel].as_str());
                self.list.items.set(sel, marked);
            }
            updated
        }
    }
}

} // verus!
