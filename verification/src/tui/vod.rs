//! The movie details screen: the text it shows, its menu, and leaving it.
use vstd::prelude::*;
use crate::text::{byte_len, concat2, has_substring, str_contains, trim, trimmed, utf8_len};
use crate::tui::app::{keep_below, below, App, AppState, Command, ContentType, PlayKind, VodInfoState};
use crate::tui::list::{all_indices, indices_in_range};
use crate::tui::playback::{how_for, list_ext, live_or_movie, stream_url_of};
use crate::tui::wrap::{break_url, url_lines, wrap_text, wrapped};
use crate::xtream_api::{views, Category, Stream, VodInfoResponse};

verus! {

/// `prefix` and the value, when the value holds more than white space.
pub open spec fn opt_line(prefix: Seq<char>, v: Option<String>) -> Seq<Seq<char>> {
    match v {
        Some(x) => if trimmed(x@).len() > 0 { seq![prefix + x@] } else { seq![] },
        None => seq![],
    }
}

/// A title line and the trimmed value wrapped at 75 bytes with a
/// three-space indent, when the value holds more than white space.
pub open spec fn wrapped_section(title: Seq<char>, v: Option<String>, blank_after: bool) -> Seq<Seq<char>> {
    match v {
        Some(x) => {
            let t = trimmed(x@);
            if t.len() > 0 {
                seq![title] + wrapped(t, 75, "   "@) + (if blank_after { seq![seq![]] } else { seq![] })
            } else {
                seq![]
            }
        },
        None => seq![],
    }
}

/// The director: on one line, or wrapped under a title when longer than 60
/// bytes.
pub open spec fn director_section(v: Option<String>) -> Seq<Seq<char>> {
    match v {
        Some(x) => {
            let t = trimmed(x@);
            if t.len() == 0 {
                seq![]
            } else if byte_len(t) > 60 {
                seq!["Director:"@] + wrapped(t, 75, "   "@)
            } else {
                seq!["Director: "@ + t]
            }
        },
        None => seq![],
    }
}

/// The menu at the bottom of the details.
pub open spec fn vod_menu_lines() -> Seq<Seq<char>> {
    seq![
        seq![],
        "─────────────────────────────────────"@,
        seq![],
        "Actions:"@,
        seq![],
        "  > Play Movie"@,
        "  > Play in Detached Window"@,
        "  > Copy URL to Logs"@,
        "  > Back to Movies"@,
    ]
}

/// The lines of the movie details screen for a movie and its stream URL.
pub open spec fn vod_items_of(info: VodInfoResponse, url: Seq<char>) -> Seq<Seq<char>> {
    seq![info.info.name@, seq![]]
        + wrapped_section("Description:"@, info.info.plot, true)
        + opt_line("Genre: "@, info.info.genre)
        + opt_line("Release: "@, info.info.releasedate)
        + opt_line("Rating: "@, info.info.rating)
        + opt_line("Duration: "@, info.info.duration)
        + wrapped_section("Cast:"@, info.info.cast, false)
        + director_section(info.info.director)
        + seq![seq![], "Format: "@ + info.movie_data.container_extension@, seq![], "Stream URL:"@]
        + url_lines(url)
        + vod_menu_lines()
}

/// A line of the details menu (the lines that the selection moves between).
pub open spec fn is_vod_menu_item(s: Seq<char>) -> bool {
    ||| has_substring(s, "Play Movie"@)
    ||| has_substring(s, "Play in Detached"@)
    ||| has_substring(s, "Copy URL"@)
    ||| has_substring(s, "Back"@)
}

/// The indices of the menu lines, in order.
pub open spec fn vod_menu_indices(items: Seq<String>, upto: nat) -> Seq<usize>
    decreases upto,
{
    if upto == 0 || upto > items.len() {
        seq![]
    } else {
        let rest = vod_menu_indices(items, (upto - 1) as nat);
        if is_vod_menu_item(items[upto - 1]@) { rest.push((upto - 1) as usize) } else { rest }
    }
}

pub(crate) fn push_lines(items: &mut Vec<String>, more: Vec<String>)
    ensures
        views(final(items)@) == views(old(items)@) + views(more@),
{
    let ghost start = items@;
    let ghost m = more@;
    let mut more = more;
    let mut rev: Vec<String> = Vec::new();
    while more.len() > 0
        invariant
            rev@.len() + more@.len() == m.len(),
            forall|j: int| 0 <= j < rev@.len() ==> #[trigger] rev@[j] == m[m.len() - 1 - j],
            more@ == m.subrange(0, more@.len() as int),
        decreases more@.len(),
    {
        let x = more.pop().unwrap();
        rev.push(x);
    }
    let n = rev.len();
    while rev.len() > 0
        invariant
            rev@.len() <= n == m.len(),
            forall|j: int| 0 <= j < rev@.len() ==> #[trigger] rev@[j] == m[m.len() - 1 - j],
            views(items@) == views(start) + views(m.subrange(0, n - rev@.len())),
        decreases rev@.len(),
    {
        let ghost k = n - rev@.len();
        let ghost r0 = rev@;
        assert(r0[r0.len() - 1] == m[m.len() - 1 - (r0.len() - 1)]);
        let x = rev.pop().unwrap();
        assert(x == m[k]);
        let ghost i0 = items@;
        items.push(x);
        proof {
            assert(views(items@) =~= views(i0).push(m[k]@));
            assert(views(m.subrange(0, k + 1)) =~= views(m.subrange(0, k)).push(m[k]@));
            assert(views(items@) =~= views(start) + views(m.subrange(0, k + 1)));
        }
    }
    assert(m.subrange(0, n as int) =~= m);
}

fn push_opt_line(items: &mut Vec<String>, prefix: &str, v: &Option<String>)
    ensures
        views(final(items)@) == views(old(items)@) + opt_line(prefix@, *v),
{
    match v {
        Some(x) => {
            let t = trim(x.as_str());
            if t.unicode_len() > 0 {
                items.push(concat2(prefix, x.as_str()));
                assert(views(items@) =~= views(old(items)@) + opt_line(prefix@, *v));
            } else {
                assert(views(items@) =~= views(old(items)@) + opt_line(prefix@, *v));
            }
        },
        None => {
            assert(views(items@) =~= views(old(items)@) + opt_line(prefix@, *v));
        },
    }
}

fn push_wrapped(items: &mut Vec<String>, text: &str)
    ensures
        views(final(items)@) == views(old(items)@) + wrapped(text@, 75, "   "@),
{
    let lines = wrap_text(text, 75, "   ");
    assert(views(lines@) =~= lines@.map_values(|s: String| s@));
    push_lines(items, lines);
}

fn push_wrapped_section(items: &mut Vec<String>, title: &str, v: &Option<String>, blank_after: bool)
    ensures
        views(final(items)@) == views(old(items)@) + wrapped_section(title@, *v, blank_after),
{
    match v {
        Some(x) => {
            let t = trim(x.as_str());
            if t.unicode_len() > 0 {
                items.push(String::from_str(title));
                let ghost mid = views(items@);
                push_wrapped(items, t.as_str());
                if blank_after {
                    let ghost before = views(items@);
                    items.push(String::new());
                    assert(views(items@) =~= before.push(seq![]));
                }
                assert(views(items@) =~= views(old(items)@) + wrapped_section(title@, *v, blank_after));
            } else {
                assert(views(items@) =~= views(old(items)@) + wrapped_section(title@, *v, blank_after));
            }
        },
        None => {
            assert(views(items@) =~= views(old(items)@) + wrapped_section(title@, *v, blank_after));
        },
    }
}

fn push_director(items: &mut Vec<String>, v: &Option<String>)
    ensures
        views(final(items)@) == views(old(items)@) + director_section(*v),
{
    match v {
        Some(x) => {
            let t = trim(x.as_str());
            if t.unicode_len() == 0 {
                assert(views(items@) =~= views(old(items)@) + director_section(*v));
            } else if utf8_len(t.as_str()) > 60 {
                items.push(String::from_str("Director:"));
                push_wrapped(items, t.as_str());
                assert(views(items@) =~= views(old(items)@) + director_section(*v));
            } else {
                items.push(concat2("Director: ", t.as_str()));
                assert(views(items@) =~= views(old(items)@) + director_section(*v));
            }
        },
        None => {
            assert(views(items@) =~= views(old(items)@) + director_section(*v));
        },
    }
}

/// The lines of the movie details screen.
pub fn vod_items(info: &VodInfoResponse, url: &str) -> (r: Vec<String>)
    ensures
        views(r@) == vod_items_of(*info, url@),
{
    let mut items: Vec<String> = Vec::new();
    items.push(info.info.name.clone());
    items.push(String::new());
    let ghost a0 = seq![info.info.name@, Seq::<char>::empty()];
    assert(views(items@) =~= a0);
    push_wrapped_section(&mut items, "Description:", &info.info.plot, true);
    push_opt_line(&mut items, "Genre: ", &info.info.genre);
    push_opt_line(&mut items, "Release: ", &info.info.releasedate);
    push_opt_line(&mut items, "Rating: ", &info.info.rating);
    push_opt_line(&mut items, "Duration: ", &info.info.duration);
    push_wrapped_section(&mut items, "Cast:", &info.info.cast, false);
    push_director(&mut items, &info.info.director);
    let ghost a1 = views(items@);
    items.push(String::new());
    items.push(concat2("Format: ", info.movie_data.container_extension.as_str()));
    items.push(String::new());
    items.push(String::from_str("Stream URL:"));
    assert(views(items@) =~= a1 + seq![Seq::<char>::empty(), "Format: "@ + info.movie_data.container_extension@, Seq::<char>::empty(), "Stream URL:"@]);
    let lines = break_url(url);
    assert(views(lines@) =~= lines@.map_values(|s: String| s@));
    push_lines(&mut items, lines);
    let ghost a2 = views(items@);
    items.push(String::new());
    items.push(String::from_str("─────────────────────────────────────"));
    items.push(String::new());
    items.push(String::from_str("Actions:"));
    items.push(String::new());
    items.push(String::from_str("  > Play Movie"));
    items.push(String::from_str("  > Play in Detached Window"));
    items.push(String::from_str("  > Copy URL to Logs"));
    items.push(String::from_str("  > Back to Movies"));
    assert(views(items@) =~= a2 + vod_menu_lines());
    assert(views(items@) =~= vod_items_of(*info, url@));
    items
}

fn is_menu_item(s: &str) -> (r: bool)
    ensures
        r == is_vod_menu_item(s@),
{
    str_contains(s, "Play Movie") || str_contains(s, "Play in Detached") || str_contains(s, "Copy URL") || str_contains(s, "Back")
}

/// The indices of the details menu lines.
pub fn vod_menu_positions(items: &Vec<String>) -> (r: Vec<usize>)
    ensures
        r@ == vod_menu_indices(items@, items@.len()),
        indices_in_range(r@, items@.len()),
{
    let mut out: Vec<usize> = Vec::new();
    let mut i: usize = 0;
    while i < items.len()
        invariant
            i <= items@.len(),
            out@ == vod_menu_indices(items@, i as nat),
            indices_in_range(out@, i as nat),
        decreases items@.len() - i,
    {
        if is_menu_item(items[i].as_str()) {
            out.push(i);
        }
        i = i + 1;
    }
    out
}

impl App {
    /// Starts loading the details of a movie; the list to return to goes
    /// with the request.
    pub fn load_vod_info_with_state(&mut self, stream: Stream, saved_filter: String, saved_selected: usize,
        saved_filtered_indices: Vec<usize>, saved_scroll: usize, saved_items: Vec<String>) -> (r: Option<Command>)
        requires
            old(self).wf(),
        ensures
            final(self).wf(),
            final(self).state matches AppState::Loading(m) && m@ == "Loading info for: "@ + stream.name@,
            old(self).current_api is None ==> r is None,
            old(self).current_api is Some ==> (r matches Some(Command::FetchVodInfo(v))
                && v.stream == stream && v.saved_filter == saved_filter && v.saved_selected == saved_selected
                && v.saved_filtered_indices == saved_filtered_indices && v.saved_scroll == saved_scroll
                && v.saved_items == saved_items && v.content_scroll == 0),
            final(self).list == old(self).list,
            crate::tui::app::logged(old(self).logs@, final(self).logs@,
                seq!["Fetching VOD info for: "@ + stream.name@, "Connecting to server..."@, "Requesting movie details..."@]),
    {
        self.state = AppState::Loading(concat2("Loading info for: ", stream.name.as_str()));
        let ghost l0 = self.logs@;
        self.add_log(concat2("Fetching VOD info for: ", stream.name.as_str()));
        let ghost l1 = self.logs@;
        self.add_log(String::from_str("Connecting to server..."));
        let ghost l2 = self.logs@;
        self.add_log(String::from_str("Requesting movie details..."));
        proof {
            crate::tui::app::lemma_logged_three(l0, l1, l2, self.logs@, "Fetching VOD info for: "@ + stream.name@,
                "Connecting to server..."@, "Requesting movie details..."@);
        }
        if self.current_api.is_none() {
            return None;
        }
        Some(Command::FetchVodInfo(VodInfoState {
            stream,
            saved_filter,
            saved_selected,
            saved_filtered_indices,
            saved_scroll,
            saved_items,
            content_scroll: 0,
        }))
    }

    /// The details of a movie arrived: the details screen shows, with its
    /// `Play Movie` action line selected (the fourth line from the end); the list to return to keeps only filter entries
    /// within it. When the download failed the movie is played directly.
    pub fn vod_info_loaded(&mut self, pending: VodInfoState, result: Result<VodInfoResponse, String>) -> (r: Option<Command>)
        requires
            old(self).wf(),
        ensures
            final(self).wf(),
            result matches Ok(info) ==> {
                &&& r is None
                &&& final(self).vod_info == Some(info)
                &&& final(self).state matches AppState::VodInfo(v) && v.stream == pending.stream
                    && v.saved_items@ == pending.saved_items@
                    && v.saved_filtered_indices@ == below(pending.saved_filtered_indices@, pending.saved_items@.len())
                    && v.content_scroll == 0
                &&& views(final(self).list.items@) == vod_items_of(info, match old(self).current_api {
                    Some(api) => stream_url_of(api, pending.stream.stream_id, "movie"@, Some(info.movie_data.container_extension@)),
                    None => seq![],
                })
                &&& final(self).list.selected_index as int == final(self).list.items@.len() - 4
                &&& final(self).list.scroll_offset == 0
            },
            result matches Ok(info) ==> crate::tui::app::logged(old(self).logs@, final(self).logs@, seq![
                "Successfully loaded movie information"@, "Ready to play: "@ + info.info.name@,
                "Use ↑↓ to navigate menu, PgUp/PgDn/Space/Shift+Space to scroll content"@]),
            result matches Err(e) ==> {
                &&& final(self).state == old(self).state
                &&& final(self).list == old(self).list
                &&& old(self).current_api is None ==> r is None && crate::tui::app::logged(old(self).logs@, final(self).logs@,
                    seq!["Failed to load VOD info: "@ + e@, "Falling back to direct playback..."@, "Playing: "@ + pending.stream.name@])
                &&& old(self).current_api matches Some(api) ==> (r matches Some(Command::Play { url, how, kind, name })
                    && url@ == stream_url_of(api, pending.stream.stream_id, live_or_movie(pending.stream.stream_type@),
                        list_ext(pending.stream, old(self).config.settings.use_ts_for_live))
                    && how == how_for(old(self).config.settings.play_mode) && kind == PlayKind::Stream && name@ == pending.stream.name@
                    && crate::tui::app::logged(old(self).logs@, final(self).logs@, seq!["Failed to load VOD info: "@ + e@,
                        "Falling back to direct playback..."@, "Playing: "@ + pending.stream.name@, "Stream URL: "@ + url@]))
            },
    {
        let ghost l0 = self.logs@;
        match result {
            Ok(info) => {
                self.add_log(String::from_str("Successfully loaded movie information"));
                let ghost l1 = self.logs@;
                let url = match &self.current_api {
                    Some(api) => api.get_stream_url(pending.stream.stream_id, "movie", Some(info.movie_data.container_extension.as_str())),
                    None => String::new(),
                };
                let items = vod_items(&info, url.as_str());
                proof {
                    assert(vod_menu_lines().len() == 9);
                    assert(views(items@).len() == items@.len());
                    assert(items@.len() >= 9);
                }
                self.list.set_items(items);
                let n = pending.saved_items.len();
                let saved_filtered = keep_below(&pending.saved_filtered_indices, n);
                let name = info.info.name.clone();
                self.vod_info = Some(info);
                self.state = AppState::VodInfo(VodInfoState {
                    stream: pending.stream,
                    saved_filter: pending.saved_filter,
                    saved_selected: pending.saved_selected,
                    saved_filtered_indices: saved_filtered,
                    saved_scroll: pending.saved_scroll,
                    saved_items: pending.saved_items,
                    content_scroll: 0,
                });
                self.list.selected_index = self.list.items.len() - 4;
                self.list.scroll_offset = 0;
                assert(self.logs@ == l1);
                self.add_log(concat2("Ready to play: ", name.as_str()));
                let ghost l2 = self.logs@;
                self.add_log(String::from_str("Use ↑↓ to navigate menu, PgUp/PgDn/Space/Shift+Space to scroll content"));
                proof {
                    crate::tui::app::lemma_logged_three(l0, l1, l2, self.logs@, "Successfully loaded movie information"@,
                        "Ready to play: "@ + name@, "Use ↑↓ to navigate menu, PgUp/PgDn/Space/Shift+Space to scroll content"@);
                }
                None
            },
            Err(e) => {
                self.add_log(concat2("Failed to load VOD info: ", e.as_str()));
                let ghost l1 = self.logs@;
                self.add_log(String::from_str("Falling back to direct playback..."));
                let ghost l2 = self.logs@;
                proof {
                    crate::tui::app::lemma_logged_two(l0, l1, l2, "Failed to load VOD info: "@ + e@, "Falling back to direct playback..."@);
                }
                let r = self.play_stream(&pending.stream);
                let ghost rr = r;
                proof {
                    let first = seq!["Failed to load VOD info: "@ + e@, "Falling back to direct playback..."@];
                    let playing = seq!["Playing: "@ + pending.stream.name@];
                    match rr {
                        Some(Command::Play { url, .. }) => {
                            let more = seq!["Playing: "@ + pending.stream.name@, "Stream URL: "@ + url@];
                            crate::tui::app::lemma_logged_then(l0, l2, self.logs@, first, more);
                            assert(first + more =~= seq!["Failed to load VOD info: "@ + e@, "Falling back to direct playback..."@,
                                "Playing: "@ + pending.stream.name@, "Stream URL: "@ + url@]);
                        },
                        _ => {
                            crate::tui::app::lemma_logged_then(l0, l2, self.logs@, first, playing);
                            assert(first + playing =~= seq!["Failed to load VOD info: "@ + e@, "Falling back to direct playback..."@,
                                "Playing: "@ + pending.stream.name@]);
                        },
                    }
                }
                r
            },
        }
    }

    /// Leaves the details for the movie list they came from: its items,
    /// filter, selection and scroll position return; the category is the
    /// movie's (`All` when it is not among the categories).
    pub fn leave_vod_info(&mut self)
        requires
            old(self).wf(),
            old(self).state is VodInfo,
        ensures
            final(self).wf(),
            final(self).logs == old(self).logs,
            old(self).state matches AppState::VodInfo(v) ==> {
                &&& final(self).state matches AppState::StreamSelection(ct, _) && ct == ContentType::Movies
                &&& final(self).list.items@ == v.saved_items@
                &&& final(self).list.search_query@ == v.saved_filter@
                &&& final(self).list.selected_index == v.saved_selected
                &&& final(self).list.filtered_indices@ == v.saved_filtered_indices@
                &&& final(self).list.scroll_offset == v.saved_scroll
            },
    {
        let mut st = AppState::MainMenu;
        core::mem::swap(&mut st, &mut self.state);
        match st {
            AppState::VodInfo(v) => {
                let mut category: Option<Category> = None;
                let mut k: usize = 0;
                while k < self.categories.len()
                    decreases self.categories@.len() - k,
                {
                    let matches = match &v.stream.category_id {
                        Some(c) => crate::text::str_eq(c.as_str(), self.categories[k].category_id.as_str()),
                        None => false,
                    };
                    if matches && category.is_none() {
                        category = Some(self.categories[k].clone());
                    }
                    k = k + 1;
                }
                let category = match category {
                    Some(c) => c,
                    None => Category::all(),
                };
                self.state = AppState::StreamSelection(ContentType::Movies, category);
                self.list.items = v.saved_items;
                self.list.search_query = v.saved_filter;
                self.list.selected_index = v.saved_selected;
                self.list.filtered_indices = v.saved_filtered_indices;
                self.list.scroll_offset = v.saved_scroll;
                if self.list.search_query.unicode_len() > 0 {
                    self.list.status_message = Some(crate::text::concat3("Filtered: \"", self.list.search_query.as_str(), "\" (Press '/' to search again)"));
                }
            },
            other => {
                self.state = other;
            },
        }
    }
}

} // verus!
