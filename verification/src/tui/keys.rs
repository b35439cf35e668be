//! What a key press does in each screen of the TUI.
use vstd::prelude::*;
use crate::text::{concat2, concat3, has_substring, str_contains, str_eq};
use crate::tui::adjust::{ignore_anchor, min_int, sat_sub};
use crate::tui::list::{all_indices, find_position, page_size, position_of, refiltered, search_status_of};
use crate::tui::vod::vod_menu_indices;
use crate::xtream_api::{FavouriteStream, Stream};
use crate::config::ProviderConfig;
use crate::tui::app::{
    main_menu_choice, main_menu_of, provider_labels, Action, App, AppState, Command, ContentType, KeyCode, KeyInput,
    LogDisplayMode, MainMenuChoice, PendingIgnoreAdjust,
};
use crate::ignore::toggled;
use crate::tui::loading::{all_below, stream_names};
use crate::tui::playback::{menu_opened, opt_as_str, played_movie, played_stream, stream_url_of};
use crate::tui::screens::category_names;
use crate::tui::vod::vod_menu_positions;
use crate::xtream_api::{views, Category};

verus! {

/// The keys that move the selection: arrows and `k`/`j`, page up and down,
/// home and `H`, end and `G`.
pub open spec fn is_nav_key(code: KeyCode) -> bool {
    ||| code == KeyCode::Up
    ||| code == KeyCode::Char('k')
    ||| code == KeyCode::Down
    ||| code == KeyCode::Char('j')
    ||| code == KeyCode::PageUp
    ||| code == KeyCode::PageDown
    ||| code == KeyCode::Home
    ||| code == KeyCode::Char('H')
    ||| code == KeyCode::End
    ||| code == KeyCode::Char('G')
}

/// `Esc` or `b`: back.
pub open spec fn is_back_key(code: KeyCode) -> bool {
    code == KeyCode::Esc || code == KeyCode::Char('b')
}

/// Nothing asked of the program loop.
pub open spec fn quiet(r: (Option<Action>, Vec<Command>)) -> bool {
    r.0 is None && r.1@.len() == 0
}

fn none() -> (r: (Option<Action>, Vec<Command>))
    ensures
        quiet(r),
{
    (None, Vec::new())
}

fn one(c: Command) -> (r: (Option<Action>, Vec<Command>))
    ensures
        r.0 is None,
        r.1@ == seq![c],
{
    let mut v: Vec<Command> = Vec::new();
    v.push(c);
    (None, v)
}

fn maybe(c: Option<Command>) -> (r: (Option<Action>, Vec<Command>))
    ensures
        r.0 is None,
        c is None ==> r.1@.len() == 0,
        c matches Some(x) ==> r.1@ == seq![x],
{
    match c {
        Some(x) => one(x),
        None => none(),
    }
}

/// What `error_key` does with a key: Enter or Esc leaves the error for the
/// main menu, or for the provider list when no provider is connected.
pub open spec fn error_keyed(before: App, after: App, code: KeyCode, r: (Option<Action>, Vec<Command>)) -> bool {
    &&& quiet(r)
    &&& after.logs == before.logs
    &&& (code == KeyCode::Enter || code == KeyCode::Esc) && before.current_api is None ==> after.state is ProviderSelection
    &&& (code == KeyCode::Enter || code == KeyCode::Esc) && before.current_api is Some ==> after.state is MainMenu
        && views(after.list.items@) == main_menu_of(before.config.providers@.len() == 1)
    &&& !(code == KeyCode::Enter || code == KeyCode::Esc) ==> after == before
}

/// What `provider_selection_key` does with a key: Enter on the first entry
/// loads the favourites of every provider, on a provider connects to it;
/// Esc quits; other keys move the selection or do nothing.
pub open spec fn provider_selection_keyed(before: App, after: App, code: KeyCode, r: (Option<Action>, Vec<Command>)) -> bool {
    let sel = before.list.selected_index as int;
    &&& is_nav_key(code) ==> quiet(r) && after.state == before.state
    &&& code != KeyCode::Esc ==> r.0 is None
    &&& code == KeyCode::Esc ==> r.0 == Some(Action::Quit) && r.1@.len() == 0 && after == before
    &&& code == KeyCode::Enter && sel == 0 ==> r.0 is None && r.1@ == seq![Command::LoadAllFavourites]
        && (after.state matches AppState::Loading(m) && m@ == "Loading all favourites..."@)
        && (after.current_provider_name matches Some(n) && n@ == "Favourites"@)
        && crate::tui::app::logged(before.logs@, after.logs@, seq!["Loading favourites from all providers"@])
    &&& code == KeyCode::Enter && 0 < sel <= before.config.providers@.len() ==> ({
        let p = before.config.providers@[sel - 1];
        &&& r.0 is None
        &&& r.1@ == seq![Command::Connect(p)]
        &&& after.state matches AppState::Loading(m) && m@ == "Connecting to "@ + p.label_of() + "..."@
        &&& crate::tui::app::logged(before.logs@, after.logs@, seq!["Connecting to provider: "@ + p.label_of()])
    })
    &&& code == KeyCode::Enter && sel > before.config.providers@.len() ==> quiet(r) && after == before
    &&& !is_nav_key(code) && code != KeyCode::Esc && code != KeyCode::Enter ==> quiet(r) && after == before
}

/// What `main_menu_key` does with a key: Enter acts on the chosen entry
/// (favourites, a content type's categories, the configuration, refreshing
/// the cache); Esc or `b` goes back to the provider list, or quits with a
/// single provider; other keys move the selection or do nothing.
pub open spec fn main_menu_keyed(before: App, after: App, code: KeyCode, r: (Option<Action>, Vec<Command>)) -> bool {
    &&& is_nav_key(code) ==> quiet(r) && after.state == before.state
    &&& r.0 is Some ==> r.0 == Some(Action::Quit) || r.0 == Some(Action::CacheRefresh)
    &&& is_back_key(code) && before.config.providers@.len() > 1 ==> quiet(r) && after.state is ProviderSelection
        && views(after.list.items@) == provider_labels(before.config.providers@)
    &&& is_back_key(code) && before.config.providers@.len() <= 1 ==> r.0 == Some(Action::Quit) && r.1@.len() == 0 && after == before
    &&& code == KeyCode::Enter ==> match main_menu_choice_of_app(before) {
        MainMenuChoice::Favourites => r.1@ == seq![Command::LoadAllFavourites] && r.0 is None
            && (after.state matches AppState::Loading(m) && m@ == "Loading all favourites..."@)
            && crate::tui::app::logged(before.logs@, after.logs@, seq!["Loading favourites from all providers"@]),
        MainMenuChoice::Browse(ct) => r.0 is None && r.1@.len() <= 1
            && crate::tui::screens::categories_opened(before, after, ct, false, true, single_command(r)),
        MainMenuChoice::Configuration => quiet(r) && after.state is Configuration
            && views(after.list.items@) == crate::tui::screens::config_items_of(before.config.settings)
            && after.logs == before.logs,
        MainMenuChoice::RefreshCache => r.0 == Some(Action::CacheRefresh) && r.1@.len() == 0,
        MainMenuChoice::Nothing => quiet(r),
    }
    &&& !is_nav_key(code) && !is_back_key(code) && code != KeyCode::Enter ==> quiet(r) && after == before
}

/// What `category_key` does with a key: `i` hides or shows the category,
/// `r` downloads the categories again, Enter opens the category's streams,
/// Esc or `b` clears the search or goes back to the main menu; other keys
/// move the selection or do nothing.
pub open spec fn category_keyed(before: App, after: App, ct: ContentType, code: KeyCode, r: (Option<Action>, Vec<Command>)) -> bool {
    let sel = before.list.selected_index as int;
    &&& r.0 is None
    &&& is_nav_key(code) ==> r.1@.len() == 0 && after.state == before.state
    &&& code == KeyCode::Char('i') ==> category_ignore_toggled(before, after, ct, r.1)
    &&& code == KeyCode::Char('r') ==> {
        &&& after.state matches AppState::Loading(m) && m@ == "Loading "@ + ct.label_of() + " categories..."@
        &&& before.current_api is Some ==> r.1@ == seq![Command::FetchCategories { content_type: ct, restore_nav: true }]
        &&& before.current_api is None ==> r.1@.len() == 0
        &&& crate::tui::app::logged(before.logs@, after.logs@, seq!["Refreshing categories..."@, "Loading "@ + ct.label_of() + " categories"@])
    }
    &&& code == KeyCode::Enter && sel < before.categories@.len() ==>
        r.1@ == seq![Command::LoadStreams { content_type: ct, category: before.categories@[sel], force_refresh: false, restore_nav: true }]
        && after.state == before.state && after.list == before.list && after.logs == before.logs
    &&& code == KeyCode::Enter && sel >= before.categories@.len() ==> quiet(r) && after == before
    &&& is_back_key(code) && before.list.search_query@.len() > 0 ==> quiet(r)
        && after.state == before.state && after.list.search_query@.len() == 0
        && after.list.filtered_indices@ == all_indices(before.list.items@.len()) && after.list.items@ == before.list.items@
    &&& is_back_key(code) && before.list.search_query@.len() == 0 ==> quiet(r) && after.state is MainMenu
        && views(after.list.items@) == main_menu_of(before.config.providers@.len() == 1)
    &&& !is_nav_key(code) && !is_back_key(code) && code != KeyCode::Char('i') && code != KeyCode::Char('r')
        && code != KeyCode::Enter ==> quiet(r) && after == before
}

/// The command of a key press that asks for at most one.
pub open spec fn single_command(r: (Option<Action>, Vec<Command>)) -> Option<Command> {
    if r.1@.len() == 0 { None } else { Some(r.1@[0]) }
}

/// What `stream_key` does with a key: `r` refreshes, `f` toggles the
/// favourite, `i` hides or shows a live channel, Enter opens a series,
/// loads a movie's details or plays a channel, `d` plays a channel or movie
/// in an independent window, `a` opens the advanced menu of a channel, Esc
/// or `b` clears the search or goes back to the
/// categories; other keys move the selection or do nothing.
pub open spec fn stream_keyed(before: App, after: App, ct: ContentType, category: Category, code: KeyCode, r: (Option<Action>, Vec<Command>)) -> bool {
    let sel = before.list.selected_index as int;
    let n = before.streams@.len();
    &&& r.0 is None
    &&& is_nav_key(code) ==> r.1@.len() == 0 && after.state == before.state
    &&& code == KeyCode::Char('r') ==> r.1@ == seq![Command::LoadStreams { content_type: ct, category: category, force_refresh: true, restore_nav: true }]
        && after.state == before.state && after.list == before.list
        && crate::tui::app::logged(before.logs@, after.logs@, seq!["Refreshing streams..."@])
    &&& code == KeyCode::Char('f') && sel < n ==> after == before
        && r.1@.len() == 1 && (r.1@[0] matches Command::ToggleFavourite(s) && s.same_as(before.streams@[sel]))
    &&& code == KeyCode::Char('i') && ct == ContentType::Live && sel < n ==> ({
        let name = before.streams@[sel].name@;
        let msg = "Channel '"@ + name + (if before.ignore_config.channel_set().contains(name) { "' will be shown"@ } else { "' will be hidden"@ });
        &&& r.1@ == seq![Command::SaveIgnoreConfig, Command::LoadStreams { content_type: ct, category: category, force_refresh: false, restore_nav: false }]
        &&& after.ignore_config.channel_set() == toggled(before.ignore_config.channel_set(), name)
        &&& after.ignore_config.category_set() == before.ignore_config.category_set()
        &&& after.state == before.state
        &&& crate::tui::app::logged(before.logs@, after.logs@, seq!["Toggling ignore for channel '"@ + name + "'"@, msg])
        &&& after.list.status_message matches Some(m) && m@ == msg
    })
    &&& code == KeyCode::Enter && sel < n && ct == ContentType::Series ==> ({
        let name = before.streams@[sel].name@;
        &&& after.state matches AppState::Loading(m) && m@ == "Loading seasons for "@ + name + "..."@
        &&& after.list == before.list
        &&& before.current_api is Some ==> r.1@.len() == 1 && (r.1@[0] matches Command::FetchSeasons(s) && s.same_as(before.streams@[sel]))
        &&& before.current_api is None ==> r.1@.len() == 0
        &&& crate::tui::app::logged(before.logs@, after.logs@, seq!["Loading seasons for: "@ + name])
    })
    &&& code == KeyCode::Enter && sel < n && ct == ContentType::Movies ==> ({
        let name = before.streams@[sel].name@;
        &&& after.state matches AppState::Loading(m) && m@ == "Loading info for: "@ + name
        &&& after.list == before.list
        &&& before.current_api is Some ==> r.1@.len() == 1 && (r.1@[0] matches Command::FetchVodInfo(v)
            && v.stream.same_as(before.streams@[sel]) && v.saved_filter@ == before.list.search_query@
            && v.saved_selected == sel && v.saved_filtered_indices@ == before.list.filtered_indices@
            && v.saved_scroll == before.list.scroll_offset && v.saved_items@ == before.list.items@ && v.content_scroll == 0)
        &&& before.current_api is None ==> r.1@.len() == 0
        &&& crate::tui::app::logged(before.logs@, after.logs@,
            seq!["Fetching VOD info for: "@ + name, "Connecting to server..."@, "Requesting movie details..."@])
    })
    &&& code == KeyCode::Enter && sel < n && ct == ContentType::Live ==> r.1@.len() <= 1
        && played_stream(before, after, before.streams@[sel], single_command(r))
    &&& code == KeyCode::Enter && sel >= n ==> quiet(r) && after == before
    &&& code == KeyCode::Char('d') && sel < n && ct != ContentType::Series ==> r.1@.len() <= 1
        && crate::tui::playback::played_detached(before, after, before.streams@[sel], single_command(r))
    &&& code == KeyCode::Char('d') && !(sel < n && ct != ContentType::Series) ==> quiet(r) && after == before
    &&& code == KeyCode::Char('a') && ct == ContentType::Live && sel < n ==> quiet(r)
        && (exists|s: Stream| #[trigger] menu_opened(before, after, s, ct) && s.same_as(before.streams@[sel]))
        && crate::tui::app::logged(before.logs@, after.logs@, seq!["Advanced menu opened"@])
    &&& is_back_key(code) && before.list.search_query@.len() > 0 ==> r.1@.len() == 0
        && after.state == before.state && after.list.search_query@.len() == 0
    &&& is_back_key(code) && before.list.search_query@.len() == 0 ==> r.1@.len() <= 1
        && crate::tui::screens::categories_opened(before, after, ct, false, true, single_command(r))
    &&& !is_nav_key(code) && !is_back_key(code) && code != KeyCode::Char('r') && code != KeyCode::Char('f')
        && code != KeyCode::Char('i') && code != KeyCode::Enter && code != KeyCode::Char('a') && code != KeyCode::Char('d') ==> quiet(r) && after == before
}

/// What `vod_info_key` does with a key.
pub open spec fn vod_info_keyed(before: App, after: App, key: KeyInput, r: (Option<Action>, Vec<Command>)) -> bool {
    &&& r.0 is None
    &&& ({
        let menu = vod_menu_indices(before.list.items@, before.list.items@.len());
        (key.code == KeyCode::Up || key.code == KeyCode::Char('k')) ==> quiet(r) && after.state == before.state
        && after.list.selected_index == vod_menu_move(menu, before.list.selected_index, true)
        })
    &&& ({
        let menu = vod_menu_indices(before.list.items@, before.list.items@.len());
        (key.code == KeyCode::Down || key.code == KeyCode::Char('j')) ==> quiet(r) && after.state == before.state
        && after.list.selected_index == vod_menu_move(menu, before.list.selected_index, false)
        })
    &&& (key.code == KeyCode::PageUp || (key.code == KeyCode::Char(' ') && key.shift)) ==> quiet(r) && after.list == before.list
        && content_scroll_of(after.state) == sat_sub(content_scroll_of(before.state) as int, page_size(before.list.visible_height as int))
    &&& (key.code == KeyCode::PageDown || (key.code == KeyCode::Char(' ') && !key.shift)) ==> quiet(r) && after.list == before.list
        && content_scroll_of(after.state) == vod_page_down(content_scroll_of(before.state) as int,
        before.list.items@.len() as int, before.list.visible_height as int)
    &&& (key.code == KeyCode::Home || key.code == KeyCode::Char('H')) ==> quiet(r) && content_scroll_of(after.state) == 0
    &&& is_back_key(key.code) ==> quiet(r) && (after.state matches AppState::StreamSelection(ct, _) && ct == ContentType::Movies)
    &&& (key.code == KeyCode::End || key.code == KeyCode::Char('G')) ==> quiet(r) && after.list == before.list
        && content_scroll_of(after.state) == sat_sub(before.list.items@.len() as int,
            min_int(page_size(before.list.visible_height as int), before.list.items@.len() as int))
    &&& key.code == KeyCode::Enter && before.list.selected_index >= before.list.items@.len() ==> quiet(r) && after == before
    &&& key.code == KeyCode::Enter && before.list.selected_index < before.list.items@.len() ==> ({
        let item = before.list.items@[before.list.selected_index as int]@;
        let play = has_substring(item, "Play Movie"@) && !has_substring(item, "Detached"@);
        let detached = !play && has_substring(item, "Play in Detached Window"@);
        let copy = !play && !detached && has_substring(item, "Copy URL"@);
        let back = !play && !detached && !copy && has_substring(item, "Back"@);
        &&& match before.state {
            AppState::VodInfo(v) => {
                &&& play ==> r.0 is None && r.1@.len() <= 1 && played_movie(before, after, v.stream, false, single_command(r))
                &&& detached ==> r.0 is None && r.1@.len() <= 1 && played_movie(before, after, v.stream, true, single_command(r))
                &&& copy && before.current_api is None ==> quiet(r) && after == before
                &&& copy && before.current_api is Some ==> quiet(r)
                    && after.state == before.state
                    && (after.list.status_message matches Some(m) && m@ == "URL copied to logs!"@)
                    && crate::tui::app::logged(before.logs@, after.logs@, seq!["Stream URL copied: "@ + stream_url_of(before.current_api->Some_0,
                        v.stream.stream_id, "movie"@, match before.vod_info { Some(info) => Some(info.movie_data.container_extension@), None => None })])
            },
            _ => true,
        }
        &&& back ==> quiet(r) && (after.state matches AppState::StreamSelection(ct, _) && ct == ContentType::Movies)
        &&& !play && !detached && !copy && !back ==> quiet(r) && after == before
    })
    &&& !(key.code == KeyCode::Up || key.code == KeyCode::Char('k') || key.code == KeyCode::Down || key.code == KeyCode::Char('j')
        || key.code == KeyCode::PageUp || key.code == KeyCode::PageDown || key.code == KeyCode::Char(' ')
        || key.code == KeyCode::Home || key.code == KeyCode::Char('H') || key.code == KeyCode::End || key.code == KeyCode::Char('G')
        || key.code == KeyCode::Enter || is_back_key(key.code)) ==> quiet(r) && after == before
}

/// The stream has the category id `id`.
pub open spec fn in_category(s: Stream, id: Seq<char>) -> bool {
    match s.category_id {
        Some(c) => c@ == id,
        None => false,
    }
}

/// Some listed stream has the category id `id`.
pub open spec fn lists_category(streams: Seq<Stream>, id: Seq<char>) -> bool {
    exists|j: int| 0 <= j < streams.len() && in_category(#[trigger] streams[j], id)
}

/// The position of the first of the first `upto` categories that some
/// listed stream has.
pub open spec fn first_listed_category(cats: Seq<Category>, streams: Seq<Stream>, upto: nat) -> Option<int>
    decreases upto,
{
    if upto == 0 {
        None
    } else {
        match first_listed_category(cats, streams, (upto - 1) as nat) {
            Some(i) => Some(i),
            None => if lists_category(streams, cats[upto - 1].category_id@) { Some(upto - 1) } else { None },
        }
    }
}

/// The series category to go back to from the seasons: the first category
/// that holds one of the listed series, else `All`.
pub open spec fn back_category_ok(c: Category, cats: Seq<Category>, streams: Seq<Stream>) -> bool {
    match first_listed_category(cats, streams, cats.len()) {
        Some(i) => c == cats[i],
        None => c.category_id@ == "all"@ && c.category_name@ == "All"@ && c.parent_id is None,
    }
}

/// What `season_key` does with a key: Enter loads the season's episodes,
/// Esc or `b` goes back to the series list; other keys move the selection
/// or do nothing.
pub open spec fn season_keyed(before: App, after: App, series: Stream, code: KeyCode, r: (Option<Action>, Vec<Command>)) -> bool {
    let sel = before.list.selected_index as int;
    &&& r.0 is None
    &&& is_nav_key(code) ==> r.1@.len() == 0 && after.state == before.state
    &&& code == KeyCode::Enter && sel < before.seasons@.len() ==> ({
        let season = before.seasons@[sel];
        &&& after.state matches AppState::Loading(m) && m@ == "Loading episodes for "@ + season.name@ + "..."@
        &&& after.list == before.list
        &&& before.current_api is Some ==> r.1@.len() == 1
            && (r.1@[0] matches Command::FetchEpisodes(s, t) && s.same_as(series) && t == season)
        &&& before.current_api is None ==> r.1@.len() == 0
        &&& crate::tui::app::logged(before.logs@, after.logs@, seq!["Loading episodes for "@ + series.name@ + " - "@ + season.name@])
    })
    &&& code == KeyCode::Enter && sel >= before.seasons@.len() ==> quiet(r) && after == before
    &&& is_back_key(code) ==> (after.state matches AppState::StreamSelection(ct, c) && ct == ContentType::Series
            && back_category_ok(c, before.categories@, before.streams@))
        && r.1@.len() == 1 && (r.1@[0] matches Command::LoadStreams { content_type, category, force_refresh, restore_nav }
        && content_type == ContentType::Series && !force_refresh && restore_nav
        && back_category_ok(category, before.categories@, before.streams@))
        && after.logs == before.logs
    &&& !is_nav_key(code) && code != KeyCode::Enter && !is_back_key(code) ==> quiet(r) && after == before
}

/// What `episode_key` does with a key: Enter plays the episode, `d` plays
/// it in an independent window, Esc or `b` goes back to the seasons; other keys move the selection or do nothing.
pub open spec fn episode_keyed(before: App, after: App, series: Stream, code: KeyCode, r: (Option<Action>, Vec<Command>)) -> bool {
    let sel = before.list.selected_index as int;
    &&& r.0 is None
    &&& is_nav_key(code) ==> r.1@.len() == 0 && after.state == before.state
    &&& code == KeyCode::Enter && sel < before.episodes@.len() ==> r.1@.len() <= 1
        && crate::tui::playback::played_episode(before, after, before.episodes@[sel], false, single_command(r))
    &&& code == KeyCode::Char('d') && sel < before.episodes@.len() ==> r.1@.len() <= 1
        && crate::tui::playback::played_episode(before, after, before.episodes@[sel], true, single_command(r))
    &&& (code == KeyCode::Enter || code == KeyCode::Char('d')) && sel >= before.episodes@.len() ==> quiet(r) && after == before
    &&& is_back_key(code) ==> quiet(r) && (after.state matches AppState::SeasonSelection(s) && s.same_as(series))
        && after.logs == before.logs
    &&& !is_nav_key(code) && code != KeyCode::Enter && code != KeyCode::Char('d') && !is_back_key(code) ==> quiet(r) && after == before
}

/// What `favourites_key` does with a key.
pub open spec fn favourites_keyed(before: App, after: App, code: KeyCode, r: (Option<Action>, Vec<Command>)) -> bool {
    &&& r.0 is None
    &&& is_nav_key(code) ==> r.1@.len() == 0 && after.state == before.state
    &&& ({
        let sel = before.list.selected_index as int;
        let favs = before.cross_provider_favourites@;
        &&& code == KeyCode::Enter && sel < favs.len() ==> r.1@ == seq![Command::PlayFavourite(favs[sel].0, favs[sel].1)]
        &&& code == KeyCode::Char('a') && sel < favs.len() && favs[sel].0.stream_type@ == "live"@
        ==> r.1@ == seq![Command::OpenFavouriteMenu(favs[sel].0, favs[sel].1)]
        &&& code == KeyCode::Char('f') && sel < favs.len() ==> r.1@ == seq![Command::RemoveFavourite(favs[sel].0, favs[sel].1)]
        &&& (code == KeyCode::Enter || code == KeyCode::Char('a') || code == KeyCode::Char('f')) && sel >= favs.len() ==> r.1@.len() == 0
        })
    &&& is_back_key(code) && before.list.search_query@.len() == 0 && before.config.providers@.len() == 1 ==> after.state is MainMenu
    &&& is_back_key(code) && before.list.search_query@.len() == 0 && before.config.providers@.len() != 1 ==> after.state is ProviderSelection
    &&& is_back_key(code) && before.list.search_query@.len() > 0 ==> quiet(r) && after.state == before.state
        && after.list.search_query@.len() == 0 && after.list.items@ == before.list.items@
    &&& is_back_key(code) ==> quiet(r) && after.logs == before.logs
    &&& (code == KeyCode::Enter || code == KeyCode::Char('a') || code == KeyCode::Char('f')) ==> after == before
    &&& !is_nav_key(code) && code != KeyCode::Enter && code != KeyCode::Char('a') && code != KeyCode::Char('f')
        && !is_back_key(code) ==> quiet(r) && after == before
}

/// What `advanced_menu_key` does with a key: up and down move, Enter acts
/// on the entry, Esc or `b` goes back; other keys do nothing.
pub open spec fn advanced_menu_keyed(before: App, after: App, stream: Stream, code: KeyCode, r: (Option<Action>, Vec<Command>)) -> bool {
    &&& r.0 is None
    &&& (code == KeyCode::Up || code == KeyCode::Char('k') || code == KeyCode::Down || code == KeyCode::Char('j')) ==>
        quiet(r) && after.state == before.state && after.logs == before.logs
        && after.previous_state_before_menu == before.previous_state_before_menu
        && after.previous_items_before_menu == before.previous_items_before_menu
        && after.previous_nav_before_menu == before.previous_nav_before_menu
    &&& code == KeyCode::Enter ==> r.1@.len() <= 1
        && crate::tui::playback::advanced_selection_done(before, after, stream, single_command(r))
    &&& is_back_key(code) ==> r.1@.len() == 0 && crate::tui::playback::menu_closed(before, after) && after.logs == before.logs
        && (before.previous_state_before_menu matches Some(p) ==> after.state == *p)
    &&& !(code == KeyCode::Up || code == KeyCode::Char('k') || code == KeyCode::Down || code == KeyCode::Char('j')
        || code == KeyCode::Enter || is_back_key(code)) ==> quiet(r) && after == before
}

/// What `configuration_key` does with a key: up and down move, Enter
/// changes the selected setting (or goes back), Esc or `b` goes back to the
/// main menu; other keys do nothing.
pub open spec fn configuration_keyed(before: App, after: App, code: KeyCode, r: (Option<Action>, Vec<Command>)) -> bool {
    let sel = before.list.selected_index;
    &&& r.0 is None
    &&& (code == KeyCode::Up || code == KeyCode::Char('k') || code == KeyCode::Down || code == KeyCode::Char('j')) ==>
        quiet(r) && after.state == before.state && after.config == before.config
    &&& is_back_key(code) ==> quiet(r) && after.state is MainMenu && after.config == before.config
        && views(after.list.items@) == main_menu_of(before.config.providers@.len() == 1)
    &&& code == KeyCode::Enter && sel == 0 ==> r.1@ == seq![Command::SaveConfig]
        && after.config.settings.play_mode != before.config.settings.play_mode
        && after.config.settings.use_ts_for_live == before.config.settings.use_ts_for_live
        && after.config.providers == before.config.providers
        && views(after.list.items@) == crate::tui::screens::config_items_of(after.config.settings)
    &&& code == KeyCode::Enter && sel == 1 ==> r.1@ == seq![Command::SaveConfig]
        && after.config.settings.use_ts_for_live == !before.config.settings.use_ts_for_live
        && after.config.settings.play_mode == before.config.settings.play_mode
        && after.config.providers == before.config.providers
        && views(after.list.items@) == crate::tui::screens::config_items_of(after.config.settings)
    &&& code == KeyCode::Enter && sel == 2 ==> quiet(r) && after.state is MainMenu && after.config == before.config
    &&& code == KeyCode::Enter && sel > 2 ==> quiet(r) && after.state == before.state && after.config == before.config
    &&& !(code == KeyCode::Up || code == KeyCode::Char('k') || code == KeyCode::Down || code == KeyCode::Char('j')
        || code == KeyCode::Enter || is_back_key(code)) ==> quiet(r) && after == before
}

/// What `toggle_category_ignore` does: hides or shows the selected category
/// (never `All`), asks for the hidden names to be saved and reloads the
/// categories.
pub open spec fn category_ignore_toggled(before: App, after: App, ct: ContentType, r: Vec<Command>) -> bool {
    &&& before.list.selected_index < before.categories@.len() && ({
        let c = before.categories@[before.list.selected_index as int];
        c.category_name@ != "All"@ && c.category_id@ != "all"@
    }) ==> ({
        let name = before.categories@[before.list.selected_index as int].category_name@;
        &&& after.ignore_config.category_set() == toggled(before.ignore_config.category_set(), name)
        &&& after.ignore_config.channel_set() == before.ignore_config.channel_set()
        &&& r@.len() >= 1 && r@[0] == Command::SaveIgnoreConfig
    })
    &&& !(before.list.selected_index < before.categories@.len() && ({
        let c = before.categories@[before.list.selected_index as int];
        c.category_name@ != "All"@ && c.category_id@ != "all"@
    })) ==> r@.len() == 0 && after.ignore_config == before.ignore_config
        && after.state == before.state
    &&& before.list.selected_index >= before.categories@.len() ==>
        crate::tui::app::logged(before.logs@, after.logs@, seq!["No category selected"@])
    &&& before.list.selected_index < before.categories@.len() && ({
        let c = before.categories@[before.list.selected_index as int];
        c.category_name@ == "All"@ || c.category_id@ == "all"@
    }) ==> after.logs == before.logs
        && (after.list.status_message matches Some(m) && m@ == "Cannot ignore 'All' category"@)
    &&& before.list.selected_index < before.categories@.len() && ({
        let c = before.categories@[before.list.selected_index as int];
        c.category_name@ != "All"@ && c.category_id@ != "all"@
    }) ==> ({
        let name = before.categories@[before.list.selected_index as int].category_name@;
        let cached = exists|i: int| 0 <= i < before.cached_categories@.len() && before.cached_categories@[i].0 == ct;
        crate::tui::app::logged(before.logs@, after.logs@, seq![
            "Toggling ignore for category '"@ + name + "'"@,
            "Category '"@ + name + (if before.ignore_config.category_set().contains(name) { "' will be shown"@ } else { "' will be hidden"@ }),
            if cached { "Using cached "@ + ct.label_of() + " categories"@ } else { "Loading "@ + ct.label_of() + " categories"@ },
        ])
    })
}

/// Stopping playback: the main menu shows and the player is asked to stop.
pub open spec fn stop_keyed(before: App, after: App, r: (Option<Action>, Vec<Command>)) -> bool {
    &&& r.0 is None
    &&& r.1@ == seq![Command::StopPlayback]
    &&& after.state is MainMenu
    &&& views(after.list.items@) == main_menu_of(before.config.providers@.len() == 1)
    &&& crate::tui::app::logged(before.logs@, after.logs@, seq!["Stopped playback"@])
}

/// What the current screen does with a key.
pub open spec fn screen_keyed(before: App, after: App, key: KeyInput, r: (Option<Action>, Vec<Command>)) -> bool {
    match before.state {
        AppState::Error(_) => error_keyed(before, after, key.code, r),
        AppState::ProviderSelection => provider_selection_keyed(before, after, key.code, r),
        AppState::MainMenu => main_menu_keyed(before, after, key.code, r),
        AppState::CategorySelection(ct) => category_keyed(before, after, ct, key.code, r),
        AppState::StreamSelection(ct, cat) => stream_keyed(before, after, ct, cat, key.code, r),
        AppState::VodInfo(_) => vod_info_keyed(before, after, key, r),
        AppState::SeasonSelection(series) => season_keyed(before, after, series, key.code, r),
        AppState::EpisodeSelection(series, _) => episode_keyed(before, after, series, key.code, r),
        AppState::CrossProviderFavourites => favourites_keyed(before, after, key.code, r),
        AppState::Playing(_) => if key.code == KeyCode::Esc || key.code == KeyCode::Char('s') {
            stop_keyed(before, after, r)
        } else {
            quiet(r) && after == before
        },
        AppState::StreamAdvancedMenu(stream, _) => advanced_menu_keyed(before, after, stream, key.code, r),
        AppState::Configuration => configuration_keyed(before, after, key.code, r),
        AppState::Loading(_) => quiet(r) && after == before,
    }
}

/// What a key does while the help window is open: up, down, page up and
/// down, Home and End scroll it; any other key (`?`, `F1` and Esc among
/// them) closes it and resets its scroll. Nothing else changes.
pub open spec fn help_keyed(before: App, after: App, code: KeyCode) -> bool {
    let scrolls = code == KeyCode::Up || code == KeyCode::Char('k') || code == KeyCode::Down || code == KeyCode::Char('j')
        || code == KeyCode::PageUp || code == KeyCode::PageDown || code == KeyCode::Home || code == KeyCode::End;
    let o = before.help_scroll_offset as int;
    &&& after.logs == before.logs
    &&& after.same_but_windows(before)
    &&& after.log_display_mode == before.log_display_mode
    &&& after.log_selected_index == before.log_selected_index
    &&& after.log_scroll_offset == before.log_scroll_offset
    &&& scrolls ==> after.show_help == before.show_help
    &&& (code == KeyCode::Up || code == KeyCode::Char('k')) ==> after.help_scroll_offset == sat_sub(o, 1)
    &&& (code == KeyCode::Down || code == KeyCode::Char('j')) ==> after.help_scroll_offset == min_int(o + 1, usize::MAX as int)
    &&& code == KeyCode::PageUp ==> after.help_scroll_offset == sat_sub(o, 10)
    &&& code == KeyCode::PageDown ==> after.help_scroll_offset == min_int(o + 10, usize::MAX as int)
    &&& code == KeyCode::Home ==> after.help_scroll_offset == 0
    &&& code == KeyCode::End ==> after.help_scroll_offset == 1000
    &&& !scrolls ==> !after.show_help && after.help_scroll_offset == 0
}

impl App {
    /// Moves the selection for a navigation key; the rest of the list and
    /// of the state stay.
    pub fn nav_key(&mut self, code: KeyCode) -> (r: bool)
        requires
            old(self).wf(),
        ensures
            final(self).wf(),
            r == is_nav_key(code),
            final(self).list.same_content(old(self).list),
            final(self).state == old(self).state,
            final(self).same_data(*old(self)),
            final(self).same_navs(*old(self)),
            !r ==> final(self).list == old(self).list,
            !r ==> *final(self) == *old(self),
    {
        match code {
            KeyCode::Up | KeyCode::Char('k') => {
                self.list.move_selection_up();
                true
            },
            KeyCode::Down | KeyCode::Char('j') => {
                self.list.move_selection_down();
                true
            },
            KeyCode::PageUp => {
                self.list.move_selection_page_up();
                true
            },
            KeyCode::PageDown => {
                self.list.move_selection_page_down();
                true
            },
            KeyCode::Home | KeyCode::Char('H') => {
                self.list.move_selection_home();
                true
            },
            KeyCode::End | KeyCode::Char('G') => {
                self.list.move_selection_end();
                true
            },
            _ => false,
        }
    }

    /// A key on the error screen: `Enter` or `Esc` returns to the provider
    /// list when not connected, else to the main menu.
    pub fn error_key(&mut self, code: KeyCode) -> (r: (Option<Action>, Vec<Command>))
        requires
            old(self).wf(),
        ensures
            final(self).wf(),
            error_keyed(*old(self), *final(self), code, r),
    {
        if code == KeyCode::Enter || code == KeyCode::Esc {
            if self.current_api.is_none() {
                self.state = AppState::ProviderSelection;
                self.restore_navigation_state(&AppState::ProviderSelection);
            } else {
                self.go_to_main_menu();
            }
        }
        none()
    }

    /// A key on the provider list: `Enter` opens the favourites of every
    /// provider (first entry) or connects to the chosen provider; `Esc`
    /// quits.
    pub fn provider_selection_key(&mut self, code: KeyCode) -> (r: (Option<Action>, Vec<Command>))
        requires
            old(self).wf(),
        ensures
            final(self).wf(),
            provider_selection_keyed(*old(self), *final(self), code, r),
    {
        if self.nav_key(code) {
            return none();
        }
        match code {
            KeyCode::Enter => {
                let sel = self.list.selected_index;
                if sel == 0 {
                    self.save_current_navigation_state();
                    one(self.load_all_favourites())
                } else if sel - 1 < self.config.providers.len() {
                    let provider = self.config.providers[sel - 1].clone();
                    self.save_current_navigation_state();
                    one(self.connect_to_provider(&provider))
                } else {
                    none()
                }
            },
            KeyCode::Esc => (Some(Action::Quit), Vec::new()),
            _ => none(),
        }
    }

    /// A key on the main menu: `Enter` acts on the chosen entry; `Esc` or
    /// `b` goes back to the provider list, or quits with a single provider.
    pub fn main_menu_key(&mut self, code: KeyCode) -> (r: (Option<Action>, Vec<Command>))
        requires
            old(self).wf(),
        ensures
            final(self).wf(),
            main_menu_keyed(*old(self), *final(self), code, r),
    {
        if self.nav_key(code) {
            return none();
        }
        match code {
            KeyCode::Enter => {
                self.save_current_navigation_state();
                let choice = main_menu_choice(self.list.selected_index, self.config.providers.len() == 1);
                match choice {
                    MainMenuChoice::Favourites => one(self.load_all_favourites()),
                    MainMenuChoice::Browse(ct) => maybe(self.load_categories_internal(ct, false, true)),
                    MainMenuChoice::Configuration => {
                        self.show_configuration();
                        none()
                    },
                    MainMenuChoice::RefreshCache => (Some(Action::CacheRefresh), Vec::new()),
                    MainMenuChoice::Nothing => none(),
                }
            },
            KeyCode::Esc | KeyCode::Char('b') => {
                if self.config.providers.len() > 1 {
                    self.save_current_navigation_state();
                    self.go_to_provider_selection();
                    none()
                } else {
                    (Some(Action::Quit), Vec::new())
                }
            },
            _ => none(),
        }
    }

    /// Hides or shows the selected category (never `All`), asks for the
    /// hidden names to be saved, and reloads the categories keeping the
    /// filter; the selection then moves as `ignore_adjusted` says.
    pub fn toggle_category_ignore(&mut self, ct: ContentType) -> (r: Vec<Command>)
        requires
            old(self).wf(),
        ensures
            final(self).wf(),
            category_ignore_toggled(*old(self), *final(self), ct, r),
    {
        let ghost l0 = self.logs@;
        let category = match self.get_current_category() {
            Some(c) => c,
            None => {
                self.add_log(String::from_str("No category selected"));
                return Vec::new();
            },
        };
        if str_eq(category.category_name.as_str(), "All") || str_eq(category.category_id.as_str(), "all") {
            self.list.status_message = Some(String::from_str("Cannot ignore 'All' category"));
            return Vec::new();
        }
        let name = category.category_name;
        self.add_log(concat3("Toggling ignore for category '", name.as_str(), "'"));
        let ghost l1 = self.logs@;
        let hidden = self.ignore_config.toggle_category(name.as_str());
        let msg = if hidden {
            concat3("Category '", name.as_str(), "' will be hidden")
        } else {
            concat3("Category '", name.as_str(), "' will be shown")
        };
        self.add_log(msg.clone());
        let ghost l2 = self.logs@;
        let ghost cached_before = self.cached_categories@;
        self.list.status_message = Some(msg);
        let names = category_names(&self.categories);
        let (filter_pos, anchor, next_name) = if all_below(&self.list.filtered_indices, names.len()) {
            ignore_anchor(&self.list.filtered_indices, &names, self.list.selected_index, self.list.scroll_offset, name.as_str(), hidden)
        } else {
            (0, None, None)
        };
        self.pending_adjust = Some(PendingIgnoreAdjust {
            saved_query: self.list.search_query.clone(),
            saved_search_active: self.list.search_active,
            anchor,
            next_name,
            filter_pos,
            scroll: self.list.scroll_offset,
            for_categories: true,
        });
        let mut cmds: Vec<Command> = Vec::new();
        cmds.push(Command::SaveIgnoreConfig);
        let loaded = self.load_categories_internal(ct, false, false);
        proof {
            let line = if exists|i: int| 0 <= i < cached_before.len() && cached_before[i].0 == ct {
                "Using cached "@ + ct.label_of() + " categories"@
            } else {
                "Loading "@ + ct.label_of() + " categories"@
            };
            crate::tui::app::lemma_logged_three(l0, l1, l2, self.logs@, "Toggling ignore for category '"@ + name@ + "'"@, msg@, line);
        }
        match loaded {
            Some(c) => {
                cmds.push(c);
            },
            None => {
                self.finish_pending_adjust();
            },
        }
        cmds
    }

    /// A key on a category list: `i` hides or shows the category, `r`
    /// downloads the categories again, `Enter` opens the category's streams,
    /// `Esc` or `b` clears the filter or goes back to the main menu.
    pub fn category_key(&mut self, ct: ContentType, code: KeyCode) -> (r: (Option<Action>, Vec<Command>))
        requires
            old(self).wf(),
        ensures
            final(self).wf(),
            category_keyed(*old(self), *final(self), ct, code, r),
    {
        if self.nav_key(code) {
            return none();
        }
        match code {
            KeyCode::Char('i') => (None, self.toggle_category_ignore(ct)),
            KeyCode::Char('r') => {
                let ghost l0 = self.logs@;
                self.add_log(String::from_str("Refreshing categories..."));
                let ghost l1 = self.logs@;
                let c = self.load_categories_internal(ct, true, true);
                proof {
                    crate::tui::app::lemma_logged_two(l0, l1, self.logs@, "Refreshing categories..."@,
                        "Loading "@ + ct.label_of() + " categories"@);
                }
                maybe(c)
            },
            KeyCode::Enter => {
                if self.list.selected_index < self.categories.len() {
                    let category = self.categories[self.list.selected_index].clone();
                    self.save_current_navigation_state();
                    one(Command::LoadStreams { content_type: ct, category, force_refresh: false, restore_nav: true })
                } else {
                    none()
                }
            },
            KeyCode::Esc | KeyCode::Char('b') => {
                if self.list.search_query.unicode_len() > 0 {
                    self.list.reset_filter();
                } else {
                    self.save_current_navigation_state();
                    self.go_to_main_menu();
                }
                none()
            },
            _ => none(),
        }
    }

    /// Hides or shows the selected live channel, asks for the hidden names to
    /// be saved, and reloads the streams keeping the filter.
    pub fn toggle_channel_ignore(&mut self, ct: ContentType, category: &Category) -> (r: Vec<Command>)
        requires
            old(self).wf(),
            old(self).list.selected_index < old(self).streams@.len(),
        ensures
            final(self).wf(),
            ({
                let name = old(self).streams@[old(self).list.selected_index as int].name@;
                &&& final(self).ignore_config.channel_set() == toggled(old(self).ignore_config.channel_set(), name)
                &&& final(self).ignore_config.category_set() == old(self).ignore_config.category_set()
            }),
            r@ == seq![Command::SaveIgnoreConfig, Command::LoadStreams { content_type: ct, category: *category, force_refresh: false, restore_nav: false }],
            final(self).state == old(self).state,
            ({
                let name = old(self).streams@[old(self).list.selected_index as int].name@;
                let msg = "Channel '"@ + name + (if old(self).ignore_config.channel_set().contains(name) { "' will be shown"@ } else { "' will be hidden"@ });
                &&& crate::tui::app::logged(old(self).logs@, final(self).logs@, seq!["Toggling ignore for channel '"@ + name + "'"@, msg])
                &&& final(self).list.status_message matches Some(m) && m@ == msg
            }),
    {
        let name = self.streams[self.list.selected_index].name.clone();
        let ghost l0 = self.logs@;
        self.add_log(concat3("Toggling ignore for channel '", name.as_str(), "'"));
        let ghost l1 = self.logs@;
        let hidden = self.ignore_config.toggle_channel(name.as_str());
        let msg = if hidden {
            concat3("Channel '", name.as_str(), "' will be hidden")
        } else {
            concat3("Channel '", name.as_str(), "' will be shown")
        };
        self.add_log(msg.clone());
        proof { crate::tui::app::lemma_logged_two(l0, l1, self.logs@, "Toggling ignore for channel '"@ + name@ + "'"@, msg@); }
        self.list.status_message = Some(msg);
        let names = stream_names(&self.streams);
        let (filter_pos, anchor, next_name) = if all_below(&self.list.filtered_indices, names.len()) {
            ignore_anchor(&self.list.filtered_indices, &names, self.list.selected_index, self.list.scroll_offset, name.as_str(), hidden)
        } else {
            (0, None, None)
        };
        self.pending_adjust = Some(PendingIgnoreAdjust {
            saved_query: self.list.search_query.clone(),
            saved_search_active: self.list.search_active,
            anchor,
            next_name,
            filter_pos,
            scroll: self.list.scroll_offset,
            for_categories: false,
        });
        let mut cmds: Vec<Command> = Vec::new();
        cmds.push(Command::SaveIgnoreConfig);
        cmds.push(Command::LoadStreams { content_type: ct, category: category.clone(), force_refresh: false, restore_nav: false });
        cmds
    }

    /// A key on a stream list: `r` downloads again, `f` adds or removes a
    /// favourite, `i` hides or shows a live channel, `Enter` opens a series,
    /// shows a movie's details or plays a channel, `d` plays a channel or
    /// movie in an independent window, `a` opens the advanced play menu of a
    /// channel, `Esc` or `b` clears the filter or goes back to
    /// the categories.
    pub fn stream_key(&mut self, ct: ContentType, category: &Category, code: KeyCode) -> (r: (Option<Action>, Vec<Command>))
        requires
            old(self).wf(),
        ensures
            final(self).wf(),
            stream_keyed(*old(self), *final(self), ct, *category, code, r),
    {
        if self.nav_key(code) {
            return none();
        }
        let sel = self.list.selected_index;
        match code {
            KeyCode::Char('r') => {
                self.add_log(String::from_str("Refreshing streams..."));
                one(Command::LoadStreams { content_type: ct, category: category.clone(), force_refresh: true, restore_nav: true })
            },
            KeyCode::Char('f') => {
                if sel < self.streams.len() {
                    one(Command::ToggleFavourite(self.streams[sel].clone()))
                } else {
                    none()
                }
            },
            KeyCode::Char('i') => {
                if ct == ContentType::Live && sel < self.streams.len() {
                    (None, self.toggle_channel_ignore(ct, category))
                } else {
                    none()
                }
            },
            KeyCode::Enter => {
                if sel < self.streams.len() {
                    let stream = self.streams[sel].clone();
                    match ct {
                        ContentType::Series => {
                            self.save_current_navigation_state();
                            maybe(self.load_seasons(stream))
                        },
                        ContentType::Movies => {
                            let saved_filter = self.list.search_query.clone();
                            let saved_filtered = crate::tui::app::copy_indices(&self.list.filtered_indices);
                            let saved_items = crate::tui::app::copy_items(&self.list.items);
                            let scroll = self.list.scroll_offset;
                            maybe(self.load_vod_info_with_state(stream, saved_filter, sel, saved_filtered, scroll, saved_items))
                        },
                        ContentType::Live => maybe(self.play_stream(&stream)),
                    }
                } else {
                    none()
                }
            },
            KeyCode::Char('d') => {
                if sel < self.streams.len() && ct != ContentType::Series {
                    let stream = self.streams[sel].clone();
                    maybe(self.play_stream_detached(&stream))
                } else {
                    none()
                }
            },
            KeyCode::Char('a') => {
                if ct == ContentType::Live && sel < self.streams.len() {
                    let stream = self.streams[sel].clone();
                    let ghost s2 = stream;
                    self.show_stream_advanced_menu(stream, ct);
                    assert(menu_opened(*old(self), *self, s2, ct));
                }
                none()
            },
            KeyCode::Esc | KeyCode::Char('b') => {
                if self.list.search_query.unicode_len() > 0 {
                    self.list.reset_filter();
                    none()
                } else {
                    self.save_current_navigation_state();
                    self.state = AppState::CategorySelection(ct);
                    self.restore_navigation_state(&AppState::CategorySelection(ct));
                    maybe(self.load_categories_internal(ct, false, true))
                }
            },
            _ => none(),
        }
    }
}

/// The scroll position of the details text after a page down.
pub open spec fn vod_page_down(scroll: int, n: int, height: int) -> int {
    let page = page_size(height);
    min_int(scroll + page, sat_sub(n, min_int(page, n)))
}

/// The content scroll of the details screen.
pub open spec fn content_scroll_of(s: AppState) -> usize {
    match s {
        AppState::VodInfo(v) => v.content_scroll,
        _ => 0,
    }
}

/// The selection after moving up (`up`) or down in the details menu: the
/// neighbouring menu line, or the first one when the selection is not on
/// the menu.
pub open spec fn vod_menu_move(menu: Seq<usize>, selected: usize, up: bool) -> usize {
    match position_of(menu, selected) {
        Some(p) => if up {
            if p > 0 { menu[p - 1] } else { selected }
        } else {
            if p + 1 < menu.len() { menu[p + 1] } else { selected }
        },
        None => if menu.len() > 0 { menu[0] } else { selected },
    }
}

impl App {
    fn set_content_scroll(&mut self, v: usize)
        requires
            old(self).wf(),
        ensures
            final(self).wf(),
            final(self).list == old(self).list,
            old(self).state is VodInfo ==> final(self).state is VodInfo && content_scroll_of(final(self).state) == v,
            !(old(self).state is VodInfo) ==> final(self).state == old(self).state,
    {
        match &mut self.state {
            AppState::VodInfo(st) => {
                st.content_scroll = v;
            },
            _ => {},
        }
    }

    /// A key on the movie details: up and down move between the menu lines,
    /// page keys, space (shift+space up), home and end scroll the text,
    /// `Enter` acts on the menu line, `Esc` or `b` returns to the movies.
    pub fn vod_info_key(&mut self, key: KeyInput) -> (r: (Option<Action>, Vec<Command>))
        requires
            old(self).wf(),
            old(self).state is VodInfo,
        ensures
            final(self).wf(),
            vod_info_keyed(*old(self), *final(self), key, r),
    {
        let height = self.list.visible_height;
        let page: usize = if height < 3 { 1 } else { height - 2 };
        let n = self.list.items.len();
        let cs = match &self.state {
            AppState::VodInfo(v) => v.content_scroll,
            _ => 0,
        };
        match key.code {
            KeyCode::Up | KeyCode::Char('k') | KeyCode::Down | KeyCode::Char('j') => {
                let up = key.code == KeyCode::Up || key.code == KeyCode::Char('k');
                let menu = vod_menu_positions(&self.list.items);
                let sel = self.list.selected_index;
                match find_position(&menu, sel) {
                    Some(p) => {
                        if up && p > 0 {
                            self.list.selected_index = menu[p - 1];
                            self.list.ensure_selected_visible();
                        } else if !up && p < menu.len() - 1 {
                            self.list.selected_index = menu[p + 1];
                            self.list.ensure_selected_visible();
                        }
                    },
                    None => {
                        if menu.len() > 0 {
                            self.list.selected_index = menu[0];
                            self.list.ensure_selected_visible();
                        }
                    },
                }
                none()
            },
            KeyCode::PageUp => {
                self.set_content_scroll(if cs < page { 0 } else { cs - page });
                none()
            },
            KeyCode::PageDown => {
                let max_scroll = n - (if page < n { page } else { n });
                let want: u128 = cs as u128 + page as u128;
                self.set_content_scroll(if want < max_scroll as u128 { want as usize } else { max_scroll });
                none()
            },
            KeyCode::Char(' ') => {
                if key.shift {
                    self.set_content_scroll(if cs < page { 0 } else { cs - page });
                } else {
                    let max_scroll = n - (if page < n { page } else { n });
                    let want: u128 = cs as u128 + page as u128;
                    self.set_content_scroll(if want < max_scroll as u128 { want as usize } else { max_scroll });
                }
                none()
            },
            KeyCode::Home | KeyCode::Char('H') => {
                self.set_content_scroll(0);
                none()
            },
            KeyCode::End | KeyCode::Char('G') => {
                let max_scroll = n - (if page < n { page } else { n });
                self.set_content_scroll(max_scroll);
                none()
            },
            KeyCode::Enter => {
                let sel = self.list.selected_index;
                if sel >= n {
                    return none();
                }
                let stream = match &self.state {
                    AppState::VodInfo(v) => v.stream.clone(),
                    _ => return none(),
                };
                let item = self.list.items[sel].as_str();
                if str_contains(item, "Play Movie") && !str_contains(item, "Detached") {
                    maybe(self.play_vod_stream(&stream, false))
                } else if str_contains(item, "Play in Detached Window") {
                    maybe(self.play_vod_stream(&stream, true))
                } else if str_contains(item, "Copy URL") {
                    let url = match &self.current_api {
                        Some(api) => {
                            let ext = match &self.vod_info {
                                Some(info) => Some(info.movie_data.container_extension.as_str()),
                                None => None,
                            };
                            Some(api.get_stream_url(stream.stream_id, "movie", ext))
                        },
                        None => None,
                    };
                    match url {
                        Some(u) => {
                            self.add_log(concat2("Stream URL copied: ", u.as_str()));
                            self.list.status_message = Some(String::from_str("URL copied to logs!"));
                        },
                        None => {},
                    }
                    none()
                } else if str_contains(item, "Back") {
                    self.leave_vod_info();
                    none()
                } else {
                    none()
                }
            },
            KeyCode::Esc | KeyCode::Char('b') => {
                self.leave_vod_info();
                none()
            },
            _ => none(),
        }
    }

    /// A key on the season list: `Enter` loads the season's episodes, `Esc`
    /// or `b` goes back to the series list (of the first category that holds
    /// one of the listed series, else `All`).
    pub fn season_key(&mut self, series: &Stream, code: KeyCode) -> (r: (Option<Action>, Vec<Command>))
        requires
            old(self).wf(),
        ensures
            final(self).wf(),
            season_keyed(*old(self), *final(self), *series, code, r),
    {
        if self.nav_key(code) {
            return none();
        }
        match code {
            KeyCode::Enter => {
                if self.list.selected_index < self.seasons.len() {
                    let season = self.seasons[self.list.selected_index].clone();
                    self.save_current_navigation_state();
                    maybe(self.load_episodes(series.clone(), season))
                } else {
                    none()
                }
            },
            KeyCode::Esc | KeyCode::Char('b') => {
                self.save_current_navigation_state();
                let mut found: Option<Category> = None;
                let mut k: usize = 0;
                while k < self.categories.len()
                    invariant
                        k <= self.categories@.len(),
                        match first_listed_category(self.categories@, self.streams@, k as nat) {
                            Some(i) => found == Some(self.categories@[i]),
                            None => found is None,
                        },
                    decreases self.categories@.len() - k,
                {
                    if found.is_none() {
                        let id = self.categories[k].category_id.as_str();
                        let mut j: usize = 0;
                        let mut any = false;
                        while j < self.streams.len()
                            invariant
                                j <= self.streams@.len(),
                                id@ == self.categories@[k as int].category_id@,
                                any <==> exists|q: int| 0 <= q < j && in_category(#[trigger] self.streams@[q], id@),
                            decreases self.streams@.len() - j,
                        {
                            match &self.streams[j].category_id {
                                Some(c) => {
                                    if str_eq(c.as_str(), id) {
                                        any = true;
                                    }
                                },
                                None => {},
                            }
                            j = j + 1;
                        }
                        if any {
                            found = Some(self.categories[k].clone());
                        }
                    }
                    k = k + 1;
                }
                let category = match found {
                    Some(c) => c,
                    None => Category::all(),
                };
                self.state = AppState::StreamSelection(ContentType::Series, category.clone());
                self.restore_navigation_state(&AppState::StreamSelection(ContentType::Series, category.clone()));
                one(Command::LoadStreams { content_type: ContentType::Series, category, force_refresh: false, restore_nav: true })
            },
            _ => none(),
        }
    }

    /// A key on the episode list: `Enter` plays the episode, `d` plays it in
    /// an independent window, `Esc` or `b` goes back to the seasons.
    pub fn episode_key(&mut self, series: &Stream, code: KeyCode) -> (r: (Option<Action>, Vec<Command>))
        requires
            old(self).wf(),
        ensures
            final(self).wf(),
            episode_keyed(*old(self), *final(self), *series, code, r),
    {
        if self.nav_key(code) {
            return none();
        }
        match code {
            KeyCode::Enter => {
                if self.list.selected_index < self.episodes.len() {
                    let ep = self.episodes[self.list.selected_index].clone();
                    maybe(self.play_episode(&ep, false))
                } else {
                    none()
                }
            },
            KeyCode::Char('d') => {
                if self.list.selected_index < self.episodes.len() {
                    let ep = self.episodes[self.list.selected_index].clone();
                    maybe(self.play_episode(&ep, true))
                } else {
                    none()
                }
            },
            KeyCode::Esc | KeyCode::Char('b') => {
                self.save_current_navigation_state();
                self.state = AppState::SeasonSelection(series.clone());
                self.restore_navigation_state(&AppState::SeasonSelection(series.clone()));
                none()
            },
            _ => none(),
        }
    }

    /// A key on the favourites of every provider: `Enter` plays the
    /// favourite, `a` opens the advanced menu of a live one, `f` removes it,
    /// `Esc` or `b` clears the filter or goes back.
    pub fn favourites_key(&mut self, code: KeyCode) -> (r: (Option<Action>, Vec<Command>))
        requires
            old(self).wf(),
        ensures
            final(self).wf(),
            favourites_keyed(*old(self), *final(self), code, r),
    {
        if self.nav_key(code) {
            return none();
        }
        let sel = self.list.selected_index;
        match code {
            KeyCode::Enter => {
                if sel < self.cross_provider_favourites.len() {
                    let fav = self.cross_provider_favourites[sel].0.clone();
                    let provider = self.cross_provider_favourites[sel].1.clone();
                    one(Command::PlayFavourite(fav, provider))
                } else {
                    none()
                }
            },
            KeyCode::Char('a') => {
                if sel < self.cross_provider_favourites.len() && str_eq(self.cross_provider_favourites[sel].0.stream_type.as_str(), "live") {
                    let fav = self.cross_provider_favourites[sel].0.clone();
                    let provider = self.cross_provider_favourites[sel].1.clone();
                    one(Command::OpenFavouriteMenu(fav, provider))
                } else {
                    none()
                }
            },
            KeyCode::Char('f') => {
                if sel < self.cross_provider_favourites.len() {
                    let fav = self.cross_provider_favourites[sel].0.clone();
                    let provider = self.cross_provider_favourites[sel].1.clone();
                    one(Command::RemoveFavourite(fav, provider))
                } else {
                    none()
                }
            },
            KeyCode::Esc | KeyCode::Char('b') => {
                if self.list.search_query.unicode_len() > 0 {
                    self.list.reset_filter();
                } else {
                    self.save_current_navigation_state();
                    if self.config.providers.len() == 1 {
                        self.go_to_main_menu();
                    } else {
                        self.go_to_provider_selection();
                    }
                }
                none()
            },
            _ => none(),
        }
    }

    /// A key on the advanced play menu: up and down move, `Enter` acts on
    /// the entry, `Esc` or `b` goes back.
    pub fn advanced_menu_key(&mut self, stream: &Stream, code: KeyCode) -> (r: (Option<Action>, Vec<Command>))
        requires
            old(self).wf(),
        ensures
            final(self).wf(),
            advanced_menu_keyed(*old(self), *final(self), *stream, code, r),
    {
        match code {
            KeyCode::Up | KeyCode::Char('k') => {
                self.list.move_selection_up();
                none()
            },
            KeyCode::Down | KeyCode::Char('j') => {
                self.list.move_selection_down();
                none()
            },
            KeyCode::Enter => maybe(self.handle_stream_advanced_menu_selection(stream)),
            KeyCode::Esc | KeyCode::Char('b') => {
                self.restore_previous_state();
                none()
            },
            _ => none(),
        }
    }

    /// A key on the configuration screen: up and down move, `Enter` acts on
    /// the entry, `Esc` or `b` goes back to the main menu.
    pub fn configuration_key(&mut self, code: KeyCode) -> (r: (Option<Action>, Vec<Command>))
        requires
            old(self).wf(),
        ensures
            final(self).wf(),
            configuration_keyed(*old(self), *final(self), code, r),
    {
        match code {
            KeyCode::Up | KeyCode::Char('k') => {
                self.list.move_selection_up();
                none()
            },
            KeyCode::Down | KeyCode::Char('j') => {
                self.list.move_selection_down();
                none()
            },
            KeyCode::Enter => maybe(self.handle_configuration_selection()),
            KeyCode::Esc | KeyCode::Char('b') => {
                self.save_current_navigation_state();
                self.go_to_main_menu();
                none()
            },
            _ => none(),
        }
    }
}

/// `Ctrl+C`: quit at once.
pub open spec fn is_quit_key(key: KeyInput) -> bool {
    key.ctrl && key.code == KeyCode::Char('c')
}

/// `Ctrl+.`: cycle the log panel.
pub open spec fn is_log_cycle_key(key: KeyInput) -> bool {
    key.ctrl && key.code == KeyCode::Char('.')
}

/// The key reaches the full-window log view.
pub open spec fn reaches_log_view(app: App, key: KeyInput) -> bool {
    !is_quit_key(key) && !is_log_cycle_key(key) && app.log_display_mode == LogDisplayMode::Full
}

/// What a key does to a search being typed; nothing outside the list
/// changes. Esc cancels the search (every item shows again), Enter ends it
/// keeping its filter, a character is added to the query and Backspace takes
/// the last one off (both filter again), and other keys do nothing.
pub open spec fn search_keyed(before: App, after: App, code: KeyCode) -> bool {
    let b = before.list;
    let a = after.list;
    &&& after.same_but_list(before)
    &&& code == KeyCode::Esc ==> {
        &&& !a.search_active && a.search_query@.len() == 0 && a.status_message is None
        &&& a.items@ == b.items@ && a.filtered_indices@ == all_indices(b.items@.len())
        &&& a.selected_index == b.selected_index && a.scroll_offset == b.scroll_offset && a.visible_height == b.visible_height
    }
    &&& code == KeyCode::Enter ==> {
        &&& !a.search_active && a.search_query@ == b.search_query@
        &&& a.items@ == b.items@ && a.filtered_indices@ == b.filtered_indices@
        &&& a.selected_index == b.selected_index && a.scroll_offset == b.scroll_offset && a.visible_height == b.visible_height
        &&& b.search_query@.len() == 0 ==> a.status_message is None
        &&& b.search_query@.len() > 0 ==> (a.status_message matches Some(m)
            && m@ == "Filtered: \""@ + b.search_query@ + "\" (Press '/' to search again)"@)
    }
    &&& match code {
        KeyCode::Char(c) => {
            &&& a.search_active
            &&& refiltered(b, a, b.search_query@.push(c))
            &&& a.status_message matches Some(m) && m@ == "Search: "@ + a.search_query@
        },
        _ => true,
    }
    &&& code == KeyCode::Backspace && b.search_query@.len() > 0 ==> {
        &&& a.search_active
        &&& refiltered(b, a, b.search_query@.drop_last())
        &&& a.status_message matches Some(m) && m@ == search_status_of(a.search_query@)
    }
    &&& code == KeyCode::Backspace && b.search_query@.len() == 0 ==> a == b
    &&& !(code == KeyCode::Esc || code == KeyCode::Enter || code == KeyCode::Backspace || code is Char) ==> a == b
}

/// The key reaches the search being typed.
pub open spec fn reaches_search(app: App, key: KeyInput) -> bool {
    !is_quit_key(key) && !is_log_cycle_key(key) && app.log_display_mode != LogDisplayMode::Full && app.list.search_active
}

/// The key reaches the keys common to every screen.
pub open spec fn reaches_common(app: App, key: KeyInput) -> bool {
    !is_quit_key(key) && !is_log_cycle_key(key) && app.log_display_mode != LogDisplayMode::Full && !app.list.search_active
}

/// `/` starts a search, except while loading or playing.
pub open spec fn starts_search(app: App, key: KeyInput) -> bool {
    reaches_common(app, key) && key.code == KeyCode::Char('/') && !(app.state is Loading || app.state is Playing)
}

/// The key reaches the help window or the screen: no search was started
/// and it is not the stop key `s`.
pub open spec fn past_stop(app: App, key: KeyInput) -> bool {
    reaches_common(app, key) && !starts_search(app, key) && key.code != KeyCode::Char('s')
}

/// The key reaches the current screen.
pub open spec fn reaches_screen(app: App, key: KeyInput) -> bool {
    &&& past_stop(app, key)
    &&& !app.show_help
    &&& key.code != KeyCode::Char('q')
    &&& key.code != KeyCode::Char('?')
    &&& key.code != KeyCode::F(1)
}

/// The message logged when the log panel changes.
pub open spec fn log_mode_message(m: LogDisplayMode) -> Seq<char> {
    match m {
        LogDisplayMode::Side => "Log panel: side view"@,
        LogDisplayMode::Hidden => "Log panel: hidden"@,
        LogDisplayMode::Full => "Log panel: full window"@,
    }
}

impl App {
    fn log_view_key(&mut self, code: KeyCode)
        requires
            old(self).wf(),
        ensures
            final(self).wf(),
            final(self).same_but_windows(*old(self)),
            (code == KeyCode::Home || code == KeyCode::Char('H')) ==> final(self).log_selected_index == 0 && final(self).log_scroll_offset == 0,
            (code == KeyCode::End || code == KeyCode::Char('G')) ==> final(self).log_selected_index == sat_sub(old(self).logs@.len() as int, 1),
            (code == KeyCode::Up || code == KeyCode::Char('k')) ==> final(self).log_selected_index == sat_sub(old(self).log_selected_index as int, 1),
            (code == KeyCode::Down || code == KeyCode::Char('j')) ==> final(self).log_selected_index
                == min_int(old(self).log_selected_index as int + 1, sat_sub(old(self).logs@.len() as int, 1))
                || final(self).log_selected_index == old(self).log_selected_index,
            final(self).log_selected_index <= old(self).log_selected_index || final(self).log_selected_index < old(self).logs@.len() as int,
            code == KeyCode::Esc ==> final(self).log_display_mode == LogDisplayMode::Side,
            code != KeyCode::Esc ==> final(self).log_display_mode == old(self).log_display_mode,
            code == KeyCode::Esc ==> crate::tui::app::logged(old(self).logs@, final(self).logs@, seq!["Log panel: side view"@]),
            code != KeyCode::Esc ==> final(self).logs == old(self).logs,
            final(self).show_help == old(self).show_help,
            final(self).help_scroll_offset == old(self).help_scroll_offset,
    {
        let n = self.logs.len();
        let last = if n == 0 { 0 } else { n - 1 };
        let height = self.list.visible_height;
        let page: usize = if height < 3 { 1 } else { height - 2 };
        match code {
            KeyCode::Up | KeyCode::Char('k') => {
                if self.log_selected_index > 0 {
                    self.log_selected_index = self.log_selected_index - 1;
                    if self.log_selected_index < self.log_scroll_offset {
                        self.log_scroll_offset = self.log_selected_index;
                    }
                }
            },
            KeyCode::Down | KeyCode::Char('j') => {
                if self.log_selected_index < last {
                    self.log_selected_index = self.log_selected_index + 1;
                }
            },
            KeyCode::PageUp => {
                self.log_selected_index = if self.log_selected_index < page { 0 } else { self.log_selected_index - page };
                if self.log_selected_index < self.log_scroll_offset {
                    self.log_scroll_offset = self.log_selected_index;
                }
            },
            KeyCode::PageDown => {
                let want: u128 = self.log_selected_index as u128 + page as u128;
                self.log_selected_index = if want < last as u128 { want as usize } else { last };
            },
            KeyCode::Home | KeyCode::Char('H') => {
                self.log_selected_index = 0;
                self.log_scroll_offset = 0;
            },
            KeyCode::End | KeyCode::Char('G') => {
                self.log_selected_index = last;
            },
            KeyCode::Esc => {
                self.log_display_mode = LogDisplayMode::Side;
                self.add_log(String::from_str("Log panel: side view"));
            },
            _ => {},
        }
    }

    fn help_key(&mut self, code: KeyCode)
        requires
            old(self).wf(),
        ensures
            final(self).wf(),
            help_keyed(*old(self), *final(self), code),
    {
        match code {
            KeyCode::Char('?') | KeyCode::F(1) | KeyCode::Esc => {
                self.show_help = false;
                self.help_scroll_offset = 0;
            },
            KeyCode::Up | KeyCode::Char('k') => {
                if self.help_scroll_offset > 0 {
                    self.help_scroll_offset = self.help_scroll_offset - 1;
                }
            },
            KeyCode::Down | KeyCode::Char('j') => {
                if self.help_scroll_offset < usize::MAX {
                    self.help_scroll_offset = self.help_scroll_offset + 1;
                }
            },
            KeyCode::PageUp => {
                self.help_scroll_offset = if self.help_scroll_offset < 10 { 0 } else { self.help_scroll_offset - 10 };
            },
            KeyCode::PageDown => {
                self.help_scroll_offset = if self.help_scroll_offset > usize::MAX - 10 { usize::MAX } else { self.help_scroll_offset + 10 };
            },
            KeyCode::Home => {
                self.help_scroll_offset = 0;
            },
            KeyCode::End => {
                self.help_scroll_offset = 1000;
            },
            _ => {
                self.show_help = false;
                self.help_scroll_offset = 0;
            },
        }
    }

    /// The current screen's part of a key press.
    pub fn screen_key(&mut self, key: KeyInput) -> (r: (Option<Action>, Vec<Command>))
        requires
            old(self).wf(),
        ensures
            final(self).wf(),
            r.0 is Some ==> r.0 == Some(Action::Quit) || r.0 == Some(Action::CacheRefresh),
            screen_keyed(*old(self), *final(self), key, r),
    {
        let mut st = AppState::MainMenu;
        core::mem::swap(&mut st, &mut self.state);
        let code = key.code;
        match st {
            AppState::Error(m) => {
                self.state = AppState::Error(m);
                self.error_key(code)
            },
            AppState::ProviderSelection => {
                self.state = AppState::ProviderSelection;
                self.provider_selection_key(code)
            },
            AppState::MainMenu => {
                self.state = AppState::MainMenu;
                self.main_menu_key(code)
            },
            AppState::CategorySelection(ct) => {
                self.state = AppState::CategorySelection(ct);
                self.category_key(ct, code)
            },
            AppState::StreamSelection(ct, cat) => {
                let c2 = cat.clone();
                self.state = AppState::StreamSelection(ct, cat);
                self.stream_key(ct, &c2, code)
            },
            AppState::VodInfo(v) => {
                self.state = AppState::VodInfo(v);
                self.vod_info_key(key)
            },
            AppState::SeasonSelection(series) => {
                let s2 = series.clone();
                self.state = AppState::SeasonSelection(series);
                self.season_key(&s2, code)
            },
            AppState::EpisodeSelection(series, season) => {
                let s2 = series.clone();
                self.state = AppState::EpisodeSelection(series, season);
                self.episode_key(&s2, code)
            },
            AppState::CrossProviderFavourites => {
                self.state = AppState::CrossProviderFavourites;
                self.favourites_key(code)
            },
            AppState::Playing(m) => {
                self.state = AppState::Playing(m);
                if code == KeyCode::Esc || code == KeyCode::Char('s') {
                    one(self.stop_playing())
                } else {
                    none()
                }
            },
            AppState::StreamAdvancedMenu(stream, ct) => {
                let s2 = stream.clone();
                self.state = AppState::StreamAdvancedMenu(stream, ct);
                self.advanced_menu_key(&s2, code)
            },
            AppState::Configuration => {
                self.state = AppState::Configuration;
                self.configuration_key(code)
            },
            AppState::Loading(m) => {
                self.state = AppState::Loading(m);
                none()
            },
        }
    }

    /// Handles a key press: `Ctrl+C` quits; `Ctrl+.` cycles the log panel
    /// (side, hidden, full window); the full-window log view takes every
    /// key; a search being typed takes every key; then `/` starts a search,
    /// `s` stops playback, the open help window takes every key, `q` quits,
    /// `?` or `F1` opens the help, and any other key goes to the current
    /// screen. Returns what the program loop must do: an action, and the
    /// outside work to perform (whose results come back through the other
    /// methods).
    pub fn handle_key_event(&mut self, key: KeyInput) -> (r: (Option<Action>, Vec<Command>))
        requires
            old(self).wf(),
        ensures
            final(self).wf(),
            is_quit_key(key) ==> r.0 == Some(Action::Quit) && r.1@.len() == 0 && *final(self) == *old(self),
            is_log_cycle_key(key) ==> quiet(r) && final(self).log_display_mode == old(self).log_display_mode.next_of()
                && final(self).logs@.last().1@ == log_mode_message(old(self).log_display_mode.next_of())
                && crate::tui::app::logged(old(self).logs@, final(self).logs@, seq![log_mode_message(old(self).log_display_mode.next_of())])
                && final(self).state == old(self).state && final(self).list == old(self).list,
            reaches_log_view(*old(self), key) && key.code == KeyCode::Esc ==>
                crate::tui::app::logged(old(self).logs@, final(self).logs@, seq!["Log panel: side view"@]),
            reaches_log_view(*old(self), key) && key.code != KeyCode::Esc ==> final(self).logs == old(self).logs,
            (reaches_search(*old(self), key) || starts_search(*old(self), key)) ==> final(self).logs == old(self).logs,
            reaches_log_view(*old(self), key) ==> quiet(r) && final(self).same_but_windows(*old(self))
                && final(self).show_help == old(self).show_help && final(self).help_scroll_offset == old(self).help_scroll_offset,
            reaches_log_view(*old(self), key) ==> final(self).log_display_mode
                == (if key.code == KeyCode::Esc { LogDisplayMode::Side } else { LogDisplayMode::Full }),
            reaches_search(*old(self), key) ==> quiet(r) && final(self).state == old(self).state
                && final(self).list.items@ == old(self).list.items@,
            reaches_search(*old(self), key) ==> search_keyed(*old(self), *final(self), key.code),
            reaches_search(*old(self), key) && (key.code matches KeyCode::Char(c)) ==> final(self).list.search_active
                && final(self).list.search_query@ == old(self).list.search_query@.push(key.code->Char_0)
                && (final(self).list.status_message matches Some(m) && m@ == "Search: "@ + final(self).list.search_query@),
            starts_search(*old(self), key) ==> quiet(r) && final(self).list.search_active && final(self).list.search_query@.len() == 0
                && final(self).same_but_list(*old(self)) && refiltered(old(self).list, final(self).list, seq![])
                && final(self).list.filtered_indices@ == all_indices(old(self).list.items@.len())
                && (final(self).list.status_message matches Some(m) && m@ == search_status_of(seq![])),
            reaches_common(*old(self), key) && !starts_search(*old(self), key) && key.code == KeyCode::Char('s') ==>
                r.0 is None && r.1@ == seq![Command::StopPlayback] && final(self).state is MainMenu
                && views(final(self).list.items@) == main_menu_of(old(self).config.providers@.len() == 1)
                && crate::tui::app::logged(old(self).logs@, final(self).logs@, seq!["Stopped playback"@, "Stopping any active playback"@]),
            past_stop(*old(self), key) && old(self).show_help ==> quiet(r) && final(self).state == old(self).state
                && final(self).list == old(self).list && help_keyed(*old(self), *final(self), key.code),
            past_stop(*old(self), key) && !old(self).show_help && key.code == KeyCode::Char('q') ==>
                r.0 == Some(Action::Quit) && r.1@.len() == 0 && *final(self) == *old(self),
            past_stop(*old(self), key) && (old(self).show_help || key.code == KeyCode::Char('?') || key.code == KeyCode::F(1)) ==>
                final(self).logs == old(self).logs,
            past_stop(*old(self), key) && !old(self).show_help && key.code != KeyCode::Char('q')
                && (key.code == KeyCode::Char('?') || key.code == KeyCode::F(1)) ==>
                quiet(r) && final(self).show_help && final(self).help_scroll_offset == 0 && final(self).same_but_windows(*old(self))
                && final(self).log_display_mode == old(self).log_display_mode && final(self).log_selected_index == old(self).log_selected_index
                && final(self).log_scroll_offset == old(self).log_scroll_offset,
            reaches_screen(*old(self), key) ==> (r.0 is Some ==> r.0 == Some(Action::Quit) || r.0 == Some(Action::CacheRefresh)),
            reaches_screen(*old(self), key) ==> screen_keyed(*old(self), *final(self), key, r),
    {
        if key.ctrl && key.code == KeyCode::Char('c') {
            return (Some(Action::Quit), Vec::new());
        }
        if key.ctrl && key.code == KeyCode::Char('.') {
            self.log_display_mode = self.log_display_mode.next();
            let msg = match self.log_display_mode {
                LogDisplayMode::Side => "Log panel: side view",
                LogDisplayMode::Hidden => "Log panel: hidden",
                LogDisplayMode::Full => "Log panel: full window",
            };
            self.add_log(String::from_str(msg));
            return none();
        }
        if self.log_display_mode == LogDisplayMode::Full {
            self.log_view_key(key.code);
            return none();
        }
        if self.list.search_active {
            match key.code {
                KeyCode::Esc => self.list.cancel_search(),
                KeyCode::Enter => self.list.confirm_search(),
                KeyCode::Backspace => self.list.delete_search_char(),
                KeyCode::Char(c) => self.list.update_search(c),
                _ => {},
            }
            return none();
        }
        let busy = match &self.state {
            AppState::Loading(_) | AppState::Playing(_) => true,
            _ => false,
        };
        if key.code == KeyCode::Char('/') && !busy {
            self.list.start_search();
            return none();
        }
        if key.code == KeyCode::Char('s') {
            let ghost l0 = self.logs@;
            let c = self.stop_playing();
            let ghost l1 = self.logs@;
            self.add_log(String::from_str("Stopping any active playback"));
            proof { crate::tui::app::lemma_logged_two(l0, l1, self.logs@, "Stopped playback"@, "Stopping any active playback"@); }
            return one(c);
        }
        if self.show_help {
            self.help_key(key.code);
            return none();
        }
        if key.code == KeyCode::Char('q') {
            return (Some(Action::Quit), Vec::new());
        }
        if key.code == KeyCode::Char('?') || key.code == KeyCode::F(1) {
            self.show_help = true;
            self.help_scroll_offset = 0;
            return none();
        }
        self.screen_key(key)
    }
}

/// The main menu choice under the selection of an app.
pub open spec fn main_menu_choice_of_app(app: App) -> MainMenuChoice {
    crate::tui::app::main_menu_choice_of(app.list.selected_index as int, app.config.providers@.len() == 1)
}

} // verus!
