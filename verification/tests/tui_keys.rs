use iptv::cache::CacheManager;
use iptv::config::{Config, PlayMode, ProviderConfig, Settings};
use iptv::ignore::IgnoreConfig;
use iptv::tui::app::{Action, App, AppState, Command, ContentType, KeyCode, KeyInput, PlayHow, PlayKind, TuiSeason};
use iptv::tui::app::VodInfoState;
use iptv::xtream_api::{ApiEpisode, Category, MovieData, VodInfo, VodInfoResponse, XTreamAPI};

fn key(code: KeyCode) -> KeyInput {
    KeyInput { code, ctrl: false, shift: false }
}

fn cat(id: &str, name: &str) -> Category {
    Category { category_id: id.to_string(), category_name: name.to_string(), parent_id: None }
}

fn app_on_main_menu(ignore: IgnoreConfig) -> App {
    let p = ProviderConfig {
        id: None,
        name: Some("Main".to_string()),
        url: "http://a.tv".to_string(),
        username: "u".to_string(),
        password: "p".to_string(),
    };
    let config = Config { providers: vec![p.clone()], settings: Settings { play_mode: PlayMode::Mpv, use_ts_for_live: false } };
    let mut app = App::new(config, ignore);
    let mut cm = CacheManager::new("/c", Vec::new());
    let (api, _) = XTreamAPI::new(p.url.clone(), "u".to_string(), "p".to_string(), p.name.clone(), &mut cm).unwrap();
    app.connected(&p, Ok(api));
    app
}

#[test]
fn q_quits_and_question_mark_toggles_help() {
    let mut app = app_on_main_menu(IgnoreConfig::new());
    let (a, _) = app.handle_key_event(key(KeyCode::Char('?')));
    assert!(a.is_none());
    assert!(app.show_help);
    app.handle_key_event(key(KeyCode::Esc));
    assert!(!app.show_help);
    let (a, c) = app.handle_key_event(key(KeyCode::Char('q')));
    assert_eq!(a, Some(Action::Quit));
    assert!(c.is_empty());
}

#[test]
fn slash_starts_a_search_that_filters_the_menu() {
    let mut app = app_on_main_menu(IgnoreConfig::new());
    app.handle_key_event(key(KeyCode::Char('/')));
    assert!(app.list.search_active);
    app.handle_key_event(key(KeyCode::Char('t')));
    app.handle_key_event(key(KeyCode::Char('v')));
    assert_eq!(app.list.search_query, "tv");
    let shown: Vec<&str> = app.list.filtered_indices.iter().map(|&i| app.list.items[i].as_str()).collect();
    assert_eq!(shown, vec!["Live TV", "TV Series"]);
    app.handle_key_event(key(KeyCode::Esc));
    assert!(!app.list.search_active);
    assert_eq!(app.list.filtered_indices.len(), app.list.items.len());
}

#[test]
fn s_stops_playback_and_returns_to_the_menu() {
    let mut app = app_on_main_menu(IgnoreConfig::new());
    let (a, c) = app.handle_key_event(key(KeyCode::Char('s')));
    assert!(a.is_none());
    assert!(matches!(c.as_slice(), [Command::StopPlayback]));
    assert!(matches!(app.state, AppState::MainMenu));
    assert_eq!(app.logs.last().unwrap().1, "Stopping any active playback");
}

#[test]
fn live_tv_fetches_categories_and_lists_them_with_all_first() {
    let mut app = app_on_main_menu(IgnoreConfig::from_lists(vec!["Adult".to_string()], vec![]));
    app.list.move_selection_down();
    assert_eq!(app.list.items[app.list.selected_index], "Live TV");
    let (_, c) = app.handle_key_event(key(KeyCode::Enter));
    assert!(matches!(c.as_slice(), [Command::FetchCategories { content_type: ContentType::Live, .. }]));
    app.categories_loaded(ContentType::Live, false, Ok(vec![cat("1", "News"), cat("2", "Adult"), cat("3", "Sports")]));
    assert!(matches!(app.state, AppState::CategorySelection(ContentType::Live)));
    assert_eq!(app.list.items, vec!["All", "News", "Sports"]);
}

#[test]
fn failed_category_fetch_shows_the_error() {
    let mut app = app_on_main_menu(IgnoreConfig::new());
    app.categories_loaded(ContentType::Series, false, Err("HTTP 500".to_string()));
    assert!(matches!(app.state, AppState::Error(ref m) if m == "Failed to load categories: HTTP 500"));
}

fn stream(id: u32, name: &str, stream_type: &str, category: &str) -> iptv::xtream_api::Stream {
    iptv::xtream_api::Stream {
        num: id,
        name: name.to_string(),
        stream_type: stream_type.to_string(),
        stream_id: id,
        stream_icon: None,
        epg_channel_id: None,
        added: None,
        category_id: Some(category.to_string()),
        category_ids: None,
        custom_sid: None,
        tv_archive: None,
        direct_source: None,
        tv_archive_duration: None,
        is_adult: None,
        rating: None,
        rating_5based: None,
        container_extension: None,
    }
}

#[test]
fn enter_on_a_channel_plays_it_and_logs_the_url() {
    let mut app = app_on_main_menu(IgnoreConfig::new());
    let news = cat("1", "News");
    app.streams_loaded(ContentType::Live, news.clone(), false, Vec::new(), Ok(vec![stream(7, "BBC", "live", "1"), stream(8, "CNN", "live", "1")]));
    app.list.move_selection_down();
    let (a, c) = app.handle_key_event(key(KeyCode::Enter));
    assert!(a.is_none());
    match c.as_slice() {
        [Command::Play { url, name, .. }] => {
            assert_eq!(url, "http://a.tv/live/u/p/8.m3u8");
            assert_eq!(name, "CNN");
        }
        other => panic!("unexpected commands: {:?}", other),
    }
    let n = app.logs.len();
    assert_eq!(app.logs[n - 2].1, "Playing: CNN");
    assert_eq!(app.logs[n - 1].1, "Stream URL: http://a.tv/live/u/p/8.m3u8");
    assert!(matches!(app.state, AppState::StreamSelection(ContentType::Live, _)));
}

#[test]
fn leaving_seasons_goes_back_to_the_series_category() {
    let mut app = app_on_main_menu(IgnoreConfig::new());
    let show = stream(5, "Wire", "series", "2");
    app.categories = vec![cat("all", "All"), cat("1", "Drama"), cat("2", "Crime")];
    app.streams = vec![show.clone()];
    app.state = AppState::SeasonSelection(show);
    let (_, c) = app.handle_key_event(key(KeyCode::Esc));
    match &app.state {
        AppState::StreamSelection(ContentType::Series, category) => assert_eq!(category.category_name, "Crime"),
        other => panic!("unexpected state: {:?}", other),
    }
    match c.as_slice() {
        [Command::LoadStreams { content_type: ContentType::Series, category, force_refresh: false, restore_nav: true }] => {
            assert_eq!(category.category_id, "2")
        }
        other => panic!("unexpected commands: {:?}", other),
    }
}

#[test]
fn ctrl_dot_cycles_the_log_panel_and_logs_it() {
    let mut app = app_on_main_menu(IgnoreConfig::new());
    let (a, c) = app.handle_key_event(KeyInput { code: KeyCode::Char('.'), ctrl: true, shift: false });
    assert!(a.is_none() && c.is_empty());
    assert_eq!(app.logs.last().unwrap().1, "Log panel: hidden");
}

#[test]
fn d_plays_the_selected_channel_in_a_detached_window() {
    let mut app = app_on_main_menu(IgnoreConfig::new());
    app.streams_loaded(ContentType::Live, cat("1", "News"), false, Vec::new(), Ok(vec![stream(7, "BBC", "live", "1")]));
    let (a, c) = app.handle_key_event(key(KeyCode::Char('d')));
    assert!(a.is_none());
    match c.as_slice() {
        [Command::Play { url, how, kind, name }] => {
            assert_eq!(url, "http://a.tv/live/u/p/7.m3u8");
            assert_eq!(*how, PlayHow::Disassociated);
            assert_eq!(*kind, PlayKind::StreamDetached);
            assert_eq!(name, "BBC");
        }
        other => panic!("unexpected commands: {:?}", other),
    }
    assert_eq!(app.logs.last().unwrap().1, "Stream URL: http://a.tv/live/u/p/7.m3u8");
}

#[test]
fn d_plays_the_selected_episode_in_a_detached_window() {
    let mut app = app_on_main_menu(IgnoreConfig::new());
    let show = stream(5, "Wire", "series", "2");
    let ep = ApiEpisode {
        id: "41".to_string(),
        episode_num: 1,
        title: "Pilot".to_string(),
        container_extension: Some("mkv".to_string()),
        info: None,
        custom_sid: None,
        added: None,
        season: 1,
        direct_source: None,
    };
    app.episodes = vec![ep];
    app.list.items = vec!["Episode 1 - Pilot".to_string()];
    app.list.filtered_indices = vec![0];
    app.list.selected_index = 0;
    app.state = AppState::EpisodeSelection(show, TuiSeason { season_number: 1, name: "Season 1".to_string(), episode_count: 1 });
    let (_, c) = app.handle_key_event(key(KeyCode::Char('d')));
    match c.as_slice() {
        [Command::Play { url, how, kind, name }] => {
            assert_eq!(url, "http://a.tv/series/u/p/41.mkv");
            assert_eq!(*how, PlayHow::Disassociated);
            assert_eq!(*kind, PlayKind::EpisodeDetached);
            assert_eq!(name, "Pilot");
        }
        other => panic!("unexpected commands: {:?}", other),
    }
    let n = app.logs.len();
    assert_eq!(app.logs[n - 2].1, "Playing in detached window: Pilot");
}

fn fav(id: u32, name: &str, stream_type: &str) -> iptv::xtream_api::FavouriteStream {
    iptv::xtream_api::FavouriteStream {
        stream_id: id,
        name: name.to_string(),
        stream_type: stream_type.to_string(),
        provider_hash: "h".to_string(),
        added_date: "2024-01-01".to_string(),
        category_id: None,
    }
}

#[test]
fn streams_are_marked_by_favourite_id_whatever_its_type() {
    let mut app = app_on_main_menu(IgnoreConfig::new());
    let favourites = vec![fav(7, "BBC", "movie")];
    app.streams_loaded(ContentType::Live, cat("1", "News"), false, favourites,
        Ok(vec![stream(7, "BBC", "live", "1"), stream(8, "CNN", "live", "1")]));
    assert_eq!(app.list.items, vec!["[FAV] BBC".to_string(), "CNN".to_string()]);
}

#[test]
fn cached_streams_are_shown_again_without_hidden_channels() {
    let mut ignore = IgnoreConfig::new();
    let news = cat("1", "News");
    let mut app = app_on_main_menu(IgnoreConfig::new());
    app.streams_loaded(ContentType::Live, news.clone(), false, Vec::new(),
        Ok(vec![stream(7, "BBC", "live", "1"), stream(8, "CNN", "live", "1")]));
    ignore.toggle_channel("CNN");
    app.ignore_config = ignore;
    app.streams = Vec::new();
    let c = app.load_streams(ContentType::Live, news, false, false, vec![fav(7, "BBC", "live")]);
    assert!(c.is_none());
    assert_eq!(app.streams.len(), 1);
    assert_eq!(app.streams[0].name, "BBC");
    assert_eq!(app.list.items, vec!["[FAV] BBC".to_string()]);
    assert_eq!(app.logs.last().unwrap().1, "Using cached streams for News");
}

#[test]
fn typing_after_slash_on_a_fresh_app_searches() {
    let mut app = App::new(Config { providers: vec![], settings: Settings { play_mode: PlayMode::Mpv, use_ts_for_live: false } }, IgnoreConfig::new());
    assert!(!app.list.search_active);
    assert!(matches!(&app.state, AppState::Error(m) if m == "No providers configured"));
    let (a, _) = app.handle_key_event(key(KeyCode::Char('/')));
    assert!(a.is_none());
    assert!(app.list.search_active);
    let (a, c) = app.handle_key_event(key(KeyCode::Char('q')));
    assert!(a.is_none() && c.is_empty());
    assert!(app.list.search_active);
    assert_eq!(app.list.search_query, "q");
    assert_eq!(app.list.status_message, Some("Search: q".to_string()));
    assert!(matches!(app.state, AppState::Error(_)));
}

#[test]
fn opening_help_keeps_the_list() {
    let mut app = app_on_main_menu(IgnoreConfig::new());
    app.list.move_selection_down();
    let items = app.list.items.clone();
    let selected = app.list.selected_index;
    let (a, c) = app.handle_key_event(key(KeyCode::F(1)));
    assert!(a.is_none() && c.is_empty());
    assert!(app.show_help);
    assert_eq!(app.help_scroll_offset, 0);
    assert_eq!(app.list.items, items);
    assert_eq!(app.list.selected_index, selected);
    assert!(!app.list.search_active);
}

#[test]
fn full_log_view_takes_every_key_until_esc() {
    let mut app = app_on_main_menu(IgnoreConfig::new());
    app.log_display_mode = iptv::tui::app::LogDisplayMode::Full;
    let items = app.list.items.clone();
    for code in [KeyCode::Char('q'), KeyCode::Enter, KeyCode::Char('/'), KeyCode::Char('s')] {
        let (a, c) = app.handle_key_event(key(code));
        assert!(a.is_none() && c.is_empty());
        assert_eq!(app.log_display_mode, iptv::tui::app::LogDisplayMode::Full);
        assert!(matches!(app.state, AppState::MainMenu));
        assert_eq!(app.list.items, items);
        assert!(!app.list.search_active);
        assert!(!app.show_help);
    }
    app.handle_key_event(key(KeyCode::Esc));
    assert_eq!(app.log_display_mode, iptv::tui::app::LogDisplayMode::Side);
    assert_eq!(app.logs.last().unwrap().1, "Log panel: side view");
}

#[test]
fn movie_details_select_the_play_action_not_the_plot() {
    let mut app = app_on_main_menu(IgnoreConfig::new());
    let info = VodInfoResponse {
        info: VodInfo {
            movie_image: None,
            name: "Heist".to_string(),
            tmdb_id: None,
            backdrop: None,
            youtube_trailer: None,
            genre: None,
            plot: Some("They Play Movie stars.".to_string()),
            cast: None,
            rating: None,
            director: None,
            releasedate: None,
            backdrop_path: None,
            duration_secs: None,
            duration: None,
        },
        movie_data: MovieData {
            stream_id: 9,
            name: "Heist".to_string(),
            added: None,
            category_id: None,
            container_extension: "mp4".to_string(),
            custom_sid: None,
            direct_source: None,
        },
    };
    let pending = VodInfoState {
        stream: stream(9, "Heist", "movie", "1"),
        saved_filter: String::new(),
        saved_selected: 0,
        saved_filtered_indices: Vec::new(),
        saved_scroll: 0,
        saved_items: Vec::new(),
        content_scroll: 0,
    };
    assert!(app.vod_info_loaded(pending, Ok(info)).is_none());
    let n = app.list.items.len();
    assert_eq!(app.list.selected_index, n - 4);
    assert_eq!(app.list.items[n - 4], "  > Play Movie");
    assert!(app.list.items.iter().any(|l| l.contains("They Play Movie stars.")));
}

#[test]
fn search_keys_refilter_and_leave_the_rest() {
    let mut app = app_on_main_menu(IgnoreConfig::new());
    app.list.set_items(vec!["BBC One".to_string(), "CNN".to_string(), "bbc two".to_string()]);
    app.handle_key_event(key(KeyCode::Char('/')));
    assert_eq!(app.list.status_message, Some("Search: Type to filter, Enter to confirm, Esc to cancel".to_string()));
    app.handle_key_event(key(KeyCode::Char('b')));
    app.handle_key_event(key(KeyCode::Char('t')));
    assert_eq!(app.list.filtered_indices, vec![2]);
    assert_eq!(app.list.selected_index, 2);
    assert_eq!(app.list.scroll_offset, 0);
    app.handle_key_event(key(KeyCode::Backspace));
    assert_eq!(app.list.search_query, "b");
    assert_eq!(app.list.filtered_indices, vec![0, 2]);
    assert_eq!(app.list.selected_index, 0);
    assert_eq!(app.list.status_message, Some("Search: b".to_string()));
    app.handle_key_event(key(KeyCode::Enter));
    assert!(!app.list.search_active);
    assert_eq!(app.list.filtered_indices, vec![0, 2]);
    assert_eq!(app.list.status_message, Some("Filtered: \"b\" (Press '/' to search again)".to_string()));
    assert!(!app.show_help);
    assert_eq!(app.log_display_mode, iptv::tui::app::LogDisplayMode::Side);
    assert!(matches!(app.state, AppState::MainMenu));
}
