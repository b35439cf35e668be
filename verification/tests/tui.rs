use iptv::cache::CacheManager;
use iptv::config::{Config, PlayMode, ProviderConfig, Settings};
use iptv::ignore::IgnoreConfig;
use iptv::tui::app::{Action, App, AppState, Command, ContentType, KeyCode, KeyInput, LogDisplayMode};
use iptv::tui::list::ListView;
use iptv::xtream_api::{FavouriteStream, Stream, XTreamAPI};

fn provider(name: Option<&str>, url: &str) -> ProviderConfig {
    ProviderConfig {
        id: None,
        name: name.map(|n| n.to_string()),
        url: url.to_string(),
        username: "user".to_string(),
        password: "pass".to_string(),
    }
}

fn config(providers: Vec<ProviderConfig>) -> Config {
    Config { providers, settings: Settings { play_mode: PlayMode::Mpv, use_ts_for_live: false } }
}

fn key(code: KeyCode) -> KeyInput {
    KeyInput { code, ctrl: false, shift: false }
}

fn stream(id: u32, name: &str) -> Stream {
    Stream {
        num: id,
        name: name.to_string(),
        stream_type: "live".to_string(),
        stream_id: id,
        stream_icon: None,
        epg_channel_id: None,
        added: None,
        category_id: Some("1".to_string()),
        category_ids: None,
        custom_sid: None,
        tv_archive: None,
        direct_source: None,
        tv_archive_duration: None,
        is_adult: None,
        rating: None,
        rating_5based: None,
        container_extension: None,
    }
}

fn connected_app() -> App {
    let p = provider(Some("Main"), "http://a.tv:8080/player_api.php");
    let mut app = App::new(config(vec![p.clone()]), IgnoreConfig::new());
    let mut cm = CacheManager::new("/c", Vec::new());
    let (api, _) = XTreamAPI::new(p.url.clone(), "user".to_string(), "pass".to_string(), p.name.clone(), &mut cm).unwrap();
    app.connected(&p, Ok(api));
    app
}

#[test]
fn several_providers_start_on_the_provider_list() {
    let app = App::new(config(vec![provider(Some("One"), "http://a.tv"), provider(None, "http://b.tv")]), IgnoreConfig::new());
    assert!(matches!(app.state, AppState::ProviderSelection));
    assert_eq!(app.list.items, vec!["Favourites", "One", "http://b.tv"]);
    assert_eq!(app.log_display_mode, LogDisplayMode::Side);
}

#[test]
fn no_provider_is_an_error() {
    let app = App::new(config(vec![]), IgnoreConfig::new());
    assert!(matches!(app.state, AppState::Error(ref m) if m == "No providers configured"));
}

#[test]
fn choosing_a_provider_asks_to_connect() {
    let mut app = App::new(config(vec![provider(Some("One"), "http://a.tv"), provider(None, "http://b.tv")]), IgnoreConfig::new());
    let (a, c) = app.handle_key_event(key(KeyCode::Down));
    assert!(a.is_none() && c.is_empty());
    assert_eq!(app.list.selected_index, 1);
    let (a, c) = app.handle_key_event(key(KeyCode::Enter));
    assert!(a.is_none());
    assert_eq!(c.len(), 1);
    assert!(matches!(&c[0], Command::Connect(p) if p.url == "http://a.tv"));
    assert!(matches!(app.state, AppState::Loading(ref m) if m == "Connecting to One..."));
}

#[test]
fn favourites_entry_loads_every_providers_favourites() {
    let mut app = App::new(config(vec![provider(Some("One"), "http://a.tv"), provider(None, "http://b.tv")]), IgnoreConfig::new());
    let (_, c) = app.handle_key_event(key(KeyCode::Enter));
    assert!(matches!(c.as_slice(), [Command::LoadAllFavourites]));
}

#[test]
fn single_provider_connects_on_tick_and_shows_the_menu() {
    let p = provider(None, "http://a.tv");
    let mut app = App::new(config(vec![p.clone()]), IgnoreConfig::new());
    assert!(matches!(app.state, AppState::Loading(_)));
    assert!(matches!(app.tick_command(), Some(Command::Connect(ref q)) if q.url == "http://a.tv"));
    let mut cm = CacheManager::new("/c", Vec::new());
    let (api, _) = XTreamAPI::new(p.url.clone(), "u".to_string(), "p".to_string(), None, &mut cm).unwrap();
    app.connected(&p, Ok(api));
    assert!(matches!(app.state, AppState::MainMenu));
    assert_eq!(app.list.items, vec!["Favourites", "Live TV", "Movies (VOD)", "TV Series", "Configuration", "Refresh Cache"]);
    assert!(app.tick_command().is_none());
}

#[test]
fn failed_connection_shows_the_error() {
    let p = provider(None, "http://a.tv");
    let mut app = App::new(config(vec![p.clone()]), IgnoreConfig::new());
    app.connected(&p, Err("timeout".to_string()));
    assert!(matches!(app.state, AppState::Error(ref m) if m == "Failed to connect: timeout"));
}

#[test]
fn ctrl_c_quits_and_ctrl_dot_cycles_the_log_panel() {
    let mut app = connected_app();
    let (a, c) = app.handle_key_event(KeyInput { code: KeyCode::Char('c'), ctrl: true, shift: false });
    assert_eq!(a, Some(Action::Quit));
    assert!(c.is_empty());
    app.handle_key_event(KeyInput { code: KeyCode::Char('.'), ctrl: true, shift: false });
    assert_eq!(app.log_display_mode, LogDisplayMode::Hidden);
    assert_eq!(app.logs.last().unwrap().1, "Log panel: hidden");
}

#[test]
fn logs_keep_the_last_hundred_lines() {
    let mut app = App::new(config(vec![]), IgnoreConfig::new());
    for i in 0..150u64 {
        app.add_log_at(format!("line {}", i), i);
    }
    assert_eq!(app.logs.len(), 100);
    assert_eq!(app.logs[0], (50, "line 50".to_string()));
    assert_eq!(app.logs[99], (149, "line 149".to_string()));
}

#[test]
fn remembered_position_comes_back() {
    let mut app = connected_app();
    app.list.move_selection_down();
    app.list.move_selection_down();
    assert_eq!(app.list.selected_index, 2);
    app.save_current_navigation_state();
    app.list.move_selection_home();
    assert_eq!(app.list.selected_index, 0);
    app.restore_navigation_state(&AppState::MainMenu);
    assert_eq!(app.list.selected_index, 2);
}

#[test]
fn restored_position_is_kept_within_the_items() {
    let mut app = connected_app();
    app.list.move_selection_end();
    app.save_current_navigation_state();
    app.list.set_items(vec!["a".to_string(), "b".to_string()]);
    app.restore_navigation_state(&AppState::MainMenu);
    assert_eq!(app.list.selected_index, 1);
    assert_eq!(app.list.filtered_indices, vec![0usize, 1]);
}

#[test]
fn screen_without_memory_starts_at_the_top() {
    let mut app = connected_app();
    app.list.move_selection_down();
    app.restore_navigation_state(&AppState::CategorySelection(ContentType::Movies));
    assert_eq!(app.list.selected_index, 0);
    assert_eq!(app.list.filtered_indices, (0..app.list.items.len()).collect::<Vec<_>>());
}

#[test]
fn advanced_menu_comes_back_to_the_list() {
    let mut app = connected_app();
    app.list.move_selection_down();
    let items = app.list.items.clone();
    app.show_stream_advanced_menu(stream(5, "News"), ContentType::Live);
    assert!(matches!(app.state, AppState::StreamAdvancedMenu(_, ContentType::Live)));
    assert_eq!(app.list.items.len(), 7);
    assert_eq!(app.list.items[6], "Back");
    app.restore_previous_state();
    assert!(matches!(app.state, AppState::MainMenu));
    assert_eq!(app.list.items, items);
    assert_eq!(app.list.selected_index, 1);
}

#[test]
fn favourite_toggle_twice_restores_the_list() {
    let mut app = connected_app();
    app.list.set_items(vec!["News".to_string()]);
    let s = stream(5, "News");
    let added = app.toggle_favourite(&s, Vec::new(), "2024-02-03".to_string()).unwrap();
    assert_eq!(added.len(), 1);
    assert_eq!(added[0].stream_id, 5);
    assert_eq!(added[0].added_date, "2024-02-03");
    assert_eq!(app.list.items[0], "[FAV] News");
    let removed = app.toggle_favourite(&s, added, "x".to_string()).unwrap();
    assert!(removed.is_empty());
    assert_eq!(app.list.items[0], "News");
}

#[test]
fn search_filters_ignoring_case() {
    let mut l = ListView::new(vec!["BBC One".to_string(), "CNN".to_string(), "bbc two".to_string()]);
    l.start_search();
    l.update_search('B');
    l.update_search('b');
    assert_eq!(l.filtered_indices, vec![0, 2]);
    assert_eq!(l.selected_index, 0);
    l.delete_search_char();
    l.delete_search_char();
    assert_eq!(l.filtered_indices, vec![0, 1, 2]);
    l.update_search('z');
    assert!(l.filtered_indices.is_empty());
    l.cancel_search();
    assert_eq!(l.filtered_indices, vec![0, 1, 2]);
    assert!(!l.search_active);
}

#[test]
fn moving_wraps_around_the_filter() {
    let mut l = ListView::new(vec!["a".to_string(), "b".to_string(), "c".to_string()]);
    l.move_selection_up();
    assert_eq!(l.selected_index, 2);
    l.move_selection_down();
    assert_eq!(l.selected_index, 0);
    l.move_selection_down();
    l.move_selection_up();
    assert_eq!(l.selected_index, 0);
}

#[test]
fn visible_height_leaves_room_for_header_and_footer() {
    let mut app = connected_app();
    app.update_visible_height(30);
    assert_eq!(app.list.visible_height, 26);
    app.update_visible_height(3);
    assert_eq!(app.list.visible_height, 1);
}

#[test]
fn page_keys_move_ten_items() {
    let items: Vec<String> = (0..30).map(|i| format!("item {}", i)).collect();
    let mut l = ListView::new(items);
    l.update_visible_height(5);
    l.move_selection_page_down();
    assert_eq!(l.selected_index, 10);
    l.move_selection_page_down();
    l.move_selection_page_down();
    assert_eq!(l.selected_index, 29);
    l.move_selection_page_up();
    assert_eq!(l.selected_index, 19);
    l.move_selection_page_up();
    l.move_selection_page_up();
    assert_eq!(l.selected_index, 0);
}

#[test]
fn search_is_fuzzy_over_the_typed_characters_in_order() {
    let mut l = ListView::new(vec!["Sky Sports News".to_string(), "BBC One".to_string()]);
    l.start_search();
    l.update_search('s');
    l.update_search('s');
    l.update_search('n');
    assert_eq!(l.filtered_indices, vec![0]);
    assert_eq!(l.selected_index, 0);
    assert_eq!(l.scroll_offset, 0);
    assert_eq!(l.status_message, Some("Search: ssn".to_string()));
}

#[test]
fn advanced_menu_comes_back_after_moving_in_it() {
    let mut app = connected_app();
    app.list.move_selection_down();
    let items = app.list.items.clone();
    app.show_stream_advanced_menu(stream(5, "News"), ContentType::Live);
    app.list.move_selection_down();
    app.list.move_selection_down();
    app.list.move_selection_up();
    app.restore_previous_state();
    assert!(matches!(app.state, AppState::MainMenu));
    assert_eq!(app.list.items, items);
    assert_eq!(app.list.selected_index, 1);
    assert!(app.previous_state_before_menu.is_none());
    assert!(app.previous_items_before_menu.is_empty());
}

#[test]
fn favourite_of_the_same_id_but_another_type_does_not_stop_adding() {
    let mut app = connected_app();
    let s = stream(5, "News");
    let other = FavouriteStream {
        stream_id: 5,
        name: "News film".to_string(),
        stream_type: "movie".to_string(),
        provider_hash: "h".to_string(),
        added_date: "d".to_string(),
        category_id: None,
    };
    let updated = app.toggle_favourite(&s, vec![other], "now".to_string()).unwrap();
    assert_eq!(updated.len(), 2);
    assert_eq!(updated[1].stream_id, 5);
    assert_eq!(updated[1].stream_type, "live");
    assert_eq!(app.logs.last().unwrap().1, "Added News to favourites");
}

#[test]
fn add_log_shifts_out_the_oldest_line_when_full() {
    let mut app = App::new(config(vec![]), IgnoreConfig::new());
    for i in 0..100u64 {
        app.add_log_at(format!("line {}", i), i);
    }
    app.add_log("newest".to_string());
    assert_eq!(app.logs.len(), 100);
    assert_eq!(app.logs[0], (1, "line 1".to_string()));
    assert_eq!(app.logs[98], (99, "line 99".to_string()));
    assert_eq!(app.logs[99].1, "newest");
}
