use iptv::commands::favorites::{
    added_message, favourite_line, favourite_m3u, favourite_to_remove, new_favourite, series_name_for, stream_name_for,
};
use iptv::commands::list::{item_line, item_m3u, take_limit, ListCommand};
use iptv::commands::providers::provider_list_lines;
use iptv::config::{Config, PlayMode, ProviderConfig};
use iptv::ignore::IgnoreConfig;
use iptv::rofi::{rofi_args, rofi_input, rofi_kind, rofi_line, rofi_selection};
use iptv::setup::{should_run_setup, validate_password, validate_server_url, validate_username, SetupInputError};
use iptv::tui::screens::filter_categories;
use iptv::tui::wrap::{break_url, wrap_text};
use iptv::xtream_api::{Category, FavouriteStream};

fn provider(name: Option<&str>, url: &str, user: &str) -> ProviderConfig {
    ProviderConfig { id: None, name: name.map(|n| n.to_string()), url: url.to_string(), username: user.to_string(), password: "p".to_string() }
}

fn fav(id: u32, t: &str, name: &str) -> FavouriteStream {
    FavouriteStream {
        stream_id: id,
        name: name.to_string(),
        stream_type: t.to_string(),
        provider_hash: "h".to_string(),
        added_date: "d".to_string(),
        category_id: None,
    }
}

fn cat(id: &str, name: &str) -> Category {
    Category { category_id: id.to_string(), category_name: name.to_string(), parent_id: None }
}

#[test]
fn favourites_command_lines() {
    let f = fav(42, "live", "News");
    assert_eq!(favourite_line(&f, false), "[    42] News (live)");
    assert_eq!(favourite_line(&f, true), "  [    42] News (live)");
    assert_eq!(favourite_m3u(&f), vec!["#EXTINF:-1,News", "http://placeholder/live/42"]);
    assert_eq!(added_message("News", "Main"), "Added 'News' to favorites in Main");
    let n = new_favourite(7, "X".to_string(), iptv::cli::ContentType::Series, "hh".to_string(), "today".to_string());
    assert_eq!(n.stream_type, "series");
    assert_eq!(n.provider_hash, "hh");
    assert_eq!(favourite_to_remove(&vec![fav(1, "live", "a"), fav(7, "movie", "b")], 7), Ok(1));
    assert_eq!(favourite_to_remove(&vec![], 7), Err("Favorite 7 not found".to_string()));
    assert_eq!(stream_name_for(&vec![], iptv::cli::ContentType::Movie, 3), Err("Movie 3 not found".to_string()));
    assert_eq!(series_name_for(&vec![], 4), Err("Series 4 not found".to_string()));
}

#[test]
fn list_command_lines_and_limit() {
    assert_eq!(item_line(12, "BBC"), "    12 | BBC");
    assert_eq!(item_m3u(3, "A", "live"), vec!["#EXTINF:-1 tvg-id=\"3\" tvg-name=\"A\",A", "http://placeholder/live/3"]);
    assert_eq!(take_limit(vec![1, 2, 3], Some(2)), vec![1, 2]);
    assert_eq!(take_limit(vec![1, 2, 3], Some(5)), vec![1, 2, 3]);
    assert_eq!(take_limit(vec![1, 2, 3], None), vec![1, 2, 3]);
    let cmd = ListCommand { content_type: iptv::cli::ContentType::Live, category: None, format: iptv::cli::OutputFormat::Text, limit: None };
    assert_eq!(cmd.empty_message(), "No live found");
}

#[test]
fn provider_list() {
    assert_eq!(provider_list_lines(&vec![]), vec!["No providers configured"]);
    let lines = provider_list_lines(&vec![provider(Some("Main"), "http://a", "u"), provider(None, "http://b", "v")]);
    assert!(lines.contains(&"  1. Main (http://a)".to_string()));
    assert!(lines.contains(&"  2. v@http://b (http://b)".to_string()));
}

#[test]
fn rofi_lines_and_choice() {
    let entries = vec![(fav(1, "live", "News"), provider(Some("Main"), "http://a", "u")), (fav(2, "movie", "Film"), provider(None, "http://b", "u"))];
    assert_eq!(rofi_line(&entries[0].0, &entries[0].1), "News [Main]");
    assert_eq!(rofi_input(&entries), "News [Main]\nFilm\n");
    assert_eq!(rofi_selection(&entries, "Film\n"), Some(1));
    assert_eq!(rofi_selection(&entries, "  \n"), None);
    assert_eq!(rofi_selection(&entries, "Other"), None);
    assert_eq!(rofi_kind("live"), Ok("live"));
    assert_eq!(rofi_kind("series"), Err("Series playback not supported in rofi mode. Use TUI mode instead.".to_string()));
    assert_eq!(rofi_kind("radio"), Err("Unknown stream type: radio".to_string()));
    assert_eq!(rofi_args()[0], "-dmenu");
    assert_eq!(rofi_args().len(), 9);
}

#[test]
fn setup_validation() {
    assert_eq!(validate_server_url(""), Err(SetupInputError::UrlRequired));
    assert_eq!(validate_server_url("ftp://x"), Err(SetupInputError::UrlScheme));
    assert_eq!(validate_server_url("https://x"), Ok(()));
    assert_eq!(validate_username(""), Err(SetupInputError::UsernameRequired));
    assert_eq!(validate_password("s3cret"), Ok(()));
    assert_eq!(validate_password(""), Err(SetupInputError::PasswordRequired));
    assert_eq!(SetupInputError::UrlScheme.message(), "URL must start with http:// or https://");
    let example = Config {
        providers: vec![provider(None, "https://your-server.com:port/player_api.php", "your-username")],
        settings: iptv::config::Settings { play_mode: PlayMode::Mpv, use_ts_for_live: false },
    };
    assert!(should_run_setup(true, &example));
    assert!(should_run_setup(false, &example));
    let real = Config { providers: vec![provider(None, "http://real", "me")], settings: example.settings };
    assert!(!should_run_setup(true, &real));
}

#[test]
fn provider_names() {
    let named = provider(Some("Main"), "http://a", "u");
    let unnamed = provider(None, "http://b", "v");
    assert_eq!(named.display_name(), "Main");
    assert_eq!(unnamed.display_name(), "v@http://b");
    assert_eq!(unnamed.label(), "http://b");
    assert_eq!(PlayMode::Mpv.toggled(), PlayMode::MpvInTerminal);
    assert_eq!(PlayMode::MpvInTerminal.label(), "MPV in Terminal");
    assert_eq!(Config::default_config_path(Some("/home/u")), Some("/home/u/.config/iptv/config.toml".to_string()));
    assert_eq!(Config::default_config_path(None), None);
}

#[test]
fn hiding_twice_shows_again() {
    let mut ig = IgnoreConfig::new();
    assert!(ig.toggle_category("Adult"));
    assert!(ig.is_category_ignored("Adult"));
    assert!(!ig.toggle_category("Adult"));
    assert!(!ig.is_category_ignored("Adult"));
    assert!(ig.toggle_channel("Shop TV"));
    assert_eq!(ig.get_ignored_channels(), &vec!["Shop TV".to_string()]);
    assert!(ig.get_ignored_categories().is_empty());
    assert_eq!(IgnoreConfig::config_path("/home/u/.config"), "/home/u/.config/iptv/ignore.toml");
}

#[test]
fn hidden_categories_are_not_listed() {
    let cats = vec![cat("1", "News"), cat("2", "Adult"), cat("3", "Kids")];
    let ig = IgnoreConfig::from_lists(vec!["Adult".to_string()], vec![]);
    let shown = filter_categories(&cats, &ig);
    assert_eq!(shown.iter().map(|c| c.category_name.clone()).collect::<Vec<_>>(), vec!["News", "Kids"]);
}

#[test]
fn wrapping_is_greedy_by_words() {
    assert_eq!(wrap_text("the quick brown fox", 10, "  "), vec!["  the quick", "  brown fox"]);
    assert_eq!(wrap_text("", 10, "  "), Vec::<String>::new());
    assert_eq!(break_url("http://x"), vec!["   http://x"]);
    let long = format!("http://example.com/{}", "a".repeat(100));
    let lines = break_url(&long);
    assert!(lines.len() >= 2);
    assert_eq!(lines.concat().replace("   ", ""), long);
}

#[test]
fn wrap_keeps_a_leading_word_longer_than_the_line() {
    assert_eq!(wrap_text("abcdefghijkl is long", 10, "  "), vec!["  abcdefghijkl", "  is long"]);
}
