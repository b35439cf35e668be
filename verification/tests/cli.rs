use iptv::cache::CacheManager;
use iptv::cli::cache::{clear_message, refresh_message};
use iptv::cli::info::InfoCommand;
use iptv::cli::play::{LiveCheck, PlayCommand};
use iptv::cli::search::{result_line, result_m3u, search_series, search_streams, SearchCommand, SearchResult};
use iptv::cli::{CommandContext, OutputFormat, ProviderChoice, ProviderScope};
use iptv::config::ProviderConfig;
use iptv::xtream_api::{Stream, XTreamAPI};

fn provider(name: Option<&str>, url: &str) -> ProviderConfig {
    ProviderConfig { id: None, name: name.map(|n| n.to_string()), url: url.to_string(), username: "u".to_string(), password: "p".to_string() }
}

fn stream(id: u32, name: &str) -> Stream {
    Stream {
        num: id,
        name: name.to_string(),
        stream_type: "live".to_string(),
        stream_id: id,
        stream_icon: None,
        epg_channel_id: None,
        added: None,
        category_id: None,
        category_ids: None,
        custom_sid: None,
        tv_archive: None,
        direct_source: None,
        tv_archive_duration: None,
        is_adult: None,
        rating: None,
        rating_5based: None,
        container_extension: None,
    }
}

#[test]
fn output_formats_ignore_case() {
    assert_eq!(OutputFormat::from_str("JSON"), Ok(OutputFormat::Json));
    assert_eq!(OutputFormat::from_str("m3u"), Ok(OutputFormat::M3u));
    assert_eq!(OutputFormat::from_str("Text"), Ok(OutputFormat::Text));
    assert_eq!(OutputFormat::from_str("xml"), Err("Invalid format: xml. Use 'text', 'json', or 'm3u'".to_string()));
}

#[test]
fn content_types_ignore_case() {
    assert_eq!(iptv::cli::ContentType::from_str("Live"), Ok(iptv::cli::ContentType::Live));
    assert_eq!(iptv::cli::ContentType::from_str("SERIES"), Ok(iptv::cli::ContentType::Series));
    assert_eq!(
        iptv::cli::ContentType::from_str("radio"),
        Err("Invalid type: radio. Use 'live', 'movie', or 'series'".to_string())
    );
    assert_eq!(iptv::cli::ContentType::Movie.as_str(), "movie");
}

#[test]
fn single_provider_choice() {
    let none = CommandContext::new(vec![], None, false);
    assert_eq!(none.choose_single_provider(), Err("No providers configured. Please add provider details to config.toml.".to_string()));
    let one = CommandContext::new(vec![provider(None, "http://a")], None, false);
    assert_eq!(one.choose_single_provider(), Ok(ProviderChoice::Index(0)));
    let two = vec![provider(Some("First"), "http://a"), provider(Some("Second"), "http://b")];
    assert_eq!(CommandContext::new(two.clone(), None, false).choose_single_provider(), Ok(ProviderChoice::Prompt));
    assert_eq!(CommandContext::new(two.clone(), Some("second".to_string()), false).choose_single_provider(), Ok(ProviderChoice::Index(1)));
    assert_eq!(
        CommandContext::new(two, Some("Third".to_string()), false).choose_single_provider(),
        Err("Provider 'Third' not found".to_string())
    );
}

#[test]
fn provider_prompt_names_and_lookup() {
    let c = CommandContext::new(vec![provider(Some("First"), "http://a"), provider(None, "http://b")], None, false);
    assert_eq!(c.provider_display_names(), vec!["First", "u@http://b"]);
    assert_eq!(c.provider_by_display_name("u@http://b"), Ok(1));
    assert_eq!(c.provider_by_display_name("nobody"), Err("Provider not found".to_string()));
}

#[test]
fn provider_scopes() {
    let two = vec![provider(Some("A"), "http://a"), provider(Some("B"), "http://b")];
    assert_eq!(CommandContext::new(two.clone(), None, true).providers_scope(), ProviderScope::All);
    assert_eq!(CommandContext::new(vec![], None, true).providers_scope(), ProviderScope::Single);
    assert_eq!(CommandContext::new(two.clone(), None, false).search_scope(), Ok(ProviderScope::All));
    assert_eq!(CommandContext::new(two, Some("A".to_string()), false).search_scope(), Ok(ProviderScope::Single));
    assert_eq!(CommandContext::new(vec![], None, false).search_scope(), Err("No providers configured".to_string()));
}

#[test]
fn search_finds_names_containing_the_query() {
    let cmd = SearchCommand { query: "NeWs".to_string(), content_type: None, format: OutputFormat::Text };
    assert_eq!(cmd.query_lower(), "news");
    assert_eq!(cmd.search_types().len(), 3);
    let streams = vec![stream(1, "BBC News"), stream(2, "Sports"), stream(3, "news 24")];
    let hits = search_streams(&streams, "news", iptv::cli::ContentType::Live, "Main");
    assert_eq!(hits.iter().map(|h| h.id).collect::<Vec<_>>(), vec![1, 3]);
    assert_eq!(result_line(&hits[0]), "[live] BBC News (1) - Main");
    let anonymous = SearchResult { id: 9, name: "X".to_string(), kind: iptv::cli::ContentType::Movie, provider: String::new() };
    assert_eq!(result_line(&anonymous), "[movie] X (9)");
    assert_eq!(
        result_m3u(&anonymous),
        vec!["#EXTINF:-1,X", "#EXTVLCOPT:type=movie", "#EXTVLCOPT:id=9", "http://placeholder/movie/9"]
    );
    assert_eq!(cmd.no_results_message(), "No results found for 'NeWs'");
    assert!(search_series(&Vec::new(), "x", "P").is_empty());
}

#[test]
fn play_checks_live_then_movies() {
    let cmd = PlayCommand { id: 2, content_type: None, detached: false };
    assert_eq!(cmd.check_live(&Ok(vec![stream(2, "A")])), Ok(LiveCheck::Live));
    assert_eq!(cmd.check_live(&Ok(vec![stream(3, "A")])), Ok(LiveCheck::CheckMovies));
    assert_eq!(cmd.check_live(&Err("x".to_string())), Err("Failed to fetch streams".to_string()));
    assert_eq!(cmd.check_movies(&Ok(vec![stream(2, "M")])), Ok(iptv::cli::ContentType::Movie));
    assert_eq!(cmd.check_movies(&Ok(vec![])), Err("Stream ID 2 not found".to_string()));
    let mut cm = CacheManager::new("/c", Vec::new());
    let (api, _) = XTreamAPI::new("http://tv.example:80/x".to_string(), "me".to_string(), "pw".to_string(), None, &mut cm).unwrap();
    assert_eq!(cmd.stream_url(&api, iptv::cli::ContentType::Movie), format!("{}/movie/me/pw/2.m3u8", api.base_url));
}

#[test]
fn info_lines() {
    let cmd = InfoCommand { id: 42, content_type: iptv::cli::ContentType::Series, format: OutputFormat::Text };
    assert_eq!(cmd.header_lines("Main"), vec!["Type: series", "ID: 42", "Provider: Main"]);
    assert_eq!(cmd.find_live(&vec![stream(1, "a"), stream(42, "b")]), Ok(1));
    assert_eq!(cmd.find_live(&vec![]), Err("Stream 42 not found".to_string()));
}

#[test]
fn cache_command_reports() {
    assert_eq!(refresh_message("Main", &Ok(())), "\n✓ Cache refreshed for Main");
    assert_eq!(refresh_message("Main", &Err("net".to_string())), "Warning: Failed to refresh cache for Main: net");
    assert_eq!(clear_message("Main", &Ok(())), "Cache cleared for Main");
    assert_eq!(clear_message("Main", &Err("io".to_string())), "Warning: Failed to clear cache for Main: io");
}
