use iptv::menu::movie_options;
use iptv::tui::app::series_to_streams;
use iptv::xtream_api::{Category, SeriesInfo, Stream};

fn cat(id: &str, name: &str) -> Category {
    Category { category_id: id.to_string(), category_name: name.to_string(), parent_id: None }
}

fn series(id: u32, name: &str, category: Option<&str>) -> SeriesInfo {
    SeriesInfo {
        num: id,
        name: name.to_string(),
        series_id: id,
        cover: Some(format!("cover{}", id)),
        plot: None,
        cast: None,
        director: None,
        genre: None,
        release_date: None,
        last_modified: None,
        rating: None,
        rating_5based: None,
        backdrop_path: None,
        youtube_trailer: None,
        episode_run_time: None,
        category_id: category.map(|c| c.to_string()),
        category_ids: None,
        added: None,
        is_adult: None,
        stream_type: None,
        stream_icon: None,
        epg_channel_id: None,
        custom_sid: None,
        tv_archive: None,
        direct_source: None,
        tv_archive_duration: None,
        stream_id: None,
        tmdb: None,
    }
}

fn movie(id: u32, name: &str, category: Option<&str>) -> Stream {
    Stream {
        num: id,
        name: name.to_string(),
        stream_type: "movie".to_string(),
        stream_id: id,
        stream_icon: None,
        epg_channel_id: None,
        added: None,
        category_id: category.map(|c| c.to_string()),
        category_ids: None,
        custom_sid: None,
        tv_archive: None,
        direct_source: None,
        tv_archive_duration: None,
        is_adult: None,
        rating: None,
        rating_5based: None,
        container_extension: None,
    }
}

#[test]
fn series_of_all_categories_are_grouped_with_their_categories() {
    let cats = vec![cat("1", "Drama"), cat("2", "Crime")];
    let list = vec![
        series(7, "Wire", Some("1")),
        series(8, "Lost", None),
        series(7, "Wire", Some("2")),
        series(7, "Wire", Some("1")),
        series(9, "Odd", Some("5")),
    ];
    let out = series_to_streams(&list, &cats, true);
    assert_eq!(out.len(), 3);
    let wire = out.iter().find(|s| s.stream_id == 7).unwrap();
    assert_eq!(wire.name, "Wire [Drama, Crime]");
    assert_eq!(wire.stream_type, "series");
    assert_eq!(wire.category_id, Some("1".to_string()));
    assert_eq!(wire.stream_icon, Some("cover7".to_string()));
    let lost = out.iter().find(|s| s.stream_id == 8).unwrap();
    assert_eq!(lost.name, "Lost [Unknown]");
    let odd = out.iter().find(|s| s.stream_id == 9).unwrap();
    assert_eq!(odd.name, "Odd [Unknown]");
}

#[test]
fn series_of_one_category_keep_their_names() {
    let list = vec![series(7, "Wire", Some("1")), series(7, "Wire", Some("1"))];
    let out = series_to_streams(&list, &Vec::new(), false);
    assert_eq!(out.len(), 2);
    assert_eq!(out[0].name, "Wire");
    assert_eq!(out[1].stream_id, 7);
    assert_eq!(out[1].num, 7);
}

#[test]
fn movies_of_all_categories_are_grouped_by_id() {
    let cats = vec![cat("1", "Action")];
    let list = vec![movie(3, "Heat", Some("1")), movie(4, "Up", None), movie(3, "Heat", Some("2"))];
    let (options, targets) = movie_options(&list, &cats);
    assert_eq!(options.len(), 2);
    let heat = options.iter().position(|o| o.starts_with("Heat")).unwrap();
    assert_eq!(options[heat], "Heat [Action, Unknown]");
    assert_eq!(targets[heat], 0);
    let up = options.iter().position(|o| o.starts_with("Up")).unwrap();
    assert_eq!(options[up], "Up [Unknown]");
    assert_eq!(targets[up], 1);
}
