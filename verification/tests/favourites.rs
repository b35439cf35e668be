use iptv::favourites::{add_favourite_to, list_has_favourite, remove_favourite_from, FavouritesManager};
use iptv::xtream_api::FavouriteStream;

fn fav(id: u32, t: &str, name: &str) -> FavouriteStream {
    FavouriteStream {
        stream_id: id,
        name: name.to_string(),
        stream_type: t.to_string(),
        provider_hash: "h".to_string(),
        added_date: "2024-01-01".to_string(),
        category_id: None,
    }
}

#[test]
fn favourites_file_per_provider() {
    let m = FavouritesManager::new("/home/u/.config/iptv");
    assert_eq!(m.favourites_dir(), "/home/u/.config/iptv/favourites");
    assert_eq!(m.get_favourites_path("abc"), "/home/u/.config/iptv/favourites/abc.json");
}

#[test]
fn adding_appends_once() {
    let l = add_favourite_to(Vec::new(), fav(1, "live", "One")).unwrap();
    assert_eq!(l.len(), 1);
    let l = add_favourite_to(l, fav(2, "movie", "Two")).unwrap();
    assert_eq!(l.iter().map(|f| f.stream_id).collect::<Vec<_>>(), vec![1, 2]);
    assert!(add_favourite_to(l.clone(), fav(1, "live", "Other name")).is_none());
    assert!(add_favourite_to(l, fav(1, "movie", "Same id, other type")).is_some());
}

#[test]
fn removing_drops_every_entry_of_the_stream() {
    let l = vec![fav(1, "live", "a"), fav(2, "live", "b"), fav(1, "live", "c"), fav(1, "movie", "d")];
    let r = remove_favourite_from(l, 1, "live");
    assert_eq!(r.iter().map(|f| f.name.clone()).collect::<Vec<_>>(), vec!["b".to_string(), "d".to_string()]);
}

#[test]
fn membership_needs_id_and_type() {
    let l = vec![fav(7, "series", "S")];
    assert!(list_has_favourite(&l, 7, "series"));
    assert!(!list_has_favourite(&l, 7, "live"));
    let m = FavouritesManager::new("/x");
    assert!(m.is_favourite(&l, 7, "series"));
    assert!(m.add_favourite(l.clone(), fav(7, "series", "S")).is_none());
    assert_eq!(m.remove_favourite(l, 7, "series").len(), 0);
}
