use iptv::menu::{stream_action, stream_actions, StreamAction};

#[test]
fn stream_actions_offer_play_then_the_favourite_toggle() {
    assert_eq!(stream_actions(false), vec!["▶ Play Stream".to_string(), "⭐ Add to Favourites".to_string()]);
    assert_eq!(stream_actions(true), vec!["▶ Play Stream".to_string(), "🗑 Remove from Favourites".to_string()]);
}

#[test]
fn stream_action_choice_plays_or_toggles() {
    assert_eq!(stream_action(0, true), StreamAction::Play);
    assert_eq!(stream_action(0, false), StreamAction::Play);
    assert_eq!(stream_action(1, true), StreamAction::RemoveFavourite);
    assert_eq!(stream_action(1, false), StreamAction::AddFavourite);
}
