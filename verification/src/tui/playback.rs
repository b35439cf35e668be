//! Playback requests of the TUI and what their outcome does: the stream URL
//! to play, how the player is started, and the messages that follow.
use vstd::prelude::*;
use crate::config::{PlayMode, ProviderConfig};
use crate::text::{concat2, decimal, parse_u32, parse_u32_spec, str_eq};
use crate::tui::app::{lemma_logged_nothing, lemma_logged_then, lemma_logged_three, lemma_logged_two, logged, App, AppState, Command, ContentType, PlayHow, PlayKind};
use crate::tui::list::all_indices;
use crate::xtream_api::{ext_or_default, media_url, opt_str_view, opt_view, stream_path_kind, views, ApiEpisode, FavouriteStream, Stream, XTreamAPI};

verus! {

/// How the configured play mode starts the player.
pub open spec fn how_for(mode: PlayMode) -> PlayHow {
    match mode {
        PlayMode::Mpv => PlayHow::Background,
        PlayMode::MpvInTerminal => PlayHow::InTerminal,
    }
}

fn how_for_mode(mode: PlayMode) -> (r: PlayHow)
    ensures
        r == how_for(mode),
{
    match mode {
        PlayMode::Mpv => PlayHow::Background,
        PlayMode::MpvInTerminal => PlayHow::InTerminal,
    }
}

/// `live` for a live stream, else `movie`.
pub open spec fn live_or_movie(stream_type: Seq<char>) -> Seq<char> {
    if stream_type == "live"@ { "live"@ } else { "movie"@ }
}

fn live_or_movie_of(stream_type: &str) -> (r: &'static str)
    ensures
        r@ == live_or_movie(stream_type@),
{
    if str_eq(stream_type, "live") { "live" } else { "movie" }
}

/// The text of an optional string, borrowed.
pub fn opt_as_str(o: &Option<String>) -> (r: Option<&str>)
    ensures
        opt_view(r) == opt_str_view(*o),
{
    match o {
        Some(s) => Some(s.as_str()),
        None => None,
    }
}

/// The URL of a stream of a provider.
pub open spec fn stream_url_of(api: XTreamAPI, stream_id: u32, stream_type: Seq<char>, ext: Option<Seq<char>>) -> Seq<char> {
    media_url(api.base_url@, stream_path_kind(stream_type), api.username@, api.password@, decimal(stream_id as nat), ext_or_default(ext))
}

/// The extension of a stream played from the lists: `ts` for a live stream
/// when `.ts` URLs are preferred, else the stream's own.
pub open spec fn list_ext(stream: Stream, use_ts: bool) -> Option<Seq<char>> {
    if stream.stream_type@ == "live"@ && use_ts { Some("ts"@) } else { opt_str_view(stream.container_extension) }
}

/// The error screen's text after a failed start of the player.
pub open spec fn play_error_prefix(kind: PlayKind) -> Seq<char> {
    match kind {
        PlayKind::Stream | PlayKind::StreamDetached | PlayKind::StreamTs | PlayKind::StreamTsDetached => "Failed to play stream: "@,
        PlayKind::StreamTerminal | PlayKind::StreamTsTerminal => "Failed to launch terminal: "@,
        PlayKind::Episode | PlayKind::EpisodeDetached => "Failed to play episode: "@,
        PlayKind::Movie | PlayKind::MovieDetached => "Failed to play movie: "@,
        PlayKind::Favourite => "Failed to play favourite: "@,
    }
}

fn play_error_prefix_of(kind: PlayKind) -> (r: &'static str)
    ensures
        r@ == play_error_prefix(kind),
{
    match kind {
        PlayKind::Stream | PlayKind::StreamDetached | PlayKind::StreamTs | PlayKind::StreamTsDetached => "Failed to play stream: ",
        PlayKind::StreamTerminal | PlayKind::StreamTsTerminal => "Failed to launch terminal: ",
        PlayKind::Episode | PlayKind::EpisodeDetached => "Failed to play episode: ",
        PlayKind::Movie | PlayKind::MovieDetached => "Failed to play movie: ",
        PlayKind::Favourite => "Failed to play favourite: ",
    }
}

/// The log line's text after a failed start of the player.
pub open spec fn play_log_prefix(kind: PlayKind) -> Seq<char> {
    match kind {
        PlayKind::StreamTerminal | PlayKind::StreamTsTerminal => "Terminal launch failed: "@,
        PlayKind::StreamTs | PlayKind::StreamTsDetached => "Failed to play stream: "@,
        _ => "Playback failed: "@,
    }
}

fn play_log_prefix_of(kind: PlayKind) -> (r: &'static str)
    ensures
        r@ == play_log_prefix(kind),
{
    match kind {
        PlayKind::StreamTerminal | PlayKind::StreamTsTerminal => "Terminal launch failed: ",
        PlayKind::StreamTs | PlayKind::StreamTsDetached => "Failed to play stream: ",
        _ => "Playback failed: ",
    }
}

/// The log lines after the player started: where it runs.
pub open spec fn play_started_lines(kind: PlayKind, how: PlayHow, name: Seq<char>) -> Seq<Seq<char>> {
    match kind {
        PlayKind::StreamDetached => seq!["Stream started in new independent window"@, "This window won't be affected by other playback"@],
        PlayKind::MovieDetached => seq!["Movie started in new independent window"@, "This window won't be affected by other playback"@],
        PlayKind::EpisodeDetached => seq!["Episode started in new independent window"@, "This window won't be affected by other playback"@],
        PlayKind::StreamTerminal | PlayKind::StreamTsTerminal =>
            seq!["MPV launched in terminal with verbose output"@, "Check the terminal window for debug information"@],
        PlayKind::StreamTs => seq!["Started playing .ts stream: "@ + name, "Player started in background window"@],
        PlayKind::StreamTsDetached => seq!["Detached player started for: "@ + name, "Player running in separate window"@],
        _ => match how {
            PlayHow::InTerminal => seq!["Player started in terminal mode"@],
            _ => seq!["Player started in background window"@, "Continue browsing while video plays"@],
        },
    }
}

fn two_lines(a: String, b: String) -> (r: Vec<String>)
    ensures
        views(r@) == seq![a@, b@],
{
    let mut v: Vec<String> = Vec::new();
    v.push(a);
    v.push(b);
    assert(views(v@) =~= seq![a@, b@]);
    v
}

fn play_started_messages(kind: PlayKind, how: PlayHow, name: &str) -> (r: Vec<String>)
    ensures
        views(r@) == play_started_lines(kind, how, name@),
{
    match kind {
        PlayKind::StreamDetached => two_lines(String::from_str("Stream started in new independent window"),
            String::from_str("This window won't be affected by other playback")),
        PlayKind::MovieDetached => two_lines(String::from_str("Movie started in new independent window"),
            String::from_str("This window won't be affected by other playback")),
        PlayKind::EpisodeDetached => two_lines(String::from_str("Episode started in new independent window"),
            String::from_str("This window won't be affected by other playback")),
        PlayKind::StreamTerminal | PlayKind::StreamTsTerminal => two_lines(String::from_str("MPV launched in terminal with verbose output"),
            String::from_str("Check the terminal window for debug information")),
        PlayKind::StreamTs => two_lines(concat2("Started playing .ts stream: ", name), String::from_str("Player started in background window")),
        PlayKind::StreamTsDetached => two_lines(concat2("Detached player started for: ", name), String::from_str("Player running in separate window")),
        _ => match how {
            PlayHow::InTerminal => {
                let mut v: Vec<String> = Vec::new();
                v.push(String::from_str("Player started in terminal mode"));
                assert(views(v@) =~= seq!["Player started in terminal mode"@]);
                v
            },
            _ => two_lines(String::from_str("Player started in background window"), String::from_str("Continue browsing while video plays")),
        },
    }
}

/// The seven entries of the advanced play menu.
pub open spec fn advanced_menu_of() -> Seq<Seq<char>> {
    seq![
        "Play stream (default .m3u8)"@,
        "Play stream in terminal (.m3u8)"@,
        "Play .ts stream"@,
        "Play .ts stream in terminal"@,
        "Play stream in detached window (.m3u8)"@,
        "Play .ts stream in detached window"@,
        "Back"@,
    ]
}

fn advanced_menu_items() -> (r: Vec<String>)
    ensures
        views(r@) == advanced_menu_of(),
        r@.len() == 7,
{
    let mut v: Vec<String> = Vec::new();
    v.push(String::from_str("Play stream (default .m3u8)"));
    v.push(String::from_str("Play stream in terminal (.m3u8)"));
    v.push(String::from_str("Play .ts stream"));
    v.push(String::from_str("Play .ts stream in terminal"));
    v.push(String::from_str("Play stream in detached window (.m3u8)"));
    v.push(String::from_str("Play .ts stream in detached window"));
    v.push(String::from_str("Back"));
    assert(views(v@) =~= advanced_menu_of());
    v
}

/// `after` shows the advanced play menu for `stream` (all seven entries,
/// the first selected, no search) and remembers `before`'s screen, items and
/// list position to go back to.
pub open spec fn menu_opened(before: App, after: App, stream: Stream, ct: ContentType) -> bool {
    &&& after.state == AppState::StreamAdvancedMenu(stream, ct)
    &&& views(after.list.items@) == advanced_menu_of()
    &&& after.list.selected_index == 0
    &&& after.list.filtered_indices@ == all_indices(7)
    &&& after.list.search_query@.len() == 0
    &&& after.previous_state_before_menu == Some(Box::new(before.state))
    &&& after.previous_items_before_menu@ == before.list.items@
    &&& crate::tui::app::nav_view(after.previous_nav_before_menu) == crate::tui::app::list_nav_view(before.list)
}

/// `after` is back on the screen remembered when the menu opened, with its
/// items and list position, and nothing is remembered any more; with nothing
/// remembered the screen and list stay.
pub open spec fn menu_closed(before: App, after: App) -> bool {
    &&& before.previous_state_before_menu matches Some(prev) ==> {
        &&& after.state == *prev
        &&& after.list.items@ == before.previous_items_before_menu@
        &&& crate::tui::app::list_nav_view(after.list) == crate::tui::app::nav_view(before.previous_nav_before_menu)
        &&& after.previous_state_before_menu is None
        &&& after.previous_items_before_menu@.len() == 0
    }
    &&& before.previous_state_before_menu is None ==> after.state == before.state && after.list == before.list
}

/// A favourite as a live stream of the advanced menu (the `m3u8` extension).
pub fn favourite_as_stream(f: &FavouriteStream) -> (r: Stream)
    ensures
        r.stream_id == f.stream_id,
        r.name == f.name,
        r.stream_type == f.stream_type,
        r.category_id == f.category_id,
        r.num == 0,
        r.container_extension matches Some(e) && e@ == "m3u8"@,
{
    Stream {
        num: 0,
        name: f.name.clone(),
        stream_type: f.stream_type.clone(),
        stream_id: f.stream_id,
        stream_icon: None,
        epg_channel_id: None,
        added: None,
        category_id: f.category_id.clone(),
        category_ids: None,
        custom_sid: None,
        tv_archive: None,
        direct_source: None,
        tv_archive_duration: None,
        is_adult: None,
        rating: None,
        rating_5based: None,
        container_extension: Some(String::from_str("m3u8")),
    }
}

/// The first log line of playing a `.ts` URL, before the stream's name.
pub open spec fn ts_play_line(how: PlayHow) -> Seq<char> {
    match how {
        PlayHow::InTerminal => "Playing .ts stream in terminal: "@,
        PlayHow::Detached => "Playing .ts stream in detached window: "@,
        _ => "Playing .ts stream: "@,
    }
}

/// The first log line of playing a movie or an episode, before its name.
pub open spec fn movie_play_line(detached: bool) -> Seq<char> {
    if detached { "Playing in detached window: "@ } else { "Playing: "@ }
}

/// What `play_stream` does: the screen and list stay, a command to play
/// is asked for when a provider is connected, and the log tells of it.
pub open spec fn played_stream(before: App, after: App, stream: Stream, r: Option<Command>) -> bool {
    &&& after.state == before.state
    &&& after.list == before.list
    &&& before.current_api is None ==> r is None
    &&& before.current_api matches Some(api) ==> (r matches Some(Command::Play { url, how, kind, name })
        && url@ == stream_url_of(api, stream.stream_id, live_or_movie(stream.stream_type@), list_ext(stream, before.config.settings.use_ts_for_live))
        && how == how_for(before.config.settings.play_mode) && kind == PlayKind::Stream && name@ == stream.name@)
    &&& r is None ==> logged(before.logs@, after.logs@, seq!["Playing: "@ + stream.name@])
    &&& r matches Some(Command::Play { url, .. }) ==> logged(before.logs@, after.logs@,
        seq!["Playing: "@ + stream.name@, "Stream URL: "@ + url@])
}

/// What `play_stream_in_terminal` does: the screen and list stay, a command to play
/// is asked for when a provider is connected, and the log tells of it.
pub open spec fn played_in_terminal(before: App, after: App, stream: Stream, r: Option<Command>) -> bool {
    &&& after.state == before.state
    &&& after.list == before.list
    &&& before.current_api is None ==> r is None
    &&& before.current_api matches Some(api) ==> (r matches Some(Command::Play { url, how, kind, name })
        && url@ == stream_url_of(api, stream.stream_id, live_or_movie(stream.stream_type@), opt_str_view(stream.container_extension))
        && how == PlayHow::InTerminal && kind == PlayKind::StreamTerminal && name@ == stream.name@)
    &&& r is None ==> logged(before.logs@, after.logs@, seq!["Playing in debug terminal: "@ + stream.name@])
    &&& r matches Some(Command::Play { url, .. }) ==> logged(before.logs@, after.logs@,
        seq!["Playing in debug terminal: "@ + stream.name@, "Stream URL: "@ + url@, "Launching MPV in terminal for debug output"@])
}

/// What `play_stream_detached` does: the screen and list stay, a command to play
/// is asked for when a provider is connected, and the log tells of it.
pub open spec fn played_detached(before: App, after: App, stream: Stream, r: Option<Command>) -> bool {
    &&& after.state == before.state
    &&& after.list == before.list
    &&& before.current_api is None ==> r is None
    &&& before.current_api matches Some(api) ==> (r matches Some(Command::Play { url, how, kind, name })
        && url@ == stream_url_of(api, stream.stream_id, live_or_movie(stream.stream_type@), opt_str_view(stream.container_extension))
        && how == PlayHow::Disassociated && kind == PlayKind::StreamDetached && name@ == stream.name@)
    &&& r is None ==> logged(before.logs@, after.logs@, seq!["Playing in detached window: "@ + stream.name@])
    &&& r matches Some(Command::Play { url, .. }) ==> logged(before.logs@, after.logs@,
        seq!["Playing in detached window: "@ + stream.name@, "Stream URL: "@ + url@])
}

/// What `play_stream_ts` does: the screen and list stay, a command to play
/// is asked for when a provider is connected, and the log tells of it.
pub open spec fn played_ts(before: App, after: App, stream: Stream, how: PlayHow, r: Option<Command>) -> bool {
    &&& after.state == before.state
    &&& after.list == before.list
    &&& before.current_api is None ==> r is None
    &&& before.current_api matches Some(api) ==> (r matches Some(Command::Play { url, how: h, kind, name })
        && url@ == stream_url_of(api, stream.stream_id, stream.stream_type@, Some("ts"@))
        && h == how && name@ == stream.name@
        && kind == (match how {
        PlayHow::InTerminal => PlayKind::StreamTsTerminal,
        PlayHow::Detached => PlayKind::StreamTsDetached,
        _ => PlayKind::StreamTs,
        }))
    &&& r is None ==> logged(before.logs@, after.logs@, seq![ts_play_line(how) + stream.name@])
    &&& r matches Some(Command::Play { url, .. }) ==> logged(before.logs@, after.logs@,
        seq![ts_play_line(how) + stream.name@, "URL (.ts): "@ + url@])
}

/// What `play_vod_stream` does: the screen and list stay, a command to play
/// the movie is asked for when a provider is connected, and the log tells of it.
pub open spec fn played_movie(before: App, after: App, stream: Stream, detached: bool, r: Option<Command>) -> bool {
    &&& after.state == before.state
    &&& after.list == before.list
    &&& before.current_api is None ==> r is None
    &&& before.current_api matches Some(api) ==> (r matches Some(Command::Play { url, how, kind, name })
        && url@ == stream_url_of(api, stream.stream_id, "movie"@, match before.vod_info {
        Some(info) => Some(info.movie_data.container_extension@),
        None => None,
        })
        && name@ == stream.name@
        && (detached ==> how == PlayHow::Disassociated && kind == PlayKind::MovieDetached)
        && (!detached ==> how == how_for(before.config.settings.play_mode) && kind == PlayKind::Movie))
    &&& r is None ==> logged(before.logs@, after.logs@, seq![movie_play_line(detached) + stream.name@])
    &&& r matches Some(Command::Play { url, .. }) ==> logged(before.logs@, after.logs@,
        seq![movie_play_line(detached) + stream.name@, "Stream URL: "@ + url@])
}

/// What `play_episode` does: the screen and list stay, a command to play
/// the episode (with the configured mode, or in an independent window) is
/// asked for when a provider is connected, and the log tells of it.
pub open spec fn played_episode(before: App, after: App, episode: ApiEpisode, detached: bool, r: Option<Command>) -> bool {
    &&& after.state == before.state
    &&& after.list == before.list
    &&& before.current_api is None ==> r is None
    &&& before.current_api matches Some(api) ==> (r matches Some(Command::Play { url, how, kind, name })
        && url@ == stream_url_of(api, match parse_u32_spec(episode.id@) { Some(n) => n, None => 0 }, "series"@,
        opt_str_view(episode.container_extension))
        && name@ == episode.title@
        && (!detached ==> how == how_for(before.config.settings.play_mode) && kind == PlayKind::Episode)
        && (detached ==> how == PlayHow::Disassociated && kind == PlayKind::EpisodeDetached))
    &&& r is None ==> logged(before.logs@, after.logs@, seq![movie_play_line(detached) + episode.title@])
    &&& r matches Some(Command::Play { url, .. }) ==> logged(before.logs@, after.logs@,
        seq![movie_play_line(detached) + episode.title@, "Stream URL: "@ + url@])
}

/// What `handle_stream_advanced_menu_selection` does with the selected entry.
pub open spec fn advanced_selection_done(before: App, after: App, stream: Stream, r: Option<Command>) -> bool {
    &&& before.list.selected_index == 0 ==> played_stream(before, after, stream, r)
    &&& before.list.selected_index == 1 ==> played_in_terminal(before, after, stream, r)
    &&& before.list.selected_index == 2 ==> played_ts(before, after, stream, PlayHow::Background, r)
    &&& before.list.selected_index == 3 ==> played_ts(before, after, stream, PlayHow::InTerminal, r)
    &&& before.list.selected_index == 4 ==> played_detached(before, after, stream, r)
    &&& before.list.selected_index == 5 ==> played_ts(before, after, stream, PlayHow::Detached, r)
    &&& before.list.selected_index == 6 ==> r is None && menu_closed(before, after)
    &&& before.list.selected_index > 6 ==> r is None && after == before
}

impl App {
    /// Asks to play a stream of a list with the configured play mode.
    pub fn play_stream(&mut self, stream: &Stream) -> (r: Option<Command>)
        requires
            old(self).wf(),
        ensures
            final(self).wf(),
            played_stream(*old(self), *final(self), *stream, r),
    {
        let ghost l0 = self.logs@;
        self.add_log(concat2("Playing: ", stream.name.as_str()));
        let ghost l1 = self.logs@;
        let url = match &self.current_api {
            Some(api) => {
                let ext = if str_eq(stream.stream_type.as_str(), "live") && self.config.settings.use_ts_for_live {
                    Some("ts")
                } else {
                    opt_as_str(&stream.container_extension)
                };
                api.get_stream_url(stream.stream_id, live_or_movie_of(stream.stream_type.as_str()), ext)
            },
            None => return None,
        };
        self.add_log(concat2("Stream URL: ", url.as_str()));
        proof { lemma_logged_two(l0, l1, self.logs@, "Playing: "@ + stream.name@, "Stream URL: "@ + url@); }
        Some(Command::Play { url, how: how_for_mode(self.config.settings.play_mode), kind: PlayKind::Stream, name: stream.name.clone() })
    }

    /// Asks to play a stream in a terminal, for the player's debug output.
    pub fn play_stream_in_terminal(&mut self, stream: &Stream) -> (r: Option<Command>)
        requires
            old(self).wf(),
        ensures
            final(self).wf(),
            played_in_terminal(*old(self), *final(self), *stream, r),
    {
        let ghost l0 = self.logs@;
        self.add_log(concat2("Playing in debug terminal: ", stream.name.as_str()));
        let ghost l1 = self.logs@;
        let url = match &self.current_api {
            Some(api) => api.get_stream_url(stream.stream_id, live_or_movie_of(stream.stream_type.as_str()), opt_as_str(&stream.container_extension)),
            None => return None,
        };
        self.add_log(concat2("Stream URL: ", url.as_str()));
        let ghost l2 = self.logs@;
        self.add_log(String::from_str("Launching MPV in terminal for debug output"));
        proof {
            lemma_logged_three(l0, l1, l2, self.logs@, "Playing in debug terminal: "@ + stream.name@, "Stream URL: "@ + url@,
                "Launching MPV in terminal for debug output"@);
        }
        Some(Command::Play { url, how: PlayHow::InTerminal, kind: PlayKind::StreamTerminal, name: stream.name.clone() })
    }

    /// Asks to play a stream in an independent window.
    pub fn play_stream_detached(&mut self, stream: &Stream) -> (r: Option<Command>)
        requires
            old(self).wf(),
        ensures
            final(self).wf(),
            played_detached(*old(self), *final(self), *stream, r),
    {
        let ghost l0 = self.logs@;
        self.add_log(concat2("Playing in detached window: ", stream.name.as_str()));
        let ghost l1 = self.logs@;
        let url = match &self.current_api {
            Some(api) => api.get_stream_url(stream.stream_id, live_or_movie_of(stream.stream_type.as_str()), opt_as_str(&stream.container_extension)),
            None => return None,
        };
        self.add_log(concat2("Stream URL: ", url.as_str()));
        proof { lemma_logged_two(l0, l1, self.logs@, "Playing in detached window: "@ + stream.name@, "Stream URL: "@ + url@); }
        Some(Command::Play { url, how: PlayHow::Disassociated, kind: PlayKind::StreamDetached, name: stream.name.clone() })
    }

    /// Asks to play the `.ts` URL of a stream: in the background, in a
    /// terminal, or in a detached player.
    pub fn play_stream_ts(&mut self, stream: &Stream, how: PlayHow) -> (r: Option<Command>)
        requires
            old(self).wf(),
            how != PlayHow::Disassociated,
        ensures
            final(self).wf(),
            played_ts(*old(self), *final(self), *stream, how, r),
    {
        let (msg, kind) = match how {
            PlayHow::InTerminal => ("Playing .ts stream in terminal: ", PlayKind::StreamTsTerminal),
            PlayHow::Detached => ("Playing .ts stream in detached window: ", PlayKind::StreamTsDetached),
            _ => ("Playing .ts stream: ", PlayKind::StreamTs),
        };
        let ghost l0 = self.logs@;
        self.add_log(concat2(msg, stream.name.as_str()));
        let ghost l1 = self.logs@;
        let url = match &self.current_api {
            Some(api) => api.get_stream_url(stream.stream_id, stream.stream_type.as_str(), Some("ts")),
            None => return None,
        };
        self.add_log(concat2("URL (.ts): ", url.as_str()));
        proof { lemma_logged_two(l0, l1, self.logs@, ts_play_line(how) + stream.name@, "URL (.ts): "@ + url@); }
        Some(Command::Play { url, how, kind, name: stream.name.clone() })
    }

    /// Asks to play an episode with the configured play mode, or in an
    /// independent window (an id that is not a number plays id 0).
    pub fn play_episode(&mut self, episode: &ApiEpisode, detached: bool) -> (r: Option<Command>)
        requires
            old(self).wf(),
        ensures
            final(self).wf(),
            played_episode(*old(self), *final(self), *episode, detached, r),
    {
        let ghost l0 = self.logs@;
        if detached {
            self.add_log(concat2("Playing in detached window: ", episode.title.as_str()));
        } else {
            self.add_log(concat2("Playing: ", episode.title.as_str()));
        }
        let ghost l1 = self.logs@;
        let id = match parse_u32(episode.id.as_str()) {
            Some(n) => n,
            None => 0,
        };
        let url = match &self.current_api {
            Some(api) => api.get_stream_url(id, "series", opt_as_str(&episode.container_extension)),
            None => return None,
        };
        self.add_log(concat2("Stream URL: ", url.as_str()));
        proof { lemma_logged_two(l0, l1, self.logs@, movie_play_line(detached) + episode.title@, "Stream URL: "@ + url@); }
        if detached {
            Some(Command::Play { url, how: PlayHow::Disassociated, kind: PlayKind::EpisodeDetached, name: episode.title.clone() })
        } else {
            Some(Command::Play { url, how: how_for_mode(self.config.settings.play_mode), kind: PlayKind::Episode, name: episode.title.clone() })
        }
    }

    /// Asks to play a movie (with the extension from its details when they
    /// were loaded): with the configured mode, or in an independent window.
    pub fn play_vod_stream(&mut self, stream: &Stream, detached: bool) -> (r: Option<Command>)
        requires
            old(self).wf(),
        ensures
            final(self).wf(),
            played_movie(*old(self), *final(self), *stream, detached, r),
    {
        let ghost l0 = self.logs@;
        if detached {
            self.add_log(concat2("Playing in detached window: ", stream.name.as_str()));
        } else {
            self.add_log(concat2("Playing: ", stream.name.as_str()));
        }
        let ghost l1 = self.logs@;
        let url = match &self.current_api {
            Some(api) => {
                let ext = match &self.vod_info {
                    Some(info) => Some(info.movie_data.container_extension.as_str()),
                    None => None,
                };
                api.get_stream_url(stream.stream_id, "movie", ext)
            },
            None => return None,
        };
        self.add_log(concat2("Stream URL: ", url.as_str()));
        proof { lemma_logged_two(l0, l1, self.logs@, movie_play_line(detached) + stream.name@, "Stream URL: "@ + url@); }
        if detached {
            Some(Command::Play { url, how: PlayHow::Disassociated, kind: PlayKind::MovieDetached, name: stream.name.clone() })
        } else {
            Some(Command::Play { url, how: how_for_mode(self.config.settings.play_mode), kind: PlayKind::Movie, name: stream.name.clone() })
        }
    }

    /// The player was started, or failed to start. A failure shows the
    /// error screen; a start logs how the player runs and leaves the screen
    /// as it was.
    pub fn play_finished(&mut self, kind: PlayKind, how: PlayHow, name: &str, result: Result<(), String>)
        requires
            old(self).wf(),
        ensures
            final(self).wf(),
            final(self).list == old(self).list,
            result matches Err(e) ==> (final(self).state matches AppState::Error(m) && m@ == play_error_prefix(kind) + e@),
            result matches Err(e) ==> logged(old(self).logs@, final(self).logs@, seq![play_log_prefix(kind) + e@]),
            result is Ok ==> logged(old(self).logs@, final(self).logs@, play_started_lines(kind, how, name@)),
            result is Ok ==> final(self).state == old(self).state,
    {
        match result {
            Err(e) => {
                self.state = AppState::Error(concat2(play_error_prefix_of(kind), e.as_str()));
                self.add_log(concat2(play_log_prefix_of(kind), e.as_str()));
            },
            Ok(()) => {
                self.add_logs(play_started_messages(kind, how, name));
            },
        }
    }

    /// Opens the advanced play menu for a stream, remembering the screen,
    /// its items and its position to come back to.
    pub fn show_stream_advanced_menu(&mut self, stream: Stream, ct: ContentType)
        requires
            old(self).wf(),
        ensures
            final(self).wf(),
            menu_opened(*old(self), *final(self), stream, ct),
            logged(old(self).logs@, final(self).logs@, seq!["Advanced menu opened"@]),
    {
        self.save_current_navigation_state();
        let mut prev = AppState::MainMenu;
        core::mem::swap(&mut prev, &mut self.state);
        self.previous_state_before_menu = Some(Box::new(prev));
        self.previous_items_before_menu = crate::tui::app::copy_items(&self.list.items);
        self.previous_nav_before_menu = self.current_nav();
        self.list.items = advanced_menu_items();
        self.list.selected_index = 0;
        self.list.filtered_indices = crate::tui::app::all_indices_vec(7);
        self.list.search_query = String::new();
        self.state = AppState::StreamAdvancedMenu(stream, ct);
        self.add_log(String::from_str("Advanced menu opened"));
    }

    /// Goes back from the advanced play menu to the remembered screen, items
    /// and position (nothing when none is remembered).
    pub fn restore_previous_state(&mut self)
        requires
            old(self).wf(),
        ensures
            final(self).wf(),
            menu_closed(*old(self), *final(self)),
            final(self).logs == old(self).logs,
    {
        let prev = self.previous_state_before_menu.take();
        match prev {
            Some(p) => {
                self.state = *p;
                self.list.items = crate::tui::app::copy_items(&self.previous_items_before_menu);
                self.list.selected_index = self.previous_nav_before_menu.selected_index;
                self.list.scroll_offset = self.previous_nav_before_menu.scroll_offset;
                self.list.search_query = self.previous_nav_before_menu.search_query.clone();
                self.list.filtered_indices = crate::tui::app::copy_indices(&self.previous_nav_before_menu.filtered_indices);
                self.previous_items_before_menu = Vec::new();
                self.previous_nav_before_menu = crate::tui::app::NavigationState::new();
            },
            None => {},
        }
    }
}

/// Why a favourite could not be removed from its provider's list.
#[derive(Debug)]
pub enum FavouriteAccessError {
    /// The favourites could not be read.
    Access(String),
    /// The provider could not be set up.
    Connect(String),
}

/// Whether the connection for a favourite's provider must replace the
/// current one: there is none, or it is another provider.
pub open spec fn needs_connect(current: Option<XTreamAPI>, connection: Result<XTreamAPI, String>) -> bool {
    match current {
        None => true,
        Some(c) => match connection {
            Ok(a) => c.provider_hash@ != a.provider_hash@,
            Err(_) => true,
        },
    }
}

fn needs_connect_of(current: &Option<XTreamAPI>, connection: &Result<XTreamAPI, String>) -> (r: bool)
    ensures
        r == needs_connect(*current, *connection),
{
    match current {
        None => true,
        Some(c) => match connection {
            Ok(a) => !str_eq(c.provider_hash.as_str(), a.provider_hash.as_str()),
            Err(_) => true,
        },
    }
}

impl App {
    /// Plays a favourite of the favourites screen with the configured play
    /// mode, first switching to its provider when another (or none) is
    /// current; `connection` is the favourite's provider set up. A live
    /// favourite uses the `.ts` URL when that is preferred. The screen stays.
    pub fn play_favourite(&mut self, fav: &FavouriteStream, provider: &ProviderConfig, connection: Result<XTreamAPI, String>)
        -> (r: Option<Command>)
        requires
            old(self).wf(),
        ensures
            final(self).wf(),
            final(self).list == old(self).list,
            needs_connect(old(self).current_api, connection) && connection is Err ==> r is None
                && (final(self).state matches AppState::Error(m) && m@ == "Failed to connect: "@ + connection->Err_0@),
            !(needs_connect(old(self).current_api, connection) && connection is Err) ==> {
                let api = if needs_connect(old(self).current_api, connection) { connection->Ok_0 } else { old(self).current_api->Some_0 };
                &&& final(self).state == old(self).state
                &&& final(self).current_api matches Some(c) && c.provider_hash == api.provider_hash && c.base_url == api.base_url
                &&& r matches Some(Command::Play { url, how, kind, name })
                    && url@ == stream_url_of(api, fav.stream_id, fav.stream_type@,
                        if fav.stream_type@ == "live"@ && old(self).config.settings.use_ts_for_live { Some("ts"@) } else { None })
                    && how == how_for(old(self).config.settings.play_mode) && kind == PlayKind::Favourite && name@ == fav.name@
            },
            connection matches Err(e) ==> (needs_connect(old(self).current_api, connection) ==> logged(old(self).logs@, final(self).logs@,
                seq!["Connecting to provider: "@ + provider.label_of(), "Connection failed: "@ + e@])),
            needs_connect(old(self).current_api, connection) && connection is Ok ==> (r matches Some(Command::Play { url, .. })
                && logged(old(self).logs@, final(self).logs@, seq!["Connecting to provider: "@ + provider.label_of(),
                    "Successfully connected to provider"@, "Playing: "@ + fav.name@, "Stream URL: "@ + url@])),
            !needs_connect(old(self).current_api, connection) ==> (r matches Some(Command::Play { url, .. })
                && logged(old(self).logs@, final(self).logs@, seq!["Playing: "@ + fav.name@, "Stream URL: "@ + url@])),
            match connection {
                Ok(a) => match old(self).current_api {
                    Some(c) => c.provider_hash@ != a.provider_hash@,
                    None => true,
                },
                Err(_) => false,
            } ==> {
                let a = connection->Ok_0;
                &&& final(self).current_api matches Some(c) && c.provider_hash == a.provider_hash && c.base_url == a.base_url
                    && c.username == a.username && c.password == a.password
                &&& r matches Some(Command::Play { url, .. }) && url@ == stream_url_of(a, fav.stream_id, fav.stream_type@,
                    if fav.stream_type@ == "live"@ && old(self).config.settings.use_ts_for_live { Some("ts"@) } else { None })
                    && logged(old(self).logs@, final(self).logs@, seq!["Connecting to provider: "@ + provider.label_of(),
                        "Successfully connected to provider"@, "Playing: "@ + fav.name@, "Stream URL: "@ + url@])
            },
            match connection {
                Ok(a) => match old(self).current_api {
                    Some(c) => c.provider_hash@ == a.provider_hash@,
                    None => false,
                },
                Err(_) => false,
            } ==> {
                let c = old(self).current_api->Some_0;
                &&& final(self).current_api == old(self).current_api
                &&& r matches Some(Command::Play { url, .. }) && url@ == stream_url_of(c, fav.stream_id, fav.stream_type@,
                    if fav.stream_type@ == "live"@ && old(self).config.settings.use_ts_for_live { Some("ts"@) } else { None })
            },
    {
        let ghost l0 = self.logs@;
        let ghost mut connect_lines: Seq<Seq<char>> = seq![];
        proof { lemma_logged_nothing(l0); }
        if needs_connect_of(&self.current_api, &connection) {
            let label = provider.label();
            self.add_log(concat2("Connecting to provider: ", label.as_str()));
            let ghost l1 = self.logs@;
            match connection {
                Ok(api) => {
                    let mut api = api;
                    api.disable_progress();
                    self.current_api = Some(api);
                    self.add_log(String::from_str("Successfully connected to provider"));
                    proof {
                        lemma_logged_two(l0, l1, self.logs@, "Connecting to provider: "@ + provider.label_of(), "Successfully connected to provider"@);
                        connect_lines = seq!["Connecting to provider: "@ + provider.label_of(), "Successfully connected to provider"@];
                    }
                },
                Err(e) => {
                    self.state = AppState::Error(concat2("Failed to connect: ", e.as_str()));
                    self.add_log(concat2("Connection failed: ", e.as_str()));
                    proof { lemma_logged_two(l0, l1, self.logs@, "Connecting to provider: "@ + provider.label_of(), "Connection failed: "@ + e@); }
                    return None;
                },
            }
        }
        let ghost l2 = self.logs@;
        let url = match &self.current_api {
            Some(api) => {
                let ext = if str_eq(fav.stream_type.as_str(), "live") && self.config.settings.use_ts_for_live { Some("ts") } else { None };
                api.get_stream_url(fav.stream_id, fav.stream_type.as_str(), ext)
            },
            None => return None,
        };
        self.add_log(concat2("Playing: ", fav.name.as_str()));
        let ghost l3 = self.logs@;
        self.add_log(concat2("Stream URL: ", url.as_str()));
        proof {
            lemma_logged_two(l2, l3, self.logs@, "Playing: "@ + fav.name@, "Stream URL: "@ + url@);
            lemma_logged_then(l0, l2, self.logs@, connect_lines, seq!["Playing: "@ + fav.name@, "Stream URL: "@ + url@]);
            assert(connect_lines + seq!["Playing: "@ + fav.name@, "Stream URL: "@ + url@] =~= if connect_lines.len() == 0 {
                seq!["Playing: "@ + fav.name@, "Stream URL: "@ + url@]
            } else {
                seq!["Connecting to provider: "@ + provider.label_of(), "Successfully connected to provider"@, "Playing: "@ + fav.name@, "Stream URL: "@ + url@]
            });
        }
        Some(Command::Play { url, how: how_for_mode(self.config.settings.play_mode), kind: PlayKind::Favourite, name: fav.name.clone() })
    }

    /// Opens the advanced play menu for a live favourite, switching to its
    /// provider first when needed (a failed switch is only logged). Other
    /// favourites are left alone.
    pub fn open_favourite_menu(&mut self, fav: &FavouriteStream, provider: &ProviderConfig, connection: Result<XTreamAPI, String>)
        requires
            old(self).wf(),
        ensures
            final(self).wf(),
            fav.stream_type@ != "live"@ ==> final(self).state == old(self).state && final(self).list == old(self).list,
            fav.stream_type@ == "live"@ && needs_connect(old(self).current_api, connection) && connection is Err ==>
                final(self).state == old(self).state && final(self).list == old(self).list,
            fav.stream_type@ == "live"@ && !(needs_connect(old(self).current_api, connection) && connection is Err) ==>
                (final(self).state matches AppState::StreamAdvancedMenu(s, ct) && ct == ContentType::Live
                    && s.stream_id == fav.stream_id && s.name == fav.name)
                && views(final(self).list.items@) == advanced_menu_of(),
            fav.stream_type@ != "live"@ ==> logged(old(self).logs@, final(self).logs@, seq![]),
            connection matches Err(e) ==> (fav.stream_type@ == "live"@ && needs_connect(old(self).current_api, connection) ==>
                logged(old(self).logs@, final(self).logs@, seq!["Failed to connect to provider: "@ + e@])),
            fav.stream_type@ == "live"@ && !(needs_connect(old(self).current_api, connection) && connection is Err) ==>
                logged(old(self).logs@, final(self).logs@, seq!["Advanced menu opened"@]),
    {
        proof { lemma_logged_nothing(self.logs@); }
        if !str_eq(fav.stream_type.as_str(), "live") {
            return;
        }
        if needs_connect_of(&self.current_api, &connection) {
            match connection {
                Ok(api) => {
                    let mut api = api;
                    api.disable_progress();
                    self.current_api = Some(api);
                    self.current_provider_name = provider.name.clone();
                },
                Err(e) => {
                    self.add_log(concat2("Failed to connect to provider: ", e.as_str()));
                    return;
                },
            }
        }
        let stream = favourite_as_stream(fav);
        self.show_stream_advanced_menu(stream, ContentType::Live);
    }

    /// A favourite was removed from its provider's list (or could not be):
    /// the favourites of every provider are read again after a removal.
    pub fn favourite_removed(&mut self, fav: &FavouriteStream, result: Result<(), FavouriteAccessError>) -> (r: Option<Command>)
        requires
            old(self).wf(),
        ensures
            final(self).wf(),
            result is Ok ==> (r matches Some(Command::LoadAllFavourites)) && final(self).state is Loading,
            result is Err ==> r is None && final(self).state == old(self).state && final(self).list == old(self).list,
            logged(old(self).logs@, final(self).logs@, match result {
                Ok(_) => seq!["Removed "@ + fav.name@ + " from favourites"@, "Loading favourites from all providers"@],
                Err(FavouriteAccessError::Access(e)) => seq!["Failed to access favourites: "@ + e@],
                Err(FavouriteAccessError::Connect(e)) => seq!["Failed to connect: "@ + e@],
            }),
    {
        match result {
            Ok(()) => {
                let ghost l0 = self.logs@;
                self.add_log(crate::text::concat3("Removed ", fav.name.as_str(), " from favourites"));
                let ghost l1 = self.logs@;
                let c = self.load_all_favourites();
                proof {
                    lemma_logged_two(l0, l1, self.logs@, "Removed "@ + fav.name@ + " from favourites"@, "Loading favourites from all providers"@);
                }
                Some(c)
            },
            Err(FavouriteAccessError::Access(e)) => {
                self.add_log(concat2("Failed to access favourites: ", e.as_str()));
                None
            },
            Err(FavouriteAccessError::Connect(e)) => {
                self.add_log(concat2("Failed to connect: ", e.as_str()));
                None
            },
        }
    }

    /// Acts on the selected entry of the advanced play menu: the six ways of
    /// playing the stream (the menu stays), or going back.
    pub fn handle_stream_advanced_menu_selection(&mut self, stream: &Stream) -> (r: Option<Command>)
        requires
            old(self).wf(),
        ensures
            final(self).wf(),
            advanced_selection_done(*old(self), *final(self), *stream, r),
    {
        match self.list.selected_index {
            0 => self.play_stream(stream),
            1 => self.play_stream_in_terminal(stream),
            2 => self.play_stream_ts(stream, PlayHow::Background),
            3 => self.play_stream_ts(stream, PlayHow::InTerminal),
            4 => self.play_stream_detached(stream),
            5 => self.play_stream_ts(stream, PlayHow::Detached),
            6 => {
                self.restore_previous_state();
                None
            },
            _ => None,
        }
    }
}

} // verus!
