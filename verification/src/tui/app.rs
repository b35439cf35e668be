//! The TUI's state machine. A key press or the result of outside work
//! (a download, starting the player, reading favourites) moves the state
//! on; the outside work itself is asked for by a `Command` and done by the
//! caller, which hands the result back.
use vstd::prelude::*;
use crate::config::{Config, PlayMode, ProviderConfig};
use crate::ignore::IgnoreConfig;
use crate::text::{concat2, concat3, lowercase, push_char, str_contains, str_eq, str_starts_with, u64_to_string, parse_u32};
use crate::tui::list::{all_indices, indices_in_range, ListView};
use crate::tui::wrap::{break_url, wrap_text};
use crate::xtream_api::{views, ApiEpisode, Category, FavouriteStream, SeriesInfo, SeriesInfoResponse, Stream, VodInfoResponse, XTreamAPI};

verus! {

/// The content types the TUI browses.
#[derive(Debug, Clone, Copy, PartialEq, Eq, Structural, Hash)]
pub enum ContentType {
    Live,
    Movies,
    Series,
}

impl ContentType {
    /// The name shown for the content type.
    pub open spec fn label_of(self) -> Seq<char> {
        match self {
            ContentType::Live => "Live TV"@,
            ContentType::Movies => "Movies"@,
            ContentType::Series => "TV Series"@,
        }
    }

    /// The name shown for the content type.
    pub fn label(&self) -> (r: &'static str)
        ensures
            r@ == self.label_of(),
    {
        match self {
            ContentType::Live => "Live TV",
            ContentType::Movies => "Movies",
            ContentType::Series => "TV Series",
        }
    }
}

/// Where the log panel is shown.
#[derive(Debug, Clone, Copy, PartialEq, Eq, Structural)]
pub enum LogDisplayMode {
    Side,
    Hidden,
    Full,
}

impl LogDisplayMode {
    /// The next mode of the cycle side, hidden, full window.
    pub open spec fn next_of(self) -> LogDisplayMode {
        match self {
            LogDisplayMode::Side => LogDisplayMode::Hidden,
            LogDisplayMode::Hidden => LogDisplayMode::Full,
            LogDisplayMode::Full => LogDisplayMode::Side,
        }
    }

    /// The next mode of the cycle.
    pub fn next(&self) -> (r: LogDisplayMode)
        ensures
            r == self.next_of(),
    {
        match self {
            LogDisplayMode::Side => LogDisplayMode::Hidden,
            LogDisplayMode::Hidden => LogDisplayMode::Full,
            LogDisplayMode::Full => LogDisplayMode::Side,
        }
    }
}

/// A season in the season list.
#[derive(Debug)]
pub struct TuiSeason {
    pub season_number: u32,
    pub name: String,
    pub episode_count: usize,
}

impl Clone for TuiSeason {
    fn clone(&self) -> (r: Self)
        ensures
            r == *self,
    {
        TuiSeason { season_number: self.season_number, name: self.name.clone(), episode_count: self.episode_count }
    }
}

/// The movie information screen, with the stream list to go back to.
#[derive(Debug)]
pub struct VodInfoState {
    pub stream: Stream,
    pub saved_filter: String,
    pub saved_selected: usize,
    pub saved_filtered_indices: Vec<usize>,
    pub saved_scroll: usize,
    pub saved_items: Vec<String>,
    pub content_scroll: usize,
}

impl Clone for VodInfoState {
    fn clone(&self) -> (r: Self)
        ensures
            r.content_scroll == self.content_scroll,
    {
        VodInfoState {
            stream: self.stream.clone(),
            saved_filter: self.saved_filter.clone(),
            saved_selected: self.saved_selected,
            saved_filtered_indices: self.saved_filtered_indices.clone(),
            saved_scroll: self.saved_scroll,
            saved_items: self.saved_items.clone(),
            content_scroll: self.content_scroll,
        }
    }
}

/// A list position remembered for a screen.
#[derive(Debug, Default)]
pub struct NavigationState {
    pub selected_index: usize,
    pub scroll_offset: usize,
    pub search_query: String,
    pub filtered_indices: Vec<usize>,
}

impl NavigationState {
    /// The first item, no scroll, no filter.
    pub fn new() -> (r: NavigationState)
        ensures
            r.selected_index == 0,
            r.scroll_offset == 0,
            r.search_query@.len() == 0,
            r.filtered_indices@.len() == 0,
    {
        NavigationState { selected_index: 0, scroll_offset: 0, search_query: String::new(), filtered_indices: Vec::new() }
    }

    /// A copy (the derived `Clone` says nothing of its result).
    pub fn copy(&self) -> (r: NavigationState)
        ensures
            r.selected_index == self.selected_index,
            r.scroll_offset == self.scroll_offset,
            r.search_query@ == self.search_query@,
            r.filtered_indices@ == self.filtered_indices@,
    {
        NavigationState {
            selected_index: self.selected_index,
            scroll_offset: self.scroll_offset,
            search_query: self.search_query.clone(),
            filtered_indices: copy_indices(&self.filtered_indices),
        }
    }
}

pub(crate) fn copy_indices(v: &Vec<usize>) -> (r: Vec<usize>)
    ensures
        r@ == v@,
{
    let mut r: Vec<usize> = Vec::new();
    let mut i: usize = 0;
    while i < v.len()
        invariant
            i <= v@.len(),
            r@ == v@.subrange(0, i as int),
        decreases v@.len() - i,
    {
        r.push(v[i]);
        i = i + 1;
        assert(r@ =~= v@.subrange(0, i as int));
    }
    assert(r@ =~= v@);
    r
}

pub(crate) fn copy_items(v: &Vec<String>) -> (r: Vec<String>)
    ensures
        r@ == v@,
{
    let mut r: Vec<String> = Vec::new();
    let mut i: usize = 0;
    while i < v.len()
        invariant
            i <= v@.len(),
            r@ == v@.subrange(0, i as int),
        decreases v@.len() - i,
    {
        r.push(v[i].clone());
        i = i + 1;
        assert(r@ =~= v@.subrange(0, i as int));
    }
    assert(r@ =~= v@);
    r
}

/// The screen the TUI shows.
#[derive(Debug)]
pub enum AppState {
    ProviderSelection,
    MainMenu,
    CategorySelection(ContentType),
    StreamSelection(ContentType, Category),
    VodInfo(VodInfoState),
    SeasonSelection(Stream),
    EpisodeSelection(Stream, TuiSeason),
    CrossProviderFavourites,
    StreamAdvancedMenu(Stream, ContentType),
    Configuration,
    Loading(String),
    Error(String),
    Playing(String),
}

impl Clone for AppState {
    fn clone(&self) -> (r: Self) {
        match self {
            AppState::ProviderSelection => AppState::ProviderSelection,
            AppState::MainMenu => AppState::MainMenu,
            AppState::CategorySelection(c) => AppState::CategorySelection(*c),
            AppState::StreamSelection(c, cat) => AppState::StreamSelection(*c, cat.clone()),
            AppState::VodInfo(v) => AppState::VodInfo(v.clone()),
            AppState::SeasonSelection(s) => AppState::SeasonSelection(s.clone()),
            AppState::EpisodeSelection(s, t) => AppState::EpisodeSelection(s.clone(), t.clone()),
            AppState::CrossProviderFavourites => AppState::CrossProviderFavourites,
            AppState::StreamAdvancedMenu(s, c) => AppState::StreamAdvancedMenu(s.clone(), *c),
            AppState::Configuration => AppState::Configuration,
            AppState::Loading(m) => AppState::Loading(m.clone()),
            AppState::Error(m) => AppState::Error(m.clone()),
            AppState::Playing(m) => AppState::Playing(m.clone()),
        }
    }
}

/// What a key press asks of the program loop.
#[derive(Debug, Clone, Copy, PartialEq, Eq, Structural)]
pub enum Action {
    Quit,
    Back,
    Select,
    Refresh,
    CacheRefresh,
}

/// A key, as the TUI reads it.
#[derive(Debug, Clone, Copy, PartialEq, Eq, Structural)]
pub enum KeyCode {
    Char(char),
    Up,
    Down,
    PageUp,
    PageDown,
    Home,
    End,
    Enter,
    Esc,
    Backspace,
    F(u8),
    Other,
}

/// A key press with its modifiers.
#[derive(Debug, Clone, Copy, PartialEq, Eq, Structural)]
pub struct KeyInput {
    pub code: KeyCode,
    pub ctrl: bool,
    pub shift: bool,
}

/// How a stream is to be played.
#[derive(Debug, Clone, Copy, PartialEq, Eq, Structural)]
pub enum PlayHow {
    /// In the managed background player.
    Background,
    /// In the player inside a terminal window.
    InTerminal,
    /// In an independent window that nothing replaces.
    Disassociated,
    /// In a detached player that keeps running on its own.
    Detached,
}

/// What was being played, for the messages that follow.
#[derive(Debug, Clone, Copy, PartialEq, Eq, Structural)]
pub enum PlayKind {
    Stream,
    StreamDetached,
    StreamTerminal,
    StreamTs,
    StreamTsTerminal,
    StreamTsDetached,
    Episode,
    EpisodeDetached,
    Movie,
    MovieDetached,
    Favourite,
}

/// Outside work the TUI asks for. After doing it the caller hands the result
/// back through the matching `App` method.
#[derive(Debug)]
pub enum Command {
    /// Build the provider connection; then `connected`.
    Connect(ProviderConfig),
    /// Read every provider's favourites; then `all_favourites_loaded`.
    LoadAllFavourites,
    /// Fetch the categories; then `categories_loaded`.
    FetchCategories { content_type: ContentType, restore_nav: bool },
    /// Read the favourites of the current provider; then `load_streams`.
    LoadStreams { content_type: ContentType, category: Category, force_refresh: bool, restore_nav: bool },
    /// Fetch the streams; then `streams_loaded`.
    FetchStreams { content_type: ContentType, category: Category, restore_nav: bool, favourites: Vec<FavouriteStream> },
    /// Fetch the series details; then `seasons_loaded`.
    FetchSeasons(Stream),
    /// Fetch the series details; then `episodes_loaded`.
    FetchEpisodes(Stream, TuiSeason),
    /// Fetch the movie details; then `vod_info_loaded`.
    FetchVodInfo(VodInfoState),
    /// Start the player; then `play_finished`.
    Play { url: String, how: PlayHow, kind: PlayKind, name: String },
    /// Stop the managed player.
    StopPlayback,
    /// Save the hidden categories and channels.
    SaveIgnoreConfig,
    /// Save the configuration; then log the outcome.
    SaveConfig,
    /// Add or remove a favourite of the current provider; then `favourite_toggled`.
    ToggleFavourite(Stream),
    /// Connect to the favourite's provider when another is current, then
    /// play it; then `play_finished`.
    PlayFavourite(FavouriteStream, ProviderConfig),
    /// Connect to the favourite's provider when another is current, then
    /// call `open_favourite_menu`.
    OpenFavouriteMenu(FavouriteStream, ProviderConfig),
    /// Remove a favourite from its provider's list; then `all_favourites_loaded`.
    RemoveFavourite(FavouriteStream, ProviderConfig),
}

/// What is left to do once a list reloads after hiding or showing an item:
/// the filter to put back, the item that anchors the scroll position, the
/// item to select, and where the selection and scroll were.
#[derive(Debug)]
pub struct PendingIgnoreAdjust {
    pub saved_query: String,
    pub saved_search_active: bool,
    pub anchor: Option<String>,
    pub next_name: Option<String>,
    pub filter_pos: usize,
    pub scroll: usize,
    pub for_categories: bool,
}


/// The indices of the list that lie below `n`, in order.
pub open spec fn below(v: Seq<usize>, n: nat) -> Seq<usize>
    decreases v.len(),
{
    if v.len() == 0 {
        seq![]
    } else if v.last() < n {
        below(v.drop_last(), n).push(v.last())
    } else {
        below(v.drop_last(), n)
    }
}

pub fn keep_below(v: &Vec<usize>, n: usize) -> (r: Vec<usize>)
    ensures
        r@ == below(v@, n as nat),
        indices_in_range(r@, n as nat),
{
    let mut r: Vec<usize> = Vec::new();
    let mut i: usize = 0;
    while i < v.len()
        invariant
            i <= v@.len(),
            r@ == below(v@.subrange(0, i as int), n as nat),
            indices_in_range(r@, n as nat),
        decreases v@.len() - i,
    {
        if v[i] < n {
            r.push(v[i]);
        }
        assert(v@.subrange(0, i + 1).drop_last() =~= v@.subrange(0, i as int));
        i = i + 1;
    }
    assert(v@.subrange(0, v@.len() as int) =~= v@);
    r
}

fn contains_index(v: &Vec<usize>, x: usize) -> (r: bool)
    ensures
        r == v@.contains(x),
{
    let mut i: usize = 0;
    while i < v.len()
        invariant
            i <= v@.len(),
            forall|j: int| 0 <= j < i ==> v@[j] != x,
        decreases v@.len() - i,
    {
        if v[i] == x {
            return true;
        }
        i = i + 1;
    }
    false
}




/// The state of the whole TUI that the rules read; the connection client and
/// the player are the caller's.
#[derive(Debug)]
pub struct App {
    pub state: AppState,
    pub config: Config,
    pub current_api: Option<XTreamAPI>,
    pub current_provider_name: Option<String>,
    pub list: ListView,
    pub logs: Vec<(u64, String)>,
    pub show_help: bool,
    pub help_scroll_offset: usize,
    pub log_display_mode: LogDisplayMode,
    pub log_selected_index: usize,
    pub log_scroll_offset: usize,
    pub config_state: NavigationState,
    pub categories: Vec<Category>,
    pub streams: Vec<Stream>,
    pub seasons: Vec<TuiSeason>,
    pub episodes: Vec<ApiEpisode>,
    pub cross_provider_favourites: Vec<(FavouriteStream, ProviderConfig)>,
    pub vod_info: Option<VodInfoResponse>,
    pub ignore_config: IgnoreConfig,
    pub cached_categories: Vec<(ContentType, Vec<Category>)>,
    pub cached_streams: Vec<(ContentType, String, Vec<Stream>)>,
    pub provider_selection_state: NavigationState,
    pub main_menu_state: NavigationState,
    pub category_selection_states: Vec<(ContentType, NavigationState)>,
    pub stream_selection_states: Vec<(ContentType, String, NavigationState)>,
    pub season_selection_state: NavigationState,
    pub cross_provider_favourites_state: NavigationState,
    pub previous_state_before_menu: Option<Box<AppState>>,
    pub previous_items_before_menu: Vec<String>,
    pub previous_nav_before_menu: NavigationState,
    pub pending_adjust: Option<PendingIgnoreAdjust>,
}

/// The movie details keep a filter over the list they return to.
pub open spec fn state_wf(s: AppState) -> bool {
    s matches AppState::VodInfo(v) ==> indices_in_range(v.saved_filtered_indices@, v.saved_items@.len())
}

/// The most log lines kept.
pub open spec fn max_logs() -> nat {
    100
}

/// The texts of log lines, oldest first.
pub open spec fn log_texts(logs: Seq<(u64, String)>) -> Seq<Seq<char>> {
    logs.map_values(|l: (u64, String)| l.1@)
}

/// The last `max_logs()` of some lines (all of them when there are fewer).
pub open spec fn last_lines(lines: Seq<Seq<char>>) -> Seq<Seq<char>> {
    if lines.len() <= max_logs() { lines } else { lines.subrange(lines.len() - max_logs(), lines.len() as int) }
}

/// `after` is the log `before` with the lines `added` written to it, in
/// order; only the last `max_logs()` lines are kept.
pub open spec fn logged(before: Seq<(u64, String)>, after: Seq<(u64, String)>, added: Seq<Seq<char>>) -> bool {
    log_texts(after) == last_lines(log_texts(before) + added)
}

/// Writing nothing leaves a log that is within its bound as it was.
pub proof fn lemma_logged_nothing(logs: Seq<(u64, String)>)
    requires
        logs.len() <= max_logs(),
    ensures
        logged(logs, logs, seq![]),
{
    assert(log_texts(logs) + seq![] =~= log_texts(logs));
}

/// Writing one line and then another writes both, in order.
pub proof fn lemma_logged_two(a: Seq<(u64, String)>, b: Seq<(u64, String)>, c: Seq<(u64, String)>, x: Seq<char>, y: Seq<char>)
    requires
        logged(a, b, seq![x]),
        logged(b, c, seq![y]),
    ensures
        logged(a, c, seq![x, y]),
{
    lemma_logged_then(a, b, c, seq![x], seq![y]);
    assert(seq![x] + seq![y] =~= seq![x, y]);
}

/// Writing three lines one after the other writes all three, in order.
pub proof fn lemma_logged_three(a: Seq<(u64, String)>, b: Seq<(u64, String)>, c: Seq<(u64, String)>, d: Seq<(u64, String)>,
    x: Seq<char>, y: Seq<char>, z: Seq<char>)
    requires
        logged(a, b, seq![x]),
        logged(b, c, seq![y]),
        logged(c, d, seq![z]),
    ensures
        logged(a, d, seq![x, y, z]),
{
    lemma_logged_two(a, b, c, x, y);
    lemma_logged_then(a, c, d, seq![x, y], seq![z]);
    assert(seq![x, y] + seq![z] =~= seq![x, y, z]);
}

/// Writing some lines and then some more writes them all, in order.
pub proof fn lemma_logged_then(a: Seq<(u64, String)>, b: Seq<(u64, String)>, c: Seq<(u64, String)>,
    first: Seq<Seq<char>>, then: Seq<Seq<char>>)
    requires
        logged(a, b, first),
        logged(b, c, then),
    ensures
        logged(a, c, first + then),
{
    let s = log_texts(a) + first;
    let n = max_logs() as int;
    assert(log_texts(a) + (first + then) =~= s + then);
    if s.len() > n {
        let kept = s.subrange(s.len() - n, s.len() as int);
        let lhs = last_lines(kept + then);
        let rhs = last_lines(s + then);
        assert(lhs.len() == rhs.len());
        assert forall|i: int| 0 <= i < lhs.len() implies lhs[i] == rhs[i] by {
            if then.len() + i < n {
                assert(lhs[i] == kept[then.len() + i]);
                assert(rhs[i] == s[s.len() - n + then.len() + i]);
            } else {
                assert(lhs[i] == then[then.len() + i - n]);
            }
        }
        assert(lhs =~= rhs);
    }
}

/// The provider list of the provider selection screen: `Favourites` first,
/// then each provider's name (its URL when unnamed).
pub open spec fn provider_labels(providers: Seq<ProviderConfig>) -> Seq<Seq<char>> {
    seq!["Favourites"@] + providers.map_values(|p: ProviderConfig| p.label_of())
}

/// The items of the provider selection screen.
pub fn provider_items(providers: &Vec<ProviderConfig>) -> (r: Vec<String>)
    ensures
        views(r@) == provider_labels(providers@),
{
    let mut items: Vec<String> = Vec::new();
    items.push(String::from_str("Favourites"));
    let mut i: usize = 0;
    while i < providers.len()
        invariant
            i <= providers@.len(),
            views(items@) == provider_labels(providers@.subrange(0, i as int)),
        decreases providers@.len() - i,
    {
        let ghost before = items@;
        items.push(providers[i].label());
        proof {
            assert(views(items@) =~= views(before).push(items@.last()@));
            assert(provider_labels(providers@.subrange(0, i + 1)) =~= provider_labels(providers@.subrange(0, i as int)).push(providers@[i as int].label_of()));
        }
        i = i + 1;
    }
    assert(providers@.subrange(0, providers@.len() as int) =~= providers@);
    items
}

/// The main menu: `Favourites` (only with a single provider), then the
/// content types, the configuration and the cache refresh.
pub open spec fn main_menu_of(single_provider: bool) -> Seq<Seq<char>> {
    let rest = seq!["Live TV"@, "Movies (VOD)"@, "TV Series"@, "Configuration"@, "Refresh Cache"@];
    if single_provider { seq!["Favourites"@] + rest } else { rest }
}

/// What choosing an entry of the main menu does.
#[derive(Debug, Clone, Copy, PartialEq, Eq, Structural)]
pub enum MainMenuChoice {
    Favourites,
    Browse(ContentType),
    Configuration,
    RefreshCache,
    Nothing,
}

/// The choice behind the selected main menu entry (without the favourites
/// entry every index counts one higher).
pub open spec fn main_menu_choice_of(selected: int, single_provider: bool) -> MainMenuChoice {
    let adjusted = if single_provider { selected } else { selected + 1 };
    if adjusted == 0 && single_provider { MainMenuChoice::Favourites }
    else if adjusted == 1 { MainMenuChoice::Browse(ContentType::Live) }
    else if adjusted == 2 { MainMenuChoice::Browse(ContentType::Movies) }
    else if adjusted == 3 { MainMenuChoice::Browse(ContentType::Series) }
    else if adjusted == 4 { MainMenuChoice::Configuration }
    else if adjusted == 5 { MainMenuChoice::RefreshCache }
    else { MainMenuChoice::Nothing }
}

/// The choice behind the selected main menu entry.
pub fn main_menu_choice(selected: usize, single_provider: bool) -> (r: MainMenuChoice)
    ensures
        r == main_menu_choice_of(selected as int, single_provider),
{
    let adjusted: u128 = if single_provider { selected as u128 } else { selected as u128 + 1 };
    if adjusted == 0 && single_provider {
        MainMenuChoice::Favourites
    } else if adjusted == 1 {
        MainMenuChoice::Browse(ContentType::Live)
    } else if adjusted == 2 {
        MainMenuChoice::Browse(ContentType::Movies)
    } else if adjusted == 3 {
        MainMenuChoice::Browse(ContentType::Series)
    } else if adjusted == 4 {
        MainMenuChoice::Configuration
    } else if adjusted == 5 {
        MainMenuChoice::RefreshCache
    } else {
        MainMenuChoice::Nothing
    }
}

/// A remembered list position: selection, scroll, search text and filter.
pub open spec fn nav_view(n: NavigationState) -> (usize, usize, Seq<char>, Seq<usize>) {
    (n.selected_index, n.scroll_offset, n.search_query@, n.filtered_indices@)
}

/// The position of a screen that has none remembered.
pub open spec fn fresh_nav_view() -> (usize, usize, Seq<char>, Seq<usize>) {
    (0, 0, seq![], seq![])
}

/// The position the list shows.
pub open spec fn list_nav_view(l: ListView) -> (usize, usize, Seq<char>, Seq<usize>) {
    (l.selected_index, l.scroll_offset, l.search_query@, l.filtered_indices@)
}

/// Which remembered position a screen uses; screens that remember none
/// have none. The categories of each content type and the channels of each
/// category have their own; all seasons lists share one.
pub open spec fn nav_slot(s: AppState) -> Option<(int, Option<ContentType>, Seq<char>)> {
    match s {
        AppState::ProviderSelection => Some((0, None, seq![])),
        AppState::MainMenu => Some((1, None, seq![])),
        AppState::CategorySelection(ct) => Some((2, Some(ct), seq![])),
        AppState::StreamSelection(ct, cat) => Some((3, Some(ct), cat.category_id@)),
        AppState::SeasonSelection(_) => Some((4, None, seq![])),
        AppState::CrossProviderFavourites => Some((5, None, seq![])),
        AppState::Configuration => Some((6, None, seq![])),
        _ => None,
    }
}

/// The selection kept within `n` items.
pub open spec fn clamped_selection(sel: usize, n: nat) -> usize {
    if n == 0 { 0 } else if sel < n - 1 { sel } else { (n - 1) as usize }
}

/// The filter a remembered position gives over `n` items: entries past the
/// end are dropped; without a search text an empty filter shows everything.
pub open spec fn restored_filter(v: (usize, usize, Seq<char>, Seq<usize>), n: nat) -> Seq<usize> {
    if v.3.len() == 0 && v.2.len() == 0 {
        all_indices(n)
    } else if below(v.3, n).len() == 0 && v.2.len() == 0 {
        all_indices(n)
    } else {
        below(v.3, n)
    }
}

/// The selection a remembered position gives over `n` items: clamped, and
/// moved to the filter's first entry when the filter leaves it out.
pub open spec fn restored_selection(v: (usize, usize, Seq<char>, Seq<usize>), n: nat) -> usize {
    let f = restored_filter(v, n);
    let c = clamped_selection(v.0, n);
    if f.len() > 0 && !f.contains(c) { f[0] } else { c }
}

impl App {
    /// The list's filter points at items, the hidden names are each held
    /// once, and at most `max_logs()` log lines are kept.
    pub open spec fn wf(self) -> bool {
        &&& self.list.wf()
        &&& self.ignore_config.wf()
        &&& self.logs@.len() <= max_logs()
        &&& indices_in_range(self.previous_nav_before_menu.filtered_indices@, self.previous_items_before_menu@.len())
        &&& state_wf(self.state)
        &&& (self.previous_state_before_menu matches Some(p) ==> state_wf(*p))
    }

    /// Everything but the log lines is as in `o`.
    pub open spec fn same_but_logs(self, o: App) -> bool {
        &&& self.state == o.state
        &&& self.config == o.config
        &&& self.current_api == o.current_api
        &&& self.current_provider_name == o.current_provider_name
        &&& self.list == o.list
        &&& self.show_help == o.show_help
        &&& self.help_scroll_offset == o.help_scroll_offset
        &&& self.log_display_mode == o.log_display_mode
        &&& self.log_selected_index == o.log_selected_index
        &&& self.log_scroll_offset == o.log_scroll_offset
        &&& self.config_state == o.config_state
        &&& self.categories == o.categories
        &&& self.streams == o.streams
        &&& self.seasons == o.seasons
        &&& self.episodes == o.episodes
        &&& self.cross_provider_favourites == o.cross_provider_favourites
        &&& self.vod_info == o.vod_info
        &&& self.ignore_config == o.ignore_config
        &&& self.cached_categories == o.cached_categories
        &&& self.cached_streams == o.cached_streams
        &&& self.provider_selection_state == o.provider_selection_state
        &&& self.main_menu_state == o.main_menu_state
        &&& self.category_selection_states == o.category_selection_states
        &&& self.stream_selection_states == o.stream_selection_states
        &&& self.season_selection_state == o.season_selection_state
        &&& self.cross_provider_favourites_state == o.cross_provider_favourites_state
        &&& self.previous_state_before_menu == o.previous_state_before_menu
        &&& self.previous_items_before_menu == o.previous_items_before_menu
        &&& self.previous_nav_before_menu == o.previous_nav_before_menu
        &&& self.pending_adjust == o.pending_adjust
    }

    /// Everything but the list (items, filter, search, selection, status) is
    /// as in `o`, the log lines and the help and log windows included.
    pub open spec fn same_but_list(self, o: App) -> bool {
        &&& self.state == o.state
        &&& self.config == o.config
        &&& self.current_api == o.current_api
        &&& self.current_provider_name == o.current_provider_name
        &&& self.logs == o.logs
        &&& self.show_help == o.show_help
        &&& self.help_scroll_offset == o.help_scroll_offset
        &&& self.log_display_mode == o.log_display_mode
        &&& self.log_selected_index == o.log_selected_index
        &&& self.log_scroll_offset == o.log_scroll_offset
        &&& self.config_state == o.config_state
        &&& self.categories == o.categories
        &&& self.streams == o.streams
        &&& self.seasons == o.seasons
        &&& self.episodes == o.episodes
        &&& self.cross_provider_favourites == o.cross_provider_favourites
        &&& self.vod_info == o.vod_info
        &&& self.ignore_config == o.ignore_config
        &&& self.cached_categories == o.cached_categories
        &&& self.cached_streams == o.cached_streams
        &&& self.provider_selection_state == o.provider_selection_state
        &&& self.main_menu_state == o.main_menu_state
        &&& self.category_selection_states == o.category_selection_states
        &&& self.stream_selection_states == o.stream_selection_states
        &&& self.season_selection_state == o.season_selection_state
        &&& self.cross_provider_favourites_state == o.cross_provider_favourites_state
        &&& self.previous_state_before_menu == o.previous_state_before_menu
        &&& self.previous_items_before_menu == o.previous_items_before_menu
        &&& self.previous_nav_before_menu == o.previous_nav_before_menu
        &&& self.pending_adjust == o.pending_adjust
    }

    /// Everything but the log lines and the help and log windows (shown or
    /// not, position) is as in `o`.
    pub open spec fn same_but_windows(self, o: App) -> bool {
        &&& self.state == o.state
        &&& self.config == o.config
        &&& self.current_api == o.current_api
        &&& self.current_provider_name == o.current_provider_name
        &&& self.list == o.list
        &&& self.config_state == o.config_state
        &&& self.categories == o.categories
        &&& self.streams == o.streams
        &&& self.seasons == o.seasons
        &&& self.episodes == o.episodes
        &&& self.cross_provider_favourites == o.cross_provider_favourites
        &&& self.vod_info == o.vod_info
        &&& self.ignore_config == o.ignore_config
        &&& self.cached_categories == o.cached_categories
        &&& self.cached_streams == o.cached_streams
        &&& self.provider_selection_state == o.provider_selection_state
        &&& self.main_menu_state == o.main_menu_state
        &&& self.category_selection_states == o.category_selection_states
        &&& self.stream_selection_states == o.stream_selection_states
        &&& self.season_selection_state == o.season_selection_state
        &&& self.cross_provider_favourites_state == o.cross_provider_favourites_state
        &&& self.previous_state_before_menu == o.previous_state_before_menu
        &&& self.previous_items_before_menu == o.previous_items_before_menu
        &&& self.previous_nav_before_menu == o.previous_nav_before_menu
        &&& self.pending_adjust == o.pending_adjust
    }

    /// The data of the screens (configuration, connection, downloads,
    /// hidden names, logs, pending work) is as in `o`; only the screen, the
    /// list and the remembered positions may differ.
    pub open spec fn same_data(self, o: App) -> bool {
        &&& self.config == o.config
        &&& self.current_api == o.current_api
        &&& self.current_provider_name == o.current_provider_name
        &&& self.logs == o.logs
        &&& self.show_help == o.show_help
        &&& self.help_scroll_offset == o.help_scroll_offset
        &&& self.log_display_mode == o.log_display_mode
        &&& self.log_selected_index == o.log_selected_index
        &&& self.log_scroll_offset == o.log_scroll_offset
        &&& self.categories == o.categories
        &&& self.streams == o.streams
        &&& self.seasons == o.seasons
        &&& self.episodes == o.episodes
        &&& self.cross_provider_favourites == o.cross_provider_favourites
        &&& self.vod_info == o.vod_info
        &&& self.ignore_config == o.ignore_config
        &&& self.cached_categories == o.cached_categories
        &&& self.cached_streams == o.cached_streams
        &&& self.previous_state_before_menu == o.previous_state_before_menu
        &&& self.previous_items_before_menu == o.previous_items_before_menu
        &&& self.previous_nav_before_menu == o.previous_nav_before_menu
        &&& self.pending_adjust == o.pending_adjust
    }

    /// The remembered list positions are as in `o`.
    pub open spec fn same_navs(self, o: App) -> bool {
        &&& self.config_state == o.config_state
        &&& self.provider_selection_state == o.provider_selection_state
        &&& self.main_menu_state == o.main_menu_state
        &&& self.category_selection_states == o.category_selection_states
        &&& self.stream_selection_states == o.stream_selection_states
        &&& self.season_selection_state == o.season_selection_state
        &&& self.cross_provider_favourites_state == o.cross_provider_favourites_state
    }

    /// The position remembered for a screen (a fresh one where none is).
    pub open spec fn saved_nav_view(self, s: AppState) -> (usize, usize, Seq<char>, Seq<usize>) {
        match s {
            AppState::ProviderSelection => nav_view(self.provider_selection_state),
            AppState::MainMenu => nav_view(self.main_menu_state),
            AppState::CategorySelection(ct) => match first_match(self.category_selection_states@, is_category_entry(ct)) {
                Some(e) => nav_view(e.1),
                None => fresh_nav_view(),
            },
            AppState::StreamSelection(ct, cat) => match first_match(self.stream_selection_states@, is_stream_entry(ct, cat.category_id@)) {
                Some(e) => nav_view(e.2),
                None => fresh_nav_view(),
            },
            AppState::SeasonSelection(_) => nav_view(self.season_selection_state),
            AppState::CrossProviderFavourites => nav_view(self.cross_provider_favourites_state),
            AppState::Configuration => nav_view(self.config_state),
            _ => fresh_nav_view(),
        }
    }

    /// `after` is `before` with the list position remembered for the current
    /// screen; the positions of other screens stay.
    pub open spec fn nav_saved(before: App, after: App) -> bool {
        &&& after.list == before.list
        &&& after.state == before.state
        &&& after.same_data(before)
        &&& nav_slot(before.state) is Some ==> after.saved_nav_view(before.state) == list_nav_view(before.list)
        &&& nav_slot(before.state) is None ==> after.same_navs(before)
        &&& forall|s: AppState| nav_slot(s) != nav_slot(before.state)
            ==> #[trigger] after.saved_nav_view(s) == before.saved_nav_view(s)
    }

    /// `after` is `before` with the list at the position remembered for
    /// screen `s`, kept within the current items.
    pub open spec fn nav_restored(before: App, s: AppState, after: App) -> bool {
        let v = before.saved_nav_view(s);
        let n = before.list.items@.len();
        &&& after.list.items@ == before.list.items@
        &&& after.list.search_active == before.list.search_active
        &&& after.list.status_message == before.list.status_message
        &&& after.list.visible_height == before.list.visible_height
        &&& after.list.selected_index == restored_selection(v, n)
        &&& after.list.scroll_offset == v.1
        &&& after.list.search_query@ == v.2
        &&& after.list.filtered_indices@ == restored_filter(v, n)
        &&& after.state == before.state
        &&& after.same_data(before)
        &&& after.same_navs(before)
    }

    /// The TUI for a configuration: with several providers it starts on the
    /// provider list, with one it connects to it, with none it shows an error.
    pub fn new(config: Config, ignore_config: IgnoreConfig) -> (r: App)
        requires
            ignore_config.wf(),
        ensures
            r.wf(),
            r.logs@.len() == 0,
            config.providers@.len() > 1 ==> r.state is ProviderSelection
                && views(r.list.items@) == provider_labels(config.providers@),
            config.providers@.len() == 1 ==> r.list.items@.len() == 0
                && (r.state matches AppState::Loading(m) && m@ == "Connecting to provider..."@),
            config.providers@.len() == 0 ==> r.list.items@.len() == 0
                && (r.state matches AppState::Error(m) && m@ == "No providers configured"@),
            r.config == config,
            r.ignore_config == ignore_config,
            r.list.filtered_indices@ == all_indices(r.list.items@.len()),
            r.list.selected_index == 0,
            r.list.scroll_offset == 0,
            r.list.search_query@.len() == 0,
            !r.list.search_active,
            r.list.status_message is None,
            r.list.visible_height == 20,
            r.current_api is None,
            r.current_provider_name is None,
            r.log_display_mode == LogDisplayMode::Side,
            r.log_selected_index == 0,
            r.log_scroll_offset == 0,
            !r.show_help,
            r.help_scroll_offset == 0,
            r.categories@.len() == 0,
            r.streams@.len() == 0,
            r.seasons@.len() == 0,
            r.episodes@.len() == 0,
            r.cross_provider_favourites@.len() == 0,
            r.vod_info is None,
            r.cached_categories@.len() == 0,
            r.cached_streams@.len() == 0,
            r.previous_state_before_menu is None,
            r.previous_items_before_menu@.len() == 0,
            r.pending_adjust is None,
    {
        let n = config.providers.len();
        let items = if n > 1 { provider_items(&config.providers) } else { Vec::new() };
        let state = if n > 1 {
            AppState::ProviderSelection
        } else if n == 1 {
            AppState::Loading(String::from_str("Connecting to provider..."))
        } else {
            AppState::Error(String::from_str("No providers configured"))
        };
        App {
            state,
            config,
            current_api: None,
            current_provider_name: None,
            list: ListView::new(items),
            logs: Vec::new(),
            show_help: false,
            help_scroll_offset: 0,
            log_display_mode: LogDisplayMode::Side,
            log_selected_index: 0,
            log_scroll_offset: 0,
            config_state: NavigationState::new(),
            categories: Vec::new(),
            streams: Vec::new(),
            seasons: Vec::new(),
            episodes: Vec::new(),
            cross_provider_favourites: Vec::new(),
            vod_info: None,
            ignore_config,
            cached_categories: Vec::new(),
            cached_streams: Vec::new(),
            provider_selection_state: NavigationState::new(),
            main_menu_state: NavigationState::new(),
            category_selection_states: Vec::new(),
            stream_selection_states: Vec::new(),
            season_selection_state: NavigationState::new(),
            cross_provider_favourites_state: NavigationState::new(),
            previous_state_before_menu: None,
            previous_items_before_menu: Vec::new(),
            previous_nav_before_menu: NavigationState::new(),
            pending_adjust: None,
        }
    }

    /// Adds a log line stamped `now` (seconds since the epoch), keeping only
    /// the last `max_logs()` lines.
    pub fn add_log_at(&mut self, message: String, now: u64)
        requires
            old(self).logs@.len() <= max_logs(),
        ensures
            final(self).logs@.len() <= max_logs(),
            final(self).logs@.len() == (if old(self).logs@.len() < max_logs() { old(self).logs@.len() + 1 } else { max_logs() }),
            final(self).logs@.last() == (now, message),
            old(self).logs@.len() < max_logs() ==> final(self).logs@ == old(self).logs@.push((now, message)),
            old(self).logs@.len() == max_logs() ==> final(self).logs@ == old(self).logs@.push((now, message)).drop_first(),
            final(self).same_but_logs(*old(self)),
    {
        self.logs.push((now, message));
        if self.logs.len() > 100 {
            self.logs.remove(0);
        }
    }

    /// Adds a log line stamped with the current time (the clock is read).
    pub fn add_log(&mut self, message: String)
        requires
            old(self).wf(),
        ensures
            final(self).wf(),
            final(self).logs@.last().1 == message,
            final(self).logs@.len() == (if old(self).logs@.len() < max_logs() { old(self).logs@.len() + 1 } else { max_logs() }),
            old(self).logs@.len() < max_logs() ==> final(self).logs@.drop_last() == old(self).logs@,
            old(self).logs@.len() == max_logs() ==> final(self).logs@.drop_last() == old(self).logs@.drop_first(),
            logged(old(self).logs@, final(self).logs@, seq![message@]),
            final(self).same_but_logs(*old(self)),
    {
        let now = crate::cache::unix_now_secs();
        let ghost before = self.logs@;
        self.add_log_at(message, now);
        proof {
            assert(before.push((now, message)).drop_last() =~= before);
            if before.len() == max_logs() {
                assert(before.push((now, message)).drop_first().drop_last() =~= before.drop_first());
            }
            let entry = (now, message);
            if before.len() < max_logs() {
                assert(log_texts(before.push(entry)) =~= log_texts(before) + seq![message@]);
            } else {
                assert(log_texts(before.push(entry).drop_first()) =~= last_lines(log_texts(before) + seq![message@]));
            }
        }
    }

    /// Adds log lines in order, each stamped with the current time.
    pub fn add_logs(&mut self, lines: Vec<String>)
        requires
            old(self).wf(),
        ensures
            final(self).wf(),
            logged(old(self).logs@, final(self).logs@, views(lines@)),
            final(self).same_but_logs(*old(self)),
    {
        let ghost start = self.logs@;
        proof { lemma_logged_nothing(start); }
        let mut i: usize = 0;
        while i < lines.len()
            invariant
                i <= lines@.len(),
                self.wf(),
                logged(start, self.logs@, views(lines@).subrange(0, i as int)),
                self.same_but_logs(*old(self)),
            decreases lines@.len() - i,
        {
            let ghost before = self.logs@;
            let line = lines[i].clone();
            self.add_log(line);
            proof {
                lemma_logged_then(start, before, self.logs@, views(lines@).subrange(0, i as int), seq![lines@[i as int]@]);
                assert(views(lines@).subrange(0, i as int) + seq![lines@[i as int]@] =~= views(lines@).subrange(0, i + 1));
            }
            i = i + 1;
        }
        assert(views(lines@).subrange(0, lines@.len() as int) =~= views(lines@));
    }

    /// Sets the number of list rows from the terminal's height (header and
    /// footer take four rows; at least one row remains).
    pub fn update_visible_height(&mut self, height: usize)
        requires
            old(self).wf(),
        ensures
            final(self).wf(),
            final(self).list.visible_height == (if height < 5 { 1 } else { height - 4 }),
            final(self).list.items@ == old(self).list.items@,
            final(self).list.filtered_indices@ == old(self).list.filtered_indices@,
            final(self).list.search_query@ == old(self).list.search_query@,
            final(self).list.search_active == old(self).list.search_active,
            final(self).list.status_message == old(self).list.status_message,
            final(self).list.selected_index == old(self).list.selected_index,
            final(self).list.scroll_offset == old(self).list.scroll_offset,
            final(self).state == old(self).state,
            final(self).same_data(*old(self)),
            final(self).same_navs(*old(self)),
    {
        self.list.update_visible_height(height);
    }

    /// The clock tick of the screen: nothing on screen depends on time, so
    /// the state stays as it is.
    pub fn tick(&mut self)
        ensures
            *final(self) == *old(self),
    {
    }
}


impl App {
    /// The list position of the current screen.
    pub(crate) fn current_nav(&self) -> (r: NavigationState)
        ensures
            r.selected_index == self.list.selected_index,
            r.scroll_offset == self.list.scroll_offset,
            r.search_query@ == self.list.search_query@,
            r.filtered_indices@ == self.list.filtered_indices@,
    {
        NavigationState {
            selected_index: self.list.selected_index,
            scroll_offset: self.list.scroll_offset,
            search_query: self.list.search_query.clone(),
            filtered_indices: copy_indices(&self.list.filtered_indices),
        }
    }

    /// Remembers the list position of the current screen.
    pub fn save_current_navigation_state(&mut self)
        requires
            old(self).wf(),
        ensures
            final(self).wf(),
            App::nav_saved(*old(self), *final(self)),
    {
        let nav = self.current_nav();
        match &self.state {
            AppState::ProviderSelection => {
                self.provider_selection_state = nav;
            },
            AppState::MainMenu => {
                self.main_menu_state = nav;
            },
            AppState::CategorySelection(ct) => {
                let ct = *ct;
                set_category_nav(&mut self.category_selection_states, ct, nav);
            },
            AppState::StreamSelection(ct, cat) => {
                let ct = *ct;
                let id = cat.category_id.clone();
                set_stream_nav(&mut self.stream_selection_states, ct, id, nav);
            },
            AppState::SeasonSelection(_) => {
                self.season_selection_state = nav;
            },
            AppState::CrossProviderFavourites => {
                self.cross_provider_favourites_state = nav;
            },
            AppState::Configuration => {
                self.config_state = nav;
            },
            _ => {},
        }
    }

    /// The remembered list position of a screen (a fresh one when none is).
    fn saved_nav_for(&self, for_state: &AppState) -> (r: NavigationState)
        ensures
            nav_view(r) == self.saved_nav_view(*for_state),
    {
        match for_state {
            AppState::ProviderSelection => self.provider_selection_state.copy(),
            AppState::MainMenu => self.main_menu_state.copy(),
            AppState::CategorySelection(ct) => match find_category_nav(&self.category_selection_states, *ct) {
                Some(i) => self.category_selection_states[i].1.copy(),
                None => NavigationState::new(),
            },
            AppState::StreamSelection(ct, cat) => match find_stream_nav(&self.stream_selection_states, *ct, cat.category_id.as_str()) {
                Some(i) => self.stream_selection_states[i].2.copy(),
                None => NavigationState::new(),
            },
            AppState::SeasonSelection(_) => self.season_selection_state.copy(),
            AppState::CrossProviderFavourites => self.cross_provider_favourites_state.copy(),
            AppState::Configuration => self.config_state.copy(),
            _ => NavigationState::new(),
        }
    }

    /// Puts back the remembered list position of a screen, kept within the
    /// current items: the selection is clamped, filter entries past the end
    /// are dropped (an emptied unfiltered list shows everything), and a
    /// selection outside the filter moves to its first entry.
    pub fn restore_navigation_state(&mut self, for_state: &AppState)
        requires
            old(self).wf(),
        ensures
            final(self).wf(),
            App::nav_restored(*old(self), *for_state, *final(self)),
    {
        let nav = self.saved_nav_for(for_state);
        self.apply_nav(nav);
    }

    fn apply_nav(&mut self, nav: NavigationState)
        requires
            old(self).wf(),
        ensures
            final(self).wf(),
            final(self).list.items@ == old(self).list.items@,
            final(self).list.search_active == old(self).list.search_active,
            final(self).list.status_message == old(self).list.status_message,
            final(self).list.visible_height == old(self).list.visible_height,
            final(self).list.selected_index == restored_selection(nav_view(nav), old(self).list.items@.len()),
            final(self).list.scroll_offset == nav.scroll_offset,
            final(self).list.search_query@ == nav.search_query@,
            final(self).list.filtered_indices@ == restored_filter(nav_view(nav), old(self).list.items@.len()),
            final(self).state == old(self).state,
            final(self).same_data(*old(self)),
            final(self).same_navs(*old(self)),
    {
        let n = self.list.items.len();
        let max_sel = if n == 0 { 0 } else { n - 1 };
        self.list.selected_index = if nav.selected_index < max_sel { nav.selected_index } else { max_sel };
        self.list.scroll_offset = nav.scroll_offset;
        let empty_filter = nav.filtered_indices.len() == 0;
        let empty_query = nav.search_query.unicode_len() == 0;
        if empty_filter && empty_query {
            self.list.filtered_indices = crate::tui::app::all_indices_vec(n);
            self.list.search_query = nav.search_query;
        } else {
            self.list.filtered_indices = keep_below(&nav.filtered_indices, n);
            self.list.search_query = nav.search_query;
            if self.list.filtered_indices.len() == 0 && empty_query {
                self.list.filtered_indices = crate::tui::app::all_indices_vec(n);
            }
        }
        if self.list.filtered_indices.len() > 0 && !contains_index(&self.list.filtered_indices, self.list.selected_index) {
            self.list.selected_index = self.list.filtered_indices[0];
        }
    }
}

/// `0, 1, ..., n-1` as a vector.
pub fn all_indices_vec(n: usize) -> (r: Vec<usize>)
    ensures
        r@ == all_indices(n as nat),
        indices_in_range(r@, n as nat),
{
    let mut v: Vec<usize> = Vec::new();
    let mut i: usize = 0;
    while i < n
        invariant
            i <= n,
            v@ == all_indices(i as nat),
        decreases n - i,
    {
        v.push(i);
        i = i + 1;
        assert(v@ =~= all_indices(i as nat));
    }
    v
}

/// The first element of `v` that `p` holds of.
pub open spec fn first_match<A>(v: Seq<A>, p: spec_fn(A) -> bool) -> Option<A>
    decreases v.len(),
{
    if v.len() == 0 {
        None
    } else if p(v[0]) {
        Some(v[0])
    } else {
        first_match(v.drop_first(), p)
    }
}

/// The remembered position is for the categories of this content type.
pub open spec fn is_category_entry(ct: ContentType) -> spec_fn((ContentType, NavigationState)) -> bool {
    |e: (ContentType, NavigationState)| e.0 == ct
}

/// The remembered position is for the channels of this category.
pub open spec fn is_stream_entry(ct: ContentType, id: Seq<char>) -> spec_fn((ContentType, String, NavigationState)) -> bool {
    |e: (ContentType, String, NavigationState)| e.0 == ct && e.1@ == id
}

proof fn lemma_first_match_none<A>(v: Seq<A>, p: spec_fn(A) -> bool)
    ensures
        first_match(v, p) is None <==> forall|j: int| 0 <= j < v.len() ==> !p(#[trigger] v[j]),
    decreases v.len(),
{
    if v.len() > 0 {
        lemma_first_match_none(v.drop_first(), p);
        if !p(v[0]) && first_match(v.drop_first(), p) is None {
            assert forall|j: int| 0 <= j < v.len() implies !p(#[trigger] v[j]) by {
                if j > 0 {
                    assert(v[j] == v.drop_first()[j - 1]);
                }
            }
        }
        if first_match(v.drop_first(), p) is Some {
            let j = choose|j: int| 0 <= j < v.drop_first().len() && p(#[trigger] v.drop_first()[j]);
            assert(v.drop_first()[j] == v[j + 1]);
        }
    }
}

proof fn lemma_first_match_at<A>(v: Seq<A>, p: spec_fn(A) -> bool, i: int)
    requires
        0 <= i < v.len(),
        p(v[i]),
        forall|j: int| 0 <= j < i ==> !p(#[trigger] v[j]),
    ensures
        first_match(v, p) == Some(v[i]),
    decreases i,
{
    if i > 0 {
        assert forall|j: int| 0 <= j < i - 1 implies !p(#[trigger] v.drop_first()[j]) by {
            assert(v.drop_first()[j] == v[j + 1]);
        }
        lemma_first_match_at(v.drop_first(), p, i - 1);
    }
}

proof fn lemma_first_match_update<A>(v: Seq<A>, p: spec_fn(A) -> bool, i: int, x: A)
    requires
        0 <= i < v.len(),
        !p(v[i]),
        !p(x),
    ensures
        first_match(v.update(i, x), p) == first_match(v, p),
    decreases i,
{
    let w = v.update(i, x);
    if i == 0 {
        assert(w.drop_first() =~= v.drop_first());
    } else {
        assert(w.drop_first() =~= v.drop_first().update(i - 1, x));
        lemma_first_match_update(v.drop_first(), p, i - 1, x);
    }
}

proof fn lemma_first_match_push<A>(v: Seq<A>, p: spec_fn(A) -> bool, x: A)
    ensures
        first_match(v.push(x), p) == (match first_match(v, p) {
            Some(a) => Some(a),
            None => if p(x) { Some(x) } else { None },
        }),
    decreases v.len(),
{
    if v.len() == 0 {
        assert(v.push(x)[0] == x);
        assert(v.push(x).drop_first() =~= Seq::<A>::empty());
        assert(first_match(Seq::<A>::empty(), p) is None);
    } else {
        assert(v.push(x)[0] == v[0]);
        assert(v.push(x).drop_first() =~= v.drop_first().push(x));
        lemma_first_match_push(v.drop_first(), p, x);
    }
}

fn find_category_nav(v: &Vec<(ContentType, NavigationState)>, ct: ContentType) -> (r: Option<usize>)
    ensures
        r matches Some(i) ==> i < v@.len() && v@[i as int].0 == ct
            && (forall|j: int| 0 <= j < i ==> (#[trigger] v@[j]).0 != ct)
            && first_match(v@, is_category_entry(ct)) == Some(v@[i as int]),
        r is None ==> first_match(v@, is_category_entry(ct)) is None,
{
    let mut i: usize = 0;
    while i < v.len()
        invariant
            i <= v@.len(),
            forall|j: int| 0 <= j < i ==> (#[trigger] v@[j]).0 != ct,
        decreases v@.len() - i,
    {
        if v[i].0 == ct {
            proof { lemma_first_match_at(v@, is_category_entry(ct), i as int); }
            return Some(i);
        }
        i = i + 1;
    }
    proof { lemma_first_match_none(v@, is_category_entry(ct)); }
    None
}

fn set_category_nav(v: &mut Vec<(ContentType, NavigationState)>, ct: ContentType, nav: NavigationState)
    ensures
        first_match(final(v)@, is_category_entry(ct)) == Some((ct, nav)),
        forall|c: ContentType| c != ct ==> #[trigger] first_match(final(v)@, is_category_entry(c))
            == first_match(old(v)@, is_category_entry(c)),
{
    let ghost before = v@;
    match find_category_nav(v, ct) {
        Some(i) => {
            v.set(i, (ct, nav));
            proof {
                assert(v@ == before.update(i as int, (ct, nav)));
                assert forall|j: int| 0 <= j < i implies !is_category_entry(ct)(#[trigger] v@[j]) by {
                    assert(v@[j] == before[j]);
                }
                lemma_first_match_at(v@, is_category_entry(ct), i as int);
                assert forall|c: ContentType| c != ct implies #[trigger] first_match(v@, is_category_entry(c))
                    == first_match(before, is_category_entry(c)) by {
                    lemma_first_match_update(before, is_category_entry(c), i as int, (ct, nav));
                }
            }
        },
        None => {
            v.push((ct, nav));
            proof {
                lemma_first_match_push(before, is_category_entry(ct), (ct, nav));
                assert forall|c: ContentType| c != ct implies #[trigger] first_match(v@, is_category_entry(c))
                    == first_match(before, is_category_entry(c)) by {
                    lemma_first_match_push(before, is_category_entry(c), (ct, nav));
                }
            }
        },
    }
}

fn find_stream_nav(v: &Vec<(ContentType, String, NavigationState)>, ct: ContentType, id: &str) -> (r: Option<usize>)
    ensures
        r matches Some(i) ==> i < v@.len() && v@[i as int].0 == ct && v@[i as int].1@ == id@
            && (forall|j: int| 0 <= j < i ==> !is_stream_entry(ct, id@)(#[trigger] v@[j]))
            && first_match(v@, is_stream_entry(ct, id@)) == Some(v@[i as int]),
        r is None ==> first_match(v@, is_stream_entry(ct, id@)) is None,
{
    let mut i: usize = 0;
    while i < v.len()
        invariant
            i <= v@.len(),
            forall|j: int| 0 <= j < i ==> !is_stream_entry(ct, id@)(#[trigger] v@[j]),
        decreases v@.len() - i,
    {
        if v[i].0 == ct && str_eq(v[i].1.as_str(), id) {
            proof { lemma_first_match_at(v@, is_stream_entry(ct, id@), i as int); }
            return Some(i);
        }
        i = i + 1;
    }
    proof { lemma_first_match_none(v@, is_stream_entry(ct, id@)); }
    None
}

fn set_stream_nav(v: &mut Vec<(ContentType, String, NavigationState)>, ct: ContentType, id: String, nav: NavigationState)
    ensures
        first_match(final(v)@, is_stream_entry(ct, id@)) == Some((ct, id, nav)),
        forall|c: ContentType, k: Seq<char>| !(c == ct && k == id@) ==> #[trigger] first_match(final(v)@, is_stream_entry(c, k))
            == first_match(old(v)@, is_stream_entry(c, k)),
{
    let ghost before = v@;
    let ghost e = (ct, id, nav);
    match find_stream_nav(v, ct, id.as_str()) {
        Some(i) => {
            v.set(i, (ct, id, nav));
            proof {
                assert(v@ == before.update(i as int, e));
                assert forall|j: int| 0 <= j < i implies !is_stream_entry(ct, e.1@)(#[trigger] v@[j]) by {
                    assert(v@[j] == before[j]);
                }
                lemma_first_match_at(v@, is_stream_entry(ct, e.1@), i as int);
                assert forall|c: ContentType, k: Seq<char>| !(c == ct && k == e.1@) implies #[trigger] first_match(v@, is_stream_entry(c, k))
                    == first_match(before, is_stream_entry(c, k)) by {
                    lemma_first_match_update(before, is_stream_entry(c, k), i as int, e);
                }
            }
        },
        None => {
            v.push((ct, id, nav));
            proof {
                lemma_first_match_push(before, is_stream_entry(ct, e.1@), e);
                assert forall|c: ContentType, k: Seq<char>| !(c == ct && k == e.1@) implies #[trigger] first_match(v@, is_stream_entry(c, k))
                    == first_match(before, is_stream_entry(c, k)) by {
                    lemma_first_match_push(before, is_stream_entry(c, k), e);
                }
            }
        },
    }
}

/// The categories that are not hidden, in order.
pub open spec fn visible_categories(cats: Seq<Category>, ignore: IgnoreConfig) -> Seq<Category>
    decreases cats.len(),
{
    if cats.len() == 0 {
        seq![]
    } else {
        let rest = visible_categories(cats.drop_last(), ignore);
        if ignore.category_set().contains(cats.last().category_name@) { rest } else { rest.push(cats.last()) }
    }
}

/// The channels that are not hidden, in order.
pub open spec fn visible_streams(streams: Seq<Stream>, ignore: IgnoreConfig) -> Seq<Stream>
    decreases streams.len(),
{
    if streams.len() == 0 {
        seq![]
    } else {
        let rest = visible_streams(streams.drop_last(), ignore);
        if ignore.channel_set().contains(streams.last().name@) { rest } else { rest.push(streams.last()) }
    }
}











/// `r` is series `info` listed as a stream of the TUI under the name `name`.
pub open spec fn is_series_stream(r: Stream, info: SeriesInfo, name: Seq<char>) -> bool {
    &&& r.name@ == name
    &&& r.stream_id == info.series_id
    &&& r.num == info.num
    &&& r.stream_type@ == "series"@
    &&& r.category_id == info.category_id
    &&& r.stream_icon == info.cover
    &&& r.epg_channel_id is None
    &&& r.added is None
    &&& r.category_ids is None
    &&& r.custom_sid is None
    &&& r.tv_archive is None
    &&& r.direct_source is None
    &&& r.tv_archive_duration is None
    &&& r.is_adult is None
    &&& r.container_extension is None
    &&& r.rating is None
    &&& r.rating_5based is None
}

/// A series listed as a stream of the TUI.
pub fn series_as_stream(info: &SeriesInfo, name: String) -> (r: Stream)
    ensures
        is_series_stream(r, *info, name@),
{
    Stream {
        num: info.num,
        name,
        stream_type: String::from_str("series"),
        stream_id: info.series_id,
        stream_icon: info.cover.clone(),
        epg_channel_id: None,
        added: None,
        category_id: info.category_id.clone(),
        category_ids: None,
        custom_sid: None,
        tv_archive: None,
        direct_source: None,
        tv_archive_duration: None,
        is_adult: None,
        container_extension: None,
        rating: None,
        rating_5based: None,
    }
}

/// The category name of a series listing (`Unknown` for no id or an id not listed).
pub open spec fn series_category_of(info: SeriesInfo, table: Seq<Category>) -> Seq<char> {
    match info.category_id {
        Some(id) => match crate::xtream_api::category_name_in(table, id@) {
            Some(n) => n,
            None => "Unknown"@,
        },
        None => "Unknown"@,
    }
}

/// The category names of the listings of series `id` among the first `upto`
/// listings, each once, in order of first appearance.
pub open spec fn series_categories(series: Seq<SeriesInfo>, id: u32, table: Seq<Category>, upto: nat) -> Seq<Seq<char>>
    decreases upto,
{
    if upto == 0 {
        seq![]
    } else {
        let rest = series_categories(series, id, table, (upto - 1) as nat);
        let name = series_category_of(series[upto - 1], table);
        if series[upto - 1].series_id == id && !rest.contains(name) {
            rest.push(name)
        } else {
            rest
        }
    }
}

/// The name under which the series listed first at `target` appears in the
/// "All" list: its name, then the categories of all its listings in brackets.
pub open spec fn series_label_of(series: Seq<SeriesInfo>, table: Seq<Category>, target: int) -> Seq<char> {
    series[target].name@ + " ["@
        + crate::menu::joined_with_commas(series_categories(series, series[target].series_id, table, series.len())) + "]"@
}

/// No listing before `t` has the id of the listing at `t`.
pub open spec fn first_listing(series: Seq<SeriesInfo>, t: int) -> bool {
    &&& 0 <= t < series.len()
    &&& forall|k: int| 0 <= k < t ==> (#[trigger] series[k]).series_id != series[t].series_id
}

/// `s` is a series of the list, from its first listing, under its "All" name.
pub open spec fn listed_from_first(series: Seq<SeriesInfo>, table: Seq<Category>, s: Stream) -> bool {
    exists|t: int| #[trigger] first_listing(series, t) && is_series_stream(s, series[t], series_label_of(series, table, t))
}

/// The name of a category id (`Unknown` for no id or an id not listed).
fn category_name_of(table: &Vec<Category>, info: &SeriesInfo) -> (r: String)
    ensures
        r@ == series_category_of(*info, table@),
{
    proof { reveal_strlit("Unknown"); }
    match &info.category_id {
        Some(i) => match crate::xtream_api::lookup_category_name(table, i.as_str()) {
            Some(n) => n,
            None => String::from_str("Unknown"),
        },
        None => String::from_str("Unknown"),
    }
}

fn vec_has_str(v: &Vec<String>, s: &str) -> (r: bool)
    ensures
        r == views(v@).contains(s@),
{
    let mut i: usize = 0;
    while i < v.len()
        invariant
            i <= v@.len(),
            forall|j: int| 0 <= j < i ==> v@[j]@ != s@,
        decreases v@.len() - i,
    {
        if str_eq(v[i].as_str(), s) {
            assert(views(v@)[i as int] == s@);
            return true;
        }
        i = i + 1;
    }
    proof {
        if views(v@).contains(s@) {
            let j = choose|j: int| 0 <= j < views(v@).len() && views(v@)[j] == s@;
            assert(v@[j]@ == s@);
        }
    }
    false
}

/// Whether a series of the list has the id `id`, among the positions `firsts`.
pub open spec fn id_listed(series: Seq<SeriesInfo>, firsts: Seq<usize>, id: u32) -> bool {
    exists|j: int| 0 <= j < firsts.len() && (#[trigger] series[firsts[j] as int]).series_id == id
}

/// The positions `firsts` point into the list, at first listings of distinct ids.
pub open spec fn distinct_firsts(series: Seq<SeriesInfo>, firsts: Seq<usize>) -> bool {
    &&& forall|k: int| 0 <= k < firsts.len() ==> first_listing(series, #[trigger] firsts[k] as int)
    &&& forall|a: int, b: int| 0 <= a < b < firsts.len()
        ==> series[firsts[a] as int].series_id != series[firsts[b] as int].series_id
}

fn position_with_id(firsts: &Vec<usize>, series: &Vec<SeriesInfo>, id: u32) -> (r: Option<usize>)
    requires
        forall|k: int| 0 <= k < firsts@.len() ==> #[trigger] firsts@[k] < series@.len(),
    ensures
        r matches Some(f) ==> f < firsts@.len() && series@[firsts@[f as int] as int].series_id == id,
        r is None ==> !id_listed(series@, firsts@, id),
{
    let mut k: usize = 0;
    while k < firsts.len()
        invariant
            k <= firsts@.len(),
            forall|q: int| 0 <= q < firsts@.len() ==> #[trigger] firsts@[q] < series@.len(),
            forall|q: int| 0 <= q < k ==> (#[trigger] series@[firsts@[q] as int]).series_id != id,
        decreases firsts@.len() - k,
    {
        if series[firsts[k]].series_id == id {
            return Some(k);
        }
        k = k + 1;
    }
    None
}

/// The position of the first series of each id, in order of first appearance.
fn first_positions(series: &Vec<SeriesInfo>) -> (firsts: Vec<usize>)
    ensures
        distinct_firsts(series@, firsts@),
        firsts@.len() <= series@.len(),
        forall|k: int| 0 <= k < series@.len() ==> id_listed(series@, firsts@, (#[trigger] series@[k]).series_id),
{
    let mut firsts: Vec<usize> = Vec::new();
    let mut i: usize = 0;
    while i < series.len()
        invariant
            i <= series@.len(),
            distinct_firsts(series@, firsts@),
            firsts@.len() <= i,
            forall|k: int| 0 <= k < firsts@.len() ==> #[trigger] firsts@[k] < i,
            forall|k: int| 0 <= k < i ==> id_listed(series@, firsts@, (#[trigger] series@[k]).series_id),
        decreases series@.len() - i,
    {
        let id = series[i].series_id;
        match position_with_id(&firsts, series, id) {
            Some(_) => {},
            None => {
                let ghost old_firsts = firsts@;
                proof {
                    assert forall|k: int| 0 <= k < i implies (#[trigger] series@[k]).series_id != id by {
                        if series@[k].series_id == id {
                            assert(id_listed(series@, old_firsts, series@[k].series_id));
                        }
                    }
                }
                firsts.push(i);
                proof {
                    assert forall|k: int| 0 <= k < i + 1 implies id_listed(series@, firsts@, (#[trigger] series@[k]).series_id) by {
                        if k < i {
                            let j = choose|j: int| 0 <= j < old_firsts.len() && (#[trigger] series@[old_firsts[j] as int]).series_id == series@[k].series_id;
                            assert(firsts@[j] == old_firsts[j]);
                        } else {
                            assert(firsts@[old_firsts.len() as int] == i);
                        }
                    }
                    assert forall|k: int| 0 <= k < firsts@.len() implies first_listing(series@, #[trigger] firsts@[k] as int) by {
                        if k < old_firsts.len() {
                            assert(firsts@[k] == old_firsts[k]);
                        }
                    }
                    assert forall|a: int, b: int| 0 <= a < b < firsts@.len()
                        implies series@[firsts@[a] as int].series_id != series@[firsts@[b] as int].series_id by {
                        if b == old_firsts.len() {
                            assert(firsts@[a] == old_firsts[a]);
                            assert(series@[old_firsts[a] as int].series_id == series@[firsts@[a] as int].series_id);
                        } else {
                            assert(firsts@[a] == old_firsts[a]);
                            assert(firsts@[b] == old_firsts[b]);
                        }
                    }
                }
            },
        }
        i = i + 1;
    }
    firsts
}

/// The names of the categories (each once, in order of appearance) under
/// which series of id `id` are listed; `Unknown` for an unlisted id.
fn category_names_of_id(series: &Vec<SeriesInfo>, categories: &Vec<Category>, id: u32) -> (r: Vec<String>)
    ensures
        views(r@) == series_categories(series@, id, categories@, series@.len()),
{
    let mut names: Vec<String> = Vec::new();
    let mut k: usize = 0;
    while k < series.len()
        invariant
            k <= series@.len(),
            views(names@) == series_categories(series@, id, categories@, k as nat),
        decreases series@.len() - k,
    {
        if series[k].series_id == id {
            let name = category_name_of(categories, &series[k]);
            if !vec_has_str(&names, name.as_str()) {
                let ghost before = views(names@);
                names.push(name);
                assert(views(names@) =~= before.push(series_category_of(series@[k as int], categories@)));
            }
        }
        k = k + 1;
    }
    names
}

/// Series as TUI streams. For the "All" category each series appears once,
/// from its first listing, named `name [categories]` with the names of every
/// category it was listed under (each once, `Unknown` for an unlisted id);
/// for a single category each series keeps its name.
pub fn series_to_streams(series: &Vec<SeriesInfo>, categories: &Vec<Category>, all: bool) -> (r: Vec<Stream>)
    ensures
        !all ==> r@.len() == series@.len(),
        !all ==> forall|i: int| 0 <= i < series@.len() ==> is_series_stream(#[trigger] r@[i], series@[i], series@[i].name@),
        all ==> forall|j: int| 0 <= j < r@.len() ==> #[trigger] listed_from_first(series@, categories@, r@[j]),
        all ==> forall|i: int, j: int| 0 <= i < j < r@.len() ==> r@[i].stream_id != r@[j].stream_id,
        all ==> forall|i: int| 0 <= i < series@.len() ==> exists|j: int| 0 <= j < r@.len() && r@[j].stream_id == (#[trigger] series@[i]).series_id,
{
    if !all {
        let mut out: Vec<Stream> = Vec::new();
        let mut i: usize = 0;
        while i < series.len()
            invariant
                i <= series@.len(),
                out@.len() == i,
                forall|k: int| 0 <= k < i ==> is_series_stream(#[trigger] out@[k], series@[k], series@[k].name@),
            decreases series@.len() - i,
        {
            out.push(series_as_stream(&series[i], series[i].name.clone()));
            i = i + 1;
        }
        return out;
    }
    let firsts = first_positions(series);
    let mut out: Vec<Stream> = Vec::new();
    let mut j: usize = 0;
    proof { reveal_strlit(" ["); reveal_strlit("]"); }
    while j < firsts.len()
        invariant
            j <= firsts@.len(),
            distinct_firsts(series@, firsts@),
            firsts@.len() <= series@.len(),
            out@.len() == j,
            forall|k: int| 0 <= k < j ==> is_series_stream(#[trigger] out@[k], series@[firsts@[k] as int],
                series_label_of(series@, categories@, firsts@[k] as int)),
        decreases firsts@.len() - j,
    {
        let ghost t = firsts@[j as int] as int;
        assert(first_listing(series@, firsts@[j as int] as int));
        let info = &series[firsts[j]];
        let names = category_names_of_id(series, categories, info.series_id);
        let joined = crate::menu::join_comma(&names);
        let a = concat3(info.name.as_str(), " [", joined.as_str());
        let name = concat2(a.as_str(), "]");
        assert(name@ =~= series_label_of(series@, categories@, t));
        out.push(series_as_stream(info, name));
        j = j + 1;
    }
    proof {
        assert forall|q: int| 0 <= q < series@.len() implies exists|k: int| 0 <= k < out@.len() && out@[k].stream_id == (#[trigger] series@[q]).series_id by {
            assert(id_listed(series@, firsts@, series@[q].series_id));
            let k = choose|k: int| 0 <= k < firsts@.len() && (#[trigger] series@[firsts@[k] as int]).series_id == series@[q].series_id;
            assert(is_series_stream(out@[k], series@[firsts@[k] as int], series_label_of(series@, categories@, firsts@[k] as int)));
        }
        assert forall|a: int, b: int| 0 <= a < b < out@.len() implies out@[a].stream_id != out@[b].stream_id by {
            assert(is_series_stream(out@[a], series@[firsts@[a] as int], series_label_of(series@, categories@, firsts@[a] as int)));
            assert(is_series_stream(out@[b], series@[firsts@[b] as int], series_label_of(series@, categories@, firsts@[b] as int)));
        }
        assert forall|q: int| 0 <= q < out@.len() implies #[trigger] listed_from_first(series@, categories@, out@[q]) by {
            let t = firsts@[q] as int;
            assert(first_listing(series@, t));
            assert(is_series_stream(out@[q], series@[t], series_label_of(series@, categories@, t)));
        }
    }
    out
}

} // verus!
