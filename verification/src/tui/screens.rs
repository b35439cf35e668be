//! The screens of the TUI: what each one lists, and what the results of
//! outside work (a connection, a download) do to the state.
use vstd::prelude::*;
use crate::config::{PlayMode, ProviderConfig, Settings};
use crate::ignore::IgnoreConfig;
use crate::text::{concat2, concat3, u64_to_string};
use crate::tui::app::{
    all_indices_vec, main_menu_of, provider_items, provider_labels, visible_categories, App, AppState, Command,
    ContentType, NavigationState, PendingIgnoreAdjust,
};
use crate::tui::adjust::ignore_adjusted;
use crate::tui::list::{all_indices, indices_in_range};
use crate::xtream_api::{views, Category, XTreamAPI};

verus! {

/// The name of a play mode.
pub open spec fn play_mode_name(m: PlayMode) -> Seq<char> {
    match m {
        PlayMode::Mpv => "MPV"@,
        PlayMode::MpvInTerminal => "MPV in Terminal"@,
    }
}

/// The configuration screen: the play mode, the `.ts` preference and `Back`.
pub open spec fn config_items_of(s: Settings) -> Seq<Seq<char>> {
    seq![
        "Play Mode: "@ + play_mode_name(s.play_mode),
        "Use .ts URL for live streams: "@ + (if s.use_ts_for_live { "Enabled"@ } else { "Disabled"@ }),
        "Back"@,
    ]
}

/// The category names, in order.
pub open spec fn category_names_of(cats: Seq<Category>) -> Seq<Seq<char>> {
    cats.map_values(|c: Category| c.category_name@)
}

fn main_menu_items(single_provider: bool) -> (r: Vec<String>)
    ensures
        views(r@) == main_menu_of(single_provider),
{
    let mut items: Vec<String> = Vec::new();
    if single_provider {
        items.push(String::from_str("Favourites"));
    }
    items.push(String::from_str("Live TV"));
    items.push(String::from_str("Movies (VOD)"));
    items.push(String::from_str("TV Series"));
    items.push(String::from_str("Configuration"));
    items.push(String::from_str("Refresh Cache"));
    assert(views(items@) =~= main_menu_of(single_provider));
    items
}

fn config_items(settings: &Settings) -> (r: Vec<String>)
    ensures
        views(r@) == config_items_of(*settings),
{
    let mut items: Vec<String> = Vec::new();
    items.push(concat2("Play Mode: ", settings.play_mode.label()));
    let ts = if settings.use_ts_for_live { "Enabled" } else { "Disabled" };
    items.push(concat2("Use .ts URL for live streams: ", ts));
    items.push(String::from_str("Back"));
    assert(views(items@) =~= config_items_of(*settings));
    items
}

/// The names of the categories, in order.
pub fn category_names(cats: &Vec<Category>) -> (r: Vec<String>)
    ensures
        views(r@) == category_names_of(cats@),
{
    let mut out: Vec<String> = Vec::new();
    let mut i: usize = 0;
    while i < cats.len()
        invariant
            i <= cats@.len(),
            views(out@) == category_names_of(cats@.subrange(0, i as int)),
        decreases cats@.len() - i,
    {
        let ghost before = out@;
        out.push(cats[i].category_name.clone());
        proof {
            assert(views(out@) =~= views(before).push(cats@[i as int].category_name@));
            assert(category_names_of(cats@.subrange(0, i + 1)) =~= category_names_of(cats@.subrange(0, i as int)).push(cats@[i as int].category_name@));
        }
        i = i + 1;
    }
    assert(cats@.subrange(0, cats@.len() as int) =~= cats@);
    out
}

fn copy_categories(v: &Vec<Category>) -> (r: Vec<Category>)
    ensures
        r@ == v@,
{
    let mut r: Vec<Category> = Vec::new();
    let mut i: usize = 0;
    while i < v.len()
        invariant
            i <= v@.len(),
            r@ == v@.subrange(0, i as int),
        decreases v@.len() - i,
    {
        r.push(v[i].clone());
        i = i + 1;
        assert(r@ =~= v@.subrange(0, i as int));
    }
    assert(r@ =~= v@);
    r
}

/// The categories that are not hidden, in order.
pub fn filter_categories(cats: &Vec<Category>, ignore: &IgnoreConfig) -> (r: Vec<Category>)
    ensures
        r@ == visible_categories(cats@, *ignore),
{
    let mut out: Vec<Category> = Vec::new();
    let mut i: usize = 0;
    while i < cats.len()
        invariant
            i <= cats@.len(),
            out@ == visible_categories(cats@.subrange(0, i as int), *ignore),
        decreases cats@.len() - i,
    {
        if !ignore.is_category_ignored(cats[i].category_name.as_str()) {
            out.push(cats[i].clone());
        }
        assert(cats@.subrange(0, i + 1).drop_last() =~= cats@.subrange(0, i as int));
        i = i + 1;
    }
    assert(cats@.subrange(0, cats@.len() as int) =~= cats@);
    out
}

fn find_cached_categories(v: &Vec<(ContentType, Vec<Category>)>, ct: ContentType) -> (r: Option<usize>)
    ensures
        r matches Some(i) ==> i < v@.len() && v@[i as int].0 == ct,
        r is None ==> forall|i: int| 0 <= i < v@.len() ==> v@[i].0 != ct,
{
    let mut i: usize = 0;
    while i < v.len()
        invariant
            i <= v@.len(),
            forall|j: int| 0 <= j < i ==> v@[j].0 != ct,
        decreases v@.len() - i,
    {
        if v[i].0 == ct {
            return Some(i);
        }
        i = i + 1;
    }
    None
}

/// `Loading <type> categories...` and the like.
fn with_type(prefix: &str, ct: ContentType, suffix: &str) -> (r: String)
    ensures
        r@ == prefix@ + ct.label_of() + suffix@,
{
    concat3(prefix, ct.label(), suffix)
}

/// Leaving out hidden categories never lengthens the list.
pub proof fn lemma_visible_categories_len(cats: Seq<Category>, ignore: IgnoreConfig)
    ensures
        visible_categories(cats, ignore).len() <= cats.len(),
    decreases cats.len(),
{
    if cats.len() > 0 {
        lemma_visible_categories_len(cats.drop_last(), ignore);
    }
}

/// Categories of a content type were opened: the downloaded ones shown
/// when there are some and no refresh is forced, else the loading screen
/// and, when connected, the download asked for; the log tells which.
pub open spec fn categories_opened(before: App, after: App, ct: ContentType, force_refresh: bool, restore_nav: bool,
    r: Option<Command>) -> bool {
    let cached = !force_refresh && exists|i: int| 0 <= i < before.cached_categories@.len() && before.cached_categories@[i].0 == ct;
    &&& cached ==> {
        &&& r is None
        &&& after.state == AppState::CategorySelection(ct)
        &&& views(after.list.items@) == category_names_of(after.categories@)
        &&& crate::tui::app::logged(before.logs@, after.logs@, seq!["Using cached "@ + ct.label_of() + " categories"@])
    }
    &&& !cached ==> {
        &&& after.state matches AppState::Loading(m) && m@ == "Loading "@ + ct.label_of() + " categories..."@
        &&& before.current_api is Some ==> r == Some(Command::FetchCategories { content_type: ct, restore_nav })
        &&& before.current_api is None ==> r is None
        &&& crate::tui::app::logged(before.logs@, after.logs@, seq!["Loading "@ + ct.label_of() + " categories"@])
    }
}

impl App {
    /// Lists the providers.
    pub fn update_provider_items(&mut self)
        requires
            old(self).wf(),
        ensures
            final(self).wf(),
            views(final(self).list.items@) == provider_labels(old(self).config.providers@),
            final(self).list.filtered_indices@ == all_indices(final(self).list.items@.len()),
            final(self).list.search_query@.len() == 0,
            final(self).list.selected_index == old(self).list.selected_index,
            final(self).state == old(self).state,
            final(self).config == old(self).config,
            final(self).current_api == old(self).current_api,
            final(self).same_data(*old(self)),
            final(self).same_navs(*old(self)),
    {
        let items = provider_items(&self.config.providers);
        self.list.set_items(items);
    }

    /// Lists the main menu entries.
    pub fn update_main_menu_items(&mut self)
        requires
            old(self).wf(),
        ensures
            final(self).wf(),
            views(final(self).list.items@) == main_menu_of(old(self).config.providers@.len() == 1),
            final(self).list.filtered_indices@ == all_indices(final(self).list.items@.len()),
            final(self).list.search_query@.len() == 0,
            final(self).list.selected_index == old(self).list.selected_index,
            final(self).state == old(self).state,
            final(self).config == old(self).config,
            final(self).current_api == old(self).current_api,
            final(self).same_data(*old(self)),
            final(self).same_navs(*old(self)),
    {
        let items = main_menu_items(self.config.providers.len() == 1);
        self.list.set_items(items);
    }

    /// Lists the configuration entries.
    pub fn update_configuration_items(&mut self)
        requires
            old(self).wf(),
        ensures
            final(self).wf(),
            views(final(self).list.items@) == config_items_of(old(self).config.settings),
            final(self).list.filtered_indices@ == all_indices(final(self).list.items@.len()),
            final(self).list.selected_index == old(self).list.selected_index,
            final(self).state == old(self).state,
            final(self).config == old(self).config,
            final(self).current_api == old(self).current_api,
            final(self).same_data(*old(self)),
            final(self).same_navs(*old(self)),
    {
        let items = config_items(&self.config.settings);
        self.list.set_items(items);
    }

    /// Goes to the main menu at its remembered position.
    pub fn go_to_main_menu(&mut self)
        requires
            old(self).wf(),
        ensures
            final(self).wf(),
            final(self).state is MainMenu,
            views(final(self).list.items@) == main_menu_of(old(self).config.providers@.len() == 1),
            final(self).config == old(self).config,
            final(self).current_api == old(self).current_api,
            final(self).ignore_config == old(self).ignore_config,
            final(self).same_data(*old(self)),
            final(self).same_navs(*old(self)),
    {
        self.state = AppState::MainMenu;
        self.restore_navigation_state(&AppState::MainMenu);
        self.update_main_menu_items();
    }

    /// Goes to the provider list at its remembered position.
    pub fn go_to_provider_selection(&mut self)
        requires
            old(self).wf(),
        ensures
            final(self).wf(),
            final(self).state is ProviderSelection,
            views(final(self).list.items@) == provider_labels(old(self).config.providers@),
            final(self).config == old(self).config,
            final(self).current_api == old(self).current_api,
            final(self).ignore_config == old(self).ignore_config,
            final(self).same_data(*old(self)),
            final(self).same_navs(*old(self)),
    {
        self.state = AppState::ProviderSelection;
        self.restore_navigation_state(&AppState::ProviderSelection);
        self.update_provider_items();
    }

    /// Opens the configuration screen.
    pub fn show_configuration(&mut self)
        requires
            old(self).wf(),
        ensures
            final(self).wf(),
            final(self).state is Configuration,
            views(final(self).list.items@) == config_items_of(old(self).config.settings),
            final(self).config == old(self).config,
            final(self).logs == old(self).logs,
    {
        self.save_current_navigation_state();
        self.state = AppState::Configuration;
        self.update_configuration_items();
        self.restore_navigation_state(&AppState::Configuration);
    }

    /// Acts on the selected configuration entry: entry 0 switches the play
    /// mode, entry 1 the `.ts` preference (both ask for the configuration
    /// to be saved), entry 2 goes back to the main menu.
    pub fn handle_configuration_selection(&mut self) -> (r: Option<Command>)
        requires
            old(self).wf(),
        ensures
            final(self).wf(),
            final(self).logs == old(self).logs,
            old(self).list.selected_index == 0 ==> final(self).config.settings.play_mode != old(self).config.settings.play_mode
                && final(self).config.settings.use_ts_for_live == old(self).config.settings.use_ts_for_live
                && final(self).config.providers == old(self).config.providers
                && (r matches Some(Command::SaveConfig))
                && views(final(self).list.items@) == config_items_of(final(self).config.settings),
            old(self).list.selected_index == 1 ==> final(self).config.settings.use_ts_for_live == !old(self).config.settings.use_ts_for_live
                && final(self).config.settings.play_mode == old(self).config.settings.play_mode
                && final(self).config.providers == old(self).config.providers
                && (r matches Some(Command::SaveConfig))
                && views(final(self).list.items@) == config_items_of(final(self).config.settings),
            old(self).list.selected_index == 2 ==> final(self).state is MainMenu && r is None
                && final(self).config == old(self).config,
            old(self).list.selected_index > 2 ==> r is None && final(self).state == old(self).state
                && final(self).config == old(self).config,
    {
        let sel = self.list.selected_index;
        if sel == 0 {
            self.config.settings.play_mode = self.config.settings.play_mode.toggled();
            self.update_configuration_items();
            Some(Command::SaveConfig)
        } else if sel == 1 {
            self.config.settings.use_ts_for_live = !self.config.settings.use_ts_for_live;
            self.update_configuration_items();
            Some(Command::SaveConfig)
        } else if sel == 2 {
            self.save_current_navigation_state();
            self.go_to_main_menu();
            None
        } else {
            None
        }
    }

    /// Starts connecting to a provider: shows the loading screen and asks
    /// for the connection.
    pub fn connect_to_provider(&mut self, provider: &ProviderConfig) -> (r: Command)
        requires
            old(self).wf(),
        ensures
            final(self).wf(),
            final(self).state matches AppState::Loading(m) && m@ == "Connecting to "@ + provider.label_of() + "..."@,
            r matches Command::Connect(p) && p == *provider,
            final(self).list == old(self).list,
            final(self).current_api == old(self).current_api,
            crate::tui::app::logged(old(self).logs@, final(self).logs@, seq!["Connecting to provider: "@ + provider.label_of()]),
    {
        let label = provider.label();
        self.state = AppState::Loading(concat3("Connecting to ", label.as_str(), "..."));
        self.add_log(concat2("Connecting to provider: ", label.as_str()));
        Command::Connect(provider.clone())
    }

    /// The connection attempt ended. On success the provider becomes the
    /// current one (progress display off), every cache and remembered list
    /// position of the old provider is dropped, and the main menu shows; on
    /// failure the error screen shows.
    pub fn connected(&mut self, provider: &ProviderConfig, result: Result<XTreamAPI, String>)
        requires
            old(self).wf(),
        ensures
            final(self).wf(),
            result matches Ok(api) ==> {
                &&& final(self).state is MainMenu
                &&& final(self).current_api matches Some(a) && a.base_url == api.base_url
                    && a.username == api.username && a.password == api.password
                    && a.provider_hash == api.provider_hash && !a.show_progress
                &&& final(self).current_provider_name matches Some(n) && n@ == provider.label_of()
                &&& final(self).cached_categories@.len() == 0
                &&& final(self).cached_streams@.len() == 0
                &&& final(self).category_selection_states@.len() == 0
                &&& final(self).stream_selection_states@.len() == 0
                &&& views(final(self).list.items@) == main_menu_of(old(self).config.providers@.len() == 1)
            },
            result matches Err(e) ==> {
                &&& final(self).state matches AppState::Error(m) && m@ == "Failed to connect: "@ + e@
                &&& final(self).current_api == old(self).current_api
                &&& final(self).list == old(self).list
            },
            result is Ok ==> crate::tui::app::logged(old(self).logs@, final(self).logs@, seq!["Successfully connected to provider"@]),
            result matches Err(e) ==> crate::tui::app::logged(old(self).logs@, final(self).logs@, seq!["Connection failed: "@ + e@]),
    {
        match result {
            Ok(api) => {
                let mut api = api;
                api.disable_progress();
                self.current_api = Some(api);
                self.current_provider_name = Some(provider.label());
                self.cached_categories = Vec::new();
                self.cached_streams = Vec::new();
                self.category_selection_states = Vec::new();
                self.stream_selection_states = Vec::new();
                self.season_selection_state = NavigationState::new();
                self.go_to_main_menu();
                self.add_log(String::from_str("Successfully connected to provider"));
            },
            Err(e) => {
                self.state = AppState::Error(concat2("Failed to connect: ", e.as_str()));
                self.add_log(concat2("Connection failed: ", e.as_str()));
            },
        }
    }

    /// What the periodic tick asks for: with a single provider and no
    /// connection yet, while loading, the connection to that provider.
    pub fn tick_command(&mut self) -> (r: Option<Command>)
        requires
            old(self).wf(),
        ensures
            final(self).wf(),
            (old(self).state is Loading && old(self).config.providers@.len() == 1 && old(self).current_api is None)
                ==> crate::tui::app::logged(old(self).logs@, final(self).logs@,
                    seq!["Connecting to provider: "@ + old(self).config.providers@[0].label_of()]),
            !(old(self).state is Loading && old(self).config.providers@.len() == 1 && old(self).current_api is None)
                ==> *final(self) == *old(self),
            (old(self).state is Loading && old(self).config.providers@.len() == 1 && old(self).current_api is None)
                ==> (r matches Some(Command::Connect(p)) && p == old(self).config.providers@[0]),
            !(old(self).state is Loading && old(self).config.providers@.len() == 1 && old(self).current_api is None)
                ==> r is None && final(self).state == old(self).state,
    {
        let loading = match &self.state {
            AppState::Loading(_) => true,
            _ => false,
        };
        if loading && self.config.providers.len() == 1 && self.current_api.is_none() {
            let provider = self.config.providers[0].clone();
            Some(self.connect_to_provider(&provider))
        } else {
            None
        }
    }

    /// The player was checked: when it is no longer running while the
    /// playing screen shows, the main menu returns, with the player's exit
    /// message logged.
    pub fn player_checked(&mut self, is_running: bool, exit_message: Option<String>)
        requires
            old(self).wf(),
        ensures
            final(self).wf(),
            (old(self).state is Playing && !is_running) ==> final(self).state is MainMenu,
            !(old(self).state is Playing && !is_running) ==> final(self).state == old(self).state
                && final(self).list == old(self).list,
            crate::tui::app::logged(old(self).logs@, final(self).logs@, match exit_message {
                Some(m) => if old(self).state is Playing && !is_running { seq!["⚠️ "@ + m@] } else { seq![] },
                None => seq![],
            }),
    {
        proof { crate::tui::app::lemma_logged_nothing(self.logs@); }
        let playing = match &self.state {
            AppState::Playing(_) => true,
            _ => false,
        };
        if playing && !is_running {
            self.go_to_main_menu();
            match exit_message {
                Some(m) => {
                    self.add_log(concat2("⚠️ ", m.as_str()));
                },
                None => {},
            }
        }
    }

    /// Stops playback: the main menu returns and the player is asked to stop.
    pub fn stop_playing(&mut self) -> (r: Command)
        requires
            old(self).wf(),
        ensures
            final(self).wf(),
            final(self).state is MainMenu,
            views(final(self).list.items@) == main_menu_of(old(self).config.providers@.len() == 1),
            final(self).config == old(self).config,
            r matches Command::StopPlayback,
            crate::tui::app::logged(old(self).logs@, final(self).logs@, seq!["Stopped playback"@]),
    {
        self.go_to_main_menu();
        self.add_log(String::from_str("Stopped playback"));
        Command::StopPlayback
    }

    /// The category under the selection, if the selection is a category.
    pub fn get_current_category(&self) -> (r: Option<Category>)
        ensures
            self.list.selected_index < self.categories@.len() ==> r == Some(self.categories@[self.list.selected_index as int]),
            self.list.selected_index >= self.categories@.len() ==> r is None,
    {
        if self.list.selected_index < self.categories.len() {
            Some(self.categories[self.list.selected_index].clone())
        } else {
            None
        }
    }

    /// Forgets the downloaded categories and streams.
    pub fn clear_internal_caches(&mut self)
        requires
            old(self).wf(),
        ensures
            final(self).wf(),
            final(self).logs == old(self).logs,
            final(self).cached_categories@.len() == 0,
            final(self).cached_streams@.len() == 0,
            final(self).state == old(self).state,
            final(self).list == old(self).list,
    {
        self.cached_categories = Vec::new();
        self.cached_streams = Vec::new();
    }

    /// Shows categories: the hidden ones are left out, the filter is reset,
    /// and the remembered position is put back when asked.
    fn show_categories(&mut self, ct: ContentType, all: &Vec<Category>, restore_nav: bool)
        requires
            old(self).wf(),
        ensures
            final(self).wf(),
            final(self).state == AppState::CategorySelection(ct),
            final(self).categories@ == visible_categories(all@, old(self).ignore_config),
            views(final(self).list.items@) == category_names_of(final(self).categories@),
            final(self).ignore_config == old(self).ignore_config,
            final(self).cached_categories == old(self).cached_categories,
            final(self).current_api == old(self).current_api,
            final(self).pending_adjust == old(self).pending_adjust,
            !restore_nav ==> final(self).list.filtered_indices@ == all_indices(final(self).list.items@.len()),
            final(self).logs == old(self).logs,
    {
        self.categories = filter_categories(all, &self.ignore_config);
        let names = category_names(&self.categories);
        self.list.set_items(names);
        self.state = AppState::CategorySelection(ct);
        if restore_nav {
            self.restore_navigation_state(&AppState::CategorySelection(ct));
        }
    }

    /// Opens the categories of a content type: from the downloaded ones when
    /// there are some and no refresh is forced; else the loading screen
    /// shows and the download is asked for (when connected).
    pub fn load_categories_internal(&mut self, ct: ContentType, force_refresh: bool, restore_nav: bool) -> (r: Option<Command>)
        requires
            old(self).wf(),
        ensures
            final(self).wf(),
            final(self).ignore_config == old(self).ignore_config,
            final(self).current_api == old(self).current_api,
            (!force_refresh && exists|i: int| 0 <= i < old(self).cached_categories@.len() && old(self).cached_categories@[i].0 == ct) ==> {
                &&& r is None
                &&& final(self).state == AppState::CategorySelection(ct)
                &&& views(final(self).list.items@) == category_names_of(final(self).categories@)
            },
            (force_refresh || forall|i: int| 0 <= i < old(self).cached_categories@.len() ==> old(self).cached_categories@[i].0 != ct) ==> {
                &&& final(self).state matches AppState::Loading(m) && m@ == "Loading "@ + ct.label_of() + " categories..."@
                &&& old(self).current_api is Some ==> (r matches Some(Command::FetchCategories { content_type, restore_nav: rn })
                    && content_type == ct && rn == restore_nav)
                &&& old(self).current_api is None ==> r is None
                &&& final(self).list == old(self).list
            },
            (!force_refresh && exists|i: int| 0 <= i < old(self).cached_categories@.len() && old(self).cached_categories@[i].0 == ct) ==>
                crate::tui::app::logged(old(self).logs@, final(self).logs@, seq!["Using cached "@ + ct.label_of() + " categories"@]),
            (force_refresh || forall|i: int| 0 <= i < old(self).cached_categories@.len() ==> old(self).cached_categories@[i].0 != ct) ==>
                crate::tui::app::logged(old(self).logs@, final(self).logs@, seq!["Loading "@ + ct.label_of() + " categories"@]),
            categories_opened(*old(self), *final(self), ct, force_refresh, restore_nav, r),
    {
        if !force_refresh {
            match find_cached_categories(&self.cached_categories, ct) {
                Some(i) => {
                    let cached = copy_categories(&self.cached_categories[i].1);
                    self.show_categories(ct, &cached, restore_nav);
                    self.add_log(with_type("Using cached ", ct, " categories"));
                    self.finish_pending_adjust();
                    return None;
                },
                None => {},
            }
        }
        self.state = AppState::Loading(with_type("Loading ", ct, " categories..."));
        self.add_log(with_type("Loading ", ct, " categories"));
        if self.current_api.is_some() {
            Some(Command::FetchCategories { content_type: ct, restore_nav })
        } else {
            None
        }
    }

    /// The categories of a content type arrived (or their download failed).
    /// `All` is put first, the full list is kept for later, and the hidden
    /// categories are left out of the screen.
    pub fn categories_loaded(&mut self, ct: ContentType, restore_nav: bool, result: Result<Vec<Category>, String>)
        requires
            old(self).wf(),
        ensures
            final(self).wf(),
            final(self).ignore_config == old(self).ignore_config,
            final(self).current_api == old(self).current_api,
            result matches Ok(cats) ==> {
                &&& final(self).state == AppState::CategorySelection(ct)
                &&& final(self).categories@.len() <= cats@.len() + 1
                &&& views(final(self).list.items@) == category_names_of(final(self).categories@)
                &&& exists|i: int| 0 <= i < final(self).cached_categories@.len() && final(self).cached_categories@[i].0 == ct
                    && final(self).cached_categories@[i].1@.len() == cats@.len() + 1
                    && final(self).cached_categories@[i].1@[0].category_id@ == "all"@
                    && final(self).cached_categories@[i].1@[0].category_name@ == "All"@
                    && final(self).cached_categories@[i].1@.subrange(1, cats@.len() as int + 1) == cats@
                    && final(self).categories@ == visible_categories(final(self).cached_categories@[i].1@, old(self).ignore_config)
            },
            result matches Err(e) ==> final(self).state matches AppState::Error(m) && m@ == "Failed to load categories: "@ + e@,
            result is Ok ==> crate::tui::app::logged(old(self).logs@, final(self).logs@,
                seq!["Loaded "@ + crate::text::decimal(final(self).categories@.len()) + " categories"@]),
            result matches Err(e) ==> crate::tui::app::logged(old(self).logs@, final(self).logs@, seq!["Failed to load categories: "@ + e@]),
    {
        match result {
            Ok(cats) => {
                let ghost cats_v = cats@;
                let mut all: Vec<Category> = Vec::new();
                all.push(Category::all());
                let mut rest = cats;
                all.append(&mut rest);
                let ghost all_v = all@;
                assert(all_v.subrange(1, cats_v.len() as int + 1) =~= cats_v);
                let shown = copy_categories(&all);
                let idx: usize = match find_cached_categories(&self.cached_categories, ct) {
                    Some(i) => {
                        self.cached_categories.set(i, (ct, all));
                        i
                    },
                    None => {
                        self.cached_categories.push((ct, all));
                        self.cached_categories.len() - 1
                    },
                };
                assert(self.cached_categories@[idx as int].1@ == all_v);
                self.show_categories(ct, &shown, restore_nav);
                let n = u64_to_string(self.categories.len() as u64);
                self.add_log(concat3("Loaded ", n.as_str(), " categories"));
                self.finish_pending_adjust();
                assert(self.cached_categories@[idx as int].0 == ct);
                assert(self.categories@ == visible_categories(self.cached_categories@[idx as int].1@, old(self).ignore_config));
                proof { lemma_visible_categories_len(all_v, old(self).ignore_config); }
            },
            Err(e) => {
                self.state = AppState::Error(concat2("Failed to load categories: ", e.as_str()));
                self.add_log(concat2("Failed to load categories: ", e.as_str()));
                self.finish_pending_adjust();
            },
        }
    }

    /// After a reload that followed hiding or showing an item: puts the
    /// filter back and moves the selection and scroll position as
    /// `ignore_adjusted` says (when the list's names cover the filter).
    pub fn finish_pending_adjust(&mut self)
        requires
            old(self).wf(),
        ensures
            final(self).wf(),
            final(self).pending_adjust is None,
            final(self).state == old(self).state,
            final(self).list.items@ == old(self).list.items@,
            final(self).categories == old(self).categories,
            final(self).streams == old(self).streams,
            final(self).cached_categories == old(self).cached_categories,
            final(self).cached_streams == old(self).cached_streams,
            final(self).ignore_config == old(self).ignore_config,
            final(self).current_api == old(self).current_api,
            old(self).pending_adjust is None ==> final(self).list == old(self).list,
            final(self).logs == old(self).logs,
    {
        let pending = self.pending_adjust.take();
        match pending {
            None => {},
            Some(adj) => {
                self.list.search_query = adj.saved_query;
                self.list.search_active = adj.saved_search_active;
                self.list.apply_filter();
                if self.list.filtered_indices.len() > 0 {
                    let names = if adj.for_categories {
                        category_names(&self.categories)
                    } else {
                        crate::tui::loading::stream_names(&self.streams)
                    };
                    if crate::tui::loading::all_below(&self.list.filtered_indices, names.len()) {
                        let (sel, scroll) = ignore_adjusted(&self.list.filtered_indices, &names, &adj.anchor, &adj.next_name,
                            adj.filter_pos, adj.scroll, self.list.visible_height);
                        self.list.selected_index = sel;
                        self.list.scroll_offset = scroll;
                    }
                }
            },
        }
    }
}

} // verus!
