//! The interactive prompt menu: the options it offers, what a choice
//! selects, and the text it prints about movies, series and episodes.
use vstd::prelude::*;
use crate::config::ProviderConfig;
use crate::text::{
    byte_len, concat2, concat3, decimal, is_ws, left_pad, pad_left, parse_u32, parse_u32_spec, str_eq, split_words, utf8_len,
    u64_to_string, words,
};
use crate::xtream_api::{
    category_name_in, lookup_category_name, opt_str_view, parse_url, url_parts, views, ApiEpisode, ApiSeason, Category,
    Episode, EpisodeInfo, FavouriteStream, RawField, Season, SeriesInfoResponse, Stream, VodInfoResponse,
};
use crate::text::{all_digits, digits_value};

verus! {

/// The content types of the menu.
#[derive(Debug, Clone, Copy, PartialEq, Eq, Structural)]
pub enum ContentType {
    Live,
    Movies,
    Series,
}

impl ContentType {
    /// The name shown.
    pub open spec fn label_of(self) -> Seq<char> {
        match self {
            ContentType::Live => "Live TV"@,
            ContentType::Movies => "Movies (VOD)"@,
            ContentType::Series => "TV Series"@,
        }
    }

    /// The name shown.
    pub fn label(&self) -> (r: &'static str)
        ensures
            r@ == self.label_of(),
    {
        match self {
            ContentType::Live => "Live TV",
            ContentType::Movies => "Movies (VOD)",
            ContentType::Series => "TV Series",
        }
    }
}

/// The entries of the main menu.
#[derive(Debug, Clone, Copy, PartialEq, Eq, Structural)]
pub enum MainMenuOption {
    Favourites,
    Content(ContentType),
    RefreshCache,
    ClearCache,
}

impl MainMenuOption {
    /// The name shown.
    pub open spec fn label_of(self) -> Seq<char> {
        match self {
            MainMenuOption::Favourites => "🌟 Favourites"@,
            MainMenuOption::Content(c) => c.label_of(),
            MainMenuOption::RefreshCache => "Refresh Cache"@,
            MainMenuOption::ClearCache => "Clear Cache"@,
        }
    }

    /// The name shown.
    pub fn label(&self) -> (r: &'static str)
        ensures
            r@ == self.label_of(),
    {
        match self {
            MainMenuOption::Favourites => "🌟 Favourites",
            MainMenuOption::Content(c) => c.label(),
            MainMenuOption::RefreshCache => "Refresh Cache",
            MainMenuOption::ClearCache => "Clear Cache",
        }
    }
}

/// The main menu: favourites, the three content types, refreshing and
/// clearing the cache.
pub fn main_menu_options() -> (r: Vec<MainMenuOption>)
    ensures
        r@ == seq![
            MainMenuOption::Favourites,
            MainMenuOption::Content(ContentType::Live),
            MainMenuOption::Content(ContentType::Movies),
            MainMenuOption::Content(ContentType::Series),
            MainMenuOption::RefreshCache,
            MainMenuOption::ClearCache,
        ],
{
    let mut v: Vec<MainMenuOption> = Vec::new();
    v.push(MainMenuOption::Favourites);
    v.push(MainMenuOption::Content(ContentType::Live));
    v.push(MainMenuOption::Content(ContentType::Movies));
    v.push(MainMenuOption::Content(ContentType::Series));
    v.push(MainMenuOption::RefreshCache);
    v.push(MainMenuOption::ClearCache);
    assert(v@ =~= seq![
        MainMenuOption::Favourites,
        MainMenuOption::Content(ContentType::Live),
        MainMenuOption::Content(ContentType::Movies),
        MainMenuOption::Content(ContentType::Series),
        MainMenuOption::RefreshCache,
        MainMenuOption::ClearCache,
    ]);
    v
}

/// The name of a provider in the provider menu: its name, else the host of
/// its URL, else the URL.
pub open spec fn menu_provider_name(p: ProviderConfig) -> Seq<char> {
    match p.name {
        Some(n) => n@,
        None => match url_parts(p.url@) {
            Some(parts) => match parts.1 {
                Some(h) => h,
                None => p.url@,
            },
            None => p.url@,
        },
    }
}

/// The provider menu: all favourites first, then each provider.
pub open spec fn provider_options_of(providers: Seq<ProviderConfig>) -> Seq<Seq<char>> {
    seq!["⭐ All Favourites"@] + providers.map_values(|p: ProviderConfig| "📡 "@ + menu_provider_name(p))
}

fn menu_provider_label(p: &ProviderConfig) -> (r: String)
    ensures
        r@ == menu_provider_name(*p),
{
    match &p.name {
        Some(n) => n.clone(),
        None => match parse_url(p.url.as_str()) {
            Some((_, host, _)) => match host {
                Some(h) => h,
                None => p.url.clone(),
            },
            None => p.url.clone(),
        },
    }
}

/// The options of the provider menu.
pub fn provider_options(providers: &Vec<ProviderConfig>) -> (r: Vec<String>)
    ensures
        views(r@) == provider_options_of(providers@),
{
    let mut v: Vec<String> = Vec::new();
    v.push(String::from_str("⭐ All Favourites"));
    let mut i: usize = 0;
    while i < providers.len()
        invariant
            i <= providers@.len(),
            views(v@) == provider_options_of(providers@.subrange(0, i as int)),
        decreases providers@.len() - i,
    {
        let label = menu_provider_label(&providers[i]);
        let ghost before = views(v@);
        v.push(concat2("📡 ", label.as_str()));
        proof {
            assert(views(v@) =~= before.push(v@.last()@));
            assert(provider_options_of(providers@.subrange(0, i + 1)) =~= provider_options_of(providers@.subrange(0, i as int)).push(v@.last()@));
        }
        i = i + 1;
    }
    assert(providers@.subrange(0, providers@.len() as int) =~= providers@);
    v
}

/// What the provider menu chose.
#[derive(Debug, Clone, Copy, PartialEq, Eq, Structural)]
pub enum MenuChoice {
    /// The provider at this position.
    Provider(usize),
    /// The favourites of every provider.
    AllFavourites,
    /// Leave the program.
    Exit,
}

/// The first option with the given text.
pub open spec fn first_option(options: Seq<String>, s: Seq<char>, from: nat) -> Option<int>
    decreases options.len() - from,
{
    if from >= options.len() {
        None
    } else if options[from as int]@ == s {
        Some(from as int)
    } else {
        first_option(options, s, from + 1)
    }
}

/// The last option with the given text, below `upto`.
pub open spec fn last_option(options: Seq<String>, s: Seq<char>, upto: nat) -> Option<int>
    decreases upto,
{
    if upto == 0 || upto > options.len() {
        None
    } else if options[upto - 1]@ == s {
        Some(upto - 1)
    } else {
        last_option(options, s, (upto - 1) as nat)
    }
}

/// The position of the first option with the given text.
pub fn find_option(options: &Vec<String>, s: &str) -> (r: Option<usize>)
    ensures
        match first_option(options@, s@, 0) {
            Some(i) => r matches Some(k) && k == i,
            None => r is None,
        },
{
    let mut i: usize = 0;
    while i < options.len()
        invariant
            i <= options@.len(),
            first_option(options@, s@, 0) == first_option(options@, s@, i as nat),
        decreases options@.len() - i,
    {
        if str_eq(options[i].as_str(), s) {
            return Some(i);
        }
        i = i + 1;
    }
    None
}

fn find_last_option(options: &Vec<String>, s: &str) -> (r: Option<usize>)
    ensures
        r matches Some(k) ==> k < options@.len(),
        match last_option(options@, s@, options@.len()) {
            Some(i) => r matches Some(k) && k == i,
            None => r is None,
        },
{
    let mut k: usize = options.len();
    while k > 0
        invariant
            k <= options@.len(),
            last_option(options@, s@, options@.len()) == last_option(options@, s@, k as nat),
        decreases k,
    {
        if str_eq(options[k - 1].as_str(), s) {
            return Some(k - 1);
        }
        k = k - 1;
    }
    None
}

/// What the provider menu chose: nothing leaves, the first option opens all
/// favourites, any other the provider under it.
pub fn provider_choice(options: &Vec<String>, selected: Option<&str>) -> (r: MenuChoice)
    ensures
        selected is None ==> r == MenuChoice::Exit,
        selected matches Some(s) ==> (s@ == "⭐ All Favourites"@ ==> r == MenuChoice::AllFavourites),
        selected matches Some(s) ==> (s@ != "⭐ All Favourites"@ ==> match first_option(options@, s@, 0) {
            Some(p) => if p > 0 { r == MenuChoice::Provider((p - 1) as usize) } else { r == MenuChoice::Exit },
            None => r == MenuChoice::Exit,
        }),
{
    match selected {
        None => MenuChoice::Exit,
        Some(s) => {
            if str_eq(s, "⭐ All Favourites") {
                MenuChoice::AllFavourites
            } else {
                match find_option(options, s) {
                    Some(p) => if p > 0 { MenuChoice::Provider(p - 1) } else { MenuChoice::Exit },
                    None => MenuChoice::Exit,
                }
            }
        },
    }
}

/// The category menu: `All` first, then the categories.
pub fn category_options(categories: &Vec<Category>) -> (r: Vec<Category>)
    ensures
        r@.len() == categories@.len() + 1,
        r@[0].category_id@ == "all"@ && r@[0].category_name@ == "All"@ && r@[0].parent_id is None,
        r@.subrange(1, r@.len() as int) == categories@,
{
    let mut v: Vec<Category> = Vec::new();
    v.push(Category::all());
    let mut i: usize = 0;
    while i < categories.len()
        invariant
            i <= categories@.len(),
            v@.len() == i + 1,
            v@[0].category_id@ == "all"@ && v@[0].category_name@ == "All"@ && v@[0].parent_id is None,
            v@.subrange(1, v@.len() as int) == categories@.subrange(0, i as int),
        decreases categories@.len() - i,
    {
        v.push(categories[i].clone());
        i = i + 1;
        assert(v@.subrange(1, v@.len() as int) =~= categories@.subrange(0, i as int));
    }
    assert(categories@.subrange(0, categories@.len() as int) =~= categories@);
    v
}

/// Whether a stream id is among the favourites of a stream type.
pub open spec fn fav_of_type(favourites: Seq<FavouriteStream>, stream_type: Seq<char>, id: u32) -> bool {
    exists|i: int| 0 <= i < favourites.len() && favourites[i].stream_type@ == stream_type && favourites[i].stream_id == id
}

fn is_fav_of_type(favourites: &Vec<FavouriteStream>, stream_type: &str, id: u32) -> (r: bool)
    ensures
        r == fav_of_type(favourites@, stream_type@, id),
{
    let mut i: usize = 0;
    while i < favourites.len()
        invariant
            i <= favourites@.len(),
            forall|k: int| 0 <= k < i ==> !(favourites@[k].stream_type@ == stream_type@ && favourites@[k].stream_id == id),
        decreases favourites@.len() - i,
    {
        if favourites[i].stream_id == id && str_eq(favourites[i].stream_type.as_str(), stream_type) {
            return true;
        }
        i = i + 1;
    }
    false
}

/// What can be done with a stream picked from a list.
#[derive(Debug, Clone, Copy, PartialEq, Eq, Structural)]
pub enum StreamAction {
    Play,
    RemoveFavourite,
    AddFavourite,
}

/// The actions offered for a picked stream: play it first, then remove it
/// from the favourites when it is one, else add it.
pub open spec fn stream_actions_of(is_favourite: bool) -> Seq<Seq<char>> {
    seq!["▶ Play Stream"@, if is_favourite { "🗑 Remove from Favourites"@ } else { "⭐ Add to Favourites"@ }]
}

/// The actions offered for a picked stream.
pub fn stream_actions(is_favourite: bool) -> (r: Vec<String>)
    ensures
        views(r@) == stream_actions_of(is_favourite),
{
    let toggle = if is_favourite { "🗑 Remove from Favourites" } else { "⭐ Add to Favourites" };
    let mut r: Vec<String> = Vec::new();
    r.push(String::from_str("▶ Play Stream"));
    r.push(String::from_str(toggle));
    proof {
        assert(views(r@) =~= stream_actions_of(is_favourite));
    }
    r
}

/// What the action at `choice` of `stream_actions(is_favourite)` does: the
/// first plays, any other toggles the favourite.
pub fn stream_action(choice: usize, is_favourite: bool) -> (r: StreamAction)
    ensures
        r == (if choice == 0 {
            StreamAction::Play
        } else if is_favourite {
            StreamAction::RemoveFavourite
        } else {
            StreamAction::AddFavourite
        }),
{
    if choice == 0 {
        StreamAction::Play
    } else if is_favourite {
        StreamAction::RemoveFavourite
    } else {
        StreamAction::AddFavourite
    }
}

/// The option of a stream: `⭐ ` for a favourite, the name, and for the
/// live `All` list the stream's category in brackets when it is known.
pub open spec fn stream_option_of(s: Stream, favourites: Seq<FavouriteStream>, stream_type: Seq<char>,
    categories: Option<Seq<Category>>) -> Seq<char> {
    let star = if fav_of_type(favourites, stream_type, s.stream_id) { "⭐ "@ } else { ""@ };
    match categories {
        Some(table) => match s.category_id {
            Some(id) => match category_name_in(table, id@) {
                Some(n) => star + s.name@ + " ["@ + n + "]"@,
                None => star + s.name@,
            },
            None => star + s.name@,
        },
        None => star + s.name@,
    }
}

/// The options of a stream list (live channels, or movies of one
/// category), one per stream; `categories` is given for the live `All`
/// list.
pub fn stream_options(streams: &Vec<Stream>, favourites: &Vec<FavouriteStream>, stream_type: &str,
    categories: Option<&Vec<Category>>) -> (r: Vec<String>)
    ensures
        r@.len() == streams@.len(),
        forall|i: int| 0 <= i < r@.len() ==> #[trigger] r@[i]@ == stream_option_of(streams@[i], favourites@, stream_type@,
            match categories { Some(t) => Some(t@), None => None }),
{
    let mut out: Vec<String> = Vec::new();
    let mut i: usize = 0;
    while i < streams.len()
        invariant
            i <= streams@.len(),
            out@.len() == i,
            forall|k: int| 0 <= k < i ==> #[trigger] out@[k]@ == stream_option_of(streams@[k], favourites@, stream_type@,
                match categories { Some(t) => Some(t@), None => None }),
        decreases streams@.len() - i,
    {
        let s = &streams[i];
        let star = if is_fav_of_type(favourites, stream_type, s.stream_id) { "⭐ " } else { "" };
        let plain = concat2(star, s.name.as_str());
        let opt = match categories {
            Some(table) => match &s.category_id {
                Some(id) => match lookup_category_name(table, id.as_str()) {
                    Some(n) => concat3(plain.as_str(), " [", concat2(n.as_str(), "]").as_str()),
                    None => plain,
                },
                None => plain,
            },
            None => plain,
        };
        out.push(opt);
        i = i + 1;
    }
    out
}

/// The category name of a movie in the `All` list (`Unknown` when not known).
pub open spec fn movie_category_of(s: Stream, table: Seq<Category>) -> Seq<char> {
    match s.category_id {
        Some(id) => match category_name_in(table, id@) {
            Some(n) => n,
            None => "Unknown"@,
        },
        None => "Unknown"@,
    }
}

/// The category names of the listings of movie `id` among the first
/// `upto` listings, in order.
pub open spec fn movie_categories(streams: Seq<Stream>, id: u32, table: Seq<Category>, upto: nat) -> Seq<Seq<char>>
    decreases upto,
{
    if upto == 0 {
        seq![]
    } else {
        let rest = movie_categories(streams, id, table, (upto - 1) as nat);
        if streams[upto - 1].stream_id == id {
            rest.push(movie_category_of(streams[upto - 1], table))
        } else {
            rest
        }
    }
}

/// Names joined with `, `.
pub open spec fn joined_with_commas(names: Seq<Seq<char>>) -> Seq<char>
    decreases names.len(),
{
    if names.len() == 0 {
        seq![]
    } else if names.len() == 1 {
        names[0]
    } else {
        joined_with_commas(names.drop_last()) + ", "@ + names.last()
    }
}

/// The option of the movie listed first at `target`: its name, then the
/// categories of all its listings in brackets.
pub open spec fn movie_label_of(streams: Seq<Stream>, table: Seq<Category>, target: int) -> Seq<char> {
    streams[target].name@ + " ["@
        + joined_with_commas(movie_categories(streams, streams[target].stream_id, table, streams.len())) + "]"@
}

/// The options of the movie `All` list: one per movie id, in order of first
/// appearance, named `name [categories]` with the category of every listing
/// of the movie; each option leads to the movie's first listing.
pub open spec fn movie_groups_ok(streams: Seq<Stream>, options: Seq<String>, targets: Seq<usize>) -> bool {
    &&& options.len() == targets.len()
    &&& forall|i: int| 0 <= i < targets.len() ==> (#[trigger] targets[i]) < streams.len()
    &&& forall|i: int, j: int| 0 <= i < j < targets.len() ==> streams[targets[i] as int].stream_id != streams[targets[j] as int].stream_id
    &&& forall|i: int, k: int| #![trigger targets[i], streams[k]] 0 <= i < targets.len() && 0 <= k < targets[i] ==> streams[k].stream_id != streams[targets[i] as int].stream_id
    &&& forall|k: int| 0 <= k < streams.len() ==> exists|i: int| 0 <= i < targets.len() && streams[targets[i] as int].stream_id == (#[trigger] streams[k]).stream_id
}

fn first_index_of_id(targets: &Vec<usize>, streams: &Vec<Stream>, id: u32) -> (r: Option<usize>)
    requires
        forall|i: int| 0 <= i < targets@.len() ==> (#[trigger] targets@[i]) < streams@.len(),
    ensures
        r matches Some(p) ==> p < targets@.len() && streams@[targets@[p as int] as int].stream_id == id,
        r is None ==> forall|p: int| 0 <= p < targets@.len() ==> streams@[targets@[p] as int].stream_id != id,
{
    let mut p: usize = 0;
    while p < targets.len()
        invariant
            p <= targets@.len(),
            forall|i: int| 0 <= i < targets@.len() ==> (#[trigger] targets@[i]) < streams@.len(),
            forall|q: int| 0 <= q < p ==> streams@[targets@[q] as int].stream_id != id,
        decreases targets@.len() - p,
    {
        if streams[targets[p]].stream_id == id {
            return Some(p);
        }
        p = p + 1;
    }
    None
}

pub(crate) fn join_comma(names: &Vec<String>) -> (r: String)
    ensures
        r@ == joined_with_commas(views(names@)),
{
    let mut out = String::new();
    let mut i: usize = 0;
    proof { reveal_strlit(", "); }
    while i < names.len()
        invariant
            i <= names@.len(),
            out@ == joined_with_commas(views(names@.subrange(0, i as int))),
        decreases names@.len() - i,
    {
        let ghost before = views(names@.subrange(0, i as int));
        assert(views(names@.subrange(0, i + 1)).drop_last() =~= before);
        if i > 0 {
            out.append(", ");
        }
        out.append(names[i].as_str());
        i = i + 1;
        proof {
            let now = views(names@.subrange(0, i as int));
            assert(now.last() == names@[i - 1]@);
            if i == 1 {
                assert(out@ =~= now[0]);
            }
        }
    }
    assert(names@.subrange(0, names@.len() as int) =~= names@);
    out
}

/// The options of the movie `All` list and the listing each leads to.
pub fn movie_options(streams: &Vec<Stream>, categories: &Vec<Category>) -> (r: (Vec<String>, Vec<usize>))
    ensures
        movie_groups_ok(streams@, r.0@, r.1@),
        forall|i: int| 0 <= i < r.0@.len() ==> #[trigger] r.0@[i]@ == movie_label_of(streams@, categories@, r.1@[i] as int),
{
    let mut targets: Vec<usize> = Vec::new();
    let mut i: usize = 0;
    while i < streams.len()
        invariant
            i <= streams@.len(),
            forall|a: int| 0 <= a < targets@.len() ==> (#[trigger] targets@[a]) < i,
            forall|a: int, b: int| 0 <= a < b < targets@.len() ==> streams@[targets@[a] as int].stream_id != streams@[targets@[b] as int].stream_id,
            forall|a: int, k: int| #![trigger targets@[a], streams@[k]] 0 <= a < targets@.len() && 0 <= k < targets@[a] ==> streams@[k].stream_id != streams@[targets@[a] as int].stream_id,
            forall|k: int| 0 <= k < i ==> exists|a: int| 0 <= a < targets@.len() && streams@[targets@[a] as int].stream_id == (#[trigger] streams@[k]).stream_id,
        decreases streams@.len() - i,
    {
        let id = streams[i].stream_id;
        match first_index_of_id(&targets, streams, id) {
            Some(_) => {},
            None => {
                let ghost old_t = targets@;
                targets.push(i);
                proof {
                    assert forall|k: int| 0 <= k < i + 1 implies exists|a: int| 0 <= a < targets@.len()
                        && streams@[targets@[a] as int].stream_id == (#[trigger] streams@[k]).stream_id by {
                        if k < i {
                            let a = choose|a: int| 0 <= a < old_t.len() && streams@[old_t[a] as int].stream_id == streams@[k].stream_id;
                            assert(targets@[a] == old_t[a]);
                        } else {
                            assert(targets@[old_t.len() as int] == i);
                        }
                    }
                    assert forall|a: int, k: int| #![trigger targets@[a], streams@[k]] 0 <= a < targets@.len() && 0 <= k < targets@[a]
                        implies streams@[k].stream_id != streams@[targets@[a] as int].stream_id by {
                        if a == old_t.len() {
                            let b = choose|b: int| 0 <= b < old_t.len() && streams@[old_t[b] as int].stream_id == (#[trigger] streams@[k]).stream_id;
                            assert(targets@[b] == old_t[b]);
                        } else {
                            assert(targets@[a] == old_t[a]);
                        }
                    }
                    assert forall|a: int, b: int| 0 <= a < b < targets@.len() implies streams@[targets@[a] as int].stream_id != streams@[targets@[b] as int].stream_id by {
                        if b == old_t.len() {
                            assert(targets@[a] == old_t[a]);
                        } else {
                            assert(targets@[a] == old_t[a]);
                            assert(targets@[b] == old_t[b]);
                        }
                    }
                }
            },
        }
        i = i + 1;
    }
    let mut options: Vec<String> = Vec::new();
    let mut g: usize = 0;
    proof { reveal_strlit("Unknown"); }
    while g < targets.len()
        invariant
            g <= targets@.len(),
            options@.len() == g,
            forall|a: int| 0 <= a < targets@.len() ==> (#[trigger] targets@[a]) < streams@.len(),
            forall|a: int| 0 <= a < g ==> #[trigger] options@[a]@ == movie_label_of(streams@, categories@, targets@[a] as int),
        decreases targets@.len() - g,
    {
        let first = &streams[targets[g]];
        let mut names: Vec<String> = Vec::new();
        let mut k: usize = 0;
        while k < streams.len()
            invariant
                k <= streams@.len(),
                views(names@) == movie_categories(streams@, first.stream_id, categories@, k as nat),
            decreases streams@.len() - k,
        {
            if streams[k].stream_id == first.stream_id {
                let n = match &streams[k].category_id {
                    Some(id) => match lookup_category_name(categories, id.as_str()) {
                        Some(n) => n,
                        None => String::from_str("Unknown"),
                    },
                    None => String::from_str("Unknown"),
                };
                let ghost before = views(names@);
                names.push(n);
                assert(views(names@) =~= before.push(movie_category_of(streams@[k as int], categories@)));
            }
            k = k + 1;
        }
        let joined = join_comma(&names);
        let ghost before_opts = options@;
        options.push(concat3(first.name.as_str(), " [", concat2(joined.as_str(), "]").as_str()));
        proof {
            assert(options@[g as int]@ =~= movie_label_of(streams@, categories@, targets@[g as int] as int));
            assert forall|a: int| 0 <= a < g + 1 implies #[trigger] options@[a]@ == movie_label_of(streams@, categories@, targets@[a] as int) by {
                if a < g {
                    assert(options@[a] == before_opts[a]);
                }
            }
        }
        g = g + 1;
    }
    (options, targets)
}

/// The options of a list and the listing each leads to, one for one.
pub fn identity_targets(n: usize) -> (r: Vec<usize>)
    ensures
        r@.len() == n,
        forall|i: int| 0 <= i < n ==> #[trigger] r@[i] == i,
{
    let mut v: Vec<usize> = Vec::new();
    let mut i: usize = 0;
    while i < n
        invariant
            i <= n,
            v@.len() == i,
            forall|k: int| 0 <= k < i ==> #[trigger] v@[k] == k,
        decreases n - i,
    {
        v.push(i);
        i = i + 1;
    }
    v
}

/// What choosing an option text selects: the cursor goes to the first
/// option with that text, and the listing played is that of the last
/// option with that text (options are looked up by their text).
pub fn option_target(options: &Vec<String>, targets: &Vec<usize>, selected: &str) -> (r: Option<(usize, usize)>)
    requires
        options@.len() == targets@.len(),
    ensures
        first_option(options@, selected@, 0) is None ==> r is None,
        first_option(options@, selected@, 0) matches Some(c) ==> (r matches Some((cursor, target)) && cursor == c
            && (last_option(options@, selected@, options@.len()) matches Some(l) && target == targets@[l])),
{
    match find_option(options, selected) {
        None => None,
        Some(c) => {
            proof { lemma_last_exists(options@, selected@, c as int); }
            match find_last_option(options, selected) {
                Some(l) => Some((c, targets[l])),
                None => None,
            }
        },
    }
}

proof fn lemma_first_found(options: Seq<String>, s: Seq<char>, from: nat)
    ensures
        first_option(options, s, from) matches Some(c) ==> from <= c < options.len() && options[c]@ == s,
    decreases options.len() - from,
{
    if from < options.len() && options[from as int]@ != s {
        lemma_first_found(options, s, from + 1);
    }
}

proof fn lemma_last_exists(options: Seq<String>, s: Seq<char>, c: int)
    requires
        first_option(options, s, 0) == Some(c),
    ensures
        last_option(options, s, options.len()) is Some,
{
    lemma_first_found(options, s, 0);
    lemma_last_from(options, s, options.len(), c);
}

proof fn lemma_last_from(options: Seq<String>, s: Seq<char>, upto: nat, c: int)
    requires
        0 <= c < upto <= options.len(),
        options[c]@ == s,
    ensures
        last_option(options, s, upto) is Some,
    decreases upto,
{
    if options[upto - 1]@ != s {
        lemma_last_from(options, s, (upto - 1) as nat, c);
    }
}

/// The options of the favourites of every provider: `name [provider]`.
pub fn all_favourite_options(favs: &Vec<(FavouriteStream, ProviderConfig)>) -> (r: Vec<String>)
    ensures
        r@.len() == favs@.len(),
        forall|i: int| 0 <= i < r@.len() ==> #[trigger] r@[i]@ == favs@[i].0.name@ + " ["@ + favs@[i].1.label_of() + "]"@,
{
    let mut out: Vec<String> = Vec::new();
    let mut i: usize = 0;
    while i < favs.len()
        invariant
            i <= favs@.len(),
            out@.len() == i,
            forall|k: int| 0 <= k < i ==> #[trigger] out@[k]@ == favs@[k].0.name@ + " ["@ + favs@[k].1.label_of() + "]"@,
        decreases favs@.len() - i,
    {
        let label = favs[i].1.label();
        out.push(concat3(favs[i].0.name.as_str(), " [", concat2(label.as_str(), "]").as_str()));
        i = i + 1;
    }
    out
}

/// The options of the current provider's favourites: `⭐ name`.
pub fn favourite_options(favs: &Vec<FavouriteStream>) -> (r: Vec<String>)
    ensures
        r@.len() == favs@.len(),
        forall|i: int| 0 <= i < r@.len() ==> #[trigger] r@[i]@ == "⭐ "@ + favs@[i].name@,
{
    let mut out: Vec<String> = Vec::new();
    let mut i: usize = 0;
    while i < favs.len()
        invariant
            i <= favs@.len(),
            out@.len() == i,
            forall|k: int| 0 <= k < i ==> #[trigger] out@[k]@ == "⭐ "@ + favs@[k].name@,
        decreases favs@.len() - i,
    {
        out.push(concat2("⭐ ", favs[i].name.as_str()));
        i = i + 1;
    }
    out
}

/// The option of a season: `Season <n> - <name> (<count> episodes)`, the
/// count read as a number (0 when it is not one).
pub open spec fn season_option_of(s: ApiSeason) -> Seq<char> {
    "Season "@ + decimal(s.season_number as nat) + " - "@ + s.name@ + " ("@
        + decimal((match parse_u32_spec(s.episode_count@) { Some(n) => n, None => 0u32 }) as nat) + " episodes)"@
}

/// The option of a season.
pub fn season_option(s: &ApiSeason) -> (r: String)
    ensures
        r@ == season_option_of(*s),
{
    let count = match parse_u32(s.episode_count.as_str()) {
        Some(n) => n,
        None => 0,
    };
    let n = u64_to_string(s.season_number as u64);
    let c = u64_to_string(count as u64);
    let a = concat3("Season ", n.as_str(), " - ");
    let b = concat3(a.as_str(), s.name.as_str(), " (");
    concat3(b.as_str(), c.as_str(), " episodes)")
}

/// `m:ss` of a number of seconds.
pub open spec fn min_sec_of(secs: u32) -> Seq<char> {
    decimal((secs / 60) as nat) + ":"@ + (if secs % 60 < 10 { "0"@ } else { ""@ }) + decimal((secs % 60) as nat)
}

fn min_sec(secs: u32) -> (r: String)
    ensures
        r@ == min_sec_of(secs),
{
    let m = u64_to_string((secs / 60) as u64);
    let s = u64_to_string((secs % 60) as u64);
    concat3(m.as_str(), ":", concat2(if secs % 60 < 10 { "0" } else { "" }, s.as_str()).as_str())
}

/// The duration of an episode: its text, else `m:ss` of its seconds.
pub open spec fn episode_duration_of(info: Option<EpisodeInfo>) -> Option<Seq<char>> {
    match info {
        Some(i) => match i.duration {
            Some(d) => Some(d@),
            None => match i.duration_secs {
                Some(s) => Some(min_sec_of(s)),
                None => None,
            },
        },
        None => None,
    }
}

fn episode_duration(info: &Option<EpisodeInfo>) -> (r: Option<String>)
    ensures
        opt_str_view(r) == episode_duration_of(*info),
{
    match info {
        Some(i) => match &i.duration {
            Some(d) => Some(d.clone()),
            None => match i.duration_secs {
                Some(s) => Some(min_sec(s)),
                None => None,
            },
        },
        None => None,
    }
}

/// The option of an episode: `Episode <n> - <title>`, then ` (<duration>)`.
pub open spec fn episode_option_of(e: Episode) -> Seq<char> {
    "Episode "@ + decimal(e.episode_num as nat) + " - "@ + e.title@ + match episode_duration_of(e.info) {
        Some(d) => " ("@ + d + ")"@,
        None => ""@,
    }
}

/// The option of an episode.
pub fn episode_option(e: &Episode) -> (r: String)
    ensures
        r@ == episode_option_of(*e),
{
    let n = u64_to_string(e.episode_num as u64);
    let a = concat3("Episode ", n.as_str(), " - ");
    let b = concat2(a.as_str(), e.title.as_str());
    match episode_duration(&e.info) {
        Some(d) => {
            let c = concat3(b.as_str(), " (", d.as_str());
            let r = concat2(c.as_str(), ")");
            assert(r@ =~= b@ + (" ("@ + d@ + ")"@));
            r
        },
        None => {
            assert(b@ =~= b@ + ""@) by { reveal_strlit(""); }
            b
        },
    }
}

/// The title of a season: `Season <n> - <name>`, or `Season <n>`.
pub fn season_title(s: &Season) -> (r: String)
    ensures
        r@ == "Season "@ + decimal(s.season_number as nat) + match s.name {
            Some(n) => " - "@ + n@,
            None => ""@,
        },
{
    let n = u64_to_string(s.season_number as u64);
    match &s.name {
        Some(name) => {
            let tail = concat2(" - ", name.as_str());
            let r = concat3("Season ", n.as_str(), tail.as_str());
            assert(r@ =~= "Season "@ + decimal(s.season_number as nat) + (" - "@ + name@));
            r
        },
        None => {
            let r = concat2("Season ", n.as_str());
            assert(r@ =~= "Season "@ + decimal(s.season_number as nat) + ""@) by { reveal_strlit(""); }
            r
        },
    }
}

/// An episode of the series answer as an episode of a season.
pub fn episode_of(e: &ApiEpisode) -> (r: Episode)
    ensures
        r.id == e.id,
        r.episode_num == e.episode_num,
        r.title == e.title,
        r.container_extension == e.container_extension,
        r.info == e.info,
        r.custom_sid == e.custom_sid,
        r.added == e.added,
        r.season == e.season,
        r.direct_source == e.direct_source,
{
    Episode {
        id: e.id.clone(),
        episode_num: e.episode_num,
        title: e.title.clone(),
        container_extension: e.container_extension.clone(),
        info: e.info.clone(),
        custom_sid: e.custom_sid.clone(),
        added: e.added.clone(),
        season: e.season,
        direct_source: e.direct_source.clone(),
    }
}

/// The first episode group with the given key.
pub open spec fn episode_group(groups: Seq<(String, Vec<ApiEpisode>)>, key: Seq<char>, from: nat) -> Option<int>
    decreases groups.len() - from,
{
    if from >= groups.len() {
        None
    } else if groups[from as int].0@ == key {
        Some(from as int)
    } else {
        episode_group(groups, key, from + 1)
    }
}

/// A season of the series answer with its episodes: those of the group
/// keyed by the season number (none when there is no such group).
pub fn season_with_episodes(info: &SeriesInfoResponse, season: &ApiSeason) -> (r: Season)
    ensures
        r.season_number == season.season_number,
        r.name matches Some(n) && n@ == season.name@,
        match info.episodes {
            Some(groups) => match episode_group(groups@, decimal(season.season_number as nat), 0) {
                Some(g) => r.episodes@.len() == groups@[g].1@.len()
                    && forall|k: int| 0 <= k < r.episodes@.len() ==> (#[trigger] r.episodes@[k]).id == groups@[g].1@[k].id
                        && r.episodes@[k].title == groups@[g].1@[k].title
                        && r.episodes@[k].episode_num == groups@[g].1@[k].episode_num,
                None => r.episodes@.len() == 0,
            },
            None => r.episodes@.len() == 0,
        },
{
    let key = u64_to_string(season.season_number as u64);
    let mut episodes: Vec<Episode> = Vec::new();
    match &info.episodes {
        Some(groups) => {
            let mut g: usize = 0;
            let mut found: Option<usize> = None;
            while g < groups.len()
                invariant
                    g <= groups@.len(),
                    found matches Some(f) ==> f < groups@.len() && episode_group(groups@, key@, 0) == Some(f as int),
                    found is None ==> episode_group(groups@, key@, 0) == episode_group(groups@, key@, g as nat),
                decreases groups@.len() - g,
            {
                if found.is_none() && str_eq(groups[g].0.as_str(), key.as_str()) {
                    found = Some(g);
                }
                g = g + 1;
            }
            match found {
                Some(g) => {
                    let eps = &groups[g].1;
                    let mut k: usize = 0;
                    while k < eps.len()
                        invariant
                            k <= eps@.len(),
                            episodes@.len() == k,
                            forall|q: int| 0 <= q < k ==> (#[trigger] episodes@[q]).id == eps@[q].id
                                && episodes@[q].title == eps@[q].title && episodes@[q].episode_num == eps@[q].episode_num,
                        decreases eps@.len() - k,
                    {
                        episodes.push(episode_of(&eps[k]));
                        k = k + 1;
                    }
                },
                None => {},
            }
        },
        None => {},
    }
    Season { season_number: season.season_number, name: Some(season.name.clone()), episodes }
}

/// The lines of a text wrapped for printing: each line two spaces in, words
/// joined while the line (without the indent) stays within `width - 2`
/// bytes; a first word always starts a line.
pub open spec fn print_wrap_state(ws: Seq<Seq<char>>, limit: nat) -> (Seq<Seq<char>>, Seq<char>)
    decreases ws.len(),
{
    if ws.len() == 0 {
        (seq![], seq![])
    } else {
        let prev = print_wrap_state(ws.drop_last(), limit);
        let w = ws.last();
        if prev.1.len() == 0 {
            (prev.0, w)
        } else if byte_len(prev.1) + 1 + byte_len(w) <= limit {
            (prev.0, prev.1 + seq![' '] + w)
        } else {
            (prev.0.push("  "@ + prev.1), w)
        }
    }
}

/// The printed lines of a wrapped text.
pub open spec fn print_wrapped_of(text: Seq<char>, width: nat) -> Seq<Seq<char>> {
    let limit = if width < 2 { 0 } else { (width - 2) as nat };
    let st = print_wrap_state(words(text), limit);
    if st.1.len() > 0 { st.0.push("  "@ + st.1) } else { st.0 }
}

proof fn lemma_word_nonempty(text: Seq<char>)
    ensures
        forall|i: int| 0 <= i < words(text).len() ==> (#[trigger] words(text)[i]).len() > 0,
    decreases text.len(),
{
    if text.len() > 0 {
        let init = text.drop_last();
        lemma_word_nonempty(init);
        crate::text::lemma_words_nonempty(init);
        let w = words(init);
        if is_ws(text.last()) {
        } else if init.len() > 0 && !is_ws(init.last()) {
            assert forall|i: int| 0 <= i < words(text).len() implies (#[trigger] words(text)[i]).len() > 0 by {
                if i < w.len() - 1 {
                    assert(words(text)[i] == w[i]);
                }
            }
        } else {
            assert forall|i: int| 0 <= i < words(text).len() implies (#[trigger] words(text)[i]).len() > 0 by {
                if i < w.len() {
                    assert(words(text)[i] == w[i]);
                }
            }
        }
    }
}

/// Wraps a text for printing in a terminal `width` columns wide.
pub fn print_wrapped(text: &str, width: usize) -> (r: Vec<String>)
    ensures
        views(r@) == print_wrapped_of(text@, width as nat),
{
    let limit: usize = if width < 2 { 0 } else { width - 2 };
    let ws = split_words(text);
    let ghost wv = ws@.map_values(|w: String| w@);
    proof { lemma_word_nonempty(text@); }
    let mut lines: Vec<String> = Vec::new();
    let mut cur = String::new();
    let mut i: usize = 0;
    while i < ws.len()
        invariant
            i <= ws@.len(),
            wv == ws@.map_values(|w: String| w@),
            wv == words(text@),
            forall|k: int| 0 <= k < wv.len() ==> (#[trigger] wv[k]).len() > 0,
            (views(lines@), cur@) == print_wrap_state(wv.subrange(0, i as int), limit as nat),
        decreases ws@.len() - i,
    {
        let w = &ws[i];
        let ghost pre = wv.subrange(0, i as int);
        assert(wv.subrange(0, i + 1).drop_last() =~= pre);
        assert(wv.subrange(0, i + 1).last() == w@);
        if cur.unicode_len() == 0 {
            cur = w.clone();
        } else {
            let cl = utf8_len(cur.as_str());
            let wl = utf8_len(w.as_str());
            let fits = (cl as u128) + 1 + (wl as u128) <= limit as u128;
            if fits {
                proof { reveal_strlit(" "); }
                cur.append(" ");
                cur.append(w.as_str());
            } else {
                let ghost before = views(lines@);
                lines.push(concat2("  ", cur.as_str()));
                assert(views(lines@) =~= before.push("  "@ + print_wrap_state(pre, limit as nat).1));
                cur = w.clone();
            }
        }
        i = i + 1;
    }
    assert(wv.subrange(0, ws@.len() as int) =~= wv);
    if cur.unicode_len() > 0 {
        let ghost before = views(lines@);
        lines.push(concat2("  ", cur.as_str()));
        assert(views(lines@) =~= before.push("  "@ + cur@));
    }
    lines
}

/// The seconds of a movie's duration field: an unsigned integer number
/// (kept modulo 2^32, as a 32-bit conversion keeps it), or a string that
/// holds a 32-bit number.
pub open spec fn duration_field_secs(v: RawField) -> Option<u32> {
    match v {
        RawField::Number(t) => if t@.len() > 0 && all_digits(t@) && digits_value(t@) <= u64::MAX {
            Some((digits_value(t@) % 0x1_0000_0000) as u32)
        } else {
            None
        },
        RawField::Str(x) => parse_u32_spec(x@),
        _ => None,
    }
}

/// `Duration: <h>h <m>m`, or `Duration: <m>m` under an hour.
pub open spec fn hours_minutes_of(d: u32) -> Seq<char> {
    let h = d / 3600;
    let m = (d % 3600) / 60;
    if h > 0 {
        "Duration: "@ + decimal(h as nat) + "h "@ + decimal(m as nat) + "m"@
    } else {
        "Duration: "@ + decimal(m as nat) + "m"@
    }
}

/// The duration line of the movie details: from the seconds field when it
/// reads as a number, else the duration text.
pub open spec fn movie_duration_line_of(field: Option<RawField>, duration: Option<String>) -> Option<Seq<char>> {
    let text = match duration {
        Some(d) => Some("Duration: "@ + d@),
        None => None,
    };
    match field {
        Some(v) => match duration_field_secs(v) {
            Some(d) => Some(hours_minutes_of(d)),
            None => text,
        },
        None => text,
    }
}

fn parse_digits_u64(t: &str) -> (r: Option<u64>)
    ensures
        r matches Some(v) ==> t@.len() > 0 && all_digits(t@) && v == digits_value(t@),
        r is None ==> !(t@.len() > 0 && all_digits(t@) && digits_value(t@) <= u64::MAX),
{
    let cs = crate::text::chars_of(t);
    if cs.len() == 0 {
        return None;
    }
    let mut v: u128 = 0;
    let mut i: usize = 0;
    while i < cs.len()
        invariant
            i <= cs@.len(),
            cs@ == t@,
            all_digits(cs@.subrange(0, i as int)),
            v == digits_value(cs@.subrange(0, i as int)),
            v <= u64::MAX,
        decreases cs@.len() - i,
    {
        let c = cs[i];
        assert(cs@.subrange(0, i + 1).drop_last() =~= cs@.subrange(0, i as int));
        if !('0' <= c && c <= '9') {
            assert(!all_digits(t@)) by {
                assert(!('0' <= t@[i as int] && t@[i as int] <= '9'));
            }
            return None;
        }
        let d = ((c as u32) - ('0' as u32)) as u128;
        let nv = v * 10 + d;
        assert(nv == digits_value(cs@.subrange(0, i + 1)));
        if nv > u64::MAX as u128 {
            proof {
                if all_digits(t@) {
                    lemma_digits_prefix_le(t@, i + 1);
                }
            }
            return None;
        }
        v = nv;
        i = i + 1;
    }
    assert(cs@.subrange(0, cs@.len() as int) =~= t@);
    Some(v as u64)
}

proof fn lemma_digits_prefix_le(s: Seq<char>, k: int)
    requires
        all_digits(s),
        0 <= k <= s.len(),
    ensures
        digits_value(s.subrange(0, k)) <= digits_value(s),
    decreases s.len() - k,
{
    if k < s.len() {
        lemma_digits_prefix_le(s, k + 1);
        assert(s.subrange(0, k + 1).drop_last() =~= s.subrange(0, k));
        assert(('0' as u32) <= (s[k] as u32));
    } else {
        assert(s.subrange(0, k) =~= s);
    }
}

/// The seconds of a movie's duration field.
pub fn duration_secs_from_field(v: &RawField) -> (r: Option<u32>)
    ensures
        r == duration_field_secs(*v),
{
    match v {
        RawField::Number(t) => match parse_digits_u64(t.as_str()) {
            Some(n) => Some((n % 0x1_0000_0000) as u32),
            None => None,
        },
        RawField::Str(x) => parse_u32(x.as_str()),
        _ => None,
    }
}

/// The duration line of the movie details.
pub fn movie_duration_line(field: &Option<RawField>, duration: &Option<String>) -> (r: Option<String>)
    ensures
        opt_str_view(r) == movie_duration_line_of(*field, *duration),
{
    let secs = match field {
        Some(v) => duration_secs_from_field(v),
        None => None,
    };
    match secs {
        Some(d) => {
            let h = d / 3600;
            let m = (d % 3600) / 60;
            let ms = u64_to_string(m as u64);
            if h > 0 {
                let hs = u64_to_string(h as u64);
                let a = concat3("Duration: ", hs.as_str(), "h ");
                Some(concat3(a.as_str(), ms.as_str(), "m"))
            } else {
                Some(concat3("Duration: ", ms.as_str(), "m"))
            }
        },
        None => match duration {
            Some(t) => Some(concat2("Duration: ", t.as_str())),
            None => None,
        },
    }
}

/// The line `prefix value` when there is a value.
pub open spec fn value_line(prefix: Seq<char>, v: Option<String>) -> Seq<Seq<char>> {
    match v {
        Some(x) => seq![prefix + x@],
        None => seq![],
    }
}

fn push_opt(lines: &mut Vec<String>, prefix: &str, v: &Option<String>)
    ensures
        views(final(lines)@) == views(old(lines)@) + value_line(prefix@, *v),
{
    match v {
        Some(x) => {
            lines.push(concat2(prefix, x.as_str()));
        },
        None => {},
    }
    assert(views(lines@) =~= views(old(lines)@) + match *v {
        Some(x) => seq![prefix@ + x@],
        None => Seq::<Seq<char>>::empty(),
    });
}

/// The lines printed about a movie: its title, the wrapped description
/// followed by a blank line, genre, release date, duration, a blank line.
pub fn movie_detail_lines(info: &VodInfoResponse, duration_field: &Option<RawField>, width: usize) -> (r: Vec<String>)
    ensures
        views(r@) == seq!["\n=== "@ + info.info.name@ + " ==="@]
            + (match info.info.plot {
                Some(p) => seq!["Description:"@] + print_wrapped_of(p@, width as nat) + seq![Seq::<char>::empty()],
                None => Seq::<Seq<char>>::empty(),
            })
            + (match info.info.genre { Some(g) => seq!["Genre: "@ + g@], None => Seq::<Seq<char>>::empty() })
            + (match info.info.releasedate { Some(d) => seq!["Release Date: "@ + d@], None => Seq::<Seq<char>>::empty() })
            + (match movie_duration_line_of(*duration_field, info.info.duration) { Some(l) => seq![l], None => Seq::<Seq<char>>::empty() })
            + seq![Seq::<char>::empty()],
{
    let mut v: Vec<String> = Vec::new();
    v.push(concat3("\n=== ", info.info.name.as_str(), " ==="));
    let ghost a0 = views(v@);
    assert(a0 =~= seq!["\n=== "@ + info.info.name@ + " ==="@]);
    match &info.info.plot {
        Some(p) => {
            v.push(String::from_str("Description:"));
            let lines = print_wrapped(p.as_str(), width);
            let ghost mid = views(v@);
            let mut k: usize = 0;
            while k < lines.len()
                invariant
                    k <= lines@.len(),
                    views(v@) == mid + views(lines@.subrange(0, k as int)),
                decreases lines@.len() - k,
            {
                let ghost before = views(v@);
                v.push(lines[k].clone());
                proof {
                    assert(views(lines@.subrange(0, k + 1)) =~= views(lines@.subrange(0, k as int)).push(lines@[k as int]@));
                    assert(views(v@) =~= before.push(lines@[k as int]@));
                }
                k = k + 1;
            }
            assert(lines@.subrange(0, lines@.len() as int) =~= lines@);
            assert(views(v@) == mid + print_wrapped_of(p@, width as nat));
            assert(mid =~= a0 + seq!["Description:"@]);
            let ghost before = views(v@);
            v.push(String::new());
            assert(views(v@) =~= before.push(Seq::<char>::empty()));
            assert(views(v@) =~= a0 + (seq!["Description:"@] + print_wrapped_of(p@, width as nat) + seq![Seq::<char>::empty()]));
        },
        None => {
            assert(views(v@) =~= a0 + Seq::<Seq<char>>::empty());
        },
    }
    push_opt(&mut v, "Genre: ", &info.info.genre);
    push_opt(&mut v, "Release Date: ", &info.info.releasedate);
    let ghost a1 = views(v@);
    match movie_duration_line(duration_field, &info.info.duration) {
        Some(l) => {
            v.push(l);
        },
        None => {},
    }
    assert(views(v@) =~= a1 + (match movie_duration_line_of(*duration_field, info.info.duration) { Some(l) => seq![l], None => Seq::<Seq<char>>::empty() }));
    let ghost a2 = views(v@);
    v.push(String::new());
    assert(views(v@) =~= a2 + seq![Seq::<char>::empty()]);
    v
}

/// The lines printed about a series before its seasons: its name
/// (`Unknown Series` without details), plot, genre, release, rating, and a
/// blank line.
pub fn series_header_lines(info: &SeriesInfoResponse) -> (r: Vec<String>)
    ensures
        views(r@) == seq!["\n=== "@ + (match info.info { Some(d) => d.name@, None => "Unknown Series"@ }) + " ==="@]
            + (match info.info {
                Some(d) => value_line("Plot: "@, d.plot) + value_line("Genre: "@, d.genre)
                    + value_line("Release: "@, d.release_date) + value_line("Rating: "@, d.rating),
                None => Seq::<Seq<char>>::empty(),
            })
            + seq![Seq::<char>::empty()],
{
    let mut v: Vec<String> = Vec::new();
    let mut rest: Vec<String> = Vec::new();
    match &info.info {
        Some(d) => {
            v.push(concat3("\n=== ", d.name.as_str(), " ==="));
            push_opt(&mut rest, "Plot: ", &d.plot);
            push_opt(&mut rest, "Genre: ", &d.genre);
            push_opt(&mut rest, "Release: ", &d.release_date);
            push_opt(&mut rest, "Rating: ", &d.rating);
        },
        None => {
            v.push(concat3("\n=== ", "Unknown Series", " ==="));
        },
    }
    let ghost mid = views(rest@);
    rest.push(String::new());
    assert(views(rest@) =~= mid + seq![Seq::<char>::empty()]);
    crate::tui::vod::push_lines(&mut v, rest);
    v
}

/// The lines printed about an episode: heading, title, plot, release date,
/// rating, and the duration (its text, else `m:ss` of its seconds).
pub fn episode_detail_lines(e: &Episode, series_name: &str) -> (r: Vec<String>)
    ensures
        views(r@) == seq![
            "\n=== "@ + series_name@ + " - Episode "@ + decimal(e.episode_num as nat) + " ==="@,
            "Title: "@ + e.title@,
        ] + (match e.info {
            Some(i) => value_line("Plot: "@, i.plot) + value_line("Release Date: "@, i.releasedate)
                + value_line("Rating: "@, i.rating)
                + (match episode_duration_of(e.info) {
                    Some(d) => seq!["Duration: "@ + d],
                    None => Seq::<Seq<char>>::empty(),
                }),
            None => Seq::<Seq<char>>::empty(),
        }),
{
    let mut v: Vec<String> = Vec::new();
    let n = u64_to_string(e.episode_num as u64);
    let a = concat3("\n=== ", series_name, " - Episode ");
    v.push(concat3(a.as_str(), n.as_str(), " ==="));
    v.push(concat2("Title: ", e.title.as_str()));
    let mut rest: Vec<String> = Vec::new();
    match &e.info {
        Some(i) => {
            push_opt(&mut rest, "Plot: ", &i.plot);
            push_opt(&mut rest, "Release Date: ", &i.releasedate);
            push_opt(&mut rest, "Rating: ", &i.rating);
            match &i.duration {
                Some(d) => {
                    rest.push(concat2("Duration: ", d.as_str()));
                },
                None => match i.duration_secs {
                    Some(secs) => {
                        let ms = min_sec(secs);
                        rest.push(concat2("Duration: ", ms.as_str()));
                    },
                    None => {},
                },
            }
        },
        None => {},
    }
    crate::tui::vod::push_lines(&mut v, rest);
    v
}

} // verus!
