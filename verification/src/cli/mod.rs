//! The command-line subcommands: output formats, content types, and which
//! providers a command works on.
use vstd::prelude::*;
use crate::config::ProviderConfig;
use crate::text::{concat3, lowercase, str_eq, to_lowercase};

pub mod cache;
pub mod info;
pub mod play;
pub mod search;

verus! {

/// Output format of command results.
#[derive(Debug, Clone, Copy, PartialEq, Eq, Structural)]
pub enum OutputFormat {
    Text,
    Json,
    M3u,
}

/// The format named by a (lowercased) word, if any.
pub open spec fn output_format_of(lower: Seq<char>) -> Option<OutputFormat> {
    if lower == "text"@ {
        Some(OutputFormat::Text)
    } else if lower == "json"@ {
        Some(OutputFormat::Json)
    } else if lower == "m3u"@ {
        Some(OutputFormat::M3u)
    } else {
        None
    }
}

impl OutputFormat {
    /// Reads a format name, ignoring case.
    pub fn from_str(s: &str) -> (r: Result<OutputFormat, String>)
        ensures
            match output_format_of(lowercase(s@)) {
                Some(f) => r matches Ok(x) && x == f,
                None => r matches Err(m) && m@ == "Invalid format: "@ + s@ + ". Use 'text', 'json', or 'm3u'"@,
            },
    {
        let l = to_lowercase(s);
        if str_eq(l.as_str(), "text") {
            Ok(OutputFormat::Text)
        } else if str_eq(l.as_str(), "json") {
            Ok(OutputFormat::Json)
        } else if str_eq(l.as_str(), "m3u") {
            Ok(OutputFormat::M3u)
        } else {
            Err(concat3("Invalid format: ", s, ". Use 'text', 'json', or 'm3u'"))
        }
    }
}

/// Content type of a command.
#[derive(Debug, Clone, Copy, PartialEq, Eq, Structural)]
pub enum ContentType {
    Live,
    Movie,
    Series,
}

/// The content type named by a (lowercased) word, if any.
pub open spec fn content_type_of(lower: Seq<char>) -> Option<ContentType> {
    if lower == "live"@ {
        Some(ContentType::Live)
    } else if lower == "movie"@ || lower == "movies"@ || lower == "vod"@ {
        Some(ContentType::Movie)
    } else if lower == "series"@ || lower == "tv"@ {
        Some(ContentType::Series)
    } else {
        None
    }
}

impl ContentType {
    /// Reads a content type name, ignoring case: `live`; `movie`, `movies`
    /// or `vod`; `series` or `tv`.
    pub fn from_str(s: &str) -> (r: Result<ContentType, String>)
        ensures
            match content_type_of(lowercase(s@)) {
                Some(t) => r matches Ok(x) && x == t,
                None => r matches Err(m) && m@ == "Invalid type: "@ + s@ + ". Use 'live', 'movie', or 'series'"@,
            },
    {
        let l = to_lowercase(s);
        let ls = l.as_str();
        if str_eq(ls, "live") {
            Ok(ContentType::Live)
        } else if str_eq(ls, "movie") || str_eq(ls, "movies") || str_eq(ls, "vod") {
            Ok(ContentType::Movie)
        } else if str_eq(ls, "series") || str_eq(ls, "tv") {
            Ok(ContentType::Series)
        } else {
            Err(concat3("Invalid type: ", s, ". Use 'live', 'movie', or 'series'"))
        }
    }

    /// The type's name in stream URLs and output.
    pub open spec fn name_of(self) -> Seq<char> {
        match self {
            ContentType::Live => "live"@,
            ContentType::Movie => "movie"@,
            ContentType::Series => "series"@,
        }
    }

    /// The type's name in stream URLs and output.
    pub fn as_str(&self) -> (r: &'static str)
        ensures
            r@ == self.name_of(),
    {
        match self {
            ContentType::Live => "live",
            ContentType::Movie => "movie",
            ContentType::Series => "series",
        }
    }
}

/// The providers a command may use, with the one named on the command line
/// and whether all were asked for.
#[derive(Debug)]
pub struct CommandContext {
    pub providers: Vec<ProviderConfig>,
    pub selected_provider: Option<String>,
    pub all_providers: bool,
}

/// How a command that needs one provider gets it.
#[derive(Debug, Clone, Copy, PartialEq, Eq, Structural)]
pub enum ProviderChoice {
    /// The provider at this position.
    Index(usize),
    /// The user must pick one of several.
    Prompt,
}

/// Whether a command works on one provider or on all.
#[derive(Debug, Clone, Copy, PartialEq, Eq, Structural)]
pub enum ProviderScope {
    Single,
    All,
}

/// The first provider whose configured name equals `name` ignoring case.
pub open spec fn provider_named(providers: Seq<ProviderConfig>, name: Seq<char>, from: nat) -> Option<int>
    decreases providers.len() - from,
{
    if from >= providers.len() {
        None
    } else if (providers[from as int].name matches Some(n) && lowercase(n@) == lowercase(name)) {
        Some(from as int)
    } else {
        provider_named(providers, name, from + 1)
    }
}

/// The first provider shown under `display` (its name, else `user@url`).
pub open spec fn provider_displayed(providers: Seq<ProviderConfig>, display: Seq<char>, from: nat) -> Option<int>
    decreases providers.len() - from,
{
    if from >= providers.len() {
        None
    } else if providers[from as int].display_name_of() == display {
        Some(from as int)
    } else {
        provider_displayed(providers, display, from + 1)
    }
}

impl CommandContext {
    /// A context over the configured providers.
    pub fn new(providers: Vec<ProviderConfig>, selected_provider: Option<String>, all_providers: bool) -> (r: CommandContext)
        ensures
            r.providers == providers,
            r.selected_provider == selected_provider,
            r.all_providers == all_providers,
    {
        CommandContext { providers, selected_provider, all_providers }
    }

    /// Which provider a single-provider command uses: the one named on the
    /// command line (ignoring case), the only one, or the user's pick.
    pub fn choose_single_provider(&self) -> (r: Result<ProviderChoice, String>)
        ensures
            self.providers@.len() == 0 ==> (r matches Err(m) && m@ == "No providers configured. Please add provider details to config.toml."@),
            self.providers@.len() > 0 ==> match self.selected_provider {
                Some(name) => match provider_named(self.providers@, name@, 0) {
                    Some(i) => r matches Ok(ProviderChoice::Index(k)) && k == i,
                    None => r matches Err(m) && m@ == "Provider '"@ + name@ + "' not found"@,
                },
                None => if self.providers@.len() == 1 {
                    r == Ok::<ProviderChoice, String>(ProviderChoice::Index(0))
                } else {
                    r == Ok::<ProviderChoice, String>(ProviderChoice::Prompt)
                },
            },
    {
        if self.providers.len() == 0 {
            return Err(String::from_str("No providers configured. Please add provider details to config.toml."));
        }
        match &self.selected_provider {
            Some(name) => {
                let wanted = to_lowercase(name.as_str());
                let mut i: usize = 0;
                while i < self.providers.len()
                    invariant
                        i <= self.providers@.len(),
                        self.providers@.len() > 0,
                        self.selected_provider == Some(*name),
                        wanted@ == lowercase(name@),
                        provider_named(self.providers@, name@, 0) == provider_named(self.providers@, name@, i as nat),
                    decreases self.providers@.len() - i,
                {
                    match &self.providers[i].name {
                        Some(n) => {
                            let ln = to_lowercase(n.as_str());
                            if str_eq(ln.as_str(), wanted.as_str()) {
                                assert(provider_named(self.providers@, name@, i as nat) == Some(i as int));
                                return Ok(ProviderChoice::Index(i));
                            }
                        },
                        None => {},
                    }
                    i = i + 1;
                }
                Err(concat3("Provider '", name.as_str(), "' not found"))
            },
            None => {
                if self.providers.len() == 1 {
                    Ok(ProviderChoice::Index(0))
                } else {
                    Ok(ProviderChoice::Prompt)
                }
            },
        }
    }

    /// The names offered when the user must pick a provider.
    pub fn provider_display_names(&self) -> (r: Vec<String>)
        ensures
            r@.len() == self.providers@.len(),
            forall|i: int| 0 <= i < r@.len() ==> #[trigger] r@[i]@ == self.providers@[i].display_name_of(),
    {
        let mut out: Vec<String> = Vec::new();
        let mut i: usize = 0;
        while i < self.providers.len()
            invariant
                i <= self.providers@.len(),
                out@.len() == i,
                forall|k: int| 0 <= k < i ==> #[trigger] out@[k]@ == self.providers@[k].display_name_of(),
            decreases self.providers@.len() - i,
        {
            out.push(self.providers[i].display_name());
            i = i + 1;
        }
        out
    }

    /// The provider the user picked, by the name shown.
    pub fn provider_by_display_name(&self, selection: &str) -> (r: Result<usize, String>)
        ensures
            match provider_displayed(self.providers@, selection@, 0) {
                Some(i) => r matches Ok(k) && k == i,
                None => r matches Err(m) && m@ == "Provider not found"@,
            },
    {
        let mut i: usize = 0;
        while i < self.providers.len()
            invariant
                i <= self.providers@.len(),
                provider_displayed(self.providers@, selection@, 0) == provider_displayed(self.providers@, selection@, i as nat),
            decreases self.providers@.len() - i,
        {
            let d = self.providers[i].display_name();
            if str_eq(d.as_str(), selection) {
                return Ok(i);
            }
            i = i + 1;
        }
        Err(String::from_str("Provider not found"))
    }

    /// Whether a command uses every provider (when all were asked for and
    /// there are some) or a single one.
    pub fn providers_scope(&self) -> (r: ProviderScope)
        ensures
            r == (if self.all_providers && self.providers@.len() > 0 { ProviderScope::All } else { ProviderScope::Single }),
    {
        if self.all_providers && self.providers.len() > 0 { ProviderScope::All } else { ProviderScope::Single }
    }

    /// The providers a search uses: the named one, the only one, else all.
    pub fn search_scope(&self) -> (r: Result<ProviderScope, String>)
        ensures
            self.selected_provider is Some ==> r == Ok::<ProviderScope, String>(ProviderScope::Single),
            self.selected_provider is None && self.providers@.len() == 1 ==> r == Ok::<ProviderScope, String>(ProviderScope::Single),
            self.selected_provider is None && self.providers@.len() > 1 ==> r == Ok::<ProviderScope, String>(ProviderScope::All),
            self.selected_provider is None && self.providers@.len() == 0 ==> (r matches Err(m) && m@ == "No providers configured"@),
    {
        if self.selected_provider.is_some() {
            Ok(ProviderScope::Single)
        } else if self.providers.len() == 1 {
            Ok(ProviderScope::Single)
        } else if self.providers.len() > 0 {
            Ok(ProviderScope::All)
        } else {
            Err(String::from_str("No providers configured"))
        }
    }
}

} // verus!
