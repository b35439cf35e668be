//! The `search` command: which content is searched, what matches, and how
//! results are written.
use vstd::prelude::*;
use crate::cli::{ContentType, OutputFormat};
use crate::text::{concat2, concat3, decimal, has_substring, lowercase, lowercase_contains, to_lowercase, u64_to_string};
use crate::xtream_api::{SeriesInfo, Stream};

verus! {

/// Search the providers for content whose name contains a text.
#[derive(Debug)]
pub struct SearchCommand {
    pub query: String,
    pub content_type: Option<ContentType>,
    pub format: OutputFormat,
}

/// One search hit.
#[derive(Debug)]
pub struct SearchResult {
    pub id: u32,
    pub name: String,
    pub kind: ContentType,
    pub provider: String,
}

/// The content types searched: the one asked for, else all three.
pub open spec fn search_types_of(ct: Option<ContentType>) -> Seq<ContentType> {
    match ct {
        Some(t) => seq![t],
        None => seq![ContentType::Live, ContentType::Movie, ContentType::Series],
    }
}

/// The (id, name) pairs among `items` whose lowercase name contains `q`.
pub open spec fn search_hits(items: Seq<(u32, Seq<char>)>, q: Seq<char>) -> Seq<(u32, Seq<char>)>
    decreases items.len(),
{
    if items.len() == 0 {
        seq![]
    } else {
        let rest = search_hits(items.drop_last(), q);
        if has_substring(lowercase(items.last().1), q) { rest.push(items.last()) } else { rest }
    }
}

/// The (id, name) pairs of streams.
pub open spec fn stream_keys(streams: Seq<Stream>) -> Seq<(u32, Seq<char>)> {
    streams.map_values(|s: Stream| (s.stream_id, s.name@))
}

/// The (id, name) pairs of series.
pub open spec fn series_keys(series: Seq<SeriesInfo>) -> Seq<(u32, Seq<char>)> {
    series.map_values(|s: SeriesInfo| (s.series_id, s.name@))
}

/// The results are the hits, of one type and provider.
pub open spec fn results_are(r: Seq<SearchResult>, hits: Seq<(u32, Seq<char>)>, kind: ContentType, provider: Seq<char>) -> bool {
    &&& r.len() == hits.len()
    &&& forall|i: int| 0 <= i < r.len() ==> {
        &&& (#[trigger] r[i]).id == hits[i].0
        &&& r[i].name@ == hits[i].1
        &&& r[i].kind == kind
        &&& r[i].provider@ == provider
    }
}

/// The text line of a result: `[type] name (id)`, then ` - provider` when
/// the provider is named.
pub open spec fn result_line_of(r: SearchResult) -> Seq<char> {
    let base = "["@ + r.kind.name_of() + "] "@ + r.name@ + " ("@ + decimal(r.id as nat) + ")"@;
    if r.provider@.len() == 0 { base } else { base + " - "@ + r.provider@ }
}

/// The M3U lines of a result.
pub open spec fn result_m3u_of(r: SearchResult) -> Seq<Seq<char>> {
    seq![
        "#EXTINF:-1,"@ + r.name@,
        "#EXTVLCOPT:type="@ + r.kind.name_of(),
        "#EXTVLCOPT:id="@ + decimal(r.id as nat),
        "http://placeholder/"@ + r.kind.name_of() + "/"@ + decimal(r.id as nat),
    ]
}

impl SearchCommand {
    /// The content types searched.
    pub fn search_types(&self) -> (r: Vec<ContentType>)
        ensures
            r@ == search_types_of(self.content_type),
    {
        let mut v: Vec<ContentType> = Vec::new();
        match self.content_type {
            Some(t) => {
                v.push(t);
            },
            None => {
                v.push(ContentType::Live);
                v.push(ContentType::Movie);
                v.push(ContentType::Series);
            },
        }
        assert(v@ =~= search_types_of(self.content_type));
        v
    }

    /// The query in lowercase.
    pub fn query_lower(&self) -> (r: String)
        ensures
            r@ == lowercase(self.query@),
    {
        to_lowercase(self.query.as_str())
    }

    /// The message when nothing matched.
    pub fn no_results_message(&self) -> (r: String)
        ensures
            r@ == "No results found for '"@ + self.query@ + "'"@,
    {
        concat3("No results found for '", self.query.as_str(), "'")
    }
}

/// The streams whose lowercase name contains `query_lower`, as results.
pub fn search_streams(streams: &Vec<Stream>, query_lower: &str, kind: ContentType, provider: &str) -> (r: Vec<SearchResult>)
    ensures
        results_are(r@, search_hits(stream_keys(streams@), query_lower@), kind, provider@),
{
    let mut out: Vec<SearchResult> = Vec::new();
    let mut i: usize = 0;
    while i < streams.len()
        invariant
            i <= streams@.len(),
            results_are(out@, search_hits(stream_keys(streams@.subrange(0, i as int)), query_lower@), kind, provider@),
        decreases streams@.len() - i,
    {
        assert(stream_keys(streams@.subrange(0, i + 1)).drop_last() =~= stream_keys(streams@.subrange(0, i as int)));
        if lowercase_contains(streams[i].name.as_str(), query_lower) {
            out.push(SearchResult { id: streams[i].stream_id, name: streams[i].name.clone(), kind, provider: provider.to_owned() });
        }
        i = i + 1;
    }
    assert(streams@.subrange(0, streams@.len() as int) =~= streams@);
    out
}

/// The series whose lowercase name contains `query_lower`, as results.
pub fn search_series(series: &Vec<SeriesInfo>, query_lower: &str, provider: &str) -> (r: Vec<SearchResult>)
    ensures
        results_are(r@, search_hits(series_keys(series@), query_lower@), ContentType::Series, provider@),
{
    let mut out: Vec<SearchResult> = Vec::new();
    let mut i: usize = 0;
    while i < series.len()
        invariant
            i <= series@.len(),
            results_are(out@, search_hits(series_keys(series@.subrange(0, i as int)), query_lower@), ContentType::Series, provider@),
        decreases series@.len() - i,
    {
        assert(series_keys(series@.subrange(0, i + 1)).drop_last() =~= series_keys(series@.subrange(0, i as int)));
        if lowercase_contains(series[i].name.as_str(), query_lower) {
            out.push(SearchResult { id: series[i].series_id, name: series[i].name.clone(), kind: ContentType::Series, provider: provider.to_owned() });
        }
        i = i + 1;
    }
    assert(series@.subrange(0, series@.len() as int) =~= series@);
    out
}

/// The text line of a result.
pub fn result_line(r: &SearchResult) -> (s: String)
    ensures
        s@ == result_line_of(*r),
{
    let id = u64_to_string(r.id as u64);
    let a = concat3("[", r.kind.as_str(), "] ");
    let b = concat3(a.as_str(), r.name.as_str(), " (");
    let base = concat3(b.as_str(), id.as_str(), ")");
    if r.provider.unicode_len() == 0 {
        base
    } else {
        concat3(base.as_str(), " - ", r.provider.as_str())
    }
}

/// The M3U lines of a result (the URL is a placeholder).
pub fn result_m3u(r: &SearchResult) -> (v: Vec<String>)
    ensures
        v@.len() == 4,
        forall|i: int| 0 <= i < 4 ==> #[trigger] v@[i]@ == result_m3u_of(*r)[i],
{
    let id = u64_to_string(r.id as u64);
    let mut v: Vec<String> = Vec::new();
    v.push(concat2("#EXTINF:-1,", r.name.as_str()));
    v.push(concat2("#EXTVLCOPT:type=", r.kind.as_str()));
    v.push(concat2("#EXTVLCOPT:id=", id.as_str()));
    let a = concat3("http://placeholder/", r.kind.as_str(), "/");
    v.push(concat2(a.as_str(), id.as_str()));
    v
}

} // verus!
