//! Xtream Codes API model: the records that a provider returns, the rules
//! that read loosely typed JSON fields, and the URLs the client builds.
use vstd::prelude::*;

use crate::cache::CacheManager;
use crate::cache::provider_hash_of;
use crate::text::{concat2, concat3, u64_to_string, decimal, str_eq, trim, trimmed};
use vstd::utf8::valid_utf8;
use vstd::utf8::decode_utf8;
use vstd::utf8::is_char_boundary;
use vstd::string::StringSliceAdditionalSpecFns;
use crate::text::chars_of;
use crate::text::string_from_chars;

verus! {

/// A loosely typed JSON field as the deserializers see it: only what the
/// field rules read is kept. Array elements are `Some(text)` for strings and
/// `None` for any other JSON value; `Number` holds the number's text.
pub enum RawField {
    Null,
    Str(String),
    Number(String),
    Array(Vec<Option<String>>),
    Other,
}

/// Why a loosely typed field was rejected.
#[derive(Debug, Clone, Copy, PartialEq, Eq)]
pub enum FieldError {
    ExpectedStringOrArray,
    ExpectedStringOrNumber,
    ExpectedStringNumberOrNull,
}

impl FieldError {
    /// The message the deserializer reports.
    pub fn message(&self) -> (r: &'static str)
        ensures
            r@ == (match *self {
                FieldError::ExpectedStringOrArray => "Expected string or array"@,
                FieldError::ExpectedStringOrNumber => "Expected string or number"@,
                FieldError::ExpectedStringNumberOrNull => "Expected string, number, or null"@,
            }),
    {
        match self {
            FieldError::ExpectedStringOrArray => "Expected string or array",
            FieldError::ExpectedStringOrNumber => "Expected string or number",
            FieldError::ExpectedStringNumberOrNull => "Expected string, number, or null",
        }
    }
}

/// The strings of an array field, in order, skipping every non-string element.
pub open spec fn strings_of(elems: Seq<Option<String>>) -> Seq<Seq<char>>
    decreases elems.len(),
{
    if elems.len() == 0 {
        seq![]
    } else {
        let rest = strings_of(elems.drop_last());
        match elems.last() {
            Some(s) => rest.push(s@),
            None => rest,
        }
    }
}

/// Views of a vector of strings.
pub open spec fn views(v: Seq<String>) -> Seq<Seq<char>> {
    v.map_values(|s: String| s@)
}

/// A field that may hold one string or a list of strings: an array keeps its
/// string elements (`None` when none remain), a string gives a one-element
/// list (`None` when empty), null gives `None`, and anything else is an error.
pub fn string_or_vec(value: RawField) -> (r: Result<Option<Vec<String>>, FieldError>)
    ensures
        match value {
            RawField::Array(elems) => {
                let strs = strings_of(elems@);
                &&& r is Ok
                &&& (strs.len() == 0 ==> r->Ok_0 is None)
                &&& (strs.len() > 0 ==> r->Ok_0 is Some && views(r->Ok_0->Some_0@) == strs)
            },
            RawField::Str(s) => {
                &&& r is Ok
                &&& (s@.len() == 0 ==> r->Ok_0 is None)
                &&& (s@.len() > 0 ==> r->Ok_0 is Some && views(r->Ok_0->Some_0@) == seq![s@])
            },
            RawField::Null => r == Ok::<Option<Vec<String>>, FieldError>(None),
            _ => r == Err::<Option<Vec<String>>, FieldError>(FieldError::ExpectedStringOrArray),
        },
{
    match value {
        RawField::Array(elems) => {
            let mut out: Vec<String> = Vec::new();
            let mut i: usize = 0;
            while i < elems.len()
                invariant
                    i <= elems@.len(),
                    views(out@) == strings_of(elems@.subrange(0, i as int)),
                decreases elems@.len() - i,
            {
                let ghost before = out@;
                match &elems[i] {
                    Some(s) => {
                        out.push(s.clone());
                    },
                    None => {},
                }
                assert(elems@.subrange(0, i + 1).drop_last() =~= elems@.subrange(0, i as int));
                i = i + 1;
                assert(views(out@) =~= strings_of(elems@.subrange(0, i as int)));
            }
            assert(elems@.subrange(0, elems@.len() as int) =~= elems@);
            if out.len() == 0 {
                Ok(None)
            } else {
                Ok(Some(out))
            }
        },
        RawField::Str(s) => {
            if s.unicode_len() == 0 {
                Ok(None)
            } else {
                let mut v: Vec<String> = Vec::new();
                v.push(s);
                assert(views(v@) =~= seq![v@[0]@]);
                Ok(Some(v))
            }
        },
        RawField::Null => Ok(None),
        _ => Err(FieldError::ExpectedStringOrArray),
    }
}

/// A field that holds a string or a number, kept as text.
pub fn number_as_string(value: RawField) -> (r: Result<String, FieldError>)
    ensures
        match value {
            RawField::Str(s) => r == Ok::<String, FieldError>(s),
            RawField::Number(n) => r == Ok::<String, FieldError>(n),
            _ => r == Err::<String, FieldError>(FieldError::ExpectedStringOrNumber),
        },
{
    match value {
        RawField::Str(s) => Ok(s),
        RawField::Number(n) => Ok(n),
        _ => Err(FieldError::ExpectedStringOrNumber),
    }
}

/// A field that holds a string, a number or null, kept as optional text.
pub fn optional_number_as_string(value: RawField) -> (r: Result<Option<String>, FieldError>)
    ensures
        match value {
            RawField::Null => r == Ok::<Option<String>, FieldError>(None),
            RawField::Str(s) => r == Ok::<Option<String>, FieldError>(Some(s)),
            RawField::Number(n) => r == Ok::<Option<String>, FieldError>(Some(n)),
            _ => r == Err::<Option<String>, FieldError>(FieldError::ExpectedStringNumberOrNull),
        },
{
    match value {
        RawField::Null => Ok(None),
        RawField::Str(s) => Ok(Some(s)),
        RawField::Number(n) => Ok(Some(n)),
        _ => Err(FieldError::ExpectedStringNumberOrNull),
    }
}


/// The answer to `get_user_info`.
#[derive(Debug, Clone)]
pub struct UserInfoResponse {
    pub user_info: UserInfo,
    pub server_info: ServerInfo,
}

/// Account information of the subscriber.
#[derive(Debug, Clone)]
pub struct UserInfo {
    pub username: String,
    pub password: String,
    pub message: String,
    pub auth: u8,
    pub status: String,
    pub exp_date: String,
    pub is_trial: String,
    pub active_cons: String,
    pub created_at: String,
    pub max_connections: String,
}

/// Server information that comes with the account information.
#[derive(Debug, Clone)]
pub struct ServerInfo {
    pub url: String,
    pub port: String,
    pub https_port: String,
    pub server_protocol: String,
    pub rtmp_port: String,
    pub timezone: String,
    pub timestamp_now: u64,
    pub time_now: String,
    pub process: bool,
}

/// A category of live channels, movies or series.
#[derive(Debug)]
pub struct Category {
    pub category_id: String,
    pub category_name: String,
    pub parent_id: Option<u32>,
}

impl Clone for Category {
    fn clone(&self) -> (r: Self)
        ensures
            r == *self,
    {
        Category {
            category_id: self.category_id.clone(),
            category_name: self.category_name.clone(),
            parent_id: self.parent_id,
        }
    }
}

impl Category {
    /// The pseudo-category that stands for every item of a content type.
    pub fn all() -> (r: Category)
        ensures
            r.category_id@ == "all"@,
            r.category_name@ == "All"@,
            r.parent_id is None,
    {
        Category {
            category_id: String::from_str("all"),
            category_name: String::from_str("All"),
            parent_id: None,
        }
    }
}

/// A live channel, a movie or (in the TUI) a series. Fields that hold
/// arbitrary JSON in the provider's answer (`epg_channel_id`, `tv_archive`,
/// `tv_archive_duration`, `is_adult`, `rating`, `rating_5based`) keep that
/// JSON as text.
#[derive(Debug)]
pub struct Stream {
    pub num: u32,
    pub name: String,
    pub stream_type: String,
    pub stream_id: u32,
    pub stream_icon: Option<String>,
    pub epg_channel_id: Option<String>,
    pub added: Option<String>,
    pub category_id: Option<String>,
    pub category_ids: Option<Vec<u32>>,
    pub custom_sid: Option<String>,
    pub tv_archive: Option<String>,
    pub direct_source: Option<String>,
    pub tv_archive_duration: Option<String>,
    pub is_adult: Option<String>,
    pub rating: Option<String>,
    pub rating_5based: Option<String>,
    pub container_extension: Option<String>,
}

impl Clone for Stream {
    fn clone(&self) -> (r: Self)
        ensures
            r.same_as(*self),
    {
        Stream {
            num: self.num,
            name: self.name.clone(),
            stream_type: self.stream_type.clone(),
            stream_id: self.stream_id,
            stream_icon: self.stream_icon.clone(),
            epg_channel_id: self.epg_channel_id.clone(),
            added: self.added.clone(),
            category_id: self.category_id.clone(),
            category_ids: self.category_ids.clone(),
            custom_sid: self.custom_sid.clone(),
            tv_archive: self.tv_archive.clone(),
            direct_source: self.direct_source.clone(),
            tv_archive_duration: self.tv_archive_duration.clone(),
            is_adult: self.is_adult.clone(),
            rating: self.rating.clone(),
            rating_5based: self.rating_5based.clone(),
            container_extension: self.container_extension.clone(),
        }
    }
}

/// Views of an optional list of integers.
pub open spec fn opt_vec_view(v: Option<Vec<u32>>) -> Option<Seq<u32>> {
    match v {
        Some(x) => Some(x@),
        None => None,
    }
}

impl Stream {
    /// Two streams hold the same values (list fields compared by contents).
    pub open spec fn same_as(self, o: Stream) -> bool {
        &&& self.num == o.num
        &&& self.name == o.name
        &&& self.stream_type == o.stream_type
        &&& self.stream_id == o.stream_id
        &&& self.stream_icon == o.stream_icon
        &&& self.epg_channel_id == o.epg_channel_id
        &&& self.added == o.added
        &&& self.category_id == o.category_id
        &&& opt_vec_view(self.category_ids) == opt_vec_view(o.category_ids)
        &&& self.custom_sid == o.custom_sid
        &&& self.tv_archive == o.tv_archive
        &&& self.direct_source == o.direct_source
        &&& self.tv_archive_duration == o.tv_archive_duration
        &&& self.is_adult == o.is_adult
        &&& self.rating == o.rating
        &&& self.rating_5based == o.rating_5based
        &&& self.container_extension == o.container_extension
    }
}

/// A stream the user marked as favourite. `added_date` is the RFC 3339 text
/// of the moment it was added.
#[derive(Debug)]
pub struct FavouriteStream {
    pub stream_id: u32,
    pub name: String,
    pub stream_type: String,
    pub provider_hash: String,
    pub added_date: String,
    pub category_id: Option<String>,
}

impl Clone for FavouriteStream {
    fn clone(&self) -> (r: Self)
        ensures
            r == *self,
    {
        FavouriteStream {
            stream_id: self.stream_id,
            name: self.name.clone(),
            stream_type: self.stream_type.clone(),
            provider_hash: self.provider_hash.clone(),
            added_date: self.added_date.clone(),
            category_id: self.category_id.clone(),
        }
    }
}

/// The answer to `get_vod_info`.
#[derive(Debug, Clone)]
pub struct VodInfoResponse {
    pub info: VodInfo,
    pub movie_data: MovieData,
}

/// Descriptive information of a movie; `duration_secs` keeps its JSON text.
#[derive(Debug, Clone)]
pub struct VodInfo {
    pub movie_image: Option<String>,
    pub name: String,
    pub tmdb_id: Option<String>,
    pub backdrop: Option<String>,
    pub youtube_trailer: Option<String>,
    pub genre: Option<String>,
    pub plot: Option<String>,
    pub cast: Option<String>,
    pub rating: Option<String>,
    pub director: Option<String>,
    pub releasedate: Option<String>,
    pub backdrop_path: Option<Vec<String>>,
    pub duration_secs: Option<String>,
    pub duration: Option<String>,
}

/// Playback data of a movie.
#[derive(Debug, Clone)]
pub struct MovieData {
    pub stream_id: u32,
    pub name: String,
    pub added: Option<String>,
    pub category_id: Option<String>,
    pub container_extension: String,
    pub custom_sid: Option<String>,
    pub direct_source: Option<String>,
}

/// A series as listed by `get_series`; JSON-valued fields keep their text.
#[derive(Debug, Clone)]
pub struct SeriesInfo {
    pub num: u32,
    pub name: String,
    pub series_id: u32,
    pub cover: Option<String>,
    pub plot: Option<String>,
    pub cast: Option<String>,
    pub director: Option<String>,
    pub genre: Option<String>,
    pub release_date: Option<String>,
    pub last_modified: Option<String>,
    pub rating: Option<String>,
    pub rating_5based: Option<String>,
    pub backdrop_path: Option<Vec<String>>,
    pub youtube_trailer: Option<String>,
    pub episode_run_time: Option<String>,
    pub category_id: Option<String>,
    pub category_ids: Option<Vec<u32>>,
    pub added: Option<String>,
    pub is_adult: Option<String>,
    pub stream_type: Option<String>,
    pub stream_icon: Option<String>,
    pub epg_channel_id: Option<String>,
    pub custom_sid: Option<String>,
    pub tv_archive: Option<String>,
    pub direct_source: Option<String>,
    pub tv_archive_duration: Option<String>,
    pub stream_id: Option<u32>,
    pub tmdb: Option<String>,
}

/// The series record inside a `get_series_info` answer.
#[derive(Debug, Clone)]
pub struct SeriesDetailInfo {
    pub name: String,
    pub cover: Option<String>,
    pub plot: Option<String>,
    pub cast: Option<String>,
    pub director: Option<String>,
    pub genre: Option<String>,
    pub release_date: Option<String>,
    pub last_modified: Option<String>,
    pub rating: Option<String>,
    pub rating_5based: Option<String>,
    pub backdrop_path: Option<Vec<String>>,
    pub youtube_trailer: Option<String>,
    pub episode_run_time: Option<String>,
    pub category_id: Option<String>,
}

/// An episode of a season.
#[derive(Debug, Clone)]
pub struct Episode {
    pub id: String,
    pub episode_num: u32,
    pub title: String,
    pub container_extension: Option<String>,
    pub info: Option<EpisodeInfo>,
    pub custom_sid: Option<String>,
    pub added: Option<String>,
    pub season: u32,
    pub direct_source: Option<String>,
}

/// Descriptive information of an episode.
#[derive(Debug)]
pub struct EpisodeInfo {
    pub tmdb_id: Option<u32>,
    pub releasedate: Option<String>,
    pub plot: Option<String>,
    pub duration_secs: Option<u32>,
    pub duration: Option<String>,
    pub movie_image: Option<String>,
    pub rating: Option<String>,
}

impl Clone for EpisodeInfo {
    fn clone(&self) -> (r: Self)
        ensures
            r == *self,
    {
        EpisodeInfo {
            tmdb_id: self.tmdb_id,
            releasedate: self.releasedate.clone(),
            plot: self.plot.clone(),
            duration_secs: self.duration_secs,
            duration: self.duration.clone(),
            movie_image: self.movie_image.clone(),
            rating: self.rating.clone(),
        }
    }
}

/// The answer to `get_series_info`: episodes are grouped by the season key
/// (the season number as text), in the order the provider sent them.
#[derive(Debug, Clone)]
pub struct SeriesInfoResponse {
    pub info: Option<SeriesDetailInfo>,
    pub seasons: Vec<ApiSeason>,
    pub episodes: Option<Vec<(String, Vec<ApiEpisode>)>>,
}

/// A season as described by `get_series_info`.
#[derive(Debug, Clone)]
pub struct ApiSeason {
    pub name: String,
    pub episode_count: String,
    pub overview: Option<String>,
    pub air_date: Option<String>,
    pub cover: Option<String>,
    pub cover_tmdb: Option<String>,
    pub season_number: u32,
    pub cover_big: Option<String>,
    pub release_date: Option<String>,
    pub duration: Option<String>,
}

/// An episode as sent by `get_series_info`.
#[derive(Debug)]
pub struct ApiEpisode {
    pub id: String,
    pub episode_num: u32,
    pub title: String,
    pub container_extension: Option<String>,
    pub info: Option<EpisodeInfo>,
    pub custom_sid: Option<String>,
    pub added: Option<String>,
    pub season: u32,
    pub direct_source: Option<String>,
}

impl Clone for ApiEpisode {
    fn clone(&self) -> (r: Self)
        ensures
            r == *self,
    {
        ApiEpisode {
            id: self.id.clone(),
            episode_num: self.episode_num,
            title: self.title.clone(),
            container_extension: self.container_extension.clone(),
            info: self.info.clone(),
            custom_sid: self.custom_sid.clone(),
            added: self.added.clone(),
            season: self.season,
            direct_source: self.direct_source.clone(),
        }
    }
}

/// A season with its episodes.
#[derive(Debug, Clone)]
pub struct Season {
    pub season_number: u32,
    pub name: Option<String>,
    pub episodes: Vec<Episode>,
}


/// The scheme, host and explicit port of a URL as `url::Url::parse` reads
/// them (`None` when the text is not a URL).
pub uninterp spec fn url_parts(s: Seq<char>) -> Option<(Seq<char>, Option<Seq<char>>, Option<u16>)>;

/// Views of an optional string.
pub open spec fn opt_str_view(o: Option<String>) -> Option<Seq<char>> {
    match o {
        Some(s) => Some(s@),
        None => None,
    }
}

/// Calls `url::Url::parse` and reads `scheme()`, `host_str()` and `port()`
/// of the result; the result is the named parts of the argument.
#[verifier::external_body]
pub(crate) fn parse_url(s: &str) -> (r: Option<(String, Option<String>, Option<u16>)>)
    ensures
        match r {
            Some(p) => url_parts(s@) == Some((p.0@, opt_str_view(p.1), p.2)),
            None => url_parts(s@) is None,
        },
{
    match url::Url::parse(s) {
        Ok(u) => {
            let host = match u.host_str() {
                Some(h) => Some(h.to_string()),
                None => None,
            };
            Some((u.scheme().to_string(), host, u.port()))
        },
        Err(_) => None,
    }
}

/// Why a provider could not be set up.
#[derive(Debug, Clone, Copy, PartialEq, Eq, Structural)]
pub enum ApiError {
    InvalidServerUrl,
}

impl ApiError {
    /// The message reported.
    pub fn message(&self) -> (r: &'static str)
        ensures
            r@ == "Invalid server URL"@,
    {
        match self {
            ApiError::InvalidServerUrl => "Invalid server URL",
        }
    }
}

/// The base URL built from parsed parts: `scheme://host` with `:port` when
/// the URL names one; a URL without host uses `localhost`.
pub open spec fn base_url_of_parts(p: (Seq<char>, Option<Seq<char>>, Option<u16>)) -> Seq<char> {
    let host = match p.1 {
        Some(h) => h,
        None => "localhost"@,
    };
    match p.2 {
        Some(port) => p.0 + "://"@ + host + ":"@ + decimal(port as nat),
        None => p.0 + "://"@ + host,
    }
}

/// The kind of path segment a stream URL uses for a stream type: `live`,
/// `movie` and `series` as given, any other type as `live`.
pub open spec fn stream_path_kind(stream_type: Seq<char>) -> Seq<char> {
    if stream_type == "movie"@ {
        "movie"@
    } else if stream_type == "series"@ {
        "series"@
    } else {
        "live"@
    }
}

/// The extension used when none is given.
pub open spec fn ext_or_default(extension: Option<Seq<char>>) -> Seq<char> {
    match extension {
        Some(e) => e,
        None => "m3u8"@,
    }
}

/// Views of an optional string slice.
pub open spec fn opt_view(o: Option<&str>) -> Option<Seq<char>> {
    match o {
        Some(s) => Some(s@),
        None => None,
    }
}

/// A stream belongs to a category when its category id equals it.
pub open spec fn in_category(cat_id: Option<String>, cat: Seq<char>) -> bool {
    match cat_id {
        Some(c) => c@ == cat,
        None => false,
    }
}

/// The streams of a category, in order (all of them when no category is given).
pub open spec fn streams_in_category(streams: Seq<Stream>, cat: Option<Seq<char>>) -> Seq<Stream>
    decreases streams.len(),
{
    match cat {
        None => streams,
        Some(c) => if streams.len() == 0 {
            seq![]
        } else {
            let rest = streams_in_category(streams.drop_last(), cat);
            if in_category(streams.last().category_id, c) {
                rest.push(streams.last())
            } else {
                rest
            }
        },
    }
}

/// The series of a category, in order (all of them when no category is given).
pub open spec fn series_in_category(series: Seq<SeriesInfo>, cat: Option<Seq<char>>) -> Seq<SeriesInfo>
    decreases series.len(),
{
    match cat {
        None => series,
        Some(c) => if series.len() == 0 {
            seq![]
        } else {
            let rest = series_in_category(series.drop_last(), cat);
            if in_category(series.last().category_id, c) {
                rest.push(series.last())
            } else {
                rest
            }
        },
    }
}

fn has_category(cat_id: &Option<String>, cat: &str) -> (r: bool)
    ensures
        r == in_category(*cat_id, cat@),
{
    match cat_id {
        Some(c) => str_eq(c.as_str(), cat),
        None => false,
    }
}

/// Keeps the streams of the category (all of them for `None`), in order.
pub fn filter_streams_by_category(streams: Vec<Stream>, category_id: Option<&str>) -> (r: Vec<Stream>)
    ensures
        r@ == streams_in_category(streams@, opt_view(category_id)),
{
    match category_id {
        None => streams,
        Some(cat) => {
            let mut out: Vec<Stream> = Vec::new();
            let mut src = streams;
            let ghost orig = src@;
            let ghost n = orig.len();
            let mut rest: Vec<Stream> = Vec::new();
            while src.len() > 0
                invariant
                    src@.len() + rest@.len() == n,
                    n == orig.len(),
                    src@ == orig.subrange(0, src@.len() as int),
                    rest@ == orig.subrange(src@.len() as int, n as int).reverse(),
                decreases src@.len(),
            {
                let s = src.pop().unwrap();
                rest.push(s);
                assert(rest@ =~= orig.subrange(src@.len() as int, n as int).reverse());
            }
            assert(rest@ =~= orig.subrange(n - rest@.len(), n as int).reverse());
            while rest.len() > 0
                invariant
                    rest@.len() <= n,
                    n == orig.len(),
                    rest@ == orig.subrange(n - rest@.len(), n as int).reverse(),
                    out@ == streams_in_category(orig.subrange(0, n - rest@.len()), Some(cat@)),
                decreases rest@.len(),
            {
                let ghost k = n - rest@.len();
                let s = rest.pop().unwrap();
                assert(s == orig[k]);
                if has_category(&s.category_id, cat) {
                    out.push(s);
                }
                assert(orig.subrange(0, k + 1).drop_last() =~= orig.subrange(0, k));
                assert(rest@ =~= orig.subrange(n - rest@.len(), n as int).reverse());
            }
            assert(orig.subrange(0, n as int) =~= orig);
            out
        },
    }
}

/// Keeps the series of the category (all of them for `None`), in order.
pub fn filter_series_by_category(series: Vec<SeriesInfo>, category_id: Option<&str>) -> (r: Vec<SeriesInfo>)
    ensures
        r@ == series_in_category(series@, opt_view(category_id)),
{
    match category_id {
        None => series,
        Some(cat) => {
            let mut out: Vec<SeriesInfo> = Vec::new();
            let mut src = series;
            let ghost orig = src@;
            let ghost n = orig.len();
            let mut rest: Vec<SeriesInfo> = Vec::new();
            while src.len() > 0
                invariant
                    src@.len() + rest@.len() == n,
                    n == orig.len(),
                    src@ == orig.subrange(0, src@.len() as int),
                    rest@ == orig.subrange(src@.len() as int, n as int).reverse(),
                decreases src@.len(),
            {
                let s = src.pop().unwrap();
                rest.push(s);
                assert(rest@ =~= orig.subrange(src@.len() as int, n as int).reverse());
            }
            assert(rest@ =~= orig.subrange(n - rest@.len(), n as int).reverse());
            while rest.len() > 0
                invariant
                    rest@.len() <= n,
                    n == orig.len(),
                    rest@ == orig.subrange(n - rest@.len(), n as int).reverse(),
                    out@ == series_in_category(orig.subrange(0, n - rest@.len()), Some(cat@)),
                decreases rest@.len(),
            {
                let ghost k = n - rest@.len();
                let s = rest.pop().unwrap();
                assert(s == orig[k]);
                if has_category(&s.category_id, cat) {
                    out.push(s);
                }
                assert(orig.subrange(0, k + 1).drop_last() =~= orig.subrange(0, k));
                assert(rest@ =~= orig.subrange(n - rest@.len(), n as int).reverse());
            }
            assert(orig.subrange(0, n as int) =~= orig);
            out
        },
    }
}


/// Connection details of one provider and the URLs built from them. The
/// HTTP client, the cache files and the favourites files are the caller's.
#[derive(Debug)]
pub struct XTreamAPI {
    pub base_url: String,
    pub username: String,
    pub password: String,
    pub provider_name: Option<String>,
    pub provider_hash: String,
    pub show_progress: bool,
}

/// `<base>/<kind>/<user>/<password>/<id>.<ext>`.
pub open spec fn media_url(base: Seq<char>, kind: Seq<char>, user: Seq<char>, pass: Seq<char>, id: Seq<char>, ext: Seq<char>) -> Seq<char> {
    base + "/"@ + kind + "/"@ + user + "/"@ + pass + "/"@ + id + "."@ + ext
}

fn build_media_url(base: &str, kind: &str, user: &str, pass: &str, id: &str, ext: &str) -> (r: String)
    ensures
        r@ == media_url(base@, kind@, user@, pass@, id@, ext@),
{
    let mut r = base.to_owned();
    r.append("/");
    r.append(kind);
    r.append("/");
    r.append(user);
    r.append("/");
    r.append(pass);
    r.append("/");
    r.append(id);
    r.append(".");
    r.append(ext);
    r
}

/// The player API query URL of an action, with the category when given.
pub open spec fn api_request_url(base: Seq<char>, user: Seq<char>, pass: Seq<char>, action: Seq<char>, category: Option<Seq<char>>) -> Seq<char> {
    let u = base + "/player_api.php?username="@ + user + "&password="@ + pass + "&action="@ + action;
    match category {
        Some(c) => u + "&category_id="@ + c,
        None => u,
    }
}

impl XTreamAPI {
    /// The base URL of a server URL: scheme, host and explicit port only.
    pub fn base_url_from(server_url: &str) -> (r: Result<String, ApiError>)
        ensures
            match url_parts(server_url@) {
                Some(p) => r matches Ok(b) && b@ == base_url_of_parts(p),
                None => r == Err::<String, ApiError>(ApiError::InvalidServerUrl),
            },
    {
        match parse_url(server_url) {
            None => Err(ApiError::InvalidServerUrl),
            Some((scheme, host, port)) => {
                let h = match host {
                    Some(h) => h,
                    None => String::from_str("localhost"),
                };
                let a = concat3(scheme.as_str(), "://", h.as_str());
                match port {
                    Some(p) => {
                        let ps = u64_to_string(p as u64);
                        Ok(concat3(a.as_str(), ":", ps.as_str()))
                    },
                    None => Ok(a),
                }
            },
        }
    }

    /// Sets up a provider: the base URL of `server_url` and its hash from
    /// the cache index (added there when new; the flag tells whether the
    /// index changed and must be saved). Progress display starts on.
    pub fn new(
        server_url: String,
        username: String,
        password: String,
        provider_name: Option<String>,
        cache_manager: &mut CacheManager,
    ) -> (r: Result<(XTreamAPI, bool), ApiError>)
        requires
            old(cache_manager).wf(),
        ensures
            final(cache_manager).wf(),
            final(cache_manager).dir() == old(cache_manager).dir(),
            url_parts(server_url@) is None ==> r == Err::<(XTreamAPI, bool), ApiError>(ApiError::InvalidServerUrl)
                && final(cache_manager).index() == old(cache_manager).index(),
            url_parts(server_url@) matches Some(p) ==> r matches Ok((api, added)) && {
                let b = base_url_of_parts(p);
                &&& api.base_url@ == b
                &&& api.username == username
                &&& api.password == password
                &&& api.provider_name == provider_name
                &&& api.show_progress
                &&& (old(cache_manager).index().contains_key(b) ==> {
                    &&& api.provider_hash@ == old(cache_manager).index()[b]
                    &&& !added
                    &&& final(cache_manager).index() == old(cache_manager).index()
                })
                &&& (!old(cache_manager).index().contains_key(b) ==> {
                    &&& api.provider_hash@ == provider_hash_of(b)
                    &&& added
                    &&& final(cache_manager).index() == old(cache_manager).index().insert(b, api.provider_hash@)
                })
            },
    {
        let base_url = match Self::base_url_from(server_url.as_str()) {
            Ok(b) => b,
            Err(e) => return Err(e),
        };
        let (provider_hash, added) = cache_manager.get_provider_hash(base_url.as_str());
        Ok((XTreamAPI { base_url, username, password, provider_name, provider_hash, show_progress: true }, added))
    }

    /// Turns the progress display off.
    pub fn disable_progress(&mut self)
        ensures
            !final(self).show_progress,
            final(self).base_url == old(self).base_url,
            final(self).username == old(self).username,
            final(self).password == old(self).password,
            final(self).provider_name == old(self).provider_name,
            final(self).provider_hash == old(self).provider_hash,
    {
        self.show_progress = false;
    }

    /// Turns the progress display on.
    pub fn enable_progress(&mut self)
        ensures
            final(self).show_progress,
            final(self).base_url == old(self).base_url,
            final(self).username == old(self).username,
            final(self).password == old(self).password,
            final(self).provider_name == old(self).provider_name,
            final(self).provider_hash == old(self).provider_hash,
    {
        self.show_progress = true;
    }

    /// The URL of an episode: `<base>/series/<user>/<password>/<id>.<ext>`,
    /// `m3u8` when no extension is given.
    pub fn get_episode_stream_url(&self, episode_id: &str, extension: Option<&str>) -> (r: String)
        ensures
            r@ == media_url(self.base_url@, "series"@, self.username@, self.password@, episode_id@, ext_or_default(opt_view(extension))),
    {
        let ext = match extension {
            Some(e) => e,
            None => "m3u8",
        };
        build_media_url(self.base_url.as_str(), "series", self.username.as_str(), self.password.as_str(), episode_id, ext)
    }

    /// The URL of a stream: `<base>/<kind>/<user>/<password>/<id>.<ext>`,
    /// where the kind is `live`, `movie` or `series` after the stream type
    /// (`live` for any other type) and the extension defaults to `m3u8`.
    pub fn get_stream_url(&self, stream_id: u32, stream_type: &str, extension: Option<&str>) -> (r: String)
        ensures
            r@ == media_url(self.base_url@, stream_path_kind(stream_type@), self.username@, self.password@,
                decimal(stream_id as nat), ext_or_default(opt_view(extension))),
    {
        let ext = match extension {
            Some(e) => e,
            None => "m3u8",
        };
        let kind = if str_eq(stream_type, "movie") {
            "movie"
        } else if str_eq(stream_type, "series") {
            "series"
        } else {
            "live"
        };
        let id = u64_to_string(stream_id as u64);
        build_media_url(self.base_url.as_str(), kind, self.username.as_str(), self.password.as_str(), id.as_str(), ext)
    }

    /// The query URL of a player API action (`get_live_streams` and so on),
    /// with `&category_id=` when a category is given.
    pub fn request_url(&self, action: &str, category_id: Option<&str>) -> (r: String)
        ensures
            r@ == api_request_url(self.base_url@, self.username@, self.password@, action@, opt_view(category_id)),
    {
        let mut u = self.base_url.clone();
        u.append("/player_api.php?username=");
        u.append(self.username.as_str());
        u.append("&password=");
        u.append(self.password.as_str());
        u.append("&action=");
        u.append(action);
        match category_id {
            Some(c) => {
                u.append("&category_id=");
                u.append(c);
            },
            None => {},
        }
        u
    }

    /// The query URL of `get_series_info` for a series.
    pub fn series_info_url(&self, series_id: u32) -> (r: String)
        ensures
            r@ == api_request_url(self.base_url@, self.username@, self.password@, "get_series_info"@, None)
                + "&series_id="@ + decimal(series_id as nat),
    {
        let mut u = self.request_url("get_series_info", None);
        u.append("&series_id=");
        let id = u64_to_string(series_id as u64);
        u.append(id.as_str());
        u
    }

    /// The query URL of `get_vod_info` for a movie.
    pub fn vod_info_url(&self, vod_id: u32) -> (r: String)
        ensures
            r@ == api_request_url(self.base_url@, self.username@, self.password@, "get_vod_info"@, None)
                + "&vod_id="@ + decimal(vod_id as nat),
    {
        let mut u = self.request_url("get_vod_info", None);
        u.append("&vod_id=");
        let id = u64_to_string(vod_id as u64);
        u.append(id.as_str());
        u
    }

    /// The name shown while refreshing: the provider name, else `provider`.
    pub fn provider_label(&self) -> (r: String)
        ensures
            r@ == match self.provider_name {
                Some(n) => n@,
                None => "provider"@,
            },
    {
        match &self.provider_name {
            Some(n) => n.clone(),
            None => String::from_str("provider"),
        }
    }
}

/// The readable description of a player API action: the known actions map
/// to a short phrase, any other action to itself.
pub open spec fn action_desc(action: Seq<char>) -> Seq<char> {
    if action == "get_live_categories"@ { "live categories"@ }
    else if action == "get_vod_categories"@ { "VOD categories"@ }
    else if action == "get_series_categories"@ { "series categories"@ }
    else if action == "get_live_streams"@ { "live streams"@ }
    else if action == "get_vod_streams"@ { "VOD streams"@ }
    else if action == "get_series"@ { "series"@ }
    else if action == "get_series_info"@ { "series info"@ }
    else if action == "get_vod_info"@ { "VOD info"@ }
    else if action == "get_user_info"@ { "user info"@ }
    else { action }
}

/// A readable description of a player API action.
pub fn action_description(action: &str) -> (r: String)
    ensures
        r@ == action_desc(action@),
{
    let d = if str_eq(action, "get_live_categories") {
        "live categories"
    } else if str_eq(action, "get_vod_categories") {
        "VOD categories"
    } else if str_eq(action, "get_series_categories") {
        "series categories"
    } else if str_eq(action, "get_live_streams") {
        "live streams"
    } else if str_eq(action, "get_vod_streams") {
        "VOD streams"
    } else if str_eq(action, "get_series") {
        "series"
    } else if str_eq(action, "get_series_info") {
        "series info"
    } else if str_eq(action, "get_vod_info") {
        "VOD info"
    } else if str_eq(action, "get_user_info") {
        "user info"
    } else {
        action
    };
    d.to_owned()
}

/// Why a player API response body could not be used.
#[derive(Debug, Clone, Copy, PartialEq, Eq, Structural)]
pub enum ResponseError {
    Empty,
    NotUtf8,
}

impl ResponseError {
    /// The message reported.
    pub fn message(&self) -> (r: &'static str)
        ensures
            r@ == (match *self {
                ResponseError::Empty => "Empty response from server"@,
                ResponseError::NotUtf8 => "Failed to convert response to UTF-8 string"@,
            }),
    {
        proof {
            reveal_strlit("Empty response from server");
            reveal_strlit("Failed to convert response to UTF-8 string");
        }
        match self {
            ResponseError::Empty => "Empty response from server",
            ResponseError::NotUtf8 => "Failed to convert response to UTF-8 string",
        }
    }
}

/// `String::from_utf8`: the bytes decoded as text; std documents that it
/// fails exactly when the bytes are not valid UTF-8.
#[verifier::external_body]
fn utf8_text(bytes: Vec<u8>) -> (r: Option<String>)
    ensures
        r is Some <==> valid_utf8(bytes@),
        r matches Some(t) ==> t@ == decode_utf8(bytes@),
{
    String::from_utf8(bytes).ok()
}

/// The text of a response body. An empty body, one that is not UTF-8, and
/// one that holds only white space are refused.
pub fn response_text(bytes: Vec<u8>) -> (r: Result<String, ResponseError>)
    ensures
        bytes@.len() == 0 ==> r == Err::<String, ResponseError>(ResponseError::Empty),
        bytes@.len() > 0 && !valid_utf8(bytes@) ==> r == Err::<String, ResponseError>(ResponseError::NotUtf8),
        bytes@.len() > 0 && valid_utf8(bytes@) && trimmed(decode_utf8(bytes@)).len() == 0
            ==> r == Err::<String, ResponseError>(ResponseError::Empty),
        bytes@.len() > 0 && valid_utf8(bytes@) && trimmed(decode_utf8(bytes@)).len() > 0
            ==> (r matches Ok(t) && t@ == decode_utf8(bytes@)),
{
    if bytes.len() == 0 {
        return Err(ResponseError::Empty);
    }
    match utf8_text(bytes) {
        None => Err(ResponseError::NotUtf8),
        Some(t) => {
            let core = trim(t.as_str());
            if core.as_str().is_empty() {
                Err(ResponseError::Empty)
            } else {
                Ok(t)
            }
        }
    }
}

/// The index of the first line feed in `b`, or its length when it has none.
pub open spec fn newline_at(b: Seq<u8>) -> nat
    decreases b.len(),
{
    if b.len() == 0 {
        0
    } else if b[0] == 10 {
        0
    } else {
        1 + newline_at(b.drop_first())
    }
}

/// The length of the first line of `b` without its line break, as
/// `str::lines` yields it: a carriage return before the line feed is part of
/// the break.
pub open spec fn first_line_len(b: Seq<u8>) -> nat {
    let n = newline_at(b);
    if n < b.len() && n > 0 && b[n - 1] == 13 {
        (n - 1) as nat
    } else {
        n
    }
}

/// The bytes after the first line and its line feed.
pub open spec fn after_first_line(b: Seq<u8>) -> Seq<u8> {
    let n = newline_at(b);
    if n < b.len() {
        b.subrange(n + 1 as int, b.len() as int)
    } else {
        seq![]
    }
}

/// The byte position of a JSON error at `line` and `column` (both counted
/// from one), as the client estimates it: the length of each line before it
/// plus one for its break, then the column less one. Past the last line it
/// is the sum over all lines. `line_no` is the number of the first line of
/// `b`.
pub open spec fn error_offset(b: Seq<u8>, line_no: nat, line: nat, column: nat) -> nat
    decreases b.len(),
{
    if b.len() == 0 {
        0
    } else if line_no == line {
        if column > 0 { (column - 1) as nat } else { 0 }
    } else {
        first_line_len(b) + 1 + error_offset(after_first_line(b), line_no + 1, line, column)
    }
}

/// The context window of an error position in a text of `len` bytes: up to
/// 100 bytes on each side, cut at the end of the text.
pub open spec fn error_window(len: nat, pos: nat) -> (nat, nat) {
    (if pos >= 100 { (pos - 100) as nat } else { 0 }, if pos + 100 < len { pos + 100 } else { len })
}

/// Whether the message can be built for an error position: the window's
/// end fits a `usize`, and the window is in order and starts and ends on
/// character boundaries (elsewhere, cutting the text panics).
pub open spec fn error_window_ok(b: Seq<u8>, pos: nat) -> bool {
    let w = error_window(b.len(), pos);
    &&& pos + 100 <= usize::MAX
    &&& w.0 <= w.1
    &&& is_char_boundary(b, w.0 as int)
    &&& is_char_boundary(b, w.1 as int)
}

/// The text with each line feed and carriage return turned into a space.
pub open spec fn breaks_as_spaces(s: Seq<char>) -> Seq<char> {
    s.map_values(|c: char| if c == '\n' || c == '\r' { ' ' } else { c })
}

/// The message for a JSON error: where it is, the text around it on one
/// line, and the parser's own message.
pub open spec fn json_error_message_of(line: nat, column: nat, pos: nat, context: Seq<char>, error: Seq<char>) -> Seq<char> {
    "JSON parsing failed at line "@ + decimal(line) + ", column "@ + decimal(column) + " (byte position ~"@
        + decimal(pos) + "):\nContext: ..."@ + breaks_as_spaces(context) + "...\nError: "@ + error
}

proof fn lemma_newline_at(b: Seq<u8>, i: int, j: int)
    requires
        0 <= i <= j <= b.len(),
        forall|k: int| i <= k < j ==> b[k] != 10,
        j == b.len() || b[j] == 10,
    ensures
        newline_at(b.subrange(i, b.len() as int)) == j - i,
    decreases j - i,
{
    let s = b.subrange(i, b.len() as int);
    if i == j {
        if j < b.len() {
            assert(s[0] == b[j]);
        }
    } else {
        assert(s[0] == b[i]);
        assert(s.drop_first() =~= b.subrange(i + 1, b.len() as int));
        lemma_newline_at(b, i + 1, j);
    }
}

/// The index of the first line feed at or after `i`, or the length.
fn newline_from(bytes: &[u8], i: usize) -> (n: usize)
    requires
        i <= bytes@.len(),
    ensures
        i <= n <= bytes@.len(),
        n - i == newline_at(bytes@.subrange(i as int, bytes@.len() as int)),
{
    let mut j = i;
    while j < bytes.len() && bytes[j] != 10
        invariant
            i <= j <= bytes@.len(),
            forall|k: int| i <= k < j ==> bytes@[k] != 10,
        decreases bytes@.len() - j,
    {
        j = j + 1;
    }
    proof { lemma_newline_at(bytes@, i as int, j as int); }
    j
}

/// The estimated byte position of a JSON error in the text.
fn error_position(bytes: &[u8], line: usize, column: usize) -> (r: u128)
    ensures
        r == error_offset(bytes@, 1, line as nat, column as nat),
        r <= bytes@.len() + 1 + column,
{
    let len = bytes.len();
    let ghost b = bytes@;
    let ghost target = error_offset(b, 1, line as nat, column as nat);
    let mut i: usize = 0;
    let mut line_no: u128 = 1;
    let mut pos: u128 = 0;
    assert(b.subrange(0, len as int) =~= b);
    loop
        invariant_except_break
            i <= len == b.len(),
            b == bytes@,
            pos <= i,
            1 <= line_no <= i + 1,
            pos + error_offset(b.subrange(i as int, len as int), line_no as nat, line as nat, column as nat) == target,
        ensures
            pos == target,
            pos <= len + 1 + column,
        decreases len - i,
    {
        let ghost rest = b.subrange(i as int, len as int);
        if i >= len {
            assert(rest.len() == 0);
            break;
        }
        if line_no == line as u128 {
            let back: usize = if column > 0 { column - 1 } else { 0 };
            pos = pos + back as u128;
            break;
        }
        let n = newline_from(bytes, i);
        let content: usize = if n < len && n > i && bytes[n - 1] == 13 { n - 1 - i } else { n - i };
        proof {
            if n < len && n > i {
                assert(rest[n - i - 1] == b[n - 1]);
            }
            assert(first_line_len(rest) == content);
        }
        pos = pos + content as u128 + 1;
        if n < len {
            proof {
                assert(after_first_line(rest) =~= b.subrange(n + 1, len as int));
            }
            i = n + 1;
            line_no = line_no + 1;
        } else {
            proof {
                assert(after_first_line(rest) =~= Seq::<u8>::empty());
                assert(error_offset(Seq::<u8>::empty(), (line_no + 1) as nat, line as nat, column as nat) == 0);
            }
            break;
        }
    }
    pos
}

/// The message reported when a response is not the JSON expected, from the
/// parser's line, column and message: it names the line, the column and the
/// estimated byte position, and shows up to 100 bytes of text on each side
/// with line breaks as spaces. There is none (the client panics) when that
/// window does not fall on character boundaries or its end does not fit a
/// `usize`.
pub fn json_error_message(text: &str, line: usize, column: usize, error: &str) -> (r: Option<String>)
    ensures
        ({
            let b = text.spec_bytes();
            let pos = error_offset(b, 1, line as nat, column as nat);
            let w = error_window(b.len(), pos);
            &&& (r is Some <==> error_window_ok(b, pos))
            &&& (r matches Some(m) ==> m@ == json_error_message_of(
                line as nat,
                column as nat,
                pos,
                decode_utf8(b.subrange(w.0 as int, w.1 as int)),
                error@,
            ))
        }),
{
    let bytes = text.as_bytes();
    let ghost b = bytes@;
    let len = bytes.len();
    let pos128 = error_position(bytes, line, column);
    if pos128 + 100 > usize::MAX as u128 {
        return None;
    }
    let pos = pos128 as usize;
    let start: usize = if pos >= 100 { pos - 100 } else { 0 };
    let end: usize = if pos + 100 < len { pos + 100 } else { len };
    if start > end || !text.is_char_boundary(start) || !text.is_char_boundary(end) {
        return None;
    }
    let ghost t = b.subrange(start as int, len as int);
    let ghost m = b.subrange(start as int, end as int);
    proof {
        vstd::utf8::encode_utf8_valid_utf8(text@);
        vstd::utf8::valid_utf8_split(b, start as int);
        if end < len && end > start {
            assert(t[end - start] == b[end as int]);
            vstd::utf8::is_char_boundary_iff_not_is_continuation_byte(b, end as int);
            vstd::utf8::is_char_boundary_iff_not_is_continuation_byte(t, end - start);
        } else if end == len {
            vstd::utf8::is_char_boundary_start_end_of_seq(t);
        }
        assert(is_char_boundary(t, end - start));
        vstd::utf8::valid_utf8_split(t, end - start);
        assert(t.subrange(0, end - start) =~= m);
    }
    let mut window: Vec<u8> = Vec::new();
    let mut k: usize = start;
    while k < end
        invariant
            start <= k <= end <= len == b.len(),
            b == bytes@,
            window@ == b.subrange(start as int, k as int),
        decreases end - k,
    {
        window.push(bytes[k]);
        k = k + 1;
        assert(window@ =~= b.subrange(start as int, k as int));
    }
    let decoded = match utf8_text(window) {
        Some(d) => d,
        None => {
            return None;
        },
    };
    let cs = chars_of(decoded.as_str());
    let mut out: Vec<char> = Vec::new();
    let mut j: usize = 0;
    while j < cs.len()
        invariant
            j <= cs@.len(),
            cs@ == decode_utf8(m),
            out@ == breaks_as_spaces(cs@.subrange(0, j as int)),
        decreases cs@.len() - j,
    {
        let c = cs[j];
        out.push(if c == '\n' || c == '\r' { ' ' } else { c });
        j = j + 1;
        assert(out@ =~= breaks_as_spaces(cs@.subrange(0, j as int)));
    }
    assert(cs@.subrange(0, cs@.len() as int) =~= cs@);
    let context = string_from_chars(&out);
    let line_s = u64_to_string(line as u64);
    let column_s = u64_to_string(column as u64);
    let pos_s = u64_to_string(pos as u64);
    let a = concat3("JSON parsing failed at line ", line_s.as_str(), ", column ");
    let a = concat3(a.as_str(), column_s.as_str(), " (byte position ~");
    let a = concat3(a.as_str(), pos_s.as_str(), "):\nContext: ...");
    let a = concat3(a.as_str(), context.as_str(), "...\nError: ");
    let a = concat2(a.as_str(), error);
    Some(a)
}

/// The cache key of a series' details: `series_info_<id>`.
pub fn series_info_cache_key(series_id: u32) -> (r: String)
    ensures
        r@ == "series_info_"@ + decimal(series_id as nat),
{
    let id = u64_to_string(series_id as u64);
    concat2("series_info_", id.as_str())
}

/// The cache key of a movie's details: `vod_info_<id>`.
pub fn vod_info_cache_key(vod_id: u32) -> (r: String)
    ensures
        r@ == "vod_info_"@ + decimal(vod_id as nat),
{
    let id = u64_to_string(vod_id as u64);
    concat2("vod_info_", id.as_str())
}

/// The name of a category id in a category list; a later entry of the same
/// id wins, as when the list fills a map.
pub open spec fn category_name_in(table: Seq<Category>, id: Seq<char>) -> Option<Seq<char>>
    decreases table.len(),
{
    if table.len() == 0 {
        None
    } else if table.last().category_id@ == id {
        Some(table.last().category_name@)
    } else {
        category_name_in(table.drop_last(), id)
    }
}

/// The name of a category id in a category list (the last entry of that id).
pub fn lookup_category_name(table: &Vec<Category>, id: &str) -> (r: Option<String>)
    ensures
        opt_str_view(r) == category_name_in(table@, id@),
{
    let mut k: usize = table.len();
    assert(table@.subrange(0, k as int) =~= table@);
    while k > 0
        invariant
            k <= table@.len(),
            category_name_in(table@, id@) == category_name_in(table@.subrange(0, k as int), id@),
        decreases k,
    {
        assert(table@.subrange(0, k as int).drop_last() =~= table@.subrange(0, k - 1));
        if str_eq(table[k - 1].category_id.as_str(), id) {
            return Some(table[k - 1].category_name.clone());
        }
        k = k - 1;
    }
    None
}

} // verus!
