//! The `favorites` command: listing, adding and removing favourites.
use vstd::prelude::*;
use crate::cli::{ContentType, OutputFormat};
use crate::text::{concat2, concat3, decimal, left_pad, pad_left, u64_to_string};
use crate::xtream_api::{views, FavouriteStream, SeriesInfo, Stream};

verus! {

/// List, add or remove favourites.
#[derive(Debug)]
pub enum FavoritesCommand {
    List { format: OutputFormat },
    Add { id: u32, content_type: ContentType, name: Option<String> },
    Remove { id: u32 },
}

/// The text line of a favourite: `[id] name (type)` with the id
/// right-aligned in six columns, indented by two under a provider heading.
pub open spec fn favourite_line_of(f: FavouriteStream, indented: bool) -> Seq<char> {
    (if indented { "  "@ } else { ""@ }) + "["@ + pad_left(decimal(f.stream_id as nat), 6) + "] "@ + f.name@ + " ("@ + f.stream_type@ + ")"@
}

/// The text line of a favourite.
pub fn favourite_line(f: &FavouriteStream, indented: bool) -> (r: String)
    ensures
        r@ == favourite_line_of(*f, indented),
{
    let id = u64_to_string(f.stream_id as u64);
    let padded = left_pad(id.as_str(), 6);
    let a = concat3(if indented { "  " } else { "" }, "[", padded.as_str());
    let b = concat3(a.as_str(), "] ", f.name.as_str());
    concat3(b.as_str(), " (", concat2(f.stream_type.as_str(), ")").as_str())
}

/// The M3U lines of a favourite (the URL is a placeholder).
pub fn favourite_m3u(f: &FavouriteStream) -> (r: Vec<String>)
    ensures
        views(r@) == seq!["#EXTINF:-1,"@ + f.name@, "http://placeholder/"@ + f.stream_type@ + "/"@ + decimal(f.stream_id as nat)],
{
    let mut v: Vec<String> = Vec::new();
    v.push(concat2("#EXTINF:-1,", f.name.as_str()));
    let id = u64_to_string(f.stream_id as u64);
    let a = concat3("http://placeholder/", f.stream_type.as_str(), "/");
    v.push(concat2(a.as_str(), id.as_str()));
    assert(views(v@) =~= seq!["#EXTINF:-1,"@ + f.name@, "http://placeholder/"@ + f.stream_type@ + "/"@ + decimal(f.stream_id as nat)]);
    v
}

/// The first stream with an id.
pub open spec fn first_stream_with_id(streams: Seq<Stream>, id: u32, from: nat) -> Option<int>
    decreases streams.len() - from,
{
    if from >= streams.len() {
        None
    } else if streams[from as int].stream_id == id {
        Some(from as int)
    } else {
        first_stream_with_id(streams, id, from + 1)
    }
}

/// The first series with an id.
pub open spec fn first_series_with_id(series: Seq<SeriesInfo>, id: u32, from: nat) -> Option<int>
    decreases series.len() - from,
{
    if from >= series.len() {
        None
    } else if series[from as int].series_id == id {
        Some(from as int)
    } else {
        first_series_with_id(series, id, from + 1)
    }
}

/// The first favourite with an id (of any type).
pub open spec fn first_favourite_with_id(favs: Seq<FavouriteStream>, id: u32, from: nat) -> Option<int>
    decreases favs.len() - from,
{
    if from >= favs.len() {
        None
    } else if favs[from as int].stream_id == id {
        Some(from as int)
    } else {
        first_favourite_with_id(favs, id, from + 1)
    }
}

/// The error when the item to add is not found.
pub open spec fn missing_message_of(ct: ContentType, id: u32) -> Seq<char> {
    (match ct {
        ContentType::Live => "Stream "@,
        ContentType::Movie => "Movie "@,
        ContentType::Series => "Series "@,
    }) + decimal(id as nat) + " not found"@
}

fn missing_message(ct: ContentType, id: u32) -> (r: String)
    ensures
        r@ == missing_message_of(ct, id),
{
    let word = match ct {
        ContentType::Live => "Stream ",
        ContentType::Movie => "Movie ",
        ContentType::Series => "Series ",
    };
    let n = u64_to_string(id as u64);
    concat3(word, n.as_str(), " not found")
}

/// The name of the stream (live channel or movie) with an id.
pub fn stream_name_for(streams: &Vec<Stream>, ct: ContentType, id: u32) -> (r: Result<String, String>)
    ensures
        match first_stream_with_id(streams@, id, 0) {
            Some(i) => r matches Ok(n) && n@ == streams@[i].name@,
            None => r matches Err(m) && m@ == missing_message_of(ct, id),
        },
{
    let mut i: usize = 0;
    while i < streams.len()
        invariant
            i <= streams@.len(),
            first_stream_with_id(streams@, id, 0) == first_stream_with_id(streams@, id, i as nat),
        decreases streams@.len() - i,
    {
        if streams[i].stream_id == id {
            return Ok(streams[i].name.clone());
        }
        i = i + 1;
    }
    Err(missing_message(ct, id))
}

/// The name of the series with an id.
pub fn series_name_for(series: &Vec<SeriesInfo>, id: u32) -> (r: Result<String, String>)
    ensures
        match first_series_with_id(series@, id, 0) {
            Some(i) => r matches Ok(n) && n@ == series@[i].name@,
            None => r matches Err(m) && m@ == missing_message_of(ContentType::Series, id),
        },
{
    let mut i: usize = 0;
    while i < series.len()
        invariant
            i <= series@.len(),
            first_series_with_id(series@, id, 0) == first_series_with_id(series@, id, i as nat),
        decreases series@.len() - i,
    {
        if series[i].series_id == id {
            return Ok(series[i].name.clone());
        }
        i = i + 1;
    }
    Err(missing_message(ContentType::Series, id))
}

/// The favourite added by the command (no category).
pub fn new_favourite(id: u32, name: String, ct: ContentType, provider_hash: String, added_date: String) -> (r: FavouriteStream)
    ensures
        r.stream_id == id,
        r.name == name,
        r.stream_type@ == ct.name_of(),
        r.provider_hash == provider_hash,
        r.added_date == added_date,
        r.category_id is None,
{
    FavouriteStream { stream_id: id, name, stream_type: String::from_str(ct.as_str()), provider_hash, added_date, category_id: None }
}

/// The favourite to remove: the first with the id.
pub fn favourite_to_remove(favs: &Vec<FavouriteStream>, id: u32) -> (r: Result<usize, String>)
    ensures
        match first_favourite_with_id(favs@, id, 0) {
            Some(i) => r matches Ok(k) && k == i,
            None => r matches Err(m) && m@ == "Favorite "@ + decimal(id as nat) + " not found"@,
        },
{
    let mut i: usize = 0;
    while i < favs.len()
        invariant
            i <= favs@.len(),
            first_favourite_with_id(favs@, id, 0) == first_favourite_with_id(favs@, id, i as nat),
        decreases favs@.len() - i,
    {
        if favs[i].stream_id == id {
            return Ok(i);
        }
        i = i + 1;
    }
    let n = u64_to_string(id as u64);
    Err(concat3("Favorite ", n.as_str(), " not found"))
}

/// `Added '<name>' to favorites in <provider>`.
pub fn added_message(name: &str, provider: &str) -> (r: String)
    ensures
        r@ == "Added '"@ + name@ + "' to favorites in "@ + provider@,
{
    concat3("Added '", name, concat2("' to favorites in ", provider).as_str())
}

/// `Removed '<name>' from favorites in <provider>`.
pub fn removed_message(name: &str, provider: &str) -> (r: String)
    ensures
        r@ == "Removed '"@ + name@ + "' from favorites in "@ + provider@,
{
    concat3("Removed '", name, concat2("' from favorites in ", provider).as_str())
}

} // verus!
