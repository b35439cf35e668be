//! The `info` command: the details shown of a movie, a series or a channel.
use vstd::prelude::*;
use crate::cli::{ContentType, OutputFormat};
use crate::text::{concat2, concat3, decimal, u64_to_string};
use crate::xtream_api::{views, ApiSeason, SeriesInfoResponse, Stream, VodInfoResponse};

verus! {

/// Show the details of one item of a provider.
#[derive(Debug)]
pub struct InfoCommand {
    pub id: u32,
    pub content_type: ContentType,
    pub format: OutputFormat,
}

/// `prefix` and the value, when there is one.
pub open spec fn some_line(prefix: Seq<char>, v: Option<String>) -> Seq<Seq<char>> {
    match v {
        Some(x) => seq![prefix + x@],
        None => seq![],
    }
}

/// The season lines: `  name (count episodes)`.
pub open spec fn season_lines_of(seasons: Seq<ApiSeason>) -> Seq<Seq<char>> {
    seasons.map_values(|s: ApiSeason| "  "@ + s.name@ + " ("@ + s.episode_count@ + " episodes)"@)
}

/// The text details of a series: its title, plot, cast, genre and rating
/// when known, then the number of seasons and a line per season.
pub open spec fn series_lines_of(info: SeriesInfoResponse) -> Seq<Seq<char>> {
    (match info.info {
        Some(d) => seq!["Title: "@ + d.name@] + some_line("\nPlot:\n"@, d.plot) + some_line("\nCast: "@, d.cast)
            + some_line("Genre: "@, d.genre) + some_line("Rating: "@, d.rating),
        None => seq![],
    }) + seq!["\nSeasons: "@ + decimal(info.seasons@.len())] + season_lines_of(info.seasons@)
}

/// The first stream with the given id.
pub open spec fn stream_with_id(streams: Seq<Stream>, id: u32, from: nat) -> Option<int>
    decreases streams.len() - from,
{
    if from >= streams.len() {
        None
    } else if streams[from as int].stream_id == id {
        Some(from as int)
    } else {
        stream_with_id(streams, id, from + 1)
    }
}

fn push_some(lines: &mut Vec<String>, prefix: &str, v: &Option<String>)
    ensures
        views(final(lines)@) == views(old(lines)@) + some_line(prefix@, *v),
{
    match v {
        Some(x) => {
            lines.push(concat2(prefix, x.as_str()));
        },
        None => {},
    }
    assert(views(lines@) =~= views(old(lines)@) + some_line(prefix@, *v));
}

impl InfoCommand {
    /// The first lines of the text output: type, id and provider.
    pub fn header_lines(&self, provider: &str) -> (r: Vec<String>)
        ensures
            views(r@) == seq!["Type: "@ + self.content_type.name_of(), "ID: "@ + decimal(self.id as nat), "Provider: "@ + provider@],
    {
        let mut v: Vec<String> = Vec::new();
        v.push(concat2("Type: ", self.content_type.as_str()));
        let id = u64_to_string(self.id as u64);
        v.push(concat2("ID: ", id.as_str()));
        v.push(concat2("Provider: ", provider));
        assert(views(v@) =~= seq!["Type: "@ + self.content_type.name_of(), "ID: "@ + decimal(self.id as nat), "Provider: "@ + provider@]);
        v
    }

    /// The text details of a movie: its title (the other details are not
    /// part of the playback data that is read).
    pub fn movie_lines(info: &VodInfoResponse) -> (r: Vec<String>)
        ensures
            views(r@) == seq!["Title: "@ + info.movie_data.name@],
    {
        let mut v: Vec<String> = Vec::new();
        v.push(concat2("Title: ", info.movie_data.name.as_str()));
        assert(views(v@) =~= seq!["Title: "@ + info.movie_data.name@]);
        v
    }

    /// The text details of a series.
    pub fn series_lines(info: &SeriesInfoResponse) -> (r: Vec<String>)
        ensures
            views(r@) == series_lines_of(*info),
    {
        let mut v: Vec<String> = Vec::new();
        match &info.info {
            Some(d) => {
                v.push(concat2("Title: ", d.name.as_str()));
                push_some(&mut v, "\nPlot:\n", &d.plot);
                push_some(&mut v, "\nCast: ", &d.cast);
                push_some(&mut v, "Genre: ", &d.genre);
                push_some(&mut v, "Rating: ", &d.rating);
            },
            None => {
                assert(views(v@) =~= Seq::<Seq<char>>::empty());
            },
        }
        let ghost head = views(v@);
        assert(head == (match info.info {
            Some(d) => seq!["Title: "@ + d.name@] + some_line("\nPlot:\n"@, d.plot) + some_line("\nCast: "@, d.cast)
                + some_line("Genre: "@, d.genre) + some_line("Rating: "@, d.rating),
            None => seq![],
        }));
        let n = u64_to_string(info.seasons.len() as u64);
        v.push(concat2("\nSeasons: ", n.as_str()));
        let ghost start = views(v@);
        assert(start =~= head + seq!["\nSeasons: "@ + decimal(info.seasons@.len())]);
        let mut i: usize = 0;
        while i < info.seasons.len()
            invariant
                i <= info.seasons@.len(),
                views(v@) == start + season_lines_of(info.seasons@.subrange(0, i as int)),
            decreases info.seasons@.len() - i,
        {
            let s = &info.seasons[i];
            let a = concat3("  ", s.name.as_str(), " (");
            let ghost before = views(v@);
            v.push(concat3(a.as_str(), s.episode_count.as_str(), " episodes)"));
            proof {
                assert(views(v@) =~= before.push(v@.last()@));
                assert(season_lines_of(info.seasons@.subrange(0, i + 1)) =~= season_lines_of(info.seasons@.subrange(0, i as int)).push(v@.last()@));
            }
            i = i + 1;
        }
        assert(info.seasons@.subrange(0, info.seasons@.len() as int) =~= info.seasons@);
        assert(views(v@) =~= series_lines_of(*info));
        v
    }

    /// The live channel with the command's id.
    pub fn find_live(&self, streams: &Vec<Stream>) -> (r: Result<usize, String>)
        ensures
            match stream_with_id(streams@, self.id, 0) {
                Some(i) => r matches Ok(k) && k == i,
                None => r matches Err(m) && m@ == "Stream "@ + decimal(self.id as nat) + " not found"@,
            },
    {
        let mut i: usize = 0;
        while i < streams.len()
            invariant
                i <= streams@.len(),
                stream_with_id(streams@, self.id, 0) == stream_with_id(streams@, self.id, i as nat),
            decreases streams@.len() - i,
        {
            if streams[i].stream_id == self.id {
                return Ok(i);
            }
            i = i + 1;
        }
        let id = u64_to_string(self.id as u64);
        Err(concat3("Stream ", id.as_str(), " not found"))
    }
}

} // verus!
