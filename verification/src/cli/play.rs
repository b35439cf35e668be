//! The `play` command: finding out what an id is when no type is given, and
//! the URL played.
use vstd::prelude::*;
use crate::cli::ContentType;
use crate::text::{concat3, decimal, u64_to_string};
use crate::xtream_api::{ext_or_default, media_url, stream_path_kind, Stream, XTreamAPI};

verus! {

/// Play a stream of a provider by id.
#[derive(Debug)]
pub struct PlayCommand {
    pub id: u32,
    pub content_type: Option<ContentType>,
    pub detached: bool,
}

/// What the live channels tell of an id.
#[derive(Debug, PartialEq, Eq, Structural)]
pub enum LiveCheck {
    /// It is a live channel.
    Live,
    /// It is not; the movies must be checked.
    CheckMovies,
}

/// Whether a stream of the list has the id.
pub open spec fn has_stream_id(streams: Seq<Stream>, id: u32) -> bool {
    exists|i: int| 0 <= i < streams.len() && streams[i].stream_id == id
}

fn contains_id(streams: &Vec<Stream>, id: u32) -> (r: bool)
    ensures
        r == has_stream_id(streams@, id),
{
    let mut i: usize = 0;
    while i < streams.len()
        invariant
            i <= streams@.len(),
            forall|k: int| 0 <= k < i ==> streams@[k].stream_id != id,
        decreases streams@.len() - i,
    {
        if streams[i].stream_id == id {
            return true;
        }
        i = i + 1;
    }
    false
}

impl PlayCommand {
    /// The first step of finding the type: the live channels (or the failure
    /// to get them).
    pub fn check_live(&self, live: &Result<Vec<Stream>, String>) -> (r: Result<LiveCheck, String>)
        ensures
            match live {
                Ok(s) => r == Ok::<LiveCheck, String>(if has_stream_id(s@, self.id) { LiveCheck::Live } else { LiveCheck::CheckMovies }),
                Err(_) => r matches Err(m) && m@ == "Failed to fetch streams"@,
            },
    {
        match live {
            Ok(s) => {
                if contains_id(s, self.id) {
                    Ok(LiveCheck::Live)
                } else {
                    Ok(LiveCheck::CheckMovies)
                }
            },
            Err(_) => Err(String::from_str("Failed to fetch streams")),
        }
    }

    /// The second step: the movies (or the failure to get them).
    pub fn check_movies(&self, movies: &Result<Vec<Stream>, String>) -> (r: Result<ContentType, String>)
        ensures
            (movies matches Ok(s) && has_stream_id(s@, self.id)) ==> r == Ok::<ContentType, String>(ContentType::Movie),
            !(movies matches Ok(s) && has_stream_id(s@, self.id)) ==> (r matches Err(m) && m@ == "Stream ID "@ + decimal(self.id as nat) + " not found"@),
    {
        match movies {
            Ok(s) => {
                if contains_id(s, self.id) {
                    return Ok(ContentType::Movie);
                }
            },
            Err(_) => {},
        }
        let id = u64_to_string(self.id as u64);
        Err(concat3("Stream ID ", id.as_str(), " not found"))
    }

    /// The URL played for the id as the given type (default extension).
    pub fn stream_url(&self, api: &XTreamAPI, ct: ContentType) -> (r: String)
        ensures
            r@ == media_url(api.base_url@, stream_path_kind(ct.name_of()), api.username@, api.password@,
                decimal(self.id as nat), ext_or_default(None)),
    {
        api.get_stream_url(self.id, ct.as_str(), None)
    }
}

} // verus!
