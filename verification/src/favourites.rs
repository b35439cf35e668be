//! Favourites: where each provider's list is stored, and the list rules
//! (one entry per stream id and type).
use vstd::prelude::*;
use crate::cache::{join_path, path_join};
use crate::text::{concat2, str_eq};
use crate::xtream_api::FavouriteStream;

verus! {

/// A favourite entry is for the stream with this id and type.
pub open spec fn is_fav_key(f: FavouriteStream, stream_id: u32, stream_type: Seq<char>) -> bool {
    f.stream_id == stream_id && f.stream_type@ == stream_type
}

/// The list holds an entry for this stream id and type.
pub open spec fn contains_favourite(list: Seq<FavouriteStream>, stream_id: u32, stream_type: Seq<char>) -> bool {
    exists|i: int| 0 <= i < list.len() && is_fav_key(#[trigger] list[i], stream_id, stream_type)
}

/// What adding `fav` gives: `None` when an entry for the same id and type is
/// already present (nothing changes), else the list with `fav` at the end.
pub open spec fn favourite_added(list: Seq<FavouriteStream>, fav: FavouriteStream) -> Option<Seq<FavouriteStream>> {
    if contains_favourite(list, fav.stream_id, fav.stream_type@) {
        None
    } else {
        Some(list.push(fav))
    }
}

/// Views of an optional list.
pub open spec fn opt_list_view(r: Option<Vec<FavouriteStream>>) -> Option<Seq<FavouriteStream>> {
    match r {
        Some(v) => Some(v@),
        None => None,
    }
}

/// The list without its entries for this stream id and type, others in order.
pub open spec fn favourite_removed(list: Seq<FavouriteStream>, stream_id: u32, stream_type: Seq<char>) -> Seq<FavouriteStream>
    decreases list.len(),
{
    if list.len() == 0 {
        seq![]
    } else {
        let rest = favourite_removed(list.drop_last(), stream_id, stream_type);
        if is_fav_key(list.last(), stream_id, stream_type) {
            rest
        } else {
            rest.push(list.last())
        }
    }
}

/// The list holds an entry with this stream id, of whatever type.
pub open spec fn has_favourite_id(list: Seq<FavouriteStream>, stream_id: u32) -> bool {
    exists|i: int| 0 <= i < list.len() && (#[trigger] list[i]).stream_id == stream_id
}

/// Whether the list holds an entry with this stream id, of whatever type.
pub fn list_has_favourite_id(list: &Vec<FavouriteStream>, stream_id: u32) -> (r: bool)
    ensures
        r == has_favourite_id(list@, stream_id),
{
    let mut i: usize = 0;
    while i < list.len()
        invariant
            i <= list@.len(),
            forall|j: int| 0 <= j < i ==> (#[trigger] list@[j]).stream_id != stream_id,
        decreases list@.len() - i,
    {
        if list[i].stream_id == stream_id {
            return true;
        }
        i = i + 1;
    }
    false
}

/// Whether `f` is the entry for this id and type.
pub fn fav_matches(f: &FavouriteStream, stream_id: u32, stream_type: &str) -> (r: bool)
    ensures
        r == is_fav_key(*f, stream_id, stream_type@),
{
    f.stream_id == stream_id && str_eq(f.stream_type.as_str(), stream_type)
}

/// Whether the list holds an entry for this id and type.
pub fn list_has_favourite(list: &Vec<FavouriteStream>, stream_id: u32, stream_type: &str) -> (r: bool)
    ensures
        r == contains_favourite(list@, stream_id, stream_type@),
{
    let mut i: usize = 0;
    while i < list.len()
        invariant
            i <= list@.len(),
            forall|j: int| 0 <= j < i ==> !is_fav_key(#[trigger] list@[j], stream_id, stream_type@),
        decreases list@.len() - i,
    {
        if fav_matches(&list[i], stream_id, stream_type) {
            return true;
        }
        i = i + 1;
    }
    false
}

/// Adds `favourite` unless an entry for its id and type is present.
pub fn add_favourite_to(list: Vec<FavouriteStream>, favourite: FavouriteStream) -> (r: Option<Vec<FavouriteStream>>)
    ensures
        opt_list_view(r) == favourite_added(list@, favourite),
{
    if list_has_favourite(&list, favourite.stream_id, favourite.stream_type.as_str()) {
        None
    } else {
        let mut l = list;
        l.push(favourite);
        Some(l)
    }
}

/// Removes every entry for this id and type.
pub fn remove_favourite_from(list: Vec<FavouriteStream>, stream_id: u32, stream_type: &str) -> (r: Vec<FavouriteStream>)
    ensures
        r@ == favourite_removed(list@, stream_id, stream_type@),
{
    let mut out: Vec<FavouriteStream> = Vec::new();
    let mut i: usize = 0;
    while i < list.len()
        invariant
            i <= list@.len(),
            out@ == favourite_removed(list@.subrange(0, i as int), stream_id, stream_type@),
        decreases list@.len() - i,
    {
        if !fav_matches(&list[i], stream_id, stream_type) {
            out.push(list[i].clone());
        }
        assert(list@.subrange(0, i + 1).drop_last() =~= list@.subrange(0, i as int));
        i = i + 1;
    }
    assert(list@.subrange(0, list@.len() as int) =~= list@);
    out
}

/// The favourites of every provider are files in one directory.
#[derive(Debug)]
pub struct FavouritesData {
    pub favourites: Vec<FavouriteStream>,
}

/// Knows where each provider's favourites file is; reading and writing the
/// files is the caller's part.
#[derive(Debug)]
pub struct FavouritesManager {
    favourites_dir: String,
}

impl FavouritesManager {
    /// The favourites directory.
    pub closed spec fn dir(self) -> Seq<char> {
        self.favourites_dir@
    }

    /// A manager for the `favourites` directory under the configuration directory.
    pub fn new(config_dir: &str) -> (r: Self)
        ensures
            r.dir() == path_join(config_dir@, "favourites"@),
    {
        FavouritesManager { favourites_dir: join_path(config_dir, "favourites") }
    }

    /// The favourites directory path.
    pub fn favourites_dir(&self) -> (r: &str)
        ensures
            r@ == self.dir(),
    {
        self.favourites_dir.as_str()
    }

    /// The file of one provider's favourites: `<hash>.json` in the directory.
    pub fn get_favourites_path(&self, provider_hash: &str) -> (r: String)
        ensures
            r@ == path_join(self.dir(), provider_hash@ + ".json"@),
    {
        let name = concat2(provider_hash, ".json");
        join_path(self.favourites_dir.as_str(), name.as_str())
    }

    /// The list after adding `favourite`, or `None` when it is already there
    /// (nothing to save).
    pub fn add_favourite(&self, current: Vec<FavouriteStream>, favourite: FavouriteStream) -> (r: Option<Vec<FavouriteStream>>)
        ensures
            opt_list_view(r) == favourite_added(current@, favourite),
    {
        add_favourite_to(current, favourite)
    }

    /// The list without the entries for this id and type (to be saved).
    pub fn remove_favourite(&self, current: Vec<FavouriteStream>, stream_id: u32, stream_type: &str) -> (r: Vec<FavouriteStream>)
        ensures
            r@ == favourite_removed(current@, stream_id, stream_type@),
    {
        remove_favourite_from(current, stream_id, stream_type)
    }

    /// Whether the list holds an entry for this id and type.
    pub fn is_favourite(&self, current: &Vec<FavouriteStream>, stream_id: u32, stream_type: &str) -> (r: bool)
        ensures
            r == contains_favourite(current@, stream_id, stream_type@),
    {
        list_has_favourite(current, stream_id, stream_type)
    }
}

} // verus!
