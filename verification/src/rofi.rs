//! The rofi launcher mode: the lines offered, the line chosen, and what is
//! played for it.
use vstd::prelude::*;
use crate::config::ProviderConfig;
use crate::text::{concat2, concat3, str_eq, trim, trimmed};
use crate::xtream_api::{views, FavouriteStream};

verus! {

/// The line of a favourite: its name, then ` [provider]` when the provider
/// is named.
pub open spec fn rofi_line_of(f: FavouriteStream, p: ProviderConfig) -> Seq<char> {
    f.name@ + match p.name {
        Some(n) => " ["@ + n@ + "]"@,
        None => ""@,
    }
}

/// The line of a favourite.
pub fn rofi_line(f: &FavouriteStream, p: &ProviderConfig) -> (r: String)
    ensures
        r@ == rofi_line_of(*f, *p),
{
    match &p.name {
        Some(n) => {
            let tail = concat3(" [", n.as_str(), "]");
            let r = concat2(f.name.as_str(), tail.as_str());
            r
        },
        None => {
            let r = f.name.clone();
            assert(r@ =~= f.name@ + ""@) by { reveal_strlit(""); }
            r
        },
    }
}

/// The text given to rofi: every line followed by a newline.
pub open spec fn rofi_input_of(entries: Seq<(FavouriteStream, ProviderConfig)>) -> Seq<char>
    decreases entries.len(),
{
    if entries.len() == 0 {
        seq![]
    } else {
        rofi_input_of(entries.drop_last()) + rofi_line_of(entries.last().0, entries.last().1) + seq!['\n']
    }
}

/// The text given to rofi.
pub fn rofi_input(entries: &Vec<(FavouriteStream, ProviderConfig)>) -> (r: String)
    ensures
        r@ == rofi_input_of(entries@),
{
    let mut out = String::new();
    let mut i: usize = 0;
    while i < entries.len()
        invariant
            i <= entries@.len(),
            out@ == rofi_input_of(entries@.subrange(0, i as int)),
        decreases entries@.len() - i,
    {
        assert(entries@.subrange(0, i + 1).drop_last() =~= entries@.subrange(0, i as int));
        let line = rofi_line(&entries[i].0, &entries[i].1);
        out.append(line.as_str());
        proof { reveal_strlit("\n"); }
        out.append("\n");
        i = i + 1;
    }
    assert(entries@.subrange(0, entries@.len() as int) =~= entries@);
    out
}

/// The first favourite whose line is the trimmed rofi output (nothing for
/// an empty choice).
pub open spec fn rofi_choice_of(entries: Seq<(FavouriteStream, ProviderConfig)>, chosen: Seq<char>, from: nat) -> Option<int>
    decreases entries.len() - from,
{
    if from >= entries.len() {
        None
    } else if rofi_line_of(entries[from as int].0, entries[from as int].1) == chosen {
        Some(from as int)
    } else {
        rofi_choice_of(entries, chosen, from + 1)
    }
}

/// The favourite chosen in rofi.
pub fn rofi_selection(entries: &Vec<(FavouriteStream, ProviderConfig)>, output: &str) -> (r: Option<usize>)
    ensures
        trimmed(output@).len() == 0 ==> r is None,
        trimmed(output@).len() > 0 ==> match rofi_choice_of(entries@, trimmed(output@), 0) {
            Some(i) => r matches Some(k) && k == i,
            None => r is None,
        },
{
    let chosen = trim(output);
    if chosen.unicode_len() == 0 {
        return None;
    }
    let mut i: usize = 0;
    while i < entries.len()
        invariant
            i <= entries@.len(),
            chosen@ == trimmed(output@),
            chosen@.len() > 0,
            rofi_choice_of(entries@, chosen@, 0) == rofi_choice_of(entries@, chosen@, i as nat),
        decreases entries@.len() - i,
    {
        let line = rofi_line(&entries[i].0, &entries[i].1);
        if str_eq(line.as_str(), chosen.as_str()) {
            return Some(i);
        }
        i = i + 1;
    }
    None
}

/// The URL kind played for a favourite's type: `live` and `movie` play;
/// a series or an unknown type is refused with a message.
pub open spec fn rofi_kind_of(stream_type: Seq<char>) -> Result<Seq<char>, Seq<char>> {
    if stream_type == "live"@ {
        Ok("live"@)
    } else if stream_type == "movie"@ {
        Ok("movie"@)
    } else if stream_type == "series"@ {
        Err("Series playback not supported in rofi mode. Use TUI mode instead."@)
    } else {
        Err("Unknown stream type: "@ + stream_type)
    }
}

/// The URL kind played for a favourite's type.
pub fn rofi_kind(stream_type: &str) -> (r: Result<&'static str, String>)
    ensures
        match rofi_kind_of(stream_type@) {
            Ok(k) => r matches Ok(x) && x@ == k,
            Err(m) => r matches Err(x) && x@ == m,
        },
{
    if str_eq(stream_type, "live") {
        Ok("live")
    } else if str_eq(stream_type, "movie") {
        Ok("movie")
    } else if str_eq(stream_type, "series") {
        Err(String::from_str("Series playback not supported in rofi mode. Use TUI mode instead."))
    } else {
        Err(concat2("Unknown stream type: ", stream_type))
    }
}

/// The arguments rofi is started with.
pub fn rofi_args() -> (r: Vec<String>)
    ensures
        views(r@) == seq!["-dmenu"@, "-hover-select"@, "-me-select-entry"@, ""@, "-me-accept-entry"@, "MousePrimary"@, "-i"@, "-p"@, "IPTV Favourites"@],
{
    let mut v: Vec<String> = Vec::new();
    v.push(String::from_str("-dmenu"));
    v.push(String::from_str("-hover-select"));
    v.push(String::from_str("-me-select-entry"));
    v.push(String::from_str(""));
    v.push(String::from_str("-me-accept-entry"));
    v.push(String::from_str("MousePrimary"));
    v.push(String::from_str("-i"));
    v.push(String::from_str("-p"));
    v.push(String::from_str("IPTV Favourites"));
    assert(views(v@) =~= seq!["-dmenu"@, "-hover-select"@, "-me-select-entry"@, ""@, "-me-accept-entry"@, "MousePrimary"@, "-i"@, "-p"@, "IPTV Favourites"@]);
    v
}

} // verus!
