//! The `list` command: how many items are listed and how they are written.
use vstd::prelude::*;
use crate::cli::{ContentType, OutputFormat};
use crate::text::{concat2, concat3, decimal, left_pad, pad_left, u64_to_string};
use crate::xtream_api::views;

verus! {

/// List the items of a content type, optionally of one category.
#[derive(Debug)]
pub struct ListCommand {
    pub content_type: ContentType,
    pub category: Option<String>,
    pub format: OutputFormat,
    pub limit: Option<usize>,
}

/// How many of `n` items are listed under a limit.
pub open spec fn listed_count(n: nat, limit: Option<usize>) -> nat {
    match limit {
        Some(l) => if (l as nat) < n { l as nat } else { n },
        None => n,
    }
}

/// Keeps the first `limit` items (all without a limit).
pub fn take_limit<T>(items: Vec<T>, limit: Option<usize>) -> (r: Vec<T>)
    ensures
        r@ == items@.subrange(0, listed_count(items@.len(), limit) as int),
{
    let mut v = items;
    match limit {
        Some(l) => {
            if l < v.len() {
                v.truncate(l);
            }
        },
        None => {},
    }
    assert(v@ =~= items@.subrange(0, listed_count(items@.len(), limit) as int));
    v
}

/// The text line of an item: the id right-aligned in six columns, ` | `,
/// the name.
pub fn item_line(id: u32, name: &str) -> (r: String)
    ensures
        r@ == pad_left(decimal(id as nat), 6) + " | "@ + name@,
{
    let n = u64_to_string(id as u64);
    let p = left_pad(n.as_str(), 6);
    concat3(p.as_str(), " | ", name)
}

/// The M3U lines of an item (the URL is a placeholder).
pub fn item_m3u(id: u32, name: &str, kind: &str) -> (r: Vec<String>)
    ensures
        views(r@) == seq![
            "#EXTINF:-1 tvg-id=\""@ + decimal(id as nat) + "\" tvg-name=\""@ + name@ + "\","@ + name@,
            "http://placeholder/"@ + kind@ + "/"@ + decimal(id as nat),
        ],
{
    let n = u64_to_string(id as u64);
    let a = concat3("#EXTINF:-1 tvg-id=\"", n.as_str(), "\" tvg-name=\"");
    let b = concat3(a.as_str(), name, "\",");
    let mut v: Vec<String> = Vec::new();
    v.push(concat2(b.as_str(), name));
    let c = concat3("http://placeholder/", kind, "/");
    v.push(concat2(c.as_str(), n.as_str()));
    assert(views(v@) =~= seq![
        "#EXTINF:-1 tvg-id=\""@ + decimal(id as nat) + "\" tvg-name=\""@ + name@ + "\","@ + name@,
        "http://placeholder/"@ + kind@ + "/"@ + decimal(id as nat),
    ]);
    v
}

impl ListCommand {
    /// The message when nothing is listed.
    pub fn empty_message(&self) -> (r: String)
        ensures
            r@ == "No "@ + self.content_type.name_of() + " found"@,
    {
        concat3("No ", self.content_type.as_str(), " found")
    }
}

} // verus!
