//! The `providers` command: listing the providers and testing them.
use vstd::prelude::*;
use crate::cli::OutputFormat;
use crate::config::ProviderConfig;
use crate::text::{concat2, concat3, decimal, u64_to_string};
use crate::xtream_api::{views, UserInfo};

verus! {

/// List the providers, or test their connection.
#[derive(Debug)]
pub enum ProvidersCommand {
    List { format: OutputFormat },
    Test { name: Option<String> },
}

/// The line of a provider: `  <n>. <name> (<url>)`, counting from 1.
pub open spec fn provider_line_of(i: nat, p: ProviderConfig) -> Seq<char> {
    "  "@ + decimal(i + 1) + ". "@ + p.display_name_of() + " ("@ + p.url@ + ")"@
}

/// The text output of the provider list.
pub open spec fn provider_list_of(providers: Seq<ProviderConfig>) -> Seq<Seq<char>> {
    if providers.len() == 0 {
        seq!["No providers configured"@]
    } else {
        seq!["Configured providers:"@] + Seq::new(providers.len(), |i: int| provider_line_of(i as nat, providers[i]))
    }
}

/// The text output of the provider list.
pub fn provider_list_lines(providers: &Vec<ProviderConfig>) -> (r: Vec<String>)
    ensures
        views(r@) == provider_list_of(providers@),
{
    let mut v: Vec<String> = Vec::new();
    if providers.len() == 0 {
        v.push(String::from_str("No providers configured"));
        assert(views(v@) =~= provider_list_of(providers@));
        return v;
    }
    v.push(String::from_str("Configured providers:"));
    let mut i: usize = 0;
    while i < providers.len()
        invariant
            i <= providers@.len(),
            providers@.len() > 0,
            views(v@) == seq!["Configured providers:"@] + Seq::new(i as nat, |k: int| provider_line_of(k as nat, providers@[k])),
        decreases providers@.len() - i,
    {
        let n = u64_to_string(i as u64 + 1);
        let a = concat3("  ", n.as_str(), ". ");
        let name = providers[i].display_name();
        let b = concat3(a.as_str(), name.as_str(), " (");
        let ghost before = views(v@);
        v.push(concat3(b.as_str(), providers[i].url.as_str(), ")"));
        proof {
            assert(views(v@) =~= before.push(provider_line_of(i as nat, providers@[i as int])));
            assert(seq!["Configured providers:"@] + Seq::new((i + 1) as nat, |k: int| provider_line_of(k as nat, providers@[k]))
                =~= (seq!["Configured providers:"@] + Seq::new(i as nat, |k: int| provider_line_of(k as nat, providers@[k]))).push(provider_line_of(i as nat, providers@[i as int])));
        }
        i = i + 1;
    }
    v
}

/// The text output of a connection test.
pub open spec fn test_lines_of(result: Result<UserInfo, String>) -> Seq<Seq<char>> {
    match result {
        Ok(info) => seq!["✓ Connected"@, "  Account: "@ + info.username@, "  Status: "@ + info.status@]
            + (if info.exp_date@.len() > 0 { seq!["  Expires: "@ + info.exp_date@] } else { seq![] })
            + seq!["  Max connections: "@ + info.max_connections@],
        Err(e) => seq!["✗ Failed"@, "  Error: "@ + e@],
    }
}

/// The text output of a connection test.
pub fn test_lines(result: &Result<UserInfo, String>) -> (r: Vec<String>)
    ensures
        views(r@) == test_lines_of(*result),
{
    let mut v: Vec<String> = Vec::new();
    match result {
        Ok(info) => {
            v.push(String::from_str("✓ Connected"));
            v.push(concat2("  Account: ", info.username.as_str()));
            v.push(concat2("  Status: ", info.status.as_str()));
            if info.exp_date.unicode_len() > 0 {
                v.push(concat2("  Expires: ", info.exp_date.as_str()));
            }
            v.push(concat2("  Max connections: ", info.max_connections.as_str()));
        },
        Err(e) => {
            v.push(String::from_str("✗ Failed"));
            v.push(concat2("  Error: ", e.as_str()));
        },
    }
    assert(views(v@) =~= test_lines_of(*result));
    v
}

} // verus!
