//! Name servers.
//!
//! The resolver configuration names one server per line: the word
//! `nameserver`, then the server's address. Every other line is of no concern
//! here.

use vstd::prelude::*;
use crate::base::list::{
    lemma_filter_prefix,
    lemma_filter_step,
    lemma_try_map_fails,
    lemma_try_map_push,
    lemma_views_push,
    outcome,
    try_map,
    views,
};
use crate::base::text::{is_word, lines, spec_lines, spec_tokens, spec_trim, to_chars, to_string, tokens, trim};
use crate::error::Error;

verus! {

/// Where the system keeps the resolver configuration.
pub const FILE: &'static str = "/etc/resolv.conf";

/// The word that begins a line that names a server.
pub const KEYWORD: &'static str = "nameserver";

/// What is wrong with a line that has the word and no address.
pub const NO_ADDRESS: &'static str = "Invalid nameserver";

/// One name server.
///
/// The configuration gives the address. The host name is not in it: reading
/// the configuration leaves it empty, for the caller to fill in from a reverse
/// lookup of the address.
#[derive(Debug, Clone, PartialEq, Eq)]
pub struct DnsServer {
    pub ip: String,
    pub hostname: String,
}

/// A name server, with its fields as sequences of characters.
pub struct DnsServerView {
    pub ip: Seq<char>,
    pub hostname: Seq<char>,
}

impl View for DnsServer {
    type V = DnsServerView;

    open spec fn view(&self) -> DnsServerView {
        DnsServerView { ip: self.ip@, hostname: self.hostname@ }
    }
}

/// Whether `line` names a server: its first word is `nameserver`.
pub open spec fn spec_names_server(line: Seq<char>) -> bool {
    spec_tokens(line).len() > 0 && spec_tokens(line)[0] == KEYWORD@
}

/// The server that a line with the word `nameserver` names: its address is the
/// second word. A line without a second word fails.
pub open spec fn spec_server(line: Seq<char>) -> Result<DnsServerView, Error> {
    if spec_tokens(line).len() > 1 {
        Ok(DnsServerView { ip: spec_trim(spec_tokens(line)[1]), hostname: Seq::empty() })
    } else {
        Err(Error::ParseFile(FILE, NO_ADDRESS))
    }
}

/// The servers that the configuration `content` names, in the order of its
/// lines, or the failure of the first line that has the word and no address.
pub open spec fn spec_get_list(content: Seq<char>) -> Result<Seq<DnsServerView>, Error> {
    try_map(
        spec_lines(content).filter(|line: Seq<char>| spec_names_server(line)),
        |line: Seq<char>| spec_server(line),
    )
}

/// Reads the name servers from `content`, the text of `FILE`.
///
/// Returns one record for each line whose first word is `nameserver`, in the
/// order of the lines, with the second word as the address and an empty host
/// name. Fails if and only if such a line has no second word.
pub fn get_list(content: &str) -> (r: Result<Vec<DnsServer>, Error>)
    ensures
        outcome(r) == spec_get_list(content@),
{
    let chars = to_chars(content);
    let rows = lines(&chars);
    let ghost all = views(rows@);
    let ghost keep = |line: Seq<char>| spec_names_server(line);
    let ghost read = |line: Seq<char>| spec_server(line);
    let mut list: Vec<DnsServer> = Vec::new();
    let mut i: usize = 0;
    proof {
        reveal(Seq::filter);
        assert(all.take(0) =~= Seq::<Seq<char>>::empty());
        assert(views(list@) =~= Seq::<DnsServerView>::empty());
    }
    while i < rows.len()
        invariant
            i <= rows.len(),
            all == views(rows@),
            all == spec_lines(content@),
            keep == |line: Seq<char>| spec_names_server(line),
            read == |line: Seq<char>| spec_server(line),
            try_map(all.take(i as int).filter(keep), read) == Ok::<Seq<DnsServerView>, Error>(
                views(list@),
            ),
        decreases rows.len() - i,
    {
        proof {
            lemma_filter_step(all, keep, i as int);
            assert(all[i as int] == rows@[i as int]@);
            lemma_try_map_push(all.take(i as int).filter(keep), read, all[i as int]);
        }
        let words = tokens(&rows[i]);
        proof {
            if words@.len() > 0 {
                assert(views(words@)[0] == words@[0]@);
            }
            if words@.len() > 1 {
                assert(views(words@)[1] == words@[1]@);
            }
        }
        if words.len() > 0 && is_word(&words[0], KEYWORD) {
            if words.len() < 2 {
                proof {
                    lemma_filter_prefix(all, keep, i + 1);
                    lemma_try_map_fails(
                        all.filter(keep),
                        read,
                        all.take(i + 1).filter(keep).len() as int,
                    );
                }
                return Err(Error::ParseFile(FILE, NO_ADDRESS));
            }
            let address = trim(&words[1]);
            let server = DnsServer { ip: to_string(&address), hostname: String::new() };
            proof {
                lemma_views_push(list@, server);
            }
            list.push(server);
        }
        i += 1;
    }
    proof {
        assert(all.take(rows.len() as int) =~= all);
    }
    Ok(list)
}

} // verus!
