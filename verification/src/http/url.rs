//! Addresses of HTTP servers.

use crate::failure::Failure;
use crate::text::number::{
    decimal, decimal_text, lemma_decimal_spells, parse_u16, parsed_number, port_error,
};
use crate::text::search::{
    after_prefix, begins_with, index_of_char, last_index_of_char, lemma_index_of_char,
    split_at_first, split_at_last,
};
use vstd::prelude::*;

verus! {

/// The address of the server on a host and a port.
pub open spec fn server_url(host: Seq<char>, port: u16) -> Seq<char> {
    "http://"@ + host + ":"@ + decimal(port as nat)
}

/// The address of the server on a host and a port.
pub fn http_url(host: &str, port: u16) -> (url: String)
    ensures
        url@ == server_url(host@, port),
{
    "http://".to_string().concat(host).concat(":").concat(decimal_text(port as u64).as_str())
}

/// What stands between the scheme and the path of an address.
pub open spec fn authority(url: Seq<char>) -> Seq<char> {
    let rest = url.skip("http://"@.len() as int);
    rest.take(index_of_char(rest, '/'))
}

/// The host and the port of an address, or what is wrong with it.
pub open spec fn url_parts(url: Seq<char>) -> Result<(Seq<char>, u16), Seq<char>> {
    let colon = last_index_of_char(authority(url), ':');
    let port = authority(url).skip(colon + 1);
    if !begins_with(url, "http://"@) {
        Err("only http vLLM URLs are supported: "@ + url)
    } else if colon < 0 {
        Err("vLLM URL has no port: "@ + url)
    } else {
        match parsed_number(port, 10, u16::MAX as int) {
            Some(number) => Ok((authority(url).take(colon), number as u16)),
            None => Err(port_error(port)),
        }
    }
}

/// Takes an address apart into scheme, host and port.
pub fn parse_http_url(url: &str) -> (result: Result<(String, String, u16), Failure>)
    ensures
        match result {
            Ok((scheme, host, port)) => scheme@ == "http"@ && url_parts(url@) == Ok::<
                (Seq<char>, u16),
                Seq<char>,
            >((host@, port)),
            Err(failure) => url_parts(url@) is Err && failure@ == seq![url_parts(url@)->Err_0],
        },
{
    match after_prefix(url, "http://") {
        None => Err(
            Failure::new("only http vLLM URLs are supported: ".to_string().concat(url)),
        ),
        Some(rest) => {
            proof {
                lemma_index_of_char(rest@, '/');
                assert(rest@.take(rest@.len() as int) =~= rest@);
            }
            let host_port = match split_at_first(rest.as_str(), '/') {
                Some((head, _)) => head,
                None => rest,
            };
            match split_at_last(host_port.as_str(), ':') {
                None => Err(Failure::new("vLLM URL has no port: ".to_string().concat(url))),
                Some((host, port)) => match parse_u16(port.as_str()) {
                    Ok(number) => Ok(("http".to_string(), host, number)),
                    Err(message) => Err(Failure::new(message)),
                },
            }
        },
    }
}

proof fn lemma_last_index(text: Seq<char>, wanted: char, at: int)
    requires
        0 <= at < text.len(),
        text[at] == wanted,
        forall|i: int| at < i < text.len() ==> text[i] != wanted,
    ensures
        last_index_of_char(text, wanted) == at,
    decreases text.len(),
{
    if at < text.len() - 1 {
        lemma_last_index(text.drop_last(), wanted, at);
    }
}

proof fn lemma_no_char(text: Seq<char>, wanted: char)
    requires
        forall|i: int| 0 <= i < text.len() ==> text[i] != wanted,
    ensures
        index_of_char(text, wanted) == text.len(),
{
    lemma_index_of_char(text, wanted);
}

/// Taking apart the address of a host and a port gives the two back, whatever the host is, as
/// long as it holds no slash.
pub proof fn law_address_round_trip(host: Seq<char>, port: u16)
    requires
        forall|i: int| 0 <= i < host.len() ==> host[i] != '/',
    ensures
        url_parts(server_url(host, port)) == Ok::<(Seq<char>, u16), Seq<char>>((host, port)),
{
    let url = server_url(host, port);
    let digits = decimal(port as nat);
    let scheme = "http://"@;
    lemma_decimal_spells(port as nat, u16::MAX as int);
    reveal_strlit("http://");
    reveal_strlit(":");
    assert(":"@ =~= seq![':']);
    assert(url.subrange(0, scheme.len() as int) =~= scheme);
    let rest = url.skip(scheme.len() as int);
    assert(rest =~= host + seq![':'] + digits);
    assert forall|i: int| 0 <= i < rest.len() implies rest[i] != '/' by {
        if i >= host.len() + 1 {
            assert(rest[i] == digits[i - host.len() - 1]);
        }
    }
    lemma_no_char(rest, '/');
    assert(rest.take(rest.len() as int) =~= rest);
    assert forall|i: int| host.len() < i < rest.len() implies rest[i] != ':' by {
        assert(rest[i] == digits[i - host.len() - 1]);
    }
    lemma_last_index(rest, ':', host.len() as int);
    assert(rest.skip(host.len() as int + 1) =~= digits);
    assert(rest.take(host.len() as int) =~= host);
}

} // verus!
