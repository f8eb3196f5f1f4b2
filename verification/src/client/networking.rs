//! Where the client connects: the host and port named by the server's URL.

use vstd::prelude::*;
use vstd::string::StringExecFns;

verus! {

/// What the url crate makes of `s`: on success the URL's host, if it has
/// one, and its explicit port, if it names one that is not its scheme's
/// default; on failure the text of the parse error.
pub uninterp spec fn parsed_url(s: Seq<char>) -> Result<(Option<Seq<char>>, Option<u16>), Seq<char>>;

/// The view of an optional string.
pub open spec fn opt_view(o: Option<String>) -> Option<Seq<char>> {
    match o {
        Some(s) => Some(s@),
        None => None,
    }
}

/// What a parse outcome says, by views.
pub open spec fn parsed_view(r: Result<(Option<String>, Option<u16>), String>) -> Result<(Option<Seq<char>>, Option<u16>), Seq<char>> {
    match r {
        Ok((h, p)) => Ok((opt_view(h), p)),
        Err(m) => Err(m@),
    }
}

/// `url::Url::parse` on `server_url`, then `host_str` and `port` of the
/// result, or the text of the parse error (its `Display`). The contract
/// claims that the outcome is the one `parsed_url` names for the string.
#[verifier::external_body]
fn parse_url(server_url: &str) -> (res: Result<(Option<String>, Option<u16>), String>)
    ensures
        res is Ok <==> parsed_url(server_url@) is Ok,
        res is Ok ==> parsed_url(server_url@) == parsed_view(res),
        res is Err ==> res->Err_0@ == parsed_url(server_url@)->Err_0,
{
    match url::Url::parse(server_url) {
        Ok(u) => {
            let host = match u.host_str() {
                Some(h) => Some(h.to_string()),
                None => None,
            };
            Ok((host, u.port()))
        },
        Err(e) => Err(e.to_string()),
    }
}

/// Port the client connects to when the URL names none.
pub const DEFAULT_PORT: u16 = 9001;

/// Host and port to connect to, given what parsing the URL gave: the host,
/// with the URL's port or `DEFAULT_PORT`; a URL without a host is refused
/// with `"No host in URL"`, and a parse error `e` with `"Invalid URL: "`
/// followed by `e`.
pub fn target_from_parsed(parsed: Result<(Option<String>, Option<u16>), String>) -> (res: Result<(String, u16), String>)
    ensures
        parsed matches Err(m) ==> (res matches Err(r) && r@ == "Invalid URL: "@ + m@),
        parsed matches Ok((None, _)) ==> (res matches Err(r) && r@ == "No host in URL"@),
        parsed matches Ok((Some(h), p)) ==> (res matches Ok((hh, pp)) && hh@ == h@ && pp == (
        match p {
            Some(x) => x,
            None => DEFAULT_PORT,
        })),
{
    match parsed {
        Err(m) => Err("Invalid URL: ".to_owned().concat(m.as_str())),
        Ok((None, _)) => Err("No host in URL".to_owned()),
        Ok((Some(h), p)) => {
            let port = match p {
                Some(x) => x,
                None => DEFAULT_PORT,
            };
            Ok((h, port))
        },
    }
}

/// Host and port that the client connects to for `server_url`: the URL's
/// host and port (`DEFAULT_PORT` when it names none); an unparsable URL is
/// refused with `"Invalid URL: "` and the parse error, one without a host
/// with `"No host in URL"`.
pub fn connection_target(server_url: &str) -> (res: Result<(String, u16), String>)
    ensures
        parsed_url(server_url@) matches Err(e) ==> (res matches Err(m) && m@ == "Invalid URL: "@ + e),
        parsed_url(server_url@) matches Ok((None, _)) ==> (res matches Err(m) && m@ == "No host in URL"@),
        parsed_url(server_url@) matches Ok((Some(h), p)) ==> (res matches Ok((hh, pp)) && hh@ == h && pp == (
        match p {
            Some(x) => x,
            None => DEFAULT_PORT,
        })),
{
    target_from_parsed(parse_url(server_url))
}

} // verus!
