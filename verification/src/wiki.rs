//! Looking things up in the encyclopedia: how a title is searched for, how
//! the answer to the search is read, and how a summary is shown.

use vstd::prelude::*;
use vstd::string::*;
use crate::request::{push_pair, Pair, Request, RequestView};
use crate::text::{occurs_at, strip_prefix};

verus! {

/// Where titles are searched for.
pub const SEARCH_URL: &'static str = "https://en.wikipedia.org/w/api.php";

/// Where summaries are found, before the title.
pub const SUMMARY_URL: &'static str = "https://en.wikipedia.org/api/rest_v1/page/summary/";

/// What the address of every page begins with.
pub const PAGE_PREFIX: &'static str = "https://en.wikipedia.org/wiki/";

/// A JSON value, as far as the answer to a search is read: strings and
/// lists are told apart from everything else.
#[derive(Debug)]
pub enum JsonValue {
    String(String),
    Array(Vec<JsonValue>),
    Other,
}

/// The summary of a page.
#[derive(Clone, Debug, PartialEq, Eq)]
pub struct Summary {
    pub title: String,
    pub extract: String,
}

/// The request that searches the main pages for the single best match for
/// `query`, forgiving misspellings and following redirects.
pub open spec fn search_request(query: Seq<char>) -> RequestView {
    RequestView {
        url: SEARCH_URL@,
        query: seq![
            ("action"@, "opensearch"@),
            ("search"@, query),
            ("limit"@, "1"@),
            ("namespace"@, "0"@),
            ("profile"@, "fuzzy"@),
            ("redirects"@, "resolve"@),
            ("format"@, "json"@),
        ],
    }
}

/// The request for the summary of the page called `title`.
pub open spec fn summary_request(title: Seq<char>) -> RequestView {
    RequestView { url: SUMMARY_URL@ + title, query: seq![("redirect"@, "true"@)] }
}

/// The links of an answer: the fourth of exactly four parts, where it is
/// a list.
pub open spec fn links_of(results: JsonValue) -> Option<Seq<JsonValue>> {
    match results {
        JsonValue::Array(parts) => if parts@.len() == 4 {
            match parts@[3] {
                JsonValue::Array(links) => Some(links@),
                _ => None,
            }
        } else {
            None
        },
        _ => None,
    }
}

/// What is reported when an answer cannot be read.
pub open spec fn unreadable(query: Seq<char>, rendered: Seq<char>) -> Seq<char> {
    "Parsing results for "@ + query + " failed:\n"@ + rendered
}

/// The title that the answer `results` to a search for `query` gives, or
/// the report of what is wrong with it. `rendered` is the answer as text.
///
/// An answer without links reports that no link was found; a first link
/// outside the encyclopedia reports the link; anything else that is not
/// four parts with a list of strings at the end reports the whole answer.
pub open spec fn title_of(query: Seq<char>, results: JsonValue, rendered: Seq<char>) -> Result<
    Seq<char>,
    Seq<char>,
> {
    match links_of(results) {
        Some(links) => if links.len() == 0 {
            Err("No link found for "@ + query)
        } else {
            match links[0] {
                JsonValue::String(url) => if occurs_at(url@, PAGE_PREFIX@, 0) {
                    Ok(url@.skip(PAGE_PREFIX@.len() as int))
                } else {
                    Err("Invalid URL: "@ + url@)
                },
                _ => Err(unreadable(query, rendered)),
            }
        },
        None => Err(unreadable(query, rendered)),
    }
}

/// The request to send in order to find the title matching `query`.
pub fn search_title(query: &str) -> (request: Request)
    ensures
        request@ == search_request(query@),
{
    let mut pairs: Vec<Pair> = Vec::new();
    push_pair(&mut pairs, "action", "opensearch");
    push_pair(&mut pairs, "search", query);
    push_pair(&mut pairs, "limit", "1");
    push_pair(&mut pairs, "namespace", "0");
    push_pair(&mut pairs, "profile", "fuzzy");
    push_pair(&mut pairs, "redirects", "resolve");
    push_pair(&mut pairs, "format", "json");
    let request = Request { url: String::from_str(SEARCH_URL), query: pairs };
    assert(request@.query =~= search_request(query@).query);
    request
}

fn unreadable_report(query: &str, rendered: &str) -> (report: String)
    ensures
        report@ == unreadable(query@, rendered@),
{
    let mut report = String::from_str("Parsing results for ");
    report.append(query);
    report.append(" failed:\n");
    report.append(rendered);
    report
}

/// Reads the title off the answer `results` to a search for `query`;
/// `rendered` is the answer as text, for the report of an answer that
/// cannot be read.
pub fn read_title(query: &str, results: &JsonValue, rendered: &str) -> (title: Result<
    String,
    String,
>)
    ensures
        match title {
            Ok(name) => title_of(query@, *results, rendered@) == Ok::<Seq<char>, Seq<char>>(name@),
            Err(report) => title_of(query@, *results, rendered@) == Err::<Seq<char>, Seq<char>>(
                report@,
            ),
        },
{
    if let JsonValue::Array(parts) = results {
        if parts.len() == 4 {
            if let JsonValue::Array(links) = &parts[3] {
                if links.len() == 0 {
                    let mut report = String::from_str("No link found for ");
                    report.append(query);
                    return Err(report);
                }
                if let JsonValue::String(url) = &links[0] {
                    return match strip_prefix(url.as_str(), PAGE_PREFIX) {
                        Some(name) => Ok(name),
                        None => {
                            let mut report = String::from_str("Invalid URL: ");
                            report.append(url.as_str());
                            Err(report)
                        },
                    };
                }
            }
        }
    }
    Err(unreadable_report(query, rendered))
}

/// The request to send for the summary of the page called `title`.
pub fn summary(title: &str) -> (request: Request)
    ensures
        request@ == summary_request(title@),
{
    let mut url = String::from_str(SUMMARY_URL);
    url.append(title);
    let mut pairs: Vec<Pair> = Vec::new();
    push_pair(&mut pairs, "redirect", "true");
    let request = Request { url, query: pairs };
    assert(request@.query =~= summary_request(title@).query);
    request
}

/// The reply that shows a summary: the title as a heading over the
/// extract.
pub fn wiki(found: &Summary) -> (reply: String)
    ensures
        reply@ == "## "@ + found.title@ + "\n"@ + found.extract@,
{
    let mut reply = String::from_str("## ");
    reply.append(found.title.as_str());
    reply.append("\n");
    reply.append(found.extract.as_str());
    reply
}

} // verus!
