//! Getting poetry from the Web: how a poem is searched for, and how it is
//! read off the page that holds it.
//!
//! Pages are taken apart by the `scraper` crate. What it finds in a page is
//! given a name here; the functions of this module say what is made of it.

use vstd::prelude::*;
use vstd::string::*;
use crate::discord::opt_view;
use crate::request::{push_pair, Pair, Request, RequestView};
use crate::text::{join, joined, views};

verus! {

/// Where poems are searched for.
pub const SEARCH_URL: &'static str = "https://www.poetryfoundation.org/search";

/// The site that the links of a search result belong to.
pub const SITE: &'static str = "https://poetryfoundation.org";

/// Selects the links of a search result.
pub const LINK_SELECTOR: &'static str = "h2 > a";

/// Selects the body of a poem.
pub const POEM_SELECTOR: &'static str = "div.o-poem";

/// Selects the name of the poet.
pub const POET_SELECTOR: &'static str = "span.c-txt_attribution a";

/// Selects the title.
pub const TITLE_SELECTOR: &'static str = "h1";

/// What stands for a poet's name that the page does not give.
pub const NO_AUTHOR: &'static str = "[Author not found]";

/// What stands for a title that the page does not give.
pub const NO_TITLE: &'static str = "[Title not found]";

/// The pieces of text inside the first element of the page `html` that
/// the CSS selector `selector` matches, in the order of the page. `None`
/// where nothing matches, or `selector` is not a valid selector.
pub uninterp spec fn selected_texts(html: Seq<char>, selector: Seq<char>) -> Option<
    Seq<Seq<char>>,
>;

/// The value of the attribute `attr` of the first element of the page
/// `html` that the CSS selector `selector` matches. `None` where nothing
/// matches, the element has no such attribute, or `selector` is not a
/// valid selector.
pub uninterp spec fn selected_attr(html: Seq<char>, selector: Seq<char>, attr: Seq<char>)
    -> Option<Seq<char>>;

/// Parses `html` with `scraper::Html::parse_fragment`, the selector with
/// `scraper::Selector::parse`, takes the first element that
/// `Html::select` yields and collects what `ElementRef::text` yields for
/// it. The contract only names the outcome.
#[verifier::external_body]
fn first_texts(html: &str, selector: &str) -> (texts: Option<Vec<String>>)
    ensures
        texts matches Some(list) ==> selected_texts(html@, selector@) == Some(views(list@)),
        texts is None ==> selected_texts(html@, selector@) is None,
{
    let parsed = scraper::Selector::parse(selector).ok()?;
    let page = scraper::Html::parse_fragment(html);
    let element = page.select(&parsed).next()?;
    let mut texts = Vec::new();
    for piece in element.text() {
        texts.push(piece.to_string());
    }
    Some(texts)
}

/// Parses `html` with `scraper::Html::parse_fragment`, the selector with
/// `scraper::Selector::parse`, takes the first element that
/// `Html::select` yields and asks `Element::attr` for `attr`. The contract
/// only names the outcome.
#[verifier::external_body]
fn first_attr(html: &str, selector: &str, attr: &str) -> (value: Option<String>)
    ensures
        opt_view(value) == selected_attr(html@, selector@, attr@),
{
    let parsed = scraper::Selector::parse(selector).ok()?;
    let page = scraper::Html::parse_fragment(html);
    let element = page.select(&parsed).next()?;
    match element.value().attr(attr) {
        Some(found) => Some(found.to_string()),
        None => None,
    }
}

/// A poem with poet, link to site, and text.
#[derive(Debug, Clone, Hash, PartialEq, Eq)]
pub struct Poem {
    /// The poet's name.
    pub poet: String,
    /// The poem's text.
    pub poem: String,
    /// The poem's title.
    pub title: String,
    /// The URL to the poem.
    pub url: String,
}

/// What a [`Poem`] holds, as mathematical values.
pub struct PoemView {
    pub poet: Seq<char>,
    pub poem: Seq<char>,
    pub title: Seq<char>,
    pub url: Seq<char>,
}

impl View for Poem {
    type V = PoemView;

    open spec fn view(&self) -> PoemView {
        PoemView { poet: self.poet@, poem: self.poem@, title: self.title@, url: self.url@ }
    }
}

/// The view of an optional poem.
pub open spec fn poem_view(poem: Option<Poem>) -> Option<PoemView> {
    match poem {
        Some(p) => Some(p@),
        None => None,
    }
}

/// The view of an optional list of strings.
pub open spec fn texts_view(texts: Option<Vec<String>>) -> Option<Seq<Seq<char>>> {
    match texts {
        Some(list) => Some(views(list@)),
        None => None,
    }
}

/// The request that searches for `query`.
pub open spec fn search_request(query: Seq<char>) -> RequestView {
    RequestView { url: SEARCH_URL@, query: seq![("query"@, query)] }
}

/// The address of the poem that a search result links to with `href`.
pub open spec fn poem_url(href: Seq<char>) -> Seq<char> {
    SITE@ + href
}

/// The first piece of `texts`, or `fallback` where there is none.
pub open spec fn first_or(texts: Seq<Seq<char>>, fallback: Seq<char>) -> Seq<char> {
    if texts.len() > 0 {
        texts[0]
    } else {
        fallback
    }
}

/// The poem found at `url`, from the pieces of text of its body, of the
/// poet's name and of its title. A page that lacks any of the three
/// elements holds no poem.
pub open spec fn poem_of(
    url: Seq<char>,
    body: Option<Seq<Seq<char>>>,
    poet: Option<Seq<Seq<char>>>,
    title: Option<Seq<Seq<char>>>,
) -> Option<PoemView> {
    if body is Some && poet is Some && title is Some {
        Some(
            PoemView {
                poet: first_or(poet->0, NO_AUTHOR@),
                poem: joined(body->0, "\n"@),
                title: first_or(title->0, NO_TITLE@),
                url,
            },
        )
    } else {
        None
    }
}

/// The request to send in order to search for a poem matching `query`.
pub fn search_poem(query: &str) -> (request: Request)
    ensures
        request@ == search_request(query@),
{
    let mut pairs: Vec<Pair> = Vec::new();
    push_pair(&mut pairs, "query", query);
    let request = Request { url: String::from_str(SEARCH_URL), query: pairs };
    assert(request@.query =~= search_request(query@).query);
    request
}

/// The address of the poem behind the link `href` of a search result.
pub fn link_url(href: &str) -> (url: String)
    ensures
        url@ == poem_url(href@),
{
    let mut url = String::from_str(SITE);
    url.append(href);
    url
}

/// The address of the first poem that the search result `html` links to,
/// if it links to any.
pub fn first_poem_url(html: &str) -> (url: Option<String>)
    ensures
        opt_view(url) == match selected_attr(html@, LINK_SELECTOR@, "href"@) {
            Some(href) => Some(poem_url(href)),
            None => None,
        },
{
    match first_attr(html, LINK_SELECTOR, "href") {
        Some(href) => Some(link_url(href.as_str())),
        None => None,
    }
}

fn first_piece(texts: &Vec<String>, fallback: &str) -> (piece: String)
    ensures
        piece@ == first_or(views(texts@), fallback@),
{
    if texts.len() > 0 {
        texts[0].clone()
    } else {
        String::from_str(fallback)
    }
}

/// The poem found at `url`, from what the page holds in its body, in the
/// poet's name and in its title.
pub fn poem_from(
    url: &str,
    body: Option<Vec<String>>,
    poet: Option<Vec<String>>,
    title: Option<Vec<String>>,
) -> (poem: Option<Poem>)
    ensures
        poem_view(poem) == poem_of(url@, texts_view(body), texts_view(poet), texts_view(title)),
{
    match (body, poet, title) {
        (Some(lines), Some(names), Some(titles)) => Some(
            Poem {
                poet: first_piece(&names, NO_AUTHOR),
                poem: join(&lines, "\n"),
                title: first_piece(&titles, NO_TITLE),
                url: String::from_str(url),
            },
        ),
        _ => None,
    }
}

/// Parses a poem given the URL and the HTML of the URL.
pub fn parse_poem(url: &str, content: &str) -> (poem: Option<Poem>)
    ensures
        poem_view(poem) == poem_of(
            url@,
            selected_texts(content@, POEM_SELECTOR@),
            selected_texts(content@, POET_SELECTOR@),
            selected_texts(content@, TITLE_SELECTOR@),
        ),
{
    let body = first_texts(content, POEM_SELECTOR);
    let poet = first_texts(content, POET_SELECTOR);
    let title = first_texts(content, TITLE_SELECTOR);
    poem_from(url, body, poet, title)
}

} // verus!
