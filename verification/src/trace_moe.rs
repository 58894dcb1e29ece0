//! Finding the sources of the pictures in a message.

use vstd::prelude::*;
use vstd::string::*;
use crate::discord::{embed_views, Embed, EmbedField, EmbedView};
use crate::pattern::{find_all, pattern_matches};
use crate::text::views;

verus! {

/// Matches the addresses of pictures: GIFs of one hosting site, and any
/// address that ends in the name of a picture file.
pub const IMG_URL_PATTERN: &'static str =
    "(https://tenor.com/view/[A-Za-z0-9/-]+)|(https?://(?:[a-z0-9\\-]+\\.)+[a-z]{2,6}(?:/[^/#?]+)+\\.(?:jpe?g|gif|png))";

/// What is replied where a message holds no picture.
pub const NO_IMAGES: &'static str = "No images found, sorry!";

/// The title of each card.
pub const RESULT_TITLE: &'static str = "Anime Source Results";

/// The reply to a search for sources.
#[derive(Debug, Clone, PartialEq, Eq)]
pub enum SourceReply {
    /// One card for each picture found.
    Cards { cards: Vec<Embed> },
    /// A plain text.
    Text { content: String },
}

/// What a [`SourceReply`] holds, as mathematical values.
pub enum SourceReplyView {
    Cards { cards: Seq<EmbedView> },
    Text { content: Seq<char> },
}

impl View for SourceReply {
    type V = SourceReplyView;

    open spec fn view(&self) -> SourceReplyView {
        match self {
            SourceReply::Cards { cards } => SourceReplyView::Cards { cards: embed_views(cards@) },
            SourceReply::Text { content } => SourceReplyView::Text { content: content@ },
        }
    }
}

/// The card for the picture at `url`: the picture itself, linked to the
/// search for its source.
pub open spec fn source_card(url: Seq<char>) -> EmbedView {
    EmbedView {
        title: RESULT_TITLE@,
        description: None,
        url: Some("https://trace.moe/?url="@ + url),
        image: Some(url),
        color: None,
        fields: Seq::empty(),
        footer: None,
    }
}

/// The reply for the pictures at `urls`, in order.
pub open spec fn reply_for(urls: Seq<Seq<char>>) -> SourceReplyView {
    if urls.len() == 0 {
        SourceReplyView::Text { content: NO_IMAGES@ }
    } else {
        SourceReplyView::Cards { cards: urls.map_values(|u: Seq<char>| source_card(u)) }
    }
}

/// The addresses that the pattern finds in `content`; none where the
/// pattern is no valid expression.
pub open spec fn picture_urls(content: Seq<char>) -> Seq<Seq<char>> {
    match pattern_matches(IMG_URL_PATTERN@, content) {
        Some(urls) => urls,
        None => Seq::empty(),
    }
}

/// The reply for the pictures at `urls`.
pub fn sources_reply(urls: &Vec<String>) -> (reply: SourceReply)
    ensures
        reply@ == reply_for(views(urls@)),
{
    if urls.len() == 0 {
        return SourceReply::Text { content: String::from_str(NO_IMAGES) };
    }
    let mut cards: Vec<Embed> = Vec::new();
    let mut i: usize = 0;
    while i < urls.len()
        invariant
            i <= urls.len(),
            embed_views(cards@) == views(urls@).take(i as int).map_values(
                |u: Seq<char>| source_card(u),
            ),
        decreases urls.len() - i,
    {
        let mut link = String::from_str("https://trace.moe/?url=");
        link.append(urls[i].as_str());
        let fields: Vec<EmbedField> = Vec::new();
        let card = Embed {
            title: String::from_str(RESULT_TITLE),
            description: None,
            url: Some(link),
            image: Some(urls[i].clone()),
            color: None,
            fields,
            footer: None,
        };
        assert(card@.fields =~= Seq::empty());
        assert(card@ == source_card(urls@[i as int]@));
        let ghost before = embed_views(cards@);
        cards.push(card);
        assert(embed_views(cards@) =~= before.push(card@));
        assert(embed_views(cards@) =~= views(urls@).take(i + 1).map_values(
            |u: Seq<char>| source_card(u),
        ));
        i += 1;
    }
    assert(views(urls@).take(urls.len() as int) == views(urls@));
    SourceReply::Cards { cards }
}

/// Finds the pictures in the text of a message and gives the reply that
/// links each to the search for its source.
pub fn find_anime_source(content: &str) -> (reply: SourceReply)
    ensures
        reply@ == reply_for(picture_urls(content@)),
{
    match find_all(IMG_URL_PATTERN, content) {
        Some(urls) => sources_reply(&urls),
        None => {
            let urls: Vec<String> = Vec::new();
            assert(views(urls@) =~= Seq::empty());
            sources_reply(&urls)
        },
    }
}

} // verus!
