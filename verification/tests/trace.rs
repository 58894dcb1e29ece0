use nano::trace_moe::{find_anime_source, sources_reply, SourceReply, NO_IMAGES};

#[test]
fn no_picture_gives_a_plain_reply() {
    assert_eq!(
        find_anime_source("nothing to see"),
        SourceReply::Text { content: "No images found, sorry!".to_string() }
    );
    assert_eq!(find_anime_source(""), SourceReply::Text { content: NO_IMAGES.to_string() });
    assert_eq!(
        find_anime_source("https://example.com/page.html"),
        SourceReply::Text { content: NO_IMAGES.to_string() }
    );
}

#[test]
fn each_picture_gets_a_card() {
    let content =
        "look https://tenor.com/view/happy-cat-123 and http://i.imgur.com/a/b.png too";
    match find_anime_source(content) {
        SourceReply::Cards { cards } => {
            assert_eq!(cards.len(), 2);
            assert_eq!(cards[0].title, "Anime Source Results");
            assert_eq!(
                cards[0].image,
                Some("https://tenor.com/view/happy-cat-123".to_string())
            );
            assert_eq!(
                cards[0].url,
                Some("https://trace.moe/?url=https://tenor.com/view/happy-cat-123".to_string())
            );
            assert_eq!(cards[0].description, None);
            assert!(cards[0].fields.is_empty());
            assert_eq!(cards[1].image, Some("http://i.imgur.com/a/b.png".to_string()));
            assert_eq!(
                cards[1].url,
                Some("https://trace.moe/?url=http://i.imgur.com/a/b.png".to_string())
            );
        }
        _ => panic!("expected cards"),
    }
}

#[test]
fn picture_files_are_told_by_their_ending() {
    for url in [
        "https://cdn.example.org/x/y/z.jpg",
        "https://a.bc/p.jpeg",
        "http://a.bc/p.gif",
    ] {
        match find_anime_source(url) {
            SourceReply::Cards { cards } => assert_eq!(cards[0].image, Some(url.to_string())),
            _ => panic!("expected a card for {}", url),
        }
    }
}

#[test]
fn sources_reply_goes_by_the_addresses_given() {
    assert_eq!(sources_reply(&vec![]), SourceReply::Text { content: NO_IMAGES.to_string() });
    match sources_reply(&vec!["u".to_string()]) {
        SourceReply::Cards { cards } => {
            assert_eq!(cards.len(), 1);
            assert_eq!(cards[0].url, Some("https://trace.moe/?url=u".to_string()));
        }
        _ => panic!("expected cards"),
    }
}
