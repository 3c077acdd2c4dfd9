use stream_relay::event::{Author, MediaKind, Nested, Source, Timestamp, Tweet};
use stream_relay::render::{
    author_line, Renderer, HASHTAGS_HEADER, MEDIA_HEADER, MENTIONS_HEADER, PLACE_PREFIX, QUOTE_MARKER,
    RETWEET_MARKER, SYMBOLS_HEADER, TRUNCATION_MARKER, URLS_HEADER,
};

fn tweet(name: &str, text: &str) -> Tweet {
    Tweet {
        author: Some(Author { name: name.to_string(), handle: name.to_string() }),
        created_at: Timestamp::from_unix_seconds(0).unwrap(),
        text: text.to_string(),
        reply_to: None,
        nested: Nested::Plain,
        source: None,
        place: None,
        hashtags: vec![],
        symbols: vec![],
        urls: vec![],
        mentions: vec![],
        media: vec![],
    }
}

fn utc() -> Renderer {
    Renderer::new(0, 5).unwrap()
}

#[test]
fn plain_event_with_hashtag() {
    let mut t = tweet("alice", "hello world");
    t.hashtags = vec!["rust".to_string()];
    let lines = utc().render(&t);
    assert_eq!(
        lines,
        vec![
            "alice (@alice) posted at 1970-01-01 00:00:00 +00:00".to_string(),
            "hello world".to_string(),
            HASHTAGS_HEADER.to_string(),
            "rust".to_string(),
        ]
    );
}

#[test]
fn time_shown_in_display_zone() {
    let mut t = tweet("bob", "hi");
    t.created_at = Timestamp::from_unix_seconds(1_600_000_000).unwrap();
    let lines = Renderer::new(3600, 5).unwrap().render(&t);
    assert_eq!(lines[0], "bob (@bob) posted at 2020-09-13 13:26:40 +01:00");
}

#[test]
fn renderer_rejects_zone_of_a_day() {
    assert!(Renderer::new(86_400, 5).is_none());
    assert!(Renderer::new(-86_400, 5).is_none());
    assert!(Renderer::new(-86_399, 0).is_some());
}

#[test]
fn timestamp_range() {
    assert!(Timestamp::from_unix_seconds(8_000_000_000_001).is_none());
    assert!(Timestamp::from_unix_seconds(-8_000_000_000_001).is_none());
    assert_eq!(Timestamp::from_unix_seconds(-5).unwrap().unix_seconds(), -5);
}

#[test]
fn repost_substitutes_original() {
    let mut original = tweet("carol", "original text");
    original.hashtags = vec!["tag".to_string()];
    let mut outer = tweet("dave", "RT outer text");
    outer.source = Some(Source { name: "web".to_string(), url: "https://w".to_string() });
    outer.place = Some("Paris".to_string());
    outer.mentions = vec!["carol".to_string()];
    outer.nested = Nested::Repost(Box::new(original));
    let lines = utc().render(&outer);
    assert_eq!(
        lines,
        vec![
            "dave (@dave) posted at 1970-01-01 00:00:00 +00:00".to_string(),
            RETWEET_MARKER.to_string(),
            "carol (@carol) posted at 1970-01-01 00:00:00 +00:00".to_string(),
            "original text".to_string(),
            HASHTAGS_HEADER.to_string(),
            "tag".to_string(),
        ]
    );
    assert!(!lines.iter().any(|l| l == "RT outer text"));
}

#[test]
fn quote_adds_to_own_content() {
    let quoted = tweet("erin", "quoted text");
    let mut outer = tweet("frank", "my comment");
    outer.reply_to = Some("erin".to_string());
    outer.source = Some(Source { name: "app".to_string(), url: "https://a".to_string() });
    outer.place = Some("Oslo".to_string());
    outer.symbols = vec!["XYZ".to_string()];
    outer.nested = Nested::Quote(Box::new(quoted));
    let lines = utc().render(&outer);
    assert_eq!(
        lines,
        vec![
            "frank (@frank) posted at 1970-01-01 00:00:00 +00:00".to_string(),
            "➜ in reply to @erin".to_string(),
            "my comment".to_string(),
            "➜ via app (https://a)".to_string(),
            format!("{}Oslo", PLACE_PREFIX),
            QUOTE_MARKER.to_string(),
            "erin (@erin) posted at 1970-01-01 00:00:00 +00:00".to_string(),
            "quoted text".to_string(),
            SYMBOLS_HEADER.to_string(),
            "XYZ".to_string(),
        ]
    );
}

#[test]
fn quote_may_wrap_a_repost() {
    let inner = tweet("gina", "deep");
    let mut repost = tweet("hal", "ignored");
    repost.nested = Nested::Repost(Box::new(inner));
    let mut outer = tweet("ivy", "look");
    outer.nested = Nested::Quote(Box::new(repost));
    let lines = utc().render(&outer);
    assert_eq!(lines.len(), 7);
    assert_eq!(lines[2], QUOTE_MARKER);
    assert!(lines[3].starts_with("hal (@hal)"));
    assert_eq!(lines[4], RETWEET_MARKER);
    assert!(lines[5].starts_with("gina (@gina)"));
    assert_eq!(lines[6], "deep");
    assert!(!lines.iter().any(|l| l == "ignored"));
}

#[test]
fn empty_lists_give_no_headers() {
    let mut t = tweet("jo", "nothing attached");
    t.urls = vec![None, None];
    let lines = utc().render(&t);
    assert_eq!(lines.len(), 2);
    for header in [HASHTAGS_HEADER, SYMBOLS_HEADER, URLS_HEADER, MENTIONS_HEADER, MEDIA_HEADER] {
        assert!(!lines.iter().any(|l| l == header));
    }
}

#[test]
fn all_sections_in_order() {
    let mut t = tweet("kim", "full");
    t.author = None;
    t.hashtags = vec!["a".to_string(), "b".to_string()];
    t.symbols = vec!["S".to_string()];
    t.urls = vec![None, Some("https://x.example/1".to_string()), None];
    t.mentions = vec!["lee".to_string()];
    t.media = vec![MediaKind::Photo, MediaKind::Gif, MediaKind::Video];
    let lines = utc().render(&t);
    assert_eq!(
        lines,
        vec![
            "full".to_string(),
            HASHTAGS_HEADER.to_string(),
            "a".to_string(),
            "b".to_string(),
            SYMBOLS_HEADER.to_string(),
            "S".to_string(),
            URLS_HEADER.to_string(),
            "https://x.example/1".to_string(),
            MENTIONS_HEADER.to_string(),
            "lee".to_string(),
            MEDIA_HEADER.to_string(),
            "A Photo".to_string(),
            "A Gif".to_string(),
            "A Video".to_string(),
        ]
    );
}

#[test]
fn nesting_past_bound_is_truncated() {
    let mut t = tweet("n0", "level 0");
    for i in 1..20 {
        let mut outer = tweet(&format!("n{}", i), "wrapper");
        outer.nested = Nested::Quote(Box::new(t));
        t = outer;
    }
    let lines = Renderer::new(0, 2).unwrap().render(&t);
    let markers = lines.iter().filter(|l| *l == TRUNCATION_MARKER).count();
    assert_eq!(markers, 1);
    assert_eq!(lines.iter().filter(|l| *l == QUOTE_MARKER).count(), 3);
    assert!(!lines.iter().any(|l| l == "level 0"));
}

#[test]
fn nesting_within_bound_is_shown() {
    let inner = tweet("m1", "inner");
    let mut outer = tweet("m0", "outer");
    outer.nested = Nested::Repost(Box::new(inner));
    let lines = Renderer::new(0, 1).unwrap().render(&outer);
    assert!(!lines.iter().any(|l| l == TRUNCATION_MARKER));
    assert_eq!(lines.last().unwrap(), "inner");
    let cut = Renderer::new(0, 0).unwrap().render(&outer);
    assert_eq!(cut.last().unwrap(), TRUNCATION_MARKER);
}

#[test]
fn author_line_from_shown_time() {
    assert_eq!(
        author_line("alice", "alice", "2020-01-01 00:00:00 +00:00"),
        "alice (@alice) posted at 2020-01-01 00:00:00 +00:00"
    );
}
