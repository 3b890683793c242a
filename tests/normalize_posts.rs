use bluedog::post::{
    normalize, reposted_by_label, Embed, QuotedEmbed, RawAuthor, RawEmbed, RawPost, RawQuotedEmbed,
    RawQuotedPost, RawReason,
};

fn bare_post() -> RawPost {
    RawPost {
        uri: "at://did:plc:a/app.bsky.feed.post/1".to_string(),
        cid: "bafy".to_string(),
        author: RawAuthor { did: "did:plc:a".to_string(), handle: "a.example".to_string(), display_name: None, avatar: None },
        text: None,
        indexed_at: "2025-02-03T04:05:06Z".to_string(),
        reply_count: None,
        like_count: None,
        repost_count: None,
        quote_count: None,
        embed: None,
        viewer_like: None,
    }
}

#[test]
fn all_optional_fields_absent() {
    let p = normalize(bare_post(), String::new());
    assert_eq!(p.author.display_name, "");
    assert_eq!(p.author.avatar, "");
    assert_eq!(p.author.handle, "a.example");
    assert_eq!(p.text, "");
    assert_eq!(p.reply_count, 0);
    assert_eq!(p.like_count, 0);
    assert_eq!(p.quote_and_repost_count, 0);
    assert!(matches!(p.embed, Embed::Empty));
    assert_eq!(p.viewer_like_uri, "");
    assert_eq!(p.reposted_by, "");
    assert_eq!(p.posted_at, "2025-02-03T04:05:06Z");
}

#[test]
fn engagement_sum_three_and_two() {
    let mut raw = bare_post();
    raw.repost_count = Some(3);
    raw.quote_count = Some(2);
    assert_eq!(normalize(raw, String::new()).quote_and_repost_count, 5);
}

#[test]
fn engagement_sum_one_absent() {
    let mut raw = bare_post();
    raw.quote_count = Some(7);
    assert_eq!(normalize(raw, String::new()).quote_and_repost_count, 7);
}

#[test]
fn engagement_sum_does_not_overflow() {
    let mut raw = bare_post();
    raw.repost_count = Some(i64::MAX);
    raw.quote_count = Some(i64::MAX);
    assert_eq!(normalize(raw, String::new()).quote_and_repost_count, 2 * (i64::MAX as i128));
}

#[test]
fn present_fields_are_kept() {
    let mut raw = bare_post();
    raw.author.display_name = Some("A".to_string());
    raw.author.avatar = Some("https://cdn/a.jpg".to_string());
    raw.text = Some("hello".to_string());
    raw.reply_count = Some(4);
    raw.like_count = Some(9);
    raw.viewer_like = Some("at://like/1".to_string());
    let p = normalize(raw, "Bob".to_string());
    assert_eq!(p.author.display_name, "A");
    assert_eq!(p.author.avatar, "https://cdn/a.jpg");
    assert_eq!(p.text, "hello");
    assert_eq!(p.reply_count, 4);
    assert_eq!(p.like_count, 9);
    assert_eq!(p.viewer_like_uri, "at://like/1");
    assert_eq!(p.reposted_by, "Bob");
    assert_eq!(p.cid, "bafy");
}

#[test]
fn image_embed() {
    let mut raw = bare_post();
    raw.embed = Some(RawEmbed::Images { thumbs: vec!["t1".to_string(), "t2".to_string()] });
    match normalize(raw, String::new()).embed {
        Embed::Images { thumbs } => assert_eq!(thumbs, vec!["t1", "t2"]),
        _ => panic!("expected images"),
    }
}

#[test]
fn external_embed_without_thumb() {
    let mut raw = bare_post();
    raw.embed = Some(RawEmbed::External {
        uri: "https://example.com".to_string(),
        title: "Example".to_string(),
        description: "An example".to_string(),
        thumb: None,
    });
    match normalize(raw, String::new()).embed {
        Embed::External { uri, title, description, thumb } => {
            assert_eq!(uri, "https://example.com");
            assert_eq!(title, "Example");
            assert_eq!(description, "An example");
            assert_eq!(thumb, "");
        }
        _ => panic!("expected an external card"),
    }
}

#[test]
fn video_embed() {
    let mut raw = bare_post();
    raw.embed = Some(RawEmbed::Video { playlist: "https://v/p.m3u8".to_string(), thumbnail: Some("https://v/t.jpg".to_string()) });
    match normalize(raw, String::new()).embed {
        Embed::Video { playlist, thumb } => {
            assert_eq!(playlist, "https://v/p.m3u8");
            assert_eq!(thumb, "https://v/t.jpg");
        }
        _ => panic!("expected a video"),
    }
}

#[test]
fn quoted_post_one_level() {
    let mut raw = bare_post();
    raw.embed = Some(RawEmbed::Record {
        quoted: Some(RawQuotedPost {
            uri: "at://q/1".to_string(),
            author: RawAuthor { did: "did:plc:q".to_string(), handle: "q.example".to_string(), display_name: None, avatar: Some("av".to_string()) },
            text: Some("quoted".to_string()),
            indexed_at: "2024-12-31T00:00:00Z".to_string(),
            embeds: Some(vec![
                RawQuotedEmbed::Images { thumbs: vec!["qt".to_string()] },
                RawQuotedEmbed::Record,
                RawQuotedEmbed::External,
            ]),
        }),
    });
    match normalize(raw, String::new()).embed {
        Embed::Quote { post: Some(q) } => {
            assert_eq!(q.uri, "at://q/1");
            assert_eq!(q.text, "quoted");
            assert_eq!(q.posted_at, "2024-12-31T00:00:00Z");
            assert_eq!(q.author.display_name, "");
            assert_eq!(q.author.avatar, "av");
            assert_eq!(q.embeds.len(), 3);
            match &q.embeds[0] {
                QuotedEmbed::Images { thumbs } => assert_eq!(thumbs, &vec!["qt".to_string()]),
                _ => panic!("expected images"),
            }
            assert!(matches!(q.embeds[1], QuotedEmbed::Other));
            assert!(matches!(q.embeds[2], QuotedEmbed::Other));
        }
        _ => panic!("expected a quote"),
    }
}

#[test]
fn unavailable_quote_and_unknown_embeds() {
    let mut raw = bare_post();
    raw.embed = Some(RawEmbed::Record { quoted: None });
    assert!(matches!(normalize(raw, String::new()).embed, Embed::Quote { post: None }));
    let mut raw = bare_post();
    raw.embed = Some(RawEmbed::Unrecognized);
    assert!(matches!(normalize(raw, String::new()).embed, Embed::Empty));
    let mut raw = bare_post();
    raw.embed = Some(RawEmbed::RecordWithMedia);
    assert!(matches!(normalize(raw, String::new()).embed, Embed::Empty));
}

#[test]
fn repost_labels() {
    assert_eq!(reposted_by_label(None), "");
    assert_eq!(reposted_by_label(Some(RawReason::Pin)), "");
    assert_eq!(reposted_by_label(Some(RawReason::Unrecognized)), "");
    assert_eq!(
        reposted_by_label(Some(RawReason::Repost { by_handle: "h".to_string(), by_display_name: Some(String::new()) })),
        ""
    );
    assert_eq!(reposted_by_label(Some(RawReason::Repost { by_handle: "h".to_string(), by_display_name: None })), "h");
}
