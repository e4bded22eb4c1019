use youtube_irc_bot::descriptor::YoutubeDescriptor;
use youtube_irc_bot::error::Error;
use youtube_irc_bot::normalize::{fix_youtube_url, replace};

#[test]
fn test_descriptor() {
    for trailing_crud in ["", "?", "?stuff", "#", "#stuff"].iter() {
        assert_eq!(
            YoutubeDescriptor::from_url(&format!("https://www.youtube.com/channel/UChBBWt5H8uZW1LSOh_aPt2Q{}", trailing_crud)).unwrap(),
            YoutubeDescriptor::Channel("UChBBWt5H8uZW1LSOh_aPt2Q".to_string()));
        assert_eq!(
            YoutubeDescriptor::from_url(&format!("https://www.youtube.com/channel/UChBBWt5H8uZW1LSOh_aPt2Q/videos{}", trailing_crud)).unwrap(),
            YoutubeDescriptor::Channel("UChBBWt5H8uZW1LSOh_aPt2Q".to_string()));
        assert_eq!(
            YoutubeDescriptor::from_url(&format!("https://www.youtube.com/user/jblow888{}", trailing_crud)).unwrap(),
            YoutubeDescriptor::User("jblow888".to_string()));
        assert_eq!(
            YoutubeDescriptor::from_url(&format!("https://www.youtube.com/user/jblow888/videos{}", trailing_crud)).unwrap(),
            YoutubeDescriptor::User("jblow888".to_string()));
    }

    for trailing_crud in ["", "&", "&stuff", "#", "#stuff"].iter() {
        assert_eq!(
            YoutubeDescriptor::from_url(&format!("https://www.youtube.com/playlist?list=PL5AC656794EE191C1{}", trailing_crud)).unwrap(),
            YoutubeDescriptor::Playlist("PL5AC656794EE191C1".to_string()));
        assert_eq!(
            YoutubeDescriptor::from_url(&format!("https://www.youtube.com/playlist?list=PL78L-9twndz8fMRU3NpiWSmB5IucqWuTF{}", trailing_crud)).unwrap(),
            YoutubeDescriptor::Playlist("PL78L-9twndz8fMRU3NpiWSmB5IucqWuTF".to_string()));
        assert_eq!(
            YoutubeDescriptor::from_url(&format!("https://www.youtube.com/watch?v=YdSdvIRkkDY{}", trailing_crud)).unwrap(),
            YoutubeDescriptor::Video("YdSdvIRkkDY".to_string()));
    }

    for bad_url in [
        "https://www.youtube.com/channel/UChBBWt5H8uZW1LSOh_aPt2",
        "https://www.youtube.com/channel/UChBBWt5H8uZW1LSOh_aPt2Qa",
    ].iter() {
        let error = format!("{:?}", YoutubeDescriptor::from_url(bad_url));
        assert!(error.starts_with("Err(UnsupportedUrl {"), "{}", error);
    }
}

#[test]
fn normalizer_rewrites_each_spelling() {
    assert_eq!(fix_youtube_url("http://youtube.com/user/x"), "https://www.youtube.com/user/x");
    assert_eq!(fix_youtube_url("https://m.youtube.com/watch?v=YdSdvIRkkDY"), "https://www.youtube.com/watch?v=YdSdvIRkkDY");
    assert_eq!(fix_youtube_url("http://youtu.be/YdSdvIRkkDY"), "https://www.youtube.com/watch?v=YdSdvIRkkDY");
    assert_eq!(
        fix_youtube_url("https://www.youtube.com/user/x?disable_polymer=1"),
        "https://www.youtube.com/user/x"
    );
    assert_eq!(
        fix_youtube_url("https://www.youtube.com/watch?v=YdSdvIRkkDY&disable_polymer=1"),
        "https://www.youtube.com/watch?v=YdSdvIRkkDY"
    );
    assert_eq!(fix_youtube_url(""), "");
    assert_eq!(fix_youtube_url("http:/http://"), "http:/https://");
}

#[test]
fn normalizer_is_idempotent_on_ordinary_addresses() {
    for url in [
        "http://m.youtube.com/user/jblow888?disable_polymer=1",
        "youtu.be/abc",
        "https://youtu.be/YdSdvIRkkDY",
        "https://www.youtube.com/playlist?list=PL5AC656794EE191C1",
    ].iter() {
        let once = fix_youtube_url(url);
        assert_eq!(fix_youtube_url(&once), once);
    }
}

#[test]
fn normalizer_can_piece_a_spelling_together() {
    let once = fix_youtube_url("htt?disable_polymer=1p://x");
    assert_eq!(once, "http://x");
    assert_eq!(fix_youtube_url(&once), "https://x");
}

#[test]
fn classifier_unsupported_url_quotes_the_normalized_form() {
    assert_eq!(
        YoutubeDescriptor::from_url("http://example.com/"),
        Err(Error::UnsupportedUrl { url: "https://example.com/".to_string() })
    );
    assert_eq!(
        YoutubeDescriptor::from_url("https://www.youtube.com/"),
        Err(Error::UnsupportedUrl { url: "https://www.youtube.com/".to_string() })
    );
}

#[test]
fn classifier_takes_the_rightmost_video_key() {
    assert_eq!(
        YoutubeDescriptor::from_url("https://www.youtube.com/watch?v=AAAAAAAAAAA&v=BBBBBBBBBBB").unwrap(),
        YoutubeDescriptor::Video("BBBBBBBBBBB".to_string())
    );
    assert_eq!(
        YoutubeDescriptor::from_url("https://www.youtube.com/watch?feature=share&v=YdSdvIRkkDY#t=1").unwrap(),
        YoutubeDescriptor::Video("YdSdvIRkkDY".to_string())
    );
}

#[test]
fn classifier_rejects_malformed_identifiers() {
    for bad in [
        "https://www.youtube.com/watch?v=YdSdvIRkkD",
        "https://www.youtube.com/watch?v=YdSdvIRkkDYY",
        "https://www.youtube.com/watch?v=YdSdvIRkkDY?x",
        "https://www.youtube.com/watch?v=YdSdvIRkkDY\n",
        "https://www.youtube.com/playlist?list=PL5AC656794EE191C",
        "https://www.youtube.com/playlist?list=PL5AC656794EE191Cg",
        "https://www.youtube.com/user/",
        "https://www.youtube.com/user/abcdefghijklmnopqrstu",
        "https://www.youtube.com/user/jb-low",
        "https://www.youtube.com/user/jblow888&x",
        "https://www.youtube.com/channel/UChBBWt5H8uZW1LSOh_aPt2Q/a\nb",
    ].iter() {
        assert!(matches!(YoutubeDescriptor::from_url(bad), Err(Error::UnsupportedUrl { .. })), "{}", bad);
    }
    assert_eq!(
        YoutubeDescriptor::from_url("https://www.youtube.com/user/abcdefghijklmnopqrst").unwrap(),
        YoutubeDescriptor::User("abcdefghijklmnopqrst".to_string())
    );
}

#[test]
fn classifier_accepts_loose_spellings() {
    assert_eq!(
        YoutubeDescriptor::from_url("http://youtu.be/YdSdvIRkkDY").unwrap(),
        YoutubeDescriptor::Video("YdSdvIRkkDY".to_string())
    );
    assert_eq!(
        YoutubeDescriptor::from_url("https://m.youtube.com/user/jblow888?disable_polymer=1").unwrap(),
        YoutubeDescriptor::User("jblow888".to_string())
    );
}

#[test]
fn descriptor_urls() {
    assert_eq!(YoutubeDescriptor::User("jblow888".to_string()).to_url(), "https://www.youtube.com/user/jblow888/videos");
    assert_eq!(
        YoutubeDescriptor::Channel("UChBBWt5H8uZW1LSOh_aPt2Q".to_string()).to_url(),
        "https://www.youtube.com/channel/UChBBWt5H8uZW1LSOh_aPt2Q/videos"
    );
    assert_eq!(
        YoutubeDescriptor::Playlist("PL5AC656794EE191C1".to_string()).to_url(),
        "https://www.youtube.com/playlist?list=PL5AC656794EE191C1"
    );
    assert_eq!(YoutubeDescriptor::Video("YdSdvIRkkDY".to_string()).to_url(), "https://www.youtube.com/watch?v=YdSdvIRkkDY");
}

#[test]
fn replacement_of_every_occurrence() {
    let text: Vec<char> = "aXbXXc".chars().collect();
    let replaced: String = replace(&text, "X", "yz").into_iter().collect();
    assert_eq!(replaced, "ayzbyzyzc");
    let replaced: String = replace(&text, "XX", "").into_iter().collect();
    assert_eq!(replaced, "aXbc");
    let overlapping: Vec<char> = "aaa".chars().collect();
    let replaced: String = replace(&overlapping, "aa", "b").into_iter().collect();
    assert_eq!(replaced, "ba");
    let replaced: String = replace(&text, "", "q").into_iter().collect();
    assert_eq!(replaced, "aXbXXc");
}

#[test]
fn channel_videos_address_ignores_what_follows_on_its_line() {
    let address = "https://www.youtube.com/channel/UChBBWt5H8uZW1LSOh_aPt2Q/videos";
    let channel = YoutubeDescriptor::Channel("UChBBWt5H8uZW1LSOh_aPt2Q".to_string());
    for suffix in [
        "",
        "?x",
        "#x",
        "?disable_polymer=1",
        "?disable_polymer=1&x",
        "&disable_polymer=1",
        "#http://youtu.be/abc",
        "?u=https://m.youtube.com/",
        "htt?disable_polymer=1p://",
        "abc",
        "\u{e9}\t ",
    ].iter() {
        assert_eq!(YoutubeDescriptor::from_url(&format!("{}{}", address, suffix)), Ok(channel.clone()), "{:?}", suffix);
    }
    for suffix in ["\n", "?x\n", "#a\nb"].iter() {
        assert!(YoutubeDescriptor::from_url(&format!("{}{}", address, suffix)).is_err(), "{:?}", suffix);
    }
}

#[test]
fn stripped_flag_can_join_an_identifier_to_what_follows() {
    assert!(YoutubeDescriptor::from_url("https://www.youtube.com/channel/UChBBWt5H8uZW1LSOh_aPt2Q?disable_polymer=1abc").is_err());
    assert_eq!(
        YoutubeDescriptor::from_url("https://www.youtube.com/channel/UChBBWt5H8uZW1LSOh_aPt2Q?disable_polymer=1"),
        Ok(YoutubeDescriptor::Channel("UChBBWt5H8uZW1LSOh_aPt2Q".to_string()))
    );
}
