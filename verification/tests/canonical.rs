use youtube_irc_bot::canonical::{
    assert_valid_task_name, extract_channel_id, extract_username, folder_for_user, resolve,
    Canonicalization, CanonicalizedYoutubeDescriptor,
};
use youtube_irc_bot::descriptor::{FetchType, YoutubeDescriptor};
use youtube_irc_bot::error::{Error, MyError};
use youtube_irc_bot::page::{get_youtube_channel, get_youtube_user};

const USER_PAGE: &str = "<html><link itemprop=\"url\" href=\"http://www.youtube.com/user/jblow888\"><meta itemprop=\"channelId\" content=\"UChBBWt5H8uZW1LSOh_aPt2Q\"></html>";
const CHANNEL_PAGE: &str = "<html><meta itemprop=\"channelId\" content=\"UChBBWt5H8uZW1LSOh_aPt2Q\"></html>";
const PLAYER_PAGE: &str = "<script> ytplayer = {\"args\":\"{\\\"videoId\\\":\\\"x\\\",\\\"channelId\\\":\\\"UCsT0YIqwnpJCM-mx7-gSA4Q\\\",\\\"a\\\":1}\"}</script>";

fn done(kind: FetchType, id: &str, folder: &str) -> Canonicalization {
    Canonicalization::Done(CanonicalizedYoutubeDescriptor::new(kind, id.to_string(), folder.to_string()).unwrap())
}

#[test]
fn username_is_read_from_the_link_tag() {
    assert_eq!(extract_username(USER_PAGE), Some("jblow888".to_string()));
    assert_eq!(extract_username(CHANNEL_PAGE), None);
    assert_eq!(extract_username(""), None);
}

#[test]
fn channel_id_is_read_from_the_meta_tag_first() {
    assert_eq!(extract_channel_id(USER_PAGE), Ok("UChBBWt5H8uZW1LSOh_aPt2Q".to_string()));
    assert_eq!(extract_channel_id(PLAYER_PAGE), Ok("UCsT0YIqwnpJCM-mx7-gSA4Q".to_string()));
    let both = format!("{}{}", PLAYER_PAGE, CHANNEL_PAGE);
    assert_eq!(extract_channel_id(&both), Ok("UChBBWt5H8uZW1LSOh_aPt2Q".to_string()));
    assert_eq!(extract_channel_id("<html></html>"), Err(Error::CouldNotGetChannelIdentifier));
}

#[test]
fn folder_exceptions() {
    assert_eq!(folder_for_user("TEDxTalks"), "UCsT0YIqwnpJCM-mx7-gSA4Q");
    assert_eq!(folder_for_user("tedxtalks"), "tedxtalks");
    assert_eq!(folder_for_user("jblow888"), "jblow888");
}

#[test]
fn task_names() {
    assert_eq!(assert_valid_task_name("a-B_9"), Ok(()));
    for bad in ["", "a b", "a/b", "a.b", "a\n", "\u{e9}"].iter() {
        assert_eq!(assert_valid_task_name(bad), Err(Error::InvalidTaskName { task: bad.to_string() }));
    }
}

#[test]
fn playlist_is_its_own_folder() {
    let playlist = YoutubeDescriptor::Playlist("PL5AC656794EE191C1".to_string());
    assert_eq!(playlist.canonicalize(), Ok(done(FetchType::Playlist, "PL5AC656794EE191C1", "PL5AC656794EE191C1")));
    let odd = YoutubeDescriptor::Playlist("../x".to_string());
    assert_eq!(odd.canonicalize(), Err(Error::InvalidTaskName { task: "../x".to_string() }));
}

#[test]
fn user_is_resolved_from_its_page() {
    let start = YoutubeDescriptor::User("JBlow888".to_string()).canonicalize().unwrap();
    assert_eq!(start.wanted_url(), Some("https://www.youtube.com/user/JBlow888/videos".to_string()));
    let end = start.page_fetched(USER_PAGE).unwrap();
    assert_eq!(end, done(FetchType::User, "jblow888", "jblow888"));
    assert_eq!(end.wanted_url(), None);
}

#[test]
fn channel_without_a_username_keeps_its_identifier() {
    let start = YoutubeDescriptor::Channel("UChBBWt5H8uZW1LSOh_aPt2Q".to_string()).canonicalize().unwrap();
    assert_eq!(start.wanted_url(), Some("https://www.youtube.com/channel/UChBBWt5H8uZW1LSOh_aPt2Q/videos".to_string()));
    assert_eq!(
        start.page_fetched(CHANNEL_PAGE),
        Ok(done(FetchType::Channel, "UChBBWt5H8uZW1LSOh_aPt2Q", "UChBBWt5H8uZW1LSOh_aPt2Q"))
    );
    let again = YoutubeDescriptor::Channel("UChBBWt5H8uZW1LSOh_aPt2Q".to_string()).canonicalize().unwrap();
    assert_eq!(again.page_fetched("<html></html>"), Err(Error::CouldNotGetChannelIdentifier));
}

#[test]
fn video_is_stored_with_its_channel() {
    let start = YoutubeDescriptor::Video("YdSdvIRkkDY".to_string()).canonicalize().unwrap();
    assert_eq!(start.wanted_url(), Some("https://www.youtube.com/watch?v=YdSdvIRkkDY".to_string()));
    let middle = start.page_fetched(CHANNEL_PAGE).unwrap();
    assert_eq!(
        middle,
        Canonicalization::Fetch {
            descriptor: YoutubeDescriptor::Channel("UChBBWt5H8uZW1LSOh_aPt2Q".to_string()),
            video: Some("YdSdvIRkkDY".to_string()),
        }
    );
    assert_eq!(middle.wanted_url(), Some("https://www.youtube.com/channel/UChBBWt5H8uZW1LSOh_aPt2Q/videos".to_string()));
    let end = middle.page_fetched(USER_PAGE).unwrap();
    assert_eq!(end, done(FetchType::Video, "YdSdvIRkkDY", "jblow888"));
    match end {
        Canonicalization::Done(c) => {
            assert_eq!(c.to_url(), "https://www.youtube.com/watch?v=YdSdvIRkkDY");
            assert_eq!(c.folder(), "jblow888");
            assert_eq!(c.id(), "YdSdvIRkkDY");
            assert_eq!(c.kind(), FetchType::Video);
        }
        _ => panic!("not resolved"),
    }
    let lost = YoutubeDescriptor::Video("YdSdvIRkkDY".to_string()).canonicalize().unwrap();
    assert_eq!(lost.page_fetched("<html></html>"), Err(Error::CouldNotGetChannelIdentifier));
}

#[test]
fn resolution_prefers_the_username_and_checks_the_folder() {
    assert_eq!(
        resolve(Some("TEDxTalks".to_string()), None, None).unwrap().folder(),
        "UCsT0YIqwnpJCM-mx7-gSA4Q"
    );
    assert_eq!(resolve(Some("TEDxTalks".to_string()), None, None).unwrap().id(), "TEDxTalks");
    assert_eq!(
        resolve(Some("a b".to_string()), Some("UCx".to_string()), None),
        Err(Error::InvalidTaskName { task: "a b".to_string() })
    );
    assert_eq!(resolve(None, None, Some("v".to_string())), Err(Error::CouldNotGetChannelIdentifier));
    assert_eq!(resolve(None, Some("UCx".to_string()), None).unwrap().kind(), FetchType::Channel);
}

#[test]
fn every_accepted_shape_ends_in_a_valid_folder() {
    for (url, pages) in [
        ("https://www.youtube.com/user/jblow888", vec![USER_PAGE]),
        ("https://www.youtube.com/channel/UChBBWt5H8uZW1LSOh_aPt2Q/videos", vec![CHANNEL_PAGE]),
        ("https://www.youtube.com/playlist?list=PL5AC656794EE191C1", vec![]),
        ("https://www.youtube.com/watch?v=YdSdvIRkkDY", vec![PLAYER_PAGE, USER_PAGE]),
    ].iter() {
        let mut state = YoutubeDescriptor::from_url(url).unwrap().canonicalize().unwrap();
        for page in pages.iter() {
            assert!(state.wanted_url().is_some());
            state = state.page_fetched(page).unwrap();
        }
        match state {
            Canonicalization::Done(c) => assert_eq!(assert_valid_task_name(&c.folder()), Ok(())),
            _ => panic!("not resolved: {}", url),
        }
    }
}

#[test]
fn canonical_descriptor_needs_a_valid_folder() {
    assert_eq!(
        CanonicalizedYoutubeDescriptor::new(FetchType::User, "x".to_string(), "a/b".to_string()),
        Err(Error::InvalidTaskName { task: "a/b".to_string() })
    );
    let c = CanonicalizedYoutubeDescriptor::new(FetchType::User, "x".to_string(), "y".to_string()).unwrap();
    assert_eq!(c.to_url(), "https://www.youtube.com/user/x/videos");
    let c = CanonicalizedYoutubeDescriptor::new(FetchType::Channel, "x".to_string(), "y".to_string()).unwrap();
    assert_eq!(c.to_url(), "https://www.youtube.com/channel/x/videos");
    let c = CanonicalizedYoutubeDescriptor::new(FetchType::Playlist, "x".to_string(), "y".to_string()).unwrap();
    assert_eq!(c.to_url(), "https://www.youtube.com/playlist?list=x");
}

#[test]
fn page_readers_pass_a_failed_fetch_on() {
    assert_eq!(get_youtube_user(Ok(USER_PAGE.to_string())).unwrap(), Some("jblow888".to_string()));
    assert_eq!(get_youtube_user(Ok(CHANNEL_PAGE.to_string())).unwrap(), None);
    assert_eq!(get_youtube_user(Err(MyError::new("down".to_string()))).unwrap_err().description(), "down");
    assert_eq!(
        get_youtube_channel("https://x/", Ok(CHANNEL_PAGE.to_string())).unwrap(),
        "UChBBWt5H8uZW1LSOh_aPt2Q"
    );
    assert_eq!(
        get_youtube_channel("https://x/", Ok("".to_string())).unwrap_err().description(),
        "Could not find channel identifier in https://x/"
    );
    assert_eq!(
        get_youtube_channel("https://x/", Err(MyError::new("down".to_string()))).unwrap_err().description(),
        "down"
    );
}
