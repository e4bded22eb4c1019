use youtube_irc_bot::canonical::CanonicalizedYoutubeDescriptor;
use youtube_irc_bot::descriptor::FetchType;
use youtube_irc_bot::error::Error;
use youtube_irc_bot::stash::{check_folder, check_stash, filter_videos, is_video, logs_url};

fn names(list: &[&str]) -> Vec<String> {
    list.iter().map(|s| s.to_string()).collect()
}

#[test]
fn filter_keeps_videos_in_order() {
    let videos = filter_videos(&names(&["a.mp4", "b.txt", "c.mkv"]));
    assert_eq!(videos.len(), 2);
    assert_eq!(videos, names(&["a.mp4", "c.mkv"]));
}

#[test]
fn video_extensions() {
    for name in ["a.mp4", "a.webm", "a.flv", "a.mkv", "a.video", "a.b.mp4", ".mp4", "b.tar.webm", "..mkv"].iter() {
        assert!(is_video(name), "{}", name);
    }
    for name in [
        "a.txt", "a.mp4.part", "a.mp4.txt", "amp4", "a.MP4", "", "a.mp4 ", "a.", "xmkv", "mp4", "webm", "flv", "mkv",
        "video", ".", "mp4.",
    ].iter() {
        assert!(!is_video(name), "{}", name);
    }
}

#[test]
fn name_without_a_dot_has_no_extension() {
    assert_eq!(filter_videos(&names(&["mp4", "a.mp4.txt", "b.tar.webm"])), names(&["b.tar.webm"]));
    assert_eq!(
        check_folder("abc", Ok(names(&["mp4", "a.mp4.txt", "b.tar.webm"]))),
        Ok("stash has 1 videos for abc (https://ya.borg.xyz/logs/dl/abc/); latest [\"b.tar.webm\"]".to_string())
    );
}

#[test]
fn report_counts_and_shows_the_latest_four() {
    assert_eq!(
        check_folder("abc", Ok(names(&["a.mp4", "b.txt", "c.mkv"]))),
        Ok("stash has 2 videos for abc (https://ya.borg.xyz/logs/dl/abc/); latest [\"a.mp4\", \"c.mkv\"]".to_string())
    );
    assert_eq!(
        check_folder("a-b_c", Ok(names(&["1.mp4", "2.mp4", "3.mp4", "4.mp4", "5.mp4", "6.webm"]))),
        Ok("stash has 6 videos for a-b_c (https://ya.borg.xyz/logs/dl/a-b_c/); latest [\"1.mp4\", \"2.mp4\", \"3.mp4\", \"4.mp4\"]".to_string())
    );
    assert_eq!(
        check_folder("abc", Ok(vec![])),
        Ok("stash has 0 videos for abc (https://ya.borg.xyz/logs/dl/abc/); latest []".to_string())
    );
}

#[test]
fn report_quotes_names_as_debug_formatting_does() {
    assert_eq!(
        check_folder("abc", Ok(names(&["a\"b\\c.mp4"]))),
        Ok("stash has 1 videos for abc (https://ya.borg.xyz/logs/dl/abc/); latest [\"a\\\"b\\\\c.mp4\"]".to_string())
    );
}

#[test]
fn report_refuses_an_invalid_folder_first() {
    assert_eq!(
        check_folder("../etc", Ok(vec![])),
        Err(Error::InvalidTaskName { task: "../etc".to_string() })
    );
    assert_eq!(
        check_folder("", Err(Error::Io { detail: "x".to_string() })),
        Err(Error::InvalidTaskName { task: "".to_string() })
    );
}

#[test]
fn report_names_the_folder_whose_listing_failed() {
    assert_eq!(
        check_folder("abc", Err(Error::Io { detail: "x".to_string() })),
        Err(Error::ErrorListingFiles { folder: "abc".to_string() })
    );
}

#[test]
fn stash_of_a_single_video_is_not_implemented() {
    let video = CanonicalizedYoutubeDescriptor::new(FetchType::Video, "YdSdvIRkkDY".to_string(), "jblow888".to_string()).unwrap();
    assert_eq!(check_stash(&video), Err(Error::NotImplemented { what: "/s on /watch? URL".to_string() }));
    let user = CanonicalizedYoutubeDescriptor::new(FetchType::User, "jblow888".to_string(), "jblow888".to_string()).unwrap();
    assert_eq!(check_stash(&user), Ok("jblow888".to_string()));
}

#[test]
fn logs_address_of_a_folder() {
    assert_eq!(logs_url("abc"), "https://ya.borg.xyz/logs/dl/abc/");
}
