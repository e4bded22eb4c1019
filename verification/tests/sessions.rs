use youtube_irc_bot::config::{Conf, UserLimit};
use youtube_irc_bot::error::Error;
use youtube_irc_bot::session::{
    admit_under, get_downloader_sessions, try_admit, Admission, DownloaderSession,
};

fn session(identifier: &str, start_time: u64) -> DownloaderSession {
    DownloaderSession { identifier: identifier.to_string(), start_time }
}

#[test]
fn listing_keeps_only_our_sessions() {
    assert_eq!(
        get_downloader_sessions("1000 YouTube-abc\n2000 unrelated-session\n"),
        Ok(vec![session("abc", 1000)])
    );
}

#[test]
fn listing_keeps_the_order_of_its_lines() {
    assert_eq!(
        get_downloader_sessions("3 YouTube-c\n1 other\n2 YouTube-a\n+7 YouTube-b x"),
        Ok(vec![session("c", 3), session("a", 2), session("b x", 7)])
    );
}

#[test]
fn listing_edge_cases() {
    assert_eq!(get_downloader_sessions(""), Ok(vec![]));
    assert_eq!(get_downloader_sessions("1000 YouTube-abc\r\n"), Ok(vec![session("abc", 1000)]));
    assert_eq!(get_downloader_sessions("1000 YouTube-"), Ok(vec![session("", 1000)]));
    assert_eq!(get_downloader_sessions("1000 YouTube-YouTube-x\n"), Ok(vec![session("YouTube-x", 1000)]));
    assert_eq!(get_downloader_sessions("18446744073709551615 YouTube-a"), Ok(vec![session("a", u64::MAX)]));
    assert_eq!(get_downloader_sessions("1 \n"), Ok(vec![]));
}

#[test]
fn listing_fails_on_a_malformed_line() {
    let malformed = Err(Error::Io { detail: "malformed session listing".to_string() });
    assert_eq!(get_downloader_sessions("abc YouTube-abc\n"), malformed);
    assert_eq!(get_downloader_sessions("1000\n"), malformed);
    assert_eq!(get_downloader_sessions("1000 YouTube-a\n\n"), malformed);
    assert_eq!(get_downloader_sessions("-5 YouTube-a\n"), malformed);
    assert_eq!(get_downloader_sessions("+ YouTube-a\n"), malformed);
    assert_eq!(get_downloader_sessions("18446744073709551616 YouTube-a\n"), malformed);
    assert_eq!(get_downloader_sessions("2000 unrelated\nx y\n"), malformed);
    assert_eq!(get_downloader_sessions(" YouTube-a\n"), malformed);
}

#[test]
fn duplicate_folder_is_refused_whatever_the_limit() {
    let sessions = vec![session("abc", 1)];
    for limit in [0usize, 1, 2, 34, usize::MAX].iter() {
        assert_eq!(admit_under("abc", *limit, &sessions), Admission::DuplicateFolder);
        let mut conf = Conf::default();
        conf.user_limits.push(UserLimit { user: "ann".to_string(), limit: *limit });
        assert_eq!(try_admit("abc", "ann", &sessions, &conf), Admission::DuplicateFolder);
        assert_eq!(try_admit("abc", "bob", &sessions, &conf), Admission::DuplicateFolder);
    }
}

#[test]
fn limit_is_reached_at_two_of_two() {
    let mut conf = Conf::default();
    conf.user_limits.push(UserLimit { user: "ann".to_string(), limit: 2 });
    let two = vec![session("a", 1), session("b", 2)];
    assert_eq!(try_admit("xyz", "ann", &two, &conf), Admission::LimitReached { limit: 2 });
    assert_eq!(try_admit("xyz", "bob", &two, &conf), Admission::Admitted);
    let one = vec![session("a", 1)];
    assert_eq!(try_admit("xyz", "ann", &one, &conf), Admission::Admitted);
    assert_eq!(admit_under("xyz", 0, &vec![]), Admission::LimitReached { limit: 0 });
    assert_eq!(admit_under("xyz", 1, &vec![]), Admission::Admitted);
}

#[test]
fn limits_come_from_the_settings() {
    let mut conf = Conf::default();
    assert_eq!(conf.limit_for_user("ann"), 34);
    conf.user_limits.push(UserLimit { user: "ann".to_string(), limit: 2 });
    conf.user_limits.push(UserLimit { user: "bob".to_string(), limit: 0 });
    conf.user_limits.push(UserLimit { user: "ann".to_string(), limit: 9 });
    assert_eq!(conf.limit_for_user("ann"), 2);
    assert_eq!(conf.limit_for_user("bob"), 0);
    assert_eq!(conf.limit_for_user("Ann"), 34);
}
