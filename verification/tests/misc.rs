use youtube_irc_bot::config::{Args, Conf, Features, Parameters};
use youtube_irc_bot::duration::{duration_to_dhm, shorthand_duration, shorthand_duration_at};
use youtube_irc_bot::error::{Error, MyError};
use youtube_irc_bot::text::{decimal, same_text, starts_with};

#[test]
fn durations_in_short_form() {
    assert_eq!(duration_to_dhm(0), "0m");
    assert_eq!(duration_to_dhm(59), "0m");
    assert_eq!(duration_to_dhm(60), "1m");
    assert_eq!(duration_to_dhm(3599), "59m");
    assert_eq!(duration_to_dhm(3600), "1h0m");
    assert_eq!(duration_to_dhm(86399), "23h59m");
    assert_eq!(duration_to_dhm(86400), "1d0h0m");
    assert_eq!(duration_to_dhm(2 * 86400 + 4 * 3600 + 60), "2d4h1m");
    assert_eq!(duration_to_dhm(u64::MAX), "213503982334601d7h0m");
}

#[test]
fn durations_since_a_start() {
    assert_eq!(shorthand_duration_at(Some(10_000), 6_400), Some("1h0m".to_string()));
    assert_eq!(shorthand_duration_at(Some(5), 5), Some("0m".to_string()));
    assert_eq!(shorthand_duration_at(Some(5), 6), None);
    assert_eq!(shorthand_duration_at(None, 6), None);
    assert_eq!(shorthand_duration(u64::MAX), None);
    let since_epoch = shorthand_duration(0).unwrap();
    assert!(since_epoch.ends_with("m") && since_epoch.contains("d"));
}

#[test]
fn decimal_spelling() {
    assert_eq!(decimal(0), "0");
    assert_eq!(decimal(9), "9");
    assert_eq!(decimal(10), "10");
    assert_eq!(decimal(1234567890), "1234567890");
    assert_eq!(decimal(u64::MAX), "18446744073709551615");
}

#[test]
fn text_comparisons() {
    assert!(same_text("abc", "abc"));
    assert!(!same_text("abc", "abd"));
    assert!(!same_text("abc", "ab"));
    assert!(!same_text("ab", "abc"));
    assert!(same_text("", ""));
    assert!(starts_with("abc", "ab"));
    assert!(starts_with("abc", ""));
    assert!(!starts_with("ab", "abc"));
}

#[test]
fn error_messages() {
    assert_eq!(Error::UnsupportedUrl { url: "u".to_string() }.message(), "Unsupported URL: u");
    assert_eq!(Error::NotAuthorized.message(), "Not authorized");
    assert_eq!(Error::CouldNotGetChannelIdentifier.message(), "Could not get channel identifier");
    assert_eq!(Error::InvalidTaskName { task: "t".to_string() }.message(), "Invalid task name: t");
    assert_eq!(Error::NotImplemented { what: "w".to_string() }.message(), "Not implemented: w");
    assert_eq!(Error::ErrorListingFiles { folder: "f".to_string() }.message(), "Internal error listing files for f");
    assert_eq!(Error::ErrorCreatingFolder { folder: "f".to_string() }.message(), "Internal error creating folder f");
    assert_eq!(Error::Io { detail: "d".to_string() }.message(), "Io: d");
    assert_eq!(Error::Utf8 { detail: "d".to_string() }.message(), "Utf8: d");
    assert_eq!(Error::UrlTooLong.message(), "UrlTooLong");
    assert_eq!(MyError::new("m".to_string()).description(), "m");
}

#[test]
fn default_settings() {
    let conf = Conf::default();
    assert_eq!(conf.params, Parameters { task_limit: 34, command_channel: "#youtubearchive".to_string() });
    assert_eq!(conf.features, Features { mask_highlights: false, send_notice: false });
    assert!(conf.user_limits.is_empty());
    assert!(conf.user_highlights.is_empty());
    let args = Args::default();
    assert!(!args.flag_verbose && !args.flag_debug && args.flag_conf.is_none());
}
