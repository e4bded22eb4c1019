use youtube_irc_bot::config::{Conf, HighlightMode, UserHighlight};
use youtube_irc_bot::highlight::{
    highlight_for_user, pair_up, replace_matching_characters, ALPHA_BOLD, ALPHA_BOLD_ITALIC, ALPHA_FRAKTUR,
    ALPHA_FRAKTUR_BOLD, ALPHA_ITALIC, ALPHA_REGULAR, ALPHA_SCRIPT,
};

#[test]
fn test_replace_matching_characters() {
    assert_eq!(replace_matching_characters("user", ALPHA_REGULAR, ALPHA_FRAKTUR), "\u{1d532}\u{1d530}\u{1d522}\u{1d52f}");
    assert_eq!(replace_matching_characters("User", ALPHA_REGULAR, ALPHA_FRAKTUR), "\u{1d518}\u{1d530}\u{1d522}\u{1d52f}");
    assert_eq!(replace_matching_characters("_User0", ALPHA_REGULAR, ALPHA_FRAKTUR), "_\u{1d518}\u{1d530}\u{1d522}\u{1d52f}0");
}

#[test]
fn alphabets_pair_letter_for_letter() {
    for alphabet in [
        ALPHA_FRAKTUR,
        ALPHA_FRAKTUR_BOLD,
        ALPHA_SCRIPT,
        ALPHA_BOLD,
        ALPHA_ITALIC,
        ALPHA_BOLD_ITALIC,
    ].iter() {
        assert_eq!(alphabet.chars().count(), 52);
        assert_eq!(ALPHA_REGULAR.chars().count(), 52);
    }
    assert_eq!(replace_matching_characters("Az", ALPHA_REGULAR, ALPHA_BOLD), "\u{1d400}\u{1d433}");
    assert_eq!(replace_matching_characters("C", ALPHA_REGULAR, ALPHA_FRAKTUR), "\u{212d}");
}

#[test]
fn replacement_pairs_only_what_both_sets_hold() {
    assert_eq!(replace_matching_characters("abc", "abc", "xy"), "xyc");
    assert_eq!(replace_matching_characters("abc", "", "xyz"), "abc");
    assert_eq!(replace_matching_characters("", "abc", "xyz"), "");
}

#[test]
fn replacement_takes_the_last_pair_of_a_repeated_character() {
    assert_eq!(replace_matching_characters("a", "aa", "xy"), "y");
}

#[test]
fn highlight_follows_the_settings() {
    let mut conf = Conf::default();
    conf.user_highlights.push(UserHighlight { user: "ann".to_string(), mode: HighlightMode::Bold });
    conf.user_highlights.push(UserHighlight { user: "bob".to_string(), mode: HighlightMode::Normal });
    assert_eq!(highlight_for_user("ann", &conf), "\u{1d41a}\u{1d427}\u{1d427}");
    assert_eq!(highlight_for_user("bob", &conf), "bob");
    assert_eq!(highlight_for_user("eve", &conf), "eve");
}

#[test]
fn pairs_are_kept_by_code_point() {
    let from: Vec<char> = "aba".chars().collect();
    let to: Vec<char> = "xyzw".chars().collect();
    let mapping = pair_up(&from, &to);
    assert_eq!(mapping.len(), 2);
    assert_eq!(mapping.get(&('a' as u32)), Some(&'z'));
    assert_eq!(mapping.get(&('b' as u32)), Some(&'y'));
    assert_eq!(mapping.get(&('c' as u32)), None);
}
