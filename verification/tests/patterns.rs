use regex::Regex;
use youtube_irc_bot::canonical::assert_valid_task_name;
use youtube_irc_bot::command::relayed;
use youtube_irc_bot::descriptor::YoutubeDescriptor;
use youtube_irc_bot::error::Error;
use youtube_irc_bot::normalize::fix_youtube_url;

struct Dice {
    state: u64,
}

impl Dice {
    fn roll(&mut self, sides: usize) -> usize {
        self.state = self.state.wrapping_mul(6364136223846793005).wrapping_add(1442695040888963407);
        ((self.state >> 33) as usize) % sides
    }

    fn pick<'a>(&mut self, from: &[&'a str]) -> &'a str {
        from[self.roll(from.len())]
    }

    fn word(&mut self, alphabet: &[&str], max: usize) -> String {
        let len = self.roll(max + 1);
        (0..len).map(|_| self.pick(alphabet)).collect()
    }
}

struct Patterns {
    watch: Regex,
    old_playlist: Regex,
    new_playlist: Regex,
    channel: Regex,
    user: Regex,
}

impl Patterns {
    fn new() -> Patterns {
        Patterns {
            watch: Regex::new(r#"\Ahttps://www.youtube.com/watch.*[\?&]v=([-_A-Za-z0-9]{11})([#\&].*)?\z"#).unwrap(),
            old_playlist: Regex::new(r#"\Ahttps://www.youtube.com/playlist.*[\?&]list=(PL[0-9A-F]{16})([#\&].*)?\z"#).unwrap(),
            new_playlist: Regex::new(r#"\Ahttps://www.youtube.com/playlist.*[\?&]list=(PL[-_A-Za-z0-9]{32})([#\&].*)?\z"#).unwrap(),
            channel: Regex::new(r#"\Ahttps://www.youtube.com/channel/(UC[-_A-Za-z0-9]{22})([/#\?].*)?\z"#).unwrap(),
            user: Regex::new(r#"\Ahttps://www.youtube.com/user/([A-Za-z0-9]{1,20})([/#\?].*)?\z"#).unwrap(),
        }
    }

    fn classify(&self, url: &str) -> Result<YoutubeDescriptor, Error> {
        let url = url.replace("http://", "https://");
        let url = url.replace("https://m.youtube.com/", "https://www.youtube.com/");
        let url = url.replace("https://youtube.com/", "https://www.youtube.com/");
        let url = url.replace("https://youtu.be/", "https://www.youtube.com/watch?v=");
        let url = url.replace("?disable_polymer=1", "");
        let url = url.replace("&disable_polymer=1", "");
        if !url.starts_with("https://www.youtube.com/") {
            return Err(Error::UnsupportedUrl { url });
        }
        let group = |re: &Regex| re.captures(&url).map(|m| m.get(1).unwrap().as_str().to_string());
        if let Some(id) = group(&self.watch) {
            return Ok(YoutubeDescriptor::Video(id));
        }
        if let Some(id) = group(&self.old_playlist) {
            return Ok(YoutubeDescriptor::Playlist(id));
        }
        if let Some(id) = group(&self.new_playlist) {
            return Ok(YoutubeDescriptor::Playlist(id));
        }
        if let Some(id) = group(&self.channel) {
            return Ok(YoutubeDescriptor::Channel(id));
        }
        if let Some(id) = group(&self.user) {
            return Ok(YoutubeDescriptor::User(id));
        }
        Err(Error::UnsupportedUrl { url })
    }
}

const HOSTS: [&str; 8] = [
    "https://www.youtube.com/",
    "http://www.youtube.com/",
    "https://m.youtube.com/",
    "https://youtube.com/",
    "http://youtu.be/",
    "https://youtu.be/",
    "https://wwwXyoutube.com/",
    "",
];
const ROUTES: [&str; 10] =
    ["watch", "watch?v=", "playlist", "playlist?list=", "channel/", "user/", "watch?x=1&v=", "playlist?a&list=", "Watch?v=", ""];
const IDS: [&str; 12] = [
    "YdSdvIRkkDY",
    "YdSdvIRkkD",
    "PL5AC656794EE191C1",
    "PL5AC656794EE191C",
    "PL78L-9twndz8fMRU3NpiWSmB5IucqWuTF",
    "PL78L-9twndz8fMRU3NpiWSmB5IucqWuT",
    "UChBBWt5H8uZW1LSOh_aPt2Q",
    "UChBBWt5H8uZW1LSOh_aPt2",
    "jblow888",
    "abcdefghijklmnopqrst",
    "abcdefghijklmnopqrstu",
    "",
];
const NOISE: [&str; 16] =
    ["", "?", "&", "#", "/", "a", "Z", "0", "-", "_", "\n", "v=", "list=", "?disable_polymer=1", "&disable_polymer=1", "\u{e9}"];

#[test]
fn classifier_agrees_with_the_patterns() {
    let patterns = Patterns::new();
    let mut dice = Dice { state: 1 };
    let mut accepted = 0;
    for _ in 0..20000 {
        let mut url = String::new();
        url.push_str(dice.pick(&HOSTS));
        url.push_str(dice.pick(&ROUTES));
        url.push_str(&dice.word(&NOISE, 2));
        url.push_str(dice.pick(&IDS));
        url.push_str(&dice.word(&NOISE, 3));
        if dice.roll(4) == 0 {
            url.push_str(dice.pick(&ROUTES));
            url.push_str(dice.pick(&IDS));
            url.push_str(&dice.word(&NOISE, 2));
        }
        let expected = patterns.classify(&url);
        if expected.is_ok() {
            accepted += 1;
        }
        assert_eq!(YoutubeDescriptor::from_url(&url), expected, "{:?}", url);
    }
    assert!(accepted > 200, "{}", accepted);
}

#[test]
fn classifier_agrees_with_the_patterns_on_likely_addresses() {
    let patterns = Patterns::new();
    let mut dice = Dice { state: 5 };
    let pairs = [
        ("watch?v=", "YdSdvIRkkDY"),
        ("watch?x=1&v=", "YdSdvIRkkDY"),
        ("playlist?list=", "PL5AC656794EE191C1"),
        ("playlist?list=", "PL78L-9twndz8fMRU3NpiWSmB5IucqWuTF"),
        ("playlist?a=b&list=", "PL5AC656794EE191C1"),
        ("channel/", "UChBBWt5H8uZW1LSOh_aPt2Q"),
        ("user/", "jblow888"),
        ("user/", "abcdefghijklmnopqrst"),
    ];
    let mut accepted = 0;
    for _ in 0..20000 {
        let (route, id) = pairs[dice.roll(pairs.len())];
        let mut url = String::new();
        url.push_str(HOSTS[dice.roll(4)]);
        url.push_str(route);
        url.push_str(id);
        url.push_str(&dice.word(&NOISE, 3));
        let expected = patterns.classify(&url);
        if expected.is_ok() {
            accepted += 1;
        }
        assert_eq!(YoutubeDescriptor::from_url(&url), expected, "{:?}", url);
    }
    assert!(accepted > 5000, "{}", accepted);
}

#[test]
fn normalizer_agrees_with_replacement() {
    let mut dice = Dice { state: 2 };
    let pieces = [
        "http://", "https://", "m.youtube.com/", "youtube.com/", "youtu.be/", "www.", "?disable_polymer=1",
        "&disable_polymer=1", "htt", "p://", "?disable_", "polymer=1", "x", "/", "",
    ];
    for _ in 0..5000 {
        let url = dice.word(&pieces, 6);
        let expected = url
            .replace("http://", "https://")
            .replace("https://m.youtube.com/", "https://www.youtube.com/")
            .replace("https://youtube.com/", "https://www.youtube.com/")
            .replace("https://youtu.be/", "https://www.youtube.com/watch?v=")
            .replace("?disable_polymer=1", "")
            .replace("&disable_polymer=1", "");
        assert_eq!(fix_youtube_url(&url), expected, "{:?}", url);
    }
}

#[test]
fn task_names_agree_with_the_pattern() {
    let pattern = Regex::new(r"\A[-_A-Za-z0-9]+\z").unwrap();
    let mut dice = Dice { state: 3 };
    let alphabet = ["a", "Z", "0", "9", "-", "_", " ", "\n", ".", "/", "\u{e9}", "@", "[", "`", "{"];
    for _ in 0..5000 {
        let name = dice.word(&alphabet, 4);
        assert_eq!(assert_valid_task_name(&name).is_ok(), pattern.is_match(&name), "{:?}", name);
    }
}

#[test]
fn relayed_senders_agree_with_the_pattern() {
    let pattern = Regex::new(r"\A.+!webchat@.+\z").unwrap();
    let mut dice = Dice { state: 4 };
    let pieces = ["!webchat@", "!webchat", "webchat@", "a", "!", "@", "\n", "", "nick", "\u{e9}"];
    let mut relayed_seen = 0;
    for _ in 0..5000 {
        let sender = dice.word(&pieces, 4);
        let expected = pattern.is_match(&sender);
        if expected {
            relayed_seen += 1;
        }
        assert_eq!(relayed(&sender), expected, "{:?}", sender);
    }
    assert!(relayed_seen > 100, "{}", relayed_seen);
}
