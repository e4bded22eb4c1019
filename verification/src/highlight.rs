//! Setting a user's name off in replies by spelling it in another alphabet
//! of mathematical letters.

use vstd::prelude::*;
use std::collections::HashMap;
use crate::config::{Conf, HighlightMode};
use crate::text::{push_char, to_chars};

verus! {

/// The plain letters, upper case before lower case.
pub const ALPHA_REGULAR: &'static str = "ABCDEFGHIJKLMNOPQRSTUVWXYZabcdefghijklmnopqrstuvwxyz";

/// The letters in Fraktur.
pub const ALPHA_FRAKTUR: &'static str = "\u{1d504}\u{1d505}\u{212d}\u{1d507}\u{1d508}\u{1d509}\u{1d50a}\u{210c}\u{2111}\u{1d50d}\u{1d50e}\u{1d50f}\u{1d510}\u{1d511}\u{1d512}\u{1d513}\u{1d514}\u{211c}\u{1d516}\u{1d517}\u{1d518}\u{1d519}\u{1d51a}\u{1d51b}\u{1d51c}\u{2128}\u{1d51e}\u{1d51f}\u{1d520}\u{1d521}\u{1d522}\u{1d523}\u{1d524}\u{1d525}\u{1d526}\u{1d527}\u{1d528}\u{1d529}\u{1d52a}\u{1d52b}\u{1d52c}\u{1d52d}\u{1d52e}\u{1d52f}\u{1d530}\u{1d531}\u{1d532}\u{1d533}\u{1d534}\u{1d535}\u{1d536}\u{1d537}";

/// The letters in bold Fraktur.
pub const ALPHA_FRAKTUR_BOLD: &'static str = "\u{1d56c}\u{1d56d}\u{1d56e}\u{1d56f}\u{1d570}\u{1d571}\u{1d572}\u{1d573}\u{1d574}\u{1d575}\u{1d576}\u{1d577}\u{1d578}\u{1d579}\u{1d57a}\u{1d57b}\u{1d57c}\u{1d57d}\u{1d57e}\u{1d57f}\u{1d580}\u{1d581}\u{1d582}\u{1d583}\u{1d584}\u{1d585}\u{1d586}\u{1d587}\u{1d588}\u{1d589}\u{1d58a}\u{1d58b}\u{1d58c}\u{1d58d}\u{1d58e}\u{1d58f}\u{1d590}\u{1d591}\u{1d592}\u{1d593}\u{1d594}\u{1d595}\u{1d596}\u{1d597}\u{1d598}\u{1d599}\u{1d59a}\u{1d59b}\u{1d59c}\u{1d59d}\u{1d59e}\u{1d59f}";

/// The letters in script.
pub const ALPHA_SCRIPT: &'static str = "\u{1d49c}\u{212c}\u{1d49e}\u{1d49f}\u{2130}\u{2131}\u{1d4a2}\u{210b}\u{2110}\u{1d4a5}\u{1d4a6}\u{2112}\u{2133}\u{1d4a9}\u{1d4aa}\u{1d4ab}\u{1d4ac}\u{211b}\u{1d4ae}\u{1d4af}\u{1d4b0}\u{1d4b1}\u{1d4b2}\u{1d4b3}\u{1d4b4}\u{1d4b5}\u{1d4b6}\u{1d4b7}\u{1d4b8}\u{1d4b9}\u{212f}\u{1d4bb}\u{210a}\u{1d4bd}\u{1d4be}\u{1d4bf}\u{1d4c0}\u{1d4c1}\u{1d4c2}\u{1d4c3}\u{2134}\u{1d4c5}\u{1d4c6}\u{1d4c7}\u{1d4c8}\u{1d4c9}\u{1d4ca}\u{1d4cb}\u{1d4cc}\u{1d4cd}\u{1d4ce}\u{1d4cf}";

/// The letters in bold.
pub const ALPHA_BOLD: &'static str = "\u{1d400}\u{1d401}\u{1d402}\u{1d403}\u{1d404}\u{1d405}\u{1d406}\u{1d407}\u{1d408}\u{1d409}\u{1d40a}\u{1d40b}\u{1d40c}\u{1d40d}\u{1d40e}\u{1d40f}\u{1d410}\u{1d411}\u{1d412}\u{1d413}\u{1d414}\u{1d415}\u{1d416}\u{1d417}\u{1d418}\u{1d419}\u{1d41a}\u{1d41b}\u{1d41c}\u{1d41d}\u{1d41e}\u{1d41f}\u{1d420}\u{1d421}\u{1d422}\u{1d423}\u{1d424}\u{1d425}\u{1d426}\u{1d427}\u{1d428}\u{1d429}\u{1d42a}\u{1d42b}\u{1d42c}\u{1d42d}\u{1d42e}\u{1d42f}\u{1d430}\u{1d431}\u{1d432}\u{1d433}";

/// The letters in italic.
pub const ALPHA_ITALIC: &'static str = "\u{1d434}\u{1d435}\u{1d436}\u{1d437}\u{1d438}\u{1d439}\u{1d43a}\u{1d43b}\u{1d43c}\u{1d43d}\u{1d43e}\u{1d43f}\u{1d440}\u{1d441}\u{1d442}\u{1d443}\u{1d444}\u{1d445}\u{1d446}\u{1d447}\u{1d448}\u{1d449}\u{1d44a}\u{1d44b}\u{1d44c}\u{1d44d}\u{1d44e}\u{1d44f}\u{1d450}\u{1d451}\u{1d452}\u{1d453}\u{1d454}\u{210e}\u{1d456}\u{1d457}\u{1d458}\u{1d459}\u{1d45a}\u{1d45b}\u{1d45c}\u{1d45d}\u{1d45e}\u{1d45f}\u{1d460}\u{1d461}\u{1d462}\u{1d463}\u{1d464}\u{1d465}\u{1d466}\u{1d467}";

/// The letters in bold italic.
pub const ALPHA_BOLD_ITALIC: &'static str = "\u{1d468}\u{1d469}\u{1d46a}\u{1d46b}\u{1d46c}\u{1d46d}\u{1d46e}\u{1d46f}\u{1d470}\u{1d471}\u{1d472}\u{1d473}\u{1d474}\u{1d475}\u{1d476}\u{1d477}\u{1d478}\u{1d479}\u{1d47a}\u{1d47b}\u{1d47c}\u{1d47d}\u{1d47e}\u{1d47f}\u{1d480}\u{1d481}\u{1d482}\u{1d483}\u{1d484}\u{1d485}\u{1d486}\u{1d487}\u{1d488}\u{1d489}\u{1d48a}\u{1d48b}\u{1d48c}\u{1d48d}\u{1d48e}\u{1d48f}\u{1d490}\u{1d491}\u{1d492}\u{1d493}\u{1d494}\u{1d495}\u{1d496}\u{1d497}\u{1d498}\u{1d499}\u{1d49a}\u{1d49b}";

/// What `c` is replaced by when the first `n` characters of `from` are
/// paired with those of `to`: the partner of its last occurrence among them,
/// or `c` itself where it does not occur.
pub open spec fn map_char(c: char, from: Seq<char>, to: Seq<char>, n: int) -> char
    decreases n,
{
    if n <= 0 || n > from.len() || n > to.len() {
        c
    } else if from[n - 1] == c {
        to[n - 1]
    } else {
        map_char(c, from, to, n - 1)
    }
}

/// How many characters of two sets are paired.
pub open spec fn paired(from: Seq<char>, to: Seq<char>) -> int {
    if from.len() <= to.len() {
        from.len() as int
    } else {
        to.len() as int
    }
}

/// `input` with each character that occurs in `from` replaced by its partner
/// in `to`.
pub open spec fn replaced(input: Seq<char>, from: Seq<char>, to: Seq<char>) -> Seq<char> {
    input.map_values(|c: char| map_char(c, from, to, paired(from, to)))
}

/// What `c` becomes under a mapping that holds, by code point, the partner
/// of each character that has one.
pub open spec fn looked_up(mapping: Map<u32, char>, c: char) -> char {
    if mapping.contains_key(c as u32) {
        mapping[c as u32]
    } else {
        c
    }
}

/// The mapping from the characters of `from` to their partners in `to`, by
/// code point. Of a character that stands more than once in `from`, the last
/// partner counts, as it does when pairs are put into a map one by one.
pub fn pair_up(from: &Vec<char>, to: &Vec<char>) -> (mapping: HashMap<u32, char>)
    ensures
        forall|c: char| #[trigger]
            looked_up(mapping@, c) == map_char(c, from@, to@, paired(from@, to@)),
{
    broadcast use vstd::std_specs::hash::group_hash_axioms;

    let n: usize = if from.len() <= to.len() {
        from.len()
    } else {
        to.len()
    };
    let mut mapping: HashMap<u32, char> = HashMap::new();
    let mut i: usize = 0;
    while i < n
        invariant
            i <= n,
            n == paired(from@, to@),
            forall|c: char| #[trigger] looked_up(mapping@, c) == map_char(c, from@, to@, i as int),
        decreases n - i,
    {
        let ghost before = mapping@;
        let key: u32 = from[i] as u32;
        mapping.insert(key, to[i]);
        proof {
            assert(mapping@ == before.insert(key, to@[i as int]));
            assert forall|c: char| #[trigger]
                looked_up(mapping@, c) == map_char(c, from@, to@, i + 1) by {
                assert(looked_up(before, c) == map_char(c, from@, to@, i as int));
                if c as u32 == key {
                    vstd::utf8::char_u32_cast(c, key);
                    vstd::utf8::char_u32_cast(from@[i as int], key);
                }
            }
        }
        i += 1;
    }
    mapping
}

/// Replaces each character of `input_str` that occurs in `from_set` by the
/// character at the same place in `to_set`.
pub fn replace_matching_characters(input_str: &str, from_set: &str, to_set: &str) -> (r: String)
    ensures
        r@ == replaced(input_str@, from_set@, to_set@),
{
    broadcast use vstd::std_specs::hash::group_hash_axioms;

    let input = to_chars(input_str);
    let from = to_chars(from_set);
    let to = to_chars(to_set);
    let mapping = pair_up(&from, &to);
    let mut r = String::new();
    let mut i: usize = 0;
    while i < input.len()
        invariant
            i <= input.len(),
            input@ == input_str@,
            from@ == from_set@,
            to@ == to_set@,
            forall|c: char| #[trigger]
                looked_up(mapping@, c) == map_char(c, from@, to@, paired(from@, to@)),
            r@ == replaced(input@.subrange(0, i as int), from@, to@),
        decreases input.len() - i,
    {
        let c = input[i];
        let key: u32 = c as u32;
        let partner = match mapping.get(&key) {
            Some(partner) => *partner,
            None => c,
        };
        assert(partner == looked_up(mapping@, c));
        push_char(&mut r, partner);
        proof {
            assert(r@ =~= replaced(input@.subrange(0, i + 1), from@, to@));
        }
        i += 1;
    }
    proof {
        assert(input@.subrange(0, i as int) =~= input@);
    }
    r
}

/// The alphabet of a highlight mode; none for the mode that leaves names as
/// they are.
pub open spec fn alphabet_of(mode: HighlightMode) -> Option<Seq<char>> {
    match mode {
        HighlightMode::Normal => None,
        HighlightMode::Fraktur => Some(ALPHA_FRAKTUR@),
        HighlightMode::FrakturBold => Some(ALPHA_FRAKTUR_BOLD@),
        HighlightMode::Script => Some(ALPHA_SCRIPT@),
        HighlightMode::Bold => Some(ALPHA_BOLD@),
        HighlightMode::Italic => Some(ALPHA_ITALIC@),
        HighlightMode::BoldItalic => Some(ALPHA_BOLD_ITALIC@),
    }
}

/// The name `user` as replies show it under `mode`.
pub open spec fn highlighted(user: Seq<char>, mode: Option<HighlightMode>) -> Seq<char> {
    match mode {
        None => user,
        Some(mode) => match alphabet_of(mode) {
            None => user,
            Some(alphabet) => replaced(user, ALPHA_REGULAR@, alphabet),
        },
    }
}

/// The name `user` as replies show it: in the alphabet that the settings
/// choose for that user, or unchanged.
pub fn highlight_for_user(user: &str, conf: &Conf) -> (r: String)
    ensures
        r@ == highlighted(user@, conf.highlight_of(user@)),
{
    match conf.highlight_mode(user) {
        None => String::from_str(user),
        Some(mode) => match mode {
            HighlightMode::Normal => String::from_str(user),
            HighlightMode::Fraktur => replace_matching_characters(
                user,
                ALPHA_REGULAR,
                ALPHA_FRAKTUR,
            ),
            HighlightMode::FrakturBold => replace_matching_characters(
                user,
                ALPHA_REGULAR,
                ALPHA_FRAKTUR_BOLD,
            ),
            HighlightMode::Script => replace_matching_characters(
                user,
                ALPHA_REGULAR,
                ALPHA_SCRIPT,
            ),
            HighlightMode::Bold => replace_matching_characters(user, ALPHA_REGULAR, ALPHA_BOLD),
            HighlightMode::Italic => replace_matching_characters(
                user,
                ALPHA_REGULAR,
                ALPHA_ITALIC,
            ),
            HighlightMode::BoldItalic => replace_matching_characters(
                user,
                ALPHA_REGULAR,
                ALPHA_BOLD_ITALIC,
            ),
        },
    }
}

} // verus!
