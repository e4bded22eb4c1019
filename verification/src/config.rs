//! Settings that the command logic reads.

use vstd::prelude::*;
use crate::text::same_text;

verus! {

/// A file-system path of the standard library, carried through unread.
#[verifier::external_type_specification]
#[verifier::external_body]
pub struct ExPathBuf(std::path::PathBuf);

/// What the command line asked for.
#[derive(Debug)]
pub struct Args {
    pub flag_verbose: bool,
    pub flag_debug: bool,
    pub flag_conf: Option<std::path::PathBuf>,
}

impl Default for Args {
    fn default() -> (args: Self)
        ensures
            !args.flag_verbose,
            !args.flag_debug,
            args.flag_conf is None,
    {
        Args { flag_verbose: false, flag_debug: false, flag_conf: None }
    }
}

/// How a user's name is set off in replies.
#[derive(Debug, Clone, Copy, PartialEq, Eq, Structural)]
pub enum HighlightMode {
    Normal,
    Fraktur,
    FrakturBold,
    Script,
    Bold,
    Italic,
    BoldItalic,
}

/// Optional behaviour.
#[derive(Debug, Clone, Copy, PartialEq, Eq, Structural)]
pub struct Features {
    pub mask_highlights: bool,
    pub send_notice: bool,
}

impl Default for Features {
    fn default() -> (features: Self)
        ensures
            features == (Features { mask_highlights: false, send_notice: false }),
    {
        Features { mask_highlights: false, send_notice: false }
    }
}

/// Limits and places.
#[derive(Debug, PartialEq, Eq)]
pub struct Parameters {
    /// How many tasks may run at once for a user without a limit of their own.
    pub task_limit: usize,
    /// The channel on which commands are taken.
    pub command_channel: String,
}

impl Default for Parameters {
    fn default() -> (params: Self)
        ensures
            params.task_limit == 34,
            params.command_channel@ == "#youtubearchive"@,
    {
        Parameters { task_limit: 34, command_channel: String::from_str("#youtubearchive") }
    }
}

/// Where the configuration file is.
#[derive(Debug)]
pub struct Paths {
    pub conf: std::path::PathBuf,
}

/// The task limit of one user.
#[derive(Debug, PartialEq, Eq)]
pub struct UserLimit {
    pub user: String,
    pub limit: usize,
}

/// The highlight mode of one user.
#[derive(Debug, PartialEq, Eq)]
pub struct UserHighlight {
    pub user: String,
    pub mode: HighlightMode,
}

/// The settings of the command logic. Where a user is listed more than once,
/// the first entry counts.
#[derive(Debug, PartialEq, Eq)]
pub struct Conf {
    pub features: Features,
    pub params: Parameters,
    pub user_limits: Vec<UserLimit>,
    pub user_highlights: Vec<UserHighlight>,
}

impl Default for Conf {
    fn default() -> (conf: Self)
        ensures
            conf.features == (Features { mask_highlights: false, send_notice: false }),
            conf.params.task_limit == 34,
            conf.params.command_channel@ == "#youtubearchive"@,
            conf.user_limits@.len() == 0,
            conf.user_highlights@.len() == 0,
    {
        Conf {
            features: Features::default(),
            params: Parameters::default(),
            user_limits: Vec::new(),
            user_highlights: Vec::new(),
        }
    }
}

/// The limit that the first entry for `user` among `entries[from..]` gives, or
/// `default` where none names the user.
pub open spec fn limit_among(
    entries: Seq<UserLimit>,
    from: int,
    user: Seq<char>,
    default: usize,
) -> usize
    decreases entries.len() - from,
{
    if from < 0 || from >= entries.len() {
        default
    } else if entries[from].user@ == user {
        entries[from].limit
    } else {
        limit_among(entries, from + 1, user, default)
    }
}

/// The mode that the first entry for `user` among `entries[from..]` gives.
pub open spec fn highlight_among(entries: Seq<UserHighlight>, from: int, user: Seq<char>) -> Option<
    HighlightMode,
>
    decreases entries.len() - from,
{
    if from < 0 || from >= entries.len() {
        None
    } else if entries[from].user@ == user {
        Some(entries[from].mode)
    } else {
        highlight_among(entries, from + 1, user)
    }
}

impl Conf {
    /// How many tasks may run at once when `user` asks for one more.
    pub open spec fn limit_of(&self, user: Seq<char>) -> usize {
        limit_among(self.user_limits@, 0, user, self.params.task_limit)
    }

    /// How the name of `user` is set off, if a mode was chosen for them.
    pub open spec fn highlight_of(&self, user: Seq<char>) -> Option<HighlightMode> {
        highlight_among(self.user_highlights@, 0, user)
    }

    /// How many tasks may run at once when `user` asks for one more: the
    /// user's own limit, or the general one.
    pub fn limit_for_user(&self, user: &str) -> (limit: usize)
        ensures
            limit == self.limit_of(user@),
    {
        let mut i: usize = 0;
        while i < self.user_limits.len()
            invariant
                i <= self.user_limits@.len(),
                self.limit_of(user@) == limit_among(
                    self.user_limits@,
                    i as int,
                    user@,
                    self.params.task_limit,
                ),
            decreases self.user_limits.len() - i,
        {
            if same_text(self.user_limits[i].user.as_str(), user) {
                return self.user_limits[i].limit;
            }
            i += 1;
        }
        self.params.task_limit
    }

    /// How the name of `user` is set off, if a mode was chosen for them.
    pub fn highlight_mode(&self, user: &str) -> (mode: Option<HighlightMode>)
        ensures
            mode == self.highlight_of(user@),
    {
        let mut i: usize = 0;
        while i < self.user_highlights.len()
            invariant
                i <= self.user_highlights@.len(),
                self.highlight_of(user@) == highlight_among(
                    self.user_highlights@,
                    i as int,
                    user@,
                ),
            decreases self.user_highlights.len() - i,
        {
            if same_text(self.user_highlights[i].user.as_str(), user) {
                return Some(self.user_highlights[i].mode);
            }
            i += 1;
        }
        None
    }
}

/// What the bot runs with: paths, settings and command-line flags.
#[derive(Debug)]
pub struct Rtd {
    pub paths: Paths,
    pub conf: Conf,
    pub args: Args,
}

} // verus!
