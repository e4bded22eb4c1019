//! Commands as the chat gives them: telling them apart, deciding who may
//! give them, and the texts of the answers.

use vstd::prelude::*;
use vstd::utf8::encode_utf8;
use crate::error::{Error, ErrorView};
use crate::text::{
    find_char, first_index, from_chars, has_at, lemma_first_index, occurs_at, same_text, to_chars,
};

verus! {

/// Which launcher an archive task is started with.
#[derive(Debug, Clone, Copy, PartialEq, Eq, Structural)]
pub enum VideoSize {
    Normal,
    VeryBig,
}

/// A command of the chat.
#[derive(Debug, PartialEq, Eq)]
pub enum Command {
    Help,
    Status,
    StopScripts,
    ContScripts,
    /// Report on what is stored for an address or a folder.
    Stash { target: String },
    /// Archive what an address refers to, after a report on what is stored
    /// where `stash_first` is set.
    Archive { url: String, size: VideoSize, stash_first: bool },
    /// Interrupt a task.
    Abort { task: String },
    /// Nothing this bot answers.
    Unknown,
}

/// A command with its texts as character sequences.
pub ghost enum CommandView {
    Help,
    Status,
    StopScripts,
    ContScripts,
    Stash { target: Seq<char> },
    Archive { url: Seq<char>, size: VideoSize, stash_first: bool },
    Abort { task: Seq<char> },
    Unknown,
}

impl View for Command {
    type V = CommandView;

    open spec fn view(&self) -> CommandView {
        match self {
            Command::Help => CommandView::Help,
            Command::Status => CommandView::Status,
            Command::StopScripts => CommandView::StopScripts,
            Command::ContScripts => CommandView::ContScripts,
            Command::Stash { target } => CommandView::Stash { target: target@ },
            Command::Archive { url, size, stash_first } => CommandView::Archive {
                url: url@,
                size: *size,
                stash_first: *stash_first,
            },
            Command::Abort { task } => CommandView::Abort { task: task@ },
            Command::Unknown => CommandView::Unknown,
        }
    }
}

impl CommandView {
    /// Whether the command changes anything, so that not everybody may give
    /// it.
    pub open spec fn needs_authorization(self) -> bool {
        match self {
            CommandView::StopScripts => true,
            CommandView::ContScripts => true,
            CommandView::Archive { .. } => true,
            CommandView::Abort { .. } => true,
            _ => false,
        }
    }
}

/// The argument of a command: what stands between the first space of the
/// message and the next one.
pub open spec fn argument_of(message: Seq<char>) -> Seq<char> {
    let first = first_index(message, ' ');
    if 0 <= first < message.len() {
        let rest = message.subrange(first + 1, message.len() as int);
        let second = first_index(rest, ' ');
        if 0 <= second <= rest.len() {
            rest.subrange(0, second)
        } else {
            rest
        }
    } else {
        message
    }
}

/// The command that a message gives: one of the four bare words, or one of
/// the words that take an argument, followed by a space.
pub open spec fn command_of(message: Seq<char>) -> CommandView {
    let argument = argument_of(message);
    if message == "!help"@ {
        CommandView::Help
    } else if message == "!status"@ {
        CommandView::Status
    } else if message == "!stopscripts"@ {
        CommandView::StopScripts
    } else if message == "!contscripts"@ {
        CommandView::ContScripts
    } else if occurs_at(message, "!s "@, 0) {
        CommandView::Stash { target: argument }
    } else if occurs_at(message, "!a "@, 0) {
        CommandView::Archive { url: argument, size: VideoSize::Normal, stash_first: false }
    } else if occurs_at(message, "!sa "@, 0) {
        CommandView::Archive { url: argument, size: VideoSize::Normal, stash_first: true }
    } else if occurs_at(message, "!averybig "@, 0) {
        CommandView::Archive { url: argument, size: VideoSize::VeryBig, stash_first: false }
    } else if occurs_at(message, "!saverybig "@, 0) {
        CommandView::Archive { url: argument, size: VideoSize::VeryBig, stash_first: true }
    } else if occurs_at(message, "!abort "@, 0) {
        CommandView::Abort { task: argument }
    } else {
        CommandView::Unknown
    }
}

/// The argument of a command.
pub fn extract_argument(message: &Vec<char>) -> (argument: String)
    ensures
        argument@ == argument_of(message@),
{
    let len: usize = message.len();
    let first = find_char(message, ' ', 0, len);
    proof {
        lemma_first_index(message@, ' ', 0, len as int, first as int);
        assert(message@.subrange(0, len as int) =~= message@);
    }
    if first == len {
        return from_chars(message, 0, len);
    }
    let second = find_char(message, ' ', first + 1, len);
    proof {
        lemma_first_index(message@, ' ', first + 1, len as int, second as int);
        let rest = message@.subrange(first + 1, len as int);
        assert(rest.subrange(0, second - (first + 1)) =~= message@.subrange(
            first + 1,
            second as int,
        ));
    }
    from_chars(message, first + 1, second)
}

/// Tells the command of a message.
pub fn parse_command(message: &str) -> (command: Command)
    ensures
        command@ == command_of(message@),
{
    if same_text(message, "!help") {
        return Command::Help;
    }
    if same_text(message, "!status") {
        return Command::Status;
    }
    if same_text(message, "!stopscripts") {
        return Command::StopScripts;
    }
    if same_text(message, "!contscripts") {
        return Command::ContScripts;
    }
    let chars = to_chars(message);
    if has_at(&chars, 0, "!s ") {
        Command::Stash { target: extract_argument(&chars) }
    } else if has_at(&chars, 0, "!a ") {
        Command::Archive {
            url: extract_argument(&chars),
            size: VideoSize::Normal,
            stash_first: false,
        }
    } else if has_at(&chars, 0, "!sa ") {
        Command::Archive { url: extract_argument(&chars), size: VideoSize::Normal, stash_first: true }
    } else if has_at(&chars, 0, "!averybig ") {
        Command::Archive {
            url: extract_argument(&chars),
            size: VideoSize::VeryBig,
            stash_first: false,
        }
    } else if has_at(&chars, 0, "!saverybig ") {
        Command::Archive {
            url: extract_argument(&chars),
            size: VideoSize::VeryBig,
            stash_first: true,
        }
    } else if has_at(&chars, 0, "!abort ") {
        Command::Abort { task: extract_argument(&chars) }
    } else {
        Command::Unknown
    }
}

impl Command {
    /// Whether the command changes anything, so that not everybody may give
    /// it.
    pub fn needs_authorization(&self) -> (b: bool)
        ensures
            b == self@.needs_authorization(),
    {
        match self {
            Command::StopScripts => true,
            Command::ContScripts => true,
            Command::Archive { .. } => true,
            Command::Abort { .. } => true,
            _ => false,
        }
    }
}

/// An argument is too long to handle when it takes more than 200 bytes.
pub open spec fn is_too_long(argument: Seq<char>) -> bool {
    encode_utf8(argument).len() > 200
}

/// Refuses an argument that is too long.
pub fn extract_url(argument: &str) -> (r: Result<(), Error>)
    ensures
        r is Ok <==> !is_too_long(argument@),
        r is Err ==> r->Err_0@ == ErrorView::UrlTooLong,
{
    if argument.as_bytes().len() <= 200 {
        Ok(())
    } else {
        Err(Error::UrlTooLong)
    }
}

/// The sender came in through the web gateway: its identity is one line that
/// holds `!webchat@` with something before and something after it.
pub open spec fn is_relayed(sender: Seq<char>) -> bool {
    &&& forall|i: int| 0 <= i < sender.len() ==> #[trigger] sender[i] != '\n'
    &&& exists|i: int| 1 <= i && i + "!webchat@"@.len() < sender.len() && occurs_at(
        sender,
        "!webchat@"@,
        i,
    )
}

/// Whether a sender of the given identity may give commands that change
/// anything: everybody but those who come in through the web gateway.
pub open spec fn is_authorized(sender: Option<Seq<char>>) -> bool {
    sender is None || !is_relayed(sender->0)
}

/// Whether the sender came in through the web gateway.
pub fn relayed(sender: &str) -> (b: bool)
    ensures
        b == is_relayed(sender@),
{
    let chars = to_chars(sender);
    let len: usize = chars.len();
    let newline = find_char(&chars, '\n', 0, len);
    if newline < len {
        return false;
    }
    let mark: usize = "!webchat@".unicode_len();
    let mut i: usize = 1;
    while i < len && mark < len - i
        invariant
            1 <= i,
            len == chars@.len(),
            chars@ == sender@,
            mark == "!webchat@"@.len(),
            forall|j: int| 0 <= j < sender@.len() ==> #[trigger] sender@[j] != '\n',
            forall|j: int| 1 <= j < i ==> !occurs_at(sender@, "!webchat@"@, j),
        decreases len - i,
    {
        if has_at(&chars, i, "!webchat@") {
            return true;
        }
        i += 1;
    }
    false
}

/// Accepts a sender who may give commands that change anything.
pub fn check_authorization(sender: Option<&str>) -> (r: Result<(), Error>)
    ensures
        r is Ok <==> is_authorized(
            match sender {
                Some(s) => Some(s@),
                None => None,
            },
        ),
        r is Err ==> r->Err_0@ == ErrorView::NotAuthorized,
{
    match sender {
        None => Ok(()),
        Some(s) => if relayed(s) {
            Err(Error::NotAuthorized)
        } else {
            Ok(())
        },
    }
}

/// What a sender who came in through the web gateway is told.
pub const NO_WEBCHAT_MESSAGE: &'static str =
    "webchat users are not authorized; use any other IRC client, or ask someone else to do it";

/// The usage line.
pub const HELP_MESSAGE: &'static str =
    "Usage: !help | !status | !s <URL or folder> | !a <URL> | !sa <URL> | !averybig <URL w/ very large videos> | !saverybig <URL w/ very large videos> | !abort <task> | !stopscripts | !contscripts";

/// The usage line.
pub fn get_help() -> (r: Result<String, Error>)
    ensures
        r is Ok,
        r->Ok_0@ == HELP_MESSAGE@,
{
    Ok(String::from_str(HELP_MESSAGE))
}

} // verus!
