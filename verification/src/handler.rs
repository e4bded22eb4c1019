//! The entry point for the transport: which messages are commands at all,
//! and how the replies to a command are worded.

use vstd::prelude::*;
use crate::canonical::opt_chars;
use crate::config::Conf;
use crate::command::{command_of, is_authorized, NO_WEBCHAT_MESSAGE};
use crate::dispatch::{
    dispatch_message, effect_of, first_move, go_on, going_on, reply_view, turning_away, Job,
    JobView, Step, StepView,
};
use crate::error::{labelled, Error, ErrorView};
use crate::highlight::{highlight_for_user, highlighted};
use crate::text::{occurs_at, same_text, starts_with, texts};

verus! {

/// A reply as it is sent: the user's name as shown, a colon, and the text, or
/// the word `error` and what went wrong.
pub open spec fn rendered(shown: Seq<char>, reply: Result<Seq<char>, ErrorView>) -> Seq<char> {
    match reply {
        Ok(text) => shown + ": "@ + text,
        Err(e) => shown + ": error: "@ + e.message(),
    }
}

/// Words a reply for the user whose name is shown as `shown`.
pub fn render(shown: &str, reply: &Result<String, Error>) -> (line: String)
    ensures
        line@ == rendered(shown@, reply_view(*reply)),
{
    match reply {
        Ok(text) => {
            let mut line = labelled(shown, ": ");
            line.append(text.as_str());
            line
        },
        Err(e) => {
            let mut line = labelled(shown, ": error: ");
            let message = e.message();
            line.append(message.as_str());
            line
        },
    }
}

/// Words a reply to `user`, whose name is set off as the settings say.
pub fn send_reply(user: &str, reply: &Result<String, Error>, conf: &Conf) -> (line: String)
    ensures
        line@ == rendered(highlighted(user@, conf.highlight_of(user@)), reply_view(*reply)),
{
    let shown = highlight_for_user(user, conf);
    render(shown.as_str(), reply)
}

/// The failure of the step is the refusal of the sender, and the last reply
/// of the step is the warning that tells them so.
pub open spec fn is_answered(step: StepView) -> bool {
    &&& step.failure == Some(ErrorView::NotAuthorized)
    &&& step.replies.len() > 0
    &&& step.replies.last() == Ok::<Seq<char>, ErrorView>(NO_WEBCHAT_MESSAGE@)
}

/// The lines that a step sends: its replies in order, each to the user by the
/// name the settings show, and then the failure that ended the command, to
/// the user by their plain name. A refusal that the warning has answered is
/// not said a second time.
pub open spec fn lines_of(step: StepView, user: Seq<char>, conf: &Conf) -> Seq<Seq<char>> {
    let shown = highlighted(user, conf.highlight_of(user));
    let replies = step.replies.map_values(|r: Result<Seq<char>, ErrorView>| rendered(shown, r));
    match step.failure {
        Some(e) => if is_answered(step) {
            replies
        } else {
            replies.push(rendered(user, Err(e)))
        },
        None => replies,
    }
}

/// Whether the failure of the step is a refusal that its warning has
/// answered.
pub fn answered(step: &Step) -> (b: bool)
    ensures
        b == is_answered(step@),
{
    match &step.failure {
        Some(Error::NotAuthorized) => {
            let count: usize = step.replies.len();
            if count == 0 {
                false
            } else {
                match &step.replies[count - 1] {
                    Ok(text) => same_text(text.as_str(), NO_WEBCHAT_MESSAGE),
                    Err(_) => false,
                }
            }
        },
        _ => false,
    }
}

/// The lines to send for a step, in order: every reply becomes exactly one
/// line, and so does every failure but the refusal that the warning has
/// answered.
pub fn render_step(step: &Step, user: &str, conf: &Conf) -> (lines: Vec<String>)
    ensures
        texts(lines@) == lines_of(step@, user@, conf),
{
    let shown = highlight_for_user(user, conf);
    let mut lines: Vec<String> = Vec::new();
    let mut i: usize = 0;
    let ghost replies = step@.replies.map_values(
        |r: Result<Seq<char>, ErrorView>| rendered(shown@, r),
    );
    while i < step.replies.len()
        invariant
            i <= step.replies.len(),
            shown@ == highlighted(user@, conf.highlight_of(user@)),
            replies == step@.replies.map_values(
                |r: Result<Seq<char>, ErrorView>| rendered(shown@, r),
            ),
            texts(lines@) == replies.subrange(0, i as int),
        decreases step.replies.len() - i,
    {
        let line = render(shown.as_str(), &step.replies[i]);
        let ghost before = lines@;
        lines.push(line);
        proof {
            assert(texts(lines@) =~= texts(before).push(line@));
            assert(replies.subrange(0, i + 1) =~= replies.subrange(0, i as int).push(line@));
        }
        i += 1;
    }
    proof {
        assert(replies.subrange(0, i as int) =~= replies);
    }
    if answered(step) {
        return lines;
    }
    match &step.failure {
        Some(e) => {
            let ghost before = lines@;
            let mut line = labelled(user, ": error: ");
            let message = e.message();
            line.append(message.as_str());
            lines.push(line);
            proof {
                assert(texts(lines@) =~= texts(before).push(line@));
            }
        },
        None => {},
    }
    lines
}

/// What becomes of an incoming message.
#[derive(Debug, PartialEq, Eq)]
pub struct Handled {
    /// A raw protocol line to send first, if any.
    pub raw: Option<String>,
    /// The first step on the message as a command.
    pub step: Step,
}

/// The message is a command: it was said where commands are taken.
pub open spec fn is_command(response_target: Option<Seq<char>>, conf: &Conf) -> bool {
    response_target == Some(conf.params.command_channel@)
}

/// The raw line sent ahead of the replies: one user's habitual mistake gets
/// them removed from the channel.
pub open spec fn raw_line(message: Seq<char>, user: Seq<char>, conf: &Conf) -> Option<Seq<char>> {
    if user == "Ryz"@ && occurs_at(message, "!archive "@, 0) {
        Some("KICK "@ + conf.params.command_channel@ + " Ryz unknown command"@)
    } else {
        None
    }
}

/// Takes a message that `user` said, with the full identity `sender` if one
/// came with it, where replies to it would go to `response_target`. What is
/// said elsewhere than on the command channel sets nothing off.
pub fn handle_message(
    message: &str,
    user: &str,
    sender: Option<&str>,
    response_target: Option<&str>,
    conf: &Conf,
) -> (handled: Handled)
    ensures
        opt_chars(handled.raw) == (if is_command(
            match response_target {
                Some(t) => Some(t@),
                None => None,
            },
            conf,
        ) {
            raw_line(message@, user@, conf)
        } else {
            None
        }),
        handled.step@ == (if is_command(
            match response_target {
                Some(t) => Some(t@),
                None => None,
            },
            conf,
        ) {
            first_move(
                message@,
                is_authorized(
                    match sender {
                        Some(s) => Some(s@),
                        None => None,
                    },
                ),
            )
        } else {
            going_on(JobView::Finished)
        }),
{
    let addressed = match response_target {
        Some(target) => same_text(target, conf.params.command_channel.as_str()),
        None => false,
    };
    if !addressed {
        return Handled { raw: None, step: go_on(Job::Finished) };
    }
    let raw = if same_text(user, "Ryz") && starts_with(message, "!archive ") {
        let mut line = labelled("KICK ", conf.params.command_channel.as_str());
        line.append(" Ryz unknown command");
        Some(line)
    } else {
        None
    };
    Handled { raw, step: dispatch_message(message, sender) }
}

/// Every reply of a step becomes exactly one line, and so does its failure,
/// but for the refusal that the warning has answered; the lines keep the
/// order of the replies, with the failure last.
pub proof fn lemma_every_reply_is_one_line(step: StepView, user: Seq<char>, conf: &Conf)
    ensures
        lines_of(step, user, conf).len() == step.replies.len() + (if step.failure is Some
            && !is_answered(step) {
            1nat
        } else {
            0nat
        }),
        forall|i: int|
            0 <= i < step.replies.len() ==> #[trigger] lines_of(step, user, conf)[i] == rendered(
                highlighted(user, conf.highlight_of(user)),
                step.replies[i],
            ),
        step.failure is Some && !is_answered(step) ==> lines_of(step, user, conf).last()
            == rendered(user, Err(step.failure->0)),
{
}

/// A sender who is not authorized gets exactly one line for a command that
/// changes anything: the fixed warning, to the name the settings show. No
/// effect is asked for.
pub proof fn lemma_relayed_sender_gets_one_line(message: Seq<char>, user: Seq<char>, conf: &Conf)
    requires
        command_of(message).needs_authorization(),
    ensures
        lines_of(first_move(message, false), user, conf) == seq![
            rendered(
                highlighted(user, conf.highlight_of(user)),
                Ok::<Seq<char>, ErrorView>(NO_WEBCHAT_MESSAGE@),
            ),
        ],
        effect_of(first_move(message, false).next) is None,
{
    let step = turning_away();
    assert(first_move(message, false) == step);
    assert(is_answered(step));
    assert(lines_of(step, user, conf) =~= seq![
        rendered(
            highlighted(user, conf.highlight_of(user)),
            Ok::<Seq<char>, ErrorView>(NO_WEBCHAT_MESSAGE@),
        ),
    ]);
}

} // verus!
