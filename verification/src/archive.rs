//! Starting and stopping archive tasks: what is launched, what is refused,
//! and what the user is told.

use vstd::prelude::*;
use crate::canonical::{assert_valid_task_name, CanonicalView, CanonicalizedYoutubeDescriptor};
use crate::command::VideoSize;
use crate::config::Conf;
use crate::descriptor::FetchType;
use crate::error::{labelled, Error, ErrorView};
use crate::session::{admission, session_views, try_admit, Admission, DownloaderSession, SessionView};
use crate::shapes::is_identifier;
use crate::stash::{logs_address, logs_url};
use crate::text::{decimal_text, push_decimal};

verus! {

/// Something to be done outside: the collaborators' work.
#[derive(Debug, PartialEq, Eq)]
pub enum Effect {
    /// Fetch the page at `url`.
    FetchPage { url: String },
    /// List the running sessions, one line each.
    ListSessions,
    /// List the helper scripts that run, one line each.
    CountScripts,
    /// List the files stored for `folder`, newest first.
    ListFiles { folder: String },
    /// Start the launcher `command` on `folder` and `target`.
    Launch { command: String, folder: String, target: String },
    /// Send an interrupt to the session of that name.
    Interrupt { session: String },
    /// Pause all helper scripts.
    StopScripts,
    /// Resume all helper scripts.
    ContScripts,
}

/// An effect with its texts as character sequences.
pub ghost enum EffectView {
    FetchPage { url: Seq<char> },
    ListSessions,
    CountScripts,
    ListFiles { folder: Seq<char> },
    Launch { command: Seq<char>, folder: Seq<char>, target: Seq<char> },
    Interrupt { session: Seq<char> },
    StopScripts,
    ContScripts,
}

impl View for Effect {
    type V = EffectView;

    open spec fn view(&self) -> EffectView {
        match self {
            Effect::FetchPage { url } => EffectView::FetchPage { url: url@ },
            Effect::ListSessions => EffectView::ListSessions,
            Effect::CountScripts => EffectView::CountScripts,
            Effect::ListFiles { folder } => EffectView::ListFiles { folder: folder@ },
            Effect::Launch { command, folder, target } => EffectView::Launch {
                command: command@,
                folder: folder@,
                target: target@,
            },
            Effect::Interrupt { session } => EffectView::Interrupt { session: session@ },
            Effect::StopScripts => EffectView::StopScripts,
            Effect::ContScripts => EffectView::ContScripts,
        }
    }
}

/// An effect and what the user is told once it is done.
#[derive(Debug, PartialEq, Eq)]
pub struct Action {
    pub effect: Effect,
    pub reply: String,
}

/// An action with its texts as character sequences.
pub ghost struct ActionView {
    pub effect: EffectView,
    pub reply: Seq<char>,
}

impl View for Action {
    type V = ActionView;

    open spec fn view(&self) -> ActionView {
        ActionView { effect: self.effect@, reply: self.reply@ }
    }
}

/// The launcher for a kind of resource and a size of videos.
pub open spec fn launcher(kind: FetchType, size: VideoSize) -> Seq<char> {
    match (kind, size) {
        (FetchType::Video, VideoSize::Normal) => "grab-youtube-video"@,
        (FetchType::Video, VideoSize::VeryBig) => "grab-youtube-video-big-video"@,
        (_, VideoSize::Normal) => "grab-youtube-channel"@,
        (_, VideoSize::VeryBig) => "grab-youtube-channel-big-videos"@,
    }
}

/// What the launcher is given after the folder: the address of a single
/// video, or the number of videos to take of anything else.
pub open spec fn launch_target(descriptor: CanonicalView) -> Seq<char> {
    if descriptor.kind == FetchType::Video {
        descriptor.url()
    } else {
        "999999"@
    }
}

/// What becomes of a request to archive.
#[derive(Debug, PartialEq, Eq)]
pub enum ArchiveDecision {
    /// Nothing is started, and the user is told why.
    Refused { reply: String },
    /// The launcher is to be started.
    Start { action: Action },
}

/// A decision with its texts as character sequences.
pub ghost enum ArchiveView {
    Refused { reply: Seq<char> },
    Start { action: ActionView },
}

impl View for ArchiveDecision {
    type V = ArchiveView;

    open spec fn view(&self) -> ArchiveView {
        match self {
            ArchiveDecision::Refused { reply } => ArchiveView::Refused { reply: reply@ },
            ArchiveDecision::Start { action } => ArchiveView::Start { action: action@ },
        }
    }
}

/// What becomes of a request to archive `descriptor`, asked for as `url`,
/// by a user whose limit is `limit`, while `sessions` run.
pub open spec fn archive_decision(
    url: Seq<char>,
    descriptor: CanonicalView,
    size: VideoSize,
    limit: usize,
    sessions: Seq<SessionView>,
) -> ArchiveView {
    match admission(descriptor.folder, limit, sessions) {
        Admission::DuplicateFolder => ArchiveView::Refused {
            reply: "Can't archive "@ + url
                + " because another task is running in the same folder "@ + descriptor.folder,
        },
        Admission::LimitReached { limit } => ArchiveView::Refused {
            reply: "Can't archive "@ + url
                + " because too many tasks are running (your limit = "@ + decimal_text(
                limit as nat,
            ) + "), try again later"@,
        },
        Admission::Admitted => ArchiveView::Start {
            action: ActionView {
                effect: EffectView::Launch {
                    command: launcher(descriptor.kind, size),
                    folder: descriptor.folder,
                    target: launch_target(descriptor),
                },
                reply: "Grabbing "@ + url + " -> "@ + descriptor.folder + "; check "@
                    + logs_address(descriptor.folder) + " later"@,
            },
        },
    }
}

/// Decides on a request by `user` to archive `descriptor`, asked for as
/// `original_url`, while `sessions` run. The folder handed to the launcher is
/// a valid folder name.
pub fn archive(
    original_url: &str,
    descriptor: &CanonicalizedYoutubeDescriptor,
    video_size: VideoSize,
    user: &str,
    conf: &Conf,
    sessions: &Vec<DownloaderSession>,
) -> (r: ArchiveDecision)
    ensures
        r@ == archive_decision(
            original_url@,
            descriptor@,
            video_size,
            conf.limit_of(user@),
            session_views(sessions@),
        ),
        r matches ArchiveDecision::Start { action } ==> (action.effect matches Effect::Launch {
            folder,
            ..
        } && is_identifier(folder@)),
{
    let folder = descriptor.folder();
    match try_admit(folder.as_str(), user, sessions, conf) {
        Admission::DuplicateFolder => {
            let mut reply = labelled("Can't archive ", original_url);
            reply.append(" because another task is running in the same folder ");
            reply.append(folder.as_str());
            ArchiveDecision::Refused { reply }
        },
        Admission::LimitReached { limit } => {
            let mut reply = labelled("Can't archive ", original_url);
            reply.append(" because too many tasks are running (your limit = ");
            push_decimal(&mut reply, limit as u64);
            reply.append("), try again later");
            ArchiveDecision::Refused { reply }
        },
        Admission::Admitted => {
            let kind = descriptor.kind();
            let command = match kind {
                FetchType::Video => match video_size {
                    VideoSize::Normal => "grab-youtube-video",
                    VideoSize::VeryBig => "grab-youtube-video-big-video",
                },
                _ => match video_size {
                    VideoSize::Normal => "grab-youtube-channel",
                    VideoSize::VeryBig => "grab-youtube-channel-big-videos",
                },
            };
            let target = match kind {
                FetchType::Video => descriptor.to_url(),
                _ => String::from_str("999999"),
            };
            let mut reply = labelled("Grabbing ", original_url);
            reply.append(" -> ");
            reply.append(folder.as_str());
            reply.append("; check ");
            let logs = logs_url(folder.as_str());
            reply.append(logs.as_str());
            reply.append(" later");
            ArchiveDecision::Start {
                action: Action {
                    effect: Effect::Launch { command: String::from_str(command), folder, target },
                    reply,
                },
            }
        },
    }
}

/// What a request to abort `task` leads to: an interrupt for the session of
/// that task, or a refusal of a name that is no task name.
pub open spec fn abort_action(task: Seq<char>) -> Result<ActionView, ErrorView> {
    if is_identifier(task) {
        Ok(
            ActionView {
                effect: EffectView::Interrupt { session: "YouTube-"@ + task },
                reply: "Aborted "@ + task,
            },
        )
    } else {
        Err(ErrorView::InvalidTaskName { task })
    }
}

/// An action or an error, with texts as character sequences.
pub open spec fn action_view(r: Result<Action, Error>) -> Result<ActionView, ErrorView> {
    match r {
        Ok(a) => Ok(a@),
        Err(e) => Err(e@),
    }
}

/// Decides on a request to abort `task`.
pub fn abort(task: &str) -> (r: Result<Action, Error>)
    ensures
        action_view(r) == abort_action(task@),
{
    match assert_valid_task_name(task) {
        Err(e) => Err(e),
        Ok(()) => Ok(
            Action {
                effect: Effect::Interrupt { session: labelled("YouTube-", task) },
                reply: labelled("Aborted ", task),
            },
        ),
    }
}

/// Pausing all helper scripts, and what is said afterwards.
pub fn stop_scripts() -> (action: Action)
    ensures
        action@ == (ActionView { effect: EffectView::StopScripts, reply: "Stopped all scripts"@ }),
{
    Action { effect: Effect::StopScripts, reply: String::from_str("Stopped all scripts") }
}

/// Resuming all helper scripts, and what is said afterwards.
pub fn cont_scripts() -> (action: Action)
    ensures
        action@ == (ActionView {
            effect: EffectView::ContScripts,
            reply: "Continued all scripts"@,
        }),
{
    Action { effect: Effect::ContScripts, reply: String::from_str("Continued all scripts") }
}

/// How often `needle` occurs among `bytes`.
pub open spec fn count_of(bytes: Seq<u8>, needle: u8) -> nat
    decreases bytes.len(),
{
    if bytes.len() == 0 {
        0
    } else {
        count_of(bytes.drop_last(), needle) + if bytes.last() == needle {
            1nat
        } else {
            0nat
        }
    }
}

/// Counts the occurrences of a byte with `bytecount::count`: the result is
/// the number of places at which `needle` stands in `haystack`.
#[verifier::external_body]
pub(crate) fn count_byte(haystack: &[u8], needle: u8) -> (n: usize)
    ensures
        n == count_of(haystack@, needle),
{
    bytecount::count(haystack, needle)
}

/// The status line: how many sessions run out of how many may, and how many
/// helper scripts run, one for each line of their listing.
pub open spec fn status_text(sessions: nat, task_limit: nat, scripts: Seq<u8>) -> Seq<char> {
    decimal_text(sessions) + "/"@ + decimal_text(task_limit) + " downloaders, "@ + decimal_text(
        count_of(scripts, 10u8),
    ) + " scripts running"@
}

/// The status line.
pub fn get_status(sessions: usize, conf: &Conf, scripts: &Vec<u8>) -> (r: String)
    ensures
        r@ == status_text(sessions as nat, conf.params.task_limit as nat, scripts@),
{
    let num_scripts = count_byte(scripts.as_slice(), 10u8);
    let mut r = String::new();
    push_decimal(&mut r, sessions as u64);
    r.append("/");
    push_decimal(&mut r, conf.params.task_limit as u64);
    r.append(" downloaders, ");
    push_decimal(&mut r, num_scripts as u64);
    r.append(" scripts running");
    proof {
        assert(r@ =~= status_text(sessions as nat, conf.params.task_limit as nat, scripts@));
    }
    r
}

} // verus!
