//! The dispatcher: from a message to replies, by way of the effects that the
//! collaborators carry out. The dispatcher decides and never acts: it hands
//! out one effect at a time and goes on with the outcome it is handed back.

use vstd::prelude::*;
use crate::archive::{
    abort, abort_action, archive, archive_decision, cont_scripts, get_status, status_text,
    stop_scripts, Action, ActionView, ArchiveDecision, ArchiveView, Effect, EffectView,
};
use crate::canonical::{
    assert_valid_task_name, first_step, next_step, CanonicalView, Canonicalization,
    CanonicalizationView, CanonicalizedYoutubeDescriptor,
};
use crate::command::{
    check_authorization, command_of, extract_url, get_help, is_authorized, is_too_long,
    parse_command, Command, CommandView, VideoSize, HELP_MESSAGE, NO_WEBCHAT_MESSAGE,
};
use crate::config::Conf;
use crate::descriptor::{classify, FetchType, YoutubeDescriptor};
use crate::error::{Error, ErrorView};
use crate::normalize::normalize;
use crate::session::{get_downloader_sessions, listing_sessions};
use crate::shapes::is_identifier;
use crate::stash::{check_folder, check_stash, folder_check, get_file_listing};
use crate::text::{line_seq, occurs_at, starts_with};

verus! {

/// A resource to be archived, as whom and how.
#[derive(Debug, PartialEq, Eq)]
pub struct ArchiveOrder {
    pub descriptor: CanonicalizedYoutubeDescriptor,
    pub url: String,
    pub size: VideoSize,
}

/// An order with its texts as character sequences.
pub ghost struct OrderView {
    pub descriptor: CanonicalView,
    pub url: Seq<char>,
    pub size: VideoSize,
}

impl View for ArchiveOrder {
    type V = OrderView;

    open spec fn view(&self) -> OrderView {
        OrderView { descriptor: self.descriptor@, url: self.url@, size: self.size }
    }
}

/// The order of an optional order.
pub open spec fn order_view(order: Option<ArchiveOrder>) -> Option<OrderView> {
    match order {
        Some(o) => Some(o@),
        None => None,
    }
}

/// Where the handling of a command stands.
#[derive(Debug, PartialEq, Eq)]
pub enum Job {
    /// Nothing is left to do.
    Finished,
    /// The address `url` is being canonicalized, for a stash report, an
    /// archive task, or both.
    Resolving { canonicalization: Canonicalization, url: String, stash: bool, archive: Option<VideoSize> },
    /// The files of `folder` are wanted for a stash report; `then` is what is
    /// archived afterwards.
    ListingFiles { folder: String, then: Option<ArchiveOrder> },
    /// The running sessions are wanted: for `then`, or for the status line.
    ListingSessions { then: Option<ArchiveOrder> },
    /// The running helper scripts are wanted for the status line.
    CountingScripts { sessions: usize },
    /// An action is under way.
    Acting { action: Action },
}

/// A job with its texts as character sequences.
pub ghost enum JobView {
    Finished,
    Resolving {
        canonicalization: CanonicalizationView,
        url: Seq<char>,
        stash: bool,
        archive: Option<VideoSize>,
    },
    ListingFiles { folder: Seq<char>, then: Option<OrderView> },
    ListingSessions { then: Option<OrderView> },
    CountingScripts { sessions: usize },
    Acting { action: ActionView },
}

impl View for Job {
    type V = JobView;

    open spec fn view(&self) -> JobView {
        match self {
            Job::Finished => JobView::Finished,
            Job::Resolving { canonicalization, url, stash, archive } => JobView::Resolving {
                canonicalization: canonicalization@,
                url: url@,
                stash: *stash,
                archive: *archive,
            },
            Job::ListingFiles { folder, then } => JobView::ListingFiles {
                folder: folder@,
                then: order_view(*then),
            },
            Job::ListingSessions { then } => JobView::ListingSessions { then: order_view(*then) },
            Job::CountingScripts { sessions } => JobView::CountingScripts { sessions: *sessions },
            Job::Acting { action } => JobView::Acting { action: action@ },
        }
    }
}

/// How an effect went.
#[derive(Debug, PartialEq, Eq)]
pub enum Outcome {
    /// The text of a page, or of a listing with a line for each session or
    /// file.
    Text(String),
    /// The listing of helper scripts.
    Bytes(Vec<u8>),
    /// It was done, and there is nothing to report.
    Done,
    /// It failed.
    Failed(Error),
}

/// An outcome with its texts as character sequences.
pub ghost enum OutcomeView {
    Text(Seq<char>),
    Bytes(Seq<u8>),
    Done,
    Failed(ErrorView),
}

impl View for Outcome {
    type V = OutcomeView;

    open spec fn view(&self) -> OutcomeView {
        match self {
            Outcome::Text(t) => OutcomeView::Text(t@),
            Outcome::Bytes(b) => OutcomeView::Bytes(b@),
            Outcome::Done => OutcomeView::Done,
            Outcome::Failed(e) => OutcomeView::Failed(e@),
        }
    }
}

/// A reply with its text as a character sequence.
pub open spec fn reply_view(r: Result<String, Error>) -> Result<Seq<char>, ErrorView> {
    match r {
        Ok(t) => Ok(t@),
        Err(e) => Err(e@),
    }
}

/// One step of the dispatcher: the replies to send now, in order; the
/// failure that ended the command, if one did; and what is left to do.
#[derive(Debug, PartialEq, Eq)]
pub struct Step {
    pub replies: Vec<Result<String, Error>>,
    pub failure: Option<Error>,
    pub next: Job,
}

/// A step with its texts as character sequences.
pub ghost struct StepView {
    pub replies: Seq<Result<Seq<char>, ErrorView>>,
    pub failure: Option<ErrorView>,
    pub next: JobView,
}

impl View for Step {
    type V = StepView;

    open spec fn view(&self) -> StepView {
        StepView {
            replies: self.replies@.map_values(|r: Result<String, Error>| reply_view(r)),
            failure: match self.failure {
                Some(e) => Some(e@),
                None => None,
            },
            next: self.next@,
        }
    }
}

/// The step that goes on to `next` without a reply.
pub open spec fn going_on(next: JobView) -> StepView {
    StepView { replies: Seq::empty(), failure: None, next }
}

/// The step that sends one reply and goes on to `next`.
pub open spec fn replying(reply: Result<Seq<char>, ErrorView>, next: JobView) -> StepView {
    StepView { replies: seq![reply], failure: None, next }
}

/// The step that ends the command with a failure.
pub open spec fn failing(e: ErrorView) -> StepView {
    StepView { replies: Seq::empty(), failure: Some(e), next: JobView::Finished }
}

/// The step that turns away a sender who may not give the command: one
/// warning, the failure, and nothing more to do.
pub open spec fn turning_away() -> StepView {
    StepView {
        replies: seq![Ok(NO_WEBCHAT_MESSAGE@)],
        failure: Some(ErrorView::NotAuthorized),
        next: JobView::Finished,
    }
}

/// What an outcome is taken for where another kind was due.
pub open spec fn unexpected() -> ErrorView {
    ErrorView::Io { detail: "unexpected outcome"@ }
}

/// What is archived once the stash report is out of the way.
pub open spec fn archiving(descriptor: CanonicalView, url: Seq<char>, archive: Option<VideoSize>) -> JobView {
    match archive {
        Some(size) => JobView::ListingSessions {
            then: Some(OrderView { descriptor, url, size }),
        },
        None => JobView::Finished,
    }
}

/// What follows once the canonical descriptor is known. A stash report on a
/// single video is refused at once; on anything else it asks for the files of
/// the folder. Without a stash report the sessions are asked for.
pub open spec fn resolved(
    descriptor: CanonicalView,
    url: Seq<char>,
    stash: bool,
    archive: Option<VideoSize>,
) -> StepView {
    if !stash {
        going_on(archiving(descriptor, url, archive))
    } else if descriptor.kind == FetchType::Video {
        replying(
            Err(ErrorView::NotImplemented { what: "/s on /watch? URL"@ }),
            archiving(descriptor, url, archive),
        )
    } else {
        going_on(
            JobView::ListingFiles {
                folder: descriptor.folder,
                then: match archive {
                    Some(size) => Some(OrderView { descriptor, url, size }),
                    None => None,
                },
            },
        )
    }
}

/// What follows a step of canonicalization: another page, or the resolved
/// descriptor.
pub open spec fn resolving(
    canonicalization: CanonicalizationView,
    url: Seq<char>,
    stash: bool,
    archive: Option<VideoSize>,
) -> StepView {
    match canonicalization {
        CanonicalizationView::Done(descriptor) => resolved(descriptor, url, stash, archive),
        _ => going_on(JobView::Resolving { canonicalization, url, stash, archive }),
    }
}

/// How the handling of an address starts: it is classified, and its
/// canonicalization begun.
pub open spec fn resolution_start(url: Seq<char>, stash: bool, archive: Option<VideoSize>) -> StepView {
    match classify(url) {
        None => failing(ErrorView::UnsupportedUrl { url: normalize(url) }),
        Some(descriptor) => match first_step(descriptor) {
            Err(e) => failing(e),
            Ok(canonicalization) => resolving(canonicalization, url, stash, archive),
        },
    }
}

/// `text` is spelled like an address rather than like a folder.
pub open spec fn looks_like_url(text: Seq<char>) -> bool {
    occurs_at(text, "https://"@, 0) || occurs_at(text, "http://"@, 0)
}

/// The first step on a message: what a sender, authorized or not, sets off
/// with it.
pub open spec fn first_move(message: Seq<char>, authorized: bool) -> StepView {
    let command = command_of(message);
    if command.needs_authorization() && !authorized {
        turning_away()
    } else {
        match command {
            CommandView::Help => replying(Ok(HELP_MESSAGE@), JobView::Finished),
            CommandView::Status => going_on(JobView::ListingSessions { then: None }),
            CommandView::StopScripts => going_on(
                JobView::Acting {
                    action: ActionView {
                        effect: EffectView::StopScripts,
                        reply: "Stopped all scripts"@,
                    },
                },
            ),
            CommandView::ContScripts => going_on(
                JobView::Acting {
                    action: ActionView {
                        effect: EffectView::ContScripts,
                        reply: "Continued all scripts"@,
                    },
                },
            ),
            CommandView::Stash { target } => if is_too_long(target) {
                failing(ErrorView::UrlTooLong)
            } else if looks_like_url(target) {
                resolution_start(target, true, None)
            } else if is_identifier(target) {
                going_on(JobView::ListingFiles { folder: target, then: None })
            } else {
                replying(Err(ErrorView::InvalidTaskName { task: target }), JobView::Finished)
            },
            CommandView::Archive { url, size, stash_first } => if is_too_long(url) {
                failing(ErrorView::UrlTooLong)
            } else {
                resolution_start(url, stash_first, Some(size))
            },
            CommandView::Abort { task } => if is_too_long(task) {
                failing(ErrorView::UrlTooLong)
            } else {
                match abort_action(task) {
                    Ok(action) => going_on(JobView::Acting { action }),
                    Err(e) => replying(Err(e), JobView::Finished),
                }
            },
            CommandView::Unknown => going_on(JobView::Finished),
        }
    }
}

/// The effect that a job waits for. A folder handed to a collaborator is a
/// valid folder name: a job that names another waits for nothing.
pub open spec fn effect_of(job: JobView) -> Option<EffectView> {
    match job {
        JobView::Finished => None,
        JobView::Resolving { canonicalization, .. } => match canonicalization {
            CanonicalizationView::Fetch { descriptor, .. } => Some(
                EffectView::FetchPage { url: descriptor.url() },
            ),
            CanonicalizationView::Done(_) => None,
        },
        JobView::ListingFiles { folder, .. } => if is_identifier(folder) {
            Some(EffectView::ListFiles { folder })
        } else {
            None
        },
        JobView::ListingSessions { .. } => Some(EffectView::ListSessions),
        JobView::CountingScripts { .. } => Some(EffectView::CountScripts),
        JobView::Acting { action } => match action.effect {
            EffectView::Launch { folder, .. } => if is_identifier(folder) {
                Some(action.effect)
            } else {
                None
            },
            EffectView::ListFiles { folder } => if is_identifier(folder) {
                Some(action.effect)
            } else {
                None
            },
            _ => Some(action.effect),
        },
    }
}

/// The step that a job takes on the outcome of its effect, for the user who
/// gave the command.
pub open spec fn next_move(job: JobView, outcome: OutcomeView, user: Seq<char>, conf: &Conf) -> StepView {
    match job {
        JobView::Finished => going_on(JobView::Finished),
        JobView::Resolving { canonicalization, url, stash, archive } => match canonicalization {
            CanonicalizationView::Done(descriptor) => resolved(descriptor, url, stash, archive),
            _ => match outcome {
                OutcomeView::Text(page) => match next_step(canonicalization, page) {
                    Err(e) => failing(e),
                    Ok(next) => resolving(next, url, stash, archive),
                },
                OutcomeView::Failed(e) => failing(e),
                _ => failing(unexpected()),
            },
        },
        JobView::ListingFiles { folder, then } => replying(
            folder_check(
                folder,
                match outcome {
                    OutcomeView::Text(listing) => Some(line_seq(listing)),
                    _ => None,
                },
            ),
            match then {
                Some(order) => JobView::ListingSessions { then: Some(order) },
                None => JobView::Finished,
            },
        ),
        JobView::ListingSessions { then } => match outcome {
            OutcomeView::Text(listing) => match listing_sessions(listing) {
                None => replying(
                    Err(ErrorView::Io { detail: "malformed session listing"@ }),
                    JobView::Finished,
                ),
                Some(sessions) => match then {
                    None => going_on(JobView::CountingScripts { sessions: sessions.len() as usize }),
                    Some(order) => match archive_decision(
                        order.url,
                        order.descriptor,
                        order.size,
                        conf.limit_of(user),
                        sessions,
                    ) {
                        ArchiveView::Refused { reply } => replying(Ok(reply), JobView::Finished),
                        ArchiveView::Start { action } => going_on(JobView::Acting { action }),
                    },
                },
            },
            OutcomeView::Failed(e) => replying(Err(e), JobView::Finished),
            _ => replying(Err(unexpected()), JobView::Finished),
        },
        JobView::CountingScripts { sessions } => match outcome {
            OutcomeView::Bytes(scripts) => replying(
                Ok(status_text(sessions as nat, conf.params.task_limit as nat, scripts)),
                JobView::Finished,
            ),
            OutcomeView::Failed(e) => replying(Err(e), JobView::Finished),
            _ => replying(Err(unexpected()), JobView::Finished),
        },
        JobView::Acting { action } => match outcome {
            OutcomeView::Done => replying(Ok(action.reply), JobView::Finished),
            OutcomeView::Failed(e) => replying(Err(e), JobView::Finished),
            _ => replying(Err(unexpected()), JobView::Finished),
        },
    }
}

/// The step that goes on to `next` without a reply.
pub fn go_on(next: Job) -> (step: Step)
    ensures
        step@ == going_on(next@),
{
    let step = Step { replies: Vec::new(), failure: None, next };
    proof {
        assert(step@.replies =~= Seq::empty());
    }
    step
}

/// The step that sends one reply and goes on to `next`.
fn reply_with(reply: Result<String, Error>, next: Job) -> (step: Step)
    ensures
        step@ == replying(reply_view(reply), next@),
{
    let mut replies: Vec<Result<String, Error>> = Vec::new();
    replies.push(reply);
    let step = Step { replies, failure: None, next };
    proof {
        assert(step@.replies =~= seq![reply_view(reply)]);
    }
    step
}

/// The step that ends the command with a failure.
fn fail_with(e: Error) -> (step: Step)
    ensures
        step@ == failing(e@),
{
    let step = Step { replies: Vec::new(), failure: Some(e), next: Job::Finished };
    proof {
        assert(step@.replies =~= Seq::empty());
    }
    step
}

/// The error for an outcome of another kind than the one that was due.
fn unexpected_outcome() -> (e: Error)
    ensures
        e@ == unexpected(),
{
    Error::Io { detail: String::from_str("unexpected outcome") }
}

/// The job that archives, where archiving was asked for.
fn archive_after(
    descriptor: CanonicalizedYoutubeDescriptor,
    url: String,
    archive: Option<VideoSize>,
) -> (job: Job)
    ensures
        job@ == archiving(descriptor@, url@, archive),
{
    match archive {
        Some(size) => Job::ListingSessions { then: Some(ArchiveOrder { descriptor, url, size }) },
        None => Job::Finished,
    }
}

/// The step that follows once the canonical descriptor is known.
fn go_on_resolved(
    descriptor: CanonicalizedYoutubeDescriptor,
    url: String,
    stash: bool,
    archive: Option<VideoSize>,
) -> (step: Step)
    ensures
        step@ == resolved(descriptor@, url@, stash, archive),
{
    if !stash {
        return go_on(archive_after(descriptor, url, archive));
    }
    match check_stash(&descriptor) {
        Err(e) => reply_with(Err(e), archive_after(descriptor, url, archive)),
        Ok(folder) => {
            let then = match archive {
                Some(size) => Some(ArchiveOrder { descriptor, url, size }),
                None => None,
            };
            go_on(Job::ListingFiles { folder, then })
        },
    }
}

/// The step that follows a step of canonicalization.
fn go_on_resolving(
    canonicalization: Canonicalization,
    url: String,
    stash: bool,
    archive: Option<VideoSize>,
) -> (step: Step)
    ensures
        step@ == resolving(canonicalization@, url@, stash, archive),
{
    match canonicalization {
        Canonicalization::Done(descriptor) => go_on_resolved(descriptor, url, stash, archive),
        _ => go_on(Job::Resolving { canonicalization, url, stash, archive }),
    }
}

/// The step that starts the handling of an address.
fn start_resolution(url: String, stash: bool, archive: Option<VideoSize>) -> (step: Step)
    ensures
        step@ == resolution_start(url@, stash, archive),
{
    match YoutubeDescriptor::from_url(url.as_str()) {
        Err(e) => fail_with(e),
        Ok(descriptor) => match descriptor.canonicalize() {
            Err(e) => fail_with(e),
            Ok(canonicalization) => go_on_resolving(canonicalization, url, stash, archive),
        },
    }
}

/// Takes the first step on a message; `sender` is the full
/// identity that came with the message, if one did. A command that changes
/// anything is taken from an authorized sender only: anybody else gets one
/// warning, and nothing is set off.
pub fn dispatch_message(message: &str, sender: Option<&str>) -> (step: Step)
    ensures
        step@ == first_move(
            message@,
            is_authorized(
                match sender {
                    Some(s) => Some(s@),
                    None => None,
                },
            ),
        ),
{
    let command = parse_command(message);
    if command.needs_authorization() {
        match check_authorization(sender) {
            Ok(()) => {},
            Err(e) => {
                let mut replies: Vec<Result<String, Error>> = Vec::new();
                let warning: Result<String, Error> = Ok(String::from_str(NO_WEBCHAT_MESSAGE));
                replies.push(warning);
                let step = Step { replies, failure: Some(e), next: Job::Finished };
                proof {
                    assert(step@.replies =~= seq![reply_view(warning)]);
                }
                return step;
            },
        }
    }
    match command {
        Command::Help => reply_with(get_help(), Job::Finished),
        Command::Status => go_on(Job::ListingSessions { then: None }),
        Command::StopScripts => go_on(Job::Acting { action: stop_scripts() }),
        Command::ContScripts => go_on(Job::Acting { action: cont_scripts() }),
        Command::Stash { target } => {
            match extract_url(target.as_str()) {
                Err(e) => { return fail_with(e); },
                Ok(()) => {},
            }
            if starts_with(target.as_str(), "https://") || starts_with(target.as_str(), "http://") {
                start_resolution(target, true, None)
            } else {
                match assert_valid_task_name(target.as_str()) {
                    Err(e) => reply_with(Err(e), Job::Finished),
                    Ok(()) => go_on(Job::ListingFiles { folder: target, then: None }),
                }
            }
        },
        Command::Archive { url, size, stash_first } => {
            match extract_url(url.as_str()) {
                Err(e) => fail_with(e),
                Ok(()) => start_resolution(url, stash_first, Some(size)),
            }
        },
        Command::Abort { task } => {
            match extract_url(task.as_str()) {
                Err(e) => { return fail_with(e); },
                Ok(()) => {},
            }
            match abort(task.as_str()) {
                Ok(action) => go_on(Job::Acting { action }),
                Err(e) => reply_with(Err(e), Job::Finished),
            }
        },
        Command::Unknown => go_on(Job::Finished),
    }
}

impl Effect {
    /// The same effect once more.
    pub fn duplicate(&self) -> (e: Effect)
        ensures
            e@ == self@,
    {
        match self {
            Effect::FetchPage { url } => Effect::FetchPage { url: url.clone() },
            Effect::ListSessions => Effect::ListSessions,
            Effect::CountScripts => Effect::CountScripts,
            Effect::ListFiles { folder } => Effect::ListFiles { folder: folder.clone() },
            Effect::Launch { command, folder, target } => Effect::Launch {
                command: command.clone(),
                folder: folder.clone(),
                target: target.clone(),
            },
            Effect::Interrupt { session } => Effect::Interrupt { session: session.clone() },
            Effect::StopScripts => Effect::StopScripts,
            Effect::ContScripts => Effect::ContScripts,
        }
    }
}

/// The effect of an optional effect.
pub open spec fn effect_view(e: Option<Effect>) -> Option<EffectView> {
    match e {
        Some(e) => Some(e@),
        None => None,
    }
}

impl Job {
    /// The effect that must be carried out before the job can go on; none
    /// where the job is finished. A folder that the effect names is a valid
    /// folder name.
    pub fn effect(&self) -> (e: Option<Effect>)
        ensures
            effect_view(e) == effect_of(self@),
            match e {
                Some(Effect::ListFiles { folder }) => is_identifier(folder@),
                Some(Effect::Launch { folder, .. }) => is_identifier(folder@),
                _ => true,
            },
    {
        match self {
            Job::Finished => None,
            Job::Resolving { canonicalization, .. } => match canonicalization.wanted_url() {
                Some(url) => Some(Effect::FetchPage { url }),
                None => None,
            },
            Job::ListingFiles { folder, .. } => match assert_valid_task_name(folder.as_str()) {
                Ok(()) => Some(Effect::ListFiles { folder: folder.clone() }),
                Err(_) => None,
            },
            Job::ListingSessions { .. } => Some(Effect::ListSessions),
            Job::CountingScripts { .. } => Some(Effect::CountScripts),
            Job::Acting { action } => match &action.effect {
                Effect::Launch { folder, .. } => match assert_valid_task_name(folder.as_str()) {
                    Ok(()) => Some(action.effect.duplicate()),
                    Err(_) => None,
                },
                Effect::ListFiles { folder } => match assert_valid_task_name(folder.as_str()) {
                    Ok(()) => Some(action.effect.duplicate()),
                    Err(_) => None,
                },
                _ => Some(action.effect.duplicate()),
            },
        }
    }

    /// Goes on with the outcome of the effect that the job waited for, on
    /// behalf of `user`, who gave the command.
    pub fn resume(self, outcome: Outcome, user: &str, conf: &Conf) -> (step: Step)
        ensures
            step@ == next_move(self@, outcome@, user@, conf),
    {
        match self {
            Job::Finished => go_on(Job::Finished),
            Job::Resolving { canonicalization, url, stash, archive } => match canonicalization {
                Canonicalization::Done(descriptor) => go_on_resolved(
                    descriptor,
                    url,
                    stash,
                    archive,
                ),
                _ => match outcome {
                    Outcome::Text(page) => match canonicalization.page_fetched(page.as_str()) {
                        Err(e) => fail_with(e),
                        Ok(next) => go_on_resolving(next, url, stash, archive),
                    },
                    Outcome::Failed(e) => fail_with(e),
                    _ => fail_with(unexpected_outcome()),
                },
            },
            Job::ListingFiles { folder, then } => {
                let listing: Result<Vec<String>, Error> = match outcome {
                    Outcome::Text(listing) => Ok(get_file_listing(listing.as_str())),
                    _ => Err(unexpected_outcome()),
                };
                let reply = check_folder(folder.as_str(), listing);
                let next = match then {
                    Some(order) => Job::ListingSessions { then: Some(order) },
                    None => Job::Finished,
                };
                reply_with(reply, next)
            },
            Job::ListingSessions { then } => match outcome {
                Outcome::Text(listing) => match get_downloader_sessions(listing.as_str()) {
                    Err(e) => reply_with(Err(e), Job::Finished),
                    Ok(sessions) => match then {
                        None => go_on(Job::CountingScripts { sessions: sessions.len() }),
                        Some(order) => match archive(
                            order.url.as_str(),
                            &order.descriptor,
                            order.size,
                            user,
                            conf,
                            &sessions,
                        ) {
                            ArchiveDecision::Refused { reply } => reply_with(
                                Ok(reply),
                                Job::Finished,
                            ),
                            ArchiveDecision::Start { action } => go_on(Job::Acting { action }),
                        },
                    },
                },
                Outcome::Failed(e) => reply_with(Err(e), Job::Finished),
                _ => reply_with(Err(unexpected_outcome()), Job::Finished),
            },
            Job::CountingScripts { sessions } => match outcome {
                Outcome::Bytes(scripts) => reply_with(
                    Ok(get_status(sessions, conf, &scripts)),
                    Job::Finished,
                ),
                Outcome::Failed(e) => reply_with(Err(e), Job::Finished),
                _ => reply_with(Err(unexpected_outcome()), Job::Finished),
            },
            Job::Acting { action } => match outcome {
                Outcome::Done => reply_with(Ok(action.reply), Job::Finished),
                Outcome::Failed(e) => reply_with(Err(e), Job::Finished),
                _ => reply_with(Err(unexpected_outcome()), Job::Finished),
            },
        }
    }
}

/// A sender who is not authorized sets nothing off with a command that
/// changes anything: the first step is one fixed warning and the failure,
/// and the job that is left waits for no effect.
pub proof fn lemma_unauthorized_sets_nothing_off(message: Seq<char>)
    requires
        command_of(message).needs_authorization(),
    ensures
        first_move(message, false) == turning_away(),
        first_move(message, false).replies.len() == 1,
        first_move(message, false).failure == Some(ErrorView::NotAuthorized),
        effect_of(first_move(message, false).next) is None,
{
}

/// A command that changes nothing is handled alike for every sender.
pub proof fn lemma_passive_commands_need_no_authorization(message: Seq<char>)
    requires
        !command_of(message).needs_authorization(),
    ensures
        first_move(message, false) == first_move(message, true),
{
}

/// However canonicalization ends, the folder it gives is a valid folder
/// name: a job never asks for the files of another, and no task is launched
/// in another.
pub proof fn lemma_effects_name_valid_folders(job: JobView)
    ensures
        match effect_of(job) {
            Some(EffectView::ListFiles { folder }) => is_identifier(folder),
            Some(EffectView::Launch { folder, .. }) => is_identifier(folder),
            _ => true,
        },
{
}

/// Where a stash report and an archive task were asked for together, the
/// report is sent first, however the listing of the files went; only then are
/// the sessions asked for on behalf of the task.
pub proof fn lemma_stash_report_precedes_archive(
    folder: Seq<char>,
    order: OrderView,
    outcome: OutcomeView,
    user: Seq<char>,
    conf: &Conf,
)
    ensures
        next_move(JobView::ListingFiles { folder, then: Some(order) }, outcome, user, conf).replies.len()
            == 1,
        next_move(JobView::ListingFiles { folder, then: Some(order) }, outcome, user, conf).failure
            is None,
        next_move(JobView::ListingFiles { folder, then: Some(order) }, outcome, user, conf).next
            == (JobView::ListingSessions { then: Some(order) }),
{
}

/// A step never both ends a command with a failure and leaves something to
/// do, and it sends one reply at most, but for the warning that comes with a
/// refusal.
pub proof fn lemma_failure_ends_the_command(
    job: JobView,
    outcome: OutcomeView,
    user: Seq<char>,
    conf: &Conf,
)
    ensures
        next_move(job, outcome, user, conf).failure is Some ==> next_move(
            job,
            outcome,
            user,
            conf,
        ).next == JobView::Finished,
        next_move(job, outcome, user, conf).replies.len() <= 1,
{
}

} // verus!
