//! Canonical descriptors: the identity and storage folder of a resource, and
//! the steps that lead from a descriptor to them by way of fetched pages.

use vstd::prelude::*;
use crate::descriptor::{
    classify, lemma_classified_id_is_identifier, DescriptorView, FetchType, YoutubeDescriptor,
};
use crate::error::{labelled, Error, ErrorView};
use crate::shapes::{is_identifier, is_word_char, word_char};
use crate::text::{same_text, to_chars};

verus! {

/// What the first capture group of `pattern` holds in the leftmost match of
/// `pattern` in `haystack`, as the regex crate finds it; `None` where the
/// pattern does not compile, nothing matches, or the group took no part.
pub uninterp spec fn regex_first_capture(pattern: Seq<char>, haystack: Seq<char>) -> Option<
    Seq<char>,
>;

/// The characters of an optional string.
pub open spec fn opt_chars(o: Option<String>) -> Option<Seq<char>> {
    match o {
        Some(s) => Some(s@),
        None => None,
    }
}

/// Compiles `pattern` with `regex::Regex::new`, searches `haystack` with
/// `Regex::captures` and copies out the text that `Captures::get` gives for
/// group 1. Nothing is proved of the matching itself: the contract only gives
/// the outcome its name.
#[verifier::external_body]
pub(crate) fn first_capture(pattern: &str, haystack: &str) -> (r: Option<String>)
    ensures
        opt_chars(r) == regex_first_capture(pattern@, haystack@),
{
    let re = regex::Regex::new(pattern).ok()?;
    let found = re.captures(haystack)?;
    found.get(1).map(|m| m.as_str().to_string())
}

/// The user name that a page's markup gives for its owner.
pub open spec fn page_username(page: Seq<char>) -> Option<Seq<char>> {
    regex_first_capture(
        "<link itemprop=\"url\" href=\"http://www.youtube.com/user/([^\"]+)\">"@,
        page,
    )
}

/// The channel identifier that a page's markup gives: the one in its metadata
/// tag, else the one in its embedded player configuration.
pub open spec fn page_channel_id(page: Seq<char>) -> Option<Seq<char>> {
    let meta = regex_first_capture("<meta itemprop=\"channelId\" content=\"([^\"]+)\">"@, page);
    if meta is Some {
        meta
    } else {
        regex_first_capture(" ytplayer = .+?\\\\\"channelId\\\\\":\\\\\"([^\"]+)\\\\\""@, page)
    }
}

/// The user name in a page's markup, if it has one.
pub fn extract_username(page_contents: &str) -> (r: Option<String>)
    ensures
        opt_chars(r) == page_username(page_contents@),
{
    first_capture(
        "<link itemprop=\"url\" href=\"http://www.youtube.com/user/([^\"]+)\">",
        page_contents,
    )
}

/// The channel identifier in a page's markup; a page without one is an error
/// of its own kind.
pub fn extract_channel_id(page_contents: &str) -> (r: Result<String, Error>)
    ensures
        match r {
            Ok(id) => page_channel_id(page_contents@) == Some(id@),
            Err(e) => page_channel_id(page_contents@) is None && e@
                == ErrorView::CouldNotGetChannelIdentifier,
        },
{
    let meta = first_capture("<meta itemprop=\"channelId\" content=\"([^\"]+)\">", page_contents);
    let details = match meta {
        Some(id) => { return Ok(id); },
        None => first_capture(
            " ytplayer = .+?\\\\\"channelId\\\\\":\\\\\"([^\"]+)\\\\\"",
            page_contents,
        ),
    };
    channel_id_or_error(details)
}

/// A channel identifier that was looked for, or the error that says none was
/// found.
pub fn channel_id_or_error(found: Option<String>) -> (r: Result<String, Error>)
    ensures
        match r {
            Ok(id) => opt_chars(found) == Some(id@),
            Err(e) => found is None && e@ == ErrorView::CouldNotGetChannelIdentifier,
        },
{
    match found {
        Some(id) => Ok(id),
        None => Err(Error::CouldNotGetChannelIdentifier),
    }
}

/// The folder that holds what `username` publishes: the user name itself,
/// except for the accounts whose folder was fixed otherwise.
pub open spec fn folder_of_user(username: Seq<char>) -> Seq<char> {
    if username == "TEDxTalks"@ {
        "UCsT0YIqwnpJCM-mx7-gSA4Q"@
    } else {
        username
    }
}

/// The folder that holds what `username` publishes.
pub fn folder_for_user(username: &str) -> (folder: String)
    ensures
        folder@ == folder_of_user(username@),
{
    if same_text(username, "TEDxTalks") {
        String::from_str("UCsT0YIqwnpJCM-mx7-gSA4Q")
    } else {
        String::from_str(username)
    }
}

/// Accepts `task` if it is fit to be a task or folder name.
pub fn assert_valid_task_name(task: &str) -> (r: Result<(), Error>)
    ensures
        r is Ok <==> is_identifier(task@),
        r is Err ==> r->Err_0@ == (ErrorView::InvalidTaskName { task: task@ }),
{
    let chars = to_chars(task);
    let mut i: usize = 0;
    while i < chars.len()
        invariant
            i <= chars.len(),
            chars@ == task@,
            forall|j: int| 0 <= j < i ==> is_word_char(#[trigger] chars@[j]),
        decreases chars.len() - i,
    {
        if !word_char(chars[i]) {
            return Err(Error::InvalidTaskName { task: String::from_str(task) });
        }
        i += 1;
    }
    if chars.len() == 0 {
        return Err(Error::InvalidTaskName { task: String::from_str(task) });
    }
    Ok(())
}

/// The resolved identity of a resource and the folder it is stored in.
#[derive(Debug, PartialEq, Eq)]
pub struct CanonicalizedYoutubeDescriptor {
    id: String,
    folder: String,
    kind: FetchType,
}

/// A canonical descriptor with its texts as character sequences.
pub ghost struct CanonicalView {
    pub id: Seq<char>,
    pub folder: Seq<char>,
    pub kind: FetchType,
}

impl CanonicalView {
    /// The address under which the resource is fetched.
    pub open spec fn url(self) -> Seq<char> {
        (DescriptorView { kind: self.kind, id: self.id }).url()
    }
}

impl View for CanonicalizedYoutubeDescriptor {
    type V = CanonicalView;

    closed spec fn view(&self) -> CanonicalView {
        CanonicalView { id: self.id@, folder: self.folder@, kind: self.kind }
    }
}

impl CanonicalizedYoutubeDescriptor {
    /// Every canonical descriptor has a valid folder name.
    #[verifier::type_invariant]
    spec fn folder_is_valid(self) -> bool {
        is_identifier(self.folder@)
    }

    /// A canonical descriptor of the given parts; refused where `folder` is
    /// not fit to be a folder name.
    pub fn new(kind: FetchType, id: String, folder: String) -> (r: Result<Self, Error>)
        ensures
            r is Ok <==> is_identifier(folder@),
            r is Ok ==> r->Ok_0@ == (CanonicalView { id: id@, folder: folder@, kind }),
            r is Err ==> r->Err_0@ == (ErrorView::InvalidTaskName { task: folder@ }),
    {
        match assert_valid_task_name(folder.as_str()) {
            Ok(()) => Ok(CanonicalizedYoutubeDescriptor { id, folder, kind }),
            Err(e) => Err(e),
        }
    }

    /// The address under which the resource is fetched.
    pub fn to_url(&self) -> (url: String)
        ensures
            url@ == self@.url(),
    {
        match self.kind {
            FetchType::User => {
                let mut url = labelled("https://www.youtube.com/user/", self.id.as_str());
                url.append("/videos");
                url
            },
            FetchType::Channel => {
                let mut url = labelled("https://www.youtube.com/channel/", self.id.as_str());
                url.append("/videos");
                url
            },
            FetchType::Playlist => labelled(
                "https://www.youtube.com/playlist?list=",
                self.id.as_str(),
            ),
            FetchType::Video => labelled("https://www.youtube.com/watch?v=", self.id.as_str()),
        }
    }

    /// The folder the resource is stored in: always a valid folder name.
    pub fn folder(&self) -> (folder: String)
        ensures
            folder@ == self@.folder,
            is_identifier(folder@),
    {
        proof {
            use_type_invariant(self);
        }
        self.folder.clone()
    }

    /// The resolved identifier.
    pub fn id(&self) -> (id: String)
        ensures
            id@ == self@.id,
    {
        self.id.clone()
    }

    /// What the descriptor refers to.
    pub fn kind(&self) -> (kind: FetchType)
        ensures
            kind == self@.kind,
    {
        self.kind
    }
}

/// What the markup of a channel's or user's page resolves to. A user name is
/// preferred, with its folder; without one the channel identifier serves as
/// both identity and folder. The folder must be a valid folder name. Where
/// the page was fetched on behalf of `video`, the result is that video, stored
/// in the folder of its channel.
pub open spec fn resolution(
    username: Option<Seq<char>>,
    channel_id: Option<Seq<char>>,
    video: Option<Seq<char>>,
) -> Result<CanonicalView, ErrorView> {
    if username is None && channel_id is None {
        Err(ErrorView::CouldNotGetChannelIdentifier)
    } else {
        let owner = if username is Some {
            CanonicalView {
                id: username->0,
                folder: folder_of_user(username->0),
                kind: FetchType::User,
            }
        } else {
            CanonicalView { id: channel_id->0, folder: channel_id->0, kind: FetchType::Channel }
        };
        if !is_identifier(owner.folder) {
            Err(ErrorView::InvalidTaskName { task: owner.folder })
        } else if video is Some {
            Ok(CanonicalView { id: video->0, folder: owner.folder, kind: FetchType::Video })
        } else {
            Ok(owner)
        }
    }
}

/// The outcome of a resolution with its texts as character sequences.
pub open spec fn resolved_view(r: Result<CanonicalizedYoutubeDescriptor, Error>) -> Result<
    CanonicalView,
    ErrorView,
> {
    match r {
        Ok(c) => Ok(c@),
        Err(e) => Err(e@),
    }
}

/// Resolves what was found in the markup of a channel's or user's page.
pub fn resolve(username: Option<String>, channel_id: Option<String>, video: Option<String>) -> (r:
    Result<CanonicalizedYoutubeDescriptor, Error>)
    ensures
        resolved_view(r) == resolution(
            opt_chars(username),
            opt_chars(channel_id),
            opt_chars(video),
        ),
        r is Ok ==> is_identifier(r->Ok_0@.folder),
{
    let (kind, id, folder) = match username {
        Some(name) => {
            let folder = folder_for_user(name.as_str());
            (FetchType::User, name, folder)
        },
        None => match channel_id {
            Some(id) => {
                let folder = id.clone();
                (FetchType::Channel, id, folder)
            },
            None => { return Err(Error::CouldNotGetChannelIdentifier); },
        },
    };
    match video {
        Some(video_id) => CanonicalizedYoutubeDescriptor::new(FetchType::Video, video_id, folder),
        None => CanonicalizedYoutubeDescriptor::new(kind, id, folder),
    }
}

/// Where the canonicalization of a descriptor stands.
#[derive(Debug, PartialEq, Eq)]
pub enum Canonicalization {
    /// The page of `descriptor` must be fetched and handed over. `video` is
    /// the video on whose behalf a channel is being resolved.
    Fetch { descriptor: YoutubeDescriptor, video: Option<String> },
    /// The canonical descriptor is known.
    Done(CanonicalizedYoutubeDescriptor),
}

/// A canonicalization with its texts as character sequences.
pub ghost enum CanonicalizationView {
    Fetch { descriptor: DescriptorView, video: Option<Seq<char>> },
    Done(CanonicalView),
}

impl View for Canonicalization {
    type V = CanonicalizationView;

    open spec fn view(&self) -> CanonicalizationView {
        match self {
            Canonicalization::Fetch { descriptor, video } => CanonicalizationView::Fetch {
                descriptor: descriptor@,
                video: opt_chars(*video),
            },
            Canonicalization::Done(c) => CanonicalizationView::Done(c@),
        }
    }
}

/// The outcome of a step with its texts as character sequences.
pub open spec fn step_view(r: Result<Canonicalization, Error>) -> Result<
    CanonicalizationView,
    ErrorView,
> {
    match r {
        Ok(s) => Ok(s@),
        Err(e) => Err(e@),
    }
}

/// How canonicalization starts. A playlist needs no page: it is its own
/// identity and folder, provided its identifier is a valid folder name. Every
/// other descriptor first asks for its page.
pub open spec fn first_step(d: DescriptorView) -> Result<CanonicalizationView, ErrorView> {
    if d.kind == FetchType::Playlist {
        if is_identifier(d.id) {
            Ok(
                CanonicalizationView::Done(
                    CanonicalView { id: d.id, folder: d.id, kind: FetchType::Playlist },
                ),
            )
        } else {
            Err(ErrorView::InvalidTaskName { task: d.id })
        }
    } else {
        Ok(CanonicalizationView::Fetch { descriptor: d, video: None })
    }
}

/// How canonicalization goes on once the wanted page has come. The page of a
/// video names its channel, whose page is wanted next; the page of a channel
/// or a user resolves the identity.
pub open spec fn next_step(state: CanonicalizationView, page: Seq<char>) -> Result<
    CanonicalizationView,
    ErrorView,
> {
    match state {
        CanonicalizationView::Done(c) => Ok(CanonicalizationView::Done(c)),
        CanonicalizationView::Fetch { descriptor, video } => match descriptor.kind {
            FetchType::Playlist => first_step(descriptor),
            FetchType::Video => match page_channel_id(page) {
                Some(channel) => Ok(
                    CanonicalizationView::Fetch {
                        descriptor: DescriptorView { kind: FetchType::Channel, id: channel },
                        video: Some(descriptor.id),
                    },
                ),
                None => Err(ErrorView::CouldNotGetChannelIdentifier),
            },
            _ => match resolution(page_username(page), page_channel_id(page), video) {
                Ok(c) => Ok(CanonicalizationView::Done(c)),
                Err(e) => Err(e),
            },
        },
    }
}

impl YoutubeDescriptor {
    /// A descriptor that refers to the same resource.
    pub fn duplicate(&self) -> (d: YoutubeDescriptor)
        ensures
            d@ == self@,
    {
        match self {
            YoutubeDescriptor::User(id) => YoutubeDescriptor::User(id.clone()),
            YoutubeDescriptor::Channel(id) => YoutubeDescriptor::Channel(id.clone()),
            YoutubeDescriptor::Playlist(id) => YoutubeDescriptor::Playlist(id.clone()),
            YoutubeDescriptor::Video(id) => YoutubeDescriptor::Video(id.clone()),
        }
    }

    /// Starts the canonicalization of this descriptor. Whatever it ends in
    /// has a valid folder name.
    pub fn canonicalize(&self) -> (r: Result<Canonicalization, Error>)
        ensures
            step_view(r) == first_step(self@),
    {
        match self {
            YoutubeDescriptor::Playlist(id) => {
                match CanonicalizedYoutubeDescriptor::new(
                    FetchType::Playlist,
                    id.clone(),
                    id.clone(),
                ) {
                    Ok(c) => Ok(Canonicalization::Done(c)),
                    Err(e) => Err(e),
                }
            },
            _ => Ok(Canonicalization::Fetch { descriptor: self.duplicate(), video: None }),
        }
    }
}

impl Canonicalization {
    /// The address of the page that must be fetched next, if any.
    pub fn wanted_url(&self) -> (url: Option<String>)
        ensures
            opt_chars(url) == match self@ {
                CanonicalizationView::Fetch { descriptor, video } => Some(descriptor.url()),
                CanonicalizationView::Done(c) => None,
            },
    {
        match self {
            Canonicalization::Fetch { descriptor, video } => Some(descriptor.to_url()),
            Canonicalization::Done(_) => None,
        }
    }

    /// Goes on with the contents of the page that was wanted. A canonical
    /// descriptor that comes out has a valid folder name.
    pub fn page_fetched(self, page_contents: &str) -> (r: Result<Canonicalization, Error>)
        ensures
            step_view(r) == next_step(self@, page_contents@),
            match r {
                Ok(Canonicalization::Done(c)) => is_identifier(c@.folder),
                _ => true,
            },
    {
        match self {
            Canonicalization::Done(c) => {
                proof {
                    use_type_invariant(&c);
                }
                Ok(Canonicalization::Done(c))
            },
            Canonicalization::Fetch { descriptor, video } => match descriptor {
                YoutubeDescriptor::Playlist(_) => {
                    descriptor.canonicalize()
                },
                YoutubeDescriptor::Video(id) => {
                    match extract_channel_id(page_contents) {
                        Ok(channel) => Ok(
                            Canonicalization::Fetch {
                                descriptor: YoutubeDescriptor::Channel(channel),
                                video: Some(id),
                            },
                        ),
                        Err(e) => Err(e),
                    }
                },
                _ => {
                    let username = extract_username(page_contents);
                    let channel = match username {
                        Some(_) => None,
                        None => first_channel_id(page_contents),
                    };
                    match resolve(username, channel, video) {
                        Ok(c) => Ok(Canonicalization::Done(c)),
                        Err(e) => Err(e),
                    }
                },
            },
        }
    }
}

/// The channel identifier in a page's markup, if it has one.
pub fn first_channel_id(page_contents: &str) -> (r: Option<String>)
    ensures
        opt_chars(r) == page_channel_id(page_contents@),
{
    match extract_channel_id(page_contents) {
        Ok(id) => Some(id),
        Err(_) => None,
    }
}

/// Every address that classification accepts starts its canonicalization
/// without an error: a playlist is resolved at once, with its identifier as
/// a valid folder name, and every other kind asks for its page.
pub proof fn lemma_classified_address_starts(url: Seq<char>)
    requires
        classify(url) is Some,
    ensures
        first_step(classify(url)->0) is Ok,
        first_step(classify(url)->0) matches Ok(CanonicalizationView::Done(c)) ==> is_identifier(
            c.folder,
        ),
{
    lemma_classified_id_is_identifier(url);
}

/// Whatever page is fetched, a canonicalization that ends on it ends in a
/// valid folder name.
pub proof fn lemma_resolved_folder_is_identifier(state: CanonicalizationView, page: Seq<char>)
    requires
        state is Fetch,
        next_step(state, page) matches Ok(CanonicalizationView::Done(_)),
    ensures
        next_step(state, page) matches Ok(CanonicalizationView::Done(c)) && is_identifier(c.folder),
{
}

} // verus!
