//! References to video-site resources: classification of an address into a
//! descriptor, and the canonical form that storage goes by.

use vstd::prelude::*;
use crate::error::{labelled, Error, ErrorView};
use crate::normalize::{
    begins_nowhere_at, differs_at, fix_youtube_url, is_one_line, lemma_normalize_after,
    lemma_normalize_keeps_one_line, normalize, shuts_out_rewriting,
};
use crate::shapes::{
    handle_capture, handle_id, handle_match, id_at, is_alnum, is_identifier,
    is_last_query_match, is_path_tail, is_word_char, lemma_path_tail_is_ignored, path_capture,
    path_id, query_capture, query_id, query_match_at, IdShape,
};
use crate::text::{has_at, occurs_at, to_chars};

verus! {

/// What a descriptor refers to.
#[derive(Debug, Clone, Copy, PartialEq, Eq, Structural)]
pub enum FetchType {
    User,
    Channel,
    Playlist,
    Video,
}

/// A reference to a resource as its address spelled it, before its identity
/// has been looked up.
#[derive(Debug, Clone, PartialEq, Eq)]
pub enum YoutubeDescriptor {
    User(String),
    Channel(String),
    Playlist(String),
    Video(String),
}

/// A descriptor as a kind and the characters of its identifier.
pub ghost struct DescriptorView {
    pub kind: FetchType,
    pub id: Seq<char>,
}

impl DescriptorView {
    /// The address under which the resource is fetched.
    pub open spec fn url(self) -> Seq<char> {
        match self.kind {
            FetchType::User => "https://www.youtube.com/user/"@ + self.id + "/videos"@,
            FetchType::Channel => "https://www.youtube.com/channel/"@ + self.id + "/videos"@,
            FetchType::Playlist => "https://www.youtube.com/playlist?list="@ + self.id,
            FetchType::Video => "https://www.youtube.com/watch?v="@ + self.id,
        }
    }
}

impl View for YoutubeDescriptor {
    type V = DescriptorView;

    open spec fn view(&self) -> DescriptorView {
        match self {
            YoutubeDescriptor::User(id) => DescriptorView { kind: FetchType::User, id: id@ },
            YoutubeDescriptor::Channel(id) => DescriptorView {
                kind: FetchType::Channel,
                id: id@,
            },
            YoutubeDescriptor::Playlist(id) => DescriptorView {
                kind: FetchType::Playlist,
                id: id@,
            },
            YoutubeDescriptor::Video(id) => DescriptorView { kind: FetchType::Video, id: id@ },
        }
    }
}

/// What a normalized address refers to. The shapes are tried in a fixed
/// order: a video, a playlist with a legacy identifier, a playlist, a channel,
/// a user.
pub open spec fn classify_normalized(s: Seq<char>) -> Option<DescriptorView> {
    let video = query_capture(s, "https://www.youtube.com/watch"@, "v="@, IdShape::Video);
    let legacy = query_capture(
        s,
        "https://www.youtube.com/playlist"@,
        "list="@,
        IdShape::LegacyPlaylist,
    );
    let playlist = query_capture(
        s,
        "https://www.youtube.com/playlist"@,
        "list="@,
        IdShape::Playlist,
    );
    let channel = path_capture(s, "https://www.youtube.com/channel/"@, IdShape::Channel);
    let user = handle_capture(s, "https://www.youtube.com/user/"@);
    if !occurs_at(s, "https://www.youtube.com/"@, 0) {
        None
    } else if video is Some {
        Some(DescriptorView { kind: FetchType::Video, id: video->0 })
    } else if legacy is Some {
        Some(DescriptorView { kind: FetchType::Playlist, id: legacy->0 })
    } else if playlist is Some {
        Some(DescriptorView { kind: FetchType::Playlist, id: playlist->0 })
    } else if channel is Some {
        Some(DescriptorView { kind: FetchType::Channel, id: channel->0 })
    } else if user is Some {
        Some(DescriptorView { kind: FetchType::User, id: user->0 })
    } else {
        None
    }
}

/// What an address refers to, if it has one of the supported shapes once
/// normalized.
pub open spec fn classify(url: Seq<char>) -> Option<DescriptorView> {
    classify_normalized(normalize(url))
}

/// An identifier that a query shape captures is made of word characters.
pub proof fn lemma_query_capture_is_identifier(
    s: Seq<char>,
    prefix: Seq<char>,
    key: Seq<char>,
    shape: IdShape,
)
    requires
        query_capture(s, prefix, key, shape) is Some,
    ensures
        is_identifier(query_capture(s, prefix, key, shape)->0),
{
    let witness = choose|p: int| query_match_at(s, prefix, key, shape, p);
    lemma_last_query_match_exists(s, prefix, key, shape, witness);
    let p = choose|p: int| is_last_query_match(s, prefix, key, shape, p);
    lemma_id_is_identifier(s, shape, p + 1 + key.len());
}

/// Where a query shape matches at all, it has a rightmost match.
pub proof fn lemma_last_query_match_exists(
    s: Seq<char>,
    prefix: Seq<char>,
    key: Seq<char>,
    shape: IdShape,
    p: int,
)
    requires
        query_match_at(s, prefix, key, shape, p),
    ensures
        exists|q: int| is_last_query_match(s, prefix, key, shape, q),
    decreases s.len() - p,
{
    if exists|q: int| p < q && query_match_at(s, prefix, key, shape, q) {
        let q = choose|q: int| p < q && query_match_at(s, prefix, key, shape, q);
        lemma_last_query_match_exists(s, prefix, key, shape, q);
    } else {
        assert(is_last_query_match(s, prefix, key, shape, p));
    }
}

/// An identifier of a fixed form is made of word characters.
pub proof fn lemma_id_is_identifier(s: Seq<char>, shape: IdShape, at: int)
    requires
        id_at(s, shape, at),
    ensures
        is_identifier(s.subrange(at, at + shape.len())),
{
    let id = s.subrange(at, at + shape.len());
    let mark = shape.mark();
    assert forall|i: int| 0 <= i < id.len() implies is_word_char(#[trigger] id[i]) by {
        if i < mark.len() {
            assert(s.subrange(at, at + mark.len())[i] == mark[i]);
        } else {
            assert(shape.accepts(s[at + i]));
        }
    }
}

/// Every identifier that classification yields is made of word characters.
pub proof fn lemma_classified_id_is_identifier(url: Seq<char>)
    requires
        classify(url) is Some,
    ensures
        is_identifier(classify(url)->0.id),
{
    let s = normalize(url);
    let watch = "https://www.youtube.com/watch"@;
    let list = "https://www.youtube.com/playlist"@;
    if query_capture(s, watch, "v="@, IdShape::Video) is Some {
        lemma_query_capture_is_identifier(s, watch, "v="@, IdShape::Video);
    } else if query_capture(s, list, "list="@, IdShape::LegacyPlaylist) is Some {
        lemma_query_capture_is_identifier(s, list, "list="@, IdShape::LegacyPlaylist);
    } else if query_capture(s, list, "list="@, IdShape::Playlist) is Some {
        lemma_query_capture_is_identifier(s, list, "list="@, IdShape::Playlist);
    } else if path_capture(s, "https://www.youtube.com/channel/"@, IdShape::Channel) is Some {
        lemma_id_is_identifier(
            s,
            IdShape::Channel,
            "https://www.youtube.com/channel/"@.len() as int,
        );
    } else {
        let prefix = "https://www.youtube.com/user/"@;
        let n = choose|n: int| handle_match(s, prefix, n);
        let id = s.subrange(prefix.len() as int, prefix.len() + n);
        assert forall|i: int| 0 <= i < id.len() implies is_word_char(#[trigger] id[i]) by {
            assert(is_alnum(s[prefix.len() + i]));
        }
    }
}

/// An address has the path of one kind of resource at most: where the shape
/// of one kind matches, the shapes of the other kinds do not, so that the
/// order of the trials matters between the two forms of a playlist alone.
pub proof fn lemma_kinds_exclude_each_other(s: Seq<char>)
    ensures
        ({
            let video = query_capture(s, "https://www.youtube.com/watch"@, "v="@, IdShape::Video)
                is Some;
            let legacy = query_capture(
                s,
                "https://www.youtube.com/playlist"@,
                "list="@,
                IdShape::LegacyPlaylist,
            ) is Some;
            let playlist = query_capture(
                s,
                "https://www.youtube.com/playlist"@,
                "list="@,
                IdShape::Playlist,
            ) is Some;
            let channel = path_capture(s, "https://www.youtube.com/channel/"@, IdShape::Channel)
                is Some;
            let user = handle_capture(s, "https://www.youtube.com/user/"@) is Some;
            &&& video ==> !legacy && !playlist && !channel && !user
            &&& (legacy || playlist) ==> !channel && !user
            &&& channel ==> !user
        }),
{
    reveal_strlit("https://www.youtube.com/watch");
    reveal_strlit("https://www.youtube.com/playlist");
    reveal_strlit("https://www.youtube.com/channel/");
    reveal_strlit("https://www.youtube.com/user/");
    let watch = "https://www.youtube.com/watch"@;
    let list = "https://www.youtube.com/playlist"@;
    let channel = "https://www.youtube.com/channel/"@;
    let user = "https://www.youtube.com/user/"@;
    if occurs_at(s, watch, 0) {
        assert(s.subrange(0, watch.len() as int)[24] == 'w');
    }
    if occurs_at(s, list, 0) {
        assert(s.subrange(0, list.len() as int)[24] == 'p');
    }
    if occurs_at(s, channel, 0) {
        assert(s.subrange(0, channel.len() as int)[24] == 'c');
    }
    if occurs_at(s, user, 0) {
        assert(s.subrange(0, user.len() as int)[24] == 'u');
    }
    if query_capture(s, watch, "v="@, IdShape::Video) is Some {
        let p = choose|p: int| query_match_at(s, watch, "v="@, IdShape::Video, p);
        assert(occurs_at(s, watch, 0));
    }
    if query_capture(s, list, "list="@, IdShape::LegacyPlaylist) is Some {
        let p = choose|p: int| query_match_at(s, list, "list="@, IdShape::LegacyPlaylist, p);
        assert(occurs_at(s, list, 0));
    }
    if query_capture(s, list, "list="@, IdShape::Playlist) is Some {
        let p = choose|p: int| query_match_at(s, list, "list="@, IdShape::Playlist, p);
        assert(occurs_at(s, list, 0));
    }
    if handle_capture(s, user) is Some {
        let n = choose|n: int| handle_match(s, user, n);
        assert(occurs_at(s, user, 0));
    }
}

/// The address of the videos of the channel `id`.
pub open spec fn channel_videos_address(id: Seq<char>) -> Seq<char> {
    "https://www.youtube.com/channel/"@ + id + "/videos"@
}

/// No rewritable spelling begins in the address of a channel's videos,
/// whatever may follow it.
pub proof fn lemma_channel_address_shuts_out(id: Seq<char>)
    requires
        id_at(id, IdShape::Channel, 0),
        id.len() == IdShape::Channel.len(),
    ensures
        shuts_out_rewriting(channel_videos_address(id)),
{
    reveal_strlit("https://www.youtube.com/channel/");
    reveal_strlit("/videos");
    reveal_strlit("http://");
    reveal_strlit("https://m.youtube.com/");
    reveal_strlit("https://youtube.com/");
    reveal_strlit("https://youtu.be/");
    reveal_strlit("?disable_polymer=1");
    reveal_strlit("&disable_polymer=1");
    let a = "https://www.youtube.com/channel/"@;
    let b = "/videos"@;
    let p = channel_videos_address(id);
    assert(p.len() == 63);
    assert forall|j: int| 0 <= j < 63 implies (#[trigger] p[j]) != '?' && p[j] != '&' && (p[j]
        == ':' ==> j == 5) && (p[j] == 'h' ==> j == 0 || j == 25 || 32 <= j < 56) by {
        if j < 32 {
            assert(p[j] == a[j]);
        } else if j < 56 {
            assert(p[j] == id[j - 32]);
            if j - 32 < 2 {
                assert(id.subrange(0, 2)[j - 32] == id[j - 32]);
            } else {
                assert(is_word_char(id[j - 32]));
            }
        } else {
            assert(p[j] == b[j - 56]);
        }
    }
    assert(p[8] == 'w');
    assert forall|i: int| 0 <= i < p.len() implies #[trigger] begins_nowhere_at(
        p,
        "http://"@,
        i,
    ) by {
        if i != 1 && i + 4 < 63 {
            assert(differs_at(p, "http://"@, i, 4));
        } else {
            assert(differs_at(p, "http://"@, i, 0));
        }
    }
    assert forall|i: int| 0 <= i < p.len() implies #[trigger] begins_nowhere_at(
        p,
        "https://m.youtube.com/"@,
        i,
    ) by {
        if i == 0 {
            assert(differs_at(p, "https://m.youtube.com/"@, i, 8));
        } else if i + 5 < 63 {
            assert(differs_at(p, "https://m.youtube.com/"@, i, 5));
        } else {
            assert(differs_at(p, "https://m.youtube.com/"@, i, 0));
        }
    }
    assert forall|i: int| 0 <= i < p.len() implies #[trigger] begins_nowhere_at(
        p,
        "https://youtube.com/"@,
        i,
    ) by {
        if i == 0 {
            assert(differs_at(p, "https://youtube.com/"@, i, 8));
        } else if i + 5 < 63 {
            assert(differs_at(p, "https://youtube.com/"@, i, 5));
        } else {
            assert(differs_at(p, "https://youtube.com/"@, i, 0));
        }
    }
    assert forall|i: int| 0 <= i < p.len() implies #[trigger] begins_nowhere_at(
        p,
        "https://youtu.be/"@,
        i,
    ) by {
        if i == 0 {
            assert(differs_at(p, "https://youtu.be/"@, i, 8));
        } else if i + 5 < 63 {
            assert(differs_at(p, "https://youtu.be/"@, i, 5));
        } else {
            assert(differs_at(p, "https://youtu.be/"@, i, 0));
        }
    }
    assert forall|i: int| 0 <= i < p.len() implies #[trigger] begins_nowhere_at(
        p,
        "?disable_polymer=1"@,
        i,
    ) by {
        assert(differs_at(p, "?disable_polymer=1"@, i, 0));
    }
    assert forall|i: int| 0 <= i < p.len() implies #[trigger] begins_nowhere_at(
        p,
        "&disable_polymer=1"@,
        i,
    ) by {
        assert(differs_at(p, "&disable_polymer=1"@, i, 0));
    }
}

/// What follows the address of a channel's videos on the same line does not
/// affect its classification, whatever normalization makes of it: the
/// address refers to the channel, as it does with nothing after it.
pub proof fn lemma_channel_suffix_is_ignored(id: Seq<char>, suffix: Seq<char>)
    requires
        id_at(id, IdShape::Channel, 0),
        id.len() == IdShape::Channel.len(),
        is_one_line(suffix),
    ensures
        classify(channel_videos_address(id) + suffix) == Some(
            DescriptorView { kind: FetchType::Channel, id },
        ),
        classify(channel_videos_address(id) + suffix) == classify(channel_videos_address(id)),
{
    lemma_channel_address_classified(id, suffix);
    lemma_channel_address_classified(id, Seq::<char>::empty());
    assert(channel_videos_address(id) + Seq::<char>::empty() =~= channel_videos_address(id));
}

/// The address of a channel's videos, with anything after it on the same
/// line, refers to the channel.
pub proof fn lemma_channel_address_classified(id: Seq<char>, suffix: Seq<char>)
    requires
        id_at(id, IdShape::Channel, 0),
        id.len() == IdShape::Channel.len(),
        is_one_line(suffix),
    ensures
        classify(channel_videos_address(id) + suffix) == Some(
            DescriptorView { kind: FetchType::Channel, id },
        ),
{
    let a = "https://www.youtube.com/channel/"@;
    let b = "/videos"@;
    let p = channel_videos_address(id);
    lemma_channel_address_shuts_out(id);
    lemma_normalize_after(p, suffix);
    lemma_normalize_keeps_one_line(suffix);
    let rest = normalize(suffix);
    let tail = b + rest;
    let s = normalize(p + suffix);
    assert(s =~= a + id + tail);
    reveal_strlit("/videos");
    reveal_strlit("https://www.youtube.com/channel/");
    reveal_strlit("https://www.youtube.com/");
    assert(is_path_tail(tail)) by {
        assert(tail[0] == '/');
        assert forall|i: int| 0 <= i < tail.len() && 1 <= i < tail.len() implies #[trigger] tail[i]
            != '\n' by {
            if i < b.len() {
                assert(tail[i] == b[i]);
            } else {
                assert(tail[i] == rest[i - b.len()]);
            }
        }
    }
    lemma_path_tail_is_ignored(a, id, IdShape::Channel, tail);
    lemma_kinds_exclude_each_other(s);
    assert(occurs_at(s, "https://www.youtube.com/"@, 0)) by {
        assert(s.subrange(0, 24) =~= "https://www.youtube.com/"@);
    }
}

impl YoutubeDescriptor {
    /// Classifies an address: normalizes it, then tries the supported shapes
    /// in order. An address of no supported shape is refused, and the error
    /// quotes it in its normalized form.
    pub fn from_url(url: &str) -> (r: Result<YoutubeDescriptor, Error>)
        ensures
            match r {
                Ok(d) => classify(url@) == Some(d@),
                Err(e) => classify(url@) is None && e@ == (ErrorView::UnsupportedUrl {
                    url: normalize(url@),
                }),
            },
    {
        let fixed = fix_youtube_url(url);
        let s = to_chars(fixed.as_str());
        if !has_at(&s, 0, "https://www.youtube.com/") {
            return Err(Error::UnsupportedUrl { url: fixed });
        }
        if let Some(id) = query_id(&s, "https://www.youtube.com/watch", "v=", IdShape::Video) {
            return Ok(YoutubeDescriptor::Video(id));
        }
        if let Some(id) = query_id(
            &s,
            "https://www.youtube.com/playlist",
            "list=",
            IdShape::LegacyPlaylist,
        ) {
            return Ok(YoutubeDescriptor::Playlist(id));
        }
        if let Some(id) = query_id(
            &s,
            "https://www.youtube.com/playlist",
            "list=",
            IdShape::Playlist,
        ) {
            return Ok(YoutubeDescriptor::Playlist(id));
        }
        if let Some(id) = path_id(&s, "https://www.youtube.com/channel/", IdShape::Channel) {
            return Ok(YoutubeDescriptor::Channel(id));
        }
        if let Some(id) = handle_id(&s, "https://www.youtube.com/user/") {
            return Ok(YoutubeDescriptor::User(id));
        }
        Err(Error::UnsupportedUrl { url: fixed })
    }

    /// The address under which the resource is fetched.
    pub fn to_url(&self) -> (url: String)
        ensures
            url@ == self@.url(),
    {
        match self {
            YoutubeDescriptor::User(id) => {
                let mut url = labelled("https://www.youtube.com/user/", id.as_str());
                url.append("/videos");
                url
            },
            YoutubeDescriptor::Channel(id) => {
                let mut url = labelled("https://www.youtube.com/channel/", id.as_str());
                url.append("/videos");
                url
            },
            YoutubeDescriptor::Playlist(id) => labelled(
                "https://www.youtube.com/playlist?list=",
                id.as_str(),
            ),
            YoutubeDescriptor::Video(id) => labelled(
                "https://www.youtube.com/watch?v=",
                id.as_str(),
            ),
        }
    }
}

} // verus!
