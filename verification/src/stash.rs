//! What is already stored for a folder: picking the videos out of a file
//! listing and reporting on them.

use vstd::prelude::*;
use crate::canonical::{assert_valid_task_name, CanonicalizedYoutubeDescriptor};
use crate::descriptor::FetchType;
use crate::error::{labelled, Error, ErrorView};
use crate::shapes::is_identifier;
use crate::text::{
    decimal_text, has_at, line_seq, push_decimal, split_lines, texts, to_chars,
};

verus! {

/// The text that `{:?}` formatting gives for a string: the string between
/// double quotes, with the characters that need it escaped.
pub uninterp spec fn debug_text(s: Seq<char>) -> Seq<char>;

/// Formats a string with the `{:?}` formatting of the standard library. The
/// escaping is not spelled out: the contract gives the result its name.
#[verifier::external_body]
pub(crate) fn debug_quoted(s: &str) -> (r: String)
    ensures
        r@ == debug_text(s@),
{
    format!("{:?}", s)
}

/// The extension of `name` is `ext`: the name ends in a dot and `ext`. (For
/// an `ext` without a dot, that is the text after the last dot of the name; a
/// name without a dot has no extension.)
pub open spec fn has_extension(name: Seq<char>, ext: Seq<char>) -> bool {
    &&& name.len() > ext.len()
    &&& name[name.len() - ext.len() - 1] == '.'
    &&& name.subrange(name.len() - ext.len(), name.len() as int) == ext
}

/// `name` has the extension of a video container.
pub open spec fn is_video_name(name: Seq<char>) -> bool {
    ||| has_extension(name, "mp4"@)
    ||| has_extension(name, "webm"@)
    ||| has_extension(name, "flv"@)
    ||| has_extension(name, "mkv"@)
    ||| has_extension(name, "video"@)
}

/// The video files of a listing, in the order of the listing.
pub open spec fn videos_in(listing: Seq<Seq<char>>) -> Seq<Seq<char>> {
    listing.filter(|name: Seq<char>| is_video_name(name))
}

/// Where the logs of a folder can be read.
pub open spec fn logs_address(folder: Seq<char>) -> Seq<char> {
    "https://ya.borg.xyz/logs/dl/"@ + folder + "/"@
}

/// The items, each as `{:?}` formats it, with a comma and a space between
/// them.
pub open spec fn joined(items: Seq<Seq<char>>) -> Seq<char>
    decreases items.len(),
{
    if items.len() == 0 {
        Seq::<char>::empty()
    } else if items.len() == 1 {
        debug_text(items[0])
    } else {
        joined(items.drop_last()) + ", "@ + debug_text(items.last())
    }
}

/// The first four items, or all where there are fewer.
pub open spec fn latest(videos: Seq<Seq<char>>) -> Seq<Seq<char>> {
    if videos.len() > 4 {
        videos.subrange(0, 4)
    } else {
        videos
    }
}

/// The report on the videos stored for a folder: how many there are, where
/// its logs are, and the latest four.
pub open spec fn stash_report(folder: Seq<char>, listing: Seq<Seq<char>>) -> Seq<char> {
    let videos = videos_in(listing);
    "stash has "@ + decimal_text(videos.len()) + " videos for "@ + folder + " ("@ + logs_address(
        folder,
    ) + "); latest ["@ + joined(latest(videos)) + "]"@
}

/// What a stash check on `folder` answers, given how the listing of its files
/// went: an invalid name is refused before anything else, a failed listing is
/// an error that names the folder, a listing yields its report.
pub open spec fn folder_check(folder: Seq<char>, listing: Option<Seq<Seq<char>>>) -> Result<
    Seq<char>,
    ErrorView,
> {
    if !is_identifier(folder) {
        Err(ErrorView::InvalidTaskName { task: folder })
    } else if listing is None {
        Err(ErrorView::ErrorListingFiles { folder })
    } else {
        Ok(stash_report(folder, listing->0))
    }
}

/// Where the logs of a folder can be read.
pub fn logs_url(folder: &str) -> (url: String)
    ensures
        url@ == logs_address(folder@),
{
    let mut url = labelled("https://ya.borg.xyz/logs/dl/", folder);
    url.append("/");
    url
}

/// Whether `name` ends in a dot and `ext`.
fn ends_with_extension(name: &Vec<char>, ext: &str) -> (b: bool)
    ensures
        b == has_extension(name@, ext@),
{
    let n: usize = ext.unicode_len();
    let len: usize = name.len();
    len > n && name[len - n - 1] == '.' && has_at(name, len - n, ext)
}

/// Whether a file name has the extension of a video container.
pub fn is_video(name: &str) -> (b: bool)
    ensures
        b == is_video_name(name@),
{
    let chars = to_chars(name);
    ends_with_extension(&chars, "mp4") || ends_with_extension(&chars, "webm")
        || ends_with_extension(&chars, "flv") || ends_with_extension(&chars, "mkv")
        || ends_with_extension(&chars, "video")
}

/// The file names of a listing that gives one on each line.
pub fn get_file_listing(listing: &str) -> (files: Vec<String>)
    ensures
        texts(files@) == line_seq(listing@),
{
    let chars = to_chars(listing);
    proof {
        assert(chars@.subrange(0, chars@.len() as int) =~= chars@);
    }
    split_lines(&chars, 0, chars.len())
}

/// The video files of a listing, in the order of the listing.
pub fn filter_videos(listing: &Vec<String>) -> (videos: Vec<String>)
    ensures
        texts(videos@) == videos_in(texts(listing@)),
{
    let ghost pred = |name: Seq<char>| is_video_name(name);
    let mut videos: Vec<String> = Vec::new();
    let mut i: usize = 0;
    proof {
        reveal(Seq::filter);
        assert(texts(listing@).subrange(0, 0) =~= Seq::<Seq<char>>::empty());
        assert(texts(videos@) =~= Seq::<Seq<char>>::empty());
    }
    while i < listing.len()
        invariant
            i <= listing.len(),
            pred == (|name: Seq<char>| is_video_name(name)),
            texts(videos@) == texts(listing@).subrange(0, i as int).filter(pred),
        decreases listing.len() - i,
    {
        let ghost before = videos@;
        let ghost done = texts(listing@).subrange(0, i as int);
        proof {
            assert(texts(listing@).subrange(0, i + 1) =~= done.push(listing@[i as int]@));
            done.lemma_filter_push(listing@[i as int]@, pred);
        }
        if is_video(listing[i].as_str()) {
            videos.push(listing[i].clone());
            proof {
                assert(texts(videos@) =~= texts(before).push(listing@[i as int]@));
            }
        }
        i += 1;
    }
    proof {
        assert(texts(listing@).subrange(0, i as int) =~= texts(listing@));
    }
    videos
}

/// Appends the first `count` items to `out`, each as `{:?}` formats it, with
/// a comma and a space between them.
fn push_joined(out: &mut String, items: &Vec<String>, count: usize)
    requires
        count <= items@.len(),
    ensures
        final(out)@ == old(out)@ + joined(texts(items@).subrange(0, count as int)),
{
    let mut i: usize = 0;
    proof {
        assert(old(out)@ + joined(texts(items@).subrange(0, 0)) =~= old(out)@);
    }
    while i < count
        invariant
            i <= count <= items@.len(),
            out@ == old(out)@ + joined(texts(items@).subrange(0, i as int)),
        decreases count - i,
    {
        let ghost done = texts(items@).subrange(0, i as int);
        let ghost next = texts(items@).subrange(0, i + 1);
        proof {
            assert(next.drop_last() =~= done);
            assert(next.last() == items@[i as int]@);
        }
        if i > 0 {
            out.append(", ");
        }
        let quoted = debug_quoted(items[i].as_str());
        out.append(quoted.as_str());
        proof {
            assert(out@ =~= old(out)@ + joined(next));
        }
        i += 1;
    }
}

/// Reports on the videos stored for `folder`, given how the listing of its
/// files went.
pub fn check_folder(folder: &str, listing: Result<Vec<String>, Error>) -> (r: Result<String, Error>)
    ensures
        match r {
            Ok(reply) => Ok::<Seq<char>, ErrorView>(reply@),
            Err(e) => Err(e@),
        } == folder_check(
            folder@,
            match listing {
                Ok(files) => Some(texts(files@)),
                Err(_) => None,
            },
        ),
{
    match assert_valid_task_name(folder) {
        Err(e) => { return Err(e); },
        Ok(()) => {},
    }
    let files = match listing {
        Err(_) => { return Err(Error::ErrorListingFiles { folder: String::from_str(folder) }); },
        Ok(files) => files,
    };
    let videos = filter_videos(&files);
    let shown: usize = if videos.len() > 4 {
        4
    } else {
        videos.len()
    };
    proof {
        assert(texts(videos@).subrange(0, shown as int) =~= latest(texts(videos@)));
    }
    let mut reply = String::from_str("stash has ");
    push_decimal(&mut reply, videos.len() as u64);
    reply.append(" videos for ");
    reply.append(folder);
    reply.append(" (");
    let logs = logs_url(folder);
    reply.append(logs.as_str());
    reply.append("); latest [");
    push_joined(&mut reply, &videos, shown);
    reply.append("]");
    Ok(reply)
}

/// What a stash check on a canonical descriptor answers before any file is
/// listed: nothing yet for a resource with a folder of its own, a refusal for
/// a single video.
pub fn check_stash(descriptor: &CanonicalizedYoutubeDescriptor) -> (r: Result<String, Error>)
    ensures
        match r {
            Ok(folder) => descriptor@.kind != FetchType::Video && folder@ == descriptor@.folder
                && is_identifier(folder@),
            Err(e) => descriptor@.kind == FetchType::Video && e@ == (ErrorView::NotImplemented {
                what: "/s on /watch? URL"@,
            }),
        },
{
    match descriptor.kind() {
        FetchType::Video => Err(
            Error::NotImplemented { what: String::from_str("/s on /watch? URL") },
        ),
        _ => Ok(descriptor.folder()),
    }
}

} // verus!
