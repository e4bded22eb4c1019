//! Running tasks: reading the listing of sessions, and deciding whether one
//! more task may start.

use vstd::prelude::*;
use crate::config::Conf;
use crate::error::{Error, ErrorView};
use crate::text::{
    after_first_line, find_char, first_index, first_line, from_chars, has_at, lemma_first_index,
    occurs_at, parse_u64, parsed_u64, same_text, to_chars,
};

verus! {

/// A task that is running, named by the folder it works on.
#[derive(Debug, PartialEq, Eq)]
pub struct DownloaderSession {
    /// The folder, which is the session's name without its prefix.
    pub identifier: String,
    /// When the session started, in seconds since the epoch.
    pub start_time: u64,
}

/// A session with its name as a character sequence.
pub ghost struct SessionView {
    pub identifier: Seq<char>,
    pub start_time: u64,
}

impl View for DownloaderSession {
    type V = SessionView;

    open spec fn view(&self) -> SessionView {
        SessionView { identifier: self.identifier@, start_time: self.start_time }
    }
}

/// The sessions of a vector, each as its view.
pub open spec fn session_views(sessions: Seq<DownloaderSession>) -> Seq<SessionView> {
    sessions.map_values(|s: DownloaderSession| s@)
}

/// What one line of the listing says.
pub ghost enum LineView {
    /// No name, or a start time that is no number.
    Malformed,
    /// A session that is none of ours.
    Unrelated,
    /// One of our sessions.
    Session(SessionView),
}

/// What one line of the listing says. A line is a start time, a space and a
/// session name; our sessions are those whose name starts with `YouTube-`.
pub open spec fn line_session(line: Seq<char>) -> LineView {
    let space = first_index(line, ' ');
    if !(0 <= space < line.len()) {
        LineView::Malformed
    } else {
        let name = line.subrange(space + 1, line.len() as int);
        match parsed_u64(line.subrange(0, space)) {
            None => LineView::Malformed,
            Some(start_time) => if occurs_at(name, "YouTube-"@, 0) {
                LineView::Session(
                    SessionView {
                        identifier: name.subrange("YouTube-"@.len() as int, name.len() as int),
                        start_time,
                    },
                )
            } else {
                LineView::Unrelated
            },
        }
    }
}

/// Our sessions in a listing, in the order of its lines; `None` where a line
/// is malformed.
pub open spec fn listing_sessions(s: Seq<char>) -> Option<Seq<SessionView>>
    decreases s.len(),
{
    if s.len() == 0 {
        Some(Seq::<SessionView>::empty())
    } else {
        match (line_session(first_line(s)), listing_sessions(after_first_line(s))) {
            (LineView::Malformed, _) => None,
            (_, None) => None,
            (LineView::Unrelated, Some(rest)) => Some(rest),
            (LineView::Session(session), Some(rest)) => Some(seq![session] + rest),
        }
    }
}

/// What a line of the listing was read as.
pub enum ParsedLine {
    Malformed,
    Unrelated,
    Session(DownloaderSession),
}

impl View for ParsedLine {
    type V = LineView;

    open spec fn view(&self) -> LineView {
        match self {
            ParsedLine::Malformed => LineView::Malformed,
            ParsedLine::Unrelated => LineView::Unrelated,
            ParsedLine::Session(s) => LineView::Session(s@),
        }
    }
}

/// Reads the line `s[from..to]` of a listing.
pub fn parse_session_line(s: &Vec<char>, from: usize, to: usize) -> (r: ParsedLine)
    requires
        from <= to <= s@.len(),
    ensures
        r@ == line_session(s@.subrange(from as int, to as int)),
{
    let ghost line = s@.subrange(from as int, to as int);
    let space = find_char(s, ' ', from, to);
    proof {
        lemma_first_index(s@, ' ', from as int, to as int, space as int);
        reveal_strlit("YouTube-");
    }
    if space == to {
        return ParsedLine::Malformed;
    }
    proof {
        assert(line.subrange(0, space - from) =~= s@.subrange(from as int, space as int));
    }
    let start_time = match parse_u64(s, from, space) {
        None => { return ParsedLine::Malformed; },
        Some(t) => t,
    };
    let ghost name = line.subrange(space - from + 1, line.len() as int);
    proof {
        assert(name =~= s@.subrange(space + 1, to as int));
        if space + 1 + 8 <= to {
            assert(name.subrange(0, 8) =~= s@.subrange(space + 1, space + 1 + 8));
        }
    }
    if to - (space + 1) >= 8 && has_at(s, space + 1, "YouTube-") {
        let identifier = from_chars(s, space + 1 + 8, to);
        proof {
            assert(identifier@ =~= name.subrange(8, name.len() as int));
        }
        ParsedLine::Session(DownloaderSession { identifier, start_time })
    } else {
        ParsedLine::Unrelated
    }
}

/// Reads the listing of running sessions: one line for each session, with its
/// start time and its name. The sessions of other tools are left out; a
/// malformed line fails the whole listing.
pub fn get_downloader_sessions(listing: &str) -> (r: Result<Vec<DownloaderSession>, Error>)
    ensures
        match r {
            Ok(sessions) => listing_sessions(listing@) == Some(session_views(sessions@)),
            Err(e) => listing_sessions(listing@) is None && e@ == (ErrorView::Io {
                detail: "malformed session listing"@,
            }),
        },
{
    let s = to_chars(listing);
    let mut out: Vec<DownloaderSession> = Vec::new();
    let mut i: usize = 0;
    proof {
        assert(s@.subrange(0, s@.len() as int) =~= s@);
        assert(session_views(out@) =~= Seq::<SessionView>::empty());
        if listing_sessions(s@) is Some {
            assert(session_views(out@) + listing_sessions(s@)->0 =~= listing_sessions(s@)->0);
        }
    }
    while i < s.len()
        invariant
            i <= s.len(),
            s@ == listing@,
            match listing_sessions(s@.subrange(i as int, s@.len() as int)) {
                Some(rest) => listing_sessions(s@) == Some(session_views(out@) + rest),
                None => listing_sessions(s@) is None,
            },
        decreases s.len() - i,
    {
        let ghost tail = s@.subrange(i as int, s@.len() as int);
        let ghost before = out@;
        let end = find_char(&s, '\n', i, s.len());
        proof {
            lemma_first_index(s@, '\n', i as int, s@.len() as int, end as int);
        }
        let line_end: usize = if end < s.len() && end > i && s[end - 1] == '\r' {
            end - 1
        } else {
            end
        };
        let next: usize = if end < s.len() {
            end + 1
        } else {
            end
        };
        proof {
            assert(first_line(tail) =~= s@.subrange(i as int, line_end as int));
            assert(after_first_line(tail) =~= s@.subrange(next as int, s@.len() as int));
        }
        match parse_session_line(&s, i, line_end) {
            ParsedLine::Malformed => {
                return Err(Error::Io { detail: String::from_str("malformed session listing") });
            },
            ParsedLine::Unrelated => {},
            ParsedLine::Session(session) => {
                out.push(session);
                proof {
                    assert(session_views(out@) =~= session_views(before).push(session@));
                    let rest = listing_sessions(after_first_line(tail));
                    if rest is Some {
                        assert(session_views(out@) + rest->0 =~= session_views(before) + (
                        seq![session@] + rest->0));
                    }
                }
            },
        }
        i = next;
    }
    proof {
        assert(session_views(out@) + Seq::<SessionView>::empty() =~= session_views(out@));
    }
    Ok(out)
}

/// Whether a task may start.
#[derive(Debug, Clone, Copy, PartialEq, Eq, Structural)]
pub enum Admission {
    /// The task may start.
    Admitted,
    /// Another task already works on the folder.
    DuplicateFolder,
    /// As many tasks run as the user may have running.
    LimitReached { limit: usize },
}

/// Some session works on `folder`.
pub open spec fn folder_in_use(sessions: Seq<SessionView>, folder: Seq<char>) -> bool {
    exists|i: int| 0 <= i < sessions.len() && (#[trigger] sessions[i]).identifier == folder
}

/// Whether a task on `folder` may start beside `sessions` under `limit`: not
/// while another task works on the folder, whoever asks; else not while as
/// many sessions run as the limit allows.
pub open spec fn admission(folder: Seq<char>, limit: usize, sessions: Seq<SessionView>) -> Admission {
    if folder_in_use(sessions, folder) {
        Admission::DuplicateFolder
    } else if sessions.len() >= limit {
        Admission::LimitReached { limit }
    } else {
        Admission::Admitted
    }
}

/// Decides whether a task on `folder` may start for `user`, given the
/// sessions that run now: the limit is the user's own, or the general one.
pub fn try_admit(folder: &str, user: &str, sessions: &Vec<DownloaderSession>, conf: &Conf) -> (r:
    Admission)
    ensures
        r == admission(folder@, conf.limit_of(user@), session_views(sessions@)),
{
    admit_under(folder, conf.limit_for_user(user), sessions)
}

/// Decides whether a task on `folder` may start under `limit`, given the
/// sessions that run now.
pub fn admit_under(folder: &str, limit: usize, sessions: &Vec<DownloaderSession>) -> (r: Admission)
    ensures
        r == admission(folder@, limit, session_views(sessions@)),
{
    let mut i: usize = 0;
    while i < sessions.len()
        invariant
            i <= sessions.len(),
            forall|j: int| 0 <= j < i ==> (#[trigger] sessions@[j]).identifier@ != folder@,
        decreases sessions.len() - i,
    {
        if same_text(sessions[i].identifier.as_str(), folder) {
            proof {
                assert(session_views(sessions@)[i as int].identifier == folder@);
            }
            return Admission::DuplicateFolder;
        }
        i += 1;
    }
    proof {
        assert forall|j: int| 0 <= j < session_views(sessions@).len() implies (
        #[trigger] session_views(sessions@)[j]).identifier != folder@ by {
            assert(sessions@[j].identifier@ != folder@);
        }
    }
    if sessions.len() >= limit {
        Admission::LimitReached { limit }
    } else {
        Admission::Admitted
    }
}

/// A folder in use is refused whatever the limit.
pub proof fn lemma_duplicate_folder_refused(
    folder: Seq<char>,
    limit: usize,
    sessions: Seq<SessionView>,
)
    requires
        folder_in_use(sessions, folder),
    ensures
        admission(folder, limit, sessions) == Admission::DuplicateFolder,
{
}

/// A folder not in use is admitted exactly while fewer sessions run than the
/// limit allows.
pub proof fn lemma_limit_decides(folder: Seq<char>, limit: usize, sessions: Seq<SessionView>)
    requires
        !folder_in_use(sessions, folder),
    ensures
        admission(folder, limit, sessions) == Admission::Admitted <==> sessions.len() < limit,
        sessions.len() >= limit ==> admission(folder, limit, sessions) == (Admission::LimitReached {
            limit,
        }),
{
}

} // verus!
