//! Where the daemon's files live, relative to the user's home directory.
//!
//! Paths are plain text with `/` as the separator. The home directory is
//! handed in by the caller, so that every location is a function of it.

use crate::text::to_chars;
use vstd::prelude::*;
use vstd::string::*;

verus! {

/// `part` appended to the path `base`.
///
/// A `part` that starts at the root replaces `base`. Otherwise one separator
/// is put between the two, unless `base` is empty or already ends in one.
pub open spec fn join_path(base: Seq<char>, part: Seq<char>) -> Seq<char> {
    if part.len() > 0 && part[0] == '/' {
        part
    } else if base.len() == 0 || base.last() == '/' {
        base + part
    } else {
        base.push('/') + part
    }
}

/// The directory that holds the application's data.
pub open spec fn noornote_base_path(home: Seq<char>) -> Seq<char> {
    join_path(home, ".noornote"@)
}

/// The directory that the daemon keeps its own state in.
pub open spec fn noorsigner_state_dir(home: Seq<char>) -> Seq<char> {
    join_path(home, ".noorsigner"@)
}

/// The daemon's communication endpoint.
pub open spec fn socket_path(home: Seq<char>) -> Seq<char> {
    join_path(noorsigner_state_dir(home), "noorsigner.sock"@)
}

/// The persisted trust session.
pub open spec fn trust_session_path(home: Seq<char>) -> Seq<char> {
    join_path(noorsigner_state_dir(home), "trust_session"@)
}

/// The directory that the daemon executable is installed in.
pub open spec fn noorsigner_dir(home: Seq<char>) -> Seq<char> {
    join_path(noornote_base_path(home), "bin"@)
}

/// The installed daemon executable.
pub open spec fn noorsigner_path(home: Seq<char>) -> Seq<char> {
    join_path(noorsigner_dir(home), "noorsigner"@)
}

/// The error that every lookup gives when no home directory is known.
pub open spec fn home_missing() -> Seq<char> {
    "Failed to get HOME directory"@
}

/// Joining onto a non-empty base that does not end in a separator, with a
/// part that does not start at the root, writes exactly one separator between
/// the two.
pub proof fn lemma_join_path_plain(base: Seq<char>, part: Seq<char>)
    requires
        base.len() > 0,
        base.last() != '/',
        part.len() == 0 || part[0] != '/',
    ensures
        join_path(base, part) == base + seq!['/'] + part,
{
}

/// For a home directory written without a trailing separator, each location
/// is the home directory followed by a fixed suffix.
pub proof fn lemma_layout(home: Seq<char>)
    requires
        home.len() > 0,
        home.last() != '/',
    ensures
        noornote_base_path(home) == home + "/.noornote"@,
        noorsigner_dir(home) == home + "/.noornote/bin"@,
        socket_path(home) == home + "/.noorsigner/noorsigner.sock"@,
        trust_session_path(home) == home + "/.noorsigner/trust_session"@,
        noorsigner_path(home) == home + "/.noornote/bin/noorsigner"@,
{
    reveal_strlit(".noornote");
    reveal_strlit(".noorsigner");
    reveal_strlit("noorsigner.sock");
    reveal_strlit("trust_session");
    reveal_strlit("bin");
    reveal_strlit("noorsigner");
    reveal_strlit("/.noornote");
    reveal_strlit("/.noornote/bin");
    reveal_strlit("/.noorsigner/noorsigner.sock");
    reveal_strlit("/.noorsigner/trust_session");
    reveal_strlit("/.noornote/bin/noorsigner");
}

/// Appends `part` to the path `base`.
pub fn join(base: &str, part: &str) -> (joined: String)
    ensures
        joined@ == join_path(base@, part@),
{
    let head = to_chars(base);
    let tail = to_chars(part);
    if tail.len() > 0 && tail[0] == '/' {
        return String::from_str(part);
    }
    let mut joined = String::from_str(base);
    if head.len() > 0 && head[head.len() - 1] != '/' {
        joined.append("/");
        proof {
            reveal_strlit("/");
        }
    }
    joined.append(part);
    joined
}

/// The message for a home directory that is not known.
fn home_missing_error() -> (message: String)
    ensures
        message@ == home_missing(),
{
    String::from_str("Failed to get HOME directory")
}

/// The directory that holds the application's data, under `home`.
pub fn get_noornote_base_path(home: Option<&str>) -> (result: Result<String, String>)
    ensures
        match home {
            Some(h) => result matches Ok(path) && path@ == noornote_base_path(h@),
            None => result matches Err(message) && message@ == home_missing(),
        },
{
    match home {
        Some(h) => Ok(join(h, ".noornote")),
        None => Err(home_missing_error()),
    }
}

/// The daemon's communication endpoint, under `home`.
pub fn get_socket_path(home: Option<&str>) -> (result: Result<String, String>)
    ensures
        match home {
            Some(h) => result matches Ok(path) && path@ == socket_path(h@),
            None => result matches Err(message) && message@ == home_missing(),
        },
{
    match home {
        Some(h) => {
            let dir = join(h, ".noorsigner");
            Ok(join(dir.as_str(), "noorsigner.sock"))
        },
        None => Err(home_missing_error()),
    }
}

/// The persisted trust session, under `home`.
pub fn get_trust_session_path(home: Option<&str>) -> (result: Result<String, String>)
    ensures
        match home {
            Some(h) => result matches Ok(path) && path@ == trust_session_path(h@),
            None => result matches Err(message) && message@ == home_missing(),
        },
{
    match home {
        Some(h) => {
            let dir = join(h, ".noorsigner");
            Ok(join(dir.as_str(), "trust_session"))
        },
        None => Err(home_missing_error()),
    }
}

/// The directory that the daemon executable is installed in, under `home`.
pub fn get_noorsigner_dir(home: Option<&str>) -> (result: Result<String, String>)
    ensures
        match home {
            Some(h) => result matches Ok(path) && path@ == noorsigner_dir(h@),
            None => result matches Err(message) && message@ == home_missing(),
        },
{
    match get_noornote_base_path(home) {
        Ok(base) => Ok(join(base.as_str(), "bin")),
        Err(message) => Err(message),
    }
}

/// The installed daemon executable, under `home`.
pub fn get_noorsigner_path(home: Option<&str>) -> (result: Result<String, String>)
    ensures
        match home {
            Some(h) => result matches Ok(path) && path@ == noorsigner_path(h@),
            None => result matches Err(message) && message@ == home_missing(),
        },
{
    match get_noorsigner_dir(home) {
        Ok(bin) => Ok(join(bin.as_str(), "noorsigner")),
        Err(message) => Err(message),
    }
}

} // verus!
