//! Where Messages keeps its files.
use vstd::prelude::*;

use crate::text::{append_str, chars_of, owned, push_char};
use crate::types::opt_string_view;

verus! {

/// `base` joined with `rel` as `Path::join` does on Unix: an absolute `rel`
/// replaces `base`; otherwise a `/` is put between them unless `base` is
/// empty or already ends with one.
pub open spec fn joined(base: Seq<char>, rel: Seq<char>) -> Seq<char> {
    if rel.len() > 0 && rel[0] == '/' {
        rel
    } else if base.len() == 0 || base.last() == '/' {
        base + rel
    } else {
        base + seq!['/'] + rel
    }
}

/// Joins two paths.
pub fn join_path(base: &str, rel: &str) -> (res: String)
    ensures
        res@ == joined(base@, rel@),
{
    let bv = chars_of(base);
    let rv = chars_of(rel);
    if rv.len() > 0 && rv[0] == '/' {
        return owned(rel);
    }
    let mut res = owned(base);
    if bv.len() > 0 && bv[bv.len() - 1] != '/' {
        push_char(&mut res, '/');
    }
    append_str(&mut res, rel);
    res
}

/// What `Path::with_extension` makes of `path` and `ext`.
pub uninterp spec fn path_with_extension(path: Seq<char>, ext: Seq<char>) -> Seq<char>;

/// Where `c` last occurs in `s`, or -1.
pub open spec fn last_index_of(s: Seq<char>, c: char) -> int
    decreases s.len(),
{
    if s.len() == 0 {
        -1
    } else if s.last() == c {
        s.len() - 1
    } else {
        last_index_of(s.drop_last(), c)
    }
}

/// The last component of a path: what follows its last `/`.
pub open spec fn final_name(path: Seq<char>) -> Seq<char> {
    path.skip(last_index_of(path, '/') + 1)
}

/// Whether the file name of `path` is plainly its last component: the path
/// does not end with `/`, and that component is neither `.` nor `..`.
pub open spec fn plain_file_name(path: Seq<char>) -> bool {
    let name = final_name(path);
    name.len() > 0 && name != "."@ && name != ".."@
}

/// `path` with the extension `ext`, for a path with a plain file name: the
/// file name's extension (what follows its last `.`, when that `.` is not
/// its first character) is replaced by `ext`, and where there is none,
/// `.ext` is added.
pub open spec fn extension_set(path: Seq<char>, ext: Seq<char>) -> Seq<char> {
    let slash = last_index_of(path, '/');
    let dot = last_index_of(final_name(path), '.');
    if dot > 0 {
        path.take(slash + 1 + dot) + seq!['.'] + ext
    } else {
        path + seq!['.'] + ext
    }
}

/// `Path::with_extension`, on paths held as text. Claimed, from the
/// documentation of `Path::set_extension`, `Path::extension` and
/// `Path::file_name`: for a path with a plain file name and a non-empty
/// extension, the file name's extension is replaced, or added where it has
/// none (`extension_set`). Other paths are left to the name
/// `path_with_extension`. The call panics on an extension holding a path
/// separator, which `requires` excludes.
#[verifier::external_body]
fn with_extension(path: &str, ext: &str) -> (res: String)
    requires
        !ext@.contains('/'),
    ensures
        res@ == path_with_extension(path@, ext@),
        plain_file_name(path@) && ext@.len() > 0 ==> res@ == extension_set(path@, ext@),
{
    std::path::Path::new(path).with_extension(ext).to_string_lossy().into_owned()
}

/// The home directory: `$HOME` when set, else the current directory.
pub open spec fn home_dir_text(home: Option<Seq<char>>) -> Seq<char> {
    match home {
        Some(h) => h,
        None => "."@,
    }
}

/// The home directory, given the value of `$HOME`.
pub fn home_dir(home: Option<String>) -> (res: String)
    ensures
        res@ == home_dir_text(opt_string_view(home)),
{
    match home {
        Some(h) => h,
        None => owned("."),
    }
}

pub const MESSAGES_DIR: &'static str = "Library/Messages";

pub const CHAT_DB_NAME: &'static str = "chat.db";

pub const STAGING_DIR: &'static str = "Attachments/rs_imsg";

/// Messages' directory under the home directory `home`.
pub open spec fn messages_dir_text(home: Seq<char>) -> Seq<char> {
    joined(home, MESSAGES_DIR@)
}

/// The default database under the home directory `home`.
pub open spec fn chat_db_text(home: Seq<char>) -> Seq<char> {
    joined(messages_dir_text(home), CHAT_DB_NAME@)
}

/// Messages' directory, `~/Library/Messages`.
pub fn default_messages_dir(home: &str) -> (res: String)
    ensures
        res@ == messages_dir_text(home@),
{
    join_path(home, MESSAGES_DIR)
}

/// The default database, `~/Library/Messages/chat.db`.
pub fn default_chat_db(home: &str) -> (res: String)
    ensures
        res@ == chat_db_text(home@),
{
    let dir = default_messages_dir(home);
    join_path(dir.as_str(), CHAT_DB_NAME)
}

/// The database to read: `$RS_IMESSAGE_DB` when set, else the legacy
/// `$RS_IMSG_DB`, else the default one under `home`.
pub fn chat_db_from_env(rs_imessage_db: Option<String>, rs_imsg_db: Option<String>, home: &str) -> (res: String)
    ensures
        res@ == match opt_string_view(rs_imessage_db) {
            Some(p) => p,
            None => match opt_string_view(rs_imsg_db) {
                Some(p) => p,
                None => chat_db_text(home@),
            },
        },
{
    match crate::env::var(rs_imessage_db, rs_imsg_db) {
        Some(p) => p,
        None => default_chat_db(home),
    }
}

/// Where attachments are copied before Messages sends them.
pub fn attachment_staging_dir(home: &str) -> (res: String)
    ensures
        res@ == joined(messages_dir_text(home@), STAGING_DIR@),
{
    let dir = default_messages_dir(home);
    join_path(dir.as_str(), STAGING_DIR)
}

/// The database file and its write-ahead log and shared-memory files: for a
/// database whose file name is `chat.db`, `chat.db-wal` and `chat.db-shm`.
pub fn wal_paths(db: &str) -> (res: [String; 3])
    ensures
        res[0]@ == db@,
        res[1]@ == path_with_extension(db@, "db-wal"@),
        res[2]@ == path_with_extension(db@, "db-shm"@),
        plain_file_name(db@) ==> res[1]@ == extension_set(db@, "db-wal"@),
        plain_file_name(db@) ==> res[2]@ == extension_set(db@, "db-shm"@),
{
    proof {
        reveal_strlit("db-wal");
        reveal_strlit("db-shm");
        assert(!"db-wal"@.contains('/'));
        assert(!"db-shm"@.contains('/'));
    }
    [owned(db), with_extension(db, "db-wal"), with_extension(db, "db-shm")]
}

} // verus!
