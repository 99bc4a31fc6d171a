//! Plain upload and download of files: where each file goes, and which
//! inputs are passed over. Nothing here is transactional: a file that fails
//! leaves the files before it transferred.

use vstd::prelude::*;
use vstd::string::*;

use crate::plan::{join_remote, remote_path};
use crate::text::without_trailing_slashes;

verus! {

/// Local directory for downloads where none is given.
pub const DEFAULT_LOCAL_DIR: &'static str = ".";

/// The part of `path` after its last `'/'`; all of it where it has none.
pub open spec fn base_name(path: Seq<char>) -> Seq<char>
    decreases path.len(),
{
    if path.len() == 0 || path.last() == '/' {
        Seq::empty()
    } else {
        base_name(path.drop_last()).push(path.last())
    }
}

/// Whether `name` can name a file: it is not empty and is neither of the two
/// directory names `.` and `..`.
pub open spec fn names_a_file(name: Seq<char>) -> bool {
    name.len() > 0 && name != seq!['.'] && name != seq!['.', '.']
}

/// `name` in the local directory `dir`: joined by one slash unless `dir`
/// already ends in one; in `.` where `dir` is empty.
pub open spec fn local_path(dir: Seq<char>, name: Seq<char>) -> Seq<char> {
    if dir.len() == 0 {
        DEFAULT_LOCAL_DIR@ + "/"@ + name
    } else if dir.last() == '/' {
        dir + name
    } else {
        dir + "/"@ + name
    }
}

/// Why a file is passed over.
#[derive(Clone, Copy, Debug, PartialEq, Eq, Structural)]
pub enum SkipReason {
    /// The input is not a regular file.
    NotARegularFile,
    /// The path ends in no file name: it is empty, or it ends in a slash or
    /// in `.` or `..`, and so names a directory.
    NoFileName,
}

/// Why a request is not carried out at all.
#[derive(Clone, Copy, Debug, PartialEq, Eq, Structural)]
pub enum RequestError {
    /// No file was named.
    NoFiles,
    /// No remote directory was named.
    NoDirectory,
}

/// What to do with one file of a request.
#[derive(Clone, Debug, PartialEq, Eq)]
pub enum Disposition {
    /// Transfer it to this path.
    Transfer(String),
    /// Pass it over, with a warning.
    Skip(SkipReason),
}

/// The model of a [`Disposition`].
pub enum DispositionView {
    Transfer(Seq<char>),
    Skip(SkipReason),
}

impl View for Disposition {
    type V = DispositionView;

    open spec fn view(&self) -> DispositionView {
        match *self {
            Disposition::Transfer(target) => DispositionView::Transfer(target@),
            Disposition::Skip(reason) => DispositionView::Skip(reason),
        }
    }
}

/// What becomes of the local file `local` in an upload to `remote_dir`: a
/// regular file goes to the directory under its own name.
pub open spec fn upload_of(remote_dir: Seq<char>, local: Seq<char>, is_regular_file: bool)
    -> DispositionView {
    if !is_regular_file {
        DispositionView::Skip(SkipReason::NotARegularFile)
    } else if !names_a_file(base_name(local)) {
        DispositionView::Skip(SkipReason::NoFileName)
    } else {
        DispositionView::Transfer(remote_path(remote_dir, base_name(local)))
    }
}

/// What becomes of the remote file `remote` in a download to `local_dir`: it
/// goes to the directory under its own name.
pub open spec fn download_of(local_dir: Seq<char>, remote: Seq<char>) -> DispositionView {
    if !names_a_file(base_name(remote)) {
        DispositionView::Skip(SkipReason::NoFileName)
    } else {
        DispositionView::Transfer(local_path(local_dir, base_name(remote)))
    }
}

/// The base name is the stretch of the path behind its last slash, and holds
/// no slash itself.
pub proof fn lemma_base_name(path: Seq<char>)
    ensures
        base_name(path).len() <= path.len(),
        base_name(path) == path.subrange(path.len() - base_name(path).len(), path.len() as int),
        forall|i: int| 0 <= i < base_name(path).len() ==> base_name(path)[i] != '/',
        base_name(path).len() < path.len() ==> path[path.len() - base_name(path).len() - 1] == '/',
    decreases path.len(),
{
    if path.len() > 0 && path.last() != '/' {
        let shorter = path.drop_last();
        lemma_base_name(shorter);
        let name = base_name(shorter);
        assert(base_name(path) =~= path.subrange(
            path.len() - name.len() - 1,
            path.len() as int,
        ));
    }
}

/// Copies the part of `path` after its last slash.
pub fn file_name(path: &str) -> (name: String)
    ensures
        name@ == base_name(path@),
{
    let n: usize = path.unicode_len();
    let mut start: usize = n;
    assert(path@.take(n as int) == path@);
    while start > 0 && path.get_char(start - 1) != '/'
        invariant
            start <= n,
            n == path@.len(),
            base_name(path@) == base_name(path@.take(start as int)) + path@.subrange(
                start as int,
                n as int,
            ),
        decreases start,
    {
        let ghost head = path@.take(start as int);
        assert(head.drop_last() == path@.take(start - 1));
        assert(base_name(path@.take(start - 1)).push(path@[start - 1]) + path@.subrange(
            start as int,
            n as int,
        ) =~= base_name(path@.take(start - 1)) + path@.subrange(start - 1, n as int));
        start = start - 1;
    }
    assert(Seq::<char>::empty() + path@.subrange(start as int, n as int) =~= path@.subrange(
        start as int,
        n as int,
    ));
    String::from_str(path.substring_char(start, n))
}

/// Whether `name` can name a file.
pub fn is_file_name(name: &str) -> (yes: bool)
    ensures
        yes == names_a_file(name@),
{
    let n: usize = name.unicode_len();
    if n == 0 {
        false
    } else if n == 1 {
        let only = name.get_char(0);
        assert(name@ =~= seq![only]);
        only != '.'
    } else if n == 2 {
        let first = name.get_char(0);
        let second = name.get_char(1);
        assert(name@ =~= seq![first, second]);
        !(first == '.' && second == '.')
    } else {
        true
    }
}

/// Joins a local directory and a file name.
pub fn join_local(dir: &str, name: &str) -> (path: String)
    ensures
        path@ == local_path(dir@, name@),
{
    let n: usize = dir.unicode_len();
    let mut path = if n == 0 {
        String::from_str(DEFAULT_LOCAL_DIR)
    } else {
        String::from_str(dir)
    };
    if n == 0 || dir.get_char(n - 1) != '/' {
        path.append("/");
    }
    path.append(name);
    path
}

/// Checks that a request names at least one file and, for an upload, a
/// remote directory. The files are looked at first.
pub fn check_request(files: &Vec<String>, remote_dir: Option<&str>) -> (checked: Result<
    (),
    RequestError,
>)
    ensures
        checked == if files@.len() == 0 {
            Err::<(), RequestError>(RequestError::NoFiles)
        } else if remote_dir matches Some(dir) && dir@.len() == 0 {
            Err::<(), RequestError>(RequestError::NoDirectory)
        } else {
            Ok::<(), RequestError>(())
        },
{
    if files.len() == 0 {
        return Err(RequestError::NoFiles);
    }
    match remote_dir {
        Some(dir) => {
            if dir.unicode_len() == 0 {
                return Err(RequestError::NoDirectory);
            }
        },
        None => {},
    }
    Ok(())
}

/// Decides what becomes of one local file in an upload. Whether it is a
/// regular file is for the caller to find out.
pub fn plan_upload(remote_dir: &str, local: &str, is_regular_file: bool) -> (decision: Disposition)
    ensures
        decision@ == upload_of(remote_dir@, local@, is_regular_file),
{
    if !is_regular_file {
        return Disposition::Skip(SkipReason::NotARegularFile);
    }
    let name = file_name(local);
    if !is_file_name(name.as_str()) {
        return Disposition::Skip(SkipReason::NoFileName);
    }
    Disposition::Transfer(join_remote(remote_dir, name.as_str()))
}

/// Decides what becomes of one remote file in a download.
pub fn plan_download(local_dir: &str, remote: &str) -> (decision: Disposition)
    ensures
        decision@ == download_of(local_dir@, remote@),
{
    let name = file_name(remote);
    if !is_file_name(name.as_str()) {
        return Disposition::Skip(SkipReason::NoFileName);
    }
    Disposition::Transfer(join_local(local_dir, name.as_str()))
}

/// Behind a slash, a name that holds no slash is the base name.
proof fn lemma_base_name_of_joined(head: Seq<char>, name: Seq<char>)
    requires
        head.len() > 0,
        head.last() == '/',
        forall|i: int| 0 <= i < name.len() ==> name[i] != '/',
    ensures
        base_name(head + name) == name,
    decreases name.len(),
{
    if name.len() > 0 {
        assert((head + name).drop_last() =~= head + name.drop_last());
        lemma_base_name_of_joined(head, name.drop_last());
    }
}

/// A file keeps its name when it is transferred: the target of an upload or
/// a download is called like its source.
pub proof fn transfer_keeps_name(dir: Seq<char>, source: Seq<char>, is_regular_file: bool)
    ensures
        upload_of(dir, source, is_regular_file) matches DispositionView::Transfer(target)
            ==> base_name(target) == base_name(source),
        download_of(dir, source) matches DispositionView::Transfer(target) ==> base_name(target)
            == base_name(source),
{
    reveal_strlit("/");
    let name = base_name(source);
    lemma_base_name(source);
    let slash = "/"@;
    if names_a_file(name) {
        let remote_head = without_trailing_slashes(dir) + slash;
        lemma_base_name_of_joined(remote_head, name);
        let local_head = if dir.len() == 0 {
            DEFAULT_LOCAL_DIR@ + slash
        } else if dir.last() == '/' {
            dir
        } else {
            dir + slash
        };
        lemma_base_name_of_joined(local_head, name);
    }
}

} // verus!
