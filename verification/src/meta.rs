//! The data model of a completed walk: per-file metadata, the aggregate
//! directory result, and the recorded per-entry failures.

use crate::utils::clock_text_12h;
use crate::utils::clock_text_24h;
use crate::utils::human_duration_text;
use crate::utils::local_date_text;
use crate::utils::spec_duration_between;
use crate::utils::DateTimeString;
use crate::utils::FsUtils;
use crate::utils::Timestamp;
use vstd::prelude::*;
use vstd::string::StrSliceExecFns;

verus! {

/// Categories of I/O failure recorded during a walk, mirroring the
/// operating system's error classification.
#[derive(Clone, Copy, Debug, PartialEq, Eq, Structural)]
pub enum DirErrorKind {
    /// The entry does not exist.
    NotFound,
    /// The operation lacked the necessary permission.
    PermissionDenied,
    /// An entry already exists.
    AlreadyExists,
    /// The operation would need to block.
    WouldBlock,
    /// A parameter was incorrect.
    InvalidInput,
    /// Malformed data was encountered.
    InvalidData,
    /// The operation timed out.
    TimedOut,
    /// A write returned nothing.
    WriteZero,
    /// The operation was interrupted.
    Interrupted,
    /// The operation is not supported here.
    Unsupported,
    /// The end of a file was reached early.
    UnexpectedEof,
    /// Memory ran out.
    OutOfMemory,
    /// A directory was required but the path names something else.
    NotADirectory,
    /// The other end of a pipe closed.
    BrokenPipe,
    /// Any category not listed above.
    Other,
}

/// An error encountered while accessing a file or sub-directory.
#[derive(Debug, Clone, PartialEq)]
pub struct DirError {
    /// The path to the sub-directory or file where the error occurred.
    pub path: String,
    /// The kind of error that occurred.
    pub error: DirErrorKind,
    /// The formatted error message.
    pub display: String,
}

/// `file_format::FileFormat` is carried through the library as an opaque
/// value: content-based detection happens outside, the walk only stores the
/// tag it was handed.
#[verifier::external_type_specification]
#[verifier::external_body]
pub struct ExFileFormat(file_format::FileFormat);

/// The metadata of one regular file.
#[derive(Debug, Clone, PartialEq)]
pub struct FileMetadata {
    /// The base name of the file.
    pub name: String,
    /// The path of the file.
    pub path: String,
    /// The size of the file in bytes; zero when size tracking is off or the
    /// size could not be fetched.
    pub size: usize,
    /// Whether the file is read-only.
    pub read_only: bool,
    /// Whether the file is a symbolic link.
    pub symlink: bool,
    /// When the file was created, if the query succeeded.
    pub created: Option<Timestamp>,
    /// When the file was last accessed, if the query succeeded.
    pub accessed: Option<Timestamp>,
    /// When the file was last modified, if the query succeeded.
    pub modified: Option<Timestamp>,
    /// The detected format tag, absent when detection is off.
    pub file_format: Option<file_format::FileFormat>,
}

impl FileMetadata {
    /// Get the name of the file.
    pub fn name(&self) -> (r: &str)
        ensures
            r@ == self.name@,
    {
        self.name.as_str()
    }

    /// Get the path of the file.
    pub fn path(&self) -> (r: &str)
        ensures
            r@ == self.path@,
    {
        self.path.as_str()
    }

    /// Get the size of the file in bytes.
    pub fn size(&self) -> (r: usize)
        ensures
            r == self.size,
    {
        self.size
    }

    /// Get the timestamp when the file was last accessed.
    pub fn accessed(&self) -> (r: Option<Timestamp>)
        ensures
            r == self.accessed,
    {
        self.accessed
    }

    /// Get the timestamp when the file was last modified.
    pub fn modified(&self) -> (r: Option<Timestamp>)
        ensures
            r == self.modified,
    {
        self.modified
    }

    /// Get the timestamp when the file was created.
    pub fn created(&self) -> (r: Option<Timestamp>)
        ensures
            r == self.created,
    {
        self.created
    }

    /// Get the access time rendered as local date and 24-hour time.
    pub fn accessed_24hr(&self) -> (r: Option<DateTimeString>)
        requires
            self.accessed is Some ==> self.accessed->0.renderable(),
        ensures
            r is Some <==> self.accessed is Some,
            r is Some ==> r->0.date@ == local_date_text(
                self.accessed->0.secs,
                self.accessed->0.nanos,
            ) && r->0.time@ == clock_text_24h(self.accessed->0.secs, self.accessed->0.nanos),
    {
        match &self.accessed {
            Some(t) => Some(FsUtils::tai64_to_local_hrs(t)),
            None => None,
        }
    }

    /// Get the access time rendered as local date and 12-hour time.
    pub fn accessed_am_pm(&self) -> (r: Option<DateTimeString>)
        requires
            self.accessed is Some ==> self.accessed->0.renderable(),
        ensures
            r is Some <==> self.accessed is Some,
            r is Some ==> r->0.date@ == local_date_text(
                self.accessed->0.secs,
                self.accessed->0.nanos,
            ) && r->0.time@ == clock_text_12h(self.accessed->0.secs, self.accessed->0.nanos),
    {
        match &self.accessed {
            Some(t) => Some(FsUtils::tai64_to_local_am_pm(t)),
            None => None,
        }
    }

    /// Get the time passed since access as human-readable text, absent
    /// when no timestamp was recorded or it lies in the future.
    pub fn accessed_humatime(&self) -> (r: Option<String>)
        requires
            self.accessed is Some ==> self.accessed->0.wf(),
        ensures
            self.accessed is None ==> r is None,
            self.accessed is Some ==> exists|now: Timestamp|
                {
                    &&& #[trigger] now.wf()
                    &&& (r is Some <==> now.spec_ge(self.accessed->0))
                    &&& (r is Some ==> r->0@ == human_duration_text(
                        spec_duration_between(self.accessed->0, now).secs,
                        spec_duration_between(self.accessed->0, now).nanos,
                    ))
                },
    {
        match &self.accessed {
            Some(t) => FsUtils::tai64_now_duration_to_humantime(t),
            None => None,
        }
    }

    /// Get the modification time rendered as local date and 24-hour time.
    pub fn modified_24hr(&self) -> (r: Option<DateTimeString>)
        requires
            self.modified is Some ==> self.modified->0.renderable(),
        ensures
            r is Some <==> self.modified is Some,
            r is Some ==> r->0.date@ == local_date_text(
                self.modified->0.secs,
                self.modified->0.nanos,
            ) && r->0.time@ == clock_text_24h(self.modified->0.secs, self.modified->0.nanos),
    {
        match &self.modified {
            Some(t) => Some(FsUtils::tai64_to_local_hrs(t)),
            None => None,
        }
    }

    /// Get the modification time rendered as local date and 12-hour time.
    pub fn modified_am_pm(&self) -> (r: Option<DateTimeString>)
        requires
            self.modified is Some ==> self.modified->0.renderable(),
        ensures
            r is Some <==> self.modified is Some,
            r is Some ==> r->0.date@ == local_date_text(
                self.modified->0.secs,
                self.modified->0.nanos,
            ) && r->0.time@ == clock_text_12h(self.modified->0.secs, self.modified->0.nanos),
    {
        match &self.modified {
            Some(t) => Some(FsUtils::tai64_to_local_am_pm(t)),
            None => None,
        }
    }

    /// Get the time passed since modification as human-readable text, absent
    /// when no timestamp was recorded or it lies in the future.
    pub fn modified_humatime(&self) -> (r: Option<String>)
        requires
            self.modified is Some ==> self.modified->0.wf(),
        ensures
            self.modified is None ==> r is None,
            self.modified is Some ==> exists|now: Timestamp|
                {
                    &&& #[trigger] now.wf()
                    &&& (r is Some <==> now.spec_ge(self.modified->0))
                    &&& (r is Some ==> r->0@ == human_duration_text(
                        spec_duration_between(self.modified->0, now).secs,
                        spec_duration_between(self.modified->0, now).nanos,
                    ))
                },
    {
        match &self.modified {
            Some(t) => FsUtils::tai64_now_duration_to_humantime(t),
            None => None,
        }
    }

    /// Get the creation time rendered as local date and 24-hour time.
    pub fn created_24hr(&self) -> (r: Option<DateTimeString>)
        requires
            self.created is Some ==> self.created->0.renderable(),
        ensures
            r is Some <==> self.created is Some,
            r is Some ==> r->0.date@ == local_date_text(
                self.created->0.secs,
                self.created->0.nanos,
            ) && r->0.time@ == clock_text_24h(self.created->0.secs, self.created->0.nanos),
    {
        match &self.created {
            Some(t) => Some(FsUtils::tai64_to_local_hrs(t)),
            None => None,
        }
    }

    /// Get the creation time rendered as local date and 12-hour time.
    pub fn created_am_pm(&self) -> (r: Option<DateTimeString>)
        requires
            self.created is Some ==> self.created->0.renderable(),
        ensures
            r is Some <==> self.created is Some,
            r is Some ==> r->0.date@ == local_date_text(
                self.created->0.secs,
                self.created->0.nanos,
            ) && r->0.time@ == clock_text_12h(self.created->0.secs, self.created->0.nanos),
    {
        match &self.created {
            Some(t) => Some(FsUtils::tai64_to_local_am_pm(t)),
            None => None,
        }
    }

    /// Get the time passed since creation as human-readable text, absent
    /// when no timestamp was recorded or it lies in the future.
    pub fn created_humatime(&self) -> (r: Option<String>)
        requires
            self.created is Some ==> self.created->0.wf(),
        ensures
            self.created is None ==> r is None,
            self.created is Some ==> exists|now: Timestamp|
                {
                    &&& #[trigger] now.wf()
                    &&& (r is Some <==> now.spec_ge(self.created->0))
                    &&& (r is Some ==> r->0@ == human_duration_text(
                        spec_duration_between(self.created->0, now).secs,
                        spec_duration_between(self.created->0, now).nanos,
                    ))
                },
    {
        match &self.created {
            Some(t) => FsUtils::tai64_now_duration_to_humantime(t),
            None => None,
        }
    }

    /// Is the file read only.
    pub fn read_only(&self) -> (r: bool)
        ensures
            r == self.read_only,
    {
        self.read_only
    }

    /// Is the file a symbolic link.
    pub fn symlink(&self) -> (r: bool)
        ensures
            r == self.symlink,
    {
        self.symlink
    }

    /// Get the format tag of the file, if detection was on.
    pub fn file_format(&self) -> (r: &Option<file_format::FileFormat>)
        ensures
            r == self.file_format,
    {
        &self.file_format
    }
}

/// The sum of the sizes of a sequence of files.
pub open spec fn sum_sizes(files: Seq<FileMetadata>) -> int
    decreases files.len(),
{
    if files.len() == 0 {
        0
    } else {
        sum_sizes(files.drop_last()) + files.last().size
    }
}

/// The files among `files` whose base name is `name`.
pub open spec fn files_named(files: Seq<FileMetadata>, name: Seq<char>) -> Seq<FileMetadata> {
    files.filter(|f: FileMetadata| f.name@ == name)
}

/// Some file among `files` has path `path`.
pub open spec fn has_file_with_path(files: Seq<FileMetadata>, path: Seq<char>) -> bool {
    exists|i: int| 0 <= i < files.len() && files[i].path@ == path
}

/// `i` is the least index whose file has path `path`.
pub open spec fn is_first_path_match(files: Seq<FileMetadata>, path: Seq<char>, i: int) -> bool {
    &&& 0 <= i < files.len()
    &&& files[i].path@ == path
    &&& forall|j: int| 0 <= j < i ==> files[j].path@ != path
}

/// Each borrowed file, dereferenced.
pub open spec fn deref_all<'a>(s: Seq<&'a FileMetadata>) -> Seq<FileMetadata> {
    s.map_values(|f: &FileMetadata| *f)
}

/// The metadata of one directory plus the flattened result of its whole
/// subtree: every transitively discovered file and sub-directory, the summed
/// file size, and every per-entry failure.
#[derive(Debug, Clone, PartialEq)]
pub struct DirMetadata {
    /// The base name of the directory.
    pub name: String,
    /// The caller-supplied path of the directory.
    pub path: String,
    /// The paths of every directory discovered transitively, in discovery
    /// order.
    pub directories: Vec<String>,
    /// The metadata of every regular file discovered transitively, in
    /// discovery order.
    pub files: Vec<FileMetadata>,
    /// The sum of the sizes of all discovered files.
    pub size: usize,
    /// Every failure recorded during the walk, in discovery order.
    pub errors: Vec<DirError>,
}

impl DirMetadata {
    /// The recorded total size equals the sum of the recorded file sizes.
    pub open spec fn size_invariant(self) -> bool {
        self.size == sum_sizes(self.files@)
    }

    /// Create a new, empty result for the directory at `path`.
    pub fn new(path: &str) -> (r: Self)
        requires
            base_name_of(path@) is Some,
        ensures
            r.path@ == path@,
            r.name@ == base_name_of(path@)->0,
            r.directories@.len() == 0,
            r.files@.len() == 0,
            r.errors@.len() == 0,
            r.size == 0,
    {
        Self::new_path_buf(path.to_owned())
    }

    /// Create a new, empty result for the directory at `path`, taking the
    /// path by value.
    pub fn new_path_buf(path: String) -> (r: Self)
        requires
            base_name_of(path@) is Some,
        ensures
            r.path == path,
            r.name@ == base_name_of(path@)->0,
            r.directories@.len() == 0,
            r.files@.len() == 0,
            r.errors@.len() == 0,
            r.size == 0,
    {
        let name = base_name(path.as_str()).unwrap();
        DirMetadata {
            name,
            path,
            directories: Vec::new(),
            files: Vec::new(),
            size: 0,
            errors: Vec::new(),
        }
    }

    /// Get the name of the current directory.
    pub fn dir_name(&self) -> (r: &str)
        ensures
            r@ == self.name@,
    {
        self.name.as_str()
    }

    /// Get the path of the current directory.
    pub fn dir_path(&self) -> (r: &str)
        ensures
            r@ == self.path@,
    {
        self.path.as_str()
    }

    /// Get all the sub-directories discovered under the current directory.
    pub fn directories(&self) -> (r: &Vec<String>)
        ensures
            r == self.directories,
    {
        &self.directories
    }

    /// Get all the files discovered under the current directory and its
    /// sub-directories.
    pub fn files(&self) -> (r: &Vec<FileMetadata>)
        ensures
            r == self.files,
    {
        &self.files
    }

    /// Get the summed size of every discovered file.
    pub fn size(&self) -> (r: usize)
        ensures
            r == self.size,
    {
        self.size
    }

    /// Get all the errors encountered while opening sub-directories and
    /// files.
    pub fn errors(&self) -> (r: &Vec<DirError>)
        ensures
            r == self.errors,
    {
        &self.errors
    }

    /// All files across the whole subtree sharing the base name `file_name`;
    /// several directories may each hold a file so named.
    pub fn get_file<'a>(&'a self, file_name: &str) -> (r: Vec<&'a FileMetadata>)
        ensures
            deref_all(r@) == files_named(self.files@, file_name@),
    {
        let mut out: Vec<&FileMetadata> = Vec::new();
        let n = self.files.len();
        let query = file_name.to_owned();
        proof {
            assert(deref_all(out@) =~= files_named(self.files@.take(0), file_name@)) by {
                reveal(Seq::filter);
            }
        }
        let mut i: usize = 0;
        while i < n
            invariant
                i <= n,
                n == self.files@.len(),
                query@ == file_name@,
                deref_all(out@) =~= files_named(self.files@.take(i as int), file_name@),
            decreases n - i,
        {
            let ghost prev = out@;
            if self.files[i].name == query {
                out.push(&self.files[i]);
            }
            proof {
                reveal(Seq::filter);
                assert(self.files@.take(i + 1).drop_last() =~= self.files@.take(i as int));
                assert(self.files@.take(i + 1).last() == self.files@[i as int]);
                assert(deref_all(out@) =~= files_named(self.files@.take(i + 1), file_name@));
            }
            i += 1;
        }
        proof {
            assert(self.files@.take(n as int) =~= self.files@);
        }
        out
    }

    /// The first file whose path equals `path` exactly, if any.
    pub fn get_file_by_path<'a>(&'a self, path: &str) -> (r: Option<&'a FileMetadata>)
        ensures
            match r {
                Some(f) => exists|i: int|
                    is_first_path_match(self.files@, path@, i) && *f == self.files@[i],
                None => !has_file_with_path(self.files@, path@),
            },
    {
        let n = self.files.len();
        let query = path.to_owned();
        let mut i: usize = 0;
        while i < n
            invariant
                i <= n,
                n == self.files@.len(),
                query@ == path@,
                forall|j: int| 0 <= j < i ==> self.files@[j].path@ != path@,
            decreases n - i,
        {
            if self.files[i].path == query {
                proof {
                    assert(is_first_path_match(self.files@, path@, i as int));
                }
                return Some(&self.files[i]);
            }
            i += 1;
        }
        None
    }
}

/// What stands before the tail a platform path lookup drops: trailing `/`
/// runs and bare `.` components.
pub open spec fn strip_redundant_tail(s: Seq<char>) -> Seq<char>
    decreases s.len(),
{
    if s.len() == 0 {
        s
    } else if s.last() == '/' {
        strip_redundant_tail(s.drop_last())
    } else if s.last() == '.' && (s.len() == 1 || s[s.len() - 2] == '/') {
        strip_redundant_tail(s.drop_last())
    } else {
        s
    }
}

/// The text after the last `/`, empty if the text ends with `/`.
pub open spec fn after_last_slash(s: Seq<char>) -> Seq<char>
    decreases s.len(),
{
    if s.len() == 0 {
        Seq::empty()
    } else if s.last() == '/' {
        Seq::empty()
    } else {
        after_last_slash(s.drop_last()).push(s.last())
    }
}

/// The base name of a path: the final component once trailing `/` runs and
/// bare `.` components are stripped; absent when nothing remains or the
/// component is `..`.
pub open spec fn base_name_of(path: Seq<char>) -> Option<Seq<char>> {
    let stem = strip_redundant_tail(path);
    let base = after_last_slash(stem);
    if base.len() == 0 || base == ".."@ {
        None
    } else {
        Some(base)
    }
}

proof fn lemma_after_suffix(s: Seq<char>, b: int)
    requires
        0 <= b <= s.len(),
        forall|j: int| b <= j < s.len() ==> s[j] != '/',
        b == 0 || s[b - 1] == '/',
    ensures
        after_last_slash(s) == s.subrange(b, s.len() as int),
    decreases s.len(),
{
    if s.len() == 0 {
        assert(s.subrange(0, 0) =~= Seq::<char>::empty());
    } else if b == s.len() {
        assert(s.last() == '/');
        assert(s.subrange(b, s.len() as int) =~= Seq::<char>::empty());
    } else {
        assert(s.last() != '/');
        let d = s.drop_last();
        assert(d =~= s.subrange(0, s.len() - 1));
        lemma_after_suffix(d, b);
        assert(s.subrange(b, s.len() as int) =~= d.subrange(b, d.len() as int).push(s.last()));
    }
}

/// The base name of `path`, or `None` when the path keeps no usable final
/// component; agrees exactly with [`base_name_of`].
pub fn base_name(path: &str) -> (r: Option<String>)
    ensures
        match r {
            Some(name) => base_name_of(path@) == Some(name@),
            None => base_name_of(path@) is None,
        },
{
    let n = path.unicode_len();
    let mut end: usize = n;
    proof {
        assert(path@.subrange(0, n as int) =~= path@);
    }
    while end > 0 && (path.get_char(end - 1) == '/' || (path.get_char(end - 1) == '.' && (end
        == 1 || path.get_char(end - 2) == '/')))
        invariant
            end <= n,
            n == path@.len(),
            strip_redundant_tail(path@) == strip_redundant_tail(path@.subrange(0, end as int)),
        decreases end,
    {
        proof {
            let cur = path@.subrange(0, end as int);
            assert(cur.last() == path@[end - 1]);
            if end >= 2 {
                assert(cur[end - 2] == path@[end - 2]);
            }
            assert(cur.drop_last() =~= path@.subrange(0, end - 1));
        }
        end = end - 1;
    }
    proof {
        let stem = path@.subrange(0, end as int);
        if end == 0 {
            assert(stem =~= Seq::<char>::empty());
        } else {
            if end >= 2 {
                assert(stem[end - 2] == path@[end - 2]);
            }
            assert(strip_redundant_tail(stem) == stem);
        }
    }
    if end == 0 {
        return None;
    }
    let mut start: usize = end;
    while start > 0 && path.get_char(start - 1) != '/'
        invariant
            start <= end,
            end <= n,
            n == path@.len(),
            end > 0,
            path@[end - 1] != '/',
            strip_redundant_tail(path@) == path@.subrange(0, end as int),
            forall|j: int| start <= j < end ==> path@[j] != '/',
        decreases start,
    {
        start = start - 1;
    }
    proof {
        let stem = path@.subrange(0, end as int);
        lemma_after_suffix(stem, start as int);
        assert(stem.subrange(start as int, stem.len() as int) =~= path@.subrange(
            start as int,
            end as int,
        ));
    }
    let name = path.substring_char(start, end).to_owned();
    let dot_dot = "..".to_owned();
    if name == dot_dot {
        None
    } else {
        Some(name)
    }
}

} // verus!
