//! The traversal engine: a walk consumes one directory listing at a time,
//! aggregating file and directory metadata and recording per-entry failures,
//! until no discovered directory remains unlisted.
//!
//! The engine never performs I/O itself.  A driver lists one directory at a
//! time ([`DirWalker::next_dir`]) and hands the outcome back, either as a
//! full listing ([`DirWalker::feed_listing`]) or as an open failure
//! ([`DirWalker::record_open_error`]).  Every decision about what the
//! listing means is made — and proved — here.

use crate::meta::sum_sizes;
use crate::meta::DirError;
use crate::meta::DirErrorKind;
use crate::meta::DirMetadata;
use crate::meta::FileMetadata;
use crate::utils::Timestamp;
use vstd::prelude::*;
use vstd::string::StringExecFns;

verus! {

/// Which optional capabilities a walk collects; disabling one never changes
/// the control flow or the error accumulation of the others.
#[derive(Clone, Copy, Debug, PartialEq, Eq, Structural)]
pub struct WalkOptions {
    /// Collect file sizes, the summed total, and the read-only/symlink flags.
    pub track_size: bool,
    /// Collect the created/accessed/modified timestamps.
    pub track_times: bool,
    /// Store the detected format tag of each file.
    pub detect_format: bool,
}

impl WalkOptions {
    /// Size or time collection both need one stat of the entry.
    pub open spec fn wants_stat(self) -> bool {
        self.track_size || self.track_times
    }
}

/// What one successful stat of a file reported.
#[derive(Clone, Copy, Debug)]
pub struct StatRecord {
    /// The size of the file in bytes.
    pub size: usize,
    /// Whether the file is read-only.
    pub read_only: bool,
    /// Whether the entry is a symbolic link.
    pub symlink: bool,
    /// When the file was last accessed, if the system supports the query.
    pub accessed: Option<Timestamp>,
    /// When the file was last modified, if the system supports the query.
    pub modified: Option<Timestamp>,
    /// When the file was created, if the system supports the query.
    pub created: Option<Timestamp>,
}

/// One directory entry as the listing reported it.
#[derive(Debug)]
pub struct EntryRecord {
    /// The base name of the entry.
    pub name: String,
    /// The full path of the entry.
    pub path: String,
    /// Whether the entry is a directory, or the failure that kept its type
    /// unknown.
    pub kind: Result<bool, DirErrorKind>,
    /// The format tag detected for the entry, if any was.
    pub format: Option<file_format::FileFormat>,
    /// What a stat of the entry reported, or the failure it ran into.
    pub stat: Result<StatRecord, DirErrorKind>,
}

/// One item a directory listing yielded.
#[derive(Debug)]
pub enum ListingItem {
    /// The listing iterator itself produced an error instead of an entry.
    Failure {
        /// The category of the failure.
        kind: DirErrorKind,
        /// The reported message.
        message: String,
    },
    /// The listing yielded a directory entry.
    Entry(EntryRecord),
}

/// The message recorded when an entry's type cannot be determined.
pub open spec fn classify_error_message(path: Seq<char>) -> Seq<char> {
    "Unable to check if `"@ + path + "` is a directory"@
}

/// The message recorded when an entry's metadata cannot be fetched, and when
/// a discovered directory cannot be opened.
pub open spec fn stat_error_message(path: Seq<char>) -> Seq<char> {
    "Unable to access metadata of file `"@ + path + "`"@
}

/// The file metadata recorded for an entry, given which capabilities the
/// walk collects.
pub open spec fn spec_file_meta(e: EntryRecord, opts: WalkOptions) -> FileMetadata {
    FileMetadata {
        name: e.name,
        path: e.path,
        size: match e.stat {
            Ok(st) => if opts.track_size {
                st.size
            } else {
                0
            },
            Err(_) => 0,
        },
        read_only: opts.track_size && match e.stat {
            Ok(st) => st.read_only,
            Err(_) => false,
        },
        symlink: opts.track_size && match e.stat {
            Ok(st) => st.symlink,
            Err(_) => false,
        },
        created: match e.stat {
            Ok(st) => if opts.track_times {
                st.created
            } else {
                None
            },
            Err(_) => None,
        },
        accessed: match e.stat {
            Ok(st) => if opts.track_times {
                st.accessed
            } else {
                None
            },
            Err(_) => None,
        },
        modified: match e.stat {
            Ok(st) => if opts.track_times {
                st.modified
            } else {
                None
            },
            Err(_) => None,
        },
        file_format: if opts.detect_format {
            e.format
        } else {
            None
        },
    }
}

/// The files a listing contributes, in listing order: every entry that is
/// neither a directory nor of undeterminable type.
pub open spec fn spec_files_of(items: Seq<ListingItem>, opts: WalkOptions) -> Seq<FileMetadata>
    decreases items.len(),
{
    if items.len() == 0 {
        Seq::empty()
    } else {
        let rest = spec_files_of(items.drop_last(), opts);
        match items.last() {
            ListingItem::Entry(e) => match e.kind {
                Ok(is_dir) => if !is_dir {
                    rest.push(spec_file_meta(e, opts))
                } else {
                    rest
                },
                Err(_) => rest,
            },
            ListingItem::Failure { .. } => rest,
        }
    }
}

/// The sub-directory paths a listing contributes, in listing order.
pub open spec fn spec_dirs_of(items: Seq<ListingItem>) -> Seq<String>
    decreases items.len(),
{
    if items.len() == 0 {
        Seq::empty()
    } else {
        let rest = spec_dirs_of(items.drop_last());
        match items.last() {
            ListingItem::Entry(e) => match e.kind {
                Ok(is_dir) => if is_dir {
                    rest.push(e.path)
                } else {
                    rest
                },
                Err(_) => rest,
            },
            ListingItem::Failure { .. } => rest,
        }
    }
}

/// The shape of one recorded error: the affected path, the category, and the
/// message text.
#[verifier::ext_equal]
pub ghost struct ErrModel {
    /// The path the error concerns.
    pub path: Seq<char>,
    /// The category of the failure.
    pub error: DirErrorKind,
    /// The message text.
    pub display: Seq<char>,
}

/// The model of one recorded [`DirError`].
pub open spec fn err_model_of(e: DirError) -> ErrModel {
    ErrModel { path: e.path@, error: e.error, display: e.display@ }
}

/// The models of a whole error list.
pub open spec fn errs_model(es: Seq<DirError>) -> Seq<ErrModel> {
    es.map_values(|e: DirError| err_model_of(e))
}

/// Modelling an error list distributes over appending one error.
proof fn lemma_errs_model_push(es: Seq<DirError>, e: DirError)
    ensures
        errs_model(es.push(e)) == errs_model(es).push(err_model_of(e)),
{
    assert(errs_model(es.push(e)) =~= errs_model(es).push(err_model_of(e)));
}

/// The errors a listing of the directory at `dir` contributes, in listing
/// order: one per unreadable iterator slot, one per entry of undeterminable
/// type, and one per file whose wanted stat failed.
pub open spec fn spec_errors_of(dir: Seq<char>, items: Seq<ListingItem>, opts: WalkOptions) -> Seq<
    ErrModel,
>
    decreases items.len(),
{
    if items.len() == 0 {
        Seq::empty()
    } else {
        let rest = spec_errors_of(dir, items.drop_last(), opts);
        match items.last() {
            ListingItem::Failure { kind, message } => rest.push(
                ErrModel { path: dir, error: kind, display: message@ },
            ),
            ListingItem::Entry(e) => match e.kind {
                Ok(is_dir) => if !is_dir && opts.wants_stat() && e.stat is Err {
                    rest.push(
                        ErrModel {
                            path: e.path@,
                            error: e.stat->Err_0,
                            display: stat_error_message(e.path@),
                        },
                    )
                } else {
                    rest
                },
                Err(k) => rest.push(
                    ErrModel { path: e.path@, error: k, display: classify_error_message(e.path@) },
                ),
            },
        }
    }
}

/// The total size a listing contributes.
pub open spec fn spec_size_of(items: Seq<ListingItem>, opts: WalkOptions) -> int {
    sum_sizes(spec_files_of(items, opts))
}

/// The size one listing item contributes by itself.
pub open spec fn spec_item_size(item: ListingItem, opts: WalkOptions) -> int {
    match item {
        ListingItem::Entry(e) => match e.kind {
            Ok(is_dir) => if !is_dir && opts.track_size && e.stat is Ok {
                e.stat->Ok_0.size as int
            } else {
                0
            },
            Err(_) => 0,
        },
        ListingItem::Failure { .. } => 0,
    }
}

/// Appending one item grows a listing's size contribution by that item's
/// own.
pub proof fn lemma_size_of_push(items: Seq<ListingItem>, x: ListingItem, opts: WalkOptions)
    ensures
        spec_size_of(items.push(x), opts) == spec_size_of(items, opts) + spec_item_size(x, opts),
{
    let p2 = items.push(x);
    assert(p2.drop_last() =~= items);
    match x {
        ListingItem::Entry(e) => {
            match e.kind {
                Ok(is_dir) => {
                    if !is_dir {
                        assert(spec_files_of(p2, opts) == spec_files_of(items, opts).push(
                            spec_file_meta(e, opts),
                        ));
                        assert(spec_files_of(p2, opts).drop_last() =~= spec_files_of(
                            items,
                            opts,
                        ));
                    }
                },
                Err(_) => {},
            }
        },
        ListingItem::Failure { .. } => {},
    }
}

/// How many items of a listing are dropped with an error: unreadable
/// iterator slots and entries of undeterminable type.
pub open spec fn spec_failure_count(items: Seq<ListingItem>) -> int
    decreases items.len(),
{
    if items.len() == 0 {
        0
    } else {
        let rest = spec_failure_count(items.drop_last());
        match items.last() {
            ListingItem::Failure { .. } => rest + 1,
            ListingItem::Entry(e) => match e.kind {
                Ok(_) => rest,
                Err(_) => rest + 1,
            },
        }
    }
}

/// How many files of a listing carry a stat-failure annotation.
pub open spec fn spec_stat_error_count(items: Seq<ListingItem>, opts: WalkOptions) -> int
    decreases items.len(),
{
    if items.len() == 0 {
        0
    } else {
        let rest = spec_stat_error_count(items.drop_last(), opts);
        match items.last() {
            ListingItem::Failure { .. } => rest,
            ListingItem::Entry(e) => match e.kind {
                Ok(is_dir) => if !is_dir && opts.wants_stat() && e.stat is Err {
                    rest + 1
                } else {
                    rest
                },
                Err(_) => rest,
            },
        }
    }
}

/// The whole aggregate state a walk accumulates.
#[verifier::ext_equal]
pub ghost struct WalkState {
    /// Every file recorded so far, in discovery order.
    pub files: Seq<FileMetadata>,
    /// Every directory discovered so far, in discovery order.
    pub dirs: Seq<String>,
    /// The summed size of the recorded files.
    pub size: int,
    /// Every error recorded so far, in discovery order.
    pub errors: Seq<ErrModel>,
    /// The directories discovered but not yet listed; the next one is last.
    pub pending: Seq<String>,
}

/// One interaction the walk's driver reports: either a full listing of the
/// next pending directory, or the failure to open it.
pub ghost enum FeedEvent {
    /// The next pending directory was listed and yielded these items.
    Listing(Seq<ListingItem>),
    /// The next pending directory could not be opened.
    OpenError(DirErrorKind),
}

/// How one reported event transforms the walk state: the next pending
/// directory is consumed; a listing appends its files, directories, size and
/// errors and queues the discovered directories depth first; an open failure
/// appends one error.
pub open spec fn spec_step(m: WalkState, opts: WalkOptions, ev: FeedEvent) -> WalkState {
    if m.pending.len() == 0 {
        m
    } else {
        let dir = m.pending.last();
        match ev {
            FeedEvent::Listing(items) => WalkState {
                files: m.files + spec_files_of(items, opts),
                dirs: m.dirs + spec_dirs_of(items),
                size: m.size + spec_size_of(items, opts),
                errors: m.errors + spec_errors_of(dir@, items, opts),
                pending: m.pending.drop_last() + spec_dirs_of(items).reverse(),
            },
            FeedEvent::OpenError(kind) => WalkState {
                errors: m.errors.push(
                    ErrModel { path: dir@, error: kind, display: stat_error_message(dir@) },
                ),
                pending: m.pending.drop_last(),
                ..m
            },
        }
    }
}

/// The walk state after a whole sequence of reported events.
pub open spec fn spec_run(init: WalkState, opts: WalkOptions, evs: Seq<FeedEvent>) -> WalkState
    decreases evs.len(),
{
    if evs.len() == 0 {
        init
    } else {
        spec_step(spec_run(init, opts, evs.drop_last()), opts, evs.last())
    }
}

/// The sum of no sizes is zero and sizes never subtract: a sum is never
/// negative.
pub proof fn lemma_sum_sizes_nonneg(files: Seq<FileMetadata>)
    ensures
        sum_sizes(files) >= 0,
    decreases files.len(),
{
    if files.len() > 0 {
        lemma_sum_sizes_nonneg(files.drop_last());
    }
}

/// Summing sizes distributes over appending file sequences.
pub proof fn lemma_sum_sizes_append(a: Seq<FileMetadata>, b: Seq<FileMetadata>)
    ensures
        sum_sizes(a + b) == sum_sizes(a) + sum_sizes(b),
    decreases b.len(),
{
    if b.len() == 0 {
        assert(a + b =~= a);
    } else {
        let b1 = b.drop_last();
        lemma_sum_sizes_append(a, b1);
        assert((a + b).drop_last() =~= a + b1);
        assert((a + b).last() == b.last());
    }
}

/// Appending one element after an appended pair is appending it to the
/// second part.
proof fn lemma_push_through_append<A>(a: Seq<A>, b: Seq<A>, x: A)
    ensures
        a + b.push(x) == (a + b).push(x),
{
    assert(a + b.push(x) =~= (a + b).push(x));
}

/// What two listings contribute in sequence is what each contributes, in
/// order: every per-listing model distributes over appending.
pub proof fn lemma_model_append(
    a: Seq<ListingItem>,
    b: Seq<ListingItem>,
    dir: Seq<char>,
    opts: WalkOptions,
)
    ensures
        spec_files_of(a + b, opts) == spec_files_of(a, opts) + spec_files_of(b, opts),
        spec_dirs_of(a + b) == spec_dirs_of(a) + spec_dirs_of(b),
        spec_errors_of(dir, a + b, opts) == spec_errors_of(dir, a, opts) + spec_errors_of(
            dir,
            b,
            opts,
        ),
        spec_size_of(a + b, opts) == spec_size_of(a, opts) + spec_size_of(b, opts),
        spec_failure_count(a + b) == spec_failure_count(a) + spec_failure_count(b),
        spec_stat_error_count(a + b, opts) == spec_stat_error_count(a, opts)
            + spec_stat_error_count(b, opts),
    decreases b.len(),
{
    if b.len() == 0 {
        assert(a + b =~= a);
        assert(spec_files_of(a, opts) + spec_files_of(b, opts) =~= spec_files_of(a, opts));
        assert(spec_dirs_of(a) + spec_dirs_of(b) =~= spec_dirs_of(a));
        assert(spec_errors_of(dir, a, opts) + spec_errors_of(dir, b, opts) =~= spec_errors_of(
            dir,
            a,
            opts,
        ));
    } else {
        let b1 = b.drop_last();
        let x = b.last();
        lemma_model_append(a, b1, dir, opts);
        assert((a + b).drop_last() =~= a + b1);
        assert((a + b).last() == x);
        match x {
            ListingItem::Failure { kind, message } => {
                lemma_push_through_append(
                    spec_errors_of(dir, a, opts),
                    spec_errors_of(dir, b1, opts),
                    ErrModel { path: dir, error: kind, display: message@ },
                );
            },
            ListingItem::Entry(e) => {
                match e.kind {
                    Ok(is_dir) => {
                        if is_dir {
                            lemma_push_through_append(spec_dirs_of(a), spec_dirs_of(b1), e.path);
                        } else {
                            lemma_push_through_append(
                                spec_files_of(a, opts),
                                spec_files_of(b1, opts),
                                spec_file_meta(e, opts),
                            );
                            if opts.wants_stat() && e.stat is Err {
                                lemma_push_through_append(
                                    spec_errors_of(dir, a, opts),
                                    spec_errors_of(dir, b1, opts),
                                    ErrModel {
                                        path: e.path@,
                                        error: e.stat->Err_0,
                                        display: stat_error_message(e.path@),
                                    },
                                );
                            }
                        }
                    },
                    Err(k) => {
                        lemma_push_through_append(
                            spec_errors_of(dir, a, opts),
                            spec_errors_of(dir, b1, opts),
                            ErrModel {
                                path: e.path@,
                                error: k,
                                display: classify_error_message(e.path@),
                            },
                        );
                    },
                }
            },
        }
        lemma_sum_sizes_append(spec_files_of(a, opts), spec_files_of(b, opts));
    }
}

/// How much one listing item will add to the walk's total size.
fn item_contribution(item: &ListingItem, opts: WalkOptions) -> (c: usize)
    ensures
        c as int == spec_item_size(*item, opts),
{
    match item {
        ListingItem::Entry(e) => match e.kind {
            Ok(is_dir) => if !is_dir && opts.track_size {
                match e.stat {
                    Ok(st) => st.size,
                    Err(_) => 0,
                }
            } else {
                0
            },
            Err(_) => 0,
        },
        ListingItem::Failure { .. } => 0,
    }
}

/// The traversal engine's state: the accumulating result, the directories
/// still to list, and a ghost record of everything the driver has reported.
pub struct DirWalker {
    /// The accumulating result.
    pub meta: DirMetadata,
    /// Directories discovered but not yet listed; the next to visit is last.
    pub pending: Vec<String>,
    /// Which capabilities this walk collects.
    pub options: WalkOptions,
    /// Every event the driver has reported so far.
    pub history: Ghost<Seq<FeedEvent>>,
    /// The state the walk started from.
    pub start_state: Ghost<WalkState>,
}

impl DirWalker {
    /// The aggregate state this walker has reached.
    pub open spec fn model(self) -> WalkState {
        WalkState {
            files: self.meta.files@,
            dirs: self.meta.directories@,
            size: self.meta.size as int,
            errors: errs_model(self.meta.errors@),
            pending: self.pending@,
        }
    }

    /// The walker's state is exactly the replay of its recorded history, and
    /// the summed size matches the recorded files.
    pub open spec fn wf(self) -> bool {
        &&& self.model() == spec_run(self.start_state@, self.options, self.history@)
        &&& self.meta.size_invariant()
    }

    /// Begin a walk of the tree rooted at `meta.path`: the root directory is
    /// the first one to list.
    pub fn start(meta: DirMetadata, options: WalkOptions) -> (r: Self)
        requires
            meta.size_invariant(),
        ensures
            r.wf(),
            r.meta == meta,
            r.options == options,
            r.pending@.len() == 1,
            r.pending@[0] == meta.path,
            r.history@ == Seq::<FeedEvent>::empty(),
            r.start_state@ == r.model(),
    {
        let mut pending: Vec<String> = Vec::new();
        pending.push(meta.path.clone());
        let ghost init = WalkState {
            files: meta.files@,
            dirs: meta.directories@,
            size: meta.size as int,
            errors: errs_model(meta.errors@),
            pending: pending@,
        };
        let r = DirWalker {
            meta,
            pending,
            options,
            history: Ghost(Seq::empty()),
            start_state: Ghost(init),
        };
        proof {
            assert(r.model() =~= init);
        }
        r
    }

    /// The next directory to list, if any remains.
    pub fn next_dir(&self) -> (r: Option<String>)
        ensures
            match r {
                Some(d) => self.pending@.len() > 0 && d == self.pending@.last(),
                None => self.pending@.len() == 0,
            },
    {
        if self.pending.len() == 0 {
            None
        } else {
            Some(self.pending[self.pending.len() - 1].clone())
        }
    }

    /// Consume the next pending directory, folding one full listing of it
    /// into the result: files, sub-directories and failures are appended in
    /// listing order, the total size grows by the listed files' sizes, and
    /// each discovered sub-directory queues for its own listing, depth
    /// first.
    pub fn feed_listing(&mut self, items: Vec<ListingItem>)
        requires
            old(self).wf(),
            old(self).pending@.len() > 0,
            old(self).meta.size as int + spec_size_of(items@, old(self).options)
                <= usize::MAX as int,
        ensures
            final(self).wf(),
            final(self).options == old(self).options,
            final(self).start_state@ == old(self).start_state@,
            final(self).meta.name == old(self).meta.name,
            final(self).meta.path == old(self).meta.path,
            final(self).history@ == old(self).history@.push(FeedEvent::Listing(items@)),
            final(self).model() == spec_step(
                old(self).model(),
                old(self).options,
                FeedEvent::Listing(items@),
            ),
    {
        let ghost w0 = *self;
        let ghost orig = items@;
        let opts = self.options;
        let dir = self.pending.pop().unwrap();
        let mut items = items;
        let mut level_dirs: Vec<String> = Vec::new();
        let ghost mut processed: Seq<ListingItem> = Seq::empty();
        proof {
            assert(self.pending@ =~= w0.pending@.drop_last());
            assert(orig =~= processed + items@);
            assert(self.meta.files@ =~= w0.meta.files@ + spec_files_of(processed, opts));
            assert(self.meta.directories@ =~= w0.meta.directories@ + spec_dirs_of(processed));
            assert(errs_model(self.meta.errors@) =~= errs_model(w0.meta.errors@) + spec_errors_of(
                dir@,
                processed,
                opts,
            ));
            assert(level_dirs@ =~= spec_dirs_of(processed));
        }
        while items.len() > 0
            invariant
                orig == processed + items@,
                opts == w0.options,
                self.options == w0.options,
                self.history@ == w0.history@,
                self.start_state@ == w0.start_state@,
                self.meta.name == w0.meta.name,
                self.meta.path == w0.meta.path,
                self.pending@ == w0.pending@.drop_last(),
                w0.pending@.len() > 0,
                dir == w0.pending@.last(),
                self.meta.files@ == w0.meta.files@ + spec_files_of(processed, opts),
                self.meta.directories@ == w0.meta.directories@ + spec_dirs_of(processed),
                self.meta.size as int == w0.meta.size as int + spec_size_of(processed, opts),
                errs_model(self.meta.errors@) == errs_model(w0.meta.errors@) + spec_errors_of(
                    dir@,
                    processed,
                    opts,
                ),
                level_dirs@ == spec_dirs_of(processed),
                w0.meta.size as int + spec_size_of(orig, opts) <= usize::MAX as int,
                w0.meta.size_invariant(),
            decreases items@.len(),
        {
            let ghost rest_before = items@;
            let item = items.remove(0);
            let ghost item_g = item;
            let ghost p2 = processed.push(item_g);
            proof {
                assert(items@ =~= rest_before.drop_first());
                assert(processed + rest_before =~= p2 + items@);
                assert(p2.drop_last() =~= processed);
            }
            match item {
                ListingItem::Failure { kind, message } => {
                    let ghost msg_g = message@;
                    let ghost errs0 = self.meta.errors@;
                    let err = DirError { path: dir.clone(), error: kind, display: message };
                    let ghost err_g = err;
                    self.meta.errors.push(err);
                    proof {
                        assert(spec_files_of(p2, opts) == spec_files_of(processed, opts));
                        assert(spec_dirs_of(p2) == spec_dirs_of(processed));
                        let m = ErrModel { path: dir@, error: kind, display: msg_g };
                        assert(err_model_of(err_g) == m);
                        assert(spec_errors_of(dir@, p2, opts) =~= spec_errors_of(
                            dir@,
                            processed,
                            opts,
                        ).push(m));
                        lemma_errs_model_push(errs0, err_g);
                        lemma_push_through_append(
                            errs_model(w0.meta.errors@),
                            spec_errors_of(dir@, processed, opts),
                            m,
                        );
                        assert(errs_model(self.meta.errors@) == errs_model(w0.meta.errors@)
                            + spec_errors_of(dir@, p2, opts));
                    }
                },
                ListingItem::Entry(e) => {
                    let ghost e_g = e;
                    match e.kind {
                        Err(classify_kind) => {
                            let mut msg = "Unable to check if `".to_owned();
                            msg.append(e.path.as_str());
                            msg.append("` is a directory");
                            let ghost errs0 = self.meta.errors@;
                            let err = DirError {
                                path: e.path,
                                error: classify_kind,
                                display: msg,
                            };
                            let ghost err_g = err;
                            self.meta.errors.push(err);
                            proof {
                                assert(spec_files_of(p2, opts) == spec_files_of(processed, opts));
                                assert(spec_dirs_of(p2) == spec_dirs_of(processed));
                                let m = ErrModel {
                                    path: e_g.path@,
                                    error: classify_kind,
                                    display: classify_error_message(e_g.path@),
                                };
                                assert(err_model_of(err_g) == m);
                                assert(spec_errors_of(dir@, p2, opts) =~= spec_errors_of(
                                    dir@,
                                    processed,
                                    opts,
                                ).push(m));
                                lemma_errs_model_push(errs0, err_g);
                                lemma_push_through_append(
                                    errs_model(w0.meta.errors@),
                                    spec_errors_of(dir@, processed, opts),
                                    m,
                                );
                                assert(errs_model(self.meta.errors@) == errs_model(
                                    w0.meta.errors@,
                                ) + spec_errors_of(dir@, p2, opts));
                            }
                        },
                        Ok(is_dir) => {
                            if is_dir {
                                self.meta.directories.push(e.path.clone());
                                level_dirs.push(e.path);
                                proof {
                                    assert(spec_files_of(p2, opts) == spec_files_of(
                                        processed,
                                        opts,
                                    ));
                                    assert(spec_errors_of(dir@, p2, opts) == spec_errors_of(
                                        dir@,
                                        processed,
                                        opts,
                                    ));
                                    assert(spec_dirs_of(p2) =~= spec_dirs_of(processed).push(
                                        e_g.path,
                                    ));
                                    assert(self.meta.directories@ =~= w0.meta.directories@
                                        + spec_dirs_of(p2));
                                    assert(level_dirs@ =~= spec_dirs_of(p2));
                                }
                            } else {
                                let wants = self.options.track_size || self.options.track_times;
                                if wants {
                                    match e.stat {
                                        Err(stat_kind) => {
                                            let mut msg =
                                                "Unable to access metadata of file `".to_owned();
                                            msg.append(e.path.as_str());
                                            msg.append("`");
                                            let ghost errs0 = self.meta.errors@;
                                            let err = DirError {
                                                path: e.path.clone(),
                                                error: stat_kind,
                                                display: msg,
                                            };
                                            let ghost err_g = err;
                                            self.meta.errors.push(err);
                                            proof {
                                                let m = ErrModel {
                                                    path: e_g.path@,
                                                    error: stat_kind,
                                                    display: stat_error_message(e_g.path@),
                                                };
                                                assert(err_model_of(err_g) == m);
                                                assert(spec_errors_of(dir@, p2, opts)
                                                    =~= spec_errors_of(
                                                    dir@,
                                                    processed,
                                                    opts,
                                                ).push(m));
                                                lemma_errs_model_push(errs0, err_g);
                                                lemma_push_through_append(
                                                    errs_model(w0.meta.errors@),
                                                    spec_errors_of(dir@, processed, opts),
                                                    m,
                                                );
                                                assert(errs_model(self.meta.errors@)
                                                    == errs_model(w0.meta.errors@)
                                                    + spec_errors_of(dir@, p2, opts));
                                            }
                                        },
                                        Ok(_) => {
                                            proof {
                                                assert(spec_errors_of(dir@, p2, opts)
                                                    == spec_errors_of(dir@, processed, opts));
                                            }
                                        },
                                    }
                                } else {
                                    proof {
                                        assert(spec_errors_of(dir@, p2, opts) == spec_errors_of(
                                            dir@,
                                            processed,
                                            opts,
                                        ));
                                    }
                                }
                                let mut fsize: usize = 0;
                                let mut read_only = false;
                                let mut symlink = false;
                                let mut accessed: Option<Timestamp> = None;
                                let mut modified: Option<Timestamp> = None;
                                let mut created: Option<Timestamp> = None;
                                match e.stat {
                                    Ok(st) => {
                                        if self.options.track_size {
                                            fsize = st.size;
                                            read_only = st.read_only;
                                            symlink = st.symlink;
                                        }
                                        if self.options.track_times {
                                            accessed = st.accessed;
                                            modified = st.modified;
                                            created = st.created;
                                        }
                                    },
                                    Err(_) => {},
                                }
                                let format = if self.options.detect_format {
                                    e.format
                                } else {
                                    None
                                };
                                let fm = FileMetadata {
                                    name: e.name,
                                    path: e.path,
                                    size: fsize,
                                    read_only,
                                    symlink,
                                    created,
                                    accessed,
                                    modified,
                                    file_format: format,
                                };
                                proof {
                                    assert(fm == spec_file_meta(e_g, opts));
                                    assert(spec_files_of(p2, opts) =~= spec_files_of(
                                        processed,
                                        opts,
                                    ).push(fm));
                                    assert(spec_dirs_of(p2) == spec_dirs_of(processed));
                                    assert(spec_files_of(p2, opts).drop_last() =~= spec_files_of(
                                        processed,
                                        opts,
                                    ));
                                    assert(sum_sizes(spec_files_of(p2, opts)) == sum_sizes(
                                        spec_files_of(processed, opts),
                                    ) + fsize);
                                    lemma_model_append(p2, items@, dir@, opts);
                                    lemma_sum_sizes_nonneg(spec_files_of(items@, opts));
                                    assert(orig =~= p2 + items@);
                                    assert(self.meta.size as int + fsize <= usize::MAX as int);
                                }
                                self.meta.size = self.meta.size + fsize;
                                self.meta.files.push(fm);
                                proof {
                                    assert(self.meta.files@ =~= w0.meta.files@ + spec_files_of(
                                        p2,
                                        opts,
                                    ));
                                }
                            }
                        },
                    }
                },
            }
            proof {
                processed = p2;
            }
        }
        proof {
            assert(processed =~= orig);
        }
        let ghost mid_meta = self.meta;
        let ghost dirs_all = spec_dirs_of(orig);
        proof {
            assert(dirs_all.skip(dirs_all.len() as int).reverse() =~= Seq::<String>::empty());
            assert(self.pending@ =~= w0.pending@.drop_last() + dirs_all.skip(
                dirs_all.len() as int,
            ).reverse());
            assert(level_dirs@ =~= dirs_all.take(level_dirs@.len() as int));
        }
        while level_dirs.len() > 0
            invariant
                level_dirs@.len() <= dirs_all.len(),
                level_dirs@ == dirs_all.take(level_dirs@.len() as int),
                self.pending@ == w0.pending@.drop_last() + dirs_all.skip(
                    level_dirs@.len() as int,
                ).reverse(),
                self.options == w0.options,
                self.history@ == w0.history@,
                self.start_state@ == w0.start_state@,
                self.meta == mid_meta,
            decreases level_dirs@.len(),
        {
            let ghost j = level_dirs@.len() as int;
            let d = level_dirs.pop().unwrap();
            self.pending.push(d);
            proof {
                assert(level_dirs@ =~= dirs_all.take(j - 1));
                assert(d == dirs_all[j - 1]);
                assert(dirs_all.skip(j - 1).reverse() =~= dirs_all.skip(j).reverse().push(
                    dirs_all[j - 1],
                ));
                assert(self.pending@ =~= w0.pending@.drop_last() + dirs_all.skip(
                    j - 1,
                ).reverse());
            }
        }
        self.history = Ghost(w0.history@.push(FeedEvent::Listing(orig)));
        proof {
            assert(dirs_all.skip(0) =~= dirs_all);
            let m0 = w0.model();
            let mstep = spec_step(m0, opts, FeedEvent::Listing(orig));
            assert(m0.pending.len() > 0);
            assert(self.model().files =~= mstep.files);
            assert(self.model().dirs =~= mstep.dirs);
            assert(self.model().errors =~= mstep.errors);
            assert(self.model().pending =~= mstep.pending);
            assert(self.model() =~= mstep);
            let h2 = w0.history@.push(FeedEvent::Listing(orig));
            assert(h2.drop_last() =~= w0.history@);
            lemma_sum_sizes_append(w0.meta.files@, spec_files_of(orig, opts));
        }
    }

    /// Like [`Self::feed_listing`], with the overflow bound tested at run
    /// time: when folding the listing in would push the total size past what
    /// a `usize` holds, nothing changes and `false` comes back.
    pub fn try_feed_listing(&mut self, items: Vec<ListingItem>) -> (ok: bool)
        requires
            old(self).wf(),
            old(self).pending@.len() > 0,
        ensures
            final(self).wf(),
            ok == (old(self).meta.size as int + spec_size_of(items@, old(self).options)
                <= usize::MAX as int),
            ok ==> ({
                &&& final(self).history@ == old(self).history@.push(FeedEvent::Listing(items@))
                &&& final(self).model() == spec_step(
                    old(self).model(),
                    old(self).options,
                    FeedEvent::Listing(items@),
                )
                &&& final(self).options == old(self).options
                &&& final(self).start_state@ == old(self).start_state@
                &&& final(self).meta.name == old(self).meta.name
                &&& final(self).meta.path == old(self).meta.path
            }),
            !ok ==> *final(self) == *old(self),
    {
        let ghost orig = items@;
        let opts = self.options;
        let n = items.len();
        let mut total: usize = 0;
        let mut fits = true;
        let mut i: usize = 0;
        while i < n
            invariant
                i <= n,
                n == items@.len(),
                opts == self.options,
                fits ==> total as int == spec_size_of(items@.take(i as int), opts),
                !fits ==> spec_size_of(items@.take(i as int), opts) > usize::MAX as int,
            decreases n - i,
        {
            let ghost prefix = items@.take(i as int);
            let ghost prefix2 = items@.take(i as int + 1);
            proof {
                assert(prefix2.drop_last() =~= prefix);
            }
            let contribution = item_contribution(&items[i], opts);
            proof {
                assert(prefix2 =~= prefix.push(items@[i as int]));
                lemma_size_of_push(prefix, items@[i as int], opts);
                assert(spec_size_of(prefix2, opts) == spec_size_of(prefix, opts) + contribution);
            }
            if fits {
                match total.checked_add(contribution) {
                    Some(t) => {
                        total = t;
                    },
                    None => {
                        fits = false;
                    },
                }
            }
            i += 1;
        }
        proof {
            assert(items@.take(n as int) =~= items@);
        }
        if !fits {
            return false;
        }
        match self.meta.size.checked_add(total) {
            Some(_) => {
                self.feed_listing(items);
                true
            },
            None => false,
        }
    }

    /// Consume the next pending directory as unopenable, recording one error
    /// for it; its contents stay unexplored.
    pub fn record_open_error(&mut self, kind: DirErrorKind)
        requires
            old(self).wf(),
            old(self).pending@.len() > 0,
        ensures
            final(self).wf(),
            final(self).options == old(self).options,
            final(self).start_state@ == old(self).start_state@,
            final(self).meta.name == old(self).meta.name,
            final(self).meta.path == old(self).meta.path,
            final(self).history@ == old(self).history@.push(FeedEvent::OpenError(kind)),
            final(self).model() == spec_step(
                old(self).model(),
                old(self).options,
                FeedEvent::OpenError(kind),
            ),
    {
        let ghost w0 = *self;
        let dir = self.pending.pop().unwrap();
        let mut msg = "Unable to access metadata of file `".to_owned();
        msg.append(dir.as_str());
        msg.append("`");
        let err = DirError { path: dir, error: kind, display: msg };
        self.meta.errors.push(err);
        self.history = Ghost(w0.history@.push(FeedEvent::OpenError(kind)));
        proof {
            let m0 = w0.model();
            let mstep = spec_step(m0, self.options, FeedEvent::OpenError(kind));
            assert(self.pending@ =~= w0.pending@.drop_last());
            assert(errs_model(self.meta.errors@) =~= errs_model(w0.meta.errors@).push(
                ErrModel {
                    path: w0.pending@.last()@,
                    error: kind,
                    display: stat_error_message(w0.pending@.last()@),
                },
            ));
            assert(self.model() =~= mstep);
            let h2 = w0.history@.push(FeedEvent::OpenError(kind));
            assert(h2.drop_last() =~= w0.history@);
        }
    }

    /// Hand the finished result over; the walk is complete once no pending
    /// directory remains.
    pub fn finish(self) -> (r: DirMetadata)
        requires
            self.wf(),
        ensures
            r == self.meta,
            r.size_invariant(),
    {
        self.meta
    }
}

/// Law: a walk's total size always equals the sum of its recorded file
/// sizes, whatever sequence of listings and open failures drives it.
pub proof fn lemma_total_size_is_sum(init: WalkState, opts: WalkOptions, evs: Seq<FeedEvent>)
    requires
        init.size == sum_sizes(init.files),
    ensures
        spec_run(init, opts, evs).size == sum_sizes(spec_run(init, opts, evs).files),
    decreases evs.len(),
{
    if evs.len() > 0 {
        lemma_total_size_is_sum(init, opts, evs.drop_last());
        let m = spec_run(init, opts, evs.drop_last());
        match evs.last() {
            FeedEvent::Listing(items) => {
                if m.pending.len() > 0 {
                    lemma_sum_sizes_append(m.files, spec_files_of(items, opts));
                }
            },
            FeedEvent::OpenError(_) => {},
        }
    }
}

/// Law: a listing partitions into the walk's buckets with nothing lost and
/// nothing counted twice — each item becomes exactly one file, one
/// discovered directory, or one dropped-with-error record, and the recorded
/// errors are exactly those drops plus one stat annotation per file whose
/// wanted stat failed.
pub proof fn lemma_listing_partition(dir: Seq<char>, items: Seq<ListingItem>, opts: WalkOptions)
    ensures
        spec_files_of(items, opts).len() + spec_dirs_of(items).len() + spec_failure_count(items)
            == items.len(),
        spec_errors_of(dir, items, opts).len() == spec_failure_count(items)
            + spec_stat_error_count(items, opts),
    decreases items.len(),
{
    if items.len() > 0 {
        lemma_listing_partition(dir, items.drop_last(), opts);
    }
}


/// Law: the collection toggles are orthogonal — which entries become files
/// and which become directories never depends on them, two option sets that
/// want a stat alike record identical errors, and each recorded field
/// follows its own flag alone.
pub proof fn lemma_options_orthogonal(
    dir: Seq<char>,
    items: Seq<ListingItem>,
    opts1: WalkOptions,
    opts2: WalkOptions,
)
    requires
        opts1.wants_stat() == opts2.wants_stat(),
    ensures
        spec_errors_of(dir, items, opts1) == spec_errors_of(dir, items, opts2),
        spec_files_of(items, opts1).len() == spec_files_of(items, opts2).len(),
        forall|i: int|
            #![trigger spec_files_of(items, opts1)[i]]
            0 <= i < spec_files_of(items, opts1).len() ==> ({
                let f1 = spec_files_of(items, opts1)[i];
                let f2 = spec_files_of(items, opts2)[i];
                &&& f1.name == f2.name
                &&& f1.path == f2.path
                &&& opts1.track_size == opts2.track_size ==> f1.size == f2.size
                    && f1.read_only == f2.read_only && f1.symlink == f2.symlink
                &&& opts1.track_times == opts2.track_times ==> f1.accessed == f2.accessed
                    && f1.modified == f2.modified && f1.created == f2.created
                &&& opts1.detect_format == opts2.detect_format ==> f1.file_format
                    == f2.file_format
            }),
    decreases items.len(),
{
    if items.len() > 0 {
        let shorter = items.drop_last();
        lemma_options_orthogonal(dir, shorter, opts1, opts2);
        let r1 = spec_files_of(shorter, opts1);
        let r2 = spec_files_of(shorter, opts2);
        let g1 = spec_files_of(items, opts1);
        let g2 = spec_files_of(items, opts2);
        assert forall|i: int|
            #![trigger g1[i]]
            0 <= i < g1.len() implies ({
            let f1 = g1[i];
            let f2 = g2[i];
            &&& f1.name == f2.name
            &&& f1.path == f2.path
            &&& opts1.track_size == opts2.track_size ==> f1.size == f2.size && f1.read_only
                == f2.read_only && f1.symlink == f2.symlink
            &&& opts1.track_times == opts2.track_times ==> f1.accessed == f2.accessed
                && f1.modified == f2.modified && f1.created == f2.created
            &&& opts1.detect_format == opts2.detect_format ==> f1.file_format == f2.file_format
        }) by {
            if i < r1.len() {
                assert(g1[i] == r1[i]);
                assert(g2[i] == r2[i]);
                assert(0 <= i < r1.len());
                assert(r1[i] == spec_files_of(shorter, opts1)[i]);
            }
        }
    }
}

/// Law: walking is deterministic — equal starting states driven by equal
/// event sequences end in equal states, so repeating a walk over an
/// unchanged tree reproduces its files, directories and errors exactly.
pub proof fn lemma_walk_deterministic(
    init1: WalkState,
    init2: WalkState,
    opts: WalkOptions,
    evs1: Seq<FeedEvent>,
    evs2: Seq<FeedEvent>,
)
    requires
        init1 == init2,
        evs1 == evs2,
    ensures
        spec_run(init1, opts, evs1) == spec_run(init2, opts, evs2),
{
}


} // verus!
