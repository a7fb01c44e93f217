use dir_meta::base_name;
use dir_meta::DirErrorKind;
use dir_meta::DirMetadata;
use dir_meta::DirWalker;
use dir_meta::EntryRecord;
use dir_meta::ListingItem;
use dir_meta::StatRecord;
use dir_meta::Timestamp;
use dir_meta::WalkOptions;
use dir_meta::utils::TAI64_UNIX_EPOCH_SECS;

fn opts_all() -> WalkOptions {
    WalkOptions { track_size: true, track_times: true, detect_format: true }
}

fn plain_stat(size: usize) -> StatRecord {
    StatRecord {
        size,
        read_only: false,
        symlink: false,
        accessed: None,
        modified: None,
        created: None,
    }
}

fn file_entry(name: &str, path: &str, size: usize) -> ListingItem {
    ListingItem::Entry(EntryRecord {
        name: name.to_string(),
        path: path.to_string(),
        kind: Ok(false),
        format: None,
        stat: Ok(plain_stat(size)),
    })
}

fn dir_entry(name: &str, path: &str) -> ListingItem {
    ListingItem::Entry(EntryRecord {
        name: name.to_string(),
        path: path.to_string(),
        kind: Ok(true),
        format: None,
        stat: Ok(plain_stat(0)),
    })
}

#[test]
fn scenario_two_files_one_subdir() {
    let meta = DirMetadata::new("root");
    let mut w = DirWalker::start(meta, opts_all());
    assert_eq!(w.next_dir(), Some("root".to_string()));
    w.feed_listing(vec![
        file_entry("a.txt", "root/a.txt", 5),
        dir_entry("sub", "root/sub"),
    ]);
    assert_eq!(w.next_dir(), Some("root/sub".to_string()));
    w.feed_listing(vec![file_entry("b.txt", "root/sub/b.txt", 10)]);
    assert_eq!(w.next_dir(), None);
    let out = w.finish();
    assert_eq!(out.files().len(), 2);
    assert_eq!(out.files()[0].name(), "a.txt");
    assert_eq!(out.files()[0].path(), "root/a.txt");
    assert_eq!(out.files()[0].size(), 5);
    assert_eq!(out.files()[1].name(), "b.txt");
    assert_eq!(out.files()[1].path(), "root/sub/b.txt");
    assert_eq!(out.files()[1].size(), 10);
    assert_eq!(out.directories(), &vec!["root/sub".to_string()]);
    assert_eq!(out.size(), 15);
    assert!(out.errors().is_empty());
    assert_eq!(out.dir_name(), "root");
    assert_eq!(out.dir_path(), "root");
}

#[test]
fn scenario_permission_denied_subdir() {
    let meta = DirMetadata::new("root");
    let mut w = DirWalker::start(meta, opts_all());
    assert_eq!(w.next_dir(), Some("root".to_string()));
    w.feed_listing(vec![dir_entry("locked", "root/locked")]);
    assert_eq!(w.next_dir(), Some("root/locked".to_string()));
    w.record_open_error(DirErrorKind::PermissionDenied);
    assert_eq!(w.next_dir(), None);
    let out = w.finish();
    assert!(out.files().is_empty());
    assert_eq!(out.directories(), &vec!["root/locked".to_string()]);
    assert_eq!(out.errors().len(), 1);
    assert_eq!(out.errors()[0].path, "root/locked");
    assert_eq!(out.errors()[0].error, DirErrorKind::PermissionDenied);
    assert_eq!(
        out.errors()[0].display,
        "Unable to access metadata of file `root/locked`"
    );
    assert_eq!(out.size(), 0);
}

#[test]
fn empty_directory_yields_empty_result() {
    let meta = DirMetadata::new("root");
    let mut w = DirWalker::start(meta, opts_all());
    assert_eq!(w.next_dir(), Some("root".to_string()));
    w.feed_listing(Vec::new());
    assert_eq!(w.next_dir(), None);
    let out = w.finish();
    assert!(out.files().is_empty());
    assert!(out.directories().is_empty());
    assert!(out.errors().is_empty());
    assert_eq!(out.size(), 0);
}

#[test]
fn depth_first_visit_order() {
    let meta = DirMetadata::new("root");
    let mut w = DirWalker::start(meta, opts_all());
    assert_eq!(w.next_dir(), Some("root".to_string()));
    w.feed_listing(vec![
        dir_entry("d1", "root/d1"),
        dir_entry("d2", "root/d2"),
    ]);
    assert_eq!(w.next_dir(), Some("root/d1".to_string()));
    w.feed_listing(vec![dir_entry("d3", "root/d1/d3")]);
    assert_eq!(w.next_dir(), Some("root/d1/d3".to_string()));
    w.feed_listing(Vec::new());
    assert_eq!(w.next_dir(), Some("root/d2".to_string()));
    w.feed_listing(Vec::new());
    assert_eq!(w.next_dir(), None);
    let out = w.finish();
    assert_eq!(
        out.directories(),
        &vec![
            "root/d1".to_string(),
            "root/d2".to_string(),
            "root/d1/d3".to_string()
        ]
    );
}

#[test]
fn every_item_lands_in_exactly_one_bucket() {
    let meta = DirMetadata::new("root");
    let mut w = DirWalker::start(meta, opts_all());
    w.feed_listing(vec![
        ListingItem::Failure {
            kind: DirErrorKind::Other,
            message: "iterator broke".to_string(),
        },
        ListingItem::Entry(EntryRecord {
            name: "ghost".to_string(),
            path: "root/ghost".to_string(),
            kind: Err(DirErrorKind::PermissionDenied),
            format: None,
            stat: Ok(plain_stat(3)),
        }),
        dir_entry("sub", "root/sub"),
        ListingItem::Entry(EntryRecord {
            name: "f.bin".to_string(),
            path: "root/f.bin".to_string(),
            kind: Ok(false),
            format: None,
            stat: Err(DirErrorKind::NotFound),
        }),
    ]);
    assert_eq!(w.next_dir(), Some("root/sub".to_string()));
    w.feed_listing(Vec::new());
    let out = w.finish();

    // one file, one directory, and one error per failed item
    assert_eq!(out.files().len(), 1);
    assert_eq!(out.directories().len(), 1);
    assert_eq!(out.errors().len(), 3);

    // the iterator failure keeps the reported message and the listed path
    assert_eq!(out.errors()[0].path, "root");
    assert_eq!(out.errors()[0].error, DirErrorKind::Other);
    assert_eq!(out.errors()[0].display, "iterator broke");

    // the unclassifiable entry is dropped with its own message
    assert_eq!(out.errors()[1].path, "root/ghost");
    assert_eq!(out.errors()[1].error, DirErrorKind::PermissionDenied);
    assert_eq!(
        out.errors()[1].display,
        "Unable to check if `root/ghost` is a directory"
    );
    assert!(out.get_file("ghost").is_empty());

    // the file whose stat failed is kept with absent fields plus one error
    assert_eq!(out.errors()[2].path, "root/f.bin");
    assert_eq!(out.errors()[2].error, DirErrorKind::NotFound);
    assert_eq!(
        out.errors()[2].display,
        "Unable to access metadata of file `root/f.bin`"
    );
    assert_eq!(out.files()[0].name(), "f.bin");
    assert_eq!(out.files()[0].size(), 0);
    assert_eq!(out.files()[0].accessed(), None);
}

#[test]
fn total_size_is_sum_of_file_sizes() {
    let meta = DirMetadata::new("root");
    let mut w = DirWalker::start(meta, opts_all());
    w.feed_listing(vec![
        file_entry("a", "root/a", 1),
        file_entry("b", "root/b", 2),
        dir_entry("sub", "root/sub"),
    ]);
    w.feed_listing(vec![file_entry("c", "root/sub/c", 4)]);
    let out = w.finish();
    let summed: usize = out.files().iter().map(|f| f.size()).sum();
    assert_eq!(out.size(), summed);
    assert_eq!(out.size(), 7);
}

#[test]
fn walk_is_deterministic_for_equal_listings() {
    let drive = || {
        let meta = DirMetadata::new("root");
        let mut w = DirWalker::start(meta, opts_all());
        w.feed_listing(vec![
            file_entry("a.txt", "root/a.txt", 5),
            dir_entry("sub", "root/sub"),
        ]);
        w.feed_listing(vec![file_entry("b.txt", "root/sub/b.txt", 10)]);
        w.finish()
    };
    let first = drive();
    let second = drive();
    assert_eq!(first, second);
}

#[test]
fn size_tracking_off_leaves_sizes_and_flags_empty() {
    let opts = WalkOptions { track_size: false, track_times: true, detect_format: true };
    let ts = Timestamp { secs: TAI64_UNIX_EPOCH_SECS + 1000, nanos: 42 };
    let meta = DirMetadata::new("root");
    let mut w = DirWalker::start(meta, opts);
    w.feed_listing(vec![ListingItem::Entry(EntryRecord {
        name: "a".to_string(),
        path: "root/a".to_string(),
        kind: Ok(false),
        format: None,
        stat: Ok(StatRecord {
            size: 7,
            read_only: true,
            symlink: true,
            accessed: Some(ts),
            modified: Some(ts),
            created: Some(ts),
        }),
    })]);
    let out = w.finish();
    assert_eq!(out.size(), 0);
    assert_eq!(out.files()[0].size(), 0);
    assert!(!out.files()[0].read_only());
    assert!(!out.files()[0].symlink());
    assert_eq!(out.files()[0].accessed(), Some(ts));
    assert_eq!(out.files()[0].modified(), Some(ts));
    assert_eq!(out.files()[0].created(), Some(ts));
}

#[test]
fn time_tracking_off_still_records_stat_errors() {
    let opts = WalkOptions { track_size: false, track_times: true, detect_format: false };
    let meta = DirMetadata::new("root");
    let mut w = DirWalker::start(meta, opts);
    w.feed_listing(vec![ListingItem::Entry(EntryRecord {
        name: "a".to_string(),
        path: "root/a".to_string(),
        kind: Ok(false),
        format: None,
        stat: Err(DirErrorKind::Interrupted),
    })]);
    let out = w.finish();
    assert_eq!(out.errors().len(), 1);
    assert_eq!(out.errors()[0].error, DirErrorKind::Interrupted);
    assert_eq!(out.files().len(), 1);
}

#[test]
fn stat_fully_off_ignores_stat_failures() {
    let opts = WalkOptions { track_size: false, track_times: false, detect_format: false };
    let meta = DirMetadata::new("root");
    let mut w = DirWalker::start(meta, opts);
    w.feed_listing(vec![ListingItem::Entry(EntryRecord {
        name: "a".to_string(),
        path: "root/a".to_string(),
        kind: Ok(false),
        format: None,
        stat: Err(DirErrorKind::Interrupted),
    })]);
    let out = w.finish();
    assert!(out.errors().is_empty());
    assert_eq!(out.files().len(), 1);
    assert_eq!(out.files()[0].size(), 0);
}

#[test]
fn format_detection_toggle() {
    let tag = file_format::FileFormat::default();
    let build = |detect: bool| {
        let opts = WalkOptions { track_size: true, track_times: true, detect_format: detect };
        let meta = DirMetadata::new("root");
        let mut w = DirWalker::start(meta, opts);
        w.feed_listing(vec![ListingItem::Entry(EntryRecord {
            name: "a".to_string(),
            path: "root/a".to_string(),
            kind: Ok(false),
            format: Some(tag),
            stat: Ok(plain_stat(1)),
        })]);
        w.finish()
    };
    let with_format = build(true);
    assert_eq!(with_format.files()[0].file_format(), &Some(tag));
    let without_format = build(false);
    assert_eq!(without_format.files()[0].file_format(), &None);
    // the toggle changes nothing else
    assert_eq!(with_format.size(), without_format.size());
    assert_eq!(with_format.errors().len(), without_format.errors().len());
}

#[test]
fn try_feed_listing_refuses_overflowing_totals() {
    let meta = DirMetadata::new("root");
    let mut w = DirWalker::start(meta, opts_all());
    let huge = vec![
        file_entry("a", "root/a", usize::MAX),
        file_entry("b", "root/b", 1),
    ];
    assert!(!w.try_feed_listing(huge));
    // nothing changed: the root is still pending
    assert_eq!(w.next_dir(), Some("root".to_string()));
    assert!(w.try_feed_listing(vec![file_entry("a", "root/a", 3)]));
    let out = w.finish();
    assert_eq!(out.size(), 3);
    assert_eq!(out.files().len(), 1);
}

#[test]
fn get_file_finds_every_name_match() {
    let meta = DirMetadata::new("root");
    let mut w = DirWalker::start(meta, opts_all());
    w.feed_listing(vec![
        file_entry("a.txt", "root/a.txt", 1),
        dir_entry("sub", "root/sub"),
    ]);
    w.feed_listing(vec![
        file_entry("a.txt", "root/sub/a.txt", 2),
        file_entry("b.txt", "root/sub/b.txt", 3),
    ]);
    let out = w.finish();
    let matches = out.get_file("a.txt");
    assert_eq!(matches.len(), 2);
    assert_eq!(matches[0].path(), "root/a.txt");
    assert_eq!(matches[1].path(), "root/sub/a.txt");
    assert_eq!(out.get_file("b.txt").len(), 1);
    assert!(out.get_file("missing.txt").is_empty());
}

#[test]
fn get_file_by_path_is_exact() {
    let meta = DirMetadata::new("root");
    let mut w = DirWalker::start(meta, opts_all());
    w.feed_listing(vec![
        file_entry("a.txt", "root/a.txt", 1),
        file_entry("b.txt", "root/b.txt", 2),
    ]);
    let out = w.finish();
    let hit = out.get_file_by_path("root/b.txt");
    assert!(hit.is_some());
    assert_eq!(hit.unwrap().name(), "b.txt");
    assert!(out.get_file_by_path("root/c.txt").is_none());
    assert!(out.get_file_by_path("a.txt").is_none());
}

#[test]
fn base_name_extracts_final_component() {
    assert_eq!(base_name("a/b"), Some("b".to_string()));
    assert_eq!(base_name("a/b/"), Some("b".to_string()));
    assert_eq!(base_name("a/b///"), Some("b".to_string()));
    assert_eq!(base_name("name"), Some("name".to_string()));
    assert_eq!(base_name("/usr/local/bin"), Some("bin".to_string()));
    assert_eq!(base_name("/"), None);
    assert_eq!(base_name(""), None);
    assert_eq!(base_name(".."), None);
    assert_eq!(base_name("a/.."), None);
    assert_eq!(base_name("."), None);
}

#[test]
fn base_name_skips_bare_dot_components() {
    // the platform's path lookup drops trailing `.` components
    assert_eq!(base_name("a/."), Some("a".to_string()));
    assert_eq!(base_name("a/./"), Some("a".to_string()));
    assert_eq!(base_name("a/./."), Some("a".to_string()));
    assert_eq!(base_name("./a"), Some("a".to_string()));
    assert_eq!(base_name("/."), None);
    assert_eq!(base_name("./"), None);
    // dots inside a name are part of it
    assert_eq!(base_name("b."), Some("b.".to_string()));
    assert_eq!(base_name("a/..."), Some("...".to_string()));
    assert_eq!(base_name("a/.hidden"), Some(".hidden".to_string()));
    // a trailing parent component leaves no usable name
    assert_eq!(base_name("a/./.."), None);
    assert_eq!(base_name("a/../."), None);
}

#[test]
fn base_name_agrees_with_the_platform() {
    for path in [
        "a/b", "a/b/", "a/b///", "name", "/usr/local/bin", "/", "..", "a/..", ".", "a/.",
        "a/./", "a/./.", "./a", "/.", "./", "b.", "a/...", "a/.hidden", "a/./..", "a/../.",
    ] {
        let expected = std::path::Path::new(path)
            .file_name()
            .map(|n| n.to_string_lossy().to_string());
        assert_eq!(base_name(path), expected, "path {:?}", path);
    }
}

#[test]
fn new_path_buf_keeps_path_and_extracts_name() {
    let meta = DirMetadata::new_path_buf("some/dir".to_string());
    assert_eq!(meta.dir_name(), "dir");
    assert_eq!(meta.dir_path(), "some/dir");
    assert!(meta.files().is_empty());
    assert!(meta.directories().is_empty());
    assert!(meta.errors().is_empty());
    assert_eq!(meta.size(), 0);
}
