use dir_meta::DirErrorKind;
use dir_meta::FsWatcher;
use dir_meta::RawWatchEvent;
use dir_meta::WatchError;
use dir_meta::WatcherEvents;
use dir_meta::WatcherOutcome;
use dir_meta::SENDER_CHANNEL_ERROR;

#[test]
fn translation_maps_every_known_bit() {
    assert_eq!(WatcherEvents::from(0x0000_0001u32), WatcherEvents::Access);
    assert_eq!(WatcherEvents::from(0x0000_0002u32), WatcherEvents::Modify);
    assert_eq!(WatcherEvents::from(0x0000_0004u32), WatcherEvents::Attrib);
    assert_eq!(WatcherEvents::from(0x0000_0008u32), WatcherEvents::CloseWrite);
    assert_eq!(WatcherEvents::from(0x0000_0010u32), WatcherEvents::CloseNoWrite);
    assert_eq!(WatcherEvents::from(0x0000_0020u32), WatcherEvents::Open);
    assert_eq!(WatcherEvents::from(0x0000_0040u32), WatcherEvents::MovedFrom);
    assert_eq!(WatcherEvents::from(0x0000_0080u32), WatcherEvents::MovedTo);
    assert_eq!(WatcherEvents::from(0x0000_0100u32), WatcherEvents::Create);
    assert_eq!(WatcherEvents::from(0x0000_0200u32), WatcherEvents::Delete);
    assert_eq!(WatcherEvents::from(0x0000_0400u32), WatcherEvents::DeleteSelf);
    assert_eq!(WatcherEvents::from(0x0000_0800u32), WatcherEvents::MoveSelf);
    assert_eq!(WatcherEvents::from(0x0000_2000u32), WatcherEvents::Unmount);
    assert_eq!(WatcherEvents::from(0x0000_4000u32), WatcherEvents::QueueOverflow);
    assert_eq!(WatcherEvents::from(0x0000_8000u32), WatcherEvents::Ignored);
    assert_eq!(WatcherEvents::from(0x4000_0000u32), WatcherEvents::IsDir);
}

#[test]
fn translation_agrees_with_raw_inotify_bits() {
    assert_eq!(
        WatcherEvents::from(inotify::EventMask::CREATE.bits()),
        WatcherEvents::Create
    );
    assert_eq!(
        WatcherEvents::from(inotify::EventMask::DELETE.bits()),
        WatcherEvents::Delete
    );
    assert_eq!(
        WatcherEvents::from(inotify::EventMask::MODIFY.bits()),
        WatcherEvents::Modify
    );
    assert_eq!(
        WatcherEvents::from(inotify::EventMask::ISDIR.bits()),
        WatcherEvents::IsDir
    );
    assert_eq!(
        WatcherEvents::from(inotify::EventMask::Q_OVERFLOW.bits()),
        WatcherEvents::QueueOverflow
    );
}

#[test]
fn translation_degrades_unknown_patterns_to_unsupported() {
    assert_eq!(WatcherEvents::from(0u32), WatcherEvents::Unsupported);
    assert_eq!(WatcherEvents::from(0x3u32), WatcherEvents::Unsupported);
    assert_eq!(WatcherEvents::from(0x0001_0000u32), WatcherEvents::Unsupported);
    // two known bits together name no single category
    assert_eq!(
        WatcherEvents::from(0x0000_0100u32 | 0x4000_0000u32),
        WatcherEvents::Unsupported
    );
}

#[test]
fn scenario_create_then_delete_outcomes() {
    let create: WatcherOutcome = RawWatchEvent {
        descriptor: 1,
        mask: 0x0000_0100,
        cookie: 0,
        name: Some("x".to_string()),
    }
    .into();
    assert_eq!(create.mask, WatcherEvents::Create);
    assert_eq!(create.name, Some("x".to_string()));
    assert_eq!(create.descriptor, 1);

    let delete: WatcherOutcome = RawWatchEvent {
        descriptor: 1,
        mask: 0x0000_0200,
        cookie: 0,
        name: Some("x".to_string()),
    }
    .into();
    assert_eq!(delete.mask, WatcherEvents::Delete);
    assert_eq!(delete.name, Some("x".to_string()));
}

#[test]
fn rename_pair_keeps_cookie_and_names() {
    let from: WatcherOutcome = RawWatchEvent {
        descriptor: 7,
        mask: 0x0000_0040,
        cookie: 99,
        name: Some("old".to_string()),
    }
    .into();
    let to: WatcherOutcome = RawWatchEvent {
        descriptor: 7,
        mask: 0x0000_0080,
        cookie: 99,
        name: Some("new".to_string()),
    }
    .into();
    assert_eq!(from.mask, WatcherEvents::MovedFrom);
    assert_eq!(to.mask, WatcherEvents::MovedTo);
    assert_eq!(from.cookie, to.cookie);
}

#[test]
fn event_without_child_keeps_no_name() {
    let outcome: WatcherOutcome = RawWatchEvent {
        descriptor: 2,
        mask: 0x0000_0400,
        cookie: 0,
        name: None,
    }
    .into();
    assert_eq!(outcome.mask, WatcherEvents::DeleteSelf);
    assert_eq!(outcome.name, None);
}

#[test]
fn watch_setup_without_path_fails_not_found() {
    let (sender, _receiver) = async_channel::unbounded::<WatcherOutcome>();
    let watcher = FsWatcher::new(sender);
    let err = watcher.watch_setup().unwrap_err();
    assert_eq!(err.kind, DirErrorKind::NotFound);
    assert_eq!(err.message, "The path was not found, maybe you didn't specify it");
}

#[test]
fn watch_setup_hands_path_and_sender_over() {
    let (sender, receiver) = async_channel::unbounded::<WatcherOutcome>();
    let watcher = FsWatcher::new(sender).path("src");
    let (path, sender) = watcher.watch_setup().unwrap();
    assert_eq!(path, "src");
    // the handed-over sender still reaches the receiver
    let outcome: WatcherOutcome = RawWatchEvent {
        descriptor: 1,
        mask: 0x0000_0100,
        cookie: 0,
        name: Some("x".to_string()),
    }
    .into();
    sender.try_send(outcome.clone()).unwrap();
    assert_eq!(receiver.try_recv().unwrap(), outcome);
}

#[test]
fn closed_receiver_stops_sending_with_the_sentinel_failure() {
    let (sender, receiver) = async_channel::unbounded::<WatcherOutcome>();
    drop(receiver);
    assert!(sender.is_closed());
    let outcome: WatcherOutcome = RawWatchEvent {
        descriptor: 1,
        mask: 0x0000_0100,
        cookie: 0,
        name: Some("x".to_string()),
    }
    .into();
    assert!(sender.try_send(outcome).is_err());
    // the failure the loop reports in that case
    let err = WatchError::channel_closed();
    assert_eq!(err.kind, DirErrorKind::Other);
    assert_eq!(err.message, SENDER_CHANNEL_ERROR);
    assert_eq!(SENDER_CHANNEL_ERROR, "SENDER_CHANNEL_CLOSED");
}
