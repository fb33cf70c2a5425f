//! Scenarios for the double-buffered store: applies, swaps, replay and the
//! shutdown protocol.

use indexerd::config;
use indexerd::engine::Engine;
use indexerd::handlers::status_of;
use indexerd::objects::{Campaign, IdType, Object, ObjectType, Package};
use indexerd::store::StoreSlot;
use indexerd::updater::{apply_to_store, swap_due, swap_stores, EventType, Updater, UpdaterPhase};

fn test_conf() -> config::Updater {
    config::Updater {
        db: config::DB {
            host: "localhost".to_string(),
            port: 3306,
            username: "root".to_string(),
            password: "pw".to_string(),
            db_name: "test".to_string(),
        },
        swap_interval: 30,
    }
}

fn campaign(id: IdType, name: &str, package_id: IdType) -> Object {
    Object::Campaign(Campaign { id, name: name.to_string(), package_id })
}

fn running_updater() -> Updater {
    let conf = test_conf();
    let mut updater = Updater::new(&conf);
    updater.start_running();
    updater
}

#[test]
fn campaign_insert_is_readable_after_swap() {
    let mut updater = running_updater();
    let mut engine = Engine::new(config::Worker { need_multi: false }, 2);

    apply_to_store(&mut updater, campaign(1, "A", 9), None, EventType::Insert);
    swap_stores(&mut updater, &mut engine);

    let raw = updater.read_store().get_raw_data();
    let got = raw.try_get(ObjectType::Campaign, 1);
    assert_eq!(
        got,
        Some(Object::Campaign(Campaign {
            id: 1,
            name: "A".to_string(),
            package_id: 9,
        }))
    );
}

#[test]
fn insert_lands_in_write_store_immediately() {
    let mut updater = running_updater();

    apply_to_store(&mut updater, campaign(1, "A", 9), None, EventType::Insert);

    let write_slot = updater.read_slot().flip();
    let write = updater.store_at(write_slot).get_raw_data();
    assert!(write.try_get(ObjectType::Campaign, 1).is_some());
    // the read store is untouched until the swap
    let read = updater.read_store().get_raw_data();
    assert!(read.try_get(ObjectType::Campaign, 1).is_none());
}

#[test]
fn n_inserts_then_swap_yields_one_object_per_key() {
    let mut updater = running_updater();
    let mut engine = Engine::new(config::Worker { need_multi: false }, 2);

    apply_to_store(&mut updater, campaign(1, "one", 10), None, EventType::Insert);
    apply_to_store(&mut updater, campaign(2, "two", 20), None, EventType::Insert);
    apply_to_store(&mut updater, campaign(3, "three", 30), None, EventType::Insert);
    // a repeated key keeps the latest applied value
    apply_to_store(&mut updater, campaign(2, "two-latest", 21), None, EventType::Insert);

    swap_stores(&mut updater, &mut engine);

    let raw = updater.read_store().get_raw_data();
    let mut keys = raw.list(ObjectType::Campaign);
    keys.sort();
    assert_eq!(keys, vec![1, 2, 3]);
    assert_eq!(
        raw.try_get(ObjectType::Campaign, 2),
        Some(Object::Campaign(Campaign {
            id: 2,
            name: "two-latest".to_string(),
            package_id: 21,
        }))
    );
}

#[test]
fn duplicate_insert_is_idempotent() {
    let mut updater = running_updater();
    let mut engine = Engine::new(config::Worker { need_multi: false }, 2);

    let obj = campaign(7, "dup", 1);
    apply_to_store(&mut updater, obj.clone(), None, EventType::Insert);
    apply_to_store(&mut updater, obj, None, EventType::Insert);
    swap_stores(&mut updater, &mut engine);

    let raw = updater.read_store().get_raw_data();
    assert_eq!(raw.list(ObjectType::Campaign).len(), 1);
}

#[test]
fn update_and_delete_resolve_by_key() {
    let mut updater = running_updater();

    apply_to_store(&mut updater, campaign(5, "before", 1), None, EventType::Insert);
    apply_to_store(
        &mut updater,
        campaign(5, "after", 2),
        Some(campaign(5, "before", 1)),
        EventType::Update,
    );
    let write_slot = updater.read_slot().flip();
    let raw = updater.store_at(write_slot).get_raw_data();
    assert_eq!(
        raw.try_get(ObjectType::Campaign, 5),
        Some(Object::Campaign(Campaign {
            id: 5,
            name: "after".to_string(),
            package_id: 2,
        }))
    );

    apply_to_store(&mut updater, campaign(5, "after", 2), None, EventType::Delete);
    let raw = updater.store_at(write_slot).get_raw_data();
    assert!(raw.try_get(ObjectType::Campaign, 5).is_none());
}

#[test]
fn not_ready_before_any_swap() {
    let updater = running_updater();
    let stat = updater.read_store().get_store_stat();
    assert_eq!(stat.iteration, 0);
    let status = status_of(stat);
    assert!(!status.is_ready);
}

#[test]
fn first_swap_stamps_iteration_and_timestamps() {
    let mut updater = running_updater();
    let mut engine = Engine::new(config::Worker { need_multi: false }, 2);

    swap_stores(&mut updater, &mut engine);

    let stat = updater.read_store().get_store_stat();
    assert_eq!(stat.iteration, 1);
    assert!(stat.rebuild_start_ts <= stat.rebuild_end_ts);
    assert_eq!(
        stat.rebuild_duration_sec,
        stat.rebuild_end_ts - stat.rebuild_start_ts
    );
    let status = status_of(stat);
    assert!(status.is_ready);
}

#[test]
fn double_swap_without_events_keeps_contents() {
    let conf = test_conf();
    let mut updater = Updater::new(&conf);
    updater.seed(campaign(1, "seeded", 4));
    updater.seed(Object::Package(Package { id: 2, name: "pkg".to_string() }));
    updater.start_running();
    let mut engine = Engine::new(config::Worker { need_multi: false }, 2);

    let slot_before = updater.read_slot();

    swap_stores(&mut updater, &mut engine);
    assert_ne!(updater.read_slot(), slot_before);

    swap_stores(&mut updater, &mut engine);
    assert_eq!(updater.read_slot(), slot_before);
    assert_eq!(updater.iteration(), 2);

    for slot in [StoreSlot::First, StoreSlot::Second] {
        let raw = updater.store_at(slot).get_raw_data();
        assert_eq!(raw.list(ObjectType::Campaign), vec![1]);
        assert_eq!(raw.list(ObjectType::Package), vec![2]);
        assert!(raw.try_get(ObjectType::Campaign, 1).is_some());
    }
}

#[test]
fn nothing_is_lost_across_the_swap_boundary() {
    let mut updater = running_updater();
    let mut engine = Engine::new(config::Worker { need_multi: false }, 2);

    // queued before the swap: must land in the store that becomes the next
    // write store, via replay
    apply_to_store(&mut updater, campaign(11, "pre-swap", 1), None, EventType::Insert);
    swap_stores(&mut updater, &mut engine);

    let write_slot = updater.read_slot().flip();
    let write = updater.store_at(write_slot).get_raw_data();
    assert_eq!(
        write.try_get(ObjectType::Campaign, 11),
        Some(Object::Campaign(Campaign {
            id: 11,
            name: "pre-swap".to_string(),
            package_id: 1,
        }))
    );
}

#[test]
fn seed_fills_both_stores_equally() {
    let conf = test_conf();
    let mut updater = Updater::new(&conf);
    updater.seed(campaign(3, "seed", 8));
    for slot in [StoreSlot::First, StoreSlot::Second] {
        let raw = updater.store_at(slot).get_raw_data();
        assert!(raw.try_get(ObjectType::Campaign, 3).is_some());
    }
}

#[test]
fn stop_protocol_reaches_stopped_in_order() {
    let mut updater = running_updater();
    assert_eq!(updater.phase(), UpdaterPhase::Running);
    updater.request_stop();
    assert_eq!(updater.phase(), UpdaterPhase::Stopping);
    updater.note_slave_stopped();
    updater.note_cron_stopped();
    updater.finish_stop();
    assert_eq!(updater.phase(), UpdaterPhase::Stopped);
}

#[test]
fn swap_due_matches_the_interval() {
    assert!(!swap_due(100, 90, 30));
    assert!(!swap_due(120, 90, 30));
    assert!(swap_due(121, 90, 30));
    assert!(!swap_due(5, 0, u64::MAX));
}
