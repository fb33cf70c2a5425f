//! Scenarios for the worker hand-off, the stop checker, the raw storage and
//! the rendering helpers.

use std::sync::atomic::{AtomicBool, Ordering};
use std::sync::Arc;

use indexerd::config;
use indexerd::engine::{ControlTask, Engine};
use indexerd::handlers::search_campaign;
use indexerd::helpers::{cur_ts, i32_to_string, StopChecker};
use indexerd::objects::{Campaign, Object, ObjectType, Pad, PadRelation};
use indexerd::request::{RequestFormat, SearchParams, SearchRequest};
use indexerd::storage::Storage;
use indexerd::store::{Store, StoreRef, StoreSlot};
use indexerd::routing::{admin_route, parse_id, route_of, AdminRoute, Route};
use indexerd::worker::{apply_control_task, WorkerData};

#[test]
fn published_reference_reaches_a_polling_worker_wholesale() {
    let mut engine = Engine::new(config::Worker { need_multi: false }, 2);
    let mut worker = WorkerData {
        num: 0,
        store: engine.current_store(),
        config: config::Worker { need_multi: false },
    };
    let before = worker.store;

    let published = StoreRef { slot: StoreSlot::Second, iteration: 1 };
    engine.set_new_store(published);

    // until the worker drains its queue it still serves the old snapshot
    assert_eq!(worker.store, before);

    match engine.take_ctl_task(0) {
        Some(task) => {
            assert_eq!(task, ControlTask::SetStore(published));
            apply_control_task(&mut worker, task);
        }
        None => panic!("a control task was queued for worker 0"),
    }
    // the snapshot is replaced wholesale, never mixed
    assert_eq!(worker.store, published);

    // the other worker's queue got its own copy
    assert!(engine.take_ctl_task(1).is_some());
    assert!(engine.take_ctl_task(1).is_none());
}

#[test]
fn config_broadcast_reaches_workers() {
    let mut engine = Engine::new(config::Worker { need_multi: false }, 1);
    let mut worker = WorkerData {
        num: 0,
        store: engine.current_store(),
        config: config::Worker { need_multi: false },
    };
    engine.update_config(config::Worker { need_multi: true });
    let task = engine.take_ctl_task(0).expect("a control task was queued");
    apply_control_task(&mut worker, task);
    assert!(worker.config.need_multi);
}

#[test]
fn control_tasks_are_consumed_in_order() {
    let mut engine = Engine::new(config::Worker { need_multi: false }, 1);
    let first = StoreRef { slot: StoreSlot::Second, iteration: 1 };
    let second = StoreRef { slot: StoreSlot::First, iteration: 2 };
    engine.set_new_store(first);
    engine.set_new_store(second);

    let mut worker = WorkerData {
        num: 0,
        store: StoreRef { slot: StoreSlot::First, iteration: 0 },
        config: config::Worker { need_multi: false },
    };
    let t = engine.take_ctl_task(0).unwrap();
    apply_control_task(&mut worker, t);
    assert_eq!(worker.store, first);
    let t = engine.take_ctl_task(0).unwrap();
    apply_control_task(&mut worker, t);
    assert_eq!(worker.store, second);
}

#[test]
fn full_control_queue_drops_the_broadcast() {
    let mut engine = Engine::new(config::Worker { need_multi: false }, 1);
    // fill the bounded queue to its capacity
    for i in 0..1000u64 {
        engine.set_new_store(StoreRef { slot: StoreSlot::Second, iteration: i });
    }
    // this publish finds the queue full and is dropped for that worker
    engine.set_new_store(StoreRef { slot: StoreSlot::First, iteration: 1000 });

    let mut last = None;
    while let Some(task) = engine.take_ctl_task(0) {
        last = Some(task);
    }
    assert_eq!(
        last,
        Some(ControlTask::SetStore(StoreRef { slot: StoreSlot::Second, iteration: 999 }))
    );
}

#[test]
fn extreme_keys_are_ordinary_keys() {
    let mut storage = Storage::new();
    storage.update(Object::Campaign(Campaign {
        id: i32::MAX,
        name: "hi".to_string(),
        package_id: 0,
    }));
    storage.update(Object::Campaign(Campaign {
        id: i32::MIN,
        name: "lo".to_string(),
        package_id: 0,
    }));
    assert!(storage.try_get(ObjectType::Campaign, i32::MAX).is_some());
    assert!(storage.try_get(ObjectType::Campaign, i32::MIN).is_some());
    assert_eq!(storage.list(ObjectType::Campaign).len(), 2);
}

#[test]
fn engine_stop_flag_is_observable() {
    let mut engine = Engine::new(config::Worker { need_multi: false }, 2);
    assert!(!engine.is_shutdown());
    engine.stop();
    assert!(engine.is_shutdown());
    assert_eq!(engine.n_workers(), 2);
}

#[test]
fn stop_checker_sees_a_raised_flag() {
    let flag = Arc::new(AtomicBool::new(false));
    let mut checker = StopChecker::new(flag.clone());
    assert!(!checker.is_time_force());
    flag.store(true, Ordering::Relaxed);
    assert!(checker.is_time_force());
    assert!(checker.is_time());
}

#[test]
fn cur_ts_is_after_the_epoch() {
    // wall-clock reading: only sanity, nothing exact can be expected
    assert!(cur_ts() > 0);
}

#[test]
fn storage_partitions_by_type_and_key() {
    let mut storage = Storage::new();
    storage.update(Object::Campaign(Campaign {
        id: 1,
        name: "c".to_string(),
        package_id: 2,
    }));
    storage.update(Object::Pad(Pad { id: 1, name: "p".to_string() }));
    storage.update(Object::PadRelation(PadRelation { id: 1, pad_id: 1, parent_pad_id: 0 }));

    // same key, different partitions
    assert!(storage.try_get(ObjectType::Campaign, 1).is_some());
    assert!(storage.try_get(ObjectType::Pad, 1).is_some());
    assert!(storage.try_get(ObjectType::PadRelation, 1).is_some());
    assert!(storage.try_get(ObjectType::Package, 1).is_none());
    assert!(storage.try_get(ObjectType::Unknown, 1).is_none());

    // delete is a keyed no-op when absent
    storage.delete(Object::Campaign(Campaign {
        id: 9,
        name: String::new(),
        package_id: 0,
    }));
    assert_eq!(storage.list(ObjectType::Campaign), vec![1]);

    storage.delete(Object::Campaign(Campaign {
        id: 1,
        name: String::new(),
        package_id: 0,
    }));
    assert!(storage.list(ObjectType::Campaign).is_empty());
    // other partitions untouched
    assert_eq!(storage.list(ObjectType::Pad), vec![1]);

    let got = storage.get(ObjectType::Pad, 1);
    assert_eq!(got, Object::Pad(Pad { id: 1, name: "p".to_string() }));
}

#[test]
fn search_resolves_campaigns_by_primary_key() {
    let mut storage = Storage::new();
    storage.update(Object::Campaign(Campaign {
        id: 16,
        name: "t2".to_string(),
        package_id: 3,
    }));
    let params = SearchParams { name: "t2".to_string(), id: 16, email: "53".to_string() };
    assert!(search_campaign(&storage, &params).is_some());
    let missing = SearchParams { name: String::new(), id: 17, email: String::new() };
    assert!(search_campaign(&storage, &missing).is_none());

    let req = SearchRequest { req_fmt: RequestFormat::Json, search_params: params };
    assert_eq!(req.req_fmt, RequestFormat::Json);
}

#[test]
fn decimal_rendering_is_exact() {
    assert_eq!(i32_to_string(0), "0");
    assert_eq!(i32_to_string(7), "7");
    assert_eq!(i32_to_string(1203), "1203");
    assert_eq!(i32_to_string(-123), "-123");
    assert_eq!(i32_to_string(i32::MAX), "2147483647");
    assert_eq!(i32_to_string(i32::MIN), "-2147483648");
}

#[test]
fn campaign_debug_line_is_exact() {
    let c = Campaign { id: 1, name: "A".to_string(), package_id: 9 };
    assert_eq!(
        c.html_debug(),
        "id=1</br>name=A</br>package_id=<a href=\"/admin/store/package/9\">9</a>"
    );
}

#[test]
fn store_keeps_its_label() {
    let store = Store::new("first".to_string());
    assert_eq!(store.id, "first");
    assert_eq!(store.get_store_stat().iteration, 0);
}

#[test]
fn worker_routes_by_path_prefix() {
    assert_eq!(route_of("/admin".as_bytes()), Route::Admin);
    assert_eq!(route_of("/admin/status".as_bytes()), Route::Admin);
    assert_eq!(route_of("/search?x=1".as_bytes()), Route::Search);
    assert_eq!(route_of("/other".as_bytes()), Route::Unknown);
    assert_eq!(route_of("".as_bytes()), Route::Unknown);
}

#[test]
fn admin_paths_route_to_their_pages() {
    assert_eq!(admin_route("/admin".as_bytes()), AdminRoute::Root);
    assert_eq!(admin_route("/admin/status".as_bytes()), AdminRoute::Status);
    assert_eq!(admin_route("/admin/store".as_bytes()), AdminRoute::StoreIndex);
    assert_eq!(
        admin_route("/admin/store/campaign".as_bytes()),
        AdminRoute::Objects(ObjectType::Campaign)
    );
    assert_eq!(
        admin_route("/admin/store/pad".as_bytes()),
        AdminRoute::Objects(ObjectType::Pad)
    );
    assert_eq!(
        admin_route("/admin/store/campaign/1".as_bytes()),
        AdminRoute::ObjectDetail(ObjectType::Campaign, 1)
    );
    assert_eq!(
        admin_route("/admin/store/package/-25".as_bytes()),
        AdminRoute::ObjectDetail(ObjectType::Package, -25)
    );
    // malformed requests are answered with a diagnostic, never a panic
    assert_eq!(admin_route("/admin/store/users".as_bytes()), AdminRoute::UnknownUrl);
    assert_eq!(admin_route("/admin/store/campaign/x1".as_bytes()), AdminRoute::UnknownUrl);
    assert_eq!(admin_route("/admin/store/campaign/".as_bytes()), AdminRoute::UnknownUrl);
    assert_eq!(admin_route("/admin/other".as_bytes()), AdminRoute::UnknownUrl);
}

#[test]
fn path_ids_parse_exactly() {
    assert_eq!(parse_id("0".as_bytes()), Some(0));
    assert_eq!(parse_id("00012".as_bytes()), Some(12));
    assert_eq!(parse_id("2147483647".as_bytes()), Some(i32::MAX));
    assert_eq!(parse_id("2147483648".as_bytes()), None);
    assert_eq!(parse_id("-2147483648".as_bytes()), Some(i32::MIN));
    assert_eq!(parse_id("-2147483649".as_bytes()), None);
    assert_eq!(parse_id("99999999999999999999".as_bytes()), None);
    assert_eq!(parse_id("-".as_bytes()), None);
    assert_eq!(parse_id("".as_bytes()), None);
    assert_eq!(parse_id("1a".as_bytes()), None);
}
