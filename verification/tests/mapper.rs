//! Scenarios for the CDC mapper: table-identity resolution, field mapping,
//! per-field conversion fallback, and skipping of unknown tables.

use indexerd::config;
use indexerd::convert::{convert, SqlValue};
use indexerd::objects::{Campaign, Object, ObjectType, TargetingPad};
use indexerd::slave::{
    process_event, CdcMapper, FieldMapping, MysqlObject, ReplicationEvent, RowData, table_type,
};
use indexerd::store::StoreSlot;
use indexerd::updater::Updater;

fn test_conf() -> config::Updater {
    config::Updater {
        db: config::DB {
            host: "localhost".to_string(),
            port: 3306,
            username: "root".to_string(),
            password: "pw".to_string(),
            db_name: "test".to_string(),
        },
        swap_interval: 30,
    }
}

fn running_updater() -> Updater {
    let mut updater = Updater::new(&test_conf());
    updater.start_running();
    updater
}

fn campaign_mapper() -> CdcMapper {
    let mut mapper = CdcMapper::new();
    mapper.fill_fields_map(
        ObjectType::Campaign,
        vec!["id".to_string(), "name".to_string(), "package_id".to_string()],
    );
    mapper
}

fn campaign_row(id: i32, name: &str, package_id: i32) -> RowData {
    RowData {
        cells: vec![
            Some(SqlValue::Int(id)),
            Some(SqlValue::Text(name.to_string())),
            Some(SqlValue::Int(package_id)),
        ],
    }
}

fn write_store_has_campaign(updater: &Updater, id: i32) -> Option<Object> {
    let write_slot = updater.read_slot().flip();
    updater
        .store_at(write_slot)
        .get_raw_data()
        .try_get(ObjectType::Campaign, id)
}

#[test]
fn mapped_write_row_becomes_a_typed_insert() {
    let mut mapper = campaign_mapper();
    let mut updater = running_updater();

    process_event(
        &mut mapper,
        &mut updater,
        &ReplicationEvent::TableMap { table_id: 7, table_name: "campaign".to_string() },
    );
    process_event(
        &mut mapper,
        &mut updater,
        &ReplicationEvent::WriteRows { table_id: 7, rows: vec![campaign_row(1, "A", 9)] },
    );

    assert_eq!(
        write_store_has_campaign(&updater, 1),
        Some(Object::Campaign(Campaign {
            id: 1,
            name: "A".to_string(),
            package_id: 9,
        }))
    );
}

#[test]
fn row_for_undefined_table_id_is_skipped() {
    let mut mapper = campaign_mapper();
    let mut updater = running_updater();

    // no table-definition event for id 42 has arrived
    process_event(
        &mut mapper,
        &mut updater,
        &ReplicationEvent::WriteRows { table_id: 42, rows: vec![campaign_row(1, "A", 9)] },
    );

    for slot in [StoreSlot::First, StoreSlot::Second] {
        let raw = updater.store_at(slot).get_raw_data();
        assert!(raw.list(ObjectType::Campaign).is_empty());
    }
}

#[test]
fn row_for_unknown_table_name_is_skipped() {
    let mut mapper = campaign_mapper();
    let mut updater = running_updater();

    process_event(
        &mut mapper,
        &mut updater,
        &ReplicationEvent::TableMap { table_id: 8, table_name: "not_replicated".to_string() },
    );
    process_event(
        &mut mapper,
        &mut updater,
        &ReplicationEvent::WriteRows { table_id: 8, rows: vec![campaign_row(1, "A", 9)] },
    );

    for slot in [StoreSlot::First, StoreSlot::Second] {
        let raw = updater.store_at(slot).get_raw_data();
        assert!(raw.list(ObjectType::Campaign).is_empty());
    }
}

#[test]
fn row_without_field_mapping_is_skipped() {
    // the package schema was never introspected: the type is degraded, its
    // rows are skipped, and nothing fails
    let mut mapper = campaign_mapper();
    let mut updater = running_updater();

    process_event(
        &mut mapper,
        &mut updater,
        &ReplicationEvent::TableMap { table_id: 9, table_name: "package".to_string() },
    );
    process_event(
        &mut mapper,
        &mut updater,
        &ReplicationEvent::WriteRows {
            table_id: 9,
            rows: vec![RowData {
                cells: vec![Some(SqlValue::Int(1)), Some(SqlValue::Text("p".to_string()))],
            }],
        },
    );

    for slot in [StoreSlot::First, StoreSlot::Second] {
        let raw = updater.store_at(slot).get_raw_data();
        assert!(raw.list(ObjectType::Package).is_empty());
    }
}

#[test]
fn one_bad_field_does_not_discard_the_row() {
    let mut mapper = campaign_mapper();
    let mut updater = running_updater();

    process_event(
        &mut mapper,
        &mut updater,
        &ReplicationEvent::TableMap { table_id: 7, table_name: "campaign".to_string() },
    );
    // the name cell carries an integer: that one field falls back to its
    // zero value, the other fields keep their converted values
    process_event(
        &mut mapper,
        &mut updater,
        &ReplicationEvent::WriteRows {
            table_id: 7,
            rows: vec![RowData {
                cells: vec![
                    Some(SqlValue::Int(3)),
                    Some(SqlValue::Int(777)),
                    Some(SqlValue::Int(12)),
                ],
            }],
        },
    );

    assert_eq!(
        write_store_has_campaign(&updater, 3),
        Some(Object::Campaign(Campaign {
            id: 3,
            name: String::new(),
            package_id: 12,
        }))
    );
}

#[test]
fn repeated_table_definition_is_ignored() {
    let mut mapper = campaign_mapper();
    let mut updater = running_updater();

    process_event(
        &mut mapper,
        &mut updater,
        &ReplicationEvent::TableMap { table_id: 7, table_name: "campaign".to_string() },
    );
    // a repeated definition for a known id is ignored
    process_event(
        &mut mapper,
        &mut updater,
        &ReplicationEvent::TableMap { table_id: 7, table_name: "package".to_string() },
    );
    process_event(
        &mut mapper,
        &mut updater,
        &ReplicationEvent::WriteRows { table_id: 7, rows: vec![campaign_row(4, "still", 1)] },
    );

    assert!(write_store_has_campaign(&updater, 4).is_some());
}

#[test]
fn update_and_delete_rows_are_applied() {
    let mut mapper = campaign_mapper();
    let mut updater = running_updater();

    process_event(
        &mut mapper,
        &mut updater,
        &ReplicationEvent::TableMap { table_id: 7, table_name: "campaign".to_string() },
    );
    process_event(
        &mut mapper,
        &mut updater,
        &ReplicationEvent::WriteRows { table_id: 7, rows: vec![campaign_row(1, "v1", 9)] },
    );
    process_event(
        &mut mapper,
        &mut updater,
        &ReplicationEvent::UpdateRows {
            table_id: 7,
            rows: vec![(campaign_row(1, "v1", 9), campaign_row(1, "v2", 9))],
        },
    );
    assert_eq!(
        write_store_has_campaign(&updater, 1),
        Some(Object::Campaign(Campaign {
            id: 1,
            name: "v2".to_string(),
            package_id: 9,
        }))
    );

    process_event(
        &mut mapper,
        &mut updater,
        &ReplicationEvent::DeleteRows { table_id: 7, rows: vec![campaign_row(1, "v2", 9)] },
    );
    assert!(write_store_has_campaign(&updater, 1).is_none());
}

#[test]
fn ignored_event_kinds_change_nothing() {
    let mut mapper = campaign_mapper();
    let mut updater = running_updater();
    process_event(&mut mapper, &mut updater, &ReplicationEvent::Other);
    for slot in [StoreSlot::First, StoreSlot::Second] {
        let raw = updater.store_at(slot).get_raw_data();
        assert!(raw.list(ObjectType::Campaign).is_empty());
    }
}

#[test]
fn convert_matches_types_and_falls_back_to_zero() {
    let v: i32 = convert(&Some(SqlValue::Int(7)));
    assert_eq!(v, 7);
    let v: i32 = convert(&Some(SqlValue::Text("oops".to_string())));
    assert_eq!(v, 0);
    let v: i32 = convert(&None);
    assert_eq!(v, 0);
    let v: i64 = convert(&Some(SqlValue::Int(-5)));
    assert_eq!(v, -5);
    let v: i64 = convert(&Some(SqlValue::BigInt(5)));
    assert_eq!(v, 0);
    let v: bool = convert(&Some(SqlValue::TinyInt(2)));
    assert!(v);
    let v: bool = convert(&Some(SqlValue::TinyInt(0)));
    assert!(!v);
    let v: u8 = convert(&Some(SqlValue::TinyInt(200)));
    assert_eq!(v, 200);
    let v: i8 = convert(&Some(SqlValue::TinyInt(255)));
    assert_eq!(v, -1);
    let v: i16 = convert(&Some(SqlValue::SmallInt(-300)));
    assert_eq!(v, -300);
    let v: String = convert(&Some(SqlValue::Text("keep".to_string())));
    assert_eq!(v, "keep");
    let v: String = convert(&Some(SqlValue::Other));
    assert_eq!(v, "");
}

#[test]
fn field_mapping_resolves_last_occurrence() {
    let mapping = FieldMapping::new(vec![
        "id".to_string(),
        "name".to_string(),
        "name".to_string(),
        "package_id".to_string(),
    ]);
    assert_eq!(mapping.get(&"id".to_string()), Some(0));
    assert_eq!(mapping.get(&"name".to_string()), Some(2));
    assert_eq!(mapping.get(&"package_id".to_string()), Some(3));
    assert_eq!(mapping.get(&"missing".to_string()), None);
}

#[test]
fn short_row_falls_back_to_zero_values() {
    let mapping = FieldMapping::new(vec![
        "id".to_string(),
        "name".to_string(),
        "package_id".to_string(),
    ]);
    let row = RowData { cells: vec![Some(SqlValue::Int(6))] };
    let c = Campaign::from_slave(&row, &mapping);
    assert_eq!(
        c,
        Campaign { id: 6, name: String::new(), package_id: 0 }
    );
}

#[test]
fn table_names_resolve_to_tags() {
    assert_eq!(table_type(&"campaign".to_string()), ObjectType::Campaign);
    assert_eq!(table_type(&"package".to_string()), ObjectType::Package);
    assert_eq!(table_type(&"pad".to_string()), ObjectType::Pad);
    assert_eq!(table_type(&"pad_relation".to_string()), ObjectType::PadRelation);
    assert_eq!(table_type(&"targeting_pad".to_string()), ObjectType::TargetingPad);
    assert_eq!(table_type(&"users".to_string()), ObjectType::Unknown);
    assert_eq!(Campaign::table(), "campaign");
    assert_eq!(TargetingPad::table(), "targeting_pad");
}

#[test]
fn targeting_pad_row_decodes_every_field() {
    let mapping = FieldMapping::new(vec![
        "id".to_string(),
        "object_id".to_string(),
        "object_type".to_string(),
        "positive".to_string(),
    ]);
    let row = RowData {
        cells: vec![
            Some(SqlValue::Int(2)),
            Some(SqlValue::Int(14)),
            Some(SqlValue::Text("campaign".to_string())),
            Some(SqlValue::TinyInt(1)),
        ],
    };
    let t = TargetingPad::from_slave(&row, &mapping);
    assert_eq!(
        t,
        TargetingPad {
            id: 2,
            object_id: 14,
            object_type: "campaign".to_string(),
            positive: true,
        }
    );
}
