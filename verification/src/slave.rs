//! The CDC mapper: turns replication row events into typed object
//! mutations.
//!
//! A table-definition event resolves a transient table id to a domain type,
//! once per id. A row event for an unresolved or unknown table id is
//! skipped without error. Row cells are converted field by field through
//! the per-table field mapping obtained at startup; a type whose mapping
//! could not be obtained is skipped (degraded, not fatal). Reading the
//! replication transport itself happens outside the library, which only
//! sees the events as plain values.

use vstd::prelude::*;

use crate::convert::{convert, spec_convert, FromSqlValue, SqlValue, SqlValueView};
use crate::objects::{Campaign, CampaignView, Object, ObjectType, ObjectView};
use crate::objects::{Package, PackageView, Pad, PadRelationView, PadView};
use crate::objects::{PadRelation, TargetingPad, TargetingPadView};
use crate::updater::{apply_to_store, ingested, replay, EventType, Updater, UpdaterPhase, UpdateView};

verus! {

/// One replicated row: its cells, in column-position order.
#[derive(Debug)]
pub struct RowData {
    pub cells: Vec<Option<SqlValue>>,
}

/// The cells of a row, as mathematical values.
pub open spec fn row_view(r: RowData) -> Seq<Option<SqlValueView>> {
    Seq::new(
        r.cells@.len(),
        |i: int|
            match r.cells@[i] {
                Some(v) => Some(v@),
                None => None,
            },
    )
}

/// Per-table field mapping: the ordered column list obtained from schema
/// introspection at startup, immutable thereafter. A column name denotes
/// the position at which it last occurs.
pub struct FieldMapping {
    columns: Vec<String>,
}

/// Position of `name` in the column list: the last index holding it.
pub open spec fn col_pos(cols: Seq<String>, name: Seq<char>) -> Option<int>
    decreases cols.len(),
{
    if cols.len() == 0 {
        None
    } else if cols.last()@ == name {
        Some(cols.len() - 1)
    } else {
        col_pos(cols.drop_last(), name)
    }
}

impl View for FieldMapping {
    type V = Seq<String>;

    closed spec fn view(&self) -> Seq<String> {
        self.columns@
    }
}

impl FieldMapping {
    /// Build the mapping from the introspected column list.
    pub fn new(columns: Vec<String>) -> (m: Self)
        ensures
            m@ == columns@,
    {
        FieldMapping { columns }
    }

    /// Position of the named column, if the table has it.
    pub fn get(&self, name: &String) -> (r: Option<usize>)
        ensures
            match r {
                Some(p) => col_pos(self@, name@) == Some(p as int),
                None => col_pos(self@, name@) is None,
            },
    {
        let mut i: usize = self.columns.len();
        proof {
            assert(self.columns@.take(self.columns@.len() as int) =~= self.columns@);
        }
        while i > 0
            invariant
                i <= self.columns@.len(),
                col_pos(self.columns@, name@) == col_pos(self.columns@.take(i as int), name@),
            decreases i,
        {
            i -= 1;
            let is_match = self.columns[i] == *name;
            proof {
                assert(self.columns@.take(i as int + 1).last() == self.columns@[i as int]);
                assert(self.columns@.take(i as int + 1).drop_last() =~= self.columns@.take(
                    i as int,
                ));
            }
            if is_match {
                return Some(i);
            }
        }
        proof {
            assert(self.columns@.take(0) =~= Seq::<String>::empty());
        }
        None
    }
}

/// Lazily built association from a transient per-connection table id to a
/// domain-type tag.
pub struct TableIdMap {
    entries: Vec<(u64, ObjectType)>,
}

impl TableIdMap {
    spec fn has_key(entries: Seq<(u64, ObjectType)>, k: u64) -> bool {
        exists|i: int| 0 <= i < entries.len() && entries[i].0 == k
    }

    spec fn value_at(entries: Seq<(u64, ObjectType)>, k: u64) -> ObjectType {
        let i = choose|i: int| 0 <= i < entries.len() && entries[i].0 == k;
        entries[i].1
    }

    /// Table ids are pairwise distinct.
    pub closed spec fn wf(self) -> bool {
        forall|i: int, j: int|
            0 <= i < j < self.entries@.len() ==> self.entries@[i].0 != self.entries@[j].0
    }

    pub fn new() -> (m: Self)
        ensures
            m.wf(),
            m@ == Map::<u64, ObjectType>::empty(),
    {
        let m = TableIdMap { entries: Vec::new() };
        proof {
            assert(m@ =~= Map::<u64, ObjectType>::empty());
        }
        m
    }

    /// Index of the entry defining `id`, if any.
    fn find(&self, id: u64) -> (r: Option<usize>)
        ensures
            match r {
                Some(i) => i < self.entries@.len() && self.entries@[i as int].0 == id,
                None => !Self::has_key(self.entries@, id),
            },
    {
        let n = self.entries.len();
        let mut i: usize = 0;
        while i < n
            invariant
                n == self.entries@.len(),
                i <= n,
                forall|j: int| 0 <= j < i ==> self.entries@[j].0 != id,
            decreases n - i,
        {
            if self.entries[i].0 == id {
                return Some(i);
            }
            i += 1;
        }
        None
    }

    /// The type tag a table id resolves to, if the id has been defined.
    pub fn get(&self, id: u64) -> (r: Option<ObjectType>)
        requires
            self.wf(),
        ensures
            match r {
                Some(t) => self@.dom().contains(id) && t == self@[id],
                None => !self@.dom().contains(id),
            },
    {
        match self.find(id) {
            Some(i) => {
                proof {
                    let w = choose|w: int|
                        0 <= w < self.entries@.len() && self.entries@[w].0 == id;
                    assert(w == i as int);
                }
                Some(self.entries[i].1)
            },
            None => None,
        }
    }

    /// Define a table id, once: a repeated definition for a known id is
    /// ignored.
    pub fn define(&mut self, id: u64, t: ObjectType)
        requires
            old(self).wf(),
        ensures
            final(self).wf(),
            final(self)@ == if old(self)@.dom().contains(id) {
                old(self)@
            } else {
                old(self)@.insert(id, t)
            },
    {
        let ghost old_entries = self.entries@;
        match self.find(id) {
            Some(_) => {
            },
            None => {
                self.entries.push((id, t));
                proof {
                    assert forall|k: u64| #[trigger] final(self)@.dom().contains(k)
                        <==> old(self)@.insert(id, t).dom().contains(k) by {
                        if Self::has_key(old_entries, k) {
                            let w = choose|w: int|
                                0 <= w < old_entries.len() && old_entries[w].0 == k;
                            assert(self.entries@[w].0 == k);
                        }
                        if Self::has_key(self.entries@, k) && k != id {
                            let w = choose|w: int|
                                0 <= w < self.entries@.len() && self.entries@[w].0 == k;
                            assert(w < old_entries.len());
                        }
                        assert(self.entries@[old_entries.len() as int].0 == id);
                    }
                    assert forall|k: u64| final(self)@.dom().contains(k)
                        implies #[trigger] final(self)@[k] == old(self)@.insert(id, t)[k] by {
                        let w = choose|w: int|
                            0 <= w < self.entries@.len() && self.entries@[w].0 == k;
                        if k == id {
                            assert(w == old_entries.len() as int);
                        } else {
                            assert(w < old_entries.len());
                            assert(old_entries[w].0 == k);
                        }
                    }
                    assert(final(self)@ =~= old(self)@.insert(id, t));
                }
            },
        }
    }
}

impl View for TableIdMap {
    type V = Map<u64, ObjectType>;

    closed spec fn view(&self) -> Map<u64, ObjectType> {
        Map::new(
            |k: u64| Self::has_key(self.entries@, k),
            |k: u64| Self::value_at(self.entries@, k),
        )
    }
}

/// A domain object that can be built from a replicated row.
pub trait MysqlObject: Sized + View {
    /// The table this type replicates.
    spec fn spec_table() -> Seq<char>;

    fn table() -> (r: &'static str)
        ensures
            r@ == Self::spec_table(),
    ;

    /// Exact meaning of decoding a row under a column list.
    spec fn spec_from_slave(row: Seq<Option<SqlValueView>>, cols: Seq<String>) -> Self::V;

    fn from_slave(row_data: &RowData, mapping: &FieldMapping) -> (r: Self)
        ensures
            r@ == Self::spec_from_slave(row_view(*row_data), mapping@),
    ;
}

/// What one field of a row decodes to: the converted cell at the column's
/// position, or the field type's zero value if the table lacks the column
/// or the row is shorter than the mapping says.
pub open spec fn spec_field<T: FromSqlValue>(
    row: Seq<Option<SqlValueView>>,
    cols: Seq<String>,
    name: Seq<char>,
) -> T::V {
    match col_pos(cols, name) {
        Some(p) => if 0 <= p < row.len() {
            spec_convert::<T>(row[p])
        } else {
            T::sql_default_spec()
        },
        None => T::sql_default_spec(),
    }
}

/// Read one typed field out of a row.
fn read_field<T: FromSqlValue>(row: &RowData, mapping: &FieldMapping, name: &String) -> (r: T)
    ensures
        r@ == spec_field::<T>(row_view(*row), mapping@, name@),
{
    match mapping.get(name) {
        Some(p) => {
            if p < row.cells.len() {
                convert::<T>(&row.cells[p])
            } else {
                T::sql_default()
            }
        },
        None => T::sql_default(),
    }
}

impl MysqlObject for Campaign {
    open spec fn spec_table() -> Seq<char> {
        "campaign"@
    }

    fn table() -> &'static str {
        "campaign"
    }

    open spec fn spec_from_slave(row: Seq<Option<SqlValueView>>, cols: Seq<String>) -> CampaignView {
        CampaignView {
            id: spec_field::<i32>(row, cols, "id"@) as int,
            name: spec_field::<String>(row, cols, "name"@),
            package_id: spec_field::<i32>(row, cols, "package_id"@) as int,
        }
    }

    fn from_slave(row_data: &RowData, mapping: &FieldMapping) -> Self {
        Campaign {
            id: read_field::<i32>(row_data, mapping, &"id".to_owned()),
            name: read_field::<String>(row_data, mapping, &"name".to_owned()),
            package_id: read_field::<i32>(row_data, mapping, &"package_id".to_owned()),
        }
    }
}

impl MysqlObject for Package {
    open spec fn spec_table() -> Seq<char> {
        "package"@
    }

    fn table() -> &'static str {
        "package"
    }

    open spec fn spec_from_slave(row: Seq<Option<SqlValueView>>, cols: Seq<String>) -> PackageView {
        PackageView {
            id: spec_field::<i32>(row, cols, "id"@) as int,
            name: spec_field::<String>(row, cols, "name"@),
        }
    }

    fn from_slave(row_data: &RowData, mapping: &FieldMapping) -> Self {
        Package {
            id: read_field::<i32>(row_data, mapping, &"id".to_owned()),
            name: read_field::<String>(row_data, mapping, &"name".to_owned()),
        }
    }
}

impl MysqlObject for Pad {
    open spec fn spec_table() -> Seq<char> {
        "pad"@
    }

    fn table() -> &'static str {
        "pad"
    }

    open spec fn spec_from_slave(row: Seq<Option<SqlValueView>>, cols: Seq<String>) -> PadView {
        PadView {
            id: spec_field::<i32>(row, cols, "id"@) as int,
            name: spec_field::<String>(row, cols, "name"@),
        }
    }

    fn from_slave(row_data: &RowData, mapping: &FieldMapping) -> Self {
        Pad {
            id: read_field::<i32>(row_data, mapping, &"id".to_owned()),
            name: read_field::<String>(row_data, mapping, &"name".to_owned()),
        }
    }
}

impl MysqlObject for PadRelation {
    open spec fn spec_table() -> Seq<char> {
        "pad_relation"@
    }

    fn table() -> &'static str {
        "pad_relation"
    }

    open spec fn spec_from_slave(row: Seq<Option<SqlValueView>>, cols: Seq<String>) -> PadRelationView {
        PadRelationView {
            id: spec_field::<i32>(row, cols, "id"@) as int,
            pad_id: spec_field::<i32>(row, cols, "pad_id"@) as int,
            parent_pad_id: spec_field::<i32>(row, cols, "parent_pad_id"@) as int,
        }
    }

    fn from_slave(row_data: &RowData, mapping: &FieldMapping) -> Self {
        PadRelation {
            id: read_field::<i32>(row_data, mapping, &"id".to_owned()),
            pad_id: read_field::<i32>(row_data, mapping, &"pad_id".to_owned()),
            parent_pad_id: read_field::<i32>(row_data, mapping, &"parent_pad_id".to_owned()),
        }
    }
}

impl MysqlObject for TargetingPad {
    open spec fn spec_table() -> Seq<char> {
        "targeting_pad"@
    }

    fn table() -> &'static str {
        "targeting_pad"
    }

    open spec fn spec_from_slave(row: Seq<Option<SqlValueView>>, cols: Seq<String>) -> TargetingPadView {
        TargetingPadView {
            id: spec_field::<i32>(row, cols, "id"@) as int,
            object_id: spec_field::<i32>(row, cols, "object_id"@) as int,
            object_type: spec_field::<String>(row, cols, "object_type"@),
            positive: spec_field::<bool>(row, cols, "positive"@),
        }
    }

    fn from_slave(row_data: &RowData, mapping: &FieldMapping) -> Self {
        TargetingPad {
            id: read_field::<i32>(row_data, mapping, &"id".to_owned()),
            object_id: read_field::<i32>(row_data, mapping, &"object_id".to_owned()),
            object_type: read_field::<String>(row_data, mapping, &"object_type".to_owned()),
            positive: read_field::<bool>(row_data, mapping, &"positive".to_owned()),
        }
    }
}

/// The type tag a table name denotes; an unrecognized table is `Unknown`,
/// never an error.
pub open spec fn spec_table_type(name: Seq<char>) -> ObjectType {
    if name == Campaign::spec_table() {
        ObjectType::Campaign
    } else if name == Package::spec_table() {
        ObjectType::Package
    } else if name == Pad::spec_table() {
        ObjectType::Pad
    } else if name == PadRelation::spec_table() {
        ObjectType::PadRelation
    } else if name == TargetingPad::spec_table() {
        ObjectType::TargetingPad
    } else {
        ObjectType::Unknown
    }
}

pub fn table_type(name: &String) -> (t: ObjectType)
    ensures
        t == spec_table_type(name@),
{
    if *name == Campaign::table().to_owned() {
        ObjectType::Campaign
    } else if *name == Package::table().to_owned() {
        ObjectType::Package
    } else if *name == Pad::table().to_owned() {
        ObjectType::Pad
    } else if *name == PadRelation::table().to_owned() {
        ObjectType::PadRelation
    } else if *name == TargetingPad::table().to_owned() {
        ObjectType::TargetingPad
    } else {
        ObjectType::Unknown
    }
}

/// The object a row of a known type decodes to. Meaningless for `Unknown`,
/// which no caller resolves to.
pub open spec fn spec_decode(tag: ObjectType, row: Seq<Option<SqlValueView>>, cols: Seq<String>) -> ObjectView {
    match tag {
        ObjectType::Campaign => ObjectView::Campaign(Campaign::spec_from_slave(row, cols)),
        ObjectType::Package => ObjectView::Package(Package::spec_from_slave(row, cols)),
        ObjectType::Pad => ObjectView::Pad(Pad::spec_from_slave(row, cols)),
        ObjectType::PadRelation => ObjectView::PadRelation(PadRelation::spec_from_slave(row, cols)),
        ObjectType::TargetingPad => ObjectView::TargetingPad(
            TargetingPad::spec_from_slave(row, cols),
        ),
        ObjectType::Unknown => arbitrary(),
    }
}

/// Decode one row as an object of the tagged type.
pub fn object_from_row(tag: ObjectType, row: &RowData, mapping: &FieldMapping) -> (r: Option<
    Object,
>)
    ensures
        match r {
            Some(o) => tag != ObjectType::Unknown && o@ == spec_decode(tag, row_view(*row), mapping@),
            None => tag == ObjectType::Unknown,
        },
{
    match tag {
        ObjectType::Campaign => Some(Object::Campaign(Campaign::from_slave(row, mapping))),
        ObjectType::Package => Some(Object::Package(Package::from_slave(row, mapping))),
        ObjectType::Pad => Some(Object::Pad(Pad::from_slave(row, mapping))),
        ObjectType::PadRelation => Some(Object::PadRelation(PadRelation::from_slave(row, mapping))),
        ObjectType::TargetingPad => Some(
            Object::TargetingPad(TargetingPad::from_slave(row, mapping)),
        ),
        ObjectType::Unknown => None,
    }
}

/// A replication event, as handed to the mapper: row events carry their
/// rows as plain values, a table-definition event carries the table name.
/// `Other` stands for every event kind this system ignores.
#[derive(Debug)]
pub enum ReplicationEvent {
    WriteRows { table_id: u64, rows: Vec<RowData> },
    UpdateRows { table_id: u64, rows: Vec<(RowData, RowData)> },
    DeleteRows { table_id: u64, rows: Vec<RowData> },
    TableMap { table_id: u64, table_name: String },
    Other,
}

/// The CDC mapper's state: the table-identity map, built lazily from
/// table-definition events, and the per-table field mappings built once at
/// startup. A type whose mapping could not be obtained stays `None` and is
/// skipped during ingestion (degraded, not fatal).
pub struct CdcMapper {
    table_id_map: TableIdMap,
    campaign_fields: Option<FieldMapping>,
    package_fields: Option<FieldMapping>,
    pad_fields: Option<FieldMapping>,
    pad_relation_fields: Option<FieldMapping>,
    targeting_pad_fields: Option<FieldMapping>,
}

pub ghost struct MapperView {
    pub table_ids: Map<u64, ObjectType>,
    pub campaign_cols: Option<Seq<String>>,
    pub package_cols: Option<Seq<String>>,
    pub pad_cols: Option<Seq<String>>,
    pub pad_relation_cols: Option<Seq<String>>,
    pub targeting_pad_cols: Option<Seq<String>>,
}

impl MapperView {
    /// The column list known for a type, if its schema was introspected.
    /// The unknown type never has one.
    pub open spec fn cols_for(self, tag: ObjectType) -> Option<Seq<String>> {
        match tag {
            ObjectType::Campaign => self.campaign_cols,
            ObjectType::Package => self.package_cols,
            ObjectType::Pad => self.pad_cols,
            ObjectType::PadRelation => self.pad_relation_cols,
            ObjectType::TargetingPad => self.targeting_pad_cols,
            ObjectType::Unknown => None,
        }
    }
}

impl View for CdcMapper {
    type V = MapperView;

    closed spec fn view(&self) -> MapperView {
        MapperView {
            table_ids: self.table_id_map@,
            campaign_cols: match self.campaign_fields {
                Some(m) => Some(m@),
                None => None,
            },
            package_cols: match self.package_fields {
                Some(m) => Some(m@),
                None => None,
            },
            pad_cols: match self.pad_fields {
                Some(m) => Some(m@),
                None => None,
            },
            pad_relation_cols: match self.pad_relation_fields {
                Some(m) => Some(m@),
                None => None,
            },
            targeting_pad_cols: match self.targeting_pad_fields {
                Some(m) => Some(m@),
                None => None,
            },
        }
    }
}

/// The updates one write-rows event contributes: one insert per row when
/// the table id resolves to a known type whose field mapping is present;
/// nothing otherwise — the rows are skipped, and no error is raised.
pub open spec fn spec_write_updates(m: MapperView, table_id: u64, rows: Seq<RowData>) -> Seq<
    UpdateView,
> {
    if m.table_ids.dom().contains(table_id) {
        match m.cols_for(m.table_ids[table_id]) {
            Some(cols) => Seq::new(
                rows.len(),
                |i: int|
                    UpdateView {
                        obj: spec_decode(m.table_ids[table_id], row_view(rows[i]), cols),
                        old: None,
                        kind: EventType::Insert,
                    },
            ),
            None => Seq::<UpdateView>::empty(),
        }
    } else {
        Seq::<UpdateView>::empty()
    }
}

/// The updates one update-rows event contributes: one replace-by-key per
/// (before, after) row pair, under the same resolution rules.
pub open spec fn spec_update_updates(
    m: MapperView,
    table_id: u64,
    rows: Seq<(RowData, RowData)>,
) -> Seq<UpdateView> {
    if m.table_ids.dom().contains(table_id) {
        match m.cols_for(m.table_ids[table_id]) {
            Some(cols) => Seq::new(
                rows.len(),
                |i: int|
                    UpdateView {
                        obj: spec_decode(m.table_ids[table_id], row_view(rows[i].1), cols),
                        old: Some(spec_decode(m.table_ids[table_id], row_view(rows[i].0), cols)),
                        kind: EventType::Update,
                    },
            ),
            None => Seq::<UpdateView>::empty(),
        }
    } else {
        Seq::<UpdateView>::empty()
    }
}

/// The updates one delete-rows event contributes: one remove-by-key per
/// row, under the same resolution rules.
pub open spec fn spec_delete_updates(m: MapperView, table_id: u64, rows: Seq<RowData>) -> Seq<
    UpdateView,
> {
    if m.table_ids.dom().contains(table_id) {
        match m.cols_for(m.table_ids[table_id]) {
            Some(cols) => Seq::new(
                rows.len(),
                |i: int|
                    UpdateView {
                        obj: spec_decode(m.table_ids[table_id], row_view(rows[i]), cols),
                        old: None,
                        kind: EventType::Delete,
                    },
            ),
            None => Seq::<UpdateView>::empty(),
        }
    } else {
        Seq::<UpdateView>::empty()
    }
}

/// A row event for an unresolved or unknown table id contributes nothing:
/// no store mutation, and no error — the rows are silently skipped.
pub proof fn lemma_unknown_table_skipped(
    m: MapperView,
    table_id: u64,
    rows: Seq<RowData>,
    pairs: Seq<(RowData, RowData)>,
)
    requires
        !m.table_ids.dom().contains(table_id) || m.table_ids[table_id] == ObjectType::Unknown,
    ensures
        spec_write_updates(m, table_id, rows) == Seq::<UpdateView>::empty(),
        spec_update_updates(m, table_id, pairs) == Seq::<UpdateView>::empty(),
        spec_delete_updates(m, table_id, rows) == Seq::<UpdateView>::empty(),
{
}

impl CdcMapper {
    pub closed spec fn wf(self) -> bool {
        self.table_id_map.wf()
    }

    /// A mapper that has seen no table definitions and holds no field
    /// mappings yet.
    pub fn new() -> (m: Self)
        ensures
            m.wf(),
            m@.table_ids == Map::<u64, ObjectType>::empty(),
            m@.campaign_cols is None,
            m@.package_cols is None,
            m@.pad_cols is None,
            m@.pad_relation_cols is None,
            m@.targeting_pad_cols is None,
    {
        CdcMapper {
            table_id_map: TableIdMap::new(),
            campaign_fields: None,
            package_fields: None,
            pad_fields: None,
            pad_relation_fields: None,
            targeting_pad_fields: None,
        }
    }

    /// Record the introspected column list for one type, at startup. For
    /// the unknown type this does nothing.
    pub fn fill_fields_map(&mut self, tag: ObjectType, columns: Vec<String>)
        requires
            old(self).wf(),
        ensures
            final(self).wf(),
            final(self)@.table_ids == old(self)@.table_ids,
            tag != ObjectType::Unknown ==> final(self)@.cols_for(tag) == Some(columns@),
            forall|t: ObjectType| t != tag ==> final(self)@.cols_for(t) == old(self)@.cols_for(t),
    {
        let mapping = FieldMapping::new(columns);
        match tag {
            ObjectType::Campaign => self.campaign_fields = Some(mapping),
            ObjectType::Package => self.package_fields = Some(mapping),
            ObjectType::Pad => self.pad_fields = Some(mapping),
            ObjectType::PadRelation => self.pad_relation_fields = Some(mapping),
            ObjectType::TargetingPad => self.targeting_pad_fields = Some(mapping),
            ObjectType::Unknown => {},
        }
    }

    /// The field mapping held for a type, if any.
    fn mapping_for(&self, tag: ObjectType) -> (r: Option<&FieldMapping>)
        ensures
            match r {
                Some(m) => self@.cols_for(tag) == Some(m@),
                None => self@.cols_for(tag) is None,
            },
    {
        match tag {
            ObjectType::Campaign => self.campaign_fields.as_ref(),
            ObjectType::Package => self.package_fields.as_ref(),
            ObjectType::Pad => self.pad_fields.as_ref(),
            ObjectType::PadRelation => self.pad_relation_fields.as_ref(),
            ObjectType::TargetingPad => self.targeting_pad_fields.as_ref(),
            ObjectType::Unknown => None,
        }
    }

    /// A table-definition event: resolve the table id to a type tag, once;
    /// a repeated definition for a known id is ignored.
    pub fn process_table_map(&mut self, table_id: u64, table_name: &String)
        requires
            old(self).wf(),
        ensures
            final(self).wf(),
            final(self)@.table_ids == if old(self)@.table_ids.dom().contains(table_id) {
                old(self)@.table_ids
            } else {
                old(self)@.table_ids.insert(table_id, spec_table_type(table_name@))
            },
            final(self)@.campaign_cols == old(self)@.campaign_cols,
            final(self)@.package_cols == old(self)@.package_cols,
            final(self)@.pad_cols == old(self)@.pad_cols,
            final(self)@.pad_relation_cols == old(self)@.pad_relation_cols,
            final(self)@.targeting_pad_cols == old(self)@.targeting_pad_cols,
    {
        let t = table_type(table_name);
        self.table_id_map.define(table_id, t);
    }
}

/// Process one write-rows event: each row of a resolved, mapped table is
/// decoded and applied as an insert; rows of an unresolved or unknown table
/// or of a type without a field mapping are skipped without error.
pub fn process_write(mapper: &CdcMapper, updater: &mut Updater, table_id: u64, rows: &Vec<RowData>)
    requires
        mapper.wf(),
        old(updater).wf(),
        old(updater)@.phase == UpdaterPhase::Running || old(updater)@.phase
            == UpdaterPhase::Stopping,
    ensures
        final(updater).wf(),
        final(updater)@.pending == old(updater)@.pending + spec_write_updates(
            mapper@,
            table_id,
            rows@,
        ),
        final(updater)@.write_store().objects == replay(
            old(updater)@.write_store().objects,
            spec_write_updates(mapper@, table_id, rows@),
        ),
        final(updater)@.write_store().id == old(updater)@.write_store().id,
        final(updater)@.write_store().stat == old(updater)@.write_store().stat,
        final(updater)@.read_store() == old(updater)@.read_store(),
        final(updater)@.read_slot == old(updater)@.read_slot,
        final(updater)@.iteration == old(updater)@.iteration,
        final(updater)@.phase == old(updater)@.phase,
        final(updater)@.slave_finished == old(updater)@.slave_finished,
        final(updater)@.cron_finished == old(updater)@.cron_finished,
        final(updater)@.swap_interval == old(updater)@.swap_interval,
{
    let ghost ups = spec_write_updates(mapper@, table_id, rows@);
    let tag = match mapper.table_id_map.get(table_id) {
        Some(t) => t,
        None => {
            proof {
                assert(old(updater)@.pending + ups =~= old(updater)@.pending);
            }
            return ;
        },
    };
    let mapping = match mapper.mapping_for(tag) {
        Some(m) => m,
        None => {
            proof {
                assert(old(updater)@.pending + ups =~= old(updater)@.pending);
            }
            return ;
        },
    };
    proof {
        assert(tag != ObjectType::Unknown);
        assert(old(updater)@.pending + ups.take(0) =~= old(updater)@.pending);
    }
    let n = rows.len();
    let mut i: usize = 0;
    while i < n
        invariant
            updater.wf(),
            n == rows@.len(),
            i <= n,
            ups == spec_write_updates(mapper@, table_id, rows@),
            ups.len() == rows@.len(),
            tag != ObjectType::Unknown,
            mapper@.table_ids.dom().contains(table_id) && mapper@.table_ids[table_id] == tag,
            mapper@.cols_for(tag) == Some(mapping@),
            forall|j: int|
                0 <= j < ups.len() ==> #[trigger] ups[j] == (UpdateView {
                    obj: spec_decode(tag, row_view(rows@[j]), mapping@),
                    old: None,
                    kind: EventType::Insert,
                }),
            old(updater)@.phase == UpdaterPhase::Running || old(updater)@.phase
                == UpdaterPhase::Stopping,
            updater@.pending == old(updater)@.pending + ups.take(i as int),
            updater@.write_store().objects == replay(
                old(updater)@.write_store().objects,
                ups.take(i as int),
            ),
            updater@.write_store().id == old(updater)@.write_store().id,
            updater@.write_store().stat == old(updater)@.write_store().stat,
            updater@.read_store() == old(updater)@.read_store(),
            updater@.read_slot == old(updater)@.read_slot,
            updater@.iteration == old(updater)@.iteration,
            updater@.phase == old(updater)@.phase,
            updater@.slave_finished == old(updater)@.slave_finished,
            updater@.cron_finished == old(updater)@.cron_finished,
            updater@.swap_interval == old(updater)@.swap_interval,
        decreases n - i,
    {
        let obj = match object_from_row(tag, &rows[i], mapping) {
            Some(o) => o,
            None => vstd::pervasive::unreached(),
        };
        proof {
            assert(ups[i as int] == ingested(obj, None, EventType::Insert));
        }
        apply_to_store(updater, obj, None, EventType::Insert);
        proof {
            assert(ups.take(i as int + 1).drop_last() =~= ups.take(i as int));
            assert(ups.take(i as int + 1).last() == ups[i as int]);
            assert(old(updater)@.pending + ups.take(i as int + 1) =~= (old(updater)@.pending
                + ups.take(i as int)).push(ups[i as int]));
        }
        i += 1;
    }
    proof {
        assert(ups.take(n as int) =~= ups);
    }
}

/// Process one update-rows event: each (before, after) pair of a resolved,
/// mapped table is applied as a replace-by-key with the before image
/// attached; unresolved or unmapped tables are skipped without error.
pub fn process_update(
    mapper: &CdcMapper,
    updater: &mut Updater,
    table_id: u64,
    rows: &Vec<(RowData, RowData)>,
)
    requires
        mapper.wf(),
        old(updater).wf(),
        old(updater)@.phase == UpdaterPhase::Running || old(updater)@.phase
            == UpdaterPhase::Stopping,
    ensures
        final(updater).wf(),
        final(updater)@.pending == old(updater)@.pending + spec_update_updates(
            mapper@,
            table_id,
            rows@,
        ),
        final(updater)@.write_store().objects == replay(
            old(updater)@.write_store().objects,
            spec_update_updates(mapper@, table_id, rows@),
        ),
        final(updater)@.write_store().id == old(updater)@.write_store().id,
        final(updater)@.write_store().stat == old(updater)@.write_store().stat,
        final(updater)@.read_store() == old(updater)@.read_store(),
        final(updater)@.read_slot == old(updater)@.read_slot,
        final(updater)@.iteration == old(updater)@.iteration,
        final(updater)@.phase == old(updater)@.phase,
        final(updater)@.slave_finished == old(updater)@.slave_finished,
        final(updater)@.cron_finished == old(updater)@.cron_finished,
        final(updater)@.swap_interval == old(updater)@.swap_interval,
{
    let ghost ups = spec_update_updates(mapper@, table_id, rows@);
    let tag = match mapper.table_id_map.get(table_id) {
        Some(t) => t,
        None => {
            proof {
                assert(old(updater)@.pending + ups =~= old(updater)@.pending);
            }
            return ;
        },
    };
    let mapping = match mapper.mapping_for(tag) {
        Some(m) => m,
        None => {
            proof {
                assert(old(updater)@.pending + ups =~= old(updater)@.pending);
            }
            return ;
        },
    };
    proof {
        assert(tag != ObjectType::Unknown);
        assert(old(updater)@.pending + ups.take(0) =~= old(updater)@.pending);
    }
    let n = rows.len();
    let mut i: usize = 0;
    while i < n
        invariant
            updater.wf(),
            n == rows@.len(),
            i <= n,
            ups == spec_update_updates(mapper@, table_id, rows@),
            ups.len() == rows@.len(),
            tag != ObjectType::Unknown,
            mapper@.table_ids.dom().contains(table_id) && mapper@.table_ids[table_id] == tag,
            mapper@.cols_for(tag) == Some(mapping@),
            forall|j: int|
                0 <= j < ups.len() ==> #[trigger] ups[j] == (UpdateView {
                    obj: spec_decode(tag, row_view(rows@[j].1), mapping@),
                    old: Some(spec_decode(tag, row_view(rows@[j].0), mapping@)),
                    kind: EventType::Update,
                }),
            old(updater)@.phase == UpdaterPhase::Running || old(updater)@.phase
                == UpdaterPhase::Stopping,
            updater@.pending == old(updater)@.pending + ups.take(i as int),
            updater@.write_store().objects == replay(
                old(updater)@.write_store().objects,
                ups.take(i as int),
            ),
            updater@.write_store().id == old(updater)@.write_store().id,
            updater@.write_store().stat == old(updater)@.write_store().stat,
            updater@.read_store() == old(updater)@.read_store(),
            updater@.read_slot == old(updater)@.read_slot,
            updater@.iteration == old(updater)@.iteration,
            updater@.phase == old(updater)@.phase,
            updater@.slave_finished == old(updater)@.slave_finished,
            updater@.cron_finished == old(updater)@.cron_finished,
            updater@.swap_interval == old(updater)@.swap_interval,
        decreases n - i,
    {
        let old_obj = match object_from_row(tag, &rows[i].0, mapping) {
            Some(o) => o,
            None => vstd::pervasive::unreached(),
        };
        let obj = match object_from_row(tag, &rows[i].1, mapping) {
            Some(o) => o,
            None => vstd::pervasive::unreached(),
        };
        proof {
            assert(ups[i as int] == ingested(obj, Some(old_obj), EventType::Update));
        }
        apply_to_store(updater, obj, Some(old_obj), EventType::Update);
        proof {
            assert(ups.take(i as int + 1).drop_last() =~= ups.take(i as int));
            assert(ups.take(i as int + 1).last() == ups[i as int]);
            assert(old(updater)@.pending + ups.take(i as int + 1) =~= (old(updater)@.pending
                + ups.take(i as int)).push(ups[i as int]));
        }
        i += 1;
    }
    proof {
        assert(ups.take(n as int) =~= ups);
    }
}

/// Process one delete-rows event: each row of a resolved, mapped table is
/// applied as a remove-by-key; unresolved or unmapped tables are skipped
/// without error.
pub fn process_delete(mapper: &CdcMapper, updater: &mut Updater, table_id: u64, rows: &Vec<RowData>)
    requires
        mapper.wf(),
        old(updater).wf(),
        old(updater)@.phase == UpdaterPhase::Running || old(updater)@.phase
            == UpdaterPhase::Stopping,
    ensures
        final(updater).wf(),
        final(updater)@.pending == old(updater)@.pending + spec_delete_updates(
            mapper@,
            table_id,
            rows@,
        ),
        final(updater)@.write_store().objects == replay(
            old(updater)@.write_store().objects,
            spec_delete_updates(mapper@, table_id, rows@),
        ),
        final(updater)@.write_store().id == old(updater)@.write_store().id,
        final(updater)@.write_store().stat == old(updater)@.write_store().stat,
        final(updater)@.read_store() == old(updater)@.read_store(),
        final(updater)@.read_slot == old(updater)@.read_slot,
        final(updater)@.iteration == old(updater)@.iteration,
        final(updater)@.phase == old(updater)@.phase,
        final(updater)@.slave_finished == old(updater)@.slave_finished,
        final(updater)@.cron_finished == old(updater)@.cron_finished,
        final(updater)@.swap_interval == old(updater)@.swap_interval,
{
    let ghost ups = spec_delete_updates(mapper@, table_id, rows@);
    let tag = match mapper.table_id_map.get(table_id) {
        Some(t) => t,
        None => {
            proof {
                assert(old(updater)@.pending + ups =~= old(updater)@.pending);
            }
            return ;
        },
    };
    let mapping = match mapper.mapping_for(tag) {
        Some(m) => m,
        None => {
            proof {
                assert(old(updater)@.pending + ups =~= old(updater)@.pending);
            }
            return ;
        },
    };
    proof {
        assert(tag != ObjectType::Unknown);
        assert(old(updater)@.pending + ups.take(0) =~= old(updater)@.pending);
    }
    let n = rows.len();
    let mut i: usize = 0;
    while i < n
        invariant
            updater.wf(),
            n == rows@.len(),
            i <= n,
            ups == spec_delete_updates(mapper@, table_id, rows@),
            ups.len() == rows@.len(),
            tag != ObjectType::Unknown,
            mapper@.table_ids.dom().contains(table_id) && mapper@.table_ids[table_id] == tag,
            mapper@.cols_for(tag) == Some(mapping@),
            forall|j: int|
                0 <= j < ups.len() ==> #[trigger] ups[j] == (UpdateView {
                    obj: spec_decode(tag, row_view(rows@[j]), mapping@),
                    old: None,
                    kind: EventType::Delete,
                }),
            old(updater)@.phase == UpdaterPhase::Running || old(updater)@.phase
                == UpdaterPhase::Stopping,
            updater@.pending == old(updater)@.pending + ups.take(i as int),
            updater@.write_store().objects == replay(
                old(updater)@.write_store().objects,
                ups.take(i as int),
            ),
            updater@.write_store().id == old(updater)@.write_store().id,
            updater@.write_store().stat == old(updater)@.write_store().stat,
            updater@.read_store() == old(updater)@.read_store(),
            updater@.read_slot == old(updater)@.read_slot,
            updater@.iteration == old(updater)@.iteration,
            updater@.phase == old(updater)@.phase,
            updater@.slave_finished == old(updater)@.slave_finished,
            updater@.cron_finished == old(updater)@.cron_finished,
            updater@.swap_interval == old(updater)@.swap_interval,
        decreases n - i,
    {
        let obj = match object_from_row(tag, &rows[i], mapping) {
            Some(o) => o,
            None => vstd::pervasive::unreached(),
        };
        proof {
            assert(ups[i as int] == ingested(obj, None, EventType::Delete));
        }
        apply_to_store(updater, obj, None, EventType::Delete);
        proof {
            assert(ups.take(i as int + 1).drop_last() =~= ups.take(i as int));
            assert(ups.take(i as int + 1).last() == ups[i as int]);
            assert(old(updater)@.pending + ups.take(i as int + 1) =~= (old(updater)@.pending
                + ups.take(i as int)).push(ups[i as int]));
        }
        i += 1;
    }
    proof {
        assert(ups.take(n as int) =~= ups);
    }
}

/// The updates one event contributes to the pending queue and write store.
pub open spec fn spec_event_updates(m: MapperView, event: ReplicationEvent) -> Seq<UpdateView> {
    match event {
        ReplicationEvent::WriteRows { table_id, rows } => spec_write_updates(m, table_id, rows@),
        ReplicationEvent::UpdateRows { table_id, rows } => spec_update_updates(m, table_id, rows@),
        ReplicationEvent::DeleteRows { table_id, rows } => spec_delete_updates(m, table_id, rows@),
        ReplicationEvent::TableMap { .. } => Seq::<UpdateView>::empty(),
        ReplicationEvent::Other => Seq::<UpdateView>::empty(),
    }
}

/// The table-identity map after one event: a table-definition event defines
/// its id once, every other event leaves the map alone.
pub open spec fn spec_event_table_ids(m: MapperView, event: ReplicationEvent) -> Map<
    u64,
    ObjectType,
> {
    match event {
        ReplicationEvent::TableMap { table_id, table_name } => if m.table_ids.dom().contains(
            table_id,
        ) {
            m.table_ids
        } else {
            m.table_ids.insert(table_id, spec_table_type(table_name@))
        },
        _ => m.table_ids,
    }
}

/// Process one replication event: a table-definition event resolves its
/// table id, row events become typed mutations applied to the write store
/// and queued for replay, and any other event kind is ignored.
pub fn process_event(mapper: &mut CdcMapper, updater: &mut Updater, event: &ReplicationEvent)
    requires
        old(mapper).wf(),
        old(updater).wf(),
        old(updater)@.phase == UpdaterPhase::Running || old(updater)@.phase
            == UpdaterPhase::Stopping,
    ensures
        final(mapper).wf(),
        final(updater).wf(),
        final(mapper)@.table_ids == spec_event_table_ids(old(mapper)@, *event),
        final(mapper)@.campaign_cols == old(mapper)@.campaign_cols,
        final(mapper)@.package_cols == old(mapper)@.package_cols,
        final(mapper)@.pad_cols == old(mapper)@.pad_cols,
        final(mapper)@.pad_relation_cols == old(mapper)@.pad_relation_cols,
        final(mapper)@.targeting_pad_cols == old(mapper)@.targeting_pad_cols,
        final(updater)@.pending == old(updater)@.pending + spec_event_updates(
            old(mapper)@,
            *event,
        ),
        final(updater)@.write_store().objects == replay(
            old(updater)@.write_store().objects,
            spec_event_updates(old(mapper)@, *event),
        ),
        final(updater)@.write_store().id == old(updater)@.write_store().id,
        final(updater)@.write_store().stat == old(updater)@.write_store().stat,
        final(updater)@.read_store() == old(updater)@.read_store(),
        final(updater)@.read_slot == old(updater)@.read_slot,
        final(updater)@.iteration == old(updater)@.iteration,
        final(updater)@.phase == old(updater)@.phase,
        final(updater)@.slave_finished == old(updater)@.slave_finished,
        final(updater)@.cron_finished == old(updater)@.cron_finished,
        final(updater)@.swap_interval == old(updater)@.swap_interval,
{
    match event {
        ReplicationEvent::WriteRows { table_id, rows } => {
            process_write(mapper, updater, *table_id, rows);
        },
        ReplicationEvent::UpdateRows { table_id, rows } => {
            process_update(mapper, updater, *table_id, rows);
        },
        ReplicationEvent::DeleteRows { table_id, rows } => {
            process_delete(mapper, updater, *table_id, rows);
        },
        ReplicationEvent::TableMap { table_id, table_name } => {
            mapper.process_table_map(*table_id, table_name);
            proof {
                assert(old(updater)@.pending + spec_event_updates(old(mapper)@, *event)
                    =~= old(updater)@.pending);
            }
        },
        ReplicationEvent::Other => {
            proof {
                assert(old(updater)@.pending + spec_event_updates(old(mapper)@, *event)
                    =~= old(updater)@.pending);
            }
        },
    }
}

/// A single field conversion failure does not discard the rest of the row:
/// two rows that differ only in one cell decode to campaigns that agree on
/// every field not mapped to that cell, whatever the differing cell holds.
pub proof fn lemma_bad_field_is_isolated(
    row1: Seq<Option<SqlValueView>>,
    row2: Seq<Option<SqlValueView>>,
    cols: Seq<String>,
    p: int,
)
    requires
        row1.len() == row2.len(),
        forall|j: int| 0 <= j < row1.len() && j != p ==> row1[j] == row2[j],
    ensures
        col_pos(cols, "id"@) != Some(p) ==> Campaign::spec_from_slave(row1, cols).id
            == Campaign::spec_from_slave(row2, cols).id,
        col_pos(cols, "name"@) != Some(p) ==> Campaign::spec_from_slave(row1, cols).name
            == Campaign::spec_from_slave(row2, cols).name,
        col_pos(cols, "package_id"@) != Some(p) ==> Campaign::spec_from_slave(row1, cols).package_id
            == Campaign::spec_from_slave(row2, cols).package_id,
{
}

} // verus!
