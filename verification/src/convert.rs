//! Conversion of replicated row cells to typed object fields.
//!
//! A cell arrives as an optional database value. Conversion to the field's
//! type can fail on a type mismatch or a missing value; such a failure is
//! substituted with the field type's zero value, so one bad field never
//! causes the whole row to be dropped.

use vstd::prelude::*;

verus! {

/// A database cell value, as carried by a row event. `Other` stands for any
/// column type this system does not replicate.
#[derive(Debug)]
pub enum SqlValue {
    TinyInt(u8),
    SmallInt(i16),
    Int(i32),
    BigInt(i64),
    Text(String),
    Other,
}

pub ghost enum SqlValueView {
    TinyInt(u8),
    SmallInt(i16),
    Int(i32),
    BigInt(i64),
    Text(Seq<char>),
    Other,
}

impl View for SqlValue {
    type V = SqlValueView;

    open spec fn view(&self) -> SqlValueView {
        match self {
            SqlValue::TinyInt(v) => SqlValueView::TinyInt(*v),
            SqlValue::SmallInt(v) => SqlValueView::SmallInt(*v),
            SqlValue::Int(v) => SqlValueView::Int(*v),
            SqlValue::BigInt(v) => SqlValueView::BigInt(*v),
            SqlValue::Text(s) => SqlValueView::Text(s@),
            SqlValue::Other => SqlValueView::Other,
        }
    }
}

pub open spec fn sql_opt_view(v: Option<SqlValue>) -> Option<SqlValueView> {
    match v {
        Some(x) => Some(x@),
        None => None,
    }
}

/// A field type that can be read from a database cell.
pub trait FromSqlValue: Sized + View {
    /// Zero value substituted when conversion fails.
    spec fn sql_default_spec() -> Self::V;

    /// Exact meaning of a successful conversion; `None` is a type mismatch.
    spec fn from_sql_spec(v: SqlValueView) -> Option<Self::V>;

    fn sql_default() -> (r: Self)
        ensures
            r@ == Self::sql_default_spec(),
    ;

    fn from(value: &SqlValue) -> (r: Option<Self>)
        ensures
            match r {
                Some(x) => Self::from_sql_spec(value@) == Some(x@),
                None => Self::from_sql_spec(value@) is None,
            },
    ;
}

/// What `convert` yields for a given cell: the converted value, or the zero
/// value on a missing cell or a type mismatch.
pub open spec fn spec_convert<T: FromSqlValue>(v: Option<SqlValueView>) -> T::V {
    match v {
        Some(sv) => match T::from_sql_spec(sv) {
            Some(x) => x,
            None => T::sql_default_spec(),
        },
        None => T::sql_default_spec(),
    }
}

/// Convert one replicated cell to a typed field, substituting the field
/// type's zero value when the cell is missing or of the wrong type.
pub fn convert<T: FromSqlValue>(val: &Option<SqlValue>) -> (r: T)
    ensures
        r@ == spec_convert::<T>(sql_opt_view(*val)),
{
    match val {
        Some(v) => match T::from(v) {
            Some(x) => x,
            None => T::sql_default(),
        },
        None => T::sql_default(),
    }
}

impl FromSqlValue for i8 {
    open spec fn sql_default_spec() -> i8 {
        0
    }

    open spec fn from_sql_spec(v: SqlValueView) -> Option<i8> {
        match v {
            SqlValueView::TinyInt(x) => Some(x as i8),
            _ => None,
        }
    }

    fn sql_default() -> i8 {
        0
    }

    fn from(value: &SqlValue) -> Option<i8> {
        match value {
            SqlValue::TinyInt(v) => Some(*v as i8),
            _ => None,
        }
    }
}

impl FromSqlValue for i16 {
    open spec fn sql_default_spec() -> i16 {
        0
    }

    open spec fn from_sql_spec(v: SqlValueView) -> Option<i16> {
        match v {
            SqlValueView::SmallInt(x) => Some(x),
            _ => None,
        }
    }

    fn sql_default() -> i16 {
        0
    }

    fn from(value: &SqlValue) -> Option<i16> {
        match value {
            SqlValue::SmallInt(v) => Some(*v),
            _ => None,
        }
    }
}

impl FromSqlValue for i32 {
    open spec fn sql_default_spec() -> i32 {
        0
    }

    open spec fn from_sql_spec(v: SqlValueView) -> Option<i32> {
        match v {
            SqlValueView::Int(x) => Some(x),
            _ => None,
        }
    }

    fn sql_default() -> i32 {
        0
    }

    fn from(value: &SqlValue) -> Option<i32> {
        match value {
            SqlValue::Int(v) => Some(*v),
            _ => None,
        }
    }
}

impl FromSqlValue for i64 {
    open spec fn sql_default_spec() -> i64 {
        0
    }

    open spec fn from_sql_spec(v: SqlValueView) -> Option<i64> {
        match v {
            SqlValueView::Int(x) => Some(x as i64),
            _ => None,
        }
    }

    fn sql_default() -> i64 {
        0
    }

    fn from(value: &SqlValue) -> Option<i64> {
        match value {
            SqlValue::Int(v) => Some(*v as i64),
            _ => None,
        }
    }
}

impl FromSqlValue for u8 {
    open spec fn sql_default_spec() -> u8 {
        0
    }

    open spec fn from_sql_spec(v: SqlValueView) -> Option<u8> {
        match v {
            SqlValueView::TinyInt(x) => Some(x),
            _ => None,
        }
    }

    fn sql_default() -> u8 {
        0
    }

    fn from(value: &SqlValue) -> Option<u8> {
        match value {
            SqlValue::TinyInt(v) => Some(*v),
            _ => None,
        }
    }
}

impl FromSqlValue for bool {
    open spec fn sql_default_spec() -> bool {
        false
    }

    open spec fn from_sql_spec(v: SqlValueView) -> Option<bool> {
        match v {
            SqlValueView::TinyInt(x) => Some(x != 0),
            _ => None,
        }
    }

    fn sql_default() -> bool {
        false
    }

    fn from(value: &SqlValue) -> Option<bool> {
        match value {
            SqlValue::TinyInt(v) => Some(*v != 0),
            _ => None,
        }
    }
}

impl FromSqlValue for String {
    open spec fn sql_default_spec() -> Seq<char> {
        Seq::<char>::empty()
    }

    open spec fn from_sql_spec(v: SqlValueView) -> Option<Seq<char>> {
        match v {
            SqlValueView::Text(s) => Some(s),
            _ => None,
        }
    }

    fn sql_default() -> String {
        String::new()
    }

    fn from(value: &SqlValue) -> Option<String> {
        match value {
            SqlValue::Text(s) => Some(s.clone()),
            _ => None,
        }
    }
}

} // verus!
