use vstd::prelude::*;
use crate::value::Value;

verus! {

/// The remote type identifiers this driver model distinguishes, one per
/// wire-level type the argument encoder can name.
#[derive(Clone, Copy, Debug, PartialEq, Eq, Structural)]
pub enum PgTypeInfo {
    Unknown,
    Bool,
    Int2,
    Int4,
    Int8,
    Float4,
    Float8,
    Varchar,
    Bytea,
    ByteaArray,
    Uuid,
    Numeric,
    Date,
    Time,
    Timestamp,
    Timestamptz,
    Timetz,
    Char,
    Name,
    Text,
    Oid,
    Json,
    Jsonb,
    Point,
    Lseg,
    Path,
    PgBox,
    Polygon,
    Line,
    Cidr,
    Circle,
    Macaddr8,
    Macaddr,
    Inet,
    Bpchar,
    Interval,
    Bit,
    Varbit,
    Record,
    Int4Range,
    NumRange,
    TsRange,
    TstzRange,
    DateRange,
    Int8Range,
    Jsonpath,
    Money,
    Void,
    BoolArray,
    Int4Array,
    Int8Array,
    Float4Array,
    Float8Array,
    VarcharArray,
    TextArray,
}

/// The array type whose elements have type `t`, where the model knows
/// one; the unknown type otherwise.
pub open spec fn spec_array_element(t: PgTypeInfo) -> PgTypeInfo {
    match t {
        PgTypeInfo::Bool => PgTypeInfo::BoolArray,
        PgTypeInfo::Int4 => PgTypeInfo::Int4Array,
        PgTypeInfo::Int8 => PgTypeInfo::Int8Array,
        PgTypeInfo::Float4 => PgTypeInfo::Float4Array,
        PgTypeInfo::Float8 => PgTypeInfo::Float8Array,
        PgTypeInfo::Varchar => PgTypeInfo::VarcharArray,
        PgTypeInfo::Text => PgTypeInfo::TextArray,
        _ => PgTypeInfo::Unknown,
    }
}

/// Executable counterpart of `spec_array_element`.
fn array_element(t: PgTypeInfo) -> (r: PgTypeInfo)
    ensures
        r == spec_array_element(t),
{
    match t {
        PgTypeInfo::Bool => PgTypeInfo::BoolArray,
        PgTypeInfo::Int4 => PgTypeInfo::Int4Array,
        PgTypeInfo::Int8 => PgTypeInfo::Int8Array,
        PgTypeInfo::Float4 => PgTypeInfo::Float4Array,
        PgTypeInfo::Float8 => PgTypeInfo::Float8Array,
        PgTypeInfo::Varchar => PgTypeInfo::VarcharArray,
        PgTypeInfo::Text => PgTypeInfo::TextArray,
        _ => PgTypeInfo::Unknown,
    }
}

/// The remote type named by an extension value's tag.
pub open spec fn spec_ext_pg_type(t: Seq<char>) -> PgTypeInfo {
    if t == "Uuid"@ {
        PgTypeInfo::Uuid
    } else if t == "Decimal"@ {
        PgTypeInfo::Numeric
    } else if t == "Date"@ {
        PgTypeInfo::Date
    } else if t == "Time"@ {
        PgTypeInfo::Time
    } else if t == "Timestamp"@ {
        PgTypeInfo::Timestamp
    } else if t == "DateTime"@ {
        PgTypeInfo::Timestamp
    } else if t == "Bool"@ {
        PgTypeInfo::Bool
    } else if t == "Bytea"@ {
        PgTypeInfo::Bytea
    } else if t == "Char"@ {
        PgTypeInfo::Char
    } else if t == "Name"@ {
        PgTypeInfo::Name
    } else if t == "Int8"@ {
        PgTypeInfo::Int8
    } else if t == "Int2"@ {
        PgTypeInfo::Int2
    } else if t == "Int4"@ {
        PgTypeInfo::Int4
    } else if t == "Text"@ {
        PgTypeInfo::Text
    } else if t == "Oid"@ {
        PgTypeInfo::Oid
    } else if t == "Json"@ {
        PgTypeInfo::Json
    } else if t == "Point"@ {
        PgTypeInfo::Point
    } else if t == "Lseg"@ {
        PgTypeInfo::Lseg
    } else if t == "Path"@ {
        PgTypeInfo::Path
    } else if t == "Box"@ {
        PgTypeInfo::PgBox
    } else if t == "Polygon"@ {
        PgTypeInfo::Polygon
    } else if t == "Line"@ {
        PgTypeInfo::Line
    } else if t == "Cidr"@ {
        PgTypeInfo::Cidr
    } else if t == "Float4"@ {
        PgTypeInfo::Float4
    } else if t == "Float8"@ {
        PgTypeInfo::Float8
    } else if t == "Unknown"@ {
        PgTypeInfo::Unknown
    } else if t == "Circle"@ {
        PgTypeInfo::Circle
    } else if t == "Macaddr8"@ {
        PgTypeInfo::Macaddr8
    } else if t == "Macaddr"@ {
        PgTypeInfo::Macaddr
    } else if t == "Inet"@ {
        PgTypeInfo::Inet
    } else if t == "Bpchar"@ {
        PgTypeInfo::Bpchar
    } else if t == "Varchar"@ {
        PgTypeInfo::Varchar
    } else if t == "Timestamptz"@ {
        PgTypeInfo::Timestamptz
    } else if t == "Interval"@ {
        PgTypeInfo::Interval
    } else if t == "Timetz"@ {
        PgTypeInfo::Timetz
    } else if t == "Bit"@ {
        PgTypeInfo::Bit
    } else if t == "Varbit"@ {
        PgTypeInfo::Varbit
    } else if t == "Numeric"@ {
        PgTypeInfo::Numeric
    } else if t == "Record"@ {
        PgTypeInfo::Record
    } else if t == "Jsonb"@ {
        PgTypeInfo::Jsonb
    } else if t == "Int4Range"@ {
        PgTypeInfo::Int4Range
    } else if t == "NumRange"@ {
        PgTypeInfo::NumRange
    } else if t == "TsRange"@ {
        PgTypeInfo::TsRange
    } else if t == "TstzRange"@ {
        PgTypeInfo::TstzRange
    } else if t == "DateRange"@ {
        PgTypeInfo::DateRange
    } else if t == "Int8Range"@ {
        PgTypeInfo::Int8Range
    } else if t == "Jsonpath"@ {
        PgTypeInfo::Jsonpath
    } else if t == "Money"@ {
        PgTypeInfo::Money
    } else if t == "Void"@ {
        PgTypeInfo::Void
    } else if t == "Custom"@ {
        PgTypeInfo::Unknown
    } else if t == "DeclareWithName"@ {
        PgTypeInfo::Unknown
    } else if t == "DeclareWithOid"@ {
        PgTypeInfo::Unknown
    } else {
        PgTypeInfo::Unknown
    }
}

/// Executable counterpart of `spec_ext_pg_type`.
fn ext_pg_type(tag: &str) -> (r: PgTypeInfo)
    ensures
        r == spec_ext_pg_type(tag@),
{
    if crate::string_util::str_eq(tag, "Uuid") {
        PgTypeInfo::Uuid
    } else if crate::string_util::str_eq(tag, "Decimal") {
        PgTypeInfo::Numeric
    } else if crate::string_util::str_eq(tag, "Date") {
        PgTypeInfo::Date
    } else if crate::string_util::str_eq(tag, "Time") {
        PgTypeInfo::Time
    } else if crate::string_util::str_eq(tag, "Timestamp") {
        PgTypeInfo::Timestamp
    } else if crate::string_util::str_eq(tag, "DateTime") {
        PgTypeInfo::Timestamp
    } else if crate::string_util::str_eq(tag, "Bool") {
        PgTypeInfo::Bool
    } else if crate::string_util::str_eq(tag, "Bytea") {
        PgTypeInfo::Bytea
    } else if crate::string_util::str_eq(tag, "Char") {
        PgTypeInfo::Char
    } else if crate::string_util::str_eq(tag, "Name") {
        PgTypeInfo::Name
    } else if crate::string_util::str_eq(tag, "Int8") {
        PgTypeInfo::Int8
    } else if crate::string_util::str_eq(tag, "Int2") {
        PgTypeInfo::Int2
    } else if crate::string_util::str_eq(tag, "Int4") {
        PgTypeInfo::Int4
    } else if crate::string_util::str_eq(tag, "Text") {
        PgTypeInfo::Text
    } else if crate::string_util::str_eq(tag, "Oid") {
        PgTypeInfo::Oid
    } else if crate::string_util::str_eq(tag, "Json") {
        PgTypeInfo::Json
    } else if crate::string_util::str_eq(tag, "Point") {
        PgTypeInfo::Point
    } else if crate::string_util::str_eq(tag, "Lseg") {
        PgTypeInfo::Lseg
    } else if crate::string_util::str_eq(tag, "Path") {
        PgTypeInfo::Path
    } else if crate::string_util::str_eq(tag, "Box") {
        PgTypeInfo::PgBox
    } else if crate::string_util::str_eq(tag, "Polygon") {
        PgTypeInfo::Polygon
    } else if crate::string_util::str_eq(tag, "Line") {
        PgTypeInfo::Line
    } else if crate::string_util::str_eq(tag, "Cidr") {
        PgTypeInfo::Cidr
    } else if crate::string_util::str_eq(tag, "Float4") {
        PgTypeInfo::Float4
    } else if crate::string_util::str_eq(tag, "Float8") {
        PgTypeInfo::Float8
    } else if crate::string_util::str_eq(tag, "Unknown") {
        PgTypeInfo::Unknown
    } else if crate::string_util::str_eq(tag, "Circle") {
        PgTypeInfo::Circle
    } else if crate::string_util::str_eq(tag, "Macaddr8") {
        PgTypeInfo::Macaddr8
    } else if crate::string_util::str_eq(tag, "Macaddr") {
        PgTypeInfo::Macaddr
    } else if crate::string_util::str_eq(tag, "Inet") {
        PgTypeInfo::Inet
    } else if crate::string_util::str_eq(tag, "Bpchar") {
        PgTypeInfo::Bpchar
    } else if crate::string_util::str_eq(tag, "Varchar") {
        PgTypeInfo::Varchar
    } else if crate::string_util::str_eq(tag, "Timestamptz") {
        PgTypeInfo::Timestamptz
    } else if crate::string_util::str_eq(tag, "Interval") {
        PgTypeInfo::Interval
    } else if crate::string_util::str_eq(tag, "Timetz") {
        PgTypeInfo::Timetz
    } else if crate::string_util::str_eq(tag, "Bit") {
        PgTypeInfo::Bit
    } else if crate::string_util::str_eq(tag, "Varbit") {
        PgTypeInfo::Varbit
    } else if crate::string_util::str_eq(tag, "Numeric") {
        PgTypeInfo::Numeric
    } else if crate::string_util::str_eq(tag, "Record") {
        PgTypeInfo::Record
    } else if crate::string_util::str_eq(tag, "Jsonb") {
        PgTypeInfo::Jsonb
    } else if crate::string_util::str_eq(tag, "Int4Range") {
        PgTypeInfo::Int4Range
    } else if crate::string_util::str_eq(tag, "NumRange") {
        PgTypeInfo::NumRange
    } else if crate::string_util::str_eq(tag, "TsRange") {
        PgTypeInfo::TsRange
    } else if crate::string_util::str_eq(tag, "TstzRange") {
        PgTypeInfo::TstzRange
    } else if crate::string_util::str_eq(tag, "DateRange") {
        PgTypeInfo::DateRange
    } else if crate::string_util::str_eq(tag, "Int8Range") {
        PgTypeInfo::Int8Range
    } else if crate::string_util::str_eq(tag, "Jsonpath") {
        PgTypeInfo::Jsonpath
    } else if crate::string_util::str_eq(tag, "Money") {
        PgTypeInfo::Money
    } else if crate::string_util::str_eq(tag, "Void") {
        PgTypeInfo::Void
    } else if crate::string_util::str_eq(tag, "Custom") {
        PgTypeInfo::Unknown
    } else if crate::string_util::str_eq(tag, "DeclareWithName") {
        PgTypeInfo::Unknown
    } else if crate::string_util::str_eq(tag, "DeclareWithOid") {
        PgTypeInfo::Unknown
    } else {
        PgTypeInfo::Unknown
    }
}

/// The remote type a value is encoded under: by its variant, by its
/// extension tag, and for arrays by the first element's type.
pub open spec fn spec_pg_type(v: Value) -> PgTypeInfo
    decreases v,
{
    match v {
        Value::Null => PgTypeInfo::Unknown,
        Value::Bool(_) => PgTypeInfo::Bool,
        Value::I32(_) => PgTypeInfo::Int4,
        Value::I64(_) => PgTypeInfo::Int8,
        Value::U32(_) => PgTypeInfo::Int4,
        Value::U64(_) => PgTypeInfo::Int8,
        Value::F32(_) => PgTypeInfo::Float4,
        Value::F64(_) => PgTypeInfo::Float8,
        Value::String(_) => PgTypeInfo::Varchar,
        Value::Binary(_) => PgTypeInfo::ByteaArray,
        Value::Array(arr) => if arr@.len() == 0 {
            PgTypeInfo::Unknown
        } else {
            spec_array_element(spec_pg_type(arr@[0]))
        },
        Value::Mapping(_) => PgTypeInfo::Unknown,
        Value::Ext(tag, _) => spec_ext_pg_type(tag@),
    }
}

/// Everything that can name its remote type.
pub trait TypeInfo {
    spec fn spec_type_info(&self) -> PgTypeInfo;

    fn type_info(&self) -> (r: PgTypeInfo)
        ensures
            r == self.spec_type_info(),
    ;
}

impl TypeInfo for Value {
    open spec fn spec_type_info(&self) -> PgTypeInfo {
        spec_pg_type(*self)
    }

    fn type_info(&self) -> (r: PgTypeInfo)
        decreases *self,
    {
        match self {
            Value::Null => PgTypeInfo::Unknown,
            Value::Bool(_) => PgTypeInfo::Bool,
            Value::I32(_) => PgTypeInfo::Int4,
            Value::I64(_) => PgTypeInfo::Int8,
            Value::U32(_) => PgTypeInfo::Int4,
            Value::U64(_) => PgTypeInfo::Int8,
            Value::F32(_) => PgTypeInfo::Float4,
            Value::F64(_) => PgTypeInfo::Float8,
            Value::String(_) => PgTypeInfo::Varchar,
            Value::Binary(_) => PgTypeInfo::ByteaArray,
            Value::Array(arr) => {
                if arr.len() == 0 {
                    PgTypeInfo::Unknown
                } else {
                    proof {
                        assert(decreases_to!(*self => *arr));
                        assert(decreases_to!(*arr => arr@));
                        assert(decreases_to!(arr@ => arr@[0]));
                    }
                    array_element(arr[0].type_info())
                }
            },
            Value::Mapping(_) => PgTypeInfo::Unknown,
            Value::Ext(tag, _) => ext_pg_type(tag.as_str()),
        }
    }
}

} // verus!
