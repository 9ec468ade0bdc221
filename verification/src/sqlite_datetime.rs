use vstd::prelude::*;
use core::fmt::Write;
use crate::error::Error;

verus! {

/// Storage class of a value in the lightweight file-backed backend.
#[derive(Clone, Copy, Debug, PartialEq, Eq, Structural)]
pub enum DataType {
    Null,
    Int,
    Int64,
    Float,
    Text,
    Blob,
    Datetime,
    Date,
    Time,
}

/// The backend's type descriptor.
#[derive(Clone, Copy, Debug, PartialEq, Eq, Structural)]
pub struct SqliteTypeInfo(pub DataType);

/// A decoded storage value of the backend, as plain data. Floats are
/// carried as raw bits; their date arithmetic is outside this module.
#[derive(Debug)]
pub enum SqliteValue {
    Null,
    Int(i64),
    Int64(i64),
    /// raw bits of a 64-bit float
    Float(u64),
    Text(String),
    Blob(Vec<u8>),
}

impl SqliteValue {
    /// The storage class this value belongs to.
    pub open spec fn spec_data_type(&self) -> DataType {
        match *self {
            SqliteValue::Null => DataType::Null,
            SqliteValue::Int(_) => DataType::Int,
            SqliteValue::Int64(_) => DataType::Int64,
            SqliteValue::Float(_) => DataType::Float,
            SqliteValue::Text(_) => DataType::Text,
            SqliteValue::Blob(_) => DataType::Blob,
        }
    }

    /// The backend's descriptor for this value.
    pub fn type_info(&self) -> (r: SqliteTypeInfo)
        ensures
            r == SqliteTypeInfo(self.spec_data_type()),
    {
        match self {
            SqliteValue::Null => SqliteTypeInfo(DataType::Null),
            SqliteValue::Int(_) => SqliteTypeInfo(DataType::Int),
            SqliteValue::Int64(_) => SqliteTypeInfo(DataType::Int64),
            SqliteValue::Float(_) => SqliteTypeInfo(DataType::Float),
            SqliteValue::Text(_) => SqliteTypeInfo(DataType::Text),
            SqliteValue::Blob(_) => SqliteTypeInfo(DataType::Blob),
        }
    }
}

/// A moment with a fixed offset from universal time, as plain values:
/// seconds since the epoch, the fractional second, and the offset.
#[derive(Clone, Copy, Debug, PartialEq, Eq, Structural)]
pub struct DateTime {
    /// seconds since the epoch, in universal time
    pub unix_secs: i64,
    /// nanoseconds within the second
    pub subsec_nanos: u32,
    /// local offset from universal time, in seconds
    pub offset_secs: i32,
}

/// A wall-clock moment without an offset, as seconds since the epoch of
/// that wall clock plus the fractional second.
#[derive(Clone, Copy, Debug, PartialEq, Eq, Structural)]
pub struct NaiveDateTime {
    pub secs: i64,
    pub subsec_nanos: u32,
}

/// A calendar date.
#[derive(Clone, Copy, Debug, PartialEq, Eq, Structural)]
pub struct NaiveDate {
    pub year: i32,
    pub month: u32,
    pub day: u32,
}

/// A time of day.
#[derive(Clone, Copy, Debug, PartialEq, Eq, Structural)]
pub struct NaiveTime {
    /// seconds from midnight
    pub secs: u32,
    /// nanoseconds within the second
    pub subsec_nanos: u32,
}

/// What the calendar library's strict universal-text parser yields for a
/// text: seconds since the epoch, nanoseconds, offset; a function of the
/// text alone.
pub uninterp spec fn chrono_rfc3339(s: Seq<char>) -> Option<(i64, u32, i32)>;

/// Relies on chrono's DateTime::parse_from_rfc3339; the result depends
/// on the text alone.
#[verifier::external_body]
fn parse_rfc3339(s: &str) -> (r: Option<(i64, u32, i32)>)
    ensures
        r == chrono_rfc3339(s@),
{
    match chrono::DateTime::parse_from_rfc3339(s) {
        Ok(dt) => Some((
            dt.timestamp(),
            dt.timestamp_subsec_nanos(),
            dt.offset().local_minus_utc(),
        )),
        Err(_) => None,
    }
}

/// What parsing a text against a format with an offset yields; a
/// function of text and format alone.
pub uninterp spec fn chrono_datetime_fmt(s: Seq<char>, fmt: Seq<char>) -> Option<(i64, u32, i32)>;

/// Relies on chrono's DateTime::parse_from_str; the result depends on
/// the text and the format alone.
#[verifier::external_body]
fn parse_datetime_fmt(s: &str, fmt: &str) -> (r: Option<(i64, u32, i32)>)
    ensures
        r == chrono_datetime_fmt(s@, fmt@),
{
    match chrono::DateTime::parse_from_str(s, fmt) {
        Ok(dt) => Some((
            dt.timestamp(),
            dt.timestamp_subsec_nanos(),
            dt.offset().local_minus_utc(),
        )),
        Err(_) => None,
    }
}

/// What parsing a text against a format without an offset yields, taken
/// as a universal wall time; a function of text and format alone.
pub uninterp spec fn chrono_naive_fmt(s: Seq<char>, fmt: Seq<char>) -> Option<(i64, u32)>;

/// Relies on chrono's NaiveDateTime::parse_from_str; the result depends
/// on the text and the format alone.
#[verifier::external_body]
fn parse_naive_fmt(s: &str, fmt: &str) -> (r: Option<(i64, u32)>)
    ensures
        r == chrono_naive_fmt(s@, fmt@),
{
    match chrono::NaiveDateTime::parse_from_str(s, fmt) {
        Ok(dt) => Some((dt.and_utc().timestamp(), dt.and_utc().timestamp_subsec_nanos())),
        Err(_) => None,
    }
}

/// What parsing a date text against a format yields; a function of text
/// and format alone.
pub uninterp spec fn chrono_date_fmt(s: Seq<char>, fmt: Seq<char>) -> Option<(i32, u32, u32)>;

/// Relies on chrono's NaiveDate::parse_from_str; the result depends on
/// the text and the format alone.
#[verifier::external_body]
fn parse_date_fmt(s: &str, fmt: &str) -> (r: Option<(i32, u32, u32)>)
    ensures
        r == chrono_date_fmt(s@, fmt@),
{
    match chrono::NaiveDate::parse_from_str(s, fmt) {
        Ok(d) => Some((chrono::Datelike::year(&d), chrono::Datelike::month(&d), chrono::Datelike::day(&d))),
        Err(_) => None,
    }
}

/// What parsing a time-of-day text against a format yields; a function
/// of text and format alone.
pub uninterp spec fn chrono_time_fmt(s: Seq<char>, fmt: Seq<char>) -> Option<(u32, u32)>;

/// Relies on chrono's NaiveTime::parse_from_str; the result depends on
/// the text and the format alone.
#[verifier::external_body]
fn parse_time_fmt(s: &str, fmt: &str) -> (r: Option<(u32, u32)>)
    ensures
        r == chrono_time_fmt(s@, fmt@),
{
    match chrono::NaiveTime::parse_from_str(s, fmt) {
        Ok(t) => Some((
            chrono::Timelike::num_seconds_from_midnight(&t),
            chrono::Timelike::nanosecond(&t),
        )),
        Err(_) => None,
    }
}

/// Whether the calendar library accepts this many seconds since the
/// epoch; a function of the number alone.
pub uninterp spec fn chrono_ts_ok(secs: i64, nanos: u32) -> bool;

/// Relies on chrono's DateTime::from_timestamp, which accepts exactly
/// the timestamps inside its representable range.
#[verifier::external_body]
fn timestamp_in_range(secs: i64, nanos: u32) -> (r: bool)
    ensures
        r == chrono_ts_ok(secs, nanos),
{
    chrono::DateTime::from_timestamp(secs, nanos).is_some()
}

/// What rendering a universal timestamp in strict universal-text form
/// yields; a function of the fields alone.
pub uninterp spec fn chrono_rfc3339_text(secs: i64, nanos: u32, offset: i32) -> Option<Seq<char>>;

/// Relies on chrono's to_rfc3339_opts with automatic second precision
/// and numeric offset, guarded by checked_add_offset so that a moment
/// whose local reading leaves the representable range yields nothing
/// instead of a panic; the text depends on the fields alone.
#[verifier::external_body]
fn render_rfc3339(secs: i64, nanos: u32, offset: i32) -> (r: Option<String>)
    ensures
        match (r, chrono_rfc3339_text(secs, nanos, offset)) {
            (Some(s), Some(t)) => s@ == t,
            (None, None) => true,
            _ => false,
        },
{
    let offset = chrono::FixedOffset::east_opt(offset)?;
    let dt = chrono::DateTime::from_timestamp(secs, nanos)?.with_timezone(&offset);
    dt.naive_utc().checked_add_offset(offset)?;
    Some(dt.to_rfc3339_opts(chrono::SecondsFormat::AutoSi, false))
}

/// What formatting a universal timestamp under a format string yields;
/// a function of the fields and the format alone.
pub uninterp spec fn chrono_format_naive(secs: i64, nanos: u32, fmt: Seq<char>) -> Option<
    Seq<char>,
>;

/// Relies on chrono's NaiveDateTime formatting, written through the
/// formatting machinery's own error path so that a bad format yields
/// nothing instead of a panic; the text depends on the fields and the
/// format alone.
#[verifier::external_body]
fn render_naive(secs: i64, nanos: u32, fmt: &str) -> (r: Option<String>)
    ensures
        match (r, chrono_format_naive(secs, nanos, fmt@)) {
            (Some(s), Some(t)) => s@ == t,
            (None, None) => true,
            _ => false,
        },
{
    let dt = chrono::DateTime::from_timestamp(secs, nanos)?;
    let mut out = String::new();
    match write!(&mut out, "{}", dt.naive_utc().format(fmt)) {
        Ok(()) => Some(out),
        Err(_) => None,
    }
}

/// What formatting a calendar date under a format string yields; a
/// function of the fields and the format alone.
pub uninterp spec fn chrono_format_date(year: i32, month: u32, day: u32, fmt: Seq<char>) -> Option<
    Seq<char>,
>;

/// Relies on chrono's NaiveDate formatting, written through the
/// formatting machinery's own error path so that a bad format yields
/// nothing instead of a panic; the text depends on the fields and the
/// format alone.
#[verifier::external_body]
fn render_date(year: i32, month: u32, day: u32, fmt: &str) -> (r: Option<String>)
    ensures
        match (r, chrono_format_date(year, month, day, fmt@)) {
            (Some(s), Some(t)) => s@ == t,
            (None, None) => true,
            _ => false,
        },
{
    let d = chrono::NaiveDate::from_ymd_opt(year, month, day)?;
    let mut out = String::new();
    match write!(&mut out, "{}", d.format(fmt)) {
        Ok(()) => Some(out),
        Err(_) => None,
    }
}

/// What formatting a time of day under a format string yields; a
/// function of the fields and the format alone.
pub uninterp spec fn chrono_format_time(secs: u32, nanos: u32, fmt: Seq<char>) -> Option<
    Seq<char>,
>;

/// Relies on chrono's NaiveTime formatting, written through the
/// formatting machinery's own error path so that a bad format yields
/// nothing instead of a panic; the text depends on the fields and the
/// format alone.
#[verifier::external_body]
fn render_time(secs: u32, nanos: u32, fmt: &str) -> (r: Option<String>)
    ensures
        match (r, chrono_format_time(secs, nanos, fmt@)) {
            (Some(s), Some(t)) => s@ == t,
            (None, None) => true,
            _ => false,
        },
{
    let t = chrono::NaiveTime::from_num_seconds_from_midnight_opt(secs, nanos)?;
    let mut out = String::new();
    match write!(&mut out, "{}", t.format(fmt)) {
        Ok(()) => Some(out),
        Err(_) => None,
    }
}

/// The datetime text patterns tried, most likely first.
pub open spec fn spec_datetime_formats() -> Seq<Seq<char>> {
    seq![
        "%F %T%.f"@,
        "%F %R"@,
        "%F %RZ"@,
        "%F %R%:z"@,
        "%F %T%.fZ"@,
        "%F %T%.f%:z"@,
        "%FT%R"@,
        "%FT%RZ"@,
        "%FT%R%:z"@,
        "%FT%T%.f"@,
        "%FT%T%.fZ"@,
        "%FT%T%.f%:z"@,
    ]
}

/// The `i`-th datetime pattern.
fn datetime_format_at(i: usize) -> (r: &'static str)
    requires
        i < 12,
    ensures
        r@ == spec_datetime_formats()[i as int],
{
    match i {
        0 => "%F %T%.f",
        1 => "%F %R",
        2 => "%F %RZ",
        3 => "%F %R%:z",
        4 => "%F %T%.fZ",
        5 => "%F %T%.f%:z",
        6 => "%FT%R",
        7 => "%FT%RZ",
        8 => "%FT%R%:z",
        9 => "%FT%T%.f",
        10 => "%FT%T%.fZ",
        _ => "%FT%T%.f%:z",
    }
}

/// Try the patterns from index `i` on: first as a moment with an
/// offset, then as a universal wall time.
pub open spec fn spec_try_datetime_formats(s: Seq<char>, i: int) -> Option<DateTime>
    decreases 12 - i when 0 <= i <= 12
{
    if i >= 12 {
        None
    } else {
        let fmt = spec_datetime_formats()[i];
        match chrono_datetime_fmt(s, fmt) {
            Some((secs, nanos, offset)) => Some(
                DateTime { unix_secs: secs, subsec_nanos: nanos, offset_secs: offset },
            ),
            None => match chrono_naive_fmt(s, fmt) {
                Some((secs, nanos)) => Some(
                    DateTime { unix_secs: secs, subsec_nanos: nanos, offset_secs: 0 },
                ),
                None => spec_try_datetime_formats(s, i + 1),
            },
        }
    }
}

/// What decoding a datetime text yields: the strict universal form
/// first, then the common patterns in order.
pub open spec fn spec_decode_datetime_text(s: Seq<char>) -> Option<DateTime> {
    match chrono_rfc3339(s) {
        Some((secs, nanos, offset)) => Some(
            DateTime { unix_secs: secs, subsec_nanos: nanos, offset_secs: offset },
        ),
        None => spec_try_datetime_formats(s, 0),
    }
}

/// Decode a datetime from text: the strict universal form first, then
/// each common pattern, with an offset or as universal wall time.
pub fn decode_datetime_from_text(value: &str) -> (r: Option<DateTime>)
    ensures
        r == spec_decode_datetime_text(value@),
{
    if let Some((secs, nanos, offset)) = parse_rfc3339(value) {
        return Some(DateTime { unix_secs: secs, subsec_nanos: nanos, offset_secs: offset });
    }
    let mut i: usize = 0;
    while i < 12
        invariant
            i <= 12,
            chrono_rfc3339(value@) is None,
            spec_try_datetime_formats(value@, 0) == spec_try_datetime_formats(value@, i as int),
        decreases 12 - i,
    {
        let fmt = datetime_format_at(i);
        if let Some((secs, nanos, offset)) = parse_datetime_fmt(value, fmt) {
            return Some(DateTime { unix_secs: secs, subsec_nanos: nanos, offset_secs: offset });
        }
        if let Some((secs, nanos)) = parse_naive_fmt(value, fmt) {
            return Some(DateTime { unix_secs: secs, subsec_nanos: nanos, offset_secs: 0 });
        }
        i = i + 1;
    }
    None
}

/// Decode a datetime from an integer of seconds since the epoch, when
/// the calendar library accepts it.
pub fn decode_datetime_from_int(value: i64) -> (r: Option<DateTime>)
    ensures
        r == if chrono_ts_ok(value, 0) {
            Some(DateTime { unix_secs: value, subsec_nanos: 0u32, offset_secs: 0i32 })
        } else {
            None::<DateTime>
        },
{
    if timestamp_in_range(value, 0) {
        Some(DateTime { unix_secs: value, subsec_nanos: 0, offset_secs: 0 })
    } else {
        None
    }
}

/// What decoding a storage value as a datetime yields. Text decodes by
/// pattern, integers as epoch seconds. A float carries a fractional
/// day number whose arithmetic is floating point and therefore outside
/// this module; it decodes to nothing here.
pub open spec fn spec_decode_datetime(v: &SqliteValue) -> Option<DateTime> {
    match *v {
        SqliteValue::Text(ref s) => spec_decode_datetime_text(s@),
        SqliteValue::Int(i) => if chrono_ts_ok(i, 0) {
            Some(DateTime { unix_secs: i, subsec_nanos: 0u32, offset_secs: 0i32 })
        } else {
            None
        },
        SqliteValue::Int64(i) => if chrono_ts_ok(i, 0) {
            Some(DateTime { unix_secs: i, subsec_nanos: 0u32, offset_secs: 0i32 })
        } else {
            None
        },
        _ => None,
    }
}

/// Decode a storage value as a datetime, failing with a decode error
/// when no form matches.
pub fn decode_datetime(value: &SqliteValue) -> (r: Result<DateTime, Error>)
    ensures
        match spec_decode_datetime(value) {
            Some(dt) => r == Ok::<DateTime, Error>(dt),
            None => r matches Err(e) && e is Decode,
        },
{
    let decoded = match value {
        SqliteValue::Text(s) => decode_datetime_from_text(s.as_str()),
        SqliteValue::Int(i) => decode_datetime_from_int(*i),
        SqliteValue::Int64(i) => decode_datetime_from_int(*i),
        _ => None,
    };
    match decoded {
        Some(dt) => Ok(dt),
        None => {
            let mut message = "invalid datetime: ".to_owned();
            if let SqliteValue::Text(s) = value {
                message.append(s.as_str());
            }
            Err(Error::Decode(message))
        },
    }
}

impl DateTime {
    /// The wall time this moment reads as at its own offset.
    pub fn naive_local(&self) -> (r: Result<NaiveDateTime, Error>)
        ensures
            -0x8000_0000_0000_0000 <= self.unix_secs + self.offset_secs
                <= 0x7fff_ffff_ffff_ffff ==> r == Ok::<NaiveDateTime, Error>(
                NaiveDateTime {
                    secs: (self.unix_secs + self.offset_secs) as i64,
                    subsec_nanos: self.subsec_nanos,
                },
            ),
            !(-0x8000_0000_0000_0000 <= self.unix_secs + self.offset_secs
                <= 0x7fff_ffff_ffff_ffff) ==> (r matches Err(e) && e is Decode),
    {
        match self.unix_secs.checked_add(self.offset_secs as i64) {
            Some(secs) => Ok(NaiveDateTime { secs, subsec_nanos: self.subsec_nanos }),
            None => Err(Error::Decode("datetime out of range".to_owned())),
        }
    }

    /// Render in strict universal-text form, per the naming of the
    /// calendar library's renderer.
    pub fn encode(&self) -> (r: Option<String>)
        ensures
            match (r, chrono_rfc3339_text(self.unix_secs, self.subsec_nanos, self.offset_secs)) {
                (Some(s), Some(t)) => s@ == t,
                (None, None) => true,
                _ => false,
            },
    {
        render_rfc3339(self.unix_secs, self.subsec_nanos, self.offset_secs)
    }
}

impl NaiveDateTime {
    /// Decode a storage value as a wall time: the datetime decoding,
    /// read at its own offset; a sum that leaves the representable
    /// seconds is refused as a decode error.
    pub fn decode(value: &SqliteValue) -> (r: Result<NaiveDateTime, Error>)
        ensures
            match spec_decode_datetime(value) {
                None => r matches Err(e) && e is Decode,
                Some(dt) => {
                    let local = dt.unix_secs + dt.offset_secs;
                    &&& (-0x8000_0000_0000_0000 <= local <= 0x7fff_ffff_ffff_ffff) ==> r
                        == Ok::<NaiveDateTime, Error>(
                        NaiveDateTime { secs: local as i64, subsec_nanos: dt.subsec_nanos },
                    )
                    &&& !(-0x8000_0000_0000_0000 <= local <= 0x7fff_ffff_ffff_ffff) ==> (r
                        matches Err(e) && e is Decode)
                },
            },
    {
        let dt = decode_datetime(value)?;
        dt.naive_local()
    }

    /// Render under the backend's datetime pattern.
    pub fn encode(&self) -> (r: Option<String>)
        ensures
            match (r, chrono_format_naive(self.secs, self.subsec_nanos, "%F %T%.f"@)) {
                (Some(s), Some(t)) => s@ == t,
                (None, None) => true,
                _ => false,
            },
    {
        render_naive(self.secs, self.subsec_nanos, "%F %T%.f")
    }
}

impl NaiveDate {
    /// Decode a storage value as a calendar date from its text form.
    pub fn decode(value: &SqliteValue) -> (r: Result<NaiveDate, Error>)
        ensures
            match *value {
                SqliteValue::Text(ref s) => match chrono_date_fmt(s@, "%F"@) {
                    Some((y, m, d)) => r == Ok::<NaiveDate, Error>(
                        NaiveDate { year: y, month: m, day: d },
                    ),
                    None => r matches Err(e) && e is Decode,
                },
                _ => r matches Err(e) && e is Decode,
            },
    {
        match value {
            SqliteValue::Text(s) => {
                match parse_date_fmt(s.as_str(), "%F") {
                    Some((year, month, day)) => Ok(NaiveDate { year, month, day }),
                    None => Err(Error::Decode("invalid date".to_owned())),
                }
            },
            _ => Err(Error::Decode("invalid date".to_owned())),
        }
    }

    /// Render under the backend's date pattern.
    pub fn encode(&self) -> (r: Option<String>)
        ensures
            match (r, chrono_format_date(self.year, self.month, self.day, "%F"@)) {
                (Some(s), Some(t)) => s@ == t,
                (None, None) => true,
                _ => false,
            },
    {
        render_date(self.year, self.month, self.day, "%F")
    }
}

/// The time-of-day text patterns tried, most likely first.
pub open spec fn spec_time_formats() -> Seq<Seq<char>> {
    seq!["%T.f"@, "%T%.f"@, "%R"@, "%RZ"@, "%T%.fZ"@, "%R%:z"@, "%T%.f%:z"@]
}

/// The `i`-th time-of-day pattern.
fn time_format_at(i: usize) -> (r: &'static str)
    requires
        i < 7,
    ensures
        r@ == spec_time_formats()[i as int],
{
    match i {
        0 => "%T.f",
        1 => "%T%.f",
        2 => "%R",
        3 => "%RZ",
        4 => "%T%.fZ",
        5 => "%R%:z",
        _ => "%T%.f%:z",
    }
}

/// Try the time patterns from index `i` on.
pub open spec fn spec_try_time_formats(s: Seq<char>, i: int) -> Option<NaiveTime>
    decreases 7 - i when 0 <= i <= 7
{
    if i >= 7 {
        None
    } else {
        match chrono_time_fmt(s, spec_time_formats()[i]) {
            Some((secs, nanos)) => Some(NaiveTime { secs, subsec_nanos: nanos }),
            None => spec_try_time_formats(s, i + 1),
        }
    }
}

impl NaiveTime {
    /// Decode a storage value as a time of day from its text form,
    /// trying each common pattern in order.
    pub fn decode(value: &SqliteValue) -> (r: Result<NaiveTime, Error>)
        ensures
            match *value {
                SqliteValue::Text(ref s) => match spec_try_time_formats(s@, 0) {
                    Some(t) => r == Ok::<NaiveTime, Error>(t),
                    None => r matches Err(e) && e is Decode,
                },
                _ => r matches Err(e) && e is Decode,
            },
    {
        let text = match value {
            SqliteValue::Text(s) => s.as_str(),
            _ => {
                return Err(Error::Decode("invalid time".to_owned()));
            },
        };
        let mut i: usize = 0;
        while i < 7
            invariant
                i <= 7,
                value is Text,
                text@ == value->Text_0@,
                spec_try_time_formats(text@, 0) == spec_try_time_formats(text@, i as int),
            decreases 7 - i,
        {
            let fmt = time_format_at(i);
            if let Some((secs, nanos)) = parse_time_fmt(text, fmt) {
                return Ok(NaiveTime { secs, subsec_nanos: nanos });
            }
            i = i + 1;
        }
        let mut message = "invalid time: ".to_owned();
        message.append(text);
        Err(Error::Decode(message))
    }

    /// Render under the backend's time pattern.
    pub fn encode(&self) -> (r: Option<String>)
        ensures
            match (r, chrono_format_time(self.secs, self.subsec_nanos, "%T%.f"@)) {
                (Some(s), Some(t)) => s@ == t,
                (None, None) => true,
                _ => false,
            },
    {
        render_time(self.secs, self.subsec_nanos, "%T%.f")
    }
}

/// Everything that can name its backend type and say which storage
/// classes it decodes from.
pub trait Type {
    spec fn spec_type_info(&self) -> SqliteTypeInfo;

    spec fn spec_compatible(ty: DataType) -> bool;

    fn type_info(&self) -> (r: SqliteTypeInfo)
        ensures
            r == self.spec_type_info(),
    ;

    fn compatible(ty: &SqliteTypeInfo) -> (r: bool)
        ensures
            r == Self::spec_compatible(ty.0),
    ;
}

impl Type for DateTime {
    open spec fn spec_type_info(&self) -> SqliteTypeInfo {
        SqliteTypeInfo(DataType::Datetime)
    }

    open spec fn spec_compatible(ty: DataType) -> bool {
        ty == DataType::Datetime || ty == DataType::Text || ty == DataType::Int64 || ty
            == DataType::Int || ty == DataType::Float
    }

    fn type_info(&self) -> SqliteTypeInfo {
        SqliteTypeInfo(DataType::Datetime)
    }

    fn compatible(ty: &SqliteTypeInfo) -> bool {
        <NaiveDateTime as Type>::compatible(ty)
    }
}

impl Type for NaiveDateTime {
    open spec fn spec_type_info(&self) -> SqliteTypeInfo {
        SqliteTypeInfo(DataType::Datetime)
    }

    open spec fn spec_compatible(ty: DataType) -> bool {
        ty == DataType::Datetime || ty == DataType::Text || ty == DataType::Int64 || ty
            == DataType::Int || ty == DataType::Float
    }

    fn type_info(&self) -> SqliteTypeInfo {
        SqliteTypeInfo(DataType::Datetime)
    }

    fn compatible(ty: &SqliteTypeInfo) -> bool {
        matches!(
            ty.0,
            DataType::Datetime | DataType::Text | DataType::Int64 | DataType::Int | DataType::Float
        )
    }
}

impl Type for NaiveDate {
    open spec fn spec_type_info(&self) -> SqliteTypeInfo {
        SqliteTypeInfo(DataType::Date)
    }

    open spec fn spec_compatible(ty: DataType) -> bool {
        ty == DataType::Date || ty == DataType::Text
    }

    fn type_info(&self) -> SqliteTypeInfo {
        SqliteTypeInfo(DataType::Date)
    }

    fn compatible(ty: &SqliteTypeInfo) -> bool {
        matches!(ty.0, DataType::Date | DataType::Text)
    }
}

impl Type for NaiveTime {
    open spec fn spec_type_info(&self) -> SqliteTypeInfo {
        SqliteTypeInfo(DataType::Time)
    }

    open spec fn spec_compatible(ty: DataType) -> bool {
        ty == DataType::Time || ty == DataType::Text
    }

    fn type_info(&self) -> SqliteTypeInfo {
        SqliteTypeInfo(DataType::Time)
    }

    fn compatible(ty: &SqliteTypeInfo) -> bool {
        matches!(ty.0, DataType::Time | DataType::Text)
    }
}

} // verus!
