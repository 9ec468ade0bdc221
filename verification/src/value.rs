use vstd::prelude::*;

verus! {

/// Generic, schema-less value used for statement arguments and decoded
/// rows: a tagged union of null, booleans, fixed-width integers, floats,
/// text, bytes, arrays, maps and a tagged extension variant.
///
/// Float payloads are carried as their raw bit patterns, so that the
/// variants stay plain data; only code outside the library interprets
/// them as floating-point numbers.
#[derive(Debug)]
pub enum Value {
    Null,
    Bool(bool),
    I32(i32),
    I64(i64),
    U32(u32),
    U64(u64),
    /// raw bits of a 32-bit float
    F32(u32),
    /// raw bits of a 64-bit float
    F64(u64),
    String(String),
    Binary(Vec<u8>),
    Array(Vec<Value>),
    Mapping(Vec<(Value, Value)>),
    /// extension value: a type tag and a nested value
    Ext(String, Box<Value>),
}

impl Value {
    /// The text held by a `String` value, if this is one.
    pub fn as_str(&self) -> (r: Option<&str>)
        ensures
            self matches Value::String(s) ==> r matches Some(t) && t@ == s@,
            !(self matches Value::String(..)) ==> r is None,
    {
        match self {
            Value::String(s) => Some(s.as_str()),
            _ => None,
        }
    }

    /// Whether this value is `Null`.
    pub fn is_null(&self) -> (r: bool)
        ensures
            r == (self is Null),
    {
        match self {
            Value::Null => true,
            _ => false,
        }
    }
}

/// The decimal digit for `d`, for `d` between 0 and 9.
pub open spec fn spec_digit_char(d: int) -> char {
    if d == 0 {
        '0'
    } else if d == 1 {
        '1'
    } else if d == 2 {
        '2'
    } else if d == 3 {
        '3'
    } else if d == 4 {
        '4'
    } else if d == 5 {
        '5'
    } else if d == 6 {
        '6'
    } else if d == 7 {
        '7'
    } else if d == 8 {
        '8'
    } else {
        '9'
    }
}

/// Decimal digits of a non-negative integer, most significant first.
pub open spec fn spec_nat_digits(n: int) -> Seq<char>
    decreases n when n >= 0
{
    if n < 10 {
        seq![spec_digit_char(n)]
    } else {
        spec_nat_digits(n / 10) + seq![spec_digit_char(n % 10)]
    }
}

/// Decimal text of a signed integer: a leading minus sign, then digits.
pub open spec fn spec_int_text(n: int) -> Seq<char> {
    if n >= 0 {
        spec_nat_digits(n)
    } else {
        seq!['-'] + spec_nat_digits(-n)
    }
}

/// One decimal digit as a string slice.
fn digit_str(d: u64) -> (r: &'static str)
    requires
        d < 10,
    ensures
        r@ == seq![spec_digit_char(d as int)],
{
    proof {
        reveal_strlit("0");
        reveal_strlit("1");
        reveal_strlit("2");
        reveal_strlit("3");
        reveal_strlit("4");
        reveal_strlit("5");
        reveal_strlit("6");
        reveal_strlit("7");
        reveal_strlit("8");
        reveal_strlit("9");
    }
    let r = if d == 0 {
        "0"
    } else if d == 1 {
        "1"
    } else if d == 2 {
        "2"
    } else if d == 3 {
        "3"
    } else if d == 4 {
        "4"
    } else if d == 5 {
        "5"
    } else if d == 6 {
        "6"
    } else if d == 7 {
        "7"
    } else if d == 8 {
        "8"
    } else {
        "9"
    };
    proof {
        assert(r@ =~= seq![spec_digit_char(d as int)]);
    }
    r
}

/// Render an unsigned integer in decimal.
pub fn u64_to_string(n: u64) -> (r: String)
    ensures
        r@ == spec_nat_digits(n as int),
    decreases n,
{
    if n < 10 {
        digit_str(n).to_owned()
    } else {
        let mut s = u64_to_string(n / 10);
        s.append(digit_str(n % 10));
        s
    }
}

/// Render a signed integer in decimal.
pub fn i64_to_string(n: i64) -> (r: String)
    ensures
        r@ == spec_int_text(n as int),
    decreases n,
{
    if n >= 0 {
        u64_to_string(n as u64)
    } else {
        let magnitude: u64 = if n == i64::MIN {
            9223372036854775808u64
        } else {
            (-n) as u64
        };
        proof {
            reveal_strlit("-");
            assert("-"@ =~= seq!['-']);
        }
        let mut s = "-".to_owned();
        s.append(u64_to_string(magnitude).as_str());
        s
    }
}

/// Text form of a value: JSON-like, with quotes around text, square
/// brackets around arrays and binaries, braces around maps, a tag and
/// parentheses around extension values, and float bit patterns shown
/// behind an `f32`/`f64` marker.
pub open spec fn spec_value_text(v: Value) -> Seq<char>
    decreases v, 0nat,
{
    match v {
        Value::Null => "null"@,
        Value::Bool(b) => if b {
            "true"@
        } else {
            "false"@
        },
        Value::I32(i) => spec_int_text(i as int),
        Value::I64(i) => spec_int_text(i as int),
        Value::U32(u) => spec_nat_digits(u as int),
        Value::U64(u) => spec_nat_digits(u as int),
        Value::F32(bits) => "f32("@ + spec_nat_digits(bits as int) + ")"@,
        Value::F64(bits) => "f64("@ + spec_nat_digits(bits as int) + ")"@,
        Value::String(s) => "\""@ + s@ + "\""@,
        Value::Binary(b) => "["@ + spec_bytes_text(b@, 0) + "]"@,
        Value::Array(items) => "["@ + spec_values_text(items@, 0) + "]"@,
        Value::Mapping(pairs) => "{"@ + spec_pairs_text(pairs@, 0) + "}"@,
        Value::Ext(tag, inner) => tag@ + "("@ + spec_value_text(*inner) + ")"@,
    }
}

/// Comma-separated text of the values from index `i` on.
pub open spec fn spec_values_text(vs: Seq<Value>, i: int) -> Seq<char>
    decreases vs, vs.len() - i when 0 <= i <= vs.len()
{
    if i >= vs.len() {
        Seq::empty()
    } else if i + 1 == vs.len() {
        spec_value_text(vs[i])
    } else {
        spec_value_text(vs[i]) + ","@ + spec_values_text(vs, i + 1)
    }
}

/// Comma-separated `key:value` text of the pairs from index `i` on.
pub open spec fn spec_pairs_text(ps: Seq<(Value, Value)>, i: int) -> Seq<char>
    decreases ps, ps.len() - i when 0 <= i <= ps.len()
{
    if i >= ps.len() {
        Seq::empty()
    } else {
        let one = spec_value_text(ps[i].0) + ":"@ + spec_value_text(ps[i].1);
        if i + 1 == ps.len() {
            one
        } else {
            one + ","@ + spec_pairs_text(ps, i + 1)
        }
    }
}

/// Comma-separated decimal text of the bytes from index `i` on.
pub open spec fn spec_bytes_text(bs: Seq<u8>, i: int) -> Seq<char>
    decreases bs.len() - i when 0 <= i <= bs.len()
{
    if i >= bs.len() {
        Seq::empty()
    } else if i + 1 == bs.len() {
        spec_nat_digits(bs[i] as int)
    } else {
        spec_nat_digits(bs[i] as int) + ","@ + spec_bytes_text(bs, i + 1)
    }
}

/// Render a value as text, per `spec_value_text`.
pub fn value_to_string(v: &Value) -> (r: String)
    ensures
        r@ == spec_value_text(*v),
    decreases *v, 1nat,
{
    match v {
        Value::Null => "null".to_owned(),
        Value::Bool(b) => {
            if *b {
                "true".to_owned()
            } else {
                "false".to_owned()
            }
        },
        Value::I32(i) => i64_to_string(*i as i64),
        Value::I64(i) => i64_to_string(*i),
        Value::U32(u) => u64_to_string(*u as u64),
        Value::U64(u) => u64_to_string(*u),
        Value::F32(bits) => {
            let mut s = "f32(".to_owned();
            s.append(u64_to_string(*bits as u64).as_str());
            s.append(")");
            s
        },
        Value::F64(bits) => {
            let mut s = "f64(".to_owned();
            s.append(u64_to_string(*bits).as_str());
            s.append(")");
            s
        },
        Value::String(text) => {
            let mut s = "\"".to_owned();
            s.append(text.as_str());
            s.append("\"");
            s
        },
        Value::Binary(b) => {
            let mut s = "[".to_owned();
            s.append(bytes_text(b).as_str());
            s.append("]");
            s
        },
        Value::Array(items) => {
            proof {
                assert(decreases_to!(*v => *items));
                assert(decreases_to!(*items => items@));
            }
            let mut s = "[".to_owned();
            s.append(values_text(v, items).as_str());
            s.append("]");
            s
        },
        Value::Mapping(pairs) => {
            proof {
                assert(decreases_to!(*v => *pairs));
                assert(decreases_to!(*pairs => pairs@));
            }
            let mut s = "{".to_owned();
            s.append(pairs_text(v, pairs).as_str());
            s.append("}");
            s
        },
        Value::Ext(tag, inner) => {
            proof {
                assert(decreases_to!(*v => *inner));
            }
            let mut s = tag.clone();
            s.append("(");
            s.append(value_to_string(&*inner).as_str());
            s.append(")");
            s
        },
    }
}

/// Render the elements of an array, comma separated.
fn values_text(ghost_parent: &Value, vs: &Vec<Value>) -> (r: String)
    requires
        decreases_to!(*ghost_parent => vs@),
    ensures
        r@ == spec_values_text(vs@, 0),
    decreases *ghost_parent, 0nat,
{
    let mut s = String::new();
    let mut i: usize = 0;
    proof {
        assert(s@ + spec_values_text(vs@, 0) =~= spec_values_text(vs@, 0));
    }
    while i < vs.len()
        invariant
            decreases_to!(*ghost_parent => vs@),
            i <= vs@.len(),
            s@ + spec_values_text(vs@, i as int) == spec_values_text(vs@, 0),
        decreases vs@.len() - i,
    {
        proof {
            assert(decreases_to!(vs@ => vs@[i as int]));
        }
        let ghost pre = s@;
        let one = value_to_string(&vs[i]);
        s.append(one.as_str());
        if i + 1 < vs.len() {
            s.append(",");
            proof {
                assert(s@ + spec_values_text(vs@, i + 1) =~= pre + spec_values_text(
                    vs@,
                    i as int,
                ));
            }
        } else {
            proof {
                assert(s@ + spec_values_text(vs@, i + 1) =~= pre + spec_values_text(
                    vs@,
                    i as int,
                ));
            }
        }
        i = i + 1;
    }
    proof {
        assert(s@ + spec_values_text(vs@, vs@.len() as int) =~= s@);
    }
    s
}

/// Render the entries of a map, comma separated, each as `key:value`.
fn pairs_text(ghost_parent: &Value, ps: &Vec<(Value, Value)>) -> (r: String)
    requires
        decreases_to!(*ghost_parent => ps@),
    ensures
        r@ == spec_pairs_text(ps@, 0),
    decreases *ghost_parent, 0nat,
{
    let mut s = String::new();
    let mut i: usize = 0;
    proof {
        assert(s@ + spec_pairs_text(ps@, 0) =~= spec_pairs_text(ps@, 0));
    }
    while i < ps.len()
        invariant
            decreases_to!(*ghost_parent => ps@),
            i <= ps@.len(),
            s@ + spec_pairs_text(ps@, i as int) == spec_pairs_text(ps@, 0),
        decreases ps@.len() - i,
    {
        proof {
            assert(decreases_to!(ps@ => ps@[i as int]));
            assert(decreases_to!(ps@[i as int] => ps@[i as int].0));
            assert(decreases_to!(ps@[i as int] => ps@[i as int].1));
        }
        let ghost pre = s@;
        let key_text = value_to_string(&ps[i].0);
        s.append(key_text.as_str());
        s.append(":");
        let val_text = value_to_string(&ps[i].1);
        s.append(val_text.as_str());
        if i + 1 < ps.len() {
            s.append(",");
        }
        proof {
            assert(s@ + spec_pairs_text(ps@, i + 1) =~= pre + spec_pairs_text(ps@, i as int));
        }
        i = i + 1;
    }
    proof {
        assert(s@ + spec_pairs_text(ps@, ps@.len() as int) =~= s@);
    }
    s
}

/// Render a byte vector, comma separated, in decimal.
fn bytes_text(bs: &Vec<u8>) -> (r: String)
    ensures
        r@ == spec_bytes_text(bs@, 0),
{
    let mut s = String::new();
    let mut i: usize = 0;
    proof {
        assert(s@ + spec_bytes_text(bs@, 0) =~= spec_bytes_text(bs@, 0));
    }
    while i < bs.len()
        invariant
            i <= bs@.len(),
            s@ + spec_bytes_text(bs@, i as int) == spec_bytes_text(bs@, 0),
        decreases bs@.len() - i,
    {
        let ghost pre = s@;
        let one = u64_to_string(bs[i] as u64);
        s.append(one.as_str());
        if i + 1 < bs.len() {
            s.append(",");
        }
        proof {
            assert(s@ + spec_bytes_text(bs@, i + 1) =~= pre + spec_bytes_text(bs@, i as int));
        }
        i = i + 1;
    }
    proof {
        assert(s@ + spec_bytes_text(bs@, bs@.len() as int) =~= s@);
    }
    s
}


/// Render an argument list once and hand the arguments back unchanged,
/// together with their text form: the log records print the list without
/// giving it up.
pub fn arr_to_string(arg: Vec<Value>) -> (r: (Vec<Value>, String))
    ensures
        r.0@ == arg@,
        r.1@ == spec_value_text(Value::Array(arg)),
{
    let wrapped = Value::Array(arg);
    let text = value_to_string(&wrapped);
    match wrapped {
        Value::Array(arr) => (arr, text),
        _ => (Vec::new(), text),
    }
}

} // verus!
