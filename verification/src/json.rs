//! A JSON document as a tree of plain values, and helpers for reading
//! typed fields out of a JSON object the way the upstream API shapes
//! expect them: required, defaulted-when-absent, or optional.

use vstd::prelude::*;
use vstd::string::StrSliceExecFns;

verus! {

broadcast use vstd::utf8::char_is_scalar, vstd::utf8::char_u32_cast;

/// A JSON document. Numbers keep their decimal text exactly as the
/// parser printed them, so no precision is lost and no floating point
/// enters the library; integer-typed fields are read back out of the
/// text by a verified decimal reader.
#[derive(Debug)]
pub enum Json {
    Null,
    Bool(bool),
    Num(String),
    Str(String),
    Arr(Vec<Json>),
    Obj(Vec<(String, Json)>),
}

#[verifier::external_type_specification]
#[verifier::external_body]
pub struct ExJsonValue(serde_json::Value);

/// The document that a body's text denotes, or `None` when the text is
/// not valid JSON. The parse is a function of the text alone.
pub uninterp spec fn json_of(s: Seq<char>) -> Option<Json>;

/// Relies on serde_json::from_str::<serde_json::Value>: whether a body
/// is valid JSON, and the document it denotes, depend on the text alone.
#[verifier::external_body]
pub fn parse_json(body: &str) -> (r: Option<Json>)
    ensures
        r == json_of(body@),
{
    match serde_json::from_str::<serde_json::Value>(body) {
        Ok(v) => Some(json_from_value(v)),
        Err(_) => None,
    }
}

/// Relies on serde_json::Value and serde_json::Number::to_string: turns
/// a parsed document into the library's own tree, one variant at a
/// time; numbers keep their decimal text.
#[verifier::external_body]
fn json_from_value(v: serde_json::Value) -> Json {
    match v {
        serde_json::Value::Null => Json::Null,
        serde_json::Value::Bool(b) => Json::Bool(b),
        serde_json::Value::Number(n) => Json::Num(n.to_string()),
        serde_json::Value::String(s) => Json::Str(s),
        serde_json::Value::Array(a) => Json::Arr(a.into_iter().map(json_from_value).collect()),
        serde_json::Value::Object(m) => Json::Obj(
            m.into_iter().map(|(k, w)| (k, json_from_value(w))).collect(),
        ),
    }
}

/// The value bound to `key` in an object's field list, searching from
/// the front.
pub open spec fn spec_lookup(fields: Seq<(String, Json)>, key: Seq<char>) -> Option<Json>
    decreases fields.len(),
{
    if fields.len() == 0 {
        None
    } else if fields[0].0@ == key {
        Some(fields[0].1)
    } else {
        spec_lookup(fields.drop_first(), key)
    }
}

proof fn lemma_lookup_skip_misses(fields: Seq<(String, Json)>, key: Seq<char>, i: int)
    requires
        0 <= i <= fields.len(),
        forall|k: int| 0 <= k < i ==> fields[k].0@ != key,
    ensures
        spec_lookup(fields, key) == spec_lookup(fields.skip(i), key),
    decreases i,
{
    if i > 0 {
        assert(fields[0].0@ != key);
        lemma_lookup_skip_misses(fields.drop_first(), key, i - 1);
        assert(fields.drop_first().skip(i - 1) =~= fields.skip(i));
    } else {
        assert(fields.skip(0) =~= fields);
    }
}

/// Lookup finds the first entry bound to `key`.
pub proof fn lemma_lookup_at(fields: Seq<(String, Json)>, key: Seq<char>, i: int)
    requires
        0 <= i < fields.len(),
        fields[i].0@ == key,
        forall|k: int| 0 <= k < i ==> fields[k].0@ != key,
    ensures
        spec_lookup(fields, key) == Some(fields[i].1),
{
    lemma_lookup_skip_misses(fields, key, i);
    assert(fields.skip(i)[0] == fields[i]);
}

/// Lookup misses when no entry is bound to `key`.
pub proof fn lemma_lookup_none(fields: Seq<(String, Json)>, key: Seq<char>)
    requires
        forall|k: int| 0 <= k < fields.len() ==> fields[k].0@ != key,
    ensures
        spec_lookup(fields, key) is None,
{
    lemma_lookup_skip_misses(fields, key, fields.len() as int);
}

/// Finds `key` in an object's field list.
pub fn lookup<'a>(fields: &'a Vec<(String, Json)>, key: &str) -> (r: Option<&'a Json>)
    ensures
        match r {
            Some(j) => spec_lookup(fields@, key@) == Some(*j),
            None => spec_lookup(fields@, key@) is None,
        },
{
    let key_owned = key.to_owned();
    let n = fields.len();
    let mut i: usize = 0;
    while i < n
        invariant
            i <= n,
            n == fields@.len(),
            key_owned@ == key@,
            forall|k: int| 0 <= k < i ==> fields@[k].0@ != key@,
        decreases n - i,
    {
        if fields[i].0 == key_owned {
            proof {
                lemma_lookup_skip_misses(fields@, key@, i as int);
                assert(fields@.skip(i as int)[0] == fields@[i as int]);
            }
            return Some(&fields[i].1);
        }
        i += 1;
    }
    proof {
        lemma_lookup_skip_misses(fields@, key@, n as int);
    }
    None
}

// ---------------------------------------------------------------------
// Decimal number text
// ---------------------------------------------------------------------

pub open spec fn is_dec_digit(c: char) -> bool {
    48 <= c as u32 <= 57
}

pub open spec fn dec_digit_val(c: char) -> int {
    c as u32 - 48
}

pub open spec fn all_dec_digits(s: Seq<char>) -> bool {
    forall|i: int| 0 <= i < s.len() ==> is_dec_digit(#[trigger] s[i])
}

/// The integer denoted by a string of decimal digits.
pub open spec fn dec_val(s: Seq<char>) -> int
    decreases s.len(),
{
    if s.len() == 0 {
        0
    } else {
        10 * dec_val(s.drop_last()) + dec_digit_val(s.last())
    }
}

/// Digit strings as the JSON parser prints whole numbers: at least one
/// digit, and no leading zero unless the number is zero itself.
pub open spec fn canonical_digits(s: Seq<char>) -> bool {
    &&& s.len() > 0
    &&& all_dec_digits(s)
    &&& (s.len() == 1 || s[0] != '0')
}

/// The whole number a number's text denotes, or `None` when the text is
/// not a canonically printed whole number (a fraction, an exponent, a
/// leading zero, a stray sign).
pub open spec fn dec_int_of(s: Seq<char>) -> Option<int> {
    if s.len() >= 2 && s[0] == '-' {
        if canonical_digits(s.skip(1)) && s.skip(1)[0] != '0' {
            Some(-dec_val(s.skip(1)))
        } else {
            None
        }
    } else if canonical_digits(s) {
        Some(dec_val(s))
    } else {
        None
    }
}

/// `dec_int_of`, narrowed to the values an `i32` field can take.
pub open spec fn dec_i32_of(s: Seq<char>) -> Option<int> {
    match dec_int_of(s) {
        Some(v) => if i32::MIN <= v <= i32::MAX {
            Some(v)
        } else {
            None
        },
        None => None,
    }
}

pub open spec fn pow10(n: nat) -> int
    decreases n,
{
    if n == 0 {
        1
    } else {
        10 * pow10((n - 1) as nat)
    }
}

proof fn lemma_pow10_pos(n: nat)
    ensures
        pow10(n) > 0,
    decreases n,
{
    if n > 0 {
        lemma_pow10_pos((n - 1) as nat);
    }
}

proof fn lemma_pow10_mono(a: nat, b: nat)
    requires
        a <= b,
    ensures
        0 < pow10(a) <= pow10(b),
    decreases b,
{
    lemma_pow10_pos(a);
    if a < b {
        lemma_pow10_mono(a, (b - 1) as nat);
    }
}

proof fn lemma_dec_val_upper(s: Seq<char>)
    requires
        all_dec_digits(s),
    ensures
        0 <= dec_val(s) < pow10(s.len() as nat),
    decreases s.len(),
{
    if s.len() > 0 {
        assert(all_dec_digits(s.drop_last()));
        lemma_dec_val_upper(s.drop_last());
    }
}

proof fn lemma_dec_val_lower(s: Seq<char>)
    requires
        all_dec_digits(s),
        s.len() > 0,
        s[0] != '0',
    ensures
        dec_val(s) >= pow10((s.len() - 1) as nat),
    decreases s.len(),
{
    if s.len() == 1 {
        let c0 = s[0];
        assert(is_dec_digit(c0));
        assert(c0 != '0');
        if c0 as u32 == 48 {
            vstd::utf8::char_u32_cast(c0, 48);
            vstd::utf8::char_u32_cast('0', 48);
            assert(false);
        }
        assert(dec_digit_val(c0) >= 1);
        assert(s.last() == c0);
        assert(dec_val(s.drop_last()) == 0);
    } else {
        assert(all_dec_digits(s.drop_last()));
        lemma_dec_val_lower(s.drop_last());
    }
}

/// Reads a whole number out of a JSON number's text, when it denotes a
/// value an `i32` field can take.
pub fn parse_i32_text(t: &str) -> (r: Option<i32>)
    ensures
        match r {
            Some(v) => dec_i32_of(t@) == Some(v as int),
            None => dec_i32_of(t@) is None,
        },
{
    let n = t.unicode_len();
    if n == 0 {
        return None;
    }
    let neg = t.get_char(0) == '-';
    let start: usize = if neg {
        1
    } else {
        0
    };
    if n <= start {
        return None;
    }
    let first = t.get_char(start);
    let first_code = first as u32;
    if first_code < 48 || first_code > 57 {
        proof {
            let ghost s = t@;
            if neg {
                assert(!canonical_digits(s.skip(1))) by {
                    assert(s.skip(1)[0] == s[1]);
                }
            } else {
                assert(!canonical_digits(s)) by {
                    assert(!is_dec_digit(s[0]));
                }
            }
        }
        return None;
    }
    if first == '0' && (neg || n - start > 1) {
        proof {
            let ghost s = t@;
            if neg {
                assert(s.skip(1)[0] == s[1]);
            }
        }
        return None;
    }
    if n - start > 10 {
        proof {
            let ghost s = t@;
            let ghost mag = if neg { s.skip(1) } else { s };
            assert(mag[0] == s[start as int]);
            if canonical_digits(mag) {
                lemma_dec_val_lower(mag);
                lemma_pow10_mono(10, (mag.len() - 1) as nat);
                assert(pow10(10) == 10000000000) by {
                    reveal_with_fuel(pow10, 12);
                }
            }
        }
        return None;
    }
    let mut acc: i64 = 0;
    let mut i = start;
    proof {
        assert(t@.subrange(start as int, start as int) =~= Seq::<char>::empty());
    }
    while i < n
        invariant
            start <= i <= n,
            start < n,
            n == t@.len(),
            n - start <= 10,
            neg <==> start == 1,
            start == 1 || start == 0,
            start == 1 ==> t@[0] == '-',
            start == 0 ==> t@[0] != '-',
            n - start > 1 ==> t@[start as int] != '0',
            start == 1 ==> t@[start as int] != '0',
            is_dec_digit(t@[start as int]),
            all_dec_digits(t@.subrange(start as int, i as int)),
            acc == dec_val(t@.subrange(start as int, i as int)),
            0 <= acc < pow10((i - start) as nat),
        decreases n - i,
    {
        let c = t.get_char(i);
        let code = c as u32;
        if code < 48 || code > 57 {
            proof {
                let ghost s = t@;
                let ghost mag = if start == 1 { s.skip(1) } else { s };
                assert(mag[i - start] == s[i as int]);
                assert(!all_dec_digits(mag));
            }
            return None;
        }
        let d = (code - 48) as i64;
        proof {
            lemma_pow10_mono(((i - start) + 1) as nat, 10);
            assert(pow10(10) == 10000000000) by {
                reveal_with_fuel(pow10, 12);
            }
            let ghost pre = t@.subrange(start as int, i as int);
            let ghost ext = t@.subrange(start as int, i as int + 1);
            assert(ext.drop_last() =~= pre);
            assert(ext.last() == t@[i as int]);
            assert(all_dec_digits(ext)) by {
                assert(forall|k: int| 0 <= k < ext.len() - 1 ==> ext[k] == pre[k]);
            }
        }
        acc = 10 * acc + d;
        i += 1;
    }
    proof {
        let ghost s = t@;
        let ghost mag = if start == 1 { s.skip(1) } else { s };
        assert(mag =~= s.subrange(start as int, n as int));
        assert(mag[0] == s[start as int]);
        assert(canonical_digits(mag));
        lemma_dec_val_upper(mag);
    }
    if neg {
        let v = -acc;
        if v < -2147483648i64 {
            return None;
        }
        Some(v as i32)
    } else {
        if acc > 2147483647i64 {
            return None;
        }
        Some(acc as i32)
    }
}

fn digit_str(d: u32) -> (r: &'static str)
    requires
        d < 10,
    ensures
        r@.len() == 1,
        is_dec_digit(r@[0]),
        dec_digit_val(r@[0]) == d as int,
        d != 0 ==> r@[0] != '0',
{
    proof {
        reveal_strlit("0");
        reveal_strlit("1");
        reveal_strlit("2");
        reveal_strlit("3");
        reveal_strlit("4");
        reveal_strlit("5");
        reveal_strlit("6");
        reveal_strlit("7");
        reveal_strlit("8");
        reveal_strlit("9");
    }
    match d {
        0 => "0",
        1 => "1",
        2 => "2",
        3 => "3",
        4 => "4",
        5 => "5",
        6 => "6",
        7 => "7",
        8 => "8",
        _ => "9",
    }
}

/// Prints a whole number as canonical decimal digits.
fn u32_digits(v: u32) -> (s: String)
    ensures
        canonical_digits(s@),
        dec_val(s@) == v as int,
        v != 0 ==> s@[0] != '0',
    decreases v,
{
    let d: u32 = v % 10;
    let q: u32 = v / 10;
    proof {
        assert(v == q * 10 + d) by (nonlinear_arith)
            requires
                q == v / 10,
                d == v % 10,
        ;
    }
    let ds = digit_str(d);
    if q == 0 {
        let s = ds.to_owned();
        proof {
            assert(s@.drop_last() =~= Seq::<char>::empty());
            assert(s@.last() == s@[0]);
            assert(dec_val(Seq::<char>::empty()) == 0);
        }
        s
    } else {
        let mut s = u32_digits(q);
        let ghost prev = s@;
        s.append(ds);
        proof {
            assert(s@.drop_last() =~= prev);
            assert(s@.last() == ds@[0]);
            assert(s@[0] == prev[0]);
            assert(forall|k: int| 0 <= k < s@.len() - 1 ==> s@[k] == prev[k]);
            assert(all_dec_digits(s@));
        }
        s
    }
}

/// Prints an `i32` as the decimal text a JSON number field would carry;
/// the verified decimal reader reads the same value back.
pub fn i32_text(v: i32) -> (s: String)
    ensures
        dec_i32_of(s@) == Some(v as int),
{
    if v >= 0 {
        let s = u32_digits(v as u32);
        proof {
            if s@.len() >= 2 {
                assert(s@[0] != '0');
                if s@[0] == '-' {
                    assert(is_dec_digit(s@[0]));
                    assert('-' as u32 == 45);
                    vstd::utf8::char_u32_cast(s@[0], 45);
                }
            }
        }
        s
    } else {
        let mag = -(v as i64);
        let digits = u32_digits(mag as u32);
        let ghost dv = digits@;
        let mut s = "-".to_owned();
        proof {
            reveal_strlit("-");
        }
        s.append(digits.as_str());
        proof {
            assert(s@.len() == 1 + dv.len());
            assert(s@[0] == '-');
            assert(s@.skip(1) =~= dv);
            assert(dv[0] != '0');
        }
        s
    }
}

// ---------------------------------------------------------------------
// Typed field access
// ---------------------------------------------------------------------

/// A required string field: present and a string, or the shape does not
/// match.
pub open spec fn req_str(fields: Seq<(String, Json)>, key: Seq<char>) -> Option<Seq<char>> {
    match spec_lookup(fields, key) {
        Some(Json::Str(s)) => Some(s@),
        _ => None,
    }
}

/// A string field that falls back to the empty string when absent.
pub open spec fn dft_str(fields: Seq<(String, Json)>, key: Seq<char>) -> Option<Seq<char>> {
    match spec_lookup(fields, key) {
        None => Some(Seq::empty()),
        Some(Json::Str(s)) => Some(s@),
        _ => None,
    }
}

/// An optional string field: absent or null stays unset; a present
/// value must be a string.
pub open spec fn opt_str(fields: Seq<(String, Json)>, key: Seq<char>) -> Option<Option<Seq<char>>> {
    match spec_lookup(fields, key) {
        None => Some(None),
        Some(Json::Null) => Some(None),
        Some(Json::Str(s)) => Some(Some(s@)),
        _ => None,
    }
}

/// A required boolean field.
pub open spec fn req_bool(fields: Seq<(String, Json)>, key: Seq<char>) -> Option<bool> {
    match spec_lookup(fields, key) {
        Some(Json::Bool(b)) => Some(b),
        _ => None,
    }
}

/// A boolean field that falls back to false when absent.
pub open spec fn dft_bool(fields: Seq<(String, Json)>, key: Seq<char>) -> Option<bool> {
    match spec_lookup(fields, key) {
        None => Some(false),
        Some(Json::Bool(b)) => Some(b),
        _ => None,
    }
}

/// A required count field: a number whose text denotes an `i32`.
pub open spec fn req_i32(fields: Seq<(String, Json)>, key: Seq<char>) -> Option<int> {
    match spec_lookup(fields, key) {
        Some(Json::Num(t)) => dec_i32_of(t@),
        _ => None,
    }
}

/// A count field that falls back to zero when absent.
pub open spec fn dft_i32(fields: Seq<(String, Json)>, key: Seq<char>) -> Option<int> {
    match spec_lookup(fields, key) {
        None => Some(0),
        Some(Json::Num(t)) => dec_i32_of(t@),
        _ => None,
    }
}

/// A numeric field kept as its decimal text (used for the star rating,
/// which the upstream API reports with a fractional part); falls back
/// to "0" when absent.
pub open spec fn dft_num_text(fields: Seq<(String, Json)>, key: Seq<char>) -> Option<Seq<char>> {
    match spec_lookup(fields, key) {
        None => Some("0"@),
        Some(Json::Num(t)) => Some(t@),
        _ => None,
    }
}

pub fn get_req_str(fields: &Vec<(String, Json)>, key: &str) -> (r: Option<String>)
    ensures
        match r {
            Some(s) => req_str(fields@, key@) == Some(s@),
            None => req_str(fields@, key@) is None,
        },
{
    match lookup(fields, key) {
        Some(Json::Str(s)) => Some(s.clone()),
        _ => None,
    }
}

pub fn get_dft_str(fields: &Vec<(String, Json)>, key: &str) -> (r: Option<String>)
    ensures
        match r {
            Some(s) => dft_str(fields@, key@) == Some(s@),
            None => dft_str(fields@, key@) is None,
        },
{
    match lookup(fields, key) {
        None => Some(String::new()),
        Some(Json::Str(s)) => Some(s.clone()),
        Some(_) => None,
    }
}

pub fn get_opt_str(fields: &Vec<(String, Json)>, key: &str) -> (r: Option<Option<String>>)
    ensures
        match r {
            Some(None) => opt_str(fields@, key@) == Some(None::<Seq<char>>),
            Some(Some(s)) => opt_str(fields@, key@) == Some(Some(s@)),
            None => opt_str(fields@, key@) is None,
        },
{
    match lookup(fields, key) {
        None => Some(None),
        Some(Json::Null) => Some(None),
        Some(Json::Str(s)) => Some(Some(s.clone())),
        Some(_) => None,
    }
}

pub fn get_req_bool(fields: &Vec<(String, Json)>, key: &str) -> (r: Option<bool>)
    ensures
        match r {
            Some(b) => req_bool(fields@, key@) == Some(b),
            None => req_bool(fields@, key@) is None,
        },
{
    match lookup(fields, key) {
        Some(Json::Bool(b)) => Some(*b),
        _ => None,
    }
}

pub fn get_dft_bool(fields: &Vec<(String, Json)>, key: &str) -> (r: Option<bool>)
    ensures
        match r {
            Some(b) => dft_bool(fields@, key@) == Some(b),
            None => dft_bool(fields@, key@) is None,
        },
{
    match lookup(fields, key) {
        None => Some(false),
        Some(Json::Bool(b)) => Some(*b),
        Some(_) => None,
    }
}

pub fn get_req_i32(fields: &Vec<(String, Json)>, key: &str) -> (r: Option<i32>)
    ensures
        match r {
            Some(v) => req_i32(fields@, key@) == Some(v as int),
            None => req_i32(fields@, key@) is None,
        },
{
    match lookup(fields, key) {
        Some(Json::Num(t)) => parse_i32_text(t.as_str()),
        _ => None,
    }
}

pub fn get_dft_i32(fields: &Vec<(String, Json)>, key: &str) -> (r: Option<i32>)
    ensures
        match r {
            Some(v) => dft_i32(fields@, key@) == Some(v as int),
            None => dft_i32(fields@, key@) is None,
        },
{
    match lookup(fields, key) {
        None => Some(0),
        Some(Json::Num(t)) => parse_i32_text(t.as_str()),
        Some(_) => None,
    }
}

pub fn get_dft_num_text(fields: &Vec<(String, Json)>, key: &str) -> (r: Option<String>)
    ensures
        match r {
            Some(s) => dft_num_text(fields@, key@) == Some(s@),
            None => dft_num_text(fields@, key@) is None,
        },
{
    match lookup(fields, key) {
        None => Some("0".to_owned()),
        Some(Json::Num(t)) => Some(t.clone()),
        Some(_) => None,
    }
}

} // verus!

