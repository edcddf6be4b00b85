//! The sensor-reading payload: a flat JSON object with numeric fields `t`,
//! `p` and `h`, an optional `sensor_id` string and an optional `timestamp`
//! string.
//!
//! Each numeric field is accepted either as a JSON number or as a string
//! holding a decimal token (`"21.1111"`); a missing numeric field is a hard
//! parse failure, never a default. The decoded reading keeps each numeric
//! value as its decimal token, so the model stays exact; consumers convert
//! at the boundary. The grammar is a strict subset of JSON: one flat object,
//! escape-free strings, numeric tokens of the form
//! `[+-]? digits [. digits] [eE [+-] digits]`, and nothing after the
//! closing brace but whitespace.

use vstd::prelude::*;
use vstd::slice::{slice_subrange, slice_to_vec};

use crate::error::BsError;

verus! {

/// A decoded sensor reading. The three numeric fields hold the decimal
/// token exactly as it appeared (quoted or not); `timestamp` is `None` when
/// the payload had none, in which case the receiver supplies the receipt
/// time.
#[derive(Debug, PartialEq, Eq)]
pub struct SensorReadingEvent {
    pub sensor_id: Vec<u8>,
    pub temperature: Vec<u8>,
    pub pressure: Vec<u8>,
    pub humidity: Vec<u8>,
    pub timestamp: Option<Vec<u8>>,
}

/// The mathematical value of a [`SensorReadingEvent`].
pub struct SpecReading {
    pub sensor_id: Seq<u8>,
    pub temperature: Seq<u8>,
    pub pressure: Seq<u8>,
    pub humidity: Seq<u8>,
    pub timestamp: Option<Seq<u8>>,
}

impl View for SensorReadingEvent {
    type V = SpecReading;

    open spec fn view(&self) -> SpecReading {
        SpecReading {
            sensor_id: self.sensor_id@,
            temperature: self.temperature@,
            pressure: self.pressure@,
            humidity: self.humidity@,
            timestamp: match self.timestamp {
                Some(ts) => Some(ts@),
                None => None,
            },
        }
    }
}

/// A JSON value of the payload subset: an escape-free string or a numeric
/// token.
#[derive(Debug, PartialEq, Eq)]
pub enum JsonValue {
    Str(Vec<u8>),
    Num(Vec<u8>),
}

/// The mathematical value of a [`JsonValue`].
pub enum SpecJsonValue {
    Str(Seq<u8>),
    Num(Seq<u8>),
}

/// One `key: value` member of the payload object.
#[derive(Debug, PartialEq, Eq)]
pub struct JsonField {
    pub key: Vec<u8>,
    pub value: JsonValue,
}

/// The mathematical value of a [`JsonField`].
pub struct SpecJsonField {
    pub key: Seq<u8>,
    pub value: SpecJsonValue,
}

pub open spec fn spec_view_of_value(v: JsonValue) -> SpecJsonValue {
    match v {
        JsonValue::Str(b) => SpecJsonValue::Str(b@),
        JsonValue::Num(b) => SpecJsonValue::Num(b@),
    }
}

pub open spec fn spec_view_of_field(f: JsonField) -> SpecJsonField {
    SpecJsonField { key: f.key@, value: spec_view_of_value(f.value) }
}

pub open spec fn spec_view_of_fields(fs: Seq<JsonField>) -> Seq<SpecJsonField> {
    fs.map_values(|f: JsonField| spec_view_of_field(f))
}

/// JSON insignificant whitespace.
pub open spec fn spec_is_ws(b: u8) -> bool {
    b == 0x20 || b == 0x09 || b == 0x0A || b == 0x0D
}

pub open spec fn spec_is_digit(b: u8) -> bool {
    0x30 <= b <= 0x39
}

/// A byte allowed inside an escape-free string literal.
pub open spec fn spec_plain_str_byte(b: u8) -> bool {
    0x20 <= b && b != 0x22 && b != 0x5C
}

/// A byte that may occur in a numeric token.
pub open spec fn spec_num_byte(b: u8) -> bool {
    spec_is_digit(b) || b == 0x2B || b == 0x2D || b == 0x2E || b == 0x65 || b == 0x45
}

/// The first index at or after `i` holding no whitespace.
pub open spec fn spec_skip_ws(s: Seq<u8>, i: int) -> int
    decreases s.len() - i,
{
    if 0 <= i < s.len() && spec_is_ws(s[i]) {
        spec_skip_ws(s, i + 1)
    } else {
        i
    }
}

/// The index of the closing quote of a string whose content starts at `i`;
/// `None` when the string is unterminated or holds a byte outside the
/// escape-free subset.
pub open spec fn spec_str_end(s: Seq<u8>, i: int) -> Option<int>
    decreases s.len() - i,
{
    if 0 <= i < s.len() {
        if s[i] == 0x22 {
            Some(i)
        } else if spec_plain_str_byte(s[i]) {
            spec_str_end(s, i + 1)
        } else {
            None
        }
    } else {
        None
    }
}

/// The first index at or after `i` holding no numeric-token byte.
pub open spec fn spec_num_end(s: Seq<u8>, i: int) -> int
    decreases s.len() - i,
{
    if 0 <= i < s.len() && spec_num_byte(s[i]) {
        spec_num_end(s, i + 1)
    } else {
        i
    }
}

/// Skips one optional leading sign.
pub open spec fn spec_sign_skip(t: Seq<u8>, i: int) -> int {
    if 0 <= i < t.len() && (t[i] == 0x2B || t[i] == 0x2D) {
        i + 1
    } else {
        i
    }
}

/// The first index at or after `i` holding no digit.
pub open spec fn spec_digits_end(t: Seq<u8>, i: int) -> int
    decreases t.len() - i,
{
    if 0 <= i < t.len() && spec_is_digit(t[i]) {
        spec_digits_end(t, i + 1)
    } else {
        i
    }
}

/// The accepted decimal-token language of the numeric fields:
/// `[+-]? digits [. digits] [eE [+-] digits]`, with at least one digit in
/// each digit run.
pub open spec fn spec_is_numeric_token(t: Seq<u8>) -> bool {
    let i0 = spec_sign_skip(t, 0);
    let i1 = spec_digits_end(t, i0);
    if i1 == i0 {
        false
    } else if i1 < t.len() && t[i1] == 0x2E {
        let i2 = spec_digits_end(t, i1 + 1);
        if i2 == i1 + 1 {
            false
        } else {
            spec_exponent_tail_ok(t, i2)
        }
    } else {
        spec_exponent_tail_ok(t, i1)
    }
}

/// Whether the token bytes from `i` on are empty or a well-formed exponent.
pub open spec fn spec_exponent_tail_ok(t: Seq<u8>, i: int) -> bool {
    if i == t.len() {
        true
    } else if 0 <= i < t.len() && (t[i] == 0x65 || t[i] == 0x45) {
        let j = spec_sign_skip(t, i + 1);
        let k = spec_digits_end(t, j);
        k > j && k == t.len()
    } else {
        false
    }
}

/// One JSON value of the subset at index `i`: a string or a numeric token.
pub open spec fn spec_parse_value(s: Seq<u8>, i: int) -> Option<(SpecJsonValue, int)> {
    if 0 <= i < s.len() && s[i] == 0x22 {
        match spec_str_end(s, i + 1) {
            Some(e) => Some((SpecJsonValue::Str(s.subrange(i + 1, e)), e + 1)),
            None => None,
        }
    } else if 0 <= i < s.len() && spec_num_byte(s[i]) {
        let e = spec_num_end(s, i);
        if spec_is_numeric_token(s.subrange(i, e)) {
            Some((SpecJsonValue::Num(s.subrange(i, e)), e))
        } else {
            None
        }
    } else {
        None
    }
}

/// The members of the object from index `i` (just after `{` or a comma) to
/// the closing brace, and the index after that brace.
pub open spec fn spec_parse_fields(s: Seq<u8>, i: int, fuel: nat) -> Option<
    (Seq<SpecJsonField>, int),
>
    decreases fuel,
{
    if fuel == 0 {
        None
    } else {
        let k = spec_skip_ws(s, i);
        if !(k < s.len() && s[k] == 0x22) {
            None
        } else {
            match spec_str_end(s, k + 1) {
                None => None,
                Some(e) => {
                    let key = s.subrange(k + 1, e);
                    let c = spec_skip_ws(s, e + 1);
                    if !(c < s.len() && s[c] == 0x3A) {
                        None
                    } else {
                        match spec_parse_value(s, spec_skip_ws(s, c + 1)) {
                            None => None,
                            Some((v, m)) => {
                                let n = spec_skip_ws(s, m);
                                if n < s.len() && s[n] == 0x2C {
                                    match spec_parse_fields(s, n + 1, (fuel - 1) as nat) {
                                        None => None,
                                        Some((rest, end)) => Some(
                                            (seq![SpecJsonField { key, value: v }] + rest, end),
                                        ),
                                    }
                                } else if n < s.len() && s[n] == 0x7D {
                                    Some((seq![SpecJsonField { key, value: v }], n + 1))
                                } else {
                                    None
                                }
                            },
                        }
                    }
                }
            }
        }
    }
}

/// The member list of a payload: one flat object with nothing but
/// whitespace around it.
pub open spec fn spec_parse_object(s: Seq<u8>) -> Option<Seq<SpecJsonField>> {
    let i = spec_skip_ws(s, 0);
    if !(i < s.len() && s[i] == 0x7B) {
        None
    } else {
        let j = spec_skip_ws(s, i + 1);
        if j < s.len() && s[j] == 0x7D {
            if spec_skip_ws(s, j + 1) == s.len() {
                Some(seq![])
            } else {
                None
            }
        } else {
            match spec_parse_fields(s, i + 1, s.len()) {
                None => None,
                Some((fields, end)) => if spec_skip_ws(s, end) == s.len() {
                    Some(fields)
                } else {
                    None
                },
            }
        }
    }
}

pub open spec fn spec_key_temperature() -> Seq<u8> {
    seq![0x74u8]
}

pub open spec fn spec_key_pressure() -> Seq<u8> {
    seq![0x70u8]
}

pub open spec fn spec_key_humidity() -> Seq<u8> {
    seq![0x68u8]
}

pub open spec fn spec_key_sensor_id() -> Seq<u8> {
    seq![0x73u8, 0x65u8, 0x6Eu8, 0x73u8, 0x6Fu8, 0x72u8, 0x5Fu8, 0x69u8, 0x64u8]
}

pub open spec fn spec_key_timestamp() -> Seq<u8> {
    seq![0x74u8, 0x69u8, 0x6Du8, 0x65u8, 0x73u8, 0x74u8, 0x61u8, 0x6Du8, 0x70u8]
}

/// The identifier a reading gets when the payload names none.
pub open spec fn spec_default_sensor() -> Seq<u8> {
    seq![
        0x6Fu8,
        0x75u8,
        0x74u8,
        0x73u8,
        0x69u8,
        0x64u8,
        0x65u8,
        0x2Du8,
        0x73u8,
        0x65u8,
        0x6Eu8,
        0x73u8,
        0x6Fu8,
        0x72u8,
    ]
}

/// The decimal token of a numeric field: a number as it stands, a string
/// only when its content lies in the decimal-token language.
pub open spec fn spec_numeric_of(v: SpecJsonValue) -> Option<Seq<u8>> {
    match v {
        SpecJsonValue::Num(t) => Some(t),
        SpecJsonValue::Str(t) => if spec_is_numeric_token(t) {
            Some(t)
        } else {
            None
        },
    }
}

/// The content of a field that must be a string.
pub open spec fn spec_string_of(v: SpecJsonValue) -> Option<Seq<u8>> {
    match v {
        SpecJsonValue::Str(t) => Some(t),
        SpecJsonValue::Num(_) => None,
    }
}

/// The fields collected so far while walking the object's members.
pub struct SpecAcc {
    pub sensor_id: Option<Seq<u8>>,
    pub temperature: Option<Seq<u8>>,
    pub pressure: Option<Seq<u8>>,
    pub humidity: Option<Seq<u8>>,
    pub timestamp: Option<Seq<u8>>,
}

pub open spec fn spec_empty_acc() -> SpecAcc {
    SpecAcc { sensor_id: None, temperature: None, pressure: None, humidity: None, timestamp: None }
}

/// Folds one member into the accumulator: a known key must carry a value of
/// its type and may occur only once; an unknown key is ignored.
pub open spec fn spec_apply_field(acc: SpecAcc, f: SpecJsonField) -> Option<SpecAcc> {
    if f.key == spec_key_temperature() {
        if acc.temperature is Some {
            None
        } else {
            match spec_numeric_of(f.value) {
                Some(t) => Some(SpecAcc { temperature: Some(t), ..acc }),
                None => None,
            }
        }
    } else if f.key == spec_key_pressure() {
        if acc.pressure is Some {
            None
        } else {
            match spec_numeric_of(f.value) {
                Some(t) => Some(SpecAcc { pressure: Some(t), ..acc }),
                None => None,
            }
        }
    } else if f.key == spec_key_humidity() {
        if acc.humidity is Some {
            None
        } else {
            match spec_numeric_of(f.value) {
                Some(t) => Some(SpecAcc { humidity: Some(t), ..acc }),
                None => None,
            }
        }
    } else if f.key == spec_key_sensor_id() {
        if acc.sensor_id is Some {
            None
        } else {
            match spec_string_of(f.value) {
                Some(t) => Some(SpecAcc { sensor_id: Some(t), ..acc }),
                None => None,
            }
        }
    } else if f.key == spec_key_timestamp() {
        if acc.timestamp is Some {
            None
        } else {
            match spec_string_of(f.value) {
                Some(t) => Some(SpecAcc { timestamp: Some(t), ..acc }),
                None => None,
            }
        }
    } else {
        Some(acc)
    }
}

pub open spec fn spec_fold_fields(fields: Seq<SpecJsonField>, acc: SpecAcc) -> Option<SpecAcc>
    decreases fields.len(),
{
    if fields.len() == 0 {
        Some(acc)
    } else {
        match spec_apply_field(acc, fields[0]) {
            None => None,
            Some(a) => spec_fold_fields(fields.drop_first(), a),
        }
    }
}

/// A reading is well-formed only when all three numeric fields are present;
/// the identifier defaults, the timestamp stays absent when unnamed.
pub open spec fn spec_reading_of_fields(fields: Seq<SpecJsonField>) -> Option<SpecReading> {
    match spec_fold_fields(fields, spec_empty_acc()) {
        None => None,
        Some(a) => match (a.temperature, a.pressure, a.humidity) {
            (Some(t), Some(p), Some(h)) => Some(
                SpecReading {
                    sensor_id: match a.sensor_id {
                        Some(id) => id,
                        None => spec_default_sensor(),
                    },
                    temperature: t,
                    pressure: p,
                    humidity: h,
                    timestamp: a.timestamp,
                },
            ),
            _ => None,
        },
    }
}

/// What decoding a payload returns, if anything.
pub open spec fn spec_parse_reading(s: Seq<u8>) -> Option<SpecReading> {
    match spec_parse_object(s) {
        None => None,
        Some(fields) => spec_reading_of_fields(fields),
    }
}

proof fn lemma_fold_keeps_missing_humidity(fields: Seq<SpecJsonField>, acc: SpecAcc)
    requires
        acc.humidity is None,
        forall|i: int| 0 <= i < fields.len() ==> (#[trigger] fields[i]).key != spec_key_humidity(),
    ensures
        match spec_fold_fields(fields, acc) {
            Some(a) => a.humidity is None,
            None => true,
        },
    decreases fields.len(),
{
    if fields.len() > 0 {
        match spec_apply_field(acc, fields[0]) {
            None => {},
            Some(a) => {
                assert(fields[0].key != spec_key_humidity());
                assert(a.humidity is None);
                assert(forall|i: int|
                    0 <= i < fields.drop_first().len() ==> (#[trigger] fields.drop_first()[i]).key
                        != spec_key_humidity());
                lemma_fold_keeps_missing_humidity(fields.drop_first(), a);
            },
        }
    }
}

fn is_ws_byte(b: u8) -> (r: bool)
    ensures
        r == spec_is_ws(b),
{
    b == 0x20 || b == 0x09 || b == 0x0A || b == 0x0D
}

fn is_num_byte(b: u8) -> (r: bool)
    ensures
        r == spec_num_byte(b),
{
    (0x30 <= b && b <= 0x39) || b == 0x2B || b == 0x2D || b == 0x2E || b == 0x65 || b == 0x45
}

fn skip_ws(s: &[u8], i: usize) -> (r: usize)
    requires
        i <= s@.len(),
    ensures
        r == spec_skip_ws(s@, i as int),
        i <= r <= s@.len(),
    decreases s@.len() - i,
{
    if i < s.len() && is_ws_byte(s[i]) {
        skip_ws(s, i + 1)
    } else {
        i
    }
}

fn str_end(s: &[u8], i: usize) -> (r: Option<usize>)
    requires
        i <= s@.len(),
    ensures
        match r {
            Some(e) => spec_str_end(s@, i as int) == Some(e as int) && i <= e < s@.len(),
            None => spec_str_end(s@, i as int) is None,
        },
    decreases s@.len() - i,
{
    if i < s.len() {
        let b = s[i];
        if b == 0x22 {
            Some(i)
        } else if 0x20 <= b && b != 0x5C {
            str_end(s, i + 1)
        } else {
            None
        }
    } else {
        None
    }
}

fn num_end(s: &[u8], i: usize) -> (r: usize)
    requires
        i <= s@.len(),
    ensures
        r == spec_num_end(s@, i as int),
        i <= r <= s@.len(),
    decreases s@.len() - i,
{
    if i < s.len() && is_num_byte(s[i]) {
        num_end(s, i + 1)
    } else {
        i
    }
}

fn sign_skip(t: &[u8], i: usize) -> (r: usize)
    requires
        i <= t@.len(),
    ensures
        r == spec_sign_skip(t@, i as int),
        i <= r <= t@.len(),
{
    if i < t.len() && (t[i] == 0x2B || t[i] == 0x2D) {
        i + 1
    } else {
        i
    }
}

fn digits_end(t: &[u8], i: usize) -> (r: usize)
    requires
        i <= t@.len(),
    ensures
        r == spec_digits_end(t@, i as int),
        i <= r <= t@.len(),
    decreases t@.len() - i,
{
    if i < t.len() && 0x30 <= t[i] && t[i] <= 0x39 {
        digits_end(t, i + 1)
    } else {
        i
    }
}

fn exponent_tail_ok(t: &[u8], i: usize) -> (r: bool)
    requires
        i <= t@.len(),
    ensures
        r == spec_exponent_tail_ok(t@, i as int),
{
    if i == t.len() {
        true
    } else if t[i] == 0x65 || t[i] == 0x45 {
        let j = sign_skip(t, i + 1);
        let k = digits_end(t, j);
        k > j && k == t.len()
    } else {
        false
    }
}

/// Whether a byte string lies in the decimal-token language accepted for
/// the numeric fields.
pub fn is_numeric_token(t: &[u8]) -> (r: bool)
    ensures
        r == spec_is_numeric_token(t@),
{
    let i0 = sign_skip(t, 0);
    let i1 = digits_end(t, i0);
    if i1 == i0 {
        false
    } else if i1 < t.len() && t[i1] == 0x2E {
        let i2 = digits_end(t, i1 + 1);
        if i2 == i1 + 1 {
            false
        } else {
            exponent_tail_ok(t, i2)
        }
    } else {
        exponent_tail_ok(t, i1)
    }
}

fn parse_value(s: &[u8], i: usize) -> (r: Option<(JsonValue, usize)>)
    requires
        i <= s@.len(),
    ensures
        match r {
            Some(v) => spec_parse_value(s@, i as int) == Some((spec_view_of_value(v.0), v.1 as int))
                && i < v.1 <= s@.len(),
            None => spec_parse_value(s@, i as int) is None,
        },
{
    if i < s.len() && s[i] == 0x22 {
        match str_end(s, i + 1) {
            Some(e) => {
                let content = slice_to_vec(slice_subrange(s, i + 1, e));
                Some((JsonValue::Str(content), e + 1))
            },
            None => None,
        }
    } else if i < s.len() && is_num_byte(s[i]) {
        let e = num_end(s, i);
        let tok = slice_subrange(s, i, e);
        if is_numeric_token(tok) {
            Some((JsonValue::Num(slice_to_vec(tok)), e))
        } else {
            None
        }
    } else {
        None
    }
}

fn parse_fields(s: &[u8], i: usize, fuel: usize) -> (r: Option<(Vec<JsonField>, usize)>)
    requires
        i <= s@.len(),
    ensures
        match r {
            Some(v) => spec_parse_fields(s@, i as int, fuel as nat) == Some(
                (spec_view_of_fields(v.0@), v.1 as int),
            ) && v.1 <= s@.len(),
            None => spec_parse_fields(s@, i as int, fuel as nat) is None,
        },
    decreases fuel,
{
    if fuel == 0 {
        return None;
    }
    let k = skip_ws(s, i);
    if !(k < s.len() && s[k] == 0x22) {
        return None;
    }
    match str_end(s, k + 1) {
        None => None,
        Some(e) => {
            let key = slice_to_vec(slice_subrange(s, k + 1, e));
            let c = skip_ws(s, e + 1);
            if !(c < s.len() && s[c] == 0x3A) {
                return None;
            }
            let vstart = skip_ws(s, c + 1);
            match parse_value(s, vstart) {
                None => None,
                Some((v, m)) => {
                    let n = skip_ws(s, m);
                    if n < s.len() && s[n] == 0x2C {
                        match parse_fields(s, n + 1, fuel - 1) {
                            None => None,
                            Some((rest, end)) => {
                                let ghost rest_spec = spec_view_of_fields(rest@);
                                let mut out = rest;
                                out.insert(0, JsonField { key, value: v });
                                proof {
                                    assert(spec_view_of_fields(out@) =~= seq![
                                        SpecJsonField {
                                            key: s@.subrange(k + 1, e as int),
                                            value: spec_parse_value(
                                                s@,
                                                vstart as int,
                                            ).unwrap().0,
                                        },
                                    ] + rest_spec);
                                }
                                Some((out, end))
                            },
                        }
                    } else if n < s.len() && s[n] == 0x7D {
                        let mut out: Vec<JsonField> = Vec::new();
                        out.push(JsonField { key, value: v });
                        proof {
                            assert(spec_view_of_fields(out@) =~= seq![
                                SpecJsonField {
                                    key: s@.subrange(k + 1, e as int),
                                    value: spec_parse_value(s@, vstart as int).unwrap().0,
                                },
                            ]);
                        }
                        Some((out, n + 1))
                    } else {
                        None
                    }
                },
            }
        },
    }
}

fn parse_object(s: &[u8]) -> (r: Option<Vec<JsonField>>)
    ensures
        match r {
            Some(v) => spec_parse_object(s@) == Some(spec_view_of_fields(v@)),
            None => spec_parse_object(s@) is None,
        },
{
    let i = skip_ws(s, 0);
    if !(i < s.len() && s[i] == 0x7B) {
        return None;
    }
    let j = skip_ws(s, i + 1);
    if j < s.len() && s[j] == 0x7D {
        if skip_ws(s, j + 1) == s.len() {
            let out: Vec<JsonField> = Vec::new();
            proof {
                assert(spec_view_of_fields(out@) =~= Seq::<SpecJsonField>::empty());
            }
            Some(out)
        } else {
            None
        }
    } else {
        match parse_fields(s, i + 1, s.len()) {
            None => None,
            Some((fields, end)) => {
                if skip_ws(s, end) == s.len() {
                    Some(fields)
                } else {
                    None
                }
            },
        }
    }
}

struct ReadingAcc {
    sensor_id: Option<Vec<u8>>,
    temperature: Option<Vec<u8>>,
    pressure: Option<Vec<u8>>,
    humidity: Option<Vec<u8>>,
    timestamp: Option<Vec<u8>>,
}

spec fn spec_view_of_opt(o: Option<Vec<u8>>) -> Option<Seq<u8>> {
    match o {
        Some(v) => Some(v@),
        None => None,
    }
}

spec fn spec_view_of_acc(a: ReadingAcc) -> SpecAcc {
    SpecAcc {
        sensor_id: spec_view_of_opt(a.sensor_id),
        temperature: spec_view_of_opt(a.temperature),
        pressure: spec_view_of_opt(a.pressure),
        humidity: spec_view_of_opt(a.humidity),
        timestamp: spec_view_of_opt(a.timestamp),
    }
}

fn is_single_key(k: &[u8], b: u8) -> (r: bool)
    ensures
        r == (k@ == seq![b]),
{
    let r = k.len() == 1 && k[0] == b;
    proof {
        if r {
            assert(k@ =~= seq![b]);
        } else {
            if k@ == seq![b] {
                assert(k@.len() == 1);
                assert(k@[0] == b);
            }
        }
    }
    r
}

fn is_key_sensor_id(k: &[u8]) -> (r: bool)
    ensures
        r == (k@ == spec_key_sensor_id()),
{
    let r = k.len() == 9 && k[0] == 0x73 && k[1] == 0x65 && k[2] == 0x6E && k[3] == 0x73 && k[4]
        == 0x6F && k[5] == 0x72 && k[6] == 0x5F && k[7] == 0x69 && k[8] == 0x64;
    proof {
        if r {
            assert(k@ =~= spec_key_sensor_id());
        } else {
            if k@ == spec_key_sensor_id() {
                assert(k@.len() == 9);
                assert(k@[0] == 0x73 && k@[1] == 0x65 && k@[2] == 0x6E && k@[3] == 0x73 && k@[4]
                    == 0x6F && k@[5] == 0x72 && k@[6] == 0x5F && k@[7] == 0x69 && k@[8] == 0x64);
            }
        }
    }
    r
}

fn is_key_timestamp(k: &[u8]) -> (r: bool)
    ensures
        r == (k@ == spec_key_timestamp()),
{
    let r = k.len() == 9 && k[0] == 0x74 && k[1] == 0x69 && k[2] == 0x6D && k[3] == 0x65 && k[4]
        == 0x73 && k[5] == 0x74 && k[6] == 0x61 && k[7] == 0x6D && k[8] == 0x70;
    proof {
        if r {
            assert(k@ =~= spec_key_timestamp());
        } else {
            if k@ == spec_key_timestamp() {
                assert(k@.len() == 9);
                assert(k@[0] == 0x74 && k@[1] == 0x69 && k@[2] == 0x6D && k@[3] == 0x65 && k@[4]
                    == 0x73 && k@[5] == 0x74 && k@[6] == 0x61 && k@[7] == 0x6D && k@[8] == 0x70);
            }
        }
    }
    r
}

fn numeric_of(v: JsonValue) -> (r: Option<Vec<u8>>)
    ensures
        spec_view_of_opt(r) == spec_numeric_of(spec_view_of_value(v)),
{
    match v {
        JsonValue::Num(t) => Some(t),
        JsonValue::Str(t) => {
            if is_numeric_token(t.as_slice()) {
                Some(t)
            } else {
                None
            }
        },
    }
}

fn string_of(v: JsonValue) -> (r: Option<Vec<u8>>)
    ensures
        spec_view_of_opt(r) == spec_string_of(spec_view_of_value(v)),
{
    match v {
        JsonValue::Str(t) => Some(t),
        JsonValue::Num(_) => None,
    }
}

fn apply_field(acc: ReadingAcc, f: JsonField) -> (r: Option<ReadingAcc>)
    ensures
        match r {
            Some(a) => spec_apply_field(spec_view_of_acc(acc), spec_view_of_field(f)) == Some(
                spec_view_of_acc(a),
            ),
            None => spec_apply_field(spec_view_of_acc(acc), spec_view_of_field(f)) is None,
        },
{
    let JsonField { key, value } = f;
    if is_single_key(key.as_slice(), 0x74) {
        if acc.temperature.is_some() {
            None
        } else {
            match numeric_of(value) {
                Some(t) => Some(ReadingAcc { temperature: Some(t), ..acc }),
                None => None,
            }
        }
    } else if is_single_key(key.as_slice(), 0x70) {
        if acc.pressure.is_some() {
            None
        } else {
            match numeric_of(value) {
                Some(t) => Some(ReadingAcc { pressure: Some(t), ..acc }),
                None => None,
            }
        }
    } else if is_single_key(key.as_slice(), 0x68) {
        if acc.humidity.is_some() {
            None
        } else {
            match numeric_of(value) {
                Some(t) => Some(ReadingAcc { humidity: Some(t), ..acc }),
                None => None,
            }
        }
    } else if is_key_sensor_id(key.as_slice()) {
        if acc.sensor_id.is_some() {
            None
        } else {
            match string_of(value) {
                Some(t) => Some(ReadingAcc { sensor_id: Some(t), ..acc }),
                None => None,
            }
        }
    } else if is_key_timestamp(key.as_slice()) {
        if acc.timestamp.is_some() {
            None
        } else {
            match string_of(value) {
                Some(t) => Some(ReadingAcc { timestamp: Some(t), ..acc }),
                None => None,
            }
        }
    } else {
        Some(acc)
    }
}

/// The identifier a reading gets when the payload names none:
/// `outside-sensor`.
pub fn default_sensor() -> (r: Vec<u8>)
    ensures
        r@ == spec_default_sensor(),
{
    let mut v: Vec<u8> = Vec::new();
    v.push(0x6F);
    v.push(0x75);
    v.push(0x74);
    v.push(0x73);
    v.push(0x69);
    v.push(0x64);
    v.push(0x65);
    v.push(0x2D);
    v.push(0x73);
    v.push(0x65);
    v.push(0x6E);
    v.push(0x73);
    v.push(0x6F);
    v.push(0x72);
    proof {
        assert(v@ =~= spec_default_sensor());
    }
    v
}

/// Decodes a payload into a sensor reading, or fails with `Protocol` on any
/// payload outside the accepted grammar — in particular whenever one of
/// `t`, `p`, `h` is missing or non-numeric.
pub fn parse_sensor_reading(payload: &[u8]) -> (r: Result<SensorReadingEvent, BsError>)
    ensures
        match r {
            Ok(ev) => spec_parse_reading(payload@) == Some(ev@),
            Err(e) => spec_parse_reading(payload@) is None && e == BsError::Protocol,
        },
{
    match parse_object(payload) {
        None => Err(BsError::Protocol),
        Some(fields) => {
            let ghost fields0 = spec_view_of_fields(fields@);
            let mut rest = fields;
            let mut acc = ReadingAcc {
                sensor_id: None,
                temperature: None,
                pressure: None,
                humidity: None,
                timestamp: None,
            };
            proof {
                assert(spec_view_of_acc(acc) == spec_empty_acc());
            }
            while rest.len() > 0
                invariant
                    spec_parse_object(payload@) == Some(fields0),
                    spec_fold_fields(fields0, spec_empty_acc()) == spec_fold_fields(
                        spec_view_of_fields(rest@),
                        spec_view_of_acc(acc),
                    ),
                decreases rest@.len(),
            {
                let ghost before = rest@;
                let f = rest.remove(0);
                proof {
                    assert(spec_view_of_fields(rest@) =~= spec_view_of_fields(
                        before,
                    ).drop_first());
                    assert(spec_view_of_field(f) == spec_view_of_fields(before)[0]);
                }
                match apply_field(acc, f) {
                    None => {
                        proof {
                            assert(spec_view_of_fields(before).len() > 0);
                            assert(spec_fold_fields(
                                spec_view_of_fields(before),
                                spec_view_of_acc(acc),
                            ) is None);
                            assert(spec_fold_fields(fields0, spec_empty_acc()) is None);
                            assert(spec_parse_object(payload@) == Some(fields0));
                            assert(spec_parse_reading(payload@) is None);
                        }
                        return Err(BsError::Protocol);
                    },
                    Some(a) => {
                        acc = a;
                    },
                }
            }
            proof {
                assert(spec_view_of_fields(rest@) =~= Seq::<SpecJsonField>::empty());
            }
            let ReadingAcc { sensor_id, temperature, pressure, humidity, timestamp } = acc;
            match (temperature, pressure, humidity) {
                (Some(t), Some(p), Some(h)) => Ok(
                    SensorReadingEvent {
                        sensor_id: match sensor_id {
                            Some(id) => id,
                            None => default_sensor(),
                        },
                        temperature: t,
                        pressure: p,
                        humidity: h,
                        timestamp,
                    },
                ),
                _ => Err(BsError::Protocol),
            }
        },
    }
}

/// Law: a payload whose object has no `h` member fails decoding, whatever
/// else it holds.
pub proof fn lemma_missing_humidity_fails(s: Seq<u8>, fields: Seq<SpecJsonField>)
    requires
        spec_parse_object(s) == Some(fields),
        forall|i: int| 0 <= i < fields.len() ==> (#[trigger] fields[i]).key != spec_key_humidity(),
    ensures
        spec_parse_reading(s) is None,
{
    lemma_fold_keeps_missing_humidity(fields, spec_empty_acc());
}

} // verus!
