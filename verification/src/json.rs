//! The JSON value model: what a value denotes, how request objects are
//! assembled field by field, and the exact bytes of the compact text
//! form written to the wire.

use vstd::prelude::*;

verus! {

broadcast use vstd::std_specs::vec::group_vec_axioms, vstd::seq::group_seq_axioms;

/// Mathematical model of a JSON document: what a `JsonValue` denotes.
#[verifier::ext_equal]
pub enum JVal {
    Null,
    Bool(bool),
    Int(int),
    Str(Seq<char>),
    Arr(Seq<JVal>),
    Obj(Seq<(Seq<char>, JVal)>),
}

/// A JSON value as carried at run time. Strings are UTF-8 `String`s,
/// numbers are signed 64-bit integers, and objects keep their fields in
/// insertion order.
pub enum JsonValue {
    Null,
    Bool(bool),
    Int(i64),
    Str(String),
    Arr(Vec<JsonValue>),
    Obj(Vec<(String, JsonValue)>),
}

pub open spec fn jval_view(v: JsonValue) -> JVal
    decreases v,
{
    match v {
        JsonValue::Null => JVal::Null,
        JsonValue::Bool(b) => JVal::Bool(b),
        JsonValue::Int(i) => JVal::Int(i as int),
        JsonValue::Str(s) => JVal::Str(s@),
        JsonValue::Arr(items) => JVal::Arr(jvals_view(items@)),
        JsonValue::Obj(fields) => JVal::Obj(jfields_view(fields@)),
    }
}

pub open spec fn jvals_view(s: Seq<JsonValue>) -> Seq<JVal>
    decreases s,
{
    if s.len() == 0 {
        Seq::empty()
    } else {
        seq![jval_view(s[0])] + jvals_view(s.subrange(1, s.len() as int))
    }
}

pub open spec fn jfields_view(s: Seq<(String, JsonValue)>) -> Seq<(Seq<char>, JVal)>
    decreases s,
{
    if s.len() == 0 {
        Seq::empty()
    } else {
        seq![(s[0].0@, jval_view(s[0].1))] + jfields_view(s.subrange(1, s.len() as int))
    }
}

/// Pointwise reading of `jvals_view`.
pub broadcast proof fn lemma_jvals_view(s: Seq<JsonValue>)
    ensures
        (#[trigger] jvals_view(s)).len() == s.len(),
        forall|i: int| 0 <= i < s.len() ==> jvals_view(s)[i] == jval_view(s[i]),
    decreases s.len(),
{
    if s.len() > 0 {
        lemma_jvals_view(s.subrange(1, s.len() as int));
    }
}

/// Pointwise reading of `jfields_view`.
pub broadcast proof fn lemma_jfields_view(s: Seq<(String, JsonValue)>)
    ensures
        (#[trigger] jfields_view(s)).len() == s.len(),
        forall|i: int|
            0 <= i < s.len() ==> jfields_view(s)[i] == (s[i].0@, jval_view(s[i].1)),
    decreases s.len(),
{
    if s.len() > 0 {
        lemma_jfields_view(s.subrange(1, s.len() as int));
    }
}

impl View for JsonValue {
    type V = JVal;

    open spec fn view(&self) -> JVal {
        jval_view(*self)
    }
}

impl DeepView for JsonValue {
    type V = JVal;

    open spec fn deep_view(&self) -> JVal {
        jval_view(*self)
    }
}

/// The denotation of an object's field list.
pub open spec fn fields_view(s: Seq<(String, JsonValue)>) -> Seq<(Seq<char>, JVal)> {
    jfields_view(s)
}

/// One member of an object.
pub open spec fn member(name: Seq<char>, v: JVal) -> Seq<(Seq<char>, JVal)> {
    seq![(name, v)]
}

/// One string-valued member.
pub open spec fn str_member(name: Seq<char>, s: Seq<char>) -> Seq<(Seq<char>, JVal)> {
    seq![(name, JVal::Str(s))]
}

/// One integer-valued member.
pub open spec fn i64_member(name: Seq<char>, i: i64) -> Seq<(Seq<char>, JVal)> {
    seq![(name, JVal::Int(i as int))]
}

/// One boolean-valued member.
pub open spec fn bool_member(name: Seq<char>, b: bool) -> Seq<(Seq<char>, JVal)> {
    seq![(name, JVal::Bool(b))]
}

/// One optional member: present fields contribute one entry, absent
/// fields contribute nothing, as the wire format's "omit if empty" rule
/// asks.
pub open spec fn opt_member(name: Seq<char>, o: Option<JVal>) -> Seq<(Seq<char>, JVal)> {
    match o {
        Option::Some(v) => seq![(name, v)],
        Option::None => Seq::empty(),
    }
}

/// One optional string-valued member.
pub open spec fn opt_str_member(name: Seq<char>, o: Option<Seq<char>>) -> Seq<(Seq<char>, JVal)> {
    match o {
        Option::Some(s) => seq![(name, JVal::Str(s))],
        Option::None => Seq::empty(),
    }
}

/// One optional integer-valued member.
pub open spec fn opt_i64_member(name: Seq<char>, o: Option<i64>) -> Seq<(Seq<char>, JVal)> {
    match o {
        Option::Some(i) => seq![(name, JVal::Int(i as int))],
        Option::None => Seq::empty(),
    }
}

/// One optional boolean-valued member.
pub open spec fn opt_bool_member(name: Seq<char>, o: Option<bool>) -> Seq<(Seq<char>, JVal)> {
    match o {
        Option::Some(b) => seq![(name, JVal::Bool(b))],
        Option::None => Seq::empty(),
    }
}

/// Concatenating the empty field list on the left changes nothing; this
/// lets a chain of appends read exactly as the object it denotes.
pub broadcast proof fn lemma_empty_concat<T>(s: Seq<T>)
    ensures
        #[trigger] (Seq::<T>::empty() + s) == s,
{
    assert(Seq::<T>::empty() + s =~= s);
}

/// Append one field to an object under construction.
pub fn obj_push(fields: &mut Vec<(String, JsonValue)>, name: &str, v: JsonValue)
    ensures
        fields_view(final(fields)@) == fields_view(old(fields)@) + seq![(name@, v@)],
{
    let owned: String = name.to_owned();
    fields.push((owned, v));
    proof {
        broadcast use lemma_jfields_view;

        assert(fields_view(fields@) =~= fields_view(old(fields)@) + seq![(name@, v@)]);
    }
}

/// Append a string-valued field.
pub fn obj_push_str(fields: &mut Vec<(String, JsonValue)>, name: &str, s: &String)
    ensures
        fields_view(final(fields)@) == fields_view(old(fields)@) + seq![(name@, JVal::Str(s@))],
{
    obj_push(fields, name, JsonValue::Str(s.clone()));
}

/// Append an integer-valued field.
pub fn obj_push_i64(fields: &mut Vec<(String, JsonValue)>, name: &str, i: i64)
    ensures
        fields_view(final(fields)@) == fields_view(old(fields)@) + seq![(name@, JVal::Int(i as int))],
{
    obj_push(fields, name, JsonValue::Int(i));
}

/// Append a boolean-valued field.
pub fn obj_push_bool(fields: &mut Vec<(String, JsonValue)>, name: &str, b: bool)
    ensures
        fields_view(final(fields)@) == fields_view(old(fields)@) + seq![(name@, JVal::Bool(b))],
{
    obj_push(fields, name, JsonValue::Bool(b));
}

/// Append a string-valued field if it is present, as the wire format's
/// "omit if empty" rule asks.
pub fn obj_push_opt_str(fields: &mut Vec<(String, JsonValue)>, name: &str, o: &Option<String>)
    ensures
        fields_view(final(fields)@) == fields_view(old(fields)@) + opt_str_member(name@, o.deep_view()),
{
    match o {
        Option::Some(s) => {
            obj_push(fields, name, JsonValue::Str(s.clone()));
            proof {
                assert(fields_view(fields@) =~= fields_view(old(fields)@) + opt_str_member(name@, o.deep_view()));
            }
        },
        Option::None => {
            proof {
                assert(fields_view(fields@) =~= fields_view(old(fields)@) + opt_str_member(name@, o.deep_view()));
            }
        },
    }
}

/// Append an integer-valued field if it is present.
pub fn obj_push_opt_i64(fields: &mut Vec<(String, JsonValue)>, name: &str, o: &Option<i64>)
    ensures
        fields_view(final(fields)@) == fields_view(old(fields)@) + opt_i64_member(name@, *o),
{
    match o {
        Option::Some(i) => {
            obj_push(fields, name, JsonValue::Int(*i));
            proof {
                assert(fields_view(fields@) =~= fields_view(old(fields)@) + opt_i64_member(name@, *o));
            }
        },
        Option::None => {
            proof {
                assert(fields_view(fields@) =~= fields_view(old(fields)@) + opt_i64_member(name@, *o));
            }
        },
    }
}

/// Append a boolean-valued field if it is present.
pub fn obj_push_opt_bool(fields: &mut Vec<(String, JsonValue)>, name: &str, o: &Option<bool>)
    ensures
        fields_view(final(fields)@) == fields_view(old(fields)@) + opt_bool_member(name@, *o),
{
    match o {
        Option::Some(b) => {
            obj_push(fields, name, JsonValue::Bool(*b));
            proof {
                assert(fields_view(fields@) =~= fields_view(old(fields)@) + opt_bool_member(name@, *o));
            }
        },
        Option::None => {
            proof {
                assert(fields_view(fields@) =~= fields_view(old(fields)@) + opt_bool_member(name@, *o));
            }
        },
    }
}

/// Append an arbitrary member if it is present.
pub fn obj_push_opt_val(fields: &mut Vec<(String, JsonValue)>, name: &str, o: Option<JsonValue>)
    ensures
        fields_view(final(fields)@) == fields_view(old(fields)@) + opt_member(name@, o.deep_view()),
{
    match o {
        Option::Some(v) => {
            obj_push(fields, name, v);
            proof {
                assert(fields_view(fields@) =~= fields_view(old(fields)@) + opt_member(
                    name@,
                    o.deep_view(),
                ));
            }
        },
        Option::None => {
            proof {
                assert(fields_view(fields@) =~= fields_view(old(fields)@) + opt_member(
                    name@,
                    o.deep_view(),
                ));
            }
        },
    }
}

/// The denotation of a list of strings.
pub open spec fn strings_jvals(s: Seq<Seq<char>>) -> Seq<JVal> {
    s.map_values(|t: Seq<char>| JVal::Str(t))
}

/// A JSON array holding each string of the list, in order.
pub fn strings_json(v: &Vec<String>) -> (r: JsonValue)
    ensures
        r@ == JVal::Arr(strings_jvals(v.deep_view())),
{
    let mut out: Vec<JsonValue> = Vec::new();
    let mut i: usize = 0;
    while i < v.len()
        invariant
            i <= v@.len(),
            out@.len() == i as int,
            forall|j: int| 0 <= j < i ==> (#[trigger] out@[j])@ == JVal::Str(v@[j]@),
        decreases v@.len() - i,
    {
        out.push(JsonValue::Str(v[i].clone()));
        i += 1;
    }
    let r = JsonValue::Arr(out);
    proof {
        broadcast use lemma_jvals_view;

        assert(jvals_view(out@) =~= strings_jvals(v.deep_view()));
        assert(r@ =~~= JVal::Arr(strings_jvals(v.deep_view())));
    }
    r
}

/// The denotation of a list of integers.
pub open spec fn i64s_jvals(s: Seq<i64>) -> Seq<JVal> {
    s.map_values(|i: i64| JVal::Int(i as int))
}

/// A JSON array holding each integer of the list, in order.
pub fn i64s_json(v: &Vec<i64>) -> (r: JsonValue)
    ensures
        r@ == JVal::Arr(i64s_jvals(v@)),
{
    let mut out: Vec<JsonValue> = Vec::new();
    let mut i: usize = 0;
    while i < v.len()
        invariant
            i <= v@.len(),
            out@.len() == i as int,
            forall|j: int| 0 <= j < i ==> (#[trigger] out@[j])@ == JVal::Int(v@[j] as int),
        decreases v@.len() - i,
    {
        out.push(JsonValue::Int(v[i]));
        i += 1;
    }
    let r = JsonValue::Arr(out);
    proof {
        broadcast use lemma_jvals_view;

        assert(jvals_view(out@) =~= i64s_jvals(v@));
        assert(r@ =~~= JVal::Arr(i64s_jvals(v@)));
    }
    r
}

// ---------------------------------------------------------------------------
// Rendering a JSON value as the bytes of its compact text form.
// ---------------------------------------------------------------------------

/// Decimal digits of `n`, most significant first.
pub open spec fn dec_digits(n: nat) -> Seq<u8>
    decreases n,
{
    if n < 10 {
        seq![(48 + n) as u8]
    } else {
        dec_digits(n / 10).push((48 + n % 10) as u8)
    }
}

/// The compact text of an integer, as bytes.
pub open spec fn int_bytes(i: int) -> Seq<u8> {
    if i < 0 {
        seq![45u8] + dec_digits((-i) as nat)
    } else {
        dec_digits(i as nat)
    }
}

/// Lower-case hexadecimal digit for `n < 16`.
pub open spec fn hex_digit(n: u8) -> u8 {
    if n < 10 {
        (48 + n) as u8
    } else {
        (87 + n) as u8
    }
}

/// How one byte of a string is written inside a JSON string literal:
/// the two-character escapes of the wire format, `\u00XX` for the other
/// control bytes, and every remaining byte unchanged.
pub open spec fn esc_byte(b: u8) -> Seq<u8> {
    if b == 34 {
        seq![92u8, 34u8]
    } else if b == 92 {
        seq![92u8, 92u8]
    } else if b == 8 {
        seq![92u8, 98u8]
    } else if b == 9 {
        seq![92u8, 116u8]
    } else if b == 10 {
        seq![92u8, 110u8]
    } else if b == 12 {
        seq![92u8, 102u8]
    } else if b == 13 {
        seq![92u8, 114u8]
    } else if b < 32 {
        seq![92u8, 117u8, 48u8, 48u8, hex_digit(b / 16), hex_digit(b % 16)]
    } else {
        seq![b]
    }
}

pub open spec fn esc_bytes(s: Seq<u8>) -> Seq<u8>
    decreases s.len(),
{
    if s.len() == 0 {
        Seq::empty()
    } else {
        esc_byte(s[0]) + esc_bytes(s.subrange(1, s.len() as int))
    }
}

/// A quoted, escaped JSON string literal for the characters `s`.
pub open spec fn str_bytes(s: Seq<char>) -> Seq<u8> {
    seq![34u8] + esc_bytes(vstd::utf8::encode_utf8(s)) + seq![34u8]
}

/// The compact text of a JSON value, as serialized for the wire.
pub open spec fn jv_bytes(v: JVal) -> Seq<u8>
    decreases v,
{
    match v {
        JVal::Null => seq![110u8, 117u8, 108u8, 108u8],
        JVal::Bool(b) => if b {
            seq![116u8, 114u8, 117u8, 101u8]
        } else {
            seq![102u8, 97u8, 108u8, 115u8, 101u8]
        },
        JVal::Int(i) => int_bytes(i),
        JVal::Str(s) => str_bytes(s),
        JVal::Arr(items) => seq![91u8] + arr_bytes(items) + seq![93u8],
        JVal::Obj(fields) => seq![123u8] + obj_bytes(fields) + seq![125u8],
    }
}

/// Array elements joined by commas.
pub open spec fn arr_bytes(items: Seq<JVal>) -> Seq<u8>
    decreases items,
{
    if items.len() == 0 {
        Seq::empty()
    } else if items.len() == 1 {
        jv_bytes(items[0])
    } else {
        jv_bytes(items[0]) + seq![44u8] + arr_bytes(items.subrange(1, items.len() as int))
    }
}

/// One `"name":value` member.
pub open spec fn member_bytes(kv: (Seq<char>, JVal)) -> Seq<u8>
    decreases kv,
{
    str_bytes(kv.0) + seq![58u8] + jv_bytes(kv.1)
}

/// Object members joined by commas.
pub open spec fn obj_bytes(fields: Seq<(Seq<char>, JVal)>) -> Seq<u8>
    decreases fields,
{
    if fields.len() == 0 {
        Seq::empty()
    } else if fields.len() == 1 {
        member_bytes(fields[0])
    } else {
        member_bytes(fields[0]) + seq![44u8] + obj_bytes(
            fields.subrange(1, fields.len() as int),
        )
    }
}

pub proof fn lemma_esc_bytes_push(s: Seq<u8>, b: u8)
    ensures
        esc_bytes(s.push(b)) == esc_bytes(s) + esc_byte(b),
    decreases s.len(),
{
    if s.len() == 0 {
        assert(s.push(b).subrange(1, 1) =~= Seq::<u8>::empty());
        assert(esc_bytes(s.push(b).subrange(1, 1)) == Seq::<u8>::empty());
        assert(s.push(b)[0] == b);
        assert(esc_bytes(s.push(b)) == esc_byte(b) + esc_bytes(s.push(b).subrange(1, 1)));
        assert(esc_bytes(s.push(b)) =~= esc_bytes(s) + esc_byte(b));
    } else {
        assert(s.push(b).subrange(1, s.len() as int + 1) =~= s.subrange(1, s.len() as int).push(b));
        lemma_esc_bytes_push(s.subrange(1, s.len() as int), b);
        assert(esc_bytes(s.push(b)) =~= esc_bytes(s) + esc_byte(b));
    }
}

pub proof fn lemma_arr_bytes_push(items: Seq<JVal>, v: JVal)
    ensures
        arr_bytes(items.push(v)) == if items.len() == 0 {
            jv_bytes(v)
        } else {
            arr_bytes(items) + seq![44u8] + jv_bytes(v)
        },
    decreases items.len(),
{
    if items.len() == 0 {
        assert(arr_bytes(items.push(v)) =~= jv_bytes(v));
    } else {
        assert(items.push(v).subrange(1, items.len() as int + 1) =~= items.subrange(
            1,
            items.len() as int,
        ).push(v));
        lemma_arr_bytes_push(items.subrange(1, items.len() as int), v);
        assert(arr_bytes(items.push(v)) =~= arr_bytes(items) + seq![44u8] + jv_bytes(v));
    }
}

pub proof fn lemma_obj_bytes_push(fields: Seq<(Seq<char>, JVal)>, kv: (Seq<char>, JVal))
    ensures
        obj_bytes(fields.push(kv)) == if fields.len() == 0 {
            member_bytes(kv)
        } else {
            obj_bytes(fields) + seq![44u8] + member_bytes(kv)
        },
    decreases fields.len(),
{
    if fields.len() == 0 {
        assert(obj_bytes(fields.push(kv)) =~= member_bytes(kv));
    } else {
        assert(fields.push(kv).subrange(1, fields.len() as int + 1) =~= fields.subrange(
            1,
            fields.len() as int,
        ).push(kv));
        lemma_obj_bytes_push(fields.subrange(1, fields.len() as int), kv);
        assert(obj_bytes(fields.push(kv)) =~= obj_bytes(fields) + seq![44u8] + member_bytes(kv));
    }
}

/// Append the decimal digits of `n`.
fn write_dec_u64(out: &mut Vec<u8>, n: u64)
    ensures
        final(out)@ == old(out)@ + dec_digits(n as nat),
    decreases n,
{
    if n >= 10 {
        write_dec_u64(out, n / 10);
    }
    out.push(48 + (n % 10) as u8);
}

/// Append the compact text of a signed 64-bit integer.
fn write_int(out: &mut Vec<u8>, i: i64)
    ensures
        final(out)@ == old(out)@ + int_bytes(i as int),
{
    if i >= 0 {
        write_dec_u64(out, i as u64);
    } else {
        out.push(45u8);
        let mag: u64 = if i == i64::MIN {
            9223372036854775808u64
        } else {
            (-i) as u64
        };
        assert(mag as nat == (-(i as int)) as nat);
        write_dec_u64(out, mag);
        assert(out@ =~= old(out)@ + int_bytes(i as int));
    }
}

fn hex_digit_exec(n: u8) -> (r: u8)
    requires
        n < 16,
    ensures
        r == hex_digit(n),
{
    if n < 10 {
        48 + n
    } else {
        87 + n
    }
}

/// Append a quoted, escaped JSON string literal.
fn write_str(out: &mut Vec<u8>, s: &str)
    ensures
        final(out)@ == old(out)@ + str_bytes(s@),
{
    let ghost base: Seq<u8> = out@;
    out.push(34u8);
    let bs = s.as_bytes();
    proof {
        broadcast use vstd::string::group_string_axioms;

    }
    let mut i: usize = 0;
    while i < bs.len()
        invariant
            i <= bs.len(),
            out@ == base + seq![34u8] + esc_bytes(bs@.subrange(0, i as int)),
        decreases bs.len() - i,
    {
        let ghost done: Seq<u8> = bs@.subrange(0, i as int);
        let b = bs[i];
        if b == 34 {
            out.push(92u8);
            out.push(34u8);
        } else if b == 92 {
            out.push(92u8);
            out.push(92u8);
        } else if b == 8 {
            out.push(92u8);
            out.push(98u8);
        } else if b == 9 {
            out.push(92u8);
            out.push(116u8);
        } else if b == 10 {
            out.push(92u8);
            out.push(110u8);
        } else if b == 12 {
            out.push(92u8);
            out.push(102u8);
        } else if b == 13 {
            out.push(92u8);
            out.push(114u8);
        } else if b < 32 {
            out.push(92u8);
            out.push(117u8);
            out.push(48u8);
            out.push(48u8);
            out.push(hex_digit_exec(b / 16));
            out.push(hex_digit_exec(b % 16));
        } else {
            out.push(b);
        }
        proof {
            lemma_esc_bytes_push(done, b);
            assert(bs@.subrange(0, i + 1) =~= done.push(b));
            assert(out@ =~= base + seq![34u8] + esc_bytes(bs@.subrange(0, i + 1)));
        }
        i += 1;
    }
    out.push(34u8);
    proof {
        assert(bs@.subrange(0, bs@.len() as int) =~= bs@);
        assert(out@ =~= base + str_bytes(s@));
    }
}

/// Append the compact text of `v`, exactly `jv_bytes` of its denotation.
#[verifier::loop_isolation(false)]
pub fn write_json(v: &JsonValue, out: &mut Vec<u8>)
    ensures
        final(out)@ == old(out)@ + jv_bytes(v@),
    decreases v,
{
    let ghost base: Seq<u8> = out@;
    match v {
        JsonValue::Null => {
            out.push(110u8);
            out.push(117u8);
            out.push(108u8);
            out.push(108u8);
            assert(out@ =~= base + jv_bytes(v@));
        },
        JsonValue::Bool(b) => {
            if *b {
                out.push(116u8);
                out.push(114u8);
                out.push(117u8);
                out.push(101u8);
            } else {
                out.push(102u8);
                out.push(97u8);
                out.push(108u8);
                out.push(115u8);
                out.push(101u8);
            }
            assert(out@ =~= base + jv_bytes(v@));
        },
        JsonValue::Int(i) => {
            write_int(out, *i);
        },
        JsonValue::Str(s) => {
            write_str(out, s.as_str());
        },
        JsonValue::Arr(items) => {
            out.push(91u8);
            let mut j: usize = 0;
            while j < items.len()
                invariant
                    j <= items@.len(),
                    out@ == base + seq![91u8] + arr_bytes(jvals_view(items@.subrange(0, j as int))),
                decreases items@.len() - j,
            {
                proof {
                    broadcast use lemma_jvals_view;

                }
                let ghost done: Seq<JVal> = jvals_view(items@.subrange(0, j as int));
                if j > 0 {
                    out.push(44u8);
                }
                proof {
                    assert(*v == JsonValue::Arr(*items));
                    assert(decreases_to!(*v => *items));
                    assert(decreases_to!(*items => items@[j as int]));
                }
                write_json(&items[j], out);
                proof {
                    lemma_arr_bytes_push(done, jval_view(items@[j as int]));
                    assert(jvals_view(items@.subrange(0, j + 1)) =~= done.push(
                        jval_view(items@[j as int]),
                    ));
                    assert(out@ =~= base + seq![91u8] + arr_bytes(
                        jvals_view(items@.subrange(0, j + 1)),
                    ));
                }
                j += 1;
            }
            out.push(93u8);
            proof {
                assert(items@.subrange(0, items@.len() as int) =~= items@);
                assert(out@ =~= base + jv_bytes(v@));
            }
        },
        JsonValue::Obj(fields) => {
            out.push(123u8);
            let mut j: usize = 0;
            while j < fields.len()
                invariant
                    j <= fields@.len(),
                    out@ == base + seq![123u8] + obj_bytes(
                        jfields_view(fields@.subrange(0, j as int)),
                    ),
                decreases fields@.len() - j,
            {
                proof {
                    broadcast use lemma_jfields_view;

                }
                let ghost done: Seq<(Seq<char>, JVal)> = jfields_view(
                    fields@.subrange(0, j as int),
                );
                if j > 0 {
                    out.push(44u8);
                }
                write_str(out, fields[j].0.as_str());
                out.push(58u8);
                proof {
                    assert(*v == JsonValue::Obj(*fields));
                    assert(decreases_to!(*v => *fields));
                    assert(decreases_to!(*fields => fields@[j as int]));
                    assert(decreases_to!(fields@[j as int] => fields@[j as int].1));
                }
                write_json(&fields[j].1, out);
                proof {
                    let kv = (fields@[j as int].0@, jval_view(fields@[j as int].1));
                    lemma_obj_bytes_push(done, kv);
                    assert(jfields_view(fields@.subrange(0, j + 1)) =~= done.push(kv));
                    assert(out@ =~= base + seq![123u8] + obj_bytes(
                        jfields_view(fields@.subrange(0, j + 1)),
                    ));
                }
                j += 1;
            }
            out.push(125u8);
            proof {
                assert(fields@.subrange(0, fields@.len() as int) =~= fields@);
                assert(out@ =~= base + jv_bytes(v@));
            }
        },
    }
}

/// The compact text of `v` as a fresh byte vector.
pub fn json_value_bytes(v: &JsonValue) -> (r: Vec<u8>)
    ensures
        r@ == jv_bytes(v@),
{
    let mut out: Vec<u8> = Vec::new();
    write_json(v, &mut out);
    out
}

} // verus!
