//! A self-contained JSON value model with a verified renderer and a
//! trusted parser.
//!
//! The protocol frames, tool schemas and chat payloads handled by this
//! crate are all JSON.  They are modelled by [`JsonValue`], whose exact
//! rendered text is given by the specification function [`json_text`].
//! Parsing goes through `serde_json` behind a trusted wrapper; everything
//! that inspects a parsed value afterwards is verified.

use vstd::prelude::*;

use crate::text::{chars_of, dec_digits, digit_char, push_u64, string_from_chars};

verus! {

/// A JSON document: the crate's own value model.
///
/// Numbers that fit `i64` are held as `Int`; any other number literal is
/// carried verbatim in `Num` so that no floating-point arithmetic is ever
/// performed.  Object members keep their order; a lookup returns the first
/// member with the wanted key.
pub enum JsonValue {
    Null,
    Bool(bool),
    Int(i64),
    Num(String),
    Text(String),
    Arr(Vec<JsonValue>),
    Obj(Vec<(String, JsonValue)>),
}

impl Clone for JsonValue {
    /// A deep copy of the value; nothing further is claimed of it.
    #[verifier::loop_isolation(false)]
    fn clone(&self) -> (r: JsonValue)
        decreases *self,
    {
        match self {
            JsonValue::Null => JsonValue::Null,
            JsonValue::Bool(b) => JsonValue::Bool(*b),
            JsonValue::Int(i) => JsonValue::Int(*i),
            JsonValue::Num(s) => JsonValue::Num(s.clone()),
            JsonValue::Text(s) => JsonValue::Text(s.clone()),
            JsonValue::Arr(elts) => {
                let mut out: Vec<JsonValue> = Vec::new();
                let mut i: usize = 0;
                while i < elts.len()
                    invariant
                        i <= elts.len(),
                    decreases elts.len() - i,
                {
                    out.push(elts[i].clone());
                    i = i + 1;
                }
                JsonValue::Arr(out)
            },
            JsonValue::Obj(fields) => {
                let mut out: Vec<(String, JsonValue)> = Vec::new();
                let mut i: usize = 0;
                while i < fields.len()
                    invariant
                        i <= fields.len(),
                    decreases fields.len() - i,
                {
                    out.push((fields[i].0.clone(), fields[i].1.clone()));
                    i = i + 1;
                }
                JsonValue::Obj(out)
            },
        }
    }
}

/// The hexadecimal digit character for a value below sixteen.
pub open spec fn hex_char(d: nat) -> char
    recommends
        d < 16,
{
    if d < 10 {
        (48 + d) as char
    } else {
        (87 + d) as char
    }
}

/// How one character appears inside a rendered JSON string literal.
pub open spec fn esc_char(c: char) -> Seq<char> {
    if c == '"' {
        seq!['\\', '"']
    } else if c == '\\' {
        seq!['\\', '\\']
    } else if (c as nat) < 32 {
        seq!['\\', 'u', '0', '0', hex_char((c as nat) / 16), hex_char((c as nat) % 16)]
    } else {
        seq![c]
    }
}

/// The escaped body of a rendered JSON string literal.
pub open spec fn esc_text(s: Seq<char>) -> Seq<char>
    decreases s.len(),
{
    if s.len() == 0 {
        Seq::empty()
    } else {
        esc_char(s[0]) + esc_text(s.drop_first())
    }
}

/// A rendered JSON string literal, quotes included.
pub open spec fn quoted(s: Seq<char>) -> Seq<char> {
    seq!['"'] + esc_text(s) + seq!['"']
}

/// The decimal text of an `i64`, with a leading minus sign when negative.
pub open spec fn int_text(i: int) -> Seq<char> {
    if i < 0 {
        seq!['-'] + dec_digits((-i) as nat)
    } else {
        dec_digits(i as nat)
    }
}

/// The rendered text of JSON `null`.
pub open spec fn null_text() -> Seq<char> {
    seq!['n', 'u', 'l', 'l']
}

/// The rendered text of a JSON boolean.
pub open spec fn bool_text(b: bool) -> Seq<char> {
    if b {
        seq!['t', 'r', 'u', 'e']
    } else {
        seq!['f', 'a', 'l', 's', 'e']
    }
}

/// The rendered text of one object member, given its value's text.
pub open spec fn member_text(key: Seq<char>, val_text: Seq<char>) -> Seq<char> {
    quoted(key) + seq![':'] + val_text
}

/// The exact text this crate renders for a JSON value.
pub open spec fn json_text(v: JsonValue) -> Seq<char>
    decreases v,
{
    match v {
        JsonValue::Null => null_text(),
        JsonValue::Bool(b) => bool_text(b),
        JsonValue::Int(i) => int_text(i as int),
        JsonValue::Num(s) => s@,
        JsonValue::Text(s) => quoted(s@),
        JsonValue::Arr(elts) => seq!['['] + arr_text(elts@) + seq![']'],
        JsonValue::Obj(fields) => seq!['{'] + obj_text(fields@) + seq!['}'],
    }
}

/// The comma-separated rendering of array elements.
pub open spec fn arr_text(elts: Seq<JsonValue>) -> Seq<char>
    decreases elts,
{
    if elts.len() == 0 {
        Seq::empty()
    } else if elts.len() == 1 {
        json_text(elts[0])
    } else {
        json_text(elts[0]) + seq![','] + arr_text(elts.drop_first())
    }
}

/// The comma-separated rendering of object members.
pub open spec fn obj_text(fields: Seq<(String, JsonValue)>) -> Seq<char>
    decreases fields,
{
    if fields.len() == 0 {
        Seq::empty()
    } else if fields.len() == 1 {
        quoted(fields[0].0@) + seq![':'] + json_text(fields[0].1)
    } else {
        quoted(fields[0].0@) + seq![':'] + json_text(fields[0].1) + seq![','] + obj_text(
            fields.drop_first(),
        )
    }
}

/// Writes the escaped form of one character.
fn push_esc_char(out: &mut Vec<char>, c: char)
    ensures
        final(out)@ == old(out)@ + esc_char(c),
{
    if c == '"' {
        out.push('\\');
        out.push('"');
    } else if c == '\\' {
        out.push('\\');
        out.push('\\');
    } else if (c as u32) < 32 {
        let code: u32 = c as u32;
        out.push('\\');
        out.push('u');
        out.push('0');
        out.push('0');
        let hi: u32 = code / 16;
        let lo: u32 = code % 16;
        let hc: char = if hi < 10 {
            (48 + hi as u8) as char
        } else {
            (87 + hi as u8) as char
        };
        let lc: char = if lo < 10 {
            (48 + lo as u8) as char
        } else {
            (87 + lo as u8) as char
        };
        assert(hc == hex_char((c as nat) / 16));
        assert(lc == hex_char((c as nat) % 16));
        out.push(hc);
        out.push(lc);
    } else {
        out.push(c);
    }
}

/// Writes a quoted, escaped JSON string literal.
pub fn push_quoted(out: &mut Vec<char>, s: &str)
    ensures
        final(out)@ == old(out)@ + quoted(s@),
{
    out.push('"');
    let cs = chars_of(s);
    let mut i: usize = 0;
    while i < cs.len()
        invariant
            i <= cs.len(),
            cs@ == s@,
            out@ == old(out)@ + seq!['"'] + esc_text(s@.subrange(0, i as int)),
        decreases cs.len() - i,
    {
        proof {
            lemma_esc_text_snoc(s@, i as int);
        }
        push_esc_char(out, cs[i]);
        i = i + 1;
    }
    assert(s@.subrange(0, s@.len() as int) == s@);
    out.push('"');
}

/// Appending one character extends the escaped body by that character's escape.
proof fn lemma_esc_text_snoc(s: Seq<char>, i: int)
    requires
        0 <= i < s.len(),
    ensures
        esc_text(s.subrange(0, i + 1)) == esc_text(s.subrange(0, i)) + esc_char(s[i]),
    decreases i,
{
    let a = s.subrange(0, i + 1);
    let b = s.subrange(0, i);
    if i == 0 {
        assert(a =~= seq![s[0]]);
        assert(b =~= Seq::<char>::empty());
        assert(a.drop_first() =~= Seq::<char>::empty());
        assert(esc_text(a) == esc_char(s[0]) + esc_text(a.drop_first()));
        assert(esc_text(a.drop_first()) == Seq::<char>::empty());
        assert(esc_text(a) =~= esc_text(b) + esc_char(s[0]));
    } else {
        let t = s.drop_first();
        lemma_esc_text_snoc(t, i - 1);
        assert(a.drop_first() =~= t.subrange(0, i));
        assert(b.drop_first() =~= t.subrange(0, i - 1));
        assert(t.subrange(0, i - 1 + 1) == t.subrange(0, i));
        assert(esc_text(a) == esc_char(s[0]) + esc_text(t.subrange(0, i)));
        assert(esc_text(b) == esc_char(s[0]) + esc_text(t.subrange(0, i - 1)));
        assert(t[i - 1] == s[i]);
        assert(esc_text(a) =~= esc_text(b) + esc_char(s[i]));
    }
}

/// Writes the decimal text of an `i64`.
fn push_i64(out: &mut Vec<char>, n: i64)
    ensures
        final(out)@ == old(out)@ + int_text(n as int),
{
    if n < 0 {
        out.push('-');
        let m: u64 = (n as i128 * -1) as u64;
        assert(m as nat == (-(n as int)) as nat) by {
            assert(n as i128 * -1 == -(n as int));
        };
        push_u64(out, m);
    } else {
        push_u64(out, n as u64);
    }
}

/// Writes the exact [`json_text`] rendering of a value.
#[verifier::loop_isolation(false)]
#[verifier::rlimit(60)]
pub fn render_value(v: &JsonValue, out: &mut Vec<char>)
    ensures
        final(out)@ == old(out)@ + json_text(*v),
    decreases *v,
{
    match v {
        JsonValue::Null => {
            out.push('n');
            out.push('u');
            out.push('l');
            out.push('l');
            assert(final(out)@ =~= old(out)@ + json_text(*v));
        },
        JsonValue::Bool(b) => {
            if *b {
                out.push('t');
                out.push('r');
                out.push('u');
                out.push('e');
            } else {
                out.push('f');
                out.push('a');
                out.push('l');
                out.push('s');
                out.push('e');
            }
            assert(final(out)@ =~= old(out)@ + json_text(*v));
        },
        JsonValue::Int(i) => {
            push_i64(out, *i);
        },
        JsonValue::Num(s) => {
            let cs = chars_of(s.as_str());
            crate::text::push_all(out, &cs);
        },
        JsonValue::Text(s) => {
            push_quoted(out, s);
        },
        JsonValue::Arr(elts) => {
            out.push('[');
            let mut i: usize = 0;
            while i < elts.len()
                invariant
                    i <= elts.len(),
                    out@ == old(out)@ + seq!['['] + arr_text(elts@.subrange(0, i as int)),
                decreases elts.len() - i,
            {
                proof {
                    lemma_arr_text_snoc(elts@, i as int);
                }
                if i > 0 {
                    out.push(',');
                }
                let ghost mid = out@;
                render_value(&elts[i], out);
                assert(out@ =~= old(out)@ + seq!['['] + arr_text(
                    elts@.subrange(0, i as int + 1),
                ));
                i = i + 1;
            }
            assert(elts@.subrange(0, elts@.len() as int) == elts@);
            out.push(']');
            assert(final(out)@ =~= old(out)@ + json_text(*v));
        },
        JsonValue::Obj(fields) => {
            out.push('{');
            let mut i: usize = 0;
            while i < fields.len()
                invariant
                    i <= fields.len(),
                    out@ == old(out)@ + seq!['{'] + obj_text(fields@.subrange(0, i as int)),
                decreases fields.len() - i,
            {
                proof {
                    lemma_obj_text_snoc(fields@, i as int);
                }
                if i > 0 {
                    out.push(',');
                }
                push_quoted(out, fields[i].0.as_str());
                out.push(':');
                render_value(&fields[i].1, out);
                assert(out@ =~= old(out)@ + seq!['{'] + obj_text(
                    fields@.subrange(0, i as int + 1),
                ));
                i = i + 1;
            }
            assert(fields@.subrange(0, fields@.len() as int) == fields@);
            out.push('}');
            assert(final(out)@ =~= old(out)@ + json_text(*v));
        },
    }
}

/// Extending the rendered prefix of an array by one element.
proof fn lemma_arr_text_snoc(elts: Seq<JsonValue>, i: int)
    requires
        0 <= i < elts.len(),
    ensures
        i == 0 ==> arr_text(elts.subrange(0, 1)) == json_text(elts[0]),
        i > 0 ==> arr_text(elts.subrange(0, i + 1)) == arr_text(elts.subrange(0, i)) + seq![',']
            + json_text(elts[i]),
    decreases i,
{
    if i == 0 {
        assert(elts.subrange(0, 1) =~= seq![elts[0]]);
        assert(arr_text(elts.subrange(0, 1)) == json_text(elts[0]));
    } else {
        let t = elts.drop_first();
        lemma_arr_text_snoc(t, i - 1);
        let a = elts.subrange(0, i + 1);
        let b = elts.subrange(0, i);
        assert(a.drop_first() =~= t.subrange(0, i));
        assert(b.drop_first() =~= t.subrange(0, i - 1));
        assert(t.subrange(0, i - 1 + 1) == t.subrange(0, i));
        assert(t[i - 1] == elts[i]);
        assert(a[0] == elts[0]);
        assert(b[0] == elts[0]);
        assert(arr_text(a) == json_text(elts[0]) + seq![','] + arr_text(t.subrange(0, i)));
        if i == 1 {
            assert(arr_text(b) == json_text(elts[0]));
            assert(arr_text(t.subrange(0, 1)) == json_text(t[0]));
            assert(arr_text(a) =~= arr_text(b) + seq![','] + json_text(elts[i]));
        } else {
            assert(arr_text(b) == json_text(elts[0]) + seq![','] + arr_text(t.subrange(0, i - 1)));
            assert(arr_text(t.subrange(0, i)) == arr_text(t.subrange(0, i - 1)) + seq![',']
                + json_text(t[i - 1]));
            assert(arr_text(a) =~= arr_text(b) + seq![','] + json_text(elts[i]));
        }
    }
}

/// Extending the rendered prefix of an object by one member.
proof fn lemma_obj_text_snoc(fields: Seq<(String, JsonValue)>, i: int)
    requires
        0 <= i < fields.len(),
    ensures
        i == 0 ==> obj_text(fields.subrange(0, 1)) == quoted(fields[0].0@) + seq![':'] + json_text(
            fields[0].1,
        ),
        i > 0 ==> obj_text(fields.subrange(0, i + 1)) == obj_text(fields.subrange(0, i))
            + seq![','] + quoted(fields[i].0@) + seq![':'] + json_text(fields[i].1),
    decreases i,
{
    if i == 0 {
        assert(fields.subrange(0, 1) =~= seq![fields[0]]);
        assert(obj_text(fields.subrange(0, 1)) == quoted(fields[0].0@) + seq![':'] + json_text(
            fields[0].1,
        ));
    } else {
        let t = fields.drop_first();
        lemma_obj_text_snoc(t, i - 1);
        let a = fields.subrange(0, i + 1);
        let b = fields.subrange(0, i);
        assert(a.drop_first() =~= t.subrange(0, i));
        assert(b.drop_first() =~= t.subrange(0, i - 1));
        assert(t.subrange(0, i - 1 + 1) == t.subrange(0, i));
        assert(t[i - 1] == fields[i]);
        assert(a[0] == fields[0]);
        assert(b[0] == fields[0]);
        let head = quoted(fields[0].0@) + seq![':'] + json_text(fields[0].1);
        assert(obj_text(a) == head + seq![','] + obj_text(t.subrange(0, i)));
        if i == 1 {
            assert(obj_text(b) == head);
            assert(obj_text(t.subrange(0, 1)) == quoted(t[0].0@) + seq![':'] + json_text(t[0].1));
            assert(obj_text(a) =~= obj_text(b) + seq![','] + quoted(fields[i].0@) + seq![':']
                + json_text(fields[i].1));
        } else {
            assert(obj_text(b) == head + seq![','] + obj_text(t.subrange(0, i - 1)));
            assert(obj_text(t.subrange(0, i)) == obj_text(t.subrange(0, i - 1)) + seq![','] + quoted(
                t[i - 1].0@,
            ) + seq![':'] + json_text(t[i - 1].1));
            assert(obj_text(a) =~= obj_text(b) + seq![','] + quoted(fields[i].0@) + seq![':']
                + json_text(fields[i].1));
        }
    }
}

/// Writes the text of JSON `null`.
pub fn push_null(out: &mut Vec<char>)
    ensures
        final(out)@ == old(out)@ + null_text(),
{
    out.push('n');
    out.push('u');
    out.push('l');
    out.push('l');
    assert(final(out)@ =~= old(out)@ + null_text());
}

/// Writes the text of a JSON boolean.
pub fn push_bool(out: &mut Vec<char>, b: bool)
    ensures
        final(out)@ == old(out)@ + bool_text(b),
{
    if b {
        out.push('t');
        out.push('r');
        out.push('u');
        out.push('e');
    } else {
        out.push('f');
        out.push('a');
        out.push('l');
        out.push('s');
        out.push('e');
    }
    assert(final(out)@ =~= old(out)@ + bool_text(b));
}

/// Writes an object member's quoted key and the separating colon.
pub fn push_member_key(out: &mut Vec<char>, key: &str)
    ensures
        final(out)@ == old(out)@ + quoted(key@) + seq![':'],
{
    push_quoted(out, key);
    out.push(':');
}

/// The exact rendered text of a value, as a `String`.
pub fn render_to_string(v: &JsonValue) -> (r: String)
    ensures
        r@ == json_text(*v),
{
    let mut out: Vec<char> = Vec::new();
    render_value(v, &mut out);
    string_from_chars(&out)
}

/// The first member of `fields` whose key reads `key`, if any.
pub open spec fn obj_lookup(fields: Seq<(String, JsonValue)>, key: Seq<char>) -> Option<JsonValue>
    decreases fields.len(),
{
    if fields.len() == 0 {
        None
    } else if fields[0].0@ == key {
        Some(fields[0].1)
    } else {
        obj_lookup(fields.drop_first(), key)
    }
}

/// Member lookup on a value: `None` unless the value is an object holding `key`.
pub open spec fn json_get(v: JsonValue, key: Seq<char>) -> Option<JsonValue> {
    match v {
        JsonValue::Obj(fields) => obj_lookup(fields@, key),
        _ => None,
    }
}

/// A member treated as optional: an absent member and a `null` member are
/// both "nothing", as the original wire format reads them.
pub open spec fn opt_val(m: Option<JsonValue>) -> Option<JsonValue> {
    match m {
        None => None,
        Some(x) => if x is Null {
            None
        } else {
            Some(x)
        },
    }
}

/// The characters of a text member, empty when absent or not text.
pub open spec fn text_member(v: JsonValue, key: Seq<char>) -> Seq<char> {
    match json_get(v, key) {
        Some(m) => match m {
            JsonValue::Text(s) => s@,
            _ => Seq::empty(),
        },
        None => Seq::empty(),
    }
}

/// Looks up the first member named `key`, exactly as [`json_get`] describes.
#[verifier::loop_isolation(false)]
pub fn get_field<'a>(v: &'a JsonValue, key: &str) -> (r: Option<&'a JsonValue>)
    ensures
        (r is Some) == (json_get(*v, key@) is Some),
        r is Some ==> json_get(*v, key@) == Some(*r->0),
{
    match v {
        JsonValue::Obj(fields) => {
            assert(fields@.skip(0) =~= fields@);
            let mut i: usize = 0;
            while i < fields.len()
                invariant
                    i <= fields.len(),
                    obj_lookup(fields@.skip(i as int), key@) == obj_lookup(fields@, key@),
                decreases fields.len() - i,
            {
                let hit = crate::text::str_eq(fields[i].0.as_str(), key);
                proof {
                    assert(fields@.skip(i as int)[0] == fields@[i as int]);
                    assert(fields@.skip(i as int).drop_first() =~= fields@.skip(i as int + 1));
                }
                if hit {
                    assert(obj_lookup(fields@.skip(i as int), key@) == Some(
                        fields@[i as int].1,
                    ));
                    return Some(&fields[i].1);
                }
                i = i + 1;
            }
            assert(fields@.skip(fields@.len() as int) =~= Seq::<(String, JsonValue)>::empty());
            None
        },
        _ => None,
    }
}

/// Whether the value is a JSON object.
pub fn is_object(v: &JsonValue) -> (r: bool)
    ensures
        r == (*v is Obj),
{
    match v {
        JsonValue::Obj(_) => true,
        _ => false,
    }
}

/// When no member of `s` has key `key`, lookup fails.
pub proof fn lemma_obj_lookup_none(s: Seq<(String, JsonValue)>, key: Seq<char>)
    requires
        forall|j: int| 0 <= j < s.len() ==> s[j].0@ != key,
    ensures
        obj_lookup(s, key) is None,
    decreases s.len(),
{
    if s.len() > 0 {
        lemma_obj_lookup_none(s.drop_first(), key);
    }
}

/// When `i` is the first index whose key is `key`, lookup returns that member.
pub proof fn lemma_obj_lookup_first(s: Seq<(String, JsonValue)>, i: int, key: Seq<char>)
    requires
        0 <= i < s.len(),
        s[i].0@ == key,
        forall|j: int| 0 <= j < i ==> s[j].0@ != key,
    ensures
        obj_lookup(s, key) == Some(s[i].1),
    decreases i,
{
    if i > 0 {
        lemma_obj_lookup_first(s.drop_first(), i - 1, key);
    }
}

/// Removing the first member keyed `key` leaves lookups of other keys alone.
proof fn lemma_obj_lookup_remove(s: Seq<(String, JsonValue)>, i: int, k2: Seq<char>)
    requires
        0 <= i < s.len(),
        forall|j: int| 0 <= j < i ==> s[j].0@ != s[i].0@,
        k2 != s[i].0@,
    ensures
        obj_lookup(s.remove(i), k2) == obj_lookup(s, k2),
    decreases i,
{
    if i == 0 {
        assert(s.remove(0) =~= s.drop_first());
    } else {
        lemma_obj_lookup_remove(s.drop_first(), i - 1, k2);
        assert(s.remove(i).drop_first() =~= s.drop_first().remove(i - 1));
        assert(s.remove(i)[0] == s[0]);
    }
}

/// Removes and returns the first member named `key`, leaving lookups of all
/// other keys unchanged.
#[verifier::loop_isolation(false)]
pub fn take_member(fields: &mut Vec<(String, JsonValue)>, key: &str) -> (r: Option<JsonValue>)
    ensures
        r == obj_lookup(old(fields)@, key@),
        r is None ==> final(fields)@ == old(fields)@,
        forall|k2: Seq<char>| k2 != key@ ==> obj_lookup(final(fields)@, k2) == obj_lookup(
            old(fields)@,
            k2,
        ),
        final(fields)@.len() <= old(fields)@.len(),
{
    let mut i: usize = 0;
    while i < fields.len()
        invariant
            i <= fields.len(),
            fields@ == old(fields)@,
            forall|j: int| 0 <= j < i ==> fields@[j].0@ != key@,
        decreases fields.len() - i,
    {
        let hit = crate::text::str_eq(fields[i].0.as_str(), key);
        if hit {
            proof {
                lemma_obj_lookup_first(fields@, i as int, key@);
                assert forall|k2: Seq<char>| k2 != key@ implies obj_lookup(
                    fields@.remove(i as int),
                    k2,
                ) == obj_lookup(fields@, k2) by {
                    lemma_obj_lookup_remove(fields@, i as int, k2);
                }
            }
            let taken = fields.remove(i);
            return Some(taken.1);
        }
        i = i + 1;
    }
    proof {
        lemma_obj_lookup_none(fields@, key@);
    }
    None
}

#[verifier::external_type_specification]
#[verifier::external_body]
pub struct ExSerdeValue(serde_json::Value);

/// What `serde_json` parses a given text into, translated member for member
/// into [`JsonValue`]; `None` when the text is not valid JSON.
pub uninterp spec fn json_of(s: Seq<char>) -> Option<JsonValue>;

/// Relies on `serde_json::Value`'s variants: each arm moves one variant of
/// the parsed tree into the crate's own model; integers keep their `i64`
/// value, other numbers keep their literal text.
#[verifier::external_body]
fn decode_value(v: serde_json::Value) -> JsonValue {
    match v {
        serde_json::Value::Null => JsonValue::Null,
        serde_json::Value::Bool(b) => JsonValue::Bool(b),
        serde_json::Value::Number(n) => match n.as_i64() {
            Some(i) => JsonValue::Int(i),
            None => JsonValue::Num(n.to_string()),
        },
        serde_json::Value::String(s) => JsonValue::Text(s),
        serde_json::Value::Array(a) => JsonValue::Arr(a.into_iter().map(decode_value).collect()),
        serde_json::Value::Object(m) => JsonValue::Obj(
            m.into_iter().map(|(k, w)| (k, decode_value(w))).collect(),
        ),
    }
}

/// Relies on `serde_json::from_str::<serde_json::Value>`: parses JSON text,
/// rejecting invalid documents; the parse depends on the text alone, so the
/// outcome is named [`json_of`].
#[verifier::external_body]
pub fn parse_json(s: &str) -> (r: Option<JsonValue>)
    ensures
        r == json_of(s@),
{
    match serde_json::from_str::<serde_json::Value>(s) {
        Ok(v) => Some(decode_value(v)),
        Err(_) => None,
    }
}

} // verus!
