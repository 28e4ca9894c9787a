//! A JSON-like parameter value: the canonical key-value structure the wire
//! protocol expects, together with a deterministic serializer whose exact
//! output is specified character by character. The serializer's output is the
//! signing input of the request builder, so it must be reproducible.

use vstd::prelude::*;

use crate::hex::{hex_digit, hex_digit_char};
use crate::text::{chars_to_string, dec_rep, push_dec_digits};

verus! {

/// The mathematical model of a JSON-like value: strings are character
/// sequences, objects are ordered key-value sequences.
pub enum JsonModel {
    Bool(bool),
    Num(nat),
    Str(Seq<char>),
    Arr(Seq<JsonModel>),
    Obj(Seq<(Seq<char>, JsonModel)>),
}

/// An executable JSON-like value. Object entries keep their insertion
/// order, which makes every rendering of the same value identical.
pub enum JsonVal {
    Bool(bool),
    Num(u64),
    Str(String),
    Arr(Vec<JsonVal>),
    Obj(Vec<(String, JsonVal)>),
}

/// The model of an executable value.
pub open spec fn json_model(v: JsonVal) -> JsonModel
    decreases v,
{
    match v {
        JsonVal::Bool(b) => JsonModel::Bool(b),
        JsonVal::Num(n) => JsonModel::Num(n as nat),
        JsonVal::Str(s) => JsonModel::Str(s@),
        JsonVal::Arr(items) => JsonModel::Arr(json_models(items@)),
        JsonVal::Obj(entries) => JsonModel::Obj(entry_models(entries@)),
    }
}

/// The models of a sequence of executable values, elementwise.
pub open spec fn json_models(items: Seq<JsonVal>) -> Seq<JsonModel>
    decreases items,
{
    if items.len() == 0 {
        Seq::empty()
    } else {
        json_models(items.drop_last()).push(json_model(items.last()))
    }
}

/// The models of a sequence of executable object entries, elementwise.
pub open spec fn entry_models(es: Seq<(String, JsonVal)>) -> Seq<(Seq<char>, JsonModel)>
    decreases es,
{
    if es.len() == 0 {
        Seq::empty()
    } else {
        entry_models(es.drop_last()).push((es.last().0@, json_model(es.last().1)))
    }
}

pub proof fn lemma_json_models(items: Seq<JsonVal>)
    ensures
        json_models(items).len() == items.len(),
        forall|i: int|
            0 <= i < items.len() ==> #[trigger] json_models(items)[i] == json_model(items[i]),
    decreases items.len(),
{
    if items.len() > 0 {
        lemma_json_models(items.drop_last());
    }
}

pub proof fn lemma_entry_models(es: Seq<(String, JsonVal)>)
    ensures
        entry_models(es).len() == es.len(),
        forall|i: int|
            0 <= i < es.len() ==> #[trigger] entry_models(es)[i] == (es[i].0@, json_model(
                es[i].1,
            )),
    decreases es.len(),
{
    if es.len() > 0 {
        lemma_entry_models(es.drop_last());
    }
}

pub proof fn lemma_json_models_push(items: Seq<JsonVal>, x: JsonVal)
    ensures
        json_models(items.push(x)) == json_models(items).push(json_model(x)),
{
    assert(items.push(x).drop_last() =~= items);
    assert(items.push(x).last() == x);
}

impl View for JsonVal {
    type V = JsonModel;

    open spec fn view(&self) -> JsonModel {
        json_model(*self)
    }
}

/// The JSON escape of one character: quote and backslash get a backslash,
/// control characters become `\u00..`, everything else stands as itself.
pub open spec fn escape_char(c: char) -> Seq<char> {
    if c == '"' {
        seq!['\\', '"']
    } else if c == '\\' {
        seq!['\\', '\\']
    } else if (c as int) < 32 {
        seq!['\\', 'u', '0', '0', hex_digit(((c as int) / 16) as nat), hex_digit(
            ((c as int) % 16) as nat,
        )]
    } else {
        seq![c]
    }
}

/// The escape of the first `n` characters of `s`, concatenated.
pub open spec fn escape_prefix(s: Seq<char>, n: int) -> Seq<char>
    decreases n,
{
    if n <= 0 {
        Seq::empty()
    } else {
        escape_prefix(s, n - 1) + escape_char(s[n - 1])
    }
}

/// The JSON escape of a whole string body (without surrounding quotes).
pub open spec fn escape_str(s: Seq<char>) -> Seq<char> {
    escape_prefix(s, s.len() as int)
}

/// The canonical rendering of a value: no whitespace, object entries in
/// their stored order, strings escaped as above.
pub open spec fn ser_json(v: JsonModel) -> Seq<char>
    decreases v, 0int, 0int,
{
    match v {
        JsonModel::Bool(b) => if b {
            seq!['t', 'r', 'u', 'e']
        } else {
            seq!['f', 'a', 'l', 's', 'e']
        },
        JsonModel::Num(n) => dec_rep(n),
        JsonModel::Str(s) => seq!['"'] + escape_str(s) + seq!['"'],
        JsonModel::Arr(items) => seq!['['] + ser_items(items, items.len() as int) + seq![']'],
        JsonModel::Obj(entries) => seq!['{'] + ser_entries(entries, entries.len() as int) + seq![
            '}',
        ],
    }
}

/// The rendering of the first `n` array elements, comma-separated.
pub open spec fn ser_items(items: Seq<JsonModel>, n: int) -> Seq<char>
    decreases items, 1int, n,
        when 0 <= n <= items.len()
{
    if n <= 0 {
        Seq::empty()
    } else if n == 1 {
        ser_json(items[0])
    } else {
        ser_items(items, n - 1) + seq![','] + ser_json(items[n - 1])
    }
}

/// The rendering of the first `n` object entries, comma-separated, each as
/// a quoted escaped key, a colon, and the rendered value.
pub open spec fn ser_entries(entries: Seq<(Seq<char>, JsonModel)>, n: int) -> Seq<char>
    decreases entries, 1int, n,
        when 0 <= n <= entries.len()
{
    if n <= 0 {
        Seq::empty()
    } else if n == 1 {
        ser_entry(entries[0])
    } else {
        ser_entries(entries, n - 1) + seq![','] + ser_entry(entries[n - 1])
    }
}

/// The rendering of one object entry.
pub open spec fn ser_entry(e: (Seq<char>, JsonModel)) -> Seq<char>
    decreases e, 0int, 0int,
{
    seq!['"'] + escape_str(e.0) + seq!['"', ':'] + ser_json(e.1)
}

/// Looks a key up among object entries, first match from the left.
pub open spec fn entries_get(es: Seq<(Seq<char>, JsonModel)>, k: Seq<char>) -> Option<JsonModel>
    decreases es.len(),
{
    if es.len() == 0 {
        None
    } else if es[0].0 == k {
        Some(es[0].1)
    } else {
        entries_get(es.drop_first(), k)
    }
}

/// Looks a key up in a value; `None` on anything but an object.
pub open spec fn obj_get(v: JsonModel, k: Seq<char>) -> Option<JsonModel> {
    match v {
        JsonModel::Obj(es) => entries_get(es, k),
        _ => None,
    }
}

fn push_escaped(s: &str, out: &mut Vec<char>)
    ensures
        final(out)@ == old(out)@ + escape_str(s@),
{
    let len = s.unicode_len();
    let mut i: usize = 0;
    while i < len
        invariant
            i <= len,
            len == s@.len(),
            out@ == old(out)@ + escape_prefix(s@, i as int),
        decreases len - i,
    {
        let c = s.get_char(i);
        if c == '"' {
            out.push('\\');
            out.push('"');
        } else if c == '\\' {
            out.push('\\');
            out.push('\\');
        } else if (c as u32) < 32 {
            out.push('\\');
            out.push('u');
            out.push('0');
            out.push('0');
            out.push(hex_digit_char(((c as u32) / 16) as u8));
            out.push(hex_digit_char(((c as u32) % 16) as u8));
        } else {
            out.push(c);
        }
        proof {
            assert(out@ =~= old(out)@ + escape_prefix(s@, i + 1));
        }
        i = i + 1;
    }
}

#[verifier::loop_isolation(false)]
fn ser_into(v: &JsonVal, out: &mut Vec<char>)
    ensures
        final(out)@ == old(out)@ + ser_json(v@),
    decreases v,
{
    match v {
        JsonVal::Bool(b) => {
            if *b {
                out.push('t');
                out.push('r');
                out.push('u');
                out.push('e');
            } else {
                out.push('f');
                out.push('a');
                out.push('l');
                out.push('s');
                out.push('e');
            }
            proof {
                assert(out@ =~= old(out)@ + ser_json(v@));
            }
        },
        JsonVal::Num(n) => {
            if *n == 0 {
                out.push('0');
            } else {
                push_dec_digits(*n, out);
            }
            proof {
                assert(out@ =~= old(out)@ + ser_json(v@));
            }
        },
        JsonVal::Str(s) => {
            out.push('"');
            push_escaped(s.as_str(), out);
            out.push('"');
            proof {
                assert(out@ =~= old(out)@ + ser_json(v@));
            }
        },
        JsonVal::Arr(items) => {
            let ghost ms = json_models(items@);
            proof {
                lemma_json_models(items@);
            }
            out.push('[');
            let mut i: usize = 0;
            while i < items.len()
                invariant
                    i <= items@.len(),
                    ms == json_models(items@),
                    ms.len() == items@.len(),
                    forall|j: int| 0 <= j < items@.len() ==> #[trigger] ms[j] == json_model(
                        items@[j],
                    ),
                    out@ == old(out)@ + seq!['['] + ser_items(ms, i as int),
                decreases items@.len() - i,
            {
                if i > 0 {
                    out.push(',');
                }
                proof {
                    assert(*v == JsonVal::Arr(*items));
                    assert(decreases_to!(*v => *items));
                    assert(decreases_to!(*items => items@));
                    assert(decreases_to!(items@ => items@[i as int]));
                    assert(decreases_to!(*v => items@[i as int]));
                }
                ser_into(&items[i], out);
                proof {
                    assert(out@ =~= old(out)@ + seq!['['] + ser_items(ms, i + 1));
                }
                i = i + 1;
            }
            out.push(']');
            proof {
                assert(v@ == JsonModel::Arr(ms));
                assert(out@ =~= old(out)@ + ser_json(v@));
            }
        },
        JsonVal::Obj(entries) => {
            let ghost ms = entry_models(entries@);
            proof {
                lemma_entry_models(entries@);
            }
            out.push('{');
            let mut i: usize = 0;
            while i < entries.len()
                invariant
                    i <= entries@.len(),
                    ms == entry_models(entries@),
                    ms.len() == entries@.len(),
                    forall|j: int| 0 <= j < entries@.len() ==> #[trigger] ms[j] == (
                        entries@[j].0@,
                        json_model(entries@[j].1),
                    ),
                    out@ == old(out)@ + seq!['{'] + ser_entries(ms, i as int),
                decreases entries@.len() - i,
            {
                if i > 0 {
                    out.push(',');
                }
                out.push('"');
                push_escaped(entries[i].0.as_str(), out);
                out.push('"');
                out.push(':');
                proof {
                    assert(*v == JsonVal::Obj(*entries));
                    assert(decreases_to!(*v => *entries));
                    assert(decreases_to!(*entries => entries@));
                    assert(decreases_to!(entries@ => entries@[i as int]));
                    assert(decreases_to!(entries@[i as int] => entries@[i as int].1));
                    assert(decreases_to!(*v => entries@[i as int].1));
                }
                ser_into(&entries[i].1, out);
                proof {
                    assert(ms[i as int] == (entries@[i as int].0@, json_model(entries@[i as int].1)));
                    assert(ser_entry(ms[i as int]) == seq!['"'] + escape_str(entries@[i as int].0@)
                        + seq!['"', ':'] + ser_json(json_model(entries@[i as int].1)));
                    assert(out@ =~= old(out)@ + seq!['{'] + ser_entries(ms, i + 1));
                }
                i = i + 1;
            }
            out.push('}');
            proof {
                assert(v@ == JsonModel::Obj(ms));
                assert(out@ =~= old(out)@ + ser_json(v@));
            }
        },
    }
}

/// Renders a value as its canonical JSON text.
pub fn serialize_json(v: &JsonVal) -> (r: String)
    ensures
        r@ == ser_json(v@),
{
    let mut out: Vec<char> = Vec::new();
    ser_into(v, &mut out);
    proof {
        assert(out@ =~= ser_json(v@));
    }
    chars_to_string(out)
}

} // verus!
