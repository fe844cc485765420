//! The dynamically-typed parameter values that callers hand to the
//! dispatcher: an ordered name-to-value mapping over a small JSON-like
//! value type.

use vstd::prelude::*;
use vstd::string::*;
use crate::json::{json_str, append_json_string};
use crate::text::{str_eq, push_char, dec_int, i64_to_dec};

verus! {

/// A JSON-like parameter value.
#[derive(Debug)]
pub enum ParamValue {
    Null,
    Bool(bool),
    Int(i64),
    Str(String),
    List(Vec<ParamValue>),
    Obj(Vec<Param>),
}

/// One named parameter.
#[derive(Debug)]
pub struct Param {
    pub name: String,
    pub value: ParamValue,
}

/// An ordered mapping of parameter names to values; a lookup takes the
/// first entry with the given name.
pub struct ParamMap {
    pub entries: Vec<Param>,
}

/// The value bound to `name`, if any.
pub open spec fn lookup(entries: Seq<Param>, name: Seq<char>) -> Option<ParamValue>
    decreases entries.len(),
{
    if entries.len() == 0 {
        None
    } else if entries[0].name@ == name {
        Some(entries[0].value)
    } else {
        lookup(entries.drop_first(), name)
    }
}

impl ParamMap {
    /// What the map binds.
    pub open spec fn spec_get(&self, name: Seq<char>) -> Option<ParamValue> {
        lookup(self.entries@, name)
    }

    /// An empty parameter map.
    pub fn new() -> (r: ParamMap)
        ensures
            r.entries@.len() == 0,
    {
        ParamMap { entries: Vec::new() }
    }

    /// Appends a binding.
    pub fn push(&mut self, name: String, value: ParamValue)
        ensures
            final(self).entries@ == old(self).entries@.push(Param { name, value }),
    {
        self.entries.push(Param { name, value });
    }

    /// Looks a name up; the first binding wins.
    pub fn get(&self, name: &str) -> (r: Option<&ParamValue>)
        ensures
            match r {
                Some(v) => self.spec_get(name@) == Some(*v),
                None => self.spec_get(name@) is None,
            },
    {
        let n = self.entries.len();
        let mut i: usize = 0;
        proof {
            assert(self.entries@.skip(0) =~= self.entries@);
        }
        while i < n
            invariant
                n == self.entries@.len(),
                i <= n,
                lookup(self.entries@, name@) == lookup(self.entries@.skip(i as int), name@),
            decreases n - i,
        {
            let e = &self.entries[i];
            if str_eq(e.name.as_str(), name) {
                proof {
                    assert(self.entries@.skip(i as int)[0] == self.entries@[i as int]);
                }
                return Some(&self.entries[i].value);
            }
            proof {
                assert(self.entries@.skip(i as int).drop_first() =~= self.entries@.skip(
                    i + 1 as int,
                ));
                assert(self.entries@.skip(i as int)[0] == self.entries@[i as int]);
            }
            i += 1;
        }
        proof {
            assert(self.entries@.skip(n as int) =~= Seq::<Param>::empty());
        }
        None
    }
}

/// The string bound to a value, if it is a string.
pub open spec fn spec_as_str(v: Option<ParamValue>) -> Option<Seq<char>> {
    match v {
        Some(ParamValue::Str(s)) => Some(s@),
        _ => None,
    }
}

/// The boolean bound to a value, if it is a boolean.
pub open spec fn spec_as_bool(v: Option<ParamValue>) -> Option<bool> {
    match v {
        Some(ParamValue::Bool(b)) => Some(b),
        _ => None,
    }
}

/// The non-negative number bound to a value, if that is what it holds.
pub open spec fn spec_as_u64(v: Option<ParamValue>) -> Option<u64> {
    match v {
        Some(ParamValue::Int(n)) => if n >= 0 {
            Some(n as u64)
        } else {
            None
        },
        _ => None,
    }
}

impl ParamMap {
    /// The string parameter `name`, if present with a string value.
    pub fn get_str(&self, name: &str) -> (r: Option<&String>)
        ensures
            match r {
                Some(s) => spec_as_str(self.spec_get(name@)) == Some(s@),
                None => spec_as_str(self.spec_get(name@)) is None,
            },
    {
        match self.get(name) {
            Some(ParamValue::Str(s)) => Some(s),
            _ => None,
        }
    }

    /// The boolean parameter `name`, if present with a boolean value.
    pub fn get_bool(&self, name: &str) -> (r: Option<bool>)
        ensures
            r == spec_as_bool(self.spec_get(name@)),
    {
        match self.get(name) {
            Some(ParamValue::Bool(b)) => Some(*b),
            _ => None,
        }
    }

    /// The non-negative numeric parameter `name`, if present as such.
    pub fn get_u64(&self, name: &str) -> (r: Option<u64>)
        ensures
            r == spec_as_u64(self.spec_get(name@)),
    {
        match self.get(name) {
            Some(ParamValue::Int(n)) => {
                let m = *n;
                if m >= 0 {
                    Some(m as u64)
                } else {
                    None
                }
            },
            _ => None,
        }
    }
}

/// The compact JSON rendering of a value.
pub open spec fn json_of(v: ParamValue) -> Seq<char>
    decreases v,
{
    match v {
        ParamValue::Null => seq!['n', 'u', 'l', 'l'],
        ParamValue::Bool(b) => if b {
            seq!['t', 'r', 'u', 'e']
        } else {
            seq!['f', 'a', 'l', 's', 'e']
        },
        ParamValue::Int(n) => dec_int(n as int),
        ParamValue::Str(s) => json_str(s@),
        ParamValue::List(items) => seq!['['] + json_of_items(items@) + seq![']'],
        ParamValue::Obj(fields) => seq!['{'] + json_of_fields(fields@) + seq!['}'],
    }
}

/// The comma-separated renderings of a list of values.
pub open spec fn json_of_items(items: Seq<ParamValue>) -> Seq<char>
    decreases items,
{
    if items.len() == 0 {
        Seq::empty()
    } else if items.len() == 1 {
        json_of(items[0])
    } else {
        json_of_items(items.drop_last()) + seq![','] + json_of(items.last())
    }
}

/// The rendering of one object field.
pub open spec fn json_of_field(f: Param) -> Seq<char>
    decreases f,
{
    json_str(f.name@) + seq![':'] + json_of(f.value)
}

/// The comma-separated renderings of the fields of an object.
pub open spec fn json_of_fields(fields: Seq<Param>) -> Seq<char>
    decreases fields,
{
    if fields.len() == 0 {
        Seq::empty()
    } else if fields.len() == 1 {
        json_of_field(fields[0])
    } else {
        json_of_fields(fields.drop_last()) + seq![','] + json_of_field(fields.last())
    }
}

/// Appends the compact JSON rendering of `v` to `out`.
pub fn append_json_value(out: &mut String, v: &ParamValue)
    ensures
        final(out)@ == old(out)@ + json_of(*v),
    decreases *v,
{
    match v {
        ParamValue::Null => {
            out.append("null");
            proof {
                reveal_strlit("null");
                assert(out@ =~= old(out)@ + json_of(*v));
            }
        },
        ParamValue::Bool(b) => {
            if *b {
                out.append("true");
                proof {
                    reveal_strlit("true");
                    assert(out@ =~= old(out)@ + json_of(*v));
                }
            } else {
                out.append("false");
                proof {
                    reveal_strlit("false");
                    assert(out@ =~= old(out)@ + json_of(*v));
                }
            }
        },
        ParamValue::Int(n) => {
            let d = i64_to_dec(*n);
            out.append(d.as_str());
        },
        ParamValue::Str(s) => {
            append_json_string(out, s.as_str());
        },
        ParamValue::List(items) => {
            push_char(out, '[');
            let ghost base = out@;
            let n = items.len();
            let mut i: usize = 0;
            proof {
                assert(base + json_of_items(items@.subrange(0, 0)) =~= base);
            }
            while i < n
                invariant
                    v is List,
                    v->List_0 == *items,
                    n == items@.len(),
                    i <= n,
                    out@ == base + json_of_items(items@.subrange(0, i as int)),
                decreases n - i,
            {
                let ghost pre = out@;
                if i > 0 {
                    push_char(out, ',');
                }
                proof {
                    broadcast use vstd::std_specs::vec::axiom_vec_index_decreases;

                    assert(*items == v->List_0);
                    assert(decreases_to!(*v => v->List_0));
                    assert(decreases_to!(*items => items@[i as int]));
                }
                append_json_value(out, &items[i]);
                proof {
                    assert(items@.subrange(0, i + 1 as int).drop_last() =~= items@.subrange(
                        0,
                        i as int,
                    ));
                    assert(items@.subrange(0, i + 1 as int).last() == items@[i as int]);
                    if i == 0 {
                        assert(items@.subrange(0, 1) =~= seq![items@[0]]);
                        assert(out@ =~= base + json_of_items(items@.subrange(0, 1)));
                    } else {
                        assert(out@ =~= base + json_of_items(items@.subrange(0, i + 1 as int)));
                    }
                }
                i += 1;
            }
            push_char(out, ']');
            proof {
                assert(items@.subrange(0, n as int) =~= items@);
                assert(out@ =~= old(out)@ + json_of(*v));
            }
        },
        ParamValue::Obj(fields) => {
            push_char(out, '{');
            let ghost base = out@;
            let n = fields.len();
            let mut i: usize = 0;
            proof {
                assert(base + json_of_fields(fields@.subrange(0, 0)) =~= base);
            }
            while i < n
                invariant
                    v is Obj,
                    v->Obj_0 == *fields,
                    n == fields@.len(),
                    i <= n,
                    out@ == base + json_of_fields(fields@.subrange(0, i as int)),
                decreases n - i,
            {
                if i > 0 {
                    push_char(out, ',');
                }
                let ghost mid = out@;
                append_json_string(out, fields[i].name.as_str());
                push_char(out, ':');
                proof {
                    broadcast use vstd::std_specs::vec::axiom_vec_index_decreases;

                    assert(*fields == v->Obj_0);
                    assert(decreases_to!(*v => v->Obj_0));
                    assert(decreases_to!(*fields => fields@[i as int]));
                    assert(decreases_to!(fields@[i as int] => fields@[i as int].value));
                }
                append_json_value(out, &fields[i].value);
                proof {
                    assert(out@ =~= mid + json_of_field(fields@[i as int]));
                    assert(fields@.subrange(0, i + 1 as int).drop_last() =~= fields@.subrange(
                        0,
                        i as int,
                    ));
                    assert(fields@.subrange(0, i + 1 as int).last() == fields@[i as int]);
                    if i == 0 {
                        assert(fields@.subrange(0, 1) =~= seq![fields@[0]]);
                        assert(out@ =~= base + json_of_fields(fields@.subrange(0, 1)));
                    } else {
                        assert(out@ =~= base + json_of_fields(fields@.subrange(0, i + 1 as int)));
                    }
                }
                i += 1;
            }
            push_char(out, '}');
            proof {
                assert(fields@.subrange(0, n as int) =~= fields@);
                assert(out@ =~= old(out)@ + json_of(*v));
            }
        },
    }
}

/// The compact JSON rendering of `v` as a fresh string.
pub fn value_to_json(v: &ParamValue) -> (r: String)
    ensures
        r@ == json_of(*v),
{
    let mut out = String::new();
    append_json_value(&mut out, v);
    proof {
        assert(out@ =~= json_of(*v));
    }
    out
}

} // verus!
