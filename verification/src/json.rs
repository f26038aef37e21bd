//! An order-preserving in-memory model of a JSON document.
//!
//! Every decoder and encoder in this crate works on [`JsonValue`], a plain
//! tree of nulls, booleans, integers, strings, arrays and objects. An object
//! keeps its members as a sequence of key/value pairs, in the order in which
//! the producer emitted them. The mathematical model of a tree is [`JsonV`],
//! reached through [`jv`]; contracts throughout the crate are stated over it.

use vstd::prelude::*;

verus! {

/// The mathematical model of a JSON tree: the same shape as [`JsonValue`],
/// with strings as character sequences and members as ghost sequences.
#[verifier::ext_equal]
pub enum JsonV {
    Null,
    Bool(bool),
    Int(int),
    Str(Seq<char>),
    Arr(Seq<JsonV>),
    Obj(Seq<(Seq<char>, JsonV)>),
}

/// One JSON value. Numbers are restricted to signed 64-bit integers, the
/// only numeric shape the compiler's artifacts use.
#[derive(Debug, PartialEq, Eq)]
pub enum JsonValue {
    Null,
    Bool(bool),
    Int(i64),
    Str(String),
    Arr(Vec<JsonValue>),
    Obj(Vec<(String, JsonValue)>),
}

/// The model of a value: strings become character sequences, children are
/// modelled recursively.
pub open spec fn jv(v: JsonValue) -> JsonV
    decreases v,
{
    match v {
        JsonValue::Null => JsonV::Null,
        JsonValue::Bool(b) => JsonV::Bool(b),
        JsonValue::Int(i) => JsonV::Int(i as int),
        JsonValue::Str(s) => JsonV::Str(s@),
        JsonValue::Arr(a) => JsonV::Arr(jv_seq(a@)),
        JsonValue::Obj(ps) => JsonV::Obj(jv_pairs(ps@)),
    }
}

/// The models of the elements of an array, in order.
pub open spec fn jv_seq(s: Seq<JsonValue>) -> Seq<JsonV>
    decreases s,
{
    if s.len() == 0 {
        Seq::empty()
    } else {
        seq![jv(s[0])] + jv_seq(s.skip(1))
    }
}

/// The models of the members of an object, in order.
pub open spec fn jv_pairs(s: Seq<(String, JsonValue)>) -> Seq<(Seq<char>, JsonV)>
    decreases s,
{
    if s.len() == 0 {
        Seq::empty()
    } else {
        seq![(s[0].0@, jv(s[0].1))] + jv_pairs(s.skip(1))
    }
}

pub broadcast proof fn lemma_jv_seq(s: Seq<JsonValue>)
    ensures
        (#[trigger] jv_seq(s)).len() == s.len(),
        forall|i: int| 0 <= i < s.len() ==> jv_seq(s)[i] == jv(s[i]),
    decreases s,
{
    if s.len() > 0 {
        lemma_jv_seq(s.skip(1));
    }
}

pub broadcast proof fn lemma_jv_pairs(s: Seq<(String, JsonValue)>)
    ensures
        (#[trigger] jv_pairs(s)).len() == s.len(),
        forall|i: int| 0 <= i < s.len()
            ==> jv_pairs(s)[i] == (s[i].0@, jv(s[i].1)),
    decreases s,
{
    if s.len() > 0 {
        lemma_jv_pairs(s.skip(1));
    }
}

/// The value of the first member named `k`, if the object has one.
pub open spec fn jv_lookup(ps: Seq<(Seq<char>, JsonV)>, k: Seq<char>) -> Option<JsonV>
    decreases ps,
{
    if ps.len() == 0 {
        None
    } else if ps[0].0 == k {
        Some(ps[0].1)
    } else {
        jv_lookup(ps.skip(1), k)
    }
}

/// A found member is one of the pairs of the object.
pub proof fn lemma_jv_lookup_is_member(ps: Seq<(Seq<char>, JsonV)>, k: Seq<char>)
    ensures
        jv_lookup(ps, k) matches Some(x)
            ==> exists|i: int| 0 <= i < ps.len() && ps[i] == (k, x),
    decreases ps,
{
    if ps.len() > 0 && ps[0].0 != k {
        lemma_jv_lookup_is_member(ps.skip(1), k);
        match jv_lookup(ps, k) {
            Some(x) => {
                let i = choose|i: int| 0 <= i < ps.skip(1).len() && ps.skip(1)[i] == (k, x);
                assert(ps[i + 1] == (k, x));
            },
            None => {},
        }
    }
}

/// Compares two string slices by their character sequences.
pub fn str_eq(a: &str, b: &str) -> (r: bool)
    ensures
        r == (a@ == b@),
{
    let alen = a.unicode_len();
    let blen = b.unicode_len();
    if alen != blen {
        return false;
    }
    let mut i: usize = 0;
    while i < alen
        invariant
            i <= alen,
            alen == a@.len(),
            alen == b@.len(),
            forall|j: int| 0 <= j < i ==> a@[j] == b@[j],
        decreases alen - i,
    {
        if a.get_char(i) != b.get_char(i) {
            return false;
        }
        i += 1;
    }
    proof {
        assert(a@ =~= b@);
    }
    true
}

/// The first member of `ps` named `k`, if any; the model of the result is
/// exactly what [`jv_lookup`] yields on the object's model.
pub fn obj_get<'a>(ps: &'a Vec<(String, JsonValue)>, k: &str) -> (r: Option<&'a JsonValue>)
    ensures
        match r {
            Some(v) => jv_lookup(jv_pairs(ps@), k@) == Some(jv(*v))
                && exists|i: int| 0 <= i < ps@.len() && ps@[i].1 == *v,
            None => jv_lookup(jv_pairs(ps@), k@) is None,
        },
{
    let n = ps.len();
    let mut i: usize = 0;
    proof {
        assert(jv_pairs(ps@).skip(0) =~= jv_pairs(ps@));
    }
    while i < n
        invariant
            i <= n,
            n == ps@.len(),
            jv_lookup(jv_pairs(ps@), k@) == jv_lookup(jv_pairs(ps@).skip(i as int), k@),
            forall|j: int| 0 <= j < i ==> ps@[j].0@ != k@,
        decreases n - i,
    {
        proof {
            lemma_jv_pairs(ps@);
            assert(jv_pairs(ps@).skip(i as int)[0] == jv_pairs(ps@)[i as int]);
        }
        if str_eq(ps[i].0.as_str(), k) {
            return Some(&ps[i].1);
        }
        proof {
            assert(jv_pairs(ps@).skip(i as int).skip(1) =~= jv_pairs(ps@).skip(i + 1));
        }
        i += 1;
    }
    proof {
        lemma_jv_pairs(ps@);
        assert(jv_pairs(ps@).skip(n as int) =~= Seq::<(Seq<char>, JsonV)>::empty());
    }
    None
}

/// Looking a key up finds the value at its first position.
pub proof fn lemma_lookup_at(ps: Seq<(Seq<char>, JsonV)>, k: Seq<char>, i: int)
    requires
        0 <= i < ps.len(),
        ps[i].0 == k,
        forall|j: int| 0 <= j < i ==> (#[trigger] ps[j]).0 != k,
    ensures
        jv_lookup(ps, k) == Some(ps[i].1),
    decreases i,
{
    if i > 0 {
        lemma_lookup_at(ps.skip(1), k, i - 1);
        assert forall|j: int| 0 <= j < i - 1 implies (#[trigger] ps.skip(1)[j]).0 != k by {
            assert(ps.skip(1)[j] == ps[j + 1]);
        }
        assert(ps.skip(1)[i - 1] == ps[i]);
    }
}

/// Looking up a key no member carries yields nothing.
pub proof fn lemma_lookup_absent(ps: Seq<(Seq<char>, JsonV)>, k: Seq<char>)
    requires
        forall|j: int| 0 <= j < ps.len() ==> (#[trigger] ps[j]).0 != k,
    ensures
        jv_lookup(ps, k) is None,
    decreases ps.len(),
{
    if ps.len() > 0 {
        lemma_lookup_absent(ps.skip(1), k);
    }
}

/// Copies a JSON value; the copy has the same model.
pub fn clone_json(v: &JsonValue) -> (r: JsonValue)
    ensures
        jv(r) == jv(*v),
    decreases jv(*v), 1int, 0int,
{
    match v {
        JsonValue::Null => JsonValue::Null,
        JsonValue::Bool(b) => JsonValue::Bool(*b),
        JsonValue::Int(n) => JsonValue::Int(*n),
        JsonValue::Str(s) => JsonValue::Str(s.clone()),
        JsonValue::Arr(elems) => {
            let ghost s = jv_seq(elems@);
            proof {
                lemma_jv_seq(elems@);
                assert(jv(*v) == JsonV::Arr(s));
            }
            let n = elems.len();
            let mut out: Vec<JsonValue> = Vec::new();
            let mut i: usize = 0;
            while i < n
                invariant
                    i <= n,
                    n == elems@.len(),
                    s == jv_seq(elems@),
                    jv(*v) == JsonV::Arr(s),
                    s.len() == n,
                    forall|j: int| 0 <= j < n ==> s[j] == jv(elems@[j]),
                    out@.len() == i,
                    forall|j: int| 0 <= j < i ==> jv(#[trigger] out@[j]) == jv(elems@[j]),
                decreases n - i,
            {
                proof {
                    assert(s[i as int] == jv(elems@[i as int]));
                    assert(jv(*v)->Arr_0 == s);
                    assert(decreases_to!(jv(*v) => jv(*v)->Arr_0));
                    assert(decreases_to!(jv(*v) => s));
                    assert(decreases_to!(s => s[i as int]));
                    assert(decreases_to!(jv(*v) => jv(elems@[i as int])));
                }
                let c = clone_json(&elems[i]);
                out.push(c);
                i += 1;
            }
            proof {
                lemma_jv_seq(out@);
                assert(jv_seq(out@) =~= jv_seq(elems@));
            }
            JsonValue::Arr(out)
        },
        JsonValue::Obj(ps) => {
            let ghost m = jv_pairs(ps@);
            proof {
                lemma_jv_pairs(ps@);
                assert(jv(*v) == JsonV::Obj(m));
            }
            let n = ps.len();
            let mut out: Vec<(String, JsonValue)> = Vec::new();
            let mut i: usize = 0;
            while i < n
                invariant
                    i <= n,
                    n == ps@.len(),
                    m == jv_pairs(ps@),
                    jv(*v) == JsonV::Obj(m),
                    m.len() == n,
                    forall|j: int| 0 <= j < n ==> m[j] == (ps@[j].0@, jv(ps@[j].1)),
                    out@.len() == i,
                    forall|j: int| 0 <= j < i ==> (#[trigger] out@[j]).0@ == ps@[j].0@ && jv(
                        out@[j].1,
                    ) == jv(ps@[j].1),
                decreases n - i,
            {
                proof {
                    assert(m[i as int] == (ps@[i as int].0@, jv(ps@[i as int].1)));
                    assert(jv(*v)->Obj_0 == m);
                    assert(decreases_to!(jv(*v) => jv(*v)->Obj_0));
                    assert(decreases_to!(jv(*v) => m));
                    assert(decreases_to!(m => m[i as int]));
                    assert(decreases_to!(m[i as int] => m[i as int].1));
                    assert(decreases_to!(jv(*v) => jv(ps@[i as int].1)));
                }
                let c = clone_json(&ps[i].1);
                let key = ps[i].0.clone();
                out.push((key, c));
                i += 1;
            }
            proof {
                lemma_jv_pairs(out@);
                assert(jv_pairs(out@) =~= jv_pairs(ps@));
            }
            JsonValue::Obj(out)
        },
    }
}

} // verus!
