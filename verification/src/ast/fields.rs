//! Member access for record decoders: each getter reads one member of a JSON
//! object and is proven to behave exactly as [`canon_field`] prescribes for
//! its field kind.

use vstd::prelude::*;

use crate::ast::canon::{
    canon_elems, canon_field, canon_members, canon_value, prefix_err, DecodeError, ErrV, FieldKind,
    prefix_field, prefix_index,
};
use crate::ast::common::{decode_location, encode_location, spec_encode_location, SourceLocation};
use crate::ast::error::Error;
use crate::ast::types::{decode_elementary, spec_encode_elementary, ElementaryType};
use crate::json::{jv, jv_lookup, jv_pairs, jv_seq, lemma_jv_seq, obj_get, JsonV, JsonValue};

verus! {

/// The canonical members of an integer array.
pub open spec fn ints_of(s: Seq<i64>) -> Seq<JsonV> {
    s.map_values(|n: i64| JsonV::Int(n as int))
}

/// The canonical members of an integer-or-null array.
pub open spec fn opt_ints_of(s: Seq<Option<i64>>) -> Seq<JsonV> {
    s.map_values(
        |n: Option<i64>|
            match n {
                Some(x) => JsonV::Int(x as int),
                None => JsonV::Null,
            },
    )
}

/// The canonical members of a string array.
pub open spec fn strs_of(s: Seq<String>) -> Seq<JsonV> {
    s.map_values(|x: String| JsonV::Str(x@))
}

/// The canonical member of an omitted-when-unset optional string.
pub open spec fn omit_str_of(x: Option<String>) -> Option<JsonV> {
    match x {
        Some(s) => Some(JsonV::Str(s@)),
        None => None,
    }
}

/// The canonical value of an optional string.
pub open spec fn opt_str_of(x: Option<String>) -> JsonV {
    match x {
        Some(s) => JsonV::Str(s@),
        None => JsonV::Null,
    }
}

/// The canonical value of an optional integer.
pub open spec fn opt_int_of(x: Option<i64>) -> JsonV {
    match x {
        Some(n) => JsonV::Int(n as int),
        None => JsonV::Null,
    }
}

/// The canonical value of an optional boolean.
pub open spec fn opt_bool_of(x: Option<bool>) -> JsonV {
    match x {
        Some(b) => JsonV::Bool(b),
        None => JsonV::Null,
    }
}

/// The canonical value of an optional string array.
pub open spec fn opt_strs_of(x: Option<Vec<String>>) -> JsonV {
    match x {
        Some(v) => JsonV::Arr(strs_of(v@)),
        None => JsonV::Null,
    }
}

/// The canonical value of an optional integer array.
pub open spec fn opt_arr_ints_of(x: Option<Vec<i64>>) -> JsonV {
    match x {
        Some(v) => JsonV::Arr(ints_of(v@)),
        None => JsonV::Null,
    }
}

/// The canonical members of a name-to-integer-array mapping.
pub open spec fn map_ints_of(s: Seq<(String, Vec<i64>)>) -> Seq<(Seq<char>, JsonV)> {
    s.map_values(|p: (String, Vec<i64>)| (p.0@, JsonV::Arr(ints_of(p.1@))))
}

/// Relates one getter result to what the engine prescribes for the member.
pub open spec fn field_matches<T>(
    r: Result<T, DecodeError>,
    ps: Seq<(String, JsonValue)>,
    k: Seq<char>,
    kind: FieldKind,
    repr: spec_fn(T) -> Option<JsonV>,
) -> bool {
    match r {
        Ok(x) => canon_field(jv_pairs(ps), k, kind) == Ok::<Option<JsonV>, ErrV>(repr(x)),
        Err(e) => canon_field(jv_pairs(ps), k, kind) == Err::<Option<JsonV>, ErrV>(e.model()),
    }
}

/// Reads a required integer member.
pub fn g_i64(ps: &Vec<(String, JsonValue)>, k: &str) -> (r: Result<i64, DecodeError>)
    ensures
        field_matches(r, ps@, k@, FieldKind::KI64, |x: i64| Some(JsonV::Int(x as int))),
{
    proof {
        reveal(crate::ast::canon::canon_field);
        reveal(crate::ast::canon::canon_value);
    }
    match obj_get(ps, k) {
        None => Err(DecodeError::Missing(k.to_owned())),
        Some(v) => match v {
            JsonValue::Int(n) => Ok(*n),
            _ => Err(DecodeError::Invalid(k.to_owned())),
        },
    }
}

/// Reads a required string member.
pub fn g_str(ps: &Vec<(String, JsonValue)>, k: &str) -> (r: Result<String, DecodeError>)
    ensures
        field_matches(r, ps@, k@, FieldKind::KStr, |x: String| Some(JsonV::Str(x@))),
{
    proof {
        reveal(crate::ast::canon::canon_field);
        reveal(crate::ast::canon::canon_value);
    }
    match obj_get(ps, k) {
        None => Err(DecodeError::Missing(k.to_owned())),
        Some(v) => match v {
            JsonValue::Str(s) => Ok(s.clone()),
            _ => Err(DecodeError::Invalid(k.to_owned())),
        },
    }
}

/// Reads a required boolean member.
pub fn g_bool(ps: &Vec<(String, JsonValue)>, k: &str) -> (r: Result<bool, DecodeError>)
    ensures
        field_matches(r, ps@, k@, FieldKind::KBool, |x: bool| Some(JsonV::Bool(x))),
{
    proof {
        reveal(crate::ast::canon::canon_field);
        reveal(crate::ast::canon::canon_value);
    }
    match obj_get(ps, k) {
        None => Err(DecodeError::Missing(k.to_owned())),
        Some(v) => match v {
            JsonValue::Bool(b) => Ok(*b),
            _ => Err(DecodeError::Invalid(k.to_owned())),
        },
    }
}

/// Reads a boolean member that may be stored as `0` or `1`.
pub fn g_bool_or_int(ps: &Vec<(String, JsonValue)>, k: &str) -> (r: Result<bool, DecodeError>)
    ensures
        field_matches(r, ps@, k@, FieldKind::KBoolOrInt, |x: bool| Some(JsonV::Bool(x))),
{
    proof {
        reveal(crate::ast::canon::canon_field);
        reveal(crate::ast::canon::canon_value);
    }
    match obj_get(ps, k) {
        None => Err(DecodeError::Missing(k.to_owned())),
        Some(v) => match v {
            JsonValue::Bool(b) => Ok(*b),
            JsonValue::Int(n) => {
                if *n == 0 {
                    Ok(false)
                } else if *n == 1 {
                    Ok(true)
                } else {
                    Err(DecodeError::Invalid(k.to_owned()))
                }
            },
            _ => Err(DecodeError::Invalid(k.to_owned())),
        },
    }
}

/// Reads a required boolean member that may instead be stored under the
/// producer's older key `"prefix"`.
pub fn g_bool_prefix_alias(ps: &Vec<(String, JsonValue)>, k: &str) -> (r: Result<
    bool,
    DecodeError,
>)
    ensures
        field_matches(r, ps@, k@, FieldKind::KBoolPrefixAlias, |x: bool| Some(JsonV::Bool(x))),
{
    proof {
        reveal(crate::ast::canon::canon_field);
        reveal(crate::ast::canon::canon_value);
    }
    match obj_get(ps, k) {
        Some(v) => match v {
            JsonValue::Bool(b) => Ok(*b),
            _ => Err(DecodeError::Invalid(k.to_owned())),
        },
        None => match obj_get(ps, "prefix") {
            Some(v) => match v {
                JsonValue::Bool(b) => Ok(*b),
                _ => Err(DecodeError::Invalid("prefix".to_owned())),
            },
            None => Err(DecodeError::Missing(k.to_owned())),
        },
    }
}

/// Reads an optional integer member.
pub fn g_opt_i64(ps: &Vec<(String, JsonValue)>, k: &str) -> (r: Result<Option<i64>, DecodeError>)
    ensures
        field_matches(r, ps@, k@, FieldKind::KOptI64, |x: Option<i64>| Some(opt_int_of(x))),
{
    proof {
        reveal(crate::ast::canon::canon_field);
        reveal(crate::ast::canon::canon_value);
    }
    match obj_get(ps, k) {
        None => Ok(None),
        Some(v) => match v {
            JsonValue::Null => Ok(None),
            JsonValue::Int(n) => Ok(Some(*n)),
            _ => Err(DecodeError::Invalid(k.to_owned())),
        },
    }
}

/// Reads an optional string member.
pub fn g_opt_str(ps: &Vec<(String, JsonValue)>, k: &str) -> (r: Result<
    Option<String>,
    DecodeError,
>)
    ensures
        field_matches(r, ps@, k@, FieldKind::KOptStr, |x: Option<String>| Some(opt_str_of(x))),
{
    proof {
        reveal(crate::ast::canon::canon_field);
        reveal(crate::ast::canon::canon_value);
    }
    match obj_get(ps, k) {
        None => Ok(None),
        Some(v) => match v {
            JsonValue::Null => Ok(None),
            JsonValue::Str(s) => Ok(Some(s.clone())),
            _ => Err(DecodeError::Invalid(k.to_owned())),
        },
    }
}

/// Reads an optional string member that the canonical form omits when unset.
pub fn g_opt_str_omit(ps: &Vec<(String, JsonValue)>, k: &str) -> (r: Result<
    Option<String>,
    DecodeError,
>)
    ensures
        field_matches(
            r,
            ps@,
            k@,
            FieldKind::KOptStrOmit,
            |x: Option<String>|
                match x {
                    Some(s) => Some(JsonV::Str(s@)),
                    None => None,
                },
        ),
        (r matches Ok(x) && x is None) ==> (jv_lookup(jv_pairs(ps@), k@) is None || jv_lookup(
            jv_pairs(ps@),
            k@,
        ) == Some(JsonV::Null)),
{
    proof {
        reveal(crate::ast::canon::canon_field);
        reveal(crate::ast::canon::canon_value);
    }
    match obj_get(ps, k) {
        None => Ok(None),
        Some(v) => match v {
            JsonValue::Null => Ok(None),
            JsonValue::Str(s) => Ok(Some(s.clone())),
            _ => Err(DecodeError::Invalid(k.to_owned())),
        },
    }
}

/// Reads an optional boolean member.
pub fn g_opt_bool(ps: &Vec<(String, JsonValue)>, k: &str) -> (r: Result<Option<bool>, DecodeError>)
    ensures
        field_matches(r, ps@, k@, FieldKind::KOptBool, |x: Option<bool>| Some(opt_bool_of(x))),
{
    proof {
        reveal(crate::ast::canon::canon_field);
        reveal(crate::ast::canon::canon_value);
    }
    match obj_get(ps, k) {
        None => Ok(None),
        Some(v) => match v {
            JsonValue::Null => Ok(None),
            JsonValue::Bool(b) => Ok(Some(*b)),
            _ => Err(DecodeError::Invalid(k.to_owned())),
        },
    }
}

/// Reads a required packed source location member.
pub fn g_src(ps: &Vec<(String, JsonValue)>, k: &str) -> (r: Result<SourceLocation, DecodeError>)
    ensures
        field_matches(
            r,
            ps@,
            k@,
            FieldKind::KSrc,
            |x: SourceLocation| Some(JsonV::Str(spec_encode_location(x))),
        ),
{
    proof {
        reveal(crate::ast::canon::canon_field);
        reveal(crate::ast::canon::canon_value);
    }
    match obj_get(ps, k) {
        None => Err(DecodeError::Missing(k.to_owned())),
        Some(v) => match v {
            JsonValue::Str(s) => match decode_location(s.as_str()) {
                Ok(l) => Ok(l),
                Err(e) => Err(DecodeError::Scalar(k.to_owned(), e)),
            },
            _ => Err(DecodeError::Invalid(k.to_owned())),
        },
    }
}

/// Reads a required elementary type spelling member.
pub fn g_elem(ps: &Vec<(String, JsonValue)>, k: &str) -> (r: Result<ElementaryType, DecodeError>)
    ensures
        field_matches(
            r,
            ps@,
            k@,
            FieldKind::KElem,
            |x: ElementaryType| Some(JsonV::Str(spec_encode_elementary(x))),
        ),
{
    proof {
        reveal(crate::ast::canon::canon_field);
        reveal(crate::ast::canon::canon_value);
    }
    match obj_get(ps, k) {
        None => Err(DecodeError::Missing(k.to_owned())),
        Some(v) => match v {
            JsonValue::Str(s) => match decode_elementary(s.as_str()) {
                Ok(t) => Ok(t),
                Err(e) => Err(DecodeError::Scalar(k.to_owned(), e)),
            },
            _ => Err(DecodeError::Invalid(k.to_owned())),
        },
    }
}

/// Decodes an array of integers in place.
fn arr_i64_of(v: &JsonValue) -> (r: Result<Vec<i64>, DecodeError>)
    ensures
        match r {
            Ok(xs) => canon_value(jv(*v), FieldKind::KArrI64) == Ok::<JsonV, ErrV>(
                JsonV::Arr(ints_of(xs@)),
            ),
            Err(e) => canon_value(jv(*v), FieldKind::KArrI64) == Err::<JsonV, ErrV>(e.model()),
        },
{
    proof {
        reveal(crate::ast::canon::canon_value);
    }
    match v {
        JsonValue::Arr(elems) => {
            let ghost s = jv_seq(elems@);
            proof {
                lemma_jv_seq(elems@);
                assert(jv(*v) == JsonV::Arr(s));
            }
            let n = elems.len();
            let mut out: Vec<i64> = Vec::new();
            let mut i: usize = 0;
            while i < n
                invariant
                    i <= n,
                    n == elems@.len(),
                    s == jv_seq(elems@),
                    jv(*v) == JsonV::Arr(s),
                    s.len() == n,
                    forall|j: int| 0 <= j < n ==> s[j] == jv(elems@[j]),
                    out@.len() == i,
                    ints_of(out@) =~= s.take(i as int),
                    forall|j: int| 0 <= j < i ==> (#[trigger] s[j]) matches JsonV::Int(_),
                decreases n - i,
            {
                match &elems[i] {
                    JsonValue::Int(x) => {
                        out.push(*x);
                        proof {
                            assert(ints_of(out@) =~= s.take(i + 1));
                        }
                    },
                    _ => {
                        proof {
                            reveal(crate::ast::canon::canon_value);
                            assert forall|j: int| 0 <= j < i implies canon_value(
                                #[trigger] s[j],
                                FieldKind::KI64,
                            ) is Ok by {}
                            assert(canon_value(s[i as int], FieldKind::KI64) == Err::<
                                JsonV,
                                ErrV,
                            >(ErrV::Invalid(Seq::empty())));
                            lemma_canon_elems_err(s, i as int, FieldKind::KI64);
                        }
                        return Err(prefix_index(i, DecodeError::Invalid(String::new())));
                    },
                }
                i += 1;
            }
            proof {
                reveal(crate::ast::canon::canon_value);
                assert forall|j: int| 0 <= j < s.len() implies canon_value(
                    #[trigger] s[j],
                    FieldKind::KI64,
                ) is Ok by {}
                lemma_canon_elems_ok(s, FieldKind::KI64);
                assert(s.take(n as int) =~= s);
                assert(canon_elems(s, 0, FieldKind::KI64)->Ok_0 =~= ints_of(out@));
            }
            Ok(out)
        },
        _ => Err(DecodeError::Invalid(String::new())),
    }
}

/// If every element up to `i` is accepted and element `i` is rejected, the
/// array is rejected with element `i`'s failure.
pub(crate) proof fn lemma_canon_elems_err(s: Seq<JsonV>, i: int, kind: FieldKind)
    requires
        0 <= i < s.len(),
        forall|j: int| 0 <= j < i ==> canon_value(#[trigger] s[j], kind) is Ok,
        canon_value(s[i], kind) is Err,
    ensures
        canon_elems(s, 0, kind) == Err::<Seq<JsonV>, ErrV>(
            prefix_err(
                crate::ast::canon::idx_path(i),
                canon_value(s[i], kind)->Err_0,
            ),
        ),
    decreases i,
{
    lemma_canon_elems_err_from(s, 0, i, kind);
}

proof fn lemma_canon_elems_err_from(s: Seq<JsonV>, lo: int, i: int, kind: FieldKind)
    requires
        0 <= lo <= i < s.len(),
        forall|j: int| lo <= j < i ==> canon_value(#[trigger] s[j], kind) is Ok,
        canon_value(s[i], kind) is Err,
    ensures
        canon_elems(s, lo, kind) == Err::<Seq<JsonV>, ErrV>(
            prefix_err(
                crate::ast::canon::idx_path(i),
                canon_value(s[i], kind)->Err_0,
            ),
        ),
    decreases i - lo,
{
    reveal(crate::ast::canon::canon_value);
    if lo < i {
        lemma_canon_elems_err_from(s, lo + 1, i, kind);
    }
}

/// If every element is accepted, the array's canonical form is the canonical
/// elements in order.
pub(crate) proof fn lemma_canon_elems_ok(s: Seq<JsonV>, kind: FieldKind)
    requires
        forall|j: int| 0 <= j < s.len() ==> canon_value(#[trigger] s[j], kind) is Ok,
    ensures
        canon_elems(s, 0, kind) matches Ok(cs) && cs.len() == s.len() && (forall|j: int|
            0 <= j < s.len() ==> cs[j] == canon_value(#[trigger] s[j], kind)->Ok_0),
{
    lemma_canon_elems_ok_from(s, 0, kind);
}

proof fn lemma_canon_elems_ok_from(s: Seq<JsonV>, lo: int, kind: FieldKind)
    requires
        0 <= lo <= s.len(),
        forall|j: int| lo <= j < s.len() ==> canon_value(#[trigger] s[j], kind) is Ok,
    ensures
        canon_elems(s, lo, kind) matches Ok(cs) && cs.len() == s.len() - lo && (forall|j: int|
            lo <= j < s.len() ==> cs[j - lo] == canon_value(#[trigger] s[j], kind)->Ok_0),
    decreases s.len() - lo,
{
    reveal(crate::ast::canon::canon_value);
    if lo < s.len() {
        lemma_canon_elems_ok_from(s, lo + 1, kind);
    }
}

/// Reads a required array-of-integers member.
pub fn g_arr_i64(ps: &Vec<(String, JsonValue)>, k: &str) -> (r: Result<Vec<i64>, DecodeError>)
    ensures
        field_matches(
            r,
            ps@,
            k@,
            FieldKind::KArrI64,
            |x: Vec<i64>| Some(JsonV::Arr(ints_of(x@))),
        ),
{
    proof {
        reveal(crate::ast::canon::canon_field);
        reveal(crate::ast::canon::canon_value);
    }
    match obj_get(ps, k) {
        None => Err(DecodeError::Missing(k.to_owned())),
        Some(v) => match arr_i64_of(v) {
            Ok(xs) => Ok(xs),
            Err(e) => Err(prefix_field(k, e)),
        },
    }
}

/// Reads an array-of-integers member that is empty when absent.
pub fn g_def_arr_i64(ps: &Vec<(String, JsonValue)>, k: &str) -> (r: Result<Vec<i64>, DecodeError>)
    ensures
        field_matches(
            r,
            ps@,
            k@,
            FieldKind::KDefArrI64,
            |x: Vec<i64>| Some(JsonV::Arr(ints_of(x@))),
        ),
{
    proof {
        reveal(crate::ast::canon::canon_field);
        reveal(crate::ast::canon::canon_value);
    }
    match obj_get(ps, k) {
        None => {
            let out: Vec<i64> = Vec::new();
            proof {
                assert(ints_of(out@) =~= Seq::<JsonV>::empty());
            }
            Ok(out)
        },
        Some(v) => match arr_i64_of(v) {
            Ok(xs) => {
                proof {
                    assert(canon_value(jv(*v), FieldKind::KDefArrI64) == canon_value(
                        jv(*v),
                        FieldKind::KArrI64,
                    ));
                }
                Ok(xs)
            },
            Err(e) => {
                proof {
                    assert(canon_value(jv(*v), FieldKind::KDefArrI64) == canon_value(
                        jv(*v),
                        FieldKind::KArrI64,
                    ));
                }
                Err(prefix_field(k, e))
            },
        },
    }
}

/// Reads an optional array-of-integers member.
pub fn g_opt_arr_i64(ps: &Vec<(String, JsonValue)>, k: &str) -> (r: Result<
    Option<Vec<i64>>,
    DecodeError,
>)
    ensures
        field_matches(
            r,
            ps@,
            k@,
            FieldKind::KOptArrI64,
            |x: Option<Vec<i64>>| Some(opt_arr_ints_of(x)),
        ),
{
    proof {
        reveal(crate::ast::canon::canon_field);
        reveal(crate::ast::canon::canon_value);
    }
    match obj_get(ps, k) {
        None => Ok(None),
        Some(v) => match v {
            JsonValue::Null => Ok(None),
            _ => match arr_i64_of(v) {
                Ok(xs) => {
                    proof {
                        assert(canon_value(jv(*v), FieldKind::KOptArrI64) == canon_value(
                            jv(*v),
                            FieldKind::KArrI64,
                        ));
                    }
                    Ok(Some(xs))
                },
                Err(e) => {
                    proof {
                        assert(canon_value(jv(*v), FieldKind::KOptArrI64) == canon_value(
                            jv(*v),
                            FieldKind::KArrI64,
                        ));
                    }
                    Err(prefix_field(k, e))
                },
            },
        },
    }
}

} // verus!
