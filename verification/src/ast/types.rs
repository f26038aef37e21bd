//! The parametrized elementary type names of Solidity: `uintN`, `intN`,
//! `bytesN`, `ufixedTxF`, `fixedTxF`, and the bare keywords, with their exact
//! decode and encode behaviour.

use vstd::prelude::*;

use crate::ast::common::{num_fail_msg, SourceLocation, TypeDescriptions};
use crate::ast::error::{Error, ErrorModel};
use crate::text::{
    dec_digits, find_char, find_char_str, has_prefix, has_prefix_str, lemma_dec_digits_are_digits,
    lemma_find_char, lemma_parse_dec_digits, parse_u64_capped, parse_uint, NumParse, ParseFail,
};

use crate::json::str_eq;

verus! {

/// An elementary type name: integers and fixed-point numbers of a bit width,
/// fixed-size byte arrays, and the primitive keywords.
#[derive(Debug, Clone, PartialEq, Eq, Structural)]
pub enum ElementaryType {
    /// Unsigned integer types (`uint8` .. `uint256`; bare `uint` means 256).
    Uint(u16),
    /// Signed integer types (`int8` .. `int256`; bare `int` means 256).
    Int(u16),
    /// The address type.
    Address,
    /// The payable address type.
    Payable,
    /// The boolean type.
    Bool,
    /// The dynamic string type.
    String,
    /// The dynamic bytes type.
    Bytes,
    /// Fixed-size byte arrays (`bytes1` .. `bytes32`).
    FixedBytes(u16),
    /// Unsigned fixed-point types, with total and fractional bits.
    Ufixed(u8, u8),
    /// Signed fixed-point types, with total and fractional bits.
    Fixed(u8, u8),
}

/// An elementary type name node of the AST: a leaf carrying the spelled type.
#[derive(Debug, Clone, PartialEq, Eq)]
pub struct ElementaryTypeName {
    /// Unique identifier assigned by the compiler.
    pub id: i64,
    /// The spelled type.
    pub name: ElementaryType,
    /// The node kind tag, always `"ElementaryTypeName"`.
    pub node_type: String,
    /// Source location information.
    pub src: SourceLocation,
    /// State mutability, present only on address types.
    pub state_mutability: Option<String>,
    /// Type descriptions provided by the compiler.
    pub type_descriptions: TypeDescriptions,
}

/// The canonical spelling of an elementary type, total on every variant.
pub open spec fn spec_encode_elementary(t: ElementaryType) -> Seq<char> {
    match t {
        ElementaryType::Uint(b) => "uint"@ + dec_digits(b as nat),
        ElementaryType::Int(b) => "int"@ + dec_digits(b as nat),
        ElementaryType::Address => "address"@,
        ElementaryType::Payable => "payable"@,
        ElementaryType::Bool => "bool"@,
        ElementaryType::String => "string"@,
        ElementaryType::Bytes => "bytes"@,
        ElementaryType::FixedBytes(b) => "bytes"@ + dec_digits(b as nat),
        ElementaryType::Ufixed(t_, f) => "ufixed"@ + dec_digits(t_ as nat) + seq!['x']
            + dec_digits(f as nat),
        ElementaryType::Fixed(t_, f) => "fixed"@ + dec_digits(t_ as nat) + seq!['x'] + dec_digits(
            f as nat,
        ),
    }
}

/// Decoding a `uint` spelling: the prefix, then an optional width that must
/// parse as an unsigned 16-bit number; an empty suffix means width 256.
pub open spec fn spec_deserialize_uint(s: Seq<char>) -> Result<ElementaryType, ErrorModel> {
    if !has_prefix(s, "uint"@) {
        Err(ErrorModel::NotAUintType(s))
    } else {
        let rest = s.skip("uint"@.len() as int);
        if rest.len() == 0 {
            Ok(ElementaryType::Uint(256))
        } else {
            match parse_uint(rest, u16::MAX as nat) {
                NumParse::Num(v) => Ok(ElementaryType::Uint(v as u16)),
                f => Err(ErrorModel::InvalidSize(num_fail_msg(f))),
            }
        }
    }
}

/// Decoding an `int` spelling, as for `uint`.
pub open spec fn spec_deserialize_int(s: Seq<char>) -> Result<ElementaryType, ErrorModel> {
    if !has_prefix(s, "int"@) {
        Err(ErrorModel::NotAIntType(s))
    } else {
        let rest = s.skip("int"@.len() as int);
        if rest.len() == 0 {
            Ok(ElementaryType::Int(256))
        } else {
            match parse_uint(rest, u16::MAX as nat) {
                NumParse::Num(v) => Ok(ElementaryType::Int(v as u16)),
                f => Err(ErrorModel::InvalidSize(num_fail_msg(f))),
            }
        }
    }
}

/// Decoding a `bytesN` spelling: the prefix, then a mandatory size.
pub open spec fn spec_deserialize_fixed_bytes(s: Seq<char>) -> Result<ElementaryType, ErrorModel> {
    if !has_prefix(s, "bytes"@) {
        Err(ErrorModel::NotABytesType(s))
    } else {
        let rest = s.skip("bytes"@.len() as int);
        match parse_uint(rest, u16::MAX as nat) {
            NumParse::Num(v) => Ok(ElementaryType::FixedBytes(v as u16)),
            f => Err(ErrorModel::InvalidBytesSize(num_fail_msg(f))),
        }
    }
}

/// Decoding a `ufixed<total>x<fractional>` spelling: both counts must parse
/// as unsigned 8-bit numbers; without an `x` the spelling is rejected whole.
pub open spec fn spec_deserialize_ufixed(s: Seq<char>) -> Result<ElementaryType, ErrorModel> {
    if !has_prefix(s, "ufixed"@) {
        Err(ErrorModel::NotAUfixedType(s))
    } else {
        let rest = s.skip("ufixed"@.len() as int);
        let fx = find_char(rest, 'x');
        if fx == rest.len() {
            Err(ErrorModel::InvalidUfixedFormat(s))
        } else {
            match parse_uint(rest.take(fx), u8::MAX as nat) {
                NumParse::Num(tv) => match parse_uint(rest.skip(fx + 1), u8::MAX as nat) {
                    NumParse::Num(fv) => Ok(ElementaryType::Ufixed(tv as u8, fv as u8)),
                    ff => Err(ErrorModel::InvalidFractionalBits(num_fail_msg(ff))),
                },
                tf => Err(ErrorModel::InvalidTotalBits(num_fail_msg(tf))),
            }
        }
    }
}

/// Decoding a `fixed<total>x<fractional>` spelling, as for `ufixed`.
pub open spec fn spec_deserialize_fixed(s: Seq<char>) -> Result<ElementaryType, ErrorModel> {
    if !has_prefix(s, "fixed"@) {
        Err(ErrorModel::NotAFixedType(s))
    } else {
        let rest = s.skip("fixed"@.len() as int);
        let fx = find_char(rest, 'x');
        if fx == rest.len() {
            Err(ErrorModel::InvalidFixedFormat(s))
        } else {
            match parse_uint(rest.take(fx), u8::MAX as nat) {
                NumParse::Num(tv) => match parse_uint(rest.skip(fx + 1), u8::MAX as nat) {
                    NumParse::Num(fv) => Ok(ElementaryType::Fixed(tv as u8, fv as u8)),
                    ff => Err(ErrorModel::InvalidFractionalBits(num_fail_msg(ff))),
                },
                tf => Err(ErrorModel::InvalidTotalBits(num_fail_msg(tf))),
            }
        }
    }
}

/// Decoding a spelling: the bare keywords match literally first, then the
/// prefix families in order; anything else is an unknown elementary type.
pub open spec fn spec_decode_elementary(s: Seq<char>) -> Result<ElementaryType, ErrorModel> {
    if s == "address"@ {
        Ok(ElementaryType::Address)
    } else if s == "payable"@ {
        Ok(ElementaryType::Payable)
    } else if s == "bool"@ {
        Ok(ElementaryType::Bool)
    } else if s == "string"@ {
        Ok(ElementaryType::String)
    } else if s == "bytes"@ {
        Ok(ElementaryType::Bytes)
    } else if has_prefix(s, "uint"@) {
        spec_deserialize_uint(s)
    } else if has_prefix(s, "int"@) {
        spec_deserialize_int(s)
    } else if has_prefix(s, "bytes"@) {
        spec_deserialize_fixed_bytes(s)
    } else if has_prefix(s, "ufixed"@) {
        spec_deserialize_ufixed(s)
    } else if has_prefix(s, "fixed"@) {
        spec_deserialize_fixed(s)
    } else {
        Err(ErrorModel::UnknownElementaryType(s))
    }
}

/// Relates an executable scalar decode to its model.
pub open spec fn elementary_result_matches(
    r: Result<ElementaryType, Error>,
    m: Result<ElementaryType, ErrorModel>,
) -> bool {
    match r {
        Ok(t) => m == Ok::<ElementaryType, ErrorModel>(t),
        Err(e) => m == Err::<ElementaryType, ErrorModel>(e.model()),
    }
}

/// Maps a failed numeric parse to its message, matching the model.
fn num_fail_message(e: ParseFail) -> (r: String)
    ensures
        forall|p: NumParse| parse_result_fail(e, p) ==> r@ == num_fail_msg(p),
{
    e.message()
}

/// Whether the failure `e` is what the parse model `p` names.
pub open spec fn parse_result_fail(e: ParseFail, p: NumParse) -> bool {
    match e {
        ParseFail::Empty => p is Empty,
        ParseFail::BadDigit => p is BadDigit,
        ParseFail::Overflow => p is Overflow,
    }
}

/// Decodes a uint spelling (e.g. `"uint256"`, or bare `"uint"` for 256).
pub fn deserialize_uint(s: &str) -> (r: Result<ElementaryType, Error>)
    ensures
        elementary_result_matches(r, spec_deserialize_uint(s@)),
{
    if !has_prefix_str(s, "uint") {
        return Err(Error::NotAUintType(s.to_owned()));
    }
    proof {
        reveal_strlit("uint");
    }
    let n = s.unicode_len();
    if n == 4 {
        proof {
            assert(s@.skip(4).len() == 0);
        }
        return Ok(ElementaryType::Uint(256));
    }
    let rest = s.substring_char(4, n);
    proof {
        assert(rest@ =~= s@.skip(4));
    }
    match parse_u64_capped(rest, 65535) {
        Ok(v) => Ok(ElementaryType::Uint(v as u16)),
        Err(e) => Err(Error::InvalidSize(num_fail_message(e))),
    }
}

/// Decodes an int spelling (e.g. `"int128"`, or bare `"int"` for 256).
pub fn deserialize_int(s: &str) -> (r: Result<ElementaryType, Error>)
    ensures
        elementary_result_matches(r, spec_deserialize_int(s@)),
{
    if !has_prefix_str(s, "int") {
        return Err(Error::NotAIntType(s.to_owned()));
    }
    proof {
        reveal_strlit("int");
    }
    let n = s.unicode_len();
    if n == 3 {
        proof {
            assert(s@.skip(3).len() == 0);
        }
        return Ok(ElementaryType::Int(256));
    }
    let rest = s.substring_char(3, n);
    proof {
        assert(rest@ =~= s@.skip(3));
    }
    match parse_u64_capped(rest, 65535) {
        Ok(v) => Ok(ElementaryType::Int(v as u16)),
        Err(e) => Err(Error::InvalidSize(num_fail_message(e))),
    }
}

/// Decodes a fixed-size bytes spelling (e.g. `"bytes32"`).
pub fn deserialize_fixed_bytes(s: &str) -> (r: Result<ElementaryType, Error>)
    ensures
        elementary_result_matches(r, spec_deserialize_fixed_bytes(s@)),
{
    if !has_prefix_str(s, "bytes") {
        return Err(Error::NotABytesType(s.to_owned()));
    }
    proof {
        reveal_strlit("bytes");
    }
    let n = s.unicode_len();
    let rest = s.substring_char(5, n);
    proof {
        assert(rest@ =~= s@.skip(5));
    }
    match parse_u64_capped(rest, 65535) {
        Ok(v) => Ok(ElementaryType::FixedBytes(v as u16)),
        Err(e) => Err(Error::InvalidBytesSize(num_fail_message(e))),
    }
}

/// Decodes a ufixed spelling (e.g. `"ufixed128x18"`).
pub fn deserialize_ufixed(s: &str) -> (r: Result<ElementaryType, Error>)
    ensures
        elementary_result_matches(r, spec_deserialize_ufixed(s@)),
{
    if !has_prefix_str(s, "ufixed") {
        return Err(Error::NotAUfixedType(s.to_owned()));
    }
    proof {
        reveal_strlit("ufixed");
    }
    let n = s.unicode_len();
    let rest = s.substring_char(6, n);
    proof {
        assert(rest@ =~= s@.skip(6));
    }
    let fx = find_char_str(rest, 'x');
    let rn = rest.unicode_len();
    proof {
        lemma_find_char(rest@, 'x');
    }
    if fx == rn {
        return Err(Error::InvalidUfixedFormat(s.to_owned()));
    }
    let total = rest.substring_char(0, fx);
    let frac = rest.substring_char(fx + 1, rn);
    proof {
        assert(total@ =~= rest@.take(fx as int));
        assert(frac@ =~= rest@.skip(fx + 1));
    }
    let tv = match parse_u64_capped(total, 255) {
        Ok(v) => v as u8,
        Err(e) => return Err(Error::InvalidTotalBits(num_fail_message(e))),
    };
    let fv = match parse_u64_capped(frac, 255) {
        Ok(v) => v as u8,
        Err(e) => return Err(Error::InvalidFractionalBits(num_fail_message(e))),
    };
    Ok(ElementaryType::Ufixed(tv, fv))
}

/// Decodes a fixed spelling (e.g. `"fixed128x18"`).
pub fn deserialize_fixed(s: &str) -> (r: Result<ElementaryType, Error>)
    ensures
        elementary_result_matches(r, spec_deserialize_fixed(s@)),
{
    if !has_prefix_str(s, "fixed") {
        return Err(Error::NotAFixedType(s.to_owned()));
    }
    proof {
        reveal_strlit("fixed");
    }
    let n = s.unicode_len();
    let rest = s.substring_char(5, n);
    proof {
        assert(rest@ =~= s@.skip(5));
    }
    let fx = find_char_str(rest, 'x');
    let rn = rest.unicode_len();
    proof {
        lemma_find_char(rest@, 'x');
    }
    if fx == rn {
        return Err(Error::InvalidFixedFormat(s.to_owned()));
    }
    let total = rest.substring_char(0, fx);
    let frac = rest.substring_char(fx + 1, rn);
    proof {
        assert(total@ =~= rest@.take(fx as int));
        assert(frac@ =~= rest@.skip(fx + 1));
    }
    let tv = match parse_u64_capped(total, 255) {
        Ok(v) => v as u8,
        Err(e) => return Err(Error::InvalidTotalBits(num_fail_message(e))),
    };
    let fv = match parse_u64_capped(frac, 255) {
        Ok(v) => v as u8,
        Err(e) => return Err(Error::InvalidFractionalBits(num_fail_message(e))),
    };
    Ok(ElementaryType::Fixed(tv, fv))
}

/// Decodes any elementary type spelling: keywords first, then the prefix
/// families, with the family's own error on a malformed suffix.
pub fn decode_elementary(s: &str) -> (r: Result<ElementaryType, Error>)
    ensures
        elementary_result_matches(r, spec_decode_elementary(s@)),
{
    if str_eq(s, "address") {
        Ok(ElementaryType::Address)
    } else if str_eq(s, "payable") {
        Ok(ElementaryType::Payable)
    } else if str_eq(s, "bool") {
        Ok(ElementaryType::Bool)
    } else if str_eq(s, "string") {
        Ok(ElementaryType::String)
    } else if str_eq(s, "bytes") {
        Ok(ElementaryType::Bytes)
    } else if has_prefix_str(s, "uint") {
        deserialize_uint(s)
    } else if has_prefix_str(s, "int") {
        deserialize_int(s)
    } else if has_prefix_str(s, "bytes") {
        deserialize_fixed_bytes(s)
    } else if has_prefix_str(s, "ufixed") {
        deserialize_ufixed(s)
    } else if has_prefix_str(s, "fixed") {
        deserialize_fixed(s)
    } else {
        Err(Error::UnknownElementaryType(s.to_owned()))
    }
}

/// Renders the canonical spelling; total, it never fails.
pub fn encode_elementary(t: &ElementaryType) -> (r: String)
    ensures
        r@ == spec_encode_elementary(*t),
{
    match t {
        ElementaryType::Uint(b) => {
            let mut out = String::from_str("uint");
            let d = crate::text::fmt_u64(*b as u64);
            out.append(d.as_str());
            out
        },
        ElementaryType::Int(b) => {
            let mut out = String::from_str("int");
            let d = crate::text::fmt_u64(*b as u64);
            out.append(d.as_str());
            out
        },
        ElementaryType::Address => String::from_str("address"),
        ElementaryType::Payable => String::from_str("payable"),
        ElementaryType::Bool => String::from_str("bool"),
        ElementaryType::String => String::from_str("string"),
        ElementaryType::Bytes => String::from_str("bytes"),
        ElementaryType::FixedBytes(b) => {
            let mut out = String::from_str("bytes");
            let d = crate::text::fmt_u64(*b as u64);
            out.append(d.as_str());
            out
        },
        ElementaryType::Ufixed(t_, f) => {
            let mut out = String::from_str("ufixed");
            let d = crate::text::fmt_u64(*t_ as u64);
            out.append(d.as_str());
            crate::text::push_char(&mut out, 'x');
            let d2 = crate::text::fmt_u64(*f as u64);
            out.append(d2.as_str());
            proof {
                assert(out@ =~= spec_encode_elementary(*t));
            }
            out
        },
        ElementaryType::Fixed(t_, f) => {
            let mut out = String::from_str("fixed");
            let d = crate::text::fmt_u64(*t_ as u64);
            out.append(d.as_str());
            crate::text::push_char(&mut out, 'x');
            let d2 = crate::text::fmt_u64(*f as u64);
            out.append(d2.as_str());
            proof {
                assert(out@ =~= spec_encode_elementary(*t));
            }
            out
        },
    }
}

/// Decoding the canonical spelling yields the type back, for every variant.
pub proof fn lemma_elementary_round_trip(t: ElementaryType)
    ensures
        spec_decode_elementary(spec_encode_elementary(t)) == Ok::<ElementaryType, ErrorModel>(t),
{
    reveal_strlit("address");
    reveal_strlit("payable");
    reveal_strlit("bool");
    reveal_strlit("string");
    reveal_strlit("bytes");
    reveal_strlit("uint");
    reveal_strlit("int");
    reveal_strlit("ufixed");
    reveal_strlit("fixed");
    let s = spec_encode_elementary(t);
    match t {
        ElementaryType::Address => {
        },
        ElementaryType::Payable => {
        },
        ElementaryType::Bool => {
        },
        ElementaryType::String => {
        },
        ElementaryType::Bytes => {
        },
        ElementaryType::Uint(b) => {
            let d = dec_digits(b as nat);
            lemma_dec_digits_are_digits(b as nat);
            assert(s.len() == 4 + d.len());
            assert(s[0] == 'u' && s[1] == 'i');
            assert(s != "address"@ && s != "payable"@ && s != "bool"@ && s != "string"@ && s
                != "bytes"@);
            assert(has_prefix(s, "uint"@)) by {
                assert(s.take(4) =~= "uint"@);
            }
            assert(s.skip(4) =~= d);
            lemma_parse_dec_digits(b as nat, u16::MAX as nat);
        },
        ElementaryType::Int(b) => {
            let d = dec_digits(b as nat);
            lemma_dec_digits_are_digits(b as nat);
            assert(s.len() == 3 + d.len());
            assert(s[0] == 'i');
            assert(s != "address"@ && s != "payable"@ && s != "bool"@ && s != "string"@ && s
                != "bytes"@);
            assert(!has_prefix(s, "uint"@)) by {
                assert(s.take(4)[0] == 'i');
            }
            assert(has_prefix(s, "int"@)) by {
                assert(s.take(3) =~= "int"@);
            }
            assert(s.skip(3) =~= d);
            lemma_parse_dec_digits(b as nat, u16::MAX as nat);
        },
        ElementaryType::FixedBytes(b) => {
            let d = dec_digits(b as nat);
            lemma_dec_digits_are_digits(b as nat);
            assert(s.len() == 5 + d.len());
            assert(s[0] == 'b' && s[1] == 'y');
            assert(s != "address"@ && s != "payable"@ && s != "bool"@ && s != "string"@ && s
                != "bytes"@);
            assert(!has_prefix(s, "uint"@)) by {
                assert(s.take(4)[0] == 'b');
            }
            assert(!has_prefix(s, "int"@)) by {
                assert(s.take(3)[0] == 'b');
            }
            assert(has_prefix(s, "bytes"@)) by {
                assert(s.take(5) =~= "bytes"@);
            }
            assert(s.skip(5) =~= d);
            lemma_parse_dec_digits(b as nat, u16::MAX as nat);
        },
        ElementaryType::Ufixed(t_, f) => {
            let dt = dec_digits(t_ as nat);
            let df = dec_digits(f as nat);
            lemma_dec_digits_are_digits(t_ as nat);
            lemma_dec_digits_are_digits(f as nat);
            assert(s.len() == 6 + dt.len() + 1 + df.len());
            assert(s.len() >= 9);
            assert(s[0] == 'u' && s[1] == 'f');
            assert(s != "address"@ && s != "payable"@ && s != "bool"@ && s != "string"@ && s
                != "bytes"@);
            assert(!has_prefix(s, "uint"@)) by {
                assert(s.take(4)[1] == 'f');
            }
            assert(!has_prefix(s, "int"@)) by {
                assert(s.take(3)[0] == 'u');
            }
            assert(!has_prefix(s, "bytes"@)) by {
                assert(s.take(5)[0] == 'u');
            }
            assert(has_prefix(s, "ufixed"@)) by {
                assert(s.take(6) =~= "ufixed"@);
            }
            let rest = s.skip(6);
            assert(rest =~= dt + seq!['x'] + df);
            lemma_find_char(rest, 'x');
            let fx = find_char(rest, 'x');
            assert(rest[dt.len() as int] == 'x');
            assert(fx <= dt.len()) by {
                if fx > dt.len() {
                    assert(rest[dt.len() as int] != 'x');
                }
            }
            assert(fx == dt.len()) by {
                if fx < dt.len() {
                    assert(rest[fx] == dt[fx]);
                    assert(crate::text::is_digit_char(dt[fx]));
                }
            }
            assert(rest.take(fx) =~= dt);
            assert(rest.skip(fx + 1) =~= df);
            lemma_parse_dec_digits(t_ as nat, u8::MAX as nat);
            lemma_parse_dec_digits(f as nat, u8::MAX as nat);
        },
        ElementaryType::Fixed(t_, f) => {
            let dt = dec_digits(t_ as nat);
            let df = dec_digits(f as nat);
            lemma_dec_digits_are_digits(t_ as nat);
            lemma_dec_digits_are_digits(f as nat);
            assert(s.len() == 5 + dt.len() + 1 + df.len());
            assert(s.len() >= 8);
            assert(s[0] == 'f' && s[1] == 'i');
            assert(s != "address"@ && s != "payable"@ && s != "bool"@ && s != "string"@ && s
                != "bytes"@);
            assert(!has_prefix(s, "uint"@)) by {
                assert(s.take(4)[0] == 'f');
            }
            assert(!has_prefix(s, "int"@)) by {
                assert(s.take(3)[0] == 'f');
            }
            assert(!has_prefix(s, "bytes"@)) by {
                assert(s.take(5)[0] == 'f');
            }
            assert(!has_prefix(s, "ufixed"@)) by {
                assert(s.take(6)[0] == 'f');
            }
            assert(has_prefix(s, "fixed"@)) by {
                assert(s.take(5) =~= "fixed"@);
            }
            let rest = s.skip(5);
            assert(rest =~= dt + seq!['x'] + df);
            lemma_find_char(rest, 'x');
            let fx = find_char(rest, 'x');
            assert(rest[dt.len() as int] == 'x');
            assert(fx <= dt.len()) by {
                if fx > dt.len() {
                    assert(rest[dt.len() as int] != 'x');
                }
            }
            assert(fx == dt.len()) by {
                if fx < dt.len() {
                    assert(rest[fx] == dt[fx]);
                    assert(crate::text::is_digit_char(dt[fx]));
                }
            }
            assert(rest.take(fx) =~= dt);
            assert(rest.skip(fx + 1) =~= df);
            lemma_parse_dec_digits(t_ as nat, u8::MAX as nat);
            lemma_parse_dec_digits(f as nat, u8::MAX as nat);
        },
    }
}

} // verus!
