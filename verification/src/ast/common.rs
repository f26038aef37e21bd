//! Structures shared by many AST node kinds: the packed source location and
//! the compiler's type descriptions.

use vstd::prelude::*;

use crate::ast::error::{Error, ErrorModel};
use crate::text::{
    dec_digits, lemma_dec_digits_are_digits, lemma_parse_dec_digits, lemma_split_concat,
    lemma_split_whole, lemma_views_of, parse_uint, parse_u64_capped, split_char, split_str,
    views_of, NumParse, ParseFail,
};

verus! {

/// A node's place in the source, packed on the wire as the string
/// `"offset:length:sourceIndex"`.
#[derive(Debug, Clone, PartialEq, Eq, Structural)]
pub struct SourceLocation {
    /// Byte offset from the start of the source file.
    pub offset: usize,
    /// Length of the node in bytes.
    pub length: usize,
    /// Index of the source file, for multi-file compilation.
    pub source_index: usize,
}

/// Compiler-provided type information: an internal identifier and a
/// human-readable spelling, either of which the producer may omit.
#[derive(Debug, Clone, PartialEq, Eq)]
pub struct TypeDescriptions {
    /// The type identifier used by the compiler.
    pub type_identifier: Option<String>,
    /// The human-readable type string.
    pub type_string: Option<String>,
}

/// The exact text [`encode_location`] produces: the three numbers in base 10,
/// joined by colons, nothing else.
pub open spec fn spec_encode_location(l: SourceLocation) -> Seq<char> {
    dec_digits(l.offset as nat) + seq![':'] + dec_digits(l.length as nat) + seq![':']
        + dec_digits(l.source_index as nat)
}

/// The message of a failed numeric part, as the standard parser words it.
pub open spec fn num_fail_msg(p: NumParse) -> Seq<char> {
    match p {
        NumParse::Empty => "cannot parse integer from empty string"@,
        NumParse::BadDigit => "invalid digit found in string"@,
        NumParse::Overflow => "number too large to fit in target type"@,
        NumParse::Num(v) => Seq::empty(),
    }
}

/// What decoding a packed location yields: the three parts of the text, or
/// the first failure in part order, each failure naming its part.
pub open spec fn spec_decode_location(s: Seq<char>) -> Result<SourceLocation, ErrorModel> {
    let parts = split_char(s, ':');
    if parts.len() != 3 {
        Err(ErrorModel::InvalidLocationFormat(s))
    } else {
        let po = parse_uint(parts[0], usize::MAX as nat);
        let pl = parse_uint(parts[1], usize::MAX as nat);
        let pi = parse_uint(parts[2], usize::MAX as nat);
        if !(po is Num) {
            Err(ErrorModel::InvalidOffset(num_fail_msg(po)))
        } else if !(pl is Num) {
            Err(ErrorModel::InvalidLength(num_fail_msg(pl)))
        } else if !(pi is Num) {
            Err(ErrorModel::InvalidSourceIndex(num_fail_msg(pi)))
        } else {
            Ok(
                SourceLocation {
                    offset: po->Num_0 as usize,
                    length: pl->Num_0 as usize,
                    source_index: pi->Num_0 as usize,
                },
            )
        }
    }
}

/// Renders a location as `"offset:length:sourceIndex"`, with no
/// normalization and no omitted part.
pub fn encode_location(l: &SourceLocation) -> (r: String)
    ensures
        r@ == spec_encode_location(*l),
{
    let mut out = crate::text::fmt_u64(l.offset as u64);
    out.append(":");
    let lt = crate::text::fmt_u64(l.length as u64);
    out.append(lt.as_str());
    out.append(":");
    let it = crate::text::fmt_u64(l.source_index as u64);
    out.append(it.as_str());
    proof {
        reveal_strlit(":");
        assert(":"@ =~= seq![':']);
        assert(out@ =~= spec_encode_location(*l));
    }
    out
}

/// Splits on `:` and parses the three parts; fails on any other part count,
/// and on any part the standard unsigned parser rejects, naming the part.
pub fn decode_location(s: &str) -> (r: Result<SourceLocation, Error>)
    ensures
        match r {
            Ok(l) => spec_decode_location(s@) == Ok::<SourceLocation, ErrorModel>(l),
            Err(e) => spec_decode_location(s@) == Err::<SourceLocation, ErrorModel>(e.model()),
        },
{
    let parts = split_str(s, ':');
    proof {
        lemma_views_of(parts@);
    }
    if parts.len() != 3 {
        return Err(Error::InvalidLocationFormat(s.to_owned()));
    }
    let max: u64 = usize::MAX as u64;
    let offset = match parse_u64_capped(parts[0].as_str(), max) {
        Ok(v) => v as usize,
        Err(e) => return Err(Error::InvalidOffset(e.message())),
    };
    let length = match parse_u64_capped(parts[1].as_str(), max) {
        Ok(v) => v as usize,
        Err(e) => return Err(Error::InvalidLength(e.message())),
    };
    let source_index = match parse_u64_capped(parts[2].as_str(), max) {
        Ok(v) => v as usize,
        Err(e) => return Err(Error::InvalidSourceIndex(e.message())),
    };
    Ok(SourceLocation { offset, length, source_index })
}

/// Decoding an encoded location yields the location back, for every offset,
/// length and source index.
pub proof fn lemma_location_round_trip(l: SourceLocation)
    ensures
        spec_decode_location(spec_encode_location(l)) == Ok::<SourceLocation, ErrorModel>(l),
{
    let d_o = dec_digits(l.offset as nat);
    let d_l = dec_digits(l.length as nat);
    let d_i = dec_digits(l.source_index as nat);
    lemma_dec_digits_are_digits(l.offset as nat);
    lemma_dec_digits_are_digits(l.length as nat);
    lemma_dec_digits_are_digits(l.source_index as nat);
    let s = spec_encode_location(l);
    assert(s =~= d_o + seq![':'] + (d_l + seq![':'] + d_i));
    lemma_split_concat(d_o, d_l + seq![':'] + d_i, ':');
    lemma_split_concat(d_l, d_i, ':');
    lemma_split_whole(d_i, ':');
    assert(split_char(s, ':') =~~= seq![d_o, d_l, d_i]);
    lemma_parse_dec_digits(l.offset as nat, usize::MAX as nat);
    lemma_parse_dec_digits(l.length as nat, usize::MAX as nat);
    lemma_parse_dec_digits(l.source_index as nat, usize::MAX as nat);
}

} // verus!
