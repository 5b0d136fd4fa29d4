//! Local request-shaping utilities: the identifier guard and the flattening
//! of structured bad-request reasons into one readable message.

use vstd::prelude::*;
use vstd::string::StrSliceExecFns;
use vstd::string::StringExecFns;

verus! {

/// A character that may appear in an identifier outside the group
/// separators: a hexadecimal digit in either case.
pub open spec fn is_hex_digit(c: char) -> bool {
    ||| ('0' as u32) <= (c as u32) && (c as u32) <= ('9' as u32)
    ||| ('a' as u32) <= (c as u32) && (c as u32) <= ('f' as u32)
    ||| ('A' as u32) <= (c as u32) && (c as u32) <= ('F' as u32)
}

/// Syntactic validity of a record identifier: the canonical hyphenated form,
/// 36 characters, hexadecimal digits in five groups of 8, 4, 4, 4 and 12
/// separated by hyphens. Validity says nothing about whether a record with
/// this identifier exists.
pub open spec fn valid_id(s: Seq<char>) -> bool {
    &&& s.len() == 36
    &&& s[8] == '-'
    &&& s[13] == '-'
    &&& s[18] == '-'
    &&& s[23] == '-'
    &&& forall|i: int|
        0 <= i < 36 && i != 8 && i != 13 && i != 18 && i != 23 ==> is_hex_digit(#[trigger] s[i])
}

/// Decide whether `candidate` can possibly name a remote record, without any
/// remote call: it must have the canonical hyphenated identifier form. A
/// malformed identifier is rejected here so that the operation can settle
/// locally instead of asking the remote side about a name it cannot have.
pub fn is_valid_id(candidate: &str) -> (r: bool)
    ensures
        r == valid_id(candidate@),
{
    let n = candidate.unicode_len();
    if n != 36 {
        return false;
    }
    let mut i: usize = 0;
    while i < 36
        invariant
            0 <= i <= 36,
            candidate@.len() == 36,
            forall|j: int| 0 <= j < i && (j == 8 || j == 13 || j == 18 || j == 23)
                ==> #[trigger] candidate@[j] == '-',
            forall|j: int| 0 <= j < i && j != 8 && j != 13 && j != 18 && j != 23
                ==> is_hex_digit(#[trigger] candidate@[j]),
        decreases 36 - i,
    {
        let c = candidate.get_char(i);
        if i == 8 || i == 13 || i == 18 || i == 23 {
            if c != '-' {
                return false;
            }
        } else {
            let v = c as u32;
            let hex = (('0' as u32) <= v && v <= ('9' as u32)) || (('a' as u32) <= v && v
                <= ('f' as u32)) || (('A' as u32) <= v && v <= ('F' as u32));
            if !hex {
                return false;
            }
        }
        i += 1;
    }
    true
}

/// The parts interleaved with the separator: empty for no parts, and
/// otherwise each part in order with `sep` between neighbours.
pub open spec fn joined(parts: Seq<Seq<char>>, sep: Seq<char>) -> Seq<char>
    decreases parts.len(),
{
    if parts.len() == 0 {
        Seq::empty()
    } else if parts.len() == 1 {
        parts[0]
    } else {
        joined(parts.drop_last(), sep) + sep + parts.last()
    }
}

/// Concatenate the parts with `sep` between neighbours.
pub fn join_parts(parts: &Vec<String>, sep: &str) -> (r: String)
    ensures
        r@ == joined(parts.deep_view(), sep@),
{
    let mut out = String::new();
    let mut i: usize = 0;
    while i < parts.len()
        invariant
            0 <= i <= parts.len(),
            out@ == joined(parts.deep_view().take(i as int), sep@),
        decreases parts.len() - i,
    {
        if i > 0 {
            out.append(sep);
        }
        out.append(parts[i].as_str());
        proof {
            let dv = parts.deep_view();
            assert(dv.take(i + 1).drop_last() =~= dv.take(i as int));
            assert(dv.take(i + 1).last() == dv[i as int]);
        }
        i += 1;
    }
    proof {
        assert(parts.deep_view().take(parts.len() as int) =~= parts.deep_view());
    }
    out
}

/// The single readable message for a structured bad-request body: the
/// field-level reasons joined by a comma and a space, or a fixed generic
/// message when the remote side supplied no reasons at all.
pub open spec fn flat_reasons(reasons: Option<Seq<Seq<char>>>) -> Seq<char> {
    match reasons {
        Option::None => "Request is invalid"@,
        Option::Some(parts) => joined(parts, ", "@),
    }
}

/// Flatten the optional field-level reasons of a bad-request body into one
/// message.
pub fn flatten_reasons(reasons: Option<Vec<String>>) -> (r: String)
    ensures
        r@ == flat_reasons(reasons.deep_view()),
{
    match reasons {
        Option::None => "Request is invalid".to_owned(),
        Option::Some(parts) => join_parts(&parts, ", "),
    }
}

} // verus!
