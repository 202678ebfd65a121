//! Attributes and AS paths in a form to write out.

use vstd::prelude::*;
use vstd::string::*;
use bgpkit_parser::models::{AttrRaw, AttrType};
use crate::bgpkit::{asn_to_string, attr_type_code, decimal};
use crate::models::{AsPath, AsPathSegment};

verus! {

/// The type numbers of `attrs`, in their order.
pub open spec fn attr_type_codes(attrs: Seq<AttrRaw>) -> Seq<u8> {
    Seq::new(attrs.len(), |i: int| attr_type_code(attrs[i].attr_type))
}

/// The type number of each attribute, in the order of the attributes;
/// nothing where there are no attributes to speak of.
pub fn handle_attributes(attr_val: Option<Vec<AttrRaw>>) -> (codes: Option<Vec<u8>>)
    ensures
        attr_val is None <==> codes is None,
        attr_val matches Some(attrs) ==> codes->0@ == attr_type_codes(attrs@),
{
    match attr_val {
        Some(attrs) => {
            let mut series: Vec<u8> = Vec::new();
            let mut i: usize = 0;
            while i < attrs.len()
                invariant
                    i <= attrs.len(),
                    series@.len() == i,
                    forall|j: int| 0 <= j < i ==> series@[j] == attr_type_code(attrs@[j].attr_type),
                decreases attrs.len() - i,
            {
                let code: u8 = match attrs[i].attr_type {
                    AttrType::Unknown(id) => id,
                    other => u8::from(other),
                };
                series.push(code);
                i = i + 1;
            }
            Some(series)
        },
        None => None,
    }
}

/// The numerals of `asns`, one after the other with a space between two.
pub open spec fn spaced_numerals(asns: Seq<u32>) -> Seq<char>
    decreases asns.len(),
{
    if asns.len() == 0 {
        Seq::empty()
    } else if asns.len() == 1 {
        decimal(asns[0] as nat)
    } else {
        spaced_numerals(asns.drop_last()) + seq![' '] + decimal(asns.last() as nat)
    }
}

/// The numerals of `asns`, each as a text of its own.
pub open spec fn numerals(asns: Seq<u32>) -> Seq<Seq<char>> {
    Seq::new(asns.len(), |i: int| decimal(asns[i] as nat))
}

/// What one segment gives to the text of a path: a sequence gives one
/// numeral for each of its systems, a set gives one text, its numerals with
/// spaces between them and braces around them.
pub open spec fn segment_text(segment: AsPathSegment) -> Seq<Seq<char>> {
    match segment {
        AsPathSegment::AsSequence(asns) | AsPathSegment::ConfedSequence(asns) => numerals(asns@),
        AsPathSegment::AsSet(asns) | AsPathSegment::ConfedSet(asns) => seq![
            seq!['{'] + spaced_numerals(asns@) + seq!['}'],
        ],
    }
}

/// The text of a path: what its segments give, one after the other.
pub open spec fn path_text(segments: Seq<AsPathSegment>) -> Seq<Seq<char>>
    decreases segments.len(),
{
    if segments.len() == 0 {
        Seq::empty()
    } else {
        path_text(segments.drop_last()) + segment_text(segments.last())
    }
}

/// Appends the numerals of `asns` to `result`, each as a text of its own.
fn push_numerals(result: &mut Vec<String>, asns: &Vec<u32>)
    ensures
        final(result).deep_view() == old(result).deep_view() + numerals(asns@),
{
    let ghost start = result.deep_view();
    let mut i: usize = 0;
    while i < asns.len()
        invariant
            i <= asns.len(),
            result.deep_view() == start + numerals(asns@.take(i as int)),
        decreases asns.len() - i,
    {
        let ghost before = result.deep_view();
        result.push(asn_to_string(asns[i]));
        proof {
            assert(result.deep_view() =~= before.push(decimal(asns@[i as int] as nat)));
            assert(numerals(asns@.take(i + 1)) =~= numerals(asns@.take(i as int)).push(
                decimal(asns@[i as int] as nat),
            ));
        }
        i = i + 1;
    }
}

/// The numerals of `asns` with a space between two, in braces.
fn braced_numerals(asns: &Vec<u32>) -> (text: String)
    ensures
        text@ == seq!['{'] + spaced_numerals(asns@) + seq!['}'],
{
    let mut joined = String::new();
    let mut i: usize = 0;
    while i < asns.len()
        invariant
            i <= asns.len(),
            joined@ == spaced_numerals(asns@.take(i as int)),
        decreases asns.len() - i,
    {
        proof {
            reveal_strlit(" ");
            assert(asns@.take(i + 1).drop_last() == asns@.take(i as int));
        }
        if i > 0 {
            joined.append(" ");
        }
        let numeral = asn_to_string(asns[i]);
        joined.append(numeral.as_str());
        i = i + 1;
    }
    assert(asns@.take(asns@.len() as int) == asns@);
    let mut text = String::from_str("{");
    text.append(joined.as_str());
    text.append("}");
    proof {
        reveal_strlit("{");
        reveal_strlit("}");
    }
    text
}

/// The path as texts: one numeral for each system of a sequence, and for a
/// set one text `{a b c}` of its numerals.
pub fn format_as_path(path: AsPath) -> (result: Vec<String>)
    ensures
        result.deep_view() == path_text(path.segments@),
{
    let mut result: Vec<String> = Vec::with_capacity(path.segments.len());
    let mut i: usize = 0;
    while i < path.segments.len()
        invariant
            i <= path.segments.len(),
            result.deep_view() == path_text(path.segments@.take(i as int)),
        decreases path.segments.len() - i,
    {
        let ghost before = result.deep_view();
        proof {
            assert(path.segments@.take(i + 1).drop_last() == path.segments@.take(i as int));
        }
        match &path.segments[i] {
            AsPathSegment::AsSequence(as_seq) | AsPathSegment::ConfedSequence(as_seq) => {
                push_numerals(&mut result, as_seq);
            },
            AsPathSegment::AsSet(as_set) | AsPathSegment::ConfedSet(as_set) => {
                result.push(braced_numerals(as_set));
                assert(result.deep_view() =~= before + seq![
                    seq!['{'] + spaced_numerals(as_set@) + seq!['}'],
                ]);
            },
        }
        i = i + 1;
    }
    assert(path.segments@.take(path.segments@.len() as int) == path.segments@);
    result
}

} // verus!
