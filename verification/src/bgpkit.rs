//! What the library takes from `bgpkit_parser`: the types it carries along
//! or reads, and the two functions it calls.

use vstd::prelude::*;
use bgpkit_parser::models::{Asn, AttrRaw, AttrType, ElemType, MetaCommunity, OptParam, Origin};

verus! {

/// `bgpkit_parser::models::BgpState`, the session state that a state-change
/// record names. Nothing is claimed of it: its six variants are read as the
/// crate defines them.
#[verifier::external_type_specification]
pub struct ExBgpState(bgpkit_parser::models::BgpState);

/// `bgpkit_parser::models::ElemType`: an element announces or withdraws.
/// Nothing is claimed of it: its two variants are read as the crate defines
/// them.
#[verifier::external_type_specification]
pub struct ExElemType(ElemType);

/// `bgpkit_parser::models::Origin`. The origin attribute is carried along
/// with its route and never looked into.
#[verifier::external_type_specification]
#[verifier::external_body]
pub struct ExOrigin(Origin);

/// `bgpkit_parser::models::AttrType`, the type of a path attribute. Nothing
/// is claimed of it: its variants are read as the crate defines them.
#[verifier::external_type_specification]
pub struct ExAttrType(AttrType);

/// `bgpkit_parser::models::AttrRaw`: an attribute's type and its bytes.
/// Nothing is claimed of it: its two fields are read as the crate defines
/// them.
#[verifier::external_type_specification]
pub struct ExAttrRaw(AttrRaw);

/// `bgpkit_parser::models::MetaCommunity`. A community is carried along with
/// its route and never looked into.
#[verifier::external_type_specification]
#[verifier::external_body]
pub struct ExMetaCommunity(MetaCommunity);

/// `bgpkit_parser::models::OptParam`. The optional parameters of an open
/// message are kept with the session and never looked into.
#[verifier::external_type_specification]
#[verifier::external_body]
pub struct ExOptParam(OptParam);

/// The number that stands for an attribute type on the wire: the number
/// that the crate assigns to each named type, and the number that an
/// unknown type carries.
pub open spec fn attr_type_code(attr_type: AttrType) -> u8 {
    match attr_type {
        AttrType::RESERVED => 0,
        AttrType::ORIGIN => 1,
        AttrType::AS_PATH => 2,
        AttrType::NEXT_HOP => 3,
        AttrType::MULTI_EXIT_DISCRIMINATOR => 4,
        AttrType::LOCAL_PREFERENCE => 5,
        AttrType::ATOMIC_AGGREGATE => 6,
        AttrType::AGGREGATOR => 7,
        AttrType::COMMUNITIES => 8,
        AttrType::ORIGINATOR_ID => 9,
        AttrType::CLUSTER_LIST => 10,
        AttrType::CLUSTER_ID => 13,
        AttrType::MP_REACHABLE_NLRI => 14,
        AttrType::MP_UNREACHABLE_NLRI => 15,
        AttrType::EXTENDED_COMMUNITIES => 16,
        AttrType::AS4_PATH => 17,
        AttrType::AS4_AGGREGATOR => 18,
        AttrType::PMSI_TUNNEL => 22,
        AttrType::TUNNEL_ENCAPSULATION => 23,
        AttrType::TRAFFIC_ENGINEERING => 24,
        AttrType::IPV6_ADDRESS_SPECIFIC_EXTENDED_COMMUNITIES => 25,
        AttrType::AIGP => 26,
        AttrType::PE_DISTINGUISHER_LABELS => 27,
        AttrType::BGP_LS_ATTRIBUTE => 29,
        AttrType::LARGE_COMMUNITIES => 32,
        AttrType::BGPSEC_PATH => 33,
        AttrType::ONLY_TO_CUSTOMER => 35,
        AttrType::SFP_ATTRIBUTE => 37,
        AttrType::BFD_DISCRIMINATOR => 38,
        AttrType::BGP_PREFIX_SID => 40,
        AttrType::ATTR_SET => 128,
        AttrType::DEVELOPMENT => 255,
        AttrType::Unknown(code) => code,
    }
}

/// `u8::from` for `bgpkit_parser::models::AttrType`, which the crate derives
/// with `num_enum::IntoPrimitive`: an unknown type gives the number it
/// carries, every other type the number of its variant.
pub assume_specification[ <u8 as core::convert::From<AttrType>>::from ](
    attr_type: AttrType,
) -> (code: u8)
    ensures
        code == attr_type_code(attr_type),
;

/// The decimal digit that stands for `d`.
pub open spec fn decimal_digit(d: nat) -> char {
    seq!['0', '1', '2', '3', '4', '5', '6', '7', '8', '9'][d as int]
}

/// The decimal numeral of `n`, without sign or leading zeros.
pub open spec fn decimal(n: nat) -> Seq<char>
    decreases n,
{
    if n < 10 {
        seq![decimal_digit(n)]
    } else {
        decimal(n / 10).push(decimal_digit(n % 10))
    }
}

/// `to_string` of the `bgpkit_parser::models::Asn` that `Asn::new_32bit`
/// makes of `asn`. The `Display` of an `Asn` writes the number of the
/// autonomous system in decimal, with nothing around it.
#[verifier::external_body]
pub(crate) fn asn_to_string(asn: u32) -> (text: String)
    ensures
        text@ == decimal(asn as nat),
{
    Asn::new_32bit(asn).to_string()
}

} // verus!
