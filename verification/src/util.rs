//! Small helpers: the octets of an address, `KEY=value` pairs, and the time
//! of a record.

use vstd::prelude::*;
use vstd::string::*;
use crate::address::IpAddress;
use crate::models::MrtRecord;
use crate::timestamp::Timestamp;

verus! {

/// The octets of an address in network order: four of them for a version 4
/// address, sixteen for a version 6 address.
pub fn ip_address_to_v8(ip: IpAddress) -> (octets: Vec<u8>)
    ensures
        octets@ == ip.octets(),
{
    let (count, bits): (u32, u128) = match ip {
        IpAddress::V4(a) => (4, a as u128),
        IpAddress::V6(a) => (16, a),
    };
    let mut octets: Vec<u8> = Vec::new();
    let mut i: u32 = 0;
    while i < count
        invariant
            count == ip.octet_count(),
            bits == ip.bits(),
            i <= count,
            octets@.len() == i,
            forall|j: int| 0 <= j < i ==> octets@[j] == ip.octet(j),
        decreases count - i,
    {
        let shift: u128 = ((count - 1 - i) * 8) as u128;
        let low: u128 = (bits >> shift) & 0xff;
        assert(low <= 0xff) by (bit_vector)
            requires
                low == (bits >> shift) & 0xff,
        ;
        octets.push(low as u8);
        i = i + 1;
    }
    octets
}

/// The time of a record, which is that of its header.
pub fn mrt_record_ts(record: &MrtRecord) -> (ts: Timestamp)
    requires
        record.common_header.has_valid_time(),
    ensures
        ts == record.common_header.time(),
{
    record.common_header.to_timestamp().unwrap()
}

/// `p` is the place of the first `=` in `s`.
pub open spec fn is_first_equals_sign(s: Seq<char>, p: int) -> bool {
    &&& 0 <= p < s.len()
    &&& s[p] == '='
    &&& forall|j: int| 0 <= j < p ==> s[j] != '='
}

/// What is said of a string that holds no `=`.
pub open spec fn missing_equals_sign_message(s: Seq<char>) -> Seq<char> {
    "invalid KEY=value: no `=` found in `"@ + s + "`"@
}

/// Splits `KEY=value` at its first `=` into the key and the value.
///
/// The value may itself hold further `=` signs, and either part may be
/// empty. A string without any `=` is refused, with a message that quotes
/// it.
pub fn parse_key_value(s: &str) -> (r: Result<(String, String), String>)
    ensures
        r is Ok <==> s@.contains('='),
        r matches Ok((key, value)) ==> {
            &&& is_first_equals_sign(s@, key@.len() as int)
            &&& key@ == s@.subrange(0, key@.len() as int)
            &&& value@ == s@.subrange(key@.len() as int + 1, s@.len() as int)
        },
        r matches Err(message) ==> message@ == missing_equals_sign_message(s@),
{
    let len = s.unicode_len();
    let mut pos: usize = 0;
    let mut found = false;
    for c in it: s.chars()
        invariant
            it.seq() == s@,
            len == s@.len(),
            !found ==> pos == it.index() && forall|j: int| 0 <= j < pos ==> s@[j] != '=',
            found ==> is_first_equals_sign(s@, pos as int),
    {
        if !found {
            if c == '=' {
                found = true;
            } else {
                pos = pos + 1;
            }
        }
    }
    if found {
        let key = s.substring_char(0, pos).to_owned();
        let value = s.substring_char(pos + 1, len).to_owned();
        Ok((key, value))
    } else {
        let mut message = String::from_str("invalid KEY=value: no `=` found in `");
        message.append(s);
        message.append("`");
        Err(message)
    }
}

} // verus!
