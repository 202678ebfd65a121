//! Addresses and prefixes, and the keys that maps hold them by.

use vstd::prelude::*;

verus! {

/// What a map of peers is keyed by: the address family (4 or 6), the address
/// as a number, and the autonomous-system number.
pub type PeerKey = (u8, u128, u32);

/// What a route table is keyed by: the address family (4 or 6), the address
/// as a number, the prefix length, and the path identifier.
pub type PrefixKey = (u8, u128, u8, u32);

/// What the announcement tracker is keyed by: the family and number of the
/// peer's address, then the key of the prefix.
pub type PeerPrefixKey = (u8, u128, u8, u128, u8, u32);

/// The `i`-th of the `count` lowest octets of `bits`, counted from the highest
/// of them.
pub open spec fn octet_of(bits: u128, count: int, i: int) -> u128 {
    (bits >> (((count - 1 - i) * 8) as u128)) & 0xff
}

/// `family` and `bits` are the family and the number of an address: the
/// family is 4 and the number fits 32 bits, or the family is 6.
pub open spec fn is_address(family: u8, bits: u128) -> bool {
    (family == 4 && bits <= u32::MAX) || family == 6
}

/// `key` is the key of a prefix.
pub open spec fn is_prefix_key(key: PrefixKey) -> bool {
    is_address(key.0, key.1)
}

/// `key` is the key of a peer.
pub open spec fn is_peer_key(key: PeerKey) -> bool {
    is_address(key.0, key.1)
}

/// An IP address, held as the number that its octets spell in network order.
#[derive(Debug, Clone, Copy, PartialEq, Eq, Hash, Structural)]
pub enum IpAddress {
    V4(u32),
    V6(u128),
}

impl IpAddress {
    /// The address family: 4 or 6.
    pub open spec fn family(self) -> u8 {
        match self {
            IpAddress::V4(_) => 4,
            IpAddress::V6(_) => 6,
        }
    }

    /// The address as a number.
    pub open spec fn bits(self) -> u128 {
        match self {
            IpAddress::V4(a) => a as u128,
            IpAddress::V6(a) => a,
        }
    }

    /// The address of this family and number, where there is one.
    pub open spec fn of_parts(family: u8, bits: u128) -> IpAddress {
        if family == 4 {
            IpAddress::V4(bits as u32)
        } else {
            IpAddress::V6(bits)
        }
    }

    /// The number of octets of the address: 4 or 16.
    pub open spec fn octet_count(self) -> int {
        match self {
            IpAddress::V4(_) => 4,
            IpAddress::V6(_) => 16,
        }
    }

    /// The `i`-th octet in network order, `i` counted from 0.
    pub open spec fn octet(self, i: int) -> u8 {
        octet_of(self.bits(), self.octet_count(), i) as u8
    }

    /// The octets of the address in network order.
    pub open spec fn octets(self) -> Seq<u8> {
        Seq::new(self.octet_count() as nat, |i: int| self.octet(i))
    }

    /// The address that `octets` spell in network order: a version 4
    /// address of four octets, a version 6 address of sixteen. Any other
    /// number of octets spells no address.
    pub fn from_octets(octets: &[u8]) -> (ip: Option<IpAddress>)
        ensures
            ip is Some <==> (octets@.len() == 4 || octets@.len() == 16),
            ip matches Some(address) ==> address.octets() == octets@,
    {
        let count = octets.len();
        if count != 4 && count != 16 {
            return None;
        }
        let mut bits: u128 = 0;
        let mut i: usize = 0;
        assert(0u128 >> 0 == 0) by (bit_vector);
        while i < count
            invariant
                count == octets@.len(),
                count == 4 || count == 16,
                i <= count,
                i < 16 ==> bits >> ((i * 8) as u128) == 0,
                forall|j: int| 0 <= j < i ==> #[trigger] octet_of(bits, i as int, j) == octets@[j],
            decreases count - i,
        {
            let octet: u128 = octets[i] as u128;
            let width: u128 = (i * 8) as u128;
            assert(i + 1 < 16 ==> ((bits << 8) | octet) >> (width + 8) as u128 == 0)
                by (bit_vector)
                requires
                    bits >> width == 0,
                    width <= 120,
                    octet <= 0xff,
            ;
            let next: u128 = (bits << 8) | octet;
            assert forall|j: int| 0 <= j < i + 1 implies #[trigger] octet_of(next, i + 1, j)
                == octets@[j] by {
                let shift: u128 = ((i - j) * 8) as u128;
                if j < i {
                    let before: u128 = ((i - 1 - j) * 8) as u128;
                    assert(octet_of(bits, i as int, j) == octets@[j]);
                    assert((((bits << 8) | octet) >> shift) & 0xff == (bits >> before) & 0xff)
                        by (bit_vector)
                        requires
                            bits >> width == 0,
                            width <= 120,
                            octet <= 0xff,
                            shift == before + 8,
                            before <= 112,
                    ;
                } else {
                    assert((((bits << 8) | octet) >> 0) & 0xff == octet) by (bit_vector)
                        requires
                            octet <= 0xff,
                    ;
                }
            }
            bits = next;
            i = i + 1;
        }
        if count == 4 {
            assert(bits <= 0xffff_ffff) by (bit_vector)
                requires
                    bits >> 32 == 0,
            ;
            Some(IpAddress::V4(bits as u32))
        } else {
            Some(IpAddress::V6(bits))
        }
    }

    /// The family and the number of the address.
    pub fn parts(&self) -> (r: (u8, u128))
        ensures
            r == (self.family(), self.bits()),
    {
        match self {
            IpAddress::V4(a) => (4, *a as u128),
            IpAddress::V6(a) => (6, *a),
        }
    }

    /// The address of this family and number, if there is one: the family
    /// is 4 and the number fits 32 bits, or the family is 6.
    pub fn from_parts(family: u8, bits: u128) -> (ip: Option<IpAddress>)
        ensures
            ip == if is_address(family, bits) {
                Some(IpAddress::of_parts(family, bits))
            } else {
                None
            },
    {
        if family == 4 && bits <= 0xffff_ffff {
            Some(IpAddress::V4(bits as u32))
        } else if family == 6 {
            Some(IpAddress::V6(bits))
        } else {
            None
        }
    }
}

/// A route prefix: an address, the number of its leading bits that count,
/// and a path identifier (0 where the session carries none).
#[derive(Debug, Clone, Copy, PartialEq, Eq, Hash, Structural)]
pub struct NetworkPrefix {
    pub address: IpAddress,
    pub prefix_len: u8,
    pub path_id: u32,
}

impl NetworkPrefix {
    /// The key under which a route table holds this prefix.
    pub open spec fn key(self) -> PrefixKey {
        (self.address.family(), self.address.bits(), self.prefix_len, self.path_id)
    }

    /// The prefix that a route table holds under `key`, where `key` is the
    /// key of a prefix.
    pub open spec fn of_key(key: PrefixKey) -> NetworkPrefix {
        NetworkPrefix {
            address: IpAddress::of_parts(key.0, key.1),
            prefix_len: key.2,
            path_id: key.3,
        }
    }

    /// The key under which a route table holds this prefix.
    pub fn to_key(&self) -> (k: PrefixKey)
        ensures
            k == self.key(),
            is_prefix_key(k),
    {
        let (family, bits) = self.address.parts();
        (family, bits, self.prefix_len, self.path_id)
    }

    /// The prefix that a route table holds under `key`, if `key` is the key
    /// of a prefix.
    pub fn from_key(key: PrefixKey) -> (prefix: Option<NetworkPrefix>)
        ensures
            prefix == if is_prefix_key(key) {
                Some(NetworkPrefix::of_key(key))
            } else {
                None
            },
    {
        match IpAddress::from_parts(key.0, key.1) {
            Some(address) => Some(NetworkPrefix { address, prefix_len: key.2, path_id: key.3 }),
            None => None,
        }
    }
}

/// The key of a peer's address together with a prefix.
pub open spec fn peer_prefix_key(peer_ip: IpAddress, prefix: NetworkPrefix) -> PeerPrefixKey {
    (
        peer_ip.family(),
        peer_ip.bits(),
        prefix.address.family(),
        prefix.address.bits(),
        prefix.prefix_len,
        prefix.path_id,
    )
}

/// Two addresses with the same family and number are the same address.
pub proof fn lemma_address_parts_are_injective(a: IpAddress, b: IpAddress)
    requires
        a.family() == b.family(),
        a.bits() == b.bits(),
    ensures
        a == b,
{
}

/// Two addresses with the same octets are the same address.
pub proof fn lemma_octets_are_injective(a: IpAddress, b: IpAddress)
    requires
        a.octets() == b.octets(),
    ensures
        a == b,
{
    let x = a.bits();
    let y = b.bits();
    let count = a.octet_count();
    assert(b.octet_count() == count) by {
        assert(b.octets().len() == b.octet_count());
    }
    assert forall|i: int| 0 <= i < count implies #[trigger] octet_of(x, count, i) == octet_of(
        y,
        count,
        i,
    ) by {
        let shift = ((count - 1 - i) * 8) as u128;
        assert(b.octets()[i] == b.octet(i));
        assert((x >> shift) & 0xff <= 0xff) by (bit_vector);
        assert((y >> shift) & 0xff <= 0xff) by (bit_vector);
    }
    match a {
        IpAddress::V4(_) => {
            lemma_four_octets(x, y);
        },
        IpAddress::V6(_) => {
            lemma_sixteen_octets(x, y);
        },
    }
    lemma_address_parts_are_injective(a, b);
}

/// Two numbers of 32 bits with the same four octets are the same.
proof fn lemma_four_octets(x: u128, y: u128)
    requires
        x <= 0xffff_ffff,
        y <= 0xffff_ffff,
        forall|i: int| 0 <= i < 4 ==> #[trigger] octet_of(x, 4, i) == octet_of(y, 4, i),
    ensures
        x == y,
{
    assert((x >> 24) & 0xff == (y >> 24) & 0xff) by {
        assert(octet_of(x, 4, 0) == octet_of(y, 4, 0));
    }
    assert((x >> 16) & 0xff == (y >> 16) & 0xff) by {
        assert(octet_of(x, 4, 1) == octet_of(y, 4, 1));
    }
    assert((x >> 8) & 0xff == (y >> 8) & 0xff) by {
        assert(octet_of(x, 4, 2) == octet_of(y, 4, 2));
    }
    assert((x >> 0) & 0xff == (y >> 0) & 0xff) by {
        assert(octet_of(x, 4, 3) == octet_of(y, 4, 3));
    }
    assert(x == y) by (bit_vector)
        requires
            x <= 0xffff_ffff,
            y <= 0xffff_ffff,
            (x >> 24) & 0xff == (y >> 24) & 0xff,
            (x >> 16) & 0xff == (y >> 16) & 0xff,
            (x >> 8) & 0xff == (y >> 8) & 0xff,
            (x >> 0) & 0xff == (y >> 0) & 0xff,
    ;
}

/// Two numbers of 128 bits with the same sixteen octets are the same.
proof fn lemma_sixteen_octets(x: u128, y: u128)
    requires
        forall|i: int| 0 <= i < 16 ==> #[trigger] octet_of(x, 16, i) == octet_of(y, 16, i),
    ensures
        x == y,
{
    assert((x >> 120) & 0xff == (y >> 120) & 0xff) by {
        assert(octet_of(x, 16, 0) == octet_of(y, 16, 0));
    }
    assert((x >> 112) & 0xff == (y >> 112) & 0xff) by {
        assert(octet_of(x, 16, 1) == octet_of(y, 16, 1));
    }
    assert((x >> 104) & 0xff == (y >> 104) & 0xff) by {
        assert(octet_of(x, 16, 2) == octet_of(y, 16, 2));
    }
    assert((x >> 96) & 0xff == (y >> 96) & 0xff) by {
        assert(octet_of(x, 16, 3) == octet_of(y, 16, 3));
    }
    assert((x >> 88) & 0xff == (y >> 88) & 0xff) by {
        assert(octet_of(x, 16, 4) == octet_of(y, 16, 4));
    }
    assert((x >> 80) & 0xff == (y >> 80) & 0xff) by {
        assert(octet_of(x, 16, 5) == octet_of(y, 16, 5));
    }
    assert((x >> 72) & 0xff == (y >> 72) & 0xff) by {
        assert(octet_of(x, 16, 6) == octet_of(y, 16, 6));
    }
    assert((x >> 64) & 0xff == (y >> 64) & 0xff) by {
        assert(octet_of(x, 16, 7) == octet_of(y, 16, 7));
    }
    assert((x >> 56) & 0xff == (y >> 56) & 0xff) by {
        assert(octet_of(x, 16, 8) == octet_of(y, 16, 8));
    }
    assert((x >> 48) & 0xff == (y >> 48) & 0xff) by {
        assert(octet_of(x, 16, 9) == octet_of(y, 16, 9));
    }
    assert((x >> 40) & 0xff == (y >> 40) & 0xff) by {
        assert(octet_of(x, 16, 10) == octet_of(y, 16, 10));
    }
    assert((x >> 32) & 0xff == (y >> 32) & 0xff) by {
        assert(octet_of(x, 16, 11) == octet_of(y, 16, 11));
    }
    assert((x >> 24) & 0xff == (y >> 24) & 0xff) by {
        assert(octet_of(x, 16, 12) == octet_of(y, 16, 12));
    }
    assert((x >> 16) & 0xff == (y >> 16) & 0xff) by {
        assert(octet_of(x, 16, 13) == octet_of(y, 16, 13));
    }
    assert((x >> 8) & 0xff == (y >> 8) & 0xff) by {
        assert(octet_of(x, 16, 14) == octet_of(y, 16, 14));
    }
    assert((x >> 0) & 0xff == (y >> 0) & 0xff) by {
        assert(octet_of(x, 16, 15) == octet_of(y, 16, 15));
    }
    assert(x == y) by (bit_vector)
        requires
            (x >> 120) & 0xff == (y >> 120) & 0xff,
            (x >> 112) & 0xff == (y >> 112) & 0xff,
            (x >> 104) & 0xff == (y >> 104) & 0xff,
            (x >> 96) & 0xff == (y >> 96) & 0xff,
            (x >> 88) & 0xff == (y >> 88) & 0xff,
            (x >> 80) & 0xff == (y >> 80) & 0xff,
            (x >> 72) & 0xff == (y >> 72) & 0xff,
            (x >> 64) & 0xff == (y >> 64) & 0xff,
            (x >> 56) & 0xff == (y >> 56) & 0xff,
            (x >> 48) & 0xff == (y >> 48) & 0xff,
            (x >> 40) & 0xff == (y >> 40) & 0xff,
            (x >> 32) & 0xff == (y >> 32) & 0xff,
            (x >> 24) & 0xff == (y >> 24) & 0xff,
            (x >> 16) & 0xff == (y >> 16) & 0xff,
            (x >> 8) & 0xff == (y >> 8) & 0xff,
            (x >> 0) & 0xff == (y >> 0) & 0xff,
    ;
}

/// Two prefixes with the same key are the same prefix.
pub proof fn lemma_prefix_key_is_injective(p: NetworkPrefix, q: NetworkPrefix)
    requires
        p.key() == q.key(),
    ensures
        p == q,
{
    lemma_address_parts_are_injective(p.address, q.address);
}

/// Prefixes and their keys stand for each other: the key of a prefix is the
/// key of a prefix and gives the prefix back, and a key of a prefix is the
/// key of the prefix that it gives.
pub proof fn lemma_prefix_and_key(p: NetworkPrefix, key: PrefixKey)
    ensures
        is_prefix_key(p.key()),
        NetworkPrefix::of_key(p.key()) == p,
        is_prefix_key(key) ==> NetworkPrefix::of_key(key).key() == key,
{
}

} // verus!
