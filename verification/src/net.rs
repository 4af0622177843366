//! IP addresses and networks, and how the address of a reporter is resolved
//! behind trusted proxies.
use vstd::prelude::*;
use crate::text::{split_char, split_on, string_from_chars, trim, trimmed};

verus! {

/// An IP address: IPv4 as its 32 bits, IPv6 as its 128 bits.
#[derive(Debug, Clone, Copy, PartialEq, Eq, Structural)]
pub enum IpValue {
    V4(u32),
    V6(u128),
}

/// An IP network: an address and a prefix length (at most 32 for IPv4 and 128
/// for IPv6).
#[derive(Debug, Clone, Copy, PartialEq, Eq, Structural)]
pub enum IpNetwork {
    V4 { addr: u32, prefix_len: u8 },
    V6 { addr6: u128, prefix_len6: u8 },
}

impl IpNetwork {
    pub open spec fn wf(self) -> bool {
        match self {
            IpNetwork::V4 { prefix_len, .. } => prefix_len <= 32,
            IpNetwork::V6 { prefix_len6, .. } => prefix_len6 <= 128,
        }
    }
}

pub open spec fn v4_netmask(p: u8) -> u32 {
    if p == 0 {
        0
    } else {
        u32::MAX << ((32 - p) as u32)
    }
}

pub open spec fn v4_hostmask(p: u8) -> u32 {
    if p >= 32 {
        0
    } else {
        u32::MAX >> (p as u32)
    }
}

pub open spec fn v6_netmask(p: u8) -> u128 {
    if p == 0 {
        0
    } else {
        u128::MAX << ((128 - p) as u32)
    }
}

pub open spec fn v6_hostmask(p: u8) -> u128 {
    if p >= 128 {
        0
    } else {
        u128::MAX >> (p as u32)
    }
}

/// Whether `net` contains `ip`: same family, and `ip` lies between the network
/// address (`addr & netmask`) and the broadcast address (`addr | hostmask`).
pub open spec fn net_contains(net: IpNetwork, ip: IpValue) -> bool {
    match (net, ip) {
        (IpNetwork::V4 { addr, prefix_len }, IpValue::V4(a)) => (addr & v4_netmask(prefix_len)) <= a
            && a <= (addr | v4_hostmask(prefix_len)),
        (IpNetwork::V6 { addr6, prefix_len6 }, IpValue::V6(a)) => (addr6 & v6_netmask(prefix_len6))
            <= a && a <= (addr6 | v6_hostmask(prefix_len6)),
        _ => false,
    }
}

#[verifier::rlimit(100)]
proof fn lemma_v6_prefix_match(addr: u128, a: u128, s: u32)
    requires
        0 < s < 128,
    ensures
        ((addr & (u128::MAX << s)) <= a && a <= (addr | (u128::MAX >> ((128 - s) as u32)))) == ((a
            >> s) == (addr >> s)),
{
    assert(((addr & (u128::MAX << s)) <= a && a <= (addr | (u128::MAX >> ((128 - s) as u32)))) == ((
    a >> s) == (addr >> s))) by (bit_vector)
        requires
            0 < s < 128,
    ;
}

proof fn lemma_v4_prefix_match(addr: u32, a: u32, s: u32)
    requires
        0 < s < 32,
    ensures
        ((addr & (u32::MAX << s)) <= a && a <= (addr | (u32::MAX >> ((32 - s) as u32)))) == ((a >> s)
            == (addr >> s)),
{
    assert(((addr & (u32::MAX << s)) <= a && a <= (addr | (u32::MAX >> ((32 - s) as u32)))) == ((a
        >> s) == (addr >> s))) by (bit_vector)
        requires
            0 < s < 32,
    ;
}

/// IPv6 containment follows the prefix: an address lies in a network of prefix
/// length `p` exactly when its first `p` bits are those of the network address;
/// a network of prefix length 0 holds every address, and one of length 128 only
/// its own address.
pub proof fn lemma_v6_contains_by_prefix(addr6: u128, p: u8, a: u128)
    requires
        p <= 128,
    ensures
        p == 0 ==> net_contains(IpNetwork::V6 { addr6, prefix_len6: p }, IpValue::V6(a)),
        p == 128 ==> (net_contains(IpNetwork::V6 { addr6, prefix_len6: p }, IpValue::V6(a)) <==> a
            == addr6),
        0 < p ==> (net_contains(IpNetwork::V6 { addr6, prefix_len6: p }, IpValue::V6(a)) <==> (a
            >> ((128 - p) as u32)) == (addr6 >> ((128 - p) as u32))),
{
    if p == 0 {
        assert(0u128 <= a && a <= (addr6 | u128::MAX)) by (bit_vector);
        assert(addr6 & 0u128 == 0u128) by (bit_vector);
        assert(u128::MAX >> 0u32 == u128::MAX) by (bit_vector);
    } else if p == 128 {
        assert(addr6 & (u128::MAX << 0u32) == addr6) by (bit_vector);
        assert(addr6 | 0u128 == addr6) by (bit_vector);
        assert(a >> 0u32 == a && addr6 >> 0u32 == addr6) by (bit_vector);
    } else {
        let s: u32 = (128 - p) as u32;
        assert(v6_hostmask(p) == u128::MAX >> ((128 - s) as u32));
        lemma_v6_prefix_match(addr6, a, s);
    }
}

/// IPv4 containment follows the prefix, as for IPv6.
pub proof fn lemma_v4_contains_by_prefix(addr: u32, p: u8, a: u32)
    requires
        p <= 32,
    ensures
        p == 0 ==> net_contains(IpNetwork::V4 { addr, prefix_len: p }, IpValue::V4(a)),
        p == 32 ==> (net_contains(IpNetwork::V4 { addr, prefix_len: p }, IpValue::V4(a)) <==> a
            == addr),
        0 < p ==> (net_contains(IpNetwork::V4 { addr, prefix_len: p }, IpValue::V4(a)) <==> (a >> ((
        32 - p) as u32)) == (addr >> ((32 - p) as u32))),
{
    if p == 0 {
        assert(0u32 <= a && a <= (addr | u32::MAX)) by (bit_vector);
        assert(addr & 0u32 == 0u32) by (bit_vector);
        assert(u32::MAX >> 0u32 == u32::MAX) by (bit_vector);
    } else if p == 32 {
        assert(addr & (u32::MAX << 0u32) == addr) by (bit_vector);
        assert(addr | 0u32 == addr) by (bit_vector);
        assert(a >> 0u32 == a && addr >> 0u32 == addr) by (bit_vector);
    } else {
        let s: u32 = (32 - p) as u32;
        assert(v4_hostmask(p) == u32::MAX >> ((32 - s) as u32));
        lemma_v4_prefix_match(addr, a, s);
    }
}

/// Networks and addresses of different families never match.
pub proof fn lemma_families_never_match(net: IpNetwork, ip: IpValue)
    requires
        (net is V4) != (ip is V4),
    ensures
        !net_contains(net, ip),
{
}

/// Whether some network of `nets` contains `ip`.
pub open spec fn is_trusted(ip: IpValue, nets: Seq<IpNetwork>) -> bool {
    exists|i: int| 0 <= i < nets.len() && net_contains(#[trigger] nets[i], ip)
}

/// Whether `net` contains `ip`.
pub fn contains(net: IpNetwork, ip: IpValue) -> (res: bool)
    requires
        net.wf(),
    ensures
        res == net_contains(net, ip),
{
    match (net, ip) {
        (IpNetwork::V4 { addr, prefix_len }, IpValue::V4(a)) => {
            let netmask: u32 = if prefix_len == 0 {
                0
            } else {
                u32::MAX << (32 - prefix_len as u32)
            };
            let hostmask: u32 = if prefix_len >= 32 {
                0
            } else {
                u32::MAX >> (prefix_len as u32)
            };
            (addr & netmask) <= a && a <= (addr | hostmask)
        },
        (IpNetwork::V6 { addr6, prefix_len6 }, IpValue::V6(a)) => {
            let netmask: u128 = if prefix_len6 == 0 {
                0
            } else {
                u128::MAX << (128 - prefix_len6 as u32)
            };
            let hostmask: u128 = if prefix_len6 >= 128 {
                0
            } else {
                u128::MAX >> (prefix_len6 as u32)
            };
            (addr6 & netmask) <= a && a <= (addr6 | hostmask)
        },
        _ => false,
    }
}

/// Whether some network of `nets` contains `ip`.
pub fn is_trusted_ip(ip: IpValue, nets: &[IpNetwork]) -> (res: bool)
    requires
        forall|i: int| 0 <= i < nets@.len() ==> (#[trigger] nets@[i]).wf(),
    ensures
        res == is_trusted(ip, nets@),
{
    let n = nets.len();
    for i in 0..n
        invariant
            n == nets@.len(),
            forall|k: int| 0 <= k < nets@.len() ==> (#[trigger] nets@[k]).wf(),
            forall|k: int| 0 <= k < i ==> !net_contains(#[trigger] nets@[k], ip),
    {
        if contains(nets[i], ip) {
            return true;
        }
    }
    false
}

/// The entries of an `X-Forwarded-For` header: the comma-separated pieces,
/// each without surrounding white space.
pub open spec fn forwarded_entries_of(header: Seq<char>) -> Seq<Seq<char>> {
    split_char(header, ',').map_values(|p: Seq<char>| trimmed(p))
}

/// Splits an `X-Forwarded-For` header into its trimmed entries.
pub fn forwarded_entries(header: &str) -> (res: Vec<String>)
    ensures
        res@.len() == forwarded_entries_of(header@).len(),
        forall|i: int| 0 <= i < res@.len() ==> #[trigger] res@[i]@ == forwarded_entries_of(header@)[i],
{
    let chars = crate::text::to_chars(header);
    let parts = split_on(chars.as_slice(), ',');
    let n = parts.len();
    let mut res: Vec<String> = Vec::new();
    for i in 0..n
        invariant
            n == parts@.len() == split_char(header@, ',').len(),
            chars@ == header@,
            forall|t: int| 0 <= t < parts@.len() ==> #[trigger] parts@[t]@ == split_char(header@, ',')[t],
            res@.len() == i,
            forall|t: int| 0 <= t < i ==> #[trigger] res@[t]@ == forwarded_entries_of(header@)[t],
    {
        let piece = trim(parts[i].as_slice());
        res.push(string_from_chars(piece));
    }
    res
}

/// Walks the entries of `X-Forwarded-For`, each already read as an address (or
/// not), from the last one back, skipping trusted proxies: the first untrusted
/// address is the origin; an entry that is not an address ends the walk with none.
pub open spec fn origin_in(entries: Seq<Option<IpValue>>, nets: Seq<IpNetwork>) -> Option<IpValue>
    decreases entries.len(),
{
    if entries.len() == 0 {
        None
    } else {
        match entries.last() {
            Some(ip) => if is_trusted(ip, nets) {
                origin_in(entries.drop_last(), nets)
            } else {
                Some(ip)
            },
            None => None,
        }
    }
}

/// The address of a client: the peer itself, unless the peer is a trusted proxy
/// that forwarded an `X-Forwarded-For` header naming an untrusted origin.
pub open spec fn client_ip(peer: IpValue, forwarded: Option<Seq<Option<IpValue>>>, nets: Seq<IpNetwork>) -> IpValue {
    if is_trusted(peer, nets) {
        match forwarded {
            Some(entries) => match origin_in(entries, nets) {
                Some(ip) => ip,
                None => peer,
            },
            None => peer,
        }
    } else {
        peer
    }
}

/// The origin named by the read entries of `X-Forwarded-For`, if any.
pub fn origin_of(entries: &[Option<IpValue>], nets: &[IpNetwork]) -> (res: Option<IpValue>)
    requires
        forall|i: int| 0 <= i < nets@.len() ==> (#[trigger] nets@[i]).wf(),
    ensures
        res == origin_in(entries@, nets@),
{
    let mut k: usize = entries.len();
    assert(entries@.take(k as int) =~= entries@);
    let mut candidate: Option<IpValue> = None;
    while k > 0
        invariant_except_break
            candidate is None,
        invariant
            k <= entries@.len(),
            forall|i: int| 0 <= i < nets@.len() ==> (#[trigger] nets@[i]).wf(),
            origin_in(entries@, nets@) == origin_in(entries@.take(k as int), nets@),
        ensures
            candidate == origin_in(entries@, nets@),
        decreases k,
    {
        let ghost pre = entries@.take(k as int);
        assert(pre.last() == entries@[k - 1]);
        assert(pre.drop_last() =~= entries@.take(k - 1));
        if k == 1 {
            assert(entries@.take(0) =~= Seq::<Option<IpValue>>::empty());
        }
        match entries[k - 1] {
            Some(ip) => {
                if is_trusted_ip(ip, nets) {
                    k = k - 1;
                } else {
                    candidate = Some(ip);
                    break;
                }
            },
            None => {
                break;
            },
        }
    }
    candidate
}

/// Resolves the real address of a client. The forwarded entries are heeded only
/// when the connection comes from a trusted proxy; otherwise the connection's
/// address is the client's.
pub fn resolve_client_ip(peer: IpValue, forwarded: Option<&[Option<IpValue>]>, nets: &[IpNetwork]) -> (res: IpValue)
    requires
        forall|i: int| 0 <= i < nets@.len() ==> (#[trigger] nets@[i]).wf(),
    ensures
        res == client_ip(
            peer,
            match forwarded {
                Some(h) => Some(h@),
                None => None,
            },
            nets@,
        ),
{
    if !is_trusted_ip(peer, nets) {
        return peer;
    }
    match forwarded {
        Some(entries) => match origin_of(entries, nets) {
            Some(ip) => ip,
            None => peer,
        },
        None => peer,
    }
}

/// An untrusted connection is never taken for anyone else: its own address is
/// the client's, whatever headers it sends.
pub proof fn lemma_untrusted_peer_is_client(
    peer: IpValue,
    forwarded: Option<Seq<Option<IpValue>>>,
    nets: Seq<IpNetwork>,
)
    requires
        !is_trusted(peer, nets),
    ensures
        client_ip(peer, forwarded, nets) == peer,
{
}

/// The resolved origin is never a trusted proxy, unless it is the peer itself.
pub proof fn lemma_origin_untrusted(entries: Seq<Option<IpValue>>, nets: Seq<IpNetwork>)
    ensures
        origin_in(entries, nets) matches Some(ip) ==> !is_trusted(ip, nets),
    decreases entries.len(),
{
    if entries.len() > 0 {
        lemma_origin_untrusted(entries.drop_last(), nets);
    }
}

} // verus!
