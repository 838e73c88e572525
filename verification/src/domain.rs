use vstd::prelude::*;
use vstd::string::*;

verus! {

/// What an agent sends to have a host name resolved.
pub struct DomainResolveRequest {
    pub id: String,
    pub name: String,
}

/// What the proxy answers a resolution with: the request's id and name and
/// the IPv4 addresses found, in the order they were found.
pub struct DomainResolveResponse {
    pub id: String,
    pub name: String,
    pub addresses: Vec<[u8; 4]>,
}

/// One address that a name lookup gave.
#[derive(Clone, Copy, Debug)]
pub enum ResolvedAddress {
    V4([u8; 4]),
    V6([u8; 16]),
}

/// A fully qualified name loses its one trailing dot before the lookup.
pub open spec fn normalized_domain_name(name: Seq<char>) -> Seq<char> {
    if name.len() > 0 && name.last() == '.' {
        name.drop_last()
    } else {
        name
    }
}

/// The name to look up for a requested name.
pub fn normalize_domain_name(name: &str) -> (res: String)
    ensures
        res@ == normalized_domain_name(name@),
{
    let n = name.unicode_len();
    if n > 0 && name.get_char(n - 1) == '.' {
        let trimmed = name.substring_char(0, n - 1);
        trimmed.to_owned()
    } else {
        name.to_owned()
    }
}

/// The octets of the IPv4 addresses among `addresses`, in their order; IPv6
/// addresses are left out.
pub open spec fn ipv4_octets(addresses: Seq<ResolvedAddress>) -> Seq<[u8; 4]>
    decreases addresses.len(),
{
    if addresses.len() == 0 {
        Seq::empty()
    } else {
        let rest = ipv4_octets(addresses.drop_last());
        match addresses.last() {
            ResolvedAddress::V4(octets) => rest.push(octets),
            ResolvedAddress::V6(_) => rest,
        }
    }
}

/// The answer to a resolution names exactly the IPv4 addresses that the
/// lookup found: an address is in the answer if and only if the lookup gave
/// it as an IPv4 address, and the answer is never longer than the lookup.
pub proof fn lemma_ipv4_octets_exact(addresses: Seq<ResolvedAddress>)
    ensures
        forall|octets: [u8; 4]|
            #[trigger] ipv4_octets(addresses).contains(octets) <==> addresses.contains(ResolvedAddress::V4(octets)),
        ipv4_octets(addresses).len() <= addresses.len(),
    decreases addresses.len(),
{
    if addresses.len() > 0 {
        let earlier = addresses.drop_last();
        lemma_ipv4_octets_exact(earlier);
        assert forall|octets: [u8; 4]|
            #[trigger] ipv4_octets(addresses).contains(octets) <==> addresses.contains(ResolvedAddress::V4(octets)) by {
            let v = ResolvedAddress::V4(octets);
            if addresses.contains(v) {
                let i = choose|i: int| 0 <= i < addresses.len() && addresses[i] == v;
                if i < addresses.len() - 1 {
                    assert(earlier[i] == v);
                } else {
                    assert(ipv4_octets(addresses).last() == octets);
                }
            }
            if earlier.contains(v) {
                let i = choose|i: int| 0 <= i < earlier.len() && earlier[i] == v;
                assert(addresses[i] == v);
            }
            if ipv4_octets(addresses).contains(octets) {
                let r = ipv4_octets(earlier);
                let j = choose|j: int| 0 <= j < ipv4_octets(addresses).len() && ipv4_octets(addresses)[j] == octets;
                if j < r.len() {
                    assert(r[j] == octets);
                } else {
                    assert(addresses.last() == v);
                    assert(addresses[addresses.len() - 1] == v);
                }
            }
            if ipv4_octets(earlier).contains(octets) {
                let j = choose|j: int| 0 <= j < ipv4_octets(earlier).len() && ipv4_octets(earlier)[j] == octets;
                assert(ipv4_octets(addresses)[j] == octets);
            }
        }
    }
}

/// Filtering splits over concatenation: the IPv4 addresses of two lookups
/// laid end to end are those of the first followed by those of the second.
/// With the single-address cases below, this fixes the order of the answer:
/// the addresses keep the order in which the lookup gave them.
pub proof fn lemma_ipv4_octets_concat(first: Seq<ResolvedAddress>, second: Seq<ResolvedAddress>)
    ensures
        ipv4_octets(first + second) == ipv4_octets(first) + ipv4_octets(second),
    decreases second.len(),
{
    if second.len() == 0 {
        assert(first + second == first);
        assert(ipv4_octets(first) + Seq::<[u8; 4]>::empty() == ipv4_octets(first));
    } else {
        let rest = second.drop_last();
        lemma_ipv4_octets_concat(first, rest);
        assert((first + second).drop_last() == first + rest);
        assert((first + second).last() == second.last());
        match second.last() {
            ResolvedAddress::V4(o) => {
                assert(ipv4_octets(first) + ipv4_octets(rest).push(o) == (ipv4_octets(first) + ipv4_octets(rest)).push(o));
            },
            ResolvedAddress::V6(_) => {},
        }
    }
}

/// A single IPv4 address is kept as its octets; a single IPv6 address is
/// left out.
pub proof fn lemma_ipv4_octets_single(address: ResolvedAddress)
    ensures
        address matches ResolvedAddress::V4(octets) ==> ipv4_octets(seq![address]) == seq![octets],
        address is V6 ==> ipv4_octets(seq![address]) == Seq::<[u8; 4]>::empty(),
{
    assert(seq![address].drop_last() == Seq::<ResolvedAddress>::empty());
    assert(ipv4_octets(Seq::<ResolvedAddress>::empty()) == Seq::<[u8; 4]>::empty());
    if let ResolvedAddress::V4(octets) = address {
        assert(Seq::<[u8; 4]>::empty().push(octets) == seq![octets]);
    }
}

/// A name is looked up as requested, except that one trailing dot is
/// dropped: putting the dot back gives the requested name, and a name
/// without a trailing dot is left as it is.
pub proof fn lemma_normalized_name(name: Seq<char>)
    ensures
        name.len() > 0 && name.last() == '.' ==> normalized_domain_name(name).push('.') == name,
        !(name.len() > 0 && name.last() == '.') ==> normalized_domain_name(name) == name,
{
    if name.len() > 0 && name.last() == '.' {
        assert(name.drop_last().push('.') == name);
    }
}

/// Keeps the IPv4 addresses of a lookup, in order.
pub fn ipv4_addresses(addresses: &Vec<ResolvedAddress>) -> (res: Vec<[u8; 4]>)
    ensures
        res@ == ipv4_octets(addresses@),
{
    let mut res: Vec<[u8; 4]> = Vec::new();
    let mut i: usize = 0;
    while i < addresses.len()
        invariant
            i <= addresses.len(),
            res@ == ipv4_octets(addresses@.take(i as int)),
        decreases addresses.len() - i,
    {
        assert(addresses@.take(i + 1).drop_last() == addresses@.take(i as int));
        match addresses[i] {
            ResolvedAddress::V4(octets) => res.push(octets),
            ResolvedAddress::V6(_) => {},
        }
        i = i + 1;
    }
    assert(addresses@.take(addresses.len() as int) == addresses@);
    res
}

} // verus!
