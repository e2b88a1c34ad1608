//! The access filter: whether a client's address may be served, by the
//! allow-list and the block-list of the configuration.
//!
//! Addresses and networks are plain numbers here. `ipnet` reads a network
//! from its CIDR notation and tests an address against it; the order in which
//! the lists are consulted, and what an entry that does not parse means, is
//! decided and proved in this module.

use crate::config::Config;
use vstd::arithmetic::div_mod::{lemma_basic_div, lemma_div_basics};
use vstd::arithmetic::power2::{lemma2_to64, lemma_pow2_adds, pow2};
use vstd::prelude::*;

verus! {

/// The address of a client: the 32 bits of an IPv4 address or the 128 bits of
/// an IPv6 address, most significant byte first.
#[derive(Clone, Copy, Debug, PartialEq, Eq, Structural)]
pub enum IpAddress {
    V4(u32),
    V6(u128),
}

/// A network: an address and the number of leading bits that name the
/// network.
#[derive(Clone, Copy, Debug, PartialEq, Eq, Structural)]
pub enum Network {
    V4 { addr: u32, prefix_len: u8 },
    V6 { addr: u128, prefix_len: u8 },
}

/// Whether `a` and `b` agree in all but their last `host_bits` bits.
pub open spec fn same_network(a: int, b: int, host_bits: nat) -> bool {
    a / (pow2(host_bits) as int) == b / (pow2(host_bits) as int)
}

impl Network {
    /// The prefix is no longer than an address of the family.
    pub open spec fn wf(self) -> bool {
        match self {
            Network::V4 { addr, prefix_len } => prefix_len <= 32,
            Network::V6 { addr, prefix_len } => prefix_len <= 128,
        }
    }

    /// Whether `ip` lies in the network: it is of the network's family and
    /// has the network's leading bits. A network whose prefix is longer than
    /// an address holds nothing.
    pub open spec fn contains(self, ip: IpAddress) -> bool {
        match (self, ip) {
            (Network::V4 { addr, prefix_len }, IpAddress::V4(ip)) => prefix_len <= 32
                && same_network(addr as int, ip as int, (32 - prefix_len) as nat),
            (Network::V6 { addr, prefix_len }, IpAddress::V6(ip)) => prefix_len <= 128
                && same_network(addr as int, ip as int, (128 - prefix_len) as nat),
            _ => false,
        }
    }

    /// Tests whether `ip` lies in the network.
    pub fn holds(&self, ip: &IpAddress) -> (b: bool)
        ensures
            b == self.contains(*ip),
    {
        match (self, ip) {
            (Network::V4 { addr, prefix_len }, IpAddress::V4(ip)) => *prefix_len <= 32
                && v4_contains(*addr, *prefix_len, *ip),
            (Network::V6 { addr, prefix_len }, IpAddress::V6(ip)) => *prefix_len <= 128
                && v6_contains(*addr, *prefix_len, *ip),
            _ => false,
        }
    }
}

/// The network that `ipnet` reads from a text in CIDR notation, an address
/// and a prefix length with `/` between them; nothing where the text is not
/// in that notation.
pub uninterp spec fn parsed_network(text: Seq<char>) -> Option<Network>;

/// `<ipnet::IpNet as FromStr>::from_str`: reads a network in CIDR notation.
/// What `ipnet` accepts has a prefix no longer than an address of its family.
#[verifier::external_body]
fn parse_network(text: &str) -> (net: Option<Network>)
    ensures
        net == parsed_network(text@),
        net is Some ==> net.unwrap().wf(),
{
    match text.parse::<ipnet::IpNet>() {
        Ok(ipnet::IpNet::V4(n)) => Some(
            Network::V4 { addr: n.addr().into(), prefix_len: n.prefix_len() },
        ),
        Ok(ipnet::IpNet::V6(n)) => Some(
            Network::V6 { addr: n.addr().into(), prefix_len: n.prefix_len() },
        ),
        Err(_) => None,
    }
}

/// `ipnet::Ipv4Net::contains` of an address: the address lies between the
/// first and the last address that share the network's leading bits.
#[verifier::external_body]
fn v4_contains(addr: u32, prefix_len: u8, ip: u32) -> (b: bool)
    requires
        prefix_len <= 32,
    ensures
        b == same_network(addr as int, ip as int, (32 - prefix_len) as nat),
{
    let net = ipnet::Ipv4Net::new(addr.into(), prefix_len).unwrap();
    let host = ipnet::Ipv4Net::new(ip.into(), 32).unwrap();
    net.contains(&host.addr())
}

/// `ipnet::Ipv6Net::contains` of an address: as for IPv4, on 128 bits.
#[verifier::external_body]
fn v6_contains(addr: u128, prefix_len: u8, ip: u128) -> (b: bool)
    requires
        prefix_len <= 128,
    ensures
        b == same_network(addr as int, ip as int, (128 - prefix_len) as nat),
{
    let net = ipnet::Ipv6Net::new(addr.into(), prefix_len).unwrap();
    let host = ipnet::Ipv6Net::new(ip.into(), 128).unwrap();
    net.contains(&host.addr())
}

/// A prefix of no bits names every address of its family, and a prefix of
/// all bits names one address only.
pub proof fn lemma_prefix_lengths_at_the_ends(addr: u32, ip: u32, addr6: u128, ip6: u128)
    ensures
        (Network::V4 { addr, prefix_len: 0 }).contains(IpAddress::V4(ip)),
        (Network::V4 { addr, prefix_len: 32 }).contains(IpAddress::V4(ip)) <==> ip == addr,
        (Network::V6 { addr: addr6, prefix_len: 0 }).contains(IpAddress::V6(ip6)),
        (Network::V6 { addr: addr6, prefix_len: 128 }).contains(IpAddress::V6(ip6)) <==> ip6
            == addr6,
        !(Network::V4 { addr, prefix_len: 0 }).contains(IpAddress::V6(ip6)),
        !(Network::V6 { addr: addr6, prefix_len: 0 }).contains(IpAddress::V4(ip)),
{
    lemma2_to64();
    lemma_pow2_adds(64, 64);
    assert(pow2(128) == 0x1_0000_0000_0000_0000_0000_0000_0000_0000) by (nonlinear_arith)
        requires
            pow2(128) == pow2(64) * pow2(64),
            pow2(64) == 0x1_0000_0000_0000_0000,
    ;
    lemma_basic_div(addr as int, pow2(32) as int);
    lemma_basic_div(ip as int, pow2(32) as int);
    lemma_basic_div(addr6 as int, pow2(128) as int);
    lemma_basic_div(ip6 as int, pow2(128) as int);
    assert(pow2(0) == 1);
    lemma_div_basics(addr as int);
    lemma_div_basics(ip as int);
    lemma_div_basics(addr6 as int);
    lemma_div_basics(ip6 as int);
}

/// Whether `ip` lies in one of `nets`. An entry that is no network matches
/// no address.
pub open spec fn matches_any(nets: Seq<Option<Network>>, ip: IpAddress) -> bool {
    exists|i: int| 0 <= i < nets.len() && (#[trigger] nets[i]) is Some && nets[i].unwrap().contains(ip)
}

/// The decision of the filter. With an allow-list that has entries, an
/// address is admitted exactly if it lies in one of them, and the block-list
/// is not looked at. Otherwise, with a block-list, an address is admitted
/// exactly if it lies in none of its entries. Without lists every address is
/// admitted.
pub open spec fn permitted(
    ip: IpAddress,
    allow: Option<Seq<Option<Network>>>,
    block: Option<Seq<Option<Network>>>,
) -> bool {
    if allow is Some && allow.unwrap().len() > 0 {
        matches_any(allow.unwrap(), ip)
    } else if block is Some {
        !matches_any(block.unwrap(), ip)
    } else {
        true
    }
}

/// The networks that a list of texts names, entry by entry.
pub open spec fn parsed_list(list: Seq<String>) -> Seq<Option<Network>> {
    Seq::new(list.len(), |i: int| parsed_network(list[i]@))
}

/// The networks that an optional list of texts names.
pub open spec fn parsed_lists(list: Option<Vec<String>>) -> Option<Seq<Option<Network>>> {
    match list {
        Some(list) => Some(parsed_list(list@)),
        None => None,
    }
}

/// The networks of an optional list.
pub open spec fn nets_of(list: Option<Vec<Option<Network>>>) -> Option<Seq<Option<Network>>> {
    match list {
        Some(list) => Some(list@),
        None => None,
    }
}

/// With an allow-list that has entries the block-list decides nothing: the
/// filter gives the same answer under any two block-lists, and an address in
/// the allow-list is admitted whatever the block-list holds.
pub proof fn lemma_allow_list_shadows_block_list(
    ip: IpAddress,
    allow: Seq<Option<Network>>,
    block_a: Option<Seq<Option<Network>>>,
    block_b: Option<Seq<Option<Network>>>,
)
    requires
        allow.len() > 0,
    ensures
        permitted(ip, Some(allow), block_a) == permitted(ip, Some(allow), block_b),
        matches_any(allow, ip) ==> permitted(ip, Some(allow), block_a),
        !matches_any(allow, ip) ==> !permitted(ip, Some(allow), block_a),
{
}

/// Without an allow-list, or with an empty one, an address is turned away
/// exactly if the block-list holds it; without both lists nothing is turned
/// away.
pub proof fn lemma_block_list_alone(
    ip: IpAddress,
    allow: Option<Seq<Option<Network>>>,
    block: Option<Seq<Option<Network>>>,
)
    requires
        allow is None || allow.unwrap().len() == 0,
    ensures
        block is Some ==> permitted(ip, allow, block) == !matches_any(block.unwrap(), ip),
        block is None ==> permitted(ip, allow, block),
{
}

/// Tests whether `ip` lies in one of `nets`, stopping at the first that
/// holds it.
pub fn any_holds(nets: &Vec<Option<Network>>, ip: &IpAddress) -> (b: bool)
    ensures
        b == matches_any(nets@, *ip),
{
    let mut i: usize = 0;
    while i < nets.len()
        invariant
            i <= nets.len(),
            forall|j: int| 0 <= j < i ==> !((#[trigger] nets@[j]) is Some && nets@[j].unwrap().contains(*ip)),
        decreases nets.len() - i,
    {
        match &nets[i] {
            Some(net) => {
                if net.holds(ip) {
                    return true;
                }
            },
            None => {},
        }
        i += 1;
    }
    false
}

/// The filter's decision on lists that have been read: see `permitted`.
pub fn permits(
    ip: &IpAddress,
    allow: &Option<Vec<Option<Network>>>,
    block: &Option<Vec<Option<Network>>>,
) -> (b: bool)
    ensures
        b == permitted(*ip, nets_of(*allow), nets_of(*block)),
{
    match allow {
        Some(list) => {
            if list.len() > 0 {
                return any_holds(list, ip);
            }
        },
        None => {},
    }
    match block {
        Some(list) => !any_holds(list, ip),
        None => true,
    }
}

/// Reads each entry of a list as a network.
pub fn parse_list(list: &Vec<String>) -> (nets: Vec<Option<Network>>)
    ensures
        nets@ == parsed_list(list@),
{
    let mut nets: Vec<Option<Network>> = Vec::new();
    let mut i: usize = 0;
    while i < list.len()
        invariant
            i <= list.len(),
            nets@ == parsed_list(list@).take(i as int),
        decreases list.len() - i,
    {
        nets.push(parse_network(list[i].as_str()));
        assert(nets@ =~= parsed_list(list@).take(i + 1));
        i += 1;
    }
    assert(nets@ =~= parsed_list(list@));
    nets
}

/// Reads an optional list.
pub fn parse_lists(list: &Option<Vec<String>>) -> (nets: Option<Vec<Option<Network>>>)
    ensures
        nets_of(nets) == parsed_lists(*list),
{
    match list {
        Some(list) => Some(parse_list(list)),
        None => None,
    }
}

/// Whether a client at `ip` is served under `config`: the filter's decision
/// on the snapshot's two lists, each entry read as a network in CIDR
/// notation.
pub fn allowed(ip: &IpAddress, config: &Config) -> (b: bool)
    ensures
        b == permitted(*ip, parsed_lists(config.allowlist), parsed_lists(config.blocklist)),
{
    let allow = parse_lists(&config.allowlist);
    let block = parse_lists(&config.blocklist);
    permits(ip, &allow, &block)
}

} // verus!
