//! Which client this is, and what is remembered of it: the account that it signed in
//! with and how it wants the desktop shown. No password is ever part of it.

use std::collections::HashMap;

use vstd::prelude::*;

use crate::text::same_text;

verus! {

/// The version of the file of remembered clients.
pub const TRUST_SCHEMA_VERSION: u32 = 1;

/// The size that the status of the private network may have: 16 MiB.
pub const MAX_TAILSCALE_STATUS_BYTES: usize = 16777216;

/// How many bytes a name in the private network may have.
pub const MAX_NAME_BYTES: usize = 128;

/// The address of a client.
#[derive(Debug, Clone, Copy, PartialEq, Eq, Structural)]
pub enum ClientAddress {
    V4(u32),
    V6(u128),
}

/// The address `::ffff:0.0.0.0`, behind which version 6 holds the addresses of
/// version 4.
pub const MAPPED_BASE: u128 = 0xffff00000000;

impl ClientAddress {
    /// The address with those of version 4 that version 6 holds as what they are.
    pub open spec fn canonical(self) -> ClientAddress {
        match self {
            ClientAddress::V4(number) => self,
            ClientAddress::V6(number) => if MAPPED_BASE <= number < MAPPED_BASE + 0x100000000 {
                ClientAddress::V4((number - MAPPED_BASE) as u32)
            } else {
                self
            },
        }
    }

    /// The address as a number of version 6.
    pub open spec fn as_number(self) -> u128 {
        match self {
            ClientAddress::V4(number) => (MAPPED_BASE + number) as u128,
            ClientAddress::V6(number) => number,
        }
    }

    /// The address with those of version 4 that version 6 holds as what they are.
    pub fn normalized(self) -> (address: ClientAddress)
        ensures
            address == self.canonical(),
    {
        match self {
            ClientAddress::V4(_) => self,
            ClientAddress::V6(number) => {
                if MAPPED_BASE <= number && number < MAPPED_BASE + 0x100000000 {
                    ClientAddress::V4((number - MAPPED_BASE) as u32)
                } else {
                    self
                }
            },
        }
    }

    /// The address as a number of version 6.
    pub fn number(self) -> (number: u128)
        ensures
            number == self.as_number(),
    {
        match self {
            ClientAddress::V4(number) => MAPPED_BASE + number as u128,
            ClientAddress::V6(number) => number,
        }
    }
}

/// Two addresses are the same client's exactly where their numbers agree.
pub proof fn law_numbers_tell_addresses_apart(a: ClientAddress, b: ClientAddress)
    ensures
        a.as_number() == b.as_number() <==> a.canonical() == b.canonical(),
{
}

/// Who a client is.
pub struct ClientIdentity {
    key: String,
    label: String,
    tailscale: bool,
}

/// Who a client is, as values: the key under which it is remembered, what it is
/// called, and whether the private network vouches for it.
#[verifier::ext_equal]
pub struct IdentityModel {
    pub key: Seq<char>,
    pub label: Seq<char>,
    pub tailscale: bool,
}

impl View for ClientIdentity {
    type V = IdentityModel;

    closed spec fn view(&self) -> IdentityModel {
        IdentityModel { key: self.key@, label: self.label@, tailscale: self.tailscale }
    }
}

impl Clone for ClientIdentity {
    fn clone(&self) -> (copy: Self)
        ensures
            copy@ == self@,
    {
        ClientIdentity {
            key: self.key.clone(),
            label: self.label.clone(),
            tailscale: self.tailscale,
        }
    }
}

impl IdentityModel {
    /// The client at an address.
    pub open spec fn at_address(address: Seq<char>) -> IdentityModel {
        IdentityModel { key: "address:"@ + address, label: address, tailscale: false }
    }

    /// A node of the private network.
    pub open spec fn of_node(stable_id: Seq<char>, label: Seq<char>) -> IdentityModel {
        IdentityModel { key: "tailscale:"@ + stable_id, label, tailscale: true }
    }

    /// What the sign-in form says of remembering this client.
    pub open spec fn detail(self) -> Seq<char> {
        if self.tailscale {
            self.label + " via Tailscale; no password is stored"@
        } else {
            "Trust address "@ + self.label + "; no password is stored"@
        }
    }
}

impl ClientIdentity {
    /// The key under which the client is remembered.
    pub fn key(&self) -> (key: &str)
        ensures
            key@ == self@.key,
    {
        self.key.as_str()
    }

    /// What the client is called.
    pub fn label(&self) -> (label: &str)
        ensures
            label@ == self@.label,
    {
        self.label.as_str()
    }

    /// What the sign-in form says of remembering this client.
    pub fn remember_detail(&self) -> (detail: String)
        ensures
            detail@ == self@.detail(),
    {
        if self.tailscale {
            let mut detail = self.label.clone();
            detail.push_str(" via Tailscale; no password is stored");
            detail
        } else {
            let mut detail = "Trust address ".to_owned();
            detail.push_str(self.label.as_str());
            detail.push_str("; no password is stored");
            detail
        }
    }

    /// The client at an address.
    pub fn address(address: &str) -> (identity: Self)
        ensures
            identity@ == IdentityModel::at_address(address@),
    {
        let mut key = "address:".to_owned();
        key.push_str(address);
        ClientIdentity { key, label: address.to_owned(), tailscale: false }
    }

    /// A node of the private network.
    pub fn tailscale(stable_id: &str, label: &str) -> (identity: Self)
        ensures
            identity@ == IdentityModel::of_node(stable_id@, label@),
    {
        let mut key = "tailscale:".to_owned();
        key.push_str(stable_id);
        ClientIdentity { key, label: label.to_owned(), tailscale: true }
    }

    /// Whether two identities are the same.
    pub fn same_as(&self, other: &ClientIdentity) -> (same: bool)
        ensures
            same == (self@ == other@),
    {
        self.key == other.key && self.label == other.label && self.tailscale == other.tailscale
    }
}

/// A node of the private network as its status lists it.
pub struct TailscalePeer {
    pub id: String,
    pub host_name: String,
    pub addresses: Vec<ClientAddress>,
}

/// The number of bytes of a text.
pub open spec fn byte_length(s: Seq<char>) -> usize {
    vstd::utf8::encode_utf8(s).len() as usize
}

/// Whether a name can be used: it is neither empty nor too long.
pub open spec fn usable_name(s: Seq<char>) -> bool {
    s.len() > 0 && byte_length(s) <= MAX_NAME_BYTES
}

/// The identity of a node; nothing where its stable name cannot be used. A node
/// whose host has no usable name is called by its stable one.
pub open spec fn peer_identity(id: Seq<char>, host_name: Seq<char>) -> Option<IdentityModel> {
    let stable = crate::text::trimmed(id);
    let label = crate::text::trimmed(host_name);
    if !usable_name(stable) {
        None
    } else if !usable_name(label) {
        Some(IdentityModel::of_node(stable, stable))
    } else {
        Some(IdentityModel::of_node(stable, label))
    }
}

/// Whether a name can be used.
fn is_usable(name: &str) -> (usable: bool)
    ensures
        usable == usable_name(name@),
{
    !name.is_empty() && name.len() <= MAX_NAME_BYTES
}

/// The identity of a node.
fn identity_of(peer: &TailscalePeer) -> (identity: Option<ClientIdentity>)
    ensures
        match peer_identity(peer.id@, peer.host_name@) {
            Some(expected) => identity matches Some(found) && found@ == expected,
            None => identity is None,
        },
{
    let stable = peer.id.as_str().trim();
    if !is_usable(stable) {
        return None;
    }
    let label = peer.host_name.as_str().trim();
    if is_usable(label) {
        Some(ClientIdentity::tailscale(stable, label))
    } else {
        Some(ClientIdentity::tailscale(stable, stable))
    }
}

/// Puts an identity behind each of these addresses.
pub open spec fn with_addresses(
    known: Map<u128, IdentityModel>,
    addresses: Seq<ClientAddress>,
    identity: IdentityModel,
) -> Map<u128, IdentityModel>
    decreases addresses.len(),
{
    if addresses.len() == 0 {
        known
    } else {
        with_addresses(known, addresses.drop_last(), identity).insert(
            addresses.last().as_number(),
            identity,
        )
    }
}

/// The identities behind the addresses of these nodes; of two nodes with one address
/// the later one has it.
pub open spec fn known_clients(peers: Seq<TailscalePeer>) -> Map<u128, IdentityModel>
    decreases peers.len(),
{
    if peers.len() == 0 {
        Map::empty()
    } else {
        let earlier = known_clients(peers.drop_last());
        let last = peers.last();
        match peer_identity(last.id@, last.host_name@) {
            Some(identity) => with_addresses(earlier, last.addresses@, identity),
            None => earlier,
        }
    }
}

/// What finds out who a client is.
pub struct ClientIdentityResolver {
    tailscale_peers: HashMap<u128, ClientIdentity>,
}

impl View for ClientIdentityResolver {
    type V = Map<u128, IdentityModel>;

    closed spec fn view(&self) -> Map<u128, IdentityModel> {
        self.tailscale_peers@.map_values(|identity: ClientIdentity| identity@)
    }
}

/// Whether a status is short enough to be read.
pub fn accepts_tailscale_status(length: usize) -> (accepted: bool)
    ensures
        accepted == (length <= MAX_TAILSCALE_STATUS_BYTES),
{
    length <= MAX_TAILSCALE_STATUS_BYTES
}

impl ClientIdentityResolver {
    /// A resolver that knows no node.
    pub fn new() -> (resolver: Self)
        ensures
            resolver@ == Map::<u128, IdentityModel>::empty(),
    {
        broadcast use vstd::std_specs::hash::group_hash_axioms;

        let resolver = ClientIdentityResolver { tailscale_peers: HashMap::new() };
        assert(resolver@ =~= Map::<u128, IdentityModel>::empty());
        resolver
    }

    /// Puts an identity behind an address.
    fn insert(&mut self, address: ClientAddress, identity: &ClientIdentity)
        ensures
            final(self)@ == old(self)@.insert(address.as_number(), identity@),
    {
        broadcast use vstd::std_specs::hash::group_hash_axioms;

        let _ = self.tailscale_peers.insert(address.number(), identity.clone());
        assert(self@ =~= old(self)@.insert(address.as_number(), identity@));
    }

    /// A resolver that knows the nodes of a private network.
    pub fn from_tailscale_status(peers: &Vec<TailscalePeer>) -> (resolver: Self)
        ensures
            resolver@ == known_clients(peers@),
    {
        let mut resolver = ClientIdentityResolver::new();
        let mut k: usize = 0;
        assert(peers@.take(0) =~= Seq::<TailscalePeer>::empty());
        while k < peers.len()
            invariant
                k <= peers.len(),
                resolver@ == known_clients(peers@.take(k as int)),
            decreases peers.len() - k,
        {
            let peer = &peers[k];
            let ghost earlier = resolver@;
            proof {
                let now = peers@.take(k + 1);
                assert(now.drop_last() =~= peers@.take(k as int));
                assert(now.last() == peers@[k as int]);
            }
            if let Some(identity) = identity_of(peer) {
                let mut j: usize = 0;
                assert(peer.addresses@.take(0) =~= Seq::<ClientAddress>::empty());
                while j < peer.addresses.len()
                    invariant
                        j <= peer.addresses.len(),
                        resolver@ == with_addresses(
                            earlier,
                            peer.addresses@.take(j as int),
                            identity@,
                        ),
                    decreases peer.addresses.len() - j,
                {
                    proof {
                        let now = peer.addresses@.take(j + 1);
                        assert(now.drop_last() =~= peer.addresses@.take(j as int));
                    }
                    resolver.insert(peer.addresses[j], &identity);
                    j += 1;
                }
                assert(peer.addresses@.take(j as int) =~= peer.addresses@);
            }
            k += 1;
        }
        assert(peers@.take(k as int) =~= peers@);
        resolver
    }

    /// Who the client at an address is: the node behind it, or else the address
    /// itself, as `text` shows it.
    pub fn resolve(&self, address: ClientAddress, text: &str) -> (identity: ClientIdentity)
        ensures
            identity@ == if self@.contains_key(address.as_number()) {
                self@[address.as_number()]
            } else {
                IdentityModel::at_address(text@)
            },
    {
        broadcast use vstd::std_specs::hash::group_hash_axioms;

        let number: u128 = address.number();
        match self.tailscale_peers.get(&number) {
            Some(identity) => identity.clone(),
            None => ClientIdentity::address(text),
        }
    }
}

/// A node has its identity under each of its addresses, whichever way the address is
/// written, unless a later node has the address too.
pub proof fn law_node_is_known_by_every_address(
    earlier: Map<u128, IdentityModel>,
    addresses: Seq<ClientAddress>,
    identity: IdentityModel,
    address: ClientAddress,
)
    requires
        exists|i: int|
            0 <= i < addresses.len() && (#[trigger] addresses[i]).canonical()
                == address.canonical(),
    ensures
        with_addresses(earlier, addresses, identity).contains_key(address.as_number()),
        with_addresses(earlier, addresses, identity)[address.as_number()] == identity,
    decreases addresses.len(),
{
    let i = choose|i: int|
        0 <= i < addresses.len() && (#[trigger] addresses[i]).canonical() == address.canonical();
    if addresses.last().as_number() != address.as_number() {
        assert(addresses.drop_last()[i] == addresses[i]);
        law_node_is_known_by_every_address(earlier, addresses.drop_last(), identity, address);
    }
}

/// An address of version 6 that stands for one of version 4 is the same client's: `::ffff:`
/// and its four bytes. No other one is.
pub proof fn law_mapped_addresses_are_the_same(number: u128, small: u32)
    ensures
        ClientAddress::V4(small).as_number() == 0xffff_0000_0000 + small,
        ClientAddress::V6(number).as_number() == number,
        ClientAddress::V4(small).canonical() == ClientAddress::V4(small),
        number == 0xffff_0000_0000 + small <==> ClientAddress::V6(number).canonical()
            == ClientAddress::V4(small),
        ClientAddress::V6(number).canonical() is V6 <==> number < 0xffff_0000_0000 || number
            > 0xffff_ffff_ffff,
        ClientAddress::V6(number).canonical() is V6 ==> ClientAddress::V6(number).canonical()
            == ClientAddress::V6(number),
{
}

/// Clients are remembered under keys of their own: those of addresses and of nodes are never
/// the same, and two of a kind are the same exactly if what they are made of is.
pub proof fn law_keys_tell_clients_apart(
    address: Seq<char>,
    other: Seq<char>,
    label: Seq<char>,
    name: Seq<char>,
)
    ensures
        IdentityModel::at_address(address).key != IdentityModel::of_node(other, label).key,
        IdentityModel::at_address(address).key == IdentityModel::at_address(other).key <==> address
            == other,
        IdentityModel::of_node(address, label).key == IdentityModel::of_node(other, name).key
            <==> address == other,
        IdentityModel::at_address(address).label == address && !IdentityModel::at_address(
            address,
        ).tailscale,
        IdentityModel::of_node(address, label).label == label && IdentityModel::of_node(
            address,
            label,
        ).tailscale,
{
    reveal_strlit("address:");
    reveal_strlit("tailscale:");
    let by_address = IdentityModel::at_address(address).key;
    assert(by_address[0] == 'a');
    assert(IdentityModel::of_node(other, label).key[0] == 't');
    assert(by_address.skip(8) =~= address);
    assert(IdentityModel::at_address(other).key.skip(8) =~= other);
    assert(IdentityModel::of_node(address, label).key.skip(10) =~= address);
    assert(IdentityModel::of_node(other, name).key.skip(10) =~= other);
}

/// What is said of a client names it, and that no password is kept.
pub proof fn law_details_name_the_client(identity: IdentityModel)
    ensures
        ({
            let detail = identity.detail();
            let end = "; no password is stored"@;
            &&& detail.skip(detail.len() - end.len()) == end
            &&& identity.tailscale ==> detail.take(identity.label.len() as int) == identity.label
            &&& !identity.tailscale ==> detail.take(14) == "Trust address "@ && detail.subrange(
                14,
                (14 + identity.label.len()) as int,
            ) == identity.label
        }),
{
    reveal_strlit("; no password is stored");
    reveal_strlit(" via Tailscale; no password is stored");
    reveal_strlit("Trust address ");
    let detail = identity.detail();
    let end = "; no password is stored"@;
    assert(detail.skip(detail.len() - end.len()) =~= end);
    if identity.tailscale {
        assert(detail.take(identity.label.len() as int) =~= identity.label);
    } else {
        assert(detail.take(14) =~= "Trust address "@);
        assert(detail.subrange(14, (14 + identity.label.len()) as int) =~= identity.label);
    }
}

/// A node is known by its stable name, which has 1 to 128 bytes without the white space around
/// it; it is called by its host's name where that is such a name too, by its own otherwise.
pub proof fn law_nodes_are_called_by_their_host(id: Seq<char>, host_name: Seq<char>)
    ensures
        ({
            let stable = crate::text::trimmed(id);
            let host = crate::text::trimmed(host_name);
            let stable_usable = stable.len() > 0 && byte_length(stable) <= 128;
            let host_usable = host.len() > 0 && byte_length(host) <= 128;
            &&& peer_identity(id, host_name) is Some <==> stable_usable
            &&& peer_identity(id, host_name) matches Some(identity) ==> {
                &&& identity.tailscale
                &&& identity.key == "tailscale:"@ + stable
                &&& identity.label == if host_usable { host } else { stable }
            }
        }),
{
}

/// Whom no node of the network is listed with an address for stays unknown, and a node does
/// not change who is known by other addresses.
pub proof fn law_nodes_are_known_by_their_addresses_alone(
    earlier: Map<u128, IdentityModel>,
    addresses: Seq<ClientAddress>,
    identity: IdentityModel,
    address: ClientAddress,
)
    requires
        forall|i: int|
            0 <= i < addresses.len() ==> (#[trigger] addresses[i]).canonical()
                != address.canonical(),
    ensures
        ({
            let known = with_addresses(earlier, addresses, identity);
            let number = address.as_number();
            &&& known.contains_key(number) <==> earlier.contains_key(number)
            &&& earlier.contains_key(number) ==> known[number] == earlier[number]
        }),
    decreases addresses.len(),
{
    if addresses.len() > 0 {
        let front = addresses.drop_last();
        assert forall|i: int| 0 <= i < front.len() implies (#[trigger] front[i]).canonical()
            != address.canonical() by {
            assert(front[i] == addresses[i]);
        }
        law_nodes_are_known_by_their_addresses_alone(earlier, front, identity, address);
        assert(addresses[addresses.len() - 1].canonical() != address.canonical());
    }
}

/// The nodes of the network are known in the order of their list: nobody before the first, and
/// each with its addresses where its stable name can be used.
pub proof fn law_nodes_are_taken_in_order(peers: Seq<TailscalePeer>, peer: TailscalePeer)
    ensures
        known_clients(Seq::empty()) == Map::<u128, IdentityModel>::empty(),
        peer_identity(peer.id@, peer.host_name@) is None ==> known_clients(peers.push(peer))
            == known_clients(peers),
        peer_identity(peer.id@, peer.host_name@) matches Some(identity) ==> known_clients(
            peers.push(peer),
        ) == with_addresses(known_clients(peers), peer.addresses@, identity),
{
    assert(peers.push(peer).drop_last() =~= peers);
}

} // verus!
