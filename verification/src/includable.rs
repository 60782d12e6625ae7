//! Allocation of includable-device IDs for the LWM2M publish service.
//!
//! Devices that are in reach but not yet included get a 16-bit ID that IPC
//! clients use to address them. The IDs are chosen at random so that they
//! aren't reused quickly.

use rand::Rng;
use std::collections::BTreeMap;
use crate::text::{decimal, push_decimal};
use vstd::prelude::*;
use vstd::std_specs::btree::increasing_seq;

verus! {

/// An IP address of a device.
#[derive(Debug, Clone, Copy, PartialEq, Eq, Structural)]
pub enum IpAddress {
    /// An IPv4 address in network byte order.
    V4(u32),
    /// An IPv6 address in network byte order.
    V6(u128),
}

/// Errors of the includable-ID allocation.
#[derive(Debug, Clone, Copy, PartialEq, Eq, Structural)]
pub enum IncludableError {
    /// "no includable device IDs left"
    NoIdsLeft,
    /// "device with address=`{}` not found"
    AddressNotFound(IpAddress),
}

/// The number of IDs after which the map counts as full.
pub const INCLUDABLE_ID_LIMIT: usize = 65535;

/// The largest ID.
pub const MAX_INCLUDABLE_ID: u16 = 65535;

#[verifier::external_type_specification]
#[verifier::external_body]
pub struct ExThreadRng(rand::rngs::ThreadRng);

/// Calls `rand::thread_rng`: a handle to the thread-local random number
/// generator. Nothing is stated of it.
#[verifier::external_body]
fn thread_rng() -> rand::rngs::ThreadRng {
    rand::thread_rng()
}

/// Calls `Rng::gen::<u16>` on the thread-local generator: any `u16` may come
/// back.
#[verifier::external_body]
fn gen_u16(rng: &mut rand::rngs::ThreadRng) -> u16 {
    rng.gen()
}

/// Calls `Rng::gen_range(start..=end)` on the thread-local generator: the
/// result lies within the inclusive range, which rand documents to panic when
/// empty (excluded here).
#[verifier::external_body]
fn gen_range_u16(rng: &mut rand::rngs::ThreadRng, start: u16, end: u16) -> (r: u16)
    requires
        start <= end,
    ensures
        start <= r <= end,
{
    rng.gen_range(start..=end)
}

/// The smallest ID of at least `x` that `ids` does not hold (65536 if none).
pub open spec fn first_free_from(ids: Set<u16>, x: int) -> int
    decreases 65536 - x,
{
    if x >= 65536 || x < 0 {
        65536
    } else if !ids.contains(x as u16) {
        x
    } else {
        first_free_from(ids, x + 1)
    }
}

/// The smallest non-zero ID that `ids` does not hold: where the search for a
/// free range begins.
pub open spec fn first_free(ids: Set<u16>) -> int {
    first_free_from(ids, 1)
}

/// Some ID maps to `address`.
pub open spec fn has_address(m: Map<u16, IpAddress>, address: IpAddress) -> bool {
    exists|id: u16| #[trigger] m.contains_key(id) && m[id] == address
}

/// No two IDs map to the same address.
pub open spec fn addresses_unique(m: Map<u16, IpAddress>) -> bool {
    forall|a: u16, b: u16|
        m.contains_key(a) && m.contains_key(b) && #[trigger] m[a] == #[trigger] m[b] ==> a == b
}

/// The ID allocator state of a publish service.
pub struct PubServiceInner {
    sequence: u64,
    /// map between includable device IDs used by IPC and device addresses
    includable_map: BTreeMap<u16, IpAddress>,
    source: String,
}

proof fn lemma_first_free_is(ids: Set<u16>, x: int, m: int)
    requires
        1 <= x <= m <= 65535,
        forall|y: u16| x <= y < m ==> #[trigger] ids.contains(y),
        !ids.contains(m as u16),
    ensures
        first_free_from(ids, x) == m,
    decreases m - x,
{
    if x < m {
        lemma_first_free_is(ids, x + 1, m);
    }
}

/// The keys of a map iterated in increasing order are strictly ascending.
proof fn lemma_keys_ascending(s: Seq<&u16>)
    requires
        increasing_seq(s),
    ensures
        forall|i: int, j: int| 0 <= i < j < s.len() ==> *(#[trigger] s[i]) < *(#[trigger] s[j]),
{
    broadcast use vstd::laws_cmp::group_laws_cmp;

    assert(vstd::laws_cmp::obeys_cmp::<u16>());
    assert(vstd::laws_cmp::obeys_cmp::<&u16>());
    vstd::std_specs::btree::axiom_increasing_seq_meaning(s);
    assert forall|i: int, j: int| 0 <= i < j < s.len() implies *(#[trigger] s[i]) < *(
    #[trigger] s[j]) by {
        assert(vstd::std_specs::cmp::OrdSpec::cmp_spec(&s[i], &s[j]) is Less);
    }
}

impl PubServiceInner {
    /// The ID map as a mathematical map.
    pub closed spec fn ids(&self) -> Map<u16, IpAddress> {
        self.includable_map@
    }

    /// The next sequence number.
    pub closed spec fn next_sequence(&self) -> u64 {
        self.sequence
    }

    /// The source name that events carry.
    pub closed spec fn source_name(&self) -> Seq<char> {
        self.source@
    }

    /// The allocator's invariant: an address has at most one ID, and the map
    /// never grows beyond [INCLUDABLE_ID_LIMIT] IDs.
    pub open spec fn wf(&self) -> bool {
        &&& addresses_unique(self.ids())
        &&& self.ids().dom().finite()
        &&& self.ids().len() <= INCLUDABLE_ID_LIMIT
    }

    /// A new allocator without IDs, whose events carry `source`.
    pub fn new(source: String) -> (s: Self)
        ensures
            s.wf(),
            s.ids() == Map::<u16, IpAddress>::empty(),
            s.next_sequence() == 0,
            s.source_name() == source@,
    {
        PubServiceInner { sequence: 0, includable_map: BTreeMap::new(), source }
    }

    /// The source name that events carry.
    pub fn source(&self) -> (s: &String)
        ensures
            s@ == self.source_name(),
    {
        &self.source
    }

    /// The sequence number that the next event gets.
    pub fn peek_sequence(&self) -> (r: u64)
        ensures
            r == self.next_sequence(),
    {
        self.sequence
    }

    /// Return the current sequence number and advance it.
    pub fn sequence(&mut self) -> (r: u64)
        requires
            old(self).next_sequence() < u64::MAX,
        ensures
            r == old(self).next_sequence(),
            final(self).next_sequence() == old(self).next_sequence() + 1,
            final(self).ids() == old(self).ids(),
            final(self).source_name() == old(self).source_name(),
    {
        let ret = self.sequence;
        self.sequence += 1;
        ret
    }

    /// The ID of `address`, if it has one.
    fn find_address(&self, address: IpAddress) -> (r: Option<u16>)
        requires
            self.wf(),
        ensures
            r matches Some(id) ==> self.ids().contains_key(id) && self.ids()[id] == address,
            r is None ==> forall|id: u16| #[trigger] self.ids().contains_key(id) ==> self.ids()[id] != address,
    {
        let ghost m = self.includable_map@;
        for (id, addr) in it: self.includable_map.iter()
            invariant
                m == self.includable_map@,
                it.seq().unref().to_set() == m.kv_pairs(),
                forall|k: u16|
                    #[trigger] m.contains_key(k) && m[k] == address ==> exists|i: int|
                        it.index() <= i < it.seq().len() && (#[trigger] it.seq()[i]) == (&k, &address),
        {
            if *addr == address {
                proof {
                    assert(it.seq().unref()[it.index() as int] == (*id, *addr));
                    assert(it.seq().unref().to_set().contains((*id, *addr)));
                }
                return Some(*id);
            }
        }
        None
    }

    /// Allocate an ID within the inclusive range `start..=end`, all of whose
    /// IDs are free: `start` for a range of one or two IDs, else a random
    /// one.
    fn includable_range_unchecked(
        &mut self,
        rng: &mut rand::rngs::ThreadRng,
        address: IpAddress,
        start: u16,
        end: u16,
    ) -> (new_id: u16)
        requires
            start <= end,
        ensures
            start <= new_id <= end,
            end - start <= 1 ==> new_id == start,
            final(self).ids() == old(self).ids().insert(new_id, address),
            final(self).next_sequence() == old(self).next_sequence(),
            final(self).source_name() == old(self).source_name(),
    {
        if end - start <= 1 {
            // one or two free IDs: take the first
            let new_id = start;
            self.includable_map.insert(new_id, address);
            new_id
        } else {
            // a gap of more than one, randomly chose our id
            let new_id = gen_range_u16(rng, start, end);
            self.includable_map.insert(new_id, address);
            new_id
        }
    }

    /// Allocate an includable ID for `address`, or return the one it has.
    ///
    /// A fresh ID is first drawn at random (as often as the odds of hitting a
    /// used ID allow); failing that, the first free range above the lowest
    /// used IDs is searched and an ID in it is allocated. Only a full map
    /// fails, with [`IncludableError::NoIdsLeft`].
    pub fn includable_id(&mut self, address: IpAddress) -> (r: Result<u16, IncludableError>)
        requires
            old(self).wf(),
        ensures
            final(self).wf(),
            final(self).next_sequence() == old(self).next_sequence(),
            final(self).source_name() == old(self).source_name(),
            has_address(old(self).ids(), address) ==> (r matches Ok(id) && old(self).ids().contains_key(id)
                && old(self).ids()[id] == address && final(self).ids() == old(self).ids()),
            !has_address(old(self).ids(), address) && old(self).ids().len() == INCLUDABLE_ID_LIMIT
                ==> r == Err::<u16, IncludableError>(IncludableError::NoIdsLeft) && final(self).ids()
                == old(self).ids(),
            !has_address(old(self).ids(), address) && old(self).ids().len() < INCLUDABLE_ID_LIMIT
                ==> (r matches Ok(id) && !old(self).ids().contains_key(id) && final(self).ids()
                == old(self).ids().insert(id, address)),
    {
        // we have an id already
        if let Some(id) = self.find_address(address) {
            return Ok(id);
        }
        let ghost ids = self.includable_map@;
        assert(!has_address(ids, address));

        // no space left
        let len = self.includable_map.len();
        if len == INCLUDABLE_ID_LIMIT {
            return Err(IncludableError::NoIdsLeft);
        }

        // The odds are `used-ids / total-ids`, i.e. `1 : odds` for a used id.
        let odds: usize = if len == 0 { INCLUDABLE_ID_LIMIT } else { INCLUDABLE_ID_LIMIT / len };
        assert(odds >= 1) by (nonlinear_arith)
            requires
                len < INCLUDABLE_ID_LIMIT,
                len == 0 ==> odds == INCLUDABLE_ID_LIMIT,
                len > 0 ==> odds == INCLUDABLE_ID_LIMIT / len,
        ;

        // try to randomly find a free slot
        let mut rng = thread_rng();
        let mut tries: usize = 0;
        while tries < odds
            invariant
                self.includable_map@ == ids,
                ids == old(self).ids(),
                self.wf(),
                ids.len() == len,
                len < INCLUDABLE_ID_LIMIT,
                ids.len() == 0 ==> tries == 0,
                tries <= odds,
                !has_address(ids, address),
                self.next_sequence() == old(self).next_sequence(),
                self.source_name() == old(self).source_name(),
            decreases odds - tries,
        {
            let id = gen_u16(&mut rng);
            if !self.includable_map.contains_key(&id) {
                self.includable_map.insert(id, address);
                return Ok(id);
            }
            tries += 1;
        }
        assert(ids.len() != 0);

        // Iterate through the whole map until we found a free range.
        let mut prev_id: u16 = 0;
        let mut gap: Option<(u16, u16)> = None;
        let ghost keys = self.includable_map@.dom();
        for id in it: self.includable_map.keys()
            invariant_except_break
                gap is None,
                forall|y: u16| 1 <= y <= prev_id ==> #[trigger] keys.contains(y),
                forall|i: int| 0 <= i < it.index() ==> *(#[trigger] it.seq()[i]) <= prev_id,
                it.index() == 0 ==> prev_id == 0,
                it.index() > 0 ==> prev_id == *it.seq()[it.index() - 1],
                prev_id <= it.index(),
            invariant
                keys == self.includable_map@.dom(),
                ids == self.includable_map@,
                it.seq().unref().to_set() == keys,
                it.seq().len() == keys.len(),
                increasing_seq(it.seq()),
            ensures
                gap matches Some((start, end)) ==> start as int == first_free(keys) && end < MAX_INCLUDABLE_ID
                    && keys.contains((end + 1) as u16) && start <= end && (forall|y: u16|
                    start <= y <= end ==> !#[trigger] keys.contains(y)),
                gap is None ==> (forall|y: u16| 1 <= y <= prev_id ==> #[trigger] keys.contains(y)) && (
                forall|y: u16| #[trigger] keys.contains(y) ==> y <= prev_id) && prev_id <= keys.len(),
        {
            proof {
                lemma_keys_ascending(it.seq());
                assert(it.seq().unref()[it.index() as int] == *id);
                assert(keys.contains(*id));
            }
            if *id - prev_id >= 2 {
                let start = prev_id + 1;
                let end = *id - 1;
                proof {
                    assert forall|y: u16| start <= y <= end implies !#[trigger] keys.contains(y) by {
                        if keys.contains(y) {
                            assert(it.seq().unref().to_set().contains(y));
                            let j = choose|j: int| 0 <= j < it.seq().len() && it.seq().unref()[j] == y;
                            assert(*it.seq()[j] == y);
                            if j < it.index() {
                                assert(*it.seq()[j] <= prev_id);
                            } else if j > it.index() {
                                assert(*it.seq()[it.index() as int] < *it.seq()[j]);
                            }
                        }
                    }
                    lemma_first_free_is(keys, 1, start as int);
                }
                gap = Some((start, end));
                break;
            }
            prev_id = *id;
        }
        proof {
            if gap is None {
                assert(forall|y: u16| prev_id < y ==> !#[trigger] keys.contains(y));
                lemma_first_free_is(keys, 1, prev_id + 1);
            }
        }
        let (start, end) = match gap {
            Some(range) => range,
            None => (prev_id + 1, MAX_INCLUDABLE_ID),
        };
        assert(forall|y: u16| start <= y <= end ==> !#[trigger] keys.contains(y));
        Ok(self.includable_range_unchecked(&mut rng, address, start, end))
    }

    /// Free the includable ID of `address`.
    ///
    /// This does not publish a delete event.
    pub fn remove_includable_device(&mut self, address: IpAddress) -> (r: Result<(), IncludableError>)
        requires
            old(self).wf(),
        ensures
            final(self).wf(),
            final(self).next_sequence() == old(self).next_sequence(),
            final(self).source_name() == old(self).source_name(),
            has_address(old(self).ids(), address) ==> r is Ok && exists|id: u16|
                #[trigger] old(self).ids().contains_key(id) && old(self).ids()[id] == address
                    && final(self).ids() == old(self).ids().remove(id),
            !has_address(old(self).ids(), address) ==> r == Err::<(), IncludableError>(
                IncludableError::AddressNotFound(address),
            ) && final(self).ids() == old(self).ids(),
    {
        match self.find_address(address) {
            Some(id) => {
                self.includable_map.remove(&id);
                proof {
                    assert(addresses_unique(self.includable_map@));
                    assert(self.includable_map@.dom() =~= old(self).ids().dom().remove(id));
                }
                Ok(())
            },
            None => Err(IncludableError::AddressNotFound(address)),
        }
    }

    /// The address that holds includable ID `id`.
    pub fn address_from_includable_id(&self, id: u16) -> (r: Option<IpAddress>)
        ensures
            r == (if self.ids().contains_key(id) { Some(self.ids()[id]) } else { None::<IpAddress> }),
    {
        match self.includable_map.get(&id) {
            Some(address) => Some(*address),
            None => None,
        }
    }
}

/// The path of the entity of the includable device with ID `id`.
pub open spec fn includable_device_path(id: u16) -> Seq<char> {
    "includable_device/"@ + decimal(id as nat)
}

/// What the publication of an includable device carries besides its
/// payload: the sequence number, the entity path and the service.
#[derive(Debug)]
pub struct IncludableEvent {
    pub sequence: u64,
    pub path: String,
    pub service: String,
}

impl PubServiceInner {
    /// Prepare the publication of the includable device at `address`: take
    /// the next sequence number (also when no ID can be had) and the
    /// device's includable ID, which names the entity path.
    pub fn includable_device_event(&mut self, address: IpAddress) -> (r: Result<
        IncludableEvent,
        IncludableError,
    >)
        requires
            old(self).wf(),
            old(self).next_sequence() < u64::MAX,
        ensures
            final(self).wf(),
            final(self).next_sequence() == old(self).next_sequence() + 1,
            final(self).source_name() == old(self).source_name(),
            match r {
                Ok(e) => exists|id: u16|
                    {
                        &&& e.sequence == old(self).next_sequence()
                        &&& e.path@ == includable_device_path(id)
                        &&& e.service@ == old(self).source_name()
                        &&& final(self).ids().contains_key(id)
                        &&& final(self).ids()[id] == address
                        &&& (has_address(old(self).ids(), address) ==> final(self).ids() == old(
                            self,
                        ).ids())
                        &&& (!has_address(old(self).ids(), address) ==> !old(self).ids().contains_key(id)
                            && final(self).ids() == old(self).ids().insert(id, address))
                    },
                Err(e) => final(self).ids() == old(self).ids() && e == IncludableError::NoIdsLeft
                    && !has_address(old(self).ids(), address),
            },
            !has_address(old(self).ids(), address) && old(self).ids().len() == INCLUDABLE_ID_LIMIT
                ==> r == Err::<IncludableEvent, IncludableError>(IncludableError::NoIdsLeft),
            (has_address(old(self).ids(), address) || old(self).ids().len() < INCLUDABLE_ID_LIMIT)
                ==> r is Ok,
    {
        let service = self.source.clone();
        let sequence = self.sequence();
        let id = self.includable_id(address)?;
        let mut path = String::new();
        path.push_str("includable_device/");
        push_decimal(&mut path, id as u64);
        proof {
            reveal_strlit("includable_device/");
            assert(path@ == includable_device_path(id));
            assert(self.ids().contains_key(id) && self.ids()[id] == address);
        }
        Ok(IncludableEvent { sequence, path, service })
    }
}

/// An address has at most one includable ID in a well-formed map, so the ID
/// that `includable_id` gives back for a known address is the only one.
pub proof fn law_one_id_per_address(m: Map<u16, IpAddress>, a: u16, b: u16)
    requires
        addresses_unique(m),
        m.contains_key(a),
        m.contains_key(b),
        m[a] == m[b],
    ensures
        a == b,
{
}

/// Once the ID of an address is removed, no ID maps to that address any
/// more, while the other IDs keep their addresses.
pub proof fn law_removed_address_unknown(m: Map<u16, IpAddress>, id: u16, other: u16)
    requires
        addresses_unique(m),
        m.contains_key(id),
    ensures
        !has_address(m.remove(id), m[id]),
        other != id && m.contains_key(other) ==> m.remove(id).contains_key(other) && m.remove(id)[other]
            == m[other],
{
}

} // verus!
