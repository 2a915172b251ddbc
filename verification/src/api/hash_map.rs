//! The game's hash map: a header with a table of buckets, each bucket naming
//! the first and last node of its stretch of a linked list of nodes, each node
//! holding a `u32` key and a `u64` value. Keys are hashed with 64-bit FNV-1a
//! over their little-endian bytes.
use vstd::prelude::*;

use crate::api::AnnoPtr;
use crate::memory::{MemoryImage, ReadError};

verus! {

/// The FNV-1a 64-bit offset basis.
pub const FNV_OFFSET_BASIS: u64 = 0xCBF2_9CE4_8422_2325;

/// The FNV-1a 64-bit prime.
pub const FNV_PRIME: u64 = 0x0000_0100_0000_01b3;

/// One FNV-1a round: xor in a byte, then multiply by the prime modulo 2^64.
pub open spec fn fnv1a_round(h: u64, b: u8) -> u64 {
    (((h ^ (b as u64)) as nat * FNV_PRIME as nat) % 0x1_0000_0000_0000_0000) as u64
}

/// The 64-bit FNV-1a hash of a byte sequence.
pub open spec fn fnv1a(bytes: Seq<u8>) -> u64
    decreases bytes.len(),
{
    if bytes.len() == 0 {
        FNV_OFFSET_BASIS
    } else {
        fnv1a_round(fnv1a(bytes.drop_last()), bytes.last())
    }
}

/// The little-endian bytes of a `u32`.
pub open spec fn le_bytes_u32(x: u32) -> Seq<u8> {
    seq![
        (x % 0x100) as u8,
        ((x / 0x100) % 0x100) as u8,
        ((x / 0x1_0000) % 0x100) as u8,
        ((x / 0x100_0000) % 0x100) as u8,
    ]
}

/// The little-endian bytes of a `u16`.
pub open spec fn le_bytes_u16(x: u16) -> Seq<u8> {
    seq![(x % 0x100) as u8, ((x / 0x100) % 0x100) as u8]
}

fn fnv1a_mix(h: u64, b: u8) -> (r: u64)
    ensures
        r == fnv1a_round(h, b),
{
    (h ^ (b as u64)).wrapping_mul(FNV_PRIME)
}

/// The FNV-1a hash of the little-endian bytes of a `u32`.
pub fn fnv1a_32(input: u32) -> (h: u64)
    ensures
        h == fnv1a(le_bytes_u32(input)),
{
    let b0 = (input % 0x100) as u8;
    let b1 = ((input / 0x100) % 0x100) as u8;
    let b2 = ((input / 0x1_0000) % 0x100) as u8;
    let b3 = ((input / 0x100_0000) % 0x100) as u8;
    let h0 = fnv1a_mix(FNV_OFFSET_BASIS, b0);
    let h1 = fnv1a_mix(h0, b1);
    let h2 = fnv1a_mix(h1, b2);
    let h3 = fnv1a_mix(h2, b3);
    proof {
        let s = le_bytes_u32(input);
        assert(s.take(1).drop_last() =~= s.take(0));
        assert(s.take(2).drop_last() =~= s.take(1));
        assert(s.take(3).drop_last() =~= s.take(2));
        assert(s.take(4).drop_last() =~= s.take(3));
        assert(s.take(4) =~= s);
        assert(fnv1a(s.take(0)) == FNV_OFFSET_BASIS);
        assert(fnv1a(s.take(1)) == h0);
        assert(fnv1a(s.take(2)) == h1);
        assert(fnv1a(s.take(3)) == h2);
    }
    h3
}

/// The FNV-1a hash of the little-endian bytes of a `u16`.
pub fn fnv1a_16(input: u16) -> (h: u64)
    ensures
        h == fnv1a(le_bytes_u16(input)),
{
    let b0 = (input % 0x100) as u8;
    let b1 = ((input / 0x100) % 0x100) as u8;
    let h0 = fnv1a_mix(FNV_OFFSET_BASIS, b0);
    let h1 = fnv1a_mix(h0, b1);
    proof {
        let s = le_bytes_u16(input);
        assert(s.take(1).drop_last() =~= s.take(0));
        assert(s.take(2).drop_last() =~= s.take(1));
        assert(s.take(2) =~= s);
        assert(fnv1a(s.take(0)) == FNV_OFFSET_BASIS);
        assert(fnv1a(s.take(1)) == h0);
    }
    h1
}

/// The address of the bucket that holds `key`, in a table of 16-byte buckets
/// at `data`, indexed by the key's hash masked with `bitmask`.
pub open spec fn bucket_address(data: u64, bitmask: u64, key: u32) -> int {
    data + 16 * (fnv1a(le_bytes_u32(key)) & bitmask)
}

/// The header of one of the game's hash maps.
pub struct HashMapPtr {
    pub address: u64,
}

/// One bucket of a hash map: the last and the first node of its stretch.
pub struct HashMapBucketPtr {
    pub address: u64,
}

/// One node of a hash map: the next node, the key and the value.
pub struct HashMapContainerPtr {
    pub address: u64,
}

impl AnnoPtr for HashMapPtr {
    open spec fn spec_address(&self) -> u64 {
        self.address
    }

    fn new(address: u64) -> (r: Self) {
        HashMapPtr { address }
    }

    fn get_address(&self) -> (a: u64) {
        self.address
    }
}

impl AnnoPtr for HashMapBucketPtr {
    open spec fn spec_address(&self) -> u64 {
        self.address
    }

    fn new(address: u64) -> (r: Self) {
        HashMapBucketPtr { address }
    }

    fn get_address(&self) -> (a: u64) {
        self.address
    }
}

impl AnnoPtr for HashMapContainerPtr {
    open spec fn spec_address(&self) -> u64 {
        self.address
    }

    fn new(address: u64) -> (r: Self) {
        HashMapContainerPtr { address }
    }

    fn get_address(&self) -> (a: u64) {
        self.address
    }
}

/// Where a lookup stands: the key it looks for, the map's end node, the last
/// node of the key's bucket, and the node it is about to look at.
#[derive(Clone, Copy, Debug, PartialEq, Eq, Structural)]
pub struct HashMapLookup {
    pub key: u32,
    pub map_end: u64,
    pub bucket_end: u64,
    pub container: u64,
}

/// What one step of a lookup came to.
#[derive(Clone, Copy, Debug, PartialEq, Eq, Structural)]
pub enum LookupStep {
    /// The lookup is over, with this value (`0` when the key was not found).
    Done(u64),
    /// The lookup goes on from this state.
    Next(HashMapLookup),
}

impl HashMapPtr {
    /// The lookup of `key` as it begins: the map's data and bitmask are read,
    /// the bucket's address is computed, then the map's end node and the
    /// bucket's last and first nodes are read.
    pub open spec fn spec_start_lookup(&self, mem: &MemoryImage, key: u32) -> Result<
        HashMapLookup,
        ReadError,
    > {
        match mem.spec_read_u64(self.address + 0x0010) {
            Err(e) => Err(e),
            Ok(data) => match mem.spec_read_u64(self.address + 0x0028) {
                Err(e) => Err(e),
                Ok(bitmask) => {
                    let bucket = bucket_address(data, bitmask, key);
                    if bucket > u64::MAX {
                        Err(ReadError::AddressOverflow)
                    } else {
                        match mem.spec_read_u64(self.address + 0x0000) {
                            Err(e) => Err(e),
                            Ok(map_end) => match mem.spec_read_u64(bucket + 0x0000) {
                                Err(e) => Err(e),
                                Ok(bucket_end) => match mem.spec_read_u64(bucket + 0x0008) {
                                    Err(e) => Err(e),
                                    Ok(first) => Ok(
                                        HashMapLookup {
                                            key,
                                            map_end,
                                            bucket_end,
                                            container: first,
                                        },
                                    ),
                                },
                            },
                        }
                    }
                },
            },
        }
    }

    /// The walk of the lookup of `key` ends: the lookup fails to begin, or
    /// from where it begins a finite number of steps brings it to an end.
    pub open spec fn lookup_ends(&self, mem: &MemoryImage, key: u32) -> bool {
        self.spec_start_lookup(mem, key) matches Ok(s) ==> s.ends(mem)
    }

    /// The outcome of the lookup of `key`: the error that stops it from
    /// beginning, or what its walk ends with.
    pub open spec fn spec_entry(&self, mem: &MemoryImage, key: u32) -> Result<u64, ReadError> {
        match self.spec_start_lookup(mem, key) {
            Err(e) => Err(e),
            Ok(s) => s.spec_outcome(mem),
        }
    }

    /// The map's end node.
    fn get_last(&self, mem: &MemoryImage) -> (r: Result<u64, ReadError>)
        ensures
            r == mem.spec_read_u64(self.address + 0x0000),
    {
        mem.read_u64(self.address, 0x0000)
    }

    /// The address of the map's bucket table.
    fn get_data(&self, mem: &MemoryImage) -> (r: Result<u64, ReadError>)
        ensures
            r == mem.spec_read_u64(self.address + 0x0010),
    {
        mem.read_u64(self.address, 0x0010)
    }

    /// The mask that turns a hash into a bucket index.
    fn get_bitmask(&self, mem: &MemoryImage) -> (r: Result<u64, ReadError>)
        ensures
            r == mem.spec_read_u64(self.address + 0x0028),
    {
        mem.read_u64(self.address, 0x0028)
    }

    /// Begins the lookup of `key`.
    pub fn start_lookup(&self, mem: &MemoryImage, key: u32) -> (r: Result<HashMapLookup, ReadError>)
        ensures
            r == self.spec_start_lookup(mem, key),
    {
        let hash = fnv1a_32(key);
        let data = self.get_data(mem)?;
        let bitmask = self.get_bitmask(mem)?;
        let slot = hash & bitmask;
        if slot > 0x0FFF_FFFF_FFFF_FFFF || data > u64::MAX - 16 * slot {
            return Err(ReadError::AddressOverflow);
        }
        let bucket_address = data + 16 * slot;
        let hashmap_end_marker = self.get_last(mem)?;
        let bucket = HashMapBucketPtr { address: bucket_address };
        let bucket_end_marker = bucket.get_last(mem)?;
        let first = bucket.get_first(mem)?;
        Ok(HashMapLookup { key, map_end: hashmap_end_marker, bucket_end: bucket_end_marker, container: first })
    }

    /// The value stored under `key`, or `0` where the key's bucket does not
    /// hold it. The walk must end (it would not on a list of nodes that loops
    /// back without meeting either end node).
    pub fn get_entry(&self, mem: &MemoryImage, key: u32) -> (r: Result<u64, ReadError>)
        requires
            self.lookup_ends(mem, key),
        ensures
            r == self.spec_entry(mem, key),
            match self.spec_start_lookup(mem, key) {
                Err(e) => r == Err::<u64, ReadError>(e),
                Ok(s) => forall|chain: Seq<u64>|
                    s.is_chain(mem, chain) ==> r == Ok::<u64, ReadError>(chain_value(mem, s.key, chain)),
            },
    {
        let start = self.start_lookup(mem, key)?;
        proof {
            assert forall|chain: Seq<u64>| start.is_chain(mem, chain) implies start.spec_outcome(mem)
                == Ok::<u64, ReadError>(chain_value(mem, start.key, chain)) by {
                start.lemma_outcome_of_chain(mem, chain);
            }
        }
        start.run(mem)
    }
}

impl HashMapBucketPtr {
    /// The last node of the bucket's stretch.
    fn get_last(&self, mem: &MemoryImage) -> (r: Result<u64, ReadError>)
        ensures
            r == mem.spec_read_u64(self.address + 0x0000),
    {
        mem.read_u64(self.address, 0x0000)
    }

    /// The first node of the bucket's stretch.
    fn get_first(&self, mem: &MemoryImage) -> (r: Result<u64, ReadError>)
        ensures
            r == mem.spec_read_u64(self.address + 0x0008),
    {
        mem.read_u64(self.address, 0x0008)
    }
}

impl HashMapContainerPtr {
    /// The node after this one.
    fn get_next(&self, mem: &MemoryImage) -> (r: Result<u64, ReadError>)
        ensures
            r == mem.spec_read_u64(self.address + 0x0008),
    {
        mem.read_u64(self.address, 0x0008)
    }

    /// The node's key.
    fn get_key(&self, mem: &MemoryImage) -> (r: Result<u32, ReadError>)
        ensures
            r == mem.spec_read_u32(self.address + 0x0010),
    {
        mem.read_u32(self.address, 0x0010)
    }

    /// The node's value.
    fn get_data(&self, mem: &MemoryImage) -> (r: Result<u64, ReadError>)
        ensures
            r == mem.spec_read_u64(self.address + 0x0018),
    {
        mem.read_u64(self.address, 0x0018)
    }
}

/// The value of the first node of `chain` whose key is `key`, or `0` when
/// none has it.
pub open spec fn chain_value(mem: &MemoryImage, key: u32, chain: Seq<u64>) -> u64
    decreases chain.len(),
{
    if chain.len() == 0 {
        0
    } else if mem.spec_read_u32(chain[0] + 0x0010)->Ok_0 == key {
        mem.spec_read_u64(chain[0] + 0x0018)->Ok_0
    } else {
        chain_value(mem, key, chain.drop_first())
    }
}

impl HashMapLookup {
    /// One step of the walk: at the map's end node the key is absent; a node
    /// with the key gives its value; else the walk moves to the next node and
    /// stops, the key absent, when that is the bucket's last node.
    pub open spec fn spec_step(self, mem: &MemoryImage) -> Result<LookupStep, ReadError> {
        if self.container == self.map_end {
            Ok(LookupStep::Done(0))
        } else {
            match mem.spec_read_u32(self.container + 0x0010) {
                Err(e) => Err(e),
                Ok(k) => if k == self.key {
                    match mem.spec_read_u64(self.container + 0x0018) {
                        Err(e) => Err(e),
                        Ok(d) => Ok(LookupStep::Done(d)),
                    }
                } else {
                    match mem.spec_read_u64(self.container + 0x0008) {
                        Err(e) => Err(e),
                        Ok(next) => if next == self.bucket_end {
                            Ok(LookupStep::Done(0))
                        } else {
                            Ok(LookupStep::Next(HashMapLookup { container: next, ..self }))
                        },
                    }
                },
            }
        }
    }

    /// Where the walk ends within `fuel` steps: `None` if it has not ended.
    pub open spec fn spec_run(self, mem: &MemoryImage, fuel: nat) -> Option<Result<u64, ReadError>>
        decreases fuel,
    {
        if fuel == 0 {
            None
        } else {
            match self.spec_step(mem) {
                Err(e) => Some(Err(e)),
                Ok(LookupStep::Done(v)) => Some(Ok(v)),
                Ok(LookupStep::Next(s)) => s.spec_run(mem, (fuel - 1) as nat),
            }
        }
    }

    /// The walk ends within some number of steps.
    pub open spec fn ends(self, mem: &MemoryImage) -> bool {
        exists|n: nat| #[trigger] self.spec_run(mem, n) is Some
    }

    /// What the walk ends with.
    pub open spec fn spec_outcome(self, mem: &MemoryImage) -> Result<u64, ReadError> {
        self.spec_run(mem, choose|n: nat| #[trigger] self.spec_run(mem, n) is Some)->Some_0
    }

    /// Node `i` of `chain` is one the walk passes: it is readable, it is not
    /// the map's end node, if it is not the first it is not the bucket's last
    /// node, and its successor is the next node of the chain or, where the
    /// chain ends, one of the two end nodes.
    pub open spec fn node_ok(self, mem: &MemoryImage, chain: Seq<u64>, i: int) -> bool {
        &&& chain[i] != self.map_end
        &&& i > 0 ==> chain[i] != self.bucket_end
        &&& mem.spec_read_u32(chain[i] + 0x0010) is Ok
        &&& mem.spec_read_u64(chain[i] + 0x0018) is Ok
        &&& mem.spec_read_u64(chain[i] + 0x0008) is Ok
        &&& if i + 1 < chain.len() {
            mem.spec_read_u64(chain[i] + 0x0008)->Ok_0 == chain[i + 1]
        } else {
            mem.spec_read_u64(chain[i] + 0x0008)->Ok_0 == self.bucket_end
                || mem.spec_read_u64(chain[i] + 0x0008)->Ok_0 == self.map_end
        }
    }

    /// `chain` lists the nodes the walk passes from the current node up to
    /// an end node: empty where the current node is the map's end node.
    pub open spec fn is_chain(self, mem: &MemoryImage, chain: Seq<u64>) -> bool {
        if chain.len() == 0 {
            self.container == self.map_end
        } else {
            &&& chain[0] == self.container
            &&& forall|i: int| 0 <= i < chain.len() ==> #[trigger] self.node_ok(mem, chain, i)
        }
    }

    /// One step of the walk.
    pub fn step(&self, mem: &MemoryImage) -> (r: Result<LookupStep, ReadError>)
        ensures
            r == self.spec_step(mem),
    {
        if self.container == self.map_end {
            return Ok(LookupStep::Done(0));
        }
        let container = HashMapContainerPtr { address: self.container };
        let k = container.get_key(mem)?;
        if k == self.key {
            let d = container.get_data(mem)?;
            return Ok(LookupStep::Done(d));
        }
        let next = container.get_next(mem)?;
        if next == self.bucket_end {
            Ok(LookupStep::Done(0))
        } else {
            Ok(LookupStep::Next(HashMapLookup { container: next, ..*self }))
        }
    }

    /// Walks from here to the end: what the walk ends with.
    pub fn run(&self, mem: &MemoryImage) -> (r: Result<u64, ReadError>)
        requires
            self.ends(mem),
        ensures
            r == self.spec_outcome(mem),
    {
        let ghost fuel: nat = choose|n: nat| #[trigger] self.spec_run(mem, n) is Some;
        let ghost mut k: nat = fuel;
        let mut state = *self;
        loop
            invariant
                self.spec_run(mem, fuel) is Some,
                self.spec_outcome(mem) == self.spec_run(mem, fuel)->Some_0,
                state.spec_run(mem, k) == self.spec_run(mem, fuel),
            decreases k,
        {
            assert(k > 0);
            match state.step(mem) {
                Ok(LookupStep::Done(v)) => {
                    return Ok(v);
                },
                Ok(LookupStep::Next(next)) => {
                    proof {
                        k = (k - 1) as nat;
                    }
                    state = next;
                },
                Err(e) => {
                    return Err(e);
                },
            }
        }
    }

    /// Once the walk has ended, more steps change nothing.
    pub proof fn lemma_run_stable(self, mem: &MemoryImage, n: nat, m: nat)
        requires
            self.spec_run(mem, n) is Some,
            n <= m,
        ensures
            self.spec_run(mem, m) == self.spec_run(mem, n),
        decreases n,
    {
        match self.spec_step(mem) {
            Ok(LookupStep::Next(t)) => {
                t.lemma_run_stable(mem, (n - 1) as nat, (m - 1) as nat);
            },
            _ => {},
        }
    }

    /// A walk that has ended within `n` steps ends with what those steps
    /// give.
    pub proof fn lemma_outcome(self, mem: &MemoryImage, n: nat)
        requires
            self.spec_run(mem, n) is Some,
        ensures
            self.ends(mem),
            self.spec_outcome(mem) == self.spec_run(mem, n)->Some_0,
    {
        let c = choose|k: nat| #[trigger] self.spec_run(mem, k) is Some;
        if c <= n {
            self.lemma_run_stable(mem, c, n);
        } else {
            self.lemma_run_stable(mem, n, c);
        }
    }

    /// Past the first node, the rest of a chain of two or more nodes is a
    /// chain from the second.
    pub proof fn lemma_chain_tail(self, mem: &MemoryImage, chain: Seq<u64>)
        requires
            self.is_chain(mem, chain),
            chain.len() > 1,
        ensures
            (HashMapLookup { container: chain[1], ..self }).is_chain(mem, chain.drop_first()),
    {
        let s = HashMapLookup { container: chain[1], ..self };
        let t = chain.drop_first();
        assert forall|i: int| 0 <= i < t.len() implies #[trigger] s.node_ok(mem, t, i) by {
            assert(self.node_ok(mem, chain, i + 1));
        }
    }

    /// A walk along a chain: one step either ends with the chain's value or
    /// moves to the successor of the first node, from which the rest of the
    /// chain is a chain with the same value.
    pub proof fn lemma_chain_step(self, mem: &MemoryImage, chain: Seq<u64>)
        requires
            self.is_chain(mem, chain),
        ensures
            match self.spec_step(mem) {
                Ok(LookupStep::Done(v)) => v == chain_value(mem, self.key, chain),
                Ok(LookupStep::Next(s)) => {
                    &&& chain.len() > 0
                    &&& s.key == self.key
                    &&& s.is_chain(mem, chain.drop_first())
                    &&& chain_value(mem, s.key, chain.drop_first()) == chain_value(mem, self.key, chain)
                },
                Err(_) => false,
            },
    {
        if chain.len() > 0 {
            assert(self.node_ok(mem, chain, 0));
            if chain.len() == 1 {
                assert(chain.drop_first() =~= Seq::<u64>::empty());
                assert(chain_value(mem, self.key, chain.drop_first()) == 0);
            } else {
                assert(self.node_ok(mem, chain, 1));
                self.lemma_chain_tail(mem, chain);
            }
        }
    }

    /// A walk that starts at the first node of a chain ends, within one step
    /// more than the chain has nodes, with the value of the first node that
    /// holds the key, or with `0` when no node holds it.
    pub proof fn lemma_walks_chain(self, mem: &MemoryImage, chain: Seq<u64>)
        requires
            self.is_chain(mem, chain),
        ensures
            self.spec_run(mem, chain.len() + 1) == Some(
                Ok::<u64, ReadError>(chain_value(mem, self.key, chain)),
            ),
        decreases chain.len(),
    {
        self.lemma_chain_step(mem, chain);
        match self.spec_step(mem) {
            Ok(LookupStep::Next(t)) => {
                t.lemma_walks_chain(mem, chain.drop_first());
            },
            _ => {},
        }
    }

    /// A walk along a chain ends, with the chain's value.
    pub proof fn lemma_outcome_of_chain(self, mem: &MemoryImage, chain: Seq<u64>)
        requires
            self.is_chain(mem, chain),
        ensures
            self.ends(mem),
            self.spec_outcome(mem) == Ok::<u64, ReadError>(chain_value(mem, self.key, chain)),
    {
        self.lemma_walks_chain(mem, chain);
        self.lemma_outcome(mem, chain.len() + 1);
    }
}

/// The value a chain gives depends only on the keys and values of its nodes.
pub proof fn lemma_chain_value_agree(m1: &MemoryImage, m2: &MemoryImage, key: u32, chain: Seq<u64>)
    requires
        forall|i: int|
            0 <= i < chain.len() ==> m1.spec_read_u32(#[trigger] chain[i] + 0x0010) == m2.spec_read_u32(
                chain[i] + 0x0010,
            ) && m1.spec_read_u64(chain[i] + 0x0018) == m2.spec_read_u64(chain[i] + 0x0018),
    ensures
        chain_value(m1, key, chain) == chain_value(m2, key, chain),
    decreases chain.len(),
{
    if chain.len() > 0 {
        assert(m1.spec_read_u32(chain[0] + 0x0010) == m2.spec_read_u32(chain[0] + 0x0010));
        let t = chain.drop_first();
        assert forall|i: int| 0 <= i < t.len() implies m1.spec_read_u32(#[trigger] t[i] + 0x0010)
            == m2.spec_read_u32(t[i] + 0x0010) && m1.spec_read_u64(t[i] + 0x0018) == m2.spec_read_u64(
            t[i] + 0x0018,
        ) by {
            assert(t[i] == chain[i + 1]);
        }
        lemma_chain_value_agree(m1, m2, key, t);
    }
}

/// Where the lookup of `key` begins and its nodes form a chain, the walk ends
/// and the entry is the chain's value: that of the first node holding the key,
/// `0` when none does (so `0` for a bucket whose first node is the map's end
/// node).
pub proof fn lemma_entry_is_chain_value(map: HashMapPtr, mem: &MemoryImage, key: u32, chain: Seq<u64>)
    requires
        map.spec_start_lookup(mem, key) matches Ok(s) && s.is_chain(mem, chain),
    ensures
        map.lookup_ends(mem, key),
        map.spec_entry(mem, key) == Ok::<u64, ReadError>(chain_value(mem, key, chain)),
{
    let s = map.spec_start_lookup(mem, key)->Ok_0;
    s.lemma_outcome_of_chain(mem, chain);
}

/// The bucket a lookup of `key` reads, by the map's header in `mem`.
pub open spec fn lookup_bucket(map: HashMapPtr, mem: &MemoryImage, key: u32) -> int {
    bucket_address(
        mem.spec_read_u64(map.address + 0x0010)->Ok_0,
        mem.spec_read_u64(map.address + 0x0028)->Ok_0,
        key,
    )
}

/// A lookup reads only the map's header, the key's bucket and the nodes of
/// its chain: two memories that agree there begin the lookup alike and give
/// the same entry, whatever the other buckets and nodes hold.
pub proof fn lemma_lookup_reads_only_its_chain(
    map: HashMapPtr,
    m1: &MemoryImage,
    m2: &MemoryImage,
    key: u32,
    chain: Seq<u64>,
)
    requires
        map.spec_start_lookup(m1, key) matches Ok(s) ==> s.is_chain(m1, chain),
        m1.spec_read_u64(map.address + 0x0000) == m2.spec_read_u64(map.address + 0x0000),
        m1.spec_read_u64(map.address + 0x0010) == m2.spec_read_u64(map.address + 0x0010),
        m1.spec_read_u64(map.address + 0x0028) == m2.spec_read_u64(map.address + 0x0028),
        m1.spec_read_u64(lookup_bucket(map, m1, key) + 0x0000) == m2.spec_read_u64(
            lookup_bucket(map, m1, key) + 0x0000,
        ),
        m1.spec_read_u64(lookup_bucket(map, m1, key) + 0x0008) == m2.spec_read_u64(
            lookup_bucket(map, m1, key) + 0x0008,
        ),
        forall|i: int|
            0 <= i < chain.len() ==> {
                &&& m1.spec_read_u64(#[trigger] chain[i] + 0x0008) == m2.spec_read_u64(chain[i] + 0x0008)
                &&& m1.spec_read_u32(chain[i] + 0x0010) == m2.spec_read_u32(chain[i] + 0x0010)
                &&& m1.spec_read_u64(chain[i] + 0x0018) == m2.spec_read_u64(chain[i] + 0x0018)
            },
    ensures
        map.spec_start_lookup(m2, key) == map.spec_start_lookup(m1, key),
        map.lookup_ends(m1, key),
        map.lookup_ends(m2, key),
        map.spec_entry(m2, key) == map.spec_entry(m1, key),
{
    assert(map.spec_start_lookup(m2, key) == map.spec_start_lookup(m1, key));
    match map.spec_start_lookup(m1, key) {
        Ok(s) => {
            if chain.len() > 0 {
                assert forall|i: int| 0 <= i < chain.len() implies #[trigger] s.node_ok(m2, chain, i) by {
                    assert(s.node_ok(m1, chain, i));
                    if i + 1 < chain.len() {
                        assert(m1.spec_read_u64(chain[i] + 0x0008) == m2.spec_read_u64(chain[i] + 0x0008));
                    }
                }
            }
            assert(s.is_chain(m2, chain));
            lemma_entry_is_chain_value(map, m1, key, chain);
            lemma_entry_is_chain_value(map, m2, key, chain);
            assert forall|i: int| 0 <= i < chain.len() implies m1.spec_read_u32(#[trigger] chain[i] + 0x0010)
                == m2.spec_read_u32(chain[i] + 0x0010) && m1.spec_read_u64(chain[i] + 0x0018)
                == m2.spec_read_u64(chain[i] + 0x0018) by {
                assert(m1.spec_read_u64(chain[i] + 0x0008) == m2.spec_read_u64(chain[i] + 0x0008));
            }
            lemma_chain_value_agree(m1, m2, key, chain);
        },
        Err(_) => {},
    }
}

/// Driving a lookup step by step comes to what `get_entry` gives: where the
/// walk ends, it ends within some number of steps with the entry's value.
pub proof fn lemma_steps_agree_with_get_entry(map: HashMapPtr, mem: &MemoryImage, key: u32)
    requires
        map.lookup_ends(mem, key),
    ensures
        map.spec_start_lookup(mem, key) matches Ok(s) ==> exists|n: nat|
            #[trigger] s.spec_run(mem, n) == Some(map.spec_entry(mem, key)),
{
    match map.spec_start_lookup(mem, key) {
        Ok(s) => {
            let n = choose|n: nat| #[trigger] s.spec_run(mem, n) is Some;
            s.lemma_outcome(mem, n);
            assert(s.spec_run(mem, n) == Some(map.spec_entry(mem, key)));
        },
        Err(_) => {},
    }
}

} // verus!
