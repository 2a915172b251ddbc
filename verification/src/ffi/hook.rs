//! What hooking a call computes: the 32-bit displacement that makes a `call`
//! reach a new target, the stub that jumps to an address anywhere in the
//! 64-bit space, and the places tried for that stub near the call.
use vstd::prelude::*;

verus! {

/// The length of the far-jump stub.
pub const FAR_JUMP_LEN: u64 = 0x13;

/// The distance between the places tried for a stub.
pub const CODECAVE_STEP: u64 = 0x100_0000;

/// How far from the call a stub may be placed (exclusive).
pub const CODECAVE_RANGE: u64 = 0xffff_ffff;

/// The little-endian bytes of a `u64`.
pub open spec fn le_bytes_u64(v: u64) -> Seq<u8> {
    Seq::new(8, |i: int| ((v as int / pow256_int(i)) % 256) as u8)
}

/// `256` raised to the power `i`, for `0 <= i < 8`.
pub open spec fn pow256_int(i: int) -> int {
    if i <= 0 {
        1
    } else if i == 1 {
        0x100
    } else if i == 2 {
        0x1_0000
    } else if i == 3 {
        0x100_0000
    } else if i == 4 {
        0x1_0000_0000
    } else if i == 5 {
        0x100_0000_0000
    } else if i == 6 {
        0x1_0000_0000_0000
    } else {
        0x100_0000_0000_0000
    }
}

/// The stub: push rax; push rax; movabs rax, destination;
/// mov [rsp+8], rax; pop rax; ret. It returns to `destination` with every
/// register as it was.
pub open spec fn spec_far_jump(destination: u64) -> Seq<u8> {
    seq![0x50u8, 0x50u8, 0x48u8, 0xb8u8] + le_bytes_u64(destination) + seq![
        0x48u8,
        0x89u8,
        0x44u8,
        0x24u8,
        0x08u8,
        0x58u8,
        0xc3u8,
    ]
}

/// The far-jump stub to `destination`.
pub fn far_jump_code(destination: u64) -> (code: Vec<u8>)
    ensures
        code@ == spec_far_jump(destination),
        code@.len() == FAR_JUMP_LEN,
{
    let mut code: Vec<u8> = vec![0x50, 0x50, 0x48, 0xb8];
    let mut i: u64 = 0;
    let mut div: u64 = 1;
    while i < 8
        invariant
            i <= 8,
            div == pow256_int(i as int),
            code@.len() == 4 + i,
            code@.subrange(0, 4) == seq![0x50u8, 0x50u8, 0x48u8, 0xb8u8],
            forall|j: int| 0 <= j < i ==> #[trigger] code@[4 + j] == le_bytes_u64(destination)[j],
        decreases 8 - i,
    {
        code.push(((destination / div) % 256) as u8);
        if i < 7 {
            div = div * 256;
        }
        i = i + 1;
    }
    let ghost head = code@;
    assert(head =~= seq![0x50u8, 0x50u8, 0x48u8, 0xb8u8] + le_bytes_u64(destination)) by {
        assert forall|j: int| 0 <= j < 12 implies head[j] == (seq![0x50u8, 0x50u8, 0x48u8, 0xb8u8]
            + le_bytes_u64(destination))[j] by {
            if j < 4 {
                assert(head[j] == head.subrange(0, 4)[j]);
            } else {
                assert(head[4 + (j - 4)] == le_bytes_u64(destination)[j - 4]);
            }
        }
    }
    code.push(0x48);
    code.push(0x89);
    code.push(0x44);
    code.push(0x24);
    code.push(0x08);
    code.push(0x58);
    code.push(0xc3);
    assert(code@ =~= spec_far_jump(destination));
    code
}

/// The displacement that a five-byte `call` at `call_address` needs to reach
/// `target`: the difference from the end of the call, modulo 2^32.
pub fn call_rel32(call_address: u64, target: u64) -> (r: u32)
    requires
        call_address + 5 <= u64::MAX,
    ensures
        r == (target - (call_address + 5)) % 0x1_0000_0000,
{
    let d = target.wrapping_sub(call_address + 5);
    (d % 0x1_0000_0000) as u32
}

/// What the operating system answered about the place last queried.
#[derive(Clone, Copy, Debug, PartialEq, Eq, Structural)]
pub enum RegionAnswer {
    /// The query itself failed.
    QueryFailed,
    /// The place is free memory.
    Free,
    /// The place is reserved or committed.
    Taken,
}

/// What the search asks for next.
#[derive(Clone, Copy, Debug, PartialEq, Eq, Structural)]
pub enum CodecaveAction {
    /// Query the memory at this place.
    Query(u64),
    /// Allocate the stub at this free place.
    Allocate(u64),
    /// Give up: the last query failed.
    QueryFailed,
    /// Give up: no free place lies within range.
    GiveUp,
}

/// The search for a place for the stub: from the call's address on, in steps
/// of `CODECAVE_STEP`, while within `CODECAVE_RANGE` of the call.
#[derive(Clone, Copy, Debug, PartialEq, Eq, Structural)]
pub struct CodecaveSearch {
    pub close_address: u64,
    pub cave_address: u64,
}

impl CodecaveSearch {
    /// The search starts at the call itself.
    pub fn new(close_address: u64) -> (s: Self)
        ensures
            s.close_address == close_address,
            s.cave_address == close_address,
    {
        CodecaveSearch { close_address, cave_address: close_address }
    }

    /// The place to try next, or `None` when the search is out of range.
    pub fn candidate(&self) -> (r: Option<u64>)
        requires
            self.close_address <= self.cave_address,
        ensures
            r == if self.cave_address - self.close_address < CODECAVE_RANGE {
                Some(self.cave_address)
            } else {
                None::<u64>
            },
    {
        if self.cave_address - self.close_address < CODECAVE_RANGE {
            Some(self.cave_address)
        } else {
            None
        }
    }

    /// Moves on to the next place.
    pub fn advance(&mut self)
        requires
            old(self).cave_address + CODECAVE_STEP <= u64::MAX,
        ensures
            final(self).close_address == old(self).close_address,
            final(self).cave_address == old(self).cave_address + CODECAVE_STEP,
    {
        self.cave_address = self.cave_address + CODECAVE_STEP;
    }

    /// The first thing to do: query the place at the call itself.
    pub fn first_action(&self) -> (a: CodecaveAction)
        requires
            self.close_address == self.cave_address,
        ensures
            a == CodecaveAction::Query(self.cave_address),
    {
        CodecaveAction::Query(self.cave_address)
    }

    /// Takes the answer about the place last queried: a failed query ends
    /// the search, a free place is allocated, and past a taken place the
    /// search moves on one step and queries there while within range, else
    /// gives up.
    pub fn on_answer(&mut self, answer: RegionAnswer) -> (a: CodecaveAction)
        requires
            old(self).close_address <= old(self).cave_address,
            old(self).cave_address - old(self).close_address < CODECAVE_RANGE,
            answer == RegionAnswer::Taken ==> old(self).cave_address + CODECAVE_STEP <= u64::MAX,
        ensures
            final(self).close_address == old(self).close_address,
            final(self).close_address <= final(self).cave_address,
            match answer {
                RegionAnswer::QueryFailed => {
                    &&& a == CodecaveAction::QueryFailed
                    &&& final(self).cave_address == old(self).cave_address
                },
                RegionAnswer::Free => {
                    &&& a == CodecaveAction::Allocate(old(self).cave_address)
                    &&& final(self).cave_address == old(self).cave_address
                },
                RegionAnswer::Taken => {
                    &&& final(self).cave_address == old(self).cave_address + CODECAVE_STEP
                    &&& a == if final(self).cave_address - final(self).close_address < CODECAVE_RANGE {
                        CodecaveAction::Query(final(self).cave_address)
                    } else {
                        CodecaveAction::GiveUp
                    }
                },
            },
    {
        match answer {
            RegionAnswer::QueryFailed => CodecaveAction::QueryFailed,
            RegionAnswer::Free => CodecaveAction::Allocate(self.cave_address),
            RegionAnswer::Taken => {
                self.advance();
                match self.candidate() {
                    Some(place) => CodecaveAction::Query(place),
                    None => CodecaveAction::GiveUp,
                }
            },
        }
    }
}

/// The places tried are the call's address plus a whole number of steps, of
/// which there are 256: the search, advanced `k` times, offers
/// `close + k * CODECAVE_STEP` exactly while `k < 256`.
pub proof fn lemma_codecave_candidates(close: u64, k: nat)
    requires
        close + k * CODECAVE_STEP <= u64::MAX,
    ensures
        (k * CODECAVE_STEP < CODECAVE_RANGE) <==> k < 256,
{
    assert((k * CODECAVE_STEP < CODECAVE_RANGE) <==> k < 256) by (nonlinear_arith);
}

} // verus!
