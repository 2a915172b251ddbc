//! A snapshot of a process's memory: a list of byte regions at known base
//! addresses, and little-endian reads of fixed-width integers from it.
//!
//! Every read reports the first address it needed and did not find, so that a
//! caller that reads live memory can copy that address in and try again.
use vstd::prelude::*;

verus! {

/// Why a read from a [`MemoryImage`] failed.
#[derive(Clone, Copy, Debug, PartialEq, Eq, Structural)]
pub enum ReadError {
    /// The byte at this address is not held by any region of the image.
    Unmapped(u64),
    /// The address just past the bytes asked for is not a 64-bit address.
    AddressOverflow,
}

/// A contiguous run of bytes copied from the address `base` onwards.
pub struct Region {
    pub base: u64,
    pub bytes: Vec<u8>,
}

impl Region {
    /// The address `a` lies inside this region.
    pub open spec fn holds(&self, a: int) -> bool {
        self.base <= a < self.base + self.bytes@.len()
    }
}

/// The byte at address `a` in a list of regions; where regions overlap, the
/// one added last is the one that counts.
pub open spec fn region_byte(rs: Seq<Region>, a: int) -> Option<u8>
    decreases rs.len(),
{
    if rs.len() == 0 {
        None
    } else if rs.last().holds(a) {
        Some(rs.last().bytes@[a - rs.last().base])
    } else {
        region_byte(rs.drop_last(), a)
    }
}

/// The unsigned number whose little-endian bytes are `s`.
pub open spec fn le_value(s: Seq<u8>) -> nat
    decreases s.len(),
{
    if s.len() == 0 {
        0
    } else {
        s[0] as nat + 256 * le_value(s.drop_first())
    }
}

/// `256` raised to the power `n`.
pub open spec fn pow256(n: nat) -> nat
    decreases n,
{
    if n == 0 {
        1
    } else {
        256 * pow256((n - 1) as nat)
    }
}

/// The number held in `n` little-endian bytes is below `256^n`.
pub proof fn lemma_le_value_bound(s: Seq<u8>)
    ensures
        le_value(s) < pow256(s.len()),
    decreases s.len(),
{
    if s.len() > 0 {
        lemma_le_value_bound(s.drop_first());
    }
}

/// A snapshot of memory made of regions.
pub struct MemoryImage {
    pub regions: Vec<Region>,
}

impl MemoryImage {
    /// The byte at address `a`, if the image holds it.
    pub open spec fn byte(&self, a: int) -> Option<u8> {
        region_byte(self.regions@, a)
    }

    /// The `n` bytes from `a` on, or the first of them that is missing.
    pub open spec fn bytes_from(&self, a: int, n: nat) -> Result<Seq<u8>, ReadError>
        decreases n,
    {
        if n == 0 {
            Ok(Seq::empty())
        } else {
            match self.byte(a) {
                None => Err(ReadError::Unmapped(a as u64)),
                Some(b) => match self.bytes_from(a + 1, (n - 1) as nat) {
                    Ok(s) => Ok(seq![b] + s),
                    Err(e) => Err(e),
                },
            }
        }
    }

    /// Reading `n` bytes at `a`: refused when the address just past them is
    /// not a 64-bit address, else the bytes or the first missing address.
    pub open spec fn spec_read_bytes(&self, a: int, n: nat) -> Result<Seq<u8>, ReadError> {
        if a + n > u64::MAX {
            Err(ReadError::AddressOverflow)
        } else {
            self.bytes_from(a, n)
        }
    }

    /// Reading a little-endian unsigned number of `n` bytes at `a`.
    #[verifier::opaque]
    pub open spec fn spec_read_le(&self, a: int, n: nat) -> Result<nat, ReadError> {
        match self.spec_read_bytes(a, n) {
            Ok(s) => Ok(le_value(s)),
            Err(e) => Err(e),
        }
    }

    pub open spec fn spec_read_u8(&self, a: int) -> Result<u8, ReadError> {
        match self.spec_read_le(a, 1) {
            Ok(v) => Ok(v as u8),
            Err(e) => Err(e),
        }
    }

    pub open spec fn spec_read_u16(&self, a: int) -> Result<u16, ReadError> {
        match self.spec_read_le(a, 2) {
            Ok(v) => Ok(v as u16),
            Err(e) => Err(e),
        }
    }

    pub open spec fn spec_read_u32(&self, a: int) -> Result<u32, ReadError> {
        match self.spec_read_le(a, 4) {
            Ok(v) => Ok(v as u32),
            Err(e) => Err(e),
        }
    }

    pub open spec fn spec_read_u64(&self, a: int) -> Result<u64, ReadError> {
        match self.spec_read_le(a, 8) {
            Ok(v) => Ok(v as u64),
            Err(e) => Err(e),
        }
    }

    /// Reading bytes the image holds gives them back: when the `s.len()`
    /// bytes from `a` on are `s`, reading them gives `s`, and reading them as
    /// a little-endian number gives the number `s` holds.
    pub proof fn lemma_read_bytes_held(&self, a: int, s: Seq<u8>)
        requires
            0 <= a,
            a + s.len() <= u64::MAX,
            forall|i: int| 0 <= i < s.len() ==> #[trigger] self.byte(a + i) == Some(s[i]),
        ensures
            self.spec_read_bytes(a, s.len()) == Ok::<Seq<u8>, ReadError>(s),
            self.spec_read_le(a, s.len()) == Ok::<nat, ReadError>(le_value(s)),
        decreases s.len(),
    {
        reveal(MemoryImage::spec_read_le);
        if s.len() > 0 {
            let t = s.drop_first();
            assert forall|i: int| 0 <= i < t.len() implies #[trigger] self.byte((a + 1) + i) == Some(t[i]) by {
                assert(self.byte(a + (i + 1)) == Some(s[i + 1]));
            }
            self.lemma_read_bytes_held(a + 1, t);
            assert(self.byte(a + 0) == Some(s[0]));
            assert(seq![s[0]] + t =~= s);
        } else {
            assert(s =~= Seq::<u8>::empty());
        }
    }

    /// A read whose end is not a 64-bit address fails with `AddressOverflow`.
    pub proof fn lemma_read_overflow(&self, a: int, n: nat)
        requires
            a + n > u64::MAX,
        ensures
            self.spec_read_le(a, n) == Err::<nat, ReadError>(ReadError::AddressOverflow),
    {
        reveal(MemoryImage::spec_read_le);
    }

    /// An image that holds no memory.
    pub fn new() -> (m: MemoryImage)
        ensures
            forall|a: int| m.byte(a) is None,
    {
        MemoryImage { regions: Vec::new() }
    }

    /// Adds a copy of `bytes` at `base`; it takes precedence over what the
    /// image held at those addresses.
    pub fn add_region(&mut self, base: u64, bytes: Vec<u8>)
        ensures
            forall|a: int|
                #![trigger final(self).byte(a)]
                final(self).byte(a) == if base <= a < base + bytes@.len() {
                    Some(bytes@[a - base])
                } else {
                    old(self).byte(a)
                },
            forall|k: int, n: nat|
                0 <= k && k + n <= bytes@.len() && base + k + n <= u64::MAX ==> #[trigger] final(self).spec_read_bytes(base + k, n) == Ok::<Seq<u8>, ReadError>(bytes@.subrange(k, k + n)),
    {
        let ghost old_rs = self.regions@;
        let ghost r = Region { base, bytes };
        let ghost bs = bytes@;
        self.regions.push(Region { base, bytes });
        assert(self.regions@.drop_last() =~= old_rs);
        assert(self.regions@.last() == r);
        assert forall|k: int, n: nat|
            0 <= k && k + n <= bs.len() && base + k + n <= u64::MAX implies #[trigger] self.spec_read_bytes(
            base + k,
            n,
        ) == Ok::<Seq<u8>, ReadError>(bs.subrange(k, k + n)) by {
            let s = bs.subrange(k, k + n);
            assert forall|i: int| 0 <= i < s.len() implies #[trigger] self.byte((base + k) + i) == Some(
                s[i],
            ) by {
                assert(self.regions@.last().holds(base + k + i));
            }
            self.lemma_read_bytes_held(base + k, s);
        }
    }

    /// The byte at address `a`.
    pub fn read_byte(&self, a: u64) -> (r: Option<u8>)
        ensures
            r == self.byte(a as int),
    {
        let mut i = self.regions.len();
        assert(self.regions@.take(i as int) =~= self.regions@);
        while i > 0
            invariant
                i <= self.regions@.len(),
                region_byte(self.regions@, a as int) == region_byte(
                    self.regions@.take(i as int),
                    a as int,
                ),
            decreases i,
        {
            let ghost rs = self.regions@.take(i as int);
            assert(rs.drop_last() =~= self.regions@.take(i - 1));
            let region = &self.regions[i - 1];
            if region.base <= a && a - region.base < region.bytes.len() as u64 {
                let idx = (a - region.base) as usize;
                return Some(region.bytes[idx]);
            }
            i = i - 1;
        }
        None
    }

    /// The `n` bytes from `a` on, or the reason they cannot be read.
    pub fn read_bytes(&self, a: u64, n: u64) -> (r: Result<Vec<u8>, ReadError>)
        ensures
            match r {
                Ok(v) => self.spec_read_bytes(a as int, n as nat) == Ok::<Seq<u8>, ReadError>(v@),
                Err(e) => self.spec_read_bytes(a as int, n as nat) == Err::<Seq<u8>, ReadError>(e),
            },
            r matches Ok(v) ==> v@.len() == n,
    {
        if a > u64::MAX - n {
            return Err(ReadError::AddressOverflow);
        }
        let mut out: Vec<u8> = Vec::new();
        let mut i: u64 = 0;
        while i < n
            invariant
                i <= n,
                a + n <= u64::MAX,
                out@.len() == i,
                self.bytes_from(a as int, n as nat) == match self.bytes_from(
                    a + i,
                    (n - i) as nat,
                ) {
                    Ok(s) => Ok(out@ + s),
                    Err(e) => Err::<Seq<u8>, ReadError>(e),
                },
            decreases n - i,
        {
            match self.read_byte(a + i) {
                None => {
                    return Err(ReadError::Unmapped(a + i));
                },
                Some(b) => {
                    let ghost prev = out@;
                    out.push(b);
                    proof {
                        match self.bytes_from(a + i + 1, (n - i - 1) as nat) {
                            Ok(s) => {
                                assert(prev + (seq![b] + s) =~= out@ + s);
                            },
                            Err(e) => {},
                        }
                    }
                    i = i + 1;
                },
            }
        }
        assert(out@ + Seq::<u8>::empty() =~= out@);
        Ok(out)
    }

    /// Reads a little-endian unsigned number of `n <= 8` bytes at `a`.
    pub fn read_le(&self, a: u64, n: u64) -> (r: Result<u64, ReadError>)
        requires
            n <= 8,
        ensures
            match r {
                Ok(v) => self.spec_read_le(a as int, n as nat) == Ok::<nat, ReadError>(v as nat),
                Err(e) => self.spec_read_le(a as int, n as nat) == Err::<nat, ReadError>(e),
            },
            r matches Ok(v) ==> v < pow256(n as nat),
    {
        reveal(MemoryImage::spec_read_le);
        let bytes = self.read_bytes(a, n)?;
        proof {
            lemma_le_value_bound(bytes@);
        }
        Ok(decode_le(&bytes))
    }

    /// Reads the byte at `base + offset`.
    pub fn read_u8(&self, base: u64, offset: u64) -> (r: Result<u8, ReadError>)
        ensures
            r == self.spec_read_u8(base + offset),
    {
        reveal(MemoryImage::spec_read_le);
        match base.checked_add(offset) {
            None => Err(ReadError::AddressOverflow),
            Some(a) => {
                let v = self.read_le(a, 1)?;
                proof {
                    let s = self.spec_read_bytes(a as int, 1)->Ok_0;
                    lemma_le_value_bound(s);
                    reveal_with_fuel(pow256, 2);
                    assert(v < 0x100);
                }
                Ok(v as u8)
            },
        }
    }

    /// Reads the little-endian `u16` at `base + offset`.
    pub fn read_u16(&self, base: u64, offset: u64) -> (r: Result<u16, ReadError>)
        ensures
            r == self.spec_read_u16(base + offset),
    {
        reveal(MemoryImage::spec_read_le);
        match base.checked_add(offset) {
            None => Err(ReadError::AddressOverflow),
            Some(a) => {
                let v = self.read_le(a, 2)?;
                proof {
                    let s = self.spec_read_bytes(a as int, 2)->Ok_0;
                    lemma_le_value_bound(s);
                    reveal_with_fuel(pow256, 3);
                    assert(v < 0x1_0000);
                }
                Ok(v as u16)
            },
        }
    }

    /// Reads the little-endian `u32` at `base + offset`.
    pub fn read_u32(&self, base: u64, offset: u64) -> (r: Result<u32, ReadError>)
        ensures
            r == self.spec_read_u32(base + offset),
    {
        reveal(MemoryImage::spec_read_le);
        match base.checked_add(offset) {
            None => Err(ReadError::AddressOverflow),
            Some(a) => {
                let v = self.read_le(a, 4)?;
                proof {
                    let s = self.spec_read_bytes(a as int, 4)->Ok_0;
                    lemma_le_value_bound(s);
                    reveal_with_fuel(pow256, 5);
                    assert(v < 0x1_0000_0000);
                }
                Ok(v as u32)
            },
        }
    }

    /// Reads the little-endian `u64` at `base + offset`.
    pub fn read_u64(&self, base: u64, offset: u64) -> (r: Result<u64, ReadError>)
        ensures
            r == self.spec_read_u64(base + offset),
    {
        reveal(MemoryImage::spec_read_le);
        match base.checked_add(offset) {
            None => Err(ReadError::AddressOverflow),
            Some(a) => self.read_le(a, 8),
        }
    }
}

/// Reading the `u64` at each address of `addrs` in turn: the values, or the
/// error of the first read that fails.
pub open spec fn spec_read_each_u64(mem: &MemoryImage, addrs: Seq<u64>) -> Result<Seq<u64>, ReadError>
    decreases addrs.len(),
{
    if addrs.len() == 0 {
        Ok(Seq::empty())
    } else {
        match mem.spec_read_u64(addrs[0] as int) {
            Err(e) => Err(e),
            Ok(v) => match spec_read_each_u64(mem, addrs.drop_first()) {
                Ok(rest) => Ok(seq![v] + rest),
                Err(e) => Err(e),
            },
        }
    }
}

/// Reads the `u64` at each address of `addrs`, in order.
pub fn read_each_u64(mem: &MemoryImage, addrs: &Vec<u64>) -> (r: Result<Vec<u64>, ReadError>)
    ensures
        match spec_read_each_u64(mem, addrs@) {
            Ok(s) => r matches Ok(v) && v@ == s,
            Err(e) => r == Err::<Vec<u64>, ReadError>(e),
        },
{
    let mut out: Vec<u64> = Vec::new();
    let mut i: usize = 0;
    assert(addrs@.skip(0) =~= addrs@);
    while i < addrs.len()
        invariant
            i <= addrs@.len(),
            out@.len() == i,
            spec_read_each_u64(mem, addrs@) == match spec_read_each_u64(mem, addrs@.skip(i as int)) {
                Ok(s) => Ok(out@ + s),
                Err(e) => Err::<Seq<u64>, ReadError>(e),
            },
        decreases addrs@.len() - i,
    {
        assert(addrs@.skip(i as int).drop_first() =~= addrs@.skip(i + 1));
        let v = mem.read_u64(addrs[i], 0)?;
        let ghost prev = out@;
        out.push(v);
        proof {
            match spec_read_each_u64(mem, addrs@.skip(i + 1)) {
                Ok(s) => {
                    assert(prev + (seq![v] + s) =~= out@ + s);
                },
                Err(e) => {},
            }
        }
        i = i + 1;
    }
    assert(addrs@.skip(i as int) =~= Seq::<u64>::empty());
    assert(out@ + Seq::<u64>::empty() =~= out@);
    Ok(out)
}

/// The little-endian number held in at most eight bytes.
pub fn decode_le(bytes: &Vec<u8>) -> (v: u64)
    requires
        bytes@.len() <= 8,
    ensures
        v as nat == le_value(bytes@),
{
    let mut acc: u64 = 0;
    let mut i = bytes.len();
    proof {
        assert(bytes@.skip(i as int) =~= Seq::<u8>::empty());
    }
    while i > 0
        invariant
            i <= bytes@.len() <= 8,
            acc as nat == le_value(bytes@.skip(i as int)),
        decreases i,
    {
        proof {
            let t = bytes@.skip(i - 1);
            assert(t.drop_first() =~= bytes@.skip(i as int));
            lemma_le_value_bound(bytes@.skip(i as int));
            lemma_pow256_small((bytes@.len() - i) as nat);
        }
        acc = (bytes[i - 1] as u64) + 256 * acc;
        i = i - 1;
    }
    assert(bytes@.skip(0) =~= bytes@);
    acc
}

proof fn lemma_pow256_small(n: nat)
    requires
        n <= 7,
    ensures
        pow256(n) <= pow256(7),
        pow256(7) == 0x0100_0000_0000_0000,
    decreases n,
{
    reveal_with_fuel(pow256, 8);
    if n > 0 {
        lemma_pow256_small((n - 1) as nat);
    }
}

} // verus!
