//! The game's UTF-16 string buffer: up to seven code units are held inside the
//! buffer itself; longer strings are held elsewhere and the buffer's first word
//! points to them. The length, in code units, is at offset `0x10`.
use vstd::prelude::*;

use crate::api::AnnoPtr;
use crate::memory::{MemoryImage, ReadError};

verus! {

/// A UTF-16 high (leading) surrogate.
pub open spec fn is_high_surrogate(u: u16) -> bool {
    0xD800 <= u <= 0xDBFF
}

/// A UTF-16 low (trailing) surrogate.
pub open spec fn is_low_surrogate(u: u16) -> bool {
    0xDC00 <= u <= 0xDFFF
}

/// The characters of UTF-16 code units, each unpaired surrogate replaced by
/// U+FFFD.
pub open spec fn utf16_lossy(units: Seq<u16>) -> Seq<char>
    decreases units.len(),
{
    if units.len() == 0 {
        Seq::empty()
    } else if units.len() >= 2 && is_high_surrogate(units[0]) && is_low_surrogate(units[1]) {
        seq![(0x10000 + (units[0] - 0xD800) * 0x400 + (units[1] - 0xDC00)) as char]
            + utf16_lossy(units.skip(2))
    } else if is_high_surrogate(units[0]) || is_low_surrogate(units[0]) {
        seq!['\u{FFFD}'] + utf16_lossy(units.drop_first())
    } else {
        seq![units[0] as char] + utf16_lossy(units.drop_first())
    }
}

/// `String::from_utf16_lossy` from std: it decodes UTF-16 and replaces each
/// unpaired surrogate with U+FFFD, which is what `utf16_lossy` states.
#[verifier::external_body]
fn decode_utf16_lossy(units: &Vec<u16>) -> (s: String)
    ensures
        s@ == utf16_lossy(units@),
{
    String::from_utf16_lossy(units)
}

/// The code units held in little-endian byte pairs.
pub open spec fn le_units(bytes: Seq<u8>) -> Seq<u16> {
    Seq::new(bytes.len() / 2, |i: int| (bytes[2 * i] + 256 * bytes[2 * i + 1]) as u16)
}

/// The code units held in little-endian byte pairs.
pub fn decode_units(bytes: &Vec<u8>) -> (units: Vec<u16>)
    ensures
        units@ == le_units(bytes@),
{
    let mut units: Vec<u16> = Vec::new();
    let n = bytes.len() / 2;
    let mut i: usize = 0;
    while i < n
        invariant
            n == bytes@.len() / 2,
            i <= n,
            units@.len() == i,
            forall|j: int| 0 <= j < i ==> #[trigger] units@[j] == le_units(bytes@)[j],
        decreases n - i,
    {
        assert(2 * i + 1 < bytes.len());
        let k: usize = i + i;
        let u = bytes[k] as u16 + 256 * (bytes[k + 1] as u16);
        units.push(u);
        i = i + 1;
    }
    assert(units@ =~= le_units(bytes@));
    units
}

/// A string buffer of the game.
pub struct StringBufferPtr {
    pub address: u64,
}

impl AnnoPtr for StringBufferPtr {
    open spec fn spec_address(&self) -> u64 {
        self.address
    }

    fn new(address: u64) -> (r: Self) {
        StringBufferPtr { address }
    }

    fn get_address(&self) -> (a: u64) {
        self.address
    }
}

impl StringBufferPtr {
    /// Where the code units are: at the address in the first word when the
    /// string has eight units or more, else inside the buffer itself.
    pub open spec fn spec_buf(&self, mem: &MemoryImage) -> Result<u64, ReadError> {
        match mem.spec_read_u64(self.address + 0x0010) {
            Err(e) => Err(e),
            Ok(len) => if len >= 8 {
                mem.spec_read_u64(self.address + 0x0000)
            } else {
                Ok(self.address)
            },
        }
    }

    /// The string's code units: `len` of them from where they are held.
    pub open spec fn spec_units(&self, mem: &MemoryImage) -> Result<Seq<u16>, ReadError> {
        match self.spec_buf(mem) {
            Err(e) => Err(e),
            Ok(buf) => match mem.spec_read_u64(self.address + 0x0010) {
                Err(e) => Err(e),
                Ok(len) => match mem.spec_read_bytes(buf as int, 2 * len as nat) {
                    Err(e) => Err(e),
                    Ok(bytes) => Ok(le_units(bytes)),
                },
            },
        }
    }

    /// The address of the string's code units.
    pub fn get_buf(&self, mem: &MemoryImage) -> (r: Result<u64, ReadError>)
        ensures
            r == self.spec_buf(mem),
    {
        if self.get_len(mem)? >= 8 {
            mem.read_u64(self.address, 0x0000)
        } else {
            Ok(self.address)
        }
    }

    /// The string's length in code units.
    pub fn get_len(&self, mem: &MemoryImage) -> (r: Result<u64, ReadError>)
        ensures
            r == mem.spec_read_u64(self.address + 0x0010),
    {
        mem.read_u64(self.address, 0x0010)
    }

    /// The string's code units.
    pub fn get_units(&self, mem: &MemoryImage) -> (r: Result<Vec<u16>, ReadError>)
        ensures
            match self.spec_units(mem) {
                Ok(s) => r matches Ok(v) && v@ == s,
                Err(e) => r == Err::<Vec<u16>, ReadError>(e),
            },
    {
        let buf = self.get_buf(mem)?;
        let len = self.get_len(mem)?;
        if len > u64::MAX / 2 {
            return Err(ReadError::AddressOverflow);
        }
        let bytes = mem.read_bytes(buf, 2 * len)?;
        Ok(decode_units(&bytes))
    }

    /// The string, each unpaired surrogate replaced by U+FFFD.
    pub fn get_string(&self, mem: &MemoryImage) -> (r: Result<String, ReadError>)
        ensures
            match self.spec_units(mem) {
                Ok(s) => r matches Ok(v) && v@ == utf16_lossy(s),
                Err(e) => r == Err::<String, ReadError>(e),
            },
    {
        let units = self.get_units(mem)?;
        Ok(decode_utf16_lossy(&units))
    }
}

/// A string of fewer than eight code units (seven at most) is held inside the
/// buffer: its units are the `len` little-endian words from the buffer's own
/// address, whatever the buffer's first word holds. One of eight or more is
/// held where the buffer's first word points.
pub proof fn lemma_where_units_are_held(b: StringBufferPtr, mem: &MemoryImage)
    ensures
        mem.spec_read_u64(b.address + 0x0010) matches Ok(len) ==> len < 8 ==> {
            &&& b.spec_buf(mem) == Ok::<u64, ReadError>(b.address)
            &&& b.spec_units(mem) == match mem.spec_read_bytes(b.address as int, 2 * len as nat) {
                Ok(bytes) => Ok::<Seq<u16>, ReadError>(le_units(bytes)),
                Err(e) => Err::<Seq<u16>, ReadError>(e),
            }
        },
        mem.spec_read_u64(b.address + 0x0010) matches Ok(len) ==> len >= 8 ==> {
            &&& b.spec_buf(mem) == mem.spec_read_u64(b.address + 0x0000)
            &&& mem.spec_read_u64(b.address + 0x0000) matches Ok(p) ==> b.spec_units(mem) == match mem.spec_read_bytes(
                p as int,
                2 * len as nat,
            ) {
                Ok(bytes) => Ok::<Seq<u16>, ReadError>(le_units(bytes)),
                Err(e) => Err::<Seq<u16>, ReadError>(e),
            }
        },
{
}

} // verus!
