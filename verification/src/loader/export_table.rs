//! Finding an exported function in the export table of a loaded 64-bit PE
//! module: the DOS header leads to the NT headers, whose first data directory
//! gives the export directory, whose name table is searched for the function.
//! The index of the matching name is used to pick the function's address.
use vstd::prelude::*;
use vstd::string::*;
use vstd::utf8::valid_utf8;

use crate::memory::{MemoryImage, ReadError};

verus! {

/// The DOS header's magic number, `MZ`.
pub const DOS_MAGIC: u16 = 0x5a4d;

/// The NT headers' signature, `PE\0\0`.
pub const NT_SIGNATURE: u32 = 0x4550;

/// The longest name read, in bytes, with its terminating zero.
pub const NAME_BUFFER_LEN: u64 = 100;

/// Why the export table could not be searched.
#[derive(Clone, Copy, Debug, PartialEq, Eq, Structural)]
pub enum ExportLookupError {
    /// A read failed.
    Read(ReadError),
    /// The module does not start with the DOS magic number.
    BadDosMagic(u16),
    /// The NT headers do not start with the PE signature.
    BadNtSignature(u32),
    /// The name with this index is not UTF-8.
    InvalidName(u32),
}

/// The bytes of `s` before its first zero byte.
pub open spec fn c_string(s: Seq<u8>) -> Seq<u8>
    decreases s.len(),
{
    if s.len() == 0 || s[0] == 0 {
        Seq::empty()
    } else {
        seq![s[0]] + c_string(s.drop_first())
    }
}

/// Reading the name at `a`: a hundred bytes are read, and the name is what
/// comes before the first zero among the first ninety-nine.
pub open spec fn spec_read_name(mem: &MemoryImage, a: int) -> Result<Seq<u8>, ReadError> {
    match mem.spec_read_bytes(a, NAME_BUFFER_LEN as nat) {
        Err(e) => Err(e),
        Ok(b) => Ok(c_string(b.take(NAME_BUFFER_LEN - 1))),
    }
}

/// The signed value of the bits of `v`.
pub open spec fn as_i32(v: u32) -> int {
    if v < 0x8000_0000 {
        v as int
    } else {
        v - 0x1_0000_0000
    }
}

/// The address of the export directory of the module at `base`.
pub open spec fn spec_export_directory(mem: &MemoryImage, base: u64) -> Result<int, ExportLookupError> {
    match mem.spec_read_u16(base + 0x00) {
        Err(e) => Err(ExportLookupError::Read(e)),
        Ok(magic) => if magic != DOS_MAGIC {
            Err(ExportLookupError::BadDosMagic(magic))
        } else {
            match mem.spec_read_u32(base + 0x3c) {
                Err(e) => Err(ExportLookupError::Read(e)),
                Ok(lfanew) => {
                    let nt = base + as_i32(lfanew);
                    if nt < 0 || nt > u64::MAX {
                        Err(ExportLookupError::Read(ReadError::AddressOverflow))
                    } else {
                        match mem.spec_read_u32(nt + 0x00) {
                            Err(e) => Err(ExportLookupError::Read(e)),
                            Ok(signature) => if signature != NT_SIGNATURE {
                                Err(ExportLookupError::BadNtSignature(signature))
                            } else {
                                match mem.spec_read_u32(nt + 0x88) {
                                    Err(e) => Err(ExportLookupError::Read(e)),
                                    Ok(rva) => if base + rva > u64::MAX {
                                        Err(ExportLookupError::Read(ReadError::AddressOverflow))
                                    } else {
                                        Ok(base + rva)
                                    },
                                }
                            },
                        }
                    }
                },
            }
        }
    }
}

/// Searching the names from index `i` on, of `count` names whose offsets
/// from `base` are listed at `names`, for `target`: the index of the first
/// match, `None` when there is none, or the error of the first name that
/// cannot be read or is not UTF-8.
pub open spec fn spec_search(
    mem: &MemoryImage,
    base: u64,
    names: int,
    count: u32,
    i: u32,
    target: Seq<u8>,
) -> Result<Option<u32>, ExportLookupError>
    decreases count - i,
{
    if i >= count {
        Ok(None)
    } else {
        match mem.spec_read_u32(names + 4 * i) {
            Err(e) => Err(ExportLookupError::Read(e)),
            Ok(offset) => match spec_read_name(mem, base + offset) {
                Err(e) => Err(ExportLookupError::Read(e)),
                Ok(name) => if !valid_utf8(name) {
                    Err(ExportLookupError::InvalidName(i))
                } else if name == target {
                    Ok(Some(i))
                } else {
                    spec_search(mem, base, names, count, (i + 1) as u32, target)
                },
            },
        }
    }
}

/// Where the module at `base` exports the function named `target`: the
/// address that the function table holds at the index of the name, or `None`
/// when no name matches.
pub open spec fn spec_find_export(mem: &MemoryImage, base: u64, target: Seq<u8>) -> Result<
    Option<int>,
    ExportLookupError,
> {
    match spec_export_directory(mem, base) {
        Err(e) => Err(e),
        Ok(dir) => match mem.spec_read_u32(dir + 0x18) {
            Err(e) => Err(ExportLookupError::Read(e)),
            Ok(count) => match mem.spec_read_u32(dir + 0x1c) {
                Err(e) => Err(ExportLookupError::Read(e)),
                Ok(functions) => match mem.spec_read_u32(dir + 0x20) {
                    Err(e) => Err(ExportLookupError::Read(e)),
                    Ok(names) => match spec_search(mem, base, base + names, count, 0, target) {
                        Err(e) => Err(e),
                        Ok(None) => Ok(None),
                        Ok(Some(ordinal)) => match mem.spec_read_u32(base + functions + 4 * ordinal) {
                            Err(e) => Err(ExportLookupError::Read(e)),
                            Ok(offset) => if base + offset > u64::MAX {
                                Err(ExportLookupError::Read(ReadError::AddressOverflow))
                            } else {
                                Ok(Some(base + offset))
                            },
                        },
                    },
                },
            },
        },
    }
}

/// `std::str::from_utf8` from std: it accepts exactly the byte sequences that
/// are UTF-8, which `valid_utf8` states.
#[verifier::external_body]
fn is_utf8(bytes: &Vec<u8>) -> (b: bool)
    ensures
        b == valid_utf8(bytes@),
{
    core::str::from_utf8(bytes).is_ok()
}

/// The bytes before the first zero among the first `limit` bytes of `b`.
fn c_string_prefix(b: &Vec<u8>, limit: usize) -> (r: Vec<u8>)
    requires
        limit <= b@.len(),
    ensures
        r@ == c_string(b@.take(limit as int)),
{
    let mut out: Vec<u8> = Vec::new();
    let mut i: usize = 0;
    assert(b@.take(limit as int).skip(0) =~= b@.take(limit as int));
    while i < limit && b[i] != 0
        invariant
            i <= limit <= b@.len(),
            c_string(b@.take(limit as int)) == out@ + c_string(b@.take(limit as int).skip(i as int)),
        decreases limit - i,
    {
        let ghost t = b@.take(limit as int).skip(i as int);
        assert(t.drop_first() =~= b@.take(limit as int).skip(i + 1));
        let ghost prev = out@;
        out.push(b[i]);
        assert(prev + (seq![b@[i as int]] + c_string(t.drop_first())) =~= out@ + c_string(t.drop_first()));
        i = i + 1;
    }
    assert(c_string(b@.take(limit as int).skip(i as int)) =~= Seq::<u8>::empty());
    assert(out@ + Seq::<u8>::empty() =~= out@);
    out
}

/// Reads the name at `a`.
pub fn read_name(mem: &MemoryImage, a: u64) -> (r: Result<Vec<u8>, ReadError>)
    ensures
        match spec_read_name(mem, a as int) {
            Ok(s) => r matches Ok(v) && v@ == s,
            Err(e) => r == Err::<Vec<u8>, ReadError>(e),
        },
{
    let b = mem.read_bytes(a, NAME_BUFFER_LEN)?;
    Ok(c_string_prefix(&b, (NAME_BUFFER_LEN - 1) as usize))
}

/// Whether two byte sequences are equal.
fn bytes_equal(a: &Vec<u8>, b: &[u8]) -> (r: bool)
    ensures
        r == (a@ == b@),
{
    if a.len() != b.len() {
        return false;
    }
    let mut i: usize = 0;
    while i < a.len()
        invariant
            a@.len() == b@.len(),
            i <= a@.len(),
            forall|j: int| 0 <= j < i ==> a@[j] == b@[j],
        decreases a@.len() - i,
    {
        if a[i] != b[i] {
            return false;
        }
        i = i + 1;
    }
    assert(a@ =~= b@);
    true
}

/// The address of the export directory of the module at `base`.
pub fn export_directory(mem: &MemoryImage, base: u64) -> (r: Result<u64, ExportLookupError>)
    ensures
        match spec_export_directory(mem, base) {
            Ok(d) => r == Ok::<u64, ExportLookupError>(d as u64) && d <= u64::MAX,
            Err(e) => r == Err::<u64, ExportLookupError>(e),
        },
{
    let magic = match mem.read_u16(base, 0x00) {
        Ok(v) => v,
        Err(e) => {
            return Err(ExportLookupError::Read(e));
        },
    };
    if magic != DOS_MAGIC {
        return Err(ExportLookupError::BadDosMagic(magic));
    }
    let lfanew = match mem.read_u32(base, 0x3c) {
        Ok(v) => v,
        Err(e) => {
            return Err(ExportLookupError::Read(e));
        },
    };
    let nt = if lfanew < 0x8000_0000 {
        match base.checked_add(lfanew as u64) {
            Some(a) => a,
            None => {
                return Err(ExportLookupError::Read(ReadError::AddressOverflow));
            },
        }
    } else {
        let back = 0x1_0000_0000u64 - lfanew as u64;
        if base < back {
            return Err(ExportLookupError::Read(ReadError::AddressOverflow));
        }
        base - back
    };
    let signature = match mem.read_u32(nt, 0x00) {
        Ok(v) => v,
        Err(e) => {
            return Err(ExportLookupError::Read(e));
        },
    };
    if signature != NT_SIGNATURE {
        return Err(ExportLookupError::BadNtSignature(signature));
    }
    let rva = match mem.read_u32(nt, 0x88) {
        Ok(v) => v,
        Err(e) => {
            return Err(ExportLookupError::Read(e));
        },
    };
    match base.checked_add(rva as u64) {
        Some(d) => Ok(d),
        None => Err(ExportLookupError::Read(ReadError::AddressOverflow)),
    }
}

/// The address `base + a + 4 * i`, or `None` when it is past the 64-bit space.
fn table_entry(base: u64, a: u32, i: u32) -> (r: Option<u64>)
    ensures
        r == if base + a + 4 * i > u64::MAX {
            None::<u64>
        } else {
            Some((base + a + 4 * i) as u64)
        },
{
    let off = (a as u64) + 4 * (i as u64);
    base.checked_add(off)
}

/// Searches the `count` names whose offsets from `base` are listed at
/// `base + names` for `target`.
pub fn search_names(mem: &MemoryImage, base: u64, names: u32, count: u32, target: &[u8]) -> (r: Result<
    Option<u32>,
    ExportLookupError,
>)
    ensures
        r == spec_search(mem, base, base + names, count, 0, target@),
{
    let mut i: u32 = 0;
    while i < count
        invariant
            spec_search(mem, base, base + names, count, 0, target@) == spec_search(
                mem,
                base,
                base + names,
                count,
                i,
                target@,
            ),
        decreases count - i,
    {
        let at = match table_entry(base, names, i) {
            Some(a) => a,
            None => {
                proof {
                    mem.lemma_read_overflow(base + names + 4 * i, 4);
                }
                return Err(ExportLookupError::Read(ReadError::AddressOverflow));
            },
        };
        let offset = match mem.read_u32(at, 0) {
            Ok(v) => v,
            Err(e) => {
                return Err(ExportLookupError::Read(e));
            },
        };
        let name_at = match base.checked_add(offset as u64) {
            Some(a) => a,
            None => {
                return Err(ExportLookupError::Read(ReadError::AddressOverflow));
            },
        };
        let name = match read_name(mem, name_at) {
            Ok(v) => v,
            Err(e) => {
                return Err(ExportLookupError::Read(e));
            },
        };
        if !is_utf8(&name) {
            return Err(ExportLookupError::InvalidName(i));
        }
        if bytes_equal(&name, target) {
            return Ok(Some(i));
        }
        i = i + 1;
    }
    Ok(None)
}

/// Where the module at `base` exports the function named `function_name`:
/// the address that the function table holds at the index of the matching
/// name, `None` when no name matches.
pub fn find_exported_function(mem: &MemoryImage, base: u64, function_name: &str) -> (r: Result<
    Option<u64>,
    ExportLookupError,
>)
    ensures
        match spec_find_export(mem, base, function_name.spec_bytes()) {
            Ok(None) => r == Ok::<Option<u64>, ExportLookupError>(None),
            Ok(Some(a)) => r == Ok::<Option<u64>, ExportLookupError>(Some(a as u64)) && a <= u64::MAX,
            Err(e) => r == Err::<Option<u64>, ExportLookupError>(e),
        },
{
    let dir = export_directory(mem, base)?;
    let count = match mem.read_u32(dir, 0x18) {
        Ok(v) => v,
        Err(e) => {
            return Err(ExportLookupError::Read(e));
        },
    };
    let functions = match mem.read_u32(dir, 0x1c) {
        Ok(v) => v,
        Err(e) => {
            return Err(ExportLookupError::Read(e));
        },
    };
    let names = match mem.read_u32(dir, 0x20) {
        Ok(v) => v,
        Err(e) => {
            return Err(ExportLookupError::Read(e));
        },
    };
    let target = function_name.as_bytes();
    match search_names(mem, base, names, count, target)? {
        None => Ok(None),
        Some(ordinal) => {
            let at = match table_entry(base, functions, ordinal) {
                Some(a) => a,
                None => {
                    proof {
                        mem.lemma_read_overflow(base + functions + 4 * ordinal, 4);
                    }
                    return Err(ExportLookupError::Read(ReadError::AddressOverflow));
                },
            };
            let offset = match mem.read_u32(at, 0) {
                Ok(v) => v,
                Err(e) => {
                    return Err(ExportLookupError::Read(e));
                },
            };
            match base.checked_add(offset as u64) {
                Some(a) => Ok(Some(a)),
                None => Err(ExportLookupError::Read(ReadError::AddressOverflow)),
            }
        },
    }
}

/// The name with index `j` of the table at `names`: the offset from `base`
/// listed in the table's word `j`, and the name read there.
pub open spec fn name_of(mem: &MemoryImage, base: u64, names: int, j: u32) -> Result<Seq<u8>, ReadError> {
    match mem.spec_read_u32(names + 4 * j) {
        Err(e) => Err(e),
        Ok(offset) => spec_read_name(mem, base + offset),
    }
}

/// A search picks only a name equal to the target, byte for byte (a name
/// that is a proper prefix of the target, or that the target is a prefix
/// of, never matches), and the first such: every name before it, from where
/// the search starts, was read and differs from the target. A search that
/// finds nothing read every name of the table from its start, and none
/// equals the target.
pub proof fn lemma_search_matches_exactly(
    mem: &MemoryImage,
    base: u64,
    names: int,
    count: u32,
    i: u32,
    target: Seq<u8>,
)
    ensures
        spec_search(mem, base, names, count, i, target) matches Ok(Some(k)) ==> {
            &&& i <= k < count
            &&& name_of(mem, base, names, k) == Ok::<Seq<u8>, ReadError>(target)
            &&& forall|j: u32|
                i <= j < k ==> (#[trigger] name_of(mem, base, names, j) matches Ok(n) && n != target)
        },
        spec_search(mem, base, names, count, i, target) matches Ok(None) ==> forall|j: u32|
            i <= j < count ==> (#[trigger] name_of(mem, base, names, j) matches Ok(n) && n != target),
    decreases count - i,
{
    if i < count {
        if let Ok(offset) = mem.spec_read_u32(names + 4 * i) {
            if let Ok(name) = spec_read_name(mem, base + offset) {
                if valid_utf8(name) && name != target {
                    lemma_search_matches_exactly(mem, base, names, count, (i + 1) as u32, target);
                    assert(name_of(mem, base, names, i) == Ok::<Seq<u8>, ReadError>(name));
                }
            }
        }
    }
}

/// The address found for `target` is that of the function whose name is the
/// first in the name table to equal `target` byte for byte: the function
/// table's word at that name's index, added to the module's base. Where no
/// address is found, every name of the table was read and none equals
/// `target`.
pub proof fn lemma_found_export_is_named_target(mem: &MemoryImage, base: u64, target: Seq<u8>)
    ensures
        spec_find_export(mem, base, target) matches Ok(found) ==> {
            &&& spec_export_directory(mem, base) is Ok
            &&& ({
                let dir = spec_export_directory(mem, base)->Ok_0;
                &&& mem.spec_read_u32(dir + 0x18) is Ok
                &&& mem.spec_read_u32(dir + 0x1c) is Ok
                &&& mem.spec_read_u32(dir + 0x20) is Ok
                &&& ({
                    let count = mem.spec_read_u32(dir + 0x18)->Ok_0;
                    let functions = mem.spec_read_u32(dir + 0x1c)->Ok_0;
                    let names = base + mem.spec_read_u32(dir + 0x20)->Ok_0;
                    match found {
                        Some(a) => exists|k: u32|
                            {
                                &&& k < count
                                &&& #[trigger] name_of(mem, base, names, k) == Ok::<Seq<u8>, ReadError>(target)
                                &&& forall|j: u32|
                                    j < k ==> (#[trigger] name_of(mem, base, names, j) matches Ok(n) && n != target)
                                &&& mem.spec_read_u32(base + functions + 4 * k) matches Ok(offset)
                                &&& a == base + offset
                            },
                        None => forall|j: u32|
                            j < count ==> (#[trigger] name_of(mem, base, names, j) matches Ok(n) && n != target),
                    }
                })
            })
        },
{
    if let Ok(dir) = spec_export_directory(mem, base) {
        if let (Ok(count), Ok(functions), Ok(names)) = (
            mem.spec_read_u32(dir + 0x18),
            mem.spec_read_u32(dir + 0x1c),
            mem.spec_read_u32(dir + 0x20),
        ) {
            lemma_search_matches_exactly(mem, base, base + names, count, 0, target);
            if let Ok(Some(k)) = spec_search(mem, base, base + names, count, 0, target) {
                assert(name_of(mem, base, base + names, k) == Ok::<Seq<u8>, ReadError>(target));
            }
        }
    }
}

} // verus!
