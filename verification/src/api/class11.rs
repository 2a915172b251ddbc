//! An island's building index: a list of indices into a table of entries.
use vstd::prelude::*;

use crate::api::array_list::strided_span;
use crate::api::class20::{Class20, Class20_1Ptr};
use crate::memory::{MemoryImage, ReadError};

verus! {

/// An island's building index.
pub struct Class11 {
    pub address: u64,
}

/// The value of the bits of `v` read as a signed 64-bit number.
pub open spec fn signed_index(v: u64) -> int {
    if v < 0x8000_0000_0000_0000 {
        v as int
    } else {
        v - 0x1_0000_0000_0000_0000
    }
}

/// The address of the table word that the signed `index` picks, `ptrs + 8 *
/// index`, when it is a 64-bit address.
pub open spec fn spec_entry_address(ptrs: u64, index: u64) -> Option<u64> {
    let a = ptrs + 8 * signed_index(index);
    if 0 <= a <= u64::MAX {
        Some(a as u64)
    } else {
        None
    }
}

/// The address of the table word that the signed `index` picks.
pub fn entry_address(ptrs: u64, index: u64) -> (r: Option<u64>)
    ensures
        r == spec_entry_address(ptrs, index),
{
    let signed: i128 = if index < 0x8000_0000_0000_0000 {
        index as i128
    } else {
        index as i128 - 0x1_0000_0000_0000_0000
    };
    let a: i128 = ptrs as i128 + 8 * signed;
    if 0 <= a && a <= u64::MAX as i128 {
        Some(a as u64)
    } else {
        None
    }
}

/// Walking `n` indices from `cur` on: each index, read as a signed number,
/// picks the entry whose address is at `ptrs + 8 * index`, and the production lists among those
/// entries are kept, in order; or the error of the first read that fails.
pub open spec fn spec_production_lists(
    mem: &MemoryImage,
    ptrs: u64,
    cur: int,
    n: nat,
    module_base: u64,
) -> Result<Seq<Class20_1Ptr>, ReadError>
    decreases n,
{
    if n == 0 {
        Ok(Seq::empty())
    } else {
        match mem.spec_read_u64(cur) {
            Err(e) => Err(e),
            Ok(index) => match spec_entry_address(ptrs, index) {
                None => Err(ReadError::AddressOverflow),
                Some(at) => match mem.spec_read_u64(at as int) {
                    Err(e) => Err(e),
                    Ok(address) => match Class20::spec_new(mem, address, module_base) {
                        Err(e) => Err(e),
                        Ok(entry) => match spec_production_lists(mem, ptrs, cur + 8, (n - 1) as nat, module_base) {
                            Err(e) => Err(e),
                            Ok(rest) => Ok(
                                match entry {
                                    Class20::Class20_1Ptr(p) => seq![p] + rest,
                                    Class20::Unknown(_) => rest,
                                },
                            ),
                        },
                    },
                },
            },
        }
    }
}

impl Class11 {
    /// The index at `address`.
    pub fn new(address: u64) -> (r: Self)
        ensures
            r.address == address,
    {
        Class11 { address }
    }

    /// The address of the table of entries.
    pub fn get_class12_ptrs(&self, mem: &MemoryImage) -> (r: Result<u64, ReadError>)
        ensures
            r == mem.spec_read_u64(self.address + 0x0080),
    {
        mem.read_u64(self.address, 0x0080)
    }

    /// The address of the first index.
    pub fn get_first_class20_index_ptr(&self, mem: &MemoryImage) -> (r: Result<u64, ReadError>)
        ensures
            r == mem.spec_read_u64(self.address + 0x0098),
    {
        mem.read_u64(self.address, 0x0098)
    }

    /// The address just past the last index.
    pub fn get_last_class20index_ptr(&self, mem: &MemoryImage) -> (r: Result<u64, ReadError>)
        ensures
            r == mem.spec_read_u64(self.address + 0x00A0),
    {
        mem.read_u64(self.address, 0x00A0)
    }

    /// Reading the first index, the end of the indices and the table, then
    /// walking the indices.
    pub open spec fn spec_production_buildings(&self, mem: &MemoryImage, module_base: u64) -> Result<
        Seq<Class20_1Ptr>,
        ReadError,
    > {
        match mem.spec_read_u64(self.address + 0x0098) {
            Err(e) => Err(e),
            Ok(first) => match mem.spec_read_u64(self.address + 0x00A0) {
                Err(e) => Err(e),
                Ok(last) => match mem.spec_read_u64(self.address + 0x0080) {
                    Err(e) => Err(e),
                    Ok(ptrs) => spec_production_lists(
                        mem,
                        ptrs,
                        first as int,
                        ((last - first) / 8) as nat,
                        module_base,
                    ),
                },
            },
        }
    }

    /// Where the two addresses of the indices can be read, the eight-byte
    /// indices between them fit exactly (else the walk would not end).
    pub open spec fn indices_fit(&self, mem: &MemoryImage) -> bool {
        (mem.spec_read_u64(self.address + 0x0098) is Ok && mem.spec_read_u64(self.address + 0x00A0) is Ok)
            ==> strided_span(
            mem.spec_read_u64(self.address + 0x0098)->Ok_0,
            mem.spec_read_u64(self.address + 0x00A0)->Ok_0,
            8,
        )
    }

    /// The production lists among the entries the indices pick, in order.
    pub fn get_production_buildings(&self, mem: &MemoryImage, module_base: u64) -> (r: Result<
        Vec<Class20_1Ptr>,
        ReadError,
    >)
        requires
            self.indices_fit(mem),
        ensures
            match self.spec_production_buildings(mem, module_base) {
                Ok(s) => r matches Ok(v) && v@ == s,
                Err(e) => r == Err::<Vec<Class20_1Ptr>, ReadError>(e),
            },
    {
        let mut data: Vec<Class20_1Ptr> = Vec::new();
        let mut current = self.get_first_class20_index_ptr(mem)?;
        let last = self.get_last_class20index_ptr(mem)?;
        let ptrs = self.get_class12_ptrs(mem)?;
        let ghost first = current;
        let ghost total = ((last - first) / 8) as nat;
        assert(current as int - first == 0);
        while current != last
            invariant
                self.spec_production_buildings(mem, module_base) == spec_production_lists(
                    mem,
                    ptrs,
                    first as int,
                    total,
                    module_base,
                ),
                strided_span(first, last, 8),
                first <= current <= last,
                (current - first) % 8 == 0,
                total == (last - first) / 8,
                spec_production_lists(mem, ptrs, first as int, total, module_base) == match spec_production_lists(
                    mem,
                    ptrs,
                    current as int,
                    ((last - current) / 8) as nat,
                    module_base,
                ) {
                    Ok(rest) => Ok(data@ + rest),
                    Err(e) => Err::<Seq<Class20_1Ptr>, ReadError>(e),
                },
            decreases last - current,
        {
            assert((last - current) / 8 >= 1);
            assert((last - (current + 8)) / 8 == (last - current) / 8 - 1);
            let index = mem.read_u64(current, 0)?;
            let address = match entry_address(ptrs, index) {
                None => {
                    return Err(ReadError::AddressOverflow);
                },
                Some(at) => mem.read_u64(at, 0)?,
            };
            let entry = Class20::new(mem, address, module_base)?;
            let ghost prev = data@;
            match entry {
                Class20::Class20_1Ptr(ptr) => data.push(ptr),
                Class20::Unknown(_) => {},
            }
            proof {
                match spec_production_lists(
                    mem,
                    ptrs,
                    current + 8,
                    ((last - current) / 8 - 1) as nat,
                    module_base,
                ) {
                    Ok(rest) => {
                        match entry {
                            Class20::Class20_1Ptr(p) => {
                                assert(prev + (seq![p] + rest) =~= data@ + rest);
                            },
                            Class20::Unknown(_) => {},
                        }
                    },
                    Err(e) => {},
                }
            }
            current = current + 8;
        }
        assert((last - current) / 8 == 0);
        assert(data@ + Seq::<Class20_1Ptr>::empty() =~= data@);
        Ok(data)
    }
}

} // verus!
