//! A production building.
use vstd::prelude::*;

use crate::api::AnnoPtr;
use crate::memory::{MemoryImage, ReadError};
use core::marker::PhantomData;
use crate::api::array_list::ArrayListPtr;
use crate::api::class32::Class32;
use crate::api::ware_production_extra::WareProductionExtraPtr;
use crate::api::ware_type::{read_ware, spec_read_ware, WareType};
use crate::api::array_list::{read_span, span_fits, span_read};

verus! {

/// A production building.
#[derive(Clone, Copy, PartialEq, Eq, Structural)]
pub struct ProductionBuildingPtr {
    pub address: u64,
}

impl ProductionBuildingPtr {
    /// The object's virtual table.
    pub fn get_vtable(&self, mem: &MemoryImage) -> (r: Result<u64, ReadError>)
        ensures
            r == mem.spec_read_u64(self.address + 0x0000),
    {
        mem.read_u64(self.address, 0x0000)
    }

    /// The word at offset `0x8`.
    pub fn get_field_8(&self, mem: &MemoryImage) -> (r: Result<u64, ReadError>)
        ensures
            r == mem.spec_read_u64(self.address + 0x0008),
    {
        mem.read_u64(self.address, 0x0008)
    }

    /// The address of the first input.
    pub fn get_first_input(&self, mem: &MemoryImage) -> (r: Result<u64, ReadError>)
        ensures
            r == mem.spec_read_u64(self.address + 0x0148),
    {
        mem.read_u64(self.address, 0x0148)
    }

    /// The address just past the last input.
    pub fn get_last_input(&self, mem: &MemoryImage) -> (r: Result<u64, ReadError>)
        ensures
            r == mem.spec_read_u64(self.address + 0x0150),
    {
        mem.read_u64(self.address, 0x0150)
    }

    /// The word at offset `0x16c`.
    pub fn get_16c(&self, mem: &MemoryImage) -> (r: Result<u32, ReadError>)
        ensures
            r == mem.spec_read_u32(self.address + 0x016c),
    {
        mem.read_u32(self.address, 0x016c)
    }

    /// The ware the building makes.
    pub fn get_ware_type(&self, mem: &MemoryImage) -> (r: Result<WareType, ReadError>)
        ensures
            r == spec_read_ware(mem, self.address + 0x0168),
    {
        read_ware(mem, self.address, 0x0168)
    }

    /// The list of the building's extra wares, embedded in the object.
    pub fn get_buffs_list(&self) -> (r: ArrayListPtr<WareProductionExtraPtr>)
        requires
            self.address + 0x0188 <= u64::MAX,
        ensures
            r.address == self.address + 0x0188,
    {
        ArrayListPtr { address: self.address + 0x0188, phantom: PhantomData }
    }

    /// The potential productivity factor (an `f32`, given as its raw bits)
    pub fn get_potential_productivity_factor_bits(&self, mem: &MemoryImage) -> (r: Result<u32, ReadError>)
        ensures
            r == mem.spec_read_u32(self.address + 0x01f0),
    {
        mem.read_u32(self.address, 0x01f0)
    }

    /// The current productivity factor (an `f32`, given as its raw bits)
    pub fn get_current_productivity_factor_bits(&self, mem: &MemoryImage) -> (r: Result<u32, ReadError>)
        ensures
            r == mem.spec_read_u32(self.address + 0x01f4),
    {
        mem.read_u32(self.address, 0x01f4)
    }

    /// The production cycle, in milliseconds.
    pub fn get_millis_per_cycle(&self, mem: &MemoryImage) -> (r: Result<u64, ReadError>)
        ensures
            r == mem.spec_read_u64(self.address + 0x01f8),
    {
        mem.read_u64(self.address, 0x01f8)
    }

    /// The byte at offset `0x200`: production is counted only when it is zero.
    pub fn get_200(&self, mem: &MemoryImage) -> (r: Result<u8, ReadError>)
        ensures
            r == mem.spec_read_u8(self.address + 0x0200),
    {
        mem.read_u8(self.address, 0x0200)
    }

    /// The inputs, eight bytes apart from the first up to the end.
    pub fn get_inputs(&self, mem: &MemoryImage) -> (r: Result<Vec<Class32>, ReadError>)
        requires
            span_fits(mem, self.address + 0x0148, self.address + 0x0150, 8),
        ensures
            span_read(mem, self.address + 0x0148, self.address + 0x0150, 8, r),
    {
        read_span(mem, self.address, 0x0148, 0x0150, 8)
    }

    /// The extra wares: the eight-byte elements of the list at offset `0x188`.
    pub fn get_buffs(&self, mem: &MemoryImage) -> (r: Result<Vec<WareProductionExtraPtr>, ReadError>)
        requires
            span_fits(mem, self.address + 0x0188, self.address + 0x0190, 8),
        ensures
            span_read(mem, self.address + 0x0188, self.address + 0x0190, 8, r),
    {
        read_span(mem, self.address, 0x0188, 0x0190, 8)
    }
}

impl AnnoPtr for ProductionBuildingPtr {
    open spec fn spec_address(&self) -> u64 {
        self.address
    }

    fn new(address: u64) -> (r: Self) {
        ProductionBuildingPtr { address }
    }

    fn get_address(&self) -> (a: u64) {
        self.address
    }
}

} // verus!
