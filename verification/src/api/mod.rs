//! Typed views of the game's objects: each type names the address of one
//! object, and its getters read the object's fields from a memory snapshot.
use vstd::prelude::*;

pub mod area_object_manager;
pub mod area_residence_consumption_manager;
pub mod array_list;
pub mod class11;
pub mod class20;
pub mod class30;
pub mod class32;
pub mod class33;
pub mod class34;
pub mod class46;
pub mod class4;
pub mod class59;
pub mod energy_buildings;
pub mod hash_map;
pub mod island;
pub mod production_building;
pub mod production_building_buff;
pub mod session_trade_route_manager;
pub mod string_buffer;
pub mod struct188;
pub mod text_manager;
pub mod trade_contract;
pub mod trade_contract_manager;
pub mod trade_contracts;
pub mod trade_route;
pub mod ware_production_extra;
pub mod ware_type;

verus! {

/// A type that stands for the address of a game object.
pub trait AnnoPtr: Sized {
    /// The address this value stands for.
    spec fn spec_address(&self) -> u64;

    /// The object at `address`.
    fn new(address: u64) -> (r: Self)
        ensures
            r.spec_address() == address,
    ;

    /// The address of the object.
    fn get_address(&self) -> (a: u64)
        ensures
            a == self.spec_address(),
    ;
}

/// The address `offset` bytes past the base address at which the game's
/// executable module is loaded.
pub fn get_module_offset(module_base: u64, offset: u64) -> (a: u64)
    requires
        module_base + offset <= u64::MAX,
    ensures
        a == module_base + offset,
{
    module_base + offset
}

} // verus!
