use anno1800_agent::api::text_manager::TextManagerInnerPtr;
use anno1800_agent::api::trade_contract_manager::TradeContractManagerPtr;
use anno1800_agent::api::area_residence_consumption_manager::AreaResidenceConsumptionManagerPtr;
use anno1800_agent::api::array_list::{collect_strided, ArrayListPtr};
use anno1800_agent::api::class11::Class11;
use anno1800_agent::api::class20::{Class20, Class20_1Ptr, CLASS20_1_VTABLE_OFFSET};
use anno1800_agent::api::class32::Class32;
use anno1800_agent::api::class4::Class4;
use anno1800_agent::api::energy_buildings::EnergyBuildingsPtr;
use anno1800_agent::api::get_module_offset;
use anno1800_agent::api::island::{IslandName, IslandPtr};
use anno1800_agent::api::production_building::ProductionBuildingPtr;
use anno1800_agent::api::string_buffer::StringBufferPtr;
use anno1800_agent::api::ware_type::WareType;
use anno1800_agent::api::AnnoPtr;
use anno1800_agent::memory::{MemoryImage, ReadError};

fn put_u64(mem: &mut MemoryImage, at: u64, v: u64) {
    mem.add_region(at, v.to_le_bytes().to_vec());
}

fn put_u32(mem: &mut MemoryImage, at: u64, v: u32) {
    mem.add_region(at, v.to_le_bytes().to_vec());
}

fn put_units(mem: &mut MemoryImage, at: u64, units: &[u16]) {
    let bytes: Vec<u8> = units.iter().flat_map(|u| u.to_le_bytes()).collect();
    mem.add_region(at, bytes);
}

#[test]
fn module_offset_adds_to_the_base() {
    assert_eq!(get_module_offset(0x7ff6_0000_0000, 0x510E550), 0x7ff6_0510_E550);
}

#[test]
fn strided_objects_are_laid_out_in_order() {
    let v: Vec<Class32> = collect_strided(0x100, 0x118, 8);
    let addrs: Vec<u64> = v.iter().map(|c| c.address).collect();
    assert_eq!(addrs, vec![0x100, 0x108, 0x110]);
    let none: Vec<Class32> = collect_strided(0x100, 0x100, 8);
    assert!(none.is_empty());
}

#[test]
fn array_list_gives_one_object_per_word() {
    let mut mem = MemoryImage::new();
    put_u64(&mut mem, 0x40, 0x1000);
    put_u64(&mut mem, 0x48, 0x1020);
    let list: ArrayListPtr<u64> = ArrayListPtr::new(0x40);
    assert_eq!(list.get_first_box(&mem), Ok(0x1000));
    assert_eq!(list.get_last_box(&mem), Ok(0x1020));
    assert_eq!(list.get_all_words(&mem), Ok(vec![0x1000, 0x1008, 0x1010, 0x1018]));
}

#[test]
fn production_building_fields() {
    let mut mem = MemoryImage::new();
    let b = ProductionBuildingPtr { address: 0x10_000 };
    put_u64(&mut mem, 0x10_000, 0xabc);
    put_u32(&mut mem, 0x10_168, 1010200);
    put_u32(&mut mem, 0x10_16c, 1);
    put_u64(&mut mem, 0x10_1f8, 30000);
    mem.add_region(0x10_200, vec![0]);
    put_u64(&mut mem, 0x10_148, 0x20_000);
    put_u64(&mut mem, 0x10_150, 0x20_010);
    put_u64(&mut mem, 0x10_188, 0x30_000);
    put_u64(&mut mem, 0x10_190, 0x30_008);
    assert_eq!(b.get_vtable(&mem), Ok(0xabc));
    assert_eq!(b.get_ware_type(&mem), Ok(WareType(1010200)));
    assert_eq!(b.get_16c(&mem), Ok(1));
    assert_eq!(b.get_millis_per_cycle(&mem), Ok(30000));
    assert_eq!(b.get_200(&mem), Ok(0));
    let inputs = b.get_inputs(&mem).unwrap();
    assert_eq!(inputs.iter().map(|c| c.address).collect::<Vec<_>>(), vec![0x20_000, 0x20_008]);
    let buffs = b.get_buffs(&mem).unwrap();
    assert_eq!(buffs.len(), 1);
    assert_eq!(buffs[0].address, 0x30_000);
    assert_eq!(b.get_field_8(&mem), Err(ReadError::Unmapped(0x10_008)));
}

#[test]
fn class4_inputs_and_fields() {
    let mut mem = MemoryImage::new();
    let c = Class4::new(0x500);
    put_u64(&mut mem, 0x648, 0x900);
    put_u64(&mut mem, 0x650, 0x908);
    put_u32(&mut mem, 0x900, 120042);
    put_u32(&mut mem, 0x904, 1.5f32.to_bits());
    let inputs = c.get_inputs(&mem).unwrap();
    assert_eq!(inputs.len(), 1);
    assert_eq!(inputs[0].get_ware_type(&mem), Ok(WareType(120042)));
    assert_eq!(f32::from_bits(inputs[0].get_4_bits(&mem).unwrap()), 1.5);
}

#[test]
fn residence_demands_are_0x38_bytes_apart() {
    let mut mem = MemoryImage::new();
    let m = AreaResidenceConsumptionManagerPtr { address: 0x100 };
    put_u64(&mut mem, 0x138, 0x7000);
    put_u64(&mut mem, 0x140, 0x2000);
    put_u64(&mut mem, 0x148, 0x2070);
    assert_eq!(m.get_island(&mem).unwrap().address, 0x7000);
    let demands = m.get_class30s(&mem).unwrap();
    assert_eq!(demands.iter().map(|d| d.address).collect::<Vec<_>>(), vec![0x2000, 0x2038]);
}

#[test]
fn energy_buildings_are_read_through_their_slots() {
    let mut mem = MemoryImage::new();
    let e = EnergyBuildingsPtr::new(0x100);
    put_u64(&mut mem, 0x128, 0x800);
    put_u64(&mut mem, 0x130, 0x810);
    put_u64(&mut mem, 0x800, 0xaaaa);
    put_u64(&mut mem, 0x808, 0xbbbb);
    assert_eq!(e.get_production_building_list(&mem), Ok(vec![0x800, 0x808]));
    assert_eq!(e.get_vec(&mem), Ok(vec![0xaaaa, 0xbbbb]));
}

#[test]
fn short_strings_are_held_inside_the_buffer() {
    let mut mem = MemoryImage::new();
    let b = StringBufferPtr { address: 0x400 };
    put_units(&mut mem, 0x400, &"Manola".encode_utf16().collect::<Vec<_>>());
    put_u64(&mut mem, 0x410, 6);
    assert_eq!(b.get_buf(&mem), Ok(0x400));
    assert_eq!(b.get_len(&mem), Ok(6));
    assert_eq!(b.get_string(&mem), Ok("Manola".to_string()));
}

#[test]
fn long_strings_are_held_elsewhere() {
    let mut mem = MemoryImage::new();
    let b = StringBufferPtr { address: 0x400 };
    put_u64(&mut mem, 0x400, 0x9000);
    put_u64(&mut mem, 0x410, 20);
    put_units(&mut mem, 0x9000, &"King William Island".encode_utf16().collect::<Vec<_>>());
    // one unit is missing: the string has 19 characters, the length says 20
    assert_eq!(b.get_string(&mem), Err(ReadError::Unmapped(0x9000 + 38)));
    put_units(&mut mem, 0x9000 + 38, &[0x21]);
    assert_eq!(b.get_string(&mem), Ok("King William Island!".to_string()));
}

#[test]
fn unpaired_surrogates_become_replacement_characters() {
    let mut mem = MemoryImage::new();
    let b = StringBufferPtr { address: 0x400 };
    put_units(&mut mem, 0x400, &[0xD834, 0xDD1E, 0x006d, 0xD800, 0x0069]);
    put_u64(&mut mem, 0x410, 5);
    assert_eq!(b.get_string(&mem), Ok("\u{1D11E}m\u{FFFD}i".to_string()));
}

#[test]
fn island_name_is_the_custom_name_when_set() {
    let mut mem = MemoryImage::new();
    let island = IslandPtr { address: 0x1000 };
    put_units(&mut mem, 0x1120, &"Ditch".encode_utf16().collect::<Vec<_>>());
    put_u64(&mut mem, 0x1130, 5);
    put_u32(&mut mem, 0x1140, 9999);
    mem.add_region(0x104e, vec![3, 0]);
    assert_eq!(island.get_name(&mem), Ok(IslandName::Custom("Ditch".to_string())));
    assert_eq!(island.get_city_name_guid(&mem), Ok(9999));
    assert_eq!(island.get_owner_index(&mem), Ok(3));
    put_u64(&mut mem, 0x1130, 0);
    assert_eq!(island.get_name(&mem), Ok(IslandName::Text(9999)));
}

#[test]
fn entries_are_told_apart_by_their_virtual_table() {
    let base = 0x7ff6_0000_0000u64;
    let mut mem = MemoryImage::new();
    put_u64(&mut mem, 0x500, base + CLASS20_1_VTABLE_OFFSET);
    put_u64(&mut mem, 0x600, base + 0x1234);
    assert_eq!(Class20::new(&mem, 0x500, base), Ok(Class20::Class20_1Ptr(Class20_1Ptr { address: 0x500 })));
    assert_eq!(Class20::new(&mem, 0x600, base), Ok(Class20::Unknown(0x600)));
}

#[test]
fn building_index_keeps_the_production_lists() {
    let base = 0x7ff6_0000_0000u64;
    let mut mem = MemoryImage::new();
    let index = Class11::new(0x100);
    put_u64(&mut mem, 0x180, 0x4000);
    put_u64(&mut mem, 0x198, 0x3000);
    put_u64(&mut mem, 0x1A0, 0x3018);
    put_u64(&mut mem, 0x3000, 2);
    put_u64(&mut mem, 0x3008, 0);
    put_u64(&mut mem, 0x3010, 5);
    put_u64(&mut mem, 0x4010, 0x500);
    put_u64(&mut mem, 0x4000, 0x600);
    put_u64(&mut mem, 0x4028, 0x700);
    put_u64(&mut mem, 0x500, base + CLASS20_1_VTABLE_OFFSET);
    put_u64(&mut mem, 0x600, base + 8);
    put_u64(&mut mem, 0x700, base + CLASS20_1_VTABLE_OFFSET);
    let lists = index.get_production_buildings(&mem, base).unwrap();
    assert_eq!(lists, vec![Class20_1Ptr { address: 0x500 }, Class20_1Ptr { address: 0x700 }]);
}

#[test]
fn a_negative_index_reads_before_the_pointer_table() {
    let base = 0x7ff6_0000_0000u64;
    let mut mem = MemoryImage::new();
    let index = Class11::new(0x100);
    put_u64(&mut mem, 0x180, 0x4000);
    put_u64(&mut mem, 0x198, 0x3000);
    put_u64(&mut mem, 0x1A0, 0x3008);
    put_u64(&mut mem, 0x3000, u64::MAX);
    put_u64(&mut mem, 0x3FF8, 0x500);
    put_u64(&mut mem, 0x500, base + CLASS20_1_VTABLE_OFFSET);
    let lists = index.get_production_buildings(&mem, base).unwrap();
    assert_eq!(lists, vec![Class20_1Ptr { address: 0x500 }]);
}

#[test]
fn production_list_is_read_through_its_slots() {
    let mut mem = MemoryImage::new();
    let p = Class20_1Ptr::new(0x100);
    put_u64(&mut mem, 0x128, 0x800);
    put_u64(&mut mem, 0x130, 0x808);
    put_u64(&mut mem, 0x800, 0x4242);
    assert_eq!(p.get_production_building_list(&mem), Ok(vec![0x800]));
    assert_eq!(p.get_productions(&mem), Ok(vec![0x4242]));
}

#[test]
fn managers_are_found_through_static_pointers() {
    let mut mem = MemoryImage::new();
    put_u64(&mut mem, 0x7ff6_1000_0000, 0x2_0000_0000);
    let t = TextManagerInnerPtr::from_static_ptr(&mem, 0x7ff6_1000_0000).unwrap();
    assert_eq!(t.address, 0x2_0000_0000);
    assert_eq!(t.get_struct_118().address, 0x2_0000_0028);
    let c = TradeContractManagerPtr::from_static_ptr(&mem, 0x7ff6_1000_0008);
    assert_eq!(c.map(|c| c.address), Err(ReadError::Unmapped(0x7ff6_1000_0008)));
}
