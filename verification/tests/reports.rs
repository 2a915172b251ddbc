use anno1800_agent::api::area_residence_consumption_manager::AreaResidenceConsumptionManagerPtr;
use anno1800_agent::api::island::IslandName;
use anno1800_agent::api::production_building::ProductionBuildingPtr;
use anno1800_agent::api::struct188::Struct118;
use anno1800_agent::hooks::demand3::{is_excluded, production_report, ProductionCycle, ProductionReport};
use anno1800_agent::hooks::residence_consumption::{residence_report, ResidenceReport};
use anno1800_agent::memory::{MemoryImage, ReadError};

fn put_u64(mem: &mut MemoryImage, at: u64, v: u64) {
    mem.add_region(at, v.to_le_bytes().to_vec());
}

fn put_u32(mem: &mut MemoryImage, at: u64, v: u32) {
    mem.add_region(at, v.to_le_bytes().to_vec());
}

fn put_u16(mem: &mut MemoryImage, at: u64, v: u16) {
    mem.add_region(at, v.to_le_bytes().to_vec());
}

fn put_units(mem: &mut MemoryImage, at: u64, units: &[u16]) {
    let bytes: Vec<u8> = units.iter().flat_map(|u| u.to_le_bytes()).collect();
    mem.add_region(at, bytes);
}

const DEPOSIT_LIKE: u32 = 1010566;

/// A building at 0x10_000 making ware 1010200, running a 30 s cycle, with
/// three inputs (the second of an excluded ware) and one extra ware.
fn building_image(paused: u8) -> MemoryImage {
    let mut mem = MemoryImage::new();
    put_u32(&mut mem, 0x10_168, 1010200);
    put_u32(&mut mem, 0x10_16c, 2);
    put_u32(&mut mem, 0x10_1f0, 1.5f32.to_bits());
    put_u64(&mut mem, 0x10_1f8, 30000);
    mem.add_region(0x10_200, vec![paused]);
    put_u64(&mut mem, 0x10_148, 0x20_000);
    put_u64(&mut mem, 0x10_150, 0x20_018);
    put_u32(&mut mem, 0x20_000, 120042);
    put_u32(&mut mem, 0x20_004, 1.0f32.to_bits());
    put_u32(&mut mem, 0x20_008, DEPOSIT_LIKE);
    put_u32(&mut mem, 0x20_010, 120008);
    put_u32(&mut mem, 0x20_014, 2.0f32.to_bits());
    put_u64(&mut mem, 0x10_188, 0x30_000);
    put_u64(&mut mem, 0x10_190, 0x30_008);
    put_u32(&mut mem, 0x30_000, 1010217);
    put_u32(&mut mem, 0x30_004, 0.25f32.to_bits());
    mem
}

#[test]
fn running_building_reports_cycle_inputs_and_extra_wares() {
    let mem = building_image(0);
    let b = ProductionBuildingPtr { address: 0x10_000 };
    let r = production_report(&b, &mem, Some(1010216), &vec![DEPOSIT_LIKE]).unwrap().unwrap();
    assert_eq!(
        r,
        ProductionReport {
            address: 0x10_000,
            product_type: 1010200,
            paused: 0,
            cycle: Some(ProductionCycle { millis_per_cycle: 30000, count: 2, factor_bits: 1.5f32.to_bits() }),
            inputs: vec![(120042, 1.0f32.to_bits()), (120008, 2.0f32.to_bits())],
            buffs: vec![(1010217, 0.25f32.to_bits())],
        }
    );
}

#[test]
fn paused_building_reports_no_cycle() {
    let mem = building_image(1);
    let b = ProductionBuildingPtr { address: 0x10_000 };
    let r = production_report(&b, &mem, None, &vec![DEPOSIT_LIKE]).unwrap().unwrap();
    assert_eq!(r.paused, 1);
    assert_eq!(r.cycle, None);
    assert_eq!(r.inputs.len(), 2);
}

#[test]
fn inputs_not_excluded_have_their_multiplier_read() {
    let mem = building_image(0);
    let b = ProductionBuildingPtr { address: 0x10_000 };
    // the multiplier of the second input was never copied in
    assert_eq!(production_report(&b, &mem, None, &vec![]), Err(ReadError::Unmapped(0x20_00c)));
}

#[test]
fn skipped_building_type_gives_no_report() {
    let mem = building_image(0);
    let b = ProductionBuildingPtr { address: 0x10_000 };
    assert_eq!(production_report(&b, &mem, Some(1010200), &vec![]), Ok(None));
}

#[test]
fn production_report_names_the_missing_memory() {
    let mut mem = building_image(0);
    // the extra ware's value was never copied in
    mem = {
        let mut m = MemoryImage::new();
        for r in mem.regions.drain(..) {
            if r.base != 0x30_004 {
                m.add_region(r.base, r.bytes);
            }
        }
        m
    };
    let b = ProductionBuildingPtr { address: 0x10_000 };
    assert_eq!(production_report(&b, &mem, None, &vec![]), Err(ReadError::Unmapped(0x30_004)));
}

#[test]
fn excluded_wares_are_found_in_the_list() {
    assert!(is_excluded(&vec![3, 7, 9], 7));
    assert!(!is_excluded(&vec![3, 7, 9], 8));
    assert!(!is_excluded(&vec![], 8));
}

/// A manager at 0x100 whose island at 0x7000 is owned by player 2, with two
/// demands.
fn residence_image(custom_name: &str) -> MemoryImage {
    let mut mem = MemoryImage::new();
    put_u64(&mut mem, 0x138, 0x7000);
    let units: Vec<u16> = custom_name.encode_utf16().collect();
    put_units(&mut mem, 0x7120, &units);
    put_u64(&mut mem, 0x7130, units.len() as u64);
    put_u32(&mut mem, 0x7140, 12345);
    put_u16(&mut mem, 0x704e, 2);
    put_u64(&mut mem, 0x140, 0x2000);
    put_u64(&mut mem, 0x148, 0x2070);
    put_u32(&mut mem, 0x2000, 120050);
    put_u32(&mut mem, 0x200c, 0.5f32.to_bits());
    put_u32(&mut mem, 0x2038, 1010238);
    put_u32(&mut mem, 0x2044, 0.125f32.to_bits());
    mem
}

#[test]
fn residences_report_island_owner_and_demands() {
    let mem = residence_image("Crown");
    let m = AreaResidenceConsumptionManagerPtr { address: 0x100 };
    assert_eq!(
        residence_report(&m, &mem),
        Ok(ResidenceReport {
            island_name: IslandName::Custom("Crown".to_string()),
            island_owner: 2,
            demands: vec![(120050, 0.5f32.to_bits()), (1010238, 0.125f32.to_bits())],
        })
    );
}

#[test]
fn unnamed_island_is_named_by_its_text_key() {
    let mem = residence_image("");
    let m = AreaResidenceConsumptionManagerPtr { address: 0x100 };
    assert_eq!(residence_report(&m, &mem).unwrap().island_name, IslandName::Text(12345));
}

#[test]
fn island_at_the_end_of_the_address_space_is_refused() {
    let mut mem = MemoryImage::new();
    put_u64(&mut mem, 0x138, u64::MAX - 0x10);
    let m = AreaResidenceConsumptionManagerPtr { address: 0x100 };
    assert_eq!(residence_report(&m, &mem), Err(ReadError::AddressOverflow));
}

#[test]
fn looked_up_text_is_read_from_its_buffer() {
    let mut mem = MemoryImage::new();
    put_units(&mut mem, 0x900, &"Fish Oil".encode_utf16().collect::<Vec<_>>());
    put_u64(&mut mem, 0x910, 8);
    put_u64(&mut mem, 0x800, 0x900);
    put_u64(&mut mem, 0x810, 8);
    let table = Struct118::new(0x5028);
    // eight units or more live elsewhere: the buffer at 0x800 points to them
    assert_eq!(table.get_text(&mem, 0x800), Ok("Fish Oil".to_string()));
    assert_eq!(table.get_text(&mem, 0xa00), Err(ReadError::Unmapped(0xa10)));
}
