use anno1800_agent::api::hash_map::{fnv1a_16, fnv1a_32};
use anno1800_agent::api::ware_type::{WareType, STEEL_BEAMS_ID};

#[test]
fn test_fnv1a_32_steel_beams() {
    assert_eq!(fnv1a_32(WareType(STEEL_BEAMS_ID).0) & 0x1ff, 0x12a);
}

#[test]
fn test_fnv1a_16_island_1() {
    assert_eq!(fnv1a_16(0x21c2) & 0x3f, 0x2c);
}

#[test]
fn test_fnv1a_16_island_2() {
    assert_eq!(fnv1a_16(0x2442) & 0x3f, 0x13);
}

use anno1800_agent::api::class46::{Class46Ptr, PRODUCTION_BUILDINGS_INDEX};
use anno1800_agent::api::hash_map::{HashMapLookup, HashMapPtr, LookupStep};
use anno1800_agent::memory::{MemoryImage, ReadError};

fn put_u64(mem: &mut MemoryImage, at: u64, v: u64) {
    mem.add_region(at, v.to_le_bytes().to_vec());
}

fn put_u32(mem: &mut MemoryImage, at: u64, v: u32) {
    mem.add_region(at, v.to_le_bytes().to_vec());
}

const MAP_END: u64 = 0xdead_0000;
const BUCKET_END: u64 = 0x3200;

/// A map at 0x1000 whose bucket for key 0x301 (slot 37 under mask 0x3f) holds
/// the nodes 0x3000 (key 48) and 0x3100 (key 0x301).
fn sample_map() -> MemoryImage {
    let mut mem = MemoryImage::new();
    put_u64(&mut mem, 0x1000, MAP_END);
    put_u64(&mut mem, 0x1010, 0x2000);
    put_u64(&mut mem, 0x1028, 0x3f);
    let bucket = 0x2000 + 16 * 37;
    put_u64(&mut mem, bucket, BUCKET_END);
    put_u64(&mut mem, bucket + 8, 0x3000);
    put_u64(&mut mem, 0x3008, 0x3100);
    put_u32(&mut mem, 0x3010, 48);
    put_u64(&mut mem, 0x3018, 111);
    put_u64(&mut mem, 0x3108, BUCKET_END);
    put_u32(&mut mem, 0x3110, 0x301);
    put_u64(&mut mem, 0x3118, 222);
    mem
}

#[test]
fn fnv1a_exact_values() {
    assert_eq!(fnv1a_32(1010218), 0x1a24_a9c6_40ce_d72a);
    assert_eq!(fnv1a_32(0x301), 0xc727_3b77_5650_5365);
    assert_eq!(fnv1a_16(0x21c2), 0x0ac5_f307_b71b_c9ac);
}

#[test]
fn lookup_finds_the_value_stored_under_a_key() {
    let mem = sample_map();
    let map = HashMapPtr { address: 0x1000 };
    assert_eq!(map.get_entry(&mem, 0x301), Ok(222));
    // key 48 shares the bucket and is found at the first node
    assert_eq!(map.get_entry(&mem, 48), Ok(111));
}

#[test]
fn lookup_walks_step_by_step() {
    let mem = sample_map();
    let map = HashMapPtr { address: 0x1000 };
    let start = map.start_lookup(&mem, 0x301).unwrap();
    assert_eq!(start, HashMapLookup { key: 0x301, map_end: MAP_END, bucket_end: BUCKET_END, container: 0x3000 });
    let second = match start.step(&mem) {
        Ok(LookupStep::Next(s)) => s,
        other => panic!("unexpected {:?}", other),
    };
    assert_eq!(second.container, 0x3100);
    assert_eq!(second.step(&mem), Ok(LookupStep::Done(222)));
}

#[test]
fn lookup_of_an_absent_key_gives_zero() {
    let mut mem = sample_map();
    // a bucket whose first node is the map's end node
    let map = HashMapPtr { address: 0x1000 };
    let slot_bucket = 0x2000 + 16 * (fnv1a_32(7) & 0x3f);
    put_u64(&mut mem, slot_bucket, MAP_END);
    put_u64(&mut mem, slot_bucket + 8, MAP_END);
    assert_eq!(map.get_entry(&mem, 7), Ok(0));
    // a key of the same bucket that no node holds
    let start = HashMapLookup { key: 0x302, ..map.start_lookup(&mem, 0x301).unwrap() };
    let second = match start.step(&mem) {
        Ok(LookupStep::Next(s)) => s,
        other => panic!("unexpected {:?}", other),
    };
    assert_eq!(second.step(&mem), Ok(LookupStep::Done(0)));
}

#[test]
fn lookup_reports_missing_memory() {
    let mem = sample_map();
    let map = HashMapPtr { address: 0x1000 };
    // the bucket of key 1 was never copied in
    let bucket = 0x2000 + 16 * (fnv1a_32(1) & 0x3f);
    assert_eq!(map.start_lookup(&mem, 1), Err(ReadError::Unmapped(bucket)));
}

#[test]
fn registry_lookup_goes_through_the_embedded_map() {
    let mut mem = MemoryImage::new();
    let class46 = Class46Ptr { address: 0x1000 - 0x48 };
    let sample = sample_map();
    for region in sample.regions {
        mem.add_region(region.base, region.bytes);
    }
    assert_eq!(class46.get_production_buildings(&mem), Ok(222));
    let start = class46.get_production_buildings_lookup(&mem).unwrap();
    assert_eq!(start.key, PRODUCTION_BUILDINGS_INDEX);
}

#[test]
fn walk_that_reaches_the_map_end_node_gives_zero() {
    let mut mem = sample_map();
    // the second node's successor is the map's end node, not the bucket's last node
    put_u64(&mut mem, 0x3108, MAP_END);
    let map = HashMapPtr { address: 0x1000 };
    let start = HashMapLookup { key: 0x302, ..map.start_lookup(&mem, 0x301).unwrap() };
    let second = match start.step(&mem) {
        Ok(LookupStep::Next(s)) => s,
        other => panic!("unexpected {:?}", other),
    };
    let third = match second.step(&mem) {
        Ok(LookupStep::Next(s)) => s,
        other => panic!("unexpected {:?}", other),
    };
    assert_eq!(third.container, MAP_END);
    assert_eq!(third.step(&mem), Ok(LookupStep::Done(0)));
    assert_eq!(start.run(&mem), Ok(0));
    assert_eq!(map.get_entry(&mem, 0x301), Ok(222));
}

#[test]
fn lookup_ignores_other_buckets() {
    let mem = sample_map();
    let mut other = sample_map();
    // another bucket and a node outside the chain change
    let bucket = 0x2000 + 16 * (fnv1a_32(7) & 0x3f);
    put_u64(&mut other, bucket, 0x9999);
    put_u64(&mut other, bucket + 8, 0x8888);
    put_u32(&mut other, 0x4010, 0x301);
    put_u64(&mut other, 0x4018, 999);
    let map = HashMapPtr { address: 0x1000 };
    assert_eq!(map.get_entry(&other, 0x301), map.get_entry(&mem, 0x301));
    assert_eq!(map.get_entry(&other, 0x301), Ok(222));
}
