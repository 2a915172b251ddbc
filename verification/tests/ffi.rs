use anno1800_agent::ffi::class4::Class4;
use anno1800_agent::ffi::hook::{
    call_rel32, far_jump_code, CodecaveAction, CodecaveSearch, RegionAnswer, CODECAVE_STEP,
};

#[test]
fn far_jump_stub_holds_the_destination() {
    assert_eq!(
        far_jump_code(0x1122_3344_5566_7788),
        vec![
            0x50, 0x50, 0x48, 0xb8, 0x88, 0x77, 0x66, 0x55, 0x44, 0x33, 0x22, 0x11, 0x48, 0x89, 0x44, 0x24, 0x08,
            0x58, 0xc3
        ]
    );
}

#[test]
fn call_displacement_is_taken_from_the_end_of_the_call() {
    assert_eq!(call_rel32(0x1000, 0x2000), 0xffb);
    assert_eq!(call_rel32(0x1000, 0x500), 0xffff_f4fb);
    assert_eq!(call_rel32(0x7ff6_0169_751a, 0x7ff6_0000_0000), (0x7ff6_0000_0000u64.wrapping_sub(0x7ff6_0169_751f)) as u32);
}

#[test]
fn codecave_search_tries_256_places() {
    let mut search = CodecaveSearch::new(0x7ff6_0000_0000);
    let mut tried = vec![];
    while let Some(a) = search.candidate() {
        tried.push(a);
        search.advance();
    }
    assert_eq!(tried.len(), 256);
    assert_eq!(tried[0], 0x7ff6_0000_0000);
    assert_eq!(tried[255], 0x7ff6_0000_0000 + 255 * CODECAVE_STEP);
}

#[test]
fn codecave_search_allocates_the_first_free_place() {
    let close = 0x7ff6_0000_0000u64;
    let mut search = CodecaveSearch::new(close);
    assert_eq!(search.first_action(), CodecaveAction::Query(close));
    assert_eq!(search.on_answer(RegionAnswer::Taken), CodecaveAction::Query(close + CODECAVE_STEP));
    assert_eq!(search.on_answer(RegionAnswer::Taken), CodecaveAction::Query(close + 2 * CODECAVE_STEP));
    assert_eq!(search.on_answer(RegionAnswer::Free), CodecaveAction::Allocate(close + 2 * CODECAVE_STEP));
}

#[test]
fn codecave_search_stops_on_a_failed_query() {
    let mut search = CodecaveSearch::new(0x1000);
    assert_eq!(search.on_answer(RegionAnswer::QueryFailed), CodecaveAction::QueryFailed);
    assert_eq!(search.cave_address, 0x1000);
}

#[test]
fn codecave_search_gives_up_after_256_taken_places() {
    let mut search = CodecaveSearch::new(0x1000);
    let mut queries = 1;
    loop {
        match search.on_answer(RegionAnswer::Taken) {
            CodecaveAction::Query(_) => queries += 1,
            CodecaveAction::GiveUp => break,
            other => panic!("unexpected {:?}", other),
        }
    }
    assert_eq!(queries, 256);
}

#[test]
fn hooked_building_keeps_its_address() {
    assert_eq!(Class4::new(0xabc).address, 0xabc);
}
