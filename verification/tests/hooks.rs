use anno1800_agent::api::AnnoPtr;
use anno1800_agent::api::trade_contracts::TradeContractsPtr;
use anno1800_agent::api::trade_route::TradeRoutePtr;
use anno1800_agent::hooks::host::{destination, set_host, trim_white_space, HostSetting};
use anno1800_agent::hooks::trade_contracts::{contracts_message, IslandTradeContractMessage};
use anno1800_agent::hooks::trade_routes::{trade_route_message, TradeRouteStopSlotMessage};
use anno1800_agent::memory::{MemoryImage, ReadError};

fn put_u64(mem: &mut MemoryImage, at: u64, v: u64) {
    mem.add_region(at, v.to_le_bytes().to_vec());
}

fn put_u32(mem: &mut MemoryImage, at: u64, v: u32) {
    mem.add_region(at, v.to_le_bytes().to_vec());
}

fn put_u16(mem: &mut MemoryImage, at: u64, v: u16) {
    mem.add_region(at, v.to_le_bytes().to_vec());
}

#[test]
fn host_is_trimmed() {
    let mut setting = HostSetting { host: None };
    set_host(&mut setting, "  192.168.178.33\n");
    assert_eq!(setting.host.as_deref(), Some("192.168.178.33"));
    assert_eq!(destination(&setting), "192.168.178.33:1800");
}

#[test]
fn empty_host_means_loopback() {
    let mut setting = HostSetting { host: None };
    set_host(&mut setting, " \t\u{3000} ");
    assert_eq!(setting.host.as_deref(), Some("127.0.0.1"));
}

#[test]
fn host_is_set_only_once() {
    let mut setting = HostSetting { host: None };
    set_host(&mut setting, "10.0.0.1");
    set_host(&mut setting, "10.0.0.2");
    assert_eq!(setting.host.as_deref(), Some("10.0.0.1"));
}

#[test]
fn unset_host_sends_to_loopback() {
    let setting = HostSetting { host: None };
    assert_eq!(destination(&setting), "127.0.0.1:1800");
}

#[test]
fn trimming_matches_std() {
    for s in ["", " ", "a", " a b ", "\u{85}x\u{2029}", "\u{200B}x"] {
        assert_eq!(trim_white_space(s), s.trim());
    }
}

#[test]
fn contracts_are_0x24_bytes_apart() {
    let mut mem = MemoryImage::new();
    let t = TradeContractsPtr::new(0x100);
    put_u16(&mut mem, 0x168, 8451);
    put_u64(&mut mem, 0x180, 0x2000);
    put_u64(&mut mem, 0x188, 0x2048);
    for (i, (e, ea, im, ia)) in [(1010216u32, 50u32, 1010227u32, 82u32), (1010196, 250, 1010227, 282)]
        .into_iter()
        .enumerate()
    {
        let c = 0x2000 + 0x24 * i as u64;
        put_u32(&mut mem, c + 0x08, e);
        put_u32(&mut mem, c + 0x0c, ea);
        put_u32(&mut mem, c + 0x14, im);
        put_u32(&mut mem, c + 0x18, ia);
    }
    let m = contracts_message(&t, &mem).unwrap();
    assert_eq!(m.island_id, 8451);
    assert_eq!(
        m.contracts,
        vec![
            IslandTradeContractMessage {
                export_product_type: 1010216,
                export_amount: 50,
                import_product_type: 1010227,
                import_amount: 82,
            },
            IslandTradeContractMessage {
                export_product_type: 1010196,
                export_amount: 250,
                import_product_type: 1010227,
                import_amount: 282,
            },
        ]
    );
}

fn route_image(owner: u16) -> MemoryImage {
    let mut mem = MemoryImage::new();
    // name "Port" held inside the buffer at 0x1018
    let name: Vec<u8> = "Port".encode_utf16().flat_map(|u| u.to_le_bytes()).collect();
    mem.add_region(0x1018, name);
    put_u64(&mut mem, 0x1028, 4);
    put_u16(&mut mem, 0x1082, owner);
    // one stop, through the slot at 0x5000
    put_u64(&mut mem, 0x1038, 0x5000);
    put_u64(&mut mem, 0x1040, 0x5008);
    put_u64(&mut mem, 0x5000, 0x6000);
    put_u16(&mut mem, 0x6010, 11590);
    put_u64(&mut mem, 0x6018, 0x5100);
    put_u64(&mut mem, 0x6020, 0x5110);
    put_u64(&mut mem, 0x5100, 0x7000);
    put_u64(&mut mem, 0x5108, 0x7100);
    put_u32(&mut mem, 0x7010, 112696);
    mem.add_region(0x7014, vec![1]);
    put_u32(&mut mem, 0x7018, 50);
    put_u32(&mut mem, 0x7110, 112705);
    mem.add_region(0x7114, vec![0]);
    put_u32(&mut mem, 0x7118, 40);
    mem
}

#[test]
fn player_routes_are_reported_with_their_stops() {
    let mem = route_image(0);
    let route = TradeRoutePtr::new(0x1000);
    let m = trade_route_message(&route, &mem).unwrap().unwrap();
    assert_eq!(m.address, 0x1000);
    assert_eq!(m.name, "Port");
    assert_eq!(m.owner_id, 0);
    assert_eq!(m.stops.len(), 1);
    assert_eq!(m.stops[0].island_id, 11590);
    assert_eq!(
        m.stops[0].slots,
        vec![
            TradeRouteStopSlotMessage { product_type: 112696, amount: 50, action: 1 },
            TradeRouteStopSlotMessage { product_type: 112705, amount: 40, action: 0 },
        ]
    );
}

#[test]
fn other_owners_routes_are_not_reported() {
    let mem = route_image(2);
    let route = TradeRoutePtr::new(0x1000);
    assert!(matches!(trade_route_message(&route, &mem), Ok(None)));
}

#[test]
fn other_owners_routes_are_skipped_before_their_stops_are_read() {
    let mut mem = route_image(3);
    // a stop list whose end lies before its start
    put_u64(&mut mem, 0x1038, 0x5008);
    put_u64(&mut mem, 0x1040, 0x5000);
    let route = TradeRoutePtr::new(0x1000);
    assert!(matches!(trade_route_message(&route, &mem), Ok(None)));
}

#[test]
fn route_report_names_the_missing_memory() {
    let mut mem = route_image(0);
    mem = {
        let mut m = MemoryImage::new();
        for r in mem.regions.drain(..) {
            if r.base != 0x7118 {
                m.add_region(r.base, r.bytes);
            }
        }
        m
    };
    let route = TradeRoutePtr::new(0x1000);
    assert!(matches!(trade_route_message(&route, &mem), Err(ReadError::Unmapped(0x7118))));
}

#[test]
fn chosen_host_is_chosen_again_for_itself() {
    for input in ["  10.1.2.3 ", "", "host\u{2003}"] {
        let mut first = HostSetting { host: None };
        set_host(&mut first, input);
        let chosen = first.host.clone().unwrap();
        let mut second = HostSetting { host: None };
        set_host(&mut second, &chosen);
        assert_eq!(second.host, Some(chosen.clone()));
        assert!(!chosen.is_empty());
        assert_eq!(chosen.trim(), chosen);
    }
}
