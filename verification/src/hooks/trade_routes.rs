//! The report of a trade route: its name, its owner, and the cargo of each of
//! its stops. Only the routes of the player (owner `0`) are reported.
use vstd::prelude::*;

use crate::api::array_list::{pointed_objects, span_fits, spec_span_deref};
use crate::api::string_buffer::{utf16_lossy, StringBufferPtr};
use crate::api::trade_route::{TradeRoutePtr, TradeRouteStopPtr, TradeRouteStopSlotPtr};
use crate::api::ware_type::spec_read_ware;
use crate::api::AnnoPtr;
use crate::memory::{MemoryImage, ReadError};

verus! {

/// One cargo slot: the ware, its amount, and whether it is loaded or unloaded.
#[derive(Clone, Copy, Debug, PartialEq, Eq, Structural)]
pub struct TradeRouteStopSlotMessage {
    pub product_type: u32,
    pub amount: u32,
    pub action: u8,
}

/// One stop: its island and its cargo slots.
pub struct TradeRouteStopMessage {
    pub island_id: u16,
    pub slots: Vec<TradeRouteStopSlotMessage>,
}

/// A trade route: its address, name, owner and stops.
pub struct TradeRouteMessage {
    pub address: u64,
    pub name: String,
    pub owner_id: u16,
    pub stops: Vec<TradeRouteStopMessage>,
}

impl View for TradeRouteStopMessage {
    type V = (u16, Seq<TradeRouteStopSlotMessage>);

    open spec fn view(&self) -> (u16, Seq<TradeRouteStopSlotMessage>) {
        (self.island_id, self.slots@)
    }
}

impl View for TradeRouteMessage {
    type V = (u64, Seq<char>, u16, Seq<(u16, Seq<TradeRouteStopSlotMessage>)>);

    open spec fn view(&self) -> (u64, Seq<char>, u16, Seq<(u16, Seq<TradeRouteStopSlotMessage>)>) {
        (self.address, self.name@, self.owner_id, self.stops@.map_values(|s: TradeRouteStopMessage| s@))
    }
}

/// Reading the slot at `a`: its action, amount and ware.
pub open spec fn spec_slot(mem: &MemoryImage, a: u64) -> Result<TradeRouteStopSlotMessage, ReadError> {
    match mem.spec_read_u8(a + 0x14) {
        Err(e) => Err(e),
        Ok(action) => match mem.spec_read_u32(a + 0x18) {
            Err(e) => Err(e),
            Ok(amount) => match spec_read_ware(mem, a + 0x10) {
                Err(e) => Err(e),
                Ok(ware) => Ok(TradeRouteStopSlotMessage { product_type: ware.0, amount, action }),
            },
        },
    }
}

/// Reading the slots at the addresses `s`, in order.
pub open spec fn spec_slots(mem: &MemoryImage, s: Seq<u64>) -> Result<Seq<TradeRouteStopSlotMessage>, ReadError>
    decreases s.len(),
{
    if s.len() == 0 {
        Ok(Seq::empty())
    } else {
        match spec_slot(mem, s[0]) {
            Err(e) => Err(e),
            Ok(m) => match spec_slots(mem, s.drop_first()) {
                Err(e) => Err(e),
                Ok(rest) => Ok(seq![m] + rest),
            },
        }
    }
}

/// Reading the stop at `a`: its island, then its slots.
pub open spec fn spec_stop(mem: &MemoryImage, a: u64) -> Result<(u16, Seq<TradeRouteStopSlotMessage>), ReadError> {
    match mem.spec_read_u16(a + 0x10) {
        Err(e) => Err(e),
        Ok(island_id) => match spec_span_deref(mem, a + 0x18, a + 0x20) {
            Err(e) => Err(e),
            Ok(slots) => match spec_slots(mem, slots) {
                Err(e) => Err(e),
                Ok(ms) => Ok((island_id, ms)),
            },
        },
    }
}

/// Reading the stops at the addresses `s`, in order.
pub open spec fn spec_stops(mem: &MemoryImage, s: Seq<u64>) -> Result<
    Seq<(u16, Seq<TradeRouteStopSlotMessage>)>,
    ReadError,
>
    decreases s.len(),
{
    if s.len() == 0 {
        Ok(Seq::empty())
    } else {
        match spec_stop(mem, s[0]) {
            Err(e) => Err(e),
            Ok(m) => match spec_stops(mem, s.drop_first()) {
                Err(e) => Err(e),
                Ok(rest) => Ok(seq![m] + rest),
            },
        }
    }
}

/// The report of the route at `r`: its name and owner are read; a route that
/// the player does not own gives no report; else its stops are read.
pub open spec fn spec_route(mem: &MemoryImage, r: u64) -> Result<
    Option<(u64, Seq<char>, u16, Seq<(u16, Seq<TradeRouteStopSlotMessage>)>)>,
    ReadError,
> {
    match (StringBufferPtr { address: (r + 0x18) as u64 }).spec_units(mem) {
        Err(e) => Err(e),
        Ok(units) => match mem.spec_read_u16(r + 0x82) {
            Err(e) => Err(e),
            Ok(owner_id) => if owner_id != 0 {
                Ok(None)
            } else {
                match spec_span_deref(mem, r + 0x38, r + 0x40) {
                    Err(e) => Err(e),
                    Ok(stops) => match spec_stops(mem, stops) {
                        Err(e) => Err(e),
                        Ok(ms) => Ok(Some((r, utf16_lossy(units), owner_id, ms))),
                    },
                }
            },
        },
    }
}

/// The lists the report of the route at `r` walks fit exactly (else the walk
/// would not end).
pub open spec fn route_lists_fit(mem: &MemoryImage, r: u64) -> bool {
    &&& span_fits(mem, r + 0x38, r + 0x40, 8)
    &&& spec_span_deref(mem, r + 0x38, r + 0x40) matches Ok(stops) ==> forall|i: int|
        0 <= i < stops.len() ==> span_fits(mem, #[trigger] stops[i] + 0x18, stops[i] + 0x20, 8)
}

/// Reads one cargo slot.
pub fn slot_message(mem: &MemoryImage, slot: &TradeRouteStopSlotPtr) -> (r: Result<
    TradeRouteStopSlotMessage,
    ReadError,
>)
    ensures
        r == spec_slot(mem, slot.address),
{
    let action = slot.get_action(mem)?;
    let amount = slot.get_amount(mem)?;
    let ware = slot.get_product_type(mem)?;
    Ok(TradeRouteStopSlotMessage { product_type: ware.0, amount, action })
}

/// Reads one stop and its cargo slots.
pub fn stop_message(mem: &MemoryImage, stop: &TradeRouteStopPtr) -> (r: Result<TradeRouteStopMessage, ReadError>)
    requires
        span_fits(mem, stop.address + 0x18, stop.address + 0x20, 8),
    ensures
        match spec_stop(mem, stop.address) {
            Ok(m) => r matches Ok(v) && v@ == m,
            Err(e) => r is Err && r->Err_0 == e,
        },
{
    let island_id = stop.get_island_id(mem)?;
    let slots = stop.get_slots(mem)?;
    let ghost addrs = spec_span_deref(mem, stop.address + 0x18, stop.address + 0x20)->Ok_0;
    let mut out: Vec<TradeRouteStopSlotMessage> = Vec::new();
    let mut i: usize = 0;
    assert(addrs.skip(0) =~= addrs);
    while i < slots.len()
        invariant
            pointed_objects(slots@, addrs),
            i <= slots@.len(),
            spec_stop(mem, stop.address) == match spec_slots(mem, addrs) {
                Ok(ms) => Ok((island_id, ms)),
                Err(e) => Err::<(u16, Seq<TradeRouteStopSlotMessage>), ReadError>(e),
            },
            spec_slots(mem, addrs) == match spec_slots(mem, addrs.skip(i as int)) {
                Ok(rest) => Ok(out@ + rest),
                Err(e) => Err::<Seq<TradeRouteStopSlotMessage>, ReadError>(e),
            },
        decreases slots@.len() - i,
    {
        assert(slots@[i as int].spec_address() == addrs[i as int]);
        assert(addrs.skip(i as int)[0] == slots@[i as int].address);
        assert(addrs.skip(i as int).drop_first() =~= addrs.skip(i + 1));
        let m = slot_message(mem, &slots[i])?;
        let ghost prev = out@;
        out.push(m);
        proof {
            match spec_slots(mem, addrs.skip(i + 1)) {
                Ok(rest) => {
                    assert(prev + (seq![m] + rest) =~= out@ + rest);
                },
                Err(e) => {},
            }
        }
        i = i + 1;
    }
    assert(addrs.skip(i as int) =~= Seq::<u64>::empty());
    assert(out@ + Seq::<TradeRouteStopSlotMessage>::empty() =~= out@);
    Ok(TradeRouteStopMessage { island_id, slots: out })
}

/// The report of a trade route, or `None` for a route the player does not own.
pub fn trade_route_message(route: &TradeRoutePtr, mem: &MemoryImage) -> (r: Result<
    Option<TradeRouteMessage>,
    ReadError,
>)
    requires
        route.address + 0x18 <= u64::MAX,
        mem.spec_read_u16(route.address + 0x82) == Ok::<u16, ReadError>(0u16) ==> route_lists_fit(
            mem,
            route.address,
        ),
    ensures
        match spec_route(mem, route.address) {
            Ok(None) => r matches Ok(None),
            Ok(Some(m)) => r matches Ok(Some(v)) && v@ == m,
            Err(e) => r is Err && r->Err_0 == e,
        },
{
    let address = route.address;
    let name = route.get_route_name(mem)?;
    let owner_id = route.get_owner_id(mem)?;
    if owner_id != 0 {
        return Ok(None);
    }
    let stops = route.get_stops(mem)?;
    let ghost addrs = spec_span_deref(mem, route.address + 0x38, route.address + 0x40)->Ok_0;
    let mut out: Vec<TradeRouteStopMessage> = Vec::new();
    let mut i: usize = 0;
    assert(addrs.skip(0) =~= addrs);
    assert(out@.map_values(|s: TradeRouteStopMessage| s@) =~= Seq::<(u16, Seq<TradeRouteStopSlotMessage>)>::empty());
    while i < stops.len()
        invariant
            pointed_objects(stops@, addrs),
            spec_span_deref(mem, route.address + 0x38, route.address + 0x40) == Ok::<Seq<u64>, ReadError>(addrs),
            route_lists_fit(mem, route.address),
            i <= stops@.len(),
            spec_route(mem, route.address) == match spec_stops(mem, addrs) {
                Ok(ms) => Ok(Some((route.address, name@, owner_id, ms))),
                Err(e) => Err::<Option<(u64, Seq<char>, u16, Seq<(u16, Seq<TradeRouteStopSlotMessage>)>)>, ReadError>(e),
            },
            spec_stops(mem, addrs) == match spec_stops(mem, addrs.skip(i as int)) {
                Ok(rest) => Ok(out@.map_values(|s: TradeRouteStopMessage| s@) + rest),
                Err(e) => Err::<Seq<(u16, Seq<TradeRouteStopSlotMessage>)>, ReadError>(e),
            },
        decreases stops@.len() - i,
    {
        assert(stops@[i as int].spec_address() == addrs[i as int]);
        assert(addrs.skip(i as int)[0] == stops@[i as int].address);
        assert(addrs.skip(i as int).drop_first() =~= addrs.skip(i + 1));
        assert(span_fits(mem, addrs[i as int] + 0x18, addrs[i as int] + 0x20, 8));
        let m = stop_message(mem, &stops[i])?;
        let ghost prev = out@.map_values(|s: TradeRouteStopMessage| s@);
        out.push(m);
        proof {
            assert(out@.map_values(|s: TradeRouteStopMessage| s@) =~= prev.push(m@));
            match spec_stops(mem, addrs.skip(i + 1)) {
                Ok(rest) => {
                    assert(prev + (seq![m@] + rest) =~= prev.push(m@) + rest);
                },
                Err(e) => {},
            }
        }
        i = i + 1;
    }
    assert(addrs.skip(i as int) =~= Seq::<u64>::empty());
    assert(out@.map_values(|s: TradeRouteStopMessage| s@) + Seq::<(u16, Seq<TradeRouteStopSlotMessage>)>::empty()
        =~= out@.map_values(|s: TradeRouteStopMessage| s@));
    Ok(Some(TradeRouteMessage { address, name, owner_id, stops: out }))
}

/// The stops are read in the order of the addresses: one report per address,
/// report `k` being that of the stop at address `k`.
pub proof fn lemma_stops_in_list_order(mem: &MemoryImage, s: Seq<u64>)
    ensures
        spec_stops(mem, s) matches Ok(v) ==> {
            &&& v.len() == s.len()
            &&& forall|k: int| 0 <= k < s.len() ==> spec_stop(mem, #[trigger] s[k]) == Ok::<
                (u16, Seq<TradeRouteStopSlotMessage>),
                ReadError,
            >(v[k])
        },
    decreases s.len(),
{
    if s.len() > 0 {
        lemma_stops_in_list_order(mem, s.drop_first());
        if let Ok(v) = spec_stops(mem, s) {
            let rest = spec_stops(mem, s.drop_first())->Ok_0;
            assert forall|k: int| 0 <= k < s.len() implies spec_stop(mem, #[trigger] s[k]) == Ok::<
                (u16, Seq<TradeRouteStopSlotMessage>),
                ReadError,
            >(v[k]) by {
                if k > 0 {
                    assert(s[k] == s.drop_first()[k - 1]);
                    assert(v[k] == rest[k - 1]);
                }
            }
        }
    }
}

/// The slots are read in the order of the addresses: one per address, slot
/// `k` being the one at address `k`.
pub proof fn lemma_slots_in_list_order(mem: &MemoryImage, s: Seq<u64>)
    ensures
        spec_slots(mem, s) matches Ok(v) ==> {
            &&& v.len() == s.len()
            &&& forall|k: int| 0 <= k < s.len() ==> spec_slot(mem, #[trigger] s[k]) == Ok::<
                TradeRouteStopSlotMessage,
                ReadError,
            >(v[k])
        },
    decreases s.len(),
{
    if s.len() > 0 {
        lemma_slots_in_list_order(mem, s.drop_first());
        if let Ok(v) = spec_slots(mem, s) {
            let rest = spec_slots(mem, s.drop_first())->Ok_0;
            assert forall|k: int| 0 <= k < s.len() implies spec_slot(mem, #[trigger] s[k]) == Ok::<
                TradeRouteStopSlotMessage,
                ReadError,
            >(v[k]) by {
                if k > 0 {
                    assert(s[k] == s.drop_first()[k - 1]);
                    assert(v[k] == rest[k - 1]);
                }
            }
        }
    }
}

/// A route's report lists its stops in the order of its stop list: as many
/// stops as the list at `0x38..0x40` holds addresses, stop `k` being the stop
/// at address `k` of the list, with that stop's island (its word at `0x10`)
/// and its cargo slots in the order of its own slot list.
pub proof fn lemma_route_keeps_stop_order(mem: &MemoryImage, r: u64)
    ensures
        spec_route(mem, r) matches Ok(Some(m)) ==> {
            &&& spec_span_deref(mem, r + 0x38, r + 0x40) is Ok
            &&& m.3.len() == spec_span_deref(mem, r + 0x38, r + 0x40)->Ok_0.len()
            &&& forall|k: int|
                0 <= k < m.3.len() ==> {
                    let stop = spec_span_deref(mem, r + 0x38, r + 0x40)->Ok_0[k];
                    &&& mem.spec_read_u16(stop + 0x10) == Ok::<u16, ReadError>(#[trigger] m.3[k].0)
                    &&& spec_span_deref(mem, stop + 0x18, stop + 0x20) is Ok
                    &&& m.3[k].1.len() == spec_span_deref(mem, stop + 0x18, stop + 0x20)->Ok_0.len()
                    &&& forall|j: int|
                        0 <= j < m.3[k].1.len() ==> spec_slot(
                            mem,
                            spec_span_deref(mem, stop + 0x18, stop + 0x20)->Ok_0[j],
                        ) == Ok::<TradeRouteStopSlotMessage, ReadError>(#[trigger] m.3[k].1[j])
                }
        },
{
    if let Ok(Some(m)) = spec_route(mem, r) {
        let addrs = spec_span_deref(mem, r + 0x38, r + 0x40)->Ok_0;
        lemma_stops_in_list_order(mem, addrs);
        assert forall|k: int| 0 <= k < m.3.len() implies {
            let stop = addrs[k];
            &&& mem.spec_read_u16(stop + 0x10) == Ok::<u16, ReadError>(#[trigger] m.3[k].0)
            &&& spec_span_deref(mem, stop + 0x18, stop + 0x20) is Ok
            &&& m.3[k].1.len() == spec_span_deref(mem, stop + 0x18, stop + 0x20)->Ok_0.len()
            &&& forall|j: int|
                0 <= j < m.3[k].1.len() ==> spec_slot(
                    mem,
                    spec_span_deref(mem, stop + 0x18, stop + 0x20)->Ok_0[j],
                ) == Ok::<TradeRouteStopSlotMessage, ReadError>(#[trigger] m.3[k].1[j])
        } by {
            let stop = addrs[k];
            assert(spec_stop(mem, addrs[k]) == Ok::<(u16, Seq<TradeRouteStopSlotMessage>), ReadError>(m.3[k]));
            let slots = spec_span_deref(mem, stop + 0x18, stop + 0x20)->Ok_0;
            lemma_slots_in_list_order(mem, slots);
            assert forall|j: int| 0 <= j < m.3[k].1.len() implies spec_slot(mem, slots[j])
                == Ok::<TradeRouteStopSlotMessage, ReadError>(#[trigger] m.3[k].1[j]) by {
                assert(spec_slot(mem, slots[j]) == Ok::<TradeRouteStopSlotMessage, ReadError>(m.3[k].1[j]));
            }
        }
    }
}

} // verus!
