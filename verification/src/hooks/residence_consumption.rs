//! The report of an island area's residence demands: the island's name and
//! owner, and each demand's ware and rate as raw values; the floating-point
//! scaling of the rates is the caller's.
use vstd::prelude::*;

use crate::api::AnnoPtr;
use crate::api::area_residence_consumption_manager::AreaResidenceConsumptionManagerPtr;
use crate::api::array_list::{
    lemma_span_read_addrs, lemma_strided_element, pointed_objects, span_fits, spec_span, strided_addrs, strided_count,
};
use crate::api::class30::Class30Ptr;
use crate::api::island::{spec_island_name, IslandName, IslandNameView};
use crate::memory::{MemoryImage, ReadError};

verus! {

/// What the residences of an island area report: the island's name, its
/// owner, and each demand as a pair of ware and demand-per-second bits (an
/// `f32`, given as its raw bits).
#[derive(Clone, Debug, PartialEq, Eq)]
pub struct ResidenceReport {
    pub island_name: IslandName,
    pub island_owner: u16,
    pub demands: Vec<(u32, u32)>,
}

/// A residence report, for contracts.
pub ghost struct ResidenceReportView {
    pub island_name: IslandNameView,
    pub island_owner: u16,
    pub demands: Seq<(u32, u32)>,
}

impl View for ResidenceReport {
    type V = ResidenceReportView;

    open spec fn view(&self) -> ResidenceReportView {
        ResidenceReportView {
            island_name: self.island_name@,
            island_owner: self.island_owner,
            demands: self.demands@,
        }
    }
}

/// Reading the demand bits at offset `0xc` and then the ware at offset `0`
/// of each demand at the addresses of `s` in turn.
pub open spec fn spec_demands(mem: &MemoryImage, s: Seq<u64>) -> Result<Seq<(u32, u32)>, ReadError>
    decreases s.len(),
{
    if s.len() == 0 {
        Ok(Seq::empty())
    } else {
        match mem.spec_read_u32(s[0] + 0x000c) {
            Err(e) => Err(e),
            Ok(bits) => match mem.spec_read_u32(s[0] + 0x0000) {
                Err(e) => Err(e),
                Ok(ware) => match spec_demands(mem, s.drop_first()) {
                    Err(e) => Err(e),
                    Ok(rest) => Ok(seq![(ware, bits)] + rest),
                },
            },
        }
    }
}

/// The report of the manager at `m`: its island, the island's name and
/// owner, then the demands.
pub open spec fn spec_residence_report(mem: &MemoryImage, m: u64) -> Result<ResidenceReportView, ReadError> {
    match mem.spec_read_u64(m + 0x0038) {
        Err(e) => Err(e),
        Ok(island) => match spec_island_name(mem, island as int) {
            Err(e) => Err(e),
            Ok(island_name) => match mem.spec_read_u16(island + 0x004e) {
                Err(e) => Err(e),
                Ok(island_owner) => match spec_span(mem, m + 0x0040, m + 0x0048, 0x38) {
                    Err(e) => Err(e),
                    Ok(addrs) => match spec_demands(mem, addrs) {
                        Err(e) => Err(e),
                        Ok(demands) => Ok(ResidenceReportView { island_name, island_owner, demands }),
                    },
                },
            },
        },
    }
}

/// The ware and demand bits of each demand, in order.
fn demand_values(mem: &MemoryImage, demands: &Vec<Class30Ptr>, Ghost(addrs): Ghost<Seq<u64>>) -> (r: Result<
    Vec<(u32, u32)>,
    ReadError,
>)
    requires
        pointed_objects(demands@, addrs),
    ensures
        match spec_demands(mem, addrs) {
            Ok(s) => r matches Ok(v) && v@ == s,
            Err(e) => r == Err::<Vec<(u32, u32)>, ReadError>(e),
        },
{
    let mut out: Vec<(u32, u32)> = Vec::new();
    let mut i: usize = 0;
    assert(addrs.skip(0) =~= addrs);
    while i < demands.len()
        invariant
            pointed_objects(demands@, addrs),
            i <= demands@.len(),
            spec_demands(mem, addrs) == match spec_demands(mem, addrs.skip(i as int)) {
                Ok(rest) => Ok(out@ + rest),
                Err(e) => Err::<Seq<(u32, u32)>, ReadError>(e),
            },
        decreases demands@.len() - i,
    {
        assert(demands@[i as int].spec_address() == addrs[i as int]);
        assert(addrs.skip(i as int)[0] == demands@[i as int].address);
        assert(addrs.skip(i as int).drop_first() =~= addrs.skip(i + 1));
        let bits = demands[i].get_demand_per_second_bits(mem)?;
        let ware = demands[i].get_ware_type(mem)?.0;
        let ghost prev = out@;
        out.push((ware, bits));
        proof {
            match spec_demands(mem, addrs.skip(i + 1)) {
                Ok(rest) => {
                    assert(prev + (seq![(ware, bits)] + rest) =~= out@ + rest);
                },
                Err(e) => {},
            }
        }
        i = i + 1;
    }
    assert(addrs.skip(i as int) =~= Seq::<u64>::empty());
    assert(out@ + Seq::<(u32, u32)>::empty() =~= out@);
    Ok(out)
}

/// The report of the residences of an island area.
pub fn residence_report(m: &AreaResidenceConsumptionManagerPtr, mem: &MemoryImage) -> (r: Result<
    ResidenceReport,
    ReadError,
>)
    requires
        span_fits(mem, m.address + 0x0040, m.address + 0x0048, 0x38),
    ensures
        match spec_residence_report(mem, m.address) {
            Ok(x) => r matches Ok(v) && v@ == x,
            Err(e) => r == Err::<ResidenceReport, ReadError>(e),
        },
{
    let island = m.get_island(mem)?;
    if island.address > u64::MAX - 0x0120 {
        proof {
            mem.lemma_read_overflow(island.address + 0x0130, 8);
        }
        return Err(ReadError::AddressOverflow);
    }
    let island_name = island.get_name(mem)?;
    let island_owner = island.get_owner_index(mem)?;
    let demands = m.get_class30s(mem);
    proof {
        lemma_span_read_addrs(mem, m.address + 0x0040, m.address + 0x0048, 0x38, demands);
    }
    let demands = demands?;
    let ghost addrs = spec_span(mem, m.address + 0x0040, m.address + 0x0048, 0x38)->Ok_0;
    let demands = demand_values(mem, &demands, Ghost(addrs))?;
    Ok(ResidenceReport { island_name, island_owner, demands })
}

/// Reading demands gives one per address, in order: demand `k` holds the ware
/// at address `k` and the demand bits twelve bytes after it.
pub proof fn lemma_demands_one_per_address(mem: &MemoryImage, s: Seq<u64>)
    ensures
        spec_demands(mem, s) matches Ok(v) ==> {
            &&& v.len() == s.len()
            &&& forall|k: int|
                0 <= k < s.len() ==> {
                    &&& mem.spec_read_u32(#[trigger] s[k] + 0x0000) == Ok::<u32, ReadError>(v[k].0)
                    &&& mem.spec_read_u32(s[k] + 0x000c) == Ok::<u32, ReadError>(v[k].1)
                }
        },
    decreases s.len(),
{
    if s.len() > 0 {
        lemma_demands_one_per_address(mem, s.drop_first());
        if let Ok(v) = spec_demands(mem, s) {
            let rest = spec_demands(mem, s.drop_first())->Ok_0;
            assert forall|k: int| 0 <= k < s.len() implies {
                &&& mem.spec_read_u32(#[trigger] s[k] + 0x0000) == Ok::<u32, ReadError>(v[k].0)
                &&& mem.spec_read_u32(s[k] + 0x000c) == Ok::<u32, ReadError>(v[k].1)
            } by {
                if k > 0 {
                    assert(s[k] == s.drop_first()[k - 1]);
                    assert(v[k] == rest[k - 1]);
                }
            }
        }
    }
}

/// The report holds one demand per `0x38`-byte element of the manager's
/// demand list, in order: with the list running from `first` (the word at
/// `0x40`) to `last` (the word at `0x48`), there are `(last - first) / 0x38`
/// demands, and demand `k` holds the ware at `first + 0x38 * k` and the
/// demand bits at `first + 0x38 * k + 0xc`.
pub proof fn lemma_report_has_every_demand(mem: &MemoryImage, m: u64)
    requires
        span_fits(mem, m + 0x0040, m + 0x0048, 0x38),
    ensures
        spec_residence_report(mem, m) matches Ok(x) ==> {
            &&& mem.spec_read_u64(m + 0x0040) is Ok
            &&& mem.spec_read_u64(m + 0x0048) is Ok
            &&& ({
                let first = mem.spec_read_u64(m + 0x0040)->Ok_0;
                let last = mem.spec_read_u64(m + 0x0048)->Ok_0;
                &&& x.demands.len() == (last - first) / 0x38
                &&& forall|k: int|
                    0 <= k < x.demands.len() ==> {
                        &&& mem.spec_read_u32(first + 0x38 * k) == Ok::<u32, ReadError>(#[trigger] x.demands[k].0)
                        &&& mem.spec_read_u32(first + 0x38 * k + 0xc) == Ok::<u32, ReadError>(x.demands[k].1)
                    }
            })
        },
{
    if let Ok(x) = spec_residence_report(mem, m) {
        let first = mem.spec_read_u64(m + 0x0040)->Ok_0;
        let last = mem.spec_read_u64(m + 0x0048)->Ok_0;
        let addrs = strided_addrs(first, last, 0x38);
        lemma_demands_one_per_address(mem, addrs);
        if addrs.len() > 0 {
            lemma_strided_element(first, last, 0x38, 0);
        } else {
            assert(strided_count(first, last, 0x38) >= 0);
        }
        assert forall|k: int| 0 <= k < x.demands.len() implies {
            &&& mem.spec_read_u32(first + 0x38 * k) == Ok::<u32, ReadError>(#[trigger] x.demands[k].0)
            &&& mem.spec_read_u32(first + 0x38 * k + 0xc) == Ok::<u32, ReadError>(x.demands[k].1)
        } by {
            lemma_strided_element(first, last, 0x38, k);
            assert(mem.spec_read_u32(addrs[k] + 0x0000) == Ok::<u32, ReadError>(x.demands[k].0));
        }
    }
}

} // verus!
