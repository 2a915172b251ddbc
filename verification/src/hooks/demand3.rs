//! The report of a production building: what it makes, its production cycle,
//! its inputs and its extra wares, as raw values; the floating-point sums
//! over them are the caller's.
use vstd::prelude::*;

use crate::api::array_list::{
    lemma_span_read_addrs, lemma_strided_element, pointed_objects, span_fits, spec_span, strided_addrs, strided_count,
};
use crate::api::class32::Class32;
use crate::api::AnnoPtr;
use crate::api::production_building::ProductionBuildingPtr;
use crate::api::ware_production_extra::WareProductionExtraPtr;
use crate::memory::{MemoryImage, ReadError};

verus! {

/// A running production cycle: its length, the count of goods per cycle
/// (the word at `0x16c`) and the potential productivity factor (an `f32`,
/// given as its raw bits).
#[derive(Clone, Copy, Debug, PartialEq, Eq, Structural)]
pub struct ProductionCycle {
    pub millis_per_cycle: u64,
    pub count: u32,
    pub factor_bits: u32,
}

/// What a production building reports: its address, the ware it makes, the
/// byte that pauses it, its cycle while it runs, its inputs as pairs of ware
/// and multiplier bits, and its extra wares as pairs of ware and value bits.
#[derive(Clone, Debug, PartialEq, Eq)]
pub struct ProductionReport {
    pub address: u64,
    pub product_type: u32,
    pub paused: u8,
    pub cycle: Option<ProductionCycle>,
    pub inputs: Vec<(u32, u32)>,
    pub buffs: Vec<(u32, u32)>,
}

/// A production report, for contracts.
pub ghost struct ProductionReportView {
    pub address: u64,
    pub product_type: u32,
    pub paused: u8,
    pub cycle: Option<ProductionCycle>,
    pub inputs: Seq<(u32, u32)>,
    pub buffs: Seq<(u32, u32)>,
}

impl View for ProductionReport {
    type V = ProductionReportView;

    open spec fn view(&self) -> ProductionReportView {
        ProductionReportView {
            address: self.address,
            product_type: self.product_type,
            paused: self.paused,
            cycle: self.cycle,
            inputs: self.inputs@,
            buffs: self.buffs@,
        }
    }
}

/// The view of an optional report.
pub open spec fn opt_view(r: Option<ProductionReport>) -> Option<ProductionReportView> {
    match r {
        Some(v) => Some(v@),
        None => None,
    }
}

/// Reading the ware and the `u32` four bytes after it, at each address of
/// `s` in turn.
pub open spec fn spec_ware_values(mem: &MemoryImage, s: Seq<u64>) -> Result<Seq<(u32, u32)>, ReadError>
    decreases s.len(),
{
    if s.len() == 0 {
        Ok(Seq::empty())
    } else {
        match mem.spec_read_u32(s[0] + 0x0000) {
            Err(e) => Err(e),
            Ok(ware) => match mem.spec_read_u32(s[0] + 0x0004) {
                Err(e) => Err(e),
                Ok(bits) => match spec_ware_values(mem, s.drop_first()) {
                    Err(e) => Err(e),
                    Ok(rest) => Ok(seq![(ware, bits)] + rest),
                },
            },
        }
    }
}

/// Reading the inputs at the addresses of `s` in turn: the ware of each, and
/// for those whose ware is not in `excluded`, the multiplier after it; the
/// excluded ones are left out.
pub open spec fn spec_kept_inputs(mem: &MemoryImage, s: Seq<u64>, excluded: Seq<u32>) -> Result<
    Seq<(u32, u32)>,
    ReadError,
>
    decreases s.len(),
{
    if s.len() == 0 {
        Ok(Seq::empty())
    } else {
        match mem.spec_read_u32(s[0] + 0x0000) {
            Err(e) => Err(e),
            Ok(ware) => if excluded.contains(ware) {
                spec_kept_inputs(mem, s.drop_first(), excluded)
            } else {
                match mem.spec_read_u32(s[0] + 0x0004) {
                    Err(e) => Err(e),
                    Ok(bits) => match spec_kept_inputs(mem, s.drop_first(), excluded) {
                        Err(e) => Err(e),
                        Ok(rest) => Ok(seq![(ware, bits)] + rest),
                    },
                }
            },
        }
    }
}

/// No input that is kept has an excluded ware.
pub proof fn lemma_kept_inputs_leave_out_excluded(mem: &MemoryImage, s: Seq<u64>, excluded: Seq<u32>)
    ensures
        spec_kept_inputs(mem, s, excluded) matches Ok(v) ==> forall|i: int|
            0 <= i < v.len() ==> !excluded.contains(#[trigger] v[i].0),
    decreases s.len(),
{
    if s.len() > 0 {
        lemma_kept_inputs_leave_out_excluded(mem, s.drop_first(), excluded);
        if let Ok(v) = spec_kept_inputs(mem, s, excluded) {
            let ware = mem.spec_read_u32(s[0] + 0x0000)->Ok_0;
            if !excluded.contains(ware) {
                let rest = spec_kept_inputs(mem, s.drop_first(), excluded)->Ok_0;
                assert forall|i: int| 0 <= i < v.len() implies !excluded.contains(#[trigger] v[i].0) by {
                    if i > 0 {
                        assert(v[i] == rest[i - 1]);
                    }
                }
            }
        }
    }
}

/// Reading the pause byte of the building at `b` and, where it is zero, the
/// cycle length, the count and the factor bits.
pub open spec fn spec_cycle(mem: &MemoryImage, b: int) -> Result<(u8, Option<ProductionCycle>), ReadError> {
    match mem.spec_read_u8(b + 0x0200) {
        Err(e) => Err(e),
        Ok(paused) => if paused == 0 {
            match mem.spec_read_u64(b + 0x01f8) {
                Err(e) => Err(e),
                Ok(millis_per_cycle) => match mem.spec_read_u32(b + 0x016c) {
                    Err(e) => Err(e),
                    Ok(count) => match mem.spec_read_u32(b + 0x01f0) {
                        Err(e) => Err(e),
                        Ok(factor_bits) => Ok(
                            (paused, Some(ProductionCycle { millis_per_cycle, count, factor_bits })),
                        ),
                    },
                },
            }
        } else {
            Ok((paused, None))
        },
    }
}

/// The report of the building at `b`: `None` when it makes the ware
/// `skipped`; else its pause byte and cycle, the addresses of its inputs and
/// of its extra wares, the extra wares, then the inputs not `excluded`.
pub open spec fn spec_production_report(
    mem: &MemoryImage,
    b: u64,
    skipped: Option<u32>,
    excluded: Seq<u32>,
) -> Result<Option<ProductionReportView>, ReadError> {
    match mem.spec_read_u32(b + 0x0168) {
        Err(e) => Err(e),
        Ok(ware) => if skipped == Some(ware) {
            Ok(None)
        } else {
            match spec_cycle(mem, b as int) {
                Err(e) => Err(e),
                Ok((paused, cycle)) => match spec_span(mem, b + 0x0148, b + 0x0150, 8) {
                    Err(e) => Err(e),
                    Ok(input_addrs) => match spec_span(mem, b + 0x0188, b + 0x0190, 8) {
                        Err(e) => Err(e),
                        Ok(buff_addrs) => match spec_ware_values(mem, buff_addrs) {
                            Err(e) => Err(e),
                            Ok(buffs) => match spec_kept_inputs(mem, input_addrs, excluded) {
                                Err(e) => Err(e),
                                Ok(inputs) => Ok(
                                    Some(
                                        ProductionReportView {
                                            address: b,
                                            product_type: ware,
                                            paused,
                                            cycle,
                                            inputs,
                                            buffs,
                                        },
                                    ),
                                ),
                            },
                        },
                    },
                },
            }
        },
    }
}

/// Whether `ware` is one of `excluded`.
pub fn is_excluded(excluded: &Vec<u32>, ware: u32) -> (b: bool)
    ensures
        b == excluded@.contains(ware),
{
    let mut i: usize = 0;
    while i < excluded.len()
        invariant
            i <= excluded@.len(),
            forall|j: int| 0 <= j < i ==> excluded@[j] != ware,
        decreases excluded@.len() - i,
    {
        if excluded[i] == ware {
            assert(excluded@[i as int] == ware);
            return true;
        }
        i = i + 1;
    }
    false
}

/// The ware and the value bits of each extra ware, in order.
fn buff_values(mem: &MemoryImage, buffs: &Vec<WareProductionExtraPtr>, Ghost(addrs): Ghost<Seq<u64>>) -> (r:
    Result<Vec<(u32, u32)>, ReadError>)
    requires
        pointed_objects(buffs@, addrs),
    ensures
        match spec_ware_values(mem, addrs) {
            Ok(m) => r matches Ok(v) && v@ == m,
            Err(e) => r == Err::<Vec<(u32, u32)>, ReadError>(e),
        },
{
    let mut out: Vec<(u32, u32)> = Vec::new();
    let mut i: usize = 0;
    assert(addrs.skip(0) =~= addrs);
    while i < buffs.len()
        invariant
            pointed_objects(buffs@, addrs),
            i <= buffs@.len(),
            spec_ware_values(mem, addrs) == match spec_ware_values(mem, addrs.skip(i as int)) {
                Ok(rest) => Ok(out@ + rest),
                Err(e) => Err::<Seq<(u32, u32)>, ReadError>(e),
            },
        decreases buffs@.len() - i,
    {
        assert(buffs@[i as int].spec_address() == addrs[i as int]);
        assert(addrs.skip(i as int)[0] == buffs@[i as int].address);
        assert(addrs.skip(i as int).drop_first() =~= addrs.skip(i + 1));
        let ware = buffs[i].get_building_type(mem)?.0;
        let bits = buffs[i].get_value_bits(mem)?;
        let ghost prev = out@;
        out.push((ware, bits));
        proof {
            match spec_ware_values(mem, addrs.skip(i + 1)) {
                Ok(rest) => {
                    assert(prev + (seq![(ware, bits)] + rest) =~= out@ + rest);
                },
                Err(e) => {},
            }
        }
        i = i + 1;
    }
    assert(addrs.skip(i as int) =~= Seq::<u64>::empty());
    assert(out@ + Seq::<(u32, u32)>::empty() =~= out@);
    Ok(out)
}

/// The ware and the multiplier bits of each input whose ware is not one of
/// `excluded`, in order.
fn kept_inputs(
    mem: &MemoryImage,
    inputs: &Vec<Class32>,
    excluded: &Vec<u32>,
    Ghost(addrs): Ghost<Seq<u64>>,
) -> (r: Result<Vec<(u32, u32)>, ReadError>)
    requires
        pointed_objects(inputs@, addrs),
    ensures
        match spec_kept_inputs(mem, addrs, excluded@) {
            Ok(m) => r matches Ok(v) && v@ == m,
            Err(e) => r == Err::<Vec<(u32, u32)>, ReadError>(e),
        },
{
    let mut out: Vec<(u32, u32)> = Vec::new();
    let mut i: usize = 0;
    assert(addrs.skip(0) =~= addrs);
    while i < inputs.len()
        invariant
            pointed_objects(inputs@, addrs),
            i <= inputs@.len(),
            spec_kept_inputs(mem, addrs, excluded@) == match spec_kept_inputs(
                mem,
                addrs.skip(i as int),
                excluded@,
            ) {
                Ok(rest) => Ok(out@ + rest),
                Err(e) => Err::<Seq<(u32, u32)>, ReadError>(e),
            },
        decreases inputs@.len() - i,
    {
        assert(inputs@[i as int].spec_address() == addrs[i as int]);
        assert(addrs.skip(i as int)[0] == inputs@[i as int].address);
        assert(addrs.skip(i as int).drop_first() =~= addrs.skip(i + 1));
        let ware = inputs[i].get_ware_type(mem)?.0;
        if !is_excluded(excluded, ware) {
            let bits = inputs[i].get_4_bits(mem)?;
            let ghost prev = out@;
            out.push((ware, bits));
            proof {
                match spec_kept_inputs(mem, addrs.skip(i + 1), excluded@) {
                    Ok(rest) => {
                        assert(prev + (seq![(ware, bits)] + rest) =~= out@ + rest);
                    },
                    Err(e) => {},
                }
            }
        }
        i = i + 1;
    }
    assert(addrs.skip(i as int) =~= Seq::<u64>::empty());
    assert(out@ + Seq::<(u32, u32)>::empty() =~= out@);
    Ok(out)
}

/// The report of a production building, or `None` for one that makes the
/// ware `skipped`; inputs whose ware is in `excluded_inputs` are left out.
pub fn production_report(
    b: &ProductionBuildingPtr,
    mem: &MemoryImage,
    skipped: Option<u32>,
    excluded_inputs: &Vec<u32>,
) -> (r: Result<Option<ProductionReport>, ReadError>)
    requires
        span_fits(mem, b.address + 0x0148, b.address + 0x0150, 8),
        span_fits(mem, b.address + 0x0188, b.address + 0x0190, 8),
    ensures
        match spec_production_report(mem, b.address, skipped, excluded_inputs@) {
            Ok(m) => r matches Ok(v) && opt_view(v) == m,
            Err(e) => r == Err::<Option<ProductionReport>, ReadError>(e),
        },
{
    let product_type = b.get_ware_type(mem)?.0;
    if let Some(s) = skipped {
        if s == product_type {
            return Ok(None);
        }
    }
    let paused = b.get_200(mem)?;
    let cycle = if paused == 0 {
        let millis_per_cycle = b.get_millis_per_cycle(mem)?;
        let count = b.get_16c(mem)?;
        let factor_bits = b.get_potential_productivity_factor_bits(mem)?;
        Some(ProductionCycle { millis_per_cycle, count, factor_bits })
    } else {
        None
    };
    let inputs = b.get_inputs(mem);
    proof {
        lemma_span_read_addrs(mem, b.address + 0x0148, b.address + 0x0150, 8, inputs);
    }
    let inputs = inputs?;
    let buffs = b.get_buffs(mem);
    proof {
        lemma_span_read_addrs(mem, b.address + 0x0188, b.address + 0x0190, 8, buffs);
    }
    let buffs = buffs?;
    let ghost input_addrs = spec_span(mem, b.address + 0x0148, b.address + 0x0150, 8)->Ok_0;
    let ghost buff_addrs = spec_span(mem, b.address + 0x0188, b.address + 0x0190, 8)->Ok_0;
    let buffs = buff_values(mem, &buffs, Ghost(buff_addrs))?;
    let inputs = kept_inputs(mem, &inputs, excluded_inputs, Ghost(input_addrs))?;
    Ok(Some(ProductionReport { address: b.address, product_type, paused, cycle, inputs, buffs }))
}

/// Reading ware–value pairs gives one pair per address, in order: pair `k`
/// holds the ware at address `k` and the `u32` four bytes after it.
pub proof fn lemma_ware_values_one_per_address(mem: &MemoryImage, s: Seq<u64>)
    ensures
        spec_ware_values(mem, s) matches Ok(v) ==> {
            &&& v.len() == s.len()
            &&& forall|k: int|
                0 <= k < s.len() ==> {
                    &&& mem.spec_read_u32(#[trigger] s[k] + 0x0000) == Ok::<u32, ReadError>(v[k].0)
                    &&& mem.spec_read_u32(s[k] + 0x0004) == Ok::<u32, ReadError>(v[k].1)
                }
        },
    decreases s.len(),
{
    if s.len() > 0 {
        lemma_ware_values_one_per_address(mem, s.drop_first());
        if let Ok(v) = spec_ware_values(mem, s) {
            let rest = spec_ware_values(mem, s.drop_first())->Ok_0;
            assert forall|k: int| 0 <= k < s.len() implies {
                &&& mem.spec_read_u32(#[trigger] s[k] + 0x0000) == Ok::<u32, ReadError>(v[k].0)
                &&& mem.spec_read_u32(s[k] + 0x0004) == Ok::<u32, ReadError>(v[k].1)
            } by {
                if k > 0 {
                    assert(s[k] == s.drop_first()[k - 1]);
                    assert(v[k] == rest[k - 1]);
                }
            }
        }
    }
}

/// A building's report holds one extra ware per eight-byte element of its
/// extra-ware list, in order: with the list running from `first` to `last`,
/// there are `(last - first) / 8` pairs, and pair `k` holds the ware at
/// `first + 8 * k` and the value bits four bytes after it.
pub proof fn lemma_report_has_every_extra_ware(
    mem: &MemoryImage,
    b: u64,
    skipped: Option<u32>,
    excluded: Seq<u32>,
)
    requires
        span_fits(mem, b + 0x0188, b + 0x0190, 8),
    ensures
        spec_production_report(mem, b, skipped, excluded) matches Ok(Some(r)) ==> {
            &&& mem.spec_read_u64(b + 0x0188) is Ok
            &&& mem.spec_read_u64(b + 0x0190) is Ok
            &&& ({
                let first = mem.spec_read_u64(b + 0x0188)->Ok_0;
                let last = mem.spec_read_u64(b + 0x0190)->Ok_0;
                &&& r.buffs.len() == (last - first) / 8
                &&& forall|k: int|
                    0 <= k < r.buffs.len() ==> {
                        &&& mem.spec_read_u32(first + 8 * k) == Ok::<u32, ReadError>(#[trigger] r.buffs[k].0)
                        &&& mem.spec_read_u32(first + 8 * k + 4) == Ok::<u32, ReadError>(r.buffs[k].1)
                    }
            })
        },
{
    if let Ok(Some(r)) = spec_production_report(mem, b, skipped, excluded) {
        let first = mem.spec_read_u64(b + 0x0188)->Ok_0;
        let last = mem.spec_read_u64(b + 0x0190)->Ok_0;
        let addrs = strided_addrs(first, last, 8);
        lemma_ware_values_one_per_address(mem, addrs);
        if addrs.len() > 0 {
            lemma_strided_element(first, last, 8, 0);
        } else {
            assert(strided_count(first, last, 8) >= 0);
        }
        assert forall|k: int| 0 <= k < r.buffs.len() implies {
            &&& mem.spec_read_u32(first + 8 * k) == Ok::<u32, ReadError>(#[trigger] r.buffs[k].0)
            &&& mem.spec_read_u32(first + 8 * k + 4) == Ok::<u32, ReadError>(r.buffs[k].1)
        } by {
            lemma_strided_element(first, last, 8, k);
            assert(mem.spec_read_u32(addrs[k] + 0x0000) == Ok::<u32, ReadError>(r.buffs[k].0));
        }
    }
}

/// With nothing excluded, every input is kept: the inputs read are the
/// ware–multiplier pairs of all the addresses, one per address, in order.
pub proof fn lemma_nothing_excluded_keeps_every_input(mem: &MemoryImage, s: Seq<u64>, excluded: Seq<u32>)
    requires
        excluded.len() == 0,
    ensures
        spec_kept_inputs(mem, s, excluded) == spec_ware_values(mem, s),
    decreases s.len(),
{
    if s.len() > 0 {
        lemma_nothing_excluded_keeps_every_input(mem, s.drop_first(), excluded);
        if let Ok(ware) = mem.spec_read_u32(s[0] + 0x0000) {
            assert(!excluded.contains(ware));
        }
    }
}

} // verus!
