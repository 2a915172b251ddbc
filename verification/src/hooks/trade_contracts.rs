//! The report of an island's trade contracts.
use vstd::prelude::*;

use crate::api::array_list::{lemma_stride_end, lemma_stride_step, strided_addrs, strided_span};
use crate::api::trade_contracts::TradeContractsPtr;
use crate::api::ware_type::spec_read_ware;
use crate::memory::{MemoryImage, ReadError};

verus! {

/// The size of one trade contract in the island's list.
pub const TRADE_CONTRACT_SIZE: u64 = 0x24;

/// One contract: the ware and amount exported, the ware and amount imported.
#[derive(Clone, Copy, Debug, PartialEq, Eq, Structural)]
pub struct IslandTradeContractMessage {
    pub export_product_type: u32,
    pub export_amount: u32,
    pub import_product_type: u32,
    pub import_amount: u32,
}

/// The contracts of one island.
pub struct IslandTradeContractsMessage {
    pub island_id: u16,
    pub contracts: Vec<IslandTradeContractMessage>,
}

impl View for IslandTradeContractsMessage {
    type V = (u16, Seq<IslandTradeContractMessage>);

    open spec fn view(&self) -> (u16, Seq<IslandTradeContractMessage>) {
        (self.island_id, self.contracts@)
    }
}

/// Reading the contract at `c`: export ware, export amount, import ware,
/// import amount.
pub open spec fn spec_contract(mem: &MemoryImage, c: u64) -> Result<IslandTradeContractMessage, ReadError> {
    match spec_read_ware(mem, c + 0x08) {
        Err(e) => Err(e),
        Ok(export_type) => match mem.spec_read_u32(c + 0x0c) {
            Err(e) => Err(e),
            Ok(export_amount) => match spec_read_ware(mem, c + 0x14) {
                Err(e) => Err(e),
                Ok(import_type) => match mem.spec_read_u32(c + 0x18) {
                    Err(e) => Err(e),
                    Ok(import_amount) => Ok(
                        IslandTradeContractMessage {
                            export_product_type: export_type.0,
                            export_amount,
                            import_product_type: import_type.0,
                            import_amount,
                        },
                    ),
                },
            },
        },
    }
}

/// Reading the contracts at the addresses `cs`, in order.
pub open spec fn spec_contracts(mem: &MemoryImage, cs: Seq<u64>) -> Result<
    Seq<IslandTradeContractMessage>,
    ReadError,
>
    decreases cs.len(),
{
    if cs.len() == 0 {
        Ok(Seq::empty())
    } else {
        match spec_contract(mem, cs[0]) {
            Err(e) => Err(e),
            Ok(m) => match spec_contracts(mem, cs.drop_first()) {
                Err(e) => Err(e),
                Ok(rest) => Ok(seq![m] + rest),
            },
        }
    }
}

/// The report of the contracts at `t`: the island, then the `0x24`-byte
/// contracts of the list at offset `0x80`.
pub open spec fn spec_contracts_message(mem: &MemoryImage, t: TradeContractsPtr) -> Result<
    (u16, Seq<IslandTradeContractMessage>),
    ReadError,
> {
    match mem.spec_read_u16(t.address + 0x68) {
        Err(e) => Err(e),
        Ok(island_id) => match mem.spec_read_u64(t.address + 0x80) {
            Err(e) => Err(e),
            Ok(first) => match mem.spec_read_u64(t.address + 0x88) {
                Err(e) => Err(e),
                Ok(last) => match spec_contracts(mem, strided_addrs(first, last, TRADE_CONTRACT_SIZE)) {
                    Err(e) => Err(e),
                    Ok(cs) => Ok((island_id, cs)),
                },
            },
        },
    }
}

/// Where the list's two addresses can be read, the contracts between them fit
/// exactly (else the walk would not end).
pub open spec fn contracts_fit(mem: &MemoryImage, t: TradeContractsPtr) -> bool {
    (mem.spec_read_u64(t.address + 0x80) is Ok && mem.spec_read_u64(t.address + 0x88) is Ok)
        ==> strided_span(
        mem.spec_read_u64(t.address + 0x80)->Ok_0,
        mem.spec_read_u64(t.address + 0x88)->Ok_0,
        TRADE_CONTRACT_SIZE,
    )
}

/// Reads one contract.
pub fn contract_message(mem: &MemoryImage, c: u64) -> (r: Result<IslandTradeContractMessage, ReadError>)
    ensures
        r == spec_contract(mem, c),
{
    let contract = crate::api::trade_contract::TradeContractPtr { address: c };
    let export_type = contract.get_export_product_type(mem)?;
    let export_amount = contract.get_export_amount(mem)?;
    let import_type = contract.get_import_product_type(mem)?;
    let import_amount = contract.get_import_amount(mem)?;
    Ok(
        IslandTradeContractMessage {
            export_product_type: export_type.0,
            export_amount,
            import_product_type: import_type.0,
            import_amount,
        },
    )
}

/// The report of an island's trade contracts.
pub fn contracts_message(trade_contracts: &TradeContractsPtr, mem: &MemoryImage) -> (r: Result<
    IslandTradeContractsMessage,
    ReadError,
>)
    requires
        trade_contracts.address + 0x80 <= u64::MAX,
        contracts_fit(mem, *trade_contracts),
    ensures
        match spec_contracts_message(mem, *trade_contracts) {
            Ok(m) => r matches Ok(v) && v@ == m,
            Err(e) => r is Err && r->Err_0 == e,
        },
{
    let island_id = trade_contracts.get_island_id(mem)?;
    let contracts_list = trade_contracts.get_contracts_list();
    let mut current = contracts_list.get_first_box(mem)?;
    let end = contracts_list.get_last_box(mem)?;
    let ghost first = current;
    let ghost all = strided_addrs(first, end, TRADE_CONTRACT_SIZE);
    let mut contracts: Vec<IslandTradeContractMessage> = Vec::new();
    let ghost mut i: int = 0;
    proof {
        assert(current - first == 0);
        assert(all.skip(0) =~= all);
        assert(spec_contracts_message(mem, *trade_contracts) == match spec_contracts(mem, all) {
            Ok(cs) => Ok((island_id, cs)),
            Err(e) => Err::<(u16, Seq<IslandTradeContractMessage>), ReadError>(e),
        });
    }
    while current != end
        invariant
            spec_contracts_message(mem, *trade_contracts) == match spec_contracts(mem, all) {
                Ok(cs) => Ok((island_id, cs)),
                Err(e) => Err::<(u16, Seq<IslandTradeContractMessage>), ReadError>(e),
            },
            strided_span(first, end, TRADE_CONTRACT_SIZE),
            all == strided_addrs(first, end, TRADE_CONTRACT_SIZE),
            0 <= i <= all.len(),
            current == first + TRADE_CONTRACT_SIZE * i,
            current <= end,
            spec_contracts(mem, all) == match spec_contracts(mem, all.skip(i)) {
                Ok(rest) => Ok(contracts@ + rest),
                Err(e) => Err::<Seq<IslandTradeContractMessage>, ReadError>(e),
            },
        decreases end - current,
    {
        proof {
            lemma_stride_step(first, end, TRADE_CONTRACT_SIZE, i);
        }
        assert(i < all.len());
        assert(current + TRADE_CONTRACT_SIZE <= end);
        assert(all.skip(i)[0] == current);
        assert(all.skip(i).drop_first() =~= all.skip(i + 1));
        let m = contract_message(mem, current)?;
        let ghost prev = contracts@;
        contracts.push(m);
        proof {
            match spec_contracts(mem, all.skip(i + 1)) {
                Ok(rest) => {
                    assert(prev + (seq![m] + rest) =~= contracts@ + rest);
                },
                Err(e) => {},
            }
            i = i + 1;
        }
        current = current + TRADE_CONTRACT_SIZE;
    }
    proof {
        lemma_stride_end(first, end, TRADE_CONTRACT_SIZE, i);
    }
    assert(i == all.len());
    assert(all.skip(i) =~= Seq::<u64>::empty());
    assert(contracts@ + Seq::<IslandTradeContractMessage>::empty() =~= contracts@);
    Ok(IslandTradeContractsMessage { island_id, contracts })
}

} // verus!
