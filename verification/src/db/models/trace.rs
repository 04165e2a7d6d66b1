//! The internal-trace record.

use crate::utils::u256::U256;
use crate::utils::format::text_of;
use vstd::prelude::*;

verus! {

/// What a trace entry did.
#[derive(Clone, Copy, Debug, PartialEq, Eq, Structural)]
pub enum TraceType {
    Call,
    CallCode,
    DelegateCall,
    StaticCall,
    Create,
    Suicide,
    Reward,
}

impl TraceType {
    /// The name under which the store keeps the kind.
    pub open spec fn name(self) -> Seq<char> {
        match self {
            TraceType::Call => "call"@,
            TraceType::CallCode => "callcode"@,
            TraceType::DelegateCall => "delegatecall"@,
            TraceType::StaticCall => "staticcall"@,
            TraceType::Create => "create"@,
            TraceType::Suicide => "suicide"@,
            TraceType::Reward => "reward"@,
        }
    }

    pub fn as_str(&self) -> (name: &'static str)
        ensures
            name@ == self.name(),
    {
        match self {
            TraceType::Call => "call",
            TraceType::CallCode => "callcode",
            TraceType::DelegateCall => "delegatecall",
            TraceType::StaticCall => "staticcall",
            TraceType::Create => "create",
            TraceType::Suicide => "suicide",
            TraceType::Reward => "reward",
        }
    }
}

/// One entry of a transaction's internal trace. Keyed by `(chain,
/// transaction_hash, trace_address)`.
#[derive(Clone, Debug)]
pub struct DatabaseTrace {
    pub chain: u32,
    pub transaction_hash: String,
    /// The path of the entry in the call tree.
    pub trace_address: Vec<u32>,
    pub call_type: TraceType,
    pub from: String,
    pub to: String,
    pub value: U256,
    pub input: String,
    pub output: String,
    pub gas: u64,
    pub gas_used: u64,
    pub error: Option<String>,
    pub block_number: u32,
}

impl DatabaseTrace {
    /// The two records hold the same values, column by column.
    pub open spec fn same(&self, other: &DatabaseTrace) -> bool {
        &&& self.chain == other.chain
        &&& self.transaction_hash@ == other.transaction_hash@
        &&& self.trace_address@ == other.trace_address@
        &&& self.call_type == other.call_type
        &&& self.from@ == other.from@
        &&& self.to@ == other.to@
        &&& self.value == other.value
        &&& self.input@ == other.input@
        &&& self.output@ == other.output@
        &&& self.gas == other.gas
        &&& self.gas_used == other.gas_used
        &&& text_of(self.error) == text_of(other.error)
        &&& self.block_number == other.block_number
    }
}

} // verus!
