use vstd::prelude::*;
use crate::error::CodecError;
use crate::primitives::{address_bytes, distinct, occurs, unique_addresses, Address, Bytes, B256};
use crate::uint::U256;
use crate::json::{read_u64, u64_of, u64_text, write_u64, Json};
use crate::uint::{decimal_text, lemma_decimal_text};

verus! {

/// The solution that a notification is about: one solution, or several that
/// were merged. On the wire it carries no discriminant: a single number, or
/// a list of numbers.
#[derive(Debug, Clone, PartialEq, Eq)]
pub enum SolutionId {
    Single(u64),
    Merged(Vec<u64>),
}

/// Whether every element of a list is a `u64`.
pub open spec fn all_u64(items: Seq<Json>) -> bool {
    forall|i: int| 0 <= i < items.len() ==> (#[trigger] u64_of(items[i])) is Some
}

impl SolutionId {
    /// Writes the id: a number, or a list of numbers.
    pub fn to_json(&self) -> (r: Json)
        ensures
            match *self {
                SolutionId::Single(n) => r matches Json::Number(t) && t@ == decimal_text(n as nat),
                SolutionId::Merged(ids) => r matches Json::Array(items) && items@.len()
                    == ids@.len() && forall|i: int|
                    0 <= i < ids@.len() ==> (#[trigger] items@[i] matches Json::Number(t)
                        && t@ == decimal_text(ids@[i] as nat)),
            },
    {
        match self {
            SolutionId::Single(n) => write_u64(*n),
            SolutionId::Merged(ids) => {
                let mut items: Vec<Json> = Vec::new();
                let mut i: usize = 0;
                while i < ids.len()
                    invariant
                        i <= ids@.len(),
                        items@.len() == i,
                        forall|k: int|
                            0 <= k < i ==> (#[trigger] items@[k] matches Json::Number(t) && t@
                                == decimal_text(ids@[k] as nat)),
                    decreases ids@.len() - i,
                {
                    items.push(write_u64(ids[i]));
                    i = i + 1;
                }
                Json::Array(items)
            },
        }
    }

    /// Reads an id by its shape alone: a `u64` is a single id, a list of
    /// `u64`s is a merged one, and anything else is refused.
    pub fn from_json(j: &Json) -> (r: Result<SolutionId, CodecError>)
        ensures
            match *j {
                Json::Number(t) => match u64_text(t@) {
                    Some(n) => r == Ok::<SolutionId, CodecError>(SolutionId::Single(n)),
                    None => r == Err::<SolutionId, CodecError>(CodecError::StructuralMismatch),
                },
                Json::Array(items) => if all_u64(items@) {
                    r matches Ok(SolutionId::Merged(ids)) && ids@.len() == items@.len() && forall|
                        i: int,
                    |
                        0 <= i < items@.len() ==> Some(ids@[i]) == #[trigger] u64_of(items@[i])
                } else {
                    r == Err::<SolutionId, CodecError>(CodecError::StructuralMismatch)
                },
                _ => r == Err::<SolutionId, CodecError>(CodecError::StructuralMismatch),
            },
    {
        match j {
            Json::Number(_) => match read_u64(j) {
                Some(n) => Ok(SolutionId::Single(n)),
                None => Err(CodecError::StructuralMismatch),
            },
            Json::Array(items) => {
                let mut ids: Vec<u64> = Vec::new();
                let mut i: usize = 0;
                while i < items.len()
                    invariant
                        *j matches Json::Array(its) && its@ == items@,
                        i <= items@.len(),
                        ids@.len() == i,
                        forall|k: int| 0 <= k < i ==> Some(ids@[k]) == #[trigger] u64_of(items@[k]),
                    decreases items@.len() - i,
                {
                    match read_u64(&items[i]) {
                        Some(n) => ids.push(n),
                        None => {
                            assert(u64_of(items@[i as int]) is None);
                            assert(!all_u64(items@));
                            return Err(CodecError::StructuralMismatch);
                        },
                    }
                    i = i + 1;
                }
                Ok(SolutionId::Merged(ids))
            },
            _ => Err(CodecError::StructuralMismatch),
        }
    }
}

/// The decimal text of a `u64` is read back as that `u64`: the number that
/// an id writes is read as the same id.
pub proof fn lemma_solution_id_round_trip(n: u64)
    ensures
        u64_text(decimal_text(n as nat)) == Some(n),
{
    lemma_decimal_text(n as nat);
}

/// An event that the driver reports about a solution.
#[derive(Debug, Clone)]
pub struct Notification {
    pub auction_id: Option<i64>,
    pub solution_id: Option<SolutionId>,
    /// On the wire its members stand beside the others.
    pub kind: Kind,
}

/// What happened to a solution.
#[derive(Debug, Clone)]
pub enum Kind {
    Timeout,
    EmptySolution,
    DuplicatedSolutionId,
    SimulationFailed { block: u64, tx: Tx, succeeded_once: bool },
    InvalidClearingPrices,
    MissingPrice { token_address: Address },
    InvalidExecutedAmount,
    /// The tokens form a set: each address stands at most once.
    NonBufferableTokensUsed { tokens: Vec<Address> },
    SolverAccountInsufficientBalance { required: U256 },
    Success { transaction: B256 },
    Revert { transaction: B256 },
    DriverError { reason: String },
    Cancelled,
    Fail,
    PostprocessingTimedOut,
}

impl Kind {
    pub open spec fn name(&self) -> Seq<char> {
        match self {
            Kind::Timeout => "timeout"@,
            Kind::EmptySolution => "emptySolution"@,
            Kind::DuplicatedSolutionId => "duplicatedSolutionId"@,
            Kind::SimulationFailed { .. } => "simulationFailed"@,
            Kind::InvalidClearingPrices => "invalidClearingPrices"@,
            Kind::MissingPrice { .. } => "missingPrice"@,
            Kind::InvalidExecutedAmount => "invalidExecutedAmount"@,
            Kind::NonBufferableTokensUsed { .. } => "nonBufferableTokensUsed"@,
            Kind::SolverAccountInsufficientBalance { .. } => "solverAccountInsufficientBalance"@,
            Kind::Success { .. } => "success"@,
            Kind::Revert { .. } => "revert"@,
            Kind::DriverError { .. } => "driverError"@,
            Kind::Cancelled => "cancelled"@,
            Kind::Fail => "fail"@,
            Kind::PostprocessingTimedOut => "postprocessingTimedOut"@,
        }
    }

    /// The event that names the tokens that could not be bought from the
    /// buffers: each address once, whatever the repetitions in `tokens`.
    pub fn non_bufferable_tokens_used(tokens: &Vec<Address>) -> (r: Kind)
        ensures
            r matches Kind::NonBufferableTokensUsed { tokens: t } && distinct(address_bytes(t@))
                && (forall|i: int|
                0 <= i < tokens@.len() ==> occurs(address_bytes(t@), #[trigger] tokens@[i].bytes()))
                && (forall|j: int|
                0 <= j < t@.len() ==> occurs(address_bytes(tokens@), #[trigger] t@[j].bytes())),
    {
        Kind::NonBufferableTokensUsed { tokens: unique_addresses(tokens) }
    }

    /// The discriminant that this event carries on the wire.
    pub fn wire_name(&self) -> (r: &'static str)
        ensures
            r@ == self.name(),
    {
        match self {
            Kind::Timeout => "timeout",
            Kind::EmptySolution => "emptySolution",
            Kind::DuplicatedSolutionId => "duplicatedSolutionId",
            Kind::SimulationFailed { .. } => "simulationFailed",
            Kind::InvalidClearingPrices => "invalidClearingPrices",
            Kind::MissingPrice { .. } => "missingPrice",
            Kind::InvalidExecutedAmount => "invalidExecutedAmount",
            Kind::NonBufferableTokensUsed { .. } => "nonBufferableTokensUsed",
            Kind::SolverAccountInsufficientBalance { .. } => "solverAccountInsufficientBalance",
            Kind::Success { .. } => "success",
            Kind::Revert { .. } => "revert",
            Kind::DriverError { .. } => "driverError",
            Kind::Cancelled => "cancelled",
            Kind::Fail => "fail",
            Kind::PostprocessingTimedOut => "postprocessingTimedOut",
        }
    }
}

/// A transaction that was simulated.
#[derive(Debug, Clone)]
pub struct Tx {
    pub from: Address,
    pub to: Address,
    pub input: Bytes,
    pub value: U256,
    pub access_list: AccessList,
}

/// The storage slots that a transaction declares it will touch.
#[derive(Debug, Clone, Default)]
pub struct AccessList(pub Vec<AccessListItem>);

/// The storage slots of one account that a transaction declares.
#[derive(Debug, Clone)]
pub struct AccessListItem {
    pub address: Address,
    pub storage_keys: Vec<B256>,
}

} // verus!
