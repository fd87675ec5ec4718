use vstd::prelude::*;

use crate::contracts::ContractId;
use crate::squad::SquadId;

verus! {

/// Tally of an operator's raid.
#[derive(Debug, Clone, Copy, PartialEq, Eq, Structural)]
pub struct RaidSummary {
    /// contracts done
    pub contract_counter: u32,
    /// loot containers opened
    pub loot_container_counter: u32,
}

/// A squad and the contract it works on.
#[derive(Debug, Clone, Copy, PartialEq, Eq, Structural)]
pub struct SquadContract {
    pub squad: SquadId,
    pub current_contract: Option<ContractId>,
}

/// Whether squad entry `s` belongs to squad `squad` and works on `contract`.
pub open spec fn credits(s: SquadContract, squad: SquadId, contract: ContractId) -> bool {
    s.squad == squad && s.current_contract == Some(contract)
}

/// Number of squad entries of `squads` that credit an operator of `squad`
/// for finishing `contract`.
pub open spec fn credit_count(squads: Seq<SquadContract>, squad: SquadId, contract: ContractId) -> nat
    decreases squads.len(),
{
    if squads.len() == 0 {
        0
    } else {
        credit_count(squads.drop_last(), squad, contract) + if credits(squads.last(), squad, contract) {
            1nat
        } else {
            0nat
        }
    }
}

impl RaidSummary {
    /// An empty summary.
    pub fn new() -> (s: RaidSummary)
        ensures
            s.contract_counter == 0,
            s.loot_container_counter == 0,
    {
        RaidSummary { contract_counter: 0, loot_container_counter: 0 }
    }
}

impl Default for RaidSummary {
    fn default() -> (s: RaidSummary)
        ensures
            s == (RaidSummary { contract_counter: 0, loot_container_counter: 0 }),
    {
        RaidSummary::new()
    }
}

/// How many contracts to credit to an operator of squad `operator_squad` when
/// contract `finished` is finished: nothing when the contract is unknown,
/// otherwise one for every squad entry of that squad working on it.
pub fn contract_credits(
    contract_known: bool,
    finished: ContractId,
    squads: &[SquadContract],
    operator_squad: SquadId,
) -> (n: u32)
    requires
        squads@.len() <= u32::MAX,
    ensures
        n == if contract_known { credit_count(squads@, operator_squad, finished) } else { 0 },
{
    if !contract_known {
        return 0;
    }
    let mut n: u32 = 0;
    let mut i: usize = 0;
    while i < squads.len()
        invariant
            i <= squads.len(),
            squads@.len() <= u32::MAX,
            n == credit_count(squads@.take(i as int), operator_squad, finished),
            n <= i,
        decreases squads.len() - i,
    {
        assert(squads@.take(i + 1).drop_last() == squads@.take(i as int));
        let s = squads[i];
        let matches = s.squad.0 == operator_squad.0 && match s.current_contract {
            Some(c) => c.0 == finished.0,
            None => false,
        };
        if matches {
            n = n + 1;
        }
        i = i + 1;
    }
    assert(squads@.take(squads@.len() as int) == squads@);
    n
}

impl RaidSummary {
    /// Whether `n` more contracts can be credited without overflow.
    pub fn can_add_contracts(&self, n: u32) -> (r: bool)
        ensures
            r == (self.contract_counter + n <= u32::MAX),
    {
        self.contract_counter as u64 + n as u64 <= u32::MAX as u64
    }

    /// Credits `n` finished contracts to the summary.
    pub fn add_contracts(&mut self, n: u32)
        requires
            old(self).contract_counter + n <= u32::MAX,
        ensures
            final(self).contract_counter == old(self).contract_counter + n,
            final(self).loot_container_counter == old(self).loot_container_counter,
    {
        self.contract_counter = self.contract_counter + n;
    }
}

} // verus!
