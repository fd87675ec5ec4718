use vstd::prelude::*;

use crate::contracts::ContractId;

verus! {

/// Default number of operators in a squad.
pub const DEFAULT_SQUAD_SIZE: u32 = 4;

/// Groups operators, items, vehicles and contracts together.
#[derive(Debug, Clone, Copy, PartialEq, Eq, Structural)]
pub struct SquadId(pub u32);

/// A squad: its size limit and the contract it works on.
#[derive(Debug, Clone, Copy, PartialEq, Eq, Structural)]
pub struct Squad {
    pub max_size: u32,
    pub current_contract: Option<ContractId>,
}

/// A squad and the answer after it was offered contract `offered`: a squad
/// without a contract takes it; a squad with a contract keeps it and accepts
/// the offer only when it is that same contract.
pub open spec fn squad_after_offer(s: Squad, offered: ContractId) -> (Squad, Option<ContractId>) {
    match s.current_contract {
        None => (Squad { current_contract: Some(offered), ..s }, Some(offered)),
        Some(c) => (s, if c.0 == offered.0 { Some(c) } else { None }),
    }
}

impl Squad {
    /// A squad of the default size without a contract.
    pub fn new() -> (s: Squad)
        ensures
            s.max_size == DEFAULT_SQUAD_SIZE,
            s.current_contract.is_none(),
    {
        Squad { max_size: DEFAULT_SQUAD_SIZE, current_contract: None }
    }

    /// Offers contract `offered` to the squad (an operator of the squad
    /// interacted with its phone); returns the accepted contract, if any.
    pub fn offer_contract(&mut self, offered: ContractId) -> (accepted: Option<ContractId>)
        ensures
            (*final(self), accepted) == squad_after_offer(*old(self), offered),
    {
        match self.current_contract {
            None => {
                self.current_contract = Some(offered);
                Some(offered)
            },
            Some(c) => {
                if c.0 == offered.0 {
                    Some(c)
                } else {
                    None
                }
            },
        }
    }
}

impl Default for Squad {
    fn default() -> (s: Squad)
        ensures
            s == (Squad { max_size: DEFAULT_SQUAD_SIZE, current_contract: None }),
    {
        Squad::new()
    }
}

/// Law: a squad works on one contract at a time. After accepting a contract
/// it accepts the same contract again without change, and refuses any other
/// contract without change.
pub proof fn lemma_one_contract_at_a_time(s: Squad, first: ContractId, other: ContractId)
    requires
        s.current_contract.is_none(),
    ensures
        ({
            let (s1, a1) = squad_after_offer(s, first);
            &&& a1 == Some(first)
            &&& squad_after_offer(s1, first) == (s1, Some(first))
            &&& other.0 != first.0 ==> squad_after_offer(s1, other) == (s1, None::<ContractId>)
        }),
{
}

} // verus!
