use vstd::prelude::*;

verus! {

/// Default payout of a contract, in cents.
pub const DEFAULT_CONTRACT_PAYOUT: u32 = 2000;

/// Identifies a contract; supplies and phones of one contract share it.
#[derive(Debug, Clone, Copy, PartialEq, Eq, Structural)]
pub struct ContractId(pub u32);

/// Kinds of contracts.
#[derive(Debug, Clone, Copy, PartialEq, Eq, Structural)]
pub enum ContractType {
    SecureSupplies,
    SecureIntel,
    EliminateHVT,
    DestroySupplies,
    RescueHostage,
    RaidWeaponStash,
    CargoDelivery,
    CargoShipment,
    SecureNuclearMaterials,
    SignalIntelligence,
    HuntSquad,
}

/// Payout of a contract, in cents.
#[derive(Debug, Clone, Copy, PartialEq, Eq, Structural)]
pub struct ContractPayout(pub u32);

/// Progress of a secure-supplies contract.
#[derive(Debug, Clone, Copy, PartialEq, Eq, Structural)]
pub enum SecureSuppliesState {
    Started,
    FirstSupplySecured,
    SecondSupplySecured,
    ThirdSupplySecured,
}

/// Progress of a contract.
#[derive(Debug, Clone, Copy, PartialEq, Eq, Structural)]
pub enum ContractState {
    Started,
    SecureSupplies(SecureSuppliesState),
    Cancelled,
    Finished,
}

/// A contract an operator took at a contract phone.
#[derive(Debug, Clone, Copy, PartialEq, Eq, Structural)]
pub struct Contract {
    pub contract_type: ContractType,
    pub contract_state: ContractState,
    pub contract_payout: u32,
}

/// The contract state after one more supply is secured.
pub open spec fn secure_supplies_successor(s: SecureSuppliesState) -> ContractState {
    match s {
        SecureSuppliesState::Started => ContractState::SecureSupplies(
            SecureSuppliesState::FirstSupplySecured,
        ),
        SecureSuppliesState::FirstSupplySecured => ContractState::SecureSupplies(
            SecureSuppliesState::SecondSupplySecured,
        ),
        SecureSuppliesState::SecondSupplySecured => ContractState::SecureSupplies(
            SecureSuppliesState::ThirdSupplySecured,
        ),
        SecureSuppliesState::ThirdSupplySecured => ContractState::Finished,
    }
}

impl ContractPayout {
    /// The default payout.
    pub fn new() -> (p: ContractPayout)
        ensures
            p.0 == DEFAULT_CONTRACT_PAYOUT,
    {
        ContractPayout(DEFAULT_CONTRACT_PAYOUT)
    }
}

impl Default for ContractPayout {
    fn default() -> (p: ContractPayout)
        ensures
            p == ContractPayout(DEFAULT_CONTRACT_PAYOUT),
    {
        ContractPayout::new()
    }
}

impl SecureSuppliesState {
    /// The contract state after one more supply is secured: three supplies
    /// finish the contract.
    pub fn next(&self) -> (r: ContractState)
        ensures
            r == secure_supplies_successor(*self),
    {
        match self {
            SecureSuppliesState::Started => ContractState::SecureSupplies(
                SecureSuppliesState::FirstSupplySecured,
            ),
            SecureSuppliesState::FirstSupplySecured => ContractState::SecureSupplies(
                SecureSuppliesState::SecondSupplySecured,
            ),
            SecureSuppliesState::SecondSupplySecured => ContractState::SecureSupplies(
                SecureSuppliesState::ThirdSupplySecured,
            ),
            SecureSuppliesState::ThirdSupplySecured => ContractState::Finished,
        }
    }
}

/// Whether contracts of a type have a state machine: only secure-supplies
/// contracts do so far.
pub fn has_state_machine(contract_type: ContractType) -> (r: bool)
    ensures
        r == (contract_type == ContractType::SecureSupplies),
{
    match contract_type {
        ContractType::SecureSupplies => true,
        _ => false,
    }
}

/// The state a contract of a given type starts in. Only secure-supplies
/// contracts have a state machine so far.
pub fn initial_state(contract_type: ContractType) -> (s: ContractState)
    requires
        contract_type == ContractType::SecureSupplies,
    ensures
        s == ContractState::SecureSupplies(SecureSuppliesState::Started),
{
    ContractState::SecureSupplies(SecureSuppliesState::Started)
}

impl Contract {
    /// The contract taken at a phone offering `contract_type`, paying the
    /// phone's payout or the default payout when the phone names none.
    pub fn new(contract_type: ContractType, payout: Option<ContractPayout>) -> (c: Contract)
        requires
            contract_type == ContractType::SecureSupplies,
        ensures
            c.contract_type == contract_type,
            c.contract_state == ContractState::SecureSupplies(SecureSuppliesState::Started),
            c.contract_payout == match payout {
                Some(p) => p.0,
                None => DEFAULT_CONTRACT_PAYOUT,
            },
    {
        let contract_payout = match payout {
            Some(p) => p.0,
            None => ContractPayout::new().0,
        };
        Contract { contract_type, contract_state: initial_state(contract_type), contract_payout }
    }
}

/// Index of the first supply that belongs to contract `id`: the one that is
/// put in the spotlight when a secure-supplies contract starts.
pub fn first_supply_of(supplies: &[ContractId], id: ContractId) -> (r: Option<usize>)
    ensures
        match r {
            Some(i) => i < supplies@.len() && supplies@[i as int] == id && forall|j: int|
                0 <= j < i ==> supplies@[j] != id,
            None => forall|j: int| 0 <= j < supplies@.len() ==> supplies@[j] != id,
        },
{
    let mut i: usize = 0;
    while i < supplies.len()
        invariant
            i <= supplies.len(),
            forall|j: int| 0 <= j < i ==> supplies@[j] != id,
        decreases supplies.len() - i,
    {
        if supplies[i].0 == id.0 {
            return Some(i);
        }
        i = i + 1;
    }
    None
}

/// Law: a secure-supplies contract is finished after its third supply is
/// secured, and not before.
pub proof fn lemma_secure_supplies_finishes()
    ensures
        ({
            let s1 = secure_supplies_successor(SecureSuppliesState::Started);
            let s2 = secure_supplies_successor(SecureSuppliesState::FirstSupplySecured);
            let s3 = secure_supplies_successor(SecureSuppliesState::SecondSupplySecured);
            let s4 = secure_supplies_successor(SecureSuppliesState::ThirdSupplySecured);
            &&& s1 == ContractState::SecureSupplies(SecureSuppliesState::FirstSupplySecured)
            &&& s2 == ContractState::SecureSupplies(SecureSuppliesState::SecondSupplySecured)
            &&& s3 == ContractState::SecureSupplies(SecureSuppliesState::ThirdSupplySecured)
            &&& s4 == ContractState::Finished
        }),
{
}

} // verus!
