use dmz::contracts::{
    first_supply_of, initial_state, Contract, ContractId, ContractPayout, ContractState,
    ContractType, SecureSuppliesState,
};
use dmz::raid_summary::{contract_credits, RaidSummary, SquadContract};
use dmz::squad::{Squad, SquadId};

#[test]
fn secure_supplies_progress() {
    let s = initial_state(ContractType::SecureSupplies);
    assert_eq!(s, ContractState::SecureSupplies(SecureSuppliesState::Started));
    assert_eq!(
        SecureSuppliesState::Started.next(),
        ContractState::SecureSupplies(SecureSuppliesState::FirstSupplySecured)
    );
    assert_eq!(SecureSuppliesState::ThirdSupplySecured.next(), ContractState::Finished);
}

#[test]
fn contract_takes_phone_payout_or_default() {
    let c = Contract::new(ContractType::SecureSupplies, None);
    assert_eq!(c.contract_payout, 2000);
    let c = Contract::new(ContractType::SecureSupplies, Some(ContractPayout(5000)));
    assert_eq!(c.contract_payout, 5000);
    assert_eq!(ContractPayout::default(), ContractPayout(2000));
}

#[test]
fn first_supply_is_spotlighted() {
    let supplies = [ContractId(1), ContractId(2), ContractId(2)];
    assert_eq!(first_supply_of(&supplies, ContractId(2)), Some(1));
    assert_eq!(first_supply_of(&supplies, ContractId(3)), None);
}

#[test]
fn squad_sticks_to_its_contract() {
    let mut squad = Squad::default();
    assert_eq!(squad.offer_contract(ContractId(1)), Some(ContractId(1)));
    assert_eq!(squad.offer_contract(ContractId(1)), Some(ContractId(1)));
    assert_eq!(squad.offer_contract(ContractId(2)), None);
    assert_eq!(squad.current_contract, Some(ContractId(1)));
    assert_eq!(squad.max_size, 4);
}

#[test]
fn finished_contract_credited_to_squad_members() {
    let squads = [
        SquadContract { squad: SquadId(1), current_contract: Some(ContractId(7)) },
        SquadContract { squad: SquadId(2), current_contract: None },
    ];
    assert_eq!(contract_credits(true, ContractId(7), &squads, SquadId(1)), 1);
    assert_eq!(contract_credits(true, ContractId(7), &squads, SquadId(2)), 0);
    assert_eq!(contract_credits(false, ContractId(7), &squads, SquadId(1)), 0);
    let mut summary = RaidSummary::default();
    summary.add_contracts(1);
    assert_eq!(summary.contract_counter, 1);
    assert_eq!(summary.loot_container_counter, 0);
}
