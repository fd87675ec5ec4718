use dmz::backpack_summary::BackpackSummary;
use dmz::loot::{Price, Stackable};
use dmz::wallet::{MoneyStowed, Wallet};

#[test]
fn should_drop_money() {
    let mut wallet = Wallet { money: 250_000, ..Wallet::default() };
    let dropped = wallet.drop_money(100);
    assert_eq!(249_900, wallet.money);
    assert_eq!(100, dropped);
}

#[test]
fn should_stow_money() {
    let mut wallet = Wallet { money: 0, ..Wallet::default() };
    let r = wallet.stow_money(100);
    assert_eq!(100, wallet.money, "amount in wallet should be 100");
    assert_eq!(r, MoneyStowed::All { amount: 100 });
}

#[test]
fn should_stow_money_and_respect_limit() {
    let mut wallet = Wallet { money: 0, limit: 100 };
    let r = wallet.stow_money(200);
    assert_eq!(100, wallet.money, "amount in wallet should be 100");
    assert_eq!(r, MoneyStowed::Partial { stowed: 100, remainder: 100 });
}

#[test]
fn should_receive_money_bellow_limit() {
    let mut wallet = Wallet { money: 0, limit: 100 };
    let received = wallet.receive_money(99);
    assert_eq!(99, wallet.money, "amount in wallet should be 99");
    assert_eq!(99, received);
}

#[test]
fn should_receive_money_above_limit() {
    let mut wallet = Wallet { money: 10, limit: 100 };
    let received = wallet.receive_money(90);
    assert_eq!(100, wallet.money, "amount in wallet should be 100");
    assert_eq!(90, received);
}

#[test]
fn default_wallet_is_empty_with_limit() {
    assert_eq!(Wallet::default(), Wallet { money: 0, limit: 250_000 });
}

#[test]
fn drop_then_stow_restores_wallet() {
    let mut wallet = Wallet { money: 500, limit: 1000 };
    let dropped = wallet.drop_money(200);
    let r = wallet.stow_money(dropped);
    assert_eq!(wallet.money, 500);
    assert_eq!(r, MoneyStowed::All { amount: 200 });
}

#[test]
fn should_update_on_money_stow() {
    let mut summary = BackpackSummary::default();
    summary.on_stowed_money(100);
    assert_eq!(100, summary.0);
}

#[test]
fn should_update_on_solo_item_priced_loot() {
    let mut summary = BackpackSummary::default();
    summary.on_stowed_loot(Price(100), None);
    assert_eq!(100, summary.0);
}

#[test]
fn should_update_on_stacked_item_priced_loot() {
    let mut summary = BackpackSummary::default();
    summary.on_stowed_loot(Price(100), Some(Stackable { max_stack: 2, current_stack: 2 }));
    assert_eq!(200, summary.0);
}
