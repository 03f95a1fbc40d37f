use juta::contract::{
    auto_balance, auto_deposit, execute, execute_deposit, execute_withdraw, receive_cw20, Action,
    Command,
};
use juta::error::ContractError;
use juta::msg::ReceiveMsg;
use juta::plan::{Direction, MoveInstruction, VaultBalance};
use juta::state::Config;

fn config(n: usize, threshold: u128) -> Config {
    Config {
        ghost_token: "token".to_string(),
        ghost_vaults: (0..n).map(|i| format!("vault{}", i)).collect(),
        threshold,
    }
}

fn spread(n: usize, direction: Direction, amount: u128) -> Vec<MoveInstruction> {
    (0..n)
        .map(|i| MoveInstruction { vault: format!("vault{}", i), direction, amount })
        .collect()
}

#[test]
fn split_deposit_drops_remainder() {
    let plan = auto_deposit(&config(3, 0), 100).unwrap();
    assert_eq!(plan.action, Action::AutoDeposit);
    assert_eq!(plan.amount, 100);
    assert_eq!(plan.messages, spread(3, Direction::Deposit, 33));
    let handed_out: u128 = plan.messages.iter().map(|m| m.amount).sum();
    assert!(handed_out <= 100 && 100 - handed_out < 3);
}

#[test]
fn split_deposit_smaller_than_count() {
    let plan = auto_deposit(&config(4, 0), 3).unwrap();
    assert_eq!(plan.messages, spread(4, Direction::Deposit, 0));
}

#[test]
fn split_deposit_without_vaults_fails() {
    assert_eq!(auto_deposit(&config(0, 0), 100), Err(ContractError::DivideByZero));
}

#[test]
fn direct_withdraw_splits() {
    let plan = execute_withdraw(&config(4, 0), 10).unwrap();
    assert_eq!(plan.action, Action::Withdraw);
    assert_eq!(plan.amount, 10);
    assert_eq!(plan.messages, spread(4, Direction::Withdraw, 2));
    assert_eq!(execute_withdraw(&config(0, 0), 10), Err(ContractError::DivideByZero));
}

#[test]
fn direct_deposit_forwards_to_each_vault() {
    let plan = execute_deposit(&config(2, 0), 7);
    assert_eq!(plan.action, Action::Deposit);
    assert_eq!(plan.messages, spread(2, Direction::Deposit, 7));
}

#[test]
fn receive_from_token_splits() {
    let plan = receive_cw20(&config(2, 0), &"token".to_string(), 9, Some(ReceiveMsg::Deposit)).unwrap();
    assert_eq!(plan.action, Action::AutoDeposit);
    assert_eq!(plan.messages, spread(2, Direction::Deposit, 4));
}

#[test]
fn receive_from_other_sender_is_unauthorized() {
    let c = config(2, 0);
    assert_eq!(
        receive_cw20(&c, &"anyone".to_string(), 9, Some(ReceiveMsg::Deposit)),
        Err(ContractError::Unauthorized)
    );
    assert_eq!(receive_cw20(&c, &"anyone".to_string(), 9, None), Err(ContractError::Unauthorized));
}

#[test]
fn receive_malformed_command() {
    assert_eq!(
        receive_cw20(&config(2, 0), &"token".to_string(), 9, None),
        Err(ContractError::MalformedEmbeddedCommand)
    );
}

#[test]
fn auto_balance_uses_threshold() {
    let balances = vec![
        VaultBalance { vault: "vault0".to_string(), amount: 100 },
        VaultBalance { vault: "vault1".to_string(), amount: 0 },
        VaultBalance { vault: "vault2".to_string(), amount: 50 },
    ];
    let plan = auto_balance(&config(3, 0), &balances).unwrap();
    assert_eq!(plan.action, Action::AutoBalance);
    assert_eq!(plan.amount, 150);
    assert_eq!(plan.messages.len(), 2);
    let quiet = auto_balance(&config(3, 50), &balances).unwrap();
    assert!(quiet.messages.is_empty());
}

#[test]
fn execute_dispatches_each_command() {
    let c = config(2, 0);
    let r = execute(&c, Command::Withdraw { amount: 5 }).unwrap();
    assert_eq!(r.messages, spread(2, Direction::Withdraw, 2));
    let r = execute(&c, Command::Deposit { amount: 5 }).unwrap();
    assert_eq!(r.messages, spread(2, Direction::Deposit, 5));
    let r = execute(
        &c,
        Command::Receive { sender: "other".to_string(), amount: 5, msg: Some(ReceiveMsg::Deposit) },
    );
    assert_eq!(r, Err(ContractError::Unauthorized));
    let r = execute(&c, Command::AutoBalance { balances: Vec::new() });
    assert_eq!(r, Err(ContractError::DivideByZero));
}

#[test]
fn action_labels() {
    assert_eq!(Action::Deposit.label(), "deposit");
    assert_eq!(Action::Withdraw.label(), "withdraw");
    assert_eq!(Action::AutoDeposit.label(), "auto_deposit");
    assert_eq!(Action::AutoBalance.label(), "auto_balance");
}
