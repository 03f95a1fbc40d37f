use vstd::prelude::*;

use crate::error::ContractError;
use crate::msg::ReceiveMsg;
use crate::plan::{
    plan_rebalance, rebalance_result, split_amount, spread, spread_to, total_deposits, total_of,
    Direction, MoveInstruction, VaultBalance,
};
use crate::state::Config;

verus! {

/// The audit label that a plan carries.
#[derive(Debug, Clone, Copy, PartialEq, Eq, Structural)]
pub enum Action {
    Deposit,
    Withdraw,
    AutoDeposit,
    AutoBalance,
}

pub open spec fn action_label(a: Action) -> Seq<char> {
    match a {
        Action::Deposit => "deposit"@,
        Action::Withdraw => "withdraw"@,
        Action::AutoDeposit => "auto_deposit"@,
        Action::AutoBalance => "auto_balance"@,
    }
}

impl Action {
    /// The label as it is reported.
    pub fn label(&self) -> (r: &'static str)
        ensures
            r@ == action_label(*self),
    {
        match self {
            Action::Deposit => "deposit",
            Action::Withdraw => "withdraw",
            Action::AutoDeposit => "auto_deposit",
            Action::AutoBalance => "auto_balance",
        }
    }
}

/// What a command hands back: the ordered instructions, a label and the
/// amount involved.
#[derive(Debug, Clone, PartialEq, Eq)]
pub struct Plan {
    pub action: Action,
    pub amount: u128,
    pub messages: Vec<MoveInstruction>,
}

/// An inbound command together with what the host fetched for it: the
/// decoded embedded command (`None` where it did not decode), or the
/// balances that the vaults reported, in configuration order.
#[derive(Debug, Clone, PartialEq, Eq)]
pub enum Command {
    Receive { sender: String, amount: u128, msg: Option<ReceiveMsg> },
    AutoBalance { balances: Vec<VaultBalance> },
    Deposit { amount: u128 },
    Withdraw { amount: u128 },
}

/// `amount` split evenly over `vaults`: one instruction of
/// `floor(amount / n)` each, or `DivideByZero` for no vaults.
pub open spec fn split_outcome(
    r: Result<Plan, ContractError>,
    vaults: Seq<String>,
    direction: Direction,
    action: Action,
    amount: u128,
) -> bool {
    match r {
        Ok(p) => {
            &&& vaults.len() > 0
            &&& p.action == action
            &&& p.amount == amount
            &&& p.messages@ == spread(vaults, direction, (amount as nat / vaults.len()) as u128)
        },
        Err(e) => vaults.len() == 0 && e == ContractError::DivideByZero,
    }
}

/// A rebalance of `balances` with `tolerance`, labelled with the total.
pub open spec fn balance_outcome(r: Result<Plan, ContractError>, balances: Seq<VaultBalance>, tolerance: u128) -> bool {
    match r {
        Ok(p) => {
            &&& rebalance_result(balances, tolerance) == Ok::<Seq<MoveInstruction>, ContractError>(p.messages@)
            &&& p.action == Action::AutoBalance
            &&& p.amount == total_of(balances)
        },
        Err(e) => rebalance_result(balances, tolerance) == Err::<Seq<MoveInstruction>, ContractError>(e),
    }
}

/// A value transfer: refused unless it comes from the token, then refused
/// if its embedded command did not decode, else split as a deposit.
pub open spec fn receive_outcome(
    r: Result<Plan, ContractError>,
    config: Config,
    sender: String,
    amount: u128,
    msg: Option<ReceiveMsg>,
) -> bool {
    if sender@ != config.ghost_token@ {
        r == Err::<Plan, ContractError>(ContractError::Unauthorized)
    } else if msg is None {
        r == Err::<Plan, ContractError>(ContractError::MalformedEmbeddedCommand)
    } else {
        split_outcome(r, config.ghost_vaults@, Direction::Deposit, Action::AutoDeposit, amount)
    }
}

/// The same `amount` deposited into every vault.
pub open spec fn deposit_outcome(p: Plan, vaults: Seq<String>, amount: u128) -> bool {
    &&& p.action == Action::Deposit
    &&& p.amount == amount
    &&& p.messages@ == spread(vaults, Direction::Deposit, amount)
}

fn split_plan(vaults: &Vec<String>, direction: Direction, action: Action, amount: u128) -> (r: Result<Plan, ContractError>)
    ensures
        split_outcome(r, vaults@, direction, action, amount),
{
    let share = match split_amount(amount, vaults.len()) {
        Ok(s) => s,
        Err(e) => {
            return Err(e);
        },
    };
    Ok(Plan { action, amount, messages: spread_to(vaults, direction, share) })
}

/// SplitDeposit: `floor(amount / n)` deposited into each vault, in order;
/// the remainder `amount % n` is left unassigned.
pub fn auto_deposit(config: &Config, amount: u128) -> (r: Result<Plan, ContractError>)
    ensures
        split_outcome(r, config.ghost_vaults@, Direction::Deposit, Action::AutoDeposit, amount),
{
    split_plan(&config.ghost_vaults, Direction::Deposit, Action::AutoDeposit, amount)
}

/// DirectWithdraw: `floor(amount / n)` withdrawn from each vault, in order;
/// the remainder is dropped.
pub fn execute_withdraw(config: &Config, amount: u128) -> (r: Result<Plan, ContractError>)
    ensures
        split_outcome(r, config.ghost_vaults@, Direction::Withdraw, Action::Withdraw, amount),
{
    split_plan(&config.ghost_vaults, Direction::Withdraw, Action::Withdraw, amount)
}

/// DirectDeposit: the accompanying `amount` forwarded to every vault.
pub fn execute_deposit(config: &Config, amount: u128) -> (p: Plan)
    ensures
        deposit_outcome(p, config.ghost_vaults@, amount),
{
    Plan { action: Action::Deposit, amount, messages: spread_to(&config.ghost_vaults, Direction::Deposit, amount) }
}

/// Rebalance: the planner run on the reported balances with the configured
/// tolerance.
pub fn auto_balance(config: &Config, balances: &Vec<VaultBalance>) -> (r: Result<Plan, ContractError>)
    ensures
        balance_outcome(r, balances@, config.threshold),
{
    let total = match total_deposits(balances) {
        Ok(t) => t,
        Err(e) => {
            return Err(e);
        },
    };
    match plan_rebalance(balances, config.threshold) {
        Ok(messages) => Ok(Plan { action: Action::AutoBalance, amount: total, messages }),
        Err(e) => Err(e),
    }
}

/// ReceiveValueTransfer: accepted only from the configured token; an
/// embedded deposit is split as `auto_deposit` splits it.
pub fn receive_cw20(config: &Config, sender: &String, amount: u128, msg: Option<ReceiveMsg>) -> (r: Result<
    Plan,
    ContractError,
>)
    ensures
        receive_outcome(r, *config, *sender, amount, msg),
{
    if *sender != config.ghost_token {
        return Err(ContractError::Unauthorized);
    }
    match msg {
        Some(ReceiveMsg::Deposit) => auto_deposit(config, amount),
        None => Err(ContractError::MalformedEmbeddedCommand),
    }
}

/// Dispatches a command to its handler.
pub fn execute(config: &Config, cmd: Command) -> (r: Result<Plan, ContractError>)
    ensures
        match cmd {
            Command::Receive { sender, amount, msg } => receive_outcome(r, *config, sender, amount, msg),
            Command::AutoBalance { balances } => balance_outcome(r, balances@, config.threshold),
            Command::Deposit { amount } => r matches Ok(p) && deposit_outcome(p, config.ghost_vaults@, amount),
            Command::Withdraw { amount } => split_outcome(
                r,
                config.ghost_vaults@,
                Direction::Withdraw,
                Action::Withdraw,
                amount,
            ),
        },
{
    match cmd {
        Command::Receive { sender, amount, msg } => receive_cw20(config, &sender, amount, msg),
        Command::AutoBalance { balances } => auto_balance(config, &balances),
        Command::Deposit { amount } => Ok(execute_deposit(config, amount)),
        Command::Withdraw { amount } => execute_withdraw(config, amount),
    }
}

} // verus!
