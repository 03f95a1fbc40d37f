use vstd::prelude::*;

use crate::error::ContractError;

verus! {

/// Which way an instruction moves funds.
#[derive(Debug, Clone, Copy, PartialEq, Eq, Structural)]
pub enum Direction {
    Deposit,
    Withdraw,
}

/// One move command for one vault.
#[derive(Debug, Clone, PartialEq, Eq)]
pub struct MoveInstruction {
    pub vault: String,
    pub direction: Direction,
    pub amount: u128,
}

/// A vault paired with the amount it reported as deposited.
#[derive(Debug, Clone, PartialEq, Eq)]
pub struct VaultBalance {
    pub vault: String,
    pub amount: u128,
}

/// Sum of the reported amounts.
pub open spec fn total_of(s: Seq<VaultBalance>) -> nat
    decreases s.len(),
{
    if s.len() == 0 {
        0
    } else {
        total_of(s.drop_last()) + s.last().amount as nat
    }
}

/// The even share of the total: `floor(total / n)`.
pub open spec fn target_of(s: Seq<VaultBalance>) -> int {
    total_of(s) as int / s.len() as int
}

/// The instruction, if any, that brings one vault back to `target`.
pub open spec fn move_for(b: VaultBalance, target: int, tolerance: int) -> Option<MoveInstruction> {
    if b.amount > target + tolerance {
        Some(MoveInstruction { vault: b.vault, direction: Direction::Withdraw, amount: (b.amount - target) as u128 })
    } else if b.amount + tolerance < target {
        Some(MoveInstruction { vault: b.vault, direction: Direction::Deposit, amount: (target - b.amount) as u128 })
    } else {
        None
    }
}

/// The instructions for every vault out of tolerance, in list order.
pub open spec fn moves_for(s: Seq<VaultBalance>, target: int, tolerance: int) -> Seq<MoveInstruction>
    decreases s.len(),
{
    if s.len() == 0 {
        Seq::empty()
    } else {
        let prefix = moves_for(s.drop_last(), target, tolerance);
        match move_for(s.last(), target, tolerance) {
            Some(m) => prefix.push(m),
            None => prefix,
        }
    }
}

/// What a rebalance of `s` with `tolerance` yields.
pub open spec fn rebalance_result(s: Seq<VaultBalance>, tolerance: u128) -> Result<Seq<MoveInstruction>, ContractError> {
    if s.len() == 0 {
        Err(ContractError::DivideByZero)
    } else if total_of(s) > u128::MAX {
        Err(ContractError::Overflow)
    } else {
        Ok(moves_for(s, target_of(s), tolerance as int))
    }
}

/// `n` instructions of one direction and amount, one per vault, in order.
pub open spec fn spread(vaults: Seq<String>, direction: Direction, amount: u128) -> Seq<MoveInstruction> {
    Seq::new(vaults.len(), |i: int| MoveInstruction { vault: vaults[i], direction, amount })
}

/// The signed change an instruction makes to the vault named `v`.
pub open spec fn effect_on(v: Seq<char>, m: MoveInstruction) -> int {
    if m.vault@ != v {
        0
    } else if m.direction == Direction::Deposit {
        m.amount as int
    } else {
        -(m.amount as int)
    }
}

/// The net change that a list of instructions makes to the vault named `v`.
pub open spec fn net_effect(v: Seq<char>, moves: Seq<MoveInstruction>) -> int
    decreases moves.len(),
{
    if moves.len() == 0 {
        0
    } else {
        net_effect(v, moves.drop_last()) + effect_on(v, moves.last())
    }
}

/// No vault name occurs twice.
pub open spec fn distinct_vaults(s: Seq<VaultBalance>) -> bool {
    forall|i: int, j: int| 0 <= i < j < s.len() ==> s[i].vault@ != s[j].vault@
}

proof fn lemma_prefix_total_bounded(s: Seq<VaultBalance>, i: int)
    requires
        0 <= i <= s.len(),
    ensures
        total_of(s.subrange(0, i)) <= total_of(s),
    decreases s.len(),
{
    if i < s.len() {
        lemma_prefix_total_bounded(s.drop_last(), i);
        assert(s.drop_last().subrange(0, i) =~= s.subrange(0, i));
    } else {
        assert(s.subrange(0, i) =~= s);
    }
}

/// The Balance Aggregator's sum: the total of the reported amounts, or
/// `Overflow` where it does not fit in a `u128`.
pub fn total_deposits(balances: &Vec<VaultBalance>) -> (r: Result<u128, ContractError>)
    ensures
        match r {
            Ok(t) => total_of(balances@) <= u128::MAX && t == total_of(balances@),
            Err(e) => total_of(balances@) > u128::MAX && e == ContractError::Overflow,
        },
{
    let mut sum: u128 = 0;
    let mut i: usize = 0;
    while i < balances.len()
        invariant
            i <= balances.len(),
            sum == total_of(balances@.subrange(0, i as int)),
        decreases balances.len() - i,
    {
        assert(balances@.subrange(0, i as int + 1).drop_last() =~= balances@.subrange(0, i as int));
        match sum.checked_add(balances[i].amount) {
            Some(s) => {
                sum = s;
            },
            None => {
                proof {
                    lemma_prefix_total_bounded(balances@, i as int + 1);
                }
                return Err(ContractError::Overflow);
            },
        }
        i = i + 1;
    }
    assert(balances@.subrange(0, i as int) =~= balances@);
    Ok(sum)
}

/// `floor(amount / vault_count)`, or `DivideByZero` for no vaults.
pub fn split_amount(amount: u128, vault_count: usize) -> (r: Result<u128, ContractError>)
    ensures
        vault_count == 0 ==> r == Err::<u128, ContractError>(ContractError::DivideByZero),
        vault_count > 0 ==> r == Ok::<u128, ContractError>((amount / vault_count as u128) as u128),
{
    if vault_count == 0 {
        Err(ContractError::DivideByZero)
    } else {
        Ok(amount / vault_count as u128)
    }
}

/// One instruction of `direction` and `amount` for each vault, in order.
pub fn spread_to(vaults: &Vec<String>, direction: Direction, amount: u128) -> (r: Vec<MoveInstruction>)
    ensures
        r@ == spread(vaults@, direction, amount),
{
    let mut out: Vec<MoveInstruction> = Vec::new();
    let mut i: usize = 0;
    while i < vaults.len()
        invariant
            i <= vaults.len(),
            out@ =~= spread(vaults@.subrange(0, i as int), direction, amount),
        decreases vaults.len() - i,
    {
        out.push(MoveInstruction { vault: vaults[i].clone(), direction, amount });
        i = i + 1;
    }
    assert(vaults@.subrange(0, i as int) =~= vaults@);
    out
}

/// The Rebalance Planner: with `target = floor(total / n)`, a withdraw of
/// `b - target` from each vault above `target + tolerance`, a deposit of
/// `target - b` into each vault below `target - tolerance`, in list order.
pub fn plan_rebalance(balances: &Vec<VaultBalance>, tolerance: u128) -> (r: Result<Vec<MoveInstruction>, ContractError>)
    ensures
        match r {
            Ok(v) => rebalance_result(balances@, tolerance) == Ok::<Seq<MoveInstruction>, ContractError>(v@),
            Err(e) => rebalance_result(balances@, tolerance) == Err::<Seq<MoveInstruction>, ContractError>(e),
        },
{
    let n = balances.len();
    if n == 0 {
        return Err(ContractError::DivideByZero);
    }
    let total = match total_deposits(balances) {
        Ok(t) => t,
        Err(e) => {
            return Err(e);
        },
    };
    let target: u128 = total / n as u128;
    let mut moves: Vec<MoveInstruction> = Vec::new();
    let mut i: usize = 0;
    while i < n
        invariant
            n == balances.len(),
            i <= n,
            target as int == target_of(balances@),
            moves@ == moves_for(balances@.subrange(0, i as int), target as int, tolerance as int),
        decreases n - i,
    {
        let b = &balances[i];
        proof {
            let s = balances@.subrange(0, i as int + 1);
            assert(s.drop_last() =~= balances@.subrange(0, i as int));
            assert(s.last() == balances@[i as int]);
        }
        if b.amount > target && b.amount - target > tolerance {
            moves.push(MoveInstruction { vault: b.vault.clone(), direction: Direction::Withdraw, amount: b.amount - target });
        } else if b.amount < target && target - b.amount > tolerance {
            moves.push(MoveInstruction { vault: b.vault.clone(), direction: Direction::Deposit, amount: target - b.amount });
        }
        i = i + 1;
    }
    assert(balances@.subrange(0, n as int) =~= balances@);
    Ok(moves)
}

/// The sum of the instructions' amounts.
pub open spec fn sum_amounts(moves: Seq<MoveInstruction>) -> nat
    decreases moves.len(),
{
    if moves.len() == 0 {
        0
    } else {
        sum_amounts(moves.drop_last()) + moves.last().amount as nat
    }
}

proof fn lemma_spread_sum(vaults: Seq<String>, direction: Direction, amount: u128)
    ensures
        sum_amounts(spread(vaults, direction, amount)) == vaults.len() * amount,
    decreases vaults.len(),
{
    if vaults.len() > 0 {
        let init = vaults.drop_last();
        let moves = spread(vaults, direction, amount);
        assert(moves.drop_last() =~= spread(init, direction, amount));
        lemma_spread_sum(init, direction, amount);
        assert(moves.last().amount == amount);
        assert(sum_amounts(moves) == sum_amounts(moves.drop_last()) + amount);
        assert(vaults.len() * amount == init.len() * amount + amount) by (nonlinear_arith)
            requires
                vaults.len() == init.len() + 1,
        ;
    } else {
        assert(spread(vaults, direction, amount).len() == 0);
        assert(vaults.len() * amount == 0);
    }
}

/// Splitting `amount` evenly over `n >= 1` vaults emits `n` instructions of
/// `floor(amount / n)`; together they hand out at most `amount`, and less
/// than `n` is left unassigned.
pub proof fn lemma_split_bounded_loss(vaults: Seq<String>, direction: Direction, amount: u128)
    requires
        vaults.len() >= 1,
    ensures
        ({
            let n = vaults.len();
            let moves = spread(vaults, direction, (amount as nat / n) as u128);
            &&& moves.len() == n
            &&& forall|i: int| 0 <= i < n ==> (#[trigger] moves[i]).amount == amount as nat / n
            &&& sum_amounts(moves) == n * (amount as nat / n)
            &&& sum_amounts(moves) <= amount
            &&& amount - sum_amounts(moves) < n
        }),
{
    let n = vaults.len();
    let q = amount as nat / n;
    let r = amount as nat % n;
    lemma_spread_sum(vaults, direction, (amount as nat / n) as u128);
    vstd::arithmetic::div_mod::lemma_fundamental_div_mod(amount as int, n as int);
    vstd::arithmetic::div_mod::lemma_mod_bound(amount as int, n as int);
    assert(amount == n * q + r);
}

/// The signed change that a vault's own planned instruction makes to it.
pub open spec fn planned_change(b: VaultBalance, target: int, tolerance: int) -> int {
    match move_for(b, target, tolerance) {
        Some(m) => effect_on(b.vault@, m),
        None => 0,
    }
}

proof fn lemma_net_effect_push(v: Seq<char>, moves: Seq<MoveInstruction>, m: MoveInstruction)
    ensures
        net_effect(v, moves.push(m)) == net_effect(v, moves) + effect_on(v, m),
{
    assert(moves.push(m).drop_last() =~= moves);
}

proof fn lemma_absent_vault_untouched(s: Seq<VaultBalance>, target: int, tolerance: int, v: Seq<char>)
    requires
        forall|k: int| 0 <= k < s.len() ==> s[k].vault@ != v,
    ensures
        net_effect(v, moves_for(s, target, tolerance)) == 0,
    decreases s.len(),
{
    if s.len() > 0 {
        let prefix = moves_for(s.drop_last(), target, tolerance);
        lemma_absent_vault_untouched(s.drop_last(), target, tolerance, v);
        if let Some(m) = move_for(s.last(), target, tolerance) {
            lemma_net_effect_push(v, prefix, m);
        }
    }
}

proof fn lemma_each_vault_gets_its_move(s: Seq<VaultBalance>, target: int, tolerance: int, j: int)
    requires
        distinct_vaults(s),
        0 <= j < s.len(),
    ensures
        net_effect(s[j].vault@, moves_for(s, target, tolerance)) == planned_change(s[j], target, tolerance),
    decreases s.len(),
{
    let v = s[j].vault@;
    let init = s.drop_last();
    let prefix = moves_for(init, target, tolerance);
    if j < s.len() - 1 {
        lemma_each_vault_gets_its_move(init, target, tolerance, j);
        assert(init[j] == s[j]);
    } else {
        assert forall|k: int| 0 <= k < init.len() implies init[k].vault@ != v by {
            assert(init[k] == s[k]);
        }
        lemma_absent_vault_untouched(init, target, tolerance, v);
    }
    if let Some(m) = move_for(s.last(), target, tolerance) {
        lemma_net_effect_push(v, prefix, m);
    }
}

/// Applying every instruction of a successful rebalance, each vault ends
/// within `tolerance` of the target: vaults that moved land on the target
/// exactly, the others were already within tolerance.
pub proof fn lemma_rebalance_converges(s: Seq<VaultBalance>, tolerance: u128)
    requires
        distinct_vaults(s),
        rebalance_result(s, tolerance) is Ok,
    ensures
        forall|i: int|
            0 <= i < s.len() ==> {
                let after = (#[trigger] s[i]).amount + net_effect(s[i].vault@, rebalance_result(s, tolerance)->Ok_0);
                target_of(s) - tolerance <= after <= target_of(s) + tolerance
            },
{
    let target = target_of(s);
    let t = total_of(s) as int;
    let n = s.len() as int;
    assert(0 <= target <= t) by (nonlinear_arith)
        requires
            target == t / n,
            n >= 1,
            t >= 0,
    ;
    assert forall|i: int| 0 <= i < s.len() implies {
        let after = (#[trigger] s[i]).amount + net_effect(s[i].vault@, rebalance_result(s, tolerance)->Ok_0);
        target - tolerance <= after <= target + tolerance
    } by {
        lemma_each_vault_gets_its_move(s, target, tolerance as int, i);
    }
}

proof fn lemma_within_tolerance_no_moves(s: Seq<VaultBalance>, target: int, tolerance: int)
    requires
        forall|i: int| 0 <= i < s.len() ==> target - tolerance <= #[trigger] s[i].amount <= target + tolerance,
    ensures
        moves_for(s, target, tolerance) == Seq::<MoveInstruction>::empty(),
    decreases s.len(),
{
    if s.len() > 0 {
        let init = s.drop_last();
        assert forall|i: int| 0 <= i < init.len() implies target - tolerance <= #[trigger] init[i].amount <= target + tolerance by {
            assert(init[i] == s[i]);
        }
        lemma_within_tolerance_no_moves(init, target, tolerance);
        assert(s.last() == s[s.len() - 1]);
    }
}

/// When every balance already lies within `tolerance` of the target, a
/// rebalance emits nothing.
pub proof fn lemma_balanced_is_noop(s: Seq<VaultBalance>, tolerance: u128)
    requires
        s.len() > 0,
        total_of(s) <= u128::MAX,
        forall|i: int| 0 <= i < s.len() ==> target_of(s) - tolerance <= #[trigger] s[i].amount <= target_of(s) + tolerance,
    ensures
        rebalance_result(s, tolerance) == Ok::<Seq<MoveInstruction>, ContractError>(Seq::empty()),
{
    lemma_within_tolerance_no_moves(s, target_of(s), tolerance as int);
}

/// Two rebalances of the same balances with the same tolerance, with no
/// change in between, give the same plan.
pub proof fn lemma_rebalance_deterministic(first: Seq<VaultBalance>, second: Seq<VaultBalance>, tolerance: u128)
    requires
        first == second,
    ensures
        rebalance_result(first, tolerance) == rebalance_result(second, tolerance),
{
}

} // verus!
