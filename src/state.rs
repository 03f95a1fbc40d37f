use vstd::prelude::*;

use crate::error::ContractError;

verus! {

/// The persisted configuration: the token, the ordered vaults and the
/// rebalance tolerance.
#[derive(Debug, Clone, PartialEq, Eq)]
pub struct Config {
    pub ghost_token: String,
    pub ghost_vaults: Vec<String>,
    pub threshold: u128,
}

/// No identity occurs twice.
pub open spec fn distinct(s: Seq<String>) -> bool {
    forall|i: int, j: int| 0 <= i < j < s.len() ==> s[i]@ != s[j]@
}

/// Every identity passed validation.
pub open spec fn all_valid(s: Seq<Option<String>>) -> bool {
    forall|i: int| 0 <= i < s.len() ==> (#[trigger] s[i]) is Some
}

/// The validated identities.
pub open spec fn unwrap_all(s: Seq<Option<String>>) -> Seq<String> {
    Seq::new(s.len(), |i: int| s[i]->Some_0)
}

/// Why setup fails on these inputs, if it does.
pub open spec fn setup_error(token: Option<String>, vaults: Seq<Option<String>>) -> Option<ContractError> {
    if token is None || !all_valid(vaults) {
        Some(ContractError::InvalidIdentity)
    } else if vaults.len() == 0 {
        Some(ContractError::EmptyVaultList)
    } else if !distinct(unwrap_all(vaults)) {
        Some(ContractError::DuplicateVault)
    } else {
        None
    }
}

impl Config {
    /// A non-empty list of distinct vaults.
    pub open spec fn wf(&self) -> bool {
        self.ghost_vaults.len() > 0 && distinct(self.ghost_vaults@)
    }
}

/// Setup: builds the configuration from identities the host has validated
/// (`None` where it rejected one). Fails on a rejected identity, then on an
/// empty vault list, then on a repeated vault.
pub fn instantiate(token: Option<String>, vaults: Vec<Option<String>>, threshold: u128) -> (r: Result<Config, ContractError>)
    ensures
        match r {
            Ok(c) => {
                &&& setup_error(token, vaults@) is None
                &&& c.wf()
                &&& c.ghost_token == token->Some_0
                &&& c.ghost_vaults@ == unwrap_all(vaults@)
                &&& c.threshold == threshold
            },
            Err(e) => setup_error(token, vaults@) == Some(e),
        },
{
    let ghost_token = match token {
        Some(t) => t,
        None => {
            return Err(ContractError::InvalidIdentity);
        },
    };
    let mut ghost_vaults: Vec<String> = Vec::new();
    let mut i: usize = 0;
    while i < vaults.len()
        invariant
            i <= vaults.len(),
            forall|k: int| 0 <= k < i ==> (#[trigger] vaults@[k]) is Some,
            ghost_vaults@ =~= unwrap_all(vaults@.subrange(0, i as int)),
        decreases vaults.len() - i,
    {
        match &vaults[i] {
            Some(v) => {
                ghost_vaults.push(v.clone());
            },
            None => {
                return Err(ContractError::InvalidIdentity);
            },
        }
        i = i + 1;
    }
    assert(vaults@.subrange(0, i as int) =~= vaults@);
    if ghost_vaults.len() == 0 {
        return Err(ContractError::EmptyVaultList);
    }
    let n = ghost_vaults.len();
    let mut j: usize = 1;
    while j < n
        invariant
            n == ghost_vaults.len(),
            1 <= j <= n,
            token is Some,
            all_valid(vaults@),
            ghost_vaults@ == unwrap_all(vaults@),
            forall|a: int, b: int| 0 <= a < b < j ==> ghost_vaults@[a]@ != ghost_vaults@[b]@,
        decreases n - j,
    {
        let mut k: usize = 0;
        while k < j
            invariant
                n == ghost_vaults.len(),
                k <= j < n,
                token is Some,
                all_valid(vaults@),
                ghost_vaults@ == unwrap_all(vaults@),
                forall|a: int, b: int| 0 <= a < b < j ==> ghost_vaults@[a]@ != ghost_vaults@[b]@,
                forall|a: int| 0 <= a < k ==> ghost_vaults@[a]@ != ghost_vaults@[j as int]@,
            decreases j - k,
        {
            if ghost_vaults[k] == ghost_vaults[j] {
                assert(!distinct(unwrap_all(vaults@)));
                return Err(ContractError::DuplicateVault);
            }
            k = k + 1;
        }
        j = j + 1;
    }
    Ok(Config { ghost_token, ghost_vaults, threshold })
}

} // verus!
