use vstd::prelude::*;

verus! {

/// The command embedded in a value transfer from the token.
#[derive(Debug, Clone, Copy, PartialEq, Eq, Structural)]
pub enum ReceiveMsg {
    Deposit,
}

/// Read-only queries.
#[derive(Debug, Clone, Copy, PartialEq, Eq, Structural)]
pub enum QueryMsg {
    VaultInfo,
}

} // verus!
