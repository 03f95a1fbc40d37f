use vstd::prelude::*;

verus! {

/// Every way a command can fail. A failed command emits no instructions.
#[derive(Debug, Clone, Copy, PartialEq, Eq, Structural)]
pub enum ContractError {
    /// A value transfer came from a sender other than the configured token.
    Unauthorized,
    /// A share was asked of an empty vault list.
    DivideByZero,
    /// The sum of the reported balances does not fit in a `u128`.
    Overflow,
    /// The token or a vault identity was rejected at setup.
    InvalidIdentity,
    /// Setup was given no vaults.
    EmptyVaultList,
    /// Setup was given the same vault twice.
    DuplicateVault,
    /// The command embedded in a value transfer could not be decoded.
    MalformedEmbeddedCommand,
}

} // verus!
