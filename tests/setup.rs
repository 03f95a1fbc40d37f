use juta::error::ContractError;
use juta::state::instantiate;

fn some(s: &str) -> Option<String> {
    Some(s.to_string())
}

#[test]
fn setup_keeps_fields() {
    let c = instantiate(some("token"), vec![some("a"), some("b")], 17).unwrap();
    assert_eq!(c.ghost_token, "token");
    assert_eq!(c.ghost_vaults, vec!["a".to_string(), "b".to_string()]);
    assert_eq!(c.threshold, 17);
}

#[test]
fn setup_rejects_empty_vault_list() {
    assert_eq!(instantiate(some("token"), vec![], 0), Err(ContractError::EmptyVaultList));
}

#[test]
fn setup_rejects_invalid_identity() {
    assert_eq!(instantiate(None, vec![some("a")], 0), Err(ContractError::InvalidIdentity));
    assert_eq!(instantiate(some("token"), vec![some("a"), None], 0), Err(ContractError::InvalidIdentity));
    assert_eq!(instantiate(None, vec![], 0), Err(ContractError::InvalidIdentity));
}

#[test]
fn setup_rejects_duplicate_vault() {
    assert_eq!(
        instantiate(some("token"), vec![some("a"), some("b"), some("a")], 0),
        Err(ContractError::DuplicateVault)
    );
}
