use stream_flow_demo::identity::derive_custody_authority;
use stream_flow_demo::identity::domain_tag_bytes;
use stream_flow_demo::identity::Identity;

fn id(byte: u8) -> Identity {
    Identity { bytes: vec![byte; 32] }
}

#[test]
fn derivation_is_deterministic() {
    let owner = id(7);
    let program = id(11);
    let (first_key, first_bump) = derive_custody_authority(&owner, &program).unwrap();
    let (second_key, second_bump) = derive_custody_authority(&owner, &program).unwrap();
    assert_eq!(first_key.bytes, second_key.bytes);
    assert_eq!(first_bump, second_bump);
}

#[test]
fn derivation_matches_ledger_search() {
    let owner = id(7);
    let program = id(11);
    let (key, bump) = derive_custody_authority(&owner, &program).unwrap();

    let program_key = anchor_lang::prelude::Pubkey::try_from(program.bytes.as_slice()).unwrap();
    let (expected, expected_bump) = anchor_lang::prelude::Pubkey::find_program_address(
        &[b"user_account", owner.bytes.as_slice()],
        &program_key,
    );
    assert_eq!(key.bytes, expected.to_bytes().to_vec());
    assert_eq!(bump, expected_bump);
}

#[test]
fn derivation_depends_on_owner() {
    let program = id(11);
    let (key_a, _) = derive_custody_authority(&id(7), &program).unwrap();
    let (key_b, _) = derive_custody_authority(&id(8), &program).unwrap();
    assert_ne!(key_a.bytes, key_b.bytes);
}

#[test]
fn domain_tag_is_user_account() {
    assert_eq!(domain_tag_bytes(), b"user_account".to_vec());
}

#[test]
fn identity_new_checks_length() {
    assert!(Identity::new(vec![0u8; 32]).is_some());
    assert!(Identity::new(vec![0u8; 31]).is_none());
    let base = id(5);
    let copy = base.duplicate();
    assert!(copy.same_as(&base));
    assert!(!copy.same_as(&id(6)));
}
