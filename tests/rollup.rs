use orbit_sequencer_deployer::rollup::{
    job_script, setup_initial_configuration, Address, OrbitDeploymentResult, OrbitRollupConfig, SetupCall,
};

fn addr(b: u8) -> Address {
    Address { bytes: [b; 20] }
}

fn rollup_config(bridge: bool, native: Option<Address>) -> OrbitRollupConfig {
    OrbitRollupConfig {
        parent_chain_id: 1,
        chain_id: 42,
        owner: addr(7),
        validators: vec![addr(1), addr(2)],
        batch_posters: vec![addr(3)],
        native_token: native,
        data_availability_committee: false,
        is_custom_fee_token: false,
        custom_fee_token: None,
        setup_token_bridge: bridge,
        native_token_is_erc20: false,
    }
}

fn deployment() -> OrbitDeploymentResult {
    OrbitDeploymentResult {
        rollup_address: addr(9),
        inbox_address: addr(10),
        admin_address: addr(11),
        sequencer_inbox_address: addr(12),
        transaction_hash: "0xabc".to_string(),
    }
}

#[test]
fn setup_without_bridge_sets_validators_only() {
    let calls = setup_initial_configuration(&deployment(), &rollup_config(false, None));
    assert_eq!(calls.len(), 1);
    match &calls[0] {
        SetupCall::SetValidators(p) => {
            assert_eq!(p.rollup_address.bytes, [9; 20]);
            assert_eq!(p.validators.len(), 2);
            assert_eq!(p.validators[1].bytes, [2; 20]);
            assert!(p.is_active);
        },
        _ => panic!("expected validators"),
    }
}

#[test]
fn setup_with_bridge_defaults_native_token_to_zero() {
    let calls = setup_initial_configuration(&deployment(), &rollup_config(true, None));
    assert_eq!(calls.len(), 2);
    match &calls[0] {
        SetupCall::ConfigureTokenBridge(p) => {
            assert_eq!(p.native_token.bytes, [0; 20]);
            assert_eq!(p.owner.bytes, [7; 20]);
            assert_eq!(p.rollup_address.bytes, [9; 20]);
        },
        _ => panic!("expected token bridge"),
    }
    assert!(matches!(calls[1], SetupCall::SetValidators(_)));
}

#[test]
fn setup_with_bridge_keeps_native_token() {
    let calls = setup_initial_configuration(&deployment(), &rollup_config(true, Some(addr(5))));
    match &calls[0] {
        SetupCall::ConfigureTokenBridge(p) => assert_eq!(p.native_token.bytes, [5; 20]),
        _ => panic!("expected token bridge"),
    }
}

#[test]
fn job_script_hyphenates_name() {
    assert_eq!(job_script("set_validators"), "scripts/set-validators.ts");
    assert_eq!(job_script("configure_fee_recipients"), "scripts/configure-fee-recipients.ts");
    assert_eq!(job_script("plain"), "scripts/plain.ts");
}

#[test]
fn zero_address_is_zero() {
    assert_eq!(Address::zero().bytes, [0; 20]);
}
