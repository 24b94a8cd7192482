//! Rollup deployment records, and the decisions made around the deployment
//! service: which configuration calls follow a deployment, and which script
//! serves a job.

use vstd::prelude::*;

verus! {

/// A 20-byte account or contract address.
#[derive(Clone, Copy, Debug)]
pub struct Address {
    pub bytes: [u8; 20],
}

impl Address {
    /// The zero address.
    pub fn zero() -> (r: Address)
        ensures
            r.bytes@ == Seq::new(20, |i: int| 0u8),
    {
        let r = Address { bytes: [0u8; 20] };
        assert(r.bytes@ =~= Seq::new(20, |i: int| 0u8));
        r
    }
}

/// The parameters of a rollup to deploy.
pub struct OrbitRollupConfig {
    pub parent_chain_id: u64,
    pub chain_id: u64,
    pub owner: Address,
    pub validators: Vec<Address>,
    pub batch_posters: Vec<Address>,
    pub native_token: Option<Address>,
    pub data_availability_committee: bool,
    pub is_custom_fee_token: bool,
    pub custom_fee_token: Option<Address>,
    pub setup_token_bridge: bool,
    pub native_token_is_erc20: bool,
}

/// What the deployment service reports of a deployed rollup.
pub struct OrbitDeploymentResult {
    pub rollup_address: Address,
    pub inbox_address: Address,
    pub admin_address: Address,
    pub sequencer_inbox_address: Address,
    pub transaction_hash: String,
}

/// Validator management.
pub struct ValidatorParams {
    pub rollup_address: Address,
    pub validators: Vec<Address>,
    pub is_active: bool,
}

/// Privileged executor management.
pub struct ExecutorParams {
    pub rollup_address: Address,
    pub new_executors: Vec<Address>,
}

/// Token bridge configuration.
pub struct TokenBridgeParams {
    pub rollup_address: Address,
    pub native_token: Address,
    pub owner: Address,
}

/// Fast withdrawal configuration.
pub struct FastWithdrawalParams {
    pub rollup_address: Address,
    pub confirmers: Vec<Address>,
    pub is_active: bool,
}

/// Fee recipient configuration.
pub struct FeeRecipientParams {
    pub rollup_address: Address,
    pub recipients: Vec<Address>,
    pub weights: Vec<u64>,
}

/// A configuration call to the deployment service.
pub enum SetupCall {
    ConfigureTokenBridge(TokenBridgeParams),
    SetValidators(ValidatorParams),
}

fn copy_addresses(v: &Vec<Address>) -> (r: Vec<Address>)
    ensures
        r@ == v@,
{
    let mut r: Vec<Address> = Vec::new();
    let mut i: usize = 0;
    while i < v.len()
        invariant
            i <= v@.len(),
            r@ == v@.take(i as int),
        decreases v.len() - i,
    {
        r.push(v[i]);
        assert(v@.take(i + 1) =~= v@.take(i as int).push(v@[i as int]));
        i = i + 1;
    }
    assert(v@.take(i as int) =~= v@);
    r
}

/// The calls that configure a freshly deployed rollup, in order: the token
/// bridge, where asked for, with the native token (the zero address for
/// ether); then the initial validators, active.
pub fn setup_initial_configuration(deployment: &OrbitDeploymentResult, config: &OrbitRollupConfig) -> (r: Vec<SetupCall>)
    ensures
        r@.len() == if config.setup_token_bridge { 2int } else { 1int },
        config.setup_token_bridge ==> (r@[0] is ConfigureTokenBridge && {
            let p = r@[0]->ConfigureTokenBridge_0;
            &&& p.rollup_address == deployment.rollup_address
            &&& p.owner == config.owner
            &&& p.native_token.bytes@ == match config.native_token {
                Some(a) => a.bytes@,
                None => Seq::new(20, |i: int| 0u8),
            }
        }),
        r@.last() is SetValidators && {
            let p = r@.last()->SetValidators_0;
            &&& p.rollup_address == deployment.rollup_address
            &&& p.validators@ == config.validators@
            &&& p.is_active
        },
{
    let mut r: Vec<SetupCall> = Vec::new();
    if config.setup_token_bridge {
        let native_token = match config.native_token {
            Some(a) => a,
            None => Address::zero(),
        };
        r.push(SetupCall::ConfigureTokenBridge(TokenBridgeParams {
            rollup_address: deployment.rollup_address,
            native_token,
            owner: config.owner,
        }));
    }
    r.push(SetupCall::SetValidators(ValidatorParams {
        rollup_address: deployment.rollup_address,
        validators: copy_addresses(&config.validators),
        is_active: true,
    }));
    r
}

/// `name` with each underscore made a hyphen.
pub open spec fn hyphenated(name: Seq<char>) -> Seq<char> {
    name.map_values(|c: char| if c == '_' { '-' } else { c })
}

/// The script that serves the job `name`: `scripts/<name>.ts`, with the
/// name's underscores made hyphens.
pub fn job_script(name: &str) -> (r: String)
    ensures
        r@ == "scripts/"@ + hyphenated(name@) + ".ts"@,
{
    let mut r = String::from_str("scripts/");
    let ghost head = r@;
    let n = name.unicode_len();
    let mut i: usize = 0;
    while i < n
        invariant
            i <= n == name@.len(),
            head == "scripts/"@,
            r@ == head + hyphenated(name@.take(i as int)),
        decreases n - i,
    {
        let c = name.get_char(i);
        if c == '_' {
            r.append("-");
            proof { reveal_strlit("-"); }
        } else {
            r.append(name.substring_char(i, i + 1));
        }
        assert(hyphenated(name@.take(i + 1)) =~= hyphenated(name@.take(i as int)).push(
            if c == '_' { '-' } else { c },
        ));
        assert(name@.subrange(i as int, i + 1) =~= seq![c]);
        i = i + 1;
    }
    assert(name@.take(i as int) =~= name@);
    r.append(".ts");
    r
}

} // verus!
