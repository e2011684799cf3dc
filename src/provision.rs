use vstd::prelude::*;

verus! {

/// Node error code for "a wallet with this name already exists".
pub const WALLET_EXISTS_CODE: i64 = -4;

/// Node error code for "this wallet is already loaded".
pub const WALLET_LOADED_CODE: i64 = -35;

/// The two node calls that make a named wallet available.
#[derive(Clone, Copy, Debug, PartialEq, Eq, Structural)]
pub enum WalletOp {
    Create,
    Load,
}

/// How a failed node call came back.
#[derive(Clone, Copy, Debug, PartialEq, Eq, Structural)]
pub enum CallError {
    /// The node answered with a JSON-RPC error carrying this code.
    Rpc { code: i64 },
    /// Anything else: transport, authentication, malformed reply.
    Transport,
}

/// What to do with a failed call.
#[derive(Clone, Copy, Debug, PartialEq, Eq, Structural)]
pub enum Disposition {
    Ignorable,
    Fatal,
}

/// Where the provisioning of one wallet stands.
#[derive(Clone, Copy, Debug, PartialEq, Eq, Structural)]
pub enum ProvisionState {
    /// The create call is next (or its reply is awaited).
    Creating,
    /// The load call is next (or its reply is awaited).
    Loading,
    /// The wallet exists and is loaded.
    Ready,
    /// A call failed in a way that ends the run.
    Failed,
}

/// The failures of `op` that leave the wallet in the state the caller wanted.
pub open spec fn benign(op: WalletOp, err: CallError) -> bool {
    match err {
        CallError::Rpc { code } => match op {
            WalletOp::Create => code == WALLET_EXISTS_CODE,
            WalletOp::Load => code == WALLET_LOADED_CODE,
        },
        CallError::Transport => false,
    }
}

/// Next provisioning state after the reply `reply` to the call made in `state`.
pub open spec fn next_state(state: ProvisionState, reply: Result<(), CallError>) -> ProvisionState {
    match state {
        ProvisionState::Creating => match reply {
            Ok(_) => ProvisionState::Loading,
            Err(e) => if benign(WalletOp::Create, e) {
                ProvisionState::Loading
            } else {
                ProvisionState::Failed
            },
        },
        ProvisionState::Loading => match reply {
            Ok(_) => ProvisionState::Ready,
            Err(e) => if benign(WalletOp::Load, e) {
                ProvisionState::Ready
            } else {
                ProvisionState::Failed
            },
        },
        _ => state,
    }
}

/// Maps a failed wallet call to whether the run may go on.
pub fn classify(op: WalletOp, err: &CallError) -> (r: Disposition)
    ensures
        r == (if benign(op, *err) { Disposition::Ignorable } else { Disposition::Fatal }),
{
    let ignorable = match err {
        CallError::Rpc { code } => match op {
            WalletOp::Create => *code == WALLET_EXISTS_CODE,
            WalletOp::Load => *code == WALLET_LOADED_CODE,
        },
        CallError::Transport => false,
    };
    if ignorable {
        Disposition::Ignorable
    } else {
        Disposition::Fatal
    }
}

/// The call that `state` asks for next, if any.
pub fn pending_call(state: ProvisionState) -> (r: Option<WalletOp>)
    ensures
        r == (match state {
            ProvisionState::Creating => Some(WalletOp::Create),
            ProvisionState::Loading => Some(WalletOp::Load),
            _ => None::<WalletOp>,
        }),
{
    match state {
        ProvisionState::Creating => Some(WalletOp::Create),
        ProvisionState::Loading => Some(WalletOp::Load),
        _ => None,
    }
}

/// Advances the provisioning of a wallet by the node's reply to the pending call.
pub fn provision_step(state: ProvisionState, reply: &Result<(), CallError>) -> (r: ProvisionState)
    ensures
        r == next_state(state, *reply),
{
    match state {
        ProvisionState::Creating => match reply {
            Ok(_) => ProvisionState::Loading,
            Err(e) => match classify(WalletOp::Create, e) {
                Disposition::Ignorable => ProvisionState::Loading,
                Disposition::Fatal => ProvisionState::Failed,
            },
        },
        ProvisionState::Loading => match reply {
            Ok(_) => ProvisionState::Ready,
            Err(e) => match classify(WalletOp::Load, e) {
                Disposition::Ignorable => ProvisionState::Ready,
                Disposition::Fatal => ProvisionState::Failed,
            },
        },
        _ => state,
    }
}

/// Provisioning is idempotent: once a wallet exists and is loaded, the node
/// answers a repeated create with "already exists" (or success) and a repeated
/// load with "already loaded" (or success), and the repeated provisioning ends
/// ready rather than failed.
pub proof fn lemma_repeat_provision_succeeds(create: Result<(), CallError>, load: Result<(), CallError>)
    requires
        create is Ok || create == Err::<(), CallError>(CallError::Rpc { code: WALLET_EXISTS_CODE }),
        load is Ok || load == Err::<(), CallError>(CallError::Rpc { code: WALLET_LOADED_CODE }),
    ensures
        next_state(next_state(ProvisionState::Creating, create), load) == ProvisionState::Ready,
{
}

/// Only a fatal reply can end provisioning in failure, and a ready or failed
/// provisioning is final.
pub proof fn lemma_failure_needs_fatal_reply(state: ProvisionState, reply: Result<(), CallError>)
    ensures
        next_state(state, reply) == ProvisionState::Failed ==> (state == ProvisionState::Failed || (
            reply is Err && !benign(
                if state == ProvisionState::Creating { WalletOp::Create } else { WalletOp::Load },
                reply->Err_0,
            ))),
        state == ProvisionState::Ready ==> next_state(state, reply) == ProvisionState::Ready,
        state == ProvisionState::Failed ==> next_state(state, reply) == ProvisionState::Failed,
{
}

} // verus!
