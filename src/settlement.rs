use vstd::prelude::*;
use crate::codec::{payment_message, PaymentMessageParams};
use crate::errors::PaymentError;
use crate::identity::Identity;
use crate::signature::{signature_verified, verify_server_signature, TransactionInstructions};
use crate::state::{Config, Registry, Relayer, ServerSigner};

verus! {

/// A token account as settlement reads it.
#[derive(Debug, Clone, Copy)]
pub struct TokenAccount {
    /// Address of the account itself.
    pub address: Identity,
    /// Identity that owns the balance.
    pub owner: Identity,
    /// Type of the token it holds.
    pub mint: Identity,
    /// Identity that the owner allowed to move part of the balance, if any.
    pub delegate: Option<Identity>,
    /// How much the delegate may still move.
    pub delegated_amount: u64,
}

/// Arguments of a settlement that the user co-signs.
#[derive(Debug, Clone, Copy)]
pub struct ProcessPaymentParams {
    pub amount: u64,
    pub fee_amount: u64,
    pub payment_id: u64,
    pub deadline: i64,
    pub server_signer: Identity,
    pub server_signature: [u8; 64],
}

/// Arguments of a settlement made through the delegate authority.
#[derive(Debug, Clone, Copy)]
pub struct ProcessPaymentDelegatedParams {
    pub amount: u64,
    pub fee_amount: u64,
    /// Owner that the fee account must have; not part of the signed message.
    pub fee_recipient: Identity,
    pub payment_id: u64,
    pub deadline: i64,
    pub server_signer: Identity,
    pub server_signature: [u8; 64],
}

/// What a settlement that the user co-signs reads.
#[derive(Debug)]
pub struct ProcessPayment {
    /// The relayer that submits the transaction.
    pub payer: Identity,
    pub relayers: Registry<Relayer>,
    /// The user whose tokens pay.
    pub user: Identity,
    pub config: Config,
    pub server_signers: Registry<ServerSigner>,
    pub token_mint: Identity,
    pub user_token_account: TokenAccount,
    pub pool_token_account: TokenAccount,
    pub fee_token_account: TokenAccount,
    /// Settlement target: logged and signed, never paid.
    pub to: Identity,
    pub instructions: TransactionInstructions,
}

/// What a settlement through the delegate authority reads.
#[derive(Debug)]
pub struct ProcessPaymentDelegated {
    pub payer: Identity,
    pub relayers: Registry<Relayer>,
    pub user: Identity,
    pub config: Config,
    /// Address of the delegate authority.
    pub delegate: Identity,
    pub server_signers: Registry<ServerSigner>,
    pub token_mint: Identity,
    pub user_token_account: TokenAccount,
    pub pool_token_account: TokenAccount,
    pub fee_token_account: TokenAccount,
    pub to: Identity,
    pub instructions: TransactionInstructions,
}

/// One transfer of tokens between two token accounts.
#[derive(Debug, Clone, Copy, PartialEq, Eq)]
pub struct TokenTransfer {
    pub from: Identity,
    pub to: Identity,
    /// The identity whose authority moves the tokens: the user, or the delegate.
    pub authority: Identity,
    pub amount: u64,
}

/// The record that a successful settlement emits.
#[derive(Debug, Clone, Copy)]
pub struct PaymentRecord {
    pub payment_id: u64,
    pub from: Identity,
    pub to: Identity,
    pub pool: Identity,
    pub token: Identity,
    pub amount: u64,
    pub fee: u64,
    /// Logged by the delegated mode only.
    pub fee_recipient: Option<Identity>,
}

/// What a successful settlement does: the transfers to make, in order, and
/// the record to emit.
#[derive(Debug)]
pub struct Settlement {
    pub transfers: Vec<TokenTransfer>,
    pub record: PaymentRecord,
}

/// The checks that both modes share, in order: deadline, relayer, pause,
/// server signer, signature, amount.
pub open spec fn common_check(
    now: i64,
    deadline: i64,
    relayer_active: bool,
    paused: bool,
    signer_active: bool,
    signature_ok: bool,
    amount: u64,
) -> Result<(), PaymentError> {
    if now > deadline {
        Err(PaymentError::PaymentExpired)
    } else if !relayer_active {
        Err(PaymentError::UnauthorizedRelayer)
    } else if paused {
        Err(PaymentError::Paused)
    } else if !signer_active {
        Err(PaymentError::UnauthorizedServerSigner)
    } else if !signature_ok {
        Err(PaymentError::InvalidServerSignature)
    } else if amount == 0 {
        Err(PaymentError::InvalidAmount)
    } else {
        Ok(())
    }
}

/// The transfers of a payment: the principal to the pool, then the fee,
/// if there is one, to the fee account; both under `authority`.
pub open spec fn planned_transfers(
    source: Seq<u8>,
    pool: Seq<u8>,
    fee_account: Seq<u8>,
    authority: Seq<u8>,
    amount: u64,
    fee_amount: u64,
) -> Seq<(Seq<u8>, Seq<u8>, Seq<u8>, u64)> {
    if fee_amount > 0 {
        seq![(source, pool, authority, amount), (source, fee_account, authority, fee_amount)]
    } else {
        seq![(source, pool, authority, amount)]
    }
}

/// The transfers as plain values: source, destination, authority, amount.
pub open spec fn transfers_view(ts: Seq<TokenTransfer>) -> Seq<(Seq<u8>, Seq<u8>, Seq<u8>, u64)> {
    ts.map_values(|t: TokenTransfer| (t.from@, t.to@, t.authority@, t.amount))
}

impl ProcessPaymentParams {
    pub open spec fn message_params(&self) -> PaymentMessageParams {
        PaymentMessageParams {
            payment_id: self.payment_id,
            amount: self.amount,
            fee_amount: self.fee_amount,
            deadline: self.deadline,
        }
    }
}

impl ProcessPaymentDelegatedParams {
    pub open spec fn message_params(&self) -> PaymentMessageParams {
        PaymentMessageParams {
            payment_id: self.payment_id,
            amount: self.amount,
            fee_amount: self.fee_amount,
            deadline: self.deadline,
        }
    }
}

impl ProcessPayment {
    /// The server signature covers this payment's canonical message.
    pub open spec fn signature_ok(&self, params: ProcessPaymentParams) -> bool {
        signature_verified(
            self.instructions.instructions@,
            self.instructions.current_index as int,
            params.server_signer@,
            payment_message(
                params.message_params(),
                self.user@,
                self.pool_token_account.owner@,
                self.to@,
                self.token_mint@,
            ),
        )
    }

    /// The outcome of the checks of a co-signed settlement at time `now`.
    pub open spec fn check(&self, params: ProcessPaymentParams, now: i64) -> Result<(), PaymentError> {
        common_check(
            now,
            params.deadline,
            self.relayers.spec_is_active(self.payer@),
            self.config.paused,
            self.server_signers.spec_is_active(params.server_signer@),
            self.signature_ok(params),
            params.amount,
        )
    }
}

impl ProcessPaymentDelegated {
    /// The server signature covers this payment's canonical message.
    pub open spec fn signature_ok(&self, params: ProcessPaymentDelegatedParams) -> bool {
        signature_verified(
            self.instructions.instructions@,
            self.instructions.current_index as int,
            params.server_signer@,
            payment_message(
                params.message_params(),
                self.user@,
                self.pool_token_account.owner@,
                self.to@,
                self.token_mint@,
            ),
        )
    }

    /// The outcome of the checks that the delegated mode shares with the
    /// co-signed one.
    pub open spec fn common_check(&self, params: ProcessPaymentDelegatedParams, now: i64) -> Result<
        (),
        PaymentError,
    > {
        common_check(
            now,
            params.deadline,
            self.relayers.spec_is_active(self.payer@),
            self.config.paused,
            self.server_signers.spec_is_active(params.server_signer@),
            self.signature_ok(params),
            params.amount,
        )
    }

    /// The outcome of the checks of a delegated settlement at time `now`:
    /// the shared checks, then the delegate, the allowance and the fee
    /// recipient.
    pub open spec fn check(&self, params: ProcessPaymentDelegatedParams, now: i64) -> Result<
        (),
        PaymentError,
    > {
        let common = self.common_check(params, now);
        if common is Err {
            common
        } else if self.user_token_account.delegate is None {
            Err(PaymentError::DelegateNotSet)
        } else if self.user_token_account.delegate.unwrap()@ != self.delegate@ {
            Err(PaymentError::InvalidDelegate)
        } else if self.user_token_account.delegated_amount < params.amount as int
            + params.fee_amount as int {
            Err(PaymentError::InsufficientDelegatedAmount)
        } else if self.fee_token_account.owner@ != params.fee_recipient@ {
            Err(PaymentError::InvalidFeeRecipient)
        } else {
            Ok(())
        }
    }
}

/// Runs the checks that both modes share.
fn check_common(
    now: i64,
    deadline: i64,
    payer: &Identity,
    relayers: &Registry<Relayer>,
    config: &Config,
    server_signers: &Registry<ServerSigner>,
    instructions: &TransactionInstructions,
    server_signer: &Identity,
    message_params: &PaymentMessageParams,
    user: &Identity,
    pool: &Identity,
    to: &Identity,
    token_mint: &Identity,
) -> (r: Result<(), PaymentError>)
    ensures
        r == common_check(
            now,
            deadline,
            relayers.spec_is_active(payer@),
            config.paused,
            server_signers.spec_is_active(server_signer@),
            signature_verified(
                instructions.instructions@,
                instructions.current_index as int,
                server_signer@,
                payment_message(*message_params, user@, pool@, to@, token_mint@),
            ),
            message_params.amount,
        ),
{
    if now > deadline {
        return Err(PaymentError::PaymentExpired);
    }
    if !relayers.is_active(payer) {
        return Err(PaymentError::UnauthorizedRelayer);
    }
    if config.paused {
        return Err(PaymentError::Paused);
    }
    if !server_signers.is_active(server_signer) {
        return Err(PaymentError::UnauthorizedServerSigner);
    }
    verify_server_signature(instructions, server_signer, message_params, user, pool, to, token_mint)?;
    if message_params.amount == 0 {
        return Err(PaymentError::InvalidAmount);
    }
    Ok(())
}

/// The principal transfer, then the fee transfer when the fee is not zero.
fn plan_transfers(
    source: &Identity,
    pool: &Identity,
    fee_account: &Identity,
    authority: &Identity,
    amount: u64,
    fee_amount: u64,
) -> (r: Vec<TokenTransfer>)
    ensures
        transfers_view(r@) == planned_transfers(
            source@,
            pool@,
            fee_account@,
            authority@,
            amount,
            fee_amount,
        ),
{
    let mut transfers: Vec<TokenTransfer> = Vec::new();
    transfers.push(TokenTransfer { from: *source, to: *pool, authority: *authority, amount });
    if fee_amount > 0 {
        transfers.push(
            TokenTransfer { from: *source, to: *fee_account, authority: *authority, amount: fee_amount },
        );
    }
    assert(transfers_view(transfers@) =~= planned_transfers(
        source@,
        pool@,
        fee_account@,
        authority@,
        amount,
        fee_amount,
    ));
    transfers
}

/// Settles a payment that the user co-signs, at time `now`.
///
/// On success the principal moves from the user's token account to the
/// pool's, then the fee, if not zero, to the fee account, both under the
/// user's authority. The target `to` is only signed and logged.
pub fn process_payment_handler(
    ctx: &ProcessPayment,
    params: &ProcessPaymentParams,
    now: i64,
) -> (r: Result<Settlement, PaymentError>)
    ensures
        r is Ok <==> ctx.check(*params, now) is Ok,
        r matches Err(e) ==> ctx.check(*params, now) == Err::<(), PaymentError>(e),
        r matches Ok(s) ==> {
            &&& transfers_view(s.transfers@) == planned_transfers(
                ctx.user_token_account.address@,
                ctx.pool_token_account.address@,
                ctx.fee_token_account.address@,
                ctx.user@,
                params.amount,
                params.fee_amount,
            )
            &&& s.record.payment_id == params.payment_id
            &&& s.record.from@ == ctx.user@
            &&& s.record.to@ == ctx.to@
            &&& s.record.pool@ == ctx.pool_token_account.owner@
            &&& s.record.token@ == ctx.token_mint@
            &&& s.record.amount == params.amount
            &&& s.record.fee == params.fee_amount
            &&& s.record.fee_recipient is None
        },
{
    let message_params = PaymentMessageParams {
        payment_id: params.payment_id,
        amount: params.amount,
        fee_amount: params.fee_amount,
        deadline: params.deadline,
    };
    check_common(
        now,
        params.deadline,
        &ctx.payer,
        &ctx.relayers,
        &ctx.config,
        &ctx.server_signers,
        &ctx.instructions,
        &params.server_signer,
        &message_params,
        &ctx.user,
        &ctx.pool_token_account.owner,
        &ctx.to,
        &ctx.token_mint,
    )?;
    let transfers = plan_transfers(
        &ctx.user_token_account.address,
        &ctx.pool_token_account.address,
        &ctx.fee_token_account.address,
        &ctx.user,
        params.amount,
        params.fee_amount,
    );
    let record = PaymentRecord {
        payment_id: params.payment_id,
        from: ctx.user,
        to: ctx.to,
        pool: ctx.pool_token_account.owner,
        token: ctx.token_mint,
        amount: params.amount,
        fee: params.fee_amount,
        fee_recipient: None,
    };
    Ok(Settlement { transfers, record })
}

/// Settles a payment through the delegate authority, at time `now`; the
/// user need not take part in the transaction.
///
/// On success the principal moves from the user's token account to the
/// pool's, then the fee, if not zero, to the fee account, both under the
/// delegate's authority, within the allowance that the user granted it.
pub fn process_payment_delegated_handler(
    ctx: &ProcessPaymentDelegated,
    params: &ProcessPaymentDelegatedParams,
    now: i64,
) -> (r: Result<Settlement, PaymentError>)
    ensures
        r is Ok <==> ctx.check(*params, now) is Ok,
        r matches Err(e) ==> ctx.check(*params, now) == Err::<(), PaymentError>(e),
        r matches Ok(s) ==> {
            &&& transfers_view(s.transfers@) == planned_transfers(
                ctx.user_token_account.address@,
                ctx.pool_token_account.address@,
                ctx.fee_token_account.address@,
                ctx.delegate@,
                params.amount,
                params.fee_amount,
            )
            &&& s.record.payment_id == params.payment_id
            &&& s.record.from@ == ctx.user@
            &&& s.record.to@ == ctx.to@
            &&& s.record.pool@ == ctx.pool_token_account.owner@
            &&& s.record.token@ == ctx.token_mint@
            &&& s.record.amount == params.amount
            &&& s.record.fee == params.fee_amount
            &&& s.record.fee_recipient matches Some(f) && f@ == params.fee_recipient@
        },
{
    let message_params = PaymentMessageParams {
        payment_id: params.payment_id,
        amount: params.amount,
        fee_amount: params.fee_amount,
        deadline: params.deadline,
    };
    check_common(
        now,
        params.deadline,
        &ctx.payer,
        &ctx.relayers,
        &ctx.config,
        &ctx.server_signers,
        &ctx.instructions,
        &params.server_signer,
        &message_params,
        &ctx.user,
        &ctx.pool_token_account.owner,
        &ctx.to,
        &ctx.token_mint,
    )?;
    match &ctx.user_token_account.delegate {
        None => {
            return Err(PaymentError::DelegateNotSet);
        },
        Some(d) => {
            if !d.same_as(&ctx.delegate) {
                return Err(PaymentError::InvalidDelegate);
            }
        },
    }
    let needed = params.amount as u128 + params.fee_amount as u128;
    if (ctx.user_token_account.delegated_amount as u128) < needed {
        return Err(PaymentError::InsufficientDelegatedAmount);
    }
    if !ctx.fee_token_account.owner.same_as(&params.fee_recipient) {
        return Err(PaymentError::InvalidFeeRecipient);
    }
    let transfers = plan_transfers(
        &ctx.user_token_account.address,
        &ctx.pool_token_account.address,
        &ctx.fee_token_account.address,
        &ctx.delegate,
        params.amount,
        params.fee_amount,
    );
    let record = PaymentRecord {
        payment_id: params.payment_id,
        from: ctx.user,
        to: ctx.to,
        pool: ctx.pool_token_account.owner,
        token: ctx.token_mint,
        amount: params.amount,
        fee: params.fee_amount,
        fee_recipient: Some(params.fee_recipient),
    };
    Ok(Settlement { transfers, record })
}

/// A payment whose deadline has passed fails with `PaymentExpired`, whatever
/// else holds of it, in the co-signed mode.
pub proof fn lemma_expired_payment_fails(ctx: ProcessPayment, params: ProcessPaymentParams, now: i64)
    requires
        now > params.deadline,
    ensures
        ctx.check(params, now) == Err::<(), PaymentError>(PaymentError::PaymentExpired),
{
}

/// A payment whose deadline has passed fails with `PaymentExpired`, whatever
/// else holds of it, in the delegated mode.
pub proof fn lemma_expired_delegated_payment_fails(
    ctx: ProcessPaymentDelegated,
    params: ProcessPaymentDelegatedParams,
    now: i64,
)
    requires
        now > params.deadline,
    ensures
        ctx.check(params, now) == Err::<(), PaymentError>(PaymentError::PaymentExpired),
{
}

/// A payment submitted by a payer without an active relayer record fails
/// with `UnauthorizedRelayer` (so plans no transfer) once its deadline has
/// not passed, in the co-signed mode.
pub proof fn lemma_unregistered_relayer_fails(
    ctx: ProcessPayment,
    params: ProcessPaymentParams,
    now: i64,
)
    requires
        now <= params.deadline,
        !ctx.relayers.spec_is_active(ctx.payer@),
    ensures
        ctx.check(params, now) == Err::<(), PaymentError>(PaymentError::UnauthorizedRelayer),
{
}

/// A payment submitted by a payer without an active relayer record fails
/// with `UnauthorizedRelayer` (so plans no transfer) once its deadline has
/// not passed, in the delegated mode.
pub proof fn lemma_unregistered_relayer_fails_delegated(
    ctx: ProcessPaymentDelegated,
    params: ProcessPaymentDelegatedParams,
    now: i64,
)
    requires
        now <= params.deadline,
        !ctx.relayers.spec_is_active(ctx.payer@),
    ensures
        ctx.check(params, now) == Err::<(), PaymentError>(PaymentError::UnauthorizedRelayer),
{
}

/// With every other check passing, a delegated payment fails with
/// `InsufficientDelegatedAmount` when the allowance is one short of amount
/// plus fee, and succeeds when it is exactly amount plus fee.
pub proof fn lemma_allowance_threshold(
    ctx: ProcessPaymentDelegated,
    params: ProcessPaymentDelegatedParams,
    now: i64,
)
    requires
        ctx.common_check(params, now) is Ok,
        ctx.user_token_account.delegate matches Some(d) && d@ == ctx.delegate@,
        ctx.fee_token_account.owner@ == params.fee_recipient@,
    ensures
        ctx.user_token_account.delegated_amount == params.amount + params.fee_amount - 1
            ==> ctx.check(params, now) == Err::<(), PaymentError>(
            PaymentError::InsufficientDelegatedAmount,
        ),
        ctx.user_token_account.delegated_amount == params.amount + params.fee_amount ==> ctx.check(
            params,
            now,
        ) == Ok::<(), PaymentError>(()),
{
}

} // verus!
