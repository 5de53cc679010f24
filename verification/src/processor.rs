//! The transaction processor: the eight transitions of the ledger.
//!
//! Each transition has two specification functions. Its `_outcome` says
//! whether a request is accepted and, if not, with which error: the checks
//! run in a fixed order and the first that fails decides. Its `_next` says
//! what the context holds afterwards: every change of the transition if the
//! request was accepted, and the context as it was if not. A quiz or a stake
//! is created in a free slot only: a request that meets a stored record is
//! accepted and changes nothing.

use vstd::prelude::*;
use crate::access::{is_document_owner, is_stake_owner, owns_document, owns_stake};
use crate::contexts::{
    ChatQuery, GenerateQuiz, InitializeUser, PurchaseTokens, ShareDocument, StakeTokens,
    UnstakeTokens, UploadDocument,
};
use crate::error::SocraticError;
use crate::fees::{
    CHAT_QUERY_COST, MINIMUM_STAKE_AMOUNT, QUIZ_GENERATION_COST, SHARE_DOCUMENT_COST,
    STAKE_COOLDOWN_PERIOD, TOKEN_EXCHANGE_RATE, UPLOAD_DOCUMENT_COST,
};
use crate::state::{DocumentRecord, QueryRecord, QuizRecord, StakeRecord, UserAccount};

verus! {

/// An unsigned timestamp read as a signed one: unchanged below 2^63, and
/// 2^64 less from there on.
pub open spec fn timestamp_as_signed(timestamp: u64) -> i64 {
    if timestamp <= 0x7fff_ffff_ffff_ffff {
        timestamp as i64
    } else {
        (timestamp - 0x1_0000_0000_0000_0000) as i64
    }
}

/// Reads an unsigned timestamp as a signed one.
pub fn signed_timestamp(timestamp: u64) -> (signed: i64)
    ensures
        signed == timestamp_as_signed(timestamp),
{
    if timestamp <= 0x7fff_ffff_ffff_ffff {
        timestamp as i64
    } else {
        let low: u64 = timestamp - 0x8000_0000_0000_0000;
        (low as i64) + i64::MIN
    }
}

/// Whether a stake made at `staked_at` may be withdrawn at `now`.
pub open spec fn cooldown_elapsed(staked_at: i64, now: i64) -> bool {
    now >= staked_at + STAKE_COOLDOWN_PERIOD
}

/// The credits minted for a payment of `sol_amount`.
pub open spec fn minted_for(sol_amount: u64) -> int {
    sol_amount * TOKEN_EXCHANGE_RATE
}

// ---------------------------------------------------------------------------
// initialize_user

/// The context after `initialize_user`: an account that exists stays as it
/// is, a missing one is created empty.
pub open spec fn initialize_user_next(ctx: InitializeUser, now: i64) -> InitializeUser {
    match ctx.user_account {
        Some(_) => ctx,
        None => InitializeUser { user_account: Some(UserAccount::fresh(ctx.user, now)), ..ctx },
    }
}

/// Creates the caller's account if the caller has none: balance and counters
/// zero, created at `now`. An existing account is left untouched.
pub fn initialize_user(ctx: &mut InitializeUser, now: i64) -> (result: Result<(), SocraticError>)
    ensures
        result is Ok,
        *final(ctx) == initialize_user_next(*old(ctx), now),
{
    if ctx.user_account.is_none() {
        ctx.user_account = Some(UserAccount::new(ctx.user, now));
    }
    Ok(())
}

// ---------------------------------------------------------------------------
// upload_document

/// Whether an upload at `document_index` is accepted.
pub open spec fn upload_document_outcome(
    ctx: UploadDocument,
    document_index: u64,
) -> Result<(), SocraticError> {
    if document_index != ctx.user_account.documents_uploaded {
        Err(SocraticError::InvalidDocumentIndex)
    } else if ctx.user_account.token_balance < UPLOAD_DOCUMENT_COST {
        Err(SocraticError::InsufficientTokens)
    } else if ctx.user_account.documents_uploaded == u64::MAX {
        Err(SocraticError::ArithmeticOverflow)
    } else {
        Ok(())
    }
}

/// The context after an upload was requested.
pub open spec fn upload_document_next(
    ctx: UploadDocument,
    pdf_hash: String,
    access_level: u8,
    document_index: u64,
    now: i64,
) -> UploadDocument {
    if upload_document_outcome(ctx, document_index) is Ok {
        UploadDocument {
            user_account: UserAccount {
                documents_uploaded: (ctx.user_account.documents_uploaded + 1) as u64,
                ..ctx.user_account.debited(UPLOAD_DOCUMENT_COST)
            },
            document_record: DocumentRecord {
                owner: ctx.user,
                pdf_hash,
                upload_timestamp: now,
                token_cost: UPLOAD_DOCUMENT_COST,
                access_level,
                download_count: 0,
                is_active: true,
            },
            user: ctx.user,
        }
    } else {
        ctx
    }
}

/// Uploads the caller's next document: charges the upload fee, counts the
/// upload, and fills the document record. `document_index` must be the number
/// of documents the account has uploaded so far.
pub fn upload_document(
    ctx: &mut UploadDocument,
    pdf_hash: String,
    access_level: u8,
    document_index: u64,
    now: i64,
) -> (result: Result<(), SocraticError>)
    ensures
        result == upload_document_outcome(*old(ctx), document_index),
        *final(ctx) == upload_document_next(*old(ctx), pdf_hash, access_level, document_index, now),
{
    if document_index != ctx.user_account.documents_uploaded {
        return Err(SocraticError::InvalidDocumentIndex);
    }
    if ctx.user_account.token_balance < UPLOAD_DOCUMENT_COST {
        return Err(SocraticError::InsufficientTokens);
    }
    let uploaded: u64 = match ctx.user_account.documents_uploaded.checked_add(1) {
        Some(n) => n,
        None => {
            return Err(SocraticError::ArithmeticOverflow);
        },
    };
    ctx.user_account.token_balance = ctx.user_account.token_balance - UPLOAD_DOCUMENT_COST;
    ctx.user_account.documents_uploaded = uploaded;
    ctx.document_record = DocumentRecord {
        owner: ctx.user,
        pdf_hash,
        upload_timestamp: now,
        token_cost: UPLOAD_DOCUMENT_COST,
        access_level,
        download_count: 0,
        is_active: true,
    };
    Ok(())
}

// ---------------------------------------------------------------------------
// chat_query

/// Whether a query at `query_index` is accepted.
pub open spec fn chat_query_outcome(ctx: ChatQuery, query_index: u64) -> Result<(), SocraticError> {
    if query_index != ctx.user_account.queries_made {
        Err(SocraticError::InvalidQueryIndex)
    } else if ctx.user_account.token_balance < CHAT_QUERY_COST {
        Err(SocraticError::InsufficientTokens)
    } else if ctx.user_account.queries_made == u64::MAX {
        Err(SocraticError::ArithmeticOverflow)
    } else {
        Ok(())
    }
}

/// The context after a query was requested.
pub open spec fn chat_query_next(
    ctx: ChatQuery,
    query_text: String,
    query_index: u64,
    now: i64,
) -> ChatQuery {
    if chat_query_outcome(ctx, query_index) is Ok {
        ChatQuery {
            user_account: UserAccount {
                queries_made: (ctx.user_account.queries_made + 1) as u64,
                ..ctx.user_account.debited(CHAT_QUERY_COST)
            },
            query_record: QueryRecord {
                user: ctx.user,
                query_text,
                timestamp: now,
                tokens_spent: CHAT_QUERY_COST,
            },
            user: ctx.user,
        }
    } else {
        ctx
    }
}

/// Asks the caller's next question: charges the query fee, counts the query,
/// and fills the query record. `query_index` must be the number of queries
/// the account has made so far.
pub fn chat_query(
    ctx: &mut ChatQuery,
    query_text: String,
    query_index: u64,
    now: i64,
) -> (result: Result<(), SocraticError>)
    ensures
        result == chat_query_outcome(*old(ctx), query_index),
        *final(ctx) == chat_query_next(*old(ctx), query_text, query_index, now),
{
    if query_index != ctx.user_account.queries_made {
        return Err(SocraticError::InvalidQueryIndex);
    }
    if ctx.user_account.token_balance < CHAT_QUERY_COST {
        return Err(SocraticError::InsufficientTokens);
    }
    let made: u64 = match ctx.user_account.queries_made.checked_add(1) {
        Some(n) => n,
        None => {
            return Err(SocraticError::ArithmeticOverflow);
        },
    };
    ctx.user_account.token_balance = ctx.user_account.token_balance - CHAT_QUERY_COST;
    ctx.user_account.queries_made = made;
    ctx.query_record = QueryRecord {
        user: ctx.user,
        query_text,
        timestamp: now,
        tokens_spent: CHAT_QUERY_COST,
    };
    Ok(())
}

// ---------------------------------------------------------------------------
// purchase_tokens

/// What a payment of `sol_amount` mints for the account: the credits, or the
/// overflow that forbids the purchase.
pub open spec fn purchase_tokens_quote(
    account: UserAccount,
    sol_amount: u64,
) -> Result<u64, SocraticError> {
    if minted_for(sol_amount) > u64::MAX {
        Err(SocraticError::ArithmeticOverflow)
    } else if account.token_balance + minted_for(sol_amount) > u64::MAX {
        Err(SocraticError::ArithmeticOverflow)
    } else {
        Ok(minted_for(sol_amount) as u64)
    }
}

/// Whether a purchase for `sol_amount` is accepted.
pub open spec fn purchase_tokens_outcome(
    ctx: PurchaseTokens,
    sol_amount: u64,
) -> Result<(), SocraticError> {
    match purchase_tokens_quote(ctx.user_account, sol_amount) {
        Ok(_) => Ok(()),
        Err(e) => Err(e),
    }
}

/// The context after a purchase was requested.
pub open spec fn purchase_tokens_next(ctx: PurchaseTokens, sol_amount: u64) -> PurchaseTokens {
    match purchase_tokens_quote(ctx.user_account, sol_amount) {
        Ok(minted) => PurchaseTokens { user_account: ctx.user_account.credited(minted), ..ctx },
        Err(_) => ctx,
    }
}

/// Computes the credits that a payment of `sol_amount` mints for the account,
/// without changing anything. A host asks this before it moves the payment,
/// so that no payment is taken for a purchase that cannot be credited.
pub fn tokens_for_payment(
    account: &UserAccount,
    sol_amount: u64,
) -> (result: Result<u64, SocraticError>)
    ensures
        result == purchase_tokens_quote(*account, sol_amount),
{
    let minted: u64 = match sol_amount.checked_mul(TOKEN_EXCHANGE_RATE) {
        Some(m) => m,
        None => {
            return Err(SocraticError::ArithmeticOverflow);
        },
    };
    match account.token_balance.checked_add(minted) {
        Some(_) => Ok(minted),
        None => Err(SocraticError::ArithmeticOverflow),
    }
}

/// Credits the account with the tokens for a payment of `sol_amount` that the
/// payment rail has confirmed.
pub fn purchase_tokens(
    ctx: &mut PurchaseTokens,
    sol_amount: u64,
) -> (result: Result<(), SocraticError>)
    ensures
        result == purchase_tokens_outcome(*old(ctx), sol_amount),
        *final(ctx) == purchase_tokens_next(*old(ctx), sol_amount),
{
    match tokens_for_payment(&ctx.user_account, sol_amount) {
        Ok(minted) => {
            ctx.user_account.token_balance = ctx.user_account.token_balance + minted;
            Ok(())
        },
        Err(e) => Err(e),
    }
}

// ---------------------------------------------------------------------------
// share_document

/// Whether a change of the document's access level is accepted.
pub open spec fn share_document_outcome(ctx: ShareDocument) -> Result<(), SocraticError> {
    if !owns_document(ctx.user, ctx.document_record) {
        Err(SocraticError::NotDocumentOwner)
    } else if ctx.user_account.token_balance < SHARE_DOCUMENT_COST {
        Err(SocraticError::InsufficientTokens)
    } else {
        Ok(())
    }
}

/// The context after a change of the access level was requested.
pub open spec fn share_document_next(ctx: ShareDocument, new_access_level: u8) -> ShareDocument {
    if share_document_outcome(ctx) is Ok {
        ShareDocument {
            user_account: ctx.user_account.debited(SHARE_DOCUMENT_COST),
            document_record: DocumentRecord { access_level: new_access_level, ..ctx.document_record },
            user: ctx.user,
        }
    } else {
        ctx
    }
}

/// Changes the access level of a document that the caller owns, and charges
/// the sharing fee.
pub fn share_document(
    ctx: &mut ShareDocument,
    new_access_level: u8,
) -> (result: Result<(), SocraticError>)
    ensures
        result == share_document_outcome(*old(ctx)),
        *final(ctx) == share_document_next(*old(ctx), new_access_level),
{
    if !is_document_owner(&ctx.user, &ctx.document_record) {
        return Err(SocraticError::NotDocumentOwner);
    }
    if ctx.user_account.token_balance < SHARE_DOCUMENT_COST {
        return Err(SocraticError::InsufficientTokens);
    }
    ctx.user_account.token_balance = ctx.user_account.token_balance - SHARE_DOCUMENT_COST;
    ctx.document_record.access_level = new_access_level;
    Ok(())
}

// ---------------------------------------------------------------------------
// generate_quiz

/// Whether a quiz is granted. A request whose slot already holds a quiz is
/// granted too: it is answered by the quiz that is there.
pub open spec fn generate_quiz_outcome(ctx: GenerateQuiz) -> Result<(), SocraticError> {
    if ctx.user_account.token_balance < QUIZ_GENERATION_COST {
        Err(SocraticError::InsufficientTokens)
    } else {
        Ok(())
    }
}

/// Whether the request creates a quiz: it is granted and its slot is free.
pub open spec fn generate_quiz_creates(ctx: GenerateQuiz) -> bool {
    generate_quiz_outcome(ctx) is Ok && ctx.quiz_record is None
}

/// The context after a quiz was requested. Nothing changes unless the request
/// creates a quiz: a quiz that is stored is never written over, and a request
/// that meets one is not charged.
pub open spec fn generate_quiz_next(
    ctx: GenerateQuiz,
    document_hash: String,
    timestamp: u64,
) -> GenerateQuiz {
    if generate_quiz_creates(ctx) {
        GenerateQuiz {
            user_account: ctx.user_account.debited(QUIZ_GENERATION_COST),
            quiz_record: Some(
                QuizRecord {
                    creator: ctx.user,
                    document_hash,
                    created_at: timestamp_as_signed(timestamp),
                    tokens_spent: QUIZ_GENERATION_COST,
                    is_public: false,
                },
            ),
            user: ctx.user,
        }
    } else {
        ctx
    }
}

/// Charges the quiz fee and fills the free quiz slot for the given document.
/// The new quiz is private. Where the slot already holds a quiz, the request
/// is granted without any change: the quiz stays and no fee is taken, so that
/// asking twice at one timestamp creates and charges once.
pub fn generate_quiz(
    ctx: &mut GenerateQuiz,
    document_hash: String,
    timestamp: u64,
) -> (result: Result<(), SocraticError>)
    ensures
        result == generate_quiz_outcome(*old(ctx)),
        *final(ctx) == generate_quiz_next(*old(ctx), document_hash, timestamp),
{
    if ctx.user_account.token_balance < QUIZ_GENERATION_COST {
        return Err(SocraticError::InsufficientTokens);
    }
    if ctx.quiz_record.is_some() {
        return Ok(());
    }
    ctx.user_account.token_balance = ctx.user_account.token_balance - QUIZ_GENERATION_COST;
    ctx.quiz_record = Some(
        QuizRecord {
            creator: ctx.user,
            document_hash,
            created_at: signed_timestamp(timestamp),
            tokens_spent: QUIZ_GENERATION_COST,
            is_public: false,
        },
    );
    Ok(())
}

// ---------------------------------------------------------------------------
// stake_tokens

/// Whether a stake of `amount` is accepted. A request whose slot already
/// holds a stake is accepted too, and locks nothing.
pub open spec fn stake_tokens_outcome(ctx: StakeTokens, amount: u64) -> Result<(), SocraticError> {
    if amount < MINIMUM_STAKE_AMOUNT {
        Err(SocraticError::InsufficientStakeAmount)
    } else if ctx.user_account.token_balance < amount {
        Err(SocraticError::InsufficientTokens)
    } else {
        Ok(())
    }
}

/// Whether the request creates a stake: it is accepted and its slot is free.
pub open spec fn stake_tokens_creates(ctx: StakeTokens, amount: u64) -> bool {
    stake_tokens_outcome(ctx, amount) is Ok && ctx.stake_record is None
}

/// The context after a stake was requested. Nothing changes unless the
/// request creates a stake: a stake that is stored is never written over, and
/// a request that meets one takes nothing from the balance.
pub open spec fn stake_tokens_next(ctx: StakeTokens, amount: u64, timestamp: u64) -> StakeTokens {
    if stake_tokens_creates(ctx, amount) {
        StakeTokens {
            user_account: ctx.user_account.debited(amount),
            stake_record: Some(
                StakeRecord {
                    user: ctx.user,
                    amount,
                    staked_at: timestamp_as_signed(timestamp),
                    is_active: true,
                },
            ),
            user: ctx.user,
        }
    } else {
        ctx
    }
}

/// Locks `amount` credits of the caller: takes them from the balance and
/// fills the free stake slot, active and staked at `timestamp`. Where the
/// slot already holds a stake, the request is accepted without any change:
/// the stake stays as it is and the balance is not touched.
pub fn stake_tokens(
    ctx: &mut StakeTokens,
    amount: u64,
    timestamp: u64,
) -> (result: Result<(), SocraticError>)
    ensures
        result == stake_tokens_outcome(*old(ctx), amount),
        *final(ctx) == stake_tokens_next(*old(ctx), amount, timestamp),
{
    if amount < MINIMUM_STAKE_AMOUNT {
        return Err(SocraticError::InsufficientStakeAmount);
    }
    if ctx.user_account.token_balance < amount {
        return Err(SocraticError::InsufficientTokens);
    }
    if ctx.stake_record.is_some() {
        return Ok(());
    }
    ctx.user_account.token_balance = ctx.user_account.token_balance - amount;
    ctx.stake_record = Some(
        StakeRecord {
            user: ctx.user,
            amount,
            staked_at: signed_timestamp(timestamp),
            is_active: true,
        },
    );
    Ok(())
}

// ---------------------------------------------------------------------------
// unstake_tokens

/// Whether the stake may be withdrawn at `now`.
pub open spec fn unstake_tokens_outcome(ctx: UnstakeTokens, now: i64) -> Result<(), SocraticError> {
    if !owns_stake(ctx.user, ctx.stake_record) {
        Err(SocraticError::NotStakeOwner)
    } else if !cooldown_elapsed(ctx.stake_record.staked_at, now) {
        Err(SocraticError::StakeCooldownActive)
    } else if ctx.user_account.token_balance + ctx.stake_record.amount > u64::MAX {
        Err(SocraticError::ArithmeticOverflow)
    } else {
        Ok(())
    }
}

/// The context after a withdrawal was requested at `now`.
pub open spec fn unstake_tokens_next(ctx: UnstakeTokens, now: i64) -> UnstakeTokens {
    if unstake_tokens_outcome(ctx, now) is Ok {
        UnstakeTokens {
            user_account: ctx.user_account.credited(ctx.stake_record.amount),
            stake_record: StakeRecord { is_active: false, ..ctx.stake_record },
            user: ctx.user,
        }
    } else {
        ctx
    }
}

/// Returns the staked credits to the caller's balance once the cooldown has
/// passed, and marks the stake as spent.
pub fn unstake_tokens(ctx: &mut UnstakeTokens, now: i64) -> (result: Result<(), SocraticError>)
    ensures
        result == unstake_tokens_outcome(*old(ctx), now),
        *final(ctx) == unstake_tokens_next(*old(ctx), now),
{
    if !is_stake_owner(&ctx.user, &ctx.stake_record) {
        return Err(SocraticError::NotStakeOwner);
    }
    let unlocked: bool = match ctx.stake_record.staked_at.checked_add(STAKE_COOLDOWN_PERIOD) {
        Some(unlock_time) => now >= unlock_time,
        None => false,
    };
    if !unlocked {
        return Err(SocraticError::StakeCooldownActive);
    }
    let balance: u64 = match ctx.user_account.token_balance.checked_add(ctx.stake_record.amount) {
        Some(b) => b,
        None => {
            return Err(SocraticError::ArithmeticOverflow);
        },
    };
    ctx.user_account.token_balance = balance;
    ctx.stake_record.is_active = false;
    Ok(())
}

} // verus!
