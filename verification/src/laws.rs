//! Laws of the ledger, stated over the transitions' specification functions
//! and proved once for every context and every argument.

use vstd::prelude::*;
use crate::access::owns_stake;
use crate::contexts::{
    ChatQuery, GenerateQuiz, InitializeUser, PurchaseTokens, ShareDocument, StakeTokens,
    UnstakeTokens, UploadDocument,
};
use crate::error::SocraticError;
use crate::fees::{
    CHAT_QUERY_COST, MINIMUM_STAKE_AMOUNT, QUIZ_GENERATION_COST, SHARE_DOCUMENT_COST,
    TOKEN_EXCHANGE_RATE, UPLOAD_DOCUMENT_COST,
};
use crate::processor::{
    chat_query_next, chat_query_outcome, cooldown_elapsed, generate_quiz_creates,
    generate_quiz_next, initialize_user_next, purchase_tokens_next, purchase_tokens_outcome,
    share_document_next, share_document_outcome, stake_tokens_creates, stake_tokens_next,
    stake_tokens_outcome, unstake_tokens_next, unstake_tokens_outcome, upload_document_next,
    upload_document_outcome,
};
use crate::state::{DocumentRecord, UserAccount};

verus! {

/// A transition that charges never overdraws: where it commits, the balance
/// afterwards is the balance before less the charge, as a mathematical
/// integer and so not below zero; where it does not, the balance is the one
/// before. An upload, a query and a change of access level commit where they
/// are accepted; a quiz and a stake commit where they create their record.
pub proof fn law_charges_never_overdraw(
    upload: UploadDocument,
    query: ChatQuery,
    share: ShareDocument,
    quiz: GenerateQuiz,
    stake: StakeTokens,
    text: String,
    level: u8,
    index: u64,
    now: i64,
    amount: u64,
    timestamp: u64,
)
    ensures
        upload_document_next(upload, text, level, index, now).user_account.token_balance == (
        if upload_document_outcome(upload, index) is Ok {
            upload.user_account.token_balance - UPLOAD_DOCUMENT_COST
        } else {
            upload.user_account.token_balance as int
        }),
        chat_query_next(query, text, index, now).user_account.token_balance == (
        if chat_query_outcome(query, index) is Ok {
            query.user_account.token_balance - CHAT_QUERY_COST
        } else {
            query.user_account.token_balance as int
        }),
        share_document_next(share, level).user_account.token_balance == (
        if share_document_outcome(share) is Ok {
            share.user_account.token_balance - SHARE_DOCUMENT_COST
        } else {
            share.user_account.token_balance as int
        }),
        generate_quiz_next(quiz, text, timestamp).user_account.token_balance == (
        if generate_quiz_creates(quiz) {
            quiz.user_account.token_balance - QUIZ_GENERATION_COST
        } else {
            quiz.user_account.token_balance as int
        }),
        stake_tokens_next(stake, amount, timestamp).user_account.token_balance == (
        if stake_tokens_creates(stake, amount) {
            stake.user_account.token_balance - amount
        } else {
            stake.user_account.token_balance as int
        }),
{
}

/// A transition that credits never wraps: where it is accepted, the balance
/// afterwards is the balance before plus the credit, as a mathematical
/// integer; where it is rejected, the balance is the one before.
pub proof fn law_credits_never_wrap(
    purchase: PurchaseTokens,
    unstake: UnstakeTokens,
    sol_amount: u64,
    now: i64,
)
    ensures
        purchase_tokens_next(purchase, sol_amount).user_account.token_balance == (
        if purchase_tokens_outcome(purchase, sol_amount) is Ok {
            purchase.user_account.token_balance + sol_amount * TOKEN_EXCHANGE_RATE
        } else {
            purchase.user_account.token_balance as int
        }),
        unstake_tokens_next(unstake, now).user_account.token_balance == (
        if unstake_tokens_outcome(unstake, now) is Ok {
            unstake.user_account.token_balance + unstake.stake_record.amount
        } else {
            unstake.user_account.token_balance as int
        }),
{
}

/// An upload is accepted only at the index that equals the account's count of
/// uploads. At any other index it is rejected as an invalid document index,
/// and nothing changes.
pub proof fn law_upload_needs_current_index(
    ctx: UploadDocument,
    pdf_hash: String,
    access_level: u8,
    document_index: u64,
    now: i64,
)
    ensures
        upload_document_outcome(ctx, document_index) is Ok ==> document_index
            == ctx.user_account.documents_uploaded,
        document_index != ctx.user_account.documents_uploaded ==> upload_document_outcome(
            ctx,
            document_index,
        ) == Err::<(), SocraticError>(SocraticError::InvalidDocumentIndex),
        !(upload_document_outcome(ctx, document_index) is Ok) ==> upload_document_next(
            ctx,
            pdf_hash,
            access_level,
            document_index,
            now,
        ) == ctx,
{
}

/// A query is accepted only at the index that equals the account's count of
/// queries. At any other index it is rejected as an invalid query index, and
/// nothing changes.
pub proof fn law_query_needs_current_index(
    ctx: ChatQuery,
    query_text: String,
    query_index: u64,
    now: i64,
)
    ensures
        chat_query_outcome(ctx, query_index) is Ok ==> query_index == ctx.user_account.queries_made,
        query_index != ctx.user_account.queries_made ==> chat_query_outcome(ctx, query_index)
            == Err::<(), SocraticError>(SocraticError::InvalidQueryIndex),
        !(chat_query_outcome(ctx, query_index) is Ok) ==> chat_query_next(
            ctx,
            query_text,
            query_index,
            now,
        ) == ctx,
{
}

/// Uploads are numbered in order. An accepted upload at an index raises the
/// count of uploads to the index plus one and leaves the count of queries.
/// In the state it leaves, the same index is refused as used, and the only
/// index at which a further upload can be accepted is the next one.
pub proof fn law_uploads_in_sequence(
    ctx: UploadDocument,
    pdf_hash: String,
    access_level: u8,
    document_index: u64,
    now: i64,
    later_index: u64,
)
    requires
        upload_document_outcome(ctx, document_index) is Ok,
    ensures
        ({
            let after = upload_document_next(ctx, pdf_hash, access_level, document_index, now);
            &&& after.user_account.documents_uploaded == document_index + 1
            &&& after.user_account.documents_uploaded == ctx.user_account.documents_uploaded + 1
            &&& after.user_account.queries_made == ctx.user_account.queries_made
            &&& upload_document_outcome(after, document_index) == Err::<(), SocraticError>(
                SocraticError::InvalidDocumentIndex,
            )
            &&& upload_document_outcome(after, later_index) is Ok ==> later_index == document_index
                + 1
        }),
{
}

/// Queries are numbered in order. An accepted query at an index raises the
/// count of queries to the index plus one and leaves the count of uploads.
/// In the state it leaves, the same index is refused as used, and the only
/// index at which a further query can be accepted is the next one.
pub proof fn law_queries_in_sequence(
    ctx: ChatQuery,
    query_text: String,
    query_index: u64,
    now: i64,
    later_index: u64,
)
    requires
        chat_query_outcome(ctx, query_index) is Ok,
    ensures
        ({
            let after = chat_query_next(ctx, query_text, query_index, now);
            &&& after.user_account.queries_made == query_index + 1
            &&& after.user_account.queries_made == ctx.user_account.queries_made + 1
            &&& after.user_account.documents_uploaded == ctx.user_account.documents_uploaded
            &&& chat_query_outcome(after, query_index) == Err::<(), SocraticError>(
                SocraticError::InvalidQueryIndex,
            )
            &&& chat_query_outcome(after, later_index) is Ok ==> later_index == query_index + 1
        }),
{
}

/// The context in which the owner of a stake asks to withdraw it.
pub open spec fn withdrawal_of(staked: StakeTokens) -> UnstakeTokens
    recommends
        staked.stake_record is Some,
{
    UnstakeTokens {
        user_account: staked.user_account,
        stake_record: staked.stake_record.unwrap(),
        user: staked.user,
    }
}

/// A stake is locked for the cooldown. When the staker asks to withdraw a
/// stake that a request has created before the cooldown has passed, the
/// request is refused as still cooling down and the balance stays. Once the
/// cooldown has passed the request is accepted, the balance is again what it
/// was before the stake, so exactly the staked amount came back, and the
/// stake is spent.
pub proof fn law_stake_locked_until_cooldown(
    ctx: StakeTokens,
    amount: u64,
    timestamp: u64,
    now: i64,
)
    requires
        stake_tokens_creates(ctx, amount),
    ensures
        ({
            let staked = stake_tokens_next(ctx, amount, timestamp);
            let request = withdrawal_of(staked);
            let after = unstake_tokens_next(request, now);
            &&& staked.user_account.token_balance == ctx.user_account.token_balance - amount
            &&& staked.stake_record is Some
            &&& request.stake_record.amount == amount
            &&& request.stake_record.is_active
            &&& !cooldown_elapsed(request.stake_record.staked_at, now) ==> {
                &&& unstake_tokens_outcome(request, now) == Err::<(), SocraticError>(
                    SocraticError::StakeCooldownActive,
                )
                &&& after == request
                &&& after.user_account.token_balance == staked.user_account.token_balance
            }
            &&& cooldown_elapsed(request.stake_record.staked_at, now) ==> {
                &&& unstake_tokens_outcome(request, now) is Ok
                &&& after.user_account.token_balance == staked.user_account.token_balance + amount
                &&& after.user_account.token_balance == ctx.user_account.token_balance
                &&& !after.stake_record.is_active
            }
        }),
{
    let staked = stake_tokens_next(ctx, amount, timestamp);
    assert(owns_stake(staked.user, staked.stake_record.unwrap()));
}

/// A purchase that is accepted raises the balance by exactly the amount paid
/// times the exchange rate, and changes nothing else. A purchase whose
/// product does not fit the balance's type, or whose credit would not fit on
/// top of the balance, is refused as an overflow and changes nothing.
pub proof fn law_purchase_mints_exactly(ctx: PurchaseTokens, sol_amount: u64)
    ensures
        ({
            let after = purchase_tokens_next(ctx, sol_amount);
            let fits = ctx.user_account.token_balance + sol_amount * 1000 <= u64::MAX;
            &&& fits <==> purchase_tokens_outcome(ctx, sol_amount) is Ok
            &&& fits ==> after.user_account.token_balance == ctx.user_account.token_balance
                + sol_amount * 1000
            &&& fits ==> after == (PurchaseTokens {
                user_account: ctx.user_account.credited((sol_amount * 1000) as u64),
                ..ctx
            })
            &&& !fits ==> purchase_tokens_outcome(ctx, sol_amount) == Err::<(), SocraticError>(
                SocraticError::ArithmeticOverflow,
            )
            &&& !fits ==> after == ctx
        }),
{
}

/// Initialising is idempotent. Where the account exists, initialising keeps
/// it as it is, balance and counters included; and initialising twice, at
/// whatever times, leaves what initialising once left.
pub proof fn law_initialize_is_idempotent(ctx: InitializeUser, now: i64, later: i64)
    ensures
        ctx.user_account is Some ==> initialize_user_next(ctx, now) == ctx,
        initialize_user_next(ctx, now).user_account is Some,
        initialize_user_next(initialize_user_next(ctx, now), later) == initialize_user_next(
            ctx,
            now,
        ),
{
}

/// A stake below the minimum is refused as too small, whatever the balance,
/// and changes nothing.
pub proof fn law_small_stake_refused(ctx: StakeTokens, amount: u64, timestamp: u64)
    requires
        amount < MINIMUM_STAKE_AMOUNT,
    ensures
        stake_tokens_outcome(ctx, amount) == Err::<(), SocraticError>(
            SocraticError::InsufficientStakeAmount,
        ),
        stake_tokens_next(ctx, amount, timestamp) == ctx,
{
}

/// Whether an account has kept its owner, its reputation score and its time
/// of creation, and neither of its counters has fallen.
pub open spec fn account_carried_on(before: UserAccount, after: UserAccount) -> bool {
    &&& after.owner == before.owner
    &&& after.reputation_score == before.reputation_score
    &&& after.created_at == before.created_at
    &&& after.documents_uploaded >= before.documents_uploaded
    &&& after.queries_made >= before.queries_made
}

/// Whether two states of an account differ in the balance at most.
pub open spec fn only_balance_moved(before: UserAccount, after: UserAccount) -> bool {
    after == (UserAccount { token_balance: after.token_balance, ..before })
}

/// Every transition carries the account on: owner, reputation score and time
/// of creation stay, and no counter falls. Only an upload moves the count of
/// uploads and only a query the count of queries; the six other transitions
/// leave both counts as they are.
pub proof fn law_counters_never_fall(
    upload: UploadDocument,
    query: ChatQuery,
    purchase: PurchaseTokens,
    share: ShareDocument,
    quiz: GenerateQuiz,
    stake: StakeTokens,
    unstake: UnstakeTokens,
    text: String,
    level: u8,
    index: u64,
    now: i64,
    amount: u64,
    timestamp: u64,
)
    ensures
        account_carried_on(
            upload.user_account,
            upload_document_next(upload, text, level, index, now).user_account,
        ),
        upload_document_next(upload, text, level, index, now).user_account.queries_made
            == upload.user_account.queries_made,
        account_carried_on(
            query.user_account,
            chat_query_next(query, text, index, now).user_account,
        ),
        chat_query_next(query, text, index, now).user_account.documents_uploaded
            == query.user_account.documents_uploaded,
        only_balance_moved(
            purchase.user_account,
            purchase_tokens_next(purchase, amount).user_account,
        ),
        only_balance_moved(share.user_account, share_document_next(share, level).user_account),
        only_balance_moved(
            quiz.user_account,
            generate_quiz_next(quiz, text, timestamp).user_account,
        ),
        only_balance_moved(
            stake.user_account,
            stake_tokens_next(stake, amount, timestamp).user_account,
        ),
        only_balance_moved(unstake.user_account, unstake_tokens_next(unstake, now).user_account),
{
}

/// Sharing changes a document in its access level only: owner, hash, upload
/// time, cost, download count and the active flag stay as they were.
pub proof fn law_sharing_changes_the_level_only(ctx: ShareDocument, new_access_level: u8)
    ensures
        ({
            let after = share_document_next(ctx, new_access_level);
            &&& after.user == ctx.user
            &&& share_document_outcome(ctx) is Ok ==> after.document_record == (DocumentRecord {
                access_level: new_access_level,
                ..ctx.document_record
            })
            &&& !(share_document_outcome(ctx) is Ok) ==> after.document_record
                == ctx.document_record
        }),
{
}

/// A stored stake or quiz is never written over. Whatever is asked, and
/// whether the request is accepted or refused, a request whose slot holds a
/// record leaves the whole context as it was: the record stays, and nothing
/// is taken from the balance.
pub proof fn law_occupied_slot_is_kept(
    stake: StakeTokens,
    quiz: GenerateQuiz,
    amount: u64,
    timestamp: u64,
    document_hash: String,
)
    ensures
        stake.stake_record is Some ==> stake_tokens_next(stake, amount, timestamp) == stake,
        quiz.quiz_record is Some ==> generate_quiz_next(quiz, document_hash, timestamp) == quiz,
{
}

/// A quiz is created once per slot. A granted request on a free slot stores a
/// private quiz of the caller and charges the fee; asking again on the slot
/// it filled, with whatever document, changes nothing more.
pub proof fn law_quiz_created_once(
    ctx: GenerateQuiz,
    document_hash: String,
    timestamp: u64,
    other_hash: String,
)
    requires
        generate_quiz_creates(ctx),
    ensures
        ({
            let created = generate_quiz_next(ctx, document_hash, timestamp);
            &&& created.quiz_record is Some
            &&& created.quiz_record.unwrap().creator == ctx.user
            &&& created.quiz_record.unwrap().document_hash == document_hash
            &&& !created.quiz_record.unwrap().is_public
            &&& created.user_account.token_balance == ctx.user_account.token_balance
                - QUIZ_GENERATION_COST
            &&& generate_quiz_next(created, other_hash, timestamp) == created
        }),
{
}

} // verus!
