//! What each transition reads and writes: the caller's identity, the caller's
//! account, and at most one record. The host hands a transition exclusive
//! access to its context and stores the context back when it returns.

use vstd::prelude::*;
use crate::identity::Identity;
use crate::state::{DocumentRecord, QueryRecord, QuizRecord, StakeRecord, UserAccount};

verus! {

/// Context of `initialize_user`. The account slot is `None` while the
/// participant has no account.
#[derive(Clone, Copy, Debug, PartialEq, Eq)]
pub struct InitializeUser {
    pub user_account: Option<UserAccount>,
    pub user: Identity,
}

/// Context of `upload_document`. The document slot is the one addressed by
/// the caller and the request's index; the transition fills it only at the
/// index that follows the caller's last upload.
#[derive(Clone, Debug, PartialEq, Eq)]
pub struct UploadDocument {
    pub user_account: UserAccount,
    pub document_record: DocumentRecord,
    pub user: Identity,
}

/// Context of `chat_query`. The query slot is the one addressed by the
/// caller and the request's index; the transition fills it only at the index
/// that follows the caller's last query.
#[derive(Clone, Debug, PartialEq, Eq)]
pub struct ChatQuery {
    pub user_account: UserAccount,
    pub query_record: QueryRecord,
    pub user: Identity,
}

/// Context of `purchase_tokens`.
#[derive(Clone, Copy, Debug, PartialEq, Eq)]
pub struct PurchaseTokens {
    pub user_account: UserAccount,
    pub user: Identity,
}

/// Context of `share_document`.
#[derive(Clone, Debug, PartialEq, Eq)]
pub struct ShareDocument {
    pub user_account: UserAccount,
    pub document_record: DocumentRecord,
    pub user: Identity,
}

/// Context of `generate_quiz`. The quiz slot is the record stored for the
/// caller and the request's timestamp: `None` while none is stored there.
#[derive(Clone, Debug, PartialEq, Eq)]
pub struct GenerateQuiz {
    pub user_account: UserAccount,
    pub quiz_record: Option<QuizRecord>,
    pub user: Identity,
}

/// Context of `stake_tokens`. The stake slot is the record stored for the
/// caller and the request's timestamp: `None` while none is stored there.
#[derive(Clone, Copy, Debug, PartialEq, Eq)]
pub struct StakeTokens {
    pub user_account: UserAccount,
    pub stake_record: Option<StakeRecord>,
    pub user: Identity,
}

/// Context of `unstake_tokens`.
#[derive(Clone, Copy, Debug, PartialEq, Eq)]
pub struct UnstakeTokens {
    pub user_account: UserAccount,
    pub stake_record: StakeRecord,
    pub user: Identity,
}

} // verus!
