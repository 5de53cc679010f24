//! The entities of the ledger: one account per participant, and the records
//! that its transitions leave behind.

use vstd::prelude::*;
use crate::identity::Identity;

verus! {

/// A participant's ledger entry: the credit balance and the usage counters.
#[derive(Clone, Copy, Debug, PartialEq, Eq)]
pub struct UserAccount {
    pub owner: Identity,
    pub token_balance: u64,
    pub documents_uploaded: u64,
    pub queries_made: u64,
    pub reputation_score: u64,
    pub created_at: i64,
}

/// An uploaded document, addressed by its owner and its upload index.
#[derive(Clone, Debug, PartialEq, Eq)]
pub struct DocumentRecord {
    pub owner: Identity,
    pub pdf_hash: String,
    pub upload_timestamp: i64,
    pub token_cost: u64,
    pub access_level: u8,
    pub download_count: u64,
    pub is_active: bool,
}

/// A chat query, addressed by its user and its query index.
#[derive(Clone, Debug, PartialEq, Eq)]
pub struct QueryRecord {
    pub user: Identity,
    pub query_text: String,
    pub timestamp: i64,
    pub tokens_spent: u64,
}

/// A generated quiz, addressed by its creator and a timestamp.
#[derive(Clone, Debug, PartialEq, Eq)]
pub struct QuizRecord {
    pub creator: Identity,
    pub document_hash: String,
    pub created_at: i64,
    pub tokens_spent: u64,
    pub is_public: bool,
}

/// Credits locked by a participant, addressed by user and a timestamp.
#[derive(Clone, Copy, Debug, PartialEq, Eq)]
pub struct StakeRecord {
    pub user: Identity,
    pub amount: u64,
    pub staked_at: i64,
    pub is_active: bool,
}

impl UserAccount {
    /// The account of a participant who has done nothing yet.
    pub open spec fn fresh(owner: Identity, now: i64) -> UserAccount {
        UserAccount {
            owner,
            token_balance: 0,
            documents_uploaded: 0,
            queries_made: 0,
            reputation_score: 0,
            created_at: now,
        }
    }

    /// This account with `cost` credits taken from its balance.
    pub open spec fn debited(self, cost: u64) -> UserAccount
        recommends
            self.token_balance >= cost,
    {
        UserAccount { token_balance: (self.token_balance - cost) as u64, ..self }
    }

    /// This account with `amount` credits added to its balance.
    pub open spec fn credited(self, amount: u64) -> UserAccount
        recommends
            self.token_balance + amount <= u64::MAX,
    {
        UserAccount { token_balance: (self.token_balance + amount) as u64, ..self }
    }

    /// Creates the account of a participant who has done nothing yet.
    pub fn new(owner: Identity, now: i64) -> (account: UserAccount)
        ensures
            account == UserAccount::fresh(owner, now),
    {
        UserAccount {
            owner,
            token_balance: 0,
            documents_uploaded: 0,
            queries_made: 0,
            reputation_score: 0,
            created_at: now,
        }
    }
}

} // verus!
