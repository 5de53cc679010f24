//! The fee schedule: what each action costs, and the staking rules.

use vstd::prelude::*;

verus! {

/// Credits charged for uploading one document.
pub const UPLOAD_DOCUMENT_COST: u64 = 10;

/// Credits charged for one chat query.
pub const CHAT_QUERY_COST: u64 = 1;

/// Credits charged for generating one quiz.
pub const QUIZ_GENERATION_COST: u64 = 5;

/// Credits charged for changing a document's access level.
pub const SHARE_DOCUMENT_COST: u64 = 2;

/// The smallest amount that can be staked.
pub const MINIMUM_STAKE_AMOUNT: u64 = 100;

/// Credits minted per unit of currency paid.
pub const TOKEN_EXCHANGE_RATE: u64 = 1000;

/// Seconds a stake stays locked: seven days.
pub const STAKE_COOLDOWN_PERIOD: i64 = 604800;

} // verus!
