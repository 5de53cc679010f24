//! A token-metered ledger for a document knowledge base.
//!
//! Every billable action is one atomic transition on a participant's account
//! and at most one record: it either commits all of its changes or changes
//! nothing and reports a typed error.

pub mod access;
pub mod contexts;
pub mod error;
pub mod fees;
pub mod identity;
pub mod laws;
pub mod processor;
pub mod state;
pub mod study_room;

pub use access::{is_account_owner, is_document_owner, is_stake_owner};
pub use contexts::{
    ChatQuery, GenerateQuiz, InitializeUser, PurchaseTokens, ShareDocument, StakeTokens,
    UnstakeTokens, UploadDocument,
};
pub use error::SocraticError;
pub use fees::{
    CHAT_QUERY_COST, MINIMUM_STAKE_AMOUNT, QUIZ_GENERATION_COST, SHARE_DOCUMENT_COST,
    STAKE_COOLDOWN_PERIOD, TOKEN_EXCHANGE_RATE, UPLOAD_DOCUMENT_COST,
};
pub use identity::Identity;
pub use processor::{
    chat_query, generate_quiz, initialize_user, purchase_tokens, share_document, signed_timestamp,
    stake_tokens, tokens_for_payment, unstake_tokens, upload_document,
};
pub use state::{DocumentRecord, QueryRecord, QuizRecord, StakeRecord, UserAccount};
pub use study_room::{create_room, mint_room_nft, CreateRoom, MintRoomNFT, StudyRoom};
