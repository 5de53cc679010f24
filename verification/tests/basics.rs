use socratic_token::{
    create_room, is_account_owner, is_document_owner, is_stake_owner, mint_room_nft, CreateRoom,
    DocumentRecord, Identity, MintRoomNFT, SocraticError, StakeRecord, StudyRoom, UserAccount,
    CHAT_QUERY_COST,
    MINIMUM_STAKE_AMOUNT, QUIZ_GENERATION_COST, SHARE_DOCUMENT_COST, STAKE_COOLDOWN_PERIOD,
    TOKEN_EXCHANGE_RATE, UPLOAD_DOCUMENT_COST,
};

fn key(last: u8) -> Identity {
    let mut bytes = [1u8; 32];
    bytes[31] = last;
    Identity::new(bytes)
}

#[test]
fn fee_schedule_values() {
    assert_eq!(UPLOAD_DOCUMENT_COST, 10);
    assert_eq!(CHAT_QUERY_COST, 1);
    assert_eq!(QUIZ_GENERATION_COST, 5);
    assert_eq!(SHARE_DOCUMENT_COST, 2);
    assert_eq!(MINIMUM_STAKE_AMOUNT, 100);
    assert_eq!(TOKEN_EXCHANGE_RATE, 1000);
    assert_eq!(STAKE_COOLDOWN_PERIOD, 7 * 24 * 60 * 60);
}

#[test]
fn identities_compare_by_every_byte() {
    assert!(key(3).same(&key(3)));
    assert!(!key(3).same(&key(4)));
    let mut first = [1u8; 32];
    first[31] = 3;
    first[0] = 2;
    assert!(!key(3).same(&Identity::new(first)));
    assert_eq!(Identity::new(first).to_bytes(), first);
    for i in 0..32 {
        let mut bytes = [0u8; 32];
        bytes[i] = 1;
        assert!(!Identity::new(bytes).same(&Identity::new([0u8; 32])));
    }
}

#[test]
fn new_account_is_empty() {
    assert_eq!(
        UserAccount::new(key(1), 42),
        UserAccount {
            owner: key(1),
            token_balance: 0,
            documents_uploaded: 0,
            queries_made: 0,
            reputation_score: 0,
            created_at: 42,
        }
    );
}

#[test]
fn owners_are_let_through_and_strangers_are_not() {
    let account = UserAccount::new(key(1), 0);
    assert!(is_account_owner(&key(1), &account));
    assert!(!is_account_owner(&key(2), &account));

    let document = DocumentRecord {
        owner: key(1),
        pdf_hash: "QmDoc".to_string(),
        upload_timestamp: 0,
        token_cost: 10,
        access_level: 0,
        download_count: 0,
        is_active: true,
    };
    assert!(is_document_owner(&key(1), &document));
    assert!(!is_document_owner(&key(2), &document));

    let stake = StakeRecord { user: key(2), amount: 100, staked_at: 0, is_active: true };
    assert!(is_stake_owner(&key(2), &stake));
    assert!(!is_stake_owner(&key(1), &stake));
}

#[test]
fn error_messages() {
    assert_eq!(SocraticError::InsufficientTokens.message(), "Insufficient tokens to perform this action");
    assert_eq!(SocraticError::NotDocumentOwner.message(), "You are not the owner of this document");
    assert_eq!(SocraticError::InsufficientStakeAmount.message(), "Insufficient amount to stake");
    assert_eq!(SocraticError::StakeCooldownActive.message(), "Stake cooldown period is still active");
    assert_eq!(SocraticError::InvalidDocumentIndex.message(), "Invalid document index");
    assert_eq!(SocraticError::InvalidQueryIndex.message(), "Invalid query index");
    assert_eq!(SocraticError::NotStakeOwner.message(), "You are not the owner of this stake record");
    assert_eq!(SocraticError::ArithmeticOverflow.message(), "Arithmetic overflow occurred");
}

#[test]
fn room_is_created_for_its_owner() {
    let blank = StudyRoom { owner: Identity::new([0u8; 32]), name: String::new(), is_public: false };
    let mut ctx = CreateRoom { room: blank, owner: key(5) };
    create_room(&mut ctx, "Algebra".to_string(), true);
    assert_eq!(ctx.room, StudyRoom { owner: key(5), name: "Algebra".to_string(), is_public: true });
    assert_eq!(ctx.owner, key(5));
}

#[test]
fn minting_leaves_the_room_as_it_is() {
    let room = StudyRoom { owner: key(5), name: "Algebra".to_string(), is_public: true };
    let mut ctx = MintRoomNFT { room: room.clone(), owner: key(5) };
    mint_room_nft(&mut ctx, 17);
    assert_eq!(ctx, MintRoomNFT { room, owner: key(5) });
}
