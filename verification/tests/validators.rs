use escrow::{
    Account, Action, Address, AssociatedTokenAccount, EscrowError, MintInterface, ProgramAccount,
    SignerAccount,
};

const TOKEN_PROGRAM: [u8; 32] = [
    6, 221, 246, 225, 215, 101, 161, 147, 217, 203, 225, 70, 206, 235, 121, 172, 28, 180, 133, 237,
    95, 91, 55, 145, 58, 140, 245, 133, 126, 255, 0, 169,
];

fn id(n: u8) -> Address {
    Address::new_from_array([n; 32])
}

fn wallet(n: u8, is_signer: bool) -> Account {
    Account { address: id(n), owner: id(0), is_signer, data: Vec::new() }
}

fn token_program_account() -> Account {
    Account {
        address: Address::new_from_array(TOKEN_PROGRAM),
        owner: id(200),
        is_signer: false,
        data: Vec::new(),
    }
}

fn mint_account(n: u8) -> Account {
    Account {
        address: id(n),
        owner: Address::new_from_array(TOKEN_PROGRAM),
        is_signer: false,
        data: vec![0u8; 82],
    }
}

fn custody_data(mint: &Address, authority: &Address, amount: u64) -> Vec<u8> {
    let mut data = vec![0u8; 165];
    data[..32].copy_from_slice(&mint.to_bytes());
    data[32..64].copy_from_slice(&authority.to_bytes());
    data[64..72].copy_from_slice(&amount.to_le_bytes());
    data[108] = 1;
    data
}

fn custody_account(n: u8, mint: &Address, authority: &Address, amount: u64) -> Account {
    Account {
        address: id(n),
        owner: Address::new_from_array(TOKEN_PROGRAM),
        is_signer: false,
        data: custody_data(mint, authority, amount),
    }
}

#[test]
fn custody_service_is_the_token_program() {
    assert_eq!(pinocchio_token::ID.to_bytes(), TOKEN_PROGRAM);
    assert_eq!(pinocchio_token::state::Account::LEN, 165);
}

#[test]
fn signer_check_wants_a_signature() {
    assert_eq!(SignerAccount::check(&wallet(1, true)), Ok(()));
    assert_eq!(SignerAccount::check(&wallet(1, false)), Err(EscrowError::Unauthorized));
}

#[test]
fn mint_check_wants_the_custody_service_as_owner() {
    assert_eq!(MintInterface::check(&mint_account(2)), Ok(()));
    let mut foreign = mint_account(2);
    foreign.owner = id(0);
    assert_eq!(MintInterface::check(&foreign), Err(EscrowError::InvalidAccountOwner));
    let mut near = mint_account(2);
    let mut bytes = TOKEN_PROGRAM;
    bytes[31] ^= 1;
    near.owner = Address::new_from_array(bytes);
    assert_eq!(MintInterface::check(&near), Err(EscrowError::InvalidAccountOwner));
}

#[test]
fn custody_check_accepts_a_matching_account() {
    let authority = wallet(1, true);
    let mint = mint_account(2);
    let ata = custody_account(3, &mint.address, &authority.address, 1000);
    assert_eq!(AssociatedTokenAccount::check(&ata, &authority, &mint, &token_program_account()), Ok(()));
}

#[test]
fn custody_check_refuses_a_foreign_owner() {
    let authority = wallet(1, true);
    let mint = mint_account(2);
    let mut ata = custody_account(3, &mint.address, &authority.address, 1000);
    ata.owner = id(0);
    assert_eq!(
        AssociatedTokenAccount::check(&ata, &authority, &mint, &token_program_account()),
        Err(EscrowError::InvalidAccountOwner)
    );
}

#[test]
fn custody_check_refuses_a_wrong_size() {
    let authority = wallet(1, true);
    let mint = mint_account(2);
    for len in [0usize, 72, 164, 166] {
        let mut ata = custody_account(3, &mint.address, &authority.address, 1000);
        ata.data.resize(len, 0);
        assert_eq!(
            AssociatedTokenAccount::check(&ata, &authority, &mint, &token_program_account()),
            Err(EscrowError::InvalidAccountData)
        );
    }
}

#[test]
fn custody_check_refuses_another_asset() {
    let authority = wallet(1, true);
    let mint = mint_account(2);
    let ata = custody_account(3, &id(9), &authority.address, 1000);
    assert_eq!(
        AssociatedTokenAccount::check(&ata, &authority, &mint, &token_program_account()),
        Err(EscrowError::InvalidAccountData)
    );
}

#[test]
fn custody_check_refuses_another_authority() {
    let authority = wallet(1, true);
    let mint = mint_account(2);
    let ata = custody_account(3, &mint.address, &id(9), 1000);
    assert_eq!(
        AssociatedTokenAccount::check(&ata, &authority, &mint, &token_program_account()),
        Err(EscrowError::InvalidAccountData)
    );
}

#[test]
fn custody_check_refuses_a_counterfeit_service() {
    let authority = wallet(1, true);
    let mint = mint_account(2);
    let mut ata = custody_account(3, &mint.address, &authority.address, 1000);
    ata.owner = id(77);
    let mut service = token_program_account();
    service.address = id(77);
    assert_eq!(
        AssociatedTokenAccount::check(&ata, &authority, &mint, &service),
        Err(EscrowError::InvalidAccountData)
    );
}

#[test]
fn init_if_needed_names_each_account_in_its_role() {
    let ata = wallet(3, false);
    let mint = mint_account(2);
    let authority = wallet(1, false);
    let payer = wallet(4, true);
    let system_program = wallet(0, false);
    let token_program = token_program_account();
    let request = AssociatedTokenAccount::init_if_needed(
        &ata,
        &mint,
        &authority,
        &payer,
        &system_program,
        &token_program,
    );
    assert_eq!(
        request,
        Action::ProvisionAccount {
            payer: id(4),
            account: id(3),
            wallet: id(1),
            mint: id(2),
            system_program: id(0),
            token_program: Address::new_from_array(TOKEN_PROGRAM),
        }
    );
}

#[test]
fn record_check_accepts_a_record_of_the_program() {
    let record = Account { address: id(5), owner: id(42), is_signer: false, data: vec![0u8; 113] };
    assert_eq!(ProgramAccount::check(&record, &id(42)), Ok(()));
}

#[test]
fn record_check_refuses_a_foreign_owner() {
    let record = Account { address: id(5), owner: id(0), is_signer: false, data: vec![0u8; 113] };
    assert_eq!(ProgramAccount::check(&record, &id(42)), Err(EscrowError::InvalidAccountOwner));
}

#[test]
fn record_check_refuses_a_signer() {
    let record = Account { address: id(5), owner: id(42), is_signer: true, data: vec![0u8; 113] };
    assert_eq!(ProgramAccount::check(&record, &id(42)), Err(EscrowError::InvalidInstructionData));
}

#[test]
fn record_check_refuses_an_empty_slot() {
    let record = Account { address: id(5), owner: id(42), is_signer: false, data: Vec::new() };
    assert_eq!(ProgramAccount::check(&record, &id(42)), Err(EscrowError::InvalidAccountData));
}

#[test]
fn record_check_reports_the_owner_first() {
    let record = Account { address: id(5), owner: id(0), is_signer: true, data: Vec::new() };
    assert_eq!(ProgramAccount::check(&record, &id(42)), Err(EscrowError::InvalidAccountOwner));
    let signed = Account { address: id(5), owner: id(42), is_signer: true, data: Vec::new() };
    assert_eq!(ProgramAccount::check(&signed, &id(42)), Err(EscrowError::InvalidInstructionData));
}

#[test]
fn close_names_record_and_destination() {
    let record = Account { address: id(5), owner: id(42), is_signer: false, data: vec![0u8; 113] };
    assert_eq!(
        ProgramAccount::close(&record, &wallet(6, true)),
        Action::CloseRecord { record: id(5), destination: id(6) }
    );
}

#[test]
fn account_accessors_read_the_snapshot() {
    let account = Account { address: id(5), owner: id(42), is_signer: false, data: vec![1, 2, 3] };
    assert!(account.owned_by(&id(42)));
    assert!(!account.owned_by(&id(43)));
    assert_eq!(account.data_len(), 3);
    assert!(!account.is_data_empty());
    assert!(wallet(1, false).is_data_empty());
}

#[test]
fn custody_readers_follow_the_layout() {
    let data = custody_data(&id(2), &id(1), 0x0102_0304);
    assert_eq!(escrow::custody::read_mint(&data), id(2));
    assert_eq!(escrow::custody::read_authority(&data), id(1));
    assert_eq!(escrow::custody::read_amount(&data), 0x0102_0304);
}
