use scarab::contracts::accounts::Accounts;
use scarab::contracts::blob::Blob;
use scarab::contracts::blob::ReservedField;
use scarab::contracts::erc20::impls::Burnt;
use scarab::contracts::erc20::impls::Export;
use scarab::contracts::erc20::impls::LedgerError;
use scarab::contracts::erc20::impls::ERC20;
use scarab::contracts::erc20::Approval;
use scarab::contracts::erc20::Token;
use scarab::contracts::erc20::Transfer;
use scarab::contracts::eventlog::EventFilter;
use scarab::contracts::eventlog::EventLog;
use scarab::contracts::eventlog::FilterParam;
use scarab::contracts::root::ContractRecord;
use scarab::contracts::root::Deploy;
use scarab::contracts::root::Fee;
use scarab::contracts::root::FeeError;
use scarab::contracts::root::FeeParam;
use scarab::contracts::root::Root;
use scarab::decoder::Decoder;
use scarab::traits::encode::Decode;
use scarab::traits::encode::Encode;
use scarab::traits::zero::Zero;
use scarab::types::ScAgentId;
use scarab::types::ScColor;
use scarab::types::ScHash;
use scarab::types::ScHname;
use scarab::utils::withdraw;
use scarab::utils::withdraw::WithdrawError;

fn agent(byte: u8) -> ScAgentId {
    ScAgentId::filled(byte)
}

#[test]
fn event_filter_sets_only_nonzero_conditions() {
    assert_eq!(EventFilter::new().params(), vec![]);
    assert_eq!(EventFilter::default().params(), vec![]);
    let filter = EventFilter::new().from(10).to(20).count(30);
    assert_eq!(
        filter.params(),
        vec![
            (FilterParam::MaxLastRecords, 30),
            (FilterParam::ToTs, 20),
            (FilterParam::FromTs, 10),
        ]
    );
    let cleared = filter.to(0);
    assert_eq!(
        cleared.params(),
        vec![(FilterParam::MaxLastRecords, 30), (FilterParam::FromTs, 10)]
    );
    assert_eq!(EventFilter::new().from(0).count(0).to(-1).params(), vec![(FilterParam::ToTs, -1)]);
    assert_eq!(FilterParam::MaxLastRecords.key(), "maxLastRecords");
    assert_eq!(FilterParam::ToTs.key(), "toTs");
    assert_eq!(FilterParam::FromTs.key(), "fromTs");
}

#[test]
fn fee_builder() {
    assert!(Fee::new().is_empty());
    assert!(Fee::default().is_empty());
    assert_eq!(Fee::new(), Fee::default());
    assert!(!Fee::new().owner(0).is_empty());
    assert!(!Fee::new().validator(7).is_empty());
    assert_eq!(Fee::new().params(), vec![]);
    assert_eq!(Fee::new().owner(5).params(), vec![(FeeParam::OwnerFee, 5)]);
    assert_eq!(
        Fee::new().validator(u32::MAX).owner(5).params(),
        vec![(FeeParam::OwnerFee, 5), (FeeParam::OwnerFee, i64::from(u32::MAX))]
    );
    assert_eq!(Fee::new().owner(1).owner(2), Fee::new().owner(2));
    assert_eq!(FeeParam::OwnerFee.key(), "$$ownerfee$$");
    assert_eq!(FeeParam::ValidatorFee.key(), "$$validatorfee$$");
}

#[test]
fn token_builder() {
    let token = Token::new("Scarab", "SCB");
    assert_eq!(token.name(), "Scarab");
    assert_eq!(token.symbol(), "SCB");
    assert_eq!(token.decimal_places(), 18);
    assert_eq!(Token::DECIMALS, 18);
    assert!(token.is_meta());
    assert!(!token.is_burnable());
    assert!(!token.is_mintable());
    let changed = token.decimals(6).meta(false).burn(true).mint(true);
    assert_eq!(changed.decimal_places(), 6);
    assert!(!changed.is_meta());
    assert!(changed.is_burnable());
    assert!(changed.is_mintable());
    assert_eq!(changed.name(), "Scarab");
    assert_eq!(changed.symbol(), "SCB");
    assert_eq!(changed.mint(false).burn(false).meta(true).decimals(18), token);
}

#[test]
fn token_exports() {
    let core = vec![
        Export::TotalSupply,
        Export::BalanceOf,
        Export::Transfer,
        Export::TransferFrom,
        Export::Approve,
        Export::Allowance,
    ];
    let plain = ERC20::new(Token::new("T", "T").meta(false));
    let mut expected = core.clone();
    expected.extend_from_slice(&[Export::Init, Export::BeforeTokenTransfer]);
    assert_eq!(plain.exports(), expected);

    let full = ERC20::new(Token::new("T", "T").burn(true));
    let mut expected = core.clone();
    expected.extend_from_slice(&[
        Export::Name,
        Export::Symbol,
        Export::Decimals,
        Export::Burn,
        Export::BurnFrom,
        Export::Init,
        Export::BeforeTokenTransfer,
    ]);
    assert_eq!(full.exports(), expected);
    assert_eq!(full.token(), Token::new("T", "T").burn(true));

    let names: Vec<&str> = full.exports().iter().map(|export| export.name()).collect();
    assert_eq!(
        names,
        vec![
            "totalSupply",
            "balanceOf",
            "transfer",
            "transferFrom",
            "approve",
            "allowance",
            "name",
            "symbol",
            "decimals",
            "burn",
            "burnFrom",
            "init",
            "_beforeTokenTransfer",
        ]
    );
    let views: Vec<bool> = full.exports().iter().map(|export| export.is_view()).collect();
    assert_eq!(
        views,
        vec![true, true, false, false, false, true, true, true, true, false, false, false, false]
    );
}

#[test]
fn ledger_transfer() {
    let zero: ScAgentId = Zero::zero();
    let alice = agent(1);
    let bob = agent(2);
    let moved = ERC20::transfer(&alice, &bob, 100, 5, 30).unwrap();
    assert_eq!(moved.owner_balance, 70);
    assert_eq!(moved.to_balance, 35);
    assert_eq!(moved.event, Transfer::new(alice, bob, 30));

    let own = ERC20::transfer(&alice, &alice, 100, 100, 30).unwrap();
    assert_eq!((own.owner_balance, own.to_balance), (100, 100));

    let capped = ERC20::transfer(&alice, &bob, 10, i64::MAX - 1, 5).unwrap();
    assert_eq!((capped.owner_balance, capped.to_balance), (5, i64::MAX));

    assert_eq!(
        ERC20::transfer(&zero, &bob, 100, 0, 1).err(),
        Some(LedgerError::TransferFromZero)
    );
    assert_eq!(
        ERC20::transfer(&alice, &zero, 100, 0, 1).err(),
        Some(LedgerError::TransferToZero)
    );
    assert_eq!(
        ERC20::transfer(&zero, &zero, 100, 0, 1).err(),
        Some(LedgerError::TransferFromZero)
    );
    assert_eq!(
        ERC20::transfer(&alice, &bob, 29, 0, 30).err(),
        Some(LedgerError::TransferExceedsBalance)
    );
    assert!(ERC20::transfer(&alice, &bob, 30, 0, 30).is_ok());
}

#[test]
fn ledger_approve_and_spend() {
    let zero: ScAgentId = Zero::zero();
    let alice = agent(1);
    let bob = agent(2);
    assert_eq!(ERC20::approve(&alice, &bob, 9), Ok(Approval::new(alice, bob, 9)));
    assert_eq!(ERC20::approve(&zero, &bob, 9), Err(LedgerError::ApproveFromZero));
    assert_eq!(ERC20::approve(&alice, &zero, 9), Err(LedgerError::ApproveToZero));
    assert_eq!(ERC20::spend(10, 4, false), Ok(6));
    assert_eq!(ERC20::spend(10, 10, true), Ok(0));
    assert_eq!(ERC20::spend(3, 4, false), Err(LedgerError::TransferExceedsAllowance));
    assert_eq!(ERC20::spend(3, 4, true), Err(LedgerError::BurnExceedsAllowance));
}

#[test]
fn ledger_mint_and_burn() {
    let zero: ScAgentId = Zero::zero();
    let alice = agent(1);
    let minted = ERC20::mint(&alice, 1000, 10, 5).unwrap();
    assert_eq!((minted.supply, minted.balance), (1005, 15));
    assert_eq!(minted.event, Transfer::new(zero, alice, 5));
    let capped = ERC20::mint(&alice, i64::MAX, 0, 5).unwrap();
    assert_eq!((capped.supply, capped.balance), (i64::MAX, 5));
    assert_eq!(ERC20::mint(&zero, 0, 0, 5).err(), Some(LedgerError::MintToZero));

    assert_eq!(ERC20::burn(&alice, 1000, 10, 4), Ok(Burnt { supply: 996, balance: 6 }));
    assert_eq!(ERC20::burn(&alice, 1000, 3, 4), Err(LedgerError::BurnExceedsBalance));
    assert_eq!(ERC20::burn(&zero, 1000, 10, 4), Err(LedgerError::BurnFromZero));
    assert_eq!(ERC20::init_fixed(1), Ok(()));
    assert_eq!(ERC20::init_fixed(0), Err(LedgerError::InvalidTotal));
    assert_eq!(ERC20::init_fixed(-1), Err(LedgerError::InvalidTotal));
}

#[test]
fn ledger_messages() {
    assert_eq!(
        LedgerError::TransferFromZero.message(),
        "ERC20: transfer from the zero address"
    );
    assert_eq!(LedgerError::TransferToZero.message(), "ERC20: transfer to the zero address");
    assert_eq!(
        LedgerError::TransferExceedsBalance.message(),
        "ERC20: transfer amount exceeds balance"
    );
    assert_eq!(
        LedgerError::TransferExceedsAllowance.message(),
        "ERC20: transfer amount exceeds allowance"
    );
    assert_eq!(LedgerError::ApproveFromZero.message(), "ERC20: approve from the zero address");
    assert_eq!(LedgerError::ApproveToZero.message(), "ERC20: approve to the zero address");
    assert_eq!(LedgerError::MintToZero.message(), "ERC20: mint to the zero address");
    assert_eq!(LedgerError::BurnFromZero.message(), "ERC20: burn from the zero address");
    assert_eq!(LedgerError::BurnExceedsBalance.message(), "ERC20: burn amount exceeds balances");
    assert_eq!(
        LedgerError::BurnExceedsAllowance.message(),
        "ERC20: burn amount exceeds allowance"
    );
    assert_eq!(LedgerError::InvalidTotal.message(), "invalid param: `total`");
}

#[test]
fn events_are_their_fields_in_order() {
    let approval = Approval::new(agent(1), agent(2), -1);
    let wire = Encode::to_bytes(&approval);
    let mut expected = vec![1u8; 37];
    expected.extend_from_slice(&[2u8; 37]);
    expected.extend_from_slice(&[0xFF; 8]);
    assert_eq!(wire, expected);
    assert_eq!(<Approval as Decode>::from_bytes(&wire), approval);
    assert!(Approval::complete(&Decoder::new(&wire)));
    assert!(!Approval::complete(&Decoder::new(&wire[..81])));

    let transfer = Transfer::new(agent(2), agent(1), 10);
    let wire = Encode::to_bytes(&transfer);
    assert_eq!(&wire[..37], &[2u8; 37]);
    assert_eq!(&wire[37..74], &[1u8; 37]);
    assert_eq!(&wire[74..], &[0x0A, 0, 0, 0, 0, 0, 0, 0]);
    let mut decoder = Decoder::new(&wire);
    assert_eq!(Transfer::decode(&mut decoder), transfer);
    assert_eq!(decoder.left(), 0);
    assert_ne!(
        Encode::to_bytes(&Transfer::new(agent(1), agent(2), 10)),
        wire
    );
}

#[test]
fn contract_record_round_trip() {
    let record = ContractRecord::new(
        ScHash::filled(7),
        String::from("a token"),
        String::from("erc20"),
        3,
        -4,
        agent(9),
    );
    let wire = Encode::to_bytes(&record);
    let mut expected = vec![7u8; 32];
    expected.extend_from_slice(&[7, 0, 0, 0]);
    expected.extend_from_slice(b"a token");
    expected.extend_from_slice(&[5, 0, 0, 0]);
    expected.extend_from_slice(b"erc20");
    expected.extend_from_slice(&[3, 0, 0, 0, 0, 0, 0, 0]);
    expected.extend_from_slice(&[0xFC, 0xFF, 0xFF, 0xFF, 0xFF, 0xFF, 0xFF, 0xFF]);
    expected.extend_from_slice(&[9u8; 37]);
    assert_eq!(wire, expected);

    assert!(ContractRecord::complete(&Decoder::new(&wire)));
    assert!(!ContractRecord::complete(&Decoder::new(&wire[..wire.len() - 1])));
    assert!(!ContractRecord::complete(&Decoder::new(&wire[..40])));
    let back = <ContractRecord as Decode>::from_bytes(&wire);
    assert_eq!(back, record);
    assert_eq!(back.program_hash(), &ScHash::filled(7));
    assert_eq!(back.description(), "a token");
    assert_eq!(back.name(), "erc20");
    assert_eq!(back.owner_fee(), 3);
    assert_eq!(back.validator_fee(), -4);
    assert_eq!(back.creator(), &agent(9));

    let mut longer = wire.clone();
    longer.push(0xEE);
    let mut decoder = Decoder::new(&longer);
    assert_eq!(ContractRecord::decode(&mut decoder), record);
    assert_eq!(decoder.left(), 1);
}

#[test]
fn core_contract_names() {
    assert_eq!(Root::name(), "root");
    assert_eq!(Root::description(), "Root Contract");
    assert_eq!(Blob::name(), "blob");
    assert_eq!(Blob::description(), "Blob Contract");
    assert_eq!(Accounts::name(), "accounts");
    assert_eq!(Accounts::description(), "Chain account ledger contract");
}

#[test]
fn blob_rules() {
    assert_eq!(Blob::store(false, false, false), Ok(()));
    assert_eq!(Blob::store(true, true, true), Err(ReservedField::ProgramBinary));
    assert_eq!(Blob::store(false, true, true), Err(ReservedField::ProgramDescription));
    assert_eq!(Blob::store(false, false, true), Err(ReservedField::VmType));
    assert_eq!(ReservedField::ProgramBinary.message(), "reserved field: `p`");
    assert_eq!(ReservedField::ProgramDescription.message(), "reserved field: `d`");
    assert_eq!(ReservedField::VmType.message(), "reserved field: `v`");
    assert_eq!(ReservedField::ProgramBinary.key(), scarab::consts::CORE_BLOB_FIELD_PROGRAM_BINARY);
    assert_eq!(
        ReservedField::ProgramDescription.key(),
        scarab::consts::CORE_BLOB_FIELD_PROGRAM_DESCRIPTION
    );
    assert_eq!(ReservedField::VmType.key(), scarab::consts::CORE_BLOB_FIELD_VM_TYPE);
    assert!(Blob::is_wasm(b"wasmtimevm"));
    assert!(!Blob::is_wasm(b"wasmtimev"));
    assert!(!Blob::is_wasm(b"wasmtimevmx"));
    assert!(!Blob::is_wasm(b"wasmtimevn"));
    assert!(!Blob::is_wasm(b""));
}

#[test]
fn withdraw_rules() {
    assert_eq!(withdraw::contract_creator(true, true), Ok(()));
    assert_eq!(withdraw::contract_creator(false, true), Err(WithdrawError::Unauthorized));
    assert_eq!(withdraw::contract_creator(false, false), Err(WithdrawError::Unauthorized));
    assert_eq!(withdraw::contract_creator(true, false), Err(WithdrawError::BadAddress));
    assert_eq!(WithdrawError::Unauthorized.message(), "withdraw: unauthorized");
    assert_eq!(WithdrawError::BadAddress.message(), "withdraw: bad address");
    assert_eq!(withdraw::token(5), Some(5));
    assert_eq!(withdraw::token(0), None);
    assert_eq!(withdraw::token(-5), None);
    let red = ScColor::filled(1);
    let green = ScColor::filled(2);
    let blue = ScColor::filled(3);
    assert_eq!(
        withdraw::tokens(&[(red, 5), (green, 0), (blue, 7), (green, -1)]),
        vec![(red, 5), (blue, 7)]
    );
    assert_eq!(withdraw::tokens(&[]), vec![]);
}

#[test]
fn fee_requests() {
    assert_eq!(Root::set_default_fee(Fee::new()), Err(FeeError::EmptyDefaultFee));
    assert_eq!(
        Root::contract(&ScHname::filled(0)).set_fee(Fee::new()),
        Err(FeeError::EmptyContractFee)
    );
    assert_eq!(
        Root::set_default_fee(Fee::new().owner(3)),
        Ok(vec![(FeeParam::OwnerFee, 3)])
    );
    let hname = ScHname::from_bytes(&[1, 2, 3, 4]);
    let api = Root::contract(&hname);
    assert_eq!(api.contract(), &hname);
    assert_eq!(api.set_fee(Fee::new().validator(4)), Ok(vec![(FeeParam::OwnerFee, 4)]));
    assert_eq!(FeeError::EmptyDefaultFee.message(), "invalid default fee: empty");
    assert_eq!(FeeError::EmptyContractFee.message(), "invalid contract fee: empty");
}

#[test]
fn deployment_builder() {
    let program = ScHash::filled(4);
    let deploy = Deploy::new(&program, "token");
    assert_eq!(deploy.program(), &program);
    assert_eq!(deploy.name(), "token");
    assert_eq!(deploy.described(), "N/A");
    assert_eq!(deploy.description("a token").described(), "a token");
    assert_eq!(deploy.description("a token").name(), "token");
}

#[test]
fn event_log_of_a_contract() {
    let hname = ScHname::from_bytes(&[0xEF, 0xBE, 0xAD, 0xDE]);
    let log = EventLog::from_hname(hname);
    assert_eq!(log.hname(), hname);
    assert_eq!(EventLog::name(), "eventlog");
    assert_eq!(EventLog::description(), "Event log Contract");
    assert_eq!(
        log.filter(EventFilter::new().count(50)),
        vec![(FilterParam::MaxLastRecords, 50)]
    );
}
