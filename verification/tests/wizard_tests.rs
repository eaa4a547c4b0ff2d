use kaspa_ng::cache::AsyncResultCache;
use kaspa_ng::registry::AccountRegistry;
use kaspa_ng::wizard::{AccountCreate, CreationData, State, WALLET_CREATE_KEY};

#[test]
fn wizard_full_creation_path() {
    let mut wizard = AccountCreate::new();
    let mut cache: AsyncResultCache<CreationData> = AsyncResultCache::new();
    let mut registry = AccountRegistry::new();

    assert_eq!(wizard.state, State::Start);
    wizard.advance();
    assert_eq!(wizard.state, State::AccountName);
    wizard.args.account_title = String::from("Savings");
    wizard.advance();
    assert_eq!(wizard.state, State::PaymentSecret);

    wizard.args.payment_secret = String::from("abc");
    wizard.args.payment_secret_confirm = String::from("abc");
    wizard.advance();
    assert_eq!(wizard.state, State::CreateAccount);

    // First frame in the creation state schedules the task; later frames
    // coalesce while it is outstanding.
    assert!(wizard.drive_create(&mut cache));
    assert!(!wizard.drive_create(&mut cache));
    wizard.poll_create(&mut cache);
    assert_eq!(wizard.state, State::CreateAccount);

    // The background task finishes; the creation task ran its precheck first.
    assert!(AccountCreate::creation_precheck(&wizard.args).is_ok());
    let data = CreationData::Bip32 {
        mnemonic: Some(String::from("abandon ability able")),
        account: 42,
    };
    cache.complete(WALLET_CREATE_KEY, Ok(data.clone()));
    wizard.poll_create(&mut cache);
    assert_eq!(wizard.state, State::PresentMnemonic(data.clone()));

    wizard.advance();
    assert_eq!(wizard.state, State::ConfirmMnemonic(data));
    wizard.advance();
    assert_eq!(wizard.state, State::Finish(42));

    let account = wizard.finish(&mut registry);
    assert_eq!(account, 42);
    assert_eq!(registry.list().as_slice(), &[42]);
    assert_eq!(wizard.state, State::Start);
}

#[test]
fn mismatched_secret_blocks_advancing() {
    let mut wizard = AccountCreate::new();
    wizard.advance();
    wizard.advance();
    assert_eq!(wizard.state, State::PaymentSecret);
    wizard.args.payment_secret = String::from("abc");
    wizard.args.payment_secret_confirm = String::from("abd");
    wizard.advance();
    // Still on the payment-secret step: no way into account creation.
    assert_eq!(wizard.state, State::PaymentSecret);
}

#[test]
fn matching_secrets_permit_advancing() {
    let mut wizard = AccountCreate::new();
    wizard.advance();
    wizard.advance();
    wizard.args.payment_secret = String::from("abc");
    wizard.args.payment_secret_confirm = String::from("abc");
    wizard.advance();
    assert_eq!(wizard.state, State::CreateAccount);
}

#[test]
fn empty_secrets_also_match() {
    // The payment secret is optional: empty and empty agree.
    let mut wizard = AccountCreate::new();
    wizard.advance();
    wizard.advance();
    wizard.advance();
    assert_eq!(wizard.state, State::CreateAccount);
}

#[test]
fn enabled_but_empty_payment_secret_fails_before_any_call() {
    let mut wizard = AccountCreate::new();
    wizard.args.enable_payment_secret = true;
    wizard.args.payment_secret = String::new();
    wizard.args.payment_secret_confirm = String::new();
    wizard.advance();
    wizard.advance();
    wizard.advance();
    assert_eq!(wizard.state, State::CreateAccount);

    let mut cache: AsyncResultCache<CreationData> = AsyncResultCache::new();
    assert!(wizard.drive_create(&mut cache));

    // The task runs the precheck before touching the wallet runtime: it
    // fails fast, and no runtime call is ever issued.
    let precheck = AccountCreate::creation_precheck(&wizard.args);
    let err = precheck.expect_err("an enabled empty payment secret must fail");
    assert_eq!(err, "Payment secret is empty");
    cache.complete(WALLET_CREATE_KEY, Err(err));

    wizard.poll_create(&mut cache);
    assert_eq!(
        wizard.state,
        State::AccountError(String::from("Payment secret is empty"))
    );
}

#[test]
fn restart_leaves_the_error_state() {
    let mut wizard = AccountCreate::new();
    wizard.state = State::AccountError(String::from("boom"));
    wizard.restart();
    assert_eq!(wizard.state, State::Start);
}

#[test]
fn back_retraces_data_entry() {
    let mut wizard = AccountCreate::new();
    wizard.advance();
    wizard.advance();
    assert_eq!(wizard.state, State::PaymentSecret);
    wizard.back();
    assert_eq!(wizard.state, State::AccountName);
    wizard.back();
    assert_eq!(wizard.state, State::Start);
}

#[test]
fn back_from_confirm_represents_mnemonic() {
    let data = CreationData::Keypair {
        private_key: String::from("private key material"),
        account: 7,
    };
    let mut wizard = AccountCreate::new();
    wizard.state = State::ConfirmMnemonic(data.clone());
    wizard.back();
    assert_eq!(wizard.state, State::PresentMnemonic(data));
}

#[test]
fn creation_data_account_handle() {
    let bip32 = CreationData::Bip32 {
        mnemonic: None,
        account: 1,
    };
    let keypair = CreationData::Keypair {
        private_key: String::from("k"),
        account: 2,
    };
    let multisig = CreationData::MultiSig {
        mnemonics: vec![String::from("a"), String::from("b")],
        account: 3,
    };
    assert_eq!(bip32.account(), 1);
    assert_eq!(keypair.account(), 2);
    assert_eq!(multisig.account(), 3);
}
