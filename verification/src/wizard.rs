//! The account-creation wizard.
//!
//! A finite-state machine driven once per frame: data entry steps advance on
//! the user's Continue, the creation step hands its slow work to a background
//! task through the async-result cache, and completion registers the new
//! account into the shared registry exactly once.  Re-entering any state on a
//! later frame is harmless: duplicate creation submissions coalesce in the
//! cache, and a consumed creation result is never applied twice.

use vstd::prelude::*;

use crate::cache::{begin_step, take_step, AsyncResultCache};
use crate::registry::{AccountId, AccountRegistry};

verus! {

/// Operation key naming the wizard's account-creation task.
pub const WALLET_CREATE_KEY: u64 = 1;

/// What a successful account creation produced.  Exactly one variant applies
/// per creation, and every variant carries the created account's handle: the
/// artifact eventually registered with the application.
#[derive(Clone, Debug, PartialEq)]
pub enum CreationData {
    /// An account derived from a seed phrase; the mnemonic is present until
    /// it has been shown and confirmed.
    Bip32 { mnemonic: Option<String>, account: AccountId },
    /// An account imported from a bare private key.
    Keypair { private_key: String, account: AccountId },
    /// A multi-signature account and the mnemonics of its cosigners.
    MultiSig { mnemonics: Vec<String>, account: AccountId },
}

impl CreationData {
    /// The created account's handle, whichever way it was created.
    pub open spec fn account_spec(&self) -> AccountId {
        match self {
            CreationData::Bip32 { account, .. } => *account,
            CreationData::Keypair { account, .. } => *account,
            CreationData::MultiSig { account, .. } => *account,
        }
    }

    /// The created account's handle, whichever way it was created.
    pub fn account(&self) -> (r: AccountId)
        ensures
            r == self.account_spec(),
    {
        match self {
            CreationData::Bip32 { account, .. } => *account,
            CreationData::Keypair { account, .. } => *account,
            CreationData::MultiSig { account, .. } => *account,
        }
    }
}

/// The wizard's position in the creation dialogue.
#[derive(Clone, Debug, PartialEq)]
pub enum State {
    Start,
    PrivateKeyCreate,
    PrivateKeyConfirm,
    AccountName,
    PaymentSecret,
    CreateAccount,
    /// Creation failed; the message is displayed until the user restarts.
    AccountError(String),
    /// Creation succeeded; the data is shown for the user to write down.
    PresentMnemonic(CreationData),
    /// The user is asked to confirm the mnemonic just presented.
    ConfirmMnemonic(CreationData),
    /// The account is ready to be registered on the user's final Continue.
    Finish(AccountId),
}

/// The user's in-progress input, owned by the wizard while it is open.
#[derive(Clone, Debug, PartialEq)]
pub struct Context {
    pub account_title: String,
    pub enable_payment_secret: bool,
    pub payment_secret: String,
    pub payment_secret_confirm: String,
}

/// The optional payment secret and its confirmation agree; both empty counts
/// as agreement, since the secret is optional.
pub open spec fn secrets_match(args: Context) -> bool {
    args.payment_secret@ == args.payment_secret_confirm@
}

/// Where Continue leads from each state.  The payment-secret step is gated:
/// it advances only while secret and confirmation agree.  The asynchronous
/// states and the terminal steps do not advance on Continue: creation is
/// driven by the cache, an error only offers Restart, and Finish goes through
/// registration.
pub open spec fn advance_spec(st: State, args: Context) -> State {
    match st {
        State::Start => State::AccountName,
        State::AccountName => State::PaymentSecret,
        State::PaymentSecret => if secrets_match(args) {
            State::CreateAccount
        } else {
            State::PaymentSecret
        },
        State::PresentMnemonic(d) => State::ConfirmMnemonic(d),
        State::ConfirmMnemonic(d) => State::Finish(d.account_spec()),
        _ => st,
    }
}

/// Where Back leads from each state.
pub open spec fn back_spec(st: State) -> State {
    match st {
        State::AccountName => State::Start,
        State::PaymentSecret => State::AccountName,
        State::ConfirmMnemonic(d) => State::PresentMnemonic(d),
        _ => st,
    }
}

/// Where Restart leads: only the error state restarts.
pub open spec fn restart_spec(st: State) -> State {
    match st {
        State::AccountError(_) => State::Start,
        _ => st,
    }
}

/// The account-creation wizard: captured input plus the current state.
#[derive(Debug)]
pub struct AccountCreate {
    pub args: Context,
    pub state: State,
}

impl AccountCreate {
    /// A fresh wizard: at the start, with empty input.
    pub fn new() -> (r: Self)
        ensures
            r.state is Start,
            r.args.account_title@ == Seq::<char>::empty(),
            r.args.enable_payment_secret == false,
            r.args.payment_secret@ == Seq::<char>::empty(),
            r.args.payment_secret_confirm@ == Seq::<char>::empty(),
    {
        AccountCreate {
            args: Context {
                account_title: String::new(),
                enable_payment_secret: false,
                payment_secret: String::new(),
                payment_secret_confirm: String::new(),
            },
            state: State::Start,
        }
    }

    /// The user pressed Continue: advances per [`advance_spec`].  With a
    /// mismatched payment secret the wizard stays on the payment-secret step.
    pub fn advance(&mut self)
        ensures
            final(self).state == advance_spec(old(self).state, old(self).args),
            final(self).args == old(self).args,
    {
        let mut st = State::Start;
        core::mem::swap(&mut self.state, &mut st);
        self.state = match st {
            State::Start => State::AccountName,
            State::AccountName => State::PaymentSecret,
            State::PaymentSecret => {
                if self.args.payment_secret == self.args.payment_secret_confirm {
                    State::CreateAccount
                } else {
                    State::PaymentSecret
                }
            },
            State::PresentMnemonic(d) => State::ConfirmMnemonic(d),
            State::ConfirmMnemonic(d) => State::Finish(d.account()),
            other => other,
        };
    }

    /// The user pressed Back: returns per [`back_spec`].
    pub fn back(&mut self)
        ensures
            final(self).state == back_spec(old(self).state),
            final(self).args == old(self).args,
    {
        let mut st = State::Start;
        core::mem::swap(&mut self.state, &mut st);
        self.state = match st {
            State::AccountName => State::Start,
            State::PaymentSecret => State::AccountName,
            State::ConfirmMnemonic(d) => State::PresentMnemonic(d),
            other => other,
        };
    }

    /// The user pressed Restart on the error screen: returns to the start.
    pub fn restart(&mut self)
        ensures
            final(self).state == restart_spec(old(self).state),
            final(self).args == old(self).args,
    {
        let mut st = State::Start;
        core::mem::swap(&mut self.state, &mut st);
        self.state = match st {
            State::AccountError(_) => State::Start,
            other => other,
        };
    }

    /// The check a creation task runs before it calls the wallet runtime:
    /// enabling the payment secret and leaving it empty fails fast, so no
    /// partial wallet state is ever committed.
    pub fn creation_precheck(args: &Context) -> (r: Result<(), String>)
        ensures
            r is Err <==> (args.enable_payment_secret && args.payment_secret@.len() == 0),
            r is Err ==> r->Err_0@ == "Payment secret is empty"@,
    {
        if args.enable_payment_secret && args.payment_secret.as_str().unicode_len() == 0 {
            Err(String::from_str("Payment secret is empty"))
        } else {
            Ok(())
        }
    }

    /// Entering the creation state on a frame: if the creation slot shows
    /// neither an outstanding task nor an unconsumed result, marks it pending
    /// and tells the caller to schedule the creation task; repeated entries
    /// on later frames coalesce.
    pub fn drive_create(&self, cache: &mut AsyncResultCache<CreationData>) -> (spawn: bool)
        requires
            self.state is CreateAccount,
            old(cache).wf(),
        ensures
            final(cache).wf(),
            final(cache)@ == begin_step(old(cache)@, WALLET_CREATE_KEY).0,
            spawn == begin_step(old(cache)@, WALLET_CREATE_KEY).1,
    {
        cache.begin(WALLET_CREATE_KEY)
    }

    /// Polling the creation state on a frame: consumes the creation outcome
    /// if one has been delivered and transitions accordingly — success
    /// presents the mnemonic, failure shows the error.  With no outcome yet
    /// the wizard stays where it is, and a consumed outcome is never applied
    /// again on a later frame.
    pub fn poll_create(&mut self, cache: &mut AsyncResultCache<CreationData>)
        requires
            old(self).state is CreateAccount,
            old(cache).wf(),
        ensures
            final(cache).wf(),
            final(cache)@ == take_step(old(cache)@, WALLET_CREATE_KEY).0,
            final(self).args == old(self).args,
            final(self).state == match take_step(old(cache)@, WALLET_CREATE_KEY).1 {
                Some(Ok(d)) => State::PresentMnemonic(d),
                Some(Err(e)) => State::AccountError(e),
                Option::None => old(self).state,
            },
    {
        match cache.take(WALLET_CREATE_KEY) {
            Some(Ok(d)) => {
                self.state = State::PresentMnemonic(d);
            },
            Some(Err(e)) => {
                self.state = State::AccountError(e);
            },
            Option::None => {},
        }
    }

    /// The user's final Continue: registers the created account into the
    /// shared registry and returns the wizard to the start.  The state
    /// machine reaches `Finish` at most once per successful creation, so the
    /// insert happens exactly once.
    pub fn finish(&mut self, registry: &mut AccountRegistry) -> (account: AccountId)
        requires
            old(self).state is Finish,
        ensures
            account == old(self).state->Finish_0,
            final(registry)@ == old(registry)@.push(account),
            final(self).state is Start,
            final(self).args == old(self).args,
    {
        let account = match &self.state {
            State::Finish(a) => *a,
            _ => 0,
        };
        registry.insert(account);
        self.state = State::Start;
        account
    }
}

} // verus!
