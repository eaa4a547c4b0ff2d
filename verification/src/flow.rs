//! The send/transfer/estimate flow embedded in the account overview screen.
//!
//! A per-account controller re-entered once per frame.  It drives fee
//! estimation while the user edits amount and fee text, collects the wallet
//! secret (and, where the account demands one, a second passphrase), and
//! submits either a payment to a typed address or an internal transfer to
//! another of the wallet's accounts.  The slow calls themselves happen
//! outside: the functions here decide *whether* a request is issued and what
//! it carries, and fold the outcomes back into the flow's state.
//!
//! A failed submission is handed back to the caller to surface to the user;
//! the flow context itself is cleared after any completed submission, success
//! or failure alike.

use vstd::prelude::*;
use vstd::string::StrSliceExecFns;
use vstd::string::StringExecFns;

use crate::cache::{take_step, AsyncResultCache};
use crate::registry::{first_other_spec, AccountId, AccountRegistry};
use crate::validation::{
    parse_amount, parse_amount_spec, validate_address, address_network_of, AddressStatus,
    NetworkType, ParseError,
};

verus! {

/// Operation key naming the flow's submission task (send or transfer).
pub const SEND_RESULT_KEY: u64 = 2;

/// The flow's phase.  Exactly one is active at a time.
#[derive(Clone, Copy, Debug, PartialEq, Eq, Structural)]
pub enum Action {
    /// No transaction is being prepared.
    Idle,
    /// The user is entering amounts; estimates are being requested.
    Estimating,
    /// The user is entering secrets before submission.
    Sending,
    /// A submission is in flight; its outcome has not yet been observed.
    Processing,
}

impl Action {
    /// The flow owns the screen: a transaction is being prepared, submitted
    /// or awaited.
    pub open spec fn is_sending_spec(&self) -> bool {
        !(*self is Idle)
    }

    /// The flow owns the screen: a transaction is being prepared, submitted
    /// or awaited.
    pub fn is_sending(&self) -> (r: bool)
        ensures
            r == self.is_sending_spec(),
    {
        !matches!(self, Action::Idle)
    }
}

/// Whether funds leave to a typed address or move between own accounts.
#[derive(Clone, Copy, Debug, PartialEq, Eq, Structural)]
pub enum TransactionKind {
    Send,
    Transfer,
}

/// Which input field holds the cursor.
#[derive(Clone, Copy, Debug, PartialEq, Eq, Structural)]
pub enum Focus {
    Address,
    Amount,
    Fees,
    WalletSecret,
    PaymentSecret,
}

/// What the wallet runtime reported about a prospective transaction.
#[derive(Clone, Copy, Debug, PartialEq, Eq, Structural)]
pub struct GeneratorSummary {
    pub aggregated_fees: u64,
    pub final_transaction_amount: Option<u64>,
    pub number_of_generated_transactions: usize,
    pub aggregated_utxos: usize,
}

/// Outcome of the most recent estimate request.  Reset when the flow resets;
/// overwritten whole by each new request's outcome.
#[derive(Clone, Debug, PartialEq)]
pub enum EstimatorStatus {
    /// No estimate has been requested.
    NotRequested,
    /// The runtime produced a summary for the prospective transaction.
    GeneratorSummary(GeneratorSummary),
    /// The estimate failed; the message is displayed verbatim.
    Error(String),
}

/// An estimate request for the wallet runtime: sender account, a placeholder
/// destination on the right network, and the sender-pays-all fee policy with
/// the parsed priority fee.
#[derive(Clone, Debug, PartialEq)]
pub struct EstimateRequest {
    pub account_id: AccountId,
    pub destination_address: String,
    pub amount_sompi: u64,
    pub priority_fee_sompi: u64,
}

/// A submission for the wallet runtime, under the sender-pays-all fee policy.
/// Exactly one variant applies, fixed by the flow's transaction kind.
#[derive(Clone, Debug, PartialEq)]
pub enum SubmitRequest {
    /// A payment to an explicitly typed destination address.
    Send {
        account_id: AccountId,
        destination: String,
        amount_sompi: u64,
        priority_fee_sompi: u64,
        wallet_secret: String,
        payment_secret: Option<String>,
    },
    /// An internal move between two accounts of the same wallet.
    Transfer {
        source_account_id: AccountId,
        destination_account_id: AccountId,
        transfer_amount_sompi: u64,
        priority_fee_sompi: u64,
        wallet_secret: String,
        payment_secret: Option<String>,
    },
}

/// The flow's in-progress user input and derived state.  Owned by the active
/// screen; reset whole on completion or cancellation.
#[derive(Clone, Debug, PartialEq)]
pub struct ManagerContext {
    pub action: Action,
    pub transaction_kind: Option<TransactionKind>,
    pub destination_address_string: String,
    pub address_status: AddressStatus,
    pub send_amount_text: String,
    pub send_amount_sompi: u64,
    pub enable_priority_fees: bool,
    pub priority_fees_text: String,
    pub priority_fees_sompi: u64,
    pub wallet_secret: String,
    pub payment_secret: String,
    pub transfer_to_account: Option<AccountId>,
    pub request_estimate: Option<bool>,
    pub estimate: EstimatorStatus,
    pub focus: Option<Focus>,
}

/// Every flow-context field is back at its idle value.
pub open spec fn is_cleared(c: ManagerContext) -> bool {
    &&& c.action is Idle
    &&& c.transaction_kind is None
    &&& c.destination_address_string@.len() == 0
    &&& c.address_status is NotChecked
    &&& c.send_amount_text@.len() == 0
    &&& c.send_amount_sompi == 0
    &&& c.enable_priority_fees == false
    &&& c.priority_fees_text@.len() == 0
    &&& c.priority_fees_sompi == 0
    &&& c.wallet_secret@.len() == 0
    &&& c.payment_secret@.len() == 0
    &&& c.transfer_to_account is None
    &&& c.request_estimate is None
    &&& c.estimate is NotRequested
    &&& c.focus is None
}

impl ManagerContext {
    /// A fresh, idle flow context.
    pub fn new() -> (r: Self)
        ensures
            is_cleared(r),
    {
        ManagerContext {
            action: Action::Idle,
            transaction_kind: None,
            destination_address_string: String::new(),
            address_status: AddressStatus::NotChecked,
            send_amount_text: String::new(),
            send_amount_sompi: 0,
            enable_priority_fees: false,
            priority_fees_text: String::new(),
            priority_fees_sompi: 0,
            wallet_secret: String::new(),
            payment_secret: String::new(),
            transfer_to_account: None,
            request_estimate: None,
            estimate: EstimatorStatus::NotRequested,
            focus: None,
        }
    }

    /// Clears every field back to its idle value: address and amount text,
    /// secrets, destination selection, estimate outcome, and the phase.
    pub fn reset_send_state(&mut self)
        ensures
            is_cleared(*final(self)),
    {
        *self = ManagerContext::new();
    }
}

/// Ready to submit: a fee estimate is on display, and the destination is
/// sound — a typed address that validated as `Valid` for a send, or a
/// destination picked from the account list for a transfer.
pub open spec fn ready_to_send_spec(c: ManagerContext) -> bool {
    c.estimate is GeneratorSummary && (c.address_status is Valid || c.transaction_kind == Some(
        TransactionKind::Transfer,
    ))
}

/// A send whose typed destination did not validate as `Valid` — because it
/// belongs to another network, failed to parse, or was never checked — is
/// never ready to submit, however good the fee estimate looks.
pub proof fn lemma_unvalidated_send_never_ready(c: ManagerContext)
    requires
        c.transaction_kind == Some(TransactionKind::Send),
        !(c.address_status is Valid),
    ensures
        !ready_to_send_spec(c),
{
}

/// The secrets gate before submission: the wallet secret is non-empty, and
/// so is the second passphrase whenever the account requires one.
pub open spec fn passphrase_ready_spec(c: ManagerContext, requires_payment_passphrase: bool) -> bool {
    !(c.wallet_secret@.len() == 0 || (requires_payment_passphrase && c.payment_secret@.len()
        == 0))
}

/// The amount text parses to an actual amount (not empty, not malformed).
pub open spec fn amount_text_valid(c: ManagerContext) -> bool {
    let pa = parse_amount_spec(c.send_amount_text@);
    pa is Ok && pa->Ok_0 is Some
}

/// The fee text is usable: empty counts as zero, only malformed text is bad.
pub open spec fn fee_text_valid(c: ManagerContext) -> bool {
    !(parse_amount_spec(c.priority_fees_text@) is Err)
}

/// The amount the current text parses to, or the stored value where the text
/// does not parse to one.
pub open spec fn parsed_amount_spec(c: ManagerContext) -> u64 {
    match parse_amount_spec(c.send_amount_text@) {
        Ok(Some(v)) => v,
        _ => c.send_amount_sompi,
    }
}

/// The priority fee the current text parses to: empty text is zero fee, and
/// where the text is malformed the stored value stays.
pub open spec fn parsed_fee_spec(c: ManagerContext) -> u64 {
    match parse_amount_spec(c.priority_fees_text@) {
        Ok(Some(v)) => v,
        Ok(Option::None) => 0,
        Err(_) => c.priority_fees_sompi,
    }
}

/// Display text for each way amount text can fail to parse.
pub open spec fn parse_error_msg(e: ParseError) -> Seq<char> {
    match e {
        ParseError::Malformed => "not a valid number"@,
        ParseError::Overflow => "the value is too large"@,
    }
}

/// What `update_user_args` leaves in the estimate field: a malformed fee is
/// reported first (it is checked last, so its message wins), then a bad
/// amount; with both texts usable the estimate on display stays.
pub open spec fn user_args_estimate_applied(oldc: ManagerContext, newc: ManagerContext) -> bool {
    let pa = parse_amount_spec(oldc.send_amount_text@);
    let pf = parse_amount_spec(oldc.priority_fees_text@);
    if pf is Err {
        newc.estimate is Error && newc.estimate->Error_0@ == "Invalid fee amount: "@
            + parse_error_msg(pf->Err_0)
    } else if pa is Err {
        newc.estimate is Error && newc.estimate->Error_0@ == "Invalid amount: "@
            + parse_error_msg(pa->Err_0)
    } else if pa->Ok_0 is None {
        newc.estimate is Error && newc.estimate->Error_0@ == "Please enter an amount"@
    } else {
        newc.estimate == oldc.estimate
    }
}

/// What `update_user_args` does to the flow context: the two parsed values
/// are stored, the estimate field reports the first problem, and every other
/// field is untouched.
pub open spec fn user_args_applied(oldc: ManagerContext, newc: ManagerContext) -> bool {
    &&& newc.send_amount_sompi == parsed_amount_spec(oldc)
    &&& newc.priority_fees_sompi == parsed_fee_spec(oldc)
    &&& user_args_estimate_applied(oldc, newc)
    &&& newc == (ManagerContext {
        send_amount_sompi: newc.send_amount_sompi,
        priority_fees_sompi: newc.priority_fees_sompi,
        estimate: newc.estimate,
        request_estimate: newc.request_estimate,
        ..oldc
    })
}

/// The burn-style placeholder address used as the destination of a fee
/// estimate on each network.
pub open spec fn estimate_placeholder_spec(network: NetworkType) -> Seq<char> {
    if network is Mainnet {
        "kaspa:qqqqqqqqqqqqqqqqqqqqqqqqqqqqqqqqqqqqqqqqqqqqqqqqqqqqqkx9awp4e"@
    } else {
        "kaspatest:qqqqqqqqqqqqqqqqqqqqqqqqqqqqqqqqqqqqqqqqqqqqqqqqqqqqqhqrxplya"@
    }
}

/// What the overview screen shows about the network before any transaction
/// UI makes sense.
#[derive(Clone, Copy, Debug, PartialEq, Eq, Structural)]
pub enum NetworkMessage {
    /// Not connected to a node.
    NotConnected,
    /// Connected, but the node is still syncing.
    Syncing,
}

/// Which section of the overview screen a frame draws.
#[derive(Clone, Copy, Debug, PartialEq, Eq, Structural)]
pub enum ScreenView {
    /// The network is not usable: show the named message instead.
    NetworkState(NetworkMessage),
    /// A transaction is in progress: show the send/transfer interface.
    Send,
    /// The idle overview: address, balance, request buttons.
    Main,
}

/// An account's balance as tracked by the wallet runtime.
#[derive(Clone, Copy, Debug, PartialEq, Eq, Structural)]
pub struct Balance {
    pub mature: u64,
    pub pending: u64,
    pub outgoing: u64,
    pub mature_utxo_count: u64,
    pub pending_utxo_count: u64,
    pub stasis_utxo_count: u64,
}

/// The UTXO counts displayed beneath the balance on the idle overview.
#[derive(Clone, Copy, Debug, PartialEq, Eq, Structural)]
pub struct UtxoInfo {
    pub mature_count: u64,
    pub pending_count: u64,
    pub stasis_count: u64,
}

/// What the balance section of the overview displays.
#[derive(Clone, Copy, Debug, PartialEq, Eq, Structural)]
pub enum BalanceDisplay {
    /// The runtime reported no balance.
    NotAvailable,
    /// The node is still syncing: the mature balance is shown greyed out
    /// with an out-of-date warning, and nothing else.
    Syncing { mature: u64 },
    /// The settled view: pending and outgoing sums appear only when nonzero,
    /// and UTXO counts only while no transaction is being prepared.
    Ready { mature: u64, pending: Option<u64>, outgoing: Option<u64>, utxo_info: Option<UtxoInfo> },
}

/// What the balance section shows for a given balance, sync state and
/// transaction kind.
pub open spec fn balance_display_spec(
    balance: Option<Balance>,
    synced: bool,
    transaction_kind: Option<TransactionKind>,
) -> BalanceDisplay {
    match balance {
        Option::None => BalanceDisplay::NotAvailable,
        Option::Some(b) => if !synced {
            BalanceDisplay::Syncing { mature: b.mature }
        } else {
            BalanceDisplay::Ready {
                mature: b.mature,
                pending: if b.pending != 0 {
                    Some(b.pending)
                } else {
                    None
                },
                outgoing: if b.outgoing != 0 {
                    Some(b.outgoing)
                } else {
                    None
                },
                utxo_info: if transaction_kind is None {
                    Some(
                        UtxoInfo {
                            mature_count: b.mature_utxo_count,
                            pending_count: b.pending_utxo_count,
                            stasis_count: b.stasis_utxo_count,
                        },
                    )
                } else {
                    None
                },
            }
        },
    }
}

/// What the estimate section of the send interface displays.
#[derive(Clone, Debug, PartialEq)]
pub enum EstimateView {
    /// Nothing to show yet: prompt for an amount.
    Empty,
    /// A produced estimate: the final amount including fees (absent when the
    /// runtime gave none or the sum leaves 64 bits), the fees and whether a
    /// priority fee is part of them, the transaction and UTXO counts, and
    /// whether the Send button is enabled.
    Summary {
        final_amount_with_fees: Option<u64>,
        fees: u64,
        includes_priority_fee: bool,
        transactions: usize,
        utxos: usize,
        ready_to_send: bool,
    },
    /// The estimate failed; the message is shown verbatim.
    Error(String),
}

/// The account overview screen's controller: wraps the flow context it
/// manipulates frame by frame.
#[derive(Debug)]
pub struct Overview {
    pub context: ManagerContext,
}

impl Overview {
    /// An overview over the given flow context.
    pub fn new(context: ManagerContext) -> (r: Self)
        ensures
            r.context == context,
    {
        Overview { context }
    }

    /// Which section this frame draws: the network message while the node is
    /// unusable, the send interface while the flow is active, and the idle
    /// overview otherwise.
    pub fn render(&self, connected: bool, synced: bool) -> (r: ScreenView)
        ensures
            r == (if !synced || !connected {
                ScreenView::NetworkState(Self::network_message_spec(connected))
            } else if self.context.action.is_sending_spec() {
                ScreenView::Send
            } else {
                ScreenView::Main
            }),
    {
        if !synced || !connected {
            ScreenView::NetworkState(Self::render_network_state(connected))
        } else if self.context.action.is_sending() {
            ScreenView::Send
        } else {
            ScreenView::Main
        }
    }

    /// The message shown while the node is unusable: connection first, sync
    /// second.
    pub open spec fn network_message_spec(connected: bool) -> NetworkMessage {
        if !connected {
            NetworkMessage::NotConnected
        } else {
            NetworkMessage::Syncing
        }
    }

    /// The message shown while the node is unusable: connection first, sync
    /// second.
    pub fn render_network_state(connected: bool) -> (r: NetworkMessage)
        ensures
            r == Self::network_message_spec(connected),
    {
        if !connected {
            NetworkMessage::NotConnected
        } else {
            NetworkMessage::Syncing
        }
    }

    /// What the balance section displays this frame.
    pub fn render_balance(&self, balance: &Option<Balance>, synced: bool) -> (r: BalanceDisplay)
        ensures
            r == balance_display_spec(*balance, synced, self.context.transaction_kind),
    {
        match balance {
            Option::None => BalanceDisplay::NotAvailable,
            Option::Some(b) => {
                if !synced {
                    BalanceDisplay::Syncing { mature: b.mature }
                } else {
                    let show_utxos = matches!(self.context.transaction_kind, Option::None);
                    BalanceDisplay::Ready {
                        mature: b.mature,
                        pending: if b.pending != 0 {
                            Some(b.pending)
                        } else {
                            None
                        },
                        outgoing: if b.outgoing != 0 {
                            Some(b.outgoing)
                        } else {
                            None
                        },
                        utxo_info: if show_utxos {
                            Some(
                                UtxoInfo {
                                    mature_count: b.mature_utxo_count,
                                    pending_count: b.pending_utxo_count,
                                    stasis_count: b.stasis_utxo_count,
                                },
                            )
                        } else {
                            None
                        },
                    }
                }
            },
        }
    }

    /// The user picked Send: the flow starts estimating a payment to a typed
    /// address, and the cursor moves to the address field.
    pub fn begin_send(&mut self)
        ensures
            final(self).context == (ManagerContext {
                action: Action::Estimating,
                transaction_kind: Some(TransactionKind::Send),
                focus: Some(Focus::Address),
                ..old(self).context
            }),
    {
        self.context.action = Action::Estimating;
        self.context.transaction_kind = Some(TransactionKind::Send);
        self.context.focus = Some(Focus::Address);
    }

    /// The user picked Transfer: the flow starts estimating an internal move
    /// to another of the wallet's accounts.
    pub fn begin_transfer(&mut self)
        ensures
            final(self).context == (ManagerContext {
                action: Action::Estimating,
                transaction_kind: Some(TransactionKind::Transfer),
                ..old(self).context
            }),
    {
        self.context.action = Action::Estimating;
        self.context.transaction_kind = Some(TransactionKind::Transfer);
    }

    /// The user cancelled out of the secrets step: back to estimating, with
    /// the cursor on the amount field.
    pub fn cancel_sending(&mut self)
        ensures
            final(self).context == (ManagerContext {
                action: Action::Estimating,
                focus: Some(Focus::Amount),
                ..old(self).context
            }),
    {
        self.context.action = Action::Estimating;
        self.context.focus = Some(Focus::Amount);
    }

    /// Surfaces a user-input error in place of the estimate.
    pub fn user_error(&mut self, error: String)
        ensures
            final(self).context == (ManagerContext {
                estimate: EstimatorStatus::Error(error),
                ..old(self).context
            }),
    {
        self.context.estimate = EstimatorStatus::Error(error);
    }

    /// Re-validates the typed destination address against the account's
    /// network and records the outcome.
    pub fn apply_address_input(&mut self, expected_network: NetworkType)
        ensures
            final(self).context == (ManagerContext {
                address_status: final(self).context.address_status,
                ..old(self).context
            }),
            match address_network_of(old(self).context.destination_address_string@) {
                Option::Some(n) => final(self).context.address_status == (if n == expected_network {
                    AddressStatus::Valid
                } else {
                    AddressStatus::NetworkMismatch(n)
                }),
                Option::None => final(self).context.address_status is Invalid,
            },
    {
        let status = validate_address(
            self.context.destination_address_string.as_str(),
            expected_network,
        );
        self.context.address_status = status;
    }

    /// Folds a delivered estimate outcome into the status on display.  A
    /// stale outcome delivered after the flow moved on simply overwrites the
    /// field; states that no longer expect it do not read it.
    pub fn apply_estimate_result(&mut self, result: Result<GeneratorSummary, String>)
        ensures
            final(self).context == (ManagerContext {
                estimate: match result {
                    Ok(s) => EstimatorStatus::GeneratorSummary(s),
                    Err(e) => EstimatorStatus::Error(e),
                },
                ..old(self).context
            }),
    {
        match result {
            Ok(s) => {
                self.context.estimate = EstimatorStatus::GeneratorSummary(s);
            },
            Err(e) => {
                self.context.estimate = EstimatorStatus::Error(e);
            },
        }
    }

    /// Whether the Send button is enabled this frame.
    pub fn ready_to_send(&self) -> (r: bool)
        ensures
            r == ready_to_send_spec(self.context),
    {
        let destination_ok = matches!(self.context.address_status, AddressStatus::Valid)
            || matches!(self.context.transaction_kind, Some(TransactionKind::Transfer));
        matches!(self.context.estimate, EstimatorStatus::GeneratorSummary(_)) && destination_ok
    }

    /// Whether the secrets gate passes this frame (see
    /// [`passphrase_ready_spec`]).
    pub fn passphrase_ready(&self, requires_payment_passphrase: bool) -> (r: bool)
        ensures
            r == passphrase_ready_spec(self.context, requires_payment_passphrase),
    {
        let wallet_empty = self.context.wallet_secret.as_str().unicode_len() == 0;
        let payment_empty = self.context.payment_secret.as_str().unicode_len() == 0;
        !(wallet_empty || (requires_payment_passphrase && payment_empty))
    }

    /// Display text for each way amount text can fail to parse.
    fn parse_error_text(e: ParseError) -> (r: &'static str)
        ensures
            r@ == parse_error_msg(e),
    {
        match e {
            ParseError::Malformed => "not a valid number",
            ParseError::Overflow => "the value is too large",
        }
    }

    /// Parses the amount and priority-fee texts into their stored minor-unit
    /// values.  An empty amount is a user-facing error, not a silent zero; an
    /// empty fee is zero fee; malformed text surfaces a parse error in place
    /// of the estimate and reports failure.
    pub fn update_user_args(&mut self) -> (r: bool)
        ensures
            r == (amount_text_valid(old(self).context) && fee_text_valid(old(self).context)),
            user_args_applied(old(self).context, final(self).context),
            final(self).context.request_estimate == old(self).context.request_estimate,
    {
        let mut valid = true;
        match parse_amount(self.context.send_amount_text.as_str()) {
            Ok(Some(sompi)) => {
                self.context.send_amount_sompi = sompi;
            },
            Ok(Option::None) => {
                self.user_error(String::from_str("Please enter an amount"));
                valid = false;
            },
            Err(err) => {
                let mut message = String::from_str("Invalid amount: ");
                message.append(Self::parse_error_text(err));
                self.user_error(message);
                valid = false;
            },
        }
        match parse_amount(self.context.priority_fees_text.as_str()) {
            Ok(Some(sompi)) => {
                self.context.priority_fees_sompi = sompi;
            },
            Ok(Option::None) => {
                self.context.priority_fees_sompi = 0;
            },
            Err(err) => {
                let mut message = String::from_str("Invalid fee amount: ");
                message.append(Self::parse_error_text(err));
                self.user_error(message);
                valid = false;
            },
        }
        valid
    }

    /// The estimate section this frame: the prompt before any estimate, the
    /// summary with its displayed final amount (amount plus fees) and the
    /// Send button's enablement, or the error on display.
    pub fn estimate_view(&self) -> (r: EstimateView)
        ensures
            match self.context.estimate {
                EstimatorStatus::NotRequested => r == EstimateView::Empty,
                EstimatorStatus::GeneratorSummary(s) => r == (EstimateView::Summary {
                    final_amount_with_fees: match s.final_transaction_amount {
                        Option::Some(a) => if a + s.aggregated_fees <= u64::MAX {
                            Some((a + s.aggregated_fees) as u64)
                        } else {
                            None
                        },
                        Option::None => None,
                    },
                    fees: s.aggregated_fees,
                    includes_priority_fee: self.context.priority_fees_sompi != 0,
                    transactions: s.number_of_generated_transactions,
                    utxos: s.aggregated_utxos,
                    ready_to_send: ready_to_send_spec(self.context),
                }),
                EstimatorStatus::Error(e) => r == EstimateView::Error(e),
            },
    {
        let ready = self.ready_to_send();
        match &self.context.estimate {
            EstimatorStatus::NotRequested => EstimateView::Empty,
            EstimatorStatus::GeneratorSummary(s) => {
                let final_amount_with_fees = match s.final_transaction_amount {
                    Some(a) => a.checked_add(s.aggregated_fees),
                    Option::None => None,
                };
                EstimateView::Summary {
                    final_amount_with_fees,
                    fees: s.aggregated_fees,
                    includes_priority_fee: self.context.priority_fees_sompi != 0,
                    transactions: s.number_of_generated_transactions,
                    utxos: s.aggregated_utxos,
                    ready_to_send: ready,
                }
            },
            EstimatorStatus::Error(e) => EstimateView::Error(e.clone()),
        }
    }

    /// The burn-style placeholder address used as an estimate's destination.
    fn estimate_placeholder(network: NetworkType) -> (r: &'static str)
        requires
            network is Mainnet || network is Testnet,
        ensures
            r@ == estimate_placeholder_spec(network),
    {
        match network {
            NetworkType::Mainnet => "kaspa:qqqqqqqqqqqqqqqqqqqqqqqqqqqqqqqqqqqqqqqqqqqqqqqqqqqqqkx9awp4e",
            _ => "kaspatest:qqqqqqqqqqqqqqqqqqqqqqqqqqqqqqqqqqqqqqqqqqqqqqqqqqqqqhqrxplya",
        }
    }

    /// One estimating-phase step.  When a re-estimate has been requested
    /// (amount or fee text changed), the texts are parsed; if they are
    /// usable, the estimate request to issue is handed back, carrying the
    /// parsed amount and — only while priority fees are enabled — the parsed
    /// fee.  The request flag is consumed either way.  Networks other than
    /// mainnet and testnet have no placeholder destination and are not
    /// estimated against.
    pub fn estimating_step(&mut self, account_id: AccountId, network: NetworkType) -> (r: Option<
        EstimateRequest,
    >)
        requires
            old(self).context.action is Estimating,
            old(self).context.transaction_kind is Some,
            network is Mainnet || network is Testnet,
        ensures
            old(self).context.request_estimate != Some(true) ==> *final(self) == *old(self) && r
                is None,
            old(self).context.request_estimate == Some(true) ==> {
                &&& user_args_applied(old(self).context, final(self).context)
                &&& final(self).context.request_estimate == Some(false)
                &&& if amount_text_valid(old(self).context) && fee_text_valid(old(self).context) {
                    r is Some && r->Some_0.account_id == account_id
                        && r->Some_0.destination_address@ == estimate_placeholder_spec(network)
                        && r->Some_0.amount_sompi == parsed_amount_spec(old(self).context)
                        && r->Some_0.priority_fee_sompi == (if old(
                        self,
                    ).context.enable_priority_fees {
                        parsed_fee_spec(old(self).context)
                    } else {
                        0
                    })
                } else {
                    r is None
                }
            },
    {
        let requested = matches!(self.context.request_estimate, Some(true));
        if !requested {
            return None;
        }
        let valid = self.update_user_args();
        self.context.request_estimate = Some(false);
        if !valid {
            return None;
        }
        let priority_fee_sompi = if self.context.enable_priority_fees {
            self.context.priority_fees_sompi
        } else {
            0
        };
        Some(
            EstimateRequest {
                account_id,
                destination_address: String::from_str(Self::estimate_placeholder(network)),
                amount_sompi: self.context.send_amount_sompi,
                priority_fee_sompi,
            },
        )
    }

    /// One sending-phase step.  While the secrets gate fails nothing
    /// happens.  Once it passes, the submission matching the flow's kind is
    /// handed back — carrying the destination, amount, fee policy and
    /// secrets — and the flow moves to `Processing`.  Exactly one of typed
    /// address and selected transfer account must be set; both or neither is
    /// a state-machine construction bug, asserted upstream.
    pub fn sending_step(&mut self, account_id: AccountId, requires_payment_passphrase: bool) -> (r:
        Option<SubmitRequest>)
        requires
            old(self).context.action is Sending,
            old(self).context.transaction_kind is Some,
            !(old(self).context.destination_address_string@.len() > 0 && old(
                self,
            ).context.transfer_to_account is Some),
            old(self).context.transaction_kind == Some(TransactionKind::Send) ==> old(
                self,
            ).context.destination_address_string@.len() > 0,
            old(self).context.transaction_kind == Some(TransactionKind::Transfer) ==> old(
                self,
            ).context.transfer_to_account is Some,
        ensures
            !passphrase_ready_spec(old(self).context, requires_payment_passphrase) ==> *final(self)
                == *old(self) && r is None,
            passphrase_ready_spec(old(self).context, requires_payment_passphrase) ==> {
                &&& final(self).context == (ManagerContext {
                    action: Action::Processing,
                    ..old(self).context
                })
                &&& r == Some(Self::submit_request_spec(
                    old(self).context,
                    account_id,
                    requires_payment_passphrase,
                ))
            },
    {
        if !self.passphrase_ready(requires_payment_passphrase) {
            return None;
        }
        let priority_fee_sompi = if self.context.enable_priority_fees {
            self.context.priority_fees_sompi
        } else {
            0
        };
        let wallet_secret = self.context.wallet_secret.clone();
        let payment_secret = if requires_payment_passphrase {
            Some(self.context.payment_secret.clone())
        } else {
            None
        };
        let request = match self.context.transaction_kind {
            Some(TransactionKind::Send) => SubmitRequest::Send {
                account_id,
                destination: self.context.destination_address_string.clone(),
                amount_sompi: self.context.send_amount_sompi,
                priority_fee_sompi,
                wallet_secret,
                payment_secret,
            },
            Some(TransactionKind::Transfer) => {
                let destination_account_id = match self.context.transfer_to_account {
                    Some(id) => id,
                    Option::None => 0,
                };
                SubmitRequest::Transfer {
                    source_account_id: account_id,
                    destination_account_id,
                    transfer_amount_sompi: self.context.send_amount_sompi,
                    priority_fee_sompi,
                    wallet_secret,
                    payment_secret,
                }
            },
            Option::None => {
                return None;
            },
        };
        self.context.action = Action::Processing;
        Some(request)
    }

    /// The submission built from a flow context that passed the secrets
    /// gate.
    pub open spec fn submit_request_spec(
        c: ManagerContext,
        account_id: AccountId,
        requires_payment_passphrase: bool,
    ) -> SubmitRequest {
        let priority_fee_sompi = if c.enable_priority_fees {
            c.priority_fees_sompi
        } else {
            0
        };
        let payment_secret = if requires_payment_passphrase {
            Some(c.payment_secret)
        } else {
            None
        };
        if c.transaction_kind == Some(TransactionKind::Send) {
            SubmitRequest::Send {
                account_id,
                destination: c.destination_address_string,
                amount_sompi: c.send_amount_sompi,
                priority_fee_sompi,
                wallet_secret: c.wallet_secret,
                payment_secret,
            }
        } else {
            SubmitRequest::Transfer {
                source_account_id: account_id,
                destination_account_id: c.transfer_to_account->0,
                transfer_amount_sompi: c.send_amount_sompi,
                priority_fee_sompi,
                wallet_secret: c.wallet_secret,
                payment_secret,
            }
        }
    }

    /// One processing-phase step: consumes the submission's outcome if it
    /// has been delivered.  On any outcome, success or failure, every
    /// flow-context field is cleared and the flow returns to `Idle`; the
    /// outcome itself is handed back so a failure can be surfaced to the
    /// user before the cleared screen is drawn.  With no outcome yet the
    /// flow stays in `Processing`.
    pub fn processing_step(&mut self, cache: &mut AsyncResultCache<GeneratorSummary>) -> (r: Option<
        Result<GeneratorSummary, String>,
    >)
        requires
            old(self).context.action is Processing,
            old(cache).wf(),
        ensures
            final(cache).wf(),
            final(cache)@ == take_step(old(cache)@, SEND_RESULT_KEY).0,
            r == take_step(old(cache)@, SEND_RESULT_KEY).1,
            r is None ==> *final(self) == *old(self),
            r is Some ==> is_cleared(final(self).context),
    {
        match cache.take(SEND_RESULT_KEY) {
            Option::None => None,
            Some(outcome) => {
                self.context.reset_send_state();
                Some(outcome)
            },
        }
    }

    /// One step of the transfer-destination selector.  With exactly two
    /// accounts the other account is selected outright.  With more, the user
    /// picks from a list; a selection pointing at the sending account itself
    /// (left over from a different account's screen) is cleared.  At least
    /// two accounts must exist or the Transfer option is not offered.
    pub fn select_transfer_account(&mut self, registry: &AccountRegistry, self_id: AccountId)
        requires
            registry@.len() >= 2,
        ensures
            ({
                let chosen = if registry@.len() == 2 {
                    first_other_spec(registry@, self_id)
                } else {
                    Option::None
                };
                match chosen {
                    Some(other) => final(self).context == (ManagerContext {
                        transfer_to_account: Some(other),
                        ..old(self).context
                    }),
                    Option::None => if old(self).context.transfer_to_account == Some(self_id) {
                        final(self).context == (ManagerContext {
                            transfer_to_account: Option::None,
                            ..old(self).context
                        })
                    } else {
                        *final(self) == *old(self)
                    },
                }
            }),
    {
        let default_account = if registry.len() == 2 {
            registry.first_other(self_id)
        } else {
            None
        };
        match default_account {
            Some(account) => {
                self.context.transfer_to_account = Some(account);
            },
            Option::None => {
                let stale = match self.context.transfer_to_account {
                    Some(id) => id == self_id,
                    Option::None => false,
                };
                if stale {
                    self.context.transfer_to_account = None;
                }
            },
        }
    }
}

} // verus!
