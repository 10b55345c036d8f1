//! The transaction-application state machine.
//!
//! The engine owns two arenas — the per-client account map and the
//! journal of accepted deposits and withdrawals — and applies one event
//! at a time, in input order. Every rejection is local to its event: it
//! never mutates account or journal state and never halts the stream.
//!
//! The whole machine is stated once, mathematically, as [`step`]; the
//! executable [`Database::process`] is proved to follow it exactly.

use std::collections::HashMap;

use vstd::prelude::*;

use crate::account::{
    fresh_account, spec_chargeback, spec_deposit, spec_dispute, spec_resolve, spec_withdraw,
    Account, AccountError, AccountResult,
};
use crate::amount::Amount;

verus! {

broadcast use vstd::std_specs::hash::group_hash_axioms;

/// Identifies one client's account; stable for the whole run.
pub type ClientID = u16;

/// Identifies one transaction. Globally unique across the stream for
/// deposits and withdrawals; dispute-cycle events carry the identifier
/// of the event they reference, not a new one.
pub type TransactionID = u32;

/// The closed set of event kinds.
#[derive(Clone, Copy, Debug, PartialEq, Eq, Structural)]
pub enum TransactionType {
    /// Credits the client's available funds.
    Deposit,
    /// Debits the client's available funds.
    Withdrawal,
    /// Claims a prior deposit was invalid: moves its amount on hold.
    Dispute,
    /// Settles a dispute in the client's favour: releases the hold.
    Resolve,
    /// Upholds a dispute: removes the held funds and locks the account.
    Chargeback,
}

/// One incoming event. `amount` is present only for deposits and
/// withdrawals; dispute-cycle events reference the amount stored in the
/// journal entry for `tx` instead.
#[derive(Clone, Copy, Debug)]
pub struct Transaction {
    /// Which kind of event this is.
    pub tx_type: TransactionType,
    /// The account the event concerns.
    pub client: ClientID,
    /// The event's own identifier (deposit, withdrawal), or the
    /// identifier of the referenced deposit (dispute cycle).
    pub tx: TransactionID,
    /// The monetary amount, for deposits and withdrawals only.
    pub amount: Option<Amount>,
}

/// A journal entry: an accepted deposit or withdrawal, plus the dispute
/// flag of its one-at-a-time dispute cycle. Entries live until the end of
/// the run, so a consumed transaction identifier stays recognized.
#[derive(Clone, Copy, Debug)]
pub struct TransactionRecord {
    /// The accepted event, exactly as it came in.
    pub transaction: Transaction,
    /// Whether the entry is currently under dispute. Starts `false`,
    /// flips `true` on a successful dispute, and back `false` on a
    /// successful resolve or chargeback.
    pub is_disputed: bool,
}

/// Why the engine rejected an event. Every rejection is final for that
/// event and leaves all balances and journal entries untouched.
#[derive(Clone, Copy, Debug, PartialEq, Eq, Structural)]
pub enum TransactionError {
    /// A deposit or withdrawal carried a zero or negative amount.
    NegativeAmount,
    /// The transaction identifier was already consumed by an earlier
    /// accepted deposit or withdrawal.
    Duplicate,
    /// The account itself refused the balance change.
    AccountError(AccountError),
    /// A deposit or withdrawal carried no amount (or a journal entry
    /// under reference stored none, which well-formed state rules out).
    MissingAmount,
    /// A dispute-cycle event named an entry of another client, a
    /// non-deposit, or an entry whose dispute flag does not match the
    /// event's precondition.
    InvalidDispute,
    /// A dispute-cycle event referenced a transaction identifier with no
    /// journal entry.
    ReferenceNotFound,
}

/// The outcome the engine reports for one event.
pub type TransactionResult = Result<(), TransactionError>;

/// The mathematical state of the engine: the account arena, the journal
/// arena, and the clients in order of first appearance.
#[verifier::ext_equal]
pub struct LedgerView {
    /// Every account ever touched, by client.
    pub accounts: Map<ClientID, Account>,
    /// Every accepted deposit and withdrawal, by its identifier.
    pub journal: Map<TransactionID, TransactionRecord>,
    /// The keys of `accounts`, ordered by first appearance.
    pub clients: Seq<ClientID>,
}

/// The engine's starting state: no accounts, no journal entries.
pub open spec fn empty_ledger() -> LedgerView {
    LedgerView { accounts: Map::empty(), journal: Map::empty(), clients: Seq::empty() }
}

/// True of deposits and withdrawals: the kinds that carry an amount and
/// consume a fresh transaction identifier.
pub open spec fn is_amount_kind(kind: TransactionType) -> bool {
    kind is Deposit || kind is Withdrawal
}

/// True of the dispute-cycle kinds, which reference a prior deposit.
pub open spec fn is_dispute_kind(kind: TransactionType) -> bool {
    kind is Dispute || kind is Resolve || kind is Chargeback
}

/// The dispute-flag state a journal entry must be in for a dispute-cycle
/// event to proceed: not yet disputed for a dispute, currently disputed
/// for a resolve or chargeback.
pub open spec fn disputed_before(kind: TransactionType) -> bool
    recommends
        is_dispute_kind(kind),
{
    kind !is Dispute
}

/// The dispute-flag state a successful dispute-cycle event leaves behind:
/// disputed after a dispute, settled after a resolve or chargeback.
pub open spec fn disputed_after(kind: TransactionType) -> bool
    recommends
        is_dispute_kind(kind),
{
    kind is Dispute
}

/// The account operation each event kind invokes, as a function of the
/// account and the (validated) amount.
pub open spec fn balance_op(kind: TransactionType, a: Account, amount: Amount) -> (
    Account,
    AccountResult,
) {
    match kind {
        TransactionType::Deposit => spec_deposit(a, amount),
        TransactionType::Withdrawal => spec_withdraw(a, amount),
        TransactionType::Dispute => spec_dispute(a, amount),
        TransactionType::Resolve => spec_resolve(a, amount),
        TransactionType::Chargeback => spec_chargeback(a, amount),
    }
}

/// The state after resolving-or-creating the account for `client`: a
/// fresh, zeroed account is added on the first event that names a client,
/// whatever becomes of the event itself.
pub open spec fn with_account(s: LedgerView, client: ClientID) -> LedgerView {
    if s.accounts.contains_key(client) {
        s
    } else {
        LedgerView {
            accounts: s.accounts.insert(client, fresh_account()),
            journal: s.journal,
            clients: s.clients.push(client),
        }
    }
}

/// The account `client` has in `s`, or a fresh one if none yet.
pub open spec fn account_or_fresh(s: LedgerView, client: ClientID) -> Account {
    if s.accounts.contains_key(client) {
        s.accounts[client]
    } else {
        fresh_account()
    }
}

/// The deposit/withdrawal path, after account creation: reject a missing
/// amount, a non-positive amount, and a consumed identifier, in that
/// order; then apply the account operation, and on success journal the
/// event under its identifier. On any failure nothing changes.
pub open spec fn amount_step(s: LedgerView, t: Transaction) -> (LedgerView, TransactionResult)
    recommends
        is_amount_kind(t.tx_type),
        s.accounts.contains_key(t.client),
{
    match t.amount {
        None => (s, Err(TransactionError::MissingAmount)),
        Some(amount) => if amount.units <= 0 {
            (s, Err(TransactionError::NegativeAmount))
        } else if s.journal.contains_key(t.tx) {
            (s, Err(TransactionError::Duplicate))
        } else {
            let (acct, res) = balance_op(t.tx_type, s.accounts[t.client], amount);
            match res {
                Ok(()) => (
                    LedgerView {
                        accounts: s.accounts.insert(t.client, acct),
                        journal: s.journal.insert(
                            t.tx,
                            TransactionRecord { transaction: t, is_disputed: false },
                        ),
                        clients: s.clients,
                    },
                    Ok(()),
                ),
                Err(e) => (s, Err(TransactionError::AccountError(e))),
            }
        },
    }
}

/// The dispute/resolve/chargeback path, after account creation: the
/// referenced journal entry must exist, belong to the same client, be a
/// deposit, and have the dispute flag the event kind expects; the stored
/// amount (never the event's own) then drives the account operation, and
/// on success the flag flips to the kind's target state. On any failure
/// nothing changes.
pub open spec fn dispute_step(s: LedgerView, t: Transaction) -> (LedgerView, TransactionResult)
    recommends
        is_dispute_kind(t.tx_type),
        s.accounts.contains_key(t.client),
{
    if !s.journal.contains_key(t.tx) {
        (s, Err(TransactionError::ReferenceNotFound))
    } else {
        let rec = s.journal[t.tx];
        if !(rec.transaction.client == t.client && rec.transaction.tx_type is Deposit
            && rec.is_disputed == disputed_before(t.tx_type)) {
            (s, Err(TransactionError::InvalidDispute))
        } else {
            match rec.transaction.amount {
                None => (s, Err(TransactionError::MissingAmount)),
                Some(amount) => {
                    let (acct, res) = balance_op(t.tx_type, s.accounts[t.client], amount);
                    match res {
                        Ok(()) => (
                            LedgerView {
                                accounts: s.accounts.insert(t.client, acct),
                                journal: s.journal.insert(
                                    t.tx,
                                    TransactionRecord {
                                        transaction: rec.transaction,
                                        is_disputed: disputed_after(t.tx_type),
                                    },
                                ),
                                clients: s.clients,
                            },
                            Ok(()),
                        ),
                        Err(e) => (s, Err(TransactionError::AccountError(e))),
                    }
                },
            }
        }
    }
}

/// One step of the state machine: what processing event `t` in state `s`
/// leaves behind, and what outcome it reports.
pub open spec fn step(s: LedgerView, t: Transaction) -> (LedgerView, TransactionResult) {
    let s1 = with_account(s, t.client);
    if is_amount_kind(t.tx_type) {
        amount_step(s1, t)
    } else {
        dispute_step(s1, t)
    }
}

/// Well-formedness of an engine state, holding in every reachable state:
/// - every account satisfies its invariant (non-negative balances whose
///   total is representable);
/// - every journal entry sits under its own identifier, is a deposit or
///   a withdrawal, stores a positive amount, and is disputed only if it
///   is a deposit;
/// - the client list holds exactly the account keys, each once.
pub open spec fn ledger_wf(s: LedgerView) -> bool {
    &&& forall|c: ClientID| s.accounts.contains_key(c) ==> (#[trigger] s.accounts[c]).inv()
    &&& forall|id: TransactionID|
        s.journal.contains_key(id) ==> {
            let rec = #[trigger] s.journal[id];
            &&& rec.transaction.tx == id
            &&& is_amount_kind(rec.transaction.tx_type)
            &&& rec.transaction.amount matches Some(a) && a.units > 0
            &&& rec.is_disputed ==> rec.transaction.tx_type is Deposit
        }
    &&& s.clients.no_duplicates()
    &&& forall|c: ClientID|
        #![trigger s.accounts.contains_key(c)]
        #![trigger s.clients.contains(c)]
        s.accounts.contains_key(c) <==> s.clients.contains(c)
}

/// No event may overflow the amount representation: if `t` is a deposit
/// that would actually be applied — positive amount, fresh identifier,
/// unlocked account — the account's new total must still fit. The other
/// four kinds move or remove existing funds and can never overflow.
pub open spec fn deposit_fits(s: LedgerView, t: Transaction) -> bool {
    t.tx_type is Deposit ==> match t.amount {
        Some(a) => {
            let acct = account_or_fresh(s, t.client);
            (a.units > 0 && !s.journal.contains_key(t.tx) && !acct.locked) ==> acct.spec_total()
                + a.units <= i64::MAX
        },
        None => true,
    }
}

/// The engine: exclusive owner of the account arena and the journal
/// arena for the lifetime of one run. Events go through
/// [`Database::process`], one at a time, in input order.
pub struct Database {
    account_map: HashMap<ClientID, Account>,
    transaction_map: HashMap<TransactionID, TransactionRecord>,
    clients: Vec<ClientID>,
}

impl View for Database {
    type V = LedgerView;

    closed spec fn view(&self) -> LedgerView {
        LedgerView {
            accounts: self.account_map@,
            journal: self.transaction_map@,
            clients: self.clients@,
        }
    }
}

impl Default for Database {
    /// An engine in the starting state: no accounts, no journal entries.
    fn default() -> (db: Database)
        ensures
            db@ == empty_ledger(),
            db.wf(),
    {
        let db = Database {
            account_map: HashMap::new(),
            transaction_map: HashMap::new(),
            clients: Vec::new(),
        };
        proof {
            assert(db@ =~= empty_ledger());
        }
        db
    }
}

impl Database {
    /// Well-formedness of the engine's state; holds from
    /// [`Database::default`] on and is preserved by every event.
    pub open spec fn wf(&self) -> bool {
        ledger_wf(self@)
    }

    /// Resolves or creates the account for `client`: the first event
    /// that names a client installs a fresh, zeroed account for it,
    /// whatever becomes of the event itself.
    fn ensure_account(&mut self, client: ClientID)
        requires
            old(self).wf(),
        ensures
            final(self).wf(),
            final(self)@ == with_account(old(self)@, client),
    {
        if !self.account_map.contains_key(&client) {
            self.account_map.insert(client, Account::new());
            self.clients.push(client);
            proof {
                assert(self@ =~= with_account(old(self)@, client));
                lemma_with_account_wf(old(self)@, client);
            }
        }
    }

    /// The deposit/withdrawal path (`t.tx_type` must be one of the two):
    /// validates the amount and the identifier, applies the account
    /// operation, and on success journals the event.
    fn handle_amount_transaction(&mut self, transaction: &Transaction) -> (r: TransactionResult)
        requires
            old(self).wf(),
            is_amount_kind(transaction.tx_type),
            deposit_fits(old(self)@, *transaction),
        ensures
            final(self).wf(),
            (final(self)@, r) == step(old(self)@, *transaction),
    {
        self.ensure_account(transaction.client);
        let ghost s1 = self@;
        match transaction.amount {
            None => Err(TransactionError::MissingAmount),
            Some(amount) => {
                if amount.units <= 0 {
                    Err(TransactionError::NegativeAmount)
                } else if self.transaction_map.contains_key(&transaction.tx) {
                    Err(TransactionError::Duplicate)
                } else {
                    let mut account = *self.account_map.get(&transaction.client).unwrap();
                    let res = if transaction.tx_type == TransactionType::Deposit {
                        account.deposit(amount)
                    } else {
                        account.withdraw(amount)
                    };
                    match res {
                        Ok(()) => {
                            self.account_map.insert(transaction.client, account);
                            self.transaction_map.insert(
                                transaction.tx,
                                TransactionRecord { transaction: *transaction, is_disputed: false },
                            );
                            proof {
                                assert(self@ =~= amount_step(s1, *transaction).0);
                            }
                            Ok(())
                        },
                        Err(err) => Err(TransactionError::AccountError(err)),
                    }
                }
            },
        }
    }

    /// The dispute/resolve/chargeback path (`t.tx_type` must be one of
    /// the three): validates the referenced journal entry, applies the
    /// account operation with the stored amount, and on success flips
    /// the entry's dispute flag to the kind's target state.
    fn handle_dispute_like(&mut self, transaction: &Transaction) -> (r: TransactionResult)
        requires
            old(self).wf(),
            is_dispute_kind(transaction.tx_type),
        ensures
            final(self).wf(),
            (final(self)@, r) == step(old(self)@, *transaction),
    {
        self.ensure_account(transaction.client);
        let ghost s1 = self@;
        let record = match self.transaction_map.get(&transaction.tx) {
            None => {
                return Err(TransactionError::ReferenceNotFound);
            },
            Some(record) => *record,
        };
        let must_be_disputed = !(transaction.tx_type == TransactionType::Dispute);
        if !(record.transaction.client == transaction.client && record.transaction.tx_type
            == TransactionType::Deposit && record.is_disputed == must_be_disputed) {
            return Err(TransactionError::InvalidDispute);
        }
        match record.transaction.amount {
            None => Err(TransactionError::MissingAmount),
            Some(amount) => {
                let mut account = *self.account_map.get(&transaction.client).unwrap();
                let res = if transaction.tx_type == TransactionType::Dispute {
                    account.dispute(amount)
                } else if transaction.tx_type == TransactionType::Resolve {
                    account.resolve(amount)
                } else {
                    account.chargeback(amount)
                };
                match res {
                    Ok(()) => {
                        let flips_to = transaction.tx_type == TransactionType::Dispute;
                        self.account_map.insert(transaction.client, account);
                        self.transaction_map.insert(
                            transaction.tx,
                            TransactionRecord {
                                transaction: record.transaction,
                                is_disputed: flips_to,
                            },
                        );
                        proof {
                            assert(self@ =~= dispute_step(s1, *transaction).0);
                        }
                        Ok(())
                    },
                    Err(err) => Err(TransactionError::AccountError(err)),
                }
            },
        }
    }

    /// Applies one event: dispatches on its kind to the deposit/
    /// withdrawal path or the dispute-cycle path. The outcome and the
    /// new state are exactly those of the mathematical [`step`].
    pub fn process(&mut self, transaction: Transaction) -> (r: TransactionResult)
        requires
            old(self).wf(),
            deposit_fits(old(self)@, transaction),
        ensures
            final(self).wf(),
            (final(self)@, r) == step(old(self)@, transaction),
    {
        match transaction.tx_type {
            TransactionType::Deposit => self.handle_amount_transaction(&transaction),
            TransactionType::Withdrawal => self.handle_amount_transaction(&transaction),
            TransactionType::Dispute => self.handle_dispute_like(&transaction),
            TransactionType::Resolve => self.handle_dispute_like(&transaction),
            TransactionType::Chargeback => self.handle_dispute_like(&transaction),
        }
    }

    /// True unless applying `transaction` would overflow the amount
    /// representation; [`Database::process`] requires it, so an
    /// unverified caller checks here first.
    pub fn can_accept(&self, transaction: &Transaction) -> (r: bool)
        requires
            self.wf(),
        ensures
            r == deposit_fits(self@, *transaction),
    {
        if !(transaction.tx_type == TransactionType::Deposit) {
            return true;
        }
        match transaction.amount {
            None => true,
            Some(amount) => {
                if amount.units <= 0 {
                    return true;
                }
                if self.transaction_map.contains_key(&transaction.tx) {
                    return true;
                }
                let account = match self.account_map.get(&transaction.client) {
                    Some(a) => *a,
                    None => Account::new(),
                };
                if account.locked {
                    return true;
                }
                proof {
                    if self@.accounts.contains_key(transaction.client) {
                        assert(self@.accounts[transaction.client].inv());
                    }
                }
                let total: i64 = account.available.units + account.held.units;
                amount.units <= i64::MAX - total
            },
        }
    }

    /// The account for `client`, if any event ever named it.
    pub fn account(&self, client: ClientID) -> (r: Option<&Account>)
        ensures
            match r {
                Some(a) => self@.accounts.contains_key(client) && *a == self@.accounts[client],
                None => !self@.accounts.contains_key(client),
            },
    {
        self.account_map.get(&client)
    }

    /// The clients with an account, in order of first appearance.
    pub fn client_ids(&self) -> (r: &Vec<ClientID>)
        ensures
            r@ == self@.clients,
    {
        &self.clients
    }
}

/// The engine's starting state is well-formed — the base case of the
/// invariant laws below, which [`lemma_step_preserves_wf`] carries
/// through every event.
pub proof fn lemma_empty_ledger_wf()
    ensures
        ledger_wf(empty_ledger()),
{
}

/// Creating an account for `client` keeps the state well-formed: the new
/// account is fresh and the client list stays an exact, duplicate-free
/// record of the account keys.
pub proof fn lemma_with_account_wf(s: LedgerView, client: ClientID)
    requires
        ledger_wf(s),
    ensures
        ledger_wf(with_account(s, client)),
{
    if !s.accounts.contains_key(client) {
        let s1 = with_account(s, client);
        assert forall|c: ClientID| s1.accounts.contains_key(c) <==> s1.clients.contains(c) by {
            if s1.clients.contains(c) {
                let i = choose|i: int| 0 <= i < s1.clients.len() && s1.clients[i] == c;
                if i < s.clients.len() {
                    assert(s.clients.contains(c));
                }
            }
            if s1.accounts.contains_key(c) && c != client {
                assert(s.clients.contains(c));
                let i = choose|i: int| 0 <= i < s.clients.len() && s.clients[i] == c;
                assert(s1.clients[i] == c);
            }
            if c == client {
                assert(s1.clients[s.clients.len() as int] == c);
            }
        }
        assert(s1.clients.no_duplicates()) by {
            assert(!s.clients.contains(client));
            assert forall|i: int, j: int|
                0 <= i < j < s1.clients.len() implies s1.clients[i] != s1.clients[j] by {
                if j < s.clients.len() {
                } else {
                    assert(s1.clients[j] == client);
                    assert(s.clients[i] == s1.clients[i]);
                    if s1.clients[i] == client {
                        assert(s.clients.contains(client));
                    }
                }
            }
        }
    }
}

/// Invariant law: a step taken from a well-formed state — under the
/// overflow bound that [`Database::process`] requires — leaves a
/// well-formed state. With [`empty_ledger`] well-formed, every reachable
/// state keeps `available >= 0` and `held >= 0` on every account, and
/// every journal entry a positive-amount deposit or withdrawal under its
/// own identifier, disputed only if a deposit.
pub proof fn lemma_step_preserves_wf(s: LedgerView, t: Transaction)
    requires
        ledger_wf(s),
        deposit_fits(s, t),
    ensures
        ledger_wf(step(s, t).0),
{
    lemma_with_account_wf(s, t.client);
    let s1 = with_account(s, t.client);
    let s2 = step(s, t).0;
    if s2 != s1 {
        assert(s2.accounts == s1.accounts.insert(t.client, s2.accounts[t.client]));
        assert forall|c: ClientID| s2.accounts.contains_key(c) <==> s2.clients.contains(c) by {
            assert(s1.accounts.contains_key(c) <==> s1.clients.contains(c));
        }
    }
}

/// Invariant law: once an account is locked, no later event ever
/// unlocks it — and the account keeps existing.
pub proof fn lemma_locked_is_terminal(s: LedgerView, t: Transaction, client: ClientID)
    requires
        s.accounts.contains_key(client),
        s.accounts[client].locked,
    ensures
        step(s, t).0.accounts.contains_key(client),
        step(s, t).0.accounts[client].locked,
{
}

/// Invariant law: journal entries are permanent and their payload never
/// changes; the dispute flag of an entry moves only when the step
/// succeeds on a dispute-cycle event referencing that very entry, and
/// then from exactly the flag state the kind demands to exactly the
/// state it targets — set only by a successful dispute, cleared only by
/// a successful resolve or chargeback.
pub proof fn lemma_disputed_flag_protocol(s: LedgerView, t: Transaction, id: TransactionID)
    requires
        s.journal.contains_key(id),
    ensures
        ({
            let (s2, r) = step(s, t);
            &&& s2.journal.contains_key(id)
            &&& s2.journal[id].transaction == s.journal[id].transaction
            &&& s2.journal[id].is_disputed != s.journal[id].is_disputed ==> {
                &&& r == Ok::<(), TransactionError>(())
                &&& t.tx == id
                &&& is_dispute_kind(t.tx_type)
                &&& s.journal[id].is_disputed == disputed_before(t.tx_type)
                &&& s2.journal[id].is_disputed == disputed_after(t.tx_type)
            }
        }),
{
}

/// Rejection law: a rejected event mutates no balance and no journal
/// entry; at most, the fresh zero account for the event's client now
/// exists.
pub proof fn lemma_rejection_changes_nothing(s: LedgerView, t: Transaction)
    ensures
        step(s, t).1 is Err ==> step(s, t).0 == with_account(s, t.client),
{
}

/// Idempotence-of-rejection law: replaying a deposit or withdrawal that
/// was just accepted is rejected as a duplicate and leaves the ledger
/// exactly as after the first application.
pub proof fn lemma_replay_is_duplicate(s: LedgerView, t: Transaction)
    requires
        is_amount_kind(t.tx_type),
        step(s, t).1 == Ok::<(), TransactionError>(()),
    ensures
        step(step(s, t).0, t) == (step(s, t).0, Err::<(), TransactionError>(
            TransactionError::Duplicate,
        )),
{
    let s1 = step(s, t).0;
    assert(s1.accounts.contains_key(t.client));
    assert(with_account(s1, t.client) == s1);
}

/// Round-trip law: a deposit followed by a withdrawal of the same
/// positive amount, under fresh identifiers, is accepted twice and
/// returns the client's balances — in particular `available` — to their
/// prior values.
pub proof fn lemma_deposit_withdraw_round_trip(s: LedgerView, d: Transaction, w: Transaction)
    requires
        ledger_wf(s),
        deposit_fits(s, d),
        d.tx_type is Deposit,
        w.tx_type is Withdrawal,
        w.client == d.client,
        w.amount == d.amount,
        d.amount matches Some(a) && a.units > 0,
        !s.journal.contains_key(d.tx),
        !s.journal.contains_key(w.tx),
        w.tx != d.tx,
        !account_or_fresh(s, d.client).locked,
    ensures
        ({
            let s1 = step(s, d).0;
            let s2 = step(s1, w).0;
            &&& step(s, d).1 == Ok::<(), TransactionError>(())
            &&& step(s1, w).1 == Ok::<(), TransactionError>(())
            &&& s2.accounts[d.client].available == account_or_fresh(s, d.client).available
            &&& s2.accounts[d.client].held == account_or_fresh(s, d.client).held
            &&& s2.accounts[d.client].locked == account_or_fresh(s, d.client).locked
        }),
{
    let a0 = account_or_fresh(s, d.client);
    assert(a0.inv());
    let s1 = step(s, d).0;
    assert(s1.accounts[d.client].available.units == a0.available.units + d.amount->0.units);
    assert(with_account(s1, w.client) == s1);
}

} // verus!
