//! A transaction produced by the generator and carried through signing and a
//! single submission.
use vstd::prelude::*;

use crate::consensus::{
    clone_entry, clone_transaction, input_count, input_count_of, rpc_of, schnorr_signed,
    sign_transaction, to_rpc, transaction_id, tx_id_of,
};
use crate::error::PendingError;
use crate::keys::{is_valid_secret_key, valid_secret_key};
use kaspa_addresses::Address;
use kaspa_consensus_core::tx::{Transaction, TransactionOutpoint, UtxoEntry};
use kaspa_rpc_core::RpcTransaction;

verus! {

/// A UTXO that a pending transaction spends: where it is, and what it holds.
pub struct UtxoEntryReference {
    pub outpoint: TransactionOutpoint,
    pub entry: UtxoEntry,
}

/// A signing capability bound at the generator. It signs a transaction whose
/// inputs spend `entries`, on behalf of `addresses`, and returns the signed
/// transaction, or a message that reaches the caller as `PendingError::Signer`.
pub trait Signer {
    fn try_sign(&self, tx: Transaction, entries: &Vec<UtxoEntry>, addresses: &Vec<Address>) -> Result<
        Transaction,
        String,
    >;
}

/// The abstract state of a pending transaction.
pub struct PendingView {
    /// The current transaction body, replaced as a whole by signing.
    pub tx: Transaction,
    /// The UTXO entry spent by each input of `tx`, in input order.
    pub entries: Seq<UtxoEntry>,
    pub utxo_entries: Seq<UtxoEntryReference>,
    pub addresses: Seq<Address>,
    pub committed: bool,
    pub payment_value: Option<u64>,
    pub change_value: u64,
    pub aggregate_input_value: u64,
    pub aggregate_output_value: u64,
    pub fees: u64,
    pub is_final: bool,
}

/// What a submission does once the instance has been committed: tell the UTXO
/// lifecycle notifier, if one is bound, that the transaction is outgoing, then
/// hand `wire` to the transport once.
pub struct SubmitPlan {
    pub notify_outgoing: bool,
    pub wire: RpcTransaction,
}

/// What one operation does to the state of an instance: a submission sets the
/// commit flag, a successful signing installs a new body, and everything else
/// (reads, failed signing, a refused submission) leaves the state as it was.
pub enum Step {
    Submit,
    Signed(Transaction),
    Unchanged,
}

/// The state after one operation.
pub open spec fn step(v: PendingView, s: Step) -> PendingView {
    match s {
        Step::Submit => PendingView { committed: true, ..v },
        Step::Signed(t) => PendingView { tx: t, ..v },
        Step::Unchanged => v,
    }
}

/// The outcome of committing an instance whose commit flag is `committed`.
pub open spec fn commit_outcome(committed: bool) -> Result<(), PendingError> {
    if committed {
        Err(PendingError::DoubleCommit)
    } else {
        Ok(())
    }
}

/// The plan of a submission of a transaction `tx` whose commit flag is
/// `committed`, with or without a notifier bound.
pub open spec fn submit_outcome(committed: bool, notifier_bound: bool, tx: Transaction) -> Result<
    SubmitPlan,
    PendingError,
> {
    if committed {
        Err(PendingError::DoubleCommit)
    } else {
        Ok(SubmitPlan { notify_outgoing: notifier_bound, wire: rpc_of(tx) })
    }
}

/// How many times a submission with this outcome calls the notifier.
pub open spec fn notifier_calls(r: Result<SubmitPlan, PendingError>) -> nat {
    match r {
        Ok(plan) => if plan.notify_outgoing { 1 } else { 0 },
        Err(_) => 0,
    }
}

/// How many wire projections a submission with this outcome hands to the
/// transport.
pub open spec fn transport_calls(r: Result<SubmitPlan, PendingError>) -> nat {
    match r {
        Ok(_) => 1,
        Err(_) => 0,
    }
}

/// A copy of a list of UTXO entries.
fn copy_entries(v: &Vec<UtxoEntry>) -> (r: Vec<UtxoEntry>)
    ensures
        r@ == v@,
{
    let mut r: Vec<UtxoEntry> = Vec::new();
    let mut i: usize = 0;
    while i < v.len()
        invariant
            0 <= i <= v@.len(),
            r@ == v@.subrange(0, i as int),
        decreases v@.len() - i,
    {
        r.push(clone_entry(&v[i]));
        i = i + 1;
        assert(r@ =~= v@.subrange(0, i as int));
    }
    assert(v@ =~= v@.subrange(0, v@.len() as int));
    r
}

/// Meta transaction wrapping a transaction produced by the generator, with the
/// UTXOs that it spends, the addresses that own them and its economics.
pub struct PendingTransaction {
    tx: Transaction,
    entries: Vec<UtxoEntry>,
    utxo_entries: Vec<UtxoEntryReference>,
    addresses: Vec<Address>,
    is_committed: bool,
    payment_value: Option<u64>,
    change_value: u64,
    aggregate_input_value: u64,
    aggregate_output_value: u64,
    fees: u64,
    is_final: bool,
}

impl View for PendingTransaction {
    type V = PendingView;

    closed spec fn view(&self) -> PendingView {
        PendingView {
            tx: self.tx,
            entries: self.entries@,
            utxo_entries: self.utxo_entries@,
            addresses: self.addresses@,
            committed: self.is_committed,
            payment_value: self.payment_value,
            change_value: self.change_value,
            aggregate_input_value: self.aggregate_input_value,
            aggregate_output_value: self.aggregate_output_value,
            fees: self.fees,
            is_final: self.is_final,
        }
    }
}

impl PendingTransaction {
    /// The identifier of the current payload.
    pub open spec fn identifier(&self) -> kaspa_consensus_core::Hash {
        tx_id_of(self@.tx)
    }

    /// Whether this is one element of a multi-transaction batch.
    pub open spec fn batch(&self) -> bool {
        !self@.is_final
    }

    /// Whether the payload has one UTXO entry per input, as signing needs.
    pub open spec fn signable(&self) -> bool {
        self@.entries.len() == input_count_of(self@.tx)
    }

    /// Builds an uncommitted instance from a transaction body and the UTXOs
    /// that it spends, in input order. Fails when the body's input count and
    /// the number of UTXOs differ.
    pub fn try_new(
        transaction: Transaction,
        utxo_entries: Vec<UtxoEntryReference>,
        addresses: Vec<Address>,
        payment_value: Option<u64>,
        change_value: u64,
        aggregate_input_value: u64,
        aggregate_output_value: u64,
        fees: u64,
        is_final: bool,
    ) -> (r: Result<Self, PendingError>)
        ensures
            r is Err <==> input_count_of(transaction) != utxo_entries@.len(),
            r is Err ==> r == Err::<Self, PendingError>(
                PendingError::InputCountMismatch {
                    inputs: input_count_of(transaction) as usize,
                    entries: utxo_entries@.len() as usize,
                },
            ),
            r matches Ok(p) ==> {
                &&& p@.tx == transaction
                &&& p@.entries.len() == utxo_entries@.len()
                &&& forall|i: int|
                    0 <= i < utxo_entries@.len() ==> #[trigger] p@.entries[i]
                        == utxo_entries@[i].entry
                &&& p@.utxo_entries == utxo_entries@
                &&& p@.addresses == addresses@
                &&& !p@.committed
                &&& p@.payment_value == payment_value
                &&& p@.change_value == change_value
                &&& p@.aggregate_input_value == aggregate_input_value
                &&& p@.aggregate_output_value == aggregate_output_value
                &&& p@.fees == fees
                &&& p@.is_final == is_final
                &&& p.signable()
            },
    {
        let inputs = input_count(&transaction);
        if inputs != utxo_entries.len() {
            return Err(PendingError::InputCountMismatch { inputs, entries: utxo_entries.len() });
        }
        let mut entries: Vec<UtxoEntry> = Vec::new();
        let mut i: usize = 0;
        while i < utxo_entries.len()
            invariant
                0 <= i <= utxo_entries@.len(),
                entries@.len() == i,
                forall|j: int| 0 <= j < i ==> #[trigger] entries@[j] == utxo_entries@[j].entry,
            decreases utxo_entries@.len() - i,
        {
            entries.push(clone_entry(&utxo_entries[i].entry));
            i = i + 1;
        }
        Ok(PendingTransaction {
            tx: transaction,
            entries,
            utxo_entries,
            addresses,
            is_committed: false,
            payment_value,
            change_value,
            aggregate_input_value,
            aggregate_output_value,
            fees,
            is_final,
        })
    }

    /// The identifier of the current payload, read afresh on every call.
    pub fn id(&self) -> (r: kaspa_consensus_core::Hash)
        ensures
            r == self.identifier(),
    {
        transaction_id(&self.tx)
    }

    /// Addresses that own the UTXOs spent by this transaction.
    pub fn addresses(&self) -> (r: &Vec<Address>)
        ensures
            r@ == self@.addresses,
    {
        &self.addresses
    }

    /// The UTXOs spent by this transaction.
    pub fn utxo_entries(&self) -> (r: &Vec<UtxoEntryReference>)
        ensures
            r@ == self@.utxo_entries,
    {
        &self.utxo_entries
    }

    pub fn fees(&self) -> (r: u64)
        ensures
            r == self@.fees,
    {
        self.fees
    }

    pub fn input_aggregate_value(&self) -> (r: u64)
        ensures
            r == self@.aggregate_input_value,
    {
        self.aggregate_input_value
    }

    pub fn output_aggregate_value(&self) -> (r: u64)
        ensures
            r == self@.aggregate_output_value,
    {
        self.aggregate_output_value
    }

    /// The destination amount; `None` for a pure consolidation.
    pub fn payment_value(&self) -> (r: Option<u64>)
        ensures
            r == self@.payment_value,
    {
        self.payment_value
    }

    pub fn change_value(&self) -> (r: u64)
        ensures
            r == self@.change_value,
    {
        self.change_value
    }

    /// Whether this is a standalone transaction.
    pub fn is_final(&self) -> (r: bool)
        ensures
            r == self@.is_final,
    {
        self.is_final
    }

    /// Whether this is one element of a multi-transaction batch.
    pub fn is_batch(&self) -> (r: bool)
        ensures
            r == self.batch(),
            r == !self@.is_final,
    {
        !self.is_final
    }

    /// Whether this instance has been committed for submission.
    pub fn is_committed(&self) -> (r: bool)
        ensures
            r == self@.committed,
    {
        self.is_committed
    }

    /// An independent copy of the current transaction body.
    pub fn transaction(&self) -> (r: Transaction)
        ensures
            r == self@.tx,
    {
        clone_transaction(&self.tx)
    }

    /// The RPC form of the current transaction body.
    pub fn rpc_transaction(&self) -> (r: RpcTransaction)
        ensures
            r == rpc_of(self@.tx),
    {
        to_rpc(&self.tx)
    }

    /// The commit gate: the first call marks the instance committed; any later
    /// call is a double commit and changes nothing.
    pub(crate) fn commit(&mut self) -> (r: Result<(), PendingError>)
        ensures
            r == commit_outcome(old(self)@.committed),
            final(self)@ == (PendingView { committed: true, ..old(self)@ }),
    {
        if self.is_committed {
            return Err(PendingError::DoubleCommit);
        }
        self.is_committed = true;
        Ok(())
    }

    /// Commits the instance and, on success, returns what the submission does
    /// next: notify the outgoing transaction when a notifier is bound, then hand
    /// the RPC form of the current payload to the transport once. A second
    /// submission is a double commit and plans nothing.
    pub fn begin_submit(&mut self, notifier_bound: bool) -> (r: Result<SubmitPlan, PendingError>)
        ensures
            r == submit_outcome(old(self)@.committed, notifier_bound, old(self)@.tx),
            final(self)@ == step(old(self)@, Step::Submit),
    {
        match self.commit() {
            Err(e) => Err(e),
            Ok(()) => Ok(SubmitPlan { notify_outgoing: notifier_bound, wire: self.rpc_transaction() }),
        }
    }

    /// Replaces the payload's transaction body, as a whole, with a signed one.
    fn apply_signed(&mut self, signed: Transaction)
        ensures
            final(self)@ == (PendingView { tx: signed, ..old(self)@ }),
    {
        self.tx = signed;
    }

    /// Installs what a signer returned: a signed body with one input per UTXO
    /// entry replaces the payload as a whole; a body with another input count
    /// is refused; a signer's message is passed on. On failure nothing changes.
    pub fn finish_sign(&mut self, signed: Result<Transaction, String>) -> (r: Result<(), PendingError>)
        ensures
            signed matches Ok(t) ==> if input_count_of(t) == old(self)@.entries.len() {
                &&& r == Ok::<(), PendingError>(())
                &&& final(self)@ == (PendingView { tx: t, ..old(self)@ })
            } else {
                &&& r == Err::<(), PendingError>(
                    PendingError::InputCountMismatch {
                        inputs: input_count_of(t) as usize,
                        entries: old(self)@.entries.len() as usize,
                    },
                )
                &&& final(self)@ == old(self)@
            },
            signed matches Err(m) ==> {
                &&& r == Err::<(), PendingError>(PendingError::Signer(m))
                &&& final(self)@ == old(self)@
            },
    {
        match signed {
            Err(m) => Err(PendingError::Signer(m)),
            Ok(t) => {
                let inputs = input_count(&t);
                if inputs != self.entries.len() {
                    return Err(PendingError::InputCountMismatch { inputs, entries: self.entries.len() });
                }
                self.apply_signed(t);
                Ok(())
            },
        }
    }

    /// Signs the payload with the signer bound at the generator, handing it a
    /// copy of the current body with the UTXO entries and addresses, and
    /// installs the result with `finish_sign`. Without a signer this is a
    /// configuration error. On failure nothing changes. Signing is allowed
    /// after commit too, as it is before: the commit flag is kept.
    pub fn try_sign<S: Signer>(&mut self, signer: Option<&S>) -> (r: Result<(), PendingError>)
        ensures
            signer is None <==> r == Err::<(), PendingError>(PendingError::MissingSigner),
            signer is Some ==> (r is Ok || r matches Err(PendingError::Signer(_)) || r matches Err(
                PendingError::InputCountMismatch { .. },
            )),
            r is Err ==> final(self)@ == old(self)@,
            r is Ok ==> final(self)@ == step(old(self)@, Step::Signed(final(self)@.tx)),
            r is Ok ==> input_count_of(final(self)@.tx) == old(self)@.entries.len(),
    {
        match signer {
            None => Err(PendingError::MissingSigner),
            Some(s) => {
                let unsigned = clone_transaction(&self.tx);
                let signed = s.try_sign(unsigned, &self.entries, &self.addresses);
                self.finish_sign(signed)
            },
        }
    }

    /// Signs the payload with explicit private keys and replaces it with the
    /// result, which may still be only partially signed. Fails, changing
    /// nothing, on the first key that is not a valid secp256k1 secret key, or
    /// when the payload does not hold one UTXO entry per input.
    pub fn try_sign_with_keys(&mut self, privkeys: Vec<[u8; 32]>) -> (r: Result<(), PendingError>)
        ensures
            r is Ok <==> (old(self).signable() && forall|i: int|
                0 <= i < privkeys@.len() ==> valid_secret_key(#[trigger] privkeys@[i]@)),
            r matches Err(PendingError::InvalidPrivateKey { index }) ==> {
                &&& index < privkeys@.len()
                &&& !valid_secret_key(privkeys@[index as int]@)
                &&& forall|i: int| 0 <= i < index ==> valid_secret_key(#[trigger] privkeys@[i]@)
            },
            (forall|i: int| 0 <= i < privkeys@.len() ==> valid_secret_key(#[trigger] privkeys@[i]@))
                && !old(self).signable() ==> r == Err::<(), PendingError>(
                PendingError::InputCountMismatch {
                    inputs: input_count_of(old(self)@.tx) as usize,
                    entries: old(self)@.entries.len() as usize,
                },
            ),
            r is Err ==> final(self)@ == old(self)@,
            r is Ok ==> final(self)@ == step(old(self)@, Step::Signed(final(self)@.tx)),
            r is Ok ==> schnorr_signed(final(self)@.tx, old(self)@.tx, old(self)@.entries, privkeys@),
            r is Ok ==> final(self).identifier() == old(self).identifier(),
            r is Ok ==> final(self).signable(),
    {
        let mut i: usize = 0;
        while i < privkeys.len()
            invariant
                0 <= i <= privkeys@.len(),
                forall|j: int| 0 <= j < i ==> valid_secret_key(#[trigger] privkeys@[j]@),
            decreases privkeys@.len() - i,
        {
            if !is_valid_secret_key(&privkeys[i]) {
                return Err(PendingError::InvalidPrivateKey { index: i });
            }
            i = i + 1;
        }
        let inputs = input_count(&self.tx);
        if inputs != self.entries.len() {
            return Err(PendingError::InputCountMismatch { inputs, entries: self.entries.len() });
        }
        let unsigned = clone_transaction(&self.tx);
        let entries = copy_entries(&self.entries);
        let signed = sign_transaction(unsigned, entries, &privkeys);
        self.apply_signed(signed);
        Ok(())
    }
}

} // verus!
