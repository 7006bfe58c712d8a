//! Declarations of the consensus and RPC types that a pending transaction
//! carries, and the trusted items through which the library calls into them.
use vstd::prelude::*;

use kaspa_addresses::Address;
use kaspa_consensus_core::sign::{sign_with_multiple_v2, Signed};
use kaspa_consensus_core::tx::{SignableTransaction, Transaction, TransactionOutpoint, UtxoEntry};
use kaspa_rpc_core::RpcTransaction;

verus! {

#[verifier::external_type_specification]
#[verifier::external_body]
pub struct ExTransaction(Transaction);

#[verifier::external_type_specification]
#[verifier::external_body]
pub struct ExUtxoEntry(UtxoEntry);

#[verifier::external_type_specification]
#[verifier::external_body]
pub struct ExTransactionOutpoint(TransactionOutpoint);

#[verifier::external_type_specification]
#[verifier::external_body]
pub struct ExHash(kaspa_consensus_core::Hash);

#[verifier::external_type_specification]
#[verifier::external_body]
pub struct ExAddress(Address);

#[verifier::external_type_specification]
#[verifier::external_body]
pub struct ExRpcTransaction(RpcTransaction);

/// The number of inputs of a transaction.
pub uninterp spec fn input_count_of(tx: Transaction) -> nat;

/// The identifier that a transaction carries.
pub uninterp spec fn tx_id_of(tx: Transaction) -> kaspa_consensus_core::Hash;

/// The RPC form of a transaction.
pub uninterp spec fn rpc_of(tx: Transaction) -> RpcTransaction;

/// Whether `signed` is `unsigned` with each input whose UTXO entry pays to the
/// x-only public key of one of `keys` carrying, as its signature script, a
/// Schnorr signature by that key over the input's `SIG_HASH_ALL` signature
/// hash, and with every other input and field unchanged. The signature itself
/// is not fixed: signing draws fresh auxiliary randomness.
pub uninterp spec fn schnorr_signed(
    signed: Transaction,
    unsigned: Transaction,
    entries: Seq<UtxoEntry>,
    keys: Seq<[u8; 32]>,
) -> bool;

/// Relies on the public `inputs` field of `Transaction`: the length of its
/// input list.
#[verifier::external_body]
pub(crate) fn input_count(tx: &Transaction) -> (r: usize)
    ensures
        r == input_count_of(*tx),
{
    tx.inputs.len()
}

/// Relies on `Transaction::id`, which returns the identifier cached in the
/// transaction.
#[verifier::external_body]
pub(crate) fn transaction_id(tx: &Transaction) -> (r: kaspa_consensus_core::Hash)
    ensures
        r == tx_id_of(*tx),
{
    tx.id()
}

/// Relies on the derived `Clone` of `Transaction`: a field by field copy.
#[verifier::external_body]
pub(crate) fn clone_transaction(tx: &Transaction) -> (r: Transaction)
    ensures
        r == *tx,
{
    tx.clone()
}

/// Relies on the derived `Clone` of `UtxoEntry`: a field by field copy.
#[verifier::external_body]
pub(crate) fn clone_entry(e: &UtxoEntry) -> (r: UtxoEntry)
    ensures
        r == *e,
{
    e.clone()
}

/// Relies on `From<&Transaction> for RpcTransaction` of the RPC crate, which
/// copies the transaction's fields into its RPC form.
#[verifier::external_body]
pub(crate) fn to_rpc(tx: &Transaction) -> (r: RpcTransaction)
    ensures
        r == rpc_of(*tx),
{
    RpcTransaction::from(tx)
}

/// Relies on `sign_with_multiple_v2`, applied to `SignableTransaction::with_entries`
/// of the transaction and its entries. `with_entries` panics unless there is one
/// entry per input, and the signing routine panics on a key that is not a valid
/// secp256k1 secret key. Signing writes the signature scripts of the inputs and
/// nothing else: the input count and the cached identifier stay. Each
/// signature draws auxiliary randomness, so two calls on one input may differ.
/// Fully and partially signed results are both taken.
#[verifier::external_body]
pub(crate) fn sign_transaction(tx: Transaction, entries: Vec<UtxoEntry>, keys: &Vec<[u8; 32]>) -> (r:
    Transaction)
    requires
        entries@.len() == input_count_of(tx),
        forall|i: int| 0 <= i < keys@.len() ==> crate::keys::valid_secret_key(#[trigger] keys@[i]@),
    ensures
        schnorr_signed(r, tx, entries@, keys@),
        input_count_of(r) == input_count_of(tx),
        tx_id_of(r) == tx_id_of(tx),
{
    match sign_with_multiple_v2(SignableTransaction::with_entries(tx, entries), keys) {
        Signed::Fully(signed) => signed.tx,
        Signed::Partially(signed) => signed.tx,
    }
}

} // verus!
