use kaspa_addresses::{Address, Prefix, Version};
use kaspa_consensus_core::sign::verify;
use kaspa_consensus_core::subnets::SUBNETWORK_ID_NATIVE;
use kaspa_consensus_core::tx::{
    ScriptPublicKey, SignableTransaction, Transaction, TransactionInput, TransactionOutpoint,
    TransactionOutput, UtxoEntry,
};

use pending_tx::error::PendingError;
use pending_tx::keys::is_valid_secret_key;
use pending_tx::pending::{PendingTransaction, Signer, UtxoEntryReference};
use std::cell::Cell;

/// The x coordinate of the secp256k1 generator: the x-only public key of the
/// secret key 1.
const GENERATOR_X: [u8; 32] = [
    0x79, 0xbe, 0x66, 0x7e, 0xf9, 0xdc, 0xbb, 0xac, 0x55, 0xa0, 0x62, 0x95, 0xce, 0x87, 0x0b, 0x07,
    0x02, 0x9b, 0xfc, 0xdb, 0x2d, 0xce, 0x28, 0xd9, 0x59, 0xf2, 0x81, 0x5b, 0x16, 0xf8, 0x17, 0x98,
];

const GROUP_ORDER: [u8; 32] = [
    0xff, 0xff, 0xff, 0xff, 0xff, 0xff, 0xff, 0xff, 0xff, 0xff, 0xff, 0xff, 0xff, 0xff, 0xff, 0xfe,
    0xba, 0xae, 0xdc, 0xe6, 0xaf, 0x48, 0xa0, 0x3b, 0xbf, 0xd2, 0x5e, 0x8c, 0xd0, 0x36, 0x41, 0x41,
];

fn key_one() -> [u8; 32] {
    let mut k = [0u8; 32];
    k[31] = 1;
    k
}

fn pay_to_key_one() -> ScriptPublicKey {
    let mut script = vec![0x20u8];
    script.extend_from_slice(&GENERATOR_X);
    script.push(0xac);
    ScriptPublicKey::from_vec(0, script)
}

fn outpoint(n: u8) -> TransactionOutpoint {
    TransactionOutpoint::new(kaspa_consensus_core::Hash::from_bytes([n; 32]), n as u32)
}

fn body(inputs: u8) -> Transaction {
    let ins = (0..inputs).map(|n| TransactionInput::new(outpoint(n), vec![], 0, 1)).collect();
    let outs = vec![TransactionOutput::new(900, pay_to_key_one())];
    Transaction::new(0, ins, outs, 0, SUBNETWORK_ID_NATIVE, 0, vec![])
}

fn utxos(n: u8) -> Vec<UtxoEntryReference> {
    (0..n)
        .map(|i| UtxoEntryReference {
            outpoint: outpoint(i),
            entry: UtxoEntry::new(500, pay_to_key_one(), 10, false, None),
        })
        .collect()
}

fn address() -> Address {
    Address::new(Prefix::Testnet, Version::PubKey, &GENERATOR_X)
}

fn example(is_final: bool) -> PendingTransaction {
    PendingTransaction::try_new(body(2), utxos(2), vec![address()], Some(900), 0, 1000, 900, 100, is_final)
        .unwrap()
}

struct MockSigner {
    calls: Cell<u32>,
    fail: bool,
}

impl Signer for MockSigner {
    fn try_sign(
        &self,
        mut tx: Transaction,
        _entries: &Vec<UtxoEntry>,
        _addresses: &Vec<Address>,
    ) -> Result<Transaction, String> {
        self.calls.set(self.calls.get() + 1);
        if self.fail {
            return Err("key unavailable".to_string());
        }
        for input in tx.inputs.iter_mut() {
            input.signature_script = vec![7, 7, 7];
        }
        Ok(tx)
    }
}

#[test]
fn example_scenario_economics() {
    let p = example(true);
    assert_eq!(p.fees(), 100);
    assert_eq!(p.input_aggregate_value(), 1000);
    assert_eq!(p.output_aggregate_value(), 900);
    assert_eq!(p.change_value(), 0);
    assert_eq!(p.payment_value(), Some(900));
    assert!(p.is_final());
    assert!(!p.is_batch());
    assert!(!p.is_committed());
}

#[test]
fn example_scenario_submit_twice() {
    let mut p = example(true);
    let mut transport_calls = 0u32;
    let mut notifier_calls = 0u32;
    let mut ids = Vec::new();
    for _ in 0..2 {
        match p.begin_submit(true) {
            Ok(plan) => {
                if plan.notify_outgoing {
                    notifier_calls += 1;
                }
                transport_calls += 1;
                assert_eq!(plan.wire.lock_time, 0);
                ids.push("abc".to_string());
            }
            Err(e) => assert_eq!(e, PendingError::DoubleCommit),
        }
    }
    assert_eq!(ids, vec!["abc".to_string()]);
    assert_eq!(transport_calls, 1);
    assert_eq!(notifier_calls, 1);
    assert!(p.is_committed());
}

#[test]
fn submit_without_notifier_plans_no_notification() {
    let mut p = example(false);
    let plan = p.begin_submit(false).unwrap();
    assert!(!plan.notify_outgoing);
    assert_eq!(plan.wire.inputs.len(), 2);
    assert_eq!(plan.wire.outputs[0].value, 900);
}

#[test]
fn commit_succeeds_once() {
    let mut p = example(true);
    assert!(p.begin_submit(false).is_ok());
    assert!(p.is_committed());
    assert!(matches!(p.begin_submit(false), Err(PendingError::DoubleCommit)));
    assert!(matches!(p.begin_submit(true), Err(PendingError::DoubleCommit)));
    assert!(p.is_committed());
}

#[test]
fn signing_after_commit_keeps_commit_flag() {
    let mut p = example(true);
    assert!(p.begin_submit(true).is_ok());
    assert_eq!(p.try_sign_with_keys(vec![key_one()]), Ok(()));
    assert!(p.is_committed());
    assert!(matches!(p.begin_submit(true), Err(PendingError::DoubleCommit)));
}

#[test]
fn finish_sign_installs_body() {
    let mut p = example(true);
    let mut signed = body(2);
    signed.inputs[0].signature_script = vec![1, 2, 3];
    assert_eq!(p.finish_sign(Ok(signed.clone())), Ok(()));
    assert_eq!(p.transaction(), signed);
}

#[test]
fn finish_sign_passes_signer_message() {
    let mut p = example(true);
    assert_eq!(p.finish_sign(Err("device locked".to_string())), Err(PendingError::Signer("device locked".to_string())));
    assert_eq!(p.transaction(), body(2));
}

#[test]
fn finish_sign_refuses_other_input_count() {
    let mut p = example(true);
    assert_eq!(p.finish_sign(Ok(body(3))), Err(PendingError::InputCountMismatch { inputs: 3, entries: 2 }));
    assert_eq!(p.transaction(), body(2));
}

#[test]
fn batch_is_not_final() {
    assert!(example(false).is_batch());
    assert!(!example(false).is_final());
    assert!(!example(true).is_batch());
}

#[test]
fn mismatched_inputs_are_rejected() {
    let r = PendingTransaction::try_new(body(2), utxos(3), vec![], None, 0, 0, 0, 0, true);
    assert!(matches!(r, Err(PendingError::InputCountMismatch { inputs: 2, entries: 3 })));
}

#[test]
fn construction_keeps_inputs_and_addresses() {
    let p = PendingTransaction::try_new(body(3), utxos(3), vec![address()], None, 5, 1500, 1495, 5, false)
        .unwrap();
    assert_eq!(p.utxo_entries().len(), 3);
    assert_eq!(p.utxo_entries()[2].outpoint, outpoint(2));
    assert_eq!(p.addresses(), &vec![address()]);
    assert_eq!(p.payment_value(), None);
    assert_eq!(p.change_value(), 5);
}

#[test]
fn identifier_is_stable_for_a_fixed_payload() {
    let mut p = example(true);
    let id = p.id();
    assert_eq!(id, body(2).id());
    assert_eq!(p.id(), id);
    p.begin_submit(true).unwrap();
    assert_eq!(p.id(), id);
    let none: Option<&MockSigner> = None;
    assert!(p.try_sign(none).is_err());
    assert_eq!(p.id(), id);
    assert_eq!(p.transaction(), body(2));
}

#[test]
fn sign_without_signer_is_a_configuration_error() {
    let mut p = example(true);
    let none: Option<&MockSigner> = None;
    assert_eq!(p.try_sign(none), Err(PendingError::MissingSigner));
    assert_eq!(p.transaction(), body(2));
}

#[test]
fn signer_failure_leaves_payload() {
    let mut p = example(true);
    let signer = MockSigner { calls: Cell::new(0), fail: true };
    assert_eq!(p.try_sign(Some(&signer)), Err(PendingError::Signer("key unavailable".to_string())));
    assert_eq!(signer.calls.get(), 1);
    assert_eq!(p.transaction(), body(2));
}

#[test]
fn signer_result_replaces_payload_whole() {
    let mut p = example(true);
    let signer = MockSigner { calls: Cell::new(0), fail: false };
    assert_eq!(p.try_sign(Some(&signer)), Ok(()));
    let tx = p.transaction();
    assert!(tx.inputs.iter().all(|i| i.signature_script == vec![7, 7, 7]));
    assert_eq!(p.rpc_transaction().inputs[1].signature_script, vec![7, 7, 7]);
}

#[test]
fn signed_payload_validates() {
    let mut p = example(true);
    assert_eq!(p.try_sign_with_keys(vec![key_one()]), Ok(()));
    let tx = p.transaction();
    assert!(tx.inputs.iter().all(|i| i.signature_script.len() == 66));
    let entries = p.utxo_entries().iter().map(|u| u.entry.clone()).collect();
    let signable = SignableTransaction::with_entries(tx, entries);
    assert!(verify(&signable.as_verifiable()).is_ok());
}

#[test]
fn key_signing_keeps_identifier() {
    let mut p = example(true);
    let id = p.id();
    p.try_sign_with_keys(vec![key_one()]).unwrap();
    assert_eq!(p.id(), id);
    assert_ne!(p.transaction(), body(2));
}

#[test]
fn unmatched_key_leaves_inputs_unsigned() {
    let mut p = example(true);
    let mut other = key_one();
    other[31] = 2;
    assert_eq!(p.try_sign_with_keys(vec![other]), Ok(()));
    assert_eq!(p.transaction(), body(2));
}

#[test]
fn invalid_keys_are_rejected() {
    let mut p = example(true);
    assert_eq!(
        p.try_sign_with_keys(vec![key_one(), [0u8; 32]]),
        Err(PendingError::InvalidPrivateKey { index: 1 })
    );
    assert_eq!(p.try_sign_with_keys(vec![GROUP_ORDER]), Err(PendingError::InvalidPrivateKey { index: 0 }));
    assert_eq!(p.transaction(), body(2));
}

#[test]
fn secret_key_range() {
    assert!(!is_valid_secret_key(&[0u8; 32]));
    assert!(is_valid_secret_key(&key_one()));
    assert!(!is_valid_secret_key(&GROUP_ORDER));
    assert!(!is_valid_secret_key(&[0xffu8; 32]));
    let mut below = GROUP_ORDER;
    below[31] = 0x40;
    assert!(is_valid_secret_key(&below));
    let mut above = GROUP_ORDER;
    above[20] = 0xaf;
    assert!(!is_valid_secret_key(&above));
}
