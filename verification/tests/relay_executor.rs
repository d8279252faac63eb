use crosschain_bridge::authority::Confirmation;
use crosschain_bridge::error::Error;
use crosschain_bridge::executor::{
    allowed_message, confirmed_message, Executor, ReplayRegistry,
};
use crosschain_bridge::governance::Guard;
use crosschain_bridge::payload::{push_length_prefixed, split_arguments, RelayCall};

fn id(n: u8) -> Vec<u8> {
    vec![n; 32]
}

fn address(n: u8) -> Vec<u8> {
    let mut a = vec![n; 26];
    a[0] = 1;
    a[1] = 86;
    a
}

fn executor() -> Executor {
    Executor::construct(false, id(10), id(11), address(5), 7, vec![9; 32]).unwrap()
}

fn call() -> RelayCall {
    RelayCall {
        contract: id(42),
        function_name: b"mint".to_vec(),
        function_args: b"alice####100".to_vec(),
        caller_chain_id: 3,
        execution_chain_id: 7,
        nonce: 12,
        tx_hash: b"0xabc".to_vec(),
    }
}

fn signature() -> Vec<u8> {
    vec![1; 64]
}

#[test]
fn executor_construct_stores_configuration() {
    let x = executor();
    assert_eq!(x.guard.this, id(10));
    assert_eq!(x.guard.multisig, id(11));
    assert_eq!(x.guard.pauser, address(5));
    assert!(!x.guard.paused);
    assert_eq!(x.chain_id, 7);
    assert_eq!(x.signer_public_key, vec![9; 32]);
}

#[test]
fn executor_construct_rejects_bad_input_in_order() {
    let e = |r: Result<Executor, Error>| r.err();
    assert_eq!(
        e(Executor::construct(true, id(10), vec![], vec![], 0, vec![])),
        Some(Error::AlreadyInitialized)
    );
    assert_eq!(
        e(Executor::construct(false, id(10), vec![1; 31], vec![], 0, vec![])),
        Some(Error::InvalidMultisig)
    );
    assert_eq!(
        e(Executor::construct(false, id(10), id(11), vec![1; 26], 0, vec![])),
        Some(Error::InvalidPauser)
    );
    assert_eq!(
        e(Executor::construct(false, id(10), id(11), address(5), 0, vec![])),
        Some(Error::InvalidChainId)
    );
    assert_eq!(
        e(Executor::construct(false, id(10), id(11), address(5), -3, vec![9; 32])),
        Some(Error::InvalidChainId)
    );
    assert_eq!(
        e(Executor::construct(false, id(10), id(11), address(5), 1, vec![9; 33])),
        Some(Error::InvalidSignerKey)
    );
}

#[test]
fn arguments_are_split_on_the_separator() {
    let args = split_arguments(b"alice####100####x");
    assert_eq!(args, vec![b"alice".to_vec(), b"100".to_vec(), b"x".to_vec()]);
    assert_eq!(split_arguments(b"single"), vec![b"single".to_vec()]);
}

#[test]
fn empty_tail_segment_counts_as_argument() {
    assert_eq!(split_arguments(b"a####"), vec![b"a".to_vec(), Vec::new()]);
    assert_eq!(split_arguments(b""), vec![Vec::<u8>::new()]);
}

#[test]
fn length_prefix_is_eight_bytes_big_endian() {
    let mut out = vec![7u8];
    push_length_prefixed(&mut out, b"abc");
    assert_eq!(out, vec![7, 0, 0, 0, 0, 0, 0, 0, 3, b'a', b'b', b'c']);
}

#[test]
fn canonical_payload_is_byte_exact() {
    let mut expected: Vec<u8> = Vec::new();
    expected.extend_from_slice(&3i64.to_be_bytes());
    expected.extend_from_slice(&7i64.to_be_bytes());
    expected.extend_from_slice(&12i64.to_be_bytes());
    expected.extend_from_slice(&5i64.to_be_bytes());
    expected.extend_from_slice(b"0xabc");
    expected.extend_from_slice(&[42u8; 32]);
    expected.extend_from_slice(&4i64.to_be_bytes());
    expected.extend_from_slice(b"mint");
    expected.extend_from_slice(&2i64.to_be_bytes());
    expected.extend_from_slice(&5i64.to_be_bytes());
    expected.extend_from_slice(b"alice");
    expected.extend_from_slice(&3i64.to_be_bytes());
    expected.extend_from_slice(b"100");
    assert_eq!(call().payload(), expected);
    assert_eq!(expected.len(), 8 * 3 + 8 + 5 + 32 + 8 + 4 + 8 + 8 + 5 + 8 + 3);
}

#[test]
fn canonical_payload_of_empty_arguments_has_one_empty_argument() {
    let mut c = call();
    c.function_args = Vec::new();
    c.tx_hash = Vec::new();
    c.function_name = Vec::new();
    let mut expected: Vec<u8> = Vec::new();
    expected.extend_from_slice(&3i64.to_be_bytes());
    expected.extend_from_slice(&7i64.to_be_bytes());
    expected.extend_from_slice(&12i64.to_be_bytes());
    expected.extend_from_slice(&0i64.to_be_bytes());
    expected.extend_from_slice(&[42u8; 32]);
    expected.extend_from_slice(&0i64.to_be_bytes());
    expected.extend_from_slice(&1i64.to_be_bytes());
    expected.extend_from_slice(&0i64.to_be_bytes());
    assert_eq!(c.payload(), expected);
}

#[test]
fn canonical_payload_changes_with_each_field() {
    let base = call().payload();
    let mut c = call();
    c.nonce = 13;
    assert_ne!(c.payload(), base);
    let mut c = call();
    c.caller_chain_id = 4;
    assert_ne!(c.payload(), base);
    let mut c = call();
    c.function_args = b"alice####101".to_vec();
    assert_ne!(c.payload(), base);
    let mut c = call();
    c.tx_hash = b"0xabd".to_vec();
    assert_ne!(c.payload(), base);
    assert_eq!(call().payload(), base);
}

#[test]
fn execute_admits_and_records() {
    let x = executor();
    let mut registry = ReplayRegistry::new();
    let d = x.execute(&mut registry, &call(), &signature(), &[8; 32], true, 1000).unwrap();
    assert_eq!(d.contract, id(42));
    assert_eq!(d.function_name, b"mint".to_vec());
    assert_eq!(d.arguments, vec![b"alice".to_vec(), b"100".to_vec()]);
    assert!(registry.contains(&[8; 32]));
    assert!(!registry.contains(&[9; 32]));
    assert_eq!(registry.entries.len(), 1);
    assert_eq!(registry.entries[0].hash, vec![8; 32]);
    assert_eq!(registry.entries[0].height, 1000);
}

#[test]
fn second_submission_of_same_payload_is_a_replay() {
    let x = executor();
    let mut registry = ReplayRegistry::new();
    let first = call();
    let second = call();
    assert_eq!(first.payload(), second.payload());
    x.execute(&mut registry, &first, &signature(), &[8; 32], true, 1000).unwrap();
    let r = x.execute(&mut registry, &second, &signature(), &[8; 32], true, 1001);
    assert_eq!(r.err(), Some(Error::DuplicateData));
    assert_eq!(registry.entries.len(), 1);
    // Another payload, under another hash, still passes.
    let mut other = call();
    other.nonce = 13;
    assert!(x.execute(&mut registry, &other, &signature(), &[7; 32], true, 1001).is_ok());
    assert_eq!(registry.entries.len(), 2);
}

#[test]
fn execute_rejects_in_order() {
    let mut x = executor();
    let mut registry = ReplayRegistry::new();
    registry.record(vec![8; 32], 5);
    let mut bad = call();
    bad.contract = vec![1; 31];
    bad.execution_chain_id = 8;
    // All is wrong and the executor is paused: paused is reported.
    x.pause(&address(5), &[]).unwrap();
    assert_eq!(
        x.execute(&mut registry, &bad, &[1; 3], &[8; 32], false, 9).err(),
        Some(Error::Paused)
    );
    x.unpause(&address(5), &[]).unwrap();
    assert_eq!(
        x.execute(&mut registry, &bad, &[1; 3], &[8; 32], false, 9).err(),
        Some(Error::InvalidContract)
    );
    bad.contract = id(42);
    assert_eq!(
        x.execute(&mut registry, &bad, &[1; 3], &[8; 32], false, 9).err(),
        Some(Error::ChainMismatch)
    );
    bad.execution_chain_id = 7;
    assert_eq!(
        x.execute(&mut registry, &bad, &[1; 3], &[8; 32], false, 9).err(),
        Some(Error::InvalidSignatureLength)
    );
    assert_eq!(
        x.execute(&mut registry, &bad, &[1; 65], &[8; 32], true, 9).err(),
        Some(Error::InvalidSignatureLength)
    );
    assert_eq!(
        x.execute(&mut registry, &bad, &signature(), &[8; 32], false, 9).err(),
        Some(Error::InvalidSignature)
    );
    assert_eq!(
        x.execute(&mut registry, &bad, &signature(), &[8; 32], true, 9).err(),
        Some(Error::DuplicateData)
    );
    assert_eq!(registry.entries.len(), 1);
}

#[test]
fn migration_messages_carry_their_domain_tags() {
    let old = vec![1u8; 32];
    let new = vec![2u8; 32];
    let mut allowed = b"<<<PUBLIC-KEY-MIGRATION-ALLOWED>>>".to_vec();
    allowed.extend_from_slice(&old);
    allowed.extend_from_slice(&new);
    assert_eq!(allowed_message(&old, &new), allowed);
    let mut confirmed = b"<<<PUBLIC-KEY-MIGRATION-CONFIRMED>>>".to_vec();
    confirmed.extend_from_slice(&old);
    confirmed.extend_from_slice(&new);
    assert_eq!(confirmed_message(&old, &new), confirmed);
    assert_ne!(allowed_message(&old, &new), confirmed_message(&old, &new));
}

#[test]
fn update_signer_needs_both_signatures() {
    let mut x = executor();
    let new_key = vec![4u8; 32];
    assert_eq!(
        x.update_signer(new_key.clone(), &signature(), &signature(), false, true),
        Err(Error::InvalidOldSignature)
    );
    assert_eq!(
        x.update_signer(new_key.clone(), &signature(), &signature(), true, false),
        Err(Error::InvalidNewSignature)
    );
    assert_eq!(
        x.update_signer(new_key.clone(), &signature(), &signature(), false, false),
        Err(Error::InvalidOldSignature)
    );
    assert_eq!(x.signer_public_key, vec![9; 32]);
    assert_eq!(x.update_signer(new_key.clone(), &signature(), &signature(), true, true), Ok(()));
    assert_eq!(x.signer_public_key, new_key);
}

#[test]
fn update_signer_checks_lengths_first() {
    let mut x = executor();
    assert_eq!(
        x.update_signer(vec![4; 31], &[1; 3], &[1; 3], false, false),
        Err(Error::InvalidSignerKey)
    );
    assert_eq!(
        x.update_signer(vec![4; 32], &[1; 63], &[1; 3], true, true),
        Err(Error::InvalidOldSignatureLength)
    );
    assert_eq!(
        x.update_signer(vec![4; 32], &[1; 64], &[1; 65], true, true),
        Err(Error::InvalidNewSignatureLength)
    );
    assert_eq!(x.signer_public_key, vec![9; 32]);
}

#[test]
fn pause_and_unpause_alternate() {
    let mut x = executor();
    assert_eq!(x.unpause(&address(5), &[]), Err(Error::NotPaused));
    assert_eq!(x.pause(&address(5), &[]), Ok(()));
    assert!(x.guard.paused);
    assert_eq!(x.pause(&address(5), &[]), Err(Error::Paused));
    let mut registry = ReplayRegistry::new();
    assert_eq!(
        x.execute(&mut registry, &call(), &signature(), &[8; 32], true, 1).err(),
        Some(Error::Paused)
    );
    assert_eq!(x.unpause(&address(5), &[]), Ok(()));
    assert!(!x.guard.paused);
    assert!(x.execute(&mut registry, &call(), &signature(), &[8; 32], true, 1).is_ok());
}

#[test]
fn only_the_pauser_pauses_and_only_directly() {
    let mut x = executor();
    assert_eq!(x.pause(&address(6), &[]), Err(Error::NotPauser));
    assert_eq!(x.pause(&address(5), &id(3)), Err(Error::RelayedCall));
    assert_eq!(x.pause(&address(6), &id(3)), Err(Error::RelayedCall));
    assert!(!x.guard.paused);
    x.pause(&address(5), &[]).unwrap();
    assert_eq!(x.unpause(&address(6), &[]), Err(Error::NotPauser));
    assert_eq!(x.unpause(&address(5), &id(3)), Err(Error::RelayedCall));
    assert!(x.guard.paused);
}

#[test]
fn update_pauser_is_gated_by_the_authority() {
    let mut x = executor();
    let tx = id(77);
    let no = Confirmation::read(id(11), id(10), tx.clone(), None);
    assert_eq!(x.update_pauser(&no, &tx, address(6)), Err(Error::NotConfirmed));
    let yes = Confirmation::read(id(11), id(10), tx.clone(), Some(true));
    assert_eq!(x.update_pauser(&yes, &tx, vec![1; 26]), Err(Error::InvalidPauser));
    assert_eq!(x.guard.pauser, address(5));
    assert_eq!(x.update_pauser(&yes, &tx, address(6)), Ok(()));
    assert_eq!(x.guard.pauser, address(6));
    assert_eq!(x.pause(&address(5), &[]), Err(Error::NotPauser));
    assert_eq!(x.pause(&address(6), &[]), Ok(()));
}

#[test]
fn update_multisig_is_gated_by_the_authority() {
    let mut x = executor();
    let tx = id(77);
    let other = Confirmation::read(id(11), id(10), id(78), Some(true));
    assert_eq!(x.update_multisig(&other, &tx, id(12)), Err(Error::NotConfirmed));
    let yes = Confirmation::read(id(11), id(10), tx.clone(), Some(true));
    assert_eq!(x.update_multisig(&yes, &tx, vec![1; 30]), Err(Error::InvalidMultisig));
    assert_eq!(x.guard.multisig, id(11));
    assert_eq!(x.update_multisig(&yes, &tx, id(12)), Ok(()));
    assert_eq!(x.guard.multisig, id(12));
    // The old authority's word no longer counts.
    assert_eq!(x.update_multisig(&yes, &tx, id(13)), Err(Error::NotConfirmed));
    let renewed = Confirmation::read(id(12), id(10), tx.clone(), Some(true));
    assert_eq!(x.update_multisig(&renewed, &tx, id(13)), Ok(()));
}

#[test]
fn guard_construct_starts_running() {
    let g = Guard::construct(false, id(1), id(2), address(3)).ok().unwrap();
    assert!(!g.paused);
    assert_eq!(g.this, id(1));
    let yes = Confirmation::read(id(2), id(1), id(9), Some(true));
    assert!(g.authorized(&yes, &id(9)));
    assert!(!g.authorized(&yes, &id(8)));
}
