use crosschain_bridge::authority::Confirmation;
use crosschain_bridge::emitter::{build_event_record, Allowance, Emitter, OutboundCall};
use crosschain_bridge::error::Error;

fn id(n: u8) -> Vec<u8> {
    vec![n; 32]
}

fn address(n: u8) -> Vec<u8> {
    let mut a = vec![n; 26];
    a[0] = 1;
    a[1] = 84;
    a
}

fn emitter() -> Emitter {
    Emitter::construct(false, id(10), id(11), address(5), 2).unwrap()
}

fn request() -> OutboundCall {
    OutboundCall {
        caller: b"CallerProgram".to_vec(),
        execution_chain_id: 9,
        execution_contract: b"0xDestination".to_vec(),
        function_name: b"mint".to_vec(),
        function_args: b"alice####100".to_vec(),
    }
}

fn allowed() -> Allowance {
    Allowance::read(b"CallerProgram".to_vec(), Some(true))
}

#[test]
fn emitter_construct_starts_counters_at_zero() {
    let e = emitter();
    assert_eq!(e.nonce, 0);
    assert_eq!(e.event_size, 0);
    assert_eq!(e.call_chain_id, 2);
    assert!(!e.guard.paused);
    assert_eq!(e.guard.multisig, id(11));
    assert_eq!(e.guard.pauser, address(5));
}

#[test]
fn emitter_construct_rejects_bad_input_in_order() {
    let e = |r: Result<Emitter, Error>| r.err();
    assert_eq!(
        e(Emitter::construct(true, id(10), vec![], vec![], 0)),
        Some(Error::AlreadyInitialized)
    );
    assert_eq!(
        e(Emitter::construct(false, id(10), vec![], vec![], 0)),
        Some(Error::InvalidMultisig)
    );
    assert_eq!(
        e(Emitter::construct(false, id(10), id(11), vec![], 0)),
        Some(Error::InvalidPauser)
    );
    assert_eq!(
        e(Emitter::construct(false, id(10), id(11), address(5), 0)),
        Some(Error::InvalidChainId)
    );
}

#[test]
fn event_record_is_exact() {
    let record = build_event_record(2, &request(), 0, b"TxId", 1234);
    assert_eq!(
        record,
        b"2__9__0xDestination__mint__CallerProgram####alice####100__0__TxId__1234".to_vec()
    );
}

#[test]
fn call_appends_events_and_counts() {
    let mut e = emitter();
    let first = e.call(&allowed(), &request(), b"TxA", 50).ok().unwrap();
    assert_eq!(first.index, 0);
    assert_eq!(
        first.record,
        b"2__9__0xDestination__mint__CallerProgram####alice####100__0__TxA__50".to_vec()
    );
    assert_eq!(e.nonce, 1);
    assert_eq!(e.event_size, 1);
    let second = e.call(&allowed(), &request(), b"TxB", 51).ok().unwrap();
    assert_eq!(second.index, 1);
    assert_eq!(
        second.record,
        b"2__9__0xDestination__mint__CallerProgram####alice####100__1__TxB__51".to_vec()
    );
    assert_eq!(e.nonce, 2);
    assert_eq!(e.event_size, 2);
}

#[test]
fn call_needs_a_program_with_allowance() {
    let mut e = emitter();
    let mut direct = request();
    direct.caller = Vec::new();
    assert_eq!(e.call(&allowed(), &direct, b"Tx", 1).err(), Some(Error::CallerNotProgram));
    let missing = Allowance::read(b"CallerProgram".to_vec(), None);
    assert_eq!(e.call(&missing, &request(), b"Tx", 1).err(), Some(Error::NotAllowed));
    let withdrawn = Allowance::read(b"CallerProgram".to_vec(), Some(false));
    assert_eq!(e.call(&withdrawn, &request(), b"Tx", 1).err(), Some(Error::NotAllowed));
    let another = Allowance::read(b"OtherProgram".to_vec(), Some(true));
    assert_eq!(e.call(&another, &request(), b"Tx", 1).err(), Some(Error::NotAllowed));
    assert_eq!(e.nonce, 0);
    assert_eq!(e.event_size, 0);
}

#[test]
fn call_rejects_bad_input_in_order() {
    let mut e = emitter();
    let mut bad = request();
    bad.execution_chain_id = 0;
    bad.execution_contract = Vec::new();
    bad.function_name = Vec::new();
    bad.function_args = Vec::new();
    e.pause(&address(5), &[]).unwrap();
    assert_eq!(e.call(&allowed(), &bad, b"Tx", 1).err(), Some(Error::Paused));
    e.unpause(&address(5), &[]).unwrap();
    assert_eq!(e.call(&allowed(), &bad, b"Tx", 1).err(), Some(Error::InvalidChainId));
    bad.execution_chain_id = -1;
    assert_eq!(e.call(&allowed(), &bad, b"Tx", 1).err(), Some(Error::InvalidChainId));
    bad.execution_chain_id = 1;
    assert_eq!(e.call(&allowed(), &bad, b"Tx", 1).err(), Some(Error::EmptyContract));
    bad.execution_contract = b"c".to_vec();
    assert_eq!(e.call(&allowed(), &bad, b"Tx", 1).err(), Some(Error::EmptyFunctionName));
    bad.function_name = b"f".to_vec();
    assert_eq!(e.call(&allowed(), &bad, b"Tx", 1).err(), Some(Error::EmptyArguments));
    bad.function_args = b"a".to_vec();
    assert!(e.call(&allowed(), &bad, b"Tx", 1).is_ok());
    assert_eq!(e.event_size, 1);
}

#[test]
fn call_refuses_when_a_counter_is_at_its_limit() {
    let mut e = emitter();
    e.nonce = i64::MAX;
    assert_eq!(e.call(&allowed(), &request(), b"Tx", 1).err(), Some(Error::CounterOverflow));
    e.nonce = 0;
    e.event_size = i64::MAX;
    assert_eq!(e.call(&allowed(), &request(), b"Tx", 1).err(), Some(Error::CounterOverflow));
    assert_eq!(e.nonce, 0);
}

#[test]
fn call_while_paused_fails_and_unpause_restores() {
    let mut e = emitter();
    e.pause(&address(5), &[]).unwrap();
    assert_eq!(e.pause(&address(5), &[]), Err(Error::Paused));
    assert_eq!(e.call(&allowed(), &request(), b"Tx", 1).err(), Some(Error::Paused));
    assert_eq!(e.event_size, 0);
    e.unpause(&address(5), &[]).unwrap();
    assert_eq!(e.unpause(&address(5), &[]), Err(Error::NotPaused));
    assert!(e.call(&allowed(), &request(), b"Tx", 1).is_ok());
}

#[test]
fn allow_and_disallow_are_gated() {
    let e = emitter();
    let tx = id(77);
    let yes = Confirmation::read(id(11), id(10), tx.clone(), Some(true));
    let no = Confirmation::read(id(11), id(10), tx.clone(), Some(false));
    assert_eq!(e.allow(&yes, &tx, &id(3)), Ok(true));
    assert_eq!(e.disallow(&yes, &tx, &id(3)), Ok(false));
    assert_eq!(e.allow(&no, &tx, &id(3)), Err(Error::NotConfirmed));
    assert_eq!(e.disallow(&no, &tx, &id(3)), Err(Error::NotConfirmed));
    assert_eq!(e.allow(&yes, &tx, &[3; 31]), Err(Error::InvalidCaller));
    assert_eq!(e.disallow(&yes, &tx, &[3; 33]), Err(Error::InvalidCaller));
    assert_eq!(e.allow(&no, &tx, &[3; 31]), Err(Error::NotConfirmed));
}

#[test]
fn emitter_governance_updates_are_gated() {
    let mut e = emitter();
    let tx = id(77);
    let yes = Confirmation::read(id(11), id(10), tx.clone(), Some(true));
    let no = Confirmation::read(id(11), id(10), tx.clone(), None);
    assert_eq!(e.update_pauser(&no, &tx, address(6)), Err(Error::NotConfirmed));
    assert_eq!(e.update_multisig(&no, &tx, id(12)), Err(Error::NotConfirmed));
    assert_eq!(e.update_pauser(&yes, &tx, vec![]), Err(Error::InvalidPauser));
    assert_eq!(e.update_multisig(&yes, &tx, vec![]), Err(Error::InvalidMultisig));
    let stranger = Confirmation::read(id(12), id(10), tx.clone(), Some(true));
    assert_eq!(e.update_pauser(&stranger, &tx, address(6)), Err(Error::NotConfirmed));
    assert_eq!(e.update_pauser(&yes, &tx, address(6)), Ok(()));
    assert_eq!(e.update_multisig(&yes, &tx, id(12)), Ok(()));
    assert_eq!(e.guard.pauser, address(6));
    assert_eq!(e.guard.multisig, id(12));
    assert_eq!(e.pause(&address(5), &[]), Err(Error::NotPauser));
}
