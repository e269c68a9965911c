use pystr_bridge::error::BridgeError;
use pystr_bridge::handle::HandleLedger;

#[test]
fn new_ledger_is_empty() {
    let l = HandleLedger::new();
    assert_eq!(l.allocations(), 0);
    assert_eq!(l.releases(), 0);
}

#[test]
fn embedded_terminator_fails_before_allocation() {
    let l = HandleLedger::new();
    assert_eq!(l.prepare("ab\0cd"), Err(BridgeError::InvalidHostString));
    assert_eq!(l.allocations(), 0);
    assert_eq!(l.releases(), 0);
}

#[test]
fn prepare_terminates_text() {
    let l = HandleLedger::new();
    assert_eq!(l.prepare("caf\u{e9}"), Ok(vec![b'c', b'a', b'f', 0xC3, 0xA9, 0]));
}

#[test]
fn null_decode_result_is_a_decode_failure() {
    let mut l = HandleLedger::new();
    assert!(matches!(
        l.accept_decoded(true),
        Err(BridgeError::RuntimeDecodeFailure)
    ));
    assert_eq!(l.allocations(), 0);
}

#[test]
fn n_handles_allocate_and_release_n_times() {
    let mut l = HandleLedger::new();
    let n: u64 = 7;
    for _ in 0..n {
        let h = l.accept_decoded(false).unwrap();
        l.release(h);
    }
    assert_eq!(l.allocations(), n);
    assert_eq!(l.releases(), n);
}

#[test]
fn live_handles_are_counted_until_released() {
    let mut l = HandleLedger::new();
    let a = l.accept_decoded(false).unwrap();
    let b = l.accept_decoded(false).unwrap();
    assert_eq!(l.allocations(), 2);
    assert_eq!(l.releases(), 0);
    l.release(b);
    assert_eq!(l.releases(), 1);
    l.release(a);
    assert_eq!(l.releases(), 2);
}
