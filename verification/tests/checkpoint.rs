use mail::checkpoint::{
    checkpoint_key, checkpoint_text, read_checkpoint, scan_start_block, step_after_log, ScanStep,
};
use mail::decimal::IntParseError;

#[test]
fn checkpoint_key_names_the_chain_in_decimal() {
    assert_eq!(checkpoint_key([1, 0, 0, 0]), ".checkpoint:1");
    assert_eq!(checkpoint_key([10, 0, 0, 0]), ".checkpoint:10");
    assert_eq!(checkpoint_key([0, 0, 0, 0]), ".checkpoint:0");
    assert_eq!(checkpoint_key([0, 1, 0, 0]), ".checkpoint:18446744073709551616");
    assert_eq!(
        checkpoint_key([u64::MAX, u64::MAX, u64::MAX, u64::MAX]),
        ".checkpoint:115792089237316195423570985008687907853269984665640564039457584007913129639935"
    );
}

#[test]
fn checkpoint_keys_of_different_chains_differ() {
    assert_ne!(checkpoint_key([1, 0, 0, 0]), checkpoint_key([10, 0, 0, 0]));
    assert_ne!(checkpoint_key([1, 0, 0, 0]), checkpoint_key([0, 1, 0, 0]));
}

#[test]
fn checkpoint_text_is_decimal() {
    assert_eq!(checkpoint_text(0), "0");
    assert_eq!(checkpoint_text(17_000_001), "17000001");
}

#[test]
fn read_checkpoint_parses_block_numbers() {
    assert_eq!(read_checkpoint("17000001"), Ok(17_000_001));
    assert_eq!(read_checkpoint(""), Err(IntParseError::Empty));
    assert_eq!(read_checkpoint("17000001\n"), Err(IntParseError::InvalidDigit));
}

#[test]
fn written_checkpoint_reads_back() {
    for n in [0u64, 1, 18_446_744_073_709_551_614] {
        assert_eq!(read_checkpoint(&checkpoint_text(n)), Ok(n));
    }
}

#[test]
fn scan_starts_at_checkpoint_or_zero() {
    assert_eq!(scan_start_block(None), 0);
    assert_eq!(scan_start_block(Some("123")), 123);
    assert_eq!(scan_start_block(Some("+123")), 123);
    assert_eq!(scan_start_block(Some("garbage")), 0);
    assert_eq!(scan_start_block(Some("")), 0);
}

#[test]
fn handled_event_moves_checkpoint_past_its_block() {
    assert_eq!(step_after_log(true, 41), ScanStep::SaveCheckpoint(42));
    assert_eq!(step_after_log(false, 41), ScanStep::KeepCheckpoint);
    assert_eq!(step_after_log(false, u64::MAX), ScanStep::KeepCheckpoint);
}

#[test]
fn next_run_resumes_after_handled_block() {
    let block = 1_000;
    match step_after_log(true, block) {
        ScanStep::SaveCheckpoint(next) => {
            let stored = checkpoint_text(next);
            assert_eq!(scan_start_block(Some(&stored)), block + 1);
        }
        ScanStep::KeepCheckpoint => panic!("a handled event must move the checkpoint"),
    }
}
