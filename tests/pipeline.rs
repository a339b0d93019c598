use pty_host::append::{AppendConfig, LINGER_MILLIS, MAX_BATCH_RECORDS};
use pty_host::collector::{chunk_to_forward, ReadOutcome, READ_CHUNK_SIZE};

#[test]
fn append_config_pins_observed_tail() {
    let c = AppendConfig::for_tail(817);
    assert_eq!(c.max_batch_records, 1000);
    assert_eq!(c.linger_millis, 0);
    assert_eq!(c.match_seq_num, Some(817));
    assert_eq!(MAX_BATCH_RECORDS, 1000);
    assert_eq!(LINGER_MILLIS, 0);
    assert_eq!(AppendConfig::for_tail(0).match_seq_num, Some(0));
    assert_eq!(AppendConfig::for_tail(u64::MAX).match_seq_num, Some(u64::MAX));
}

#[test]
fn forwards_exact_bytes_read() {
    let mut buf = [0u8; READ_CHUNK_SIZE];
    buf[..4].copy_from_slice(b"abcd");
    buf[4] = 9;
    assert_eq!(chunk_to_forward(&buf, ReadOutcome::Read(4)), Some(b"abcd".to_vec()));
    assert_eq!(chunk_to_forward(&buf, ReadOutcome::Read(1)), Some(b"a".to_vec()));
    let full = chunk_to_forward(&buf, ReadOutcome::Read(READ_CHUNK_SIZE)).unwrap();
    assert_eq!(full.len(), 10240);
    assert_eq!(full[4], 9);
}

#[test]
fn end_of_file_and_errors_forward_nothing() {
    let buf = [7u8; 16];
    assert_eq!(chunk_to_forward(&buf, ReadOutcome::Read(0)), None);
    assert_eq!(chunk_to_forward(&buf, ReadOutcome::Failed), None);
}
