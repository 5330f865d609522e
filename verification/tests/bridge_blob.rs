use pywry::blob::{base64_decode, BlobTransfer};
use pywry::bridge::{parse_bridge_message, BridgeCommand};

#[test]
fn bridge_result_command() {
    match parse_bridge_message("#PYWRY_RESULT:some%20payload") {
        BridgeCommand::Result(p) => assert_eq!(p, "some%20payload"),
        _ => panic!("expected a result command"),
    }
}

#[test]
fn bridge_chunk_keeps_whole_string() {
    match parse_bridge_message("data:image/png;base64,AAAA") {
        BridgeCommand::Chunk(s) => assert_eq!(s, "data:image/png;base64,AAAA"),
        _ => panic!("expected a chunk"),
    }
}

#[test]
fn bridge_eof_and_devtools() {
    assert!(matches!(parse_bridge_message("#EOF"), BridgeCommand::Eof));
    assert!(matches!(parse_bridge_message("#DEVTOOLS"), BridgeCommand::DevTools));
}

#[test]
fn bridge_open_file() {
    match parse_bridge_message("#OPEN_FILE:/tmp/a.csv") {
        BridgeCommand::OpenFile(p) => assert_eq!(p, "/tmp/a.csv"),
        _ => panic!("expected open-file"),
    }
}

#[test]
fn bridge_unrecognized() {
    assert!(matches!(parse_bridge_message("hello"), BridgeCommand::Unrecognized));
    assert!(matches!(parse_bridge_message("#EOF2"), BridgeCommand::Unrecognized));
    assert!(matches!(parse_bridge_message(""), BridgeCommand::Unrecognized));
}

#[test]
fn base64_vectors() {
    assert_eq!(base64_decode("").unwrap(), Vec::<u8>::new());
    assert_eq!(base64_decode("QUJD").unwrap(), b"ABC".to_vec());
    assert_eq!(base64_decode("SGVsbG8=").unwrap(), b"Hello".to_vec());
    assert_eq!(base64_decode("QQ==").unwrap(), b"A".to_vec());
    assert_eq!(base64_decode("TWFu").unwrap(), b"Man".to_vec());
    assert_eq!(base64_decode("AAAA").unwrap(), vec![0u8, 0, 0]);
    assert_eq!(base64_decode("+/+/").unwrap(), vec![0xfb, 0xff, 0xbf]);
}

#[test]
fn base64_rejects_bad_input() {
    assert!(base64_decode("A").is_none());
    assert!(base64_decode("ABC").is_none());
    assert!(base64_decode("====").is_none());
    assert!(base64_decode("QQ==QQ==").is_none());
    assert!(base64_decode("QUJ!").is_none());
}

#[test]
fn two_chunk_transfer_finalizes_to_concatenated_decode() {
    let mut t = BlobTransfer::new();
    assert!(t.begin(Some("/tmp/out.bin".to_string()), 7));
    t.push_chunk("data:application/octet-stream;base64,SGVs".to_string());
    t.push_chunk("bG8=".to_string());
    let (bytes, dest) = t.finish();
    assert_eq!(bytes.unwrap(), b"Hello".to_vec());
    assert_eq!(dest.as_deref(), Some("/tmp/out.bin"));
}

#[test]
fn sentinel_before_any_chunk_is_invalid() {
    let mut t = BlobTransfer::new();
    assert!(t.begin(Some("/tmp/out.bin".to_string()), 7));
    let (bytes, _dest) = t.finish();
    assert!(bytes.is_none());
}

#[test]
fn chunk_without_data_url_header_is_invalid() {
    let mut t = BlobTransfer::new();
    t.push_chunk("SGVsbG8=".to_string());
    let (bytes, _dest) = t.finish();
    assert!(bytes.is_none());
}

#[test]
fn second_transfer_rejected_while_open() {
    let mut t = BlobTransfer::new();
    assert!(t.begin(Some("/a".to_string()), 1));
    assert!(!t.begin(Some("/b".to_string()), 2));
    t.push_chunk("data:x;base64,QUJD".to_string());
    let (bytes, dest) = t.finish();
    assert_eq!(bytes.unwrap(), b"ABC".to_vec());
    assert_eq!(dest.as_deref(), Some("/a"));
    // after finishing, a new transfer may begin
    assert!(t.begin(None, 3));
}

#[test]
fn transfer_resets_after_finish() {
    let mut t = BlobTransfer::new();
    t.push_chunk("data:x;base64,QUJD".to_string());
    let _ = t.finish();
    // the earlier fragments are gone
    t.push_chunk("data:x;base64,SGVsbG8=".to_string());
    let (bytes, dest) = t.finish();
    assert_eq!(bytes.unwrap(), b"Hello".to_vec());
    assert!(dest.is_none());
}

#[test]
fn early_sentinel_never_passes_for_the_full_transfer() {
    // the complete transfer
    let mut t = BlobTransfer::new();
    t.push_chunk("data:application/octet-stream;base64,SGVs".to_string());
    t.push_chunk("bG8=".to_string());
    let (full, _) = t.finish();
    // the sentinel arrives one fragment early: a shorter file, never the
    // complete one
    t.push_chunk("data:application/octet-stream;base64,SGVs".to_string());
    let (early, _) = t.finish();
    assert_ne!(early, full);
    assert_eq!(early.unwrap(), b"Hel".to_vec());
    assert_eq!(full.unwrap(), b"Hello".to_vec());
}
