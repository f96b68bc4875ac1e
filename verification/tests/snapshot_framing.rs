use wasmtime_oc::snapshot::{compress_snapshot, decompress_snapshot, module_hash, SnapshotError};

fn hex(bytes: &[u8]) -> String {
    bytes.iter().map(|b| format!("{:02x}", b)).collect()
}

#[test]
fn module_hash_is_sha256() {
    assert_eq!(
        hex(&module_hash(b"abc")),
        "ba7816bf8f01cfea414140de5dae2223b00361a396177a9cb410ff61f20015ad"
    );
    assert_eq!(
        hex(&module_hash(b"")),
        "e3b0c44298fc1c149afbf4c8996fb92427ae41e4649b934ca495991b7852b855"
    );
}

#[test]
fn framed_snapshot_starts_with_its_length() {
    let encoded = b"snapshot bytes snapshot bytes snapshot bytes".to_vec();
    let framed = compress_snapshot(&encoded);
    assert_eq!(&framed[0..4], &(encoded.len() as u32).to_le_bytes());
    assert_ne!(framed, encoded);
}

#[test]
fn opening_a_frame_gives_the_encoding_back() {
    let encoded: Vec<u8> = (0..2000u32).map(|i| (i % 7) as u8).collect();
    let framed = compress_snapshot(&encoded);
    assert!(framed.len() < encoded.len());
    assert_eq!(decompress_snapshot(&framed).unwrap(), encoded);
}

#[test]
fn empty_encoding_round_trips() {
    let framed = compress_snapshot(&[]);
    assert_eq!(&framed[0..4], &[0, 0, 0, 0]);
    assert_eq!(decompress_snapshot(&framed).unwrap(), Vec::<u8>::new());
}

#[test]
fn short_frame_is_refused() {
    assert!(matches!(decompress_snapshot(&[1, 2, 3]), Err(SnapshotError::Decompress(_))));
}

#[test]
fn damaged_frame_is_refused() {
    assert!(matches!(
        decompress_snapshot(&[10, 0, 0, 0, 0xff, 0xff, 0xff]),
        Err(SnapshotError::Decompress(_))
    ));
}
