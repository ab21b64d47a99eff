use directip::storage::{add, to_hex, FileSystemStorage, StorageConfig, VolatileStorage};
use directip::{sample, Message};

#[test]
fn it_works() {
    let result = add(2, 2);
    assert_eq!(result, 4);
}

#[test]
fn volatile() {
    let mut storage = VolatileStorage::connect();
    storage.save(sample());
    assert_eq!(storage.len(), 1);
    assert_eq!(storage.get(0).to_vec(), sample().to_vec());
}

#[test]
fn hex_rendering() {
    assert_eq!(to_hex(&[0x00, 0x1f, 0xab, 0xff]), b"001fabff");
    assert_eq!(to_hex(&[]), b"");
}

#[test]
/// The filesystem path of a message: root, the data directory, the IMEI as
/// 30 lowercase hex characters, the year, the timestamped file name.
fn filesystem_save_path() {
    let storage = FileSystemStorage::connect(b"/tmp/x".to_vec());
    let msg = sample();
    let path = storage.save_path(&msg, b"2000", b"20000314121212");
    assert_eq!(
        path,
        b"/tmp/x/data/000102030405060708090a0b0c0d0e/2000/20000314121212.isbd".to_vec()
    );
}

#[test]
/// Persisted bytes decode back to an equal message.
fn persisted_bytes_roundtrip() {
    let msg = directip::mt::MTMessage::builder()
        .client_msg_id(9999)
        .imei([0, 1, 2, 3, 4, 5, 6, 7, 8, 9, 10, 11, 12, 13, 14])
        .payload(vec![])
        .build()
        .unwrap();
    let stored = msg.to_vec();
    // What the filesystem backend writes is exactly these bytes; reading the
    // file back and decoding them reproduces the message.
    let read_back = Message::from_reader(stored.as_slice()).unwrap();
    assert_eq!(read_back.message_type(), "MT");
    assert_eq!(read_back.to_vec(), stored);
    assert_eq!(read_back.imei(), msg.imei());
}

#[test]
fn storage_uri_scheme() {
    assert_eq!(StorageConfig::parse(b"volatile://"), Some(StorageConfig::Volatile));
    assert_eq!(
        StorageConfig::parse(b"filesystem:///var/iridium-storage/"),
        Some(StorageConfig::Filesystem(b"/var/iridium-storage/".to_vec()))
    );
    assert_eq!(
        StorageConfig::parse(b"sqlite://:memory:"),
        Some(StorageConfig::Sqlite(b":memory:".to_vec()))
    );
    assert_eq!(StorageConfig::parse(b"postgres://db"), None);
    assert_eq!(StorageConfig::parse(b"volatile:/"), None);
}
