use xmrt_mesh::config::Config;
use xmrt_mesh::identity::{generated_key_path, key_source, KeyError, KeySource, NodeKey};

fn fresh_key() -> (libp2p::identity::Keypair, NodeKey) {
    let keypair = libp2p::identity::Keypair::generate_ed25519();
    let encoded = keypair.to_protobuf_encoding().unwrap();
    let key = NodeKey::from_protobuf(encoded).expect("an ed25519 keypair decodes");
    (keypair, key)
}

#[test]
fn generated_key_has_libp2p_peer_id() {
    let (keypair, key) = fresh_key();
    assert_eq!(key.peer_id(), keypair.public().to_peer_id().to_string());
    assert_eq!(key.encoded(), &keypair.to_protobuf_encoding().unwrap());
}

#[test]
fn config_peer_id_is_key_peer_id() {
    let (keypair, key) = fresh_key();
    let cfg = Config::default();
    assert_eq!(cfg.peer_id(&key), keypair.public().to_peer_id().to_string());
}

#[test]
fn key_file_text_round_trips() {
    let (_, key) = fresh_key();
    let text = key.to_hex();
    let back = NodeKey::from_hex_text(&text).unwrap();
    assert_eq!(back, key);
}

#[test]
fn key_file_text_is_lowercase_hex_of_encoding() {
    let (keypair, key) = fresh_key();
    let text = key.to_hex();
    assert_eq!(text, hex::encode(keypair.to_protobuf_encoding().unwrap()));
    assert!(text.chars().all(|c| c.is_ascii_digit() || ('a'..='f').contains(&c)));
    assert_eq!(text.len(), 2 * key.encoded().len());
}

#[test]
fn key_file_text_is_trimmed() {
    let (_, key) = fresh_key();
    let text = format!(" \t\n{}\r\n\u{3000}", key.to_hex());
    assert_eq!(NodeKey::from_hex_text(&text).unwrap(), key);
}

#[test]
fn key_file_text_accepts_upper_case_hex() {
    let (_, key) = fresh_key();
    let text = key.to_hex().to_uppercase();
    assert_eq!(NodeKey::from_hex_text(&text).unwrap(), key);
}

#[test]
fn key_file_text_with_odd_length_is_invalid_hex() {
    assert_eq!(NodeKey::from_hex_text("abc"), Err(KeyError::InvalidHex));
}

#[test]
fn key_file_text_with_bad_digit_is_invalid_hex() {
    assert_eq!(NodeKey::from_hex_text("zz"), Err(KeyError::InvalidHex));
    assert_eq!(NodeKey::from_hex_text("0 12"), Err(KeyError::InvalidHex));
}

#[test]
fn key_file_text_that_is_not_a_keypair_is_invalid_key() {
    assert_eq!(NodeKey::from_hex_text("00ff"), Err(KeyError::InvalidKey));
    assert_eq!(NodeKey::from_hex_text(""), Err(KeyError::InvalidKey));
}

#[test]
fn protobuf_bytes_that_are_not_a_keypair_are_refused() {
    assert_eq!(NodeKey::from_protobuf(vec![1, 2, 3]), None);
}

#[test]
fn key_source_follows_key_file() {
    assert_eq!(
        key_source(&Some("node.key".to_string())),
        KeySource::File("node.key".to_string())
    );
    assert_eq!(key_source(&None), KeySource::Generate);
}

#[test]
fn generated_key_is_saved_to_mesh_key_txt() {
    assert_eq!(generated_key_path(), "mesh-key.txt");
}

#[test]
fn ed25519_peer_ids_have_the_documented_shape() {
    for _ in 0..20 {
        let (_, key) = fresh_key();
        let encoded = key.encoded();
        assert_eq!(encoded.len(), 68);
        assert_eq!(&encoded[..4], &[0x08, 0x01, 0x12, 0x40]);
        let id = Config::default().peer_id(&key);
        assert_eq!(id.len(), 52);
        assert!(id.starts_with("12D3KooW"));
    }
}
