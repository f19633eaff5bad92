//! The node's identity key: the text form kept in a key file (hex of the
//! protobuf encoding of a libp2p keypair), and the peer id derived from it.

use vstd::prelude::*;

use crate::text::{digit_char, is_white_space, trim, trim_start, trimmed};

verus! {

/// Lower-case hex digit of `d` (`0 <= d < 16`), as `hex::encode` writes it.
pub open spec fn hex_digit(d: nat) -> char {
    if d < 10 {
        digit_char(d)
    } else {
        ((d - 10 + 97) as u32) as char
    }
}

/// The lower-case hex text of `bytes`: two digits per byte, high nibble first.
pub open spec fn hex_encoding(bytes: Seq<u8>) -> Seq<char> {
    Seq::new(
        2 * bytes.len(),
        |i: int|
            if i % 2 == 0 {
                hex_digit((bytes[i / 2] / 16) as nat)
            } else {
                hex_digit((bytes[i / 2] % 16) as nat)
            },
    )
}

/// The value of a hex digit in either case, `None` for any other character.
pub open spec fn hex_value(c: char) -> Option<nat> {
    if '0' <= c && c <= '9' {
        Some((c as u32 - 48) as nat)
    } else if 'a' <= c && c <= 'f' {
        Some((c as u32 - 97 + 10) as nat)
    } else if 'A' <= c && c <= 'F' {
        Some((c as u32 - 65 + 10) as nat)
    } else {
        None
    }
}

/// Text that `hex::decode` accepts: an even number of hex digits.
pub open spec fn is_hex_text(text: Seq<char>) -> bool {
    &&& text.len() % 2 == 0
    &&& forall|i: int| 0 <= i < text.len() ==> (#[trigger] hex_value(text[i])) is Some
}

/// The bytes of hex text: each pair of digits is one byte, high nibble first.
pub open spec fn hex_decoding(text: Seq<char>) -> Seq<u8> {
    Seq::new(
        text.len() / 2,
        |i: int| (hex_value(text[2 * i]).unwrap() * 16 + hex_value(text[2 * i + 1]).unwrap()) as u8,
    )
}

/// The peer id (base58 text) of the keypair whose protobuf encoding is
/// `encoded`, or `None` where libp2p does not decode those bytes as a keypair.
pub uninterp spec fn protobuf_key_peer_id(encoded: Seq<u8>) -> Option<Seq<char>>;

#[verifier::external_type_specification]
#[verifier::external_body]
pub struct ExFromHexError(hex::FromHexError);

/// `hex::encode`: each byte becomes two lower-case hex digits, high nibble first.
#[verifier::external_body]
fn hex_encode(bytes: &[u8]) -> (text: String)
    ensures
        text@ == hex_encoding(bytes@),
{
    hex::encode(bytes)
}

/// `hex::decode` on the UTF-8 bytes of `text`: it succeeds exactly when the
/// text is an even number of hex digits (either case), and then gives one
/// byte per pair of digits. Any other character is not ASCII-hex and makes
/// it fail, with `OddLength` or `InvalidHexCharacter`.
#[verifier::external_body]
fn hex_decode(text: &str) -> (r: Result<Vec<u8>, hex::FromHexError>)
    ensures
        r is Ok <==> is_hex_text(text@),
        r matches Ok(bytes) ==> bytes@ == hex_decoding(text@),
{
    hex::decode(text)
}

/// The protobuf encoding of an Ed25519 keypair as libp2p writes it: field 1
/// (the key type) is 1, Ed25519, and field 2 holds the 64 bytes of the key.
pub open spec fn is_ed25519_key_encoding(encoded: Seq<u8>) -> bool {
    &&& encoded.len() == 68
    &&& encoded[0] == 0x08
    &&& encoded[1] == 0x01
    &&& encoded[2] == 0x12
    &&& encoded[3] == 0x40
}

/// The text of an Ed25519 peer id: 52 base58 characters that begin `12D3KooW`.
pub open spec fn has_ed25519_peer_id_shape(peer_id: Seq<char>) -> bool {
    peer_id.len() == 52 && peer_id.subrange(0, 8) == "12D3KooW"@
}

/// `libp2p::identity::Keypair::from_protobuf_encoding`, then the peer id of
/// the keypair's public key rendered by `PeerId`'s `Display`. The result is
/// named by `protobuf_key_peer_id`. Of an Ed25519 keypair the peer id is the
/// identity multihash `00 24 08 01 12 20` followed by the 32 bytes of the
/// public key; in base58 every such value is 52 characters beginning
/// `12D3KooW`. Nothing more is claimed of the peer id.
#[verifier::external_body]
fn peer_id_of_protobuf_key(encoded: &[u8]) -> (r: Option<String>)
    ensures
        match r {
            Some(p) => protobuf_key_peer_id(encoded@) == Some(p@),
            None => protobuf_key_peer_id(encoded@) is None,
        },
        r matches Some(p) ==> (is_ed25519_key_encoding(encoded@) ==> has_ed25519_peer_id_shape(
            p@,
        )),
{
    match libp2p::identity::Keypair::from_protobuf_encoding(encoded) {
        Ok(keypair) => Some(keypair.public().to_peer_id().to_string()),
        Err(_) => None,
    }
}

/// Why a key file's text is not a usable key.
#[derive(Debug, Clone, Copy, PartialEq, Eq, Structural)]
pub enum KeyError {
    /// The trimmed text is not an even number of hex digits.
    InvalidHex,
    /// The bytes do not decode as a libp2p keypair.
    InvalidKey,
}

/// Where a node's key comes from.
#[derive(Debug, Clone, PartialEq, Eq)]
pub enum KeySource {
    /// Read the key from this file.
    File(String),
    /// Generate a fresh key and save it to `generated_key_path()`.
    Generate,
}

/// Where the key comes from: the configured key file where there is one,
/// a freshly generated key otherwise.
pub fn key_source(key_file: &Option<String>) -> (r: KeySource)
    ensures
        match r {
            KeySource::File(path) => key_file.deep_view() == Some(path@),
            KeySource::Generate => key_file is None,
        },
{
    match key_file {
        Some(path) => KeySource::File(path.clone()),
        None => KeySource::Generate,
    }
}

/// The file a generated key is saved to.
pub fn generated_key_path() -> (path: &'static str)
    ensures
        path@ == "mesh-key.txt"@,
{
    "mesh-key.txt"
}

/// What a node key is: its protobuf encoding and its peer id.
pub struct NodeKeyView {
    pub encoded: Seq<u8>,
    pub peer_id: Seq<char>,
}

/// A node's keypair, held as its protobuf encoding together with the peer id
/// that libp2p derives from it.
#[derive(Debug, PartialEq, Eq)]
pub struct NodeKey {
    encoded: Vec<u8>,
    peer_id: String,
}

impl View for NodeKey {
    type V = NodeKeyView;

    closed spec fn view(&self) -> NodeKeyView {
        NodeKeyView { encoded: self.encoded@, peer_id: self.peer_id@ }
    }
}

/// A key view is well formed when its peer id is the one libp2p derives from
/// its encoding.
pub open spec fn key_view_wf(k: NodeKeyView) -> bool {
    protobuf_key_peer_id(k.encoded) == Some(k.peer_id)
}

/// The key whose protobuf encoding is `encoded`, if libp2p decodes it.
pub open spec fn key_from_encoding(encoded: Seq<u8>) -> Option<NodeKeyView> {
    match protobuf_key_peer_id(encoded) {
        Some(p) => Some(NodeKeyView { encoded, peer_id: p }),
        None => None,
    }
}

/// What reading a key file's text gives: the text is trimmed of white
/// space, decoded from hex, then decoded as a protobuf keypair.
pub open spec fn key_from_text(text: Seq<char>) -> Result<NodeKeyView, KeyError> {
    let t = trimmed(text);
    if !is_hex_text(t) {
        Err(KeyError::InvalidHex)
    } else {
        match key_from_encoding(hex_decoding(t)) {
            Some(k) => Ok(k),
            None => Err(KeyError::InvalidKey),
        }
    }
}

impl Clone for NodeKey {
    /// A copy of the key.
    fn clone(&self) -> (r: NodeKey)
        ensures
            r@ == self@,
    {
        proof {
            use_type_invariant(self);
        }
        let encoded = self.encoded.clone();
        assert(encoded@ =~= self.encoded@);
        NodeKey { encoded, peer_id: self.peer_id.clone() }
    }
}

impl NodeKey {
    /// Well formed: the peer id is the one derived from the encoding, and
    /// an Ed25519 key's peer id has the Ed25519 shape.
    pub open spec fn wf(&self) -> bool {
        &&& key_view_wf(self@)
        &&& is_ed25519_key_encoding(self@.encoded) ==> has_ed25519_peer_id_shape(self@.peer_id)
    }

    #[verifier::type_invariant]
    spec fn peer_id_derived(&self) -> bool {
        &&& protobuf_key_peer_id(self.encoded@) == Some(self.peer_id@)
        &&& is_ed25519_key_encoding(self.encoded@) ==> has_ed25519_peer_id_shape(self.peer_id@)
    }

    /// Every key is well formed.
    pub fn check_wf(&self)
        ensures
            self.wf(),
    {
        proof {
            use_type_invariant(self);
        }
    }

    /// The key with the given protobuf encoding, or `None` where the bytes
    /// are not a keypair.
    pub fn from_protobuf(encoded: Vec<u8>) -> (r: Option<NodeKey>)
        ensures
            match r {
                Some(k) => k.wf() && Some(k@) == key_from_encoding(encoded@),
                None => key_from_encoding(encoded@) is None,
            },
    {
        match peer_id_of_protobuf_key(encoded.as_slice()) {
            Some(peer_id) => Some(NodeKey { encoded, peer_id }),
            None => None,
        }
    }

    /// Reads a key file's text: trims it, decodes the hex, decodes the keypair.
    pub fn from_hex_text(text: &str) -> (r: Result<NodeKey, KeyError>)
        ensures
            match r {
                Ok(k) => k.wf() && key_from_text(text@) == Ok::<NodeKeyView, KeyError>(k@),
                Err(e) => key_from_text(text@) == Err::<NodeKeyView, KeyError>(e),
            },
    {
        let t = trim(text);
        match hex_decode(t) {
            Err(_) => Err(KeyError::InvalidHex),
            Ok(bytes) => match NodeKey::from_protobuf(bytes) {
                Some(k) => Ok(k),
                None => Err(KeyError::InvalidKey),
            },
        }
    }

    /// The text written to a key file: the hex of the protobuf encoding.
    pub fn to_hex(&self) -> (text: String)
        ensures
            text@ == hex_encoding(self@.encoded),
    {
        hex_encode(self.encoded.as_slice())
    }

    /// The protobuf encoding of the keypair.
    pub fn encoded(&self) -> (e: &Vec<u8>)
        ensures
            e@ == self@.encoded,
    {
        &self.encoded
    }

    /// The peer id of the keypair, as libp2p renders it.
    pub fn peer_id(&self) -> (p: String)
        ensures
            p@ == self@.peer_id,
            is_ed25519_key_encoding(self@.encoded) ==> has_ed25519_peer_id_shape(p@),
    {
        self.check_wf();
        self.peer_id.clone()
    }
}

} // verus!

verus! {

proof fn lemma_hex_digit_value(d: nat)
    requires
        d < 16,
    ensures
        hex_value(hex_digit(d)) == Some(d),
        !is_white_space(hex_digit(d)),
{
}

proof fn lemma_hex_encoding_is_hex(bytes: Seq<u8>)
    ensures
        is_hex_text(hex_encoding(bytes)),
{
    let t = hex_encoding(bytes);
    assert forall|i: int| 0 <= i < t.len() implies (#[trigger] hex_value(t[i])) is Some by {
        lemma_hex_digit_value((bytes[i / 2] / 16) as nat);
        lemma_hex_digit_value((bytes[i / 2] % 16) as nat);
    }
}

proof fn lemma_hex_decoding_of_encoding(bytes: Seq<u8>)
    ensures
        hex_decoding(hex_encoding(bytes)) == bytes,
{
    let t = hex_encoding(bytes);
    assert forall|i: int| 0 <= i < bytes.len() implies #[trigger] hex_decoding(t)[i] == bytes[i] by {
        let b: u8 = bytes[i];
        lemma_hex_digit_value((b / 16) as nat);
        lemma_hex_digit_value((b % 16) as nat);
        assert(t[2 * i] == hex_digit((b / 16) as nat));
        assert(t[2 * i + 1] == hex_digit((b % 16) as nat));
        assert((b / 16) * 16 + b % 16 == b);
    }
    assert(hex_decoding(t) =~= bytes);
}

proof fn lemma_hex_encoding_trimmed(bytes: Seq<u8>)
    ensures
        trimmed(hex_encoding(bytes)) == hex_encoding(bytes),
{
    let t = hex_encoding(bytes);
    if t.len() > 0 {
        lemma_hex_digit_value((bytes[0] / 16) as nat);
        lemma_hex_digit_value((bytes[bytes.len() - 1] % 16) as nat);
        assert(t[0] == hex_digit((bytes[0] / 16) as nat));
        assert(t[t.len() - 1] == hex_digit((bytes[bytes.len() - 1] % 16) as nat));
        assert(trim_start(t) == t);
    }
}

proof fn lemma_hex_round_trip(bytes: Seq<u8>)
    ensures
        is_hex_text(hex_encoding(bytes)),
        hex_decoding(hex_encoding(bytes)) == bytes,
        trimmed(hex_encoding(bytes)) == hex_encoding(bytes),
{
    lemma_hex_encoding_is_hex(bytes);
    lemma_hex_decoding_of_encoding(bytes);
    lemma_hex_encoding_trimmed(bytes);
}

/// A key written to a key file reads back as the same key: the text that
/// `NodeKey::to_hex` gives is accepted by `NodeKey::from_hex_text`, and the
/// key read from it has the same encoding and the same peer id.
pub proof fn lemma_key_file_round_trip(key: NodeKeyView)
    requires
        key_view_wf(key),
    ensures
        key_from_text(hex_encoding(key.encoded)) == Ok::<NodeKeyView, KeyError>(key),
{
    lemma_hex_round_trip(key.encoded);
}

} // verus!
