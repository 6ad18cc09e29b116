//! Domain identity types used by the BitTorrent and DHT layers.

use std::array::TryFromSliceError;
use std::str::FromStr;

use vstd::prelude::*;
use vstd::string::StringSliceAdditionalSpecFns;
use vstd::utf8::{encode_utf8, is_ascii_chars, is_ascii_chars_encode_utf8};

verus! {

/// The lowercase hexadecimal digit for a value below 16.
pub open spec fn hex_digit(v: int) -> char {
    if v < 10 {
        (48 + v) as char
    } else {
        (87 + v) as char
    }
}

/// Lowercase hexadecimal text of `bytes`: two digits per byte, the high
/// nibble first.
pub open spec fn hex_lower(bytes: Seq<u8>) -> Seq<char> {
    Seq::new(
        2 * bytes.len(),
        |i: int|
            if i % 2 == 0 {
                hex_digit(bytes[i / 2] as int / 16)
            } else {
                hex_digit(bytes[i / 2] as int % 16)
            },
    )
}

/// The value of a hexadecimal digit byte (`0-9`, `a-f` or `A-F`).
pub open spec fn hex_value(b: u8) -> Option<u8> {
    if 48 <= b <= 57 {
        Some((b - 48) as u8)
    } else if 97 <= b <= 102 {
        Some((b - 87) as u8)
    } else if 65 <= b <= 70 {
        Some((b - 55) as u8)
    } else {
        None
    }
}

/// Whether `text` holds exactly `2 * n` hexadecimal digits.
pub open spec fn is_hex_of_len(text: Seq<u8>, n: nat) -> bool {
    &&& text.len() == 2 * n
    &&& forall|i: int| 0 <= i < text.len() ==> (#[trigger] hex_value(text[i])) is Some
}

/// The bytes spelled by hexadecimal digit pairs.
pub open spec fn hex_decoded(text: Seq<u8>) -> Seq<u8> {
    Seq::new(
        text.len() / 2,
        |i: int| (hex_value(text[2 * i]).unwrap() * 16 + hex_value(text[2 * i + 1]).unwrap()) as u8,
    )
}

/// A hexadecimal digit is an ASCII character that reads back as its value.
proof fn lemma_hex_digit(v: int)
    requires
        0 <= v < 16,
    ensures
        '\0' <= hex_digit(v) <= '\u{7f}',
        hex_value(hex_digit(v) as u8) == Some(v as u8),
{
    if v < 10 {
        assert((48 + v) as char as int == 48 + v);
    } else {
        assert((87 + v) as char as int == 87 + v);
    }
}

/// Hexadecimal text reads back as the bytes it was written from: the UTF-8
/// bytes of `hex_lower(bytes)` are `2 * bytes.len()` hexadecimal digits, and
/// they decode to `bytes`. So every identifier parses back from the text
/// that `to_hex` gives.
pub proof fn law_hex_round_trip(bytes: Seq<u8>)
    ensures
        is_hex_of_len(encode_utf8(hex_lower(bytes)), bytes.len()),
        hex_decoded(encode_utf8(hex_lower(bytes))) == bytes,
{
    let t = hex_lower(bytes);
    assert forall|i: int| 0 <= i < t.len() implies '\0' <= #[trigger] t[i] <= '\u{7f}'
        && hex_value(t[i] as u8) == Some(
        (if i % 2 == 0 {
            bytes[i / 2] as int / 16
        } else {
            bytes[i / 2] as int % 16
        }) as u8,
    ) by {
        if i % 2 == 0 {
            lemma_hex_digit(bytes[i / 2] as int / 16);
        } else {
            lemma_hex_digit(bytes[i / 2] as int % 16);
        }
    }
    assert(is_ascii_chars(t));
    is_ascii_chars_encode_utf8(t);
    let e = encode_utf8(t);
    assert forall|i: int| 0 <= i < e.len() implies (#[trigger] hex_value(e[i])) is Some by {
        assert(e[i] == t[i] as u8);
    }
    assert forall|k: int| 0 <= k < bytes.len() implies #[trigger] hex_decoded(e)[k] == bytes[k] by {
        assert(e[2 * k] == t[2 * k] as u8);
        assert(e[2 * k + 1] == t[2 * k + 1] as u8);
        assert((2 * k) % 2 == 0 && (2 * k) / 2 == k);
        assert((2 * k + 1) % 2 == 1 && (2 * k + 1) / 2 == k);
        let b = bytes[k] as int;
        assert(b / 16 * 16 + b % 16 == b);
    }
    assert(hex_decoded(e) =~= bytes);
}

/// Declares `hex::FromHexError`, the error of a failed hexadecimal decode.
#[verifier::external_type_specification]
#[verifier::external_body]
pub struct ExFromHexError(hex::FromHexError);

/// Declares `std::array::TryFromSliceError`, the error of a slice of the
/// wrong length.
#[verifier::external_type_specification]
#[verifier::external_body]
pub struct ExTryFromSliceError(TryFromSliceError);

/// Calls `hex::encode`: the lowercase hexadecimal text of `bytes`, two digits
/// per byte with the high nibble first.
#[verifier::external_body]
fn hex_encode(bytes: &[u8]) -> (r: String)
    ensures
        r@ == hex_lower(bytes@),
{
    hex::encode(bytes)
}

/// Calls `hex::decode_to_slice`, which reads the UTF-8 bytes of `value`.
/// It succeeds exactly when they are `2 * out.len()` hexadecimal digits
/// (either case), and then `out` holds the decoded bytes. Which
/// `FromHexError` variant a failure carries, and what `out` holds after a
/// failure, is not stated.
#[verifier::external_body]
fn hex_decode_to_slice(value: &str, out: &mut [u8]) -> (r: Result<(), hex::FromHexError>)
    ensures
        final(out)@.len() == old(out)@.len(),
        r is Ok <==> is_hex_of_len(value.spec_bytes(), old(out)@.len()),
        r is Ok ==> final(out)@ == hex_decoded(value.spec_bytes()),
{
    hex::decode_to_slice(value, out)
}

/// Calls `<[u8; N]>::try_from` on a slice: it succeeds exactly when the slice
/// has `N` bytes, and then holds them.
#[verifier::external_body]
fn array_from_slice<const N: usize>(value: &[u8]) -> (r: Result<[u8; N], TryFromSliceError>)
    ensures
        r is Ok <==> value@.len() == N,
        r matches Ok(a) ==> a@ == value@,
{
    <[u8; N]>::try_from(value)
}

/// A v1 torrent infohash represented by a 20-byte SHA-1 digest.
#[derive(Clone, Copy, Debug, PartialEq, Eq, Hash, PartialOrd, Ord, Default)]
pub struct InfoHashV1([u8; 20]);

impl View for InfoHashV1 {
    type V = Seq<u8>;

    closed spec fn view(&self) -> Seq<u8> {
        self.0@
    }
}

impl InfoHashV1 {
    /// Length of the identifier in bytes.
    pub const LEN: usize = 20;

    /// Identifiers with the same bytes are the same identifier.
    pub proof fn lemma_view_injective(a: Self, b: Self)
        requires
            a@ == b@,
        ensures
            a == b,
    {
        assert forall|i: int| 0 <= i < 20 implies a.0[i] == b.0[i] by {
            assert(a.0@[i] == b.0@[i]);
        }
        assert(a.0 =~= b.0);
    }

    /// Creates the identifier from its fixed-size byte representation.
    pub fn from_bytes(bytes: [u8; 20]) -> (r: Self)
        ensures
            r@ == bytes@,
    {
        InfoHashV1(bytes)
    }

    /// Returns the identifier's fixed-size byte representation.
    pub fn as_bytes(&self) -> (r: &[u8; 20])
        ensures
            r@ == self@,
    {
        &self.0
    }

    /// Returns the identifier as a lowercase hexadecimal string.
    pub fn to_hex(&self) -> (r: String)
        ensures
            r@ == hex_lower(self@),
    {
        hex_encode(self.0.as_slice())
    }

    /// Parses the identifier from exactly `2 * 20` hexadecimal digits.
    pub fn from_hex(value: &str) -> (r: Result<Self, hex::FromHexError>)
        ensures
            r is Ok <==> is_hex_of_len(value.spec_bytes(), 20 as nat),
            r matches Ok(id) ==> id@ == hex_decoded(value.spec_bytes()),
    {
        let mut bytes = [0u8; 20];
        match hex_decode_to_slice(value, &mut bytes) {
            Ok(()) => Ok(InfoHashV1::from_bytes(bytes)),
            Err(error) => Err(error),
        }
    }

    /// Creates the identifier from a slice of exactly `20` bytes.
    pub fn from_slice(value: &[u8]) -> (r: Result<Self, TryFromSliceError>)
        ensures
            r is Ok <==> value@.len() == 20,
            r matches Ok(id) ==> id@ == value@,
    {
        match array_from_slice::<20>(value) {
            Ok(bytes) => Ok(InfoHashV1(bytes)),
            Err(error) => Err(error),
        }
    }

    /// Returns `"InfoHashV1(<hex>)"`, the identifier's debugging representation.
    pub fn debug_string(&self) -> (r: String)
        ensures
            r@ == "InfoHashV1("@ + hex_lower(self@) + ")"@,
    {
        let mut r = String::new();
        r.append("InfoHashV1(");
        let hex = self.to_hex();
        r.append(hex.as_str());
        r.append(")");
        r
    }
}

impl FromStr for InfoHashV1 {
    type Err = hex::FromHexError;

    fn from_str(value: &str) -> (r: Result<Self, Self::Err>)
        ensures
            r is Ok <==> is_hex_of_len(value.spec_bytes(), 20 as nat),
            r matches Ok(id) ==> id@ == hex_decoded(value.spec_bytes()),
    {
        InfoHashV1::from_hex(value)
    }
}

impl<'a> TryFrom<&'a str> for InfoHashV1 {
    type Error = hex::FromHexError;

    fn try_from(value: &'a str) -> (r: Result<Self, Self::Error>)
        ensures
            r is Ok <==> is_hex_of_len(value.spec_bytes(), 20 as nat),
            r matches Ok(id) ==> id@ == hex_decoded(value.spec_bytes()),
    {
        InfoHashV1::from_hex(value)
    }
}

impl<'a> TryFrom<&'a [u8]> for InfoHashV1 {
    type Error = TryFromSliceError;

    fn try_from(value: &'a [u8]) -> (r: Result<Self, Self::Error>)
        ensures
            r is Ok <==> value@.len() == 20,
            r matches Ok(id) ==> id@ == value@,
    {
        InfoHashV1::from_slice(value)
    }
}

/// The generic conversion specification is not claimed; the `try_from`
/// implementation above states its result.
impl<'a> vstd::std_specs::convert::TryFromSpecImpl<&'a str> for InfoHashV1 {
    open spec fn obeys_try_from_spec() -> bool {
        false
    }

    open spec fn try_from_spec(v: &'a str) -> Result<Self, Self::Error> {
        arbitrary()
    }
}

/// The generic conversion specification is not claimed; the `try_from`
/// implementation above states its result.
impl<'a> vstd::std_specs::convert::TryFromSpecImpl<&'a [u8]> for InfoHashV1 {
    open spec fn obeys_try_from_spec() -> bool {
        false
    }

    open spec fn try_from_spec(v: &'a [u8]) -> Result<Self, Self::Error> {
        arbitrary()
    }
}

impl AsRef<[u8; 20]> for InfoHashV1 {
    fn as_ref(&self) -> (r: &[u8; 20])
        ensures
            r@ == self@,
    {
        &self.0
    }
}

/// A v2 torrent infohash represented by a 32-byte SHA-256 digest.
#[derive(Clone, Copy, Debug, PartialEq, Eq, Hash, PartialOrd, Ord, Default)]
pub struct InfoHashV2([u8; 32]);

impl View for InfoHashV2 {
    type V = Seq<u8>;

    closed spec fn view(&self) -> Seq<u8> {
        self.0@
    }
}

impl InfoHashV2 {
    /// Length of the identifier in bytes.
    pub const LEN: usize = 32;

    /// Identifiers with the same bytes are the same identifier.
    pub proof fn lemma_view_injective(a: Self, b: Self)
        requires
            a@ == b@,
        ensures
            a == b,
    {
        assert forall|i: int| 0 <= i < 32 implies a.0[i] == b.0[i] by {
            assert(a.0@[i] == b.0@[i]);
        }
        assert(a.0 =~= b.0);
    }

    /// Creates the identifier from its fixed-size byte representation.
    pub fn from_bytes(bytes: [u8; 32]) -> (r: Self)
        ensures
            r@ == bytes@,
    {
        InfoHashV2(bytes)
    }

    /// Returns the identifier's fixed-size byte representation.
    pub fn as_bytes(&self) -> (r: &[u8; 32])
        ensures
            r@ == self@,
    {
        &self.0
    }

    /// Returns the identifier as a lowercase hexadecimal string.
    pub fn to_hex(&self) -> (r: String)
        ensures
            r@ == hex_lower(self@),
    {
        hex_encode(self.0.as_slice())
    }

    /// Parses the identifier from exactly `2 * 32` hexadecimal digits.
    pub fn from_hex(value: &str) -> (r: Result<Self, hex::FromHexError>)
        ensures
            r is Ok <==> is_hex_of_len(value.spec_bytes(), 32 as nat),
            r matches Ok(id) ==> id@ == hex_decoded(value.spec_bytes()),
    {
        let mut bytes = [0u8; 32];
        match hex_decode_to_slice(value, &mut bytes) {
            Ok(()) => Ok(InfoHashV2::from_bytes(bytes)),
            Err(error) => Err(error),
        }
    }

    /// Creates the identifier from a slice of exactly `32` bytes.
    pub fn from_slice(value: &[u8]) -> (r: Result<Self, TryFromSliceError>)
        ensures
            r is Ok <==> value@.len() == 32,
            r matches Ok(id) ==> id@ == value@,
    {
        match array_from_slice::<32>(value) {
            Ok(bytes) => Ok(InfoHashV2(bytes)),
            Err(error) => Err(error),
        }
    }

    /// Returns `"InfoHashV2(<hex>)"`, the identifier's debugging representation.
    pub fn debug_string(&self) -> (r: String)
        ensures
            r@ == "InfoHashV2("@ + hex_lower(self@) + ")"@,
    {
        let mut r = String::new();
        r.append("InfoHashV2(");
        let hex = self.to_hex();
        r.append(hex.as_str());
        r.append(")");
        r
    }
}

impl FromStr for InfoHashV2 {
    type Err = hex::FromHexError;

    fn from_str(value: &str) -> (r: Result<Self, Self::Err>)
        ensures
            r is Ok <==> is_hex_of_len(value.spec_bytes(), 32 as nat),
            r matches Ok(id) ==> id@ == hex_decoded(value.spec_bytes()),
    {
        InfoHashV2::from_hex(value)
    }
}

impl<'a> TryFrom<&'a str> for InfoHashV2 {
    type Error = hex::FromHexError;

    fn try_from(value: &'a str) -> (r: Result<Self, Self::Error>)
        ensures
            r is Ok <==> is_hex_of_len(value.spec_bytes(), 32 as nat),
            r matches Ok(id) ==> id@ == hex_decoded(value.spec_bytes()),
    {
        InfoHashV2::from_hex(value)
    }
}

impl<'a> TryFrom<&'a [u8]> for InfoHashV2 {
    type Error = TryFromSliceError;

    fn try_from(value: &'a [u8]) -> (r: Result<Self, Self::Error>)
        ensures
            r is Ok <==> value@.len() == 32,
            r matches Ok(id) ==> id@ == value@,
    {
        InfoHashV2::from_slice(value)
    }
}

/// The generic conversion specification is not claimed; the `try_from`
/// implementation above states its result.
impl<'a> vstd::std_specs::convert::TryFromSpecImpl<&'a str> for InfoHashV2 {
    open spec fn obeys_try_from_spec() -> bool {
        false
    }

    open spec fn try_from_spec(v: &'a str) -> Result<Self, Self::Error> {
        arbitrary()
    }
}

/// The generic conversion specification is not claimed; the `try_from`
/// implementation above states its result.
impl<'a> vstd::std_specs::convert::TryFromSpecImpl<&'a [u8]> for InfoHashV2 {
    open spec fn obeys_try_from_spec() -> bool {
        false
    }

    open spec fn try_from_spec(v: &'a [u8]) -> Result<Self, Self::Error> {
        arbitrary()
    }
}

impl AsRef<[u8; 32]> for InfoHashV2 {
    fn as_ref(&self) -> (r: &[u8; 32])
        ensures
            r@ == self@,
    {
        &self.0
    }
}

/// A 20-byte DHT node identity.
#[derive(Clone, Copy, Debug, PartialEq, Eq, Hash, PartialOrd, Ord, Default)]
pub struct NodeId([u8; 20]);

impl View for NodeId {
    type V = Seq<u8>;

    closed spec fn view(&self) -> Seq<u8> {
        self.0@
    }
}

impl NodeId {
    /// Length of the identifier in bytes.
    pub const LEN: usize = 20;

    /// Creates the identifier from its fixed-size byte representation.
    pub fn from_bytes(bytes: [u8; 20]) -> (r: Self)
        ensures
            r@ == bytes@,
    {
        NodeId(bytes)
    }

    /// Returns the identifier's fixed-size byte representation.
    pub fn as_bytes(&self) -> (r: &[u8; 20])
        ensures
            r@ == self@,
    {
        &self.0
    }

    /// Returns the identifier as a lowercase hexadecimal string.
    pub fn to_hex(&self) -> (r: String)
        ensures
            r@ == hex_lower(self@),
    {
        hex_encode(self.0.as_slice())
    }

    /// Parses the identifier from exactly `2 * 20` hexadecimal digits.
    pub fn from_hex(value: &str) -> (r: Result<Self, hex::FromHexError>)
        ensures
            r is Ok <==> is_hex_of_len(value.spec_bytes(), 20 as nat),
            r matches Ok(id) ==> id@ == hex_decoded(value.spec_bytes()),
    {
        let mut bytes = [0u8; 20];
        match hex_decode_to_slice(value, &mut bytes) {
            Ok(()) => Ok(NodeId::from_bytes(bytes)),
            Err(error) => Err(error),
        }
    }

    /// Creates the identifier from a slice of exactly `20` bytes.
    pub fn from_slice(value: &[u8]) -> (r: Result<Self, TryFromSliceError>)
        ensures
            r is Ok <==> value@.len() == 20,
            r matches Ok(id) ==> id@ == value@,
    {
        match array_from_slice::<20>(value) {
            Ok(bytes) => Ok(NodeId(bytes)),
            Err(error) => Err(error),
        }
    }

    /// Returns `"NodeId(<hex>)"`, the identifier's debugging representation.
    pub fn debug_string(&self) -> (r: String)
        ensures
            r@ == "NodeId("@ + hex_lower(self@) + ")"@,
    {
        let mut r = String::new();
        r.append("NodeId(");
        let hex = self.to_hex();
        r.append(hex.as_str());
        r.append(")");
        r
    }
}

impl FromStr for NodeId {
    type Err = hex::FromHexError;

    fn from_str(value: &str) -> (r: Result<Self, Self::Err>)
        ensures
            r is Ok <==> is_hex_of_len(value.spec_bytes(), 20 as nat),
            r matches Ok(id) ==> id@ == hex_decoded(value.spec_bytes()),
    {
        NodeId::from_hex(value)
    }
}

impl<'a> TryFrom<&'a str> for NodeId {
    type Error = hex::FromHexError;

    fn try_from(value: &'a str) -> (r: Result<Self, Self::Error>)
        ensures
            r is Ok <==> is_hex_of_len(value.spec_bytes(), 20 as nat),
            r matches Ok(id) ==> id@ == hex_decoded(value.spec_bytes()),
    {
        NodeId::from_hex(value)
    }
}

impl<'a> TryFrom<&'a [u8]> for NodeId {
    type Error = TryFromSliceError;

    fn try_from(value: &'a [u8]) -> (r: Result<Self, Self::Error>)
        ensures
            r is Ok <==> value@.len() == 20,
            r matches Ok(id) ==> id@ == value@,
    {
        NodeId::from_slice(value)
    }
}

/// The generic conversion specification is not claimed; the `try_from`
/// implementation above states its result.
impl<'a> vstd::std_specs::convert::TryFromSpecImpl<&'a str> for NodeId {
    open spec fn obeys_try_from_spec() -> bool {
        false
    }

    open spec fn try_from_spec(v: &'a str) -> Result<Self, Self::Error> {
        arbitrary()
    }
}

/// The generic conversion specification is not claimed; the `try_from`
/// implementation above states its result.
impl<'a> vstd::std_specs::convert::TryFromSpecImpl<&'a [u8]> for NodeId {
    open spec fn obeys_try_from_spec() -> bool {
        false
    }

    open spec fn try_from_spec(v: &'a [u8]) -> Result<Self, Self::Error> {
        arbitrary()
    }
}

impl AsRef<[u8; 20]> for NodeId {
    fn as_ref(&self) -> (r: &[u8; 20])
        ensures
            r@ == self@,
    {
        &self.0
    }
}

/// A 20-byte DHT infohash key.
///
/// This may be a v1 SHA-1 infohash or a DHT representation derived from a
/// v2 SHA-256 infohash. The DHT wire representation does not identify which.
#[derive(Clone, Copy, Debug, PartialEq, Eq, Hash, PartialOrd, Ord, Default)]
pub struct DhtInfoHash([u8; 20]);

impl View for DhtInfoHash {
    type V = Seq<u8>;

    closed spec fn view(&self) -> Seq<u8> {
        self.0@
    }
}

impl DhtInfoHash {
    /// Length of the identifier in bytes.
    pub const LEN: usize = 20;

    /// Creates the identifier from its fixed-size byte representation.
    pub fn from_bytes(bytes: [u8; 20]) -> (r: Self)
        ensures
            r@ == bytes@,
    {
        DhtInfoHash(bytes)
    }

    /// Returns the identifier's fixed-size byte representation.
    pub fn as_bytes(&self) -> (r: &[u8; 20])
        ensures
            r@ == self@,
    {
        &self.0
    }

    /// Returns the identifier as a lowercase hexadecimal string.
    pub fn to_hex(&self) -> (r: String)
        ensures
            r@ == hex_lower(self@),
    {
        hex_encode(self.0.as_slice())
    }

    /// Parses the identifier from exactly `2 * 20` hexadecimal digits.
    pub fn from_hex(value: &str) -> (r: Result<Self, hex::FromHexError>)
        ensures
            r is Ok <==> is_hex_of_len(value.spec_bytes(), 20 as nat),
            r matches Ok(id) ==> id@ == hex_decoded(value.spec_bytes()),
    {
        let mut bytes = [0u8; 20];
        match hex_decode_to_slice(value, &mut bytes) {
            Ok(()) => Ok(DhtInfoHash::from_bytes(bytes)),
            Err(error) => Err(error),
        }
    }

    /// Creates the identifier from a slice of exactly `20` bytes.
    pub fn from_slice(value: &[u8]) -> (r: Result<Self, TryFromSliceError>)
        ensures
            r is Ok <==> value@.len() == 20,
            r matches Ok(id) ==> id@ == value@,
    {
        match array_from_slice::<20>(value) {
            Ok(bytes) => Ok(DhtInfoHash(bytes)),
            Err(error) => Err(error),
        }
    }

    /// Returns `"DhtInfoHash(<hex>)"`, the identifier's debugging representation.
    pub fn debug_string(&self) -> (r: String)
        ensures
            r@ == "DhtInfoHash("@ + hex_lower(self@) + ")"@,
    {
        let mut r = String::new();
        r.append("DhtInfoHash(");
        let hex = self.to_hex();
        r.append(hex.as_str());
        r.append(")");
        r
    }
}

impl FromStr for DhtInfoHash {
    type Err = hex::FromHexError;

    fn from_str(value: &str) -> (r: Result<Self, Self::Err>)
        ensures
            r is Ok <==> is_hex_of_len(value.spec_bytes(), 20 as nat),
            r matches Ok(id) ==> id@ == hex_decoded(value.spec_bytes()),
    {
        DhtInfoHash::from_hex(value)
    }
}

impl<'a> TryFrom<&'a str> for DhtInfoHash {
    type Error = hex::FromHexError;

    fn try_from(value: &'a str) -> (r: Result<Self, Self::Error>)
        ensures
            r is Ok <==> is_hex_of_len(value.spec_bytes(), 20 as nat),
            r matches Ok(id) ==> id@ == hex_decoded(value.spec_bytes()),
    {
        DhtInfoHash::from_hex(value)
    }
}

impl<'a> TryFrom<&'a [u8]> for DhtInfoHash {
    type Error = TryFromSliceError;

    fn try_from(value: &'a [u8]) -> (r: Result<Self, Self::Error>)
        ensures
            r is Ok <==> value@.len() == 20,
            r matches Ok(id) ==> id@ == value@,
    {
        DhtInfoHash::from_slice(value)
    }
}

/// The generic conversion specification is not claimed; the `try_from`
/// implementation above states its result.
impl<'a> vstd::std_specs::convert::TryFromSpecImpl<&'a str> for DhtInfoHash {
    open spec fn obeys_try_from_spec() -> bool {
        false
    }

    open spec fn try_from_spec(v: &'a str) -> Result<Self, Self::Error> {
        arbitrary()
    }
}

/// The generic conversion specification is not claimed; the `try_from`
/// implementation above states its result.
impl<'a> vstd::std_specs::convert::TryFromSpecImpl<&'a [u8]> for DhtInfoHash {
    open spec fn obeys_try_from_spec() -> bool {
        false
    }

    open spec fn try_from_spec(v: &'a [u8]) -> Result<Self, Self::Error> {
        arbitrary()
    }
}

impl AsRef<[u8; 20]> for DhtInfoHash {
    fn as_ref(&self) -> (r: &[u8; 20])
        ensures
            r@ == self@,
    {
        &self.0
    }
}

/// A 20-byte DHT key-space traversal target.
///
/// In a BEP 51 sample request, this directs traversal through the DHT key
/// space. It is distinct from a local or remote [`NodeId`] and does not affect
/// the samples returned by the queried node.
#[derive(Clone, Copy, Debug, PartialEq, Eq, Hash, PartialOrd, Ord, Default)]
pub struct DhtTarget([u8; 20]);

impl View for DhtTarget {
    type V = Seq<u8>;

    closed spec fn view(&self) -> Seq<u8> {
        self.0@
    }
}

impl DhtTarget {
    /// Length of the identifier in bytes.
    pub const LEN: usize = 20;

    /// Creates the identifier from its fixed-size byte representation.
    pub fn from_bytes(bytes: [u8; 20]) -> (r: Self)
        ensures
            r@ == bytes@,
    {
        DhtTarget(bytes)
    }

    /// Returns the identifier's fixed-size byte representation.
    pub fn as_bytes(&self) -> (r: &[u8; 20])
        ensures
            r@ == self@,
    {
        &self.0
    }

    /// Returns the identifier as a lowercase hexadecimal string.
    pub fn to_hex(&self) -> (r: String)
        ensures
            r@ == hex_lower(self@),
    {
        hex_encode(self.0.as_slice())
    }

    /// Parses the identifier from exactly `2 * 20` hexadecimal digits.
    pub fn from_hex(value: &str) -> (r: Result<Self, hex::FromHexError>)
        ensures
            r is Ok <==> is_hex_of_len(value.spec_bytes(), 20 as nat),
            r matches Ok(id) ==> id@ == hex_decoded(value.spec_bytes()),
    {
        let mut bytes = [0u8; 20];
        match hex_decode_to_slice(value, &mut bytes) {
            Ok(()) => Ok(DhtTarget::from_bytes(bytes)),
            Err(error) => Err(error),
        }
    }

    /// Creates the identifier from a slice of exactly `20` bytes.
    pub fn from_slice(value: &[u8]) -> (r: Result<Self, TryFromSliceError>)
        ensures
            r is Ok <==> value@.len() == 20,
            r matches Ok(id) ==> id@ == value@,
    {
        match array_from_slice::<20>(value) {
            Ok(bytes) => Ok(DhtTarget(bytes)),
            Err(error) => Err(error),
        }
    }

    /// Returns `"DhtTarget(<hex>)"`, the identifier's debugging representation.
    pub fn debug_string(&self) -> (r: String)
        ensures
            r@ == "DhtTarget("@ + hex_lower(self@) + ")"@,
    {
        let mut r = String::new();
        r.append("DhtTarget(");
        let hex = self.to_hex();
        r.append(hex.as_str());
        r.append(")");
        r
    }
}

impl FromStr for DhtTarget {
    type Err = hex::FromHexError;

    fn from_str(value: &str) -> (r: Result<Self, Self::Err>)
        ensures
            r is Ok <==> is_hex_of_len(value.spec_bytes(), 20 as nat),
            r matches Ok(id) ==> id@ == hex_decoded(value.spec_bytes()),
    {
        DhtTarget::from_hex(value)
    }
}

impl<'a> TryFrom<&'a str> for DhtTarget {
    type Error = hex::FromHexError;

    fn try_from(value: &'a str) -> (r: Result<Self, Self::Error>)
        ensures
            r is Ok <==> is_hex_of_len(value.spec_bytes(), 20 as nat),
            r matches Ok(id) ==> id@ == hex_decoded(value.spec_bytes()),
    {
        DhtTarget::from_hex(value)
    }
}

impl<'a> TryFrom<&'a [u8]> for DhtTarget {
    type Error = TryFromSliceError;

    fn try_from(value: &'a [u8]) -> (r: Result<Self, Self::Error>)
        ensures
            r is Ok <==> value@.len() == 20,
            r matches Ok(id) ==> id@ == value@,
    {
        DhtTarget::from_slice(value)
    }
}

/// The generic conversion specification is not claimed; the `try_from`
/// implementation above states its result.
impl<'a> vstd::std_specs::convert::TryFromSpecImpl<&'a str> for DhtTarget {
    open spec fn obeys_try_from_spec() -> bool {
        false
    }

    open spec fn try_from_spec(v: &'a str) -> Result<Self, Self::Error> {
        arbitrary()
    }
}

/// The generic conversion specification is not claimed; the `try_from`
/// implementation above states its result.
impl<'a> vstd::std_specs::convert::TryFromSpecImpl<&'a [u8]> for DhtTarget {
    open spec fn obeys_try_from_spec() -> bool {
        false
    }

    open spec fn try_from_spec(v: &'a [u8]) -> Result<Self, Self::Error> {
        arbitrary()
    }
}

impl AsRef<[u8; 20]> for DhtTarget {
    fn as_ref(&self) -> (r: &[u8; 20])
        ensures
            r@ == self@,
    {
        &self.0
    }
}

} // verus!
