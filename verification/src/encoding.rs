//! Text forms of binary values: lower-case hexadecimal, the 22 base-62 digits
//! of a Spotify id, and the SHA-1 digest from which a device id is made.

use crate::json::spec_digit;
use sha1::Digest;
use vstd::prelude::*;
use vstd::string::StringSliceAdditionalSpecFns;

verus! {

/// The lower-case hexadecimal digit of `d`.
pub open spec fn spec_hex_digit(d: int) -> char {
    if d < 10 {
        spec_digit(d)
    } else if d == 10 {
        'a'
    } else if d == 11 {
        'b'
    } else if d == 12 {
        'c'
    } else if d == 13 {
        'd'
    } else if d == 14 {
        'e'
    } else {
        'f'
    }
}

/// The lower-case hexadecimal text of `bytes`: two digits for each byte, the
/// high one first.
pub open spec fn spec_hex(bytes: Seq<u8>) -> Seq<char>
    decreases bytes.len(),
{
    if bytes.len() == 0 {
        Seq::empty()
    } else {
        spec_hex(bytes.drop_last()).push(spec_hex_digit(bytes.last() as int / 16)).push(
            spec_hex_digit(bytes.last() as int % 16),
        )
    }
}

/// The SHA-1 digest of `data`.
pub uninterp spec fn sha1_digest(data: Seq<u8>) -> Seq<u8>;

/// The base-62 text of a Spotify id.
pub uninterp spec fn base62_text(id: u128) -> Seq<char>;

/// Calls `hex::encode`, which writes each byte of `data` as two lower-case
/// hexadecimal digits. The contract states exactly that.
#[verifier::external_body]
fn hex_encode(data: &[u8]) -> (text: String)
    ensures
        text@ == spec_hex(data@),
{
    hex::encode(data)
}

/// Calls `Sha1::digest` of the `sha-1` crate. The contract gives the digest a
/// name, [`sha1_digest`], and claims nothing else of it.
#[verifier::external_body]
fn sha1(data: &[u8]) -> (digest: Vec<u8>)
    ensures
        digest@ == sha1_digest(data@),
{
    sha1::Sha1::digest(data).to_vec()
}

/// The kind of thing that a Spotify id names.
#[derive(Clone, Copy, Debug, PartialEq, Eq, Structural)]
pub enum SpotifyAudioType {
    Track,
    Podcast,
    NonPlayable,
}

/// The id of a track, an episode, an album, an artist or a show.
#[derive(Clone, Copy, Debug, PartialEq, Eq, Structural)]
pub struct SpotifyId {
    pub id: u128,
    pub audio_type: SpotifyAudioType,
}

impl SpotifyId {
    /// Calls `SpotifyId::to_base62` of `librespot`, on an id with this
    /// number: the id in its canonical text form, 22 base-62 digits. The
    /// contract gives the text a name, [`base62_text`], and claims nothing
    /// else of it.
    #[verifier::external_body]
    pub(crate) fn to_base62(&self) -> (text: String)
        ensures
            text@ == base62_text(self.id),
    {
        librespot::core::spotify_id::SpotifyId {
            id: self.id,
            audio_type: librespot::core::spotify_id::SpotifyAudioType::Track,
        }.to_base62()
    }
}

/// The id of a file, such as a cover image.
#[derive(Clone, Copy, Debug, PartialEq, Eq)]
pub struct FileId(pub [u8; 20]);

impl FileId {
    /// Calls `FileId::to_base16` of `librespot`, which writes each of the 20
    /// bytes as two lower-case hexadecimal digits. The contract states
    /// exactly that.
    #[verifier::external_body]
    pub(crate) fn to_base16(&self) -> (text: String)
        ensures
            text@ == spec_hex(self.0@),
    {
        librespot::core::spotify_id::FileId(self.0).to_base16()
    }
}

/// The id under which a device of the given name announces itself: the SHA-1
/// digest of the name's UTF-8 bytes, in lower-case hexadecimal.
pub open spec fn spec_device_id(name: Seq<char>) -> Seq<char> {
    spec_hex(sha1_digest(vstd::utf8::encode_utf8(name)))
}

/// The device id that belongs to `name`.
pub fn device_id(name: &str) -> (id: String)
    ensures
        id@ == spec_device_id(name@),
{
    let digest = sha1(name.as_bytes());
    hex_encode(digest.as_slice())
}

} // verus!
