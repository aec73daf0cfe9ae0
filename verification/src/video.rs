use vstd::prelude::*;

verus! {

use vstd::string::*;
use crate::text::{match_at, matches_at};

/// The base64 text that the standard, padded base64 encoding produces for a
/// byte sequence. The encoding is a function of the bytes alone, so the
/// result carries a name rather than a page of alphabet arithmetic.
pub uninterp spec fn base64_of(b: Seq<u8>) -> Seq<char>;

/// Relies on base64::encode: standard alphabet with padding, a function of
/// the input bytes alone.
#[verifier::external_body]
pub(crate) fn encode_base64(b: &[u8]) -> (r: String)
    ensures
        r@ == base64_of(b@),
{
    base64::encode(b)
}

/// Relies on base64::decode: decoding standard, padded base64 inverts
/// base64::encode, so on the encoding of `b` it returns exactly `b`.
#[verifier::external_body]
pub(crate) fn decode_base64(s: &str) -> (r: Option<Vec<u8>>)
    ensures
        forall|b: Seq<u8>| s@ == #[trigger] base64_of(b) ==> r is Some && r->0@ == b,
{
    match base64::decode(s) {
        Ok(v) => Some(v),
        Err(_) => None,
    }
}

/// The MIME prefix every locally built media source starts with.
pub open spec fn data_url_prefix() -> Seq<char> {
    "data:video/mp4;base64,"@
}

/// A data URL: the fixed MIME prefix followed by the base64 payload.
pub open spec fn data_url_spec(b64: Seq<char>) -> Seq<char> {
    data_url_prefix() + b64
}

/// The raw bytes and name of a file whose asynchronous read has completed.
pub struct FileData {
    pub name: String,
    pub content: Vec<u8>,
}

/// A video entry: `src` is either a server-provided location or a locally
/// built data URL.
pub struct Video {
    pub src: String,
}

impl View for Video {
    type V = Seq<char>;

    open spec fn view(&self) -> Seq<char> {
        self.src@
    }
}

impl DeepView for Video {
    type V = Seq<char>;

    open spec fn deep_view(&self) -> Seq<char> {
        self.src@
    }
}

impl Video {
    /// Build a video whose source embeds the freshly read bytes as a data URL.
    pub fn new(file_data: FileData) -> (v: Video)
        ensures
            v.src@ == data_url_spec(base64_of(file_data.content@)),
    {
        let encoded = encode_base64(file_data.content.as_slice());
        let mut src = String::from_str("data:video/mp4;base64,");
        src.append(encoded.as_str());
        Video { src }
    }
}

/// A video awaiting server confirmation: `key` is the file name, `data` the
/// base64 payload, and `src` the data URL built from that payload.
pub struct NewVideo {
    pub key: String,
    pub data: String,
    pub src: String,
}

/// The mathematical content of a `NewVideo`.
#[verifier::ext_equal]
pub struct NewVideoM {
    pub key: Seq<char>,
    pub data: Seq<char>,
    pub src: Seq<char>,
}

impl View for NewVideo {
    type V = NewVideoM;

    open spec fn view(&self) -> NewVideoM {
        NewVideoM { key: self.key@, data: self.data@, src: self.src@ }
    }
}

impl DeepView for NewVideo {
    type V = NewVideoM;

    open spec fn deep_view(&self) -> NewVideoM {
        self.view()
    }
}

/// Recover the bytes a data URL embeds: for every byte sequence `b`, the URL
/// built from `b` decodes back to exactly `b`.
pub fn decode_data_url(src: &str) -> (r: Option<Vec<u8>>)
    ensures
        forall|b: Seq<u8>|
            src@ == data_url_spec(#[trigger] base64_of(b)) ==> r is Some && r->0@ == b,
{
    proof {
        reveal_strlit("data:video/mp4;base64,");
    }
    let n = src.unicode_len();
    if n < 22 || !match_at(src, 0, "data:video/mp4;base64,") {
        proof {
            assert forall|b: Seq<u8>| src@ != data_url_spec(#[trigger] base64_of(b)) by {
                if src@ == data_url_spec(base64_of(b)) {
                    assert(src@.len() >= 22);
                    assert(matches_at(src@, 0, "data:video/mp4;base64,"@));
                }
            }
        }
        return None;
    }
    let rest = src.substring_char(22, n);
    let r = decode_base64(rest);
    proof {
        assert forall|b: Seq<u8>| src@ == data_url_spec(#[trigger] base64_of(b))
            implies r is Some && r->0@ == b by {
            assert(rest@ =~= base64_of(b));
        }
    }
    r
}

} // verus!
