//! Data on its way to and from the encryption service: who it belongs to, and
//! how plain and encrypted bytes are written as text.
use vstd::prelude::*;
use vstd::string::{StrSliceExecFns, StringExecFns};

use crate::codec::{base64_bytes, base64_decode, base64_encode, base64_text, decode_error_text};

verus! {

/// Whose key the data are encrypted with.
#[derive(Debug, Clone)]
pub enum Identifier {
    User(String),
    Merchant(String),
}

/// Why a text is no encrypted or plain data.
#[derive(Debug)]
pub enum CodecError {
    /// The text has no colon between version and data.
    MissingSeparator,
    /// The data are no base64 text; `message` is the decoder's account.
    InvalidBase64 { message: String },
}

/// A request to encrypt `data` for `identifier`.
pub struct EncryptDataRequest {
    pub identifier: Identifier,
    pub data: DecryptedData,
}

/// Plain bytes. As text they are written in base64.
pub struct DecryptedData(Vec<u8>);

/// Encrypted bytes with the version of the key that encrypted them. As text
/// they are written as the version, a colon, and the bytes in base64.
pub struct EncryptedData {
    pub version: String,
    pub data: Vec<u8>,
}

/// The position of the first colon of `text`, its length where it has none.
pub open spec fn colon_index(text: Seq<char>) -> int
    decreases text.len(),
{
    if text.len() == 0 || text[0] == ':' {
        0
    } else {
        1 + colon_index(text.drop_first())
    }
}

/// What stands before the first colon of `text`.
pub open spec fn before_colon(text: Seq<char>) -> Seq<char> {
    text.take(colon_index(text))
}

/// What stands after the first colon of `text`.
pub open spec fn after_colon(text: Seq<char>) -> Seq<char> {
    text.skip(colon_index(text) + 1)
}

/// The first colon is where no colon stands before and a colon, or the end,
/// stands.
pub proof fn lemma_colon_index(text: Seq<char>, at: int)
    requires
        0 <= at <= text.len(),
        forall|i: int| 0 <= i < at ==> text[i] != ':',
        at < text.len() ==> text[at] == ':',
    ensures
        colon_index(text) == at,
    decreases text.len(),
{
    if at > 0 {
        let rest = text.drop_first();
        assert forall|i: int| 0 <= i < at - 1 implies rest[i] != ':' by {
            assert(rest[i] == text[i + 1]);
        }
        lemma_colon_index(rest, at - 1);
    }
}

/// A text splits at its first colon: what stands before has no colon, and
/// the three parts make up the text. A text without colon has no first colon.
pub proof fn lemma_split(text: Seq<char>)
    ensures
        0 <= colon_index(text) <= text.len(),
        !before_colon(text).contains(':'),
        text.contains(':') <==> colon_index(text) < text.len(),
        text.contains(':') ==> text == before_colon(text) + seq![':'] + after_colon(text),
    decreases text.len(),
{
    if text.len() > 0 && text[0] != ':' {
        let rest = text.drop_first();
        lemma_split(rest);
        let at = colon_index(text);
        assert forall|i: int| 0 <= i < at implies text[i] != ':' by {
            if i > 0 {
                assert(before_colon(rest)[i - 1] == text[i]);
                assert(before_colon(rest).contains(text[i]));
            }
        }
        if text.contains(':') {
            let i = choose|i: int| 0 <= i < text.len() && text[i] == ':';
            assert(rest[i - 1] == ':');
            assert(rest.contains(':'));
        }
        if rest.contains(':') {
            let i = choose|i: int| 0 <= i < rest.len() && rest[i] == ':';
            assert(text[i + 1] == ':');
        }
        if before_colon(text).contains(':') {
            let i = choose|i: int| 0 <= i < before_colon(text).len() && before_colon(text)[i]
                == ':';
            assert(text[i] == ':');
        }
        if at < text.len() {
            assert(text[at] == rest[at - 1]);
            assert(text =~= before_colon(text) + seq![':'] + after_colon(text));
        }
    } else if text.len() > 0 {
        assert(text =~= before_colon(text) + seq![':'] + after_colon(text));
        assert(text[0] == ':');
    }
}

/// Splits a text at its first colon: `None` for a text without colon, else
/// what stands before the colon and what stands after it.
pub fn split_once_colon(text: &str) -> (parts: Option<(String, String)>)
    ensures
        !text@.contains(':') ==> parts is None,
        text@.contains(':') ==> (parts matches Some(pair) && pair.0@ == before_colon(text@)
            && pair.1@ == after_colon(text@)),
{
    let len = text.unicode_len();
    let mut at: usize = 0;
    while at < len
        invariant
            len == text@.len(),
            at <= len,
            forall|i: int| 0 <= i < at ==> text@[i] != ':',
        decreases len - at,
    {
        if text.get_char(at) == ':' {
            proof {
                lemma_colon_index(text@, at as int);
                lemma_split(text@);
            }
            let before = text.substring_char(0, at);
            let after = text.substring_char(at + 1, len);
            proof {
                assert(before@ =~= before_colon(text@));
                assert(after@ =~= after_colon(text@));
            }
            return Some((String::from_str(before), String::from_str(after)));
        }
        at = at + 1;
    }
    proof {
        lemma_colon_index(text@, len as int);
        lemma_split(text@);
    }
    None
}

impl DecryptedData {
    /// The bytes.
    pub closed spec fn bytes(&self) -> Seq<u8> {
        self.0@
    }

    /// Plain data that hold the given bytes.
    pub fn from_data(data: Vec<u8>) -> (plain: Self)
        ensures
            plain.bytes() == data@,
    {
        DecryptedData(data)
    }

    /// The bytes.
    pub fn inner(self) -> (data: Vec<u8>)
        ensures
            data@ == self.bytes(),
    {
        self.0
    }

    /// The data as text: the bytes in base64.
    pub fn to_text(&self) -> (text: String)
        ensures
            text@ == base64_text(self.bytes()),
    {
        base64_encode(self.0.as_slice())
    }

    /// The data that a text stands for: the bytes that it is the base64 text
    /// of. A text that is no base64 text is `InvalidBase64`.
    pub fn from_text(value: &str) -> (result: Result<Self, CodecError>)
        ensures
            base64_bytes(value@) matches Some(bytes) ==> (result matches Ok(plain)
                && plain.bytes() == bytes),
            base64_bytes(value@) is None ==> result matches Err(CodecError::InvalidBase64 { .. }),
    {
        match base64_decode(value) {
            Ok(data) => Ok(DecryptedData(data)),
            Err(error) => Err(CodecError::InvalidBase64 { message: decode_error_text(&error) }),
        }
    }
}

impl EncryptedData {
    /// The encrypted bytes.
    pub fn inner(self) -> (data: Vec<u8>)
        ensures
            data == self.data,
    {
        self.data
    }

    /// The data as text: the version, a colon, the bytes in base64.
    pub fn to_text(&self) -> (text: String)
        ensures
            text@ == self.version@ + seq![':'] + base64_text(self.data@),
    {
        let data = base64_encode(self.data.as_slice());
        let mut encoded = self.version.clone();
        proof {
            reveal_strlit(":");
        }
        encoded.append(":");
        encoded.append(data.as_str());
        proof {
            assert(encoded@ =~= self.version@ + seq![':'] + base64_text(self.data@));
        }
        encoded
    }

    /// The data that a text stands for. The version is what stands before
    /// the first colon; what stands after it is the bytes in base64. A text
    /// without colon is `MissingSeparator`; one whose data are no base64 text
    /// is `InvalidBase64`.
    pub fn from_text(value: &str) -> (result: Result<Self, CodecError>)
        ensures
            !value@.contains(':') ==> result matches Err(CodecError::MissingSeparator),
            value@.contains(':') && base64_bytes(after_colon(value@)) is None
                ==> result matches Err(CodecError::InvalidBase64 { .. }),
            value@.contains(':') ==> (base64_bytes(after_colon(value@)) matches Some(bytes) ==> (
            result matches Ok(encrypted) && encrypted.version@ == before_colon(value@)
                && encrypted.data@ == bytes)),
    {
        let (version, data) = match split_once_colon(value) {
            Some(parts) => parts,
            None => {
                return Err(CodecError::MissingSeparator);
            },
        };
        match base64_decode(data.as_str()) {
            Ok(dec_data) => Ok(EncryptedData { version, data: dec_data }),
            Err(error) => Err(CodecError::InvalidBase64 { message: decode_error_text(&error) }),
        }
    }
}

} // verus!
