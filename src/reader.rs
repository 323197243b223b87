use vstd::prelude::*;

use crate::scheme::Blob;
use crate::text::concat2;

verus! {

/// Where a file reader is in its one read.
#[derive(Clone, Copy, Debug, PartialEq, Eq, Structural)]
pub enum FileReaderState {
    Empty,
    Loading,
    Done,
}

/// The error of starting a read while another is loading.
#[derive(Clone, Copy, Debug, PartialEq, Eq, Structural)]
pub enum ReaderError {
    InvalidState,
}

impl Default for FileReaderState {
    fn default() -> (r: FileReaderState)
        ensures
            r == FileReaderState::Empty,
    {
        FileReaderState::Empty
    }
}

impl FileReaderState {
    /// Starts a read: refused while one is loading, else the reader is
    /// loading from now on.
    pub fn validate(&mut self) -> (r: Result<(), ReaderError>)
        ensures
            *old(self) == FileReaderState::Loading ==> r == Err::<(), ReaderError>(ReaderError::InvalidState)
                && *final(self) == FileReaderState::Loading,
            *old(self) != FileReaderState::Loading ==> r == Ok::<(), ReaderError>(())
                && *final(self) == FileReaderState::Loading,
    {
        if *self == FileReaderState::Loading {
            return Err(ReaderError::InvalidState);
        }
        *self = FileReaderState::Loading;
        Ok(())
    }

    /// Ends the read under way.
    pub fn finish(&mut self)
        ensures
            *final(self) == FileReaderState::Done,
    {
        *self = FileReaderState::Done;
    }
}

/// The text that `encoding_rs` decodes `bytes` to, in the encoding that
/// `label` names (without byte-order-mark handling), or `None` where the
/// label names no encoding other than the replacement encoding.
pub uninterp spec fn decoded_with(label: Seq<char>, bytes: Seq<u8>) -> Option<Seq<char>>;

/// Relies on `encoding_rs::Encoding`: `for_label_no_replacement` to find the
/// encoding and `decode_without_bom_handling` to decode; `utf-8` is a label
/// of UTF-8.
#[verifier::external_body]
fn decode_with_label(label: &str, bytes: &[u8]) -> (r: Option<String>)
    ensures
        match r {
            Some(t) => decoded_with(label@, bytes@) == Some(t@),
            None => decoded_with(label@, bytes@) is None,
        },
        label@ == "utf-8"@ ==> r is Some,
{
    let encoding = encoding_rs::Encoding::for_label_no_replacement(label.as_bytes())?;
    Some(encoding.decode_without_bom_handling(bytes).0.into_owned())
}

/// The `charset` parameter of a MIME type as the `mime` crate reads it, or
/// `None` where the text is no MIME type or has no such parameter.
pub uninterp spec fn charset_param(mime: Seq<char>) -> Option<Seq<char>>;

/// Relies on `mime::Mime`: `from_str` to parse and `get_param` for `charset`.
#[verifier::external_body]
fn mime_charset(mime: &str) -> (r: Option<String>)
    ensures
        match r {
            Some(c) => charset_param(mime@) == Some(c@),
            None => charset_param(mime@) is None,
        },
{
    let mime: mime::Mime = mime.parse().ok()?;
    mime.get_param("charset").map(|p| p.as_str().to_string())
}

/// The standard base64 encoding of `bytes`, with padding.
pub uninterp spec fn base64_of(bytes: Seq<u8>) -> Seq<char>;

/// Relies on `base64`'s `STANDARD` engine and `Engine::encode`.
#[verifier::external_body]
fn base64_encode(bytes: &[u8]) -> (r: String)
    requires
        bytes@.len() <= usize::MAX / 2,
    ensures
        r@ == base64_of(bytes@),
{
    base64::Engine::encode(&base64::prelude::BASE64_STANDARD, bytes)
}

/// Relies on `String::push`: the string grows by `c` at its end.
#[verifier::external_body]
fn push_char(s: &mut String, c: char)
    ensures
        final(s)@ == old(s)@.push(c),
{
    s.push(c)
}

/// The text of a blob read with an optional encoding label: the label's
/// encoding where it names one; where it names none, the encoding of the
/// blob type's `charset` where that names one; else UTF-8.
pub open spec fn text_of_blob(bytes: Seq<u8>, label: Option<Seq<char>>, mime: Option<Seq<char>>) -> Seq<char> {
    let utf8 = decoded_with("utf-8"@, bytes)->0;
    match label {
        None => utf8,
        Some(l) => match decoded_with(l, bytes) {
            Some(t) => t,
            None => match mime {
                None => utf8,
                Some(m) => match charset_param(m) {
                    None => utf8,
                    Some(c) => match decoded_with(c, bytes) {
                        Some(t) => t,
                        None => utf8,
                    },
                },
            },
        },
    }
}

/// The `data:` URL of a blob: its type (if any) and its bytes in base64.
pub open spec fn data_url_of_blob(bytes: Seq<u8>, mime: Option<Seq<char>>) -> Seq<char> {
    match mime {
        Some(m) => "data:"@ + m + ";base64,"@ + base64_of(bytes),
        None => "data:base64,"@ + base64_of(bytes),
    }
}

/// The Latin-1 text of bytes: one character per byte, of the same code.
pub open spec fn latin1_of(bytes: Seq<u8>) -> Seq<char> {
    Seq::new(bytes.len(), |i: int| bytes[i] as char)
}

/// Reads blobs at once, without events.
#[derive(Debug)]
pub struct FileReaderSync {}

impl FileReaderSync {
    pub fn constructor() -> (r: FileReaderSync) {
        FileReaderSync {}
    }

    /// The blob's bytes.
    pub fn read_as_array_buffer(&self, blob: &Blob) -> (r: Vec<u8>)
        ensures
            r@ == blob.bytes@,
    {
        blob.bytes.clone()
    }

    /// The blob's bytes as Latin-1 text.
    pub fn read_as_binary_string(&self, blob: &Blob) -> (r: String)
        ensures
            r@ == latin1_of(blob.bytes@),
    {
        let mut s = String::new();
        let mut i: usize = 0;
        while i < blob.bytes.len()
            invariant
                0 <= i <= blob.bytes.len(),
                s@ == latin1_of(blob.bytes@.subrange(0, i as int)),
            decreases blob.bytes.len() - i,
        {
            push_char(&mut s, blob.bytes[i] as char);
            i += 1;
            assert(s@ =~= latin1_of(blob.bytes@.subrange(0, i as int)));
        }
        assert(blob.bytes@.subrange(0, blob.bytes@.len() as int) =~= blob.bytes@);
        s
    }

    /// The blob's bytes decoded as text; see `text_of_blob`.
    pub fn read_as_text(&self, blob: &Blob, encoding: Option<String>) -> (r: String)
        ensures
            r@ == text_of_blob(
                blob.bytes@,
                crate::url::opt_view(encoding),
                crate::url::opt_view(blob.kind),
            ),
    {
        let bytes = blob.bytes.as_slice();
        if let Some(label) = &encoding {
            if let Some(t) = decode_with_label(label.as_str(), bytes) {
                return t;
            }
            if let Some(mime) = &blob.kind {
                if let Some(charset) = mime_charset(mime.as_str()) {
                    if let Some(t) = decode_with_label(charset.as_str(), bytes) {
                        return t;
                    }
                }
            }
        }
        match decode_with_label("utf-8", bytes) {
            Some(t) => t,
            None => String::new(),
        }
    }

    /// The blob as a `data:` URL; see `data_url_of_blob`.
    pub fn read_as_data_url(&self, blob: &Blob) -> (r: String)
        requires
            blob.bytes@.len() <= usize::MAX / 2,
        ensures
            r@ == data_url_of_blob(blob.bytes@, crate::url::opt_view(blob.kind)),
    {
        let encoded = base64_encode(blob.bytes.as_slice());
        match &blob.kind {
            Some(mime) => {
                let head = concat2("data:", mime.as_str());
                let head = concat2(head.as_str(), ";base64,");
                concat2(head.as_str(), encoded.as_str())
            },
            None => concat2("data:base64,", encoded.as_str()),
        }
    }
}

/// What a read produced.
#[derive(Debug)]
pub enum ReadResult {
    ArrayBuffer(Vec<u8>),
    Text(String),
}

/// Reads one blob at a time; a read starts at once and its result is stored
/// when the host completes it.
#[derive(Debug)]
pub struct FileReader {
    pub state: FileReaderState,
    pub result: Option<ReadResult>,
}

impl FileReader {
    pub fn constructor() -> (r: FileReader)
        ensures
            r.state == FileReaderState::Empty,
            r.result is None,
    {
        FileReader { state: FileReaderState::Empty, result: None }
    }

    /// The state as scripts see it: 0 empty, 1 loading, 2 done.
    pub fn get_ready_state(&self) -> (r: u8)
        ensures
            r == (match self.state {
                FileReaderState::Empty => 0u8,
                FileReaderState::Loading => 1u8,
                FileReaderState::Done => 2u8,
            }),
    {
        match self.state {
            FileReaderState::Empty => 0,
            FileReaderState::Loading => 1,
            FileReaderState::Done => 2,
        }
    }

    /// Starts a read; refused while another is loading.
    pub fn begin_read(&mut self) -> (r: Result<(), ReaderError>)
        ensures
            old(self).state == FileReaderState::Loading <==> r is Err,
            final(self).state == FileReaderState::Loading,
            final(self).result == old(self).result,
    {
        self.state.validate()
    }

    /// Stores the result of the read under way.
    pub fn complete(&mut self, result: ReadResult)
        ensures
            final(self).state == FileReaderState::Done,
            final(self).result == Some(result),
    {
        self.state.finish();
        self.result = Some(result);
    }
}

} // verus!
