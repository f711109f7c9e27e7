//! How files are stored: decoded from bytes into a typed form, hashed, and
//! encoded back. Plain text and TOML are built in.

use vstd::prelude::*;
use vstd::utf8::{decode_utf8, encode_utf8, is_ascii_chars, valid_utf8};
use crate::hash::{ForwardsCompatHash, MinimalHasher};
use toml_edit::{DocumentMut, TomlError};

verus! {

#[verifier::external_type_specification]
#[verifier::external_body]
pub struct ExDocumentMut(DocumentMut);

#[verifier::external_type_specification]
#[verifier::external_body]
pub struct ExTomlError(TomlError);

/// What toml_edit makes of `text`: nothing when it is not a TOML document,
/// else the text the parsed document is written back as.
pub uninterp spec fn toml_document(text: Seq<char>) -> Option<Seq<char>>;

/// The text toml_edit writes for a document.
pub uninterp spec fn toml_text(doc: DocumentMut) -> Seq<char>;

/// Calls `String::from_utf8`, which succeeds exactly on valid UTF-8 and then
/// holds the characters the bytes encode.
#[verifier::external_body]
fn string_from_utf8(bytes: Vec<u8>) -> (r: Option<String>)
    ensures
        match r {
            Some(s) => valid_utf8(bytes@) && s@ == decode_utf8(bytes@),
            None => !valid_utf8(bytes@),
        },
{
    String::from_utf8(bytes).ok()
}

/// Calls `<DocumentMut as FromStr>::from_str`. Whether it succeeds, and the
/// document it gives (as the text that document is written back as), depend
/// on the text alone.
#[verifier::external_body]
fn toml_parse(text: &str) -> (r: Result<DocumentMut, TomlError>)
    ensures
        match r {
            Ok(d) => toml_document(text@) == Some(toml_text(d)),
            Err(_) => toml_document(text@) is None,
        },
{
    text.parse::<DocumentMut>()
}

/// Calls `<DocumentMut as Display>::to_string`: the document's text.
#[verifier::external_body]
fn toml_render(doc: &DocumentMut) -> (r: String)
    ensures
        r@ == toml_text(*doc),
{
    doc.to_string()
}

/// The UTF-8 bytes of a text.
fn utf8_bytes(s: &str) -> (r: Vec<u8>)
    ensures
        r@ == encode_utf8(s@),
{
    vstd::slice::slice_to_vec(s.as_bytes())
}

/// Why stored data could not be decoded, or an encoding was of the wrong kind.
#[derive(Debug, Clone, Copy, PartialEq, Eq, Structural)]
pub enum StorageError {
    /// The data is not UTF-8.
    NotUtf8,
    /// The data is not a TOML document.
    NotToml,
    /// A built-in encoding of another kind was given.
    WrongEncoding,
}

/// A storage format: decodes a file's bytes into its typed form and back.
pub trait Storage<'c, C> {
    type Encoded;

    /// What decoding `data` gives.
    spec fn decodes(&self, data: Seq<u8>, r: Result<Self::Encoded, StorageError>) -> bool;

    /// The bytes an encoded value is written as.
    spec fn encoding(&self, encoded: Self::Encoded) -> Seq<u8>;

    /// Whether this storage can write the encoded value.
    spec fn accepts(&self, encoded: Self::Encoded) -> bool;

    /// The context the storage works in.
    spec fn spec_state(&self) -> C;

    /// The context the storage works in.
    fn state(&self) -> (r: &'c C)
        ensures
            *r == self.spec_state(),
    ;

    fn decode(&self, data: Vec<u8>) -> (r: Result<Self::Encoded, StorageError>)
        ensures
            self.decodes(data@, r),
    ;

    fn encode(&self, encoded: Self::Encoded) -> (r: Vec<u8>)
        requires
            self.accepts(encoded),
        ensures
            r@ == self.encoding(encoded),
    ;
}

/// The decoded form of a stored file: it hashes in a forwards-compatible way.
pub trait EncodedStorage: ForwardsCompatHash {}

impl EncodedStorage for PlainTextEncoded {}

impl EncodedStorage for TomlEncoded {}

impl EncodedStorage for BuiltinEncoded {}

/// A storage paired with the context it works in.
#[derive(Debug)]
pub struct Stateful<'s, C, T> {
    pub state: &'s C,
    pub inner: T,
}

/// Marks plain-text storage.
#[derive(Debug)]
pub struct PlainTextMarker;

/// Stores files as plain UTF-8 text.
pub type PlainTextStorage<'s, C> = Stateful<'s, C, PlainTextMarker>;

impl<'s, C> Stateful<'s, C, PlainTextMarker> {
    pub fn new(state: &'s C) -> (r: Stateful<'s, C, PlainTextMarker>)
        ensures
            *r.state == *state,
    {
        Stateful { state, inner: PlainTextMarker }
    }
}

/// A file's text.
#[derive(Debug)]
pub struct PlainTextEncoded(pub String);

/// The prefix of plain-text hashes.
pub open spec fn plaintext_prefix() -> Seq<char> {
    "https://docs.rs/yit/latest/yit/storage/plaintext"@
}

/// The prefix of TOML hashes.
pub open spec fn toml_prefix() -> Seq<char> {
    "https://docs.rs/yit/latest/yit/storage/toml"@
}

impl ForwardsCompatHash for PlainTextEncoded {
    /// The prefix, then the text.
    open spec fn hashed(&self) -> Seq<u8> {
        encode_utf8(plaintext_prefix()) + encode_utf8(self.0@)
    }

    fn prefix(&self) -> (r: &'static str)
        ensures
            r@ == plaintext_prefix(),
    {
        "https://docs.rs/yit/latest/yit/storage/plaintext"
    }

    fn hash<H: MinimalHasher>(&self, hasher: &mut H) {
        hasher.write(self.prefix().as_bytes());
        hasher.write(self.0.as_str().as_bytes());
        assert(hasher.absorbed() =~= old(hasher).absorbed() + self.hashed());
    }
}

impl<'c, C> Storage<'c, C> for Stateful<'c, C, PlainTextMarker> {
    type Encoded = PlainTextEncoded;

    /// Exactly valid UTF-8 decodes, to the text it encodes.
    open spec fn decodes(&self, data: Seq<u8>, r: Result<PlainTextEncoded, StorageError>) -> bool {
        if valid_utf8(data) {
            r matches Ok(e) && e.0@ == decode_utf8(data)
        } else {
            r == Err::<PlainTextEncoded, StorageError>(StorageError::NotUtf8)
        }
    }

    open spec fn encoding(&self, encoded: PlainTextEncoded) -> Seq<u8> {
        encode_utf8(encoded.0@)
    }

    open spec fn accepts(&self, encoded: PlainTextEncoded) -> bool {
        true
    }

    open spec fn spec_state(&self) -> C {
        *self.state
    }

    fn state(&self) -> (r: &'c C) {
        self.state
    }

    fn decode(&self, data: Vec<u8>) -> (r: Result<PlainTextEncoded, StorageError>) {
        match string_from_utf8(data) {
            Some(s) => Ok(PlainTextEncoded(s)),
            None => Err(StorageError::NotUtf8),
        }
    }

    fn encode(&self, encoded: PlainTextEncoded) -> (r: Vec<u8>) {
        utf8_bytes(encoded.0.as_str())
    }
}

/// Stores files as TOML documents, keeping their formatting.
#[derive(Debug)]
pub struct TomlStorage<'c, C> {
    pub state: &'c C,
}

/// A file's TOML document.
#[derive(Debug)]
pub struct TomlEncoded(pub DocumentMut);

impl ForwardsCompatHash for TomlEncoded {
    /// The prefix, then the document's text.
    open spec fn hashed(&self) -> Seq<u8> {
        encode_utf8(toml_prefix()) + encode_utf8(toml_text(self.0))
    }

    fn prefix(&self) -> (r: &'static str)
        ensures
            r@ == toml_prefix(),
    {
        "https://docs.rs/yit/latest/yit/storage/toml"
    }

    fn hash<H: MinimalHasher>(&self, hasher: &mut H) {
        hasher.write(self.prefix().as_bytes());
        let text = toml_render(&self.0);
        hasher.write(text.as_str().as_bytes());
        assert(hasher.absorbed() =~= old(hasher).absorbed() + self.hashed());
    }
}

impl<'c, C> Storage<'c, C> for TomlStorage<'c, C> {
    type Encoded = TomlEncoded;

    /// UTF-8 that toml_edit accepts decodes to the document it parses; other UTF-8 is not TOML.
    open spec fn decodes(&self, data: Seq<u8>, r: Result<TomlEncoded, StorageError>) -> bool {
        if !valid_utf8(data) {
            r == Err::<TomlEncoded, StorageError>(StorageError::NotUtf8)
        } else {
            match toml_document(decode_utf8(data)) {
                None => r == Err::<TomlEncoded, StorageError>(StorageError::NotToml),
                Some(t) => r matches Ok(e) && toml_text(e.0) == t,
            }
        }
    }

    open spec fn encoding(&self, encoded: TomlEncoded) -> Seq<u8> {
        encode_utf8(toml_text(encoded.0))
    }

    open spec fn accepts(&self, encoded: TomlEncoded) -> bool {
        true
    }

    open spec fn spec_state(&self) -> C {
        *self.state
    }

    fn state(&self) -> (r: &'c C) {
        self.state
    }

    fn decode(&self, data: Vec<u8>) -> (r: Result<TomlEncoded, StorageError>) {
        let text = match string_from_utf8(data) {
            Some(s) => s,
            None => {
                return Err(StorageError::NotUtf8);
            },
        };
        match toml_parse(text.as_str()) {
            Ok(doc) => Ok(TomlEncoded(doc)),
            Err(_) => Err(StorageError::NotToml),
        }
    }

    fn encode(&self, encoded: TomlEncoded) -> (r: Vec<u8>) {
        let text = toml_render(&encoded.0);
        utf8_bytes(text.as_str())
    }
}

/// A file's contents in one of the built-in encodings.
#[derive(Debug)]
pub enum BuiltinEncoded {
    PlainText(PlainTextEncoded),
    Toml(TomlEncoded),
}

impl BuiltinEncoded {
    /// The plain text, if this is plain text.
    pub fn plaintext(self) -> (r: Result<PlainTextEncoded, StorageError>)
        ensures
            match self {
                BuiltinEncoded::PlainText(e) => r == Ok::<PlainTextEncoded, StorageError>(e),
                BuiltinEncoded::Toml(_) => r == Err::<PlainTextEncoded, StorageError>(
                    StorageError::WrongEncoding,
                ),
            },
    {
        match self {
            BuiltinEncoded::PlainText(storage) => Ok(storage),
            BuiltinEncoded::Toml(_) => Err(StorageError::WrongEncoding),
        }
    }

    /// The TOML document, if this is TOML.
    pub fn toml(self) -> (r: Result<TomlEncoded, StorageError>)
        ensures
            match self {
                BuiltinEncoded::Toml(e) => r == Ok::<TomlEncoded, StorageError>(e),
                BuiltinEncoded::PlainText(_) => r == Err::<TomlEncoded, StorageError>(
                    StorageError::WrongEncoding,
                ),
            },
    {
        match self {
            BuiltinEncoded::Toml(storage) => Ok(storage),
            BuiltinEncoded::PlainText(_) => Err(StorageError::WrongEncoding),
        }
    }
}

impl ForwardsCompatHash for BuiltinEncoded {
    /// A transparent wrapper: the hash of the encoding it holds.
    open spec fn hashed(&self) -> Seq<u8> {
        match self {
            BuiltinEncoded::PlainText(e) => e.hashed(),
            BuiltinEncoded::Toml(e) => e.hashed(),
        }
    }

    fn prefix(&self) -> (r: &'static str)
        ensures
            r@ == Seq::<char>::empty(),
    {
        proof {
            reveal_strlit("");
        }
        ""
    }

    fn hash<H: MinimalHasher>(&self, hasher: &mut H) {
        match self {
            BuiltinEncoded::PlainText(e) => e.hash(hasher),
            BuiltinEncoded::Toml(e) => e.hash(hasher),
        }
    }
}

/// One of the built-in storages.
#[derive(Debug)]
pub enum BuiltinStorages<'c, C> {
    PlainText(PlainTextStorage<'c, C>),
    Toml(TomlStorage<'c, C>),
}

impl<'c, C> Storage<'c, C> for BuiltinStorages<'c, C> {
    type Encoded = BuiltinEncoded;

    /// The chosen storage decodes, and its result is tagged with its kind.
    open spec fn decodes(&self, data: Seq<u8>, r: Result<BuiltinEncoded, StorageError>) -> bool {
        match self {
            BuiltinStorages::PlainText(s) => match r {
                Ok(BuiltinEncoded::PlainText(e)) => s.decodes(data, Ok(e)),
                Ok(BuiltinEncoded::Toml(_)) => false,
                Err(e) => s.decodes(data, Err(e)),
            },
            BuiltinStorages::Toml(s) => match r {
                Ok(BuiltinEncoded::Toml(e)) => s.decodes(data, Ok(e)),
                Ok(BuiltinEncoded::PlainText(_)) => false,
                Err(e) => s.decodes(data, Err(e)),
            },
        }
    }

    open spec fn encoding(&self, encoded: BuiltinEncoded) -> Seq<u8> {
        match encoded {
            BuiltinEncoded::PlainText(e) => encode_utf8(e.0@),
            BuiltinEncoded::Toml(e) => encode_utf8(toml_text(e.0)),
        }
    }

    /// Each storage writes only its own kind of encoding.
    open spec fn accepts(&self, encoded: BuiltinEncoded) -> bool {
        match (self, encoded) {
            (BuiltinStorages::PlainText(_), BuiltinEncoded::PlainText(_)) => true,
            (BuiltinStorages::Toml(_), BuiltinEncoded::Toml(_)) => true,
            _ => false,
        }
    }

    open spec fn spec_state(&self) -> C {
        match self {
            BuiltinStorages::PlainText(s) => *s.state,
            BuiltinStorages::Toml(s) => *s.state,
        }
    }

    fn state(&self) -> (r: &'c C) {
        match self {
            BuiltinStorages::PlainText(storage) => storage.state(),
            BuiltinStorages::Toml(storage) => storage.state(),
        }
    }

    fn decode(&self, data: Vec<u8>) -> (r: Result<BuiltinEncoded, StorageError>) {
        match self {
            BuiltinStorages::PlainText(fmt) => match fmt.decode(data) {
                Ok(e) => Ok(BuiltinEncoded::PlainText(e)),
                Err(e) => Err(e),
            },
            BuiltinStorages::Toml(fmt) => match fmt.decode(data) {
                Ok(e) => Ok(BuiltinEncoded::Toml(e)),
                Err(e) => Err(e),
            },
        }
    }

    fn encode(&self, encoded: BuiltinEncoded) -> (r: Vec<u8>) {
        match self {
            BuiltinStorages::PlainText(storage) => match encoded {
                BuiltinEncoded::PlainText(e) => storage.encode(e),
                BuiltinEncoded::Toml(_) => Vec::new(),
            },
            BuiltinStorages::Toml(storage) => match encoded {
                BuiltinEncoded::Toml(e) => storage.encode(e),
                BuiltinEncoded::PlainText(_) => Vec::new(),
            },
        }
    }
}

/// A file under version control: its name and its decoded contents.
pub struct File<'c, C, S: Storage<'c, C>> {
    pub name: String,
    pub storage: S::Encoded,
}

/// Why a file could not be snapshotted.
#[derive(Debug)]
pub enum FileError {
    /// The path is not a regular file.
    NotAFile { path: String },
    /// The path has no file name.
    NoFileName { path: String },
    /// The file's bytes did not decode; the path is kept for the message.
    Decode { path: String, error: StorageError },
}

impl FileError {
    /// The message the failure carries.
    pub fn message(&self) -> (r: String)
        ensures
            match self {
                FileError::NotAFile { path } => r@ == "Path "@ + path@ + " is not a file"@,
                FileError::NoFileName { path } => r@ == "yit::storage::File::snapshot path has no filename"@,
                FileError::Decode { path, error } => r@ == "Couldn't decode raw data at path "@ + path@,
            },
    {
        match self {
            FileError::NotAFile { path } => {
                let mut r = "Path ".to_owned();
                r.append(path.as_str());
                r.append(" is not a file");
                r
            },
            FileError::NoFileName { path } => "yit::storage::File::snapshot path has no filename".to_owned(),
            FileError::Decode { path, error } => {
                let mut r = "Couldn't decode raw data at path ".to_owned();
                r.append(path.as_str());
                r
            },
        }
    }
}

impl<'c, C, S: Storage<'c, C>> File<'c, C, S> {
    /// Takes a snapshot of the file at `path`, given its file name (if the
    /// path has one) and its bytes (if it is a regular file): it must be a
    /// file, have a name, and decode.
    pub fn snapshot(storage: &S, path: String, name: Option<String>, contents: Option<Vec<u8>>) -> (r: Result<
        File<'c, C, S>,
        FileError,
    >)
        ensures
            match contents {
                None => r matches Err(FileError::NotAFile { path: p }) && p@ == path@,
                Some(data) => match name {
                    None => r matches Err(FileError::NoFileName { path: p }) && p@ == path@,
                    Some(n) => match r {
                        Ok(f) => f.name@ == n@ && storage.decodes(data@, Ok(f.storage)),
                        Err(FileError::Decode { path: p, error }) => p@ == path@ && storage.decodes(
                            data@,
                            Err(error),
                        ),
                        Err(_) => false,
                    },
                },
            },
    {
        let data = match contents {
            None => {
                return Err(FileError::NotAFile { path });
            },
            Some(d) => d,
        };
        let name = match name {
            None => {
                return Err(FileError::NoFileName { path });
            },
            Some(n) => n,
        };
        match storage.decode(data) {
            Ok(encoded) => Ok(File { name, storage: encoded }),
            Err(error) => Err(FileError::Decode { path, error }),
        }
    }
}

/// Plain text written and read back is the same text.
pub proof fn lemma_plaintext_roundtrip<'c, C>(
    storage: PlainTextStorage<'c, C>,
    e: PlainTextEncoded,
    r: Result<PlainTextEncoded, StorageError>,
)
    requires
        storage.decodes(storage.encoding(e), r),
    ensures
        r matches Ok(back) && back.0@ == e.0@,
{
    vstd::utf8::encode_utf8_valid_utf8(e.0@);
    vstd::utf8::encode_utf8_decode_utf8(e.0@);
}

/// Bytes that read as plain text are written back unchanged.
pub proof fn lemma_plaintext_bytes_roundtrip<'c, C>(
    storage: PlainTextStorage<'c, C>,
    data: Seq<u8>,
    e: PlainTextEncoded,
)
    requires
        storage.decodes(data, Ok(e)),
    ensures
        storage.encoding(e) == data,
{
    vstd::utf8::decode_utf8_encode_utf8(data);
}

/// Each built-in encoding's hash starts with its own prefix, and a plain-text
/// hash and a TOML hash never absorb the same bytes, since their prefixes
/// already differ.
pub proof fn lemma_hash_prefixes(p: PlainTextEncoded, t: TomlEncoded)
    ensures
        p.hashed().take(encode_utf8(plaintext_prefix()).len() as int) == encode_utf8(plaintext_prefix()),
        t.hashed().take(encode_utf8(toml_prefix()).len() as int) == encode_utf8(toml_prefix()),
        p.hashed() != t.hashed(),
{
    reveal_strlit("https://docs.rs/yit/latest/yit/storage/plaintext");
    reveal_strlit("https://docs.rs/yit/latest/yit/storage/toml");
    let pp = plaintext_prefix();
    let tp = toml_prefix();
    assert(is_ascii_chars(pp));
    assert(is_ascii_chars(tp));
    vstd::utf8::is_ascii_chars_encode_utf8(pp);
    vstd::utf8::is_ascii_chars_encode_utf8(tp);
    assert(p.hashed().take(encode_utf8(pp).len() as int) =~= encode_utf8(pp));
    assert(t.hashed().take(encode_utf8(tp).len() as int) =~= encode_utf8(tp));
    assert(pp[39] == 'p');
    assert(tp[39] == 't');
    assert(p.hashed()[39] == encode_utf8(pp)[39]);
    assert(t.hashed()[39] == encode_utf8(tp)[39]);
}

/// The built-in wrapper is transparent: hashing a wrapped encoding writes
/// exactly what hashing the encoding itself writes, with no prefix of its own,
/// so a hasher of any kind that starts from the same bytes ends with the same
/// digest either way.
pub proof fn lemma_builtin_hash_transparent<H: MinimalHasher>(start: Seq<u8>, e: BuiltinEncoded)
    ensures
        e.hashed() == match e {
            BuiltinEncoded::PlainText(p) => p.hashed(),
            BuiltinEncoded::Toml(t) => t.hashed(),
        },
        H::digest_of(start + e.hashed()) == H::digest_of(
            start + match e {
                BuiltinEncoded::PlainText(p) => p.hashed(),
                BuiltinEncoded::Toml(t) => t.hashed(),
            },
        ),
{
}

/// What the TOML storage writes back for a file it read is the text toml_edit
/// writes for the document it parsed from that file.
pub proof fn lemma_toml_decode_encode<'c, C>(storage: TomlStorage<'c, C>, data: Seq<u8>, e: TomlEncoded)
    requires
        storage.decodes(data, Ok(e)),
    ensures
        valid_utf8(data),
        toml_document(decode_utf8(data)) == Some(toml_text(e.0)),
        storage.encoding(e) == encode_utf8(toml_document(decode_utf8(data))->0),
{
}

} // verus!
