use vstd::prelude::*;

use crate::error::deserialization_error;
use crate::error::deserialization_kind;
use crate::error::kind_of;
use crate::error::serialization_error;
use crate::error::serialization_kind;
use crate::error::Error;
use crate::error::ErrorKind;
use crate::format::spec_from_path;
use crate::format::ConfigFormat;

verus! {

/// How a record type is encoded by the external codecs. Implemented by the
/// host application for each record type, on top of the codec libraries: the
/// spec function names what the codecs produce, and the method promises to
/// agree with it.
pub trait Encodable: Sized {
    /// The text the bound codec encodes `self` to at `format`; `None` when
    /// encoding fails. Left unspecified by default; a verified implementation
    /// overrides it to give `encode`'s contract its meaning.
    open spec fn encoding(&self, format: ConfigFormat) -> Option<Seq<char>> {
        arbitrary()
    }

    /// Encode `self` at `format`, or hand back the codec's diagnostic.
    fn encode(&self, format: ConfigFormat) -> (r: Result<String, String>)
        ensures
            (match r {
                Ok(s) => self.encoding(format) == Some(s@),
                Err(_) => self.encoding(format) is None,
            }),
    ;
}

/// How a record type is decoded by the external codecs; the counterpart of
/// `Encodable`, implemented the same way.
pub trait Decodable: Sized {
    /// The record the bound codec decodes `text` to at `format`; `None` when
    /// decoding fails. Left unspecified by default; a verified implementation
    /// overrides it to give `decode`'s contract its meaning.
    open spec fn decoding(text: Seq<char>, format: ConfigFormat) -> Option<Self> {
        arbitrary()
    }

    /// Decode a record from `text` at `format`, or hand back the codec's
    /// diagnostic.
    fn decode(text: &str, format: ConfigFormat) -> (r: Result<Self, String>)
        ensures
            (match r {
                Ok(c) => Self::decoding(text@, format) == Some(c),
                Err(_) => Self::decoding(text@, format) is None,
            }),
    ;
}

/// What one read of the configuration file yielded. The host observes the
/// filesystem once and hands the outcome in; the load functions decide
/// everything else.
#[derive(Debug)]
pub enum FileRead {
    /// The file's full contents.
    Content(String),
    /// The file does not exist.
    Missing,
    /// Some other failure while opening or reading, with its diagnostic.
    Failed(String),
}

/// The outcome of a load, up to the codecs' diagnostic messages:
/// a missing file is no value, any other read failure is a file-access
/// error, and content either decodes or is a deserialization error of the
/// chosen format.
pub open spec fn spec_load_with_format<C: Decodable>(read: FileRead, format: ConfigFormat) -> Result<
    Option<C>,
    ErrorKind,
> {
    match read {
        FileRead::Missing => Ok(None),
        FileRead::Failed(_) => Err(ErrorKind::FileAccess),
        FileRead::Content(s) => match C::decoding(s@, format) {
            Some(c) => Ok(Some(c)),
            None => Err(deserialization_kind(format)),
        },
    }
}

/// The outcome of a load when the path's extension chooses the format.
pub open spec fn spec_load<C: Decodable>(path: Seq<char>, read: FileRead) -> Result<
    Option<C>,
    ErrorKind,
> {
    match spec_from_path(path) {
        Some(format) => spec_load_with_format::<C>(read, format),
        None => Err(ErrorKind::UnsupportedFormat),
    }
}

/// The outcome of a store at an explicit format: the text to write, or a
/// serialization error of that format.
pub open spec fn spec_store_with_format<C: Encodable>(record: C, format: ConfigFormat) -> Result<
    Seq<char>,
    ErrorKind,
> {
    match record.encoding(format) {
        Some(s) => Ok(s),
        None => Err(serialization_kind(format)),
    }
}

/// The outcome of a store when the path's extension chooses the format.
pub open spec fn spec_store<C: Encodable>(record: C, path: Seq<char>) -> Result<
    Seq<char>,
    ErrorKind,
> {
    match spec_from_path(path) {
        Some(format) => spec_store_with_format(record, format),
        None => Err(ErrorKind::UnsupportedFormat),
    }
}

/// The outcome of a store that refuses to overwrite: the pre-existence of the
/// target decides before anything is encoded.
pub open spec fn spec_store_without_overwrite<C: Encodable>(
    record: C,
    path: Seq<char>,
    exists: bool,
) -> Result<Seq<char>, ErrorKind> {
    if exists {
        Err(ErrorKind::FileExists)
    } else {
        spec_store(record, path)
    }
}

/// The result `r` realizes the modelled outcome `m`: the same value on
/// success, and on failure an error of the same kind.
pub open spec fn load_matches<C>(r: Result<Option<C>, Error>, m: Result<
    Option<C>,
    ErrorKind,
>) -> bool {
    match r {
        Ok(v) => m == Ok::<Option<C>, ErrorKind>(v),
        Err(e) => m == Err::<Option<C>, ErrorKind>(kind_of(e)),
    }
}

/// The result `r` realizes the modelled outcome `m`: the same text to write
/// on success, and on failure an error of the same kind.
pub open spec fn store_matches(r: Result<String, Error>, m: Result<Seq<char>, ErrorKind>) -> bool {
    match r {
        Ok(s) => m == Ok::<Seq<char>, ErrorKind>(s@),
        Err(e) => m == Err::<Seq<char>, ErrorKind>(kind_of(e)),
    }
}

/// Loading a record from a configuration file. Implemented for every
/// `Decodable` type; the host reads the file and hands the outcome in as a
/// `FileRead`.
pub trait LoadConfigFile: Decodable {
    /// Load from a file read with an explicit format; the path's extension is
    /// not consulted.
    ///
    /// Returns `Ok(Some(record))` when `read` holds content that decodes,
    /// `Ok(None)` when the file was missing, `Error::FileAccess` when the
    /// read failed otherwise, and the format's deserialization error when
    /// decoding fails.
    fn load_with_specific_format(read: FileRead, config_type: ConfigFormat) -> (r: Result<
        Option<Self>,
        Error,
    >)
        ensures
            load_matches(r, spec_load_with_format::<Self>(read, config_type)),
            (read matches FileRead::Failed(m) ==> r == Err::<Option<Self>, Error>(
                Error::FileAccess(m),
            )),
    {
        match read {
            FileRead::Missing => Ok(None),
            FileRead::Failed(m) => Err(Error::FileAccess(m)),
            FileRead::Content(text) => match Self::decode(text.as_str(), config_type) {
                Ok(c) => Ok(Some(c)),
                Err(m) => Err(deserialization_error(config_type, m)),
            },
        }
    }

    /// Load from a file read, with the format the path's extension names.
    ///
    /// Returns `Error::UnsupportedFormat` when the extension names none,
    /// whatever the read yielded; otherwise as `load_with_specific_format`.
    fn load(path: &str, read: FileRead) -> (r: Result<Option<Self>, Error>)
        ensures
            load_matches(r, spec_load::<Self>(path@, read)),
            spec_from_path(path@) is None ==> r == Err::<Option<Self>, Error>(
                Error::UnsupportedFormat,
            ),
            spec_from_path(path@) is Some ==> (read matches FileRead::Failed(m) ==> r == Err::<
                Option<Self>,
                Error,
            >(Error::FileAccess(m))),
    {
        match ConfigFormat::from_path(path) {
            Some(config_type) => Self::load_with_specific_format(read, config_type),
            None => Err(Error::UnsupportedFormat),
        }
    }

    /// Load from a file read, handing back the type's default value when the
    /// file is absent; every other failure propagates unchanged.
    fn load_or_default(path: &str, read: FileRead) -> (r: Result<Self, Error>) where
        Self: core::default::Default
        ensures
            (match spec_load::<Self>(path@, read) {
                Ok(Some(c)) => r == Ok::<Self, Error>(c),
                Ok(None) => (r matches Ok(d) && call_ensures(Self::default, (), d)),
                Err(k) => (r matches Err(e) && kind_of(e) == k),
            }),
    {
        match Self::load(path, read) {
            Ok(Some(c)) => Ok(c),
            Ok(None) => Ok(Self::default()),
            Err(e) => Err(e),
        }
    }
}

impl<C: Decodable> LoadConfigFile for C {
}

/// Storing a record into a configuration file. Implemented for every
/// `Encodable` type; the store functions hand back the text to write, and
/// the host writes it to the file.
pub trait StoreConfigFile: Encodable {
    /// Encode for storing with an explicit format; the path's extension is
    /// not consulted.
    ///
    /// Returns the text the host is to write, or the format's serialization
    /// error when encoding fails.
    fn store_with_specific_format(&self, config_type: ConfigFormat) -> (r: Result<String, Error>)
        ensures
            store_matches(r, spec_store_with_format(*self, config_type)),
    {
        encode_with_format(self, config_type)
    }

    /// Encode for storing at `path`, with the format its extension names.
    ///
    /// Returns `Error::UnsupportedFormat` when the extension names none.
    fn store(&self, path: &str) -> (r: Result<String, Error>)
        ensures
            store_matches(r, spec_store(*self, path@)),
            spec_from_path(path@) is None ==> r == Err::<String, Error>(Error::UnsupportedFormat),
    {
        encode_for_path(self, path)
    }

    /// Encode for storing at `path`, refusing to overwrite: `exists` is the
    /// host's one observation of whether the target is already present.
    ///
    /// Returns `Error::FileExists` on a pre-existing target, before anything
    /// is encoded; the check and the later write are two separate filesystem
    /// observations, so a writer racing between them is not defended against.
    fn store_without_overwrite(&self, path: &str, exists: bool) -> (r: Result<String, Error>)
        ensures
            store_matches(r, spec_store_without_overwrite(*self, path@, exists)),
            exists ==> r == Err::<String, Error>(Error::FileExists),
    {
        if exists {
            Err(Error::FileExists)
        } else {
            self.store(path)
        }
    }
}

impl<C: Encodable> StoreConfigFile for C {
}

/// Records that carry their own canonical persistence path: a thin layer that
/// supplies `path` to the store contract. Implemented by the host.
pub trait Storable: Encodable {
    /// The canonical path, as the contracts see it; `path` promises to agree
    /// with it. Left unspecified by default.
    open spec fn spec_path(&self) -> Seq<char> {
        arbitrary()
    }

    /// The canonical path of this record's configuration file.
    fn path(&self) -> (r: String)
        ensures
            r@ == self.spec_path(),
    ;

    /// Encode for storing at the canonical path with an explicit format.
    fn store_with_specific_format(&self, config_type: ConfigFormat) -> (r: Result<String, Error>)
        ensures
            store_matches(r, spec_store_with_format(*self, config_type)),
    {
        encode_with_format(self, config_type)
    }

    /// Encode for storing at the canonical path, with the format its
    /// extension names.
    fn store(&self) -> (r: Result<String, Error>)
        ensures
            store_matches(r, spec_store(*self, self.spec_path())),
    {
        let p = self.path();
        encode_for_path(self, p.as_str())
    }

    /// Encode for storing at the canonical path, refusing to overwrite.
    fn store_without_overwrite(&self, exists: bool) -> (r: Result<String, Error>)
        ensures
            store_matches(r, spec_store_without_overwrite(*self, self.spec_path(), exists)),
            exists ==> r == Err::<String, Error>(Error::FileExists),
    {
        if exists {
            Err(Error::FileExists)
        } else {
            let p = self.path();
            encode_for_path(self, p.as_str())
        }
    }
}

/// Round trip: storing a record at `path` yields a text that, read back from
/// the same path, loads to the record again — for any record at which the
/// format's codec is lossless (which is the codec collaborator's contract).
pub proof fn lemma_store_load_round_trip<C: Encodable + Decodable>(
    record: C,
    path: Seq<char>,
    format: ConfigFormat,
    text: String,
)
    requires
        spec_from_path(path) == Some(format),
        spec_store::<C>(record, path) == Ok::<Seq<char>, ErrorKind>(text@),
        C::decoding(text@, format) == Some(record),
    ensures
        spec_load::<C>(path, FileRead::Content(text)) == Ok::<Option<C>, ErrorKind>(Some(record)),
{
}

/// Format override: an explicit format round-trips through store and load
/// whatever the path's extension would suggest — the path never enters the
/// explicit-format contracts — again for a codec lossless at the record.
pub proof fn lemma_format_override_round_trip<C: Encodable + Decodable>(
    record: C,
    format: ConfigFormat,
    text: String,
)
    requires
        spec_store_with_format::<C>(record, format) == Ok::<Seq<char>, ErrorKind>(text@),
        C::decoding(text@, format) == Some(record),
    ensures
        spec_load_with_format::<C>(FileRead::Content(text), format) == Ok::<Option<C>, ErrorKind>(
            Some(record),
        ),
{
}

/// Missing file: when the path's extension resolves, loading a missing file
/// is "no value", not an error.
pub proof fn lemma_missing_file_loads_nothing<C: Decodable>(path: Seq<char>)
    requires
        spec_from_path(path) is Some,
    ensures
        spec_load::<C>(path, FileRead::Missing) == Ok::<Option<C>, ErrorKind>(None),
{
}

/// No overwrite: on a pre-existing target the store fails with `FileExists`,
/// whatever the record and the path; nothing is encoded, so the host writes
/// nothing and the target's content stays as it was.
pub proof fn lemma_no_overwrite_on_existing<C: Encodable>(record: C, path: Seq<char>)
    ensures
        spec_store_without_overwrite::<C>(record, path, true) == Err::<Seq<char>, ErrorKind>(
            ErrorKind::FileExists,
        ),
{
}

/// Unknown extension: a path that resolves to no format makes every load and
/// every store fail with `UnsupportedFormat`, whatever was read or stored.
pub proof fn lemma_unknown_extension_rejected<C: Encodable + Decodable>(
    record: C,
    path: Seq<char>,
    read: FileRead,
)
    requires
        spec_from_path(path) is None,
    ensures
        spec_load::<C>(path, read) == Err::<Option<C>, ErrorKind>(ErrorKind::UnsupportedFormat),
        spec_store::<C>(record, path) == Err::<Seq<char>, ErrorKind>(ErrorKind::UnsupportedFormat),
{
}

fn encode_with_format<C: Encodable>(record: &C, config_type: ConfigFormat) -> (r: Result<
    String,
    Error,
>)
    ensures
        store_matches(r, spec_store_with_format(*record, config_type)),
{
    match record.encode(config_type) {
        Ok(s) => Ok(s),
        Err(m) => Err(serialization_error(config_type, m)),
    }
}

fn encode_for_path<C: Encodable>(record: &C, path: &str) -> (r: Result<String, Error>)
    ensures
        store_matches(r, spec_store(*record, path@)),
        spec_from_path(path@) is None ==> r == Err::<String, Error>(Error::UnsupportedFormat),
{
    match ConfigFormat::from_path(path) {
        Some(config_type) => encode_with_format(record, config_type),
        None => Err(Error::UnsupportedFormat),
    }
}

} // verus!
