use vstd::prelude::*;

use crate::format::ConfigFormat;

verus! {

/// A TOML codec failure, wrapping the codec's diagnostic message.
#[derive(Debug)]
pub enum TomlError {
    /// TOML deserialization failure
    DeserializationError(String),
    /// TOML serialization failure
    SerializationError(String),
}

/// An XML codec failure, wrapping the codec's diagnostic message.
#[derive(Debug)]
pub enum XmlError {
    /// XML deserialization failure
    DeserializationError(String),
    /// XML serialization failure
    SerializationError(String),
}

/// All failures that loading or storing a configuration file can report.
#[derive(Debug)]
pub enum Error {
    /// The configuration file could not be read or written; wraps the I/O diagnostic.
    FileAccess(String),
    /// The target file already exists and overwriting was not requested.
    FileExists,
    /// JSON codec failure, wrapping the codec's diagnostic message.
    Json(String),
    /// TOML codec failure.
    Toml(TomlError),
    /// XML codec failure.
    Xml(XmlError),
    /// YAML codec failure, wrapping the codec's diagnostic message.
    Yaml(String),
    /// RON codec failure, wrapping the codec's diagnostic message.
    Ron(String),
    /// The file extension names no supported format.
    UnsupportedFormat,
}

/// The kind of a `TomlError`, with the diagnostic message abstracted away.
pub enum TomlErrorKind {
    DeserializationError,
    SerializationError,
}

/// The kind of an `XmlError`, with the diagnostic message abstracted away.
pub enum XmlErrorKind {
    DeserializationError,
    SerializationError,
}

/// The kind of an `Error`, with the diagnostic messages abstracted away.
/// Contracts that cannot pin a codec's exact diagnostic still pin the kind.
pub enum ErrorKind {
    FileAccess,
    FileExists,
    Json,
    Toml(TomlErrorKind),
    Xml(XmlErrorKind),
    Yaml,
    Ron,
    UnsupportedFormat,
}

/// The kind of a TOML failure.
pub open spec fn toml_error_kind(e: TomlError) -> TomlErrorKind {
    match e {
        TomlError::DeserializationError(_) => TomlErrorKind::DeserializationError,
        TomlError::SerializationError(_) => TomlErrorKind::SerializationError,
    }
}

/// The kind of an XML failure.
pub open spec fn xml_error_kind(e: XmlError) -> XmlErrorKind {
    match e {
        XmlError::DeserializationError(_) => XmlErrorKind::DeserializationError,
        XmlError::SerializationError(_) => XmlErrorKind::SerializationError,
    }
}

/// The kind of an error.
pub open spec fn kind_of(e: Error) -> ErrorKind {
    match e {
        Error::FileAccess(_) => ErrorKind::FileAccess,
        Error::FileExists => ErrorKind::FileExists,
        Error::Json(_) => ErrorKind::Json,
        Error::Toml(t) => ErrorKind::Toml(toml_error_kind(t)),
        Error::Xml(x) => ErrorKind::Xml(xml_error_kind(x)),
        Error::Yaml(_) => ErrorKind::Yaml,
        Error::Ron(_) => ErrorKind::Ron,
        Error::UnsupportedFormat => ErrorKind::UnsupportedFormat,
    }
}

/// The error that reports a decode failure at `format`, wrapping the codec's
/// diagnostic message.
pub open spec fn spec_deserialization_error(format: ConfigFormat, message: String) -> Error {
    match format {
        ConfigFormat::Json => Error::Json(message),
        ConfigFormat::Toml => Error::Toml(TomlError::DeserializationError(message)),
        ConfigFormat::Xml => Error::Xml(XmlError::DeserializationError(message)),
        ConfigFormat::Yaml => Error::Yaml(message),
        ConfigFormat::Ron => Error::Ron(message),
    }
}

/// The error that reports an encode failure at `format`, wrapping the codec's
/// diagnostic message.
pub open spec fn spec_serialization_error(format: ConfigFormat, message: String) -> Error {
    match format {
        ConfigFormat::Json => Error::Json(message),
        ConfigFormat::Toml => Error::Toml(TomlError::SerializationError(message)),
        ConfigFormat::Xml => Error::Xml(XmlError::SerializationError(message)),
        ConfigFormat::Yaml => Error::Yaml(message),
        ConfigFormat::Ron => Error::Ron(message),
    }
}

/// The kind reported when decoding at `format` fails.
pub open spec fn deserialization_kind(format: ConfigFormat) -> ErrorKind {
    match format {
        ConfigFormat::Json => ErrorKind::Json,
        ConfigFormat::Toml => ErrorKind::Toml(TomlErrorKind::DeserializationError),
        ConfigFormat::Xml => ErrorKind::Xml(XmlErrorKind::DeserializationError),
        ConfigFormat::Yaml => ErrorKind::Yaml,
        ConfigFormat::Ron => ErrorKind::Ron,
    }
}

/// The kind reported when encoding at `format` fails.
pub open spec fn serialization_kind(format: ConfigFormat) -> ErrorKind {
    match format {
        ConfigFormat::Json => ErrorKind::Json,
        ConfigFormat::Toml => ErrorKind::Toml(TomlErrorKind::SerializationError),
        ConfigFormat::Xml => ErrorKind::Xml(XmlErrorKind::SerializationError),
        ConfigFormat::Yaml => ErrorKind::Yaml,
        ConfigFormat::Ron => ErrorKind::Ron,
    }
}

/// Wrap a codec decode failure in the error variant of its format.
pub fn deserialization_error(format: ConfigFormat, message: String) -> (e: Error)
    ensures
        e == spec_deserialization_error(format, message),
{
    match format {
        ConfigFormat::Json => Error::Json(message),
        ConfigFormat::Toml => Error::Toml(TomlError::DeserializationError(message)),
        ConfigFormat::Xml => Error::Xml(XmlError::DeserializationError(message)),
        ConfigFormat::Yaml => Error::Yaml(message),
        ConfigFormat::Ron => Error::Ron(message),
    }
}

/// Wrap a codec encode failure in the error variant of its format.
pub fn serialization_error(format: ConfigFormat, message: String) -> (e: Error)
    ensures
        e == spec_serialization_error(format, message),
{
    match format {
        ConfigFormat::Json => Error::Json(message),
        ConfigFormat::Toml => Error::Toml(TomlError::SerializationError(message)),
        ConfigFormat::Xml => Error::Xml(XmlError::SerializationError(message)),
        ConfigFormat::Yaml => Error::Yaml(message),
        ConfigFormat::Ron => Error::Ron(message),
    }
}

impl Error {
    /// The short description of each failure, as a display of the error
    /// would show it.
    pub open spec fn spec_message(&self) -> Seq<char> {
        match self {
            Error::FileAccess(_) => "couldn't read or write config file"@,
            Error::FileExists => "file already exists"@,
            Error::Json(_) => "couldn't parse JSON file"@,
            Error::Toml(_) => "couldn't parse TOML file"@,
            Error::Xml(_) => "couldn't parse XML file"@,
            Error::Yaml(_) => "couldn't parse YAML file"@,
            Error::Ron(_) => "couldn't parse Ron file"@,
            Error::UnsupportedFormat => "don't know how to parse file"@,
        }
    }

    /// A short description of the failure.
    pub fn message(&self) -> (r: &'static str)
        ensures
            r@ == self.spec_message(),
    {
        match self {
            Error::FileAccess(_) => "couldn't read or write config file",
            Error::FileExists => "file already exists",
            Error::Json(_) => "couldn't parse JSON file",
            Error::Toml(_) => "couldn't parse TOML file",
            Error::Xml(_) => "couldn't parse XML file",
            Error::Yaml(_) => "couldn't parse YAML file",
            Error::Ron(_) => "couldn't parse Ron file",
            Error::UnsupportedFormat => "don't know how to parse file",
        }
    }
}

} // verus!
