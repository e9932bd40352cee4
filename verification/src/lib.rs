//! Configuration-file persistence helper: resolves a serialization format
//! from a path's extension and dispatches loading and storing of typed
//! records through that format's external codec.
//!
//! The filesystem and the codec crates stay with the host application: the
//! host hands in what one read of the file yielded (a `FileRead`) and writes
//! out the text a store hands back, while this library decides everything in
//! between — format resolution, the missing-file and overwrite policies, and
//! the error taxonomy — under verified contracts.

pub mod error;
pub mod format;
pub mod persist;

pub use error::Error;
pub use error::TomlError;
pub use error::XmlError;
pub use format::ConfigFormat;
pub use persist::Decodable;
pub use persist::Encodable;
pub use persist::FileRead;
pub use persist::LoadConfigFile;
pub use persist::Storable;
pub use persist::StoreConfigFile;
