//! Typed configuration: named entries with optional defaults, resolved from a
//! pluggable source and read back as typed values.
pub mod conf;
pub mod err;
pub mod laws;
pub mod source;
pub mod value;

pub use conf::{AnyConfEntry, Conf, ConfEntry, EntryModel, DEFAULT_NAME};
pub use err::{ConfError, ErrModel};
pub use source::{ConfSource, EnvSource, MapSource, VarOutcome};
pub use value::{ConfValue, ValKind};
