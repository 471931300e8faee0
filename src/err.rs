//! The errors that resolving a configuration value can end in.
use vstd::prelude::*;

verus! {

/// Why a configuration value could not be had.
#[derive(Clone, Debug, PartialEq, Eq)]
pub enum ConfError {
    /// The key was never registered.
    KeyNotFound { key: String },
    /// The key is registered but resolved to no value.
    ValNotFound { key: String },
    /// The resolved string does not read as the requested type, or the entry was
    /// registered with another type (then `val` is empty).
    ValParseFailed { key: String, val: String },
    /// The source itself failed to look the key up; `source` describes the cause.
    EnvLookupFailed { key: String, source: String },
}

/// `ConfError` with its strings as character sequences.
pub enum ErrModel {
    KeyNotFound(Seq<char>),
    ValNotFound(Seq<char>),
    ValParseFailed(Seq<char>, Seq<char>),
    EnvLookupFailed(Seq<char>, Seq<char>),
}

impl View for ConfError {
    type V = ErrModel;

    open spec fn view(&self) -> ErrModel {
        match self {
            ConfError::KeyNotFound { key } => ErrModel::KeyNotFound(key@),
            ConfError::ValNotFound { key } => ErrModel::ValNotFound(key@),
            ConfError::ValParseFailed { key, val } => ErrModel::ValParseFailed(key@, val@),
            ConfError::EnvLookupFailed { key, source } => ErrModel::EnvLookupFailed(key@, source@),
        }
    }
}

impl ConfError {
    pub fn key_not_found(key: &str) -> (r: Self)
        ensures
            r@ == ErrModel::KeyNotFound(key@),
    {
        ConfError::KeyNotFound { key: key.to_owned() }
    }

    pub fn val_not_found(key: &str) -> (r: Self)
        ensures
            r@ == ErrModel::ValNotFound(key@),
    {
        ConfError::ValNotFound { key: key.to_owned() }
    }

    pub fn val_parse_failed(key: &str, val: &str) -> (r: Self)
        ensures
            r@ == ErrModel::ValParseFailed(key@, val@),
    {
        ConfError::ValParseFailed { key: key.to_owned(), val: val.to_owned() }
    }

    pub fn env_lookup_failed(key: &str, source: &str) -> (r: Self)
        ensures
            r@ == ErrModel::EnvLookupFailed(key@, source@),
    {
        ConfError::EnvLookupFailed { key: key.to_owned(), source: source.to_owned() }
    }
}

} // verus!
