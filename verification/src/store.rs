//! The backing store of the policy document, seen from the side that
//! decides: what a read or a write came to, and what that means.

use crate::model::{
    load_outcome, save_outcome, Failure, PolicyDocument, ReadOutcome, WriteOutcome,
};
use crate::policy::Config;
use vstd::prelude::*;
use vstd::string::*;

verus! {

/// The name of the resource that holds the policy document.
pub const DOC_NAME: &'static str = "models.yaml";

/// What went wrong, with the message of the failure underneath.
#[derive(Debug)]
pub enum ConfigError {
    /// The persisted document is there but cannot be had as a document.
    ConfigCorrupt(String),
    /// The document could not be persisted.
    ConfigWriteError(String),
    /// An administrator sent a body that is no policy document.
    InvalidRequestBody(String),
}

impl View for ConfigError {
    type V = Failure;

    open spec fn view(&self) -> Failure {
        match self {
            ConfigError::ConfigCorrupt(message) => Failure::ConfigCorrupt(message@),
            ConfigError::ConfigWriteError(message) => Failure::ConfigWriteError(message@),
            ConfigError::InvalidRequestBody(message) => Failure::InvalidRequestBody(message@),
        }
    }
}

impl ConfigError {
    /// The message of the failure underneath, word for word.
    pub fn message(&self) -> (text: String)
        ensures
            text@ == self@.message(),
    {
        match self {
            ConfigError::ConfigCorrupt(message) => message.clone(),
            ConfigError::ConfigWriteError(message) => message.clone(),
            ConfigError::InvalidRequestBody(message) => message.clone(),
        }
    }
}

/// What an attempt to read the backing resource came to.
pub enum StoreRead {
    /// The resource does not exist.
    Absent,
    /// The resource exists and holds nothing but white space.
    Blank,
    /// The resource exists and could not be read.
    Unreadable(String),
    /// The resource was read and is no policy document.
    Malformed(String),
    /// The resource holds this document.
    Parsed(Config),
}

impl View for StoreRead {
    type V = ReadOutcome;

    open spec fn view(&self) -> ReadOutcome {
        match self {
            StoreRead::Absent => ReadOutcome::Absent,
            StoreRead::Blank => ReadOutcome::Blank,
            StoreRead::Unreadable(message) => ReadOutcome::Unreadable(message@),
            StoreRead::Malformed(message) => ReadOutcome::Malformed(message@),
            StoreRead::Parsed(doc) => ReadOutcome::Parsed(doc@),
        }
    }
}

/// What an attempt to persist a document came to.
pub enum StoreWrite {
    /// The document is in place.
    Written,
    /// The document could not be put into its persisted form.
    EncodeFailed(String),
    /// The persisted form could not be put in place.
    WriteFailed(String),
}

impl View for StoreWrite {
    type V = WriteOutcome;

    open spec fn view(&self) -> WriteOutcome {
        match self {
            StoreWrite::Written => WriteOutcome::Written,
            StoreWrite::EncodeFailed(message) => WriteOutcome::EncodeFailed(message@),
            StoreWrite::WriteFailed(message) => WriteOutcome::WriteFailed(message@),
        }
    }
}

/// The view of a loaded document or of the failure to load one.
pub open spec fn loaded_view(loaded: Result<Config, ConfigError>) -> Result<
    PolicyDocument,
    Failure,
> {
    match loaded {
        Ok(doc) => Ok(doc@),
        Err(error) => Err(error@),
    }
}

/// The view of the result of a write.
pub open spec fn saved_view(saved: Result<(), ConfigError>) -> Result<(), Failure> {
    match saved {
        Ok(()) => Ok(()),
        Err(error) => Err(error@),
    }
}

/// True of the characters that count as white space in a persisted
/// document: space, tab, line feed and carriage return.
pub open spec fn blank_char(c: char) -> bool {
    c == ' ' || c == '\t' || c == '\n' || c == '\r'
}

/// True when `text` holds nothing but white space.
pub open spec fn blank(text: Seq<char>) -> bool {
    forall|i: int| 0 <= i < text.len() ==> blank_char(#[trigger] text[i])
}

/// Whether `text` holds nothing but white space, and so no document.
pub fn is_blank(text: &str) -> (yes: bool)
    ensures
        yes == blank(text@),
{
    for c in it: text.chars()
        invariant
            it.seq() == text@,
            forall|j: int| 0 <= j < it.index() ==> blank_char(#[trigger] text@[j]),
    {
        if !(c == ' ' || c == '\t' || c == '\n' || c == '\r') {
            assert(!blank_char(text@[it.index() as int]));
            return false;
        }
    }
    true
}

/// The document that a read of the backing resource yields.
///
/// A resource that is missing or blank yields the zero document, without
/// error. One that is there but cannot be read or parsed is corrupt: the
/// error carries the message, and no part of a document is handed on.
pub fn load_config(read: StoreRead) -> (loaded: Result<Config, ConfigError>)
    ensures
        loaded_view(loaded) == load_outcome(read@),
{
    match read {
        StoreRead::Absent => Ok(Config::zero()),
        StoreRead::Blank => Ok(Config::zero()),
        StoreRead::Unreadable(message) => Err(ConfigError::ConfigCorrupt(message)),
        StoreRead::Malformed(message) => Err(ConfigError::ConfigCorrupt(message)),
        StoreRead::Parsed(doc) => Ok(doc),
    }
}

/// What a write of the whole document came to for the caller: done, or a
/// write error that carries the message of whichever step failed.
pub fn save_config_to_file(write: StoreWrite) -> (saved: Result<(), ConfigError>)
    ensures
        saved_view(saved) == save_outcome(write@),
{
    match write {
        StoreWrite::Written => Ok(()),
        StoreWrite::EncodeFailed(message) => Err(ConfigError::ConfigWriteError(message)),
        StoreWrite::WriteFailed(message) => Err(ConfigError::ConfigWriteError(message)),
    }
}

} // verus!
