//! The decisions around opening a database.
//!
//! An open with options is first a translation. Only where that succeeds is
//! the engine asked to open anything, so a fault in the options leaves the
//! file system untouched. What the engine then reports is handed on: the
//! handle where it opened, its own words where it did not.

use crate::config::{
    spec_fault, spec_translate, translate, translation_fails_on_first_fault, unknown_option_is_ignored,
    EngineConfig,
};
use crate::decode::{spec_fits, ConfigError};
use crate::kinds::{spec_recognize, OptionKind};
use crate::options::{entry_models, EntryModel, OptionEntry};
use vstd::prelude::*;

verus! {

/// Why an open failed.
#[derive(Clone, Debug, PartialEq, Eq)]
pub enum OpenError {
    /// An option value had the wrong shape. The engine was not asked.
    Config(ConfigError),
    /// The engine could not open the database, and said why.
    Engine(String),
}

impl OpenError {
    /// The reason as text: the engine's words unchanged, or the message of
    /// the option fault.
    pub open spec fn spec_reason(self) -> Seq<char> {
        match self {
            OpenError::Config(fault) => fault.spec_message(),
            OpenError::Engine(reason) => reason@,
        }
    }

    /// The reason as text.
    pub fn reason(&self) -> (r: String)
        ensures
            r@ == self.spec_reason(),
    {
        match self {
            OpenError::Config(fault) => fault.message(),
            OpenError::Engine(reason) => reason.clone(),
        }
    }
}

/// What an open with these options is to do: open the engine with the
/// configuration, or fail without asking the engine.
pub open spec fn spec_prepare_open(entries: Seq<EntryModel>) -> Result<EngineConfig, OpenError> {
    match spec_translate(entries) {
        Ok(cfg) => Ok(cfg),
        Err(fault) => Err(OpenError::Config(fault)),
    }
}

/// Decides what an open with the given options is to do.
///
/// Returns the configuration to open the engine with where every recognised
/// option has a value of its shape, and otherwise the fault of the first one
/// that has not; the caller then leaves the engine alone.
pub fn prepare_open(entries: &Vec<OptionEntry>) -> (r: Result<EngineConfig, OpenError>)
    ensures
        r == spec_prepare_open(entry_models(entries@)),
        r is Ok <==> forall|i: int| 0 <= i < entries.len() ==> spec_fault(#[trigger] entries[i]@) is None,
        r is Err ==> r->Err_0 is Config,
{
    match translate(entries) {
        Ok(cfg) => Ok(cfg),
        Err(fault) => Err(OpenError::Config(fault)),
    }
}

/// Hands on what the engine reported of an open: the handle where it
/// opened, and its words, unchanged, where it did not.
pub fn conclude_open<H>(outcome: Result<H, String>) -> (r: Result<H, OpenError>)
    ensures
        match outcome {
            Ok(handle) => r == Ok::<H, OpenError>(handle),
            Err(reason) => r == Err::<H, OpenError>(OpenError::Engine(reason)),
        },
{
    match outcome {
        Ok(handle) => Ok(handle),
        Err(reason) => Err(OpenError::Engine(reason)),
    }
}

/// An open whose options hold a value of the wrong shape fails with an
/// option fault, whatever else the options hold, and so before the engine
/// is asked to touch anything.
pub proof fn misshapen_value_fails_open(entries: Seq<EntryModel>, at: int, kind: OptionKind)
    requires
        0 <= at < entries.len(),
        spec_recognize(entries[at].name) == Some(kind),
        !spec_fits(kind.spec_shape(), entries[at].value),
    ensures
        spec_prepare_open(entries) is Err,
        spec_prepare_open(entries)->Err_0 is Config,
{
    assert(spec_fault(entries[at]) is Some);
    translation_fails_on_first_fault(EngineConfig::spec_default(), entries);
}

/// An open with an option under an unrecognised name does what the open
/// without that option does.
pub proof fn unknown_option_leaves_open_unchanged(entries: Seq<EntryModel>, at: int, e: EntryModel)
    requires
        0 <= at <= entries.len(),
        spec_recognize(e.name) is None,
    ensures
        spec_prepare_open(entries.insert(at, e)) == spec_prepare_open(entries),
{
    unknown_option_is_ignored(entries, at, e);
}

} // verus!
