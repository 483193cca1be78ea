//! The loosely typed option bag that a caller hands to `open`.
//!
//! A value arrives as whatever the host runtime held: a symbolic tag, a whole
//! number, or something else. Nothing is decided here; the decoder in
//! `config` holds each value against the shape its option expects.

use vstd::prelude::*;

verus! {

/// A value as the host handed it over.
#[derive(Clone, Debug, PartialEq, Eq)]
pub enum OptionValue {
    /// A symbolic tag, such as `true` or `universal`.
    Atom(String),
    /// A whole number of any sign.
    Integer(i128),
    /// Anything else: text, bytes, a list, a fraction, a number too large
    /// to carry.
    Other,
}

/// The mathematical content of an [`OptionValue`].
pub enum ValueModel {
    Atom(Seq<char>),
    Integer(int),
    Other,
}

impl View for OptionValue {
    type V = ValueModel;

    open spec fn view(&self) -> ValueModel {
        match self {
            OptionValue::Atom(s) => ValueModel::Atom(s@),
            OptionValue::Integer(n) => ValueModel::Integer(*n as int),
            OptionValue::Other => ValueModel::Other,
        }
    }
}

/// One entry of the option bag: a name and the value given for it.
#[derive(Clone, Debug, PartialEq, Eq)]
pub struct OptionEntry {
    pub name: String,
    pub value: OptionValue,
}

/// The mathematical content of an [`OptionEntry`].
pub struct EntryModel {
    pub name: Seq<char>,
    pub value: ValueModel,
}

impl View for OptionEntry {
    type V = EntryModel;

    open spec fn view(&self) -> EntryModel {
        EntryModel { name: self.name@, value: self.value@ }
    }
}

/// The models of a run of entries, in the order given.
pub open spec fn entry_models(entries: Seq<OptionEntry>) -> Seq<EntryModel> {
    Seq::new(entries.len(), |i: int| entries[i]@)
}

impl OptionEntry {
    /// An entry that gives `value` for the option called `name`.
    pub fn new(name: &str, value: OptionValue) -> (e: OptionEntry)
        ensures
            e@ == (EntryModel { name: name@, value: value@ }),
    {
        OptionEntry { name: name.to_owned(), value }
    }

    /// An entry whose value is the symbolic tag `tag`.
    pub fn atom(name: &str, tag: &str) -> (e: OptionEntry)
        ensures
            e@ == (EntryModel { name: name@, value: ValueModel::Atom(tag@) }),
    {
        OptionEntry { name: name.to_owned(), value: OptionValue::Atom(tag.to_owned()) }
    }

    /// An entry whose value is the whole number `n`.
    pub fn integer(name: &str, n: i128) -> (e: OptionEntry)
        ensures
            e@ == (EntryModel { name: name@, value: ValueModel::Integer(n as int) }),
    {
        OptionEntry { name: name.to_owned(), value: OptionValue::Integer(n) }
    }
}

} // verus!
