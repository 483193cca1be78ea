//! Holding one value against the shape that its option expects.
//!
//! A value of the right shape yields a typed setting. A value of any other
//! shape is a fault that names the option: a number where a flag is
//! expected, a tag that is neither `true` nor `false`, a number out of
//! range, a style that the engine does not have.

use crate::kinds::{CompactionStyle, OptionKind, Shape};
use crate::options::{OptionValue, ValueModel};
use crate::text::same_text;
use vstd::prelude::*;
use vstd::string::*;

verus! {

/// One typed change to an engine configuration.
#[derive(Clone, Copy, Debug, PartialEq, Eq, Structural)]
pub enum Setting {
    CreateIfMissing(bool),
    CreateMissingColumnFamilies(bool),
    MaxOpenFiles(i32),
    UseFsync(bool),
    BytesPerSync(u64),
    OptimizeForPointLookup(u64),
    TableCacheNumShardBits(i32),
    MaxWriteBufferNumber(i32),
    WriteBufferSize(usize),
    TargetFileSizeBase(u64),
    MinWriteBufferNumberToMerge(i32),
    LevelZeroStopWritesTrigger(i32),
    LevelZeroSlowdownWritesTrigger(i32),
    DisableAutoCompactions(bool),
    CompactionStyle(CompactionStyle),
    PrefixLength(usize),
}

impl Setting {
    /// The option that gives rise to this setting.
    pub open spec fn spec_kind(self) -> OptionKind {
        match self {
            Setting::CreateIfMissing(_) => OptionKind::CreateIfMissing,
            Setting::CreateMissingColumnFamilies(_) => OptionKind::CreateMissingColumnFamilies,
            Setting::MaxOpenFiles(_) => OptionKind::MaxOpenFiles,
            Setting::UseFsync(_) => OptionKind::UseFsync,
            Setting::BytesPerSync(_) => OptionKind::BytesPerSync,
            Setting::OptimizeForPointLookup(_) => OptionKind::OptimizeForPointLookup,
            Setting::TableCacheNumShardBits(_) => OptionKind::TableCacheNumShardBits,
            Setting::MaxWriteBufferNumber(_) => OptionKind::MaxWriteBufferNumber,
            Setting::WriteBufferSize(_) => OptionKind::WriteBufferSize,
            Setting::TargetFileSizeBase(_) => OptionKind::TargetFileSizeBase,
            Setting::MinWriteBufferNumberToMerge(_) => OptionKind::MinWriteBufferNumberToMerge,
            Setting::LevelZeroStopWritesTrigger(_) => OptionKind::LevelZeroStopWritesTrigger,
            Setting::LevelZeroSlowdownWritesTrigger(_) => OptionKind::LevelZeroSlowdownWritesTrigger,
            Setting::DisableAutoCompactions(_) => OptionKind::DisableAutoCompactions,
            Setting::CompactionStyle(_) => OptionKind::CompactionStyle,
            Setting::PrefixLength(_) => OptionKind::PrefixLength,
        }
    }

    /// The option that gives rise to this setting.
    pub fn kind(self) -> (r: OptionKind)
        ensures
            r == self.spec_kind(),
    {
        match self {
            Setting::CreateIfMissing(_) => OptionKind::CreateIfMissing,
            Setting::CreateMissingColumnFamilies(_) => OptionKind::CreateMissingColumnFamilies,
            Setting::MaxOpenFiles(_) => OptionKind::MaxOpenFiles,
            Setting::UseFsync(_) => OptionKind::UseFsync,
            Setting::BytesPerSync(_) => OptionKind::BytesPerSync,
            Setting::OptimizeForPointLookup(_) => OptionKind::OptimizeForPointLookup,
            Setting::TableCacheNumShardBits(_) => OptionKind::TableCacheNumShardBits,
            Setting::MaxWriteBufferNumber(_) => OptionKind::MaxWriteBufferNumber,
            Setting::WriteBufferSize(_) => OptionKind::WriteBufferSize,
            Setting::TargetFileSizeBase(_) => OptionKind::TargetFileSizeBase,
            Setting::MinWriteBufferNumberToMerge(_) => OptionKind::MinWriteBufferNumberToMerge,
            Setting::LevelZeroStopWritesTrigger(_) => OptionKind::LevelZeroStopWritesTrigger,
            Setting::LevelZeroSlowdownWritesTrigger(_) => OptionKind::LevelZeroSlowdownWritesTrigger,
            Setting::DisableAutoCompactions(_) => OptionKind::DisableAutoCompactions,
            Setting::CompactionStyle(_) => OptionKind::CompactionStyle,
            Setting::PrefixLength(_) => OptionKind::PrefixLength,
        }
    }
}

/// A value that does not have the shape its option expects.
#[derive(Clone, Copy, Debug, PartialEq, Eq, Structural)]
pub struct ConfigError {
    /// The option whose value was at fault.
    pub option: OptionKind,
}

impl ConfigError {
    /// The message of this fault: it names the option and says what shape
    /// of value the option expects.
    pub open spec fn spec_message(self) -> Seq<char> {
        "invalid value for option "@ + self.option.spec_name() + ": expected "@
            + self.option.spec_shape().spec_phrase()
    }

    /// The message of this fault.
    pub fn message(&self) -> (r: String)
        ensures
            r@ == self.spec_message(),
    {
        let mut text = String::from_str("invalid value for option ");
        text.append(self.option.name());
        text.append(": expected ");
        text.append(self.option.shape().phrase());
        text
    }
}

/// The truth value that a tag names, if it names one.
pub open spec fn spec_flag_of(tag: Seq<char>) -> Option<bool> {
    if tag == "true"@ {
        Some(true)
    } else if tag == "false"@ {
        Some(false)
    } else {
        None
    }
}

/// A flag: the symbolic tag `true` or `false`.
pub open spec fn spec_flag(v: ValueModel) -> Option<bool> {
    match v {
        ValueModel::Atom(tag) => spec_flag_of(tag),
        _ => None,
    }
}

/// A signed 32-bit value: a whole number within the range of `i32`.
pub open spec fn spec_int32(v: ValueModel) -> Option<i32> {
    match v {
        ValueModel::Integer(n) => if i32::MIN <= n <= i32::MAX {
            Some(n as i32)
        } else {
            None
        },
        _ => None,
    }
}

/// An unsigned 64-bit value: a whole number within the range of `u64`.
pub open spec fn spec_uint64(v: ValueModel) -> Option<u64> {
    match v {
        ValueModel::Integer(n) => if 0 <= n <= u64::MAX {
            Some(n as u64)
        } else {
            None
        },
        _ => None,
    }
}

/// A size: a whole number within the range of a machine word.
pub open spec fn spec_size(v: ValueModel) -> Option<usize> {
    match v {
        ValueModel::Integer(n) => if 0 <= n <= usize::MAX {
            Some(n as usize)
        } else {
            None
        },
        _ => None,
    }
}

/// The compaction style that a tag names, if it names one.
pub open spec fn spec_style_of(tag: Seq<char>) -> Option<CompactionStyle> {
    if tag == "level"@ {
        Some(CompactionStyle::Level)
    } else if tag == "universal"@ {
        Some(CompactionStyle::Universal)
    } else if tag == "fifo"@ {
        Some(CompactionStyle::Fifo)
    } else {
        None
    }
}

/// A compaction style: the symbolic tag `level`, `universal` or `fifo`.
pub open spec fn spec_style(v: ValueModel) -> Option<CompactionStyle> {
    match v {
        ValueModel::Atom(tag) => spec_style_of(tag),
        _ => None,
    }
}

/// Whether a value has the given shape.
pub open spec fn spec_fits(shape: Shape, v: ValueModel) -> bool {
    match shape {
        Shape::Flag => spec_flag(v) is Some,
        Shape::Int32 => spec_int32(v) is Some,
        Shape::Uint64 => spec_uint64(v) is Some,
        Shape::Size => spec_size(v) is Some,
        Shape::Style => spec_style(v) is Some,
    }
}

/// Reads a flag; `None` where the value is no flag.
pub fn read_flag(v: &OptionValue) -> (r: Option<bool>)
    ensures
        r == spec_flag(v@),
{
    match v {
        OptionValue::Atom(tag) => {
            if same_text(tag.as_str(), "true") {
                Some(true)
            } else if same_text(tag.as_str(), "false") {
                Some(false)
            } else {
                None
            }
        },
        _ => None,
    }
}

/// Reads a signed 32-bit value; `None` where the value is none.
pub fn read_int32(v: &OptionValue) -> (r: Option<i32>)
    ensures
        r == spec_int32(v@),
{
    match v {
        OptionValue::Integer(n) => {
            if -0x8000_0000i128 <= *n && *n <= 0x7fff_ffffi128 {
                Some(*n as i32)
            } else {
                None
            }
        },
        _ => None,
    }
}

/// Reads an unsigned 64-bit value; `None` where the value is none.
pub fn read_uint64(v: &OptionValue) -> (r: Option<u64>)
    ensures
        r == spec_uint64(v@),
{
    match v {
        OptionValue::Integer(n) => {
            if 0i128 <= *n && *n <= 0xffff_ffff_ffff_ffffi128 {
                Some(*n as u64)
            } else {
                None
            }
        },
        _ => None,
    }
}

/// Reads a size; `None` where the value is none.
pub fn read_size(v: &OptionValue) -> (r: Option<usize>)
    ensures
        r == spec_size(v@),
{
    match v {
        OptionValue::Integer(n) => {
            if 0i128 <= *n && *n <= usize::MAX as i128 {
                Some(*n as usize)
            } else {
                None
            }
        },
        _ => None,
    }
}

/// Reads a compaction style; `None` where the value is none.
pub fn read_style(v: &OptionValue) -> (r: Option<CompactionStyle>)
    ensures
        r == spec_style(v@),
{
    match v {
        OptionValue::Atom(tag) => {
            if same_text(tag.as_str(), "level") {
                Some(CompactionStyle::Level)
            } else if same_text(tag.as_str(), "universal") {
                Some(CompactionStyle::Universal)
            } else if same_text(tag.as_str(), "fifo") {
                Some(CompactionStyle::Fifo)
            } else {
                None
            }
        },
        _ => None,
    }
}

/// The setting that the option `kind` makes of the value `v`, for a value
/// of the option's shape.
pub open spec fn spec_setting(kind: OptionKind, v: ValueModel) -> Setting
    recommends
        spec_fits(kind.spec_shape(), v),
{
    match kind {
        OptionKind::CreateIfMissing => Setting::CreateIfMissing(spec_flag(v)->Some_0),
        OptionKind::CreateMissingColumnFamilies => Setting::CreateMissingColumnFamilies(spec_flag(v)->Some_0),
        OptionKind::MaxOpenFiles => Setting::MaxOpenFiles(spec_int32(v)->Some_0),
        OptionKind::UseFsync => Setting::UseFsync(spec_flag(v)->Some_0),
        OptionKind::BytesPerSync => Setting::BytesPerSync(spec_uint64(v)->Some_0),
        OptionKind::OptimizeForPointLookup => Setting::OptimizeForPointLookup(spec_uint64(v)->Some_0),
        OptionKind::TableCacheNumShardBits => Setting::TableCacheNumShardBits(spec_int32(v)->Some_0),
        OptionKind::MaxWriteBufferNumber => Setting::MaxWriteBufferNumber(spec_int32(v)->Some_0),
        OptionKind::WriteBufferSize => Setting::WriteBufferSize(spec_size(v)->Some_0),
        OptionKind::TargetFileSizeBase => Setting::TargetFileSizeBase(spec_uint64(v)->Some_0),
        OptionKind::MinWriteBufferNumberToMerge => Setting::MinWriteBufferNumberToMerge(spec_int32(v)->Some_0),
        OptionKind::LevelZeroStopWritesTrigger => Setting::LevelZeroStopWritesTrigger(spec_int32(v)->Some_0),
        OptionKind::LevelZeroSlowdownWritesTrigger => Setting::LevelZeroSlowdownWritesTrigger(spec_int32(v)->Some_0),
        OptionKind::DisableAutoCompactions => Setting::DisableAutoCompactions(spec_flag(v)->Some_0),
        OptionKind::CompactionStyle => Setting::CompactionStyle(spec_style(v)->Some_0),
        OptionKind::PrefixLength => Setting::PrefixLength(spec_size(v)->Some_0),
    }
}

/// What the option `kind` makes of the value `v`: its setting where the
/// value has the option's shape, and otherwise a fault that names the
/// option.
pub open spec fn spec_decode(kind: OptionKind, v: ValueModel) -> Result<Setting, ConfigError> {
    if spec_fits(kind.spec_shape(), v) {
        Ok(spec_setting(kind, v))
    } else {
        Err(ConfigError { option: kind })
    }
}

/// A setting belongs to the option that it was decoded for.
pub proof fn setting_keeps_its_option(kind: OptionKind, v: ValueModel)
    ensures
        spec_setting(kind, v).spec_kind() == kind,
{
}

/// Holds the value `v` against the option `kind`.
///
/// Returns the option's setting where the value has the option's shape, and
/// otherwise a fault that names the option.
pub fn decode(kind: OptionKind, v: &OptionValue) -> (r: Result<Setting, ConfigError>)
    ensures
        r == spec_decode(kind, v@),
{
    let fault = Err(ConfigError { option: kind });
    match kind {
        OptionKind::CreateIfMissing => match read_flag(v) {
            Some(x) => Ok(Setting::CreateIfMissing(x)),
            None => fault,
        },
        OptionKind::CreateMissingColumnFamilies => match read_flag(v) {
            Some(x) => Ok(Setting::CreateMissingColumnFamilies(x)),
            None => fault,
        },
        OptionKind::MaxOpenFiles => match read_int32(v) {
            Some(x) => Ok(Setting::MaxOpenFiles(x)),
            None => fault,
        },
        OptionKind::UseFsync => match read_flag(v) {
            Some(x) => Ok(Setting::UseFsync(x)),
            None => fault,
        },
        OptionKind::BytesPerSync => match read_uint64(v) {
            Some(x) => Ok(Setting::BytesPerSync(x)),
            None => fault,
        },
        OptionKind::OptimizeForPointLookup => match read_uint64(v) {
            Some(x) => Ok(Setting::OptimizeForPointLookup(x)),
            None => fault,
        },
        OptionKind::TableCacheNumShardBits => match read_int32(v) {
            Some(x) => Ok(Setting::TableCacheNumShardBits(x)),
            None => fault,
        },
        OptionKind::MaxWriteBufferNumber => match read_int32(v) {
            Some(x) => Ok(Setting::MaxWriteBufferNumber(x)),
            None => fault,
        },
        OptionKind::WriteBufferSize => match read_size(v) {
            Some(x) => Ok(Setting::WriteBufferSize(x)),
            None => fault,
        },
        OptionKind::TargetFileSizeBase => match read_uint64(v) {
            Some(x) => Ok(Setting::TargetFileSizeBase(x)),
            None => fault,
        },
        OptionKind::MinWriteBufferNumberToMerge => match read_int32(v) {
            Some(x) => Ok(Setting::MinWriteBufferNumberToMerge(x)),
            None => fault,
        },
        OptionKind::LevelZeroStopWritesTrigger => match read_int32(v) {
            Some(x) => Ok(Setting::LevelZeroStopWritesTrigger(x)),
            None => fault,
        },
        OptionKind::LevelZeroSlowdownWritesTrigger => match read_int32(v) {
            Some(x) => Ok(Setting::LevelZeroSlowdownWritesTrigger(x)),
            None => fault,
        },
        OptionKind::DisableAutoCompactions => match read_flag(v) {
            Some(x) => Ok(Setting::DisableAutoCompactions(x)),
            None => fault,
        },
        OptionKind::CompactionStyle => match read_style(v) {
            Some(x) => Ok(Setting::CompactionStyle(x)),
            None => fault,
        },
        OptionKind::PrefixLength => match read_size(v) {
            Some(x) => Ok(Setting::PrefixLength(x)),
            None => fault,
        },
    }
}

} // verus!
