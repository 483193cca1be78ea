//! The closed set of options that `open` understands, and the shape of value
//! that each of them expects.

use crate::text::same_text;
use vstd::prelude::*;

verus! {

/// How the engine merges its on-disk files.
#[derive(Clone, Copy, Debug, PartialEq, Eq, Structural)]
pub enum CompactionStyle {
    Level,
    Universal,
    Fifo,
}

/// The shape of value that an option expects.
#[derive(Clone, Copy, Debug, PartialEq, Eq, Structural)]
pub enum Shape {
    /// A symbolic tag; the tag `true` raises the flag.
    Flag,
    /// A whole number that fits in 32 bits with sign.
    Int32,
    /// A whole number from zero that fits in 64 bits.
    Uint64,
    /// A whole number from zero that fits in a machine word.
    Size,
    /// A symbolic tag that names a compaction style.
    Style,
}

impl Shape {
    /// The shape in words, as an error message puts it.
    pub open spec fn spec_phrase(self) -> Seq<char> {
        match self {
            Shape::Flag => "a flag"@,
            Shape::Int32 => "a signed 32-bit integer"@,
            Shape::Uint64 => "an unsigned 64-bit integer"@,
            Shape::Size => "an unsigned machine-word integer"@,
            Shape::Style => "a compaction style"@,
        }
    }

    /// The shape in words, as an error message puts it.
    pub fn phrase(self) -> (r: &'static str)
        ensures
            r@ == self.spec_phrase(),
    {
        match self {
            Shape::Flag => "a flag",
            Shape::Int32 => "a signed 32-bit integer",
            Shape::Uint64 => "an unsigned 64-bit integer",
            Shape::Size => "an unsigned machine-word integer",
            Shape::Style => "a compaction style",
        }
    }
}

/// A recognised option.
#[derive(Clone, Copy, Debug, PartialEq, Eq, Structural)]
pub enum OptionKind {
    CreateIfMissing,
    CreateMissingColumnFamilies,
    MaxOpenFiles,
    UseFsync,
    BytesPerSync,
    OptimizeForPointLookup,
    TableCacheNumShardBits,
    MaxWriteBufferNumber,
    WriteBufferSize,
    TargetFileSizeBase,
    MinWriteBufferNumberToMerge,
    LevelZeroStopWritesTrigger,
    LevelZeroSlowdownWritesTrigger,
    DisableAutoCompactions,
    CompactionStyle,
    PrefixLength,
}

impl OptionKind {
    /// The name under which the option appears in an option bag.
    pub open spec fn spec_name(self) -> Seq<char> {
        match self {
            OptionKind::CreateIfMissing => "create_if_missing"@,
            OptionKind::CreateMissingColumnFamilies => "create_missing_column_families"@,
            OptionKind::MaxOpenFiles => "set_max_open_files"@,
            OptionKind::UseFsync => "set_use_fsync"@,
            OptionKind::BytesPerSync => "set_bytes_per_sync"@,
            OptionKind::OptimizeForPointLookup => "optimize_for_point_lookup"@,
            OptionKind::TableCacheNumShardBits => "set_table_cache_num_shard_bits"@,
            OptionKind::MaxWriteBufferNumber => "set_max_write_buffer_number"@,
            OptionKind::WriteBufferSize => "set_write_buffer_size"@,
            OptionKind::TargetFileSizeBase => "set_target_file_size_base"@,
            OptionKind::MinWriteBufferNumberToMerge => "set_min_write_buffer_number_to_merge"@,
            OptionKind::LevelZeroStopWritesTrigger => "set_level_zero_stop_writes_trigger"@,
            OptionKind::LevelZeroSlowdownWritesTrigger => "set_level_zero_slowdown_writes_trigger"@,
            OptionKind::DisableAutoCompactions => "set_disable_auto_compactions"@,
            OptionKind::CompactionStyle => "set_compaction_style"@,
            OptionKind::PrefixLength => "prefix_length"@,
        }
    }

    /// The name under which the option appears in an option bag.
    pub fn name(self) -> (r: &'static str)
        ensures
            r@ == self.spec_name(),
    {
        match self {
            OptionKind::CreateIfMissing => "create_if_missing",
            OptionKind::CreateMissingColumnFamilies => "create_missing_column_families",
            OptionKind::MaxOpenFiles => "set_max_open_files",
            OptionKind::UseFsync => "set_use_fsync",
            OptionKind::BytesPerSync => "set_bytes_per_sync",
            OptionKind::OptimizeForPointLookup => "optimize_for_point_lookup",
            OptionKind::TableCacheNumShardBits => "set_table_cache_num_shard_bits",
            OptionKind::MaxWriteBufferNumber => "set_max_write_buffer_number",
            OptionKind::WriteBufferSize => "set_write_buffer_size",
            OptionKind::TargetFileSizeBase => "set_target_file_size_base",
            OptionKind::MinWriteBufferNumberToMerge => "set_min_write_buffer_number_to_merge",
            OptionKind::LevelZeroStopWritesTrigger => "set_level_zero_stop_writes_trigger",
            OptionKind::LevelZeroSlowdownWritesTrigger => "set_level_zero_slowdown_writes_trigger",
            OptionKind::DisableAutoCompactions => "set_disable_auto_compactions",
            OptionKind::CompactionStyle => "set_compaction_style",
            OptionKind::PrefixLength => "prefix_length",
        }
    }

    /// The shape of value that the option expects.
    pub open spec fn spec_shape(self) -> Shape {
        match self {
            OptionKind::CreateIfMissing
            | OptionKind::CreateMissingColumnFamilies
            | OptionKind::UseFsync
            | OptionKind::DisableAutoCompactions => Shape::Flag,
            OptionKind::MaxOpenFiles
            | OptionKind::TableCacheNumShardBits
            | OptionKind::MaxWriteBufferNumber
            | OptionKind::MinWriteBufferNumberToMerge
            | OptionKind::LevelZeroStopWritesTrigger
            | OptionKind::LevelZeroSlowdownWritesTrigger => Shape::Int32,
            OptionKind::BytesPerSync
            | OptionKind::OptimizeForPointLookup
            | OptionKind::TargetFileSizeBase => Shape::Uint64,
            OptionKind::WriteBufferSize | OptionKind::PrefixLength => Shape::Size,
            OptionKind::CompactionStyle => Shape::Style,
        }
    }

    /// The shape of value that the option expects.
    pub fn shape(self) -> (r: Shape)
        ensures
            r == self.spec_shape(),
    {
        match self {
            OptionKind::CreateIfMissing
            | OptionKind::CreateMissingColumnFamilies
            | OptionKind::UseFsync
            | OptionKind::DisableAutoCompactions => Shape::Flag,
            OptionKind::MaxOpenFiles
            | OptionKind::TableCacheNumShardBits
            | OptionKind::MaxWriteBufferNumber
            | OptionKind::MinWriteBufferNumberToMerge
            | OptionKind::LevelZeroStopWritesTrigger
            | OptionKind::LevelZeroSlowdownWritesTrigger => Shape::Int32,
            OptionKind::BytesPerSync
            | OptionKind::OptimizeForPointLookup
            | OptionKind::TargetFileSizeBase => Shape::Uint64,
            OptionKind::WriteBufferSize | OptionKind::PrefixLength => Shape::Size,
            OptionKind::CompactionStyle => Shape::Style,
        }
    }
}

/// The option that `name` stands for: the one whose name it is, letter for
/// letter. A name that belongs to no option stands for none.
pub open spec fn spec_recognize(name: Seq<char>) -> Option<OptionKind> {
    if exists|k: OptionKind| k.spec_name() == name {
        Some(choose|k: OptionKind| k.spec_name() == name)
    } else {
        None
    }
}

/// No two options share a name.
pub proof fn names_are_distinct(a: OptionKind, b: OptionKind)
    requires
        a.spec_name() == b.spec_name(),
    ensures
        a == b,
{
    reveal_strlit("create_if_missing");
    reveal_strlit("create_missing_column_families");
    reveal_strlit("set_max_open_files");
    reveal_strlit("set_use_fsync");
    reveal_strlit("set_bytes_per_sync");
    reveal_strlit("optimize_for_point_lookup");
    reveal_strlit("set_table_cache_num_shard_bits");
    reveal_strlit("set_max_write_buffer_number");
    reveal_strlit("set_write_buffer_size");
    reveal_strlit("set_target_file_size_base");
    reveal_strlit("set_min_write_buffer_number_to_merge");
    reveal_strlit("set_level_zero_stop_writes_trigger");
    reveal_strlit("set_level_zero_slowdown_writes_trigger");
    reveal_strlit("set_disable_auto_compactions");
    reveal_strlit("set_compaction_style");
    reveal_strlit("prefix_length");
    let s = a.spec_name();
    let t = b.spec_name();
    assert(s.len() == t.len());
    assert(s[0] == t[0]);
    assert(s[4] == t[4]);
}

/// A name stands for an option exactly when it is that option's name.
pub proof fn recognize_is_by_name(name: Seq<char>, k: OptionKind)
    ensures
        spec_recognize(name) == Some(k) <==> k.spec_name() == name,
{
    if k.spec_name() == name {
        let c = choose|c: OptionKind| c.spec_name() == name;
        names_are_distinct(c, k);
    }
}

/// The option that `name` stands for, if it stands for one.
pub fn recognize(name: &str) -> (r: Option<OptionKind>)
    ensures
        r == spec_recognize(name@),
{
    let r = if same_text(name, OptionKind::CreateIfMissing.name()) {
        Some(OptionKind::CreateIfMissing)
    } else if same_text(name, OptionKind::CreateMissingColumnFamilies.name()) {
        Some(OptionKind::CreateMissingColumnFamilies)
    } else if same_text(name, OptionKind::MaxOpenFiles.name()) {
        Some(OptionKind::MaxOpenFiles)
    } else if same_text(name, OptionKind::UseFsync.name()) {
        Some(OptionKind::UseFsync)
    } else if same_text(name, OptionKind::BytesPerSync.name()) {
        Some(OptionKind::BytesPerSync)
    } else if same_text(name, OptionKind::OptimizeForPointLookup.name()) {
        Some(OptionKind::OptimizeForPointLookup)
    } else if same_text(name, OptionKind::TableCacheNumShardBits.name()) {
        Some(OptionKind::TableCacheNumShardBits)
    } else if same_text(name, OptionKind::MaxWriteBufferNumber.name()) {
        Some(OptionKind::MaxWriteBufferNumber)
    } else if same_text(name, OptionKind::WriteBufferSize.name()) {
        Some(OptionKind::WriteBufferSize)
    } else if same_text(name, OptionKind::TargetFileSizeBase.name()) {
        Some(OptionKind::TargetFileSizeBase)
    } else if same_text(name, OptionKind::MinWriteBufferNumberToMerge.name()) {
        Some(OptionKind::MinWriteBufferNumberToMerge)
    } else if same_text(name, OptionKind::LevelZeroStopWritesTrigger.name()) {
        Some(OptionKind::LevelZeroStopWritesTrigger)
    } else if same_text(name, OptionKind::LevelZeroSlowdownWritesTrigger.name()) {
        Some(OptionKind::LevelZeroSlowdownWritesTrigger)
    } else if same_text(name, OptionKind::DisableAutoCompactions.name()) {
        Some(OptionKind::DisableAutoCompactions)
    } else if same_text(name, OptionKind::CompactionStyle.name()) {
        Some(OptionKind::CompactionStyle)
    } else if same_text(name, OptionKind::PrefixLength.name()) {
        Some(OptionKind::PrefixLength)
    } else {
        None
    };
    proof {
        match r {
            Some(k) => {
                recognize_is_by_name(name@, k);
            },
            None => {
                assert(forall|k: OptionKind| k.spec_name() != name@);
            },
        }
    }
    r
}

} // verus!
