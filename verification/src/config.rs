//! Translating an option bag into an engine configuration.
//!
//! Entries are taken in the order given. An entry whose name is no
//! recognised option is passed over. A recognised entry is decoded; the first
//! one whose value has the wrong shape ends the translation with a fault, and
//! nothing of what came before it is kept. Where a name occurs more than
//! once, each occurrence is applied in turn, so the last one decides.

use crate::decode::{
    decode, setting_keeps_its_option, spec_decode, spec_setting, ConfigError, Setting,
};
use crate::kinds::{recognize, recognize_is_by_name, spec_recognize, CompactionStyle, OptionKind};
use crate::options::{entry_models, EntryModel, OptionEntry};
use vstd::prelude::*;

verus! {

/// What to ask of the engine when it opens a database. A field that is
/// `None` leaves the engine's own default in place.
#[derive(Clone, Copy, Debug, PartialEq, Eq)]
pub struct EngineConfig {
    pub create_if_missing: Option<bool>,
    pub create_missing_column_families: Option<bool>,
    pub max_open_files: Option<i32>,
    pub use_fsync: Option<bool>,
    pub bytes_per_sync: Option<u64>,
    pub point_lookup_cache_mb: Option<u64>,
    pub table_cache_num_shard_bits: Option<i32>,
    pub max_write_buffer_number: Option<i32>,
    pub write_buffer_size: Option<usize>,
    pub target_file_size_base: Option<u64>,
    pub min_write_buffer_number_to_merge: Option<i32>,
    pub level_zero_stop_writes_trigger: Option<i32>,
    pub level_zero_slowdown_writes_trigger: Option<i32>,
    pub disable_auto_compactions: Option<bool>,
    pub compaction_style: Option<CompactionStyle>,
    pub prefix_length: Option<usize>,
}

impl EngineConfig {
    /// The configuration that asks for nothing.
    pub open spec fn spec_default() -> EngineConfig {
        EngineConfig {
            create_if_missing: None,
            create_missing_column_families: None,
            max_open_files: None,
            use_fsync: None,
            bytes_per_sync: None,
            point_lookup_cache_mb: None,
            table_cache_num_shard_bits: None,
            max_write_buffer_number: None,
            write_buffer_size: None,
            target_file_size_base: None,
            min_write_buffer_number_to_merge: None,
            level_zero_stop_writes_trigger: None,
            level_zero_slowdown_writes_trigger: None,
            disable_auto_compactions: None,
            compaction_style: None,
            prefix_length: None,
        }
    }

    /// This configuration with one setting laid over it.
    pub open spec fn spec_apply(self, s: Setting) -> EngineConfig {
        match s {
            Setting::CreateIfMissing(x) => EngineConfig { create_if_missing: Some(x), ..self },
            Setting::CreateMissingColumnFamilies(x) => EngineConfig { create_missing_column_families: Some(x), ..self },
            Setting::MaxOpenFiles(x) => EngineConfig { max_open_files: Some(x), ..self },
            Setting::UseFsync(x) => EngineConfig { use_fsync: Some(x), ..self },
            Setting::BytesPerSync(x) => EngineConfig { bytes_per_sync: Some(x), ..self },
            Setting::OptimizeForPointLookup(x) => EngineConfig { point_lookup_cache_mb: Some(x), ..self },
            Setting::TableCacheNumShardBits(x) => EngineConfig { table_cache_num_shard_bits: Some(x), ..self },
            Setting::MaxWriteBufferNumber(x) => EngineConfig { max_write_buffer_number: Some(x), ..self },
            Setting::WriteBufferSize(x) => EngineConfig { write_buffer_size: Some(x), ..self },
            Setting::TargetFileSizeBase(x) => EngineConfig { target_file_size_base: Some(x), ..self },
            Setting::MinWriteBufferNumberToMerge(x) => EngineConfig { min_write_buffer_number_to_merge: Some(x), ..self },
            Setting::LevelZeroStopWritesTrigger(x) => EngineConfig { level_zero_stop_writes_trigger: Some(x), ..self },
            Setting::LevelZeroSlowdownWritesTrigger(x) => EngineConfig { level_zero_slowdown_writes_trigger: Some(x), ..self },
            Setting::DisableAutoCompactions(x) => EngineConfig { disable_auto_compactions: Some(x), ..self },
            Setting::CompactionStyle(x) => EngineConfig { compaction_style: Some(x), ..self },
            Setting::PrefixLength(x) => EngineConfig { prefix_length: Some(x), ..self },
        }
    }

    /// What this configuration holds for the option `kind`, as the setting
    /// that would ask for it.
    pub open spec fn spec_setting_for(self, kind: OptionKind) -> Option<Setting> {
        match kind {
            OptionKind::CreateIfMissing => match self.create_if_missing {
                Some(x) => Some(Setting::CreateIfMissing(x)),
                None => None,
            },
            OptionKind::CreateMissingColumnFamilies => match self.create_missing_column_families {
                Some(x) => Some(Setting::CreateMissingColumnFamilies(x)),
                None => None,
            },
            OptionKind::MaxOpenFiles => match self.max_open_files {
                Some(x) => Some(Setting::MaxOpenFiles(x)),
                None => None,
            },
            OptionKind::UseFsync => match self.use_fsync {
                Some(x) => Some(Setting::UseFsync(x)),
                None => None,
            },
            OptionKind::BytesPerSync => match self.bytes_per_sync {
                Some(x) => Some(Setting::BytesPerSync(x)),
                None => None,
            },
            OptionKind::OptimizeForPointLookup => match self.point_lookup_cache_mb {
                Some(x) => Some(Setting::OptimizeForPointLookup(x)),
                None => None,
            },
            OptionKind::TableCacheNumShardBits => match self.table_cache_num_shard_bits {
                Some(x) => Some(Setting::TableCacheNumShardBits(x)),
                None => None,
            },
            OptionKind::MaxWriteBufferNumber => match self.max_write_buffer_number {
                Some(x) => Some(Setting::MaxWriteBufferNumber(x)),
                None => None,
            },
            OptionKind::WriteBufferSize => match self.write_buffer_size {
                Some(x) => Some(Setting::WriteBufferSize(x)),
                None => None,
            },
            OptionKind::TargetFileSizeBase => match self.target_file_size_base {
                Some(x) => Some(Setting::TargetFileSizeBase(x)),
                None => None,
            },
            OptionKind::MinWriteBufferNumberToMerge => match self.min_write_buffer_number_to_merge {
                Some(x) => Some(Setting::MinWriteBufferNumberToMerge(x)),
                None => None,
            },
            OptionKind::LevelZeroStopWritesTrigger => match self.level_zero_stop_writes_trigger {
                Some(x) => Some(Setting::LevelZeroStopWritesTrigger(x)),
                None => None,
            },
            OptionKind::LevelZeroSlowdownWritesTrigger => match self.level_zero_slowdown_writes_trigger {
                Some(x) => Some(Setting::LevelZeroSlowdownWritesTrigger(x)),
                None => None,
            },
            OptionKind::DisableAutoCompactions => match self.disable_auto_compactions {
                Some(x) => Some(Setting::DisableAutoCompactions(x)),
                None => None,
            },
            OptionKind::CompactionStyle => match self.compaction_style {
                Some(x) => Some(Setting::CompactionStyle(x)),
                None => None,
            },
            OptionKind::PrefixLength => match self.prefix_length {
                Some(x) => Some(Setting::PrefixLength(x)),
                None => None,
            },
        }
    }

    /// The configuration that asks for nothing.
    pub fn new() -> (cfg: EngineConfig)
        ensures
            cfg == EngineConfig::spec_default(),
    {
        EngineConfig {
            create_if_missing: None,
            create_missing_column_families: None,
            max_open_files: None,
            use_fsync: None,
            bytes_per_sync: None,
            point_lookup_cache_mb: None,
            table_cache_num_shard_bits: None,
            max_write_buffer_number: None,
            write_buffer_size: None,
            target_file_size_base: None,
            min_write_buffer_number_to_merge: None,
            level_zero_stop_writes_trigger: None,
            level_zero_slowdown_writes_trigger: None,
            disable_auto_compactions: None,
            compaction_style: None,
            prefix_length: None,
        }
    }

    /// Lays one setting over this configuration. Only the field that the
    /// setting speaks of changes.
    pub fn apply(&mut self, s: Setting)
        ensures
            *final(self) == old(self).spec_apply(s),
    {
        match s {
            Setting::CreateIfMissing(x) => {
                self.create_if_missing = Some(x);
            },
            Setting::CreateMissingColumnFamilies(x) => {
                self.create_missing_column_families = Some(x);
            },
            Setting::MaxOpenFiles(x) => {
                self.max_open_files = Some(x);
            },
            Setting::UseFsync(x) => {
                self.use_fsync = Some(x);
            },
            Setting::BytesPerSync(x) => {
                self.bytes_per_sync = Some(x);
            },
            Setting::OptimizeForPointLookup(x) => {
                self.point_lookup_cache_mb = Some(x);
            },
            Setting::TableCacheNumShardBits(x) => {
                self.table_cache_num_shard_bits = Some(x);
            },
            Setting::MaxWriteBufferNumber(x) => {
                self.max_write_buffer_number = Some(x);
            },
            Setting::WriteBufferSize(x) => {
                self.write_buffer_size = Some(x);
            },
            Setting::TargetFileSizeBase(x) => {
                self.target_file_size_base = Some(x);
            },
            Setting::MinWriteBufferNumberToMerge(x) => {
                self.min_write_buffer_number_to_merge = Some(x);
            },
            Setting::LevelZeroStopWritesTrigger(x) => {
                self.level_zero_stop_writes_trigger = Some(x);
            },
            Setting::LevelZeroSlowdownWritesTrigger(x) => {
                self.level_zero_slowdown_writes_trigger = Some(x);
            },
            Setting::DisableAutoCompactions(x) => {
                self.disable_auto_compactions = Some(x);
            },
            Setting::CompactionStyle(x) => {
                self.compaction_style = Some(x);
            },
            Setting::PrefixLength(x) => {
                self.prefix_length = Some(x);
            },
        }
    }

    /// What this configuration holds for the option `kind`, as the setting
    /// that would ask for it; `None` where it leaves the engine's default.
    pub fn setting_for(&self, kind: OptionKind) -> (r: Option<Setting>)
        ensures
            r == self.spec_setting_for(kind),
    {
        match kind {
            OptionKind::CreateIfMissing => match self.create_if_missing {
                Some(x) => Some(Setting::CreateIfMissing(x)),
                None => None,
            },
            OptionKind::CreateMissingColumnFamilies => match self.create_missing_column_families {
                Some(x) => Some(Setting::CreateMissingColumnFamilies(x)),
                None => None,
            },
            OptionKind::MaxOpenFiles => match self.max_open_files {
                Some(x) => Some(Setting::MaxOpenFiles(x)),
                None => None,
            },
            OptionKind::UseFsync => match self.use_fsync {
                Some(x) => Some(Setting::UseFsync(x)),
                None => None,
            },
            OptionKind::BytesPerSync => match self.bytes_per_sync {
                Some(x) => Some(Setting::BytesPerSync(x)),
                None => None,
            },
            OptionKind::OptimizeForPointLookup => match self.point_lookup_cache_mb {
                Some(x) => Some(Setting::OptimizeForPointLookup(x)),
                None => None,
            },
            OptionKind::TableCacheNumShardBits => match self.table_cache_num_shard_bits {
                Some(x) => Some(Setting::TableCacheNumShardBits(x)),
                None => None,
            },
            OptionKind::MaxWriteBufferNumber => match self.max_write_buffer_number {
                Some(x) => Some(Setting::MaxWriteBufferNumber(x)),
                None => None,
            },
            OptionKind::WriteBufferSize => match self.write_buffer_size {
                Some(x) => Some(Setting::WriteBufferSize(x)),
                None => None,
            },
            OptionKind::TargetFileSizeBase => match self.target_file_size_base {
                Some(x) => Some(Setting::TargetFileSizeBase(x)),
                None => None,
            },
            OptionKind::MinWriteBufferNumberToMerge => match self.min_write_buffer_number_to_merge {
                Some(x) => Some(Setting::MinWriteBufferNumberToMerge(x)),
                None => None,
            },
            OptionKind::LevelZeroStopWritesTrigger => match self.level_zero_stop_writes_trigger {
                Some(x) => Some(Setting::LevelZeroStopWritesTrigger(x)),
                None => None,
            },
            OptionKind::LevelZeroSlowdownWritesTrigger => match self.level_zero_slowdown_writes_trigger {
                Some(x) => Some(Setting::LevelZeroSlowdownWritesTrigger(x)),
                None => None,
            },
            OptionKind::DisableAutoCompactions => match self.disable_auto_compactions {
                Some(x) => Some(Setting::DisableAutoCompactions(x)),
                None => None,
            },
            OptionKind::CompactionStyle => match self.compaction_style {
                Some(x) => Some(Setting::CompactionStyle(x)),
                None => None,
            },
            OptionKind::PrefixLength => match self.prefix_length {
                Some(x) => Some(Setting::PrefixLength(x)),
                None => None,
            },
        }
    }
}

impl Default for EngineConfig {
    fn default() -> (cfg: EngineConfig)
        ensures
            cfg == EngineConfig::spec_default(),
    {
        EngineConfig::new()
    }
}

/// What one entry asks for: a setting, nothing, or a fault. An entry whose
/// name is no recognised option asks for nothing, whatever its value.
pub open spec fn spec_effect(e: EntryModel) -> Result<Option<Setting>, ConfigError> {
    match spec_recognize(e.name) {
        Some(kind) => match spec_decode(kind, e.value) {
            Ok(s) => Ok(Some(s)),
            Err(fault) => Err(fault),
        },
        None => Ok(None),
    }
}

/// The fault that an entry gives rise to, if it is at fault.
pub open spec fn spec_fault(e: EntryModel) -> Option<ConfigError> {
    match spec_effect(e) {
        Err(fault) => Some(fault),
        Ok(_) => None,
    }
}

/// The configuration that results from laying the entries over `cfg` one
/// after the other, or the fault of the first entry that is at fault.
pub open spec fn spec_fold(cfg: EngineConfig, entries: Seq<EntryModel>) -> Result<
    EngineConfig,
    ConfigError,
>
    decreases entries.len(),
{
    if entries.len() == 0 {
        Ok(cfg)
    } else {
        match spec_effect(entries[0]) {
            Err(fault) => Err(fault),
            Ok(None) => spec_fold(cfg, entries.drop_first()),
            Ok(Some(s)) => spec_fold(cfg.spec_apply(s), entries.drop_first()),
        }
    }
}

/// The translation of an option bag.
pub open spec fn spec_translate(entries: Seq<EntryModel>) -> Result<EngineConfig, ConfigError> {
    spec_fold(EngineConfig::spec_default(), entries)
}

/// What one entry asks for; see [`spec_effect`].
pub fn effect(entry: &OptionEntry) -> (r: Result<Option<Setting>, ConfigError>)
    ensures
        r == spec_effect(entry@),
{
    match recognize(entry.name.as_str()) {
        Some(kind) => match decode(kind, &entry.value) {
            Ok(s) => Ok(Some(s)),
            Err(fault) => Err(fault),
        },
        None => Ok(None),
    }
}

/// Translates an option bag into an engine configuration.
///
/// Succeeds exactly when no entry is at fault. The configuration then holds,
/// for each option, what the last entry under that option's name asks for,
/// and nothing for an option that no entry mentions. On failure the fault is
/// that of the first entry at fault, and no configuration is handed out.
pub fn translate(entries: &Vec<OptionEntry>) -> (r: Result<EngineConfig, ConfigError>)
    ensures
        r == spec_translate(entry_models(entries@)),
        r is Ok <==> forall|i: int| 0 <= i < entries.len() ==> spec_fault(#[trigger] entries[i]@) is None,
        r is Err ==> exists|i: int|
            0 <= i < entries.len() && spec_fault(#[trigger] entries[i]@) == Some(r->Err_0) && forall|j: int|
                0 <= j < i ==> spec_fault(#[trigger] entries[j]@) is None,
        r is Ok ==> forall|kind: OptionKind| #[trigger]
            unmentioned(entry_models(entries@), kind) ==> r->Ok_0.spec_setting_for(kind) is None,
        r is Ok ==> forall|kind: OptionKind, at: int| #[trigger]
            decides(entry_models(entries@), kind, at) ==> r->Ok_0.spec_setting_for(kind) == Some(
                spec_setting(kind, entries[at]@.value),
            ),
{
    let ghost models = entry_models(entries@);
    let mut cfg = EngineConfig::new();
    let mut i: usize = 0;
    proof {
        assert(models.skip(0) =~= models);
    }
    while i < entries.len()
        invariant
            i <= entries.len(),
            models == entry_models(entries@),
            spec_translate(models) == spec_fold(cfg, models.skip(i as int)),
            forall|j: int| 0 <= j < i ==> spec_fault(#[trigger] entries[j]@) is None,
        decreases entries.len() - i,
    {
        proof {
            assert(models.skip(i as int)[0] == entries[i as int]@);
            assert(models.skip(i as int).drop_first() =~= models.skip(i + 1));
        }
        match effect(&entries[i]) {
            Err(fault) => {
                return Err(fault);
            },
            Ok(None) => {},
            Ok(Some(s)) => {
                cfg.apply(s);
            },
        }
        i += 1;
    }
    proof {
        assert(models.skip(i as int).len() == 0);
        assert forall|kind: OptionKind| #[trigger] unmentioned(models, kind) implies cfg.spec_setting_for(
            kind,
        ) is None by {
            last_entry_decides(EngineConfig::spec_default(), models, kind);
        }
        assert forall|kind: OptionKind, at: int| #[trigger] decides(models, kind, at) implies cfg.spec_setting_for(
            kind,
        ) == Some(spec_setting(kind, entries[at]@.value)) by {
            last_entry_decides(EngineConfig::spec_default(), models, kind);
        }
    }
    Ok(cfg)
}

/// The positions of the entries that a translation passes over because
/// their names are no recognised options, in rising order.
pub fn ignored_entries(entries: &Vec<OptionEntry>) -> (r: Vec<usize>)
    ensures
        forall|k: int| 0 <= k < r.len() ==> #[trigger] r[k] < entries.len(),
        forall|k: int| 0 <= k < r.len() ==> spec_recognize(entries[#[trigger] r[k] as int].name@) is None,
        forall|k: int, l: int| 0 <= k < l < r.len() ==> #[trigger] r[k] < #[trigger] r[l],
        forall|i: int|
            0 <= i < entries.len() && spec_recognize(#[trigger] entries[i].name@) is None ==> r@.contains(
                i as usize,
            ),
{
    let mut r: Vec<usize> = Vec::new();
    let mut i: usize = 0;
    while i < entries.len()
        invariant
            i <= entries.len(),
            forall|k: int| 0 <= k < r.len() ==> #[trigger] r[k] < i,
            forall|k: int| 0 <= k < r.len() ==> spec_recognize(entries[#[trigger] r[k] as int].name@) is None,
            forall|k: int, l: int| 0 <= k < l < r.len() ==> #[trigger] r[k] < #[trigger] r[l],
            forall|j: int|
                0 <= j < i && spec_recognize(#[trigger] entries[j].name@) is None ==> r@.contains(
                    j as usize,
                ),
        decreases entries.len() - i,
    {
        if recognize(entries[i].name.as_str()).is_none() {
            let ghost before = r@;
            r.push(i);
            proof {
                assert(r@[before.len() as int] == i);
                assert forall|j: int|
                    0 <= j < i + 1 && spec_recognize(#[trigger] entries[j].name@) is None implies r@.contains(
                    j as usize,
                ) by {
                    if j < i {
                        let k = choose|k: int| 0 <= k < before.len() && before[k] == j as usize;
                        assert(r@[k] == j as usize);
                    }
                }
            }
        }
        i += 1;
    }
    r
}

/// An entry under an unrecognised name may be put anywhere among the
/// others without changing what they come to, whatever was held before.
proof fn fold_passes_over_unknown(cfg: EngineConfig, entries: Seq<EntryModel>, at: int, e: EntryModel)
    requires
        0 <= at <= entries.len(),
        spec_recognize(e.name) is None,
    ensures
        spec_fold(cfg, entries.insert(at, e)) == spec_fold(cfg, entries),
    decreases at,
{
    let longer = entries.insert(at, e);
    if at == 0 {
        assert(longer[0] == e);
        assert(longer.drop_first() =~= entries);
    } else {
        assert(longer[0] == entries[0]);
        assert(longer.drop_first() =~= entries.drop_first().insert(at - 1, e));
        match spec_effect(entries[0]) {
            Err(_) => {},
            Ok(None) => {
                fold_passes_over_unknown(cfg, entries.drop_first(), at - 1, e);
            },
            Ok(Some(s)) => {
                fold_passes_over_unknown(cfg.spec_apply(s), entries.drop_first(), at - 1, e);
            },
        }
    }
}

/// An entry under a name that is no recognised option is ignored: with it, at
/// any place and with any value, an option bag translates to what it
/// translates to without it.
pub proof fn unknown_option_is_ignored(entries: Seq<EntryModel>, at: int, e: EntryModel)
    requires
        0 <= at <= entries.len(),
        spec_recognize(e.name) is None,
    ensures
        spec_translate(entries.insert(at, e)) == spec_translate(entries),
{
    fold_passes_over_unknown(EngineConfig::spec_default(), entries, at, e);
}

/// A translation fails exactly when some entry is at fault, and then with the
/// fault of the first such entry.
pub proof fn translation_fails_on_first_fault(cfg: EngineConfig, entries: Seq<EntryModel>)
    ensures
        spec_fold(cfg, entries) is Ok <==> forall|i: int|
            0 <= i < entries.len() ==> spec_fault(#[trigger] entries[i]) is None,
        spec_fold(cfg, entries) is Err ==> exists|i: int|
            0 <= i < entries.len() && spec_fault(#[trigger] entries[i]) == Some(spec_fold(cfg, entries)->Err_0)
                && forall|j: int| 0 <= j < i ==> spec_fault(#[trigger] entries[j]) is None,
    decreases entries.len(),
{
    if entries.len() > 0 {
        let rest = entries.drop_first();
        assert(forall|i: int| 0 <= i < rest.len() ==> rest[i] == entries[i + 1]);
        match spec_effect(entries[0]) {
            Err(fault) => {
                assert(spec_fault(entries[0]) == Some(fault));
            },
            Ok(step) => {
                let next = match step {
                    Some(s) => cfg.spec_apply(s),
                    None => cfg,
                };
                translation_fails_on_first_fault(next, rest);
                assert(spec_fold(cfg, entries) == spec_fold(next, rest));
                if spec_fold(next, rest) is Ok {
                    assert forall|i: int| 0 <= i < entries.len() implies spec_fault(
                        #[trigger] entries[i],
                    ) is None by {
                        if i > 0 {
                            assert(spec_fault(rest[i - 1]) is None);
                        }
                    }
                } else {
                    let w = choose|i: int|
                        0 <= i < rest.len() && spec_fault(#[trigger] rest[i]) == Some(
                            spec_fold(next, rest)->Err_0,
                        ) && forall|j: int| 0 <= j < i ==> spec_fault(#[trigger] rest[j]) is None;
                    assert(spec_fault(entries[w + 1]) == Some(spec_fold(cfg, entries)->Err_0));
                    assert forall|j: int| 0 <= j < w + 1 implies spec_fault(#[trigger] entries[j]) is None by {
                        if j > 0 {
                            assert(spec_fault(rest[j - 1]) is None);
                        }
                    }
                }
            },
        }
    }
}

/// Whether the entry at `at` is the last one under the name of the option
/// `kind`.
pub open spec fn decides(entries: Seq<EntryModel>, kind: OptionKind, at: int) -> bool {
    &&& 0 <= at < entries.len()
    &&& spec_recognize(entries[at].name) == Some(kind)
    &&& forall|j: int| at < j < entries.len() ==> spec_recognize(#[trigger] entries[j].name) != Some(kind)
}

/// Whether no entry stands under the name of the option `kind`.
pub open spec fn unmentioned(entries: Seq<EntryModel>, kind: OptionKind) -> bool {
    forall|j: int| 0 <= j < entries.len() ==> spec_recognize(#[trigger] entries[j].name) != Some(kind)
}

/// The field of an option holds what was last applied for that option, and
/// a setting of another option leaves it alone.
pub proof fn apply_then_look(cfg: EngineConfig, s: Setting, kind: OptionKind)
    ensures
        cfg.spec_apply(s).spec_setting_for(kind) == if s.spec_kind() == kind {
            Some(s)
        } else {
            cfg.spec_setting_for(kind)
        },
{
}

/// A configuration is no more than what it holds for each option.
pub proof fn config_is_its_settings(a: EngineConfig, b: EngineConfig)
    requires
        forall|kind: OptionKind| a.spec_setting_for(kind) == b.spec_setting_for(kind),
    ensures
        a == b,
{
    assert(a.spec_setting_for(OptionKind::CreateIfMissing) == b.spec_setting_for(OptionKind::CreateIfMissing));
    assert(a.spec_setting_for(OptionKind::CreateMissingColumnFamilies) == b.spec_setting_for(
        OptionKind::CreateMissingColumnFamilies,
    ));
    assert(a.spec_setting_for(OptionKind::MaxOpenFiles) == b.spec_setting_for(OptionKind::MaxOpenFiles));
    assert(a.spec_setting_for(OptionKind::UseFsync) == b.spec_setting_for(OptionKind::UseFsync));
    assert(a.spec_setting_for(OptionKind::BytesPerSync) == b.spec_setting_for(OptionKind::BytesPerSync));
    assert(a.spec_setting_for(OptionKind::OptimizeForPointLookup) == b.spec_setting_for(
        OptionKind::OptimizeForPointLookup,
    ));
    assert(a.spec_setting_for(OptionKind::TableCacheNumShardBits) == b.spec_setting_for(
        OptionKind::TableCacheNumShardBits,
    ));
    assert(a.spec_setting_for(OptionKind::MaxWriteBufferNumber) == b.spec_setting_for(
        OptionKind::MaxWriteBufferNumber,
    ));
    assert(a.spec_setting_for(OptionKind::WriteBufferSize) == b.spec_setting_for(OptionKind::WriteBufferSize));
    assert(a.spec_setting_for(OptionKind::TargetFileSizeBase) == b.spec_setting_for(
        OptionKind::TargetFileSizeBase,
    ));
    assert(a.spec_setting_for(OptionKind::MinWriteBufferNumberToMerge) == b.spec_setting_for(
        OptionKind::MinWriteBufferNumberToMerge,
    ));
    assert(a.spec_setting_for(OptionKind::LevelZeroStopWritesTrigger) == b.spec_setting_for(
        OptionKind::LevelZeroStopWritesTrigger,
    ));
    assert(a.spec_setting_for(OptionKind::LevelZeroSlowdownWritesTrigger) == b.spec_setting_for(
        OptionKind::LevelZeroSlowdownWritesTrigger,
    ));
    assert(a.spec_setting_for(OptionKind::DisableAutoCompactions) == b.spec_setting_for(
        OptionKind::DisableAutoCompactions,
    ));
    assert(a.spec_setting_for(OptionKind::CompactionStyle) == b.spec_setting_for(OptionKind::CompactionStyle));
    assert(a.spec_setting_for(OptionKind::PrefixLength) == b.spec_setting_for(OptionKind::PrefixLength));
}

/// What a successful translation holds for an option is what the last
/// entry under that option's name asks for; for an option that no entry
/// mentions it is what was held before.
pub proof fn last_entry_decides(cfg: EngineConfig, entries: Seq<EntryModel>, kind: OptionKind)
    requires
        spec_fold(cfg, entries) is Ok,
    ensures
        forall|at: int| #[trigger]
            decides(entries, kind, at) ==> spec_fold(cfg, entries)->Ok_0.spec_setting_for(kind) == Some(
                spec_setting(kind, entries[at].value),
            ),
        unmentioned(entries, kind) ==> spec_fold(cfg, entries)->Ok_0.spec_setting_for(kind)
            == cfg.spec_setting_for(kind),
    decreases entries.len(),
{
    if entries.len() > 0 {
        let first = entries[0];
        let rest = entries.drop_first();
        assert(forall|j: int| 0 <= j < rest.len() ==> rest[j] == entries[j + 1]);
        let next = match spec_effect(first) {
            Ok(Some(s)) => cfg.spec_apply(s),
            _ => cfg,
        };
        assert(spec_fold(cfg, entries) == spec_fold(next, rest));
        last_entry_decides(next, rest, kind);
        let done = spec_fold(cfg, entries)->Ok_0;
        match spec_recognize(first.name) {
            Some(k) => {
                setting_keeps_its_option(k, first.value);
                apply_then_look(cfg, spec_setting(k, first.value), kind);
            },
            None => {},
        }
        assert forall|at: int| #[trigger] decides(entries, kind, at) implies done.spec_setting_for(kind)
            == Some(spec_setting(kind, entries[at].value)) by {
            if at > 0 {
                assert forall|j: int| at - 1 < j < rest.len() implies spec_recognize(
                    #[trigger] rest[j].name,
                ) != Some(kind) by {
                    assert(rest[j] == entries[j + 1]);
                }
                assert(decides(rest, kind, at - 1));
            } else {
                assert forall|j: int| 0 <= j < rest.len() implies spec_recognize(#[trigger] rest[j].name)
                    != Some(kind) by {
                    assert(rest[j] == entries[j + 1]);
                }
                assert(unmentioned(rest, kind));
            }
        }
        if unmentioned(entries, kind) {
            assert forall|j: int| 0 <= j < rest.len() implies spec_recognize(#[trigger] rest[j].name)
                != Some(kind) by {
                assert(rest[j] == entries[j + 1]);
            }
            assert(unmentioned(rest, kind));
        }
    }
}

/// Of two settings of one option the later decides.
pub proof fn later_setting_wins(cfg: EngineConfig, earlier: Setting, later: Setting)
    requires
        earlier.spec_kind() == later.spec_kind(),
    ensures
        cfg.spec_apply(earlier).spec_apply(later) == cfg.spec_apply(later),
{
}

/// Settings of different options do not touch each other: they may be
/// applied in either order.
pub proof fn settings_of_distinct_options_commute(cfg: EngineConfig, a: Setting, b: Setting)
    requires
        a.spec_kind() != b.spec_kind(),
    ensures
        cfg.spec_apply(a).spec_apply(b) == cfg.spec_apply(b).spec_apply(a),
{
}

/// The settings that two entries under different names ask for belong to
/// different options.
proof fn distinct_names_give_distinct_options(e: EntryModel, f: EntryModel, a: Setting, b: Setting)
    requires
        e.name != f.name,
        spec_effect(e) == Ok::<Option<Setting>, ConfigError>(Some(a)),
        spec_effect(f) == Ok::<Option<Setting>, ConfigError>(Some(b)),
    ensures
        a.spec_kind() != b.spec_kind(),
{
    let k = spec_recognize(e.name)->Some_0;
    let l = spec_recognize(f.name)->Some_0;
    recognize_is_by_name(e.name, k);
    recognize_is_by_name(f.name, l);
    setting_keeps_its_option(k, e.value);
    setting_keeps_its_option(l, f.value);
}

/// An option bag is a mapping, and the order of its entries carries no
/// meaning: two neighbours under different names may change places. The
/// translation then succeeds or fails as before, and where it succeeds it
/// gives the same configuration. (Where it fails, the fault reported is that
/// of whichever faulty entry now comes first.)
pub proof fn neighbours_may_swap(cfg: EngineConfig, entries: Seq<EntryModel>, at: int)
    requires
        0 <= at,
        at + 1 < entries.len(),
        entries[at].name != entries[at + 1].name,
    ensures
        ({
            let swapped = entries.update(at, entries[at + 1]).update(at + 1, entries[at]);
            &&& spec_fold(cfg, swapped) is Ok <==> spec_fold(cfg, entries) is Ok
            &&& spec_fold(cfg, entries) is Ok ==> spec_fold(cfg, swapped) == spec_fold(cfg, entries)
        }),
    decreases at,
{
    let swapped = entries.update(at, entries[at + 1]).update(at + 1, entries[at]);
    let rest = entries.drop_first();
    if at == 0 {
        let e = entries[0];
        let f = entries[1];
        let tail = rest.drop_first();
        assert(swapped[0] == f);
        assert(swapped.drop_first()[0] == e);
        assert(swapped.drop_first().drop_first() =~= tail);
        assert(rest[0] == f);
        reveal_with_fuel(spec_fold, 3);
        match (spec_effect(e), spec_effect(f)) {
            (Ok(Some(a)), Ok(Some(b))) => {
                distinct_names_give_distinct_options(e, f, a, b);
                settings_of_distinct_options_commute(cfg, a, b);
            },
            _ => {},
        }
    } else {
        assert(swapped[0] == entries[0]);
        assert(swapped.drop_first() =~= rest.update(at - 1, rest[at]).update(at, rest[at - 1]));
        match spec_effect(entries[0]) {
            Err(_) => {},
            Ok(None) => {
                neighbours_may_swap(cfg, rest, at - 1);
            },
            Ok(Some(s)) => {
                neighbours_may_swap(cfg.spec_apply(s), rest, at - 1);
            },
        }
    }
}

} // verus!
