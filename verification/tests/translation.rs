use rocksdbex_native::config::{effect, ignored_entries, translate, EngineConfig};
use rocksdbex_native::decode::{
    decode, read_flag, read_int32, read_size, read_style, read_uint64, ConfigError, Setting,
};
use rocksdbex_native::kinds::{recognize, CompactionStyle, OptionKind, Shape};
use rocksdbex_native::options::{OptionEntry, OptionValue};
use rocksdbex_native::text::same_text;

fn every_kind() -> Vec<OptionKind> {
    vec![
        OptionKind::CreateIfMissing,
        OptionKind::CreateMissingColumnFamilies,
        OptionKind::MaxOpenFiles,
        OptionKind::UseFsync,
        OptionKind::BytesPerSync,
        OptionKind::OptimizeForPointLookup,
        OptionKind::TableCacheNumShardBits,
        OptionKind::MaxWriteBufferNumber,
        OptionKind::WriteBufferSize,
        OptionKind::TargetFileSizeBase,
        OptionKind::MinWriteBufferNumberToMerge,
        OptionKind::LevelZeroStopWritesTrigger,
        OptionKind::LevelZeroSlowdownWritesTrigger,
        OptionKind::DisableAutoCompactions,
        OptionKind::CompactionStyle,
        OptionKind::PrefixLength,
    ]
}

fn atom(tag: &str) -> OptionValue {
    OptionValue::Atom(tag.to_string())
}

#[test]
fn same_text_compares_letter_for_letter() {
    assert!(same_text("", ""));
    assert!(same_text("fifo", "fifo"));
    assert!(!same_text("fifo", "fif"));
    assert!(!same_text("fif", "fifo"));
    assert!(!same_text("fifo", "fiFo"));
    assert!(!same_text("level", "lever"));
    assert!(same_text("gr\u{fc}n", "gr\u{fc}n"));
    assert!(!same_text("gr\u{fc}n", "grun"));
}

#[test]
fn option_names_are_the_documented_ones() {
    let names: Vec<&str> = every_kind().into_iter().map(|k| k.name()).collect();
    assert_eq!(
        names,
        vec![
            "create_if_missing",
            "create_missing_column_families",
            "set_max_open_files",
            "set_use_fsync",
            "set_bytes_per_sync",
            "optimize_for_point_lookup",
            "set_table_cache_num_shard_bits",
            "set_max_write_buffer_number",
            "set_write_buffer_size",
            "set_target_file_size_base",
            "set_min_write_buffer_number_to_merge",
            "set_level_zero_stop_writes_trigger",
            "set_level_zero_slowdown_writes_trigger",
            "set_disable_auto_compactions",
            "set_compaction_style",
            "prefix_length",
        ]
    );
}

#[test]
fn every_option_is_recognised_by_its_name() {
    for kind in every_kind() {
        assert_eq!(recognize(kind.name()), Some(kind));
    }
}

#[test]
fn other_names_are_not_recognised() {
    assert_eq!(recognize(""), None);
    assert_eq!(recognize("set_max_background_compactions"), None);
    assert_eq!(recognize("set_max_background_flushes"), None);
    assert_eq!(recognize("Create_if_missing"), None);
    assert_eq!(recognize("create_if_missing "), None);
    assert_eq!(recognize("create_if_missin"), None);
    assert_eq!(recognize("max_open_files"), None);
    assert_eq!(recognize("set_prefix_length"), None);
}

#[test]
fn every_option_has_the_documented_shape() {
    let shapes: Vec<Shape> = every_kind().into_iter().map(|k| k.shape()).collect();
    assert_eq!(
        shapes,
        vec![
            Shape::Flag,
            Shape::Flag,
            Shape::Int32,
            Shape::Flag,
            Shape::Uint64,
            Shape::Uint64,
            Shape::Int32,
            Shape::Int32,
            Shape::Size,
            Shape::Uint64,
            Shape::Int32,
            Shape::Int32,
            Shape::Int32,
            Shape::Flag,
            Shape::Style,
            Shape::Size,
        ]
    );
}

#[test]
fn a_flag_is_the_tag_true_or_false() {
    assert_eq!(read_flag(&atom("true")), Some(true));
    assert_eq!(read_flag(&atom("false")), Some(false));
    assert_eq!(read_flag(&atom("True")), None);
    assert_eq!(read_flag(&atom("yes")), None);
    assert_eq!(read_flag(&atom("nil")), None);
    assert_eq!(read_flag(&atom("")), None);
    assert_eq!(read_flag(&OptionValue::Integer(1)), None);
    assert_eq!(read_flag(&OptionValue::Integer(0)), None);
    assert_eq!(read_flag(&OptionValue::Other), None);
}

#[test]
fn a_signed_limit_fits_thirty_two_bits() {
    assert_eq!(read_int32(&OptionValue::Integer(0)), Some(0));
    assert_eq!(read_int32(&OptionValue::Integer(-1)), Some(-1));
    assert_eq!(read_int32(&OptionValue::Integer(2147483647)), Some(i32::MAX));
    assert_eq!(read_int32(&OptionValue::Integer(-2147483648)), Some(i32::MIN));
    assert_eq!(read_int32(&OptionValue::Integer(2147483648)), None);
    assert_eq!(read_int32(&OptionValue::Integer(-2147483649)), None);
    assert_eq!(read_int32(&OptionValue::Integer(i128::MAX)), None);
    assert_eq!(read_int32(&OptionValue::Integer(i128::MIN)), None);
    assert_eq!(read_int32(&atom("7")), None);
    assert_eq!(read_int32(&OptionValue::Other), None);
}

#[test]
fn an_unsigned_threshold_fits_sixty_four_bits() {
    assert_eq!(read_uint64(&OptionValue::Integer(0)), Some(0));
    assert_eq!(read_uint64(&OptionValue::Integer(1048576)), Some(1048576));
    assert_eq!(
        read_uint64(&OptionValue::Integer(18446744073709551615)),
        Some(u64::MAX)
    );
    assert_eq!(read_uint64(&OptionValue::Integer(18446744073709551616)), None);
    assert_eq!(read_uint64(&OptionValue::Integer(-1)), None);
    assert_eq!(read_uint64(&atom("true")), None);
    assert_eq!(read_uint64(&OptionValue::Other), None);
}

#[test]
fn a_size_fits_a_machine_word() {
    assert_eq!(read_size(&OptionValue::Integer(0)), Some(0));
    assert_eq!(read_size(&OptionValue::Integer(4096)), Some(4096));
    assert_eq!(
        read_size(&OptionValue::Integer(usize::MAX as i128)),
        Some(usize::MAX)
    );
    assert_eq!(read_size(&OptionValue::Integer(usize::MAX as i128 + 1)), None);
    assert_eq!(read_size(&OptionValue::Integer(-1)), None);
    assert_eq!(read_size(&atom("big")), None);
    assert_eq!(read_size(&OptionValue::Other), None);
}

#[test]
fn a_style_is_one_of_three_tags() {
    assert_eq!(read_style(&atom("level")), Some(CompactionStyle::Level));
    assert_eq!(read_style(&atom("universal")), Some(CompactionStyle::Universal));
    assert_eq!(read_style(&atom("fifo")), Some(CompactionStyle::Fifo));
    assert_eq!(read_style(&atom("Level")), None);
    assert_eq!(read_style(&atom("none")), None);
    assert_eq!(read_style(&atom("true")), None);
    assert_eq!(read_style(&OptionValue::Integer(0)), None);
    assert_eq!(read_style(&OptionValue::Other), None);
}

#[test]
fn decode_yields_the_setting_of_its_option() {
    let t = atom("true");
    let f = atom("false");
    assert_eq!(decode(OptionKind::CreateIfMissing, &t), Ok(Setting::CreateIfMissing(true)));
    assert_eq!(decode(OptionKind::CreateIfMissing, &f), Ok(Setting::CreateIfMissing(false)));
    assert_eq!(
        decode(OptionKind::CreateMissingColumnFamilies, &t),
        Ok(Setting::CreateMissingColumnFamilies(true))
    );
    assert_eq!(decode(OptionKind::UseFsync, &t), Ok(Setting::UseFsync(true)));
    assert_eq!(
        decode(OptionKind::DisableAutoCompactions, &f),
        Ok(Setting::DisableAutoCompactions(false))
    );
    let n = OptionValue::Integer(12);
    assert_eq!(decode(OptionKind::MaxOpenFiles, &n), Ok(Setting::MaxOpenFiles(12)));
    assert_eq!(decode(OptionKind::BytesPerSync, &n), Ok(Setting::BytesPerSync(12)));
    assert_eq!(
        decode(OptionKind::OptimizeForPointLookup, &n),
        Ok(Setting::OptimizeForPointLookup(12))
    );
    assert_eq!(
        decode(OptionKind::TableCacheNumShardBits, &n),
        Ok(Setting::TableCacheNumShardBits(12))
    );
    assert_eq!(
        decode(OptionKind::MaxWriteBufferNumber, &n),
        Ok(Setting::MaxWriteBufferNumber(12))
    );
    assert_eq!(decode(OptionKind::WriteBufferSize, &n), Ok(Setting::WriteBufferSize(12)));
    assert_eq!(
        decode(OptionKind::TargetFileSizeBase, &n),
        Ok(Setting::TargetFileSizeBase(12))
    );
    assert_eq!(
        decode(OptionKind::MinWriteBufferNumberToMerge, &n),
        Ok(Setting::MinWriteBufferNumberToMerge(12))
    );
    assert_eq!(
        decode(OptionKind::LevelZeroStopWritesTrigger, &n),
        Ok(Setting::LevelZeroStopWritesTrigger(12))
    );
    assert_eq!(
        decode(OptionKind::LevelZeroSlowdownWritesTrigger, &n),
        Ok(Setting::LevelZeroSlowdownWritesTrigger(12))
    );
    assert_eq!(decode(OptionKind::PrefixLength, &n), Ok(Setting::PrefixLength(12)));
    assert_eq!(
        decode(OptionKind::CompactionStyle, &atom("fifo")),
        Ok(Setting::CompactionStyle(CompactionStyle::Fifo))
    );
}

#[test]
fn a_setting_belongs_to_the_option_it_was_decoded_for() {
    let values = [
        atom("true"),
        atom("level"),
        OptionValue::Integer(0),
        OptionValue::Integer(-5),
    ];
    for kind in every_kind() {
        for value in values.iter() {
            if let Ok(setting) = decode(kind, value) {
                assert_eq!(setting.kind(), kind);
            }
        }
    }
}

#[test]
fn decode_faults_on_a_tag_outside_the_shape() {
    assert_eq!(
        decode(OptionKind::CreateIfMissing, &atom("yes")),
        Err(ConfigError { option: OptionKind::CreateIfMissing })
    );
    assert_eq!(
        decode(OptionKind::UseFsync, &atom("maybe")),
        Err(ConfigError { option: OptionKind::UseFsync })
    );
    assert_eq!(
        decode(OptionKind::CompactionStyle, &atom("tiered")),
        Err(ConfigError { option: OptionKind::CompactionStyle })
    );
    assert_eq!(
        decode(OptionKind::CompactionStyle, &atom("true")),
        Err(ConfigError { option: OptionKind::CompactionStyle })
    );
    assert_eq!(
        decode(OptionKind::DisableAutoCompactions, &atom("fifo")),
        Err(ConfigError { option: OptionKind::DisableAutoCompactions })
    );
}

#[test]
fn decode_faults_every_option_on_a_value_of_no_shape() {
    for kind in every_kind() {
        assert_eq!(
            decode(kind, &OptionValue::Other),
            Err(ConfigError { option: kind })
        );
    }
}

#[test]
fn decode_faults_on_the_wrong_shape() {
    let flag = atom("true");
    let style = atom("universal");
    let number = OptionValue::Integer(3);
    for kind in every_kind() {
        let fault = Err(ConfigError { option: kind });
        match kind.shape() {
            Shape::Flag => {
                assert!(decode(kind, &flag).is_ok());
                assert_eq!(decode(kind, &style), fault);
                assert_eq!(decode(kind, &number), fault);
            }
            Shape::Style => {
                assert!(decode(kind, &style).is_ok());
                assert_eq!(decode(kind, &flag), fault);
                assert_eq!(decode(kind, &number), fault);
            }
            Shape::Int32 | Shape::Uint64 | Shape::Size => {
                assert!(decode(kind, &number).is_ok());
                assert_eq!(decode(kind, &flag), fault);
                assert_eq!(decode(kind, &style), fault);
            }
        }
    }
}

#[test]
fn decode_faults_on_a_number_out_of_range() {
    let negative = OptionValue::Integer(-1);
    assert_eq!(
        decode(OptionKind::BytesPerSync, &negative),
        Err(ConfigError { option: OptionKind::BytesPerSync })
    );
    assert_eq!(
        decode(OptionKind::PrefixLength, &negative),
        Err(ConfigError { option: OptionKind::PrefixLength })
    );
    assert_eq!(
        decode(OptionKind::MaxOpenFiles, &negative),
        Ok(Setting::MaxOpenFiles(-1))
    );
    let wide = OptionValue::Integer(1 << 40);
    assert_eq!(
        decode(OptionKind::MaxOpenFiles, &wide),
        Err(ConfigError { option: OptionKind::MaxOpenFiles })
    );
    assert_eq!(
        decode(OptionKind::TargetFileSizeBase, &wide),
        Ok(Setting::TargetFileSizeBase(1 << 40))
    );
}

#[test]
fn apply_changes_one_field() {
    let mut cfg = EngineConfig::new();
    cfg.apply(Setting::MaxOpenFiles(64));
    let mut expected = EngineConfig::new();
    expected.max_open_files = Some(64);
    assert_eq!(cfg, expected);
    cfg.apply(Setting::CompactionStyle(CompactionStyle::Universal));
    expected.compaction_style = Some(CompactionStyle::Universal);
    assert_eq!(cfg, expected);
    cfg.apply(Setting::MaxOpenFiles(-1));
    expected.max_open_files = Some(-1);
    assert_eq!(cfg, expected);
    cfg.apply(Setting::UseFsync(false));
    expected.use_fsync = Some(false);
    assert_eq!(cfg, expected);
}

#[test]
fn a_configuration_hands_back_what_was_applied() {
    let mut cfg = EngineConfig::new();
    for kind in every_kind() {
        assert_eq!(cfg.setting_for(kind), None);
    }
    cfg.apply(Setting::PrefixLength(4));
    cfg.apply(Setting::CreateIfMissing(true));
    cfg.apply(Setting::PrefixLength(6));
    for kind in every_kind() {
        let expected = match kind {
            OptionKind::PrefixLength => Some(Setting::PrefixLength(6)),
            OptionKind::CreateIfMissing => Some(Setting::CreateIfMissing(true)),
            _ => None,
        };
        assert_eq!(cfg.setting_for(kind), expected);
    }
}

#[test]
fn the_default_configuration_asks_for_nothing() {
    let cfg = EngineConfig::default();
    assert_eq!(cfg, EngineConfig::new());
    assert_eq!(cfg.create_if_missing, None);
    assert_eq!(cfg.create_missing_column_families, None);
    assert_eq!(cfg.use_fsync, None);
    assert_eq!(cfg.disable_auto_compactions, None);
    assert_eq!(cfg.max_open_files, None);
    assert_eq!(cfg.bytes_per_sync, None);
    assert_eq!(cfg.point_lookup_cache_mb, None);
    assert_eq!(cfg.table_cache_num_shard_bits, None);
    assert_eq!(cfg.max_write_buffer_number, None);
    assert_eq!(cfg.write_buffer_size, None);
    assert_eq!(cfg.target_file_size_base, None);
    assert_eq!(cfg.min_write_buffer_number_to_merge, None);
    assert_eq!(cfg.level_zero_stop_writes_trigger, None);
    assert_eq!(cfg.level_zero_slowdown_writes_trigger, None);
    assert_eq!(cfg.compaction_style, None);
    assert_eq!(cfg.prefix_length, None);
}

#[test]
fn an_empty_bag_translates_to_the_default() {
    assert_eq!(translate(&Vec::new()), Ok(EngineConfig::new()));
}

#[test]
fn a_full_bag_fills_every_field() {
    let entries = vec![
        OptionEntry::atom("create_if_missing", "true"),
        OptionEntry::atom("create_missing_column_families", "true"),
        OptionEntry::integer("set_max_open_files", 512),
        OptionEntry::atom("set_use_fsync", "true"),
        OptionEntry::integer("set_bytes_per_sync", 1048576),
        OptionEntry::integer("optimize_for_point_lookup", 64),
        OptionEntry::integer("set_table_cache_num_shard_bits", 6),
        OptionEntry::integer("set_max_write_buffer_number", 4),
        OptionEntry::integer("set_write_buffer_size", 67108864),
        OptionEntry::integer("set_target_file_size_base", 33554432),
        OptionEntry::integer("set_min_write_buffer_number_to_merge", 2),
        OptionEntry::integer("set_level_zero_stop_writes_trigger", 36),
        OptionEntry::integer("set_level_zero_slowdown_writes_trigger", 20),
        OptionEntry::atom("set_disable_auto_compactions", "true"),
        OptionEntry::atom("set_compaction_style", "universal"),
        OptionEntry::integer("prefix_length", 8),
    ];
    let expected = EngineConfig {
        create_if_missing: Some(true),
        create_missing_column_families: Some(true),
        max_open_files: Some(512),
        use_fsync: Some(true),
        bytes_per_sync: Some(1048576),
        point_lookup_cache_mb: Some(64),
        table_cache_num_shard_bits: Some(6),
        max_write_buffer_number: Some(4),
        write_buffer_size: Some(67108864),
        target_file_size_base: Some(33554432),
        min_write_buffer_number_to_merge: Some(2),
        level_zero_stop_writes_trigger: Some(36),
        level_zero_slowdown_writes_trigger: Some(20),
        disable_auto_compactions: Some(true),
        compaction_style: Some(CompactionStyle::Universal),
        prefix_length: Some(8),
    };
    assert_eq!(translate(&entries), Ok(expected));
}

#[test]
fn a_flag_may_be_given_as_false() {
    let entries = vec![
        OptionEntry::atom("create_if_missing", "false"),
        OptionEntry::atom("set_disable_auto_compactions", "true"),
    ];
    let mut expected = EngineConfig::new();
    expected.create_if_missing = Some(false);
    expected.disable_auto_compactions = Some(true);
    assert_eq!(translate(&entries), Ok(expected));
}

#[test]
fn a_style_that_the_engine_does_not_have_is_a_fault() {
    let entries = vec![
        OptionEntry::atom("create_if_missing", "true"),
        OptionEntry::atom("set_compaction_style", "leveled"),
    ];
    assert_eq!(
        translate(&entries),
        Err(ConfigError { option: OptionKind::CompactionStyle })
    );
}

#[test]
fn an_unknown_option_is_ignored() {
    let plain = vec![
        OptionEntry::atom("create_if_missing", "true"),
        OptionEntry::integer("set_max_open_files", 100),
    ];
    let expected = translate(&plain);
    assert!(expected.is_ok());
    let extras = [
        OptionEntry::integer("set_max_background_compactions", 4),
        OptionEntry::atom("no_such_option", "true"),
        OptionEntry::new("comment", OptionValue::Other),
    ];
    for extra in extras.iter() {
        for at in 0..=plain.len() {
            let mut with = plain.clone();
            with.insert(at, extra.clone());
            assert_eq!(translate(&with), expected);
        }
    }
}

#[test]
fn the_first_fault_is_reported() {
    let entries = vec![
        OptionEntry::atom("create_if_missing", "true"),
        OptionEntry::atom("set_write_buffer_size", "large"),
        OptionEntry::integer("set_use_fsync", 1),
    ];
    assert_eq!(
        translate(&entries),
        Err(ConfigError { option: OptionKind::WriteBufferSize })
    );
    let turned = vec![
        OptionEntry::integer("set_use_fsync", 1),
        OptionEntry::atom("set_write_buffer_size", "large"),
    ];
    assert_eq!(
        translate(&turned),
        Err(ConfigError { option: OptionKind::UseFsync })
    );
}

#[test]
fn a_fault_after_an_unknown_option_is_still_a_fault() {
    let entries = vec![
        OptionEntry::new("colour", OptionValue::Other),
        OptionEntry::new("prefix_length", OptionValue::Other),
    ];
    assert_eq!(
        translate(&entries),
        Err(ConfigError { option: OptionKind::PrefixLength })
    );
}

#[test]
fn of_two_entries_under_one_name_the_later_decides() {
    let entries = vec![
        OptionEntry::integer("set_max_open_files", 1),
        OptionEntry::integer("set_max_open_files", 2),
        OptionEntry::atom("set_compaction_style", "fifo"),
        OptionEntry::atom("set_compaction_style", "level"),
        OptionEntry::atom("set_use_fsync", "true"),
        OptionEntry::atom("set_use_fsync", "false"),
    ];
    let mut expected = EngineConfig::new();
    expected.max_open_files = Some(2);
    expected.compaction_style = Some(CompactionStyle::Level);
    expected.use_fsync = Some(false);
    assert_eq!(translate(&entries), Ok(expected));
}

#[test]
fn entries_under_different_names_may_come_in_any_order() {
    let a = OptionEntry::integer("set_max_open_files", 9);
    let b = OptionEntry::atom("set_compaction_style", "fifo");
    let c = OptionEntry::integer("prefix_length", 3);
    let orders = vec![
        vec![a.clone(), b.clone(), c.clone()],
        vec![a.clone(), c.clone(), b.clone()],
        vec![b.clone(), a.clone(), c.clone()],
        vec![b.clone(), c.clone(), a.clone()],
        vec![c.clone(), a.clone(), b.clone()],
        vec![c.clone(), b.clone(), a.clone()],
    ];
    let mut expected = EngineConfig::new();
    expected.max_open_files = Some(9);
    expected.compaction_style = Some(CompactionStyle::Fifo);
    expected.prefix_length = Some(3);
    for order in orders.iter() {
        assert_eq!(translate(order), Ok(expected));
    }
}

#[test]
fn effect_of_one_entry() {
    assert_eq!(
        effect(&OptionEntry::integer("prefix_length", 5)),
        Ok(Some(Setting::PrefixLength(5)))
    );
    assert_eq!(effect(&OptionEntry::integer("prefix_len", 5)), Ok(None));
    assert_eq!(
        effect(&OptionEntry::atom("set_use_fsync", "false")),
        Ok(Some(Setting::UseFsync(false)))
    );
    assert_eq!(
        effect(&OptionEntry::atom("prefix_length", "five")),
        Err(ConfigError { option: OptionKind::PrefixLength })
    );
}

#[test]
fn ignored_entries_are_those_under_unknown_names() {
    let entries = vec![
        OptionEntry::atom("verbose", "true"),
        OptionEntry::integer("set_max_open_files", 1),
        OptionEntry::integer("set_max_background_flushes", 2),
        OptionEntry::atom("set_use_fsync", "false"),
        OptionEntry::new("", OptionValue::Other),
    ];
    assert_eq!(ignored_entries(&entries), vec![0, 2, 4]);
    assert_eq!(ignored_entries(&Vec::new()), Vec::<usize>::new());
    let known = vec![OptionEntry::new("prefix_length", OptionValue::Other)];
    assert_eq!(ignored_entries(&known), Vec::<usize>::new());
}

#[test]
fn entry_builders_hold_what_they_were_given() {
    assert_eq!(
        OptionEntry::atom("set_use_fsync", "true"),
        OptionEntry {
            name: "set_use_fsync".to_string(),
            value: OptionValue::Atom("true".to_string()),
        }
    );
    assert_eq!(
        OptionEntry::integer("prefix_length", -4),
        OptionEntry { name: "prefix_length".to_string(), value: OptionValue::Integer(-4) }
    );
    assert_eq!(
        OptionEntry::new("x", OptionValue::Other),
        OptionEntry { name: "x".to_string(), value: OptionValue::Other }
    );
}
