use rocksdbex_native::config::EngineConfig;
use rocksdbex_native::decode::ConfigError;
use rocksdbex_native::guard::{lock_mode, may_overlap, LockMode, Operation};
use rocksdbex_native::kinds::{OptionKind, Shape};
use rocksdbex_native::open::{conclude_open, prepare_open, OpenError};
use rocksdbex_native::options::{OptionEntry, OptionValue};
use rocksdbex_native::outcome::{conclude_read, conclude_write, OperationResult};

#[test]
fn a_write_that_the_engine_took_is_a_success() {
    assert_eq!(conclude_write(Ok(())), OperationResult::Success(None));
}

#[test]
fn a_write_that_the_engine_refused_carries_its_words() {
    assert_eq!(
        conclude_write(Err("IO error: No space left on device".to_string())),
        OperationResult::Failure("IO error: No space left on device".to_string())
    );
    assert_eq!(
        conclude_write(Err(String::new())),
        OperationResult::Failure(String::new())
    );
}

#[test]
fn a_read_hands_on_the_bytes_it_found() {
    assert_eq!(
        conclude_read(Ok(Some(vec![0, 255, 7]))),
        OperationResult::Success(Some(vec![0, 255, 7]))
    );
    assert_eq!(
        conclude_read(Ok(Some(Vec::new()))),
        OperationResult::Success(Some(Vec::new()))
    );
}

#[test]
fn a_read_of_an_absent_key_is_not_found() {
    assert_eq!(conclude_read(Ok(None)), OperationResult::NotFound);
}

#[test]
fn a_read_that_failed_carries_the_engine_words() {
    assert_eq!(
        conclude_read(Err("Corruption: block checksum mismatch".to_string())),
        OperationResult::Failure("Corruption: block checksum mismatch".to_string())
    );
}

#[test]
fn put_get_delete_get_as_the_engine_answers_them() {
    let opened: Result<u8, OpenError> = conclude_open(Ok(1u8));
    assert_eq!(opened, Ok(1u8));
    assert_eq!(lock_mode(Operation::Put), LockMode::Exclusive);
    assert_eq!(conclude_write(Ok(())), OperationResult::Success(None));
    assert_eq!(lock_mode(Operation::Get), LockMode::Shared);
    assert_eq!(
        conclude_read(Ok(Some(b"1".to_vec()))),
        OperationResult::Success(Some(b"1".to_vec()))
    );
    assert_eq!(lock_mode(Operation::Delete), LockMode::Exclusive);
    assert_eq!(conclude_write(Ok(())), OperationResult::Success(None));
    assert_eq!(conclude_read(Ok(None)), OperationResult::NotFound);
}

#[test]
fn writes_hold_the_guard_alone() {
    assert!(Operation::Put.writes());
    assert!(Operation::Delete.writes());
    assert!(!Operation::Get.writes());
    let all = [Operation::Put, Operation::Delete, Operation::Get];
    for a in all.iter() {
        for b in all.iter() {
            let together = may_overlap(lock_mode(*a), lock_mode(*b));
            assert_eq!(together, *a == Operation::Get && *b == Operation::Get);
        }
    }
}

#[test]
fn only_shared_holders_overlap() {
    assert!(may_overlap(LockMode::Shared, LockMode::Shared));
    assert!(!may_overlap(LockMode::Shared, LockMode::Exclusive));
    assert!(!may_overlap(LockMode::Exclusive, LockMode::Shared));
    assert!(!may_overlap(LockMode::Exclusive, LockMode::Exclusive));
}

#[test]
fn an_open_with_sound_options_gets_its_configuration() {
    let entries = vec![
        OptionEntry::atom("create_if_missing", "true"),
        OptionEntry::integer("set_write_buffer_size", 1 << 20),
    ];
    let mut expected = EngineConfig::new();
    expected.create_if_missing = Some(true);
    expected.write_buffer_size = Some(1 << 20);
    assert_eq!(prepare_open(&entries), Ok(expected));
    assert_eq!(prepare_open(&Vec::new()), Ok(EngineConfig::new()));
}

#[test]
fn an_open_with_a_value_of_the_wrong_type_fails_before_the_engine() {
    let entries = vec![
        OptionEntry::atom("create_if_missing", "true"),
        OptionEntry::atom("set_max_open_files", "many"),
    ];
    assert_eq!(
        prepare_open(&entries),
        Err(OpenError::Config(ConfigError { option: OptionKind::MaxOpenFiles }))
    );
    let entries = vec![OptionEntry::integer("create_if_missing", 1)];
    assert_eq!(
        prepare_open(&entries),
        Err(OpenError::Config(ConfigError { option: OptionKind::CreateIfMissing }))
    );
    let entries = vec![OptionEntry::new("set_compaction_style", OptionValue::Other)];
    assert_eq!(
        prepare_open(&entries),
        Err(OpenError::Config(ConfigError { option: OptionKind::CompactionStyle }))
    );
}

#[test]
fn an_open_with_an_unknown_option_is_the_open_without_it() {
    let plain = vec![OptionEntry::atom("create_if_missing", "true")];
    let with = vec![
        OptionEntry::integer("set_max_background_compactions", 2),
        OptionEntry::atom("create_if_missing", "true"),
        OptionEntry::new("anything", OptionValue::Other),
    ];
    assert_eq!(prepare_open(&with), prepare_open(&plain));
}

#[test]
fn an_engine_that_did_not_open_is_reported_in_its_own_words() {
    let words = "IO error: While lock file: /tmp/db/LOCK: Resource temporarily unavailable";
    let r: Result<u8, OpenError> = conclude_open(Err(words.to_string()));
    assert_eq!(r, Err(OpenError::Engine(words.to_string())));
    assert_eq!(OpenError::Engine(words.to_string()).reason(), words);
}

#[test]
fn an_option_fault_names_its_option() {
    let fault = ConfigError { option: OptionKind::MaxOpenFiles };
    assert_eq!(
        fault.message(),
        "invalid value for option set_max_open_files: expected a signed 32-bit integer"
    );
    assert_eq!(OpenError::Config(fault).reason(), fault.message());
    assert_eq!(
        ConfigError { option: OptionKind::CreateIfMissing }.message(),
        "invalid value for option create_if_missing: expected a flag"
    );
    assert_eq!(
        ConfigError { option: OptionKind::BytesPerSync }.message(),
        "invalid value for option set_bytes_per_sync: expected an unsigned 64-bit integer"
    );
    assert_eq!(
        ConfigError { option: OptionKind::PrefixLength }.message(),
        "invalid value for option prefix_length: expected an unsigned machine-word integer"
    );
    assert_eq!(
        ConfigError { option: OptionKind::CompactionStyle }.message(),
        "invalid value for option set_compaction_style: expected a compaction style"
    );
}

#[test]
fn shapes_in_words() {
    assert_eq!(Shape::Flag.phrase(), "a flag");
    assert_eq!(Shape::Int32.phrase(), "a signed 32-bit integer");
    assert_eq!(Shape::Uint64.phrase(), "an unsigned 64-bit integer");
    assert_eq!(Shape::Size.phrase(), "an unsigned machine-word integer");
    assert_eq!(Shape::Style.phrase(), "a compaction style");
}
