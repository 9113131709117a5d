use rocker::config::{translate, CompactionStyle, ConfigValue, EngineConfig};
use rocker::errors::RockerError;

fn entry(name: &str, value: ConfigValue) -> (String, ConfigValue) {
    (name.to_string(), value)
}

fn ok(options: Vec<(String, ConfigValue)>) -> EngineConfig {
    match translate(&options) {
        Ok(cfg) => cfg,
        Err(_) => panic!("translation was expected to succeed"),
    }
}

fn mismatch_key(options: Vec<(String, ConfigValue)>) -> String {
    match translate(&options) {
        Ok(_) => panic!("translation was expected to fail"),
        Err(RockerError::ConfigTypeMismatch(key)) => key,
        Err(_) => panic!("translation failure must be a type mismatch"),
    }
}

#[test]
fn empty_options_keep_every_default() {
    let cfg = ok(vec![]);
    assert_eq!(cfg, EngineConfig::default());
    assert!(!cfg.create_if_missing);
    assert_eq!(cfg.max_open_files, None);
    assert_eq!(cfg.compaction_style, None);
}

#[test]
fn recognized_options_are_applied() {
    let cfg = ok(vec![
        entry("create_if_missing", ConfigValue::Bool(true)),
        entry("set_use_fsync", ConfigValue::Bool(true)),
        entry("set_disable_auto_compactions", ConfigValue::Bool(true)),
        entry("set_max_open_files", ConfigValue::Int(1000)),
        entry("set_table_cache_num_shard_bits", ConfigValue::Int(4)),
        entry("set_max_write_buffer_number", ConfigValue::Int(3)),
        entry("set_min_write_buffer_number_to_merge", ConfigValue::Int(2)),
        entry("set_level_zero_stop_writes_trigger", ConfigValue::Int(24)),
        entry("set_level_zero_slowdown_writes_trigger", ConfigValue::Int(20)),
        entry("set_max_background_compactions", ConfigValue::Int(2)),
        entry("set_max_background_flushes", ConfigValue::Int(2)),
        entry("set_bytes_per_sync", ConfigValue::Int(1048576)),
        entry("optimize_for_point_lookup", ConfigValue::Int(64)),
        entry("set_target_file_size_base", ConfigValue::Int(67108864)),
        entry("set_write_buffer_size", ConfigValue::Int(33554432)),
        entry("set_compaction_style", ConfigValue::Text("level".to_string())),
    ]);
    assert!(cfg.create_if_missing);
    assert!(cfg.use_fsync);
    assert!(cfg.disable_auto_compactions);
    assert_eq!(cfg.max_open_files, Some(1000));
    assert_eq!(cfg.table_cache_num_shard_bits, Some(4));
    assert_eq!(cfg.max_write_buffer_number, Some(3));
    assert_eq!(cfg.min_write_buffer_number_to_merge, Some(2));
    assert_eq!(cfg.level_zero_stop_writes_trigger, Some(24));
    assert_eq!(cfg.level_zero_slowdown_writes_trigger, Some(20));
    assert_eq!(cfg.max_background_compactions, Some(2));
    assert_eq!(cfg.max_background_flushes, Some(2));
    assert_eq!(cfg.bytes_per_sync, Some(1048576));
    assert_eq!(cfg.point_lookup_block_cache_mb, Some(64));
    assert_eq!(cfg.target_file_size_base, Some(67108864));
    assert_eq!(cfg.write_buffer_size, Some(33554432));
    assert_eq!(cfg.compaction_style, Some(CompactionStyle::Level));
}

#[test]
fn unrecognized_key_is_ignored() {
    let cfg = ok(vec![
        entry("frobnicate_level", ConfigValue::Int(9)),
        entry("set_max_open_files", ConfigValue::Int(128)),
        entry("another_unknown", ConfigValue::Text("x".to_string())),
    ]);
    assert_eq!(cfg.max_open_files, Some(128));
    let rest = EngineConfig { max_open_files: None, ..cfg };
    assert_eq!(rest, EngineConfig::default());
}

#[test]
fn non_integer_for_integer_key_is_a_type_mismatch() {
    let key = mismatch_key(vec![entry(
        "set_max_open_files",
        ConfigValue::Text("not-a-number".to_string()),
    )]);
    assert_eq!(key, "set_max_open_files");
}

#[test]
fn false_flag_is_equivalent_to_omission() {
    let cfg = ok(vec![
        entry("create_if_missing", ConfigValue::Bool(false)),
        entry("set_use_fsync", ConfigValue::Bool(false)),
    ]);
    assert_eq!(cfg, EngineConfig::default());
}

#[test]
fn integer_for_flag_key_is_a_type_mismatch() {
    let key = mismatch_key(vec![entry("set_use_fsync", ConfigValue::Int(1))]);
    assert_eq!(key, "set_use_fsync");
}

#[test]
fn all_three_compaction_styles_are_accepted() {
    let level = ok(vec![entry(
        "set_compaction_style",
        ConfigValue::Text("level".to_string()),
    )]);
    assert_eq!(level.compaction_style, Some(CompactionStyle::Level));
    let universal = ok(vec![entry(
        "set_compaction_style",
        ConfigValue::Text("universal".to_string()),
    )]);
    assert_eq!(universal.compaction_style, Some(CompactionStyle::Universal));
    let fifo = ok(vec![entry(
        "set_compaction_style",
        ConfigValue::Text("fifo".to_string()),
    )]);
    assert_eq!(fifo.compaction_style, Some(CompactionStyle::Fifo));
}

#[test]
fn unknown_compaction_style_keeps_the_default() {
    let cfg = ok(vec![entry(
        "set_compaction_style",
        ConfigValue::Text("banana".to_string()),
    )]);
    assert_eq!(cfg.compaction_style, None);
}

#[test]
fn first_ill_typed_entry_decides_the_error() {
    let key = mismatch_key(vec![
        entry("set_bytes_per_sync", ConfigValue::Text("no".to_string())),
        entry("set_max_open_files", ConfigValue::Bool(true)),
    ]);
    assert_eq!(key, "set_bytes_per_sync");
}

#[test]
fn later_entry_for_the_same_key_wins() {
    let cfg = ok(vec![
        entry("set_max_open_files", ConfigValue::Int(10)),
        entry("set_max_open_files", ConfigValue::Int(20)),
    ]);
    assert_eq!(cfg.max_open_files, Some(20));
}

#[test]
fn out_of_range_integer_is_a_type_mismatch() {
    let key = mismatch_key(vec![entry(
        "set_max_open_files",
        ConfigValue::Int(1 << 40),
    )]);
    assert_eq!(key, "set_max_open_files");
    let key = mismatch_key(vec![entry("set_bytes_per_sync", ConfigValue::Int(-1))]);
    assert_eq!(key, "set_bytes_per_sync");
}

#[test]
fn version_identifier() {
    assert_eq!(rocker::lxcode(), "vn1");
}
