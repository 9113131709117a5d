//! The configuration translator: turns an open-ended mapping of named tuning
//! options into a validated engine configuration.
//!
//! Unrecognized option names are silently ignored (forward compatibility),
//! and an unrecognized compaction-style value leaves the engine default in
//! place. A recognized name whose value cannot be decoded to the expected
//! type fails fast with `ConfigTypeMismatch`, before any engine I/O.
//! Translation is a pure function of the input mapping: it touches no global
//! state and never the filesystem.

use vstd::prelude::*;

use crate::errors::RockerError;

verus! {

/// One option value: a boolean flag, an integer (wide enough to carry every
/// integer type an option expects), or an enumerated string.
pub enum ConfigValue {
    Bool(bool),
    Int(i128),
    Text(String),
}

/// The engine's strategy for merging on-disk data levels.
#[derive(Clone, Copy, Debug, PartialEq, Eq, Structural)]
pub enum CompactionStyle {
    Level,
    Universal,
    Fifo,
}

/// A fully formed engine configuration. A `None` (or `false` for a flag)
/// leaves the engine's built-in default in place.
#[derive(Clone, Copy, Debug, PartialEq, Eq)]
pub struct EngineConfig {
    pub create_if_missing: bool,
    pub use_fsync: bool,
    pub disable_auto_compactions: bool,
    pub max_open_files: Option<i32>,
    pub bytes_per_sync: Option<u64>,
    pub point_lookup_block_cache_mb: Option<u64>,
    pub table_cache_num_shard_bits: Option<i32>,
    pub max_write_buffer_number: Option<i32>,
    pub write_buffer_size: Option<usize>,
    pub target_file_size_base: Option<u64>,
    pub min_write_buffer_number_to_merge: Option<i32>,
    pub level_zero_stop_writes_trigger: Option<i32>,
    pub level_zero_slowdown_writes_trigger: Option<i32>,
    pub max_background_compactions: Option<i32>,
    pub max_background_flushes: Option<i32>,
    pub compaction_style: Option<CompactionStyle>,
}

/// The configuration that leaves every engine default untouched.
pub open spec fn default_engine_config() -> EngineConfig {
    EngineConfig {
        create_if_missing: false,
        use_fsync: false,
        disable_auto_compactions: false,
        max_open_files: None,
        bytes_per_sync: None,
        point_lookup_block_cache_mb: None,
        table_cache_num_shard_bits: None,
        max_write_buffer_number: None,
        write_buffer_size: None,
        target_file_size_base: None,
        min_write_buffer_number_to_merge: None,
        level_zero_stop_writes_trigger: None,
        level_zero_slowdown_writes_trigger: None,
        max_background_compactions: None,
        max_background_flushes: None,
        compaction_style: None,
    }
}

impl Default for EngineConfig {
    /// All engine defaults left in place.
    fn default() -> (r: Self)
        ensures
            r == default_engine_config(),
    {
        EngineConfig {
            create_if_missing: false,
            use_fsync: false,
            disable_auto_compactions: false,
            max_open_files: None,
            bytes_per_sync: None,
            point_lookup_block_cache_mb: None,
            table_cache_num_shard_bits: None,
            max_write_buffer_number: None,
            write_buffer_size: None,
            target_file_size_base: None,
            min_write_buffer_number_to_merge: None,
            level_zero_stop_writes_trigger: None,
            level_zero_slowdown_writes_trigger: None,
            max_background_compactions: None,
            max_background_flushes: None,
            compaction_style: None,
        }
    }
}

/// A boolean flag that is actually set: a false flag is equivalent to
/// omission, since the translator never explicitly disables a flag.
pub open spec fn flag_set(value: ConfigValue) -> bool {
    value matches ConfigValue::Bool(true)
}

pub open spec fn fits_i32(v: i128) -> bool {
    i32::MIN <= v <= i32::MAX
}

pub open spec fn fits_u64(v: i128) -> bool {
    0 <= v <= u64::MAX
}

pub open spec fn fits_usize(v: i128) -> bool {
    0 <= v <= usize::MAX
}

pub open spec fn int_fits_i32(value: ConfigValue) -> bool {
    value matches ConfigValue::Int(v) && fits_i32(v)
}

pub open spec fn int_fits_u64(value: ConfigValue) -> bool {
    value matches ConfigValue::Int(v) && fits_u64(v)
}

pub open spec fn int_fits_usize(value: ConfigValue) -> bool {
    value matches ConfigValue::Int(v) && fits_usize(v)
}

/// The accepted compaction-style names; any other name keeps the default.
pub open spec fn style_of(text: Seq<char>) -> Option<CompactionStyle> {
    if text == "level"@ {
        Some(CompactionStyle::Level)
    } else if text == "universal"@ {
        Some(CompactionStyle::Universal)
    } else if text == "fifo"@ {
        Some(CompactionStyle::Fifo)
    } else {
        None
    }
}

/// The fixed vocabulary of recognized option names.
pub open spec fn is_recognized_key(name: Seq<char>) -> bool {
    ||| name == "create_if_missing"@
    ||| name == "set_use_fsync"@
    ||| name == "set_disable_auto_compactions"@
    ||| name == "set_max_open_files"@
    ||| name == "set_table_cache_num_shard_bits"@
    ||| name == "set_max_write_buffer_number"@
    ||| name == "set_min_write_buffer_number_to_merge"@
    ||| name == "set_level_zero_stop_writes_trigger"@
    ||| name == "set_level_zero_slowdown_writes_trigger"@
    ||| name == "set_max_background_compactions"@
    ||| name == "set_max_background_flushes"@
    ||| name == "set_bytes_per_sync"@
    ||| name == "optimize_for_point_lookup"@
    ||| name == "set_target_file_size_base"@
    ||| name == "set_write_buffer_size"@
    ||| name == "set_compaction_style"@
}

/// Whether `value` decodes to the type that the option `name` expects. An
/// unrecognized name accepts any value, since the entry is ignored.
pub open spec fn entry_well_typed(name: Seq<char>, value: ConfigValue) -> bool {
    if name == "create_if_missing"@ {
        value is Bool
    } else if name == "set_use_fsync"@ {
        value is Bool
    } else if name == "set_disable_auto_compactions"@ {
        value is Bool
    } else if name == "set_max_open_files"@ {
        int_fits_i32(value)
    } else if name == "set_table_cache_num_shard_bits"@ {
        int_fits_i32(value)
    } else if name == "set_max_write_buffer_number"@ {
        int_fits_i32(value)
    } else if name == "set_min_write_buffer_number_to_merge"@ {
        int_fits_i32(value)
    } else if name == "set_level_zero_stop_writes_trigger"@ {
        int_fits_i32(value)
    } else if name == "set_level_zero_slowdown_writes_trigger"@ {
        int_fits_i32(value)
    } else if name == "set_max_background_compactions"@ {
        int_fits_i32(value)
    } else if name == "set_max_background_flushes"@ {
        int_fits_i32(value)
    } else if name == "set_bytes_per_sync"@ {
        int_fits_u64(value)
    } else if name == "optimize_for_point_lookup"@ {
        int_fits_u64(value)
    } else if name == "set_target_file_size_base"@ {
        int_fits_u64(value)
    } else if name == "set_write_buffer_size"@ {
        int_fits_usize(value)
    } else if name == "set_compaction_style"@ {
        value is Text
    } else {
        true
    }
}

/// The effect of one well-typed entry on a configuration.
pub open spec fn apply_entry(c: EngineConfig, name: Seq<char>, value: ConfigValue) -> EngineConfig
    recommends
        entry_well_typed(name, value),
{
    if name == "create_if_missing"@ {
        if flag_set(value) {
            EngineConfig { create_if_missing: true, ..c }
        } else {
            c
        }
    } else if name == "set_use_fsync"@ {
        if flag_set(value) {
            EngineConfig { use_fsync: true, ..c }
        } else {
            c
        }
    } else if name == "set_disable_auto_compactions"@ {
        if flag_set(value) {
            EngineConfig { disable_auto_compactions: true, ..c }
        } else {
            c
        }
    } else if name == "set_max_open_files"@ {
        EngineConfig { max_open_files: Some(value->Int_0 as i32), ..c }
    } else if name == "set_table_cache_num_shard_bits"@ {
        EngineConfig { table_cache_num_shard_bits: Some(value->Int_0 as i32), ..c }
    } else if name == "set_max_write_buffer_number"@ {
        EngineConfig { max_write_buffer_number: Some(value->Int_0 as i32), ..c }
    } else if name == "set_min_write_buffer_number_to_merge"@ {
        EngineConfig { min_write_buffer_number_to_merge: Some(value->Int_0 as i32), ..c }
    } else if name == "set_level_zero_stop_writes_trigger"@ {
        EngineConfig { level_zero_stop_writes_trigger: Some(value->Int_0 as i32), ..c }
    } else if name == "set_level_zero_slowdown_writes_trigger"@ {
        EngineConfig { level_zero_slowdown_writes_trigger: Some(value->Int_0 as i32), ..c }
    } else if name == "set_max_background_compactions"@ {
        EngineConfig { max_background_compactions: Some(value->Int_0 as i32), ..c }
    } else if name == "set_max_background_flushes"@ {
        EngineConfig { max_background_flushes: Some(value->Int_0 as i32), ..c }
    } else if name == "set_bytes_per_sync"@ {
        EngineConfig { bytes_per_sync: Some(value->Int_0 as u64), ..c }
    } else if name == "optimize_for_point_lookup"@ {
        EngineConfig { point_lookup_block_cache_mb: Some(value->Int_0 as u64), ..c }
    } else if name == "set_target_file_size_base"@ {
        EngineConfig { target_file_size_base: Some(value->Int_0 as u64), ..c }
    } else if name == "set_write_buffer_size"@ {
        EngineConfig { write_buffer_size: Some(value->Int_0 as usize), ..c }
    } else if name == "set_compaction_style"@ {
        match style_of(value->Text_0@) {
            Some(s) => EngineConfig { compaction_style: Some(s), ..c },
            None => c,
        }
    } else {
        c
    }
}

/// Translation of a whole option list, entry by entry in order, starting
/// from the all-defaults configuration. The result is the first recognized
/// but ill-typed option name, or the accumulated configuration.
pub open spec fn translate_spec(entries: Seq<(String, ConfigValue)>) -> Result<
    EngineConfig,
    Seq<char>,
>
    decreases entries.len(),
{
    if entries.len() == 0 {
        Ok(default_engine_config())
    } else {
        match translate_spec(entries.drop_last()) {
            Ok(c) => {
                let name = entries.last().0@;
                let value = entries.last().1;
                if entry_well_typed(name, value) {
                    Ok(apply_entry(c, name, value))
                } else {
                    Err(name)
                }
            },
            Err(e) => Err(e),
        }
    }
}

/// An ill-typed entry in a prefix decides the whole translation: everything
/// after the first failure is ignored.
pub proof fn lemma_translate_err_prefix(entries: Seq<(String, ConfigValue)>, j: int)
    requires
        0 <= j <= entries.len(),
        translate_spec(entries.subrange(0, j)) is Err,
    ensures
        translate_spec(entries) == translate_spec(entries.subrange(0, j)),
    decreases entries.len() - j,
{
    if j == entries.len() {
        assert(entries.subrange(0, j) =~= entries);
    } else {
        assert(entries.subrange(0, j + 1).drop_last() =~= entries.subrange(0, j));
        lemma_translate_err_prefix(entries, j + 1);
    }
}

/// Law: a configuration made only of unrecognized names never fails
/// translation; every entry is ignored and the defaults survive.
pub proof fn lemma_unrecognized_keys_harmless(entries: Seq<(String, ConfigValue)>)
    requires
        forall|i: int| 0 <= i < entries.len() ==> !is_recognized_key(#[trigger] entries[i].0@),
    ensures
        translate_spec(entries) == Ok::<EngineConfig, Seq<char>>(default_engine_config()),
    decreases entries.len(),
{
    if entries.len() > 0 {
        lemma_unrecognized_keys_harmless(entries.drop_last());
    }
}

/// Compares an option name against one of the recognized names.
fn key_is(name: &String, lit: &str) -> (r: bool)
    ensures
        r == (name@ == lit@),
{
    let owned: String = lit.to_owned();
    *name == owned
}

/// Decodes a value expected to be a 32-bit signed integer.
fn decode_i32(value: &ConfigValue) -> (r: Option<i32>)
    ensures
        r is Some <==> int_fits_i32(*value),
        r matches Some(x) ==> x == value->Int_0 as i32,
{
    match value {
        ConfigValue::Int(v) => {
            if i32::MIN as i128 <= *v && *v <= i32::MAX as i128 {
                Some(*v as i32)
            } else {
                None
            }
        },
        _ => None,
    }
}

/// Decodes a value expected to be a 64-bit unsigned integer.
fn decode_u64(value: &ConfigValue) -> (r: Option<u64>)
    ensures
        r is Some <==> int_fits_u64(*value),
        r matches Some(x) ==> x == value->Int_0 as u64,
{
    match value {
        ConfigValue::Int(v) => {
            if 0 <= *v && *v <= u64::MAX as i128 {
                Some(*v as u64)
            } else {
                None
            }
        },
        _ => None,
    }
}

/// Decodes a value expected to be a size in bytes.
fn decode_usize(value: &ConfigValue) -> (r: Option<usize>)
    ensures
        r is Some <==> int_fits_usize(*value),
        r matches Some(x) ==> x == value->Int_0 as usize,
{
    match value {
        ConfigValue::Int(v) => {
            if 0 <= *v && *v <= usize::MAX as i128 {
                Some(*v as usize)
            } else {
                None
            }
        },
        _ => None,
    }
}

/// Translates a list of named options into an engine configuration, or
/// reports the first recognized option whose value has the wrong type.
///
/// No filesystem access and no engine state is touched: the result is a
/// pure function of `options`.
pub fn translate(options: &Vec<(String, ConfigValue)>) -> (r: Result<EngineConfig, RockerError>)
    ensures
        r is Ok <==> translate_spec(options@) is Ok,
        r matches Ok(c) ==> translate_spec(options@) matches Ok(cs) && cs == c,
        r matches Err(e) ==> e matches RockerError::ConfigTypeMismatch(k)
            && translate_spec(options@) matches Err(n) && n == k@,
{
    let mut cfg = EngineConfig::default();
    let n: usize = options.len();
    let mut i: usize = 0;
    while i < n
        invariant
            n == options@.len(),
            i <= n,
            translate_spec(options@.subrange(0, i as int)) matches Ok(c) && c == cfg,
        decreases n - i,
    {
        proof {
            assert(options@.subrange(0, i + 1).drop_last() =~= options@.subrange(0, i as int));
        }
        let name: &String = &options[i].0;
        let value: &ConfigValue = &options[i].1;
        if key_is(name, "create_if_missing") {
            match value {
                ConfigValue::Bool(b) => {
                    if *b {
                        cfg.create_if_missing = true;
                    }
                },
                _ => {
                    return mismatch_at(options, i, name);
                },
            }
        } else if key_is(name, "set_use_fsync") {
            match value {
                ConfigValue::Bool(b) => {
                    if *b {
                        cfg.use_fsync = true;
                    }
                },
                _ => {
                    return mismatch_at(options, i, name);
                },
            }
        } else if key_is(name, "set_disable_auto_compactions") {
            match value {
                ConfigValue::Bool(b) => {
                    if *b {
                        cfg.disable_auto_compactions = true;
                    }
                },
                _ => {
                    return mismatch_at(options, i, name);
                },
            }
        } else if key_is(name, "set_max_open_files") {
            match decode_i32(value) {
                Some(x) => cfg.max_open_files = Some(x),
                None => {
                    return mismatch_at(options, i, name);
                },
            }
        } else if key_is(name, "set_table_cache_num_shard_bits") {
            match decode_i32(value) {
                Some(x) => cfg.table_cache_num_shard_bits = Some(x),
                None => {
                    return mismatch_at(options, i, name);
                },
            }
        } else if key_is(name, "set_max_write_buffer_number") {
            match decode_i32(value) {
                Some(x) => cfg.max_write_buffer_number = Some(x),
                None => {
                    return mismatch_at(options, i, name);
                },
            }
        } else if key_is(name, "set_min_write_buffer_number_to_merge") {
            match decode_i32(value) {
                Some(x) => cfg.min_write_buffer_number_to_merge = Some(x),
                None => {
                    return mismatch_at(options, i, name);
                },
            }
        } else if key_is(name, "set_level_zero_stop_writes_trigger") {
            match decode_i32(value) {
                Some(x) => cfg.level_zero_stop_writes_trigger = Some(x),
                None => {
                    return mismatch_at(options, i, name);
                },
            }
        } else if key_is(name, "set_level_zero_slowdown_writes_trigger") {
            match decode_i32(value) {
                Some(x) => cfg.level_zero_slowdown_writes_trigger = Some(x),
                None => {
                    return mismatch_at(options, i, name);
                },
            }
        } else if key_is(name, "set_max_background_compactions") {
            match decode_i32(value) {
                Some(x) => cfg.max_background_compactions = Some(x),
                None => {
                    return mismatch_at(options, i, name);
                },
            }
        } else if key_is(name, "set_max_background_flushes") {
            match decode_i32(value) {
                Some(x) => cfg.max_background_flushes = Some(x),
                None => {
                    return mismatch_at(options, i, name);
                },
            }
        } else if key_is(name, "set_bytes_per_sync") {
            match decode_u64(value) {
                Some(x) => cfg.bytes_per_sync = Some(x),
                None => {
                    return mismatch_at(options, i, name);
                },
            }
        } else if key_is(name, "optimize_for_point_lookup") {
            match decode_u64(value) {
                Some(x) => cfg.point_lookup_block_cache_mb = Some(x),
                None => {
                    return mismatch_at(options, i, name);
                },
            }
        } else if key_is(name, "set_target_file_size_base") {
            match decode_u64(value) {
                Some(x) => cfg.target_file_size_base = Some(x),
                None => {
                    return mismatch_at(options, i, name);
                },
            }
        } else if key_is(name, "set_write_buffer_size") {
            match decode_usize(value) {
                Some(x) => cfg.write_buffer_size = Some(x),
                None => {
                    return mismatch_at(options, i, name);
                },
            }
        } else if key_is(name, "set_compaction_style") {
            match value {
                ConfigValue::Text(t) => {
                    if key_is(t, "level") {
                        cfg.compaction_style = Some(CompactionStyle::Level);
                    } else if key_is(t, "universal") {
                        cfg.compaction_style = Some(CompactionStyle::Universal);
                    } else if key_is(t, "fifo") {
                        cfg.compaction_style = Some(CompactionStyle::Fifo);
                    }
                },
                _ => {
                    return mismatch_at(options, i, name);
                },
            }
        }
        i += 1;
    }
    proof {
        assert(options@.subrange(0, n as int) =~= options@);
    }
    Ok(cfg)
}

/// Reports the ill-typed entry at position `i` as the translation's result.
fn mismatch_at(options: &Vec<(String, ConfigValue)>, i: usize, name: &String) -> (r: Result<
    EngineConfig,
    RockerError,
>)
    requires
        i < options@.len(),
        name@ == options@[i as int].0@,
        translate_spec(options@.subrange(0, i + 1)) is Err,
        translate_spec(options@.subrange(0, i + 1)) == Err::<EngineConfig, Seq<char>>(name@),
    ensures
        r is Err,
        r matches Err(e) ==> e matches RockerError::ConfigTypeMismatch(k)
            && translate_spec(options@) matches Err(n) && n == k@,
{
    proof {
        lemma_translate_err_prefix(options@, i + 1);
    }
    Err(RockerError::ConfigTypeMismatch(name.clone()))
}

} // verus!
