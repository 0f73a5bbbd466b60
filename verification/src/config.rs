//! The configuration, read from the environment.
use vstd::prelude::*;
use vstd::string::*;

use crate::binary::Binary64;
use crate::decimal::{describe_signed, describe_unsigned, parse_i32, parse_unsigned};
use crate::text::{is_blank, same_text};

verus! {

/// Why there is no configuration.
#[derive(Debug)]
pub enum ConfigError {
    Missing(String),
    InvalidValue { key: String, value: String, reason: String },
}

/// Why there is no configuration, by the characters of its texts.
pub enum ConfigFault {
    Missing(Seq<char>),
    InvalidValue { key: Seq<char>, value: Seq<char>, reason: Seq<char> },
}

impl View for ConfigError {
    type V = ConfigFault;

    open spec fn view(&self) -> ConfigFault {
        match *self {
            ConfigError::Missing(key) => ConfigFault::Missing(key@),
            ConfigError::InvalidValue { key, value, reason } => ConfigFault::InvalidValue {
                key: key@,
                value: value@,
                reason: reason@,
            },
        }
    }
}

/// A variable of the environment. Its value comes with the number that it
/// stands for, or with the reason for which it stands for none.
#[derive(Debug)]
pub struct EnvVar {
    pub name: String,
    pub value: String,
    pub number: Result<Binary64, String>,
}

/// The variable of that name.
pub open spec fn var_of(vars: Seq<EnvVar>, name: Seq<char>) -> Option<EnvVar>
    decreases vars.len(),
{
    if vars.len() == 0 {
        None
    } else if vars[0].name@ == name {
        Some(vars[0])
    } else {
        var_of(vars.skip(1), name)
    }
}

/// The variable of that name.
fn var<'a>(vars: &'a Vec<EnvVar>, name: &str) -> (r: Option<&'a EnvVar>)
    ensures
        match r {
            Some(v) => var_of(vars@, name@) == Some(*v),
            None => var_of(vars@, name@) is None,
        },
{
    let mut i: usize = 0;
    assert(vars@.skip(0) =~= vars@);
    while i < vars.len()
        invariant
            i <= vars.len(),
            var_of(vars@, name@) == var_of(vars@.skip(i as int), name@),
        decreases vars.len() - i,
    {
        if same_text(vars[i].name.as_str(), name) {
            return Some(&vars[i]);
        }
        assert(vars@.skip(i as int).skip(1) =~= vars@.skip(i + 1));
        i = i + 1;
    }
    None
}

/// The value of that name.
pub open spec fn value_of(vars: Seq<EnvVar>, name: Seq<char>) -> Option<Seq<char>> {
    match var_of(vars, name) {
        Some(v) => Some(v.value@),
        None => None,
    }
}

/// A value, with one that is blank counted as none.
pub open spec fn unless_blank(v: Option<Seq<char>>) -> Option<Seq<char>> {
    match v {
        Some(s) => if crate::text::blank(s) {
            None
        } else {
            Some(s)
        },
        None => None,
    }
}

/// Drops a value that is empty or holds nothing but white space, so that a
/// variable set to nothing disables what it stands for.
pub fn non_empty(v: Option<String>) -> (r: Option<String>)
    ensures
        r == (match v {
            Some(s) => if crate::text::blank(s@) {
                None
            } else {
                Some(s)
            },
            None => None,
        }),
{
    match v {
        Some(s) => {
            if is_blank(s.as_str()) {
                None
            } else {
                Some(s)
            }
        },
        None => None,
    }
}

/// The value of that name.
fn optional(vars: &Vec<EnvVar>, name: &str) -> (r: Option<String>)
    ensures
        crate::text::text_of(r) == value_of(vars@, name@),
{
    match var(vars, name) {
        Some(v) => Some(v.value.clone()),
        None => None,
    }
}

/// The value of that name, where it is not blank.
fn optional_non_empty(vars: &Vec<EnvVar>, name: &str) -> (r: Option<String>)
    ensures
        crate::text::text_of(r) == unless_blank(value_of(vars@, name@)),
{
    non_empty(optional(vars, name))
}

/// What is wrong with a variable that must be there.
pub open spec fn required_fault(vars: Seq<EnvVar>, name: Seq<char>) -> Option<ConfigFault> {
    match var_of(vars, name) {
        Some(_) => None,
        None => Some(ConfigFault::Missing(name)),
    }
}

/// The value of a variable that must be there.
fn required(vars: &Vec<EnvVar>, name: &str) -> (r: Result<String, ConfigError>)
    ensures
        match r {
            Ok(s) => required_fault(vars@, name@) is None && value_of(vars@, name@) == Some(s@),
            Err(e) => required_fault(vars@, name@) == Some(e@),
        },
{
    match var(vars, name) {
        Some(v) => Ok(v.value.clone()),
        None => Err(ConfigError::Missing(name.to_owned())),
    }
}

/// The value of a variable, or a default.
pub open spec fn text_or(vars: Seq<EnvVar>, name: Seq<char>, default: Seq<char>) -> Seq<char> {
    match var_of(vars, name) {
        Some(v) => v.value@,
        None => default,
    }
}

/// The value of a variable, or a default.
fn read_text(vars: &Vec<EnvVar>, name: &str, default: &str) -> (r: String)
    ensures
        r@ == text_or(vars@, name@, default@),
{
    match var(vars, name) {
        Some(v) => v.value.clone(),
        None => default.to_owned(),
    }
}

/// What is wrong with a variable that must be `1` or `0`.
pub open spec fn flag_fault(vars: Seq<EnvVar>, name: Seq<char>) -> Option<ConfigFault> {
    match var_of(vars, name) {
        Some(v) => if v.value@ == "1"@ || v.value@ == "0"@ {
            None
        } else {
            Some(
                ConfigFault::InvalidValue {
                    key: name,
                    value: v.value@,
                    reason: "expected 1 or 0"@,
                },
            )
        },
        None => None,
    }
}

/// The flag that a variable stands for, or a default.
pub open spec fn flag_or(vars: Seq<EnvVar>, name: Seq<char>, default: bool) -> bool {
    match var_of(vars, name) {
        Some(v) => v.value@ == "1"@,
        None => default,
    }
}

/// Reads a flag.
fn parse_bool_env(vars: &Vec<EnvVar>, name: &str, default: bool) -> (r: Result<bool, ConfigError>)
    ensures
        match r {
            Ok(b) => flag_fault(vars@, name@) is None && b == flag_or(vars@, name@, default),
            Err(e) => flag_fault(vars@, name@) == Some(e@),
        },
{
    match var(vars, name) {
        Some(v) => {
            if same_text(v.value.as_str(), "1") {
                Ok(true)
            } else if same_text(v.value.as_str(), "0") {
                proof {
                    reveal_strlit("1");
                    reveal_strlit("0");
                    assert("1"@[0] == '1' && "0"@[0] == '0');
                }
                Ok(false)
            } else {
                Err(
                    ConfigError::InvalidValue {
                        key: name.to_owned(),
                        value: v.value.clone(),
                        reason: "expected 1 or 0".to_owned(),
                    },
                )
            }
        },
        None => Ok(default),
    }
}

/// What is wrong with a variable that must be a number.
pub open spec fn number_fault(vars: Seq<EnvVar>, name: Seq<char>) -> Option<ConfigFault> {
    match var_of(vars, name) {
        Some(v) => match v.number {
            Ok(_) => None,
            Err(reason) => Some(
                ConfigFault::InvalidValue { key: name, value: v.value@, reason: reason@ },
            ),
        },
        None => None,
    }
}

/// The number that a variable stands for, or the one with the bits `default`.
pub open spec fn number_or(vars: Seq<EnvVar>, name: Seq<char>, default: u64) -> Binary64 {
    match var_of(vars, name) {
        Some(v) => match v.number {
            Ok(x) => x,
            Err(_) => Binary64 { bits: default },
        },
        None => Binary64 { bits: default },
    }
}

/// Reads a number.
fn read_number(vars: &Vec<EnvVar>, name: &str, default: u64) -> (r: Result<Binary64, ConfigError>)
    ensures
        match r {
            Ok(x) => number_fault(vars@, name@) is None && x == number_or(vars@, name@, default),
            Err(e) => number_fault(vars@, name@) == Some(e@),
        },
{
    match var(vars, name) {
        Some(v) => match &v.number {
            Ok(x) => Ok(*x),
            Err(reason) => Err(
                ConfigError::InvalidValue {
                    key: name.to_owned(),
                    value: v.value.clone(),
                    reason: reason.clone(),
                },
            ),
        },
        None => Ok(Binary64 { bits: default }),
    }
}

/// What is wrong with a variable that must be an integer from 0 to `max`.
pub open spec fn unsigned_var_fault(
    vars: Seq<EnvVar>,
    name: Seq<char>,
    max: int,
) -> Option<ConfigFault> {
    match var_of(vars, name) {
        Some(v) => if crate::decimal::unsigned_value(v.value@, max) is Some {
            None
        } else {
            Some(
                ConfigFault::InvalidValue {
                    key: name,
                    value: v.value@,
                    reason: crate::decimal::unsigned_fault(v.value@, max).text(),
                },
            )
        },
        None => None,
    }
}

/// The integer that a variable stands for, or a default.
pub open spec fn unsigned_or(vars: Seq<EnvVar>, name: Seq<char>, max: int, default: int) -> int {
    match var_of(vars, name) {
        Some(v) => match crate::decimal::unsigned_value(v.value@, max) {
            Some(n) => n,
            None => default,
        },
        None => default,
    }
}

/// Reads an integer from 0 to `max`.
fn read_unsigned(vars: &Vec<EnvVar>, name: &str, max: u64, default: u64) -> (r: Result<
    u64,
    ConfigError,
>)
    requires
        default <= max,
    ensures
        match r {
            Ok(n) => unsigned_var_fault(vars@, name@, max as int) is None && n == unsigned_or(
                vars@,
                name@,
                max as int,
                default as int,
            ) && n <= max,
            Err(e) => unsigned_var_fault(vars@, name@, max as int) == Some(e@),
        },
{
    match var(vars, name) {
        Some(v) => match parse_unsigned(v.value.as_str(), max) {
            Some(n) => Ok(n),
            None => Err(
                ConfigError::InvalidValue {
                    key: name.to_owned(),
                    value: v.value.clone(),
                    reason: describe_unsigned(v.value.as_str(), max).message().to_owned(),
                },
            ),
        },
        None => Ok(default),
    }
}

/// What is wrong with a variable that must be an `i32`.
pub open spec fn signed_var_fault(vars: Seq<EnvVar>, name: Seq<char>) -> Option<ConfigFault> {
    match var_of(vars, name) {
        Some(v) => if crate::decimal::signed_value(v.value@, i32::MIN as int, i32::MAX as int)
            is Some {
            None
        } else {
            Some(
                ConfigFault::InvalidValue {
                    key: name,
                    value: v.value@,
                    reason: crate::decimal::signed_fault(
                        v.value@,
                        i32::MIN as int,
                        i32::MAX as int,
                    ).text(),
                },
            )
        },
        None => None,
    }
}

/// The `i32` that a variable stands for, or a default.
pub open spec fn signed_or(vars: Seq<EnvVar>, name: Seq<char>, default: int) -> int {
    match var_of(vars, name) {
        Some(v) => match crate::decimal::signed_value(v.value@, i32::MIN as int, i32::MAX as int) {
            Some(n) => n,
            None => default,
        },
        None => default,
    }
}

/// Reads an `i32`.
fn read_signed(vars: &Vec<EnvVar>, name: &str, default: i32) -> (r: Result<i32, ConfigError>)
    ensures
        match r {
            Ok(n) => signed_var_fault(vars@, name@) is None && n == signed_or(
                vars@,
                name@,
                default as int,
            ),
            Err(e) => signed_var_fault(vars@, name@) == Some(e@),
        },
{
    match var(vars, name) {
        Some(v) => match parse_i32(v.value.as_str()) {
            Some(n) => Ok(n),
            None => Err(
                ConfigError::InvalidValue {
                    key: name.to_owned(),
                    value: v.value.clone(),
                    reason: describe_signed(
                        v.value.as_str(),
                        0x8000_0000,
                        0x7fff_ffff,
                    ).message().to_owned(),
                },
            ),
        },
        None => Ok(default),
    }
}

/// The configuration.
#[derive(Debug)]
pub struct AppConfig {
    pub jellyfin_url: String,
    pub jellyfin_api_key: String,
    pub database_url: String,
    pub auto_migrate: bool,
    pub min_size_per_hour_gb: Binary64,
    pub min_bpp: Binary64,
    pub min_bpp_hevc: Binary64,
    pub min_compression_potential: Binary64,
    pub mqtt_host: String,
    pub mqtt_port: u16,
    pub mqtt_client_id: String,
    pub mqtt_username: Option<String>,
    pub mqtt_password: Option<String>,
    pub approval_max_pending: usize,
    pub transcode_tmp_dir: String,
    pub transcode_retention_dir: String,
    pub transcode_encoder_override: String,
    pub transcode_min_size_reduction: Binary64,
    pub transcode_retention_days: i32,
    /// The least score that is accepted; 0 only measures.
    pub min_vmaf: Binary64,
    pub vmaf_n_subsample: u32,
    pub vmaf_n_threads: usize,
    pub backfill_vmaf: bool,
    pub requeue_quality_skips: bool,
    /// The seconds between two syncs; 0 leaves only those at the start and on
    /// demand.
    pub sync_interval_secs: u64,
    /// The seconds that a sync on demand waits for further demands.
    pub sync_debounce_secs: u64,
    /// Where the HTTP server listens; without it there is none.
    pub http_bind: Option<String>,
    /// The secret that a webhook call must carry; without it there is no
    /// webhook.
    pub webhook_token: Option<String>,
    /// The secret for the actions of the user interface; without it there are
    /// none.
    pub ui_control_token: Option<String>,
    pub radarr_url: Option<String>,
    pub radarr_api_key: Option<String>,
    pub sonarr_url: Option<String>,
    pub sonarr_api_key: Option<String>,
}

/// The first of two faults.
pub open spec fn first_of(a: Option<ConfigFault>, b: Option<ConfigFault>) -> Option<ConfigFault> {
    match a {
        Some(_) => a,
        None => b,
    }
}

/// The first thing that is wrong with the environment, in the order in which
/// the variables are read.
pub open spec fn config_fault(vars: Seq<EnvVar>) -> Option<ConfigFault> {
    first_of(
        required_fault(vars, "JELLYFIN_URL"@),
        first_of(
            required_fault(vars, "JELLYFIN_API_KEY"@),
            first_of(
                required_fault(vars, "DATABASE_URL"@),
                first_of(
                    flag_fault(vars, "AUTO_MIGRATE"@),
                    first_of(
                        number_fault(vars, "MIN_ANALYSIS_SIZE_PER_HOUR_GB"@),
                        first_of(
                            number_fault(vars, "MIN_ANALYSIS_BPP"@),
                            first_of(
                                number_fault(vars, "MIN_ANALYSIS_BPP_HEVC"@),
                                first_of(
                                    number_fault(vars, "MIN_COMPRESSION_POTENTIAL"@),
                                    later_fault(vars),
                                ),
                            ),
                        ),
                    ),
                ),
            ),
        ),
    )
}

/// The first thing that is wrong with the variables from the broker's on.
pub open spec fn later_fault(vars: Seq<EnvVar>) -> Option<ConfigFault> {
    first_of(
        required_fault(vars, "MQTT_HOST"@),
        first_of(
            unsigned_var_fault(vars, "MQTT_PORT"@, u16::MAX as int),
            first_of(
                unsigned_var_fault(vars, "APPROVAL_MAX_PENDING"@, usize::MAX as int),
                first_of(
                    required_fault(vars, "TRANSCODE_TMP_DIR"@),
                    first_of(
                        required_fault(vars, "TRANSCODE_RETENTION_DIR"@),
                        first_of(
                            number_fault(vars, "TRANSCODE_MIN_SIZE_REDUCTION"@),
                            first_of(
                                signed_var_fault(vars, "TRANSCODE_RETENTION_DAYS"@),
                                last_fault(vars),
                            ),
                        ),
                    ),
                ),
            ),
        ),
    )
}

/// The first thing that is wrong with the variables from the quality's on.
pub open spec fn last_fault(vars: Seq<EnvVar>) -> Option<ConfigFault> {
    first_of(
        number_fault(vars, "MIN_VMAF"@),
        first_of(
            unsigned_var_fault(vars, "VMAF_N_SUBSAMPLE"@, u32::MAX as int),
            first_of(
                unsigned_var_fault(vars, "VMAF_N_THREADS"@, usize::MAX as int),
                first_of(
                    flag_fault(vars, "BACKFILL_VMAF"@),
                    first_of(
                        flag_fault(vars, "REQUEUE_QUALITY_SKIPS"@),
                        first_of(
                            unsigned_var_fault(vars, "SYNC_INTERVAL_SECS"@, u64::MAX as int),
                            unsigned_var_fault(vars, "SYNC_DEBOUNCE_SECS"@, u64::MAX as int),
                        ),
                    ),
                ),
            ),
        ),
    )
}

/// Whether a configuration is the one that the environment holds.
pub open spec fn is_config(c: AppConfig, vars: Seq<EnvVar>) -> bool {
    &&& value_of(vars, "JELLYFIN_URL"@) == Some(c.jellyfin_url@)
    &&& value_of(vars, "JELLYFIN_API_KEY"@) == Some(c.jellyfin_api_key@)
    &&& value_of(vars, "DATABASE_URL"@) == Some(c.database_url@)
    &&& c.auto_migrate == flag_or(vars, "AUTO_MIGRATE"@, false)
    &&& c.min_size_per_hour_gb == number_or(
        vars,
        "MIN_ANALYSIS_SIZE_PER_HOUR_GB"@,
        0x4000_0000_0000_0000,
    )
    &&& c.min_bpp == number_or(vars, "MIN_ANALYSIS_BPP"@, 0x3fa4_7ae1_47ae_147b)
    &&& c.min_bpp_hevc == number_or(vars, "MIN_ANALYSIS_BPP_HEVC"@, 0x3fc3_3333_3333_3333)
    &&& c.min_compression_potential == number_or(
        vars,
        "MIN_COMPRESSION_POTENTIAL"@,
        0x3ff0_0000_0000_0000,
    )
    &&& value_of(vars, "MQTT_HOST"@) == Some(c.mqtt_host@)
    &&& c.mqtt_port == unsigned_or(vars, "MQTT_PORT"@, u16::MAX as int, 1883)
    &&& c.mqtt_client_id@ == text_or(vars, "MQTT_CLIENT_ID"@, "rankoder"@)
    &&& crate::text::text_of(c.mqtt_username) == unless_blank(value_of(vars, "MQTT_USERNAME"@))
    &&& crate::text::text_of(c.mqtt_password) == unless_blank(value_of(vars, "MQTT_PASSWORD"@))
    &&& c.approval_max_pending == unsigned_or(
        vars,
        "APPROVAL_MAX_PENDING"@,
        usize::MAX as int,
        2,
    )
    &&& value_of(vars, "TRANSCODE_TMP_DIR"@) == Some(c.transcode_tmp_dir@)
    &&& value_of(vars, "TRANSCODE_RETENTION_DIR"@) == Some(c.transcode_retention_dir@)
    &&& c.transcode_encoder_override@ == text_or(vars, "TRANSCODE_ENCODER"@, "auto"@)
    &&& c.transcode_min_size_reduction == number_or(
        vars,
        "TRANSCODE_MIN_SIZE_REDUCTION"@,
        0x3fb9_9999_9999_999a,
    )
    &&& c.transcode_retention_days == signed_or(vars, "TRANSCODE_RETENTION_DAYS"@, 7)
    &&& c.min_vmaf == number_or(vars, "MIN_VMAF"@, 0)
    &&& c.vmaf_n_subsample == unsigned_or(vars, "VMAF_N_SUBSAMPLE"@, u32::MAX as int, 5)
    &&& c.vmaf_n_threads == unsigned_or(vars, "VMAF_N_THREADS"@, usize::MAX as int, 6)
    &&& c.backfill_vmaf == flag_or(vars, "BACKFILL_VMAF"@, false)
    &&& c.requeue_quality_skips == flag_or(vars, "REQUEUE_QUALITY_SKIPS"@, false)
    &&& c.sync_interval_secs == unsigned_or(vars, "SYNC_INTERVAL_SECS"@, u64::MAX as int, 3600)
    &&& c.sync_debounce_secs == unsigned_or(vars, "SYNC_DEBOUNCE_SECS"@, u64::MAX as int, 15)
    &&& crate::text::text_of(c.http_bind) == unless_blank(value_of(vars, "HTTP_BIND"@))
    &&& crate::text::text_of(c.webhook_token) == unless_blank(value_of(vars, "WEBHOOK_TOKEN"@))
    &&& crate::text::text_of(c.ui_control_token) == unless_blank(
        value_of(vars, "UI_CONTROL_TOKEN"@),
    )
    &&& crate::text::text_of(c.radarr_url) == value_of(vars, "RADARR_URL"@)
    &&& crate::text::text_of(c.radarr_api_key) == value_of(vars, "RADARR_API_KEY"@)
    &&& crate::text::text_of(c.sonarr_url) == value_of(vars, "SONARR_URL"@)
    &&& crate::text::text_of(c.sonarr_api_key) == value_of(vars, "SONARR_API_KEY"@)
}

impl AppConfig {
    /// Reads the configuration.
    pub fn from_env(vars: &Vec<EnvVar>) -> (r: Result<Self, ConfigError>)
        ensures
            match r {
                Ok(c) => config_fault(vars@) is None && is_config(c, vars@),
                Err(e) => config_fault(vars@) == Some(e@),
            },
    {
        let jellyfin_url = match required(vars, "JELLYFIN_URL") {
            Ok(x) => x,
            Err(e) => return Err(e),
        };
        let jellyfin_api_key = match required(vars, "JELLYFIN_API_KEY") {
            Ok(x) => x,
            Err(e) => return Err(e),
        };
        let database_url = match required(vars, "DATABASE_URL") {
            Ok(x) => x,
            Err(e) => return Err(e),
        };
        let auto_migrate = match parse_bool_env(vars, "AUTO_MIGRATE", false) {
            Ok(x) => x,
            Err(e) => return Err(e),
        };
        let min_size_per_hour_gb = match read_number(
            vars,
            "MIN_ANALYSIS_SIZE_PER_HOUR_GB",
            0x4000_0000_0000_0000,
        ) {
            Ok(x) => x,
            Err(e) => return Err(e),
        };
        let min_bpp = match read_number(vars, "MIN_ANALYSIS_BPP", 0x3fa4_7ae1_47ae_147b) {
            Ok(x) => x,
            Err(e) => return Err(e),
        };
        let min_bpp_hevc = match read_number(
            vars,
            "MIN_ANALYSIS_BPP_HEVC",
            0x3fc3_3333_3333_3333,
        ) {
            Ok(x) => x,
            Err(e) => return Err(e),
        };
        let min_compression_potential = match read_number(
            vars,
            "MIN_COMPRESSION_POTENTIAL",
            0x3ff0_0000_0000_0000,
        ) {
            Ok(x) => x,
            Err(e) => return Err(e),
        };
        let mqtt_host = match required(vars, "MQTT_HOST") {
            Ok(x) => x,
            Err(e) => return Err(e),
        };
        let mqtt_port: u16 = match read_unsigned(vars, "MQTT_PORT", u16::MAX as u64, 1883) {
            Ok(x) => x as u16,
            Err(e) => return Err(e),
        };
        let approval_max_pending: usize = match read_unsigned(
            vars,
            "APPROVAL_MAX_PENDING",
            usize::MAX as u64,
            2,
        ) {
            Ok(x) => x as usize,
            Err(e) => return Err(e),
        };
        let transcode_tmp_dir = match required(vars, "TRANSCODE_TMP_DIR") {
            Ok(x) => x,
            Err(e) => return Err(e),
        };
        let transcode_retention_dir = match required(vars, "TRANSCODE_RETENTION_DIR") {
            Ok(x) => x,
            Err(e) => return Err(e),
        };
        let transcode_min_size_reduction = match read_number(
            vars,
            "TRANSCODE_MIN_SIZE_REDUCTION",
            0x3fb9_9999_9999_999a,
        ) {
            Ok(x) => x,
            Err(e) => return Err(e),
        };
        let transcode_retention_days: i32 = match read_signed(
            vars,
            "TRANSCODE_RETENTION_DAYS",
            7,
        ) {
            Ok(x) => x,
            Err(e) => return Err(e),
        };
        let min_vmaf = match read_number(vars, "MIN_VMAF", 0) {
            Ok(x) => x,
            Err(e) => return Err(e),
        };
        let vmaf_n_subsample: u32 = match read_unsigned(
            vars,
            "VMAF_N_SUBSAMPLE",
            u32::MAX as u64,
            5,
        ) {
            Ok(x) => x as u32,
            Err(e) => return Err(e),
        };
        let vmaf_n_threads: usize = match read_unsigned(
            vars,
            "VMAF_N_THREADS",
            usize::MAX as u64,
            6,
        ) {
            Ok(x) => x as usize,
            Err(e) => return Err(e),
        };
        let backfill_vmaf = match parse_bool_env(vars, "BACKFILL_VMAF", false) {
            Ok(x) => x,
            Err(e) => return Err(e),
        };
        let requeue_quality_skips = match parse_bool_env(vars, "REQUEUE_QUALITY_SKIPS", false) {
            Ok(x) => x,
            Err(e) => return Err(e),
        };
        let sync_interval_secs: u64 = match read_unsigned(
            vars,
            "SYNC_INTERVAL_SECS",
            u64::MAX,
            3600,
        ) {
            Ok(x) => x,
            Err(e) => return Err(e),
        };
        let sync_debounce_secs: u64 = match read_unsigned(
            vars,
            "SYNC_DEBOUNCE_SECS",
            u64::MAX,
            15,
        ) {
            Ok(x) => x,
            Err(e) => return Err(e),
        };
        Ok(
            AppConfig {
                jellyfin_url,
                jellyfin_api_key,
                database_url,
                auto_migrate,
                min_size_per_hour_gb,
                min_bpp,
                min_bpp_hevc,
                min_compression_potential,
                mqtt_host,
                mqtt_port,
                mqtt_client_id: read_text(vars, "MQTT_CLIENT_ID", "rankoder"),
                mqtt_username: optional_non_empty(vars, "MQTT_USERNAME"),
                mqtt_password: optional_non_empty(vars, "MQTT_PASSWORD"),
                approval_max_pending,
                transcode_tmp_dir,
                transcode_retention_dir,
                transcode_encoder_override: read_text(vars, "TRANSCODE_ENCODER", "auto"),
                transcode_min_size_reduction,
                transcode_retention_days,
                min_vmaf,
                vmaf_n_subsample,
                vmaf_n_threads,
                backfill_vmaf,
                requeue_quality_skips,
                sync_interval_secs,
                sync_debounce_secs,
                http_bind: optional_non_empty(vars, "HTTP_BIND"),
                webhook_token: optional_non_empty(vars, "WEBHOOK_TOKEN"),
                ui_control_token: optional_non_empty(vars, "UI_CONTROL_TOKEN"),
                radarr_url: optional(vars, "RADARR_URL"),
                radarr_api_key: optional(vars, "RADARR_API_KEY"),
                sonarr_url: optional(vars, "SONARR_URL"),
                sonarr_api_key: optional(vars, "SONARR_API_KEY"),
            },
        )
    }
}

/// Whether a variable is the first of its name.
pub open spec fn stands_first(vars: Seq<EnvVar>, name: Seq<char>, i: int) -> bool {
    &&& 0 <= i < vars.len()
    &&& vars[i].name@ == name
    &&& forall|j: int| 0 <= j < i ==> (#[trigger] vars[j]).name@ != name
}

/// Whether there is no variable of that name.
pub open spec fn is_unset(vars: Seq<EnvVar>, name: Seq<char>) -> bool {
    forall|j: int| 0 <= j < vars.len() ==> (#[trigger] vars[j]).name@ != name
}

/// Whether a variable is set to something other than `1` and `0`.
pub open spec fn is_no_flag(vars: Seq<EnvVar>, name: Seq<char>) -> bool {
    exists|i: int| #[trigger]
        stands_first(vars, name, i) && vars[i].value@ != "1"@ && vars[i].value@ != "0"@
}

/// Whether a variable is set to something that stands for no number.
pub open spec fn is_no_number(vars: Seq<EnvVar>, name: Seq<char>) -> bool {
    exists|i: int| #[trigger] stands_first(vars, name, i) && vars[i].number is Err
}

/// Whether a variable is set to something that is no integer from 0 to a
/// greatest.
pub open spec fn is_no_unsigned(vars: Seq<EnvVar>, name: Seq<char>, max: int) -> bool {
    exists|i: int| #[trigger]
        stands_first(vars, name, i) && crate::decimal::unsigned_value(vars[i].value@, max) is None
}

/// Whether a variable is set to something that is no integer of 32 bits.
pub open spec fn is_no_signed(vars: Seq<EnvVar>, name: Seq<char>) -> bool {
    exists|i: int| #[trigger]
        stands_first(vars, name, i) && crate::decimal::signed_value(
            vars[i].value@,
            i32::MIN as int,
            i32::MAX as int,
        ) is None
}

/// Whether a text holds nothing but white space.
pub open spec fn is_all_blank(s: Seq<char>) -> bool {
    forall|k: int| 0 <= k < s.len() ==> crate::text::is_white_space(#[trigger] s[k])
}

/// The variable of a name is the first that has it.
proof fn lemma_var_of(vars: Seq<EnvVar>, name: Seq<char>, i: int)
    ensures
        is_unset(vars, name) <==> var_of(vars, name) is None,
        stands_first(vars, name, i) ==> var_of(vars, name) == Some(vars[i]),
        var_of(vars, name) is Some ==> exists|k: int| #[trigger]
            stands_first(vars, name, k) && var_of(vars, name) == Some(vars[k]),
    decreases vars.len(),
{
    if vars.len() > 0 {
        if vars[0].name@ == name {
            assert(stands_first(vars, name, 0));
        } else {
            let rest = vars.skip(1);
            lemma_var_of(rest, name, i - 1);
            assert(forall|j: int| 0 <= j < rest.len() ==> rest[j] == #[trigger] vars[j + 1]);
            assert(forall|j: int| 1 <= j < vars.len() ==> #[trigger] vars[j] == rest[j - 1]);
            if stands_first(vars, name, i) {
                assert(stands_first(rest, name, i - 1));
            }
            if var_of(vars, name) is Some {
                let k = choose|k: int| #[trigger]
                    stands_first(rest, name, k) && var_of(rest, name) == Some(rest[k]);
                assert(stands_first(vars, name, k + 1));
            }
        }
    }
}

/// A value counts as none exactly where it holds nothing but white space.
pub proof fn law_blank_values(s: String, r: Option<String>, none: Option<String>)
    requires
        call_ensures(non_empty, (Some(s),), r),
        call_ensures(non_empty, (None,), none),
    ensures
        none is None,
        r is None <==> is_all_blank(s@),
        r matches Some(t) ==> t == s,
{
}

/// What the configuration has of the environment: each setting is that of the
/// first variable of its own name, and has its default where there is none.
pub proof fn law_settings(vars: Vec<EnvVar>, c: AppConfig, i: int)
    requires
        call_ensures(AppConfig::from_env, (&vars,), Ok(c)),
    ensures
        stands_first(vars@, "JELLYFIN_URL"@, i) ==> c.jellyfin_url@ == vars@[i].value@,
        stands_first(vars@, "JELLYFIN_API_KEY"@, i) ==> c.jellyfin_api_key@ == vars@[i].value@,
        stands_first(vars@, "DATABASE_URL"@, i) ==> c.database_url@ == vars@[i].value@,
        stands_first(vars@, "AUTO_MIGRATE"@, i) ==> (c.auto_migrate <==> vars@[i].value@ == "1"@),
        is_unset(vars@, "AUTO_MIGRATE"@) ==> !c.auto_migrate,
        stands_first(vars@, "MIN_ANALYSIS_SIZE_PER_HOUR_GB"@, i) ==> vars@[i].number == Ok::<Binary64, String>(c.min_size_per_hour_gb),
        is_unset(vars@, "MIN_ANALYSIS_SIZE_PER_HOUR_GB"@) ==> c.min_size_per_hour_gb.bits == 0x4000_0000_0000_0000,
        stands_first(vars@, "MIN_ANALYSIS_BPP"@, i) ==> vars@[i].number == Ok::<Binary64, String>(c.min_bpp),
        is_unset(vars@, "MIN_ANALYSIS_BPP"@) ==> c.min_bpp.bits == 0x3fa4_7ae1_47ae_147b,
        stands_first(vars@, "MIN_ANALYSIS_BPP_HEVC"@, i) ==> vars@[i].number == Ok::<Binary64, String>(c.min_bpp_hevc),
        is_unset(vars@, "MIN_ANALYSIS_BPP_HEVC"@) ==> c.min_bpp_hevc.bits == 0x3fc3_3333_3333_3333,
        stands_first(vars@, "MIN_COMPRESSION_POTENTIAL"@, i) ==> vars@[i].number == Ok::<Binary64, String>(c.min_compression_potential),
        is_unset(vars@, "MIN_COMPRESSION_POTENTIAL"@) ==> c.min_compression_potential.bits == 0x3ff0_0000_0000_0000,
        stands_first(vars@, "MQTT_HOST"@, i) ==> c.mqtt_host@ == vars@[i].value@,
        stands_first(vars@, "MQTT_PORT"@, i) ==> crate::decimal::unsigned_value(
            vars@[i].value@,
            u16::MAX as int,
        ) == Some(c.mqtt_port as int),
        is_unset(vars@, "MQTT_PORT"@) ==> c.mqtt_port == 1883,
        stands_first(vars@, "APPROVAL_MAX_PENDING"@, i) ==> crate::decimal::unsigned_value(
            vars@[i].value@,
            usize::MAX as int,
        ) == Some(c.approval_max_pending as int),
        is_unset(vars@, "APPROVAL_MAX_PENDING"@) ==> c.approval_max_pending == 2,
        stands_first(vars@, "TRANSCODE_TMP_DIR"@, i) ==> c.transcode_tmp_dir@ == vars@[i].value@,
        stands_first(vars@, "TRANSCODE_RETENTION_DIR"@, i) ==> c.transcode_retention_dir@ == vars@[i].value@,
        stands_first(vars@, "TRANSCODE_MIN_SIZE_REDUCTION"@, i) ==> vars@[i].number == Ok::<Binary64, String>(c.transcode_min_size_reduction),
        is_unset(vars@, "TRANSCODE_MIN_SIZE_REDUCTION"@) ==> c.transcode_min_size_reduction.bits == 0x3fb9_9999_9999_999a,
        stands_first(vars@, "TRANSCODE_RETENTION_DAYS"@, i) ==> crate::decimal::signed_value(
            vars@[i].value@,
            i32::MIN as int,
            i32::MAX as int,
        ) == Some(c.transcode_retention_days as int),
        is_unset(vars@, "TRANSCODE_RETENTION_DAYS"@) ==> c.transcode_retention_days == 7,
        stands_first(vars@, "MIN_VMAF"@, i) ==> vars@[i].number == Ok::<Binary64, String>(c.min_vmaf),
        is_unset(vars@, "MIN_VMAF"@) ==> c.min_vmaf.bits == 0,
        stands_first(vars@, "VMAF_N_SUBSAMPLE"@, i) ==> crate::decimal::unsigned_value(
            vars@[i].value@,
            u32::MAX as int,
        ) == Some(c.vmaf_n_subsample as int),
        is_unset(vars@, "VMAF_N_SUBSAMPLE"@) ==> c.vmaf_n_subsample == 5,
        stands_first(vars@, "VMAF_N_THREADS"@, i) ==> crate::decimal::unsigned_value(
            vars@[i].value@,
            usize::MAX as int,
        ) == Some(c.vmaf_n_threads as int),
        is_unset(vars@, "VMAF_N_THREADS"@) ==> c.vmaf_n_threads == 6,
        stands_first(vars@, "BACKFILL_VMAF"@, i) ==> (c.backfill_vmaf <==> vars@[i].value@ == "1"@),
        is_unset(vars@, "BACKFILL_VMAF"@) ==> !c.backfill_vmaf,
        stands_first(vars@, "REQUEUE_QUALITY_SKIPS"@, i) ==> (c.requeue_quality_skips <==> vars@[i].value@ == "1"@),
        is_unset(vars@, "REQUEUE_QUALITY_SKIPS"@) ==> !c.requeue_quality_skips,
        stands_first(vars@, "SYNC_INTERVAL_SECS"@, i) ==> crate::decimal::unsigned_value(
            vars@[i].value@,
            u64::MAX as int,
        ) == Some(c.sync_interval_secs as int),
        is_unset(vars@, "SYNC_INTERVAL_SECS"@) ==> c.sync_interval_secs == 3600,
        stands_first(vars@, "SYNC_DEBOUNCE_SECS"@, i) ==> crate::decimal::unsigned_value(
            vars@[i].value@,
            u64::MAX as int,
        ) == Some(c.sync_debounce_secs as int),
        is_unset(vars@, "SYNC_DEBOUNCE_SECS"@) ==> c.sync_debounce_secs == 15,
{
    lemma_var_of(vars@, "JELLYFIN_URL"@, i);
    lemma_var_of(vars@, "JELLYFIN_API_KEY"@, i);
    lemma_var_of(vars@, "DATABASE_URL"@, i);
    lemma_var_of(vars@, "AUTO_MIGRATE"@, i);
    lemma_var_of(vars@, "MIN_ANALYSIS_SIZE_PER_HOUR_GB"@, i);
    lemma_var_of(vars@, "MIN_ANALYSIS_BPP"@, i);
    lemma_var_of(vars@, "MIN_ANALYSIS_BPP_HEVC"@, i);
    lemma_var_of(vars@, "MIN_COMPRESSION_POTENTIAL"@, i);
    lemma_var_of(vars@, "MQTT_HOST"@, i);
    lemma_var_of(vars@, "MQTT_PORT"@, i);
    lemma_var_of(vars@, "APPROVAL_MAX_PENDING"@, i);
    lemma_var_of(vars@, "TRANSCODE_TMP_DIR"@, i);
    lemma_var_of(vars@, "TRANSCODE_RETENTION_DIR"@, i);
    lemma_var_of(vars@, "TRANSCODE_MIN_SIZE_REDUCTION"@, i);
    lemma_var_of(vars@, "TRANSCODE_RETENTION_DAYS"@, i);
    lemma_var_of(vars@, "MIN_VMAF"@, i);
    lemma_var_of(vars@, "VMAF_N_SUBSAMPLE"@, i);
    lemma_var_of(vars@, "VMAF_N_THREADS"@, i);
    lemma_var_of(vars@, "BACKFILL_VMAF"@, i);
    lemma_var_of(vars@, "REQUEUE_QUALITY_SKIPS"@, i);
    lemma_var_of(vars@, "SYNC_INTERVAL_SECS"@, i);
    lemma_var_of(vars@, "SYNC_DEBOUNCE_SECS"@, i);
}

/// What the configuration has of the variables that need not be there: names
/// with a default, values that count as none where they are blank, and the
/// addresses and keys of the media managers as they are.
pub proof fn law_optional_settings(vars: Vec<EnvVar>, c: AppConfig, i: int)
    requires
        call_ensures(AppConfig::from_env, (&vars,), Ok(c)),
    ensures
        stands_first(vars@, "MQTT_CLIENT_ID"@, i) ==> c.mqtt_client_id@ == vars@[i].value@,
        is_unset(vars@, "MQTT_CLIENT_ID"@) ==> c.mqtt_client_id@ == "rankoder"@,
        stands_first(vars@, "TRANSCODE_ENCODER"@, i) ==> c.transcode_encoder_override@ == vars@[i].value@,
        is_unset(vars@, "TRANSCODE_ENCODER"@) ==> c.transcode_encoder_override@ == "auto"@,
        is_unset(vars@, "MQTT_USERNAME"@) ==> c.mqtt_username is None,
        stands_first(vars@, "MQTT_USERNAME"@, i) ==> (c.mqtt_username is None <==> is_all_blank(vars@[i].value@)) && (
        c.mqtt_username is Some ==> c.mqtt_username->0@ == vars@[i].value@),
        is_unset(vars@, "MQTT_PASSWORD"@) ==> c.mqtt_password is None,
        stands_first(vars@, "MQTT_PASSWORD"@, i) ==> (c.mqtt_password is None <==> is_all_blank(vars@[i].value@)) && (
        c.mqtt_password is Some ==> c.mqtt_password->0@ == vars@[i].value@),
        is_unset(vars@, "HTTP_BIND"@) ==> c.http_bind is None,
        stands_first(vars@, "HTTP_BIND"@, i) ==> (c.http_bind is None <==> is_all_blank(vars@[i].value@)) && (
        c.http_bind is Some ==> c.http_bind->0@ == vars@[i].value@),
        is_unset(vars@, "WEBHOOK_TOKEN"@) ==> c.webhook_token is None,
        stands_first(vars@, "WEBHOOK_TOKEN"@, i) ==> (c.webhook_token is None <==> is_all_blank(vars@[i].value@)) && (
        c.webhook_token is Some ==> c.webhook_token->0@ == vars@[i].value@),
        is_unset(vars@, "UI_CONTROL_TOKEN"@) ==> c.ui_control_token is None,
        stands_first(vars@, "UI_CONTROL_TOKEN"@, i) ==> (c.ui_control_token is None <==> is_all_blank(vars@[i].value@)) && (
        c.ui_control_token is Some ==> c.ui_control_token->0@ == vars@[i].value@),
        is_unset(vars@, "RADARR_URL"@) ==> c.radarr_url is None,
        stands_first(vars@, "RADARR_URL"@, i) ==> c.radarr_url is Some && c.radarr_url->0@ == vars@[i].value@,
        is_unset(vars@, "RADARR_API_KEY"@) ==> c.radarr_api_key is None,
        stands_first(vars@, "RADARR_API_KEY"@, i) ==> c.radarr_api_key is Some && c.radarr_api_key->0@ == vars@[i].value@,
        is_unset(vars@, "SONARR_URL"@) ==> c.sonarr_url is None,
        stands_first(vars@, "SONARR_URL"@, i) ==> c.sonarr_url is Some && c.sonarr_url->0@ == vars@[i].value@,
        is_unset(vars@, "SONARR_API_KEY"@) ==> c.sonarr_api_key is None,
        stands_first(vars@, "SONARR_API_KEY"@, i) ==> c.sonarr_api_key is Some && c.sonarr_api_key->0@ == vars@[i].value@,
{
    lemma_var_of(vars@, "MQTT_CLIENT_ID"@, i);
    lemma_var_of(vars@, "TRANSCODE_ENCODER"@, i);
    lemma_var_of(vars@, "MQTT_USERNAME"@, i);
    lemma_var_of(vars@, "MQTT_PASSWORD"@, i);
    lemma_var_of(vars@, "HTTP_BIND"@, i);
    lemma_var_of(vars@, "WEBHOOK_TOKEN"@, i);
    lemma_var_of(vars@, "UI_CONTROL_TOKEN"@, i);
    lemma_var_of(vars@, "RADARR_URL"@, i);
    lemma_var_of(vars@, "RADARR_API_KEY"@, i);
    lemma_var_of(vars@, "SONARR_URL"@, i);
    lemma_var_of(vars@, "SONARR_API_KEY"@, i);
}

/// Whether an error is that a variable is missing.
pub open spec fn tells_missing(r: Result<AppConfig, ConfigError>, name: Seq<char>) -> bool {
    r matches Err(ConfigError::Missing(key)) && key@ == name
}

/// Whether an error is that of a value, for a reason.
pub open spec fn tells_value(
    r: Result<AppConfig, ConfigError>,
    name: Seq<char>,
    v: EnvVar,
    why: Seq<char>,
) -> bool {
    r matches Err(ConfigError::InvalidValue { key, value, reason }) && key@ == name && value@
        == v.value@ && reason@ == why
}

/// Whether an error is that a variable is neither `1` nor `0`.
pub open spec fn tells_no_flag(
    r: Result<AppConfig, ConfigError>,
    vars: Seq<EnvVar>,
    name: Seq<char>,
) -> bool {
    forall|i: int| #[trigger]
        stands_first(vars, name, i) ==> tells_value(r, name, vars[i], "expected 1 or 0"@)
}

/// Whether an error is that a variable is no number, with the reason that came
/// with its value.
pub open spec fn tells_no_number(
    r: Result<AppConfig, ConfigError>,
    vars: Seq<EnvVar>,
    name: Seq<char>,
) -> bool {
    forall|i: int| #[trigger]
        stands_first(vars, name, i) ==> vars[i].number is Err && tells_value(
            r,
            name,
            vars[i],
            vars[i].number->Err_0@,
        )
}

/// Whether an error is that a variable is no integer from 0 to a greatest.
pub open spec fn tells_no_unsigned(
    r: Result<AppConfig, ConfigError>,
    vars: Seq<EnvVar>,
    name: Seq<char>,
    max: int,
) -> bool {
    forall|i: int| #[trigger]
        stands_first(vars, name, i) ==> tells_value(
            r,
            name,
            vars[i],
            crate::decimal::unsigned_fault(vars[i].value@, max).text(),
        )
}

/// Whether an error is that a variable is no integer of 32 bits.
pub open spec fn tells_no_signed(
    r: Result<AppConfig, ConfigError>,
    vars: Seq<EnvVar>,
    name: Seq<char>,
) -> bool {
    forall|i: int| #[trigger]
        stands_first(vars, name, i) ==> tells_value(
            r,
            name,
            vars[i],
            crate::decimal::signed_fault(vars[i].value@, i32::MIN as int, i32::MAX as int).text(),
        )
}

/// The variable of a name, at whichever position it stands first.
proof fn lemma_first_var(vars: Seq<EnvVar>, name: Seq<char>)
    ensures
        is_unset(vars, name) <==> var_of(vars, name) is None,
        forall|i: int| #[trigger]
            stands_first(vars, name, i) ==> var_of(vars, name) == Some(vars[i]),
        var_of(vars, name) is Some ==> exists|k: int| #[trigger]
            stands_first(vars, name, k) && var_of(vars, name) == Some(vars[k]),
{
    lemma_var_of(vars, name, 0);
    assert forall|i: int| #[trigger] stands_first(vars, name, i) implies var_of(vars, name) == Some(
        vars[i],
    ) by {
        lemma_var_of(vars, name, i);
    }
}

/// When there is no configuration: a variable that must be there is not, or one
/// is set to something that it cannot be. The first of these is told, in the
/// order of the variables.
#[verifier::spinoff_prover]
#[verifier::rlimit(60)]
pub proof fn law_what_is_wrong_with_the_environment(
    vars: Vec<EnvVar>,
    r: Result<AppConfig, ConfigError>,
)
    requires
        call_ensures(AppConfig::from_env, (&vars,), r),
    ensures
        ({
            let b0 = is_unset(vars@, "JELLYFIN_URL"@);
            let b1 = is_unset(vars@, "JELLYFIN_API_KEY"@);
            let b2 = is_unset(vars@, "DATABASE_URL"@);
            let b3 = is_no_flag(vars@, "AUTO_MIGRATE"@);
            let b4 = is_no_number(vars@, "MIN_ANALYSIS_SIZE_PER_HOUR_GB"@);
            let b5 = is_no_number(vars@, "MIN_ANALYSIS_BPP"@);
            let b6 = is_no_number(vars@, "MIN_ANALYSIS_BPP_HEVC"@);
            let b7 = is_no_number(vars@, "MIN_COMPRESSION_POTENTIAL"@);
            let b8 = is_unset(vars@, "MQTT_HOST"@);
            let b9 = is_no_unsigned(vars@, "MQTT_PORT"@, u16::MAX as int);
            let b10 = is_no_unsigned(vars@, "APPROVAL_MAX_PENDING"@, usize::MAX as int);
            let b11 = is_unset(vars@, "TRANSCODE_TMP_DIR"@);
            let b12 = is_unset(vars@, "TRANSCODE_RETENTION_DIR"@);
            let b13 = is_no_number(vars@, "TRANSCODE_MIN_SIZE_REDUCTION"@);
            let b14 = is_no_signed(vars@, "TRANSCODE_RETENTION_DAYS"@);
            let b15 = is_no_number(vars@, "MIN_VMAF"@);
            let b16 = is_no_unsigned(vars@, "VMAF_N_SUBSAMPLE"@, u32::MAX as int);
            let b17 = is_no_unsigned(vars@, "VMAF_N_THREADS"@, usize::MAX as int);
            let b18 = is_no_flag(vars@, "BACKFILL_VMAF"@);
            let b19 = is_no_flag(vars@, "REQUEUE_QUALITY_SKIPS"@);
            let b20 = is_no_unsigned(vars@, "SYNC_INTERVAL_SECS"@, u64::MAX as int);
            let b21 = is_no_unsigned(vars@, "SYNC_DEBOUNCE_SECS"@, u64::MAX as int);
            let fine0 = !b0;
            let fine1 = fine0 && !b1;
            let fine2 = fine1 && !b2;
            let fine3 = fine2 && !b3;
            let fine4 = fine3 && !b4;
            let fine5 = fine4 && !b5;
            let fine6 = fine5 && !b6;
            let fine7 = fine6 && !b7;
            let fine8 = fine7 && !b8;
            let fine9 = fine8 && !b9;
            let fine10 = fine9 && !b10;
            let fine11 = fine10 && !b11;
            let fine12 = fine11 && !b12;
            let fine13 = fine12 && !b13;
            let fine14 = fine13 && !b14;
            let fine15 = fine14 && !b15;
            let fine16 = fine15 && !b16;
            let fine17 = fine16 && !b17;
            let fine18 = fine17 && !b18;
            let fine19 = fine18 && !b19;
            let fine20 = fine19 && !b20;
            let fine21 = fine20 && !b21;
            &&& b0 ==> tells_missing(r, "JELLYFIN_URL"@)
            &&& fine0 && b1 ==> tells_missing(r, "JELLYFIN_API_KEY"@)
            &&& fine1 && b2 ==> tells_missing(r, "DATABASE_URL"@)
            &&& fine2 && b3 ==> tells_no_flag(r, vars@, "AUTO_MIGRATE"@)
            &&& fine3 && b4 ==> tells_no_number(r, vars@, "MIN_ANALYSIS_SIZE_PER_HOUR_GB"@)
            &&& fine4 && b5 ==> tells_no_number(r, vars@, "MIN_ANALYSIS_BPP"@)
            &&& fine5 && b6 ==> tells_no_number(r, vars@, "MIN_ANALYSIS_BPP_HEVC"@)
            &&& fine6 && b7 ==> tells_no_number(r, vars@, "MIN_COMPRESSION_POTENTIAL"@)
            &&& fine7 && b8 ==> tells_missing(r, "MQTT_HOST"@)
            &&& fine8 && b9 ==> tells_no_unsigned(r, vars@, "MQTT_PORT"@, u16::MAX as int)
            &&& fine9 && b10 ==> tells_no_unsigned(r, vars@, "APPROVAL_MAX_PENDING"@, usize::MAX as int)
            &&& fine10 && b11 ==> tells_missing(r, "TRANSCODE_TMP_DIR"@)
            &&& fine11 && b12 ==> tells_missing(r, "TRANSCODE_RETENTION_DIR"@)
            &&& fine12 && b13 ==> tells_no_number(r, vars@, "TRANSCODE_MIN_SIZE_REDUCTION"@)
            &&& fine13 && b14 ==> tells_no_signed(r, vars@, "TRANSCODE_RETENTION_DAYS"@)
            &&& fine14 && b15 ==> tells_no_number(r, vars@, "MIN_VMAF"@)
            &&& fine15 && b16 ==> tells_no_unsigned(r, vars@, "VMAF_N_SUBSAMPLE"@, u32::MAX as int)
            &&& fine16 && b17 ==> tells_no_unsigned(r, vars@, "VMAF_N_THREADS"@, usize::MAX as int)
            &&& fine17 && b18 ==> tells_no_flag(r, vars@, "BACKFILL_VMAF"@)
            &&& fine18 && b19 ==> tells_no_flag(r, vars@, "REQUEUE_QUALITY_SKIPS"@)
            &&& fine19 && b20 ==> tells_no_unsigned(r, vars@, "SYNC_INTERVAL_SECS"@, u64::MAX as int)
            &&& fine20 && b21 ==> tells_no_unsigned(r, vars@, "SYNC_DEBOUNCE_SECS"@, u64::MAX as int)
            &&& r is Ok <==> fine21
        }),
{
    lemma_first_var(vars@, "JELLYFIN_URL"@);
    lemma_first_var(vars@, "JELLYFIN_API_KEY"@);
    lemma_first_var(vars@, "DATABASE_URL"@);
    lemma_first_var(vars@, "AUTO_MIGRATE"@);
    lemma_first_var(vars@, "MIN_ANALYSIS_SIZE_PER_HOUR_GB"@);
    lemma_first_var(vars@, "MIN_ANALYSIS_BPP"@);
    lemma_first_var(vars@, "MIN_ANALYSIS_BPP_HEVC"@);
    lemma_first_var(vars@, "MIN_COMPRESSION_POTENTIAL"@);
    lemma_first_var(vars@, "MQTT_HOST"@);
    lemma_first_var(vars@, "MQTT_PORT"@);
    lemma_first_var(vars@, "APPROVAL_MAX_PENDING"@);
    lemma_first_var(vars@, "TRANSCODE_TMP_DIR"@);
    lemma_first_var(vars@, "TRANSCODE_RETENTION_DIR"@);
    lemma_first_var(vars@, "TRANSCODE_MIN_SIZE_REDUCTION"@);
    lemma_first_var(vars@, "TRANSCODE_RETENTION_DAYS"@);
    lemma_first_var(vars@, "MIN_VMAF"@);
    lemma_first_var(vars@, "VMAF_N_SUBSAMPLE"@);
    lemma_first_var(vars@, "VMAF_N_THREADS"@);
    lemma_first_var(vars@, "BACKFILL_VMAF"@);
    lemma_first_var(vars@, "REQUEUE_QUALITY_SKIPS"@);
    lemma_first_var(vars@, "SYNC_INTERVAL_SECS"@);
    lemma_first_var(vars@, "SYNC_DEBOUNCE_SECS"@);
}

} // verus!
