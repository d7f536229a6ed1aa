//! Process configuration, read from the values of the environment.
//!
//! Reading the environment is the caller's part; what the values mean is
//! decided here.

use vstd::prelude::*;
use vstd::string::*;
use crate::text::{str_eq, text_view};

verus! {

/// How jobs are divided among processes.
#[derive(Debug, Clone, Copy, PartialEq, Eq, Structural)]
pub enum ShardMode {
    /// One process owns every job.
    Local,
    /// This process is shard `shard_id` of `total_shards`.
    Distributed { shard_id: usize, total_shards: usize },
}

impl ShardMode {
    /// A distributed shard lies inside its shard set.
    pub open spec fn is_valid(self) -> bool {
        match self {
            ShardMode::Local => true,
            ShardMode::Distributed { shard_id, total_shards } => shard_id < total_shards,
        }
    }
}

/// The configuration of one process.
#[derive(Debug, Clone)]
pub struct AppConfig {
    pub shard_mode: ShardMode,
    pub database_url: String,
    pub tick_interval_secs: u64,
}

/// The values of the variables `SHARD_MODE`, `SHARD_ID`, `TOTAL_SHARDS`,
/// `DATABASE_URL` and `TICK_INTERVAL_SECS`; `None` for one that is not set.
#[derive(Debug, Clone)]
pub struct ConfigValues {
    pub shard_mode: Option<String>,
    pub shard_id: Option<String>,
    pub total_shards: Option<String>,
    pub database_url: Option<String>,
    pub tick_interval_secs: Option<String>,
}

/// Why the shard variables were refused.
#[derive(Debug, Clone, Copy, PartialEq, Eq, Structural)]
pub enum ConfigError {
    /// Distributed mode without `SHARD_ID`.
    MissingShardId,
    /// `SHARD_ID` is not a number.
    InvalidShardId,
    /// `TOTAL_SHARDS` is not a positive number.
    InvalidTotalShards,
    /// `SHARD_ID` is not below `TOTAL_SHARDS`.
    ShardIdOutOfRange,
}

/// The mathematical form of a configuration.
pub struct AppConfigView {
    pub shard_mode: ShardMode,
    pub database_url: Seq<char>,
    pub tick_interval_secs: u64,
}

impl View for AppConfig {
    type V = AppConfigView;

    open spec fn view(&self) -> AppConfigView {
        AppConfigView {
            shard_mode: self.shard_mode,
            database_url: self.database_url@,
            tick_interval_secs: self.tick_interval_secs,
        }
    }
}

/// An ASCII digit.
pub open spec fn is_digit(b: u8) -> bool {
    48 <= b <= 57
}

/// Every byte is an ASCII digit.
pub open spec fn all_digits(bytes: Seq<u8>) -> bool {
    forall|i: int| 0 <= i < bytes.len() ==> is_digit(#[trigger] bytes[i])
}

/// The number that a string of digits writes in base ten.
pub open spec fn digits_value(bytes: Seq<u8>) -> int
    decreases bytes.len(),
{
    if bytes.len() == 0 {
        0
    } else {
        digits_value(bytes.drop_last()) * 10 + (bytes.last() - 48)
    }
}

/// The number that a text writes: one or more digits, after a `+` or not.
pub open spec fn decimal(bytes: Seq<u8>) -> Option<int> {
    let digits = if bytes.len() > 0 && bytes[0] == 43 {
        bytes.drop_first()
    } else {
        bytes
    };
    if digits.len() > 0 && all_digits(digits) {
        Some(digits_value(digits))
    } else {
        None
    }
}

/// The number that a text writes, if it is at most `max`.
pub open spec fn decimal_up_to(text: Seq<char>, max: u64) -> Option<u64> {
    match decimal(vstd::utf8::encode_utf8(text)) {
        Some(v) => if v <= max {
            Some(v as u64)
        } else {
            None
        },
        None => None,
    }
}

/// A longer string of digits never writes a smaller number.
proof fn lemma_digits_grow(bytes: Seq<u8>, n: int)
    requires
        all_digits(bytes),
        0 <= n <= bytes.len(),
    ensures
        0 <= digits_value(bytes.take(n)) <= digits_value(bytes),
    decreases bytes.len() - n,
{
    if n == 0 {
        assert(bytes.take(0) =~= Seq::<u8>::empty());
        lemma_digits_nonnegative(bytes);
    } else if n < bytes.len() {
        lemma_digits_grow(bytes, n + 1);
        let longer = bytes.take(n + 1);
        assert(longer.drop_last() =~= bytes.take(n));
        assert(is_digit(bytes[n]));
        assert(longer.last() == bytes[n]);
        lemma_digits_nonnegative(bytes.take(n));
    } else {
        assert(bytes.take(n) =~= bytes);
        lemma_digits_nonnegative(bytes);
    }
}

proof fn lemma_digits_nonnegative(bytes: Seq<u8>)
    requires
        all_digits(bytes),
    ensures
        digits_value(bytes) >= 0,
    decreases bytes.len(),
{
    if bytes.len() > 0 {
        assert(is_digit(bytes.last()));
        lemma_digits_nonnegative(bytes.drop_last());
    }
}

/// Reads a decimal number of at most `max`: one or more ASCII digits, with
/// or without a leading `+`. Anything else gives `None`.
pub fn parse_decimal(text: &str, max: u64) -> (r: Option<u64>)
    ensures
        r == decimal_up_to(text@, max),
        r is Some ==> r.unwrap() <= max,
{
    let bytes = text.as_bytes();
    let start: usize = if bytes.len() > 0 && bytes[0] == 43 {
        1
    } else {
        0
    };
    let ghost digits = bytes@.skip(start as int);
    proof {
        assert(bytes@.skip(0) =~= bytes@);
        if bytes@.len() > 0 {
            assert(bytes@.skip(1) =~= bytes@.drop_first());
        }
    }
    let ghost parsed = if digits.len() > 0 && all_digits(digits) {
        Some(digits_value(digits))
    } else {
        None
    };
    assert(decimal(vstd::utf8::encode_utf8(text@)) == parsed);
    if start >= bytes.len() {
        return None;
    }
    let mut value: u64 = 0;
    let mut i: usize = start;
    assert(digits.take(0) =~= Seq::<u8>::empty());
    while i < bytes.len()
        invariant
            start <= i <= bytes@.len(),
            start <= 1,
            digits == bytes@.skip(start as int),
            digits.len() > 0,
            decimal(vstd::utf8::encode_utf8(text@)) == (if all_digits(digits) {
                Some(digits_value(digits))
            } else {
                None
            }),
            all_digits(digits.take(i - start)),
            value == digits_value(digits.take(i - start)),
            value <= max,
        decreases bytes@.len() - i,
    {
        let b = bytes[i];
        let ghost longer = digits.take(i - start + 1);
        proof {
            assert(longer.drop_last() =~= digits.take(i - start));
            assert(longer.last() == b);
        }
        if b < 48 || b > 57 {
            assert(!all_digits(digits)) by {
                assert(!is_digit(digits[i - start]));
            }
            return None;
        }
        assert(all_digits(longer)) by {
            assert forall|j: int| 0 <= j < longer.len() implies is_digit(#[trigger] longer[j]) by {
                if j < longer.len() - 1 {
                    assert(longer[j] == digits.take(i - start)[j]);
                }
            }
        }
        let d: u64 = (b - 48) as u64;
        if d > max || value > (max - d) / 10 {
            proof {
                assert(digits_value(longer) == value * 10 + d);
                assert(digits_value(longer) > max);
                if all_digits(digits) {
                    lemma_digits_grow(digits, i - start + 1);
                }
            }
            return None;
        }
        value = value * 10 + d;
        i = i + 1;
    }
    assert(digits.take(i - start) =~= digits);
    Some(value)
}

/// The shard mode that the shard variables call for.
///
/// Only the mode `distributed` reads the other two. It needs `SHARD_ID`, a
/// number; `TOTAL_SHARDS` is a positive number, 1 where it is not set; and
/// the id must lie below the total.
pub open spec fn shard_mode_of(
    mode: Option<Seq<char>>,
    shard_id: Option<Seq<char>>,
    total_shards: Option<Seq<char>>,
) -> Result<ShardMode, ConfigError> {
    if mode == Some("distributed"@) {
        match shard_id {
            None => Err(ConfigError::MissingShardId),
            Some(id_text) => match decimal_up_to(id_text, usize::MAX as u64) {
                None => Err(ConfigError::InvalidShardId),
                Some(id) => {
                    let total = match total_shards {
                        None => Some(1u64),
                        Some(total_text) => decimal_up_to(total_text, usize::MAX as u64),
                    };
                    match total {
                        None => Err(ConfigError::InvalidTotalShards),
                        Some(n) => if n == 0 {
                            Err(ConfigError::InvalidTotalShards)
                        } else if id >= n {
                            Err(ConfigError::ShardIdOutOfRange)
                        } else {
                            Ok(
                                ShardMode::Distributed {
                                    shard_id: id as usize,
                                    total_shards: n as usize,
                                },
                            )
                        },
                    }
                },
            },
        }
    } else {
        Ok(ShardMode::Local)
    }
}

/// The tick interval: the number given, 1 where none or no number is given.
pub open spec fn tick_interval_of(text: Option<Seq<char>>) -> u64 {
    match text {
        Some(t) => match decimal_up_to(t, u64::MAX) {
            Some(n) => n,
            None => 1,
        },
        None => 1,
    }
}

/// The database URL: the one given, `sqlite://jobs.db` where none is given.
pub open spec fn database_url_of(text: Option<Seq<char>>) -> Seq<char> {
    match text {
        Some(url) => url,
        None => "sqlite://jobs.db"@,
    }
}

/// The view of the outcome of reading a configuration.
pub open spec fn config_result_view(r: Result<AppConfig, ConfigError>) -> Result<
    AppConfigView,
    ConfigError,
> {
    match r {
        Ok(c) => Ok(c@),
        Err(e) => Err(e),
    }
}

impl ConfigValues {
    /// The configuration that these values call for.
    pub open spec fn config(self) -> Result<AppConfigView, ConfigError> {
        match shard_mode_of(
            text_view(self.shard_mode),
            text_view(self.shard_id),
            text_view(self.total_shards),
        ) {
            Ok(mode) => Ok(
                AppConfigView {
                    shard_mode: mode,
                    database_url: database_url_of(text_view(self.database_url)),
                    tick_interval_secs: tick_interval_of(
                        text_view(self.tick_interval_secs),
                    ),
                },
            ),
            Err(e) => Err(e),
        }
    }
}

/// Reads the shard mode from the three shard variables.
pub fn read_shard_mode(
    mode: &Option<String>,
    shard_id: &Option<String>,
    total_shards: &Option<String>,
) -> (r: Result<ShardMode, ConfigError>)
    ensures
        r == shard_mode_of(
            text_view(*mode),
            text_view(*shard_id),
            text_view(*total_shards),
        ),
        r is Ok ==> r->Ok_0.is_valid(),
{
    let distributed = match mode {
        Some(m) => str_eq(m.as_str(), "distributed"),
        None => false,
    };
    if !distributed {
        return Ok(ShardMode::Local);
    }
    let id: u64 = match shard_id {
        None => {
            return Err(ConfigError::MissingShardId);
        },
        Some(text) => match parse_decimal(text.as_str(), usize::MAX as u64) {
            None => {
                return Err(ConfigError::InvalidShardId);
            },
            Some(id) => id,
        },
    };
    let total: u64 = match total_shards {
        None => 1,
        Some(text) => match parse_decimal(text.as_str(), usize::MAX as u64) {
            None => {
                return Err(ConfigError::InvalidTotalShards);
            },
            Some(n) => n,
        },
    };
    assert(usize::MAX as u64 == usize::MAX as int);
    assert(id <= usize::MAX && total <= usize::MAX);
    if total == 0 {
        Err(ConfigError::InvalidTotalShards)
    } else if id >= total {
        Err(ConfigError::ShardIdOutOfRange)
    } else {
        Ok(ShardMode::Distributed { shard_id: id as usize, total_shards: total as usize })
    }
}

impl AppConfig {
    /// The configuration that the values of the environment call for.
    /// Shard variables that do not fit are refused; the other two fall back
    /// to their defaults.
    pub fn from_values(values: &ConfigValues) -> (r: Result<AppConfig, ConfigError>)
        ensures
            config_result_view(r) == values.config(),
            r is Ok ==> r->Ok_0.shard_mode.is_valid(),
    {
        let shard_mode = match read_shard_mode(
            &values.shard_mode,
            &values.shard_id,
            &values.total_shards,
        ) {
            Ok(mode) => mode,
            Err(e) => {
                return Err(e);
            },
        };
        let database_url = match &values.database_url {
            Some(url) => url.clone(),
            None => String::from_str("sqlite://jobs.db"),
        };
        let tick_interval_secs: u64 = match &values.tick_interval_secs {
            Some(text) => match parse_decimal(text.as_str(), u64::MAX) {
                Some(n) => n,
                None => 1,
            },
            None => 1,
        };
        Ok(AppConfig { shard_mode, database_url, tick_interval_secs })
    }
}

} // verus!
