//! Safe, verified building blocks for extensions of a key-value host:
//! reply values and errors, argument extraction, string handles,
//! conditional-write flags and the score-range cursor over a sorted set.

pub mod args;
pub mod string;
pub mod value;
pub mod zadd;
pub mod zset;

pub use args::{parse_integer, NextArg};
pub use string::{Context, RedisString};
pub use value::{redis_ok, RedisError, RedisResult, RedisValue};
pub use zadd::{ZAddFlags, ZAddResult};
pub use zset::ZSetScoreIterator;
