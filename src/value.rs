//! Values of keys: their type, their data and their expiry.
use vstd::prelude::*;
use vstd::utf8::*;

verus! {

/// The type of a key as the store reports it.
#[derive(Debug, Clone, Copy, PartialEq, Eq, Structural)]
pub enum KeyType {
    Unknown,
    String,
    List,
    PlainSet,
    Zset,
    Hash,
    Stream,
    Vectorset,
}

/// The type that the store's lowercase type name stands for; any other name is `Unknown`.
pub open spec fn key_type_of_name(n: Seq<char>) -> KeyType {
    if n == "list"@ {
        KeyType::List
    } else if n == "set"@ {
        KeyType::PlainSet
    } else if n == "zset"@ {
        KeyType::Zset
    } else if n == "hash"@ {
        KeyType::Hash
    } else if n == "stream"@ {
        KeyType::Stream
    } else if n == "vectorset"@ {
        KeyType::Vectorset
    } else if n == "string"@ {
        KeyType::String
    } else {
        KeyType::Unknown
    }
}

impl KeyType {
    /// The short display label of the type.
    pub open spec fn label(self) -> Seq<char> {
        match self {
            KeyType::String => "STR"@,
            KeyType::List => "LIST"@,
            KeyType::Hash => "HASH"@,
            KeyType::PlainSet => "SET"@,
            KeyType::Zset => "ZSET"@,
            KeyType::Stream => "STRM"@,
            KeyType::Vectorset => "VEC"@,
            KeyType::Unknown => ""@,
        }
    }

    pub fn as_str(&self) -> (r: &'static str)
        ensures
            r@ == self.label(),
    {
        match self {
            KeyType::String => "STR",
            KeyType::List => "LIST",
            KeyType::Hash => "HASH",
            KeyType::PlainSet => "SET",
            KeyType::Zset => "ZSET",
            KeyType::Stream => "STRM",
            KeyType::Vectorset => "VEC",
            KeyType::Unknown => "",
        }
    }

    /// Maps the store's lowercase type name to a type, `Unknown` for any other name.
    pub fn from_name(name: &str) -> (r: KeyType)
        ensures
            r == key_type_of_name(name@),
    {
        if crate::text::text_eq(name, "list") {
            KeyType::List
        } else if crate::text::text_eq(name, "set") {
            KeyType::PlainSet
        } else if crate::text::text_eq(name, "zset") {
            KeyType::Zset
        } else if crate::text::text_eq(name, "hash") {
            KeyType::Hash
        } else if crate::text::text_eq(name, "stream") {
            KeyType::Stream
        } else if crate::text::text_eq(name, "vectorset") {
            KeyType::Vectorset
        } else if crate::text::text_eq(name, "string") {
            KeyType::String
        } else {
            KeyType::Unknown
        }
    }
}

impl Default for KeyType {
    fn default() -> (r: KeyType)
        ensures
            r == KeyType::Unknown,
    {
        KeyType::Unknown
    }
}

impl<'a> From<&'a str> for KeyType {
    fn from(value: &'a str) -> (r: KeyType) {
        KeyType::from_name(value)
    }
}

impl<'a> vstd::std_specs::convert::FromSpecImpl<&'a str> for KeyType {
    open spec fn obeys_from_spec() -> bool {
        true
    }

    open spec fn from_spec(v: &'a str) -> KeyType {
        key_type_of_name(v@)
    }
}

/// The loaded part of a list value.
#[derive(Debug, Clone)]
pub struct RedisListValue {
    /// The length of the whole list in the store.
    pub size: usize,
    /// The elements loaded so far, from the head of the list.
    pub values: Vec<String>,
}

impl RedisListValue {
    /// How many elements are loaded, and how many the list holds.
    pub fn get_counts(&self) -> (r: (usize, usize))
        ensures
            r == (self.values@.len() as usize, self.size),
    {
        (self.values.len(), self.size)
    }
}

/// The data of a value, by kind.
#[derive(Debug, Clone)]
pub enum RedisValueData {
    String(String),
    Bytes(Vec<u8>),
    List(RedisListValue),
}

/// A value of a key.
///
/// `expire_at` is `None` when no expiry is known, `-1` when the key persists,
/// `-2` when the key does not exist, and otherwise an absolute time in seconds.
#[derive(Debug, Clone)]
pub struct RedisValue {
    pub key_type: KeyType,
    pub data: Option<RedisValueData>,
    pub expire_at: Option<i64>,
    pub size: usize,
}

/// Sentinel expiry of a key that persists.
pub const PERSISTENT: i64 = -1;

/// Sentinel expiry of a key that does not exist.
pub const MISSING: i64 = -2;

/// Seconds left until `expire_at`, seen at time `now`.
pub open spec fn seconds_left(expire_at: i64, now: i64) -> i64 {
    if expire_at < 0 {
        expire_at
    } else if expire_at - now > i64::MAX {
        i64::MAX
    } else if expire_at - now < 0 {
        MISSING
    } else {
        (expire_at - now) as i64
    }
}

/// Relies on chrono::Utc::now and DateTime::timestamp: the current time in
/// seconds since the Unix epoch. Nothing is known of the value.
#[verifier::external_body]
pub(crate) fn unix_ts() -> (r: i64) {
    chrono::Utc::now().timestamp()
}

impl Default for RedisValue {
    fn default() -> (r: RedisValue)
        ensures
            r.is_blank(),
            r.expire_at is None,
    {
        RedisValue { key_type: KeyType::Unknown, data: None, expire_at: None, size: 0 }
    }
}

impl RedisValue {
    /// A value with no data, of unknown type.
    pub open spec fn is_blank(&self) -> bool {
        self.key_type == KeyType::Unknown && self.data is None && self.size == 0
    }

    /// The value of a key that does not exist.
    pub fn missing() -> (r: RedisValue)
        ensures
            r.is_blank(),
            r.expire_at == Some(MISSING),
    {
        RedisValue { key_type: KeyType::Unknown, data: None, expire_at: Some(MISSING), size: 0 }
    }

    pub fn list_value(&self) -> (r: Option<&RedisListValue>)
        ensures
            match self.data {
                Some(RedisValueData::List(l)) => r == Some(&l),
                _ => r is None,
            },
    {
        if let Some(RedisValueData::List(data)) = &self.data {
            return Some(data);
        }
        None
    }

    pub fn string_value(&self) -> (r: Option<&String>)
        ensures
            match self.data {
                Some(RedisValueData::String(s)) => r == Some(&s),
                _ => r is None,
            },
    {
        if let Some(RedisValueData::String(value)) = &self.data {
            return Some(value);
        }
        None
    }

    pub fn bytes_value(&self) -> (r: Option<&Vec<u8>>)
        ensures
            match self.data {
                Some(RedisValueData::Bytes(b)) => r == Some(&b),
                _ => r is None,
            },
    {
        if let Some(RedisValueData::Bytes(value)) = &self.data {
            return Some(value);
        }
        None
    }

    pub fn size(&self) -> (r: usize)
        ensures
            r == self.size,
    {
        self.size
    }

    pub fn key_type(&self) -> (r: KeyType)
        ensures
            r == self.key_type,
    {
        self.key_type
    }

    /// Whether the key was found not to exist.
    pub fn is_expired(&self) -> (r: bool)
        ensures
            r == (self.expire_at == Some(MISSING)),
    {
        match self.expire_at {
            Some(e) => e == MISSING,
            None => false,
        }
    }

    /// Seconds to live as seen at time `now`: the sentinels are kept, a past
    /// expiry reads as `-2`.
    pub fn ttl_at(&self, now: i64) -> (r: Option<i64>)
        ensures
            match self.expire_at {
                Some(e) => r == Some(seconds_left(e, now)),
                None => r is None,
            },
    {
        match self.expire_at {
            None => None,
            Some(e) => {
                if e < 0 {
                    Some(e)
                } else {
                    let d: i128 = e as i128 - now as i128;
                    if d > i64::MAX as i128 {
                        Some(i64::MAX)
                    } else if d < 0 {
                        Some(MISSING)
                    } else {
                        Some(d as i64)
                    }
                }
            }
        }
    }

    /// Seconds to live as seen now.
    pub fn ttl(&self) -> (r: Option<i64>)
        ensures
            self.expire_at is None <==> r is None,
            forall|e: i64| self.expire_at == Some(e) && e < 0 ==> r == Some(e),
            forall|e: i64|
                self.expire_at == Some(e) && e >= 0 ==> r is Some && (r.unwrap() >= 0 || r.unwrap()
                    == MISSING),
    {
        let now = unix_ts();
        self.ttl_at(now)
    }
}

} // verus!
