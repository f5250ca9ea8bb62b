//! Turning what the store returns into values, and values into display text.
use vstd::prelude::*;
use vstd::utf8::*;
use crate::value::{KeyType, RedisListValue, RedisValue, RedisValueData};

verus! {

/// The pretty-printed form of `s` when `s` parses as a JSON document.
pub uninterp spec fn json_pretty_text(s: Seq<char>) -> Option<Seq<char>>;

/// The text that a byte string reads as, with each invalid sequence replaced.
pub uninterp spec fn lossy_text(b: Seq<u8>) -> Seq<char>;

/// A hex dump of `b` with `width` bytes per row.
pub uninterp spec fn hex_dump_text(b: Seq<u8>, width: usize) -> Seq<char>;

/// Relies on std::str::from_utf8: it accepts exactly the valid UTF-8 byte
/// strings, and the text then holds the characters that they encode.
#[verifier::external_body]
fn utf8_text(b: &[u8]) -> (r: Option<String>)
    ensures
        r is Some <==> valid_utf8(b@),
        r is Some ==> r.unwrap()@ == decode_utf8(b@),
{
    std::str::from_utf8(b).ok().map(|s| s.to_string())
}

/// Relies on serde_json::from_str into a serde_json::Value and on
/// serde_json::to_string_pretty of that value: whether `s` parses, and the
/// pretty text, depend on `s` alone.
#[verifier::external_body]
fn pretty_json(s: &str) -> (r: Option<String>)
    ensures
        r is Some <==> json_pretty_text(s@) is Some,
        r is Some ==> json_pretty_text(s@) == Some(r.unwrap()@),
{
    match serde_json::from_str::<serde_json::Value>(s) {
        Ok(v) => serde_json::to_string_pretty(&v).ok(),
        Err(_) => None,
    }
}

/// Relies on String::from_utf8_lossy: the text depends on the bytes alone, and
/// valid UTF-8 is decoded unchanged.
#[verifier::external_body]
fn utf8_lossy(b: &[u8]) -> (r: String)
    ensures
        r@ == lossy_text(b@),
        valid_utf8(b@) ==> r@ == decode_utf8(b@),
{
    String::from_utf8_lossy(b).to_string()
}

/// Relies on pretty_hex::config_hex, with no title line and no grouping of
/// bytes, `width` bytes per row.
#[verifier::external_body]
fn hex_dump(b: &Vec<u8>, width: usize) -> (r: String)
    ensures
        r@ == hex_dump_text(b@, width),
{
    let cfg = pretty_hex::HexConfig { title: false, width, group: 0, ..Default::default() };
    pretty_hex::config_hex(b, cfg)
}

/// What a string value shows: nothing for no bytes, the pretty-printed JSON
/// document or the text itself for UTF-8, and `None` for other bytes.
pub open spec fn shown_text(b: Seq<u8>) -> Option<Seq<char>> {
    if b.len() == 0 {
        Some(Seq::<char>::empty())
    } else if valid_utf8(b) {
        match json_pretty_text(decode_utf8(b)) {
            Some(p) => Some(p),
            None => Some(decode_utf8(b)),
        }
    } else {
        None
    }
}

/// `d` holds the text `t`.
pub open spec fn holds_text(d: Option<RedisValueData>, t: Seq<char>) -> bool {
    match d {
        Some(RedisValueData::String(s)) => s@ == t,
        _ => false,
    }
}

/// `d` holds the bytes `b`.
pub open spec fn holds_bytes(d: Option<RedisValueData>, b: Seq<u8>) -> bool {
    match d {
        Some(RedisValueData::Bytes(v)) => v@ == b,
        _ => false,
    }
}

/// The value of a string key whose stored bytes are `bytes`.
pub fn string_value_from_bytes(bytes: Vec<u8>) -> (r: RedisValue)
    ensures
        r.key_type == KeyType::String,
        r.size == bytes@.len(),
        r.expire_at is None,
        match shown_text(bytes@) {
            Some(t) => holds_text(r.data, t),
            None => holds_bytes(r.data, bytes@),
        },
{
    let size = bytes.len();
    if size == 0 {
        return RedisValue {
            key_type: KeyType::String,
            data: Some(RedisValueData::String(String::new())),
            expire_at: None,
            size,
        };
    }
    match utf8_text(bytes.as_slice()) {
        Some(text) => {
            let shown = match pretty_json(text.as_str()) {
                Some(p) => p,
                None => text,
            };
            RedisValue {
                key_type: KeyType::String,
                data: Some(RedisValueData::String(shown)),
                expire_at: None,
                size,
            }
        },
        None => RedisValue {
            key_type: KeyType::String,
            data: Some(RedisValueData::Bytes(bytes)),
            expire_at: None,
            size,
        },
    }
}

/// The elements of a list page as text.
pub fn list_items_from_bytes(raw: &Vec<Vec<u8>>) -> (r: Vec<String>)
    ensures
        r@.len() == raw@.len(),
        forall|i: int| 0 <= i < raw@.len() ==> #[trigger] r@[i]@ == lossy_text(raw@[i]@),
{
    let mut out: Vec<String> = Vec::new();
    let mut i: usize = 0;
    while i < raw.len()
        invariant
            i <= raw@.len(),
            out@.len() == i,
            forall|k: int| 0 <= k < i ==> #[trigger] out@[k]@ == lossy_text(raw@[k]@),
        decreases raw@.len() - i,
    {
        out.push(utf8_lossy(raw[i].as_slice()));
        i = i + 1;
    }
    out
}

/// The value of a list key of `size` elements whose first elements are `values`.
pub fn list_value_from_page(size: usize, values: Vec<String>) -> (r: RedisValue)
    ensures
        r.key_type == KeyType::List,
        r.expire_at is None,
        r.size == 0,
        r.data == Some(RedisValueData::List(RedisListValue { size, values })),
{
    RedisValue {
        key_type: KeyType::List,
        data: Some(RedisValueData::List(RedisListValue { size, values })),
        expire_at: None,
        size: 0,
    }
}

/// Bytes per row of a hex dump: 32 on a wide view, else 16.
pub open spec fn dump_width(wide: bool) -> usize {
    if wide {
        32
    } else {
        16
    }
}

/// The text an editor shows for a value: its string, or for bytes a hex dump.
pub open spec fn display_of(value: Option<RedisValue>, wide: bool) -> Seq<char> {
    match value {
        None => Seq::<char>::empty(),
        Some(v) => match v.data {
            Some(RedisValueData::String(s)) => s@,
            Some(RedisValueData::Bytes(b)) => hex_dump_text(b@, dump_width(wide)),
            _ => Seq::<char>::empty(),
        },
    }
}

/// The text an editor shows for `value`; `wide` chooses the dump's row width.
pub fn display_text(value: Option<&RedisValue>, wide: bool) -> (r: String)
    ensures
        r@ == display_of(
            match value {
                Some(v) => Some(*v),
                None => None,
            },
            wide,
        ),
{
    match value {
        None => String::new(),
        Some(v) => match &v.data {
            Some(RedisValueData::String(s)) => s.clone(),
            Some(RedisValueData::Bytes(b)) => {
                let width: usize = if wide {
                    32
                } else {
                    16
                };
                hex_dump(b, width)
            },
            _ => String::new(),
        },
    }
}

} // verus!
