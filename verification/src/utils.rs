//! Helpers shared by the metrics: configuration lookups and the text of
//! timestamps.

use vstd::prelude::*;
use vstd::string::StringExecFns;
use crate::clock::{in_calendar_range, local_rfc3339};
use crate::config::{configured, value_view, SectionedConfigMap};
use crate::text::{decimal, i64_to_string};

verus! {

/// The text shown for a timestamp: its local date and time where the
/// calendar can place it, else a note that it is invalid.
pub open spec fn timestamp_text(local: Option<Seq<char>>, timestamp: int) -> Seq<char> {
    match local {
        Some(text) => text,
        None => "Invalid timestamp "@ + decimal(timestamp),
    }
}

/// Chooses the text shown for `timestamp`, given its local date and time
/// where it has one.
pub fn describe_timestamp(local: Option<String>, timestamp: i64) -> (r: String)
    ensures
        r@ == timestamp_text(value_view(local), timestamp as int),
{
    match local {
        Some(text) => text,
        None => String::from_str("Invalid timestamp ").concat(i64_to_string(timestamp).as_str()),
    }
}

/// Writes a timestamp as local date and time. A timestamp outside the
/// calendar is reported as invalid, with its number.
pub fn format_timestamp(timestamp: i64) -> (r: String)
    ensures
        !in_calendar_range(timestamp as int) ==> r@ == timestamp_text(None, timestamp as int),
{
    describe_timestamp(local_rfc3339(timestamp), timestamp)
}

/// Reads the value of `key` in `section`. The lookup fails where the
/// section is missing, the key is missing, or the key has no value.
pub fn from_config(conf: &SectionedConfigMap, section: &str, key: &str) -> (r: Result<String, ()>)
    ensures
        match r {
            Ok(text) => configured(conf@, section@, key@) == Some(text@),
            Err(_) => configured(conf@, section@, key@) is None,
        },
{
    match conf.get(section, key) {
        Some(text) => Ok(text.clone()),
        None => Err(()),
    }
}

/// Reads the value of `key` in `section`, or takes `default` where the
/// lookup fails.
pub fn value_or_default(
    conf: &SectionedConfigMap,
    section: &str,
    key: &str,
    default: Option<String>,
) -> (r: Option<String>)
    ensures
        value_view(r) == match configured(conf@, section@, key@) {
            Some(text) => Some(text),
            None => value_view(default),
        },
{
    match conf.get(section, key) {
        Some(text) => Some(text.clone()),
        None => default,
    }
}

} // verus!
