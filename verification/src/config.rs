//! The configuration a backend is built from: a list of keys and values.
//!
//! The core does not read the values. It checks, before a backend is built,
//! that every key the backend needs is there.

use vstd::prelude::*;
use crate::error::{Error, ErrorKind, ErrorView};

verus! {

/// The mathematical value of a configuration.
pub type ConfigView = Seq<(Seq<char>, Seq<char>)>;

/// The keys and values of a configuration, as text.
pub open spec fn config_view(config: Seq<(String, String)>) -> ConfigView {
    Seq::new(config.len(), |i: int| (config[i].0@, config[i].1@))
}

/// The keys of a list of keys, as text.
pub open spec fn keys_view(keys: Seq<String>) -> Seq<Seq<char>> {
    Seq::new(keys.len(), |i: int| keys[i]@)
}

/// Whether the configuration gives the key a value.
pub open spec fn has_key(config: ConfigView, key: Seq<char>) -> bool {
    exists|i: int| 0 <= i < config.len() && (#[trigger] config[i]).0 == key
}

/// The place of the first required key that the configuration lacks.
pub open spec fn first_missing(required: Seq<Seq<char>>, config: ConfigView, from: int) -> Option<
    int,
>
    decreases required.len() - from,
{
    if from < 0 || from >= required.len() {
        None
    } else if !has_key(config, required[from]) {
        Some(from)
    } else {
        first_missing(required, config, from + 1)
    }
}

/// The failure for a configuration that lacks a required key.
pub open spec fn incomplete() -> ErrorView {
    ErrorView {
        kind: ErrorKind::InvalidInput,
        transient: false,
        message: "configuration lacks a required key"@,
    }
}

/// Whether the configuration gives the key a value.
pub fn contains_key(config: &Vec<(String, String)>, key: &String) -> (found: bool)
    ensures
        found == has_key(config_view(config@), key@),
{
    let mut i: usize = 0;
    while i < config.len()
        invariant
            i <= config.len(),
            forall|k: int| 0 <= k < i ==> (#[trigger] config_view(config@)[k]).0 != key@,
        decreases config.len() - i,
    {
        if config[i].0 == *key {
            assert(config_view(config@)[i as int].0 == key@);
            return true;
        }
        i += 1;
    }
    false
}

/// The place of the first required key that the configuration lacks, if it
/// lacks any.
pub fn missing_key(required: &Vec<String>, config: &Vec<(String, String)>) -> (at: Option<usize>)
    ensures
        match at {
            Some(i) => first_missing(keys_view(required@), config_view(config@), 0) == Some(
                i as int,
            ) && i < required@.len(),
            None => first_missing(keys_view(required@), config_view(config@), 0) is None,
        },
{
    let mut i: usize = 0;
    while i < required.len()
        invariant
            i <= required.len(),
            first_missing(keys_view(required@), config_view(config@), 0) == first_missing(
                keys_view(required@),
                config_view(config@),
                i as int,
            ),
        decreases required.len() - i,
    {
        assert(keys_view(required@)[i as int] == required@[i as int]@);
        if !contains_key(config, &required[i]) {
            return Some(i);
        }
        i += 1;
    }
    None
}

/// Accepts a configuration that holds every required key, and rejects any
/// other as invalid input.
pub fn validate_config(required: &Vec<String>, config: &Vec<(String, String)>) -> (r: Result<
    (),
    Error,
>)
    ensures
        r is Ok <==> first_missing(keys_view(required@), config_view(config@), 0) is None,
        r is Err ==> r.unwrap_err()@ == incomplete(),
{
    match missing_key(required, config) {
        Some(_) => Err(Error::new(ErrorKind::InvalidInput, "configuration lacks a required key")),
        None => Ok(()),
    }
}

/// Nothing is missing exactly when every required key has a value.
pub proof fn lemma_nothing_missing(required: Seq<Seq<char>>, config: ConfigView, from: int)
    requires
        0 <= from,
    ensures
        first_missing(required, config, from) is None <==> forall|k: int|
            from <= k < required.len() ==> has_key(config, #[trigger] required[k]),
    decreases required.len() - from,
{
    if from < required.len() {
        lemma_nothing_missing(required, config, from + 1);
    }
}

} // verus!
