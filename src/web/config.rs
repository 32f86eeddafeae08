//! Configuration records of the web surface.
use vstd::prelude::*;

use crate::scheduler::approval::ApprovalMode;

verus! {

#[derive(Debug, Clone, Copy, PartialEq, Eq, Hash, Structural)]
pub enum Permission {
    SubmitSchedule,
    ListSchedules,
    ApproveSchedule,
}

#[derive(Debug, Clone, PartialEq)]
pub struct WebConfig {
    pub bind: String,
}

/// The address served when none is configured.
pub fn default_bind() -> (r: String)
    ensures
        r@ == "0.0.0.0:8080"@,
{
    String::from_str("0.0.0.0:8080")
}

#[derive(Debug, Clone, PartialEq)]
pub struct SchedulesConfig {
    pub base_folder: String,
}

#[derive(Debug, Clone, Copy, PartialEq, Eq, Structural)]
pub struct ApprovalConfig {
    pub mode: ApprovalMode,
}

/// A credential, who holds it and what it allows.
#[derive(Debug, Clone, PartialEq)]
pub struct ApiKey {
    pub key: String,
    pub name: String,
    pub permissions: Vec<Permission>,
}

/// The position of the first key whose secret is `key`.
pub open spec fn key_position(keys: Seq<ApiKey>, key: Seq<char>) -> Option<int>
    decreases keys.len(),
{
    if keys.len() == 0 {
        None
    } else {
        match key_position(keys.drop_last(), key) {
            Some(i) => Some(i),
            None => if keys.last().key@ == key {
                Some(keys.len() - 1)
            } else {
                None
            },
        }
    }
}

/// The configured credential whose secret is `key`.
pub fn find_api_key<'a>(keys: &'a Vec<ApiKey>, key: &str) -> (r: Option<&'a ApiKey>)
    ensures
        match key_position(keys@, key@) {
            Some(i) => r matches Some(k) && *k == keys@[i],
            None => r is None,
        },
{
    let mut i: usize = 0;
    assert(keys@.subrange(0, 0) =~= Seq::<ApiKey>::empty());
    while i < keys.len()
        invariant
            i <= keys@.len(),
            key_position(keys@.subrange(0, i as int), key@) is None,
        decreases keys@.len() - i,
    {
        assert(keys@.subrange(0, i + 1).drop_last() =~= keys@.subrange(0, i as int));
        if crate::text::same_text(keys[i].key.as_str(), key) {
            proof {
                lemma_key_position_prefix(keys@, key@, i + 1);
            }
            return Some(&keys[i]);
        }
        i += 1;
    }
    assert(keys@.subrange(0, keys@.len() as int) =~= keys@);
    None
}

proof fn lemma_key_position_prefix(keys: Seq<ApiKey>, key: Seq<char>, k: int)
    requires
        0 <= k <= keys.len(),
        key_position(keys.subrange(0, k), key) is Some,
    ensures
        key_position(keys, key) == key_position(keys.subrange(0, k), key),
    decreases keys.len() - k,
{
    if k < keys.len() {
        assert(keys.subrange(0, k + 1).drop_last() =~= keys.subrange(0, k));
        lemma_key_position_prefix(keys, key, k + 1);
    } else {
        assert(keys.subrange(0, k) =~= keys);
    }
}

} // verus!
