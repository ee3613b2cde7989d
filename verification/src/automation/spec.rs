//! A scenario: named accounts and targets, then steps that send, wait and
//! clean up.
use vstd::prelude::*;
use crate::text::{owned, str_eq};

verus! {

/// A scenario file.
#[derive(Debug, Clone)]
pub struct ScenarioSpec {
    pub name: String,
    /// Account aliases: alias, then account name; each alias once.
    pub accounts: Vec<(String, String)>,
    /// Target aliases: alias, then peer query; each alias once.
    pub targets: Vec<(String, String)>,
    pub steps: Vec<ScenarioStep>,
}

/// One step of a scenario.
#[derive(Debug, Clone)]
pub enum ScenarioStep {
    Send { send: SendStep },
    Wait { wait: WaitStep },
    Cleanup { cleanup: CleanupStep },
}

/// Send a text as an account to a target, optionally remembering the message.
#[derive(Debug, Clone)]
pub struct SendStep {
    pub as_ref: String,
    pub to: String,
    pub text: String,
    pub save_as: Option<String>,
}

/// Wait as an account for a message in a chat.
#[derive(Debug, Clone)]
pub struct WaitStep {
    pub as_ref: String,
    pub chat: String,
    pub text: Option<String>,
    pub text_contains: Option<String>,
    pub timeout: String,
}

/// Delete a remembered message as an account.
#[derive(Debug, Clone)]
pub struct CleanupStep {
    pub as_ref: String,
    pub chat: String,
    pub saved_message: String,
}

/// The timeout of a wait step that gives none.
pub fn default_timeout() -> (r: String)
    ensures
        r@ == "20s"@,
{
    owned("20s")
}

/// The value of the first entry with a key.
pub open spec fn alias_lookup(entries: Seq<(String, String)>, key: Seq<char>) -> Option<Seq<char>>
    decreases entries.len(),
{
    if entries.len() == 0 {
        None
    } else if entries[0].0@ == key {
        Some(entries[0].1@)
    } else {
        alias_lookup(entries.subrange(1, entries.len() as int), key)
    }
}

/// What an alias stands for, or the text itself when it is no alias.
pub open spec fn spec_resolve_ref(entries: Seq<(String, String)>, key: Seq<char>) -> Seq<char> {
    match alias_lookup(entries, key) {
        Some(v) => v,
        None => key,
    }
}

/// What an alias stands for, or the text itself.
pub fn resolve_ref<'a>(entries: &'a Vec<(String, String)>, key: &'a str) -> (r: &'a str)
    ensures
        r@ == spec_resolve_ref(entries@, key@),
{
    let ghost all = entries@;
    let mut i: usize = 0;
    assert(all.subrange(0, all.len() as int) =~= all);
    while i < entries.len()
        invariant
            all == entries@,
            i <= all.len(),
            alias_lookup(all, key@) == alias_lookup(all.subrange(i as int, all.len() as int), key@),
        decreases all.len() - i,
    {
        let ghost rest = all.subrange(i as int, all.len() as int);
        assert(rest[0] == all[i as int]);
        assert(rest.subrange(1, rest.len() as int) =~= all.subrange(i + 1, all.len() as int));
        if str_eq(entries[i].0.as_str(), key) {
            return entries[i].1.as_str();
        }
        i = i + 1;
    }
    key
}

impl ScenarioSpec {
    /// The account a step's `as` names.
    pub fn resolve_account_ref<'a>(&'a self, alias_or_name: &'a str) -> (r: &'a str)
        ensures
            r@ == spec_resolve_ref(self.accounts@, alias_or_name@),
    {
        resolve_ref(&self.accounts, alias_or_name)
    }

    /// The peer query a step's target names.
    pub fn resolve_target_ref<'a>(&'a self, alias_or_query: &'a str) -> (r: &'a str)
        ensures
            r@ == spec_resolve_ref(self.targets@, alias_or_query@),
    {
        resolve_ref(&self.targets, alias_or_query)
    }
}

} // verus!
