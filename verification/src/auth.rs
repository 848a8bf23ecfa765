//! The authorization gate in front of the plugin chain.

use crate::config::{Config, StartupFault};
use vstd::prelude::*;

verus! {

/// The allow-list. It is fixed when the authorization gate is built.
#[derive(Clone, PartialEq, Eq, Debug)]
pub struct SecurityParameters {
    pub admins: Vec<u64>,
}

/// The authorization gate: absent from the chain, or admitting the
/// allow-listed senders only.
#[derive(Clone, PartialEq, Eq, Debug)]
pub enum Gate {
    Disabled,
    Enabled(SecurityParameters),
}

impl Gate {
    /// Whether an update from `sender` passes. A disabled gate lets every
    /// update pass. An enabled gate lets an update pass where its sender is
    /// known and on the allow-list.
    pub open spec fn admits(&self, sender: Option<u64>) -> bool {
        match *self {
            Gate::Disabled => true,
            Gate::Enabled(parameters) => sender is Some && parameters.admins@.contains(
                sender.unwrap(),
            ),
        }
    }

    /// Decides whether an update from `sender` passes.
    pub fn check(&self, sender: Option<u64>) -> (r: bool)
        ensures
            r == self.admits(sender),
    {
        match self {
            Gate::Disabled => true,
            Gate::Enabled(parameters) => match sender {
                Some(id) => contains_id(&parameters.admins, id),
                None => false,
            },
        }
    }
}

/// Whether `id` is among `ids`.
pub fn contains_id(ids: &Vec<u64>, id: u64) -> (r: bool)
    ensures
        r == ids@.contains(id),
{
    let mut i: usize = 0;
    while i < ids.len()
        invariant
            i <= ids.len(),
            forall|j: int| 0 <= j < i ==> ids@[j] != id,
        decreases ids.len() - i,
    {
        if ids[i] == id {
            return true;
        }
        i = i + 1;
    }
    false
}

/// Whether `gate` is what `config` asks for: disabled where
/// security is switched off, else enabled with the configured allow-list.
pub open spec fn gate_fits(gate: Gate, config: Config) -> bool {
    match gate {
        Gate::Disabled => !config.security,
        Gate::Enabled(parameters) => config.security && config.has_admins()
            && parameters.admins@ == config.admins.unwrap()@,
    }
}

/// Builds the authorization gate. With security switched off it is
/// disabled, whatever the allow-list holds. With security switched on the allow-list
/// must be present and hold at least one identity; without one the
/// configuration is at fault.
pub fn build_gate(config: &Config) -> (r: Result<Gate, StartupFault>)
    ensures
        match r {
            Ok(gate) => gate_fits(gate, *config),
            Err(fault) => fault == StartupFault::NoAdmins && config.security
                && !config.has_admins(),
        },
{
    if !config.security {
        return Ok(Gate::Disabled);
    }
    match &config.admins {
        Some(list) => {
            if list.len() == 0 {
                Err(StartupFault::NoAdmins)
            } else {
                let mut admins: Vec<u64> = Vec::new();
                let mut i: usize = 0;
                while i < list.len()
                    invariant
                        i <= list.len(),
                        admins@ == list@.take(i as int),
                    decreases list.len() - i,
                {
                    admins.push(list[i]);
                    assert(list@.take(i + 1) =~= list@.take(i as int).push(list@[i as int]));
                    i = i + 1;
                }
                assert(list@.take(list.len() as int) =~= list@);
                Ok(Gate::Enabled(SecurityParameters { admins }))
            }
        },
        None => Err(StartupFault::NoAdmins),
    }
}

/// With security switched off every sender identity, and an update without
/// one, reaches the plugin chain.
pub proof fn lemma_disabled_gate_admits_all(sender: Option<u64>)
    ensures
        Gate::Disabled.admits(sender),
{
}

/// With security switched on an update passes exactly where its sender is
/// known and on the allow-list: a sender off the list is dropped, and so is
/// an update whose sender cannot be determined.
pub proof fn lemma_enabled_gate(parameters: SecurityParameters, sender: Option<u64>)
    ensures
        Gate::Enabled(parameters).admits(sender) <==> (sender is Some && parameters.admins@.contains(
            sender.unwrap(),
        )),
        !Gate::Enabled(parameters).admits(None),
{
}

} // verus!
