//! The typed configuration that the pipeline is built from. It is read once
//! and never changed.

use vstd::prelude::*;
use vstd::string::*;

verus! {

/// The configuration block of the host plugin: probe targets, a friendly
/// label and a `protocol:host:port` target for each.
#[derive(Clone, PartialEq, Eq, Debug)]
pub struct SysConfig {
    pub ping: Vec<(String, String)>,
}

/// The configuration block of the container-engine plugin: a connection
/// mode and, for the modes that need one, an endpoint address.
#[derive(Clone, PartialEq, Eq, Debug)]
pub struct DockerConfig {
    pub mode: String,
    pub path: Option<String>,
}

/// The configuration block of the download-queue plugin: the RPC endpoint.
#[derive(Clone, PartialEq, Eq, Debug)]
pub struct TransmissionConfig {
    pub rpc: String,
}

/// The process configuration.
#[derive(Clone, PartialEq, Eq, Debug)]
pub struct Config {
    /// The transport credential.
    pub token: String,
    /// Whether only allow-listed senders are served.
    pub security: bool,
    /// The allow-list of sender identities.
    pub admins: Option<Vec<u64>>,
    /// The names of the plugins to activate, in order.
    pub plugins: Vec<String>,
    pub sys: Option<SysConfig>,
    pub docker: Option<DockerConfig>,
    pub transmission: Option<TransmissionConfig>,
}

/// The plugins that the system knows.
#[derive(Clone, Copy, PartialEq, Eq, Structural, Debug)]
pub enum PluginKind {
    Sys,
    Transmission,
    Docker,
}

/// A configuration fault that ends the start-up.
#[derive(Clone, Copy, PartialEq, Eq, Structural, Debug)]
pub enum StartupFault {
    /// A plugin is listed for activation and its configuration block is
    /// absent.
    MissingConfig(PluginKind),
    /// Security is switched on and the allow-list is absent or empty.
    NoAdmins,
}

impl Config {
    /// Whether the configuration block of `kind` is present.
    pub open spec fn configured(&self, kind: PluginKind) -> bool {
        match kind {
            PluginKind::Sys => self.sys is Some,
            PluginKind::Transmission => self.transmission is Some,
            PluginKind::Docker => self.docker is Some,
        }
    }

    /// Whether the allow-list is present and holds at least one identity.
    pub open spec fn has_admins(&self) -> bool {
        self.admins is Some && self.admins.unwrap().len() > 0
    }
}

/// The text that reports a start-up fault.
pub open spec fn fault_text(fault: StartupFault) -> Seq<char> {
    match fault {
        StartupFault::MissingConfig(PluginKind::Sys) => "Sys Config is not present"@,
        StartupFault::MissingConfig(PluginKind::Transmission) => "Transmission Config is not present"@,
        StartupFault::MissingConfig(PluginKind::Docker) => "Docker Config is not present"@,
        StartupFault::NoAdmins => "Security activated but no admins provided!"@,
    }
}

impl StartupFault {
    /// The diagnostic message for the fault. It names the plugin whose
    /// configuration is missing.
    pub fn message(&self) -> (r: String)
        ensures
            r@ == fault_text(*self),
    {
        match self {
            StartupFault::MissingConfig(PluginKind::Sys) => "Sys Config is not present".to_owned(),
            StartupFault::MissingConfig(PluginKind::Transmission) => "Transmission Config is not present".to_owned(),
            StartupFault::MissingConfig(PluginKind::Docker) => "Docker Config is not present".to_owned(),
            StartupFault::NoAdmins => "Security activated but no admins provided!".to_owned(),
        }
    }
}

/// Whether no label stands twice in a table of probe targets.
pub open spec fn distinct_labels(table: Seq<(String, String)>) -> bool {
    forall|i: int, j: int|
        0 <= i < j < table.len() ==> (#[trigger] table[i]).0@ != (#[trigger] table[j]).0@
}

/// Whether the table holds an entry under `label`.
pub open spec fn has_label(table: Seq<(String, String)>, label: Seq<char>) -> bool {
    exists|k: int| 0 <= k < table.len() && (#[trigger] table[k]).0@ == label
}

/// Whether the table holds `target` under `label`.
pub open spec fn holds_target(
    table: Seq<(String, String)>,
    label: Seq<char>,
    target: Seq<char>,
) -> bool {
    exists|k: int| 0 <= k < table.len() && (#[trigger] table[k]).0@ == label && table[k].1@ == target
}

/// The position of `label` in the table, if it stands there.
pub fn find_label(table: &Vec<(String, String)>, label: &str) -> (r: Option<usize>)
    ensures
        match r {
            Some(i) => i < table.len() && table[i as int].0@ == label@,
            None => forall|k: int| 0 <= k < table.len() ==> (#[trigger] table[k]).0@ != label@,
        },
{
    let mut i: usize = 0;
    while i < table.len()
        invariant
            i <= table.len(),
            forall|k: int| 0 <= k < i ==> (#[trigger] table[k]).0@ != label@,
        decreases table.len() - i,
    {
        if table[i].0.as_str().eq(label) {
            return Some(i);
        }
        i = i + 1;
    }
    None
}

/// Enters a probe target under its label. A label that the table holds
/// already keeps its place and gets the new target; a new label goes to the
/// end. The other entries stay as they are, and a table in which no label
/// stands twice stays so.
pub fn insert_target(table: &mut Vec<(String, String)>, label: String, target: String)
    ensures
        distinct_labels(old(table)@) ==> distinct_labels(final(table)@),
        holds_target(final(table)@, label@, target@),
        forall|k: int|
            0 <= k < old(table).len() && (#[trigger] old(table)[k]).0@ != label@ ==> k < final(table).len()
                && final(table)[k] == old(table)[k],
        final(table).len() == old(table).len() + (if has_label(old(table)@, label@) {
            0int
        } else {
            1int
        }),
{
    match find_label(table, label.as_str()) {
        Some(i) => {
            let ghost before = table@;
            table.set(i, (label, target));
            proof {
                assert(table@[i as int].0@ == label@);
                if distinct_labels(before) {
                    assert forall|a: int, b: int| 0 <= a < b < table.len() implies (
                    #[trigger] table@[a]).0@ != (#[trigger] table@[b]).0@ by {
                        assert(before[a].0@ != before[b].0@);
                    }
                }
            }
        },
        None => {
            let ghost before = table@;
            table.push((label, target));
            proof {
                assert(table@[before.len() as int].0@ == label@);
                if distinct_labels(before) {
                    assert forall|a: int, b: int| 0 <= a < b < table.len() implies (
                    #[trigger] table@[a]).0@ != (#[trigger] table@[b]).0@ by {
                        if b < before.len() {
                            assert(before[a].0@ != before[b].0@);
                        } else {
                            assert(before[a].0@ != label@);
                        }
                    }
                }
            }
        },
    }
}

} // verus!
