//! Plugin activation: from the ordered list of plugin names to the chain of
//! plugin branches and the aggregated help.

use crate::config::{Config, PluginKind, StartupFault};
use crate::docker::DockerHandler;
use crate::system::SysHandler;
use crate::text::texts;
use crate::transmission::TransmissionHandler;
use vstd::prelude::*;
use vstd::string::*;

verus! {

/// What the aggregated help starts with.
pub const HELP_HEADER: &'static str = "TG-CAPTAIN help\n\n";

/// The plugin that a name stands for, if the system knows the name.
pub open spec fn kind_of(name: Seq<char>) -> Option<PluginKind> {
    if name == crate::system::NAME@ {
        Some(PluginKind::Sys)
    } else if name == crate::transmission::NAME@ {
        Some(PluginKind::Transmission)
    } else if name == crate::docker::NAME@ {
        Some(PluginKind::Docker)
    } else {
        None
    }
}

/// Whether position `i` of the list is the first at which its name stands.
pub open spec fn first_listing(names: Seq<Seq<char>>, i: int) -> bool {
    forall|j: int| 0 <= j < i ==> #[trigger] names[j] != names[i]
}

/// Whether the name at position `i` activates a plugin: the system knows it
/// and it was not listed before.
pub open spec fn activates(names: Seq<Seq<char>>, i: int) -> bool {
    first_listing(names, i) && kind_of(names[i]) is Some
}

/// The plugins that the first `upto` names activate, in activation order.
pub open spec fn chain_upto(names: Seq<Seq<char>>, upto: int) -> Seq<PluginKind>
    decreases upto,
{
    if upto <= 0 {
        Seq::empty()
    } else if activates(names, upto - 1) {
        chain_upto(names, upto - 1).push(kind_of(names[upto - 1]).unwrap())
    } else {
        chain_upto(names, upto - 1)
    }
}

/// The plugins that a list of names activates, in activation order.
pub open spec fn chain(names: Seq<Seq<char>>) -> Seq<PluginKind> {
    chain_upto(names, names.len() as int)
}

/// A diagnostic of the activation. Neither is fatal.
#[derive(Clone, Copy, PartialEq, Eq, Structural, Debug)]
pub enum Notice {
    /// The name at this position of the list was listed before.
    AlreadyEnabled { position: usize },
    /// The system knows no plugin of the name at this position.
    NotFound { position: usize },
}

/// The diagnostic line for a notice, for the list of names that gave rise
/// to it.
pub open spec fn notice_text(notice: Notice, names: Seq<Seq<char>>) -> Seq<char> {
    match notice {
        Notice::AlreadyEnabled { position } => "Plugin "@ + names[position as int]
            + " is alredy enabled"@,
        Notice::NotFound { position } => "Plugin "@ + names[position as int] + " not found"@,
    }
}

impl Notice {
    /// The position in the list of names that the notice speaks of.
    pub open spec fn at(&self) -> usize {
        match *self {
            Notice::AlreadyEnabled { position } => position,
            Notice::NotFound { position } => position,
        }
    }

    /// Writes the diagnostic line for the notice. A notice that speaks of a
    /// position beyond the list has no line.
    pub fn message(&self, plugins: &Vec<String>) -> (r: Option<String>)
        ensures
            self.at() < plugins.len() ==> r is Some && r.unwrap()@ == notice_text(
                *self,
                texts(plugins@),
            ),
            self.at() >= plugins.len() ==> r is None,
    {
        match *self {
            Notice::AlreadyEnabled { position } => {
                if position < plugins.len() {
                    let mut r = String::from_str("Plugin ");
                    r.append(plugins[position].as_str());
                    r.append(" is alredy enabled");
                    Some(r)
                } else {
                    None
                }
            },
            Notice::NotFound { position } => {
                if position < plugins.len() {
                    let mut r = String::from_str("Plugin ");
                    r.append(plugins[position].as_str());
                    r.append(" not found");
                    Some(r)
                } else {
                    None
                }
            },
        }
    }
}

/// The diagnostics that the first `upto` names give rise to, in order.
pub open spec fn notices_upto(names: Seq<Seq<char>>, upto: int) -> Seq<Notice>
    decreases upto,
{
    if upto <= 0 {
        Seq::empty()
    } else if !first_listing(names, upto - 1) {
        notices_upto(names, upto - 1).push(
            Notice::AlreadyEnabled { position: (upto - 1) as usize },
        )
    } else if kind_of(names[upto - 1]) is None {
        notices_upto(names, upto - 1).push(Notice::NotFound { position: (upto - 1) as usize })
    } else {
        notices_upto(names, upto - 1)
    }
}

/// Whether the name at position `i` activates a plugin whose configuration
/// block is absent.
pub open spec fn missing_at(names: Seq<Seq<char>>, config: Config, i: int) -> bool {
    activates(names, i) && !config.configured(kind_of(names[i]).unwrap())
}

/// The first position below `upto` at which a plugin without configuration
/// is activated.
pub open spec fn first_missing(names: Seq<Seq<char>>, config: Config, upto: int) -> Option<int>
    decreases upto,
{
    if upto <= 0 {
        None
    } else {
        match first_missing(names, config, upto - 1) {
            Some(i) => Some(i),
            None => if missing_at(names, config, upto - 1) {
                Some(upto - 1)
            } else {
                None
            },
        }
    }
}

/// Once a position is the first without configuration, it stays so as more
/// names are read.
proof fn lemma_first_missing_stays(names: Seq<Seq<char>>, config: Config, from: int, upto: int)
    requires
        from <= upto,
        first_missing(names, config, from) is Some,
    ensures
        first_missing(names, config, upto) == first_missing(names, config, from),
    decreases upto - from,
{
    if from < upto {
        lemma_first_missing_stays(names, config, from, upto - 1);
    }
}

/// The one-line summary of a plugin.
pub open spec fn short_help_of(kind: PluginKind) -> Seq<char> {
    match kind {
        PluginKind::Sys => crate::system::SHORT_HELP@,
        PluginKind::Transmission => crate::transmission::SHORT_HELP@,
        PluginKind::Docker => crate::docker::SHORT_HELP@,
    }
}

/// The aggregated help for a chain: the header, then the summary of each
/// plugin in chain order, each followed by a line break.
pub open spec fn help_aggregate(kinds: Seq<PluginKind>) -> Seq<char>
    decreases kinds.len(),
{
    if kinds.len() == 0 {
        HELP_HEADER@
    } else {
        help_aggregate(kinds.drop_last()) + short_help_of(kinds.last()) + "\n"@
    }
}

/// What `first_missing` finds is the least position at which a plugin
/// without configuration is activated; it finds nothing only where there is
/// no such position.
pub proof fn lemma_first_missing_is_least(names: Seq<Seq<char>>, config: Config, upto: int)
    ensures
        match first_missing(names, config, upto) {
            Some(i) => 0 <= i < upto && missing_at(names, config, i) && forall|j: int|
                0 <= j < i ==> !missing_at(names, config, j),
            None => forall|j: int| 0 <= j < upto ==> !missing_at(names, config, j),
        },
    decreases upto,
{
    if upto > 0 {
        lemma_first_missing_is_least(names, config, upto - 1);
    }
}

/// The first position at which the name of position `i` stands.
proof fn lemma_first_occurrence(names: Seq<Seq<char>>, i: int) -> (j: int)
    requires
        0 <= i < names.len(),
    ensures
        0 <= j <= i,
        names[j] == names[i],
        first_listing(names, j),
    decreases i,
{
    if first_listing(names, i) {
        i
    } else {
        let k = choose|k: int| 0 <= k < i && #[trigger] names[k] == names[i];
        lemma_first_occurrence(names, k)
    }
}

/// Listing a plugin whose configuration block is absent is fatal: the
/// activation finds a fault, wherever in the list the name stands and
/// however often.
pub proof fn lemma_unconfigured_plugin_is_fatal(names: Seq<Seq<char>>, config: Config, i: int)
    requires
        0 <= i < names.len(),
        kind_of(names[i]) is Some,
        !config.configured(kind_of(names[i]).unwrap()),
    ensures
        first_missing(names, config, names.len() as int) is Some,
{
    let j = lemma_first_occurrence(names, i);
    assert(missing_at(names, config, j));
    lemma_first_missing_is_least(names, config, names.len() as int);
}

/// Each plugin of the chain was activated by a name of the list.
proof fn lemma_chain_member(names: Seq<Seq<char>>, upto: int, p: int) -> (i: int)
    requires
        0 <= p < chain_upto(names, upto).len(),
    ensures
        0 <= i < upto,
        kind_of(names[i]) == Some(chain_upto(names, upto)[p]),
    decreases upto,
{
    if activates(names, upto - 1) && p == chain_upto(names, upto - 1).len() {
        upto - 1
    } else {
        lemma_chain_member(names, upto - 1, p)
    }
}

proof fn lemma_chain_upto_no_duplicates(names: Seq<Seq<char>>, upto: int)
    ensures
        chain_upto(names, upto).no_duplicates(),
    decreases upto,
{
    if upto > 0 {
        lemma_chain_upto_no_duplicates(names, upto - 1);
        let before = chain_upto(names, upto - 1);
        if activates(names, upto - 1) {
            let kind = kind_of(names[upto - 1]).unwrap();
            assert forall|p: int| 0 <= p < before.len() implies before[p] != kind by {
                let i = lemma_chain_member(names, upto - 1, p);
                if before[p] == kind {
                    assert(names[i] == names[upto - 1]);
                }
            }
        }
    }
}

proof fn lemma_chain_upto_skips_relisting(names: Seq<Seq<char>>, j: int, upto: int)
    requires
        0 <= j < names.len(),
        !first_listing(names, j),
        0 <= upto <= names.len(),
    ensures
        upto <= j ==> chain_upto(names.remove(j), upto) == chain_upto(names, upto),
        upto > j ==> chain_upto(names.remove(j), upto - 1) == chain_upto(names, upto),
    decreases upto,
{
    let rest = names.remove(j);
    if upto > 0 {
        lemma_chain_upto_skips_relisting(names, j, upto - 1);
        if upto <= j {
            assert(rest[upto - 1] == names[upto - 1]);
            assert(first_listing(rest, upto - 1) == first_listing(names, upto - 1)) by {
                assert forall|k: int| 0 <= k < upto - 1 implies rest[k] == names[k] by {}
            }
        } else if upto > j + 1 {
            let last = upto - 1;
            assert(rest[last - 1] == names[last]);
            let earlier = choose|k: int| 0 <= k < j && #[trigger] names[k] == names[j];
            if first_listing(names, last) {
                assert forall|k: int| 0 <= k < last - 1 implies #[trigger] rest[k] != rest[last
                    - 1] by {
                    if k < j {
                        assert(rest[k] == names[k]);
                    } else {
                        assert(rest[k] == names[k + 1]);
                    }
                }
            }
            if first_listing(rest, last - 1) {
                assert forall|k: int| 0 <= k < last implies #[trigger] names[k] != names[last] by {
                    if k < j {
                        assert(rest[k] == names[k]);
                    } else if k > j {
                        assert(rest[k - 1] == names[k]);
                    } else {
                        assert(rest[earlier] == names[earlier]);
                    }
                }
            }
        }
    }
}

/// A plugin that is listed more than once has exactly one branch, and with
/// it one line of the aggregated help: no plugin stands twice in the chain.
pub proof fn lemma_chain_has_no_duplicates(names: Seq<Seq<char>>)
    ensures
        chain(names).no_duplicates(),
{
    lemma_chain_upto_no_duplicates(names, names.len() as int);
}

/// A plugin that is listed more than once stands in the chain at the place
/// of its first listing: striking a later listing of a name from the list
/// changes neither the chain nor the aggregated help.
pub proof fn lemma_relisting_changes_nothing(names: Seq<Seq<char>>, j: int)
    requires
        0 <= j < names.len(),
        !first_listing(names, j),
    ensures
        chain(names.remove(j)) == chain(names),
        help_aggregate(chain(names.remove(j))) == help_aggregate(chain(names)),
{
    lemma_chain_upto_skips_relisting(names, j, names.len() as int);
}

/// A plugin's branch of the dispatch chain, with the configuration it was
/// built from.
#[derive(Clone, PartialEq, Eq, Debug)]
pub enum Branch {
    Sys(SysHandler),
    Transmission(TransmissionHandler),
    Docker(DockerHandler),
}

impl Branch {
    /// The plugin that the branch belongs to.
    pub open spec fn kind(&self) -> PluginKind {
        match *self {
            Branch::Sys(_) => PluginKind::Sys,
            Branch::Transmission(_) => PluginKind::Transmission,
            Branch::Docker(_) => PluginKind::Docker,
        }
    }

    /// Whether the branch holds what `config` configures for its plugin.
    pub open spec fn built_from(&self, config: Config) -> bool {
        match *self {
            Branch::Sys(handler) => config.sys is Some && handler.host_info@
                == config.sys.unwrap().ping@,
            Branch::Transmission(handler) => config.transmission is Some && handler.url@
                == config.transmission.unwrap().rpc@,
            Branch::Docker(handler) => config.docker is Some && crate::docker::connection_for(
                handler.connection,
                config.docker.unwrap().mode@,
                endpoint_of(config.docker.unwrap().path),
            ),
        }
    }

    /// The plugin that the branch belongs to.
    pub fn plugin(&self) -> (kind: PluginKind)
        ensures
            kind == self.kind(),
    {
        match self {
            Branch::Sys(_) => PluginKind::Sys,
            Branch::Transmission(_) => PluginKind::Transmission,
            Branch::Docker(_) => PluginKind::Docker,
        }
    }
}

/// The endpoint address of a container-engine block: the configured one, or
/// the empty text where none is configured.
pub open spec fn endpoint_of(path: Option<String>) -> Seq<char> {
    match path {
        Some(p) => p@,
        None => Seq::empty(),
    }
}

/// The plugins of a sequence of branches.
pub open spec fn kinds_of(branches: Seq<Branch>) -> Seq<PluginKind> {
    Seq::new(branches.len(), |i: int| branches[i].kind())
}

/// The result of the activation.
#[derive(Clone, PartialEq, Eq, Debug)]
pub struct Registry {
    /// The plugin branches in activation order.
    pub branches: Vec<Branch>,
    /// The aggregated help.
    pub help_text: String,
    /// The diagnostics to report.
    pub notices: Vec<Notice>,
}

impl Registry {
    /// Whether the registry is what activating `config.plugins` under
    /// `config` gives.
    pub open spec fn activated_from(&self, config: Config) -> bool {
        let names = texts(config.plugins@);
        &&& kinds_of(self.branches@) == chain(names)
        &&& forall|i: int|
            0 <= i < self.branches.len() ==> (#[trigger] self.branches[i]).built_from(config)
        &&& self.help_text@ == help_aggregate(chain(names))
        &&& self.notices@ == notices_upto(names, names.len() as int)
    }
}

/// Reads a plugin name.
pub fn plugin_of(name: &str) -> (r: Option<PluginKind>)
    ensures
        r == kind_of(name@),
{
    if name.eq(crate::system::NAME) {
        Some(PluginKind::Sys)
    } else if name.eq(crate::transmission::NAME) {
        Some(PluginKind::Transmission)
    } else if name.eq(crate::docker::NAME) {
        Some(PluginKind::Docker)
    } else {
        None
    }
}

/// Whether the name at position `i` stands at an earlier position too.
fn listed_before(plugins: &Vec<String>, i: usize) -> (r: bool)
    requires
        i < plugins.len(),
    ensures
        r == !first_listing(texts(plugins@), i as int),
{
    let ghost names = texts(plugins@);
    let mut j: usize = 0;
    while j < i
        invariant
            j <= i,
            i < plugins.len(),
            names == texts(plugins@),
            forall|k: int| 0 <= k < j ==> #[trigger] names[k] != names[i as int],
        decreases i - j,
    {
        if plugins[j].as_str().eq(plugins[i].as_str()) {
            assert(names[j as int] == names[i as int]);
            return true;
        }
        j = j + 1;
    }
    false
}

fn clone_targets(targets: &Vec<(String, String)>) -> (r: Vec<(String, String)>)
    ensures
        r@ == targets@,
{
    let mut r: Vec<(String, String)> = Vec::new();
    let mut i: usize = 0;
    while i < targets.len()
        invariant
            i <= targets.len(),
            r@ == targets@.take(i as int),
        decreases targets.len() - i,
    {
        let label = targets[i].0.clone();
        let target = targets[i].1.clone();
        r.push((label, target));
        assert(targets@.take(i + 1) =~= targets@.take(i as int).push(targets@[i as int]));
        i = i + 1;
    }
    assert(targets@.take(targets.len() as int) =~= targets@);
    r
}

/// The branch of `kind`, built from its configuration block, or nothing
/// where the block is absent.
fn build_branch(kind: PluginKind, config: &Config) -> (r: Option<Branch>)
    ensures
        r is Some <==> config.configured(kind),
        r matches Some(branch) ==> branch.kind() == kind && branch.built_from(*config),
{
    match kind {
        PluginKind::Sys => match &config.sys {
            Some(block) => Some(
                Branch::Sys(crate::system::get_update_handler(clone_targets(&block.ping))),
            ),
            None => None,
        },
        PluginKind::Transmission => match &config.transmission {
            Some(block) => Some(
                Branch::Transmission(crate::transmission::get_update_handler(&block.rpc)),
            ),
            None => None,
        },
        PluginKind::Docker => match &config.docker {
            Some(block) => {
                let value = match &block.path {
                    Some(p) => p.clone(),
                    None => String::new(),
                };
                Some(Branch::Docker(crate::docker::get_update_handler(&block.mode, &value)))
            },
            None => None,
        },
    }
}

/// The one-line summary that a plugin advertises.
pub fn short_help(kind: PluginKind) -> (r: String)
    ensures
        r@ == short_help_of(kind),
{
    match kind {
        PluginKind::Sys => crate::system::get_short_help(),
        PluginKind::Transmission => crate::transmission::get_short_help(),
        PluginKind::Docker => crate::docker::get_short_help(),
    }
}

/// The usage text of a plugin.
pub open spec fn full_help_of(kind: PluginKind) -> Seq<char> {
    match kind {
        PluginKind::Sys => crate::system::HELP_TEXT@,
        PluginKind::Transmission => crate::transmission::HELP_TEXT@,
        PluginKind::Docker => crate::docker::HELP_TEXT@,
    }
}

/// The usage text that a plugin advertises.
pub fn full_help(kind: PluginKind) -> (r: String)
    ensures
        r@ == full_help_of(kind),
{
    match kind {
        PluginKind::Sys => crate::system::get_info_help_text(),
        PluginKind::Transmission => crate::transmission::get_command_handler_help_text(),
        PluginKind::Docker => crate::docker::get_docker_command_help_text(),
    }
}

/// Activates the listed plugins in order.
///
/// A name that was listed before is passed over with a notice, and so is a
/// name that the system does not know. The first name that activates a
/// plugin whose configuration block is absent ends the activation with a
/// fault that names the plugin. Without such a name the activation
/// succeeds: each activated plugin has one branch, built from its block, in
/// the order of activation, and one line of the aggregated help.
pub fn activate(config: &Config) -> (r: Result<Registry, StartupFault>)
    ensures
        match first_missing(texts(config.plugins@), *config, config.plugins.len() as int) {
            Some(i) => r == Err::<Registry, StartupFault>(
                StartupFault::MissingConfig(kind_of(texts(config.plugins@)[i]).unwrap()),
            ),
            None => r matches Ok(registry) && registry.activated_from(*config),
        },
{
    let plugins = &config.plugins;
    let ghost names = texts(plugins@);
    let mut branches: Vec<Branch> = Vec::new();
    let mut help_text = String::from_str(HELP_HEADER);
    let mut notices: Vec<Notice> = Vec::new();
    let mut i: usize = 0;
    assert(kinds_of(branches@) =~= chain_upto(names, 0));
    while i < plugins.len()
        invariant
            i <= plugins.len(),
            plugins == &config.plugins,
            names == texts(plugins@),
            first_missing(names, *config, i as int) is None,
            kinds_of(branches@) == chain_upto(names, i as int),
            forall|k: int| 0 <= k < branches.len() ==> (#[trigger] branches[k]).built_from(*config),
            help_text@ == help_aggregate(chain_upto(names, i as int)),
            notices@ == notices_upto(names, i as int),
        decreases plugins.len() - i,
    {
        let ghost before = chain_upto(names, i as int);
        let ghost old_branches = branches@;
        if listed_before(plugins, i) {
            notices.push(Notice::AlreadyEnabled { position: i });
        } else {
            match plugin_of(plugins[i].as_str()) {
                Some(kind) => {
                    match build_branch(kind, config) {
                        Some(branch) => {
                            branches.push(branch);
                            let line = short_help(kind);
                            help_text.append(line.as_str());
                            help_text.append("\n");
                            proof {
                                assert(kinds_of(branches@) =~= before.push(kind));
                                assert(before.push(kind).drop_last() =~= before);
                                assert(help_text@ =~= help_aggregate(before) + short_help_of(kind)
                                    + "\n"@);
                                assert forall|k: int| 0 <= k < branches.len() implies (
                                #[trigger] branches[k]).built_from(*config) by {
                                    if k < old_branches.len() {
                                        assert(branches[k] == old_branches[k]);
                                    }
                                }
                            }
                        },
                        None => {
                            proof {
                                assert(missing_at(names, *config, i as int));
                                assert(first_missing(names, *config, i + 1) == Some(i as int));
                                lemma_first_missing_stays(
                                    names,
                                    *config,
                                    i + 1,
                                    plugins.len() as int,
                                );
                            }
                            return Err(StartupFault::MissingConfig(kind));
                        },
                    }
                },
                None => {
                    notices.push(Notice::NotFound { position: i });
                },
            }
        }
        i = i + 1;
    }
    Ok(Registry { branches, help_text, notices })
}

} // verus!
