//! The dispatcher root: the single entry point for every inbound update.

use crate::auth::{build_gate, gate_fits, Gate};
use crate::config::{Config, PluginKind, StartupFault};
use crate::docker::DockerStep;
use crate::registry::{
    activate, first_missing, kind_of, kinds_of, lemma_first_missing_is_least,
    lemma_unconfigured_plugin_is_fatal, Branch, Registry,
};
use crate::system::SysStep;
use crate::text::texts;
use crate::tokenizer::tokens;
use crate::transmission::{file_filter, is_torrent_document, TorrentCall, TorrentStep};
use vstd::prelude::*;
use vstd::string::*;

verus! {

/// The command of the built-in help branch.
pub const HELP_COMMAND: &'static str = "help";

/// What an inbound update carries.
#[derive(Clone, PartialEq, Eq, Debug)]
pub enum Payload {
    /// A text command: the top-level command name, without its prefix, and
    /// the text that follows it.
    Command { name: String, args: String },
    /// A document attachment with its declared media type.
    Document { media_type: Option<String> },
    /// Anything else.
    Other,
}

/// One inbound update.
#[derive(Clone, PartialEq, Eq, Debug)]
pub struct Inbound {
    /// The sender's identity, where it can be determined.
    pub sender: Option<u64>,
    pub payload: Payload,
}

/// The step of the plugin whose branch took an update.
#[derive(Clone, PartialEq, Eq, Debug)]
pub enum Action {
    Sys(SysStep),
    Transmission(TorrentStep),
    Docker(DockerStep),
}

/// What becomes of one inbound update.
#[derive(Clone, PartialEq, Eq, Debug)]
pub enum Outcome {
    /// The sender is not admitted. Nothing is sent and no branch was
    /// tried.
    Dropped,
    /// No branch matched. The update is logged and nothing is sent.
    Unhandled,
    /// The built-in help branch matched: send the aggregated help.
    Help(String),
    /// The plugin branch at `index` of the chain matched and decided on
    /// `action`.
    Plugin { index: usize, action: Action },
}

/// The top-level command of a plugin.
pub open spec fn command_of(kind: PluginKind) -> Seq<char> {
    match kind {
        PluginKind::Sys => crate::system::COMMAND@,
        PluginKind::Transmission => crate::transmission::COMMAND@,
        PluginKind::Docker => crate::docker::COMMAND@,
    }
}

/// Whether the branch of `kind` matches an update with this payload: a
/// command of the plugin's name, or, for the download queue, a torrent
/// attachment.
pub open spec fn takes(kind: PluginKind, payload: Payload) -> bool {
    match payload {
        Payload::Command { name, args } => name@ == command_of(kind),
        Payload::Document { media_type } => kind == PluginKind::Transmission
            && is_torrent_document(media_type),
        Payload::Other => false,
    }
}

/// The first of the first `upto` branches that matches the payload.
pub open spec fn first_taker(kinds: Seq<PluginKind>, payload: Payload, upto: int) -> Option<int>
    decreases upto,
{
    if upto <= 0 {
        None
    } else {
        match first_taker(kinds, payload, upto - 1) {
            Some(i) => Some(i),
            None => if takes(kinds[upto - 1], payload) {
                Some(upto - 1)
            } else {
                None
            },
        }
    }
}

/// Whether `action` is what the branch of `kind` decides for a payload that
/// it matched: for a command, the plugin's step for the tokens of the
/// argument text; for an attachment, the call that enqueues it.
pub open spec fn action_fits(action: Action, kind: PluginKind, payload: Payload) -> bool {
    match payload {
        Payload::Command { name, args } => match action {
            Action::Sys(step) => kind == PluginKind::Sys && step == crate::system::route_spec(
                tokens(args@),
            ),
            Action::Transmission(step) => kind == PluginKind::Transmission && step
                == crate::transmission::route_spec(tokens(args@)),
            Action::Docker(step) => kind == PluginKind::Docker && step@
                == crate::docker::route_spec(tokens(args@)),
        },
        Payload::Document { media_type } => match action {
            Action::Transmission(step) => kind == PluginKind::Transmission && step
                == TorrentStep::Call(TorrentCall::AddFile),
            _ => false,
        },
        Payload::Other => false,
    }
}

/// Whether the payload is the built-in help command.
pub open spec fn asks_for_help(payload: Payload) -> bool {
    payload matches Payload::Command { name, args } && name@ == HELP_COMMAND@
}

/// The dispatcher: the authorization in front of the plugin chain, and the chain
/// with its aggregated help.
#[derive(Clone, PartialEq, Eq, Debug)]
pub struct Dispatcher {
    pub gate: Gate,
    pub registry: Registry,
}

impl Dispatcher {
    /// Whether `outcome` is what the dispatcher makes of `update`.
    ///
    /// Authorization comes first: an update that is not admitted is dropped.
    /// An admitted update goes to the first plugin branch, in activation
    /// order, that matches it. Where none matches, the help command gets the
    /// aggregated help, and everything else stays unhandled.
    pub open spec fn decides(&self, update: Inbound, outcome: Outcome) -> bool {
        let kinds = kinds_of(self.registry.branches@);
        if !self.gate.admits(update.sender) {
            outcome is Dropped
        } else {
            match first_taker(kinds, update.payload, kinds.len() as int) {
                Some(i) => match outcome {
                    Outcome::Plugin { index, action } => index == i && action_fits(
                        action,
                        kinds[i],
                        update.payload,
                    ),
                    _ => false,
                },
                None => if asks_for_help(update.payload) {
                    match outcome {
                        Outcome::Help(text) => text@ == self.registry.help_text@,
                        _ => false,
                    }
                } else {
                    outcome is Unhandled
                },
            }
        }
    }

    /// Whether the dispatcher is the one that `config` describes.
    pub open spec fn built_from(&self, config: Config) -> bool {
        gate_fits(self.gate, config) && self.registry.activated_from(config)
    }

    /// Decides what becomes of one inbound update.
    pub fn dispatch(&self, update: &Inbound) -> (outcome: Outcome)
        ensures
            self.decides(*update, outcome),
    {
        if !self.gate.check(update.sender) {
            return Outcome::Dropped;
        }
        let branches = &self.registry.branches;
        let ghost kinds = kinds_of(branches@);
        let mut i: usize = 0;
        while i < branches.len()
            invariant
                i <= branches.len(),
                branches == &self.registry.branches,
                kinds == kinds_of(branches@),
                first_taker(kinds, update.payload, i as int) is None,
                self.gate.admits(update.sender),
            decreases branches.len() - i,
        {
            match try_branch(&branches[i], &update.payload) {
                Some(action) => {
                    proof {
                        assert(kinds[i as int] == branches[i as int].kind());
                        assert(first_taker(kinds, update.payload, i + 1) == Some(i as int));
                        lemma_first_taker_stays(kinds, update.payload, i + 1, kinds.len() as int);
                    }
                    return Outcome::Plugin { index: i, action };
                },
                None => {
                    assert(kinds[i as int] == branches[i as int].kind());
                },
            }
            i = i + 1;
        }
        match &update.payload {
            Payload::Command { name, args } => {
                if name.as_str().eq(HELP_COMMAND) {
                    Outcome::Help(self.registry.help_text.clone())
                } else {
                    Outcome::Unhandled
                }
            },
            _ => Outcome::Unhandled,
        }
    }
}

proof fn lemma_first_taker_stays(kinds: Seq<PluginKind>, payload: Payload, from: int, upto: int)
    requires
        from <= upto,
        first_taker(kinds, payload, from) is Some,
    ensures
        first_taker(kinds, payload, upto) == first_taker(kinds, payload, from),
    decreases upto - from,
{
    if from < upto {
        lemma_first_taker_stays(kinds, payload, from, upto - 1);
    }
}

/// The first matching branch wins: what `first_taker` finds is the least
/// position whose branch matches, and it finds nothing only where no branch
/// matches.
pub proof fn lemma_first_taker_is_least(kinds: Seq<PluginKind>, payload: Payload, upto: int)
    ensures
        match first_taker(kinds, payload, upto) {
            Some(i) => 0 <= i < upto && takes(kinds[i], payload) && forall|j: int|
                0 <= j < i ==> !takes(#[trigger] kinds[j], payload),
            None => forall|j: int| 0 <= j < upto ==> !takes(#[trigger] kinds[j], payload),
        },
    decreases upto,
{
    if upto > 0 {
        lemma_first_taker_is_least(kinds, payload, upto - 1);
    }
}

/// Offers a payload to one branch. The branch answers where it matches.
pub fn try_branch(branch: &Branch, payload: &Payload) -> (r: Option<Action>)
    ensures
        r is Some <==> takes(branch.kind(), *payload),
        r matches Some(action) ==> action_fits(action, branch.kind(), *payload),
{
    match payload {
        Payload::Command { name, args } => match branch {
            Branch::Sys(handler) => if name.as_str().eq(crate::system::COMMAND) {
                Some(Action::Sys(handler.handle(args.as_str())))
            } else {
                None
            },
            Branch::Transmission(handler) => if name.as_str().eq(crate::transmission::COMMAND) {
                Some(Action::Transmission(handler.handle(args.as_str())))
            } else {
                None
            },
            Branch::Docker(handler) => if name.as_str().eq(crate::docker::COMMAND) {
                Some(Action::Docker(handler.handle(args.as_str())))
            } else {
                None
            },
        },
        Payload::Document { media_type } => match branch {
            Branch::Transmission(_) => if file_filter(media_type) {
                Some(Action::Transmission(TorrentStep::Call(TorrentCall::AddFile)))
            } else {
                None
            },
            _ => None,
        },
        Payload::Other => None,
    }
}

/// Whether `config` keeps the rules of a configuration: every listed name
/// that the system knows has its configuration block, and with security
/// switched on the allow-list is present and not empty.
pub open spec fn startable(config: Config) -> bool {
    &&& forall|i: int|
        0 <= i < config.plugins.len() && kind_of(#[trigger] texts(config.plugins@)[i]) is Some
            ==> config.configured(kind_of(texts(config.plugins@)[i]).unwrap())
    &&& config.security ==> config.has_admins()
}

/// Builds the dispatcher from the configuration, or reports the fault that
/// forbids serving.
///
/// The plugins are activated first, so a plugin without configuration is
/// reported before a missing allow-list.
pub fn start(config: &Config) -> (r: Result<Dispatcher, StartupFault>)
    ensures
        r is Ok <==> startable(*config),
        match first_missing(texts(config.plugins@), *config, config.plugins.len() as int) {
            Some(i) => r == Err::<Dispatcher, StartupFault>(
                StartupFault::MissingConfig(kind_of(texts(config.plugins@)[i]).unwrap()),
            ),
            None => if config.security && !config.has_admins() {
                r == Err::<Dispatcher, StartupFault>(StartupFault::NoAdmins)
            } else {
                r matches Ok(dispatcher) && dispatcher.built_from(*config)
            },
        },
{
    let ghost names = texts(config.plugins@);
    proof {
        lemma_first_missing_is_least(names, *config, names.len() as int);
        if first_missing(names, *config, names.len() as int) is None {
            assert forall|i: int|
                0 <= i < config.plugins.len() && kind_of(#[trigger] names[i]) is Some implies config.configured(
                kind_of(names[i]).unwrap(),
            ) by {
                if !config.configured(kind_of(names[i]).unwrap()) {
                    lemma_unconfigured_plugin_is_fatal(names, *config, i);
                }
            }
        }
    }
    match activate(config) {
        Ok(registry) => match build_gate(config) {
            Ok(gate) => Ok(Dispatcher { gate, registry }),
            Err(fault) => Err(fault),
        },
        Err(fault) => Err(fault),
    }
}

/// With security switched off an update from any sender, or from none that
/// can be determined, is never dropped: it reaches the plugin chain.
pub proof fn lemma_disabled_gate_drops_nothing(
    dispatcher: Dispatcher,
    update: Inbound,
    outcome: Outcome,
)
    requires
        dispatcher.gate is Disabled,
        dispatcher.decides(update, outcome),
    ensures
        !(outcome is Dropped),
{
}

/// With security switched on an update from an allow-listed sender reaches
/// the plugin chain; an update from any other sender, or from none that can
/// be determined, is dropped: it gets no reply and no plugin acts on it.
pub proof fn lemma_enabled_gate_drops_strangers(
    dispatcher: Dispatcher,
    update: Inbound,
    outcome: Outcome,
)
    requires
        dispatcher.gate is Enabled,
        dispatcher.decides(update, outcome),
    ensures
        outcome is Dropped <==> !(update.sender is Some && dispatcher.gate->0.admins@.contains(
            update.sender.unwrap(),
        )),
{
}

} // verus!
