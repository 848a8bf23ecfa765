//! The container-engine plugin: subcommand routing and the connection that
//! its configuration selects.

use crate::text::texts;
use crate::tokenizer::{subcommand, tokenize, tokens};
use vstd::prelude::*;
use vstd::string::*;

verus! {

/// The name under which the plugin is activated and configured.
pub const NAME: &'static str = "docker";

/// The plugin's one-line summary.
pub const SHORT_HELP: &'static str = "Docker plugin. Usage /docekr [mode]. For detail help /docker help";

/// The top-level command that this plugin answers to.
pub const COMMAND: &'static str = "docker";

/// The socket that the `unix` connection mode uses.
pub const SOCKET_PATH: &'static str = "/var/run/docker.sock";

/// The time allowed for a call to the engine, in seconds.
pub const CONNECTION_TIMEOUT_SECS: u64 = 120;

/// The grace period that `stop` and `restart` give a container, in seconds.
pub const STOP_GRACE_SECS: i64 = 30;

/// The signal that `kill` sends.
pub const KILL_SIGNAL: &'static str = "SIGINT";

/// The usage text of the plugin.
pub const HELP_TEXT: &'static str = r#"
Docker Command Usage:

/docker [subcommand] [arguments]

Available Subcommands:

info or "" (empty)
  Displays information about the Docker installation.

container [sub-subcommand] [arguments]
  Manages Docker containers.
  Sub-subcommands:
    list or ""                  - Lists all containers
    detail or det [name]        - Shows details of a container
    stop [name]                 - Stops a container
    start [name]                - Starts a container
    pause [name]                - Pauses a container
    unpause [name]              - Unpauses a container
    kill [name]                 - Kills a container
    restart [name]              - Restarts a container
    rename [old] [new]          - Renames a container
    prune                       - Removes all stopped containers

image [sub-subcommand] [arguments]
  Manages Docker images.
  Sub-subcommands:
    list                        - Lists all images
    prune                       - Removes unused images

network [sub-subcommand] [arguments]
  Manages Docker networks.
  Sub-subcommands:
    list                        - Lists all networks
    prune                       - Removes unused networks

volume [sub-subcommand] [arguments]
  Manages Docker volumes.
  Sub-subcommands:
    list                        - Lists all volumes
    prune                       - Removes unused volumes

If no subcommand is provided or an invalid subcommand is given, the default behavior is to display the Docker information.

Note: Replace [name], [old], and [new] with the actual names/identifiers of the Docker resources you want to manage.
"#;

/// The named actions of the plugin's subcommand vocabulary.
#[derive(Clone, Copy, PartialEq, Eq, Structural, Debug)]
pub enum DockerOp {
    Info,
    ContainerList,
    ContainerDetail,
    ContainerStop,
    ContainerStart,
    ContainerPause,
    ContainerUnpause,
    ContainerKill,
    ContainerRestart,
    ContainerRename,
    ContainerPrune,
    ImageList,
    ImagePrune,
    NetworkList,
    NetworkPrune,
    VolumeList,
    VolumePrune,
}

/// The fixed replies of the plugin.
#[derive(Clone, Copy, PartialEq, Eq, Structural, Debug)]
pub enum DockerReply {
    Help,
    NeedContainerName,
    NeedRenameNames,
}

/// What the plugin does with one update that its branch matched.
#[derive(Clone, PartialEq, Eq, Debug)]
pub enum DockerStep {
    /// Perform the action with these arguments and reply with its rendered
    /// result.
    Call { op: DockerOp, args: Vec<String> },
    /// Reply with a fixed text; the engine is not contacted.
    Reply(DockerReply),
}

/// The mathematical form of a [`DockerStep`].
pub enum DockerPlan {
    Call { op: DockerOp, args: Seq<Seq<char>> },
    Reply(DockerReply),
}

impl View for DockerStep {
    type V = DockerPlan;

    open spec fn view(&self) -> DockerPlan {
        match *self {
            DockerStep::Call { op, args } => DockerPlan::Call { op, args: texts(args@) },
            DockerStep::Reply(reply) => DockerPlan::Reply(reply),
        }
    }
}

/// What the name tokens of a command select.
#[derive(Clone, Copy, PartialEq, Eq, Structural, Debug)]
pub enum DockerChoice {
    Op(DockerOp),
    Help,
}

/// The container action that the second token names. Without a second
/// token the containers are listed; a name outside the vocabulary selects
/// the usage text.
pub open spec fn select_container(t: Seq<Seq<char>>) -> DockerChoice {
    if t.len() < 2 {
        DockerChoice::Op(DockerOp::ContainerList)
    } else if t[1] == "list"@ || t[1].len() == 0 {
        DockerChoice::Op(DockerOp::ContainerList)
    } else if t[1] == "detail"@ || t[1] == "det"@ {
        DockerChoice::Op(DockerOp::ContainerDetail)
    } else if t[1] == "stop"@ {
        DockerChoice::Op(DockerOp::ContainerStop)
    } else if t[1] == "start"@ {
        DockerChoice::Op(DockerOp::ContainerStart)
    } else if t[1] == "pause"@ {
        DockerChoice::Op(DockerOp::ContainerPause)
    } else if t[1] == "unpause"@ {
        DockerChoice::Op(DockerOp::ContainerUnpause)
    } else if t[1] == "kill"@ {
        DockerChoice::Op(DockerOp::ContainerKill)
    } else if t[1] == "restart"@ {
        DockerChoice::Op(DockerOp::ContainerRestart)
    } else if t[1] == "rename"@ {
        DockerChoice::Op(DockerOp::ContainerRename)
    } else if t[1] == "prune"@ {
        DockerChoice::Op(DockerOp::ContainerPrune)
    } else {
        DockerChoice::Help
    }
}

/// The action that the second token names in a group that can only be
/// listed or pruned. Without a second token the group is listed; a name
/// outside the vocabulary selects the usage text.
pub open spec fn select_listing(t: Seq<Seq<char>>, list: DockerOp, prune: DockerOp) -> DockerChoice {
    if t.len() < 2 {
        DockerChoice::Op(list)
    } else if t[1] == "list"@ {
        DockerChoice::Op(list)
    } else if t[1] == "prune"@ {
        DockerChoice::Op(prune)
    } else {
        DockerChoice::Help
    }
}

/// The action that the name tokens select. An empty subcommand asks for the
/// engine's summary. A subcommand outside the vocabulary gets the usage
/// text, at the first level and inside each group: nothing that reaches the
/// plugin is left without a reply.
pub open spec fn select(t: Seq<Seq<char>>) -> DockerChoice {
    let sub = subcommand(t);
    if sub == "info"@ || sub.len() == 0 {
        DockerChoice::Op(DockerOp::Info)
    } else if sub == "container"@ {
        select_container(t)
    } else if sub == "image"@ {
        select_listing(t, DockerOp::ImageList, DockerOp::ImagePrune)
    } else if sub == "network"@ {
        select_listing(t, DockerOp::NetworkList, DockerOp::NetworkPrune)
    } else if sub == "volume"@ {
        select_listing(t, DockerOp::VolumeList, DockerOp::VolumePrune)
    } else {
        DockerChoice::Help
    }
}

/// The number of arguments that an action needs after its two name tokens.
pub open spec fn arity(op: DockerOp) -> nat {
    match op {
        DockerOp::ContainerDetail => 1,
        DockerOp::ContainerStop => 1,
        DockerOp::ContainerStart => 1,
        DockerOp::ContainerPause => 1,
        DockerOp::ContainerUnpause => 1,
        DockerOp::ContainerKill => 1,
        DockerOp::ContainerRestart => 1,
        DockerOp::ContainerRename => 2,
        _ => 0,
    }
}

/// The reply to an invocation of `op` that lacks arguments.
pub open spec fn usage_hint(op: DockerOp) -> DockerReply {
    match op {
        DockerOp::ContainerRename => DockerReply::NeedRenameNames,
        _ => DockerReply::NeedContainerName,
    }
}

/// The number of tokens after the two name tokens.
pub open spec fn args_given(t: Seq<Seq<char>>) -> nat {
    if t.len() < 2 {
        0
    } else {
        (t.len() - 2) as nat
    }
}

/// The step for a selected action: its call with the arguments it needs,
/// taken from behind the two name tokens, or its usage hint where too few
/// were given.
pub open spec fn plan_for(op: DockerOp, t: Seq<Seq<char>>) -> DockerPlan {
    if args_given(t) < arity(op) {
        DockerPlan::Reply(usage_hint(op))
    } else if arity(op) == 0 {
        DockerPlan::Call { op, args: Seq::empty() }
    } else {
        DockerPlan::Call { op, args: t.subrange(2, 2 + arity(op) as int) }
    }
}

/// The step for what the name tokens selected.
pub open spec fn plan_of(choice: DockerChoice, t: Seq<Seq<char>>) -> DockerPlan {
    match choice {
        DockerChoice::Op(op) => plan_for(op, t),
        DockerChoice::Help => DockerPlan::Reply(DockerReply::Help),
    }
}

/// The step that the plugin takes for the tokens `t` of a command.
pub open spec fn route_spec(t: Seq<Seq<char>>) -> DockerPlan {
    plan_of(select(t), t)
}

/// An action invoked with fewer arguments than it needs is answered with
/// its usage hint and makes no call; with as many or more it makes its call,
/// with exactly the arguments it needs.
pub proof fn lemma_arity_check(t: Seq<Seq<char>>, op: DockerOp)
    requires
        select(t) == DockerChoice::Op(op),
    ensures
        args_given(t) < arity(op) ==> route_spec(t) == DockerPlan::Reply(usage_hint(op)),
        args_given(t) >= arity(op) ==> route_spec(t) is Call && route_spec(t)->op == op
            && route_spec(t)->args.len() == arity(op),
{
}

/// A subcommand outside the vocabulary makes no call: it is answered with
/// the usage text.
pub proof fn lemma_unknown_subcommand_gets_help(t: Seq<Seq<char>>)
    requires
        select(t) == DockerChoice::Help,
    ensures
        route_spec(t) == DockerPlan::Reply(DockerReply::Help),
{
}

/// An empty command body is routed as `info` is.
pub proof fn lemma_empty_body_is_info()
    ensures
        route_spec(tokens(Seq::<char>::empty())) == route_spec(seq!["info"@]),
{
}

/// The one-line summary for the aggregated help.
pub fn get_short_help() -> (r: String)
    ensures
        r@ == SHORT_HELP@,
{
    String::from_str(SHORT_HELP)
}

/// The full usage text, sent for `help` and for an unknown subcommand.
pub fn get_docker_command_help_text() -> (r: String)
    ensures
        r@ == HELP_TEXT@,
{
    String::from_str(HELP_TEXT)
}

/// The text of a fixed reply.
pub open spec fn reply_text(reply: DockerReply) -> Seq<char> {
    match reply {
        DockerReply::Help => HELP_TEXT@,
        DockerReply::NeedContainerName => "Please provide container name"@,
        DockerReply::NeedRenameNames => "Please provide old container name and new conteiner name"@,
    }
}

impl DockerReply {
    /// The text that is sent for the reply.
    pub fn text(&self) -> (r: String)
        ensures
            r@ == reply_text(*self),
    {
        match self {
            DockerReply::Help => get_docker_command_help_text(),
            DockerReply::NeedContainerName => String::from_str("Please provide container name"),
            DockerReply::NeedRenameNames => String::from_str(
                "Please provide old container name and new conteiner name",
            ),
        }
    }
}

/// The number of arguments that `op` needs.
pub fn min_args(op: DockerOp) -> (n: usize)
    ensures
        n == arity(op),
{
    match op {
        DockerOp::ContainerDetail => 1,
        DockerOp::ContainerStop => 1,
        DockerOp::ContainerStart => 1,
        DockerOp::ContainerPause => 1,
        DockerOp::ContainerUnpause => 1,
        DockerOp::ContainerKill => 1,
        DockerOp::ContainerRestart => 1,
        DockerOp::ContainerRename => 2,
        _ => 0,
    }
}

/// The reply to an invocation of `op` that lacks arguments.
pub fn hint_of(op: DockerOp) -> (reply: DockerReply)
    ensures
        reply == usage_hint(op),
{
    match op {
        DockerOp::ContainerRename => DockerReply::NeedRenameNames,
        _ => DockerReply::NeedContainerName,
    }
}

/// The step for the selected action `op`: its call with the arguments that
/// it needs, taken from behind the two name tokens, or its usage hint where
/// too few stand there.
pub fn invoke(op: DockerOp, tokens: &Vec<String>) -> (step: DockerStep)
    ensures
        step@ == plan_of(DockerChoice::Op(op), texts(tokens@)),
{
    let need = min_args(op);
    let mut args: Vec<String> = Vec::new();
    if need == 0 {
        assert(texts(args@) =~= Seq::<Seq<char>>::empty());
        return DockerStep::Call { op, args };
    }
    if tokens.len() < 2 || tokens.len() - 2 < need {
        return DockerStep::Reply(hint_of(op));
    }
    let mut i: usize = 0;
    while i < need
        invariant
            i <= need,
            need <= 2,
            2 + need <= tokens.len(),
            args@ == tokens@.subrange(2, 2 + i),
        decreases need - i,
    {
        args.push(tokens[2 + i].clone());
        assert(tokens@.subrange(2, 2 + i + 1) =~= tokens@.subrange(2, 2 + i).push(
            tokens@[2 + i],
        ));
        i = i + 1;
    }
    assert(texts(args@) =~= texts(tokens@).subrange(2, 2 + need as int));
    DockerStep::Call { op, args }
}

/// Routes the tokens of a `/docker container ..` command.
pub fn container_command_handler(tokens: &Vec<String>) -> (step: DockerStep)
    ensures
        step@ == plan_of(select_container(texts(tokens@)), texts(tokens@)),
{
    if tokens.len() < 2 {
        return invoke(DockerOp::ContainerList, tokens);
    }
    let action = tokens[1].as_str();
    if action.eq("list") || action.is_empty() {
        invoke(DockerOp::ContainerList, tokens)
    } else if action.eq("detail") || action.eq("det") {
        invoke(DockerOp::ContainerDetail, tokens)
    } else if action.eq("stop") {
        invoke(DockerOp::ContainerStop, tokens)
    } else if action.eq("start") {
        invoke(DockerOp::ContainerStart, tokens)
    } else if action.eq("pause") {
        invoke(DockerOp::ContainerPause, tokens)
    } else if action.eq("unpause") {
        invoke(DockerOp::ContainerUnpause, tokens)
    } else if action.eq("kill") {
        invoke(DockerOp::ContainerKill, tokens)
    } else if action.eq("restart") {
        invoke(DockerOp::ContainerRestart, tokens)
    } else if action.eq("rename") {
        invoke(DockerOp::ContainerRename, tokens)
    } else if action.eq("prune") {
        invoke(DockerOp::ContainerPrune, tokens)
    } else {
        DockerStep::Reply(DockerReply::Help)
    }
}

fn listing_command_handler(tokens: &Vec<String>, list: DockerOp, prune: DockerOp) -> (step:
    DockerStep)
    ensures
        step@ == plan_of(select_listing(texts(tokens@), list, prune), texts(tokens@)),
{
    if tokens.len() < 2 {
        return invoke(list, tokens);
    }
    let action = tokens[1].as_str();
    if action.eq("list") {
        invoke(list, tokens)
    } else if action.eq("prune") {
        invoke(prune, tokens)
    } else {
        DockerStep::Reply(DockerReply::Help)
    }
}

/// Routes the tokens of a `/docker image ..` command.
pub fn image_command_handler(tokens: &Vec<String>) -> (step: DockerStep)
    ensures
        step@ == plan_of(
            select_listing(texts(tokens@), DockerOp::ImageList, DockerOp::ImagePrune),
            texts(tokens@),
        ),
{
    listing_command_handler(tokens, DockerOp::ImageList, DockerOp::ImagePrune)
}

/// Routes the tokens of a `/docker network ..` command.
pub fn network_command_handler(tokens: &Vec<String>) -> (step: DockerStep)
    ensures
        step@ == plan_of(
            select_listing(texts(tokens@), DockerOp::NetworkList, DockerOp::NetworkPrune),
            texts(tokens@),
        ),
{
    listing_command_handler(tokens, DockerOp::NetworkList, DockerOp::NetworkPrune)
}

/// Routes the tokens of a `/docker volume ..` command.
pub fn volumes_command_handler(tokens: &Vec<String>) -> (step: DockerStep)
    ensures
        step@ == plan_of(
            select_listing(texts(tokens@), DockerOp::VolumeList, DockerOp::VolumePrune),
            texts(tokens@),
        ),
{
    listing_command_handler(tokens, DockerOp::VolumeList, DockerOp::VolumePrune)
}

/// Routes the tokens of a `/docker` command.
pub fn command_handler(tokens: &Vec<String>) -> (step: DockerStep)
    ensures
        step@ == route_spec(texts(tokens@)),
{
    if tokens.len() == 0 {
        return invoke(DockerOp::Info, tokens);
    }
    let sub = tokens[0].as_str();
    if sub.eq("info") || sub.is_empty() {
        invoke(DockerOp::Info, tokens)
    } else if sub.eq("container") {
        container_command_handler(tokens)
    } else if sub.eq("image") {
        image_command_handler(tokens)
    } else if sub.eq("network") {
        network_command_handler(tokens)
    } else if sub.eq("volume") {
        volumes_command_handler(tokens)
    } else {
        DockerStep::Reply(DockerReply::Help)
    }
}

/// What a listing asks the engine for.
#[derive(Clone, PartialEq, Eq, Debug)]
pub struct ListQuery {
    /// Whether the listing holds every object, stopped containers and
    /// intermediate images included.
    pub all: bool,
    /// The name that the listed containers must bear.
    pub name: Option<String>,
}

/// Whether `query` is what `op` asks the engine for with the arguments
/// `args`. The container and image listings ask for every object; the
/// details of a container ask for every container of the given name.
pub open spec fn query_fits(query: Option<ListQuery>, op: DockerOp, args: Seq<Seq<char>>) -> bool {
    match op {
        DockerOp::ContainerList => query matches Some(q) && q.all && q.name is None,
        DockerOp::ImageList => query matches Some(q) && q.all && q.name is None,
        DockerOp::ContainerDetail => query matches Some(q) && q.all && (if args.len() > 0 {
            q.name is Some && q.name.unwrap()@ == args[0]
        } else {
            q.name is None
        }),
        _ => query is None,
    }
}

/// The query of a listing action; the other actions have none.
pub fn list_query(op: DockerOp, args: &Vec<String>) -> (query: Option<ListQuery>)
    ensures
        query_fits(query, op, texts(args@)),
{
    match op {
        DockerOp::ContainerList => Some(ListQuery { all: true, name: None }),
        DockerOp::ImageList => Some(ListQuery { all: true, name: None }),
        DockerOp::ContainerDetail => {
            if args.len() > 0 {
                Some(ListQuery { all: true, name: Some(args[0].clone()) })
            } else {
                Some(ListQuery { all: true, name: None })
            }
        },
        _ => None,
    }
}

/// How the engine is reached.
#[derive(Clone, PartialEq, Eq, Debug)]
pub enum DockerConnection {
    /// The engine's defaults on this host.
    LocalDefaults,
    /// A Unix socket at `path`.
    UnixSocket { path: String, timeout_secs: u64 },
    /// An HTTP endpoint at `address`.
    Http { address: String, timeout_secs: u64 },
}

/// Whether `c` is the connection that the mode selector `mode` and the
/// endpoint address `value` ask for: `unix` the fixed socket, `http` the
/// address, `default` and every other selector the local defaults.
pub open spec fn connection_for(c: DockerConnection, mode: Seq<char>, value: Seq<char>) -> bool {
    if mode == "default"@ {
        c is LocalDefaults
    } else if mode == "unix"@ {
        c matches DockerConnection::UnixSocket { path, timeout_secs } && path@ == SOCKET_PATH@
            && timeout_secs == CONNECTION_TIMEOUT_SECS
    } else if mode == "http"@ {
        c matches DockerConnection::Http { address, timeout_secs } && address@ == value
            && timeout_secs == CONNECTION_TIMEOUT_SECS
    } else {
        c is LocalDefaults
    }
}

/// Chooses the connection for a configured mode and address.
pub fn get_docker(mode: &String, value: &String) -> (c: DockerConnection)
    ensures
        connection_for(c, mode@, value@),
{
    let m = mode.as_str();
    if m.eq("default") {
        DockerConnection::LocalDefaults
    } else if m.eq("unix") {
        DockerConnection::UnixSocket {
            path: String::from_str(SOCKET_PATH),
            timeout_secs: CONNECTION_TIMEOUT_SECS,
        }
    } else if m.eq("http") {
        DockerConnection::Http { address: value.clone(), timeout_secs: CONNECTION_TIMEOUT_SECS }
    } else {
        DockerConnection::LocalDefaults
    }
}

/// The plugin's branch: it holds the connection it was built with.
#[derive(Clone, PartialEq, Eq, Debug)]
pub struct DockerHandler {
    pub connection: DockerConnection,
}

/// Builds the plugin's branch from its configuration block: the connection
/// mode and the endpoint address.
pub fn get_update_handler(mode: &String, value: &String) -> (handler: DockerHandler)
    ensures
        connection_for(handler.connection, mode@, value@),
{
    DockerHandler { connection: get_docker(mode, value) }
}

impl DockerHandler {
    /// The step for a `/docker` command with the argument text `args`.
    pub fn handle(&self, args: &str) -> (step: DockerStep)
        ensures
            step@ == route_spec(tokens(args@)),
    {
        let toks = tokenize(args);
        command_handler(&toks)
    }
}

} // verus!
