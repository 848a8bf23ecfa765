//! The download-queue plugin: subcommand routing, the attachment trigger and
//! the texts of its replies.

use crate::reply::{render_failure, FAILURE_PREFIX, NOT_AVAILABLE};
use crate::text::{
    concat_of, debug_string, debug_text, decimal, eq_ignoring_ascii_case, i64_to_string,
    i64_value, parse_i64, same_ignoring_ascii_case, texts, write_all,
};
use substring::Substring;
use crate::tokenizer::{subcommand, tokenize, tokens};
use vstd::prelude::*;
use vstd::string::*;

verus! {

/// The name under which the plugin is activated and configured.
pub const NAME: &'static str = "transmission";

/// The plugin's one-line summary.
pub const SHORT_HELP: &'static str = "Transsmision plugin. Usage /transmission [mode]. For detail help /transmission help";

/// The top-level command that this plugin answers to.
pub const COMMAND: &'static str = "transmission";

/// The media type that marks an attachment as a download to enqueue.
pub const TORRENT_MEDIA_TYPE: &'static str = "application/x-bittorrent";

/// The usage text of the plugin.
pub const HELP_TEXT: &'static str = r#"
Transmission Command Usage:

/transmission [subcommand] [arguments]

Available Subcommands:

list or "" (empty)
  Lists all torrents in the client.

stop [torrent_id]
  Stops (pauses) the torrent with the specified ID.
  Example: /transmission stop 1234

start [torrent_id]
  Starts (resumes) the torrent with the specified ID.
  Example: /transmission start 5678

remove [torrent_id] [with_data]
  Removes the torrent with the specified ID from the client.
  The 'with_data' argument can be 'yes' or 'no' (or 'y' or 'n') to specify whether to delete the downloaded data or not.
  Example: /transmission remove 9012 no

If no subcommand is provided or an invalid subcommand is given, the command will list all torrents by default.

Just drop .torrent file to start downloading it.

Note: Replace [torrent_id] with the actual ID of the torrent you want to operate on.
"#;

/// The named actions of the plugin's subcommand vocabulary.
#[derive(Clone, Copy, PartialEq, Eq, Structural, Debug)]
pub enum TorrentOp {
    List,
    Stop,
    Start,
    Remove,
}

/// A call against the download daemon, with its arguments parsed.
#[derive(Clone, Copy, PartialEq, Eq, Structural, Debug)]
pub enum TorrentCall {
    List,
    Stop { id: i64 },
    Start { id: i64 },
    Remove { id: i64, with_data: bool },
    AddFile,
}

/// The fixed replies of the plugin.
#[derive(Clone, Copy, PartialEq, Eq, Structural, Debug)]
pub enum TorrentReply {
    Help,
    NeedTorrentId,
    NeedRemoveArguments,
}

/// What the plugin does with one update that its branch matched.
#[derive(Clone, Copy, PartialEq, Eq, Structural, Debug)]
pub enum TorrentStep {
    /// Perform the call and reply with its rendered result.
    Call(TorrentCall),
    /// Reply with a fixed text; the daemon is not contacted.
    Reply(TorrentReply),
}

/// What a subcommand token selects.
#[derive(Clone, Copy, PartialEq, Eq, Structural, Debug)]
pub enum TorrentChoice {
    Op(TorrentOp),
    Help,
}

/// The action that a subcommand token names. The empty token selects the
/// listing; `help` and every token outside the vocabulary select the usage
/// text.
pub open spec fn select(sub: Seq<char>) -> TorrentChoice {
    if sub.len() == 0 || sub == "list"@ {
        TorrentChoice::Op(TorrentOp::List)
    } else if sub == "stop"@ {
        TorrentChoice::Op(TorrentOp::Stop)
    } else if sub == "start"@ {
        TorrentChoice::Op(TorrentOp::Start)
    } else if sub == "remove"@ {
        TorrentChoice::Op(TorrentOp::Remove)
    } else {
        TorrentChoice::Help
    }
}

/// The number of arguments that an action needs after its subcommand.
pub open spec fn arity(op: TorrentOp) -> nat {
    match op {
        TorrentOp::List => 0,
        TorrentOp::Stop => 1,
        TorrentOp::Start => 1,
        TorrentOp::Remove => 2,
    }
}

/// The reply to an invocation of `op` whose arguments are missing or cannot
/// be read.
pub open spec fn usage_hint(op: TorrentOp) -> TorrentReply {
    match op {
        TorrentOp::Remove => TorrentReply::NeedRemoveArguments,
        _ => TorrentReply::NeedTorrentId,
    }
}

/// Whether a yes/no flag says yes: `yes` or `y` in any case. Yes means that
/// the downloaded data is deleted with the torrent; anything else keeps it.
pub open spec fn says_yes(flag: Seq<char>) -> bool {
    same_ignoring_ascii_case(flag, "yes"@) || same_ignoring_ascii_case(flag, "y"@)
}

/// The call that `op` makes with the arguments in `t`, where they can be
/// read. `t` holds the subcommand and at least `arity(op)` arguments.
pub open spec fn build_call(op: TorrentOp, t: Seq<Seq<char>>) -> Option<TorrentCall> {
    match op {
        TorrentOp::List => Some(TorrentCall::List),
        TorrentOp::Stop => match i64_value(t[1]) {
            Some(id) => Some(TorrentCall::Stop { id }),
            None => None,
        },
        TorrentOp::Start => match i64_value(t[1]) {
            Some(id) => Some(TorrentCall::Start { id }),
            None => None,
        },
        TorrentOp::Remove => match i64_value(t[1]) {
            Some(id) => Some(TorrentCall::Remove { id, with_data: says_yes(t[2]) }),
            None => None,
        },
    }
}

/// The number of tokens after the subcommand.
pub open spec fn args_given(t: Seq<Seq<char>>) -> nat {
    if t.len() == 0 {
        0
    } else {
        (t.len() - 1) as nat
    }
}

/// The step that the plugin takes for the tokens `t` of a command.
///
/// A subcommand outside the vocabulary is answered with the usage text. An
/// action with too few arguments, or with a torrent id that is no number, is
/// answered with the action's usage hint. Neither makes a call.
pub open spec fn route_spec(t: Seq<Seq<char>>) -> TorrentStep {
    match select(subcommand(t)) {
        TorrentChoice::Help => TorrentStep::Reply(TorrentReply::Help),
        TorrentChoice::Op(op) => if args_given(t) < arity(op) {
            TorrentStep::Reply(usage_hint(op))
        } else {
            match build_call(op, t) {
                Some(call) => TorrentStep::Call(call),
                None => TorrentStep::Reply(usage_hint(op)),
            }
        },
    }
}

/// An action invoked with fewer arguments than it needs is answered with
/// its usage hint and makes no call; with enough arguments, and a torrent id
/// that is a number, it makes its call.
pub proof fn lemma_arity_check(t: Seq<Seq<char>>, op: TorrentOp)
    requires
        select(subcommand(t)) == TorrentChoice::Op(op),
    ensures
        args_given(t) < arity(op) ==> route_spec(t) == TorrentStep::Reply(usage_hint(op)),
        args_given(t) >= arity(op) && (arity(op) > 0 ==> i64_value(t[1]) is Some) ==> route_spec(t)
            is Call,
{
}

/// The one-line summary for the aggregated help.
pub fn get_short_help() -> (r: String)
    ensures
        r@ == SHORT_HELP@,
{
    String::from_str(SHORT_HELP)
}

/// The full usage text, sent for the `help` subcommand and for a
/// subcommand outside the vocabulary.
pub fn get_command_handler_help_text() -> (r: String)
    ensures
        r@ == HELP_TEXT@,
{
    String::from_str(HELP_TEXT)
}

/// The text of a fixed reply.
pub open spec fn reply_text(reply: TorrentReply) -> Seq<char> {
    match reply {
        TorrentReply::Help => HELP_TEXT@,
        TorrentReply::NeedTorrentId => "Please provide torrent id"@,
        TorrentReply::NeedRemoveArguments => "Please provide 2 parameters (torrent id, with_data (yes,no) )"@,
    }
}

impl TorrentReply {
    /// The text that is sent for the reply.
    pub fn text(&self) -> (r: String)
        ensures
            r@ == reply_text(*self),
    {
        match self {
            TorrentReply::Help => get_command_handler_help_text(),
            TorrentReply::NeedTorrentId => String::from_str("Please provide torrent id"),
            TorrentReply::NeedRemoveArguments => String::from_str(
                "Please provide 2 parameters (torrent id, with_data (yes,no) )",
            ),
        }
    }
}

fn read_flag(flag: &str) -> (r: bool)
    ensures
        r == says_yes(flag@),
{
    eq_ignoring_ascii_case(flag, "yes") || eq_ignoring_ascii_case(flag, "y")
}

/// Reads a subcommand token.
pub fn pick(sub: &str) -> (choice: TorrentChoice)
    ensures
        choice == select(sub@),
{
    if sub.is_empty() || sub.eq("list") {
        TorrentChoice::Op(TorrentOp::List)
    } else if sub.eq("stop") {
        TorrentChoice::Op(TorrentOp::Stop)
    } else if sub.eq("start") {
        TorrentChoice::Op(TorrentOp::Start)
    } else if sub.eq("remove") {
        TorrentChoice::Op(TorrentOp::Remove)
    } else {
        TorrentChoice::Help
    }
}

/// The number of arguments that `op` needs.
pub fn min_args(op: TorrentOp) -> (n: usize)
    ensures
        n == arity(op),
{
    match op {
        TorrentOp::List => 0,
        TorrentOp::Stop => 1,
        TorrentOp::Start => 1,
        TorrentOp::Remove => 2,
    }
}

/// The reply to an invocation of `op` whose arguments are missing or cannot
/// be read.
pub fn hint_of(op: TorrentOp) -> (reply: TorrentReply)
    ensures
        reply == usage_hint(op),
{
    match op {
        TorrentOp::Remove => TorrentReply::NeedRemoveArguments,
        _ => TorrentReply::NeedTorrentId,
    }
}

/// Reads the arguments of `op` from behind the subcommand.
fn build(op: TorrentOp, tokens: &Vec<String>) -> (r: Option<TorrentCall>)
    requires
        args_given(texts(tokens@)) >= arity(op),
    ensures
        r == build_call(op, texts(tokens@)),
{
    match op {
        TorrentOp::List => Some(TorrentCall::List),
        TorrentOp::Stop => match parse_i64(tokens[1].as_str()) {
            Some(id) => Some(TorrentCall::Stop { id }),
            None => None,
        },
        TorrentOp::Start => match parse_i64(tokens[1].as_str()) {
            Some(id) => Some(TorrentCall::Start { id }),
            None => None,
        },
        TorrentOp::Remove => match parse_i64(tokens[1].as_str()) {
            Some(id) => Some(TorrentCall::Remove { id, with_data: read_flag(tokens[2].as_str()) }),
            None => None,
        },
    }
}

/// Routes the tokens of a `/transmission` command.
pub fn command_handler(tokens: &Vec<String>) -> (step: TorrentStep)
    ensures
        step == route_spec(texts(tokens@)),
{
    let n = tokens.len();
    let choice = if n == 0 {
        pick("")
    } else {
        pick(tokens[0].as_str())
    };
    proof {
        reveal_strlit("");
    }
    match choice {
        TorrentChoice::Help => TorrentStep::Reply(TorrentReply::Help),
        TorrentChoice::Op(op) => {
            let given: usize = if n == 0 {
                0
            } else {
                n - 1
            };
            if given < min_args(op) {
                TorrentStep::Reply(hint_of(op))
            } else {
                match build(op, tokens) {
                    Some(call) => TorrentStep::Call(call),
                    None => TorrentStep::Reply(hint_of(op)),
                }
            }
        },
    }
}

/// What comparing two media types gives: whether they are equal as the
/// `mime` crate parses and compares them, or nothing where one of the two
/// texts is no media type.
pub uninterp spec fn media_type_match(expected: Seq<char>, declared: Seq<char>) -> Option<bool>;

/// Trusted: `<mime::Mime as FromStr>::from_str` on each text, then
/// `<mime::Mime as PartialEq>::eq` with the expected type on the left. Both
/// depend on the texts alone; the contract gives the outcome the name
/// `media_type_match`.
///
/// The comparison cuts the right text at the place where the parameters of
/// the left one begin, whatever stands there, so it is only safe for a left
/// type without parameters. The expected type is therefore held to the
/// torrent media type, which has none: nothing is cut then. A parsed type
/// cannot be held as a plain value, so the three calls stand behind one
/// name.
#[verifier::external_body]
fn compare_media_types(expected: &str, declared: &str) -> (r: Option<bool>)
    requires
        expected@ == TORRENT_MEDIA_TYPE@,
    ensures
        r == media_type_match(expected@, declared@),
{
    match (expected.parse::<mime::Mime>(), declared.parse::<mime::Mime>()) {
        (Ok(a), Ok(b)) => Some(a == b),
        _ => None,
    }
}

/// Whether a comparison of media types found them equal.
pub fn is_match(verdict: Option<bool>) -> (r: bool)
    ensures
        r == (verdict == Some(true)),
{
    match verdict {
        Some(equal) => equal,
        None => false,
    }
}

/// Whether an attachment with this declared media type is a download to
/// enqueue: it declares one, and that one equals the torrent media type.
pub open spec fn is_torrent_document(media_type: Option<String>) -> bool {
    media_type matches Some(declared) && media_type_match(TORRENT_MEDIA_TYPE@, declared@) == Some(
        true,
    )
}

/// The filter of the attachment branch.
pub fn file_filter(media_type: &Option<String>) -> (r: bool)
    ensures
        r == is_torrent_document(*media_type),
{
    match media_type {
        Some(declared) => is_match(compare_media_types(TORRENT_MEDIA_TYPE, declared.as_str())),
        None => false,
    }
}

/// The link from which the daemon fetches an attachment: the transport's
/// file endpoint for this credential, then the file's path.
pub fn get_download_link(token: &str, path: &str) -> (link: String)
    ensures
        link@ == "https://api.telegram.org/file/bot"@ + token@ + "/"@ + path@,
{
    let mut link = String::from_str("https://api.telegram.org/file/bot");
    link.append(token);
    link.append("/");
    link.append(path);
    link
}

/// The plugin's branch: it holds the endpoint it was built with.
#[derive(Clone, PartialEq, Eq, Debug)]
pub struct TransmissionHandler {
    pub url: String,
}

/// Builds the plugin's branch from its configuration block, the RPC
/// endpoint.
pub fn get_update_handler(url: &String) -> (handler: TransmissionHandler)
    ensures
        handler.url@ == url@,
{
    TransmissionHandler { url: url.clone() }
}

impl TransmissionHandler {
    /// The step for a `/transmission` command with the argument text `args`.
    pub fn handle(&self, args: &str) -> (step: TorrentStep)
        ensures
            step == route_spec(tokens(args@)),
    {
        let toks = tokenize(args);
        command_handler(&toks)
    }
}

/// The characters of `s` from position `start` up to, not including,
/// `end`, both counted in characters and cut off at the end of `s`. Nothing
/// where `end` is not after `start`.
pub open spec fn char_range(s: Seq<char>, start: int, end: int) -> Seq<char> {
    if end <= start {
        Seq::empty()
    } else {
        let len = s.len() as int;
        s.subrange(
            if start < len {
                start
            } else {
                len
            },
            if end < len {
                end
            } else {
                len
            },
        )
    }
}

/// Trusted: `<str as substring::Substring>::substring`. Its source returns
/// the empty text where `end` is not after `start`, and else the slice from
/// the character at `start` to the character at `end`, taking the end of
/// the text for a position that lies beyond it.
#[verifier::external_body]
fn substring_of(s: &str, start: usize, end: usize) -> (r: &str)
    ensures
        r@ == char_range(s@, start as int, end as int),
{
    s.substring(start, end)
}

/// The states of a torrent.
#[derive(Clone, Copy, PartialEq, Eq, Structural, Debug)]
pub enum TorrentStatus {
    Stopped,
    QueuedToVerify,
    Verifying,
    QueuedToDownload,
    Downloading,
    QueuedToSeed,
    Seeding,
}

/// The name under which a state is reported.
pub open spec fn status_text(status: TorrentStatus) -> Seq<char> {
    match status {
        TorrentStatus::Stopped => "Stopped"@,
        TorrentStatus::QueuedToVerify => "QueuedToVerify"@,
        TorrentStatus::Verifying => "Verifying"@,
        TorrentStatus::QueuedToDownload => "QueuedToDownload"@,
        TorrentStatus::Downloading => "Downloading"@,
        TorrentStatus::QueuedToSeed => "QueuedToSeed"@,
        TorrentStatus::Seeding => "Seeding"@,
    }
}

fn status_label(status: TorrentStatus) -> (r: &'static str)
    ensures
        r@ == status_text(status),
{
    match status {
        TorrentStatus::Stopped => "Stopped",
        TorrentStatus::QueuedToVerify => "QueuedToVerify",
        TorrentStatus::Verifying => "Verifying",
        TorrentStatus::QueuedToDownload => "QueuedToDownload",
        TorrentStatus::Downloading => "Downloading",
        TorrentStatus::QueuedToSeed => "QueuedToSeed",
        TorrentStatus::Seeding => "Seeding",
    }
}

/// One torrent of the listing. What the daemon left out is absent here and
/// shown as `N/A`.
#[derive(Clone, PartialEq, Eq, Debug)]
pub struct TorrentRow {
    pub id: Option<i64>,
    pub name: Option<String>,
    pub status: Option<TorrentStatus>,
    /// The share that is downloaded, in percent and already written as
    /// text.
    pub percent_done: Option<String>,
}

/// How many characters of a torrent's name the listing shows.
pub const NAME_WIDTH: usize = 10;

/// The name as the listing shows it: its first characters, then an
/// ellipsis, whether or not anything was cut.
pub open spec fn short_name(name: Seq<char>) -> Seq<char> {
    char_range(name, 0, NAME_WIDTH as int) + "..."@
}

/// The id as the listing shows it.
pub open spec fn id_text(id: Option<i64>) -> Seq<char> {
    match id {
        Some(n) => decimal(n as int),
        None => NOT_AVAILABLE@,
    }
}

/// The name as the listing shows it: shortened and between quotes.
pub open spec fn shown_name_text(name: Option<String>) -> Seq<char> {
    match name {
        Some(n) => debug_text(short_name(n@)),
        None => NOT_AVAILABLE@,
    }
}

/// The state as the listing shows it.
pub open spec fn shown_status_text(status: Option<TorrentStatus>) -> Seq<char> {
    match status {
        Some(s) => status_text(s),
        None => NOT_AVAILABLE@,
    }
}

/// The share that is done as the listing shows it: the figure with a
/// percent sign.
pub open spec fn share_text(percent_done: Option<String>) -> Seq<char> {
    match percent_done {
        Some(p) => p@ + "%"@,
        None => NOT_AVAILABLE@,
    }
}

/// The line for one torrent: id, name as it is shown, state and the share
/// that is done. The name is given as `shown_name`, already between quotes.
pub open spec fn torrent_text_with(x: TorrentRow, shown_name: Seq<char>) -> Seq<char> {
    id_text(x.id) + ": "@ + shown_name + " "@ + shown_status_text(x.status) + " "@ + share_text(
        x.percent_done,
    ) + "\n"@
}

/// The line for one torrent: id, shortened name between quotes, state and
/// the share that is done.
pub open spec fn torrent_text(x: TorrentRow) -> Seq<char> {
    torrent_text_with(x, shown_name_text(x.name))
}

/// Writes the line for one torrent around the name as it is shown.
pub fn torrent_line_with(x: &TorrentRow, shown_name: &str) -> (r: String)
    ensures
        r@ == torrent_text_with(*x, shown_name@),
{
    let mut r = match x.id {
        Some(n) => i64_to_string(n),
        None => String::from_str(NOT_AVAILABLE),
    };
    r.append(": ");
    r.append(shown_name);
    r.append(" ");
    match x.status {
        Some(s) => r.append(status_label(s)),
        None => r.append(NOT_AVAILABLE),
    }
    r.append(" ");
    let ghost before = r@;
    match &x.percent_done {
        Some(p) => {
            r.append(p.as_str());
            r.append("%");
            assert(r@ =~= before + (p@ + "%"@));
        },
        None => r.append(NOT_AVAILABLE),
    }
    r.append("\n");
    r
}

/// Shortens a name for the listing.
pub fn shorten_name(name: &str) -> (r: String)
    ensures
        r@ == short_name(name@),
{
    let mut shown = String::from_str(substring_of(name, 0, NAME_WIDTH));
    shown.append("...");
    shown
}

fn torrent_line(x: &TorrentRow) -> (r: String)
    ensures
        r@ == torrent_text(*x),
{
    let quoted = match &x.name {
        Some(n) => {
            let shown = shorten_name(n.as_str());
            debug_string(shown.as_str())
        },
        None => String::from_str(NOT_AVAILABLE),
    };
    torrent_line_with(x, quoted.as_str())
}

/// The listing of the torrents, one line each.
pub open spec fn torrents_text(items: Seq<TorrentRow>) -> Seq<char> {
    concat_of(items, |x: TorrentRow| torrent_text(x))
}

fn torrents_block(items: &Vec<TorrentRow>) -> (r: String)
    ensures
        r@ == torrents_text(items@),
{
    write_all(items, torrent_line, Ghost(|x: TorrentRow| torrent_text(x)))
}

/// The reply to `list`: the torrents that the daemon listed, or the fault
/// that it answered with.
pub fn list_torrent(outcome: &Result<Vec<TorrentRow>, String>) -> (r: String)
    ensures
        r@ == (match *outcome {
            Ok(rows) => torrents_text(rows@),
            Err(message) => FAILURE_PREFIX@ + message@,
        }),
{
    match outcome {
        Ok(rows) => torrents_block(rows),
        Err(message) => render_failure(message.as_str()),
    }
}

/// What is sent when the daemon answered a call: one text where it reports
/// success, another where it does not. The listing has no such text.
pub open spec fn answer_text(call: TorrentCall, success: bool) -> Seq<char> {
    match call {
        TorrentCall::Stop { id } => if success {
            "Paused successfully"@
        } else {
            "Pause failed"@
        },
        TorrentCall::Start { id } => if success {
            "Started successfully"@
        } else {
            "Start failed"@
        },
        TorrentCall::Remove { id, with_data } => if !success {
            "Removed failed"@
        } else if with_data {
            "Removed with data successfully"@
        } else {
            "Removed without data successfully"@
        },
        TorrentCall::AddFile => if success {
            "Added sucessfully"@
        } else {
            "Failed"@
        },
        TorrentCall::List => Seq::empty(),
    }
}

/// The reply for a call: the text for the daemon's answer, or the rendered
/// fault where the call itself failed.
pub open spec fn call_reply_text(call: TorrentCall, outcome: Result<bool, String>) -> Seq<char> {
    match outcome {
        Ok(success) => answer_text(call, success),
        Err(message) => FAILURE_PREFIX@ + message@,
    }
}

/// Writes the reply for a call.
pub fn call_reply(call: TorrentCall, outcome: &Result<bool, String>) -> (r: String)
    ensures
        r@ == call_reply_text(call, *outcome),
{
    match outcome {
        Ok(success) => {
            let text = match call {
                TorrentCall::Stop { id } => if *success {
                    "Paused successfully"
                } else {
                    "Pause failed"
                },
                TorrentCall::Start { id } => if *success {
                    "Started successfully"
                } else {
                    "Start failed"
                },
                TorrentCall::Remove { id, with_data } => if !*success {
                    "Removed failed"
                } else if with_data {
                    "Removed with data successfully"
                } else {
                    "Removed without data successfully"
                },
                TorrentCall::AddFile => if *success {
                    "Added sucessfully"
                } else {
                    "Failed"
                },
                TorrentCall::List => "",
            };
            proof {
                reveal_strlit("");
            }
            assert(text@ =~= answer_text(call, *success));
            String::from_str(text)
        },
        Err(message) => render_failure(message.as_str()),
    }
}

/// The reply to `stop` for the torrent `id`.
pub fn pause_torrent(id: i64, outcome: &Result<bool, String>) -> (r: String)
    ensures
        r@ == call_reply_text(TorrentCall::Stop { id }, *outcome),
{
    call_reply(TorrentCall::Stop { id }, outcome)
}

/// The reply to `start` for the torrent `id`.
pub fn start_torrent(id: i64, outcome: &Result<bool, String>) -> (r: String)
    ensures
        r@ == call_reply_text(TorrentCall::Start { id }, *outcome),
{
    call_reply(TorrentCall::Start { id }, outcome)
}

/// The reply to `remove` for the torrent `id`.
pub fn remove_torrent(id: i64, with_data: bool, outcome: &Result<bool, String>) -> (r: String)
    ensures
        r@ == call_reply_text(TorrentCall::Remove { id, with_data }, *outcome),
{
    call_reply(TorrentCall::Remove { id, with_data }, outcome)
}

/// The reply to an attachment that was handed to the daemon.
pub fn add_file(outcome: &Result<bool, String>) -> (r: String)
    ensures
        r@ == call_reply_text(TorrentCall::AddFile, *outcome),
{
    call_reply(TorrentCall::AddFile, outcome)
}

} // verus!
