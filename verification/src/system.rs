//! The host plugin: mode routing, probe targets and the texts of its
//! replies.

use crate::reply::render_failure;
use crate::reply::FAILURE_PREFIX;
use crate::text::{
    concat_of, decimal, fields, parse_u32, split_on, texts, u32_value, u64_to_string, write_all,
};
use crate::tokenizer::{subcommand, tokenize, tokens};
use vstd::prelude::*;
use vstd::string::*;

verus! {

/// The name under which the plugin is activated and configured.
pub const NAME: &'static str = "sys";

/// The plugin's one-line summary.
pub const SHORT_HELP: &'static str = "Sys plugin. Usage /sys [mode]. For detail help /sys help";

/// The top-level command that this plugin answers to.
pub const COMMAND: &'static str = "sys";

/// The usage text of the plugin.
pub const HELP_TEXT: &'static str = r#"
Info Command Usage:

/sys [mode]

Available Modes:

system or "" (empty)
  Displays system information such as CPU, memory, and operating system details.

net or network
  Shows network information, including active network interfaces and their configurations.

disk or mount
  Provides information about mounted disk partitions, file systems, and disk usage.

ping
  Fetches and displays the host information, which may include details like hostname, IP address, etc.

temp
  Retrieves and shows the current temperature readings for the system.

shutdown
  Initiates a system shutdown process.

reboot
  Reboots the system.

sleep
  Puts the system into sleep mode.

hibernate
  Hibernates the system.

If no mode is specified or an invalid mode is provided, the command will display the system information by default.

Note: The 'shutdown', 'reboot', 'sleep', and 'hibernate' modes require appropriate permissions to execute successfully.
"#;

/// The actions of the plugin. None of them takes an argument.
#[derive(Clone, Copy, PartialEq, Eq, Structural, Debug)]
pub enum SysOp {
    System,
    Network,
    Disk,
    Ping,
    Temp,
    Shutdown,
    Reboot,
    Sleep,
    Hibernate,
}

/// What the plugin does with one update that its branch matched.
#[derive(Clone, Copy, PartialEq, Eq, Structural, Debug)]
pub enum SysStep {
    /// Perform the action and reply with its report.
    Call(SysOp),
    /// Reply with the usage text.
    Help,
}

/// The step that a mode token selects. The empty token selects the system
/// report; `help` and every token outside the vocabulary select the usage
/// text, so that nothing that reaches the plugin is left without a reply.
pub open spec fn select(mode: Seq<char>) -> SysStep {
    if mode == "system"@ || mode.len() == 0 {
        SysStep::Call(SysOp::System)
    } else if mode == "net"@ || mode == "network"@ {
        SysStep::Call(SysOp::Network)
    } else if mode == "disk"@ || mode == "mount"@ {
        SysStep::Call(SysOp::Disk)
    } else if mode == "ping"@ {
        SysStep::Call(SysOp::Ping)
    } else if mode == "temp"@ {
        SysStep::Call(SysOp::Temp)
    } else if mode == "shutdown"@ {
        SysStep::Call(SysOp::Shutdown)
    } else if mode == "reboot"@ {
        SysStep::Call(SysOp::Reboot)
    } else if mode == "sleep"@ {
        SysStep::Call(SysOp::Sleep)
    } else if mode == "hibernate"@ {
        SysStep::Call(SysOp::Hibernate)
    } else {
        SysStep::Help
    }
}

/// The step that the plugin takes for the tokens `t` of a command: the one
/// that the first token selects. Further tokens are not read.
pub open spec fn route_spec(t: Seq<Seq<char>>) -> SysStep {
    select(subcommand(t))
}

/// The one-line summary for the aggregated help.
pub fn get_short_help() -> (r: String)
    ensures
        r@ == SHORT_HELP@,
{
    String::from_str(SHORT_HELP)
}

/// The full usage text, sent for the `help` mode and for a mode outside
/// the vocabulary.
pub fn get_info_help_text() -> (r: String)
    ensures
        r@ == HELP_TEXT@,
{
    String::from_str(HELP_TEXT)
}

/// Routes the tokens of a `/sys` command.
pub fn answer(tokens: &Vec<String>) -> (step: SysStep)
    ensures
        step == route_spec(texts(tokens@)),
{
    if tokens.len() == 0 {
        return SysStep::Call(SysOp::System);
    }
    let mode = tokens[0].as_str();
    if mode.eq("system") || mode.is_empty() {
        SysStep::Call(SysOp::System)
    } else if mode.eq("net") || mode.eq("network") {
        SysStep::Call(SysOp::Network)
    } else if mode.eq("disk") || mode.eq("mount") {
        SysStep::Call(SysOp::Disk)
    } else if mode.eq("ping") {
        SysStep::Call(SysOp::Ping)
    } else if mode.eq("temp") {
        SysStep::Call(SysOp::Temp)
    } else if mode.eq("shutdown") {
        SysStep::Call(SysOp::Shutdown)
    } else if mode.eq("reboot") {
        SysStep::Call(SysOp::Reboot)
    } else if mode.eq("sleep") {
        SysStep::Call(SysOp::Sleep)
    } else if mode.eq("hibernate") {
        SysStep::Call(SysOp::Hibernate)
    } else {
        SysStep::Help
    }
}

/// The notice sent before an action whose report takes a while: the probe
/// run announces itself, the other actions send nothing first.
pub fn interim_notice(op: SysOp) -> (r: Option<String>)
    ensures
        op == SysOp::Ping ==> r is Some && r.unwrap()@ == "FETCHING..."@,
        op != SysOp::Ping ==> r is None,
{
    match op {
        SysOp::Ping => Some(String::from_str("FETCHING...")),
        _ => None,
    }
}

/// The plugin's branch: it holds the probe targets it was built with, a
/// friendly label and a target for each.
#[derive(Clone, PartialEq, Eq, Debug)]
pub struct SysHandler {
    pub host_info: Vec<(String, String)>,
}

/// Builds the plugin's branch from its configuration block.
pub fn get_update_handler(host_info: Vec<(String, String)>) -> (handler: SysHandler)
    ensures
        handler.host_info == host_info,
{
    SysHandler { host_info }
}

impl SysHandler {
    /// The step for a `/sys` command with the argument text `args`.
    pub fn handle(&self, args: &str) -> (step: SysStep)
        ensures
            step == route_spec(tokens(args@)),
    {
        let toks = tokenize(args);
        answer(&toks)
    }
}

/// A probe target: the protocol to speak, the host to reach and the port.
#[derive(Clone, PartialEq, Eq, Debug)]
pub struct ProbeTarget {
    pub protocol: String,
    pub host: String,
    pub port: u32,
}

/// The parts of a `protocol:host:port` target, where the text has that
/// shape: at least three fields between colons, the third a port number.
/// Fields after the third are not read.
pub open spec fn probe_target_of(value: Seq<char>) -> Option<(Seq<char>, Seq<char>, u32)> {
    let parts = fields(value, ':');
    if parts.len() >= 3 && u32_value(parts[2]) is Some {
        Some((parts[0], parts[1], u32_value(parts[2]).unwrap()))
    } else {
        None
    }
}

/// Reads a configured probe target.
pub fn parse_probe_target(value: &str) -> (r: Option<ProbeTarget>)
    ensures
        match probe_target_of(value@) {
            Some(parts) => r matches Some(target) && target.protocol@ == parts.0 && target.host@
                == parts.1 && target.port == parts.2,
            None => r is None,
        },
{
    let parts = split_on(value, ':');
    if parts.len() < 3 {
        return None;
    }
    match parse_u32(parts[2].as_str()) {
        Some(port) => Some(
            ProbeTarget { protocol: parts[0].clone(), host: parts[1].clone(), port },
        ),
        None => None,
    }
}

/// The fault that stands for a configured target that is not of the shape
/// `protocol:host:port`. Such a target is not probed and is reported as bad.
pub const UNREADABLE_TARGET: &'static str = "the target is not protocol:host:port";

/// The outcome for a configured target that cannot be read.
pub fn unreadable_target() -> (r: Result<bool, String>)
    ensures
        r matches Err(message) && message@ == UNREADABLE_TARGET@,
{
    Err(String::from_str(UNREADABLE_TARGET))
}

/// What probing one target gave: the answer of the probe, or the fault it
/// ended with.
#[derive(PartialEq, Eq, Debug)]
pub struct ProbeResult {
    pub label: String,
    pub outcome: Result<bool, String>,
}

/// The line for one probed target: its label, then `OK` where the probe
/// came back with an answer, whatever the answer, and `BAD` where it ended
/// with a fault.
pub open spec fn probe_text(x: ProbeResult) -> Seq<char> {
    x.label@ + (if x.outcome is Ok {
        ": OK\n"@
    } else {
        ": BAD\n"@
    })
}

fn probe_line(x: &ProbeResult) -> (r: String)
    ensures
        r@ == probe_text(*x),
{
    let mut r = x.label.clone();
    match &x.outcome {
        Ok(_) => r.append(": OK\n"),
        Err(_) => r.append(": BAD\n"),
    }
    r
}

/// The report of a probe run, one line for each target.
pub open spec fn probes_text(items: Seq<ProbeResult>) -> Seq<char> {
    concat_of(items, |x: ProbeResult| probe_text(x))
}

/// Writes the report of a probe run.
pub fn get_host_info(items: &Vec<ProbeResult>) -> (r: String)
    ensures
        r@ == probes_text(items@),
{
    write_all(items, probe_line, Ghost(|x: ProbeResult| probe_text(x)))
}

/// One reading on a line of its own.
pub open spec fn reading_text(x: String) -> Seq<char> {
    x@ + "\n"@
}

fn reading_line(x: &String) -> (r: String)
    ensures
        r@ == reading_text(*x),
{
    let mut r = x.clone();
    r.append("\n");
    r
}

/// The readings, each followed by a line break.
pub open spec fn readings_text(items: Seq<String>) -> Seq<char> {
    concat_of(items, |x: String| reading_text(x))
}

/// The temperature report: the readings, one line each, or `No data` where
/// they come to no text at all.
pub open spec fn temperature_text(items: Seq<String>) -> Seq<char> {
    if readings_text(items).len() == 0 {
        "No data"@
    } else {
        readings_text(items)
    }
}

/// Writes the temperature report from the readings of the sensors, each
/// already written as text.
pub fn get_temp_info(items: &Vec<String>) -> (r: String)
    ensures
        r@ == temperature_text(items@),
{
    let r = write_all(items, reading_line, Ghost(|x: String| reading_text(x)));
    if r.as_str().is_empty() {
        String::from_str("No data")
    } else {
        r
    }
}

/// What is sent when a power action was accepted by the host. The other
/// actions report more than success and have no such text.
pub open spec fn power_text(op: SysOp) -> Seq<char> {
    match op {
        SysOp::Shutdown => "Shutting down"@,
        SysOp::Reboot => "Rebooting"@,
        SysOp::Sleep => "Switching to sleep mode"@,
        SysOp::Hibernate => "Hibernating"@,
        _ => Seq::empty(),
    }
}

/// The reply of a power action: its success text, or the rendered fault.
pub open spec fn power_reply_text(op: SysOp, outcome: Result<(), String>) -> Seq<char> {
    match outcome {
        Ok(_) => power_text(op),
        Err(message) => FAILURE_PREFIX@ + message@,
    }
}

/// Writes the reply of a power action.
pub fn power_reply(op: SysOp, outcome: &Result<(), String>) -> (r: String)
    ensures
        r@ == power_reply_text(op, *outcome),
{
    match outcome {
        Ok(_) => match op {
            SysOp::Shutdown => String::from_str("Shutting down"),
            SysOp::Reboot => String::from_str("Rebooting"),
            SysOp::Sleep => String::from_str("Switching to sleep mode"),
            SysOp::Hibernate => String::from_str("Hibernating"),
            _ => String::new(),
        },
        Err(message) => render_failure(message.as_str()),
    }
}

/// The reply to `shutdown`.
pub fn shutdown(outcome: &Result<(), String>) -> (r: String)
    ensures
        r@ == power_reply_text(SysOp::Shutdown, *outcome),
{
    power_reply(SysOp::Shutdown, outcome)
}

/// The reply to `reboot`.
pub fn reboot(outcome: &Result<(), String>) -> (r: String)
    ensures
        r@ == power_reply_text(SysOp::Reboot, *outcome),
{
    power_reply(SysOp::Reboot, outcome)
}

/// The reply to `sleep`.
pub fn sleep(outcome: &Result<(), String>) -> (r: String)
    ensures
        r@ == power_reply_text(SysOp::Sleep, *outcome),
{
    power_reply(SysOp::Sleep, outcome)
}

/// The reply to `hibernate`.
pub fn hibernate(outcome: &Result<(), String>) -> (r: String)
    ensures
        r@ == power_reply_text(SysOp::Hibernate, *outcome),
{
    power_reply(SysOp::Hibernate, outcome)
}

/// One processor of the system report. The figures are measured and
/// written by the caller.
#[derive(Clone, PartialEq, Eq, Debug)]
pub struct CpuReading {
    pub name: String,
    /// The clock rate in GHz.
    pub frequency: String,
    /// The load in percent.
    pub usage: String,
}

/// One interface of the network report.
#[derive(Clone, PartialEq, Eq, Debug)]
pub struct InterfaceReading {
    pub name: String,
    /// The traffic received, in MB.
    pub received: String,
    /// The traffic sent, in MB.
    pub transmitted: String,
}

/// One disk of the disk report. Name, file system and mount point are
/// given as the caller writes them.
#[derive(Clone, PartialEq, Eq, Debug)]
pub struct DiskReading {
    pub name: String,
    pub file_system: String,
    pub mount_point: String,
    /// The free space in Gb.
    pub available: String,
    /// The size in Gb.
    pub total: String,
}

/// The line for one processor.
pub open spec fn cpu_text(x: CpuReading) -> Seq<char> {
    " "@
        + x.name@
        + " ("@
        + x.frequency@
        + " GHz): "@
        + x.usage@
        + "%\n"@
}

fn cpu_line(x: &CpuReading) -> (r: String)
    ensures
        r@ == cpu_text(*x),
{
    let mut r = String::from_str(" ");
    r.append(x.name.as_str());
    r.append(" (");
    r.append(x.frequency.as_str());
    r.append(" GHz): ");
    r.append(x.usage.as_str());
    r.append("%\n");
    r
}

/// The lines for the processors.
pub open spec fn cpus_text(items: Seq<CpuReading>) -> Seq<char> {
    concat_of(items, |x: CpuReading| cpu_text(x))
}

fn cpus_block(items: &Vec<CpuReading>) -> (r: String)
    ensures
        r@ == cpus_text(items@),
{
    write_all(items, cpu_line, Ghost(|x: CpuReading| cpu_text(x)))
}

/// The line for one network interface.
pub open spec fn interface_text(x: InterfaceReading) -> Seq<char> {
    x.name@
        + ": "@
        + x.received@
        + " MB (down) / "@
        + x.transmitted@
        + " MB (up)\n"@
}

fn interface_line(x: &InterfaceReading) -> (r: String)
    ensures
        r@ == interface_text(*x),
{
    let mut r = x.name.clone();
    r.append(": ");
    r.append(x.received.as_str());
    r.append(" MB (down) / ");
    r.append(x.transmitted.as_str());
    r.append(" MB (up)\n");
    r
}

/// The network report, one line for each interface.
pub open spec fn interfaces_text(items: Seq<InterfaceReading>) -> Seq<char> {
    concat_of(items, |x: InterfaceReading| interface_text(x))
}

pub fn get_network_info(items: &Vec<InterfaceReading>) -> (r: String)
    ensures
        r@ == interfaces_text(items@),
{
    write_all(items, interface_line, Ghost(|x: InterfaceReading| interface_text(x)))
}

/// The line for one disk.
pub open spec fn disk_text(x: DiskReading) -> Seq<char> {
    x.name@
        + "--"@
        + x.file_system@
        + "-->"@
        + x.mount_point@
        + " "@
        + x.available@
        + "/"@
        + x.total@
        + " Gb\n"@
}

fn disk_line(x: &DiskReading) -> (r: String)
    ensures
        r@ == disk_text(*x),
{
    let mut r = x.name.clone();
    r.append("--");
    r.append(x.file_system.as_str());
    r.append("-->");
    r.append(x.mount_point.as_str());
    r.append(" ");
    r.append(x.available.as_str());
    r.append("/");
    r.append(x.total.as_str());
    r.append(" Gb\n");
    r
}

/// The disk report, one line for each disk.
pub open spec fn disks_text(items: Seq<DiskReading>) -> Seq<char> {
    concat_of(items, |x: DiskReading| disk_text(x))
}

pub fn get_disk_info(items: &Vec<DiskReading>) -> (r: String)
    ensures
        r@ == disks_text(items@),
{
    write_all(items, disk_line, Ghost(|x: DiskReading| disk_text(x)))
}

/// The system report: the processors, the memory in use and in all, and the
/// time since the start in whole minutes.
pub open spec fn system_text(
    cpus: Seq<CpuReading>,
    used_memory: Seq<char>,
    total_memory: Seq<char>,
    uptime_secs: u64,
) -> Seq<char> {
    "CPU:\n"@ + cpus_text(cpus) + "\nRAM: "@ + used_memory + "/"@ + total_memory
        + " Gb\nUp Time: "@ + decimal(uptime_secs as int / 60) + "m"@
}

/// Writes the system report. The memory figures are in Gb and written by
/// the caller; the time since the start is in seconds.
pub fn get_system_info(
    cpus: &Vec<CpuReading>,
    used_memory: &str,
    total_memory: &str,
    uptime_secs: u64,
) -> (r: String)
    ensures
        r@ == system_text(cpus@, used_memory@, total_memory@, uptime_secs),
{
    let mut r = String::from_str("CPU:\n");
    let lines = cpus_block(cpus);
    r.append(lines.as_str());
    r.append("\nRAM: ");
    r.append(used_memory);
    r.append("/");
    r.append(total_memory);
    r.append(" Gb\nUp Time: ");
    let minutes = u64_to_string(uptime_secs / 60);
    r.append(minutes.as_str());
    r.append("m");
    r
}

} // verus!
