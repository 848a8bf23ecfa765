//! The reports of the container-engine plugin: what the engine answered,
//! held as plain values, and the text that is sent for it.

use crate::reply::{render_failure, FAILURE_PREFIX, NOT_AVAILABLE};
use crate::text::{
    concat_of, debug_list_text, debug_string, debug_string_list, debug_text, decimal,
    i64_to_string, texts, write_all,
};
use crate::docker::DockerOp;
use vstd::prelude::*;
use vstd::string::*;

verus! {

/// The text of an optional value: the value, or `N/A` where there is none.
pub open spec fn or_na(value: Option<String>) -> Seq<char> {
    match value {
        Some(s) => s@,
        None => NOT_AVAILABLE@,
    }
}

/// The text of a truth value.
pub open spec fn bool_text(b: bool) -> Seq<char> {
    if b {
        "true"@
    } else {
        "false"@
    }
}

/// The texts of an optional list of strings; no list counts as the empty
/// list.
pub open spec fn texts_or_none(items: Option<Vec<String>>) -> Seq<Seq<char>> {
    match items {
        Some(v) => texts(v@),
        None => Seq::empty(),
    }
}

fn append_or_na(out: &mut String, value: &Option<String>)
    ensures
        final(out)@ == old(out)@ + or_na(*value),
{
    match value {
        Some(s) => out.append(s.as_str()),
        None => out.append(NOT_AVAILABLE),
    }
}

fn append_decimal(out: &mut String, n: i64)
    ensures
        final(out)@ == old(out)@ + decimal(n as int),
{
    let digits = i64_to_string(n);
    out.append(digits.as_str());
}

fn append_bool(out: &mut String, b: bool)
    ensures
        final(out)@ == old(out)@ + bool_text(b),
{
    if b {
        out.append("true");
    } else {
        out.append("false");
    }
}

/// The text of an optional value between quotes, as the standard `Debug`
/// formatting writes it, or `N/A` where there is none.
pub open spec fn quoted_or_na(value: Option<String>) -> Seq<char> {
    match value {
        Some(s) => debug_text(s@),
        None => NOT_AVAILABLE@,
    }
}

fn quoted_or_na_text(value: &Option<String>) -> (r: String)
    ensures
        r@ == quoted_or_na(*value),
{
    match value {
        Some(s) => debug_string(s.as_str()),
        None => String::from_str(NOT_AVAILABLE),
    }
}

fn debug_optional_list(items: &Option<Vec<String>>) -> (r: String)
    ensures
        r@ == debug_list_text(texts_or_none(*items)),
{
    match items {
        Some(v) => debug_string_list(v),
        None => {
            let none: Vec<String> = Vec::new();
            assert(texts(none@) =~= Seq::<Seq<char>>::empty());
            debug_string_list(&none)
        },
    }
}

/// A label with its value, as in the labels and options of the engine's
/// objects.
pub type Pair = (String, String);

/// The engine's version summary.
#[derive(Clone, PartialEq, Eq, Debug)]
pub struct VersionInfo {
    pub os: Option<String>,
    pub kernel_version: Option<String>,
    pub platform_name: Option<String>,
    pub version: Option<String>,
    pub api_version: Option<String>,
    pub arch: Option<String>,
}

/// One container of the listing.
#[derive(Clone, PartialEq, Eq, Debug)]
pub struct ContainerSummary {
    pub names: Option<Vec<String>>,
    pub state: Option<String>,
    pub status: Option<String>,
}

/// One published port of a container.
#[derive(Clone, PartialEq, Eq, Debug)]
pub struct PortBinding {
    pub ip: Option<String>,
    pub private_port: u16,
    pub public_port: Option<u16>,
    /// The transport, as the engine writes it: `tcp`, `udp` or `sctp`.
    pub kind: Option<String>,
}

/// One network that a container is attached to.
#[derive(Clone, PartialEq, Eq, Debug)]
pub struct NetworkAttachment {
    pub network: String,
    pub network_id: Option<String>,
    pub ip_address: Option<String>,
    pub ip_prefix_len: Option<i64>,
    pub gateway: Option<String>,
    pub dns_names: Option<Vec<String>>,
    pub links: Option<Vec<String>>,
}

/// One mount of a container.
#[derive(Clone, PartialEq, Eq, Debug)]
pub struct MountPoint {
    /// The mount type, as the engine writes it.
    pub kind: Option<String>,
    pub name: Option<String>,
    pub source: Option<String>,
    pub destination: Option<String>,
    pub driver: Option<String>,
    pub mode: Option<String>,
    pub rw: Option<bool>,
    pub propagation: Option<String>,
}

/// What the engine knows of one container.
#[derive(Clone, PartialEq, Eq, Debug)]
pub struct ContainerDetails {
    pub id: Option<String>,
    pub names: Option<Vec<String>>,
    pub image: Option<String>,
    pub ports: Option<Vec<PortBinding>>,
    pub labels: Option<Vec<Pair>>,
    pub networks: Option<Vec<NetworkAttachment>>,
    pub mounts: Option<Vec<MountPoint>>,
}

/// One image of the listing.
#[derive(Clone, PartialEq, Eq, Debug)]
pub struct ImageSummary {
    pub id: String,
    pub repo_tags: Vec<String>,
    pub size: i64,
    pub shared_size: i64,
    pub containers: i64,
}

/// One address range of a network.
#[derive(Clone, PartialEq, Eq, Debug)]
pub struct IpamConfig {
    pub subnet: Option<String>,
    pub gateway: Option<String>,
}

/// The address management of a network.
#[derive(Clone, PartialEq, Eq, Debug)]
pub struct Ipam {
    pub driver: Option<String>,
    pub config: Option<Vec<IpamConfig>>,
}

/// One container on a network.
#[derive(Clone, PartialEq, Eq, Debug)]
pub struct NetworkMember {
    pub id: String,
    pub name: Option<String>,
    pub ipv4_address: Option<String>,
    pub ipv6_address: Option<String>,
}

/// One network of the listing.
#[derive(Clone, PartialEq, Eq, Debug)]
pub struct NetworkInfo {
    pub id: Option<String>,
    pub name: Option<String>,
    pub created: Option<String>,
    pub scope: Option<String>,
    pub driver: Option<String>,
    pub enable_ipv6: Option<bool>,
    pub internal: Option<bool>,
    pub attachable: Option<bool>,
    pub ingress: Option<bool>,
    pub ipam: Option<Ipam>,
    pub containers: Option<Vec<NetworkMember>>,
    pub options: Option<Vec<Pair>>,
    pub labels: Option<Vec<Pair>>,
}

/// The space that a volume takes and the containers that use it.
#[derive(Clone, PartialEq, Eq, Debug)]
pub struct VolumeUsage {
    pub size: i64,
    pub ref_count: i64,
}

/// One volume of the listing.
#[derive(Clone, PartialEq, Eq, Debug)]
pub struct VolumeInfo {
    pub name: String,
    pub driver: String,
    pub mountpoint: String,
    pub created_at: Option<String>,
    /// The driver's status entries, each value already written as text.
    pub status: Option<Vec<Pair>>,
    pub labels: Vec<Pair>,
    pub options: Vec<Pair>,
    pub usage_data: Option<VolumeUsage>,
}

/// What a prune removed.
#[derive(Clone, PartialEq, Eq, Debug)]
pub struct PruneReport {
    pub removed: Option<Vec<String>>,
    pub space_reclaimed: Option<i64>,
}

/// The number that stands for an absent one.
pub open spec fn or_number(value: Option<i64>, fallback: int) -> int {
    match value {
        Some(n) => n as int,
        None => fallback,
    }
}

fn number_or(value: Option<i64>, fallback: i64) -> (r: i64)
    ensures
        r == or_number(value, fallback as int),
{
    match value {
        Some(n) => n,
        None => fallback,
    }
}

/// The truth value that stands for an absent one: false.
pub open spec fn or_false(value: Option<bool>) -> bool {
    match value {
        Some(b) => b,
        None => false,
    }
}

fn flag_or_false(value: Option<bool>) -> (r: bool)
    ensures
        r == or_false(value),
{
    match value {
        Some(b) => b,
        None => false,
    }
}

/// The public port, or zero where the port is not published.
pub open spec fn public_port_of(port: PortBinding) -> int {
    match port.public_port {
        Some(p) => p as int,
        None => 0,
    }
}

fn public_port(port: &PortBinding) -> (r: i64)
    ensures
        r == public_port_of(*port),
{
    match port.public_port {
        Some(p) => p as i64,
        None => 0,
    }
}

/// One entry of a labelled list: two spaces, the label, a colon, the value.
pub open spec fn pair_text(x: Pair) -> Seq<char> {
    "  "@
        + x.0@
        + ": "@
        + x.1@
        + "\n"@
}

fn pair_line(x: &Pair) -> (r: String)
    ensures
        r@ == pair_text(*x),
{
    let mut r = String::from_str("  ");
    r.append(x.0.as_str());
    r.append(": ");
    r.append(x.1.as_str());
    r.append("\n");
    r
}

/// The entries of a labelled list, one line each.
pub open spec fn pairs_text(items: Seq<Pair>) -> Seq<char> {
    concat_of(items, |x: Pair| pair_text(x))
}

fn pairs_block(items: &Vec<Pair>) -> (r: String)
    ensures
        r@ == pairs_text(items@),
{
    write_all(items, pair_line, Ghost(|x: Pair| pair_text(x)))
}

/// The engine's version and platform summary. A property that the engine did not give is shown as `N/A`. The parts that the standard `Debug` formatting writes are given
/// as `platform_name_text`.
pub open spec fn version_text_with(x: VersionInfo, platform_name_text: Seq<char>) -> Seq<char> {
    "OS: "@
        + or_na(x.os)
        + "\nKernel: "@
        + or_na(x.kernel_version)
        + "\nPlatform: "@
        + platform_name_text
        + "\nVersion: "@
        + or_na(x.version)
        + "\nApi: "@
        + or_na(x.api_version)
        + "\nArch: "@
        + or_na(x.arch)
}

/// The engine's version and platform summary. A property that the engine did not give is shown as `N/A`.
pub open spec fn version_text(x: VersionInfo) -> Seq<char> {
    version_text_with(x, quoted_or_na(x.platform_name))
}

/// Writes the text of [`version_text_with`].
pub fn version_summary_with(x: &VersionInfo, platform_name_text: &str) -> (r: String)
    ensures
        r@ == version_text_with(*x, platform_name_text@),
{
    let mut r = String::from_str("OS: ");
    append_or_na(&mut r, &x.os);
    r.append("\nKernel: ");
    append_or_na(&mut r, &x.kernel_version);
    r.append("\nPlatform: ");
    r.append(platform_name_text);
    r.append("\nVersion: ");
    append_or_na(&mut r, &x.version);
    r.append("\nApi: ");
    append_or_na(&mut r, &x.api_version);
    r.append("\nArch: ");
    append_or_na(&mut r, &x.arch);
    r
}

fn version_summary(x: &VersionInfo) -> (r: String)
    ensures
        r@ == version_text(*x),
{
    let platform_name_text = quoted_or_na_text(&x.platform_name);
    version_summary_with(x, platform_name_text.as_str())
}

/// The group of lines for one container of the listing: names, state, status. The parts that the standard `Debug` formatting writes are given
/// as `names_text`.
pub open spec fn container_summary_text_with(x: ContainerSummary, names_text: Seq<char>) -> Seq<char> {
    "Names: "@
        + names_text
        + "\nState: "@
        + or_na(x.state)
        + "\nStatus: "@
        + or_na(x.status)
        + "\n"@
}

/// The group of lines for one container of the listing: names, state, status.
pub open spec fn container_summary_text(x: ContainerSummary) -> Seq<char> {
    container_summary_text_with(x, debug_list_text(texts_or_none(x.names)))
}

/// Writes the text of [`container_summary_text_with`].
pub fn container_summary_with(x: &ContainerSummary, names_text: &str) -> (r: String)
    ensures
        r@ == container_summary_text_with(*x, names_text@),
{
    let mut r = String::from_str("Names: ");
    r.append(names_text);
    r.append("\nState: ");
    append_or_na(&mut r, &x.state);
    r.append("\nStatus: ");
    append_or_na(&mut r, &x.status);
    r.append("\n");
    r
}

fn container_summary(x: &ContainerSummary) -> (r: String)
    ensures
        r@ == container_summary_text(*x),
{
    let names_text = debug_optional_list(&x.names);
    container_summary_with(x, names_text.as_str())
}

/// The listing of all containers, one group of lines each. No container gives the empty text.
pub open spec fn containers_text(items: Seq<ContainerSummary>) -> Seq<char> {
    concat_of(items, |x: ContainerSummary| container_summary_text(x))
}

fn containers_block(items: &Vec<ContainerSummary>) -> (r: String)
    ensures
        r@ == containers_text(items@),
{
    write_all(items, container_summary, Ghost(|x: ContainerSummary| container_summary_text(x)))
}

/// The lines for one published port.
pub open spec fn port_text(x: PortBinding) -> Seq<char> {
    "  IP: "@
        + or_na(x.ip)
        + "\n  Private: "@
        + decimal(x.private_port as int)
        + "\n  Public: "@
        + decimal(public_port_of(x))
        + "\n  Type: "@
        + or_na(x.kind)
        + "\n"@
}

fn port_lines(x: &PortBinding) -> (r: String)
    ensures
        r@ == port_text(*x),
{
    let mut r = String::from_str("  IP: ");
    append_or_na(&mut r, &x.ip);
    r.append("\n  Private: ");
    append_decimal(&mut r, x.private_port as i64);
    r.append("\n  Public: ");
    append_decimal(&mut r, public_port(x));
    r.append("\n  Type: ");
    append_or_na(&mut r, &x.kind);
    r.append("\n");
    r
}

/// The lines for the published ports.
pub open spec fn ports_text(items: Seq<PortBinding>) -> Seq<char> {
    concat_of(items, |x: PortBinding| port_text(x))
}

fn ports_block(items: &Vec<PortBinding>) -> (r: String)
    ensures
        r@ == ports_text(items@),
{
    write_all(items, port_lines, Ghost(|x: PortBinding| port_text(x)))
}

/// The lines for one network that a container is attached to. The parts that the standard `Debug` formatting writes are given
/// as `dns_names_text` and `links_text`.
pub open spec fn attachment_text_with(x: NetworkAttachment, dns_names_text: Seq<char>, links_text: Seq<char>) -> Seq<char> {
    "  Network: "@
        + x.network@
        + " ("@
        + or_na(x.network_id)
        + ")\n  IP: "@
        + or_na(x.ip_address)
        + " ("@
        + decimal(or_number(x.ip_prefix_len, -1))
        + ")\n  Gateway: "@
        + or_na(x.gateway)
        + "\n  DNS: "@
        + dns_names_text
        + "\n  Links: "@
        + links_text
        + "\n"@
}

/// The lines for one network that a container is attached to.
pub open spec fn attachment_text(x: NetworkAttachment) -> Seq<char> {
    attachment_text_with(x, debug_list_text(texts_or_none(x.dns_names)), debug_list_text(texts_or_none(x.links)))
}

/// Writes the text of [`attachment_text_with`].
pub fn attachment_lines_with(x: &NetworkAttachment, dns_names_text: &str, links_text: &str) -> (r: String)
    ensures
        r@ == attachment_text_with(*x, dns_names_text@, links_text@),
{
    let mut r = String::from_str("  Network: ");
    r.append(x.network.as_str());
    r.append(" (");
    append_or_na(&mut r, &x.network_id);
    r.append(")\n  IP: ");
    append_or_na(&mut r, &x.ip_address);
    r.append(" (");
    append_decimal(&mut r, number_or(x.ip_prefix_len, -1));
    r.append(")\n  Gateway: ");
    append_or_na(&mut r, &x.gateway);
    r.append("\n  DNS: ");
    r.append(dns_names_text);
    r.append("\n  Links: ");
    r.append(links_text);
    r.append("\n");
    r
}

fn attachment_lines(x: &NetworkAttachment) -> (r: String)
    ensures
        r@ == attachment_text(*x),
{
    let dns_names_text = debug_optional_list(&x.dns_names);
    let links_text = debug_optional_list(&x.links);
    attachment_lines_with(x, dns_names_text.as_str(), links_text.as_str())
}

/// The lines for the networks of a container.
pub open spec fn attachments_text(items: Seq<NetworkAttachment>) -> Seq<char> {
    concat_of(items, |x: NetworkAttachment| attachment_text(x))
}

fn attachments_block(items: &Vec<NetworkAttachment>) -> (r: String)
    ensures
        r@ == attachments_text(items@),
{
    write_all(items, attachment_lines, Ghost(|x: NetworkAttachment| attachment_text(x)))
}

/// The lines for one mount.
pub open spec fn mount_text(x: MountPoint) -> Seq<char> {
    "  Type: "@
        + or_na(x.kind)
        + "\n  Name: "@
        + or_na(x.name)
        + "\n  Source: "@
        + or_na(x.source)
        + "\n  Destination: "@
        + or_na(x.destination)
        + "\n  Driver: "@
        + or_na(x.driver)
        + "\n  Mode: "@
        + or_na(x.mode)
        + "\n  Read-Write: "@
        + bool_text(or_false(x.rw))
        + "\n  Propagation: "@
        + or_na(x.propagation)
        + "\n"@
}

fn mount_lines(x: &MountPoint) -> (r: String)
    ensures
        r@ == mount_text(*x),
{
    let mut r = String::from_str("  Type: ");
    append_or_na(&mut r, &x.kind);
    r.append("\n  Name: ");
    append_or_na(&mut r, &x.name);
    r.append("\n  Source: ");
    append_or_na(&mut r, &x.source);
    r.append("\n  Destination: ");
    append_or_na(&mut r, &x.destination);
    r.append("\n  Driver: ");
    append_or_na(&mut r, &x.driver);
    r.append("\n  Mode: ");
    append_or_na(&mut r, &x.mode);
    r.append("\n  Read-Write: ");
    append_bool(&mut r, flag_or_false(x.rw));
    r.append("\n  Propagation: ");
    append_or_na(&mut r, &x.propagation);
    r.append("\n");
    r
}

/// The lines for the mounts of a container.
pub open spec fn mounts_text(items: Seq<MountPoint>) -> Seq<char> {
    concat_of(items, |x: MountPoint| mount_text(x))
}

fn mounts_block(items: &Vec<MountPoint>) -> (r: String)
    ensures
        r@ == mounts_text(items@),
{
    write_all(items, mount_lines, Ghost(|x: MountPoint| mount_text(x)))
}

/// The body of the ports section: the ports, or a line that says there is nothing to show.
pub open spec fn ports_section(items: Option<Vec<PortBinding>>) -> Seq<char> {
    match items {
        Some(v) => ports_text(v@),
        None => "  N/A\n"@,
    }
}

fn ports_section_text(items: &Option<Vec<PortBinding>>) -> (r: String)
    ensures
        r@ == ports_section(*items),
{
    match items {
        Some(v) => ports_block(v),
        None => String::from_str("  N/A\n"),
    }
}

/// The body of a labelled section: its entries, or a line that says there is nothing to show.
pub open spec fn pairs_section(items: Option<Vec<Pair>>) -> Seq<char> {
    match items {
        Some(v) => pairs_text(v@),
        None => "  N/A\n"@,
    }
}

fn pairs_section_text(items: &Option<Vec<Pair>>) -> (r: String)
    ensures
        r@ == pairs_section(*items),
{
    match items {
        Some(v) => pairs_block(v),
        None => String::from_str("  N/A\n"),
    }
}

/// The body of the networks section.
pub open spec fn attachments_section(items: Option<Vec<NetworkAttachment>>) -> Seq<char> {
    match items {
        Some(v) => attachments_text(v@),
        None => "  N/A\n"@,
    }
}

fn attachments_section_text(items: &Option<Vec<NetworkAttachment>>) -> (r: String)
    ensures
        r@ == attachments_section(*items),
{
    match items {
        Some(v) => attachments_block(v),
        None => String::from_str("  N/A\n"),
    }
}

/// The body of the mounts section.
pub open spec fn mounts_section(items: Option<Vec<MountPoint>>) -> Seq<char> {
    match items {
        Some(v) => mounts_text(v@),
        None => "  N/A\n"@,
    }
}

fn mounts_section_text(items: &Option<Vec<MountPoint>>) -> (r: String)
    ensures
        r@ == mounts_section(*items),
{
    match items {
        Some(v) => mounts_block(v),
        None => String::from_str("  N/A\n"),
    }
}

/// The report on one container: identity, then the sections for ports, labels, networks and mounts, then two line breaks. The parts that the standard `Debug` formatting writes are given
/// as `names_text`.
pub open spec fn container_details_text_with(x: ContainerDetails, names_text: Seq<char>) -> Seq<char> {
    "Id: "@
        + or_na(x.id)
        + "\nNames: "@
        + names_text
        + "\nImage: "@
        + or_na(x.image)
        + "\nPorts:\n"@
        + ports_section(x.ports)
        + "Labels:\n"@
        + pairs_section(x.labels)
        + "Networks:\n"@
        + attachments_section(x.networks)
        + "Mounts:\n"@
        + mounts_section(x.mounts)
        + "\n\n"@
}

/// The report on one container: identity, then the sections for ports, labels, networks and mounts, then two line breaks.
pub open spec fn container_details_text(x: ContainerDetails) -> Seq<char> {
    container_details_text_with(x, debug_list_text(texts_or_none(x.names)))
}

/// Writes the text of [`container_details_text_with`].
pub fn container_details_with(x: &ContainerDetails, names_text: &str) -> (r: String)
    ensures
        r@ == container_details_text_with(*x, names_text@),
{
    let mut r = String::from_str("Id: ");
    append_or_na(&mut r, &x.id);
    r.append("\nNames: ");
    r.append(names_text);
    r.append("\nImage: ");
    append_or_na(&mut r, &x.image);
    r.append("\nPorts:\n");
    let part = ports_section_text(&x.ports);
    r.append(part.as_str());
    r.append("Labels:\n");
    let part = pairs_section_text(&x.labels);
    r.append(part.as_str());
    r.append("Networks:\n");
    let part = attachments_section_text(&x.networks);
    r.append(part.as_str());
    r.append("Mounts:\n");
    let part = mounts_section_text(&x.mounts);
    r.append(part.as_str());
    r.append("\n\n");
    r
}

fn container_details(x: &ContainerDetails) -> (r: String)
    ensures
        r@ == container_details_text(*x),
{
    let names_text = debug_optional_list(&x.names);
    container_details_with(x, names_text.as_str())
}

/// The report on the containers that a name selected, one after another.
pub open spec fn all_container_details_text(items: Seq<ContainerDetails>) -> Seq<char> {
    concat_of(items, |x: ContainerDetails| container_details_text(x))
}

fn container_details_block(items: &Vec<ContainerDetails>) -> (r: String)
    ensures
        r@ == all_container_details_text(items@),
{
    write_all(items, container_details, Ghost(|x: ContainerDetails| container_details_text(x)))
}

/// The lines for one image. The parts that the standard `Debug` formatting writes are given
/// as `repo_tags_text`.
pub open spec fn image_text_with(x: ImageSummary, repo_tags_text: Seq<char>) -> Seq<char> {
    "Id: "@
        + x.id@
        + "\nTags: "@
        + repo_tags_text
        + "\nSize: "@
        + decimal(x.size as int)
        + "\nShared Size: "@
        + decimal(x.shared_size as int)
        + "\nConteiners: "@
        + decimal(x.containers as int)
        + "\n\n"@
}

/// The lines for one image.
pub open spec fn image_text(x: ImageSummary) -> Seq<char> {
    image_text_with(x, debug_list_text(texts(x.repo_tags@)))
}

/// Writes the text of [`image_text_with`].
pub fn image_lines_with(x: &ImageSummary, repo_tags_text: &str) -> (r: String)
    ensures
        r@ == image_text_with(*x, repo_tags_text@),
{
    let mut r = String::from_str("Id: ");
    r.append(x.id.as_str());
    r.append("\nTags: ");
    r.append(repo_tags_text);
    r.append("\nSize: ");
    append_decimal(&mut r, x.size);
    r.append("\nShared Size: ");
    append_decimal(&mut r, x.shared_size);
    r.append("\nConteiners: ");
    append_decimal(&mut r, x.containers);
    r.append("\n\n");
    r
}

fn image_lines(x: &ImageSummary) -> (r: String)
    ensures
        r@ == image_text(*x),
{
    let repo_tags_text = debug_string_list(&x.repo_tags);
    image_lines_with(x, repo_tags_text.as_str())
}

/// The listing of the images.
pub open spec fn images_text(items: Seq<ImageSummary>) -> Seq<char> {
    concat_of(items, |x: ImageSummary| image_text(x))
}

fn images_block(items: &Vec<ImageSummary>) -> (r: String)
    ensures
        r@ == images_text(items@),
{
    write_all(items, image_lines, Ghost(|x: ImageSummary| image_text(x)))
}

/// The lines for one address range.
pub open spec fn ipam_config_text(x: IpamConfig) -> Seq<char> {
    "    Subnet: "@
        + or_na(x.subnet)
        + "\n    Gateway: "@
        + or_na(x.gateway)
        + "\n"@
}

fn ipam_config_lines(x: &IpamConfig) -> (r: String)
    ensures
        r@ == ipam_config_text(*x),
{
    let mut r = String::from_str("    Subnet: ");
    append_or_na(&mut r, &x.subnet);
    r.append("\n    Gateway: ");
    append_or_na(&mut r, &x.gateway);
    r.append("\n");
    r
}

/// The lines for the address ranges of a network.
pub open spec fn ipam_configs_text(items: Seq<IpamConfig>) -> Seq<char> {
    concat_of(items, |x: IpamConfig| ipam_config_text(x))
}

fn ipam_configs_block(items: &Vec<IpamConfig>) -> (r: String)
    ensures
        r@ == ipam_configs_text(items@),
{
    write_all(items, ipam_config_lines, Ghost(|x: IpamConfig| ipam_config_text(x)))
}

/// The lines for one container on a network.
pub open spec fn member_text(x: NetworkMember) -> Seq<char> {
    "  Id: "@
        + x.id@
        + "\n    Name: "@
        + or_na(x.name)
        + "\n    IPv4 Address: "@
        + or_na(x.ipv4_address)
        + "\n    IPv6 Address: "@
        + or_na(x.ipv6_address)
        + "\n"@
}

fn member_lines(x: &NetworkMember) -> (r: String)
    ensures
        r@ == member_text(*x),
{
    let mut r = String::from_str("  Id: ");
    r.append(x.id.as_str());
    r.append("\n    Name: ");
    append_or_na(&mut r, &x.name);
    r.append("\n    IPv4 Address: ");
    append_or_na(&mut r, &x.ipv4_address);
    r.append("\n    IPv6 Address: ");
    append_or_na(&mut r, &x.ipv6_address);
    r.append("\n");
    r
}

/// The lines for the containers on a network.
pub open spec fn members_text(items: Seq<NetworkMember>) -> Seq<char> {
    concat_of(items, |x: NetworkMember| member_text(x))
}

fn members_block(items: &Vec<NetworkMember>) -> (r: String)
    ensures
        r@ == members_text(items@),
{
    write_all(items, member_lines, Ghost(|x: NetworkMember| member_text(x)))
}

/// The address ranges of a network under their heading, or nothing where
/// the engine gave none.
pub open spec fn ipam_configs_section(configs: Option<Vec<IpamConfig>>) -> Seq<char> {
    match configs {
        Some(v) => "  Configs:\n"@ + ipam_configs_text(v@),
        None => Seq::empty(),
    }
}

/// The address management of a network under its heading, or nothing where
/// the engine gave none.
pub open spec fn ipam_section(ipam: Option<Ipam>) -> Seq<char> {
    match ipam {
        Some(m) => "IPAM:\n  Driver: "@ + or_na(m.driver) + "\n"@ + ipam_configs_section(m.config),
        None => Seq::empty(),
    }
}

fn ipam_configs_section_text(configs: &Option<Vec<IpamConfig>>) -> (r: String)
    ensures
        r@ == ipam_configs_section(*configs),
{
    match configs {
        Some(v) => {
            let mut r = String::from_str("  Configs:\n");
            let part = ipam_configs_block(v);
            r.append(part.as_str());
            r
        },
        None => String::new(),
    }
}

fn ipam_section_text(ipam: &Option<Ipam>) -> (r: String)
    ensures
        r@ == ipam_section(*ipam),
{
    match ipam {
        Some(m) => {
            let mut r = String::from_str("IPAM:\n  Driver: ");
            append_or_na(&mut r, &m.driver);
            r.append("\n");
            let part = ipam_configs_section_text(&m.config);
            r.append(part.as_str());
            r
        },
        None => String::new(),
    }
}

/// The containers on a network under their heading, or nothing where the
/// engine gave none.
pub open spec fn members_section(members: Option<Vec<NetworkMember>>) -> Seq<char> {
    match members {
        Some(v) => "Containers:\n"@ + members_text(v@),
        None => Seq::empty(),
    }
}

fn members_section_text(members: &Option<Vec<NetworkMember>>) -> (r: String)
    ensures
        r@ == members_section(*members),
{
    match members {
        Some(v) => {
            let mut r = String::from_str("Containers:\n");
            let part = members_block(v);
            r.append(part.as_str());
            r
        },
        None => String::new(),
    }
}

/// A labelled list under the heading `title`, or nothing where the engine
/// gave none.
pub open spec fn titled_pairs(title: Seq<char>, pairs: Option<Vec<Pair>>) -> Seq<char> {
    match pairs {
        Some(v) => title + pairs_text(v@),
        None => Seq::empty(),
    }
}

fn titled_pairs_text(title: &str, pairs: &Option<Vec<Pair>>) -> (r: String)
    ensures
        r@ == titled_pairs(title@, *pairs),
{
    match pairs {
        Some(v) => {
            let mut r = String::from_str(title);
            let part = pairs_block(v);
            r.append(part.as_str());
            r
        },
        None => String::new(),
    }
}

/// The report on one network: its properties, then the sections that the engine gave, then two line breaks.
pub open spec fn network_text(x: NetworkInfo) -> Seq<char> {
    "Id: "@
        + or_na(x.id)
        + "\nName: "@
        + or_na(x.name)
        + "\nCreated: "@
        + or_na(x.created)
        + "\nScope: "@
        + or_na(x.scope)
        + "\nDriver: "@
        + or_na(x.driver)
        + "\nEnable IPv6: "@
        + bool_text(or_false(x.enable_ipv6))
        + "\nInternal: "@
        + bool_text(or_false(x.internal))
        + "\nAttachable: "@
        + bool_text(or_false(x.attachable))
        + "\nIngress: "@
        + bool_text(or_false(x.ingress))
        + "\n"@
        + ipam_section(x.ipam)
        + members_section(x.containers)
        + titled_pairs("Options:\n"@, x.options)
        + titled_pairs("Labels:\n"@, x.labels)
        + "\n\n"@
}

fn network_lines(x: &NetworkInfo) -> (r: String)
    ensures
        r@ == network_text(*x),
{
    let mut r = String::from_str("Id: ");
    append_or_na(&mut r, &x.id);
    r.append("\nName: ");
    append_or_na(&mut r, &x.name);
    r.append("\nCreated: ");
    append_or_na(&mut r, &x.created);
    r.append("\nScope: ");
    append_or_na(&mut r, &x.scope);
    r.append("\nDriver: ");
    append_or_na(&mut r, &x.driver);
    r.append("\nEnable IPv6: ");
    append_bool(&mut r, flag_or_false(x.enable_ipv6));
    r.append("\nInternal: ");
    append_bool(&mut r, flag_or_false(x.internal));
    r.append("\nAttachable: ");
    append_bool(&mut r, flag_or_false(x.attachable));
    r.append("\nIngress: ");
    append_bool(&mut r, flag_or_false(x.ingress));
    r.append("\n");
    let part = ipam_section_text(&x.ipam);
    r.append(part.as_str());
    let part = members_section_text(&x.containers);
    r.append(part.as_str());
    let part = titled_pairs_text("Options:\n", &x.options);
    r.append(part.as_str());
    let part = titled_pairs_text("Labels:\n", &x.labels);
    r.append(part.as_str());
    r.append("\n\n");
    r
}

/// The listing of the networks.
pub open spec fn networks_text(items: Seq<NetworkInfo>) -> Seq<char> {
    concat_of(items, |x: NetworkInfo| network_text(x))
}

fn networks_block(items: &Vec<NetworkInfo>) -> (r: String)
    ensures
        r@ == networks_text(items@),
{
    write_all(items, network_lines, Ghost(|x: NetworkInfo| network_text(x)))
}

/// The body of a labelled section of a volume: its entries, or a line that
/// says there is nothing to show where there is no entry.
pub open spec fn pairs_or_na(pairs: Seq<Pair>) -> Seq<char> {
    if pairs.len() == 0 {
        "  N/A\n"@
    } else {
        pairs_text(pairs)
    }
}

fn pairs_or_na_text(pairs: &Vec<Pair>) -> (r: String)
    ensures
        r@ == pairs_or_na(pairs@),
{
    if pairs.len() == 0 {
        String::from_str("  N/A\n")
    } else {
        pairs_block(pairs)
    }
}

/// The usage of a volume, or a line that says there is nothing to show.
pub open spec fn usage_section(usage: Option<VolumeUsage>) -> Seq<char> {
    match usage {
        Some(u) => "  Size: "@ + decimal(u.size as int) + "\n  Refs: "@ + decimal(u.ref_count as int)
            + "\n"@,
        None => "  N/A\n"@,
    }
}

fn usage_section_text(usage: &Option<VolumeUsage>) -> (r: String)
    ensures
        r@ == usage_section(*usage),
{
    match usage {
        Some(u) => {
            let mut r = String::from_str("  Size: ");
            append_decimal(&mut r, u.size);
            r.append("\n  Refs: ");
            append_decimal(&mut r, u.ref_count);
            r.append("\n");
            r
        },
        None => String::from_str("  N/A\n"),
    }
}

/// The report on one volume.
pub open spec fn volume_text(x: VolumeInfo) -> Seq<char> {
    "Name: "@
        + x.name@
        + "\nDriver: "@
        + x.driver@
        + "\nMountpoint: "@
        + x.mountpoint@
        + "\nCreated At: "@
        + or_na(x.created_at)
        + "\nStatus:\n"@
        + pairs_section(x.status)
        + "Labels:\n"@
        + pairs_or_na(x.labels@)
        + "Options:\n"@
        + pairs_or_na(x.options@)
        + "Usage Data:\n"@
        + usage_section(x.usage_data)
        + "\n\n"@
}

fn volume_lines(x: &VolumeInfo) -> (r: String)
    ensures
        r@ == volume_text(*x),
{
    let mut r = String::from_str("Name: ");
    r.append(x.name.as_str());
    r.append("\nDriver: ");
    r.append(x.driver.as_str());
    r.append("\nMountpoint: ");
    r.append(x.mountpoint.as_str());
    r.append("\nCreated At: ");
    append_or_na(&mut r, &x.created_at);
    r.append("\nStatus:\n");
    let part = pairs_section_text(&x.status);
    r.append(part.as_str());
    r.append("Labels:\n");
    let part = pairs_or_na_text(&x.labels);
    r.append(part.as_str());
    r.append("Options:\n");
    let part = pairs_or_na_text(&x.options);
    r.append(part.as_str());
    r.append("Usage Data:\n");
    let part = usage_section_text(&x.usage_data);
    r.append(part.as_str());
    r.append("\n\n");
    r
}

/// The listing of the volumes.
pub open spec fn volumes_text(items: Seq<VolumeInfo>) -> Seq<char> {
    concat_of(items, |x: VolumeInfo| volume_text(x))
}

fn volumes_block(items: &Vec<VolumeInfo>) -> (r: String)
    ensures
        r@ == volumes_text(items@),
{
    write_all(items, volume_lines, Ghost(|x: VolumeInfo| volume_text(x)))
}

/// The reply to `info`: the engine's version and platform summary, or the
/// fault that it answered with.
pub fn get_docker_info(outcome: &Result<VersionInfo, String>) -> (r: String)
    ensures
        r@ == (match *outcome {
            Ok(info) => version_text(info),
            Err(message) => FAILURE_PREFIX@ + message@,
        }),
{
    match outcome {
        Ok(info) => version_summary(info),
        Err(message) => render_failure(message.as_str()),
    }
}

/// The reply to `container list`: one group of lines for each container
/// that the engine listed, the empty text where it listed none, or the fault
/// that it answered with.
pub fn get_containers_info(outcome: &Result<Vec<ContainerSummary>, String>) -> (r: String)
    ensures
        r@ == (match *outcome {
            Ok(containers) => containers_text(containers@),
            Err(message) => FAILURE_PREFIX@ + message@,
        }),
{
    match outcome {
        Ok(containers) => containers_block(containers),
        Err(message) => render_failure(message.as_str()),
    }
}

/// The reply to `container detail`: the report on each container that the
/// name selected, or the fault that the engine answered with.
pub fn get_container_details(outcome: &Result<Vec<ContainerDetails>, String>) -> (r: String)
    ensures
        r@ == (match *outcome {
            Ok(containers) => all_container_details_text(containers@),
            Err(message) => FAILURE_PREFIX@ + message@,
        }),
{
    match outcome {
        Ok(containers) => container_details_block(containers),
        Err(message) => render_failure(message.as_str()),
    }
}

/// The reply to `image list`: the images that the engine listed, or the
/// fault that it answered with.
pub fn list_images(outcome: &Result<Vec<ImageSummary>, String>) -> (r: String)
    ensures
        r@ == (match *outcome {
            Ok(images) => images_text(images@),
            Err(message) => FAILURE_PREFIX@ + message@,
        }),
{
    match outcome {
        Ok(images) => images_block(images),
        Err(message) => render_failure(message.as_str()),
    }
}

/// The reply to `network list`: the networks that the engine listed, or the
/// fault that it answered with.
pub fn list_networks(outcome: &Result<Vec<NetworkInfo>, String>) -> (r: String)
    ensures
        r@ == (match *outcome {
            Ok(networks) => networks_text(networks@),
            Err(message) => FAILURE_PREFIX@ + message@,
        }),
{
    match outcome {
        Ok(networks) => networks_block(networks),
        Err(message) => render_failure(message.as_str()),
    }
}

/// The listing of the volumes that the engine gave; no list at all counts
/// as the empty listing.
pub open spec fn optional_volumes_text(volumes: Option<Vec<VolumeInfo>>) -> Seq<char> {
    match volumes {
        Some(v) => volumes_text(v@),
        None => Seq::empty(),
    }
}

/// The reply to `volume list`: the volumes that the engine listed, the
/// empty text where it gave no list, or the fault that it answered with.
pub fn list_volumes(outcome: &Result<Option<Vec<VolumeInfo>>, String>) -> (r: String)
    ensures
        r@ == (match *outcome {
            Ok(volumes) => optional_volumes_text(volumes),
            Err(message) => FAILURE_PREFIX@ + message@,
        }),
{
    match outcome {
        Ok(Some(volumes)) => volumes_block(volumes),
        Ok(None) => String::new(),
        Err(message) => render_failure(message.as_str()),
    }
}

/// What is sent when an action on one container succeeded. Actions that
/// report more than success have no such text.
pub open spec fn success_text(op: DockerOp) -> Seq<char> {
    match op {
        DockerOp::ContainerStop => "Stoped successfully"@,
        DockerOp::ContainerStart => "Started successfully"@,
        DockerOp::ContainerPause => "Paused successfully"@,
        DockerOp::ContainerUnpause => "Unpaused successfully"@,
        DockerOp::ContainerKill => "Killed successfully"@,
        DockerOp::ContainerRestart => "Restarted successfully"@,
        DockerOp::ContainerRename => "Renamed successfully"@,
        _ => Seq::empty(),
    }
}

/// The reply for an action on one container: its success text, or the
/// rendered fault.
pub fn container_action_reply(op: DockerOp, outcome: &Result<(), String>) -> (r: String)
    ensures
        r@ == (match *outcome {
            Ok(_) => success_text(op),
            Err(message) => FAILURE_PREFIX@ + message@,
        }),
{
    match outcome {
        Ok(_) => match op {
            DockerOp::ContainerStop => String::from_str("Stoped successfully"),
            DockerOp::ContainerStart => String::from_str("Started successfully"),
            DockerOp::ContainerPause => String::from_str("Paused successfully"),
            DockerOp::ContainerUnpause => String::from_str("Unpaused successfully"),
            DockerOp::ContainerKill => String::from_str("Killed successfully"),
            DockerOp::ContainerRestart => String::from_str("Restarted successfully"),
            DockerOp::ContainerRename => String::from_str("Renamed successfully"),
            _ => String::new(),
        },
        Err(message) => render_failure(message.as_str()),
    }
}

/// The reply to `stop`.
pub fn stop_container(outcome: &Result<(), String>) -> (r: String)
    ensures
        r@ == (match *outcome {
            Ok(_) => success_text(DockerOp::ContainerStop),
            Err(message) => FAILURE_PREFIX@ + message@,
        }),
{
    container_action_reply(DockerOp::ContainerStop, outcome)
}

/// The reply to `kill`.
pub fn kill_container(outcome: &Result<(), String>) -> (r: String)
    ensures
        r@ == (match *outcome {
            Ok(_) => success_text(DockerOp::ContainerKill),
            Err(message) => FAILURE_PREFIX@ + message@,
        }),
{
    container_action_reply(DockerOp::ContainerKill, outcome)
}

/// The reply to `restart`.
pub fn restart_container(outcome: &Result<(), String>) -> (r: String)
    ensures
        r@ == (match *outcome {
            Ok(_) => success_text(DockerOp::ContainerRestart),
            Err(message) => FAILURE_PREFIX@ + message@,
        }),
{
    container_action_reply(DockerOp::ContainerRestart, outcome)
}

/// The reply to `rename`.
pub fn rename_container(outcome: &Result<(), String>) -> (r: String)
    ensures
        r@ == (match *outcome {
            Ok(_) => success_text(DockerOp::ContainerRename),
            Err(message) => FAILURE_PREFIX@ + message@,
        }),
{
    container_action_reply(DockerOp::ContainerRename, outcome)
}

/// What is sent for a prune that removed the listed objects and freed
/// space.
pub open spec fn prune_text(removed: Seq<char>, space: Option<i64>) -> Seq<char> {
    "Pruned successfully\nRemoved: "@ + removed + "\nFree up space: "@ + decimal(or_number(space, 0))
}

/// Writes the report of a prune from the removed objects, already written
/// as text, and the freed space. No figure for the freed space counts as
/// zero.
pub fn prune_reply(removed: &str, space: Option<i64>) -> (r: String)
    ensures
        r@ == prune_text(removed@, space),
{
    let mut r = String::from_str("Pruned successfully\nRemoved: ");
    r.append(removed);
    r.append("\nFree up space: ");
    append_decimal(&mut r, number_or(space, 0));
    r
}

/// The reply to `image prune`: the removed images, already written as text
/// by the caller, and the freed space, or the rendered fault.
pub fn prune_images(outcome: &Result<(String, Option<i64>), String>) -> (r: String)
    ensures
        r@ == (match *outcome {
            Ok(report) => prune_text(report.0@, report.1),
            Err(message) => FAILURE_PREFIX@ + message@,
        }),
{
    match outcome {
        Ok(report) => prune_reply(report.0.as_str(), report.1),
        Err(message) => render_failure(message.as_str()),
    }
}

/// The reply of a prune that names what it removed: the report, or the
/// rendered fault. No list counts as the empty list.
pub open spec fn named_prune_text(outcome: Result<PruneReport, String>) -> Seq<char> {
    match outcome {
        Ok(report) => prune_text(
            debug_list_text(texts_or_none(report.removed)),
            report.space_reclaimed,
        ),
        Err(message) => FAILURE_PREFIX@ + message@,
    }
}

fn prune_named(outcome: &Result<PruneReport, String>) -> (r: String)
    ensures
        r@ == named_prune_text(*outcome),
{
    match outcome {
        Ok(report) => {
            let removed = debug_optional_list(&report.removed);
            prune_reply(removed.as_str(), report.space_reclaimed)
        },
        Err(message) => render_failure(message.as_str()),
    }
}

/// The reply to `container prune`: the removed containers and the freed
/// space, or the rendered fault.
pub fn prune_container(outcome: &Result<PruneReport, String>) -> (r: String)
    ensures
        r@ == named_prune_text(*outcome),
{
    prune_named(outcome)
}

/// The reply to `volume prune`: the removed volumes and the freed space, or
/// the rendered fault.
pub fn prune_volumes(outcome: &Result<PruneReport, String>) -> (r: String)
    ensures
        r@ == named_prune_text(*outcome),
{
    prune_named(outcome)
}

/// What is sent for a network prune that removed the listed networks. A
/// network frees no space, so none is reported.
pub open spec fn network_prune_text(removed: Seq<char>) -> Seq<char> {
    "Pruned successfully\nRemoved: "@ + removed
}

/// Writes the report of a network prune from the removed networks, already
/// written as text.
pub fn network_prune_reply(removed: &str) -> (r: String)
    ensures
        r@ == network_prune_text(removed@),
{
    let mut r = String::from_str("Pruned successfully\nRemoved: ");
    r.append(removed);
    r
}

/// The reply to `network prune`: the removed networks, or the rendered
/// fault. No list counts as the empty list.
pub fn prune_networks(outcome: &Result<Option<Vec<String>>, String>) -> (r: String)
    ensures
        r@ == (match *outcome {
            Ok(removed) => network_prune_text(debug_list_text(texts_or_none(removed))),
            Err(message) => FAILURE_PREFIX@ + message@,
        }),
{
    match outcome {
        Ok(removed) => {
            let listed = debug_optional_list(removed);
            network_prune_reply(listed.as_str())
        },
        Err(message) => render_failure(message.as_str()),
    }
}

} // verus!
