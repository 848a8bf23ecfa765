use tg_captain::docker::DockerOp as Op;
use tg_captain::docker_report::{
    attachment_lines_with, container_action_reply, container_details_with,
    container_summary_with, version_summary_with, image_lines_with, network_prune_reply,
    prune_reply, get_container_details, get_containers_info, get_docker_info,
    kill_container, list_images, list_networks, list_volumes, prune_container, prune_images,
    prune_networks, prune_volumes, rename_container, restart_container, stop_container,
    ContainerDetails, ContainerSummary, ImageSummary, Ipam, IpamConfig, MountPoint,
    NetworkAttachment, NetworkInfo, NetworkMember, PortBinding, PruneReport, VersionInfo,
    VolumeInfo, VolumeUsage,
};

fn text(s: &str) -> String {
    s.to_string()
}

fn some(s: &str) -> Option<String> {
    Some(s.to_string())
}

#[test]
fn version_summary_lists_the_six_properties() {
    let info = VersionInfo {
        os: some("linux"),
        kernel_version: some("6.8.0"),
        platform_name: some("Docker Engine - Community"),
        version: some("26.1.3"),
        api_version: some("1.45"),
        arch: some("amd64"),
    };
    assert_eq!(
        get_docker_info(&Ok(info)),
        "OS: linux\nKernel: 6.8.0\nPlatform: \"Docker Engine - Community\"\nVersion: 26.1.3\nApi: 1.45\nArch: amd64"
    );
    let bare = VersionInfo {
        os: None,
        kernel_version: None,
        platform_name: None,
        version: None,
        api_version: None,
        arch: None,
    };
    assert_eq!(
        get_docker_info(&Ok(bare)),
        "OS: N/A\nKernel: N/A\nPlatform: N/A\nVersion: N/A\nApi: N/A\nArch: N/A"
    );
    assert_eq!(get_docker_info(&Err(text("no daemon"))), "Failed with err: no daemon");
}

#[test]
fn container_listing_has_one_group_for_each_container() {
    let containers = vec![
        ContainerSummary {
            names: Some(vec![text("/web")]),
            state: some("running"),
            status: some("Up 2 hours"),
        },
        ContainerSummary {
            names: Some(vec![text("/db"), text("/web/db")]),
            state: some("exited"),
            status: some("Exited (0) 3 days ago"),
        },
    ];
    assert_eq!(
        get_containers_info(&Ok(containers)),
        "Names: [\"/web\"]\nState: running\nStatus: Up 2 hours\nNames: [\"/db\", \"/web/db\"]\nState: exited\nStatus: Exited (0) 3 days ago\n"
    );
}

#[test]
fn no_container_gives_an_empty_listing() {
    assert_eq!(get_containers_info(&Ok(Vec::new())), "");
    assert_eq!(get_container_details(&Ok(Vec::new())), "");
    assert_eq!(list_volumes(&Ok(None)), "");
    assert_eq!(list_volumes(&Ok(Some(Vec::new()))), "");
}

#[test]
fn container_details_without_data_show_not_available() {
    let bare = ContainerDetails {
        id: None,
        names: None,
        image: None,
        ports: None,
        labels: None,
        networks: None,
        mounts: None,
    };
    assert_eq!(
        get_container_details(&Ok(vec![bare])),
        "Id: N/A\nNames: []\nImage: N/A\nPorts:\n  N/A\nLabels:\n  N/A\nNetworks:\n  N/A\nMounts:\n  N/A\n\n\n"
    );
}

#[test]
fn container_details_show_every_section() {
    let full = ContainerDetails {
        id: some("abc123"),
        names: Some(vec![text("/web")]),
        image: some("nginx:latest"),
        ports: Some(vec![
            PortBinding { ip: some("0.0.0.0"), private_port: 80, public_port: Some(8080), kind: some("tcp") },
            PortBinding { ip: None, private_port: 443, public_port: None, kind: None },
        ]),
        labels: Some(vec![(text("tier"), text("front"))]),
        networks: Some(vec![NetworkAttachment {
            network: text("bridge"),
            network_id: some("n1"),
            ip_address: some("172.17.0.2"),
            ip_prefix_len: Some(16),
            gateway: some("172.17.0.1"),
            dns_names: Some(vec![text("web")]),
            links: None,
        }, NetworkAttachment {
            network: text("none"),
            network_id: None,
            ip_address: None,
            ip_prefix_len: None,
            gateway: None,
            dns_names: None,
            links: Some(Vec::new()),
        }]),
        mounts: Some(vec![MountPoint {
            kind: some("volume"),
            name: some("data"),
            source: some("/var/lib/docker/volumes/data/_data"),
            destination: some("/data"),
            driver: some("local"),
            mode: some("z"),
            rw: Some(true),
            propagation: some(""),
        }, MountPoint {
            kind: None,
            name: None,
            source: None,
            destination: None,
            driver: None,
            mode: None,
            rw: None,
            propagation: None,
        }]),
    };
    let expected = "Id: abc123\nNames: [\"/web\"]\nImage: nginx:latest\n\
Ports:\n  IP: 0.0.0.0\n  Private: 80\n  Public: 8080\n  Type: tcp\n  IP: N/A\n  Private: 443\n  Public: 0\n  Type: N/A\n\
Labels:\n  tier: front\n\
Networks:\n  Network: bridge (n1)\n  IP: 172.17.0.2 (16)\n  Gateway: 172.17.0.1\n  DNS: [\"web\"]\n  Links: []\n  Network: none (N/A)\n  IP: N/A (-1)\n  Gateway: N/A\n  DNS: []\n  Links: []\n\
Mounts:\n  Type: volume\n  Name: data\n  Source: /var/lib/docker/volumes/data/_data\n  Destination: /data\n  Driver: local\n  Mode: z\n  Read-Write: true\n  Propagation: \n  Type: N/A\n  Name: N/A\n  Source: N/A\n  Destination: N/A\n  Driver: N/A\n  Mode: N/A\n  Read-Write: false\n  Propagation: N/A\n\
\n\n";
    assert_eq!(get_container_details(&Ok(vec![full])), expected);
}

#[test]
fn empty_sections_of_a_container_keep_their_heading() {
    let hollow = ContainerDetails {
        id: some("x"),
        names: Some(Vec::new()),
        image: some("busybox"),
        ports: Some(Vec::new()),
        labels: Some(Vec::new()),
        networks: Some(Vec::new()),
        mounts: Some(Vec::new()),
    };
    assert_eq!(
        get_container_details(&Ok(vec![hollow])),
        "Id: x\nNames: []\nImage: busybox\nPorts:\nLabels:\nNetworks:\nMounts:\n\n\n"
    );
}

#[test]
fn image_listing_shows_sizes_and_tags() {
    let images = vec![
        ImageSummary {
            id: text("sha256:1"),
            repo_tags: vec![text("nginx:latest"), text("nginx:1.27")],
            size: 187654321,
            shared_size: -1,
            containers: 2,
        },
        ImageSummary { id: text("sha256:2"), repo_tags: Vec::new(), size: 0, shared_size: 0, containers: 0 },
    ];
    assert_eq!(
        list_images(&Ok(images)),
        "Id: sha256:1\nTags: [\"nginx:latest\", \"nginx:1.27\"]\nSize: 187654321\nShared Size: -1\nConteiners: 2\n\nId: sha256:2\nTags: []\nSize: 0\nShared Size: 0\nConteiners: 0\n\n"
    );
    assert_eq!(list_images(&Ok(Vec::new())), "");
    assert_eq!(list_images(&Err(text("no daemon"))), "Failed with err: no daemon");
}

#[test]
fn network_listing_shows_only_the_sections_that_exist() {
    let bare = NetworkInfo {
        id: None,
        name: None,
        created: None,
        scope: None,
        driver: None,
        enable_ipv6: None,
        internal: None,
        attachable: None,
        ingress: None,
        ipam: None,
        containers: None,
        options: None,
        labels: None,
    };
    assert_eq!(
        list_networks(&Ok(vec![bare])),
        "Id: N/A\nName: N/A\nCreated: N/A\nScope: N/A\nDriver: N/A\nEnable IPv6: false\nInternal: false\nAttachable: false\nIngress: false\n\n\n"
    );
    let full = NetworkInfo {
        id: some("n1"),
        name: some("bridge"),
        created: some("2024-05-01T10:00:00Z"),
        scope: some("local"),
        driver: some("bridge"),
        enable_ipv6: Some(true),
        internal: Some(false),
        attachable: Some(true),
        ingress: None,
        ipam: Some(Ipam {
            driver: some("default"),
            config: Some(vec![
                IpamConfig { subnet: some("172.17.0.0/16"), gateway: some("172.17.0.1") },
                IpamConfig { subnet: None, gateway: None },
            ]),
        }),
        containers: Some(vec![NetworkMember {
            id: text("c1"),
            name: some("web"),
            ipv4_address: some("172.17.0.2/16"),
            ipv6_address: None,
        }]),
        options: Some(vec![(text("mtu"), text("1500"))]),
        labels: Some(Vec::new()),
    };
    let expected = "Id: n1\nName: bridge\nCreated: 2024-05-01T10:00:00Z\nScope: local\nDriver: bridge\n\
Enable IPv6: true\nInternal: false\nAttachable: true\nIngress: false\n\
IPAM:\n  Driver: default\n  Configs:\n    Subnet: 172.17.0.0/16\n    Gateway: 172.17.0.1\n    Subnet: N/A\n    Gateway: N/A\n\
Containers:\n  Id: c1\n    Name: web\n    IPv4 Address: 172.17.0.2/16\n    IPv6 Address: N/A\n\
Options:\n  mtu: 1500\n\
Labels:\n\
\n\n";
    assert_eq!(list_networks(&Ok(vec![full])), expected);
    let driver_only = NetworkInfo {
        id: some("n2"),
        name: some("host"),
        created: None,
        scope: None,
        driver: None,
        enable_ipv6: None,
        internal: None,
        attachable: None,
        ingress: Some(true),
        ipam: Some(Ipam { driver: None, config: None }),
        containers: None,
        options: None,
        labels: None,
    };
    assert_eq!(
        list_networks(&Ok(vec![driver_only])),
        "Id: n2\nName: host\nCreated: N/A\nScope: N/A\nDriver: N/A\nEnable IPv6: false\nInternal: false\nAttachable: false\nIngress: true\nIPAM:\n  Driver: N/A\n\n\n"
    );
    assert_eq!(list_networks(&Err(text("denied"))), "Failed with err: denied");
}

#[test]
fn volume_listing_shows_every_section() {
    let bare = VolumeInfo {
        name: text("data"),
        driver: text("local"),
        mountpoint: text("/var/lib/docker/volumes/data/_data"),
        created_at: None,
        status: None,
        labels: Vec::new(),
        options: Vec::new(),
        usage_data: None,
    };
    assert_eq!(
        list_volumes(&Ok(Some(vec![bare]))),
        "Name: data\nDriver: local\nMountpoint: /var/lib/docker/volumes/data/_data\nCreated At: N/A\nStatus:\n  N/A\nLabels:\n  N/A\nOptions:\n  N/A\nUsage Data:\n  N/A\n\n\n"
    );
    let full = VolumeInfo {
        name: text("pg"),
        driver: text("local"),
        mountpoint: text("/mnt/pg"),
        created_at: some("2024-01-02T03:04:05Z"),
        status: Some(vec![(text("hello"), text("{}"))]),
        labels: vec![(text("app"), text("db")), (text("env"), text("prod"))],
        options: vec![(text("type"), text("nfs"))],
        usage_data: Some(VolumeUsage { size: 1024, ref_count: -1 }),
    };
    assert_eq!(
        list_volumes(&Ok(Some(vec![full]))),
        "Name: pg\nDriver: local\nMountpoint: /mnt/pg\nCreated At: 2024-01-02T03:04:05Z\nStatus:\n  hello: {}\nLabels:\n  app: db\n  env: prod\nOptions:\n  type: nfs\nUsage Data:\n  Size: 1024\n  Refs: -1\n\n\n"
    );
    let no_status = VolumeInfo {
        name: text("v"),
        driver: text("d"),
        mountpoint: text("/m"),
        created_at: None,
        status: Some(Vec::new()),
        labels: Vec::new(),
        options: Vec::new(),
        usage_data: None,
    };
    assert_eq!(
        list_volumes(&Ok(Some(vec![no_status]))),
        "Name: v\nDriver: d\nMountpoint: /m\nCreated At: N/A\nStatus:\nLabels:\n  N/A\nOptions:\n  N/A\nUsage Data:\n  N/A\n\n\n"
    );
    assert_eq!(list_volumes(&Err(text("boom"))), "Failed with err: boom");
}

#[test]
fn container_actions_report_success_or_the_fault() {
    assert_eq!(stop_container(&Ok(())), "Stoped successfully");
    assert_eq!(kill_container(&Ok(())), "Killed successfully");
    assert_eq!(restart_container(&Ok(())), "Restarted successfully");
    assert_eq!(rename_container(&Ok(())), "Renamed successfully");
    assert_eq!(container_action_reply(Op::ContainerStart, &Ok(())), "Started successfully");
    assert_eq!(container_action_reply(Op::ContainerPause, &Ok(())), "Paused successfully");
    assert_eq!(container_action_reply(Op::ContainerUnpause, &Ok(())), "Unpaused successfully");
    assert_eq!(container_action_reply(Op::Info, &Ok(())), "");
    assert_eq!(stop_container(&Err(text("No such container: web"))), "Failed with err: No such container: web");
    assert_eq!(kill_container(&Err(text("e"))), "Failed with err: e");
    assert_eq!(restart_container(&Err(text("e"))), "Failed with err: e");
    assert_eq!(rename_container(&Err(text("e"))), "Failed with err: e");
    assert_eq!(container_action_reply(Op::ContainerStart, &Err(text("e"))), "Failed with err: e");
}

#[test]
fn prunes_report_what_was_removed() {
    let report = PruneReport { removed: Some(vec![text("a1"), text("b2")]), space_reclaimed: Some(4096) };
    assert_eq!(
        prune_container(&Ok(report)),
        "Pruned successfully\nRemoved: [\"a1\", \"b2\"]\nFree up space: 4096"
    );
    let nothing = PruneReport { removed: None, space_reclaimed: None };
    assert_eq!(prune_container(&Ok(nothing)), "Pruned successfully\nRemoved: []\nFree up space: 0");
    let volumes = PruneReport { removed: Some(vec![text("data")]), space_reclaimed: Some(1) };
    assert_eq!(prune_volumes(&Ok(volumes)), "Pruned successfully\nRemoved: [\"data\"]\nFree up space: 1");
    assert_eq!(
        prune_images(&Ok((text("[ImageDeleteResponseItem { untagged: None, deleted: Some(\"sha256:1\") }]"), Some(77)))),
        "Pruned successfully\nRemoved: [ImageDeleteResponseItem { untagged: None, deleted: Some(\"sha256:1\") }]\nFree up space: 77"
    );
    assert_eq!(prune_images(&Ok((text("[]"), None))), "Pruned successfully\nRemoved: []\nFree up space: 0");
    assert_eq!(
        prune_networks(&Ok(Some(vec![text("old_net")]))),
        "Pruned successfully\nRemoved: [\"old_net\"]"
    );
    assert_eq!(prune_networks(&Ok(None)), "Pruned successfully\nRemoved: []");
    assert_eq!(prune_container(&Err(text("e"))), "Failed with err: e");
    assert_eq!(prune_volumes(&Err(text("e"))), "Failed with err: e");
    assert_eq!(prune_images(&Err(text("e"))), "Failed with err: e");
    assert_eq!(prune_networks(&Err(text("e"))), "Failed with err: e");
}

#[test]
fn written_lists_are_laid_out_as_given() {
    let summary = ContainerSummary { names: None, state: some("up"), status: None };
    assert_eq!(container_summary_with(&summary, "<names>"), "Names: <names>\nState: up\nStatus: N/A\n");
    let info = VersionInfo {
        os: some("o"),
        kernel_version: some("k"),
        platform_name: some("p"),
        version: some("v"),
        api_version: some("a"),
        arch: some("r"),
    };
    assert_eq!(
        version_summary_with(&info, "<platform>"),
        "OS: o\nKernel: k\nPlatform: <platform>\nVersion: v\nApi: a\nArch: r"
    );
    let image = ImageSummary { id: text("i"), repo_tags: Vec::new(), size: 1, shared_size: 2, containers: 3 };
    assert_eq!(
        image_lines_with(&image, "<tags>"),
        "Id: i\nTags: <tags>\nSize: 1\nShared Size: 2\nConteiners: 3\n\n"
    );
    let attachment = NetworkAttachment {
        network: text("n"),
        network_id: None,
        ip_address: some("1.2.3.4"),
        ip_prefix_len: Some(i64::MIN),
        gateway: None,
        dns_names: None,
        links: None,
    };
    assert_eq!(
        attachment_lines_with(&attachment, "<dns>", "<links>"),
        "  Network: n (N/A)\n  IP: 1.2.3.4 (-9223372036854775808)\n  Gateway: N/A\n  DNS: <dns>\n  Links: <links>\n"
    );
    let details = ContainerDetails {
        id: None,
        names: None,
        image: None,
        ports: None,
        labels: None,
        networks: None,
        mounts: None,
    };
    assert_eq!(
        container_details_with(&details, "<names>"),
        "Id: N/A\nNames: <names>\nImage: N/A\nPorts:\n  N/A\nLabels:\n  N/A\nNetworks:\n  N/A\nMounts:\n  N/A\n\n\n"
    );
    assert_eq!(prune_reply("<removed>", Some(-5)), "Pruned successfully\nRemoved: <removed>\nFree up space: -5");
    assert_eq!(prune_reply("", None), "Pruned successfully\nRemoved: \nFree up space: 0");
    assert_eq!(network_prune_reply("<removed>"), "Pruned successfully\nRemoved: <removed>");
}

#[test]
fn a_fault_of_the_engine_is_the_reply() {
    assert_eq!(get_containers_info(&Err(text("timeout"))), "Failed with err: timeout");
    assert_eq!(
        get_container_details(&Err(text("No such container"))),
        "Failed with err: No such container"
    );
    assert_eq!(get_docker_info(&Err(text(""))), "Failed with err: ");
}

#[test]
fn a_container_without_names_or_state_is_listed() {
    let bare = ContainerSummary { names: None, state: None, status: None };
    assert_eq!(get_containers_info(&Ok(vec![bare])), "Names: []\nState: N/A\nStatus: N/A\n");
}
