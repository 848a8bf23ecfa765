use tg_captain::auth::Gate as Guard;
use tg_captain::config::{
    Config as Settings, DockerConfig as DockerBlock, PluginKind as Kind, StartupFault as Fault,
    SysConfig as SysBlock, TransmissionConfig as TransmissionBlock,
};
use tg_captain::dispatch::{start, try_branch, Action, Inbound, Outcome, Payload};
use tg_captain::docker::{DockerOp, DockerReply, DockerStep};
use tg_captain::registry::Notice as Note;
use tg_captain::system::{SysOp, SysStep};
use tg_captain::transmission::{TorrentCall, TorrentReply, TorrentStep};

fn settings(plugins: &[&str], security: bool, admins: Option<Vec<u64>>) -> Settings {
    Settings {
        token: "123:ABC".to_string(),
        security,
        admins,
        plugins: plugins.iter().map(|s| s.to_string()).collect(),
        sys: Some(SysBlock { ping: Vec::new() }),
        docker: Some(DockerBlock { mode: "default".to_string(), path: None }),
        transmission: Some(TransmissionBlock { rpc: "http://localhost:9091/rpc".to_string() }),
    }
}

fn command(sender: Option<u64>, name: &str, args: &str) -> Inbound {
    Inbound { sender, payload: Payload::Command { name: name.to_string(), args: args.to_string() } }
}

fn document(sender: Option<u64>, media_type: Option<&str>) -> Inbound {
    Inbound { sender, payload: Payload::Document { media_type: media_type.map(|s| s.to_string()) } }
}

#[test]
fn a_valid_configuration_starts() {
    let dispatcher = start(&settings(&["sys", "docker"], false, None)).unwrap();
    assert_eq!(dispatcher.gate, Guard::Disabled);
    assert_eq!(dispatcher.registry.branches.len(), 2);
    let dispatcher = start(&settings(&["sys", "sys"], true, Some(vec![42]))).unwrap();
    assert!(matches!(dispatcher.gate, Guard::Enabled(_)));
    assert_eq!(dispatcher.registry.notices, vec![Note::AlreadyEnabled { position: 1 }]);
}

#[test]
fn faults_end_the_start() {
    let mut config = settings(&["docker"], false, None);
    config.docker = None;
    assert_eq!(start(&config), Err(Fault::MissingConfig(Kind::Docker)));
    assert_eq!(start(&settings(&["sys"], true, None)), Err(Fault::NoAdmins));
    assert_eq!(start(&settings(&["sys"], true, Some(Vec::new()))), Err(Fault::NoAdmins));
    let mut config = settings(&["transmission"], true, None);
    config.transmission = None;
    assert_eq!(start(&config), Err(Fault::MissingConfig(Kind::Transmission)));
}

#[test]
fn container_list_reaches_the_engine_plugin() {
    let dispatcher = start(&settings(&["sys", "docker"], false, None)).unwrap();
    assert_eq!(
        dispatcher.dispatch(&command(Some(1), "docker", "container list")),
        Outcome::Plugin {
            index: 1,
            action: Action::Docker(DockerStep::Call { op: DockerOp::ContainerList, args: Vec::new() }),
        }
    );
}

#[test]
fn transmission_stop_without_id_is_answered_with_the_prompt() {
    let dispatcher = start(&settings(&["transmission"], false, None)).unwrap();
    let outcome = dispatcher.dispatch(&command(Some(1), "transmission", "stop"));
    assert_eq!(
        outcome,
        Outcome::Plugin {
            index: 0,
            action: Action::Transmission(TorrentStep::Reply(TorrentReply::NeedTorrentId)),
        }
    );
    match outcome {
        Outcome::Plugin { action: Action::Transmission(TorrentStep::Reply(reply)), .. } => {
            assert_eq!(reply.text(), "Please provide torrent id")
        },
        _ => panic!("the download queue answers with a fixed reply"),
    }
}

#[test]
fn a_stranger_gets_no_reply_whatever_the_command() {
    let dispatcher =
        start(&settings(&["sys", "docker", "transmission"], true, Some(vec![42]))).unwrap();
    for (name, args) in [("sys", ""), ("docker", "container list"), ("transmission", "stop 1"),
        ("help", ""), ("unknown", "x")]
    {
        assert_eq!(dispatcher.dispatch(&command(Some(99), name, args)), Outcome::Dropped);
        assert_eq!(dispatcher.dispatch(&command(None, name, args)), Outcome::Dropped);
    }
    assert_eq!(
        dispatcher.dispatch(&document(Some(99), Some("application/x-bittorrent"))),
        Outcome::Dropped
    );
    assert_eq!(
        dispatcher.dispatch(&Inbound { sender: Some(99), payload: Payload::Other }),
        Outcome::Dropped
    );
}

#[test]
fn an_allow_listed_sender_reaches_the_chain() {
    let dispatcher = start(&settings(&["sys"], true, Some(vec![7, 42]))).unwrap();
    assert_eq!(
        dispatcher.dispatch(&command(Some(42), "sys", "temp")),
        Outcome::Plugin { index: 0, action: Action::Sys(SysStep::Call(SysOp::Temp)) }
    );
    assert_eq!(
        dispatcher.dispatch(&command(Some(7), "sys", "")),
        Outcome::Plugin { index: 0, action: Action::Sys(SysStep::Call(SysOp::System)) }
    );
}

#[test]
fn without_security_every_sender_reaches_the_chain() {
    let dispatcher = start(&settings(&["sys"], false, Some(vec![42]))).unwrap();
    for sender in [Some(42), Some(99), Some(0), Some(u64::MAX), None] {
        assert_eq!(
            dispatcher.dispatch(&command(sender, "sys", "disk")),
            Outcome::Plugin { index: 0, action: Action::Sys(SysStep::Call(SysOp::Disk)) }
        );
    }
}

#[test]
fn empty_docker_body_is_dispatched_as_info() {
    let dispatcher = start(&settings(&["docker"], false, None)).unwrap();
    let empty = dispatcher.dispatch(&command(None, "docker", ""));
    let info = dispatcher.dispatch(&command(None, "docker", "info"));
    assert_eq!(empty, info);
    assert_eq!(
        empty,
        Outcome::Plugin {
            index: 0,
            action: Action::Docker(DockerStep::Call { op: DockerOp::Info, args: Vec::new() }),
        }
    );
}

#[test]
fn help_comes_after_the_plugins() {
    let dispatcher = start(&settings(&["sys", "docker"], false, None)).unwrap();
    assert_eq!(
        dispatcher.dispatch(&command(None, "help", "")),
        Outcome::Help(
            "TG-CAPTAIN help\n\nSys plugin. Usage /sys [mode]. For detail help /sys help\nDocker plugin. Usage /docekr [mode]. For detail help /docker help\n"
                .to_string()
        )
    );
    assert_eq!(
        dispatcher.dispatch(&command(None, "help", "me please")),
        Outcome::Help(dispatcher.registry.help_text.clone())
    );
    assert_eq!(
        dispatcher.dispatch(&command(None, "docker", "help")),
        Outcome::Plugin { index: 1, action: Action::Docker(DockerStep::Reply(DockerReply::Help)) }
    );
}

#[test]
fn what_matches_nothing_stays_unhandled() {
    let dispatcher = start(&settings(&["sys"], false, None)).unwrap();
    assert_eq!(dispatcher.dispatch(&command(None, "docker", "info")), Outcome::Unhandled);
    assert_eq!(dispatcher.dispatch(&command(None, "transmission", "")), Outcome::Unhandled);
    assert_eq!(dispatcher.dispatch(&command(None, "Sys", "")), Outcome::Unhandled);
    assert_eq!(dispatcher.dispatch(&command(None, "", "")), Outcome::Unhandled);
    assert_eq!(
        dispatcher.dispatch(&document(None, Some("application/x-bittorrent"))),
        Outcome::Unhandled
    );
    assert_eq!(dispatcher.dispatch(&Inbound { sender: None, payload: Payload::Other }), Outcome::Unhandled);
}

#[test]
fn a_torrent_attachment_is_enqueued() {
    let dispatcher = start(&settings(&["docker", "transmission"], false, None)).unwrap();
    assert_eq!(
        dispatcher.dispatch(&document(Some(3), Some("application/x-bittorrent"))),
        Outcome::Plugin {
            index: 1,
            action: Action::Transmission(TorrentStep::Call(TorrentCall::AddFile)),
        }
    );
    assert_eq!(dispatcher.dispatch(&document(Some(3), Some("image/png"))), Outcome::Unhandled);
    assert_eq!(dispatcher.dispatch(&document(Some(3), None)), Outcome::Unhandled);
}

#[test]
fn a_branch_answers_only_to_its_own_command() {
    let dispatcher = start(&settings(&["sys", "transmission"], false, None)).unwrap();
    let sys = &dispatcher.registry.branches[0];
    let torrents = &dispatcher.registry.branches[1];
    let stop = Payload::Command { name: "transmission".to_string(), args: "stop 4".to_string() };
    assert_eq!(try_branch(sys, &stop), None);
    assert_eq!(
        try_branch(torrents, &stop),
        Some(Action::Transmission(TorrentStep::Call(TorrentCall::Stop { id: 4 })))
    );
    assert_eq!(try_branch(sys, &Payload::Other), None);
    assert_eq!(
        try_branch(sys, &Payload::Document { media_type: Some("application/x-bittorrent".to_string()) }),
        None
    );
}
