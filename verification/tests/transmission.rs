use tg_captain::tokenizer::tokenize as split_tokens;
use tg_captain::transmission::{
    add_file, call_reply, command_handler as torrent_command_handler, file_filter,
    get_command_handler_help_text, get_download_link, get_short_help as torrent_short_help,
    hint_of as torrent_hint, min_args as torrent_min_args, pick, TorrentChoice, TorrentOp,
    get_update_handler as torrent_handler, is_match, list_torrent, pause_torrent, remove_torrent,
    shorten_name, start_torrent, torrent_line_with, TorrentCall, TorrentReply, TorrentRow,
    TorrentStatus, TorrentStep,
};

fn torrent_step(text: &str) -> TorrentStep {
    torrent_command_handler(&split_tokens(text))
}

#[test]
fn torrent_short_help_is_the_summary_line() {
    assert_eq!(
        torrent_short_help(),
        "Transsmision plugin. Usage /transmission [mode]. For detail help /transmission help"
    );
}

#[test]
fn torrent_help_text_is_the_usage_text() {
    let help = get_command_handler_help_text();
    assert!(help.starts_with("\nTransmission Command Usage:\n\n/transmission [subcommand] [arguments]\n"));
    assert!(help.contains("  Example: /transmission remove 9012 no\n"));
    assert!(help.ends_with("with the actual ID of the torrent you want to operate on.\n"));
    assert_eq!(TorrentReply::Help.text(), help);
}

#[test]
fn empty_and_list_select_the_listing() {
    assert_eq!(torrent_step(""), TorrentStep::Call(TorrentCall::List));
    assert_eq!(torrent_step("   "), TorrentStep::Call(TorrentCall::List));
    assert_eq!(torrent_step("list"), TorrentStep::Call(TorrentCall::List));
    assert_eq!(torrent_step("list extra"), TorrentStep::Call(TorrentCall::List));
    assert_eq!(torrent_command_handler(&Vec::new()), TorrentStep::Call(TorrentCall::List));
}

#[test]
fn stop_without_id_gets_the_fixed_prompt() {
    let step = torrent_step("stop");
    assert_eq!(step, TorrentStep::Reply(TorrentReply::NeedTorrentId));
    assert_eq!(TorrentReply::NeedTorrentId.text(), "Please provide torrent id");
}

#[test]
fn stop_and_start_take_one_numeric_id() {
    assert_eq!(torrent_step("stop 1234"), TorrentStep::Call(TorrentCall::Stop { id: 1234 }));
    assert_eq!(torrent_step("stop 1234 more"), TorrentStep::Call(TorrentCall::Stop { id: 1234 }));
    assert_eq!(torrent_step("start 5678"), TorrentStep::Call(TorrentCall::Start { id: 5678 }));
    assert_eq!(torrent_step("start -3"), TorrentStep::Call(TorrentCall::Start { id: -3 }));
    assert_eq!(torrent_step("start"), TorrentStep::Reply(TorrentReply::NeedTorrentId));
}

#[test]
fn an_id_that_is_no_number_gets_the_usage_hint() {
    assert_eq!(torrent_step("stop abc"), TorrentStep::Reply(TorrentReply::NeedTorrentId));
    assert_eq!(torrent_step("start 1.5"), TorrentStep::Reply(TorrentReply::NeedTorrentId));
    assert_eq!(
        torrent_step("remove x yes"),
        TorrentStep::Reply(TorrentReply::NeedRemoveArguments)
    );
    assert_eq!(
        torrent_step("stop 99999999999999999999"),
        TorrentStep::Reply(TorrentReply::NeedTorrentId)
    );
}

#[test]
fn remove_takes_an_id_and_a_flag() {
    assert_eq!(torrent_step("remove"), TorrentStep::Reply(TorrentReply::NeedRemoveArguments));
    assert_eq!(torrent_step("remove 9"), TorrentStep::Reply(TorrentReply::NeedRemoveArguments));
    assert_eq!(
        TorrentReply::NeedRemoveArguments.text(),
        "Please provide 2 parameters (torrent id, with_data (yes,no) )"
    );
    for (flag, with_data) in [("yes", true), ("y", true), ("YES", true), ("Y", true),
        ("Yes", true), ("no", false), ("n", false), ("maybe", false), ("yess", false),
        ("1", false)]
    {
        assert_eq!(
            torrent_step(&format!("remove 9012 {}", flag)),
            TorrentStep::Call(TorrentCall::Remove { id: 9012, with_data })
        );
    }
}

#[test]
fn torrent_help_and_unknown_subcommands() {
    assert_eq!(torrent_step("help"), TorrentStep::Reply(TorrentReply::Help));
    assert_eq!(torrent_step("pause 1"), TorrentStep::Reply(TorrentReply::Help));
    assert_eq!(torrent_step("LIST"), TorrentStep::Reply(TorrentReply::Help));
}

#[test]
fn torrent_handler_keeps_its_endpoint_and_routes() {
    let handler = torrent_handler(&"http://localhost:9091/transmission/rpc".to_string());
    assert_eq!(handler.url, "http://localhost:9091/transmission/rpc");
    assert_eq!(handler.handle("  stop   7 "), TorrentStep::Call(TorrentCall::Stop { id: 7 }));
    assert_eq!(handler.handle(""), TorrentStep::Call(TorrentCall::List));
}

#[test]
fn only_torrent_attachments_pass_the_filter() {
    assert!(file_filter(&Some("application/x-bittorrent".to_string())));
    assert!(file_filter(&Some("APPLICATION/X-BitTorrent".to_string())));
    assert!(!file_filter(&Some("application/pdf".to_string())));
    assert!(!file_filter(&Some("application/x-bittorrent; charset=utf-8".to_string())));
    assert!(!file_filter(&Some("not a media type".to_string())));
    assert!(!file_filter(&Some(String::new())));
    assert!(!file_filter(&None));
}

#[test]
fn a_comparison_matches_only_when_it_says_equal() {
    assert!(is_match(Some(true)));
    assert!(!is_match(Some(false)));
    assert!(!is_match(None));
}

#[test]
fn download_link_is_built_from_credential_and_path() {
    assert_eq!(
        get_download_link("123:ABC", "documents/file_7.torrent"),
        "https://api.telegram.org/file/bot123:ABC/documents/file_7.torrent"
    );
    assert_eq!(get_download_link("", ""), "https://api.telegram.org/file/bot/");
}

#[test]
fn torrent_list_shows_ten_characters_of_each_name() {
    let rows = vec![
        TorrentRow {
            id: Some(1),
            name: Some("ubuntu-24.04-desktop-amd64.iso".to_string()),
            status: Some(TorrentStatus::Downloading),
            percent_done: Some("42".to_string()),
        },
        TorrentRow {
            id: Some(27),
            name: Some("iso".to_string()),
            status: Some(TorrentStatus::Seeding),
            percent_done: Some("100".to_string()),
        },
        TorrentRow {
            id: Some(3),
            name: Some("a \"q\" éé€€ünïcødé tail".to_string()),
            status: Some(TorrentStatus::QueuedToVerify),
            percent_done: Some("0".to_string()),
        },
    ];
    assert_eq!(
        list_torrent(&Ok(rows)),
        "1: \"ubuntu-24....\" Downloading 42%\n27: \"iso...\" Seeding 100%\n3: \"a \\\"q\\\" éé€€...\" QueuedToVerify 0%\n"
    );
    assert_eq!(list_torrent(&Ok(Vec::new())), "");
    assert_eq!(list_torrent(&Err("timeout".to_string())), "Failed with err: timeout");
}

#[test]
fn every_torrent_state_is_reported_by_its_name() {
    let states = [
        (TorrentStatus::Stopped, "Stopped"),
        (TorrentStatus::QueuedToVerify, "QueuedToVerify"),
        (TorrentStatus::Verifying, "Verifying"),
        (TorrentStatus::QueuedToDownload, "QueuedToDownload"),
        (TorrentStatus::Downloading, "Downloading"),
        (TorrentStatus::QueuedToSeed, "QueuedToSeed"),
        (TorrentStatus::Seeding, "Seeding"),
    ];
    for (status, name) in states {
        let row = TorrentRow {
            id: Some(5),
            name: Some(String::new()),
            status: Some(status),
            percent_done: Some("9".to_string()),
        };
        assert_eq!(list_torrent(&Ok(vec![row])), format!("5: \"...\" {} 9%\n", name));
        assert_eq!(format!("{:?}", status), name);
    }
}

#[test]
fn torrent_calls_are_answered_by_what_the_daemon_said() {
    assert_eq!(pause_torrent(1, &Ok(true)), "Paused successfully");
    assert_eq!(pause_torrent(1, &Ok(false)), "Pause failed");
    assert_eq!(pause_torrent(1, &Err("boom".to_string())), "Failed with err: boom");
    assert_eq!(start_torrent(1, &Ok(true)), "Started successfully");
    assert_eq!(start_torrent(1, &Ok(false)), "Start failed");
    assert_eq!(start_torrent(1, &Err("boom".to_string())), "Failed with err: boom");
    assert_eq!(remove_torrent(1, true, &Ok(true)), "Removed with data successfully");
    assert_eq!(remove_torrent(1, false, &Ok(true)), "Removed without data successfully");
    assert_eq!(remove_torrent(1, true, &Ok(false)), "Removed failed");
    assert_eq!(remove_torrent(1, false, &Err("gone".to_string())), "Failed with err: gone");
    assert_eq!(add_file(&Ok(true)), "Added sucessfully");
    assert_eq!(add_file(&Ok(false)), "Failed");
    assert_eq!(add_file(&Err("no route".to_string())), "Failed with err: no route");
    assert_eq!(call_reply(TorrentCall::List, &Ok(true)), "");
}

#[test]
fn names_are_cut_after_ten_characters() {
    assert_eq!(shorten_name(""), "...");
    assert_eq!(shorten_name("short"), "short...");
    assert_eq!(shorten_name("exactly10!"), "exactly10!...");
    assert_eq!(shorten_name("exactly10!+"), "exactly10!...");
    assert_eq!(shorten_name("ééééé€€€€€ñ"), "ééééé€€€€€...");
}

#[test]
fn a_torrent_line_is_laid_out_around_the_shown_name() {
    let row = TorrentRow {
        id: Some(-4),
        name: Some("ignored here".to_string()),
        status: Some(TorrentStatus::Verifying),
        percent_done: Some("13".to_string()),
    };
    assert_eq!(torrent_line_with(&row, "<name>"), "-4: <name> Verifying 13%\n");
}

#[test]
fn the_torrent_action_table_gives_arity_and_hint() {
    assert_eq!(pick(""), TorrentChoice::Op(TorrentOp::List));
    assert_eq!(pick("list"), TorrentChoice::Op(TorrentOp::List));
    assert_eq!(pick("stop"), TorrentChoice::Op(TorrentOp::Stop));
    assert_eq!(pick("start"), TorrentChoice::Op(TorrentOp::Start));
    assert_eq!(pick("remove"), TorrentChoice::Op(TorrentOp::Remove));
    assert_eq!(pick("help"), TorrentChoice::Help);
    assert_eq!(pick("delete"), TorrentChoice::Help);
    assert_eq!(torrent_min_args(TorrentOp::List), 0);
    assert_eq!(torrent_min_args(TorrentOp::Stop), 1);
    assert_eq!(torrent_min_args(TorrentOp::Start), 1);
    assert_eq!(torrent_min_args(TorrentOp::Remove), 2);
    assert_eq!(torrent_hint(TorrentOp::Stop), TorrentReply::NeedTorrentId);
    assert_eq!(torrent_hint(TorrentOp::Start), TorrentReply::NeedTorrentId);
    assert_eq!(torrent_hint(TorrentOp::Remove), TorrentReply::NeedRemoveArguments);
}

#[test]
fn what_the_daemon_left_out_is_shown_as_not_available() {
    let bare = TorrentRow { id: None, name: None, status: None, percent_done: None };
    assert_eq!(list_torrent(&Ok(vec![bare])), "N/A: N/A N/A N/A\n");
    let partial = TorrentRow {
        id: Some(8),
        name: Some("debian".to_string()),
        status: None,
        percent_done: None,
    };
    assert_eq!(list_torrent(&Ok(vec![partial])), "8: \"debian...\" N/A N/A\n");
}
