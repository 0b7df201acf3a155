use herdr_fleet::api::remotes::{
    handle_remote_list, remote_infos_from_entries, RemoteConnectionStateInfo, RemoteInfo,
};
use herdr_fleet::cli::remote::{
    help_exit_code, parse_json_only, parse_name_and_json, parse_remote_upgrade_args, remote_table,
    remote_table_heading, remote_table_row, resolve_remote_command, upgrade_exit_code, upgrade_is_confirmed,
    upgrade_report, upgrade_row, upgrade_targets, RemoteCommand, RemoteUpgradeArgs,
    UpgradeOutcome, UPGRADE_USAGE,
};
use herdr_fleet::fleet::config::RemoteEntry;
use herdr_fleet::json::{decode_json, encode_json};

fn args(values: &[&str]) -> Vec<String> {
    values.iter().map(|value| value.to_string()).collect()
}

fn text(bytes: Vec<u8>) -> String {
    String::from_utf8(bytes).expect("utf-8")
}

#[test]
fn upgrade_args_take_a_name_or_all_but_never_both() {
    assert_eq!(
        parse_remote_upgrade_args(&args(&["gpu-1"])),
        Ok(RemoteUpgradeArgs {
            all: false,
            target: Some("gpu-1".into()),
            yes: false,
            json: false,
        })
    );
    assert_eq!(
        parse_remote_upgrade_args(&args(&["--all", "--yes", "--json"])),
        Ok(RemoteUpgradeArgs {
            all: true,
            target: None,
            yes: true,
            json: true,
        })
    );
    // A bare target is legal: upgrading precedes saving the remote.
    assert_eq!(
        parse_remote_upgrade_args(&args(&["can@buildbox.example", "-y"]))
            .map(|parsed| parsed.target),
        Ok(Some("can@buildbox.example".to_string()))
    );

    for bad in [
        vec!["--all", "gpu-1"],
        vec![],
        vec!["gpu-1", "gpu-2"],
        vec!["--nope"],
    ] {
        assert!(
            parse_remote_upgrade_args(&args(&bad)).is_err(),
            "expected {bad:?} to be rejected"
        );
    }
}

#[test]
fn upgrade_targets_resolve_names_from_the_fleet_config() {
    let entries = vec![
        RemoteEntry {
            name: "gpu-1".into(),
            target: Some("can@gpu-1.example".into()),
            session: "default".into(),
            enabled: true,
            hue: None,
        },
        RemoteEntry {
            name: "buildbox".into(),
            target: Some("can@buildbox.example".into()),
            session: "default".into(),
            enabled: false,
            hue: None,
        },
    ];

    let named = parse_remote_upgrade_args(&args(&["gpu-1"])).expect("parsed");
    assert_eq!(
        upgrade_targets(&named, &entries),
        vec![("gpu-1".to_string(), "can@gpu-1.example".to_string())]
    );

    // Unknown names are ssh targets, not errors.
    let bare = parse_remote_upgrade_args(&args(&["root@fresh.example"])).expect("parsed");
    assert_eq!(
        upgrade_targets(&bare, &entries),
        vec![(
            "root@fresh.example".to_string(),
            "root@fresh.example".to_string()
        )]
    );

    // --all rolls the whole config, disabled remotes included: a disabled
    // remote still needs a current binary when it comes back.
    let all = parse_remote_upgrade_args(&args(&["--all"])).expect("parsed");
    assert_eq!(upgrade_targets(&all, &entries).len(), 2);
}

#[test]
fn refused_upgrade_arguments_say_why() {
    let refusal = |values: &[&str]| parse_remote_upgrade_args(&args(values)).unwrap_err();
    assert_eq!(refusal(&["--help"]), UPGRADE_USAGE);
    assert_eq!(refusal(&["-h"]), UPGRADE_USAGE);
    assert_eq!(refusal(&[]), UPGRADE_USAGE);
    assert_eq!(
        refusal(&["--nope", "--all"]),
        format!("unknown option: --nope\n{UPGRADE_USAGE}")
    );
    assert_eq!(
        refusal(&["a", "b", "--nope"]),
        format!("unexpected argument: b\n{UPGRADE_USAGE}")
    );
    assert_eq!(
        refusal(&["a", "--all"]),
        format!("--all takes no remote name\n{UPGRADE_USAGE}")
    );
}

#[test]
fn commands_resolve_by_their_first_word() {
    for (word, command) in [
        ("list", RemoteCommand::List),
        ("reset", RemoteCommand::Reset),
        ("reload", RemoteCommand::Reload),
        ("upgrade", RemoteCommand::Upgrade),
        ("help", RemoteCommand::Help),
        ("--help", RemoteCommand::Help),
        ("-h", RemoteCommand::Help),
        ("frobnicate", RemoteCommand::Usage),
    ] {
        assert_eq!(resolve_remote_command(&args(&[word])), command);
    }
    assert_eq!(resolve_remote_command(&[]), RemoteCommand::Usage);
    assert_eq!(help_exit_code(RemoteCommand::Help), 0);
    assert_eq!(help_exit_code(RemoteCommand::Usage), 2);
}

#[test]
fn a_local_runtime_has_nothing_to_upgrade() {
    let entries = vec![RemoteEntry {
        name: "me".into(),
        target: None,
        session: "default".into(),
        enabled: true,
        hue: None,
    }];
    let all = parse_remote_upgrade_args(&args(&["--all"])).expect("parsed");
    assert!(upgrade_targets(&all, &entries).is_empty());
    let named = parse_remote_upgrade_args(&args(&["me"])).expect("parsed");
    assert!(upgrade_targets(&named, &entries).is_empty());
}

#[test]
fn unattended_upgrades_have_to_say_so() {
    let bare = parse_remote_upgrade_args(&args(&["a"])).expect("parsed");
    assert!(upgrade_is_confirmed(&bare, true));
    assert!(!upgrade_is_confirmed(&bare, false));
    let sure = parse_remote_upgrade_args(&args(&["a", "-y"])).expect("parsed");
    assert!(upgrade_is_confirmed(&sure, false));
}

#[test]
fn upgrade_reports_name_every_outcome() {
    let rows = vec![
        upgrade_row(
            "a",
            "u@a",
            &UpgradeOutcome::Upgraded {
                action: "upgraded".into(),
                from: "1.0".into(),
                to: "1.1".into(),
            },
        ),
        upgrade_row("b", "u@b", &UpgradeOutcome::Kept { action: "current".into() }),
        upgrade_row("c", "u@c", &UpgradeOutcome::Failed { error: "no \"route\"".into() }),
    ];
    let report = upgrade_report("1.1", rows);
    assert_eq!(
        text(encode_json(&report)),
        concat_lines(&[
            r#"{"id":"cli:remote:upgrade","result":{"remotes":["#,
            r#"{"action":"upgraded","from":"1.0","name":"a","target":"u@a","to":"1.1"},"#,
            r#"{"action":"current","name":"b","target":"u@b"},"#,
            r#"{"action":"failed","error":"no \"route\"","name":"c","target":"u@c"}],"#,
            r#""target_version":"1.1","type":"remote_upgrade"}}"#,
        ])
    );
    assert_eq!(upgrade_exit_code(0), 0);
    assert_eq!(upgrade_exit_code(1), 1);
}

fn concat_lines(parts: &[&str]) -> String {
    parts.concat()
}

#[test]
fn table_rows_are_padded_and_filled_in() {
    assert_eq!(
        remote_table_heading(),
        format!(
            "{:<4} {:<20} {:<12} {:<28} {:<16} {:<8} detail",
            "#", "name", "state", "target", "session", "enabled"
        )
    );
    let full = decode_json(
        br#"{"index":2,"name":"gpu-1","state":"offline","target":"u@gpu","session":"work","enabled":true,"retry_in_ms":1001,"last_error":"refused"}"#,
    )
    .expect("json");
    assert_eq!(
        remote_table_row(&full),
        format!(
            "{:<4} {:<20} {:<12} {:<28} {:<16} {:<8} {}",
            2, "gpu-1", "offline", "u@gpu", "work", "yes", "retry in 2s: refused"
        )
    );
    let bare = decode_json(b"{}").expect("json");
    assert_eq!(
        remote_table_row(&bare),
        format!(
            "{:<4} {:<20} {:<12} {:<28} {:<16} {:<8} {}",
            0, "?", "?", "-", "-", "no", ""
        )
    );
    let retry = decode_json(br#"{"retry_in_ms":1000}"#).expect("json");
    assert!(remote_table_row(&retry).ends_with("retry in 1s"));
    let error = decode_json(br#"{"last_error":"gone"}"#).expect("json");
    assert!(remote_table_row(&error).ends_with(" gone"));
}

#[test]
fn listed_remotes_make_a_table() {
    let infos = remote_infos_from_entries(&[
        RemoteEntry {
            name: "me".into(),
            target: None,
            session: "default".into(),
            enabled: true,
            hue: None,
        },
        RemoteEntry {
            name: "gpu".into(),
            target: Some("u@gpu".into()),
            session: "work".into(),
            enabled: false,
            hue: None,
        },
        RemoteEntry {
            name: "box".into(),
            target: Some("u@box".into()),
            session: "work".into(),
            enabled: true,
            hue: None,
        },
    ]);
    assert_eq!(infos[0].state, RemoteConnectionStateInfo::Local);
    assert_eq!(infos[1].state, RemoteConnectionStateInfo::Disabled);
    assert_eq!(
        infos[2],
        RemoteInfo {
            index: 2,
            name: "box".into(),
            target: Some("u@box".into()),
            session: Some("work".into()),
            enabled: true,
            state: RemoteConnectionStateInfo::Unknown,
            attempt: None,
            retry_in_ms: None,
            last_error: None,
        }
    );
    let lines = remote_table(&handle_remote_list("l", &infos)).expect("a list");
    assert_eq!(lines.len(), 3);
    assert!(lines[1].contains("disabled"));
    assert_eq!(remote_table(&decode_json(b"{}").expect("json")), Some(Vec::new()));
    let error = decode_json(br#"{"error":{"code":"x"}}"#).expect("json");
    assert_eq!(remote_table(&error), None);
}

#[test]
fn flags_after_a_command_are_json_or_nothing() {
    assert_eq!(parse_json_only(&args(&[])), Some(false));
    assert_eq!(parse_json_only(&args(&["--json"])), Some(true));
    assert_eq!(parse_json_only(&args(&["--yaml"])), None);
    assert_eq!(parse_json_only(&args(&["--json", "--json"])), None);
    assert_eq!(parse_name_and_json(&args(&[])), None);
    assert_eq!(parse_name_and_json(&args(&["a"])), Some(("a".to_owned(), false)));
    assert_eq!(parse_name_and_json(&args(&["a", "--json"])), Some(("a".to_owned(), true)));
    assert_eq!(parse_name_and_json(&args(&["a", "b"])), None);
}
