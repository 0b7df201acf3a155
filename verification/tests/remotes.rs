use herdr_fleet::api::remotes::{
    handle_remote_list, handle_remote_reset, plan_remote_reload, refuse_remote_reset, Reload,
    RemoteConnectionStateInfo, RemoteInfo, RemoteTargetParams,
};
use herdr_fleet::fleet::config::{validate_entries, RemoteEntry};
use herdr_fleet::json::{encode_json, Json};

fn wire(v: &Json) -> String {
    String::from_utf8(encode_json(v)).expect("utf-8")
}

fn entry(name: &str) -> RemoteEntry {
    RemoteEntry {
        name: name.to_owned(),
        target: Some("u@h".to_owned()),
        session: "default".to_owned(),
        enabled: true,
        hue: None,
    }
}

fn target(name: &str) -> RemoteTargetParams {
    RemoteTargetParams { name: name.to_owned() }
}

#[test]
fn resets_are_refused_before_they_are_tried() {
    assert_eq!(
        wire(&refuse_remote_reset("r", &target("local"), true).expect("refused")),
        r#"{"error":{"code":"invalid_remote","message":"the local runtime has no connection to reset"},"id":"r"}"#
    );
    assert_eq!(
        wire(&refuse_remote_reset("r", &target("gpu"), false).expect("refused")),
        r#"{"error":{"code":"fleet_not_running","message":"no fleet connection manager is running in this process"},"id":"r"}"#
    );
    assert!(refuse_remote_reset("r", &target("gpu"), true).is_none());
}

#[test]
fn resets_answer_whether_the_remote_was_found() {
    assert_eq!(
        wire(&handle_remote_reset("r", &target("gpu"), Some(true))),
        r#"{"id":"r","result":{"type":"ok"}}"#
    );
    assert_eq!(
        wire(&handle_remote_reset("r", &target("gpu"), Some(false))),
        r#"{"error":{"code":"remote_not_found","message":"no enabled remote named 'gpu'"},"id":"r"}"#
    );
    assert!(wire(&handle_remote_reset("r", &target("gpu"), None)).contains("fleet_not_running"));
    assert!(wire(&handle_remote_reset("r", &target("local"), Some(true))).contains("invalid_remote"));
}

#[test]
fn lists_leave_out_what_is_not_known() {
    let info = RemoteInfo {
        index: 1,
        name: "gpu".to_owned(),
        target: Some("u@gpu".to_owned()),
        session: None,
        enabled: true,
        state: RemoteConnectionStateInfo::Offline,
        attempt: Some(3),
        retry_in_ms: Some(1500),
        last_error: Some("refused".to_owned()),
    };
    assert_eq!(
        wire(&handle_remote_list("l", &vec![info])),
        r#"{"id":"l","result":{"remotes":[{"attempt":3,"enabled":true,"index":1,"last_error":"refused","name":"gpu","retry_in_ms":1500,"state":"offline","target":"u@gpu"}],"type":"remote_list"}}"#
    );
}

#[test]
fn every_state_has_its_name() {
    let names: Vec<&str> = [
        RemoteConnectionStateInfo::Local,
        RemoteConnectionStateInfo::Connecting,
        RemoteConnectionStateInfo::Connected,
        RemoteConnectionStateInfo::Offline,
        RemoteConnectionStateInfo::Disabled,
        RemoteConnectionStateInfo::Stopped,
        RemoteConnectionStateInfo::Incompatible,
        RemoteConnectionStateInfo::Unknown,
    ]
    .iter()
    .map(|s| s.as_str())
    .collect();
    assert_eq!(
        names,
        vec![
            "local",
            "connecting",
            "connected",
            "offline",
            "disabled",
            "stopped",
            "incompatible",
            "unknown"
        ]
    );
}

#[test]
fn reloads_refuse_what_does_not_load_or_validate() {
    match plan_remote_reload("r", &Err("bad toml".to_owned())) {
        Reload::Refuse(j) => assert_eq!(
            wire(&j),
            r#"{"error":{"code":"remote_config_invalid","message":"failed to load remotes.toml: bad toml"},"id":"r"}"#
        ),
        other => panic!("expected a refusal, got {other:?}"),
    }
    match plan_remote_reload("r", &Ok(vec![entry("a"), entry("b"), entry("a")])) {
        Reload::Refuse(j) => assert!(wire(&j).contains("invalid remotes.toml: duplicate remote name 'a'")),
        other => panic!("expected a refusal, got {other:?}"),
    }
    match plan_remote_reload("r", &Ok(vec![entry("a"), entry("b")])) {
        Reload::Apply => {}
        other => panic!("expected the config to apply, got {other:?}"),
    }
    assert!(validate_entries(&[entry("a b")])
        .unwrap_err()
        .contains("may only contain"));
    assert_eq!(validate_entries(&[]), Ok(()));
}
