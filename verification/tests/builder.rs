use std::path::PathBuf;
use std::time::Duration;

use hidmaestro::builder::{
    bridge_beside, bridge_executable, bridge_in, bridge_next_to, validate_pipe_name, Launch,
};
use hidmaestro::{Error, HidMaestro};

#[test]
fn pipe_name_validation_rejects_paths_and_accepts_safe_names() {
    assert_eq!(
        validate_pipe_name("hidmaestro-mcp_1.2").unwrap(),
        "hidmaestro-mcp_1.2"
    );
    for invalid in [
        "",
        ".hidden",
        r"\\.\pipe\hidmaestro",
        "nested/name",
        "name space",
    ] {
        assert!(
            validate_pipe_name(invalid).is_err(),
            "{invalid:?} should be rejected"
        );
    }
}

#[test]
fn explicit_pipe_name_takes_precedence_over_environment_configuration() {
    let builder = HidMaestro::builder().pipe_name("explicit-pipe");
    assert_eq!(
        builder
            .configured_pipe_name(Some("environment-pipe"))
            .unwrap(),
        Some("explicit-pipe".to_string())
    );
    assert_eq!(
        HidMaestro::builder()
            .configured_pipe_name(Some("environment-pipe"))
            .unwrap(),
        Some("environment-pipe".to_string())
    );
    assert_eq!(
        HidMaestro::builder()
            .configured_pipe_name(Some(""))
            .unwrap(),
        None
    );
}

#[test]
fn configured_pipe_mode_is_actionably_unsupported_off_windows() {
    let result = HidMaestro::builder()
        .pipe_name("hidmaestro-mcp")
        .spawn(None, false);
    assert!(matches!(result, Err(Error::PipeUnsupported)));
}

#[test]
fn pipe_names_are_bounded_in_bytes() {
    let longest = "a".repeat(128);
    assert_eq!(validate_pipe_name(&longest).unwrap(), longest);
    let result = validate_pipe_name(&"a".repeat(129));
    assert_eq!(
        result,
        Err(Error::InvalidPipeName {
            name: "a".repeat(129),
            reason: "name must be at most 128 ASCII characters",
        })
    );
    let wide = "é".repeat(65);
    assert!(
        matches!(validate_pipe_name(&wide), Err(Error::InvalidPipeName { reason, .. })
            if reason == "name must be at most 128 ASCII characters")
    );
}

#[test]
fn prefixes_and_joined_pipe_names() {
    let name = "hidmaestro-mcp_1.2";
    for count in 1..=name.len() {
        assert!(validate_pipe_name(&name[..count]).is_ok());
    }
    let half = "a".repeat(64);
    assert!(validate_pipe_name(&format!("{half}{half}")).is_ok());
    assert!(validate_pipe_name(&format!("{half}{half}b")).is_err());
}

#[test]
fn each_fault_of_a_pipe_name_has_its_reason() {
    let reason = |name: &str| match validate_pipe_name(name) {
        Err(Error::InvalidPipeName { reason, .. }) => reason,
        _ => "",
    };
    assert_eq!(reason(""), "name must not be empty");
    assert_eq!(
        reason("-x"),
        "name must start with an ASCII letter or digit"
    );
    assert_eq!(
        reason("a b"),
        r"name may contain only ASCII letters, digits, '-', '_', and '.'; do not include a path or \\.\pipe\ prefix"
    );
}

#[test]
fn a_pipe_is_used_on_windows() {
    assert_eq!(
        HidMaestro::builder().pipe_name("p1").spawn(None, true),
        Ok(Launch::Pipe {
            name: "p1".to_string(),
            path: r"\\.\pipe\p1".to_string(),
        })
    );
    assert_eq!(HidMaestro::spawn(None, true), Ok(Launch::Process));
    assert_eq!(HidMaestro::spawn(Some(""), false), Ok(Launch::Process));
    assert_eq!(
        HidMaestro::spawn(Some("pipe"), false),
        Err(Error::PipeUnsupported)
    );
    assert!(matches!(
        HidMaestro::spawn(Some("bad/name"), true),
        Err(Error::InvalidPipeName { .. })
    ));
}

#[test]
fn the_bridge_is_found_in_order() {
    let explicit = HidMaestro::builder().bridge_path(PathBuf::from("/explicit"));
    let current = PathBuf::from("/opt/app/hidmaestro-mcp");
    let directories = vec![
        (PathBuf::from("/no"), false),
        (PathBuf::from("/yes"), true),
        (PathBuf::from("/later"), true),
    ];
    assert_eq!(
        explicit.resolve_path(Some("/named"), Some(&current), true, &directories, false),
        Ok(PathBuf::from("/explicit"))
    );
    let plain = HidMaestro::builder();
    assert_eq!(
        plain.resolve_path(Some("/named"), Some(&current), true, &directories, false),
        Ok(PathBuf::from("/named"))
    );
    assert_eq!(
        plain.resolve_path(Some(""), Some(&current), true, &directories, false),
        Ok(PathBuf::from("/opt/app/hidmaestro-bridge"))
    );
    assert_eq!(
        plain.resolve_path(None, Some(&current), false, &directories, true),
        Ok(PathBuf::from("/yes").join("hidmaestro-bridge.exe"))
    );
    assert_eq!(
        plain.resolve_path(None, None, true, &directories, false),
        Ok(PathBuf::from("/yes/hidmaestro-bridge"))
    );
    assert_eq!(
        plain.resolve_path(None, None, false, &Vec::new(), true),
        Err(Error::BridgeNotFound(
            "set HIDMAESTRO_BRIDGE_PATH, pass builder().bridge_path(...), or put `hidmaestro-bridge.exe` on PATH"
                .to_string()
        ))
    );
}

#[test]
fn a_bundled_bridge_stands_beside_the_executable() {
    let current = PathBuf::from("/here/hidmaestro-mcp.exe");
    let bridge = PathBuf::from("/here").join("hidmaestro-bridge.exe");
    let name = bridge_executable(true);
    assert_eq!(name, "hidmaestro-bridge.exe");
    assert_eq!(bridge_executable(false), "hidmaestro-bridge");
    assert_eq!(bridge_beside(&current, &name), Some(bridge.clone()));
    assert_eq!(bridge_beside(&PathBuf::from("/"), &name), None);
    assert_eq!(bridge_beside(&PathBuf::from(""), &name), None);
    assert_eq!(bridge_in(&PathBuf::from("/here"), &name), bridge);
    assert_eq!(bridge_next_to(&current, &name, true), Some(bridge));
    assert_eq!(bridge_next_to(&current, &name, false), None);
    assert_eq!(bridge_next_to(&PathBuf::from("/"), &name, true), None);
}

#[test]
fn settings_are_kept() {
    let builder = HidMaestro::builder()
        .arg("one")
        .arg("two")
        .env("KEY", "value")
        .response_timeout(Duration::from_secs(10))
        .event_buffer_capacity(7);
    assert_eq!(builder.args, vec!["one".to_string(), "two".to_string()]);
    assert_eq!(builder.env, vec![("KEY".to_string(), "value".to_string())]);
    assert_eq!(builder.response_timeout, Duration::from_secs(10));
    assert_eq!(builder.event_buffer_capacity, 7);
    let copy = builder.clone().bridge_path(PathBuf::from("/b"));
    assert_eq!(copy.args, builder.args);
    assert_eq!(copy.env, builder.env);
    assert_eq!(copy.clone().bridge_path, Some(PathBuf::from("/b")));
    assert_eq!(builder.bridge_path, None);
    let defaults = HidMaestro::builder();
    assert_eq!(defaults.response_timeout, Duration::from_secs(120));
    assert_eq!(defaults.event_buffer_capacity, 1024);
}
