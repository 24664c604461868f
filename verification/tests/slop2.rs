use zed_embed::slop2::{
    kill_outcome, proxy_binary, proxy_exit, remote_platform, ConnectionError, PathStyle, RemoteArch,
    RemoteOs, Slop2ConnectionOptions, Slop2RemoteConnection,
};

#[test]
fn target_args_prefer_host_then_socket() {
    let tailnet = Slop2ConnectionOptions {
        name: "desktop".into(),
        host: Some("100.64.0.24".into()),
        port: Some(7767),
        socket: Some("/ignored".into()),
    };
    assert_eq!(
        tailnet.proxy_target_args(),
        vec!["--host", "100.64.0.24", "--port", "7767"]
    );

    let socket = Slop2ConnectionOptions {
        name: "local".into(),
        host: None,
        port: None,
        socket: Some("/run/user/1000/slop2/daemon.sock".into()),
    };
    assert_eq!(
        socket.proxy_target_args(),
        vec!["--socket", "/run/user/1000/slop2/daemon.sock"]
    );

    // Nothing configured: the bridge falls back to the local daemon itself.
    let default = Slop2ConnectionOptions {
        name: "local".into(),
        host: None,
        port: None,
        socket: None,
    };
    assert!(default.proxy_target_args().is_empty());
}

#[test]
fn display_name_falls_back_to_the_target() {
    let unnamed = Slop2ConnectionOptions {
        name: String::new(),
        host: Some("host".into()),
        port: Some(1234),
        socket: None,
    };
    assert_eq!(unnamed.display_name(), "host:1234");
    let named = Slop2ConnectionOptions {
        name: "desktop".into(),
        ..unnamed
    };
    assert_eq!(named.display_name(), "desktop");
}

fn options(host: Option<&str>, port: Option<u16>, socket: Option<&str>) -> Slop2ConnectionOptions {
    Slop2ConnectionOptions {
        name: String::new(),
        host: host.map(str::to_owned),
        port,
        socket: socket.map(str::to_owned),
    }
}

#[test]
fn descriptions_say_where_the_daemon_is() {
    assert_eq!(options(Some("h"), Some(0), None).target_description(), "h:0");
    assert_eq!(
        options(Some("h"), Some(65535), None).target_description(),
        "h:65535"
    );
    assert_eq!(options(Some("h"), None, Some("/s")).target_description(), "h");
    assert_eq!(options(None, Some(1), Some("/s")).target_description(), "/s");
    assert_eq!(options(None, Some(1), None).target_description(), "local daemon");
    assert_eq!(options(Some("h"), None, None).proxy_target_args(), vec!["--host", "h"]);
    // A port without a host means nothing.
    assert!(options(None, Some(1), None).proxy_target_args().is_empty());
}

#[test]
fn an_empty_override_of_the_bridge_counts_as_none() {
    assert_eq!(proxy_binary(None), b"slop2-zed-proxy");
    assert_eq!(proxy_binary(Some(Vec::new())), b"slop2-zed-proxy");
    assert_eq!(proxy_binary(Some(b"/opt/\xff".to_vec())), b"/opt/\xff");
}

#[test]
fn bridge_starts_with_its_identifier() {
    let connection =
        Slop2RemoteConnection::new(options(Some("h"), Some(7), None), "p".into(), 1, false)
            .unwrap();
    assert_eq!(
        connection.start_proxy_args("id".into(), false),
        vec!["--identifier", "id", "--host", "h", "--port", "7"]
    );
    assert_eq!(
        connection.start_proxy_args("id".into(), true),
        vec!["--identifier", "id", "--reconnect", "--host", "h", "--port", "7"]
    );
}

#[test]
fn a_bridge_given_by_a_path_has_to_exist() {
    let error = match Slop2RemoteConnection::new(options(None, None, None), "a/b".into(), 2, false)
    {
        Err(error) => error,
        Ok(_) => panic!("connected without a bridge"),
    };
    assert_eq!(
        error.message(),
        "a/b does not exist. Build slop2 and put slop2-zed-proxy on PATH, \
         or point $SLOP2_ZED_PROXY_BIN at it."
    );
    assert!(Slop2RemoteConnection::new(options(None, None, None), "a/b".into(), 2, true).is_ok());
    assert!(Slop2RemoteConnection::new(options(None, None, None), "b".into(), 1, false).is_ok());
}

#[test]
fn killing_twice_kills_once() {
    let mut connection =
        Slop2RemoteConnection::new(options(None, None, None), "b".into(), 1, false)
            .unwrap();
    assert!(!connection.has_been_killed());
    assert!(connection.started(Ok(42)).is_ok());
    assert_eq!(connection.kill(), Some(42));
    assert!(connection.has_been_killed());
    assert_eq!(connection.kill(), None);
    assert!(connection.has_been_killed());
}

#[test]
fn a_bridge_that_does_not_start_is_an_error() {
    let mut connection =
        Slop2RemoteConnection::new(options(None, None, None), "b".into(), 1, false)
            .unwrap();
    assert_eq!(
        connection.started(Err("no such file".into())).unwrap_err().message(),
        "failed to start the slop2 bridge: no such file"
    );
    assert_eq!(connection.kill(), None);
    assert!(kill_outcome(None, false).is_ok());
    assert!(kill_outcome(Some(7), true).is_ok());
    assert_eq!(
        kill_outcome(Some(7), false).unwrap_err().message(),
        "failed to kill the slop2 bridge (pid 7)"
    );
}

#[test]
fn a_server_that_died_is_an_error() {
    assert_eq!(proxy_exit(0).unwrap(), 0);
    assert_eq!(
        proxy_exit(101).unwrap_err().message(),
        "remote server exited with status 101"
    );
    assert_eq!(
        proxy_exit(-9).unwrap_err().message(),
        "remote server exited with status -9"
    );
    assert_eq!(
        proxy_exit(i32::MIN).unwrap_err().message(),
        "remote server exited with status -2147483648"
    );
}

#[test]
fn what_the_tunnel_does_not_carry_is_said() {
    let connection =
        Slop2RemoteConnection::new(options(None, None, None), "b".into(), 1, false)
            .unwrap();
    assert_eq!(connection.shell(), "/bin/sh");
    assert_eq!(connection.default_system_shell(), "/bin/sh");
    assert_eq!(connection.path_style(), PathStyle::Unix);
    assert_eq!(connection.remote_os_version(), None);
    assert!(!connection.has_wsl_interop());
    assert_eq!(
        ConnectionError::NotKilled { pid: 4294967295 }.message(),
        "failed to kill the slop2 bridge (pid 4294967295)"
    );
    assert_eq!(
        connection.upload_directory().unwrap_err().message(),
        "uploading directories is not supported over a slop2 connection: \
         the daemon provides its own remote server binary"
    );
    assert_eq!(
        connection.build_command().unwrap_err().message(),
        "running commands on the remote host is not supported over a slop2 \
         connection; use a slop2 terminal tab on that daemon instead"
    );
    assert_eq!(
        connection.build_forward_ports_command().unwrap_err().message(),
        "port forwarding is not supported over a slop2 connection"
    );
}

#[test]
fn the_remote_is_taken_for_linux() {
    assert_eq!(remote_platform(true).arch, RemoteArch::Aarch64);
    assert_eq!(remote_platform(false).arch, RemoteArch::X86_64);
    assert_eq!(remote_platform(false).os, RemoteOs::Linux);
}
