//! Remote editing over a slop2 daemon: a bridge process opens a tunnel to the daemon,
//! which runs the project's server on its machine.

use vstd::prelude::*;
use vstd::utf8::encode_utf8;

use crate::text::{
    a_minus_stands_for_below_zero, copy_range, decimal, decimal_reads_back, decimal_spec,
    decimal_value, signed_decimal, signed_decimal_spec,
};

verus! {

/// How to reach the daemon that hosts a project.
#[derive(Debug, Clone, PartialEq, Eq, Hash)]
pub struct Slop2ConnectionOptions {
    /// The remote's name, which is also what the UI shows.
    pub name: String,
    /// Hostname or address of the daemon. `None` means the local one, over its unix
    /// socket.
    pub host: Option<String>,
    /// Port for `host`. `None` uses the daemon's default.
    pub port: Option<u16>,
    /// A unix socket that is not at the default location. Ignored when `host` is set.
    pub socket: Option<String>,
}

/// What texts say.
pub open spec fn texts(strings: Seq<String>) -> Seq<Seq<char>> {
    strings.map_values(|string: String| string@)
}

impl Slop2ConnectionOptions {
    /// Where the daemon is, in words.
    pub open spec fn target(self) -> Seq<char> {
        match (self.host, self.port, self.socket) {
            (Some(host), Some(port), _) => host@ + ":"@ + decimal_spec(port as nat),
            (Some(host), None, _) => host@,
            (None, _, Some(socket)) => socket@,
            (None, _, None) => "local daemon"@,
        }
    }

    /// The arguments that point the bridge at the daemon. A host comes before a
    /// socket; with neither the bridge falls back to the local daemon itself.
    pub open spec fn target_args(self) -> Seq<Seq<char>> {
        match (self.host, self.port, self.socket) {
            (Some(host), Some(port), _) => seq![
                "--host"@,
                host@,
                "--port"@,
                decimal_spec(port as nat),
            ],
            (Some(host), None, _) => seq!["--host"@, host@],
            (None, _, Some(socket)) => seq!["--socket"@, socket@],
            (None, _, None) => seq![],
        }
    }

    /// The label used in the UI and in logs.
    pub open spec fn label(self) -> Seq<char> {
        if self.name@.len() == 0 {
            self.target()
        } else {
            self.name@
        }
    }

    /// The label used in the UI and in logs: the name, or where the daemon is.
    pub fn display_name(&self) -> (name: String)
        ensures
            name@ == self.label(),
    {
        if self.name.as_str().is_empty() {
            self.target_description()
        } else {
            self.name.clone()
        }
    }

    /// Where the daemon is, in words.
    pub fn target_description(&self) -> (description: String)
        ensures
            description@ == self.target(),
    {
        match &self.host {
            Some(host) => match self.port {
                Some(port) => {
                    let mut description: String = host.clone();
                    description.append(":");
                    description.append(decimal(port as u64).as_str());
                    description
                },
                None => host.clone(),
            },
            None => match &self.socket {
                Some(socket) => socket.clone(),
                None => "local daemon".to_string(),
            },
        }
    }

    /// The arguments that point the bridge at the daemon.
    pub fn proxy_target_args(&self) -> (args: Vec<String>)
        ensures
            texts(args@) == self.target_args(),
    {
        let mut args: Vec<String> = Vec::new();
        if let Some(host) = &self.host {
            args.push("--host".to_string());
            args.push(host.clone());
            if let Some(port) = self.port {
                args.push("--port".to_string());
                args.push(decimal(port as u64));
            }
        } else if let Some(socket) = &self.socket {
            args.push("--socket".to_string());
            args.push(socket.clone());
        }
        assert(texts(args@) =~= self.target_args());
        args
    }
}

/// The bridge's program, by what the environment names.
pub open spec fn bridge_program(configured: Option<Seq<u8>>) -> Seq<u8> {
    match configured {
        Some(path) if path.len() > 0 => path,
        _ => encode_utf8("slop2-zed-proxy"@),
    }
}

/// The bridge's program: what the environment names, if it names anything. A path is
/// bytes, which need not be text.
pub fn proxy_binary(configured: Option<Vec<u8>>) -> (program: Vec<u8>)
    ensures
        program@ == bridge_program(
            match configured {
                Some(path) => Some(path@),
                None => None,
            },
        ),
{
    if let Some(path) = configured {
        if path.len() > 0 {
            return path;
        }
    }
    let program: &[u8] = "slop2-zed-proxy".as_bytes();
    let copy: Vec<u8> = copy_range(program, 0, program.len());
    assert(copy@ =~= program@);
    copy
}

/// Why a session did not start or went wrong.
#[derive(Debug)]
pub enum ConnectionError {
    /// The bridge's program does not exist.
    NoBridge { program: String },
    /// The bridge could not be started; `error` says why.
    NotStarted { error: String },
    /// The bridge could not be killed.
    NotKilled { pid: u32 },
    /// The project's server ended with a status.
    ServerExited { status: i32 },
    /// Directories cannot be uploaded.
    NoUpload,
    /// Commands cannot be run.
    NoCommands,
    /// Ports cannot be forwarded.
    NoPortForwarding,
}

impl ConnectionError {
    /// What the user is told.
    pub open spec fn text(self) -> Seq<char> {
        match self {
            ConnectionError::NoBridge { program } => program@
                + " does not exist. Build slop2 and put slop2-zed-proxy on PATH, or point $SLOP2_ZED_PROXY_BIN at it."@,
            ConnectionError::NotStarted { error } => "failed to start the slop2 bridge: "@ + error@,
            ConnectionError::NotKilled { pid } => "failed to kill the slop2 bridge (pid "@
                + decimal_spec(pid as nat) + ")"@,
            ConnectionError::ServerExited { status } => "remote server exited with status "@
                + signed_decimal_spec(status as int),
            ConnectionError::NoUpload =>
                "uploading directories is not supported over a slop2 connection: the daemon provides its own remote server binary"@,
            ConnectionError::NoCommands =>
                "running commands on the remote host is not supported over a slop2 connection; use a slop2 terminal tab on that daemon instead"@,
            ConnectionError::NoPortForwarding =>
                "port forwarding is not supported over a slop2 connection"@,
        }
    }

    /// What the user is told.
    pub fn message(&self) -> (message: String)
        ensures
            message@ == self.text(),
    {
        match self {
            ConnectionError::NoBridge { program } => {
                let mut message: String = program.clone();
                message.append(
                    " does not exist. Build slop2 and put slop2-zed-proxy on PATH, or point $SLOP2_ZED_PROXY_BIN at it.",
                );
                message
            },
            ConnectionError::NotStarted { error } => {
                let mut message: String = "failed to start the slop2 bridge: ".to_string();
                message.append(error.as_str());
                message
            },
            ConnectionError::NotKilled { pid } => {
                let mut message: String = "failed to kill the slop2 bridge (pid ".to_string();
                message.append(decimal(*pid as u64).as_str());
                message.append(")");
                message
            },
            ConnectionError::ServerExited { status } => {
                let mut message: String = "remote server exited with status ".to_string();
                message.append(signed_decimal(*status).as_str());
                message
            },
            ConnectionError::NoUpload =>
                "uploading directories is not supported over a slop2 connection: the daemon provides its own remote server binary".to_string(),
            ConnectionError::NoCommands =>
                "running commands on the remote host is not supported over a slop2 connection; use a slop2 terminal tab on that daemon instead".to_string(),
            ConnectionError::NoPortForwarding =>
                "port forwarding is not supported over a slop2 connection".to_string(),
        }
    }
}

/// A connection over the bridge.
pub struct Slop2RemoteConnection {
    pub connection_options: Slop2ConnectionOptions,
    /// The running bridge.
    pub proxy_process: Option<u32>,
    pub killed: bool,
}

impl Slop2RemoteConnection {
    /// The connection that there is before the bridge starts, or why there is none.
    pub open spec fn connected(
        connection_options: Slop2ConnectionOptions,
        program: String,
        components: usize,
        is_there: bool,
    ) -> Result<Slop2RemoteConnection, ConnectionError> {
        if components > 1 && !is_there {
            Err(ConnectionError::NoBridge { program })
        } else {
            Ok(Slop2RemoteConnection { connection_options, proxy_process: None, killed: false })
        }
    }

    /// A connection, if the bridge can be expected to start: a program that is given by
    /// a path of more than one component has to exist, and a bare name is left for the
    /// start to look up.
    pub fn new(
        connection_options: Slop2ConnectionOptions,
        program: String,
        components: usize,
        is_there: bool,
    ) -> (result: Result<Slop2RemoteConnection, ConnectionError>)
        ensures
            result == Slop2RemoteConnection::connected(
                connection_options,
                program,
                components,
                is_there,
            ),
    {
        let resolvable: bool = if components > 1 {
            is_there
        } else {
            true
        };
        if !resolvable {
            return Err(ConnectionError::NoBridge { program });
        }
        Ok(Slop2RemoteConnection { connection_options, proxy_process: None, killed: false })
    }

    /// The arguments that the bridge starts with.
    pub open spec fn bridge_args(self, identifier: Seq<char>, reconnect: bool) -> Seq<Seq<char>> {
        seq!["--identifier"@, identifier] + (if reconnect {
            seq!["--reconnect"@]
        } else {
            seq![]
        }) + self.connection_options.target_args()
    }

    /// The arguments that the bridge starts with.
    pub fn start_proxy_args(&self, unique_identifier: String, reconnect: bool) -> (args: Vec<String>)
        ensures
            texts(args@) == self.bridge_args(unique_identifier@, reconnect),
    {
        let mut args: Vec<String> = Vec::new();
        args.push("--identifier".to_string());
        args.push(unique_identifier);
        if reconnect {
            args.push("--reconnect".to_string());
        }
        let ghost before = args@;
        let mut target: Vec<String> = self.connection_options.proxy_target_args();
        let ghost added = target@;
        args.append(&mut target);
        proof {
            assert(args@ =~= before + added);
            assert(texts(args@) =~= texts(before) + texts(added));
            assert(texts(before) =~= seq!["--identifier"@, unique_identifier@] + (if reconnect {
                seq!["--reconnect"@]
            } else {
                seq![]
            }));
        }
        args
    }

    /// The connection after the bridge was started, or was not.
    pub open spec fn after_start(self, spawned: Result<u32, String>) -> Slop2RemoteConnection {
        match spawned {
            Ok(pid) => Slop2RemoteConnection { proxy_process: Some(pid), ..self },
            Err(_) => self,
        }
    }

    /// Takes the outcome of starting the bridge: its process, or why there is none.
    pub fn started(&mut self, spawned: Result<u32, String>) -> (result: Result<
        (),
        ConnectionError,
    >)
        ensures
            result == start_outcome(spawned),
            *final(self) == old(self).after_start(spawned),
    {
        match spawned {
            Ok(pid) => {
                self.proxy_process = Some(pid);
                Ok(())
            },
            Err(error) => Err(ConnectionError::NotStarted { error }),
        }
    }

    /// Ends the session: returns the process to kill, if one runs. That drops its
    /// tunnel, and the daemon stops the server. What comes of it is told by
    /// [`kill_outcome`].
    pub fn kill(&mut self) -> (pid: Option<u32>)
        ensures
            pid == old(self).proxy_process,
            *final(self) == old(self).after_kill(),
    {
        self.killed = true;
        self.proxy_process.take()
    }

    /// The connection after its session was ended.
    pub open spec fn after_kill(self) -> Slop2RemoteConnection {
        Slop2RemoteConnection { killed: true, proxy_process: None, ..self }
    }

    /// Whether the session was ended.
    pub fn has_been_killed(&self) -> (killed: bool)
        ensures
            killed == self.killed,
    {
        self.killed
    }

    /// Nothing is uploaded: the daemon runs its own server.
    pub fn upload_directory(&self) -> (result: Result<(), ConnectionError>)
        ensures
            result == Err::<(), ConnectionError>(ConnectionError::NoUpload),
    {
        Err(ConnectionError::NoUpload)
    }

    /// No command is run: the tunnel carries the server's protocol alone, and an error is
    /// better than a command that runs on the wrong machine.
    pub fn build_command(&self) -> (result: Result<(), ConnectionError>)
        ensures
            result == Err::<(), ConnectionError>(ConnectionError::NoCommands),
    {
        Err(ConnectionError::NoCommands)
    }

    /// No port is forwarded.
    pub fn build_forward_ports_command(&self) -> (result: Result<(), ConnectionError>)
        ensures
            result == Err::<(), ConnectionError>(ConnectionError::NoPortForwarding),
    {
        Err(ConnectionError::NoPortForwarding)
    }

    /// The shell on the daemon's machine.
    pub fn shell(&self) -> (shell: String)
        ensures
            shell@ == "/bin/sh"@,
    {
        "/bin/sh".to_string()
    }

    /// The shell that the daemon's machine comes with.
    pub fn default_system_shell(&self) -> (shell: String)
        ensures
            shell@ == "/bin/sh"@,
    {
        "/bin/sh".to_string()
    }

    /// The version of the system on the daemon's machine, which nothing tells.
    pub fn remote_os_version(&self) -> (version: Option<String>)
        ensures
            version is None,
    {
        None
    }

    /// Whether programs of Windows can be run on the daemon's machine.
    pub fn has_wsl_interop(&self) -> (interop: bool)
        ensures
            !interop,
    {
        false
    }

    /// How paths are written on the daemon's machine.
    pub fn path_style(&self) -> (style: PathStyle)
        ensures
            style == PathStyle::Unix,
    {
        PathStyle::Unix
    }
}

/// What comes of starting the bridge.
pub open spec fn start_outcome(spawned: Result<u32, String>) -> Result<(), ConnectionError> {
    match spawned {
        Ok(_) => Ok(()),
        Err(error) => Err(ConnectionError::NotStarted { error }),
    }
}

/// What comes of ending a session.
pub open spec fn killed_or_not(pid: Option<u32>, spawned: bool) -> Result<(), ConnectionError> {
    match pid {
        Some(pid) if !spawned => Err(ConnectionError::NotKilled { pid }),
        _ => Ok(()),
    }
}

/// What the end of the bridge means.
pub open spec fn exited(status: i32) -> Result<i32, ConnectionError> {
    if status == 0 {
        Ok(0i32)
    } else {
        Err(ConnectionError::ServerExited { status })
    }
}

/// What comes of ending a session, by whether the command that kills the bridge could be
/// started. Without a bridge there is nothing to kill.
pub fn kill_outcome(pid: Option<u32>, spawned: bool) -> (result: Result<(), ConnectionError>)
    ensures
        result == killed_or_not(pid, spawned),
{
    match pid {
        Some(pid) => if spawned {
            Ok(())
        } else {
            Err(ConnectionError::NotKilled { pid })
        },
        None => Ok(()),
    }
}

/// What the end of the bridge means: it ends with the status of the project's server,
/// so that anything but zero is the server's death and not the transport's.
pub fn proxy_exit(status: i32) -> (result: Result<i32, ConnectionError>)
    ensures
        result == exited(status),
{
    if status != 0 {
        return Err(ConnectionError::ServerExited { status });
    }
    Ok(0)
}

/// How paths are written.
#[derive(Clone, Copy, Debug, PartialEq, Eq, Structural)]
pub enum PathStyle {
    Unix,
    Windows,
}

/// A processor architecture.
#[derive(Clone, Copy, Debug, PartialEq, Eq, Structural)]
pub enum RemoteArch {
    X86_64,
    Aarch64,
}

/// An operating system.
#[derive(Clone, Copy, Debug, PartialEq, Eq, Structural)]
pub enum RemoteOs {
    Linux,
    MacOs,
    Windows,
}

/// The platform of the daemon's machine.
#[derive(Clone, Copy, Debug, PartialEq, Eq, Structural)]
pub struct RemotePlatform {
    pub os: RemoteOs,
    pub arch: RemoteArch,
}

/// What the daemon's machine is taken for.
pub open spec fn platform_beside(local_is_aarch64: bool) -> RemotePlatform {
    RemotePlatform {
        os: RemoteOs::Linux,
        arch: if local_is_aarch64 {
            RemoteArch::Aarch64
        } else {
            RemoteArch::X86_64
        },
    }
}

/// What the daemon's machine is taken for: Linux, with the architecture of this one.
pub fn remote_platform(local_is_aarch64: bool) -> (platform: RemotePlatform)
    ensures
        platform == platform_beside(local_is_aarch64),
{
    RemotePlatform {
        os: RemoteOs::Linux,
        arch: if local_is_aarch64 {
            RemoteArch::Aarch64
        } else {
            RemoteArch::X86_64
        },
    }
}

/// Ending a session twice kills nothing the second time, and a session that was ended
/// stays so.
pub proof fn killing_twice_kills_once(connection: Slop2RemoteConnection)
    ensures
        connection.after_kill().proxy_process is None,
        connection.after_kill().killed,
        connection.after_kill().after_kill() == connection.after_kill(),
{
}

/// A daemon is reached by its host where one is given, whatever the socket, and by its
/// socket only where none is: then the port says nothing. With neither the bridge is told
/// nothing.
pub proof fn a_host_comes_before_a_socket(
    options: Slop2ConnectionOptions,
    other: Option<String>,
    port: Option<u16>,
)
    ensures
        options.host is Some ==> (Slop2ConnectionOptions {
            socket: other,
            ..options
        }).target_args() == options.target_args() && (Slop2ConnectionOptions {
            socket: other,
            ..options
        }).target() == options.target(),
        options.host is None ==> (Slop2ConnectionOptions { port, ..options }).target_args()
            == options.target_args() && (Slop2ConnectionOptions { port, ..options }).target()
            == options.target(),
        options.host is None && options.socket is None ==> options.target_args() == Seq::<
            Seq<char>,
        >::empty(),
{
}

/// What the bridge is told is what the options say: the host behind `--host`, the port in
/// decimal behind `--port`, or the socket behind `--socket`.
#[verifier::rlimit(50)]
pub proof fn the_bridge_is_told_the_options(options: Slop2ConnectionOptions)
    ensures
        ({
            let args = options.target_args();
            &&& options.host matches Some(host) ==> {
                &&& args.len() == if options.port is Some {
                    4int
                } else {
                    2
                }
                &&& args[0] == seq!['-', '-', 'h', 'o', 's', 't']
                &&& args[1] == host@
                &&& options.port matches Some(port) ==> {
                    &&& args[2] == seq!['-', '-', 'p', 'o', 'r', 't']
                    &&& decimal_value(args[3]) == port
                }
            }
            &&& options.host is None ==> (options.socket matches Some(socket) ==> {
                &&& args.len() == 2
                &&& args[0] == seq!['-', '-', 's', 'o', 'c', 'k', 'e', 't']
                &&& args[1] == socket@
            })
        }),
{
    reveal_strlit("--host");
    reveal_strlit("--port");
    reveal_strlit("--socket");
    assert("--host"@ =~= seq!['-', '-', 'h', 'o', 's', 't']);
    assert("--port"@ =~= seq!['-', '-', 'p', 'o', 'r', 't']);
    assert("--socket"@ =~= seq!['-', '-', 's', 'o', 'c', 'k', 'e', 't']);
    if let Some(port) = options.port {
        decimal_reads_back(port as nat);
    }
}

/// A daemon is described by where it is: the host, with its port behind a colon where one is
/// given, or the socket.
pub proof fn a_daemon_is_described_by_where_it_is(options: Slop2ConnectionOptions)
    ensures
        options.host matches Some(host) ==> {
            &&& options.port is None ==> options.target() == host@
            &&& options.port matches Some(port) ==> {
                &&& options.target().take(host@.len() as int) == host@
                &&& options.target()[host@.len() as int] == ':'
                &&& decimal_value(options.target().skip(host@.len() as int + 1)) == port
            }
        },
        options.host is None ==> (options.socket matches Some(socket) ==> options.target()
            == socket@),
        options.name@.len() > 0 ==> options.label() == options.name@,
        options.name@.len() == 0 ==> options.label() == options.target(),
{
    reveal_strlit(":");
    if let Some(host) = options.host {
        if let Some(port) = options.port {
            decimal_reads_back(port as nat);
            assert(options.target().take(host@.len() as int) =~= host@);
            assert(options.target().skip(host@.len() as int + 1) =~= decimal_spec(port as nat));
        }
    }
}

/// The bridge starts with the session's identifier, is told to reconnect exactly where it is
/// to, and then where the daemon is.
pub proof fn the_bridge_starts_with_the_identifier(
    connection: Slop2RemoteConnection,
    identifier: Seq<char>,
)
    ensures
        ({
            let fresh = connection.bridge_args(identifier, false);
            let again = connection.bridge_args(identifier, true);
            let target = connection.connection_options.target_args();
            &&& fresh.len() == 2 + target.len()
            &&& fresh[0] == "--identifier"@ && fresh[1] == identifier
            &&& fresh.skip(2) == target
            &&& again.len() == 3 + target.len()
            &&& again.take(2) == fresh.take(2)
            &&& again[2] == "--reconnect"@
            &&& again.skip(3) == target
        }),
{
    let fresh = connection.bridge_args(identifier, false);
    let again = connection.bridge_args(identifier, true);
    let target = connection.connection_options.target_args();
    assert(fresh.skip(2) =~= target);
    assert(again.skip(3) =~= target);
    assert(again.take(2) =~= fresh.take(2));
}

/// The environment's word stands, unless it is empty.
pub proof fn the_environment_names_the_bridge(path: Seq<u8>)
    ensures
        path.len() > 0 ==> bridge_program(Some(path)) == path,
        path.len() == 0 ==> bridge_program(Some(path)) == bridge_program(None),
{
}

/// A connection is refused only for a program that is given by a path and is not there; one
/// that there is keeps the options it was given, runs no bridge yet and was not ended.
pub proof fn only_a_missing_bridge_is_refused(
    options: Slop2ConnectionOptions,
    program: String,
    components: usize,
    is_there: bool,
)
    ensures
        Slop2RemoteConnection::connected(options, program, components, is_there) is Err <==> !is_there
            && components > 1,
        Slop2RemoteConnection::connected(options, program, components, is_there) matches Err(error)
            ==> (error matches ConnectionError::NoBridge { program: named } && named == program),
        Slop2RemoteConnection::connected(options, program, components, is_there) matches Ok(
            connection,
        ) ==> connection.connection_options == options && connection.proxy_process is None
            && !connection.killed,
{
}

/// Ending a session ends it and keeps the options. It fails only where there was a bridge to
/// kill and that could not be started, and says which; a server that ends with anything but
/// zero is an error that says with what.
pub proof fn an_end_says_how_it_went(
    connection: Slop2RemoteConnection,
    pid: Option<u32>,
    spawned: bool,
    status: i32,
)
    ensures
        connection.after_kill().connection_options == connection.connection_options,
        killed_or_not(pid, spawned) is Err <==> pid is Some && !spawned,
        killed_or_not(pid, spawned) matches Err(error) ==> (error matches ConnectionError::NotKilled {
            pid: left,
        } && pid == Some(left)),
        exited(status) is Ok <==> status == 0,
        exited(status) matches Ok(code) ==> code == 0,
        exited(status) matches Err(error) ==> (error matches ConnectionError::ServerExited {
            status: said,
        } && said == status),
{
}

/// What a user is told holds what it is about: the program, the reason, the process or the
/// status.
#[verifier::rlimit(50)]
pub proof fn a_message_says_what_it_is_about(error: ConnectionError)
    ensures
        error matches ConnectionError::NoBridge { program } ==> error.text().take(
            program@.len() as int,
        ) == program@,
        error matches ConnectionError::NotStarted { error: reason } ==> error.text().len()
            >= reason@.len() && error.text().skip(error.text().len() - reason@.len()) == reason@,
        error matches ConnectionError::NotKilled { pid } ==> decimal_value(
            error.text().subrange(37, error.text().len() - 1),
        ) == pid,
        error matches ConnectionError::ServerExited { status } ==> status >= 0 ==> decimal_value(
            error.text().skip(33),
        ) == status,
{
    match error {
        ConnectionError::NoBridge { program } => {
            assert(error.text().take(program@.len() as int) =~= program@);
        },
        ConnectionError::NotStarted { error: reason } => {
            assert(error.text().skip(error.text().len() - reason@.len()) =~= reason@);
        },
        ConnectionError::NotKilled { pid } => {
            reveal_strlit("failed to kill the slop2 bridge (pid ");
            reveal_strlit(")");
            decimal_reads_back(pid as nat);
            assert(error.text().subrange(37, error.text().len() - 1) =~= decimal_spec(pid as nat));
        },
        ConnectionError::ServerExited { status } => {
            reveal_strlit("remote server exited with status ");
            a_minus_stands_for_below_zero(status as int);
            assert(error.text().skip(33) =~= signed_decimal_spec(status as int));
        },
        _ => {},
    }
}

/// A bridge that was started is the one that is killed, once; one that was not leaves the
/// connection as it was, with the reason.
pub proof fn what_was_started_is_killed(
    connection: Slop2RemoteConnection,
    spawned: Result<u32, String>,
)
    ensures
        start_outcome(spawned) is Ok <==> spawned is Ok,
        spawned matches Ok(pid) ==> connection.after_start(spawned).proxy_process == Some(pid),
        spawned matches Err(reason) ==> connection.after_start(spawned) == connection
            && start_outcome(spawned) == Err::<(), ConnectionError>(
            ConnectionError::NotStarted { error: reason },
        ),
        connection.after_start(spawned).connection_options == connection.connection_options,
        connection.after_start(spawned).killed == connection.killed,
        connection.after_kill().proxy_process is None,
        connection.after_kill().killed,
        connection.after_kill().after_kill() == connection.after_kill(),
{
}

/// The daemon's machine is taken for a Linux one with the processor of this one.
pub proof fn a_daemon_runs_beside_the_app(local_is_aarch64: bool)
    ensures
        platform_beside(local_is_aarch64).os is Linux,
        platform_beside(local_is_aarch64).arch is Aarch64 <==> local_is_aarch64,
        platform_beside(local_is_aarch64).arch is X86_64 <==> !local_is_aarch64,
{
}

} // verus!
