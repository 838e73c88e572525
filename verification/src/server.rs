use vstd::prelude::*;

verus! {

/// How long a running server is given to shut down, in seconds.
pub const SHUTDOWN_TIMEOUT_SECONDS: u64 = 30;

/// What the server's owner can ask of it.
#[derive(Clone, Copy, Debug, PartialEq, Eq, Structural)]
pub enum Command {
    StartServer,
    StopServer,
}

/// Where the server stands.
#[derive(Clone, Copy, Debug, PartialEq, Eq, Structural)]
pub enum ProxyServerStatus {
    New,
    /// The runtime is being built and serving has begun.
    Starting,
    Running,
    Stopped,
}

/// The address the server listens on.
#[derive(Clone, Copy, Debug, PartialEq, Eq, Structural)]
pub enum BindAddress {
    /// `::1` with the port, written `::1:<port>`.
    Ipv6Loopback(u16),
    /// `0.0.0.0` with the port, written `0.0.0.0:<port>`.
    AnyIpv4(u16),
}

pub enum ServerEvent {
    Command(Command),
    /// The command channel is gone.
    ChannelClosed,
    RuntimeBuildFailed,
    /// Serving on the runtime has returned.
    ServingEnded,
}

#[derive(Clone, Copy, Debug, PartialEq, Eq, Structural)]
pub enum ServerAction {
    /// Wait for the next command.
    ReceiveCommand,
    /// Build a runtime with this many worker threads and serve on it,
    /// listening on this address.
    StartRuntime { worker_threads: usize, bind_address: BindAddress },
    /// Shut the runtime down within the timeout, then wait for the next
    /// command.
    ShutdownRuntime { timeout_seconds: u64 },
    /// Leave the command loop.
    Exit,
}

/// The proxy server's command loop.
pub struct ProxyServer {
    pub status: ProxyServerStatus,
    pub bind_port: u16,
    pub use_ipv6: bool,
    pub thread_number: usize,
}

pub open spec fn spec_bind_address(use_ipv6: bool, bind_port: u16) -> BindAddress {
    if use_ipv6 {
        BindAddress::Ipv6Loopback(bind_port)
    } else {
        BindAddress::AnyIpv4(bind_port)
    }
}

/// One step of the command loop. Only the status changes.
pub open spec fn server_step(server: ProxyServer, event: ServerEvent, next: ProxyServer, action: ServerAction) -> bool {
    let go = |s: ProxyServerStatus, a: ServerAction| next.status == s && action == a;
    &&& next.bind_port == server.bind_port
    &&& next.use_ipv6 == server.use_ipv6
    &&& next.thread_number == server.thread_number
    &&& match (server.status, event) {
        (_, ServerEvent::ChannelClosed) => go(server.status, ServerAction::Exit),
        (ProxyServerStatus::New, ServerEvent::Command(Command::StartServer))
        | (ProxyServerStatus::Stopped, ServerEvent::Command(Command::StartServer)) => go(
            ProxyServerStatus::Starting,
            ServerAction::StartRuntime {
                worker_threads: server.thread_number,
                bind_address: spec_bind_address(server.use_ipv6, server.bind_port),
            },
        ),
        (ProxyServerStatus::Running, ServerEvent::Command(Command::StartServer)) => go(
            ProxyServerStatus::Running,
            ServerAction::ReceiveCommand,
        ),
        (ProxyServerStatus::Starting, ServerEvent::RuntimeBuildFailed) => go(server.status, ServerAction::Exit),
        (ProxyServerStatus::Starting, ServerEvent::ServingEnded) => go(
            ProxyServerStatus::Running,
            ServerAction::ReceiveCommand,
        ),
        (ProxyServerStatus::New, ServerEvent::Command(Command::StopServer)) => go(server.status, ServerAction::Exit),
        (ProxyServerStatus::Running, ServerEvent::Command(Command::StopServer)) => go(
            ProxyServerStatus::Stopped,
            ServerAction::ShutdownRuntime { timeout_seconds: SHUTDOWN_TIMEOUT_SECONDS },
        ),
        (ProxyServerStatus::Stopped, ServerEvent::Command(Command::StopServer)) => go(
            server.status,
            ServerAction::Exit,
        ),
        _ => go(server.status, ServerAction::ReceiveCommand),
    }
}

impl ProxyServer {
    /// A server that has not started yet.
    pub fn new(bind_port: u16, use_ipv6: bool, thread_number: usize) -> (res: ProxyServer)
        ensures
            res == (ProxyServer { status: ProxyServerStatus::New, bind_port, use_ipv6, thread_number }),
    {
        ProxyServer { status: ProxyServerStatus::New, bind_port, use_ipv6, thread_number }
    }

    /// The address to listen on.
    pub fn bind_address(&self) -> (res: BindAddress)
        ensures
            res == spec_bind_address(self.use_ipv6, self.bind_port),
    {
        if self.use_ipv6 {
            BindAddress::Ipv6Loopback(self.bind_port)
        } else {
            BindAddress::AnyIpv4(self.bind_port)
        }
    }

    /// One step of the command loop.
    pub fn run(&mut self, event: ServerEvent) -> (action: ServerAction)
        ensures
            server_step(*old(self), event, *final(self), action),
    {
        let (status, action) = match (self.status, event) {
            (_, ServerEvent::ChannelClosed) => (self.status, ServerAction::Exit),
            (ProxyServerStatus::New, ServerEvent::Command(Command::StartServer))
            | (ProxyServerStatus::Stopped, ServerEvent::Command(Command::StartServer)) => (
                ProxyServerStatus::Starting,
                ServerAction::StartRuntime { worker_threads: self.thread_number, bind_address: self.bind_address() },
            ),
            (ProxyServerStatus::Running, ServerEvent::Command(Command::StartServer)) => (
                ProxyServerStatus::Running,
                ServerAction::ReceiveCommand,
            ),
            (ProxyServerStatus::Starting, ServerEvent::RuntimeBuildFailed) => (self.status, ServerAction::Exit),
            (ProxyServerStatus::Starting, ServerEvent::ServingEnded) => (
                ProxyServerStatus::Running,
                ServerAction::ReceiveCommand,
            ),
            (ProxyServerStatus::New, ServerEvent::Command(Command::StopServer)) => (self.status, ServerAction::Exit),
            (ProxyServerStatus::Running, ServerEvent::Command(Command::StopServer)) => (
                ProxyServerStatus::Stopped,
                ServerAction::ShutdownRuntime { timeout_seconds: SHUTDOWN_TIMEOUT_SECONDS },
            ),
            (ProxyServerStatus::Stopped, ServerEvent::Command(Command::StopServer)) => (
                self.status,
                ServerAction::Exit,
            ),
            _ => (self.status, ServerAction::ReceiveCommand),
        };
        self.status = status;
        action
    }
}

/// Stopping a running server always shuts its runtime down and leaves it
/// stopped; a server that is not running leaves the loop on a stop instead.
pub proof fn lemma_stop_command(server: ProxyServer, next: ProxyServer, action: ServerAction)
    requires
        server_step(server, ServerEvent::Command(Command::StopServer), next, action),
    ensures
        server.status == ProxyServerStatus::Running ==> next.status == ProxyServerStatus::Stopped
            && action == (ServerAction::ShutdownRuntime { timeout_seconds: SHUTDOWN_TIMEOUT_SECONDS }),
        server.status == ProxyServerStatus::New || server.status == ProxyServerStatus::Stopped ==> action
            == ServerAction::Exit,
{
}

/// A start command is ignored while the server runs, and starts a server
/// that is new or stopped, on the address its settings give.
pub proof fn lemma_start_command(server: ProxyServer, next: ProxyServer, action: ServerAction)
    requires
        server_step(server, ServerEvent::Command(Command::StartServer), next, action),
    ensures
        server.status == ProxyServerStatus::Running ==> next.status == ProxyServerStatus::Running && action
            == ServerAction::ReceiveCommand,
        server.status == ProxyServerStatus::New || server.status == ProxyServerStatus::Stopped ==> action
            == (ServerAction::StartRuntime {
                worker_threads: server.thread_number,
                bind_address: spec_bind_address(server.use_ipv6, server.bind_port),
            }),
        (server.status == ProxyServerStatus::New || server.status == ProxyServerStatus::Stopped) && server.use_ipv6
            ==> action == (ServerAction::StartRuntime {
            worker_threads: server.thread_number,
            bind_address: BindAddress::Ipv6Loopback(server.bind_port),
        }),
        (server.status == ProxyServerStatus::New || server.status == ProxyServerStatus::Stopped) && !server.use_ipv6
            ==> action == (ServerAction::StartRuntime {
            worker_threads: server.thread_number,
            bind_address: BindAddress::AnyIpv4(server.bind_port),
        }),
{
}

} // verus!
