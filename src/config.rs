//! Server configuration and the configure-then-freeze server description.

use vstd::prelude::*;

use crate::text::{address_text, bind_address};

verus! {

/// The host bound when none is set.
pub const DEFAULT_HOST: &'static str = "0.0.0.0";

/// The port bound when none is set.
pub const DEFAULT_LISTEN_PORT: usize = 60000;

/// The receive buffer size when none is set.
pub const DEFAULT_BUFFER_SIZE: usize = 512;

/// Host, port and receive buffer size of a server.
#[derive(Clone, Debug)]
pub struct ServerConfig {
    host: String,
    port: usize,
    buffer_size: usize,
}

/// The mathematical content of a [`ServerConfig`].
pub struct ConfigView {
    pub host: Seq<char>,
    pub port: nat,
    pub buffer_size: nat,
}

impl View for ServerConfig {
    type V = ConfigView;

    closed spec fn view(&self) -> ConfigView {
        ConfigView { host: self.host@, port: self.port as nat, buffer_size: self.buffer_size as nat }
    }
}

impl Default for ServerConfig {
    /// `0.0.0.0`, port 60000, a 512-byte buffer.
    fn default() -> (r: ServerConfig)
        ensures
            r@ == (ConfigView {
                host: DEFAULT_HOST@,
                port: DEFAULT_LISTEN_PORT as nat,
                buffer_size: DEFAULT_BUFFER_SIZE as nat,
            }),
    {
        ServerConfig {
            host: String::from_str(DEFAULT_HOST),
            port: DEFAULT_LISTEN_PORT,
            buffer_size: DEFAULT_BUFFER_SIZE,
        }
    }
}

impl ServerConfig {
    /// The default configuration.
    pub fn new() -> (r: ServerConfig)
        ensures
            r@ == (ConfigView {
                host: DEFAULT_HOST@,
                port: DEFAULT_LISTEN_PORT as nat,
                buffer_size: DEFAULT_BUFFER_SIZE as nat,
            }),
    {
        ServerConfig::default()
    }

    /// The host to bind.
    pub fn get_host(&self) -> (r: &String)
        ensures
            r@ == self@.host,
    {
        &self.host
    }

    /// The port to bind.
    pub fn get_port(&self) -> (r: usize)
        ensures
            r == self@.port,
    {
        self.port
    }

    /// The size of the receive buffer.
    pub fn get_buffer_size(&self) -> (r: usize)
        ensures
            r == self@.buffer_size,
    {
        self.buffer_size
    }

    /// Sets the host to bind.
    pub fn host(&mut self, host: &str)
        ensures
            final(self)@ == (ConfigView { host: host@, ..old(self)@ }),
    {
        self.host = String::from_str(host);
    }

    /// Sets the port to bind.
    pub fn port(&mut self, port: usize)
        ensures
            final(self)@ == (ConfigView { port: port as nat, ..old(self)@ }),
    {
        self.port = port;
    }

    /// Sets the size of the receive buffer.
    pub fn buffer_size(&mut self, buffer_size: usize)
        ensures
            final(self)@ == (ConfigView { buffer_size: buffer_size as nat, ..old(self)@ }),
    {
        self.buffer_size = buffer_size;
    }

    /// A copy of the configuration, to bind with.
    pub fn snapshot(&self) -> (r: ServerConfig)
        ensures
            r@ == self@,
    {
        ServerConfig { host: self.host.clone(), port: self.port, buffer_size: self.buffer_size }
    }

    /// The address text to bind: `host:port`.
    pub fn bind_address(&self) -> (r: String)
        ensures
            r@ == address_text(self@.host, self@.port),
    {
        bind_address(self.host.as_str(), self.port)
    }
}

/// A server before and after it starts: its configuration and its hooks,
/// both changed only until it starts.
pub struct Server<H> {
    config: ServerConfig,
    hooks: Vec<H>,
    running: bool,
}

impl<H> Server<H> {
    /// The configuration.
    pub closed spec fn config_view(&self) -> ConfigView {
        self.config@
    }

    /// The registered hooks, in registration order.
    pub closed spec fn hook_list(&self) -> Seq<H> {
        self.hooks@
    }

    /// Whether the server has started, which freezes it.
    pub closed spec fn started(&self) -> bool {
        self.running
    }

    /// A server with the default configuration and no hooks.
    pub fn new() -> (r: Server<H>)
        ensures
            r.config_view() == (ConfigView {
                host: DEFAULT_HOST@,
                port: DEFAULT_LISTEN_PORT as nat,
                buffer_size: DEFAULT_BUFFER_SIZE as nat,
            }),
            r.hook_list() == Seq::<H>::empty(),
            !r.started(),
    {
        Server { config: ServerConfig::new(), hooks: Vec::new(), running: false }
    }

    /// Sets the host to bind; ignored once the server has started. The
    /// result tells whether it was applied.
    pub fn host(&mut self, host: &str) -> (applied: bool)
        ensures
            applied == !old(self).started(),
            final(self).config_view() == if applied {
                ConfigView { host: host@, ..old(self).config_view() }
            } else {
                old(self).config_view()
            },
            final(self).hook_list() == old(self).hook_list(),
            final(self).started() == old(self).started(),
    {
        if self.running {
            return false;
        }
        self.config.host(host);
        true
    }

    /// Sets the port to bind; ignored once the server has started. The
    /// result tells whether it was applied.
    pub fn port(&mut self, port: usize) -> (applied: bool)
        ensures
            applied == !old(self).started(),
            final(self).config_view() == if applied {
                ConfigView { port: port as nat, ..old(self).config_view() }
            } else {
                old(self).config_view()
            },
            final(self).hook_list() == old(self).hook_list(),
            final(self).started() == old(self).started(),
    {
        if self.running {
            return false;
        }
        self.config.port(port);
        true
    }

    /// Sets the size of the receive buffer; ignored once the server has
    /// started. The result tells whether it was applied.
    pub fn buffer(&mut self, buffer_size: usize) -> (applied: bool)
        ensures
            applied == !old(self).started(),
            final(self).config_view() == if applied {
                ConfigView { buffer_size: buffer_size as nat, ..old(self).config_view() }
            } else {
                old(self).config_view()
            },
            final(self).hook_list() == old(self).hook_list(),
            final(self).started() == old(self).started(),
    {
        if self.running {
            return false;
        }
        self.config.buffer_size(buffer_size);
        true
    }

    /// Appends a hook to the pipeline; ignored once the server has started.
    /// The result tells whether it was registered.
    pub fn hook(&mut self, hook: H) -> (applied: bool)
        ensures
            applied == !old(self).started(),
            final(self).hook_list() == if applied {
                old(self).hook_list().push(hook)
            } else {
                old(self).hook_list()
            },
            final(self).config_view() == old(self).config_view(),
            final(self).started() == old(self).started(),
    {
        if self.running {
            return false;
        }
        self.hooks.push(hook);
        true
    }

    /// The configuration.
    pub fn get_config(&self) -> (r: &ServerConfig)
        ensures
            r@ == self.config_view(),
    {
        &self.config
    }

    /// The registered hooks, in registration order.
    pub fn get_hooks(&self) -> (r: &Vec<H>)
        ensures
            r@ == self.hook_list(),
    {
        &self.hooks
    }

    /// Whether the server has started.
    pub fn is_running(&self) -> (r: bool)
        ensures
            r == self.started(),
    {
        self.running
    }

    /// Starts the server: freezes its configuration and hooks, and returns
    /// the configuration to bind with.
    pub fn start(&mut self) -> (r: ServerConfig)
        ensures
            r@ == old(self).config_view(),
            final(self).config_view() == old(self).config_view(),
            final(self).hook_list() == old(self).hook_list(),
            final(self).started(),
    {
        self.running = true;
        self.config.snapshot()
    }
}

} // verus!
