use vstd::prelude::*;

verus! {

use crate::ascii::{ascii_bytes, str_bytes};

/// Frozen settings the core works from.  Defaults are compiled in; the
/// process edge reads the environment at start and overrides fields through
/// the setters before the server loop begins.
pub struct Config {
    socket_path: Vec<u8>,
    storage_dir: Vec<u8>,
    server_ip: Vec<u8>,
    server_port: u16,
}

impl Config {
    /// Size of the receive buffer a request or response must fit.
    pub const MAX_PACKET_SIZE: usize = 4096;

    /// Size of general-purpose byte buffers (key material and the like).
    pub const BUFFER_SIZE: usize = 1024;

    /// Longest error message kept with an error kind.
    pub const ERROR_STRING_SIZE: usize = 64;

    /// How long a reader sleeps when a non-blocking stream has yielded
    /// nothing yet, in milliseconds.
    pub const STREAM_RETRY_DELAY_MS: u64 = 100;

    pub closed spec fn spec_socket_path(&self) -> Seq<u8> {
        self.socket_path@
    }

    pub closed spec fn spec_storage_dir(&self) -> Seq<u8> {
        self.storage_dir@
    }

    pub closed spec fn spec_server_ip(&self) -> Seq<u8> {
        self.server_ip@
    }

    pub closed spec fn spec_server_port(&self) -> u16 {
        self.server_port
    }

    /// The compiled-in defaults.
    pub fn new() -> (r: Config)
        ensures
            r.spec_socket_path() == ascii_bytes("/tmp/remote_unlock.sock"@),
            r.spec_storage_dir() == ascii_bytes("./var/lib/remote_unlock"@),
            r.spec_server_ip() == ascii_bytes("0.0.0.0"@),
            r.spec_server_port() == 8142,
    {
        proof {
            reveal_strlit("/tmp/remote_unlock.sock");
            reveal_strlit("./var/lib/remote_unlock");
            reveal_strlit("0.0.0.0");
            assert(vstd::string::is_ascii("/tmp/remote_unlock.sock"));
            assert(vstd::string::is_ascii("./var/lib/remote_unlock"));
            assert(vstd::string::is_ascii("0.0.0.0"));
        }
        let mut socket_path: Vec<u8> = Vec::new();
        socket_path.extend_from_slice(str_bytes("/tmp/remote_unlock.sock"));
        let mut storage_dir: Vec<u8> = Vec::new();
        storage_dir.extend_from_slice(str_bytes("./var/lib/remote_unlock"));
        let mut server_ip: Vec<u8> = Vec::new();
        server_ip.extend_from_slice(str_bytes("0.0.0.0"));
        Config { socket_path, storage_dir, server_ip, server_port: 8142 }
    }

    pub fn socket_path(&self) -> (r: &[u8])
        ensures
            r@ == self.spec_socket_path(),
    {
        self.socket_path.as_slice()
    }

    pub fn storage_dir(&self) -> (r: &[u8])
        ensures
            r@ == self.spec_storage_dir(),
    {
        self.storage_dir.as_slice()
    }

    /// Where key files live: `<storage_dir>/keys`.
    pub fn keys_dir(&self) -> (r: Vec<u8>)
        ensures
            r@ == self.spec_storage_dir() + ascii_bytes("/keys"@),
    {
        proof {
            reveal_strlit("/keys");
            assert(vstd::string::is_ascii("/keys"));
        }
        let mut r: Vec<u8> = Vec::new();
        r.extend_from_slice(self.storage_dir.as_slice());
        r.extend_from_slice(str_bytes("/keys"));
        r
    }

    /// Where nonce files live: `<storage_dir>/nonces`.
    pub fn nonce_dir(&self) -> (r: Vec<u8>)
        ensures
            r@ == self.spec_storage_dir() + ascii_bytes("/nonces"@),
    {
        proof {
            reveal_strlit("/nonces");
            assert(vstd::string::is_ascii("/nonces"));
        }
        let mut r: Vec<u8> = Vec::new();
        r.extend_from_slice(self.storage_dir.as_slice());
        r.extend_from_slice(str_bytes("/nonces"));
        r
    }

    pub fn server_ip(&self) -> (r: &[u8])
        ensures
            r@ == self.spec_server_ip(),
    {
        self.server_ip.as_slice()
    }

    pub fn server_port(&self) -> (r: u16)
        ensures
            r == self.spec_server_port(),
    {
        self.server_port
    }

    pub fn set_socket_path(&mut self, p: &[u8])
        ensures
            final(self).spec_socket_path() == p@,
            final(self).spec_storage_dir() == old(self).spec_storage_dir(),
            final(self).spec_server_ip() == old(self).spec_server_ip(),
            final(self).spec_server_port() == old(self).spec_server_port(),
    {
        self.socket_path.clear();
        self.socket_path.extend_from_slice(p);
    }

    pub fn set_storage_dir(&mut self, p: &[u8])
        ensures
            final(self).spec_storage_dir() == p@,
            final(self).spec_socket_path() == old(self).spec_socket_path(),
            final(self).spec_server_ip() == old(self).spec_server_ip(),
            final(self).spec_server_port() == old(self).spec_server_port(),
    {
        self.storage_dir.clear();
        self.storage_dir.extend_from_slice(p);
    }

    pub fn set_server_ip(&mut self, p: &[u8])
        ensures
            final(self).spec_server_ip() == p@,
            final(self).spec_socket_path() == old(self).spec_socket_path(),
            final(self).spec_storage_dir() == old(self).spec_storage_dir(),
            final(self).spec_server_port() == old(self).spec_server_port(),
    {
        self.server_ip.clear();
        self.server_ip.extend_from_slice(p);
    }

    pub fn set_server_port(&mut self, p: u16)
        ensures
            final(self).spec_server_port() == p,
            final(self).spec_socket_path() == old(self).spec_socket_path(),
            final(self).spec_storage_dir() == old(self).spec_storage_dir(),
            final(self).spec_server_ip() == old(self).spec_server_ip(),
    {
        self.server_port = p;
    }
}

impl Default for Config {
    fn default() -> (r: Config)
        ensures
            r.spec_server_port() == 8142,
    {
        Config::new()
    }
}

} // verus!
