//! The configuration snapshot and its parts.
//!
//! A snapshot is a plain value. Paths are kept as text; the optional parts
//! have fixed fall-back values, given by the `effective_*` functions.

use crate::text::{i32_to_decimal, signed_decimal};
use vstd::prelude::*;
use vstd::string::*;

verus! {

/// Capacity of the listing store where the configuration names none.
pub const DEFAULT_INDEX_CAPACITY: usize = 16;

/// Capacity of the file store where the configuration names none.
pub const DEFAULT_FILE_CAPACITY: usize = 32;

/// Largest file, in bytes, that is cached where the configuration names no
/// limit: 32 MiB.
pub const DEFAULT_FILE_MAXSIZE: u64 = 33554432;

/// Port that is listened on where the configuration names none.
pub const DEFAULT_PORT: i32 = 8080;

/// Where to listen.
#[derive(Clone, Debug)]
pub struct BindConfig {
    pub addr: String,
    pub listen: i32,
}

/// Capacities of the two stores of the content cache, and the size above
/// which a file is served without being cached.
#[derive(Clone, Debug)]
pub struct CacheConfig {
    pub index_capacity: Option<usize>,
    pub file_capacity: Option<usize>,
    pub file_maxsize: Option<u64>,
}

/// What is served, and how it presents itself.
#[derive(Clone, Debug)]
pub struct ServerConfig {
    /// Free text shown in the banner.
    pub info: String,
    /// The document root.
    pub root: String,
    /// Path of the error page, relative to the root.
    pub error_page: Option<String>,
    pub cache: Option<CacheConfig>,
    /// `Some(true)` lets a request resolve to a path outside the root.
    pub allow_outside_root: Option<bool>,
}

/// The number of requests that may be in flight at once.
#[derive(Clone, Debug)]
pub struct RateLimitConfig {
    pub max_requests: usize,
}

/// How one location is listed.
#[derive(Clone, Debug)]
pub struct LocationConfig {
    /// `Some(true)` lists the directory; anything else refuses the listing.
    pub auto_index: Option<bool>,
    /// A file whose content is served in place of a generated listing.
    pub index: Option<String>,
}

/// Where the access log and the error log go; the console where unset.
#[derive(Clone, Debug)]
pub struct LoggingConfig {
    pub access_log: Option<String>,
    pub error_log: Option<String>,
}

/// What the command line may override.
#[derive(Clone, Debug)]
pub struct Args {
    pub config: Option<String>,
    pub root: Option<String>,
    pub port: Option<i32>,
}

/// One configuration snapshot.
#[derive(Clone, Debug)]
pub struct Config {
    pub bind: BindConfig,
    pub server: ServerConfig,
    /// Networks in CIDR notation from which clients are admitted.
    pub allowlist: Option<Vec<String>>,
    /// Networks in CIDR notation from which clients are turned away.
    pub blocklist: Option<Vec<String>>,
    pub rate_limit: Option<RateLimitConfig>,
    /// Listing rules by location, in the order in which they are tried.
    pub locations: Option<Vec<(String, LocationConfig)>>,
    pub logging: Option<LoggingConfig>,
}

impl Default for CacheConfig {
    fn default() -> (c: CacheConfig)
        ensures
            c.index_capacity == Some(DEFAULT_INDEX_CAPACITY),
            c.file_capacity == Some(DEFAULT_FILE_CAPACITY),
            c.file_maxsize == None::<u64>,
    {
        CacheConfig {
            index_capacity: Some(DEFAULT_INDEX_CAPACITY),
            file_capacity: Some(DEFAULT_FILE_CAPACITY),
            file_maxsize: None,
        }
    }
}

impl Default for LocationConfig {
    fn default() -> (c: LocationConfig)
        ensures
            c.auto_index == None::<bool>,
            c.index == None::<String>,
    {
        LocationConfig { auto_index: None, index: None }
    }
}

impl Default for LoggingConfig {
    fn default() -> (c: LoggingConfig)
        ensures
            c.access_log == None::<String>,
            c.error_log == None::<String>,
    {
        LoggingConfig { access_log: None, error_log: None }
    }
}

impl CacheConfig {
    /// The capacity of the listing store: the configured one, or 16.
    pub open spec fn spec_index_capacity(&self) -> usize {
        match self.index_capacity {
            Some(n) => n,
            None => DEFAULT_INDEX_CAPACITY,
        }
    }

    /// The capacity of the file store: the configured one, or 32.
    pub open spec fn spec_file_capacity(&self) -> usize {
        match self.file_capacity {
            Some(n) => n,
            None => DEFAULT_FILE_CAPACITY,
        }
    }

    /// The largest file that is cached: the configured size, or 32 MiB.
    pub open spec fn spec_file_maxsize(&self) -> u64 {
        match self.file_maxsize {
            Some(n) => n,
            None => DEFAULT_FILE_MAXSIZE,
        }
    }
}

impl Config {
    /// The snapshot that is used where no configuration can be read: all
    /// interfaces, port 8080, no cache settings, no access lists, no limit on
    /// requests in flight, and `404.html` under `root` as the error page.
    pub fn with_root(root: String) -> (c: Config)
        ensures
            c.bind.addr@ == "0.0.0.0"@,
            c.bind.listen == DEFAULT_PORT,
            c.server.info@ == "Powered by Rust"@,
            c.server.root == root,
            c.server.error_page is Some,
            c.server.error_page.unwrap()@ == "404.html"@,
            c.server.cache is None,
            c.server.allow_outside_root is None,
            c.allowlist is None,
            c.blocklist is None,
            c.rate_limit is None,
            c.locations is None,
            c.logging is None,
    {
        Config {
            bind: BindConfig { addr: "0.0.0.0".to_owned(), listen: DEFAULT_PORT },
            server: ServerConfig {
                info: "Powered by Rust".to_owned(),
                root,
                error_page: Some("404.html".to_owned()),
                cache: None,
                allow_outside_root: None,
            },
            allowlist: None,
            blocklist: None,
            rate_limit: None,
            locations: None,
            logging: None,
        }
    }

    /// The cache settings in force: those of the snapshot, with the fall-back
    /// value for each that is unset.
    pub open spec fn spec_index_capacity(&self) -> usize {
        match self.server.cache {
            Some(c) => c.spec_index_capacity(),
            None => DEFAULT_INDEX_CAPACITY,
        }
    }

    pub open spec fn spec_file_capacity(&self) -> usize {
        match self.server.cache {
            Some(c) => c.spec_file_capacity(),
            None => DEFAULT_FILE_CAPACITY,
        }
    }

    pub open spec fn spec_file_maxsize(&self) -> u64 {
        match self.server.cache {
            Some(c) => c.spec_file_maxsize(),
            None => DEFAULT_FILE_MAXSIZE,
        }
    }

    /// Whether a request may resolve to a path outside the root.
    pub open spec fn spec_allows_outside_root(&self) -> bool {
        self.server.allow_outside_root == Some(true)
    }

    /// The error page's path relative to the root: the configured one, or
    /// `404.html`.
    pub open spec fn spec_error_page(&self) -> Seq<char> {
        match self.server.error_page {
            Some(p) => p@,
            None => "404.html"@,
        }
    }

    /// The address to bind: the configured address, a colon, the port.
    pub open spec fn spec_bind_address(&self) -> Seq<char> {
        self.bind.addr@ + ":"@ + signed_decimal(self.bind.listen as int)
    }

    /// Both stores can be made with the capacities in force.
    pub open spec fn cache_capacities_valid(&self) -> bool {
        self.spec_index_capacity() > 0 && self.spec_file_capacity() > 0
    }

    /// Writes the address to bind.
    pub fn bind_address(&self) -> (address: String)
        ensures
            address@ == self.spec_bind_address(),
    {
        let mut address = self.bind.addr.clone();
        address.append(":");
        let port = i32_to_decimal(self.bind.listen);
        address.append(port.as_str());
        address
    }

    /// Tests whether both stores can be made with the capacities in force.
    pub fn has_valid_capacities(&self) -> (b: bool)
        ensures
            b == self.cache_capacities_valid(),
    {
        self.index_capacity() > 0 && self.file_capacity() > 0
    }

    /// The capacity of the listing store that is in force.
    #[verifier::when_used_as_spec(spec_index_capacity)]
    pub fn index_capacity(&self) -> (n: usize)
        ensures
            n == self.spec_index_capacity(),
    {
        match &self.server.cache {
            Some(c) => match c.index_capacity {
                Some(n) => n,
                None => DEFAULT_INDEX_CAPACITY,
            },
            None => DEFAULT_INDEX_CAPACITY,
        }
    }

    /// The capacity of the file store that is in force.
    #[verifier::when_used_as_spec(spec_file_capacity)]
    pub fn file_capacity(&self) -> (n: usize)
        ensures
            n == self.spec_file_capacity(),
    {
        match &self.server.cache {
            Some(c) => match c.file_capacity {
                Some(n) => n,
                None => DEFAULT_FILE_CAPACITY,
            },
            None => DEFAULT_FILE_CAPACITY,
        }
    }

    /// The largest file, in bytes, that is cached.
    #[verifier::when_used_as_spec(spec_file_maxsize)]
    pub fn file_maxsize(&self) -> (n: u64)
        ensures
            n == self.spec_file_maxsize(),
    {
        match &self.server.cache {
            Some(c) => match c.file_maxsize {
                Some(n) => n,
                None => DEFAULT_FILE_MAXSIZE,
            },
            None => DEFAULT_FILE_MAXSIZE,
        }
    }

    /// Whether a request may resolve to a path outside the root.
    #[verifier::when_used_as_spec(spec_allows_outside_root)]
    pub fn allows_outside_root(&self) -> (b: bool)
        ensures
            b == self.spec_allows_outside_root(),
    {
        match self.server.allow_outside_root {
            Some(b) => b,
            None => false,
        }
    }

    /// The error page's path relative to the root.
    pub fn error_page(&self) -> (p: String)
        ensures
            p@ == self.spec_error_page(),
    {
        match &self.server.error_page {
            Some(p) => p.clone(),
            None => "404.html".to_owned(),
        }
    }

    /// The snapshot with the command line's root and port in place of its own,
    /// where the command line gives them.
    pub fn apply_args(self, args: &Args) -> (c: Config)
        ensures
            c.server.root@ == (match args.root {
                Some(r) => r@,
                None => self.server.root@,
            }),
            c.bind.listen == (match args.port {
                Some(p) => p,
                None => self.bind.listen,
            }),
            c.bind.addr == self.bind.addr,
            c.server.info == self.server.info,
            c.server.error_page == self.server.error_page,
            c.server.cache == self.server.cache,
            c.server.allow_outside_root == self.server.allow_outside_root,
            c.allowlist == self.allowlist,
            c.blocklist == self.blocklist,
            c.rate_limit == self.rate_limit,
            c.locations == self.locations,
            c.logging == self.logging,
    {
        let mut c = self;
        match &args.root {
            Some(r) => {
                c.server.root = r.clone();
            },
            None => {},
        }
        match args.port {
            Some(p) => {
                c.bind.listen = p;
            },
            None => {},
        }
        c
    }
}

/// The snapshot a process starts with: the configuration that was read, or,
/// where none could be read, the fall-back snapshot under `root`; in both
/// cases with the command line's root and port in place of its own.
pub fn init_config(loaded: Option<Config>, root: String, args: &Args) -> (c: Config)
    ensures
        loaded is Some ==> c.bind.addr == loaded.unwrap().bind.addr && c.server.info
            == loaded.unwrap().server.info && c.server.error_page
            == loaded.unwrap().server.error_page && c.server.cache == loaded.unwrap().server.cache
            && c.server.allow_outside_root == loaded.unwrap().server.allow_outside_root
            && c.allowlist == loaded.unwrap().allowlist && c.blocklist
            == loaded.unwrap().blocklist && c.rate_limit == loaded.unwrap().rate_limit
            && c.locations == loaded.unwrap().locations && c.logging == loaded.unwrap().logging,
        loaded is None ==> c.bind.addr@ == "0.0.0.0"@ && c.server.info@ == "Powered by Rust"@
            && c.server.error_page is Some && c.server.error_page.unwrap()@ == "404.html"@
            && c.server.cache is None && c.server.allow_outside_root is None && c.allowlist is None
            && c.blocklist is None && c.rate_limit is None && c.locations is None
            && c.logging is None,
        c.server.root@ == (match args.root {
            Some(r) => r@,
            None => match loaded {
                Some(l) => l.server.root@,
                None => root@,
            },
        }),
        c.bind.listen == (match args.port {
            Some(p) => p,
            None => match loaded {
                Some(l) => l.bind.listen,
                None => DEFAULT_PORT,
            },
        }),
{
    let base = match loaded {
        Some(config) => config,
        None => Config::with_root(root),
    };
    base.apply_args(args)
}

impl Default for Config {
    /// `with_root` on the directory the process runs in, written `.`.
    fn default() -> (c: Config)
        ensures
            c.bind.addr@ == "0.0.0.0"@,
            c.bind.listen == DEFAULT_PORT,
            c.server.info@ == "Powered by Rust"@,
            c.server.root@ == "."@,
            c.server.error_page is Some,
            c.server.error_page.unwrap()@ == "404.html"@,
            c.server.cache is None,
            c.server.allow_outside_root is None,
            c.allowlist is None,
            c.blocklist is None,
            c.rate_limit is None,
            c.locations is None,
            c.logging is None,
    {
        Config::with_root(".".to_owned())
    }
}

} // verus!
