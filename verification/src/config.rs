//! The configuration schema: descriptor names, transport protocols, the
//! descriptor kinds, and the top-level configuration aggregate.

use vstd::prelude::*;
use vstd::string::StrSliceExecFns;

use crate::error::{ConfigError, ErrV};

verus! {

/// A descriptor name is acceptable when it does not contain `':'`, which a
/// downstream environment-variable encoding reserves as a separator.
pub open spec fn name_ok(s: Seq<char>) -> bool {
    !s.contains(':')
}

/// Whether `s` contains the reserved separator `':'`.
fn contains_colon(s: &str) -> (r: bool)
    ensures
        r == s@.contains(':'),
{
    let n: usize = s.unicode_len();
    let mut i: usize = 0;
    while i < n
        invariant
            n == s@.len(),
            0 <= i <= n,
            forall|j: int| 0 <= j < i ==> s@[j] != ':',
        decreases n - i,
    {
        if s.get_char(i) == ':' {
            return true;
        }
        i += 1;
    }
    false
}

/// Name of a file descriptor: the externally visible identifier under which
/// a pre-opened descriptor is exported to the application.
#[derive(Debug, Clone, PartialEq, Eq)]
pub struct FileName(String);

impl View for FileName {
    type V = Seq<char>;

    closed spec fn view(&self) -> Seq<char> {
        self.0@
    }
}

impl FileName {
    /// Validate a candidate name from an untrusted source: construction
    /// succeeds exactly when the candidate avoids the reserved `':'`, and
    /// then keeps the candidate verbatim.
    pub fn from_untrusted(s: String) -> (r: Result<FileName, ConfigError>)
        ensures
            r is Ok <==> name_ok(s@),
            r matches Ok(n) ==> n@ == s@,
            r matches Err(e) ==> e@ == (ErrV::InvalidName { value: s@ }),
    {
        if contains_colon(s.as_str()) {
            Err(ConfigError::InvalidName { value: s })
        } else {
            Ok(FileName(s))
        }
    }

    /// The name as a string slice.
    pub fn as_str(&self) -> (r: &str)
        ensures
            r@ == self@,
    {
        self.0.as_str()
    }

    /// Whether the name avoids the reserved `':'`.
    pub fn is_valid(&self) -> (r: bool)
        ensures
            r == name_ok(self@),
    {
        !contains_colon(self.0.as_str())
    }
}

impl From<String> for FileName {
    /// Wrap a trusted string verbatim, without validation.
    fn from(value: String) -> (r: Self)
        ensures
            r@ == value@,
    {
        FileName(value)
    }
}

impl vstd::std_specs::convert::FromSpecImpl<String> for FileName {
    closed spec fn obeys_from_spec() -> bool {
        true
    }

    closed spec fn from_spec(v: String) -> FileName {
        FileName(v)
    }
}

/// Protocol wrapper for a network descriptor's connection.
#[derive(Copy, Clone, Debug, PartialEq, Eq, Structural)]
pub enum Protocol {
    /// Transparently wrap the connection in TLS.
    Tls,
    /// A plain TCP connection, no wrapper.
    Tcp,
}

impl Default for Protocol {
    /// The secure-by-default choice: encrypted transport.
    fn default() -> (r: Self)
        ensures
            r == Protocol::Tls,
    {
        Protocol::Tls
    }
}

/// Abstract form of a descriptor: each name or address as its character
/// sequence.
pub enum FileV {
    /// Descriptor to the null device.
    Null {
        /// Optional explicit name.
        name: Option<Seq<char>>,
    },
    /// Descriptor to standard input.
    Stdin {
        /// Optional explicit name.
        name: Option<Seq<char>>,
    },
    /// Descriptor to standard output.
    Stdout {
        /// Optional explicit name.
        name: Option<Seq<char>>,
    },
    /// Descriptor to standard error.
    Stderr {
        /// Optional explicit name.
        name: Option<Seq<char>>,
    },
    /// Descriptor to a listening socket.
    Listen {
        /// Required explicit name.
        name: Seq<char>,
        /// Address to listen on.
        addr: Seq<char>,
        /// Port to listen on.
        port: u16,
        /// Protocol wrapper.
        prot: Protocol,
    },
    /// Descriptor to an outbound connection.
    Connect {
        /// Optional explicit name.
        name: Option<Seq<char>>,
        /// Host to connect to.
        host: Seq<char>,
        /// Port to connect to.
        port: u16,
        /// Protocol wrapper.
        prot: Protocol,
    },
}

/// Parameters for one pre-opened file descriptor.
#[derive(Debug, Clone, PartialEq, Eq)]
pub enum File {
    /// File descriptor to the null device.
    Null {
        /// Name of the file descriptor.
        name: Option<FileName>,
    },
    /// File descriptor to standard input.
    Stdin {
        /// Name of the file descriptor.
        name: Option<FileName>,
    },
    /// File descriptor to standard output.
    Stdout {
        /// Name of the file descriptor.
        name: Option<FileName>,
    },
    /// File descriptor to standard error.
    Stderr {
        /// Name of the file descriptor.
        name: Option<FileName>,
    },
    /// File descriptor to a TCP listen socket. The name is required: this
    /// variant has no fallback.
    Listen {
        /// Name of the file descriptor.
        name: FileName,
        /// Address to listen on.
        addr: String,
        /// Port to listen on.
        port: u16,
        /// Protocol to use.
        prot: Protocol,
    },
    /// File descriptor to a TCP stream socket. The name falls back to the
    /// host string.
    Connect {
        /// Name of the file descriptor.
        name: Option<FileName>,
        /// Host address to connect to.
        host: String,
        /// Port to connect to.
        port: u16,
        /// Protocol to use.
        prot: Protocol,
    },
}

/// The character sequence behind an optional descriptor name.
pub open spec fn opt_name_view(n: Option<FileName>) -> Option<Seq<char>> {
    match n {
        Some(x) => Some(x@),
        None => None,
    }
}

impl View for File {
    type V = FileV;

    open spec fn view(&self) -> FileV {
        match self {
            File::Null { name } => FileV::Null { name: opt_name_view(*name) },
            File::Stdin { name } => FileV::Stdin { name: opt_name_view(*name) },
            File::Stdout { name } => FileV::Stdout { name: opt_name_view(*name) },
            File::Stderr { name } => FileV::Stderr { name: opt_name_view(*name) },
            File::Listen { name, addr, port, prot } => FileV::Listen {
                name: name@,
                addr: addr@,
                port: *port,
                prot: *prot,
            },
            File::Connect { name, host, port, prot } => FileV::Connect {
                name: opt_name_view(*name),
                host: host@,
                port: *port,
                prot: *prot,
            },
        }
    }
}

/// The externally visible name of a descriptor: console and null kinds fall
/// back to a fixed label, an outbound connection falls back to its host, and
/// a listening socket always carries its own required name.
pub open spec fn resolved_name(f: FileV) -> Seq<char> {
    match f {
        FileV::Null { name } => match name {
            Some(n) => n,
            None => "null"@,
        },
        FileV::Stdin { name } => match name {
            Some(n) => n,
            None => "stdin"@,
        },
        FileV::Stdout { name } => match name {
            Some(n) => n,
            None => "stdout"@,
        },
        FileV::Stderr { name } => match name {
            Some(n) => n,
            None => "stderr"@,
        },
        FileV::Listen { name, .. } => name,
        FileV::Connect { name, host, .. } => match name {
            Some(n) => n,
            None => host,
        },
    }
}

impl File {
    /// Get the name for a file descriptor: the explicit name where present,
    /// the variant's fixed label or the host otherwise.
    pub fn name(&self) -> (r: &str)
        ensures
            r@ == resolved_name(self@),
    {
        match self {
            File::Null { name } => match name {
                Some(n) => n.as_str(),
                None => "null",
            },
            File::Stdin { name } => match name {
                Some(n) => n.as_str(),
                None => "stdin",
            },
            File::Stdout { name } => match name {
                Some(n) => n.as_str(),
                None => "stdout",
            },
            File::Stderr { name } => match name {
                Some(n) => n.as_str(),
                None => "stderr",
            },
            File::Listen { name, .. } => name.as_str(),
            File::Connect { name, host, .. } => match name {
                Some(n) => n.as_str(),
                None => host.as_str(),
            },
        }
    }

    /// Whether every name this descriptor carries avoids the reserved `':'`.
    pub fn is_wf(&self) -> (r: bool)
        ensures
            r == file_wf(self@),
    {
        match self {
            File::Null { name } => opt_name_valid(name),
            File::Stdin { name } => opt_name_valid(name),
            File::Stdout { name } => opt_name_valid(name),
            File::Stderr { name } => opt_name_valid(name),
            File::Listen { name, .. } => name.is_valid(),
            File::Connect { name, .. } => opt_name_valid(name),
        }
    }
}

/// Whether an optional name, if present, avoids the reserved `':'`.
fn opt_name_valid(n: &Option<FileName>) -> (r: bool)
    ensures
        r == (opt_name_view(*n) matches Some(s) ==> name_ok(s)),
{
    match n {
        Some(x) => x.is_valid(),
        None => true,
    }
}

/// A descriptor is well formed when every name it carries is acceptable.
pub open spec fn file_wf(f: FileV) -> bool {
    match f {
        FileV::Null { name } => (name matches Some(n) ==> name_ok(n)),
        FileV::Stdin { name } => (name matches Some(n) ==> name_ok(n)),
        FileV::Stdout { name } => (name matches Some(n) ==> name_ok(n)),
        FileV::Stderr { name } => (name matches Some(n) ==> name_ok(n)),
        FileV::Listen { name, .. } => name_ok(name),
        FileV::Connect { name, .. } => (name matches Some(n) ==> name_ok(n)),
    }
}

/// Default port for network descriptors.
pub fn default_port() -> (r: u16)
    ensures
        r == 443u16,
{
    443
}

/// Default listen address: the IPv6 any-address form.
pub fn default_addr() -> (r: String)
    ensures
        r@ == "::"@,
{
    "::".to_owned()
}

/// Abstract form of a configuration.
pub struct ConfigV {
    /// Environment entries, in document order.
    pub env: Seq<(Seq<char>, Seq<char>)>,
    /// Arguments, in order.
    pub args: Seq<Seq<char>>,
    /// Pre-opened descriptors, in order.
    pub files: Seq<FileV>,
    /// Optional attestation endpoint text.
    pub steward: Option<Seq<char>>,
}

/// The character sequences behind a list of environment entries.
pub open spec fn env_view(s: Seq<(String, String)>) -> Seq<(Seq<char>, Seq<char>)> {
    Seq::new(s.len(), |i: int| (s[i].0@, s[i].1@))
}

/// The character sequences behind a list of argument strings.
pub open spec fn args_view(s: Seq<String>) -> Seq<Seq<char>> {
    Seq::new(s.len(), |i: int| s[i]@)
}

/// The abstract descriptors behind a list of descriptors.
pub open spec fn files_view(s: Seq<File>) -> Seq<FileV> {
    Seq::new(s.len(), |i: int| s[i]@)
}

/// The configuration for a sandboxed application: environment variables,
/// arguments, pre-opened file descriptors, and an optional attestation
/// endpoint.
#[derive(Debug, Clone, PartialEq, Eq)]
pub struct EnarxConfig {
    /// The environment variables to provide to the application, in document
    /// order; a parsed document never repeats a key.
    pub env: Vec<(String, String)>,
    /// The arguments to provide to the application.
    pub args: Vec<String>,
    /// The array of pre-opened file descriptors; the order fixes descriptor
    /// numbering.
    pub files: Vec<File>,
    /// An optional attestation endpoint, kept as the URL text the document
    /// gave.
    pub steward: Option<String>,
}

impl View for EnarxConfig {
    type V = ConfigV;

    open spec fn view(&self) -> ConfigV {
        ConfigV {
            env: env_view(self.env@),
            args: args_view(self.args@),
            files: files_view(self.files@),
            steward: match self.steward {
                Some(s) => Some(s@),
                None => None,
            },
        }
    }
}

/// The default descriptor set when a document has no `files` section at all:
/// stdin, stdout and stderr, each without an explicit name.
pub open spec fn default_files_v() -> Seq<FileV> {
    seq![
        FileV::Stdin { name: None },
        FileV::Stdout { name: None },
        FileV::Stderr { name: None },
    ]
}

impl Default for EnarxConfig {
    /// Empty environment and arguments, the three-stream default descriptor
    /// set, and no attestation endpoint.
    fn default() -> (r: Self)
        ensures
            r@.env.len() == 0,
            r@.args.len() == 0,
            r@.files == default_files_v(),
            r@.steward is None,
    {
        let mut files: Vec<File> = Vec::new();
        files.push(File::Stdin { name: None });
        files.push(File::Stdout { name: None });
        files.push(File::Stderr { name: None });
        let r = EnarxConfig { env: Vec::new(), args: Vec::new(), files, steward: None };
        proof {
            assert(r@.files =~= default_files_v());
        }
        r
    }
}

} // verus!
