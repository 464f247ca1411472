//! Dispatch and defaulting: from a document tree to a configuration, with
//! every rule stated as a specification the executable code is held to.

use vstd::prelude::*;

use crate::config::{
    args_view, default_files_v, env_view, files_view, name_ok, opt_name_view, ConfigV,
    EnarxConfig, File, FileName, FileV, Protocol,
};
use crate::error::{ConfigError, ErrV};
use crate::value::{load_toml, lookupv, str_eq, table_get, toml_doc_of, DocValue};

verus! {

/// Whether the text is an acceptable endpoint URL. The outcome depends on
/// the text alone.
pub uninterp spec fn url_accepts(s: Seq<char>) -> bool;

/// Relies on `url::Url::parse`: accepts exactly the well-formed URLs, with
/// an outcome that depends on the text alone.
#[verifier::external_body]
pub(crate) fn is_url(s: &str) -> (r: bool)
    ensures
        r == url_accepts(s@),
{
    url::Url::parse(s).is_ok()
}

/// The optional `name` field of a descriptor table: absent, or a validated
/// text value.
pub open spec fn opt_name_v(t: Seq<(String, DocValue)>) -> Result<Option<Seq<char>>, ErrV> {
    match lookupv(t, "name"@) {
        None => Ok(None),
        Some(v) => match v {
            DocValue::Str(s) => if name_ok(s@) {
                Ok(Some(s@))
            } else {
                Err(ErrV::InvalidName { value: s@ })
            },
            _ => Err(ErrV::BadType { field: "name"@ }),
        },
    }
}

/// The required `name` field of a `listen` table: a validated text value,
/// with no fallback.
pub open spec fn req_name_v(t: Seq<(String, DocValue)>) -> Result<Seq<char>, ErrV> {
    match lookupv(t, "name"@) {
        None => Err(ErrV::Missing { field: "name"@ }),
        Some(v) => match v {
            DocValue::Str(s) => if name_ok(s@) {
                Ok(s@)
            } else {
                Err(ErrV::InvalidName { value: s@ })
            },
            _ => Err(ErrV::BadType { field: "name"@ }),
        },
    }
}

/// The `addr` field of a `listen` table, defaulting to the any-address form.
pub open spec fn addr_v(t: Seq<(String, DocValue)>) -> Result<Seq<char>, ErrV> {
    match lookupv(t, "addr"@) {
        None => Ok("::"@),
        Some(v) => match v {
            DocValue::Str(s) => Ok(s@),
            _ => Err(ErrV::BadType { field: "addr"@ }),
        },
    }
}

/// The required `host` field of a `connect` table.
pub open spec fn host_v(t: Seq<(String, DocValue)>) -> Result<Seq<char>, ErrV> {
    match lookupv(t, "host"@) {
        None => Err(ErrV::Missing { field: "host"@ }),
        Some(v) => match v {
            DocValue::Str(s) => Ok(s@),
            _ => Err(ErrV::BadType { field: "host"@ }),
        },
    }
}

/// The `port` field of a network table: an integer within the port range,
/// defaulting to 443.
pub open spec fn port_v(t: Seq<(String, DocValue)>) -> Result<u16, ErrV> {
    match lookupv(t, "port"@) {
        None => Ok(443u16),
        Some(v) => match v {
            DocValue::Int(i) => if 0 <= i <= 65535 {
                Ok(i as u16)
            } else {
                Err(ErrV::BadType { field: "port"@ })
            },
            _ => Err(ErrV::BadType { field: "port"@ }),
        },
    }
}

/// The `prot` field of a network table: `tls` or `tcp`, defaulting to the
/// encrypted transport.
pub open spec fn prot_v(t: Seq<(String, DocValue)>) -> Result<Protocol, ErrV> {
    match lookupv(t, "prot"@) {
        None => Ok(Protocol::Tls),
        Some(v) => match v {
            DocValue::Str(s) => if s@ == "tls"@ {
                Ok(Protocol::Tls)
            } else if s@ == "tcp"@ {
                Ok(Protocol::Tcp)
            } else {
                Err(ErrV::BadType { field: "prot"@ })
            },
            _ => Err(ErrV::BadType { field: "prot"@ }),
        },
    }
}

/// One descriptor from a document value: a table whose `kind` discriminator
/// selects the variant, with each variant's fields read and defaulted as the
/// schema documents.
pub open spec fn parse_file_v(v: DocValue) -> Result<FileV, ErrV> {
    match v {
        DocValue::Table(t) => match lookupv(t@, "kind"@) {
            None => Err(ErrV::Missing { field: "kind"@ }),
            Some(kv) => match kv {
                DocValue::Str(k) => if k@ == "null"@ {
                    match opt_name_v(t@) {
                        Ok(n) => Ok(FileV::Null { name: n }),
                        Err(e) => Err(e),
                    }
                } else if k@ == "stdin"@ {
                    match opt_name_v(t@) {
                        Ok(n) => Ok(FileV::Stdin { name: n }),
                        Err(e) => Err(e),
                    }
                } else if k@ == "stdout"@ {
                    match opt_name_v(t@) {
                        Ok(n) => Ok(FileV::Stdout { name: n }),
                        Err(e) => Err(e),
                    }
                } else if k@ == "stderr"@ {
                    match opt_name_v(t@) {
                        Ok(n) => Ok(FileV::Stderr { name: n }),
                        Err(e) => Err(e),
                    }
                } else if k@ == "listen"@ {
                    match req_name_v(t@) {
                        Err(e) => Err(e),
                        Ok(n) => match addr_v(t@) {
                            Err(e) => Err(e),
                            Ok(a) => match port_v(t@) {
                                Err(e) => Err(e),
                                Ok(p) => match prot_v(t@) {
                                    Err(e) => Err(e),
                                    Ok(pr) => Ok(
                                        FileV::Listen { name: n, addr: a, port: p, prot: pr },
                                    ),
                                },
                            },
                        },
                    }
                } else if k@ == "connect"@ {
                    match opt_name_v(t@) {
                        Err(e) => Err(e),
                        Ok(n) => match host_v(t@) {
                            Err(e) => Err(e),
                            Ok(h) => match port_v(t@) {
                                Err(e) => Err(e),
                                Ok(p) => match prot_v(t@) {
                                    Err(e) => Err(e),
                                    Ok(pr) => Ok(
                                        FileV::Connect {
                                            name: n,
                                            host: h,
                                            port: p,
                                            prot: pr,
                                        },
                                    ),
                                },
                            },
                        },
                    }
                } else {
                    Err(ErrV::UnknownKind { kind: k@ })
                },
                _ => Err(ErrV::BadType { field: "kind"@ }),
            },
        },
        _ => Err(ErrV::Syntax),
    }
}

/// The descriptors of a `files` array, in order; the first offending entry
/// decides the error.
pub open spec fn parse_files_v(a: Seq<DocValue>) -> Result<Seq<FileV>, ErrV>
    decreases a.len(),
{
    if a.len() == 0 {
        Ok(Seq::empty())
    } else {
        match parse_files_v(a.drop_last()) {
            Err(e) => Err(e),
            Ok(s) => match parse_file_v(a.last()) {
                Err(e) => Err(e),
                Ok(f) => Ok(s.push(f)),
            },
        }
    }
}

/// The entries of an `env` table, each value a text scalar, in order.
pub open spec fn env_entries_v(e: Seq<(String, DocValue)>) -> Result<
    Seq<(Seq<char>, Seq<char>)>,
    ErrV,
>
    decreases e.len(),
{
    if e.len() == 0 {
        Ok(Seq::empty())
    } else {
        match env_entries_v(e.drop_last()) {
            Err(err) => Err(err),
            Ok(s) => match e.last().1 {
                DocValue::Str(v) => Ok(s.push((e.last().0@, v@))),
                _ => Err(ErrV::BadType { field: "env"@ }),
            },
        }
    }
}

/// The entries of an `args` array, each a text scalar, in order.
pub open spec fn args_v(a: Seq<DocValue>) -> Result<Seq<Seq<char>>, ErrV>
    decreases a.len(),
{
    if a.len() == 0 {
        Ok(Seq::empty())
    } else {
        match args_v(a.drop_last()) {
            Err(e) => Err(e),
            Ok(s) => match a.last() {
                DocValue::Str(v) => Ok(s.push(v@)),
                _ => Err(ErrV::BadType { field: "args"@ }),
            },
        }
    }
}

/// The `env` section of the top-level table: empty when absent.
pub open spec fn env_section_v(t: Seq<(String, DocValue)>) -> Result<
    Seq<(Seq<char>, Seq<char>)>,
    ErrV,
> {
    match lookupv(t, "env"@) {
        None => Ok(Seq::empty()),
        Some(v) => match v {
            DocValue::Table(e) => env_entries_v(e@),
            _ => Err(ErrV::BadType { field: "env"@ }),
        },
    }
}

/// The `args` section of the top-level table: empty when absent.
pub open spec fn args_section_v(t: Seq<(String, DocValue)>) -> Result<Seq<Seq<char>>, ErrV> {
    match lookupv(t, "args"@) {
        None => Ok(Seq::empty()),
        Some(v) => match v {
            DocValue::Array(a) => args_v(a@),
            _ => Err(ErrV::BadType { field: "args"@ }),
        },
    }
}

/// The `files` section of the top-level table: the three-stream default set
/// when the section is missing altogether, the entries as given otherwise —
/// a present-but-empty section stays empty.
pub open spec fn files_section_v(t: Seq<(String, DocValue)>) -> Result<Seq<FileV>, ErrV> {
    match lookupv(t, "files"@) {
        None => Ok(default_files_v()),
        Some(v) => match v {
            DocValue::Array(a) => parse_files_v(a@),
            _ => Err(ErrV::BadType { field: "files"@ }),
        },
    }
}

/// The `steward` section of the top-level table: absent, or a text scalar
/// that the URL parser accepts.
pub open spec fn steward_section_v(t: Seq<(String, DocValue)>) -> Result<Option<Seq<char>>, ErrV> {
    match lookupv(t, "steward"@) {
        None => Ok(None),
        Some(v) => match v {
            DocValue::Str(s) => if url_accepts(s@) {
                Ok(Some(s@))
            } else {
                Err(ErrV::BadUrl { value: s@ })
            },
            _ => Err(ErrV::BadType { field: "steward"@ }),
        },
    }
}

/// A whole configuration from a document value: a table whose sections are
/// merged with the documented defaults, in the order env, args, files,
/// steward.
pub open spec fn parse_config_v(v: DocValue) -> Result<ConfigV, ErrV> {
    match v {
        DocValue::Table(t) => match env_section_v(t@) {
            Err(e) => Err(e),
            Ok(env) => match args_section_v(t@) {
                Err(e) => Err(e),
                Ok(args) => match files_section_v(t@) {
                    Err(e) => Err(e),
                    Ok(files) => match steward_section_v(t@) {
                        Err(e) => Err(e),
                        Ok(steward) => Ok(ConfigV { env, args, files, steward }),
                    },
                },
            },
        },
        _ => Err(ErrV::Syntax),
    }
}

/// Read the optional `name` field of a descriptor table.
fn get_opt_name(t: &Vec<(String, DocValue)>) -> (r: Result<Option<FileName>, ConfigError>)
    ensures
        r matches Ok(n) ==> opt_name_v(t@) == Ok::<Option<Seq<char>>, ErrV>(opt_name_view(n)),
        r matches Err(e) ==> opt_name_v(t@) == Err::<Option<Seq<char>>, ErrV>(e@),
{
    match table_get(t, "name") {
        None => Ok(None),
        Some(v) => match v {
            DocValue::Str(s) => match FileName::from_untrusted(s.clone()) {
                Ok(n) => Ok(Some(n)),
                Err(e) => Err(e),
            },
            _ => Err(ConfigError::BadType { field: "name".to_owned() }),
        },
    }
}

/// Read the required `name` field of a `listen` table.
fn get_req_name(t: &Vec<(String, DocValue)>) -> (r: Result<FileName, ConfigError>)
    ensures
        r matches Ok(n) ==> req_name_v(t@) == Ok::<Seq<char>, ErrV>(n@),
        r matches Err(e) ==> req_name_v(t@) == Err::<Seq<char>, ErrV>(e@),
{
    match table_get(t, "name") {
        None => Err(ConfigError::Missing { field: "name".to_owned() }),
        Some(v) => match v {
            DocValue::Str(s) => FileName::from_untrusted(s.clone()),
            _ => Err(ConfigError::BadType { field: "name".to_owned() }),
        },
    }
}

/// Read the `addr` field of a `listen` table, applying its default.
fn get_addr(t: &Vec<(String, DocValue)>) -> (r: Result<String, ConfigError>)
    ensures
        r matches Ok(a) ==> addr_v(t@) == Ok::<Seq<char>, ErrV>(a@),
        r matches Err(e) ==> addr_v(t@) == Err::<Seq<char>, ErrV>(e@),
{
    match table_get(t, "addr") {
        None => Ok(crate::config::default_addr()),
        Some(v) => match v {
            DocValue::Str(s) => Ok(s.clone()),
            _ => Err(ConfigError::BadType { field: "addr".to_owned() }),
        },
    }
}

/// Read the required `host` field of a `connect` table.
fn get_host(t: &Vec<(String, DocValue)>) -> (r: Result<String, ConfigError>)
    ensures
        r matches Ok(h) ==> host_v(t@) == Ok::<Seq<char>, ErrV>(h@),
        r matches Err(e) ==> host_v(t@) == Err::<Seq<char>, ErrV>(e@),
{
    match table_get(t, "host") {
        None => Err(ConfigError::Missing { field: "host".to_owned() }),
        Some(v) => match v {
            DocValue::Str(s) => Ok(s.clone()),
            _ => Err(ConfigError::BadType { field: "host".to_owned() }),
        },
    }
}

/// Read the `port` field of a network table, applying its default.
fn get_port(t: &Vec<(String, DocValue)>) -> (r: Result<u16, ConfigError>)
    ensures
        r matches Ok(p) ==> port_v(t@) == Ok::<u16, ErrV>(p),
        r matches Err(e) ==> port_v(t@) == Err::<u16, ErrV>(e@),
{
    match table_get(t, "port") {
        None => Ok(crate::config::default_port()),
        Some(v) => match v {
            DocValue::Int(i) => if 0 <= *i && *i <= 65535 {
                Ok(*i as u16)
            } else {
                Err(ConfigError::BadType { field: "port".to_owned() })
            },
            _ => Err(ConfigError::BadType { field: "port".to_owned() }),
        },
    }
}

/// Read the `prot` field of a network table, applying its default.
fn get_prot(t: &Vec<(String, DocValue)>) -> (r: Result<Protocol, ConfigError>)
    ensures
        r matches Ok(p) ==> prot_v(t@) == Ok::<Protocol, ErrV>(p),
        r matches Err(e) ==> prot_v(t@) == Err::<Protocol, ErrV>(e@),
{
    match table_get(t, "prot") {
        None => Ok(Protocol::Tls),
        Some(v) => match v {
            DocValue::Str(s) => if str_eq(s.as_str(), "tls") {
                Ok(Protocol::Tls)
            } else if str_eq(s.as_str(), "tcp") {
                Ok(Protocol::Tcp)
            } else {
                Err(ConfigError::BadType { field: "prot".to_owned() })
            },
            _ => Err(ConfigError::BadType { field: "prot".to_owned() }),
        },
    }
}

impl File {
    /// Build one descriptor from a document value, dispatching on the `kind`
    /// discriminator and applying each variant's defaults; the result is
    /// exactly what [`parse_file_v`] states.
    pub fn from_value(v: &DocValue) -> (r: Result<File, ConfigError>)
        ensures
            r matches Ok(f) ==> parse_file_v(*v) == Ok::<FileV, ErrV>(f@),
            r matches Err(e) ==> parse_file_v(*v) == Err::<FileV, ErrV>(e@),
    {
        match v {
            DocValue::Table(t) => match table_get(t, "kind") {
                None => Err(ConfigError::Missing { field: "kind".to_owned() }),
                Some(kv) => match kv {
                    DocValue::Str(k) => if str_eq(k.as_str(), "null") {
                        match get_opt_name(t) {
                            Ok(n) => Ok(File::Null { name: n }),
                            Err(e) => Err(e),
                        }
                    } else if str_eq(k.as_str(), "stdin") {
                        match get_opt_name(t) {
                            Ok(n) => Ok(File::Stdin { name: n }),
                            Err(e) => Err(e),
                        }
                    } else if str_eq(k.as_str(), "stdout") {
                        match get_opt_name(t) {
                            Ok(n) => Ok(File::Stdout { name: n }),
                            Err(e) => Err(e),
                        }
                    } else if str_eq(k.as_str(), "stderr") {
                        match get_opt_name(t) {
                            Ok(n) => Ok(File::Stderr { name: n }),
                            Err(e) => Err(e),
                        }
                    } else if str_eq(k.as_str(), "listen") {
                        let name = match get_req_name(t) {
                            Ok(n) => n,
                            Err(e) => return Err(e),
                        };
                        let addr = match get_addr(t) {
                            Ok(a) => a,
                            Err(e) => return Err(e),
                        };
                        let port = match get_port(t) {
                            Ok(p) => p,
                            Err(e) => return Err(e),
                        };
                        let prot = match get_prot(t) {
                            Ok(p) => p,
                            Err(e) => return Err(e),
                        };
                        Ok(File::Listen { name, addr, port, prot })
                    } else if str_eq(k.as_str(), "connect") {
                        let name = match get_opt_name(t) {
                            Ok(n) => n,
                            Err(e) => return Err(e),
                        };
                        let host = match get_host(t) {
                            Ok(h) => h,
                            Err(e) => return Err(e),
                        };
                        let port = match get_port(t) {
                            Ok(p) => p,
                            Err(e) => return Err(e),
                        };
                        let prot = match get_prot(t) {
                            Ok(p) => p,
                            Err(e) => return Err(e),
                        };
                        Ok(File::Connect { name, host, port, prot })
                    } else {
                        Err(ConfigError::UnknownKind { kind: k.clone() })
                    },
                    _ => Err(ConfigError::BadType { field: "kind".to_owned() }),
                },
            },
            _ => Err(ConfigError::Syntax),
        }
    }
}

/// Once a prefix of an `env` table is refused, the whole table is, with the
/// same error.
proof fn lemma_env_entries_err(e: Seq<(String, DocValue)>, i: int)
    requires
        0 <= i <= e.len(),
        env_entries_v(e.take(i)) is Err,
    ensures
        env_entries_v(e) == env_entries_v(e.take(i)),
    decreases e.len() - i,
{
    if i < e.len() {
        assert(e.take(i + 1).drop_last() =~= e.take(i));
        lemma_env_entries_err(e, i + 1);
    } else {
        assert(e.take(i) =~= e);
    }
}

/// Once a prefix of an `args` array is refused, the whole array is, with the
/// same error.
proof fn lemma_args_err(a: Seq<DocValue>, i: int)
    requires
        0 <= i <= a.len(),
        args_v(a.take(i)) is Err,
    ensures
        args_v(a) == args_v(a.take(i)),
    decreases a.len() - i,
{
    if i < a.len() {
        assert(a.take(i + 1).drop_last() =~= a.take(i));
        lemma_args_err(a, i + 1);
    } else {
        assert(a.take(i) =~= a);
    }
}

/// Once a prefix of a `files` array is refused, the whole array is, with the
/// same error.
proof fn lemma_files_err(a: Seq<DocValue>, i: int)
    requires
        0 <= i <= a.len(),
        parse_files_v(a.take(i)) is Err,
    ensures
        parse_files_v(a) == parse_files_v(a.take(i)),
    decreases a.len() - i,
{
    if i < a.len() {
        assert(a.take(i + 1).drop_last() =~= a.take(i));
        lemma_files_err(a, i + 1);
    } else {
        assert(a.take(i) =~= a);
    }
}

/// Read the entries of an `env` table, in order.
fn env_entries(e: &Vec<(String, DocValue)>) -> (r: Result<Vec<(String, String)>, ConfigError>)
    ensures
        r matches Ok(out) ==> env_entries_v(e@) == Ok::<Seq<(Seq<char>, Seq<char>)>, ErrV>(
            env_view(out@),
        ),
        r matches Err(err) ==> env_entries_v(e@) == Err::<Seq<(Seq<char>, Seq<char>)>, ErrV>(
            err@,
        ),
{
    let mut out: Vec<(String, String)> = Vec::new();
    let mut i: usize = 0;
    proof {
        assert(env_view(out@) =~= Seq::<(Seq<char>, Seq<char>)>::empty());
        assert(e@.take(0) =~= Seq::<(String, DocValue)>::empty());
    }
    while i < e.len()
        invariant
            0 <= i <= e@.len(),
            env_entries_v(e@.take(i as int)) == Ok::<Seq<(Seq<char>, Seq<char>)>, ErrV>(
                env_view(out@),
            ),
        decreases e@.len() - i,
    {
        let ghost prev = out@;
        let pair = &e[i];
        proof {
            assert(e@.take(i as int + 1).drop_last() =~= e@.take(i as int));
            assert(e@.take(i as int + 1).last() == e@[i as int]);
        }
        match &pair.1 {
            DocValue::Str(s) => {
                out.push((pair.0.clone(), s.clone()));
                proof {
                    assert(env_view(out@) =~= env_view(prev).push((pair.0@, s@)));
                }
            },
            _ => {
                proof {
                    lemma_env_entries_err(e@, i as int + 1);
                }
                return Err(ConfigError::BadType { field: "env".to_owned() });
            },
        }
        i += 1;
    }
    proof {
        assert(e@.take(e@.len() as int) =~= e@);
    }
    Ok(out)
}

/// Read the entries of an `args` array, in order.
fn args_entries(a: &Vec<DocValue>) -> (r: Result<Vec<String>, ConfigError>)
    ensures
        r matches Ok(out) ==> args_v(a@) == Ok::<Seq<Seq<char>>, ErrV>(args_view(out@)),
        r matches Err(err) ==> args_v(a@) == Err::<Seq<Seq<char>>, ErrV>(err@),
{
    let mut out: Vec<String> = Vec::new();
    let mut i: usize = 0;
    proof {
        assert(args_view(out@) =~= Seq::<Seq<char>>::empty());
        assert(a@.take(0) =~= Seq::<DocValue>::empty());
    }
    while i < a.len()
        invariant
            0 <= i <= a@.len(),
            args_v(a@.take(i as int)) == Ok::<Seq<Seq<char>>, ErrV>(args_view(out@)),
        decreases a@.len() - i,
    {
        let ghost prev = out@;
        proof {
            assert(a@.take(i as int + 1).drop_last() =~= a@.take(i as int));
            assert(a@.take(i as int + 1).last() == a@[i as int]);
        }
        match &a[i] {
            DocValue::Str(s) => {
                out.push(s.clone());
                proof {
                    assert(args_view(out@) =~= args_view(prev).push(s@));
                }
            },
            _ => {
                proof {
                    lemma_args_err(a@, i as int + 1);
                }
                return Err(ConfigError::BadType { field: "args".to_owned() });
            },
        }
        i += 1;
    }
    proof {
        assert(a@.take(a@.len() as int) =~= a@);
    }
    Ok(out)
}

/// Read the entries of a `files` array, in order.
fn files_entries(a: &Vec<DocValue>) -> (r: Result<Vec<File>, ConfigError>)
    ensures
        r matches Ok(out) ==> parse_files_v(a@) == Ok::<Seq<FileV>, ErrV>(files_view(out@)),
        r matches Err(err) ==> parse_files_v(a@) == Err::<Seq<FileV>, ErrV>(err@),
{
    let mut out: Vec<File> = Vec::new();
    let mut i: usize = 0;
    proof {
        assert(files_view(out@) =~= Seq::<FileV>::empty());
        assert(a@.take(0) =~= Seq::<DocValue>::empty());
    }
    while i < a.len()
        invariant
            0 <= i <= a@.len(),
            parse_files_v(a@.take(i as int)) == Ok::<Seq<FileV>, ErrV>(files_view(out@)),
        decreases a@.len() - i,
    {
        let ghost prev = out@;
        proof {
            assert(a@.take(i as int + 1).drop_last() =~= a@.take(i as int));
            assert(a@.take(i as int + 1).last() == a@[i as int]);
        }
        match File::from_value(&a[i]) {
            Ok(f) => {
                out.push(f);
                proof {
                    assert(files_view(out@) =~= files_view(prev).push(out@.last()@));
                }
            },
            Err(err) => {
                proof {
                    lemma_files_err(a@, i as int + 1);
                }
                return Err(err);
            },
        }
        i += 1;
    }
    proof {
        assert(a@.take(a@.len() as int) =~= a@);
    }
    Ok(out)
}

/// Read the `env` section of the top-level table.
fn get_env(t: &Vec<(String, DocValue)>) -> (r: Result<Vec<(String, String)>, ConfigError>)
    ensures
        r matches Ok(out) ==> env_section_v(t@) == Ok::<Seq<(Seq<char>, Seq<char>)>, ErrV>(
            env_view(out@),
        ),
        r matches Err(err) ==> env_section_v(t@) == Err::<Seq<(Seq<char>, Seq<char>)>, ErrV>(
            err@,
        ),
{
    match table_get(t, "env") {
        None => {
            let out: Vec<(String, String)> = Vec::new();
            proof {
                assert(env_view(out@) =~= Seq::<(Seq<char>, Seq<char>)>::empty());
            }
            Ok(out)
        },
        Some(v) => match v {
            DocValue::Table(e) => env_entries(e),
            _ => Err(ConfigError::BadType { field: "env".to_owned() }),
        },
    }
}

/// Read the `args` section of the top-level table.
fn get_args(t: &Vec<(String, DocValue)>) -> (r: Result<Vec<String>, ConfigError>)
    ensures
        r matches Ok(out) ==> args_section_v(t@) == Ok::<Seq<Seq<char>>, ErrV>(args_view(out@)),
        r matches Err(err) ==> args_section_v(t@) == Err::<Seq<Seq<char>>, ErrV>(err@),
{
    match table_get(t, "args") {
        None => {
            let out: Vec<String> = Vec::new();
            proof {
                assert(args_view(out@) =~= Seq::<Seq<char>>::empty());
            }
            Ok(out)
        },
        Some(v) => match v {
            DocValue::Array(a) => args_entries(a),
            _ => Err(ConfigError::BadType { field: "args".to_owned() }),
        },
    }
}

/// Read the `files` section of the top-level table, applying the
/// three-stream default only when the section is missing altogether.
fn get_files(t: &Vec<(String, DocValue)>) -> (r: Result<Vec<File>, ConfigError>)
    ensures
        r matches Ok(out) ==> files_section_v(t@) == Ok::<Seq<FileV>, ErrV>(files_view(out@)),
        r matches Err(err) ==> files_section_v(t@) == Err::<Seq<FileV>, ErrV>(err@),
{
    match table_get(t, "files") {
        None => {
            let mut out: Vec<File> = Vec::new();
            out.push(File::Stdin { name: None });
            out.push(File::Stdout { name: None });
            out.push(File::Stderr { name: None });
            proof {
                assert(files_view(out@) =~= default_files_v());
            }
            Ok(out)
        },
        Some(v) => match v {
            DocValue::Array(a) => files_entries(a),
            _ => Err(ConfigError::BadType { field: "files".to_owned() }),
        },
    }
}

/// Read the `steward` section of the top-level table.
fn get_steward(t: &Vec<(String, DocValue)>) -> (r: Result<Option<String>, ConfigError>)
    ensures
        r matches Ok(out) ==> steward_section_v(t@) == Ok::<Option<Seq<char>>, ErrV>(
            match out {
                Some(s) => Some(s@),
                None => None,
            },
        ),
        r matches Err(err) ==> steward_section_v(t@) == Err::<Option<Seq<char>>, ErrV>(err@),
{
    match table_get(t, "steward") {
        None => Ok(None),
        Some(v) => match v {
            DocValue::Str(s) => if is_url(s.as_str()) {
                Ok(Some(s.clone()))
            } else {
                Err(ConfigError::BadUrl { value: s.clone() })
            },
            _ => Err(ConfigError::BadType { field: "steward".to_owned() }),
        },
    }
}

impl EnarxConfig {
    /// Assemble a configuration from a document value, merging each optional
    /// section with its documented default; the result is exactly what
    /// [`parse_config_v`] states.
    pub fn from_value(v: &DocValue) -> (r: Result<EnarxConfig, ConfigError>)
        ensures
            r matches Ok(c) ==> parse_config_v(*v) == Ok::<ConfigV, ErrV>(c@),
            r matches Err(e) ==> parse_config_v(*v) == Err::<ConfigV, ErrV>(e@),
    {
        match v {
            DocValue::Table(t) => {
                let env = match get_env(t) {
                    Ok(e) => e,
                    Err(e) => return Err(e),
                };
                let args = match get_args(t) {
                    Ok(a) => a,
                    Err(e) => return Err(e),
                };
                let files = match get_files(t) {
                    Ok(f) => f,
                    Err(e) => return Err(e),
                };
                let steward = match get_steward(t) {
                    Ok(s) => s,
                    Err(e) => return Err(e),
                };
                Ok(EnarxConfig { env, args, files, steward })
            },
            _ => Err(ConfigError::Syntax),
        }
    }

    /// Parse a configuration document text: a syntax error where the text is
    /// not a well-formed document, and otherwise exactly what
    /// [`parse_config_v`] states of the parsed tree.
    pub fn from_toml(s: &str) -> (r: Result<EnarxConfig, ConfigError>)
        ensures
            toml_doc_of(s@) is None ==> (r matches Err(e) && e@ == ErrV::Syntax),
            toml_doc_of(s@) matches Some(d) ==> (r matches Ok(c) ==> parse_config_v(d)
                == Ok::<ConfigV, ErrV>(c@)),
            toml_doc_of(s@) matches Some(d) ==> (r matches Err(e) ==> parse_config_v(d)
                == Err::<ConfigV, ErrV>(e@)),
    {
        match load_toml(s) {
            None => Err(ConfigError::Syntax),
            Some(v) => EnarxConfig::from_value(&v),
        }
    }
}

/// The six kind labels are pairwise distinct.
pub(crate) proof fn lemma_kind_literals()
    ensures
        "null"@ != "stdin"@,
        "null"@ != "stdout"@,
        "null"@ != "stderr"@,
        "null"@ != "listen"@,
        "null"@ != "connect"@,
        "stdin"@ != "stdout"@,
        "stdin"@ != "stderr"@,
        "stdin"@ != "listen"@,
        "stdin"@ != "connect"@,
        "stdout"@ != "stderr"@,
        "stdout"@ != "listen"@,
        "stdout"@ != "connect"@,
        "stderr"@ != "listen"@,
        "stderr"@ != "connect"@,
        "listen"@ != "connect"@,
{
    reveal_strlit("null");
    reveal_strlit("stdin");
    reveal_strlit("stdout");
    reveal_strlit("stderr");
    reveal_strlit("listen");
    reveal_strlit("connect");
    assert("null"@.len() == 4);
    assert("stdin"@.len() == 5);
    assert("stdout"@.len() == 6);
    assert("stderr"@.len() == 6);
    assert("listen"@.len() == 6);
    assert("connect"@.len() == 7);
    assert("stdout"@[3] != "stderr"@[3]);
    assert("stdout"@[0] != "listen"@[0]);
    assert("stderr"@[0] != "listen"@[0]);
}

/// The field keys, and the two protocol labels, are pairwise distinct.
pub(crate) proof fn lemma_key_literals()
    ensures
        "kind"@ != "name"@,
        "kind"@ != "addr"@,
        "kind"@ != "port"@,
        "kind"@ != "prot"@,
        "kind"@ != "host"@,
        "name"@ != "addr"@,
        "name"@ != "port"@,
        "name"@ != "prot"@,
        "name"@ != "host"@,
        "addr"@ != "port"@,
        "addr"@ != "prot"@,
        "addr"@ != "host"@,
        "port"@ != "prot"@,
        "port"@ != "host"@,
        "prot"@ != "host"@,
        "tls"@ != "tcp"@,
{
    reveal_strlit("kind");
    reveal_strlit("name");
    reveal_strlit("addr");
    reveal_strlit("port");
    reveal_strlit("prot");
    reveal_strlit("host");
    reveal_strlit("tls");
    reveal_strlit("tcp");
    assert("kind"@.len() == 4);
    assert("name"@.len() == 4);
    assert("addr"@.len() == 4);
    assert("port"@.len() == 4);
    assert("prot"@.len() == 4);
    assert("host"@.len() == 4);
    assert("kind"@[0] != "name"@[0]);
    assert("kind"@[0] != "addr"@[0]);
    assert("kind"@[0] != "port"@[0]);
    assert("kind"@[0] != "prot"@[0]);
    assert("kind"@[0] != "host"@[0]);
    assert("name"@[0] != "addr"@[0]);
    assert("name"@[0] != "port"@[0]);
    assert("name"@[0] != "prot"@[0]);
    assert("name"@[0] != "host"@[0]);
    assert("addr"@[0] != "port"@[0]);
    assert("addr"@[0] != "prot"@[0]);
    assert("addr"@[0] != "host"@[0]);
    assert("port"@[2] != "prot"@[2]);
    assert("port"@[0] != "host"@[0]);
    assert("prot"@[0] != "host"@[0]);
    assert("tls"@[1] != "tcp"@[1]);
}
/// A `listen` entry without an explicit `name` never parses: this variant
/// has no name fallback.
pub proof fn lemma_listen_needs_name(t: Vec<(String, DocValue)>, k: String)
    requires
        lookupv(t@, "kind"@) == Some(DocValue::Str(k)),
        k@ == "listen"@,
        lookupv(t@, "name"@) is None,
    ensures
        parse_file_v(DocValue::Table(t)) == Err::<FileV, ErrV>(ErrV::Missing { field: "name"@ }),
{
    lemma_kind_literals();
}

/// A document whose top-level table has no `files` key at all parses, when
/// it parses, to the three-stream default descriptor set.
pub proof fn lemma_missing_files_default(t: Vec<(String, DocValue)>, c: ConfigV)
    requires
        lookupv(t@, "files"@) is None,
        parse_config_v(DocValue::Table(t)) == Ok::<ConfigV, ErrV>(c),
    ensures
        c.files == default_files_v(),
{
}

/// A `files` section that is present but empty yields no descriptors: the
/// default set applies only when the section is missing altogether.
pub proof fn lemma_empty_files_kept(t: Vec<(String, DocValue)>, a: Vec<DocValue>, c: ConfigV)
    requires
        lookupv(t@, "files"@) == Some(DocValue::Array(a)),
        a@.len() == 0,
        parse_config_v(DocValue::Table(t)) == Ok::<ConfigV, ErrV>(c),
    ensures
        c.files.len() == 0,
{
}

} // verus!

