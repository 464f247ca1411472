//! Rendering a configuration back into a document tree, with the guarantee
//! that a well-formed configuration parses back to itself.

use vstd::prelude::*;

use crate::config::{
    file_wf, name_ok, opt_name_view, ConfigV, EnarxConfig, File, FileName, FileV, Protocol,
};
use crate::error::ErrV;
use crate::parse::{
    addr_v, args_section_v, args_v, env_entries_v, env_section_v, files_section_v, host_v, is_url,
    lemma_key_literals, lemma_kind_literals, opt_name_v, parse_config_v, parse_file_v,
    parse_files_v, port_v, prot_v, req_name_v, steward_section_v, url_accepts,
};
use crate::value::{lemma_lookup_at, lemma_lookup_none, lookupv, DocValue};

verus! {

/// A configuration is well formed when every descriptor name it carries is
/// acceptable and the endpoint, if any, is a URL the parser accepts.
pub open spec fn config_wf(c: ConfigV) -> bool {
    &&& forall|i: int| 0 <= i < c.files.len() ==> file_wf(#[trigger] c.files[i])
    &&& (c.steward matches Some(s) ==> url_accepts(s))
}


/// The document label of a protocol.
fn prot_label(p: &Protocol) -> (r: String)
    ensures
        *p == Protocol::Tls ==> r@ == "tls"@,
        *p == Protocol::Tcp ==> r@ == "tcp"@,
{
    match p {
        Protocol::Tls => "tls".to_owned(),
        Protocol::Tcp => "tcp".to_owned(),
    }
}

/// Build the table of a console or null descriptor: its kind label, and the
/// explicit name where one is present.
fn simple_table(kind: &str, name: &Option<FileName>) -> (t: Vec<(String, DocValue)>)
    ensures
        (lookupv(t@, "kind"@) matches Some(v) && v matches DocValue::Str(k) && k@ == kind@),
        (opt_name_view(*name) matches Some(s) ==> name_ok(s)) ==> opt_name_v(t@)
            == Ok::<Option<Seq<char>>, ErrV>(opt_name_view(*name)),
{
    let mut t: Vec<(String, DocValue)> = Vec::new();
    t.push(("kind".to_owned(), DocValue::Str(kind.to_owned())));
    match name {
        Some(n) => {
            t.push(("name".to_owned(), DocValue::Str(n.as_str().to_owned())));
            proof {
                lemma_key_literals();
                assert(t@[0].0@ == "kind"@);
                assert(t@[1].0@ == "name"@);
                lemma_lookup_at(t@, "kind"@, 0);
                lemma_lookup_at(t@, "name"@, 1);
            }
        },
        None => {
            proof {
                lemma_key_literals();
                assert(t@[0].0@ == "kind"@);
                lemma_lookup_at(t@, "kind"@, 0);
                lemma_lookup_none(t@, "name"@);
            }
        },
    }
    t
}

impl File {
    /// Render this descriptor back into a document table. Where every name
    /// it carries is acceptable, parsing the table yields the descriptor
    /// back unchanged.
    pub fn to_value(&self) -> (r: DocValue)
        ensures
            file_wf(self@) ==> parse_file_v(r) == Ok::<FileV, ErrV>(self@),
    {
        match self {
            File::Null { name } => {
                let t = simple_table("null", name);
                proof {
                    lemma_kind_literals();
                    assert(file_wf(self@) ==> parse_file_v(DocValue::Table(t)) == Ok::<
                        FileV,
                        ErrV,
                    >(self@));
                }
                DocValue::Table(t)
            },
            File::Stdin { name } => {
                let t = simple_table("stdin", name);
                proof {
                    lemma_kind_literals();
                    assert(file_wf(self@) ==> parse_file_v(DocValue::Table(t)) == Ok::<
                        FileV,
                        ErrV,
                    >(self@));
                }
                DocValue::Table(t)
            },
            File::Stdout { name } => {
                let t = simple_table("stdout", name);
                proof {
                    lemma_kind_literals();
                    assert(file_wf(self@) ==> parse_file_v(DocValue::Table(t)) == Ok::<
                        FileV,
                        ErrV,
                    >(self@));
                }
                DocValue::Table(t)
            },
            File::Stderr { name } => {
                let t = simple_table("stderr", name);
                proof {
                    lemma_kind_literals();
                    assert(file_wf(self@) ==> parse_file_v(DocValue::Table(t)) == Ok::<
                        FileV,
                        ErrV,
                    >(self@));
                }
                DocValue::Table(t)
            },
            File::Listen { name, addr, port, prot } => {
                let mut t: Vec<(String, DocValue)> = Vec::new();
                t.push(("kind".to_owned(), DocValue::Str("listen".to_owned())));
                t.push(("name".to_owned(), DocValue::Str(name.as_str().to_owned())));
                t.push(("addr".to_owned(), DocValue::Str(addr.clone())));
                t.push(("port".to_owned(), DocValue::Int(*port as i64)));
                t.push(("prot".to_owned(), DocValue::Str(prot_label(prot))));
                proof {
                    lemma_kind_literals();
                    lemma_key_literals();
                    assert(t@[0].0@ == "kind"@);
                    assert(t@[1].0@ == "name"@);
                    assert(t@[2].0@ == "addr"@);
                    assert(t@[3].0@ == "port"@);
                    assert(t@[4].0@ == "prot"@);
                    lemma_lookup_at(t@, "kind"@, 0);
                    lemma_lookup_at(t@, "name"@, 1);
                    lemma_lookup_at(t@, "addr"@, 2);
                    lemma_lookup_at(t@, "port"@, 3);
                    lemma_lookup_at(t@, "prot"@, 4);
                    assert(((*port as i64) as u16) == *port);
                    if file_wf(self@) {
                        assert(req_name_v(t@) == Ok::<Seq<char>, ErrV>(name@));
                        assert(addr_v(t@) == Ok::<Seq<char>, ErrV>(addr@));
                        assert(port_v(t@) == Ok::<u16, ErrV>(*port));
                        assert(prot_v(t@) == Ok::<Protocol, ErrV>(*prot));
                        assert(parse_file_v(DocValue::Table(t)) == Ok::<FileV, ErrV>(self@));
                    }
                }
                DocValue::Table(t)
            },
            File::Connect { name, host, port, prot } => {
                let mut t: Vec<(String, DocValue)> = Vec::new();
                t.push(("kind".to_owned(), DocValue::Str("connect".to_owned())));
                t.push(("host".to_owned(), DocValue::Str(host.clone())));
                t.push(("port".to_owned(), DocValue::Int(*port as i64)));
                t.push(("prot".to_owned(), DocValue::Str(prot_label(prot))));
                match name {
                    Some(n) => {
                        t.push(("name".to_owned(), DocValue::Str(n.as_str().to_owned())));
                        proof {
                            lemma_key_literals();
                            assert(t@[4].0@ == "name"@);
                            lemma_lookup_at(t@, "name"@, 4);
                        }
                    },
                    None => {
                        proof {
                            lemma_key_literals();
                            lemma_lookup_none(t@, "name"@);
                        }
                    },
                }
                proof {
                    lemma_kind_literals();
                    lemma_key_literals();
                    assert(t@[0].0@ == "kind"@);
                    assert(t@[1].0@ == "host"@);
                    assert(t@[2].0@ == "port"@);
                    assert(t@[3].0@ == "prot"@);
                    lemma_lookup_at(t@, "kind"@, 0);
                    lemma_lookup_at(t@, "host"@, 1);
                    lemma_lookup_at(t@, "port"@, 2);
                    lemma_lookup_at(t@, "prot"@, 3);
                    assert(((*port as i64) as u16) == *port);
                    if file_wf(self@) {
                        assert(opt_name_v(t@) == Ok::<Option<Seq<char>>, ErrV>(
                            opt_name_view(*name),
                        ));
                        assert(host_v(t@) == Ok::<Seq<char>, ErrV>(host@));
                        assert(port_v(t@) == Ok::<u16, ErrV>(*port));
                        assert(prot_v(t@) == Ok::<Protocol, ErrV>(*prot));
                        assert(parse_file_v(DocValue::Table(t)) == Ok::<FileV, ErrV>(self@));
                    }
                }
                DocValue::Table(t)
            },
        }
    }
}

impl EnarxConfig {
    /// Whether every descriptor name is acceptable and the endpoint, if any,
    /// is a URL the parser accepts: the condition under which a rendered
    /// configuration parses back to itself.
    pub fn is_wf(&self) -> (r: bool)
        ensures
            r == config_wf(self@),
    {
        let mut i: usize = 0;
        while i < self.files.len()
            invariant
                0 <= i <= self.files@.len(),
                forall|j: int| 0 <= j < i ==> file_wf(#[trigger] self@.files[j]),
            decreases self.files@.len() - i,
        {
            if !self.files[i].is_wf() {
                proof {
                    assert(!file_wf(self@.files[i as int]));
                }
                return false;
            }
            i += 1;
        }
        match &self.steward {
            Some(s) => is_url(s.as_str()),
            None => true,
        }
    }

    /// Render this configuration back into a document tree. Where the
    /// configuration is well formed, parsing the tree yields an equal
    /// configuration: rendering and re-parsing is the identity.
    pub fn to_value(&self) -> (r: DocValue)
        ensures
            config_wf(self@) ==> parse_config_v(r) == Ok::<ConfigV, ErrV>(self@),
    {
        let mut envt: Vec<(String, DocValue)> = Vec::new();
        let mut i: usize = 0;
        proof {
            assert(self@.env.take(0) =~= Seq::<(Seq<char>, Seq<char>)>::empty());
        }
        while i < self.env.len()
            invariant
                0 <= i <= self.env@.len(),
                env_entries_v(envt@) == Ok::<Seq<(Seq<char>, Seq<char>)>, ErrV>(
                    self@.env.take(i as int),
                ),
            decreases self.env@.len() - i,
        {
            let ghost prev = envt@;
            let pair = &self.env[i];
            envt.push((pair.0.clone(), DocValue::Str(pair.1.clone())));
            proof {
                assert(envt@.drop_last() =~= prev);
                assert(self@.env.take(i as int + 1) =~= self@.env.take(i as int).push(
                    (pair.0@, pair.1@),
                ));
            }
            i += 1;
        }
        proof {
            assert(self@.env.take(self.env@.len() as int) =~= self@.env);
        }
        let mut argv: Vec<DocValue> = Vec::new();
        let mut j: usize = 0;
        proof {
            assert(self@.args.take(0) =~= Seq::<Seq<char>>::empty());
        }
        while j < self.args.len()
            invariant
                0 <= j <= self.args@.len(),
                args_v(argv@) == Ok::<Seq<Seq<char>>, ErrV>(self@.args.take(j as int)),
            decreases self.args@.len() - j,
        {
            let ghost prev = argv@;
            argv.push(DocValue::Str(self.args[j].clone()));
            proof {
                assert(argv@.drop_last() =~= prev);
                assert(self@.args.take(j as int + 1) =~= self@.args.take(j as int).push(
                    self.args@[j as int]@,
                ));
            }
            j += 1;
        }
        proof {
            assert(self@.args.take(self.args@.len() as int) =~= self@.args);
        }
        let mut filv: Vec<DocValue> = Vec::new();
        let mut m: usize = 0;
        proof {
            assert(self@.files.take(0) =~= Seq::<FileV>::empty());
        }
        while m < self.files.len()
            invariant
                0 <= m <= self.files@.len(),
                config_wf(self@) ==> parse_files_v(filv@) == Ok::<Seq<FileV>, ErrV>(
                    self@.files.take(m as int),
                ),
            decreases self.files@.len() - m,
        {
            let ghost prev = filv@;
            let fv = self.files[m].to_value();
            filv.push(fv);
            proof {
                assert(filv@.drop_last() =~= prev);
                if config_wf(self@) {
                    assert(file_wf(self@.files[m as int]));
                    assert(self@.files.take(m as int + 1) =~= self@.files.take(m as int).push(
                        self@.files[m as int],
                    ));
                }
            }
            m += 1;
        }
        proof {
            assert(self@.files.take(self.files@.len() as int) =~= self@.files);
        }
        let ghost envt_v = envt@;
        let ghost argv_v = argv@;
        let ghost filv_v = filv@;
        let mut top: Vec<(String, DocValue)> = Vec::new();
        top.push(("env".to_owned(), DocValue::Table(envt)));
        top.push(("args".to_owned(), DocValue::Array(argv)));
        top.push(("files".to_owned(), DocValue::Array(filv)));
        match &self.steward {
            Some(s) => {
                top.push(("steward".to_owned(), DocValue::Str(s.clone())));
                proof {
                    reveal_strlit("env");
                    reveal_strlit("args");
                    reveal_strlit("files");
                    reveal_strlit("steward");
                    assert(top@[0].0@ == "env"@);
                    assert(top@[1].0@ == "args"@);
                    assert(top@[2].0@ == "files"@);
                    assert(top@[3].0@ == "steward"@);
                    lemma_lookup_at(top@, "steward"@, 3);
                }
            },
            None => {
                proof {
                    reveal_strlit("env");
                    reveal_strlit("args");
                    reveal_strlit("files");
                    reveal_strlit("steward");
                    assert(top@[0].0@ == "env"@);
                    assert(top@[1].0@ == "args"@);
                    assert(top@[2].0@ == "files"@);
                    lemma_lookup_none(top@, "steward"@);
                }
            },
        }
        proof {
            reveal_strlit("env");
            reveal_strlit("args");
            reveal_strlit("files");
            reveal_strlit("steward");
            assert(top@[0].0@ == "env"@);
            assert(top@[1].0@ == "args"@);
            assert(top@[2].0@ == "files"@);
            lemma_lookup_at(top@, "env"@, 0);
            lemma_lookup_at(top@, "args"@, 1);
            lemma_lookup_at(top@, "files"@, 2);
            if config_wf(self@) {
                assert(env_section_v(top@) == Ok::<Seq<(Seq<char>, Seq<char>)>, ErrV>(
                    self@.env,
                ));
                assert(args_section_v(top@) == Ok::<Seq<Seq<char>>, ErrV>(self@.args));
                assert(files_section_v(top@) == Ok::<Seq<FileV>, ErrV>(self@.files));
                assert(steward_section_v(top@) == Ok::<Option<Seq<char>>, ErrV>(
                    self@.steward,
                ));
                assert(parse_config_v(DocValue::Table(top)) == Ok::<ConfigV, ErrV>(self@));
            }
        }
        DocValue::Table(top)
    }
}

} // verus!
