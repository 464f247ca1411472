//! The document tree a configuration text parses to, and lookup over its
//! tables.

use vstd::prelude::*;
use vstd::string::StrSliceExecFns;

verus! {

/// A structured document tree: the subset of a parsed configuration text
/// that the schema reads. Scalar kinds the schema never consumes (dates,
/// non-integer numbers) appear as `Other`.
#[derive(Debug, PartialEq, Eq)]
pub enum DocValue {
    /// A text scalar.
    Str(String),
    /// An integer scalar.
    Int(i64),
    /// A boolean scalar.
    Bool(bool),
    /// An ordered sequence of values.
    Array(Vec<DocValue>),
    /// An ordered table of key/value entries; a parsed document never
    /// repeats a key within one table.
    Table(Vec<(String, DocValue)>),
    /// A scalar of a kind the schema does not read.
    Other,
}

/// The first value bound to `key` among a table's entries, if any.
pub open spec fn lookupv(t: Seq<(String, DocValue)>, key: Seq<char>) -> Option<DocValue>
    decreases t.len(),
{
    if t.len() == 0 {
        None
    } else if t[0].0@ == key {
        Some(t[0].1)
    } else {
        lookupv(t.drop_first(), key)
    }
}

/// Looking a key up finds the entry at the first position holding it.
pub proof fn lemma_lookup_at(t: Seq<(String, DocValue)>, key: Seq<char>, i: int)
    requires
        0 <= i < t.len(),
        t[i].0@ == key,
        forall|j: int| 0 <= j < i ==> (#[trigger] t[j].0)@ != key,
    ensures
        lookupv(t, key) == Some(t[i].1),
    decreases i,
{
    if i == 0 {
    } else {
        assert(t[0].0@ != key);
        assert forall|j: int| 0 <= j < i - 1 implies (#[trigger] t.drop_first()[j].0)@ != key by {
            assert(t.drop_first()[j] == t[j + 1]);
        }
        assert(t.drop_first()[i - 1] == t[i]);
        lemma_lookup_at(t.drop_first(), key, i - 1);
    }
}

/// Looking a key up that no entry holds finds nothing.
pub proof fn lemma_lookup_none(t: Seq<(String, DocValue)>, key: Seq<char>)
    requires
        forall|j: int| 0 <= j < t.len() ==> (#[trigger] t[j].0)@ != key,
    ensures
        lookupv(t, key) is None,
    decreases t.len(),
{
    if t.len() > 0 {
        assert(t[0].0@ != key);
        assert forall|j: int| 0 <= j < t.drop_first().len() implies (#[trigger] t.drop_first()[
            j
        ].0)@ != key by {
            assert(t.drop_first()[j] == t[j + 1]);
        }
        lemma_lookup_none(t.drop_first(), key);
    }
}

/// Whether two string slices hold the same characters.
pub fn str_eq(a: &str, b: &str) -> (r: bool)
    ensures
        r == (a@ == b@),
{
    let an: usize = a.unicode_len();
    let bn: usize = b.unicode_len();
    if an != bn {
        return false;
    }
    let mut i: usize = 0;
    while i < an
        invariant
            an == a@.len(),
            an == b@.len(),
            0 <= i <= an,
            forall|j: int| 0 <= j < i ==> a@[j] == b@[j],
        decreases an - i,
    {
        if a.get_char(i) != b.get_char(i) {
            return false;
        }
        i += 1;
    }
    proof {
        assert(a@ =~= b@);
    }
    true
}

/// Look `key` up in a table's entries, returning the first match.
pub fn table_get<'a>(t: &'a Vec<(String, DocValue)>, key: &str) -> (r: Option<&'a DocValue>)
    ensures
        match r {
            Some(v) => lookupv(t@, key@) == Some(*v),
            None => lookupv(t@, key@) is None,
        },
{
    let mut i: usize = 0;
    while i < t.len()
        invariant
            0 <= i <= t@.len(),
            forall|j: int| 0 <= j < i ==> (#[trigger] t@[j].0)@ != key@,
        decreases t@.len() - i,
    {
        if str_eq(t[i].0.as_str(), key) {
            proof {
                lemma_lookup_at(t@, key@, i as int);
            }
            return Some(&t[i].1);
        }
        i += 1;
    }
    proof {
        lemma_lookup_none(t@, key@);
    }
    None
}

#[verifier::external_type_specification]
#[verifier::external_body]
/// Declaration of the outside parser's generic document value.
pub struct ExTomlValue(toml::Value);

/// The document tree that a configuration text parses to, or `None` where
/// the text is not a well-formed document. The outcome depends on the text
/// alone.
pub uninterp spec fn toml_doc_of(s: Seq<char>) -> Option<DocValue>;

/// Carries a parsed `toml::Value` over into the schema's own tree, one node
/// for one node; the converting half of `load_toml`, reached only from its
/// body.
#[verifier::external_body]
fn lift_value(v: toml::Value) -> DocValue {
    match v {
        toml::Value::String(s) => DocValue::Str(s),
        toml::Value::Integer(i) => DocValue::Int(i),
        toml::Value::Boolean(b) => DocValue::Bool(b),
        toml::Value::Array(a) => DocValue::Array(a.into_iter().map(lift_value).collect()),
        toml::Value::Table(t) => DocValue::Table(
            t.into_iter().map(|(k, w)| (k, lift_value(w))).collect(),
        ),
        _ => DocValue::Other,
    }
}

/// Relies on `toml::from_str` for `toml::Value`: parses a document text into
/// a generic value tree, with an outcome that depends on the text alone.
#[verifier::external_body]
pub(crate) fn load_toml(s: &str) -> (r: Option<DocValue>)
    ensures
        r == toml_doc_of(s@),
{
    match toml::from_str::<toml::Value>(s) {
        Ok(v) => Some(lift_value(v)),
        Err(_) => None,
    }
}

} // verus!
