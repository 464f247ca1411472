//! Declarative configuration for a sandboxed application's pre-opened file
//! descriptors: console streams, null devices, and network sockets, each
//! carrying an externally visible name.
//!
//! A structured configuration text is parsed into a generic document tree,
//! then dispatched field by field into [`EnarxConfig`]: each `files` entry
//! into its [`File`] variant, with the documented defaults filled in and
//! every [`FileName`] validated. The consuming runtime resolves each entry's
//! external name with [`File::name`].

mod config;
mod error;
mod parse;
mod ser;
mod value;

pub use config::{
    args_view, default_addr, default_files_v, default_port, env_view, file_wf, files_view,
    name_ok, opt_name_view, resolved_name, ConfigV, EnarxConfig, File, FileName, FileV, Protocol,
};
pub use error::{ConfigError, ErrV};
pub use parse::{
    addr_v, args_section_v, args_v, env_entries_v, env_section_v, files_section_v, host_v,
    lemma_empty_files_kept, lemma_listen_needs_name, lemma_missing_files_default, opt_name_v,
    parse_config_v, parse_file_v, parse_files_v, port_v, prot_v, req_name_v, steward_section_v,
    url_accepts,
};
pub use ser::config_wf;
pub use value::{lookupv, str_eq, table_get, toml_doc_of, DocValue};
