//! The one optional setting that selects a backend: `{kind: "process",
//! path}` or `{kind: "plugin", path, params?}`.
use vstd::prelude::*;
use crate::error::{ConfigFault, ErrorKind, HookError, HookErrorView};
use crate::wire::same_text;

verus! {

/// The name of the setting.
pub const SETTING: &'static str = "resolver_hook";

/// The field of the setting that holds the tag of the backend.
pub const KIND_FIELD: &'static str = "kind";

/// The field of the setting that holds the path of the backend.
pub const PATH_FIELD: &'static str = "path";

/// The field of the setting that holds the parameters of a plugin.
pub const PARAMS_FIELD: &'static str = "params";

/// A TOML value of the `toml` crate.  The library carries it from the
/// configuration to the serialiser and reads nothing in it.
#[verifier::external_type_specification]
#[verifier::external_body]
pub struct ExTomlValue(toml::Value);

/// The error of the `toml` crate's serialiser.
#[verifier::external_type_specification]
#[verifier::external_body]
pub struct ExTomlSerError(toml::ser::Error);

/// The TOML document that `toml::to_string` writes for `value`, or `None`
/// where it refuses the value.
pub uninterp spec fn toml_document(value: toml::Value) -> Option<Seq<char>>;

/// `toml::to_string` on a TOML value: the document is a function of the
/// value alone (a table is walked in the order of its keys).  Nothing is
/// claimed of what the document holds.
#[verifier::external_body]
fn toml_to_string(value: &toml::Value) -> (r: Result<String, toml::ser::Error>)
    ensures
        match r {
            Ok(text) => toml_document(*value) == Some(text@),
            Err(_) => toml_document(*value) is None,
        },
{
    toml::to_string(value)
}

/// The selected backend, as configured.
#[derive(Debug, PartialEq)]
#[allow(inconsistent_fields)]
pub enum HookConfig {
    /// An executable that answers over its standard input and output.
    Process { path: String },
    /// A shared library; `params` is handed to its initialiser once.
    Plugin { path: String, params: Option<toml::Value> },
}

/// [`HookConfig`] with its paths as sequences of characters.
#[allow(inconsistent_fields)]
pub enum HookConfigView {
    Process { path: Seq<char> },
    Plugin { path: Seq<char>, params: Option<toml::Value> },
}

impl View for HookConfig {
    type V = HookConfigView;

    open spec fn view(&self) -> HookConfigView {
        match *self {
            HookConfig::Process { path } => HookConfigView::Process { path: path@ },
            HookConfig::Plugin { path, params } => HookConfigView::Plugin { path: path@, params },
        }
    }
}

/// The tag of the process backend.
pub open spec fn process_tag() -> Seq<char> {
    seq!['p', 'r', 'o', 'c', 'e', 's', 's']
}

/// The tag of the plugin backend.
pub open spec fn plugin_tag() -> Seq<char> {
    seq!['p', 'l', 'u', 'g', 'i', 'n']
}

/// The configuration that the fields of a setting stand for.  The tag is
/// looked at first, then the path; a process backend has no use for
/// parameters and drops them.
pub open spec fn config_of(
    kind: Option<Seq<char>>,
    path: Option<Seq<char>>,
    params: Option<toml::Value>,
) -> Result<HookConfigView, HookErrorView> {
    match kind {
        None => Err(HookErrorView::Config { fault: ConfigFault::MissingKind, detail: Seq::empty() }),
        Some(tag) => if tag != process_tag() && tag != plugin_tag() {
            Err(HookErrorView::Config { fault: ConfigFault::UnknownKind, detail: tag })
        } else {
            match path {
                None => Err(HookErrorView::Config { fault: ConfigFault::MissingPath, detail: tag }),
                Some(path) => if tag == process_tag() {
                    Ok(HookConfigView::Process { path })
                } else {
                    Ok(HookConfigView::Plugin { path, params })
                },
            }
        },
    }
}

/// The text that a plugin's initialiser receives: the parameters as a TOML
/// document, the empty text where there are none, and a configuration
/// error where they cannot be written as a document.
pub open spec fn init_text(path: Seq<char>, params: Option<toml::Value>) -> Result<
    Seq<char>,
    HookErrorView,
> {
    match params {
        None => Ok(Seq::empty()),
        Some(value) => match toml_document(value) {
            Some(text) => Ok(text),
            None => Err(HookErrorView::Config { fault: ConfigFault::Params, detail: path }),
        },
    }
}

/// A setting is a configuration exactly where its tag names a backend and
/// its path is there; every other setting is a configuration error, so
/// that no backend is ever created for it.
pub proof fn law_malformed_is_config_error(
    kind: Option<Seq<char>>,
    path: Option<Seq<char>>,
    params: Option<toml::Value>,
)
    ensures
        config_of(kind, path, params) is Ok <==> path is Some && (kind == Some(process_tag()) || kind
            == Some(plugin_tag())),
        config_of(kind, path, params) matches Err(error) ==> error.kind() == ErrorKind::Config,
        config_of(kind, path, params) matches Ok(config) ==> (config is Process <==> kind == Some(
            process_tag(),
        )),
{
    assert(process_tag()[1] != plugin_tag()[1]);
}

/// Where `params` is absent the initialiser receives the empty text,
/// whatever the serialiser would do.
pub proof fn law_no_params_empty_text(path: Seq<char>)
    ensures
        init_text(path, None) == Ok::<Seq<char>, HookErrorView>(Seq::empty()),
{
}

impl HookConfig {
    /// Builds the configuration from the fields of the setting.  Fails with
    /// a configuration error where the tag is absent or names no backend,
    /// or where the path is absent.
    pub fn from_fields(kind: Option<&str>, path: Option<String>, params: Option<toml::Value>) -> (r:
        Result<HookConfig, HookError>)
        ensures
            match config_of(
                match kind {
                    Some(tag) => Some(tag@),
                    None => None,
                },
                match path {
                    Some(p) => Some(p@),
                    None => None,
                },
                params,
            ) {
                Ok(config) => r matches Ok(c) && c@ == config,
                Err(error) => r matches Err(e) && e@ == error,
            },
    {
        proof {
            reveal_strlit("process");
            reveal_strlit("plugin");
            assert("process"@ =~= process_tag());
            assert("plugin"@ =~= plugin_tag());
        }
        let tag = match kind {
            Some(tag) => tag,
            None => {
                return Err(
                    HookError::Config { fault: ConfigFault::MissingKind, detail: String::new() },
                );
            },
        };
        let process = same_text(tag, "process");
        if !process && !same_text(tag, "plugin") {
            return Err(HookError::Config { fault: ConfigFault::UnknownKind, detail: tag.to_owned() });
        }
        match path {
            None => Err(HookError::Config { fault: ConfigFault::MissingPath, detail: tag.to_owned() }),
            Some(path) => if process {
                Ok(HookConfig::Process { path })
            } else {
                Ok(HookConfig::Plugin { path, params })
            },
        }
    }

    /// The path of the executable or of the shared library.
    pub fn path(&self) -> (path: &str)
        ensures
            path@ == match self@ {
                HookConfigView::Process { path } => path,
                HookConfigView::Plugin { path, .. } => path,
            },
    {
        match self {
            HookConfig::Process { path } => path.as_str(),
            HookConfig::Plugin { path, .. } => path.as_str(),
        }
    }
}

/// The text for a plugin's initialiser (see [`init_text`]).
pub fn serialize_params(path: &str, params: &Option<toml::Value>) -> (r: Result<String, HookError>)
    ensures
        match init_text(path@, *params) {
            Ok(text) => r matches Ok(t) && t@ == text,
            Err(error) => r matches Err(e) && e@ == error,
        },
{
    match params {
        None => Ok(String::new()),
        Some(value) => match toml_to_string(value) {
            Ok(text) => Ok(text),
            Err(_) => Err(HookError::Config { fault: ConfigFault::Params, detail: path.to_owned() }),
        },
    }
}

} // verus!
