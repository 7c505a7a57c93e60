//! Build-time configuration: the naming-convention and logging switches
//! an embedding project may set in its metadata. Reading the metadata
//! itself is the caller's concern; the merge over the defaults is here.
use vstd::prelude::*;

verus! {

/// The configuration switches: the field-naming convention, the two
/// logging toggles, the namespace label and the logging macro name.
#[derive(Debug, Clone)]
pub struct SurrealDeriveConfig {
    pub use_camel_case: bool,
    pub enable_log: bool,
    pub enable_compile_log: bool,
    pub namespace: String,
    pub info_log_macro: String,
}

impl core::default::Default for SurrealDeriveConfig {
    fn default() -> (c: SurrealDeriveConfig)
        ensures
            c.use_camel_case == false,
            c.enable_log == false,
            c.enable_compile_log == false,
            c.namespace@ == "surreal-ql"@,
            c.info_log_macro@ == "println"@,
    {
        SurrealDeriveConfig {
            use_camel_case: false,
            enable_log: false,
            enable_compile_log: false,
            namespace: "surreal-ql".to_owned(),
            info_log_macro: "println".to_owned(),
        }
    }
}

impl SurrealDeriveConfig {
    /// Merges the optional project-metadata overrides over the
    /// defaults: a switch the metadata does not set keeps its default.
    pub fn from_overrides(
        enable_log: Option<bool>,
        use_camel_case: Option<bool>,
        enable_compile_log: Option<bool>,
        namespace: Option<String>,
        info_log_macro: Option<String>,
    ) -> (c: SurrealDeriveConfig)
        ensures
            c.enable_log == enable_log.unwrap_or(false),
            c.use_camel_case == use_camel_case.unwrap_or(false),
            c.enable_compile_log == enable_compile_log.unwrap_or(false),
            (match namespace {
                Some(n) => c.namespace@ == n@,
                None => c.namespace@ == "surreal-ql"@,
            }),
            (match info_log_macro {
                Some(m) => c.info_log_macro@ == m@,
                None => c.info_log_macro@ == "println"@,
            }),
    {
        SurrealDeriveConfig {
            enable_log: match enable_log {
                Some(v) => v,
                None => false,
            },
            use_camel_case: match use_camel_case {
                Some(v) => v,
                None => false,
            },
            enable_compile_log: match enable_compile_log {
                Some(v) => v,
                None => false,
            },
            namespace: match namespace {
                Some(n) => n,
                None => "surreal-ql".to_owned(),
            },
            info_log_macro: match info_log_macro {
                Some(m) => m,
                None => "println".to_owned(),
            },
        }
    }
}

} // verus!
