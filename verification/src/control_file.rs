//! The extension's control manifest: package metadata plus the optional
//! default schema that unqualified objects fall back to.

use vstd::prelude::*;

verus! {

#[derive(Debug, Clone)]
pub struct ControlFile {
    pub comment: String,
    pub default_version: String,
    pub module_pathname: String,
    pub relocatable: bool,
    pub superuser: bool,
    pub schema: Option<String>,
}

} // verus!
