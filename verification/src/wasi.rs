//! Options for running a module under WASI, and what a module's imports
//! say about the WASI versions it needs.
use std::collections::BTreeSet;
use std::path::PathBuf;
use vstd::prelude::*;
use wasmer::Module;
use wasmer_wasi::{get_wasi_versions, WasiVersion};

verus! {

/// `std::path::PathBuf`, carried through as it is.
#[verifier::external_type_specification]
#[verifier::external_body]
pub struct ExPathBuf(std::path::PathBuf);

/// `wasmer::Module`, a compiled module. Nothing of its contents is visible here.
#[verifier::external_type_specification]
#[verifier::external_body]
pub struct ExModule(wasmer::Module);

/// `wasmer_wasi::WasiVersion`, carried through as it is.
#[verifier::external_type_specification]
#[verifier::external_body]
pub struct ExWasiVersion(wasmer_wasi::WasiVersion);

/// The namespaces that the module imports its functions from: one entry for
/// each function import, in the order of the module. This is what
/// `wasmer_wasi::get_wasi_versions` reads of a module.
pub uninterp spec fn function_import_namespaces(module: Module) -> Seq<Seq<char>>;

/// The namespaces of the WASI versions that the set holds, as
/// `WasiVersion::get_namespace_str` names them.
pub uninterp spec fn version_namespaces(versions: BTreeSet<WasiVersion>) -> Set<Seq<char>>;

/// Whether functions imported from this namespace belong to a version of WASI.
pub open spec fn wasi_namespace(namespace: Seq<char>) -> bool {
    namespace == "wasi_unstable"@ || namespace == "wasi_snapshot_preview1"@
}

/// Whether one of the namespaces belongs to no version of WASI.
pub open spec fn imports_outside_wasi(namespaces: Seq<Seq<char>>) -> bool {
    exists|i: int| 0 <= i < namespaces.len() && !wasi_namespace(#[trigger] namespaces[i])
}

/// The WASI namespaces among the given ones.
pub open spec fn wasi_namespaces_among(namespaces: Seq<Seq<char>>) -> Set<Seq<char>> {
    Set::new(|namespace: Seq<char>| wasi_namespace(namespace) && namespaces.contains(namespace))
}

/// Whether the module imports a function from a namespace outside WASI.
pub open spec fn has_other_imports(module: Module) -> bool {
    imports_outside_wasi(function_import_namespaces(module))
}

/// The WASI namespaces that the module imports functions from.
pub open spec fn wasi_imports(module: Module) -> Set<Seq<char>> {
    wasi_namespaces_among(function_import_namespaces(module))
}

/// `wasmer_wasi::get_wasi_versions` walks the namespaces of the module's
/// function imports and collects the WASI version of each namespace that
/// belongs to one. It gives `None` only in strict mode, and there exactly
/// when a function is imported from a namespace outside WASI; in every
/// other case it gives the set of the versions found, which may be empty.
pub assume_specification[ wasmer_wasi::get_wasi_versions ](
    module: &Module,
    strict: bool,
) -> (r: Option<BTreeSet<WasiVersion>>)
    ensures
        (r is None) == (strict && imports_outside_wasi(function_import_namespaces(*module))),
        r is Some ==> version_namespaces(r->0) == wasi_imports(*module),
;

/// WASI options.
#[derive(Clone, Debug)]
pub struct Wasi {
    /// WASI pre-opened directories.
    pre_opened_directories: Vec<PathBuf>,
    /// Host directories mapped to a different location for the module:
    /// guest directory first, host directory second.
    mapped_dirs: Vec<(String, PathBuf)>,
    /// Custom environment variables: key first, value second.
    env_vars: Vec<(String, String)>,
    /// Allow WASI modules to import multiple versions of WASI without a warning.
    pub allow_multiple_wasi_versions: bool,
    /// Require WASI modules to only import 1 version of WASI.
    pub deny_multiple_wasi_versions: bool,
}

impl Wasi {
    /// The pre-opened directories, in the order given.
    pub closed spec fn spec_pre_opened_directories(&self) -> Seq<PathBuf> {
        self.pre_opened_directories@
    }

    /// The mapped directories, in the order given.
    pub closed spec fn spec_mapped_dirs(&self) -> Seq<(String, PathBuf)> {
        self.mapped_dirs@
    }

    /// The environment variables, in the order given.
    pub closed spec fn spec_env_vars(&self) -> Seq<(String, String)> {
        self.env_vars@
    }

    /// Whether importing several WASI versions raises no warning.
    pub closed spec fn spec_allow_multiple(&self) -> bool {
        self.allow_multiple_wasi_versions
    }

    /// Whether a module may import one WASI version only.
    pub closed spec fn spec_deny_multiple(&self) -> bool {
        self.deny_multiple_wasi_versions
    }

    /// Options with the given directories and variables.
    pub fn new(
        pre_opened_directories: Vec<PathBuf>,
        mapped_dirs: Vec<(String, PathBuf)>,
        env_vars: Vec<(String, String)>,
        allow_multiple_wasi_versions: bool,
        deny_multiple_wasi_versions: bool,
    ) -> (r: Self)
        ensures
            r.spec_pre_opened_directories() == pre_opened_directories@,
            r.spec_mapped_dirs() == mapped_dirs@,
            r.spec_env_vars() == env_vars@,
            r.spec_allow_multiple() == allow_multiple_wasi_versions,
            r.spec_deny_multiple() == deny_multiple_wasi_versions,
    {
        Wasi {
            pre_opened_directories,
            mapped_dirs,
            env_vars,
            allow_multiple_wasi_versions,
            deny_multiple_wasi_versions,
        }
    }

    /// The pre-opened directories.
    pub fn pre_opened_directories(&self) -> (r: &Vec<PathBuf>)
        ensures
            r@ == self.spec_pre_opened_directories(),
    {
        &self.pre_opened_directories
    }

    /// The mapped directories.
    pub fn mapped_dirs(&self) -> (r: &Vec<(String, PathBuf)>)
        ensures
            r@ == self.spec_mapped_dirs(),
    {
        &self.mapped_dirs
    }

    /// The environment variables.
    pub fn env_vars(&self) -> (r: &Vec<(String, String)>)
        ensures
            r@ == self.spec_env_vars(),
    {
        &self.env_vars
    }

    /// Gets the WASI versions (if any) for the provided module, in strict
    /// mode: a module that imports a function from outside WASI has none;
    /// any other has the set of the versions whose namespaces it imports
    /// functions from, which is empty for a module without function imports.
    pub fn get_versions(module: &Module) -> (r: Option<BTreeSet<WasiVersion>>)
        ensures
            r is None <==> has_other_imports(*module),
            r matches Some(versions) ==> version_namespaces(versions) == wasi_imports(*module),
    {
        get_wasi_versions(module, true)
    }

    /// Checks if a given module has any WASI imports at all. The check is
    /// made in non-strict mode, which yields a set of versions for every
    /// module, an empty one too: the answer is always `true`.
    pub fn has_wasi_imports(module: &Module) -> (r: bool)
        ensures
            r,
    {
        get_wasi_versions(module, false).is_some()
    }
}

} // verus!
