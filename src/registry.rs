//! The module registry: which binary is installed for which module name.
use vstd::prelude::*;
use crate::types::copy_bytes;
use vstd::string::*;

verus! {

/// The name of the ICRC-7 ledger module.
pub const ICRC7_MODULE: &'static str = "icrc7";

/// The name of the DIP-721 token module.
pub const DIP721_MODULE: &'static str = "dip721";

/// Whether `name` is one of the module names that the registry knows.
pub open spec fn is_known_module(name: Seq<char>) -> bool {
    name == ICRC7_MODULE@ || name == DIP721_MODULE@
}

/// Whether `name` is one of the module names that the registry knows.
pub fn is_known_module_name(name: &str) -> (r: bool)
    ensures
        r == is_known_module(name@),
{
    let name = String::from_str(name);
    name == String::from_str(ICRC7_MODULE) || name == String::from_str(DIP721_MODULE)
}

/// The binaries of the modules that a factory can install, by name.
pub struct ModuleRegistry {
    pub icrc7_wasm: Vec<u8>,
    pub dip721_wasm: Vec<u8>,
}

impl ModuleRegistry {
    /// A usable registry holds a non-empty binary for each module.
    pub open spec fn wf(&self) -> bool {
        self.icrc7_wasm@.len() > 0 && self.dip721_wasm@.len() > 0
    }

    /// The binary that the registry holds under `name`; empty for a name it
    /// does not know.
    pub open spec fn payload(&self, name: Seq<char>) -> Seq<u8> {
        if name == ICRC7_MODULE@ {
            self.icrc7_wasm@
        } else if name == DIP721_MODULE@ {
            self.dip721_wasm@
        } else {
            Seq::empty()
        }
    }

    /// A registry of the two module binaries.
    pub fn new(icrc7_wasm: Vec<u8>, dip721_wasm: Vec<u8>) -> (r: ModuleRegistry)
        requires
            icrc7_wasm@.len() > 0,
            dip721_wasm@.len() > 0,
        ensures
            r.wf(),
            r.icrc7_wasm@ == icrc7_wasm@,
            r.dip721_wasm@ == dip721_wasm@,
    {
        ModuleRegistry { icrc7_wasm, dip721_wasm }
    }

    /// A copy of the binary registered under `wasm_name`, or an empty one
    /// when no module has that name.
    pub fn choose_wasm(&self, wasm_name: &str) -> (r: Vec<u8>)
        ensures
            r@ == self.payload(wasm_name@),
    {
        let name = String::from_str(wasm_name);
        if name == String::from_str(ICRC7_MODULE) {
            copy_bytes(&self.icrc7_wasm)
        } else if name == String::from_str(DIP721_MODULE) {
            copy_bytes(&self.dip721_wasm)
        } else {
            Vec::new()
        }
    }
}

/// In a usable registry every known module name gives a non-empty binary,
/// always the same one, and every other name gives an empty one.
pub proof fn lemma_registry_lookup(registry: ModuleRegistry, name: Seq<char>)
    requires
        registry.wf(),
    ensures
        is_known_module(name) ==> registry.payload(name).len() > 0,
        !is_known_module(name) ==> registry.payload(name) == Seq::<u8>::empty(),
        name == ICRC7_MODULE@ ==> registry.payload(name) == registry.icrc7_wasm@,
        name == DIP721_MODULE@ ==> registry.payload(name) == registry.dip721_wasm@,
{
    reveal_strlit("icrc7");
    reveal_strlit("dip721");
    assert(ICRC7_MODULE@.len() != DIP721_MODULE@.len());
}

} // verus!
