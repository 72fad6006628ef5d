//! Provisioning a unit and installing code into it: what the factory asks
//! the host runtime for, and how it reads the answers.
use crate::types::{anonymous_bytes, Principal};
use vstd::prelude::*;

verus! {

/// The cycles that the factory pays for each unit it creates.
pub const CREATE_UNIT_CYCLES: u128 = 200_000_000_000;

/// The ownership and resource policy of a new unit.
pub struct CanisterSettings {
    pub controllers: Option<Vec<Principal>>,
    pub compute_allocation: Option<u64>,
    pub memory_allocation: Option<u64>,
    pub freezing_threshold: Option<u64>,
}

/// How code goes into a unit.
#[derive(Clone, Copy, Debug, PartialEq, Eq, Structural)]
pub enum InstallMode {
    Install,
    Reinstall,
    Upgrade,
}

/// Whether `controllers` are exactly `caller` and then `factory`.
pub open spec fn controlled_by(controllers: Seq<Principal>, caller: Seq<u8>, factory: Seq<u8>) -> bool {
    &&& controllers.len() == 2
    &&& controllers[0]@ == caller
    &&& controllers[1]@ == factory
}

/// Whether `s` is the policy of a unit created for `caller` by `factory`:
/// both control it, and every allocation is left at zero.
pub open spec fn is_unit_settings(s: CanisterSettings, caller: Seq<u8>, factory: Seq<u8>) -> bool {
    &&& s.controllers matches Some(c) && controlled_by(c@, caller, factory)
    &&& s.compute_allocation == Some(0u64)
    &&& s.memory_allocation == Some(0u64)
    &&& s.freezing_threshold == Some(0u64)
}

/// The policy of a unit that `factory` creates for `caller`.
pub fn unit_settings(caller: &Principal, factory: &Principal) -> (r: CanisterSettings)
    ensures
        is_unit_settings(r, caller@, factory@),
{
    let controllers = vec![caller.duplicate(), factory.duplicate()];
    CanisterSettings {
        controllers: Some(controllers),
        compute_allocation: Some(0),
        memory_allocation: Some(0),
        freezing_threshold: Some(0),
    }
}

/// The address that provisioning reports: that of the created unit, or the
/// anonymous principal when the runtime created none.
pub open spec fn reported_address(created: Option<Seq<u8>>) -> Seq<u8> {
    match created {
        Some(a) => a,
        None => anonymous_bytes(),
    }
}

/// Reads the runtime's answer to a unit-creation request (`None` where it
/// refused) as an address, with the anonymous principal standing for any
/// failure.
pub fn address_or_anonymous(created: Option<Principal>) -> (r: Principal)
    ensures
        r@ == reported_address(
            match created {
                Some(p) => Some(p@),
                None => None,
            },
        ),
{
    match created {
        Some(p) => p,
        None => Principal::anonymous(),
    }
}

/// Reads the runtime's answer to a code installation as success or failure;
/// the reason of a refusal is not kept.
pub fn install_succeeded(reply: &Result<(), String>) -> (r: bool)
    ensures
        r == reply is Ok,
{
    match reply {
        Ok(_) => true,
        Err(_) => false,
    }
}

} // verus!
