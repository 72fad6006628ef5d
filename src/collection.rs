//! Creating a collection: provision a unit, install the requested module
//! into it with the caller's startup record, and hand back its address.
//!
//! Each step takes what the runtime answered to the previous action and
//! says what to do next, so the runtime's calls stay with the caller.
use crate::provision::{is_unit_settings, unit_settings, CanisterSettings, InstallMode, CREATE_UNIT_CYCLES};
use crate::registry::{is_known_module, is_known_module_name, lemma_registry_lookup, ModuleRegistry};
use crate::types::{init_arg_of, CreateArg, InitArg, Principal};
use vstd::prelude::*;
use vstd::string::*;

verus! {

/// Why a creation aborts when no unit could be provisioned.
pub const NO_ADDRESS_MESSAGE: &'static str = "Failed to get an address";

/// Why a creation aborts when the module could not be installed.
pub const INSTALL_FAILED_MESSAGE: &'static str = "Failed to install code";

/// Why a creation aborts when it names a module that the registry does not
/// know.
pub const UNKNOWN_MODULE_MESSAGE: &'static str = "Unknown module name";

/// Why a creation aborts when an answer comes that no action asked for.
pub const UNEXPECTED_EVENT_MESSAGE: &'static str = "Unexpected answer from the runtime";

/// Where a creation stands.
pub enum CreateState {
    /// Waiting for a new unit; `init` is what will be installed into it.
    AwaitingUnit { init: InitArg },
    /// Waiting for the installation into `unit` to finish.
    AwaitingInstall { unit: Principal },
    /// Finished: the last action replied or aborted.
    Done,
}

/// What the runtime answered to the last action.
pub enum CreateEvent {
    /// The address that provisioning reported (anonymous where it failed).
    UnitProvisioned(Principal),
    /// Whether the installation succeeded.
    CodeInstalled(bool),
}

/// What the caller of a step is to do next.
pub enum CreateAction {
    /// Ask the runtime for a new unit with `settings`, paying `cycles`.
    CreateUnit { settings: CanisterSettings, cycles: u128 },
    /// Install `wasm_module` into `canister_id`, with `init` as its
    /// startup argument.
    InstallCode { mode: InstallMode, wasm_module: Vec<u8>, canister_id: Principal, init: InitArg },
    /// Answer the request with the new unit's address.
    Reply(Principal),
    /// Abort the request with this message.
    Trap(String),
}

impl CreateState {
    /// A creation never waits on the installation into the anonymous
    /// address.
    pub open spec fn wf(&self) -> bool {
        self matches CreateState::AwaitingInstall { unit } ==> !unit.is_anonymous_spec()
    }
}

/// Whether `action` aborts with `message`.
pub open spec fn is_trap(action: CreateAction, message: Seq<char>) -> bool {
    action matches CreateAction::Trap(m) && m@ == message
}

/// Whether `(state, action)` is how a creation that `caller` asked for with
/// `arg` starts, on the factory `factory`: a request that names a module
/// the registry does not know aborts before any unit is provisioned.
pub open spec fn is_create_start(
    caller: Principal,
    factory: Seq<u8>,
    arg: CreateArg,
    state: CreateState,
    action: CreateAction,
) -> bool {
    if is_known_module(arg.wasm_name@) {
        &&& state == CreateState::AwaitingUnit { init: init_arg_of(caller, arg) }
        &&& action matches CreateAction::CreateUnit { settings, cycles }
        &&& is_unit_settings(settings, caller@, factory)
        &&& cycles == CREATE_UNIT_CYCLES
    } else {
        state == CreateState::Done && is_trap(action, UNKNOWN_MODULE_MESSAGE@)
    }
}

/// Whether `(next, action)` is what a creation does from `state` on
/// `event`, with the module binaries of `registry`.
pub open spec fn is_create_step(
    state: CreateState,
    event: CreateEvent,
    registry: ModuleRegistry,
    next: CreateState,
    action: CreateAction,
) -> bool {
    match (state, event) {
        (CreateState::AwaitingUnit { init }, CreateEvent::UnitProvisioned(address)) => {
            if address.is_anonymous_spec() {
                next == CreateState::Done && is_trap(action, NO_ADDRESS_MESSAGE@)
            } else if !is_known_module(init.wasm_name@) {
                next == CreateState::Done && is_trap(action, UNKNOWN_MODULE_MESSAGE@)
            } else {
                &&& next matches CreateState::AwaitingInstall { unit } && unit@ == address@
                &&& action matches CreateAction::InstallCode { mode, wasm_module, canister_id, init: i }
                &&& mode == InstallMode::Install
                &&& wasm_module@ == registry.payload(init.wasm_name@)
                &&& canister_id@ == address@
                &&& i == init
            }
        },
        (CreateState::AwaitingInstall { unit }, CreateEvent::CodeInstalled(ok)) => {
            &&& next == CreateState::Done
            &&& if ok {
                action matches CreateAction::Reply(a) && a@ == unit@
            } else {
                is_trap(action, INSTALL_FAILED_MESSAGE@)
            }
        },
        _ => next == CreateState::Done && is_trap(action, UNEXPECTED_EVENT_MESSAGE@),
    }
}

/// Starts a creation that `caller` asked for with `arg`: the startup record
/// is built, and the first action asks for a unit that both `caller` and
/// `factory` control; a request for an unknown module aborts at once.
pub fn start_create(caller: Principal, factory: &Principal, arg: CreateArg) -> (r: (
    CreateState,
    CreateAction,
))
    ensures
        is_create_start(caller, factory@, arg, r.0, r.1),
        r.0.wf(),
{
    if !is_known_module_name(arg.wasm_name.as_str()) {
        return (CreateState::Done, CreateAction::Trap(String::from_str(UNKNOWN_MODULE_MESSAGE)));
    }
    let settings = unit_settings(&caller, factory);
    let init = InitArg::from((caller, arg));
    (CreateState::AwaitingUnit { init }, CreateAction::CreateUnit { settings, cycles: CREATE_UNIT_CYCLES })
}

/// Takes a creation one step on: from `state`, on what the runtime answered
/// to the last action, to the next state and the next action.
pub fn create_step(state: CreateState, event: CreateEvent, registry: &ModuleRegistry) -> (r: (
    CreateState,
    CreateAction,
))
    ensures
        is_create_step(state, event, *registry, r.0, r.1),
        r.0.wf(),
{
    match (state, event) {
        (CreateState::AwaitingUnit { init }, CreateEvent::UnitProvisioned(address)) => {
            if address.is_anonymous() {
                (CreateState::Done, CreateAction::Trap(String::from_str(NO_ADDRESS_MESSAGE)))
            } else if !is_known_module_name(init.wasm_name.as_str()) {
                (CreateState::Done, CreateAction::Trap(String::from_str(UNKNOWN_MODULE_MESSAGE)))
            } else {
                let wasm_module = registry.choose_wasm(init.wasm_name.as_str());
                let unit = address.duplicate();
                (
                    CreateState::AwaitingInstall { unit },
                    CreateAction::InstallCode {
                        mode: InstallMode::Install,
                        wasm_module,
                        canister_id: address,
                        init,
                    },
                )
            }
        },
        (CreateState::AwaitingInstall { unit }, CreateEvent::CodeInstalled(ok)) => {
            if ok {
                (CreateState::Done, CreateAction::Reply(unit))
            } else {
                (CreateState::Done, CreateAction::Trap(String::from_str(INSTALL_FAILED_MESSAGE)))
            }
        },
        _ => (CreateState::Done, CreateAction::Trap(String::from_str(UNEXPECTED_EVENT_MESSAGE))),
    }
}

/// A creation never answers with the anonymous address: from any
/// well-formed state, whatever the runtime answered, the step either
/// aborts or replies with a real unit's address, and stays well formed.
pub proof fn lemma_never_replies_anonymous(
    state: CreateState,
    event: CreateEvent,
    registry: ModuleRegistry,
    next: CreateState,
    action: CreateAction,
)
    requires
        state.wf(),
        is_create_step(state, event, registry, next, action),
    ensures
        next.wf(),
        action matches CreateAction::Reply(a) ==> !a.is_anonymous_spec(),
{
}

/// With a usable registry, a creation never installs an empty module: every
/// installation it asks for carries the non-empty binary of a known module.
pub proof fn lemma_never_installs_empty_module(
    state: CreateState,
    event: CreateEvent,
    registry: ModuleRegistry,
    next: CreateState,
    action: CreateAction,
)
    requires
        registry.wf(),
        is_create_step(state, event, registry, next, action),
    ensures
        action matches CreateAction::InstallCode { wasm_module, init, .. } ==> {
            &&& is_known_module(init.wasm_name@)
            &&& wasm_module@.len() > 0
        },
{
    if let CreateState::AwaitingUnit { init } = state {
        lemma_registry_lookup(registry, init.wasm_name@);
    }
}

/// A request that names a module the registry does not know aborts at its
/// first step, and no unit is provisioned for it.
pub proof fn lemma_unknown_module_aborts(
    caller: Principal,
    factory: Seq<u8>,
    arg: CreateArg,
    state: CreateState,
    action: CreateAction,
)
    requires
        !is_known_module(arg.wasm_name@),
        is_create_start(caller, factory, arg, state, action),
    ensures
        action !is CreateUnit,
        is_trap(action, UNKNOWN_MODULE_MESSAGE@),
        state == CreateState::Done,
{
}

/// A creation that succeeds takes exactly two runtime calls, in order: one
/// that provisions a unit controlled by the caller and the factory, then one
/// that installs the named module into that unit with the startup record
/// made of the request and the caller alone (timing parameters at their
/// defaults). Then it answers with that unit's address.
pub proof fn lemma_create_sequence(
    caller: Principal,
    factory: Seq<u8>,
    arg: CreateArg,
    registry: ModuleRegistry,
    address: Principal,
    s1: CreateState,
    a1: CreateAction,
    s2: CreateState,
    a2: CreateAction,
    s3: CreateState,
    a3: CreateAction,
)
    requires
        is_create_start(caller, factory, arg, s1, a1),
        is_create_step(s1, CreateEvent::UnitProvisioned(address), registry, s2, a2),
        is_create_step(s2, CreateEvent::CodeInstalled(true), registry, s3, a3),
        a3 is Reply,
    ensures
        a1 matches CreateAction::CreateUnit { settings, cycles } && is_unit_settings(
            settings,
            caller@,
            factory,
        ),
        a2 matches CreateAction::InstallCode { mode, wasm_module, canister_id, init } && {
            &&& mode == InstallMode::Install
            &&& wasm_module@ == registry.payload(arg.wasm_name@)
            &&& canister_id@ == address@
            &&& init == init_arg_of(caller, arg)
            &&& init.tx_window == 1 && init.permitted_drift == 1
        },
        a3 matches CreateAction::Reply(a) && a@ == address@ && !a.is_anonymous_spec(),
        s3 == CreateState::Done,
        is_known_module(arg.wasm_name@),
{
}

} // verus!
