use factory::collection::{
    create_step, start_create, CreateAction, CreateEvent, CreateState, INSTALL_FAILED_MESSAGE,
    NO_ADDRESS_MESSAGE, UNEXPECTED_EVENT_MESSAGE, UNKNOWN_MODULE_MESSAGE,
};
use factory::provision::{
    address_or_anonymous, install_succeeded, unit_settings, InstallMode, CREATE_UNIT_CYCLES,
};
use factory::proxy::{finish_mint, plan_mint, start_mint, MintAction, BAD_ADDRESS_MESSAGE};
use factory::registry::{is_known_module_name, ModuleRegistry};
use factory::types::{Account, CreateArg, InitArg, MintArgs, MintResponse, Principal};

fn principal(bytes: &[u8]) -> Principal {
    Principal { bytes: bytes.to_vec() }
}

fn registry() -> ModuleRegistry {
    ModuleRegistry::new(vec![0, 97, 115, 109, 1], vec![0, 97, 115, 109, 2, 2])
}

fn bare_request(wasm_name: &str) -> CreateArg {
    CreateArg {
        name: "Collection".to_string(),
        symbol: "COL".to_string(),
        royalties: None,
        royalties_recipient: None,
        description: None,
        image: None,
        supply_cap: None,
        wasm_name: wasm_name.to_string(),
    }
}

fn account_a() -> Account {
    Account { owner: principal(&[7, 7, 7]), subaccount: None }
}

fn unit_text() -> String {
    candid::Principal::from_slice(&[0, 0, 0, 0, 0, 0, 0, 1, 1, 1]).to_text()
}

fn mint_request(kind: &str, canister_id: String) -> MintArgs {
    MintArgs {
        id: 1,
        name: "X".to_string(),
        description: None,
        image: "X".to_string(),
        to: account_a(),
        canister_name: kind.to_string(),
        canister_id,
    }
}

#[test]
fn registry_returns_known_binaries() {
    let r = registry();
    assert_eq!(r.choose_wasm("icrc7"), vec![0, 97, 115, 109, 1]);
    assert_eq!(r.choose_wasm("dip721"), vec![0, 97, 115, 109, 2, 2]);
    assert_eq!(r.choose_wasm("icrc7"), r.choose_wasm("icrc7"));
}

#[test]
fn registry_returns_empty_for_unknown_names() {
    let r = registry();
    assert!(r.choose_wasm("ICRC7").is_empty());
    assert!(r.choose_wasm("").is_empty());
    assert!(r.choose_wasm("icrc7 ").is_empty());
}

#[test]
fn init_arg_takes_defaults_and_caller() {
    let mut arg = bare_request("icrc7");
    arg.royalties = Some(250);
    arg.supply_cap = Some(10_000);
    arg.description = Some("desc".to_string());
    arg.image = Some(vec![1, 2, 3]);
    let init = InitArg::from((principal(&[9, 9]), arg));
    assert_eq!(init.tx_window, 1);
    assert_eq!(init.permitted_drift, 1);
    assert_eq!(init.minting_authority.unwrap().bytes, vec![9, 9]);
    assert_eq!(init.royalties, Some(250));
    assert_eq!(init.supply_cap, Some(10_000));
    assert_eq!(init.description, Some("desc".to_string()));
    assert_eq!(init.image, Some(vec![1, 2, 3]));
    assert_eq!(init.name, "Collection");
    assert_eq!(init.symbol, "COL");
    assert_eq!(init.wasm_name, "icrc7");
}

#[test]
fn init_arg_keeps_unset_fields_unset() {
    let init = InitArg::from((principal(&[9, 9]), bare_request("icrc7")));
    assert!(init.description.is_none());
    assert!(init.image.is_none());
    assert!(init.royalties.is_none());
    assert!(init.royalties_recipient.is_none());
    assert!(init.supply_cap.is_none());
}

#[test]
fn unit_settings_give_caller_and_factory_control() {
    let s = unit_settings(&principal(&[1, 2]), &principal(&[3]));
    let c = s.controllers.unwrap();
    assert_eq!(c.len(), 2);
    assert_eq!(c[0].bytes, vec![1, 2]);
    assert_eq!(c[1].bytes, vec![3]);
    assert_eq!(s.compute_allocation, Some(0));
    assert_eq!(s.memory_allocation, Some(0));
    assert_eq!(s.freezing_threshold, Some(0));
}

#[test]
fn failed_provisioning_reports_anonymous() {
    let a = address_or_anonymous(None);
    assert_eq!(a.bytes, vec![4]);
    assert!(a.is_anonymous());
    let b = address_or_anonymous(Some(principal(&[5, 6])));
    assert_eq!(b.bytes, vec![5, 6]);
    assert!(!b.is_anonymous());
}

#[test]
fn install_reply_collapses_to_bool() {
    assert!(install_succeeded(&Ok(())));
    assert!(!install_succeeded(&Err("module is empty".to_string())));
}

#[test]
fn create_runs_provision_then_install_then_reply() {
    let reg = registry();
    let (s1, a1) = start_create(principal(&[1, 2]), &principal(&[3]), bare_request("icrc7"));
    match a1 {
        CreateAction::CreateUnit { settings, cycles } => {
            assert_eq!(cycles, CREATE_UNIT_CYCLES);
            assert_eq!(cycles, 200_000_000_000);
            let c = settings.controllers.unwrap();
            assert_eq!(c[0].bytes, vec![1, 2]);
            assert_eq!(c[1].bytes, vec![3]);
        }
        _ => panic!("expected a unit creation"),
    }
    let (s2, a2) = create_step(s1, CreateEvent::UnitProvisioned(principal(&[8, 8, 8])), &reg);
    match a2 {
        CreateAction::InstallCode { mode, wasm_module, canister_id, init } => {
            assert_eq!(mode, InstallMode::Install);
            assert_eq!(wasm_module, vec![0, 97, 115, 109, 1]);
            assert_eq!(canister_id.bytes, vec![8, 8, 8]);
            assert_eq!(init.minting_authority.unwrap().bytes, vec![1, 2]);
            assert_eq!(init.tx_window, 1);
            assert_eq!(init.permitted_drift, 1);
            assert!(init.supply_cap.is_none());
        }
        _ => panic!("expected an installation"),
    }
    let (s3, a3) = create_step(s2, CreateEvent::CodeInstalled(true), &reg);
    assert!(matches!(s3, CreateState::Done));
    match a3 {
        CreateAction::Reply(p) => assert_eq!(p.bytes, vec![8, 8, 8]),
        _ => panic!("expected a reply"),
    }
}

#[test]
fn create_aborts_on_anonymous_address() {
    let reg = registry();
    let (s1, _) = start_create(principal(&[1]), &principal(&[3]), bare_request("icrc7"));
    let (s2, a2) = create_step(s1, CreateEvent::UnitProvisioned(principal(&[4])), &reg);
    assert!(matches!(s2, CreateState::Done));
    match a2 {
        CreateAction::Trap(m) => assert_eq!(m, NO_ADDRESS_MESSAGE),
        _ => panic!("expected an abort"),
    }
    assert_eq!(NO_ADDRESS_MESSAGE, "Failed to get an address");
}

#[test]
fn create_aborts_on_failed_install() {
    let reg = registry();
    let (s1, _) = start_create(principal(&[1]), &principal(&[3]), bare_request("dip721"));
    let (s2, a2) = create_step(s1, CreateEvent::UnitProvisioned(principal(&[6])), &reg);
    match a2 {
        CreateAction::InstallCode { wasm_module, .. } => {
            assert_eq!(wasm_module, vec![0, 97, 115, 109, 2, 2])
        }
        _ => panic!("expected an installation"),
    }
    let (_, a3) = create_step(s2, CreateEvent::CodeInstalled(false), &reg);
    match a3 {
        CreateAction::Trap(m) => assert_eq!(m, "Failed to install code"),
        _ => panic!("expected an abort"),
    }
    assert_eq!(INSTALL_FAILED_MESSAGE, "Failed to install code");
}

#[test]
fn create_aborts_on_unknown_module_name() {
    let (s1, a1) = start_create(principal(&[1]), &principal(&[3]), bare_request("erc20"));
    assert!(matches!(s1, CreateState::Done));
    match a1 {
        CreateAction::Trap(m) => assert_eq!(m, UNKNOWN_MODULE_MESSAGE),
        _ => panic!("expected an abort before any unit is provisioned"),
    }
    assert_eq!(UNKNOWN_MODULE_MESSAGE, "Unknown module name");
}

#[test]
fn create_step_refuses_to_install_unknown_module() {
    let reg = registry();
    let init = InitArg::from((principal(&[1]), bare_request("erc20")));
    let (s2, a2) = create_step(
        CreateState::AwaitingUnit { init },
        CreateEvent::UnitProvisioned(principal(&[6])),
        &reg,
    );
    assert!(matches!(s2, CreateState::Done));
    match a2 {
        CreateAction::Trap(m) => assert_eq!(m, UNKNOWN_MODULE_MESSAGE),
        _ => panic!("expected an abort"),
    }
}

#[test]
fn known_module_names() {
    assert!(is_known_module_name("icrc7"));
    assert!(is_known_module_name("dip721"));
    assert!(!is_known_module_name("erc20"));
    assert!(!is_known_module_name(""));
}

#[test]
fn anonymous_is_the_byte_four() {
    let a = Principal::anonymous();
    assert_eq!(a.bytes, candid::Principal::anonymous().as_slice().to_vec());
    assert!(a.is_anonymous());
}

#[test]
fn create_aborts_on_unexpected_event() {
    let reg = registry();
    let (s1, _) = start_create(principal(&[1]), &principal(&[3]), bare_request("icrc7"));
    let (s2, a2) = create_step(s1, CreateEvent::CodeInstalled(true), &reg);
    assert!(matches!(s2, CreateState::Done));
    match a2 {
        CreateAction::Trap(m) => assert_eq!(m, UNEXPECTED_EVENT_MESSAGE),
        _ => panic!("expected an abort"),
    }
}

#[test]
fn mint_icrc7_calls_the_target_with_json_image() {
    let text = unit_text();
    let action = start_mint(mint_request("icrc7", text.clone()));
    match action {
        MintAction::Call { canister_id, method, args } => {
            let expected = candid::Principal::from_text(&text).unwrap();
            assert_eq!(canister_id.bytes, expected.as_slice().to_vec());
            assert_eq!(canister_id.bytes, vec![0, 0, 0, 0, 0, 0, 0, 1, 1, 1]);
            assert_eq!(method, "icrc7_mint");
            assert_eq!(args.id, 1);
            assert_eq!(args.name, "X");
            assert!(args.description.is_none());
            assert_eq!(args.to.owner.bytes, vec![7, 7, 7]);
            assert_eq!(args.image, Some(vec![34, 88, 34]));
        }
        _ => panic!("expected a call"),
    }
}

#[test]
fn mint_json_image_escapes_quotes() {
    let mut req = mint_request("icrc7", unit_text());
    req.image = "a\"b".to_string();
    match start_mint(req) {
        MintAction::Call { args, .. } => assert_eq!(args.image, Some(b"\"a\\\"b\"".to_vec())),
        _ => panic!("expected a call"),
    }
}

#[test]
fn mint_reports_downstream_id() {
    assert!(matches!(finish_mint(Ok(1)), MintResponse::ok(r) if r.0 == 1));
}

#[test]
fn mint_reports_downstream_rejection_verbatim() {
    match finish_mint(Err("message".to_string())) {
        MintResponse::err(e) => assert_eq!(e.0, "message"),
        _ => panic!("expected an error"),
    }
}

#[test]
fn mint_unknown_kind_makes_no_call() {
    for kind in ["dip721", "", "ICRC7"] {
        match start_mint(mint_request(kind, unit_text())) {
            MintAction::Reply(MintResponse::other(m)) => assert_eq!(m, "invalid canister id"),
            _ => panic!("expected an answer with no call"),
        }
    }
}

#[test]
fn mint_aborts_on_bad_address_text() {
    match start_mint(mint_request("icrc7", "not a principal".to_string())) {
        MintAction::Trap(m) => assert_eq!(m, BAD_ADDRESS_MESSAGE),
        _ => panic!("expected an abort"),
    }
}

#[test]
fn mint_plan_without_target_aborts() {
    match plan_mint(mint_request("icrc7", String::new()), None, vec![1]) {
        MintAction::Trap(_) => {}
        _ => panic!("expected an abort"),
    }
}

#[test]
fn mint_is_repeatable() {
    let first = start_mint(mint_request("icrc7", unit_text()));
    let second = start_mint(mint_request("icrc7", unit_text()));
    match (first, second) {
        (
            MintAction::Call { canister_id: c1, method: m1, args: x1 },
            MintAction::Call { canister_id: c2, method: m2, args: x2 },
        ) => {
            assert_eq!(c1.bytes, c2.bytes);
            assert_eq!(m1, m2);
            assert_eq!(x1.image, x2.image);
            assert_eq!(x1.id, x2.id);
        }
        _ => panic!("expected two calls"),
    }
    let r1 = finish_mint(Ok(5));
    let r2 = finish_mint(Ok(5));
    assert!(matches!((r1, r2), (MintResponse::ok(a), MintResponse::ok(b)) if a.0 == b.0 && a.0 == 5));
}
