//! The records that the factory builds, receives and hands on.
use vstd::prelude::*;

verus! {

/// The byte form of the anonymous identity, which the provisioning step
/// hands back when no unit could be created.
pub open spec fn anonymous_bytes() -> Seq<u8> {
    seq![4u8]
}

/// An identity on the host runtime (a user or an execution unit), held as
/// its raw bytes.
#[derive(Clone, Debug)]
pub struct Principal {
    pub bytes: Vec<u8>,
}

impl View for Principal {
    type V = Seq<u8>;

    open spec fn view(&self) -> Seq<u8> {
        self.bytes@
    }
}

impl Principal {
    pub open spec fn is_anonymous_spec(&self) -> bool {
        self@ == anonymous_bytes()
    }

    /// The anonymous identity.
    pub fn anonymous() -> (r: Principal)
        ensures
            r@ == anonymous_bytes(),
    {
        let r = Principal { bytes: vec![4u8] };
        assert(r@ =~= anonymous_bytes());
        r
    }

    /// Whether this is the anonymous identity.
    pub fn is_anonymous(&self) -> (r: bool)
        ensures
            r == self.is_anonymous_spec(),
    {
        let r = self.bytes.len() == 1 && self.bytes[0] == 4u8;
        proof {
            if r {
                assert(self@ =~= anonymous_bytes());
            }
        }
        r
    }

    /// A principal with the same bytes.
    pub fn duplicate(&self) -> (r: Principal)
        ensures
            r@ == self@,
    {
        Principal { bytes: copy_bytes(&self.bytes) }
    }
}

/// A fresh vector with the same bytes as `v`.
pub(crate) fn copy_bytes(v: &Vec<u8>) -> (r: Vec<u8>)
    ensures
        r@ == v@,
{
    let mut r: Vec<u8> = Vec::with_capacity(v.len());
    let mut i: usize = 0;
    while i < v.len()
        invariant
            0 <= i <= v@.len(),
            r@ == v@.subrange(0, i as int),
        decreases v@.len() - i,
    {
        r.push(v[i]);
        i = i + 1;
        assert(r@ =~= v@.subrange(0, i as int));
    }
    assert(r@ =~= v@);
    r
}

/// An account on a ledger: an owner and an optional 32-byte subaccount.
#[derive(Clone, Debug)]
pub struct Account {
    pub owner: Principal,
    pub subaccount: Option<[u8; 32]>,
}

/// The configuration handed to a freshly installed module as its startup
/// argument.
#[derive(Clone, Debug)]
pub struct InitArg {
    pub name: String,
    pub symbol: String,
    pub tx_window: u16,
    pub permitted_drift: u16,
    pub minting_authority: Option<Principal>,
    pub royalties: Option<u16>,
    pub royalties_recipient: Option<Account>,
    pub description: Option<String>,
    pub image: Option<Vec<u8>>,
    pub supply_cap: Option<u128>,
    pub wasm_name: String,
}

/// What a caller asks for when creating a collection: the part of
/// [`InitArg`] that is the caller's to choose.
#[derive(Clone, Debug)]
pub struct CreateArg {
    pub name: String,
    pub symbol: String,
    pub royalties: Option<u16>,
    pub royalties_recipient: Option<Account>,
    pub description: Option<String>,
    pub image: Option<Vec<u8>>,
    pub supply_cap: Option<u128>,
    pub wasm_name: String,
}

/// The transaction window that every new collection starts with.
pub const DEFAULT_TX_WINDOW: u16 = 1;

/// The clock drift that every new collection permits.
pub const DEFAULT_PERMITTED_DRIFT: u16 = 1;

/// The startup record for a collection that `caller` asked for with `arg`:
/// the caller becomes the minting authority, the timing parameters take
/// their defaults, and every other field is the request's own.
pub open spec fn init_arg_of(caller: Principal, arg: CreateArg) -> InitArg {
    InitArg {
        name: arg.name,
        symbol: arg.symbol,
        tx_window: DEFAULT_TX_WINDOW,
        permitted_drift: DEFAULT_PERMITTED_DRIFT,
        minting_authority: Some(caller),
        royalties: arg.royalties,
        royalties_recipient: arg.royalties_recipient,
        description: arg.description,
        image: arg.image,
        supply_cap: arg.supply_cap,
        wasm_name: arg.wasm_name,
    }
}

impl From<(Principal, CreateArg)> for InitArg {
    fn from(input: (Principal, CreateArg)) -> (r: InitArg) {
        let (minting_authority, arg) = input;
        InitArg {
            name: arg.name,
            symbol: arg.symbol,
            tx_window: DEFAULT_TX_WINDOW,
            permitted_drift: DEFAULT_PERMITTED_DRIFT,
            minting_authority: Some(minting_authority),
            royalties: arg.royalties,
            royalties_recipient: arg.royalties_recipient,
            description: arg.description,
            image: arg.image,
            supply_cap: arg.supply_cap,
            wasm_name: arg.wasm_name,
        }
    }
}

impl vstd::std_specs::convert::FromSpecImpl<(Principal, CreateArg)> for InitArg {
    open spec fn obeys_from_spec() -> bool {
        true
    }

    open spec fn from_spec(input: (Principal, CreateArg)) -> InitArg {
        init_arg_of(input.0, input.1)
    }
}

/// A request that leaves every optional field unset gives a startup record
/// whose optional fields are unset too, not filled with empty or zero values.
pub proof fn lemma_unset_fields_stay_unset(caller: Principal, arg: CreateArg)
    requires
        arg.description is None,
        arg.image is None,
        arg.royalties is None,
        arg.royalties_recipient is None,
        arg.supply_cap is None,
    ensures
        init_arg_of(caller, arg).description is None,
        init_arg_of(caller, arg).image is None,
        init_arg_of(caller, arg).royalties is None,
        init_arg_of(caller, arg).royalties_recipient is None,
        init_arg_of(caller, arg).supply_cap is None,
{
}

/// A mint request as a caller sends it to the proxy: the item, its
/// recipient, and which unit (and of which module kind) should mint it.
#[derive(Clone, Debug)]
pub struct MintArgs {
    pub id: u128,
    pub name: String,
    pub description: Option<String>,
    pub image: String,
    pub to: Account,
    pub canister_name: String,
    pub canister_id: String,
}

/// The mint arguments as a ledger module receives them.
#[derive(Clone, Debug)]
pub struct Args {
    pub id: u128,
    pub name: String,
    pub description: Option<String>,
    pub to: Account,
    pub image: Option<Vec<u8>>,
}

/// The id that a ledger module assigned to a minted item.
#[derive(Clone, Debug)]
pub struct ICRC7Response(pub u128);

/// The message with which a ledger module refused a mint.
#[derive(Clone, Debug)]
pub struct ICRC7Err(pub String);

/// What the proxy answers to every mint request.
#[derive(Clone, Debug)]
pub enum MintResponse {
    ok(ICRC7Response),
    other(String),
    err(ICRC7Err),
}

} // verus!
