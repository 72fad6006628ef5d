//! The mint proxy: one mint request, sent in the shape that the target
//! unit's module kind expects, and its answer read back into a
//! [`MintResponse`].
use crate::outside::{json_string_bytes, principal_from_text, principal_text_decode, string_to_json};
use crate::registry::ICRC7_MODULE;
use crate::types::{Args, ICRC7Err, ICRC7Response, MintArgs, MintResponse, Principal};
use vstd::prelude::*;
use vstd::string::*;

verus! {

/// The method of an ICRC-7 ledger that mints an item.
pub const ICRC7_MINT_METHOD: &'static str = "icrc7_mint";

/// The answer to a mint aimed at a module kind that the proxy cannot speak to.
pub const UNKNOWN_KIND_MESSAGE: &'static str = "invalid canister id";

/// Why a mint aborts when the target's address is no valid principal text.
pub const BAD_ADDRESS_MESSAGE: &'static str = "Invalid principal text for the target canister";

/// What the proxy is to do with a mint request.
pub enum MintAction {
    /// Call `method` on `canister_id` with `args`, then read its answer with
    /// [`finish_mint`].
    Call { canister_id: Principal, method: String, args: Args },
    /// Answer at once, with no call.
    Reply(MintResponse),
    /// Abort the request with this message.
    Trap(String),
}

/// Whether `action` is what the proxy does with `req`, where the target's
/// address text decodes to `target` (or to nothing) and the image text
/// encodes to `image`.
pub open spec fn is_mint_plan(req: MintArgs, target: Option<Seq<u8>>, image: Seq<u8>, action: MintAction) -> bool {
    match target {
        None => action matches MintAction::Trap(m) && m@ == BAD_ADDRESS_MESSAGE@,
        Some(t) => if req.canister_name@ == ICRC7_MODULE@ {
            &&& action matches MintAction::Call { canister_id, method, args }
            &&& canister_id@ == t
            &&& method@ == ICRC7_MINT_METHOD@
            &&& args.id == req.id
            &&& args.name == req.name
            &&& args.description == req.description
            &&& args.to == req.to
            &&& args.image matches Some(i) && i@ == image
        } else {
            action matches MintAction::Reply(MintResponse::other(m)) && m@ == UNKNOWN_KIND_MESSAGE@
        },
    }
}

/// The proxy's plan for `req`, where the address text decodes to `target`
/// and the image text encodes to `image`: an ICRC-7 target gets a mint
/// call, any other kind an answer with no call, and an address that did
/// not decode aborts.
pub fn plan_mint(req: MintArgs, target: Option<Principal>, image: Vec<u8>) -> (r: MintAction)
    ensures
        is_mint_plan(
            req,
            match target {
                Some(p) => Some(p@),
                None => None,
            },
            image@,
            r,
        ),
{
    match target {
        None => MintAction::Trap(String::from_str(BAD_ADDRESS_MESSAGE)),
        Some(canister_id) => {
            if req.canister_name == String::from_str(ICRC7_MODULE) {
                let args = Args {
                    id: req.id,
                    name: req.name,
                    description: req.description,
                    to: req.to,
                    image: Some(image),
                };
                MintAction::Call { canister_id, method: String::from_str(ICRC7_MINT_METHOD), args }
            } else {
                MintAction::Reply(MintResponse::other(String::from_str(UNKNOWN_KIND_MESSAGE)))
            }
        },
    }
}

/// What the proxy does with `req`: the target's address is parsed, the
/// image is re-encoded as a JSON string, and the request is dispatched on
/// its module kind.
pub fn start_mint(req: MintArgs) -> (r: MintAction)
    ensures
        is_mint_plan(req, principal_text_decode(req.canister_id@), json_string_bytes(req.image@), r),
{
    let target = principal_from_text(req.canister_id.as_str());
    let image = string_to_json(&req.image);
    plan_mint(req, target, image)
}

/// The response for what a module answered to a mint call.
pub open spec fn mint_response_of(reply: Result<u128, String>) -> MintResponse {
    match reply {
        Ok(id) => MintResponse::ok(ICRC7Response(id)),
        Err(message) => MintResponse::err(ICRC7Err(message)),
    }
}

/// Reads what a module answered to a mint call: the id that it assigned,
/// or the message with which the call was rejected, word for word.
pub fn finish_mint(reply: Result<u128, String>) -> (r: MintResponse)
    ensures
        r == mint_response_of(reply),
{
    match reply {
        Ok(id) => MintResponse::ok(ICRC7Response(id)),
        Err(message) => MintResponse::err(ICRC7Err(message)),
    }
}

/// Whether two responses are the same answer: the same variant with the
/// same id or the same message.
pub open spec fn same_response(a: MintResponse, b: MintResponse) -> bool {
    match (a, b) {
        (MintResponse::ok(x), MintResponse::ok(y)) => x.0 == y.0,
        (MintResponse::other(x), MintResponse::other(y)) => x@ == y@,
        (MintResponse::err(x), MintResponse::err(y)) => x.0@ == y.0@,
        _ => false,
    }
}

/// Whether two answers of a module are the same answer: the same id, or a
/// rejection with the same message.
pub open spec fn same_reply(a: Result<u128, String>, b: Result<u128, String>) -> bool {
    match (a, b) {
        (Ok(x), Ok(y)) => x == y,
        (Err(x), Err(y)) => x@ == y@,
        _ => false,
    }
}

/// Whether two actions do the same thing: the same call with the same
/// arguments, the same answer, or an abort with the same message.
pub open spec fn same_mint_action(a: MintAction, b: MintAction) -> bool {
    match (a, b) {
        (
            MintAction::Call { canister_id: c1, method: m1, args: x1 },
            MintAction::Call { canister_id: c2, method: m2, args: x2 },
        ) => {
            &&& c1@ == c2@
            &&& m1@ == m2@
            &&& x1.id == x2.id
            &&& x1.name == x2.name
            &&& x1.description == x2.description
            &&& x1.to == x2.to
            &&& x1.image matches Some(i1) && x2.image matches Some(i2) && i1@ == i2@
        },
        (MintAction::Reply(r1), MintAction::Reply(r2)) => same_response(r1, r2),
        (MintAction::Trap(m1), MintAction::Trap(m2)) => m1@ == m2@,
        _ => false,
    }
}

/// The proxy keeps no state between requests: the same request is planned
/// the same way every time, and the same answer from the target unit reads
/// as the same response.
pub proof fn lemma_mint_repeatable(
    req: MintArgs,
    target: Option<Seq<u8>>,
    image: Seq<u8>,
    first: MintAction,
    second: MintAction,
    first_reply: Result<u128, String>,
    second_reply: Result<u128, String>,
)
    requires
        is_mint_plan(req, target, image, first),
        is_mint_plan(req, target, image, second),
        same_reply(first_reply, second_reply),
    ensures
        same_mint_action(first, second),
        same_response(mint_response_of(first_reply), mint_response_of(second_reply)),
{
}

/// A request aimed at any module kind but ICRC-7 is answered with
/// `other("invalid canister id")`, whatever else it holds, and no call is
/// made.
pub proof fn lemma_unknown_kind_makes_no_call(
    req: MintArgs,
    target: Seq<u8>,
    image: Seq<u8>,
    action: MintAction,
)
    requires
        req.canister_name@ != ICRC7_MODULE@,
        is_mint_plan(req, Some(target), image, action),
    ensures
        action !is Call,
        action matches MintAction::Reply(MintResponse::other(m)) && m@ == UNKNOWN_KIND_MESSAGE@,
{
}

} // verus!
