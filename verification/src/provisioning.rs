//! The two calls to the provisioning backend: what is sent, and how the
//! reply is read.

use crate::errors::{Fault, ProvisioningError, Stage};
use crate::json::{
    json_at, json_error, json_node_at, json_rendering, JsonLookup, JsonNode, JsonView,
};
use crate::structs::{CreateTokenAccount, CreateTokenAccountResponse};
use vstd::prelude::*;
use vstd::string::StringExecFns;

verus! {

/// The only status that the backend uses for success.
pub const STATUS_OK: u16 = 200;

/// How a request to the backend ended, before the reply is read.
#[derive(Debug, Clone, PartialEq, Eq)]
pub enum HttpReply {
    /// The request broke off at `stage`, for the reason `cause`.
    Unreachable { stage: Stage, cause: String },
    /// A response arrived.
    Response { status: u16, body: String },
}

/// The form body of a fund-wallet request.
pub open spec fn fund_wallet_form_text(wallet_address: Seq<char>) -> Seq<char> {
    "wallet_address="@ + wallet_address
}

/// The form body of a create-token-account request.
pub open spec fn create_token_account_form_text(
    wallet_address: Seq<char>,
    token_mint_address: Seq<char>,
    token_program_id: Seq<char>,
    lbh: Seq<char>,
) -> Seq<char> {
    "wallet_address="@ + wallet_address + "&token_mint_address="@ + token_mint_address
        + "&token_program_id="@ + token_program_id + "&lbh="@ + lbh
}

/// Writes the form body that asks the backend to fund a wallet.
pub fn fund_wallet_form(wallet_address: &str) -> (form: String)
    ensures
        form@ == fund_wallet_form_text(wallet_address@),
{
    String::from_str("wallet_address=").concat(wallet_address)
}

/// Writes the form body that asks the backend to create an associated token
/// account.
pub fn create_token_account_form(request: &CreateTokenAccount) -> (form: String)
    ensures
        form@ == create_token_account_form_text(
            request.wallet_address@,
            request.token_mint_address@,
            request.token_program_id@,
            request.lbh@,
        ),
{
    String::from_str("wallet_address=").concat(request.wallet_address.as_str()).concat(
        "&token_mint_address=",
    ).concat(request.token_mint_address.as_str()).concat("&token_program_id=").concat(
        request.token_program_id.as_str(),
    ).concat("&lbh=").concat(request.lbh.as_str())
}

/// Whether a response body is a JSON document with a value under `Ok`.
pub open spec fn has_ok_field(body: Seq<char>) -> bool {
    json_at(body, "/Ok"@) matches Some(node) && !(node is Missing)
}

/// `e` reports a body that is no JSON document, with the parser's message.
pub open spec fn is_not_json(e: ProvisioningError, cause: Seq<char>) -> bool {
    e matches ProvisioningError::Malformed { fault: Fault::NotJson { cause: c } } && c@ == cause
}

/// `e` reports a JSON document of the wrong shape, with the document.
pub open spec fn is_wrong_shape(e: ProvisioningError, document: Seq<char>) -> bool {
    e matches ProvisioningError::Malformed { fault: Fault::WrongShape { document: d } } && d@
        == document
}

/// `e` reports a request that broke off at `stage` for the reason `cause`.
pub open spec fn is_unreachable(e: ProvisioningError, stage: Stage, cause: Seq<char>) -> bool {
    e matches ProvisioningError::Unreachable { stage: s, cause: c } && s == stage && c@ == cause
}

/// How the lookup of `Ok` in the body of a fund-wallet acknowledgement
/// reads: the signature is the string found there.
pub open spec fn funding_reading(
    ok: Result<JsonLookup, String>,
    r: Result<String, ProvisioningError>,
) -> bool {
    match ok {
        Err(cause) => r matches Err(e) && is_not_json(e, cause@),
        Ok(found) => match found.node@ {
            JsonView::Text(signature) => r matches Ok(s) && s@ == signature,
            _ => r matches Err(e) && is_wrong_shape(e, found.document@),
        },
    }
}

/// Reads the signature of a fund-wallet acknowledgement from the lookup of
/// `Ok` in its body.
pub fn funding_from_node(ok: Result<JsonLookup, String>) -> (r: Result<String, ProvisioningError>)
    ensures
        funding_reading(ok, r),
{
    match ok {
        Err(cause) => Err(ProvisioningError::Malformed { fault: Fault::NotJson { cause } }),
        Ok(found) => match found.node {
            JsonNode::Text(signature) => Ok(signature),
            _ => Err(
                ProvisioningError::Malformed {
                    fault: Fault::WrongShape { document: found.document },
                },
            ),
        },
    }
}

/// How the reply to a fund-wallet request reads: the signature is the
/// string under `Ok`.
pub open spec fn funding_outcome(reply: HttpReply, r: Result<String, ProvisioningError>) -> bool {
    match reply {
        HttpReply::Unreachable { stage, cause } => r matches Err(e) && is_unreachable(
            e,
            stage,
            cause@,
        ),
        HttpReply::Response { status, body } => if status != STATUS_OK {
            r == Err::<String, ProvisioningError>(ProvisioningError::Rejected { status })
        } else {
            match json_at(body@, "/Ok"@) {
                Some(JsonView::Text(signature)) => r matches Ok(s) && s@ == signature,
                Some(_) => r matches Err(e) && is_wrong_shape(e, json_rendering(body@)),
                None => r matches Err(e) && is_not_json(e, json_error(body@)),
            }
        },
    }
}

/// Reads the reply to a fund-wallet request.
pub fn read_funding_reply(reply: &HttpReply) -> (r: Result<String, ProvisioningError>)
    ensures
        funding_outcome(*reply, r),
{
    match reply {
        HttpReply::Unreachable { stage, cause } => Err(
            ProvisioningError::Unreachable { stage: *stage, cause: cause.clone() },
        ),
        HttpReply::Response { status, body } => {
            if *status != STATUS_OK {
                return Err(ProvisioningError::Rejected { status: *status });
            }
            funding_from_node(json_node_at(body.as_str(), "/Ok"))
        },
    }
}

/// Whether an array under `Ok.signatures` is exactly two strings.
pub open spec fn two_signatures(items: Seq<Option<Seq<char>>>) -> bool {
    items.len() == 2 && items[0] is Some && items[1] is Some
}

/// `r` is the acknowledgement with the two strings of `items`, in their
/// order.
pub open spec fn holds_signatures(
    r: Result<CreateTokenAccountResponse, ProvisioningError>,
    items: Seq<Option<Seq<char>>>,
) -> bool {
    &&& r matches Ok(response)
    &&& response.signatures@.len() == 2
    &&& response.signatures@[0]@ == items[0]->0
    &&& response.signatures@[1]@ == items[1]->0
}

/// How the lookups of `Ok` and of `Ok.signatures` in the body of a
/// create-token-account acknowledgement read: the two signatures are the
/// two strings of the array found under `Ok.signatures`, in their order.
pub open spec fn signatures_reading(
    ok: Result<JsonLookup, String>,
    signatures: Result<JsonLookup, String>,
    r: Result<CreateTokenAccountResponse, ProvisioningError>,
) -> bool {
    match ok {
        Err(cause) => r matches Err(e) && is_not_json(e, cause@),
        Ok(under_ok) => if under_ok.node is Missing {
            r matches Err(e) && is_wrong_shape(e, under_ok.document@)
        } else {
            match signatures {
                Err(cause) => r matches Err(e) && is_not_json(e, cause@),
                Ok(found) => match found.node@ {
                    JsonView::Array(items) => if two_signatures(items) {
                        holds_signatures(r, items)
                    } else {
                        r matches Err(e) && is_wrong_shape(e, found.document@)
                    },
                    _ => r matches Err(e) && is_wrong_shape(e, found.document@),
                },
            }
        },
    }
}

/// Reads the two signatures of a create-token-account acknowledgement from
/// the lookups of `Ok` and of `Ok.signatures` in its body.
pub fn signatures_from_nodes(
    ok: Result<JsonLookup, String>,
    signatures: Result<JsonLookup, String>,
) -> (r: Result<CreateTokenAccountResponse, ProvisioningError>)
    ensures
        signatures_reading(ok, signatures, r),
{
    match ok {
        Err(cause) => {
            return Err(ProvisioningError::Malformed { fault: Fault::NotJson { cause } });
        },
        Ok(under_ok) => match under_ok.node {
            JsonNode::Missing => {
                return Err(
                    ProvisioningError::Malformed {
                        fault: Fault::WrongShape { document: under_ok.document },
                    },
                );
            },
            _ => {},
        },
    }
    let found = match signatures {
        Err(cause) => {
            return Err(ProvisioningError::Malformed { fault: Fault::NotJson { cause } });
        },
        Ok(found) => found,
    };
    let document = found.document;
    match found.node {
        JsonNode::Array(mut items) => {
            if items.len() != 2 {
                return Err(
                    ProvisioningError::Malformed { fault: Fault::WrongShape { document } },
                );
            }
            let second = items.pop();
            let first = items.pop();
            match (first, second) {
                (Some(Some(creation)), Some(Some(paired))) => {
                    let mut signatures: Vec<String> = Vec::new();
                    signatures.push(creation);
                    signatures.push(paired);
                    Ok(CreateTokenAccountResponse { signatures })
                },
                _ => Err(ProvisioningError::Malformed { fault: Fault::WrongShape { document } }),
            }
        },
        _ => Err(ProvisioningError::Malformed { fault: Fault::WrongShape { document } }),
    }
}

/// How the reply to a create-token-account request reads: the two
/// signatures are the two strings of the array under `Ok.signatures`, in
/// their order.
pub open spec fn account_creation_outcome(
    reply: HttpReply,
    r: Result<CreateTokenAccountResponse, ProvisioningError>,
) -> bool {
    match reply {
        HttpReply::Unreachable { stage, cause } => r matches Err(e) && is_unreachable(
            e,
            stage,
            cause@,
        ),
        HttpReply::Response { status, body } => if status != STATUS_OK {
            r == Err::<CreateTokenAccountResponse, ProvisioningError>(
                ProvisioningError::Rejected { status },
            )
        } else if json_at(body@, "/Ok"@) is None {
            r matches Err(e) && is_not_json(e, json_error(body@))
        } else if !has_ok_field(body@) {
            r matches Err(e) && is_wrong_shape(e, json_rendering(body@))
        } else {
            match json_at(body@, "/Ok/signatures"@) {
                Some(JsonView::Array(items)) => if two_signatures(items) {
                    holds_signatures(r, items)
                } else {
                    r matches Err(e) && is_wrong_shape(e, json_rendering(body@))
                },
                Some(_) => r matches Err(e) && is_wrong_shape(e, json_rendering(body@)),
                None => r matches Err(e) && is_not_json(e, json_error(body@)),
            }
        },
    }
}

/// Reads the reply to a create-token-account request.
pub fn read_account_creation_reply(reply: &HttpReply) -> (r: Result<
    CreateTokenAccountResponse,
    ProvisioningError,
>)
    ensures
        account_creation_outcome(*reply, r),
{
    match reply {
        HttpReply::Unreachable { stage, cause } => Err(
            ProvisioningError::Unreachable { stage: *stage, cause: cause.clone() },
        ),
        HttpReply::Response { status, body } => {
            if *status != STATUS_OK {
                return Err(ProvisioningError::Rejected { status: *status });
            }
            let ok = json_node_at(body.as_str(), "/Ok");
            let signatures = json_node_at(body.as_str(), "/Ok/signatures");
            signatures_from_nodes(ok, signatures)
        },
    }
}

/// A response with status 200 whose body has no value under `Ok` is never a
/// success: both replies read as a malformed acknowledgement.
pub proof fn law_reply_without_ok_is_malformed(
    body: String,
    funding: Result<String, ProvisioningError>,
    creation: Result<CreateTokenAccountResponse, ProvisioningError>,
)
    requires
        !has_ok_field(body@),
        funding_outcome(HttpReply::Response { status: STATUS_OK, body }, funding),
        account_creation_outcome(HttpReply::Response { status: STATUS_OK, body }, creation),
    ensures
        funding matches Err(e) && e is Malformed,
        creation matches Err(e) && e is Malformed,
{
}

} // verus!
