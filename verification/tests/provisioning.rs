use solana_wallet::errors::{Fault, ProvisioningError, Stage};
use solana_wallet::json::{JsonLookup, JsonNode};
use solana_wallet::provisioning::{
    create_token_account_form, fund_wallet_form, funding_from_node, read_account_creation_reply,
    read_funding_reply, signatures_from_nodes, HttpReply, STATUS_OK,
};
use solana_wallet::structs::{CreateTokenAccount, CreateTokenAccountResponse};

fn response(status: u16, body: &str) -> HttpReply {
    HttpReply::Response { status, body: String::from(body) }
}

/// The failure for a compact JSON document of the wrong shape.
fn wrong_shape(document: &str) -> ProvisioningError {
    ProvisioningError::Malformed { fault: Fault::WrongShape { document: String::from(document) } }
}

fn not_json(cause: &str) -> ProvisioningError {
    ProvisioningError::Malformed { fault: Fault::NotJson { cause: String::from(cause) } }
}

fn found(node: JsonNode, document: &str) -> Result<JsonLookup, String> {
    Ok(JsonLookup { node, document: String::from(document) })
}

#[test]
fn the_funding_form_names_the_wallet() {
    assert_eq!(fund_wallet_form("9xQe"), "wallet_address=9xQe");
    assert_eq!(fund_wallet_form(""), "wallet_address=");
}

#[test]
fn the_creation_form_has_four_fields_in_order() {
    let request = CreateTokenAccount {
        wallet_address: String::from("W"),
        token_mint_address: String::from("M"),
        token_program_id: String::from("P"),
        lbh: String::from("H"),
    };
    assert_eq!(
        create_token_account_form(&request),
        "wallet_address=W&token_mint_address=M&token_program_id=P&lbh=H"
    );
    assert_eq!(
        create_token_account_form(&CreateTokenAccount::default()),
        "wallet_address=&token_mint_address=&token_program_id=&lbh="
    );
}

#[test]
fn a_funding_acknowledgement_yields_its_signature() {
    assert_eq!(STATUS_OK, 200);
    assert_eq!(read_funding_reply(&response(200, r#"{"Ok":"5sig"}"#)), Ok(String::from("5sig")));
    assert_eq!(
        read_funding_reply(&response(200, " { \"Ok\" : \"a\\\"b\" , \"more\" : 1 } ")),
        Ok(String::from("a\"b"))
    );
}

#[test]
fn a_funding_reply_without_ok_is_malformed() {
    let bodies = [r#"{"Err":"no funds"}"#, "{}", "[]", "null", r#""Ok""#, r#"{"ok":"sig"}"#];
    assert_eq!(
        read_funding_reply(&response(200, " { } ")),
        Err(wrong_shape("{}"))
    );
    for body in bodies.iter() {
        assert_eq!(read_funding_reply(&response(200, body)), Err(wrong_shape(body)), "{}", body);
    }
}

#[test]
fn a_funding_reply_whose_ok_is_no_string_is_malformed() {
    let bodies = [r#"{"Ok":1}"#, r#"{"Ok":null}"#, r#"{"Ok":["sig"]}"#, r#"{"Ok":{"signatures":["a","b"]}}"#];
    for body in bodies.iter() {
        assert_eq!(read_funding_reply(&response(200, body)), Err(wrong_shape(body)), "{}", body);
    }
}

#[test]
fn a_reply_that_is_no_json_is_malformed() {
    let bodies = ["", "internal error", r#"{"Ok":"sig""#, r#"{"Ok":"sig"} trailing"#];
    for body in bodies.iter() {
        let funding = read_funding_reply(&response(200, body));
        assert!(matches!(funding, Err(ProvisioningError::Malformed { .. })), "{}", body);
        let creation = read_account_creation_reply(&response(200, body));
        assert!(matches!(creation, Err(ProvisioningError::Malformed { .. })), "{}", body);
    }
    let cause = "EOF while parsing a value at line 1 column 0";
    assert_eq!(read_funding_reply(&response(200, "")), Err(not_json(cause)));
    assert_eq!(read_account_creation_reply(&response(200, "")), Err(not_json(cause)));
    assert_eq!(
        read_funding_reply(&response(200, "internal error")),
        Err(not_json("expected value at line 1 column 1"))
    );
}

#[test]
fn a_wrong_shape_is_reported_with_the_document_written_out_again() {
    let body = " { \"b\" : [ 1 , 2 ] ,\n \"a\" : null } ";
    let document = r#"{"a":null,"b":[1,2]}"#;
    assert_eq!(read_funding_reply(&response(200, body)), Err(wrong_shape(document)));
    assert_eq!(read_account_creation_reply(&response(200, body)), Err(wrong_shape(document)));
}

#[test]
fn a_funding_signature_is_the_text_under_ok() {
    let text = found(JsonNode::Text(String::from("sig")), r#"{"Ok":"sig"}"#);
    assert_eq!(funding_from_node(text), Ok(String::from("sig")));
    assert_eq!(funding_from_node(found(JsonNode::Text(String::new()), "x")), Ok(String::new()));
    let others = [
        JsonNode::Missing,
        JsonNode::Other,
        JsonNode::Array(vec![]),
        JsonNode::Array(vec![Some(String::from("sig"))]),
    ];
    for node in others {
        assert_eq!(funding_from_node(found(node, "{}")), Err(wrong_shape("{}")));
    }
    assert_eq!(funding_from_node(Err(String::from("EOF"))), Err(not_json("EOF")));
}

#[test]
fn two_signatures_are_the_two_texts_under_ok_signatures() {
    let pair = |first: Option<&str>, second: Option<&str>| {
        JsonNode::Array(vec![first.map(String::from), second.map(String::from)])
    };
    let ok = || found(JsonNode::Other, "doc");
    assert_eq!(
        signatures_from_nodes(ok(), found(pair(Some("c"), Some("p")), "doc")),
        Ok(CreateTokenAccountResponse { signatures: vec![String::from("c"), String::from("p")] })
    );
    let wrong = [
        pair(Some("c"), None),
        pair(None, Some("p")),
        JsonNode::Array(vec![]),
        JsonNode::Array(vec![Some(String::from("c"))]),
        JsonNode::Array(vec![Some(String::from("a")), Some(String::from("b")), Some(String::from("c"))]),
        JsonNode::Text(String::from("c")),
        JsonNode::Missing,
        JsonNode::Other,
    ];
    for node in wrong {
        assert_eq!(signatures_from_nodes(ok(), found(node, "doc")), Err(wrong_shape("doc")));
    }
    let good = || found(pair(Some("c"), Some("p")), "doc");
    assert_eq!(signatures_from_nodes(found(JsonNode::Missing, "top"), good()), Err(wrong_shape("top")));
    assert_eq!(signatures_from_nodes(Err(String::from("EOF")), good()), Err(not_json("EOF")));
    assert_eq!(signatures_from_nodes(ok(), Err(String::from("EOF"))), Err(not_json("EOF")));
}

#[test]
fn another_status_is_a_rejection() {
    let statuses: [u16; 6] = [0, 199, 201, 404, 500, 65535];
    for status in statuses.iter() {
        let reply = response(*status, r#"{"Ok":"sig"}"#);
        assert_eq!(read_funding_reply(&reply), Err(ProvisioningError::Rejected { status: *status }));
        let reply = response(*status, r#"{"Ok":{"signatures":["a","b"]}}"#);
        assert_eq!(
            read_account_creation_reply(&reply),
            Err(ProvisioningError::Rejected { status: *status })
        );
    }
}

#[test]
fn an_undelivered_request_is_unreachable() {
    for stage in [Stage::Build, Stage::Send, Stage::Read] {
        let reply = HttpReply::Unreachable { stage, cause: String::from("connection refused") };
        let expected =
            ProvisioningError::Unreachable { stage, cause: String::from("connection refused") };
        assert_eq!(read_funding_reply(&reply), Err(expected.clone()));
        assert_eq!(read_account_creation_reply(&reply), Err(expected));
    }
}

#[test]
fn a_creation_acknowledgement_yields_two_signatures_in_order() {
    let reply = response(200, r#"{"Ok":{"signatures":["creation","paired"]}}"#);
    assert_eq!(
        read_account_creation_reply(&reply),
        Ok(CreateTokenAccountResponse {
            signatures: vec![String::from("creation"), String::from("paired")]
        })
    );
}

#[test]
fn a_creation_reply_without_ok_is_malformed() {
    let bodies = [r#"{"Err":"exists"}"#, "{}", r#"{"signatures":["a","b"]}"#, "[]"];
    for body in bodies.iter() {
        assert_eq!(
            read_account_creation_reply(&response(200, body)),
            Err(wrong_shape(body)),
            "{}",
            body
        );
    }
}

#[test]
fn a_creation_reply_needs_exactly_two_strings() {
    let bodies = [
        r#"{"Ok":"sig"}"#,
        r#"{"Ok":{}}"#,
        r#"{"Ok":{"signatures":"a"}}"#,
        r#"{"Ok":{"signatures":[]}}"#,
        r#"{"Ok":{"signatures":["a"]}}"#,
        r#"{"Ok":{"signatures":["a","b","c"]}}"#,
        r#"{"Ok":{"signatures":["a",2]}}"#,
        r#"{"Ok":{"signatures":[null,"b"]}}"#,
        r#"{"Ok":{"signatures":{"0":"a","1":"b"}}}"#,
    ];
    for body in bodies.iter() {
        assert_eq!(
            read_account_creation_reply(&response(200, body)),
            Err(wrong_shape(body)),
            "{}",
            body
        );
    }
}
