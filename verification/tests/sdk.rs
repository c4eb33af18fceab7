use open_epistemic_sdk::client::interpret_create_governance_proposal;
use open_epistemic_sdk::client::interpret_get_claim;
use open_epistemic_sdk::client::interpret_get_consensus_for_claim;
use open_epistemic_sdk::client::interpret_get_governance_params;
use open_epistemic_sdk::client::interpret_get_health;
use open_epistemic_sdk::client::interpret_get_ledger_root;
use open_epistemic_sdk::client::interpret_get_validator;
use open_epistemic_sdk::client::interpret_get_votes_for_claim;
use open_epistemic_sdk::client::interpret_register_validator;
use open_epistemic_sdk::client::interpret_submit_claim;
use open_epistemic_sdk::client::interpret_submit_vote;
use open_epistemic_sdk::client::make_submit_vote_request;
use open_epistemic_sdk::client::OpenEpistemicClient;
use open_epistemic_sdk::codec::encode_proposal;
use open_epistemic_sdk::codec::encode_register_validator;
use open_epistemic_sdk::codec::encode_submit_claim;
use open_epistemic_sdk::codec::encode_submit_vote;
use open_epistemic_sdk::json::to_json_text;
use open_epistemic_sdk::json::Json;
use open_epistemic_sdk::num::parse_i32;
use open_epistemic_sdk::num::u64_to_dec;
use open_epistemic_sdk::num::i32_to_dec;
use open_epistemic_sdk::parse::is_number_text;
use open_epistemic_sdk::parse::parse_json;
use open_epistemic_sdk::types::CreateGovernanceProposalRequest;
use open_epistemic_sdk::types::RegisterValidatorRequest;
use open_epistemic_sdk::types::SubmitClaimRequest;
use open_epistemic_sdk::OpenEpistemicError;

#[test]
fn test_default_base_url() {
    let c = OpenEpistemicClient::new(None);
    assert_eq!(c.health_url(), "http://localhost:8000/health");
    let c2 = OpenEpistemicClient::new(Some("https://api.example.com"));
    assert_eq!(c2.health_url(), "https://api.example.com/health");
    assert_eq!(c2.validator_url("v-1"), "https://api.example.com/validators/v-1");
    assert_eq!(c2.claim_url("c-1"), "https://api.example.com/claims/c-1");
    assert_eq!(c2.claim_votes_url("c-1"), "https://api.example.com/claims/c-1/votes");
    assert_eq!(
        c2.consensus_url("c-1"),
        "https://api.example.com/validation/claims/c-1/consensus"
    );
    assert_eq!(c2.validators_url(), "https://api.example.com/validators");
    assert_eq!(c2.claims_url(), "https://api.example.com/claims");
    assert_eq!(c2.votes_url(), "https://api.example.com/votes");
    assert_eq!(c2.governance_params_url(), "https://api.example.com/governance/params");
    assert_eq!(c2.governance_proposals_url(), "https://api.example.com/governance/proposals");
    assert_eq!(c2.ledger_root_url(), "https://api.example.com/ledger/root");
}

#[test]
fn test_health_ok_scenario() {
    let r = interpret_get_health(200, "{\"status\":\"ok\"}").unwrap();
    assert_eq!(r.status, "ok");
    let r2 = interpret_get_health(200, "{\"status\":\"caf\\u00e9\"}").unwrap();
    assert_eq!(r2.status, "caf\u{e9}");
}

#[test]
fn test_get_validator_not_found() {
    let e = interpret_get_validator(404, "").unwrap_err();
    assert_eq!(
        e,
        OpenEpistemicError::ApiError {
            status: 404,
            message: "Get validator failed with status: 404".to_string(),
        }
    );
}

#[test]
fn test_submit_claim_body_exact() {
    let req = SubmitClaimRequest {
        statement: "S".to_string(),
        domain: "D".to_string(),
        proposer_id: "P".to_string(),
        evidence_refs: vec!["http://e".to_string()],
    };
    assert_eq!(
        encode_submit_claim(&req),
        "{\"statement\":\"S\",\"domain\":\"D\",\"proposer_id\":\"P\",\"evidence_refs\":[\"http://e\"]}"
    );
}

#[test]
fn test_submit_claim_empty_evidence() {
    let req = SubmitClaimRequest {
        statement: "S".to_string(),
        domain: "D".to_string(),
        proposer_id: "P".to_string(),
        evidence_refs: vec![],
    };
    assert_eq!(
        encode_submit_claim(&req),
        "{\"statement\":\"S\",\"domain\":\"D\",\"proposer_id\":\"P\",\"evidence_refs\":[]}"
    );
}

#[test]
fn test_success_status_with_non_json_body() {
    let e = interpret_get_health(200, "not json").unwrap_err();
    assert!(matches!(e, OpenEpistemicError::InvalidResponse(_)));
}

#[test]
fn test_success_status_with_wrong_shape() {
    let e = interpret_get_health(200, "{\"other\":1}").unwrap_err();
    assert!(matches!(e, OpenEpistemicError::InvalidResponse(_)));
    let e2 = interpret_get_health(204, "[1,2]").unwrap_err();
    assert!(matches!(e2, OpenEpistemicError::InvalidResponse(_)));
}

#[test]
fn test_non_success_always_api_error() {
    // A good body cannot rescue a bad status.
    let good = "{\"status\":\"ok\"}";
    for status in [100u16, 199, 300, 301, 400, 500, 503] {
        let e = interpret_get_health(status, good).unwrap_err();
        match e {
            OpenEpistemicError::ApiError { status: st, .. } => assert_eq!(st, status),
            other => panic!("expected an API error, got {:?}", other),
        }
    }
}

#[test]
fn test_submit_vote_round_trip_fields() {
    let body = "{\"id\":\"v9\",\"claim_id\":\"c1\",\"validator_id\":\"val1\",\
                \"vote_type\":\"support\",\"confidence\":0.95,\
                \"timestamp\":\"2024-01-01T00:00:00Z\",\"signature\":\"sig\"}";
    let v = interpret_submit_vote(201, body).unwrap();
    assert_eq!(v.id, "v9");
    assert_eq!(v.claim_id, "c1");
    assert_eq!(v.validator_id, "val1");
    assert_eq!(v.vote_type, "support");
    assert_eq!(v.confidence, "0.95");
    assert_eq!(v.timestamp, "2024-01-01T00:00:00Z");
    assert_eq!(v.signature, "sig");
}

#[test]
fn test_votes_list() {
    let body = "[{\"id\":\"a\",\"claim_id\":\"c\",\"validator_id\":\"v\",\"vote_type\":\"t\",\
                \"confidence\":1,\"timestamp\":\"ts\",\"signature\":\"s\"},\
                {\"id\":\"b\",\"claim_id\":\"c\",\"validator_id\":\"w\",\"vote_type\":\"t\",\
                \"confidence\":0.5,\"timestamp\":\"ts\",\"signature\":\"s2\"}]";
    let vs = interpret_get_votes_for_claim(200, body).unwrap();
    assert_eq!(vs.len(), 2);
    assert_eq!(vs[0].id, "a");
    assert_eq!(vs[1].validator_id, "w");
    assert_eq!(vs[1].confidence, "0.5");
}

#[test]
fn test_consensus_fields() {
    let body = "{\"claim_id\":\"c1\",\"round\":3,\"outcome\":null,\
                \"confidence\":0.75,\"created_at\":\"2024-01-01T00:00:00Z\"}";
    let c = interpret_get_consensus_for_claim(200, body).unwrap();
    assert_eq!(c.claim_id, "c1");
    assert_eq!(c.round, 3);
    assert_eq!(c.outcome, None);
    assert_eq!(c.confidence, "0.75");
    let body2 = "{\"claim_id\":\"c1\",\"round\":-2,\"outcome\":\"accepted\",\
                 \"confidence\":1,\"created_at\":\"t\"}";
    let c2 = interpret_get_consensus_for_claim(200, body2).unwrap();
    assert_eq!(c2.round, -2);
    assert_eq!(c2.outcome, Some("accepted".to_string()));
}

#[test]
fn test_consensus_round_out_of_range_is_invalid() {
    let body = "{\"claim_id\":\"c\",\"round\":2147483648,\"outcome\":null,\
                \"confidence\":1,\"created_at\":\"t\"}";
    let e = interpret_get_consensus_for_claim(200, body).unwrap_err();
    assert!(matches!(e, OpenEpistemicError::InvalidResponse(_)));
}

#[test]
fn test_governance_params_arbitrary_json() {
    let body = "{\"version\":\"2\",\"parameters\":{\"quorum\":0.66,\"tags\":[\"a\",\"b\"]}}";
    let g = interpret_get_governance_params(200, body).unwrap();
    assert_eq!(g.version, "2");
    let expected = Json::Obj(vec![
        ("quorum".to_string(), Json::Num("0.66".to_string())),
        (
            "tags".to_string(),
            Json::Arr(vec![
                Json::Str("a".to_string()),
                Json::Str("b".to_string()),
            ]),
        ),
    ]);
    assert_eq!(g.parameters, expected);
}

#[test]
fn test_proposal_response_is_raw_json() {
    let j = interpret_create_governance_proposal(200, "{\"accepted\":true}").unwrap();
    assert_eq!(
        j,
        Json::Obj(vec![("accepted".to_string(), Json::Bool(true))])
    );
}

#[test]
fn test_ledger_root() {
    let l = interpret_get_ledger_root(200, "{\"merkle_root\":\"abc123\"}").unwrap();
    assert_eq!(l.merkle_root, "abc123");
}

#[test]
fn test_register_validator_body() {
    let req = RegisterValidatorRequest {
        public_key: "pk".to_string(),
        model_family: "mf".to_string(),
        region: "eu".to_string(),
        domain_focus: Some("physics".to_string()),
    };
    assert_eq!(
        encode_register_validator(&req),
        "{\"public_key\":\"pk\",\"model_family\":\"mf\",\"region\":\"eu\",\
         \"domain_focus\":\"physics\"}"
    );
    let req2 = RegisterValidatorRequest { domain_focus: None, ..req };
    assert_eq!(
        encode_register_validator(&req2),
        "{\"public_key\":\"pk\",\"model_family\":\"mf\",\"region\":\"eu\",\"domain_focus\":null}"
    );
}

#[test]
fn test_register_validator_response() {
    let body = "{\"id\":\"v1\",\"public_key\":\"pk\",\"model_family\":\"mf\",\
                \"region\":\"eu\",\"domain_focus\":\"physics\"}";
    let v = interpret_register_validator(201, body).unwrap();
    assert_eq!(v.id, "v1");
    assert_eq!(v.public_key, "pk");
    assert_eq!(v.domain_focus, Some("physics".to_string()));
    // The optional field may be absent entirely.
    let body2 = "{\"id\":\"v2\",\"public_key\":\"pk\",\"model_family\":\"mf\",\"region\":\"eu\"}";
    let v2 = interpret_register_validator(200, body2).unwrap();
    assert_eq!(v2.domain_focus, None);
}

#[test]
fn test_get_claim_response() {
    let body = "{\"id\":\"c1\",\"statement\":\"water is wet\",\"domain\":\"physics\",\
                \"proposer_id\":\"p1\",\"evidence_refs\":[\"u1\",\"u2\"]}";
    let c = interpret_get_claim(200, body).unwrap();
    assert_eq!(c.id, "c1");
    assert_eq!(c.evidence_refs, vec!["u1".to_string(), "u2".to_string()]);
    let c2 = interpret_submit_claim(200, body).unwrap();
    assert_eq!(c2.statement, "water is wet");
}

#[test]
fn test_vote_body_uses_given_timestamp() {
    let req = make_submit_vote_request(
        "c1",
        "v1",
        "support",
        "0.9",
        "sig",
        Some("2020-01-01T00:00:00Z".to_string()),
    );
    assert_eq!(
        encode_submit_vote(&req),
        "{\"claim_id\":\"c1\",\"validator_id\":\"v1\",\"vote_type\":\"support\",\
         \"confidence\":0.9,\"timestamp\":\"2020-01-01T00:00:00Z\",\"signature\":\"sig\"}"
    );
}

#[test]
fn test_vote_default_timestamp_shape() {
    let req = make_submit_vote_request("c1", "v1", "support", "0.9", "sig", None);
    let ts: Vec<char> = req.timestamp.chars().collect();
    assert_eq!(ts.len(), 20, "timestamp {:?} is not second-precision RFC 3339", req.timestamp);
    assert!(ts[0].is_ascii_digit() && ts[1].is_ascii_digit());
    assert!(ts[2].is_ascii_digit() && ts[3].is_ascii_digit());
    assert_eq!(ts[4], '-');
    assert_eq!(ts[7], '-');
    assert_eq!(ts[10], 'T');
    assert_eq!(ts[13], ':');
    assert_eq!(ts[16], ':');
    assert_eq!(ts[19], 'Z');
    // A fresh timestamp is from this century.
    assert_eq!(ts[0], '2');
}

#[test]
fn test_proposal_body_exact() {
    let req = CreateGovernanceProposalRequest {
        title: "T".to_string(),
        body: "B".to_string(),
        parameters_diff: Json::Obj(vec![("k".to_string(), Json::Num("1".to_string()))]),
        activation_delay_hours: 48,
    };
    assert_eq!(
        encode_proposal(&req),
        "{\"title\":\"T\",\"body\":\"B\",\"parameters_diff\":{\"k\":1},\
         \"activation_delay_hours\":48}"
    );
    let req2 = CreateGovernanceProposalRequest { activation_delay_hours: -6, ..req };
    assert!(encode_proposal(&req2).ends_with("\"activation_delay_hours\":-6}"));
}

#[test]
fn test_parser_escapes_and_whitespace() {
    let j = parse_json(" {\"a\" : \"x\\n\\t\\\"\\\\\\u0041\" } ").unwrap();
    assert_eq!(
        j,
        Json::Obj(vec![("a".to_string(), Json::Str("x\n\t\"\\A".to_string()))])
    );
    // Escapes beyond ASCII: a code point in the basic plane, one written as a
    // surrogate pair, and upper-case hex digits.
    assert_eq!(
        parse_json("\"caf\\u00e9\""),
        Some(Json::Str("caf\u{e9}".to_string()))
    );
    assert_eq!(
        parse_json("\"\\ud83d\\ude00\""),
        Some(Json::Str("\u{1f600}".to_string()))
    );
    assert_eq!(
        parse_json("\"\\u30C4\""),
        Some(Json::Str("\u{30c4}".to_string()))
    );
    // A lone or misordered surrogate is not a character.
    assert_eq!(parse_json("\"\\ud800\""), None);
    assert_eq!(parse_json("\"\\udc00\""), None);
    assert_eq!(parse_json("\"\\ud800\\u0041\""), None);
    // Raw non-ASCII text needs no escape at all.
    assert_eq!(
        parse_json("\"caf\u{e9}\""),
        Some(Json::Str("caf\u{e9}".to_string()))
    );
    assert_eq!(parse_json("trailing garbage"), None);
    assert_eq!(parse_json("{\"a\":1} x"), None);
    assert_eq!(parse_json("[1,]"), None);
    assert_eq!(parse_json("01"), None);
    assert_eq!(parse_json("[]"), Some(Json::Arr(vec![])));
    assert_eq!(parse_json(" null "), Some(Json::Null));
    assert_eq!(
        parse_json("-12.5e3"),
        Some(Json::Num("-12.5e3".to_string()))
    );
}

#[test]
fn test_serializer_escapes() {
    let j = Json::Str("a\"b\\c\nd\u{1}".to_string());
    assert_eq!(to_json_text(&j), "\"a\\\"b\\\\c\\nd\\u0001\"");
}

#[test]
fn test_number_text_check() {
    assert!(is_number_text("0"));
    assert!(is_number_text("-12.5e3"));
    assert!(is_number_text("0.95"));
    assert!(!is_number_text(""));
    assert!(!is_number_text("01"));
    assert!(!is_number_text("1."));
    assert!(!is_number_text("abc"));
    assert!(!is_number_text("1,2"));
}

#[test]
fn test_decimal_helpers() {
    assert_eq!(u64_to_dec(0), "0");
    assert_eq!(u64_to_dec(1234567890), "1234567890");
    assert_eq!(i32_to_dec(-2147483648), "-2147483648");
    assert_eq!(parse_i32("2147483647"), Some(2147483647));
    assert_eq!(parse_i32("-2147483648"), Some(-2147483648));
    assert_eq!(parse_i32("2147483648"), None);
    assert_eq!(parse_i32("1.5"), None);
    assert_eq!(parse_i32(""), None);
    assert_eq!(parse_i32("-"), None);
    assert_eq!(parse_i32("007"), Some(7));
}

#[test]
fn test_error_description() {
    let e = interpret_get_health(500, "").unwrap_err();
    assert!(e.is_api_error());
    assert_eq!(e.describe(), "API error: Health check failed with status: 500");
    let e2 = interpret_get_health(200, "?").unwrap_err();
    assert!(!e2.is_api_error());
    assert_eq!(
        e2.describe(),
        "Invalid response format: response body is not valid JSON"
    );
    let e3 = OpenEpistemicError::HttpRequest("connection refused".to_string());
    assert_eq!(e3.describe(), "HTTP request failed: connection refused");
}

#[test]
fn test_nested_document_round_trip() {
    let text = "{\"a\":[{\"b\":[1,true,null]},\"x\"],\"c\":{}}";
    let j = parse_json(text).unwrap();
    assert_eq!(to_json_text(&j), text);
}

#[test]
fn test_number_text_survives_decode_and_encode() {
    // The score 0.9500 must come back out exactly as it went in.
    let body = "{\"id\":\"v\",\"claim_id\":\"c\",\"validator_id\":\"w\",\"vote_type\":\"t\",\
                \"confidence\":0.9500,\"timestamp\":\"ts\",\"signature\":\"s\"}";
    let v = interpret_submit_vote(200, body).unwrap();
    assert_eq!(v.confidence, "0.9500");
    let req = make_submit_vote_request("c", "w", "t", &v.confidence, "s", Some("ts".to_string()));
    assert!(encode_submit_vote(&req).contains("\"confidence\":0.9500,"));
}
