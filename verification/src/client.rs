//! The client: where requests are aimed, how request bodies are built, and
//! how a status code and body become a typed result.
//!
//! Sending is left to the caller's transport; each operation here is a pair
//! of functions, one that prepares the URL (and body, for a write) and one
//! that interprets the response. The interpretation contract is the same for
//! every operation: a non-success status is an API error carrying that
//! status; a success status with a body that is not JSON of the expected
//! shape is an invalid-response error; a success status with a well-formed
//! body is the decoded value, field for field.

use vstd::prelude::*;
use vstd::string::StrSliceExecFns;
use vstd::string::StringExecFns;

use crate::codec::decode_claim;
use crate::codec::decode_consensus;
use crate::codec::decode_gov_params;
use crate::codec::decode_health;
use crate::codec::decode_ledger_root;
use crate::codec::decode_validator;
use crate::codec::decode_vote;
use crate::codec::decode_votes;
use crate::codec::sp_claim;
use crate::codec::sp_consensus;
use crate::codec::sp_gov_params;
use crate::codec::sp_health;
use crate::codec::sp_ledger_root;
use crate::codec::sp_validator;
use crate::codec::sp_vote;
use crate::codec::sp_votes;
use crate::codec::votes_view;
use crate::json::Json;
use crate::num::dec_digits;
use crate::num::is_digit;
use crate::num::digit_val;
use crate::num::u64_to_dec;
use crate::parse::parse_json;
use crate::parse::sp_parse;
use crate::types::Claim;
use crate::types::ConsensusResponse;
use crate::types::GovernanceParams;
use crate::types::HealthResponse;
use crate::types::LedgerRootResponse;
use crate::types::SubmitVoteRequest;
use crate::types::Validator;
use crate::types::Vote;
use crate::OpenEpistemicError;

verus! {

/// Whether a status code lies in the success range.
pub open spec fn sp_is_success(status: u16) -> bool {
    200 <= status < 300
}

/// Whether a status code lies in the success range.
pub fn is_success(status: u16) -> (r: bool)
    ensures
        r == sp_is_success(status),
{
    200 <= status && status < 300
}

/// An RFC 3339 UTC timestamp at second precision: `YYYY-MM-DDTHH:MM:SSZ`.
pub open spec fn is_rfc3339_utc_seconds(s: Seq<char>) -> bool {
    &&& s.len() == 20
    &&& is_digit(s[0]) && is_digit(s[1]) && is_digit(s[2]) && is_digit(s[3])
    &&& s[4] == '-' && is_digit(s[5]) && is_digit(s[6])
    &&& s[7] == '-' && is_digit(s[8]) && is_digit(s[9])
    &&& s[10] == 'T' && is_digit(s[11]) && is_digit(s[12])
    &&& s[13] == ':' && is_digit(s[14]) && is_digit(s[15])
    &&& s[16] == ':' && is_digit(s[17]) && is_digit(s[18])
    &&& s[19] == 'Z'
    &&& 1 <= digit_val(s[5]) * 10 + digit_val(s[6]) <= 12
    &&& 1 <= digit_val(s[8]) * 10 + digit_val(s[9]) <= 31
    &&& digit_val(s[11]) * 10 + digit_val(s[12]) <= 23
    &&& digit_val(s[14]) * 10 + digit_val(s[15]) <= 59
    &&& digit_val(s[17]) * 10 + digit_val(s[18]) <= 60
}

/// Relies on chrono's `Utc::now` and `DateTime::to_rfc3339_opts` with
/// `SecondsFormat::Secs` and the `Z` suffix: for a UTC time whose year has
/// four digits (every wall-clock reading for many centuries), the rendering
/// is `YYYY-MM-DDTHH:MM:SSZ` with the calendar fields in their ranges.
#[verifier::external_body]
fn now_rfc3339_seconds() -> (r: String)
    ensures
        is_rfc3339_utc_seconds(r@),
{
    chrono::Utc::now().to_rfc3339_opts(chrono::SecondsFormat::Secs, true)
}

/// The timestamp a vote is stamped with: the caller's, or the current UTC
/// time at second precision when the caller gives none.
pub fn resolve_timestamp(t: Option<String>) -> (r: String)
    ensures
        match t {
            Some(s) => r@ == s@,
            None => is_rfc3339_utc_seconds(r@),
        },
{
    match t {
        Some(s) => s,
        None => now_rfc3339_seconds(),
    }
}

/// Builds the vote payload from its parts; an omitted timestamp becomes the
/// current UTC time in RFC 3339 at second precision.
pub fn make_submit_vote_request(
    claim_id: &str,
    validator_id: &str,
    vote_type: &str,
    confidence: &str,
    signature: &str,
    timestamp: Option<String>,
) -> (r: SubmitVoteRequest)
    ensures
        r.claim_id@ == claim_id@,
        r.validator_id@ == validator_id@,
        r.vote_type@ == vote_type@,
        r.confidence@ == confidence@,
        r.signature@ == signature@,
        match timestamp {
            Some(t) => r.timestamp@ == t@,
            None => is_rfc3339_utc_seconds(r.timestamp@),
        },
{
    SubmitVoteRequest {
        claim_id: claim_id.to_owned(),
        validator_id: validator_id.to_owned(),
        vote_type: vote_type.to_owned(),
        confidence: confidence.to_owned(),
        timestamp: resolve_timestamp(timestamp),
        signature: signature.to_owned(),
    }
}

/// The client: a base URL fixed at construction. Its view is that URL's
/// text, the verbatim prefix of every request URL built below.
pub struct OpenEpistemicClient {
    base_url: String,
}

impl View for OpenEpistemicClient {
    type V = Seq<char>;

    closed spec fn view(&self) -> Seq<char> {
        self.base_url@
    }
}

impl OpenEpistemicClient {
    /// A client aimed at the given base URL, or at `http://localhost:8000`
    /// when none is given.
    pub fn new(base_url: Option<&str>) -> (r: Self)
        ensures
            match base_url {
                Some(s) => r@ == s@,
                None => r@ == "http://localhost:8000"@,
            },
    {
        match base_url {
            Some(s) => OpenEpistemicClient { base_url: s.to_owned() },
            None => OpenEpistemicClient { base_url: "http://localhost:8000".to_owned() },
        }
    }

    /// GET target for the health check.
    pub fn health_url(&self) -> (r: String)
        ensures
            r@ == self@ + "/health"@,
    {
        self.base_url.clone().concat("/health")
    }

    /// POST target for registering a validator.
    pub fn validators_url(&self) -> (r: String)
        ensures
            r@ == self@ + "/validators"@,
    {
        self.base_url.clone().concat("/validators")
    }

    /// GET target for one validator.
    pub fn validator_url(&self, validator_id: &str) -> (r: String)
        ensures
            r@ == self@ + "/validators/"@ + validator_id@,
    {
        self.base_url.clone().concat("/validators/").concat(validator_id)
    }

    /// POST target for submitting a claim.
    pub fn claims_url(&self) -> (r: String)
        ensures
            r@ == self@ + "/claims"@,
    {
        self.base_url.clone().concat("/claims")
    }

    /// GET target for one claim.
    pub fn claim_url(&self, claim_id: &str) -> (r: String)
        ensures
            r@ == self@ + "/claims/"@ + claim_id@,
    {
        self.base_url.clone().concat("/claims/").concat(claim_id)
    }

    /// POST target for submitting a vote.
    pub fn votes_url(&self) -> (r: String)
        ensures
            r@ == self@ + "/votes"@,
    {
        self.base_url.clone().concat("/votes")
    }

    /// GET target for the votes on one claim.
    pub fn claim_votes_url(&self, claim_id: &str) -> (r: String)
        ensures
            r@ == self@ + "/claims/"@ + claim_id@ + "/votes"@,
    {
        self.base_url.clone().concat("/claims/").concat(claim_id).concat("/votes")
    }

    /// GET target for the consensus on one claim.
    pub fn consensus_url(&self, claim_id: &str) -> (r: String)
        ensures
            r@ == self@ + "/validation/claims/"@ + claim_id@ + "/consensus"@,
    {
        self.base_url.clone().concat("/validation/claims/").concat(claim_id).concat("/consensus")
    }

    /// GET target for the governance parameters.
    pub fn governance_params_url(&self) -> (r: String)
        ensures
            r@ == self@ + "/governance/params"@,
    {
        self.base_url.clone().concat("/governance/params")
    }

    /// POST target for a governance proposal.
    pub fn governance_proposals_url(&self) -> (r: String)
        ensures
            r@ == self@ + "/governance/proposals"@,
    {
        self.base_url.clone().concat("/governance/proposals")
    }

    /// GET target for the ledger root.
    pub fn ledger_root_url(&self) -> (r: String)
        ensures
            r@ == self@ + "/ledger/root"@,
    {
        self.base_url.clone().concat("/ledger/root")
    }
}

/// What an invalid-response error says when the body is not JSON at all.
pub open spec fn msg_not_json() -> Seq<char> {
    "response body is not valid JSON"@
}

/// What an invalid-response error says when the JSON has the wrong shape.
pub open spec fn msg_bad_shape() -> Seq<char> {
    "response body does not match the expected shape"@
}

/// The API error for a non-success status: the status itself, and the
/// operation's message with the status appended in decimal.
pub fn api_error(status: u16, prefix: &str) -> (e: OpenEpistemicError)
    ensures
        e matches OpenEpistemicError::ApiError { status: st, message: m } && st == status && m@
            == prefix@ + dec_digits(status as nat),
{
    let mut m = prefix.to_owned();
    let d = u64_to_dec(status as u64);
    m.append(d.as_str());
    OpenEpistemicError::ApiError { status, message: m }
}

/// The invalid-response error for a body that is not JSON.
fn invalid_not_json() -> (e: OpenEpistemicError)
    ensures
        e matches OpenEpistemicError::InvalidResponse(m) && m@ == msg_not_json(),
{
    OpenEpistemicError::InvalidResponse("response body is not valid JSON".to_owned())
}

/// The invalid-response error for JSON of the wrong shape.
fn invalid_bad_shape() -> (e: OpenEpistemicError)
    ensures
        e matches OpenEpistemicError::InvalidResponse(m) && m@ == msg_bad_shape(),
{
    OpenEpistemicError::InvalidResponse("response body does not match the expected shape".to_owned())
}

/// Turns the health response into its result: exactly `Ok` on a success
/// status whose body is well-formed JSON of the right shape, an API error on
/// any other status, an invalid-response error otherwise.
pub fn interpret_get_health(status: u16, body: &str) -> (r: Result<
    HealthResponse,
    OpenEpistemicError,
>)
    ensures
        !sp_is_success(status) ==> (r matches Err(e) && e matches OpenEpistemicError::ApiError {
            status: st,
            message: m,
        } && st == status && m@ == "Health check failed with status: "@ + dec_digits(
            status as nat,
        )),
        sp_is_success(status) ==> match sp_parse(body@) {
            None => r matches Err(e) && e matches OpenEpistemicError::InvalidResponse(m) && m@
                == msg_not_json(),
            Some(v) => match sp_health(v) {
                Some(hv) => r matches Ok(h) && h@ == hv,
                None => r matches Err(e) && e matches OpenEpistemicError::InvalidResponse(m)
                    && m@ == msg_bad_shape(),
            },
        },
{
    if !is_success(status) {
        return Err(api_error(status, "Health check failed with status: "));
    }
    match parse_json(body) {
        None => Err(invalid_not_json()),
        Some(doc) => match decode_health(&doc) {
            Some(h) => Ok(h),
            None => Err(invalid_bad_shape()),
        },
    }
}

/// Turns the registration response into its result, under the same contract
/// shape as every interpretation here.
pub fn interpret_register_validator(status: u16, body: &str) -> (r: Result<
    Validator,
    OpenEpistemicError,
>)
    ensures
        !sp_is_success(status) ==> (r matches Err(e) && e matches OpenEpistemicError::ApiError {
            status: st,
            message: m,
        } && st == status && m@ == "Validator registration failed with status: "@ + dec_digits(
            status as nat,
        )),
        sp_is_success(status) ==> match sp_parse(body@) {
            None => r matches Err(e) && e matches OpenEpistemicError::InvalidResponse(m) && m@
                == msg_not_json(),
            Some(v) => match sp_validator(v) {
                Some(vv) => r matches Ok(w) && w@ == vv,
                None => r matches Err(e) && e matches OpenEpistemicError::InvalidResponse(m)
                    && m@ == msg_bad_shape(),
            },
        },
{
    if !is_success(status) {
        return Err(api_error(status, "Validator registration failed with status: "));
    }
    match parse_json(body) {
        None => Err(invalid_not_json()),
        Some(doc) => match decode_validator(&doc) {
            Some(v) => Ok(v),
            None => Err(invalid_bad_shape()),
        },
    }
}

/// Turns the validator lookup response into its result.
pub fn interpret_get_validator(status: u16, body: &str) -> (r: Result<
    Validator,
    OpenEpistemicError,
>)
    ensures
        !sp_is_success(status) ==> (r matches Err(e) && e matches OpenEpistemicError::ApiError {
            status: st,
            message: m,
        } && st == status && m@ == "Get validator failed with status: "@ + dec_digits(
            status as nat,
        )),
        sp_is_success(status) ==> match sp_parse(body@) {
            None => r matches Err(e) && e matches OpenEpistemicError::InvalidResponse(m) && m@
                == msg_not_json(),
            Some(v) => match sp_validator(v) {
                Some(vv) => r matches Ok(w) && w@ == vv,
                None => r matches Err(e) && e matches OpenEpistemicError::InvalidResponse(m)
                    && m@ == msg_bad_shape(),
            },
        },
{
    if !is_success(status) {
        return Err(api_error(status, "Get validator failed with status: "));
    }
    match parse_json(body) {
        None => Err(invalid_not_json()),
        Some(doc) => match decode_validator(&doc) {
            Some(v) => Ok(v),
            None => Err(invalid_bad_shape()),
        },
    }
}

/// Turns the claim submission response into its result.
pub fn interpret_submit_claim(status: u16, body: &str) -> (r: Result<Claim, OpenEpistemicError>)
    ensures
        !sp_is_success(status) ==> (r matches Err(e) && e matches OpenEpistemicError::ApiError {
            status: st,
            message: m,
        } && st == status && m@ == "Claim submission failed with status: "@ + dec_digits(
            status as nat,
        )),
        sp_is_success(status) ==> match sp_parse(body@) {
            None => r matches Err(e) && e matches OpenEpistemicError::InvalidResponse(m) && m@
                == msg_not_json(),
            Some(v) => match sp_claim(v) {
                Some(cv) => r matches Ok(c) && c@ == cv,
                None => r matches Err(e) && e matches OpenEpistemicError::InvalidResponse(m)
                    && m@ == msg_bad_shape(),
            },
        },
{
    if !is_success(status) {
        return Err(api_error(status, "Claim submission failed with status: "));
    }
    match parse_json(body) {
        None => Err(invalid_not_json()),
        Some(doc) => match decode_claim(&doc) {
            Some(c) => Ok(c),
            None => Err(invalid_bad_shape()),
        },
    }
}

/// Turns the claim lookup response into its result.
pub fn interpret_get_claim(status: u16, body: &str) -> (r: Result<Claim, OpenEpistemicError>)
    ensures
        !sp_is_success(status) ==> (r matches Err(e) && e matches OpenEpistemicError::ApiError {
            status: st,
            message: m,
        } && st == status && m@ == "Get claim failed with status: "@ + dec_digits(status as nat)),
        sp_is_success(status) ==> match sp_parse(body@) {
            None => r matches Err(e) && e matches OpenEpistemicError::InvalidResponse(m) && m@
                == msg_not_json(),
            Some(v) => match sp_claim(v) {
                Some(cv) => r matches Ok(c) && c@ == cv,
                None => r matches Err(e) && e matches OpenEpistemicError::InvalidResponse(m)
                    && m@ == msg_bad_shape(),
            },
        },
{
    if !is_success(status) {
        return Err(api_error(status, "Get claim failed with status: "));
    }
    match parse_json(body) {
        None => Err(invalid_not_json()),
        Some(doc) => match decode_claim(&doc) {
            Some(c) => Ok(c),
            None => Err(invalid_bad_shape()),
        },
    }
}

/// Turns the vote submission response into its result.
pub fn interpret_submit_vote(status: u16, body: &str) -> (r: Result<Vote, OpenEpistemicError>)
    ensures
        !sp_is_success(status) ==> (r matches Err(e) && e matches OpenEpistemicError::ApiError {
            status: st,
            message: m,
        } && st == status && m@ == "Vote submission failed with status: "@ + dec_digits(
            status as nat,
        )),
        sp_is_success(status) ==> match sp_parse(body@) {
            None => r matches Err(e) && e matches OpenEpistemicError::InvalidResponse(m) && m@
                == msg_not_json(),
            Some(v) => match sp_vote(v) {
                Some(vv) => r matches Ok(w) && w@ == vv,
                None => r matches Err(e) && e matches OpenEpistemicError::InvalidResponse(m)
                    && m@ == msg_bad_shape(),
            },
        },
{
    if !is_success(status) {
        return Err(api_error(status, "Vote submission failed with status: "));
    }
    match parse_json(body) {
        None => Err(invalid_not_json()),
        Some(doc) => match decode_vote(&doc) {
            Some(v) => Ok(v),
            None => Err(invalid_bad_shape()),
        },
    }
}

/// Turns the vote list response into its result.
pub fn interpret_get_votes_for_claim(status: u16, body: &str) -> (r: Result<
    Vec<Vote>,
    OpenEpistemicError,
>)
    ensures
        !sp_is_success(status) ==> (r matches Err(e) && e matches OpenEpistemicError::ApiError {
            status: st,
            message: m,
        } && st == status && m@ == "Get votes failed with status: "@ + dec_digits(status as nat)),
        sp_is_success(status) ==> match sp_parse(body@) {
            None => r matches Err(e) && e matches OpenEpistemicError::InvalidResponse(m) && m@
                == msg_not_json(),
            Some(v) => match sp_votes(v) {
                Some(vv) => r matches Ok(w) && votes_view(w@) == vv,
                None => r matches Err(e) && e matches OpenEpistemicError::InvalidResponse(m)
                    && m@ == msg_bad_shape(),
            },
        },
{
    if !is_success(status) {
        return Err(api_error(status, "Get votes failed with status: "));
    }
    match parse_json(body) {
        None => Err(invalid_not_json()),
        Some(doc) => match decode_votes(&doc) {
            Some(v) => Ok(v),
            None => Err(invalid_bad_shape()),
        },
    }
}

/// Turns the consensus response into its result.
pub fn interpret_get_consensus_for_claim(status: u16, body: &str) -> (r: Result<
    ConsensusResponse,
    OpenEpistemicError,
>)
    ensures
        !sp_is_success(status) ==> (r matches Err(e) && e matches OpenEpistemicError::ApiError {
            status: st,
            message: m,
        } && st == status && m@ == "Consensus request failed with status: "@ + dec_digits(
            status as nat,
        )),
        sp_is_success(status) ==> match sp_parse(body@) {
            None => r matches Err(e) && e matches OpenEpistemicError::InvalidResponse(m) && m@
                == msg_not_json(),
            Some(v) => match sp_consensus(v) {
                Some(cv) => r matches Ok(c) && c@ == cv,
                None => r matches Err(e) && e matches OpenEpistemicError::InvalidResponse(m)
                    && m@ == msg_bad_shape(),
            },
        },
{
    if !is_success(status) {
        return Err(api_error(status, "Consensus request failed with status: "));
    }
    match parse_json(body) {
        None => Err(invalid_not_json()),
        Some(doc) => match decode_consensus(&doc) {
            Some(c) => Ok(c),
            None => Err(invalid_bad_shape()),
        },
    }
}

/// Turns the governance parameters response into its result.
pub fn interpret_get_governance_params(status: u16, body: &str) -> (r: Result<
    GovernanceParams,
    OpenEpistemicError,
>)
    ensures
        !sp_is_success(status) ==> (r matches Err(e) && e matches OpenEpistemicError::ApiError {
            status: st,
            message: m,
        } && st == status && m@ == "Governance params request failed with status: "@
            + dec_digits(status as nat)),
        sp_is_success(status) ==> match sp_parse(body@) {
            None => r matches Err(e) && e matches OpenEpistemicError::InvalidResponse(m) && m@
                == msg_not_json(),
            Some(v) => match sp_gov_params(v) {
                Some(gv) => r matches Ok(g) && g@ == gv,
                None => r matches Err(e) && e matches OpenEpistemicError::InvalidResponse(m)
                    && m@ == msg_bad_shape(),
            },
        },
{
    if !is_success(status) {
        return Err(api_error(status, "Governance params request failed with status: "));
    }
    match parse_json(body) {
        None => Err(invalid_not_json()),
        Some(doc) => match decode_gov_params(&doc) {
            Some(g) => Ok(g),
            None => Err(invalid_bad_shape()),
        },
    }
}

/// Turns the proposal response into its result: any well-formed JSON body.
pub fn interpret_create_governance_proposal(status: u16, body: &str) -> (r: Result<
    Json,
    OpenEpistemicError,
>)
    ensures
        !sp_is_success(status) ==> (r matches Err(e) && e matches OpenEpistemicError::ApiError {
            status: st,
            message: m,
        } && st == status && m@ == "Governance proposal failed with status: "@ + dec_digits(
            status as nat,
        )),
        sp_is_success(status) ==> match sp_parse(body@) {
            None => r matches Err(e) && e matches OpenEpistemicError::InvalidResponse(m) && m@
                == msg_not_json(),
            Some(v) => r matches Ok(j) && j@ == v,
        },
{
    if !is_success(status) {
        return Err(api_error(status, "Governance proposal failed with status: "));
    }
    match parse_json(body) {
        None => Err(invalid_not_json()),
        Some(doc) => Ok(doc),
    }
}

/// Turns the ledger root response into its result.
pub fn interpret_get_ledger_root(status: u16, body: &str) -> (r: Result<
    LedgerRootResponse,
    OpenEpistemicError,
>)
    ensures
        !sp_is_success(status) ==> (r matches Err(e) && e matches OpenEpistemicError::ApiError {
            status: st,
            message: m,
        } && st == status && m@ == "Ledger root request failed with status: "@ + dec_digits(
            status as nat,
        )),
        sp_is_success(status) ==> match sp_parse(body@) {
            None => r matches Err(e) && e matches OpenEpistemicError::InvalidResponse(m) && m@
                == msg_not_json(),
            Some(v) => match sp_ledger_root(v) {
                Some(lv) => r matches Ok(l) && l@ == lv,
                None => r matches Err(e) && e matches OpenEpistemicError::InvalidResponse(m)
                    && m@ == msg_bad_shape(),
            },
        },
{
    if !is_success(status) {
        return Err(api_error(status, "Ledger root request failed with status: "));
    }
    match parse_json(body) {
        None => Err(invalid_not_json()),
        Some(doc) => match decode_ledger_root(&doc) {
            Some(l) => Ok(l),
            None => Err(invalid_bad_shape()),
        },
    }
}

} // verus!
