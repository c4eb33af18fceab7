//! The resources the remote service exchanges, as typed values.
//!
//! A confidence score travels as a JSON number; this library holds it as its
//! decimal text (see `crate::json`), so it is carried without loss and the
//! contracts stay over plain values.

use vstd::prelude::*;

use crate::json::Json;
use crate::json::JsonV;

verus! {

/// Liveness indicator returned by the health endpoint.
#[derive(Debug, PartialEq, Eq)]
pub struct HealthResponse {
    pub status: String,
}

pub struct HealthResponseV {
    pub status: Seq<char>,
}

impl View for HealthResponse {
    type V = HealthResponseV;

    open spec fn view(&self) -> HealthResponseV {
        HealthResponseV { status: self.status@ }
    }
}

/// A registered identity permitted to vote on claims.
#[derive(Debug, PartialEq, Eq)]
pub struct Validator {
    pub id: String,
    pub public_key: String,
    pub model_family: String,
    pub region: String,
    pub domain_focus: Option<String>,
}

pub struct ValidatorV {
    pub id: Seq<char>,
    pub public_key: Seq<char>,
    pub model_family: Seq<char>,
    pub region: Seq<char>,
    pub domain_focus: Option<Seq<char>>,
}

impl View for Validator {
    type V = ValidatorV;

    open spec fn view(&self) -> ValidatorV {
        ValidatorV {
            id: self.id@,
            public_key: self.public_key@,
            model_family: self.model_family@,
            region: self.region@,
            domain_focus: match self.domain_focus {
                Some(s) => Some(s@),
                None => None,
            },
        }
    }
}

/// Outbound payload for registering a validator.
#[derive(Debug, PartialEq, Eq)]
pub struct RegisterValidatorRequest {
    pub public_key: String,
    pub model_family: String,
    pub region: String,
    pub domain_focus: Option<String>,
}

pub struct RegisterValidatorRequestV {
    pub public_key: Seq<char>,
    pub model_family: Seq<char>,
    pub region: Seq<char>,
    pub domain_focus: Option<Seq<char>>,
}

impl View for RegisterValidatorRequest {
    type V = RegisterValidatorRequestV;

    open spec fn view(&self) -> RegisterValidatorRequestV {
        RegisterValidatorRequestV {
            public_key: self.public_key@,
            model_family: self.model_family@,
            region: self.region@,
            domain_focus: match self.domain_focus {
                Some(s) => Some(s@),
                None => None,
            },
        }
    }
}

/// A statement submitted for evaluation by validators.
#[derive(Debug, PartialEq, Eq)]
pub struct Claim {
    pub id: String,
    pub statement: String,
    pub domain: String,
    pub proposer_id: String,
    pub evidence_refs: Vec<String>,
}

pub struct ClaimV {
    pub id: Seq<char>,
    pub statement: Seq<char>,
    pub domain: Seq<char>,
    pub proposer_id: Seq<char>,
    pub evidence_refs: Seq<Seq<char>>,
}

/// The views of a sequence of strings.
pub open spec fn strs_view(v: Seq<String>) -> Seq<Seq<char>> {
    Seq::new(v.len(), |i: int| v[i]@)
}

impl View for Claim {
    type V = ClaimV;

    open spec fn view(&self) -> ClaimV {
        ClaimV {
            id: self.id@,
            statement: self.statement@,
            domain: self.domain@,
            proposer_id: self.proposer_id@,
            evidence_refs: strs_view(self.evidence_refs@),
        }
    }
}

/// Outbound payload for submitting a claim.
#[derive(Debug, PartialEq, Eq)]
pub struct SubmitClaimRequest {
    pub statement: String,
    pub domain: String,
    pub proposer_id: String,
    pub evidence_refs: Vec<String>,
}

pub struct SubmitClaimRequestV {
    pub statement: Seq<char>,
    pub domain: Seq<char>,
    pub proposer_id: Seq<char>,
    pub evidence_refs: Seq<Seq<char>>,
}

impl View for SubmitClaimRequest {
    type V = SubmitClaimRequestV;

    open spec fn view(&self) -> SubmitClaimRequestV {
        SubmitClaimRequestV {
            statement: self.statement@,
            domain: self.domain@,
            proposer_id: self.proposer_id@,
            evidence_refs: strs_view(self.evidence_refs@),
        }
    }
}

/// A validator's judgment on a claim. `confidence` holds the decimal text of
/// the score's JSON number.
#[derive(Debug, PartialEq, Eq)]
pub struct Vote {
    pub id: String,
    pub claim_id: String,
    pub validator_id: String,
    pub vote_type: String,
    pub confidence: String,
    pub timestamp: String,
    pub signature: String,
}

pub struct VoteV {
    pub id: Seq<char>,
    pub claim_id: Seq<char>,
    pub validator_id: Seq<char>,
    pub vote_type: Seq<char>,
    pub confidence: Seq<char>,
    pub timestamp: Seq<char>,
    pub signature: Seq<char>,
}

impl View for Vote {
    type V = VoteV;

    open spec fn view(&self) -> VoteV {
        VoteV {
            id: self.id@,
            claim_id: self.claim_id@,
            validator_id: self.validator_id@,
            vote_type: self.vote_type@,
            confidence: self.confidence@,
            timestamp: self.timestamp@,
            signature: self.signature@,
        }
    }
}

/// Outbound payload for submitting a vote; the same fields as `Vote` minus
/// the server-assigned id.
#[derive(Debug, PartialEq, Eq)]
pub struct SubmitVoteRequest {
    pub claim_id: String,
    pub validator_id: String,
    pub vote_type: String,
    pub confidence: String,
    pub timestamp: String,
    pub signature: String,
}

pub struct SubmitVoteRequestV {
    pub claim_id: Seq<char>,
    pub validator_id: Seq<char>,
    pub vote_type: Seq<char>,
    pub confidence: Seq<char>,
    pub timestamp: Seq<char>,
    pub signature: Seq<char>,
}

impl View for SubmitVoteRequest {
    type V = SubmitVoteRequestV;

    open spec fn view(&self) -> SubmitVoteRequestV {
        SubmitVoteRequestV {
            claim_id: self.claim_id@,
            validator_id: self.validator_id@,
            vote_type: self.vote_type@,
            confidence: self.confidence@,
            timestamp: self.timestamp@,
            signature: self.signature@,
        }
    }
}

/// The aggregated outcome of votes on a claim, read-only.
#[derive(Debug, PartialEq, Eq)]
pub struct ConsensusResponse {
    pub claim_id: String,
    pub round: i32,
    pub outcome: Option<String>,
    pub confidence: String,
    pub created_at: String,
}

pub struct ConsensusResponseV {
    pub claim_id: Seq<char>,
    pub round: int,
    pub outcome: Option<Seq<char>>,
    pub confidence: Seq<char>,
    pub created_at: Seq<char>,
}

impl View for ConsensusResponse {
    type V = ConsensusResponseV;

    open spec fn view(&self) -> ConsensusResponseV {
        ConsensusResponseV {
            claim_id: self.claim_id@,
            round: self.round as int,
            outcome: match self.outcome {
                Some(s) => Some(s@),
                None => None,
            },
            confidence: self.confidence@,
            created_at: self.created_at@,
        }
    }
}

/// Service-wide parameters, read-only; `parameters` is arbitrary JSON.
#[derive(Debug, PartialEq, Eq)]
pub struct GovernanceParams {
    pub version: String,
    pub parameters: Json,
}

pub struct GovernanceParamsV {
    pub version: Seq<char>,
    pub parameters: JsonV,
}

impl View for GovernanceParams {
    type V = GovernanceParamsV;

    open spec fn view(&self) -> GovernanceParamsV {
        GovernanceParamsV { version: self.version@, parameters: self.parameters@ }
    }
}

/// Outbound payload for proposing a parameter change; `parameters_diff` is
/// arbitrary JSON.
#[derive(Debug, PartialEq, Eq)]
pub struct CreateGovernanceProposalRequest {
    pub title: String,
    pub body: String,
    pub parameters_diff: Json,
    pub activation_delay_hours: i32,
}

pub struct CreateGovernanceProposalRequestV {
    pub title: Seq<char>,
    pub body: Seq<char>,
    pub parameters_diff: JsonV,
    pub activation_delay_hours: int,
}

impl View for CreateGovernanceProposalRequest {
    type V = CreateGovernanceProposalRequestV;

    open spec fn view(&self) -> CreateGovernanceProposalRequestV {
        CreateGovernanceProposalRequestV {
            title: self.title@,
            body: self.body@,
            parameters_diff: self.parameters_diff@,
            activation_delay_hours: self.activation_delay_hours as int,
        }
    }
}

/// The cryptographic summary of the service's recorded state.
#[derive(Debug, PartialEq, Eq)]
pub struct LedgerRootResponse {
    pub merkle_root: String,
}

pub struct LedgerRootResponseV {
    pub merkle_root: Seq<char>,
}

impl View for LedgerRootResponse {
    type V = LedgerRootResponseV;

    open spec fn view(&self) -> LedgerRootResponseV {
        LedgerRootResponseV { merkle_root: self.merkle_root@ }
    }
}

} // verus!
