//! Typed views of JSON documents: what each response must look like and what
//! each request renders to.
//!
//! A decoder reads a field by key (first occurrence); an object may carry
//! members the decoder does not read, as the wire contract allows. A missing
//! or null optional field decodes to `None`.

use vstd::prelude::*;
use vstd::string::StrSliceExecFns;
use vstd::string::StringExecFns;

use crate::json::json_get;
use crate::json::jv;
use crate::json::jv_arr;
use crate::json::jv_obj;
use crate::json::lemma_jv_arr;
use crate::json::lemma_jv_obj;
use crate::json::sp_get;
use crate::json::Json;
use crate::json::JsonV;
use crate::json::ser;
use crate::json::to_json_text;
use crate::num::dec_int;
use crate::num::i32_to_dec;
use crate::num::sp_i32_of;
use crate::num::parse_i32;
use crate::types::strs_view;
use crate::types::RegisterValidatorRequest;
use crate::types::RegisterValidatorRequestV;
use crate::types::SubmitClaimRequest;
use crate::types::SubmitClaimRequestV;
use crate::types::SubmitVoteRequest;
use crate::types::SubmitVoteRequestV;
use crate::types::CreateGovernanceProposalRequest;
use crate::types::CreateGovernanceProposalRequestV;
use crate::types::HealthResponse;
use crate::types::HealthResponseV;
use crate::types::Validator;
use crate::types::ValidatorV;
use crate::types::Claim;
use crate::types::ClaimV;
use crate::types::Vote;
use crate::types::VoteV;
use crate::types::ConsensusResponse;
use crate::types::ConsensusResponseV;
use crate::types::GovernanceParams;
use crate::types::GovernanceParamsV;
use crate::types::LedgerRootResponse;
use crate::types::LedgerRootResponseV;

verus! {

/// The string held by the member named `k`, if there is one of that shape.
pub open spec fn sp_str_field(ms: Seq<(Seq<char>, JsonV)>, k: Seq<char>) -> Option<Seq<char>> {
    match sp_get(ms, k) {
        Some(JsonV::Str(s)) => Some(s),
        _ => None,
    }
}

/// An optional string member: absent or null is `None`, a string is `Some`,
/// anything else is a shape mismatch.
pub open spec fn sp_opt_str_field(ms: Seq<(Seq<char>, JsonV)>, k: Seq<char>) -> Option<
    Option<Seq<char>>,
> {
    match sp_get(ms, k) {
        None => Some(None),
        Some(JsonV::Null) => Some(None),
        Some(JsonV::Str(s)) => Some(Some(s)),
        Some(_) => None,
    }
}

/// The number text held by the member named `k`.
pub open spec fn sp_num_field(ms: Seq<(Seq<char>, JsonV)>, k: Seq<char>) -> Option<Seq<char>> {
    match sp_get(ms, k) {
        Some(JsonV::Num(t)) => Some(t),
        _ => None,
    }
}

/// The member named `k` read as a 32-bit integer.
pub open spec fn sp_i32_field(ms: Seq<(Seq<char>, JsonV)>, k: Seq<char>) -> Option<int> {
    match sp_get(ms, k) {
        Some(JsonV::Num(t)) => sp_i32_of(t),
        _ => None,
    }
}

/// The strings of an all-string array.
pub open spec fn sp_str_seq(es: Seq<JsonV>) -> Option<Seq<Seq<char>>>
    decreases es.len(),
{
    if es.len() == 0 {
        Some(Seq::empty())
    } else {
        match es[0] {
            JsonV::Str(s) => match sp_str_seq(es.drop_first()) {
                Some(r) => Some(seq![s] + r),
                None => None,
            },
            _ => None,
        }
    }
}

/// The member named `k` read as an array of strings.
pub open spec fn sp_strs_field(ms: Seq<(Seq<char>, JsonV)>, k: Seq<char>) -> Option<
    Seq<Seq<char>>,
> {
    match sp_get(ms, k) {
        Some(JsonV::Arr(es)) => sp_str_seq(es),
        _ => None,
    }
}

/// Reads a string member, as `sp_str_field` states it.
fn get_str_field(m: &Vec<(String, Json)>, k: &String) -> (r: Option<String>)
    ensures
        match r {
            Some(s) => sp_str_field(jv_obj(m@), k@) == Some(s@),
            None => sp_str_field(jv_obj(m@), k@) is None,
        },
{
    match json_get(m, k) {
        Some(Json::Str(s)) => Some(s.clone()),
        _ => None,
    }
}

/// Reads an optional string member, as `sp_opt_str_field` states it.
fn get_opt_str_field(m: &Vec<(String, Json)>, k: &String) -> (r: Option<Option<String>>)
    ensures
        match r {
            Some(Some(s)) => sp_opt_str_field(jv_obj(m@), k@) == Some(Some(s@)),
            Some(None) => sp_opt_str_field(jv_obj(m@), k@) == Some(None::<Seq<char>>),
            None => sp_opt_str_field(jv_obj(m@), k@) is None,
        },
{
    match json_get(m, k) {
        None => Some(None),
        Some(Json::Null) => Some(None),
        Some(Json::Str(s)) => Some(Some(s.clone())),
        Some(_) => None,
    }
}

/// Reads a number member's text, as `sp_num_field` states it.
fn get_num_field(m: &Vec<(String, Json)>, k: &String) -> (r: Option<String>)
    ensures
        match r {
            Some(s) => sp_num_field(jv_obj(m@), k@) == Some(s@),
            None => sp_num_field(jv_obj(m@), k@) is None,
        },
{
    match json_get(m, k) {
        Some(Json::Num(t)) => Some(t.clone()),
        _ => None,
    }
}

/// Reads an integer member, as `sp_i32_field` states it.
fn get_i32_field(m: &Vec<(String, Json)>, k: &String) -> (r: Option<i32>)
    ensures
        match r {
            Some(v) => sp_i32_field(jv_obj(m@), k@) == Some(v as int),
            None => sp_i32_field(jv_obj(m@), k@) is None,
        },
{
    match json_get(m, k) {
        Some(Json::Num(t)) => parse_i32(t.as_str()),
        _ => None,
    }
}

/// Reads an all-string array, as `sp_str_seq` states it.
fn decode_str_seq(es: &Vec<Json>) -> (r: Option<Vec<String>>)
    ensures
        match r {
            Some(v) => sp_str_seq(jv_arr(es@)) == Some(strs_view(v@)),
            None => sp_str_seq(jv_arr(es@)) is None,
        },
{
    let ghost evs = jv_arr(es@);
    proof {
        assert(evs.skip(0) =~= evs);
        lemma_jv_arr(es@);
    }
    let n = es.len();
    let mut out: Vec<String> = Vec::new();
    let mut i: usize = 0;
    while i < n
        invariant
            evs == jv_arr(es@),
            n == es@.len(),
            evs.len() == n,
            i <= n,
            out@.len() == i,
            forall|q: int| 0 <= q < i ==> evs[q] == JsonV::Str(#[trigger] out@[q]@),
            match sp_str_seq(evs.skip(i as int)) {
                Some(rest) => sp_str_seq(evs) == Some(strs_view(out@) + rest),
                None => sp_str_seq(evs) is None,
            },
        decreases n - i,
    {
        proof {
            lemma_jv_arr(es@);
            assert(evs.skip(i as int)[0] == evs[i as int]);
            assert(evs[i as int] == jv(es@[i as int]));
        }
        match &es[i] {
            Json::Str(s) => {
                let ghost old_out = out@;
                out.push(s.clone());
                proof {
                    assert(evs.skip(i as int).drop_first() =~= evs.skip(i + 1));
                    if sp_str_seq(evs.skip(i + 1)) is Some {
                        let rest = sp_str_seq(evs.skip(i + 1))->Some_0;
                        assert(sp_str_seq(evs.skip(i as int)) == Some(seq![s@] + rest));
                        assert(strs_view(old_out) + (seq![s@] + rest) =~= strs_view(out@)
                            + rest);
                    }
                }
            },
            _ => {
                return None;
            },
        }
        i = i + 1;
    }
    proof {
        assert(evs.skip(n as int) =~= Seq::<JsonV>::empty());
        assert(strs_view(out@) + Seq::<Seq<char>>::empty() =~= strs_view(out@));
    }
    Some(out)
}

/// A deep copy: the same document.
pub fn clone_json(j: &Json) -> (r: Json)
    ensures
        r@ == j@,
    decreases *j,
{
    match j {
        Json::Null => Json::Null,
        Json::Bool(b) => Json::Bool(*b),
        Json::Num(t) => Json::Num(t.clone()),
        Json::Str(s) => Json::Str(s.clone()),
        Json::Arr(v) => {
            let n = v.len();
            let mut out: Vec<Json> = Vec::new();
            let mut i: usize = 0;
            while i < n
                invariant
                    *j == Json::Arr(*v),
                    n == v@.len(),
                    i <= n,
                    out@.len() == i,
                    forall|q: int| 0 <= q < i ==> jv(#[trigger] out@[q]) == jv(v@[q]),
                decreases n - i,
            {
                proof {
                    assert(decreases_to!(*j => (*j)->Arr_0));
                    assert(decreases_to!((*j)->Arr_0 => ((*j)->Arr_0)@));
                    assert(((*j)->Arr_0)@ == v@);
                    assert(decreases_to!(v@ => v@[i as int]));
                }
                let c = clone_json(&v[i]);
                out.push(c);
                i = i + 1;
            }
            proof {
                lemma_jv_arr(out@);
                lemma_jv_arr(v@);
                assert(jv_arr(out@) =~= jv_arr(v@));
            }
            Json::Arr(out)
        },
        Json::Obj(m) => {
            let n = m.len();
            let mut out: Vec<(String, Json)> = Vec::new();
            let mut i: usize = 0;
            while i < n
                invariant
                    *j == Json::Obj(*m),
                    n == m@.len(),
                    i <= n,
                    out@.len() == i,
                    forall|q: int| 0 <= q < i ==> (#[trigger] out@[q]).0@ == m@[q].0@
                        && jv(out@[q].1) == jv(m@[q].1),
                decreases n - i,
            {
                proof {
                    assert(decreases_to!(*j => (*j)->Obj_0));
                    assert(decreases_to!((*j)->Obj_0 => ((*j)->Obj_0)@));
                    assert(((*j)->Obj_0)@ == m@);
                    assert(decreases_to!(m@ => m@[i as int]));
                    assert(decreases_to!(m@[i as int] => m@[i as int].1));
                }
                let key = m[i].0.clone();
                let val = clone_json(&m[i].1);
                out.push((key, val));
                i = i + 1;
            }
            proof {
                lemma_jv_obj(out@);
                lemma_jv_obj(m@);
                assert(jv_obj(out@) =~= jv_obj(m@));
            }
            Json::Obj(out)
        },
    }
}

/// The shape of a health response.
pub open spec fn sp_health(v: JsonV) -> Option<HealthResponseV> {
    match v {
        JsonV::Obj(ms) => match sp_str_field(ms, "status"@) {
            Some(s) => Some(HealthResponseV { status: s }),
            None => None,
        },
        _ => None,
    }
}

/// Decodes a health response, as `sp_health` states it.
pub fn decode_health(j: &Json) -> (r: Option<HealthResponse>)
    ensures
        match r {
            Some(h) => sp_health(j@) == Some(h@),
            None => sp_health(j@) is None,
        },
{
    match j {
        Json::Obj(m) => {
            let k = "status".to_owned();
            match get_str_field(m, &k) {
                Some(s) => Some(HealthResponse { status: s }),
                None => None,
            }
        },
        _ => None,
    }
}

/// The shape of a validator.
pub open spec fn sp_validator(v: JsonV) -> Option<ValidatorV> {
    match v {
        JsonV::Obj(ms) => {
            match (
                sp_str_field(ms, "id"@),
                sp_str_field(ms, "public_key"@),
                sp_str_field(ms, "model_family"@),
                sp_str_field(ms, "region"@),
                sp_opt_str_field(ms, "domain_focus"@),
            ) {
                (Some(id), Some(pk), Some(mf), Some(rg), Some(df)) => Some(
                    ValidatorV {
                        id: id,
                        public_key: pk,
                        model_family: mf,
                        region: rg,
                        domain_focus: df,
                    },
                ),
                _ => None,
            }
        },
        _ => None,
    }
}

/// Decodes a validator, as `sp_validator` states it.
pub fn decode_validator(j: &Json) -> (r: Option<Validator>)
    ensures
        match r {
            Some(v) => sp_validator(j@) == Some(v@),
            None => sp_validator(j@) is None,
        },
{
    match j {
        Json::Obj(m) => {
            let id = match get_str_field(m, &"id".to_owned()) {
                Some(s) => s,
                None => {
                    return None;
                },
            };
            let pk = match get_str_field(m, &"public_key".to_owned()) {
                Some(s) => s,
                None => {
                    return None;
                },
            };
            let mf = match get_str_field(m, &"model_family".to_owned()) {
                Some(s) => s,
                None => {
                    return None;
                },
            };
            let rg = match get_str_field(m, &"region".to_owned()) {
                Some(s) => s,
                None => {
                    return None;
                },
            };
            let df = match get_opt_str_field(m, &"domain_focus".to_owned()) {
                Some(o) => o,
                None => {
                    return None;
                },
            };
            Some(Validator {
                id: id,
                public_key: pk,
                model_family: mf,
                region: rg,
                domain_focus: df,
            })
        },
        _ => None,
    }
}

/// The shape of a claim.
pub open spec fn sp_claim(v: JsonV) -> Option<ClaimV> {
    match v {
        JsonV::Obj(ms) => {
            match (
                sp_str_field(ms, "id"@),
                sp_str_field(ms, "statement"@),
                sp_str_field(ms, "domain"@),
                sp_str_field(ms, "proposer_id"@),
                sp_strs_field(ms, "evidence_refs"@),
            ) {
                (Some(id), Some(st), Some(dm), Some(pr), Some(ev)) => Some(
                    ClaimV {
                        id: id,
                        statement: st,
                        domain: dm,
                        proposer_id: pr,
                        evidence_refs: ev,
                    },
                ),
                _ => None,
            }
        },
        _ => None,
    }
}

/// Decodes a claim, as `sp_claim` states it.
pub fn decode_claim(j: &Json) -> (r: Option<Claim>)
    ensures
        match r {
            Some(c) => sp_claim(j@) == Some(c@),
            None => sp_claim(j@) is None,
        },
{
    match j {
        Json::Obj(m) => {
            let id = match get_str_field(m, &"id".to_owned()) {
                Some(s) => s,
                None => {
                    return None;
                },
            };
            let st = match get_str_field(m, &"statement".to_owned()) {
                Some(s) => s,
                None => {
                    return None;
                },
            };
            let dm = match get_str_field(m, &"domain".to_owned()) {
                Some(s) => s,
                None => {
                    return None;
                },
            };
            let pr = match get_str_field(m, &"proposer_id".to_owned()) {
                Some(s) => s,
                None => {
                    return None;
                },
            };
            let k = "evidence_refs".to_owned();
            let ev = match json_get(m, &k) {
                Some(Json::Arr(es)) => match decode_str_seq(es) {
                    Some(v) => v,
                    None => {
                        return None;
                    },
                },
                _ => {
                    return None;
                },
            };
            Some(Claim {
                id: id,
                statement: st,
                domain: dm,
                proposer_id: pr,
                evidence_refs: ev,
            })
        },
        _ => None,
    }
}

/// The shape of a vote.
pub open spec fn sp_vote(v: JsonV) -> Option<VoteV> {
    match v {
        JsonV::Obj(ms) => {
            match (
                sp_str_field(ms, "id"@),
                sp_str_field(ms, "claim_id"@),
                sp_str_field(ms, "validator_id"@),
                sp_str_field(ms, "vote_type"@),
                sp_num_field(ms, "confidence"@),
                sp_str_field(ms, "timestamp"@),
                sp_str_field(ms, "signature"@),
            ) {
                (Some(id), Some(ci), Some(vi), Some(vt), Some(cf), Some(ts), Some(sg)) => Some(
                    VoteV {
                        id: id,
                        claim_id: ci,
                        validator_id: vi,
                        vote_type: vt,
                        confidence: cf,
                        timestamp: ts,
                        signature: sg,
                    },
                ),
                _ => None,
            }
        },
        _ => None,
    }
}

/// Decodes a vote, as `sp_vote` states it.
pub fn decode_vote(j: &Json) -> (r: Option<Vote>)
    ensures
        match r {
            Some(v) => sp_vote(j@) == Some(v@),
            None => sp_vote(j@) is None,
        },
{
    match j {
        Json::Obj(m) => {
            let id = match get_str_field(m, &"id".to_owned()) {
                Some(s) => s,
                None => {
                    return None;
                },
            };
            let ci = match get_str_field(m, &"claim_id".to_owned()) {
                Some(s) => s,
                None => {
                    return None;
                },
            };
            let vi = match get_str_field(m, &"validator_id".to_owned()) {
                Some(s) => s,
                None => {
                    return None;
                },
            };
            let vt = match get_str_field(m, &"vote_type".to_owned()) {
                Some(s) => s,
                None => {
                    return None;
                },
            };
            let cf = match get_num_field(m, &"confidence".to_owned()) {
                Some(s) => s,
                None => {
                    return None;
                },
            };
            let ts = match get_str_field(m, &"timestamp".to_owned()) {
                Some(s) => s,
                None => {
                    return None;
                },
            };
            let sg = match get_str_field(m, &"signature".to_owned()) {
                Some(s) => s,
                None => {
                    return None;
                },
            };
            Some(Vote {
                id: id,
                claim_id: ci,
                validator_id: vi,
                vote_type: vt,
                confidence: cf,
                timestamp: ts,
                signature: sg,
            })
        },
        _ => None,
    }
}

/// The views of a sequence of votes.
pub open spec fn votes_view(v: Seq<Vote>) -> Seq<VoteV> {
    Seq::new(v.len(), |i: int| v[i]@)
}

/// The shapes of an all-vote array's elements.
pub open spec fn sp_vote_seq(es: Seq<JsonV>) -> Option<Seq<VoteV>>
    decreases es.len(),
{
    if es.len() == 0 {
        Some(Seq::empty())
    } else {
        match sp_vote(es[0]) {
            Some(vv) => match sp_vote_seq(es.drop_first()) {
                Some(r) => Some(seq![vv] + r),
                None => None,
            },
            None => None,
        }
    }
}

/// The shape of a vote list.
pub open spec fn sp_votes(v: JsonV) -> Option<Seq<VoteV>> {
    match v {
        JsonV::Arr(es) => sp_vote_seq(es),
        _ => None,
    }
}

/// Decodes a vote list, as `sp_votes` states it.
pub fn decode_votes(j: &Json) -> (r: Option<Vec<Vote>>)
    ensures
        match r {
            Some(v) => sp_votes(j@) == Some(votes_view(v@)),
            None => sp_votes(j@) is None,
        },
{
    match j {
        Json::Arr(es) => {
            let ghost evs = jv_arr(es@);
            proof {
                assert(evs.skip(0) =~= evs);
                lemma_jv_arr(es@);
            }
            let n = es.len();
            let mut out: Vec<Vote> = Vec::new();
            let mut i: usize = 0;
            while i < n
                invariant
                    j@ == JsonV::Arr(evs),
                    evs == jv_arr(es@),
                    n == es@.len(),
                    evs.len() == n,
                    i <= n,
                    out@.len() == i,
                    match sp_vote_seq(evs.skip(i as int)) {
                        Some(rest) => sp_vote_seq(evs) == Some(votes_view(out@) + rest),
                        None => sp_vote_seq(evs) is None,
                    },
                decreases n - i,
            {
                proof {
                    lemma_jv_arr(es@);
                    assert(evs.skip(i as int)[0] == evs[i as int]);
                    assert(evs[i as int] == jv(es@[i as int]));
                }
                match decode_vote(&es[i]) {
                    Some(v) => {
                        let ghost old_out = out@;
                        let ghost vv = v@;
                        out.push(v);
                        proof {
                            assert(evs.skip(i as int).drop_first() =~= evs.skip(i + 1));
                            if sp_vote_seq(evs.skip(i + 1)) is Some {
                                let rest = sp_vote_seq(evs.skip(i + 1))->Some_0;
                                assert(sp_vote_seq(evs.skip(i as int)) == Some(seq![vv] + rest));
                                assert(votes_view(old_out) + (seq![vv] + rest) =~= votes_view(
                                    out@,
                                ) + rest);
                            }
                        }
                    },
                    None => {
                        return None;
                    },
                }
                i = i + 1;
            }
            proof {
                assert(evs.skip(n as int) =~= Seq::<JsonV>::empty());
                assert(votes_view(out@) + Seq::<VoteV>::empty() =~= votes_view(out@));
            }
            Some(out)
        },
        _ => None,
    }
}

/// The shape of a consensus response.
pub open spec fn sp_consensus(v: JsonV) -> Option<ConsensusResponseV> {
    match v {
        JsonV::Obj(ms) => {
            match (
                sp_str_field(ms, "claim_id"@),
                sp_i32_field(ms, "round"@),
                sp_opt_str_field(ms, "outcome"@),
                sp_num_field(ms, "confidence"@),
                sp_str_field(ms, "created_at"@),
            ) {
                (Some(ci), Some(rd), Some(oc), Some(cf), Some(ca)) => Some(
                    ConsensusResponseV {
                        claim_id: ci,
                        round: rd,
                        outcome: oc,
                        confidence: cf,
                        created_at: ca,
                    },
                ),
                _ => None,
            }
        },
        _ => None,
    }
}

/// Decodes a consensus response, as `sp_consensus` states it.
pub fn decode_consensus(j: &Json) -> (r: Option<ConsensusResponse>)
    ensures
        match r {
            Some(c) => sp_consensus(j@) == Some(c@),
            None => sp_consensus(j@) is None,
        },
{
    match j {
        Json::Obj(m) => {
            let ci = match get_str_field(m, &"claim_id".to_owned()) {
                Some(s) => s,
                None => {
                    return None;
                },
            };
            let rd = match get_i32_field(m, &"round".to_owned()) {
                Some(v) => v,
                None => {
                    return None;
                },
            };
            let oc = match get_opt_str_field(m, &"outcome".to_owned()) {
                Some(o) => o,
                None => {
                    return None;
                },
            };
            let cf = match get_num_field(m, &"confidence".to_owned()) {
                Some(s) => s,
                None => {
                    return None;
                },
            };
            let ca = match get_str_field(m, &"created_at".to_owned()) {
                Some(s) => s,
                None => {
                    return None;
                },
            };
            Some(ConsensusResponse {
                claim_id: ci,
                round: rd,
                outcome: oc,
                confidence: cf,
                created_at: ca,
            })
        },
        _ => None,
    }
}

/// The shape of the governance parameters: a version string and an arbitrary
/// `parameters` document.
pub open spec fn sp_gov_params(v: JsonV) -> Option<GovernanceParamsV> {
    match v {
        JsonV::Obj(ms) => {
            match (sp_str_field(ms, "version"@), sp_get(ms, "parameters"@)) {
                (Some(vs), Some(p)) => Some(GovernanceParamsV { version: vs, parameters: p }),
                _ => None,
            }
        },
        _ => None,
    }
}

/// Decodes the governance parameters, as `sp_gov_params` states it.
pub fn decode_gov_params(j: &Json) -> (r: Option<GovernanceParams>)
    ensures
        match r {
            Some(g) => sp_gov_params(j@) == Some(g@),
            None => sp_gov_params(j@) is None,
        },
{
    match j {
        Json::Obj(m) => {
            let vs = match get_str_field(m, &"version".to_owned()) {
                Some(s) => s,
                None => {
                    return None;
                },
            };
            let k = "parameters".to_owned();
            let p = match json_get(m, &k) {
                Some(v) => clone_json(v),
                None => {
                    return None;
                },
            };
            Some(GovernanceParams { version: vs, parameters: p })
        },
        _ => None,
    }
}

/// The `Str` documents of a sequence of strings, in order.
pub open spec fn strs_json(ss: Seq<Seq<char>>) -> Seq<JsonV> {
    Seq::new(ss.len(), |i: int| JsonV::Str(ss[i]))
}

/// The document a registration request renders to: every field present, an
/// absent domain focus as null.
pub open spec fn sp_register_json(r: RegisterValidatorRequestV) -> JsonV {
    JsonV::Obj(
        seq![
            ("public_key"@, JsonV::Str(r.public_key)),
            ("model_family"@, JsonV::Str(r.model_family)),
            ("region"@, JsonV::Str(r.region)),
            (
                "domain_focus"@,
                match r.domain_focus {
                    Some(s) => JsonV::Str(s),
                    None => JsonV::Null,
                },
            ),
        ],
    )
}

/// Renders a registration request body: exactly `ser(sp_register_json(..))`.
pub fn encode_register_validator(req: &RegisterValidatorRequest) -> (r: String)
    ensures
        r@ == ser(sp_register_json(req@)),
{
    let mut m: Vec<(String, Json)> = Vec::new();
    m.push(("public_key".to_owned(), Json::Str(req.public_key.clone())));
    m.push(("model_family".to_owned(), Json::Str(req.model_family.clone())));
    m.push(("region".to_owned(), Json::Str(req.region.clone())));
    let df = match &req.domain_focus {
        Some(s) => Json::Str(s.clone()),
        None => Json::Null,
    };
    m.push(("domain_focus".to_owned(), df));
    proof {
        lemma_jv_obj(m@);
        assert(jv_obj(m@) =~= sp_register_json(req@)->Obj_0);
    }
    let doc = Json::Obj(m);
    to_json_text(&doc)
}

/// The document a claim submission renders to: the evidence list is always
/// present, empty or not.
pub open spec fn sp_submit_claim_json(r: SubmitClaimRequestV) -> JsonV {
    JsonV::Obj(
        seq![
            ("statement"@, JsonV::Str(r.statement)),
            ("domain"@, JsonV::Str(r.domain)),
            ("proposer_id"@, JsonV::Str(r.proposer_id)),
            ("evidence_refs"@, JsonV::Arr(strs_json(r.evidence_refs))),
        ],
    )
}

/// The evidence list stands in every rendered claim submission, also when it
/// is empty: it maps to an empty array, never to an absent member.
pub proof fn lemma_submit_claim_keeps_evidence(r: SubmitClaimRequestV)
    ensures
        sp_get(sp_submit_claim_json(r)->Obj_0, "evidence_refs"@) == Some(
            JsonV::Arr(strs_json(r.evidence_refs)),
        ),
{
    reveal_strlit("statement");
    reveal_strlit("domain");
    reveal_strlit("proposer_id");
    reveal_strlit("evidence_refs");
    reveal_with_fuel(sp_get, 5);
    let ms = sp_submit_claim_json(r)->Obj_0;
    let k = "evidence_refs"@;
    assert(ms.len() == 4);
    assert("statement"@.len() == 9);
    assert("evidence_refs"@.len() == 13);
    assert(ms[0].0 == "statement"@);
    assert(ms[0].0 != k);
    assert(ms.drop_first() =~= seq![
        ("domain"@, JsonV::Str(r.domain)),
        ("proposer_id"@, JsonV::Str(r.proposer_id)),
        ("evidence_refs"@, JsonV::Arr(strs_json(r.evidence_refs))),
    ]);
    assert(ms.drop_first().drop_first() =~= seq![
        ("proposer_id"@, JsonV::Str(r.proposer_id)),
        ("evidence_refs"@, JsonV::Arr(strs_json(r.evidence_refs))),
    ]);
    assert(ms.drop_first().drop_first().drop_first() =~= seq![
        ("evidence_refs"@, JsonV::Arr(strs_json(r.evidence_refs))),
    ]);
}

/// Renders a claim submission body: exactly `ser(sp_submit_claim_json(..))`.
pub fn encode_submit_claim(req: &SubmitClaimRequest) -> (r: String)
    ensures
        r@ == ser(sp_submit_claim_json(req@)),
{
    let n = req.evidence_refs.len();
    let mut ev: Vec<Json> = Vec::new();
    let mut i: usize = 0;
    while i < n
        invariant
            n == req.evidence_refs@.len(),
            i <= n,
            ev@.len() == i,
            forall|q: int| 0 <= q < i ==> jv(#[trigger] ev@[q]) == JsonV::Str(
                req.evidence_refs@[q]@,
            ),
        decreases n - i,
    {
        ev.push(Json::Str(req.evidence_refs[i].clone()));
        i = i + 1;
    }
    proof {
        lemma_jv_arr(ev@);
        assert(jv_arr(ev@) =~= strs_json(strs_view(req.evidence_refs@)));
    }
    let mut m: Vec<(String, Json)> = Vec::new();
    m.push(("statement".to_owned(), Json::Str(req.statement.clone())));
    m.push(("domain".to_owned(), Json::Str(req.domain.clone())));
    m.push(("proposer_id".to_owned(), Json::Str(req.proposer_id.clone())));
    m.push(("evidence_refs".to_owned(), Json::Arr(ev)));
    proof {
        lemma_jv_obj(m@);
        assert(jv_obj(m@) =~= sp_submit_claim_json(req@)->Obj_0);
    }
    let doc = Json::Obj(m);
    to_json_text(&doc)
}

/// The document a vote submission renders to; the confidence text stands as
/// a bare JSON number.
pub open spec fn sp_submit_vote_json(r: SubmitVoteRequestV) -> JsonV {
    JsonV::Obj(
        seq![
            ("claim_id"@, JsonV::Str(r.claim_id)),
            ("validator_id"@, JsonV::Str(r.validator_id)),
            ("vote_type"@, JsonV::Str(r.vote_type)),
            ("confidence"@, JsonV::Num(r.confidence)),
            ("timestamp"@, JsonV::Str(r.timestamp)),
            ("signature"@, JsonV::Str(r.signature)),
        ],
    )
}

/// Renders a vote submission body: exactly `ser(sp_submit_vote_json(..))`.
pub fn encode_submit_vote(req: &SubmitVoteRequest) -> (r: String)
    ensures
        r@ == ser(sp_submit_vote_json(req@)),
{
    let mut m: Vec<(String, Json)> = Vec::new();
    m.push(("claim_id".to_owned(), Json::Str(req.claim_id.clone())));
    m.push(("validator_id".to_owned(), Json::Str(req.validator_id.clone())));
    m.push(("vote_type".to_owned(), Json::Str(req.vote_type.clone())));
    m.push(("confidence".to_owned(), Json::Num(req.confidence.clone())));
    m.push(("timestamp".to_owned(), Json::Str(req.timestamp.clone())));
    m.push(("signature".to_owned(), Json::Str(req.signature.clone())));
    proof {
        lemma_jv_obj(m@);
        assert(jv_obj(m@) =~= sp_submit_vote_json(req@)->Obj_0);
    }
    let doc = Json::Obj(m);
    to_json_text(&doc)
}

/// The document a governance proposal renders to; the delay stands as a
/// decimal JSON number.
pub open spec fn sp_proposal_json(r: CreateGovernanceProposalRequestV) -> JsonV {
    JsonV::Obj(
        seq![
            ("title"@, JsonV::Str(r.title)),
            ("body"@, JsonV::Str(r.body)),
            ("parameters_diff"@, r.parameters_diff),
            ("activation_delay_hours"@, JsonV::Num(dec_int(r.activation_delay_hours))),
        ],
    )
}

/// Renders a governance proposal body: exactly `ser(sp_proposal_json(..))`.
pub fn encode_proposal(req: &CreateGovernanceProposalRequest) -> (r: String)
    ensures
        r@ == ser(sp_proposal_json(req@)),
{
    let mut m: Vec<(String, Json)> = Vec::new();
    m.push(("title".to_owned(), Json::Str(req.title.clone())));
    m.push(("body".to_owned(), Json::Str(req.body.clone())));
    m.push(("parameters_diff".to_owned(), clone_json(&req.parameters_diff)));
    m.push(("activation_delay_hours".to_owned(), Json::Num(i32_to_dec(req.activation_delay_hours))));
    proof {
        lemma_jv_obj(m@);
        assert(jv_obj(m@) =~= sp_proposal_json(req@)->Obj_0);
    }
    let doc = Json::Obj(m);
    to_json_text(&doc)
}

/// The shape of a ledger root response.
pub open spec fn sp_ledger_root(v: JsonV) -> Option<LedgerRootResponseV> {
    match v {
        JsonV::Obj(ms) => match sp_str_field(ms, "merkle_root"@) {
            Some(s) => Some(LedgerRootResponseV { merkle_root: s }),
            None => None,
        },
        _ => None,
    }
}

/// Decodes a ledger root response, as `sp_ledger_root` states it.
pub fn decode_ledger_root(j: &Json) -> (r: Option<LedgerRootResponse>)
    ensures
        match r {
            Some(l) => sp_ledger_root(j@) == Some(l@),
            None => sp_ledger_root(j@) is None,
        },
{
    match j {
        Json::Obj(m) => {
            let k = "merkle_root".to_owned();
            match get_str_field(m, &k) {
                Some(s) => Some(LedgerRootResponse { merkle_root: s }),
                None => None,
            }
        },
        _ => None,
    }
}

} // verus!
