//! Priority-fee estimation across heterogeneous provider families.
//!
//! The configured endpoint's host selects one of four provider families,
//! each with its own request-body shape and response-field path. Responses
//! are normalized to a single microlamport value and clamped to the
//! user-configured cap. Estimation is best effort: when the transport or
//! the JSON parse fails the caller falls back to the last known fee rather
//! than blocking the submission path.
use vstd::prelude::*;
use vstd::string::StringSliceAdditionalSpecFns;
use crate::errors::FeeError;
use crate::json::{spec_as_num, spec_get, JsonValue};

verus! {

/// The provider families whose fee endpoints this library understands.
#[derive(Clone, Copy, Debug, PartialEq, Eq, Structural)]
pub enum FeeProvider {
    Helius,
    Alchemy,
    Quiknode,
    Triton,
}

/// `needle` occurs in `hay` starting at position `i`.
pub open spec fn is_match_at(hay: Seq<u8>, needle: Seq<u8>, i: int) -> bool {
    0 <= i && i + needle.len() <= hay.len() && hay.subrange(i, i + needle.len()) == needle
}

/// `needle` occurs somewhere in `hay`.
pub open spec fn contains_bytes(hay: Seq<u8>, needle: Seq<u8>) -> bool {
    exists|i: int| is_match_at(hay, needle, i)
}

/// Byte-level substring search.
pub fn find_bytes(hay: &[u8], needle: &[u8]) -> (r: bool)
    ensures
        r == contains_bytes(hay@, needle@),
{
    let hlen = hay.len();
    let nlen = needle.len();
    if nlen > hlen {
        proof {
            assert forall|i: int| !is_match_at(hay@, needle@, i) by {}
        }
        return false;
    }
    if nlen == 0 {
        proof {
            assert(hay@.subrange(0, 0) =~= needle@);
            assert(is_match_at(hay@, needle@, 0));
        }
        return true;
    }
    let mut i: usize = 0;
    while i < hlen - nlen + 1
        invariant
            1 <= nlen <= hlen,
            hlen == hay@.len(),
            nlen == needle@.len(),
            0 <= i <= hlen - nlen + 1,
            forall|k: int| 0 <= k < i ==> !is_match_at(hay@, needle@, k),
        decreases hlen - nlen + 1 - i,
    {
        let mut j: usize = 0;
        let mut matched = true;
        while j < nlen
            invariant
                1 <= nlen <= hlen,
                hlen == hay@.len(),
                nlen == needle@.len(),
                0 <= i <= hlen - nlen,
                0 <= j <= nlen,
                matched ==> forall|m: int| 0 <= m < j ==> hay@[i + m] == needle@[m],
                !matched ==> !is_match_at(hay@, needle@, i as int),
            decreases nlen - j,
        {
            if hay[i + j] != needle[j] {
                proof {
                    if is_match_at(hay@, needle@, i as int) {
                        assert(hay@.subrange(i as int, i + nlen as int)[j as int] == needle@[
                            j as int
                        ]);
                    }
                }
                matched = false;
            }
            j = j + 1;
        }
        if matched {
            proof {
                assert(hay@.subrange(i as int, i + nlen as int) =~= needle@);
                assert(is_match_at(hay@, needle@, i as int));
            }
            return true;
        }
        i = i + 1;
    }
    proof {
        assert forall|k: int| !is_match_at(hay@, needle@, k) by {
            if 0 <= k <= hlen - nlen {
                assert(!is_match_at(hay@, needle@, k));
            }
        }
    }
    false
}

/// Which provider family serves a host, by the marker each family's
/// endpoints carry in their domain. The first match wins, in this order.
pub open spec fn spec_detect_provider(host: Seq<u8>) -> Option<FeeProvider> {
    if contains_bytes(host, ("helius-rpc.com").spec_bytes()) {
        Some(FeeProvider::Helius)
    } else if contains_bytes(host, ("alchemy.com").spec_bytes()) {
        Some(FeeProvider::Alchemy)
    } else if contains_bytes(host, ("quiknode.pro").spec_bytes()) {
        Some(FeeProvider::Quiknode)
    } else if contains_bytes(host, ("rpcpool.com").spec_bytes()) {
        Some(FeeProvider::Triton)
    } else {
        None
    }
}

/// Match a host against the supported provider families.
pub fn detect_provider(host: &[u8]) -> (r: Option<FeeProvider>)
    ensures
        r == spec_detect_provider(host@),
{
    if find_bytes(host, "helius-rpc.com".as_bytes()) {
        Some(FeeProvider::Helius)
    } else if find_bytes(host, "alchemy.com".as_bytes()) {
        Some(FeeProvider::Alchemy)
    } else if find_bytes(host, "quiknode.pro".as_bytes()) {
        Some(FeeProvider::Quiknode)
    } else if find_bytes(host, "rpcpool.com".as_bytes()) {
        Some(FeeProvider::Triton)
    } else {
        None
    }
}

/// The host component of a URL, as the `url` crate extracts it.
pub uninterp spec fn url_host_bytes(url: Seq<char>) -> Option<Seq<u8>>;

/// Relies on `url::Url::parse` and `url::Url::host_str`: the host component
/// of a URL is a function of the URL text alone; a URL that does not parse,
/// or that has no host, yields none.
#[verifier::external_body]
fn url_host(url: &str) -> (r: Option<Vec<u8>>)
    ensures
        match r {
            Some(h) => url_host_bytes(url@) == Some(h@),
            None => url_host_bytes(url@) is None,
        },
{
    match url::Url::parse(url) {
        Ok(u) => u.host_str().map(|h| h.as_bytes().to_vec()),
        Err(_) => None,
    }
}

/// Select the provider family of the configured fee endpoint. A URL whose
/// host matches no supported family is rejected with an explicit
/// unsupported-provider error, never silently defaulted.
pub fn select_provider(fee_url: &str) -> (r: Result<FeeProvider, FeeError>)
    ensures
        match url_host_bytes(fee_url@) {
            Some(h) => r == match spec_detect_provider(h) {
                Some(p) => Ok::<FeeProvider, FeeError>(p),
                None => Err::<FeeProvider, FeeError>(FeeError::UnsupportedProvider),
            },
            None => r == Err::<FeeProvider, FeeError>(FeeError::UnsupportedProvider),
        },
{
    match url_host(fee_url) {
        Some(host) => match detect_provider(host.as_slice()) {
            Some(p) => Ok(p),
            None => Err(FeeError::UnsupportedProvider),
        },
        None => Err(FeeError::UnsupportedProvider),
    }
}

/// One per-slot fee sample of a recent-prioritization-fees response.
#[derive(Clone, Copy, Debug, PartialEq, Eq, Structural)]
pub struct RpcPrioritizationFee {
    pub slot: u64,
    pub prioritization_fee: u64,
}

/// Sum of a list of fee values.
pub open spec fn spec_sum_u64(s: Seq<u64>) -> int
    decreases s.len(),
{
    if s.len() == 0 {
        0
    } else {
        spec_sum_u64(s.drop_last()) + s.last()
    }
}

/// Sum of the fee values of a list of samples.
pub open spec fn spec_sum_fees(s: Seq<RpcPrioritizationFee>) -> int
    decreases s.len(),
{
    if s.len() == 0 {
        0
    } else {
        spec_sum_fees(s.drop_last()) + s.last().prioritization_fee
    }
}

/// How many of the most recent samples enter the estimate.
pub const RECENT_SAMPLES: usize = 20;

/// The most recent samples: the last `RECENT_SAMPLES` entries of the list
/// (the whole list when it is shorter). Responses carry samples oldest
/// first, so the discarded entries are the oldest.
pub open spec fn spec_recent_fees(s: Seq<RpcPrioritizationFee>) -> Seq<RpcPrioritizationFee> {
    if s.len() <= RECENT_SAMPLES {
        s
    } else {
        s.subrange(s.len() - RECENT_SAMPLES, s.len() as int)
    }
}

/// The estimate of a recent-fees response: the arithmetic mean of the most
/// recent samples.
pub open spec fn spec_triton_estimate(s: Seq<RpcPrioritizationFee>) -> int
    recommends
        s.len() > 0,
{
    spec_sum_fees(spec_recent_fees(s)) / spec_recent_fees(s).len() as int
}

/// The most recent entries of a plain fee list: the last `RECENT_SAMPLES`
/// of it (the whole list when it is shorter). Responses carry samples
/// oldest first, so the discarded entries are the oldest.
pub open spec fn spec_recent_u64(s: Seq<u64>) -> Seq<u64> {
    if s.len() <= RECENT_SAMPLES {
        s
    } else {
        s.subrange(s.len() - RECENT_SAMPLES, s.len() as int)
    }
}

/// The estimate of a per-account fee list: the mean of the most recent
/// samples, rounded up, inflated by one fifth, saturating at the 64-bit
/// bound.
pub open spec fn spec_alchemy_estimate(s: Seq<u64>) -> int
    recommends
        s.len() > 0,
{
    let recent = spec_recent_u64(s);
    let m = (spec_sum_u64(recent) + recent.len() - 1) / recent.len() as int;
    let inflated = m * 6 / 5;
    if inflated > u64::MAX as int {
        u64::MAX as int
    } else {
        inflated
    }
}

/// The average over the most recent samples (at most `RECENT_SAMPLES` of
/// them, newest last), in microlamports.
pub fn estimate_prioritization_fee_micro_lamports(
    prioritization_fees: Vec<RpcPrioritizationFee>,
) -> (r: u64)
    requires
        prioritization_fees@.len() >= 1,
    ensures
        r == spec_triton_estimate(prioritization_fees@),
{
    let len = prioritization_fees.len();
    let start: usize = if len > RECENT_SAMPLES {
        len - RECENT_SAMPLES
    } else {
        0
    };
    let ghost recent = spec_recent_fees(prioritization_fees@);
    proof {
        assert(recent =~= prioritization_fees@.subrange(start as int, len as int));
    }
    let mut sum: u128 = 0;
    let mut i: usize = start;
    while i < len
        invariant
            start <= i <= len,
            len == prioritization_fees@.len(),
            recent =~= prioritization_fees@.subrange(start as int, len as int),
            sum == spec_sum_fees(prioritization_fees@.subrange(start as int, i as int)),
            sum <= (i - start) * (u64::MAX as int),
        decreases len - i,
    {
        let ghost before = prioritization_fees@.subrange(start as int, i as int);
        let ghost after = prioritization_fees@.subrange(start as int, i as int + 1);
        proof {
            assert(after.drop_last() =~= before);
            assert(after.last() == prioritization_fees@[i as int]);
        }
        sum = sum + prioritization_fees[i].prioritization_fee as u128;
        i = i + 1;
    }
    let cnt: u128 = (len - start) as u128;
    proof {
        assert(recent.len() == len - start >= 1);
        assert(sum == spec_sum_fees(recent));
        vstd::arithmetic::div_mod::lemma_div_is_ordered(
            sum as int,
            (cnt as int) * (u64::MAX as int),
            cnt as int,
        );
        vstd::arithmetic::div_mod::lemma_div_multiples_vanish(u64::MAX as int, cnt as int);
    }
    (sum / cnt) as u64
}

/// The mean-and-inflate estimate over the most recent entries of a plain
/// fee list.
fn alchemy_estimate(fees: &Vec<u64>) -> (r: u64)
    requires
        fees@.len() >= 1,
    ensures
        r == spec_alchemy_estimate(fees@),
{
    let len = fees.len();
    let start: usize = if len > RECENT_SAMPLES {
        len - RECENT_SAMPLES
    } else {
        0
    };
    let ghost recent = spec_recent_u64(fees@);
    proof {
        assert(recent =~= fees@.subrange(start as int, len as int));
    }
    let mut sum: u128 = 0;
    let mut i: usize = start;
    while i < len
        invariant
            start <= i <= len,
            len == fees@.len(),
            recent =~= fees@.subrange(start as int, len as int),
            sum == spec_sum_u64(fees@.subrange(start as int, i as int)),
            sum <= (i - start) * (u64::MAX as int),
        decreases len - i,
    {
        let ghost before = fees@.subrange(start as int, i as int);
        let ghost after = fees@.subrange(start as int, i as int + 1);
        proof {
            assert(after.drop_last() =~= before);
            assert(after.last() == fees@[i as int]);
        }
        sum = sum + fees[i] as u128;
        i = i + 1;
    }
    let cnt: u128 = (len - start) as u128;
    let num: u128 = sum + (cnt - 1);
    let ceil_mean: u128 = num / cnt;
    proof {
        let c = cnt as int;
        let m = u64::MAX as int;
        assert(recent.len() == len - start >= 1);
        assert(sum == spec_sum_u64(recent));
        assert(num as int <= c * m + (c - 1));
        vstd::arithmetic::div_mod::lemma_div_is_ordered(num as int, c * m + (c - 1), c);
        vstd::arithmetic::div_mod::lemma_fundamental_div_mod_converse(c * m + (c - 1), c, m, c - 1);
        assert((c * m + (c - 1)) / c == m);
        assert(ceil_mean as int == (spec_sum_u64(recent) + recent.len() - 1) / recent.len() as int);
    }
    let inflated: u128 = ceil_mean * 6 / 5;
    if inflated > u64::MAX as u128 {
        u64::MAX
    } else {
        inflated as u64
    }
}

/// The fee of a single-recommendation response: the number at
/// `result.priorityFeeEstimate`.
pub open spec fn spec_helius_fee(v: JsonValue) -> Option<u64> {
    match spec_get(v, "result"@) {
        Some(res) => match spec_get(res, "priorityFeeEstimate"@) {
            Some(f) => spec_as_num(f),
            None => None,
        },
        None => None,
    }
}

/// The fee of a per-compute-unit response: the number at
/// `result.per_compute_unit.medium`.
pub open spec fn spec_quiknode_fee(v: JsonValue) -> Option<u64> {
    match spec_get(v, "result"@) {
        Some(res) => match spec_get(res, "per_compute_unit"@) {
            Some(pcu) => match spec_get(pcu, "medium"@) {
                Some(f) => spec_as_num(f),
                None => None,
            },
            None => None,
        },
        None => None,
    }
}

/// The fee values of a per-account response: each array element must carry
/// a numeric `prioritizationFee` field.
pub open spec fn spec_alchemy_fees(items: Seq<JsonValue>) -> Option<Seq<u64>>
    decreases items.len(),
{
    if items.len() == 0 {
        Some(Seq::empty())
    } else {
        match spec_alchemy_fees(items.drop_last()) {
            Some(rest) => match spec_get(items.last(), "prioritizationFee"@) {
                Some(f) => match spec_as_num(f) {
                    Some(n) => Some(rest.push(n)),
                    None => None,
                },
                None => None,
            },
            None => None,
        }
    }
}

/// The samples of a recent-fees response: each array element must carry
/// numeric `slot` and `prioritization_fee` fields.
pub open spec fn spec_triton_fees(items: Seq<JsonValue>) -> Option<Seq<RpcPrioritizationFee>>
    decreases items.len(),
{
    if items.len() == 0 {
        Some(Seq::empty())
    } else {
        match spec_triton_fees(items.drop_last()) {
            Some(rest) => match (
                spec_get(items.last(), "slot"@),
                spec_get(items.last(), "prioritization_fee"@),
            ) {
                (Some(s), Some(f)) => match (spec_as_num(s), spec_as_num(f)) {
                    (Some(slot), Some(fee)) => Some(
                        rest.push(RpcPrioritizationFee { slot, prioritization_fee: fee }),
                    ),
                    _ => None,
                },
                _ => None,
            },
            None => None,
        }
    }
}


/// A fee list that fails on a prefix fails as a whole.
proof fn lemma_alchemy_fees_none(items: Seq<JsonValue>, i: int)
    requires
        0 <= i <= items.len(),
        spec_alchemy_fees(items.subrange(0, i)) is None,
    ensures
        spec_alchemy_fees(items) is None,
    decreases items.len() - i,
{
    if i < items.len() {
        assert(items.subrange(0, i + 1).drop_last() =~= items.subrange(0, i));
        lemma_alchemy_fees_none(items, i + 1);
    } else {
        assert(items.subrange(0, i) =~= items);
    }
}

/// A sample list that fails on a prefix fails as a whole.
proof fn lemma_triton_fees_none(items: Seq<JsonValue>, i: int)
    requires
        0 <= i <= items.len(),
        spec_triton_fees(items.subrange(0, i)) is None,
    ensures
        spec_triton_fees(items) is None,
    decreases items.len() - i,
{
    if i < items.len() {
        assert(items.subrange(0, i + 1).drop_last() =~= items.subrange(0, i));
        lemma_triton_fees_none(items, i + 1);
    } else {
        assert(items.subrange(0, i) =~= items);
    }
}

/// Extract the per-account fee list of a response array.
fn alchemy_fees(items: &Vec<JsonValue>) -> (r: Option<Vec<u64>>)
    ensures
        match r {
            Some(fees) => spec_alchemy_fees(items@) == Some(fees@),
            None => spec_alchemy_fees(items@) is None,
        },
{
    let mut fees: Vec<u64> = Vec::new();
    let mut i: usize = 0;
    proof {
        assert(items@.subrange(0, 0) =~= Seq::<JsonValue>::empty());
    }
    while i < items.len()
        invariant
            0 <= i <= items@.len(),
            spec_alchemy_fees(items@.subrange(0, i as int)) == Some(fees@),
        decreases items@.len() - i,
    {
        let ghost prefix = items@.subrange(0, i as int);
        let ghost next = items@.subrange(0, i as int + 1);
        proof {
            assert(next.drop_last() =~= prefix);
            assert(next.last() == items@[i as int]);
        }
        let key = "prioritizationFee".to_owned();
        match items[i].get(&key) {
            Some(f) => match f.as_num() {
                Some(n) => {
                    fees.push(n);
                },
                None => {
                    proof {
                        lemma_alchemy_fees_none(items@, i as int + 1);
                    }
                    return None;
                },
            },
            None => {
                proof {
                    lemma_alchemy_fees_none(items@, i as int + 1);
                }
                return None;
            },
        }
        i = i + 1;
    }
    proof {
        assert(items@.subrange(0, items@.len() as int) =~= items@);
    }
    Some(fees)
}

/// Extract the sample list of a recent-fees response array.
fn triton_fees(items: &Vec<JsonValue>) -> (r: Option<Vec<RpcPrioritizationFee>>)
    ensures
        match r {
            Some(fees) => spec_triton_fees(items@) == Some(fees@),
            None => spec_triton_fees(items@) is None,
        },
{
    let mut fees: Vec<RpcPrioritizationFee> = Vec::new();
    let mut i: usize = 0;
    proof {
        assert(items@.subrange(0, 0) =~= Seq::<JsonValue>::empty());
    }
    while i < items.len()
        invariant
            0 <= i <= items@.len(),
            spec_triton_fees(items@.subrange(0, i as int)) == Some(fees@),
        decreases items@.len() - i,
    {
        let ghost prefix = items@.subrange(0, i as int);
        let ghost next = items@.subrange(0, i as int + 1);
        proof {
            assert(next.drop_last() =~= prefix);
            assert(next.last() == items@[i as int]);
        }
        let slot_key = "slot".to_owned();
        let fee_key = "prioritization_fee".to_owned();
        let slot_field = items[i].get(&slot_key);
        let fee_field = items[i].get(&fee_key);
        match (slot_field, fee_field) {
            (Some(s), Some(f)) => match (s.as_num(), f.as_num()) {
                (Some(slot), Some(fee)) => {
                    fees.push(RpcPrioritizationFee { slot, prioritization_fee: fee });
                },
                _ => {
                    proof {
                        lemma_triton_fees_none(items@, i as int + 1);
                    }
                    return None;
                },
            },
            _ => {
                proof {
                    lemma_triton_fees_none(items@, i as int + 1);
                }
                return None;
            },
        }
        i = i + 1;
    }
    proof {
        assert(items@.subrange(0, items@.len() as int) =~= items@);
    }
    Some(fees)
}

/// What a provider's response normalizes to: the provider family fixes the
/// response-field path, and a response that does not hold the expected
/// fields (or holds an empty sample list) is a parse failure.
pub open spec fn spec_parse_fee_response(provider: FeeProvider, v: JsonValue) -> Result<
    u64,
    FeeError,
> {
    match provider {
        FeeProvider::Helius => match spec_helius_fee(v) {
            Some(f) => Ok(f),
            None => Err(FeeError::ParseFailed),
        },
        FeeProvider::Quiknode => match spec_quiknode_fee(v) {
            Some(f) => Ok(f),
            None => Err(FeeError::ParseFailed),
        },
        FeeProvider::Alchemy => match spec_get(v, "result"@) {
            Some(res) => if res is Arr {
                match spec_alchemy_fees((res->Arr_0)@) {
                    Some(fees) => if fees.len() > 0 {
                        Ok(spec_alchemy_estimate(fees) as u64)
                    } else {
                        Err(FeeError::ParseFailed)
                    },
                    None => Err(FeeError::ParseFailed),
                }
            } else {
                Err(FeeError::ParseFailed)
            },
            None => Err(FeeError::ParseFailed),
        },
        FeeProvider::Triton => match spec_get(v, "result"@) {
            Some(res) => if res is Arr {
                match spec_triton_fees((res->Arr_0)@) {
                    Some(fees) => if fees.len() > 0 {
                        Ok(spec_triton_estimate(fees) as u64)
                    } else {
                        Err(FeeError::ParseFailed)
                    },
                    None => Err(FeeError::ParseFailed),
                }
            } else {
                Err(FeeError::ParseFailed)
            },
            None => Err(FeeError::ParseFailed),
        },
    }
}

/// Normalize a provider response to a single microlamport fee.
pub fn parse_fee_response(provider: FeeProvider, v: &JsonValue) -> (r: Result<u64, FeeError>)
    ensures
        r == spec_parse_fee_response(provider, *v),
{
    match provider {
        FeeProvider::Helius => {
            let result_key = "result".to_owned();
            match v.get(&result_key) {
                Some(res) => {
                    let fee_key = "priorityFeeEstimate".to_owned();
                    match res.get(&fee_key) {
                        Some(f) => match f.as_num() {
                            Some(n) => Ok(n),
                            None => Err(FeeError::ParseFailed),
                        },
                        None => Err(FeeError::ParseFailed),
                    }
                },
                None => Err(FeeError::ParseFailed),
            }
        },
        FeeProvider::Quiknode => {
            let result_key = "result".to_owned();
            match v.get(&result_key) {
                Some(res) => {
                    let pcu_key = "per_compute_unit".to_owned();
                    match res.get(&pcu_key) {
                        Some(pcu) => {
                            let medium_key = "medium".to_owned();
                            match pcu.get(&medium_key) {
                                Some(f) => match f.as_num() {
                                    Some(n) => Ok(n),
                                    None => Err(FeeError::ParseFailed),
                                },
                                None => Err(FeeError::ParseFailed),
                            }
                        },
                        None => Err(FeeError::ParseFailed),
                    }
                },
                None => Err(FeeError::ParseFailed),
            }
        },
        FeeProvider::Alchemy => {
            let result_key = "result".to_owned();
            match v.get(&result_key) {
                Some(res) => match res.as_arr() {
                    Some(items) => match alchemy_fees(items) {
                        Some(fees) => if fees.len() > 0 {
                            Ok(alchemy_estimate(&fees))
                        } else {
                            Err(FeeError::ParseFailed)
                        },
                        None => Err(FeeError::ParseFailed),
                    },
                    None => Err(FeeError::ParseFailed),
                },
                None => Err(FeeError::ParseFailed),
            }
        },
        FeeProvider::Triton => {
            let result_key = "result".to_owned();
            match v.get(&result_key) {
                Some(res) => match res.as_arr() {
                    Some(items) => match triton_fees(items) {
                        Some(fees) => if fees.len() > 0 {
                            Ok(estimate_prioritization_fee_micro_lamports(fees))
                        } else {
                            Err(FeeError::ParseFailed)
                        },
                        None => Err(FeeError::ParseFailed),
                    },
                    None => Err(FeeError::ParseFailed),
                },
                None => Err(FeeError::ParseFailed),
            }
        },
    }
}

/// Clamp a computed fee to the user-configured cap: the returned value is
/// the minimum of the two.
pub fn clamp_fee(fee: u64, cap: u64) -> (r: u64)
    ensures
        r == if fee <= cap { fee } else { cap },
{
    if fee <= cap {
        fee
    } else {
        cap
    }
}

/// Estimate the current priority fee from the configured endpoint's
/// response.
///
/// The URL picks the provider family; an unsupported host is an explicit
/// error, never a silent default. `response` is the parsed reply of the
/// endpoint, or none when the transport or the JSON parse failed, in which
/// case the last known fee is kept (estimation is best effort and never
/// blocks submission). A successfully parsed fee is clamped to
/// `priority_fee_cap`.
pub fn get_recent_priority_fee_estimate(
    fee_url: &str,
    response: Option<&JsonValue>,
    last_known_fee: u64,
    priority_fee_cap: u64,
) -> (r: Result<u64, FeeError>)
    ensures
        match url_host_bytes(fee_url@) {
            Some(h) => match spec_detect_provider(h) {
                Some(p) => match response {
                    Some(v) => match spec_parse_fee_response(p, *v) {
                        Ok(f) => r == Ok::<u64, FeeError>(
                            if f <= priority_fee_cap {
                                f
                            } else {
                                priority_fee_cap
                            },
                        ),
                        Err(e) => r == Err::<u64, FeeError>(e),
                    },
                    None => r == Ok::<u64, FeeError>(last_known_fee),
                },
                None => r == Err::<u64, FeeError>(FeeError::UnsupportedProvider),
            },
            None => r == Err::<u64, FeeError>(FeeError::UnsupportedProvider),
        },
{
    let provider = match select_provider(fee_url) {
        Ok(p) => p,
        Err(e) => {
            return Err(e);
        },
    };
    match response {
        Some(v) => match parse_fee_response(provider, v) {
            Ok(f) => Ok(clamp_fee(f, priority_fee_cap)),
            Err(e) => Err(e),
        },
        None => Ok(last_known_fee),
    }
}

/// The request body of one fee query, in the shape the provider family
/// expects. The transport serializes it one field for one.
#[derive(Debug)]
pub enum FeeRequestBody {
    /// Ask for a recommended priority-fee estimate over the given accounts.
    HeliusEstimate { account_keys: Vec<String>, recommended: bool },
    /// Ask for the recent prioritization fees of the given accounts.
    AlchemyRecent { account_keys: Vec<String> },
    /// Ask for a per-compute-unit fee estimate over one account and a
    /// trailing block window.
    QuiknodeEstimate { account: String, last_n_blocks: u64 },
    /// Ask for recent prioritization fees at a percentile.
    TritonRecent { account_keys: Vec<String>, percentile: u64 },
}

/// Blocks the per-compute-unit estimate looks back over.
pub const QUIKNODE_LAST_N_BLOCKS: u64 = 100;

/// Percentile, in hundredths of a percent, of the recent-fees query.
pub const TRITON_PERCENTILE: u64 = 5000;

fn clone_strings(v: &Vec<String>) -> (r: Vec<String>)
    ensures
        r@ == v@,
{
    let mut r: Vec<String> = Vec::new();
    let mut i: usize = 0;
    while i < v.len()
        invariant
            0 <= i <= v@.len(),
            r@ == v@.subrange(0, i as int),
        decreases v@.len() - i,
    {
        let ghost prev = r@;
        r.push(v[i].clone());
        proof {
            assert(prev.push(v@[i as int]) =~= v@.subrange(0, i as int + 1));
        }
        i = i + 1;
    }
    proof {
        assert(v@.subrange(0, v@.len() as int) =~= v@);
    }
    r
}

/// Build the fee request of a provider family over the priority accounts:
/// the program id first, then the bus addresses. The single-account family
/// queries the first bus.
pub fn fee_request_body(provider: FeeProvider, accounts: &Vec<String>) -> (r: FeeRequestBody)
    requires
        accounts@.len() >= 2,
    ensures
        match provider {
            FeeProvider::Helius => r matches FeeRequestBody::HeliusEstimate {
                account_keys,
                recommended,
            } && account_keys@ == accounts@ && recommended,
            FeeProvider::Alchemy => r matches FeeRequestBody::AlchemyRecent { account_keys }
                && account_keys@ == accounts@,
            FeeProvider::Quiknode => r matches FeeRequestBody::QuiknodeEstimate {
                account,
                last_n_blocks,
            } && account == accounts@[1] && last_n_blocks == QUIKNODE_LAST_N_BLOCKS,
            FeeProvider::Triton => r matches FeeRequestBody::TritonRecent {
                account_keys,
                percentile,
            } && account_keys@ == accounts@ && percentile == TRITON_PERCENTILE,
        },
{
    match provider {
        FeeProvider::Helius => FeeRequestBody::HeliusEstimate {
            account_keys: clone_strings(accounts),
            recommended: true,
        },
        FeeProvider::Alchemy => FeeRequestBody::AlchemyRecent {
            account_keys: clone_strings(accounts),
        },
        FeeProvider::Quiknode => FeeRequestBody::QuiknodeEstimate {
            account: accounts[1].clone(),
            last_n_blocks: QUIKNODE_LAST_N_BLOCKS,
        },
        FeeProvider::Triton => FeeRequestBody::TritonRecent {
            account_keys: clone_strings(accounts),
            percentile: TRITON_PERCENTILE,
        },
    }
}

} // verus!
