use ore_miner::errors::FeeError;
use ore_miner::fee::{
    clamp_fee, detect_provider, estimate_prioritization_fee_micro_lamports, fee_request_body,
    get_recent_priority_fee_estimate, parse_fee_response, select_provider, FeeProvider,
    FeeRequestBody, RpcPrioritizationFee,
};
use ore_miner::json::JsonValue;

fn obj(fields: Vec<(&str, JsonValue)>) -> JsonValue {
    JsonValue::Obj(fields.into_iter().map(|(k, v)| (k.to_string(), v)).collect())
}

fn helius_response(fee: u64) -> JsonValue {
    obj(vec![("result", obj(vec![("priorityFeeEstimate", JsonValue::Num(fee))]))])
}

#[test]
fn helius_shape_passes_through() {
    let v = helius_response(1234);
    assert_eq!(parse_fee_response(FeeProvider::Helius, &v), Ok(1234));
}

#[test]
fn estimate_returns_parsed_fee_clamped() {
    let v = helius_response(1234);
    let url = "https://mainnet.helius-rpc.com/?api-key=0000";
    assert_eq!(
        get_recent_priority_fee_estimate(url, Some(&v), 5000, 1_000_000),
        Ok(1234)
    );
    // A cap below the parsed fee wins.
    assert_eq!(get_recent_priority_fee_estimate(url, Some(&v), 5000, 1000), Ok(1000));
}

#[test]
fn clamp_is_minimum() {
    assert_eq!(clamp_fee(10, 20), 10);
    assert_eq!(clamp_fee(20, 10), 10);
    assert_eq!(clamp_fee(10, 10), 10);
    assert_eq!(clamp_fee(0, 0), 0);
    assert_eq!(clamp_fee(u64::MAX, 7), 7);
}

#[test]
fn unsupported_host_is_an_error() {
    assert_eq!(
        select_provider("https://example.com/rpc"),
        Err(FeeError::UnsupportedProvider)
    );
    assert_eq!(
        get_recent_priority_fee_estimate("https://example.com/rpc", None, 5000, 1_000_000),
        Err(FeeError::UnsupportedProvider)
    );
}

#[test]
fn provider_marker_in_path_does_not_count() {
    // The marker sits in the path, not the host: the URL is unsupported.
    assert_eq!(
        select_provider("https://example.com/helius-rpc.com"),
        Err(FeeError::UnsupportedProvider)
    );
}

#[test]
fn bad_url_is_unsupported() {
    assert_eq!(select_provider("not a url"), Err(FeeError::UnsupportedProvider));
}

#[test]
fn each_provider_family_is_detected() {
    assert_eq!(
        select_provider("https://mainnet.helius-rpc.com/?api-key=0000"),
        Ok(FeeProvider::Helius)
    );
    assert_eq!(
        select_provider("https://solana-mainnet.g.alchemy.com/v2/demo"),
        Ok(FeeProvider::Alchemy)
    );
    assert_eq!(
        select_provider("https://neat-name.solana-mainnet.quiknode.pro/0000/"),
        Ok(FeeProvider::Quiknode)
    );
    assert_eq!(
        select_provider("https://ore.rpcpool.com/"),
        Ok(FeeProvider::Triton)
    );
    assert_eq!(detect_provider(b"mainnet.helius-rpc.com"), Some(FeeProvider::Helius));
    assert_eq!(detect_provider(b"nothing.example.org"), None);
}

#[test]
fn transport_failure_falls_back_to_last_known_fee() {
    let url = "https://mainnet.helius-rpc.com/?api-key=0000";
    assert_eq!(get_recent_priority_fee_estimate(url, None, 4321, 1_000_000), Ok(4321));
}

#[test]
fn missing_field_is_a_parse_failure() {
    let v = obj(vec![("result", obj(vec![]))]);
    assert_eq!(
        parse_fee_response(FeeProvider::Helius, &v),
        Err(FeeError::ParseFailed)
    );
    let v2 = obj(vec![]);
    assert_eq!(
        parse_fee_response(FeeProvider::Quiknode, &v2),
        Err(FeeError::ParseFailed)
    );
}

#[test]
fn quiknode_path_is_read() {
    let v = obj(vec![(
        "result",
        obj(vec![("per_compute_unit", obj(vec![("medium", JsonValue::Num(777))]))]),
    )]);
    assert_eq!(parse_fee_response(FeeProvider::Quiknode, &v), Ok(777));
}

fn alchemy_response(fees: &[u64]) -> JsonValue {
    let items = fees
        .iter()
        .map(|f| obj(vec![("prioritizationFee", JsonValue::Num(*f))]))
        .collect::<Vec<_>>();
    obj(vec![("result", JsonValue::Arr(items))])
}

#[test]
fn alchemy_mean_is_inflated() {
    // Mean of 100 and 200 is 150; inflated by one fifth: 180.
    let v = alchemy_response(&[100, 200]);
    assert_eq!(parse_fee_response(FeeProvider::Alchemy, &v), Ok(180));
    // Mean of 100 and 101 rounds up to 101; inflated: 121.
    let v2 = alchemy_response(&[100, 101]);
    assert_eq!(parse_fee_response(FeeProvider::Alchemy, &v2), Ok(121));
}

#[test]
fn alchemy_discards_oldest_beyond_twenty() {
    // Twenty-one samples, the oldest expensive: only the twenty most recent
    // enter the mean, so the expensive one is discarded and the mean is 0.
    let mut fees = vec![2100u64];
    fees.extend(std::iter::repeat(0u64).take(20));
    let v = alchemy_response(&fees);
    assert_eq!(parse_fee_response(FeeProvider::Alchemy, &v), Ok(0));
    // Twenty-five samples: the last twenty average 50; inflated: 60.
    let mut fees2 = vec![9_999u64; 5];
    fees2.extend(std::iter::repeat(50u64).take(20));
    let v2 = alchemy_response(&fees2);
    assert_eq!(parse_fee_response(FeeProvider::Alchemy, &v2), Ok(60));
}

#[test]
fn alchemy_empty_list_is_a_parse_failure() {
    let v = alchemy_response(&[]);
    assert_eq!(
        parse_fee_response(FeeProvider::Alchemy, &v),
        Err(FeeError::ParseFailed)
    );
}

#[test]
fn alchemy_element_without_fee_is_a_parse_failure() {
    let items = vec![obj(vec![("somethingElse", JsonValue::Num(5))])];
    let v = obj(vec![("result", JsonValue::Arr(items))]);
    assert_eq!(
        parse_fee_response(FeeProvider::Alchemy, &v),
        Err(FeeError::ParseFailed)
    );
}

fn triton_response(fees: &[u64]) -> JsonValue {
    let items = fees
        .iter()
        .enumerate()
        .map(|(i, f)| {
            obj(vec![
                ("slot", JsonValue::Num(i as u64)),
                ("prioritization_fee", JsonValue::Num(*f)),
            ])
        })
        .collect::<Vec<_>>();
    obj(vec![("result", JsonValue::Arr(items))])
}

#[test]
fn triton_mean_over_recent_samples() {
    // Twenty samples 1..=20: the mean is 210 / 20 = 10.
    let fees: Vec<u64> = (1..=20).collect();
    let v = triton_response(&fees);
    assert_eq!(parse_fee_response(FeeProvider::Triton, &v), Ok(10));
}

#[test]
fn triton_discards_oldest_beyond_twenty() {
    // Five old expensive samples are discarded; the last twenty average 10.
    let mut fees = vec![1000u64; 5];
    fees.extend(std::iter::repeat(10u64).take(20));
    let v = triton_response(&fees);
    assert_eq!(parse_fee_response(FeeProvider::Triton, &v), Ok(10));
}

#[test]
fn triton_empty_list_is_a_parse_failure() {
    let v = triton_response(&[]);
    assert_eq!(
        parse_fee_response(FeeProvider::Triton, &v),
        Err(FeeError::ParseFailed)
    );
}

#[test]
fn estimate_prioritization_fee_is_the_sample_mean() {
    let samples = vec![
        RpcPrioritizationFee { slot: 1, prioritization_fee: 4 },
        RpcPrioritizationFee { slot: 2, prioritization_fee: 8 },
    ];
    assert_eq!(estimate_prioritization_fee_micro_lamports(samples), 6);
}

#[test]
fn request_bodies_follow_the_provider_shape() {
    let accounts: Vec<String> = vec!["prog".to_string(), "bus0".to_string(), "bus1".to_string()];
    match fee_request_body(FeeProvider::Helius, &accounts) {
        FeeRequestBody::HeliusEstimate { account_keys, recommended } => {
            assert_eq!(account_keys, accounts);
            assert!(recommended);
        }
        _ => panic!("wrong shape"),
    }
    match fee_request_body(FeeProvider::Alchemy, &accounts) {
        FeeRequestBody::AlchemyRecent { account_keys } => assert_eq!(account_keys, accounts),
        _ => panic!("wrong shape"),
    }
    match fee_request_body(FeeProvider::Quiknode, &accounts) {
        FeeRequestBody::QuiknodeEstimate { account, last_n_blocks } => {
            assert_eq!(account, "bus0");
            assert_eq!(last_n_blocks, 100);
        }
        _ => panic!("wrong shape"),
    }
    match fee_request_body(FeeProvider::Triton, &accounts) {
        FeeRequestBody::TritonRecent { account_keys, percentile } => {
            assert_eq!(account_keys, accounts);
            assert_eq!(percentile, 5000);
        }
        _ => panic!("wrong shape"),
    }
}

#[test]
fn object_lookup_takes_the_first_binding() {
    let v = JsonValue::Obj(vec![
        ("k".to_string(), JsonValue::Num(1)),
        ("k".to_string(), JsonValue::Num(2)),
    ]);
    match v.get(&"k".to_string()) {
        Some(JsonValue::Num(n)) => assert_eq!(*n, 1),
        _ => panic!("expected the first binding"),
    }
    assert!(v.get(&"missing".to_string()).is_none());
    assert!(JsonValue::Null.get(&"k".to_string()).is_none());
}
