use binance_proxy::handler::{classify_outcome, prepare_target, respond, FetchOutcome};
use binance_proxy::query::{filter_params, path_param};
use binance_proxy::target::{build_target, starts_with_fapi, target_base_string};
use binance_proxy::text::u16_to_string;

fn pairs(ps: &[(&str, &str)]) -> Vec<(String, String)> {
    ps.iter().map(|(k, v)| (k.to_string(), v.to_string())).collect()
}

#[test]
fn spot_target_with_one_parameter() {
    let params = pairs(&[("path", "ticker/price"), ("symbol", "BTCUSDT")]);
    let target = prepare_target(&params).unwrap();
    assert_eq!(target, "https://api.binance.com/ticker/price?symbol=BTCUSDT");
}

#[test]
fn futures_target_without_query() {
    let params = pairs(&[("path", "fapi/v1/time")]);
    let target = prepare_target(&params).unwrap();
    assert_eq!(target, "https://fapi.binance.com/fapi/v1/time");
    let parsed = url::Url::parse(&target).unwrap();
    assert_eq!(parsed.query(), None);
}

#[test]
fn origin_follows_path_prefix() {
    for (path, host) in [
        ("ticker/price", "api.binance.com"),
        ("", "api.binance.com"),
        ("api/v3/time", "api.binance.com"),
        ("fapi/v1/time", "fapi.binance.com"),
        ("fapiextra", "fapi.binance.com"),
        ("fap", "api.binance.com"),
    ] {
        let params = pairs(&[("path", path)]);
        let target = prepare_target(&params).unwrap();
        let parsed = url::Url::parse(&target).unwrap();
        assert_eq!(parsed.host_str(), Some(host), "path {:?}", path);
        assert_eq!(parsed.scheme(), "https");
        assert!(starts_with_fapi(path) == (host == "fapi.binance.com"));
    }
}

#[test]
fn query_round_trip_keeps_all_pairs_but_path() {
    let params = pairs(&[
        ("path", "api/v3/klines"),
        ("a b", "c&d=e"),
        ("sym", "BTC USDT"),
        ("a b", "x+y"),
    ]);
    let target = prepare_target(&params).unwrap();
    let parsed = url::Url::parse(&target).unwrap();
    let decoded: Vec<(String, String)> = parsed.query_pairs().into_owned().collect();
    let expected = pairs(&[("a b", "c&d=e"), ("sym", "BTC USDT"), ("a b", "x+y")]);
    assert_eq!(decoded, expected);
    assert!(!target.contains("path=api"));
}

#[test]
fn missing_path_parameter_defaults_to_empty() {
    let params = pairs(&[("symbol", "BTCUSDT")]);
    assert_eq!(path_param(&params), "");
    let target = prepare_target(&params).unwrap();
    assert_eq!(target, "https://api.binance.com/?symbol=BTCUSDT");
}

#[test]
fn no_parameters_at_all() {
    let params: Vec<(String, String)> = Vec::new();
    let target = prepare_target(&params).unwrap();
    assert_eq!(target, "https://api.binance.com/");
}

#[test]
fn path_param_takes_first_occurrence() {
    let params = pairs(&[("x", "1"), ("path", "first"), ("path", "second")]);
    assert_eq!(path_param(&params), "first");
}

#[test]
fn filter_drops_every_path_pair_and_keeps_order() {
    let params = pairs(&[("path", "p"), ("b", "2"), ("path", "q"), ("a", "1"), ("b", "3")]);
    let kept = filter_params(&params);
    assert_eq!(kept, pairs(&[("b", "2"), ("a", "1"), ("b", "3")]));
}

#[test]
fn target_base_concatenates_raw_path() {
    assert_eq!(
        target_base_string("ticker/price"),
        "https://api.binance.com/ticker/price"
    );
    assert_eq!(
        target_base_string("fapi/v1/time"),
        "https://fapi.binance.com/fapi/v1/time"
    );
}

#[test]
fn raw_path_is_percent_encoded_not_rejected() {
    let params = pairs(&[("path", "a b")]);
    let target = prepare_target(&params).unwrap();
    assert_eq!(target, "https://api.binance.com/a%20b");
}

#[test]
fn build_target_encodes_query_values() {
    let params = pairs(&[("path", "x"), ("q", "a b")]);
    let target = build_target(&params).unwrap();
    assert_eq!(target, "https://api.binance.com/x?q=a+b");
}

#[test]
fn upstream_404_becomes_500_citing_status() {
    let outcome = FetchOutcome::Upstream {
        status: 404,
        body: Ok("not found".to_string()),
    };
    let response = respond("https://api.binance.com/x".to_string(), outcome);
    assert_eq!(response.status, 500);
    assert_eq!(
        response.body,
        "Error occurred: Request failed: Status=404 Body=not found. \
         Final URL: https://api.binance.com/x"
    );
    assert_eq!(response.final_url.as_deref(), Some("https://api.binance.com/x"));
}

#[test]
fn transport_failure_becomes_500_with_transport_text() {
    let outcome = FetchOutcome::Transport("operation timed out".to_string());
    let response = respond("https://api.binance.com/x".to_string(), outcome);
    assert_eq!(response.status, 500);
    assert_eq!(
        response.body,
        "Error occurred: Error occurred while requesting Binance API: operation timed out. \
         Final URL: https://api.binance.com/x"
    );
}

#[test]
fn readable_success_passes_body_verbatim() {
    let outcome = FetchOutcome::Upstream {
        status: 200,
        body: Ok("{\"price\":\"1\"}".to_string()),
    };
    let response = respond("https://api.binance.com/x".to_string(), outcome);
    assert_eq!(response.status, 200);
    assert_eq!(response.body, "{\"price\":\"1\"}");
    assert_eq!(response.final_url.as_deref(), Some("https://api.binance.com/x"));
}

#[test]
fn read_failure_after_success_status_becomes_500() {
    let outcome = FetchOutcome::Upstream {
        status: 204,
        body: Err("unexpected end of stream".to_string()),
    };
    let response = respond("u".to_string(), outcome);
    assert_eq!(response.status, 500);
    assert_eq!(
        response.body,
        "Error occurred: Failed to read response body: unexpected end of stream. Final URL: u"
    );
}

#[test]
fn unreadable_error_body_uses_placeholder() {
    let outcome = FetchOutcome::Upstream {
        status: 503,
        body: Err("broken pipe".to_string()),
    };
    let result = classify_outcome(outcome);
    assert_eq!(result, Err("Request failed: Status=503 Body=Unknown error".to_string()));
}

#[test]
fn status_boundaries_of_success() {
    for (status, ok) in [(199u16, false), (200, true), (299, true), (300, false)] {
        let outcome = FetchOutcome::Upstream {
            status,
            body: Ok("b".to_string()),
        };
        let response = respond("u".to_string(), outcome);
        assert_eq!(response.status == 200, ok, "status {}", status);
    }
}

#[test]
fn decimal_rendering_of_status_codes() {
    assert_eq!(u16_to_string(0), "0");
    assert_eq!(u16_to_string(7), "7");
    assert_eq!(u16_to_string(30), "30");
    assert_eq!(u16_to_string(404), "404");
    assert_eq!(u16_to_string(65535), "65535");
}
