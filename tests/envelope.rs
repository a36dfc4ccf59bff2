use bybit_rest::{cancel_all_orders_outcome, position_list_result, BybitError, Json, Position};

fn s(v: &str) -> Json {
    Json::Str(v.to_string())
}

fn obj(members: Vec<(&str, Json)>) -> Json {
    Json::Object(members.into_iter().map(|(k, v)| (k.to_string(), v)).collect())
}

fn envelope(code: i64, msg: &str, result: Json) -> Json {
    obj(vec![("retCode", Json::Int(code)), ("retMsg", s(msg)), ("result", result)])
}

fn record(symbol: &str, size: &str, side: &str) -> Json {
    obj(vec![("symbol", s(symbol)), ("size", s(size)), ("side", s(side))])
}

#[test]
fn one_position_scenario() {
    let body = envelope(0, "", obj(vec![("list", Json::Array(vec![record("BTCUSDT", "1.5", "Buy")]))]));
    let ps = position_list_result(&body).unwrap();
    assert_eq!(ps.len(), 1);
    assert_eq!(ps[0].symbol, "BTCUSDT");
    assert_eq!(ps[0].size, "1.5");
    assert_eq!(ps[0].side, "Buy");
    assert_eq!(ps[0].avg_price, "");
}

#[test]
fn invalid_signature_scenario() {
    let body = envelope(10001, "invalid signature", obj(vec![]));
    match position_list_result(&body) {
        Err(BybitError::Exchange(m)) => assert_eq!(m, "invalid signature"),
        other => panic!("unexpected {other:?}"),
    }
}

#[test]
fn cancel_all_success_scenario() {
    let body = envelope(0, "", obj(vec![("success", s("1"))]));
    assert!(cancel_all_orders_outcome(&body).is_ok());
}

#[test]
fn cancel_all_failure_scenario() {
    let body = envelope(0, "", obj(vec![("success", s("0"))]));
    match cancel_all_orders_outcome(&body) {
        Err(e) => {
            assert!(matches!(e, BybitError::Exchange(_)));
            assert_eq!(e.message(), "");
        }
        Ok(()) => panic!("an unsuccessful cancel must fail"),
    }
}

#[test]
fn cancel_all_other_flags_fail_with_message() {
    for result in [
        obj(vec![("success", s(""))]),
        obj(vec![]),
        obj(vec![("success", Json::Int(1))]),
        Json::Null,
    ] {
        let body = envelope(0, "not done", result);
        match cancel_all_orders_outcome(&body) {
            Err(BybitError::Exchange(m)) => assert_eq!(m, "not done"),
            other => panic!("unexpected {other:?}"),
        }
    }
}

#[test]
fn cancel_all_ignores_status_code() {
    let body = envelope(10001, "whatever", obj(vec![("success", s("1"))]));
    assert!(cancel_all_orders_outcome(&body).is_ok());
}

#[test]
fn positions_keep_their_order() {
    let list = Json::Array(vec![
        record("BTCUSDT", "1", "Buy"),
        obj(vec![
            ("symbol", s("ETHUSDT")),
            ("side", s("Sell")),
            ("size", s("2")),
            ("avgPrice", s("3000")),
            ("markPrice", s("3010")),
            ("unrealisedPnl", s("-20")),
        ]),
        record("SOLUSDT", "3", "Buy"),
    ]);
    let ps: Vec<Position> = position_list_result(&envelope(0, "OK", obj(vec![("list", list)]))).unwrap();
    let symbols: Vec<&str> = ps.iter().map(|p| p.symbol.as_str()).collect();
    assert_eq!(symbols, vec!["BTCUSDT", "ETHUSDT", "SOLUSDT"]);
    assert_eq!(ps[1].avg_price, "3000");
    assert_eq!(ps[1].mark_price, "3010");
    assert_eq!(ps[1].unrealised_pnl, "-20");
}

#[test]
fn empty_position_list() {
    let body = envelope(0, "", obj(vec![("list", Json::Array(vec![]))]));
    assert!(position_list_result(&body).unwrap().is_empty());
}

#[test]
fn nonzero_code_ignores_malformed_result() {
    for result in [Json::Null, s("garbage"), obj(vec![("list", Json::Int(3))])] {
        let body = envelope(110001, "order not exists", result);
        match position_list_result(&body) {
            Err(BybitError::Exchange(m)) => assert_eq!(m, "order not exists"),
            other => panic!("unexpected {other:?}"),
        }
    }
}

#[test]
fn malformed_envelope_is_transport_error() {
    let no_code = obj(vec![("retMsg", s("x")), ("result", obj(vec![]))]);
    let text_code = obj(vec![("retCode", s("0")), ("retMsg", s("x"))]);
    for body in [no_code, text_code, Json::Array(vec![])] {
        match position_list_result(&body) {
            Err(BybitError::Transport(m)) => assert_eq!(m, "malformed response envelope"),
            other => panic!("unexpected {other:?}"),
        }
        match cancel_all_orders_outcome(&body) {
            Err(e) => assert_eq!(e.message(), "malformed response envelope"),
            Ok(()) => panic!("malformed envelope accepted"),
        }
    }
}

#[test]
fn malformed_list_is_transport_error() {
    let bad_record = obj(vec![("symbol", s("BTCUSDT")), ("side", s("Buy"))]);
    let wrong_type = obj(vec![("symbol", s("BTCUSDT")), ("side", s("Buy")), ("size", Json::Int(1))]);
    let bad_optional = obj(vec![
        ("symbol", s("BTCUSDT")),
        ("side", s("Buy")),
        ("size", s("1")),
        ("avgPrice", Json::Int(1)),
    ]);
    for result in [
        obj(vec![]),
        obj(vec![("list", obj(vec![]))]),
        obj(vec![("list", Json::Array(vec![record("A", "1", "Buy"), bad_record]))]),
        obj(vec![("list", Json::Array(vec![wrong_type]))]),
        obj(vec![("list", Json::Array(vec![bad_optional]))]),
    ] {
        match position_list_result(&envelope(0, "", result)) {
            Err(BybitError::Transport(m)) => assert_eq!(m, "malformed position list"),
            other => panic!("unexpected {other:?}"),
        }
    }
}

#[test]
fn first_of_repeated_members_counts() {
    let body = obj(vec![
        ("retCode", Json::Int(0)),
        ("retCode", Json::Int(5)),
        ("retMsg", s("m")),
        ("result", obj(vec![("success", s("1")), ("success", s("0"))])),
    ]);
    assert!(cancel_all_orders_outcome(&body).is_ok());
    assert!(matches!(position_list_result(&body), Err(BybitError::Transport(_))));
}

#[test]
fn position_from_record() {
    let p = Position::from_json(&record("BTCUSDT", "1.5", "Buy")).unwrap();
    assert_eq!(p.symbol, "BTCUSDT");
    assert!(Position::from_json(&Json::Null).is_none());
    assert!(Position::from_json(&Json::Bool(true)).is_none());
    assert!(Position::from_json(&Json::Number("1.5".to_string())).is_none());
}
