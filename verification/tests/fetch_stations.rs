use serde_json::Value;
use ubike_setter::fetchbridge::{
    fetch_error_reply, fetch_ok_reply, fetch_reply, header_text, parse_fetch_request,
    reply_headers, truncate_body, HttpMethod, MAX_BODY_LEN,
};
use ubike_setter::interconnect::{config_pull_target, handle_interconnect, interconnect_envelope};
use ubike_setter::json::Json;
use ubike_setter::state::{AppState, Coord};
use ubike_setter::stations::{
    clean_station_name, count_value, raw_station, filter_stations, http_status_error, nearest_rows,
    reply_origin, stations_error_reply, stations_reply, NearbyRow, RawStation, StationFields,
    station_items, station_fields, search_list_error, list_error_reply, str_field, ListError,
};

fn from_value(v: &Value) -> Json {
    match v {
        Value::Null => Json::Null,
        Value::Bool(b) => Json::Bool(*b),
        Value::Number(n) => Json::Number(n.to_string()),
        Value::String(s) => Json::Str(s.clone()),
        Value::Array(a) => Json::Array(a.iter().map(from_value).collect()),
        Value::Object(m) => Json::Object(m.iter().map(|(k, v)| (k.clone(), from_value(v))).collect()),
    }
}

fn parse(text: &str) -> Json {
    from_value(&serde_json::from_str::<Value>(text).unwrap())
}

fn obj(pairs: Vec<(&str, Value)>) -> Value {
    let mut m = serde_json::Map::new();
    for (k, v) in pairs {
        m.insert(k.to_string(), v);
    }
    Value::Object(m)
}

#[test]
fn fetch_request_is_read_like_the_band_sends_it() {
    let req = parse(r#"{"tag":"fetch","id":7,"url":"https://x.test/a","options":{"method":"post","body":"{}","headers":{"Content-Type":"application/json","X-N":3,"X-B":true,"X-Null":null,"bad name":"v"}}}"#);
    let f = parse_fetch_request(&req).unwrap();
    assert_eq!(f.id, "7");
    assert_eq!(f.url, "https://x.test/a");
    assert_eq!(f.method, HttpMethod::Post);
    assert_eq!(f.body.as_deref(), Some("{}"));
    let names: Vec<(&str, &str)> = f.headers.iter().map(|(k, v)| (k.as_str(), v.as_str())).collect();
    assert_eq!(names, vec![("Content-Type", "application/json"), ("X-B", "true"), ("X-N", "3")]);
}

#[test]
fn fetch_request_defaults() {
    let f = parse_fetch_request(&parse(r#"{"id":"abc","url":"u","options":{"method":"teleport"}}"#)).unwrap();
    assert_eq!((f.id.as_str(), f.method, f.body.is_none(), f.headers.is_empty()), ("abc", HttpMethod::Get, true, true));
    let f = parse_fetch_request(&parse(r#"{"id":{"a":[1,"x"]},"url":"u"}"#)).unwrap();
    assert_eq!(f.id, r#"{"a":[1,"x"]}"#);
    assert_eq!(f.method, HttpMethod::Get);
    let f = parse_fetch_request(&parse(r#"{"url":"u","options":{"method":"options"}}"#)).unwrap();
    assert_eq!((f.id.as_str(), f.method), ("", HttpMethod::Options));
    assert!(parse_fetch_request(&parse(r#"{"id":1,"url":""}"#)).is_none());
    assert!(parse_fetch_request(&parse(r#"{"id":1}"#)).is_none());
    assert!(parse_fetch_request(&parse(r#"{"url":5}"#)).is_none());
}

#[test]
fn fetch_reply_has_the_bridge_shape() {
    let headers = vec![
        ("content-type".to_string(), b"text/plain".to_vec()),
        ("x-bin".to_string(), vec![0xff, 0x41]),
        ("set-cookie".to_string(), b"a=1".to_vec()),
        ("set-cookie".to_string(), b"b=2".to_vec()),
    ];
    let text = fetch_ok_reply("42", 201, &headers, &"héllo \"x\"".as_bytes().to_vec());
    let expected = obj(vec![
        ("tag", Value::from("fetch")),
        ("id", Value::from("42")),
        ("resp", obj(vec![
            ("ok", Value::from(true)),
            ("status", Value::from(201)),
            ("body", Value::from("héllo \"x\"")),
            ("headers", obj(vec![("content-type", Value::from("text/plain")), ("set-cookie", Value::from("b=2"))])),
        ])),
    ]);
    assert_eq!(text, serde_json::to_string(&expected).unwrap());
    let not_ok = fetch_reply("1", 404, &Vec::new(), "nope");
    assert!(not_ok.contains("\"ok\":false") && not_ok.contains("\"status\":404"));
}

#[test]
fn fetch_error_reply_has_the_bridge_shape() {
    let expected = obj(vec![
        ("tag", Value::from("fetch")),
        ("id", Value::from("9")),
        ("resp", obj(vec![
            ("ok", Value::from(false)),
            ("status", Value::from(0)),
            ("body", Value::from("connection refused")),
            ("headers", obj(Vec::new())),
        ])),
    ]);
    assert_eq!(fetch_error_reply("9", "connection refused"), serde_json::to_string(&expected).unwrap());
}

#[test]
fn invalid_utf8_body_is_decoded_lossily() {
    let text = fetch_ok_reply("i", 200, &Vec::new(), &vec![0x61, 0xff, 0x62]);
    assert!(text.contains("\"body\":\"a\u{fffd}b\""));
}

#[test]
fn long_bodies_are_cut_at_the_limit() {
    let short = "x".repeat(MAX_BODY_LEN);
    assert_eq!(truncate_body(&short).len(), MAX_BODY_LEN);
    let long = "x".repeat(MAX_BODY_LEN + 10);
    assert_eq!(truncate_body(&long), "x".repeat(MAX_BODY_LEN));
    let mixed = format!("{}é", "x".repeat(MAX_BODY_LEN - 2)) + "tail";
    assert_eq!(truncate_body(&mixed), format!("{}é", "x".repeat(MAX_BODY_LEN - 2)));
    let split = format!("{}é", "x".repeat(MAX_BODY_LEN - 1));
    assert_eq!(truncate_body(&split), "x".repeat(MAX_BODY_LEN - 1));
    let reply = fetch_ok_reply("big", 200, &Vec::new(), &split.clone().into_bytes());
    let v: Value = serde_json::from_str(&reply).unwrap();
    assert_eq!(v["resp"]["body"].as_str().unwrap(), "x".repeat(MAX_BODY_LEN - 1));
    assert_eq!(truncate_body("短い"), "短い");
}

#[test]
fn header_values_must_be_visible_ascii() {
    assert_eq!(header_text(&b"a\tb ~".to_vec()).as_deref(), Some("a\tb ~"));
    assert!(header_text(&vec![0x7f]).is_none());
    assert!(header_text(&"é".as_bytes().to_vec()).is_none());
    let es = reply_headers(&vec![("b".to_string(), b"1".to_vec()), ("a".to_string(), b"2".to_vec())]);
    assert_eq!(es.iter().map(|(k, _)| k.as_str()).collect::<Vec<_>>(), vec!["b", "a"]);
    let es = reply_headers(&vec![("x".to_string(), vec![0x80]), ("y".to_string(), b"ok".to_vec())]);
    assert_eq!(es.len(), 1);
}

fn station(name: &str, area: &str, lat: f64, lng: f64) -> StationFields {
    StationFields { name: name.into(), area: area.into(), lat: lat.to_bits(), lng: lng.to_bits() }
}

#[test]
fn station_search_filters_by_keyword_and_limit() {
    let list = vec![
        station("YouBike2.0_捷運市政府站(3號出口)", "信義區", 25.04, 121.56),
        station("YouBike1.0_Taipei City Hall", "Xinyi", 25.03, 121.56),
        station("YouBike2.0_無座標", "信義區", 0.0, 121.5),
        station("YouBike2.0_松山車站", "松山區", 25.05, 121.57),
    ];
    let hits = filter_stations(&list, "  信義 ", 10);
    assert_eq!(hits.len(), 1);
    assert_eq!(hits[0].0, "捷運市政府站(3號出口)");
    assert_eq!(hits[0].3, "信義區");
    let hits = filter_stations(&list, "CITY hall", 10);
    assert_eq!(hits.len(), 1);
    assert_eq!(hits[0].0, "Taipei City Hall");
    assert_eq!(f64::from_bits(hits[0].1), 25.03);
    assert_eq!(filter_stations(&list, "", 2).len(), 2);
    assert_eq!(filter_stations(&list, "", 0).len(), 0);
    assert_eq!(filter_stations(&list, "", 10).len(), 3);
    assert_eq!(clean_station_name("YouBike2.0_A YouBike1.0_B"), "A B");
}

fn raw(name: &str, d: f64, bikes: Option<Json>, docks: Option<Json>) -> RawStation {
    let mut es = vec![("sna".to_string(), Json::Str(name.into()))];
    if let Some(b) = bikes {
        es.push(("available_rent_bikes".into(), b));
    }
    if let Some(k) = docks {
        es.push(("available_return_bikes".into(), k));
    }
    raw_station(&Json::Object(es), 1.0f64.to_bits(), 2.0f64.to_bits(), d.to_bits(), (d * 1000.0).round() as i64)
}

#[test]
fn nearest_rows_are_sorted_and_cut_to_four() {
    let mut list = vec![
        raw("YouBike2.0_C", 0.5, Some(Json::Number("4".into())), Some(Json::Str("6".into()))),
        raw("A", 0.1, Some(Json::Number("2.0".into())), Some(Json::Str("x".into()))),
        raw("B", 0.3, None, Some(Json::Bool(true))),
        raw("D", 0.3, Some(Json::Number("-1".into())), None),
        raw("E", 0.9, None, None),
    ];
    list.push(RawStation { lat: 0, ..raw("Z", 0.0, None, None) });
    let rows = nearest_rows(&list, 4);
    let names: Vec<&str> = rows.iter().map(|r| r.name.as_str()).collect();
    assert_eq!(names, vec!["A", "B", "D", "C"]);
    assert_eq!((rows[0].bikes, rows[0].docks, rows[0].dist), (0, 0, 100));
    assert_eq!((rows[2].bikes, rows[3].bikes, rows[3].docks), (-1, 4, 6));
    assert_eq!(count_value(&Json::Object(vec![("n".into(), Json::Str("12".into()))]), "n"), 12);
}

#[test]
fn stations_reply_shapes() {
    let rows = vec![NearbyRow { name: "市府".into(), bikes: 3, docks: 7, dist: 120 }];
    let expected = obj(vec![
        ("tag", Value::from("stations")),
        ("scenario", Value::from(1)),
        ("stations", Value::Array(vec![obj(vec![("name", Value::from("市府")), ("bikes", Value::from(3)), ("docks", Value::from(7)), ("dist", Value::from(120))])])),
        ("source", Value::from("公司")),
    ]);
    assert_eq!(stations_reply(1, &rows), serde_json::to_string(&expected).unwrap());
    let err = obj(vec![("tag", Value::from("stations")), ("scenario", Value::from(2)), ("error", Value::from("not-configured"))]);
    assert_eq!(stations_error_reply(2, "not-configured"), serde_json::to_string(&err).unwrap());
    assert_eq!(http_status_error(503), "HTTP 503");
    let mut st = AppState::new();
    assert!(reply_origin(&st, 0).is_none());
    st.config.coords[0] = Some(Coord { lat: 5, lng: 6, label: "家".into() });
    assert_eq!(reply_origin(&st, 0).unwrap().label, "家");
}

#[test]
fn config_pull_is_recognised() {
    let payload = r#"{"payloadText":"{\"tag\":\"cfg-pull\"}","addr":"AA:BB"}"#;
    let outer = parse(payload);
    let (text, addr) = interconnect_envelope(payload, &outer);
    assert_eq!((text.as_str(), addr.as_str()), (r#"{"tag":"cfg-pull"}"#, "AA:BB"));
    assert_eq!(config_pull_target(&parse(&text), addr).as_deref(), Some("AA:BB"));
    let bare = r#"{"tag":"cfg-pull"}"#;
    let (text, addr) = interconnect_envelope(bare, &parse(bare));
    assert_eq!((text.as_str(), addr.as_str()), (bare, ""));
    assert_eq!(config_pull_target(&parse(&text), addr).as_deref(), Some(""));
    assert!(config_pull_target(&parse(r#"{"tag":"stations"}"#), "x".into()).is_none());
}

#[test]
fn interconnect_messages_are_read_from_text() {
    let payload = r#"{"payloadText":"{\"tag\":\"cfg-pull\"}","addr":"AA:BB"}"#;
    assert_eq!(handle_interconnect(payload).as_deref(), Some("AA:BB"));
    assert_eq!(handle_interconnect(r#"{"tag":"cfg-pull"}"#).as_deref(), Some(""));
    assert!(handle_interconnect(r#"{"tag":"stations"}"#).is_none());
    assert!(handle_interconnect("not json").is_none());
    assert!(handle_interconnect(r#"{"payloadText":"{broken","addr":"A"}"#).is_none());
    assert_eq!(handle_interconnect(r#"{"payloadText":"{\"tag\":\"cfg-pull\"}","addr":7}"#).as_deref(), Some(""));
}

#[test]
fn station_list_is_read_from_bytes() {
    let items = match station_items(r#"[{"sna":"YouBike2.0_A","sarea":"信義區","latitude":"25.1"},3]"#.as_bytes()) {
        Ok(items) => items,
        Err(_) => panic!("expected a list"),
    };
    assert_eq!(items.len(), 2);
    assert_eq!(str_field(&items[0], "sna"), "YouBike2.0_A");
    assert_eq!(str_field(&items[1], "sna"), "");
    let f = station_fields(&items[0], 1, 2);
    assert_eq!((f.name.as_str(), f.area.as_str(), f.lat, f.lng), ("YouBike2.0_A", "信義區", 1, 2));
    let bad = station_items(b"{oops").err().unwrap();
    let expected = serde_json::from_slice::<Value>(b"{oops").unwrap_err().to_string();
    assert_eq!(search_list_error(&bad), format!("json failed: {expected}"));
    assert!(list_error_reply(1, &bad).contains("\"error\":\"bad-json\""));
    let shape = station_items(br#"{"a":1}"#).err().unwrap();
    assert!(matches!(shape, ListError::BadShape));
    assert_eq!(search_list_error(&shape), "unexpected shape");
    let err = obj(vec![("tag", Value::from("stations")), ("scenario", Value::from(0)), ("error", Value::from("bad-shape"))]);
    assert_eq!(list_error_reply(0, &shape), serde_json::to_string(&err).unwrap());
}

#[test]
fn keyword_case_and_spaces_do_not_matter() {
    let list = vec![
        station("YouBike2.0_City Hall", "Xinyi", 25.0, 121.0),
        station("Taipei Main", "Zhongzheng", 25.1, 121.1),
        station("city park", "Da'an", 25.2, 121.2),
    ];
    for k in ["city", "Hall", " main", "x"] {
        let padded = format!("  {} ", k.to_ascii_uppercase());
        assert_eq!(filter_stations(&list, k, 5), filter_stations(&list, &padded, 5));
    }
    assert_eq!(filter_stations(&list, "CITY", 5).len(), 2);
}
