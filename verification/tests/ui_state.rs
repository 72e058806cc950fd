use ubike_setter::element::{Element, ElementKind, ElementOp, UiEvent};
use ubike_setter::json::Json;
use ubike_setter::state::{
    config_message, ensure_registered, load, make_loc_key, push_config_to, refresh_devices,
    set_notice, AppState,
    Config, Coord,
};
use ubike_setter::stations::NearbyRow;
use ubike_setter::ui::{
    build_ui, classify_click, extract_input_value, input_value_from, finish_gps_pull, finish_locate, finish_pick,
    finish_refresh_devices, finish_search, gps_pull_key, handle_ui_event, render_root, rerender,
    set_location_state, ClickAction, CoordText, UiCommand,
};

fn texts() -> CoordText {
    CoordText {
        saved: [String::new(), "25.0330, 121.5654".to_string(), String::new()],
        fix: "25.0478, 121.5170".to_string(),
    }
}

fn children(e: &Element) -> Vec<&Element> {
    e.ops
        .iter()
        .filter_map(|op| match op {
            ElementOp::Child(c) => Some(c),
            _ => None,
        })
        .collect()
}

fn click_ids(e: &Element) -> Vec<String> {
    e.ops
        .iter()
        .filter_map(|op| match op {
            ElementOp::On(UiEvent::Click, id) => Some(id.clone()),
            _ => None,
        })
        .collect()
}

fn notice(st: &AppState) -> &str {
    st.notice.as_deref().unwrap_or("")
}

#[test]
fn fresh_state_renders_full_page() {
    let st = AppState::new();
    let ui = build_ui(&st, &texts());
    let kids = children(&ui);
    // title, bridge line, device row, tabs, saved places, search row, results,
    // actions, hint, trigger box (no notice yet)
    assert_eq!(kids.len(), 10);
    assert_eq!(kids[0].text.as_deref(), Some("Ubike助手 設定 v0.1.0"));
    let device_row = children(kids[2]);
    assert_eq!(device_row[0].text.as_deref(), Some("未偵測到已連線手環"));
    let tabs = children(kids[3]);
    assert_eq!(tabs.len(), 4);
    assert_eq!(click_ids(tabs[3]), vec!["tab3".to_string()]);
    let saved = children(kids[4]);
    assert_eq!(saved[0].text.as_deref(), Some("住家：未設定"));
    assert_eq!(saved[2].text.as_deref(), Some("車站：未設定"));
    assert_eq!(kids[5].kind, ElementKind::Div);
    assert_eq!(children(kids[5])[0].kind, ElementKind::Input);
}

#[test]
fn page_shows_devices_saved_places_results_and_notice() {
    let mut st = AppState::new();
    st.devices = vec![("aa:bb".into(), "Band 9".into()), ("cc:dd".into(), "Watch".into())];
    st.config.coords[0] = Some(Coord { lat: 1, lng: 2, label: "市政府".into() });
    st.config.coords[1] = Some(Coord { lat: 1, lng: 2, label: String::new() });
    st.results = vec![("台北車站".into(), 0, 0), ("市政府站".into(), 0, 0)];
    set_notice(&mut st, "hello".into());
    let ui = build_ui(&st, &texts());
    let kids = children(&ui);
    assert_eq!(kids.len(), 11);
    assert_eq!(children(kids[2])[0].text.as_deref(), Some("已連線：Band 9、Watch"));
    let saved = children(kids[4]);
    assert_eq!(saved[0].text.as_deref(), Some("住家：市政府"));
    assert_eq!(saved[1].text.as_deref(), Some("公司：25.0330, 121.5654"));
    assert_eq!(kids[6].text.as_deref(), Some("hello"));
    let results = children(kids[7]);
    assert_eq!(results.len(), 2);
    assert_eq!(click_ids(results[1]), vec!["pick_1".to_string()]);
}

#[test]
fn nearby_tab_shows_locate_block_and_hides_results() {
    let mut st = AppState::new();
    st.results = vec![("x".into(), 0, 0)];
    let r = handle_ui_event(&mut st, "tab3", UiEvent::Click, "");
    assert!(matches!(r, UiCommand::Render));
    assert_eq!(st.selected_scenario, 3);
    st.last_fix = Some((1, 2));
    let ui = build_ui(&st, &texts());
    let kids = children(&ui);
    let block = children(kids[5]);
    assert_eq!(block[1].text.as_deref(), Some("最近定位：25.0478, 121.5170"));
    assert_eq!(children(kids[6]).len(), 0);
    let actions = children(kids[7]);
    assert_eq!(actions[1].text.as_deref(), Some("（附近頁無需清除）"));
}

#[test]
fn clicks_are_classified_by_id() {
    assert!(matches!(classify_click("tab2"), ClickAction::Tab(2)));
    assert!(matches!(classify_click("pick_12"), ClickAction::Pick(12)));
    assert!(matches!(classify_click("pick_+3"), ClickAction::Pick(3)));
    assert!(matches!(classify_click("pick_x"), ClickAction::Ignore));
    assert!(matches!(classify_click("pick_"), ClickAction::Ignore));
    assert!(matches!(classify_click("locate_me"), ClickAction::Locate));
    assert!(matches!(classify_click("unknown"), ClickAction::Ignore));
}

#[test]
fn search_needs_a_query() {
    let mut st = AppState::new();
    st.query = "  ".into();
    let r = handle_ui_event(&mut st, "do_search", UiEvent::Click, "");
    assert!(matches!(r, UiCommand::Render));
    assert_eq!(notice(&st), "請輸入地點，例如：市政府、台北車站、公司地址");
    st.query = "台北車站".into();
    match handle_ui_event(&mut st, "do_search", UiEvent::Click, "") {
        UiCommand::Search { query } => assert_eq!(query, "台北車站"),
        _ => panic!("expected a search"),
    }
    assert_eq!(notice(&st), "搜尋地點中…");
}

#[test]
fn search_outcomes_set_notice() {
    let mut st = AppState::new();
    finish_search(&mut st, Ok((vec![("A".into(), 1, 2)], Some("市府路".into()))));
    assert_eq!(st.results.len(), 1);
    assert_eq!(notice(&st), "原地址查無，已用「市府路」找到 1 個結果，點選即設定");
    finish_search(&mut st, Ok((vec![("A".into(), 1, 2), ("B".into(), 3, 4)], None)));
    assert_eq!(notice(&st), "找到 2 個地點，點選即設定並推送");
    finish_search(&mut st, Ok((Vec::new(), None)));
    assert_eq!(notice(&st), "找不到這個地點；完整地址可試著只留到「號」或用路口／地標");
    finish_search(&mut st, Err("timeout".into()));
    assert_eq!(notice(&st), "搜尋失敗：timeout");
}

#[test]
fn pick_stores_place_for_selected_scenario() {
    let mut st = AppState::new();
    st.selected_scenario = 1;
    st.results = vec![("台北車站".into(), 10, 20), ("市政府".into(), 30, 40)];
    match handle_ui_event(&mut st, "pick_1", UiEvent::Click, "") {
        UiCommand::Picked { scenario, name, lat, lng } => {
            assert_eq!((scenario, name.as_str(), lat, lng), (1, "市政府", 30, 40));
        }
        _ => panic!("expected a pick"),
    }
    let c = st.config.coords[1].as_ref().unwrap();
    assert_eq!((c.lat, c.lng, c.label.as_str()), (30, 40, "市政府"));
    assert!(st.config.coords[0].is_none() && st.config.coords[2].is_none());
    assert!(st.results.is_empty());
    let rows = vec![
        NearbyRow { name: "A站".into(), bikes: 3, docks: 5, dist: 120 },
        NearbyRow { name: "B站".into(), bikes: 0, docks: -1, dist: 480 },
    ];
    finish_pick(&mut st, 1, "市政府", &rows);
    assert_eq!(st.preview, "A站（可借3 可還5・120m）；B站（可借0 可還-1・480m）");
    assert_eq!(notice(&st), "公司已設為「市政府」，已推送。附近站點：A站（可借3 可還5・120m）；B站（可借0 可還-1・480m）");
    finish_pick(&mut st, 0, "X", &Vec::new());
    assert_eq!(notice(&st), "住家已設為「X」，已推送。附近站點：（讀取中）");
}

#[test]
fn pick_ignored_on_nearby_page_or_out_of_range() {
    let mut st = AppState::new();
    st.results = vec![("A".into(), 1, 2)];
    assert!(matches!(handle_ui_event(&mut st, "pick_5", UiEvent::Click, ""), UiCommand::Nothing));
    st.selected_scenario = 3;
    assert!(matches!(handle_ui_event(&mut st, "pick_0", UiEvent::Click, ""), UiCommand::Nothing));
    assert_eq!(st.results.len(), 1);
}

#[test]
fn clear_and_push() {
    let mut st = AppState::new();
    st.config.coords[0] = Some(Coord { lat: 1, lng: 2, label: "x".into() });
    assert!(matches!(handle_ui_event(&mut st, "clear_current", UiEvent::Click, ""), UiCommand::SaveAndRender));
    assert!(st.config.coords[0].is_none());
    assert_eq!(notice(&st), "已清除此地點");
    st.selected_scenario = 3;
    st.notice = None;
    assert!(matches!(handle_ui_event(&mut st, "clear_current", UiEvent::Click, ""), UiCommand::Nothing));
    assert!(st.notice.is_none());
    assert!(matches!(handle_ui_event(&mut st, "push_now", UiEvent::Click, ""), UiCommand::PushAndRender));
    assert_eq!(notice(&st), "已推送設定到手環");
}

#[test]
fn shortcut_opens_locate_page_or_custom_link() {
    let mut st = AppState::new();
    st.config.loc_key = "abc23".into();
    match handle_ui_event(&mut st, "run_shortcut", UiEvent::Click, "") {
        UiCommand::OpenUrl { url } => assert_eq!(url, "https://youbike-band.w902287.workers.dev/loc?key=abc23"),
        _ => panic!("expected a link"),
    }
    assert!(st.awaiting_gps);
    assert_eq!(gps_pull_key(&st).as_deref(), Some("abc23"));
    st.config.android_trigger_url = "shortcuts://run".into();
    match handle_ui_event(&mut st, "run_shortcut", UiEvent::Click, "") {
        UiCommand::OpenUrl { url } => assert_eq!(url, "shortcuts://run"),
        _ => panic!("expected a link"),
    }
    assert_eq!(notice(&st), "已喚起自訂定位任務；完成後回到本頁會自動套用");
    assert!(finish_gps_pull(&mut st, 121).is_none());
    assert!(st.awaiting_gps);
    assert_eq!(finish_gps_pull(&mut st, 30).as_deref(), Some("手機 GPS（30 秒前）"));
    assert!(!st.awaiting_gps);
    assert!(gps_pull_key(&st).is_none());
}

#[test]
fn locate_outcomes() {
    let mut st = AppState::new();
    st.config.loc_key = "k".into();
    match handle_ui_event(&mut st, "locate_me", UiEvent::Click, "") {
        UiCommand::Locate { key } => assert_eq!(key, "k"),
        _ => panic!("expected a locate"),
    }
    assert_eq!(notice(&st), "讀取手機定位中…");
    let (lat, lng, desc) = finish_locate(&mut st, Ok((7, 8, 600))).unwrap();
    assert_eq!((lat, lng, desc.as_str()), (7, 8, "手機 GPS（600 秒前）"));
    assert!(finish_locate(&mut st, Ok((7, 8, 725))).is_none());
    assert_eq!(notice(&st), "定位太舊（12 分鐘前），請重新執行手機捷徑後再按一次");
    assert!(finish_locate(&mut st, Err("沒有定位".into())).is_none());
    assert_eq!(notice(&st), "沒有定位。請先執行手機定位捷徑，再按「目前位置」");
    st.config.coords[2] = Some(Coord { lat: 1, lng: 1, label: "站".into() });
    st.results = vec![("r".into(), 0, 0)];
    set_location_state(&mut st, 7, 8, "手機 GPS（5 秒前）", &vec![NearbyRow { name: "A".into(), bikes: 1, docks: 2, dist: 30 }]);
    assert_eq!(st.last_fix, Some((7, 8)));
    assert!(st.results.is_empty());
    assert_eq!(st.config.coords[2].as_ref().unwrap().label, "站");
    assert_eq!(notice(&st), "定位完成：手機 GPS（5 秒前）。手環「附近」頁將顯示：A（30m）");
    set_location_state(&mut st, 7, 8, "d", &Vec::new());
    assert_eq!(notice(&st), "定位完成：d。手環「附近」頁將顯示：讀取中");
}

#[test]
fn input_events_update_query_and_trigger() {
    let mut st = AppState::new();
    assert!(matches!(handle_ui_event(&mut st, "query_input", UiEvent::Input, "{\"value\":\"信義區\"}"), UiCommand::Nothing));
    assert_eq!(st.query, "信義區");
    assert!(matches!(handle_ui_event(&mut st, "trigger_input", UiEvent::Change, " shortcuts://x "), UiCommand::Save));
    assert_eq!(st.config.android_trigger_url, "shortcuts://x");
    assert!(matches!(handle_ui_event(&mut st, "other", UiEvent::Input, "z"), UiCommand::Nothing));
    assert!(matches!(handle_ui_event(&mut st, "tab1", UiEvent::Other, ""), UiCommand::Nothing));
    assert_eq!(st.selected_scenario, 0);
}

#[test]
fn input_value_extraction() {
    let obj = |k: &str, v: Json| Some(Json::Object(vec![(k.to_string(), v)]));
    assert_eq!(input_value_from("p", &obj("content", Json::Str("c".into()))), "c");
    assert_eq!(input_value_from("p", &obj("text", Json::Str("t".into()))), "t");
    assert_eq!(input_value_from("p", &obj("value", Json::Number("3".into()))), "p");
    assert_eq!(input_value_from("\"s\"", &Some(Json::Str("s".into()))), "s");
    assert_eq!(extract_input_value("raw"), "raw");
    assert_eq!(extract_input_value(r#"{"content":"c","value":5}"#), "c");
    assert_eq!(extract_input_value(r#"{"value":"v","text":"t"}"#), "v");
    assert_eq!(extract_input_value(r#""quoted""#), "quoted");
    assert_eq!(extract_input_value(r#"{"other":1}"#), r#"{"other":1}"#);
    assert_eq!(extract_input_value("{not json"), "{not json");
}

#[test]
fn render_and_rerender() {
    let mut st = AppState::new();
    assert!(rerender(&st, &texts()).is_none());
    let page = render_root(&mut st, "root-1", &texts());
    assert_eq!(st.root_element.as_deref(), Some("root-1"));
    let (root, again) = rerender(&st, &texts()).unwrap();
    assert_eq!(root, "root-1");
    assert_eq!(children(&again).len(), children(&page).len());
}

#[test]
fn devices_registration_and_push_targets() {
    let mut st = AppState::new();
    refresh_devices(&mut st, vec![("a1".into(), "Band".into()), ("a2".into(), "Watch".into())]);
    assert_eq!(ensure_registered(&mut st), vec!["a1".to_string(), "a2".to_string()]);
    assert!(st.registered);
    assert_eq!(push_config_to(&st, ""), vec!["a1".to_string(), "a2".to_string()]);
    assert_eq!(push_config_to(&st, "zz"), vec!["zz".to_string()]);
    finish_refresh_devices(&mut st);
    assert_eq!(notice(&st), "已重新整理：偵測到 2 台手環並重新註冊監聽");
    refresh_devices(&mut st, Vec::new());
    finish_refresh_devices(&mut st);
    assert_eq!(notice(&st), "仍未偵測到手環：請確認 AstroBox 首頁已連線裝置");
    assert!(matches!(handle_ui_event(&mut st, "refresh_dev", UiEvent::Click, ""), UiCommand::RefreshDevices));
}

fn reference_key(seed: u128) -> String {
    let chars: Vec<char> = "abcdefghjkmnpqrstuvwxyz23456789".chars().collect();
    let mut key = String::new();
    let mut x = seed ^ 0x9e3779b97f4a7c15;
    for _ in 0..12 {
        x ^= x << 13;
        x ^= x >> 7;
        x ^= x << 17;
        key.push(chars[(x as usize) % chars.len()]);
    }
    key
}

#[test]
fn loc_key_is_twelve_alphabet_chars() {
    for seed in [0u128, 1, 1_700_000_000_123_456_789, u128::MAX] {
        let k = make_loc_key(seed);
        assert_eq!(k, reference_key(seed));
        assert_eq!(k.chars().count(), 12);
        assert!(k.chars().all(|c| "abcdefghjkmnpqrstuvwxyz23456789".contains(c)));
    }
}

#[test]
fn load_keeps_existing_key_and_makes_missing_one() {
    let mut st = AppState::new();
    assert!(load(&mut st, None, 5));
    assert_eq!(st.config.loc_key, reference_key(5));
    let mut cfg = Config::empty();
    cfg.loc_key = "keep".into();
    cfg.coords[2] = Some(Coord { lat: 3, lng: 4, label: "站".into() });
    assert!(!load(&mut st, Some(cfg), 9));
    assert_eq!(st.config.loc_key, "keep");
    assert_eq!(st.config.coords[2].as_ref().unwrap().label, "站");
}

#[test]
fn every_result_button_picks_its_result() {
    let mut st = AppState::new();
    st.selected_scenario = 2;
    st.results = (0..12).map(|i| (format!("地點{i}"), i as u64, 100 + i as u64)).collect();
    let ui = build_ui(&st, &texts());
    let buttons: Vec<String> = children(children(&ui)[6]).iter().map(|b| click_ids(b)[0].clone()).collect();
    assert_eq!(buttons.len(), 12);
    for (i, id) in buttons.iter().enumerate() {
        assert!(matches!(classify_click(id), ClickAction::Pick(k) if k == i));
    }
    match handle_ui_event(&mut st, &buttons[11], UiEvent::Click, "") {
        UiCommand::Picked { scenario, name, lat, lng } => {
            assert_eq!((scenario, name.as_str(), lat, lng), (2, "地點11", 11, 111));
        }
        _ => panic!("expected a pick"),
    }
}

#[test]
fn cleared_and_picked_places_show_on_the_page() {
    let mut st = AppState::new();
    st.selected_scenario = 1;
    st.config.coords[1] = Some(Coord { lat: 1, lng: 2, label: "舊".into() });
    handle_ui_event(&mut st, "clear_current", UiEvent::Click, "");
    let ui = build_ui(&st, &texts());
    assert_eq!(children(children(&ui)[4])[1].text.as_deref(), Some("公司：未設定"));
    st.results = vec![("市府".into(), 5, 6)];
    handle_ui_event(&mut st, "pick_0", UiEvent::Click, "");
    let ui = build_ui(&st, &texts());
    let kids = children(&ui);
    assert_eq!(children(kids[4])[1].text.as_deref(), Some("公司：市府"));
    assert_eq!(children(kids[7]).len(), 0);
}

#[test]
fn typed_query_and_link_are_used_by_later_clicks() {
    let mut st = AppState::new();
    st.config.loc_key = "key9".into();
    handle_ui_event(&mut st, "query_input", UiEvent::Input, " 台北 101 ");
    match handle_ui_event(&mut st, "do_search", UiEvent::Click, "") {
        UiCommand::Search { query } => assert_eq!(query, " 台北 101 "),
        _ => panic!("expected a search"),
    }
    handle_ui_event(&mut st, "trigger_input", UiEvent::Input, "  http-shortcuts://go ");
    match handle_ui_event(&mut st, "run_shortcut", UiEvent::Click, "") {
        UiCommand::OpenUrl { url } => assert_eq!(url, "http-shortcuts://go"),
        _ => panic!("expected a link"),
    }
    handle_ui_event(&mut st, "trigger_input", UiEvent::Input, " \u{3000} ");
    match handle_ui_event(&mut st, "run_shortcut", UiEvent::Click, "") {
        UiCommand::OpenUrl { url } => assert_eq!(url, "https://youbike-band.w902287.workers.dev/loc?key=key9"),
        _ => panic!("expected a link"),
    }
}

#[test]
fn saved_key_survives_reload() {
    let mut st = AppState::new();
    assert!(load(&mut st, None, 77));
    let saved = Config {
        coords: [None, None, Some(Coord { lat: 1, lng: 2, label: "站".into() })],
        loc_key: st.config.loc_key.clone(),
        android_trigger_url: "x://y".into(),
    };
    let key = saved.loc_key.clone();
    let mut again = AppState::new();
    assert!(!load(&mut again, Some(saved), 12345));
    assert_eq!(again.config.loc_key, key);
    assert_eq!(again.config.android_trigger_url, "x://y");
}

#[test]
fn config_message_matches_serde_json() {
    let places = [Some((25.033f64, 121.5654f64, "市府")), None, Some((-0.5f64, 1e21f64, ""))];
    let mut cfg = Config::empty();
    let mut texts: Vec<(String, String)> = Vec::new();
    let mut coords: Vec<serde_json::Value> = Vec::new();
    for (i, p) in places.iter().enumerate() {
        match p {
            Some((lat, lng, label)) => {
                cfg.coords[i] = Some(Coord { lat: lat.to_bits(), lng: lng.to_bits(), label: label.to_string() });
                texts.push((serde_json::Value::from(*lat).to_string(), serde_json::Value::from(*lng).to_string()));
                let mut m = serde_json::Map::new();
                m.insert("lat".into(), serde_json::Value::from(*lat));
                m.insert("lng".into(), serde_json::Value::from(*lng));
                m.insert("label".into(), serde_json::Value::from(*label));
                coords.push(serde_json::Value::Object(m));
            }
            None => {
                texts.push((String::new(), String::new()));
                coords.push(serde_json::Value::Null);
            }
        }
    }
    let mut msg = serde_json::Map::new();
    msg.insert("tag".into(), serde_json::Value::from("cfg"));
    msg.insert("coords".into(), serde_json::Value::Array(coords));
    let texts: [(String, String); 3] = [texts[0].clone(), texts[1].clone(), texts[2].clone()];
    assert_eq!(config_message(&cfg, &texts), serde_json::Value::Object(msg).to_string());
}
