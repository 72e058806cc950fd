//! Plugin UI: scenario tabs, place search, pick from list, push to the band.
//!
//! Every function here decides; the host work it asks for (rendering, opening
//! a link, network lookups, saving, pushing) is named in its result and done by
//! the caller, which reports back through the `finish_*` functions.
use vstd::prelude::*;
use crate::element::{
    ElementKind, UiEvent, FlexDir, ElementOp, Element, OpModel, ElementModel, m_new, m_with,
    new_element, new_element_owned, with,
};
use crate::state::{AppState, Coord, SCENARIO_COUNT, scenario_name, scenario_name_spec, same_but, notice_is, set_notice};
use crate::json::{Json, JsonModel, get_spec, as_str_spec, opt_model, parsed_json, parse_json};
use crate::stations::NearbyRow;
use crate::text::{
    append_str, append_chars, string_of, chars_of, join_seq, dec_text, digit_char, int_text, u64_text, i64_text,
    trim, has_prefix, parse_usize_spec, views, join,
};

verus! {

/// The plugin's version, shown in the title.
pub const VERSION: &'static str = "0.1.0";

pub const C_BG: &'static str = "#101914";
pub const C_CARD: &'static str = "#171f1a";
pub const C_GREEN: &'static str = "#63d987";
pub const C_TEXT: &'static str = "#eef7f0";
pub const C_MUTED: &'static str = "#9aaba0";
pub const C_DARK_TEXT: &'static str = "#091006";
pub const C_WARN: &'static str = "#ff9f7b";

pub const EV_TAB0: &'static str = "tab0";
pub const EV_TAB1: &'static str = "tab1";
pub const EV_TAB2: &'static str = "tab2";
pub const EV_TAB3: &'static str = "tab3";
pub const EV_QUERY: &'static str = "query_input";
pub const EV_SEARCH: &'static str = "do_search";
pub const EV_PUSH: &'static str = "push_now";
pub const EV_CLEAR: &'static str = "clear_current";
pub const EV_LOCATE: &'static str = "locate_me";
pub const EV_RUN_SHORTCUT: &'static str = "run_shortcut";
pub const EV_TRIGGER_INPUT: &'static str = "trigger_input";
pub const EV_REFRESH_DEV: &'static str = "refresh_dev";
pub const EV_PICK_PREFIX: &'static str = "pick_";

/// Four-decimal renderings (`{:.4}, {:.4}`) of coordinates, made by the caller
/// where floating point is available: one per saved scenario (used when that
/// scenario holds a place) and one for the last phone fix.
pub struct CoordText {
    pub saved: [String; 3],
    pub fix: String,
}

/// A paragraph with a font size and a color.
pub open spec fn m_p(text: Seq<char>, size: u32, color: Seq<char>) -> ElementModel {
    m_with(
        m_with(m_new(ElementKind::P, Some(text)), OpModel::Size(size)),
        OpModel::TextColor(color),
    )
}

/// A button with a background, a text color, a corner radius and a click id.
pub open spec fn m_button(
    text: Seq<char>,
    bg: Seq<char>,
    color: Seq<char>,
    radius: u32,
    ev: Seq<char>,
) -> ElementModel {
    m_with(
        m_with(
            m_with(
                m_with(m_new(ElementKind::Button, Some(text)), OpModel::Bg(bg)),
                OpModel::TextColor(color),
            ),
            OpModel::Radius(radius),
        ),
        OpModel::On(UiEvent::Click, ev),
    )
}

/// A flex container laid out in `dir` with spacing `gap`.
pub open spec fn m_flex(dir: FlexDir, gap: u32) -> ElementModel {
    m_with(
        m_with(m_with(m_new(ElementKind::Div, None), OpModel::Flex), OpModel::FlexDirection(dir)),
        OpModel::Gap(gap),
    )
}

/// `e` with `c` appended as a child.
pub open spec fn m_child(e: ElementModel, c: ElementModel) -> ElementModel {
    m_with(e, OpModel::Child(c))
}

fn p_el(text: String, size: u32, color: &str) -> (r: Element)
    ensures
        r@ == m_p(text@, size, color@),
{
    let e = new_element_owned(ElementKind::P, text);
    let e = with(e, ElementOp::Size(size));
    with(e, ElementOp::TextColor(crate::text::copy_str(color)))
}

fn button(text: &str, bg: &str, color: &str, radius: u32, ev: String) -> (r: Element)
    ensures
        r@ == m_button(text@, bg@, color@, radius, ev@),
{
    let e = new_element(ElementKind::Button, Some(text));
    let e = with(e, ElementOp::Bg(crate::text::copy_str(bg)));
    let e = with(e, ElementOp::TextColor(crate::text::copy_str(color)));
    let e = with(e, ElementOp::Radius(radius));
    with(e, ElementOp::On(UiEvent::Click, ev))
}

fn flex_div(dir: FlexDir, gap: u32) -> (r: Element)
    ensures
        r@ == m_flex(dir, gap),
{
    let e = new_element(ElementKind::Div, None);
    let e = with(e, ElementOp::Flex);
    let e = with(e, ElementOp::FlexDirection(dir));
    with(e, ElementOp::Gap(gap))
}

fn child(e: Element, c: Element) -> (r: Element)
    ensures
        r@ == m_child(e@, c@),
{
    with(e, ElementOp::Child(c))
}

/// The names of the connected bands.
pub open spec fn device_names(st: AppState) -> Seq<Seq<char>> {
    st.devices@.map_values(|d: (String, String)| d.1@)
}

/// The device status line.
pub open spec fn device_line_spec(st: AppState) -> Seq<char> {
    if st.devices@.len() == 0 {
        "未偵測到已連線手環"@
    } else {
        "已連線："@ + join_seq(device_names(st), "、"@)
    }
}

/// The device row: status line and refresh button.
pub open spec fn device_row_spec(st: AppState) -> ElementModel {
    let color = if st.devices@.len() == 0 {
        C_WARN@
    } else {
        C_GREEN@
    };
    m_child(
        m_child(
            m_with(m_flex(FlexDir::Row, 8), OpModel::AlignCenter),
            m_p(device_line_spec(st), 13, color),
        ),
        m_button("重新整理"@, C_CARD@, C_TEXT@, 10, EV_REFRESH_DEV@),
    )
}

fn device_row(st: &AppState) -> (r: Element)
    ensures
        r@ == device_row_spec(*st),
{
    let line = if st.devices.len() == 0 {
        crate::text::copy_str("未偵測到已連線手環")
    } else {
        let mut names: Vec<String> = Vec::new();
        let n = st.devices.len();
        for i in 0..n
            invariant
                n == st.devices@.len(),
                names@.len() == i,
                forall|j: int| 0 <= j < i ==> #[trigger] names@[j]@ == st.devices@[j].1@,
        {
            names.push(st.devices[i].1.clone());
        }
        assert(crate::text::views(names@) =~= device_names(*st));
        let joined = crate::text::join(&names, "、");
        let mut out: Vec<char> = Vec::new();
        append_str(&mut out, "已連線：");
        append_str(&mut out, joined.as_str());
        string_of(&out)
    };
    let color = if st.devices.len() == 0 {
        C_WARN
    } else {
        C_GREEN
    };
    let device_el = p_el(line, 13, color);
    let refresh = button("重新整理", C_CARD, C_TEXT, 10, crate::text::copy_str(EV_REFRESH_DEV));
    let row = flex_div(FlexDir::Row, 8);
    let row = with(row, ElementOp::AlignCenter);
    let row = child(row, device_el);
    child(row, refresh)
}

/// Tab `i` (label `name`), highlighted when it is the selected page.
pub open spec fn tab_spec(name: Seq<char>, ev: Seq<char>, active: bool) -> ElementModel {
    let b = m_with(
        m_with(
            m_with(
                m_with(m_new(ElementKind::Button, Some(name)), OpModel::Radius(16)),
                OpModel::PaddingLeft(14),
            ),
            OpModel::PaddingRight(14),
        ),
        OpModel::On(UiEvent::Click, ev),
    );
    if active {
        m_with(m_with(b, OpModel::Bg(C_GREEN@)), OpModel::TextColor(C_DARK_TEXT@))
    } else {
        m_with(m_with(b, OpModel::Bg(C_CARD@)), OpModel::TextColor(C_TEXT@))
    }
}

/// The page tabs: three scenarios and the nearby page.
pub open spec fn tabs_spec(st: AppState) -> ElementModel {
    let base = m_with(m_flex(FlexDir::Row, 8), OpModel::MarginTop(10));
    m_child(
        m_child(
            m_child(
                m_child(base, tab_spec("住家"@, EV_TAB0@, st.selected_scenario == 0)),
                tab_spec("公司"@, EV_TAB1@, st.selected_scenario == 1),
            ),
            tab_spec("車站"@, EV_TAB2@, st.selected_scenario == 2),
        ),
        tab_spec("附近"@, EV_TAB3@, st.selected_scenario == 3),
    )
}

fn tab(name: &str, ev: &str, active: bool) -> (r: Element)
    ensures
        r@ == tab_spec(name@, ev@, active),
{
    let b = new_element(ElementKind::Button, Some(name));
    let b = with(b, ElementOp::Radius(16));
    let b = with(b, ElementOp::PaddingLeft(14));
    let b = with(b, ElementOp::PaddingRight(14));
    let b = with(b, ElementOp::On(UiEvent::Click, crate::text::copy_str(ev)));
    if active {
        let b = with(b, ElementOp::Bg(crate::text::copy_str(C_GREEN)));
        with(b, ElementOp::TextColor(crate::text::copy_str(C_DARK_TEXT)))
    } else {
        let b = with(b, ElementOp::Bg(crate::text::copy_str(C_CARD)));
        with(b, ElementOp::TextColor(crate::text::copy_str(C_TEXT)))
    }
}

fn tabs(st: &AppState) -> (r: Element)
    ensures
        r@ == tabs_spec(*st),
{
    let t = flex_div(FlexDir::Row, 8);
    let t = with(t, ElementOp::MarginTop(10));
    let t = child(t, tab("住家", EV_TAB0, st.selected_scenario == 0));
    let t = child(t, tab("公司", EV_TAB1, st.selected_scenario == 1));
    let t = child(t, tab("車站", EV_TAB2, st.selected_scenario == 2));
    child(t, tab("附近", EV_TAB3, st.selected_scenario == 3))
}

/// The saved-place line of scenario `i`.
pub open spec fn saved_text_spec(st: AppState, ct: CoordText, i: int) -> Seq<char> {
    match st.config.coords@[i] {
        Some(c) => if c.label@.len() != 0 {
            scenario_name_spec(i) + "："@ + c.label@
        } else {
            scenario_name_spec(i) + "："@ + ct.saved@[i]@
        },
        None => scenario_name_spec(i) + "："@ + "未設定"@,
    }
}

/// The saved-place line of scenario `i`, as an element.
pub open spec fn saved_line_spec(st: AppState, ct: CoordText, i: int) -> ElementModel {
    m_p(
        saved_text_spec(st, ct, i),
        14,
        if st.config.coords@[i] is Some {
            C_GREEN@
        } else {
            C_MUTED@
        },
    )
}

/// The column of saved places.
pub open spec fn saved_col_spec(st: AppState, ct: CoordText) -> ElementModel {
    let base = m_with(m_flex(FlexDir::Column, 4), OpModel::MarginTop(8));
    m_child(
        m_child(m_child(base, saved_line_spec(st, ct, 0)), saved_line_spec(st, ct, 1)),
        saved_line_spec(st, ct, 2),
    )
}

fn saved_line(st: &AppState, ct: &CoordText, i: usize) -> (r: Element)
    requires
        i < SCENARIO_COUNT,
    ensures
        r@ == saved_line_spec(*st, *ct, i as int),
{
    let mut out: Vec<char> = Vec::new();
    append_str(&mut out, scenario_name(i));
    append_str(&mut out, "：");
    let color = match &st.config.coords[i] {
        Some(c) => {
            if !c.label.as_str().is_empty() {
                append_str(&mut out, c.label.as_str());
            } else {
                append_str(&mut out, ct.saved[i].as_str());
            }
            C_GREEN
        },
        None => {
            append_str(&mut out, "未設定");
            C_MUTED
        },
    };
    p_el(string_of(&out), 14, color)
}

fn saved_col(st: &AppState, ct: &CoordText) -> (r: Element)
    ensures
        r@ == saved_col_spec(*st, *ct),
{
    let c = flex_div(FlexDir::Column, 4);
    let c = with(c, ElementOp::MarginTop(8));
    let c = child(c, saved_line(st, ct, 0));
    let c = child(c, saved_line(st, ct, 1));
    child(c, saved_line(st, ct, 2))
}

/// The query box.
pub open spec fn query_input_spec(st: AppState) -> ElementModel {
    m_with(
        m_with(
            m_with(
                m_with(
                    m_new(ElementKind::Input, Some(st.query@)),
                    OpModel::Prop("placeholder"@, "地點或地址：市政府／信義區市府路45號"@),
                ),
                OpModel::WidthFull,
            ),
            OpModel::On(UiEvent::Input, EV_QUERY@),
        ),
        OpModel::On(UiEvent::Change, EV_QUERY@),
    )
}

/// The line showing the last phone fix on the nearby page.
pub open spec fn fix_line_spec(st: AppState, ct: CoordText) -> ElementModel {
    match st.last_fix {
        Some(_) => m_p("最近定位："@ + ct.fix@, 14, C_GREEN@),
        None => m_p("尚未定位：按「手機定位」取得目前位置"@, 14, C_MUTED@),
    }
}

/// The search row of a scenario page, or the locate block of the nearby page.
pub open spec fn search_row_spec(st: AppState, ct: CoordText) -> ElementModel {
    if st.selected_scenario == 3 {
        m_child(
            m_child(
                m_child(
                    m_with(m_flex(FlexDir::Column, 8), OpModel::MarginTop(10)),
                    m_p(
                        "附近＝手環依你手機的即時定位顯示周邊 4 站。出門前按一次「手機定位」即可。"@,
                        13,
                        C_TEXT@,
                    ),
                ),
                fix_line_spec(st, ct),
            ),
            m_child(
                m_child(
                    m_flex(FlexDir::Row, 8),
                    m_button("手機定位"@, C_CARD@, C_GREEN@, 10, EV_RUN_SHORTCUT@),
                ),
                m_button("目前位置"@, C_CARD@, C_TEXT@, 10, EV_LOCATE@),
            ),
        )
    } else {
        m_child(
            m_child(
                m_with(m_flex(FlexDir::Row, 8), OpModel::MarginTop(10)),
                query_input_spec(st),
            ),
            m_button("搜尋地點"@, C_GREEN@, C_DARK_TEXT@, 10, EV_SEARCH@),
        )
    }
}

fn search_row(st: &AppState, ct: &CoordText) -> (r: Element)
    ensures
        r@ == search_row_spec(*st, *ct),
{
    if st.selected_scenario == 3 {
        let fix_line = match st.last_fix {
            Some(_) => {
                let mut out: Vec<char> = Vec::new();
                append_str(&mut out, "最近定位：");
                append_str(&mut out, ct.fix.as_str());
                p_el(string_of(&out), 14, C_GREEN)
            },
            None => p_el(crate::text::copy_str("尚未定位：按「手機定位」取得目前位置"), 14, C_MUTED),
        };
        let shortcut_btn = button("手機定位", C_CARD, C_GREEN, 10, crate::text::copy_str(EV_RUN_SHORTCUT));
        let locate_btn = button("目前位置", C_CARD, C_TEXT, 10, crate::text::copy_str(EV_LOCATE));
        let col = flex_div(FlexDir::Column, 8);
        let col = with(col, ElementOp::MarginTop(10));
        let col = child(
            col,
            p_el(
                crate::text::copy_str(
                    "附近＝手環依你手機的即時定位顯示周邊 4 站。出門前按一次「手機定位」即可。",
                ),
                13,
                C_TEXT,
            ),
        );
        let col = child(col, fix_line);
        let row = flex_div(FlexDir::Row, 8);
        let row = child(row, shortcut_btn);
        let row = child(row, locate_btn);
        child(col, row)
    } else {
        let input = new_element(ElementKind::Input, Some(st.query.as_str()));
        let input = with(
            input,
            ElementOp::Prop(
                crate::text::copy_str("placeholder"),
                crate::text::copy_str("地點或地址：市政府／信義區市府路45號"),
            ),
        );
        let input = with(input, ElementOp::WidthFull);
        let input = with(input, ElementOp::On(UiEvent::Input, crate::text::copy_str(EV_QUERY)));
        let input = with(input, ElementOp::On(UiEvent::Change, crate::text::copy_str(EV_QUERY)));
        let search_btn = button("搜尋地點", C_GREEN, C_DARK_TEXT, 10, crate::text::copy_str(EV_SEARCH));
        let row = flex_div(FlexDir::Row, 8);
        let row = with(row, ElementOp::MarginTop(10));
        let row = child(row, input);
        child(row, search_btn)
    }
}

/// The click id of search result `i`.
pub open spec fn pick_id(i: nat) -> Seq<char> {
    EV_PICK_PREFIX@ + dec_text(i)
}

/// The button of search result `i`.
pub open spec fn result_button_spec(name: Seq<char>, i: nat) -> ElementModel {
    m_with(
        m_with(
            m_with(
                m_with(
                    m_with(
                        m_with(m_new(ElementKind::Button, Some(name)), OpModel::Bg(C_CARD@)),
                        OpModel::TextColor(C_TEXT@),
                    ),
                    OpModel::Radius(10),
                ),
                OpModel::WidthFull,
            ),
            OpModel::Padding(10),
        ),
        OpModel::On(UiEvent::Click, pick_id(i)),
    )
}

/// The first `n` result buttons as children.
pub open spec fn result_children(st: AppState, n: nat) -> Seq<OpModel>
    decreases n,
{
    if n == 0 {
        seq![]
    } else {
        result_children(st, (n - 1) as nat).push(
            OpModel::Child(result_button_spec(st.results@[n - 1].0@, (n - 1) as nat)),
        )
    }
}

/// The column of search results (empty on the nearby page).
pub open spec fn results_col_spec(st: AppState) -> ElementModel {
    let base = m_with(m_flex(FlexDir::Column, 6), OpModel::MarginTop(8));
    if st.selected_scenario == 3 {
        base
    } else {
        ElementModel { ops: base.ops + result_children(st, st.results@.len()), ..base }
    }
}

fn results_col(st: &AppState) -> (r: Element)
    ensures
        r@ == results_col_spec(*st),
{
    let c = flex_div(FlexDir::Column, 6);
    let mut c = with(c, ElementOp::MarginTop(8));
    if st.selected_scenario == 3 {
        return c;
    }
    let ghost base = c@;
    let n = st.results.len();
    assert(base.ops + result_children(*st, 0) =~= base.ops);
    for i in 0..n
        invariant
            n == st.results@.len(),
            st.selected_scenario != 3,
            c@ == (ElementModel { ops: base.ops + result_children(*st, i as nat), ..base }),
    {
        let mut id: Vec<char> = Vec::new();
        append_str(&mut id, EV_PICK_PREFIX);
        let digits = u64_text(i as u64);
        append_chars(&mut id, &digits);
        let b = new_element(ElementKind::Button, Some(st.results[i].0.as_str()));
        let b = with(b, ElementOp::Bg(crate::text::copy_str(C_CARD)));
        let b = with(b, ElementOp::TextColor(crate::text::copy_str(C_TEXT)));
        let b = with(b, ElementOp::Radius(10));
        let b = with(b, ElementOp::WidthFull);
        let b = with(b, ElementOp::Padding(10));
        let b = with(b, ElementOp::On(UiEvent::Click, string_of(&id)));
        c = child(c, b);
        assert(base.ops + result_children(*st, (i + 1) as nat) =~= (base.ops + result_children(
            *st,
            i as nat,
        )).push(OpModel::Child(result_button_spec(st.results@[i as int].0@, i as nat))));
    }
    c
}

/// The push and clear buttons.
pub open spec fn actions_spec(st: AppState) -> ElementModel {
    let clear_label = if st.selected_scenario == 3 {
        "（附近頁無需清除）"@
    } else {
        "清除目前分頁地點"@
    };
    m_child(
        m_child(
            m_with(m_flex(FlexDir::Row, 8), OpModel::MarginTop(12)),
            m_button("重新推送設定到手環"@, C_CARD@, C_TEXT@, 10, EV_PUSH@),
        ),
        m_button(clear_label, C_CARD@, C_MUTED@, 10, EV_CLEAR@),
    )
}

fn actions(st: &AppState) -> (r: Element)
    ensures
        r@ == actions_spec(*st),
{
    let push_btn = button("重新推送設定到手環", C_CARD, C_TEXT, 10, crate::text::copy_str(EV_PUSH));
    let clear_label = if st.selected_scenario == 3 {
        "（附近頁無需清除）"
    } else {
        "清除目前分頁地點"
    };
    let clear_btn = button(clear_label, C_CARD, C_MUTED, 10, crate::text::copy_str(EV_CLEAR));
    let row = flex_div(FlexDir::Row, 8);
    let row = with(row, ElementOp::MarginTop(12));
    let row = child(row, push_btn);
    child(row, clear_btn)
}

/// The explanation of phone locating.
pub open spec fn hint_spec() -> ElementModel {
    m_with(
        m_p(
            "手機定位免安裝：按「手機定位」會開啟定位網頁（瀏覽器內建 GPS），允許定位並看到 ✓ 後切回本頁即自動套用。進階：下方可填自訂自動化連結（iOS shortcuts:// 或 HTTP Shortcuts）取代網頁。"@,
            11,
            C_MUTED@,
        ),
        OpModel::MarginTop(10),
    )
}

/// The custom trigger-link box.
pub open spec fn trigger_row_spec(st: AppState) -> ElementModel {
    let input = m_with(
        m_with(
            m_with(
                m_with(
                    m_new(ElementKind::Input, Some(st.config.android_trigger_url@)),
                    OpModel::Prop("placeholder"@, "選填：自訂觸發連結（shortcuts:// 或 http-shortcuts://）"@),
                ),
                OpModel::WidthFull,
            ),
            OpModel::On(UiEvent::Input, EV_TRIGGER_INPUT@),
        ),
        OpModel::On(UiEvent::Change, EV_TRIGGER_INPUT@),
    );
    m_child(
        m_with(
            m_with(
                m_with(m_new(ElementKind::Div, None), OpModel::Flex),
                OpModel::FlexDirection(FlexDir::Column),
            ),
            OpModel::MarginTop(6),
        ),
        input,
    )
}

fn trigger_row(st: &AppState) -> (r: Element)
    ensures
        r@ == trigger_row_spec(*st),
{
    let input = new_element(ElementKind::Input, Some(st.config.android_trigger_url.as_str()));
    let input = with(
        input,
        ElementOp::Prop(
            crate::text::copy_str("placeholder"),
            crate::text::copy_str("選填：自訂觸發連結（shortcuts:// 或 http-shortcuts://）"),
        ),
    );
    let input = with(input, ElementOp::WidthFull);
    let input = with(input, ElementOp::On(UiEvent::Input, crate::text::copy_str(EV_TRIGGER_INPUT)));
    let input = with(input, ElementOp::On(UiEvent::Change, crate::text::copy_str(EV_TRIGGER_INPUT)));
    let row = new_element(ElementKind::Div, None);
    let row = with(row, ElementOp::Flex);
    let row = with(row, ElementOp::FlexDirection(FlexDir::Column));
    let row = with(row, ElementOp::MarginTop(6));
    child(row, input)
}

/// The whole settings page for state `st`.
pub open spec fn ui_spec(st: AppState, ct: CoordText) -> ElementModel {
    let root = m_with(
        m_with(
            m_with(
                m_with(
                    m_with(
                        m_with(m_new(ElementKind::Div, None), OpModel::Flex),
                        OpModel::FlexDirection(FlexDir::Column),
                    ),
                    OpModel::WidthFull,
                ),
                OpModel::Bg(C_BG@),
            ),
            OpModel::Padding(14),
        ),
        OpModel::Radius(12),
    );
    let top = m_child(
        m_child(
            m_child(
                m_child(
                    m_child(
                        m_child(root, m_p("Ubike助手 設定 v"@ + VERSION@, 22, C_GREEN@)),
                        m_p("內建 FetchBridge 代理：已啟用（監聽 tw.youbike.band）"@, 12, C_MUTED@),
                    ),
                    device_row_spec(st),
                ),
                tabs_spec(st),
            ),
            saved_col_spec(st, ct),
        ),
        search_row_spec(st, ct),
    );
    let with_notice = match st.notice {
        Some(n) => m_child(top, m_with(m_p(n@, 13, C_GREEN@), OpModel::MarginTop(6))),
        None => top,
    };
    m_child(
        m_child(m_child(m_child(with_notice, results_col_spec(st)), actions_spec(st)), hint_spec()),
        trigger_row_spec(st),
    )
}

/// Builds the settings page for the current state (`build_ui`).
pub fn build_ui(st: &AppState, ct: &CoordText) -> (r: Element)
    ensures
        r@ == ui_spec(*st, *ct),
{
    let mut title_text: Vec<char> = Vec::new();
    append_str(&mut title_text, "Ubike助手 設定 v");
    append_str(&mut title_text, VERSION);
    let title = p_el(string_of(&title_text), 22, C_GREEN);
    let bridge_line = p_el(
        crate::text::copy_str("內建 FetchBridge 代理：已啟用（監聽 tw.youbike.band）"),
        12,
        C_MUTED,
    );
    let root = new_element(ElementKind::Div, None);
    let root = with(root, ElementOp::Flex);
    let root = with(root, ElementOp::FlexDirection(FlexDir::Column));
    let root = with(root, ElementOp::WidthFull);
    let root = with(root, ElementOp::Bg(crate::text::copy_str(C_BG)));
    let root = with(root, ElementOp::Padding(14));
    let root = with(root, ElementOp::Radius(12));
    let root = child(root, title);
    let root = child(root, bridge_line);
    let root = child(root, device_row(st));
    let root = child(root, tabs(st));
    let root = child(root, saved_col(st, ct));
    let mut root = child(root, search_row(st, ct));
    match &st.notice {
        Some(n) => {
            let ne = p_el(n.clone(), 13, C_GREEN);
            let ne = with(ne, ElementOp::MarginTop(6));
            root = child(root, ne);
        },
        None => {},
    }
    let root = child(root, results_col(st));
    let root = child(root, actions(st));
    let hint = p_el(
        crate::text::copy_str(
            "手機定位免安裝：按「手機定位」會開啟定位網頁（瀏覽器內建 GPS），允許定位並看到 ✓ 後切回本頁即自動套用。進階：下方可填自訂自動化連結（iOS shortcuts:// 或 HTTP Shortcuts）取代網頁。",
        ),
        11,
        C_MUTED,
    );
    let hint = with(hint, ElementOp::MarginTop(10));
    let root = child(root, hint);
    child(root, trigger_row(st))
}

/// Makes `st` remember the host element the page is rendered into, and builds
/// the page for it (`render_root`).
pub fn render_root(st: &mut AppState, element_id: &str, ct: &CoordText) -> (r: Element)
    ensures
        final(st).root_element matches Some(id) && id@ == element_id@,
        *final(st) == (AppState { root_element: final(st).root_element, ..*old(st) }),
        r@ == ui_spec(*final(st), *ct),
{
    st.root_element = Some(crate::text::copy_str(element_id));
    build_ui(st, ct)
}

/// The host element to render into and the page for it, when the page has
/// been rendered before (`rerender`).
pub fn rerender(st: &AppState, ct: &CoordText) -> (r: Option<(String, Element)>)
    ensures
        r is Some <==> st.root_element is Some,
        r matches Some(p) ==> (st.root_element matches Some(id) && p.0 == id && p.1@ == ui_spec(
            *st,
            *ct,
        )),
{
    match &st.root_element {
        Some(root) => Some((root.clone(), build_ui(st, ct))),
        None => None,
    }
}

/// What a click on an element asks for.
#[derive(Clone, Copy, Debug, PartialEq, Eq, Structural)]
pub enum ClickAction {
    Tab(usize),
    Search,
    Locate,
    RunShortcut,
    RefreshDevices,
    Push,
    Clear,
    Pick(usize),
    Ignore,
}

/// The action of a click on the element with id `id`.
pub open spec fn click_action(id: Seq<char>) -> ClickAction {
    if id == EV_TAB0@ {
        ClickAction::Tab(0)
    } else if id == EV_TAB1@ {
        ClickAction::Tab(1)
    } else if id == EV_TAB2@ {
        ClickAction::Tab(2)
    } else if id == EV_TAB3@ {
        ClickAction::Tab(3)
    } else if id == EV_SEARCH@ {
        ClickAction::Search
    } else if id == EV_LOCATE@ {
        ClickAction::Locate
    } else if id == EV_RUN_SHORTCUT@ {
        ClickAction::RunShortcut
    } else if id == EV_REFRESH_DEV@ {
        ClickAction::RefreshDevices
    } else if id == EV_PUSH@ {
        ClickAction::Push
    } else if id == EV_CLEAR@ {
        ClickAction::Clear
    } else if has_prefix(id, EV_PICK_PREFIX@) && parse_usize_spec(
        id.skip(EV_PICK_PREFIX@.len() as int),
    ) is Some {
        ClickAction::Pick(parse_usize_spec(id.skip(EV_PICK_PREFIX@.len() as int)).unwrap() as usize)
    } else {
        ClickAction::Ignore
    }
}

/// Classifies a click by the clicked element's id.
pub fn classify_click(id: &str) -> (r: ClickAction)
    ensures
        r == click_action(id@),
{
    let s = chars_of(id);
    let same = |lit: &str| -> (b: bool)
        ensures
            b == (id@ == lit@),
        {
            let l = chars_of(lit);
            crate::text::chars_eq(&s, &l)
        };
    if same(EV_TAB0) {
        ClickAction::Tab(0)
    } else if same(EV_TAB1) {
        ClickAction::Tab(1)
    } else if same(EV_TAB2) {
        ClickAction::Tab(2)
    } else if same(EV_TAB3) {
        ClickAction::Tab(3)
    } else if same(EV_SEARCH) {
        ClickAction::Search
    } else if same(EV_LOCATE) {
        ClickAction::Locate
    } else if same(EV_RUN_SHORTCUT) {
        ClickAction::RunShortcut
    } else if same(EV_REFRESH_DEV) {
        ClickAction::RefreshDevices
    } else if same(EV_PUSH) {
        ClickAction::Push
    } else if same(EV_CLEAR) {
        ClickAction::Clear
    } else {
        let prefix = chars_of(EV_PICK_PREFIX);
        match crate::text::strip_prefix(&s, &prefix) {
            Some(rest) => match crate::text::parse_usize(&rest) {
                Some(i) => ClickAction::Pick(i),
                None => ClickAction::Ignore,
            },
            None => ClickAction::Ignore,
        }
    }
}

/// The result buttons number as many as the results, button `j` for result `j`.
proof fn lemma_result_children(st: AppState, n: nat)
    ensures
        result_children(st, n).len() == n,
        forall|j: int|
            0 <= j < n ==> #[trigger] result_children(st, n)[j] == OpModel::Child(
                result_button_spec(st.results@[j].0@, j as nat),
            ),
    decreases n,
{
    if n > 0 {
        lemma_result_children(st, (n - 1) as nat);
    }
}

/// On a scenario page, the button shown for search result `i` carries a click
/// id that a click reads back as the pick of result `i`.
pub proof fn law_result_button_picks(st: AppState, i: usize)
    requires
        st.selected_scenario != 3,
        i < st.results@.len(),
    ensures
        results_col_spec(st).ops[4 + i] == OpModel::Child(
            result_button_spec(st.results@[i as int].0@, i as nat),
        ),
        click_action(pick_id(i as nat)) == ClickAction::Pick(i),
{
    lemma_result_children(st, st.results@.len());
    crate::text::lemma_dec_text_value(i as nat);
    reveal_strlit("pick_");
    reveal_strlit("tab0");
    reveal_strlit("tab1");
    reveal_strlit("tab2");
    reveal_strlit("tab3");
    reveal_strlit("do_search");
    reveal_strlit("locate_me");
    reveal_strlit("run_shortcut");
    reveal_strlit("refresh_dev");
    reveal_strlit("push_now");
    reveal_strlit("clear_current");
    let id = pick_id(i as nat);
    let d = dec_text(i as nat);
    assert(id[0] == 'p' && id[1] == 'i');
    assert(id.take(5) =~= EV_PICK_PREFIX@);
    assert(id.skip(5) =~= d);
    assert(d[0] != '+');
    assert(parse_usize_spec(d) == Some(i as nat));
}

/// Host work that an event leaves for the caller to do.
pub enum UiCommand {
    /// Nothing more.
    Nothing,
    /// Re-render the page.
    Render,
    /// Re-render, then look up `query` (up to six places) and report the
    /// outcome with [`finish_search`].
    Search { query: String },
    /// Re-render, then read the phone location uploaded under `key` and report
    /// the outcome with [`finish_locate`].
    Locate { key: String },
    /// Open `url` on the phone, then re-render.
    OpenUrl { url: String },
    /// Re-read and re-register the connected bands, then call
    /// [`finish_refresh_devices`] and re-render.
    RefreshDevices,
    /// Push the configuration to every band, then re-render.
    PushAndRender,
    /// Save the configuration, then re-render.
    SaveAndRender,
    /// Save the configuration.
    Save,
    /// Save the configuration, push it to every band, look up the stations
    /// near (`lat`, `lng`) and report them with [`finish_pick`].
    Picked { scenario: usize, name: String, lat: u64, lng: u64 },
}

/// The value an input event carries: the first of `value`, `content`, `text`
/// that is a string, or the payload itself when it is a JSON string, or else
/// the raw payload.
pub open spec fn input_value_spec(payload: Seq<char>, parsed: Option<JsonModel>) -> Seq<char> {
    match parsed {
        Some(v) => if as_str_spec(get_spec(v, "value"@)) is Some {
            as_str_spec(get_spec(v, "value"@)).unwrap()
        } else if as_str_spec(get_spec(v, "content"@)) is Some {
            as_str_spec(get_spec(v, "content"@)).unwrap()
        } else if as_str_spec(get_spec(v, "text"@)) is Some {
            as_str_spec(get_spec(v, "text"@)).unwrap()
        } else if v is Str {
            v->Str_0
        } else {
            payload
        },
        None => payload,
    }
}

/// The string member `key` of `v`, when there is one.
pub fn str_member(v: &Json, key: &str) -> (r: Option<String>)
    ensures
        r is Some <==> as_str_spec(get_spec(v@, key@)) is Some,
        r matches Some(s) ==> s@ == as_str_spec(get_spec(v@, key@)).unwrap(),
{
    match v.get(key) {
        Some(x) => match x.as_str() {
            Some(s) => Some(s.clone()),
            None => None,
        },
        None => None,
    }
}

/// The value an input event carries, given `parsed`, the payload read as
/// JSON (`None` when it is not JSON).
pub fn input_value_from(payload: &str, parsed: &Option<Json>) -> (r: String)
    ensures
        r@ == input_value_spec(payload@, opt_model(*parsed)),
{
    match parsed {
        Some(v) => {
            if let Some(s) = str_member(v, "value") {
                return s;
            }
            if let Some(s) = str_member(v, "content") {
                return s;
            }
            if let Some(s) = str_member(v, "text") {
                return s;
            }
            if let Some(s) = v.as_str() {
                return s.clone();
            }
            crate::text::copy_str(payload)
        },
        None => crate::text::copy_str(payload),
    }
}

/// Reads the value an input event carries (`extract_input_value`): the
/// payload is read as JSON and the value taken from it.
pub fn extract_input_value(payload: &str) -> (r: String)
    ensures
        r@ == input_value_spec(payload@, parsed_json(payload@)),
{
    let parsed = parse_json(payload);
    input_value_from(payload, &parsed)
}

/// The locate page opened when no custom trigger link is set.
pub open spec fn locate_url_spec(key: Seq<char>) -> Seq<char> {
    "https://youbike-band.w902287.workers.dev/loc?key="@ + key
}

/// What choosing search result `i` does.
pub open spec fn pick_spec(o: AppState, f: AppState, i: usize, r: UiCommand) -> bool {
    if o.selected_scenario >= SCENARIO_COUNT || i >= o.results@.len() {
        f == o && r is Nothing
    } else {
        let picked = o.results@[i as int];
        &&& same_but(o, f, false, false, false, true, false, true, false, false, false)
        &&& f.config.coords@ == o.config.coords@.update(
            o.selected_scenario as int,
            Some(Coord { lat: picked.1, lng: picked.2, label: picked.0 }),
        )
        &&& f.results@.len() == 0
        &&& r matches UiCommand::Picked { scenario, name, lat, lng } && scenario
            == o.selected_scenario && name == picked.0 && lat == picked.1 && lng == picked.2
    }
}

/// What a click with action `a` does to state `o`, giving state `f` and
/// command `r`.
pub open spec fn click_spec(o: AppState, f: AppState, a: ClickAction, r: UiCommand) -> bool {
    match a {
        ClickAction::Tab(k) => {
            &&& same_but(o, f, false, true, false, false, false, false, false, false, false)
            &&& f.selected_scenario == k
            &&& r is Render
        },
        ClickAction::Search => {
            &&& same_but(o, f, true, false, false, false, false, false, false, false, false)
            &&& if trim(o.query@).len() == 0 {
                notice_is(f, "請輸入地點，例如：市政府、台北車站、公司地址"@) && r is Render
            } else {
                notice_is(f, "搜尋地點中…"@) && (r matches UiCommand::Search { query } && query
                    == o.query)
            }
        },
        ClickAction::Locate => {
            &&& same_but(o, f, true, false, false, false, false, false, false, false, false)
            &&& notice_is(f, "讀取手機定位中…"@)
            &&& r matches UiCommand::Locate { key } && key == o.config.loc_key
        },
        ClickAction::RunShortcut => {
            &&& same_but(o, f, true, false, false, false, false, false, true, false, false)
            &&& f.awaiting_gps
            &&& if o.config.android_trigger_url@.len() != 0 {
                notice_is(f, "已喚起自訂定位任務；完成後回到本頁會自動套用"@) && (
                r matches UiCommand::OpenUrl { url } && url@ == o.config.android_trigger_url@)
            } else {
                notice_is(f, "已開啟定位網頁；允許定位並看到 ✓ 後切回本頁即自動套用"@) && (
                r matches UiCommand::OpenUrl { url } && url@ == locate_url_spec(
                    o.config.loc_key@,
                ))
            }
        },
        ClickAction::RefreshDevices => f == o && r is RefreshDevices,
        ClickAction::Push => {
            &&& same_but(o, f, true, false, false, false, false, false, false, false, false)
            &&& notice_is(f, "已推送設定到手環"@)
            &&& r is PushAndRender
        },
        ClickAction::Clear => if o.selected_scenario >= SCENARIO_COUNT {
            f == o && r is Nothing
        } else {
            &&& same_but(o, f, true, false, false, true, false, false, false, false, false)
            &&& f.config.coords@ == o.config.coords@.update(o.selected_scenario as int, None)
            &&& notice_is(f, "已清除此地點"@)
            &&& r is SaveAndRender
        },
        ClickAction::Pick(i) => pick_spec(o, f, i, r),
        ClickAction::Ignore => f == o && r is Nothing,
    }
}

/// What an input or change event on element `id` carrying `value` does.
pub open spec fn input_spec(o: AppState, f: AppState, id: Seq<char>, value: Seq<char>, r: UiCommand) -> bool {
    if id == EV_QUERY@ {
        same_but(o, f, false, false, true, false, false, false, false, false, false) && f.query@
            == value && r is Nothing
    } else if id == EV_TRIGGER_INPUT@ {
        same_but(o, f, false, false, false, false, true, false, false, false, false)
            && f.config.android_trigger_url@ == trim(value) && r is Save
    } else {
        f == o && r is Nothing
    }
}

/// Stores search result `i` as the selected scenario's place (`pick_station`).
pub fn pick_station(st: &mut AppState, i: usize) -> (r: UiCommand)
    ensures
        pick_spec(*old(st), *final(st), i, r),
{
    if st.selected_scenario >= SCENARIO_COUNT || i >= st.results.len() {
        return UiCommand::Nothing;
    }
    let name = st.results[i].0.clone();
    let lat = st.results[i].1;
    let lng = st.results[i].2;
    let idx = st.selected_scenario;
    st.config.coords[idx] = Some(Coord { lat, lng, label: name.clone() });
    st.results.clear();
    UiCommand::Picked { scenario: idx, name, lat, lng }
}

/// Sets the notice to a literal text.
fn notice_lit(st: &mut AppState, text: &str)
    ensures
        notice_is(*final(st), text@),
        same_but(*old(st), *final(st), true, false, false, false, false, false, false, false, false),
{
    set_notice(st, crate::text::copy_str(text));
}

/// Handles a click with action `a`.
fn handle_click(st: &mut AppState, a: ClickAction) -> (r: UiCommand)
    requires
        a is Tab ==> a->Tab_0 <= 3,
    ensures
        click_spec(*old(st), *final(st), a, r),
{
    match a {
        ClickAction::Tab(k) => {
            st.selected_scenario = k;
            UiCommand::Render
        },
        ClickAction::Search => {
            let q = crate::text::trim_str(st.query.as_str());
            if q.as_str().is_empty() {
                notice_lit(st, "請輸入地點，例如：市政府、台北車站、公司地址");
                UiCommand::Render
            } else {
                notice_lit(st, "搜尋地點中…");
                UiCommand::Search { query: st.query.clone() }
            }
        },
        ClickAction::Locate => {
            let key = st.config.loc_key.clone();
            notice_lit(st, "讀取手機定位中…");
            UiCommand::Locate { key }
        },
        ClickAction::RunShortcut => {
            let key = st.config.loc_key.clone();
            let trigger = st.config.android_trigger_url.clone();
            st.awaiting_gps = true;
            if !trigger.as_str().is_empty() {
                notice_lit(st, "已喚起自訂定位任務；完成後回到本頁會自動套用");
                UiCommand::OpenUrl { url: trigger }
            } else {
                let mut url: Vec<char> = Vec::new();
                append_str(&mut url, "https://youbike-band.w902287.workers.dev/loc?key=");
                append_str(&mut url, key.as_str());
                notice_lit(st, "已開啟定位網頁；允許定位並看到 ✓ 後切回本頁即自動套用");
                UiCommand::OpenUrl { url: string_of(&url) }
            }
        },
        ClickAction::RefreshDevices => UiCommand::RefreshDevices,
        ClickAction::Push => {
            notice_lit(st, "已推送設定到手環");
            UiCommand::PushAndRender
        },
        ClickAction::Clear => {
            let idx = st.selected_scenario;
            if idx >= SCENARIO_COUNT {
                return UiCommand::Nothing;
            }
            st.config.coords[idx] = None;
            notice_lit(st, "已清除此地點");
            UiCommand::SaveAndRender
        },
        ClickAction::Pick(i) => pick_station(st, i),
        ClickAction::Ignore => UiCommand::Nothing,
    }
}

/// Handles one UI event (`handle_ui_event`); `payload` is the event's text.
pub fn handle_ui_event(st: &mut AppState, event_id: &str, ev: UiEvent, payload: &str) -> (r: UiCommand)
    ensures
        ev == UiEvent::Click ==> click_spec(*old(st), *final(st), click_action(event_id@), r),
        (ev == UiEvent::Input || ev == UiEvent::Change) ==> input_spec(
            *old(st),
            *final(st),
            event_id@,
            input_value_spec(payload@, parsed_json(payload@)),
            r,
        ),
        ev == UiEvent::Other ==> *final(st) == *old(st) && r is Nothing,
        old(st).wf() ==> final(st).wf(),
{
    match ev {
        UiEvent::Click => {
            let a = classify_click(event_id);
            handle_click(st, a)
        },
        UiEvent::Input | UiEvent::Change => {
            let id = chars_of(event_id);
            let query_id = chars_of(EV_QUERY);
            let trigger_id = chars_of(EV_TRIGGER_INPUT);
            if crate::text::chars_eq(&id, &query_id) {
                st.query = extract_input_value(payload);
                UiCommand::Nothing
            } else if crate::text::chars_eq(&id, &trigger_id) {
                let text = extract_input_value(payload);
                st.config.android_trigger_url = crate::text::trim_str(text.as_str());
                UiCommand::Save
            } else {
                UiCommand::Nothing
            }
        },
        UiEvent::Other => UiCommand::Nothing,
    }
}

/// What the search outcome does: results stored and a notice telling how many
/// were found, or the error shown.
pub open spec fn search_notice_spec(count: nat, used: Option<Seq<char>>) -> Seq<char> {
    if count == 0 {
        "找不到這個地點；完整地址可試著只留到「號」或用路口／地標"@
    } else if used is Some {
        "原地址查無，已用「"@ + used.unwrap() + "」找到 "@ + dec_text(count) + " 個結果，點選即設定"@
    } else {
        "找到 "@ + dec_text(count) + " 個地點，點選即設定並推送"@
    }
}

/// Applies the outcome of the place search that a search click asked for:
/// the places found, with the simplified query used when the full one found
/// nothing, or the lookup's error text.
pub fn finish_search(
    st: &mut AppState,
    outcome: Result<(Vec<(String, u64, u64)>, Option<String>), String>,
)
    ensures
        outcome matches Ok(found) ==> {
            &&& same_but(*old(st), *final(st), true, false, false, false, false, true, false, false, false)
            &&& final(st).results == found.0
            &&& notice_is(
                *final(st),
                search_notice_spec(
                    found.0@.len(),
                    match found.1 {
                        Some(u) => Some(u@),
                        None => None,
                    },
                ),
            )
        },
        outcome matches Err(e) ==> {
            &&& same_but(*old(st), *final(st), true, false, false, false, false, false, false, false, false)
            &&& notice_is(*final(st), "搜尋失敗："@ + e@)
        },
{
    match outcome {
        Ok((results, used)) => {
            let count = results.len();
            st.results = results;
            let mut out: Vec<char> = Vec::new();
            if count == 0 {
                append_str(&mut out, "找不到這個地點；完整地址可試著只留到「號」或用路口／地標");
            } else {
                let digits = u64_text(count as u64);
                match used {
                    Some(u) => {
                        append_str(&mut out, "原地址查無，已用「");
                        append_str(&mut out, u.as_str());
                        append_str(&mut out, "」找到 ");
                        append_chars(&mut out, &digits);
                        append_str(&mut out, " 個結果，點選即設定");
                    },
                    None => {
                        append_str(&mut out, "找到 ");
                        append_chars(&mut out, &digits);
                        append_str(&mut out, " 個地點，點選即設定並推送");
                    },
                }
            }
            st.notice = Some(string_of(&out));
        },
        Err(e) => {
            let mut out: Vec<char> = Vec::new();
            append_str(&mut out, "搜尋失敗：");
            append_str(&mut out, e.as_str());
            set_notice(st, string_of(&out));
        },
    }
}

/// The short form of a nearby station: name and distance.
pub open spec fn fix_piece(r: NearbyRow) -> Seq<char> {
    r.name@ + "（"@ + int_text(r.dist as int) + "m）"@
}

/// The long form of a nearby station: name, bikes, docks and distance.
pub open spec fn pick_piece(r: NearbyRow) -> Seq<char> {
    r.name@ + "（可借"@ + int_text(r.bikes as int) + " 可還"@ + int_text(r.docks as int) + "・"@
        + int_text(r.dist as int) + "m）"@
}

/// The stations near a fix, short form, joined by `；`.
pub open spec fn fix_preview_spec(rows: Seq<NearbyRow>) -> Seq<char> {
    join_seq(rows.map_values(|r: NearbyRow| fix_piece(r)), "；"@)
}

/// The stations near a picked place, long form, joined by `；`.
pub open spec fn pick_preview_spec(rows: Seq<NearbyRow>) -> Seq<char> {
    join_seq(rows.map_values(|r: NearbyRow| pick_piece(r)), "；"@)
}

/// The preview of `rows` in the short (`long == false`) or long form.
fn preview_text(rows: &Vec<NearbyRow>, long: bool) -> (r: String)
    ensures
        !long ==> r@ == fix_preview_spec(rows@),
        long ==> r@ == pick_preview_spec(rows@),
{
    let mut pieces: Vec<String> = Vec::new();
    let n = rows.len();
    for i in 0..n
        invariant
            n == rows@.len(),
            pieces@.len() == i,
            forall|j: int|
                0 <= j < i ==> #[trigger] pieces@[j]@ == (if long {
                    pick_piece(rows@[j])
                } else {
                    fix_piece(rows@[j])
                }),
    {
        let row = &rows[i];
        let mut out: Vec<char> = Vec::new();
        append_str(&mut out, row.name.as_str());
        if long {
            append_str(&mut out, "（可借");
            append_chars(&mut out, &i64_text(row.bikes));
            append_str(&mut out, " 可還");
            append_chars(&mut out, &i64_text(row.docks));
            append_str(&mut out, "・");
        } else {
            append_str(&mut out, "（");
        }
        append_chars(&mut out, &i64_text(row.dist));
        append_str(&mut out, "m）");
        pieces.push(string_of(&out));
    }
    if long {
        assert(views(pieces@) =~= rows@.map_values(|r: NearbyRow| pick_piece(r)));
    } else {
        assert(views(pieces@) =~= rows@.map_values(|r: NearbyRow| fix_piece(r)));
    }
    join(&pieces, "；")
}

/// Finishes a pick of a place for `scenario` named `name` once the stations
/// near it are known (empty when the lookup failed): stores the preview line
/// and tells what was set.
pub fn finish_pick(st: &mut AppState, scenario: usize, name: &str, nearby: &Vec<NearbyRow>)
    requires
        scenario < SCENARIO_COUNT,
    ensures
        same_but(*old(st), *final(st), true, false, false, false, false, false, false, true, false),
        final(st).preview@ == pick_preview_spec(nearby@),
        notice_is(
            *final(st),
            scenario_name_spec(scenario as int) + "已設為「"@ + name@ + "」，已推送。附近站點："@
                + if nearby@.len() == 0 {
                "（讀取中）"@
            } else {
                pick_preview_spec(nearby@)
            },
        ),
{
    let preview = preview_text(nearby, true);
    st.preview = preview.clone();
    let mut out: Vec<char> = Vec::new();
    append_str(&mut out, scenario_name(scenario));
    append_str(&mut out, "已設為「");
    append_str(&mut out, name);
    append_str(&mut out, "」，已推送。附近站點：");
    if preview.as_str().is_empty() {
        append_str(&mut out, "（讀取中）");
    } else {
        append_str(&mut out, preview.as_str());
    }
    proof {
        if nearby@.len() == 0 {
            assert(pick_preview_spec(nearby@).len() == 0);
        } else {
            lemma_join_nonempty(nearby@.map_values(|r: NearbyRow| pick_piece(r)), "；"@);
        }
    }
    set_notice(st, string_of(&out));
}

/// A join of one or more parts, each non-empty, is non-empty.
pub proof fn lemma_join_nonempty(parts: Seq<Seq<char>>, sep: Seq<char>)
    requires
        parts.len() > 0,
        parts.last().len() > 0,
    ensures
        join_seq(parts, sep).len() > 0,
{
    if parts.len() > 1 {
        assert(join_seq(parts, sep) == join_seq(parts.drop_last(), sep) + sep + parts.last());
    }
}

/// How a phone fix of age `age` seconds is described.
pub open spec fn gps_desc_spec(age: i64) -> Seq<char> {
    "手機 GPS（"@ + int_text(age as int) + " 秒前）"@
}

/// Describes a phone fix of age `age` seconds.
pub fn gps_desc(age: i64) -> (r: String)
    ensures
        r@ == gps_desc_spec(age),
{
    let mut out: Vec<char> = Vec::new();
    append_str(&mut out, "手機 GPS（");
    append_chars(&mut out, &i64_text(age));
    append_str(&mut out, " 秒前）");
    string_of(&out)
}

/// What applying a phone fix (`lat`, `lng`, described as `desc`, with the
/// stations `nearby` it) does to state `o`, giving `f`.
pub open spec fn location_spec(
    o: AppState,
    f: AppState,
    lat: u64,
    lng: u64,
    desc: Seq<char>,
    nearby: Seq<NearbyRow>,
) -> bool {
    &&& same_but(o, f, true, false, false, false, false, true, false, false, true)
    &&& f.results@.len() == 0
    &&& f.last_fix == Some((lat, lng))
    &&& notice_is(
        f,
        "定位完成："@ + desc + "。手環「附近」頁將顯示："@ + if nearby.len() == 0 {
            "讀取中"@
        } else {
            fix_preview_spec(nearby)
        },
    )
}

/// Applies a phone fix to the nearby page (`set_location_state`): clears the
/// search results, remembers the fix and tells which stations the band will
/// show. The saved scenario places are never touched.
pub fn set_location_state(
    st: &mut AppState,
    lat: u64,
    lng: u64,
    desc: &str,
    nearby: &Vec<NearbyRow>,
)
    ensures
        location_spec(*old(st), *final(st), lat, lng, desc@, nearby@),
{
    st.results.clear();
    st.last_fix = Some((lat, lng));
    let preview = preview_text(nearby, false);
    let mut out: Vec<char> = Vec::new();
    append_str(&mut out, "定位完成：");
    append_str(&mut out, desc);
    append_str(&mut out, "。手環「附近」頁將顯示：");
    if preview.as_str().is_empty() {
        append_str(&mut out, "讀取中");
    } else {
        append_str(&mut out, preview.as_str());
    }
    proof {
        if nearby@.len() == 0 {
            assert(fix_preview_spec(nearby@).len() == 0);
        } else {
            lemma_join_nonempty(nearby@.map_values(|r: NearbyRow| fix_piece(r)), "；"@);
        }
    }
    set_notice(st, string_of(&out));
}

/// The notice after a stale phone fix of age `age` seconds.
pub open spec fn stale_notice_spec(age: i64) -> Seq<char> {
    "定位太舊（"@ + int_text((age / 60) as int) + " 分鐘前），請重新執行手機捷徑後再按一次"@
}

/// Applies the outcome of reading the phone location that a locate click
/// asked for: a fix (lat bits, lng bits, age in seconds) or the lookup's
/// error text. A fix at most ten minutes old is returned, with its
/// description, for the caller to look up the stations near it and pass to
/// [`set_location_state`]; otherwise the notice says why nothing was applied.
pub fn finish_locate(st: &mut AppState, outcome: Result<(u64, u64, i64), String>) -> (r: Option<
    (u64, u64, String),
>)
    ensures
        match outcome {
            Ok(fix) => if fix.2 <= 600 {
                &&& *final(st) == *old(st)
                &&& r matches Some(a) && a.0 == fix.0 && a.1 == fix.1 && a.2@ == gps_desc_spec(fix.2)
            } else {
                &&& r is None
                &&& same_but(*old(st), *final(st), true, false, false, false, false, false, false, false, false)
                &&& notice_is(*final(st), stale_notice_spec(fix.2))
            },
            Err(e) => {
                &&& r is None
                &&& same_but(*old(st), *final(st), true, false, false, false, false, false, false, false, false)
                &&& notice_is(*final(st), e@ + "。請先執行手機定位捷徑，再按「目前位置」"@)
            },
        },
{
    match outcome {
        Ok((lat, lng, age)) => {
            if age <= 600 {
                Some((lat, lng, gps_desc(age)))
            } else {
                let mut out: Vec<char> = Vec::new();
                append_str(&mut out, "定位太舊（");
                append_chars(&mut out, &i64_text(age / 60));
                append_str(&mut out, " 分鐘前），請重新執行手機捷徑後再按一次");
                set_notice(st, string_of(&out));
                None
            }
        },
        Err(e) => {
            let mut out: Vec<char> = Vec::new();
            append_str(&mut out, e.as_str());
            append_str(&mut out, "。請先執行手機定位捷徑，再按「目前位置」");
            set_notice(st, string_of(&out));
            None
        },
    }
}

/// The install key to pull a phone fix for, when a locate was launched and
/// its fix has not been applied yet (the start of `auto_pull_gps_if_awaiting`).
pub fn gps_pull_key(st: &AppState) -> (r: Option<String>)
    ensures
        r is Some <==> st.awaiting_gps,
        r matches Some(k) ==> k == st.config.loc_key,
{
    if st.awaiting_gps {
        Some(st.config.loc_key.clone())
    } else {
        None
    }
}

/// Accepts a pulled phone fix of age `age` seconds when it is at most two
/// minutes old: stops waiting and returns the fix's description, for the
/// caller to apply with [`set_location_state`], push the configuration and
/// re-render.
pub fn finish_gps_pull(st: &mut AppState, age: i64) -> (r: Option<String>)
    ensures
        age <= 120 ==> (r matches Some(d) && d@ == gps_desc_spec(age)),
        age <= 120 ==> !final(st).awaiting_gps,
        age <= 120 ==> same_but(*old(st), *final(st), false, false, false, false, false, false, true, false, false),
        age > 120 ==> (r is None && *final(st) == *old(st)),
{
    if age <= 120 {
        st.awaiting_gps = false;
        Some(gps_desc(age))
    } else {
        None
    }
}

/// Tells how many bands were found after a refresh (the rest of the
/// refresh-devices click).
pub fn finish_refresh_devices(st: &mut AppState)
    ensures
        same_but(*old(st), *final(st), true, false, false, false, false, false, false, false, false),
        old(st).devices@.len() > 0 ==> notice_is(
            *final(st),
            "已重新整理：偵測到 "@ + dec_text(old(st).devices@.len()) + " 台手環並重新註冊監聽"@,
        ),
        old(st).devices@.len() == 0 ==> notice_is(
            *final(st),
            "仍未偵測到手環：請確認 AstroBox 首頁已連線裝置"@,
        ),
{
    let n = st.devices.len();
    let mut out: Vec<char> = Vec::new();
    if n > 0 {
        append_str(&mut out, "已重新整理：偵測到 ");
        append_chars(&mut out, &u64_text(n as u64));
        append_str(&mut out, " 台手環並重新註冊監聽");
    } else {
        append_str(&mut out, "仍未偵測到手環：請確認 AstroBox 首頁已連線裝置");
    }
    set_notice(st, string_of(&out));
}

/// Launching the phone-locate shortcut leaves the state waiting for a fix, so
/// the next render pulls the fix uploaded under the install's unchanged key.
pub proof fn law_shortcut_then_pull(o: AppState, f: AppState, r: UiCommand)
    requires
        click_spec(o, f, ClickAction::RunShortcut, r),
    ensures
        f.awaiting_gps,
        f.config.loc_key == o.config.loc_key,
        f.config.coords == o.config.coords,
{
}

/// A phone fix only feeds the nearby page: applying one never changes the
/// three saved scenario places, the selected page or the install key, and the
/// nearby page then shows the fix.
pub proof fn law_fix_keeps_scenarios(
    o: AppState,
    f: AppState,
    lat: u64,
    lng: u64,
    desc: Seq<char>,
    nearby: Seq<NearbyRow>,
    ct: CoordText,
)
    requires
        location_spec(o, f, lat, lng, desc, nearby),
    ensures
        f.config.coords == o.config.coords,
        f.selected_scenario == o.selected_scenario,
        f.config.loc_key == o.config.loc_key,
        fix_line_spec(f, ct) == m_p("最近定位："@ + ct.fix@, 14, C_GREEN@),
{
}

/// A pick stores the chosen place for the selected scenario only.
pub proof fn law_pick_targets_selected(o: AppState, f: AppState, i: usize, r: UiCommand, t: int)
    requires
        pick_spec(o, f, i, r),
        0 <= t < SCENARIO_COUNT,
        t != o.selected_scenario,
    ensures
        f.config.coords@[t] == o.config.coords@[t],
{
}

/// Clearing the selected scenario's place makes the page list that scenario
/// as unset.
pub proof fn law_clear_shows_unset(o: AppState, f: AppState, r: UiCommand, ct: CoordText)
    requires
        o.selected_scenario < SCENARIO_COUNT,
        click_spec(o, f, ClickAction::Clear, r),
    ensures
        saved_text_spec(f, ct, o.selected_scenario as int) == scenario_name_spec(
            o.selected_scenario as int,
        ) + "："@ + "未設定"@,
        saved_line_spec(f, ct, o.selected_scenario as int) == m_p(
            saved_text_spec(f, ct, o.selected_scenario as int),
            14,
            C_MUTED@,
        ),
{
}

/// Picking a named search result makes the page list it under the selected
/// scenario and leaves no result buttons.
pub proof fn law_pick_shows_label(o: AppState, f: AppState, i: usize, r: UiCommand, ct: CoordText)
    requires
        o.selected_scenario < SCENARIO_COUNT,
        i < o.results@.len(),
        o.results@[i as int].0@.len() != 0,
        pick_spec(o, f, i, r),
    ensures
        saved_text_spec(f, ct, o.selected_scenario as int) == scenario_name_spec(
            o.selected_scenario as int,
        ) + "："@ + o.results@[i as int].0@,
        results_col_spec(f).ops.len() == 4,
{
    assert(result_children(f, 0) =~= seq![]);
}

/// The text typed into the query box is what a later search click looks up
/// (when it is not blank).
pub proof fn law_typed_query_is_searched(
    o: AppState,
    m: AppState,
    f: AppState,
    typed: Seq<char>,
    r1: UiCommand,
    r2: UiCommand,
)
    requires
        input_spec(o, m, EV_QUERY@, typed, r1),
        click_spec(m, f, ClickAction::Search, r2),
        trim(typed).len() != 0,
    ensures
        r2 matches UiCommand::Search { query } && query@ == typed,
{
    reveal_strlit("query_input");
    reveal_strlit("trigger_input");
    assert(EV_QUERY@ != EV_TRIGGER_INPUT@) by {
        assert(EV_QUERY@[0] != EV_TRIGGER_INPUT@[0]);
    }
}

/// The trigger link typed into its box (trimmed) is what a later
/// phone-locate click opens; a blank link opens the locate page for the
/// install's key.
pub proof fn law_typed_trigger_is_opened(
    o: AppState,
    m: AppState,
    f: AppState,
    typed: Seq<char>,
    r1: UiCommand,
    r2: UiCommand,
)
    requires
        input_spec(o, m, EV_TRIGGER_INPUT@, typed, r1),
        click_spec(m, f, ClickAction::RunShortcut, r2),
    ensures
        trim(typed).len() != 0 ==> (r2 matches UiCommand::OpenUrl { url } && url@ == trim(typed)),
        trim(typed).len() == 0 ==> (r2 matches UiCommand::OpenUrl { url } && url@
            == locate_url_spec(o.config.loc_key@)),
{
    reveal_strlit("query_input");
    reveal_strlit("trigger_input");
    assert(EV_QUERY@ != EV_TRIGGER_INPUT@) by {
        assert(EV_QUERY@[0] != EV_TRIGGER_INPUT@[0]);
    }
}

/// The click ids of the page are told apart by their characters.
proof fn lemma_click_ids()
    ensures
        EV_TAB0@ == seq!['t', 'a', 'b', '0'],
        EV_TAB1@ == seq!['t', 'a', 'b', '1'],
        EV_TAB2@ == seq!['t', 'a', 'b', '2'],
        EV_TAB3@ == seq!['t', 'a', 'b', '3'],
        EV_SEARCH@.len() == 9 && EV_SEARCH@[0] == 'd',
        EV_LOCATE@.len() == 9 && EV_LOCATE@[0] == 'l',
        EV_RUN_SHORTCUT@.len() == 12 && EV_RUN_SHORTCUT@[0] == 'r' && EV_RUN_SHORTCUT@[1] == 'u',
        EV_REFRESH_DEV@.len() == 11 && EV_REFRESH_DEV@[0] == 'r' && EV_REFRESH_DEV@[1] == 'e',
        EV_PUSH@.len() == 8 && EV_PUSH@[0] == 'p',
        EV_CLEAR@.len() == 13 && EV_CLEAR@[0] == 'c',
{
    reveal_strlit("tab0");
    reveal_strlit("tab1");
    reveal_strlit("tab2");
    reveal_strlit("tab3");
    reveal_strlit("do_search");
    reveal_strlit("locate_me");
    reveal_strlit("run_shortcut");
    reveal_strlit("refresh_dev");
    reveal_strlit("push_now");
    reveal_strlit("clear_current");
    assert(EV_TAB0@ =~= seq!['t', 'a', 'b', '0']);
    assert(EV_TAB1@ =~= seq!['t', 'a', 'b', '1']);
    assert(EV_TAB2@ =~= seq!['t', 'a', 'b', '2']);
    assert(EV_TAB3@ =~= seq!['t', 'a', 'b', '3']);
}

/// A click on the tab whose id is `tab<k>` (`k < 4`) selects page `k`, and
/// tab `k` of the page carries exactly that id: clicking the `k`-th tab shows
/// page `k`.
pub proof fn law_tab_click_selects_page(st: AppState, k: usize, f: AppState, r: UiCommand)
    requires
        k < 4,
        click_spec(st, f, click_action(seq!['t', 'a', 'b'] + dec_text(k as nat)), r),
    ensures
        click_action(seq!['t', 'a', 'b'] + dec_text(k as nat)) == ClickAction::Tab(k),
        f.selected_scenario == k,
        tabs_spec(st).ops[4 + k] matches OpModel::Child(b) && b.ops[3] == OpModel::On(
            UiEvent::Click,
            seq!['t', 'a', 'b'] + dec_text(k as nat),
        ),
{
    lemma_click_ids();
    let id = seq!['t', 'a', 'b'] + dec_text(k as nat);
    assert(dec_text(k as nat) == seq![digit_char(k as nat)]);
    assert(id =~= seq!['t', 'a', 'b', digit_char(k as nat)]);
    if k == 0 {
        assert(id =~= EV_TAB0@);
    } else if k == 1 {
        assert(id =~= EV_TAB1@);
        assert(id != EV_TAB0@) by { assert(id[3] != EV_TAB0@[3]); }
    } else if k == 2 {
        assert(id =~= EV_TAB2@);
        assert(id != EV_TAB0@) by { assert(id[3] != EV_TAB0@[3]); }
        assert(id != EV_TAB1@) by { assert(id[3] != EV_TAB1@[3]); }
    } else {
        assert(id =~= EV_TAB3@);
        assert(id != EV_TAB0@) by { assert(id[3] != EV_TAB0@[3]); }
        assert(id != EV_TAB1@) by { assert(id[3] != EV_TAB1@[3]); }
        assert(id != EV_TAB2@) by { assert(id[3] != EV_TAB2@[3]); }
    }
}

/// Child `i` of element `e`'s builder calls, if that call adds a child.
pub open spec fn child_at(e: ElementModel, i: int) -> Option<ElementModel> {
    match e.ops[i] {
        OpModel::Child(c) => Some(c),
        _ => None,
    }
}

/// The click id registered by builder call `i` of `e`, if it registers one.
pub open spec fn click_id_at(e: ElementModel, i: int) -> Option<Seq<char>> {
    match e.ops[i] {
        OpModel::On(UiEvent::Click, id) => Some(id),
        _ => None,
    }
}

/// On a scenario page the search row's button carries a click id that a
/// click reads back as the search; on the nearby page its two buttons read
/// back as the phone-locate shortcut and the locate.
pub proof fn law_search_row_buttons(st: AppState, ct: CoordText)
    ensures
        st.selected_scenario != 3 ==> {
            &&& child_at(search_row_spec(st, ct), 5) is Some
            &&& click_id_at(child_at(search_row_spec(st, ct), 5).unwrap(), 3) is Some
            &&& click_action(click_id_at(child_at(search_row_spec(st, ct), 5).unwrap(), 3).unwrap())
                == ClickAction::Search
        },
        st.selected_scenario == 3 ==> {
            let row = child_at(search_row_spec(st, ct), 6).unwrap();
            &&& child_at(search_row_spec(st, ct), 6) is Some
            &&& child_at(row, 3) is Some && child_at(row, 4) is Some
            &&& click_id_at(child_at(row, 3).unwrap(), 3) is Some
            &&& click_id_at(child_at(row, 4).unwrap(), 3) is Some
            &&& click_action(click_id_at(child_at(row, 3).unwrap(), 3).unwrap())
                == ClickAction::RunShortcut
            &&& click_action(click_id_at(child_at(row, 4).unwrap(), 3).unwrap())
                == ClickAction::Locate
        },
{
    lemma_click_ids();
    assert(EV_SEARCH@ != EV_TAB0@) by { assert(EV_SEARCH@[0] != EV_TAB0@[0]); }
    assert(EV_SEARCH@ != EV_TAB1@) by { assert(EV_SEARCH@[0] != EV_TAB1@[0]); }
    assert(EV_SEARCH@ != EV_TAB2@) by { assert(EV_SEARCH@[0] != EV_TAB2@[0]); }
    assert(EV_SEARCH@ != EV_TAB3@) by { assert(EV_SEARCH@[0] != EV_TAB3@[0]); }
    assert(EV_LOCATE@ != EV_TAB0@) by { assert(EV_LOCATE@[0] != EV_TAB0@[0]); }
    assert(EV_LOCATE@ != EV_TAB1@) by { assert(EV_LOCATE@[0] != EV_TAB1@[0]); }
    assert(EV_LOCATE@ != EV_TAB2@) by { assert(EV_LOCATE@[0] != EV_TAB2@[0]); }
    assert(EV_LOCATE@ != EV_TAB3@) by { assert(EV_LOCATE@[0] != EV_TAB3@[0]); }
    assert(EV_LOCATE@ != EV_SEARCH@) by { assert(EV_LOCATE@[0] != EV_SEARCH@[0]); }
    assert(EV_RUN_SHORTCUT@ != EV_TAB0@) by { assert(EV_RUN_SHORTCUT@[0] != EV_TAB0@[0]); }
    assert(EV_RUN_SHORTCUT@ != EV_TAB1@) by { assert(EV_RUN_SHORTCUT@[0] != EV_TAB1@[0]); }
    assert(EV_RUN_SHORTCUT@ != EV_TAB2@) by { assert(EV_RUN_SHORTCUT@[0] != EV_TAB2@[0]); }
    assert(EV_RUN_SHORTCUT@ != EV_TAB3@) by { assert(EV_RUN_SHORTCUT@[0] != EV_TAB3@[0]); }
    assert(EV_RUN_SHORTCUT@ != EV_SEARCH@) by { assert(EV_RUN_SHORTCUT@[0] != EV_SEARCH@[0]); }
    assert(EV_RUN_SHORTCUT@ != EV_LOCATE@) by { assert(EV_RUN_SHORTCUT@[0] != EV_LOCATE@[0]); }
}

/// The refresh, push and clear buttons carry click ids that a click reads
/// back as refreshing the bands, pushing the configuration and clearing the
/// selected place.
pub proof fn law_action_buttons(st: AppState)
    ensures
        child_at(device_row_spec(st), 5) is Some,
        click_id_at(child_at(device_row_spec(st), 5).unwrap(), 3) is Some,
        click_action(click_id_at(child_at(device_row_spec(st), 5).unwrap(), 3).unwrap())
            == ClickAction::RefreshDevices,
        child_at(actions_spec(st), 4) is Some,
        click_id_at(child_at(actions_spec(st), 4).unwrap(), 3) is Some,
        click_action(click_id_at(child_at(actions_spec(st), 4).unwrap(), 3).unwrap())
            == ClickAction::Push,
        child_at(actions_spec(st), 5) is Some,
        click_id_at(child_at(actions_spec(st), 5).unwrap(), 3) is Some,
        click_action(click_id_at(child_at(actions_spec(st), 5).unwrap(), 3).unwrap())
            == ClickAction::Clear,
{
    lemma_click_ids();
    assert(EV_REFRESH_DEV@ != EV_TAB0@) by { assert(EV_REFRESH_DEV@[0] != EV_TAB0@[0]); }
    assert(EV_REFRESH_DEV@ != EV_TAB1@) by { assert(EV_REFRESH_DEV@[0] != EV_TAB1@[0]); }
    assert(EV_REFRESH_DEV@ != EV_TAB2@) by { assert(EV_REFRESH_DEV@[0] != EV_TAB2@[0]); }
    assert(EV_REFRESH_DEV@ != EV_TAB3@) by { assert(EV_REFRESH_DEV@[0] != EV_TAB3@[0]); }
    assert(EV_REFRESH_DEV@ != EV_SEARCH@) by { assert(EV_REFRESH_DEV@[0] != EV_SEARCH@[0]); }
    assert(EV_REFRESH_DEV@ != EV_LOCATE@) by { assert(EV_REFRESH_DEV@[0] != EV_LOCATE@[0]); }
    assert(EV_REFRESH_DEV@ != EV_RUN_SHORTCUT@) by { assert(EV_REFRESH_DEV@[1] != EV_RUN_SHORTCUT@[1]); }
    assert(EV_PUSH@ != EV_TAB0@) by { assert(EV_PUSH@[0] != EV_TAB0@[0]); }
    assert(EV_PUSH@ != EV_TAB1@) by { assert(EV_PUSH@[0] != EV_TAB1@[0]); }
    assert(EV_PUSH@ != EV_TAB2@) by { assert(EV_PUSH@[0] != EV_TAB2@[0]); }
    assert(EV_PUSH@ != EV_TAB3@) by { assert(EV_PUSH@[0] != EV_TAB3@[0]); }
    assert(EV_PUSH@ != EV_SEARCH@) by { assert(EV_PUSH@[0] != EV_SEARCH@[0]); }
    assert(EV_PUSH@ != EV_LOCATE@) by { assert(EV_PUSH@[0] != EV_LOCATE@[0]); }
    assert(EV_PUSH@ != EV_RUN_SHORTCUT@) by { assert(EV_PUSH@[0] != EV_RUN_SHORTCUT@[0]); }
    assert(EV_PUSH@ != EV_REFRESH_DEV@) by { assert(EV_PUSH@[0] != EV_REFRESH_DEV@[0]); }
    assert(EV_CLEAR@ != EV_TAB0@) by { assert(EV_CLEAR@[0] != EV_TAB0@[0]); }
    assert(EV_CLEAR@ != EV_TAB1@) by { assert(EV_CLEAR@[0] != EV_TAB1@[0]); }
    assert(EV_CLEAR@ != EV_TAB2@) by { assert(EV_CLEAR@[0] != EV_TAB2@[0]); }
    assert(EV_CLEAR@ != EV_TAB3@) by { assert(EV_CLEAR@[0] != EV_TAB3@[0]); }
    assert(EV_CLEAR@ != EV_SEARCH@) by { assert(EV_CLEAR@[0] != EV_SEARCH@[0]); }
    assert(EV_CLEAR@ != EV_LOCATE@) by { assert(EV_CLEAR@[0] != EV_LOCATE@[0]); }
    assert(EV_CLEAR@ != EV_RUN_SHORTCUT@) by { assert(EV_CLEAR@[0] != EV_RUN_SHORTCUT@[0]); }
    assert(EV_CLEAR@ != EV_REFRESH_DEV@) by { assert(EV_CLEAR@[0] != EV_REFRESH_DEV@[0]); }
    assert(EV_CLEAR@ != EV_PUSH@) by { assert(EV_CLEAR@[0] != EV_PUSH@[0]); }
}

} // verus!
