//! YouBike station search and the nearest-stations reply.
//!
//! The caller downloads the station list and reads each station's fields,
//! including the floating-point coordinates and the distances computed from
//! them; this module filters, orders and answers. A coordinate is carried as
//! the IEEE-754 bit pattern of its `f64` value, and a distance's order key is
//! the bit pattern of the (non-negative) distance, which orders as the
//! distance does.
use vstd::prelude::*;
use crate::json::{Json, JsonModel, json_text, get_spec, as_str_spec, parsed_json_bytes, entry_models, item_models, lemma_entry_models, lemma_item_models};
use crate::text::{
    chars_of, string_of, append_str, append_chars, replace, replace_all, trim, contains_seq,
    parse_i64_spec, dec_text, int_text, ascii_text, ascii_lower_seq, ascii_upper_seq, trim_start,
};
use crate::state::{scenario_name, scenario_name_spec, SCENARIO_COUNT};

verus! {

/// A station near a place: name, bikes to rent, free docks, distance in metres.
pub struct NearbyRow {
    pub name: String,
    pub bikes: i64,
    pub docks: i64,
    pub dist: i64,
}

/// The text `str::to_lowercase` makes of `s`.
pub uninterp spec fn lowercase(s: Seq<char>) -> Seq<char>;

/// `str::to_lowercase`: the Unicode lower-case form of `s` (the Unicode
/// Character Database's lower-case mapping of each character, with the final
/// sigma rule). For ASCII text that mapping is the ASCII one: `A`..`Z` become
/// `a`..`z`, every other ASCII character stays; nothing more is claimed of
/// other text.
#[verifier::external_body]
fn to_lowercase(s: &str) -> (r: String)
    ensures
        r@ == lowercase(s@),
        ascii_text(s@) ==> r@ == ascii_lower_seq(s@),
{
    s.to_lowercase()
}

/// A coordinate that compares equal to `0.0` (positive or negative zero).
pub open spec fn is_zero_coord(bits: u64) -> bool {
    bits == 0 || bits == 0x8000_0000_0000_0000u64
}

/// Whether a coordinate compares equal to `0.0`.
pub fn zero_coord(bits: u64) -> (r: bool)
    ensures
        r == is_zero_coord(bits),
{
    bits == 0 || bits == 0x8000_0000_0000_0000u64
}

/// A station name without the `YouBike2.0_` and `YouBike1.0_` markers.
pub open spec fn clean_name(raw: Seq<char>) -> Seq<char> {
    replace_all(replace_all(raw, "YouBike2.0_"@, seq![]), "YouBike1.0_"@, seq![])
}

/// Removes the `YouBike2.0_` and `YouBike1.0_` markers from a station name.
pub fn clean_station_name(raw: &str) -> (r: String)
    ensures
        r@ == clean_name(raw@),
{
    let empty: Vec<char> = Vec::new();
    let a = replace(&chars_of(raw), &chars_of("YouBike2.0_"), &empty);
    let b = replace(&a, &chars_of("YouBike1.0_"), &empty);
    assert(empty@ =~= seq![]);
    string_of(&b)
}

/// The fields of one listed station that a search reads: the raw name
/// (`sna`, empty when absent), the district (`sarea`, empty when absent) and
/// the coordinates (zero when absent or unreadable).
pub struct StationFields {
    pub name: String,
    pub area: String,
    pub lat: u64,
    pub lng: u64,
}

/// The keyword as searched: trimmed and lower-cased (for ASCII text, the
/// ASCII lower-case form).
pub open spec fn search_keyword(keyword: Seq<char>) -> Seq<char> {
    if ascii_text(trim(keyword)) {
        ascii_lower_seq(trim(keyword))
    } else {
        lowercase(trim(keyword))
    }
}

/// Station `s` matches keyword `kw` (already trimmed and lower-cased) and has
/// both coordinates.
pub open spec fn station_hit(s: StationFields, kw: Seq<char>) -> bool {
    &&& (kw.len() == 0 || contains_seq(
        lowercase(clean_name(s.name@)) + " "@ + lowercase(s.area@),
        kw,
    ))
    &&& !is_zero_coord(s.lat)
    &&& !is_zero_coord(s.lng)
}

/// A search hit: cleaned name, coordinates, district.
pub open spec fn hit_of(s: StationFields) -> (Seq<char>, u64, u64, Seq<char>) {
    (clean_name(s.name@), s.lat, s.lng, s.area@)
}

/// All hits among `ss`, in list order.
pub open spec fn hits(ss: Seq<StationFields>, kw: Seq<char>) -> Seq<(Seq<char>, u64, u64, Seq<char>)>
    decreases ss.len(),
{
    if ss.len() == 0 {
        seq![]
    } else if station_hit(ss.last(), kw) {
        hits(ss.drop_last(), kw).push(hit_of(ss.last()))
    } else {
        hits(ss.drop_last(), kw)
    }
}

/// The hits of a prefix of the list are a prefix of all hits.
pub proof fn lemma_hits_prefix(ss: Seq<StationFields>, kw: Seq<char>, i: int)
    requires
        0 <= i <= ss.len(),
    ensures
        hits(ss.take(i), kw).len() <= hits(ss, kw).len(),
        hits(ss.take(i), kw) == hits(ss, kw).take(hits(ss.take(i), kw).len() as int),
    decreases ss.len() - i,
{
    if i == ss.len() {
        assert(ss.take(i) =~= ss);
        assert(hits(ss, kw).take(hits(ss, kw).len() as int) =~= hits(ss, kw));
    } else {
        lemma_hits_prefix(ss, kw, i + 1);
        assert(ss.take(i + 1).drop_last() =~= ss.take(i));
        let a = hits(ss.take(i), kw);
        let b = hits(ss.take(i + 1), kw);
        let all = hits(ss, kw);
        if station_hit(ss[i], kw) {
            assert(b == a.push(hit_of(ss[i])));
            assert(a =~= b.take(a.len() as int));
            assert(all.take(b.len() as int).take(a.len() as int) =~= all.take(a.len() as int));
        } else {
            assert(b == a);
        }
    }
}

/// The views of search results.
pub open spec fn result_views(v: Seq<(String, u64, u64, String)>) -> Seq<(Seq<char>, u64, u64, Seq<char>)> {
    v.map_values(|h: (String, u64, u64, String)| (h.0@, h.1, h.2, h.3@))
}

/// Filters the station list by `keyword` (the computing half of `search`):
/// the first `limit` hits in list order, or all of them when there are fewer.
pub fn filter_stations(stations: &Vec<StationFields>, keyword: &str, limit: usize) -> (r: Vec<
    (String, u64, u64, String),
>)
    ensures
        result_views(r@) == hits(stations@, search_keyword(keyword@)).take(
            if hits(stations@, search_keyword(keyword@)).len() < limit {
                hits(stations@, search_keyword(keyword@)).len() as int
            } else {
                limit as int
            },
        ),
{
    let kw_s = to_lowercase(crate::text::trim_str(keyword).as_str());
    let kw = chars_of(kw_s.as_str());
    let ghost k = search_keyword(keyword@);
    let ghost all = hits(stations@, k);
    let mut out: Vec<(String, u64, u64, String)> = Vec::new();
    if limit == 0 {
        assert(all.take(0) =~= seq![]);
        return out;
    }
    let n = stations.len();
    let mut i: usize = 0;
    while i < n
        invariant
            n == stations@.len(),
            i <= n,
            kw@ == k,
            k == search_keyword(keyword@),
            all == hits(stations@, k),
            result_views(out@) == hits(stations@.take(i as int), k),
            out@.len() < limit,
        decreases n - i,
    {
        let s = &stations[i];
        let name = clean_station_name(s.name.as_str());
        let mut matched = true;
        if kw.len() > 0 {
            let mut hay: Vec<char> = Vec::new();
            append_str(&mut hay, to_lowercase(name.as_str()).as_str());
            append_str(&mut hay, " ");
            append_str(&mut hay, to_lowercase(s.area.as_str()).as_str());
            matched = crate::text::contains(&hay, &kw);
        }
        let hit = matched && !zero_coord(s.lat) && !zero_coord(s.lng);
        assert(stations@.take(i + 1).drop_last() =~= stations@.take(i as int));
        assert(hit == station_hit(stations@[i as int], k));
        if hit {
            out.push((name, s.lat, s.lng, s.area.clone()));
            assert(result_views(out@) =~= hits(stations@.take(i + 1), k));
            if out.len() >= limit {
                proof {
                    lemma_hits_prefix(stations@, k, i + 1);
                }
                return out;
            }
        } else {
            assert(result_views(out@) =~= hits(stations@.take(i + 1), k));
        }
        i = i + 1;
    }
    assert(stations@.take(n as int) =~= stations@);
    assert(all.take(all.len() as int) =~= all);
    out
}

/// The fields of one listed station that the nearest-stations reply reads:
/// the raw name (`sna`, empty when absent), the coordinates (zero when absent
/// or unreadable), the `available_rent_bikes` and `available_return_bikes`
/// counts, and the distance from the scenario's place as an order key and in
/// whole metres.
pub struct RawStation {
    pub name: String,
    pub lat: u64,
    pub lng: u64,
    pub bikes: i64,
    pub docks: i64,
    pub dist_key: u64,
    pub dist_m: i64,
}

/// A count member: an integer, or a string holding one; zero otherwise.
pub open spec fn count_spec(v: Option<JsonModel>) -> int {
    match v {
        Some(JsonModel::Number(t)) => match parse_i64_spec(t) {
            Some(n) => n,
            None => 0,
        },
        Some(JsonModel::Str(t)) => match parse_i64_spec(t) {
            Some(n) => n,
            None => 0,
        },
        _ => 0,
    }
}

/// Reads the count member `key` of a station (`as_i64`, else a string parsed
/// as `i64`, else 0).
pub fn count_value(s: &Json, key: &str) -> (r: i64)
    ensures
        r as int == count_spec(get_spec(s@, key@)),
{
    match s.get(key) {
        Some(Json::Number(t)) => match crate::text::parse_i64(&chars_of(t.as_str())) {
            Some(n) => n,
            None => 0,
        },
        Some(Json::Str(t)) => match crate::text::parse_i64(&chars_of(t.as_str())) {
            Some(n) => n,
            None => 0,
        },
        _ => 0,
    }
}

/// A text member: its string, empty when absent or not a string.
pub open spec fn str_field_spec(s: JsonModel, key: Seq<char>) -> Seq<char> {
    match as_str_spec(get_spec(s, key)) {
        Some(t) => t,
        None => seq![],
    }
}

/// Reads the text member `key` of a station (empty when absent or not a
/// string).
pub fn str_field(s: &Json, key: &str) -> (r: String)
    ensures
        r@ == str_field_spec(s@, key@),
{
    match s.get(key) {
        Some(v) => match v.as_str() {
            Some(t) => t.clone(),
            None => String::new(),
        },
        None => String::new(),
    }
}

/// The search fields of listed station `s`, whose coordinates (read by the
/// caller, as floating point) are `lat` and `lng`.
pub fn station_fields(s: &Json, lat: u64, lng: u64) -> (r: StationFields)
    ensures
        r.name@ == str_field_spec(s@, "sna"@),
        r.area@ == str_field_spec(s@, "sarea"@),
        r.lat == lat,
        r.lng == lng,
{
    StationFields { name: str_field(s, "sna"), area: str_field(s, "sarea"), lat, lng }
}

/// The reply fields of listed station `s`, whose coordinates and distance
/// (worked out by the caller, as floating point) are given.
pub fn raw_station(s: &Json, lat: u64, lng: u64, dist_key: u64, dist_m: i64) -> (r: RawStation)
    ensures
        r.name@ == str_field_spec(s@, "sna"@),
        r.bikes as int == count_spec(get_spec(s@, "available_rent_bikes"@)),
        r.docks as int == count_spec(get_spec(s@, "available_return_bikes"@)),
        r.lat == lat,
        r.lng == lng,
        r.dist_key == dist_key,
        r.dist_m == dist_m,
{
    RawStation {
        name: str_field(s, "sna"),
        lat,
        lng,
        bikes: count_value(s, "available_rent_bikes"),
        docks: count_value(s, "available_return_bikes"),
        dist_key,
        dist_m,
    }
}

/// Why a downloaded station list could not be read.
pub enum ListError {
    /// The body is not JSON; the parser's error text.
    BadJson(String),
    /// The body is JSON but not an array.
    BadShape,
}

/// Reads the downloaded station list: the items of the JSON array in `body`,
/// an error when `body` is not JSON or not an array.
pub fn station_items(body: &[u8]) -> (r: Result<Vec<Json>, ListError>)
    ensures
        match parsed_json_bytes(body@) {
            Err(e) => r matches Err(ListError::BadJson(m)) && m@ == e,
            Ok(JsonModel::Array(items)) => r matches Ok(v) && item_models(v@) == items,
            Ok(_) => r matches Err(ListError::BadShape),
        },
{
    match crate::json::parse_json_bytes(body) {
        Err(e) => Err(ListError::BadJson(e)),
        Ok(Json::Array(items)) => Ok(items),
        Ok(_) => Err(ListError::BadShape),
    }
}

/// The error a station search reports for a list that could not be read.
pub fn search_list_error(e: &ListError) -> (r: String)
    ensures
        e matches ListError::BadJson(m) ==> r@ == "json failed: "@ + m@,
        e is BadShape ==> r@ == "unexpected shape"@,
{
    match e {
        ListError::BadJson(m) => {
            let mut out: Vec<char> = Vec::new();
            append_str(&mut out, "json failed: ");
            append_str(&mut out, m.as_str());
            string_of(&out)
        },
        ListError::BadShape => crate::text::copy_str("unexpected shape"),
    }
}

/// The reply text for a stations request whose list could not be read.
pub fn list_error_reply(scenario: usize, e: &ListError) -> (r: String)
    ensures
        e is BadJson ==> r@ == json_text(stations_error_model(scenario, "bad-json"@)),
        e is BadShape ==> r@ == json_text(stations_error_model(scenario, "bad-shape"@)),
{
    match e {
        ListError::BadJson(_) => stations_error_reply(scenario, "bad-json"),
        ListError::BadShape => stations_error_reply(scenario, "bad-shape"),
    }
}

/// A station row with its order key: key, name, bikes, docks, metres.
pub type RowModel = (u64, Seq<char>, int, int, int);

/// The row of a station.
pub open spec fn row_of(s: RawStation) -> RowModel {
    (
        s.dist_key,
        clean_name(s.name@),
        s.bikes as int,
        s.docks as int,
        s.dist_m as int,
    )
}

/// The rows of the stations that have both coordinates, in list order.
pub open spec fn located_rows(ss: Seq<RawStation>) -> Seq<RowModel>
    decreases ss.len(),
{
    if ss.len() == 0 {
        seq![]
    } else if !is_zero_coord(ss.last().lat) && !is_zero_coord(ss.last().lng) {
        located_rows(ss.drop_last()).push(row_of(ss.last()))
    } else {
        located_rows(ss.drop_last())
    }
}

/// `x` inserted into `s` after every row whose key is not larger.
pub open spec fn insert_by_key(s: Seq<RowModel>, x: RowModel) -> Seq<RowModel>
    decreases s.len(),
{
    if s.len() == 0 {
        seq![x]
    } else if x.0 < s.last().0 {
        insert_by_key(s.drop_last(), x).push(s.last())
    } else {
        s.push(x)
    }
}

/// `s` in ascending key order, rows with equal keys in the order they came
/// (a stable sort).
pub open spec fn sort_by_key(s: Seq<RowModel>) -> Seq<RowModel>
    decreases s.len(),
{
    if s.len() == 0 {
        seq![]
    } else {
        insert_by_key(sort_by_key(s.drop_last()), s.last())
    }
}

/// Keys ascend along `s`.
pub open spec fn keys_ascend(s: Seq<RowModel>) -> bool {
    forall|i: int, j: int| 0 <= i <= j < s.len() ==> #[trigger] s[i].0 <= #[trigger] s[j].0
}

/// The view of a keyed row.
pub open spec fn keyed_view(r: (u64, NearbyRow)) -> RowModel {
    (r.0, r.1.name@, r.1.bikes as int, r.1.docks as int, r.1.dist as int)
}

/// The views of keyed rows.
pub open spec fn keyed_views(v: Seq<(u64, NearbyRow)>) -> Seq<RowModel> {
    v.map_values(|r: (u64, NearbyRow)| keyed_view(r))
}

/// Inserts `x` after every row of `v` whose key is not larger.
fn insert_row(v: &mut Vec<(u64, NearbyRow)>, x: (u64, NearbyRow))
    ensures
        keyed_views(final(v)@) == insert_by_key(keyed_views(old(v)@), keyed_view(x)),
{
    let ghost s = keyed_views(v@);
    let ghost xm = keyed_view(x);
    let mut p = v.len();
    assert(s.take(p as int) =~= s);
    assert(s.skip(p as int) =~= seq![]);
    while p > 0 && x.0 < v[p - 1].0
        invariant
            p <= v@.len(),
            s == keyed_views(v@),
            xm == keyed_view(x),
            insert_by_key(s, xm) == insert_by_key(s.take(p as int), xm) + s.skip(p as int),
        decreases p,
    {
        assert(s.take(p as int).drop_last() =~= s.take(p - 1));
        assert(s.take(p as int).last() == s[p - 1]);
        assert(s.skip(p - 1) =~= seq![s[p - 1]] + s.skip(p as int));
        assert(insert_by_key(s.take(p as int), xm) == insert_by_key(s.take(p - 1), xm).push(s[p - 1]));
        assert(insert_by_key(s.take(p - 1), xm).push(s[p - 1]) + s.skip(p as int) =~= insert_by_key(
            s.take(p - 1),
            xm,
        ) + s.skip(p - 1));
        p = p - 1;
    }
    if p > 0 {
        assert(s.take(p as int).last() == s[p - 1]);
        assert(insert_by_key(s.take(p as int), xm) == s.take(p as int).push(xm));
    } else {
        assert(s.take(0) =~= seq![]);
    }
    v.insert(p, x);
    assert(keyed_views(v@) =~= s.take(p as int).push(xm) + s.skip(p as int));
}

/// The rows of the located stations, nearest first (a stable sort by the
/// distance key), at most `count` of them.
pub fn nearest_rows(stations: &Vec<RawStation>, count: usize) -> (r: Vec<NearbyRow>)
    ensures
        r@.len() == if sort_by_key(located_rows(stations@)).len() < count {
            sort_by_key(located_rows(stations@)).len()
        } else {
            count as nat
        },
        forall|j: int|
            0 <= j < r@.len() ==> keyed_view((#[trigger] sort_by_key(located_rows(stations@))[j].0, r@[j]))
                == sort_by_key(located_rows(stations@))[j],
{
    let mut sorted: Vec<(u64, NearbyRow)> = Vec::new();
    let n = stations.len();
    for i in 0..n
        invariant
            n == stations@.len(),
            keyed_views(sorted@) == sort_by_key(located_rows(stations@.take(i as int))),
    {
        let s = &stations[i];
        assert(stations@.take(i + 1).drop_last() =~= stations@.take(i as int));
        if !zero_coord(s.lat) && !zero_coord(s.lng) {
            let row = NearbyRow {
                name: clean_station_name(s.name.as_str()),
                bikes: s.bikes,
                docks: s.docks,
                dist: s.dist_m,
            };
            let ghost prev = located_rows(stations@.take(i as int));
            assert(located_rows(stations@.take(i + 1)) == prev.push(row_of(stations@[i as int])));
            assert(prev.push(row_of(stations@[i as int])).drop_last() =~= prev);
            assert(keyed_view((s.dist_key, row)) == row_of(stations@[i as int]));
            insert_row(&mut sorted, (s.dist_key, row));
        } else {
            assert(located_rows(stations@.take(i + 1)) == located_rows(stations@.take(i as int)));
        }
    }
    assert(stations@.take(n as int) =~= stations@);
    let ghost all = sort_by_key(located_rows(stations@));
    let mut out: Vec<NearbyRow> = Vec::new();
    let m = if sorted.len() < count {
        sorted.len()
    } else {
        count
    };
    for j in 0..m
        invariant
            m <= sorted@.len(),
            keyed_views(sorted@) == all,
            out@.len() == j,
            forall|t: int| 0 <= t < j ==> keyed_view((all[t].0, #[trigger] out@[t])) == all[t],
    {
        let row = &sorted[j].1;
        out.push(NearbyRow { name: row.name.clone(), bikes: row.bikes, docks: row.docks, dist: row.dist });
        assert(keyed_views(sorted@)[j as int] == keyed_view(sorted@[j as int]));
    }
    out
}

/// The saved place of `scenario` that a stations request is answered for
/// (the start of `reply_stations`).
pub fn reply_origin(st: &crate::state::AppState, scenario: usize) -> (r: Option<crate::state::Coord>)
    requires
        scenario < SCENARIO_COUNT,
    ensures
        r == st.config.coords@[scenario as int],
{
    crate::state::duplicate_opt(&st.config.coords[scenario])
}

/// The JSON object of one station in a reply.
pub open spec fn row_object(r: NearbyRow) -> JsonModel {
    JsonModel::Object(
        seq![
            ("bikes"@, JsonModel::Number(int_text(r.bikes as int))),
            ("dist"@, JsonModel::Number(int_text(r.dist as int))),
            ("docks"@, JsonModel::Number(int_text(r.docks as int))),
            ("name"@, JsonModel::Str(r.name@)),
        ],
    )
}

/// The reply listing `rows` for `scenario`.
pub open spec fn stations_reply_model(scenario: usize, rows: Seq<NearbyRow>) -> JsonModel {
    JsonModel::Object(
        seq![
            ("scenario"@, JsonModel::Number(dec_text(scenario as nat))),
            ("source"@, JsonModel::Str(scenario_name_spec(scenario as int))),
            ("stations"@, JsonModel::Array(rows.map_values(|r: NearbyRow| row_object(r)))),
            ("tag"@, JsonModel::Str("stations"@)),
        ],
    )
}

/// The reply telling that `scenario` could not be answered.
pub open spec fn stations_error_model(scenario: usize, error: Seq<char>) -> JsonModel {
    JsonModel::Object(
        seq![
            ("error"@, JsonModel::Str(error)),
            ("scenario"@, JsonModel::Number(dec_text(scenario as nat))),
            ("tag"@, JsonModel::Str("stations"@)),
        ],
    )
}

fn number_of_u64(n: u64) -> (r: Json)
    ensures
        r@ == JsonModel::Number(dec_text(n as nat)),
{
    Json::Number(string_of(&crate::text::u64_text(n)))
}

fn number_of_i64(n: i64) -> (r: Json)
    ensures
        r@ == JsonModel::Number(int_text(n as int)),
{
    Json::Number(string_of(&crate::text::i64_text(n)))
}

fn row_json(r: &NearbyRow) -> (j: Json)
    ensures
        j@ == row_object(*r),
{
    let mut es: Vec<(String, Json)> = Vec::new();
    es.push((crate::text::copy_str("bikes"), number_of_i64(r.bikes)));
    es.push((crate::text::copy_str("dist"), number_of_i64(r.dist)));
    es.push((crate::text::copy_str("docks"), number_of_i64(r.docks)));
    es.push((crate::text::copy_str("name"), Json::Str(r.name.clone())));
    proof {
        lemma_entry_models(es@);
        assert(entry_models(es@) =~= row_object(*r)->Object_0);
    }
    Json::Object(es)
}

/// The reply text listing `rows` for `scenario`.
pub fn stations_reply(scenario: usize, rows: &Vec<NearbyRow>) -> (r: String)
    requires
        scenario < SCENARIO_COUNT,
    ensures
        r@ == json_text(stations_reply_model(scenario, rows@)),
{
    let mut items: Vec<Json> = Vec::new();
    let n = rows.len();
    for i in 0..n
        invariant
            n == rows@.len(),
            items@.len() == i,
            forall|t: int| 0 <= t < i ==> (#[trigger] items@[t])@ == row_object(rows@[t]),
    {
        items.push(row_json(&rows[i]));
    }
    proof {
        lemma_item_models(items@);
        assert(item_models(items@) =~= rows@.map_values(|r: NearbyRow| row_object(r)));
    }
    let mut es: Vec<(String, Json)> = Vec::new();
    es.push((crate::text::copy_str("scenario"), number_of_u64(scenario as u64)));
    es.push((crate::text::copy_str("source"), Json::Str(crate::text::copy_str(scenario_name(scenario)))));
    es.push((crate::text::copy_str("stations"), Json::Array(items)));
    es.push((crate::text::copy_str("tag"), Json::Str(crate::text::copy_str("stations"))));
    proof {
        lemma_entry_models(es@);
        assert(entry_models(es@) =~= stations_reply_model(scenario, rows@)->Object_0);
    }
    crate::json::to_text(&Json::Object(es))
}

/// The reply text telling that `scenario` could not be answered, with the
/// reason `error`.
pub fn stations_error_reply(scenario: usize, error: &str) -> (r: String)
    ensures
        r@ == json_text(stations_error_model(scenario, error@)),
{
    let mut es: Vec<(String, Json)> = Vec::new();
    es.push((crate::text::copy_str("error"), Json::Str(crate::text::copy_str(error))));
    es.push((crate::text::copy_str("scenario"), number_of_u64(scenario as u64)));
    es.push((crate::text::copy_str("tag"), Json::Str(crate::text::copy_str("stations"))));
    proof {
        lemma_entry_models(es@);
        assert(entry_models(es@) =~= stations_error_model(scenario, error@)->Object_0);
    }
    crate::json::to_text(&Json::Object(es))
}

/// The reason given when the station list answered with HTTP `code`.
pub fn http_status_error(code: u16) -> (r: String)
    ensures
        r@ == "HTTP "@ + dec_text(code as nat),
{
    let mut out: Vec<char> = Vec::new();
    append_str(&mut out, "HTTP ");
    append_chars(&mut out, &crate::text::u64_text(code as u64));
    string_of(&out)
}

/// Inserting by key keeps the rows and their ascending order.
proof fn lemma_insert_by_key(s: Seq<RowModel>, x: RowModel)
    requires
        keys_ascend(s),
    ensures
        keys_ascend(insert_by_key(s, x)),
        insert_by_key(s, x).to_multiset() == s.to_multiset().insert(x),
        insert_by_key(s, x).len() == s.len() + 1,
    decreases s.len(),
{
    broadcast use vstd::seq_lib::group_to_multiset_ensures;

    if s.len() == 0 {
        assert(insert_by_key(s, x) == seq![x]);
        assert(seq![x] =~= s.push(x));
    } else if x.0 < s.last().0 {
        let t = s.drop_last();
        assert(keys_ascend(t));
        lemma_insert_by_key(t, x);
        let u = insert_by_key(t, x);
        assert(s =~= t.push(s.last()));
        assert forall|i: int, j: int| 0 <= i <= j < u.len() + 1 implies #[trigger] u.push(s.last())[i].0
            <= #[trigger] u.push(s.last())[j].0 by {
            if j == u.len() && i < u.len() {
                assert(u.to_multiset().contains(u[i]));
                assert(u[i] == x || t.to_multiset().contains(u[i]));
                if u[i] != x {
                    let a = choose|a: int| 0 <= a < t.len() && t[a] == u[i];
                    assert(s[a] == t[a]);
                    assert(s[a].0 <= s[s.len() - 1].0);
                }
            }
        }
        assert(u.push(s.last()).to_multiset() =~= s.to_multiset().insert(x));
    } else {
        assert forall|i: int, j: int| 0 <= i <= j < s.len() + 1 implies #[trigger] s.push(x)[i].0
            <= #[trigger] s.push(x)[j].0 by {
            if j == s.len() && i < s.len() {
                assert(s[i].0 <= s[s.len() - 1].0);
            }
        }
    }
}

/// The reply lists stations nearest first: sorting by key keeps every row
/// (as a multiset) and leaves the keys ascending.
pub proof fn law_sorted_rows_ascend(s: Seq<RowModel>)
    ensures
        keys_ascend(sort_by_key(s)),
        sort_by_key(s).to_multiset() == s.to_multiset(),
        sort_by_key(s).len() == s.len(),
    decreases s.len(),
{
    broadcast use vstd::seq_lib::group_to_multiset_ensures;

    if s.len() > 0 {
        law_sorted_rows_ascend(s.drop_last());
        lemma_insert_by_key(sort_by_key(s.drop_last()), s.last());
        assert(s =~= s.drop_last().push(s.last()));
    }
}

/// A search ignores white space around the keyword and the case of ASCII
/// letters: an ASCII keyword, upper-cased and padded with spaces, finds the
/// same stations.
pub proof fn law_keyword_case_and_spaces(k: Seq<char>, stations: Seq<StationFields>)
    requires
        ascii_text(k),
    ensures
        search_keyword(seq![' ', ' '] + ascii_upper_seq(k) + seq![' ']) == search_keyword(k),
        hits(stations, search_keyword(seq![' ', ' '] + ascii_upper_seq(k) + seq![' '])) == hits(
            stations,
            search_keyword(k),
        ),
{
    let u = ascii_upper_seq(k);
    let x = seq![' ', ' '] + u + seq![' '];
    let y = u + seq![' '];
    assert(x.drop_first().drop_first() =~= y);
    assert(x[0] == ' ' && x.drop_first()[0] == ' ');
    assert(trim_start(x) == trim_start(x.drop_first()));
    assert(trim_start(x.drop_first()) == trim_start(y));
    crate::text::lemma_trim_trailing_space(u);
    crate::text::lemma_trim_ascii_upper(k);
    crate::text::lemma_trim_ascii_upper(trim_start(k));
    assert(trim(x) == ascii_upper_seq(trim(k)));
    crate::text::lemma_trim_keeps_ascii(k);
    let t = trim(k);
    assert(ascii_text(ascii_upper_seq(t))) by {
        assert forall|i: int| 0 <= i < ascii_upper_seq(t).len() implies (#[trigger] ascii_upper_seq(t)[i] as u32) < 128 by {
            assert((t[i] as u32) < 128);
        }
    }
    assert(ascii_lower_seq(ascii_upper_seq(t)) =~= ascii_lower_seq(t));
}

/// Every search hit is one of the listed stations, with that station's own
/// cleaned name, coordinates and district, and the station matches the
/// keyword and has both coordinates.
pub proof fn law_hits_come_from_stations(ss: Seq<StationFields>, kw: Seq<char>, j: int)
    requires
        0 <= j < hits(ss, kw).len(),
    ensures
        exists|i: int|
            0 <= i < ss.len() && #[trigger] station_hit(ss[i], kw) && hits(ss, kw)[j] == (
                clean_name(ss[i].name@),
                ss[i].lat,
                ss[i].lng,
                ss[i].area@,
            ),
    decreases ss.len(),
{
    let pre = ss.drop_last();
    if j < hits(pre, kw).len() {
        law_hits_come_from_stations(pre, kw, j);
        let i = choose|i: int|
            0 <= i < pre.len() && #[trigger] station_hit(pre[i], kw) && hits(pre, kw)[j] == (
                clean_name(pre[i].name@),
                pre[i].lat,
                pre[i].lng,
                pre[i].area@,
            );
        assert(pre[i] == ss[i]);
        assert(station_hit(ss[i], kw));
    } else {
        let i = ss.len() - 1;
        assert(ss[i] == ss.last());
        assert(station_hit(ss[i], kw));
    }
}

/// Every listed station that matches the keyword and has both coordinates is
/// a hit, with its own cleaned name, coordinates and district.
pub proof fn law_matching_stations_are_hits(ss: Seq<StationFields>, kw: Seq<char>, i: int)
    requires
        0 <= i < ss.len(),
        station_hit(ss[i], kw),
    ensures
        exists|j: int|
            0 <= j < hits(ss, kw).len() && #[trigger] hits(ss, kw)[j] == (
                clean_name(ss[i].name@),
                ss[i].lat,
                ss[i].lng,
                ss[i].area@,
            ),
    decreases ss.len(),
{
    let pre = ss.drop_last();
    let want = (clean_name(ss[i].name@), ss[i].lat, ss[i].lng, ss[i].area@);
    if i < ss.len() - 1 {
        assert(pre[i] == ss[i]);
        law_matching_stations_are_hits(pre, kw, i);
        let j = choose|j: int| 0 <= j < hits(pre, kw).len() && #[trigger] hits(pre, kw)[j] == want;
        if station_hit(ss.last(), kw) {
            assert(hits(ss, kw)[j] == hits(pre, kw)[j]);
        } else {
            assert(hits(ss, kw)[j] == want);
        }
    } else {
        assert(ss[i] == ss.last());
        let j = hits(pre, kw).len() as int;
        assert(hits(ss, kw)[j] == want);
    }
}

/// The reply lists the given rows in the order given: entry `j` of its
/// `stations` array names row `j` with that row's bikes, docks and distance.
/// With the rows nearest first, the stations appear nearest first.
pub proof fn law_reply_lists_rows_in_order(scenario: usize, rows: Seq<NearbyRow>, j: int)
    requires
        scenario < SCENARIO_COUNT,
        0 <= j < rows.len(),
    ensures
        get_spec(stations_reply_model(scenario, rows), "stations"@) matches Some(JsonModel::Array(a))
            && a.len() == rows.len()
            && get_spec(a[j], "name"@) == Some(JsonModel::Str(rows[j].name@))
            && get_spec(a[j], "bikes"@) == Some(JsonModel::Number(int_text(rows[j].bikes as int)))
            && get_spec(a[j], "docks"@) == Some(JsonModel::Number(int_text(rows[j].docks as int)))
            && get_spec(a[j], "dist"@) == Some(JsonModel::Number(int_text(rows[j].dist as int))),
        get_spec(stations_reply_model(scenario, rows), "tag"@) == Some(JsonModel::Str("stations"@)),
        get_spec(stations_reply_model(scenario, rows), "source"@) == Some(
            JsonModel::Str(scenario_name_spec(scenario as int)),
        ),
{
    reveal_strlit("stations");
    reveal_strlit("tag");
    reveal_strlit("source");
    reveal_strlit("scenario");
    reveal_strlit("name");
    reveal_strlit("bikes");
    reveal_strlit("docks");
    reveal_strlit("dist");
    let es = stations_reply_model(scenario, rows)->Object_0;
    assert("scenario"@ != "stations"@) by { assert("scenario"@[1] != "stations"@[1]); }
    assert("source"@ != "stations"@) by { assert("source"@[1] != "stations"@[1]); }
    assert("scenario"@ != "tag"@) by { assert("scenario"@[0] != "tag"@[0]); }
    assert("source"@ != "tag"@) by { assert("source"@[0] != "tag"@[0]); }
    assert("stations"@ != "tag"@) by { assert("stations"@[0] != "tag"@[0]); }
    assert("scenario"@ != "source"@) by { assert("scenario"@[1] != "source"@[1]); }
    crate::json::lemma_lookup_first(es, "stations"@, 2);
    crate::json::lemma_lookup_first(es, "tag"@, 3);
    crate::json::lemma_lookup_first(es, "source"@, 1);
    let os = row_object(rows[j])->Object_0;
    assert("bikes"@ != "dist"@) by { assert("bikes"@[0] != "dist"@[0]); }
    assert("bikes"@ != "docks"@) by { assert("bikes"@[0] != "docks"@[0]); }
    assert("bikes"@ != "name"@) by { assert("bikes"@[0] != "name"@[0]); }
    assert("dist"@ != "docks"@) by { assert("dist"@[1] != "docks"@[1]); }
    assert("dist"@ != "name"@) by { assert("dist"@[0] != "name"@[0]); }
    assert("docks"@ != "name"@) by { assert("docks"@[0] != "name"@[0]); }
    crate::json::lemma_lookup_first(os, "bikes"@, 0);
    crate::json::lemma_lookup_first(os, "dist"@, 1);
    crate::json::lemma_lookup_first(os, "docks"@, 2);
    crate::json::lemma_lookup_first(os, "name"@, 3);
    let a = rows.map_values(|r: NearbyRow| row_object(r));
    assert(a[j] == row_object(rows[j]));
}

} // verus!
