//! Plugin state: three saved places, the connected bands, the install key.
use vstd::prelude::*;
use crate::json::{Json, JsonModel, json_text, entry_models, item_models, lemma_entry_models, lemma_item_models};

verus! {

/// Number of fixed scenarios (home, office, station).
pub const SCENARIO_COUNT: usize = 3;

/// The display name of scenario `i`.
pub open spec fn scenario_name_spec(i: int) -> Seq<char> {
    if i == 0 {
        "住家"@
    } else if i == 1 {
        "公司"@
    } else {
        "車站"@
    }
}

/// The display name of scenario `i`.
pub fn scenario_name(i: usize) -> (r: &'static str)
    requires
        i < SCENARIO_COUNT,
    ensures
        r@ == scenario_name_spec(i as int),
{
    if i == 0 {
        "住家"
    } else if i == 1 {
        "公司"
    } else {
        "車站"
    }
}

/// A saved place. `lat` and `lng` are the IEEE-754 bit patterns of the
/// coordinates in degrees.
pub struct Coord {
    pub lat: u64,
    pub lng: u64,
    pub label: String,
}

impl Coord {
    /// A copy of this place.
    pub fn duplicate(&self) -> (r: Coord)
        ensures
            r == *self,
    {
        Coord { lat: self.lat, lng: self.lng, label: self.label.clone() }
    }
}

/// A copy of an optional place.
pub fn duplicate_opt(c: &Option<Coord>) -> (r: Option<Coord>)
    ensures
        r == *c,
{
    match c {
        Some(c) => Some(c.duplicate()),
        None => None,
    }
}

/// The persisted configuration.
pub struct Config {
    pub coords: [Option<Coord>; 3],
    /// Stable key binding this install to phone-GPS uploads.
    pub loc_key: String,
    /// Optional custom automation link that replaces the locate page.
    pub android_trigger_url: String,
}

impl Config {
    /// The configuration with nothing saved: no coordinates, no key, no link.
    pub fn empty() -> (r: Config)
        ensures
            r.coords@ == seq![None::<Coord>, None::<Coord>, None::<Coord>],
            r.loc_key@.len() == 0,
            r.android_trigger_url@.len() == 0,
    {
        let r = Config { coords: [None, None, None], loc_key: String::new(), android_trigger_url: String::new() };
        assert(r.coords@ =~= seq![None::<Coord>, None::<Coord>, None::<Coord>]);
        r
    }
}

/// The plugin's whole state.
pub struct AppState {
    pub config: Config,
    /// Connected bands: (address, name).
    pub devices: Vec<(String, String)>,
    /// Place search results: (display name, lat bits, lng bits).
    pub results: Vec<(String, u64, u64)>,
    /// One-line preview of nearby stations for the last picked place.
    pub preview: String,
    pub selected_scenario: usize,
    pub query: String,
    pub notice: Option<String>,
    /// Set after launching the GPS shortcut; the next render pulls the location.
    pub awaiting_gps: bool,
    pub root_element: Option<String>,
    pub registered: bool,
    /// The last phone location applied to the nearby page (lat bits, lng bits).
    pub last_fix: Option<(u64, u64)>,
}

impl AppState {
    /// The state a fresh plugin starts from.
    pub fn new() -> (r: AppState)
        ensures
            r.config.coords@ == seq![None::<Coord>, None::<Coord>, None::<Coord>],
            r.config.loc_key@.len() == 0,
            r.config.android_trigger_url@.len() == 0,
            r.devices@.len() == 0,
            r.results@.len() == 0,
            r.preview@.len() == 0,
            r.selected_scenario == 0,
            r.query@.len() == 0,
            r.notice is None,
            !r.awaiting_gps,
            r.root_element is None,
            !r.registered,
            r.last_fix is None,
            r.wf(),
    {
        AppState {
            config: Config::empty(),
            devices: Vec::new(),
            results: Vec::new(),
            preview: String::new(),
            selected_scenario: 0,
            query: String::new(),
            notice: None,
            awaiting_gps: false,
            root_element: None,
            registered: false,
            last_fix: None,
        }
    }

    /// The selected page is one of the three scenarios or the nearby page.
    pub open spec fn wf(&self) -> bool {
        self.selected_scenario <= SCENARIO_COUNT
    }

    /// The addresses of the connected bands, in order.
    pub open spec fn device_addrs(&self) -> Seq<Seq<char>> {
        self.devices@.map_values(|d: (String, String)| d.0@)
    }
}

/// `f` equals `o` except in the fields flagged: the notice, the selected page,
/// the query, the saved places, the trigger link, the search results, the
/// awaiting-GPS flag, the preview line and the last fix.
pub open spec fn same_but(
    o: AppState,
    f: AppState,
    notice: bool,
    selected: bool,
    query: bool,
    coords: bool,
    trigger: bool,
    results: bool,
    awaiting: bool,
    preview: bool,
    fix: bool,
) -> bool {
    &&& f.devices == o.devices
    &&& f.root_element == o.root_element
    &&& f.registered == o.registered
    &&& f.config.loc_key == o.config.loc_key
    &&& (!notice ==> f.notice == o.notice)
    &&& (!selected ==> f.selected_scenario == o.selected_scenario)
    &&& (!query ==> f.query == o.query)
    &&& (!coords ==> f.config.coords == o.config.coords)
    &&& (!trigger ==> f.config.android_trigger_url == o.config.android_trigger_url)
    &&& (!results ==> f.results == o.results)
    &&& (!awaiting ==> f.awaiting_gps == o.awaiting_gps)
    &&& (!preview ==> f.preview == o.preview)
    &&& (!fix ==> f.last_fix == o.last_fix)
}

/// The notice of `st` is `text`.
pub open spec fn notice_is(st: AppState, text: Seq<char>) -> bool {
    st.notice matches Some(n) && n@ == text
}

/// Shows `text` as the notice line (`set_notice`).
pub fn set_notice(st: &mut AppState, text: String)
    ensures
        *final(st) == (AppState { notice: Some(text), ..*old(st) }),
{
    st.notice = Some(text);
}

/// The addresses of the connected bands.
fn device_addr_list(st: &AppState) -> (r: Vec<String>)
    ensures
        r@.map_values(|s: String| s@) == st.device_addrs(),
{
    let mut out: Vec<String> = Vec::new();
    let n = st.devices.len();
    for i in 0..n
        invariant
            n == st.devices@.len(),
            out@.len() == i,
            forall|j: int| 0 <= j < i ==> #[trigger] out@[j]@ == st.devices@[j].0@,
    {
        out.push(st.devices[i].0.clone());
    }
    assert(out@.map_values(|s: String| s@) =~= st.device_addrs());
    out
}

/// Stores the freshly read list of connected bands (`refresh_devices`).
pub fn refresh_devices(st: &mut AppState, devices: Vec<(String, String)>)
    ensures
        *final(st) == (AppState { devices: devices, ..*old(st) }),
{
    st.devices = devices;
}

/// The bands to register the quick-app listener on; marks the state as
/// registered (`ensure_registered`).
pub fn ensure_registered(st: &mut AppState) -> (r: Vec<String>)
    ensures
        r@.map_values(|s: String| s@) == old(st).device_addrs(),
        *final(st) == (AppState { registered: true, ..*old(st) }),
{
    let r = device_addr_list(st);
    st.registered = true;
    r
}

/// The bands a config push goes to: the one given, or every connected band
/// when `addr` is empty (`push_config_to`).
pub fn push_config_to(st: &AppState, addr: &str) -> (r: Vec<String>)
    ensures
        addr@.len() == 0 ==> r@.map_values(|s: String| s@) == st.device_addrs(),
        addr@.len() != 0 ==> r@.map_values(|s: String| s@) == seq![addr@],
{
    if addr.is_empty() {
        device_addr_list(st)
    } else {
        let mut v: Vec<String> = Vec::new();
        v.push(crate::text::copy_str(addr));
        assert(v@.map_values(|s: String| s@) =~= seq![addr@]);
        v
    }
}

/// The entry of one saved place in the configuration message: its label and
/// the JSON texts of its coordinates (`float_texts`), or `null`.
pub open spec fn coord_entry_model(c: Option<Coord>, float_texts: (String, String)) -> JsonModel {
    match c {
        Some(c) => JsonModel::Object(
            seq![
                ("label"@, JsonModel::Str(c.label@)),
                ("lat"@, JsonModel::Number(float_texts.0@)),
                ("lng"@, JsonModel::Number(float_texts.1@)),
            ],
        ),
        None => JsonModel::Null,
    }
}

/// The configuration message sent to the band: `{"coords":[..],"tag":"cfg"}`.
pub open spec fn config_message_model(cfg: Config, float_texts: [(String, String); 3]) -> JsonModel {
    JsonModel::Object(
        seq![
            (
                "coords"@,
                JsonModel::Array(
                    seq![
                        coord_entry_model(cfg.coords@[0], float_texts@[0]),
                        coord_entry_model(cfg.coords@[1], float_texts@[1]),
                        coord_entry_model(cfg.coords@[2], float_texts@[2]),
                    ],
                ),
            ),
            ("tag"@, JsonModel::Str("cfg"@)),
        ],
    )
}

fn coord_entry(c: &Option<Coord>, float_texts: &(String, String)) -> (r: Json)
    ensures
        r@ == coord_entry_model(*c, *float_texts),
{
    match c {
        Some(c) => {
            let mut es: Vec<(String, Json)> = Vec::new();
            es.push((crate::text::copy_str("label"), Json::Str(c.label.clone())));
            es.push((crate::text::copy_str("lat"), Json::Number(float_texts.0.clone())));
            es.push((crate::text::copy_str("lng"), Json::Number(float_texts.1.clone())));
            proof {
                lemma_entry_models(es@);
                assert(entry_models(es@) =~= coord_entry_model(Some(*c), *float_texts)->Object_0);
            }
            Json::Object(es)
        },
        None => Json::Null,
    }
}

/// The text of the configuration message for `cfg`; `float_texts[i]` holds
/// the JSON texts of scenario `i`'s latitude and longitude, written by the
/// caller where floating point is available.
pub fn config_message(cfg: &Config, float_texts: &[(String, String); 3]) -> (r: String)
    ensures
        r@ == json_text(config_message_model(*cfg, *float_texts)),
{
    let mut items: Vec<Json> = Vec::new();
    items.push(coord_entry(&cfg.coords[0], &float_texts[0]));
    items.push(coord_entry(&cfg.coords[1], &float_texts[1]));
    items.push(coord_entry(&cfg.coords[2], &float_texts[2]));
    let mut es: Vec<(String, Json)> = Vec::new();
    es.push((crate::text::copy_str("coords"), Json::Array(items)));
    es.push((crate::text::copy_str("tag"), Json::Str(crate::text::copy_str("cfg"))));
    proof {
        lemma_item_models(items@);
        lemma_entry_models(es@);
        assert(item_models(items@) =~= config_message_model(*cfg, *float_texts)->Object_0[0].1->Array_0);
        assert(entry_models(es@) =~= config_message_model(*cfg, *float_texts)->Object_0);
    }
    crate::json::to_text(&Json::Object(es))
}

/// The 31 characters an install key is drawn from.
pub open spec fn key_alphabet() -> Seq<char> {
    seq![
        'a', 'b', 'c', 'd', 'e', 'f', 'g', 'h', 'j', 'k', 'm', 'n', 'p', 'q', 'r', 's', 't',
        'u', 'v', 'w', 'x', 'y', 'z', '2', '3', '4', '5', '6', '7', '8', '9',
    ]
}

/// One xorshift step (shifts 13, 7, 17 on 128 bits).
pub open spec fn xorshift(x: u128) -> u128 {
    let a = x ^ (x << 13u32);
    let b = a ^ (a >> 7u32);
    b ^ (b << 17u32)
}

/// The key characters produced from state `x` in `n` steps.
pub open spec fn key_chars(x: u128, n: nat) -> Seq<char>
    decreases n,
{
    if n == 0 {
        seq![]
    } else {
        let y = xorshift(x);
        seq![key_alphabet()[((y as usize) % 31) as int]] + key_chars(y, (n - 1) as nat)
    }
}

/// The install key made from a clock seed.
pub open spec fn loc_key_spec(seed: u128) -> Seq<char> {
    key_chars(seed ^ 0x9e3779b97f4a7c15u128, 12)
}

/// A 12-character key from a clock seed: xorshift, each step picking one
/// character of [`key_alphabet`].
pub fn make_loc_key(seed: u128) -> (r: String)
    ensures
        r@ == loc_key_spec(seed),
{
    let alphabet: [char; 31] = [
        'a', 'b', 'c', 'd', 'e', 'f', 'g', 'h', 'j', 'k', 'm', 'n', 'p', 'q', 'r', 's', 't',
        'u', 'v', 'w', 'x', 'y', 'z', '2', '3', '4', '5', '6', '7', '8', '9',
    ];
    assert(alphabet@ =~= key_alphabet());
    let mut key: Vec<char> = Vec::new();
    let mut x: u128 = seed ^ 0x9e3779b97f4a7c15u128;
    let mut i: usize = 0;
    while i < 12
        invariant
            alphabet@ == key_alphabet(),
            i <= 12,
            key@ + key_chars(x, (12 - i) as nat) == loc_key_spec(seed),
        decreases 12 - i,
    {
        let ghost x0 = x;
        x = x ^ (x << 13u32);
        x = x ^ (x >> 7u32);
        x = x ^ (x << 17u32);
        assert(x == xorshift(x0));
        let idx = (x as usize) % 31;
        key.push(alphabet[idx]);
        assert(key_chars(x0, (12 - i) as nat) =~= seq![key_alphabet()[idx as int]] + key_chars(
            x,
            (12 - (i + 1)) as nat,
        ));
        assert(key@ + key_chars(x, (12 - (i + 1)) as nat) =~= loc_key_spec(seed));
        i = i + 1;
    }
    assert(key@ =~= loc_key_spec(seed));
    crate::text::string_of(&key)
}

/// What start-up does to state `o`, giving `f`, with the configuration read
/// (`parsed`) and a clock `seed`; `save` tells whether `f` must be saved.
pub open spec fn load_spec(o: AppState, f: AppState, parsed: Option<Config>, seed: u128, save: bool) -> bool {
    &&& save == (parsed matches Some(c) ==> c.loc_key@.len() == 0)
    &&& parsed matches Some(c) ==> f.config.coords == c.coords
    &&& parsed matches Some(c) ==> f.config.android_trigger_url == c.android_trigger_url
    &&& parsed is None ==> f.config.coords@ == seq![None::<Coord>, None::<Coord>, None::<Coord>]
    &&& parsed is None ==> f.config.android_trigger_url@.len() == 0
    &&& save ==> f.config.loc_key@ == loc_key_spec(seed)
    &&& !save ==> (parsed matches Some(c) && f.config.loc_key == c.loc_key)
    &&& f.config.loc_key@.len() > 0
    &&& f == (AppState { config: f.config, ..o })
}

/// Installs the configuration read at start-up (`None` when there was none or
/// it did not parse), giving the install a key made from `seed` when it has
/// none. Returns whether the configuration must be saved (`load`).
pub fn load(st: &mut AppState, parsed: Option<Config>, seed: u128) -> (save: bool)
    ensures
        load_spec(*old(st), *final(st), parsed, seed, save),
{
    let cfg = match parsed {
        Some(c) => c,
        None => Config::empty(),
    };
    st.config = cfg;
    if st.config.loc_key.as_str().is_empty() {
        st.config.loc_key = make_loc_key(seed);
        proof {
            law_loc_key_shape(seed);
        }
        true
    } else {
        false
    }
}

/// The key characters are `n` characters of the key alphabet.
proof fn lemma_key_chars(x: u128, n: nat)
    ensures
        key_chars(x, n).len() == n,
        forall|i: int| 0 <= i < n ==> key_alphabet().contains(#[trigger] key_chars(x, n)[i]),
    decreases n,
{
    if n > 0 {
        let y = xorshift(x);
        lemma_key_chars(y, (n - 1) as nat);
        let c = key_alphabet()[((y as usize) % 31) as int];
        assert(key_alphabet().len() == 31);
        assert(key_alphabet().contains(c));
        assert forall|i: int| 0 <= i < n implies key_alphabet().contains(#[trigger] key_chars(x, n)[i]) by {
            if i > 0 {
                assert(key_chars(x, n)[i] == key_chars(y, (n - 1) as nat)[i - 1]);
            }
        }
    }
}

/// An install key is twelve characters of the key alphabet.
pub proof fn law_loc_key_shape(seed: u128)
    ensures
        loc_key_spec(seed).len() == 12,
        forall|i: int| 0 <= i < 12 ==> key_alphabet().contains(#[trigger] loc_key_spec(seed)[i]),
{
    lemma_key_chars(seed ^ 0x9e3779b97f4a7c15u128, 12);
}

/// The install key is stable: once start-up has given the install a key and
/// the configuration was saved, reading that configuration back at the next
/// start-up keeps the key (and the saved places and link) and asks for no
/// new save.
pub proof fn law_key_survives_reload(
    o: AppState,
    f: AppState,
    first: Option<Config>,
    seed1: u128,
    save1: bool,
    o2: AppState,
    g: AppState,
    seed2: u128,
    save2: bool,
)
    requires
        load_spec(o, f, first, seed1, save1),
        load_spec(o2, g, Some(f.config), seed2, save2),
    ensures
        !save2,
        g.config.loc_key == f.config.loc_key,
        g.config.coords == f.config.coords,
        g.config.android_trigger_url == f.config.android_trigger_url,
{
}

/// The configuration message lists scenario `i`'s place at position `i`: its
/// label and, as latitude and longitude, the first and second of its
/// coordinate texts; an unset place is `null`.
pub proof fn law_config_message_places(cfg: Config, float_texts: [(String, String); 3], i: int)
    requires
        0 <= i < 3,
    ensures
        crate::json::get_spec(config_message_model(cfg, float_texts), "tag"@) == Some(
            JsonModel::Str("cfg"@),
        ),
        crate::json::get_spec(config_message_model(cfg, float_texts), "coords"@) matches Some(
            JsonModel::Array(a),
        ) && a.len() == 3 && (cfg.coords@[i] is None ==> a[i] == JsonModel::Null) && (
        cfg.coords@[i] matches Some(c) ==> (crate::json::get_spec(a[i], "label"@) == Some(
            JsonModel::Str(c.label@),
        ) && crate::json::get_spec(a[i], "lat"@) == Some(JsonModel::Number(float_texts@[i].0@))
            && crate::json::get_spec(a[i], "lng"@) == Some(
            JsonModel::Number(float_texts@[i].1@),
        ))),
{
    reveal_strlit("tag");
    reveal_strlit("coords");
    reveal_strlit("label");
    reveal_strlit("lat");
    reveal_strlit("lng");
    let es = config_message_model(cfg, float_texts)->Object_0;
    assert("coords"@ != "tag"@) by { assert("coords"@[0] != "tag"@[0]); }
    crate::json::lemma_lookup_first(es, "coords"@, 0);
    crate::json::lemma_lookup_first(es, "tag"@, 1);
    assert("label"@ != "lat"@) by { assert("label"@[2] != "lat"@[2]); }
    assert("label"@ != "lng"@) by { assert("label"@[1] != "lng"@[1]); }
    assert("lat"@ != "lng"@) by { assert("lat"@[1] != "lng"@[1]); }
    match cfg.coords@[i] {
        Some(c) => {
            let os = coord_entry_model(cfg.coords@[i], float_texts@[i])->Object_0;
            crate::json::lemma_lookup_first(os, "label"@, 0);
            crate::json::lemma_lookup_first(os, "lat"@, 1);
            crate::json::lemma_lookup_first(os, "lng"@, 2);
        },
        None => {},
    }
}

} // verus!
