//! The lighting panel: its settings in groups, its presets, and what a click writes. Every write
//! goes through the settings' own queue, and a reset writes the registered default.
use crate::cvars::registered::{
    account_and_sound_rows, camera_rows, combat_rows, gains_and_window_rows, interface_rows,
    interior_rows, names_rows, registered_rows, sampling_rows, shadow_rows, view_and_click_rows,
    view_rows, Registered, SiteRows,
};
use crate::shadow::quality::{DEFAULT_SHADOW_MAP_SIZE, LARGE_MAP, SMALL_MAP};
use crate::single::Single;
use crate::text::{decimal, decimal_digits, flag, flag_text, same_text};
use vstd::prelude::*;
use vstd::string::StringExecFns;

verus! {

/// The lists a setting can be chosen from.
#[derive(Clone, Copy, Debug, PartialEq, Eq, Structural)]
pub enum Options {
    /// The edges of the shadow map.
    MapSizes,
    /// The interior overlays.
    DebugModes,
}

/// The numbers of a list, in the order in which they are offered.
pub open spec fn offered(options: Options) -> Seq<u32> {
    match options {
        Options::MapSizes => seq![SMALL_MAP, DEFAULT_SHADOW_MAP_SIZE, LARGE_MAP],
        Options::DebugModes => seq![0, 1, 2, 3, 4],
    }
}

/// Lists the numbers that a setting can be chosen from.
pub fn options_of(options: Options) -> (r: Vec<u32>)
    ensures
        r@ == offered(options),
{
    let mut numbers: Vec<u32> = Vec::new();
    match options {
        Options::MapSizes => {
            numbers.push(SMALL_MAP);
            numbers.push(DEFAULT_SHADOW_MAP_SIZE);
            numbers.push(LARGE_MAP);
        },
        Options::DebugModes => {
            numbers.push(0);
            numbers.push(1);
            numbers.push(2);
            numbers.push(3);
            numbers.push(4);
        },
    }
    assert(numbers@ =~= offered(options));
    numbers
}

/// How a setting is edited.
#[derive(Clone, Copy, Debug, PartialEq, Eq, Structural)]
pub enum Widget {
    Toggle,
    Slider { low: Single, high: Single },
    Integer { low: Single, high: Single },
    Choice(Options),
}

/// One setting of the panel.
#[derive(Clone, Copy, Debug)]
pub struct PanelKnob {
    pub name: &'static str,
    pub widget: Widget,
    /// What is shown over the setting.
    pub help: &'static str,
}

/// The groups of the panel.
#[derive(Clone, Copy, Debug, PartialEq, Eq, Structural)]
pub enum PanelGroup {
    Interior,
    Fire,
    Torch,
    Sun,
    Night,
    Debug,
}

/// A slider between two ends, given by their bits.
pub open spec fn slider(low: u32, high: u32) -> Widget {
    Widget::Slider { low: Single { bits: low }, high: Single { bits: high } }
}

/// A slider over whole numbers between two ends, given by their bits.
pub open spec fn integer(low: u32, high: u32) -> Widget {
    Widget::Integer { low: Single { bits: low }, high: Single { bits: high } }
}

fn make_slider(low: u32, high: u32) -> (r: Widget)
    ensures
        r == slider(low, high),
{
    Widget::Slider { low: Single { bits: low }, high: Single { bits: high } }
}

fn make_integer(low: u32, high: u32) -> (r: Widget)
    ensures
        r == integer(low, high),
{
    Widget::Integer { low: Single { bits: low }, high: Single { bits: high } }
}

/// A setting of the panel.
pub open spec fn knob(name: &'static str, widget: Widget, help: &'static str) -> PanelKnob {
    PanelKnob { name, widget, help }
}

/// The group "Interior light".
pub open spec fn interior_knobs() -> Seq<PanelKnob> {
    seq![
        knob("interiorLight", Widget::Toggle, "Fixture-lit interiors; off restores the baked path."),
        knob("interiorGain", slider(0x3E4C_CCCD, 0x3FC0_0000), "Overall room input brightness."),
        knob("interiorAmbient", slider(0x0000_0000, 0x3F80_0000), "Base room ambient."),
        knob("interiorFill", slider(0x0000_0000, 0x4000_0000), "Per-fixture bounce gain."),
        knob("interiorBakeFloor", slider(0x0000_0000, 0x3F80_0000), "Share of a room's baked light kept where no fixture reaches; 0 = fixtures only."),
        knob("interiorExposure", slider(0x3E80_0000, 0x4100_0000), "Light budget before soft rolloff."),
        knob("interiorAttenScale", slider(0x0000_0000, 0x4100_0000), "Pool radius scale; 0 disables the authored window."),
        knob("interiorDaylight", slider(0x0000_0000, 0x3F80_0000), "Sun-driven day floor in enclosed rooms."),
        knob("interiorRoomGate", Widget::Toggle, "Restrict fixtures to the rooms they claim."),
    ]
}

fn make_interior_knobs() -> (r: Vec<PanelKnob>)
    ensures
        r@ == interior_knobs(),
{
    let mut knobs: Vec<PanelKnob> = Vec::new();
    knobs.push(PanelKnob { name: "interiorLight", widget: Widget::Toggle, help: "Fixture-lit interiors; off restores the baked path." });
    knobs.push(PanelKnob { name: "interiorGain", widget: make_slider(0x3E4C_CCCD, 0x3FC0_0000), help: "Overall room input brightness." });
    knobs.push(PanelKnob { name: "interiorAmbient", widget: make_slider(0x0000_0000, 0x3F80_0000), help: "Base room ambient." });
    knobs.push(PanelKnob { name: "interiorFill", widget: make_slider(0x0000_0000, 0x4000_0000), help: "Per-fixture bounce gain." });
    knobs.push(PanelKnob { name: "interiorBakeFloor", widget: make_slider(0x0000_0000, 0x3F80_0000), help: "Share of a room's baked light kept where no fixture reaches; 0 = fixtures only." });
    knobs.push(PanelKnob { name: "interiorExposure", widget: make_slider(0x3E80_0000, 0x4100_0000), help: "Light budget before soft rolloff." });
    knobs.push(PanelKnob { name: "interiorAttenScale", widget: make_slider(0x0000_0000, 0x4100_0000), help: "Pool radius scale; 0 disables the authored window." });
    knobs.push(PanelKnob { name: "interiorDaylight", widget: make_slider(0x0000_0000, 0x3F80_0000), help: "Sun-driven day floor in enclosed rooms." });
    knobs.push(PanelKnob { name: "interiorRoomGate", widget: Widget::Toggle, help: "Restrict fixtures to the rooms they claim." });
    assert(knobs@ =~= interior_knobs());
    knobs
}

/// The group "Fire".
pub open spec fn fire_knobs() -> Seq<PanelKnob> {
    seq![
        knob("fireLightGain", slider(0x0000_0000, 0x4080_0000), "Brightness of lights synthesized from flame emitters."),
        knob("spellLightGain", slider(0x0000_0000, 0x4080_0000), "Brightness of spell, missile and impact lights."),
        knob("fireFlicker", slider(0x0000_0000, 0x4000_0000), "0 steady, 1 default, 2 pronounced."),
    ]
}

fn make_fire_knobs() -> (r: Vec<PanelKnob>)
    ensures
        r@ == fire_knobs(),
{
    let mut knobs: Vec<PanelKnob> = Vec::new();
    knobs.push(PanelKnob { name: "fireLightGain", widget: make_slider(0x0000_0000, 0x4080_0000), help: "Brightness of lights synthesized from flame emitters." });
    knobs.push(PanelKnob { name: "spellLightGain", widget: make_slider(0x0000_0000, 0x4080_0000), help: "Brightness of spell, missile and impact lights." });
    knobs.push(PanelKnob { name: "fireFlicker", widget: make_slider(0x0000_0000, 0x4000_0000), help: "0 steady, 1 default, 2 pronounced." });
    assert(knobs@ =~= fire_knobs());
    knobs
}

/// The group "Torch shadows".
pub open spec fn torch_knobs() -> Seq<PanelKnob> {
    seq![
        knob("interiorShadows", Widget::Toggle, "Interior fixture shadows; requires interiorLight."),
        knob("exteriorShadows", Widget::Toggle, "Outdoor fire shadows at night."),
        knob("interiorShadowCasters", integer(0x3F80_0000, 0x4180_0000), "Resident fixture shadow maps."),
        knob("interiorShadowDynamic", integer(0x3F80_0000, 0x4100_0000), "Nearest fixtures with moving entity shadows."),
        knob("interiorShadowSoft", slider(0x3F00_0000, 0x4040_0000), "Shadow edge softness at a contact; the penumbra grows from it."),
        knob("torchShadowStrength", slider(0x0000_0000, 0x3F80_0000), "Shadow darkness: how much direct light a shadow removes. 1 = black."),
        knob("interiorShadowEntityRate", integer(0x0000_0000, 0x4370_0000), "Moving caster regather Hz; 0 = every frame."),
    ]
}

fn make_torch_knobs() -> (r: Vec<PanelKnob>)
    ensures
        r@ == torch_knobs(),
{
    let mut knobs: Vec<PanelKnob> = Vec::new();
    knobs.push(PanelKnob { name: "interiorShadows", widget: Widget::Toggle, help: "Interior fixture shadows; requires interiorLight." });
    knobs.push(PanelKnob { name: "exteriorShadows", widget: Widget::Toggle, help: "Outdoor fire shadows at night." });
    knobs.push(PanelKnob { name: "interiorShadowCasters", widget: make_integer(0x3F80_0000, 0x4180_0000), help: "Resident fixture shadow maps." });
    knobs.push(PanelKnob { name: "interiorShadowDynamic", widget: make_integer(0x3F80_0000, 0x4100_0000), help: "Nearest fixtures with moving entity shadows." });
    knobs.push(PanelKnob { name: "interiorShadowSoft", widget: make_slider(0x3F00_0000, 0x4040_0000), help: "Shadow edge softness at a contact; the penumbra grows from it." });
    knobs.push(PanelKnob { name: "torchShadowStrength", widget: make_slider(0x0000_0000, 0x3F80_0000), help: "Shadow darkness: how much direct light a shadow removes. 1 = black." });
    knobs.push(PanelKnob { name: "interiorShadowEntityRate", widget: make_integer(0x0000_0000, 0x4370_0000), help: "Moving caster regather Hz; 0 = every frame." });
    assert(knobs@ =~= torch_knobs());
    knobs
}

/// The group "Sun shadows".
pub open spec fn sun_knobs() -> Seq<PanelKnob> {
    seq![
        knob("characterShadows", Widget::Toggle, "Realtime character silhouettes instead of blobs."),
        knob("worldShadows", Widget::Toggle, "Realtime static-world shadows instead of baked terrain shadows."),
        knob("shadowDistance", slider(0x4220_0000, 0x4348_0000), "Shadow distance in yards."),
        knob("shadowMapSize", Widget::Choice(Options::MapSizes), "Map edge in texels; larger maps cost more GPU time and memory."),
        knob("shadowFilter", Widget::Toggle, "0 hardware 2x2, 1 Gaussian PCF."),
        knob("characterShadowRate", integer(0x0000_0000, 0x42F0_0000), "Character shadow update Hz; 0 = every frame."),
        knob("worldShadowRate", integer(0x0000_0000, 0x42F0_0000), "World shadow update Hz; 0 = every frame."),
        knob("shadowCasterReach", slider(0x3E80_0000, 0x4000_0000), "Caster collection reach multiplier."),
    ]
}

fn make_sun_knobs() -> (r: Vec<PanelKnob>)
    ensures
        r@ == sun_knobs(),
{
    let mut knobs: Vec<PanelKnob> = Vec::new();
    knobs.push(PanelKnob { name: "characterShadows", widget: Widget::Toggle, help: "Realtime character silhouettes instead of blobs." });
    knobs.push(PanelKnob { name: "worldShadows", widget: Widget::Toggle, help: "Realtime static-world shadows instead of baked terrain shadows." });
    knobs.push(PanelKnob { name: "shadowDistance", widget: make_slider(0x4220_0000, 0x4348_0000), help: "Shadow distance in yards." });
    knobs.push(PanelKnob { name: "shadowMapSize", widget: Widget::Choice(Options::MapSizes), help: "Map edge in texels; larger maps cost more GPU time and memory." });
    knobs.push(PanelKnob { name: "shadowFilter", widget: Widget::Toggle, help: "0 hardware 2x2, 1 Gaussian PCF." });
    knobs.push(PanelKnob { name: "characterShadowRate", widget: make_integer(0x0000_0000, 0x42F0_0000), help: "Character shadow update Hz; 0 = every frame." });
    knobs.push(PanelKnob { name: "worldShadowRate", widget: make_integer(0x0000_0000, 0x42F0_0000), help: "World shadow update Hz; 0 = every frame." });
    knobs.push(PanelKnob { name: "shadowCasterReach", widget: make_slider(0x3E80_0000, 0x4000_0000), help: "Caster collection reach multiplier." });
    assert(knobs@ =~= sun_knobs());
    knobs
}

/// The group "Night".
pub open spec fn night_knobs() -> Seq<PanelKnob> {
    seq![
        knob("nightGain", slider(0x3E4C_CCCD, 0x3FC0_0000), "Exterior night brightness; inert by day."),
    ]
}

fn make_night_knobs() -> (r: Vec<PanelKnob>)
    ensures
        r@ == night_knobs(),
{
    let mut knobs: Vec<PanelKnob> = Vec::new();
    knobs.push(PanelKnob { name: "nightGain", widget: make_slider(0x3E4C_CCCD, 0x3FC0_0000), help: "Exterior night brightness; inert by day." });
    assert(knobs@ =~= night_knobs());
    knobs
}

/// The group "Debug".
pub open spec fn debug_knobs() -> Seq<PanelKnob> {
    seq![
        knob("interiorDebug", Widget::Choice(Options::DebugModes), "0 off, 1 classification, 2 shadow, 3 caster count, 4 WMO lane map."),
    ]
}

fn make_debug_knobs() -> (r: Vec<PanelKnob>)
    ensures
        r@ == debug_knobs(),
{
    let mut knobs: Vec<PanelKnob> = Vec::new();
    knobs.push(PanelKnob { name: "interiorDebug", widget: Widget::Choice(Options::DebugModes), help: "0 off, 1 classification, 2 shadow, 3 caster count, 4 WMO lane map." });
    assert(knobs@ =~= debug_knobs());
    knobs
}

/// The settings of a group, in order.
pub open spec fn group_knobs(group: PanelGroup) -> Seq<PanelKnob> {
    match group {
        PanelGroup::Interior => interior_knobs(),
        PanelGroup::Fire => fire_knobs(),
        PanelGroup::Torch => torch_knobs(),
        PanelGroup::Sun => sun_knobs(),
        PanelGroup::Night => night_knobs(),
        PanelGroup::Debug => debug_knobs(),
    }
}

/// Lists the settings of a group.
pub fn knobs_of(group: PanelGroup) -> (r: Vec<PanelKnob>)
    ensures
        r@ == group_knobs(group),
{
    match group {
        PanelGroup::Interior => make_interior_knobs(),
        PanelGroup::Fire => make_fire_knobs(),
        PanelGroup::Torch => make_torch_knobs(),
        PanelGroup::Sun => make_sun_knobs(),
        PanelGroup::Night => make_night_knobs(),
        PanelGroup::Debug => make_debug_knobs(),
    }
}

/// Names a group, as its heading does.
pub fn heading(group: PanelGroup) -> (r: &'static str)
    ensures
        r@ == match group {
            PanelGroup::Interior => "Interior light"@,
            PanelGroup::Fire => "Fire"@,
            PanelGroup::Torch => "Torch shadows"@,
            PanelGroup::Sun => "Sun shadows"@,
            PanelGroup::Night => "Night"@,
            PanelGroup::Debug => "Debug"@,
        },
{
    match group {
        PanelGroup::Interior => "Interior light",
        PanelGroup::Fire => "Fire",
        PanelGroup::Torch => "Torch shadows",
        PanelGroup::Sun => "Sun shadows",
        PanelGroup::Night => "Night",
        PanelGroup::Debug => "Debug",
    }
}

/// One write to the settings' queue.
#[derive(Debug)]
pub struct CvarWrite {
    pub name: &'static str,
    pub value: String,
}

/// One write, as texts.
pub open spec fn said(write: CvarWrite) -> (Seq<char>, Seq<char>) {
    (write.name@, write.value@)
}

/// The texts of some writes.
pub open spec fn all_said(writes: Seq<CvarWrite>) -> Seq<(Seq<char>, Seq<char>)> {
    writes.map_values(|w: CvarWrite| said(w))
}

/// Some row registers `name`.
pub open spec fn is_row(rows: Seq<Registered>, name: Seq<char>) -> bool {
    exists|k: int| 0 <= k < rows.len() && (#[trigger] rows[k]).name@ == name
}

/// The default of the first row of `name`.
pub open spec fn default_of(rows: Seq<Registered>, name: Seq<char>) -> Seq<char>
    decreases rows.len(),
{
    if rows.len() == 0 {
        seq![]
    } else if rows.first().name@ == name {
        rows.first().default@
    } else {
        default_of(rows.drop_first(), name)
    }
}

fn find_default(rows: &Vec<Registered>, name: &'static str) -> (r: &'static str)
    requires
        is_row(rows@, name@),
    ensures
        r@ == default_of(rows@, name@),
{
    let mut i: usize = 0;
    assert(rows@.skip(0) =~= rows@);
    while i < rows.len()
        invariant
            i <= rows@.len(),
            is_row(rows@, name@),
            default_of(rows@, name@) == default_of(rows@.skip(i as int), name@),
            forall|k: int| 0 <= k < i ==> (#[trigger] rows@[k]).name@ != name@,
        decreases rows@.len() - i,
    {
        assert(rows@.skip(i as int).first() == rows@[i as int]);
        assert(rows@.skip(i as int).drop_first() =~= rows@.skip(i as int + 1));
        if same_text(rows[i].name, name) {
            return rows[i].default;
        }
        i += 1;
    }
    assert(false);
    ""
}

/// The writes that put some settings back to their registered defaults, in order.
pub open spec fn reset_writes(
    knobs: Seq<PanelKnob>,
    rows: Seq<Registered>,
) -> Seq<(Seq<char>, Seq<char>)> {
    knobs.map_values(|k: PanelKnob| (k.name@, default_of(rows, k.name@)))
}

/// Every setting is registered.
pub open spec fn all_registered(knobs: Seq<PanelKnob>, rows: Seq<Registered>) -> bool {
    forall|k: int| 0 <= k < knobs.len() ==> is_row(rows, (#[trigger] knobs[k]).name@)
}

/// Puts some settings back to their registered defaults.
pub fn reset(knobs: &Vec<PanelKnob>, rows: &Vec<Registered>) -> (r: Vec<CvarWrite>)
    requires
        all_registered(knobs@, rows@),
    ensures
        all_said(r@) == reset_writes(knobs@, rows@),
{
    let mut writes: Vec<CvarWrite> = Vec::new();
    let mut i: usize = 0;
    assert(all_said(writes@) =~= reset_writes(knobs@.take(0), rows@));
    while i < knobs.len()
        invariant
            i <= knobs@.len(),
            all_registered(knobs@, rows@),
            all_said(writes@) == reset_writes(knobs@.take(i as int), rows@),
        decreases knobs@.len() - i,
    {
        let name: &'static str = knobs[i].name;
        assert(is_row(rows@, knobs@[i as int].name@));
        let default = find_default(rows, name);
        let ghost before = writes@;
        writes.push(CvarWrite { name, value: String::from_str(default) });
        proof {
            assert(all_said(writes@) =~= all_said(before).push(said(writes@.last())));
            assert(reset_writes(knobs@.take(i as int + 1), rows@) =~= reset_writes(
                knobs@.take(i as int),
                rows@,
            ).push((name@, default_of(rows@, name@))));
        }
        i += 1;
    }
    assert(knobs@.take(i as int) =~= knobs@);
    writes
}

proof fn lemma_chunks(
    head: Seq<Registered>,
    a: Seq<Registered>,
    b: Seq<Registered>,
    c: Seq<Registered>,
    tail: Seq<Registered>,
)
    ensures
        forall|k: int| 0 <= k < a.len() ==> is_row(head + a + b + c + tail, (#[trigger] a[k]).name@),
        forall|k: int| 0 <= k < b.len() ==> is_row(head + a + b + c + tail, (#[trigger] b[k]).name@),
        forall|k: int| 0 <= k < c.len() ==> is_row(head + a + b + c + tail, (#[trigger] c[k]).name@),
{
    let all = head + a + b + c + tail;
    assert forall|k: int| 0 <= k < a.len() implies is_row(all, (#[trigger] a[k]).name@) by {
        assert(all[head.len() + k] == a[k]);
    }
    assert forall|k: int| 0 <= k < b.len() implies is_row(all, (#[trigger] b[k]).name@) by {
        assert(all[head.len() + a.len() + k] == b[k]);
    }
    assert forall|k: int| 0 <= k < c.len() implies is_row(all, (#[trigger] c[k]).name@) by {
        assert(all[head.len() + a.len() + b.len() + k] == c[k]);
    }
}

proof fn lemma_lighting_rows(site: SiteRows)
    ensures
        forall|k: int|
            0 <= k < shadow_rows().len() ==> is_row(
                registered_rows(site),
                (#[trigger] shadow_rows()[k]).name@,
            ),
        forall|k: int|
            0 <= k < interior_rows().len() ==> is_row(
                registered_rows(site),
                (#[trigger] interior_rows()[k]).name@,
            ),
        forall|k: int|
            0 <= k < gains_and_window_rows().len() ==> is_row(
                registered_rows(site),
                (#[trigger] gains_and_window_rows()[k]).name@,
            ),
{
    lemma_chunks(
        account_and_sound_rows() + view_and_click_rows() + view_rows(site) + names_rows() + combat_rows(site) + camera_rows() + interface_rows(),
        shadow_rows(),
        interior_rows(),
        gains_and_window_rows(),
        sampling_rows(),
    );
}

proof fn lemma_shadow_row(site: SiteRows, k: int, name: Seq<char>)
    requires
        0 <= k < shadow_rows().len(),
        shadow_rows()[k].name@ == name,
    ensures
        is_row(registered_rows(site), name),
{
    lemma_lighting_rows(site);
}

proof fn lemma_interior_row(site: SiteRows, k: int, name: Seq<char>)
    requires
        0 <= k < interior_rows().len(),
        interior_rows()[k].name@ == name,
    ensures
        is_row(registered_rows(site), name),
{
    lemma_lighting_rows(site);
}

proof fn lemma_gains_and_window_row(site: SiteRows, k: int, name: Seq<char>)
    requires
        0 <= k < gains_and_window_rows().len(),
        gains_and_window_rows()[k].name@ == name,
    ensures
        is_row(registered_rows(site), name),
{
    lemma_lighting_rows(site);
}

proof fn lemma_interior_knobs_registered(site: SiteRows)
    ensures
        all_registered(interior_knobs(), registered_rows(site)),
{
    let rows = registered_rows(site);
    assert forall|k: int| 0 <= k < interior_knobs().len() implies is_row(
        rows,
        (#[trigger] interior_knobs()[k]).name@,
    ) by {
        if k == 0 {
            lemma_interior_row(site, 0, "interiorLight"@);
        } else if k == 1 {
            lemma_gains_and_window_row(site, 1, "interiorGain"@);
        } else if k == 2 {
            lemma_interior_row(site, 1, "interiorAmbient"@);
        } else if k == 3 {
            lemma_interior_row(site, 2, "interiorFill"@);
        } else if k == 4 {
            lemma_gains_and_window_row(site, 3, "interiorBakeFloor"@);
        } else if k == 5 {
            lemma_interior_row(site, 3, "interiorExposure"@);
        } else if k == 6 {
            lemma_interior_row(site, 4, "interiorAttenScale"@);
        } else if k == 7 {
            lemma_gains_and_window_row(site, 2, "interiorDaylight"@);
        } else {
            lemma_interior_row(site, 5, "interiorRoomGate"@);
        }
    }
}

proof fn lemma_fire_knobs_registered(site: SiteRows)
    ensures
        all_registered(fire_knobs(), registered_rows(site)),
{
    let rows = registered_rows(site);
    assert forall|k: int| 0 <= k < fire_knobs().len() implies is_row(
        rows,
        (#[trigger] fire_knobs()[k]).name@,
    ) by {
        if k == 0 {
            lemma_gains_and_window_row(site, 4, "fireLightGain"@);
        } else if k == 1 {
            lemma_gains_and_window_row(site, 5, "spellLightGain"@);
        } else {
            lemma_gains_and_window_row(site, 6, "fireFlicker"@);
        }
    }
}

proof fn lemma_torch_knobs_registered(site: SiteRows)
    ensures
        all_registered(torch_knobs(), registered_rows(site)),
{
    let rows = registered_rows(site);
    assert forall|k: int| 0 <= k < torch_knobs().len() implies is_row(
        rows,
        (#[trigger] torch_knobs()[k]).name@,
    ) by {
        if k == 0 {
            lemma_interior_row(site, 6, "interiorShadows"@);
        } else if k == 1 {
            lemma_interior_row(site, 7, "exteriorShadows"@);
        } else if k == 2 {
            lemma_interior_row(site, 8, "interiorShadowCasters"@);
        } else if k == 3 {
            lemma_interior_row(site, 9, "interiorShadowDynamic"@);
        } else if k == 4 {
            lemma_interior_row(site, 11, "interiorShadowSoft"@);
        } else if k == 5 {
            lemma_interior_row(site, 12, "torchShadowStrength"@);
        } else {
            lemma_interior_row(site, 10, "interiorShadowEntityRate"@);
        }
    }
}

proof fn lemma_sun_knobs_registered(site: SiteRows)
    ensures
        all_registered(sun_knobs(), registered_rows(site)),
{
    let rows = registered_rows(site);
    assert forall|k: int| 0 <= k < sun_knobs().len() implies is_row(
        rows,
        (#[trigger] sun_knobs()[k]).name@,
    ) by {
        if k == 0 {
            lemma_shadow_row(site, 7, "characterShadows"@);
        } else if k == 1 {
            lemma_shadow_row(site, 6, "worldShadows"@);
        } else if k == 2 {
            lemma_shadow_row(site, 8, "shadowDistance"@);
        } else if k == 3 {
            lemma_shadow_row(site, 9, "shadowMapSize"@);
        } else if k == 4 {
            lemma_shadow_row(site, 10, "shadowFilter"@);
        } else if k == 5 {
            lemma_shadow_row(site, 11, "characterShadowRate"@);
        } else if k == 6 {
            lemma_shadow_row(site, 12, "worldShadowRate"@);
        } else {
            lemma_shadow_row(site, 13, "shadowCasterReach"@);
        }
    }
}

proof fn lemma_night_knobs_registered(site: SiteRows)
    ensures
        all_registered(night_knobs(), registered_rows(site)),
{
    let rows = registered_rows(site);
    assert forall|k: int| 0 <= k < night_knobs().len() implies is_row(
        rows,
        (#[trigger] night_knobs()[k]).name@,
    ) by {
        lemma_gains_and_window_row(site, 0, "nightGain"@);
    }
}

proof fn lemma_debug_knobs_registered(site: SiteRows)
    ensures
        all_registered(debug_knobs(), registered_rows(site)),
{
    let rows = registered_rows(site);
    assert forall|k: int| 0 <= k < debug_knobs().len() implies is_row(
        rows,
        (#[trigger] debug_knobs()[k]).name@,
    ) by {
        lemma_interior_row(site, 13, "interiorDebug"@);
    }
}

/// Every setting of the panel is registered, so a reset never misses its default.
pub proof fn every_panel_knob_is_registered(site: SiteRows, group: PanelGroup)
    ensures
        all_registered(group_knobs(group), registered_rows(site)),
{
    match group {
        PanelGroup::Interior => lemma_interior_knobs_registered(site),
        PanelGroup::Fire => lemma_fire_knobs_registered(site),
        PanelGroup::Torch => lemma_torch_knobs_registered(site),
        PanelGroup::Sun => lemma_sun_knobs_registered(site),
        PanelGroup::Night => lemma_night_knobs_registered(site),
        PanelGroup::Debug => lemma_debug_knobs_registered(site),
    }
}

/// The presets of the panel.
#[derive(Clone, Copy, Debug, PartialEq, Eq, Structural)]
pub enum Preset {
    Dim,
    Default,
    Bright,
}

/// The settings a preset touches: the gain, the ambient light, the fill and the bake floor.
pub open spec fn preset_knobs() -> Seq<PanelKnob> {
    interior_knobs().subrange(1, 5)
}

/// The values of a preset that has its own.
pub open spec fn preset_values(preset: Preset) -> Seq<Seq<char>> {
    match preset {
        Preset::Dim => seq!["0.5"@, "0.015"@, "0.08"@, "0.08"@],
        Preset::Bright => seq!["1.0"@, "0.04"@, "0.16"@, "0.2"@],
        Preset::Default => seq![],
    }
}

/// What a preset writes: its own values, or the registered defaults of the settings it touches.
pub open spec fn preset_writes(
    preset: Preset,
    rows: Seq<Registered>,
) -> Seq<(Seq<char>, Seq<char>)> {
    if preset == Preset::Default {
        reset_writes(preset_knobs(), rows)
    } else {
        Seq::new(4, |k: int| (preset_knobs()[k].name@, preset_values(preset)[k]))
    }
}

fn write(name: &'static str, value: &'static str) -> (r: CvarWrite)
    ensures
        said(r) == (name@, value@),
{
    CvarWrite { name, value: String::from_str(value) }
}

/// Writes a preset: only gain, ambient light, fill and bake floor, all else stays.
pub fn apply_preset(preset: Preset, rows: &Vec<Registered>) -> (r: Vec<CvarWrite>)
    requires
        preset == Preset::Default ==> all_registered(preset_knobs(), rows@),
    ensures
        all_said(r@) == preset_writes(preset, rows@),
{
    let (a, b, c, d): (&'static str, &'static str, &'static str, &'static str) = match preset {
        Preset::Default => {
            let all = make_interior_knobs();
            let mut knobs: Vec<PanelKnob> = Vec::new();
            knobs.push(all[1]);
            knobs.push(all[2]);
            knobs.push(all[3]);
            knobs.push(all[4]);
            assert(knobs@ =~= preset_knobs());
            return reset(&knobs, rows);
        },
        Preset::Dim => ("0.5", "0.015", "0.08", "0.08"),
        Preset::Bright => ("1.0", "0.04", "0.16", "0.2"),
    };
    let mut writes: Vec<CvarWrite> = Vec::new();
    writes.push(write("interiorGain", a));
    writes.push(write("interiorAmbient", b));
    writes.push(write("interiorFill", c));
    writes.push(write("interiorBakeFloor", d));
    assert(all_said(writes@) =~= preset_writes(preset, rows@));
    writes
}

/// Puts every group back to its registered defaults, group by group.
pub fn reset_all(rows: &Vec<Registered>) -> (r: Vec<CvarWrite>)
    requires
        forall|group: PanelGroup| #[trigger] all_registered(group_knobs(group), rows@),
    ensures
        all_said(r@) == reset_writes(
            interior_knobs() + fire_knobs() + torch_knobs() + sun_knobs() + night_knobs()
                + debug_knobs(),
            rows@,
        ),
{
    let mut knobs: Vec<PanelKnob> = Vec::new();
    append_group(PanelGroup::Interior, &mut knobs);
    append_group(PanelGroup::Fire, &mut knobs);
    append_group(PanelGroup::Torch, &mut knobs);
    append_group(PanelGroup::Sun, &mut knobs);
    append_group(PanelGroup::Night, &mut knobs);
    append_group(PanelGroup::Debug, &mut knobs);
    proof {
        assert(all_registered(group_knobs(PanelGroup::Interior), rows@));
        assert(all_registered(group_knobs(PanelGroup::Fire), rows@));
        assert(all_registered(group_knobs(PanelGroup::Torch), rows@));
        assert(all_registered(group_knobs(PanelGroup::Sun), rows@));
        assert(all_registered(group_knobs(PanelGroup::Night), rows@));
        assert(all_registered(group_knobs(PanelGroup::Debug), rows@));
        assert(knobs@ =~= interior_knobs() + fire_knobs() + torch_knobs() + sun_knobs()
            + night_knobs() + debug_knobs());
        lemma_joined(interior_knobs(), fire_knobs(), rows@);
        lemma_joined(interior_knobs() + fire_knobs(), torch_knobs(), rows@);
        lemma_joined(interior_knobs() + fire_knobs() + torch_knobs(), sun_knobs(), rows@);
        lemma_joined(
            interior_knobs() + fire_knobs() + torch_knobs() + sun_knobs(),
            night_knobs(),
            rows@,
        );
        lemma_joined(
            interior_knobs() + fire_knobs() + torch_knobs() + sun_knobs() + night_knobs(),
            debug_knobs(),
            rows@,
        );
    }
    reset(&knobs, rows)
}

proof fn lemma_joined(a: Seq<PanelKnob>, b: Seq<PanelKnob>, rows: Seq<Registered>)
    requires
        all_registered(a, rows),
        all_registered(b, rows),
    ensures
        all_registered(a + b, rows),
{
    assert forall|k: int| 0 <= k < (a + b).len() implies is_row(
        rows,
        (#[trigger] (a + b)[k]).name@,
    ) by {
        if k < a.len() {
            assert((a + b)[k] == a[k]);
        } else {
            assert((a + b)[k] == b[k - a.len()]);
        }
    }
}

fn append_group(group: PanelGroup, knobs: &mut Vec<PanelKnob>)
    ensures
        final(knobs)@ == old(knobs)@ + group_knobs(group),
{
    let more = knobs_of(group);
    let mut i: usize = 0;
    assert(knobs@ =~= old(knobs)@ + more@.take(0));
    while i < more.len()
        invariant
            i <= more@.len(),
            knobs@ == old(knobs)@ + more@.take(i as int),
        decreases more@.len() - i,
    {
        knobs.push(more[i]);
        assert(knobs@ =~= old(knobs)@ + more@.take(i as int + 1));
        i += 1;
    }
    assert(more@.take(i as int) =~= more@);
}

/// What the player did to one setting of the panel.
#[derive(Debug)]
pub enum PanelEdit {
    /// Nothing.
    Untouched,
    /// The box was ticked or cleared.
    Ticked(bool),
    /// An entry of the list was chosen.
    Chosen(u32),
    /// The slider was moved; the text is the number it shows.
    Slid(String),
}

/// The text an edit writes.
pub open spec fn edit_text(edit: PanelEdit) -> Option<Seq<char>> {
    match edit {
        PanelEdit::Untouched => None,
        PanelEdit::Ticked(on) => Some(flag_text(on)),
        PanelEdit::Chosen(option) => Some(decimal_digits(option as nat)),
        PanelEdit::Slid(text) => Some(text@),
    }
}

/// What an edit of one setting writes: nothing where nothing changed.
pub fn row(knob: &PanelKnob, edit: PanelEdit) -> (r: Option<CvarWrite>)
    ensures
        match r {
            Some(write) => edit_text(edit) == Some(write.value@) && write.name == knob.name,
            None => edit_text(edit) is None,
        },
{
    match edit {
        PanelEdit::Untouched => None,
        PanelEdit::Ticked(on) => Some(CvarWrite { name: knob.name, value: flag(on) }),
        PanelEdit::Chosen(option) => Some(
            CvarWrite { name: knob.name, value: decimal(option as u64) },
        ),
        PanelEdit::Slid(text) => Some(CvarWrite { name: knob.name, value: text }),
    }
}

/// A preset writes exactly the four settings it names, and none twice.
pub proof fn a_preset_touches_four_settings(preset: Preset, rows: Seq<Registered>)
    ensures
        preset_writes(preset, rows).len() == 4,
        preset_writes(preset, rows)[0].0 == "interiorGain"@,
        preset_writes(preset, rows)[1].0 == "interiorAmbient"@,
        preset_writes(preset, rows)[2].0 == "interiorFill"@,
        preset_writes(preset, rows)[3].0 == "interiorBakeFloor"@,
{
}

} // verus!
