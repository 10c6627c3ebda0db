use benilla_app::cvars::knobs::{InteriorConfig, LightGains};
use benilla_app::cvars::registered::{is_registered, registered, Registered, SiteRows};
use benilla_app::graphics::bridges::{
    bridge, capture_daylight, filter_name, foliage_wind_pin, on_cvar, sky_bridge, DynamicInteriors,
    GfxState, GfxWrite, SceneDials, SceneValues,
};
use benilla_app::graphics::panel::{
    apply_preset, heading, knobs_of, options_of, reset, reset_all, row, CvarWrite, Options,
    PanelEdit, PanelGroup, Preset, Widget,
};
use benilla_app::shadow::quality::clamp_shadow_map_size;
use benilla_app::single::Single;

fn n(v: f32) -> Single {
    Single::from_bits(v.to_bits())
}

fn f(v: Single) -> f32 {
    f32::from_bits(v.bits)
}

fn interior() -> InteriorConfig {
    InteriorConfig {
        light: true,
        ambient: n(0.03),
        fill: n(0.12),
        exposure: n(1.0),
        atten_scale: n(1.0),
        room_gate: true,
        shadows: true,
        exterior_shadows: true,
        shadow_casters: 12,
        shadow_dynamic: 4,
        shadow_entity_rate: 30,
        shadow_soft: n(1.0),
        torch_strength: n(0.8),
        debug: 0,
    }
}

fn gains() -> LightGains {
    LightGains {
        night_gain: n(0.45),
        interior_gain: n(0.5),
        interior_daylight: n(0.3),
        interior_bake_floor: n(0.12),
        fire_light_gain: n(1.0),
        spell_light_gain: n(1.0),
        fire_flicker: n(1.0),
    }
}

/// The renderers' values, as one pass after another leaves them.
struct Renderers {
    scene: SceneValues,
    interiors: DynamicInteriors,
}

impl Renderers {
    /// Runs a pass, and says whether water and lava were written.
    fn update(&mut self, dials: &SceneDials) -> (bool, bool) {
        let writes = bridge(dials, &interior(), &gains(), None, &self.scene, &self.interiors);
        if let Some(v) = writes.water_quality {
            self.scene.water_quality = v;
        }
        if let Some(v) = writes.lava_light_gain {
            self.scene.lava_light_gain = v;
        }
        if let Some(v) = writes.fire_light_gain {
            self.scene.fire_light_gain = v;
        }
        if let Some(v) = writes.spell_light_gain {
            self.scene.spell_light_gain = v;
        }
        if let Some(v) = writes.moon_shadow_strength {
            self.scene.moon_shadow_strength = v;
        }
        if let Some(v) = writes.interiors {
            self.interiors = v;
        }
        (writes.water_quality.is_some(), writes.lava_light_gain.is_some())
    }
}

fn renderers() -> Renderers {
    Renderers {
        scene: SceneValues {
            water_quality: 1,
            lava_light_gain: n(1.0),
            fire_light_gain: n(0.0),
            spell_light_gain: n(0.0),
            moon_shadow_strength: n(0.0),
        },
        interiors: DynamicInteriors {
            enabled: false,
            ambient: n(0.0),
            fill: n(0.0),
            exposure: n(0.0),
            atten_scale: n(0.0),
            room_gate: false,
            debug: 0,
            flicker: n(0.0),
            night_gain: n(0.0),
            interior_gain: n(0.0),
            daylight: n(0.0),
            bake_floor: n(0.0),
        },
    }
}

#[test]
fn water_and_lava_bridge_publishes_changes_without_dirtying_idle_frames() {
    let mut out = renderers();
    let mut dials = SceneDials {
        water_quality: 1,
        lava_light_gain: n(1.0),
        moon_shadow_strength: n(0.6),
    };
    out.update(&dials);
    assert_eq!(out.scene.water_quality, dials.water_quality);
    assert_eq!(out.scene.lava_light_gain, dials.lava_light_gain);
    for (water, lava) in [(0, 0.0), (2, 3.25), (1, 1.0)] {
        dials.water_quality = water;
        dials.lava_light_gain = n(lava);
        out.update(&dials);
        assert_eq!(out.scene.water_quality, water);
        assert_eq!(f(out.scene.lava_light_gain), lava);
        assert_eq!(out.update(&dials), (false, false));
    }
}

#[test]
fn the_interior_settings_are_published_whole() {
    let mut out = renderers();
    let dials = SceneDials {
        water_quality: 1,
        lava_light_gain: n(1.0),
        moon_shadow_strength: n(0.6),
    };
    let first = bridge(&dials, &interior(), &gains(), Some(n(0.9)), &out.scene, &out.interiors);
    let want = first.interiors.expect("written");
    assert_eq!(f(want.daylight), 0.9);
    assert_eq!(f(want.night_gain), 0.45);
    assert_eq!(f(want.bake_floor), 0.12);
    assert!(want.enabled && want.room_gate);
    out.update(&dials);
    assert_eq!(f(out.interiors.daylight), 0.3);
    assert_eq!(f(out.scene.moon_shadow_strength), 0.6);
    let idle = bridge(&dials, &interior(), &gains(), None, &out.scene, &out.interiors);
    assert!(idle.interiors.is_none() && idle.fire_light_gain.is_none());
}

#[test]
fn bridge_publishes_the_tier_without_dirtying_idle_frames() {
    const HIGHEST: u8 = 2;
    let mut there = 0;
    for tier in [2u8, 1, 0] {
        if let Some(v) = sky_bridge(tier, None, HIGHEST, there) {
            there = v;
        }
        assert_eq!(there, tier);
        assert_eq!(sky_bridge(tier, None, HIGHEST, there), None);
    }
    assert_eq!(sky_bridge(0, Some(9), HIGHEST, there), Some(HIGHEST));
}

#[test]
fn a_capture_pins_what_a_development_build_lets_it() {
    assert_eq!(capture_daylight(true, true, Some(n(7.0))).map(f), Some(1.0));
    assert_eq!(capture_daylight(true, true, Some(n(0.4))).map(f), Some(0.4));
    assert_eq!(capture_daylight(true, true, Some(n(f32::NAN))), None);
    assert_eq!(capture_daylight(true, true, Some(n(f32::INFINITY))), None);
    assert_eq!(capture_daylight(true, false, Some(n(0.4))), None);
    assert_eq!(capture_daylight(false, true, Some(n(0.4))), None);
    assert_eq!(foliage_wind_pin(true, Some(1)), Some(1));
    assert_eq!(foliage_wind_pin(false, Some(1)), None);
}

#[test]
fn a_changed_setting_reaches_its_renderer() {
    let state = GfxState {
        sky_dither: false,
        foliage_wind: 1,
        rain_surfaces: true,
    };
    let to = |key: &str, v: f32, pin| on_cvar(key, n(v), pin, &state);
    assert!(matches!(to("skydither", 0.5, None), GfxWrite::SkyDither(true)));
    assert!(matches!(to("skydither", 0.4, None), GfxWrite::Nothing));
    assert!(matches!(to("foliagewind", 9.0, None), GfxWrite::FoliageWind(2)));
    assert!(matches!(to("foliagewind", -9.0, None), GfxWrite::FoliageWind(0)));
    assert!(matches!(to("foliagewind", 1.9, None), GfxWrite::Nothing));
    assert!(matches!(to("foliagewind", 1.0, Some(7)), GfxWrite::FoliageWind(2)));
    assert!(matches!(to("rainsurfaces", 0.0, None), GfxWrite::RainSurfaces(false)));
    match to("fogmodel", 0.75, None) {
        GfxWrite::FogModel(v) => assert_eq!(f(v), 0.75),
        other => panic!("{other:?}"),
    }
    assert!(matches!(to("elsewhere", 1.0, None), GfxWrite::Nothing));
}

#[test]
fn a_filter_is_named() {
    assert_eq!(filter_name(3), "bilinear + nearest-mip select, aniso off");
    assert_eq!(filter_name(4), "trilinear, aniso off");
    assert_eq!(filter_name(0), "trilinear + aniso");
}

const GROUPS: [PanelGroup; 6] = [
    PanelGroup::Interior,
    PanelGroup::Fire,
    PanelGroup::Torch,
    PanelGroup::Sun,
    PanelGroup::Night,
    PanelGroup::Debug,
];

fn rows() -> Vec<Registered> {
    registered(&SiteRows {
        active_view: ("cameraView", "1"),
        saved_views: Vec::new(),
        death_log_range: "CombatDeathLogRange",
    })
}

fn said(writes: &[CvarWrite]) -> Vec<(&str, &str)> {
    writes.iter().map(|w| (w.name, w.value.as_str())).collect()
}

#[test]
fn every_panel_setting_is_registered() {
    let rows = rows();
    let mut total = 0;
    for group in GROUPS {
        for knob in knobs_of(group) {
            assert!(is_registered(&rows, &knob.name.to_ascii_lowercase()), "{}", knob.name);
            total += 1;
        }
    }
    let all = reset_all(&rows);
    assert_eq!(all.len(), total);
    assert_eq!(heading(PanelGroup::Torch), "Torch shadows");
    let night = knobs_of(PanelGroup::Night);
    match night[0].widget {
        Widget::Slider { low, high } => assert_eq!((f(low), f(high)), (0.2, 1.5)),
        other => panic!("{other:?}"),
    }
}

#[test]
fn a_reset_writes_the_registered_defaults() {
    let rows = rows();
    for write in reset(&knobs_of(PanelGroup::Sun), &rows) {
        let registered = rows.iter().find(|r| r.name == write.name).expect("registered");
        assert_eq!(write.value, registered.default);
    }
    let fire = reset(&knobs_of(PanelGroup::Fire), &rows);
    assert_eq!(said(&fire)[1], ("spellLightGain", "1"));
}

#[test]
fn a_preset_writes_its_four_settings() {
    let rows = rows();
    assert_eq!(
        said(&apply_preset(Preset::Dim, &rows)),
        vec![
            ("interiorGain", "0.5"),
            ("interiorAmbient", "0.015"),
            ("interiorFill", "0.08"),
            ("interiorBakeFloor", "0.08"),
        ]
    );
    assert_eq!(
        said(&apply_preset(Preset::Bright, &rows)),
        vec![
            ("interiorGain", "1.0"),
            ("interiorAmbient", "0.04"),
            ("interiorFill", "0.16"),
            ("interiorBakeFloor", "0.2"),
        ]
    );
    let back = apply_preset(Preset::Default, &rows);
    assert_eq!(back.len(), 4);
    assert_eq!(said(&back)[0], ("interiorGain", "0.5"));
    assert_eq!(said(&back)[3], ("interiorBakeFloor", "0.12"));
}

#[test]
fn an_edit_writes_what_it_shows() {
    let toggle = &knobs_of(PanelGroup::Sun)[0];
    let ticked = row(toggle, PanelEdit::Ticked(true)).expect("a write");
    assert_eq!((ticked.name, ticked.value.as_str()), ("characterShadows", "1"));
    let cleared = row(toggle, PanelEdit::Ticked(false)).expect("a write");
    assert_eq!(cleared.value, "0");
    let chosen = row(&knobs_of(PanelGroup::Sun)[3], PanelEdit::Chosen(2048)).expect("a write");
    assert_eq!((chosen.name, chosen.value.as_str()), ("shadowMapSize", "2048"));
    let slid = row(toggle, PanelEdit::Slid(String::from("0.35"))).expect("a write");
    assert_eq!(slid.value, "0.35");
    assert!(row(toggle, PanelEdit::Untouched).is_none());
}

#[test]
fn a_preset_with_its_own_values_needs_no_registry() {
    let none = Vec::new();
    assert_eq!(said(&apply_preset(Preset::Dim, &none)).len(), 4);
    assert_eq!(said(&apply_preset(Preset::Bright, &none)).len(), 4);
}

#[test]
fn the_lists_of_the_panel_are_what_the_knobs_take() {
    assert_eq!(options_of(Options::MapSizes), vec![1024, 2048, 4096]);
    assert_eq!(options_of(Options::DebugModes), vec![0, 1, 2, 3, 4]);
    for size in options_of(Options::MapSizes) {
        assert_eq!(clamp_shadow_map_size(size), size);
    }
    let choices: Vec<&str> = [PanelGroup::Sun, PanelGroup::Debug]
        .into_iter()
        .flat_map(knobs_of)
        .filter(|k| matches!(k.widget, Widget::Choice(_)))
        .map(|k| k.name)
        .collect();
    assert_eq!(choices, vec!["shadowMapSize", "interiorDebug"]);
}

#[test]
fn every_panel_setting_has_its_help_text() {
    let groups = [
        PanelGroup::Interior,
        PanelGroup::Fire,
        PanelGroup::Torch,
        PanelGroup::Sun,
        PanelGroup::Night,
        PanelGroup::Debug,
    ];
    let knobs: Vec<_> = groups.into_iter().flat_map(knobs_of).collect();
    assert_eq!(knobs.len(), 29);
    assert!(knobs.iter().all(|k| !k.help.is_empty()));
    let help_of = |name: &str| knobs.iter().find(|k| k.name == name).map(|k| k.help);
    assert_eq!(help_of("interiorAmbient"), Some("Base room ambient."));
    assert_eq!(help_of("shadowFilter"), Some("0 hardware 2x2, 1 Gaussian PCF."));
    assert_eq!(
        help_of("interiorDebug"),
        Some("0 off, 1 classification, 2 shadow, 3 caster count, 4 WMO lane map.")
    );
}
