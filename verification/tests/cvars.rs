use benilla_app::cvars::compose::{compose_file, Live};
use benilla_app::cvars::config_map::ConfigMap;
use benilla_app::cvars::knobs::{
    apply_to_knobs, is_string_valued, samples_asked, CameraOptions, ClutterDensity, DamageTextGates,
    DisplayConfig, DisplayMode, FollowConfig, FollowStyle, InteriorConfig, InterfaceConfig, Knobs,
    LightGains, Limits, LookConfig, NameConfig, Reading, SceneConfig, ShadowConfig, SoundConfig,
    ViewConfig, MAX_ANISO, MAX_MINIMAP_ZOOM,
};
use benilla_app::cvars::persist::{session_owned_keys, CvarPersist, LaunchSwitches, SAVE_QUIET};
use benilla_app::cvars::registered::{
    has_distinct_names, is_registered, registered, registered_pairs, Reference, Registered, SiteRows,
};
use benilla_app::cvars::session::{session_rows, spell, video_caps, CombatRanges, Shown};
use benilla_app::cvars::stored::{
    boot_cvar, decode_config, file_text, header, stored_config, Section, StoredConfig,
};
use benilla_app::shadow::quality::{
    DEFAULT_SHADOW_FILTER, DEFAULT_SHADOW_MAP_SIZE, DEFAULT_SHADOW_RATE,
};
use benilla_app::single::Single;
use std::collections::BTreeMap;

fn n(v: f32) -> Single {
    Single::from_bits(v.to_bits())
}

fn f(v: Single) -> f32 {
    f32::from_bits(v.bits)
}

fn site() -> SiteRows {
    SiteRows {
        active_view: ("cameraView", "1"),
        saved_views: vec![("cameraSavedDistance", "5.55"), ("cameraSavedPitch", "10")],
        death_log_range: "CombatDeathLogRange",
    }
}

fn table() -> Vec<Registered> {
    registered(&site())
}

fn limits() -> Limits {
    Limits {
        farclip: (n(177.0), n(777.0)),
        gamma: (n(0.3), n(2.8)),
        render_scale: (n(0.5), n(2.0)),
    }
}

/// What a text reads as: a number, a window size, a realm address, and what a device that offers
/// one, two and four samples grants.
fn reading(name: &str, text: &str) -> Reading {
    let number = text.parse::<f32>().ok().map(n);
    let resolution = text.split_once('x').and_then(|(w, h)| {
        Some((w.parse::<u32>().ok()?, h.parse::<u32>().ok()?))
    });
    let address = match text {
        "not an address" => None,
        r#"SET realmlist "elsewhere.example.org""# => Some(String::from("elsewhere.example.org")),
        other => Some(String::from(other)),
    };
    let style = match number.map(f) {
        Some(v) if v == 1.0 => FollowStyle::Smart,
        Some(v) if v == 2.0 => FollowStyle::Always,
        _ => FollowStyle::Never,
    };
    let asked = number.map_or(1, samples_asked);
    let granted = if asked >= 4 { 4 } else { asked };
    Reading {
        number,
        resolution,
        address,
        view_setting: name == "cameraView",
        combat_range: name == "CombatDeathLogRange",
        style,
        granted,
    }
}

fn knobs() -> Knobs {
    Knobs {
        sound: SoundConfig {
            master: n(1.0),
            sfx: n(1.0),
            music: n(0.4),
            ambience: n(0.6),
            enabled: true,
            music_enabled: true,
            ambience_enabled: true,
            error_speech: true,
            background_sound: false,
            reverb: false,
            limiter: true,
            listener_at_character: true,
            emote_sounds: true,
            zone_music_no_delay: false,
        },
        view: ViewConfig {
            ui_scale: n(0.9),
            farclip: n(350.0),
            nearclip: n(0.1),
            deselect_on_click: true,
            auto_self_cast: false,
            assist_attack: false,
        },
        look: LookConfig {
            invert_pitch: false,
            sensitivity: n(1.0),
            yaw_speed: n(180.0),
            pitch_speed: n(90.0),
        },
        follow: FollowConfig {
            distance_factor: n(1.0),
            style: FollowStyle::Smart,
            tracking_style: FollowStyle::Smart,
            yaw_speed: n(180.0),
        },
        damage_text: DamageTextGates {
            combat_damage: true,
            pet_melee: true,
            pet_spell: true,
            log_periodic: true,
        },
        names: NameConfig {
            auto_loot: false,
            player: true,
            npc: true,
            own: false,
            player_guild: true,
            enemy_plates: true,
            friend_plates: false,
            show_loot_spam: true,
        },
        camera_opts: CameraOptions {
            pivot: true,
            water_collision: true,
            pivot_dx_max: n(0.05),
            pivot_dy_min: n(0.0),
            target_smooth_speed: n(90.0),
            terrain_tilt: false,
            ground_smooth_speed: n(7.5),
            tilt_time_min: n(3.0),
            tilt_time_max: n(10.0),
            bobbing: false,
            bob_lr_amplitude: n(2.0),
            bob_ud_amplitude: n(2.0),
            bob_frequency: n(0.8),
            bob_smooth_speed: n(0.8),
        },
        interface: InterfaceConfig {
            show_tips: true,
            next_tip: 0,
            profanity: true,
            spam: true,
            bubbles: true,
            party_bubbles: true,
            guild_notify: false,
            block_trades: false,
        },
        scene: SceneConfig {
            clutter: ClutterDensity::Stop(n(2.0)),
            weather_density: 3,
            display_gamma: n(1.0),
            outdoor_zoom: 3,
            inside_zoom: 3,
        },
        shadow: ShadowConfig {
            vsync: true,
            world_shadows: true,
            character_shadows: true,
            shadow_distance: n(80.0),
            shadow_map_size: DEFAULT_SHADOW_MAP_SIZE,
            shadow_filter: DEFAULT_SHADOW_FILTER,
            character_shadow_rate: DEFAULT_SHADOW_RATE,
            world_shadow_rate: DEFAULT_SHADOW_RATE,
            shadow_caster_reach: n(1.0),
        },
        interior: InteriorConfig {
            light: true,
            ambient: n(0.03),
            fill: n(0.12),
            exposure: n(1.0),
            atten_scale: n(1.0),
            room_gate: true,
            shadows: true,
            exterior_shadows: true,
            shadow_casters: 12,
            shadow_dynamic: 4,
            shadow_entity_rate: 30,
            shadow_soft: n(1.0),
            torch_strength: n(0.8),
            debug: 0,
        },
        gains: LightGains {
            night_gain: n(0.45),
            interior_gain: n(0.5),
            interior_daylight: n(0.3),
            interior_bake_floor: n(0.12),
            fire_light_gain: n(1.0),
            spell_light_gain: n(1.0),
            fire_flicker: n(1.0),
        },
        display: DisplayConfig {
            mode: DisplayMode::Windowed,
            pane_half: true,
            render_scale: n(1.0),
            fps_journal: false,
            samples: 1,
            trilinear: true,
            aniso: 1,
            windowed: (1280, 720),
        },
    }
}

/// The density of the ground cover.
fn density(clutter: ClutterDensity) -> f32 {
    match clutter {
        ClutterDensity::Stop(v) => f(v) + 1.0,
        ClutterDensity::Cells(v) => f(v) / 16.0,
    }
}

struct Client {
    knobs: Knobs,
    realmlist: String,
}

impl Client {
    fn new() -> Client {
        Client {
            knobs: knobs(),
            realmlist: String::from("localhost"),
        }
    }

    fn write(&mut self, name: &str, text: &str) -> bool {
        apply_to_knobs(
            name,
            &reading(name, text),
            &limits(),
            &mut self.knobs,
            &mut self.realmlist,
        )
    }
}

fn agrees(ours: &str, theirs: &str) -> bool {
    match (ours.parse::<f32>(), theirs.parse::<f32>()) {
        (Ok(a), Ok(b)) => a == b,
        _ => ours == theirs,
    }
}

#[test]
fn defaults_stand_where_the_reference_column_says() {
    for row in table() {
        let name = row.name;
        match row.reference {
            Reference::Same(value) => assert!(agrees(row.default, value), "{name}"),
            Reference::Deviates { value, why } => {
                assert!(!agrees(row.default, value), "{name}");
                assert!(!why.trim().is_empty(), "{name}: a deviation owes a reason");
            }
            Reference::Overridden { registered, why } => {
                assert!(!agrees(row.default, registered), "{name}");
                assert!(!why.trim().is_empty(), "{name}: an override owes its mechanism");
            }
            Reference::Ours(why) => assert!(!why.trim().is_empty(), "{name}"),
        }
    }
}

#[test]
fn the_options_that_leave_the_reference_are_this_list_and_no_other() {
    let mut names: Vec<&str> = table()
        .iter()
        .filter(|r| matches!(r.reference, Reference::Deviates { .. }))
        .map(|r| r.name)
        .collect();
    names.sort_unstable();
    assert_eq!(
        names,
        vec![
            "SoundReverb",
            "autoSelfCast",
            "frillDensity",
            "gxApi",
            "gxColorBits",
            "gxDepthBits",
            "gxResolution",
            "realmList",
            "weatherDensity",
        ],
    );
}

#[test]
fn registered_defaults_mirror_the_code_truths() {
    let rows = table();
    let d: BTreeMap<&str, f32> = rows
        .iter()
        .filter_map(|r| r.default.parse::<f32>().ok().map(|v| (r.name, v)))
        .collect();
    assert_eq!(d["Sound_EnableSoundWhenGameIsInBG"], 0.0);
    assert_eq!(d["SoundReverb"], 0.0, "zone reverb ships off");
    assert_eq!(d["SoundOutputLimiter"], 1.0, "the output limiter ships on");
    assert_eq!(d["farclip"], 350.0);
    assert_eq!(d["gxMultisample"], 1.0);
    assert_eq!(d["cameraSmoothStyle"], 1.0);
    assert_eq!(d["cameraSmoothTrackingStyle"], 1.0);
    assert_eq!(d["cameraYawSmoothSpeed"], 180.0);
    assert_eq!(d["guildMemberNotify"], 0.0);
    assert_eq!(d["BlockTrades"], 0.0, "an unset BlockTrades allows trades");
    assert_eq!(d["UnitNamePlayer"], 1.0);
    assert_eq!(d["UnitNameNPC"], 0.0);
    assert_eq!(d["UnitNameOwn"], 0.0);
    assert_eq!(d["UnitNamePlayerGuild"], 1.0);
    assert_eq!(d["cameraPivot"], 1.0);
    assert_eq!(d["cameraWaterCollision"], 1.0);
    assert_eq!(d["cameraTerrainTilt"], 0.0);
    assert_eq!(d["cameraBobbing"], 0.0);
    assert_eq!(d["nameplateShowEnemies"], 0.0);
    assert_eq!(d["nameplateShowFriends"], 0.0);
    assert_eq!(d["WorldDetail"], 1.0);
    assert_eq!(d["frillDensity"], (d["WorldDetail"] + 1.0) * 16.0);
    assert_eq!(d["ChatBubbles"], 1.0);
    assert_eq!(d["ChatBubblesParty"], 0.0);
    assert_eq!(d["minimapZoom"], 3.0);
    assert_eq!(d["minimapInsideZoom"], 3.0);
    assert_eq!(d["weatherDensity"], 3.0);
    assert_eq!(d["gxVSync"], 1.0);
    assert_eq!(d["shadowMapSize"], DEFAULT_SHADOW_MAP_SIZE as f32);
    assert_eq!(d["shadowFilter"], DEFAULT_SHADOW_FILTER as f32);
    assert_eq!(d["characterShadowRate"], DEFAULT_SHADOW_RATE as f32);
    assert_eq!(d["worldShadowRate"], DEFAULT_SHADOW_RATE as f32);
    assert_eq!(d["interiorGain"], 0.5);
    assert_eq!(d["interiorBakeFloor"], 0.12);
    assert_eq!(d["spellLightGain"], 1.0, "the spell lane ships neutral");
    assert_eq!(d["renderScale"], 1.0);
}

#[test]
fn apply_parses_clamps_and_reports_unknowns() {
    let mut c = Client::new();
    assert!(c.write("MusicVolume", "0.7"));
    assert_eq!(f(c.knobs.sound.music), 0.7);
    assert!(c.write("realmList", "logon.example.org:3724"));
    assert_eq!(c.realmlist, "logon.example.org:3724");
    assert!(c.write("realmlist", r#"SET realmlist "elsewhere.example.org""#));
    assert_eq!(c.realmlist, "elsewhere.example.org");
    assert!(c.write("realmList", "not an address"));
    assert_eq!(
        c.realmlist, "elsewhere.example.org",
        "a known key with a bad value is consumed, and the resource keeps its truth",
    );
    assert!(c.write("mastervolume", "7"));
    assert_eq!(f(c.knobs.sound.master), 1.0);
    assert!(c.write("farclip", "50"));
    assert_eq!(c.knobs.view.farclip, limits().farclip.0);
    assert!(c.write("nearclip", "0.001"));
    assert_eq!(f(c.knobs.view.nearclip), 0.01);
    assert!(c.write("nearclip", "9"));
    assert_eq!(f(c.knobs.view.nearclip), 0.33);
    assert!(c.write("nearclip", "0.3"));
    assert_eq!(f(c.knobs.view.nearclip), 0.3);
    assert!(c.write("gxMultisample", "4"));
    assert_eq!(c.knobs.display.samples, 4);
    assert!(c.write("anisotropic", "99"));
    assert_eq!(c.knobs.display.aniso, MAX_ANISO);
    assert!(c.write("anisotropic", "0"));
    assert_eq!(c.knobs.display.aniso, 1);
    assert!(c.write("trilinear", "0"));
    assert!(!c.knobs.display.trilinear);
    assert!(c.write("trilinear", "1"));
    assert!(c.knobs.display.trilinear);
    assert!(c.write("gxmultisample", "99"));
    assert_eq!(c.knobs.display.samples, 4);
    assert!(c.write("gxMultisample", "8"));
    assert_eq!(
        c.knobs.display.samples, 4,
        "a device that stops at 4x must never be handed an 8"
    );
    assert!(c.write("gxmultisample", "2"));
    assert_eq!(c.knobs.display.samples, 2);
    assert!(c.write("gxmultisample", "0"));
    assert_eq!(c.knobs.display.samples, 1);
    assert!(c.write("renderScale", "0.75"));
    assert_eq!(f(c.knobs.display.render_scale), 0.75);
    assert!(c.write("renderscale", "9"));
    assert_eq!(c.knobs.display.render_scale, limits().render_scale.1);
    assert!(c.write("renderscale", "0"));
    assert_eq!(c.knobs.display.render_scale, limits().render_scale.0);
    assert!(!c.knobs.display.fps_journal);
    assert!(c.write("fpsJournal", "1"));
    assert!(c.knobs.display.fps_journal);
    assert!(c.write("fpsjournal", "0"));
    assert!(!c.knobs.display.fps_journal);
    assert!(c.write("EnableMusic", "0"));
    assert!(!c.knobs.sound.music_enabled);
    assert!(c.write("mastersoundeffects", "1"));
    assert!(c.knobs.sound.enabled);
    assert!(c.write("deselectonclick", "0"));
    assert!(!c.knobs.view.deselect_on_click);
    assert!(c.write("MouseInvertPitch", "1"));
    assert!(c.knobs.look.invert_pitch);
    assert!(c.write("mousespeed", "1.4"));
    assert_eq!(f(c.knobs.look.sensitivity), 1.4);
    assert!(c.write("mousespeed", "9"));
    assert_eq!(f(c.knobs.look.sensitivity), 1.5);
    assert!(c.write("cameraSmoothStyle", "0"));
    assert_eq!(c.knobs.follow.style, FollowStyle::Never);
    assert!(c.write("camerasmoothstyle", "2"));
    assert_eq!(c.knobs.follow.style, FollowStyle::Always);
    assert!(c.write("cameraSmoothStyle", "3"));
    assert_eq!(c.knobs.follow.style, FollowStyle::Never);
    assert!(c.write("cameraSmoothStyle", "1"));
    assert_eq!(c.knobs.follow.style, FollowStyle::Smart);
    assert!(c.write("cameraSmoothTrackingStyle", "2"));
    assert_eq!(c.knobs.follow.tracking_style, FollowStyle::Always);
    assert_eq!(c.knobs.follow.style, FollowStyle::Smart, "and only that one");
    assert!(c.write("cameraYawSmoothSpeed", "270"));
    assert_eq!(f(c.knobs.follow.yaw_speed), 270.0);
    assert!(c.write("cameraYawSmoothSpeed", "9000"));
    assert_eq!(f(c.knobs.follow.yaw_speed), 270.0);
    assert!(c.write("cameraDistanceMaxFactor", "1"));
    assert_eq!(15.0 * f(c.knobs.follow.distance_factor), 15.0);
    assert!(c.write("cameradistancemaxfactor", "5"));
    assert_eq!(15.0 * f(c.knobs.follow.distance_factor), 30.0);
    assert!(c.write("autoLootDefault", "1"));
    assert!(c.knobs.names.auto_loot);
    assert!(c.write("showLootSpam", "0"));
    assert!(!c.knobs.names.show_loot_spam);
    assert!(c.write("guildMemberNotify", "1"));
    assert!(c.knobs.interface.guild_notify);
    assert!(c.write("BlockTrades", "1"));
    assert!(c.knobs.interface.block_trades);
    assert!(c.write("UnitNameNPC", "0"));
    assert!(!c.knobs.names.npc);
    assert!(c.write("unitnameown", "1"));
    assert!(c.knobs.names.own);
    assert!(c.write("nameplateShowEnemies", "0"));
    assert!(!c.knobs.names.enemy_plates);
    assert!(c.write("nameplateshowfriends", "1"));
    assert!(c.knobs.names.friend_plates);
    assert!(c.write("ChatBubbles", "0"));
    assert!(!c.knobs.interface.bubbles);
    assert!(c.write("chatbubblesparty", "0"));
    assert!(!c.knobs.interface.party_bubbles);
    assert!(c.write("WorldDetail", "0"));
    assert_eq!(density(c.knobs.scene.clutter), 1.0);
    assert!(c.write("worlddetail", "7"));
    assert_eq!(density(c.knobs.scene.clutter), 3.0);
    assert!(c.write("frillDensity", "48"));
    assert_eq!(density(c.knobs.scene.clutter), 3.0);
    assert!(c.write("frilldensity", "16"));
    assert_eq!(density(c.knobs.scene.clutter), 1.0);
    assert!(c.write("frillDensity", "256"));
    assert_eq!(density(c.knobs.scene.clutter), 16.0);
    assert!(c.write("frillDensity", "9000"));
    assert_eq!(density(c.knobs.scene.clutter), 16.0);
    assert!(c.write("frillDensity", "0"));
    assert_eq!(density(c.knobs.scene.clutter), 1.0 / 16.0);
    assert!(c.write("WorldDetail", "1"));
    assert_eq!(density(c.knobs.scene.clutter), 2.0);
    for (wrote, want) in [
        ("0", 0u8),
        ("1", 1),
        ("2", 2),
        ("3", 3),
        ("2.9", 2),
        ("9", 3),
        ("-4", 0),
    ] {
        assert!(c.write("weatherDensity", wrote));
        assert_eq!(c.knobs.scene.weather_density, want, "weatherDensity {wrote}");
    }
    for (wrote, want) in [("1.000000", 1.0), ("0.500000", 0.5), ("1.500000", 1.5)] {
        assert!(c.write("gamma", wrote));
        assert_eq!(f(c.knobs.scene.display_gamma), want, "gamma {wrote}");
    }
    assert!(c.write("gamma", "-4.000000"));
    assert_eq!(c.knobs.scene.display_gamma, limits().gamma.0);
    assert!(c.write("gamma", "99"));
    assert_eq!(c.knobs.scene.display_gamma, limits().gamma.1);
    assert_eq!(16.0 * density(c.knobs.scene.clutter), 32.0);
    let rows = table();
    for key in ["worlddetail", "frilldensity"] {
        assert!(is_registered(&rows, key));
        c.knobs.scene.clutter = ClutterDensity::Cells(n(8.0));
        assert!(c.write(key, "48"));
        assert_ne!(density(c.knobs.scene.clutter), 0.5, "{key}: reached no knob");
    }
    assert!(is_registered(&rows, "gamma"));
    for (stop, frill) in [16u32, 32, 48].iter().enumerate() {
        assert!(c.write("WorldDetail", &stop.to_string()));
        let by_stop = density(c.knobs.scene.clutter);
        c.knobs.scene.clutter = ClutterDensity::Cells(n(8.0));
        assert!(c.write("frillDensity", &frill.to_string()));
        assert_eq!(density(c.knobs.scene.clutter), by_stop, "stop {stop}");
        assert_eq!(16.0 * density(c.knobs.scene.clutter), *frill as f32);
    }
    assert!(c.write("WorldDetail", "1"));
    assert_eq!(density(c.knobs.scene.clutter), 2.0);
    assert!(c.write("minimapZoom", "5"));
    assert_eq!(c.knobs.scene.outdoor_zoom, 5);
    assert_eq!(c.knobs.scene.inside_zoom, 3, "the two indices are independent");
    assert!(c.write("minimapinsidezoom", "9"));
    assert_eq!(c.knobs.scene.inside_zoom, MAX_MINIMAP_ZOOM);
    assert!(c.write("minimapZoom", "-2"));
    assert_eq!(c.knobs.scene.outdoor_zoom, 0);
    assert!(c.write("uiScale", "banana"));
    assert_eq!(f(c.knobs.view.ui_scale), 0.9);
    assert!(!c.write("bogus", "1"));
}

#[test]
fn an_unknown_name_is_refused_whatever_is_written() {
    let mut c = Client::new();
    let mut persist = CvarPersist::new();
    for text in ["1", "banana", ""] {
        assert!(!c.write("bogus", text), "{text}");
        let changes = vec![(String::from("bogus"), reading("bogus", text))];
        persist.sync_cvars(&changes, 5, &limits(), &mut c.knobs, &mut c.realmlist);
        assert!(!persist.dirty, "a refused write leaves nothing to save");
    }
    assert_eq!(format!("{:?}", c.knobs), format!("{:?}", knobs()));
    assert!(c.write("cameraView", "banana"));
    assert!(c.write("CombatDeathLogRange", "banana"));
    assert_eq!(format!("{:?}", c.knobs), format!("{:?}", knobs()));
}

#[test]
fn every_registered_setting_is_taken_at_its_default() {
    for row in table() {
        let mut c = Client::new();
        for name in [
            row.name.to_string(),
            row.name.to_ascii_lowercase(),
            row.name.to_ascii_uppercase(),
        ] {
            let mut read = reading(&name, row.default);
            read.view_setting = row.name.starts_with("cameraView")
                || row.name.starts_with("cameraSaved");
            read.combat_range = row.name.starts_with("CombatLogRange")
                || row.name == "CombatDeathLogRange";
            let taken =
                apply_to_knobs(&name, &read, &limits(), &mut c.knobs, &mut c.realmlist);
            assert!(taken, "{name}: a write of it would be lost at the save");
        }
    }
}

#[test]
fn a_setting_without_a_knob_survives_the_quit() {
    for name in [
        "autoClearAFK",
        "SoundBufferSize",
        "useUiScale",
        "gxColorBits",
        "gxDepthBits",
        "statusBarText",
        "lastCharacterIndex",
    ] {
        let mut run = Run::launch("");
        run.engine.set_cvar(name, "2");
        run.update();
        assert!(run.persist.dirty, "{name}");
        assert_eq!(format!("{:?}", run.client.knobs), format!("{:?}", knobs()));
        run.exit();
        assert!(run.file.contains(&format!("{name} = \"2\"")), "{}", run.file);
        let next = Run::launch(&run.file);
        assert_eq!(next.engine.cvar(name), Some("2"));
    }
}

#[test]
fn a_window_size_is_taken_where_the_text_reads_as_one() {
    let mut c = Client::new();
    assert!(c.write("gxResolution", "1600x900"));
    assert_eq!(c.knobs.display.windowed, (1600, 900));
    assert!(c.write("gxResolution", "wide"));
    assert_eq!(c.knobs.display.windowed, (1600, 900));
    assert!(c.write("realmName", "Somewhere"));
    assert!(c.write("cameraView", "2"));
    assert!(c.write("CombatDeathLogRange", "60"));
}

fn map(entries: &[(&str, &str)]) -> ConfigMap {
    let list: Vec<(String, String)> = entries
        .iter()
        .map(|(k, v)| (k.to_string(), v.to_string()))
        .collect();
    ConfigMap::from_entries(&list)
}

fn live(name: &str, value: &str, default: &str) -> Live {
    Live {
        name: name.to_string(),
        value: value.to_string(),
        default: default.to_string(),
    }
}

#[test]
fn compose_writes_the_diff_and_preserves_what_it_does_not_own() {
    let previous = map(&[("FutureKnob", "3"), ("uiScale", "0.8"), ("farclip", "400")]);
    let env = vec!["uiscale".to_string()];
    let snapshot = vec![
        live("MusicVolume", "0.7", "0.4"),
        live("MasterVolume", "1", "1"),
        live("uiScale", "1.2", "0.9"),
        live("farclip", "350", "350"),
    ];
    let out = compose_file(&previous, &env, &snapshot);
    assert_eq!(out.get("MusicVolume").as_deref(), Some("0.7"));
    assert!(out.get("MasterVolume").is_none());
    assert_eq!(out.get("uiScale").as_deref(), Some("0.8"));
    assert!(out.get("farclip").is_none());
    assert_eq!(out.get("FutureKnob").as_deref(), Some("3"));
}

#[test]
fn compose_keeps_the_spelling_the_file_has() {
    let previous = map(&[("musicvolume", "0.1")]);
    let out = compose_file(&previous, &Vec::new(), &vec![live("MusicVolume", "0.7", "0.4")]);
    assert_eq!(out.get("musicvolume").as_deref(), Some("0.7"));
    assert!(out.get("MusicVolume").is_none());
    let again = compose_file(&out, &Vec::new(), &vec![live("MusicVolume", "0.7", "0.4")]);
    assert_eq!(again.entries(), out.entries());
}

#[test]
fn the_toml_round_trips() {
    let cvars = map(&[("MusicVolume", "0.7")]);
    let text = file_text(&cvars);
    assert!(text.starts_with(header()));
    match stored_config(Some(&text)) {
        StoredConfig::Table(back) => assert_eq!(back.entries(), cvars.entries()),
        other => panic!("{other:?}"),
    }
    let hand = "# my note\n[cvars]\nFarclip = \"500\"\n";
    match stored_config(Some(hand)) {
        StoredConfig::Table(parsed) => assert_eq!(parsed.get("Farclip").as_deref(), Some("500")),
        other => panic!("{other:?}"),
    }
}

#[test]
fn awkward_texts_survive_the_file() {
    let cvars = map(&[
        ("a \"quoted\" key", "tab\tand\nnewline"),
        ("", ""),
        ("caf\u{e9}", "\u{1f980} \\ # [x]"),
        ("gxResolution", "1280x720"),
        ("zero", "\u{0}\u{7f}"),
    ]);
    match stored_config(Some(&file_text(&cvars))) {
        StoredConfig::Table(back) => assert_eq!(back.entries(), cvars.entries()),
        other => panic!("{other:?}"),
    }
    match stored_config(Some(&file_text(&ConfigMap::new()))) {
        StoredConfig::Table(back) => assert!(back.is_empty()),
        other => panic!("{other:?}"),
    }
}

#[test]
fn a_file_that_is_none_is_told_from_no_file() {
    assert!(matches!(stored_config(None), StoredConfig::Absent));
    assert!(matches!(stored_config(Some("[cvars\n")), StoredConfig::Bad));
    assert!(matches!(
        stored_config(Some("[cvars]\nfarclip = 350\n")),
        StoredConfig::Bad
    ));
    assert!(matches!(stored_config(Some("cvars = 3\n")), StoredConfig::Bad));
    match stored_config(Some("[other]\nx = 1\n")) {
        StoredConfig::Table(t) => assert!(t.is_empty()),
        other => panic!("{other:?}"),
    }
    match stored_config(Some("")) {
        StoredConfig::Table(t) => assert!(t.is_empty()),
        other => panic!("{other:?}"),
    }
}

#[test]
fn a_parsed_document_is_decoded() {
    let document = Some(vec![(
        String::from("cvars"),
        Section::Table(vec![(String::from("farclip"), Some(String::from("400")))]),
    )]);
    match decode_config(&document) {
        StoredConfig::Table(t) => assert_eq!(t.get("farclip").as_deref(), Some("400")),
        other => panic!("{other:?}"),
    }
    assert!(matches!(decode_config(&None), StoredConfig::Bad));
    let number = Some(vec![(String::from("cvars"), Section::Other)]);
    assert!(matches!(decode_config(&number), StoredConfig::Bad));
}

#[test]
fn a_date_reads_as_a_table_of_one_entry() {
    match stored_config(Some("cvars = 1979-05-27 07:32:00\n")) {
        StoredConfig::Table(t) => assert_eq!(
            t.entries(),
            vec![(
                "$__toml_private_datetime".to_string(),
                "1979-05-27T07:32:00".to_string()
            )]
        ),
        other => panic!("{other:?}"),
    }
    assert!(matches!(
        stored_config(Some("[cvars]\nfarclip = 1979-05-27\n")),
        StoredConfig::Bad
    ));
}

#[test]
fn a_boot_setting_is_read_without_case() {
    let stored = stored_config(Some("[cvars]\nGXVSync = \"0\"\n"));
    assert_eq!(boot_cvar(&stored, "gxVSync").as_deref(), Some("0"));
    assert!(boot_cvar(&stored, "farclip").is_none());
    assert!(boot_cvar(&StoredConfig::Absent, "gxVSync").is_none());
}

#[test]
fn the_string_valued_cvars_are_the_realm_and_the_windowed_size() {
    let rows = table();
    let mut strings: Vec<&str> = rows
        .iter()
        .filter(|r| r.default.parse::<f32>().is_err())
        .map(|r| r.name)
        .collect();
    strings.sort_unstable();
    assert_eq!(
        strings,
        vec!["gxApi", "gxResolution", "realmList", "realmName"]
    );
    let default_of = |name: &str| {
        rows.iter()
            .find(|r| r.name == name)
            .map(|r| r.default)
            .expect("registered")
    };
    assert_eq!(default_of("realmName"), "");
    assert_eq!(default_of("gxApi"), "");
    let mut c = Client::new();
    assert!(c.write("gxResolution", default_of("gxResolution")));
    assert_eq!(c.knobs.display.windowed, (1600, 900));
    assert_eq!(default_of("realmList"), "localhost");
}

#[test]
fn every_string_valued_row_is_claimed_before_the_numeric_parse() {
    for r in table() {
        let key = r.name.to_ascii_lowercase();
        assert_eq!(
            r.default.parse::<f32>().is_err(),
            is_string_valued(&key),
            "{}",
            r.name,
        );
    }
}

#[test]
fn the_table_names_every_setting_once() {
    let rows = table();
    assert!(has_distinct_names(&rows));
    let pairs = registered_pairs(&rows);
    assert_eq!(pairs.len(), rows.len());
    assert_eq!(pairs[0], (rows[0].name, rows[0].default));
    assert!(!is_registered(&rows, "bogus"));
}

#[test]
fn a_session_answers_only_for_registered_settings() {
    let ranges = CombatRanges {
        party: n(50.0),
        party_pet: n(50.0),
        friendly_player: n(50.0),
        friendly_pet: n(50.0),
        hostile_player: n(50.0),
        hostile_pet: n(50.0),
        creature: n(50.0),
        death: n(60.0),
    };
    let rows = table();
    let answers = session_rows(&knobs(), &ranges, "CombatDeathLogRange");
    for answer in &answers {
        assert!(
            is_registered(&rows, &answer.name.to_ascii_lowercase()),
            "{}",
            answer.name
        );
    }
    assert_eq!(spell(&Shown::Flag(true), "r", None).as_deref(), Some("1"));
    assert_eq!(spell(&Shown::Count(2048), "r", None).as_deref(), Some("2048"));
    assert_eq!(spell(&Shown::Integer(-7), "r", None).as_deref(), Some("-7"));
    assert_eq!(
        spell(&Shown::Size(1280, 720), "r", None).as_deref(),
        Some("1280x720")
    );
    assert_eq!(spell(&Shown::Realm, "r", None).as_deref(), Some("r"));
    assert_eq!(spell(&Shown::Backend, "r", None).as_deref(), Some(""));
    assert_eq!(
        spell(&Shown::Backend, "r", Some("vulkan")).as_deref(),
        Some("vulkan")
    );
    assert!(spell(&Shown::Number(n(0.5)), "r", None).is_none());
}

const NO_SWITCHES: LaunchSwitches = LaunchSwitches {
    ui_scale: false,
    farclip: false,
    clutter_density: false,
    no_vsync: false,
    trilinear: false,
    aniso: false,
    windowed: false,
    msaa: false,
    render_scale: false,
    host: false,
};

#[test]
fn the_video_window_is_told_what_the_client_offers() {
    let caps = video_caps();
    assert!(caps.anisotropic && caps.trilinear && caps.hardware_cursor);
    assert!(caps.pixel_shaders && caps.vertex_shaders && !caps.triple_buffering);
    assert_eq!(caps.max_anisotropy, MAX_ANISO);
}

#[test]
fn a_density_switch_takes_both_spellings() {
    let mut keys = Vec::new();
    let mut switches = NO_SWITCHES;
    switches.clutter_density = true;
    session_owned_keys(&mut keys, &switches);
    assert_eq!(keys, vec!["worlddetail", "frilldensity", "gxapi"]);
}

#[test]
fn a_change_is_saved_once_it_is_quiet() {
    let mut persist = CvarPersist::with_stored("farclip", "400");
    let snapshot = vec![
        live("farclip", "350", "350"),
        live("MusicVolume", "0.75", "0.4"),
    ];
    assert!(persist
        .save_config(5 * SAVE_QUIET, true, Some(&snapshot), true)
        .is_none());
    persist.write_host_cvar(SAVE_QUIET);
    assert!(persist
        .save_config(2 * SAVE_QUIET - 1, false, Some(&snapshot), true)
        .is_none());
    assert!(persist.dirty);
    let save = persist
        .save_config(2 * SAVE_QUIET, false, Some(&snapshot), true)
        .expect("due");
    assert!(save.text.contains("MusicVolume = \"0.75\""), "{}", save.text);
    assert!(!save.text.contains("farclip"), "{}", save.text);
    persist.finish_save(save.cvars, true);
    assert!(!persist.dirty);
    assert_eq!(persist.stored("musicvolume").as_deref(), Some("0.75"));
    assert!(persist.stored("farclip").is_none());
}

#[test]
fn the_file_is_never_composed_out_of_nothing() {
    let mut persist = CvarPersist::with_stored("farclip", "400");
    persist.write_host_cvar(0);
    assert!(persist.save_config(0, true, Some(&Vec::new()), true).is_none());
    assert!(!persist.dirty);
    assert_eq!(persist.stored("farclip").as_deref(), Some("400"));
    persist.write_host_cvar(0);
    let snapshot = vec![live("farclip", "400", "350")];
    assert!(persist.save_config(0, true, Some(&snapshot), false).is_none());
    assert!(!persist.dirty);
    persist.write_host_cvar(0);
    assert!(persist.save_config(0, true, None, true).is_none());
    assert!(persist.dirty, "without an engine the change waits");
}

#[test]
fn a_loaded_file_reaches_the_knobs_and_the_next_save() {
    let stored = stored_config(Some("[cvars]\nMusicVolume = \"0.1\"\nFuture = \"7\"\n"));
    let readings = vec![reading("Future", "7"), reading("MusicVolume", "0.1")];
    let mut persist = CvarPersist::new();
    let mut c = Client::new();
    persist.load_config(
        &NO_SWITCHES,
        stored,
        &table(),
        &readings,
        &limits(),
        &mut c.knobs,
        &mut c.realmlist,
    );
    assert_eq!(f(c.knobs.sound.music), 0.1);
    assert!(persist.claim(1));
    assert!(!persist.claim(1));
    let base = persist.saved_base();
    assert_eq!(
        base,
        vec![
            ("Future".to_string(), "7".to_string()),
            ("MusicVolume".to_string(), "0.1".to_string()),
        ]
    );
    let changes = vec![(String::from("MusicVolume"), reading("MusicVolume", "0.75"))];
    persist.sync_cvars(&changes, 9, &limits(), &mut c.knobs, &mut c.realmlist);
    assert_eq!(f(c.knobs.sound.music), 0.75);
    let snapshot = vec![
        live("MusicVolume", "0.75", "0.4"),
        live("MasterVolume", "1", "1"),
    ];
    let save = persist.save_config(9, true, Some(&snapshot), true).expect("due");
    match stored_config(Some(&save.text)) {
        StoredConfig::Table(back) => assert_eq!(
            back.entries(),
            vec![
                ("Future".to_string(), "7".to_string()),
                ("MusicVolume".to_string(), "0.75".to_string()),
            ]
        ),
        other => panic!("{other:?}"),
    }
}

#[test]
fn a_session_owned_setting_is_neither_loaded_nor_saved() {
    let stored = stored_config(Some("[cvars]\nuiScale = \"0.8\"\n"));
    let mut switches = NO_SWITCHES;
    switches.ui_scale = true;
    let mut persist = CvarPersist::new();
    let mut c = Client::new();
    persist.load_config(
        &switches,
        stored,
        &table(),
        &vec![reading("uiScale", "0.8")],
        &limits(),
        &mut c.knobs,
        &mut c.realmlist,
    );
    assert_eq!(f(c.knobs.view.ui_scale), 0.9);
    assert!(persist.saved_base().is_empty());
    persist.write_host_cvar(0);
    let snapshot = vec![live("uiScale", "1.2", "0.9")];
    let save = persist.save_config(0, true, Some(&snapshot), true).expect("due");
    assert_eq!(save.cvars.get("uiScale").as_deref(), Some("0.8"));
}

#[test]
fn a_dying_engine_hands_its_last_changes_over() {
    let mut persist = CvarPersist::with_stored("MusicVolume", "0.1");
    let mut c = Client::new();
    let changes = vec![(String::from("MusicVolume"), reading("MusicVolume", "0.75"))];
    let snapshot = vec![live("MusicVolume", "0.75", "0.4")];
    persist.fold_dying_vm_cvars(
        &changes,
        &snapshot,
        3,
        &limits(),
        &mut c.knobs,
        &mut c.realmlist,
    );
    assert_eq!(f(c.knobs.sound.music), 0.75);
    assert_eq!(persist.stored("MusicVolume").as_deref(), Some("0.75"));
}

#[test]
fn the_addon_check_is_on_unless_the_file_says_not() {
    assert!(CvarPersist::new().addon_version_check());
    assert!(!CvarPersist::with_stored("CheckAddonVersion", "0").addon_version_check());
    assert!(CvarPersist::with_stored("checkAddonVersion", "1").addon_version_check());
}

fn loaded(text: &str) -> Client {
    let stored = stored_config(Some(text));
    let entries = match &stored {
        StoredConfig::Table(table) => table.entries(),
        _ => Vec::new(),
    };
    let readings = entries.iter().map(|(k, v)| reading(k, v)).collect();
    let mut persist = CvarPersist::new();
    let mut c = Client::new();
    persist.load_config(
        &NO_SWITCHES,
        stored,
        &table(),
        &readings,
        &limits(),
        &mut c.knobs,
        &mut c.realmlist,
    );
    c
}

#[test]
fn a_file_cannot_take_a_knob_out_of_its_range() {
    let c = loaded(
        "[cvars]\nMusicVolume = \"inf\"\nanisotropic = \"-1\"\nnightGain = \"0\"\n\
         shadowMapSize = \"3000\"\nweatherDensity = \"99\"\ninteriorShadowCasters = \"0\"\n",
    );
    assert_eq!(f(c.knobs.sound.music), 1.0);
    assert_eq!(c.knobs.display.aniso, 1);
    assert_eq!(f(c.knobs.gains.night_gain), 0.2);
    assert_eq!(c.knobs.shadow.shadow_map_size, 4096);
    assert_eq!(c.knobs.scene.weather_density, 3);
    assert_eq!(c.knobs.interior.shadow_casters, 1);
}

#[test]
fn a_file_of_unknown_settings_changes_nothing() {
    let c = loaded("[cvars]\nFuture = \"7\"\nOther = \"x\"\ngxApi = \"metal\"\n");
    assert_eq!(format!("{:?}", c.knobs), format!("{:?}", knobs()));
    assert_eq!(c.realmlist, "localhost");
}

#[test]
fn a_setting_at_zero_or_off_reads_as_the_machine_reads_it() {
    let mut c = Client::new();
    assert!(c.write("interiorShadowDynamic", "0"));
    assert_eq!(c.knobs.interior.shadow_dynamic, 1);
    assert!(c.write("interiorShadowDynamic", "99"));
    assert_eq!(c.knobs.interior.shadow_dynamic, 8);
    assert!(c.write("interiorShadowEntityRate", "-3"));
    assert_eq!(c.knobs.interior.shadow_entity_rate, 0);
    assert!(c.write("interiorShadowEntityRate", "1e9"));
    assert_eq!(c.knobs.interior.shadow_entity_rate, 240);
    assert!(c.write("gxWindow", "0"));
    assert_eq!(c.knobs.display.mode, DisplayMode::Fullscreen);
    assert!(c.write("gxwindow", "1"));
    assert_eq!(c.knobs.display.mode, DisplayMode::Windowed);
    assert!(c.write("gameTip", "12.9"));
    assert_eq!(c.knobs.interface.next_tip, 12);
    assert!(c.write("MusicVolume", "NaN"));
    assert!(f(c.knobs.sound.music).is_nan());
}

/// A script engine's table of settings, and the changes scripts made.
struct Engine {
    rows: Vec<Live>,
    changes: Vec<(String, String)>,
}

impl Engine {
    fn set_host(&mut self, name: &str, value: &str) {
        for row in &mut self.rows {
            if row.name.eq_ignore_ascii_case(name) {
                row.value = value.to_string();
            }
        }
    }

    fn set_cvar(&mut self, name: &str, value: &str) {
        self.set_host(name, value);
        self.changes.push((name.to_string(), value.to_string()));
    }

    fn cvar(&self, name: &str) -> Option<&str> {
        self.rows.iter().find(|r| r.name == name).map(|r| r.value.as_str())
    }
}

/// A client with its engine, and the text of its file in place of a file.
struct Run {
    persist: CvarPersist,
    client: Client,
    engine: Engine,
    file: String,
}

impl Run {
    fn launch(file: &str) -> Run {
        let client = loaded(file);
        let mut persist = CvarPersist::new();
        let stored = stored_config(Some(file));
        let entries = match &stored {
            StoredConfig::Table(table) => table.entries(),
            _ => Vec::new(),
        };
        let readings = entries.iter().map(|(k, v)| reading(k, v)).collect();
        let mut scratch = Client::new();
        persist.load_config(
            &NO_SWITCHES,
            stored,
            &table(),
            &readings,
            &limits(),
            &mut scratch.knobs,
            &mut scratch.realmlist,
        );
        let mut engine = Engine {
            rows: Vec::new(),
            changes: Vec::new(),
        };
        assert!(persist.claim(1));
        for (name, default) in registered_pairs(&table()) {
            engine.rows.push(live(name, default, default));
        }
        for (name, value) in persist.saved_base() {
            engine.set_host(&name, &value);
        }
        Run {
            persist,
            client,
            engine,
            file: file.to_string(),
        }
    }

    fn update(&mut self) {
        let changes = std::mem::take(&mut self.engine.changes)
            .into_iter()
            .map(|(name, value)| {
                let read = reading(&name, &value);
                (name, read)
            })
            .collect();
        let client = &mut self.client;
        self.persist
            .sync_cvars(&changes, 0, &limits(), &mut client.knobs, &mut client.realmlist);
    }

    fn exit(&mut self) {
        if let Some(save) = self.persist.save_config(0, true, Some(&self.engine.rows), true) {
            self.file = save.text;
            self.persist.finish_save(save.cvars, true);
        }
    }
}

#[test]
fn a_lua_setcvar_lands_in_config_toml_end_to_end() {
    let mut run = Run::launch("[cvars]\nMusicVolume = \"0.1\"\n");
    run.update();
    assert_eq!(f(run.client.knobs.sound.music), 0.1);
    assert_eq!(run.engine.cvar("MusicVolume"), Some("0.1"));
    run.engine.set_cvar("MusicVolume", "0.75");
    run.update();
    assert_eq!(f(run.client.knobs.sound.music), 0.75);
    run.exit();
    let text = &run.file;
    assert!(text.contains("MusicVolume = \"0.75\""), "{text}");
    assert!(!text.contains("MasterVolume"), "defaults stay out:\n{text}");
    match stored_config(Some(text)) {
        StoredConfig::Table(back) => {
            assert_eq!(back.entries().len(), 1, "a diff, not a dump: {text}")
        }
        other => panic!("{other:?}"),
    }
}

#[test]
fn a_minimap_setzoom_reaches_the_knob_and_the_file() {
    let mut run = Run::launch("[cvars]\nminimapZoom = \"5\"\n");
    run.update();
    assert_eq!(run.client.knobs.scene.outdoor_zoom, 5);
    assert_eq!(run.client.knobs.scene.inside_zoom, 3);
    assert_eq!(run.engine.cvar("minimapZoom"), Some("5"));
    let zoomed = run.client.knobs.scene.outdoor_zoom - 2;
    run.engine.set_cvar("minimapZoom", &zoomed.to_string());
    run.update();
    assert_eq!(run.client.knobs.scene.outdoor_zoom, 3);
    run.exit();
    assert!(
        !run.file.contains("minimapZoom"),
        "back at the registered default 3, so it leaves the diff entirely:\n{}",
        run.file
    );
    run.engine.set_cvar("minimapZoom", "1");
    run.update();
    run.exit();
    assert!(run.file.contains("minimapZoom = \"1\""), "{}", run.file);
    assert_eq!(run.client.knobs.scene.outdoor_zoom, 1);
}
