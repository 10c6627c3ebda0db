//! The knobs that settings land on, and how a written value lands.
use crate::shadow::quality::{
    clamp_shadow_map_size, nearest_rung, MAX_SHADOW_FILTER, MAX_SHADOW_RATE,
};
use crate::single::{Single, ONE_BITS, ZERO_BITS};
use crate::text::{lower, same_text};
use vstd::prelude::*;

verus! {

/// The bits of 0.5.
pub const HALF_BITS: u32 = 0x3F00_0000;

/// The bits of 1.5.
pub const ONE_AND_A_HALF_BITS: u32 = 0x3FC0_0000;

/// The bits of 0.01.
pub const HUNDREDTH_BITS: u32 = 0x3C23_D70A;

/// The bits of 0.33.
pub const NEAR_CLIP_TOP_BITS: u32 = 0x3EA8_F5C3;

/// The bits of 0.1.
pub const TENTH_BITS: u32 = 0x3DCC_CCCD;

/// The bits of 360.
pub const THREE_HUNDRED_SIXTY_BITS: u32 = 0x43B4_0000;

/// The bits of 2.
pub const TWO_BITS: u32 = 0x4000_0000;

/// The bits of 90.
pub const NINETY_BITS: u32 = 0x42B4_0000;

/// The bits of 270.
pub const TWO_HUNDRED_SEVENTY_BITS: u32 = 0x4387_0000;

/// The bits of 256.
pub const TWO_HUNDRED_FIFTY_SIX_BITS: u32 = 0x4380_0000;

/// The bits of 40.
pub const FORTY_BITS: u32 = 0x4220_0000;

/// The bits of 200.
pub const TWO_HUNDRED_BITS: u32 = 0x4348_0000;

/// The bits of 0.25.
pub const QUARTER_BITS: u32 = 0x3E80_0000;

/// The bits of 8.
pub const EIGHT_BITS: u32 = 0x4100_0000;

/// The bits of 3.
pub const THREE_BITS: u32 = 0x4040_0000;

/// The bits of 0.2.
pub const FIFTH_BITS: u32 = 0x3E4C_CCCD;

/// The bits of 4.
pub const FOUR_BITS: u32 = 0x4080_0000;

/// The bits of 5.
pub const FIVE_BITS: u32 = 0x40A0_0000;

/// The highest minimap zoom level.
pub const MAX_MINIMAP_ZOOM: u8 = 5;

/// The highest weather density step.
pub const MAX_WEATHER_STEP: u8 = 3;

/// The most resident interior shadow maps.
pub const MAX_TORCH_CASTERS: u32 = 16;

/// The most interior shadow maps with moving casters.
pub const MAX_TORCH_DYNAMIC: u32 = 8;

/// The most regathers of moving casters a second.
pub const MAX_ENTITY_RATE: u32 = 240;

/// The highest interior overlay.
pub const MAX_INTERIOR_DEBUG: u32 = 4;

/// The highest anisotropy.
pub const MAX_ANISO: u32 = 16;

/// The highest sample count that may be asked for.
pub const MAX_SAMPLES: u32 = 16;

/// How the camera follows its owner.
#[derive(Clone, Copy, Debug, PartialEq, Eq, Structural)]
pub enum FollowStyle {
    Never,
    Smart,
    Always,
}

/// How the window presents.
#[derive(Clone, Copy, Debug, PartialEq, Eq, Structural)]
pub enum DisplayMode {
    Windowed,
    Fullscreen,
}

/// The ground cover's density, in the unit it was last set in.
#[derive(Clone, Copy, Debug, PartialEq, Eq, Structural)]
pub enum ClutterDensity {
    /// A panel stop: the density is the number plus one.
    Stop(Single),
    /// Cells per chunk: the density is a sixteenth of the number.
    Cells(Single),
}

/// The mixer: four volumes in `[0, 1]` and the switches.
#[derive(Clone, Copy, Debug)]
pub struct SoundConfig {
    pub master: Single,
    pub sfx: Single,
    pub music: Single,
    pub ambience: Single,
    pub enabled: bool,
    pub music_enabled: bool,
    pub ambience_enabled: bool,
    pub error_speech: bool,
    pub background_sound: bool,
    pub reverb: bool,
    pub limiter: bool,
    pub listener_at_character: bool,
    pub emote_sounds: bool,
    pub zone_music_no_delay: bool,
}

/// The interface scale, the two clip planes and what a click does.
#[derive(Clone, Copy, Debug)]
pub struct ViewConfig {
    pub ui_scale: Single,
    pub farclip: Single,
    pub nearclip: Single,
    pub deselect_on_click: bool,
    pub auto_self_cast: bool,
    pub assist_attack: bool,
}

/// The mouse look.
#[derive(Clone, Copy, Debug)]
pub struct LookConfig {
    pub invert_pitch: bool,
    pub sensitivity: Single,
    pub yaw_speed: Single,
    pub pitch_speed: Single,
}

/// The camera follow: how far it may stand off, how and how fast it follows.
#[derive(Clone, Copy, Debug)]
pub struct FollowConfig {
    pub distance_factor: Single,
    pub style: FollowStyle,
    pub tracking_style: FollowStyle,
    pub yaw_speed: Single,
}

/// Which damage shows.
#[derive(Clone, Copy, Debug)]
pub struct DamageTextGates {
    pub combat_damage: bool,
    pub pet_melee: bool,
    pub pet_spell: bool,
    pub log_periodic: bool,
}

/// Which overhead names and plates show, and the loot switches.
#[derive(Clone, Copy, Debug)]
pub struct NameConfig {
    pub auto_loot: bool,
    pub player: bool,
    pub npc: bool,
    pub own: bool,
    pub player_guild: bool,
    pub enemy_plates: bool,
    pub friend_plates: bool,
    pub show_loot_spam: bool,
}

/// The camera options.
#[derive(Clone, Copy, Debug)]
pub struct CameraOptions {
    pub pivot: bool,
    pub water_collision: bool,
    pub pivot_dx_max: Single,
    pub pivot_dy_min: Single,
    pub target_smooth_speed: Single,
    pub terrain_tilt: bool,
    pub ground_smooth_speed: Single,
    pub tilt_time_min: Single,
    pub tilt_time_max: Single,
    pub bobbing: bool,
    pub bob_lr_amplitude: Single,
    pub bob_ud_amplitude: Single,
    pub bob_frequency: Single,
    pub bob_smooth_speed: Single,
}

/// The tips, the chat filters and bubbles, and the guild and trade switches.
#[derive(Clone, Copy, Debug)]
pub struct InterfaceConfig {
    pub show_tips: bool,
    pub next_tip: i64,
    pub profanity: bool,
    pub spam: bool,
    pub bubbles: bool,
    pub party_bubbles: bool,
    pub guild_notify: bool,
    pub block_trades: bool,
}

/// The ground cover, the weather, the brightness and the minimap.
#[derive(Clone, Copy, Debug)]
pub struct SceneConfig {
    pub clutter: ClutterDensity,
    pub weather_density: u8,
    pub display_gamma: Single,
    pub outdoor_zoom: u8,
    pub inside_zoom: u8,
}

/// The presentation and the shadow settings.
#[derive(Clone, Copy, Debug)]
pub struct ShadowConfig {
    pub vsync: bool,
    pub world_shadows: bool,
    pub character_shadows: bool,
    pub shadow_distance: Single,
    pub shadow_map_size: u32,
    pub shadow_filter: u32,
    pub character_shadow_rate: u32,
    pub world_shadow_rate: u32,
    pub shadow_caster_reach: Single,
}

/// The fixture-lit interiors and their shadows.
#[derive(Clone, Copy, Debug)]
pub struct InteriorConfig {
    pub light: bool,
    pub ambient: Single,
    pub fill: Single,
    pub exposure: Single,
    pub atten_scale: Single,
    pub room_gate: bool,
    pub shadows: bool,
    pub exterior_shadows: bool,
    pub shadow_casters: u32,
    pub shadow_dynamic: u32,
    pub shadow_entity_rate: u32,
    pub shadow_soft: Single,
    pub torch_strength: Single,
    pub debug: u32,
}

/// The light gains and floors.
#[derive(Clone, Copy, Debug)]
pub struct LightGains {
    pub night_gain: Single,
    pub interior_gain: Single,
    pub interior_daylight: Single,
    pub interior_bake_floor: Single,
    pub fire_light_gain: Single,
    pub spell_light_gain: Single,
    pub fire_flicker: Single,
}

/// The window, the render scale, the sampling and the texture filter.
#[derive(Clone, Copy, Debug)]
pub struct DisplayConfig {
    pub mode: DisplayMode,
    pub pane_half: bool,
    pub render_scale: Single,
    pub fps_journal: bool,
    pub samples: u32,
    pub trilinear: bool,
    pub aniso: u32,
    pub windowed: (u32, u32),
}

/// Every knob a setting lands on.
#[derive(Clone, Copy, Debug)]
pub struct Knobs {
    pub sound: SoundConfig,
    pub view: ViewConfig,
    pub look: LookConfig,
    pub follow: FollowConfig,
    pub damage_text: DamageTextGates,
    pub names: NameConfig,
    pub camera_opts: CameraOptions,
    pub interface: InterfaceConfig,
    pub scene: SceneConfig,
    pub shadow: ShadowConfig,
    pub interior: InteriorConfig,
    pub gains: LightGains,
    pub display: DisplayConfig,
}

/// The ranges that the display and the view distance own, each as its two ends.
#[derive(Clone, Copy, Debug)]
pub struct Limits {
    pub farclip: (Single, Single),
    pub gamma: (Single, Single),
    pub render_scale: (Single, Single),
}

impl Limits {
    /// Each range has its ends in order.
    pub open spec fn wf(self) -> bool {
        &&& self.farclip.0.at_most(self.farclip.1)
        &&& self.gamma.0.at_most(self.gamma.1)
        &&& self.render_scale.0.at_most(self.render_scale.1)
    }
}

/// What a written text reads as, to each party that reads one.
#[derive(Debug)]
pub struct Reading {
    /// The text as a number.
    pub number: Option<Single>,
    /// The text as a window size.
    pub resolution: Option<(u32, u32)>,
    /// The text as a realm address.
    pub address: Option<String>,
    /// The name is one of the saved camera views' own.
    pub view_setting: bool,
    /// The name is one of the combat log's display ranges.
    pub combat_range: bool,
    /// The number as a follow style.
    pub style: FollowStyle,
    /// The sample count the device grants for the one asked for ([`samples_asked`]).
    pub granted: u32,
}

/// `n` held into `[low, high]`.
pub open spec fn held(n: int, low: int, high: int) -> int {
    if n < low {
        low
    } else if n > high {
        high
    } else {
        n
    }
}

fn hold(n: u32, low: u32, high: u32) -> (r: u32)
    ensures
        r == held(n as int, low as int, high as int),
{
    if n < low {
        low
    } else if n > high {
        high
    } else {
        n
    }
}

/// The zoom level a number names: held into the levels, then its whole part.
pub open spec fn zoom_level(v: Single) -> int {
    v.clamped(Single { bits: ZERO_BITS }, Single { bits: FIVE_BITS }).count(u8::MAX as int)
}

/// A stored zoom level as a valid index.
pub fn zoom_index(v: Single) -> (r: u8)
    ensures
        r == zoom_level(v),
{
    v.clamp(Single { bits: ZERO_BITS }, Single { bits: FIVE_BITS }).to_step()
}

/// The display mode a flag selects: windowed where it is set.
pub open spec fn display_mode(v: Single) -> DisplayMode {
    if v.nonzero() {
        DisplayMode::Windowed
    } else {
        DisplayMode::Fullscreen
    }
}

/// The display mode a flag selects.
pub fn display_from_flag(v: Single) -> (r: DisplayMode)
    ensures
        r == display_mode(v),
{
    if v.is_nonzero() {
        DisplayMode::Windowed
    } else {
        DisplayMode::Fullscreen
    }
}

/// The sample count to ask the device for: the number's whole part, held to `1..=16`.
pub fn samples_asked(v: Single) -> (r: u32)
    ensures
        r == held(v.count(u32::MAX as int), 1, MAX_SAMPLES as int),
{
    hold(v.to_count(), 1, MAX_SAMPLES)
}

/// The sound settings after a number is written to one of them; `None` for any other key.
pub open spec fn after_sound(k: SoundConfig, key: Seq<char>, v: Single) -> Option<SoundConfig> {
    if key == "mastervolume"@ {
        Some(SoundConfig { master: v.clamped(Single { bits: ZERO_BITS }, Single { bits: ONE_BITS }), ..k })
    } else if key == "soundvolume"@ {
        Some(SoundConfig { sfx: v.clamped(Single { bits: ZERO_BITS }, Single { bits: ONE_BITS }), ..k })
    } else if key == "musicvolume"@ {
        Some(SoundConfig { music: v.clamped(Single { bits: ZERO_BITS }, Single { bits: ONE_BITS }), ..k })
    } else if key == "ambiencevolume"@ {
        Some(SoundConfig { ambience: v.clamped(Single { bits: ZERO_BITS }, Single { bits: ONE_BITS }), ..k })
    } else if key == "mastersoundeffects"@ {
        Some(SoundConfig { enabled: v.nonzero(), ..k })
    } else if key == "enablemusic"@ {
        Some(SoundConfig { music_enabled: v.nonzero(), ..k })
    } else if key == "enableambience"@ {
        Some(SoundConfig { ambience_enabled: v.nonzero(), ..k })
    } else if key == "enableerrorspeech"@ {
        Some(SoundConfig { error_speech: v.nonzero(), ..k })
    } else if key == "sound_enablesoundwhengameisinbg"@ {
        Some(SoundConfig { background_sound: v.nonzero(), ..k })
    } else if key == "soundreverb"@ {
        Some(SoundConfig { reverb: v.nonzero(), ..k })
    } else if key == "soundoutputlimiter"@ {
        Some(SoundConfig { limiter: v.nonzero(), ..k })
    } else if key == "soundlisteneratcharacter"@ {
        Some(SoundConfig { listener_at_character: v.nonzero(), ..k })
    } else if key == "emotesounds"@ {
        Some(SoundConfig { emote_sounds: v.nonzero(), ..k })
    } else if key == "soundzonemusicnodelay"@ {
        Some(SoundConfig { zone_music_no_delay: v.nonzero(), ..k })
    } else {
        None
    }
}

fn set_sound(k: SoundConfig, key: &str, v: Single) -> (r: Option<SoundConfig>)
    ensures
        r == after_sound(k, key@, v),
{
    if same_text(key, "mastervolume") {
        Some(SoundConfig { master: v.clamp(Single { bits: ZERO_BITS }, Single { bits: ONE_BITS }), ..k })
    } else if same_text(key, "soundvolume") {
        Some(SoundConfig { sfx: v.clamp(Single { bits: ZERO_BITS }, Single { bits: ONE_BITS }), ..k })
    } else if same_text(key, "musicvolume") {
        Some(SoundConfig { music: v.clamp(Single { bits: ZERO_BITS }, Single { bits: ONE_BITS }), ..k })
    } else if same_text(key, "ambiencevolume") {
        Some(SoundConfig { ambience: v.clamp(Single { bits: ZERO_BITS }, Single { bits: ONE_BITS }), ..k })
    } else if same_text(key, "mastersoundeffects") {
        Some(SoundConfig { enabled: v.is_nonzero(), ..k })
    } else if same_text(key, "enablemusic") {
        Some(SoundConfig { music_enabled: v.is_nonzero(), ..k })
    } else if same_text(key, "enableambience") {
        Some(SoundConfig { ambience_enabled: v.is_nonzero(), ..k })
    } else if same_text(key, "enableerrorspeech") {
        Some(SoundConfig { error_speech: v.is_nonzero(), ..k })
    } else if same_text(key, "sound_enablesoundwhengameisinbg") {
        Some(SoundConfig { background_sound: v.is_nonzero(), ..k })
    } else if same_text(key, "soundreverb") {
        Some(SoundConfig { reverb: v.is_nonzero(), ..k })
    } else if same_text(key, "soundoutputlimiter") {
        Some(SoundConfig { limiter: v.is_nonzero(), ..k })
    } else if same_text(key, "soundlisteneratcharacter") {
        Some(SoundConfig { listener_at_character: v.is_nonzero(), ..k })
    } else if same_text(key, "emotesounds") {
        Some(SoundConfig { emote_sounds: v.is_nonzero(), ..k })
    } else if same_text(key, "soundzonemusicnodelay") {
        Some(SoundConfig { zone_music_no_delay: v.is_nonzero(), ..k })
    } else {
        None
    }
}

/// The view and click settings after a number is written to one of them; `None` for any other key.
pub open spec fn after_view(k: ViewConfig, key: Seq<char>, v: Single, limits: Limits) -> Option<ViewConfig> {
    if key == "uiscale"@ {
        Some(ViewConfig { ui_scale: v.clamped(Single { bits: HALF_BITS }, Single { bits: ONE_AND_A_HALF_BITS }), ..k })
    } else if key == "farclip"@ {
        Some(ViewConfig { farclip: v.clamped(limits.farclip.0, limits.farclip.1), ..k })
    } else if key == "nearclip"@ {
        Some(ViewConfig { nearclip: v.clamped(Single { bits: HUNDREDTH_BITS }, Single { bits: NEAR_CLIP_TOP_BITS }), ..k })
    } else if key == "deselectonclick"@ {
        Some(ViewConfig { deselect_on_click: v.nonzero(), ..k })
    } else if key == "autoselfcast"@ {
        Some(ViewConfig { auto_self_cast: v.nonzero(), ..k })
    } else if key == "assistattack"@ {
        Some(ViewConfig { assist_attack: v.nonzero(), ..k })
    } else {
        None
    }
}

fn set_view(k: ViewConfig, key: &str, v: Single, limits: &Limits) -> (r: Option<ViewConfig>)
    requires
        limits.wf(),
    ensures
        r == after_view(k, key@, v, *limits),
{
    if same_text(key, "uiscale") {
        Some(ViewConfig { ui_scale: v.clamp(Single { bits: HALF_BITS }, Single { bits: ONE_AND_A_HALF_BITS }), ..k })
    } else if same_text(key, "farclip") {
        Some(ViewConfig { farclip: v.clamp(limits.farclip.0, limits.farclip.1), ..k })
    } else if same_text(key, "nearclip") {
        Some(ViewConfig { nearclip: v.clamp(Single { bits: HUNDREDTH_BITS }, Single { bits: NEAR_CLIP_TOP_BITS }), ..k })
    } else if same_text(key, "deselectonclick") {
        Some(ViewConfig { deselect_on_click: v.is_nonzero(), ..k })
    } else if same_text(key, "autoselfcast") {
        Some(ViewConfig { auto_self_cast: v.is_nonzero(), ..k })
    } else if same_text(key, "assistattack") {
        Some(ViewConfig { assist_attack: v.is_nonzero(), ..k })
    } else {
        None
    }
}

/// The mouse look settings after a number is written to one of them; `None` for any other key.
pub open spec fn after_look(k: LookConfig, key: Seq<char>, v: Single) -> Option<LookConfig> {
    if key == "mouseinvertpitch"@ {
        Some(LookConfig { invert_pitch: v.nonzero(), ..k })
    } else if key == "mousespeed"@ {
        Some(LookConfig { sensitivity: v.clamped(Single { bits: HALF_BITS }, Single { bits: ONE_AND_A_HALF_BITS }), ..k })
    } else if key == "camerayawmovespeed"@ {
        if (Single { bits: TENTH_BITS }).at_most(v) && v.at_most(Single { bits: THREE_HUNDRED_SIXTY_BITS }) {
            Some(LookConfig { yaw_speed: v, ..k })
        } else {
            Some(k)
        }
    } else if key == "camerapitchmovespeed"@ {
        if (Single { bits: TENTH_BITS }).at_most(v) && v.at_most(Single { bits: THREE_HUNDRED_SIXTY_BITS }) {
            Some(LookConfig { pitch_speed: v, ..k })
        } else {
            Some(k)
        }
    } else {
        None
    }
}

fn set_look(k: LookConfig, key: &str, v: Single) -> (r: Option<LookConfig>)
    ensures
        r == after_look(k, key@, v),
{
    if same_text(key, "mouseinvertpitch") {
        Some(LookConfig { invert_pitch: v.is_nonzero(), ..k })
    } else if same_text(key, "mousespeed") {
        Some(LookConfig { sensitivity: v.clamp(Single { bits: HALF_BITS }, Single { bits: ONE_AND_A_HALF_BITS }), ..k })
    } else if same_text(key, "camerayawmovespeed") {
        if (Single { bits: TENTH_BITS }).is_at_most(v) && v.is_at_most(Single { bits: THREE_HUNDRED_SIXTY_BITS }) {
            Some(LookConfig { yaw_speed: v, ..k })
        } else {
            Some(k)
        }
    } else if same_text(key, "camerapitchmovespeed") {
        if (Single { bits: TENTH_BITS }).is_at_most(v) && v.is_at_most(Single { bits: THREE_HUNDRED_SIXTY_BITS }) {
            Some(LookConfig { pitch_speed: v, ..k })
        } else {
            Some(k)
        }
    } else {
        None
    }
}

/// The camera follow settings after a number is written to one of them; `None` for any other key.
pub open spec fn after_follow(k: FollowConfig, key: Seq<char>, v: Single, reading: Reading) -> Option<FollowConfig> {
    if key == "cameradistancemaxfactor"@ {
        Some(FollowConfig { distance_factor: v.clamped(Single { bits: ONE_BITS }, Single { bits: TWO_BITS }), ..k })
    } else if key == "camerasmoothstyle"@ {
        Some(FollowConfig { style: reading.style, ..k })
    } else if key == "camerasmoothtrackingstyle"@ {
        Some(FollowConfig { tracking_style: reading.style, ..k })
    } else if key == "camerayawsmoothspeed"@ {
        Some(FollowConfig { yaw_speed: v.clamped(Single { bits: NINETY_BITS }, Single { bits: TWO_HUNDRED_SEVENTY_BITS }), ..k })
    } else {
        None
    }
}

fn set_follow(k: FollowConfig, key: &str, v: Single, reading: &Reading) -> (r: Option<FollowConfig>)
    ensures
        r == after_follow(k, key@, v, *reading),
{
    if same_text(key, "cameradistancemaxfactor") {
        Some(FollowConfig { distance_factor: v.clamp(Single { bits: ONE_BITS }, Single { bits: TWO_BITS }), ..k })
    } else if same_text(key, "camerasmoothstyle") {
        Some(FollowConfig { style: reading.style, ..k })
    } else if same_text(key, "camerasmoothtrackingstyle") {
        Some(FollowConfig { tracking_style: reading.style, ..k })
    } else if same_text(key, "camerayawsmoothspeed") {
        Some(FollowConfig { yaw_speed: v.clamp(Single { bits: NINETY_BITS }, Single { bits: TWO_HUNDRED_SEVENTY_BITS }), ..k })
    } else {
        None
    }
}

/// The damage text switches after a number is written to one of them; `None` for any other key.
pub open spec fn after_damage_text(k: DamageTextGates, key: Seq<char>, v: Single) -> Option<DamageTextGates> {
    if key == "combatdamage"@ {
        Some(DamageTextGates { combat_damage: v.nonzero(), ..k })
    } else if key == "petmeleedamage"@ {
        Some(DamageTextGates { pet_melee: v.nonzero(), ..k })
    } else if key == "petspelldamage"@ {
        Some(DamageTextGates { pet_spell: v.nonzero(), ..k })
    } else if key == "combatlogperiodicspells"@ {
        Some(DamageTextGates { log_periodic: v.nonzero(), ..k })
    } else {
        None
    }
}

fn set_damage_text(k: DamageTextGates, key: &str, v: Single) -> (r: Option<DamageTextGates>)
    ensures
        r == after_damage_text(k, key@, v),
{
    if same_text(key, "combatdamage") {
        Some(DamageTextGates { combat_damage: v.is_nonzero(), ..k })
    } else if same_text(key, "petmeleedamage") {
        Some(DamageTextGates { pet_melee: v.is_nonzero(), ..k })
    } else if same_text(key, "petspelldamage") {
        Some(DamageTextGates { pet_spell: v.is_nonzero(), ..k })
    } else if same_text(key, "combatlogperiodicspells") {
        Some(DamageTextGates { log_periodic: v.is_nonzero(), ..k })
    } else {
        None
    }
}

/// The name, plate and loot settings after a number is written to one of them; `None` for any other key.
pub open spec fn after_names(k: NameConfig, key: Seq<char>, v: Single) -> Option<NameConfig> {
    if key == "autolootdefault"@ {
        Some(NameConfig { auto_loot: v.nonzero(), ..k })
    } else if key == "unitnameplayer"@ {
        Some(NameConfig { player: v.nonzero(), ..k })
    } else if key == "unitnamenpc"@ {
        Some(NameConfig { npc: v.nonzero(), ..k })
    } else if key == "unitnameown"@ {
        Some(NameConfig { own: v.nonzero(), ..k })
    } else if key == "unitnameplayerguild"@ {
        Some(NameConfig { player_guild: v.nonzero(), ..k })
    } else if key == "nameplateshowenemies"@ {
        Some(NameConfig { enemy_plates: v.nonzero(), ..k })
    } else if key == "nameplateshowfriends"@ {
        Some(NameConfig { friend_plates: v.nonzero(), ..k })
    } else if key == "showlootspam"@ {
        Some(NameConfig { show_loot_spam: v.nonzero(), ..k })
    } else {
        None
    }
}

fn set_names(k: NameConfig, key: &str, v: Single) -> (r: Option<NameConfig>)
    ensures
        r == after_names(k, key@, v),
{
    if same_text(key, "autolootdefault") {
        Some(NameConfig { auto_loot: v.is_nonzero(), ..k })
    } else if same_text(key, "unitnameplayer") {
        Some(NameConfig { player: v.is_nonzero(), ..k })
    } else if same_text(key, "unitnamenpc") {
        Some(NameConfig { npc: v.is_nonzero(), ..k })
    } else if same_text(key, "unitnameown") {
        Some(NameConfig { own: v.is_nonzero(), ..k })
    } else if same_text(key, "unitnameplayerguild") {
        Some(NameConfig { player_guild: v.is_nonzero(), ..k })
    } else if same_text(key, "nameplateshowenemies") {
        Some(NameConfig { enemy_plates: v.is_nonzero(), ..k })
    } else if same_text(key, "nameplateshowfriends") {
        Some(NameConfig { friend_plates: v.is_nonzero(), ..k })
    } else if same_text(key, "showlootspam") {
        Some(NameConfig { show_loot_spam: v.is_nonzero(), ..k })
    } else {
        None
    }
}

/// The camera options after a number is written to one of them; `None` for any other key.
pub open spec fn after_camera_opts(k: CameraOptions, key: Seq<char>, v: Single) -> Option<CameraOptions> {
    if key == "camerapivot"@ {
        Some(CameraOptions { pivot: v.nonzero(), ..k })
    } else if key == "camerawatercollision"@ {
        Some(CameraOptions { water_collision: v.nonzero(), ..k })
    } else if key == "camerapivotdxmax"@ {
        Some(CameraOptions { pivot_dx_max: v, ..k })
    } else if key == "camerapivotdymin"@ {
        Some(CameraOptions { pivot_dy_min: v, ..k })
    } else if key == "cameratargetsmoothspeed"@ {
        Some(CameraOptions { target_smooth_speed: v, ..k })
    } else if key == "cameraterraintilt"@ {
        Some(CameraOptions { terrain_tilt: v.nonzero(), ..k })
    } else if key == "cameragroundsmoothspeed"@ {
        Some(CameraOptions { ground_smooth_speed: v, ..k })
    } else if key == "cameraterraintilttimemin"@ {
        Some(CameraOptions { tilt_time_min: v, ..k })
    } else if key == "cameraterraintilttimemax"@ {
        Some(CameraOptions { tilt_time_max: v, ..k })
    } else if key == "camerabobbing"@ {
        Some(CameraOptions { bobbing: v.nonzero(), ..k })
    } else if key == "camerabobbinglramplitude"@ {
        Some(CameraOptions { bob_lr_amplitude: v, ..k })
    } else if key == "camerabobbingudamplitude"@ {
        Some(CameraOptions { bob_ud_amplitude: v, ..k })
    } else if key == "camerabobbingfrequency"@ {
        Some(CameraOptions { bob_frequency: v, ..k })
    } else if key == "camerabobbingsmoothspeed"@ {
        Some(CameraOptions { bob_smooth_speed: v, ..k })
    } else {
        None
    }
}

fn set_camera_opts(k: CameraOptions, key: &str, v: Single) -> (r: Option<CameraOptions>)
    ensures
        r == after_camera_opts(k, key@, v),
{
    if same_text(key, "camerapivot") {
        Some(CameraOptions { pivot: v.is_nonzero(), ..k })
    } else if same_text(key, "camerawatercollision") {
        Some(CameraOptions { water_collision: v.is_nonzero(), ..k })
    } else if same_text(key, "camerapivotdxmax") {
        Some(CameraOptions { pivot_dx_max: v, ..k })
    } else if same_text(key, "camerapivotdymin") {
        Some(CameraOptions { pivot_dy_min: v, ..k })
    } else if same_text(key, "cameratargetsmoothspeed") {
        Some(CameraOptions { target_smooth_speed: v, ..k })
    } else if same_text(key, "cameraterraintilt") {
        Some(CameraOptions { terrain_tilt: v.is_nonzero(), ..k })
    } else if same_text(key, "cameragroundsmoothspeed") {
        Some(CameraOptions { ground_smooth_speed: v, ..k })
    } else if same_text(key, "cameraterraintilttimemin") {
        Some(CameraOptions { tilt_time_min: v, ..k })
    } else if same_text(key, "cameraterraintilttimemax") {
        Some(CameraOptions { tilt_time_max: v, ..k })
    } else if same_text(key, "camerabobbing") {
        Some(CameraOptions { bobbing: v.is_nonzero(), ..k })
    } else if same_text(key, "camerabobbinglramplitude") {
        Some(CameraOptions { bob_lr_amplitude: v, ..k })
    } else if same_text(key, "camerabobbingudamplitude") {
        Some(CameraOptions { bob_ud_amplitude: v, ..k })
    } else if same_text(key, "camerabobbingfrequency") {
        Some(CameraOptions { bob_frequency: v, ..k })
    } else if same_text(key, "camerabobbingsmoothspeed") {
        Some(CameraOptions { bob_smooth_speed: v, ..k })
    } else {
        None
    }
}

/// The interface settings after a number is written to one of them; `None` for any other key.
/// Nine settings are taken and change no knob: their readers look them up in the settings table,
/// and a write of one has to reach the file all the same.
pub open spec fn after_interface(k: InterfaceConfig, key: Seq<char>, v: Single) -> Option<InterfaceConfig> {
    if key == "statusbartext"@ {
        Some(k)
    } else if key == "ubertooltips"@ {
        Some(k)
    } else if key == "checkaddonversion"@ {
        Some(k)
    } else if key == "lastcharacterindex"@ {
        Some(k)
    } else if key == "autoclearafk"@ {
        Some(k)
    } else if key == "soundbuffersize"@ {
        Some(k)
    } else if key == "useuiscale"@ {
        Some(k)
    } else if key == "gxcolorbits"@ {
        Some(k)
    } else if key == "gxdepthbits"@ {
        Some(k)
    } else if key == "showgametips"@ {
        Some(InterfaceConfig { show_tips: v.nonzero(), ..k })
    } else if key == "gametip"@ {
        Some(InterfaceConfig { next_tip: v.integer() as i64, ..k })
    } else if key == "profanityfilter"@ {
        Some(InterfaceConfig { profanity: v.nonzero(), ..k })
    } else if key == "spamfilter"@ {
        Some(InterfaceConfig { spam: v.nonzero(), ..k })
    } else if key == "chatbubbles"@ {
        Some(InterfaceConfig { bubbles: v.nonzero(), ..k })
    } else if key == "chatbubblesparty"@ {
        Some(InterfaceConfig { party_bubbles: v.nonzero(), ..k })
    } else if key == "guildmembernotify"@ {
        Some(InterfaceConfig { guild_notify: v.nonzero(), ..k })
    } else if key == "blocktrades"@ {
        Some(InterfaceConfig { block_trades: v.nonzero(), ..k })
    } else {
        None
    }
}

fn set_interface(k: InterfaceConfig, key: &str, v: Single) -> (r: Option<InterfaceConfig>)
    ensures
        r == after_interface(k, key@, v),
{
    if same_text(key, "statusbartext") {
        Some(k)
    } else if same_text(key, "ubertooltips") {
        Some(k)
    } else if same_text(key, "checkaddonversion") {
        Some(k)
    } else if same_text(key, "lastcharacterindex") {
        Some(k)
    } else if same_text(key, "autoclearafk") {
        Some(k)
    } else if same_text(key, "soundbuffersize") {
        Some(k)
    } else if same_text(key, "useuiscale") {
        Some(k)
    } else if same_text(key, "gxcolorbits") {
        Some(k)
    } else if same_text(key, "gxdepthbits") {
        Some(k)
    } else if same_text(key, "showgametips") {
        Some(InterfaceConfig { show_tips: v.is_nonzero(), ..k })
    } else if same_text(key, "gametip") {
        Some(InterfaceConfig { next_tip: v.to_integer(), ..k })
    } else if same_text(key, "profanityfilter") {
        Some(InterfaceConfig { profanity: v.is_nonzero(), ..k })
    } else if same_text(key, "spamfilter") {
        Some(InterfaceConfig { spam: v.is_nonzero(), ..k })
    } else if same_text(key, "chatbubbles") {
        Some(InterfaceConfig { bubbles: v.is_nonzero(), ..k })
    } else if same_text(key, "chatbubblesparty") {
        Some(InterfaceConfig { party_bubbles: v.is_nonzero(), ..k })
    } else if same_text(key, "guildmembernotify") {
        Some(InterfaceConfig { guild_notify: v.is_nonzero(), ..k })
    } else if same_text(key, "blocktrades") {
        Some(InterfaceConfig { block_trades: v.is_nonzero(), ..k })
    } else {
        None
    }
}

/// The scene settings after a number is written to one of them; `None` for any other key.
pub open spec fn after_scene(k: SceneConfig, key: Seq<char>, v: Single, limits: Limits) -> Option<SceneConfig> {
    if key == "worlddetail"@ {
        Some(SceneConfig { clutter: ClutterDensity::Stop(v.clamped(Single { bits: ZERO_BITS }, Single { bits: TWO_BITS })), ..k })
    } else if key == "frilldensity"@ {
        Some(SceneConfig { clutter: ClutterDensity::Cells(v.clamped(Single { bits: ONE_BITS }, Single { bits: TWO_HUNDRED_FIFTY_SIX_BITS })), ..k })
    } else if key == "weatherdensity"@ {
        Some(SceneConfig { weather_density: held(v.count(u8::MAX as int), 0, MAX_WEATHER_STEP as int) as u8, ..k })
    } else if key == "gamma"@ {
        Some(SceneConfig { display_gamma: v.clamped(limits.gamma.0, limits.gamma.1), ..k })
    } else if key == "minimapzoom"@ {
        Some(SceneConfig { outdoor_zoom: zoom_level(v) as u8, ..k })
    } else if key == "minimapinsidezoom"@ {
        Some(SceneConfig { inside_zoom: zoom_level(v) as u8, ..k })
    } else {
        None
    }
}

fn set_scene(k: SceneConfig, key: &str, v: Single, limits: &Limits) -> (r: Option<SceneConfig>)
    requires
        limits.wf(),
    ensures
        r == after_scene(k, key@, v, *limits),
{
    if same_text(key, "worlddetail") {
        Some(SceneConfig { clutter: ClutterDensity::Stop(v.clamp(Single { bits: ZERO_BITS }, Single { bits: TWO_BITS })), ..k })
    } else if same_text(key, "frilldensity") {
        Some(SceneConfig { clutter: ClutterDensity::Cells(v.clamp(Single { bits: ONE_BITS }, Single { bits: TWO_HUNDRED_FIFTY_SIX_BITS })), ..k })
    } else if same_text(key, "weatherdensity") {
        Some(SceneConfig { weather_density: if v.to_step() > MAX_WEATHER_STEP { MAX_WEATHER_STEP } else { v.to_step() }, ..k })
    } else if same_text(key, "gamma") {
        Some(SceneConfig { display_gamma: v.clamp(limits.gamma.0, limits.gamma.1), ..k })
    } else if same_text(key, "minimapzoom") {
        Some(SceneConfig { outdoor_zoom: zoom_index(v), ..k })
    } else if same_text(key, "minimapinsidezoom") {
        Some(SceneConfig { inside_zoom: zoom_index(v), ..k })
    } else {
        None
    }
}

/// The shadow settings after a number is written to one of them; `None` for any other key.
pub open spec fn after_shadow(k: ShadowConfig, key: Seq<char>, v: Single) -> Option<ShadowConfig> {
    if key == "gxvsync"@ {
        Some(ShadowConfig { vsync: v.nonzero(), ..k })
    } else if key == "worldshadows"@ {
        Some(ShadowConfig { world_shadows: v.nonzero(), ..k })
    } else if key == "charactershadows"@ {
        Some(ShadowConfig { character_shadows: v.nonzero(), ..k })
    } else if key == "shadowdistance"@ {
        Some(ShadowConfig { shadow_distance: v.clamped(Single { bits: FORTY_BITS }, Single { bits: TWO_HUNDRED_BITS }), ..k })
    } else if key == "shadowmapsize"@ {
        Some(ShadowConfig { shadow_map_size: nearest_rung(v.count(u32::MAX as int)) as u32, ..k })
    } else if key == "shadowfilter"@ {
        Some(ShadowConfig { shadow_filter: held(v.count(u32::MAX as int), 0, MAX_SHADOW_FILTER as int) as u32, ..k })
    } else if key == "charactershadowrate"@ {
        Some(ShadowConfig { character_shadow_rate: held(v.count(u32::MAX as int), 0, MAX_SHADOW_RATE as int) as u32, ..k })
    } else if key == "worldshadowrate"@ {
        Some(ShadowConfig { world_shadow_rate: held(v.count(u32::MAX as int), 0, MAX_SHADOW_RATE as int) as u32, ..k })
    } else if key == "shadowcasterreach"@ {
        Some(ShadowConfig { shadow_caster_reach: v.clamped(Single { bits: QUARTER_BITS }, Single { bits: TWO_BITS }), ..k })
    } else {
        None
    }
}

fn set_shadow(k: ShadowConfig, key: &str, v: Single) -> (r: Option<ShadowConfig>)
    ensures
        r == after_shadow(k, key@, v),
{
    if same_text(key, "gxvsync") {
        Some(ShadowConfig { vsync: v.is_nonzero(), ..k })
    } else if same_text(key, "worldshadows") {
        Some(ShadowConfig { world_shadows: v.is_nonzero(), ..k })
    } else if same_text(key, "charactershadows") {
        Some(ShadowConfig { character_shadows: v.is_nonzero(), ..k })
    } else if same_text(key, "shadowdistance") {
        Some(ShadowConfig { shadow_distance: v.clamp(Single { bits: FORTY_BITS }, Single { bits: TWO_HUNDRED_BITS }), ..k })
    } else if same_text(key, "shadowmapsize") {
        Some(ShadowConfig { shadow_map_size: clamp_shadow_map_size(v.to_count()), ..k })
    } else if same_text(key, "shadowfilter") {
        Some(ShadowConfig { shadow_filter: hold(v.to_count(), 0, MAX_SHADOW_FILTER), ..k })
    } else if same_text(key, "charactershadowrate") {
        Some(ShadowConfig { character_shadow_rate: hold(v.to_count(), 0, MAX_SHADOW_RATE), ..k })
    } else if same_text(key, "worldshadowrate") {
        Some(ShadowConfig { world_shadow_rate: hold(v.to_count(), 0, MAX_SHADOW_RATE), ..k })
    } else if same_text(key, "shadowcasterreach") {
        Some(ShadowConfig { shadow_caster_reach: v.clamp(Single { bits: QUARTER_BITS }, Single { bits: TWO_BITS }), ..k })
    } else {
        None
    }
}

/// The interior settings after a number is written to one of them; `None` for any other key.
pub open spec fn after_interior(k: InteriorConfig, key: Seq<char>, v: Single) -> Option<InteriorConfig> {
    if key == "interiorlight"@ {
        Some(InteriorConfig { light: v.nonzero(), ..k })
    } else if key == "interiorambient"@ {
        Some(InteriorConfig { ambient: v.clamped(Single { bits: ZERO_BITS }, Single { bits: ONE_BITS }), ..k })
    } else if key == "interiorfill"@ {
        Some(InteriorConfig { fill: v.clamped(Single { bits: ZERO_BITS }, Single { bits: TWO_BITS }), ..k })
    } else if key == "interiorexposure"@ {
        Some(InteriorConfig { exposure: v.clamped(Single { bits: QUARTER_BITS }, Single { bits: EIGHT_BITS }), ..k })
    } else if key == "interiorattenscale"@ {
        Some(InteriorConfig { atten_scale: v.clamped(Single { bits: ZERO_BITS }, Single { bits: EIGHT_BITS }), ..k })
    } else if key == "interiorroomgate"@ {
        Some(InteriorConfig { room_gate: v.nonzero(), ..k })
    } else if key == "interiorshadows"@ {
        Some(InteriorConfig { shadows: v.nonzero(), ..k })
    } else if key == "exteriorshadows"@ {
        Some(InteriorConfig { exterior_shadows: v.nonzero(), ..k })
    } else if key == "interiorshadowcasters"@ {
        Some(InteriorConfig { shadow_casters: held(v.count(u32::MAX as int), 1, MAX_TORCH_CASTERS as int) as u32, ..k })
    } else if key == "interiorshadowdynamic"@ {
        Some(InteriorConfig { shadow_dynamic: held(v.count(u32::MAX as int), 1, MAX_TORCH_DYNAMIC as int) as u32, ..k })
    } else if key == "interiorshadowentityrate"@ {
        Some(InteriorConfig { shadow_entity_rate: held(v.count(u32::MAX as int), 0, MAX_ENTITY_RATE as int) as u32, ..k })
    } else if key == "interiorshadowsoft"@ {
        Some(InteriorConfig { shadow_soft: v.clamped(Single { bits: HALF_BITS }, Single { bits: THREE_BITS }), ..k })
    } else if key == "torchshadowstrength"@ {
        Some(InteriorConfig { torch_strength: v.clamped(Single { bits: ZERO_BITS }, Single { bits: ONE_BITS }), ..k })
    } else if key == "interiordebug"@ {
        Some(InteriorConfig { debug: held(v.count(u32::MAX as int), 0, MAX_INTERIOR_DEBUG as int) as u32, ..k })
    } else {
        None
    }
}

fn set_interior(k: InteriorConfig, key: &str, v: Single) -> (r: Option<InteriorConfig>)
    ensures
        r == after_interior(k, key@, v),
{
    if same_text(key, "interiorlight") {
        Some(InteriorConfig { light: v.is_nonzero(), ..k })
    } else if same_text(key, "interiorambient") {
        Some(InteriorConfig { ambient: v.clamp(Single { bits: ZERO_BITS }, Single { bits: ONE_BITS }), ..k })
    } else if same_text(key, "interiorfill") {
        Some(InteriorConfig { fill: v.clamp(Single { bits: ZERO_BITS }, Single { bits: TWO_BITS }), ..k })
    } else if same_text(key, "interiorexposure") {
        Some(InteriorConfig { exposure: v.clamp(Single { bits: QUARTER_BITS }, Single { bits: EIGHT_BITS }), ..k })
    } else if same_text(key, "interiorattenscale") {
        Some(InteriorConfig { atten_scale: v.clamp(Single { bits: ZERO_BITS }, Single { bits: EIGHT_BITS }), ..k })
    } else if same_text(key, "interiorroomgate") {
        Some(InteriorConfig { room_gate: v.is_nonzero(), ..k })
    } else if same_text(key, "interiorshadows") {
        Some(InteriorConfig { shadows: v.is_nonzero(), ..k })
    } else if same_text(key, "exteriorshadows") {
        Some(InteriorConfig { exterior_shadows: v.is_nonzero(), ..k })
    } else if same_text(key, "interiorshadowcasters") {
        Some(InteriorConfig { shadow_casters: hold(v.to_count(), 1, MAX_TORCH_CASTERS), ..k })
    } else if same_text(key, "interiorshadowdynamic") {
        Some(InteriorConfig { shadow_dynamic: hold(v.to_count(), 1, MAX_TORCH_DYNAMIC), ..k })
    } else if same_text(key, "interiorshadowentityrate") {
        Some(InteriorConfig { shadow_entity_rate: hold(v.to_count(), 0, MAX_ENTITY_RATE), ..k })
    } else if same_text(key, "interiorshadowsoft") {
        Some(InteriorConfig { shadow_soft: v.clamp(Single { bits: HALF_BITS }, Single { bits: THREE_BITS }), ..k })
    } else if same_text(key, "torchshadowstrength") {
        Some(InteriorConfig { torch_strength: v.clamp(Single { bits: ZERO_BITS }, Single { bits: ONE_BITS }), ..k })
    } else if same_text(key, "interiordebug") {
        Some(InteriorConfig { debug: hold(v.to_count(), 0, MAX_INTERIOR_DEBUG), ..k })
    } else {
        None
    }
}

/// The light gains after a number is written to one of them; `None` for any other key.
pub open spec fn after_gains(k: LightGains, key: Seq<char>, v: Single) -> Option<LightGains> {
    if key == "nightgain"@ {
        Some(LightGains { night_gain: v.clamped(Single { bits: FIFTH_BITS }, Single { bits: ONE_AND_A_HALF_BITS }), ..k })
    } else if key == "interiorgain"@ {
        Some(LightGains { interior_gain: v.clamped(Single { bits: FIFTH_BITS }, Single { bits: ONE_AND_A_HALF_BITS }), ..k })
    } else if key == "interiordaylight"@ {
        Some(LightGains { interior_daylight: v.clamped(Single { bits: ZERO_BITS }, Single { bits: ONE_BITS }), ..k })
    } else if key == "interiorbakefloor"@ {
        Some(LightGains { interior_bake_floor: v.clamped(Single { bits: ZERO_BITS }, Single { bits: ONE_BITS }), ..k })
    } else if key == "firelightgain"@ {
        Some(LightGains { fire_light_gain: v.clamped(Single { bits: ZERO_BITS }, Single { bits: FOUR_BITS }), ..k })
    } else if key == "spelllightgain"@ {
        Some(LightGains { spell_light_gain: v.clamped(Single { bits: ZERO_BITS }, Single { bits: FOUR_BITS }), ..k })
    } else if key == "fireflicker"@ {
        Some(LightGains { fire_flicker: v.clamped(Single { bits: ZERO_BITS }, Single { bits: TWO_BITS }), ..k })
    } else {
        None
    }
}

fn set_gains(k: LightGains, key: &str, v: Single) -> (r: Option<LightGains>)
    ensures
        r == after_gains(k, key@, v),
{
    if same_text(key, "nightgain") {
        Some(LightGains { night_gain: v.clamp(Single { bits: FIFTH_BITS }, Single { bits: ONE_AND_A_HALF_BITS }), ..k })
    } else if same_text(key, "interiorgain") {
        Some(LightGains { interior_gain: v.clamp(Single { bits: FIFTH_BITS }, Single { bits: ONE_AND_A_HALF_BITS }), ..k })
    } else if same_text(key, "interiordaylight") {
        Some(LightGains { interior_daylight: v.clamp(Single { bits: ZERO_BITS }, Single { bits: ONE_BITS }), ..k })
    } else if same_text(key, "interiorbakefloor") {
        Some(LightGains { interior_bake_floor: v.clamp(Single { bits: ZERO_BITS }, Single { bits: ONE_BITS }), ..k })
    } else if same_text(key, "firelightgain") {
        Some(LightGains { fire_light_gain: v.clamp(Single { bits: ZERO_BITS }, Single { bits: FOUR_BITS }), ..k })
    } else if same_text(key, "spelllightgain") {
        Some(LightGains { spell_light_gain: v.clamp(Single { bits: ZERO_BITS }, Single { bits: FOUR_BITS }), ..k })
    } else if same_text(key, "fireflicker") {
        Some(LightGains { fire_flicker: v.clamp(Single { bits: ZERO_BITS }, Single { bits: TWO_BITS }), ..k })
    } else {
        None
    }
}

/// The display settings after a number is written to one of them; `None` for any other key.
pub open spec fn after_display(k: DisplayConfig, key: Seq<char>, v: Single, reading: Reading, limits: Limits) -> Option<DisplayConfig> {
    if key == "gxwindow"@ {
        Some(DisplayConfig { mode: display_mode(v), ..k })
    } else if key == "boothhalfrate"@ {
        Some(DisplayConfig { pane_half: v.nonzero(), ..k })
    } else if key == "renderscale"@ {
        Some(DisplayConfig { render_scale: v.clamped(limits.render_scale.0, limits.render_scale.1), ..k })
    } else if key == "fpsjournal"@ {
        Some(DisplayConfig { fps_journal: v.nonzero(), ..k })
    } else if key == "gxmultisample"@ {
        Some(DisplayConfig { samples: reading.granted, ..k })
    } else if key == "trilinear"@ {
        Some(DisplayConfig { trilinear: v.nonzero(), ..k })
    } else if key == "anisotropic"@ {
        Some(DisplayConfig { aniso: held(v.count(u32::MAX as int), 1, MAX_ANISO as int) as u32, ..k })
    } else {
        None
    }
}

fn set_display(k: DisplayConfig, key: &str, v: Single, reading: &Reading, limits: &Limits) -> (r: Option<DisplayConfig>)
    requires
        limits.wf(),
    ensures
        r == after_display(k, key@, v, *reading, *limits),
{
    if same_text(key, "gxwindow") {
        Some(DisplayConfig { mode: display_from_flag(v), ..k })
    } else if same_text(key, "boothhalfrate") {
        Some(DisplayConfig { pane_half: v.is_nonzero(), ..k })
    } else if same_text(key, "renderscale") {
        Some(DisplayConfig { render_scale: v.clamp(limits.render_scale.0, limits.render_scale.1), ..k })
    } else if same_text(key, "fpsjournal") {
        Some(DisplayConfig { fps_journal: v.is_nonzero(), ..k })
    } else if same_text(key, "gxmultisample") {
        Some(DisplayConfig { samples: reading.granted, ..k })
    } else if same_text(key, "trilinear") {
        Some(DisplayConfig { trilinear: v.is_nonzero(), ..k })
    } else if same_text(key, "anisotropic") {
        Some(DisplayConfig { aniso: hold(v.to_count(), 1, MAX_ANISO), ..k })
    } else {
        None
    }
}

/// The settings whose value is a text and no number.
pub open spec fn string_valued(key: Seq<char>) -> bool {
    key == "gxapi"@ || key == "gxresolution"@ || key == "realmlist"@ || key == "realmname"@
}

/// Whether a (lowercased) key is one of the text-valued settings.
pub fn is_string_valued(key: &str) -> (r: bool)
    ensures
        r == string_valued(key@),
{
    same_text(key, "gxapi") || same_text(key, "gxresolution") || same_text(key, "realmlist") || same_text(key, "realmname")
}

/// The knobs after a text is written to a text-valued setting: a window size is taken where the
/// text reads as one.
pub open spec fn after_text(k: Knobs, key: Seq<char>, reading: Reading) -> Knobs {
    if key == "gxresolution"@ && reading.resolution is Some {
        Knobs { display: DisplayConfig { windowed: reading.resolution->0, ..k.display }, ..k }
    } else {
        k
    }
}

/// The realm address after a write: the one the text reads as where the setting is the realm
/// list, and otherwise the one that stood.
pub open spec fn address_after(address: Seq<char>, key: Seq<char>, reading: Reading) -> Seq<char> {
    if key == "realmlist"@ && reading.address is Some {
        (reading.address->0)@
    } else {
        address
    }
}

/// Applies a text-valued setting; `false` for a key that is none.
pub fn apply_string_valued(key: &str, reading: &Reading, knobs: &mut Knobs, realmlist: &mut String) -> (r: bool)
    ensures
        r == string_valued(key@),
        *final(knobs) == (if r {
            after_text(*old(knobs), key@, *reading)
        } else {
            *old(knobs)
        }),
        final(realmlist)@ == (if r {
            address_after(old(realmlist)@, key@, *reading)
        } else {
            old(realmlist)@
        }),
{
    if !is_string_valued(key) {
        return false;
    }
    if same_text(key, "gxresolution") {
        match reading.resolution {
            Some(size) => {
                knobs.display.windowed = size;
            },
            None => {},
        }
    }
    if same_text(key, "realmlist") {
        match &reading.address {
            Some(address) => {
                *realmlist = address.clone();
            },
            None => {},
        }
    }
    true
}

/// The knobs after a number is written; `None` for a key that no knob answers to.
pub open spec fn after_number(k: Knobs, key: Seq<char>, v: Single, reading: Reading, limits: Limits) -> Option<Knobs> {
    if after_sound(k.sound, key, v) is Some {
        Some(Knobs { sound: after_sound(k.sound, key, v)->0, ..k })
    } else if after_view(k.view, key, v, limits) is Some {
        Some(Knobs { view: after_view(k.view, key, v, limits)->0, ..k })
    } else if reading.view_setting {
        Some(k)
    } else if after_look(k.look, key, v) is Some {
        Some(Knobs { look: after_look(k.look, key, v)->0, ..k })
    } else if after_follow(k.follow, key, v, reading) is Some {
        Some(Knobs { follow: after_follow(k.follow, key, v, reading)->0, ..k })
    } else if after_damage_text(k.damage_text, key, v) is Some {
        Some(Knobs { damage_text: after_damage_text(k.damage_text, key, v)->0, ..k })
    } else if reading.combat_range {
        Some(k)
    } else if after_names(k.names, key, v) is Some {
        Some(Knobs { names: after_names(k.names, key, v)->0, ..k })
    } else if after_camera_opts(k.camera_opts, key, v) is Some {
        Some(Knobs { camera_opts: after_camera_opts(k.camera_opts, key, v)->0, ..k })
    } else if after_interface(k.interface, key, v) is Some {
        Some(Knobs { interface: after_interface(k.interface, key, v)->0, ..k })
    } else if after_scene(k.scene, key, v, limits) is Some {
        Some(Knobs { scene: after_scene(k.scene, key, v, limits)->0, ..k })
    } else if after_shadow(k.shadow, key, v) is Some {
        Some(Knobs { shadow: after_shadow(k.shadow, key, v)->0, ..k })
    } else if after_interior(k.interior, key, v) is Some {
        Some(Knobs { interior: after_interior(k.interior, key, v)->0, ..k })
    } else if after_gains(k.gains, key, v) is Some {
        Some(Knobs { gains: after_gains(k.gains, key, v)->0, ..k })
    } else if after_display(k.display, key, v, reading, limits) is Some {
        Some(Knobs { display: after_display(k.display, key, v, reading, limits)->0, ..k })
    } else {
        None
    }
}

fn set_number(k: Knobs, key: &str, v: Single, reading: &Reading, limits: &Limits) -> (r: Option<Knobs>)
    requires
        limits.wf(),
    ensures
        r == after_number(k, key@, v, *reading, *limits),
{
    match set_sound(k.sound, key, v) {
        Some(sound) => return Some(Knobs { sound, ..k }),
        None => {},
    }
    match set_view(k.view, key, v, limits) {
        Some(view) => return Some(Knobs { view, ..k }),
        None => {},
    }
    if reading.view_setting {
        return Some(k);
    }
    match set_look(k.look, key, v) {
        Some(look) => return Some(Knobs { look, ..k }),
        None => {},
    }
    match set_follow(k.follow, key, v, reading) {
        Some(follow) => return Some(Knobs { follow, ..k }),
        None => {},
    }
    match set_damage_text(k.damage_text, key, v) {
        Some(damage_text) => return Some(Knobs { damage_text, ..k }),
        None => {},
    }
    if reading.combat_range {
        return Some(k);
    }
    match set_names(k.names, key, v) {
        Some(names) => return Some(Knobs { names, ..k }),
        None => {},
    }
    match set_camera_opts(k.camera_opts, key, v) {
        Some(camera_opts) => return Some(Knobs { camera_opts, ..k }),
        None => {},
    }
    match set_interface(k.interface, key, v) {
        Some(interface) => return Some(Knobs { interface, ..k }),
        None => {},
    }
    match set_scene(k.scene, key, v, limits) {
        Some(scene) => return Some(Knobs { scene, ..k }),
        None => {},
    }
    match set_shadow(k.shadow, key, v) {
        Some(shadow) => return Some(Knobs { shadow, ..k }),
        None => {},
    }
    match set_interior(k.interior, key, v) {
        Some(interior) => return Some(Knobs { interior, ..k }),
        None => {},
    }
    match set_gains(k.gains, key, v) {
        Some(gains) => return Some(Knobs { gains, ..k }),
        None => {},
    }
    match set_display(k.display, key, v, reading, limits) {
        Some(display) => return Some(Knobs { display, ..k }),
        None => {},
    }
    None
}

/// Some knob answers to a key. Whether one does rests neither on the number written nor on where
/// the knobs stand, so the number 0 asks as well as any.
pub open spec fn answers(k: Knobs, key: Seq<char>, reading: Reading, limits: Limits) -> bool {
    after_number(k, key, Single { bits: ZERO_BITS }, reading, limits) is Some
}

/// The knobs after a setting is written, and `None` where no knob answers to the name. A
/// text-valued setting takes its text; any other takes the number, and is consumed with the
/// knobs left alone where the text reads as none.
pub open spec fn after_write(k: Knobs, name: Seq<char>, reading: Reading, limits: Limits) -> Option<Knobs> {
    let key = lower(name);
    if string_valued(key) {
        Some(after_text(k, key, reading))
    } else {
        match reading.number {
            None => if answers(k, key, reading, limits) {
                Some(k)
            } else {
                None
            },
            Some(v) => after_number(k, key, v, reading, limits),
        }
    }
}

/// Applies one setting to its knob. `false` where no knob answers to the name.
pub fn apply_to_knobs(name: &str, reading: &Reading, limits: &Limits, knobs: &mut Knobs, realmlist: &mut String) -> (r: bool)
    requires
        limits.wf(),
    ensures
        r == (after_write(*old(knobs), name@, *reading, *limits) is Some),
        *final(knobs) == (match after_write(*old(knobs), name@, *reading, *limits) {
            Some(next) => next,
            None => *old(knobs),
        }),
        final(realmlist)@ == address_after(old(realmlist)@, lower(name@), *reading),
{
    let key = name.to_ascii_lowercase();
    if apply_string_valued(key.as_str(), reading, knobs, realmlist) {
        return true;
    }
    match reading.number {
        Some(v) => match set_number(*knobs, key.as_str(), v, reading, limits) {
            Some(next) => {
                *knobs = next;
                true
            },
            None => false,
        },
        None => match set_number(*knobs, key.as_str(), Single { bits: ZERO_BITS }, reading, limits) {
            Some(_) => true,
            None => false,
        },
    }
}

} // verus!
