//! What a session answers for each setting, once the script engine is up.
use crate::cvars::knobs::{ClutterDensity, DisplayMode, FollowStyle, Knobs, MAX_ANISO};
use crate::single::Single;
use crate::text::{decimal, decimal_digits, flag, flag_text, signed_decimal, signed_digits};
use vstd::prelude::*;
use vstd::string::StringExecFns;

verus! {

/// The value of one setting, before it is spelled.
#[derive(Clone, Copy, Debug)]
pub enum Shown {
    /// `"1"` or `"0"`.
    Flag(bool),
    /// A count in decimal.
    Count(u32),
    /// A signed number in decimal.
    Integer(i64),
    /// Two counts with an `x` between.
    Size(u32, u32),
    /// A number in its shortest spelling.
    Number(Single),
    /// A number to six decimal places.
    SixPlaces(Single),
    /// The ground cover as a panel stop.
    Stop(ClutterDensity),
    /// The ground cover in cells per chunk.
    Cells(ClutterDensity),
    /// The follow style in the camera's own spelling.
    Style(FollowStyle),
    /// The render backend's name, empty where nothing renders.
    Backend,
    /// The realm address.
    Realm,
}

/// One setting a session answers for.
#[derive(Clone, Copy, Debug)]
pub struct SessionRow {
    pub name: &'static str,
    pub shown: Shown,
}

/// The combat log's display ranges, in yards.
#[derive(Clone, Copy, Debug)]
pub struct CombatRanges {
    pub party: Single,
    pub party_pet: Single,
    pub friendly_player: Single,
    pub friendly_pet: Single,
    pub hostile_player: Single,
    pub hostile_pet: Single,
    pub creature: Single,
    pub death: Single,
}

/// A row of the session's answers.
pub open spec fn row(name: &'static str, shown: Shown) -> SessionRow {
    SessionRow { name, shown }
}

fn answer(name: &'static str, shown: Shown) -> (r: SessionRow)
    ensures
        r == row(name, shown),
{
    SessionRow { name, shown }
}

/// The answers from `MasterVolume` to `uiScale`.
pub open spec fn mixer_answers(k: Knobs) -> Seq<SessionRow> {
    seq![
        row("MasterVolume", Shown::Number(k.sound.master)),
        row("SoundVolume", Shown::Number(k.sound.sfx)),
        row("MusicVolume", Shown::Number(k.sound.music)),
        row("AmbienceVolume", Shown::Number(k.sound.ambience)),
        row("MasterSoundEffects", Shown::Flag(k.sound.enabled)),
        row("EnableMusic", Shown::Flag(k.sound.music_enabled)),
        row("EnableAmbience", Shown::Flag(k.sound.ambience_enabled)),
        row("EnableErrorSpeech", Shown::Flag(k.sound.error_speech)),
        row("Sound_EnableSoundWhenGameIsInBG", Shown::Flag(k.sound.background_sound)),
        row("SoundReverb", Shown::Flag(k.sound.reverb)),
        row("SoundOutputLimiter", Shown::Flag(k.sound.limiter)),
        row("SoundListenerAtCharacter", Shown::Flag(k.sound.listener_at_character)),
        row("EmoteSounds", Shown::Flag(k.sound.emote_sounds)),
        row("SoundZoneMusicNoDelay", Shown::Flag(k.sound.zone_music_no_delay)),
        row("uiScale", Shown::Number(k.view.ui_scale)),
    ]
}

fn push_mixer(rows: &mut Vec<SessionRow>, k: Knobs)
    ensures
        final(rows)@ == old(rows)@ + mixer_answers(k),
{
    rows.push(answer("MasterVolume", Shown::Number(k.sound.master)));
    rows.push(answer("SoundVolume", Shown::Number(k.sound.sfx)));
    rows.push(answer("MusicVolume", Shown::Number(k.sound.music)));
    rows.push(answer("AmbienceVolume", Shown::Number(k.sound.ambience)));
    rows.push(answer("MasterSoundEffects", Shown::Flag(k.sound.enabled)));
    rows.push(answer("EnableMusic", Shown::Flag(k.sound.music_enabled)));
    rows.push(answer("EnableAmbience", Shown::Flag(k.sound.ambience_enabled)));
    rows.push(answer("EnableErrorSpeech", Shown::Flag(k.sound.error_speech)));
    rows.push(answer("Sound_EnableSoundWhenGameIsInBG", Shown::Flag(k.sound.background_sound)));
    rows.push(answer("SoundReverb", Shown::Flag(k.sound.reverb)));
    rows.push(answer("SoundOutputLimiter", Shown::Flag(k.sound.limiter)));
    rows.push(answer("SoundListenerAtCharacter", Shown::Flag(k.sound.listener_at_character)));
    rows.push(answer("EmoteSounds", Shown::Flag(k.sound.emote_sounds)));
    rows.push(answer("SoundZoneMusicNoDelay", Shown::Flag(k.sound.zone_music_no_delay)));
    rows.push(answer("uiScale", Shown::Number(k.view.ui_scale)));
    proof {
        assert(rows@ =~= old(rows)@ + mixer_answers(k));
    }
}

/// The answers from `farclip` to `cameraPivotDXMax`.
pub open spec fn look_answers(k: Knobs) -> Seq<SessionRow> {
    seq![
        row("farclip", Shown::Number(k.view.farclip)),
        row("nearclip", Shown::Number(k.view.nearclip)),
        row("deselectOnClick", Shown::Flag(k.view.deselect_on_click)),
        row("autoSelfCast", Shown::Flag(k.view.auto_self_cast)),
        row("assistAttack", Shown::Flag(k.view.assist_attack)),
        row("mouseInvertPitch", Shown::Flag(k.look.invert_pitch)),
        row("mousespeed", Shown::Number(k.look.sensitivity)),
        row("cameraYawMoveSpeed", Shown::Number(k.look.yaw_speed)),
        row("cameraPitchMoveSpeed", Shown::Number(k.look.pitch_speed)),
        row("cameraDistanceMaxFactor", Shown::Number(k.follow.distance_factor)),
        row("cameraSmoothStyle", Shown::Style(k.follow.style)),
        row("cameraSmoothTrackingStyle", Shown::Style(k.follow.tracking_style)),
        row("cameraYawSmoothSpeed", Shown::Number(k.follow.yaw_speed)),
        row("cameraPivot", Shown::Flag(k.camera_opts.pivot)),
        row("cameraPivotDXMax", Shown::Number(k.camera_opts.pivot_dx_max)),
    ]
}

fn push_look(rows: &mut Vec<SessionRow>, k: Knobs)
    ensures
        final(rows)@ == old(rows)@ + look_answers(k),
{
    rows.push(answer("farclip", Shown::Number(k.view.farclip)));
    rows.push(answer("nearclip", Shown::Number(k.view.nearclip)));
    rows.push(answer("deselectOnClick", Shown::Flag(k.view.deselect_on_click)));
    rows.push(answer("autoSelfCast", Shown::Flag(k.view.auto_self_cast)));
    rows.push(answer("assistAttack", Shown::Flag(k.view.assist_attack)));
    rows.push(answer("mouseInvertPitch", Shown::Flag(k.look.invert_pitch)));
    rows.push(answer("mousespeed", Shown::Number(k.look.sensitivity)));
    rows.push(answer("cameraYawMoveSpeed", Shown::Number(k.look.yaw_speed)));
    rows.push(answer("cameraPitchMoveSpeed", Shown::Number(k.look.pitch_speed)));
    rows.push(answer("cameraDistanceMaxFactor", Shown::Number(k.follow.distance_factor)));
    rows.push(answer("cameraSmoothStyle", Shown::Style(k.follow.style)));
    rows.push(answer("cameraSmoothTrackingStyle", Shown::Style(k.follow.tracking_style)));
    rows.push(answer("cameraYawSmoothSpeed", Shown::Number(k.follow.yaw_speed)));
    rows.push(answer("cameraPivot", Shown::Flag(k.camera_opts.pivot)));
    rows.push(answer("cameraPivotDXMax", Shown::Number(k.camera_opts.pivot_dx_max)));
    proof {
        assert(rows@ =~= old(rows)@ + look_answers(k));
    }
}

/// The answers from `cameraPivotDYMin` to `guildMemberNotify`.
pub open spec fn camera_answers(k: Knobs) -> Seq<SessionRow> {
    seq![
        row("cameraPivotDYMin", Shown::Number(k.camera_opts.pivot_dy_min)),
        row("cameraTargetSmoothSpeed", Shown::Number(k.camera_opts.target_smooth_speed)),
        row("cameraWaterCollision", Shown::Flag(k.camera_opts.water_collision)),
        row("cameraTerrainTilt", Shown::Flag(k.camera_opts.terrain_tilt)),
        row("cameraGroundSmoothSpeed", Shown::Number(k.camera_opts.ground_smooth_speed)),
        row("cameraTerrainTiltTimeMin", Shown::Number(k.camera_opts.tilt_time_min)),
        row("cameraTerrainTiltTimeMax", Shown::Number(k.camera_opts.tilt_time_max)),
        row("cameraBobbing", Shown::Flag(k.camera_opts.bobbing)),
        row("cameraBobbingLRAmplitude", Shown::Number(k.camera_opts.bob_lr_amplitude)),
        row("cameraBobbingUDAmplitude", Shown::Number(k.camera_opts.bob_ud_amplitude)),
        row("cameraBobbingFrequency", Shown::Number(k.camera_opts.bob_frequency)),
        row("cameraBobbingSmoothSpeed", Shown::Number(k.camera_opts.bob_smooth_speed)),
        row("autoLootDefault", Shown::Flag(k.names.auto_loot)),
        row("showLootSpam", Shown::Flag(k.names.show_loot_spam)),
        row("guildMemberNotify", Shown::Flag(k.interface.guild_notify)),
    ]
}

fn push_camera(rows: &mut Vec<SessionRow>, k: Knobs)
    ensures
        final(rows)@ == old(rows)@ + camera_answers(k),
{
    rows.push(answer("cameraPivotDYMin", Shown::Number(k.camera_opts.pivot_dy_min)));
    rows.push(answer("cameraTargetSmoothSpeed", Shown::Number(k.camera_opts.target_smooth_speed)));
    rows.push(answer("cameraWaterCollision", Shown::Flag(k.camera_opts.water_collision)));
    rows.push(answer("cameraTerrainTilt", Shown::Flag(k.camera_opts.terrain_tilt)));
    rows.push(answer("cameraGroundSmoothSpeed", Shown::Number(k.camera_opts.ground_smooth_speed)));
    rows.push(answer("cameraTerrainTiltTimeMin", Shown::Number(k.camera_opts.tilt_time_min)));
    rows.push(answer("cameraTerrainTiltTimeMax", Shown::Number(k.camera_opts.tilt_time_max)));
    rows.push(answer("cameraBobbing", Shown::Flag(k.camera_opts.bobbing)));
    rows.push(answer("cameraBobbingLRAmplitude", Shown::Number(k.camera_opts.bob_lr_amplitude)));
    rows.push(answer("cameraBobbingUDAmplitude", Shown::Number(k.camera_opts.bob_ud_amplitude)));
    rows.push(answer("cameraBobbingFrequency", Shown::Number(k.camera_opts.bob_frequency)));
    rows.push(answer("cameraBobbingSmoothSpeed", Shown::Number(k.camera_opts.bob_smooth_speed)));
    rows.push(answer("autoLootDefault", Shown::Flag(k.names.auto_loot)));
    rows.push(answer("showLootSpam", Shown::Flag(k.names.show_loot_spam)));
    rows.push(answer("guildMemberNotify", Shown::Flag(k.interface.guild_notify)));
    proof {
        assert(rows@ =~= old(rows)@ + camera_answers(k));
    }
}

/// The answers from `BlockTrades` to `spamFilter`.
pub open spec fn chat_answers(k: Knobs) -> Seq<SessionRow> {
    seq![
        row("BlockTrades", Shown::Flag(k.interface.block_trades)),
        row("UnitNamePlayer", Shown::Flag(k.names.player)),
        row("UnitNameNPC", Shown::Flag(k.names.npc)),
        row("UnitNameOwn", Shown::Flag(k.names.own)),
        row("UnitNamePlayerGuild", Shown::Flag(k.names.player_guild)),
        row("nameplateShowEnemies", Shown::Flag(k.names.enemy_plates)),
        row("nameplateShowFriends", Shown::Flag(k.names.friend_plates)),
        row("WorldDetail", Shown::Stop(k.scene.clutter)),
        row("frillDensity", Shown::Cells(k.scene.clutter)),
        row("weatherDensity", Shown::Count(k.scene.weather_density as u32)),
        row("gamma", Shown::SixPlaces(k.scene.display_gamma)),
        row("ChatBubbles", Shown::Flag(k.interface.bubbles)),
        row("ChatBubblesParty", Shown::Flag(k.interface.party_bubbles)),
        row("profanityFilter", Shown::Flag(k.interface.profanity)),
        row("spamFilter", Shown::Flag(k.interface.spam)),
    ]
}

fn push_chat(rows: &mut Vec<SessionRow>, k: Knobs)
    ensures
        final(rows)@ == old(rows)@ + chat_answers(k),
{
    rows.push(answer("BlockTrades", Shown::Flag(k.interface.block_trades)));
    rows.push(answer("UnitNamePlayer", Shown::Flag(k.names.player)));
    rows.push(answer("UnitNameNPC", Shown::Flag(k.names.npc)));
    rows.push(answer("UnitNameOwn", Shown::Flag(k.names.own)));
    rows.push(answer("UnitNamePlayerGuild", Shown::Flag(k.names.player_guild)));
    rows.push(answer("nameplateShowEnemies", Shown::Flag(k.names.enemy_plates)));
    rows.push(answer("nameplateShowFriends", Shown::Flag(k.names.friend_plates)));
    rows.push(answer("WorldDetail", Shown::Stop(k.scene.clutter)));
    rows.push(answer("frillDensity", Shown::Cells(k.scene.clutter)));
    rows.push(answer("weatherDensity", Shown::Count(k.scene.weather_density as u32)));
    rows.push(answer("gamma", Shown::SixPlaces(k.scene.display_gamma)));
    rows.push(answer("ChatBubbles", Shown::Flag(k.interface.bubbles)));
    rows.push(answer("ChatBubblesParty", Shown::Flag(k.interface.party_bubbles)));
    rows.push(answer("profanityFilter", Shown::Flag(k.interface.profanity)));
    rows.push(answer("spamFilter", Shown::Flag(k.interface.spam)));
    proof {
        assert(rows@ =~= old(rows)@ + chat_answers(k));
    }
}

/// The answers from `showGameTips` to `interiorLight`.
pub open spec fn minimap_and_shadow_answers(k: Knobs) -> Seq<SessionRow> {
    seq![
        row("showGameTips", Shown::Flag(k.interface.show_tips)),
        row("gameTip", Shown::Integer(k.interface.next_tip)),
        row("minimapZoom", Shown::Count(k.scene.outdoor_zoom as u32)),
        row("minimapInsideZoom", Shown::Count(k.scene.inside_zoom as u32)),
        row("gxApi", Shown::Backend),
        row("gxVSync", Shown::Flag(k.shadow.vsync)),
        row("worldShadows", Shown::Flag(k.shadow.world_shadows)),
        row("characterShadows", Shown::Flag(k.shadow.character_shadows)),
        row("shadowDistance", Shown::Number(k.shadow.shadow_distance)),
        row("shadowMapSize", Shown::Count(k.shadow.shadow_map_size)),
        row("shadowFilter", Shown::Count(k.shadow.shadow_filter)),
        row("characterShadowRate", Shown::Count(k.shadow.character_shadow_rate)),
        row("worldShadowRate", Shown::Count(k.shadow.world_shadow_rate)),
        row("shadowCasterReach", Shown::Number(k.shadow.shadow_caster_reach)),
        row("interiorLight", Shown::Flag(k.interior.light)),
    ]
}

fn push_minimap_and_shadow(rows: &mut Vec<SessionRow>, k: Knobs)
    ensures
        final(rows)@ == old(rows)@ + minimap_and_shadow_answers(k),
{
    rows.push(answer("showGameTips", Shown::Flag(k.interface.show_tips)));
    rows.push(answer("gameTip", Shown::Integer(k.interface.next_tip)));
    rows.push(answer("minimapZoom", Shown::Count(k.scene.outdoor_zoom as u32)));
    rows.push(answer("minimapInsideZoom", Shown::Count(k.scene.inside_zoom as u32)));
    rows.push(answer("gxApi", Shown::Backend));
    rows.push(answer("gxVSync", Shown::Flag(k.shadow.vsync)));
    rows.push(answer("worldShadows", Shown::Flag(k.shadow.world_shadows)));
    rows.push(answer("characterShadows", Shown::Flag(k.shadow.character_shadows)));
    rows.push(answer("shadowDistance", Shown::Number(k.shadow.shadow_distance)));
    rows.push(answer("shadowMapSize", Shown::Count(k.shadow.shadow_map_size)));
    rows.push(answer("shadowFilter", Shown::Count(k.shadow.shadow_filter)));
    rows.push(answer("characterShadowRate", Shown::Count(k.shadow.character_shadow_rate)));
    rows.push(answer("worldShadowRate", Shown::Count(k.shadow.world_shadow_rate)));
    rows.push(answer("shadowCasterReach", Shown::Number(k.shadow.shadow_caster_reach)));
    rows.push(answer("interiorLight", Shown::Flag(k.interior.light)));
    proof {
        assert(rows@ =~= old(rows)@ + minimap_and_shadow_answers(k));
    }
}

/// The answers from `interiorAmbient` to `interiorGain`.
pub open spec fn interior_answers(k: Knobs) -> Seq<SessionRow> {
    seq![
        row("interiorAmbient", Shown::Number(k.interior.ambient)),
        row("interiorFill", Shown::Number(k.interior.fill)),
        row("interiorExposure", Shown::Number(k.interior.exposure)),
        row("interiorAttenScale", Shown::Number(k.interior.atten_scale)),
        row("interiorRoomGate", Shown::Flag(k.interior.room_gate)),
        row("interiorShadows", Shown::Flag(k.interior.shadows)),
        row("exteriorShadows", Shown::Flag(k.interior.exterior_shadows)),
        row("interiorShadowCasters", Shown::Count(k.interior.shadow_casters)),
        row("interiorShadowDynamic", Shown::Count(k.interior.shadow_dynamic)),
        row("interiorShadowEntityRate", Shown::Count(k.interior.shadow_entity_rate)),
        row("interiorShadowSoft", Shown::Number(k.interior.shadow_soft)),
        row("torchShadowStrength", Shown::Number(k.interior.torch_strength)),
        row("interiorDebug", Shown::Count(k.interior.debug)),
        row("nightGain", Shown::Number(k.gains.night_gain)),
        row("interiorGain", Shown::Number(k.gains.interior_gain)),
    ]
}

fn push_interior(rows: &mut Vec<SessionRow>, k: Knobs)
    ensures
        final(rows)@ == old(rows)@ + interior_answers(k),
{
    rows.push(answer("interiorAmbient", Shown::Number(k.interior.ambient)));
    rows.push(answer("interiorFill", Shown::Number(k.interior.fill)));
    rows.push(answer("interiorExposure", Shown::Number(k.interior.exposure)));
    rows.push(answer("interiorAttenScale", Shown::Number(k.interior.atten_scale)));
    rows.push(answer("interiorRoomGate", Shown::Flag(k.interior.room_gate)));
    rows.push(answer("interiorShadows", Shown::Flag(k.interior.shadows)));
    rows.push(answer("exteriorShadows", Shown::Flag(k.interior.exterior_shadows)));
    rows.push(answer("interiorShadowCasters", Shown::Count(k.interior.shadow_casters)));
    rows.push(answer("interiorShadowDynamic", Shown::Count(k.interior.shadow_dynamic)));
    rows.push(answer("interiorShadowEntityRate", Shown::Count(k.interior.shadow_entity_rate)));
    rows.push(answer("interiorShadowSoft", Shown::Number(k.interior.shadow_soft)));
    rows.push(answer("torchShadowStrength", Shown::Number(k.interior.torch_strength)));
    rows.push(answer("interiorDebug", Shown::Count(k.interior.debug)));
    rows.push(answer("nightGain", Shown::Number(k.gains.night_gain)));
    rows.push(answer("interiorGain", Shown::Number(k.gains.interior_gain)));
    proof {
        assert(rows@ =~= old(rows)@ + interior_answers(k));
    }
}

/// The answers from `interiorDaylight` to `CombatLogRangeParty`.
pub open spec fn window_answers(k: Knobs, ranges: CombatRanges) -> Seq<SessionRow> {
    seq![
        row("interiorDaylight", Shown::Number(k.gains.interior_daylight)),
        row("interiorBakeFloor", Shown::Number(k.gains.interior_bake_floor)),
        row("fireLightGain", Shown::Number(k.gains.fire_light_gain)),
        row("spellLightGain", Shown::Number(k.gains.spell_light_gain)),
        row("fireFlicker", Shown::Number(k.gains.fire_flicker)),
        row("gxWindow", Shown::Flag(k.display.mode == DisplayMode::Windowed)),
        row("gxResolution", Shown::Size(k.display.windowed.0, k.display.windowed.1)),
        row("boothHalfRate", Shown::Flag(k.display.pane_half)),
        row("renderScale", Shown::Number(k.display.render_scale)),
        row("gxMultisample", Shown::Count(k.display.samples)),
        row("trilinear", Shown::Flag(k.display.trilinear)),
        row("anisotropic", Shown::Count(k.display.aniso)),
        row("fpsJournal", Shown::Flag(k.display.fps_journal)),
        row("realmList", Shown::Realm),
        row("CombatLogRangeParty", Shown::Number(ranges.party)),
    ]
}

fn push_window(rows: &mut Vec<SessionRow>, k: Knobs, ranges: CombatRanges)
    ensures
        final(rows)@ == old(rows)@ + window_answers(k, ranges),
{
    rows.push(answer("interiorDaylight", Shown::Number(k.gains.interior_daylight)));
    rows.push(answer("interiorBakeFloor", Shown::Number(k.gains.interior_bake_floor)));
    rows.push(answer("fireLightGain", Shown::Number(k.gains.fire_light_gain)));
    rows.push(answer("spellLightGain", Shown::Number(k.gains.spell_light_gain)));
    rows.push(answer("fireFlicker", Shown::Number(k.gains.fire_flicker)));
    rows.push(answer("gxWindow", Shown::Flag(k.display.mode == DisplayMode::Windowed)));
    rows.push(answer("gxResolution", Shown::Size(k.display.windowed.0, k.display.windowed.1)));
    rows.push(answer("boothHalfRate", Shown::Flag(k.display.pane_half)));
    rows.push(answer("renderScale", Shown::Number(k.display.render_scale)));
    rows.push(answer("gxMultisample", Shown::Count(k.display.samples)));
    rows.push(answer("trilinear", Shown::Flag(k.display.trilinear)));
    rows.push(answer("anisotropic", Shown::Count(k.display.aniso)));
    rows.push(answer("fpsJournal", Shown::Flag(k.display.fps_journal)));
    rows.push(answer("realmList", Shown::Realm));
    rows.push(answer("CombatLogRangeParty", Shown::Number(ranges.party)));
    proof {
        assert(rows@ =~= old(rows)@ + window_answers(k, ranges));
    }
}

/// The answers from `CombatLogRangePartyPet` to `CombatLogPeriodicSpells`.
pub open spec fn combat_answers(k: Knobs, ranges: CombatRanges, death_log_range: &'static str) -> Seq<SessionRow> {
    seq![
        row("CombatLogRangePartyPet", Shown::Number(ranges.party_pet)),
        row("CombatLogRangeFriendlyPlayers", Shown::Number(ranges.friendly_player)),
        row("CombatLogRangeFriendlyPlayersPets", Shown::Number(ranges.friendly_pet)),
        row("CombatLogRangeHostilePlayers", Shown::Number(ranges.hostile_player)),
        row("CombatLogRangeHostilePlayersPets", Shown::Number(ranges.hostile_pet)),
        row("CombatLogRangeCreature", Shown::Number(ranges.creature)),
        row(death_log_range, Shown::Number(ranges.death)),
        row("CombatDamage", Shown::Flag(k.damage_text.combat_damage)),
        row("PetMeleeDamage", Shown::Flag(k.damage_text.pet_melee)),
        row("PetSpellDamage", Shown::Flag(k.damage_text.pet_spell)),
        row("CombatLogPeriodicSpells", Shown::Flag(k.damage_text.log_periodic)),
    ]
}

fn push_combat(rows: &mut Vec<SessionRow>, k: Knobs, ranges: CombatRanges, death_log_range: &'static str)
    ensures
        final(rows)@ == old(rows)@ + combat_answers(k, ranges, death_log_range),
{
    rows.push(answer("CombatLogRangePartyPet", Shown::Number(ranges.party_pet)));
    rows.push(answer("CombatLogRangeFriendlyPlayers", Shown::Number(ranges.friendly_player)));
    rows.push(answer("CombatLogRangeFriendlyPlayersPets", Shown::Number(ranges.friendly_pet)));
    rows.push(answer("CombatLogRangeHostilePlayers", Shown::Number(ranges.hostile_player)));
    rows.push(answer("CombatLogRangeHostilePlayersPets", Shown::Number(ranges.hostile_pet)));
    rows.push(answer("CombatLogRangeCreature", Shown::Number(ranges.creature)));
    rows.push(answer(death_log_range, Shown::Number(ranges.death)));
    rows.push(answer("CombatDamage", Shown::Flag(k.damage_text.combat_damage)));
    rows.push(answer("PetMeleeDamage", Shown::Flag(k.damage_text.pet_melee)));
    rows.push(answer("PetSpellDamage", Shown::Flag(k.damage_text.pet_spell)));
    rows.push(answer("CombatLogPeriodicSpells", Shown::Flag(k.damage_text.log_periodic)));
    proof {
        assert(rows@ =~= old(rows)@ + combat_answers(k, ranges, death_log_range));
    }
}

/// Every answer of a session, in table order.
pub open spec fn session_answers(k: Knobs, ranges: CombatRanges, death_log_range: &'static str) -> Seq<SessionRow> {
    mixer_answers(k)
        + look_answers(k)
        + camera_answers(k)
        + chat_answers(k)
        + minimap_and_shadow_answers(k)
        + interior_answers(k)
        + window_answers(k, ranges)
        + combat_answers(k, ranges, death_log_range)
}

/// What the script engine's table is seeded with: every setting a knob backs, at the value the
/// session runs it at.
pub fn session_rows(k: &Knobs, ranges: &CombatRanges, death_log_range: &'static str) -> (r: Vec<SessionRow>)
    ensures
        r@ == session_answers(*k, *ranges, death_log_range),
{
    let mut rows: Vec<SessionRow> = Vec::new();
    push_mixer(&mut rows, *k);
    push_look(&mut rows, *k);
    push_camera(&mut rows, *k);
    push_chat(&mut rows, *k);
    push_minimap_and_shadow(&mut rows, *k);
    push_interior(&mut rows, *k);
    push_window(&mut rows, *k, *ranges);
    push_combat(&mut rows, *k, *ranges, death_log_range);
    proof {
        assert(rows@ =~= session_answers(*k, *ranges, death_log_range));
    }
    rows
}

/// What the script engine is told of the device and of how the client presents.
#[derive(Clone, Copy, Debug, PartialEq, Eq, Structural)]
pub struct VideoCaps {
    pub anisotropic: bool,
    pub pixel_shaders: bool,
    pub vertex_shaders: bool,
    pub trilinear: bool,
    pub triple_buffering: bool,
    pub max_anisotropy: u32,
    pub hardware_cursor: bool,
}

/// Answers what the video window asks: all of it is there but triple buffering, which nothing
/// lets the player choose.
pub fn video_caps() -> (r: VideoCaps)
    ensures
        r == (VideoCaps {
            anisotropic: true,
            pixel_shaders: true,
            vertex_shaders: true,
            trilinear: true,
            triple_buffering: false,
            max_anisotropy: MAX_ANISO,
            hardware_cursor: true,
        }),
{
    VideoCaps {
        anisotropic: true,
        pixel_shaders: true,
        vertex_shaders: true,
        trilinear: true,
        triple_buffering: false,
        max_anisotropy: MAX_ANISO,
        hardware_cursor: true,
    }
}

/// The spelling of a value, and `None` where spelling it takes rounding or another part of the
/// client.
pub open spec fn spelled(shown: Shown, realm: Seq<char>, backend: Option<Seq<char>>) -> Option<Seq<char>> {
    match shown {
        Shown::Flag(on) => Some(flag_text(on)),
        Shown::Count(n) => Some(decimal_digits(n as nat)),
        Shown::Integer(n) => Some(signed_digits(n as int)),
        Shown::Size(x, y) => Some(decimal_digits(x as nat) + "x"@ + decimal_digits(y as nat)),
        Shown::Backend => Some(match backend {
            Some(name) => name,
            None => Seq::empty(),
        }),
        Shown::Realm => Some(realm),
        _ => None,
    }
}

/// Spells a value. `None` where that takes rounding or another part of the client: the caller
/// spells those.
pub fn spell(shown: &Shown, realm: &str, backend: Option<&str>) -> (r: Option<String>)
    ensures
        match r {
            Some(text) => spelled(*shown, realm@, (match backend {
                Some(name) => Some(name@),
                None => None,
            })) == Some(text@),
            None => spelled(*shown, realm@, (match backend {
                Some(name) => Some(name@),
                None => None,
            })) is None,
        },
{
    match shown {
        Shown::Flag(on) => Some(flag(*on)),
        Shown::Count(n) => Some(decimal(*n as u64)),
        Shown::Integer(n) => Some(signed_decimal(*n)),
        Shown::Size(x, y) => {
            let mut text = decimal(*x as u64);
            text.append("x");
            let tail = decimal(*y as u64);
            text.append(tail.as_str());
            Some(text)
        },
        Shown::Backend => match backend {
            Some(name) => Some(String::from_str(name)),
            None => Some(String::new()),
        },
        Shown::Realm => Some(String::from_str(realm)),
        Shown::Number(_) => None,
        Shown::SixPlaces(_) => None,
        Shown::Stop(_) => None,
        Shown::Cells(_) => None,
        Shown::Style(_) => None,
    }
}

} // verus!
