//! What a session answers: under each name what was last written to it.
use crate::cvars::knobs::{
    apply_to_knobs, ClutterDensity, DisplayMode, Knobs, Limits, Reading, CameraOptions, DamageTextGates, DisplayConfig, FollowConfig, InterfaceConfig, InteriorConfig, LightGains, LookConfig, NameConfig, SceneConfig, ShadowConfig, SoundConfig, ViewConfig,
};
use crate::cvars::row_laws::{
    camera_opts_setting, damage_text_setting, display_setting, follow_setting, gains_setting,
    interface_setting, interior_setting, look_setting, names_setting, scene_setting,
    shadow_setting, sound_setting, view_setting,
};
use crate::cvars::session::{
    camera_answers, chat_answers, combat_answers, interior_answers, look_answers,
    minimap_and_shadow_answers, mixer_answers, session_answers, session_rows, spell, video_caps,
    window_answers, CombatRanges, SessionRow, Shown, VideoCaps,
};
use crate::cvars::write_laws::{
    a_camera_write_moves_its_own_option,
    a_damage_text_write_moves_its_own_switch,
    a_display_write_moves_its_own_setting,
    a_follow_write_moves_its_own_setting,
    a_gain_write_moves_its_own_gain,
    a_look_write_moves_its_own_setting,
    a_mixer_write_moves_its_own_channel,
    a_name_write_moves_its_own_switch,
    a_scene_write_moves_its_own_setting,
    a_shadow_write_moves_its_own_setting,
    a_view_write_moves_its_own_setting,
    an_interface_write_moves_its_own_setting,
    an_interior_write_moves_its_own_setting,
    sound_moved,
    view_moved,
    look_moved,
    follow_moved,
    damage_text_moved,
    names_moved,
    camera_opts_moved,
    interface_moved,
    scene_moved,
    shadow_moved,
    interior_moved,
    gains_moved,
    display_moved, counted, held_between, integer_of, number_held, sized, switched, taken_within,
};
use crate::single::Single;
use crate::text::{decimal_digits, lower, signed_digits};
use vstd::prelude::*;

verus! {

/// The answers of one part of the session's table.
spec fn part(k: Knobs, ranges: CombatRanges, death_log_range: &'static str, p: int) -> Seq<SessionRow> {
    if p == 0 {
        mixer_answers(k)
    } else if p == 1 {
        look_answers(k)
    } else if p == 2 {
        camera_answers(k)
    } else if p == 3 {
        chat_answers(k)
    } else if p == 4 {
        minimap_and_shadow_answers(k)
    } else if p == 5 {
        interior_answers(k)
    } else if p == 6 {
        window_answers(k, ranges)
    } else {
        combat_answers(k, ranges, death_log_range)
    }
}

proof fn lemma_answer(k: Knobs, ranges: CombatRanges, death_log_range: &'static str, p: int, j: int)
    requires
        0 <= p < 8,
        0 <= j < part(k, ranges, death_log_range, p).len(),
    ensures
        session_answers(k, ranges, death_log_range)[15 * p + j] == part(k, ranges, death_log_range, p)[j],
{
}

proof fn lemma_sound_rows(k: Knobs, ranges: CombatRanges, death_log_range: &'static str, r: Seq<SessionRow>)
    requires
        r == session_answers(k, ranges, death_log_range),
    ensures
        r[0] == (SessionRow { name: "MasterVolume", shown: Shown::Number(k.sound.master) }),
        r[1] == (SessionRow { name: "SoundVolume", shown: Shown::Number(k.sound.sfx) }),
        r[2] == (SessionRow { name: "MusicVolume", shown: Shown::Number(k.sound.music) }),
        r[3] == (SessionRow { name: "AmbienceVolume", shown: Shown::Number(k.sound.ambience) }),
        r[4] == (SessionRow { name: "MasterSoundEffects", shown: Shown::Flag(k.sound.enabled) }),
        r[5] == (SessionRow { name: "EnableMusic", shown: Shown::Flag(k.sound.music_enabled) }),
        r[6] == (SessionRow { name: "EnableAmbience", shown: Shown::Flag(k.sound.ambience_enabled) }),
        r[7] == (SessionRow { name: "EnableErrorSpeech", shown: Shown::Flag(k.sound.error_speech) }),
        r[8] == (SessionRow { name: "Sound_EnableSoundWhenGameIsInBG", shown: Shown::Flag(k.sound.background_sound) }),
        r[9] == (SessionRow { name: "SoundReverb", shown: Shown::Flag(k.sound.reverb) }),
        r[10] == (SessionRow { name: "SoundOutputLimiter", shown: Shown::Flag(k.sound.limiter) }),
        r[11] == (SessionRow { name: "SoundListenerAtCharacter", shown: Shown::Flag(k.sound.listener_at_character) }),
        r[12] == (SessionRow { name: "EmoteSounds", shown: Shown::Flag(k.sound.emote_sounds) }),
        r[13] == (SessionRow { name: "SoundZoneMusicNoDelay", shown: Shown::Flag(k.sound.zone_music_no_delay) }),
{
    lemma_answer(k, ranges, death_log_range, 0, 0);
    lemma_answer(k, ranges, death_log_range, 0, 1);
    lemma_answer(k, ranges, death_log_range, 0, 2);
    lemma_answer(k, ranges, death_log_range, 0, 3);
    lemma_answer(k, ranges, death_log_range, 0, 4);
    lemma_answer(k, ranges, death_log_range, 0, 5);
    lemma_answer(k, ranges, death_log_range, 0, 6);
    lemma_answer(k, ranges, death_log_range, 0, 7);
    lemma_answer(k, ranges, death_log_range, 0, 8);
    lemma_answer(k, ranges, death_log_range, 0, 9);
    lemma_answer(k, ranges, death_log_range, 0, 10);
    lemma_answer(k, ranges, death_log_range, 0, 11);
    lemma_answer(k, ranges, death_log_range, 0, 12);
    lemma_answer(k, ranges, death_log_range, 0, 13);
}

proof fn lemma_sound_read(key: Seq<char>, v: Single, before: SoundConfig, k: Knobs, r: Seq<SessionRow>)
    requires
        sound_moved(key, v, before, k.sound),
        r[0] == (SessionRow { name: "MasterVolume", shown: Shown::Number(k.sound.master) }),
        r[1] == (SessionRow { name: "SoundVolume", shown: Shown::Number(k.sound.sfx) }),
        r[2] == (SessionRow { name: "MusicVolume", shown: Shown::Number(k.sound.music) }),
        r[3] == (SessionRow { name: "AmbienceVolume", shown: Shown::Number(k.sound.ambience) }),
        r[4] == (SessionRow { name: "MasterSoundEffects", shown: Shown::Flag(k.sound.enabled) }),
        r[5] == (SessionRow { name: "EnableMusic", shown: Shown::Flag(k.sound.music_enabled) }),
        r[6] == (SessionRow { name: "EnableAmbience", shown: Shown::Flag(k.sound.ambience_enabled) }),
        r[7] == (SessionRow { name: "EnableErrorSpeech", shown: Shown::Flag(k.sound.error_speech) }),
        r[8] == (SessionRow { name: "Sound_EnableSoundWhenGameIsInBG", shown: Shown::Flag(k.sound.background_sound) }),
        r[9] == (SessionRow { name: "SoundReverb", shown: Shown::Flag(k.sound.reverb) }),
        r[10] == (SessionRow { name: "SoundOutputLimiter", shown: Shown::Flag(k.sound.limiter) }),
        r[11] == (SessionRow { name: "SoundListenerAtCharacter", shown: Shown::Flag(k.sound.listener_at_character) }),
        r[12] == (SessionRow { name: "EmoteSounds", shown: Shown::Flag(k.sound.emote_sounds) }),
        r[13] == (SessionRow { name: "SoundZoneMusicNoDelay", shown: Shown::Flag(k.sound.zone_music_no_delay) }),
    ensures
        key == "mastervolume"@ ==> (r[0].shown matches Shown::Number(x) && number_held(v, 0x0000_0000, 0x3F80_0000, x)),
        r[0].name@ == "MasterVolume"@,
        key == "soundvolume"@ ==> (r[1].shown matches Shown::Number(x) && number_held(v, 0x0000_0000, 0x3F80_0000, x)),
        r[1].name@ == "SoundVolume"@,
        key == "musicvolume"@ ==> (r[2].shown matches Shown::Number(x) && number_held(v, 0x0000_0000, 0x3F80_0000, x)),
        r[2].name@ == "MusicVolume"@,
        key == "ambiencevolume"@ ==> (r[3].shown matches Shown::Number(x) && number_held(v, 0x0000_0000, 0x3F80_0000, x)),
        r[3].name@ == "AmbienceVolume"@,
        key == "mastersoundeffects"@ ==> (r[4].shown matches Shown::Flag(on) && switched(v, on)),
        r[4].name@ == "MasterSoundEffects"@,
        key == "enablemusic"@ ==> (r[5].shown matches Shown::Flag(on) && switched(v, on)),
        r[5].name@ == "EnableMusic"@,
        key == "enableambience"@ ==> (r[6].shown matches Shown::Flag(on) && switched(v, on)),
        r[6].name@ == "EnableAmbience"@,
        key == "enableerrorspeech"@ ==> (r[7].shown matches Shown::Flag(on) && switched(v, on)),
        r[7].name@ == "EnableErrorSpeech"@,
        key == "sound_enablesoundwhengameisinbg"@ ==> (r[8].shown matches Shown::Flag(on) && switched(v, on)),
        r[8].name@ == "Sound_EnableSoundWhenGameIsInBG"@,
        key == "soundreverb"@ ==> (r[9].shown matches Shown::Flag(on) && switched(v, on)),
        r[9].name@ == "SoundReverb"@,
        key == "soundoutputlimiter"@ ==> (r[10].shown matches Shown::Flag(on) && switched(v, on)),
        r[10].name@ == "SoundOutputLimiter"@,
        key == "soundlisteneratcharacter"@ ==> (r[11].shown matches Shown::Flag(on) && switched(v, on)),
        r[11].name@ == "SoundListenerAtCharacter"@,
        key == "emotesounds"@ ==> (r[12].shown matches Shown::Flag(on) && switched(v, on)),
        r[12].name@ == "EmoteSounds"@,
        key == "soundzonemusicnodelay"@ ==> (r[13].shown matches Shown::Flag(on) && switched(v, on)),
        r[13].name@ == "SoundZoneMusicNoDelay"@,
{
}

/// What is written to the mixer is what the session answers for it.
pub proof fn a_mixer_write_is_read_back(
    name: &str,
    reading: &Reading,
    limits: &Limits,
    knobs: &mut Knobs,
    realmlist: &mut String,
    taken: bool,
    v: Single,
    ranges: &CombatRanges,
    death_log_range: &'static str,
    r: Vec<SessionRow>,
)
    requires
        call_ensures(apply_to_knobs, (name, reading, limits, knobs, realmlist), taken),
        reading.number == Some(v),
        sound_setting(lower(name@)),
        call_ensures(session_rows, (&*final(knobs), ranges, death_log_range), r),
    ensures
        lower(name@) == "mastervolume"@ ==> (r@[0].shown matches Shown::Number(x) && number_held(v, 0x0000_0000, 0x3F80_0000, x)),
        r@[0].name@ == "MasterVolume"@,
        lower(name@) == "soundvolume"@ ==> (r@[1].shown matches Shown::Number(x) && number_held(v, 0x0000_0000, 0x3F80_0000, x)),
        r@[1].name@ == "SoundVolume"@,
        lower(name@) == "musicvolume"@ ==> (r@[2].shown matches Shown::Number(x) && number_held(v, 0x0000_0000, 0x3F80_0000, x)),
        r@[2].name@ == "MusicVolume"@,
        lower(name@) == "ambiencevolume"@ ==> (r@[3].shown matches Shown::Number(x) && number_held(v, 0x0000_0000, 0x3F80_0000, x)),
        r@[3].name@ == "AmbienceVolume"@,
        lower(name@) == "mastersoundeffects"@ ==> (r@[4].shown matches Shown::Flag(on) && switched(v, on)),
        r@[4].name@ == "MasterSoundEffects"@,
        lower(name@) == "enablemusic"@ ==> (r@[5].shown matches Shown::Flag(on) && switched(v, on)),
        r@[5].name@ == "EnableMusic"@,
        lower(name@) == "enableambience"@ ==> (r@[6].shown matches Shown::Flag(on) && switched(v, on)),
        r@[6].name@ == "EnableAmbience"@,
        lower(name@) == "enableerrorspeech"@ ==> (r@[7].shown matches Shown::Flag(on) && switched(v, on)),
        r@[7].name@ == "EnableErrorSpeech"@,
        lower(name@) == "sound_enablesoundwhengameisinbg"@ ==> (r@[8].shown matches Shown::Flag(on) && switched(v, on)),
        r@[8].name@ == "Sound_EnableSoundWhenGameIsInBG"@,
        lower(name@) == "soundreverb"@ ==> (r@[9].shown matches Shown::Flag(on) && switched(v, on)),
        r@[9].name@ == "SoundReverb"@,
        lower(name@) == "soundoutputlimiter"@ ==> (r@[10].shown matches Shown::Flag(on) && switched(v, on)),
        r@[10].name@ == "SoundOutputLimiter"@,
        lower(name@) == "soundlisteneratcharacter"@ ==> (r@[11].shown matches Shown::Flag(on) && switched(v, on)),
        r@[11].name@ == "SoundListenerAtCharacter"@,
        lower(name@) == "emotesounds"@ ==> (r@[12].shown matches Shown::Flag(on) && switched(v, on)),
        r@[12].name@ == "EmoteSounds"@,
        lower(name@) == "soundzonemusicnodelay"@ ==> (r@[13].shown matches Shown::Flag(on) && switched(v, on)),
        r@[13].name@ == "SoundZoneMusicNoDelay"@,
{
    a_mixer_write_moves_its_own_channel(name, reading, limits, knobs, realmlist, taken, v);
    let k = *final(knobs);
    lemma_sound_rows(k, *ranges, death_log_range, r@);
    lemma_sound_read(lower(name@), v, old(knobs).sound, k, r@);
}

proof fn lemma_view_rows(k: Knobs, ranges: CombatRanges, death_log_range: &'static str, r: Seq<SessionRow>)
    requires
        r == session_answers(k, ranges, death_log_range),
    ensures
        r[14] == (SessionRow { name: "uiScale", shown: Shown::Number(k.view.ui_scale) }),
        r[15] == (SessionRow { name: "farclip", shown: Shown::Number(k.view.farclip) }),
        r[16] == (SessionRow { name: "nearclip", shown: Shown::Number(k.view.nearclip) }),
        r[17] == (SessionRow { name: "deselectOnClick", shown: Shown::Flag(k.view.deselect_on_click) }),
        r[18] == (SessionRow { name: "autoSelfCast", shown: Shown::Flag(k.view.auto_self_cast) }),
        r[19] == (SessionRow { name: "assistAttack", shown: Shown::Flag(k.view.assist_attack) }),
{
    lemma_answer(k, ranges, death_log_range, 0, 14);
    lemma_answer(k, ranges, death_log_range, 1, 0);
    lemma_answer(k, ranges, death_log_range, 1, 1);
    lemma_answer(k, ranges, death_log_range, 1, 2);
    lemma_answer(k, ranges, death_log_range, 1, 3);
    lemma_answer(k, ranges, death_log_range, 1, 4);
}

proof fn lemma_view_read(key: Seq<char>, v: Single, limits: Limits, before: ViewConfig, k: Knobs, r: Seq<SessionRow>)
    requires
        view_moved(key, v, limits, before, k.view),
        r[14] == (SessionRow { name: "uiScale", shown: Shown::Number(k.view.ui_scale) }),
        r[15] == (SessionRow { name: "farclip", shown: Shown::Number(k.view.farclip) }),
        r[16] == (SessionRow { name: "nearclip", shown: Shown::Number(k.view.nearclip) }),
        r[17] == (SessionRow { name: "deselectOnClick", shown: Shown::Flag(k.view.deselect_on_click) }),
        r[18] == (SessionRow { name: "autoSelfCast", shown: Shown::Flag(k.view.auto_self_cast) }),
        r[19] == (SessionRow { name: "assistAttack", shown: Shown::Flag(k.view.assist_attack) }),
    ensures
        key == "uiscale"@ ==> (r[14].shown matches Shown::Number(x) && number_held(v, 0x3F00_0000, 0x3FC0_0000, x)),
        r[14].name@ == "uiScale"@,
        key == "farclip"@ ==> (r[15].shown matches Shown::Number(x) && held_between(v, limits.farclip.0, limits.farclip.1, x)),
        r[15].name@ == "farclip"@,
        key == "nearclip"@ ==> (r[16].shown matches Shown::Number(x) && number_held(v, 0x3C23_D70A, 0x3EA8_F5C3, x)),
        r[16].name@ == "nearclip"@,
        key == "deselectonclick"@ ==> (r[17].shown matches Shown::Flag(on) && switched(v, on)),
        r[17].name@ == "deselectOnClick"@,
        key == "autoselfcast"@ ==> (r[18].shown matches Shown::Flag(on) && switched(v, on)),
        r[18].name@ == "autoSelfCast"@,
        key == "assistattack"@ ==> (r[19].shown matches Shown::Flag(on) && switched(v, on)),
        r[19].name@ == "assistAttack"@,
{
}

/// What is written to a setting of the view is what the session answers for it.
pub proof fn a_view_write_is_read_back(
    name: &str,
    reading: &Reading,
    limits: &Limits,
    knobs: &mut Knobs,
    realmlist: &mut String,
    taken: bool,
    v: Single,
    ranges: &CombatRanges,
    death_log_range: &'static str,
    r: Vec<SessionRow>,
)
    requires
        call_ensures(apply_to_knobs, (name, reading, limits, knobs, realmlist), taken),
        reading.number == Some(v),
        view_setting(lower(name@)),
        limits.wf(),
        call_ensures(session_rows, (&*final(knobs), ranges, death_log_range), r),
    ensures
        lower(name@) == "uiscale"@ ==> (r@[14].shown matches Shown::Number(x) && number_held(v, 0x3F00_0000, 0x3FC0_0000, x)),
        r@[14].name@ == "uiScale"@,
        lower(name@) == "farclip"@ ==> (r@[15].shown matches Shown::Number(x) && held_between(v, limits.farclip.0, limits.farclip.1, x)),
        r@[15].name@ == "farclip"@,
        lower(name@) == "nearclip"@ ==> (r@[16].shown matches Shown::Number(x) && number_held(v, 0x3C23_D70A, 0x3EA8_F5C3, x)),
        r@[16].name@ == "nearclip"@,
        lower(name@) == "deselectonclick"@ ==> (r@[17].shown matches Shown::Flag(on) && switched(v, on)),
        r@[17].name@ == "deselectOnClick"@,
        lower(name@) == "autoselfcast"@ ==> (r@[18].shown matches Shown::Flag(on) && switched(v, on)),
        r@[18].name@ == "autoSelfCast"@,
        lower(name@) == "assistattack"@ ==> (r@[19].shown matches Shown::Flag(on) && switched(v, on)),
        r@[19].name@ == "assistAttack"@,
{
    a_view_write_moves_its_own_setting(name, reading, limits, knobs, realmlist, taken, v);
    let k = *final(knobs);
    lemma_view_rows(k, *ranges, death_log_range, r@);
    lemma_view_read(lower(name@), v, *limits, old(knobs).view, k, r@);
}

proof fn lemma_look_rows(k: Knobs, ranges: CombatRanges, death_log_range: &'static str, r: Seq<SessionRow>)
    requires
        r == session_answers(k, ranges, death_log_range),
    ensures
        r[20] == (SessionRow { name: "mouseInvertPitch", shown: Shown::Flag(k.look.invert_pitch) }),
        r[21] == (SessionRow { name: "mousespeed", shown: Shown::Number(k.look.sensitivity) }),
        r[22] == (SessionRow { name: "cameraYawMoveSpeed", shown: Shown::Number(k.look.yaw_speed) }),
        r[23] == (SessionRow { name: "cameraPitchMoveSpeed", shown: Shown::Number(k.look.pitch_speed) }),
{
    lemma_answer(k, ranges, death_log_range, 1, 5);
    lemma_answer(k, ranges, death_log_range, 1, 6);
    lemma_answer(k, ranges, death_log_range, 1, 7);
    lemma_answer(k, ranges, death_log_range, 1, 8);
}

proof fn lemma_look_read(key: Seq<char>, v: Single, before: LookConfig, k: Knobs, r: Seq<SessionRow>)
    requires
        look_moved(key, v, before, k.look),
        r[20] == (SessionRow { name: "mouseInvertPitch", shown: Shown::Flag(k.look.invert_pitch) }),
        r[21] == (SessionRow { name: "mousespeed", shown: Shown::Number(k.look.sensitivity) }),
        r[22] == (SessionRow { name: "cameraYawMoveSpeed", shown: Shown::Number(k.look.yaw_speed) }),
        r[23] == (SessionRow { name: "cameraPitchMoveSpeed", shown: Shown::Number(k.look.pitch_speed) }),
    ensures
        key == "mouseinvertpitch"@ ==> (r[20].shown matches Shown::Flag(on) && switched(v, on)),
        r[20].name@ == "mouseInvertPitch"@,
        key == "mousespeed"@ ==> (r[21].shown matches Shown::Number(x) && number_held(v, 0x3F00_0000, 0x3FC0_0000, x)),
        r[21].name@ == "mousespeed"@,
        key == "camerayawmovespeed"@ ==> (r[22].shown matches Shown::Number(x) && taken_within(v, 0x3DCC_CCCD, 0x43B4_0000, before.yaw_speed, x)),
        r[22].name@ == "cameraYawMoveSpeed"@,
        key == "camerapitchmovespeed"@ ==> (r[23].shown matches Shown::Number(x) && taken_within(v, 0x3DCC_CCCD, 0x43B4_0000, before.pitch_speed, x)),
        r[23].name@ == "cameraPitchMoveSpeed"@,
{
}

/// What is written to a setting of looking round is what the session answers for it.
pub proof fn a_look_write_is_read_back(
    name: &str,
    reading: &Reading,
    limits: &Limits,
    knobs: &mut Knobs,
    realmlist: &mut String,
    taken: bool,
    v: Single,
    ranges: &CombatRanges,
    death_log_range: &'static str,
    r: Vec<SessionRow>,
)
    requires
        call_ensures(apply_to_knobs, (name, reading, limits, knobs, realmlist), taken),
        reading.number == Some(v),
        look_setting(lower(name@)),
        !reading.view_setting,
        call_ensures(session_rows, (&*final(knobs), ranges, death_log_range), r),
    ensures
        lower(name@) == "mouseinvertpitch"@ ==> (r@[20].shown matches Shown::Flag(on) && switched(v, on)),
        r@[20].name@ == "mouseInvertPitch"@,
        lower(name@) == "mousespeed"@ ==> (r@[21].shown matches Shown::Number(x) && number_held(v, 0x3F00_0000, 0x3FC0_0000, x)),
        r@[21].name@ == "mousespeed"@,
        lower(name@) == "camerayawmovespeed"@ ==> (r@[22].shown matches Shown::Number(x) && taken_within(v, 0x3DCC_CCCD, 0x43B4_0000, old(knobs).look.yaw_speed, x)),
        r@[22].name@ == "cameraYawMoveSpeed"@,
        lower(name@) == "camerapitchmovespeed"@ ==> (r@[23].shown matches Shown::Number(x) && taken_within(v, 0x3DCC_CCCD, 0x43B4_0000, old(knobs).look.pitch_speed, x)),
        r@[23].name@ == "cameraPitchMoveSpeed"@,
{
    a_look_write_moves_its_own_setting(name, reading, limits, knobs, realmlist, taken, v);
    let k = *final(knobs);
    lemma_look_rows(k, *ranges, death_log_range, r@);
    lemma_look_read(lower(name@), v, old(knobs).look, k, r@);
}

proof fn lemma_follow_rows(k: Knobs, ranges: CombatRanges, death_log_range: &'static str, r: Seq<SessionRow>)
    requires
        r == session_answers(k, ranges, death_log_range),
    ensures
        r[24] == (SessionRow { name: "cameraDistanceMaxFactor", shown: Shown::Number(k.follow.distance_factor) }),
        r[25] == (SessionRow { name: "cameraSmoothStyle", shown: Shown::Style(k.follow.style) }),
        r[26] == (SessionRow { name: "cameraSmoothTrackingStyle", shown: Shown::Style(k.follow.tracking_style) }),
        r[27] == (SessionRow { name: "cameraYawSmoothSpeed", shown: Shown::Number(k.follow.yaw_speed) }),
{
    lemma_answer(k, ranges, death_log_range, 1, 9);
    lemma_answer(k, ranges, death_log_range, 1, 10);
    lemma_answer(k, ranges, death_log_range, 1, 11);
    lemma_answer(k, ranges, death_log_range, 1, 12);
}

proof fn lemma_follow_read(key: Seq<char>, v: Single, reading: Reading, before: FollowConfig, k: Knobs, r: Seq<SessionRow>)
    requires
        follow_moved(key, v, reading, before, k.follow),
        r[24] == (SessionRow { name: "cameraDistanceMaxFactor", shown: Shown::Number(k.follow.distance_factor) }),
        r[25] == (SessionRow { name: "cameraSmoothStyle", shown: Shown::Style(k.follow.style) }),
        r[26] == (SessionRow { name: "cameraSmoothTrackingStyle", shown: Shown::Style(k.follow.tracking_style) }),
        r[27] == (SessionRow { name: "cameraYawSmoothSpeed", shown: Shown::Number(k.follow.yaw_speed) }),
    ensures
        key == "cameradistancemaxfactor"@ ==> (r[24].shown matches Shown::Number(x) && number_held(v, 0x3F80_0000, 0x4000_0000, x)),
        r[24].name@ == "cameraDistanceMaxFactor"@,
        key == "camerasmoothstyle"@ ==> (r[25].shown matches Shown::Style(s) && s == reading.style),
        r[25].name@ == "cameraSmoothStyle"@,
        key == "camerasmoothtrackingstyle"@ ==> (r[26].shown matches Shown::Style(s) && s == reading.style),
        r[26].name@ == "cameraSmoothTrackingStyle"@,
        key == "camerayawsmoothspeed"@ ==> (r[27].shown matches Shown::Number(x) && number_held(v, 0x42B4_0000, 0x4387_0000, x)),
        r[27].name@ == "cameraYawSmoothSpeed"@,
{
}

/// What is written to a setting of the following camera is what the session answers for it.
pub proof fn a_follow_write_is_read_back(
    name: &str,
    reading: &Reading,
    limits: &Limits,
    knobs: &mut Knobs,
    realmlist: &mut String,
    taken: bool,
    v: Single,
    ranges: &CombatRanges,
    death_log_range: &'static str,
    r: Vec<SessionRow>,
)
    requires
        call_ensures(apply_to_knobs, (name, reading, limits, knobs, realmlist), taken),
        reading.number == Some(v),
        follow_setting(lower(name@)),
        !reading.view_setting,
        call_ensures(session_rows, (&*final(knobs), ranges, death_log_range), r),
    ensures
        lower(name@) == "cameradistancemaxfactor"@ ==> (r@[24].shown matches Shown::Number(x) && number_held(v, 0x3F80_0000, 0x4000_0000, x)),
        r@[24].name@ == "cameraDistanceMaxFactor"@,
        lower(name@) == "camerasmoothstyle"@ ==> (r@[25].shown matches Shown::Style(s) && s == reading.style),
        r@[25].name@ == "cameraSmoothStyle"@,
        lower(name@) == "camerasmoothtrackingstyle"@ ==> (r@[26].shown matches Shown::Style(s) && s == reading.style),
        r@[26].name@ == "cameraSmoothTrackingStyle"@,
        lower(name@) == "camerayawsmoothspeed"@ ==> (r@[27].shown matches Shown::Number(x) && number_held(v, 0x42B4_0000, 0x4387_0000, x)),
        r@[27].name@ == "cameraYawSmoothSpeed"@,
{
    a_follow_write_moves_its_own_setting(name, reading, limits, knobs, realmlist, taken, v);
    let k = *final(knobs);
    lemma_follow_rows(k, *ranges, death_log_range, r@);
    lemma_follow_read(lower(name@), v, *reading, old(knobs).follow, k, r@);
}

proof fn lemma_damage_text_rows(k: Knobs, ranges: CombatRanges, death_log_range: &'static str, r: Seq<SessionRow>)
    requires
        r == session_answers(k, ranges, death_log_range),
    ensures
        r[112] == (SessionRow { name: "CombatDamage", shown: Shown::Flag(k.damage_text.combat_damage) }),
        r[113] == (SessionRow { name: "PetMeleeDamage", shown: Shown::Flag(k.damage_text.pet_melee) }),
        r[114] == (SessionRow { name: "PetSpellDamage", shown: Shown::Flag(k.damage_text.pet_spell) }),
        r[115] == (SessionRow { name: "CombatLogPeriodicSpells", shown: Shown::Flag(k.damage_text.log_periodic) }),
{
    lemma_answer(k, ranges, death_log_range, 7, 7);
    lemma_answer(k, ranges, death_log_range, 7, 8);
    lemma_answer(k, ranges, death_log_range, 7, 9);
    lemma_answer(k, ranges, death_log_range, 7, 10);
}

proof fn lemma_damage_text_read(key: Seq<char>, v: Single, before: DamageTextGates, k: Knobs, r: Seq<SessionRow>)
    requires
        damage_text_moved(key, v, before, k.damage_text),
        r[112] == (SessionRow { name: "CombatDamage", shown: Shown::Flag(k.damage_text.combat_damage) }),
        r[113] == (SessionRow { name: "PetMeleeDamage", shown: Shown::Flag(k.damage_text.pet_melee) }),
        r[114] == (SessionRow { name: "PetSpellDamage", shown: Shown::Flag(k.damage_text.pet_spell) }),
        r[115] == (SessionRow { name: "CombatLogPeriodicSpells", shown: Shown::Flag(k.damage_text.log_periodic) }),
    ensures
        key == "combatdamage"@ ==> (r[112].shown matches Shown::Flag(on) && switched(v, on)),
        r[112].name@ == "CombatDamage"@,
        key == "petmeleedamage"@ ==> (r[113].shown matches Shown::Flag(on) && switched(v, on)),
        r[113].name@ == "PetMeleeDamage"@,
        key == "petspelldamage"@ ==> (r[114].shown matches Shown::Flag(on) && switched(v, on)),
        r[114].name@ == "PetSpellDamage"@,
        key == "combatlogperiodicspells"@ ==> (r[115].shown matches Shown::Flag(on) && switched(v, on)),
        r[115].name@ == "CombatLogPeriodicSpells"@,
{
}

/// What is written to a switch of the damage texts is what the session answers for it.
pub proof fn a_damage_text_write_is_read_back(
    name: &str,
    reading: &Reading,
    limits: &Limits,
    knobs: &mut Knobs,
    realmlist: &mut String,
    taken: bool,
    v: Single,
    ranges: &CombatRanges,
    death_log_range: &'static str,
    r: Vec<SessionRow>,
)
    requires
        call_ensures(apply_to_knobs, (name, reading, limits, knobs, realmlist), taken),
        reading.number == Some(v),
        damage_text_setting(lower(name@)),
        !reading.view_setting,
        call_ensures(session_rows, (&*final(knobs), ranges, death_log_range), r),
    ensures
        lower(name@) == "combatdamage"@ ==> (r@[112].shown matches Shown::Flag(on) && switched(v, on)),
        r@[112].name@ == "CombatDamage"@,
        lower(name@) == "petmeleedamage"@ ==> (r@[113].shown matches Shown::Flag(on) && switched(v, on)),
        r@[113].name@ == "PetMeleeDamage"@,
        lower(name@) == "petspelldamage"@ ==> (r@[114].shown matches Shown::Flag(on) && switched(v, on)),
        r@[114].name@ == "PetSpellDamage"@,
        lower(name@) == "combatlogperiodicspells"@ ==> (r@[115].shown matches Shown::Flag(on) && switched(v, on)),
        r@[115].name@ == "CombatLogPeriodicSpells"@,
{
    a_damage_text_write_moves_its_own_switch(name, reading, limits, knobs, realmlist, taken, v);
    let k = *final(knobs);
    lemma_damage_text_rows(k, *ranges, death_log_range, r@);
    lemma_damage_text_read(lower(name@), v, old(knobs).damage_text, k, r@);
}

proof fn lemma_names_rows(k: Knobs, ranges: CombatRanges, death_log_range: &'static str, r: Seq<SessionRow>)
    requires
        r == session_answers(k, ranges, death_log_range),
    ensures
        r[42] == (SessionRow { name: "autoLootDefault", shown: Shown::Flag(k.names.auto_loot) }),
        r[46] == (SessionRow { name: "UnitNamePlayer", shown: Shown::Flag(k.names.player) }),
        r[47] == (SessionRow { name: "UnitNameNPC", shown: Shown::Flag(k.names.npc) }),
        r[48] == (SessionRow { name: "UnitNameOwn", shown: Shown::Flag(k.names.own) }),
        r[49] == (SessionRow { name: "UnitNamePlayerGuild", shown: Shown::Flag(k.names.player_guild) }),
        r[50] == (SessionRow { name: "nameplateShowEnemies", shown: Shown::Flag(k.names.enemy_plates) }),
        r[51] == (SessionRow { name: "nameplateShowFriends", shown: Shown::Flag(k.names.friend_plates) }),
        r[43] == (SessionRow { name: "showLootSpam", shown: Shown::Flag(k.names.show_loot_spam) }),
{
    lemma_answer(k, ranges, death_log_range, 2, 12);
    lemma_answer(k, ranges, death_log_range, 3, 1);
    lemma_answer(k, ranges, death_log_range, 3, 2);
    lemma_answer(k, ranges, death_log_range, 3, 3);
    lemma_answer(k, ranges, death_log_range, 3, 4);
    lemma_answer(k, ranges, death_log_range, 3, 5);
    lemma_answer(k, ranges, death_log_range, 3, 6);
    lemma_answer(k, ranges, death_log_range, 2, 13);
}

proof fn lemma_names_read(key: Seq<char>, v: Single, before: NameConfig, k: Knobs, r: Seq<SessionRow>)
    requires
        names_moved(key, v, before, k.names),
        r[42] == (SessionRow { name: "autoLootDefault", shown: Shown::Flag(k.names.auto_loot) }),
        r[46] == (SessionRow { name: "UnitNamePlayer", shown: Shown::Flag(k.names.player) }),
        r[47] == (SessionRow { name: "UnitNameNPC", shown: Shown::Flag(k.names.npc) }),
        r[48] == (SessionRow { name: "UnitNameOwn", shown: Shown::Flag(k.names.own) }),
        r[49] == (SessionRow { name: "UnitNamePlayerGuild", shown: Shown::Flag(k.names.player_guild) }),
        r[50] == (SessionRow { name: "nameplateShowEnemies", shown: Shown::Flag(k.names.enemy_plates) }),
        r[51] == (SessionRow { name: "nameplateShowFriends", shown: Shown::Flag(k.names.friend_plates) }),
        r[43] == (SessionRow { name: "showLootSpam", shown: Shown::Flag(k.names.show_loot_spam) }),
    ensures
        key == "autolootdefault"@ ==> (r[42].shown matches Shown::Flag(on) && switched(v, on)),
        r[42].name@ == "autoLootDefault"@,
        key == "unitnameplayer"@ ==> (r[46].shown matches Shown::Flag(on) && switched(v, on)),
        r[46].name@ == "UnitNamePlayer"@,
        key == "unitnamenpc"@ ==> (r[47].shown matches Shown::Flag(on) && switched(v, on)),
        r[47].name@ == "UnitNameNPC"@,
        key == "unitnameown"@ ==> (r[48].shown matches Shown::Flag(on) && switched(v, on)),
        r[48].name@ == "UnitNameOwn"@,
        key == "unitnameplayerguild"@ ==> (r[49].shown matches Shown::Flag(on) && switched(v, on)),
        r[49].name@ == "UnitNamePlayerGuild"@,
        key == "nameplateshowenemies"@ ==> (r[50].shown matches Shown::Flag(on) && switched(v, on)),
        r[50].name@ == "nameplateShowEnemies"@,
        key == "nameplateshowfriends"@ ==> (r[51].shown matches Shown::Flag(on) && switched(v, on)),
        r[51].name@ == "nameplateShowFriends"@,
        key == "showlootspam"@ ==> (r[43].shown matches Shown::Flag(on) && switched(v, on)),
        r[43].name@ == "showLootSpam"@,
{
}

/// What is written to a switch of the names is what the session answers for it.
pub proof fn a_name_write_is_read_back(
    name: &str,
    reading: &Reading,
    limits: &Limits,
    knobs: &mut Knobs,
    realmlist: &mut String,
    taken: bool,
    v: Single,
    ranges: &CombatRanges,
    death_log_range: &'static str,
    r: Vec<SessionRow>,
)
    requires
        call_ensures(apply_to_knobs, (name, reading, limits, knobs, realmlist), taken),
        reading.number == Some(v),
        names_setting(lower(name@)),
        !reading.view_setting,
        !reading.combat_range,
        call_ensures(session_rows, (&*final(knobs), ranges, death_log_range), r),
    ensures
        lower(name@) == "autolootdefault"@ ==> (r@[42].shown matches Shown::Flag(on) && switched(v, on)),
        r@[42].name@ == "autoLootDefault"@,
        lower(name@) == "unitnameplayer"@ ==> (r@[46].shown matches Shown::Flag(on) && switched(v, on)),
        r@[46].name@ == "UnitNamePlayer"@,
        lower(name@) == "unitnamenpc"@ ==> (r@[47].shown matches Shown::Flag(on) && switched(v, on)),
        r@[47].name@ == "UnitNameNPC"@,
        lower(name@) == "unitnameown"@ ==> (r@[48].shown matches Shown::Flag(on) && switched(v, on)),
        r@[48].name@ == "UnitNameOwn"@,
        lower(name@) == "unitnameplayerguild"@ ==> (r@[49].shown matches Shown::Flag(on) && switched(v, on)),
        r@[49].name@ == "UnitNamePlayerGuild"@,
        lower(name@) == "nameplateshowenemies"@ ==> (r@[50].shown matches Shown::Flag(on) && switched(v, on)),
        r@[50].name@ == "nameplateShowEnemies"@,
        lower(name@) == "nameplateshowfriends"@ ==> (r@[51].shown matches Shown::Flag(on) && switched(v, on)),
        r@[51].name@ == "nameplateShowFriends"@,
        lower(name@) == "showlootspam"@ ==> (r@[43].shown matches Shown::Flag(on) && switched(v, on)),
        r@[43].name@ == "showLootSpam"@,
{
    a_name_write_moves_its_own_switch(name, reading, limits, knobs, realmlist, taken, v);
    let k = *final(knobs);
    lemma_names_rows(k, *ranges, death_log_range, r@);
    lemma_names_read(lower(name@), v, old(knobs).names, k, r@);
}

proof fn lemma_camera_opts_rows(k: Knobs, ranges: CombatRanges, death_log_range: &'static str, r: Seq<SessionRow>)
    requires
        r == session_answers(k, ranges, death_log_range),
    ensures
        r[28] == (SessionRow { name: "cameraPivot", shown: Shown::Flag(k.camera_opts.pivot) }),
        r[32] == (SessionRow { name: "cameraWaterCollision", shown: Shown::Flag(k.camera_opts.water_collision) }),
        r[29] == (SessionRow { name: "cameraPivotDXMax", shown: Shown::Number(k.camera_opts.pivot_dx_max) }),
        r[30] == (SessionRow { name: "cameraPivotDYMin", shown: Shown::Number(k.camera_opts.pivot_dy_min) }),
        r[31] == (SessionRow { name: "cameraTargetSmoothSpeed", shown: Shown::Number(k.camera_opts.target_smooth_speed) }),
        r[33] == (SessionRow { name: "cameraTerrainTilt", shown: Shown::Flag(k.camera_opts.terrain_tilt) }),
        r[34] == (SessionRow { name: "cameraGroundSmoothSpeed", shown: Shown::Number(k.camera_opts.ground_smooth_speed) }),
        r[35] == (SessionRow { name: "cameraTerrainTiltTimeMin", shown: Shown::Number(k.camera_opts.tilt_time_min) }),
        r[36] == (SessionRow { name: "cameraTerrainTiltTimeMax", shown: Shown::Number(k.camera_opts.tilt_time_max) }),
        r[37] == (SessionRow { name: "cameraBobbing", shown: Shown::Flag(k.camera_opts.bobbing) }),
        r[38] == (SessionRow { name: "cameraBobbingLRAmplitude", shown: Shown::Number(k.camera_opts.bob_lr_amplitude) }),
        r[39] == (SessionRow { name: "cameraBobbingUDAmplitude", shown: Shown::Number(k.camera_opts.bob_ud_amplitude) }),
        r[40] == (SessionRow { name: "cameraBobbingFrequency", shown: Shown::Number(k.camera_opts.bob_frequency) }),
        r[41] == (SessionRow { name: "cameraBobbingSmoothSpeed", shown: Shown::Number(k.camera_opts.bob_smooth_speed) }),
{
    lemma_answer(k, ranges, death_log_range, 1, 13);
    lemma_answer(k, ranges, death_log_range, 2, 2);
    lemma_answer(k, ranges, death_log_range, 1, 14);
    lemma_answer(k, ranges, death_log_range, 2, 0);
    lemma_answer(k, ranges, death_log_range, 2, 1);
    lemma_answer(k, ranges, death_log_range, 2, 3);
    lemma_answer(k, ranges, death_log_range, 2, 4);
    lemma_answer(k, ranges, death_log_range, 2, 5);
    lemma_answer(k, ranges, death_log_range, 2, 6);
    lemma_answer(k, ranges, death_log_range, 2, 7);
    lemma_answer(k, ranges, death_log_range, 2, 8);
    lemma_answer(k, ranges, death_log_range, 2, 9);
    lemma_answer(k, ranges, death_log_range, 2, 10);
    lemma_answer(k, ranges, death_log_range, 2, 11);
}

proof fn lemma_camera_opts_read(key: Seq<char>, v: Single, before: CameraOptions, k: Knobs, r: Seq<SessionRow>)
    requires
        camera_opts_moved(key, v, before, k.camera_opts),
        r[28] == (SessionRow { name: "cameraPivot", shown: Shown::Flag(k.camera_opts.pivot) }),
        r[32] == (SessionRow { name: "cameraWaterCollision", shown: Shown::Flag(k.camera_opts.water_collision) }),
        r[29] == (SessionRow { name: "cameraPivotDXMax", shown: Shown::Number(k.camera_opts.pivot_dx_max) }),
        r[30] == (SessionRow { name: "cameraPivotDYMin", shown: Shown::Number(k.camera_opts.pivot_dy_min) }),
        r[31] == (SessionRow { name: "cameraTargetSmoothSpeed", shown: Shown::Number(k.camera_opts.target_smooth_speed) }),
        r[33] == (SessionRow { name: "cameraTerrainTilt", shown: Shown::Flag(k.camera_opts.terrain_tilt) }),
        r[34] == (SessionRow { name: "cameraGroundSmoothSpeed", shown: Shown::Number(k.camera_opts.ground_smooth_speed) }),
        r[35] == (SessionRow { name: "cameraTerrainTiltTimeMin", shown: Shown::Number(k.camera_opts.tilt_time_min) }),
        r[36] == (SessionRow { name: "cameraTerrainTiltTimeMax", shown: Shown::Number(k.camera_opts.tilt_time_max) }),
        r[37] == (SessionRow { name: "cameraBobbing", shown: Shown::Flag(k.camera_opts.bobbing) }),
        r[38] == (SessionRow { name: "cameraBobbingLRAmplitude", shown: Shown::Number(k.camera_opts.bob_lr_amplitude) }),
        r[39] == (SessionRow { name: "cameraBobbingUDAmplitude", shown: Shown::Number(k.camera_opts.bob_ud_amplitude) }),
        r[40] == (SessionRow { name: "cameraBobbingFrequency", shown: Shown::Number(k.camera_opts.bob_frequency) }),
        r[41] == (SessionRow { name: "cameraBobbingSmoothSpeed", shown: Shown::Number(k.camera_opts.bob_smooth_speed) }),
    ensures
        key == "camerapivot"@ ==> (r[28].shown matches Shown::Flag(on) && switched(v, on)),
        r[28].name@ == "cameraPivot"@,
        key == "camerawatercollision"@ ==> (r[32].shown matches Shown::Flag(on) && switched(v, on)),
        r[32].name@ == "cameraWaterCollision"@,
        key == "camerapivotdxmax"@ ==> (r[29].shown matches Shown::Number(x) && x == v),
        r[29].name@ == "cameraPivotDXMax"@,
        key == "camerapivotdymin"@ ==> (r[30].shown matches Shown::Number(x) && x == v),
        r[30].name@ == "cameraPivotDYMin"@,
        key == "cameratargetsmoothspeed"@ ==> (r[31].shown matches Shown::Number(x) && x == v),
        r[31].name@ == "cameraTargetSmoothSpeed"@,
        key == "cameraterraintilt"@ ==> (r[33].shown matches Shown::Flag(on) && switched(v, on)),
        r[33].name@ == "cameraTerrainTilt"@,
        key == "cameragroundsmoothspeed"@ ==> (r[34].shown matches Shown::Number(x) && x == v),
        r[34].name@ == "cameraGroundSmoothSpeed"@,
        key == "cameraterraintilttimemin"@ ==> (r[35].shown matches Shown::Number(x) && x == v),
        r[35].name@ == "cameraTerrainTiltTimeMin"@,
        key == "cameraterraintilttimemax"@ ==> (r[36].shown matches Shown::Number(x) && x == v),
        r[36].name@ == "cameraTerrainTiltTimeMax"@,
        key == "camerabobbing"@ ==> (r[37].shown matches Shown::Flag(on) && switched(v, on)),
        r[37].name@ == "cameraBobbing"@,
        key == "camerabobbinglramplitude"@ ==> (r[38].shown matches Shown::Number(x) && x == v),
        r[38].name@ == "cameraBobbingLRAmplitude"@,
        key == "camerabobbingudamplitude"@ ==> (r[39].shown matches Shown::Number(x) && x == v),
        r[39].name@ == "cameraBobbingUDAmplitude"@,
        key == "camerabobbingfrequency"@ ==> (r[40].shown matches Shown::Number(x) && x == v),
        r[40].name@ == "cameraBobbingFrequency"@,
        key == "camerabobbingsmoothspeed"@ ==> (r[41].shown matches Shown::Number(x) && x == v),
        r[41].name@ == "cameraBobbingSmoothSpeed"@,
{
}

/// What is written to a camera option is what the session answers for it.
pub proof fn a_camera_write_is_read_back(
    name: &str,
    reading: &Reading,
    limits: &Limits,
    knobs: &mut Knobs,
    realmlist: &mut String,
    taken: bool,
    v: Single,
    ranges: &CombatRanges,
    death_log_range: &'static str,
    r: Vec<SessionRow>,
)
    requires
        call_ensures(apply_to_knobs, (name, reading, limits, knobs, realmlist), taken),
        reading.number == Some(v),
        camera_opts_setting(lower(name@)),
        !reading.view_setting,
        !reading.combat_range,
        call_ensures(session_rows, (&*final(knobs), ranges, death_log_range), r),
    ensures
        lower(name@) == "camerapivot"@ ==> (r@[28].shown matches Shown::Flag(on) && switched(v, on)),
        r@[28].name@ == "cameraPivot"@,
        lower(name@) == "camerawatercollision"@ ==> (r@[32].shown matches Shown::Flag(on) && switched(v, on)),
        r@[32].name@ == "cameraWaterCollision"@,
        lower(name@) == "camerapivotdxmax"@ ==> (r@[29].shown matches Shown::Number(x) && x == v),
        r@[29].name@ == "cameraPivotDXMax"@,
        lower(name@) == "camerapivotdymin"@ ==> (r@[30].shown matches Shown::Number(x) && x == v),
        r@[30].name@ == "cameraPivotDYMin"@,
        lower(name@) == "cameratargetsmoothspeed"@ ==> (r@[31].shown matches Shown::Number(x) && x == v),
        r@[31].name@ == "cameraTargetSmoothSpeed"@,
        lower(name@) == "cameraterraintilt"@ ==> (r@[33].shown matches Shown::Flag(on) && switched(v, on)),
        r@[33].name@ == "cameraTerrainTilt"@,
        lower(name@) == "cameragroundsmoothspeed"@ ==> (r@[34].shown matches Shown::Number(x) && x == v),
        r@[34].name@ == "cameraGroundSmoothSpeed"@,
        lower(name@) == "cameraterraintilttimemin"@ ==> (r@[35].shown matches Shown::Number(x) && x == v),
        r@[35].name@ == "cameraTerrainTiltTimeMin"@,
        lower(name@) == "cameraterraintilttimemax"@ ==> (r@[36].shown matches Shown::Number(x) && x == v),
        r@[36].name@ == "cameraTerrainTiltTimeMax"@,
        lower(name@) == "camerabobbing"@ ==> (r@[37].shown matches Shown::Flag(on) && switched(v, on)),
        r@[37].name@ == "cameraBobbing"@,
        lower(name@) == "camerabobbinglramplitude"@ ==> (r@[38].shown matches Shown::Number(x) && x == v),
        r@[38].name@ == "cameraBobbingLRAmplitude"@,
        lower(name@) == "camerabobbingudamplitude"@ ==> (r@[39].shown matches Shown::Number(x) && x == v),
        r@[39].name@ == "cameraBobbingUDAmplitude"@,
        lower(name@) == "camerabobbingfrequency"@ ==> (r@[40].shown matches Shown::Number(x) && x == v),
        r@[40].name@ == "cameraBobbingFrequency"@,
        lower(name@) == "camerabobbingsmoothspeed"@ ==> (r@[41].shown matches Shown::Number(x) && x == v),
        r@[41].name@ == "cameraBobbingSmoothSpeed"@,
{
    a_camera_write_moves_its_own_option(name, reading, limits, knobs, realmlist, taken, v);
    let k = *final(knobs);
    lemma_camera_opts_rows(k, *ranges, death_log_range, r@);
    lemma_camera_opts_read(lower(name@), v, old(knobs).camera_opts, k, r@);
}

proof fn lemma_interface_rows(k: Knobs, ranges: CombatRanges, death_log_range: &'static str, r: Seq<SessionRow>)
    requires
        r == session_answers(k, ranges, death_log_range),
    ensures
        r[60] == (SessionRow { name: "showGameTips", shown: Shown::Flag(k.interface.show_tips) }),
        r[61] == (SessionRow { name: "gameTip", shown: Shown::Integer(k.interface.next_tip) }),
        r[58] == (SessionRow { name: "profanityFilter", shown: Shown::Flag(k.interface.profanity) }),
        r[59] == (SessionRow { name: "spamFilter", shown: Shown::Flag(k.interface.spam) }),
        r[56] == (SessionRow { name: "ChatBubbles", shown: Shown::Flag(k.interface.bubbles) }),
        r[57] == (SessionRow { name: "ChatBubblesParty", shown: Shown::Flag(k.interface.party_bubbles) }),
        r[44] == (SessionRow { name: "guildMemberNotify", shown: Shown::Flag(k.interface.guild_notify) }),
        r[45] == (SessionRow { name: "BlockTrades", shown: Shown::Flag(k.interface.block_trades) }),
{
    lemma_answer(k, ranges, death_log_range, 4, 0);
    lemma_answer(k, ranges, death_log_range, 4, 1);
    lemma_answer(k, ranges, death_log_range, 3, 13);
    lemma_answer(k, ranges, death_log_range, 3, 14);
    lemma_answer(k, ranges, death_log_range, 3, 11);
    lemma_answer(k, ranges, death_log_range, 3, 12);
    lemma_answer(k, ranges, death_log_range, 2, 14);
    lemma_answer(k, ranges, death_log_range, 3, 0);
}

proof fn lemma_interface_read(key: Seq<char>, v: Single, before: InterfaceConfig, k: Knobs, r: Seq<SessionRow>)
    requires
        interface_moved(key, v, before, k.interface),
        r[60] == (SessionRow { name: "showGameTips", shown: Shown::Flag(k.interface.show_tips) }),
        r[61] == (SessionRow { name: "gameTip", shown: Shown::Integer(k.interface.next_tip) }),
        r[58] == (SessionRow { name: "profanityFilter", shown: Shown::Flag(k.interface.profanity) }),
        r[59] == (SessionRow { name: "spamFilter", shown: Shown::Flag(k.interface.spam) }),
        r[56] == (SessionRow { name: "ChatBubbles", shown: Shown::Flag(k.interface.bubbles) }),
        r[57] == (SessionRow { name: "ChatBubblesParty", shown: Shown::Flag(k.interface.party_bubbles) }),
        r[44] == (SessionRow { name: "guildMemberNotify", shown: Shown::Flag(k.interface.guild_notify) }),
        r[45] == (SessionRow { name: "BlockTrades", shown: Shown::Flag(k.interface.block_trades) }),
    ensures
        key == "showgametips"@ ==> (r[60].shown matches Shown::Flag(on) && switched(v, on)),
        r[60].name@ == "showGameTips"@,
        key == "gametip"@ ==> (r[61].shown matches Shown::Integer(n) && integer_of(v, n as int)),
        r[61].name@ == "gameTip"@,
        key == "profanityfilter"@ ==> (r[58].shown matches Shown::Flag(on) && switched(v, on)),
        r[58].name@ == "profanityFilter"@,
        key == "spamfilter"@ ==> (r[59].shown matches Shown::Flag(on) && switched(v, on)),
        r[59].name@ == "spamFilter"@,
        key == "chatbubbles"@ ==> (r[56].shown matches Shown::Flag(on) && switched(v, on)),
        r[56].name@ == "ChatBubbles"@,
        key == "chatbubblesparty"@ ==> (r[57].shown matches Shown::Flag(on) && switched(v, on)),
        r[57].name@ == "ChatBubblesParty"@,
        key == "guildmembernotify"@ ==> (r[44].shown matches Shown::Flag(on) && switched(v, on)),
        r[44].name@ == "guildMemberNotify"@,
        key == "blocktrades"@ ==> (r[45].shown matches Shown::Flag(on) && switched(v, on)),
        r[45].name@ == "BlockTrades"@,
{
}

/// What is written to a setting of the interface is what the session answers for it.
pub proof fn an_interface_write_is_read_back(
    name: &str,
    reading: &Reading,
    limits: &Limits,
    knobs: &mut Knobs,
    realmlist: &mut String,
    taken: bool,
    v: Single,
    ranges: &CombatRanges,
    death_log_range: &'static str,
    r: Vec<SessionRow>,
)
    requires
        call_ensures(apply_to_knobs, (name, reading, limits, knobs, realmlist), taken),
        reading.number == Some(v),
        interface_setting(lower(name@)),
        !reading.view_setting,
        !reading.combat_range,
        call_ensures(session_rows, (&*final(knobs), ranges, death_log_range), r),
    ensures
        lower(name@) == "showgametips"@ ==> (r@[60].shown matches Shown::Flag(on) && switched(v, on)),
        r@[60].name@ == "showGameTips"@,
        lower(name@) == "gametip"@ ==> (r@[61].shown matches Shown::Integer(n) && integer_of(v, n as int)),
        r@[61].name@ == "gameTip"@,
        lower(name@) == "profanityfilter"@ ==> (r@[58].shown matches Shown::Flag(on) && switched(v, on)),
        r@[58].name@ == "profanityFilter"@,
        lower(name@) == "spamfilter"@ ==> (r@[59].shown matches Shown::Flag(on) && switched(v, on)),
        r@[59].name@ == "spamFilter"@,
        lower(name@) == "chatbubbles"@ ==> (r@[56].shown matches Shown::Flag(on) && switched(v, on)),
        r@[56].name@ == "ChatBubbles"@,
        lower(name@) == "chatbubblesparty"@ ==> (r@[57].shown matches Shown::Flag(on) && switched(v, on)),
        r@[57].name@ == "ChatBubblesParty"@,
        lower(name@) == "guildmembernotify"@ ==> (r@[44].shown matches Shown::Flag(on) && switched(v, on)),
        r@[44].name@ == "guildMemberNotify"@,
        lower(name@) == "blocktrades"@ ==> (r@[45].shown matches Shown::Flag(on) && switched(v, on)),
        r@[45].name@ == "BlockTrades"@,
{
    an_interface_write_moves_its_own_setting(name, reading, limits, knobs, realmlist, taken, v);
    let k = *final(knobs);
    lemma_interface_rows(k, *ranges, death_log_range, r@);
    lemma_interface_read(lower(name@), v, old(knobs).interface, k, r@);
}

proof fn lemma_scene_rows(k: Knobs, ranges: CombatRanges, death_log_range: &'static str, r: Seq<SessionRow>)
    requires
        r == session_answers(k, ranges, death_log_range),
    ensures
        r[52] == (SessionRow { name: "WorldDetail", shown: Shown::Stop(k.scene.clutter) }),
        r[53] == (SessionRow { name: "frillDensity", shown: Shown::Cells(k.scene.clutter) }),
        r[54] == (SessionRow { name: "weatherDensity", shown: Shown::Count(k.scene.weather_density as u32) }),
        r[55] == (SessionRow { name: "gamma", shown: Shown::SixPlaces(k.scene.display_gamma) }),
        r[62] == (SessionRow { name: "minimapZoom", shown: Shown::Count(k.scene.outdoor_zoom as u32) }),
        r[63] == (SessionRow { name: "minimapInsideZoom", shown: Shown::Count(k.scene.inside_zoom as u32) }),
{
    lemma_answer(k, ranges, death_log_range, 3, 7);
    lemma_answer(k, ranges, death_log_range, 3, 8);
    lemma_answer(k, ranges, death_log_range, 3, 9);
    lemma_answer(k, ranges, death_log_range, 3, 10);
    lemma_answer(k, ranges, death_log_range, 4, 2);
    lemma_answer(k, ranges, death_log_range, 4, 3);
}

proof fn lemma_scene_read(key: Seq<char>, v: Single, limits: Limits, before: SceneConfig, k: Knobs, r: Seq<SessionRow>)
    requires
        scene_moved(key, v, limits, before, k.scene),
        r[52] == (SessionRow { name: "WorldDetail", shown: Shown::Stop(k.scene.clutter) }),
        r[53] == (SessionRow { name: "frillDensity", shown: Shown::Cells(k.scene.clutter) }),
        r[54] == (SessionRow { name: "weatherDensity", shown: Shown::Count(k.scene.weather_density as u32) }),
        r[55] == (SessionRow { name: "gamma", shown: Shown::SixPlaces(k.scene.display_gamma) }),
        r[62] == (SessionRow { name: "minimapZoom", shown: Shown::Count(k.scene.outdoor_zoom as u32) }),
        r[63] == (SessionRow { name: "minimapInsideZoom", shown: Shown::Count(k.scene.inside_zoom as u32) }),
    ensures
        key == "worlddetail"@ ==> (r[52].shown matches Shown::Stop(d) && (d matches ClutterDensity::Stop(kept) && number_held(v, 0x0000_0000, 0x4000_0000, kept))),
        r[52].name@ == "WorldDetail"@,
        key == "frilldensity"@ ==> (r[53].shown matches Shown::Cells(d) && (d matches ClutterDensity::Cells(kept) && number_held(v, 0x3F80_0000, 0x4380_0000, kept))),
        r[53].name@ == "frillDensity"@,
        key == "weatherdensity"@ ==> (r[54].shown matches Shown::Count(n) && counted(v, 0, 3, n as int)),
        r[54].name@ == "weatherDensity"@,
        key == "gamma"@ ==> (r[55].shown matches Shown::SixPlaces(x) && held_between(v, limits.gamma.0, limits.gamma.1, x)),
        r[55].name@ == "gamma"@,
        key == "minimapzoom"@ ==> (r[62].shown matches Shown::Count(n) && counted(v, 0, 5, n as int)),
        r[62].name@ == "minimapZoom"@,
        key == "minimapinsidezoom"@ ==> (r[63].shown matches Shown::Count(n) && counted(v, 0, 5, n as int)),
        r[63].name@ == "minimapInsideZoom"@,
{
}

/// What is written to a setting of the scene is what the session answers for it.
pub proof fn a_scene_write_is_read_back(
    name: &str,
    reading: &Reading,
    limits: &Limits,
    knobs: &mut Knobs,
    realmlist: &mut String,
    taken: bool,
    v: Single,
    ranges: &CombatRanges,
    death_log_range: &'static str,
    r: Vec<SessionRow>,
)
    requires
        call_ensures(apply_to_knobs, (name, reading, limits, knobs, realmlist), taken),
        reading.number == Some(v),
        scene_setting(lower(name@)),
        limits.wf(),
        !reading.view_setting,
        !reading.combat_range,
        call_ensures(session_rows, (&*final(knobs), ranges, death_log_range), r),
    ensures
        lower(name@) == "worlddetail"@ ==> (r@[52].shown matches Shown::Stop(d) && (d matches ClutterDensity::Stop(kept) && number_held(v, 0x0000_0000, 0x4000_0000, kept))),
        r@[52].name@ == "WorldDetail"@,
        lower(name@) == "frilldensity"@ ==> (r@[53].shown matches Shown::Cells(d) && (d matches ClutterDensity::Cells(kept) && number_held(v, 0x3F80_0000, 0x4380_0000, kept))),
        r@[53].name@ == "frillDensity"@,
        lower(name@) == "weatherdensity"@ ==> (r@[54].shown matches Shown::Count(n) && counted(v, 0, 3, n as int)),
        r@[54].name@ == "weatherDensity"@,
        lower(name@) == "gamma"@ ==> (r@[55].shown matches Shown::SixPlaces(x) && held_between(v, limits.gamma.0, limits.gamma.1, x)),
        r@[55].name@ == "gamma"@,
        lower(name@) == "minimapzoom"@ ==> (r@[62].shown matches Shown::Count(n) && counted(v, 0, 5, n as int)),
        r@[62].name@ == "minimapZoom"@,
        lower(name@) == "minimapinsidezoom"@ ==> (r@[63].shown matches Shown::Count(n) && counted(v, 0, 5, n as int)),
        r@[63].name@ == "minimapInsideZoom"@,
{
    a_scene_write_moves_its_own_setting(name, reading, limits, knobs, realmlist, taken, v);
    let k = *final(knobs);
    lemma_scene_rows(k, *ranges, death_log_range, r@);
    lemma_scene_read(lower(name@), v, *limits, old(knobs).scene, k, r@);
}

proof fn lemma_shadow_rows(k: Knobs, ranges: CombatRanges, death_log_range: &'static str, r: Seq<SessionRow>)
    requires
        r == session_answers(k, ranges, death_log_range),
    ensures
        r[65] == (SessionRow { name: "gxVSync", shown: Shown::Flag(k.shadow.vsync) }),
        r[66] == (SessionRow { name: "worldShadows", shown: Shown::Flag(k.shadow.world_shadows) }),
        r[67] == (SessionRow { name: "characterShadows", shown: Shown::Flag(k.shadow.character_shadows) }),
        r[68] == (SessionRow { name: "shadowDistance", shown: Shown::Number(k.shadow.shadow_distance) }),
        r[69] == (SessionRow { name: "shadowMapSize", shown: Shown::Count(k.shadow.shadow_map_size) }),
        r[70] == (SessionRow { name: "shadowFilter", shown: Shown::Count(k.shadow.shadow_filter) }),
        r[71] == (SessionRow { name: "characterShadowRate", shown: Shown::Count(k.shadow.character_shadow_rate) }),
        r[72] == (SessionRow { name: "worldShadowRate", shown: Shown::Count(k.shadow.world_shadow_rate) }),
        r[73] == (SessionRow { name: "shadowCasterReach", shown: Shown::Number(k.shadow.shadow_caster_reach) }),
{
    lemma_answer(k, ranges, death_log_range, 4, 5);
    lemma_answer(k, ranges, death_log_range, 4, 6);
    lemma_answer(k, ranges, death_log_range, 4, 7);
    lemma_answer(k, ranges, death_log_range, 4, 8);
    lemma_answer(k, ranges, death_log_range, 4, 9);
    lemma_answer(k, ranges, death_log_range, 4, 10);
    lemma_answer(k, ranges, death_log_range, 4, 11);
    lemma_answer(k, ranges, death_log_range, 4, 12);
    lemma_answer(k, ranges, death_log_range, 4, 13);
}

proof fn lemma_shadow_read(key: Seq<char>, v: Single, before: ShadowConfig, k: Knobs, r: Seq<SessionRow>)
    requires
        shadow_moved(key, v, before, k.shadow),
        r[65] == (SessionRow { name: "gxVSync", shown: Shown::Flag(k.shadow.vsync) }),
        r[66] == (SessionRow { name: "worldShadows", shown: Shown::Flag(k.shadow.world_shadows) }),
        r[67] == (SessionRow { name: "characterShadows", shown: Shown::Flag(k.shadow.character_shadows) }),
        r[68] == (SessionRow { name: "shadowDistance", shown: Shown::Number(k.shadow.shadow_distance) }),
        r[69] == (SessionRow { name: "shadowMapSize", shown: Shown::Count(k.shadow.shadow_map_size) }),
        r[70] == (SessionRow { name: "shadowFilter", shown: Shown::Count(k.shadow.shadow_filter) }),
        r[71] == (SessionRow { name: "characterShadowRate", shown: Shown::Count(k.shadow.character_shadow_rate) }),
        r[72] == (SessionRow { name: "worldShadowRate", shown: Shown::Count(k.shadow.world_shadow_rate) }),
        r[73] == (SessionRow { name: "shadowCasterReach", shown: Shown::Number(k.shadow.shadow_caster_reach) }),
    ensures
        key == "gxvsync"@ ==> (r[65].shown matches Shown::Flag(on) && switched(v, on)),
        r[65].name@ == "gxVSync"@,
        key == "worldshadows"@ ==> (r[66].shown matches Shown::Flag(on) && switched(v, on)),
        r[66].name@ == "worldShadows"@,
        key == "charactershadows"@ ==> (r[67].shown matches Shown::Flag(on) && switched(v, on)),
        r[67].name@ == "characterShadows"@,
        key == "shadowdistance"@ ==> (r[68].shown matches Shown::Number(x) && number_held(v, 0x4220_0000, 0x4348_0000, x)),
        r[68].name@ == "shadowDistance"@,
        key == "shadowmapsize"@ ==> (r[69].shown matches Shown::Count(n) && sized(v.count(u32::MAX as int), n as int)),
        r[69].name@ == "shadowMapSize"@,
        key == "shadowfilter"@ ==> (r[70].shown matches Shown::Count(n) && counted(v, 0, 1, n as int)),
        r[70].name@ == "shadowFilter"@,
        key == "charactershadowrate"@ ==> (r[71].shown matches Shown::Count(n) && counted(v, 0, 120, n as int)),
        r[71].name@ == "characterShadowRate"@,
        key == "worldshadowrate"@ ==> (r[72].shown matches Shown::Count(n) && counted(v, 0, 120, n as int)),
        r[72].name@ == "worldShadowRate"@,
        key == "shadowcasterreach"@ ==> (r[73].shown matches Shown::Number(x) && number_held(v, 0x3E80_0000, 0x4000_0000, x)),
        r[73].name@ == "shadowCasterReach"@,
{
}

/// What is written to a setting of the shadows is what the session answers for it.
pub proof fn a_shadow_write_is_read_back(
    name: &str,
    reading: &Reading,
    limits: &Limits,
    knobs: &mut Knobs,
    realmlist: &mut String,
    taken: bool,
    v: Single,
    ranges: &CombatRanges,
    death_log_range: &'static str,
    r: Vec<SessionRow>,
)
    requires
        call_ensures(apply_to_knobs, (name, reading, limits, knobs, realmlist), taken),
        reading.number == Some(v),
        shadow_setting(lower(name@)),
        !reading.view_setting,
        !reading.combat_range,
        call_ensures(session_rows, (&*final(knobs), ranges, death_log_range), r),
    ensures
        lower(name@) == "gxvsync"@ ==> (r@[65].shown matches Shown::Flag(on) && switched(v, on)),
        r@[65].name@ == "gxVSync"@,
        lower(name@) == "worldshadows"@ ==> (r@[66].shown matches Shown::Flag(on) && switched(v, on)),
        r@[66].name@ == "worldShadows"@,
        lower(name@) == "charactershadows"@ ==> (r@[67].shown matches Shown::Flag(on) && switched(v, on)),
        r@[67].name@ == "characterShadows"@,
        lower(name@) == "shadowdistance"@ ==> (r@[68].shown matches Shown::Number(x) && number_held(v, 0x4220_0000, 0x4348_0000, x)),
        r@[68].name@ == "shadowDistance"@,
        lower(name@) == "shadowmapsize"@ ==> (r@[69].shown matches Shown::Count(n) && sized(v.count(u32::MAX as int), n as int)),
        r@[69].name@ == "shadowMapSize"@,
        lower(name@) == "shadowfilter"@ ==> (r@[70].shown matches Shown::Count(n) && counted(v, 0, 1, n as int)),
        r@[70].name@ == "shadowFilter"@,
        lower(name@) == "charactershadowrate"@ ==> (r@[71].shown matches Shown::Count(n) && counted(v, 0, 120, n as int)),
        r@[71].name@ == "characterShadowRate"@,
        lower(name@) == "worldshadowrate"@ ==> (r@[72].shown matches Shown::Count(n) && counted(v, 0, 120, n as int)),
        r@[72].name@ == "worldShadowRate"@,
        lower(name@) == "shadowcasterreach"@ ==> (r@[73].shown matches Shown::Number(x) && number_held(v, 0x3E80_0000, 0x4000_0000, x)),
        r@[73].name@ == "shadowCasterReach"@,
{
    a_shadow_write_moves_its_own_setting(name, reading, limits, knobs, realmlist, taken, v);
    let k = *final(knobs);
    lemma_shadow_rows(k, *ranges, death_log_range, r@);
    lemma_shadow_read(lower(name@), v, old(knobs).shadow, k, r@);
}

proof fn lemma_interior_rows(k: Knobs, ranges: CombatRanges, death_log_range: &'static str, r: Seq<SessionRow>)
    requires
        r == session_answers(k, ranges, death_log_range),
    ensures
        r[74] == (SessionRow { name: "interiorLight", shown: Shown::Flag(k.interior.light) }),
        r[75] == (SessionRow { name: "interiorAmbient", shown: Shown::Number(k.interior.ambient) }),
        r[76] == (SessionRow { name: "interiorFill", shown: Shown::Number(k.interior.fill) }),
        r[77] == (SessionRow { name: "interiorExposure", shown: Shown::Number(k.interior.exposure) }),
        r[78] == (SessionRow { name: "interiorAttenScale", shown: Shown::Number(k.interior.atten_scale) }),
        r[79] == (SessionRow { name: "interiorRoomGate", shown: Shown::Flag(k.interior.room_gate) }),
        r[80] == (SessionRow { name: "interiorShadows", shown: Shown::Flag(k.interior.shadows) }),
        r[81] == (SessionRow { name: "exteriorShadows", shown: Shown::Flag(k.interior.exterior_shadows) }),
        r[82] == (SessionRow { name: "interiorShadowCasters", shown: Shown::Count(k.interior.shadow_casters) }),
        r[83] == (SessionRow { name: "interiorShadowDynamic", shown: Shown::Count(k.interior.shadow_dynamic) }),
        r[84] == (SessionRow { name: "interiorShadowEntityRate", shown: Shown::Count(k.interior.shadow_entity_rate) }),
        r[85] == (SessionRow { name: "interiorShadowSoft", shown: Shown::Number(k.interior.shadow_soft) }),
        r[86] == (SessionRow { name: "torchShadowStrength", shown: Shown::Number(k.interior.torch_strength) }),
        r[87] == (SessionRow { name: "interiorDebug", shown: Shown::Count(k.interior.debug) }),
{
    lemma_answer(k, ranges, death_log_range, 4, 14);
    lemma_answer(k, ranges, death_log_range, 5, 0);
    lemma_answer(k, ranges, death_log_range, 5, 1);
    lemma_answer(k, ranges, death_log_range, 5, 2);
    lemma_answer(k, ranges, death_log_range, 5, 3);
    lemma_answer(k, ranges, death_log_range, 5, 4);
    lemma_answer(k, ranges, death_log_range, 5, 5);
    lemma_answer(k, ranges, death_log_range, 5, 6);
    lemma_answer(k, ranges, death_log_range, 5, 7);
    lemma_answer(k, ranges, death_log_range, 5, 8);
    lemma_answer(k, ranges, death_log_range, 5, 9);
    lemma_answer(k, ranges, death_log_range, 5, 10);
    lemma_answer(k, ranges, death_log_range, 5, 11);
    lemma_answer(k, ranges, death_log_range, 5, 12);
}

proof fn lemma_interior_read(key: Seq<char>, v: Single, before: InteriorConfig, k: Knobs, r: Seq<SessionRow>)
    requires
        interior_moved(key, v, before, k.interior),
        r[74] == (SessionRow { name: "interiorLight", shown: Shown::Flag(k.interior.light) }),
        r[75] == (SessionRow { name: "interiorAmbient", shown: Shown::Number(k.interior.ambient) }),
        r[76] == (SessionRow { name: "interiorFill", shown: Shown::Number(k.interior.fill) }),
        r[77] == (SessionRow { name: "interiorExposure", shown: Shown::Number(k.interior.exposure) }),
        r[78] == (SessionRow { name: "interiorAttenScale", shown: Shown::Number(k.interior.atten_scale) }),
        r[79] == (SessionRow { name: "interiorRoomGate", shown: Shown::Flag(k.interior.room_gate) }),
        r[80] == (SessionRow { name: "interiorShadows", shown: Shown::Flag(k.interior.shadows) }),
        r[81] == (SessionRow { name: "exteriorShadows", shown: Shown::Flag(k.interior.exterior_shadows) }),
        r[82] == (SessionRow { name: "interiorShadowCasters", shown: Shown::Count(k.interior.shadow_casters) }),
        r[83] == (SessionRow { name: "interiorShadowDynamic", shown: Shown::Count(k.interior.shadow_dynamic) }),
        r[84] == (SessionRow { name: "interiorShadowEntityRate", shown: Shown::Count(k.interior.shadow_entity_rate) }),
        r[85] == (SessionRow { name: "interiorShadowSoft", shown: Shown::Number(k.interior.shadow_soft) }),
        r[86] == (SessionRow { name: "torchShadowStrength", shown: Shown::Number(k.interior.torch_strength) }),
        r[87] == (SessionRow { name: "interiorDebug", shown: Shown::Count(k.interior.debug) }),
    ensures
        key == "interiorlight"@ ==> (r[74].shown matches Shown::Flag(on) && switched(v, on)),
        r[74].name@ == "interiorLight"@,
        key == "interiorambient"@ ==> (r[75].shown matches Shown::Number(x) && number_held(v, 0x0000_0000, 0x3F80_0000, x)),
        r[75].name@ == "interiorAmbient"@,
        key == "interiorfill"@ ==> (r[76].shown matches Shown::Number(x) && number_held(v, 0x0000_0000, 0x4000_0000, x)),
        r[76].name@ == "interiorFill"@,
        key == "interiorexposure"@ ==> (r[77].shown matches Shown::Number(x) && number_held(v, 0x3E80_0000, 0x4100_0000, x)),
        r[77].name@ == "interiorExposure"@,
        key == "interiorattenscale"@ ==> (r[78].shown matches Shown::Number(x) && number_held(v, 0x0000_0000, 0x4100_0000, x)),
        r[78].name@ == "interiorAttenScale"@,
        key == "interiorroomgate"@ ==> (r[79].shown matches Shown::Flag(on) && switched(v, on)),
        r[79].name@ == "interiorRoomGate"@,
        key == "interiorshadows"@ ==> (r[80].shown matches Shown::Flag(on) && switched(v, on)),
        r[80].name@ == "interiorShadows"@,
        key == "exteriorshadows"@ ==> (r[81].shown matches Shown::Flag(on) && switched(v, on)),
        r[81].name@ == "exteriorShadows"@,
        key == "interiorshadowcasters"@ ==> (r[82].shown matches Shown::Count(n) && counted(v, 1, 16, n as int)),
        r[82].name@ == "interiorShadowCasters"@,
        key == "interiorshadowdynamic"@ ==> (r[83].shown matches Shown::Count(n) && counted(v, 1, 8, n as int)),
        r[83].name@ == "interiorShadowDynamic"@,
        key == "interiorshadowentityrate"@ ==> (r[84].shown matches Shown::Count(n) && counted(v, 0, 240, n as int)),
        r[84].name@ == "interiorShadowEntityRate"@,
        key == "interiorshadowsoft"@ ==> (r[85].shown matches Shown::Number(x) && number_held(v, 0x3F00_0000, 0x4040_0000, x)),
        r[85].name@ == "interiorShadowSoft"@,
        key == "torchshadowstrength"@ ==> (r[86].shown matches Shown::Number(x) && number_held(v, 0x0000_0000, 0x3F80_0000, x)),
        r[86].name@ == "torchShadowStrength"@,
        key == "interiordebug"@ ==> (r[87].shown matches Shown::Count(n) && counted(v, 0, 4, n as int)),
        r[87].name@ == "interiorDebug"@,
{
}

/// What is written to a setting of interiors is what the session answers for it.
pub proof fn an_interior_write_is_read_back(
    name: &str,
    reading: &Reading,
    limits: &Limits,
    knobs: &mut Knobs,
    realmlist: &mut String,
    taken: bool,
    v: Single,
    ranges: &CombatRanges,
    death_log_range: &'static str,
    r: Vec<SessionRow>,
)
    requires
        call_ensures(apply_to_knobs, (name, reading, limits, knobs, realmlist), taken),
        reading.number == Some(v),
        interior_setting(lower(name@)),
        !reading.view_setting,
        !reading.combat_range,
        call_ensures(session_rows, (&*final(knobs), ranges, death_log_range), r),
    ensures
        lower(name@) == "interiorlight"@ ==> (r@[74].shown matches Shown::Flag(on) && switched(v, on)),
        r@[74].name@ == "interiorLight"@,
        lower(name@) == "interiorambient"@ ==> (r@[75].shown matches Shown::Number(x) && number_held(v, 0x0000_0000, 0x3F80_0000, x)),
        r@[75].name@ == "interiorAmbient"@,
        lower(name@) == "interiorfill"@ ==> (r@[76].shown matches Shown::Number(x) && number_held(v, 0x0000_0000, 0x4000_0000, x)),
        r@[76].name@ == "interiorFill"@,
        lower(name@) == "interiorexposure"@ ==> (r@[77].shown matches Shown::Number(x) && number_held(v, 0x3E80_0000, 0x4100_0000, x)),
        r@[77].name@ == "interiorExposure"@,
        lower(name@) == "interiorattenscale"@ ==> (r@[78].shown matches Shown::Number(x) && number_held(v, 0x0000_0000, 0x4100_0000, x)),
        r@[78].name@ == "interiorAttenScale"@,
        lower(name@) == "interiorroomgate"@ ==> (r@[79].shown matches Shown::Flag(on) && switched(v, on)),
        r@[79].name@ == "interiorRoomGate"@,
        lower(name@) == "interiorshadows"@ ==> (r@[80].shown matches Shown::Flag(on) && switched(v, on)),
        r@[80].name@ == "interiorShadows"@,
        lower(name@) == "exteriorshadows"@ ==> (r@[81].shown matches Shown::Flag(on) && switched(v, on)),
        r@[81].name@ == "exteriorShadows"@,
        lower(name@) == "interiorshadowcasters"@ ==> (r@[82].shown matches Shown::Count(n) && counted(v, 1, 16, n as int)),
        r@[82].name@ == "interiorShadowCasters"@,
        lower(name@) == "interiorshadowdynamic"@ ==> (r@[83].shown matches Shown::Count(n) && counted(v, 1, 8, n as int)),
        r@[83].name@ == "interiorShadowDynamic"@,
        lower(name@) == "interiorshadowentityrate"@ ==> (r@[84].shown matches Shown::Count(n) && counted(v, 0, 240, n as int)),
        r@[84].name@ == "interiorShadowEntityRate"@,
        lower(name@) == "interiorshadowsoft"@ ==> (r@[85].shown matches Shown::Number(x) && number_held(v, 0x3F00_0000, 0x4040_0000, x)),
        r@[85].name@ == "interiorShadowSoft"@,
        lower(name@) == "torchshadowstrength"@ ==> (r@[86].shown matches Shown::Number(x) && number_held(v, 0x0000_0000, 0x3F80_0000, x)),
        r@[86].name@ == "torchShadowStrength"@,
        lower(name@) == "interiordebug"@ ==> (r@[87].shown matches Shown::Count(n) && counted(v, 0, 4, n as int)),
        r@[87].name@ == "interiorDebug"@,
{
    an_interior_write_moves_its_own_setting(name, reading, limits, knobs, realmlist, taken, v);
    let k = *final(knobs);
    lemma_interior_rows(k, *ranges, death_log_range, r@);
    lemma_interior_read(lower(name@), v, old(knobs).interior, k, r@);
}

proof fn lemma_gains_rows(k: Knobs, ranges: CombatRanges, death_log_range: &'static str, r: Seq<SessionRow>)
    requires
        r == session_answers(k, ranges, death_log_range),
    ensures
        r[88] == (SessionRow { name: "nightGain", shown: Shown::Number(k.gains.night_gain) }),
        r[89] == (SessionRow { name: "interiorGain", shown: Shown::Number(k.gains.interior_gain) }),
        r[90] == (SessionRow { name: "interiorDaylight", shown: Shown::Number(k.gains.interior_daylight) }),
        r[91] == (SessionRow { name: "interiorBakeFloor", shown: Shown::Number(k.gains.interior_bake_floor) }),
        r[92] == (SessionRow { name: "fireLightGain", shown: Shown::Number(k.gains.fire_light_gain) }),
        r[93] == (SessionRow { name: "spellLightGain", shown: Shown::Number(k.gains.spell_light_gain) }),
        r[94] == (SessionRow { name: "fireFlicker", shown: Shown::Number(k.gains.fire_flicker) }),
{
    lemma_answer(k, ranges, death_log_range, 5, 13);
    lemma_answer(k, ranges, death_log_range, 5, 14);
    lemma_answer(k, ranges, death_log_range, 6, 0);
    lemma_answer(k, ranges, death_log_range, 6, 1);
    lemma_answer(k, ranges, death_log_range, 6, 2);
    lemma_answer(k, ranges, death_log_range, 6, 3);
    lemma_answer(k, ranges, death_log_range, 6, 4);
}

proof fn lemma_gains_read(key: Seq<char>, v: Single, before: LightGains, k: Knobs, r: Seq<SessionRow>)
    requires
        gains_moved(key, v, before, k.gains),
        r[88] == (SessionRow { name: "nightGain", shown: Shown::Number(k.gains.night_gain) }),
        r[89] == (SessionRow { name: "interiorGain", shown: Shown::Number(k.gains.interior_gain) }),
        r[90] == (SessionRow { name: "interiorDaylight", shown: Shown::Number(k.gains.interior_daylight) }),
        r[91] == (SessionRow { name: "interiorBakeFloor", shown: Shown::Number(k.gains.interior_bake_floor) }),
        r[92] == (SessionRow { name: "fireLightGain", shown: Shown::Number(k.gains.fire_light_gain) }),
        r[93] == (SessionRow { name: "spellLightGain", shown: Shown::Number(k.gains.spell_light_gain) }),
        r[94] == (SessionRow { name: "fireFlicker", shown: Shown::Number(k.gains.fire_flicker) }),
    ensures
        key == "nightgain"@ ==> (r[88].shown matches Shown::Number(x) && number_held(v, 0x3E4C_CCCD, 0x3FC0_0000, x)),
        r[88].name@ == "nightGain"@,
        key == "interiorgain"@ ==> (r[89].shown matches Shown::Number(x) && number_held(v, 0x3E4C_CCCD, 0x3FC0_0000, x)),
        r[89].name@ == "interiorGain"@,
        key == "interiordaylight"@ ==> (r[90].shown matches Shown::Number(x) && number_held(v, 0x0000_0000, 0x3F80_0000, x)),
        r[90].name@ == "interiorDaylight"@,
        key == "interiorbakefloor"@ ==> (r[91].shown matches Shown::Number(x) && number_held(v, 0x0000_0000, 0x3F80_0000, x)),
        r[91].name@ == "interiorBakeFloor"@,
        key == "firelightgain"@ ==> (r[92].shown matches Shown::Number(x) && number_held(v, 0x0000_0000, 0x4080_0000, x)),
        r[92].name@ == "fireLightGain"@,
        key == "spelllightgain"@ ==> (r[93].shown matches Shown::Number(x) && number_held(v, 0x0000_0000, 0x4080_0000, x)),
        r[93].name@ == "spellLightGain"@,
        key == "fireflicker"@ ==> (r[94].shown matches Shown::Number(x) && number_held(v, 0x0000_0000, 0x4000_0000, x)),
        r[94].name@ == "fireFlicker"@,
{
}

/// What is written to a light gain is what the session answers for it.
pub proof fn a_gain_write_is_read_back(
    name: &str,
    reading: &Reading,
    limits: &Limits,
    knobs: &mut Knobs,
    realmlist: &mut String,
    taken: bool,
    v: Single,
    ranges: &CombatRanges,
    death_log_range: &'static str,
    r: Vec<SessionRow>,
)
    requires
        call_ensures(apply_to_knobs, (name, reading, limits, knobs, realmlist), taken),
        reading.number == Some(v),
        gains_setting(lower(name@)),
        !reading.view_setting,
        !reading.combat_range,
        call_ensures(session_rows, (&*final(knobs), ranges, death_log_range), r),
    ensures
        lower(name@) == "nightgain"@ ==> (r@[88].shown matches Shown::Number(x) && number_held(v, 0x3E4C_CCCD, 0x3FC0_0000, x)),
        r@[88].name@ == "nightGain"@,
        lower(name@) == "interiorgain"@ ==> (r@[89].shown matches Shown::Number(x) && number_held(v, 0x3E4C_CCCD, 0x3FC0_0000, x)),
        r@[89].name@ == "interiorGain"@,
        lower(name@) == "interiordaylight"@ ==> (r@[90].shown matches Shown::Number(x) && number_held(v, 0x0000_0000, 0x3F80_0000, x)),
        r@[90].name@ == "interiorDaylight"@,
        lower(name@) == "interiorbakefloor"@ ==> (r@[91].shown matches Shown::Number(x) && number_held(v, 0x0000_0000, 0x3F80_0000, x)),
        r@[91].name@ == "interiorBakeFloor"@,
        lower(name@) == "firelightgain"@ ==> (r@[92].shown matches Shown::Number(x) && number_held(v, 0x0000_0000, 0x4080_0000, x)),
        r@[92].name@ == "fireLightGain"@,
        lower(name@) == "spelllightgain"@ ==> (r@[93].shown matches Shown::Number(x) && number_held(v, 0x0000_0000, 0x4080_0000, x)),
        r@[93].name@ == "spellLightGain"@,
        lower(name@) == "fireflicker"@ ==> (r@[94].shown matches Shown::Number(x) && number_held(v, 0x0000_0000, 0x4000_0000, x)),
        r@[94].name@ == "fireFlicker"@,
{
    a_gain_write_moves_its_own_gain(name, reading, limits, knobs, realmlist, taken, v);
    let k = *final(knobs);
    lemma_gains_rows(k, *ranges, death_log_range, r@);
    lemma_gains_read(lower(name@), v, old(knobs).gains, k, r@);
}

proof fn lemma_display_rows(k: Knobs, ranges: CombatRanges, death_log_range: &'static str, r: Seq<SessionRow>)
    requires
        r == session_answers(k, ranges, death_log_range),
    ensures
        r[95] == (SessionRow { name: "gxWindow", shown: Shown::Flag(k.display.mode == DisplayMode::Windowed) }),
        r[97] == (SessionRow { name: "boothHalfRate", shown: Shown::Flag(k.display.pane_half) }),
        r[98] == (SessionRow { name: "renderScale", shown: Shown::Number(k.display.render_scale) }),
        r[102] == (SessionRow { name: "fpsJournal", shown: Shown::Flag(k.display.fps_journal) }),
        r[99] == (SessionRow { name: "gxMultisample", shown: Shown::Count(k.display.samples) }),
        r[100] == (SessionRow { name: "trilinear", shown: Shown::Flag(k.display.trilinear) }),
        r[101] == (SessionRow { name: "anisotropic", shown: Shown::Count(k.display.aniso) }),
{
    lemma_answer(k, ranges, death_log_range, 6, 5);
    lemma_answer(k, ranges, death_log_range, 6, 7);
    lemma_answer(k, ranges, death_log_range, 6, 8);
    lemma_answer(k, ranges, death_log_range, 6, 12);
    lemma_answer(k, ranges, death_log_range, 6, 9);
    lemma_answer(k, ranges, death_log_range, 6, 10);
    lemma_answer(k, ranges, death_log_range, 6, 11);
}

proof fn lemma_display_read(key: Seq<char>, v: Single, reading: Reading, limits: Limits, before: DisplayConfig, k: Knobs, r: Seq<SessionRow>)
    requires
        display_moved(key, v, reading, limits, before, k.display),
        r[95] == (SessionRow { name: "gxWindow", shown: Shown::Flag(k.display.mode == DisplayMode::Windowed) }),
        r[97] == (SessionRow { name: "boothHalfRate", shown: Shown::Flag(k.display.pane_half) }),
        r[98] == (SessionRow { name: "renderScale", shown: Shown::Number(k.display.render_scale) }),
        r[102] == (SessionRow { name: "fpsJournal", shown: Shown::Flag(k.display.fps_journal) }),
        r[99] == (SessionRow { name: "gxMultisample", shown: Shown::Count(k.display.samples) }),
        r[100] == (SessionRow { name: "trilinear", shown: Shown::Flag(k.display.trilinear) }),
        r[101] == (SessionRow { name: "anisotropic", shown: Shown::Count(k.display.aniso) }),
    ensures
        key == "gxwindow"@ ==> (r[95].shown matches Shown::Flag(on) && switched(v, on)),
        r[95].name@ == "gxWindow"@,
        key == "boothhalfrate"@ ==> (r[97].shown matches Shown::Flag(on) && switched(v, on)),
        r[97].name@ == "boothHalfRate"@,
        key == "renderscale"@ ==> (r[98].shown matches Shown::Number(x) && held_between(v, limits.render_scale.0, limits.render_scale.1, x)),
        r[98].name@ == "renderScale"@,
        key == "fpsjournal"@ ==> (r[102].shown matches Shown::Flag(on) && switched(v, on)),
        r[102].name@ == "fpsJournal"@,
        key == "gxmultisample"@ ==> (r[99].shown matches Shown::Count(n) && n == reading.granted),
        r[99].name@ == "gxMultisample"@,
        key == "trilinear"@ ==> (r[100].shown matches Shown::Flag(on) && switched(v, on)),
        r[100].name@ == "trilinear"@,
        key == "anisotropic"@ ==> (r[101].shown matches Shown::Count(n) && counted(v, 1, 16, n as int)),
        r[101].name@ == "anisotropic"@,
{
}

/// What is written to a setting of the display is what the session answers for it.
pub proof fn a_display_write_is_read_back(
    name: &str,
    reading: &Reading,
    limits: &Limits,
    knobs: &mut Knobs,
    realmlist: &mut String,
    taken: bool,
    v: Single,
    ranges: &CombatRanges,
    death_log_range: &'static str,
    r: Vec<SessionRow>,
)
    requires
        call_ensures(apply_to_knobs, (name, reading, limits, knobs, realmlist), taken),
        reading.number == Some(v),
        display_setting(lower(name@)),
        limits.wf(),
        !reading.view_setting,
        !reading.combat_range,
        call_ensures(session_rows, (&*final(knobs), ranges, death_log_range), r),
    ensures
        lower(name@) == "gxwindow"@ ==> (r@[95].shown matches Shown::Flag(on) && switched(v, on)),
        r@[95].name@ == "gxWindow"@,
        lower(name@) == "boothhalfrate"@ ==> (r@[97].shown matches Shown::Flag(on) && switched(v, on)),
        r@[97].name@ == "boothHalfRate"@,
        lower(name@) == "renderscale"@ ==> (r@[98].shown matches Shown::Number(x) && held_between(v, limits.render_scale.0, limits.render_scale.1, x)),
        r@[98].name@ == "renderScale"@,
        lower(name@) == "fpsjournal"@ ==> (r@[102].shown matches Shown::Flag(on) && switched(v, on)),
        r@[102].name@ == "fpsJournal"@,
        lower(name@) == "gxmultisample"@ ==> (r@[99].shown matches Shown::Count(n) && n == reading.granted),
        r@[99].name@ == "gxMultisample"@,
        lower(name@) == "trilinear"@ ==> (r@[100].shown matches Shown::Flag(on) && switched(v, on)),
        r@[100].name@ == "trilinear"@,
        lower(name@) == "anisotropic"@ ==> (r@[101].shown matches Shown::Count(n) && counted(v, 1, 16, n as int)),
        r@[101].name@ == "anisotropic"@,
{
    a_display_write_moves_its_own_setting(name, reading, limits, knobs, realmlist, taken, v);
    let k = *final(knobs);
    lemma_display_rows(k, *ranges, death_log_range, r@);
    lemma_display_read(lower(name@), v, *reading, *limits, old(knobs).display, k, r@);
}

/// The session answers each range of the combat log under its own name, and the one of deaths
/// under the name it was given.
pub proof fn every_range_is_answered_under_its_own_name(
    k: &Knobs,
    ranges: &CombatRanges,
    death_log_range: &'static str,
    r: Vec<SessionRow>,
)
    requires
        call_ensures(session_rows, (k, ranges, death_log_range), r),
    ensures
        r@.len() == 116,
        r@[104].name@ == "CombatLogRangeParty"@ && r@[104].shown == Shown::Number(ranges.party),
        r@[105].name@ == "CombatLogRangePartyPet"@ && r@[105].shown == Shown::Number(ranges.party_pet),
        r@[106].name@ == "CombatLogRangeFriendlyPlayers"@ && r@[106].shown == Shown::Number(ranges.friendly_player),
        r@[107].name@ == "CombatLogRangeFriendlyPlayersPets"@ && r@[107].shown == Shown::Number(ranges.friendly_pet),
        r@[108].name@ == "CombatLogRangeHostilePlayers"@ && r@[108].shown == Shown::Number(ranges.hostile_player),
        r@[109].name@ == "CombatLogRangeHostilePlayersPets"@ && r@[109].shown == Shown::Number(ranges.hostile_pet),
        r@[110].name@ == "CombatLogRangeCreature"@ && r@[110].shown == Shown::Number(ranges.creature),
        r@[111].name@ == death_log_range@ && r@[111].shown == Shown::Number(ranges.death),
        r@[64].name@ == "gxApi"@ && r@[64].shown == Shown::Backend,
        r@[96].name@ == "gxResolution"@ && r@[96].shown == Shown::Size(k.display.windowed.0, k.display.windowed.1),
        r@[103].name@ == "realmList"@ && r@[103].shown == Shown::Realm,
{
    lemma_answer(*k, *ranges, death_log_range, 6, 14);
    lemma_answer(*k, *ranges, death_log_range, 7, 0);
    lemma_answer(*k, *ranges, death_log_range, 7, 1);
    lemma_answer(*k, *ranges, death_log_range, 7, 2);
    lemma_answer(*k, *ranges, death_log_range, 7, 3);
    lemma_answer(*k, *ranges, death_log_range, 7, 4);
    lemma_answer(*k, *ranges, death_log_range, 7, 5);
    lemma_answer(*k, *ranges, death_log_range, 7, 6);
    lemma_answer(*k, *ranges, death_log_range, 4, 4);
    lemma_answer(*k, *ranges, death_log_range, 6, 6);
    lemma_answer(*k, *ranges, death_log_range, 6, 13);
}

/// The number that a text of digits denotes, read from the left.
pub open spec fn denoted(digits: Seq<char>) -> nat
    decreases digits.len(),
{
    if digits.len() == 0 {
        0
    } else {
        10 * denoted(digits.drop_last()) + (digits.last() as nat - '0' as nat) as nat
    }
}

/// A text of digits alone, without a zero before others.
pub open spec fn plain_digits(text: Seq<char>) -> bool {
    &&& text.len() > 0
    &&& forall|i: int| 0 <= i < text.len() ==> '0' <= #[trigger] text[i] && text[i] <= '9'
    &&& text.len() > 1 ==> text[0] != '0'
}

proof fn lemma_digits(n: nat)
    ensures
        plain_digits(decimal_digits(n)),
        denoted(decimal_digits(n)) == n,
        n > 0 ==> decimal_digits(n)[0] != '0',
    decreases n,
{
    let text = decimal_digits(n);
    if n >= 10 {
        lemma_digits(n / 10);
        assert(text.drop_last() =~= decimal_digits(n / 10));
    } else {
        assert(text.drop_last() =~= Seq::<char>::empty());
        assert(denoted(text.drop_last()) == 0);
    }
}

/// A count is spelled by the digits that denote it, and a signed number with a minus before the
/// digits where it is below zero; a switch is spelled one or zero, and a size with its width
/// before its height.
pub proof fn a_spelling_denotes_what_it_spells(shown: &Shown, realm: &str, backend: Option<&str>, r: Option<String>)
    requires
        call_ensures(spell, (shown, realm, backend), r),
    ensures
        *shown == Shown::Flag(true) ==> (r matches Some(text) && text@ == seq!['1']),
        *shown == Shown::Flag(false) ==> (r matches Some(text) && text@ == seq!['0']),
        *shown matches Shown::Count(n) ==> (r matches Some(text) && plain_digits(text@) && denoted(text@) == n),
        *shown matches Shown::Integer(n) ==> (r matches Some(text) && (n >= 0 ==> plain_digits(text@) && denoted(text@)
            == n) && (n < 0 ==> text@[0] == '-' && plain_digits(text@.skip(1)) && denoted(text@.skip(1)) == -n)),
        *shown matches Shown::Size(x, y) ==> (r matches Some(text) && exists|at: int|
            0 <= at < text@.len() && #[trigger] text@[at] == 'x' && plain_digits(text@.take(at)) && denoted(
                text@.take(at),
            ) == x && plain_digits(text@.skip(at + 1)) && denoted(text@.skip(at + 1)) == y),
        *shown == Shown::Realm ==> (r matches Some(text) && text@ == realm@),
        *shown == Shown::Backend ==> (backend matches Some(name) ==> (r matches Some(text) && text@ == name@)),
        *shown == Shown::Backend && backend is None ==> (r matches Some(text) && text@.len() == 0),
        *shown is Number || *shown is SixPlaces || *shown is Stop || *shown is Cells || *shown is Style ==> r is None,
{
    reveal_strlit("1");
    reveal_strlit("0");
    reveal_strlit("x");
    reveal_strlit("-");
    assert("1"@ =~= seq!['1']);
    assert("0"@ =~= seq!['0']);
    match *shown {
        Shown::Count(n) => lemma_digits(n as nat),
        Shown::Integer(n) => {
            if n >= 0 {
                lemma_digits(n as nat);
            } else {
                lemma_digits((-n) as nat);
                assert(signed_digits(n as int).skip(1) =~= decimal_digits((-n) as nat));
            }
        },
        Shown::Size(x, y) => {
            lemma_digits(x as nat);
            lemma_digits(y as nat);
            let text = r->0@;
            let at = decimal_digits(x as nat).len() as int;
            assert(text[at] == 'x');
            assert(text.take(at) =~= decimal_digits(x as nat));
            assert(text.skip(at + 1) =~= decimal_digits(y as nat));
        },
        _ => {},
    }
}

/// The video window is offered all but triple buffering, and sixteen steps of anisotropy.
pub proof fn only_triple_buffering_is_missing(r: VideoCaps)
    requires
        call_ensures(video_caps, (), r),
    ensures
        r.anisotropic && r.pixel_shaders && r.vertex_shaders && r.trilinear && r.hardware_cursor,
        !r.triple_buffering,
        r.max_anisotropy == 16,
{
}

} // verus!
