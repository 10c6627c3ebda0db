//! What holds of every registered setting: a write of it is taken whatever its case, and its
//! default says whether it takes a number or a text.
use crate::cvars::knobs::{
    after_camera_opts, after_damage_text, after_display, after_follow, after_gains,
    after_interface, after_interior, after_look, after_names, after_number, after_scene,
    after_shadow, after_sound, after_view, after_write, string_valued, Knobs, Limits,
    Reading,
};
use crate::cvars::persist::{some_taken, synced_knobs};
use crate::cvars::registered::{
    account_and_sound_rows, camera_rows, combat_rows, gains_and_window_rows, interface_rows,
    interior_rows, names_key, names_rows, registered_rows, sampling_rows, shadow_rows,
    view_and_click_rows, view_rows, Registered, SiteRows,
};
use crate::single::{Single, ZERO_BITS};
use crate::text::{
    lemma_a_point_makes_a_number, lemma_digits_are_a_number, lemma_no_number,
    lemma_nothing_is_no_number, lower, lower_char, number_shaped,
};
use vstd::prelude::*;

verus! {

/// The settings of the mixer.
pub open spec fn sound_setting(key: Seq<char>) -> bool {
    ||| key == "mastervolume"@
    ||| key == "soundvolume"@
    ||| key == "musicvolume"@
    ||| key == "ambiencevolume"@
    ||| key == "mastersoundeffects"@
    ||| key == "enablemusic"@
    ||| key == "enableambience"@
    ||| key == "enableerrorspeech"@
    ||| key == "sound_enablesoundwhengameisinbg"@
    ||| key == "soundreverb"@
    ||| key == "soundoutputlimiter"@
    ||| key == "soundlisteneratcharacter"@
    ||| key == "emotesounds"@
    ||| key == "soundzonemusicnodelay"@
}

/// The settings of the view and of clicks.
pub open spec fn view_setting(key: Seq<char>) -> bool {
    ||| key == "uiscale"@
    ||| key == "farclip"@
    ||| key == "nearclip"@
    ||| key == "deselectonclick"@
    ||| key == "autoselfcast"@
    ||| key == "assistattack"@
}

/// The settings of the mouse look.
pub open spec fn look_setting(key: Seq<char>) -> bool {
    ||| key == "mouseinvertpitch"@
    ||| key == "mousespeed"@
    ||| key == "camerayawmovespeed"@
    ||| key == "camerapitchmovespeed"@
}

/// The settings of the camera follow.
pub open spec fn follow_setting(key: Seq<char>) -> bool {
    ||| key == "cameradistancemaxfactor"@
    ||| key == "camerasmoothstyle"@
    ||| key == "camerasmoothtrackingstyle"@
    ||| key == "camerayawsmoothspeed"@
}

/// The settings of the damage text.
pub open spec fn damage_text_setting(key: Seq<char>) -> bool {
    ||| key == "combatdamage"@
    ||| key == "petmeleedamage"@
    ||| key == "petspelldamage"@
    ||| key == "combatlogperiodicspells"@
}

/// The settings of names, plates and loot.
pub open spec fn names_setting(key: Seq<char>) -> bool {
    ||| key == "autolootdefault"@
    ||| key == "unitnameplayer"@
    ||| key == "unitnamenpc"@
    ||| key == "unitnameown"@
    ||| key == "unitnameplayerguild"@
    ||| key == "nameplateshowenemies"@
    ||| key == "nameplateshowfriends"@
    ||| key == "showlootspam"@
}

/// The settings of the camera options.
pub open spec fn camera_opts_setting(key: Seq<char>) -> bool {
    ||| key == "camerapivot"@
    ||| key == "camerawatercollision"@
    ||| key == "camerapivotdxmax"@
    ||| key == "camerapivotdymin"@
    ||| key == "cameratargetsmoothspeed"@
    ||| key == "cameraterraintilt"@
    ||| key == "cameragroundsmoothspeed"@
    ||| key == "cameraterraintilttimemin"@
    ||| key == "cameraterraintilttimemax"@
    ||| key == "camerabobbing"@
    ||| key == "camerabobbinglramplitude"@
    ||| key == "camerabobbingudamplitude"@
    ||| key == "camerabobbingfrequency"@
    ||| key == "camerabobbingsmoothspeed"@
}

/// The settings of the interface.
pub open spec fn interface_setting(key: Seq<char>) -> bool {
    ||| key == "statusbartext"@
    ||| key == "ubertooltips"@
    ||| key == "checkaddonversion"@
    ||| key == "lastcharacterindex"@
    ||| key == "autoclearafk"@
    ||| key == "soundbuffersize"@
    ||| key == "useuiscale"@
    ||| key == "gxcolorbits"@
    ||| key == "gxdepthbits"@
    ||| key == "showgametips"@
    ||| key == "gametip"@
    ||| key == "profanityfilter"@
    ||| key == "spamfilter"@
    ||| key == "chatbubbles"@
    ||| key == "chatbubblesparty"@
    ||| key == "guildmembernotify"@
    ||| key == "blocktrades"@
}

/// The settings of the scene.
pub open spec fn scene_setting(key: Seq<char>) -> bool {
    ||| key == "worlddetail"@
    ||| key == "frilldensity"@
    ||| key == "weatherdensity"@
    ||| key == "gamma"@
    ||| key == "minimapzoom"@
    ||| key == "minimapinsidezoom"@
}

/// The settings of shadows.
pub open spec fn shadow_setting(key: Seq<char>) -> bool {
    ||| key == "gxvsync"@
    ||| key == "worldshadows"@
    ||| key == "charactershadows"@
    ||| key == "shadowdistance"@
    ||| key == "shadowmapsize"@
    ||| key == "shadowfilter"@
    ||| key == "charactershadowrate"@
    ||| key == "worldshadowrate"@
    ||| key == "shadowcasterreach"@
}

/// The settings of interiors.
pub open spec fn interior_setting(key: Seq<char>) -> bool {
    ||| key == "interiorlight"@
    ||| key == "interiorambient"@
    ||| key == "interiorfill"@
    ||| key == "interiorexposure"@
    ||| key == "interiorattenscale"@
    ||| key == "interiorroomgate"@
    ||| key == "interiorshadows"@
    ||| key == "exteriorshadows"@
    ||| key == "interiorshadowcasters"@
    ||| key == "interiorshadowdynamic"@
    ||| key == "interiorshadowentityrate"@
    ||| key == "interiorshadowsoft"@
    ||| key == "torchshadowstrength"@
    ||| key == "interiordebug"@
}

/// The settings of the light gains.
pub open spec fn gains_setting(key: Seq<char>) -> bool {
    ||| key == "nightgain"@
    ||| key == "interiorgain"@
    ||| key == "interiordaylight"@
    ||| key == "interiorbakefloor"@
    ||| key == "firelightgain"@
    ||| key == "spelllightgain"@
    ||| key == "fireflicker"@
}

/// The settings of the display.
pub open spec fn display_setting(key: Seq<char>) -> bool {
    ||| key == "gxwindow"@
    ||| key == "boothhalfrate"@
    ||| key == "renderscale"@
    ||| key == "fpsjournal"@
    ||| key == "gxmultisample"@
    ||| key == "trilinear"@
    ||| key == "anisotropic"@
}

/// The settings that a knob of this library answers to.
pub open spec fn knob_key(key: Seq<char>) -> bool {
    ||| sound_setting(key)
    ||| view_setting(key)
    ||| look_setting(key)
    ||| follow_setting(key)
    ||| damage_text_setting(key)
    ||| names_setting(key)
    ||| camera_opts_setting(key)
    ||| interface_setting(key)
    ||| scene_setting(key)
    ||| shadow_setting(key)
    ||| interior_setting(key)
    ||| gains_setting(key)
    ||| display_setting(key)
}

/// A number is taken exactly where the key is a knob's, a saved view's or a display range's: the
/// number itself and where the knobs stand have no say in it.
pub proof fn numbers_are_taken_by_name(k: Knobs, key: Seq<char>, v: Single, reading: Reading, limits: Limits)
    ensures
        after_number(k, key, v, reading, limits) is Some <==> knob_key(key) || reading.view_setting || reading.combat_range,
{
    assert(after_sound(k.sound, key, v) is Some <==> sound_setting(key));
    assert(after_view(k.view, key, v, limits) is Some <==> view_setting(key));
    assert(after_look(k.look, key, v) is Some <==> look_setting(key));
    assert(after_follow(k.follow, key, v, reading) is Some <==> follow_setting(key));
    assert(after_damage_text(k.damage_text, key, v) is Some <==> damage_text_setting(key));
    assert(after_names(k.names, key, v) is Some <==> names_setting(key));
    assert(after_camera_opts(k.camera_opts, key, v) is Some <==> camera_opts_setting(key));
    assert(after_interface(k.interface, key, v) is Some <==> interface_setting(key));
    assert(after_scene(k.scene, key, v, limits) is Some <==> scene_setting(key));
    assert(after_shadow(k.shadow, key, v) is Some <==> shadow_setting(key));
    assert(after_interior(k.interior, key, v) is Some <==> interior_setting(key));
    assert(after_gains(k.gains, key, v) is Some <==> gains_setting(key));
    assert(after_display(k.display, key, v, reading, limits) is Some <==> display_setting(key));
}

/// A write is taken exactly where its name is someone's, whatever is written.
pub proof fn a_write_is_taken_by_name(k: Knobs, name: Seq<char>, reading: Reading, limits: Limits)
    ensures
        after_write(k, name, reading, limits) is Some <==> string_valued(lower(name)) || knob_key(lower(name))
            || reading.view_setting || reading.combat_range,
{
    let v = match reading.number {
        Some(v) => v,
        None => Single { bits: ZERO_BITS },
    };
    numbers_are_taken_by_name(k, lower(name), v, reading, limits);
}

/// A value that reads as no number, written to a name that is someone's, is consumed and leaves
/// every knob alone.
pub proof fn a_bad_value_is_consumed(k: Knobs, name: Seq<char>, reading: Reading, limits: Limits)
    requires
        reading.number is None,
        !string_valued(lower(name)),
        knob_key(lower(name)) || reading.view_setting || reading.combat_range,
    ensures
        after_write(k, name, reading, limits) == Some(k),
{
    a_write_is_taken_by_name(k, name, reading, limits);
}

/// The settings of the combat log's display ranges, the death log's among them.
pub open spec fn names_range(site: SiteRows, key: Seq<char>) -> bool {
    ||| key == "combatlograngeparty"@
    ||| key == "combatlograngepartypet"@
    ||| key == "combatlograngefriendlyplayers"@
    ||| key == "combatlograngefriendlyplayerspets"@
    ||| key == "combatlograngehostileplayers"@
    ||| key == "combatlograngehostileplayerspets"@
    ||| key == "combatlograngecreature"@
    ||| key == lower(site.death_log_range@)
}

/// A reading of a write to `key` says of the names that other parts of the client own whose they
/// are.
pub open spec fn knows_site(site: SiteRows, key: Seq<char>, reading: Reading) -> bool {
    &&& names_key(view_rows(site), key) ==> reading.view_setting
    &&& names_range(site, key) ==> reading.combat_range
}

/// Someone takes a write to the key.
pub open spec fn taken_key(site: SiteRows, key: Seq<char>) -> bool {
    string_valued(key) || knob_key(key) || names_key(view_rows(site), key) || names_range(site, key)
}

/// The rows that other parts of the client name take numbers.
pub open spec fn site_takes_numbers(site: SiteRows) -> bool {
    &&& !string_valued(lower(site.death_log_range@))
    &&& forall|i: int|
        0 <= i < view_rows(site).len() ==> !string_valued(lower((#[trigger] view_rows(site)[i]).name@)) && number_shaped(
            view_rows(site)[i].default@,
        )
}

/// A write to the row is taken, and its name is text-valued exactly where its default reads as no
/// number.
pub open spec fn row_sound(site: SiteRows, row: Registered) -> bool {
    &&& taken_key(site, lower(row.name@))
    &&& site_takes_numbers(site) ==> (string_valued(lower(row.name@)) <==> !number_shaped(row.default@))
}

/// What is to hold of a row holds of all of them.
pub open spec fn rows_sound(site: SiteRows, rows: Seq<Registered>) -> bool {
    forall|i: int| 0 <= i < rows.len() ==> row_sound(site, #[trigger] rows[i])
}

proof fn lemma_not_text(name: Seq<char>)
    requires
        name.len() >= 3,
        !(lower_char(name[0]) == 'g' && lower_char(name[1]) == 'x' && (lower_char(name[2]) == 'a' || lower_char(name[2]) == 'r')),
        !(lower_char(name[0]) == 'r' && lower_char(name[1]) == 'e' && lower_char(name[2]) == 'a'),
    ensures
        !string_valued(lower(name)),
{
    reveal_strlit("gxapi");
    reveal_strlit("gxresolution");
    reveal_strlit("realmlist");
    reveal_strlit("realmname");
    let key = lower(name);
    assert(key[0] == lower_char(name[0]) && key[1] == lower_char(name[1]) && key[2] == lower_char(name[2]));
}

proof fn lemma_account_and_sound_rows(site: SiteRows)
    ensures
        rows_sound(site, account_and_sound_rows()),
{
    let rows = account_and_sound_rows();
    assert(row_sound(site, rows[0])) by {
        reveal_strlit("realmName");
        reveal_strlit("realmname");
        assert(lower("realmName"@) =~= "realmname"@);
        reveal_strlit("");
        lemma_nothing_is_no_number(""@);
    }
    assert(row_sound(site, rows[1])) by {
        reveal_strlit("realmList");
        reveal_strlit("realmlist");
        assert(lower("realmList"@) =~= "realmlist"@);
        reveal_strlit("localhost");
        lemma_no_number("localhost"@, 0);
    }
    assert(row_sound(site, rows[2])) by {
        reveal_strlit("autoClearAFK");
        reveal_strlit("autoclearafk");
        assert(lower("autoClearAFK"@) =~= "autoclearafk"@);
        lemma_not_text("autoClearAFK"@);
        reveal_strlit("1");
        lemma_digits_are_a_number("1"@);
    }
    assert(row_sound(site, rows[3])) by {
        reveal_strlit("MasterVolume");
        reveal_strlit("mastervolume");
        assert(lower("MasterVolume"@) =~= "mastervolume"@);
        lemma_not_text("MasterVolume"@);
        reveal_strlit("1");
        lemma_digits_are_a_number("1"@);
    }
    assert(row_sound(site, rows[4])) by {
        reveal_strlit("SoundVolume");
        reveal_strlit("soundvolume");
        assert(lower("SoundVolume"@) =~= "soundvolume"@);
        lemma_not_text("SoundVolume"@);
        reveal_strlit("1");
        lemma_digits_are_a_number("1"@);
    }
    assert(row_sound(site, rows[5])) by {
        reveal_strlit("MusicVolume");
        reveal_strlit("musicvolume");
        assert(lower("MusicVolume"@) =~= "musicvolume"@);
        lemma_not_text("MusicVolume"@);
        reveal_strlit("0.4");
        lemma_a_point_makes_a_number("0.4"@, 1);
    }
    assert(row_sound(site, rows[6])) by {
        reveal_strlit("AmbienceVolume");
        reveal_strlit("ambiencevolume");
        assert(lower("AmbienceVolume"@) =~= "ambiencevolume"@);
        lemma_not_text("AmbienceVolume"@);
        reveal_strlit("0.6");
        lemma_a_point_makes_a_number("0.6"@, 1);
    }
    assert(row_sound(site, rows[7])) by {
        reveal_strlit("MasterSoundEffects");
        reveal_strlit("mastersoundeffects");
        assert(lower("MasterSoundEffects"@) =~= "mastersoundeffects"@);
        lemma_not_text("MasterSoundEffects"@);
        reveal_strlit("1");
        lemma_digits_are_a_number("1"@);
    }
    assert(row_sound(site, rows[8])) by {
        reveal_strlit("EnableMusic");
        reveal_strlit("enablemusic");
        assert(lower("EnableMusic"@) =~= "enablemusic"@);
        lemma_not_text("EnableMusic"@);
        reveal_strlit("1");
        lemma_digits_are_a_number("1"@);
    }
    assert(row_sound(site, rows[9])) by {
        reveal_strlit("EnableAmbience");
        reveal_strlit("enableambience");
        assert(lower("EnableAmbience"@) =~= "enableambience"@);
        lemma_not_text("EnableAmbience"@);
        reveal_strlit("1");
        lemma_digits_are_a_number("1"@);
    }
    assert(row_sound(site, rows[10])) by {
        reveal_strlit("EnableErrorSpeech");
        reveal_strlit("enableerrorspeech");
        assert(lower("EnableErrorSpeech"@) =~= "enableerrorspeech"@);
        lemma_not_text("EnableErrorSpeech"@);
        reveal_strlit("1");
        lemma_digits_are_a_number("1"@);
    }
    assert(row_sound(site, rows[11])) by {
        reveal_strlit("Sound_EnableSoundWhenGameIsInBG");
        reveal_strlit("sound_enablesoundwhengameisinbg");
        assert(lower("Sound_EnableSoundWhenGameIsInBG"@) =~= "sound_enablesoundwhengameisinbg"@);
        lemma_not_text("Sound_EnableSoundWhenGameIsInBG"@);
        reveal_strlit("0");
        lemma_digits_are_a_number("0"@);
    }
    assert(row_sound(site, rows[12])) by {
        reveal_strlit("SoundReverb");
        reveal_strlit("soundreverb");
        assert(lower("SoundReverb"@) =~= "soundreverb"@);
        lemma_not_text("SoundReverb"@);
        reveal_strlit("0");
        lemma_digits_are_a_number("0"@);
    }
    assert(row_sound(site, rows[13])) by {
        reveal_strlit("SoundBufferSize");
        reveal_strlit("soundbuffersize");
        assert(lower("SoundBufferSize"@) =~= "soundbuffersize"@);
        lemma_not_text("SoundBufferSize"@);
        reveal_strlit("100");
        lemma_digits_are_a_number("100"@);
    }
}

proof fn lemma_view_and_click_rows(site: SiteRows)
    ensures
        rows_sound(site, view_and_click_rows()),
{
    let rows = view_and_click_rows();
    assert(row_sound(site, rows[0])) by {
        reveal_strlit("SoundOutputLimiter");
        reveal_strlit("soundoutputlimiter");
        assert(lower("SoundOutputLimiter"@) =~= "soundoutputlimiter"@);
        lemma_not_text("SoundOutputLimiter"@);
        reveal_strlit("1");
        lemma_digits_are_a_number("1"@);
    }
    assert(row_sound(site, rows[1])) by {
        reveal_strlit("uiScale");
        reveal_strlit("uiscale");
        assert(lower("uiScale"@) =~= "uiscale"@);
        lemma_not_text("uiScale"@);
        reveal_strlit("0.9");
        lemma_a_point_makes_a_number("0.9"@, 1);
    }
    assert(row_sound(site, rows[2])) by {
        reveal_strlit("useUiScale");
        reveal_strlit("useuiscale");
        assert(lower("useUiScale"@) =~= "useuiscale"@);
        lemma_not_text("useUiScale"@);
        reveal_strlit("0");
        lemma_digits_are_a_number("0"@);
    }
    assert(row_sound(site, rows[3])) by {
        reveal_strlit("farclip");
        assert(lower("farclip"@) =~= "farclip"@);
        lemma_not_text("farclip"@);
        reveal_strlit("350");
        lemma_digits_are_a_number("350"@);
    }
    assert(row_sound(site, rows[4])) by {
        reveal_strlit("nearclip");
        assert(lower("nearclip"@) =~= "nearclip"@);
        lemma_not_text("nearclip"@);
        reveal_strlit("0.1");
        lemma_a_point_makes_a_number("0.1"@, 1);
    }
    assert(row_sound(site, rows[5])) by {
        reveal_strlit("deselectOnClick");
        reveal_strlit("deselectonclick");
        assert(lower("deselectOnClick"@) =~= "deselectonclick"@);
        lemma_not_text("deselectOnClick"@);
        reveal_strlit("1");
        lemma_digits_are_a_number("1"@);
    }
    assert(row_sound(site, rows[6])) by {
        reveal_strlit("BlockTrades");
        reveal_strlit("blocktrades");
        assert(lower("BlockTrades"@) =~= "blocktrades"@);
        lemma_not_text("BlockTrades"@);
        reveal_strlit("0");
        lemma_digits_are_a_number("0"@);
    }
    assert(row_sound(site, rows[7])) by {
        reveal_strlit("autoSelfCast");
        reveal_strlit("autoselfcast");
        assert(lower("autoSelfCast"@) =~= "autoselfcast"@);
        lemma_not_text("autoSelfCast"@);
        reveal_strlit("1");
        lemma_digits_are_a_number("1"@);
    }
}

proof fn lemma_names_rows(site: SiteRows)
    ensures
        rows_sound(site, names_rows()),
{
    let rows = names_rows();
    assert(row_sound(site, rows[0])) by {
        reveal_strlit("mouseInvertPitch");
        reveal_strlit("mouseinvertpitch");
        assert(lower("mouseInvertPitch"@) =~= "mouseinvertpitch"@);
        lemma_not_text("mouseInvertPitch"@);
        reveal_strlit("0");
        lemma_digits_are_a_number("0"@);
    }
    assert(row_sound(site, rows[1])) by {
        reveal_strlit("autoLootDefault");
        reveal_strlit("autolootdefault");
        assert(lower("autoLootDefault"@) =~= "autolootdefault"@);
        lemma_not_text("autoLootDefault"@);
        reveal_strlit("0");
        lemma_digits_are_a_number("0"@);
    }
    assert(row_sound(site, rows[2])) by {
        reveal_strlit("UnitNamePlayer");
        reveal_strlit("unitnameplayer");
        assert(lower("UnitNamePlayer"@) =~= "unitnameplayer"@);
        lemma_not_text("UnitNamePlayer"@);
        reveal_strlit("1");
        lemma_digits_are_a_number("1"@);
    }
    assert(row_sound(site, rows[3])) by {
        reveal_strlit("UnitNameNPC");
        reveal_strlit("unitnamenpc");
        assert(lower("UnitNameNPC"@) =~= "unitnamenpc"@);
        lemma_not_text("UnitNameNPC"@);
        reveal_strlit("0");
        lemma_digits_are_a_number("0"@);
    }
    assert(row_sound(site, rows[4])) by {
        reveal_strlit("UnitNameOwn");
        reveal_strlit("unitnameown");
        assert(lower("UnitNameOwn"@) =~= "unitnameown"@);
        lemma_not_text("UnitNameOwn"@);
        reveal_strlit("0");
        lemma_digits_are_a_number("0"@);
    }
    assert(row_sound(site, rows[5])) by {
        reveal_strlit("UnitNamePlayerGuild");
        reveal_strlit("unitnameplayerguild");
        assert(lower("UnitNamePlayerGuild"@) =~= "unitnameplayerguild"@);
        lemma_not_text("UnitNamePlayerGuild"@);
        reveal_strlit("1");
        lemma_digits_are_a_number("1"@);
    }
    assert(row_sound(site, rows[6])) by {
        reveal_strlit("nameplateShowEnemies");
        reveal_strlit("nameplateshowenemies");
        assert(lower("nameplateShowEnemies"@) =~= "nameplateshowenemies"@);
        lemma_not_text("nameplateShowEnemies"@);
        reveal_strlit("0");
        lemma_digits_are_a_number("0"@);
    }
    assert(row_sound(site, rows[7])) by {
        reveal_strlit("nameplateShowFriends");
        reveal_strlit("nameplateshowfriends");
        assert(lower("nameplateShowFriends"@) =~= "nameplateshowfriends"@);
        lemma_not_text("nameplateShowFriends"@);
        reveal_strlit("0");
        lemma_digits_are_a_number("0"@);
    }
    assert(row_sound(site, rows[8])) by {
        reveal_strlit("WorldDetail");
        reveal_strlit("worlddetail");
        assert(lower("WorldDetail"@) =~= "worlddetail"@);
        lemma_not_text("WorldDetail"@);
        reveal_strlit("1");
        lemma_digits_are_a_number("1"@);
    }
    assert(row_sound(site, rows[9])) by {
        reveal_strlit("frillDensity");
        reveal_strlit("frilldensity");
        assert(lower("frillDensity"@) =~= "frilldensity"@);
        lemma_not_text("frillDensity"@);
        reveal_strlit("32");
        lemma_digits_are_a_number("32"@);
    }
    assert(row_sound(site, rows[10])) by {
        reveal_strlit("CombatLogRangeParty");
        reveal_strlit("combatlograngeparty");
        assert(lower("CombatLogRangeParty"@) =~= "combatlograngeparty"@);
        lemma_not_text("CombatLogRangeParty"@);
        reveal_strlit("50");
        lemma_digits_are_a_number("50"@);
    }
    assert(row_sound(site, rows[11])) by {
        reveal_strlit("CombatLogRangePartyPet");
        reveal_strlit("combatlograngepartypet");
        assert(lower("CombatLogRangePartyPet"@) =~= "combatlograngepartypet"@);
        lemma_not_text("CombatLogRangePartyPet"@);
        reveal_strlit("50");
        lemma_digits_are_a_number("50"@);
    }
    assert(row_sound(site, rows[12])) by {
        reveal_strlit("CombatLogRangeFriendlyPlayers");
        reveal_strlit("combatlograngefriendlyplayers");
        assert(lower("CombatLogRangeFriendlyPlayers"@) =~= "combatlograngefriendlyplayers"@);
        lemma_not_text("CombatLogRangeFriendlyPlayers"@);
        reveal_strlit("50");
        lemma_digits_are_a_number("50"@);
    }
    assert(row_sound(site, rows[13])) by {
        reveal_strlit("CombatLogRangeFriendlyPlayersPets");
        reveal_strlit("combatlograngefriendlyplayerspets");
        assert(lower("CombatLogRangeFriendlyPlayersPets"@) =~= "combatlograngefriendlyplayerspets"@);
        lemma_not_text("CombatLogRangeFriendlyPlayersPets"@);
        reveal_strlit("50");
        lemma_digits_are_a_number("50"@);
    }
}

proof fn lemma_combat_rows(site: SiteRows)
    ensures
        rows_sound(site, combat_rows(site)),
{
    let rows = combat_rows(site);
    assert(row_sound(site, rows[0])) by {
        reveal_strlit("CombatLogRangeHostilePlayers");
        reveal_strlit("combatlograngehostileplayers");
        assert(lower("CombatLogRangeHostilePlayers"@) =~= "combatlograngehostileplayers"@);
        lemma_not_text("CombatLogRangeHostilePlayers"@);
        reveal_strlit("50");
        lemma_digits_are_a_number("50"@);
    }
    assert(row_sound(site, rows[1])) by {
        reveal_strlit("CombatLogRangeHostilePlayersPets");
        reveal_strlit("combatlograngehostileplayerspets");
        assert(lower("CombatLogRangeHostilePlayersPets"@) =~= "combatlograngehostileplayerspets"@);
        lemma_not_text("CombatLogRangeHostilePlayersPets"@);
        reveal_strlit("50");
        lemma_digits_are_a_number("50"@);
    }
    assert(row_sound(site, rows[2])) by {
        reveal_strlit("CombatLogRangeCreature");
        reveal_strlit("combatlograngecreature");
        assert(lower("CombatLogRangeCreature"@) =~= "combatlograngecreature"@);
        lemma_not_text("CombatLogRangeCreature"@);
        reveal_strlit("30");
        lemma_digits_are_a_number("30"@);
    }
    assert(row_sound(site, rows[3])) by {
        reveal_strlit("60");
        lemma_digits_are_a_number("60"@);
    }
    assert(row_sound(site, rows[4])) by {
        reveal_strlit("CombatDamage");
        reveal_strlit("combatdamage");
        assert(lower("CombatDamage"@) =~= "combatdamage"@);
        lemma_not_text("CombatDamage"@);
        reveal_strlit("1");
        lemma_digits_are_a_number("1"@);
    }
    assert(row_sound(site, rows[5])) by {
        reveal_strlit("PetMeleeDamage");
        reveal_strlit("petmeleedamage");
        assert(lower("PetMeleeDamage"@) =~= "petmeleedamage"@);
        lemma_not_text("PetMeleeDamage"@);
        reveal_strlit("1");
        lemma_digits_are_a_number("1"@);
    }
    assert(row_sound(site, rows[6])) by {
        reveal_strlit("PetSpellDamage");
        reveal_strlit("petspelldamage");
        assert(lower("PetSpellDamage"@) =~= "petspelldamage"@);
        lemma_not_text("PetSpellDamage"@);
        reveal_strlit("1");
        lemma_digits_are_a_number("1"@);
    }
    assert(row_sound(site, rows[7])) by {
        reveal_strlit("CombatLogPeriodicSpells");
        reveal_strlit("combatlogperiodicspells");
        assert(lower("CombatLogPeriodicSpells"@) =~= "combatlogperiodicspells"@);
        lemma_not_text("CombatLogPeriodicSpells"@);
        reveal_strlit("1");
        lemma_digits_are_a_number("1"@);
    }
    assert(row_sound(site, rows[8])) by {
        reveal_strlit("SoundListenerAtCharacter");
        reveal_strlit("soundlisteneratcharacter");
        assert(lower("SoundListenerAtCharacter"@) =~= "soundlisteneratcharacter"@);
        lemma_not_text("SoundListenerAtCharacter"@);
        reveal_strlit("1");
        lemma_digits_are_a_number("1"@);
    }
    assert(row_sound(site, rows[9])) by {
        reveal_strlit("EmoteSounds");
        reveal_strlit("emotesounds");
        assert(lower("EmoteSounds"@) =~= "emotesounds"@);
        lemma_not_text("EmoteSounds"@);
        reveal_strlit("1");
        lemma_digits_are_a_number("1"@);
    }
    assert(row_sound(site, rows[10])) by {
        reveal_strlit("SoundZoneMusicNoDelay");
        reveal_strlit("soundzonemusicnodelay");
        assert(lower("SoundZoneMusicNoDelay"@) =~= "soundzonemusicnodelay"@);
        lemma_not_text("SoundZoneMusicNoDelay"@);
        reveal_strlit("0");
        lemma_digits_are_a_number("0"@);
    }
    assert(row_sound(site, rows[11])) by {
        reveal_strlit("assistAttack");
        reveal_strlit("assistattack");
        assert(lower("assistAttack"@) =~= "assistattack"@);
        lemma_not_text("assistAttack"@);
        reveal_strlit("0");
        lemma_digits_are_a_number("0"@);
    }
    assert(row_sound(site, rows[12])) by {
        reveal_strlit("cameraYawMoveSpeed");
        reveal_strlit("camerayawmovespeed");
        assert(lower("cameraYawMoveSpeed"@) =~= "camerayawmovespeed"@);
        lemma_not_text("cameraYawMoveSpeed"@);
        reveal_strlit("180");
        lemma_digits_are_a_number("180"@);
    }
    assert(row_sound(site, rows[13])) by {
        reveal_strlit("cameraPitchMoveSpeed");
        reveal_strlit("camerapitchmovespeed");
        assert(lower("cameraPitchMoveSpeed"@) =~= "camerapitchmovespeed"@);
        lemma_not_text("cameraPitchMoveSpeed"@);
        reveal_strlit("90");
        lemma_digits_are_a_number("90"@);
    }
}

proof fn lemma_camera_rows(site: SiteRows)
    ensures
        rows_sound(site, camera_rows()),
{
    let rows = camera_rows();
    assert(row_sound(site, rows[0])) by {
        reveal_strlit("mousespeed");
        assert(lower("mousespeed"@) =~= "mousespeed"@);
        lemma_not_text("mousespeed"@);
        reveal_strlit("1");
        lemma_digits_are_a_number("1"@);
    }
    assert(row_sound(site, rows[1])) by {
        reveal_strlit("cameraDistanceMaxFactor");
        reveal_strlit("cameradistancemaxfactor");
        assert(lower("cameraDistanceMaxFactor"@) =~= "cameradistancemaxfactor"@);
        lemma_not_text("cameraDistanceMaxFactor"@);
        reveal_strlit("1");
        lemma_digits_are_a_number("1"@);
    }
    assert(row_sound(site, rows[2])) by {
        reveal_strlit("cameraSmoothStyle");
        reveal_strlit("camerasmoothstyle");
        assert(lower("cameraSmoothStyle"@) =~= "camerasmoothstyle"@);
        lemma_not_text("cameraSmoothStyle"@);
        reveal_strlit("1");
        lemma_digits_are_a_number("1"@);
    }
    assert(row_sound(site, rows[3])) by {
        reveal_strlit("cameraSmoothTrackingStyle");
        reveal_strlit("camerasmoothtrackingstyle");
        assert(lower("cameraSmoothTrackingStyle"@) =~= "camerasmoothtrackingstyle"@);
        lemma_not_text("cameraSmoothTrackingStyle"@);
        reveal_strlit("1");
        lemma_digits_are_a_number("1"@);
    }
    assert(row_sound(site, rows[4])) by {
        reveal_strlit("cameraYawSmoothSpeed");
        reveal_strlit("camerayawsmoothspeed");
        assert(lower("cameraYawSmoothSpeed"@) =~= "camerayawsmoothspeed"@);
        lemma_not_text("cameraYawSmoothSpeed"@);
        reveal_strlit("180");
        lemma_digits_are_a_number("180"@);
    }
    assert(row_sound(site, rows[5])) by {
        reveal_strlit("cameraPivot");
        reveal_strlit("camerapivot");
        assert(lower("cameraPivot"@) =~= "camerapivot"@);
        lemma_not_text("cameraPivot"@);
        reveal_strlit("1");
        lemma_digits_are_a_number("1"@);
    }
    assert(row_sound(site, rows[6])) by {
        reveal_strlit("cameraPivotDXMax");
        reveal_strlit("camerapivotdxmax");
        assert(lower("cameraPivotDXMax"@) =~= "camerapivotdxmax"@);
        lemma_not_text("cameraPivotDXMax"@);
        reveal_strlit("0.05");
        lemma_a_point_makes_a_number("0.05"@, 1);
    }
    assert(row_sound(site, rows[7])) by {
        reveal_strlit("cameraPivotDYMin");
        reveal_strlit("camerapivotdymin");
        assert(lower("cameraPivotDYMin"@) =~= "camerapivotdymin"@);
        lemma_not_text("cameraPivotDYMin"@);
        reveal_strlit("0");
        lemma_digits_are_a_number("0"@);
    }
    assert(row_sound(site, rows[8])) by {
        reveal_strlit("cameraTargetSmoothSpeed");
        reveal_strlit("cameratargetsmoothspeed");
        assert(lower("cameraTargetSmoothSpeed"@) =~= "cameratargetsmoothspeed"@);
        lemma_not_text("cameraTargetSmoothSpeed"@);
        reveal_strlit("90");
        lemma_digits_are_a_number("90"@);
    }
    assert(row_sound(site, rows[9])) by {
        reveal_strlit("cameraWaterCollision");
        reveal_strlit("camerawatercollision");
        assert(lower("cameraWaterCollision"@) =~= "camerawatercollision"@);
        lemma_not_text("cameraWaterCollision"@);
        reveal_strlit("1");
        lemma_digits_are_a_number("1"@);
    }
    assert(row_sound(site, rows[10])) by {
        reveal_strlit("cameraTerrainTilt");
        reveal_strlit("cameraterraintilt");
        assert(lower("cameraTerrainTilt"@) =~= "cameraterraintilt"@);
        lemma_not_text("cameraTerrainTilt"@);
        reveal_strlit("0");
        lemma_digits_are_a_number("0"@);
    }
    assert(row_sound(site, rows[11])) by {
        reveal_strlit("cameraGroundSmoothSpeed");
        reveal_strlit("cameragroundsmoothspeed");
        assert(lower("cameraGroundSmoothSpeed"@) =~= "cameragroundsmoothspeed"@);
        lemma_not_text("cameraGroundSmoothSpeed"@);
        reveal_strlit("7.5");
        lemma_a_point_makes_a_number("7.5"@, 1);
    }
    assert(row_sound(site, rows[12])) by {
        reveal_strlit("cameraTerrainTiltTimeMin");
        reveal_strlit("cameraterraintilttimemin");
        assert(lower("cameraTerrainTiltTimeMin"@) =~= "cameraterraintilttimemin"@);
        lemma_not_text("cameraTerrainTiltTimeMin"@);
        reveal_strlit("3");
        lemma_digits_are_a_number("3"@);
    }
    assert(row_sound(site, rows[13])) by {
        reveal_strlit("cameraTerrainTiltTimeMax");
        reveal_strlit("cameraterraintilttimemax");
        assert(lower("cameraTerrainTiltTimeMax"@) =~= "cameraterraintilttimemax"@);
        lemma_not_text("cameraTerrainTiltTimeMax"@);
        reveal_strlit("10");
        lemma_digits_are_a_number("10"@);
    }
}

proof fn lemma_interface_rows(site: SiteRows)
    ensures
        rows_sound(site, interface_rows()),
{
    let rows = interface_rows();
    assert(row_sound(site, rows[0])) by {
        reveal_strlit("cameraBobbing");
        reveal_strlit("camerabobbing");
        assert(lower("cameraBobbing"@) =~= "camerabobbing"@);
        lemma_not_text("cameraBobbing"@);
        reveal_strlit("0");
        lemma_digits_are_a_number("0"@);
    }
    assert(row_sound(site, rows[1])) by {
        reveal_strlit("cameraBobbingLRAmplitude");
        reveal_strlit("camerabobbinglramplitude");
        assert(lower("cameraBobbingLRAmplitude"@) =~= "camerabobbinglramplitude"@);
        lemma_not_text("cameraBobbingLRAmplitude"@);
        reveal_strlit("2");
        lemma_digits_are_a_number("2"@);
    }
    assert(row_sound(site, rows[2])) by {
        reveal_strlit("cameraBobbingUDAmplitude");
        reveal_strlit("camerabobbingudamplitude");
        assert(lower("cameraBobbingUDAmplitude"@) =~= "camerabobbingudamplitude"@);
        lemma_not_text("cameraBobbingUDAmplitude"@);
        reveal_strlit("2");
        lemma_digits_are_a_number("2"@);
    }
    assert(row_sound(site, rows[3])) by {
        reveal_strlit("cameraBobbingFrequency");
        reveal_strlit("camerabobbingfrequency");
        assert(lower("cameraBobbingFrequency"@) =~= "camerabobbingfrequency"@);
        lemma_not_text("cameraBobbingFrequency"@);
        reveal_strlit("0.8");
        lemma_a_point_makes_a_number("0.8"@, 1);
    }
    assert(row_sound(site, rows[4])) by {
        reveal_strlit("cameraBobbingSmoothSpeed");
        reveal_strlit("camerabobbingsmoothspeed");
        assert(lower("cameraBobbingSmoothSpeed"@) =~= "camerabobbingsmoothspeed"@);
        lemma_not_text("cameraBobbingSmoothSpeed"@);
        reveal_strlit("0.8");
        lemma_a_point_makes_a_number("0.8"@, 1);
    }
    assert(row_sound(site, rows[5])) by {
        reveal_strlit("statusBarText");
        reveal_strlit("statusbartext");
        assert(lower("statusBarText"@) =~= "statusbartext"@);
        lemma_not_text("statusBarText"@);
        reveal_strlit("0");
        lemma_digits_are_a_number("0"@);
    }
    assert(row_sound(site, rows[6])) by {
        reveal_strlit("UberTooltips");
        reveal_strlit("ubertooltips");
        assert(lower("UberTooltips"@) =~= "ubertooltips"@);
        lemma_not_text("UberTooltips"@);
        reveal_strlit("1");
        lemma_digits_are_a_number("1"@);
    }
    assert(row_sound(site, rows[7])) by {
        reveal_strlit("ChatBubbles");
        reveal_strlit("chatbubbles");
        assert(lower("ChatBubbles"@) =~= "chatbubbles"@);
        lemma_not_text("ChatBubbles"@);
        reveal_strlit("1");
        lemma_digits_are_a_number("1"@);
    }
    assert(row_sound(site, rows[8])) by {
        reveal_strlit("ChatBubblesParty");
        reveal_strlit("chatbubblesparty");
        assert(lower("ChatBubblesParty"@) =~= "chatbubblesparty"@);
        lemma_not_text("ChatBubblesParty"@);
        reveal_strlit("0");
        lemma_digits_are_a_number("0"@);
    }
    assert(row_sound(site, rows[9])) by {
        reveal_strlit("profanityFilter");
        reveal_strlit("profanityfilter");
        assert(lower("profanityFilter"@) =~= "profanityfilter"@);
        lemma_not_text("profanityFilter"@);
        reveal_strlit("1");
        lemma_digits_are_a_number("1"@);
    }
    assert(row_sound(site, rows[10])) by {
        reveal_strlit("spamFilter");
        reveal_strlit("spamfilter");
        assert(lower("spamFilter"@) =~= "spamfilter"@);
        lemma_not_text("spamFilter"@);
        reveal_strlit("1");
        lemma_digits_are_a_number("1"@);
    }
    assert(row_sound(site, rows[11])) by {
        reveal_strlit("gameTip");
        reveal_strlit("gametip");
        assert(lower("gameTip"@) =~= "gametip"@);
        lemma_not_text("gameTip"@);
        reveal_strlit("0");
        lemma_digits_are_a_number("0"@);
    }
    assert(row_sound(site, rows[12])) by {
        reveal_strlit("showGameTips");
        reveal_strlit("showgametips");
        assert(lower("showGameTips"@) =~= "showgametips"@);
        lemma_not_text("showGameTips"@);
        reveal_strlit("1");
        lemma_digits_are_a_number("1"@);
    }
    assert(row_sound(site, rows[13])) by {
        reveal_strlit("showLootSpam");
        reveal_strlit("showlootspam");
        assert(lower("showLootSpam"@) =~= "showlootspam"@);
        lemma_not_text("showLootSpam"@);
        reveal_strlit("1");
        lemma_digits_are_a_number("1"@);
    }
}

proof fn lemma_shadow_rows(site: SiteRows)
    ensures
        rows_sound(site, shadow_rows()),
{
    let rows = shadow_rows();
    assert(row_sound(site, rows[0])) by {
        reveal_strlit("guildMemberNotify");
        reveal_strlit("guildmembernotify");
        assert(lower("guildMemberNotify"@) =~= "guildmembernotify"@);
        lemma_not_text("guildMemberNotify"@);
        reveal_strlit("0");
        lemma_digits_are_a_number("0"@);
    }
    assert(row_sound(site, rows[1])) by {
        reveal_strlit("minimapZoom");
        reveal_strlit("minimapzoom");
        assert(lower("minimapZoom"@) =~= "minimapzoom"@);
        lemma_not_text("minimapZoom"@);
        reveal_strlit("3");
        lemma_digits_are_a_number("3"@);
    }
    assert(row_sound(site, rows[2])) by {
        reveal_strlit("minimapInsideZoom");
        reveal_strlit("minimapinsidezoom");
        assert(lower("minimapInsideZoom"@) =~= "minimapinsidezoom"@);
        lemma_not_text("minimapInsideZoom"@);
        reveal_strlit("3");
        lemma_digits_are_a_number("3"@);
    }
    assert(row_sound(site, rows[3])) by {
        reveal_strlit("checkAddonVersion");
        reveal_strlit("checkaddonversion");
        assert(lower("checkAddonVersion"@) =~= "checkaddonversion"@);
        lemma_not_text("checkAddonVersion"@);
        reveal_strlit("1");
        lemma_digits_are_a_number("1"@);
    }
    assert(row_sound(site, rows[4])) by {
        reveal_strlit("gxApi");
        reveal_strlit("gxapi");
        assert(lower("gxApi"@) =~= "gxapi"@);
        reveal_strlit("");
        lemma_nothing_is_no_number(""@);
    }
    assert(row_sound(site, rows[5])) by {
        reveal_strlit("gxVSync");
        reveal_strlit("gxvsync");
        assert(lower("gxVSync"@) =~= "gxvsync"@);
        lemma_not_text("gxVSync"@);
        reveal_strlit("1");
        lemma_digits_are_a_number("1"@);
    }
    assert(row_sound(site, rows[6])) by {
        reveal_strlit("worldShadows");
        reveal_strlit("worldshadows");
        assert(lower("worldShadows"@) =~= "worldshadows"@);
        lemma_not_text("worldShadows"@);
        reveal_strlit("1");
        lemma_digits_are_a_number("1"@);
    }
    assert(row_sound(site, rows[7])) by {
        reveal_strlit("characterShadows");
        reveal_strlit("charactershadows");
        assert(lower("characterShadows"@) =~= "charactershadows"@);
        lemma_not_text("characterShadows"@);
        reveal_strlit("1");
        lemma_digits_are_a_number("1"@);
    }
    assert(row_sound(site, rows[8])) by {
        reveal_strlit("shadowDistance");
        reveal_strlit("shadowdistance");
        assert(lower("shadowDistance"@) =~= "shadowdistance"@);
        lemma_not_text("shadowDistance"@);
        reveal_strlit("80");
        lemma_digits_are_a_number("80"@);
    }
    assert(row_sound(site, rows[9])) by {
        reveal_strlit("shadowMapSize");
        reveal_strlit("shadowmapsize");
        assert(lower("shadowMapSize"@) =~= "shadowmapsize"@);
        lemma_not_text("shadowMapSize"@);
        reveal_strlit("2048");
        lemma_digits_are_a_number("2048"@);
    }
    assert(row_sound(site, rows[10])) by {
        reveal_strlit("shadowFilter");
        reveal_strlit("shadowfilter");
        assert(lower("shadowFilter"@) =~= "shadowfilter"@);
        lemma_not_text("shadowFilter"@);
        reveal_strlit("1");
        lemma_digits_are_a_number("1"@);
    }
    assert(row_sound(site, rows[11])) by {
        reveal_strlit("characterShadowRate");
        reveal_strlit("charactershadowrate");
        assert(lower("characterShadowRate"@) =~= "charactershadowrate"@);
        lemma_not_text("characterShadowRate"@);
        reveal_strlit("30");
        lemma_digits_are_a_number("30"@);
    }
    assert(row_sound(site, rows[12])) by {
        reveal_strlit("worldShadowRate");
        reveal_strlit("worldshadowrate");
        assert(lower("worldShadowRate"@) =~= "worldshadowrate"@);
        lemma_not_text("worldShadowRate"@);
        reveal_strlit("30");
        lemma_digits_are_a_number("30"@);
    }
    assert(row_sound(site, rows[13])) by {
        reveal_strlit("shadowCasterReach");
        reveal_strlit("shadowcasterreach");
        assert(lower("shadowCasterReach"@) =~= "shadowcasterreach"@);
        lemma_not_text("shadowCasterReach"@);
        reveal_strlit("1");
        lemma_digits_are_a_number("1"@);
    }
}

proof fn lemma_interior_rows(site: SiteRows)
    ensures
        rows_sound(site, interior_rows()),
{
    let rows = interior_rows();
    assert(row_sound(site, rows[0])) by {
        reveal_strlit("interiorLight");
        reveal_strlit("interiorlight");
        assert(lower("interiorLight"@) =~= "interiorlight"@);
        lemma_not_text("interiorLight"@);
        reveal_strlit("1");
        lemma_digits_are_a_number("1"@);
    }
    assert(row_sound(site, rows[1])) by {
        reveal_strlit("interiorAmbient");
        reveal_strlit("interiorambient");
        assert(lower("interiorAmbient"@) =~= "interiorambient"@);
        lemma_not_text("interiorAmbient"@);
        reveal_strlit("0.015");
        lemma_a_point_makes_a_number("0.015"@, 1);
    }
    assert(row_sound(site, rows[2])) by {
        reveal_strlit("interiorFill");
        reveal_strlit("interiorfill");
        assert(lower("interiorFill"@) =~= "interiorfill"@);
        lemma_not_text("interiorFill"@);
        reveal_strlit("0.08");
        lemma_a_point_makes_a_number("0.08"@, 1);
    }
    assert(row_sound(site, rows[3])) by {
        reveal_strlit("interiorExposure");
        reveal_strlit("interiorexposure");
        assert(lower("interiorExposure"@) =~= "interiorexposure"@);
        lemma_not_text("interiorExposure"@);
        reveal_strlit("2.5");
        lemma_a_point_makes_a_number("2.5"@, 1);
    }
    assert(row_sound(site, rows[4])) by {
        reveal_strlit("interiorAttenScale");
        reveal_strlit("interiorattenscale");
        assert(lower("interiorAttenScale"@) =~= "interiorattenscale"@);
        lemma_not_text("interiorAttenScale"@);
        reveal_strlit("1.6");
        lemma_a_point_makes_a_number("1.6"@, 1);
    }
    assert(row_sound(site, rows[5])) by {
        reveal_strlit("interiorRoomGate");
        reveal_strlit("interiorroomgate");
        assert(lower("interiorRoomGate"@) =~= "interiorroomgate"@);
        lemma_not_text("interiorRoomGate"@);
        reveal_strlit("1");
        lemma_digits_are_a_number("1"@);
    }
    assert(row_sound(site, rows[6])) by {
        reveal_strlit("interiorShadows");
        reveal_strlit("interiorshadows");
        assert(lower("interiorShadows"@) =~= "interiorshadows"@);
        lemma_not_text("interiorShadows"@);
        reveal_strlit("1");
        lemma_digits_are_a_number("1"@);
    }
    assert(row_sound(site, rows[7])) by {
        reveal_strlit("exteriorShadows");
        reveal_strlit("exteriorshadows");
        assert(lower("exteriorShadows"@) =~= "exteriorshadows"@);
        lemma_not_text("exteriorShadows"@);
        reveal_strlit("1");
        lemma_digits_are_a_number("1"@);
    }
    assert(row_sound(site, rows[8])) by {
        reveal_strlit("interiorShadowCasters");
        reveal_strlit("interiorshadowcasters");
        assert(lower("interiorShadowCasters"@) =~= "interiorshadowcasters"@);
        lemma_not_text("interiorShadowCasters"@);
        reveal_strlit("12");
        lemma_digits_are_a_number("12"@);
    }
    assert(row_sound(site, rows[9])) by {
        reveal_strlit("interiorShadowDynamic");
        reveal_strlit("interiorshadowdynamic");
        assert(lower("interiorShadowDynamic"@) =~= "interiorshadowdynamic"@);
        lemma_not_text("interiorShadowDynamic"@);
        reveal_strlit("4");
        lemma_digits_are_a_number("4"@);
    }
    assert(row_sound(site, rows[10])) by {
        reveal_strlit("interiorShadowEntityRate");
        reveal_strlit("interiorshadowentityrate");
        assert(lower("interiorShadowEntityRate"@) =~= "interiorshadowentityrate"@);
        lemma_not_text("interiorShadowEntityRate"@);
        reveal_strlit("30");
        lemma_digits_are_a_number("30"@);
    }
    assert(row_sound(site, rows[11])) by {
        reveal_strlit("interiorShadowSoft");
        reveal_strlit("interiorshadowsoft");
        assert(lower("interiorShadowSoft"@) =~= "interiorshadowsoft"@);
        lemma_not_text("interiorShadowSoft"@);
        reveal_strlit("1.5");
        lemma_a_point_makes_a_number("1.5"@, 1);
    }
    assert(row_sound(site, rows[12])) by {
        reveal_strlit("torchShadowStrength");
        reveal_strlit("torchshadowstrength");
        assert(lower("torchShadowStrength"@) =~= "torchshadowstrength"@);
        lemma_not_text("torchShadowStrength"@);
        reveal_strlit("0.7");
        lemma_a_point_makes_a_number("0.7"@, 1);
    }
    assert(row_sound(site, rows[13])) by {
        reveal_strlit("interiorDebug");
        reveal_strlit("interiordebug");
        assert(lower("interiorDebug"@) =~= "interiordebug"@);
        lemma_not_text("interiorDebug"@);
        reveal_strlit("0");
        lemma_digits_are_a_number("0"@);
    }
}

proof fn lemma_gains_and_window_rows(site: SiteRows)
    ensures
        rows_sound(site, gains_and_window_rows()),
{
    let rows = gains_and_window_rows();
    assert(row_sound(site, rows[0])) by {
        reveal_strlit("nightGain");
        reveal_strlit("nightgain");
        assert(lower("nightGain"@) =~= "nightgain"@);
        lemma_not_text("nightGain"@);
        reveal_strlit("0.45");
        lemma_a_point_makes_a_number("0.45"@, 1);
    }
    assert(row_sound(site, rows[1])) by {
        reveal_strlit("interiorGain");
        reveal_strlit("interiorgain");
        assert(lower("interiorGain"@) =~= "interiorgain"@);
        lemma_not_text("interiorGain"@);
        reveal_strlit("0.5");
        lemma_a_point_makes_a_number("0.5"@, 1);
    }
    assert(row_sound(site, rows[2])) by {
        reveal_strlit("interiorDaylight");
        reveal_strlit("interiordaylight");
        assert(lower("interiorDaylight"@) =~= "interiordaylight"@);
        lemma_not_text("interiorDaylight"@);
        reveal_strlit("0.0");
        lemma_a_point_makes_a_number("0.0"@, 1);
    }
    assert(row_sound(site, rows[3])) by {
        reveal_strlit("interiorBakeFloor");
        reveal_strlit("interiorbakefloor");
        assert(lower("interiorBakeFloor"@) =~= "interiorbakefloor"@);
        lemma_not_text("interiorBakeFloor"@);
        reveal_strlit("0.12");
        lemma_a_point_makes_a_number("0.12"@, 1);
    }
    assert(row_sound(site, rows[4])) by {
        reveal_strlit("fireLightGain");
        reveal_strlit("firelightgain");
        assert(lower("fireLightGain"@) =~= "firelightgain"@);
        lemma_not_text("fireLightGain"@);
        reveal_strlit("1");
        lemma_digits_are_a_number("1"@);
    }
    assert(row_sound(site, rows[5])) by {
        reveal_strlit("spellLightGain");
        reveal_strlit("spelllightgain");
        assert(lower("spellLightGain"@) =~= "spelllightgain"@);
        lemma_not_text("spellLightGain"@);
        reveal_strlit("1");
        lemma_digits_are_a_number("1"@);
    }
    assert(row_sound(site, rows[6])) by {
        reveal_strlit("fireFlicker");
        reveal_strlit("fireflicker");
        assert(lower("fireFlicker"@) =~= "fireflicker"@);
        lemma_not_text("fireFlicker"@);
        reveal_strlit("1");
        lemma_digits_are_a_number("1"@);
    }
    assert(row_sound(site, rows[7])) by {
        reveal_strlit("gxWindow");
        reveal_strlit("gxwindow");
        assert(lower("gxWindow"@) =~= "gxwindow"@);
        lemma_not_text("gxWindow"@);
        reveal_strlit("0");
        lemma_digits_are_a_number("0"@);
    }
    assert(row_sound(site, rows[8])) by {
        reveal_strlit("gxResolution");
        reveal_strlit("gxresolution");
        assert(lower("gxResolution"@) =~= "gxresolution"@);
        reveal_strlit("1600x900");
        lemma_no_number("1600x900"@, 4);
    }
    assert(row_sound(site, rows[9])) by {
        reveal_strlit("boothHalfRate");
        reveal_strlit("boothhalfrate");
        assert(lower("boothHalfRate"@) =~= "boothhalfrate"@);
        lemma_not_text("boothHalfRate"@);
        reveal_strlit("1");
        lemma_digits_are_a_number("1"@);
    }
    assert(row_sound(site, rows[10])) by {
        reveal_strlit("gxMultisample");
        reveal_strlit("gxmultisample");
        assert(lower("gxMultisample"@) =~= "gxmultisample"@);
        lemma_not_text("gxMultisample"@);
        reveal_strlit("1");
        lemma_digits_are_a_number("1"@);
    }
    assert(row_sound(site, rows[11])) by {
        reveal_strlit("gxColorBits");
        reveal_strlit("gxcolorbits");
        assert(lower("gxColorBits"@) =~= "gxcolorbits"@);
        lemma_not_text("gxColorBits"@);
        reveal_strlit("32");
        lemma_digits_are_a_number("32"@);
    }
    assert(row_sound(site, rows[12])) by {
        reveal_strlit("gxDepthBits");
        reveal_strlit("gxdepthbits");
        assert(lower("gxDepthBits"@) =~= "gxdepthbits"@);
        lemma_not_text("gxDepthBits"@);
        reveal_strlit("32");
        lemma_digits_are_a_number("32"@);
    }
    assert(row_sound(site, rows[13])) by {
        reveal_strlit("trilinear");
        assert(lower("trilinear"@) =~= "trilinear"@);
        lemma_not_text("trilinear"@);
        reveal_strlit("1");
        lemma_digits_are_a_number("1"@);
    }
}

proof fn lemma_sampling_rows(site: SiteRows)
    ensures
        rows_sound(site, sampling_rows()),
{
    let rows = sampling_rows();
    assert(row_sound(site, rows[0])) by {
        reveal_strlit("anisotropic");
        assert(lower("anisotropic"@) =~= "anisotropic"@);
        lemma_not_text("anisotropic"@);
        reveal_strlit("1");
        lemma_digits_are_a_number("1"@);
    }
    assert(row_sound(site, rows[1])) by {
        reveal_strlit("weatherDensity");
        reveal_strlit("weatherdensity");
        assert(lower("weatherDensity"@) =~= "weatherdensity"@);
        lemma_not_text("weatherDensity"@);
        reveal_strlit("3");
        lemma_digits_are_a_number("3"@);
    }
    assert(row_sound(site, rows[2])) by {
        reveal_strlit("gamma");
        assert(lower("gamma"@) =~= "gamma"@);
        lemma_not_text("gamma"@);
        reveal_strlit("1.000000");
        lemma_a_point_makes_a_number("1.000000"@, 1);
    }
    assert(row_sound(site, rows[3])) by {
        reveal_strlit("renderScale");
        reveal_strlit("renderscale");
        assert(lower("renderScale"@) =~= "renderscale"@);
        lemma_not_text("renderScale"@);
        reveal_strlit("1");
        lemma_digits_are_a_number("1"@);
    }
    assert(row_sound(site, rows[4])) by {
        reveal_strlit("fpsJournal");
        reveal_strlit("fpsjournal");
        assert(lower("fpsJournal"@) =~= "fpsjournal"@);
        lemma_not_text("fpsJournal"@);
        reveal_strlit("0");
        lemma_digits_are_a_number("0"@);
    }
    assert(row_sound(site, rows[5])) by {
        reveal_strlit("lastCharacterIndex");
        reveal_strlit("lastcharacterindex");
        assert(lower("lastCharacterIndex"@) =~= "lastcharacterindex"@);
        lemma_not_text("lastCharacterIndex"@);
        reveal_strlit("0");
        lemma_digits_are_a_number("0"@);
    }
}

proof fn lemma_view_rows(site: SiteRows)
    ensures
        rows_sound(site, view_rows(site)),
{
    let rows = view_rows(site);
    assert forall|i: int| 0 <= i < rows.len() implies row_sound(site, #[trigger] rows[i]) by {
        assert(names_key(rows, lower(rows[i].name@)));
    }
}

proof fn lemma_together(site: SiteRows, a: Seq<Registered>, b: Seq<Registered>)
    requires
        rows_sound(site, a),
        rows_sound(site, b),
    ensures
        rows_sound(site, a + b),
{
    assert forall|i: int| 0 <= i < (a + b).len() implies row_sound(site, #[trigger] (a + b)[i]) by {
        if i < a.len() {
            assert((a + b)[i] == a[i]);
        } else {
            assert((a + b)[i] == b[i - a.len()]);
        }
    }
}

proof fn lemma_registered_rows(site: SiteRows)
    ensures
        rows_sound(site, registered_rows(site)),
{
    lemma_account_and_sound_rows(site);
    lemma_view_and_click_rows(site);
    lemma_view_rows(site);
    lemma_names_rows(site);
    lemma_combat_rows(site);
    lemma_camera_rows(site);
    lemma_interface_rows(site);
    lemma_shadow_rows(site);
    lemma_interior_rows(site);
    lemma_gains_and_window_rows(site);
    lemma_sampling_rows(site);
    let all = account_and_sound_rows();
    lemma_together(site, all, view_and_click_rows());
    let all = all + view_and_click_rows();
    lemma_together(site, all, view_rows(site));
    let all = all + view_rows(site);
    lemma_together(site, all, names_rows());
    let all = all + names_rows();
    lemma_together(site, all, combat_rows(site));
    let all = all + combat_rows(site);
    lemma_together(site, all, camera_rows());
    let all = all + camera_rows();
    lemma_together(site, all, interface_rows());
    let all = all + interface_rows();
    lemma_together(site, all, shadow_rows());
    let all = all + shadow_rows();
    lemma_together(site, all, interior_rows());
    let all = all + interior_rows();
    lemma_together(site, all, gains_and_window_rows());
    let all = all + gains_and_window_rows();
    lemma_together(site, all, sampling_rows());
    let all = all + sampling_rows();
    assert(all == registered_rows(site));
}

/// A write of a registered setting is taken, under any case of its name and whatever the value
/// reads as, also where no knob stands behind it: so it reaches the file. `reading` says of the
/// saved views' and the display ranges' names that they are theirs.
pub proof fn every_registered_setting_is_taken(
    site: SiteRows,
    i: int,
    name: Seq<char>,
    k: Knobs,
    reading: Reading,
    limits: Limits,
)
    requires
        0 <= i < registered_rows(site).len(),
        lower(name) == lower(registered_rows(site)[i].name@),
        knows_site(site, lower(name), reading),
    ensures
        after_write(k, name, reading, limits) is Some,
{
    lemma_registered_rows(site);
    assert(row_sound(site, registered_rows(site)[i]));
    a_write_is_taken_by_name(k, name, reading, limits);
}

/// A drain in which one change names a registered setting makes the file due for a save.
pub proof fn a_registered_change_is_saved(
    site: SiteRows,
    i: int,
    start: Knobs,
    changes: Seq<(String, Reading)>,
    c: int,
    limits: Limits,
    n: int,
)
    requires
        0 <= i < registered_rows(site).len(),
        0 <= c < n <= changes.len(),
        lower(changes[c].0@) == lower(registered_rows(site)[i].name@),
        knows_site(site, lower(changes[c].0@), changes[c].1),
    ensures
        some_taken(start, changes, limits, n),
    decreases n,
{
    if c == n - 1 {
        every_registered_setting_is_taken(
            site,
            i,
            changes[c].0@,
            synced_knobs(start, changes, limits, c),
            changes[c].1,
            limits,
        );
    } else {
        a_registered_change_is_saved(site, i, start, changes, c, limits, n - 1);
    }
}

/// The two ground cover settings are the scene's and no one else's.
pub(crate) proof fn lemma_ground_cover_is_the_scenes(key: Seq<char>)
    requires
        key == "worlddetail"@ || key == "frilldensity"@,
    ensures
        !string_valued(key),
        !sound_setting(key),
        !view_setting(key),
        !look_setting(key),
        !follow_setting(key),
        !damage_text_setting(key),
        !names_setting(key),
        !camera_opts_setting(key),
        !interface_setting(key),
{
    reveal_strlit("worlddetail");
    reveal_strlit("frilldensity");
    assert(key[0] == 'w' || (key[0] == 'f' && key.len() == 12));
    assert(!string_valued(key)) by {
        reveal_strlit("gxapi");
        reveal_strlit("gxresolution");
        reveal_strlit("realmlist");
        reveal_strlit("realmname");
    }
    assert(!sound_setting(key)) by {
        reveal_strlit("mastervolume");
        reveal_strlit("soundvolume");
        reveal_strlit("musicvolume");
        reveal_strlit("ambiencevolume");
        reveal_strlit("mastersoundeffects");
        reveal_strlit("enablemusic");
        reveal_strlit("enableambience");
        reveal_strlit("enableerrorspeech");
        reveal_strlit("sound_enablesoundwhengameisinbg");
        reveal_strlit("soundreverb");
        reveal_strlit("soundoutputlimiter");
        reveal_strlit("soundlisteneratcharacter");
        reveal_strlit("emotesounds");
        reveal_strlit("soundzonemusicnodelay");
    }
    assert(!view_setting(key)) by {
        reveal_strlit("uiscale");
        reveal_strlit("farclip");
        reveal_strlit("nearclip");
        reveal_strlit("deselectonclick");
        reveal_strlit("autoselfcast");
        reveal_strlit("assistattack");
    }
    assert(!look_setting(key)) by {
        reveal_strlit("mouseinvertpitch");
        reveal_strlit("mousespeed");
        reveal_strlit("camerayawmovespeed");
        reveal_strlit("camerapitchmovespeed");
    }
    assert(!follow_setting(key)) by {
        reveal_strlit("cameradistancemaxfactor");
        reveal_strlit("camerasmoothstyle");
        reveal_strlit("camerasmoothtrackingstyle");
        reveal_strlit("camerayawsmoothspeed");
    }
    assert(!damage_text_setting(key)) by {
        reveal_strlit("combatdamage");
        reveal_strlit("petmeleedamage");
        reveal_strlit("petspelldamage");
        reveal_strlit("combatlogperiodicspells");
    }
    assert(!names_setting(key)) by {
        reveal_strlit("autolootdefault");
        reveal_strlit("unitnameplayer");
        reveal_strlit("unitnamenpc");
        reveal_strlit("unitnameown");
        reveal_strlit("unitnameplayerguild");
        reveal_strlit("nameplateshowenemies");
        reveal_strlit("nameplateshowfriends");
        reveal_strlit("showlootspam");
    }
    assert(!camera_opts_setting(key)) by {
        reveal_strlit("camerapivot");
        reveal_strlit("camerawatercollision");
        reveal_strlit("camerapivotdxmax");
        reveal_strlit("camerapivotdymin");
        reveal_strlit("cameratargetsmoothspeed");
        reveal_strlit("cameraterraintilt");
        reveal_strlit("cameragroundsmoothspeed");
        reveal_strlit("cameraterraintilttimemin");
        reveal_strlit("cameraterraintilttimemax");
        reveal_strlit("camerabobbing");
        reveal_strlit("camerabobbinglramplitude");
        reveal_strlit("camerabobbingudamplitude");
        reveal_strlit("camerabobbingfrequency");
        reveal_strlit("camerabobbingsmoothspeed");
    }
    assert(!interface_setting(key)) by {
        reveal_strlit("statusbartext");
        reveal_strlit("ubertooltips");
        reveal_strlit("checkaddonversion");
        reveal_strlit("lastcharacterindex");
        reveal_strlit("autoclearafk");
        reveal_strlit("soundbuffersize");
        reveal_strlit("useuiscale");
        reveal_strlit("gxcolorbits");
        reveal_strlit("gxdepthbits");
        reveal_strlit("showgametips");
        reveal_strlit("gametip");
        reveal_strlit("profanityfilter");
        reveal_strlit("spamfilter");
        reveal_strlit("chatbubbles");
        reveal_strlit("chatbubblesparty");
        reveal_strlit("guildmembernotify");
        reveal_strlit("blocktrades");
    }
}

/// The settings that take a text, which are claimed before any number is read, are exactly the
/// registered ones whose default reads as no number.
pub proof fn text_valued_exactly_where_the_default_is_no_number(site: SiteRows, i: int)
    requires
        site_takes_numbers(site),
        0 <= i < registered_rows(site).len(),
    ensures
        string_valued(lower(registered_rows(site)[i].name@)) <==> !number_shaped(registered_rows(site)[i].default@),
{
    lemma_registered_rows(site);
    assert(row_sound(site, registered_rows(site)[i]));
}

} // verus!
