//! What a written setting does: it moves the one knob it names, by a rule of that knob's, and
//! leaves every other as it was.
use crate::cvars::knobs::{
    after_camera_opts, after_damage_text, after_display, after_follow, after_gains,
    after_interface, after_interior, after_look, after_names, after_number, after_scene,
    after_shadow, after_sound, after_text, after_view, apply_to_knobs, held, string_valued, zoom_level,
    CameraOptions, ClutterDensity, DamageTextGates, DisplayConfig, DisplayMode, FollowConfig,
    InterfaceConfig, InteriorConfig, Knobs, LightGains, Limits, LookConfig, NameConfig, Reading,
    SceneConfig, ShadowConfig, SoundConfig, ViewConfig, FIVE_BITS,
};
use crate::cvars::row_laws::{
    a_write_is_taken_by_name, camera_opts_setting, damage_text_setting, display_setting,
    follow_setting, gains_setting, interface_setting, interior_setting, knob_key, look_setting,
    names_setting, scene_setting, shadow_setting, sound_setting, view_setting,
};
use crate::shadow::quality::nearest_rung;
use crate::single::{lemma_whole, whole_part_grows, Single, ZERO_BITS};
use crate::text::lower;
use vstd::arithmetic::div_mod::lemma_fundamental_div_mod;
use vstd::arithmetic::power2::{lemma2_to64, lemma_pow2_pos, pow2};
use vstd::prelude::*;

verus! {

/// `r` is `v` where that lies between the two ends, the nearer end where it does not, and `v`
/// again where it is no number.
pub open spec fn held_between(v: Single, low: Single, high: Single, r: Single) -> bool {
    &&& v.below(low) ==> r == low
    &&& high.below(v) ==> r == high
    &&& !v.below(low) && !high.below(v) ==> r == v
}

/// `r` is `v` held between the numbers of two bit patterns.
pub open spec fn number_held(v: Single, low: u32, high: u32, r: Single) -> bool {
    held_between(v, Single { bits: low }, Single { bits: high }, r)
}

/// `after` is `v` where that lies between the numbers of two bit patterns, and else what stood
/// there before.
pub open spec fn taken_within(v: Single, low: u32, high: u32, before: Single, after: Single) -> bool {
    let inside = (Single { bits: low }).at_most(v) && v.at_most(Single { bits: high });
    &&& inside ==> after == v
    &&& !inside ==> after == before
}

/// A switch that `v` was written to is off where `v` is one of the two zeros, and else on.
pub open spec fn switched(v: Single, on: bool) -> bool {
    on <==> v.bits != 0 && v.bits != 0x8000_0000
}

/// `n` is the whole part of `v` held between two counts: what is no number, and what is below
/// zero, counts as nothing.
pub open spec fn counted(v: Single, low: int, high: int, n: int) -> bool {
    &&& low <= n <= high
    &&& n > low ==> !v.not_a_number() && !v.negative() && n * pow2(149) <= v.units()
    &&& n < high ==> v.not_a_number() || v.negative() || v.units() < (n + 1) * pow2(149)
}

/// `n` is the whole part of `v` with its sign, as far as 64 bits hold it, and zero for what is no
/// number.
pub open spec fn integer_of(v: Single, n: int) -> bool {
    &&& v.not_a_number() ==> n == 0
    &&& !v.not_a_number() && !v.negative() ==> 0 <= n <= i64::MAX && n * pow2(149) <= v.units() && (n < i64::MAX
        ==> v.units() < (n + 1) * pow2(149))
    &&& !v.not_a_number() && v.negative() ==> i64::MIN <= n <= 0 && -n * pow2(149) <= v.units() && (n > i64::MIN
        ==> v.units() < (1 - n) * pow2(149))
}

/// The size is the one of 1024, 2048 and 4096 that lies nearest in ratio to what was asked for.
pub open spec fn sized(asked: int, size: int) -> bool {
    &&& size == 1024 || size == 2048 || size == 4096
    &&& size < 2048 ==> asked * asked < size * 2048
    &&& size < 4096 ==> asked * asked < size * 4096
    &&& size > 1024 ==> 1024 * size <= asked * asked
    &&& size > 2048 ==> 2048 * size <= asked * asked
}

proof fn lemma_held(v: Single, low: Single, high: Single)
    requires
        low.at_most(high),
    ensures
        held_between(v, low, high, v.clamped(low, high)),
{
    reveal(Single::clamped);
}

proof fn lemma_switched(v: Single)
    ensures
        switched(v, v.nonzero()),
{
    reveal(Single::nonzero);
}

proof fn lemma_whole_part(v: Single)
    ensures
        v.whole_part() * pow2(149) <= v.units() < (v.whole_part() + 1) * pow2(149),
{
    lemma_pow2_pos(149);
    let p = pow2(149) as int;
    let u = v.units() as int;
    lemma_fundamental_div_mod(u, p);
    let n = u / p;
    assert(n * p <= u < (n + 1) * p) by (nonlinear_arith)
        requires
            u == p * n + u % p,
            0 <= u % p < p,
    ;
}

proof fn lemma_counted(v: Single, low: int, high: int, limit: int)
    requires
        0 <= low <= high <= limit,
    ensures
        counted(v, low, high, held(v.count(limit), low, high)),
{
    reveal(Single::count);
    lemma_whole_part(v);
    lemma_pow2_pos(149);
    let p = pow2(149) as int;
    let u = v.units() as int;
    let w = v.whole_part() as int;
    let n = held(v.count(limit), low, high);
    assert(n <= w ==> n * p <= w * p) by (nonlinear_arith)
        requires
            p > 0,
    ;
    assert(w <= n ==> (w + 1) * p <= (n + 1) * p) by (nonlinear_arith)
        requires
            p > 0,
    ;
}

proof fn lemma_integer(v: Single)
    ensures
        integer_of(v, v.integer()),
{
    reveal(Single::integer);
    lemma_whole_part(v);
    lemma_pow2_pos(149);
    let p = pow2(149) as int;
    let w = v.whole_part() as int;
    let n = v.integer();
    assert(n <= w ==> n * p <= w * p) by (nonlinear_arith)
        requires
            p > 0,
    ;
    assert(-n <= w ==> -n * p <= w * p) by (nonlinear_arith)
        requires
            p > 0,
    ;
    assert(n == w ==> (w + 1) * p == (n + 1) * p);
    assert(-n == w ==> (w + 1) * p == (1 - n) * p);
}

proof fn lemma_zoom(v: Single)
    ensures
        counted(v, 0, 5, zoom_level(v)),
{
    reveal(Single::clamped);
    reveal(Single::count);
    lemma2_to64();
    let zero = Single { bits: ZERO_BITS };
    let five = Single { bits: FIVE_BITS };
    lemma_whole(five, 5, 129);
    let inside = v.clamped(zero, five);
    lemma_counted(inside, 0, 255, 255);
    lemma_pow2_pos(149);
    let p = pow2(149) as int;
    let n = zoom_level(v);
    assert(n == held(inside.count(255), 0, 255));
    if !inside.not_a_number() && !inside.negative() {
        whole_part_grows(inside, five);
        if n > 0 {
            assert(n <= 5) by (nonlinear_arith)
                requires
                    n * p <= 5 * p,
                    p > 0,
            ;
        }
        if five.below(v) {
            whole_part_grows(five, v);
            assert(n >= 5) by (nonlinear_arith)
                requires
                    n == 255 || 5 * p < (n + 1) * p,
                    p > 0,
            ;
        }
    }
}

proof fn lemma_sized(asked: int)
    ensures
        sized(asked, nearest_rung(asked)),
{
    assert(1024int * 2048int == 2_097_152 && 2048int * 4096int == 8_388_608 && 1024int * 4096int == 4_194_304)
        by (nonlinear_arith);
}

/// A number by which the names of the settings are told apart.
#[verifier::opaque]
spec fn tag(key: Seq<char>) -> int {
    30 * key.len() + 39 * (key[0] as int) + 35 * (key[key.len() - 2] as int) + 25 * (key[key.len() as int / 2] as int)
        + 3 * (key[key.len() as int / 2 + 1] as int)
}

proof fn lemma_text_tags(key: Seq<char>)
    ensures
        key == "gxapi"@ ==> tag(key) == 10848,
        key == "gxresolution"@ ==> tag(key) == 11313,
        key == "realmlist"@ ==> tag(key) == 11790,
        key == "realmname"@ ==> tag(key) == 11586,
{
    reveal(tag);
    reveal_strlit("gxapi");
    reveal_strlit("gxresolution");
    reveal_strlit("realmlist");
    reveal_strlit("realmname");
}

proof fn lemma_sound_tags(key: Seq<char>)
    ensures
        key == "mastervolume"@ ==> tag(key) == 11709,
        key == "soundvolume"@ ==> tag(key) == 11913,
        key == "musicvolume"@ ==> tag(key) == 11679,
        key == "ambiencevolume"@ ==> tag(key) == 10897,
        key == "mastersoundeffects"@ ==> tag(key) == 11901,
        key == "enablemusic"@ ==> tag(key) == 10796,
        key == "enableambience"@ ==> tag(key) == 10843,
        key == "enableerrorspeech"@ ==> tag(key) == 11097,
        key == "sound_enablesoundwhengameisinbg"@ ==> tag(key) == 11895,
        key == "soundreverb"@ ==> tag(key) == 11958,
        key == "soundoutputlimiter"@ ==> tag(key) == 11833,
        key == "soundlisteneratcharacter"@ ==> tag(key) == 11881,
        key == "emotesounds"@ ==> tag(key) == 10977,
        key == "soundzonemusicnodelay"@ ==> tag(key) == 11780,
{
    reveal(tag);
    reveal_strlit("mastervolume");
    reveal_strlit("soundvolume");
    reveal_strlit("musicvolume");
    reveal_strlit("ambiencevolume");
    reveal_strlit("mastersoundeffects");
    reveal_strlit("enablemusic");
    reveal_strlit("enableambience");
    reveal_strlit("enableerrorspeech");
    reveal_strlit("sound_enablesoundwhengameisinbg");
    reveal_strlit("soundreverb");
    reveal_strlit("soundoutputlimiter");
    reveal_strlit("soundlisteneratcharacter");
    reveal_strlit("emotesounds");
    reveal_strlit("soundzonemusicnodelay");
}

proof fn lemma_view_tags(key: Seq<char>)
    ensures
        key == "uiscale"@ ==> tag(key) == 11319,
        key == "farclip"@ ==> tag(key) == 10662,
        key == "nearclip"@ ==> tag(key) == 11004,
        key == "deselectonclick"@ ==> tag(key) == 11048,
        key == "autoselfcast"@ ==> tag(key) == 11174,
        key == "assistattack"@ ==> tag(key) == 10381,
{
    reveal(tag);
    reveal_strlit("uiscale");
    reveal_strlit("farclip");
    reveal_strlit("nearclip");
    reveal_strlit("deselectonclick");
    reveal_strlit("autoselfcast");
    reveal_strlit("assistattack");
}

proof fn lemma_look_tags(key: Seq<char>)
    ensures
        key == "mouseinvertpitch"@ ==> tag(key) == 11063,
        key == "mousespeed"@ ==> tag(key) == 11297,
        key == "camerayawmovespeed"@ ==> tag(key) == 10994,
        key == "camerapitchmovespeed"@ ==> tag(key) == 10923,
{
    reveal(tag);
    reveal_strlit("mouseinvertpitch");
    reveal_strlit("mousespeed");
    reveal_strlit("camerayawmovespeed");
    reveal_strlit("camerapitchmovespeed");
}

proof fn lemma_follow_tags(key: Seq<char>)
    ensures
        key == "cameradistancemaxfactor"@ ==> tag(key) == 11483,
        key == "camerasmoothstyle"@ ==> tag(key) == 11259,
        key == "camerasmoothtrackingstyle"@ ==> tag(key) == 11633,
        key == "camerayawsmoothspeed"@ ==> tag(key) == 11054,
{
    reveal(tag);
    reveal_strlit("cameradistancemaxfactor");
    reveal_strlit("camerasmoothstyle");
    reveal_strlit("camerasmoothtrackingstyle");
    reveal_strlit("camerayawsmoothspeed");
}

proof fn lemma_damage_text_tags(key: Seq<char>)
    ensures
        key == "combatdamage"@ ==> tag(key) == 10617,
        key == "petmeleedamage"@ ==> tag(key) == 11218,
        key == "petspelldamage"@ ==> tag(key) == 11393,
        key == "combatlogperiodicspells"@ ==> tag(key) == 11496,
{
    reveal(tag);
    reveal_strlit("combatdamage");
    reveal_strlit("petmeleedamage");
    reveal_strlit("petspelldamage");
    reveal_strlit("combatlogperiodicspells");
}

proof fn lemma_names_tags(key: Seq<char>)
    ensures
        key == "autolootdefault"@ ==> tag(key) == 11213,
        key == "unitnameplayer"@ ==> tag(key) == 11379,
        key == "unitnamenpc"@ ==> tag(key) == 11565,
        key == "unitnameown"@ ==> tag(key) == 11810,
        key == "unitnameplayerguild"@ ==> tag(key) == 11904,
        key == "nameplateshowenemies"@ ==> tag(key) == 11358,
        key == "nameplateshowfriends"@ ==> tag(key) == 11323,
        key == "showlootspam"@ ==> tag(key) == 11363,
{
    reveal(tag);
    reveal_strlit("autolootdefault");
    reveal_strlit("unitnameplayer");
    reveal_strlit("unitnamenpc");
    reveal_strlit("unitnameown");
    reveal_strlit("unitnameplayerguild");
    reveal_strlit("nameplateshowenemies");
    reveal_strlit("nameplateshowfriends");
    reveal_strlit("showlootspam");
}

proof fn lemma_camera_opts_tags(key: Seq<char>)
    ensures
        key == "camerapivot"@ ==> tag(key) == 10837,
        key == "camerawatercollision"@ ==> tag(key) == 11493,
        key == "camerapivotdxmax"@ ==> tag(key) == 11019,
        key == "camerapivotdymin"@ ==> tag(key) == 11299,
        key == "cameratargetsmoothspeed"@ ==> tag(key) == 11331,
        key == "cameraterraintilt"@ ==> tag(key) == 11343,
        key == "cameragroundsmoothspeed"@ ==> tag(key) == 10931,
        key == "cameraterraintilttimemin"@ ==> tag(key) == 11354,
        key == "cameraterraintilttimemax"@ ==> tag(key) == 11074,
        key == "camerabobbing"@ ==> tag(key) == 10884,
        key == "camerabobbinglramplitude"@ ==> tag(key) == 10980,
        key == "camerabobbingudamplitude"@ ==> tag(key) == 11007,
        key == "camerabobbingfrequency"@ ==> tag(key) == 11045,
        key == "camerabobbingsmoothspeed"@ ==> tag(key) == 11036,
{
    reveal(tag);
    reveal_strlit("camerapivot");
    reveal_strlit("camerawatercollision");
    reveal_strlit("camerapivotdxmax");
    reveal_strlit("camerapivotdymin");
    reveal_strlit("cameratargetsmoothspeed");
    reveal_strlit("cameraterraintilt");
    reveal_strlit("cameragroundsmoothspeed");
    reveal_strlit("cameraterraintilttimemin");
    reveal_strlit("cameraterraintilttimemax");
    reveal_strlit("camerabobbing");
    reveal_strlit("camerabobbinglramplitude");
    reveal_strlit("camerabobbingudamplitude");
    reveal_strlit("camerabobbingfrequency");
    reveal_strlit("camerabobbingsmoothspeed");
}

proof fn lemma_interface_tags(key: Seq<char>)
    ensures
        key == "statusbartext"@ ==> tag(key) == 11816,
        key == "ubertooltips"@ ==> tag(key) == 11942,
        key == "checkaddonversion"@ ==> tag(key) == 11361,
        key == "lastcharacterindex"@ ==> tag(key) == 11110,
        key == "autoclearafk"@ ==> tag(key) == 10529,
        key == "soundbuffersize"@ ==> tag(key) == 12061,
        key == "useuiscale"@ ==> tag(key) == 11815,
        key == "gxcolorbits"@ ==> tag(key) == 11524,
        key == "gxdepthbits"@ ==> tag(key) == 11619,
        key == "showgametips"@ ==> tag(key) == 11793,
        key == "gametip"@ ==> tag(key) == 10775,
        key == "profanityfilter"@ ==> tag(key) == 11616,
        key == "spamfilter"@ ==> tag(key) == 11269,
        key == "chatbubbles"@ ==> tag(key) == 10945,
        key == "chatbubblesparty"@ ==> tag(key) == 11404,
        key == "guildmembernotify"@ ==> tag(key) == 10850,
        key == "blocktrades"@ ==> tag(key) == 10929,
{
    reveal(tag);
    reveal_strlit("statusbartext");
    reveal_strlit("ubertooltips");
    reveal_strlit("checkaddonversion");
    reveal_strlit("lastcharacterindex");
    reveal_strlit("autoclearafk");
    reveal_strlit("soundbuffersize");
    reveal_strlit("useuiscale");
    reveal_strlit("gxcolorbits");
    reveal_strlit("gxdepthbits");
    reveal_strlit("showgametips");
    reveal_strlit("gametip");
    reveal_strlit("profanityfilter");
    reveal_strlit("spamfilter");
    reveal_strlit("chatbubbles");
    reveal_strlit("chatbubblesparty");
    reveal_strlit("guildmembernotify");
    reveal_strlit("blocktrades");
}

proof fn lemma_scene_tags(key: Seq<char>)
    ensures
        key == "worlddetail"@ ==> tag(key) == 11449,
        key == "frilldensity"@ ==> tag(key) == 11253,
        key == "weatherdensity"@ ==> tag(key) == 11924,
        key == "gamma"@ ==> tag(key) == 11034,
        key == "minimapzoom"@ ==> tag(key) == 11227,
        key == "minimapinsidezoom"@ ==> tag(key) == 11741,
{
    reveal(tag);
    reveal_strlit("worlddetail");
    reveal_strlit("frilldensity");
    reveal_strlit("weatherdensity");
    reveal_strlit("gamma");
    reveal_strlit("minimapzoom");
    reveal_strlit("minimapinsidezoom");
}

proof fn lemma_shadow_tags(key: Seq<char>)
    ensures
        key == "gxvsync"@ ==> tag(key) == 11315,
        key == "worldshadows"@ ==> tag(key) == 12057,
        key == "charactershadows"@ ==> tag(key) == 11701,
        key == "shadowdistance"@ ==> tag(key) == 11340,
        key == "shadowmapsize"@ ==> tag(key) == 12161,
        key == "shadowfilter"@ ==> tag(key) == 11245,
        key == "charactershadowrate"@ ==> tag(key) == 11678,
        key == "worldshadowrate"@ ==> tag(key) == 11876,
        key == "shadowcasterreach"@ ==> tag(key) == 11683,
{
    reveal(tag);
    reveal_strlit("gxvsync");
    reveal_strlit("worldshadows");
    reveal_strlit("charactershadows");
    reveal_strlit("shadowdistance");
    reveal_strlit("shadowmapsize");
    reveal_strlit("shadowfilter");
    reveal_strlit("charactershadowrate");
    reveal_strlit("worldshadowrate");
    reveal_strlit("shadowcasterreach");
}

proof fn lemma_interior_tags(key: Seq<char>)
    ensures
        key == "interiorlight"@ ==> tag(key) == 11242,
        key == "interiorambient"@ ==> tag(key) == 11536,
        key == "interiorfill"@ ==> tag(key) == 11352,
        key == "interiorexposure"@ ==> tag(key) == 11450,
        key == "interiorattenscale"@ ==> tag(key) == 11663,
        key == "interiorroomgate"@ ==> tag(key) == 11818,
        key == "interiorshadows"@ ==> tag(key) == 11905,
        key == "exteriorshadows"@ ==> tag(key) == 11749,
        key == "interiorshadowcasters"@ ==> tag(key) == 11440,
        key == "interiorshadowdynamic"@ ==> tag(key) == 11125,
        key == "interiorshadowentityrate"@ ==> tag(key) == 12007,
        key == "interiorshadowsoft"@ ==> tag(key) == 11096,
        key == "torchshadowstrength"@ ==> tag(key) == 12286,
        key == "interiordebug"@ ==> tag(key) == 11697,
{
    reveal(tag);
    reveal_strlit("interiorlight");
    reveal_strlit("interiorambient");
    reveal_strlit("interiorfill");
    reveal_strlit("interiorexposure");
    reveal_strlit("interiorattenscale");
    reveal_strlit("interiorroomgate");
    reveal_strlit("interiorshadows");
    reveal_strlit("exteriorshadows");
    reveal_strlit("interiorshadowcasters");
    reveal_strlit("interiorshadowdynamic");
    reveal_strlit("interiorshadowentityrate");
    reveal_strlit("interiorshadowsoft");
    reveal_strlit("torchshadowstrength");
    reveal_strlit("interiordebug");
}

proof fn lemma_gains_tags(key: Seq<char>)
    ensures
        key == "nightgain"@ ==> tag(key) == 11444,
        key == "interiorgain"@ ==> tag(key) == 11247,
        key == "interiordaylight"@ ==> tag(key) == 11006,
        key == "interiorbakefloor"@ ==> tag(key) == 11231,
        key == "firelightgain"@ ==> tag(key) == 10930,
        key == "spelllightgain"@ ==> tag(key) == 11467,
        key == "fireflicker"@ ==> tag(key) == 10858,
{
    reveal(tag);
    reveal_strlit("nightgain");
    reveal_strlit("interiorgain");
    reveal_strlit("interiordaylight");
    reveal_strlit("interiorbakefloor");
    reveal_strlit("firelightgain");
    reveal_strlit("spelllightgain");
    reveal_strlit("fireflicker");
}

proof fn lemma_display_tags(key: Seq<char>)
    ensures
        key == "gxwindow"@ ==> tag(key) == 11192,
        key == "boothhalfrate"@ ==> tag(key) == 11021,
        key == "renderscale"@ ==> tag(key) == 11751,
        key == "fpsjournal"@ ==> tag(key) == 10940,
        key == "gxmultisample"@ ==> tag(key) == 11157,
        key == "trilinear"@ ==> tag(key) == 11144,
        key == "anisotropic"@ ==> tag(key) == 11030,
{
    reveal(tag);
    reveal_strlit("gxwindow");
    reveal_strlit("boothhalfrate");
    reveal_strlit("renderscale");
    reveal_strlit("fpsjournal");
    reveal_strlit("gxmultisample");
    reveal_strlit("trilinear");
    reveal_strlit("anisotropic");
}

proof fn lemma_sound_is_written(k: Knobs, key: Seq<char>, v: Single, reading: Reading, limits: Limits)
    requires
        sound_setting(key),
    ensures
        !string_valued(key),
        after_sound(k.sound, key, v) is Some,
        after_number(k, key, v, reading, limits) == Some(Knobs { sound: after_sound(k.sound, key, v)->0, ..k }),
{
    lemma_text_tags(key);
    lemma_sound_tags(key);
}

proof fn lemma_view_is_written(k: Knobs, key: Seq<char>, v: Single, reading: Reading, limits: Limits)
    requires
        view_setting(key),
    ensures
        !string_valued(key),
        after_view(k.view, key, v, limits) is Some,
        after_number(k, key, v, reading, limits) == Some(Knobs { view: after_view(k.view, key, v, limits)->0, ..k }),
{
    lemma_text_tags(key);
    lemma_sound_tags(key);
    lemma_view_tags(key);
}

proof fn lemma_look_is_written(k: Knobs, key: Seq<char>, v: Single, reading: Reading, limits: Limits)
    requires
        look_setting(key),
        !reading.view_setting,
    ensures
        !string_valued(key),
        after_look(k.look, key, v) is Some,
        after_number(k, key, v, reading, limits) == Some(Knobs { look: after_look(k.look, key, v)->0, ..k }),
{
    lemma_text_tags(key);
    lemma_sound_tags(key);
    lemma_view_tags(key);
    lemma_look_tags(key);
}

proof fn lemma_follow_is_written(k: Knobs, key: Seq<char>, v: Single, reading: Reading, limits: Limits)
    requires
        follow_setting(key),
        !reading.view_setting,
    ensures
        !string_valued(key),
        after_follow(k.follow, key, v, reading) is Some,
        after_number(k, key, v, reading, limits) == Some(Knobs { follow: after_follow(k.follow, key, v, reading)->0, ..k }),
{
    lemma_text_tags(key);
    lemma_sound_tags(key);
    lemma_view_tags(key);
    lemma_look_tags(key);
    lemma_follow_tags(key);
}

proof fn lemma_damage_text_is_written(k: Knobs, key: Seq<char>, v: Single, reading: Reading, limits: Limits)
    requires
        damage_text_setting(key),
        !reading.view_setting,
    ensures
        !string_valued(key),
        after_damage_text(k.damage_text, key, v) is Some,
        after_number(k, key, v, reading, limits) == Some(Knobs { damage_text: after_damage_text(k.damage_text, key, v)->0, ..k }),
{
    lemma_text_tags(key);
    lemma_sound_tags(key);
    lemma_view_tags(key);
    lemma_look_tags(key);
    lemma_follow_tags(key);
    lemma_damage_text_tags(key);
}

proof fn lemma_names_is_written(k: Knobs, key: Seq<char>, v: Single, reading: Reading, limits: Limits)
    requires
        names_setting(key),
        !reading.view_setting,
        !reading.combat_range,
    ensures
        !string_valued(key),
        after_names(k.names, key, v) is Some,
        after_number(k, key, v, reading, limits) == Some(Knobs { names: after_names(k.names, key, v)->0, ..k }),
{
    lemma_text_tags(key);
    lemma_sound_tags(key);
    lemma_view_tags(key);
    lemma_look_tags(key);
    lemma_follow_tags(key);
    lemma_damage_text_tags(key);
    lemma_names_tags(key);
}

proof fn lemma_camera_opts_is_written(k: Knobs, key: Seq<char>, v: Single, reading: Reading, limits: Limits)
    requires
        camera_opts_setting(key),
        !reading.view_setting,
        !reading.combat_range,
    ensures
        !string_valued(key),
        after_camera_opts(k.camera_opts, key, v) is Some,
        after_number(k, key, v, reading, limits) == Some(Knobs { camera_opts: after_camera_opts(k.camera_opts, key, v)->0, ..k }),
{
    lemma_text_tags(key);
    lemma_sound_tags(key);
    lemma_view_tags(key);
    lemma_look_tags(key);
    lemma_follow_tags(key);
    lemma_damage_text_tags(key);
    lemma_names_tags(key);
    lemma_camera_opts_tags(key);
}

proof fn lemma_interface_is_written(k: Knobs, key: Seq<char>, v: Single, reading: Reading, limits: Limits)
    requires
        interface_setting(key),
        !reading.view_setting,
        !reading.combat_range,
    ensures
        !string_valued(key),
        after_interface(k.interface, key, v) is Some,
        after_number(k, key, v, reading, limits) == Some(Knobs { interface: after_interface(k.interface, key, v)->0, ..k }),
{
    lemma_text_tags(key);
    lemma_sound_tags(key);
    lemma_view_tags(key);
    lemma_look_tags(key);
    lemma_follow_tags(key);
    lemma_damage_text_tags(key);
    lemma_names_tags(key);
    lemma_camera_opts_tags(key);
    lemma_interface_tags(key);
}

proof fn lemma_scene_is_written(k: Knobs, key: Seq<char>, v: Single, reading: Reading, limits: Limits)
    requires
        scene_setting(key),
        !reading.view_setting,
        !reading.combat_range,
    ensures
        !string_valued(key),
        after_scene(k.scene, key, v, limits) is Some,
        after_number(k, key, v, reading, limits) == Some(Knobs { scene: after_scene(k.scene, key, v, limits)->0, ..k }),
{
    lemma_text_tags(key);
    lemma_sound_tags(key);
    lemma_view_tags(key);
    lemma_look_tags(key);
    lemma_follow_tags(key);
    lemma_damage_text_tags(key);
    lemma_names_tags(key);
    lemma_camera_opts_tags(key);
    lemma_interface_tags(key);
    lemma_scene_tags(key);
}

proof fn lemma_shadow_is_written(k: Knobs, key: Seq<char>, v: Single, reading: Reading, limits: Limits)
    requires
        shadow_setting(key),
        !reading.view_setting,
        !reading.combat_range,
    ensures
        !string_valued(key),
        after_shadow(k.shadow, key, v) is Some,
        after_number(k, key, v, reading, limits) == Some(Knobs { shadow: after_shadow(k.shadow, key, v)->0, ..k }),
{
    lemma_text_tags(key);
    lemma_sound_tags(key);
    lemma_view_tags(key);
    lemma_look_tags(key);
    lemma_follow_tags(key);
    lemma_damage_text_tags(key);
    lemma_names_tags(key);
    lemma_camera_opts_tags(key);
    lemma_interface_tags(key);
    lemma_scene_tags(key);
    lemma_shadow_tags(key);
}

proof fn lemma_interior_is_written(k: Knobs, key: Seq<char>, v: Single, reading: Reading, limits: Limits)
    requires
        interior_setting(key),
        !reading.view_setting,
        !reading.combat_range,
    ensures
        !string_valued(key),
        after_interior(k.interior, key, v) is Some,
        after_number(k, key, v, reading, limits) == Some(Knobs { interior: after_interior(k.interior, key, v)->0, ..k }),
{
    lemma_text_tags(key);
    lemma_sound_tags(key);
    lemma_view_tags(key);
    lemma_look_tags(key);
    lemma_follow_tags(key);
    lemma_damage_text_tags(key);
    lemma_names_tags(key);
    lemma_camera_opts_tags(key);
    lemma_interface_tags(key);
    lemma_scene_tags(key);
    lemma_shadow_tags(key);
    lemma_interior_tags(key);
}

proof fn lemma_gains_is_written(k: Knobs, key: Seq<char>, v: Single, reading: Reading, limits: Limits)
    requires
        gains_setting(key),
        !reading.view_setting,
        !reading.combat_range,
    ensures
        !string_valued(key),
        after_gains(k.gains, key, v) is Some,
        after_number(k, key, v, reading, limits) == Some(Knobs { gains: after_gains(k.gains, key, v)->0, ..k }),
{
    lemma_text_tags(key);
    lemma_sound_tags(key);
    lemma_view_tags(key);
    lemma_look_tags(key);
    lemma_follow_tags(key);
    lemma_damage_text_tags(key);
    lemma_names_tags(key);
    lemma_camera_opts_tags(key);
    lemma_interface_tags(key);
    lemma_scene_tags(key);
    lemma_shadow_tags(key);
    lemma_interior_tags(key);
    lemma_gains_tags(key);
}

proof fn lemma_display_is_written(k: Knobs, key: Seq<char>, v: Single, reading: Reading, limits: Limits)
    requires
        display_setting(key),
        !reading.view_setting,
        !reading.combat_range,
    ensures
        !string_valued(key),
        after_display(k.display, key, v, reading, limits) is Some,
        after_number(k, key, v, reading, limits) == Some(Knobs { display: after_display(k.display, key, v, reading, limits)->0, ..k }),
{
    lemma_text_tags(key);
    lemma_sound_tags(key);
    lemma_view_tags(key);
    lemma_look_tags(key);
    lemma_follow_tags(key);
    lemma_damage_text_tags(key);
    lemma_names_tags(key);
    lemma_camera_opts_tags(key);
    lemma_interface_tags(key);
    lemma_scene_tags(key);
    lemma_shadow_tags(key);
    lemma_interior_tags(key);
    lemma_gains_tags(key);
    lemma_display_tags(key);
}

/// Where the mixer stands after a write, by the setting written.
pub open spec fn sound_moved(key: Seq<char>, v: Single, before: SoundConfig, after: SoundConfig) -> bool {
    &&& key == "mastervolume"@ ==> after == (SoundConfig { master: after.master, ..before })
        && number_held(v, 0x0000_0000, 0x3F80_0000, after.master)
    &&& key == "soundvolume"@ ==> after == (SoundConfig { sfx: after.sfx, ..before })
        && number_held(v, 0x0000_0000, 0x3F80_0000, after.sfx)
    &&& key == "musicvolume"@ ==> after == (SoundConfig { music: after.music, ..before })
        && number_held(v, 0x0000_0000, 0x3F80_0000, after.music)
    &&& key == "ambiencevolume"@ ==> after == (SoundConfig { ambience: after.ambience, ..before })
        && number_held(v, 0x0000_0000, 0x3F80_0000, after.ambience)
    &&& key == "mastersoundeffects"@ ==> after == (SoundConfig { enabled: after.enabled, ..before })
        && switched(v, after.enabled)
    &&& key == "enablemusic"@ ==> after == (SoundConfig { music_enabled: after.music_enabled, ..before })
        && switched(v, after.music_enabled)
    &&& key == "enableambience"@ ==> after == (SoundConfig { ambience_enabled: after.ambience_enabled, ..before })
        && switched(v, after.ambience_enabled)
    &&& key == "enableerrorspeech"@ ==> after == (SoundConfig { error_speech: after.error_speech, ..before })
        && switched(v, after.error_speech)
    &&& key == "sound_enablesoundwhengameisinbg"@ ==> after == (SoundConfig { background_sound: after.background_sound, ..before })
        && switched(v, after.background_sound)
    &&& key == "soundreverb"@ ==> after == (SoundConfig { reverb: after.reverb, ..before })
        && switched(v, after.reverb)
    &&& key == "soundoutputlimiter"@ ==> after == (SoundConfig { limiter: after.limiter, ..before })
        && switched(v, after.limiter)
    &&& key == "soundlisteneratcharacter"@ ==> after == (SoundConfig { listener_at_character: after.listener_at_character, ..before })
        && switched(v, after.listener_at_character)
    &&& key == "emotesounds"@ ==> after == (SoundConfig { emote_sounds: after.emote_sounds, ..before })
        && switched(v, after.emote_sounds)
    &&& key == "soundzonemusicnodelay"@ ==> after == (SoundConfig { zone_music_no_delay: after.zone_music_no_delay, ..before })
        && switched(v, after.zone_music_no_delay)
}

proof fn lemma_sound_moved(key: Seq<char>, v: Single, before: SoundConfig, after: SoundConfig)
    requires
        after_sound(before, key, v) == Some(after),
    ensures
        sound_moved(key, v, before, after),
{
    lemma_sound_tags(key);
    lemma_held(v, Single { bits: 0x0000_0000 }, Single { bits: 0x3F80_0000 });
    lemma_switched(v);
}

/// A number written to a setting of the mixer moves the one channel or switch that the setting
/// names, and nothing else of the mixer or of any other knob: the effects volume never moves the
/// music.
pub proof fn a_mixer_write_moves_its_own_channel(
    name: &str,
    reading: &Reading,
    limits: &Limits,
    knobs: &mut Knobs,
    realmlist: &mut String,
    taken: bool,
    v: Single,
)
    requires
        call_ensures(apply_to_knobs, (name, reading, limits, knobs, realmlist), taken),
        reading.number == Some(v),
        sound_setting(lower(name@)),
    ensures
        taken,
        final(realmlist)@ == old(realmlist)@,
        *final(knobs) == (Knobs { sound: final(knobs).sound, ..*old(knobs) }),
        sound_moved(lower(name@), v, old(knobs).sound, final(knobs).sound),
{
    let key = lower(name@);
    lemma_text_tags(key);
    lemma_sound_tags(key);
    lemma_sound_is_written(*old(knobs), key, v, *reading, *limits);
    lemma_sound_moved(key, v, old(knobs).sound, final(knobs).sound);
}

/// Where the view and the clicks stand after a write, by the setting written.
pub open spec fn view_moved(key: Seq<char>, v: Single, limits: Limits, before: ViewConfig, after: ViewConfig) -> bool {
    &&& key == "uiscale"@ ==> after == (ViewConfig { ui_scale: after.ui_scale, ..before })
        && number_held(v, 0x3F00_0000, 0x3FC0_0000, after.ui_scale)
    &&& key == "farclip"@ ==> after == (ViewConfig { farclip: after.farclip, ..before })
        && held_between(v, limits.farclip.0, limits.farclip.1, after.farclip)
    &&& key == "nearclip"@ ==> after == (ViewConfig { nearclip: after.nearclip, ..before })
        && number_held(v, 0x3C23_D70A, 0x3EA8_F5C3, after.nearclip)
    &&& key == "deselectonclick"@ ==> after == (ViewConfig { deselect_on_click: after.deselect_on_click, ..before })
        && switched(v, after.deselect_on_click)
    &&& key == "autoselfcast"@ ==> after == (ViewConfig { auto_self_cast: after.auto_self_cast, ..before })
        && switched(v, after.auto_self_cast)
    &&& key == "assistattack"@ ==> after == (ViewConfig { assist_attack: after.assist_attack, ..before })
        && switched(v, after.assist_attack)
}

proof fn lemma_view_moved(key: Seq<char>, v: Single, limits: Limits, before: ViewConfig, after: ViewConfig)
    requires
        after_view(before, key, v, limits) == Some(after),
        limits.wf(),
    ensures
        view_moved(key, v, limits, before, after),
{
    lemma_view_tags(key);
    lemma_held(v, Single { bits: 0x3C23_D70A }, Single { bits: 0x3EA8_F5C3 });
    lemma_held(v, Single { bits: 0x3F00_0000 }, Single { bits: 0x3FC0_0000 });
    lemma_held(v, limits.farclip.0, limits.farclip.1);
    lemma_switched(v);
}

/// A number written to a setting of the view or of clicks moves that setting and nothing else.
pub proof fn a_view_write_moves_its_own_setting(
    name: &str,
    reading: &Reading,
    limits: &Limits,
    knobs: &mut Knobs,
    realmlist: &mut String,
    taken: bool,
    v: Single,
)
    requires
        call_ensures(apply_to_knobs, (name, reading, limits, knobs, realmlist), taken),
        reading.number == Some(v),
        view_setting(lower(name@)),
        limits.wf(),
    ensures
        taken,
        final(realmlist)@ == old(realmlist)@,
        *final(knobs) == (Knobs { view: final(knobs).view, ..*old(knobs) }),
        view_moved(lower(name@), v, *limits, old(knobs).view, final(knobs).view),
{
    let key = lower(name@);
    lemma_text_tags(key);
    lemma_view_tags(key);
    lemma_view_is_written(*old(knobs), key, v, *reading, *limits);
    lemma_view_moved(key, v, *limits, old(knobs).view, final(knobs).view);
}

/// Where the mouse look stands after a write, by the setting written.
pub open spec fn look_moved(key: Seq<char>, v: Single, before: LookConfig, after: LookConfig) -> bool {
    &&& key == "mouseinvertpitch"@ ==> after == (LookConfig { invert_pitch: after.invert_pitch, ..before })
        && switched(v, after.invert_pitch)
    &&& key == "mousespeed"@ ==> after == (LookConfig { sensitivity: after.sensitivity, ..before })
        && number_held(v, 0x3F00_0000, 0x3FC0_0000, after.sensitivity)
    &&& key == "camerayawmovespeed"@ ==> after == (LookConfig { yaw_speed: after.yaw_speed, ..before })
        && taken_within(v, 0x3DCC_CCCD, 0x43B4_0000, before.yaw_speed, after.yaw_speed)
    &&& key == "camerapitchmovespeed"@ ==> after == (LookConfig { pitch_speed: after.pitch_speed, ..before })
        && taken_within(v, 0x3DCC_CCCD, 0x43B4_0000, before.pitch_speed, after.pitch_speed)
}

proof fn lemma_look_moved(key: Seq<char>, v: Single, before: LookConfig, after: LookConfig)
    requires
        after_look(before, key, v) == Some(after),
    ensures
        look_moved(key, v, before, after),
{
    lemma_look_tags(key);
    lemma_held(v, Single { bits: 0x3F00_0000 }, Single { bits: 0x3FC0_0000 });
    lemma_switched(v);
}

/// A number written to a setting of the mouse look moves that setting and nothing else; a turn
/// speed out of its range is refused, and moves nothing.
pub proof fn a_look_write_moves_its_own_setting(
    name: &str,
    reading: &Reading,
    limits: &Limits,
    knobs: &mut Knobs,
    realmlist: &mut String,
    taken: bool,
    v: Single,
)
    requires
        call_ensures(apply_to_knobs, (name, reading, limits, knobs, realmlist), taken),
        reading.number == Some(v),
        look_setting(lower(name@)),
        !reading.view_setting,
    ensures
        taken,
        final(realmlist)@ == old(realmlist)@,
        *final(knobs) == (Knobs { look: final(knobs).look, ..*old(knobs) }),
        look_moved(lower(name@), v, old(knobs).look, final(knobs).look),
{
    let key = lower(name@);
    lemma_text_tags(key);
    lemma_look_tags(key);
    lemma_look_is_written(*old(knobs), key, v, *reading, *limits);
    lemma_look_moved(key, v, old(knobs).look, final(knobs).look);
}

/// Where the camera follow stands after a write, by the setting written.
pub open spec fn follow_moved(key: Seq<char>, v: Single, reading: Reading, before: FollowConfig, after: FollowConfig) -> bool {
    &&& key == "cameradistancemaxfactor"@ ==> after == (FollowConfig { distance_factor: after.distance_factor, ..before })
        && number_held(v, 0x3F80_0000, 0x4000_0000, after.distance_factor)
    &&& key == "camerasmoothstyle"@ ==> after == (FollowConfig { style: after.style, ..before })
        && after.style == reading.style
    &&& key == "camerasmoothtrackingstyle"@ ==> after == (FollowConfig { tracking_style: after.tracking_style, ..before })
        && after.tracking_style == reading.style
    &&& key == "camerayawsmoothspeed"@ ==> after == (FollowConfig { yaw_speed: after.yaw_speed, ..before })
        && number_held(v, 0x42B4_0000, 0x4387_0000, after.yaw_speed)
}

proof fn lemma_follow_moved(key: Seq<char>, v: Single, reading: Reading, before: FollowConfig, after: FollowConfig)
    requires
        after_follow(before, key, v, reading) == Some(after),
    ensures
        follow_moved(key, v, reading, before, after),
{
    lemma_follow_tags(key);
    lemma_held(v, Single { bits: 0x3F80_0000 }, Single { bits: 0x4000_0000 });
    lemma_held(v, Single { bits: 0x42B4_0000 }, Single { bits: 0x4387_0000 });
}

/// A number written to a setting of the camera follow moves that setting and nothing else.
pub proof fn a_follow_write_moves_its_own_setting(
    name: &str,
    reading: &Reading,
    limits: &Limits,
    knobs: &mut Knobs,
    realmlist: &mut String,
    taken: bool,
    v: Single,
)
    requires
        call_ensures(apply_to_knobs, (name, reading, limits, knobs, realmlist), taken),
        reading.number == Some(v),
        follow_setting(lower(name@)),
        !reading.view_setting,
    ensures
        taken,
        final(realmlist)@ == old(realmlist)@,
        *final(knobs) == (Knobs { follow: final(knobs).follow, ..*old(knobs) }),
        follow_moved(lower(name@), v, *reading, old(knobs).follow, final(knobs).follow),
{
    let key = lower(name@);
    lemma_text_tags(key);
    lemma_follow_tags(key);
    lemma_follow_is_written(*old(knobs), key, v, *reading, *limits);
    lemma_follow_moved(key, v, *reading, old(knobs).follow, final(knobs).follow);
}

/// Where the damage text stands after a write, by the switch written.
pub open spec fn damage_text_moved(key: Seq<char>, v: Single, before: DamageTextGates, after: DamageTextGates) -> bool {
    &&& key == "combatdamage"@ ==> after == (DamageTextGates { combat_damage: after.combat_damage, ..before })
        && switched(v, after.combat_damage)
    &&& key == "petmeleedamage"@ ==> after == (DamageTextGates { pet_melee: after.pet_melee, ..before })
        && switched(v, after.pet_melee)
    &&& key == "petspelldamage"@ ==> after == (DamageTextGates { pet_spell: after.pet_spell, ..before })
        && switched(v, after.pet_spell)
    &&& key == "combatlogperiodicspells"@ ==> after == (DamageTextGates { log_periodic: after.log_periodic, ..before })
        && switched(v, after.log_periodic)
}

proof fn lemma_damage_text_moved(key: Seq<char>, v: Single, before: DamageTextGates, after: DamageTextGates)
    requires
        after_damage_text(before, key, v) == Some(after),
    ensures
        damage_text_moved(key, v, before, after),
{
    lemma_damage_text_tags(key);
    lemma_switched(v);
}

/// A number written to a switch of the damage text moves that switch and nothing else.
pub proof fn a_damage_text_write_moves_its_own_switch(
    name: &str,
    reading: &Reading,
    limits: &Limits,
    knobs: &mut Knobs,
    realmlist: &mut String,
    taken: bool,
    v: Single,
)
    requires
        call_ensures(apply_to_knobs, (name, reading, limits, knobs, realmlist), taken),
        reading.number == Some(v),
        damage_text_setting(lower(name@)),
        !reading.view_setting,
    ensures
        taken,
        final(realmlist)@ == old(realmlist)@,
        *final(knobs) == (Knobs { damage_text: final(knobs).damage_text, ..*old(knobs) }),
        damage_text_moved(lower(name@), v, old(knobs).damage_text, final(knobs).damage_text),
{
    let key = lower(name@);
    lemma_text_tags(key);
    lemma_damage_text_tags(key);
    lemma_damage_text_is_written(*old(knobs), key, v, *reading, *limits);
    lemma_damage_text_moved(key, v, old(knobs).damage_text, final(knobs).damage_text);
}

/// Where the names, plates and loot stand after a write, by the switch written.
pub open spec fn names_moved(key: Seq<char>, v: Single, before: NameConfig, after: NameConfig) -> bool {
    &&& key == "autolootdefault"@ ==> after == (NameConfig { auto_loot: after.auto_loot, ..before })
        && switched(v, after.auto_loot)
    &&& key == "unitnameplayer"@ ==> after == (NameConfig { player: after.player, ..before })
        && switched(v, after.player)
    &&& key == "unitnamenpc"@ ==> after == (NameConfig { npc: after.npc, ..before })
        && switched(v, after.npc)
    &&& key == "unitnameown"@ ==> after == (NameConfig { own: after.own, ..before })
        && switched(v, after.own)
    &&& key == "unitnameplayerguild"@ ==> after == (NameConfig { player_guild: after.player_guild, ..before })
        && switched(v, after.player_guild)
    &&& key == "nameplateshowenemies"@ ==> after == (NameConfig { enemy_plates: after.enemy_plates, ..before })
        && switched(v, after.enemy_plates)
    &&& key == "nameplateshowfriends"@ ==> after == (NameConfig { friend_plates: after.friend_plates, ..before })
        && switched(v, after.friend_plates)
    &&& key == "showlootspam"@ ==> after == (NameConfig { show_loot_spam: after.show_loot_spam, ..before })
        && switched(v, after.show_loot_spam)
}

proof fn lemma_names_moved(key: Seq<char>, v: Single, before: NameConfig, after: NameConfig)
    requires
        after_names(before, key, v) == Some(after),
    ensures
        names_moved(key, v, before, after),
{
    lemma_names_tags(key);
    lemma_switched(v);
}

/// A number written to a switch of names, plates or loot moves that switch and nothing else.
pub proof fn a_name_write_moves_its_own_switch(
    name: &str,
    reading: &Reading,
    limits: &Limits,
    knobs: &mut Knobs,
    realmlist: &mut String,
    taken: bool,
    v: Single,
)
    requires
        call_ensures(apply_to_knobs, (name, reading, limits, knobs, realmlist), taken),
        reading.number == Some(v),
        names_setting(lower(name@)),
        !reading.view_setting,
        !reading.combat_range,
    ensures
        taken,
        final(realmlist)@ == old(realmlist)@,
        *final(knobs) == (Knobs { names: final(knobs).names, ..*old(knobs) }),
        names_moved(lower(name@), v, old(knobs).names, final(knobs).names),
{
    let key = lower(name@);
    lemma_text_tags(key);
    lemma_names_tags(key);
    lemma_names_is_written(*old(knobs), key, v, *reading, *limits);
    lemma_names_moved(key, v, old(knobs).names, final(knobs).names);
}

/// Where the camera options stand after a write, by the option written.
pub open spec fn camera_opts_moved(key: Seq<char>, v: Single, before: CameraOptions, after: CameraOptions) -> bool {
    &&& key == "camerapivot"@ ==> after == (CameraOptions { pivot: after.pivot, ..before })
        && switched(v, after.pivot)
    &&& key == "camerawatercollision"@ ==> after == (CameraOptions { water_collision: after.water_collision, ..before })
        && switched(v, after.water_collision)
    &&& key == "camerapivotdxmax"@ ==> after == (CameraOptions { pivot_dx_max: after.pivot_dx_max, ..before })
        && after.pivot_dx_max == v
    &&& key == "camerapivotdymin"@ ==> after == (CameraOptions { pivot_dy_min: after.pivot_dy_min, ..before })
        && after.pivot_dy_min == v
    &&& key == "cameratargetsmoothspeed"@ ==> after == (CameraOptions { target_smooth_speed: after.target_smooth_speed, ..before })
        && after.target_smooth_speed == v
    &&& key == "cameraterraintilt"@ ==> after == (CameraOptions { terrain_tilt: after.terrain_tilt, ..before })
        && switched(v, after.terrain_tilt)
    &&& key == "cameragroundsmoothspeed"@ ==> after == (CameraOptions { ground_smooth_speed: after.ground_smooth_speed, ..before })
        && after.ground_smooth_speed == v
    &&& key == "cameraterraintilttimemin"@ ==> after == (CameraOptions { tilt_time_min: after.tilt_time_min, ..before })
        && after.tilt_time_min == v
    &&& key == "cameraterraintilttimemax"@ ==> after == (CameraOptions { tilt_time_max: after.tilt_time_max, ..before })
        && after.tilt_time_max == v
    &&& key == "camerabobbing"@ ==> after == (CameraOptions { bobbing: after.bobbing, ..before })
        && switched(v, after.bobbing)
    &&& key == "camerabobbinglramplitude"@ ==> after == (CameraOptions { bob_lr_amplitude: after.bob_lr_amplitude, ..before })
        && after.bob_lr_amplitude == v
    &&& key == "camerabobbingudamplitude"@ ==> after == (CameraOptions { bob_ud_amplitude: after.bob_ud_amplitude, ..before })
        && after.bob_ud_amplitude == v
    &&& key == "camerabobbingfrequency"@ ==> after == (CameraOptions { bob_frequency: after.bob_frequency, ..before })
        && after.bob_frequency == v
    &&& key == "camerabobbingsmoothspeed"@ ==> after == (CameraOptions { bob_smooth_speed: after.bob_smooth_speed, ..before })
        && after.bob_smooth_speed == v
}

proof fn lemma_camera_opts_moved(key: Seq<char>, v: Single, before: CameraOptions, after: CameraOptions)
    requires
        after_camera_opts(before, key, v) == Some(after),
    ensures
        camera_opts_moved(key, v, before, after),
{
    lemma_camera_opts_tags(key);
    lemma_switched(v);
}

/// A number written to a camera option moves that option and nothing else, and a number that the
/// camera reads is taken as it stands.
pub proof fn a_camera_write_moves_its_own_option(
    name: &str,
    reading: &Reading,
    limits: &Limits,
    knobs: &mut Knobs,
    realmlist: &mut String,
    taken: bool,
    v: Single,
)
    requires
        call_ensures(apply_to_knobs, (name, reading, limits, knobs, realmlist), taken),
        reading.number == Some(v),
        camera_opts_setting(lower(name@)),
        !reading.view_setting,
        !reading.combat_range,
    ensures
        taken,
        final(realmlist)@ == old(realmlist)@,
        *final(knobs) == (Knobs { camera_opts: final(knobs).camera_opts, ..*old(knobs) }),
        camera_opts_moved(lower(name@), v, old(knobs).camera_opts, final(knobs).camera_opts),
{
    let key = lower(name@);
    lemma_text_tags(key);
    lemma_camera_opts_tags(key);
    lemma_camera_opts_is_written(*old(knobs), key, v, *reading, *limits);
    lemma_camera_opts_moved(key, v, old(knobs).camera_opts, final(knobs).camera_opts);
}

/// Where the interface stands after a write, by the setting written.
pub open spec fn interface_moved(key: Seq<char>, v: Single, before: InterfaceConfig, after: InterfaceConfig) -> bool {
    &&& key == "statusbartext"@ ==> after == before
    &&& key == "ubertooltips"@ ==> after == before
    &&& key == "checkaddonversion"@ ==> after == before
    &&& key == "lastcharacterindex"@ ==> after == before
    &&& key == "autoclearafk"@ ==> after == before
    &&& key == "soundbuffersize"@ ==> after == before
    &&& key == "useuiscale"@ ==> after == before
    &&& key == "gxcolorbits"@ ==> after == before
    &&& key == "gxdepthbits"@ ==> after == before
    &&& key == "showgametips"@ ==> after == (InterfaceConfig { show_tips: after.show_tips, ..before })
        && switched(v, after.show_tips)
    &&& key == "gametip"@ ==> after == (InterfaceConfig { next_tip: after.next_tip, ..before })
        && integer_of(v, after.next_tip as int)
    &&& key == "profanityfilter"@ ==> after == (InterfaceConfig { profanity: after.profanity, ..before })
        && switched(v, after.profanity)
    &&& key == "spamfilter"@ ==> after == (InterfaceConfig { spam: after.spam, ..before })
        && switched(v, after.spam)
    &&& key == "chatbubbles"@ ==> after == (InterfaceConfig { bubbles: after.bubbles, ..before })
        && switched(v, after.bubbles)
    &&& key == "chatbubblesparty"@ ==> after == (InterfaceConfig { party_bubbles: after.party_bubbles, ..before })
        && switched(v, after.party_bubbles)
    &&& key == "guildmembernotify"@ ==> after == (InterfaceConfig { guild_notify: after.guild_notify, ..before })
        && switched(v, after.guild_notify)
    &&& key == "blocktrades"@ ==> after == (InterfaceConfig { block_trades: after.block_trades, ..before })
        && switched(v, after.block_trades)
}

proof fn lemma_interface_moved(key: Seq<char>, v: Single, before: InterfaceConfig, after: InterfaceConfig)
    requires
        after_interface(before, key, v) == Some(after),
    ensures
        interface_moved(key, v, before, after),
{
    lemma_interface_tags(key);
    lemma_integer(v);
    lemma_switched(v);
}

/// A number written to a setting of the interface moves that setting and nothing else; the nine
/// settings that no knob stands behind move nothing at all.
pub proof fn an_interface_write_moves_its_own_setting(
    name: &str,
    reading: &Reading,
    limits: &Limits,
    knobs: &mut Knobs,
    realmlist: &mut String,
    taken: bool,
    v: Single,
)
    requires
        call_ensures(apply_to_knobs, (name, reading, limits, knobs, realmlist), taken),
        reading.number == Some(v),
        interface_setting(lower(name@)),
        !reading.view_setting,
        !reading.combat_range,
    ensures
        taken,
        final(realmlist)@ == old(realmlist)@,
        *final(knobs) == (Knobs { interface: final(knobs).interface, ..*old(knobs) }),
        interface_moved(lower(name@), v, old(knobs).interface, final(knobs).interface),
{
    let key = lower(name@);
    lemma_text_tags(key);
    lemma_interface_tags(key);
    lemma_interface_is_written(*old(knobs), key, v, *reading, *limits);
    lemma_interface_moved(key, v, old(knobs).interface, final(knobs).interface);
}

/// Where the scene stands after a write, by the setting written.
pub open spec fn scene_moved(key: Seq<char>, v: Single, limits: Limits, before: SceneConfig, after: SceneConfig) -> bool {
    &&& key == "worlddetail"@ ==> after == (SceneConfig { clutter: after.clutter, ..before })
        && (after.clutter matches ClutterDensity::Stop(kept) && number_held(v, 0x0000_0000, 0x4000_0000, kept))
    &&& key == "frilldensity"@ ==> after == (SceneConfig { clutter: after.clutter, ..before })
        && (after.clutter matches ClutterDensity::Cells(kept) && number_held(v, 0x3F80_0000, 0x4380_0000, kept))
    &&& key == "weatherdensity"@ ==> after == (SceneConfig { weather_density: after.weather_density, ..before })
        && counted(v, 0, 3, after.weather_density as int)
    &&& key == "gamma"@ ==> after == (SceneConfig { display_gamma: after.display_gamma, ..before })
        && held_between(v, limits.gamma.0, limits.gamma.1, after.display_gamma)
    &&& key == "minimapzoom"@ ==> after == (SceneConfig { outdoor_zoom: after.outdoor_zoom, ..before })
        && counted(v, 0, 5, after.outdoor_zoom as int)
    &&& key == "minimapinsidezoom"@ ==> after == (SceneConfig { inside_zoom: after.inside_zoom, ..before })
        && counted(v, 0, 5, after.inside_zoom as int)
}

proof fn lemma_scene_moved(key: Seq<char>, v: Single, limits: Limits, before: SceneConfig, after: SceneConfig)
    requires
        after_scene(before, key, v, limits) == Some(after),
        limits.wf(),
    ensures
        scene_moved(key, v, limits, before, after),
{
    lemma_scene_tags(key);
    lemma_counted(v, 0, 3, u8::MAX as int);
    lemma_held(v, Single { bits: 0x0000_0000 }, Single { bits: 0x4000_0000 });
    lemma_held(v, Single { bits: 0x3F80_0000 }, Single { bits: 0x4380_0000 });
    lemma_held(v, limits.gamma.0, limits.gamma.1);
    lemma_zoom(v);
}

/// A number written to a setting of the scene moves that setting and nothing else; the ground
/// cover is kept in the unit it was written in.
pub proof fn a_scene_write_moves_its_own_setting(
    name: &str,
    reading: &Reading,
    limits: &Limits,
    knobs: &mut Knobs,
    realmlist: &mut String,
    taken: bool,
    v: Single,
)
    requires
        call_ensures(apply_to_knobs, (name, reading, limits, knobs, realmlist), taken),
        reading.number == Some(v),
        scene_setting(lower(name@)),
        limits.wf(),
        !reading.view_setting,
        !reading.combat_range,
    ensures
        taken,
        final(realmlist)@ == old(realmlist)@,
        *final(knobs) == (Knobs { scene: final(knobs).scene, ..*old(knobs) }),
        scene_moved(lower(name@), v, *limits, old(knobs).scene, final(knobs).scene),
{
    let key = lower(name@);
    lemma_text_tags(key);
    lemma_scene_tags(key);
    lemma_scene_is_written(*old(knobs), key, v, *reading, *limits);
    lemma_scene_moved(key, v, *limits, old(knobs).scene, final(knobs).scene);
}

/// Where the shadows stand after a write, by the setting written.
pub open spec fn shadow_moved(key: Seq<char>, v: Single, before: ShadowConfig, after: ShadowConfig) -> bool {
    &&& key == "gxvsync"@ ==> after == (ShadowConfig { vsync: after.vsync, ..before })
        && switched(v, after.vsync)
    &&& key == "worldshadows"@ ==> after == (ShadowConfig { world_shadows: after.world_shadows, ..before })
        && switched(v, after.world_shadows)
    &&& key == "charactershadows"@ ==> after == (ShadowConfig { character_shadows: after.character_shadows, ..before })
        && switched(v, after.character_shadows)
    &&& key == "shadowdistance"@ ==> after == (ShadowConfig { shadow_distance: after.shadow_distance, ..before })
        && number_held(v, 0x4220_0000, 0x4348_0000, after.shadow_distance)
    &&& key == "shadowmapsize"@ ==> after == (ShadowConfig { shadow_map_size: after.shadow_map_size, ..before })
        && sized(v.count(u32::MAX as int), after.shadow_map_size as int)
    &&& key == "shadowfilter"@ ==> after == (ShadowConfig { shadow_filter: after.shadow_filter, ..before })
        && counted(v, 0, 1, after.shadow_filter as int)
    &&& key == "charactershadowrate"@ ==> after == (ShadowConfig { character_shadow_rate: after.character_shadow_rate, ..before })
        && counted(v, 0, 120, after.character_shadow_rate as int)
    &&& key == "worldshadowrate"@ ==> after == (ShadowConfig { world_shadow_rate: after.world_shadow_rate, ..before })
        && counted(v, 0, 120, after.world_shadow_rate as int)
    &&& key == "shadowcasterreach"@ ==> after == (ShadowConfig { shadow_caster_reach: after.shadow_caster_reach, ..before })
        && number_held(v, 0x3E80_0000, 0x4000_0000, after.shadow_caster_reach)
}

proof fn lemma_shadow_moved(key: Seq<char>, v: Single, before: ShadowConfig, after: ShadowConfig)
    requires
        after_shadow(before, key, v) == Some(after),
    ensures
        shadow_moved(key, v, before, after),
{
    lemma_shadow_tags(key);
    lemma_counted(v, 0, 1, u32::MAX as int);
    lemma_counted(v, 0, 120, u32::MAX as int);
    lemma_held(v, Single { bits: 0x3E80_0000 }, Single { bits: 0x4000_0000 });
    lemma_held(v, Single { bits: 0x4220_0000 }, Single { bits: 0x4348_0000 });
    lemma_sized(v.count(u32::MAX as int));
    lemma_switched(v);
}

/// A number written to a shadow setting moves that setting and nothing else.
pub proof fn a_shadow_write_moves_its_own_setting(
    name: &str,
    reading: &Reading,
    limits: &Limits,
    knobs: &mut Knobs,
    realmlist: &mut String,
    taken: bool,
    v: Single,
)
    requires
        call_ensures(apply_to_knobs, (name, reading, limits, knobs, realmlist), taken),
        reading.number == Some(v),
        shadow_setting(lower(name@)),
        !reading.view_setting,
        !reading.combat_range,
    ensures
        taken,
        final(realmlist)@ == old(realmlist)@,
        *final(knobs) == (Knobs { shadow: final(knobs).shadow, ..*old(knobs) }),
        shadow_moved(lower(name@), v, old(knobs).shadow, final(knobs).shadow),
{
    let key = lower(name@);
    lemma_text_tags(key);
    lemma_shadow_tags(key);
    lemma_shadow_is_written(*old(knobs), key, v, *reading, *limits);
    lemma_shadow_moved(key, v, old(knobs).shadow, final(knobs).shadow);
}

/// Where the interiors stand after a write, by the setting written.
pub open spec fn interior_moved(key: Seq<char>, v: Single, before: InteriorConfig, after: InteriorConfig) -> bool {
    &&& key == "interiorlight"@ ==> after == (InteriorConfig { light: after.light, ..before })
        && switched(v, after.light)
    &&& key == "interiorambient"@ ==> after == (InteriorConfig { ambient: after.ambient, ..before })
        && number_held(v, 0x0000_0000, 0x3F80_0000, after.ambient)
    &&& key == "interiorfill"@ ==> after == (InteriorConfig { fill: after.fill, ..before })
        && number_held(v, 0x0000_0000, 0x4000_0000, after.fill)
    &&& key == "interiorexposure"@ ==> after == (InteriorConfig { exposure: after.exposure, ..before })
        && number_held(v, 0x3E80_0000, 0x4100_0000, after.exposure)
    &&& key == "interiorattenscale"@ ==> after == (InteriorConfig { atten_scale: after.atten_scale, ..before })
        && number_held(v, 0x0000_0000, 0x4100_0000, after.atten_scale)
    &&& key == "interiorroomgate"@ ==> after == (InteriorConfig { room_gate: after.room_gate, ..before })
        && switched(v, after.room_gate)
    &&& key == "interiorshadows"@ ==> after == (InteriorConfig { shadows: after.shadows, ..before })
        && switched(v, after.shadows)
    &&& key == "exteriorshadows"@ ==> after == (InteriorConfig { exterior_shadows: after.exterior_shadows, ..before })
        && switched(v, after.exterior_shadows)
    &&& key == "interiorshadowcasters"@ ==> after == (InteriorConfig { shadow_casters: after.shadow_casters, ..before })
        && counted(v, 1, 16, after.shadow_casters as int)
    &&& key == "interiorshadowdynamic"@ ==> after == (InteriorConfig { shadow_dynamic: after.shadow_dynamic, ..before })
        && counted(v, 1, 8, after.shadow_dynamic as int)
    &&& key == "interiorshadowentityrate"@ ==> after == (InteriorConfig { shadow_entity_rate: after.shadow_entity_rate, ..before })
        && counted(v, 0, 240, after.shadow_entity_rate as int)
    &&& key == "interiorshadowsoft"@ ==> after == (InteriorConfig { shadow_soft: after.shadow_soft, ..before })
        && number_held(v, 0x3F00_0000, 0x4040_0000, after.shadow_soft)
    &&& key == "torchshadowstrength"@ ==> after == (InteriorConfig { torch_strength: after.torch_strength, ..before })
        && number_held(v, 0x0000_0000, 0x3F80_0000, after.torch_strength)
    &&& key == "interiordebug"@ ==> after == (InteriorConfig { debug: after.debug, ..before })
        && counted(v, 0, 4, after.debug as int)
}

proof fn lemma_interior_moved(key: Seq<char>, v: Single, before: InteriorConfig, after: InteriorConfig)
    requires
        after_interior(before, key, v) == Some(after),
    ensures
        interior_moved(key, v, before, after),
{
    lemma_interior_tags(key);
    lemma_counted(v, 0, 240, u32::MAX as int);
    lemma_counted(v, 0, 4, u32::MAX as int);
    lemma_counted(v, 1, 16, u32::MAX as int);
    lemma_counted(v, 1, 8, u32::MAX as int);
    lemma_held(v, Single { bits: 0x0000_0000 }, Single { bits: 0x3F80_0000 });
    lemma_held(v, Single { bits: 0x0000_0000 }, Single { bits: 0x4000_0000 });
    lemma_held(v, Single { bits: 0x0000_0000 }, Single { bits: 0x4100_0000 });
    lemma_held(v, Single { bits: 0x3E80_0000 }, Single { bits: 0x4100_0000 });
    lemma_held(v, Single { bits: 0x3F00_0000 }, Single { bits: 0x4040_0000 });
    lemma_switched(v);
}

/// A number written to a setting of interiors moves that setting and nothing else.
pub proof fn an_interior_write_moves_its_own_setting(
    name: &str,
    reading: &Reading,
    limits: &Limits,
    knobs: &mut Knobs,
    realmlist: &mut String,
    taken: bool,
    v: Single,
)
    requires
        call_ensures(apply_to_knobs, (name, reading, limits, knobs, realmlist), taken),
        reading.number == Some(v),
        interior_setting(lower(name@)),
        !reading.view_setting,
        !reading.combat_range,
    ensures
        taken,
        final(realmlist)@ == old(realmlist)@,
        *final(knobs) == (Knobs { interior: final(knobs).interior, ..*old(knobs) }),
        interior_moved(lower(name@), v, old(knobs).interior, final(knobs).interior),
{
    let key = lower(name@);
    lemma_text_tags(key);
    lemma_interior_tags(key);
    lemma_interior_is_written(*old(knobs), key, v, *reading, *limits);
    lemma_interior_moved(key, v, old(knobs).interior, final(knobs).interior);
}

/// Where the light gains stand after a write, by the gain written.
pub open spec fn gains_moved(key: Seq<char>, v: Single, before: LightGains, after: LightGains) -> bool {
    &&& key == "nightgain"@ ==> after == (LightGains { night_gain: after.night_gain, ..before })
        && number_held(v, 0x3E4C_CCCD, 0x3FC0_0000, after.night_gain)
    &&& key == "interiorgain"@ ==> after == (LightGains { interior_gain: after.interior_gain, ..before })
        && number_held(v, 0x3E4C_CCCD, 0x3FC0_0000, after.interior_gain)
    &&& key == "interiordaylight"@ ==> after == (LightGains { interior_daylight: after.interior_daylight, ..before })
        && number_held(v, 0x0000_0000, 0x3F80_0000, after.interior_daylight)
    &&& key == "interiorbakefloor"@ ==> after == (LightGains { interior_bake_floor: after.interior_bake_floor, ..before })
        && number_held(v, 0x0000_0000, 0x3F80_0000, after.interior_bake_floor)
    &&& key == "firelightgain"@ ==> after == (LightGains { fire_light_gain: after.fire_light_gain, ..before })
        && number_held(v, 0x0000_0000, 0x4080_0000, after.fire_light_gain)
    &&& key == "spelllightgain"@ ==> after == (LightGains { spell_light_gain: after.spell_light_gain, ..before })
        && number_held(v, 0x0000_0000, 0x4080_0000, after.spell_light_gain)
    &&& key == "fireflicker"@ ==> after == (LightGains { fire_flicker: after.fire_flicker, ..before })
        && number_held(v, 0x0000_0000, 0x4000_0000, after.fire_flicker)
}

proof fn lemma_gains_moved(key: Seq<char>, v: Single, before: LightGains, after: LightGains)
    requires
        after_gains(before, key, v) == Some(after),
    ensures
        gains_moved(key, v, before, after),
{
    lemma_gains_tags(key);
    lemma_held(v, Single { bits: 0x0000_0000 }, Single { bits: 0x3F80_0000 });
    lemma_held(v, Single { bits: 0x0000_0000 }, Single { bits: 0x4000_0000 });
    lemma_held(v, Single { bits: 0x0000_0000 }, Single { bits: 0x4080_0000 });
    lemma_held(v, Single { bits: 0x3E4C_CCCD }, Single { bits: 0x3FC0_0000 });
}

/// A number written to a light gain moves that gain and nothing else.
pub proof fn a_gain_write_moves_its_own_gain(
    name: &str,
    reading: &Reading,
    limits: &Limits,
    knobs: &mut Knobs,
    realmlist: &mut String,
    taken: bool,
    v: Single,
)
    requires
        call_ensures(apply_to_knobs, (name, reading, limits, knobs, realmlist), taken),
        reading.number == Some(v),
        gains_setting(lower(name@)),
        !reading.view_setting,
        !reading.combat_range,
    ensures
        taken,
        final(realmlist)@ == old(realmlist)@,
        *final(knobs) == (Knobs { gains: final(knobs).gains, ..*old(knobs) }),
        gains_moved(lower(name@), v, old(knobs).gains, final(knobs).gains),
{
    let key = lower(name@);
    lemma_text_tags(key);
    lemma_gains_tags(key);
    lemma_gains_is_written(*old(knobs), key, v, *reading, *limits);
    lemma_gains_moved(key, v, old(knobs).gains, final(knobs).gains);
}

/// Where the display stands after a write, by the setting written.
pub open spec fn display_moved(key: Seq<char>, v: Single, reading: Reading, limits: Limits, before: DisplayConfig, after: DisplayConfig) -> bool {
    &&& key == "gxwindow"@ ==> after == (DisplayConfig { mode: after.mode, ..before })
        && switched(v, after.mode == DisplayMode::Windowed)
    &&& key == "boothhalfrate"@ ==> after == (DisplayConfig { pane_half: after.pane_half, ..before })
        && switched(v, after.pane_half)
    &&& key == "renderscale"@ ==> after == (DisplayConfig { render_scale: after.render_scale, ..before })
        && held_between(v, limits.render_scale.0, limits.render_scale.1, after.render_scale)
    &&& key == "fpsjournal"@ ==> after == (DisplayConfig { fps_journal: after.fps_journal, ..before })
        && switched(v, after.fps_journal)
    &&& key == "gxmultisample"@ ==> after == (DisplayConfig { samples: after.samples, ..before })
        && after.samples == reading.granted
    &&& key == "trilinear"@ ==> after == (DisplayConfig { trilinear: after.trilinear, ..before })
        && switched(v, after.trilinear)
    &&& key == "anisotropic"@ ==> after == (DisplayConfig { aniso: after.aniso, ..before })
        && counted(v, 1, 16, after.aniso as int)
}

proof fn lemma_display_moved(key: Seq<char>, v: Single, reading: Reading, limits: Limits, before: DisplayConfig, after: DisplayConfig)
    requires
        after_display(before, key, v, reading, limits) == Some(after),
        limits.wf(),
    ensures
        display_moved(key, v, reading, limits, before, after),
{
    lemma_display_tags(key);
    lemma_counted(v, 1, 16, u32::MAX as int);
    lemma_held(v, limits.render_scale.0, limits.render_scale.1);
    lemma_switched(v);
}

/// A number written to a setting of the display moves that setting and nothing else; the samples
/// are those the device grants.
pub proof fn a_display_write_moves_its_own_setting(
    name: &str,
    reading: &Reading,
    limits: &Limits,
    knobs: &mut Knobs,
    realmlist: &mut String,
    taken: bool,
    v: Single,
)
    requires
        call_ensures(apply_to_knobs, (name, reading, limits, knobs, realmlist), taken),
        reading.number == Some(v),
        display_setting(lower(name@)),
        limits.wf(),
        !reading.view_setting,
        !reading.combat_range,
    ensures
        taken,
        final(realmlist)@ == old(realmlist)@,
        *final(knobs) == (Knobs { display: final(knobs).display, ..*old(knobs) }),
        display_moved(lower(name@), v, *reading, *limits, old(knobs).display, final(knobs).display),
{
    let key = lower(name@);
    lemma_text_tags(key);
    lemma_display_tags(key);
    lemma_display_is_written(*old(knobs), key, v, *reading, *limits);
    lemma_display_moved(key, v, *reading, *limits, old(knobs).display, final(knobs).display);
}

/// A text written to a text-valued setting moves no knob but the window's size, which a text that
/// reads as one becomes, and no address but the realm's, which a text that reads as one becomes.
/// A text that reads as neither moves nothing, and no number has a say.
pub proof fn a_text_moves_its_own_setting(
    name: &str,
    reading: &Reading,
    limits: &Limits,
    knobs: &mut Knobs,
    realmlist: &mut String,
    taken: bool,
)
    requires
        call_ensures(apply_to_knobs, (name, reading, limits, knobs, realmlist), taken),
        string_valued(lower(name@)),
    ensures
        taken,
        *final(knobs) == (Knobs {
            display: DisplayConfig { windowed: final(knobs).display.windowed, ..old(knobs).display },
            ..*old(knobs)
        }),
        lower(name@) == "gxresolution"@ ==> final(realmlist)@ == old(realmlist)@ && final(knobs).display.windowed == (
        match reading.resolution {
            Some(size) => size,
            None => old(knobs).display.windowed,
        }),
        lower(name@) == "realmlist"@ ==> final(knobs).display.windowed == old(knobs).display.windowed && (
        match reading.address {
            Some(address) => final(realmlist)@ == address@,
            None => final(realmlist)@ == old(realmlist)@,
        }),
        lower(name@) == "gxapi"@ || lower(name@) == "realmname"@ ==> *final(knobs) == *old(knobs) && final(
            realmlist)@ == old(realmlist)@,
{
    lemma_text_moved(*old(knobs), lower(name@), *reading);
}

proof fn lemma_text_moved(k: Knobs, key: Seq<char>, reading: Reading)
    ensures
        after_text(k, key, reading) == (Knobs {
            display: DisplayConfig { windowed: after_text(k, key, reading).display.windowed, ..k.display },
            ..k
        }),
        key == "gxresolution"@ ==> after_text(k, key, reading).display.windowed == (match reading.resolution {
            Some(size) => size,
            None => k.display.windowed,
        }),
        key == "gxresolution"@ ==> key != "realmlist"@,
        key != "gxresolution"@ ==> after_text(k, key, reading) == k,
        key == "realmlist"@ || key == "gxapi"@ || key == "realmname"@ ==> key != "gxresolution"@,
        key == "gxapi"@ || key == "realmname"@ ==> key != "realmlist"@,
{
    lemma_text_tags(key);
}

/// A name that is no setting's is not taken, and moves nothing.
pub proof fn an_unknown_name_moves_nothing(
    name: &str,
    reading: &Reading,
    limits: &Limits,
    knobs: &mut Knobs,
    realmlist: &mut String,
    taken: bool,
)
    requires
        call_ensures(apply_to_knobs, (name, reading, limits, knobs, realmlist), taken),
        !taken,
    ensures
        *final(knobs) == *old(knobs),
        final(realmlist)@ == old(realmlist)@,
        !string_valued(lower(name@)),
        !sound_setting(lower(name@)) && !view_setting(lower(name@)) && !look_setting(lower(name@)) && !follow_setting(
            lower(name@),
        ) && !damage_text_setting(lower(name@)) && !names_setting(lower(name@)) && !camera_opts_setting(lower(name@))
            && !interface_setting(lower(name@)) && !scene_setting(lower(name@)) && !shadow_setting(lower(name@))
            && !interior_setting(lower(name@)) && !gains_setting(lower(name@)) && !display_setting(lower(name@)),
{
    a_write_is_taken_by_name(*old(knobs), name@, *reading, *limits);
}

/// A number written to a setting that another part of the client keeps, a saved camera view's or
/// a range of the combat log's, is taken and moves no knob.
pub proof fn a_setting_kept_elsewhere_moves_no_knob(
    name: &str,
    reading: &Reading,
    limits: &Limits,
    knobs: &mut Knobs,
    realmlist: &mut String,
    taken: bool,
)
    requires
        call_ensures(apply_to_knobs, (name, reading, limits, knobs, realmlist), taken),
        !string_valued(lower(name@)),
        !knob_key(lower(name@)),
        reading.view_setting || reading.combat_range,
    ensures
        taken,
        *final(knobs) == *old(knobs),
        final(realmlist)@ == old(realmlist)@,
{
    let k = *old(knobs);
    let key = lower(name@);
    a_write_is_taken_by_name(k, name@, *reading, *limits);
    if let Some(v) = reading.number {
        assert(after_sound(k.sound, key, v) is None);
        assert(after_view(k.view, key, v, *limits) is None);
        assert(after_look(k.look, key, v) is None);
        assert(after_follow(k.follow, key, v, *reading) is None);
        assert(after_damage_text(k.damage_text, key, v) is None);
    }
}

/// A text that reads as no number moves no knob but a text-valued one, whatever setting it is
/// written to.
pub proof fn a_text_that_is_no_number_moves_no_knob(
    name: &str,
    reading: &Reading,
    limits: &Limits,
    knobs: &mut Knobs,
    realmlist: &mut String,
    taken: bool,
)
    requires
        call_ensures(apply_to_knobs, (name, reading, limits, knobs, realmlist), taken),
        !string_valued(lower(name@)),
        reading.number is None,
    ensures
        *final(knobs) == *old(knobs),
        final(realmlist)@ == old(realmlist)@,
        knob_key(lower(name@)) ==> taken,
{
    a_write_is_taken_by_name(*old(knobs), name@, *reading, *limits);
}

} // verus!
