//! What holds of every settings file: when it is written, what of it is applied, and how it is
//! read.
use crate::cvars::compose::{
    compose_file, compose_keeps_session_owned_values, compose_never_forks_a_spelling,
    compose_preserves_what_it_does_not_own, compose_writes_the_diff, composed, distinct_names,
    lemma_no_spelling, lemma_row_keeps_others, lemma_single_spelling, live_views, owned,
    single_spelled, Live, LiveView,
};
use crate::cvars::config_map::{
    is_spelling, ordered, spelling_is_unique, value_for, ConfigMap,
};
use crate::cvars::knobs::{apply_to_knobs, Knobs, Limits, Reading};
use crate::cvars::persist::{
    loaded_address, loaded_knobs, loads, some_taken, synced_address, synced_knobs,
    taken, CvarPersist, LaunchSwitches, Save,
};
use crate::cvars::registered::{
    deviates, has_distinct_names, is_registered, ours, overridden, registered_pairs, same,
    Reference, Registered,
};
use crate::cvars::stored::{
    boot_cvar, decode_config, document_view, section_at, stored_config, table_view, texts_of,
    Document, Section, SectionView, StoredConfig, StoredView,
};
use crate::text::{lower, precedes};
use vstd::prelude::*;

verus! {

/// Some key of the list reads `key`.
pub open spec fn listed(keys: Seq<String>, key: Seq<char>) -> bool {
    exists|i: int| 0 <= i < keys.len() && (#[trigger] keys[i])@ == key
}

proof fn lemma_switch_keys(key: Seq<char>)
    ensures
        key == "uiscale"@ ==> key.len() == 7 && key[0] == 'u',
        key == "farclip"@ ==> key.len() == 7 && key[0] == 'f',
        key == "worlddetail"@ ==> key.len() == 11 && key[0] == 'w',
        key == "frilldensity"@ ==> key.len() == 12 && key[0] == 'f',
        key == "gxvsync"@ ==> key.len() == 7 && key[0] == 'g',
        key == "trilinear"@ ==> key.len() == 9 && key[0] == 't',
        key == "anisotropic"@ ==> key.len() == 11 && key[0] == 'a',
        key == "gxwindow"@ ==> key.len() == 8 && key[0] == 'g',
        key == "gxresolution"@ ==> key.len() == 12 && key[0] == 'g',
        key == "gxmultisample"@ ==> key.len() == 13 && key[0] == 'g',
        key == "renderscale"@ ==> key.len() == 11 && key[0] == 'r',
        key == "realmlist"@ ==> key.len() == 9 && key[0] == 'r',
        key == "gxapi"@ ==> key.len() == 5 && key[0] == 'g',
{
    reveal_strlit("uiscale");
    reveal_strlit("farclip");
    reveal_strlit("worlddetail");
    reveal_strlit("frilldensity");
    reveal_strlit("gxvsync");
    reveal_strlit("trilinear");
    reveal_strlit("anisotropic");
    reveal_strlit("gxwindow");
    reveal_strlit("gxresolution");
    reveal_strlit("gxmultisample");
    reveal_strlit("renderscale");
    reveal_strlit("realmlist");
    reveal_strlit("gxapi");
}

/// Each switch of a launch takes its own settings from the file and no other's; the render
/// backend's name is always taken, and what was taken before stays so.
pub proof fn a_switch_takes_its_own_settings(
    p: &mut CvarPersist,
    s: &LaunchSwitches,
    stored: StoredConfig,
    rows: &Vec<Registered>,
    readings: &Vec<Reading>,
    limits: &Limits,
    knobs: &mut Knobs,
    realmlist: &mut String,
    loaded: (),
    key: Seq<char>,
)
    requires
        call_ensures(CvarPersist::load_config, (p, s, stored, rows, readings, limits, knobs, realmlist), loaded),
    ensures
        listed(old(p).session_owned@, key) ==> listed(final(p).session_owned@, key),
        listed(final(p).session_owned@, "gxapi"@),
        !listed(old(p).session_owned@, key) ==> {
            &&& key == "uiscale"@ ==> (listed(final(p).session_owned@, key) <==> s.ui_scale)
            &&& key == "farclip"@ ==> (listed(final(p).session_owned@, key) <==> s.farclip)
            &&& key == "worlddetail"@ ==> (listed(final(p).session_owned@, key) <==> s.clutter_density)
            &&& key == "frilldensity"@ ==> (listed(final(p).session_owned@, key) <==> s.clutter_density)
            &&& key == "gxvsync"@ ==> (listed(final(p).session_owned@, key) <==> s.no_vsync)
            &&& key == "trilinear"@ ==> (listed(final(p).session_owned@, key) <==> s.trilinear)
            &&& key == "anisotropic"@ ==> (listed(final(p).session_owned@, key) <==> s.aniso)
            &&& key == "gxwindow"@ ==> (listed(final(p).session_owned@, key) <==> s.windowed)
            &&& key == "gxresolution"@ ==> (listed(final(p).session_owned@, key) <==> s.windowed)
            &&& key == "gxmultisample"@ ==> (listed(final(p).session_owned@, key) <==> s.msaa)
            &&& key == "renderscale"@ ==> (listed(final(p).session_owned@, key) <==> s.render_scale)
            &&& key == "realmlist"@ ==> (listed(final(p).session_owned@, key) <==> s.host)
            &&& listed(final(p).session_owned@, key) ==> key == "uiscale"@ || key == "farclip"@ || key == "worlddetail"@ || key
                == "frilldensity"@ || key == "gxvsync"@ || key == "trilinear"@ || key == "anisotropic"@ || key
                == "gxwindow"@ || key == "gxresolution"@ || key == "gxmultisample"@ || key == "renderscale"@ || key
                == "realmlist"@ || key == "gxapi"@
        },
{
    lemma_switch_keys(key);
    assert(owned(final(p).session_owned@, key) == (owned(old(p).session_owned@, key) || taken(*s, key)));
    assert(owned(final(p).session_owned@, "gxapi"@) == (owned(old(p).session_owned@, "gxapi"@) || taken(*s, "gxapi"@)));
}

/// An engine's table is seeded once: its first claim holds, its next does not, and another
/// engine's holds again. A claim touches nothing but who holds it.
pub proof fn an_engine_is_seeded_once(first: &mut CvarPersist, second: &mut CvarPersist, engine: u64, other: u64, r: bool, again: bool)
    requires
        call_ensures(CvarPersist::claim, (first, engine), r),
        *old(second) == *final(first),
        call_ensures(CvarPersist::claim, (second, other), again),
    ensures
        old(first).registered is None ==> r,
        again <==> other != engine,
        final(first).registered == Some(engine),
        final(first).file == old(first).file,
        final(first).session_owned == old(first).session_owned,
        final(first).dirty == old(first).dirty,
        final(first).last_change == old(first).last_change,
{
}

/// A change waits for one quiet second: it is not saved before, it is saved then or when the
/// client leaves, and it stays due until its write has ended.
pub proof fn a_change_is_saved_after_a_quiet_second(
    changed: &mut CvarPersist,
    at: u64,
    asked: &mut CvarPersist,
    now: u64,
    exiting: bool,
    snapshot: &Vec<Live>,
    nothing: (),
    r: Option<Save>,
)
    requires
        call_ensures(CvarPersist::write_host_cvar, (changed, at), nothing),
        *old(asked) == *final(changed),
        call_ensures(CvarPersist::save_config, (asked, now, exiting, Some(snapshot), true), r),
        snapshot@.len() > 0,
    ensures
        r is Some <==> exiting || now >= at + 1_000_000_000,
        final(asked).dirty,
        final(asked).last_change == Some(at),
        final(asked).file == old(changed).file,
        final(asked).session_owned == old(changed).session_owned,
{
}

/// Nothing is saved where nothing changed. A change is dropped where there is no place for the
/// file and where the engine's table is empty, and waits on where there is no engine.
pub proof fn a_change_without_a_place_is_dropped(
    p: &mut CvarPersist,
    now: u64,
    exiting: bool,
    snapshot: Option<&Vec<Live>>,
    has_path: bool,
    r: Option<Save>,
)
    requires
        call_ensures(CvarPersist::save_config, (p, now, exiting, snapshot, has_path), r),
    ensures
        !old(p).dirty ==> r is None && *final(p) == *old(p),
        snapshot is None ==> r is None && *final(p) == *old(p),
        !has_path ==> r is None,
        snapshot matches Some(rows) ==> (rows@.len() == 0 ==> r is None),
        old(p).dirty && exiting && !has_path && snapshot is Some ==> !final(p).dirty,
        old(p).dirty && exiting ==> (snapshot matches Some(rows) ==> (rows@.len() == 0 ==> !final(p).dirty)),
        final(p).file == old(p).file,
        final(p).session_owned == old(p).session_owned,
        final(p).registered == old(p).registered,
        final(p).last_change == old(p).last_change,
{
}

/// A save holds what the file said, with the live settings of the player laid over it: what moved
/// off its default is there with its value, what stands at its default is not, and what the
/// session owns is as it was. Read back, its text gives this very table.
pub proof fn a_save_lays_the_live_settings_over_the_file(
    p: &mut CvarPersist,
    now: u64,
    exiting: bool,
    snapshot: &Vec<Live>,
    r: Option<Save>,
    save: Save,
    i: int,
    read: StoredConfig,
    text: &str,
)
    requires
        call_ensures(CvarPersist::save_config, (p, now, exiting, Some(snapshot), true), r),
        r == Some(save),
        single_spelled(old(p).file@),
        distinct_names(live_views(snapshot@)),
        0 <= i < snapshot@.len(),
        text@ == save.text@,
        call_ensures(stored_config, (Some(text),), read),
    ensures
        !listed(old(p).session_owned@, lower(snapshot@[i].name@)) && snapshot@[i].value@ != snapshot@[i].default@ ==> value_for(
            save.cvars@,
            snapshot@[i].name@,
        ) == Some(snapshot@[i].value@),
        !listed(old(p).session_owned@, lower(snapshot@[i].name@)) && snapshot@[i].value@ == snapshot@[i].default@ ==> value_for(
            save.cvars@,
            snapshot@[i].name@,
        ) is None,
        listed(old(p).session_owned@, lower(snapshot@[i].name@)) ==> value_for(save.cvars@, snapshot@[i].name@)
            == value_for(old(p).file@, snapshot@[i].name@),
        read@ == StoredView::Table(save.cvars@),
{
    let rows = live_views(snapshot@);
    assert(rows[i] == snapshot@[i]@);
    let n = rows.len() as int;
    if owned(old(p).session_owned@, lower(rows[i].name)) {
        compose_keeps_session_owned_values(old(p).file@, old(p).session_owned@, rows, n, rows[i].name);
    } else {
        compose_writes_the_diff(old(p).file@, old(p).session_owned@, rows, i, n);
    }
}

/// Composing a file keeps every entry that no live setting names, under its own spelling.
pub proof fn a_composed_file_keeps_what_nothing_names(
    previous: &ConfigMap,
    session_owned: &Vec<String>,
    snapshot: &Vec<Live>,
    r: ConfigMap,
    key: Seq<char>,
)
    requires
        call_ensures(compose_file, (previous, session_owned, snapshot), r),
        listed(session_owned@, lower(key)) || forall|i: int|
            0 <= i < snapshot@.len() ==> lower((#[trigger] snapshot@[i]).name@) != lower(key),
    ensures
        r@.contains_key(key) <==> previous@.contains_key(key),
        previous@.contains_key(key) ==> r@[key] == previous@[key],
{
    let rows = live_views(snapshot@);
    assert(rows.len() == snapshot@.len());
    if !listed(session_owned@, lower(key)) {
        assert forall|i: int| 0 <= i < rows.len() implies lower((#[trigger] rows[i]).name) != lower(key) by {
            assert(rows[i] == snapshot@[i]@);
        }
    }
    compose_preserves_what_it_does_not_own(previous@, session_owned@, rows, rows.len() as int, key);
}

proof fn lemma_spelling_is_kept(
    previous: Map<Seq<char>, Seq<char>>,
    session_owned: Seq<String>,
    rows: Seq<LiveView>,
    i: int,
    n: int,
    key: Seq<char>,
)
    requires
        0 <= i < n <= rows.len(),
        single_spelled(previous),
        distinct_names(rows),
        !owned(session_owned, lower(rows[i].name)),
        lower(key) == lower(rows[i].name),
        rows[i].value != rows[i].default,
        previous.contains_key(key) || (key == rows[i].name && forall|k: Seq<char>| #[trigger]
            previous.contains_key(k) ==> lower(k) != lower(key)),
    ensures
        composed(previous, session_owned, rows, n).contains_key(key),
        composed(previous, session_owned, rows, n)[key] == rows[i].value,
    decreases n,
{
    let before = composed(previous, session_owned, rows, n - 1);
    if i == n - 1 {
        compose_never_forks_a_spelling(previous, session_owned, rows, n - 1);
        assert forall|k: Seq<char>| lower(k) == lower(key) implies #[trigger] before.contains_key(k) == previous.contains_key(k) by {
            assert forall|j: int| 0 <= j < n - 1 implies lower((#[trigger] rows[j]).name) != lower(k) by {
                assert(lower(rows[j].name) != lower(rows[i].name));
            }
            compose_preserves_what_it_does_not_own(previous, session_owned, rows, n - 1, k);
        }
        if previous.contains_key(key) {
            lemma_single_spelling(before, rows[i].name, key);
        } else {
            assert forall|k: Seq<char>| #[trigger] before.contains_key(k) implies lower(k) != lower(rows[i].name) by {
                if lower(k) == lower(key) {
                    assert(previous.contains_key(k));
                }
            }
            lemma_no_spelling(before, rows[i].name);
        }
    } else {
        lemma_spelling_is_kept(previous, session_owned, rows, i, n - 1, key);
        assert(lower(rows[i].name) != lower(rows[n - 1].name));
        lemma_row_keeps_others(before, session_owned, rows[n - 1], key);
    }
}

/// A setting that moved is written under the spelling the file has for it, whatever the engine's,
/// and under the engine's own where the file has none.
pub proof fn a_moved_setting_keeps_the_files_spelling(
    previous: &ConfigMap,
    session_owned: &Vec<String>,
    snapshot: &Vec<Live>,
    r: ConfigMap,
    i: int,
    key: Seq<char>,
)
    requires
        call_ensures(compose_file, (previous, session_owned, snapshot), r),
        single_spelled(previous@),
        distinct_names(live_views(snapshot@)),
        0 <= i < snapshot@.len(),
        !listed(session_owned@, lower(snapshot@[i].name@)),
        snapshot@[i].value@ != snapshot@[i].default@,
        lower(key) == lower(snapshot@[i].name@),
        previous@.contains_key(key) || (key == snapshot@[i].name@ && forall|k: Seq<char>| #[trigger]
            previous@.contains_key(k) ==> lower(k) != lower(key)),
    ensures
        r@.contains_key(key),
        r@[key] == snapshot@[i].value@,
{
    let rows = live_views(snapshot@);
    assert(rows[i] == snapshot@[i]@);
    lemma_spelling_is_kept(previous@, session_owned@, rows, i, rows.len() as int, key);
}

/// Of several spellings of one setting the first in name order is the one that is read.
pub proof fn the_first_spelling_is_read(p: &CvarPersist, name: &str, r: Option<String>, key: Seq<char>)
    requires
        call_ensures(CvarPersist::stored, (p, name), r),
        p.file@.contains_key(key),
        lower(key) == lower(name@),
        forall|other: Seq<char>| #[trigger] p.file@.contains_key(other) && lower(other) == lower(name@) && other != key
            ==> precedes(key, other),
    ensures
        r matches Some(value) && value@ == p.file@[key],
{
    assert(is_spelling(p.file@, name@, key));
    spelling_is_unique(p.file@, name@, key);
}

/// Once a write has ended nothing is left to save; the file holds the saved table where the write
/// took, and what it held before where it did not.
pub proof fn an_ended_write_leaves_nothing_due(
    p: &mut CvarPersist,
    cvars: ConfigMap,
    written: bool,
    nothing: (),
    asked: &mut CvarPersist,
    now: u64,
    exiting: bool,
    snapshot: Option<&Vec<Live>>,
    has_path: bool,
    r: Option<Save>,
)
    requires
        call_ensures(CvarPersist::finish_save, (p, cvars, written), nothing),
        *old(asked) == *final(p),
        call_ensures(CvarPersist::save_config, (asked, now, exiting, snapshot, has_path), r),
    ensures
        r is None,
        written ==> final(p).file == cvars,
        !written ==> final(p).file == old(p).file,
        final(p).session_owned == old(p).session_owned,
{
}

/// An entry of the file is applied where its name is registered, whatever its case, and the
/// session does not own it.
pub proof fn only_the_players_registered_settings_apply(p: &CvarPersist, rows: &Vec<Registered>, name: &str, r: bool, known: bool, key: &str)
    requires
        call_ensures(CvarPersist::applies, (p, rows, name), r),
        key@ == lower(name@),
        call_ensures(is_registered, (rows, key), known),
    ensures
        r <==> known && !listed(p.session_owned@, lower(name@)),
{
}

/// A key is registered exactly where some row's name reads it in lower case.
pub proof fn a_key_is_registered_by_its_lowercased_name(rows: &Vec<Registered>, key: &str, r: bool, i: int)
    requires
        call_ensures(is_registered, (rows, key), r),
        0 <= i < rows@.len(),
    ensures
        lower(rows@[i].name@) == key@ ==> r,
        (forall|k: int| 0 <= k < rows@.len() ==> lower((#[trigger] rows@[k]).name@) != key@) ==> !r,
{
}

/// Two rows with one name, up to case, are found out.
pub proof fn a_name_registered_twice_is_found(rows: &Vec<Registered>, r: bool, i: int, j: int)
    requires
        call_ensures(has_distinct_names, (rows,), r),
        0 <= i < j < rows@.len(),
        lower(rows@[i].name@) == lower(rows@[j].name@),
    ensures
        !r,
{
}

/// The engine is handed every row's name with that row's default, in table order.
pub proof fn every_row_is_handed_over_with_its_default(rows: &Vec<Registered>, r: Vec<(&'static str, &'static str)>, i: int)
    requires
        call_ensures(registered_pairs, (rows,), r),
        0 <= i < rows@.len(),
    ensures
        r@.len() == rows@.len(),
        r@[i].0 == rows@[i].name,
        r@[i].1 == rows@[i].default,
{
}

/// A row keeps the name and the default it was made with, and says how the default stands to the
/// stock client's.
pub proof fn a_row_keeps_its_name_and_default(
    name: &'static str,
    default: &'static str,
    stock: &'static str,
    why: &'static str,
    a: Registered,
    b: Registered,
    c: Registered,
    d: Registered,
)
    requires
        call_ensures(same, (name, default), a),
        call_ensures(overridden, (name, default, stock, why), b),
        call_ensures(deviates, (name, default, stock, why), c),
        call_ensures(ours, (name, default, why), d),
    ensures
        a.name == name && b.name == name && c.name == name && d.name == name,
        a.default == default && b.default == default && c.default == default && d.default == default,
        a.reference == Reference::Same(default),
        b.reference == (Reference::Overridden { registered: stock, why }),
        c.reference == (Reference::Deviates { value: stock, why }),
        d.reference == Reference::Ours(why),
{
}

/// A setting is found in the file under the one spelling that the file has for it, by the running
/// client and at its launch alike, and is not found where the file has none.
pub proof fn a_stored_setting_is_found_whatever_its_case(
    p: &CvarPersist,
    boot: &StoredConfig,
    name: &str,
    r: Option<String>,
    early: Option<String>,
    key: Seq<char>,
)
    requires
        call_ensures(CvarPersist::stored, (p, name), r),
        call_ensures(boot_cvar, (boot, name), early),
        boot@ == StoredView::Table(p.file@),
        single_spelled(p.file@),
    ensures
        p.file@.contains_key(key) && lower(key) == lower(name@) ==> (r matches Some(value) && value@ == p.file@[key]) && (
        early matches Some(value) && value@ == p.file@[key]),
        (forall|k: Seq<char>| #[trigger] p.file@.contains_key(k) ==> lower(k) != lower(name@)) ==> r is None && early is None,
{
    let m = p.file@;
    if m.contains_key(key) && lower(key) == lower(name@) {
        assert(is_spelling(m, name@, key));
        spelling_is_unique(m, name@, key);
    }
    if forall|k: Seq<char>| #[trigger] m.contains_key(k) ==> lower(k) != lower(name@) {
        assert forall|k: Seq<char>| !(#[trigger] is_spelling(m, name@, k)) by {}
    }
}

/// Without a file nothing is found at launch.
pub proof fn nothing_is_found_without_a_file(boot: &StoredConfig, name: &str, r: Option<String>)
    requires
        call_ensures(boot_cvar, (boot, name), r),
        !(boot@ is Table),
    ensures
        r is None,
{
}

/// Addon versions are checked unless the file says zero.
pub proof fn versions_are_checked_unless_the_file_says_zero(p: &CvarPersist, name: &str, value: Option<String>, r: bool)
    requires
        name@ == "checkAddonVersion"@,
        call_ensures(CvarPersist::stored, (p, name), value),
        call_ensures(CvarPersist::addon_version_check, (p,), r),
    ensures
        value is None ==> r,
        value matches Some(text) ==> (r <==> text@ != seq!['0']),
{
    reveal_strlit("0");
    assert("0"@ =~= seq!['0']);
}

/// A drained change does what writing it does: to the knobs, to the realm address, and, where a
/// knob took it, to the file, which is then due for a save.
pub proof fn a_drained_change_is_a_write(
    p: &mut CvarPersist,
    changes: &Vec<(String, Reading)>,
    now: u64,
    limits: &Limits,
    knobs: &mut Knobs,
    realmlist: &mut String,
    nothing: (),
    name: &str,
    written: &mut Knobs,
    address: &mut String,
    taken: bool,
)
    requires
        call_ensures(CvarPersist::sync_cvars, (p, changes, now, limits, knobs, realmlist), nothing),
        changes@.len() == 1,
        name@ == changes@[0].0@,
        *old(written) == *old(knobs),
        old(address)@ == old(realmlist)@,
        call_ensures(apply_to_knobs, (name, &changes@[0].1, limits, written, address), taken),
    ensures
        *final(knobs) == *final(written),
        final(realmlist)@ == final(address)@,
        final(p).dirty <==> old(p).dirty || taken,
        taken ==> final(p).last_change == Some(now),
        !taken ==> final(p).last_change == old(p).last_change,
        final(p).file == old(p).file && final(p).session_owned == old(p).session_owned && final(p).registered == old(
            p).registered,
{
    reveal_with_fuel(synced_knobs, 2);
    reveal_with_fuel(synced_address, 2);
    reveal_with_fuel(some_taken, 2);
}

proof fn lemma_synced_in_turn(start: Knobs, address: Seq<char>, a: Seq<(String, Reading)>, b: Seq<(String, Reading)>, limits: Limits, n: int)
    requires
        0 <= n <= b.len(),
    ensures
        ({
            let m = a.len() as int;
            let middle = synced_knobs(start, a, limits, m);
            &&& synced_knobs(start, a + b, limits, m + n) == synced_knobs(middle, b, limits, n)
            &&& synced_address(address, a + b, m + n) == synced_address(synced_address(address, a, m), b, n)
            &&& some_taken(start, a + b, limits, m + n) == (some_taken(start, a, limits, m) || some_taken(middle, b, limits, n))
        }),
    decreases n,
{
    if n > 0 {
        lemma_synced_in_turn(start, address, a, b, limits, n - 1);
        assert((a + b)[a.len() + n - 1] == b[n - 1]);
    } else {
        lemma_same_start(start, address, a, b, limits, a.len() as int);
    }
}

proof fn lemma_same_start(start: Knobs, address: Seq<char>, a: Seq<(String, Reading)>, b: Seq<(String, Reading)>, limits: Limits, n: int)
    requires
        0 <= n <= a.len(),
    ensures
        synced_knobs(start, a + b, limits, n) == synced_knobs(start, a, limits, n),
        synced_address(address, a + b, n) == synced_address(address, a, n),
        some_taken(start, a + b, limits, n) == some_taken(start, a, limits, n),
    decreases n,
{
    if n > 0 {
        lemma_same_start(start, address, a, b, limits, n - 1);
        assert((a + b)[n - 1] == a[n - 1]);
    }
}

/// Changes drained together land as they do when drained in turn, the earlier before the later.
pub proof fn changes_land_in_order(
    p: &mut CvarPersist,
    all: &Vec<(String, Reading)>,
    now: u64,
    limits: &Limits,
    knobs: &mut Knobs,
    realmlist: &mut String,
    together: (),
    q: &mut CvarPersist,
    earlier: &Vec<(String, Reading)>,
    knobs_one: &mut Knobs,
    address_one: &mut String,
    first: (),
    s: &mut CvarPersist,
    later: &Vec<(String, Reading)>,
    knobs_two: &mut Knobs,
    address_two: &mut String,
    second: (),
)
    requires
        all@ == earlier@ + later@,
        call_ensures(CvarPersist::sync_cvars, (p, all, now, limits, knobs, realmlist), together),
        *old(q) == *old(p),
        *old(knobs_one) == *old(knobs),
        old(address_one)@ == old(realmlist)@,
        call_ensures(CvarPersist::sync_cvars, (q, earlier, now, limits, knobs_one, address_one), first),
        *old(s) == *final(q),
        *old(knobs_two) == *final(knobs_one),
        old(address_two)@ == final(address_one)@,
        call_ensures(CvarPersist::sync_cvars, (s, later, now, limits, knobs_two, address_two), second),
    ensures
        *final(knobs) == *final(knobs_two),
        final(realmlist)@ == final(address_two)@,
        *final(p) == *final(s),
{
    lemma_synced_in_turn(*old(knobs), old(realmlist)@, earlier@, later@, *limits, later@.len() as int);
}

/// A drain of nothing changes nothing.
pub proof fn an_empty_drain_changes_nothing(
    p: &mut CvarPersist,
    changes: &Vec<(String, Reading)>,
    now: u64,
    limits: &Limits,
    knobs: &mut Knobs,
    realmlist: &mut String,
    nothing: (),
)
    requires
        call_ensures(CvarPersist::sync_cvars, (p, changes, now, limits, knobs, realmlist), nothing),
        changes@.len() == 0,
    ensures
        *final(knobs) == *old(knobs),
        final(realmlist)@ == old(realmlist)@,
        *final(p) == *old(p),
{
}

/// A leaving engine's changes land as any drained change does, and its settings go into the file
/// as a save's would; an engine with no settings leaves the file alone.
pub proof fn a_leaving_engine_hands_over_its_settings(
    p: &mut CvarPersist,
    changes: &Vec<(String, Reading)>,
    snapshot: &Vec<Live>,
    now: u64,
    limits: &Limits,
    knobs: &mut Knobs,
    realmlist: &mut String,
    folded: (),
    q: &mut CvarPersist,
    knobs_drained: &mut Knobs,
    address_drained: &mut String,
    drained: (),
    file: ConfigMap,
)
    requires
        call_ensures(CvarPersist::fold_dying_vm_cvars, (p, changes, snapshot, now, limits, knobs, realmlist), folded),
        *old(q) == *old(p),
        *old(knobs_drained) == *old(knobs),
        old(address_drained)@ == old(realmlist)@,
        call_ensures(CvarPersist::sync_cvars, (q, changes, now, limits, knobs_drained, address_drained), drained),
        call_ensures(compose_file, (&old(p).file, &old(p).session_owned, snapshot), file),
    ensures
        *final(knobs) == *final(knobs_drained),
        final(realmlist)@ == final(address_drained)@,
        final(p).dirty == final(q).dirty,
        final(p).last_change == final(q).last_change,
        snapshot@.len() == 0 ==> final(p).file@ == old(p).file@,
        snapshot@.len() > 0 ==> final(p).file@ == file@,
        final(p).session_owned == old(p).session_owned && final(p).registered == old(p).registered,
{
}

proof fn lemma_nothing_loads(
    knobs: Knobs,
    address: Seq<char>,
    list: Seq<(Seq<char>, Seq<char>)>,
    session_owned: Seq<String>,
    rows: Seq<Registered>,
    readings: Seq<Reading>,
    limits: Limits,
    n: int,
)
    requires
        0 <= n <= list.len(),
        forall|i: int| 0 <= i < list.len() ==> !loads((#[trigger] list[i]).0, session_owned, rows),
    ensures
        loaded_knobs(knobs, list, session_owned, rows, readings, limits, n) == knobs,
        loaded_address(address, list, session_owned, rows, readings, n) == address,
    decreases n,
{
    if n > 0 {
        lemma_nothing_loads(knobs, address, list, session_owned, rows, readings, limits, n - 1);
        assert(!loads(list[n - 1].0, session_owned, rows));
    }
}

/// A file with one setting is applied as a write of that setting is, where the setting is
/// registered and no switch of the launch has taken it; where it is not, the file is kept and
/// moves nothing. Nothing read from the file makes it due for a save.
pub proof fn a_loaded_setting_is_a_write(
    p: &mut CvarPersist,
    s: &LaunchSwitches,
    stored: StoredConfig,
    m: Map<Seq<char>, Seq<char>>,
    rows: &Vec<Registered>,
    readings: &Vec<Reading>,
    limits: &Limits,
    knobs: &mut Knobs,
    realmlist: &mut String,
    loaded: (),
    name: &str,
    written: &mut Knobs,
    address: &mut String,
    taken_by_a_knob: bool,
    applied: bool,
)
    requires
        call_ensures(CvarPersist::load_config, (p, s, stored, rows, readings, limits, knobs, realmlist), loaded),
        stored@ == StoredView::Table(m),
        ordered(m).len() == 1,
        name@ == ordered(m)[0].0,
        *old(written) == *old(knobs),
        old(address)@ == old(realmlist)@,
        call_ensures(apply_to_knobs, (name, &readings@[0], limits, written, address), taken_by_a_knob),
        call_ensures(CvarPersist::applies, (&*final(p), rows, name), applied),
    ensures
        final(p).file@ == m,
        applied ==> *final(knobs) == *final(written) && final(realmlist)@ == final(address)@,
        !applied ==> *final(knobs) == *old(knobs) && final(realmlist)@ == old(realmlist)@,
        final(p).dirty == old(p).dirty,
        final(p).last_change == old(p).last_change,
        listed(old(p).session_owned@, lower(name@)) ==> !applied,
        s.farclip && lower(name@) == "farclip"@ ==> !applied,
        s.host && lower(name@) == "realmlist"@ ==> !applied,
        lower(name@) == "gxapi"@ ==> !applied,
{
    reveal_with_fuel(loaded_knobs, 2);
    reveal_with_fuel(loaded_address, 2);
    assert(owned(final(p).session_owned@, lower(name@)) == (owned(old(p).session_owned@, lower(name@)) || taken(*s, lower(name@))));
}

/// A file none of whose entries apply moves nothing and is kept; a missing or a bad one moves
/// nothing either, and what was known of the file stays.
pub proof fn a_file_that_has_no_say_moves_nothing(
    p: &mut CvarPersist,
    s: &LaunchSwitches,
    stored: StoredConfig,
    rows: &Vec<Registered>,
    readings: &Vec<Reading>,
    limits: &Limits,
    knobs: &mut Knobs,
    realmlist: &mut String,
    loaded: (),
)
    requires
        call_ensures(CvarPersist::load_config, (p, s, stored, rows, readings, limits, knobs, realmlist), loaded),
        stored@ matches StoredView::Table(m) ==> forall|i: int|
            0 <= i < ordered(m).len() ==> listed(final(p).session_owned@, lower((#[trigger] ordered(m)[i]).0)) || forall|k: int|
                0 <= k < rows@.len() ==> lower((#[trigger] rows@[k]).name@) != lower(ordered(m)[i].0),
    ensures
        *final(knobs) == *old(knobs),
        final(realmlist)@ == old(realmlist)@,
        stored@ matches StoredView::Table(m) ==> final(p).file@ == m,
        !(stored@ is Table) ==> final(p).file == old(p).file,
{
    if let StoredView::Table(m) = stored@ {
        let list = ordered(m);
        assert forall|i: int| 0 <= i < list.len() implies !loads((#[trigger] list[i]).0, final(p).session_owned@, rows@) by {
            assert(ordered(m)[i] == list[i]);
        }
        lemma_nothing_loads(
            *old(knobs),
            old(realmlist)@,
            list,
            final(p).session_owned@,
            rows@,
            readings@,
            *limits,
            list.len() as int,
        );
    }
}

proof fn lemma_loaded_alike(
    knobs: Knobs,
    address: Seq<char>,
    list: Seq<(Seq<char>, Seq<char>)>,
    longer: Seq<(Seq<char>, Seq<char>)>,
    ours: Seq<String>,
    theirs: Seq<String>,
    rows: Seq<Registered>,
    readings: Seq<Reading>,
    limits: Limits,
    n: int,
)
    requires
        0 <= n <= list.len() <= longer.len(),
        forall|i: int| 0 <= i < list.len() ==> #[trigger] list[i] == longer[i],
        forall|k: Seq<char>| #[trigger] owned(ours, k) == owned(theirs, k),
    ensures
        loaded_knobs(knobs, list, ours, rows, readings, limits, n) == loaded_knobs(
            knobs,
            longer,
            theirs,
            rows,
            readings,
            limits,
            n,
        ),
        loaded_address(address, list, ours, rows, readings, n) == loaded_address(address, longer, theirs, rows, readings, n),
    decreases n,
{
    if n > 0 {
        lemma_loaded_alike(knobs, address, list, longer, ours, theirs, rows, readings, limits, n - 1);
        assert(list[n - 1] == longer[n - 1]);
        assert(owned(ours, lower(list[n - 1].0)) == owned(theirs, lower(list[n - 1].0)));
    }
}

/// A file with one entry more, behind the others in name order, is applied as the file without it
/// and then a write of that entry, where the entry applies, and as the file without it where it
/// does not.
pub proof fn one_entry_more_is_applied_last(
    p: &mut CvarPersist,
    s: &LaunchSwitches,
    stored: StoredConfig,
    m: Map<Seq<char>, Seq<char>>,
    rows: &Vec<Registered>,
    readings: &Vec<Reading>,
    limits: &Limits,
    knobs: &mut Knobs,
    realmlist: &mut String,
    loaded: (),
    q: &mut CvarPersist,
    shorter: StoredConfig,
    fewer: Map<Seq<char>, Seq<char>>,
    knobs_fewer: &mut Knobs,
    address_fewer: &mut String,
    loaded_fewer: (),
    name: &str,
    value: Seq<char>,
    written: &mut Knobs,
    address: &mut String,
    taken_by_a_knob: bool,
    applied: bool,
)
    requires
        call_ensures(CvarPersist::load_config, (p, s, stored, rows, readings, limits, knobs, realmlist), loaded),
        call_ensures(
            CvarPersist::load_config,
            (q, s, shorter, rows, readings, limits, knobs_fewer, address_fewer),
            loaded_fewer,
        ),
        stored@ == StoredView::Table(m),
        shorter@ == StoredView::Table(fewer),
        ordered(m) == ordered(fewer).push((name@, value)),
        old(q).session_owned == old(p).session_owned,
        *old(knobs_fewer) == *old(knobs),
        old(address_fewer)@ == old(realmlist)@,
        *old(written) == *final(knobs_fewer),
        old(address)@ == final(address_fewer)@,
        call_ensures(
            apply_to_knobs,
            (name, &readings@[ordered(fewer).len() as int], limits, written, address),
            taken_by_a_knob,
        ),
        call_ensures(CvarPersist::applies, (&*final(p), rows, name), applied),
    ensures
        applied ==> *final(knobs) == *final(written) && final(realmlist)@ == final(address)@,
        !applied ==> *final(knobs) == *final(knobs_fewer) && final(realmlist)@ == final(address_fewer)@,
{
    let list = ordered(fewer);
    let longer = ordered(m);
    let n = list.len() as int;
    assert forall|k: Seq<char>| #[trigger] owned(final(q).session_owned@, k) == owned(final(p).session_owned@, k) by {
        assert(owned(final(p).session_owned@, k) == (owned(old(p).session_owned@, k) || taken(*s, k)));
    }
    lemma_loaded_alike(
        *old(knobs),
        old(realmlist)@,
        list,
        longer,
        final(q).session_owned@,
        final(p).session_owned@,
        rows@,
        readings@,
        *limits,
        n,
    );
    assert(longer[n] == (name@, value));
    assert(longer.len() == n + 1);
}

/// The seed of an engine's table holds every entry of the file that the session does not own, and
/// none that it owns.
pub proof fn the_seed_leaves_out_what_the_session_owns(p: &CvarPersist, r: Vec<(String, String)>, name: Seq<char>)
    requires
        call_ensures(CvarPersist::saved_base, (p,), r),
    ensures
        ({
            let seed = crate::cvars::config_map::map_of(r@);
            &&& listed(p.session_owned@, lower(name)) ==> !seed.contains_key(name)
            &&& !p.file@.contains_key(name) ==> !seed.contains_key(name)
            &&& p.file@.contains_key(name) && !listed(p.session_owned@, lower(name)) ==> seed.contains_key(name) && seed[name]
                == p.file@[name]
        }),
{
}

proof fn lemma_first_section(document: Seq<(Seq<char>, SectionView)>, from: int, at: int)
    requires
        0 <= from <= at < document.len(),
        document[at].0 == "cvars"@,
        forall|i: int| from <= i < at ==> (#[trigger] document[i]).0 != "cvars"@,
    ensures
        section_at(document, from) == Some(document[at].1),
    decreases at - from,
{
    if from < at {
        assert(document[from].0 != "cvars"@);
        lemma_first_section(document, from + 1, at);
    }
}

proof fn lemma_no_section(document: Seq<(Seq<char>, SectionView)>, from: int)
    requires
        0 <= from <= document.len(),
        forall|i: int| from <= i < document.len() ==> (#[trigger] document[i]).0 != "cvars"@,
    ensures
        section_at(document, from) is None,
    decreases document.len() - from,
{
    if from < document.len() {
        assert(document[from].0 != "cvars"@);
        lemma_no_section(document, from + 1);
    }
}

proof fn lemma_texts(entries: Seq<(Seq<char>, Option<Seq<char>>)>, n: int)
    requires
        0 <= n <= entries.len(),
    ensures
        texts_of(entries, n) is Some <==> forall|i: int| 0 <= i < n ==> (#[trigger] entries[i]).1 is Some,
        texts_of(entries, n) matches Some(m) ==> forall|name: Seq<char>| #[trigger]
            m.contains_key(name) ==> exists|i: int| 0 <= i < n && (#[trigger] entries[i]).0 == name,
        texts_of(entries, n) matches Some(m) ==> forall|i: int|
            0 <= i < n && (forall|j: int| i < j < n ==> (#[trigger] entries[j]).0 != entries[i].0) ==> m.contains_key(
                (#[trigger] entries[i]).0,
            ) && Some(m[entries[i].0]) == entries[i].1,
    decreases n,
{
    if n > 0 {
        lemma_texts(entries, n - 1);
        if let Some(m) = texts_of(entries, n) {
            assert forall|name: Seq<char>| #[trigger] m.contains_key(name) implies exists|i: int|
                0 <= i < n && (#[trigger] entries[i]).0 == name by {
                if name == entries[n - 1].0 {
                    assert(entries[n - 1].0 == name);
                }
            }
            assert forall|i: int|
                0 <= i < n && (forall|j: int| i < j < n ==> (#[trigger] entries[j]).0 != entries[i].0) implies m.contains_key(
                (#[trigger] entries[i]).0,
            ) && Some(m[entries[i].0]) == entries[i].1 by {
                if i < n - 1 {
                    assert(entries[n - 1].0 != entries[i].0);
                }
            }
        }
    }
}

/// The settings of a document are those of its table of settings: every text under its own name,
/// and nothing beside them. A table with anything but a text in it is a bad file, and so is a
/// table that is none.
pub proof fn the_settings_are_the_texts_of_their_table(
    document: &Option<Document>,
    top: Document,
    at: int,
    r: StoredConfig,
    i: int,
)
    requires
        call_ensures(decode_config, (document,), r),
        *document == Some(top),
        0 <= at < top@.len(),
        top@[at].0@ == "cvars"@,
        forall|k: int| 0 <= k < at ==> (#[trigger] top@[k]).0@ != "cvars"@,
    ensures
        top@[at].1 is Other ==> r@ is Bad,
        top@[at].1 matches Section::Date(text) ==> r@ == StoredView::Table(
            Map::<Seq<char>, Seq<char>>::empty().insert("$__toml_private_datetime"@, text@),
        ),
        top@[at].1 matches Section::Table(entries) ==> {
            &&& r@ is Table || r@ is Bad
            &&& (exists|k: int| 0 <= k < entries@.len() && (#[trigger] entries@[k]).1 is None) <==> r@ is Bad
            &&& 0 <= i < entries@.len() && (forall|j: int| i < j < entries@.len() ==> (#[trigger] entries@[j]).0@ != entries@[i].0@)
                ==> (r@ matches StoredView::Table(m) ==> (m.contains_key(entries@[i].0@) && (entries@[i].1 matches Some(text) && m[entries@[i].0@]
                == text@)))
        },
{
    let view = document_view(top@);
    assert(view.len() == top@.len());
    assert forall|k: int| 0 <= k < at implies (#[trigger] view[k]).0 != "cvars"@ by {
        assert(view[k].0 == top@[k].0@);
    }
    assert(view[at] == (top@[at].0@, top@[at].1@));
    lemma_first_section(view, 0, at);
    if let Section::Table(entries) = top@[at].1 {
        let texts = table_view(entries@);
        let n = entries@.len() as int;
        assert(texts.len() == n);
        lemma_texts(texts, n);
        assert forall|k: int| 0 <= k < n implies (#[trigger] texts[k]).0 == entries@[k].0@ && (texts[k].1 is Some
            <==> entries@[k].1 is Some) by {}
        if exists|k: int| 0 <= k < n && (#[trigger] entries@[k]).1 is None {
            let k = choose|k: int| 0 <= k < n && (#[trigger] entries@[k]).1 is None;
            assert(texts[k].1 is None);
        } else {
            assert forall|k: int| 0 <= k < n implies (#[trigger] texts[k]).1 is Some by {
                assert(entries@[k].1 is Some);
            }
        }
        if 0 <= i < n && (forall|j: int| i < j < n ==> (#[trigger] entries@[j]).0@ != entries@[i].0@) {
            assert forall|j: int| i < j < n implies (#[trigger] texts[j]).0 != texts[i].0 by {
                assert(entries@[j].0@ != entries@[i].0@);
            }
            assert(texts[i].0 == entries@[i].0@);
        }
    }
}

/// A document without a table of settings holds none, and what is no document is a bad file.
pub proof fn a_document_without_settings_is_empty(document: &Option<Document>, r: StoredConfig)
    requires
        call_ensures(decode_config, (document,), r),
        *document matches Some(top) ==> forall|k: int| 0 <= k < top@.len() ==> (#[trigger] top@[k]).0@ != "cvars"@,
    ensures
        *document is None ==> r@ is Bad,
        *document is Some ==> r@ == StoredView::Table(Map::<Seq<char>, Seq<char>>::empty()),
{
    if let Some(top) = *document {
        let view = document_view(top@);
        assert forall|k: int| 0 <= k < view.len() implies (#[trigger] view[k]).0 != "cvars"@ by {
            assert(view[k].0 == top@[k].0@);
        }
        lemma_no_section(view, 0);
    }
}

} // verus!
