//! What a client remembers of the settings file, and when it writes it.
use crate::cvars::compose::{compose_file, composed, live_views, owned, Live};
use crate::cvars::config_map::{
    ascending, entry_views, lemma_same_map, lemma_value_at, map_of, ordered, stands_at, value_for,
    ConfigMap,
};
use crate::cvars::knobs::{after_write, address_after, apply_to_knobs, Knobs, Limits, Reading};
use crate::cvars::registered::{is_registered, names_key, Registered};
use crate::cvars::stored::{
    file_text, header_text, section, stored_in, toml_text, StoredConfig, StoredView,
};
use crate::text::{lower, precedes, same_chars, same_text, text_in};
use vstd::prelude::*;
use vstd::string::StringExecFns;

verus! {

/// How long a change waits before it is saved, in nanoseconds.
pub const SAVE_QUIET: u64 = 1_000_000_000;

/// The state of the settings file.
#[derive(Debug)]
pub struct CvarPersist {
    /// What the file holds, spelled as it spells it.
    pub file: ConfigMap,
    /// The lowercased names the session owns rather than the player: never saved.
    pub session_owned: Vec<String>,
    /// The script engine whose table was last seeded.
    pub registered: Option<u64>,
    /// Something changed since the last save.
    pub dirty: bool,
    /// When it last changed, in nanoseconds since the client started.
    pub last_change: Option<u64>,
}

/// The entries of a map that the session does not own.
pub open spec fn player_owned(m: Map<Seq<char>, Seq<char>>, session_owned: Seq<String>) -> Map<Seq<char>, Seq<char>> {
    Map::new(|name: Seq<char>| m.contains_key(name) && !owned(session_owned, lower(name)), |name: Seq<char>| m[name])
}

/// A save is due: something changed, and either the client is leaving or the change has been
/// quiet for long enough.
pub open spec fn save_due(p: CvarPersist, now: u64, exiting: bool) -> bool {
    p.dirty && (exiting || match p.last_change {
        None => true,
        Some(at) => at + SAVE_QUIET <= now,
    })
}

/// A file to be written: its text and the table it holds.
#[derive(Debug)]
pub struct Save {
    pub text: String,
    pub cvars: ConfigMap,
}

/// The environment switches that take a setting for the session.
#[derive(Clone, Copy, Debug)]
pub struct LaunchSwitches {
    pub ui_scale: bool,
    pub farclip: bool,
    pub clutter_density: bool,
    pub no_vsync: bool,
    pub trilinear: bool,
    pub aniso: bool,
    pub windowed: bool,
    pub msaa: bool,
    pub render_scale: bool,
    pub host: bool,
}

/// The keys that a launch takes for the session: those of each switch that is on, and the
/// render backend's name always.
pub open spec fn taken(s: LaunchSwitches, key: Seq<char>) -> bool {
    ||| s.ui_scale && same_chars(key, "uiscale"@)
    ||| s.farclip && same_chars(key, "farclip"@)
    ||| s.clutter_density && (same_chars(key, "worlddetail"@) || same_chars(key, "frilldensity"@))
    ||| s.no_vsync && same_chars(key, "gxvsync"@)
    ||| s.trilinear && same_chars(key, "trilinear"@)
    ||| s.aniso && same_chars(key, "anisotropic"@)
    ||| s.windowed && (same_chars(key, "gxwindow"@) || same_chars(key, "gxresolution"@))
    ||| s.msaa && same_chars(key, "gxmultisample"@)
    ||| s.render_scale && same_chars(key, "renderscale"@)
    ||| s.host && same_chars(key, "realmlist"@)
    ||| same_chars(key, "gxapi"@)
}

fn take_key(keys: &mut Vec<String>, on: bool, key: &str)
    ensures
        forall|k: Seq<char>| #[trigger] owned(final(keys)@, k) == (owned(old(keys)@, k) || (on && same_chars(k, key@))),
{
    let ghost before = keys@;
    if on {
        keys.push(String::from_str(key));
        proof {
            assert forall|k: Seq<char>| #[trigger] owned(keys@, k) == (owned(before, k) || same_chars(k, key@)) by {
                if owned(before, k) {
                    let i = choose|i: int| 0 <= i < before.len() && (#[trigger] before[i])@ == k;
                    assert(keys@[i] == before[i]);
                }
                if same_chars(k, key@) {
                    assert(keys@[before.len() as int]@ == k);
                }
                if owned(keys@, k) && !same_chars(k, key@) {
                    let i = choose|i: int| 0 <= i < keys@.len() && (#[trigger] keys@[i])@ == k;
                    assert(before[i] == keys@[i]);
                }
            };
        }
    }
}

/// Puts the keys that a launch takes under those that are taken already.
pub fn session_owned_keys(keys: &mut Vec<String>, s: &LaunchSwitches)
    ensures
        forall|k: Seq<char>| #[trigger] owned(final(keys)@, k) == (owned(old(keys)@, k) || taken(*s, k)),
{
    take_key(keys, s.ui_scale, "uiscale");
    take_key(keys, s.farclip, "farclip");
    take_key(keys, s.clutter_density, "worlddetail");
    take_key(keys, s.clutter_density, "frilldensity");
    take_key(keys, s.no_vsync, "gxvsync");
    take_key(keys, s.trilinear, "trilinear");
    take_key(keys, s.aniso, "anisotropic");
    take_key(keys, s.windowed, "gxwindow");
    take_key(keys, s.windowed, "gxresolution");
    take_key(keys, s.msaa, "gxmultisample");
    take_key(keys, s.render_scale, "renderscale");
    take_key(keys, s.host, "realmlist");
    take_key(keys, true, "gxapi");
}

impl CvarPersist {
    /// The file's table is in order.
    pub open spec fn wf(self) -> bool {
        self.file.wf()
    }

    /// A client that has read nothing.
    pub fn new() -> (r: CvarPersist)
        ensures
            r.wf(),
            r.file@ == Map::<Seq<char>, Seq<char>>::empty(),
            r.session_owned@ == Seq::<String>::empty(),
            r.registered is None,
            !r.dirty,
            r.last_change is None,
    {
        CvarPersist { file: ConfigMap::new(), session_owned: Vec::new(), registered: None, dirty: false, last_change: None }
    }

    /// A client whose file holds one setting.
    pub fn with_stored(name: &str, value: &str) -> (r: CvarPersist)
        ensures
            r.wf(),
            r.file@ == Map::<Seq<char>, Seq<char>>::empty().insert(name@, value@),
            r.session_owned@ == Seq::<String>::empty(),
            r.registered is None,
            !r.dirty,
            r.last_change is None,
    {
        let mut r = CvarPersist::new();
        r.file.insert(String::from_str(name), String::from_str(value));
        r
    }

    /// The entries a fresh script engine's table is seeded from: the file's, in name order,
    /// without those the session owns.
    pub fn saved_base(&self) -> (r: Vec<(String, String)>)
        requires
            self.wf(),
        ensures
            ascending(r@),
            map_of(r@) == player_owned(self.file@, self.session_owned@),
    {
        let entries = self.file.entries();
        let mut kept: Vec<(String, String)> = Vec::new();
        let ghost mut places: Seq<int> = Seq::empty();
        let mut i: usize = 0;
        while i < entries.len()
            invariant
                i <= entries@.len(),
                ascending(entries@),
                places.len() == kept@.len(),
                forall|j: int| 0 <= j < kept@.len() ==> 0 <= #[trigger] places[j] < i && kept@[j] == entries@[places[j]],
                forall|j: int, k: int| 0 <= j < k < places.len() ==> #[trigger] places[j] < #[trigger] places[k],
                forall|j: int| 0 <= j < kept@.len() ==> !owned(self.session_owned@, lower((#[trigger] kept@[j]).0@)),
                map_of(entries@) == self.file@,
                forall|j: int| 0 <= j < i && !owned(self.session_owned@, lower((#[trigger] entries@[j]).0@)) ==> exists|k: int|
                    0 <= k < kept@.len() && #[trigger] places[k] == j,
            decreases entries@.len() - i,
        {
            let key = entries[i].0.as_str().to_ascii_lowercase();
            if !text_in(&self.session_owned, key.as_str()) {
                let ghost old_kept = kept@;
                let ghost old_places = places;
                let name = entries[i].0.clone();
                let value = entries[i].1.clone();
                kept.push((name, value));
                proof {
                    places = places.push(i as int);
                    assert forall|j: int| 0 <= j < i + 1 && !owned(self.session_owned@, lower((#[trigger] entries@[j]).0@)) implies exists|k: int|
                        0 <= k < kept@.len() && #[trigger] places[k] == j by {
                        if j == i {
                            assert(places[old_kept.len() as int] == j);
                        } else {
                            let k = choose|k: int| 0 <= k < old_kept.len() && #[trigger] old_places[k] == j;
                            assert(places[k] == j);
                        }
                    };
                }
            }
            i = i + 1;
        }
        proof {
            lemma_kept(entries@, kept@, places, self.session_owned@);
        }
        kept
    }

    /// One setting as the file holds it, whatever the spelling.
    pub fn stored(&self, name: &str) -> (r: Option<String>)
        requires
            self.wf(),
        ensures
            match r {
                Some(value) => value_for(self.file@, name@) == Some(value@),
                None => value_for(self.file@, name@) is None,
            },
    {
        match self.file.spelling_of(name) {
            Some(key) => self.file.get(key.as_str()),
            None => None,
        }
    }

    /// Whether addon versions are checked: unless the file says `"0"`.
    pub fn addon_version_check(&self) -> (r: bool)
        requires
            self.wf(),
        ensures
            r == !(value_for(self.file@, "checkAddonVersion"@) == Some("0"@)),
    {
        match self.stored("checkAddonVersion") {
            Some(value) => !same_text(value.as_str(), "0"),
            None => true,
        }
    }

    /// Whether an engine's table has to be seeded: once for each engine.
    pub fn claim(&mut self, engine: u64) -> (r: bool)
        ensures
            r == (old(self).registered != Some(engine)),
            *final(self) == (CvarPersist { registered: Some(engine), ..*old(self) }),
    {
        let fresh = match self.registered {
            Some(seeded) => seeded != engine,
            None => true,
        };
        self.registered = Some(engine);
        fresh
    }

    /// A setting was written from inside the client: the file has to be saved.
    pub fn write_host_cvar(&mut self, now: u64)
        ensures
            *final(self) == (CvarPersist { dirty: true, last_change: Some(now), ..*old(self) }),
    {
        self.dirty = true;
        self.last_change = Some(now);
    }

    /// What to write to disk, if anything. `snapshot` is the script engine's table, where there
    /// is an engine; `has_path` says whether there is a place for the file. A change is dropped
    /// where there is no place, and where the engine's table is empty: the file is never
    /// composed out of nothing.
    pub fn save_config(&mut self, now: u64, exiting: bool, snapshot: Option<&Vec<Live>>, has_path: bool) -> (r: Option<Save>)
        requires
            old(self).wf(),
        ensures
            r is Some <==> save_due(*old(self), now, exiting) && snapshot is Some && has_path && snapshot->0@.len() > 0,
            r matches Some(save) ==> {
                &&& save.cvars.wf()
                &&& save.cvars@ == composed(
                    old(self).file@,
                    old(self).session_owned@,
                    live_views(snapshot->0@),
                    snapshot->0@.len() as int,
                )
                &&& save.text@ == header_text() + toml_text(section(), ordered(save.cvars@))
                &&& stored_in(save.text@) == StoredView::Table(save.cvars@)
            },
            *final(self) == (CvarPersist {
                dirty: old(self).dirty && !(save_due(*old(self), now, exiting) && snapshot is Some && r is None),
                ..*old(self)
            }),
    {
        if !self.dirty {
            return None;
        }
        let quiet = match self.last_change {
            None => true,
            Some(at) => now >= at && now - at >= SAVE_QUIET,
        };
        if !(quiet || exiting) {
            return None;
        }
        let rows = match snapshot {
            Some(rows) => rows,
            None => return None,
        };
        if !has_path {
            self.dirty = false;
            return None;
        }
        if rows.len() == 0 {
            self.dirty = false;
            return None;
        }
        let cvars = compose_file(&self.file, &self.session_owned, rows);
        let text = file_text(&cvars);
        Some(Save { text, cvars })
    }

    /// The write ended. The file holds the saved table where it took; either way there is
    /// nothing left to save.
    pub fn finish_save(&mut self, cvars: ConfigMap, written: bool)
        requires
            old(self).wf(),
            cvars.wf(),
        ensures
            final(self).wf(),
            *final(self) == (CvarPersist {
                file: if written {
                    cvars
                } else {
                    old(self).file
                },
                dirty: false,
                ..*old(self)
            }),
    {
        if written {
            self.file = cvars;
        }
        self.dirty = false;
    }

    /// Whether an entry of the file is applied at launch.
    pub fn applies(&self, rows: &Vec<Registered>, name: &str) -> (r: bool)
        ensures
            r == loads(name@, self.session_owned@, rows@),
    {
        let key = name.to_ascii_lowercase();
        is_registered(rows, key.as_str()) && !text_in(&self.session_owned, key.as_str())
    }

    /// Folds what the file holds into the knobs: each entry that is registered and that the
    /// session does not own is applied, in name order; the others are kept and not applied.
    /// `readings` holds, for each entry of the file in name order, what its value reads as.
    pub fn load_config(
        &mut self,
        s: &LaunchSwitches,
        stored: StoredConfig,
        rows: &Vec<Registered>,
        readings: &Vec<Reading>,
        limits: &Limits,
        knobs: &mut Knobs,
        realmlist: &mut String,
    )
        requires
            old(self).wf(),
            stored.wf(),
            limits.wf(),
            stored@ matches StoredView::Table(m) ==> ordered(m).len() <= readings@.len(),
        ensures
            final(self).wf(),
            forall|k: Seq<char>| #[trigger] owned(final(self).session_owned@, k) == (owned(old(self).session_owned@, k) || taken(*s, k)),
            final(self).registered == old(self).registered,
            final(self).dirty == old(self).dirty,
            final(self).last_change == old(self).last_change,
            match stored@ {
                StoredView::Table(m) => {
                    &&& final(self).file@ == m
                    &&& *final(knobs) == loaded_knobs(
                        *old(knobs),
                        ordered(m),
                        final(self).session_owned@,
                        rows@,
                        readings@,
                        *limits,
                        ordered(m).len() as int,
                    )
                    &&& final(realmlist)@ == loaded_address(
                        old(realmlist)@,
                        ordered(m),
                        final(self).session_owned@,
                        rows@,
                        readings@,
                        ordered(m).len() as int,
                    )
                },
                _ => final(self).file == old(self).file && *final(knobs) == *old(knobs) && final(realmlist)@ == old(realmlist)@,
            },
    {
        session_owned_keys(&mut self.session_owned, s);
        match stored {
            StoredConfig::Table(table) => {
                let list = table.entries();
                let ghost names = ordered(table@);
                let ghost start = *knobs;
                let ghost address = realmlist@;
                let ghost keys = self.session_owned@;
                let mut i: usize = 0;
                while i < list.len()
                    invariant
                        i <= list@.len() <= readings@.len(),
                        entry_views(list@) == names,
                        limits.wf(),
                        self.session_owned@ == keys,
                        *knobs == loaded_knobs(start, names, keys, rows@, readings@, *limits, i as int),
                        realmlist@ == loaded_address(address, names, keys, rows@, readings@, i as int),
                    decreases list@.len() - i,
                {
                    assert(names[i as int].0 == list@[i as int].0@);
                    if self.applies(rows, list[i].0.as_str()) {
                        let _applied = apply_to_knobs(list[i].0.as_str(), &readings[i], limits, knobs, realmlist);
                    }
                    i = i + 1;
                }
                self.file = table;
            },
            StoredConfig::Absent => {},
            StoredConfig::Bad => {},
        }
    }

    /// Drains written settings into the knobs; each that a knob takes makes the file due for a
    /// save. Each change is a name and what its value reads as.
    pub fn sync_cvars(
        &mut self,
        changes: &Vec<(String, Reading)>,
        now: u64,
        limits: &Limits,
        knobs: &mut Knobs,
        realmlist: &mut String,
    )
        requires
            limits.wf(),
        ensures
            *final(knobs) == synced_knobs(*old(knobs), changes@, *limits, changes@.len() as int),
            final(realmlist)@ == synced_address(old(realmlist)@, changes@, changes@.len() as int),
            *final(self) == (if some_taken(*old(knobs), changes@, *limits, changes@.len() as int) {
                CvarPersist { dirty: true, last_change: Some(now), ..*old(self) }
            } else {
                *old(self)
            }),
    {
        let mut i: usize = 0;
        while i < changes.len()
            invariant
                i <= changes@.len(),
                limits.wf(),
                *knobs == synced_knobs(*old(knobs), changes@, *limits, i as int),
                realmlist@ == synced_address(old(realmlist)@, changes@, i as int),
                *self == (if some_taken(*old(knobs), changes@, *limits, i as int) {
                    CvarPersist { dirty: true, last_change: Some(now), ..*old(self) }
                } else {
                    *old(self)
                }),
            decreases changes@.len() - i,
        {
            if apply_to_knobs(changes[i].0.as_str(), &changes[i].1, limits, knobs, realmlist) {
                self.write_host_cvar(now);
            }
            i = i + 1;
        }
    }

    /// Folds a leaving script engine's table into the state: its last changes into the knobs,
    /// its settings into the file. A table that was never registered says nothing of the file.
    pub fn fold_dying_vm_cvars(
        &mut self,
        changes: &Vec<(String, Reading)>,
        snapshot: &Vec<Live>,
        now: u64,
        limits: &Limits,
        knobs: &mut Knobs,
        realmlist: &mut String,
    )
        requires
            old(self).wf(),
            limits.wf(),
        ensures
            final(self).wf(),
            *final(knobs) == synced_knobs(*old(knobs), changes@, *limits, changes@.len() as int),
            final(realmlist)@ == synced_address(old(realmlist)@, changes@, changes@.len() as int),
            final(self).file@ == (if snapshot@.len() == 0 {
                old(self).file@
            } else {
                composed(old(self).file@, old(self).session_owned@, live_views(snapshot@), snapshot@.len() as int)
            }),
            final(self).session_owned == old(self).session_owned,
            final(self).registered == old(self).registered,
            final(self).dirty == (old(self).dirty || some_taken(*old(knobs), changes@, *limits, changes@.len() as int)),
            final(self).last_change == (if some_taken(*old(knobs), changes@, *limits, changes@.len() as int) {
                Some(now)
            } else {
                old(self).last_change
            }),
    {
        self.sync_cvars(changes, now, limits, knobs, realmlist);
        if snapshot.len() > 0 {
            self.file = compose_file(&self.file, &self.session_owned, snapshot);
        }
    }
}

proof fn lemma_kept(entries: Seq<(String, String)>, kept: Seq<(String, String)>, places: Seq<int>, session_owned: Seq<String>)
    requires
        ascending(entries),
        places.len() == kept.len(),
        forall|j: int| 0 <= j < kept.len() ==> 0 <= #[trigger] places[j] < entries.len() && kept[j] == entries[places[j]],
        forall|j: int, k: int| 0 <= j < k < places.len() ==> #[trigger] places[j] < #[trigger] places[k],
        forall|j: int| 0 <= j < kept.len() ==> !owned(session_owned, lower((#[trigger] kept[j]).0@)),
        forall|j: int| 0 <= j < entries.len() && !owned(session_owned, lower((#[trigger] entries[j]).0@)) ==> exists|k: int|
            0 <= k < kept.len() && #[trigger] places[k] == j,
    ensures
        ascending(kept),
        map_of(kept) == player_owned(map_of(entries), session_owned),
{
    assert forall|j: int, k: int| 0 <= j < k < kept.len() implies precedes((#[trigger] kept[j]).0@, (#[trigger] kept[k]).0@) by {
        assert(places[j] < places[k]);
        assert(precedes(entries[places[j]].0@, entries[places[k]].0@));
    };
    let m = player_owned(map_of(entries), session_owned);
    assert forall|j: int| 0 <= j < kept.len() implies m.contains_key((#[trigger] kept[j]).0@) && m[kept[j].0@] == kept[j].1@ by {
        assert(kept[j] == entries[places[j]]);
        lemma_value_at(entries, places[j]);
    };
    assert forall|name: Seq<char>| #[trigger] m.contains_key(name) implies exists|j: int| #[trigger] stands_at(kept, name, j) by {
        let i = choose|i: int| #[trigger] stands_at(entries, name, i);
        assert(stands_at(entries, name, i));
        assert(entries[i].0@ == name);
        let k = choose|k: int| 0 <= k < kept.len() && #[trigger] places[k] == i;
        assert(kept[k] == entries[places[k]]);
        assert(stands_at(kept, name, k));
    };
    lemma_same_map(kept, m);
}

/// An entry of the file is applied at launch: it is registered, and the session does not own it.
pub open spec fn loads(name: Seq<char>, session_owned: Seq<String>, rows: Seq<Registered>) -> bool {
    names_key(rows, lower(name)) && !owned(session_owned, lower(name))
}

/// The knobs after the first `n` entries of the file are folded in.
pub open spec fn loaded_knobs(
    start: Knobs,
    list: Seq<(Seq<char>, Seq<char>)>,
    session_owned: Seq<String>,
    rows: Seq<Registered>,
    readings: Seq<Reading>,
    limits: Limits,
    n: int,
) -> Knobs
    decreases n,
{
    if n <= 0 {
        start
    } else {
        let before = loaded_knobs(start, list, session_owned, rows, readings, limits, n - 1);
        if loads(list[n - 1].0, session_owned, rows) {
            match after_write(before, list[n - 1].0, readings[n - 1], limits) {
                Some(next) => next,
                None => before,
            }
        } else {
            before
        }
    }
}

/// The realm address after the first `n` entries of the file are folded in.
pub open spec fn loaded_address(
    start: Seq<char>,
    list: Seq<(Seq<char>, Seq<char>)>,
    session_owned: Seq<String>,
    rows: Seq<Registered>,
    readings: Seq<Reading>,
    n: int,
) -> Seq<char>
    decreases n,
{
    if n <= 0 {
        start
    } else {
        let before = loaded_address(start, list, session_owned, rows, readings, n - 1);
        if loads(list[n - 1].0, session_owned, rows) {
            address_after(before, lower(list[n - 1].0), readings[n - 1])
        } else {
            before
        }
    }
}

/// The knobs after the first `n` changes.
pub open spec fn synced_knobs(start: Knobs, changes: Seq<(String, Reading)>, limits: Limits, n: int) -> Knobs
    decreases n,
{
    if n <= 0 {
        start
    } else {
        let before = synced_knobs(start, changes, limits, n - 1);
        match after_write(before, changes[n - 1].0@, changes[n - 1].1, limits) {
            Some(next) => next,
            None => before,
        }
    }
}

/// The realm address after the first `n` changes.
pub open spec fn synced_address(start: Seq<char>, changes: Seq<(String, Reading)>, n: int) -> Seq<char>
    decreases n,
{
    if n <= 0 {
        start
    } else {
        address_after(synced_address(start, changes, n - 1), lower(changes[n - 1].0@), changes[n - 1].1)
    }
}

/// One of the first `n` changes was taken by a knob.
pub open spec fn some_taken(start: Knobs, changes: Seq<(String, Reading)>, limits: Limits, n: int) -> bool
    decreases n,
{
    n > 0 && (some_taken(start, changes, limits, n - 1) || after_write(
        synced_knobs(start, changes, limits, n - 1),
        changes[n - 1].0@,
        changes[n - 1].1,
        limits,
    ) is Some)
}

} // verus!
