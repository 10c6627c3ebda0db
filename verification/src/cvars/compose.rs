//! Composing the settings file: a diff over what the file said before.
use crate::cvars::config_map::{is_spelling, spelling, spelling_is_unique, value_for, ConfigMap};
use crate::text::{holds_text, lower, same_text, text_in};
use vstd::prelude::*;

verus! {

/// One setting as the script engine holds it: name, value, default.
#[derive(Debug)]
pub struct Live {
    pub name: String,
    pub value: String,
    pub default: String,
}

/// The texts of a [`Live`].
pub struct LiveView {
    pub name: Seq<char>,
    pub value: Seq<char>,
    pub default: Seq<char>,
}

impl View for Live {
    type V = LiveView;

    open spec fn view(&self) -> LiveView {
        LiveView { name: self.name@, value: self.value@, default: self.default@ }
    }
}

/// The texts of a snapshot.
pub open spec fn live_views(snapshot: Seq<Live>) -> Seq<LiveView> {
    snapshot.map_values(|l: Live| l@)
}

/// The session, and not the player, owns this key.
pub open spec fn owned(session_owned: Seq<String>, key: Seq<char>) -> bool {
    holds_text(session_owned, key)
}

/// What one live setting does to the file: nothing where the session owns it, out where it
/// stands at its default, in under the spelling the file already uses otherwise.
pub open spec fn compose_row(
    m: Map<Seq<char>, Seq<char>>,
    session_owned: Seq<String>,
    row: LiveView,
) -> Map<Seq<char>, Seq<char>> {
    if owned(session_owned, lower(row.name)) {
        m
    } else if row.value == row.default {
        match spelling(m, row.name) {
            Some(key) => m.remove(key),
            None => m,
        }
    } else {
        match spelling(m, row.name) {
            Some(key) => m.insert(key, row.value),
            None => m.insert(row.name, row.value),
        }
    }
}

/// The file after the first `n` rows of a snapshot.
pub open spec fn composed(
    previous: Map<Seq<char>, Seq<char>>,
    session_owned: Seq<String>,
    rows: Seq<LiveView>,
    n: int,
) -> Map<Seq<char>, Seq<char>>
    decreases n,
{
    if n <= 0 {
        previous
    } else {
        compose_row(composed(previous, session_owned, rows, n - 1), session_owned, rows[n - 1])
    }
}

/// Composes the file to save: the previous file as the base, every setting that moved off its
/// default written, every one back at its default removed, session-owned keys untouched.
pub fn compose_file(previous: &ConfigMap, session_owned: &Vec<String>, snapshot: &Vec<Live>) -> (r: ConfigMap)
    requires
        previous.wf(),
    ensures
        r.wf(),
        r@ == composed(previous@, session_owned@, live_views(snapshot@), snapshot@.len() as int),
{
    let mut out = previous.copy();
    let mut i: usize = 0;
    while i < snapshot.len()
        invariant
            i <= snapshot.len(),
            out.wf(),
            out@ == composed(previous@, session_owned@, live_views(snapshot@), i as int),
        decreases snapshot.len() - i,
    {
        let row = &snapshot[i];
        assert(live_views(snapshot@)[i as int] == row@);
        let key = row.name.as_str().to_ascii_lowercase();
        if !text_in(session_owned, key.as_str()) {
            let existing = out.spelling_of(row.name.as_str());
            if same_text(row.value.as_str(), row.default.as_str()) {
                match existing {
                    Some(k) => out.remove(k.as_str()),
                    None => {},
                }
            } else {
                match existing {
                    Some(k) => out.insert(k, row.value.clone()),
                    None => out.insert(row.name.clone(), row.value.clone()),
                }
            }
        }
        i = i + 1;
    }
    out
}

/// No two rows of a snapshot name one setting.
pub open spec fn distinct_names(rows: Seq<LiveView>) -> bool {
    forall|i: int, j: int| 0 <= i < j < rows.len() ==> lower((#[trigger] rows[i]).name) != lower((#[trigger] rows[j]).name)
}

/// The map holds no setting under two spellings.
pub open spec fn single_spelled(m: Map<Seq<char>, Seq<char>>) -> bool {
    forall|a: Seq<char>, b: Seq<char>| #[trigger] m.contains_key(a) && #[trigger] m.contains_key(b) && lower(a) == lower(b)
        ==> a == b
}

/// The name of no row reads `key` up to case, or the session owns it.
pub open spec fn untouched(session_owned: Seq<String>, rows: Seq<LiveView>, n: int, key: Seq<char>) -> bool {
    owned(session_owned, lower(key)) || forall|i: int| 0 <= i < n ==> lower((#[trigger] rows[i]).name) != lower(key)
}

pub(crate) proof fn lemma_row_keeps_others(m: Map<Seq<char>, Seq<char>>, session_owned: Seq<String>, row: LiveView, key: Seq<char>)
    requires
        owned(session_owned, lower(key)) || lower(row.name) != lower(key),
    ensures
        compose_row(m, session_owned, row).contains_key(key) == m.contains_key(key),
        m.contains_key(key) ==> compose_row(m, session_owned, row)[key] == m[key],
{
    if !owned(session_owned, lower(row.name)) {
        match spelling(m, row.name) {
            Some(k) => {
                assert(is_spelling(m, row.name, k));
                assert(k != key);
            },
            None => {
                assert(row.name != key);
            },
        }
    }
}

/// Composing keeps, under its own spelling and with its own value, every entry that no live
/// setting names and every entry the session owns.
pub proof fn compose_preserves_what_it_does_not_own(
    previous: Map<Seq<char>, Seq<char>>,
    session_owned: Seq<String>,
    rows: Seq<LiveView>,
    n: int,
    key: Seq<char>,
)
    requires
        0 <= n <= rows.len(),
        untouched(session_owned, rows, n, key),
    ensures
        composed(previous, session_owned, rows, n).contains_key(key) == previous.contains_key(key),
        previous.contains_key(key) ==> composed(previous, session_owned, rows, n)[key] == previous[key],
    decreases n,
{
    if n > 0 {
        assert(untouched(session_owned, rows, n - 1, key)) by {
            if !owned(session_owned, lower(key)) {
                assert forall|i: int| 0 <= i < n - 1 implies lower((#[trigger] rows[i]).name) != lower(key) by {};
            }
        };
        compose_preserves_what_it_does_not_own(previous, session_owned, rows, n - 1, key);
        lemma_row_keeps_others(composed(previous, session_owned, rows, n - 1), session_owned, rows[n - 1], key);
    }
}

pub(crate) proof fn lemma_single_spelling(m: Map<Seq<char>, Seq<char>>, name: Seq<char>, key: Seq<char>)
    requires
        single_spelled(m),
        m.contains_key(key),
        lower(key) == lower(name),
    ensures
        spelling(m, name) == Some(key),
{
    assert(is_spelling(m, name, key));
    spelling_is_unique(m, name, key);
}

pub(crate) proof fn lemma_no_spelling(m: Map<Seq<char>, Seq<char>>, name: Seq<char>)
    requires
        forall|key: Seq<char>| #[trigger] m.contains_key(key) ==> lower(key) != lower(name),
    ensures
        spelling(m, name) is None,
{
    assert forall|key: Seq<char>| !(#[trigger] is_spelling(m, name, key)) by {};
}

proof fn lemma_row_stays_single(m: Map<Seq<char>, Seq<char>>, session_owned: Seq<String>, row: LiveView)
    requires
        single_spelled(m),
    ensures
        single_spelled(compose_row(m, session_owned, row)),
{
    let after = compose_row(m, session_owned, row);
    assert forall|a: Seq<char>, b: Seq<char>| #[trigger] after.contains_key(a) && #[trigger] after.contains_key(b) && lower(a)
        == lower(b) implies a == b by {
        match spelling(m, row.name) {
            Some(k) => {
                assert(is_spelling(m, row.name, k));
            },
            None => {
                if m.contains_key(a) && lower(a) == lower(row.name) {
                    lemma_single_spelling(m, row.name, a);
                }
                if m.contains_key(b) && lower(b) == lower(row.name) {
                    lemma_single_spelling(m, row.name, b);
                }
            },
        }
    };
}

/// Composing never forks a setting into two spellings.
pub proof fn compose_never_forks_a_spelling(
    previous: Map<Seq<char>, Seq<char>>,
    session_owned: Seq<String>,
    rows: Seq<LiveView>,
    n: int,
)
    requires
        0 <= n <= rows.len(),
        single_spelled(previous),
    ensures
        single_spelled(composed(previous, session_owned, rows, n)),
    decreases n,
{
    if n > 0 {
        compose_never_forks_a_spelling(previous, session_owned, rows, n - 1);
        lemma_row_stays_single(composed(previous, session_owned, rows, n - 1), session_owned, rows[n - 1]);
    }
}

proof fn lemma_row_writes(m: Map<Seq<char>, Seq<char>>, session_owned: Seq<String>, row: LiveView)
    requires
        single_spelled(m),
        !owned(session_owned, lower(row.name)),
    ensures
        value_for(compose_row(m, session_owned, row), row.name) == (if row.value == row.default {
            None::<Seq<char>>
        } else {
            Some(row.value)
        }),
{
    let after = compose_row(m, session_owned, row);
    lemma_row_stays_single(m, session_owned, row);
    match spelling(m, row.name) {
        Some(k) => {
            assert(is_spelling(m, row.name, k));
            if row.value == row.default {
                assert forall|key: Seq<char>| #[trigger] after.contains_key(key) implies lower(key) != lower(row.name) by {
                    assert(m.contains_key(key) && m.contains_key(k));
                };
                lemma_no_spelling(after, row.name);
            } else {
                lemma_single_spelling(after, row.name, k);
            }
        },
        None => {
            if row.value == row.default {
            } else {
                lemma_single_spelling(after, row.name, row.name);
            }
        },
    }
}

proof fn lemma_row_keeps_value_for(m: Map<Seq<char>, Seq<char>>, session_owned: Seq<String>, row: LiveView, name: Seq<char>)
    requires
        owned(session_owned, lower(name)) || lower(row.name) != lower(name),
    ensures
        value_for(compose_row(m, session_owned, row), name) == value_for(m, name),
{
    let after = compose_row(m, session_owned, row);
    assert forall|key: Seq<char>| lower(key) == lower(name) implies #[trigger] after.contains_key(key) == m.contains_key(key) && (
    m.contains_key(key) ==> after[key] == m[key]) by {
        lemma_row_keeps_others(m, session_owned, row, key);
    };
    match spelling(m, name) {
        Some(k) => {
            assert(is_spelling(m, name, k));
            assert(after.contains_key(k));
            assert(is_spelling(after, name, k));
            spelling_is_unique(after, name, k);
        },
        None => {
            assert forall|key: Seq<char>| !(#[trigger] is_spelling(after, name, key)) by {
                if is_spelling(after, name, key) {
                    assert(after.contains_key(key));
                    assert forall|other: Seq<char>| #[trigger] m.contains_key(other) && lower(other) == lower(name) implies other
                        == key || crate::text::precedes(key, other) by {
                        assert(after.contains_key(other));
                    };
                    assert(is_spelling(m, name, key));
                }
            };
        },
    }
}

/// The composed file is exactly the diff: for a setting the player owns, it answers the live
/// value where that moved off the default and nothing where it did not.
pub proof fn compose_writes_the_diff(
    previous: Map<Seq<char>, Seq<char>>,
    session_owned: Seq<String>,
    rows: Seq<LiveView>,
    i: int,
    n: int,
)
    requires
        0 <= i < n <= rows.len(),
        single_spelled(previous),
        distinct_names(rows),
        !owned(session_owned, lower(rows[i].name)),
    ensures
        value_for(composed(previous, session_owned, rows, n), rows[i].name) == (if rows[i].value == rows[i].default {
            None::<Seq<char>>
        } else {
            Some(rows[i].value)
        }),
    decreases n,
{
    compose_never_forks_a_spelling(previous, session_owned, rows, n - 1);
    if i == n - 1 {
        lemma_row_writes(composed(previous, session_owned, rows, n - 1), session_owned, rows[n - 1]);
    } else {
        compose_writes_the_diff(previous, session_owned, rows, i, n - 1);
        assert(lower(rows[i].name) != lower(rows[n - 1].name));
        lemma_row_keeps_value_for(composed(previous, session_owned, rows, n - 1), session_owned, rows[n - 1], rows[i].name);
    }
}

/// The session's own settings read from the composed file as they read before.
pub proof fn compose_keeps_session_owned_values(
    previous: Map<Seq<char>, Seq<char>>,
    session_owned: Seq<String>,
    rows: Seq<LiveView>,
    n: int,
    name: Seq<char>,
)
    requires
        0 <= n <= rows.len(),
        owned(session_owned, lower(name)),
    ensures
        value_for(composed(previous, session_owned, rows, n), name) == value_for(previous, name),
    decreases n,
{
    if n > 0 {
        compose_keeps_session_owned_values(previous, session_owned, rows, n - 1, name);
        lemma_row_keeps_value_for(composed(previous, session_owned, rows, n - 1), session_owned, rows[n - 1], name);
    }
}

proof fn lemma_settled_row(m: Map<Seq<char>, Seq<char>>, session_owned: Seq<String>, row: LiveView)
    requires
        single_spelled(m),
        owned(session_owned, lower(row.name)) || value_for(m, row.name) == (if row.value == row.default {
            None::<Seq<char>>
        } else {
            Some(row.value)
        }),
    ensures
        compose_row(m, session_owned, row) == m,
{
    if !owned(session_owned, lower(row.name)) {
        match spelling(m, row.name) {
            Some(k) => {
                assert(is_spelling(m, row.name, k));
                assert(m.insert(k, row.value) =~= m);
            },
            None => {},
        }
    }
}

proof fn lemma_settled(m: Map<Seq<char>, Seq<char>>, session_owned: Seq<String>, rows: Seq<LiveView>, n: int)
    requires
        0 <= n <= rows.len(),
        single_spelled(m),
        forall|i: int| 0 <= i < rows.len() && !owned(session_owned, lower((#[trigger] rows[i]).name)) ==> value_for(m, rows[i].name)
            == (if rows[i].value == rows[i].default {
            None::<Seq<char>>
        } else {
            Some(rows[i].value)
        }),
    ensures
        composed(m, session_owned, rows, n) == m,
    decreases n,
{
    if n > 0 {
        lemma_settled(m, session_owned, rows, n - 1);
        assert(rows[n - 1] == rows[n - 1]);
        lemma_settled_row(m, session_owned, rows[n - 1]);
    }
}

/// Composing again from an unchanged table changes nothing.
pub proof fn composing_again_is_an_identity(
    previous: Map<Seq<char>, Seq<char>>,
    session_owned: Seq<String>,
    rows: Seq<LiveView>,
)
    requires
        single_spelled(previous),
        distinct_names(rows),
    ensures
        ({
            let n = rows.len() as int;
            let once = composed(previous, session_owned, rows, n);
            composed(once, session_owned, rows, n) == once
        }),
{
    let n = rows.len() as int;
    let once = composed(previous, session_owned, rows, n);
    compose_never_forks_a_spelling(previous, session_owned, rows, n);
    assert forall|i: int| 0 <= i < rows.len() && !owned(session_owned, lower((#[trigger] rows[i]).name)) implies value_for(
        once,
        rows[i].name,
    ) == (if rows[i].value == rows[i].default {
        None::<Seq<char>>
    } else {
        Some(rows[i].value)
    }) by {
        compose_writes_the_diff(previous, session_owned, rows, i, n);
    };
    lemma_settled(once, session_owned, rows, n);
}

} // verus!
