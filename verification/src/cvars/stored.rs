//! The settings file: reading its text and writing it back.
use crate::cvars::config_map::{
    ascending, entry_views, inserted, lemma_value_at, map_of, ordered, stands_at, value_for,
    ConfigMap,
};
use crate::text::{precedes, precedes_irreflexive, same_text};
use toml::de::{DeTable, DeValue};
use vstd::prelude::*;
use vstd::string::StringExecFns;

verus! {

/// What stands under a top-level name of a document.
#[derive(Debug)]
pub enum Section {
    /// A table: its entries in order, with the text of each that holds one.
    Table(Vec<(String, Option<String>)>),
    /// A date, as it is spelled.
    Date(String),
    /// Anything else.
    Other,
}

/// What stands under a top-level name of a document, by its texts.
pub enum SectionView {
    Table(Seq<(Seq<char>, Option<Seq<char>>)>),
    Date(Seq<char>),
    Other,
}

impl View for Section {
    type V = SectionView;

    open spec fn view(&self) -> SectionView {
        match self {
            Section::Table(entries) => SectionView::Table(table_view(entries@)),
            Section::Date(text) => SectionView::Date(text@),
            Section::Other => SectionView::Other,
        }
    }
}

/// A parsed document: its top-level names in order, and what stands under each.
pub type Document = Vec<(String, Section)>;

/// The texts of a parsed document.
pub type DocumentView = Seq<(Seq<char>, SectionView)>;

/// The texts of one table's entries.
pub open spec fn table_view(entries: Seq<(String, Option<String>)>) -> Seq<(Seq<char>, Option<Seq<char>>)> {
    entries.map_values(
        |e: (String, Option<String>)|
            (
                e.0@,
                match e.1 {
                    Some(text) => Some(text@),
                    None => None,
                },
            ),
    )
}

/// The texts of a parsed document.
pub open spec fn document_view(document: Seq<(String, Section)>) -> DocumentView {
    document.map_values(|d: (String, Section)| (d.0@, d.1@))
}

/// The texts of a document, where there is one.
pub open spec fn optional_view(document: Option<Document>) -> Option<DocumentView> {
    match document {
        Some(d) => Some(document_view(d@)),
        None => None,
    }
}

/// Whether the TOML deserializer takes every value of a text.
pub uninterp spec fn toml_accepts(text: Seq<char>) -> bool;

/// What the TOML parser makes of a text.
pub uninterp spec fn toml_document(text: Seq<char>) -> Option<Seq<(Seq<char>, SectionView)>>;

/// What the TOML writer makes of one table of texts.
pub uninterp spec fn toml_text(section: Seq<char>, entries: Seq<(Seq<char>, Seq<char>)>) -> Seq<char>;

/// Character `i` may stand in a block of comment lines: a tab or a printable character, or the
/// end of a line that the text or another comment line follows.
pub open spec fn comment_char(block: Seq<char>, i: int) -> bool {
    if block[i] == '\n' {
        i + 1 == block.len() || block[i + 1] == '#'
    } else {
        block[i] == '\t' || (block[i] >= ' ' && block[i] != '\u{7f}')
    }
}

/// The first `n` characters may stand in a block of comment lines.
pub open spec fn comment_chars(block: Seq<char>, n: int) -> bool
    decreases n,
{
    n <= 0 || (comment_chars(block, n - 1) && comment_char(block, n - 1))
}

/// A text made of whole comment lines.
pub open spec fn comment_lines(block: Seq<char>) -> bool {
    block.len() == 0 || (block[0] == '#' && block.last() == '\n' && comment_chars(block, block.len() as int))
}

/// The entries as a parsed table holds them: each with its text.
pub open spec fn as_parsed(entries: Seq<(Seq<char>, Seq<char>)>) -> Seq<(Seq<char>, Option<Seq<char>>)> {
    entries.map_values(|e: (Seq<char>, Seq<char>)| (e.0, Some(e.1)))
}

/// `toml::from_str` into a map whose values are read and dropped: whether the text is a document
/// and each of its values fits a type (a number too wide for any integer does not).
#[verifier::external_body]
fn accepts(text: &str) -> (r: bool)
    ensures
        r == toml_accepts(text@),
{
    toml::from_str::<std::collections::BTreeMap<String, serde::de::IgnoredAny>>(text).is_ok()
}

/// `toml::de::DeTable::parse`, the parser behind `toml::from_str`: the document that a text
/// holds, its names in ascending order and a date by its `Display` spelling, and `None` where the
/// text is no document.
#[verifier::external_body]
fn parse_document(text: &str) -> (r: Option<Document>)
    ensures
        toml_document(text@) == optional_view(r),
{
    let root = DeTable::parse(text).ok()?.into_inner();
    let texts = |table: DeTable| -> Vec<(String, Option<String>)> {
        table.into_iter().map(|(k, v)| (k.into_inner().into_owned(), match v.into_inner() {
            DeValue::String(s) => Some(s.into_owned()),
            _ => None,
        })).collect()
    };
    Some(root.into_iter().map(|(k, v)| (k.into_inner().into_owned(), match v.into_inner() {
        DeValue::Table(t) => Section::Table(texts(t)),
        DeValue::Datetime(d) => Section::Date(d.to_string()),
        _ => Section::Other,
    })).collect())
}

/// `toml::to_string` on a map of one table of texts. A read takes the written text whole, and
/// entries in ascending name order come back from a parse of it as they went in, with nothing
/// beside them; comment lines put before the text change none of that.
#[verifier::external_body]
fn render_document(section: &str, entries: &Vec<(String, String)>) -> (r: String)
    ensures
        r@ == toml_text(section@, entry_views(entries@)),
        forall|block: Seq<char>| comment_lines(block) ==> #[trigger] toml_accepts(block + r@),
        forall|block: Seq<char>|
            comment_lines(block) && ascending(entries@) ==> #[trigger] toml_document(block + r@) == Some(
                seq![(section@, SectionView::Table(as_parsed(entry_views(entries@))))],
            ),
{
    let table: std::collections::BTreeMap<String, String> = entries.iter().cloned().collect();
    let root = std::collections::BTreeMap::from([(section.to_string(), table)]);
    toml::to_string(&root).expect("a map of texts is written")
}

/// What a read of the settings file found.
#[derive(Debug)]
pub enum StoredConfig {
    /// No file, or no place for one: every setting stands at its default.
    Absent,
    /// The file's settings.
    Table(ConfigMap),
    /// The file is there, and cannot be read or holds something else.
    Bad,
}

/// What a read of the settings file found, as a map.
pub enum StoredView {
    Absent,
    Table(Map<Seq<char>, Seq<char>>),
    Bad,
}

impl View for StoredConfig {
    type V = StoredView;

    open spec fn view(&self) -> StoredView {
        match self {
            StoredConfig::Absent => StoredView::Absent,
            StoredConfig::Table(t) => StoredView::Table(t@),
            StoredConfig::Bad => StoredView::Bad,
        }
    }
}

impl StoredConfig {
    /// A found table is in order.
    pub open spec fn wf(self) -> bool {
        match self {
            StoredConfig::Table(t) => t.wf(),
            _ => true,
        }
    }
}

/// The name of the settings' table.
pub open spec fn section() -> Seq<char> {
    "cvars"@
}

/// The name under which a date is handed to a reader that asks for a table.
pub open spec fn date_name() -> Seq<char> {
    "$__toml_private_datetime"@
}

/// The first top-level entry of a document with the settings' name, at `i` or later.
pub open spec fn section_at(document: DocumentView, i: int) -> Option<SectionView>
    decreases document.len() - i,
{
    if i < 0 || i >= document.len() {
        None
    } else if document[i].0 == section() {
        Some(document[i].1)
    } else {
        section_at(document, i + 1)
    }
}

/// The map that the first `n` entries of a table of texts build, and `None` where one of them
/// holds no text.
pub open spec fn texts_of(entries: Seq<(Seq<char>, Option<Seq<char>>)>, n: int) -> Option<Map<Seq<char>, Seq<char>>>
    decreases n,
{
    if n <= 0 {
        Some(Map::empty())
    } else {
        match (texts_of(entries, n - 1), entries[n - 1].1) {
            (Some(m), Some(text)) => Some(m.insert(entries[n - 1].0, text)),
            _ => None,
        }
    }
}

/// The settings a document holds: none where it has no such table, those of the table where
/// every entry is a text, the one entry that a date reads as, and a bad file otherwise.
pub open spec fn decoded(document: Option<DocumentView>) -> StoredView {
    match document {
        None => StoredView::Bad,
        Some(d) => match section_at(d, 0) {
            None => StoredView::Table(Map::empty()),
            Some(SectionView::Other) => StoredView::Bad,
            Some(SectionView::Date(text)) => StoredView::Table(Map::empty().insert(date_name(), text)),
            Some(SectionView::Table(entries)) => match texts_of(entries, entries.len() as int) {
                Some(m) => StoredView::Table(m),
                None => StoredView::Bad,
            },
        },
    }
}

fn decode_entries(entries: &Vec<(String, Option<String>)>) -> (r: Option<ConfigMap>)
    ensures
        match r {
            Some(m) => m.wf() && texts_of(table_view(entries@), entries@.len() as int) == Some(m@),
            None => texts_of(table_view(entries@), entries@.len() as int) is None,
        },
{
    let mut m = ConfigMap::new();
    let mut i: usize = 0;
    while i < entries.len()
        invariant
            i <= entries@.len(),
            m.wf(),
            texts_of(table_view(entries@), i as int) == Some(m@),
        decreases entries@.len() - i,
    {
        assert(table_view(entries@)[i as int].0 == entries@[i as int].0@);
        match &entries[i].1 {
            Some(text) => {
                m.insert(entries[i].0.clone(), text.clone());
            },
            None => {
                proof {
                    lemma_no_texts(table_view(entries@), i + 1, entries@.len() as int);
                }
                return None;
            },
        }
        i = i + 1;
    }
    Some(m)
}

proof fn lemma_no_texts(entries: Seq<(Seq<char>, Option<Seq<char>>)>, i: int, n: int)
    requires
        0 <= i <= n,
        texts_of(entries, i) is None,
    ensures
        texts_of(entries, n) is None,
    decreases n,
{
    if i < n {
        lemma_no_texts(entries, i, n - 1);
    }
}

/// Reads the settings out of a parsed document.
pub fn decode_config(document: &Option<Document>) -> (r: StoredConfig)
    ensures
        r.wf(),
        r@ == decoded(optional_view(*document)),
{
    let top = match document {
        Some(top) => top,
        None => return StoredConfig::Bad,
    };
    let mut i: usize = 0;
    while i < top.len()
        invariant
            i <= top@.len(),
            *document == Some(*top),
            section_at(document_view(top@), 0) == section_at(document_view(top@), i as int),
        decreases top@.len() - i,
    {
        assert(document_view(top@)[i as int].0 == top@[i as int].0@);
        if same_text(top[i].0.as_str(), "cvars") {
            return match &top[i].1 {
                Section::Table(entries) => match decode_entries(entries) {
                    Some(m) => StoredConfig::Table(m),
                    None => StoredConfig::Bad,
                },
                Section::Date(text) => {
                    let mut m = ConfigMap::new();
                    m.insert(String::from_str("$__toml_private_datetime"), text.clone());
                    StoredConfig::Table(m)
                },
                Section::Other => StoredConfig::Bad,
            };
        }
        i = i + 1;
    }
    StoredConfig::Table(ConfigMap::new())
}

/// What a text of the settings file holds.
pub open spec fn stored_in(text: Seq<char>) -> StoredView {
    if toml_accepts(text) {
        decoded(toml_document(text))
    } else {
        StoredView::Bad
    }
}

/// Reads the settings out of the text of the file; `None` stands for a file that is not there.
pub fn stored_config(text: Option<&str>) -> (r: StoredConfig)
    ensures
        r.wf(),
        r@ == (match text {
            Some(t) => stored_in(t@),
            None => StoredView::Absent,
        }),
{
    match text {
        Some(t) => {
            if accepts(t) {
                let document = parse_document(t);
                decode_config(&document)
            } else {
                StoredConfig::Bad
            }
        },
        None => StoredConfig::Absent,
    }
}

/// The comment that opens the file.
pub open spec fn header_text() -> Seq<char> {
    "# benilla local config (decision 0954) — CVar values that moved off their defaults.\n# Managed by the client; hand edits are read on next launch and preserved on save.\n"@
}

/// The comment that opens the file.
pub fn header() -> (r: &'static str)
    ensures
        r@ == header_text(),
{
    "# benilla local config (decision 0954) — CVar values that moved off their defaults.\n# Managed by the client; hand edits are read on next launch and preserved on save.\n"
}

/// The header is made of comment lines.
pub proof fn the_header_is_a_comment()
    ensures
        comment_lines(header_text()),
{
    reveal_strlit("# benilla local config (decision 0954) — CVar values that moved off their defaults.\n# Managed by the client; hand edits are read on next launch and preserved on save.\n");
    let block = header_text();
    assert(block.len() == 167);
    assert(block[0] == '#' && block.last() == '\n');
    reveal_with_fuel(comment_chars, 42);
    assert(comment_chars(block, 40));
    assert(comment_chars(block, 80));
    assert(comment_chars(block, 120));
    assert(comment_chars(block, 160));
    assert(comment_chars(block, 167));
}

/// The text of the settings file for a table: the header, then the table. Read back, it gives
/// the table it was written from.
pub fn file_text(cvars: &ConfigMap) -> (r: String)
    requires
        cvars.wf(),
    ensures
        r@ == header_text() + toml_text(section(), ordered(cvars@)),
        stored_in(r@) == StoredView::Table(cvars@),
{
    let entries = cvars.entries();
    let body = render_document("cvars", &entries);
    let mut text = String::from_str(header());
    text.append(body.as_str());
    proof {
        the_header_is_a_comment();
        lemma_parsed_back(entries@);
    }
    text
}

proof fn lemma_parsed_entries(entries: Seq<(String, String)>, n: int)
    requires
        0 <= n <= entries.len(),
    ensures
        texts_of(as_parsed(entry_views(entries)), n) == Some(inserted(entries, n)),
    decreases n,
{
    if n > 0 {
        lemma_parsed_entries(entries, n - 1);
    }
}

proof fn lemma_inserted(entries: Seq<(String, String)>, n: int)
    requires
        ascending(entries),
        0 <= n <= entries.len(),
    ensures
        forall|name: Seq<char>| #[trigger] inserted(entries, n).contains_key(name) ==> exists|i: int| i < n && #[trigger] stands_at(entries, name, i),
        forall|i: int| 0 <= i < n ==> inserted(entries, n).contains_key((#[trigger] entries[i]).0@) && inserted(entries, n)[entries[i].0@] == entries[i].1@,
    decreases n,
{
    if n > 0 {
        lemma_inserted(entries, n - 1);
        let last = entries[n - 1].0@;
        assert(stands_at(entries, last, n - 1));
        assert forall|i: int| 0 <= i < n implies inserted(entries, n).contains_key((#[trigger] entries[i]).0@) && inserted(entries, n)[entries[i].0@]
            == entries[i].1@ by {
            if i < n - 1 {
                precedes_irreflexive(last);
                assert(precedes(entries[i].0@, entries[n - 1].0@));
            }
        };
        assert forall|name: Seq<char>| #[trigger] inserted(entries, n).contains_key(name) implies exists|i: int|
            i < n && #[trigger] stands_at(entries, name, i) by {
            if name == last {
                assert(stands_at(entries, name, n - 1));
            } else {
                assert(inserted(entries, n - 1).contains_key(name));
                let i = choose|i: int| i < n - 1 && #[trigger] stands_at(entries, name, i);
                assert(i < n && stands_at(entries, name, i));
            }
        };
    }
}

proof fn lemma_parsed_back(entries: Seq<(String, String)>)
    requires
        ascending(entries),
    ensures
        decoded(Some(seq![(section(), SectionView::Table(as_parsed(entry_views(entries))))])) == StoredView::Table(map_of(entries)),
{
    let document: DocumentView = seq![(section(), SectionView::Table(as_parsed(entry_views(entries))))];
    let n = entries.len() as int;
    assert(section_at(document, 0) == Some(document[0].1));
    lemma_parsed_entries(entries, n);
    lemma_inserted(entries, n);
    let m = inserted(entries, n);
    assert forall|name: Seq<char>| #[trigger] map_of(entries).contains_key(name) == m.contains_key(name) by {
        if map_of(entries).contains_key(name) {
            let i = choose|i: int| #[trigger] stands_at(entries, name, i);
            assert(stands_at(entries, name, i));
            assert(entries[i].0@ == name);
        }
    };
    assert forall|name: Seq<char>| #[trigger] map_of(entries).contains_key(name) implies map_of(entries)[name] == m[name] by {
        let i = choose|i: int| #[trigger] stands_at(entries, name, i);
        assert(stands_at(entries, name, i));
        assert(entries[i].0@ == name);
        lemma_value_at(entries, i);
    };
    assert(map_of(entries) =~= m);
}

/// One setting as the file holds it, whatever the spelling.
pub fn boot_cvar(stored: &StoredConfig, name: &str) -> (r: Option<String>)
    requires
        stored.wf(),
    ensures
        match r {
            Some(value) => stored@ matches StoredView::Table(m) && value_for(m, name@) == Some(value@),
            None => stored@ matches StoredView::Table(m) ==> value_for(m, name@) is None,
        },
{
    match stored {
        StoredConfig::Table(t) => match t.spelling_of(name) {
            Some(key) => t.get(key.as_str()),
            None => None,
        },
        _ => None,
    }
}

} // verus!
