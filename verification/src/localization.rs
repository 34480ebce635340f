//! The localization table: a mapping from (language code, semantic key) to
//! a display string, loaded once at startup and read by the style updater.
//!
//! A lookup miss is the tolerated `MissingTranslation` condition: the style
//! updater leaves the previous text in place, so `lookup` reports it as
//! `None` instead of raising an error.

use vstd::prelude::*;

verus! {

/// One row of the localization table.
#[derive(Clone, Debug, PartialEq, Eq)]
pub struct LocalizationEntry {
    /// Language code the entry translates into.
    pub language: String,
    /// Semantic key the entry translates.
    pub key: String,
    /// The display string.
    pub value: String,
}

/// Whether `e` is the entry for `(language, key)`.
pub open spec fn entry_matches(e: LocalizationEntry, language: Seq<char>, key: Seq<char>) -> bool {
    e.language@ == language && e.key@ == key
}

/// The translation for `(language, key)` among the first `n` entries, the
/// most recently added matching entry winning.
pub open spec fn lookup_upto(
    entries: Seq<LocalizationEntry>,
    language: Seq<char>,
    key: Seq<char>,
    n: int,
) -> Option<String>
    decreases n,
{
    if n <= 0 || n > entries.len() {
        None
    } else if entry_matches(entries[n - 1], language, key) {
        Some(entries[n - 1].value)
    } else {
        lookup_upto(entries, language, key, n - 1)
    }
}

/// The translation for `(language, key)` in the table, if any.
pub open spec fn lookup_spec(
    entries: Seq<LocalizationEntry>,
    language: Seq<char>,
    key: Seq<char>,
) -> Option<String> {
    lookup_upto(entries, language, key, entries.len() as int)
}

/// The localization table. Its view is the sequence of entries in insertion
/// order; lookups resolve to the latest matching entry, so inserting an
/// already present pair overrides it.
pub struct LocalizationTable {
    entries: Vec<LocalizationEntry>,
}

impl View for LocalizationTable {
    type V = Seq<LocalizationEntry>;

    closed spec fn view(&self) -> Seq<LocalizationEntry> {
        self.entries@
    }
}

/// Entries below `n` do not affect a lookup confined to the first `n`
/// entries: extending the sequence beyond them changes nothing.
proof fn lemma_lookup_upto_prefix(
    entries: Seq<LocalizationEntry>,
    extended: Seq<LocalizationEntry>,
    language: Seq<char>,
    key: Seq<char>,
    n: int,
)
    requires
        n <= entries.len() <= extended.len(),
        forall|i: int| 0 <= i < entries.len() ==> entries[i] == extended[i],
    ensures
        lookup_upto(entries, language, key, n) == lookup_upto(extended, language, key, n),
    decreases n,
{
    if n > 0 {
        lemma_lookup_upto_prefix(entries, extended, language, key, n - 1);
    }
}

/// What one appended entry does to every lookup: the new entry answers for
/// its own pair and shadows nothing else.
pub proof fn lemma_lookup_push(
    entries: Seq<LocalizationEntry>,
    e: LocalizationEntry,
    language: Seq<char>,
    key: Seq<char>,
)
    ensures
        lookup_spec(entries.push(e), language, key) == if entry_matches(e, language, key) {
            Some(e.value)
        } else {
            lookup_spec(entries, language, key)
        },
{
    let pushed = entries.push(e);
    assert(pushed[entries.len() as int] == e);
    if !entry_matches(e, language, key) {
        lemma_lookup_upto_prefix(entries, pushed, language, key, entries.len() as int);
    }
}

impl LocalizationTable {
    /// An empty table.
    pub fn new() -> (r: LocalizationTable)
        ensures
            r@ == Seq::<LocalizationEntry>::empty(),
    {
        LocalizationTable { entries: Vec::new() }
    }

    /// How many entries the table holds.
    pub fn len(&self) -> (r: usize)
        ensures
            r == self@.len(),
    {
        self.entries.len()
    }

    /// Add the translation of `(language, key)`. A later entry wins over an
    /// earlier one for the same pair, so this also serves as replacement.
    pub fn insert(&mut self, language: &str, key: &str, value: &str)
        ensures
            final(self)@.len() == old(self)@.len() + 1,
            final(self)@ == old(self)@.push(final(self)@.last()),
            final(self)@.last().language@ == language@,
            final(self)@.last().key@ == key@,
            final(self)@.last().value@ == value@,
            forall|l: Seq<char>, k: Seq<char>|
                #[trigger] lookup_spec(final(self)@, l, k) == if l == language@ && k == key@ {
                    Some(final(self)@.last().value)
                } else {
                    lookup_spec(old(self)@, l, k)
                },
    {
        let entry = LocalizationEntry {
            language: language.to_owned(),
            key: key.to_owned(),
            value: value.to_owned(),
        };
        proof {
            let ghost e = entry;
            assert forall|l: Seq<char>, k: Seq<char>|
                #[trigger] lookup_spec(self.entries@.push(e), l, k) == if l == language@ && k
                    == key@ {
                    Some(e.value)
                } else {
                    lookup_spec(self.entries@, l, k)
                } by {
                lemma_lookup_push(self.entries@, e, l, k);
            }
        }
        self.entries.push(entry);
    }

    /// Look the pair up; `None` is the tolerated missing-translation case.
    pub fn lookup(&self, language: &str, key: &str) -> (r: Option<String>)
        ensures
            r == lookup_spec(self@, language@, key@),
    {
        let l = language.to_owned();
        let k = key.to_owned();
        let mut n: usize = self.entries.len();
        while n > 0
            invariant
                n <= self.entries.len(),
                l@ == language@,
                k@ == key@,
                lookup_spec(self@, language@, key@) == lookup_upto(
                    self@,
                    language@,
                    key@,
                    n as int,
                ),
            decreases n,
        {
            let entry = &self.entries[n - 1];
            if entry.language == l && entry.key == k {
                return Some(entry.value.clone());
            }
            n = n - 1;
        }
        None
    }
}

} // verus!
