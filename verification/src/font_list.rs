//! Font directory: supplies the initial list of available font descriptors.
//!
//! The core treats the directory as an external collaborator with one query,
//! `find_all`. This build keeps a fixed in-memory list; a host that reads a
//! config file instead constructs the repository with `with_entries`.

use crate::model::{clone_entries, entries_unique, FontEntry, FontEntryV};
use vstd::prelude::*;

verus! {

/// The fixed directory this build ships with.
pub open spec fn builtin_directory() -> Seq<FontEntryV> {
    seq![
        FontEntryV {
            filepath: "./arial.ttf"@,
            display_name: None,
            font_name: "Arial"@,
        },
    ]
}

/// Data source backing the repository: a list built once, never mutated.
pub struct FontListDataSourceImpl {
    cache: Vec<FontEntry>,
}

impl View for FontListDataSourceImpl {
    type V = Seq<FontEntryV>;

    closed spec fn view(&self) -> Seq<FontEntryV> {
        self.cache.deep_view()
    }
}

impl FontListDataSourceImpl {
    /// Builds the fixed in-memory list.
    pub fn new() -> (r: Self)
        ensures
            r@ == builtin_directory(),
    {
        let mut cache: Vec<FontEntry> = Vec::new();
        cache.push(FontEntry {
            filepath: "./arial.ttf".to_string(),
            display_name: None,
            font_name: "Arial".to_string(),
        });
        proof {
            assert(cache.deep_view() =~= builtin_directory());
        }
        Self { cache }
    }

    /// The directory's one query: every known entry, in directory order.
    pub fn find_all(&self) -> (r: Vec<FontEntry>)
        ensures
            r.deep_view() == self@,
    {
        clone_entries(&self.cache)
    }
}

/// Repository the components consult for the initial font list.
pub struct FontListRepository {
    data_source: FontListDataSourceImpl,
}

impl View for FontListRepository {
    type V = Seq<FontEntryV>;

    closed spec fn view(&self) -> Seq<FontEntryV> {
        self.data_source@
    }
}

impl FontListRepository {
    /// The directory guarantees filepaths unique within any list it loads.
    pub open spec fn wf(&self) -> bool {
        entries_unique(self@)
    }

    /// A repository over a caller-supplied directory; filepaths must be
    /// unique, which the font directory guarantees for any list it loads.
    pub fn with_entries(entries: Vec<FontEntry>) -> (r: Self)
        requires
            entries_unique(entries.deep_view()),
        ensures
            r@ == entries.deep_view(),
    {
        Self { data_source: FontListDataSourceImpl { cache: entries } }
    }

    /// Every known entry, in directory order.
    pub fn find_all(&self) -> (r: Vec<FontEntry>)
        ensures
            r.deep_view() == self@,
    {
        self.data_source.find_all()
    }
}

impl Default for FontListRepository {
    /// Repository over the fixed built-in directory.
    fn default() -> (r: Self)
        ensures
            r@ == builtin_directory(),
    {
        Self { data_source: FontListDataSourceImpl::new() }
    }
}

} // verus!
