//! Shared data model: font descriptors and the broadcast message that every
//! component can receive.

use vstd::prelude::*;

verus! {

/// Sample-text size every component starts from.
pub const DEFAULT_SAMPLE_FONT_SIZE: u32 = 28;

/// Smallest font size the settings panel's stepper accepts.
pub const MIN_FONT_SIZE: u32 = 1;

/// Largest font size the settings panel's stepper accepts.
pub const MAX_FONT_SIZE: u32 = 1000;

/// Height of the toolbar, also used by the main view as its top inset.
pub const TOOLBAR_HEIGHT: u32 = 36;

/// Horizontal margin kept between window content and the window edge.
pub const WINDOW_BODY_MARGIN: u32 = 8;

/// Mathematical value of a [`FontEntry`].
pub ghost struct FontEntryV {
    pub filepath: Seq<char>,
    pub display_name: Option<Seq<char>>,
    pub font_name: Seq<char>,
}

/// One font known to the directory. Identified by `filepath`, which is unique
/// within any list the directory hands out.
#[derive(Clone, Debug)]
pub struct FontEntry {
    pub filepath: String,
    pub display_name: Option<String>,
    pub font_name: String,
}

impl View for FontEntry {
    type V = FontEntryV;

    open spec fn view(&self) -> FontEntryV {
        FontEntryV {
            filepath: self.filepath@,
            display_name: self.display_name.deep_view(),
            font_name: self.font_name@,
        }
    }
}

impl DeepView for FontEntry {
    type V = FontEntryV;

    open spec fn deep_view(&self) -> FontEntryV {
        self.view()
    }
}

impl FontEntry {
    /// Copy of the entry, field by field, equal to the original in every view.
    pub fn duplicate(&self) -> (r: FontEntry)
        ensures
            r@ == self@,
    {
        FontEntry {
            filepath: self.filepath.clone(),
            display_name: match &self.display_name {
                Some(s) => Some(s.clone()),
                None => None,
            },
            font_name: self.font_name.clone(),
        }
    }
}

/// Field-by-field copy of a list of entries, equal to the original in every
/// view.
pub fn clone_entries(entries: &Vec<FontEntry>) -> (r: Vec<FontEntry>)
    ensures
        r.deep_view() == entries.deep_view(),
{
    let ghost target = entries.deep_view();
    let mut r: Vec<FontEntry> = Vec::new();
    let mut i: usize = 0;
    while i < entries.len()
        invariant
            0 <= i <= entries.len(),
            target == entries.deep_view(),
            r@.len() == i,
            forall|k: int| 0 <= k < i ==> r@[k]@ == target[k],
        decreases entries.len() - i,
    {
        let e = entries[i].duplicate();
        r.push(e);
        i = i + 1;
    }
    proof {
        assert(r.deep_view() =~= target);
    }
    r
}

/// Filepaths of a list of font entries are pairwise distinct.
pub open spec fn entries_unique(s: Seq<FontEntryV>) -> bool {
    forall|i: int, j: int|
        0 <= i < s.len() && 0 <= j < s.len() && i != j ==> s[i].filepath != s[j].filepath
}

/// Mathematical value of an [`XMessage`].
pub ghost enum XMessageV {
    Init,
    Exit,
    SettingsOpen,
    SettingsClose,
    CustomText(Seq<char>),
    FontEntries(Seq<FontEntryV>),
    FontSize(u32),
}

/// Broadcast message: the one channel by which a component's state change
/// becomes visible to its siblings. The root router fans every variant other
/// than `SettingsOpen` / `SettingsClose` out to all components.
#[derive(Clone, Debug)]
pub enum XMessage {
    Init,
    Exit,
    SettingsOpen,
    SettingsClose,
    CustomText(String),
    FontEntries(Vec<FontEntry>),
    FontSize(u32),
}

impl DeepView for XMessage {
    type V = XMessageV;

    open spec fn deep_view(&self) -> XMessageV {
        match self {
            XMessage::Init => XMessageV::Init,
            XMessage::Exit => XMessageV::Exit,
            XMessage::SettingsOpen => XMessageV::SettingsOpen,
            XMessage::SettingsClose => XMessageV::SettingsClose,
            XMessage::CustomText(s) => XMessageV::CustomText(s@),
            XMessage::FontEntries(v) => XMessageV::FontEntries(v.deep_view()),
            XMessage::FontSize(n) => XMessageV::FontSize(*n),
        }
    }
}

impl XMessage {
    /// Copy of the message, equal to the original in every view.
    pub fn duplicate(&self) -> (r: XMessage)
        ensures
            r.deep_view() == self.deep_view(),
    {
        match self {
            XMessage::Init => XMessage::Init,
            XMessage::Exit => XMessage::Exit,
            XMessage::SettingsOpen => XMessage::SettingsOpen,
            XMessage::SettingsClose => XMessage::SettingsClose,
            XMessage::CustomText(s) => XMessage::CustomText(s.clone()),
            XMessage::FontEntries(v) => XMessage::FontEntries(clone_entries(v)),
            XMessage::FontSize(n) => XMessage::FontSize(*n),
        }
    }
}

} // verus!
