//! Settings panel component: owns the authoritative per-font enabled map,
//! the custom-text buffer and the font-size control, and emits the enabled
//! subset as a broadcast whenever it changes.
//!
//! The enabled map is an insertion-ordered map from filepath to list item,
//! kept in an `indexmap::IndexMap` behind a small trusted surface; everything
//! the panel decides about its contents is verified against that surface.

use crate::font_list::FontListRepository;
use crate::model::{entries_unique, FontEntry, FontEntryV, XMessage, XMessageV};
use crate::model::{DEFAULT_SAMPLE_FONT_SIZE, MAX_FONT_SIZE, MIN_FONT_SIZE};
use std::collections::hash_map::RandomState;
use std::sync::Arc;
use vstd::prelude::*;

verus! {

/// Insertion-ordered map backing the panel, keyed by filepath.
pub type FontItemMap = indexmap::IndexMap<String, FontListItem, RandomState>;

#[verifier::external_type_specification]
#[verifier::external_body]
#[verifier::reject_recursive_types(K)]
#[verifier::reject_recursive_types(V)]
#[verifier::reject_recursive_types(S)]
pub struct ExIndexMap<K, V, S>(indexmap::IndexMap<K, V, S>);

/// The key-value pairs a [`FontItemMap`] holds, in its insertion order.
pub uninterp spec fn font_item_map_entries(m: FontItemMap) -> Seq<(Seq<char>, FontListItemV)>;

/// Some pair of `es` has key `k`.
pub open spec fn entries_has_key(es: Seq<(Seq<char>, FontListItemV)>, k: Seq<char>) -> bool {
    exists|j: int| 0 <= j < es.len() && (#[trigger] es[j]).0 == k
}

/// `es` with the value of every pair keyed `k` replaced by `v`, order and
/// keys untouched.
pub open spec fn entries_with_value_replaced(
    es: Seq<(Seq<char>, FontListItemV)>,
    k: Seq<char>,
    v: FontListItemV,
) -> Seq<(Seq<char>, FontListItemV)> {
    Seq::new(es.len(), |j: int| if es[j].0 == k { (es[j].0, v) } else { es[j] })
}

/// Relies on indexmap's `IndexMap::new`: the new map is empty.
#[verifier::external_body]
fn font_item_map_new() -> (m: FontItemMap)
    ensures
        font_item_map_entries(m) == Seq::<(Seq<char>, FontListItemV)>::empty(),
{
    indexmap::IndexMap::new()
}

/// Relies on indexmap's `IndexMap::get`: the value stored for `key` if an
/// equivalent key is present, else `None`.
#[verifier::external_body]
fn font_item_map_get<'a>(m: &'a FontItemMap, key: &String) -> (r: Option<&'a FontListItem>)
    ensures
        match r {
            Some(item) => exists|j: int|
                0 <= j < font_item_map_entries(*m).len()
                    && #[trigger] font_item_map_entries(*m)[j] == (key@, item@),
            None => forall|j: int|
                0 <= j < font_item_map_entries(*m).len()
                    ==> (#[trigger] font_item_map_entries(*m)[j]).0 != key@,
        },
{
    m.get(key)
}

/// Relies on indexmap's `IndexMap::insert`: if an equivalent key exists, it
/// keeps its place in the order and only its value is replaced; otherwise the
/// pair is appended, last in order.
#[verifier::external_body]
fn font_item_map_insert(m: &mut FontItemMap, key: String, value: FontListItem)
    ensures
        entries_has_key(font_item_map_entries(*old(m)), key@) ==> font_item_map_entries(
            *final(m),
        ) == entries_with_value_replaced(font_item_map_entries(*old(m)), key@, value@),
        !entries_has_key(font_item_map_entries(*old(m)), key@) ==> font_item_map_entries(
            *final(m),
        ) == font_item_map_entries(*old(m)).push((key@, value@)),
{
    let _ = m.insert(key, value);
}

/// Relies on indexmap's `IndexMap::values`: the values in insertion order.
#[verifier::external_body]
fn font_item_map_values<'a>(m: &'a FontItemMap) -> (r: Vec<&'a FontListItem>)
    ensures
        r.deep_view() == font_item_map_entries(*m).map_values(
            |p: (Seq<char>, FontListItemV)| p.1,
        ),
{
    m.values().collect()
}

/// Mathematical value of a [`FontListItem`].
pub ghost struct FontListItemV {
    pub enabled: bool,
    pub font_entry: FontEntryV,
}

/// One row of the enabled map: a directory entry and whether it is shown.
#[derive(Clone, Debug)]
pub struct FontListItem {
    pub enabled: bool,
    pub font_entry: FontEntry,
}

impl View for FontListItem {
    type V = FontListItemV;

    open spec fn view(&self) -> FontListItemV {
        FontListItemV { enabled: self.enabled, font_entry: self.font_entry@ }
    }
}

impl DeepView for FontListItem {
    type V = FontListItemV;

    open spec fn deep_view(&self) -> FontListItemV {
        self.view()
    }
}

/// Mathematical value of an [`EditorAction`].
pub ghost enum EditorActionV {
    Edit(Seq<char>),
    Cursor,
}

/// A text-editor action reduced to what the panel's logic reads: whether the
/// action mutated the buffer, and the buffer's full text after applying it.
/// Pure cursor moves arrive as `Cursor`.
#[derive(Clone, Debug)]
pub enum EditorAction {
    Edit(String),
    Cursor,
}

impl DeepView for EditorAction {
    type V = EditorActionV;

    open spec fn deep_view(&self) -> EditorActionV {
        match self {
            EditorAction::Edit(t) => EditorActionV::Edit(t@),
            EditorAction::Cursor => EditorActionV::Cursor,
        }
    }
}

/// Mathematical value of a [`SettingsViewCommand`].
pub ghost enum SettingsViewCommandV {
    FontListItemChanged(FontEntryV, bool),
    FontSizeUpdated(u32),
    SettingsButtonClicked,
    TextEditorAction(EditorActionV),
    SendXMessage(XMessageV),
    Sink,
    XMessage(XMessageV),
}

/// Message owned by the settings panel.
#[derive(Clone, Debug)]
pub enum SettingsViewCommand {
    FontListItemChanged(FontEntry, bool),
    FontSizeUpdated(u32),
    SettingsButtonClicked,
    TextEditorAction(EditorAction),
    SendXMessage(XMessage),
    Sink,
    XMessage(XMessage),
}

impl DeepView for SettingsViewCommand {
    type V = SettingsViewCommandV;

    open spec fn deep_view(&self) -> SettingsViewCommandV {
        match self {
            SettingsViewCommand::FontListItemChanged(e, b) => {
                SettingsViewCommandV::FontListItemChanged(e@, *b)
            },
            SettingsViewCommand::FontSizeUpdated(n) => SettingsViewCommandV::FontSizeUpdated(*n),
            SettingsViewCommand::SettingsButtonClicked => {
                SettingsViewCommandV::SettingsButtonClicked
            },
            SettingsViewCommand::TextEditorAction(a) => {
                SettingsViewCommandV::TextEditorAction(a.deep_view())
            },
            SettingsViewCommand::SendXMessage(m) => {
                SettingsViewCommandV::SendXMessage(m.deep_view())
            },
            SettingsViewCommand::Sink => SettingsViewCommandV::Sink,
            SettingsViewCommand::XMessage(m) => SettingsViewCommandV::XMessage(m.deep_view()),
        }
    }
}

/// Mathematical value of a [`SettingsView`].
pub ghost struct SettingsViewV {
    pub custom_text: Seq<char>,
    pub font_size: u32,
    pub items: Seq<FontListItemV>,
}

/// The enabled subset: the entries of the rows with `enabled == true`, in map
/// order — the one sequence the panel ever broadcasts as `FontEntries`.
pub open spec fn enabled_entries(items: Seq<FontListItemV>) -> Seq<FontEntryV> {
    items.filter(|it: FontListItemV| it.enabled).map_values(|it: FontListItemV| it.font_entry)
}

/// Filepaths of the rows are pairwise distinct.
pub open spec fn items_unique(items: Seq<FontListItemV>) -> bool {
    forall|i: int, j: int|
        0 <= i < items.len() && 0 <= j < items.len() && i != j
            ==> (#[trigger] items[i]).font_entry.filepath
            != (#[trigger] items[j]).font_entry.filepath
}

/// A panel state is well formed when its rows have distinct filepaths and its
/// font size respects the stepper bounds.
pub open spec fn settings_wf(s: SettingsViewV) -> bool {
    &&& items_unique(s.items)
    &&& MIN_FONT_SIZE <= s.font_size <= MAX_FONT_SIZE
}

/// A command the panel can be asked to dispatch: a toggle may only name a
/// filepath that is a key of the map (toggles originate from rendered rows),
/// and an edited font size respects the stepper bounds.
pub open spec fn settings_command_admissible(s: SettingsViewV, cmd: SettingsViewCommandV) -> bool {
    match cmd {
        SettingsViewCommandV::FontListItemChanged(entry, _) => exists|j: int|
            0 <= j < s.items.len() && (#[trigger] s.items[j]).font_entry.filepath
                == entry.filepath,
        SettingsViewCommandV::FontSizeUpdated(n) => MIN_FONT_SIZE <= n <= MAX_FONT_SIZE,
        _ => true,
    }
}

/// The panel state a directory initializes: every entry present, in directory
/// order, enabled.
pub open spec fn initial_settings_view(directory: Seq<FontEntryV>) -> SettingsViewV {
    SettingsViewV {
        custom_text: Seq::empty(),
        font_size: DEFAULT_SAMPLE_FONT_SIZE,
        items: Seq::new(
            directory.len(),
            |i: int| FontListItemV { enabled: true, font_entry: directory[i] },
        ),
    }
}

/// Outcome of one panel dispatch step.
pub ghost struct SettingsStep {
    pub post: SettingsViewV,
    pub task: Option<SettingsViewCommandV>,
}

/// Transition of the settings panel.
pub open spec fn spec_settings_update(pre: SettingsViewV, cmd: SettingsViewCommandV)
    -> SettingsStep {
    match cmd {
        SettingsViewCommandV::FontListItemChanged(entry, enabled) => {
            let items = Seq::new(
                pre.items.len(),
                |i: int|
                    if pre.items[i].font_entry.filepath == entry.filepath {
                        FontListItemV { enabled, font_entry: pre.items[i].font_entry }
                    } else {
                        pre.items[i]
                    },
            );
            SettingsStep {
                post: SettingsViewV { items, ..pre },
                task: Some(
                    SettingsViewCommandV::SendXMessage(
                        XMessageV::FontEntries(enabled_entries(items)),
                    ),
                ),
            }
        },
        SettingsViewCommandV::FontSizeUpdated(n) => SettingsStep {
            post: SettingsViewV { font_size: n, ..pre },
            task: Some(SettingsViewCommandV::SendXMessage(XMessageV::FontSize(n))),
        },
        SettingsViewCommandV::SettingsButtonClicked => SettingsStep {
            post: pre,
            task: Some(SettingsViewCommandV::SendXMessage(XMessageV::SettingsClose)),
        },
        SettingsViewCommandV::TextEditorAction(a) => match a {
            EditorActionV::Edit(t) => SettingsStep {
                post: SettingsViewV { custom_text: t, ..pre },
                task: Some(SettingsViewCommandV::SendXMessage(XMessageV::CustomText(t))),
            },
            EditorActionV::Cursor => SettingsStep { post: pre, task: None },
        },
        SettingsViewCommandV::SendXMessage(m) => SettingsStep {
            post: pre,
            task: Some(SettingsViewCommandV::SendXMessage(m)),
        },
        SettingsViewCommandV::Sink => SettingsStep { post: pre, task: None },
        SettingsViewCommandV::XMessage(m) => match m {
            XMessageV::Init => SettingsStep {
                post: pre,
                task: Some(
                    SettingsViewCommandV::SendXMessage(
                        XMessageV::FontEntries(enabled_entries(pre.items)),
                    ),
                ),
            },
            _ => SettingsStep { post: pre, task: None },
        },
    }
}

pub struct SettingsView {
    custom_text: String,
    font_size: u32,
    font_list_item_map: FontItemMap,
}

impl SettingsView {
    /// The map's key-value pairs, in insertion order.
    pub closed spec fn entries(&self) -> Seq<(Seq<char>, FontListItemV)> {
        font_item_map_entries(self.font_list_item_map)
    }

    /// Mathematical value of this state.
    pub closed spec fn model(&self) -> SettingsViewV {
        SettingsViewV {
            custom_text: self.custom_text@,
            font_size: self.font_size,
            items: self.entries().map_values(|p: (Seq<char>, FontListItemV)| p.1),
        }
    }

    /// Internal well-formedness: each key is its item's filepath, keys are
    /// pairwise distinct, and the font size respects the stepper bounds.
    pub closed spec fn wf(&self) -> bool {
        &&& forall|j: int|
            0 <= j < self.entries().len() ==> (#[trigger] self.entries()[j]).0
                == self.entries()[j].1.font_entry.filepath
        &&& forall|i: int, j: int|
            0 <= i < self.entries().len() && 0 <= j < self.entries().len() && i != j
                ==> (#[trigger] self.entries()[i]).0 != (#[trigger] self.entries()[j]).0
        &&& MIN_FONT_SIZE <= self.font_size <= MAX_FONT_SIZE
    }

    /// A well-formed panel has a well-formed mathematical value.
    pub proof fn lemma_wf_model(&self)
        requires
            self.wf(),
        ensures
            settings_wf(self.model()),
    {
        assert forall|i: int, j: int|
            0 <= i < self.model().items.len() && 0 <= j < self.model().items.len() && i != j
            implies (#[trigger] self.model().items[i]).font_entry.filepath
                != (#[trigger] self.model().items[j]).font_entry.filepath by {
            assert(self.entries()[i].0 == self.entries()[i].1.font_entry.filepath);
            assert(self.entries()[j].0 == self.entries()[j].1.font_entry.filepath);
        }
    }

    /// Builds the ordered enabled map from the directory, every entry
    /// defaulted to enabled.
    pub fn new(font_list_repo: Arc<FontListRepository>) -> (r: Self)
        requires
            font_list_repo.wf(),
        ensures
            r.wf(),
            r.model() == initial_settings_view(font_list_repo@),
    {
        let ghost directory = font_list_repo@;
        let font_entries = font_list_repo.find_all();
        let mut font_list_item_map = font_item_map_new();
        let mut i: usize = 0;
        while i < font_entries.len()
            invariant
                0 <= i <= font_entries.len(),
                font_entries.deep_view() == directory,
                entries_unique(directory),
                font_item_map_entries(font_list_item_map).len() == i,
                forall|k: int|
                    0 <= k < i ==> #[trigger] font_item_map_entries(font_list_item_map)[k] == (
                        directory[k].filepath,
                        FontListItemV { enabled: true, font_entry: directory[k] },
                    ),
            decreases font_entries.len() - i,
        {
            let entry = font_entries[i].duplicate();
            let key = entry.filepath.clone();
            proof {
                assert(entry@ == directory[i as int]);
                assert forall|j: int|
                    0 <= j < font_item_map_entries(font_list_item_map).len()
                    implies (#[trigger] font_item_map_entries(font_list_item_map)[j]).0
                        != key@ by {
                    assert(font_item_map_entries(font_list_item_map)[j].0
                        == directory[j].filepath);
                }
            }
            font_item_map_insert(
                &mut font_list_item_map,
                key,
                FontListItem { enabled: true, font_entry: entry },
            );
            i = i + 1;
        }
        let r = Self {
            custom_text: String::new(),
            font_size: DEFAULT_SAMPLE_FONT_SIZE,
            font_list_item_map,
        };
        proof {
            assert(r.model().items =~= initial_settings_view(directory).items);
        }
        r
    }

    /// Dispatch one command, returning the effect as at most one follow-up
    /// command.
    pub fn update(&mut self, command: SettingsViewCommand) -> (t: Option<SettingsViewCommand>)
        requires
            old(self).wf(),
            settings_command_admissible(old(self).model(), command.deep_view()),
        ensures
            final(self).wf(),
            final(self).model() == spec_settings_update(
                old(self).model(),
                command.deep_view(),
            ).post,
            t.deep_view() == spec_settings_update(old(self).model(), command.deep_view()).task,
    {
        match command {
            SettingsViewCommand::FontListItemChanged(font_entry, enabled) => {
                let ghost pre = self.entries();
                let updated = match font_item_map_get(&self.font_list_item_map, &font_entry.filepath) {
                    Some(item) => FontListItem {
                        enabled,
                        font_entry: item.font_entry.duplicate(),
                    },
                    None => {
                        proof {
                            let j = choose|j: int|
                                0 <= j < old(self).model().items.len()
                                    && (#[trigger] old(self).model().items[j]).font_entry.filepath
                                    == font_entry@.filepath;
                            assert(pre[j].0 == pre[j].1.font_entry.filepath);
                            assert(false);
                        }
                        unreached()
                    },
                };
                let key = font_entry.filepath.clone();
                font_item_map_insert(&mut self.font_list_item_map, key, updated);
                proof {
                    let post_items = spec_settings_update(
                        old(self).model(),
                        SettingsViewCommandV::FontListItemChanged(font_entry@, enabled),
                    ).post.items;
                    assert forall|k: int| 0 <= k < self.entries().len()
                        implies (#[trigger] self.entries()[k]) == (
                            pre[k].0,
                            post_items[k],
                        ) by {
                        assert(pre[k].0 == pre[k].1.font_entry.filepath);
                    }
                    assert(self.model().items =~= post_items);
                }
                Some(
                    SettingsViewCommand::SendXMessage(
                        XMessage::FontEntries(self.create_font_entries()),
                    ),
                )
            },
            SettingsViewCommand::FontSizeUpdated(size) => {
                self.font_size = size;
                Some(SettingsViewCommand::SendXMessage(XMessage::FontSize(size)))
            },
            SettingsViewCommand::SettingsButtonClicked => {
                Some(SettingsViewCommand::SendXMessage(XMessage::SettingsClose))
            },
            SettingsViewCommand::TextEditorAction(action) => match action {
                EditorAction::Edit(text) => {
                    self.custom_text = text;
                    Some(
                        SettingsViewCommand::SendXMessage(
                            XMessage::CustomText(self.custom_text.clone()),
                        ),
                    )
                },
                EditorAction::Cursor => None,
            },
            SettingsViewCommand::SendXMessage(data) => {
                Some(SettingsViewCommand::SendXMessage(data))
            },
            SettingsViewCommand::Sink => None,
            SettingsViewCommand::XMessage(message) => match message {
                XMessage::Init => Some(
                    SettingsViewCommand::SendXMessage(
                        XMessage::FontEntries(self.create_font_entries()),
                    ),
                ),
                _ => None,
            },
        }
    }

    /// The enabled subset of the map, in map order.
    pub fn create_font_entries(&self) -> (r: Vec<FontEntry>)
        ensures
            r.deep_view() == enabled_entries(self.model().items),
    {
        let items = font_item_map_values(&self.font_list_item_map);
        let ghost model_items = self.model().items;
        proof {
            assert(items.deep_view() =~= model_items);
        }
        let mut r: Vec<FontEntry> = Vec::new();
        let mut i: usize = 0;
        while i < items.len()
            invariant
                0 <= i <= items.len(),
                items.deep_view() == model_items,
                items@.len() == model_items.len(),
                r.deep_view() == enabled_entries(model_items.take(i as int)),
            decreases items.len() - i,
        {
            let ghost r_pre = r.deep_view();
            let item: &FontListItem = items[i];
            if item.enabled {
                r.push(item.font_entry.duplicate());
            }
            proof {
                lemma_enabled_entries_push(
                    model_items.take(i as int),
                    model_items[i as int],
                );
                assert(model_items.take(i as int).push(model_items[i as int])
                    =~= model_items.take(i as int + 1));
                assert(item@ == model_items[i as int]);
                if item@.enabled {
                    assert(r.deep_view() =~= r_pre.push(item@.font_entry));
                }
            }
            i = i + 1;
        }
        proof {
            assert(model_items.take(model_items.len() as int) =~= model_items);
        }
        r
    }
}

/// Mathematical value of a [`FontToggleRow`].
pub ghost struct FontToggleRowV {
    pub label: Seq<char>,
    pub enabled: bool,
    pub font_entry: FontEntryV,
}

/// One toggle row of the panel: a checkbox labeled with the display name if
/// present, else the font name, wired to emit `FontListItemChanged` for its
/// entry.
pub struct FontToggleRow {
    pub label: String,
    pub enabled: bool,
    pub font_entry: FontEntry,
}

impl View for FontToggleRow {
    type V = FontToggleRowV;

    open spec fn view(&self) -> FontToggleRowV {
        FontToggleRowV {
            label: self.label@,
            enabled: self.enabled,
            font_entry: self.font_entry@,
        }
    }
}

impl DeepView for FontToggleRow {
    type V = FontToggleRowV;

    open spec fn deep_view(&self) -> FontToggleRowV {
        self.view()
    }
}

/// The row a single map entry renders as.
pub open spec fn spec_checkable_font_list_item(item: FontListItemV) -> FontToggleRowV {
    FontToggleRowV {
        label: match item.font_entry.display_name {
            Some(d) => d,
            None => item.font_entry.font_name,
        },
        enabled: item.enabled,
        font_entry: item.font_entry,
    }
}

/// The rows of a panel state: one per map entry, in map order.
pub open spec fn spec_settings_rows(items: Seq<FontListItemV>) -> Seq<FontToggleRowV> {
    Seq::new(items.len(), |i: int| spec_checkable_font_list_item(items[i]))
}

pub fn checkable_font_list_item(font_list_item: &FontListItem) -> (r: FontToggleRow)
    ensures
        r@ == spec_checkable_font_list_item(font_list_item@),
{
    FontToggleRow {
        label: match &font_list_item.font_entry.display_name {
            Some(data) => data.clone(),
            None => font_list_item.font_entry.font_name.clone(),
        },
        enabled: font_list_item.enabled,
        font_entry: font_list_item.font_entry.duplicate(),
    }
}

/// Render model of the settings panel: the close control, the custom-text
/// editor's buffer, the bounded font-size stepper, and one toggle row per map
/// entry in map order.
pub struct SettingsScene {
    pub close_control: SettingsViewCommand,
    pub text_buffer: String,
    pub font_size: u32,
    pub rows: Vec<FontToggleRow>,
}

impl SettingsView {
    /// Render: the close control requests the close broadcast, the stepper
    /// shows the current size, and the rows mirror the map.
    pub fn view(&self) -> (r: SettingsScene)
        ensures
            r.close_control.deep_view() == SettingsViewCommandV::SettingsButtonClicked,
            r.text_buffer@ == self.model().custom_text,
            r.font_size == self.model().font_size,
            r.rows.deep_view() == spec_settings_rows(self.model().items),
    {
        let items = font_item_map_values(&self.font_list_item_map);
        let ghost model_items = self.model().items;
        proof {
            assert(items.deep_view() =~= model_items);
        }
        let mut rows: Vec<FontToggleRow> = Vec::new();
        let mut i: usize = 0;
        while i < items.len()
            invariant
                0 <= i <= items.len(),
                items.deep_view() == model_items,
                items@.len() == model_items.len(),
                rows@.len() == i,
                forall|k: int| 0 <= k < i ==> rows@[k]@ == spec_settings_rows(model_items)[k],
            decreases items.len() - i,
        {
            rows.push(checkable_font_list_item(items[i]));
            i = i + 1;
        }
        proof {
            assert(rows.deep_view() =~= spec_settings_rows(model_items));
        }
        SettingsScene {
            close_control: SettingsViewCommand::SettingsButtonClicked,
            text_buffer: self.custom_text.clone(),
            font_size: self.font_size,
            rows,
        }
    }
}

/// Any `FontEntries` broadcast a toggle makes the panel emit carries exactly
/// the enabled subset of the panel's new map, in map order, and a toggle
/// never reorders or drops map entries — it changes one row's flag at most.
pub proof fn lemma_toggle_emits_enabled_subset(s: SettingsViewV, entry: FontEntryV, enabled: bool)
    ensures
        ({
            let step = spec_settings_update(
                s,
                SettingsViewCommandV::FontListItemChanged(entry, enabled),
            );
            &&& step.task == Some(
                SettingsViewCommandV::SendXMessage(
                    XMessageV::FontEntries(enabled_entries(step.post.items)),
                ),
            )
            &&& step.post.items.len() == s.items.len()
            &&& forall|i: int|
                0 <= i < s.items.len() ==> (#[trigger] step.post.items[i]).font_entry
                    == s.items[i].font_entry
        }),
{
}

/// Toggling a row and then toggling it back to its original flag restores
/// the map, and with it the enabled subset, exactly.
pub proof fn lemma_toggle_round_trip(s: SettingsViewV, idx: int, flipped: bool)
    requires
        settings_wf(s),
        0 <= idx < s.items.len(),
    ensures
        ({
            let entry = s.items[idx].font_entry;
            let s1 = spec_settings_update(
                s,
                SettingsViewCommandV::FontListItemChanged(entry, flipped),
            ).post;
            let s2 = spec_settings_update(
                s1,
                SettingsViewCommandV::FontListItemChanged(entry, s.items[idx].enabled),
            ).post;
            s2.items == s.items && enabled_entries(s2.items) == enabled_entries(s.items)
        }),
{
    let entry = s.items[idx].font_entry;
    let s1 = spec_settings_update(
        s,
        SettingsViewCommandV::FontListItemChanged(entry, flipped),
    ).post;
    let s2 = spec_settings_update(
        s1,
        SettingsViewCommandV::FontListItemChanged(entry, s.items[idx].enabled),
    ).post;
    assert forall|i: int| 0 <= i < s.items.len() implies #[trigger] s2.items[i]
        == s.items[i] by {
        if s.items[i].font_entry.filepath == entry.filepath {
            assert(i == idx);
        }
    }
    assert(s2.items =~= s.items);
}

/// Pushing a row onto the map extends the enabled subset by its entry exactly
/// when the row is enabled.
pub proof fn lemma_enabled_entries_push(items: Seq<FontListItemV>, it: FontListItemV)
    ensures
        enabled_entries(items.push(it)) == (if it.enabled {
            enabled_entries(items).push(it.font_entry)
        } else {
            enabled_entries(items)
        }),
{
    reveal(Seq::filter);
    let s = items.push(it);
    assert(s.drop_last() =~= items);
    assert(s.last() == it);
    if it.enabled {
        assert(enabled_entries(s) =~= enabled_entries(items).push(it.font_entry));
    } else {
        assert(enabled_entries(s) =~= enabled_entries(items));
    }
}

} // verus!
