//! Main display component: renders the sample text in every enabled font.
//!
//! All of its fields are derived copies of broadcasts previously sent by the
//! settings panel; the main view never originates a change to them.

use crate::model::{FontEntry, FontEntryV, XMessage, XMessageV, DEFAULT_SAMPLE_FONT_SIZE};
use vstd::prelude::*;

verus! {

/// Mathematical value of a [`MainViewCommand`].
pub ghost enum MainViewCommandV {
    SendXMessage(XMessageV),
    XMessage(XMessageV),
}

/// Message owned by the main view. `SendXMessage` asks the root router to
/// broadcast; `XMessage` is an incoming broadcast.
#[derive(Clone, Debug)]
pub enum MainViewCommand {
    SendXMessage(XMessage),
    XMessage(XMessage),
}

impl DeepView for MainViewCommand {
    type V = MainViewCommandV;

    open spec fn deep_view(&self) -> MainViewCommandV {
        match self {
            MainViewCommand::SendXMessage(m) => MainViewCommandV::SendXMessage(m.deep_view()),
            MainViewCommand::XMessage(m) => MainViewCommandV::XMessage(m.deep_view()),
        }
    }
}

/// Mathematical value of a [`MainView`].
pub ghost struct MainViewV {
    pub custom_text: Seq<char>,
    pub font_size: u32,
    pub font_entries: Seq<FontEntryV>,
}

/// The state the main view starts from: no custom text, the default sample
/// size, and an empty font list awaiting the first broadcast.
pub open spec fn initial_main_view() -> MainViewV {
    MainViewV {
        custom_text: Seq::empty(),
        font_size: DEFAULT_SAMPLE_FONT_SIZE,
        font_entries: Seq::empty(),
    }
}

/// Outcome of one main-view dispatch step: the state after it and the effect,
/// as at most one follow-up command.
pub ghost struct MainStep {
    pub post: MainViewV,
    pub task: Option<MainViewCommandV>,
}

/// Transition of the main display: each broadcast replaces the matching
/// derived field verbatim — no filtering, reordering or clamping here — and
/// produces no effect; a send-broadcast request passes through unchanged.
pub open spec fn spec_main_update(pre: MainViewV, command: MainViewCommandV) -> MainStep {
    match command {
        MainViewCommandV::SendXMessage(m) => MainStep {
            post: pre,
            task: Some(MainViewCommandV::SendXMessage(m)),
        },
        MainViewCommandV::XMessage(m) => MainStep {
            post: match m {
                XMessageV::CustomText(t) => MainViewV { custom_text: t, ..pre },
                XMessageV::FontEntries(s) => MainViewV { font_entries: s, ..pre },
                XMessageV::FontSize(n) => MainViewV { font_size: n, ..pre },
                _ => pre,
            },
            task: None,
        },
    }
}

pub struct MainView {
    custom_text: String,
    font_size: u32,
    font_entries: Vec<FontEntry>,
}

impl MainView {
    /// Mathematical value of this state.
    pub closed spec fn model(&self) -> MainViewV {
        MainViewV {
            custom_text: self.custom_text@,
            font_size: self.font_size,
            font_entries: self.font_entries.deep_view(),
        }
    }

    pub fn new() -> (r: Self)
        ensures
            r.model() == initial_main_view(),
    {
        let r = Self {
            custom_text: String::new(),
            font_size: DEFAULT_SAMPLE_FONT_SIZE,
            font_entries: Vec::new(),
        };
        proof {
            assert(r.model().font_entries =~= Seq::<FontEntryV>::empty());
        }
        r
    }

    /// Dispatch one command, returning the effect as at most one follow-up
    /// command.
    pub fn update(&mut self, command: MainViewCommand) -> (t: Option<MainViewCommand>)
        ensures
            final(self).model() == spec_main_update(old(self).model(), command.deep_view()).post,
            t.deep_view() == spec_main_update(old(self).model(), command.deep_view()).task,
    {
        match command {
            MainViewCommand::SendXMessage(data) => Some(MainViewCommand::SendXMessage(data)),
            MainViewCommand::XMessage(message) => match message {
                XMessage::CustomText(value) => {
                    self.custom_text = value;
                    None
                }
                XMessage::FontEntries(entries) => {
                    self.font_entries = entries;
                    None
                }
                XMessage::FontSize(size) => {
                    self.font_size = size;
                    None
                }
                _ => None,
            },
        }
    }

    /// Render: one block per entry, in order; an empty list renders an empty
    /// scrollable region.
    pub fn view(&self) -> (r: Vec<FontSampleBlock>)
        ensures
            r.deep_view() == spec_main_scene(self.model()),
    {
        let message: String = if self.custom_text.as_str().is_empty() {
            default_sample_text()
        } else {
            self.custom_text.clone()
        };

        let ghost scene = spec_main_scene(self.model());
        let mut blocks: Vec<FontSampleBlock> = Vec::new();
        let mut i: usize = 0;
        while i < self.font_entries.len()
            invariant
                0 <= i <= self.font_entries.len(),
                message@ == spec_sample_text(self.model().custom_text),
                scene == spec_main_scene(self.model()),
                scene.len() == self.font_entries.len(),
                self.font_entries.deep_view() == self.model().font_entries,
                blocks@.len() == i,
                forall|k: int| 0 <= k < i ==> blocks@[k]@ == scene[k],
            decreases self.font_entries.len() - i,
        {
            let block = list_item(&self.font_entries[i], self.font_size, &message);
            blocks.push(block);
            i = i + 1;
        }
        proof {
            assert(blocks.deep_view() =~= scene);
        }
        blocks
    }
}

impl Default for MainView {
    fn default() -> (r: Self)
        ensures
            r.model() == initial_main_view(),
    {
        Self::new()
    }
}

/// Mathematical value of a [`FontSampleBlock`].
pub ghost struct FontSampleBlockV {
    pub heading: Seq<char>,
    pub font_name: Seq<char>,
    pub sample_text: Seq<char>,
    pub font_size: u32,
}

/// One rendered block of the main display: the heading (display name if
/// present, else font name), the font name, and the sample text drawn in that
/// font at the current size.
pub struct FontSampleBlock {
    pub heading: String,
    pub font_name: String,
    pub sample_text: String,
    pub font_size: u32,
}

impl View for FontSampleBlock {
    type V = FontSampleBlockV;

    open spec fn view(&self) -> FontSampleBlockV {
        FontSampleBlockV {
            heading: self.heading@,
            font_name: self.font_name@,
            sample_text: self.sample_text@,
            font_size: self.font_size,
        }
    }
}

impl DeepView for FontSampleBlock {
    type V = FontSampleBlockV;

    open spec fn deep_view(&self) -> FontSampleBlockV {
        self.view()
    }
}

/// Sample sentence shown while the custom text is empty.
pub open spec fn default_sample_seq() -> Seq<char> {
    "あのイーハトーヴォのすきとおった風、夏でも底に冷たさをもつ青いそら、うつくしい森で飾られたモリーオ市、郊外のぎらぎらひかる草の波。"@
}

/// The sample text a state renders: the custom text, or the default sentence
/// while the custom text is empty.
pub open spec fn spec_sample_text(custom_text: Seq<char>) -> Seq<char> {
    if custom_text.len() == 0 {
        default_sample_seq()
    } else {
        custom_text
    }
}

pub fn default_sample_text() -> (r: String)
    ensures
        r@ == default_sample_seq(),
{
    "あのイーハトーヴォのすきとおった風、夏でも底に冷たさをもつ青いそら、うつくしい森で飾られたモリーオ市、郊外のぎらぎらひかる草の波。".to_owned()
}

/// The block a single entry renders as.
pub open spec fn spec_list_item(entry: FontEntryV, font_size: u32, message: Seq<char>)
    -> FontSampleBlockV {
    FontSampleBlockV {
        heading: match entry.display_name {
            Some(d) => d,
            None => entry.font_name,
        },
        font_name: entry.font_name,
        sample_text: message,
        font_size: font_size,
    }
}

/// The whole scene of a main-view state: one block per entry, in order, all
/// showing the same sample text at the same size.
pub open spec fn spec_main_scene(s: MainViewV) -> Seq<FontSampleBlockV> {
    Seq::new(
        s.font_entries.len(),
        |i: int| spec_list_item(s.font_entries[i], s.font_size, spec_sample_text(s.custom_text)),
    )
}

fn list_item(font_entry: &FontEntry, font_size: u32, message: &String) -> (r: FontSampleBlock)
    ensures
        r@ == spec_list_item(font_entry@, font_size, message@),
{
    FontSampleBlock {
        heading: match &font_entry.display_name {
            Some(data) => data.clone(),
            None => font_entry.font_name.clone(),
        },
        font_name: font_entry.font_name.clone(),
        sample_text: message.clone(),
        font_size,
    }
}

} // verus!
