//! Root router: owns overlay visibility, composes the three components,
//! dispatches each incoming message to its owner, translates send-broadcast
//! results into broadcasts, fans broadcasts out to every component, and owns
//! the escape-key policy.

use crate::font_list::{builtin_directory, FontListRepository};
use crate::main_view::{
    spec_main_update, FontSampleBlock, MainView, MainViewCommand, MainViewCommandV, MainViewV,
    initial_main_view,
};
use crate::model::{entries_unique, FontEntryV, XMessage, XMessageV};
use crate::settings_view::{
    enabled_entries, initial_settings_view, settings_command_admissible, spec_settings_update,
    SettingsScene, SettingsView, SettingsViewCommand, SettingsViewCommandV, SettingsViewV,
};
use crate::toolbar::{spec_toolbar_update, Toolbar, ToolbarCommand, ToolbarCommandV, ToolbarScene};
use std::sync::Arc;
use vstd::prelude::*;

verus! {

/// Color scheme the window renders with.
#[derive(Clone, Copy, Debug, PartialEq, Eq, Structural)]
pub enum Theme {
    Light,
    Dark,
}

/// Mathematical value of an [`AppCommand`].
pub ghost enum AppCommandV {
    Esc,
    MainViewCommand(MainViewCommandV),
    SettingsViewCommand(SettingsViewCommandV),
    ToolbarCommand(ToolbarCommandV),
    XMessage(XMessageV),
}

/// Root message: raw escape-key input, a message tagged for one owning
/// component, or a broadcast.
#[derive(Clone, Debug)]
pub enum AppCommand {
    Esc,
    MainViewCommand(MainViewCommand),
    SettingsViewCommand(SettingsViewCommand),
    ToolbarCommand(ToolbarCommand),
    XMessage(XMessage),
}

impl DeepView for AppCommand {
    type V = AppCommandV;

    open spec fn deep_view(&self) -> AppCommandV {
        match self {
            AppCommand::Esc => AppCommandV::Esc,
            AppCommand::MainViewCommand(c) => AppCommandV::MainViewCommand(c.deep_view()),
            AppCommand::SettingsViewCommand(c) => AppCommandV::SettingsViewCommand(c.deep_view()),
            AppCommand::ToolbarCommand(c) => AppCommandV::ToolbarCommand(c.deep_view()),
            AppCommand::XMessage(m) => AppCommandV::XMessage(m.deep_view()),
        }
    }
}

/// Mathematical value of an [`AppEffect`].
pub ghost enum AppEffectV {
    Nothing,
    Exit,
    Done(AppCommandV),
    Batch(Seq<AppCommandV>),
}

/// Effect a dispatch step returns: a description of deferred work. The host
/// scheduler performs it and delivers every produced message back through
/// `update`; `Exit` requests process termination.
#[derive(Clone, Debug)]
pub enum AppEffect {
    Nothing,
    Exit,
    Done(AppCommand),
    Batch(Vec<AppCommand>),
}

impl DeepView for AppEffect {
    type V = AppEffectV;

    open spec fn deep_view(&self) -> AppEffectV {
        match self {
            AppEffect::Nothing => AppEffectV::Nothing,
            AppEffect::Exit => AppEffectV::Exit,
            AppEffect::Done(c) => AppEffectV::Done(c.deep_view()),
            AppEffect::Batch(v) => AppEffectV::Batch(v.deep_view()),
        }
    }
}

/// Mathematical value of an [`AppState`]. The toolbar owns no state.
pub ghost struct AppStateV {
    pub expand_settings: bool,
    pub theme: Theme,
    pub main: MainViewV,
    pub settings: SettingsViewV,
}

/// The state the application boots with for a given directory.
pub open spec fn initial_app_state(directory: Seq<FontEntryV>) -> AppStateV {
    AppStateV {
        expand_settings: false,
        theme: Theme::Light,
        main: initial_main_view(),
        settings: initial_settings_view(directory),
    }
}

/// A main-view effect re-enters the root: a send-broadcast result becomes a
/// broadcast; anything else stays tagged to its owner.
pub open spec fn route_main_task(t: MainViewCommandV) -> AppCommandV {
    match t {
        MainViewCommandV::SendXMessage(m) => AppCommandV::XMessage(m),
        MainViewCommandV::XMessage(m) => AppCommandV::MainViewCommand(
            MainViewCommandV::XMessage(m),
        ),
    }
}

/// A settings-panel effect re-enters the root: a send-broadcast result
/// becomes a broadcast; anything else stays tagged to its owner.
pub open spec fn route_settings_task(t: SettingsViewCommandV) -> AppCommandV {
    match t {
        SettingsViewCommandV::SendXMessage(m) => AppCommandV::XMessage(m),
        _ => AppCommandV::SettingsViewCommand(t),
    }
}

/// A toolbar effect re-enters the root: a send-broadcast result becomes a
/// broadcast; anything else stays tagged to its owner.
pub open spec fn route_toolbar_task(t: ToolbarCommandV) -> AppCommandV {
    match t {
        ToolbarCommandV::SendXMessage(m) => AppCommandV::XMessage(m),
        ToolbarCommandV::XMessage(m) => AppCommandV::ToolbarCommand(ToolbarCommandV::XMessage(m)),
    }
}

/// The messages a routed optional component task contributes to a batch.
pub open spec fn task_messages(t: Option<AppCommandV>) -> Seq<AppCommandV> {
    match t {
        Some(c) => seq![c],
        None => Seq::empty(),
    }
}

/// The routed form of an optional main-view task; absent tasks stay absent.
pub open spec fn routed_main_option(t: Option<MainViewCommandV>) -> Option<AppCommandV> {
    match t {
        Some(c) => Some(route_main_task(c)),
        None => None,
    }
}

/// The routed form of an optional settings-panel task.
pub open spec fn routed_settings_option(t: Option<SettingsViewCommandV>) -> Option<AppCommandV> {
    match t {
        Some(c) => Some(route_settings_task(c)),
        None => None,
    }
}

/// The routed form of an optional toolbar task.
pub open spec fn routed_toolbar_option(t: Option<ToolbarCommandV>) -> Option<AppCommandV> {
    match t {
        Some(c) => Some(route_toolbar_task(c)),
        None => None,
    }
}

/// Outcome of one root dispatch step.
pub ghost struct AppStep {
    pub post: AppStateV,
    pub effect: AppEffectV,
}

/// Transition of the root router.
///
/// Escape closes the overlay if it is open, consuming the event, and requests
/// termination otherwise. A component-tagged message goes to its owner alone,
/// whose effect is routed back. `SettingsOpen` / `SettingsClose` broadcasts
/// are consumed at the root, setting overlay visibility. Every other
/// broadcast is fanned out to all three components, their effects combined in
/// the order main, settings, toolbar.
pub open spec fn spec_app_update(pre: AppStateV, message: AppCommandV) -> AppStep {
    match message {
        AppCommandV::Esc => {
            if pre.expand_settings {
                AppStep {
                    post: AppStateV { expand_settings: false, ..pre },
                    effect: AppEffectV::Nothing,
                }
            } else {
                AppStep { post: pre, effect: AppEffectV::Exit }
            }
        },
        AppCommandV::MainViewCommand(c) => {
            let step = spec_main_update(pre.main, c);
            AppStep {
                post: AppStateV { main: step.post, ..pre },
                effect: match routed_main_option(step.task) {
                    Some(cmd) => AppEffectV::Done(cmd),
                    None => AppEffectV::Nothing,
                },
            }
        },
        AppCommandV::SettingsViewCommand(c) => {
            let step = spec_settings_update(pre.settings, c);
            AppStep {
                post: AppStateV { settings: step.post, ..pre },
                effect: match routed_settings_option(step.task) {
                    Some(cmd) => AppEffectV::Done(cmd),
                    None => AppEffectV::Nothing,
                },
            }
        },
        AppCommandV::ToolbarCommand(c) => {
            let task = spec_toolbar_update(c);
            AppStep {
                post: pre,
                effect: match routed_toolbar_option(task) {
                    Some(cmd) => AppEffectV::Done(cmd),
                    None => AppEffectV::Nothing,
                },
            }
        },
        AppCommandV::XMessage(m) => match m {
            XMessageV::SettingsClose => AppStep {
                post: AppStateV { expand_settings: false, ..pre },
                effect: AppEffectV::Nothing,
            },
            XMessageV::SettingsOpen => AppStep {
                post: AppStateV { expand_settings: true, ..pre },
                effect: AppEffectV::Nothing,
            },
            _ => {
                let main_step = spec_main_update(pre.main, MainViewCommandV::XMessage(m));
                let settings_step = spec_settings_update(
                    pre.settings,
                    SettingsViewCommandV::XMessage(m),
                );
                let toolbar_task = spec_toolbar_update(ToolbarCommandV::XMessage(m));
                AppStep {
                    post: AppStateV {
                        main: main_step.post,
                        settings: settings_step.post,
                        ..pre
                    },
                    effect: AppEffectV::Batch(
                        task_messages(routed_main_option(main_step.task)) + task_messages(
                            routed_settings_option(settings_step.task),
                        ) + task_messages(routed_toolbar_option(toolbar_task)),
                    ),
                }
            },
        },
    }
}

/// A root message the router can be asked to dispatch: a message bound for
/// the settings panel must be admissible for it.
pub open spec fn app_command_admissible(pre: AppStateV, message: AppCommandV) -> bool {
    match message {
        AppCommandV::SettingsViewCommand(c) => settings_command_admissible(pre.settings, c),
        _ => true,
    }
}

pub struct AppState {
    expand_settings: bool,
    theme: Theme,
    view_main: MainView,
    view_settings: SettingsView,
    view_toolbar: Toolbar,
}

impl AppState {
    /// Mathematical value of this state.
    pub closed spec fn model(&self) -> AppStateV {
        AppStateV {
            expand_settings: self.expand_settings,
            theme: self.theme,
            main: self.view_main.model(),
            settings: self.view_settings.model(),
        }
    }

    /// Internal well-formedness, carried by the settings panel's map.
    pub closed spec fn wf(&self) -> bool {
        self.view_settings.wf()
    }

    /// Window title.
    pub fn title(&self) -> (r: String)
        ensures
            r@ == "Fonts66 Viewer"@,
    {
        "Fonts66 Viewer".to_owned()
    }

    /// Dispatch one root message and return the effect it produces.
    pub fn update(&mut self, message: AppCommand) -> (e: AppEffect)
        requires
            old(self).wf(),
            app_command_admissible(old(self).model(), message.deep_view()),
        ensures
            final(self).wf(),
            final(self).model() == spec_app_update(old(self).model(), message.deep_view()).post,
            e.deep_view() == spec_app_update(old(self).model(), message.deep_view()).effect,
    {
        match message {
            AppCommand::Esc => {
                if self.expand_settings {
                    self.expand_settings = false;
                    AppEffect::Nothing
                } else {
                    AppEffect::Exit
                }
            },
            AppCommand::MainViewCommand(command) => {
                match self.view_main.update(command) {
                    Some(task) => AppEffect::Done(route_main(task)),
                    None => AppEffect::Nothing,
                }
            },
            AppCommand::SettingsViewCommand(command) => {
                match self.view_settings.update(command) {
                    Some(task) => AppEffect::Done(route_settings(task)),
                    None => AppEffect::Nothing,
                }
            },
            AppCommand::ToolbarCommand(command) => {
                match self.view_toolbar.update(command) {
                    Some(task) => AppEffect::Done(route_toolbar(task)),
                    None => AppEffect::Nothing,
                }
            },
            AppCommand::XMessage(message) => match message {
                XMessage::SettingsClose => {
                    self.expand_settings = false;
                    AppEffect::Nothing
                },
                XMessage::SettingsOpen => {
                    self.expand_settings = true;
                    AppEffect::Nothing
                },
                _ => {
                    let ghost m = message.deep_view();
                    let mut batch: Vec<AppCommand> = Vec::new();
                    let main_task = self.view_main.update(
                        MainViewCommand::XMessage(message.duplicate()),
                    );
                    if let Some(task) = main_task {
                        batch.push(route_main(task));
                    }
                    let settings_task = self.view_settings.update(
                        SettingsViewCommand::XMessage(message.duplicate()),
                    );
                    if let Some(task) = settings_task {
                        batch.push(route_settings(task));
                    }
                    let toolbar_task = self.view_toolbar.update(
                        ToolbarCommand::XMessage(message),
                    );
                    if let Some(task) = toolbar_task {
                        batch.push(route_toolbar(task));
                    }
                    proof {
                        let spec_batch = task_messages(
                            routed_main_option(spec_main_update(
                                old(self).model().main, MainViewCommandV::XMessage(m)).task),
                        ) + task_messages(
                            routed_settings_option(spec_settings_update(
                                old(self).model().settings,
                                SettingsViewCommandV::XMessage(m),
                            ).task),
                        ) + task_messages(
                            routed_toolbar_option(spec_toolbar_update(
                                ToolbarCommandV::XMessage(m),
                            )),
                        );
                        assert(batch.deep_view() =~= spec_batch);
                    }
                    AppEffect::Batch(batch)
                },
            },
        }
    }

    /// Color scheme.
    pub fn theme(&self) -> (r: Theme)
        ensures
            r == self.model().theme,
    {
        self.theme
    }

    /// Render: the main scene below, the toolbar above it, and — only while
    /// the overlay is open — the settings scene stacked on top, anchored to
    /// the trailing edge.
    pub fn view(&self) -> (r: AppScene)
        ensures
            r.main.deep_view() == crate::main_view::spec_main_scene(self.model().main),
            r.toolbar.settings_control.deep_view() == ToolbarCommandV::SendXMessage(
                XMessageV::SettingsOpen,
            ),
            (match r.settings {
                Some(scene) => self.model().expand_settings && scene.text_buffer@
                    == self.model().settings.custom_text && scene.font_size
                    == self.model().settings.font_size && scene.rows.deep_view()
                    == crate::settings_view::spec_settings_rows(self.model().settings.items),
                None => !self.model().expand_settings,
            }),
    {
        AppScene {
            main: self.view_main.view(),
            toolbar: self.view_toolbar.view(),
            settings: if self.expand_settings {
                Some(self.view_settings.view())
            } else {
                None
            },
        }
    }
}

/// Render model of the whole window: three layers stacked bottom to top; the
/// settings layer is present exactly while the overlay is open.
pub struct AppScene {
    pub main: Vec<FontSampleBlock>,
    pub toolbar: ToolbarScene,
    pub settings: Option<SettingsScene>,
}

/// Routes a main-view task back into the root, translating a send-broadcast
/// result to a broadcast.
pub fn route_main(task: MainViewCommand) -> (r: AppCommand)
    ensures
        r.deep_view() == route_main_task(task.deep_view()),
{
    match task {
        MainViewCommand::SendXMessage(m) => AppCommand::XMessage(m),
        MainViewCommand::XMessage(m) => AppCommand::MainViewCommand(MainViewCommand::XMessage(m)),
    }
}

/// Routes a settings-panel task back into the root, translating a
/// send-broadcast result to a broadcast.
pub fn route_settings(task: SettingsViewCommand) -> (r: AppCommand)
    ensures
        r.deep_view() == route_settings_task(task.deep_view()),
{
    match task {
        SettingsViewCommand::SendXMessage(m) => AppCommand::XMessage(m),
        other => AppCommand::SettingsViewCommand(other),
    }
}

/// Routes a toolbar task back into the root, translating a send-broadcast
/// result to a broadcast.
pub fn route_toolbar(task: ToolbarCommand) -> (r: AppCommand)
    ensures
        r.deep_view() == route_toolbar_task(task.deep_view()),
{
    match task {
        ToolbarCommand::SendXMessage(m) => AppCommand::XMessage(m),
        ToolbarCommand::XMessage(m) => AppCommand::ToolbarCommand(ToolbarCommand::XMessage(m)),
    }
}

/// Boot over a caller-supplied repository: the initial state plus the effect
/// that delivers the `Init` broadcast exactly once.
pub fn boot_with_repository(font_list_repo: Arc<FontListRepository>) -> (r: (AppState, AppEffect))
    requires
        font_list_repo.wf(),
    ensures
        r.0.wf(),
        r.0.model() == initial_app_state(font_list_repo@),
        r.1.deep_view() == AppEffectV::Done(AppCommandV::XMessage(XMessageV::Init)),
{
    let state = AppState {
        expand_settings: false,
        theme: Theme::Light,
        view_main: MainView::new(),
        view_settings: SettingsView::new(font_list_repo),
        view_toolbar: Toolbar::new(),
    };
    (state, AppEffect::Done(AppCommand::XMessage(XMessage::Init)))
}

/// Escape-key policy, a two-state machine over overlay visibility: while the
/// overlay is open, Escape closes it, is consumed, and neither terminates nor
/// reaches any component; while it is closed, Escape requests termination and
/// changes nothing.
pub proof fn lemma_escape_policy(s: AppStateV)
    ensures
        !s.expand_settings ==> spec_app_update(s, AppCommandV::Esc) == (AppStep {
            post: s,
            effect: AppEffectV::Exit,
        }),
        s.expand_settings ==> spec_app_update(s, AppCommandV::Esc) == (AppStep {
            post: AppStateV { expand_settings: false, ..s },
            effect: AppEffectV::Nothing,
        }),
{
}

/// Overlay visibility changes only through the Escape policy and the two
/// broadcasts consumed at the root: `SettingsOpen` sets it, `SettingsClose`
/// clears it, and no other message moves it.
pub proof fn lemma_overlay_transitions(s: AppStateV, message: AppCommandV)
    ensures
        spec_app_update(s, AppCommandV::XMessage(XMessageV::SettingsOpen)).post.expand_settings,
        !spec_app_update(s, AppCommandV::XMessage(XMessageV::SettingsClose)).post.expand_settings,
        spec_app_update(s, message).post.expand_settings != s.expand_settings ==> (message
            == AppCommandV::Esc || message == AppCommandV::XMessage(XMessageV::SettingsOpen)
            || message == AppCommandV::XMessage(XMessageV::SettingsClose)),
{
}

/// The enabled subset of a directory's initial all-enabled map is the whole
/// directory.
pub proof fn lemma_enabled_entries_all_enabled(directory: Seq<FontEntryV>)
    ensures
        enabled_entries(initial_settings_view(directory).items) == directory,
    decreases directory.len(),
{
    let items = initial_settings_view(directory).items;
    if directory.len() == 0 {
        reveal(Seq::filter);
        assert(enabled_entries(items) =~= directory);
    } else {
        let prefix = directory.drop_last();
        lemma_enabled_entries_all_enabled(prefix);
        let prefix_items = initial_settings_view(prefix).items;
        assert(prefix_items.push(items.last()) =~= items);
        crate::settings_view::lemma_enabled_entries_push(prefix_items, items.last());
        assert(enabled_entries(items) =~= directory);
    }
}

/// Delivering `Init` to a freshly booted state makes the settings panel seed
/// the main view: the router fans `Init` out, the panel answers with the full
/// all-enabled directory as a `FontEntries` broadcast, and fanning that
/// broadcast out leaves the main view holding the full directory list.
pub proof fn lemma_init_seeds_main(directory: Seq<FontEntryV>)
    ensures
        ({
            let s0 = initial_app_state(directory);
            let step1 = spec_app_update(s0, AppCommandV::XMessage(XMessageV::Init));
            &&& step1.effect == AppEffectV::Batch(
                seq![AppCommandV::XMessage(XMessageV::FontEntries(directory))],
            )
            &&& ({
                let step2 = spec_app_update(
                    step1.post,
                    AppCommandV::XMessage(XMessageV::FontEntries(directory)),
                );
                step2.post.main.font_entries == directory && step2.effect == AppEffectV::Batch(
                    Seq::empty(),
                )
            })
        }),
{
    let s0 = initial_app_state(directory);
    lemma_enabled_entries_all_enabled(directory);
    let step1 = spec_app_update(s0, AppCommandV::XMessage(XMessageV::Init));
    assert(step1.effect == AppEffectV::Batch(
        task_messages(routed_main_option(None)) + task_messages(
            routed_settings_option(
                Some(
                    SettingsViewCommandV::SendXMessage(XMessageV::FontEntries(directory)),
                ),
            ),
        ) + task_messages(routed_toolbar_option(None)),
    ));
    assert(task_messages(routed_main_option(None)) + task_messages(
        routed_settings_option(
            Some(SettingsViewCommandV::SendXMessage(XMessageV::FontEntries(directory))),
        ),
    ) + task_messages(routed_toolbar_option(None)) =~= seq![
        AppCommandV::XMessage(XMessageV::FontEntries(directory)),
    ]);
    let step2 = spec_app_update(
        step1.post,
        AppCommandV::XMessage(XMessageV::FontEntries(directory)),
    );
    assert(task_messages(routed_main_option(None)) + task_messages(routed_settings_option(None))
        + task_messages(routed_toolbar_option(None)) =~= Seq::<AppCommandV>::empty());
}

/// An edit of the custom-text buffer flows to the render: the panel emits the
/// new text as a broadcast, the router fans it out, and every block of the
/// main view's next scene shows that text as its sample — or the default
/// sentence once the buffer is cleared.
pub proof fn lemma_custom_text_flows_to_render(s: AppStateV, text: Seq<char>)
    ensures
        ({
            let edit = AppCommandV::SettingsViewCommand(
                SettingsViewCommandV::TextEditorAction(
                    crate::settings_view::EditorActionV::Edit(text),
                ),
            );
            let step1 = spec_app_update(s, edit);
            &&& step1.effect == AppEffectV::Done(
                AppCommandV::XMessage(XMessageV::CustomText(text)),
            )
            &&& ({
                let step2 = spec_app_update(
                    step1.post,
                    AppCommandV::XMessage(XMessageV::CustomText(text)),
                );
                let scene = crate::main_view::spec_main_scene(step2.post.main);
                &&& step2.post.main.custom_text == text
                &&& forall|i: int|
                    0 <= i < scene.len() ==> (#[trigger] scene[i]).sample_text
                        == crate::main_view::spec_sample_text(text)
            })
        }),
{
}

/// An edited font size flows verbatim to the render: the panel emits it, the
/// router fans it out, and every block of the main view's next scene uses
/// exactly that size — no clamping anywhere past the stepper.
pub proof fn lemma_font_size_flows_to_render(s: AppStateV, size: u32)
    ensures
        ({
            let edit = AppCommandV::SettingsViewCommand(
                SettingsViewCommandV::FontSizeUpdated(size),
            );
            let step1 = spec_app_update(s, edit);
            &&& step1.effect == AppEffectV::Done(
                AppCommandV::XMessage(XMessageV::FontSize(size)),
            )
            &&& ({
                let step2 = spec_app_update(
                    step1.post,
                    AppCommandV::XMessage(XMessageV::FontSize(size)),
                );
                let scene = crate::main_view::spec_main_scene(step2.post.main);
                &&& step2.post.main.font_size == size
                &&& forall|i: int|
                    0 <= i < scene.len() ==> (#[trigger] scene[i]).font_size == size
            })
        }),
{
}

/// Boot over the built-in directory.
pub fn boot() -> (r: (AppState, AppEffect))
    ensures
        r.0.wf(),
        r.0.model() == initial_app_state(builtin_directory()),
        r.1.deep_view() == AppEffectV::Done(AppCommandV::XMessage(XMessageV::Init)),
{
    let font_list_repo = Arc::new(FontListRepository::default());
    proof {
        assert(entries_unique(font_list_repo@));
    }
    boot_with_repository(font_list_repo)
}

} // verus!
