//! The Dev Container generation workflow.
//!
//! The workflow alternates decisions with work that only the caller can do
//! (asking whether to overwrite, listing templates, asking the user to pick
//! one, writing files, reporting progress). `GenerateDevContainerUseCase`
//! holds the decisions: each call of `step` takes the outcome of the previous
//! action as an `Event` and returns the next `Action`. The caller performs
//! actions until it receives `Finish` or `Fail`.
use vstd::prelude::*;
use vstd::string::*;
use crate::domain::models::config::{
    ComposeConfig, ComposeConfigBuilder, ComposeConfigBuilderView, ComposeConfigView,
};
use crate::domain::models::file::{GeneratedFile, GeneratedFileView};
use crate::domain::models::template::{DevContainerTemplate, DevContainerTemplateView};
use crate::domain::services::generator::{DevContainerGenerator, all_files_spec};

verus! {

/// A request to generate the Dev Container files.
#[derive(Debug, Clone)]
pub struct GenerateDevContainerRequest {
    pub dir: String,
    pub name: Option<String>,
    pub image_name: Option<String>,
    pub container_name: Option<String>,
    pub base_image: Option<String>,
    pub force: bool,
}

/// The answer to a generation request.
#[derive(Debug, Clone)]
pub struct GenerateDevContainerResponse {
    pub success: bool,
    pub generated_files: Vec<String>,
    pub message: String,
}

/// The abstract value of a `GenerateDevContainerResponse`.
pub struct ResponseView {
    pub success: bool,
    pub generated_files: Seq<Seq<char>>,
    pub message: Seq<char>,
}

impl View for GenerateDevContainerResponse {
    type V = ResponseView;

    open spec fn view(&self) -> ResponseView {
        ResponseView {
            success: self.success,
            generated_files: self.generated_files.deep_view(),
            message: self.message@,
        }
    }
}

/// The message of a run the user cancelled.
pub open spec fn cancelled_message() -> Seq<char> {
    "ユーザーが処理をキャンセルしました"@
}

/// The message of a completed run.
pub open spec fn completed_message() -> Seq<char> {
    "Dev Container設定ファイルの生成が完了しました"@
}

/// The progress message shown before the template list is fetched.
pub open spec fn fetching_templates_message() -> Seq<char> {
    "テンプレート一覧を取得中..."@
}

/// The message that announces the chosen base image.
pub open spec fn selected_image_message(image: Seq<char>) -> Seq<char> {
    "選択されたベースイメージ: "@ + image
}

/// The response of a cancelled run: no files.
pub open spec fn cancelled_response() -> ResponseView {
    ResponseView { success: false, generated_files: seq![], message: cancelled_message() }
}

/// The response of a completed run that wrote `names`.
pub open spec fn completed_response(names: Seq<Seq<char>>) -> ResponseView {
    ResponseView { success: true, generated_files: names, message: completed_message() }
}

/// Why a run stopped without a response.
#[derive(Debug, Clone, Copy, PartialEq, Eq)]
pub enum UseCaseError {
    /// The template catalogue was empty, so no base image could be chosen.
    NoTemplatesFound,
    /// The event did not answer the action that was asked for.
    UnexpectedEvent,
}

impl UseCaseError {
    /// The text of the error.
    pub fn message(&self) -> (r: String)
        ensures
            r@ == match self {
                UseCaseError::NoTemplatesFound => "利用可能なテンプレートが見つかりませんでした"@,
                UseCaseError::UnexpectedEvent => "予期しないイベントです"@,
            },
    {
        match self {
            UseCaseError::NoTemplatesFound => String::from_str("利用可能なテンプレートが見つかりませんでした"),
            UseCaseError::UnexpectedEvent => String::from_str("予期しないイベントです"),
        }
    }
}

/// The outcome of the previous action, handed back by the caller.
pub enum Event {
    /// The previous action was carried out and has no result (also starts a run).
    Continue,
    /// The answer to `ConfirmOverwrite`: whether to go on.
    OverwriteAnswered(bool),
    /// The answer to `FetchTemplates`.
    TemplatesFetched(Vec<DevContainerTemplate>),
    /// The answer to `SelectBaseImage`: the chosen image.
    BaseImageSelected(String),
    /// The answer to `WriteFiles`: the names of the files written.
    FilesWritten(Vec<String>),
}

/// The abstract value of an `Event`.
pub enum EventView {
    Continue,
    OverwriteAnswered(bool),
    TemplatesFetched(Seq<DevContainerTemplateView>),
    BaseImageSelected(Seq<char>),
    FilesWritten(Seq<Seq<char>>),
}

impl View for Event {
    type V = EventView;

    open spec fn view(&self) -> EventView {
        match self {
            Event::Continue => EventView::Continue,
            Event::OverwriteAnswered(b) => EventView::OverwriteAnswered(*b),
            Event::TemplatesFetched(ts) => EventView::TemplatesFetched(ts.deep_view()),
            Event::BaseImageSelected(s) => EventView::BaseImageSelected(s@),
            Event::FilesWritten(ns) => EventView::FilesWritten(ns.deep_view()),
        }
    }
}

/// What the caller has to do next.
pub enum Action {
    /// Check for existing files of this configuration and ask whether to overwrite them.
    ConfirmOverwrite(ComposeConfig),
    /// Show a progress message.
    ShowProgress(String),
    /// Fetch the template catalogue.
    FetchTemplates,
    /// Let the user choose a base image among these templates.
    SelectBaseImage(Vec<DevContainerTemplate>),
    /// Show a success message.
    ShowSuccess(String),
    /// Write these files for this configuration.
    WriteFiles(ComposeConfig, Vec<GeneratedFile>),
    /// Report that this file was generated.
    ReportFileGenerated(String),
    /// Report that the whole run completed.
    ReportCompletion,
    /// The run is over with this response.
    Finish(GenerateDevContainerResponse),
    /// The run stopped with this error.
    Fail(UseCaseError),
}

/// The abstract value of an `Action`.
pub enum ActionView {
    ConfirmOverwrite(ComposeConfigView),
    ShowProgress(Seq<char>),
    FetchTemplates,
    SelectBaseImage(Seq<DevContainerTemplateView>),
    ShowSuccess(Seq<char>),
    WriteFiles(ComposeConfigView, Seq<GeneratedFileView>),
    ReportFileGenerated(Seq<char>),
    ReportCompletion,
    Finish(ResponseView),
    Fail(UseCaseError),
}

impl View for Action {
    type V = ActionView;

    open spec fn view(&self) -> ActionView {
        match self {
            Action::ConfirmOverwrite(c) => ActionView::ConfirmOverwrite(c@),
            Action::ShowProgress(m) => ActionView::ShowProgress(m@),
            Action::FetchTemplates => ActionView::FetchTemplates,
            Action::SelectBaseImage(ts) => ActionView::SelectBaseImage(ts.deep_view()),
            Action::ShowSuccess(m) => ActionView::ShowSuccess(m@),
            Action::WriteFiles(c, fs) => ActionView::WriteFiles(c@, fs.deep_view()),
            Action::ReportFileGenerated(n) => ActionView::ReportFileGenerated(n@),
            Action::ReportCompletion => ActionView::ReportCompletion,
            Action::Finish(r) => ActionView::Finish(r@),
            Action::Fail(e) => ActionView::Fail(*e),
        }
    }
}

/// Where a run stands.
pub enum Phase {
    /// Not started.
    Start,
    /// Waiting for the answer to `ConfirmOverwrite`.
    AwaitOverwrite,
    /// Waiting until the progress message was shown.
    AwaitProgressShown,
    /// Waiting for the template catalogue.
    AwaitTemplates,
    /// Waiting for the user's choice of base image.
    AwaitSelection,
    /// Waiting until the chosen image was announced.
    AwaitSuccessShown(String),
    /// Waiting for the files to be written.
    AwaitWrite,
    /// Reporting the written files; the index is the next one to report.
    Reporting(Vec<String>, usize),
    /// Waiting until completion was reported.
    AwaitCompletion(Vec<String>),
    /// The run is over.
    Done,
}

/// The abstract value of a `Phase`.
pub enum PhaseView {
    Start,
    AwaitOverwrite,
    AwaitProgressShown,
    AwaitTemplates,
    AwaitSelection,
    AwaitSuccessShown(Seq<char>),
    AwaitWrite,
    Reporting(Seq<Seq<char>>, nat),
    AwaitCompletion(Seq<Seq<char>>),
    Done,
}

impl View for Phase {
    type V = PhaseView;

    open spec fn view(&self) -> PhaseView {
        match self {
            Phase::Start => PhaseView::Start,
            Phase::AwaitOverwrite => PhaseView::AwaitOverwrite,
            Phase::AwaitProgressShown => PhaseView::AwaitProgressShown,
            Phase::AwaitTemplates => PhaseView::AwaitTemplates,
            Phase::AwaitSelection => PhaseView::AwaitSelection,
            Phase::AwaitSuccessShown(s) => PhaseView::AwaitSuccessShown(s@),
            Phase::AwaitWrite => PhaseView::AwaitWrite,
            Phase::Reporting(ns, i) => PhaseView::Reporting(ns.deep_view(), *i as nat),
            Phase::AwaitCompletion(ns) => PhaseView::AwaitCompletion(ns.deep_view()),
            Phase::Done => PhaseView::Done,
        }
    }
}

/// The generation workflow: the settings of the request and where the run stands.
pub struct GenerateDevContainerUseCase {
    pub builder: ComposeConfigBuilder,
    pub phase: Phase,
}

/// The abstract value of a `GenerateDevContainerUseCase`.
pub struct UseCaseView {
    pub builder: ComposeConfigBuilderView,
    pub phase: PhaseView,
}

impl View for GenerateDevContainerUseCase {
    type V = UseCaseView;

    open spec fn view(&self) -> UseCaseView {
        UseCaseView { builder: self.builder@, phase: self.phase@ }
    }
}

/// The settings that a request gives the builder.
pub open spec fn request_builder(
    dir: Seq<char>,
    name: Option<Seq<char>>,
    image_name: Option<Seq<char>>,
    container_name: Option<Seq<char>>,
    base_image: Option<Seq<char>>,
    force: bool,
) -> ComposeConfigBuilderView {
    ComposeConfigBuilderView { dir, name, image_name, container_name, base_image, force }
}

/// Writing the files of the configuration built with `image`.
pub open spec fn write_action(b: ComposeConfigBuilderView, image: Seq<char>) -> ActionView {
    ActionView::WriteFiles(b.build(image), all_files_spec(b.build(image)))
}

/// One step of the workflow: from state `s` and the outcome `e` of the
/// previous action, the next state and the next action.
pub open spec fn spec_step(s: UseCaseView, e: EventView) -> (UseCaseView, ActionView) {
    let b = s.builder;
    let next = |p: PhaseView, a: ActionView| (UseCaseView { builder: b, phase: p }, a);
    match (s.phase, e) {
        (PhaseView::Start, EventView::Continue) => next(
            PhaseView::AwaitOverwrite,
            ActionView::ConfirmOverwrite(b.build("temp"@)),
        ),
        (PhaseView::AwaitOverwrite, EventView::OverwriteAnswered(go_on)) => if !go_on {
            next(PhaseView::Done, ActionView::Finish(cancelled_response()))
        } else {
            match b.base_image {
                Some(image) => next(PhaseView::AwaitWrite, write_action(b, image)),
                None => next(
                    PhaseView::AwaitProgressShown,
                    ActionView::ShowProgress(fetching_templates_message()),
                ),
            }
        },
        (PhaseView::AwaitProgressShown, EventView::Continue) => next(
            PhaseView::AwaitTemplates,
            ActionView::FetchTemplates,
        ),
        (PhaseView::AwaitTemplates, EventView::TemplatesFetched(ts)) => if ts.len() == 0 {
            next(PhaseView::Done, ActionView::Fail(UseCaseError::NoTemplatesFound))
        } else {
            next(PhaseView::AwaitSelection, ActionView::SelectBaseImage(ts))
        },
        (PhaseView::AwaitSelection, EventView::BaseImageSelected(image)) => next(
            PhaseView::AwaitSuccessShown(image),
            ActionView::ShowSuccess(selected_image_message(image)),
        ),
        (PhaseView::AwaitSuccessShown(image), EventView::Continue) => next(
            PhaseView::AwaitWrite,
            write_action(b, image),
        ),
        (PhaseView::AwaitWrite, EventView::FilesWritten(names)) => if names.len() == 0 {
            next(PhaseView::AwaitCompletion(names), ActionView::ReportCompletion)
        } else {
            next(PhaseView::Reporting(names, 1), ActionView::ReportFileGenerated(names[0]))
        },
        (PhaseView::Reporting(names, i), EventView::Continue) => if i < names.len() {
            next(PhaseView::Reporting(names, i + 1), ActionView::ReportFileGenerated(names[i as int]))
        } else {
            next(PhaseView::AwaitCompletion(names), ActionView::ReportCompletion)
        },
        (PhaseView::AwaitCompletion(names), EventView::Continue) => next(
            PhaseView::Done,
            ActionView::Finish(completed_response(names)),
        ),
        _ => next(PhaseView::Done, ActionView::Fail(UseCaseError::UnexpectedEvent)),
    }
}


/// The state and the actions after feeding `events` to the workflow in state `s`.
pub open spec fn run(s: UseCaseView, events: Seq<EventView>) -> (UseCaseView, Seq<ActionView>)
    decreases events.len(),
{
    if events.len() == 0 {
        (s, seq![])
    } else {
        let (s1, a) = spec_step(s, events[0]);
        let (s2, rest) = run(s1, events.drop_first());
        (s2, seq![a] + rest)
    }
}

/// `n` times `Continue`.
pub open spec fn continues(n: nat) -> Seq<EventView> {
    Seq::new(n, |i: int| EventView::Continue)
}

/// One `ReportFileGenerated` per name, in order.
pub open spec fn report_actions(names: Seq<Seq<char>>) -> Seq<ActionView> {
    names.map_values(|n: Seq<char>| ActionView::ReportFileGenerated(n))
}

/// The states a run can be in: the phases of interactive selection occur only
/// when the request named no base image, and a report index stays in range.
pub open spec fn well_formed(s: UseCaseView) -> bool {
    match s.phase {
        PhaseView::AwaitProgressShown => s.builder.base_image is None,
        PhaseView::AwaitTemplates => s.builder.base_image is None,
        PhaseView::AwaitSelection => s.builder.base_image is None,
        PhaseView::AwaitSuccessShown(_) => s.builder.base_image is None,
        PhaseView::Reporting(names, i) => 1 <= i <= names.len(),
        _ => true,
    }
}

proof fn lemma_run_cons(s: UseCaseView, e: EventView, es: Seq<EventView>)
    ensures
        run(s, seq![e] + es) == ({
            let (s1, a) = spec_step(s, e);
            (run(s1, es).0, seq![a] + run(s1, es).1)
        }),
{
    let events = seq![e] + es;
    assert(events[0] == e);
    assert(events.drop_first() =~= es);
}

/// Every run yields one action per event.
pub proof fn law_one_action_per_event(s: UseCaseView, events: Seq<EventView>)
    ensures
        run(s, events).1.len() == events.len(),
    decreases events.len(),
{
    if events.len() > 0 {
        law_one_action_per_event(spec_step(s, events[0]).0, events.drop_first());
    }
}

/// A step never changes the settings of the request, and keeps a run's
/// state well formed.
pub proof fn law_step_keeps_settings(s: UseCaseView, e: EventView)
    ensures
        spec_step(s, e).0.builder == s.builder,
        well_formed(s) ==> well_formed(spec_step(s, e).0),
{
}

/// A fresh run is well formed.
pub proof fn law_fresh_run_well_formed(b: ComposeConfigBuilderView)
    ensures
        well_formed(UseCaseView { builder: b, phase: PhaseView::Start }),
{
}

/// Whatever the events, the settings of the request never change and the
/// state stays well formed.
pub proof fn law_run_keeps_settings(s: UseCaseView, events: Seq<EventView>)
    requires
        well_formed(s),
    ensures
        run(s, events).0.builder == s.builder,
        well_formed(run(s, events).0),
    decreases events.len(),
{
    if events.len() > 0 {
        law_step_keeps_settings(s, events[0]);
        law_run_keeps_settings(spec_step(s, events[0]).0, events.drop_first());
    }
}

/// Whether an action writes files.
pub open spec fn is_write(a: ActionView) -> bool {
    a is WriteFiles
}

/// What a write of a well-formed run writes: exactly the generated files of
/// the configuration built from the request's settings, and with the
/// request's base image when the request named one.
pub open spec fn consistent_write(b: ComposeConfigBuilderView, a: ActionView) -> bool {
    match a {
        ActionView::WriteFiles(c, files) => {
            &&& c == b.build(c.base_image)
            &&& files == all_files_spec(c)
            &&& (b.base_image matches Some(image) ==> c.base_image == image)
        },
        _ => true,
    }
}

/// In a well-formed run, every write is consistent with the request (see
/// `consistent_write`), whatever the events.
pub proof fn law_writes_match_request(s: UseCaseView, events: Seq<EventView>)
    requires
        well_formed(s),
    ensures
        forall|k: int|
            0 <= k < run(s, events).1.len() ==> consistent_write(s.builder, #[trigger] run(s, events).1[k]),
    decreases events.len(),
{
    if events.len() > 0 {
        let (s1, a) = spec_step(s, events[0]);
        law_step_keeps_settings(s, events[0]);
        law_writes_match_request(s1, events.drop_first());
        let acts = run(s, events).1;
        assert(acts == seq![a] + run(s1, events.drop_first()).1);
        assert(consistent_write(s.builder, a));
        assert forall|k: int| 0 <= k < acts.len() implies consistent_write(
            s.builder,
            #[trigger] acts[k],
        ) by {
            if k > 0 {
                assert(acts[k] == run(s1, events.drop_first()).1[k - 1]);
            }
        }
    }
}

/// Once a run is over, every further event is answered with
/// `Fail(UnexpectedEvent)`: nothing is written any more.
pub proof fn law_done_is_final(s: UseCaseView, events: Seq<EventView>)
    requires
        s.phase is Done,
    ensures
        run(s, events).0.phase is Done,
        forall|k: int|
            0 <= k < run(s, events).1.len() ==> #[trigger] run(s, events).1[k] == ActionView::Fail(
                UseCaseError::UnexpectedEvent,
            ),
    decreases events.len(),
{
    if events.len() > 0 {
        let (s1, a) = spec_step(s, events[0]);
        law_done_is_final(s1, events.drop_first());
        let acts = run(s, events).1;
        assert forall|k: int| 0 <= k < acts.len() implies #[trigger] acts[k] == ActionView::Fail(
            UseCaseError::UnexpectedEvent,
        ) by {
            if k > 0 {
                assert(acts[k] == run(s1, events.drop_first()).1[k - 1]);
            }
        }
    }
}

/// When the user declines to overwrite, the run finishes with the cancelled
/// response and never writes a file, whatever comes after.
pub proof fn law_cancel_writes_nothing(s: UseCaseView, events: Seq<EventView>)
    requires
        s.phase is AwaitOverwrite,
    ensures
        run(s, seq![EventView::OverwriteAnswered(false)] + events).1[0] == ActionView::Finish(
            cancelled_response(),
        ),
        forall|k: int|
            0 <= k < run(s, seq![EventView::OverwriteAnswered(false)] + events).1.len()
                ==> !is_write(#[trigger] run(s, seq![EventView::OverwriteAnswered(false)] + events).1[k]),
{
    let e = EventView::OverwriteAnswered(false);
    lemma_run_cons(s, e, events);
    let (s1, a) = spec_step(s, e);
    law_done_is_final(s1, events);
    let acts = run(s, seq![e] + events).1;
    assert forall|k: int| 0 <= k < acts.len() implies !is_write(#[trigger] acts[k]) by {
        if k > 0 {
            assert(acts[k] == run(s1, events).1[k - 1]);
        }
    }
}

/// Whether some event among the first `k + 1` agrees to overwrite.
pub open spec fn confirmed_by(events: Seq<EventView>, k: int) -> bool {
    exists|j: int| 0 <= j <= k && #[trigger] events[j] == EventView::OverwriteAnswered(true)
}

/// A run that has not yet been answered `OverwriteAnswered(true)` writes only
/// after such an answer.
proof fn lemma_write_after_confirmation(s: UseCaseView, events: Seq<EventView>)
    requires
        s.phase is Start || s.phase is AwaitOverwrite || s.phase is Done,
    ensures
        forall|k: int|
            0 <= k < run(s, events).1.len() && is_write(#[trigger] run(s, events).1[k])
                ==> confirmed_by(events, k),
    decreases events.len(),
{
    if events.len() > 0 {
        let e = events[0];
        let (s1, a) = spec_step(s, e);
        let acts = run(s, events).1;
        if e == EventView::OverwriteAnswered(true) {
            assert forall|k: int| 0 <= k < acts.len() && is_write(#[trigger] acts[k]) implies confirmed_by(
                events,
                k,
            ) by {
                assert(events[0] == EventView::OverwriteAnswered(true));
            }
        } else {
            assert(s1.phase is Start || s1.phase is AwaitOverwrite || s1.phase is Done);
            lemma_write_after_confirmation(s1, events.drop_first());
            law_one_action_per_event(s1, events.drop_first());
            assert forall|k: int| 0 <= k < acts.len() && is_write(#[trigger] acts[k]) implies confirmed_by(
                events,
                k,
            ) by {
                assert(k > 0);
                assert(acts[k] == run(s1, events.drop_first()).1[k - 1]);
                assert(confirmed_by(events.drop_first(), k - 1));
                let j = choose|j: int|
                    0 <= j <= k - 1 && #[trigger] events.drop_first()[j] == EventView::OverwriteAnswered(
                        true,
                    );
                assert(events.drop_first()[j] == events[j + 1]);
                assert(events[j + 1] == EventView::OverwriteAnswered(true));
            }
        }
    }
}

/// A fresh run first asks whether to overwrite the files of the request's
/// configuration, and writes files only after it was told to go on.
pub proof fn law_write_needs_confirmation(b: ComposeConfigBuilderView, events: Seq<EventView>)
    ensures
        events.len() > 0 && events[0] == EventView::Continue ==> run(
            UseCaseView { builder: b, phase: PhaseView::Start },
            events,
        ).1[0] == ActionView::ConfirmOverwrite(b.build("temp"@)),
        forall|k: int|
            0 <= k < run(UseCaseView { builder: b, phase: PhaseView::Start }, events).1.len() && is_write(
                #[trigger] run(UseCaseView { builder: b, phase: PhaseView::Start }, events).1[k],
            ) ==> confirmed_by(events, k),
{
    lemma_write_after_confirmation(UseCaseView { builder: b, phase: PhaseView::Start }, events);
}

proof fn lemma_reporting(b: ComposeConfigBuilderView, names: Seq<Seq<char>>, i: nat)
    requires
        1 <= i <= names.len(),
    ensures
        run(
            UseCaseView { builder: b, phase: PhaseView::Reporting(names, i) },
            continues((names.len() - i + 2) as nat),
        ) == (UseCaseView { builder: b, phase: PhaseView::Done }, report_actions(names.skip(i as int))
            + seq![ActionView::ReportCompletion, ActionView::Finish(completed_response(names))]),
    decreases names.len() - i,
{
    let s = UseCaseView { builder: b, phase: PhaseView::Reporting(names, i) };
    let n: nat = (names.len() - i + 2) as nat;
    assert(continues(n) =~= seq![EventView::Continue] + continues((n - 1) as nat));
    lemma_run_cons(s, EventView::Continue, continues((n - 1) as nat));
    if i < names.len() {
        lemma_reporting(b, names, i + 1);
        assert(report_actions(names.skip(i as int)) =~= seq![
            ActionView::ReportFileGenerated(names[i as int]),
        ] + report_actions(names.skip(i + 1 as int)));
    } else {
        let s1 = UseCaseView { builder: b, phase: PhaseView::AwaitCompletion(names) };
        assert(continues(1) =~= seq![EventView::Continue] + continues(0));
        lemma_run_cons(s1, EventView::Continue, continues(0));
        assert(report_actions(names.skip(i as int)) =~= seq![]);
    }
}

/// After the files are written, the run reports each written file in order,
/// then completion, then finishes with a successful response that lists
/// exactly the written files.
pub proof fn law_reports_written_files(b: ComposeConfigBuilderView, names: Seq<Seq<char>>)
    ensures
        run(
            UseCaseView { builder: b, phase: PhaseView::AwaitWrite },
            seq![EventView::FilesWritten(names)] + continues(names.len() + 1),
        ) == (UseCaseView { builder: b, phase: PhaseView::Done }, report_actions(names) + seq![
            ActionView::ReportCompletion,
            ActionView::Finish(completed_response(names)),
        ]),
{
    let s = UseCaseView { builder: b, phase: PhaseView::AwaitWrite };
    lemma_run_cons(s, EventView::FilesWritten(names), continues(names.len() + 1));
    if names.len() == 0 {
        let s1 = UseCaseView { builder: b, phase: PhaseView::AwaitCompletion(names) };
        assert(continues(1) =~= seq![EventView::Continue] + continues(0));
        lemma_run_cons(s1, EventView::Continue, continues(0));
        assert(report_actions(names) =~= seq![]);
    } else {
        lemma_reporting(b, names, 1);
        assert(report_actions(names) =~= seq![ActionView::ReportFileGenerated(names[0])]
            + report_actions(names.skip(1)));
    }
}

/// A request that names a base image, answered "go on" and then with the
/// names of the written files, asks to overwrite, writes the generated files
/// of its configuration with that image, reports every written file and
/// finishes successfully.
pub proof fn law_run_with_given_image(
    b: ComposeConfigBuilderView,
    image: Seq<char>,
    names: Seq<Seq<char>>,
)
    requires
        b.base_image == Some(image),
    ensures
        run(
            UseCaseView { builder: b, phase: PhaseView::Start },
            seq![EventView::Continue, EventView::OverwriteAnswered(true), EventView::FilesWritten(names)]
                + continues(names.len() + 1),
        ).1 == seq![ActionView::ConfirmOverwrite(b.build("temp"@)), write_action(b, image)]
            + report_actions(names) + seq![
            ActionView::ReportCompletion,
            ActionView::Finish(completed_response(names)),
        ],
{
    let s0 = UseCaseView { builder: b, phase: PhaseView::Start };
    let s1 = UseCaseView { builder: b, phase: PhaseView::AwaitOverwrite };
    let s2 = UseCaseView { builder: b, phase: PhaseView::AwaitWrite };
    let tail = seq![EventView::FilesWritten(names)] + continues(names.len() + 1);
    let events = seq![EventView::Continue, EventView::OverwriteAnswered(true), EventView::FilesWritten(names)]
        + continues(names.len() + 1);
    assert(events =~= seq![EventView::Continue] + (seq![EventView::OverwriteAnswered(true)] + tail));
    lemma_run_cons(s0, EventView::Continue, seq![EventView::OverwriteAnswered(true)] + tail);
    lemma_run_cons(s1, EventView::OverwriteAnswered(true), tail);
    law_reports_written_files(b, names);
    assert(run(s0, events).1 =~= seq![ActionView::ConfirmOverwrite(b.build("temp"@)), write_action(b, image)]
        + report_actions(names) + seq![
        ActionView::ReportCompletion,
        ActionView::Finish(completed_response(names)),
    ]);
}

/// A request without a base image, answered "go on", given a non-empty
/// template catalogue and the user's choice `image`: it shows progress,
/// fetches the catalogue, offers exactly those templates, announces the
/// choice and writes the generated files of its configuration with that image.
pub proof fn law_run_with_chosen_image(
    b: ComposeConfigBuilderView,
    templates: Seq<DevContainerTemplateView>,
    image: Seq<char>,
)
    requires
        b.base_image is None,
        templates.len() > 0,
    ensures
        run(
            UseCaseView { builder: b, phase: PhaseView::Start },
            seq![
                EventView::Continue,
                EventView::OverwriteAnswered(true),
                EventView::Continue,
                EventView::TemplatesFetched(templates),
                EventView::BaseImageSelected(image),
                EventView::Continue,
            ],
        ) == (UseCaseView { builder: b, phase: PhaseView::AwaitWrite }, seq![
            ActionView::ConfirmOverwrite(b.build("temp"@)),
            ActionView::ShowProgress(fetching_templates_message()),
            ActionView::FetchTemplates,
            ActionView::SelectBaseImage(templates),
            ActionView::ShowSuccess(selected_image_message(image)),
            write_action(b, image),
        ]),
{
    let events = seq![
        EventView::Continue,
        EventView::OverwriteAnswered(true),
        EventView::Continue,
        EventView::TemplatesFetched(templates),
        EventView::BaseImageSelected(image),
        EventView::Continue,
    ];
    let st = |p: PhaseView| UseCaseView { builder: b, phase: p };
    lemma_run_cons(st(PhaseView::Start), events[0], events.skip(1));
    lemma_run_cons(st(PhaseView::AwaitOverwrite), events[1], events.skip(2));
    lemma_run_cons(st(PhaseView::AwaitProgressShown), events[2], events.skip(3));
    lemma_run_cons(st(PhaseView::AwaitTemplates), events[3], events.skip(4));
    lemma_run_cons(st(PhaseView::AwaitSelection), events[4], events.skip(5));
    lemma_run_cons(st(PhaseView::AwaitSuccessShown(image)), events[5], events.skip(6));
    assert(events =~= seq![events[0]] + events.skip(1));
    assert(events.skip(1) =~= seq![events[1]] + events.skip(2));
    assert(events.skip(2) =~= seq![events[2]] + events.skip(3));
    assert(events.skip(3) =~= seq![events[3]] + events.skip(4));
    assert(events.skip(4) =~= seq![events[4]] + events.skip(5));
    assert(events.skip(5) =~= seq![events[5]] + events.skip(6));
    assert(events.skip(6) =~= seq![]);
    assert(run(st(PhaseView::Start), events).1 =~= seq![
        ActionView::ConfirmOverwrite(b.build("temp"@)),
        ActionView::ShowProgress(fetching_templates_message()),
        ActionView::FetchTemplates,
        ActionView::SelectBaseImage(templates),
        ActionView::ShowSuccess(selected_image_message(image)),
        write_action(b, image),
    ]);
}

/// An empty template catalogue stops the run with `NoTemplatesFound`; it
/// writes nothing afterwards.
pub proof fn law_empty_catalogue_fails(b: ComposeConfigBuilderView, events: Seq<EventView>)
    ensures
        run(
            UseCaseView { builder: b, phase: PhaseView::AwaitTemplates },
            seq![EventView::TemplatesFetched(seq![])] + events,
        ).1[0] == ActionView::Fail(UseCaseError::NoTemplatesFound),
        forall|k: int|
            0 <= k < run(
                UseCaseView { builder: b, phase: PhaseView::AwaitTemplates },
                seq![EventView::TemplatesFetched(seq![])] + events,
            ).1.len() ==> !is_write(
                #[trigger] run(
                    UseCaseView { builder: b, phase: PhaseView::AwaitTemplates },
                    seq![EventView::TemplatesFetched(seq![])] + events,
                ).1[k],
            ),
{
    let s = UseCaseView { builder: b, phase: PhaseView::AwaitTemplates };
    let e = EventView::TemplatesFetched(seq![]);
    lemma_run_cons(s, e, events);
    let (s1, a) = spec_step(s, e);
    law_done_is_final(s1, events);
    let acts = run(s, seq![e] + events).1;
    assert forall|k: int| 0 <= k < acts.len() implies !is_write(#[trigger] acts[k]) by {
        if k > 0 {
            assert(acts[k] == run(s1, events).1[k - 1]);
        }
    }
}

impl GenerateDevContainerUseCase {
    /// A run for `request`, not yet started.
    pub fn new(request: GenerateDevContainerRequest) -> (r: Self)
        ensures
            r@ == (UseCaseView {
                builder: request_builder(
                    request.dir@,
                    request.name.deep_view(),
                    request.image_name.deep_view(),
                    request.container_name.deep_view(),
                    request.base_image.deep_view(),
                    request.force,
                ),
                phase: PhaseView::Start,
            }),
    {
        let builder = ComposeConfigBuilder::new(request.dir).with_name(request.name).with_image_name(
            request.image_name,
        ).with_container_name(request.container_name).with_base_image(
            request.base_image,
        ).with_force(request.force);
        GenerateDevContainerUseCase { builder, phase: Phase::Start }
    }

    fn write_files_action(&self, image: String) -> (a: Action)
        ensures
            a@ == write_action(self.builder@, image@),
    {
        let config = self.builder.build_with(image);
        let files = DevContainerGenerator::generate_all_files(&config);
        Action::WriteFiles(config, files)
    }

    /// Takes the outcome of the previous action and returns the next action
    /// (see `spec_step`).
    pub fn step(&mut self, event: Event) -> (a: Action)
        ensures
            (final(self)@, a@) == spec_step(old(self)@, event@),
    {
        let mut phase = Phase::Done;
        std::mem::swap(&mut phase, &mut self.phase);
        let ghost b = self.builder@;
        match (phase, event) {
            (Phase::Start, Event::Continue) => {
                self.phase = Phase::AwaitOverwrite;
                Action::ConfirmOverwrite(self.builder.build_with(String::from_str("temp")))
            },
            (Phase::AwaitOverwrite, Event::OverwriteAnswered(go_on)) => {
                if !go_on {
                    self.phase = Phase::Done;
                    let r = GenerateDevContainerResponse {
                        success: false,
                        generated_files: Vec::new(),
                        message: String::from_str("ユーザーが処理をキャンセルしました"),
                    };
                    assert(r@.generated_files =~= seq![]);
                    Action::Finish(r)
                } else {
                    match self.builder.get_base_image() {
                        Some(image) => {
                            let image = image.clone();
                            self.phase = Phase::AwaitWrite;
                            self.write_files_action(image)
                        },
                        None => {
                            self.phase = Phase::AwaitProgressShown;
                            Action::ShowProgress(String::from_str("テンプレート一覧を取得中..."))
                        },
                    }
                }
            },
            (Phase::AwaitProgressShown, Event::Continue) => {
                self.phase = Phase::AwaitTemplates;
                Action::FetchTemplates
            },
            (Phase::AwaitTemplates, Event::TemplatesFetched(ts)) => {
                if ts.len() == 0 {
                    self.phase = Phase::Done;
                    Action::Fail(UseCaseError::NoTemplatesFound)
                } else {
                    self.phase = Phase::AwaitSelection;
                    Action::SelectBaseImage(ts)
                }
            },
            (Phase::AwaitSelection, Event::BaseImageSelected(image)) => {
                let mut message = String::from_str("選択されたベースイメージ: ");
                message.append(image.as_str());
                self.phase = Phase::AwaitSuccessShown(image);
                Action::ShowSuccess(message)
            },
            (Phase::AwaitSuccessShown(image), Event::Continue) => {
                self.phase = Phase::AwaitWrite;
                self.write_files_action(image)
            },
            (Phase::AwaitWrite, Event::FilesWritten(names)) => {
                if names.len() == 0 {
                    self.phase = Phase::AwaitCompletion(names);
                    Action::ReportCompletion
                } else {
                    let first = names[0].clone();
                    self.phase = Phase::Reporting(names, 1);
                    Action::ReportFileGenerated(first)
                }
            },
            (Phase::Reporting(names, i), Event::Continue) => {
                if i < names.len() {
                    let name = names[i].clone();
                    self.phase = Phase::Reporting(names, i + 1);
                    Action::ReportFileGenerated(name)
                } else {
                    self.phase = Phase::AwaitCompletion(names);
                    Action::ReportCompletion
                }
            },
            (Phase::AwaitCompletion(names), Event::Continue) => {
                self.phase = Phase::Done;
                Action::Finish(
                    GenerateDevContainerResponse {
                        success: true,
                        generated_files: names,
                        message: String::from_str("Dev Container設定ファイルの生成が完了しました"),
                    },
                )
            },
            (_, _) => {
                self.phase = Phase::Done;
                Action::Fail(UseCaseError::UnexpectedEvent)
            },
        }
    }
}

} // verus!
