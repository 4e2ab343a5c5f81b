//! Path picker: the decisions of a full-screen file browser that lets the
//! user pick one path.
//!
//! The browser itself, the terminal and the keyboard belong to the driver.
//! The picker tells the driver what to do next ([`PickerRequest`]), the driver
//! does it and reports what came of it ([`PickerReply`]). The picker is in
//! charge of the order of things: it takes the terminal, seeds the browser,
//! browses until the user confirms, and gives the terminal back on every way
//! out, also after a failure.
//!
//! What the picker decides, it decides on plain values, in
//! [`PathPrompt::apply`]. Two things it has from the standard library's
//! reading of paths: the directory of the default path, and which listed
//! entry is the default path. [`prompt_for_path`] and [`PathPrompt::digest`]
//! ask for them; [`PathPrompt::step`] is the two in one.

use vstd::prelude::*;
use vstd::string::*;
use crate::paths::{parent_of, path_eq, path_parent, same_path};
use crate::style::{rendered, stylesheet_shim, ContentStyle, StyleSheet, TerminalAttributes};
use crate::text::opt_text;

verus! {

/// A piece of text with the style sheet to show it in.
#[derive(Clone, Debug, PartialEq, Eq)]
pub struct Styled {
    pub content: String,
    pub style: StyleSheet,
}

/// What the prompts look like, as far as the picker cares: how an answered
/// prompt is marked, and how the answer is shown.
#[derive(Clone, Debug, PartialEq, Eq)]
pub struct RenderConfig {
    pub answered_prompt_prefix: Styled,
    pub answer: StyleSheet,
}

/// A key of the keyboard.
#[derive(Clone, Copy, Debug, PartialEq, Eq, Structural)]
pub enum KeyCode {
    Backspace,
    Enter,
    Left,
    Right,
    Up,
    Down,
    Home,
    End,
    PageUp,
    PageDown,
    Tab,
    BackTab,
    Delete,
    Insert,
    F(u8),
    Char(char),
    Null,
    Esc,
    Other,
}

/// Something that happened at the terminal.
#[derive(Clone, Copy, Debug, PartialEq, Eq, Structural)]
pub enum TerminalEvent {
    FocusGained,
    FocusLost,
    Key(KeyCode),
    Mouse,
    Paste,
    Resize,
}

/// What can go wrong while a path is picked.
#[derive(Clone, Copy, Debug, PartialEq, Eq, Structural)]
pub enum PickerFailure {
    EnableRawMode,
    SwitchScreen,
    MakeTerminal,
    MakeExplorer,
    SetDirectory,
    Draw,
    ReadEvent,
    HandleEvent,
    DisableRawMode,
    RestoreScreen,
    ReadSelection,
}

/// How far the picker has come: the request it waits on.
#[derive(Clone, Copy, Debug, PartialEq, Eq, Structural)]
pub enum Stage {
    EnablingRawMode,
    EnteringScreen,
    CreatingTerminal,
    CreatingExplorer,
    SettingDirectory,
    Drawing,
    Reading,
    Forwarding,
    LeavingRawMode,
    LeavingScreen,
    TakingSelection,
    Finished,
}

/// A piece of the line that confirms the choice, with its style.
#[derive(Clone, Debug, PartialEq, Eq)]
pub struct StyledText {
    pub style: ContentStyle,
    pub text: String,
}

/// A styled piece of text as the contracts see it.
pub struct StyledTextModel {
    pub style: ContentStyle,
    pub text: Seq<char>,
}

impl View for StyledText {
    type V = StyledTextModel;

    open spec fn view(&self) -> StyledTextModel {
        StyledTextModel { style: self.style, text: self.text@ }
    }
}

impl DeepView for StyledText {
    type V = StyledTextModel;

    open spec fn deep_view(&self) -> StyledTextModel {
        self@
    }
}

/// What the driver is to do next.
#[derive(Clone, Debug, PartialEq, Eq)]
pub enum PickerRequest {
    /// Put the terminal into raw mode.
    EnableRawMode,
    /// Switch to the alternate screen.
    EnterAlternateScreen,
    /// Make the terminal to draw on.
    CreateTerminal,
    /// Make the file browser. Its title bar shows [`title_line`].
    CreateExplorer,
    /// Show the directory `path` in the browser and report its entries.
    SetDirectory { path: String },
    /// Put the cursor on the entry at `select`, where there is one, then draw.
    Draw { select: Option<usize> },
    /// Wait for the next terminal event and report it.
    ReadEvent,
    /// Hand the event read last to the browser.
    Forward,
    /// Take the terminal out of raw mode.
    DisableRawMode,
    /// Switch back to the normal screen.
    LeaveAlternateScreen,
    /// Report the path under the cursor.
    TakeSelection,
    /// Print the pieces of `echo` on one line; the user picked `path`.
    Finish { path: String, echo: Vec<StyledText> },
    /// Give up with `message`.
    Fail { failure: PickerFailure, message: String },
    /// Nothing: the picker had finished before.
    Closed,
}

/// A request as the contracts see it.
pub enum RequestModel {
    EnableRawMode,
    EnterAlternateScreen,
    CreateTerminal,
    CreateExplorer,
    SetDirectory { path: Seq<char> },
    Draw { select: Option<int> },
    ReadEvent,
    Forward,
    DisableRawMode,
    LeaveAlternateScreen,
    TakeSelection,
    Finish { path: Seq<char>, echo: Seq<StyledTextModel> },
    Fail { failure: PickerFailure, message: Seq<char> },
    Closed,
}

impl View for PickerRequest {
    type V = RequestModel;

    open spec fn view(&self) -> RequestModel {
        match *self {
            PickerRequest::EnableRawMode => RequestModel::EnableRawMode,
            PickerRequest::EnterAlternateScreen => RequestModel::EnterAlternateScreen,
            PickerRequest::CreateTerminal => RequestModel::CreateTerminal,
            PickerRequest::CreateExplorer => RequestModel::CreateExplorer,
            PickerRequest::SetDirectory { path } => RequestModel::SetDirectory { path: path@ },
            PickerRequest::Draw { select } => RequestModel::Draw {
                select: match select {
                    Some(i) => Some(i as int),
                    None => None,
                },
            },
            PickerRequest::ReadEvent => RequestModel::ReadEvent,
            PickerRequest::Forward => RequestModel::Forward,
            PickerRequest::DisableRawMode => RequestModel::DisableRawMode,
            PickerRequest::LeaveAlternateScreen => RequestModel::LeaveAlternateScreen,
            PickerRequest::TakeSelection => RequestModel::TakeSelection,
            PickerRequest::Finish { path, echo } => RequestModel::Finish {
                path: path@,
                echo: echo.deep_view(),
            },
            PickerRequest::Fail { failure, message } => RequestModel::Fail {
                failure,
                message: message@,
            },
            PickerRequest::Closed => RequestModel::Closed,
        }
    }
}

/// What came of the request made last.
#[derive(Clone, Debug, PartialEq, Eq)]
pub enum PickerReply {
    /// It was done.
    Done,
    /// It could not be done.
    Failed,
    /// The directory is shown; these are the paths of its entries, in the
    /// order in which the browser lists them.
    Listed(Vec<String>),
    /// This event was read.
    Input(TerminalEvent),
    /// This path is under the cursor.
    Selected(String),
}

/// A reply as the contracts see it.
pub enum ReplyModel {
    Done,
    Failed,
    Listed(Seq<Seq<char>>),
    Input(TerminalEvent),
    Selected(Seq<char>),
}

impl View for PickerReply {
    type V = ReplyModel;

    open spec fn view(&self) -> ReplyModel {
        match *self {
            PickerReply::Done => ReplyModel::Done,
            PickerReply::Failed => ReplyModel::Failed,
            PickerReply::Listed(entries) => ReplyModel::Listed(entries.deep_view()),
            PickerReply::Input(event) => ReplyModel::Input(event),
            PickerReply::Selected(path) => ReplyModel::Selected(path@),
        }
    }
}

/// A reply, with what the picker needs to know of it in place of the texts
/// that it would have to read as paths.
#[derive(Clone, Debug, PartialEq, Eq)]
pub enum PickerEvent {
    /// The request was done.
    Done,
    /// The request could not be done.
    Failed,
    /// The directory is shown; the default path is its entry at `select`,
    /// where it is among the entries.
    Listed { select: Option<usize> },
    /// This event was read.
    Input(TerminalEvent),
    /// This path is under the cursor.
    Selected(String),
}

/// An event as the contracts see it.
pub enum EventModel {
    Done,
    Failed,
    Listed { select: Option<int> },
    Input(TerminalEvent),
    Selected(Seq<char>),
}

impl View for PickerEvent {
    type V = EventModel;

    open spec fn view(&self) -> EventModel {
        match *self {
            PickerEvent::Done => EventModel::Done,
            PickerEvent::Failed => EventModel::Failed,
            PickerEvent::Listed { select } => EventModel::Listed {
                select: match select {
                    Some(i) => Some(i as int),
                    None => None,
                },
            },
            PickerEvent::Input(event) => EventModel::Input(event),
            PickerEvent::Selected(path) => EventModel::Selected(path@),
        }
    }
}

/// The picker of one path. It is made by [`prompt_for_path`] and moved on by
/// [`PathPrompt::step`].
#[derive(Debug)]
pub struct PathPrompt {
    stage: Stage,
    label: String,
    default_path: Option<String>,
    directory: Option<String>,
    prefix: String,
    prefix_style: StyleSheet,
    answer_style: StyleSheet,
    raw_mode: bool,
    alternate_screen: bool,
    failure: Option<PickerFailure>,
}

/// A picker as the contracts see it.
pub struct PromptModel {
    /// The request that the picker waits on.
    pub stage: Stage,
    /// What the user is asked for.
    pub label: Seq<char>,
    /// The path chosen last time.
    pub default_path: Option<Seq<char>>,
    /// The directory to show first, where it is not the browser's own choice.
    pub directory: Option<Seq<char>>,
    /// The mark of an answered prompt, and its style.
    pub prefix: Seq<char>,
    pub prefix_style: StyleSheet,
    /// The style of the answer.
    pub answer_style: StyleSheet,
    /// Whether the terminal is in raw mode on the picker's account.
    pub raw_mode: bool,
    /// Whether the alternate screen is up on the picker's account.
    pub alternate_screen: bool,
    /// What went wrong first, if anything did.
    pub failure: Option<PickerFailure>,
}

impl View for PathPrompt {
    type V = PromptModel;

    closed spec fn view(&self) -> PromptModel {
        PromptModel {
            stage: self.stage,
            label: self.label@,
            default_path: opt_text(self.default_path),
            directory: opt_text(self.directory),
            prefix: self.prefix@,
            prefix_style: self.prefix_style,
            answer_style: self.answer_style,
            raw_mode: self.raw_mode,
            alternate_screen: self.alternate_screen,
            failure: self.failure,
        }
    }
}

/// The message that goes with a failure.
pub open spec fn failure_message(failure: PickerFailure) -> Seq<char> {
    match failure {
        PickerFailure::EnableRawMode => "Failed to enable raw mode"@,
        PickerFailure::SwitchScreen => "Failed to switch screens"@,
        PickerFailure::MakeTerminal => "Failed to make terminal"@,
        PickerFailure::MakeExplorer => "Failed to make file explorer"@,
        PickerFailure::SetDirectory => "Failed to set initial directory for file explorer"@,
        PickerFailure::Draw => "Failed to draw widget"@,
        PickerFailure::ReadEvent => "Failed to read terminal event"@,
        PickerFailure::HandleEvent => "Failed to handle event in file explorer"@,
        PickerFailure::DisableRawMode => "Failed to disable raw mode"@,
        PickerFailure::RestoreScreen => "Failed to restore original screen"@,
        PickerFailure::ReadSelection => "Failed to read the selection"@,
    }
}

/// The title bar of the browser: the label, the directory shown, and a hint.
pub open spec fn title_of(label: Seq<char>, cwd: Seq<char>) -> Seq<char> {
    " "@ + label + " | "@ + cwd + " | (VIM, ENTER=select) "@
}

/// Whether `event` confirms the selection: a key event of the Enter key does,
/// and nothing else.
pub open spec fn confirms(event: TerminalEvent) -> bool {
    event == TerminalEvent::Key(KeyCode::Enter)
}

/// For each entry, whether it is the path `wanted`.
pub open spec fn matches_of(entries: Seq<Seq<char>>, wanted: Seq<char>) -> Seq<bool> {
    Seq::new(entries.len(), |i: int| same_path(entries[i], wanted))
}

/// The entry to put the cursor on: the first one that is the path `wanted`.
pub open spec fn preselected(entries: Seq<Seq<char>>, wanted: Seq<char>) -> Option<int> {
    matches_of(entries, wanted).index_of_first(true)
}

/// The style that changes nothing.
pub open spec fn plain_style() -> ContentStyle {
    ContentStyle {
        foreground_color: None,
        background_color: None,
        underline_color: None,
        attributes: TerminalAttributes { bold: false, italic: false, underlined: false },
    }
}

/// The line that confirms the choice of `path`, in three pieces: the mark of
/// an answered prompt in its style, then the label between a space and a
/// colon, then the path in the style of answers.
pub open spec fn echo_of(m: PromptModel, path: Seq<char>) -> Seq<StyledTextModel> {
    seq![
        StyledTextModel { style: rendered(m.prefix_style), text: m.prefix },
        StyledTextModel { style: plain_style(), text: " "@ + m.label + ": "@ },
        StyledTextModel { style: rendered(m.answer_style), text: path },
    ]
}

/// The picker at its start, before anything was asked of the driver.
pub open spec fn opening(
    label: Seq<char>,
    default_path: Option<Seq<char>>,
    directory: Option<Seq<char>>,
    prefix: Seq<char>,
    prefix_style: StyleSheet,
    answer_style: StyleSheet,
) -> PromptModel {
    PromptModel {
        stage: Stage::EnablingRawMode,
        label,
        default_path,
        directory,
        prefix,
        prefix_style,
        answer_style,
        raw_mode: false,
        alternate_screen: false,
        failure: None,
    }
}

/// Gives back what is held of the terminal, raw mode first, and then ends:
/// with the failure where there was one, else by asking for the selection.
pub open spec fn release(m: PromptModel) -> (PromptModel, RequestModel) {
    if m.raw_mode {
        (PromptModel { stage: Stage::LeavingRawMode, ..m }, RequestModel::DisableRawMode)
    } else if m.alternate_screen {
        (PromptModel { stage: Stage::LeavingScreen, ..m }, RequestModel::LeaveAlternateScreen)
    } else {
        match m.failure {
            Some(failure) => (
                PromptModel { stage: Stage::Finished, ..m },
                RequestModel::Fail { failure, message: failure_message(failure) },
            ),
            None => (
                PromptModel { stage: Stage::TakingSelection, ..m },
                RequestModel::TakeSelection,
            ),
        }
    }
}

/// Notes `failure`, unless something had failed before, and starts to give
/// the terminal back.
pub open spec fn fail(m: PromptModel, failure: PickerFailure) -> (PromptModel, RequestModel) {
    release(
        PromptModel {
            failure: if m.failure is None {
                Some(failure)
            } else {
                m.failure
            },
            ..m
        },
    )
}

/// The directory of the default path, where there is a default path and it
/// has a directory.
pub open spec fn directory_of(default_path: Option<Seq<char>>) -> Option<Seq<char>> {
    match default_path {
        Some(path) => parent_of(path),
        None => None,
    }
}

/// The first request about the browser's contents, once the browser is made:
/// show the directory to show first, where there is one.
pub open spec fn seed(m: PromptModel) -> (PromptModel, RequestModel) {
    match m.directory {
        Some(dir) => (
            PromptModel { stage: Stage::SettingDirectory, ..m },
            RequestModel::SetDirectory { path: dir },
        ),
        None => (PromptModel { stage: Stage::Drawing, ..m }, RequestModel::Draw { select: None }),
    }
}

/// What the picker makes of a reply: the reply itself, but for a listing, of
/// which it keeps the place of the default path.
pub open spec fn digested(m: PromptModel, reply: ReplyModel) -> EventModel {
    match reply {
        ReplyModel::Done => EventModel::Done,
        ReplyModel::Failed => EventModel::Failed,
        ReplyModel::Listed(entries) => EventModel::Listed {
            select: match m.default_path {
                Some(path) => preselected(entries, path),
                None => None,
            },
        },
        ReplyModel::Input(event) => EventModel::Input(event),
        ReplyModel::Selected(path) => EventModel::Selected(path),
    }
}

/// What follows when a picker in state `m` is told `event`.
pub open spec fn advance(m: PromptModel, event: EventModel) -> (PromptModel, RequestModel) {
    match m.stage {
        Stage::EnablingRawMode => if event is Done {
            (
                PromptModel { stage: Stage::EnteringScreen, raw_mode: true, ..m },
                RequestModel::EnterAlternateScreen,
            )
        } else {
            fail(m, PickerFailure::EnableRawMode)
        },
        Stage::EnteringScreen => if event is Done {
            (
                PromptModel { stage: Stage::CreatingTerminal, alternate_screen: true, ..m },
                RequestModel::CreateTerminal,
            )
        } else {
            fail(m, PickerFailure::SwitchScreen)
        },
        Stage::CreatingTerminal => if event is Done {
            (PromptModel { stage: Stage::CreatingExplorer, ..m }, RequestModel::CreateExplorer)
        } else {
            fail(m, PickerFailure::MakeTerminal)
        },
        Stage::CreatingExplorer => if event is Done {
            seed(m)
        } else {
            fail(m, PickerFailure::MakeExplorer)
        },
        Stage::SettingDirectory => match event {
            EventModel::Listed { select } => (
                PromptModel { stage: Stage::Drawing, ..m },
                RequestModel::Draw { select },
            ),
            _ => fail(m, PickerFailure::SetDirectory),
        },
        Stage::Drawing => if event is Done {
            (PromptModel { stage: Stage::Reading, ..m }, RequestModel::ReadEvent)
        } else {
            fail(m, PickerFailure::Draw)
        },
        Stage::Reading => match event {
            EventModel::Input(input) => if confirms(input) {
                release(m)
            } else {
                (PromptModel { stage: Stage::Forwarding, ..m }, RequestModel::Forward)
            },
            _ => fail(m, PickerFailure::ReadEvent),
        },
        Stage::Forwarding => if event is Done {
            (PromptModel { stage: Stage::Drawing, ..m }, RequestModel::Draw { select: None })
        } else {
            fail(m, PickerFailure::HandleEvent)
        },
        Stage::LeavingRawMode => if event is Done {
            release(PromptModel { raw_mode: false, ..m })
        } else {
            fail(PromptModel { raw_mode: false, ..m }, PickerFailure::DisableRawMode)
        },
        Stage::LeavingScreen => if event is Done {
            release(PromptModel { alternate_screen: false, ..m })
        } else {
            fail(PromptModel { alternate_screen: false, ..m }, PickerFailure::RestoreScreen)
        },
        Stage::TakingSelection => match event {
            EventModel::Selected(path) => (
                PromptModel { stage: Stage::Finished, ..m },
                RequestModel::Finish { path, echo: echo_of(m, path) },
            ),
            _ => (
                PromptModel {
                    stage: Stage::Finished,
                    failure: Some(PickerFailure::ReadSelection),
                    ..m
                },
                RequestModel::Fail {
                    failure: PickerFailure::ReadSelection,
                    message: failure_message(PickerFailure::ReadSelection),
                },
            ),
        },
        Stage::Finished => (m, RequestModel::Closed),
    }
}

/// Whether the picker is browsing: the browser is up and the user has not
/// confirmed yet.
pub open spec fn browsing(m: PromptModel) -> bool {
    m.failure is None && (m.stage == Stage::SettingDirectory || m.stage == Stage::Drawing || m.stage
        == Stage::Reading || m.stage == Stage::Forwarding)
}

/// Whether the picker is past browsing for good.
pub open spec fn closing(m: PromptModel) -> bool {
    m.stage == Stage::LeavingRawMode || m.stage == Stage::LeavingScreen || m.stage
        == Stage::TakingSelection || m.stage == Stage::Finished
}

/// What holds of every picker that was made by [`prompt_for_path`] and moved
/// on by [`PathPrompt::step`]: what it holds of the terminal goes with its
/// stage.
pub open spec fn consistent(m: PromptModel) -> bool {
    match m.stage {
        Stage::EnablingRawMode => !m.raw_mode && !m.alternate_screen && m.failure is None,
        Stage::EnteringScreen => m.raw_mode && !m.alternate_screen && m.failure is None,
        Stage::CreatingTerminal
        | Stage::CreatingExplorer
        | Stage::SettingDirectory
        | Stage::Drawing
        | Stage::Reading
        | Stage::Forwarding => m.raw_mode && m.alternate_screen && m.failure is None,
        Stage::LeavingRawMode => m.raw_mode,
        Stage::LeavingScreen => !m.raw_mode && m.alternate_screen,
        Stage::TakingSelection => !m.raw_mode && !m.alternate_screen && m.failure is None,
        Stage::Finished => !m.raw_mode && !m.alternate_screen,
    }
}

/// Whether `request` ends the picking.
pub open spec fn ends(request: RequestModel) -> bool {
    request is Finish || request is Fail
}

/// A picker starts out consistent, and holding nothing of the terminal.
pub proof fn law_opening_is_consistent(
    label: Seq<char>,
    default_path: Option<Seq<char>>,
    directory: Option<Seq<char>>,
    prefix: Seq<char>,
    prefix_style: StyleSheet,
    answer_style: StyleSheet,
)
    ensures
        consistent(opening(label, default_path, directory, prefix, prefix_style, answer_style)),
{
}

/// The terminal is given back on every way out. A picker takes raw mode only
/// by a request to enable it that was done, and the alternate screen only by
/// a request to enter it that was done; it holds each until the request to
/// give it back has been answered, however it was answered; and when it ends,
/// with a path or with a failure, it holds neither.
pub proof fn law_terminal_is_released(m: PromptModel, event: EventModel)
    requires
        consistent(m),
    ensures
        ({
            let (next, request) = advance(m, event);
            &&& consistent(next)
            &&& ends(request) ==> !next.raw_mode && !next.alternate_screen && next.stage
                == Stage::Finished
            &&& next.raw_mode == if m.stage == Stage::EnablingRawMode {
                event is Done
            } else {
                m.raw_mode && m.stage != Stage::LeavingRawMode
            }
            &&& next.alternate_screen == if m.stage == Stage::EnteringScreen {
                event is Done
            } else {
                m.alternate_screen && m.stage != Stage::LeavingScreen
            }
            &&& request is DisableRawMode ==> m.raw_mode
            &&& request is LeaveAlternateScreen ==> m.alternate_screen
        }),
{
}

/// Browsing goes on until the user confirms with Enter: any other event is
/// handed to the browser and the picker draws again; Enter ends browsing, and
/// a picker past browsing never browses again. The picker ends with a path
/// only after the user confirmed and nothing failed, and the path is the one
/// that was under the cursor then.
pub proof fn law_enter_confirms(m: PromptModel, event: EventModel)
    requires
        consistent(m),
    ensures
        ({
            let (next, request) = advance(m, event);
            &&& m.stage == Stage::Reading && event is Input ==> if confirms(event->Input_0) {
                closing(next) && next.failure is None
            } else {
                browsing(next) && request is Forward
            }
            &&& closing(m) ==> closing(next)
            &&& request is Finish ==> {
                &&& m.stage == Stage::TakingSelection
                &&& m.failure is None
                &&& event is Selected
                &&& request->Finish_path == event->Selected_0
            }
            &&& m.failure is Some ==> next.failure == m.failure && !(request is Finish)
        }),
{
}

/// What a failure is reported as is the first thing that went wrong: a
/// failure to give the terminal back never hides the failure that led there.
pub proof fn law_first_failure_is_reported(m: PromptModel, event: EventModel)
    requires
        consistent(m),
    ensures
        ({
            let (next, request) = advance(m, event);
            &&& request is Fail ==> next.failure == Some(request->Fail_failure)
                && request->Fail_message == failure_message(request->Fail_failure)
            &&& m.failure is Some ==> next.failure == m.failure
        }),
{
}

/// A run: where the picker in state `m` gets to when it is told `events` one
/// after another, and the requests it makes on the way, one for each event.
pub open spec fn run(m: PromptModel, events: Seq<EventModel>) -> (PromptModel, Seq<RequestModel>)
    decreases events.len(),
{
    if events.len() == 0 {
        (m, Seq::empty())
    } else {
        let before = run(m, events.drop_last());
        let last = advance(before.0, events.last());
        (last.0, before.1.push(last.1))
    }
}

/// Whatever happens, the picker ends once and holds nothing of the terminal
/// from then on: in every run, after the request that ends the picking the
/// picker is finished, holds neither raw mode nor the alternate screen, and
/// asks for nothing more.
pub proof fn law_every_run_gives_the_terminal_back(start: PromptModel, events: Seq<EventModel>)
    requires
        consistent(start),
    ensures
        ({
            let (end, requests) = run(start, events);
            &&& consistent(end)
            &&& requests.len() == events.len()
            &&& forall|i: int|
                0 <= i < requests.len() && ends(#[trigger] requests[i]) ==> {
                    &&& end.stage == Stage::Finished
                    &&& !end.raw_mode
                    &&& !end.alternate_screen
                    &&& forall|j: int| i < j < requests.len() ==> #[trigger] requests[j] is Closed
                }
        }),
    decreases events.len(),
{
    if events.len() > 0 {
        law_every_run_gives_the_terminal_back(start, events.drop_last());
        let before = run(start, events.drop_last());
        law_terminal_is_released(before.0, events.last());
        let last = advance(before.0, events.last());
        let requests = before.1.push(last.1);
        assert(run(start, events) == (last.0, requests));
        assert forall|i: int| 0 <= i < requests.len() && ends(#[trigger] requests[i]) implies {
            &&& last.0.stage == Stage::Finished
            &&& !last.0.raw_mode
            &&& !last.0.alternate_screen
            &&& forall|j: int| i < j < requests.len() ==> #[trigger] requests[j] is Closed
        } by {
            if i < before.1.len() {
                assert(requests[i] == before.1[i]);
                assert(before.0.stage == Stage::Finished);
                assert forall|j: int| i < j < requests.len() implies #[trigger] requests[j]
                    is Closed by {
                    if j < before.1.len() {
                        assert(requests[j] == before.1[j]);
                    }
                }
            }
        }
    }
}

impl PickerFailure {
    /// The message that goes with this failure.
    pub fn message(&self) -> (out: String)
        ensures
            out@ == failure_message(*self),
    {
        match self {
            PickerFailure::EnableRawMode => String::from_str("Failed to enable raw mode"),
            PickerFailure::SwitchScreen => String::from_str("Failed to switch screens"),
            PickerFailure::MakeTerminal => String::from_str("Failed to make terminal"),
            PickerFailure::MakeExplorer => String::from_str("Failed to make file explorer"),
            PickerFailure::SetDirectory => String::from_str(
                "Failed to set initial directory for file explorer",
            ),
            PickerFailure::Draw => String::from_str("Failed to draw widget"),
            PickerFailure::ReadEvent => String::from_str("Failed to read terminal event"),
            PickerFailure::HandleEvent => String::from_str(
                "Failed to handle event in file explorer",
            ),
            PickerFailure::DisableRawMode => String::from_str("Failed to disable raw mode"),
            PickerFailure::RestoreScreen => String::from_str("Failed to restore original screen"),
            PickerFailure::ReadSelection => String::from_str("Failed to read the selection"),
        }
    }
}

/// The title bar of the browser for the prompt `label` while it shows the
/// directory `cwd`.
pub fn title_line(label: &str, cwd: &str) -> (out: String)
    ensures
        out@ == title_of(label@, cwd@),
{
    let mut out = String::from_str(" ");
    out.append(label);
    out.append(" | ");
    out.append(cwd);
    out.append(" | (VIM, ENTER=select) ");
    out
}

/// Tells whether `event` confirms the selection.
pub fn is_confirm(event: TerminalEvent) -> (out: bool)
    ensures
        out == confirms(event),
{
    match event {
        TerminalEvent::Key(code) => match code {
            KeyCode::Enter => true,
            _ => false,
        },
        _ => false,
    }
}

/// The first place in `flags` that is set.
pub fn first_set(flags: &Vec<bool>) -> (out: Option<usize>)
    ensures
        match out {
            Some(i) => flags@.index_of_first(true) == Some(i as int),
            None => flags@.index_of_first(true) is None,
        },
{
    let mut i: usize = 0;
    while i < flags.len()
        invariant
            i <= flags.len(),
            forall|j: int| 0 <= j < i ==> !flags@[j],
        decreases flags.len() - i,
    {
        if flags[i] {
            proof {
                flags@.index_of_first_ensures(true);
                assert(flags@[i as int]);
                assert(flags@.contains(true));
            }
            return Some(i);
        }
        i = i + 1;
    }
    proof {
        flags@.index_of_first_ensures(true);
        if flags@.contains(true) {
            let j = choose|j: int| 0 <= j < flags@.len() && flags@[j] == true;
            assert(!flags@[j]);
        }
    }
    None
}

/// For each entry, whether it is the path `wanted`.
pub fn path_matches(entries: &Vec<String>, wanted: &str) -> (out: Vec<bool>)
    ensures
        out@ == matches_of(entries.deep_view(), wanted@),
{
    let mut out: Vec<bool> = Vec::new();
    let mut i: usize = 0;
    while i < entries.len()
        invariant
            i <= entries.len(),
            out.len() == i,
            forall|j: int| 0 <= j < i ==> out@[j] == same_path(entries[j]@, wanted@),
        decreases entries.len() - i,
    {
        out.push(path_eq(entries[i].as_str(), wanted));
        i = i + 1;
    }
    assert(out@ =~= matches_of(entries.deep_view(), wanted@));
    out
}

/// The entry to put the cursor on: the first one that is the path `wanted`.
/// Where there is one, it is one of `entries`.
pub fn preselect(entries: &Vec<String>, wanted: &str) -> (out: Option<usize>)
    ensures
        match out {
            Some(i) => preselected(entries.deep_view(), wanted@) == Some(i as int) && i
                < entries.len(),
            None => preselected(entries.deep_view(), wanted@) is None,
        },
{
    let flags = path_matches(entries, wanted);
    proof {
        flags@.index_of_first_ensures(true);
    }
    first_set(&flags)
}

/// Starts to pick a path for the prompt `label`, with the cursor on
/// `default_path` where that path is still there. Gives the picker and the
/// first thing to do.
///
/// Do not end `label` with a colon: the line that confirms the choice adds it.
pub fn prompt_for_path(
    label: &str,
    default_path: Option<&str>,
    render_config: &RenderConfig,
) -> (out: (PathPrompt, PickerRequest))
    ensures
        out.0@ == opening(
            label@,
            match default_path {
                Some(path) => Some(path@),
                None => None,
            },
            directory_of(
                match default_path {
                    Some(path) => Some(path@),
                    None => None,
                },
            ),
            render_config.answered_prompt_prefix.content@,
            render_config.answered_prompt_prefix.style,
            render_config.answer,
        ),
        out.1@ == RequestModel::EnableRawMode,
{
    let directory = match default_path {
        Some(path) => path_parent(path),
        None => None,
    };
    PathPrompt::new(label, default_path, directory, render_config)
}

impl PathPrompt {
    /// Starts to pick a path for the prompt `label`. The browser first shows
    /// `directory`, where one is given, and `default_path` is the path to put
    /// the cursor on. Gives the picker and the first thing to do.
    pub fn new(
        label: &str,
        default_path: Option<&str>,
        directory: Option<String>,
        render_config: &RenderConfig,
    ) -> (out: (PathPrompt, PickerRequest))
        ensures
            out.0@ == opening(
                label@,
                match default_path {
                    Some(path) => Some(path@),
                    None => None,
                },
                opt_text(directory),
                render_config.answered_prompt_prefix.content@,
                render_config.answered_prompt_prefix.style,
                render_config.answer,
            ),
            out.1@ == RequestModel::EnableRawMode,
    {
        let prompt = PathPrompt {
            stage: Stage::EnablingRawMode,
            label: label.to_owned(),
            default_path: match default_path {
                Some(path) => Some(path.to_owned()),
                None => None,
            },
            directory,
            prefix: render_config.answered_prompt_prefix.content.clone(),
            prefix_style: render_config.answered_prompt_prefix.style,
            answer_style: render_config.answer,
            raw_mode: false,
            alternate_screen: false,
            failure: None,
        };
        (prompt, PickerRequest::EnableRawMode)
    }

    /// The request that the picker waits on.
    pub fn stage(&self) -> (out: Stage)
        ensures
            out == self@.stage,
    {
        self.stage
    }

    /// Whether the picker has ended.
    pub fn is_finished(&self) -> (out: bool)
        ensures
            out == (self@.stage == Stage::Finished),
    {
        match self.stage {
            Stage::Finished => true,
            _ => false,
        }
    }

    /// Whether the terminal is in raw mode on the picker's account.
    pub fn holds_raw_mode(&self) -> (out: bool)
        ensures
            out == self@.raw_mode,
    {
        self.raw_mode
    }

    /// Whether the alternate screen is up on the picker's account.
    pub fn holds_alternate_screen(&self) -> (out: bool)
        ensures
            out == self@.alternate_screen,
    {
        self.alternate_screen
    }

    fn release(self) -> (out: (PathPrompt, PickerRequest))
        ensures
            (out.0@, out.1@) == release(self@),
    {
        let mut prompt = self;
        if prompt.raw_mode {
            prompt.stage = Stage::LeavingRawMode;
            (prompt, PickerRequest::DisableRawMode)
        } else if prompt.alternate_screen {
            prompt.stage = Stage::LeavingScreen;
            (prompt, PickerRequest::LeaveAlternateScreen)
        } else {
            match prompt.failure {
                Some(failure) => {
                    prompt.stage = Stage::Finished;
                    (prompt, PickerRequest::Fail { failure, message: failure.message() })
                },
                None => {
                    prompt.stage = Stage::TakingSelection;
                    (prompt, PickerRequest::TakeSelection)
                },
            }
        }
    }

    fn fail(self, failure: PickerFailure) -> (out: (PathPrompt, PickerRequest))
        ensures
            (out.0@, out.1@) == fail(self@, failure),
    {
        let mut prompt = self;
        if prompt.failure.is_none() {
            prompt.failure = Some(failure);
        }
        prompt.release()
    }

    fn seed(self) -> (out: (PathPrompt, PickerRequest))
        ensures
            (out.0@, out.1@) == seed(self@),
    {
        let mut prompt = self;
        let directory = match &prompt.directory {
            Some(path) => Some(path.clone()),
            None => None,
        };
        match directory {
            Some(path) => {
                prompt.stage = Stage::SettingDirectory;
                (prompt, PickerRequest::SetDirectory { path })
            },
            None => {
                prompt.stage = Stage::Drawing;
                (prompt, PickerRequest::Draw { select: None })
            },
        }
    }

    /// The line that confirms the choice of `path`.
    fn echo(&self, path: &String) -> (out: Vec<StyledText>)
        ensures
            out.deep_view() == echo_of(self@, path@),
    {
        let mut middle = String::from_str(" ");
        middle.append(self.label.as_str());
        middle.append(": ");
        let plain = ContentStyle {
            foreground_color: None,
            background_color: None,
            underline_color: None,
            attributes: TerminalAttributes { bold: false, italic: false, underlined: false },
        };
        let mut out: Vec<StyledText> = Vec::new();
        out.push(StyledText { style: stylesheet_shim(self.prefix_style), text: self.prefix.clone() });
        out.push(StyledText { style: plain, text: middle });
        out.push(StyledText { style: stylesheet_shim(self.answer_style), text: path.clone() });
        assert(out.deep_view() =~= echo_of(self@, path@));
        out
    }

    /// What the picker makes of `reply`. Of a listing it keeps the place of
    /// the default path, which is then one of the entries.
    pub fn digest(&self, reply: PickerReply) -> (out: PickerEvent)
        ensures
            out@ == digested(self@, reply@),
            out matches PickerEvent::Listed { select: Some(i) } ==> reply matches PickerReply::Listed(
                entries,
            ) && i < entries.len(),
    {
        match reply {
            PickerReply::Done => PickerEvent::Done,
            PickerReply::Failed => PickerEvent::Failed,
            PickerReply::Listed(entries) => PickerEvent::Listed {
                select: match &self.default_path {
                    Some(path) => preselect(&entries, path.as_str()),
                    None => None,
                },
            },
            PickerReply::Input(event) => PickerEvent::Input(event),
            PickerReply::Selected(path) => PickerEvent::Selected(path),
        }
    }

    /// Takes what came of the request made last and gives the next request.
    pub fn step(self, reply: PickerReply) -> (out: (PathPrompt, PickerRequest))
        ensures
            (out.0@, out.1@) == advance(self@, digested(self@, reply@)),
    {
        let event = self.digest(reply);
        self.apply(event)
    }

    /// Takes what came of the request made last, as an event, and gives the
    /// next request.
    pub fn apply(self, event: PickerEvent) -> (out: (PathPrompt, PickerRequest))
        ensures
            (out.0@, out.1@) == advance(self@, event@),
    {
        let mut prompt = self;
        match prompt.stage {
            Stage::EnablingRawMode => match event {
                PickerEvent::Done => {
                    prompt.stage = Stage::EnteringScreen;
                    prompt.raw_mode = true;
                    (prompt, PickerRequest::EnterAlternateScreen)
                },
                _ => prompt.fail(PickerFailure::EnableRawMode),
            },
            Stage::EnteringScreen => match event {
                PickerEvent::Done => {
                    prompt.stage = Stage::CreatingTerminal;
                    prompt.alternate_screen = true;
                    (prompt, PickerRequest::CreateTerminal)
                },
                _ => prompt.fail(PickerFailure::SwitchScreen),
            },
            Stage::CreatingTerminal => match event {
                PickerEvent::Done => {
                    prompt.stage = Stage::CreatingExplorer;
                    (prompt, PickerRequest::CreateExplorer)
                },
                _ => prompt.fail(PickerFailure::MakeTerminal),
            },
            Stage::CreatingExplorer => match event {
                PickerEvent::Done => prompt.seed(),
                _ => prompt.fail(PickerFailure::MakeExplorer),
            },
            Stage::SettingDirectory => match event {
                PickerEvent::Listed { select } => {
                    prompt.stage = Stage::Drawing;
                    (prompt, PickerRequest::Draw { select })
                },
                _ => prompt.fail(PickerFailure::SetDirectory),
            },
            Stage::Drawing => match event {
                PickerEvent::Done => {
                    prompt.stage = Stage::Reading;
                    (prompt, PickerRequest::ReadEvent)
                },
                _ => prompt.fail(PickerFailure::Draw),
            },
            Stage::Reading => match event {
                PickerEvent::Input(input) => {
                    if is_confirm(input) {
                        prompt.release()
                    } else {
                        prompt.stage = Stage::Forwarding;
                        (prompt, PickerRequest::Forward)
                    }
                },
                _ => prompt.fail(PickerFailure::ReadEvent),
            },
            Stage::Forwarding => match event {
                PickerEvent::Done => {
                    prompt.stage = Stage::Drawing;
                    (prompt, PickerRequest::Draw { select: None })
                },
                _ => prompt.fail(PickerFailure::HandleEvent),
            },
            Stage::LeavingRawMode => {
                prompt.raw_mode = false;
                match event {
                    PickerEvent::Done => prompt.release(),
                    _ => prompt.fail(PickerFailure::DisableRawMode),
                }
            },
            Stage::LeavingScreen => {
                prompt.alternate_screen = false;
                match event {
                    PickerEvent::Done => prompt.release(),
                    _ => prompt.fail(PickerFailure::RestoreScreen),
                }
            },
            Stage::TakingSelection => match event {
                PickerEvent::Selected(path) => {
                    let echo = prompt.echo(&path);
                    prompt.stage = Stage::Finished;
                    (prompt, PickerRequest::Finish { path, echo })
                },
                _ => {
                    prompt.stage = Stage::Finished;
                    prompt.failure = Some(PickerFailure::ReadSelection);
                    (
                        prompt,
                        PickerRequest::Fail {
                            failure: PickerFailure::ReadSelection,
                            message: PickerFailure::ReadSelection.message(),
                        },
                    )
                },
            },
            Stage::Finished => (prompt, PickerRequest::Closed),
        }
    }
}

} // verus!
