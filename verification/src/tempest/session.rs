//! The recording session: what the app does on each menu click, hotkey
//! event and processing event, as a state machine whose commands the
//! event loop carries out.

use vstd::prelude::*;
use crate::keys::KeyEvent;
use crate::sound::Sound;
use crate::ui::TrayTitle;
use crate::text::join;

verus! {

/// The events that drive the app, sent by the hotkey listener, the menu and
/// the background processing task.
#[derive(Debug)]
pub enum AppEvent {
    StartRecording(bool),
    StopRecording,
    ProcessingFinished { text: String, raw: String, is_memo: bool },
    StatusUpdate(String),
    ProcessingError(String),
}

/// An [`AppEvent`] with its texts as character sequences.
pub enum AppEventView {
    StartRecording(bool),
    StopRecording,
    ProcessingFinished { text: Seq<char>, raw: Seq<char>, is_memo: bool },
    StatusUpdate(Seq<char>),
    ProcessingError(Seq<char>),
}

impl DeepView for AppEvent {
    type V = AppEventView;

    open spec fn deep_view(&self) -> AppEventView {
        match self {
            AppEvent::StartRecording(m) => AppEventView::StartRecording(*m),
            AppEvent::StopRecording => AppEventView::StopRecording,
            AppEvent::ProcessingFinished { text, raw, is_memo } => AppEventView::ProcessingFinished {
                text: text@,
                raw: raw@,
                is_memo: *is_memo,
            },
            AppEvent::StatusUpdate(m) => AppEventView::StatusUpdate(m@),
            AppEvent::ProcessingError(m) => AppEventView::ProcessingError(m@),
        }
    }
}

/// The entries of the tray menu that can be clicked.
#[derive(Clone, Copy, Debug, PartialEq, Eq, Structural)]
pub enum MenuItem {
    Record,
    Memo,
    Copy,
    Quit,
}

/// What the event loop is asked to do.
#[derive(Debug)]
pub enum Command {
    /// Leave the event loop.
    Exit,
    /// Post an event to the event loop.
    SendEvent(AppEvent),
    /// Put the text on the clipboard, then report with `on_copied`.
    CopyToClipboard(String),
    /// Show this title in the menu bar.
    SetTitle(TrayTitle),
    /// Relabel the "record" menu entry.
    SetRecordItemText(String),
    /// Relabel the "meeting memo" menu entry.
    SetMemoItemText(String),
    /// Make the "copy last transcription" entry clickable.
    EnableCopyItem,
    /// Start capturing audio, then report with `on_capture_started`.
    StartCapture,
    /// Stop capturing audio and keep what was captured.
    StopCapture,
    /// Reopen the audio output device.
    RefreshAudio,
    /// Play a feedback sound.
    PlaySound(Sound),
    /// Hand the captured audio to the background processing task.
    Process { is_memo: bool },
    /// Show a desktop notification.
    Notify { summary: String, body: String },
    /// Type the text at the cursor.
    TypeText(String),
    /// Save a meeting memo, then report with `on_memo_written`.
    WriteMemo { summary: String, raw: String },
    /// Open the memo that was just saved.
    OpenMemo,
}

/// A [`Command`] with its texts as character sequences.
pub enum CommandView {
    Exit,
    SendEvent(AppEventView),
    CopyToClipboard(Seq<char>),
    SetTitle(TrayTitle),
    SetRecordItemText(Seq<char>),
    SetMemoItemText(Seq<char>),
    EnableCopyItem,
    StartCapture,
    StopCapture,
    RefreshAudio,
    PlaySound(Sound),
    Process { is_memo: bool },
    Notify { summary: Seq<char>, body: Seq<char> },
    TypeText(Seq<char>),
    WriteMemo { summary: Seq<char>, raw: Seq<char> },
    OpenMemo,
}

impl DeepView for Command {
    type V = CommandView;

    open spec fn deep_view(&self) -> CommandView {
        match self {
            Command::Exit => CommandView::Exit,
            Command::SendEvent(e) => CommandView::SendEvent(e.deep_view()),
            Command::CopyToClipboard(t) => CommandView::CopyToClipboard(t@),
            Command::SetTitle(t) => CommandView::SetTitle(*t),
            Command::SetRecordItemText(t) => CommandView::SetRecordItemText(t@),
            Command::SetMemoItemText(t) => CommandView::SetMemoItemText(t@),
            Command::EnableCopyItem => CommandView::EnableCopyItem,
            Command::StartCapture => CommandView::StartCapture,
            Command::StopCapture => CommandView::StopCapture,
            Command::RefreshAudio => CommandView::RefreshAudio,
            Command::PlaySound(s) => CommandView::PlaySound(*s),
            Command::Process { is_memo } => CommandView::Process { is_memo: *is_memo },
            Command::Notify { summary, body } => CommandView::Notify {
                summary: summary@,
                body: body@,
            },
            Command::TypeText(t) => CommandView::TypeText(t@),
            Command::WriteMemo { summary, raw } => CommandView::WriteMemo {
                summary: summary@,
                raw: raw@,
            },
            Command::OpenMemo => CommandView::OpenMemo,
        }
    }
}

/// The state that the event loop keeps between events.
pub struct Session {
    recording: bool,
    memo: bool,
    last_transcription: String,
    record_item_stop: bool,
    memo_item_stop: bool,
    copy_enabled: bool,
    title: TrayTitle,
}

/// The abstract state of a [`Session`].
pub struct SessionView {
    /// Audio is being captured.
    pub is_recording: bool,
    /// The current (or last) recording is a meeting memo.
    pub is_memo: bool,
    /// The last dictation that was typed.
    pub last: Seq<char>,
    /// The record entry reads "Stop Recording" (else "Start Recording").
    pub record_item_stop: bool,
    /// The memo entry reads "Stop Meeting Memo" (else "Start Meeting Memo").
    pub memo_item_stop: bool,
    /// The "copy last transcription" entry is clickable.
    pub copy_enabled: bool,
    /// The menu-bar title.
    pub title: TrayTitle,
}

impl View for Session {
    type V = SessionView;

    closed spec fn view(&self) -> SessionView {
        SessionView {
            is_recording: self.recording,
            is_memo: self.memo,
            last: self.last_transcription@,
            record_item_stop: self.record_item_stop,
            memo_item_stop: self.memo_item_stop,
            copy_enabled: self.copy_enabled,
            title: self.title,
        }
    }
}

/// The state at start-up.
pub open spec fn initial_view() -> SessionView {
    SessionView {
        is_recording: false,
        is_memo: false,
        last: Seq::empty(),
        record_item_stop: false,
        memo_item_stop: false,
        copy_enabled: false,
        title: TrayTitle::Idle,
    }
}

/// The menu always tells the truth: each entry offers to stop exactly the
/// kind of recording that is running, and "copy" is clickable exactly when
/// there is a transcription to copy.
pub open spec fn wf_view(s: SessionView) -> bool {
    &&& s.record_item_stop == (s.is_recording && !s.is_memo)
    &&& s.memo_item_stop == (s.is_recording && s.is_memo)
    &&& s.copy_enabled == (s.last.len() > 0)
}

/// What a click on a menu entry asks for.
pub open spec fn menu_spec(s: SessionView, item: MenuItem) -> Seq<CommandView> {
    match item {
        MenuItem::Quit => seq![CommandView::Exit],
        MenuItem::Copy => if s.last.len() > 0 {
            seq![CommandView::CopyToClipboard(s.last)]
        } else {
            Seq::empty()
        },
        MenuItem::Record => if s.is_recording {
            seq![CommandView::SendEvent(AppEventView::StopRecording)]
        } else {
            seq![CommandView::SendEvent(AppEventView::StartRecording(false))]
        },
        MenuItem::Memo => if s.is_recording {
            seq![CommandView::SendEvent(AppEventView::StopRecording)]
        } else {
            seq![CommandView::SendEvent(AppEventView::StartRecording(true))]
        },
    }
}

/// The next state and the commands for an app event.
pub open spec fn event_spec(s: SessionView, e: AppEventView) -> (SessionView, Seq<CommandView>) {
    match e {
        AppEventView::StartRecording(m) => if s.is_recording {
            (s, Seq::empty())
        } else if m {
            (
                SessionView { is_recording: true, is_memo: true, memo_item_stop: true, title: TrayTitle::Memo, ..s },
                seq![
                    CommandView::SetTitle(TrayTitle::Memo),
                    CommandView::SetMemoItemText("Stop Meeting Memo"@),
                    CommandView::StartCapture,
                ],
            )
        } else {
            (
                SessionView { is_recording: true, is_memo: false, record_item_stop: true, title: TrayTitle::Recording, ..s },
                seq![
                    CommandView::SetTitle(TrayTitle::Recording),
                    CommandView::SetRecordItemText("Stop Recording"@),
                    CommandView::StartCapture,
                ],
            )
        },
        AppEventView::StopRecording => if !s.is_recording {
            (s, Seq::empty())
        } else {
            (
                SessionView {
                    is_recording: false,
                    record_item_stop: false,
                    memo_item_stop: false,
                    title: TrayTitle::Processing,
                    ..s
                },
                seq![
                    CommandView::SetTitle(TrayTitle::Idle),
                    CommandView::SetRecordItemText("Start Recording"@),
                    CommandView::SetMemoItemText("Start Meeting Memo"@),
                    CommandView::StopCapture,
                    CommandView::PlaySound(Sound::Stop),
                    CommandView::SetTitle(TrayTitle::Processing),
                    CommandView::Process { is_memo: s.is_memo },
                ],
            )
        },
        AppEventView::StatusUpdate(msg) => (
            SessionView { title: TrayTitle::Thinking, ..s },
            seq![
                CommandView::Notify { summary: "Tempest Type"@, body: msg },
                CommandView::SetTitle(TrayTitle::Thinking),
            ],
        ),
        AppEventView::ProcessingFinished { text, raw, is_memo } => if is_memo {
            (
                SessionView { title: TrayTitle::Idle, ..s },
                seq![
                    CommandView::SetTitle(TrayTitle::Idle),
                    CommandView::WriteMemo { summary: text, raw },
                ],
            )
        } else if text.len() > 0 {
            (
                SessionView { title: TrayTitle::Idle, last: text, copy_enabled: true, ..s },
                seq![
                    CommandView::SetTitle(TrayTitle::Idle),
                    CommandView::EnableCopyItem,
                    CommandView::TypeText(text),
                ],
            )
        } else {
            (SessionView { title: TrayTitle::Idle, ..s }, seq![CommandView::SetTitle(TrayTitle::Idle)])
        },
        AppEventView::ProcessingError(msg) => (
            SessionView { title: TrayTitle::Idle, ..s },
            seq![
                CommandView::SetTitle(TrayTitle::Idle),
                CommandView::Notify { summary: "Tempest Type Error"@, body: msg },
            ],
        ),
    }
}

/// What follows an attempt to start capturing audio.
pub open spec fn capture_started_spec(ok: bool) -> Seq<CommandView> {
    if ok {
        seq![CommandView::RefreshAudio, CommandView::PlaySound(Sound::Start)]
    } else {
        Seq::empty()
    }
}

/// What follows an attempt to copy to the clipboard.
pub open spec fn copied_spec(ok: bool) -> Seq<CommandView> {
    if ok {
        seq![CommandView::PlaySound(Sound::Success)]
    } else {
        Seq::empty()
    }
}

/// What follows an attempt to save a memo under `filename`.
pub open spec fn memo_written_spec(ok: bool, filename: Seq<char>) -> Seq<CommandView> {
    if ok {
        seq![
            CommandView::Notify { summary: "Memo Saved"@, body: "Saved as "@ + filename },
            CommandView::PlaySound(Sound::Success),
            CommandView::OpenMemo,
        ]
    } else {
        Seq::empty()
    }
}

/// The app event that the hotkey listener posts for a key event.
pub open spec fn key_event_spec(k: KeyEvent) -> Option<AppEventView> {
    match k {
        KeyEvent::Press { is_target } => if is_target {
            Some(AppEventView::StartRecording(false))
        } else {
            None
        },
        KeyEvent::Release { is_target } => if is_target {
            Some(AppEventView::StopRecording)
        } else {
            None
        },
        KeyEvent::Other => None,
    }
}

/// The app event that the hotkey listener posts for a key event: holding the
/// hotkey starts a dictation, letting it go stops it.
pub fn on_key_event(k: KeyEvent) -> (res: Option<AppEvent>)
    ensures
        res.deep_view() == key_event_spec(k),
{
    match k {
        KeyEvent::Press { is_target } => if is_target {
            Some(AppEvent::StartRecording(false))
        } else {
            None
        },
        KeyEvent::Release { is_target } => if is_target {
            Some(AppEvent::StopRecording)
        } else {
            None
        },
        KeyEvent::Other => None,
    }
}

/// What follows an attempt to start capturing audio.
pub fn on_capture_started(ok: bool) -> (res: Vec<Command>)
    ensures
        res.deep_view() == capture_started_spec(ok),
{
    let mut v: Vec<Command> = Vec::new();
    if ok {
        v.push(Command::RefreshAudio);
        v.push(Command::PlaySound(Sound::Start));
    }
    assert(v.deep_view() =~= capture_started_spec(ok));
    v
}

/// What follows an attempt to copy to the clipboard.
pub fn on_copied(ok: bool) -> (res: Vec<Command>)
    ensures
        res.deep_view() == copied_spec(ok),
{
    let mut v: Vec<Command> = Vec::new();
    if ok {
        v.push(Command::PlaySound(Sound::Success));
    }
    assert(v.deep_view() =~= copied_spec(ok));
    v
}

/// What follows an attempt to save a memo under `filename`.
pub fn on_memo_written(ok: bool, filename: &str) -> (res: Vec<Command>)
    ensures
        res.deep_view() == memo_written_spec(ok, filename@),
{
    let mut v: Vec<Command> = Vec::new();
    if ok {
        v.push(Command::Notify { summary: "Memo Saved".to_owned(), body: join("Saved as ", filename) });
        v.push(Command::PlaySound(Sound::Success));
        v.push(Command::OpenMemo);
    }
    assert(v.deep_view() =~= memo_written_spec(ok, filename@));
    v
}

impl Session {
    /// The state at start-up: idle, nothing transcribed yet.
    pub fn new() -> (res: Session)
        ensures
            res@ == initial_view(),
    {
        Session {
            recording: false,
            memo: false,
            last_transcription: String::new(),
            record_item_stop: false,
            memo_item_stop: false,
            copy_enabled: false,
            title: TrayTitle::Idle,
        }
    }

    /// Whether audio is being captured.
    pub fn is_recording(&self) -> (res: bool)
        ensures
            res == self@.is_recording,
    {
        self.recording
    }

    /// Whether the current (or last) recording is a meeting memo.
    pub fn is_memo(&self) -> (res: bool)
        ensures
            res == self@.is_memo,
    {
        self.memo
    }

    /// The last dictation that was typed.
    pub fn last_transcription(&self) -> (res: &str)
        ensures
            res@ == self@.last,
    {
        self.last_transcription.as_str()
    }

    /// The menu-bar title.
    pub fn title(&self) -> (res: TrayTitle)
        ensures
            res == self@.title,
    {
        self.title
    }

    /// What a click on a menu entry asks for; the state does not change.
    pub fn on_menu(&self, item: MenuItem) -> (res: Vec<Command>)
        ensures
            res.deep_view() == menu_spec(self@, item),
    {
        let mut v: Vec<Command> = Vec::new();
        match item {
            MenuItem::Quit => {
                v.push(Command::Exit);
            },
            MenuItem::Copy => {
                if !self.last_transcription.as_str().is_empty() {
                    v.push(Command::CopyToClipboard(self.last_transcription.clone()));
                }
            },
            MenuItem::Record => {
                if self.recording {
                    v.push(Command::SendEvent(AppEvent::StopRecording));
                } else {
                    v.push(Command::SendEvent(AppEvent::StartRecording(false)));
                }
            },
            MenuItem::Memo => {
                if self.recording {
                    v.push(Command::SendEvent(AppEvent::StopRecording));
                } else {
                    v.push(Command::SendEvent(AppEvent::StartRecording(true)));
                }
            },
        }
        assert(v.deep_view() =~= menu_spec(self@, item));
        v
    }

    /// Carries out an app event: updates the state and returns what the
    /// event loop must do, in order.
    pub fn on_event(&mut self, e: AppEvent) -> (res: Vec<Command>)
        ensures
            (final(self)@, res.deep_view()) == event_spec(old(self)@, e.deep_view()),
    {
        let ghost e_view = e.deep_view();
        let mut v: Vec<Command> = Vec::new();
        match e {
            AppEvent::StartRecording(m) => {
                if !self.recording {
                    self.recording = true;
                    self.memo = m;
                    if m {
                        self.memo_item_stop = true;
                        self.title = TrayTitle::Memo;
                        v.push(Command::SetTitle(TrayTitle::Memo));
                        v.push(Command::SetMemoItemText("Stop Meeting Memo".to_owned()));
                    } else {
                        self.record_item_stop = true;
                        self.title = TrayTitle::Recording;
                        v.push(Command::SetTitle(TrayTitle::Recording));
                        v.push(Command::SetRecordItemText("Stop Recording".to_owned()));
                    }
                    v.push(Command::StartCapture);
                }
            },
            AppEvent::StopRecording => {
                if self.recording {
                    self.recording = false;
                    self.record_item_stop = false;
                    self.memo_item_stop = false;
                    self.title = TrayTitle::Processing;
                    v.push(Command::SetTitle(TrayTitle::Idle));
                    v.push(Command::SetRecordItemText("Start Recording".to_owned()));
                    v.push(Command::SetMemoItemText("Start Meeting Memo".to_owned()));
                    v.push(Command::StopCapture);
                    v.push(Command::PlaySound(Sound::Stop));
                    v.push(Command::SetTitle(TrayTitle::Processing));
                    v.push(Command::Process { is_memo: self.memo });
                }
            },
            AppEvent::StatusUpdate(msg) => {
                self.title = TrayTitle::Thinking;
                v.push(Command::Notify { summary: "Tempest Type".to_owned(), body: msg });
                v.push(Command::SetTitle(TrayTitle::Thinking));
            },
            AppEvent::ProcessingFinished { text, raw, is_memo } => {
                self.title = TrayTitle::Idle;
                v.push(Command::SetTitle(TrayTitle::Idle));
                if is_memo {
                    v.push(Command::WriteMemo { summary: text, raw });
                } else if !text.as_str().is_empty() {
                    self.last_transcription = text.clone();
                    self.copy_enabled = true;
                    v.push(Command::EnableCopyItem);
                    v.push(Command::TypeText(text));
                }
            },
            AppEvent::ProcessingError(msg) => {
                self.title = TrayTitle::Idle;
                v.push(Command::SetTitle(TrayTitle::Idle));
                v.push(Command::Notify { summary: "Tempest Type Error".to_owned(), body: msg });
            },
        }
        assert(v.deep_view() =~= event_spec(old(self)@, e_view).1);
        v
    }
}

/// The app starts with a truthful menu.
pub proof fn lemma_initial_wf()
    ensures
        wf_view(initial_view()),
{
}

/// Every app event keeps the menu truthful.
pub proof fn lemma_event_keeps_wf(s: SessionView, e: AppEventView)
    requires
        wf_view(s),
    ensures
        wf_view(event_spec(s, e).0),
{
}

/// A request to start while a recording runs changes nothing and does nothing.
pub proof fn lemma_start_ignored_while_recording(s: SessionView, m: bool)
    requires
        s.is_recording,
    ensures
        event_spec(s, AppEventView::StartRecording(m)) == (s, Seq::<CommandView>::empty()),
{
}

/// A request to stop while nothing is recorded changes nothing and does nothing.
pub proof fn lemma_stop_ignored_while_idle(s: SessionView)
    requires
        !s.is_recording,
    ensures
        event_spec(s, AppEventView::StopRecording) == (s, Seq::<CommandView>::empty()),
{
}

/// Starting and then stopping a recording captures audio, hands it to
/// processing in the mode it was started in, and leaves the session idle
/// with its menu reset and its last transcription untouched.
pub proof fn lemma_start_then_stop(s: SessionView, m: bool)
    requires
        wf_view(s),
        !s.is_recording,
    ensures
        ({
            let (s1, c1) = event_spec(s, AppEventView::StartRecording(m));
            let (s2, c2) = event_spec(s1, AppEventView::StopRecording);
            &&& s1.is_recording
            &&& c1.last() == CommandView::StartCapture
            &&& !s2.is_recording
            &&& !s2.record_item_stop
            &&& !s2.memo_item_stop
            &&& s2.last == s.last
            &&& s2.copy_enabled == s.copy_enabled
            &&& c2.contains(CommandView::StopCapture)
            &&& c2.last() == CommandView::Process { is_memo: m }
        }),
{
    let (s1, c1) = event_spec(s, AppEventView::StartRecording(m));
    let (s2, c2) = event_spec(s1, AppEventView::StopRecording);
    assert(c2[3] == CommandView::StopCapture);
}

/// Clicking "record" or "memo" and handling the event it posts flips
/// between recording and not recording.
pub proof fn lemma_menu_click_toggles(s: SessionView, item: MenuItem)
    requires
        item == MenuItem::Record || item == MenuItem::Memo,
    ensures
        menu_spec(s, item).len() == 1,
        menu_spec(s, item)[0] matches CommandView::SendEvent(e)
            && event_spec(s, e).0.is_recording == !s.is_recording,
{
}

/// Holding the hotkey starts a dictation (not a memo) and releasing it
/// stops it and sends it to processing.
pub proof fn lemma_hotkey_hold_and_release(s: SessionView)
    requires
        wf_view(s),
        !s.is_recording,
    ensures
        ({
            let press = key_event_spec(KeyEvent::Press { is_target: true });
            let release = key_event_spec(KeyEvent::Release { is_target: true });
            &&& press == Some(AppEventView::StartRecording(false))
            &&& release == Some(AppEventView::StopRecording)
            &&& {
                let (s1, _) = event_spec(s, press->0);
                let (s2, c2) = event_spec(s1, release->0);
                &&& s1.is_recording && !s1.is_memo
                &&& !s2.is_recording
                &&& c2.last() == CommandView::Process { is_memo: false }
            }
        }),
        key_event_spec(KeyEvent::Press { is_target: false }) is None,
        key_event_spec(KeyEvent::Release { is_target: false }) is None,
{
}

/// A dictation that is typed becomes what "copy last transcription" copies.
pub proof fn lemma_copy_gives_last_typed(s: SessionView, text: Seq<char>, raw: Seq<char>)
    requires
        text.len() > 0,
    ensures
        ({
            let (s1, c1) = event_spec(
                s,
                AppEventView::ProcessingFinished { text, raw, is_memo: false },
            );
            &&& c1.contains(CommandView::TypeText(text))
            &&& menu_spec(s1, MenuItem::Copy) == seq![CommandView::CopyToClipboard(text)]
        }),
{
    let (s1, c1) = event_spec(s, AppEventView::ProcessingFinished { text, raw, is_memo: false });
    assert(c1[2] == CommandView::TypeText(text));
}

/// A finished memo is saved, never typed, and leaves the last dictation as it was.
pub proof fn lemma_memo_result_saved_not_typed(s: SessionView, text: Seq<char>, raw: Seq<char>)
    ensures
        ({
            let (s1, c1) = event_spec(
                s,
                AppEventView::ProcessingFinished { text, raw, is_memo: true },
            );
            &&& s1.last == s.last
            &&& c1 == seq![
                CommandView::SetTitle(TrayTitle::Idle),
                CommandView::WriteMemo { summary: text, raw },
            ]
        }),
{
}

/// The last title that a list of commands shows, if it shows any.
pub open spec fn last_title(cmds: Seq<CommandView>) -> Option<TrayTitle>
    decreases cmds.len(),
{
    if cmds.len() == 0 {
        None
    } else {
        match cmds.last() {
            CommandView::SetTitle(t) => Some(t),
            _ => last_title(cmds.drop_last()),
        }
    }
}

/// The menu-bar icon always shows the session's title: after an event's
/// commands are carried out, the title last shown is the new state's title,
/// and an event that shows no title leaves the title as it was.
pub proof fn lemma_title_follows_state(s: SessionView, e: AppEventView)
    ensures
        ({
            let (s1, cmds) = event_spec(s, e);
            match last_title(cmds) {
                Some(t) => t == s1.title,
                None => s1.title == s.title,
            }
        }),
{
    let (s1, cmds) = event_spec(s, e);
    reveal_with_fuel(last_title, 8);
}

/// While nothing is recorded, "Start Recording" starts a dictation and
/// "Start Meeting Memo" starts a memo, and nothing else; while recording,
/// either entry stops the recording.
pub proof fn lemma_menu_starts_the_named_kind(s: SessionView)
    ensures
        !s.is_recording ==> menu_spec(s, MenuItem::Record) == seq![
            CommandView::SendEvent(AppEventView::StartRecording(false)),
        ],
        !s.is_recording ==> menu_spec(s, MenuItem::Memo) == seq![
            CommandView::SendEvent(AppEventView::StartRecording(true)),
        ],
        s.is_recording ==> menu_spec(s, MenuItem::Record) == seq![
            CommandView::SendEvent(AppEventView::StopRecording),
        ],
        s.is_recording ==> menu_spec(s, MenuItem::Memo) == seq![
            CommandView::SendEvent(AppEventView::StopRecording),
        ],
        !s.is_recording ==> (menu_spec(s, MenuItem::Record)[0] matches CommandView::SendEvent(e) && {
            let s1 = event_spec(s, e).0;
            s1.is_recording && !s1.is_memo
        }),
        !s.is_recording ==> (menu_spec(s, MenuItem::Memo)[0] matches CommandView::SendEvent(e) && {
            let s1 = event_spec(s, e).0;
            s1.is_recording && s1.is_memo
        }),
{
}

/// Notifications carry the message they report: a status update and a
/// processing error are each shown with exactly their text, and an empty
/// result is neither typed nor remembered.
pub proof fn lemma_notifications_carry_message(s: SessionView, msg: Seq<char>, raw: Seq<char>)
    ensures
        event_spec(s, AppEventView::StatusUpdate(msg)).1.contains(
            CommandView::Notify { summary: "Tempest Type"@, body: msg },
        ),
        event_spec(s, AppEventView::ProcessingError(msg)).1.contains(
            CommandView::Notify { summary: "Tempest Type Error"@, body: msg },
        ),
        event_spec(
            s,
            AppEventView::ProcessingFinished { text: Seq::empty(), raw, is_memo: false },
        ).0.last == s.last,
        !event_spec(
            s,
            AppEventView::ProcessingFinished { text: Seq::empty(), raw, is_memo: false },
        ).1.contains(CommandView::TypeText(Seq::empty())),
{
    assert(event_spec(s, AppEventView::StatusUpdate(msg)).1[0] == CommandView::Notify {
        summary: "Tempest Type"@,
        body: msg,
    });
    assert(event_spec(s, AppEventView::ProcessingError(msg)).1[1] == CommandView::Notify {
        summary: "Tempest Type Error"@,
        body: msg,
    });
    let c = event_spec(s, AppEventView::ProcessingFinished { text: Seq::empty(), raw, is_memo: false }).1;
    assert(c.len() == 1 && c[0] == CommandView::SetTitle(TrayTitle::Idle));
}

/// "Quit" exits; "Copy" copies the last transcription exactly, and does
/// nothing before there is one.
pub proof fn lemma_quit_and_copy(s: SessionView)
    ensures
        menu_spec(s, MenuItem::Quit) == seq![CommandView::Exit],
        s.last.len() > 0 ==> menu_spec(s, MenuItem::Copy) == seq![CommandView::CopyToClipboard(s.last)],
        s.last.len() == 0 ==> menu_spec(s, MenuItem::Copy).len() == 0,
{
}

/// Follow-ups happen only after success: a failed capture, copy or memo
/// write is followed by nothing; a successful one plays its sound, and a
/// saved memo is announced by a message that ends with its file name and
/// is then opened.
pub proof fn lemma_follow_ups(filename: Seq<char>)
    ensures
        capture_started_spec(false).len() == 0,
        copied_spec(false).len() == 0,
        memo_written_spec(false, filename).len() == 0,
        capture_started_spec(true).contains(CommandView::PlaySound(Sound::Start)),
        copied_spec(true).contains(CommandView::PlaySound(Sound::Success)),
        memo_written_spec(true, filename).contains(CommandView::PlaySound(Sound::Success)),
        memo_written_spec(true, filename).last() == CommandView::OpenMemo,
        memo_written_spec(true, filename)[0] matches CommandView::Notify { body, .. }
            && body.len() >= filename.len()
            && body.subrange(body.len() - filename.len(), body.len() as int) == filename,
{
    assert(capture_started_spec(true)[1] == CommandView::PlaySound(Sound::Start));
    assert(copied_spec(true)[0] == CommandView::PlaySound(Sound::Success));
    assert(memo_written_spec(true, filename)[1] == CommandView::PlaySound(Sound::Success));
    let body = "Saved as "@ + filename;
    assert(body.subrange(body.len() - filename.len(), body.len() as int) =~= filename);
}

/// Keys other than the hotkey, and other key events, post nothing.
pub proof fn lemma_other_keys_ignored()
    ensures
        key_event_spec(KeyEvent::Other) is None,
        key_event_spec(KeyEvent::Press { is_target: false }) is None,
        key_event_spec(KeyEvent::Release { is_target: false }) is None,
{
}

} // verus!
