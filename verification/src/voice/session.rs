//! The recording session of the plain dictation tool: menu clicks and
//! hotkey events turned into state changes and commands.

use vstd::prelude::*;
use crate::keys::KeyEvent;
use crate::sound::Sound;
use crate::ui::TrayTitle;

verus! {

/// The events that drive the tool: the flag of `StartRecording` asks for a
/// meeting memo.
#[derive(Clone, Copy, Debug, PartialEq, Eq, Structural)]
pub enum AppEvent {
    StartRecording(bool),
    StopRecording,
}

/// The entries of the tray menu that can be clicked.
#[derive(Clone, Copy, Debug, PartialEq, Eq, Structural)]
pub enum MenuItem {
    Record,
    Memo,
    Quit,
}

/// What the event loop is asked to do.
#[derive(Debug)]
pub enum Command {
    /// Leave the event loop.
    Exit,
    /// Post an event to the event loop.
    SendEvent(AppEvent),
    /// Show this title in the menu bar.
    SetTitle(TrayTitle),
    /// Relabel the "record" menu entry.
    SetRecordItemText(String),
    /// Relabel the "meeting memo" menu entry.
    SetMemoItemText(String),
    /// Start capturing audio, then report with `on_capture_started`.
    StartCapture,
    /// Stop capturing audio and keep what was captured.
    StopCapture,
    /// Play a feedback sound.
    PlaySound(Sound),
    /// Transcribe and process the captured audio.
    Process { is_memo: bool },
}

/// A [`Command`] with its texts as character sequences.
pub enum CommandView {
    Exit,
    SendEvent(AppEvent),
    SetTitle(TrayTitle),
    SetRecordItemText(Seq<char>),
    SetMemoItemText(Seq<char>),
    StartCapture,
    StopCapture,
    PlaySound(Sound),
    Process { is_memo: bool },
}

impl DeepView for Command {
    type V = CommandView;

    open spec fn deep_view(&self) -> CommandView {
        match self {
            Command::Exit => CommandView::Exit,
            Command::SendEvent(e) => CommandView::SendEvent(*e),
            Command::SetTitle(t) => CommandView::SetTitle(*t),
            Command::SetRecordItemText(t) => CommandView::SetRecordItemText(t@),
            Command::SetMemoItemText(t) => CommandView::SetMemoItemText(t@),
            Command::StartCapture => CommandView::StartCapture,
            Command::StopCapture => CommandView::StopCapture,
            Command::PlaySound(s) => CommandView::PlaySound(*s),
            Command::Process { is_memo } => CommandView::Process { is_memo: *is_memo },
        }
    }
}

/// The state that the event loop keeps between events.
pub struct Session {
    recording: bool,
    memo: bool,
    record_item_stop: bool,
    memo_item_stop: bool,
    title: TrayTitle,
}

/// The abstract state of a [`Session`].
pub struct SessionView {
    /// Audio is being captured.
    pub is_recording: bool,
    /// The current (or last) recording is a meeting memo.
    pub is_memo: bool,
    /// The record entry reads "Stop Recording" (else "Start Recording").
    pub record_item_stop: bool,
    /// The memo entry reads "Stop Meeting Memo" (else "Start Meeting Memo").
    pub memo_item_stop: bool,
    /// The menu-bar title.
    pub title: TrayTitle,
}

impl View for Session {
    type V = SessionView;

    closed spec fn view(&self) -> SessionView {
        SessionView {
            is_recording: self.recording,
            is_memo: self.memo,
            record_item_stop: self.record_item_stop,
            memo_item_stop: self.memo_item_stop,
            title: self.title,
        }
    }
}

/// The state at start-up.
pub open spec fn initial_view() -> SessionView {
    SessionView {
        is_recording: false,
        is_memo: false,
        record_item_stop: false,
        memo_item_stop: false,
        title: TrayTitle::Idle,
    }
}

/// Each menu entry offers to stop exactly the kind of recording that runs.
pub open spec fn wf_view(s: SessionView) -> bool {
    &&& s.record_item_stop == (s.is_recording && !s.is_memo)
    &&& s.memo_item_stop == (s.is_recording && s.is_memo)
}

/// What a click on a menu entry asks for.
pub open spec fn menu_spec(s: SessionView, item: MenuItem) -> Seq<CommandView> {
    match item {
        MenuItem::Quit => seq![CommandView::Exit],
        MenuItem::Record => if s.is_recording {
            seq![CommandView::SendEvent(AppEvent::StopRecording)]
        } else {
            seq![CommandView::SendEvent(AppEvent::StartRecording(false))]
        },
        MenuItem::Memo => if s.is_recording {
            seq![CommandView::SendEvent(AppEvent::StopRecording)]
        } else {
            seq![CommandView::SendEvent(AppEvent::StartRecording(true))]
        },
    }
}

/// The next state and the commands for an app event.
pub open spec fn event_spec(s: SessionView, e: AppEvent) -> (SessionView, Seq<CommandView>) {
    match e {
        AppEvent::StartRecording(m) => if s.is_recording {
            (s, Seq::empty())
        } else if m {
            (
                SessionView { is_recording: true, is_memo: true, memo_item_stop: true, title: TrayTitle::Memo, ..s },
                seq![
                    CommandView::SetTitle(TrayTitle::Memo),
                    CommandView::SetMemoItemText("Stop Meeting Memo"@),
                    CommandView::StartCapture,
                ],
            )
        } else {
            (
                SessionView { is_recording: true, is_memo: false, record_item_stop: true, title: TrayTitle::Recording, ..s },
                seq![
                    CommandView::SetTitle(TrayTitle::Recording),
                    CommandView::SetRecordItemText("Stop Recording"@),
                    CommandView::StartCapture,
                ],
            )
        },
        AppEvent::StopRecording => if !s.is_recording {
            (s, Seq::empty())
        } else {
            (
                SessionView {
                    is_recording: false,
                    record_item_stop: false,
                    memo_item_stop: false,
                    title: TrayTitle::Processing,
                    ..s
                },
                seq![
                    CommandView::SetTitle(TrayTitle::Idle),
                    CommandView::SetRecordItemText("Start Recording"@),
                    CommandView::SetMemoItemText("Start Meeting Memo"@),
                    CommandView::StopCapture,
                    CommandView::PlaySound(Sound::Stop),
                    CommandView::SetTitle(TrayTitle::Processing),
                    CommandView::Process { is_memo: s.is_memo },
                ],
            )
        },
    }
}

/// What follows an attempt to start capturing audio.
pub open spec fn capture_started_spec(ok: bool) -> Seq<CommandView> {
    if ok {
        seq![CommandView::PlaySound(Sound::Start)]
    } else {
        Seq::empty()
    }
}

/// The app event that the hotkey listener posts for a key event.
pub open spec fn key_event_spec(k: KeyEvent) -> Option<AppEvent> {
    match k {
        KeyEvent::Press { is_target } => if is_target {
            Some(AppEvent::StartRecording(false))
        } else {
            None
        },
        KeyEvent::Release { is_target } => if is_target {
            Some(AppEvent::StopRecording)
        } else {
            None
        },
        KeyEvent::Other => None,
    }
}

/// The app event that the hotkey listener posts for a key event: holding the
/// hotkey starts a dictation, letting it go stops it.
pub fn on_key_event(k: KeyEvent) -> (res: Option<AppEvent>)
    ensures
        res == key_event_spec(k),
{
    match k {
        KeyEvent::Press { is_target } => if is_target {
            Some(AppEvent::StartRecording(false))
        } else {
            None
        },
        KeyEvent::Release { is_target } => if is_target {
            Some(AppEvent::StopRecording)
        } else {
            None
        },
        KeyEvent::Other => None,
    }
}

/// What follows an attempt to start capturing audio.
pub fn on_capture_started(ok: bool) -> (res: Vec<Command>)
    ensures
        res.deep_view() == capture_started_spec(ok),
{
    let mut v: Vec<Command> = Vec::new();
    if ok {
        v.push(Command::PlaySound(Sound::Start));
    }
    assert(v.deep_view() =~= capture_started_spec(ok));
    v
}

impl Session {
    /// The state at start-up: idle.
    pub fn new() -> (res: Session)
        ensures
            res@ == initial_view(),
    {
        Session {
            recording: false,
            memo: false,
            record_item_stop: false,
            memo_item_stop: false,
            title: TrayTitle::Idle,
        }
    }

    /// Whether audio is being captured.
    pub fn is_recording(&self) -> (res: bool)
        ensures
            res == self@.is_recording,
    {
        self.recording
    }

    /// Whether the current (or last) recording is a meeting memo.
    pub fn is_memo(&self) -> (res: bool)
        ensures
            res == self@.is_memo,
    {
        self.memo
    }

    /// The menu-bar title.
    pub fn title(&self) -> (res: TrayTitle)
        ensures
            res == self@.title,
    {
        self.title
    }

    /// What a click on a menu entry asks for; the state does not change.
    pub fn on_menu(&self, item: MenuItem) -> (res: Vec<Command>)
        ensures
            res.deep_view() == menu_spec(self@, item),
    {
        let mut v: Vec<Command> = Vec::new();
        match item {
            MenuItem::Quit => {
                v.push(Command::Exit);
            },
            MenuItem::Record => {
                if self.recording {
                    v.push(Command::SendEvent(AppEvent::StopRecording));
                } else {
                    v.push(Command::SendEvent(AppEvent::StartRecording(false)));
                }
            },
            MenuItem::Memo => {
                if self.recording {
                    v.push(Command::SendEvent(AppEvent::StopRecording));
                } else {
                    v.push(Command::SendEvent(AppEvent::StartRecording(true)));
                }
            },
        }
        assert(v.deep_view() =~= menu_spec(self@, item));
        v
    }

    /// Carries out an app event: updates the state and returns what the
    /// event loop must do, in order.
    pub fn on_event(&mut self, e: AppEvent) -> (res: Vec<Command>)
        ensures
            (final(self)@, res.deep_view()) == event_spec(old(self)@, e),
    {
        let mut v: Vec<Command> = Vec::new();
        match e {
            AppEvent::StartRecording(m) => {
                if !self.recording {
                    self.recording = true;
                    self.memo = m;
                    if m {
                        self.memo_item_stop = true;
                        self.title = TrayTitle::Memo;
                        v.push(Command::SetTitle(TrayTitle::Memo));
                        v.push(Command::SetMemoItemText("Stop Meeting Memo".to_owned()));
                    } else {
                        self.record_item_stop = true;
                        self.title = TrayTitle::Recording;
                        v.push(Command::SetTitle(TrayTitle::Recording));
                        v.push(Command::SetRecordItemText("Stop Recording".to_owned()));
                    }
                    v.push(Command::StartCapture);
                }
            },
            AppEvent::StopRecording => {
                if self.recording {
                    self.recording = false;
                    self.record_item_stop = false;
                    self.memo_item_stop = false;
                    self.title = TrayTitle::Processing;
                    v.push(Command::SetTitle(TrayTitle::Idle));
                    v.push(Command::SetRecordItemText("Start Recording".to_owned()));
                    v.push(Command::SetMemoItemText("Start Meeting Memo".to_owned()));
                    v.push(Command::StopCapture);
                    v.push(Command::PlaySound(Sound::Stop));
                    v.push(Command::SetTitle(TrayTitle::Processing));
                    v.push(Command::Process { is_memo: self.memo });
                }
            },
        }
        assert(v.deep_view() =~= event_spec(old(self)@, e).1);
        v
    }
}

/// The tool starts with a truthful menu.
pub proof fn lemma_initial_wf()
    ensures
        wf_view(initial_view()),
{
}

/// Every app event keeps the menu truthful.
pub proof fn lemma_event_keeps_wf(s: SessionView, e: AppEvent)
    requires
        wf_view(s),
    ensures
        wf_view(event_spec(s, e).0),
{
}

/// A request to start while recording, or to stop while idle, changes
/// nothing and does nothing.
pub proof fn lemma_redundant_requests_ignored(s: SessionView, m: bool)
    ensures
        s.is_recording ==> event_spec(s, AppEvent::StartRecording(m)) == (s, Seq::<CommandView>::empty()),
        !s.is_recording ==> event_spec(s, AppEvent::StopRecording) == (s, Seq::<CommandView>::empty()),
{
}

/// Starting and then stopping a recording hands it to processing in the
/// mode it was started in and leaves the session idle with its menu reset.
pub proof fn lemma_start_then_stop(s: SessionView, m: bool)
    requires
        wf_view(s),
        !s.is_recording,
    ensures
        ({
            let (s1, c1) = event_spec(s, AppEvent::StartRecording(m));
            let (s2, c2) = event_spec(s1, AppEvent::StopRecording);
            &&& s1.is_recording
            &&& c1.last() == CommandView::StartCapture
            &&& !s2.is_recording
            &&& !s2.record_item_stop
            &&& !s2.memo_item_stop
            &&& c2.contains(CommandView::StopCapture)
            &&& c2.last() == CommandView::Process { is_memo: m }
        }),
{
    let (s1, c1) = event_spec(s, AppEvent::StartRecording(m));
    let (s2, c2) = event_spec(s1, AppEvent::StopRecording);
    assert(c2[3] == CommandView::StopCapture);
}

/// Clicking "record" or "memo" and handling the event it posts flips
/// between recording and not recording.
pub proof fn lemma_menu_click_toggles(s: SessionView, item: MenuItem)
    requires
        item == MenuItem::Record || item == MenuItem::Memo,
    ensures
        menu_spec(s, item).len() == 1,
        menu_spec(s, item)[0] matches CommandView::SendEvent(e)
            && event_spec(s, e).0.is_recording == !s.is_recording,
{
}

/// The last title that a list of commands shows, if it shows any.
pub open spec fn last_title(cmds: Seq<CommandView>) -> Option<TrayTitle>
    decreases cmds.len(),
{
    if cmds.len() == 0 {
        None
    } else {
        match cmds.last() {
            CommandView::SetTitle(t) => Some(t),
            _ => last_title(cmds.drop_last()),
        }
    }
}

/// The menu-bar icon always shows the session's title: after an event's
/// commands are carried out, the title last shown is the new state's title,
/// and an event that shows no title leaves the title as it was.
pub proof fn lemma_title_follows_state(s: SessionView, e: AppEvent)
    ensures
        ({
            let (s1, cmds) = event_spec(s, e);
            match last_title(cmds) {
                Some(t) => t == s1.title,
                None => s1.title == s.title,
            }
        }),
{
    let (s1, cmds) = event_spec(s, e);
    reveal_with_fuel(last_title, 8);
}

/// While nothing is recorded, "Start Recording" starts a dictation and
/// "Start Meeting Memo" starts a memo, and nothing else; while recording,
/// either entry stops the recording.
pub proof fn lemma_menu_starts_the_named_kind(s: SessionView)
    ensures
        !s.is_recording ==> menu_spec(s, MenuItem::Record) == seq![
            CommandView::SendEvent(AppEvent::StartRecording(false)),
        ],
        !s.is_recording ==> menu_spec(s, MenuItem::Memo) == seq![
            CommandView::SendEvent(AppEvent::StartRecording(true)),
        ],
        s.is_recording ==> menu_spec(s, MenuItem::Record) == seq![
            CommandView::SendEvent(AppEvent::StopRecording),
        ],
        s.is_recording ==> menu_spec(s, MenuItem::Memo) == seq![
            CommandView::SendEvent(AppEvent::StopRecording),
        ],
        !s.is_recording ==> (menu_spec(s, MenuItem::Record)[0] matches CommandView::SendEvent(e) && {
            let s1 = event_spec(s, e).0;
            s1.is_recording && !s1.is_memo
        }),
        !s.is_recording ==> (menu_spec(s, MenuItem::Memo)[0] matches CommandView::SendEvent(e) && {
            let s1 = event_spec(s, e).0;
            s1.is_recording && s1.is_memo
        }),
{
}

/// "Quit" exits; a failed capture is followed by nothing, a started one by
/// the start sound; keys other than the hotkey post nothing; holding and
/// releasing the hotkey starts and stops a dictation.
pub proof fn lemma_quit_capture_and_keys()
    ensures
        menu_spec(initial_view(), MenuItem::Quit) == seq![CommandView::Exit],
        capture_started_spec(false).len() == 0,
        capture_started_spec(true) == seq![CommandView::PlaySound(Sound::Start)],
        key_event_spec(KeyEvent::Other) is None,
        key_event_spec(KeyEvent::Press { is_target: false }) is None,
        key_event_spec(KeyEvent::Release { is_target: false }) is None,
        key_event_spec(KeyEvent::Press { is_target: true }) == Some(AppEvent::StartRecording(false)),
        key_event_spec(KeyEvent::Release { is_target: true }) == Some(AppEvent::StopRecording),
{
}

} // verus!
