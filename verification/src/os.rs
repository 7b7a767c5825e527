//! The cycles that touch the clipboard and the keyboard: capture of the
//! selection, replacement of the selection by paste, and retyping.
//!
//! A cycle is a state machine. Its state says what it waits for the outside
//! to do (`pending`); the event that reports the outcome moves it on. Both
//! clipboard cycles begin by reading the clipboard and keep what they read
//! until they write it back, so that the user's clipboard survives them.
//! Running two cycles at once would let one restore over the other: whoever
//! drives them runs one at a time.

use vstd::prelude::*;

verus! {

/// How long to wait after the copy chord before the clipboard is read, in
/// milliseconds.
pub const COPY_SETTLE_MS: u64 = 80;

/// How long to wait after the paste chord before the clipboard is restored,
/// in milliseconds.
pub const PASTE_SETTLE_MS: u64 = 180;

/// How long to wait after each retyped key, in milliseconds.
pub const KEY_PAUSE_MS: u64 = 16;

/// Which clipboard operation failed.
#[derive(Clone, Copy, Debug, PartialEq, Eq, Structural)]
pub enum ClipboardError {
    Open,
    Read,
    Write,
}

impl ClipboardError {
    /// The text of the error.
    pub open spec fn text(self) -> Seq<char> {
        match self {
            ClipboardError::Open => "clipboard open"@,
            ClipboardError::Read => "clipboard read"@,
            ClipboardError::Write => "set clipboard"@,
        }
    }

    /// The error as a message for the user.
    pub fn message(&self) -> (r: String)
        ensures
            r@ == self.text(),
    {
        match self {
            ClipboardError::Open => String::from_str("clipboard open"),
            ClipboardError::Read => String::from_str("clipboard read"),
            ClipboardError::Write => String::from_str("set clipboard"),
        }
    }
}

/// A key pressed together with the platform's command modifier.
#[derive(Clone, Copy, Debug, PartialEq, Eq, Structural)]
pub enum Chord {
    /// The modifier with `c`.
    Copy,
    /// The modifier with `v`.
    Paste,
}

/// What a cycle waits for.
#[derive(Debug, PartialEq, Eq)]
pub enum CycleAction {
    /// Read the text of the clipboard and report it.
    ReadText,
    /// Write this text to the clipboard.
    WriteText(String),
    /// Synthesize this chord.
    Press(Chord),
    /// Wait this many milliseconds.
    Settle(u64),
    /// Nothing more: the capture ended with this text.
    Return(String),
    /// Nothing more: the replacement is done.
    Finished,
    /// Nothing more: the cycle ended with this error.
    Fail(ClipboardError),
}

/// [`CycleAction`] as mathematics.
pub enum ActionModel {
    ReadText,
    WriteText(Seq<char>),
    Press(Chord),
    Settle(u64),
    Return(Seq<char>),
    Finished,
    Fail(ClipboardError),
}

impl View for CycleAction {
    type V = ActionModel;

    open spec fn view(&self) -> ActionModel {
        match *self {
            CycleAction::ReadText => ActionModel::ReadText,
            CycleAction::WriteText(t) => ActionModel::WriteText(t@),
            CycleAction::Press(c) => ActionModel::Press(c),
            CycleAction::Settle(ms) => ActionModel::Settle(ms),
            CycleAction::Return(t) => ActionModel::Return(t@),
            CycleAction::Finished => ActionModel::Finished,
            CycleAction::Fail(e) => ActionModel::Fail(e),
        }
    }
}

/// What came of the action that a cycle waited for.
#[derive(Debug, PartialEq, Eq)]
pub enum CycleEvent {
    /// The clipboard was read and held this text.
    Text(String),
    /// The text was written, the chord pressed or the time waited.
    Done,
    /// The clipboard could not be opened, read or written.
    Failed(ClipboardError),
}

/// [`CycleEvent`] as mathematics.
pub enum EventModel {
    Text(Seq<char>),
    Done,
    Failed(ClipboardError),
}

impl View for CycleEvent {
    type V = EventModel;

    open spec fn view(&self) -> EventModel {
        match *self {
            CycleEvent::Text(t) => EventModel::Text(t@),
            CycleEvent::Done => EventModel::Done,
            CycleEvent::Failed(e) => EventModel::Failed(e),
        }
    }
}

/// Whether an event reports the outcome of an action. A failure answers
/// every action that can fail; it is dealt with apart.
pub open spec fn answers(event: EventModel, action: ActionModel) -> bool {
    match (event, action) {
        (EventModel::Text(_), ActionModel::ReadText) => true,
        (EventModel::Done, ActionModel::WriteText(_)) => true,
        (EventModel::Done, ActionModel::Press(_)) => true,
        (EventModel::Done, ActionModel::Settle(_)) => true,
        _ => false,
    }
}

/// The text that the first successful read of a run reported: the content
/// of the clipboard before the cycle touched it.
pub open spec fn first_text(events: Seq<EventModel>) -> Option<Seq<char>>
    decreases events.len(),
{
    if events.len() == 0 {
        None
    } else {
        match first_text(events.drop_last()) {
            Some(t) => Some(t),
            None => match events.last() {
                EventModel::Text(t) => Some(t),
                _ => None,
            },
        }
    }
}

/// Where a capture stands.
#[derive(Clone, Copy, Debug, PartialEq, Eq, Structural)]
pub enum CaptureStage {
    /// Waiting for the clipboard's text, to keep it as the backup.
    Snapshot,
    /// Waiting for the copy chord.
    Copy,
    /// Waiting for the clipboard to take the selection.
    Settle,
    /// Waiting for the clipboard's text, to see what was copied.
    Read,
    /// Waiting for the backup to be written back.
    Restore,
    /// Over, with a text to return.
    Returned,
    /// Over, with an error.
    Failed(ClipboardError),
}

/// A capture as mathematics.
pub struct CaptureModel {
    pub stage: CaptureStage,
    /// What the clipboard held before the cycle, once it has been read.
    pub backup: Seq<char>,
    /// What the capture returns, once it is known.
    pub copied: Seq<char>,
}

/// The capture before anything has happened.
pub open spec fn capture_start() -> CaptureModel {
    CaptureModel { stage: CaptureStage::Snapshot, backup: Seq::empty(), copied: Seq::empty() }
}

/// What a capture waits for.
pub open spec fn capture_pending(m: CaptureModel) -> ActionModel {
    match m.stage {
        CaptureStage::Snapshot => ActionModel::ReadText,
        CaptureStage::Copy => ActionModel::Press(Chord::Copy),
        CaptureStage::Settle => ActionModel::Settle(COPY_SETTLE_MS),
        CaptureStage::Read => ActionModel::ReadText,
        CaptureStage::Restore => ActionModel::WriteText(m.backup),
        CaptureStage::Returned => ActionModel::Return(m.copied),
        CaptureStage::Failed(e) => ActionModel::Fail(e),
    }
}

/// Whether a capture is over.
pub open spec fn capture_over(m: CaptureModel) -> bool {
    m.stage is Returned || m.stage is Failed
}

/// The capture after an event.
///
/// A capture that is over stays as it is. A failure ends it at once, with
/// nothing more asked of the clipboard. An event that does not answer the
/// pending action changes nothing. Otherwise the capture moves on: it keeps
/// the first text as the backup, has the selection copied, waits, and reads
/// again. If the clipboard still holds the backup, nothing was selected and
/// the capture returns the empty text. If not, it has the backup written
/// back and then returns what was copied.
pub open spec fn capture_next(m: CaptureModel, event: EventModel) -> CaptureModel {
    if capture_over(m) {
        m
    } else if event is Failed {
        CaptureModel { stage: CaptureStage::Failed(event->Failed_0), ..m }
    } else if !answers(event, capture_pending(m)) {
        m
    } else {
        match m.stage {
            CaptureStage::Snapshot => CaptureModel {
                stage: CaptureStage::Copy,
                backup: event->Text_0,
                ..m
            },
            CaptureStage::Copy => CaptureModel { stage: CaptureStage::Settle, ..m },
            CaptureStage::Settle => CaptureModel { stage: CaptureStage::Read, ..m },
            CaptureStage::Read => if event->Text_0 == m.backup {
                CaptureModel { stage: CaptureStage::Returned, copied: Seq::empty(), ..m }
            } else {
                CaptureModel { stage: CaptureStage::Restore, copied: event->Text_0, ..m }
            },
            _ => CaptureModel { stage: CaptureStage::Returned, ..m },
        }
    }
}

/// The capture after a run of events, from the start.
pub open spec fn capture_run(events: Seq<EventModel>) -> CaptureModel
    decreases events.len(),
{
    if events.len() == 0 {
        capture_start()
    } else {
        capture_next(capture_run(events.drop_last()), events.last())
    }
}

/// One capture of the selected text.
pub struct CaptureCycle {
    stage: CaptureStage,
    backup: String,
    copied: String,
}

impl View for CaptureCycle {
    type V = CaptureModel;

    closed spec fn view(&self) -> CaptureModel {
        CaptureModel { stage: self.stage, backup: self.backup@, copied: self.copied@ }
    }
}

impl CaptureCycle {
    /// A capture that has not begun.
    pub fn new() -> (r: Self)
        ensures
            r@ == capture_start(),
    {
        CaptureCycle { stage: CaptureStage::Snapshot, backup: String::new(), copied: String::new() }
    }

    /// What the capture waits for.
    pub fn pending(&self) -> (r: CycleAction)
        ensures
            r@ == capture_pending(self@),
    {
        match self.stage {
            CaptureStage::Snapshot => CycleAction::ReadText,
            CaptureStage::Copy => CycleAction::Press(Chord::Copy),
            CaptureStage::Settle => CycleAction::Settle(COPY_SETTLE_MS),
            CaptureStage::Read => CycleAction::ReadText,
            CaptureStage::Restore => CycleAction::WriteText(self.backup.clone()),
            CaptureStage::Returned => CycleAction::Return(self.copied.clone()),
            CaptureStage::Failed(e) => CycleAction::Fail(e),
        }
    }
}

/// Moves a capture of the selected text on by one event.
///
/// Begin with [`CaptureCycle::new`]; do what [`CaptureCycle::pending`] asks
/// and report the outcome here, until it asks for nothing more.
pub fn get_selected_text(cycle: &mut CaptureCycle, event: CycleEvent)
    ensures
        final(cycle)@ == capture_next(old(cycle)@, event@),
{
    match cycle.stage {
        CaptureStage::Returned => {
            return ;
        },
        CaptureStage::Failed(_) => {
            return ;
        },
        _ => {},
    }
    match event {
        CycleEvent::Failed(e) => {
            cycle.stage = CaptureStage::Failed(e);
        },
        CycleEvent::Text(text) => {
            match cycle.stage {
                CaptureStage::Snapshot => {
                    cycle.backup = text;
                    cycle.stage = CaptureStage::Copy;
                },
                CaptureStage::Read => {
                    if text == cycle.backup {
                        cycle.copied = String::new();
                        cycle.stage = CaptureStage::Returned;
                    } else {
                        cycle.copied = text;
                        cycle.stage = CaptureStage::Restore;
                    }
                },
                _ => {},
            }
        },
        CycleEvent::Done => {
            match cycle.stage {
                CaptureStage::Copy => {
                    cycle.stage = CaptureStage::Settle;
                },
                CaptureStage::Settle => {
                    cycle.stage = CaptureStage::Read;
                },
                CaptureStage::Restore => {
                    cycle.stage = CaptureStage::Returned;
                },
                _ => {},
            }
        },
    }
}

/// What holds of a capture at every point of every run: until the first
/// text has come the capture waits for it, and from then on the backup is
/// that text. A capture that has a backup to restore copied something else.
pub proof fn lemma_capture_keeps_backup(events: Seq<EventModel>)
    ensures
        ({
            let m = capture_run(events);
            &&& m.stage is Snapshot ==> first_text(events) is None
            &&& m.stage is Copy || m.stage is Settle || m.stage is Read || m.stage is Restore
                ==> first_text(events) == Some(m.backup)
            &&& m.stage is Restore ==> m.copied != m.backup
        }),
    decreases events.len(),
{
    if events.len() > 0 {
        lemma_capture_keeps_backup(events.drop_last());
    }
}

/// A capture that comes to its restore step writes back the text that the
/// clipboard held before the cycle began, and then returns what was copied.
pub proof fn lemma_capture_restores_clipboard(events: Seq<EventModel>)
    requires
        capture_run(events).stage is Restore,
    ensures
        first_text(events) is Some,
        capture_pending(capture_run(events)) == ActionModel::WriteText(first_text(events)->0),
        capture_pending(capture_run(events.push(EventModel::Done))) == ActionModel::Return(
            capture_run(events).copied,
        ),
{
    lemma_capture_keeps_backup(events);
    assert(events.push(EventModel::Done).drop_last() == events);
}

/// A capture that reads, after the copy, the very text that the clipboard
/// held before it returns the empty text.
pub proof fn lemma_capture_of_nothing_new(events: Seq<EventModel>, copied: Seq<char>)
    requires
        capture_run(events).stage is Read,
        first_text(events) == Some(copied),
    ensures
        capture_pending(capture_run(events.push(EventModel::Text(copied)))) == ActionModel::Return(
            Seq::empty(),
        ),
{
    lemma_capture_keeps_backup(events);
    assert(events.push(EventModel::Text(copied)).drop_last() == events);
}

/// Where a replacement stands.
#[derive(Clone, Copy, Debug, PartialEq, Eq, Structural)]
pub enum ReplaceStage {
    /// Waiting for the clipboard's text, to keep it as the backup.
    Snapshot,
    /// Waiting for the new text to be written to the clipboard.
    Put,
    /// Waiting for the paste chord.
    Paste,
    /// Waiting for the target to take the clipboard's content.
    Settle,
    /// Waiting for the backup to be written back.
    Restore,
    /// Over: the text was pasted and the clipboard restored.
    Finished,
    /// Over, with an error.
    Failed(ClipboardError),
}

/// A replacement as mathematics.
pub struct ReplaceModel {
    pub stage: ReplaceStage,
    /// The text to put in place of the selection.
    pub text: Seq<char>,
    /// What the clipboard held before the cycle, once it has been read.
    pub backup: Seq<char>,
}

/// The replacement by `text` before anything has happened.
pub open spec fn replace_start(text: Seq<char>) -> ReplaceModel {
    ReplaceModel { stage: ReplaceStage::Snapshot, text, backup: Seq::empty() }
}

/// What a replacement waits for.
pub open spec fn replace_pending(m: ReplaceModel) -> ActionModel {
    match m.stage {
        ReplaceStage::Snapshot => ActionModel::ReadText,
        ReplaceStage::Put => ActionModel::WriteText(m.text),
        ReplaceStage::Paste => ActionModel::Press(Chord::Paste),
        ReplaceStage::Settle => ActionModel::Settle(PASTE_SETTLE_MS),
        ReplaceStage::Restore => ActionModel::WriteText(m.backup),
        ReplaceStage::Finished => ActionModel::Finished,
        ReplaceStage::Failed(e) => ActionModel::Fail(e),
    }
}

/// Whether a replacement is over.
pub open spec fn replace_over(m: ReplaceModel) -> bool {
    m.stage is Finished || m.stage is Failed
}

/// The replacement after an event.
///
/// A replacement that is over stays as it is. A failure ends it at once: a
/// text that was pasted stays pasted, and a clipboard that was not restored
/// yet is left as it is. An event that does not answer the pending action
/// changes nothing. Otherwise the replacement moves on: it keeps the first
/// text as the backup, has the new text written and pasted, waits, and has
/// the backup written back.
pub open spec fn replace_next(m: ReplaceModel, event: EventModel) -> ReplaceModel {
    if replace_over(m) {
        m
    } else if event is Failed {
        ReplaceModel { stage: ReplaceStage::Failed(event->Failed_0), ..m }
    } else if !answers(event, replace_pending(m)) {
        m
    } else {
        match m.stage {
            ReplaceStage::Snapshot => ReplaceModel {
                stage: ReplaceStage::Put,
                backup: event->Text_0,
                ..m
            },
            ReplaceStage::Put => ReplaceModel { stage: ReplaceStage::Paste, ..m },
            ReplaceStage::Paste => ReplaceModel { stage: ReplaceStage::Settle, ..m },
            ReplaceStage::Settle => ReplaceModel { stage: ReplaceStage::Restore, ..m },
            _ => ReplaceModel { stage: ReplaceStage::Finished, ..m },
        }
    }
}

/// The replacement by `text` after a run of events, from the start.
pub open spec fn replace_run(text: Seq<char>, events: Seq<EventModel>) -> ReplaceModel
    decreases events.len(),
{
    if events.len() == 0 {
        replace_start(text)
    } else {
        replace_next(replace_run(text, events.drop_last()), events.last())
    }
}

/// One replacement of the selection by a text.
pub struct ReplaceCycle {
    stage: ReplaceStage,
    text: String,
    backup: String,
}

impl View for ReplaceCycle {
    type V = ReplaceModel;

    closed spec fn view(&self) -> ReplaceModel {
        ReplaceModel { stage: self.stage, text: self.text@, backup: self.backup@ }
    }
}

impl ReplaceCycle {
    /// A replacement by `text` that has not begun.
    pub fn new(text: String) -> (r: Self)
        ensures
            r@ == replace_start(text@),
    {
        ReplaceCycle { stage: ReplaceStage::Snapshot, text, backup: String::new() }
    }

    /// What the replacement waits for.
    pub fn pending(&self) -> (r: CycleAction)
        ensures
            r@ == replace_pending(self@),
    {
        match self.stage {
            ReplaceStage::Snapshot => CycleAction::ReadText,
            ReplaceStage::Put => CycleAction::WriteText(self.text.clone()),
            ReplaceStage::Paste => CycleAction::Press(Chord::Paste),
            ReplaceStage::Settle => CycleAction::Settle(PASTE_SETTLE_MS),
            ReplaceStage::Restore => CycleAction::WriteText(self.backup.clone()),
            ReplaceStage::Finished => CycleAction::Finished,
            ReplaceStage::Failed(e) => CycleAction::Fail(e),
        }
    }
}

/// Moves a replacement of the selection on by one event.
///
/// Begin with [`ReplaceCycle::new`]; do what [`ReplaceCycle::pending`] asks
/// and report the outcome here, until it asks for nothing more.
pub fn replace_selection_with(cycle: &mut ReplaceCycle, event: CycleEvent)
    ensures
        final(cycle)@ == replace_next(old(cycle)@, event@),
{
    match cycle.stage {
        ReplaceStage::Finished => {
            return ;
        },
        ReplaceStage::Failed(_) => {
            return ;
        },
        _ => {},
    }
    match event {
        CycleEvent::Failed(e) => {
            cycle.stage = ReplaceStage::Failed(e);
        },
        CycleEvent::Text(text) => {
            match cycle.stage {
                ReplaceStage::Snapshot => {
                    cycle.backup = text;
                    cycle.stage = ReplaceStage::Put;
                },
                _ => {},
            }
        },
        CycleEvent::Done => {
            match cycle.stage {
                ReplaceStage::Put => {
                    cycle.stage = ReplaceStage::Paste;
                },
                ReplaceStage::Paste => {
                    cycle.stage = ReplaceStage::Settle;
                },
                ReplaceStage::Settle => {
                    cycle.stage = ReplaceStage::Restore;
                },
                ReplaceStage::Restore => {
                    cycle.stage = ReplaceStage::Finished;
                },
                _ => {},
            }
        },
    }
}

/// What holds of a replacement at every point of every run: the text to
/// paste never changes; until the first text has come the replacement waits
/// for it, and from then on the backup is that text.
pub proof fn lemma_replace_keeps_backup(text: Seq<char>, events: Seq<EventModel>)
    ensures
        ({
            let m = replace_run(text, events);
            &&& m.text == text
            &&& m.stage is Snapshot ==> first_text(events) is None
            &&& m.stage is Put || m.stage is Paste || m.stage is Settle || m.stage is Restore
                ==> first_text(events) == Some(m.backup)
        }),
    decreases events.len(),
{
    if events.len() > 0 {
        lemma_replace_keeps_backup(text, events.drop_last());
    }
}

/// A replacement that comes to its restore step writes back the text that
/// the clipboard held before the cycle began, and is done after that.
pub proof fn lemma_replace_restores_clipboard(text: Seq<char>, events: Seq<EventModel>)
    requires
        replace_run(text, events).stage is Restore,
    ensures
        first_text(events) is Some,
        replace_pending(replace_run(text, events)) == ActionModel::WriteText(
            first_text(events)->0,
        ),
        replace_pending(replace_run(text, events.push(EventModel::Done))) == ActionModel::Finished,
{
    lemma_replace_keeps_backup(text, events);
    assert(events.push(EventModel::Done).drop_last() == events);
}

/// Whether a character is retyped: the visible characters of ASCII are, and
/// nothing else. A space or a line break would commit the composition.
pub open spec fn is_typed(c: char) -> bool {
    '!' <= c && c <= '~'
}

/// The keys that retyping a raw text presses, in order: one for each of its
/// characters that [`is_typed`]. Between two keys the input method is given
/// [`KEY_PAUSE_MS`] to take the composition in.
pub fn retype_key_sequence(raw_ascii: &str) -> (r: Vec<char>)
    ensures
        r@ == raw_ascii@.filter(|c: char| is_typed(c)),
        forall|i: int| 0 <= i < r.len() ==> is_typed(#[trigger] r[i]),
{
    let ghost typed = |c: char| is_typed(c);
    let mut keys: Vec<char> = Vec::new();
    for ch in it: raw_ascii.chars()
        invariant
            it.seq() == raw_ascii@,
            typed == |c: char| is_typed(c),
            keys@ == raw_ascii@.take(it.index()).filter(typed),
            forall|i: int| 0 <= i < keys.len() ==> is_typed(#[trigger] keys[i]),
    {
        proof {
            raw_ascii@.lemma_take_succ_push(it.index());
            raw_ascii@.take(it.index()).lemma_filter_push(ch, typed);
        }
        if '!' <= ch && ch <= '~' {
            keys.push(ch);
        }
    }
    assert(raw_ascii@.take(raw_ascii@.len() as int) == raw_ascii@);
    keys
}

} // verus!
