//! The steps of loading the document from its file.
//!
//! Reading and writing the file and decoding a text or a tree into a
//! document are the caller's work. What is to be done next, given what the
//! last step brought, is decided here: a missing or blank file gives the
//! default document, which is written at once; a text that does not decode
//! is parsed as a tree, migrated and decoded again, and what comes of it is
//! written at once; any failure ends the load.
//!
//! Writing the document goes the same way: the steps that replace the file
//! are decided here, one after the other, and the caller does them. The
//! new content goes into a temporary file beside the target, and the target
//! is touched only after that file was written, flushed and synced.

use crate::json::{parse_json, parsed_json, JsonTree, JsonValue};
use crate::migrate::{document_migrated, migrated_document};
use crate::model::{default_app_data, AppData, AppDataView};
use vstd::prelude::*;

verus! {

/// `text` without the white space at its start and its end, as
/// `str::trim` gives it.
pub uninterp spec fn trimmed(text: Seq<char>) -> Seq<char>;

/// `part` is a stretch of `text`: the characters from one position of
/// `text` up to another.
pub open spec fn is_stretch_of(part: Seq<char>, text: Seq<char>) -> bool {
    exists|from: int, to: int|
        0 <= from <= to <= text.len() && part == #[trigger] text.subrange(from, to)
}

/// Calls `str::trim`: the text without leading and trailing white space. The
/// contract names the outcome `trimmed` and claims that it is a stretch of
/// the text, so that nothing is left of an empty text.
#[verifier::external_body]
pub(crate) fn trim(text: &str) -> (r: &str)
    ensures
        r@ == trimmed(text@),
        is_stretch_of(r@, text@),
{
    text.trim()
}

/// A text that holds nothing but white space.
pub open spec fn is_blank_content(content: Seq<char>) -> bool {
    trimmed(content).len() == 0
}

/// Whether the content of a file holds nothing but white space. An empty
/// content is blank.
pub fn blank_content(content: &str) -> (r: bool)
    ensures
        r == is_blank_content(content@),
        content@.len() == 0 ==> r,
{
    trim(content).unicode_len() == 0
}

/// Why a load failed.
#[derive(Clone, Copy, Debug, PartialEq, Eq, Structural)]
pub enum LoadError {
    /// The file could not be read.
    ReadFailed,
    /// The content is no document and no JSON either.
    ParseFailed,
    /// The content is JSON, but no document even after migration.
    MigrationFailed,
    /// The document could not be written.
    WriteFailed,
    /// An event came that the state does not expect.
    OutOfTurn,
}

/// Where a load stands.
#[derive(Debug)]
pub enum LoadState {
    Start,
    /// The file is being read.
    Reading,
    /// The content is being decoded as it is.
    Decoding { content: String },
    /// The migrated tree is being decoded.
    DecodingMigrated,
    /// The default document is being written.
    SavingDefault,
    /// The migrated document is being written.
    SavingMigrated,
    Done,
}

/// What the last step brought.
#[derive(Debug)]
pub enum LoadEvent {
    Begin,
    /// There is no file.
    Missing,
    /// The file holds this text.
    Content(String),
    ReadFailed,
    /// Decoding gave this document.
    Decoded(AppData),
    DecodeFailed,
    /// This document was written.
    Persisted(AppData),
    PersistFailed,
}

/// What is to be done next.
#[derive(Debug)]
pub enum LoadAction {
    ReadFile,
    /// Decode this text as a document.
    DecodeText(String),
    /// Decode this tree as a document.
    DecodeTree(JsonValue),
    /// Write this document, then hand it back.
    Persist(AppData),
    /// The load is done, with this document.
    Finish(AppData),
    /// The load has failed.
    Fail(LoadError),
}

/// A [`LoadState`] as a mathematical value.
pub enum LoadStateView {
    Start,
    Reading,
    Decoding { content: Seq<char> },
    DecodingMigrated,
    SavingDefault,
    SavingMigrated,
    Done,
}

/// A [`LoadEvent`] as a mathematical value.
pub enum LoadEventView {
    Begin,
    Missing,
    Content(Seq<char>),
    ReadFailed,
    Decoded(AppDataView),
    DecodeFailed,
    Persisted(AppDataView),
    PersistFailed,
}

/// A [`LoadAction`] as a mathematical value.
pub enum LoadActionView {
    ReadFile,
    DecodeText(Seq<char>),
    DecodeTree(JsonTree),
    Persist(AppDataView),
    Finish(AppDataView),
    Fail(LoadError),
}

impl View for LoadState {
    type V = LoadStateView;

    open spec fn view(&self) -> LoadStateView {
        match self {
            LoadState::Start => LoadStateView::Start,
            LoadState::Reading => LoadStateView::Reading,
            LoadState::Decoding { content } => LoadStateView::Decoding { content: content@ },
            LoadState::DecodingMigrated => LoadStateView::DecodingMigrated,
            LoadState::SavingDefault => LoadStateView::SavingDefault,
            LoadState::SavingMigrated => LoadStateView::SavingMigrated,
            LoadState::Done => LoadStateView::Done,
        }
    }
}

impl View for LoadEvent {
    type V = LoadEventView;

    open spec fn view(&self) -> LoadEventView {
        match self {
            LoadEvent::Begin => LoadEventView::Begin,
            LoadEvent::Missing => LoadEventView::Missing,
            LoadEvent::Content(text) => LoadEventView::Content(text@),
            LoadEvent::ReadFailed => LoadEventView::ReadFailed,
            LoadEvent::Decoded(doc) => LoadEventView::Decoded(doc@),
            LoadEvent::DecodeFailed => LoadEventView::DecodeFailed,
            LoadEvent::Persisted(doc) => LoadEventView::Persisted(doc@),
            LoadEvent::PersistFailed => LoadEventView::PersistFailed,
        }
    }
}

impl View for LoadAction {
    type V = LoadActionView;

    open spec fn view(&self) -> LoadActionView {
        match self {
            LoadAction::ReadFile => LoadActionView::ReadFile,
            LoadAction::DecodeText(text) => LoadActionView::DecodeText(text@),
            LoadAction::DecodeTree(tree) => LoadActionView::DecodeTree(tree@),
            LoadAction::Persist(doc) => LoadActionView::Persist(doc@),
            LoadAction::Finish(doc) => LoadActionView::Finish(doc@),
            LoadAction::Fail(error) => LoadActionView::Fail(*error),
        }
    }
}

/// The state and the action that follow on an event in a state.
pub open spec fn load_transition(state: LoadStateView, event: LoadEventView) -> (
    LoadStateView,
    LoadActionView,
) {
    match (state, event) {
        (LoadStateView::Start, LoadEventView::Begin) => (
            LoadStateView::Reading,
            LoadActionView::ReadFile,
        ),
        (LoadStateView::Reading, LoadEventView::Missing) => (
            LoadStateView::SavingDefault,
            LoadActionView::Persist(default_app_data()),
        ),
        (LoadStateView::Reading, LoadEventView::Content(text)) => if is_blank_content(text) {
            (LoadStateView::SavingDefault, LoadActionView::Persist(default_app_data()))
        } else {
            (LoadStateView::Decoding { content: text }, LoadActionView::DecodeText(text))
        },
        (LoadStateView::Reading, LoadEventView::ReadFailed) => (
            LoadStateView::Done,
            LoadActionView::Fail(LoadError::ReadFailed),
        ),
        (LoadStateView::Decoding { content }, LoadEventView::Decoded(doc)) => (
            LoadStateView::Done,
            LoadActionView::Finish(doc),
        ),
        (LoadStateView::Decoding { content }, LoadEventView::DecodeFailed) => match parsed_json(
            content,
        ) {
            Some(tree) => (
                LoadStateView::DecodingMigrated,
                LoadActionView::DecodeTree(migrated_document(tree)),
            ),
            None => (LoadStateView::Done, LoadActionView::Fail(LoadError::ParseFailed)),
        },
        (LoadStateView::DecodingMigrated, LoadEventView::Decoded(doc)) => (
            LoadStateView::SavingMigrated,
            LoadActionView::Persist(doc),
        ),
        (LoadStateView::DecodingMigrated, LoadEventView::DecodeFailed) => (
            LoadStateView::Done,
            LoadActionView::Fail(LoadError::MigrationFailed),
        ),
        (LoadStateView::SavingDefault, LoadEventView::Persisted(doc)) => (
            LoadStateView::Done,
            LoadActionView::Finish(doc),
        ),
        (LoadStateView::SavingMigrated, LoadEventView::Persisted(doc)) => (
            LoadStateView::Done,
            LoadActionView::Finish(doc),
        ),
        (LoadStateView::SavingDefault, LoadEventView::PersistFailed) => (
            LoadStateView::Done,
            LoadActionView::Fail(LoadError::WriteFailed),
        ),
        (LoadStateView::SavingMigrated, LoadEventView::PersistFailed) => (
            LoadStateView::Done,
            LoadActionView::Fail(LoadError::WriteFailed),
        ),
        _ => (LoadStateView::Done, LoadActionView::Fail(LoadError::OutOfTurn)),
    }
}

/// Decides what follows on an event in a state of a load. An empty file
/// is blank: it gives the default document.
pub fn load_step(state: LoadState, event: LoadEvent) -> (r: (LoadState, LoadAction))
    ensures
        (r.0@, r.1@) == load_transition(state@, event@),
        state@ is Reading && event@ == LoadEventView::Content(Seq::empty()) ==> r.1@
            == LoadActionView::Persist(default_app_data()),
{
    match state {
        LoadState::Start => match event {
            LoadEvent::Begin => (LoadState::Reading, LoadAction::ReadFile),
            _ => (LoadState::Done, LoadAction::Fail(LoadError::OutOfTurn)),
        },
        LoadState::Reading => match event {
            LoadEvent::Missing => (LoadState::SavingDefault, LoadAction::Persist(AppData::default())),
            LoadEvent::Content(text) => {
                if blank_content(text.as_str()) {
                    (LoadState::SavingDefault, LoadAction::Persist(AppData::default()))
                } else {
                    let copy = text.clone();
                    (LoadState::Decoding { content: text }, LoadAction::DecodeText(copy))
                }
            },
            LoadEvent::ReadFailed => (LoadState::Done, LoadAction::Fail(LoadError::ReadFailed)),
            _ => (LoadState::Done, LoadAction::Fail(LoadError::OutOfTurn)),
        },
        LoadState::Decoding { content } => match event {
            LoadEvent::Decoded(doc) => (LoadState::Done, LoadAction::Finish(doc)),
            LoadEvent::DecodeFailed => match parse_json(content.as_str()) {
                Some(tree) => (
                    LoadState::DecodingMigrated,
                    LoadAction::DecodeTree(document_migrated(&tree)),
                ),
                None => (LoadState::Done, LoadAction::Fail(LoadError::ParseFailed)),
            },
            _ => (LoadState::Done, LoadAction::Fail(LoadError::OutOfTurn)),
        },
        LoadState::DecodingMigrated => match event {
            LoadEvent::Decoded(doc) => (LoadState::SavingMigrated, LoadAction::Persist(doc)),
            LoadEvent::DecodeFailed => (
                LoadState::Done,
                LoadAction::Fail(LoadError::MigrationFailed),
            ),
            _ => (LoadState::Done, LoadAction::Fail(LoadError::OutOfTurn)),
        },
        LoadState::SavingDefault => match event {
            LoadEvent::Persisted(doc) => (LoadState::Done, LoadAction::Finish(doc)),
            LoadEvent::PersistFailed => (LoadState::Done, LoadAction::Fail(LoadError::WriteFailed)),
            _ => (LoadState::Done, LoadAction::Fail(LoadError::OutOfTurn)),
        },
        LoadState::SavingMigrated => match event {
            LoadEvent::Persisted(doc) => (LoadState::Done, LoadAction::Finish(doc)),
            LoadEvent::PersistFailed => (LoadState::Done, LoadAction::Fail(LoadError::WriteFailed)),
            _ => (LoadState::Done, LoadAction::Fail(LoadError::OutOfTurn)),
        },
        LoadState::Done => (LoadState::Done, LoadAction::Fail(LoadError::OutOfTurn)),
    }
}

/// The state in which a load begins.
pub fn load_start() -> (r: LoadState)
    ensures
        r@ == LoadStateView::Start,
{
    LoadState::Start
}

/// A failure ends the load: whatever failed, nothing is written after it
/// and no document is handed out.
pub proof fn lemma_failure_ends_load(state: LoadStateView, event: LoadEventView)
    requires
        event is ReadFailed || event is PersistFailed || (event is DecodeFailed
            && state is DecodingMigrated),
    ensures
        load_transition(state, event).0 is Done,
        load_transition(state, event).1 is Fail,
{
}

/// A document is written during a load only where the file was missing or
/// blank, and then it is the default document, or where an older document
/// was migrated, and then it is the migrated one.
pub proof fn lemma_what_a_load_writes(state: LoadStateView, event: LoadEventView)
    requires
        load_transition(state, event).1 is Persist,
    ensures
        (state is Reading && load_transition(state, event).1 == LoadActionView::Persist(
            default_app_data(),
        ) && (event is Missing || (event matches LoadEventView::Content(text)
            && is_blank_content(text)))) || (state is DecodingMigrated
            && event == LoadEventView::Decoded(load_transition(state, event).1->Persist_0)),
{
}

/// A load hands out only a document that was decoded from the file as it
/// is, or one that was written just before: a migrated document is written
/// before it is handed out.
pub proof fn lemma_what_a_load_hands_out(state: LoadStateView, event: LoadEventView)
    requires
        load_transition(state, event).1 is Finish,
    ensures
        load_transition(state, event).0 is Done,
        (state is Decoding && event == LoadEventView::Decoded(
            load_transition(state, event).1->Finish_0,
        )) || ((state is SavingDefault || state is SavingMigrated) && event
            == LoadEventView::Persisted(load_transition(state, event).1->Finish_0)),
{
}

/// The tree of an older document that does not decode is migrated before
/// it is decoded again.
pub proof fn lemma_migration_before_decode(content: Seq<char>)
    requires
        parsed_json(content) is Some,
    ensures
        load_transition(LoadStateView::Decoding { content }, LoadEventView::DecodeFailed).1
            == LoadActionView::DecodeTree(migrated_document(parsed_json(content).unwrap())),
{
}

/// How a cycle ends once the caller's change was applied to the loaded
/// document.
#[derive(Clone, Copy, Debug, PartialEq, Eq, Structural)]
pub enum CycleEnd {
    /// The changed document is written.
    Persist,
    /// Nothing is written: the file stays as it is.
    Abandon,
}

/// Decides how a cycle ends, given what the caller's change came to: the
/// document is written exactly where the change succeeded. A change that
/// failed is never written.
pub fn cycle_end<R, E>(outcome: &Result<R, E>) -> (r: CycleEnd)
    ensures
        r == (if outcome is Ok {
            CycleEnd::Persist
        } else {
            CycleEnd::Abandon
        }),
{
    match outcome {
        Ok(_) => CycleEnd::Persist,
        Err(_) => CycleEnd::Abandon,
    }
}

/// Where a write stands.
#[derive(Clone, Copy, Debug, PartialEq, Eq, Structural)]
pub enum WriteState {
    Start,
    /// The directory of the target is being made.
    MakingDirectory,
    /// The temporary file is being made in that directory.
    MakingTemp,
    /// The document is being written into the temporary file.
    Writing,
    /// The temporary file is being flushed.
    Flushing,
    /// The temporary file is being synced to the disk.
    Syncing,
    /// It is being looked up whether the target exists.
    Looking,
    /// The old target is being removed.
    Removing,
    /// The temporary file is being moved into the place of the target.
    Moving,
    Done,
}

/// What the last step of a write brought.
#[derive(Clone, Copy, Debug, PartialEq, Eq, Structural)]
pub enum WriteEvent {
    Begin,
    /// The step was done.
    Completed,
    /// The target exists.
    TargetFound,
    /// There is no target.
    TargetMissing,
    /// The step failed.
    Failed,
}

/// The step of a write that failed.
#[derive(Clone, Copy, Debug, PartialEq, Eq, Structural)]
pub enum WriteFault {
    Directory,
    TempFile,
    Serialize,
    Flush,
    Sync,
    Remove,
    Move,
    /// An event came that the state does not expect.
    OutOfTurn,
}

/// What is to be done next in a write.
#[derive(Clone, Copy, Debug, PartialEq, Eq, Structural)]
pub enum WriteAction {
    MakeDirectory,
    MakeTempFile,
    WriteDocument,
    FlushTempFile,
    SyncTempFile,
    LookForTarget,
    RemoveTarget,
    MoveTempFile,
    /// The write is done.
    Finish,
    /// The write has failed.
    Fail(WriteFault),
}

/// The state and the action that follow on an event in a state of a write.
pub open spec fn write_transition(state: WriteState, event: WriteEvent) -> (
    WriteState,
    WriteAction,
) {
    match (state, event) {
        (WriteState::Start, WriteEvent::Begin) => (
            WriteState::MakingDirectory,
            WriteAction::MakeDirectory,
        ),
        (WriteState::MakingDirectory, WriteEvent::Completed) => (
            WriteState::MakingTemp,
            WriteAction::MakeTempFile,
        ),
        (WriteState::MakingDirectory, WriteEvent::Failed) => (
            WriteState::Done,
            WriteAction::Fail(WriteFault::Directory),
        ),
        (WriteState::MakingTemp, WriteEvent::Completed) => (
            WriteState::Writing,
            WriteAction::WriteDocument,
        ),
        (WriteState::MakingTemp, WriteEvent::Failed) => (
            WriteState::Done,
            WriteAction::Fail(WriteFault::TempFile),
        ),
        (WriteState::Writing, WriteEvent::Completed) => (
            WriteState::Flushing,
            WriteAction::FlushTempFile,
        ),
        (WriteState::Writing, WriteEvent::Failed) => (
            WriteState::Done,
            WriteAction::Fail(WriteFault::Serialize),
        ),
        (WriteState::Flushing, WriteEvent::Completed) => (
            WriteState::Syncing,
            WriteAction::SyncTempFile,
        ),
        (WriteState::Flushing, WriteEvent::Failed) => (
            WriteState::Done,
            WriteAction::Fail(WriteFault::Flush),
        ),
        (WriteState::Syncing, WriteEvent::Completed) => (
            WriteState::Looking,
            WriteAction::LookForTarget,
        ),
        (WriteState::Syncing, WriteEvent::Failed) => (
            WriteState::Done,
            WriteAction::Fail(WriteFault::Sync),
        ),
        (WriteState::Looking, WriteEvent::TargetFound) => (
            WriteState::Removing,
            WriteAction::RemoveTarget,
        ),
        (WriteState::Looking, WriteEvent::TargetMissing) => (
            WriteState::Moving,
            WriteAction::MoveTempFile,
        ),
        (WriteState::Removing, WriteEvent::Completed) => (
            WriteState::Moving,
            WriteAction::MoveTempFile,
        ),
        (WriteState::Removing, WriteEvent::Failed) => (
            WriteState::Done,
            WriteAction::Fail(WriteFault::Remove),
        ),
        (WriteState::Moving, WriteEvent::Completed) => (WriteState::Done, WriteAction::Finish),
        (WriteState::Moving, WriteEvent::Failed) => (
            WriteState::Done,
            WriteAction::Fail(WriteFault::Move),
        ),
        _ => (WriteState::Done, WriteAction::Fail(WriteFault::OutOfTurn)),
    }
}

/// Decides what follows on an event in a state of a write.
pub fn write_step(state: WriteState, event: WriteEvent) -> (r: (WriteState, WriteAction))
    ensures
        r == write_transition(state, event),
{
    match state {
        WriteState::Start => match event {
            WriteEvent::Begin => (WriteState::MakingDirectory, WriteAction::MakeDirectory),
            _ => (WriteState::Done, WriteAction::Fail(WriteFault::OutOfTurn)),
        },
        WriteState::MakingDirectory => match event {
            WriteEvent::Completed => (WriteState::MakingTemp, WriteAction::MakeTempFile),
            WriteEvent::Failed => (WriteState::Done, WriteAction::Fail(WriteFault::Directory)),
            _ => (WriteState::Done, WriteAction::Fail(WriteFault::OutOfTurn)),
        },
        WriteState::MakingTemp => match event {
            WriteEvent::Completed => (WriteState::Writing, WriteAction::WriteDocument),
            WriteEvent::Failed => (WriteState::Done, WriteAction::Fail(WriteFault::TempFile)),
            _ => (WriteState::Done, WriteAction::Fail(WriteFault::OutOfTurn)),
        },
        WriteState::Writing => match event {
            WriteEvent::Completed => (WriteState::Flushing, WriteAction::FlushTempFile),
            WriteEvent::Failed => (WriteState::Done, WriteAction::Fail(WriteFault::Serialize)),
            _ => (WriteState::Done, WriteAction::Fail(WriteFault::OutOfTurn)),
        },
        WriteState::Flushing => match event {
            WriteEvent::Completed => (WriteState::Syncing, WriteAction::SyncTempFile),
            WriteEvent::Failed => (WriteState::Done, WriteAction::Fail(WriteFault::Flush)),
            _ => (WriteState::Done, WriteAction::Fail(WriteFault::OutOfTurn)),
        },
        WriteState::Syncing => match event {
            WriteEvent::Completed => (WriteState::Looking, WriteAction::LookForTarget),
            WriteEvent::Failed => (WriteState::Done, WriteAction::Fail(WriteFault::Sync)),
            _ => (WriteState::Done, WriteAction::Fail(WriteFault::OutOfTurn)),
        },
        WriteState::Looking => match event {
            WriteEvent::TargetFound => (WriteState::Removing, WriteAction::RemoveTarget),
            WriteEvent::TargetMissing => (WriteState::Moving, WriteAction::MoveTempFile),
            _ => (WriteState::Done, WriteAction::Fail(WriteFault::OutOfTurn)),
        },
        WriteState::Removing => match event {
            WriteEvent::Completed => (WriteState::Moving, WriteAction::MoveTempFile),
            WriteEvent::Failed => (WriteState::Done, WriteAction::Fail(WriteFault::Remove)),
            _ => (WriteState::Done, WriteAction::Fail(WriteFault::OutOfTurn)),
        },
        WriteState::Moving => match event {
            WriteEvent::Completed => (WriteState::Done, WriteAction::Finish),
            WriteEvent::Failed => (WriteState::Done, WriteAction::Fail(WriteFault::Move)),
            _ => (WriteState::Done, WriteAction::Fail(WriteFault::OutOfTurn)),
        },
        WriteState::Done => (WriteState::Done, WriteAction::Fail(WriteFault::OutOfTurn)),
    }
}

/// How far a write has come: the number of the steps that are behind it.
pub open spec fn write_progress(state: WriteState) -> int {
    match state {
        WriteState::Start => 0,
        WriteState::MakingDirectory => 1,
        WriteState::MakingTemp => 2,
        WriteState::Writing => 3,
        WriteState::Flushing => 4,
        WriteState::Syncing => 5,
        WriteState::Looking => 6,
        WriteState::Removing => 7,
        WriteState::Moving => 8,
        WriteState::Done => 9,
    }
}

/// An action touches the target: it removes it or moves the temporary file
/// into its place.
pub open spec fn touches_target(action: WriteAction) -> bool {
    action is RemoveTarget || action is MoveTempFile
}

/// A write only goes forward, and the target is touched only after the
/// temporary file was synced: every action on the target is asked for in a
/// state that lies behind the syncing. A failed step ends the write with a
/// failure, and so no step that fails before the target is touched is
/// followed by one that touches it.
pub proof fn lemma_target_touched_last(state: WriteState, event: WriteEvent)
    ensures
        state !is Done ==> write_progress(write_transition(state, event).0) > write_progress(state),
        touches_target(write_transition(state, event).1) ==> write_progress(state)
            > write_progress(WriteState::Syncing),
        write_transition(state, event).0 is Looking ==> state is Syncing && event is Completed,
        event is Failed ==> write_transition(state, event).0 is Done && write_transition(
            state,
            event,
        ).1 is Fail,
        write_transition(state, event).1 is Finish ==> state is Moving && event is Completed,
{
}

} // verus!
