//! The protocol spoken with the document worker: one command at a time, each
//! answered by one response of the kinds that the command allows, before the
//! next command is sent.

use crate::error::{ErrorKind, ErrorKindView};
use crate::game::PFHVersion;
use vstd::prelude::*;
use vstd::string::*;

verus! {

/// The type in the header of a PackFile.
#[derive(Clone, Copy, PartialEq, Eq, Structural, Debug)]
pub enum PFHFileType {
    Boot,
    Release,
    Patch,
    Mod,
    Movie,
    Other(u32),
}

/// How much of the data of a PackFile is compressed.
#[derive(Clone, Copy, PartialEq, Eq, Structural, Debug)]
pub enum CompressionState {
    Enabled,
    Partial,
    Disabled,
}

/// The flags in the header of a PackFile.
#[derive(Clone, Copy, PartialEq, Eq, Structural, Debug)]
pub struct PFHFlags {
    pub has_encrypted_data: bool,
    pub has_index_with_timestamps: bool,
    pub has_encrypted_index: bool,
    pub has_extended_header: bool,
}

/// What the worker tells of a PackFile that it has opened.
#[derive(Clone, Copy, PartialEq, Eq, Structural, Debug)]
pub struct PackFileUIData {
    pub pfh_file_type: PFHFileType,
    pub bitmask: PFHFlags,
    pub compression_state: CompressionState,
    pub pfh_version: PFHVersion,
}

/// The kind of a new entry, with the name asked for it; a table also has the
/// name of its table and a version.
#[derive(Debug, PartialEq, Eq)]
pub enum PackedFileType {
    Loc(String),
    Text(String),
    DB(String, String, i32),
}

/// What a [`PackedFileType`] holds, as mathematical values.
pub enum PackedFileTypeView {
    Loc(Seq<char>),
    Text(Seq<char>),
    DB(Seq<char>, Seq<char>, i32),
}

impl DeepView for PackedFileType {
    type V = PackedFileTypeView;

    open spec fn deep_view(&self) -> PackedFileTypeView {
        match self {
            PackedFileType::Loc(name) => PackedFileTypeView::Loc(name@),
            PackedFileType::Text(name) => PackedFileTypeView::Text(name@),
            PackedFileType::DB(name, table, version) => PackedFileTypeView::DB(
                name@,
                table@,
                *version,
            ),
        }
    }
}

impl Clone for PackedFileType {
    fn clone(&self) -> (copy: Self)
        ensures
            copy.deep_view() == self.deep_view(),
    {
        match self {
            PackedFileType::Loc(name) => PackedFileType::Loc(name.clone()),
            PackedFileType::Text(name) => PackedFileType::Text(name.clone()),
            PackedFileType::DB(name, table, version) => PackedFileType::DB(
                name.clone(),
                table.clone(),
                *version,
            ),
        }
    }
}

/// A request to the document worker.
#[derive(Debug, PartialEq, Eq)]
pub enum Command {
    /// Open the PackFiles at these places on disk as one document.
    OpenDocument(Vec<Vec<String>>),
    /// Save the document to its file.
    SaveDocument,
    /// Save the document to a file that is named in a second step.
    SaveDocumentAs,
    /// Replace the document by a new one.
    NewDocument,
    /// Replace the document by an empty one that stands for no file.
    ResetDocument,
    /// Tell whether the document has an entry of this path.
    EntryExists(Vec<String>),
    /// Add an entry of this path and kind.
    CreateEntry(Vec<String>, PackedFileType),
    /// Put this text into the text entry of this path.
    EncodeTextEntry(String, Vec<String>),
    /// Set the notes of the document.
    SetNotes(String),
    /// Check the script that is open.
    CheckScript,
}

/// What a [`Command`] holds, as mathematical values.
pub enum CommandView {
    OpenDocument(Seq<Seq<Seq<char>>>),
    SaveDocument,
    SaveDocumentAs,
    NewDocument,
    ResetDocument,
    EntryExists(Seq<Seq<char>>),
    CreateEntry(Seq<Seq<char>>, PackedFileTypeView),
    EncodeTextEntry(Seq<char>, Seq<Seq<char>>),
    SetNotes(Seq<char>),
    CheckScript,
}

impl DeepView for Command {
    type V = CommandView;

    open spec fn deep_view(&self) -> CommandView {
        match self {
            Command::OpenDocument(paths) => CommandView::OpenDocument(paths.deep_view()),
            Command::SaveDocument => CommandView::SaveDocument,
            Command::SaveDocumentAs => CommandView::SaveDocumentAs,
            Command::NewDocument => CommandView::NewDocument,
            Command::ResetDocument => CommandView::ResetDocument,
            Command::EntryExists(path) => CommandView::EntryExists(path.deep_view()),
            Command::CreateEntry(path, kind) => CommandView::CreateEntry(
                path.deep_view(),
                kind.deep_view(),
            ),
            Command::EncodeTextEntry(text, path) => CommandView::EncodeTextEntry(
                text@,
                path.deep_view(),
            ),
            Command::SetNotes(text) => CommandView::SetNotes(text@),
            Command::CheckScript => CommandView::CheckScript,
        }
    }
}

/// The operation that a command asks for, without what it carries.
#[derive(Clone, Copy, PartialEq, Eq, Structural, Debug)]
pub enum CommandKind {
    OpenDocument,
    SaveDocument,
    SaveDocumentAs,
    NewDocument,
    ResetDocument,
    EntryExists,
    CreateEntry,
    EncodeTextEntry,
    SetNotes,
    CheckScript,
}

/// The operation that a command asks for.
pub open spec fn kind_of_command(command: CommandView) -> CommandKind {
    match command {
        CommandView::OpenDocument(_) => CommandKind::OpenDocument,
        CommandView::SaveDocument => CommandKind::SaveDocument,
        CommandView::SaveDocumentAs => CommandKind::SaveDocumentAs,
        CommandView::NewDocument => CommandKind::NewDocument,
        CommandView::ResetDocument => CommandKind::ResetDocument,
        CommandView::EntryExists(_) => CommandKind::EntryExists,
        CommandView::CreateEntry(_, _) => CommandKind::CreateEntry,
        CommandView::EncodeTextEntry(_, _) => CommandKind::EncodeTextEntry,
        CommandView::SetNotes(_) => CommandKind::SetNotes,
        CommandView::CheckScript => CommandKind::CheckScript,
    }
}

/// Whether a command changes the document.
pub open spec fn is_mutating(kind: CommandKind) -> bool {
    kind == CommandKind::OpenDocument || kind == CommandKind::NewDocument || kind
        == CommandKind::ResetDocument || kind == CommandKind::CreateEntry || kind
        == CommandKind::EncodeTextEntry || kind == CommandKind::SetNotes
}

impl Command {
    /// The operation that the command asks for.
    pub fn kind(&self) -> (kind: CommandKind)
        ensures
            kind == kind_of_command(self.deep_view()),
    {
        match self {
            Command::OpenDocument(_) => CommandKind::OpenDocument,
            Command::SaveDocument => CommandKind::SaveDocument,
            Command::SaveDocumentAs => CommandKind::SaveDocumentAs,
            Command::NewDocument => CommandKind::NewDocument,
            Command::ResetDocument => CommandKind::ResetDocument,
            Command::EntryExists(_) => CommandKind::EntryExists,
            Command::CreateEntry(_, _) => CommandKind::CreateEntry,
            Command::EncodeTextEntry(_, _) => CommandKind::EncodeTextEntry,
            Command::SetNotes(_) => CommandKind::SetNotes,
            Command::CheckScript => CommandKind::CheckScript,
        }
    }
}

/// An answer of the document worker.
#[derive(Debug, PartialEq, Eq)]
pub enum Response {
    /// The PackFiles were opened; this is what the header says.
    DocumentOpened(PackFileUIData),
    /// The document was saved at this time.
    Saved(i64),
    /// The place on disk of the document that is about to be saved under
    /// another name. The worker now waits for the new place.
    SavePath(Vec<String>),
    /// A new document was made; this is the number of its header version.
    Created(u32),
    /// Whether the entry exists.
    Exists(bool),
    /// The command was carried out.
    Success,
    /// The lines of the report on the script.
    ScriptReport(Vec<String>),
    /// The command failed.
    Error(ErrorKind),
}

/// What a [`Response`] holds, as mathematical values.
pub enum ResponseView {
    DocumentOpened(PackFileUIData),
    Saved(i64),
    SavePath(Seq<Seq<char>>),
    Created(u32),
    Exists(bool),
    Success,
    ScriptReport(Seq<Seq<char>>),
    Error(ErrorKindView),
}

impl DeepView for Response {
    type V = ResponseView;

    open spec fn deep_view(&self) -> ResponseView {
        match self {
            Response::DocumentOpened(data) => ResponseView::DocumentOpened(*data),
            Response::Saved(date) => ResponseView::Saved(*date),
            Response::SavePath(path) => ResponseView::SavePath(path.deep_view()),
            Response::Created(version) => ResponseView::Created(*version),
            Response::Exists(exists) => ResponseView::Exists(*exists),
            Response::Success => ResponseView::Success,
            Response::ScriptReport(lines) => ResponseView::ScriptReport(lines.deep_view()),
            Response::Error(error) => ResponseView::Error(error.deep_view()),
        }
    }
}

/// The variant of a response, without what it carries.
#[derive(Clone, Copy, PartialEq, Eq, Structural, Debug)]
pub enum ResponseKind {
    DocumentOpened,
    Saved,
    SavePath,
    Created,
    Exists,
    Success,
    ScriptReport,
    Error,
}

/// The variant of a response.
pub open spec fn kind_of_response(response: ResponseView) -> ResponseKind {
    match response {
        ResponseView::DocumentOpened(_) => ResponseKind::DocumentOpened,
        ResponseView::Saved(_) => ResponseKind::Saved,
        ResponseView::SavePath(_) => ResponseKind::SavePath,
        ResponseView::Created(_) => ResponseKind::Created,
        ResponseView::Exists(_) => ResponseKind::Exists,
        ResponseView::Success => ResponseKind::Success,
        ResponseView::ScriptReport(_) => ResponseKind::ScriptReport,
        ResponseView::Error(_) => ResponseKind::Error,
    }
}

/// What the user interface answers when the worker, saving under another
/// name, waits for the new place.
#[derive(Debug, PartialEq, Eq)]
pub enum SaveAnswer {
    /// Save to this place on disk.
    Destination(Vec<String>),
    /// Do not save after all.
    Cancel,
}

/// What a [`SaveAnswer`] holds, as mathematical values.
pub enum SaveAnswerView {
    Destination(Seq<Seq<char>>),
    Cancel,
}

impl DeepView for SaveAnswer {
    type V = SaveAnswerView;

    open spec fn deep_view(&self) -> SaveAnswerView {
        match self {
            SaveAnswer::Destination(path) => SaveAnswerView::Destination(path.deep_view()),
            SaveAnswer::Cancel => SaveAnswerView::Cancel,
        }
    }
}

/// What the user interface is waiting for from the worker.
#[derive(Clone, Copy, PartialEq, Eq, Structural, Debug)]
pub enum Awaiting {
    /// Nothing: the next command may be sent.
    Nothing,
    /// The response to the command of this kind.
    Reply(CommandKind),
    /// Nothing, but the worker waits: it has named the place of the document
    /// and wants the new place, or the cancellation.
    Destination,
    /// The outcome of saving to the new place.
    SaveOutcome,
}

/// The responses that are allowed while the user interface waits for
/// `awaiting`. Any other response breaks the protocol.
pub open spec fn legal_reply(awaiting: Awaiting, response: ResponseView) -> bool {
    match awaiting {
        Awaiting::Nothing => false,
        Awaiting::Destination => false,
        Awaiting::SaveOutcome => response is Saved
            || response matches ResponseView::Error(ErrorKindView::SavePackFileGeneric(_)),
        Awaiting::Reply(kind) => match kind {
            CommandKind::OpenDocument => response is DocumentOpened
                || response matches ResponseView::Error(ErrorKindView::OpenPackFileGeneric(_)),
            CommandKind::SaveDocument => response is Saved
                || response matches ResponseView::Error(ErrorKindView::PackFileIsNotAFile)
                || response matches ResponseView::Error(ErrorKindView::SavePackFileGeneric(_)),
            CommandKind::SaveDocumentAs => (response matches ResponseView::SavePath(path)
                && path.len() >= 1)
                || response matches ResponseView::Error(ErrorKindView::PackFileIsNonEditable),
            CommandKind::NewDocument => response is Created,
            CommandKind::EntryExists => response is Exists,
            CommandKind::CreateEntry => response is Success || response is Error,
            CommandKind::CheckScript => response is ScriptReport || response is Error,
            CommandKind::ResetDocument => response is Success || response is Error,
            CommandKind::EncodeTextEntry => response is Success || response is Error,
            CommandKind::SetNotes => response is Success || response is Error,
        },
    }
}

/// What the user interface waits for once an allowed response has come.
pub open spec fn awaiting_after_reply(awaiting: Awaiting, response: ResponseView) -> Awaiting {
    if awaiting == Awaiting::Reply(CommandKind::SaveDocumentAs) && response is SavePath {
        Awaiting::Destination
    } else {
        Awaiting::Nothing
    }
}

/// A response that the protocol does not allow: what was waited for, and the
/// variant that came.
#[derive(Clone, Copy, PartialEq, Eq, Structural, Debug)]
pub struct ProtocolFault {
    pub awaiting: Awaiting,
    pub response: ResponseKind,
}

/// What a poll of the channel found.
#[derive(Clone, Copy, PartialEq, Eq, Structural, Debug)]
pub enum Poll {
    /// No response has come yet.
    Pending,
    /// An allowed response has come.
    Ready,
    /// A response has come that the protocol does not allow.
    Fault(ProtocolFault),
}

impl Response {
    /// The variant of the response.
    pub fn kind(&self) -> (kind: ResponseKind)
        ensures
            kind == kind_of_response(self.deep_view()),
    {
        match self {
            Response::DocumentOpened(_) => ResponseKind::DocumentOpened,
            Response::Saved(_) => ResponseKind::Saved,
            Response::SavePath(_) => ResponseKind::SavePath,
            Response::Created(_) => ResponseKind::Created,
            Response::Exists(_) => ResponseKind::Exists,
            Response::Success => ResponseKind::Success,
            Response::ScriptReport(_) => ResponseKind::ScriptReport,
            Response::Error(_) => ResponseKind::Error,
        }
    }

    /// Whether the response is allowed while the user interface waits for
    /// `awaiting`.
    pub fn is_legal_for(&self, awaiting: Awaiting) -> (legal: bool)
        ensures
            legal == legal_reply(awaiting, self.deep_view()),
    {
        match awaiting {
            Awaiting::Nothing => false,
            Awaiting::Destination => false,
            Awaiting::SaveOutcome => match self {
                Response::Saved(_) => true,
                Response::Error(ErrorKind::SavePackFileGeneric(_)) => true,
                _ => false,
            },
            Awaiting::Reply(kind) => match kind {
                CommandKind::OpenDocument => match self {
                    Response::DocumentOpened(_) => true,
                    Response::Error(ErrorKind::OpenPackFileGeneric(_)) => true,
                    _ => false,
                },
                CommandKind::SaveDocument => match self {
                    Response::Saved(_) => true,
                    Response::Error(ErrorKind::PackFileIsNotAFile) => true,
                    Response::Error(ErrorKind::SavePackFileGeneric(_)) => true,
                    _ => false,
                },
                CommandKind::SaveDocumentAs => match self {
                    Response::SavePath(path) => path.len() >= 1,
                    Response::Error(ErrorKind::PackFileIsNonEditable) => true,
                    _ => false,
                },
                CommandKind::NewDocument => match self {
                    Response::Created(_) => true,
                    _ => false,
                },
                CommandKind::EntryExists => match self {
                    Response::Exists(_) => true,
                    _ => false,
                },
                CommandKind::CreateEntry => match self {
                    Response::Success => true,
                    Response::Error(_) => true,
                    _ => false,
                },
                CommandKind::CheckScript => match self {
                    Response::ScriptReport(_) => true,
                    Response::Error(_) => true,
                    _ => false,
                },
                CommandKind::ResetDocument | CommandKind::EncodeTextEntry | CommandKind::SetNotes => {
                    match self {
                        Response::Success => true,
                        Response::Error(_) => true,
                        _ => false,
                    }
                },
            },
        }
    }
}

/// The state of the exchange with the worker. The transport itself, which
/// carries the messages, is outside; the channel says what may be sent and
/// what may come.
pub struct Channel {
    awaiting: Awaiting,
    faulted: bool,
}

impl Channel {
    /// What the user interface is waiting for.
    pub closed spec fn awaits(&self) -> Awaiting {
        self.awaiting
    }

    /// Whether a response has broken the protocol. The session is then over.
    pub closed spec fn is_faulted(&self) -> bool {
        self.faulted
    }

    /// A channel on which nothing was sent yet.
    pub fn new() -> (channel: Self)
        ensures
            channel.awaits() == Awaiting::Nothing,
            !channel.is_faulted(),
    {
        Self { awaiting: Awaiting::Nothing, faulted: false }
    }

    /// What the user interface is waiting for.
    pub fn awaiting(&self) -> (awaiting: Awaiting)
        ensures
            awaiting == self.awaits(),
    {
        self.awaiting
    }

    /// Whether a response has broken the protocol.
    pub fn faulted(&self) -> (faulted: bool)
        ensures
            faulted == self.is_faulted(),
    {
        self.faulted
    }

    /// Whether a command may be sent: nothing is waited for on either side,
    /// and the protocol is unbroken.
    pub fn can_send(&self) -> (yes: bool)
        ensures
            yes == (self.awaits() == Awaiting::Nothing && !self.is_faulted()),
    {
        match self.awaiting {
            Awaiting::Nothing => !self.faulted,
            _ => false,
        }
    }

    /// Notes that a command of this kind is sent. It is refused, and nothing
    /// changes, while an earlier exchange is unfinished or after a fault.
    pub fn send(&mut self, kind: CommandKind) -> (sent: bool)
        ensures
            sent == (old(self).awaits() == Awaiting::Nothing && !old(self).is_faulted()),
            final(self).is_faulted() == old(self).is_faulted(),
            final(self).awaits() == if sent {
                Awaiting::Reply(kind)
            } else {
                old(self).awaits()
            },
    {
        if !self.can_send() {
            return false;
        }
        self.awaiting = Awaiting::Reply(kind);
        true
    }

    /// Takes in a response that has come. An allowed one ends the wait; the
    /// place named by the worker in answer to a save under another name
    /// starts the worker's wait for the new place. Any other response, and
    /// any response after a fault, is a fault, and the channel stays faulted
    /// from then on.
    pub fn receive(&mut self, response: &Response) -> (taken: Result<(), ProtocolFault>)
        ensures
            taken is Ok <==> !old(self).is_faulted() && legal_reply(
                old(self).awaits(),
                response.deep_view(),
            ),
            taken is Ok ==> !final(self).is_faulted() && final(self).awaits()
                == awaiting_after_reply(old(self).awaits(), response.deep_view()),
            taken matches Err(fault) ==> final(self).is_faulted() && final(self).awaits()
                == Awaiting::Nothing && fault.awaiting == old(self).awaits() && fault.response
                == kind_of_response(response.deep_view()),
    {
        let awaiting = self.awaiting;
        if self.faulted || !response.is_legal_for(awaiting) {
            self.faulted = true;
            self.awaiting = Awaiting::Nothing;
            return Err(ProtocolFault { awaiting, response: response.kind() });
        }
        let names_place = match response {
            Response::SavePath(_) => true,
            _ => false,
        };
        let saving_as = match awaiting {
            Awaiting::Reply(CommandKind::SaveDocumentAs) => true,
            _ => false,
        };
        if saving_as && names_place {
            self.awaiting = Awaiting::Destination;
        } else {
            self.awaiting = Awaiting::Nothing;
        }
        Ok(())
    }

    /// Looks whether a response has come, without waiting: `arrived` is what
    /// the transport had. Nothing changes while none has come.
    pub fn poll(&mut self, arrived: Option<&Response>) -> (found: Poll)
        ensures
            arrived is None ==> found == Poll::Pending && *final(self) == *old(self),
            arrived matches Some(response) ==> {
                &&& found != Poll::Pending
                &&& found == Poll::Ready <==> !old(self).is_faulted() && legal_reply(
                    old(self).awaits(),
                    response.deep_view(),
                )
                &&& found == Poll::Ready ==> !final(self).is_faulted() && final(self).awaits()
                    == awaiting_after_reply(old(self).awaits(), response.deep_view())
                &&& found matches Poll::Fault(fault) ==> final(self).is_faulted()
                    && final(self).awaits() == Awaiting::Nothing
                    && fault.awaiting == old(self).awaits()
                    && fault.response == kind_of_response(response.deep_view())
            },
    {
        match arrived {
            None => Poll::Pending,
            Some(response) => match self.receive(response) {
                Ok(()) => Poll::Ready,
                Err(fault) => Poll::Fault(fault),
            },
        }
    }

    /// Notes the answer to the worker that waits for the new place of the
    /// document: the place, after which the outcome of the saving is waited
    /// for, or the cancellation, which ends the exchange. It is refused, and
    /// nothing changes, unless the worker waits for it.
    pub fn answer(&mut self, cancel: bool) -> (answered: bool)
        ensures
            answered == (old(self).awaits() == Awaiting::Destination && !old(self).is_faulted()),
            final(self).is_faulted() == old(self).is_faulted(),
            final(self).awaits() == if !answered {
                old(self).awaits()
            } else if cancel {
                Awaiting::Nothing
            } else {
                Awaiting::SaveOutcome
            },
    {
        let waits = match self.awaiting {
            Awaiting::Destination => !self.faulted,
            _ => false,
        };
        if !waits {
            return false;
        }
        if cancel {
            self.awaiting = Awaiting::Nothing;
        } else {
            self.awaiting = Awaiting::SaveOutcome;
        }
        true
    }
}

} // verus!
