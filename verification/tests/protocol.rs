use rpfm_ui::error::ErrorKind;
use rpfm_ui::game::PFHVersion;
use rpfm_ui::protocol::{
    Awaiting, Channel, Command, CommandKind, CompressionState, PFHFileType, PFHFlags,
    PackFileUIData, PackedFileType, Poll, ProtocolFault, Response, ResponseKind,
};

fn protocol_data() -> PackFileUIData {
    PackFileUIData {
        pfh_file_type: PFHFileType::Mod,
        bitmask: PFHFlags {
            has_encrypted_data: false,
            has_index_with_timestamps: false,
            has_encrypted_index: false,
            has_extended_header: false,
        },
        compression_state: CompressionState::Disabled,
        pfh_version: PFHVersion::PFH5,
    }
}

fn protocol_responses() -> Vec<Response> {
    vec![
        Response::DocumentOpened(protocol_data()),
        Response::Saved(17),
        Response::SavePath(vec!["home".to_owned(), "mod.pack".to_owned()]),
        Response::SavePath(Vec::new()),
        Response::Created(5),
        Response::Exists(true),
        Response::Exists(false),
        Response::Success,
        Response::ScriptReport(vec!["ok".to_owned()]),
        Response::Error(ErrorKind::OpenPackFileGeneric("x".to_owned())),
        Response::Error(ErrorKind::PackFileIsNotAFile),
        Response::Error(ErrorKind::SavePackFileGeneric("x".to_owned())),
        Response::Error(ErrorKind::PackFileIsNonEditable),
        Response::Error(ErrorKind::Generic("x".to_owned())),
    ]
}

const PROTOCOL_KINDS: [CommandKind; 10] = [
    CommandKind::OpenDocument,
    CommandKind::SaveDocument,
    CommandKind::SaveDocumentAs,
    CommandKind::NewDocument,
    CommandKind::ResetDocument,
    CommandKind::EntryExists,
    CommandKind::CreateEntry,
    CommandKind::EncodeTextEntry,
    CommandKind::SetNotes,
    CommandKind::CheckScript,
];

fn protocol_legal(awaiting: Awaiting) -> Vec<usize> {
    let responses = protocol_responses();
    (0..responses.len()).filter(|i| responses[*i].is_legal_for(awaiting)).collect()
}

#[test]
fn each_kind_of_command_has_its_own_legal_responses() {
    assert_eq!(protocol_legal(Awaiting::Reply(CommandKind::OpenDocument)), vec![0, 9]);
    assert_eq!(protocol_legal(Awaiting::Reply(CommandKind::SaveDocument)), vec![1, 10, 11]);
    assert_eq!(protocol_legal(Awaiting::Reply(CommandKind::SaveDocumentAs)), vec![2, 12]);
    assert_eq!(protocol_legal(Awaiting::Reply(CommandKind::NewDocument)), vec![4]);
    assert_eq!(protocol_legal(Awaiting::Reply(CommandKind::EntryExists)), vec![5, 6]);
    assert_eq!(
        protocol_legal(Awaiting::Reply(CommandKind::CreateEntry)),
        vec![7, 9, 10, 11, 12, 13]
    );
    assert_eq!(
        protocol_legal(Awaiting::Reply(CommandKind::CheckScript)),
        vec![8, 9, 10, 11, 12, 13]
    );
    assert_eq!(protocol_legal(Awaiting::SaveOutcome), vec![1, 11]);
}

#[test]
fn nothing_is_legal_while_nothing_is_awaited() {
    assert!(protocol_legal(Awaiting::Nothing).is_empty());
    assert!(protocol_legal(Awaiting::Destination).is_empty());
}

#[test]
fn what_is_handed_to_the_worker_is_taken_or_refused() {
    for kind in [CommandKind::ResetDocument, CommandKind::EncodeTextEntry, CommandKind::SetNotes] {
        assert_eq!(protocol_legal(Awaiting::Reply(kind)), vec![7, 9, 10, 11, 12, 13]);
    }
}

#[test]
fn every_kind_of_command_has_a_legal_response() {
    for kind in PROTOCOL_KINDS {
        assert!(!protocol_legal(Awaiting::Reply(kind)).is_empty());
    }
}

#[test]
fn a_command_has_the_kind_of_its_variant() {
    let path = vec!["a".to_owned()];
    assert_eq!(Command::OpenDocument(vec![path.clone()]).kind(), CommandKind::OpenDocument);
    assert_eq!(Command::SaveDocument.kind(), CommandKind::SaveDocument);
    assert_eq!(Command::SaveDocumentAs.kind(), CommandKind::SaveDocumentAs);
    assert_eq!(Command::NewDocument.kind(), CommandKind::NewDocument);
    assert_eq!(Command::ResetDocument.kind(), CommandKind::ResetDocument);
    assert_eq!(Command::EntryExists(path.clone()).kind(), CommandKind::EntryExists);
    assert_eq!(
        Command::CreateEntry(path.clone(), PackedFileType::Loc("n".to_owned())).kind(),
        CommandKind::CreateEntry
    );
    assert_eq!(
        Command::EncodeTextEntry("t".to_owned(), path).kind(),
        CommandKind::EncodeTextEntry
    );
    assert_eq!(Command::SetNotes("n".to_owned()).kind(), CommandKind::SetNotes);
    assert_eq!(Command::CheckScript.kind(), CommandKind::CheckScript);
}

#[test]
fn a_response_has_the_kind_of_its_variant() {
    let kinds: Vec<ResponseKind> = protocol_responses().iter().map(|r| r.kind()).collect();
    assert_eq!(
        kinds,
        vec![
            ResponseKind::DocumentOpened,
            ResponseKind::Saved,
            ResponseKind::SavePath,
            ResponseKind::SavePath,
            ResponseKind::Created,
            ResponseKind::Exists,
            ResponseKind::Exists,
            ResponseKind::Success,
            ResponseKind::ScriptReport,
            ResponseKind::Error,
            ResponseKind::Error,
            ResponseKind::Error,
            ResponseKind::Error,
            ResponseKind::Error,
        ]
    );
}

#[test]
fn a_new_channel_awaits_nothing() {
    let channel = Channel::new();
    assert_eq!(channel.awaiting(), Awaiting::Nothing);
    assert!(!channel.faulted());
    assert!(channel.can_send());
}

#[test]
fn a_command_is_answered_before_the_next_is_sent() {
    let mut channel = Channel::new();
    assert!(channel.send(CommandKind::EntryExists));
    assert_eq!(channel.awaiting(), Awaiting::Reply(CommandKind::EntryExists));
    assert!(!channel.can_send());
    assert!(!channel.send(CommandKind::CreateEntry));
    assert_eq!(channel.awaiting(), Awaiting::Reply(CommandKind::EntryExists));
    assert_eq!(channel.receive(&Response::Exists(false)), Ok(()));
    assert_eq!(channel.awaiting(), Awaiting::Nothing);
    assert!(channel.send(CommandKind::CreateEntry));
    assert_eq!(channel.awaiting(), Awaiting::Reply(CommandKind::CreateEntry));
    assert_eq!(channel.receive(&Response::Success), Ok(()));
    assert!(channel.can_send());
}

#[test]
fn every_command_is_answered_before_the_next() {
    for kind in PROTOCOL_KINDS {
        let mut channel = Channel::new();
        assert!(channel.send(kind));
        assert_eq!(channel.awaiting(), Awaiting::Reply(kind));
        assert!(!channel.can_send());
        for next in PROTOCOL_KINDS {
            assert!(!channel.send(next));
            assert_eq!(channel.awaiting(), Awaiting::Reply(kind));
        }
    }
}

#[test]
fn an_undeclared_response_is_a_fault_for_good() {
    let mut channel = Channel::new();
    assert!(channel.send(CommandKind::EntryExists));
    assert_eq!(
        channel.receive(&Response::Success),
        Err(ProtocolFault {
            awaiting: Awaiting::Reply(CommandKind::EntryExists),
            response: ResponseKind::Success,
        })
    );
    assert!(channel.faulted());
    assert_eq!(channel.awaiting(), Awaiting::Nothing);
    assert!(!channel.can_send());
    assert!(!channel.send(CommandKind::EntryExists));
    assert_eq!(
        channel.receive(&Response::Exists(true)),
        Err(ProtocolFault { awaiting: Awaiting::Nothing, response: ResponseKind::Exists })
    );
    assert!(!channel.answer(true));
    assert!(channel.faulted());
}

#[test]
fn a_response_that_nobody_asked_for_is_a_fault() {
    let mut channel = Channel::new();
    assert_eq!(
        channel.receive(&Response::Success),
        Err(ProtocolFault { awaiting: Awaiting::Nothing, response: ResponseKind::Success })
    );
    assert!(channel.faulted());
}

#[test]
fn every_legal_response_is_taken_and_every_other_is_a_fault() {
    let mut awaited: Vec<Awaiting> =
        PROTOCOL_KINDS.iter().map(|kind| Awaiting::Reply(*kind)).collect();
    awaited.push(Awaiting::SaveOutcome);
    for awaiting in awaited {
        for response in protocol_responses() {
            let mut channel = Channel::new();
            match awaiting {
                Awaiting::Reply(kind) => {
                    assert!(channel.send(kind));
                }
                _ => {
                    assert!(channel.send(CommandKind::SaveDocumentAs));
                    assert_eq!(
                        channel.receive(&Response::SavePath(vec!["f.pack".to_owned()])),
                        Ok(())
                    );
                    assert!(channel.answer(false));
                }
            }
            assert_eq!(channel.awaiting(), awaiting);
            let legal = response.is_legal_for(awaiting);
            let taken = channel.receive(&response);
            assert_eq!(taken.is_ok(), legal);
            assert_eq!(channel.faulted(), !legal);
            if let Err(fault) = taken {
                assert_eq!(fault, ProtocolFault { awaiting, response: response.kind() });
            }
        }
    }
}

#[test]
fn saving_under_another_name_takes_two_steps() {
    let mut channel = Channel::new();
    assert!(channel.send(CommandKind::SaveDocumentAs));
    assert_eq!(channel.receive(&Response::SavePath(vec!["old.pack".to_owned()])), Ok(()));
    assert_eq!(channel.awaiting(), Awaiting::Destination);
    assert!(!channel.can_send());
    assert!(!channel.send(CommandKind::SaveDocument));
    assert!(channel.answer(false));
    assert_eq!(channel.awaiting(), Awaiting::SaveOutcome);
    assert!(!channel.answer(false));
    assert_eq!(channel.receive(&Response::Saved(3)), Ok(()));
    assert_eq!(channel.awaiting(), Awaiting::Nothing);
    assert!(channel.can_send());
}

#[test]
fn cancelling_releases_the_worker_without_a_response() {
    let mut channel = Channel::new();
    assert!(channel.send(CommandKind::SaveDocumentAs));
    assert_eq!(channel.receive(&Response::SavePath(vec!["old.pack".to_owned()])), Ok(()));
    assert!(channel.answer(true));
    assert_eq!(channel.awaiting(), Awaiting::Nothing);
    assert!(!channel.faulted());
    assert!(channel.can_send());
}

#[test]
fn a_place_without_file_name_is_no_legal_response() {
    let mut channel = Channel::new();
    assert!(channel.send(CommandKind::SaveDocumentAs));
    assert!(channel.receive(&Response::SavePath(Vec::new())).is_err());
    assert!(channel.faulted());
}

#[test]
fn an_answer_is_refused_unless_the_worker_waits_for_it() {
    let mut channel = Channel::new();
    assert!(!channel.answer(true));
    assert!(!channel.answer(false));
    assert!(channel.send(CommandKind::SaveDocumentAs));
    assert!(!channel.answer(false));
    assert_eq!(channel.awaiting(), Awaiting::Reply(CommandKind::SaveDocumentAs));
    assert_eq!(channel.receive(&Response::Error(ErrorKind::PackFileIsNonEditable)), Ok(()));
    assert_eq!(channel.awaiting(), Awaiting::Nothing);
    assert!(!channel.answer(false));
}

#[test]
fn polling_changes_nothing_until_a_response_comes() {
    let mut channel = Channel::new();
    assert!(channel.send(CommandKind::NewDocument));
    assert_eq!(channel.poll(None), Poll::Pending);
    assert_eq!(channel.poll(None), Poll::Pending);
    assert_eq!(channel.awaiting(), Awaiting::Reply(CommandKind::NewDocument));
    assert_eq!(channel.poll(Some(&Response::Created(5))), Poll::Ready);
    assert_eq!(channel.awaiting(), Awaiting::Nothing);
    assert_eq!(channel.poll(None), Poll::Pending);
    assert!(!channel.faulted());
}

#[test]
fn polling_reports_a_fault() {
    let mut channel = Channel::new();
    assert!(channel.send(CommandKind::NewDocument));
    assert_eq!(
        channel.poll(Some(&Response::Success)),
        Poll::Fault(ProtocolFault {
            awaiting: Awaiting::Reply(CommandKind::NewDocument),
            response: ResponseKind::Success,
        })
    );
    assert!(channel.faulted());
}

#[test]
fn clones_of_payloads_are_equal() {
    for kind in [
        PackedFileType::Loc("a".to_owned()),
        PackedFileType::Text("b".to_owned()),
        PackedFileType::DB("c".to_owned(), "t".to_owned(), 3),
    ] {
        assert_eq!(kind.clone(), kind);
    }
    for error in [
        ErrorKind::EmptyInput,
        ErrorKind::LocDecode("m".to_owned()),
        ErrorKind::IOGenericDelete(vec![vec!["a".to_owned(), "b".to_owned()]]),
        ErrorKind::IOGenericCopy(vec!["a".to_owned()]),
        ErrorKind::Generic("g".to_owned()),
    ] {
        assert_eq!(error.clone(), error);
    }
}
