use lansend::center::{get_detailed_mail, PostOffice, ResolveError};
use lansend::file::UserFile;
use lansend::messages::{
    MailDataDetailed, MailDataOutline, MailWithReceivers, PostOfficeMessage, WsMessageToClient,
};
use lansend::presence::ConnectionHandle;
use lansend::user::User;

fn h(id: u64) -> ConnectionHandle {
    ConnectionHandle { id }
}

fn connect(office: &mut PostOffice, user: &str, session: &str, handle: u64) {
    let r = office.handle(PostOfficeMessage::Connect {
        user_id: user.to_string(),
        session_id: session.to_string(),
        session_addr: h(handle),
    });
    assert!(r.is_none());
}

fn update(office: &mut PostOffice, id: &str, name: &str) {
    let r = office.handle(PostOfficeMessage::UpdateUser(User {
        id: id.to_string(),
        user_name: name.to_string(),
    }));
    assert!(r.is_none());
}

fn stored_file(id: &str) -> UserFile {
    UserFile { id: id.to_string(), name: "notes.txt".to_string(), size: 42, user_id: "u1".to_string() }
}

#[test]
fn mail_reaches_only_online_receivers() {
    let mut office = PostOffice::new();
    connect(&mut office, "A", "a1", 1);
    connect(&mut office, "A", "a2", 2);
    connect(&mut office, "C", "c1", 3);
    let pending = office
        .handle(PostOfficeMessage::Mail {
            sender_id: "S".to_string(),
            time: 5,
            mail: MailWithReceivers {
                receivers: vec!["A".to_string(), "B".to_string(), "C".to_string()],
                data: MailDataOutline::Text("hello".to_string()),
            },
        })
        .expect("mail is pending");
    assert_eq!(pending.targets, vec![h(1), h(2), h(3)]);
    let detail = get_detailed_mail(&pending.data, Ok(None));
    let d = pending.deliver("m1".to_string(), detail).expect("delivered");
    assert_eq!(d.targets, vec![h(1), h(2), h(3)]);
}

#[test]
fn missing_file_drops_the_mail() {
    let mut office = PostOffice::new();
    connect(&mut office, "A", "a1", 1);
    let pending = office
        .handle(PostOfficeMessage::Mail {
            sender_id: "S".to_string(),
            time: 5,
            mail: MailWithReceivers {
                receivers: vec!["A".to_string()],
                data: MailDataOutline::File("nope".to_string()),
            },
        })
        .expect("mail is pending");
    let detail = get_detailed_mail(&pending.data, Ok(None));
    match &detail {
        Err(ResolveError::NotFound(id)) => assert_eq!(id, "nope"),
        other => panic!("unexpected {:?}", other),
    }
    assert!(pending.deliver("m1".to_string(), detail).is_none());
    connect(&mut office, "B", "b1", 2);
    assert_eq!(office.tick().expect("presence changed").targets, vec![h(1), h(2)]);
}

#[test]
fn storage_failure_is_reported() {
    let outline = MailDataOutline::LongText("f1".to_string());
    match get_detailed_mail(&outline, Err("disk".to_string())) {
        Err(ResolveError::Storage(e)) => assert_eq!(e, "disk"),
        other => panic!("unexpected {:?}", other),
    }
}

#[test]
fn found_files_resolve_to_their_metadata() {
    let file = MailDataOutline::File("f1".to_string());
    match get_detailed_mail(&file, Ok(Some(stored_file("f1")))) {
        Ok(MailDataDetailed::File(f)) => {
            assert_eq!(f.id, "f1");
            assert_eq!(f.size, 42);
        }
        other => panic!("unexpected {:?}", other),
    }
    let long = MailDataOutline::LongText("f2".to_string());
    match get_detailed_mail(&long, Ok(Some(stored_file("f2")))) {
        Ok(MailDataDetailed::LongText(f)) => assert_eq!(f.id, "f2"),
        other => panic!("unexpected {:?}", other),
    }
    assert_eq!(file.file_ref(), Some("f1".to_string()));
    assert_eq!(MailDataOutline::Text("x".to_string()).file_ref(), None);
}

#[test]
fn receivers_are_captured_when_mail_is_sent() {
    let mut office = PostOffice::new();
    connect(&mut office, "A", "a1", 1);
    let pending = office
        .handle(PostOfficeMessage::Mail {
            sender_id: "S".to_string(),
            time: 5,
            mail: MailWithReceivers {
                receivers: vec!["A".to_string()],
                data: MailDataOutline::Text("t".to_string()),
            },
        })
        .expect("mail is pending");
    office.handle(PostOfficeMessage::Disconnect {
        user_id: "A".to_string(),
        session_id: "a1".to_string(),
    });
    assert_eq!(pending.targets, vec![h(1)]);
}

#[test]
fn debounce_many_changes_one_snapshot() {
    let mut office = PostOffice::new();
    assert!(office.tick().is_none());
    update(&mut office, "u1", "Alice");
    connect(&mut office, "u1", "c1", 1);
    connect(&mut office, "u1", "c2", 2);
    office.handle(PostOfficeMessage::Disconnect {
        user_id: "u1".to_string(),
        session_id: "c2".to_string(),
    });
    let snap = office.tick().expect("one snapshot");
    assert_eq!(snap.targets, vec![h(1)]);
    assert!(office.tick().is_none());
}

#[test]
fn end_to_end_text_mail() {
    let mut office = PostOffice::new();
    update(&mut office, "u1", "One");
    connect(&mut office, "u1", "c1", 1);
    update(&mut office, "u2", "Two");
    connect(&mut office, "u2", "c2", 2);
    let pending = office
        .handle(PostOfficeMessage::Mail {
            sender_id: "u1".to_string(),
            time: 1000,
            mail: MailWithReceivers {
                receivers: vec!["u2".to_string()],
                data: MailDataOutline::Text("hi".to_string()),
            },
        })
        .expect("mail is pending");
    let detail = get_detailed_mail(&pending.data, Ok(None));
    let d = pending.deliver("m1".to_string(), detail).expect("delivered");
    assert_eq!(d.targets, vec![h(2)]);
    match d.message {
        WsMessageToClient::Mail(m) => {
            assert_eq!(m.sender, "u1");
            assert_eq!(m.id, "m1");
            assert_eq!(m.create_date, 1000);
            match m.data {
                MailDataDetailed::Text(t) => assert_eq!(t, "hi"),
                other => panic!("unexpected {:?}", other),
            }
        }
        other => panic!("unexpected {:?}", other),
    }
    let ids: Vec<String> = office.get_users().into_iter().map(|u| u.id).collect();
    assert_eq!(ids, vec!["u1".to_string(), "u2".to_string()]);
}
