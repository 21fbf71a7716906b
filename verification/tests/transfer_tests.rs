use x_pixiv::transfer::{
    referer_header, referer_value, status_is_success, Phase, ProgressReport, Transfer, TransferAction,
    TransferError, TransferEvent,
};

fn begun() -> Transfer {
    let mut t = Transfer::new("http://h/a.png".to_string(), "/out/a.png".to_string());
    assert_eq!(t.step(TransferEvent::Start), TransferAction::CreateParent);
    assert_eq!(t.step(TransferEvent::IoDone), TransferAction::OpenFile);
    assert_eq!(t.step(TransferEvent::IoDone), TransferAction::SendRequest);
    t
}

#[test]
fn new_transfer_has_done_nothing() {
    let t = Transfer::new("http://h/a.png".to_string(), "/out/a.png".to_string());
    assert_eq!(t.source_url(), "http://h/a.png");
    assert_eq!(t.destination_path(), "/out/a.png");
    assert_eq!(t.state().phase, Phase::Created);
    assert_eq!(t.state().received, 0);
    assert_eq!(t.state().total, None);
    assert_eq!(t.outcome(), None);
}

#[test]
fn request_carries_the_referer() {
    assert_eq!(referer_header(), "referer");
    assert_eq!(referer_value(), "https://www.pixiv.net/");
}

#[test]
fn transfer_with_length_announces_and_reports() {
    let mut t = begun();
    assert_eq!(
        t.step(TransferEvent::Response { status: 200, content_length: Some(30) }),
        TransferAction::AnnounceTotal(30)
    );
    assert_eq!(
        t.step(TransferEvent::Chunk { len: 10 }),
        TransferAction::WriteChunk { report: Some(ProgressReport { received: 10, total: 30 }) }
    );
    assert_eq!(t.step(TransferEvent::IoDone), TransferAction::ReadChunk);
    assert_eq!(
        t.step(TransferEvent::Chunk { len: 20 }),
        TransferAction::WriteChunk { report: Some(ProgressReport { received: 30, total: 30 }) }
    );
    assert_eq!(t.step(TransferEvent::IoDone), TransferAction::ReadChunk);
    assert_eq!(t.step(TransferEvent::EndOfBody), TransferAction::Complete);
    assert_eq!(t.outcome(), Some(Ok(())));
    assert_eq!(t.state().received, 30);
    assert_eq!(t.state().total, Some(30));
}

#[test]
fn transfer_without_length_completes_silently() {
    let mut t = begun();
    assert_eq!(
        t.step(TransferEvent::Response { status: 200, content_length: None }),
        TransferAction::ReadChunk
    );
    let mut written = 0u64;
    for len in [4096u64, 4096, 123] {
        assert_eq!(t.step(TransferEvent::Chunk { len }), TransferAction::WriteChunk { report: None });
        written += len;
        assert_eq!(t.step(TransferEvent::IoDone), TransferAction::ReadChunk);
    }
    assert_eq!(t.step(TransferEvent::EndOfBody), TransferAction::Complete);
    assert_eq!(t.outcome(), Some(Ok(())));
    assert_eq!(t.state().received, written);
    assert_eq!(t.state().total, None);
}

#[test]
fn status_that_is_no_success_fails_the_transfer() {
    for status in [199u16, 300, 403, 404, 500] {
        let mut t = begun();
        assert_eq!(
            t.step(TransferEvent::Response { status, content_length: Some(5) }),
            TransferAction::Abort(TransferError::RemoteError(status))
        );
        assert_eq!(t.outcome(), Some(Err(TransferError::RemoteError(status))));
    }
    assert!(status_is_success(200));
    assert!(status_is_success(299));
    assert!(!status_is_success(300));
    assert!(!status_is_success(199));
}

#[test]
fn directory_that_cannot_be_made_fails_the_transfer() {
    let mut t = Transfer::new("u".to_string(), "d".to_string());
    t.step(TransferEvent::Start);
    assert_eq!(t.step(TransferEvent::IoFailed), TransferAction::Abort(TransferError::IoError));
    assert_eq!(t.outcome(), Some(Err(TransferError::IoError)));
}

#[test]
fn file_that_cannot_be_opened_fails_the_transfer() {
    let mut t = Transfer::new("u".to_string(), "d".to_string());
    t.step(TransferEvent::Start);
    t.step(TransferEvent::IoDone);
    assert_eq!(t.step(TransferEvent::IoFailed), TransferAction::Abort(TransferError::IoError));
}

#[test]
fn failed_write_fails_the_transfer() {
    let mut t = begun();
    t.step(TransferEvent::Response { status: 200, content_length: Some(8) });
    t.step(TransferEvent::Chunk { len: 4 });
    assert_eq!(t.step(TransferEvent::IoFailed), TransferAction::Abort(TransferError::IoError));
    assert_eq!(t.state().received, 4);
}

#[test]
fn failed_request_or_stream_fails_the_transfer() {
    let mut t = begun();
    assert_eq!(
        t.step(TransferEvent::NetworkFailed),
        TransferAction::Abort(TransferError::NetworkError)
    );
    let mut t = begun();
    t.step(TransferEvent::Response { status: 206, content_length: None });
    assert_eq!(
        t.step(TransferEvent::NetworkFailed),
        TransferAction::Abort(TransferError::NetworkError)
    );
    assert_eq!(t.outcome(), Some(Err(TransferError::NetworkError)));
}

#[test]
fn ended_transfer_ignores_everything() {
    let mut t = begun();
    t.step(TransferEvent::Response { status: 200, content_length: None });
    t.step(TransferEvent::EndOfBody);
    let state = t.state();
    for e in [
        TransferEvent::Start,
        TransferEvent::IoDone,
        TransferEvent::IoFailed,
        TransferEvent::Chunk { len: 1 },
        TransferEvent::EndOfBody,
        TransferEvent::NetworkFailed,
        TransferEvent::Response { status: 500, content_length: None },
    ] {
        assert_eq!(t.step(e), TransferAction::Ignore);
        assert_eq!(t.state(), state);
    }
}

#[test]
fn event_out_of_turn_is_ignored() {
    let mut t = Transfer::new("u".to_string(), "d".to_string());
    assert_eq!(t.step(TransferEvent::Chunk { len: 1 }), TransferAction::Ignore);
    assert_eq!(t.step(TransferEvent::EndOfBody), TransferAction::Ignore);
    assert_eq!(t.state().phase, Phase::Created);
}

#[test]
fn byte_count_is_held_at_the_largest_number() {
    let mut t = begun();
    t.step(TransferEvent::Response { status: 200, content_length: None });
    t.step(TransferEvent::Chunk { len: u64::MAX });
    t.step(TransferEvent::IoDone);
    t.step(TransferEvent::Chunk { len: 5 });
    assert_eq!(t.state().received, u64::MAX);
}

#[test]
fn downloader_test() {
    let url = "https://i.pximg.net/img-original/img/2023/03/23/00/05/02/106465672_p0.png";
    let mut t = Transfer::new(url.to_string(), String::new());
    assert_eq!(t.step(TransferEvent::Start), TransferAction::CreateParent);
    assert_eq!(t.step(TransferEvent::IoDone), TransferAction::OpenFile);
    assert_eq!(t.step(TransferEvent::IoDone), TransferAction::SendRequest);
    assert_eq!(t.source_url(), url);
    assert_eq!(
        t.step(TransferEvent::Response { status: 200, content_length: Some(3) }),
        TransferAction::AnnounceTotal(3)
    );
    t.step(TransferEvent::Chunk { len: 3 });
    t.step(TransferEvent::IoDone);
    assert_eq!(t.step(TransferEvent::EndOfBody), TransferAction::Complete);
    assert_eq!(t.outcome(), Some(Ok(())));
}
