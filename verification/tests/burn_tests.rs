use oxidisk::burn_logic::{
    file_systems_for, outcome_events, BurnCommand, BurnEvent, BurnJob, BurnReply, BurnSession,
    PathKind, Stage, ERROR_MEDIA_FULL, ERROR_MEDIA_UNSUPPORTED, ERROR_NO_FILES,
    ERROR_RECORDER_UNSUPPORTED, FILE_SYSTEM_UDF,
};
use oxidisk::hw_enum::{MEDIA_TYPE_BDR, MEDIA_TYPE_CDR, MEDIA_TYPE_CDRW, MEDIA_TYPE_DVDPLUSR};

fn show(events: &[BurnEvent]) -> Vec<String> {
    events
        .iter()
        .map(|e| match e {
            BurnEvent::Error(s) => format!("E:{}", s),
            BurnEvent::Log(s) => format!("L:{}", s),
            BurnEvent::Progress { written, total } => format!("P:{}/{}", written, total),
            BurnEvent::Finished => "F".to_string(),
        })
        .collect()
}

fn job(files: &[&str], finalize: bool) -> BurnJob {
    BurnJob {
        files: files.iter().map(|s| s.to_string()).collect(),
        volume_label: "BACKUP".to_string(),
        drive_id: "drive-1".to_string(),
        finalize,
    }
}

fn ok() -> BurnReply {
    BurnReply::Status(Ok(()))
}

/// Runs a session up to the point where it asks to inspect the first path.
fn start(session: &mut BurnSession, media: i32) -> Vec<String> {
    let mut all = Vec::new();
    let (e, c) = session.step(BurnReply::Begin);
    all.extend(show(&e));
    assert!(matches!(c, BurnCommand::OpenRecorder { ref drive_id } if drive_id == "drive-1"));
    let (e, c) = session.step(ok());
    all.extend(show(&e));
    assert!(matches!(c, BurnCommand::CheckRecorder));
    let (e, c) = session.step(BurnReply::Flag(Ok(true)));
    all.extend(show(&e));
    assert!(matches!(c, BurnCommand::CheckMedia));
    let (e, c) = session.step(BurnReply::Flag(Ok(true)));
    all.extend(show(&e));
    assert!(matches!(c, BurnCommand::SetRecorder));
    let (e, c) = session.step(ok());
    all.extend(show(&e));
    assert!(matches!(c, BurnCommand::WatchProgress));
    let (e, c) = session.step(ok());
    all.extend(show(&e));
    assert!(matches!(c, BurnCommand::ReadMediaType));
    let (e, c) = session.step(BurnReply::Code(Ok(media)));
    all.extend(show(&e));
    assert!(matches!(c, BurnCommand::CreateImage));
    let (e, c) = session.step(ok());
    all.extend(show(&e));
    match c {
        BurnCommand::PrepareImage { volume_name, file_systems } => {
            assert_eq!(volume_name, "BACKUP");
            assert_eq!(file_systems, file_systems_for(media));
        }
        _ => panic!("expected PrepareImage"),
    }
    let (e, _) = session.step(ok());
    all.extend(show(&e));
    all
}

#[test]
fn successful_burn_of_a_file_and_a_folder() {
    let mut s = BurnSession::new(job(&["C:\\a.txt", "C:\\docs", "C:\\gone"], false));
    let mut log = start(&mut s, MEDIA_TYPE_CDR);
    assert!(matches!(s.stage, Stage::Inspect(0)));
    let (e, c) = s.step(BurnReply::Path(PathKind::File { name: "a.txt".to_string() }));
    log.extend(show(&e));
    match c {
        BurnCommand::AddFile { source, image_path } => {
            assert_eq!(source, "C:\\a.txt");
            assert_eq!(image_path, "\\a.txt");
        }
        _ => panic!("expected AddFile"),
    }
    let (e, c) = s.step(ok());
    log.extend(show(&e));
    assert!(matches!(c, BurnCommand::InspectPath { ref path } if path == "C:\\docs"));
    let (e, c) = s.step(BurnReply::Path(PathKind::Directory));
    log.extend(show(&e));
    assert!(matches!(c, BurnCommand::AddDirectory { ref path } if path == "C:\\docs"));
    let (e, c) = s.step(ok());
    log.extend(show(&e));
    assert!(matches!(c, BurnCommand::InspectPath { ref path } if path == "C:\\gone"));
    let (e, c) = s.step(BurnReply::Path(PathKind::Missing));
    log.extend(show(&e));
    assert!(matches!(c, BurnCommand::MeasureImage));
    let (e, c) = s.step(BurnReply::Capacity(Ok((1000, 1000))));
    log.extend(show(&e));
    assert!(matches!(c, BurnCommand::Write));
    let (e, c) = s.step(ok());
    log.extend(show(&e));
    assert!(matches!(c, BurnCommand::Stop));
    assert!(s.is_done());
    assert_eq!(
        log,
        vec![
            "L:COM Objects initialized",
            "L:Setting recorder",
            "L:Setting up progress events",
            "L:Creating File System",
            "L:Current Media type: \"CDR\"",
            "L:Created FS Image",
            "L:Adding files to image",
            "L:Path: C:\\gone does not exist. Skipping",
            "L:Creating image stream",
            "L:Beginning Write",
            "F",
        ]
    );
}

#[test]
fn finalize_closes_media_before_writing() {
    let mut s = BurnSession::new(job(&["f"], true));
    start(&mut s, MEDIA_TYPE_BDR);
    let (_, c) = s.step(BurnReply::Path(PathKind::File { name: "f".to_string() }));
    assert!(matches!(c, BurnCommand::AddFile { .. }));
    let (_, c) = s.step(ok());
    assert!(matches!(c, BurnCommand::MeasureImage));
    let (e, c) = s.step(BurnReply::Capacity(Ok((5000, 10))));
    assert!(show(&e).is_empty());
    assert!(matches!(c, BurnCommand::CloseMedia));
    let (e, c) = s.step(BurnReply::Status(Err(-5)));
    assert_eq!(show(&e), vec!["L:Beginning Write"]);
    assert!(matches!(c, BurnCommand::Write));
}

#[test]
fn empty_file_list_fails() {
    let mut s = BurnSession::new(job(&[], false));
    s.step(BurnReply::Begin);
    let (e, c) = s.step(ok());
    assert!(matches!(c, BurnCommand::Stop));
    assert_eq!(
        show(&e),
        vec![
            "L:COM Objects initialized",
            "E:File list is empty",
            "E:Burn Failed: 0x80070057",
            "E:Press 'esc' to return to Main Menu",
        ]
    );
    assert_eq!(ERROR_NO_FILES as u32, 0x80070057);
}

#[test]
fn failed_open_reports_its_code() {
    let mut s = BurnSession::new(job(&["f"], false));
    s.step(BurnReply::Begin);
    let (e, c) = s.step(BurnReply::Status(Err(0x80004005u32 as i32)));
    assert!(matches!(c, BurnCommand::Stop));
    assert_eq!(
        show(&e),
        vec!["E:Burn Failed: 0x80004005", "E:Press 'esc' to return to Main Menu"]
    );
}

#[test]
fn unsupported_recorder_names_its_product() {
    let mut s = BurnSession::new(job(&["f"], false));
    s.step(BurnReply::Begin);
    s.step(ok());
    let (e, c) = s.step(BurnReply::Flag(Ok(false)));
    assert_eq!(
        show(&e),
        vec!["E:Recorder is not supported. Make sure you have the correct drive selected"]
    );
    assert!(matches!(c, BurnCommand::ReadProductId));
    let (e, c) = s.step(BurnReply::Text(Ok("BDR-XD07".to_string())));
    assert!(matches!(c, BurnCommand::Stop));
    assert_eq!(
        show(&e),
        vec![
            "E:Product ID: BDR-XD07",
            "E:Burn Failed: 0xC0AA0407",
            "E:Press 'esc' to return to Main Menu",
        ]
    );
    assert_eq!(ERROR_RECORDER_UNSUPPORTED as u32, 0xC0AA0407);
}

#[test]
fn unsupported_media_fails() {
    let mut s = BurnSession::new(job(&["f"], false));
    s.step(BurnReply::Begin);
    s.step(ok());
    s.step(BurnReply::Flag(Ok(true)));
    let (e, c) = s.step(BurnReply::Flag(Ok(false)));
    assert!(matches!(c, BurnCommand::Stop));
    assert_eq!(
        show(&e),
        vec![
            "E:Media is not supported. Make sure media is writable and blank",
            "E:Burn Failed: 0xC0AA0406",
            "E:Press 'esc' to return to Main Menu",
        ]
    );
    assert_eq!(ERROR_MEDIA_UNSUPPORTED as u32, 0xC0AA0406);
}

#[test]
fn image_larger_than_media_fails() {
    let mut s = BurnSession::new(job(&["f"], true));
    start(&mut s, MEDIA_TYPE_DVDPLUSR);
    s.step(BurnReply::Path(PathKind::File { name: "f".to_string() }));
    s.step(ok());
    let (e, c) = s.step(BurnReply::Capacity(Ok((99, 100))));
    assert!(matches!(c, BurnCommand::Stop));
    assert_eq!(
        show(&e),
        vec![
            "E:Burn job size exceeds disc capacity",
            "E:Burn Failed: 0xC0AA0404",
            "E:Press 'esc' to return to Main Menu",
        ]
    );
    assert_eq!(ERROR_MEDIA_FULL as u32, 0xC0AA0404);
}

#[test]
fn failed_write_reports_its_code() {
    let mut s = BurnSession::new(job(&["f"], false));
    start(&mut s, MEDIA_TYPE_CDRW);
    s.step(BurnReply::Path(PathKind::Directory));
    s.step(ok());
    s.step(BurnReply::Capacity(Ok((10, 1))));
    let (e, c) = s.step(BurnReply::Status(Err(0x1234)));
    assert!(matches!(c, BurnCommand::Stop));
    assert_eq!(
        show(&e),
        vec!["E:Burn Failed: 0x00001234", "E:Press 'esc' to return to Main Menu"]
    );
}

#[test]
fn every_file_missing_still_builds_the_image() {
    let mut s = BurnSession::new(job(&["x", "y"], false));
    start(&mut s, MEDIA_TYPE_CDR);
    let (e, c) = s.step(BurnReply::Path(PathKind::Missing));
    assert_eq!(show(&e), vec!["L:Path: x does not exist. Skipping"]);
    assert!(matches!(c, BurnCommand::InspectPath { ref path } if path == "y"));
    let (e, c) = s.step(BurnReply::Path(PathKind::Missing));
    assert_eq!(
        show(&e),
        vec!["L:Path: y does not exist. Skipping", "L:Creating image stream"]
    );
    assert!(matches!(c, BurnCommand::MeasureImage));
}

#[test]
fn media_type_message_quotes_the_name() {
    let mut s = BurnSession::new(job(&["f"], false));
    let log = start(&mut s, 42);
    assert!(log.contains(&"L:Current Media type: \"Unknown\"".to_string()));
}

#[test]
fn file_systems_by_media() {
    assert_eq!(file_systems_for(MEDIA_TYPE_CDR), 3);
    assert_eq!(file_systems_for(MEDIA_TYPE_CDRW), 3);
    assert_eq!(file_systems_for(MEDIA_TYPE_DVDPLUSR), FILE_SYSTEM_UDF);
    assert_eq!(file_systems_for(MEDIA_TYPE_BDR), 4);
    assert_eq!(file_systems_for(0), 4);
}

#[test]
fn outcome_of_a_job() {
    assert_eq!(show(&outcome_events(Ok(()))), vec!["F"]);
    assert_eq!(
        show(&outcome_events(Err(-1))),
        vec!["E:Burn Failed: 0xFFFFFFFF", "E:Press 'esc' to return to Main Menu"]
    );
    assert_eq!(
        show(&outcome_events(Err(0))),
        vec!["E:Burn Failed: 0x00000000", "E:Press 'esc' to return to Main Menu"]
    );
}

#[test]
fn session_runs_to_an_end_within_its_bound() {
    let files = ["a", "b", "c"];
    let mut s = BurnSession::new(job(&files, false));
    let mut steps = 0;
    let mut reply = BurnReply::Begin;
    loop {
        let (_, c) = s.step(reply);
        steps += 1;
        reply = match c {
            BurnCommand::Stop => break,
            BurnCommand::CheckRecorder | BurnCommand::CheckMedia => BurnReply::Flag(Ok(true)),
            BurnCommand::ReadProductId => BurnReply::Text(Ok(String::new())),
            BurnCommand::ReadMediaType => BurnReply::Code(Ok(MEDIA_TYPE_CDR)),
            BurnCommand::InspectPath { .. } => BurnReply::Path(PathKind::Directory),
            BurnCommand::MeasureImage => BurnReply::Capacity(Ok((10, 1))),
            _ => ok(),
        };
    }
    assert!(s.is_done());
    assert!(steps <= 13 + 2 * files.len());
}

#[test]
fn session_tells_which_answers_it_waits_for() {
    let mut s = BurnSession::new(job(&["f"], false));
    assert!(s.awaits_reply(&BurnReply::Begin));
    assert!(!s.awaits_reply(&ok()));
    s.step(BurnReply::Begin);
    assert!(s.awaits_reply(&ok()));
    assert!(!s.awaits_reply(&BurnReply::Flag(Ok(true))));
    s.step(ok());
    assert!(s.awaits_reply(&BurnReply::Flag(Err(3))));
    assert!(!s.awaits_reply(&BurnReply::Path(PathKind::Missing)));
    s.step(BurnReply::Flag(Err(3)));
    assert!(s.is_done());
    assert!(!s.awaits_reply(&BurnReply::Begin));
    assert!(!s.awaits_reply(&ok()));
}
