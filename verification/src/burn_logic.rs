//! One burn job as a protocol between the decisions of this module and the
//! device work that its caller performs: the session says what to do next
//! and which messages to report, the caller does it and answers with what
//! came back.

use vstd::prelude::*;
use crate::text::{digits_value, hex_digits, lemma_hex_roundtrip, pow16, push_hex};
use crate::hw_enum::{media_type_name, DriveInfo, MEDIA_TYPE_CDR, MEDIA_TYPE_CDRW};

verus! {

/// A message from a running burn job to the dashboard.
pub enum BurnEvent {
    Error(String),
    Log(String),
    /// The recorder has written `written` of `total` sectors.
    Progress { written: i32, total: i32 },
    Finished,
}

pub enum BurnEventView {
    Error(Seq<char>),
    Log(Seq<char>),
    Progress { written: i32, total: i32 },
    Finished,
}

impl View for BurnEvent {
    type V = BurnEventView;

    open spec fn view(&self) -> BurnEventView {
        match self {
            BurnEvent::Error(s) => BurnEventView::Error(s@),
            BurnEvent::Log(s) => BurnEventView::Log(s@),
            BurnEvent::Progress { written, total } => BurnEventView::Progress {
                written: *written,
                total: *total,
            },
            BurnEvent::Finished => BurnEventView::Finished,
        }
    }
}

/// The views of a list of events.
pub open spec fn event_views(events: Seq<BurnEvent>) -> Seq<BurnEventView> {
    events.map_values(|e: BurnEvent| e@)
}

// Result codes with which a job fails on its own account.
/// No files to burn (`E_INVALIDARG`).
pub const ERROR_NO_FILES: i32 = -2147024809;
/// The image is larger than the free space on the media.
pub const ERROR_MEDIA_FULL: i32 = -1062599676;
/// The media cannot be written.
pub const ERROR_MEDIA_UNSUPPORTED: i32 = -1062599674;
/// The recorder cannot be used.
pub const ERROR_RECORDER_UNSUPPORTED: i32 = -1062599673;

// File systems that an image can hold, as bit flags.
pub const FILE_SYSTEM_ISO9660: i32 = 1;
pub const FILE_SYSTEM_JOLIET: i32 = 2;
pub const FILE_SYSTEM_UDF: i32 = 4;

/// The file systems written for a media type: ISO 9660 with Joliet on CDs
/// that can be written, UDF on everything else.
pub open spec fn file_systems_spec(media: i32) -> i32 {
    if media == MEDIA_TYPE_CDR || media == MEDIA_TYPE_CDRW {
        3
    } else {
        FILE_SYSTEM_UDF
    }
}

/// The file systems written for a media type.
pub fn file_systems_for(media: i32) -> (fs: i32)
    ensures
        fs == file_systems_spec(media),
{
    if media == MEDIA_TYPE_CDR || media == MEDIA_TYPE_CDRW {
        assert(FILE_SYSTEM_ISO9660 | FILE_SYSTEM_JOLIET == 3i32) by (bit_vector);
        FILE_SYSTEM_ISO9660 | FILE_SYSTEM_JOLIET
    } else {
        FILE_SYSTEM_UDF
    }
}

/// The 32 bits of a result code, read as an unsigned number.
pub open spec fn code_bits(code: i32) -> nat {
    if code < 0 {
        (code + 0x1_0000_0000) as nat
    } else {
        code as nat
    }
}

/// The report of a failed job: its result code in eight upper-case hex
/// digits, and how to leave the burn screen.
pub open spec fn failure_report(code: i32) -> Seq<BurnEventView> {
    seq![
        BurnEventView::Error("Burn Failed: 0x"@ + hex_digits(code_bits(code), 8)),
        BurnEventView::Error("Press 'esc' to return to Main Menu"@),
    ]
}

/// The failure report names the result code exactly: its eight digits read
/// back as the code's 32 bits.
pub proof fn lemma_failure_report_names_code(code: i32)
    ensures
        hex_digits(code_bits(code), 8).len() == 8,
        digits_value(hex_digits(code_bits(code), 8), 16) == code_bits(code),
{
    lemma_hex_roundtrip(code_bits(code), 8);
    reveal_with_fuel(pow16, 9);
    assert(pow16(8) == 0x1_0000_0000);
}

/// The report of a job that ended: `Finished` on success, the failure
/// report otherwise.
pub fn outcome_events(result: Result<(), i32>) -> (events: Vec<BurnEvent>)
    ensures
        event_views(events@) == (match result {
            Ok(_) => seq![BurnEventView::Finished],
            Err(code) => failure_report(code),
        }),
{
    let mut events: Vec<BurnEvent> = Vec::new();
    match result {
        Ok(_) => {
            events.push(BurnEvent::Finished);
        },
        Err(code) => {
            let bits: u32 = if code < 0 {
                (code as i64 + 0x1_0000_0000i64) as u32
            } else {
                code as u32
            };
            let mut text = String::from_str("Burn Failed: 0x");
            push_hex(&mut text, bits, 8);
            events.push(BurnEvent::Error(text));
            events.push(BurnEvent::Error(String::from_str("Press 'esc' to return to Main Menu")));
        },
    }
    assert(event_views(events@) =~= (match result {
        Ok(_) => seq![BurnEventView::Finished],
        Err(code) => failure_report(code),
    }));
    events
}


/// What a job asks its caller to burn.
pub struct BurnJob {
    pub files: Vec<String>,
    pub volume_label: String,
    pub drive_id: String,
    pub finalize: bool,
}

pub struct BurnJobView {
    pub files: Seq<Seq<char>>,
    pub volume_label: Seq<char>,
    pub drive_id: Seq<char>,
    pub finalize: bool,
}

impl View for BurnJob {
    type V = BurnJobView;

    open spec fn view(&self) -> BurnJobView {
        BurnJobView {
            files: texts(self.files@),
            volume_label: self.volume_label@,
            drive_id: self.drive_id@,
            finalize: self.finalize,
        }
    }
}

/// What a path of the file list turned out to be.
pub enum PathKind {
    Missing,
    Directory,
    /// A file, with its final path component.
    File { name: String },
}

pub enum PathKindView {
    Missing,
    Directory,
    File { name: Seq<char> },
}

impl View for PathKind {
    type V = PathKindView;

    open spec fn view(&self) -> PathKindView {
        match self {
            PathKind::Missing => PathKindView::Missing,
            PathKind::Directory => PathKindView::Directory,
            PathKind::File { name } => PathKindView::File { name: name@ },
        }
    }
}

/// The caller's answer to the last command: what the device work gave
/// back, an error being the failed operation's result code.
pub enum BurnReply {
    /// Starts the session.
    Begin,
    Status(Result<(), i32>),
    Flag(Result<bool, i32>),
    Text(Result<String, i32>),
    Code(Result<i32, i32>),
    Path(PathKind),
    /// Free sectors on the media, and the block size that the built image
    /// reports (`BlockSize`); the job fails when the first is smaller.
    Capacity(Result<(i32, i32), i32>),
}

pub enum BurnReplyView {
    Begin,
    Status(Result<(), i32>),
    Flag(Result<bool, i32>),
    Text(Result<Seq<char>, i32>),
    Code(Result<i32, i32>),
    Path(PathKindView),
    Capacity(Result<(i32, i32), i32>),
}

impl View for BurnReply {
    type V = BurnReplyView;

    open spec fn view(&self) -> BurnReplyView {
        match self {
            BurnReply::Begin => BurnReplyView::Begin,
            BurnReply::Status(r) => BurnReplyView::Status(*r),
            BurnReply::Flag(r) => BurnReplyView::Flag(*r),
            BurnReply::Text(r) => BurnReplyView::Text(
                match r {
                    Ok(t) => Ok(t@),
                    Err(c) => Err(*c),
                },
            ),
            BurnReply::Code(r) => BurnReplyView::Code(*r),
            BurnReply::Path(p) => BurnReplyView::Path(p@),
            BurnReply::Capacity(r) => BurnReplyView::Capacity(*r),
        }
    }
}

/// The device work that a session asks for next.
pub enum BurnCommand {
    /// Create the recorder and the data writer, bind the recorder to the
    /// drive and name the client.
    OpenRecorder { drive_id: String },
    /// Ask whether the writer supports the recorder (answer: `Flag`).
    CheckRecorder,
    /// Read the recorder's product id (answer: `Text`).
    ReadProductId,
    /// Ask whether the writer supports the media in the drive (`Flag`).
    CheckMedia,
    /// Give the recorder to the writer.
    SetRecorder,
    /// Subscribe to the writer's progress reports.
    WatchProgress,
    /// Read the physical type of the media (`Code`).
    ReadMediaType,
    /// Create an empty file-system image.
    CreateImage,
    /// Name the volume, choose the file systems and open the image's root.
    PrepareImage { volume_name: String, file_systems: i32 },
    /// Find out what a path of the file list is (`Path`).
    InspectPath { path: String },
    /// Add a directory tree to the image's root.
    AddDirectory { path: String },
    /// Add a file to the image under `image_path`.
    AddFile { source: String, image_path: String },
    /// Build the image, read the free sectors on the media and the image's
    /// block size (`Capacity`).
    MeasureImage,
    /// Have the media closed after writing (any `Status` answers).
    CloseMedia,
    /// Write the image, then end the progress subscription.
    Write,
    /// The job is over.
    Stop,
}

pub enum BurnCommandView {
    OpenRecorder { drive_id: Seq<char> },
    CheckRecorder,
    ReadProductId,
    CheckMedia,
    SetRecorder,
    WatchProgress,
    ReadMediaType,
    CreateImage,
    PrepareImage { volume_name: Seq<char>, file_systems: i32 },
    InspectPath { path: Seq<char> },
    AddDirectory { path: Seq<char> },
    AddFile { source: Seq<char>, image_path: Seq<char> },
    MeasureImage,
    CloseMedia,
    Write,
    Stop,
}

impl View for BurnCommand {
    type V = BurnCommandView;

    open spec fn view(&self) -> BurnCommandView {
        match self {
            BurnCommand::OpenRecorder { drive_id } => BurnCommandView::OpenRecorder {
                drive_id: drive_id@,
            },
            BurnCommand::CheckRecorder => BurnCommandView::CheckRecorder,
            BurnCommand::ReadProductId => BurnCommandView::ReadProductId,
            BurnCommand::CheckMedia => BurnCommandView::CheckMedia,
            BurnCommand::SetRecorder => BurnCommandView::SetRecorder,
            BurnCommand::WatchProgress => BurnCommandView::WatchProgress,
            BurnCommand::ReadMediaType => BurnCommandView::ReadMediaType,
            BurnCommand::CreateImage => BurnCommandView::CreateImage,
            BurnCommand::PrepareImage { volume_name, file_systems } =>
                BurnCommandView::PrepareImage {
                    volume_name: volume_name@,
                    file_systems: *file_systems,
                },
            BurnCommand::InspectPath { path } => BurnCommandView::InspectPath { path: path@ },
            BurnCommand::AddDirectory { path } => BurnCommandView::AddDirectory { path: path@ },
            BurnCommand::AddFile { source, image_path } => BurnCommandView::AddFile {
                source: source@,
                image_path: image_path@,
            },
            BurnCommand::MeasureImage => BurnCommandView::MeasureImage,
            BurnCommand::CloseMedia => BurnCommandView::CloseMedia,
            BurnCommand::Write => BurnCommandView::Write,
            BurnCommand::Stop => BurnCommandView::Stop,
        }
    }
}

/// Where a session stands: the answer it waits for.
#[derive(PartialEq, Eq, Structural, Clone, Copy)]
pub enum Stage {
    Start,
    Open,
    RecorderCheck,
    ProductId,
    MediaCheck,
    SetRecorder,
    WatchProgress,
    MediaType,
    CreateImage,
    PrepareImage,
    /// Waits for what the file at this index is.
    Inspect(usize),
    /// Waits for the file at this index to be added.
    AddEntry(usize),
    Measure,
    CloseMedia,
    Write,
    Done,
}

/// One burn job in progress.
pub struct BurnSession {
    pub job: BurnJob,
    pub stage: Stage,
    /// The file systems chosen once the media type is known.
    pub file_systems: i32,
}

pub struct SessionView {
    pub files: Seq<Seq<char>>,
    pub volume_label: Seq<char>,
    pub drive_id: Seq<char>,
    pub finalize: bool,
    pub stage: Stage,
    pub file_systems: i32,
}

/// The characters of each string of a list.
pub open spec fn texts(v: Seq<String>) -> Seq<Seq<char>> {
    v.map_values(|s: String| s@)
}

impl View for BurnSession {
    type V = SessionView;

    open spec fn view(&self) -> SessionView {
        SessionView {
            files: texts(self.job.files@),
            volume_label: self.job.volume_label@,
            drive_id: self.job.drive_id@,
            finalize: self.job.finalize,
            stage: self.stage,
            file_systems: self.file_systems,
        }
    }
}

/// The session `s` at stage `stage`.
pub open spec fn at_stage(s: SessionView, stage: Stage) -> SessionView {
    SessionView { stage, ..s }
}

/// The reply `r` is of the kind that a session at `stage` waits for.
pub open spec fn awaits(stage: Stage, r: BurnReplyView) -> bool {
    match stage {
        Stage::Start => r is Begin,
        Stage::Open | Stage::SetRecorder | Stage::WatchProgress | Stage::CreateImage
        | Stage::PrepareImage | Stage::AddEntry(_) | Stage::CloseMedia | Stage::Write => r is Status,
        Stage::RecorderCheck | Stage::MediaCheck => r is Flag,
        Stage::ProductId => r is Text,
        Stage::MediaType => r is Code,
        Stage::Inspect(_) => r is Path,
        Stage::Measure => r is Capacity,
        Stage::Done => false,
    }
}

/// The reply `r` is of the kind that answers the command `c`; `Stop` takes
/// no answer.
pub open spec fn answers(c: BurnCommandView, r: BurnReplyView) -> bool {
    match c {
        BurnCommandView::OpenRecorder { .. } | BurnCommandView::SetRecorder
        | BurnCommandView::WatchProgress | BurnCommandView::CreateImage
        | BurnCommandView::PrepareImage { .. } | BurnCommandView::AddDirectory { .. }
        | BurnCommandView::AddFile { .. } | BurnCommandView::CloseMedia
        | BurnCommandView::Write => r is Status,
        BurnCommandView::CheckRecorder | BurnCommandView::CheckMedia => r is Flag,
        BurnCommandView::ReadProductId => r is Text,
        BurnCommandView::ReadMediaType => r is Code,
        BurnCommandView::InspectPath { .. } => r is Path,
        BurnCommandView::MeasureImage => r is Capacity,
        BurnCommandView::Stop => false,
    }
}

/// The indices that a session holds point into its file list.
pub open spec fn session_wf(s: SessionView) -> bool {
    match s.stage {
        Stage::Inspect(i) => i < s.files.len(),
        Stage::AddEntry(i) => i < s.files.len(),
        _ => true,
    }
}

/// A step's outcome: the session afterwards, the messages to report, and
/// the device work to do next.
pub type StepView = (SessionView, Seq<BurnEventView>, BurnCommandView);

/// The job fails with `code`: `prior` messages, then the failure report.
pub open spec fn fail(s: SessionView, prior: Seq<BurnEventView>, code: i32) -> StepView {
    (at_stage(s, Stage::Done), prior + failure_report(code), BurnCommandView::Stop)
}

/// Goes on with the file at index `j`, or builds the image once every file
/// was seen.
pub open spec fn next_file(s: SessionView, prior: Seq<BurnEventView>, j: int) -> StepView {
    if j < s.files.len() {
        (at_stage(s, Stage::Inspect(j as usize)), prior, BurnCommandView::InspectPath { path: s.files[j] })
    } else {
        (
            at_stage(s, Stage::Measure),
            prior.push(BurnEventView::Log("Creating image stream"@)),
            BurnCommandView::MeasureImage,
        )
    }
}

/// The message that names the media type.
pub open spec fn media_type_message(code: i32) -> Seq<char> {
    "Current Media type: \""@ + media_type_name(code) + "\""@
}

/// What a session at `s` does with the reply `r`.
pub open spec fn transition(s: SessionView, r: BurnReplyView) -> StepView {
    let none = Seq::<BurnEventView>::empty();
    match (s.stage, r) {
        (Stage::Start, _) => (
            at_stage(s, Stage::Open),
            none,
            BurnCommandView::OpenRecorder { drive_id: s.drive_id },
        ),
        (Stage::Open, BurnReplyView::Status(Err(c))) => fail(s, none, c),
        (Stage::Open, _) => {
            let opened = seq![BurnEventView::Log("COM Objects initialized"@)];
            if s.files.len() == 0 {
                fail(s, opened.push(BurnEventView::Error("File list is empty"@)), ERROR_NO_FILES)
            } else {
                (at_stage(s, Stage::RecorderCheck), opened, BurnCommandView::CheckRecorder)
            }
        },
        (Stage::RecorderCheck, BurnReplyView::Flag(Err(c))) => fail(s, none, c),
        (Stage::RecorderCheck, BurnReplyView::Flag(Ok(false))) => (
            at_stage(s, Stage::ProductId),
            seq![BurnEventView::Error("Recorder is not supported. Make sure you have the correct drive selected"@)],
            BurnCommandView::ReadProductId,
        ),
        (Stage::RecorderCheck, _) => (at_stage(s, Stage::MediaCheck), none, BurnCommandView::CheckMedia),
        (Stage::ProductId, BurnReplyView::Text(Err(c))) => fail(s, none, c),
        (Stage::ProductId, BurnReplyView::Text(Ok(id))) => fail(
            s,
            seq![BurnEventView::Error("Product ID: "@ + id)],
            ERROR_RECORDER_UNSUPPORTED,
        ),
        (Stage::MediaCheck, BurnReplyView::Flag(Err(c))) => fail(s, none, c),
        (Stage::MediaCheck, BurnReplyView::Flag(Ok(false))) => fail(
            s,
            seq![BurnEventView::Error("Media is not supported. Make sure media is writable and blank"@)],
            ERROR_MEDIA_UNSUPPORTED,
        ),
        (Stage::MediaCheck, _) => (
            at_stage(s, Stage::SetRecorder),
            seq![BurnEventView::Log("Setting recorder"@)],
            BurnCommandView::SetRecorder,
        ),
        (Stage::SetRecorder, BurnReplyView::Status(Err(c))) => fail(s, none, c),
        (Stage::SetRecorder, _) => (
            at_stage(s, Stage::WatchProgress),
            seq![BurnEventView::Log("Setting up progress events"@)],
            BurnCommandView::WatchProgress,
        ),
        (Stage::WatchProgress, BurnReplyView::Status(Err(c))) => fail(s, none, c),
        (Stage::WatchProgress, _) => (
            at_stage(s, Stage::MediaType),
            seq![BurnEventView::Log("Creating File System"@)],
            BurnCommandView::ReadMediaType,
        ),
        (Stage::MediaType, BurnReplyView::Code(Err(c))) => fail(s, none, c),
        (Stage::MediaType, BurnReplyView::Code(Ok(m))) => (
            SessionView { stage: Stage::CreateImage, file_systems: file_systems_spec(m), ..s },
            seq![BurnEventView::Log(media_type_message(m))],
            BurnCommandView::CreateImage,
        ),
        (Stage::CreateImage, BurnReplyView::Status(Err(c))) => fail(s, none, c),
        (Stage::CreateImage, _) => (
            at_stage(s, Stage::PrepareImage),
            seq![BurnEventView::Log("Created FS Image"@)],
            BurnCommandView::PrepareImage {
                volume_name: s.volume_label,
                file_systems: s.file_systems,
            },
        ),
        (Stage::PrepareImage, BurnReplyView::Status(Err(c))) => fail(s, none, c),
        (Stage::PrepareImage, _) => next_file(
            s,
            seq![BurnEventView::Log("Adding files to image"@)],
            0,
        ),
        (Stage::Inspect(i), BurnReplyView::Path(PathKindView::Missing)) => next_file(
            s,
            seq![BurnEventView::Log("Path: "@ + s.files[i as int] + " does not exist. Skipping"@)],
            i + 1,
        ),
        (Stage::Inspect(i), BurnReplyView::Path(PathKindView::Directory)) => (
            at_stage(s, Stage::AddEntry(i)),
            none,
            BurnCommandView::AddDirectory { path: s.files[i as int] },
        ),
        (Stage::Inspect(i), BurnReplyView::Path(PathKindView::File { name })) => (
            at_stage(s, Stage::AddEntry(i)),
            none,
            BurnCommandView::AddFile { source: s.files[i as int], image_path: "\\"@ + name },
        ),
        (Stage::AddEntry(_), BurnReplyView::Status(Err(c))) => fail(s, none, c),
        (Stage::AddEntry(i), _) => next_file(s, none, i + 1),
        (Stage::Measure, BurnReplyView::Capacity(Err(c))) => fail(s, none, c),
        (Stage::Measure, BurnReplyView::Capacity(Ok((free, needed)))) => if free < needed {
            fail(
                s,
                seq![BurnEventView::Error("Burn job size exceeds disc capacity"@)],
                ERROR_MEDIA_FULL,
            )
        } else if s.finalize {
            (at_stage(s, Stage::CloseMedia), none, BurnCommandView::CloseMedia)
        } else {
            (
                at_stage(s, Stage::Write),
                seq![BurnEventView::Log("Beginning Write"@)],
                BurnCommandView::Write,
            )
        },
        (Stage::CloseMedia, _) => (
            at_stage(s, Stage::Write),
            seq![BurnEventView::Log("Beginning Write"@)],
            BurnCommandView::Write,
        ),
        (Stage::Write, BurnReplyView::Status(Err(c))) => fail(s, none, c),
        (Stage::Write, _) => (
            at_stage(s, Stage::Done),
            seq![BurnEventView::Finished],
            BurnCommandView::Stop,
        ),
        _ => (s, none, BurnCommandView::Stop),
    }
}


/// How far a session at `stage` has come, with `n` files to burn.
pub open spec fn position(stage: Stage, n: nat) -> int {
    match stage {
        Stage::Start => 0,
        Stage::Open => 1,
        Stage::RecorderCheck => 2,
        Stage::ProductId => 3,
        Stage::MediaCheck => 4,
        Stage::SetRecorder => 5,
        Stage::WatchProgress => 6,
        Stage::MediaType => 7,
        Stage::CreateImage => 8,
        Stage::PrepareImage => 9,
        Stage::Inspect(i) => 10 + 2 * i,
        Stage::AddEntry(i) => 11 + 2 * i,
        Stage::Measure => 10 + 2 * (n as int),
        Stage::CloseMedia => 11 + 2 * (n as int),
        Stage::Write => 12 + 2 * (n as int),
        Stage::Done => 13 + 2 * (n as int),
    }
}

/// An upper bound on the answers that a session still waits for.
pub open spec fn steps_left(s: SessionView) -> int {
    13 + 2 * s.files.len() - position(s.stage, s.files.len())
}

/// Every answer moves a session forward: what is left of it shrinks, its
/// file list stays, it stays well formed, it asks for nothing more
/// exactly when it has ended, and the answer to the command it gives is the
/// kind that it then waits for. So a job of `n` files ends after at most
/// `13 + 2n` answers.
pub proof fn lemma_step_progress(s: SessionView, r: BurnReplyView)
    requires
        session_wf(s),
        awaits(s.stage, r),
        s.files.len() <= usize::MAX,
    ensures
        ({
            let t = transition(s, r);
            &&& 0 <= steps_left(t.0) < steps_left(s)
            &&& t.0.files == s.files
            &&& t.0.volume_label == s.volume_label
            &&& session_wf(t.0)
            &&& (t.2 is Stop <==> t.0.stage == Stage::Done)
            &&& forall|r2: BurnReplyView| #[trigger] answers(t.2, r2) ==> awaits(t.0.stage, r2)
        }),
{
}

/// A session that has ended waits for no answer.
pub proof fn lemma_done_is_final(s: SessionView, r: BurnReplyView)
    requires
        s.stage == Stage::Done,
    ensures
        !awaits(s.stage, r),
{
}

/// Each path of the file list is handled as what it is, and under its own
/// index: a file's own contents are added under `\` and its name, a
/// directory is added by its own path, and a missing path is reported by
/// its own path and skipped for the next one (or for building the image
/// after the last).
pub proof fn lemma_each_path_added_as_itself(s: SessionView, i: usize, kind: PathKindView)
    requires
        s.stage == Stage::Inspect(i),
        i < s.files.len(),
        s.files.len() <= usize::MAX,
    ensures
        ({
            let t = transition(s, BurnReplyView::Path(kind));
            &&& t.0.files == s.files
            &&& match kind {
                PathKindView::File { name } => {
                    &&& t.2 == BurnCommandView::AddFile { source: s.files[i as int], image_path: "\\"@ + name }
                    &&& t.0.stage == Stage::AddEntry(i)
                    &&& t.1.len() == 0
                },
                PathKindView::Directory => {
                    &&& t.2 == BurnCommandView::AddDirectory { path: s.files[i as int] }
                    &&& t.0.stage == Stage::AddEntry(i)
                    &&& t.1.len() == 0
                },
                PathKindView::Missing => {
                    &&& t.1[0] == BurnEventView::Log(
                        "Path: "@ + s.files[i as int] + " does not exist. Skipping"@,
                    )
                    &&& (i + 1 < s.files.len() ==> t.2 == BurnCommandView::InspectPath {
                        path: s.files[i + 1],
                    })
                    &&& (i + 1 == s.files.len() ==> t.2 == BurnCommandView::MeasureImage)
                },
            }
        }),
{
}

/// Once a path was added, the session goes on with the very next path of
/// the list, and builds the image after the last one; a failed addition
/// ends the job with its own code.
pub proof fn lemma_next_path_after_entry(s: SessionView, i: usize, result: Result<(), i32>)
    requires
        s.stage == Stage::AddEntry(i),
        i < s.files.len(),
        s.files.len() <= usize::MAX,
    ensures
        ({
            let t = transition(s, BurnReplyView::Status(result));
            &&& result is Ok && i + 1 < s.files.len() ==> t.2 == BurnCommandView::InspectPath {
                path: s.files[i + 1],
            } && t.0.stage == Stage::Inspect((i + 1) as usize)
            &&& result is Ok && i + 1 == s.files.len() ==> t.2 == BurnCommandView::MeasureImage
            &&& result matches Err(c) ==> t.2 == BurnCommandView::Stop && t.1 == failure_report(c)
        }),
{
}

/// The files that an image holds are those of the list, in its order: the
/// first path inspected is the list's first.
pub proof fn lemma_first_path_is_first_file(s: SessionView)
    requires
        s.stage == Stage::PrepareImage,
        s.files.len() > 0,
    ensures
        transition(s, BurnReplyView::Status(Ok(()))).2 == (BurnCommandView::InspectPath {
            path: s.files[0],
        }),
{
}

/// The recorder that is opened is the job's own drive.
pub proof fn lemma_open_names_job_drive(s: SessionView, r: BurnReplyView)
    requires
        s.stage == Stage::Start,
    ensures
        transition(s, r).2 == (BurnCommandView::OpenRecorder { drive_id: s.drive_id }),
{
}

/// The image is named with the job's volume label and holds the file
/// systems for the media type that the recorder reported.
pub proof fn lemma_image_takes_label_and_media(s: SessionView, m: i32)
    requires
        s.stage == Stage::MediaType,
    ensures
        ({
            let t1 = transition(s, BurnReplyView::Code(Ok(m)));
            let t2 = transition(t1.0, BurnReplyView::Status(Ok(())));
            &&& t1.2 == BurnCommandView::CreateImage
            &&& t2.2 == BurnCommandView::PrepareImage {
                volume_name: s.volume_label,
                file_systems: file_systems_spec(m),
            }
        }),
{
}

/// CDs that can be written get ISO 9660 with Joliet; every DVD and Blu-ray
/// media type gets UDF alone.
pub proof fn lemma_file_systems_by_media(m: i32)
    ensures
        (m == 2 || m == 3) ==> file_systems_spec(m) == (FILE_SYSTEM_ISO9660 | FILE_SYSTEM_JOLIET),
        (4 <= m <= 19) ==> file_systems_spec(m) == FILE_SYSTEM_UDF,
        file_systems_spec(m) & FILE_SYSTEM_JOLIET != 0 <==> (m == 2 || m == 3),
        file_systems_spec(m) & FILE_SYSTEM_UDF != 0 <==> !(m == 2 || m == 3),
{
    assert(FILE_SYSTEM_ISO9660 | FILE_SYSTEM_JOLIET == 3i32) by (bit_vector);
    assert(3i32 & 2i32 != 0 && 3i32 & 4i32 == 0 && 4i32 & 2i32 == 0 && 4i32 & 4i32 != 0)
        by (bit_vector);
}

/// Any failed device operation ends the job at once, reporting that very
/// code last.
pub proof fn lemma_device_error_ends_job(s: SessionView, c: i32)
    requires
        s.stage == Stage::Open || s.stage == Stage::SetRecorder || s.stage == Stage::WatchProgress
            || s.stage == Stage::CreateImage || s.stage == Stage::PrepareImage || s.stage
            == Stage::Write || s.stage is AddEntry,
    ensures
        transition(s, BurnReplyView::Status(Err(c))).2 == BurnCommandView::Stop,
        transition(s, BurnReplyView::Status(Err(c))).0.stage == Stage::Done,
        transition(s, BurnReplyView::Status(Err(c))).1 == failure_report(c),
{
}

/// The image is written only when the media has room for it: too little
/// free space ends the job with the media-full code, enough goes on to
/// writing, through closing the media first when the job finalizes.
pub proof fn lemma_capacity_decides_write(s: SessionView, free: i32, needed: i32)
    requires
        s.stage == Stage::Measure,
    ensures
        ({
            let t = transition(s, BurnReplyView::Capacity(Ok((free, needed))));
            &&& free < needed ==> t.2 == BurnCommandView::Stop && t.1 == seq![
                BurnEventView::Error("Burn job size exceeds disc capacity"@),
            ] + failure_report(ERROR_MEDIA_FULL)
            &&& free >= needed && s.finalize ==> t.2 == BurnCommandView::CloseMedia
            &&& free >= needed && !s.finalize ==> t.2 == BurnCommandView::Write
        }),
{
}

/// The checks come in the documented order once the recorder is open:
/// an empty file list fails with the no-files code; then the recorder is
/// checked, and an unsupported one is named by its product id and fails
/// with the recorder code; then the media, and unsupported media fails with
/// the media code; only then is the recorder given to the writer.
pub proof fn lemma_checks_in_order(s: SessionView, id: Seq<char>)
    ensures
        s.stage == Stage::Open && s.files.len() == 0 ==> ({
            let t = transition(s, BurnReplyView::Status(Ok(())));
            t.2 == BurnCommandView::Stop && t.1 == seq![
                BurnEventView::Log("COM Objects initialized"@),
                BurnEventView::Error("File list is empty"@),
            ] + failure_report(ERROR_NO_FILES)
        }),
        s.stage == Stage::Open && s.files.len() > 0 ==> transition(
            s,
            BurnReplyView::Status(Ok(())),
        ).2 == BurnCommandView::CheckRecorder,
        s.stage == Stage::RecorderCheck ==> transition(s, BurnReplyView::Flag(Ok(false))).2
            == BurnCommandView::ReadProductId && transition(s, BurnReplyView::Flag(Ok(true))).2
            == BurnCommandView::CheckMedia,
        s.stage == Stage::ProductId ==> ({
            let t = transition(s, BurnReplyView::Text(Ok(id)));
            t.2 == BurnCommandView::Stop && t.1 == seq![BurnEventView::Error("Product ID: "@ + id)]
                + failure_report(ERROR_RECORDER_UNSUPPORTED)
        }),
        s.stage == Stage::MediaCheck ==> transition(s, BurnReplyView::Flag(Ok(false))).2
            == BurnCommandView::Stop && transition(s, BurnReplyView::Flag(Ok(false))).1.last()
            == failure_report(ERROR_MEDIA_UNSUPPORTED).last() && transition(
            s,
            BurnReplyView::Flag(Ok(true)),
        ).2 == BurnCommandView::SetRecorder,
        s.stage == Stage::SetRecorder ==> transition(s, BurnReplyView::Status(Ok(()))).2
            == BurnCommandView::WatchProgress,
        s.stage == Stage::WatchProgress ==> transition(s, BurnReplyView::Status(Ok(()))).2
            == BurnCommandView::ReadMediaType,
{
}

/// A successful write finishes the job, reporting `Finished` and nothing
/// else; after closing the media the image is written whatever the close
/// gave back.
pub proof fn lemma_write_finishes(s: SessionView, r: Result<(), i32>)
    ensures
        s.stage == Stage::Write ==> transition(s, BurnReplyView::Status(Ok(()))).1 == seq![
            BurnEventView::Finished,
        ] && transition(s, BurnReplyView::Status(Ok(()))).2 == BurnCommandView::Stop,
        s.stage == Stage::CloseMedia ==> transition(s, BurnReplyView::Status(r)).2
            == BurnCommandView::Write,
{
}

fn log_event(text: &str) -> (e: BurnEvent)
    ensures
        e@ == BurnEventView::Log(text@),
{
    BurnEvent::Log(String::from_str(text))
}

fn error_event(text: &str) -> (e: BurnEvent)
    ensures
        e@ == BurnEventView::Error(text@),
{
    BurnEvent::Error(String::from_str(text))
}

fn single(e: BurnEvent) -> (v: Vec<BurnEvent>)
    ensures
        event_views(v@) == seq![e@],
{
    let mut v: Vec<BurnEvent> = Vec::new();
    v.push(e);
    assert(event_views(v@) =~= seq![e@]);
    v
}

impl BurnSession {
    /// A session for `job` that has not started.
    pub fn new(job: BurnJob) -> (s: BurnSession)
        ensures
            s.job == job,
            s.stage == Stage::Start,
            s.file_systems == 0,
            session_wf(s@),
            awaits(s.stage, BurnReplyView::Begin),
    {
        BurnSession { job, stage: Stage::Start, file_systems: 0 }
    }

    /// The session has ended: it waits for no answer.
    pub fn is_done(&self) -> (b: bool)
        ensures
            b == (self.stage == Stage::Done),
    {
        match self.stage {
            Stage::Done => true,
            _ => false,
        }
    }

    /// Whether `reply` is of the kind that the session waits for.
    pub fn awaits_reply(&self, reply: &BurnReply) -> (b: bool)
        ensures
            b == awaits(self.stage, reply@),
    {
        match (self.stage, reply) {
            (Stage::Start, BurnReply::Begin) => true,
            (Stage::Open, BurnReply::Status(_)) => true,
            (Stage::SetRecorder, BurnReply::Status(_)) => true,
            (Stage::WatchProgress, BurnReply::Status(_)) => true,
            (Stage::CreateImage, BurnReply::Status(_)) => true,
            (Stage::PrepareImage, BurnReply::Status(_)) => true,
            (Stage::AddEntry(_), BurnReply::Status(_)) => true,
            (Stage::CloseMedia, BurnReply::Status(_)) => true,
            (Stage::Write, BurnReply::Status(_)) => true,
            (Stage::RecorderCheck, BurnReply::Flag(_)) => true,
            (Stage::MediaCheck, BurnReply::Flag(_)) => true,
            (Stage::ProductId, BurnReply::Text(_)) => true,
            (Stage::MediaType, BurnReply::Code(_)) => true,
            (Stage::Inspect(_), BurnReply::Path(_)) => true,
            (Stage::Measure, BurnReply::Capacity(_)) => true,
            _ => false,
        }
    }

    fn fail(&mut self, prior: Vec<BurnEvent>, code: i32) -> (res: (Vec<BurnEvent>, BurnCommand))
        ensures
            final(self)@ == fail(old(self)@, event_views(prior@), code).0,
            event_views(res.0@) == fail(old(self)@, event_views(prior@), code).1,
            res.1@ == fail(old(self)@, event_views(prior@), code).2,
    {
        let mut events = prior;
        let mut report = outcome_events(Err(code));
        let ghost before = events@;
        events.append(&mut report);
        assert(event_views(events@) =~= event_views(before) + failure_report(code));
        self.stage = Stage::Done;
        (events, BurnCommand::Stop)
    }

    fn next_file(&mut self, prior: Vec<BurnEvent>, j: usize) -> (res: (Vec<BurnEvent>, BurnCommand))
        requires
            j <= old(self).job.files.len(),
        ensures
            final(self)@ == next_file(old(self)@, event_views(prior@), j as int).0,
            event_views(res.0@) == next_file(old(self)@, event_views(prior@), j as int).1,
            res.1@ == next_file(old(self)@, event_views(prior@), j as int).2,
            session_wf(final(self)@),
    {
        let mut events = prior;
        if j < self.job.files.len() {
            self.stage = Stage::Inspect(j);
            let path = self.job.files[j].clone();
            (events, BurnCommand::InspectPath { path })
        } else {
            let ghost before = events@;
            events.push(log_event("Creating image stream"));
            assert(event_views(events@) =~= event_views(before).push(
                BurnEventView::Log("Creating image stream"@),
            ));
            self.stage = Stage::Measure;
            (events, BurnCommand::MeasureImage)
        }
    }

    /// Takes the answer to the last command: returns the messages to report
    /// and the device work to do next, and moves the session on, as
    /// `transition` says.
    pub fn step(&mut self, reply: BurnReply) -> (res: (Vec<BurnEvent>, BurnCommand))
        requires
            session_wf(old(self)@),
            awaits(old(self).stage, reply@),
        ensures
            session_wf(final(self)@),
            final(self)@ == transition(old(self)@, reply@).0,
            event_views(res.0@) == transition(old(self)@, reply@).1,
            res.1@ == transition(old(self)@, reply@).2,
            forall|r: BurnReplyView| #[trigger] answers(res.1@, r) ==> awaits(final(self).stage, r),
    {
        let none: Vec<BurnEvent> = Vec::new();
        assert(event_views(none@) =~= Seq::<BurnEventView>::empty());
        assert(texts(self.job.files@).len() == self.job.files@.len());
        match self.stage {
            Stage::Start => {
                self.stage = Stage::Open;
                (none, BurnCommand::OpenRecorder { drive_id: self.job.drive_id.clone() })
            },
            Stage::Open => match reply {
                BurnReply::Status(Err(c)) => self.fail(none, c),
                _ => {
                    let opened = single(log_event("COM Objects initialized"));
                    if self.job.files.len() == 0 {
                        let mut events = opened;
                        let ghost before = events@;
                        events.push(error_event("File list is empty"));
                        assert(event_views(events@) =~= event_views(before).push(
                            BurnEventView::Error("File list is empty"@),
                        ));
                        self.fail(events, ERROR_NO_FILES)
                    } else {
                        self.stage = Stage::RecorderCheck;
                        (opened, BurnCommand::CheckRecorder)
                    }
                },
            },
            Stage::RecorderCheck => match reply {
                BurnReply::Flag(Err(c)) => self.fail(none, c),
                BurnReply::Flag(Ok(false)) => {
                    self.stage = Stage::ProductId;
                    (
                        single(
                            error_event(
                                "Recorder is not supported. Make sure you have the correct drive selected",
                            ),
                        ),
                        BurnCommand::ReadProductId,
                    )
                },
                _ => {
                    self.stage = Stage::MediaCheck;
                    (none, BurnCommand::CheckMedia)
                },
            },
            Stage::ProductId => match reply {
                BurnReply::Text(Ok(id)) => {
                    let text = String::from_str("Product ID: ").concat(id.as_str());
                    self.fail(single(BurnEvent::Error(text)), ERROR_RECORDER_UNSUPPORTED)
                },
                BurnReply::Text(Err(c)) => self.fail(none, c),
                _ => {
                    assert(false);
                    self.fail(none, 0)
                },
            },
            Stage::MediaCheck => match reply {
                BurnReply::Flag(Err(c)) => self.fail(none, c),
                BurnReply::Flag(Ok(false)) => self.fail(
                    single(
                        error_event("Media is not supported. Make sure media is writable and blank"),
                    ),
                    ERROR_MEDIA_UNSUPPORTED,
                ),
                _ => {
                    self.stage = Stage::SetRecorder;
                    (single(log_event("Setting recorder")), BurnCommand::SetRecorder)
                },
            },
            Stage::SetRecorder => match reply {
                BurnReply::Status(Err(c)) => self.fail(none, c),
                _ => {
                    self.stage = Stage::WatchProgress;
                    (single(log_event("Setting up progress events")), BurnCommand::WatchProgress)
                },
            },
            Stage::WatchProgress => match reply {
                BurnReply::Status(Err(c)) => self.fail(none, c),
                _ => {
                    self.stage = Stage::MediaType;
                    (single(log_event("Creating File System")), BurnCommand::ReadMediaType)
                },
            },
            Stage::MediaType => match reply {
                BurnReply::Code(Ok(m)) => {
                    let text = String::from_str("Current Media type: \"").concat(
                        DriveInfo::get_media_type(m).as_str(),
                    ).concat("\"");
                    self.stage = Stage::CreateImage;
                    self.file_systems = file_systems_for(m);
                    (single(BurnEvent::Log(text)), BurnCommand::CreateImage)
                },
                BurnReply::Code(Err(c)) => self.fail(none, c),
                _ => {
                    assert(false);
                    self.fail(none, 0)
                },
            },
            Stage::CreateImage => match reply {
                BurnReply::Status(Err(c)) => self.fail(none, c),
                _ => {
                    self.stage = Stage::PrepareImage;
                    (
                        single(log_event("Created FS Image")),
                        BurnCommand::PrepareImage {
                            volume_name: self.job.volume_label.clone(),
                            file_systems: self.file_systems,
                        },
                    )
                },
            },
            Stage::PrepareImage => match reply {
                BurnReply::Status(Err(c)) => self.fail(none, c),
                _ => self.next_file(single(log_event("Adding files to image")), 0),
            },
            Stage::Inspect(i) => match reply {
                BurnReply::Path(PathKind::Missing) => {
                    assert(i < self.job.files.len());
                    let text = String::from_str("Path: ").concat(self.job.files[i].as_str()).concat(
                        " does not exist. Skipping",
                    );
                    self.next_file(single(BurnEvent::Log(text)), i + 1)
                },
                BurnReply::Path(PathKind::Directory) => {
                    self.stage = Stage::AddEntry(i);
                    (none, BurnCommand::AddDirectory { path: self.job.files[i].clone() })
                },
                BurnReply::Path(PathKind::File { name }) => {
                    self.stage = Stage::AddEntry(i);
                    let image_path = String::from_str("\\").concat(name.as_str());
                    (none, BurnCommand::AddFile { source: self.job.files[i].clone(), image_path })
                },
                _ => {
                    assert(false);
                    self.fail(none, 0)
                },
            },
            Stage::AddEntry(i) => match reply {
                BurnReply::Status(Err(c)) => self.fail(none, c),
                _ => {
                    assert(i < self.job.files.len());
                    self.next_file(none, i + 1)
                },
            },
            Stage::Measure => match reply {
                BurnReply::Capacity(Ok((free, needed))) => {
                    if free < needed {
                        self.fail(
                            single(error_event("Burn job size exceeds disc capacity")),
                            ERROR_MEDIA_FULL,
                        )
                    } else if self.job.finalize {
                        self.stage = Stage::CloseMedia;
                        (none, BurnCommand::CloseMedia)
                    } else {
                        self.stage = Stage::Write;
                        (single(log_event("Beginning Write")), BurnCommand::Write)
                    }
                },
                BurnReply::Capacity(Err(c)) => self.fail(none, c),
                _ => {
                    assert(false);
                    self.fail(none, 0)
                },
            },
            Stage::CloseMedia => {
                self.stage = Stage::Write;
                (single(log_event("Beginning Write")), BurnCommand::Write)
            },
            Stage::Write => match reply {
                BurnReply::Status(Err(c)) => self.fail(none, c),
                _ => {
                    self.stage = Stage::Done;
                    (single(BurnEvent::Finished), BurnCommand::Stop)
                },
            },
            Stage::Done => (none, BurnCommand::Stop),
        }
    }
}

} // verus!
