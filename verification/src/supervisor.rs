//! The process supervisor: a single-slot job lifecycle.
//!
//! One job runs at a time. The boundary layer drives the job through this
//! state machine and performs the actual process I/O: it asks `start` for
//! the validated argument list, spawns, records the child with `on_spawned`,
//! feeds output lines through `stdout_line_events`, and reports the end of
//! the job through `finish`. `cancel` may be called at any time from another
//! task; it empties the slot and hands back the process identity to kill.

use vstd::prelude::*;

use crate::errors::DownloadError;

verus! {

/// An immutable download request: target URL, desired audio format
/// (`"best"` means no conversion), playlist flag, destination directory.
#[derive(Debug, Clone)]
pub struct DownloadRequest {
    pub url: String,
    pub audio_format: String,
    pub playlist: bool,
    pub save_path: String,
}

/// The final, exactly-once classification of a finished job.
#[derive(Debug, Clone, Copy, PartialEq, Eq, Structural)]
pub enum TerminalOutcome {
    Success,
    Failed(i32),
    Cancelled,
}

/// The single shared location holding the live job's process identity:
/// either empty or exactly one process id.
pub struct ProcessSlot {
    pub pid: Option<u32>,
}

/// Whether a job's completion path is still owed a terminal outcome.
pub enum JobPhase {
    Idle,
    Running,
}

/// The supervisor: the process slot plus the job lifecycle phase.
pub struct Supervisor {
    pub slot: ProcessSlot,
    pub phase: JobPhase,
}

/// The deterministic argument list built from a request: extraction flag,
/// output directory and filename templates, platform-safe-filename flag,
/// line-buffered no-color flags, codec tool location, the optional audio
/// format conversion, exactly one of the two playlist flags, and the URL
/// last.
pub open spec fn spec_args(req: DownloadRequest, ffmpeg_dir: Seq<char>) -> Seq<Seq<char>> {
    let base = seq![
        "-x"@,
        "-P"@,
        "home:"@ + req.save_path@,
        "-o"@,
        "%(title).200s [%(id)s].%(ext)s"@,
        "--windows-filenames"@,
        "--newline"@,
        "--no-colors"@,
        "--ffmpeg-location="@ + ffmpeg_dir,
    ];
    let with_format = if req.audio_format@ == "best"@ {
        base
    } else {
        base + seq!["--audio-format"@, req.audio_format@]
    };
    let with_playlist = with_format.push(
        if req.playlist {
            "--yes-playlist"@
        } else {
            "--no-playlist"@
        },
    );
    with_playlist.push(req.url@)
}

/// Builds the tool's argument list from the request.
pub fn build_args(req: &DownloadRequest, ffmpeg_dir: &str) -> (r: Vec<String>)
    ensures
        r.deep_view() == spec_args(*req, ffmpeg_dir@),
{
    let mut args: Vec<String> = Vec::new();
    args.push(String::from_str("-x"));
    args.push(String::from_str("-P"));
    args.push(String::from_str("home:").concat(req.save_path.as_str()));
    args.push(String::from_str("-o"));
    args.push(String::from_str("%(title).200s [%(id)s].%(ext)s"));
    args.push(String::from_str("--windows-filenames"));
    args.push(String::from_str("--newline"));
    args.push(String::from_str("--no-colors"));
    args.push(String::from_str("--ffmpeg-location=").concat(ffmpeg_dir));
    if !crate::strings::str_equal(req.audio_format.as_str(), "best") {
        args.push(String::from_str("--audio-format"));
        args.push(req.audio_format.clone());
    }
    if req.playlist {
        args.push(String::from_str("--yes-playlist"));
    } else {
        args.push(String::from_str("--no-playlist"));
    }
    args.push(req.url.clone());
    proof {
        assert(args.deep_view() =~= spec_args(*req, ffmpeg_dir@));
    }
    args
}

/// What cancelling does to the supervisor: the slot is emptied whatever it
/// held, the phase is untouched, and the old process identity (if any) is
/// what must be killed.
pub open spec fn cancel_transition(s: Supervisor) -> (Supervisor, Option<u32>) {
    (Supervisor { slot: ProcessSlot { pid: None }, phase: s.phase }, s.slot.pid)
}

/// What the completion path reports: no exit status (the slot was emptied by
/// a concurrent cancel) means `Cancelled`; exit code 0 means `Success`; any
/// other exit means `Failed` with that code. The slot is empty afterwards.
pub open spec fn finish_transition(s: Supervisor, exit: Option<(bool, i32)>) -> (
    Supervisor,
    TerminalOutcome,
) {
    let t = match exit {
        Option::None => TerminalOutcome::Cancelled,
        Option::Some((success, code)) => if success {
            TerminalOutcome::Success
        } else {
            TerminalOutcome::Failed(code)
        },
    };
    (Supervisor { slot: ProcessSlot { pid: None }, phase: JobPhase::Idle }, t)
}

impl Supervisor {
    /// A fresh supervisor: no job, empty slot.
    pub fn new() -> (s: Supervisor)
        ensures
            s.phase is Idle,
            s.slot.pid is None,
    {
        Supervisor { slot: ProcessSlot { pid: None }, phase: JobPhase::Idle }
    }

    /// True while no job is in flight. The boundary layer must check this
    /// before starting a job: requests are serialized, never queued.
    pub fn is_idle(&self) -> (r: bool)
        ensures
            r == (self.phase is Idle),
    {
        match self.phase {
            JobPhase::Idle => true,
            JobPhase::Running => false,
        }
    }

    /// True while the slot holds a live process identity.
    pub fn completion_pending(&self) -> (r: bool)
        ensures
            r == (self.slot.pid is Some),
    {
        match self.slot.pid {
            Option::Some(_) => true,
            Option::None => false,
        }
    }

    /// Validates the prerequisites of a job and builds the argument list.
    /// Fails with `PrerequisiteMissing` when the tool binary is absent. The
    /// supervisor itself is untouched: the job begins only at `on_spawned`.
    pub fn start(&self, req: &DownloadRequest, installed: bool, ffmpeg_dir: &str) -> (r: Result<
        Vec<String>,
        DownloadError,
    >)
        requires
            self.phase is Idle,
            self.slot.pid is None,
        ensures
            match r {
                Ok(args) => installed && args.deep_view() == spec_args(*req, ffmpeg_dir@),
                Err(e) => !installed && e is PrerequisiteMissing,
            },
    {
        if !installed {
            return Err(DownloadError::PrerequisiteMissing);
        }
        Ok(build_args(req, ffmpeg_dir))
    }

    /// Records the identity of the freshly spawned process. The slot must be
    /// empty: the supervisor never overwrites a live job.
    pub fn on_spawned(&mut self, pid: u32)
        requires
            old(self).phase is Idle,
            old(self).slot.pid is None,
        ensures
            final(self).phase is Running,
            final(self).slot.pid == Some(pid),
    {
        self.slot.pid = Some(pid);
        self.phase = JobPhase::Running;
    }

    /// Empties the slot and reports which process (if any) must be killed.
    /// May be called at any time; when the slot is already empty (job done
    /// or never started) it is a no-op, so cancelling is idempotent and
    /// never fails.
    pub fn cancel(&mut self) -> (kill: Option<u32>)
        ensures
            (*final(self), kill) == cancel_transition(*old(self)),
            final(self).slot.pid is None,
    {
        let kill = self.slot.pid;
        self.slot.pid = None;
        kill
    }

    /// Ends the job, exactly once, and derives the terminal outcome. The
    /// caller reports the exit status of the process it took from the slot;
    /// it can hold one if and only if the slot was still occupied, so an
    /// interim cancel forces the `Cancelled` outcome even when the killed
    /// process would have reported some exit code.
    pub fn finish(&mut self, exit: Option<(bool, i32)>) -> (t: TerminalOutcome)
        requires
            old(self).phase is Running,
            (exit is Some) == (old(self).slot.pid is Some),
        ensures
            (*final(self), t) == finish_transition(*old(self), exit),
            final(self).phase is Idle,
            final(self).slot.pid is None,
            old(self).slot.pid is None ==> t is Cancelled,
    {
        self.slot.pid = None;
        self.phase = JobPhase::Idle;
        match exit {
            Option::None => TerminalOutcome::Cancelled,
            Option::Some((success, code)) => {
                if success {
                    TerminalOutcome::Success
                } else {
                    TerminalOutcome::Failed(code)
                }
            },
        }
    }
}

/// The two events produced for one stdout line: the progress event, emitted
/// first when the line carries a percentage, then the log event carrying the
/// raw line.
pub struct LineEvents {
    pub progress: Option<String>,
    pub log: String,
}

/// Turns one stdout line into its events: a progress event exactly when the
/// line matches the progress pattern, and always a log event with the raw
/// line. (Stderr lines produce only the log event.)
pub fn stdout_line_events(line: &str) -> (r: LineEvents)
    ensures
        match r.progress {
            Some(p) => crate::progress::spec_parse_progress(line@) == Some(p@),
            None => crate::progress::spec_parse_progress(line@) is None,
        },
        r.log@ == line@,
{
    LineEvents { progress: crate::progress::parse_progress(line), log: String::from_str(line) }
}

/// The payload of the terminal event: `"success"`, or `"failed:"` with the
/// exit code. A cancelled job emits no terminal event; its outcome surfaces
/// as the `Cancelled` error instead.
pub open spec fn spec_terminal_payload(t: TerminalOutcome) -> Option<Seq<char>> {
    match t {
        TerminalOutcome::Success => Some("success"@),
        TerminalOutcome::Failed(code) => Some(
            "failed:"@ + crate::strings::spec_int_string(code as int),
        ),
        TerminalOutcome::Cancelled => None,
    }
}

/// Renders the terminal event payload for the event sink.
pub fn terminal_payload(t: &TerminalOutcome) -> (r: Option<String>)
    ensures
        match r {
            Some(p) => spec_terminal_payload(*t) == Some(p@),
            None => spec_terminal_payload(*t) is None,
        },
{
    match t {
        TerminalOutcome::Success => Some(String::from_str("success")),
        TerminalOutcome::Failed(code) => {
            let mut s = String::from_str("failed:");
            let digits = crate::strings::i32_string(*code);
            s.append(digits.as_str());
            Some(s)
        },
        TerminalOutcome::Cancelled => None,
    }
}

/// Cancelling is idempotent: a second cancel changes nothing and has nothing
/// to kill, and cancelling when no job ever started leaves the supervisor as
/// it was.
pub proof fn lemma_cancel_idempotent(s: Supervisor)
    ensures
        cancel_transition(cancel_transition(s).0).0 == cancel_transition(s).0,
        cancel_transition(cancel_transition(s).0).1 is None,
        s.slot.pid is None ==> cancel_transition(s).0 == s,
{
}

/// A job that exits with code 0 yields exactly one `Success` outcome, and
/// the slot is empty afterwards; the resulting supervisor is idle, so the
/// completion path cannot report a second outcome.
pub proof fn lemma_clean_exit_is_success(s: Supervisor, code: i32)
    requires
        s.phase is Running,
        s.slot.pid is Some,
    ensures
        finish_transition(s, Some((true, code))).1 is Success,
        finish_transition(s, Some((true, code))).0.slot.pid is None,
        finish_transition(s, Some((true, code))).0.phase is Idle,
{
}

/// A job cancelled mid-stream ends as `Cancelled`, never `Failed`: cancel
/// empties the slot, after which the completion path holds no exit status —
/// whatever exit code the killed process would have reported.
pub proof fn lemma_cancelled_job_reports_cancelled(s: Supervisor)
    requires
        s.phase is Running,
    ensures
        cancel_transition(s).0.slot.pid is None,
        finish_transition(cancel_transition(s).0, None).1 is Cancelled,
{
}

} // verus!
