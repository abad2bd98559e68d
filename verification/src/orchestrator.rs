//! The download orchestrator: a state machine that drives metadata fetch,
//! title sanitization, the tuned primary invocation, failure classification,
//! at most one relaxed fallback invocation, and output-file resolution. The
//! caller performs the process runs and filesystem reads each step asks for
//! and feeds the results back in.
use vstd::prelude::*;
use vstd::string::StringExecFns;
use crate::errors::DownloadError;
use crate::history::DownloadHistory;
use crate::history::DownloadStatus;
use crate::history::outcome_consistent;
use crate::invocation::args_view;
use crate::invocation::build_fallback_args;
use crate::invocation::build_list_formats_args;
use crate::invocation::build_primary_args;
use crate::invocation::fallback_args_spec;
use crate::invocation::list_formats_args_spec;
use crate::invocation::output_template;
use crate::invocation::primary_args_spec;
use crate::invocation::supported_format;
use crate::sanitize::sanitize_spec;
use crate::sanitize::sanitize_title;
use crate::text::contains_seq;
use crate::text::contains_str;
use crate::text::join_slash;
use crate::text::starts_with_seq;
use crate::text::starts_with_str;
use crate::text::stem_of;
use crate::text::stem_spec;

verus! {

/// One download request, consumed by one orchestration run.
#[derive(Clone, Debug)]
pub struct DownloadRequest {
    pub url: String,
    pub format: String,
    pub quality: String,
    pub output_path: String,
    pub filename: Option<String>,
}

/// The tool's error text signals a failure the fallback can recover from:
/// a rejected format selector or a signature-extraction breakdown.
pub open spec fn recoverable_spec(stderr: Seq<char>) -> bool {
    contains_seq(stderr, "Requested format is not available"@) || contains_seq(
        stderr,
        "nsig extraction failed"@,
    )
}

/// Tagged classification of a failed invocation's error text.
#[derive(Clone, Copy, PartialEq, Eq, Structural, Debug)]
pub enum ErrorClass {
    Recoverable,
    Fatal,
}

/// Classifies the tool's error text.
pub fn classify_error(stderr: &str) -> (r: ErrorClass)
    ensures
        r is Recoverable <==> recoverable_spec(stderr@),
{
    if contains_str(stderr, "Requested format is not available") || contains_str(
        stderr,
        "nsig extraction failed",
    ) {
        ErrorClass::Recoverable
    } else {
        ErrorClass::Fatal
    }
}

/// The orchestration phases, in the order a run passes through them.
#[derive(Clone, Copy, PartialEq, Eq, Structural, Debug)]
pub enum Phase {
    Fetching,
    Primary,
    Fallback,
    Resolving,
    Done,
}

/// The phase after consuming one external result: `ok` is the external
/// step's success, `recoverable` the classification of its error text.
pub open spec fn next_phase(p: Phase, ok: bool, recoverable: bool) -> Phase {
    match p {
        Phase::Fetching => if ok {
            Phase::Primary
        } else {
            Phase::Done
        },
        Phase::Primary => if ok {
            Phase::Resolving
        } else if recoverable {
            Phase::Fallback
        } else {
            Phase::Done
        },
        Phase::Fallback => if ok {
            Phase::Resolving
        } else {
            Phase::Done
        },
        Phase::Resolving => Phase::Done,
        Phase::Done => Phase::Done,
    }
}

/// How many fallback invocations a run launches when it starts in phase `p`
/// and the external steps come back as the event sequence says: each event
/// is (success, error-text-was-recoverable).
pub open spec fn fallback_launches(p: Phase, evs: Seq<(bool, bool)>) -> int
    decreases evs.len(),
{
    if evs.len() == 0 {
        0
    } else {
        let q = next_phase(p, evs[0].0, evs[0].1);
        (if p is Primary && q is Fallback {
            1int
        } else {
            0int
        }) + fallback_launches(q, evs.drop_first())
    }
}

/// Once a run has left the primary phase, no later event can launch a
/// fallback: the machine never returns to `Primary`.
pub proof fn lemma_no_fallback_after(p: Phase, evs: Seq<(bool, bool)>)
    requires
        !(p is Fetching),
        !(p is Primary),
    ensures
        fallback_launches(p, evs) == 0,
    decreases evs.len(),
{
    if evs.len() > 0 {
        lemma_no_fallback_after(next_phase(p, evs[0].0, evs[0].1), evs.drop_first());
    }
}

/// A primary failure with a recoverable error text launches exactly one
/// fallback invocation, whatever happens afterwards.
pub proof fn lemma_recoverable_failure_single_fallback(evs: Seq<(bool, bool)>)
    requires
        evs.len() > 0,
        !evs[0].0,
        evs[0].1,
    ensures
        next_phase(Phase::Primary, evs[0].0, evs[0].1) is Fallback,
        fallback_launches(Phase::Primary, evs) == 1,
{
    lemma_no_fallback_after(Phase::Fallback, evs.drop_first());
}

/// A primary failure with an unrelated error text is terminal: the run ends
/// at once and no fallback is ever launched.
pub proof fn lemma_fatal_failure_no_fallback(evs: Seq<(bool, bool)>)
    requires
        evs.len() > 0,
        !evs[0].0,
        !evs[0].1,
    ensures
        next_phase(Phase::Primary, evs[0].0, evs[0].1) is Done,
        fallback_launches(Phase::Primary, evs) == 0,
{
    lemma_no_fallback_after(Phase::Done, evs.drop_first());
}

/// One orchestration in flight: the immutable run context plus the phase
/// and the values resolved so far.
pub struct Orchestration {
    pub id: String,
    pub url: String,
    pub format: String,
    pub quality: String,
    pub output_dir: String,
    pub cache_dir: String,
    pub filename: Option<String>,
    pub phase: Phase,
    pub title: String,
    pub stem: String,
}

/// What the caller must do next for a run.
pub enum StepAction {
    /// Run the extraction tool with these arguments and hand back exit
    /// status and output.
    RunTool { args: Vec<String> },
    /// Best-effort: run the diagnostic format listing, then run the fallback
    /// arguments; failures of the listing are logged and swallowed.
    RunFallback { list_args: Vec<String>, args: Vec<String> },
    /// Look for the produced file: the exact expected name first, then any
    /// directory entry whose stem extends the sanitized stem.
    Resolve { dir: String, stem: String, ext: String },
    /// The run is over; persist and display the outcome. A failed run also
    /// carries its place in the error taxonomy.
    Report { outcome: DownloadHistory, error: Option<DownloadError> },
}

impl Orchestration {
    /// The run context is well formed: a supported format was requested.
    pub open spec fn wf(self) -> bool {
        supported_format(self.format@)
    }

    /// Starts a run: the metadata fetch comes first.
    pub fn start(id: String, request: &DownloadRequest, cache_dir: String) -> (r: Result<
        (Orchestration, Vec<String>),
        DownloadError,
    >)
        ensures
            r is Ok <==> supported_format(request.format@),
            r matches Ok(p) ==> {
                &&& p.0.wf()
                &&& p.0.phase is Fetching
                &&& p.0.id@ == id@
                &&& p.0.url@ == request.url@
                &&& p.0.format@ == request.format@
                &&& p.0.quality@ == request.quality@
                &&& p.0.output_dir@ == request.output_path@
                &&& p.0.cache_dir@ == cache_dir@
                &&& p.0.filename == request.filename
                &&& args_view(p.1@) == crate::invocation::info_args_spec(cache_dir@, request.url@)
            },
            r matches Err(e) ==> e is UnsupportedFormat,
    {
        if !(crate::text::str_eq(request.format.as_str(), "mp3") || crate::text::str_eq(
            request.format.as_str(),
            "wav",
        ) || crate::text::str_eq(request.format.as_str(), "mp4") || crate::text::str_eq(
            request.format.as_str(),
            "webm",
        )) {
            return Err(DownloadError::UnsupportedFormat);
        }
        let args = crate::invocation::build_info_args(cache_dir.as_str(), request.url.as_str());
        let o = Orchestration {
            id,
            url: request.url.clone(),
            format: request.format.clone(),
            quality: request.quality.clone(),
            output_dir: request.output_path.clone(),
            cache_dir,
            filename: match &request.filename {
                Some(f) => Some(f.clone()),
                None => None,
            },
            phase: Phase::Fetching,
            title: String::new(),
            stem: String::new(),
        };
        Ok((o, args))
    }

    /// Consumes the metadata-fetch result. On success the title is kept, the
    /// stem derived (the explicit filename's stem when one was supplied,
    /// else the sanitized title), and the tuned invocation is handed out; on
    /// failure the run is over with no fallback.
    pub fn on_info(self, ok: bool, title: &str, detail: &str, now: i64) -> (r: (
        Orchestration,
        StepAction,
    ))
        requires
            self.wf(),
            self.phase is Fetching,
        ensures
            r.0.wf(),
            r.0.phase == next_phase(Phase::Fetching, ok, false),
            r.0.id@ == self.id@ && r.0.url@ == self.url@ && r.0.format@ == self.format@
                && r.0.quality@ == self.quality@ && r.0.output_dir@ == self.output_dir@
                && r.0.cache_dir@ == self.cache_dir@,
            ok ==> {
                &&& r.0.title@ == title@
                &&& r.0.stem@ == (match self.filename {
                    Some(f) => stem_spec(f@),
                    None => sanitize_spec(title@),
                })
                &&& r.1 matches StepAction::RunTool { args } && args_view(args@)
                    == primary_args_spec(
                    self.format@,
                    self.quality@,
                    self.cache_dir@,
                    crate::invocation::output_template_spec(self.output_dir@, r.0.stem@),
                    self.url@,
                )
            },
            !ok ==> (r.1 matches StepAction::Report { outcome, error } && {
                &&& outcome.id@ == self.id@
                &&& outcome.url@ == self.url@
                &&& outcome.status is Failed
                &&& outcome.file_path is None
                &&& outcome.format@ == self.format@
                &&& outcome.quality@ == self.quality@
                &&& outcome.downloaded_at == now
                &&& outcome.title@ == "Błąd pobierania"@
                &&& outcome_consistent(outcome)
                &&& error matches Some(DownloadError::ExtractionFailed(d)) && d@ == detail@
            }),
    {
        if !ok {
            let outcome = DownloadHistory {
                id: self.id.clone(),
                title: String::from_str("Błąd pobierania"),
                url: self.url.clone(),
                status: DownloadStatus::Failed,
                downloaded_at: now,
                file_path: None,
                format: self.format.clone(),
                quality: self.quality.clone(),
            };
            let next = Orchestration { phase: Phase::Done, ..self };
            return (
                next,
                StepAction::Report {
                    outcome,
                    error: Some(DownloadError::ExtractionFailed(String::from_str(detail))),
                },
            );
        }
        let stem = match &self.filename {
            Some(f) => stem_of(f.as_str()),
            None => sanitize_title(title),
        };
        let template = output_template(self.output_dir.as_str(), stem.as_str());
        let args = match build_primary_args(
            self.format.as_str(),
            self.quality.as_str(),
            self.cache_dir.as_str(),
            template.as_str(),
            self.url.as_str(),
        ) {
            Ok(a) => a,
            Err(_) => {
                // Unreachable: the format was checked at start.
                proof {
                    assert(false);
                }
                Vec::new()
            },
        };
        let next = Orchestration {
            phase: Phase::Primary,
            title: String::from_str(title),
            stem,
            ..self
        };
        (next, StepAction::RunTool { args })
    }

    /// Consumes a tool exit from the primary or fallback phase. A primary
    /// failure is classified: a recoverable error text launches the single
    /// fallback (with the diagnostic listing before it); anything else is
    /// terminal. A fallback failure is always terminal.
    pub fn on_tool_exit(self, exit_ok: bool, stderr: &str, now: i64) -> (r: (
        Orchestration,
        StepAction,
    ))
        requires
            self.wf(),
            self.phase is Primary || self.phase is Fallback,
        ensures
            r.0.wf(),
            r.0.phase == next_phase(self.phase, exit_ok, recoverable_spec(stderr@)),
            r.0.id@ == self.id@ && r.0.url@ == self.url@ && r.0.format@ == self.format@
                && r.0.quality@ == self.quality@ && r.0.output_dir@ == self.output_dir@
                && r.0.cache_dir@ == self.cache_dir@ && r.0.title@ == self.title@ && r.0.stem@
                == self.stem@,
            exit_ok ==> (r.1 matches StepAction::Resolve { dir, stem, ext } && dir@
                == self.output_dir@ && stem@ == self.stem@ && ext@ == self.format@),
            !exit_ok && self.phase is Primary && recoverable_spec(stderr@) ==> (r.1 matches
                StepAction::RunFallback { list_args, args } && args_view(list_args@)
                == list_formats_args_spec(self.url@) && args_view(args@) == fallback_args_spec(
                self.format@,
                self.cache_dir@,
                crate::invocation::output_template_spec(self.output_dir@, self.stem@),
                self.url@,
            )),
            !exit_ok && !(self.phase is Primary && recoverable_spec(stderr@)) ==> (r.1 matches
                StepAction::Report { outcome, error } && {
                &&& outcome.id@ == self.id@
                &&& outcome.title@ == self.title@
                &&& outcome.url@ == self.url@
                &&& outcome.status is Failed
                &&& outcome.file_path is None
                &&& outcome.format@ == self.format@
                &&& outcome.quality@ == self.quality@
                &&& outcome.downloaded_at == now
                &&& outcome_consistent(outcome)
                &&& self.phase is Primary ==> (error matches Some(
                    DownloadError::PrimaryInvocationFailed(d),
                ) && d@ == stderr@)
                &&& self.phase is Fallback ==> (error matches Some(
                    DownloadError::FallbackInvocationFailed(d),
                ) && d@ == stderr@)
            }),
    {
        if exit_ok {
            let action = StepAction::Resolve {
                dir: self.output_dir.clone(),
                stem: self.stem.clone(),
                ext: self.format.clone(),
            };
            let next = Orchestration { phase: Phase::Resolving, ..self };
            return (next, action);
        }
        let primary = match self.phase {
            Phase::Primary => true,
            _ => false,
        };
        let recoverable = match classify_error(stderr) {
            ErrorClass::Recoverable => true,
            ErrorClass::Fatal => false,
        };
        if primary && recoverable {
            let list_args = build_list_formats_args(self.url.as_str());
            let template = output_template(self.output_dir.as_str(), self.stem.as_str());
            let args = match build_fallback_args(
                self.format.as_str(),
                self.cache_dir.as_str(),
                template.as_str(),
                self.url.as_str(),
            ) {
                Ok(a) => a,
                Err(_) => {
                    // Unreachable: the format was checked at start.
                    proof {
                        assert(false);
                    }
                    Vec::new()
                },
            };
            let next = Orchestration { phase: Phase::Fallback, ..self };
            (next, StepAction::RunFallback { list_args, args })
        } else {
            let outcome = DownloadHistory {
                id: self.id.clone(),
                title: self.title.clone(),
                url: self.url.clone(),
                status: DownloadStatus::Failed,
                downloaded_at: now,
                file_path: None,
                format: self.format.clone(),
                quality: self.quality.clone(),
            };
            let err = if primary {
                DownloadError::PrimaryInvocationFailed(String::from_str(stderr))
            } else {
                DownloadError::FallbackInvocationFailed(String::from_str(stderr))
            };
            let next = Orchestration { phase: Phase::Done, ..self };
            (next, StepAction::Report { outcome, error: Some(err) })
        }
    }

    /// Consumes the file-resolution result: a resolved path ends the run
    /// `Completed`, none ends it `Failed` even though the tool reported
    /// success.
    pub fn on_resolved(self, resolved: Option<String>, now: i64) -> (r: (
        Orchestration,
        DownloadHistory,
        Option<DownloadError>,
    ))
        requires
            self.wf(),
            self.phase is Resolving,
            resolved matches Some(p) ==> p@.len() > 0,
        ensures
            r.0.phase is Done,
            r.1.id@ == self.id@,
            r.1.title@ == self.title@,
            r.1.url@ == self.url@,
            r.1.format@ == self.format@,
            r.1.quality@ == self.quality@,
            r.1.downloaded_at == now,
            r.1.status is Completed <==> resolved is Some,
            r.1.status is Failed <==> resolved is None,
            resolved matches Some(p) ==> (r.1.file_path matches Some(q) && q@ == p@),
            outcome_consistent(r.1),
            resolved is Some ==> r.2 is None,
            resolved is None ==> (r.2 matches Some(e) && e is FileNotFound),
    {
        let (status, file_path, err) = match resolved {
            Some(p) => (DownloadStatus::Completed, Some(p), None),
            None => (DownloadStatus::Failed, None, Some(DownloadError::FileNotFound)),
        };
        let outcome = DownloadHistory {
            id: self.id.clone(),
            title: self.title.clone(),
            url: self.url.clone(),
            status,
            downloaded_at: now,
            file_path,
            format: self.format.clone(),
            quality: self.quality.clone(),
        };
        let next = Orchestration { phase: Phase::Done, ..self };
        (next, outcome, err)
    }
}

/// Picks the produced file. `expected_exists` says whether the exact
/// expected name (stem plus requested extension) is on disk; `entries` are
/// the output directory's file names, scanned in order for the first whose
/// stem extends the sanitized stem — the tool may have altered the
/// extension during a remux.
pub fn resolve_output(
    dir: &str,
    stem: &str,
    ext: &str,
    expected_exists: bool,
    entries: &Vec<String>,
) -> (r: Option<String>)
    ensures
        expected_exists ==> match r {
            Some(p) => p@ == dir@ + "/"@ + stem@ + "."@ + ext@,
            None => false,
        },
        !expected_exists ==> match r {
            Some(p) => exists|i: int|
                {
                    &&& 0 <= i < entries@.len()
                    &&& #[trigger] starts_with_seq(stem_spec(entries@[i]@), stem@)
                    &&& p@ == dir@ + "/"@ + entries@[i]@
                    &&& forall|j: int|
                        0 <= j < i ==> !starts_with_seq(stem_spec(#[trigger] entries@[j]@), stem@)
                },
            None => forall|j: int|
                0 <= j < entries@.len() ==> !starts_with_seq(
                    stem_spec(#[trigger] entries@[j]@),
                    stem@,
                ),
        },
{
    if expected_exists {
        let base = join_slash(dir, stem);
        let p = base.concat(".").concat(ext);
        proof {
            assert(p@ =~= dir@ + "/"@ + stem@ + "."@ + ext@);
        }
        return Some(p);
    }
    let mut i: usize = 0;
    while i < entries.len()
        invariant
            !expected_exists,
            i <= entries@.len(),
            forall|j: int|
                0 <= j < i ==> !starts_with_seq(stem_spec(#[trigger] entries@[j]@), stem@),
        decreases entries@.len() - i,
    {
        let entry_stem = stem_of(entries[i].as_str());
        if starts_with_str(entry_stem.as_str(), stem) {
            let p = join_slash(dir, entries[i].as_str());
            proof {
                assert(starts_with_seq(stem_spec(entries@[i as int]@), stem@));
                assert(p@ == dir@ + "/"@ + entries@[i as int]@);
            }
            return Some(p);
        }
        i = i + 1;
    }
    None
}

/// The scratch directory the tool's cache lives in, under the system's
/// temporary root. Creating and cleaning it is the caller's concern.
pub fn cache_dir_path(temp_dir: &str) -> (r: String)
    ensures
        r@ == temp_dir@ + "/snapper-cache"@,
{
    let r = join_slash(temp_dir, "snapper-cache");
    proof {
        reveal_strlit("/");
        reveal_strlit("snapper-cache");
        reveal_strlit("/snapper-cache");
        assert(r@ =~= temp_dir@ + "/snapper-cache"@);
    }
    r
}

/// Relies on `uuid::Uuid::new_v4`, rendered with `to_string`: the value is
/// random, so only its shape is promised — the hyphenated form is always 36
/// characters. It aborts only if the operating system's randomness source
/// fails.
#[verifier::external_body]
fn new_correlation_id() -> (r: String)
    ensures
        r@.len() == 36,
{
    uuid::Uuid::new_v4().to_string()
}

/// Relies on `chrono::Utc::now`, read as `timestamp_millis`: the clock's
/// current reading, of which nothing is promised. It aborts only if the
/// system clock stands before the Unix epoch.
#[verifier::external_body]
fn now_millis() -> (r: i64) {
    chrono::Utc::now().timestamp_millis()
}

/// Opens a run: draws a fresh correlation id and builds the in-flight
/// record that is persisted before the background task starts.
pub fn begin_download(request: &DownloadRequest) -> (r: (String, DownloadHistory))
    ensures
        r.0@.len() == 36,
        r.1.id@ == r.0@,
        r.1.title@ == "Pobieranie..."@,
        r.1.url@ == request.url@,
        r.1.status is Downloading,
        r.1.file_path is None,
        r.1.format@ == request.format@,
        r.1.quality@ == request.quality@,
        outcome_consistent(r.1),
{
    let id = new_correlation_id();
    let now = now_millis();
    let record = DownloadHistory {
        id: id.clone(),
        title: String::from_str("Pobieranie..."),
        url: request.url.clone(),
        status: DownloadStatus::Downloading,
        downloaded_at: now,
        file_path: None,
        format: request.format.clone(),
        quality: request.quality.clone(),
    };
    (id, record)
}

/// The timestamp a terminal outcome is stamped with.
pub fn terminal_timestamp() -> (r: i64) {
    now_millis()
}

} // verus!
