//! The dual-sink logger: one per-run event log and one append-only
//! cross-run summary log, each sink degrading independently and silently
//! on failure. The sinks' open/disabled state machine and the log file
//! naming live here; the file handles and writes themselves are the
//! caller's, which reports each outcome back.

use vstd::prelude::*;
use vstd::string::StrSliceExecFns;
use vstd::string::StringExecFns;

verus! {

/// `c` with filesystem path separators and spaces replaced by
/// underscores.
pub open spec fn sanitize_char(c: char) -> char {
    if c == '/' || c == '\\' || c == ' ' {
        '_'
    } else {
        c
    }
}

/// `s` sanitized character by character for use in a file name.
pub open spec fn spec_sanitize(s: Seq<char>) -> Seq<char> {
    s.map_values(|c: char| sanitize_char(c))
}

/// Replaces path separators and spaces in `s` with underscores.
pub fn sanitize_filepath(s: &str) -> (r: String)
    ensures
        r@ == spec_sanitize(s@),
{
    let n = s.unicode_len();
    let mut out = String::new();
    let mut i: usize = 0;
    while i < n
        invariant
            n == s@.len() <= usize::MAX,
            0 <= i <= n,
            out@.len() == i,
            forall|k: int| 0 <= k < i ==> out@[k] == sanitize_char(s@[k]),
        decreases n - i,
    {
        let c = s.get_char(i);
        if c == '/' || c == '\\' || c == ' ' {
            out.append("_");
            proof {
                reveal_strlit("_");
            }
        } else {
            let piece = s.substring_char(i, i + 1);
            out.append(piece);
        }
        i += 1;
    }
    proof {
        assert(out@ =~= spec_sanitize(s@));
    }
    out
}

/// The per-run event log file name: the timestamp, an underscore, the
/// sanitized caller-supplied label (or a fixed fallback when absent), and
/// the `.jsonl` extension.
pub open spec fn spec_event_log_filename(timestamp: Seq<char>, filepath: Option<Seq<char>>) -> Seq<
    char,
> {
    timestamp + "_"@ + (match filepath {
        Option::Some(f) => spec_sanitize(f),
        Option::None => "unknown"@,
    }) + ".jsonl"@
}

/// Builds the event log file name from a timestamp and an optional label.
pub fn event_log_filename(timestamp: &str, filepath: Option<&str>) -> (r: String)
    ensures
        r@ == spec_event_log_filename(
            timestamp@,
            match filepath {
                Option::Some(f) => Option::Some(f@),
                Option::None => Option::None,
            },
        ),
{
    let mut out = timestamp.to_owned();
    out.append("_");
    match filepath {
        Option::Some(f) => {
            let s = sanitize_filepath(f);
            out.append(s.as_str());
        },
        Option::None => {
            out.append("unknown");
        },
    }
    out.append(".jsonl");
    proof {
        assert(out@ =~= spec_event_log_filename(
            timestamp@,
            match filepath {
                Option::Some(f) => Option::Some(f@),
                Option::None => Option::None,
            },
        ));
    }
    out
}

/// Relies on `jiff::Zoned::now` and its `strftime` formatting with a fixed
/// `%Y-%m-%dT%H-%M-%S` pattern. The result depends on the clock, so only
/// that it is non-empty (the pattern always writes its literal separators)
/// is assumed.
#[verifier::external_body]
fn now_timestamp() -> (r: String)
    ensures
        r@.len() > 0,
{
    jiff::Zoned::now().strftime("%Y-%m-%dT%H-%M-%S").to_string()
}

/// Builds the event log file name for a run starting now: some non-empty
/// timestamp, an underscore, the sanitized label (or the fallback), and
/// the extension.
pub fn fresh_event_log_filename(filepath: Option<&str>) -> (r: String)
    ensures
        exists|ts: Seq<char>|
            ts.len() > 0 && r@ == spec_event_log_filename(
                ts,
                match filepath {
                    Option::Some(f) => Option::Some(f@),
                    Option::None => Option::None,
                },
            ),
{
    let ts = now_timestamp();
    let ghost tsv = ts@;
    let r = event_log_filename(ts.as_str(), filepath);
    proof {
        assert(r@ == spec_event_log_filename(
            tsv,
            match filepath {
                Option::Some(f) => Option::Some(f@),
                Option::None => Option::None,
            },
        ));
    }
    r
}

/// The dual-sink logger's state: each sink is live or disabled,
/// independently of the other. The event sink disables itself permanently
/// on its first write failure; the summary sink has no persistent handle
/// and so retries on every call, never disabling itself.
pub struct MergeLogger {
    /// Whether the per-run event log file is open and accepting writes.
    pub event_sink_open: bool,
    /// Whether the summary log path resolved, so writes are attempted.
    pub summary_sink_enabled: bool,
}

impl MergeLogger {
    /// Constructs the logger from the outcomes of the caller's setup: the
    /// event sink starts open only if the log directory and the per-run
    /// file both succeeded; the summary sink only needs the directory.
    /// Construction itself never fails — logging is best-effort.
    pub fn new(dir_available: bool, event_file_created: bool) -> (l: MergeLogger)
        ensures
            l.event_sink_open == (dir_available && event_file_created),
            l.summary_sink_enabled == dir_available,
    {
        MergeLogger {
            event_sink_open: dir_available && event_file_created,
            summary_sink_enabled: dir_available,
        }
    }

    /// Advances the event sink for one logged line. The result says
    /// whether the caller should append the line to the event log file;
    /// `write_ok` reports how the caller's previous attempt for this call
    /// went (pass `true` when no write was attempted). A failed write
    /// disables the sink for the rest of the run; a disabled sink is a
    /// no-op and stays unchanged.
    pub fn log_event(&mut self, write_ok: bool) -> (attempt: bool)
        ensures
            attempt == old(self).event_sink_open,
            final(self).summary_sink_enabled == old(self).summary_sink_enabled,
            final(self).event_sink_open == (old(self).event_sink_open && write_ok),
            !old(self).event_sink_open ==> *final(self) == *old(self),
    {
        let attempt = self.event_sink_open;
        if attempt && !write_ok {
            self.event_sink_open = false;
        }
        attempt
    }

    /// Decides one summary write. The result says whether the caller
    /// should append the line to the summary file; whatever `write_ok`
    /// reports, the sink's state never changes — a failure is dropped and
    /// the next call tries again, and a disabled sink is a no-op.
    pub fn log_summary(&mut self, write_ok: bool) -> (attempt: bool)
        ensures
            attempt == old(self).summary_sink_enabled,
            *final(self) == *old(self),
    {
        let attempt = self.summary_sink_enabled;
        let _ = write_ok;
        attempt
    }
}

} // verus!
