//! The safety policy: which processes may have their priority changed.
//!
//! A process is eligible when it is found in the snapshot, has run long
//! enough, bears the name of the game client, and runs from an executable
//! below one of the allowed installation directories.

use crate::error::{BoosterError, BoosterErrorView};
use crate::text::{
    chars_of,
    contains,
    contains_seq,
    decimal,
    is_separator,
    push_decimal,
    separates,
    starts_with,
};
use vstd::prelude::*;
use vstd::string::StringExecFns;

verus! {

/// A process younger than this many seconds is not touched: it may still be
/// a launcher stub that the real executable has not replaced yet.
pub const MIN_PROCESS_LIFETIME_SECONDS: u64 = 3;

/// One entry of a snapshot of the running processes.
#[derive(Debug, PartialEq, Eq)]
pub struct ProcessCandidate {
    pub pid: u32,
    pub name: String,
    /// Where the executable lies, if that could be found out.
    pub executable_path: Option<String>,
    pub uptime_seconds: u64,
}

/// A `ProcessCandidate` with its texts as character sequences.
pub struct ProcessCandidateView {
    pub pid: u32,
    pub name: Seq<char>,
    pub executable_path: Option<Seq<char>>,
    pub uptime_seconds: u64,
}

impl View for ProcessCandidate {
    type V = ProcessCandidateView;

    open spec fn view(&self) -> ProcessCandidateView {
        ProcessCandidateView {
            pid: self.pid,
            name: self.name@,
            executable_path: match self.executable_path {
                Some(path) => Some(path@),
                None => None,
            },
            uptime_seconds: self.uptime_seconds,
        }
    }
}

impl Clone for ProcessCandidate {
    fn clone(&self) -> (copy: ProcessCandidate)
        ensures
            copy@ == self@,
    {
        ProcessCandidate {
            pid: self.pid,
            name: self.name.clone(),
            executable_path: match &self.executable_path {
                Some(path) => Some(path.clone()),
                None => None,
            },
            uptime_seconds: self.uptime_seconds,
        }
    }
}

impl DeepView for ProcessCandidate {
    type V = ProcessCandidateView;

    open spec fn deep_view(&self) -> ProcessCandidateView {
        self@
    }
}

/// Why a process is not eligible.
#[derive(Clone, Copy, Debug, PartialEq, Eq, Structural)]
pub enum RejectionReason {
    /// The process is not in the snapshot any more.
    ProcessGone,
    /// The process has not run long enough.
    TooNew,
    /// The name is not that of the game client.
    NameRejected,
    /// The executable lies outside every allowed directory.
    PathNotWhitelisted,
}

/// The result of the policy for one process.
#[derive(Clone, Copy, Debug, PartialEq, Eq, Structural)]
pub enum SafetyVerdict {
    Eligible,
    Rejected(RejectionReason),
}

/// The lowercase form of a text, as `str::to_lowercase` of the standard
/// library gives it.
pub uninterp spec fn lowercase(text: Seq<char>) -> Seq<char>;

/// `str::to_lowercase` of the standard library. Its result is fixed by the
/// characters of the text alone, through the case mappings of Unicode that
/// the library carries; it does not look at a locale. Nothing else is
/// claimed of it.
#[verifier::external_body]
fn to_lowercase(text: &str) -> (lower: String)
    ensures
        lower@ == lowercase(text@),
{
    text.to_lowercase()
}

/// Whether a lowercase name mentions the game client.
pub open spec fn mentions_target(lower: Seq<char>) -> bool {
    contains_seq(lower, "roblox"@) || contains_seq(lower, "rbx"@)
}

/// Whether a lowercase name is that of a helper beside the game client: an
/// installer, an updater, a crash handler, a bootstrapper, or this tool.
pub open spec fn mentions_excluded(lower: Seq<char>) -> bool {
    ||| contains_seq(lower, "booster"@)
    ||| contains_seq(lower, "uninstall"@)
    ||| contains_seq(lower, "installer"@)
    ||| contains_seq(lower, "setup"@)
    ||| contains_seq(lower, "update"@)
    ||| contains_seq(lower, "crashhandler"@)
    ||| contains_seq(lower, "crashreporter"@)
    ||| contains_seq(lower, "bootstrap"@)
}

/// Whether a lowercase name is that of the game client.
pub open spec fn is_target_name(lower: Seq<char>) -> bool {
    mentions_target(lower) && !mentions_excluded(lower)
}

fn mentions(lower: &Vec<char>, word: &str) -> (found: bool)
    ensures
        found == contains_seq(lower@, word@),
{
    let needle = chars_of(word);
    contains(lower, &needle)
}

/// Classifies a name that is already in lowercase.
pub fn classify_lowercase(lower: &str) -> (target: bool)
    ensures
        target == is_target_name(lower@),
{
    let text = chars_of(lower);
    let wanted = mentions(&text, "roblox") || mentions(&text, "rbx");
    let excluded = mentions(&text, "booster") || mentions(&text, "uninstall") || mentions(
        &text,
        "installer",
    ) || mentions(&text, "setup") || mentions(&text, "update") || mentions(&text, "crashhandler")
        || mentions(&text, "crashreporter") || mentions(&text, "bootstrap");
    wanted && !excluded
}

/// Whether `name` is the name of the game client, whatever its case.
pub fn classify(name: &str) -> (target: bool)
    ensures
        target == is_target_name(lowercase(name@)),
{
    let lower = to_lowercase(name);
    classify_lowercase(lower.as_str())
}

/// Whether `path` is the directory `entry` or lies below it: `entry` is a
/// prefix of `path` that ends where a component of the path ends. So the
/// path ends there, or it goes on with a separator, or the entry itself
/// ends with one. A directory beside `entry` whose name only begins like
/// that of `entry` is not below it.
pub open spec fn lies_below(path: Seq<char>, entry: Seq<char>) -> bool {
    &&& entry.is_prefix_of(path)
    &&& {
        ||| entry.len() == path.len()
        ||| is_separator(path[entry.len() as int])
        ||| entry.len() > 0 && is_separator(entry.last())
    }
}

/// Whether `path` is one of the `allowed` directories or lies below one.
pub open spec fn path_allowed(path: Seq<char>, allowed: Seq<Seq<char>>) -> bool {
    exists|i: int| 0 <= i < allowed.len() && lies_below(path, #[trigger] allowed[i])
}

/// Whether the executable of a process is known and lies below one of the
/// `allowed` directories.
pub open spec fn runs_from_allowed(
    candidate: ProcessCandidateView,
    allowed: Seq<Seq<char>>,
) -> bool {
    candidate.executable_path is Some && path_allowed(candidate.executable_path->0, allowed)
}

/// The verdict of the policy. The checks come in a fixed order, the cheap
/// ones first, and the first that fails decides.
pub open spec fn verdict(
    candidate: Option<ProcessCandidateView>,
    allowed: Seq<Seq<char>>,
) -> SafetyVerdict {
    match candidate {
        None => SafetyVerdict::Rejected(RejectionReason::ProcessGone),
        Some(process) => {
            if process.uptime_seconds < MIN_PROCESS_LIFETIME_SECONDS {
                SafetyVerdict::Rejected(RejectionReason::TooNew)
            } else if !is_target_name(lowercase(process.name)) {
                SafetyVerdict::Rejected(RejectionReason::NameRejected)
            } else if !runs_from_allowed(process, allowed) {
                SafetyVerdict::Rejected(RejectionReason::PathNotWhitelisted)
            } else {
                SafetyVerdict::Eligible
            }
        },
    }
}

/// The first entry of the snapshot with the given pid.
pub open spec fn lookup(snapshot: Seq<ProcessCandidateView>, pid: u32) -> Option<
    ProcessCandidateView,
>
    decreases snapshot.len(),
{
    if snapshot.len() == 0 {
        None
    } else {
        match lookup(snapshot.drop_last(), pid) {
            Some(found) => Some(found),
            None => if snapshot.last().pid == pid {
                Some(snapshot.last())
            } else {
                None
            },
        }
    }
}

/// What is known of a process that may have left the snapshot.
pub open spec fn found_view(found: Option<&ProcessCandidate>) -> Option<ProcessCandidateView> {
    match found {
        Some(process) => Some(process@),
        None => None,
    }
}

/// Finds a process in the snapshot by its pid.
pub fn find_process(snapshot: &Vec<ProcessCandidate>, pid: u32) -> (found: Option<
    &ProcessCandidate,
>)
    ensures
        found_view(found) == lookup(snapshot.deep_view(), pid),
{
    let ghost all = snapshot.deep_view();
    let mut i: usize = 0;
    while i < snapshot.len()
        invariant
            i <= snapshot.len(),
            all == snapshot.deep_view(),
            lookup(all.take(i as int), pid) is None,
        decreases snapshot.len() - i,
    {
        assert(all.take(i + 1).drop_last() =~= all.take(i as int));
        if snapshot[i].pid == pid {
            proof {
                lemma_lookup_extends(all, i + 1, pid);
            }
            return Some(&snapshot[i]);
        }
        i += 1;
    }
    assert(all.take(snapshot.len() as int) =~= all);
    None
}

/// What `lookup` finds is the first entry with the pid, and it finds one
/// wherever there is one.
pub proof fn lemma_lookup_finds_the_first(snapshot: Seq<ProcessCandidateView>, pid: u32)
    ensures
        match lookup(snapshot, pid) {
            Some(found) => exists|i: int|
                {
                    &&& 0 <= i < snapshot.len()
                    &&& #[trigger] snapshot[i] == found
                    &&& found.pid == pid
                    &&& forall|j: int| 0 <= j < i ==> (#[trigger] snapshot[j]).pid != pid
                },
            None => forall|j: int| 0 <= j < snapshot.len() ==> (#[trigger] snapshot[j]).pid != pid,
        },
    decreases snapshot.len(),
{
    if snapshot.len() > 0 {
        let rest = snapshot.drop_last();
        lemma_lookup_finds_the_first(rest, pid);
        match lookup(rest, pid) {
            Some(found) => {
                let i = choose|i: int|
                    {
                        &&& 0 <= i < rest.len()
                        &&& #[trigger] rest[i] == found
                        &&& found.pid == pid
                        &&& forall|j: int| 0 <= j < i ==> (#[trigger] rest[j]).pid != pid
                    };
                assert forall|j: int| 0 <= j < i implies (#[trigger] snapshot[j]).pid != pid by {
                    assert(rest[j] == snapshot[j]);
                }
            },
            None => {
                assert forall|j: int| 0 <= j < rest.len() implies (#[trigger] snapshot[j]).pid
                    != pid by {
                    assert(rest[j] == snapshot[j]);
                }
            },
        }
    }
}

/// A match among the first `n` entries is the match in the whole snapshot.
proof fn lemma_lookup_extends(snapshot: Seq<ProcessCandidateView>, n: int, pid: u32)
    requires
        0 <= n <= snapshot.len(),
        lookup(snapshot.take(n), pid) is Some,
    ensures
        lookup(snapshot, pid) == lookup(snapshot.take(n), pid),
    decreases snapshot.len() - n,
{
    if n < snapshot.len() {
        assert(snapshot.take(n + 1).drop_last() =~= snapshot.take(n));
        lemma_lookup_extends(snapshot, n + 1, pid);
    } else {
        assert(snapshot.take(n) =~= snapshot);
    }
}

/// Whether `path` is the directory `entry` or lies below it.
pub fn is_below(path: &Vec<char>, entry: &Vec<char>) -> (below: bool)
    ensures
        below == lies_below(path@, entry@),
{
    if !starts_with(path, entry) {
        return false;
    }
    let end = entry.len();
    end == path.len() || separates(path[end]) || (end > 0 && separates(entry[end - 1]))
}

/// Whether the executable of the process is known and lies below one of the
/// allowed directories.
pub fn is_safe_path(candidate: &ProcessCandidate, allowed_paths: &Vec<String>) -> (safe: bool)
    ensures
        safe == runs_from_allowed(candidate@, allowed_paths.deep_view()),
{
    match &candidate.executable_path {
        None => false,
        Some(path) => {
            let ghost allowed = allowed_paths.deep_view();
            let text = chars_of(path.as_str());
            let mut i: usize = 0;
            while i < allowed_paths.len()
                invariant
                    i <= allowed_paths.len(),
                    allowed == allowed_paths.deep_view(),
                    text@ == path@,
                    candidate@.executable_path == Some(path@),
                    forall|j: int| 0 <= j < i ==> !lies_below(text@, #[trigger] allowed[j]),
                decreases allowed_paths.len() - i,
            {
                let entry = chars_of(allowed_paths[i].as_str());
                if is_below(&text, &entry) {
                    assert(lies_below(path@, allowed[i as int]));
                    return true;
                }
                i += 1;
            }
            false
        },
    }
}

/// Judges one process: `None` stands for a process that is no longer in the
/// snapshot.
pub fn evaluate(candidate: Option<&ProcessCandidate>, allowed_paths: &Vec<String>) -> (result:
    SafetyVerdict)
    ensures
        result == verdict(found_view(candidate), allowed_paths.deep_view()),
{
    match candidate {
        None => SafetyVerdict::Rejected(RejectionReason::ProcessGone),
        Some(process) => {
            if process.uptime_seconds < MIN_PROCESS_LIFETIME_SECONDS {
                SafetyVerdict::Rejected(RejectionReason::TooNew)
            } else if !classify(process.name.as_str()) {
                SafetyVerdict::Rejected(RejectionReason::NameRejected)
            } else if !is_safe_path(process, allowed_paths) {
                SafetyVerdict::Rejected(RejectionReason::PathNotWhitelisted)
            } else {
                SafetyVerdict::Eligible
            }
        },
    }
}

/// The words in which a rejection is reported.
pub open spec fn rejection_text(
    pid: u32,
    candidate: Option<ProcessCandidateView>,
    reason: RejectionReason,
) -> Seq<char> {
    match reason {
        RejectionReason::ProcessGone => "Process "@ + decimal(pid as nat) + " no longer exists"@,
        RejectionReason::TooNew => "Process "@ + decimal(pid as nat) + " too new ("@ + decimal(
            match candidate {
                Some(process) => process.uptime_seconds as nat,
                None => 0,
            },
        ) + "s < "@ + decimal(MIN_PROCESS_LIFETIME_SECONDS as nat) + "s)"@,
        RejectionReason::NameRejected => "Process name '"@ + match candidate {
            Some(process) => process.name,
            None => Seq::empty(),
        } + "' failed validation"@,
        RejectionReason::PathNotWhitelisted => "Process "@ + decimal(pid as nat)
            + " not in validated Roblox directories"@,
    }
}

/// The error that stands for a rejection. A failed path check has an error
/// of its own, so that it can be told from the other checks.
pub open spec fn rejection_error(
    pid: u32,
    candidate: Option<ProcessCandidateView>,
    reason: RejectionReason,
) -> BoosterErrorView {
    match reason {
        RejectionReason::PathNotWhitelisted => BoosterErrorView::PathValidationFailed {
            pid,
            reason: rejection_text(pid, candidate, reason),
        },
        _ => BoosterErrorView::SafetyCheckFailed {
            pid,
            reason: rejection_text(pid, candidate, reason),
        },
    }
}

/// Turns a rejection into the error that reports it.
pub fn reject(pid: u32, candidate: Option<&ProcessCandidate>, reason: RejectionReason) -> (error:
    BoosterError)
    ensures
        error@ == rejection_error(pid, found_view(candidate), reason),
{
    let mut text = String::from_str("Process ");
    match reason {
        RejectionReason::ProcessGone => {
            push_decimal(&mut text, pid as u64);
            text.append(" no longer exists");
            BoosterError::SafetyCheckFailed { pid, reason: text }
        },
        RejectionReason::TooNew => {
            push_decimal(&mut text, pid as u64);
            text.append(" too new (");
            let uptime: u64 = match candidate {
                Some(process) => process.uptime_seconds,
                None => 0,
            };
            push_decimal(&mut text, uptime);
            text.append("s < ");
            push_decimal(&mut text, MIN_PROCESS_LIFETIME_SECONDS);
            text.append("s)");
            BoosterError::SafetyCheckFailed { pid, reason: text }
        },
        RejectionReason::NameRejected => {
            let mut text = String::from_str("Process name '");
            match candidate {
                Some(process) => {
                    text.append(process.name.as_str());
                },
                None => {},
            }
            text.append("' failed validation");
            BoosterError::SafetyCheckFailed { pid, reason: text }
        },
        RejectionReason::PathNotWhitelisted => {
            push_decimal(&mut text, pid as u64);
            text.append(" not in validated Roblox directories");
            BoosterError::PathValidationFailed { pid, reason: text }
        },
    }
}

/// The full safety check of the process `pid` against a snapshot.
pub open spec fn safety_check(
    snapshot: Seq<ProcessCandidateView>,
    pid: u32,
    allowed: Seq<Seq<char>>,
) -> Result<(), BoosterErrorView> {
    match verdict(lookup(snapshot, pid), allowed) {
        SafetyVerdict::Eligible => Ok(()),
        SafetyVerdict::Rejected(reason) => Err(rejection_error(pid, lookup(snapshot, pid), reason)),
    }
}

/// The result of a safety check with its texts as character sequences.
pub open spec fn check_view(result: Result<(), BoosterError>) -> Result<(), BoosterErrorView> {
    match result {
        Ok(()) => Ok(()),
        Err(error) => Err(error@),
    }
}

/// Looks the process up in the snapshot and judges it.
pub fn is_safe_to_optimize(
    snapshot: &Vec<ProcessCandidate>,
    pid: u32,
    allowed_paths: &Vec<String>,
) -> (result: Result<(), BoosterError>)
    ensures
        check_view(result) == safety_check(snapshot.deep_view(), pid, allowed_paths.deep_view()),
{
    let found = find_process(snapshot, pid);
    match evaluate(found, allowed_paths) {
        SafetyVerdict::Eligible => Ok(()),
        SafetyVerdict::Rejected(reason) => Err(reject(pid, found, reason)),
    }
}

/// Whitelist containment: the path check passes exactly when the path of the
/// executable is a member of the whitelist or lies below one, component by
/// component. It is not enough that a member occurs somewhere inside the
/// path, nor that the path begins with the characters of a member: a
/// directory beside a member, whose name only begins like the member's, is
/// rejected.
pub proof fn lemma_whitelist_containment(
    candidate: ProcessCandidateView,
    allowed: Seq<Seq<char>>,
)
    ensures
        runs_from_allowed(candidate, allowed) <==> candidate.executable_path is Some && exists|
            i: int,
        |
            {
                let path = candidate.executable_path->0;
                let entry = #[trigger] allowed[i];
                &&& 0 <= i < allowed.len()
                &&& entry.len() <= path.len()
                &&& path.subrange(0, entry.len() as int) == entry
                &&& {
                    ||| entry.len() == path.len()
                    ||| path[entry.len() as int] == '\\'
                    ||| path[entry.len() as int] == '/'
                    ||| entry.len() > 0 && (entry.last() == '\\' || entry.last() == '/')
                }
            },
        verdict(Some(candidate), allowed) is Eligible <==> candidate.uptime_seconds
            >= MIN_PROCESS_LIFETIME_SECONDS && is_target_name(lowercase(candidate.name))
            && runs_from_allowed(candidate, allowed),
        verdict(Some(candidate), allowed) == SafetyVerdict::Rejected(
            RejectionReason::PathNotWhitelisted,
        ) <==> candidate.uptime_seconds >= MIN_PROCESS_LIFETIME_SECONDS && is_target_name(
            lowercase(candidate.name),
        ) && !runs_from_allowed(candidate, allowed),
{
    if candidate.executable_path is Some {
        let path = candidate.executable_path->0;
        if path_allowed(path, allowed) {
            let i = choose|i: int|
                0 <= i < allowed.len() && lies_below(path, #[trigger] allowed[i]);
            assert(path.subrange(0, allowed[i].len() as int) == allowed[i]);
        }
        if exists|i: int|
            {
                let entry = #[trigger] allowed[i];
                &&& 0 <= i < allowed.len()
                &&& entry.len() <= path.len()
                &&& path.subrange(0, entry.len() as int) == entry
                &&& {
                    ||| entry.len() == path.len()
                    ||| path[entry.len() as int] == '\\'
                    ||| path[entry.len() as int] == '/'
                    ||| entry.len() > 0 && (entry.last() == '\\' || entry.last() == '/')
                }
            } {
            let i = choose|i: int|
                {
                    let entry = #[trigger] allowed[i];
                    &&& 0 <= i < allowed.len()
                    &&& entry.len() <= path.len()
                    &&& path.subrange(0, entry.len() as int) == entry
                    &&& {
                        ||| entry.len() == path.len()
                        ||| path[entry.len() as int] == '\\'
                        ||| path[entry.len() as int] == '/'
                        ||| entry.len() > 0 && (entry.last() == '\\' || entry.last() == '/')
                    }
                };
            assert(allowed[i].is_prefix_of(path));
            assert(lies_below(path, allowed[i]));
        }
    }
}

/// A directory beside a member of the whitelist is not below it: a path
/// that goes on after the characters of `entry` with anything but a
/// separator does not lie below `entry`, unless `entry` ends with a
/// separator itself.
pub proof fn lemma_sibling_is_not_below(path: Seq<char>, entry: Seq<char>)
    requires
        entry.len() < path.len(),
        !is_separator(path[entry.len() as int]),
        entry.len() == 0 || !is_separator(entry.last()),
    ensures
        !lies_below(path, entry),
{
}

} // verus!
