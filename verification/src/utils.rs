//! Small helpers: durations, and where the base and head refs of a build come from.
use vstd::prelude::*;

use crate::serde_types::opt_view;
use crate::text::{decimal, push_decimal, same_text, string_from_chars, trim, trim_str};

verus! {

// ---------------------------------------------------------------------------------------
// Durations
// ---------------------------------------------------------------------------------------

/// The text of a duration of `secs` seconds: `"{h}h {m}m {s}s"` from one hour on,
/// `"{m}m {s}s"` from one minute on, `"{s}s"` below.
pub open spec fn duration_text(secs: nat) -> Seq<char> {
    if secs >= 3600 {
        decimal(secs / 3600) + seq!['h', ' '] + decimal((secs / 60) % 60) + seq!['m', ' ']
            + decimal(secs % 60) + seq!['s']
    } else if secs >= 60 {
        decimal(secs / 60) + seq!['m', ' '] + decimal(secs % 60) + seq!['s']
    } else {
        decimal(secs) + seq!['s']
    }
}

/// The hours, minutes and seconds of a duration text add up to the duration:
/// `h * 3600 + m * 60 + s == secs`, with `m < 60` and `s < 60`.
pub proof fn law_duration_parts(secs: nat)
    ensures
        (secs / 3600) * 3600 + ((secs / 60) % 60) * 60 + secs % 60 == secs,
        (secs / 60) % 60 < 60,
        secs % 60 < 60,
        secs < 3600 ==> (secs / 60) * 60 + secs % 60 == secs,
{
    assert((secs / 3600) * 3600 + ((secs / 60) % 60) * 60 + secs % 60 == secs) by (nonlinear_arith);
    assert(secs < 3600 ==> (secs / 60) * 60 + secs % 60 == secs) by (nonlinear_arith);
}

/// Formats a number of seconds as `"{h}h {m}m {s}s"`, `"{m}m {s}s"` or `"{s}s"`.
pub fn fmt_secs(secs: u64) -> (r: String)
    ensures
        r@ == duration_text(secs as nat),
{
    let mut out: Vec<char> = Vec::new();
    if secs >= 60 {
        let minutes = secs / 60;
        if secs >= 3600 {
            let hours = secs / 3600;
            push_decimal(&mut out, hours);
            out.push('h');
            out.push(' ');
            push_decimal(&mut out, minutes % 60);
            out.push('m');
            out.push(' ');
            push_decimal(&mut out, secs % 60);
            out.push('s');
            assert(out@ =~= duration_text(secs as nat));
            return string_from_chars(&out);
        }
        push_decimal(&mut out, minutes);
        out.push('m');
        out.push(' ');
        push_decimal(&mut out, secs % 60);
        out.push('s');
        assert(out@ =~= duration_text(secs as nat));
    } else {
        push_decimal(&mut out, secs);
        out.push('s');
        assert(out@ =~= duration_text(secs as nat));
    }
    string_from_chars(&out)
}

/// The number of whole seconds in a duration, as `Duration::as_secs` gives it.
pub uninterp spec fn whole_seconds(duration: std::time::Duration) -> u64;

/// The whole seconds of a duration.
///
/// Trusted: calls `std::time::Duration::as_secs`, whose result is the duration's whole
/// seconds (the fractional part is dropped); the contract names that number.
#[verifier::external_body]
fn duration_secs(duration: &std::time::Duration) -> (secs: u64)
    ensures
        secs == whole_seconds(*duration),
{
    duration.as_secs()
}

/// Formats a duration (its whole seconds) as `"{h}h {m}m {s}s"`, `"{m}m {s}s"` or `"{s}s"`.
pub fn fmt_duration(duration: &std::time::Duration) -> (r: String)
    ensures
        r@ == duration_text(whole_seconds(*duration) as nat),
{
    let secs = duration_secs(duration);
    fmt_secs(secs)
}

// ---------------------------------------------------------------------------------------
// Base and head refs
// ---------------------------------------------------------------------------------------

/// A git reference in a pull request event payload.
#[derive(Debug)]
pub struct GitRefInfo {
    /// Commit SHA, e.g. `abcd1234`.
    pub sha: String,
}

/// The base and head of a pull request.
#[derive(Debug)]
pub struct PullRequestInfo {
    /// The base ref.
    pub base: GitRefInfo,
    /// The head ref.
    pub head: GitRefInfo,
}

/// The part of a pull request event payload that the library reads.
#[derive(Debug)]
pub struct PrEventInfo {
    /// The pull request.
    pub pull_request: PullRequestInfo,
}

/// The base ref that an event's payload names: the PR's base SHA for `pull_request`, the
/// `before` SHA for `push`; none for other events.
pub open spec fn base_ref_of_event(
    event_name: Seq<char>,
    pull_request: Option<PrEventInfo>,
    push_before: Option<String>,
) -> Option<Seq<char>> {
    if event_name == "pull_request"@ {
        match pull_request {
            Some(info) => Some(info.pull_request.base.sha@),
            None => None,
        }
    } else if event_name == "push"@ {
        match push_before {
            Some(b) => Some(b@),
            None => None,
        }
    } else {
        None
    }
}

/// The base ref named by an event payload (see [`base_ref_of_event`]).
pub fn base_ref_from_event(
    event_name: &str,
    pull_request: Option<&PrEventInfo>,
    push_before: Option<String>,
) -> (r: Option<String>)
    ensures
        opt_view(r) == base_ref_of_event(
            event_name@,
            match pull_request { Some(p) => Some(*p), None => None },
            push_before,
        ),
{
    if same_text(event_name, "pull_request") {
        match pull_request {
            Some(info) => Some(info.pull_request.base.sha.clone()),
            None => None,
        }
    } else if same_text(event_name, "push") {
        push_before
    } else {
        None
    }
}

/// The head ref for an event: the PR's head SHA for `pull_request`, the `GITHUB_SHA` value
/// for `push`; none for other events.
pub open spec fn head_ref_of_event(
    event_name: Seq<char>,
    pull_request: Option<PrEventInfo>,
    github_sha: Option<String>,
) -> Option<Seq<char>> {
    if event_name == "pull_request"@ {
        match pull_request {
            Some(info) => Some(info.pull_request.head.sha@),
            None => None,
        }
    } else if event_name == "push"@ {
        match github_sha {
            Some(b) => Some(b@),
            None => None,
        }
    } else {
        None
    }
}

/// The head ref for an event (see [`head_ref_of_event`]).
pub fn head_ref_from_event(
    event_name: &str,
    pull_request: Option<&PrEventInfo>,
    github_sha: Option<String>,
) -> (r: Option<String>)
    ensures
        opt_view(r) == head_ref_of_event(
            event_name@,
            match pull_request { Some(p) => Some(*p), None => None },
            github_sha,
        ),
{
    if same_text(event_name, "pull_request") {
        match pull_request {
            Some(info) => Some(info.pull_request.head.sha.clone()),
            None => None,
        }
    } else if same_text(event_name, "push") {
        github_sha
    } else {
        None
    }
}

/// The ref printed by a `git rev-parse` run: its trimmed output when it succeeded.
pub fn ref_from_git_output(success: bool, stdout: &str) -> (r: Option<String>)
    ensures
        success ==> (r matches Some(s) && s@ == trim(stdout@)),
        !success ==> r is None,
{
    if success {
        Some(trim_str(stdout))
    } else {
        None
    }
}

} // verus!
