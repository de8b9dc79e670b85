//! The progress display: a bar when the size is known, a spinner when not.

use vstd::prelude::*;
use crate::transfer::DownloadError;
use indicatif::{ProgressStyle, style::TemplateError};

verus! {

#[verifier::external_type_specification]
#[verifier::external_body]
pub struct ExProgressStyle(ProgressStyle);

#[verifier::external_type_specification]
#[verifier::external_body]
pub struct ExTemplateError(TemplateError);

/// How progress is shown, chosen once from the size the source declares.
#[derive(Clone, Copy, Debug, PartialEq, Eq, Structural)]
pub enum ProgressTarget {
    /// The total is known: a bar with bytes done, the total and an estimate.
    Bounded(u64),
    /// The total is unknown: a spinner with a message.
    Unbounded,
}

/// Whether `c` is an ASCII decimal digit.
pub open spec fn is_digit(c: char) -> bool {
    '0' <= c && c <= '9'
}

/// From position `i` on, no run of decimal digits in `t` reaches five
/// digits, counting the `run` digits just before `i`. A `!` (the truncation
/// mark, which may stand inside a width) neither ends a run nor adds to it.
/// Every width written in a template is then at most 9999 and fits in a
/// `u16`.
pub open spec fn digit_runs_fit(t: Seq<char>, i: int, run: nat) -> bool
    decreases t.len() - i,
{
    if i < 0 || i >= t.len() {
        true
    } else if is_digit(t[i]) {
        run + 1 < 5 && digit_runs_fit(t, i + 1, run + 1)
    } else if t[i] == '!' {
        digit_runs_fit(t, i + 1, run)
    } else {
        digit_runs_fit(t, i + 1, 0)
    }
}

/// Whether `t` is a template that the progress display accepts.
pub uninterp spec fn template_accepted(t: Seq<char>) -> bool;

/// Relies on `indicatif::ProgressStyle::with_template`: it parses the
/// template, and whether it accepts it depends on the text alone. Its parser
/// reads the digits of a width, skipping any `!` among them, into a `u16`
/// and panics when they do not fit, so such text is left out.
#[verifier::external_body]
fn style_with_template(t: &str) -> (r: Result<ProgressStyle, TemplateError>)
    requires
        digit_runs_fit(t@, 0, 0),
    ensures
        r is Ok == template_accepted(t@),
{
    ProgressStyle::with_template(t)
}

/// Relies on `indicatif::ProgressStyle::progress_chars`, which panics when
/// given fewer than two characters or characters of unequal display width;
/// printable ASCII characters all have width one.
#[verifier::external_body]
fn style_with_chars(style: ProgressStyle, s: &str) -> (r: ProgressStyle)
    requires
        s@.len() >= 2,
        forall|i: int| 0 <= i < s@.len() ==> ' ' <= #[trigger] s@[i] <= '~',
{
    style.progress_chars(s)
}

/// The template used for `target`.
pub open spec fn template_for(target: ProgressTarget) -> Seq<char> {
    match target {
        ProgressTarget::Bounded(_) => "{spinner:.green} [{elapsed_precise}] [{bar:40.cyan/blue}] {bytes}/{total_bytes} ({eta})"@,
        ProgressTarget::Unbounded => "{spinner:.green} {elapsed_precise} {msg}"@,
    }
}

impl ProgressTarget {
    /// A bar of the declared size, or a spinner when no size was declared.
    pub fn from_length(length: Option<u64>) -> (r: ProgressTarget)
        ensures
            r == (match length {
                Some(n) => ProgressTarget::Bounded(n),
                None => ProgressTarget::Unbounded,
            }),
    {
        match length {
            Some(n) => ProgressTarget::Bounded(n),
            None => ProgressTarget::Unbounded,
        }
    }

    /// Whether this is the spinner mode.
    pub fn is_unbounded(&self) -> (r: bool)
        ensures
            r == (*self is Unbounded),
    {
        match self {
            ProgressTarget::Bounded(_) => false,
            ProgressTarget::Unbounded => true,
        }
    }
}

/// Builds the display style for `target`; a template the display does not
/// accept is reported as a progress-render error.
pub fn reporter_style(target: ProgressTarget) -> (r: Result<ProgressStyle, DownloadError>)
    ensures
        r is Ok == template_accepted(template_for(target)),
        r is Err ==> r == Err::<ProgressStyle, DownloadError>(DownloadError::ProgressRender),
{
    proof {
        reveal_strlit("{spinner:.green} [{elapsed_precise}] [{bar:40.cyan/blue}] {bytes}/{total_bytes} ({eta})");
        reveal_strlit("{spinner:.green} {elapsed_precise} {msg}");
        reveal_strlit("#>-");
        reveal_with_fuel(digit_runs_fit, 100);
    }
    match target {
        ProgressTarget::Bounded(_) => match style_with_template(
            "{spinner:.green} [{elapsed_precise}] [{bar:40.cyan/blue}] {bytes}/{total_bytes} ({eta})",
        ) {
            Ok(style) => Ok(style_with_chars(style, "#>-")),
            Err(_) => Err(DownloadError::ProgressRender),
        },
        ProgressTarget::Unbounded => match style_with_template("{spinner:.green} {elapsed_precise} {msg}") {
            Ok(style) => Ok(style),
            Err(_) => Err(DownloadError::ProgressRender),
        },
    }
}

} // verus!
