//! LilyPond: version checks on the output of `lilypond --version`, compile requests and
//! the events a running compile reports.

use vstd::prelude::*;

use crate::text::{
    all_digits, chars_of, decimal_value, is_digit, is_white_space, char_is_white_space,
    string_from_chars, utf8_lossy, spec_utf8_lossy,
};

verus! {

/// LilyPond executable name looked up in `PATH`.
pub const LILYPOND_BIN: &'static str = "lilypond";

/// Semantic LilyPond version.
#[derive(Debug, Clone, Copy, PartialEq, Eq, Structural, PartialOrd, Ord, Hash)]
pub struct Version {
    /// Major version number.
    pub major: u16,
    /// Minor version number.
    pub minor: u16,
    /// Patch version number.
    pub patch: u16,
}

/// `a` comes before `b`: compared by major, then minor, then patch number.
pub open spec fn version_before(a: Version, b: Version) -> bool {
    ||| a.major < b.major
    ||| a.major == b.major && a.minor < b.minor
    ||| a.major == b.major && a.minor == b.minor && a.patch < b.patch
}

/// A version written as `major.minor.patch`.
pub open spec fn spec_version_text(v: Version) -> Seq<char> {
    crate::text::decimal_digits(v.major as nat) + seq!['.'] + crate::text::decimal_digits(
        v.minor as nat,
    ) + seq!['.'] + crate::text::decimal_digits(v.patch as nat)
}

impl Version {
    /// Creates a new version value.
    pub fn new(major: u16, minor: u16, patch: u16) -> (v: Self)
        ensures
            v == (Version { major, minor, patch }),
    {
        Self { major, minor, patch }
    }

    /// The version as `major.minor.patch`.
    pub fn text(&self) -> (r: String)
        ensures
            r@ == spec_version_text(*self),
    {
        let mut out = crate::text::decimal_chars(self.major as u64);
        out.push('.');
        let mut minor = crate::text::decimal_chars(self.minor as u64);
        out.append(&mut minor);
        out.push('.');
        let mut patch = crate::text::decimal_chars(self.patch as u64);
        out.append(&mut patch);
        proof {
            assert(out@ =~= spec_version_text(*self));
        }
        string_from_chars(&out)
    }

    /// Whether this version comes before `other` (the order of the derived `Ord`).
    pub fn is_before(&self, other: &Version) -> (r: bool)
        ensures
            r == version_before(*self, *other),
    {
        self.major < other.major || (self.major == other.major && self.minor < other.minor) || (
        self.major == other.major && self.minor == other.minor && self.patch < other.patch)
    }
}

/// Versions are ordered by major number first, then minor, then patch: a larger major number
/// never comes before a smaller one whatever the rest, a smaller one always does; the order
/// is strict, total and transitive.
pub proof fn law_versions_order_by_major_then_minor_then_patch(a: Version, b: Version, c: Version)
    ensures
        a.major < b.major ==> version_before(a, b),
        a.major > b.major ==> !version_before(a, b),
        a.major == b.major && a.minor > b.minor ==> !version_before(a, b),
        a.major == b.major && a.minor == b.minor ==> (version_before(a, b) <==> a.patch < b.patch),
        !version_before(a, a),
        version_before(a, b) ==> !version_before(b, a),
        a != b ==> version_before(a, b) || version_before(b, a),
        version_before(a, b) && version_before(b, c) ==> version_before(a, c),
{
}

/// Minimum supported LilyPond version used by [`check_lilypond`]: 2.24.0.
pub fn min_lilypond_version() -> (v: Version)
    ensures
        v == (Version { major: 2, minor: 24, patch: 0 }),
{
    Version::new(2, 24, 0)
}

/// Result of a LilyPond version compatibility check.
#[derive(Debug, Clone, Copy, PartialEq, Eq, Structural)]
pub struct VersionCheck {
    /// Installed LilyPond version.
    pub detected: Version,
    /// Minimum required version used during the check.
    pub min_required: Version,
}

#[verifier::external_type_specification]
#[verifier::external_body]
pub struct ExIoError(std::io::Error);

/// Errors produced by LilyPond checks and compile process startup.
#[derive(Debug)]
pub enum LilypondError {
    /// LilyPond binary could not be found in `PATH`.
    BinaryNotFound { bin: &'static str },
    /// A LilyPond command failed with a non-zero status.
    CommandFailed { context: &'static str, details: String },
    /// LilyPond version could not be parsed from command output.
    VersionParseFailed { raw_output: String },
    /// Installed LilyPond version is below the configured minimum.
    VersionTooOld { detected: Version, min_required: Version },
    /// I/O error while spawning or communicating with the process.
    Io(std::io::Error),
}

/// `Display` for `io::Error`: the error's own description.
#[verifier::external_body]
fn io_error_text(error: &std::io::Error) -> String {
    error.to_string()
}

/// What each error says.
pub open spec fn spec_error_message(e: LilypondError) -> Option<Seq<char>> {
    match e {
        LilypondError::BinaryNotFound { bin } => Some("binary not found in PATH: "@ + bin@),
        LilypondError::CommandFailed { context, details } => Some(context@ + " failed: "@ + details@),
        LilypondError::VersionParseFailed { raw_output } => Some(
            "failed to parse LilyPond version from output: "@ + raw_output@,
        ),
        LilypondError::VersionTooOld { detected, min_required } => Some(
            "LilyPond version "@ + spec_version_text(detected)
                + " is below minimum required version "@ + spec_version_text(min_required),
        ),
        LilypondError::Io(_) => None,
    }
}

impl LilypondError {
    /// What the error says; an I/O error says what the system reported.
    pub fn message(&self) -> (r: String)
        ensures
            spec_error_message(*self) matches Some(m) ==> r@ == m,
    {
        proof {
            reveal_strlit("binary not found in PATH: ");
            reveal_strlit(" failed: ");
            reveal_strlit("failed to parse LilyPond version from output: ");
            reveal_strlit("LilyPond version ");
            reveal_strlit(" is below minimum required version ");
        }
        match self {
            LilypondError::BinaryNotFound { bin } => crate::text::concat_strs(
                "binary not found in PATH: ",
                bin,
            ),
            LilypondError::CommandFailed { context, details } => {
                let head = crate::text::concat_strs(context, " failed: ");
                crate::text::concat_strs(head.as_str(), details.as_str())
            },
            LilypondError::VersionParseFailed { raw_output } => crate::text::concat_strs(
                "failed to parse LilyPond version from output: ",
                raw_output.as_str(),
            ),
            LilypondError::VersionTooOld { detected, min_required } => {
                let a = crate::text::concat_strs("LilyPond version ", detected.text().as_str());
                let b = crate::text::concat_strs(a.as_str(), " is below minimum required version ");
                crate::text::concat_strs(b.as_str(), min_required.text().as_str())
            },
            LilypondError::Io(error) => io_error_text(error),
        }
    }
}

/// Whether LilyPond is usable, as the startup check found.
#[derive(Debug, Clone, Copy, PartialEq, Eq, Structural)]
pub enum LilypondStatus {
    Checking,
    Ready { detected: Version },
    Unavailable,
}

/// What the startup check leads to: LilyPond's status, the line logged, and, when LilyPond
/// is unusable, the critical prompt whose OK quits the application.
pub fn startup_check_outcome(result: Result<VersionCheck, String>) -> (r: (
    LilypondStatus,
    String,
    Option<(crate::prompts::ErrorPrompt, crate::prompts::PromptOkAction)>,
))
    ensures
        match result {
            Ok(check) => r.0 == (LilypondStatus::Ready { detected: check.detected }) && r.1@
                == "LilyPond ready: installed "@ + spec_version_text(check.detected)
                + ", minimum required "@ + spec_version_text(check.min_required) && r.2 is None,
            Err(e) => {
                &&& r.0 == LilypondStatus::Unavailable
                &&& r.1@ == "LilyPond startup check failed: "@ + e@
                &&& r.2 matches Some((p, action)) && p.title@ == "LilyPond Startup Error"@
                    && p.message@ == e@ && p.fatality == crate::prompts::ErrorFatality::Critical
                    && p.buttons == crate::prompts::PromptButtons::OkOnly && action
                    == crate::prompts::PromptOkAction::ExitApp
            },
        },
{
    proof {
        reveal_strlit("LilyPond ready: installed ");
        reveal_strlit(", minimum required ");
        reveal_strlit("LilyPond startup check failed: ");
        reveal_strlit("LilyPond Startup Error");
    }
    match result {
        Ok(check) => {
            let a = crate::text::concat_strs("LilyPond ready: installed ", check.detected.text().as_str());
            let b = crate::text::concat_strs(a.as_str(), ", minimum required ");
            let line = crate::text::concat_strs(b.as_str(), check.min_required.text().as_str());
            (LilypondStatus::Ready { detected: check.detected }, line, None)
        },
        Err(error) => {
            let line = crate::text::concat_strs("LilyPond startup check failed: ", error.as_str());
            let prompt = crate::prompts::ErrorPrompt::new(
                crate::text::owned("LilyPond Startup Error"),
                error,
                crate::prompts::ErrorFatality::Critical,
                crate::prompts::PromptButtons::OkOnly,
            );
            (LilypondStatus::Unavailable, line, Some((prompt, crate::prompts::PromptOkAction::ExitApp)))
        },
    }
}

/// A process that could not be started: the error, and whether it was that the program
/// was not found (`io::ErrorKind::NotFound`), as the caller that started it read it.
#[derive(Debug)]
pub struct SpawnFailure {
    pub error: std::io::Error,
    pub not_found: bool,
}

/// The error reported for a process that could not be started.
pub open spec fn spec_spawn_error(failure: SpawnFailure) -> LilypondError {
    if failure.not_found {
        LilypondError::BinaryNotFound { bin: LILYPOND_BIN }
    } else {
        LilypondError::Io(failure.error)
    }
}

/// The error for a process that could not be started: a missing program is reported by
/// name, any other failure as it came.
pub fn map_spawn_error(failure: SpawnFailure) -> (r: LilypondError)
    ensures
        r == spec_spawn_error(failure),
{
    if failure.not_found {
        LilypondError::BinaryNotFound { bin: LILYPOND_BIN }
    } else {
        LilypondError::Io(failure.error)
    }
}

/// What `lilypond --version` printed, and whether it exited successfully.
pub struct VersionCommandOutput {
    pub success: bool,
    pub stdout: Vec<u8>,
    pub stderr: Vec<u8>,
}

/// Characters kept by the version-token trim: digits and dots.
pub open spec fn is_version_char(c: char) -> bool {
    is_digit(c) || c == '.'
}

/// Index of the first version character at or after `i` (the length when none).
pub open spec fn version_start(s: Seq<char>, i: int) -> int
    decreases s.len() - i,
{
    if i >= s.len() {
        s.len() as int
    } else if is_version_char(s[i]) {
        i
    } else {
        version_start(s, i + 1)
    }
}

/// Index just past the last version character before `i` (zero when none).
pub open spec fn version_end(s: Seq<char>, i: int) -> int
    decreases i,
{
    if i <= 0 {
        0
    } else if is_version_char(s[i - 1]) {
        i
    } else {
        version_end(s, i - 1)
    }
}

/// Index of the first `.` at or after `i` (the length when none).
pub open spec fn find_dot(s: Seq<char>, i: int) -> int
    decreases s.len() - i,
{
    if i >= s.len() {
        s.len() as int
    } else if s[i] == '.' {
        i
    } else {
        find_dot(s, i + 1)
    }
}

/// Number of leading ASCII digits of `s` from `i` on.
pub open spec fn digit_run(s: Seq<char>, i: int) -> int
    decreases s.len() - i,
{
    if i >= s.len() || i < 0 {
        0
    } else if is_digit(s[i]) {
        1 + digit_run(s, i + 1)
    } else {
        0
    }
}

/// The number written by the digits at the start of `part`, when there is at least one
/// and it fits in a `u16`.
pub open spec fn spec_numeric_prefix(part: Seq<char>) -> Option<u16> {
    let digits = part.subrange(0, digit_run(part, 0));
    if digits.len() == 0 || decimal_value(digits) > 65535 {
        None
    } else {
        Some(decimal_value(digits) as u16)
    }
}

/// A version read from one whitespace-separated token: the token without leading and
/// trailing characters other than digits and dots, split at dots into major, minor and
/// an optional patch (zero when absent or unreadable), each read from its leading digits.
pub open spec fn spec_parse_version_token(token: Seq<char>) -> Option<Version> {
    let t = if version_end(token, token.len() as int) <= version_start(token, 0) {
        Seq::<char>::empty()
    } else {
        token.subrange(version_start(token, 0), version_end(token, token.len() as int))
    };
    let d0 = find_dot(t, 0);
    let d1 = find_dot(t, d0 + 1);
    let d2 = find_dot(t, d1 + 1);
    if t.len() == 0 {
        None
    } else if d0 >= t.len() {
        None
    } else {
        match (
            spec_numeric_prefix(t.subrange(0, d0)),
            spec_numeric_prefix(t.subrange(d0 + 1, d1)),
        ) {
            (Some(major), Some(minor)) => Some(
                Version {
                    major,
                    minor,
                    patch: if d1 < t.len() {
                        match spec_numeric_prefix(t.subrange(d1 + 1, d2)) {
                            Some(p) => p,
                            None => 0,
                        }
                    } else {
                        0
                    },
                },
            ),
            _ => None,
        }
    }
}

/// Index of the first non-white-space character at or after `i`.
pub open spec fn skip_white_space(s: Seq<char>, i: int) -> int
    decreases s.len() - i,
{
    if i >= s.len() {
        s.len() as int
    } else if is_white_space(s[i]) {
        skip_white_space(s, i + 1)
    } else {
        i
    }
}

/// Index of the first white-space character at or after `i`.
pub open spec fn token_end(s: Seq<char>, i: int) -> int
    decreases s.len() - i,
{
    if i >= s.len() {
        s.len() as int
    } else if is_white_space(s[i]) {
        i
    } else {
        token_end(s, i + 1)
    }
}

pub proof fn lemma_skip_bounds(s: Seq<char>, i: int)
    requires
        0 <= i,
    ensures
        i <= skip_white_space(s, i) || i > s.len(),
        skip_white_space(s, i) <= s.len(),
        skip_white_space(s, i) < s.len() ==> i <= skip_white_space(s, i),
    decreases s.len() - i,
{
    if i < s.len() && is_white_space(s[i]) {
        lemma_skip_bounds(s, i + 1);
    }
}

pub proof fn lemma_token_end_bounds(s: Seq<char>, i: int)
    requires
        0 <= i <= s.len(),
    ensures
        i <= token_end(s, i) <= s.len(),
        i < s.len() && !is_white_space(s[i]) ==> i < token_end(s, i),
    decreases s.len() - i,
{
    if i < s.len() && !is_white_space(s[i]) {
        lemma_token_end_bounds(s, i + 1);
    }
}

/// The version in the first whitespace-separated token, from index `i` on, that reads as one.
pub open spec fn first_version_from(s: Seq<char>, i: int) -> Option<Version>
    decreases s.len() - i,
{
    if i < 0 || i >= s.len() {
        None
    } else {
        let start = skip_white_space(s, i);
        if start >= s.len() {
            None
        } else {
            let end = token_end(s, start);
            proof {
                lemma_skip_bounds(s, i);
                lemma_token_end_bounds(s, start);
                assert(!is_white_space(s[start])) by {
                    lemma_skip_not_white(s, i);
                }
            }
            match spec_parse_version_token(s.subrange(start, end)) {
                Some(v) => Some(v),
                None => first_version_from(s, end),
            }
        }
    }
}

pub proof fn lemma_skip_not_white(s: Seq<char>, i: int)
    requires
        0 <= i,
    ensures
        skip_white_space(s, i) < s.len() ==> !is_white_space(s[skip_white_space(s, i)]),
    decreases s.len() - i,
{
    if i < s.len() && is_white_space(s[i]) {
        lemma_skip_not_white(s, i + 1);
    }
}

/// The version in the first whitespace-separated word of `raw` that reads as one.
pub open spec fn spec_parse_version(raw: Seq<char>) -> Option<Version> {
    first_version_from(raw, 0)
}

/// Reads the leading digits of `part[start..end]` as a `u16`.
fn parse_numeric_prefix(part: &[char], start: usize, end: usize) -> (r: Option<u16>)
    requires
        start <= end <= part@.len(),
    ensures
        r == spec_numeric_prefix(part@.subrange(start as int, end as int)),
{
    let ghost p = part@.subrange(start as int, end as int);
    let mut value: u64 = 0;
    let mut i = start;
    while i < end && '0' <= part[i] && part[i] <= '9'
        invariant
            start <= i <= end,
            end <= part@.len(),
            p == part@.subrange(start as int, end as int),
            all_digits(p.subrange(0, i - start)),
            digit_run(p, 0) == (i - start) + digit_run(p, i - start),
            value as int == (if decimal_value(p.subrange(0, i - start)) > 65535 {
                65536
            } else {
                decimal_value(p.subrange(0, i - start))
            }),
        decreases end - i,
    {
        let d = (part[i] as u64) - ('0' as u64);
        proof {
            let q = p.subrange(0, i - start + 1);
            assert(q.drop_last() =~= p.subrange(0, i - start));
            assert(q.last() == part@[i as int]);
            assert(all_digits(q)) by {
                assert forall|k: int| 0 <= k < q.len() implies is_digit(#[trigger] q[k]) by {
                    if k < q.len() - 1 {
                        assert(q[k] == p.subrange(0, i - start)[k]);
                    }
                }
            }
            lemma_decimal_nonneg(p.subrange(0, i - start));
        }
        if value <= 65535 {
            let next = value * 10 + d;
            value = if next > 65535 {
                65536
            } else {
                next
            };
        }
        i = i + 1;
    }
    proof {
        if i < end {
            assert(!is_digit(p[i - start]));
        }
        assert(digit_run(p, i - start) == 0);
        assert(p.subrange(0, digit_run(p, 0)) =~= p.subrange(0, i - start));
    }
    if i == start || value > 65535 {
        None
    } else {
        Some(value as u16)
    }
}

proof fn lemma_decimal_nonneg(s: Seq<char>)
    requires
        all_digits(s),
    ensures
        decimal_value(s) >= 0,
    decreases s.len(),
{
    if s.len() > 0 {
        assert(all_digits(s.drop_last())) by {
            assert forall|k: int| 0 <= k < s.drop_last().len() implies is_digit(
                #[trigger] s.drop_last()[k],
            ) by {
                assert(s.drop_last()[k] == s[k]);
            }
        }
        lemma_decimal_nonneg(s.drop_last());
        assert(is_digit(s[s.len() - 1]));
    }
}

/// Index of the first `.` in `t[from..end]` (`end` when none).
fn find_dot_exec(t: &[char], from: usize) -> (r: usize)
    requires
        from <= t@.len(),
    ensures
        r == find_dot(t@, from as int),
        from <= r <= t@.len(),
{
    let mut i = from;
    while i < t.len() && t[i] != '.'
        invariant
            from <= i <= t@.len(),
            find_dot(t@, from as int) == find_dot(t@, i as int),
        decreases t.len() - i,
    {
        i = i + 1;
    }
    i
}

/// Reads a version from one whitespace-separated token (see `spec_parse_version_token`).
pub fn parse_version_token(token: &[char]) -> (r: Option<Version>)
    ensures
        r == spec_parse_version_token(token@),
{
    let mut start: usize = 0;
    while start < token.len() && !(('0' <= token[start] && token[start] <= '9') || token[start]
        == '.')
        invariant
            start <= token@.len(),
            version_start(token@, 0) == version_start(token@, start as int),
        decreases token.len() - start,
    {
        start = start + 1;
    }
    let mut end: usize = token.len();
    while end > 0 && !(('0' <= token[end - 1] && token[end - 1] <= '9') || token[end - 1] == '.')
        invariant
            end <= token@.len(),
            version_end(token@, token@.len() as int) == version_end(token@, end as int),
        decreases end,
    {
        end = end - 1;
    }
    if end <= start {
        return None;
    }
    let t = crate::text::chars_range(token, start, end);
    let d0 = find_dot_exec(t.as_slice(), 0);
    if d0 >= t.len() {
        return None;
    }
    let d1 = find_dot_exec(t.as_slice(), d0 + 1);
    let major = match parse_numeric_prefix(t.as_slice(), 0, d0) {
        Some(v) => v,
        None => return None,
    };
    let minor = match parse_numeric_prefix(t.as_slice(), d0 + 1, d1) {
        Some(v) => v,
        None => return None,
    };
    let patch = if d1 < t.len() {
        let d2 = find_dot_exec(t.as_slice(), d1 + 1);
        match parse_numeric_prefix(t.as_slice(), d1 + 1, d2) {
            Some(p) => p,
            None => 0,
        }
    } else {
        0
    };
    Some(Version::new(major, minor, patch))
}

/// The version in the first whitespace-separated word of `raw` that reads as one.
pub fn parse_version(raw: &str) -> (r: Option<Version>)
    ensures
        r == spec_parse_version(raw@),
{
    let s = chars_of(raw);
    let mut i: usize = 0;
    while i < s.len()
        invariant
            s@ == raw@,
            i <= s@.len(),
            first_version_from(s@, 0) == first_version_from(s@, i as int),
        decreases s.len() - i,
    {
        let ghost i0 = i as int;
        let mut start = i;
        while start < s.len() && char_is_white_space(s[start])
            invariant
                i0 <= start <= s@.len(),
                skip_white_space(s@, i0) == skip_white_space(s@, start as int),
            decreases s.len() - start,
        {
            start = start + 1;
        }
        if start >= s.len() {
            return None;
        }
        let mut end = start;
        while end < s.len() && !char_is_white_space(s[end])
            invariant
                start <= end <= s@.len(),
                token_end(s@, start as int) == token_end(s@, end as int),
            decreases s.len() - end,
        {
            end = end + 1;
        }
        let token = crate::text::chars_range(s.as_slice(), start, end);
        match parse_version_token(token.as_slice()) {
            Some(v) => return Some(v),
            None => {},
        }
        proof {
            lemma_token_end_bounds(s@, start as int);
            lemma_skip_not_white(s@, i0);
        }
        i = end;
    }
    None
}

/// What `lilypond --version` printed on both streams: standard output, a newline, then
/// standard error, each decoded lossily.
pub open spec fn combined_version_output(stdout: Seq<u8>, stderr: Seq<u8>) -> Seq<char> {
    spec_utf8_lossy(stdout) + seq!['\n'] + spec_utf8_lossy(stderr)
}

/// The outcome of a version check given the output of `lilypond --version` and the
/// minimum version required.
pub open spec fn version_check_holds(output: VersionCommandOutput, min_required: Version, r: Result<
    VersionCheck,
    LilypondError,
>) -> bool {
    let combined = combined_version_output(output.stdout@, output.stderr@);
    if !output.success {
        r matches Err(LilypondError::CommandFailed { context, details }) && context@
            == "lilypond --version"@ && details@ == spec_utf8_lossy(output.stderr@)
    } else {
        match spec_parse_version(combined) {
            None => r matches Err(LilypondError::VersionParseFailed { raw_output })
                && raw_output@ == combined,
            Some(detected) => if version_before(detected, min_required) {
                r matches Err(LilypondError::VersionTooOld { detected: d, min_required: m })
                    && d == detected && m == min_required
            } else {
                r matches Ok(check) && check == (VersionCheck { detected, min_required })
            },
        }
    }
}

/// Checks that LilyPond is installed and satisfies [`min_lilypond_version`], given the
/// outcome of running `lilypond --version`.
pub fn check_lilypond(output: Result<VersionCommandOutput, SpawnFailure>) -> (r: Result<
    VersionCheck,
    LilypondError,
>)
    ensures
        match output {
            Ok(out) => version_check_holds(out, Version { major: 2, minor: 24, patch: 0 }, r),
            Err(failure) => r == Err::<VersionCheck, LilypondError>(spec_spawn_error(failure)),
        },
{
    check_lilypond_with_min_version(output, min_lilypond_version())
}

/// Checks that LilyPond is installed and satisfies the provided minimum version, given
/// the outcome of running `lilypond --version`.
pub fn check_lilypond_with_min_version(
    output: Result<VersionCommandOutput, SpawnFailure>,
    min_required: Version,
) -> (r: Result<VersionCheck, LilypondError>)
    ensures
        match output {
            Ok(out) => version_check_holds(out, min_required, r),
            Err(failure) => r == Err::<VersionCheck, LilypondError>(spec_spawn_error(failure)),
        },
{
    let output = match output {
        Ok(output) => output,
        Err(failure) => return Err(map_spawn_error(failure)),
    };
    if !output.success {
        let details = utf8_lossy(output.stderr.as_slice());
        proof {
            reveal_strlit("lilypond --version");
        }
        return Err(LilypondError::CommandFailed { context: "lilypond --version", details });
    }
    let stdout = utf8_lossy(output.stdout.as_slice());
    let stderr = utf8_lossy(output.stderr.as_slice());
    let mut chars = chars_of(stdout.as_str());
    chars.push('\n');
    let mut rest = chars_of(stderr.as_str());
    chars.append(&mut rest);
    let combined = string_from_chars(&chars);
    proof {
        assert(combined@ =~= combined_version_output(output.stdout@, output.stderr@));
    }
    let detected = match parse_version(combined.as_str()) {
        Some(v) => v,
        None => return Err(LilypondError::VersionParseFailed { raw_output: combined }),
    };
    if detected.is_before(&min_required) {
        return Err(LilypondError::VersionTooOld { detected, min_required });
    }
    Ok(VersionCheck { detected, min_required })
}

/// Compile request configuration for a single LilyPond invocation.
#[derive(Debug, Clone)]
pub struct CompileRequest {
    /// Path to the `.ly` score file.
    pub score_path: String,
    /// Extra CLI arguments passed to LilyPond.
    pub args: Vec<String>,
    /// Optional working directory for the process.
    pub working_dir: Option<String>,
}

impl CompileRequest {
    /// Creates a request for the given score path, with no extra arguments and the
    /// current working directory.
    pub fn new(score_path: String) -> (r: Self)
        ensures
            r.score_path@ == score_path@,
            r.args@.len() == 0,
            r.working_dir is None,
    {
        Self { score_path, args: Vec::new(), working_dir: None }
    }
}

/// Origin stream of a log line from LilyPond process output.
#[derive(Debug, Clone, Copy, PartialEq, Eq, Structural)]
pub enum LogStream {
    /// Standard output.
    Stdout,
    /// Standard error.
    Stderr,
}

/// Event stream emitted by a running compile session.
#[derive(Debug, Clone)]
pub enum CompileEvent {
    /// A single line from LilyPond process output.
    Log { stream: LogStream, line: String },
    /// Internal process/pipe handling error.
    ProcessError(String),
    /// Process completion notification.
    Finished { success: bool, exit_code: Option<i32> },
}

#[verifier::external_type_specification]
#[verifier::external_body]
#[verifier::reject_recursive_types(T)]
pub struct ExReceiver<T>(std::sync::mpsc::Receiver<T>);

#[verifier::external_type_specification]
#[verifier::external_body]
pub struct ExTryRecvError(std::sync::mpsc::TryRecvError);

/// `Receiver::try_recv`: the next event if one is waiting; what comes back depends on
/// the compile process, so nothing is stated of it.
#[verifier::external_body]
fn receiver_try_recv(events: &std::sync::mpsc::Receiver<CompileEvent>) -> Result<
    CompileEvent,
    std::sync::mpsc::TryRecvError,
> {
    events.try_recv()
}

/// Handle used by the GUI loop to receive compile events.
pub struct CompileSession {
    events: std::sync::mpsc::Receiver<CompileEvent>,
}

impl CompileSession {
    /// A session that reports the events sent on the other end of `events`.
    pub fn new(events: std::sync::mpsc::Receiver<CompileEvent>) -> Self {
        CompileSession { events }
    }

    /// Non-blocking receive for GUI polling loops.
    pub fn try_recv(&self) -> Result<CompileEvent, std::sync::mpsc::TryRecvError> {
        receiver_try_recv(&self.events)
    }
}

/// What one poll of a compile session gathered: log lines, whether it finished
/// successfully, and whether the session is still worth polling.
#[derive(Debug, Clone)]
pub struct CompileLogDrain {
    pub lines: Vec<String>,
    pub finished_successfully: bool,
    pub keep_session: bool,
}

/// `lilypond:stdout` or `lilypond:stderr`.
pub open spec fn spec_compile_log_prefix(stream: LogStream) -> Seq<char> {
    match stream {
        LogStream::Stdout => "lilypond:stdout"@,
        LogStream::Stderr => "lilypond:stderr"@,
    }
}

/// The tag of a log line from the given stream.
pub fn compile_log_prefix(stream: LogStream) -> (r: &'static str)
    ensures
        r@ == spec_compile_log_prefix(stream),
{
    match stream {
        LogStream::Stdout => "lilypond:stdout",
        LogStream::Stderr => "lilypond:stderr",
    }
}

/// Decimal text of a signed 32-bit integer (`ToString` for `i32`).
pub open spec fn i32_text(n: i32) -> Seq<char> {
    if n < 0 {
        seq!['-'] + crate::text::decimal_digits((-(n as int)) as nat)
    } else {
        crate::text::decimal_digits(n as nat)
    }
}

fn i32_chars(n: i32) -> (out: Vec<char>)
    ensures
        out@ == i32_text(n),
{
    if n < 0 {
        let magnitude: u64 = (0i64 - (n as i64)) as u64;
        let mut out: Vec<char> = Vec::new();
        out.push('-');
        let mut digits = crate::text::decimal_chars(magnitude);
        out.append(&mut digits);
        proof {
            assert(out@ =~= i32_text(n));
        }
        out
    } else {
        crate::text::decimal_chars(n as u64)
    }
}

/// The log line for a finished compile: success with the exit code (zero when the
/// process gave none), or failure with the exit code as `Some(n)` or `None`.
pub open spec fn spec_finished_compile_log_line(success: bool, exit_code: Option<i32>) -> Seq<char> {
    if success {
        "LilyPond compile finished successfully (exit code "@ + i32_text(
            match exit_code {
                Some(c) => c,
                None => 0,
            },
        ) + ")"@
    } else {
        "LilyPond compile failed (exit code "@ + match exit_code {
            Some(c) => "Some("@ + i32_text(c) + ")"@,
            None => "None"@,
        } + ")"@
    }
}

fn push_str(out: &mut Vec<char>, s: &str)
    ensures
        final(out)@ == old(out)@ + s@,
{
    let mut chars = chars_of(s);
    out.append(&mut chars);
}

/// The log line reporting how a compile finished.
pub fn finished_compile_log_line(success: bool, exit_code: Option<i32>) -> (r: String)
    ensures
        r@ == spec_finished_compile_log_line(success, exit_code),
{
    let mut out: Vec<char> = Vec::new();
    if success {
        push_str(&mut out, "LilyPond compile finished successfully (exit code ");
        let code = match exit_code {
            Some(c) => c,
            None => 0,
        };
        let mut digits = i32_chars(code);
        out.append(&mut digits);
        push_str(&mut out, ")");
    } else {
        push_str(&mut out, "LilyPond compile failed (exit code ");
        match exit_code {
            Some(c) => {
                push_str(&mut out, "Some(");
                let mut digits = i32_chars(c);
                out.append(&mut digits);
                push_str(&mut out, ")");
            },
            None => push_str(&mut out, "None"),
        }
        push_str(&mut out, ")");
    }
    proof {
        assert(out@ =~= spec_finished_compile_log_line(success, exit_code));
    }
    string_from_chars(&out)
}

/// The log line an event adds, and whether it finishes the compile.
pub open spec fn spec_compile_event_line(event: CompileEvent) -> Seq<char> {
    match event {
        CompileEvent::Log { stream, line } => seq!['['] + spec_compile_log_prefix(stream) + "] "@
            + line@,
        CompileEvent::ProcessError(message) => "[lilypond:process-error] "@ + message@,
        CompileEvent::Finished { success, exit_code } => spec_finished_compile_log_line(
            success,
            exit_code,
        ),
    }
}

/// Adds one compile event to the drain: its log line, and for the final event whether
/// the compile succeeded and that the session is done.
pub fn apply_compile_event(drain: &mut CompileLogDrain, event: CompileEvent)
    ensures
        final(drain).lines@.len() == old(drain).lines@.len() + 1,
        forall|i: int|
            0 <= i < old(drain).lines@.len() ==> final(drain).lines@[i] == old(drain).lines@[i],
        final(drain).lines@.last()@ == spec_compile_event_line(event),
        match event {
            CompileEvent::Finished { success, .. } => final(drain).finished_successfully == success
                && !final(drain).keep_session,
            _ => final(drain).finished_successfully == old(drain).finished_successfully
                && final(drain).keep_session == old(drain).keep_session,
        },
{
    match event {
        CompileEvent::Log { stream, line } => {
            let mut out: Vec<char> = Vec::new();
            out.push('[');
            push_str(&mut out, compile_log_prefix(stream));
            push_str(&mut out, "] ");
            push_str(&mut out, line.as_str());
            proof {
                assert(out@ =~= spec_compile_event_line(CompileEvent::Log { stream, line }));
            }
            drain.lines.push(string_from_chars(&out));
        },
        CompileEvent::ProcessError(message) => {
            let mut out: Vec<char> = Vec::new();
            push_str(&mut out, "[lilypond:process-error] ");
            push_str(&mut out, message.as_str());
            proof {
                assert(out@ =~= spec_compile_event_line(CompileEvent::ProcessError(message)));
            }
            drain.lines.push(string_from_chars(&out));
        },
        CompileEvent::Finished { success, exit_code } => {
            drain.lines.push(finished_compile_log_line(success, exit_code));
            drain.finished_successfully = success;
            drain.keep_session = false;
        },
    }
}

/// What one poll of a compile session found: an event, nothing yet, or that the sending
/// side is gone.
#[derive(Debug, Clone)]
pub enum PollOutcome {
    Event(CompileEvent),
    Empty,
    Disconnected,
}

/// `TryRecvError::Disconnected`: whether the sending side is gone, rather than merely
/// empty. Which case came back depends on the compile process, so nothing is stated.
#[verifier::external_body]
fn try_recv_disconnected(error: &std::sync::mpsc::TryRecvError) -> bool {
    match error {
        std::sync::mpsc::TryRecvError::Empty => false,
        std::sync::mpsc::TryRecvError::Disconnected => true,
    }
}

impl CompileSession {
    /// One non-blocking poll, as a [`PollOutcome`]. What comes back depends on the compile
    /// process, so nothing is stated of it.
    pub fn poll(&self) -> PollOutcome {
        match self.try_recv() {
            Ok(event) => PollOutcome::Event(event),
            Err(error) => if try_recv_disconnected(&error) {
                PollOutcome::Disconnected
            } else {
                PollOutcome::Empty
            },
        }
    }
}

/// A drain as plain values: its lines' text, whether the compile finished successfully,
/// and whether the session is still worth polling.
pub open spec fn drain_view(drain: CompileLogDrain) -> (Seq<Seq<char>>, bool, bool) {
    (drain.lines@.map_values(|line: String| line@), drain.finished_successfully, drain.keep_session)
}

/// The drain after one more event: its line is added, and a finish records whether the
/// compile succeeded and ends the session.
pub open spec fn spec_after_event(view: (Seq<Seq<char>>, bool, bool), event: CompileEvent) -> (
    Seq<Seq<char>>,
    bool,
    bool,
) {
    match event {
        CompileEvent::Finished { success, .. } => (view.0.push(spec_compile_event_line(event)), success, false),
        _ => (view.0.push(spec_compile_event_line(event)), view.1, view.2),
    }
}

/// The drain after the given events, one after another, from an empty drain whose session
/// is worth polling.
pub open spec fn spec_drain_events(events: Seq<CompileEvent>) -> (Seq<Seq<char>>, bool, bool)
    decreases events.len(),
{
    if events.len() == 0 {
        (Seq::empty(), false, true)
    } else {
        spec_after_event(spec_drain_events(events.drop_last()), events.last())
    }
}

/// The drain after the given events, followed by the news that the sending side is gone
/// (`disconnected`) or that nothing more is waiting.
pub open spec fn spec_drain(events: Seq<CompileEvent>, disconnected: bool) -> (Seq<Seq<char>>, bool, bool) {
    let v = spec_drain_events(events);
    if disconnected {
        (v.0, v.1, false)
    } else {
        v
    }
}

/// Adds one poll outcome to the drain: an event adds its line (see
/// [`apply_compile_event`]) and polling goes on (`true`); nothing waiting stops polling;
/// a gone sender stops polling and ends the session.
pub fn apply_poll_outcome(drain: &mut CompileLogDrain, outcome: PollOutcome) -> (more: bool)
    ensures
        more == (outcome is Event),
        match outcome {
            PollOutcome::Event(event) => drain_view(*final(drain)) == spec_after_event(drain_view(*old(drain)), event),
            PollOutcome::Empty => drain_view(*final(drain)) == drain_view(*old(drain)),
            PollOutcome::Disconnected => drain_view(*final(drain)) == (
                drain_view(*old(drain)).0,
                drain_view(*old(drain)).1,
                false,
            ),
        },
{
    match outcome {
        PollOutcome::Event(event) => {
            let ghost e = event;
            let ghost before = drain_view(*drain);
            apply_compile_event(drain, event);
            proof {
                assert(drain_view(*drain).0 =~= before.0.push(spec_compile_event_line(e)));
            }
            true
        },
        PollOutcome::Empty => false,
        PollOutcome::Disconnected => {
            drain.keep_session = false;
            false
        },
    }
}

/// Everything a compile session has sent so far, each event's log line in arrival order:
/// the drain is the events received, one after another, ended by the poll that found
/// nothing waiting or the sending side gone (which ends the session). Which events arrive
/// depends on the compile process. One poll takes at most `u64::MAX` events, which no
/// compile sends.
pub fn drain_compile_logs(session: &CompileSession) -> (r: CompileLogDrain)
    ensures
        exists|events: Seq<CompileEvent>, disconnected: bool|
            #[trigger] spec_drain(events, disconnected) == drain_view(r),
        r.finished_successfully ==> !r.keep_session,
{
    let mut drain = CompileLogDrain { lines: Vec::new(), finished_successfully: false, keep_session: true };
    let ghost mut events: Seq<CompileEvent> = Seq::empty();
    proof {
        assert(drain_view(drain).0 =~= Seq::<Seq<char>>::empty());
    }
    let mut budget: u64 = u64::MAX;
    while budget > 0
        invariant
            drain_view(drain) == spec_drain_events(events),
            drain.finished_successfully ==> !drain.keep_session,
        decreases budget,
    {
        budget = budget - 1;
        let outcome = session.poll();
        let ghost o = outcome;
        let more = apply_poll_outcome(&mut drain, outcome);
        if !more {
            proof {
                if o is Disconnected {
                    assert(spec_drain(events, true) == drain_view(drain));
                } else {
                    assert(spec_drain(events, false) == drain_view(drain));
                }
            }
            return drain;
        }
        proof {
            let e = o->Event_0;
            assert(events.push(e).drop_last() =~= events);
            events = events.push(e);
        }
    }
    proof {
        assert(spec_drain(events, false) == drain_view(drain));
    }
    drain
}

/// Arguments for an interactive compile: SVG pages with point-and-click on notes, MIDI
/// output with the `.midi` extension, the event listener, and the output prefix.
pub fn lilypond_compile_args(output_prefix: &str) -> (args: Vec<String>)
    ensures
        args@.len() == 6,
        args@[0]@ == "--svg"@,
        args@[1]@ == "-dmidi-extension=midi"@,
        args@[2]@ == "-dinclude-settings=event-listener.ly"@,
        args@[3]@ == "-dpoint-and-click=note-event"@,
        args@[4]@ == "-o"@,
        args@[5]@ == output_prefix@,
{
    let mut args: Vec<String> = Vec::new();
    args.push(crate::text::owned("--svg"));
    args.push(crate::text::owned("-dmidi-extension=midi"));
    args.push(crate::text::owned("-dinclude-settings=event-listener.ly"));
    args.push(crate::text::owned("-dpoint-and-click=note-event"));
    args.push(crate::text::owned("-o"));
    args.push(crate::text::owned(output_prefix));
    args
}

} // verus!
