//! Is a kernel configuration option enabled?
//!
//! The running kernel exposes its build-time configuration as a gzip stream of
//! text, one `KEY=value` line per option that is set. A [`HasKconfig`] looks
//! for the first line of its key and maps the value to a verdict.

use super::config_gz::{gz_text, open, pending, read_line, Pending};
use super::{Condition, ConditionError, DynConditionError};
use crate::io_error::{IoError, IoKind};
use crate::text::{str_eq, strip_prefix, trim, trimmed};
use vstd::prelude::*;
use vstd::string::*;

verus! {

/// Where the running kernel exposes its compressed configuration.
pub const PROC_CONFIG_PATH: &'static str = "/proc/config.gz";

/// Why a [`HasKconfig`] gave no verdict.
#[derive(Debug)]
pub enum Error {
    /// The compressed configuration does not exist: the kernel does not
    /// support introspection of its configuration.
    MissingProcConfig,
    /// The configuration holds something outside the known vocabulary.
    InvariantViolation(String),
    /// The configuration could not be opened, read or decompressed.
    Io(IoError),
    /// Any other failure, by its message.
    Other(String),
}

impl Error {
    /// Whether the error is ignorable: only the missing configuration is.
    pub open spec fn ignorable(&self) -> bool {
        self is MissingProcConfig
    }

    /// The message of the error.
    pub open spec fn message_text(&self) -> Seq<char> {
        match self {
            Error::MissingProcConfig => "missing /proc/config.gz. does your kernel have CONFIG_IKCONFIG_PROC=y?"@,
            Error::InvariantViolation(detail) => "invariant violated: "@ + detail@,
            Error::Io(failure) => failure.message@,
            Error::Other(message) => message@,
        }
    }

    /// The error for a configuration that could not be opened: a missing file
    /// means that introspection is unavailable, and any other failure is
    /// passed on as it is.
    pub open spec fn of_open_failure(failure: IoError) -> Error {
        if failure.kind is NotFound {
            Error::MissingProcConfig
        } else {
            Error::Io(failure)
        }
    }

    /// Maps the failure to open the configuration to the error of the check.
    pub fn from_open_failure(failure: IoError) -> (error: Error)
        ensures
            error == Error::of_open_failure(failure),
    {
        match failure.kind {
            IoKind::NotFound => Error::MissingProcConfig,
            _ => Error::from(failure),
        }
    }
}

impl From<IoError> for Error {
    fn from(failure: IoError) -> (error: Error) {
        Error::Io(failure)
    }
}

impl vstd::std_specs::convert::FromSpecImpl<IoError> for Error {
    open spec fn obeys_from_spec() -> bool {
        true
    }

    open spec fn from_spec(failure: IoError) -> Error {
        Error::Io(failure)
    }
}

impl ConditionError for Error {
    fn is_ignorable(&self) -> (r: bool)
        ensures
            r == self.ignorable(),
    {
        matches!(self, Error::MissingProcConfig)
    }

    fn message(&self) -> (r: String)
        ensures
            r@ == self.message_text(),
    {
        match self {
            Error::MissingProcConfig => String::from_str(
                "missing /proc/config.gz. does your kernel have CONFIG_IKCONFIG_PROC=y?",
            ),
            Error::InvariantViolation(detail) => String::from_str("invariant violated: ").concat(
                detail.as_str(),
            ),
            Error::Io(failure) => failure.message.clone(),
            Error::Other(message) => message.clone(),
        }
    }
}

/// What a check is to return, each error given by what determines it.
pub enum Expected {
    /// The verdict.
    Verdict(bool),
    /// An [`Error::InvariantViolation`] that carries this value.
    UnexpectedValue(Seq<char>),
    /// An [`Error::Io`]: the stream failed before any line of the key.
    StreamFailure,
}

/// The detail of [`Error::InvariantViolation`] for a value that is none of
/// `y`, `m` and the empty text.
pub open spec fn unexpected_value_text(value: Seq<char>) -> Seq<char> {
    "unexpected value in config.gz: `"@ + value + "`"@
}

/// Whether `result` is what `expected` asks for.
pub open spec fn meets(result: Result<bool, Error>, expected: Expected) -> bool {
    match expected {
        Expected::Verdict(verdict) => result == Ok::<bool, Error>(verdict),
        Expected::UnexpectedValue(value) => {
            &&& result matches Err(Error::InvariantViolation(detail))
            &&& detail@ == unexpected_value_text(value)
        },
        Expected::StreamFailure => result matches Err(Error::Io(_)),
    }
}

/// The verdict for the value of an option: `y` is enabled, `m` is enabled if
/// modules count, nothing at all is disabled, and anything else is no value.
pub open spec fn value_verdict(value: Seq<char>, allow_module: bool) -> Expected {
    if value == "y"@ {
        Expected::Verdict(true)
    } else if value == "m"@ {
        Expected::Verdict(allow_module)
    } else if value.len() == 0 {
        Expected::Verdict(false)
    } else {
        Expected::UnexpectedValue(value)
    }
}

/// What one line decides: nothing, unless it begins with `pattern`; else the
/// verdict for what follows the pattern, without surrounding whitespace.
pub open spec fn line_verdict(pattern: Seq<char>, allow_module: bool, line: Seq<char>) -> Option<
    Expected,
> {
    if pattern.is_prefix_of(line) {
        Some(value_verdict(trimmed(line.skip(pattern.len() as int)), allow_module))
    } else {
        None
    }
}

/// What the first line that begins with `pattern` decides, if there is one.
pub open spec fn first_verdict(
    pattern: Seq<char>,
    allow_module: bool,
    lines: Seq<Seq<char>>,
) -> Option<Expected>
    decreases lines.len(),
{
    if lines.len() == 0 {
        None
    } else {
        match line_verdict(pattern, allow_module, lines.first()) {
            Some(expected) => Some(expected),
            None => first_verdict(pattern, allow_module, lines.drop_first()),
        }
    }
}

/// What a scan of the whole text decides: the first line of the key wins; a
/// key that is absent from a complete text is not set; and a text that fails
/// before any line of the key gives no verdict.
pub open spec fn scan_verdict(pattern: Seq<char>, allow_module: bool, text: Pending) -> Expected {
    match first_verdict(pattern, allow_module, text.lines) {
        Some(expected) => expected,
        None => if text.complete {
            Expected::Verdict(false)
        } else {
            Expected::StreamFailure
        },
    }
}

/// Maps the value of an option to the result of the check.
pub fn verdict_of_value(value: &str, allow_module: bool) -> (result: Result<bool, Error>)
    ensures
        meets(result, value_verdict(value@, allow_module)),
{
    if str_eq(value, "y") {
        Ok(true)
    } else if str_eq(value, "m") {
        Ok(allow_module)
    } else if value.is_empty() {
        Ok(false)
    } else {
        Err(
            Error::InvariantViolation(
                String::from_str("unexpected value in config.gz: `").concat(value).concat("`"),
            ),
        )
    }
}

/// Decides one line of the configuration against `pattern`: `None` if the
/// line does not begin with it.
pub fn verdict_of_line(pattern: &str, allow_module: bool, line: &str) -> (result: Option<
    Result<bool, Error>,
>)
    ensures
        match line_verdict(pattern@, allow_module, line@) {
            Some(expected) => result matches Some(r) && meets(r, expected),
            None => result is None,
        },
{
    match strip_prefix(line, pattern) {
        Some(rest) => Some(verdict_of_value(trim(rest), allow_module)),
        None => None,
    }
}

/// The condition that a kernel configuration option is enabled.
#[derive(Debug)]
pub struct HasKconfig {
    /// The key of the option, such as `CONFIG_SCHED_CLASS_EXT`.
    pub conf: String,
    /// Whether an option that is built as a module counts as enabled.
    pub allow_module: bool,
}

impl HasKconfig {
    /// The condition on the option `conf`; a module counts as enabled.
    pub fn new(conf: String) -> (condition: Self)
        ensures
            condition.conf == conf,
            condition.allow_module,
    {
        Self { conf, allow_module: true }
    }

    /// What a line of this option begins with: the key, then `=`.
    pub open spec fn pattern(&self) -> Seq<char> {
        self.conf@ + "="@
    }

    /// What a check against `text` is to return.
    pub open spec fn expected(&self, text: Pending) -> Expected {
        scan_verdict(self.pattern(), self.allow_module, text)
    }

    /// Checks the option against the compressed configuration `config_gz`.
    ///
    /// The stream is decompressed line by line, and the scan stops at the
    /// first line of the key: its value decides, and nothing after it is
    /// read. A key that no line holds is not set. A stream that cannot be
    /// decompressed or is no text fails with [`Error::Io`], unless a line of
    /// the key came before the failure.
    pub fn check(&self, config_gz: &[u8]) -> (result: Result<bool, Error>)
        ensures
            meets(result, self.expected(gz_text(config_gz@))),
    {
        let mut reader = open(config_gz);
        let pattern = self.conf.clone().concat("=");
        loop
            invariant
                pattern@ == self.pattern(),
                self.expected(pending(reader)) == self.expected(gz_text(config_gz@)),
            decreases pending(reader).lines.len(),
        {
            let mut line = String::new();
            match read_line(&mut reader, &mut line) {
                Err(failure) => {
                    return Err(Error::from(failure));
                },
                Ok(n) => {
                    if n == 0 {
                        return Ok(false);
                    }
                    match verdict_of_line(pattern.as_str(), self.allow_module, line.as_str()) {
                        Some(result) => {
                            return result;
                        },
                        None => {},
                    }
                },
            }
        }
    }
}

/// One evaluation of a [`HasKconfig`]: the condition, and what the attempt to
/// obtain the compressed configuration gave.
#[derive(Debug)]
pub struct Probe {
    pub condition: HasKconfig,
    /// The bytes of the compressed configuration, or why the configuration
    /// could not be opened.
    pub source: Result<Vec<u8>, IoError>,
}

impl Probe {
    /// What a check of the probe is to return: for a configuration that
    /// could not be opened, the error for that failure; else what the scan of
    /// the configuration decides.
    pub open spec fn is_outcome(&self, result: Result<bool, Error>) -> bool {
        match self.source {
            Ok(config_gz) => meets(result, self.condition.expected(gz_text(config_gz@))),
            Err(failure) => result == Err::<bool, Error>(Error::of_open_failure(failure)),
        }
    }
}

impl Condition for Probe {
    type Err = Error;

    fn check(&self) -> (r: Result<bool, Error>)
        ensures
            self.is_outcome(r),
    {
        match &self.source {
            Ok(config_gz) => self.condition.check(config_gz.as_slice()),
            Err(failure) => Err(Error::from_open_failure(failure.clone())),
        }
    }
}

/// The vocabulary of values: `y` is enabled whatever the policy, `m` is what
/// the policy on modules says, the empty value is disabled, and every other
/// value is reported as it stands.
pub proof fn lemma_value_vocabulary(value: Seq<char>, allow_module: bool)
    ensures
        value == seq!['y'] ==> value_verdict(value, allow_module) == Expected::Verdict(true),
        value == seq!['m'] ==> value_verdict(value, allow_module) == Expected::Verdict(
            allow_module,
        ),
        value.len() == 0 ==> value_verdict(value, allow_module) == Expected::Verdict(false),
        value.len() > 0 && value != seq!['y'] && value != seq!['m'] ==> value_verdict(
            value,
            allow_module,
        ) == Expected::UnexpectedValue(value),
{
    reveal_strlit("y");
    reveal_strlit("m");
    assert("y"@ == seq!['y']);
    assert("m"@ == seq!['m']);
    assert(seq!['y'][0] != seq!['m'][0]);
}

/// The first line of the key decides. Where no line of `before` begins with
/// `pattern` and `line` does, a scan of `before`, `line` and `after` gives
/// what `line` decides, whatever `after` holds and however the text ends.
pub proof fn lemma_first_line_of_key_wins(
    pattern: Seq<char>,
    allow_module: bool,
    before: Seq<Seq<char>>,
    line: Seq<char>,
    after: Seq<Seq<char>>,
    complete: bool,
)
    requires
        forall|i: int| 0 <= i < before.len() ==> !pattern.is_prefix_of(#[trigger] before[i]),
        pattern.is_prefix_of(line),
    ensures
        Some(
            scan_verdict(
                pattern,
                allow_module,
                Pending { lines: before + seq![line] + after, complete },
            ),
        ) == line_verdict(pattern, allow_module, line),
    decreases before.len(),
{
    if before.len() > 0 {
        let lines = before + seq![line] + after;
        assert(lines.drop_first() == before.drop_first() + seq![line] + after);
        lemma_first_line_of_key_wins(
            pattern,
            allow_module,
            before.drop_first(),
            line,
            after,
            complete,
        );
    }
}

/// A key that no line begins with is not set, if the text is complete; if the
/// text fails, there is no verdict.
pub proof fn lemma_absent_key(pattern: Seq<char>, allow_module: bool, text: Pending)
    requires
        forall|i: int|
            0 <= i < text.lines.len() ==> !pattern.is_prefix_of(#[trigger] text.lines[i]),
    ensures
        text.complete ==> scan_verdict(pattern, allow_module, text) == Expected::Verdict(false),
        !text.complete ==> scan_verdict(pattern, allow_module, text) == Expected::StreamFailure,
    decreases text.lines.len(),
{
    if text.lines.len() > 0 {
        lemma_absent_key(
            pattern,
            allow_module,
            Pending { lines: text.lines.drop_first(), complete: text.complete },
        );
    }
}

/// The missing configuration is ignorable and no other error is: the error
/// for a configuration that could not be opened is ignorable exactly if the
/// file does not exist, and an unexpected value never is.
pub proof fn lemma_only_missing_config_is_ignorable(error: Error, failure: IoError)
    ensures
        error.ignorable() <==> error is MissingProcConfig,
        error is InvariantViolation ==> !error.ignorable(),
        Error::of_open_failure(failure).ignorable() <==> failure.kind is NotFound,
{
}

/// No error that the scan of a configuration gives is ignorable.
pub proof fn lemma_scan_errors_are_not_ignorable(result: Result<bool, Error>, expected: Expected)
    requires
        meets(result, expected),
        result is Err,
    ensures
        !result->Err_0.ignorable(),
{
}

/// Erasure changes nothing of an [`Error`] but its type: what stands for the
/// error has its classification and its message.
pub proof fn lemma_erasure_keeps_classification(error: Error, erased: DynConditionError)
    requires
        erased.stands_for(error),
    ensures
        erased.ignorable() == error.ignorable(),
        erased.message_text() == error.message_text(),
{
}

/// Through the erased interface, the check of a probe whose configuration
/// does not exist gives an ignorable error, as the typed check does.
pub proof fn lemma_erased_missing_config_is_ignorable(
    probe: Probe,
    erased: Result<bool, DynConditionError>,
)
    requires
        probe.source is Err,
        probe.source->Err_0.kind is NotFound,
        super::DynCondition::is_erased_check(&probe, erased),
    ensures
        erased is Err,
        erased->Err_0.ignorable(),
{
}

} // verus!
