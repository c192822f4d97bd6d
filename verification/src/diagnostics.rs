//! What an error report shows: its message, the lines of the activity
//! file it points at, how each line is marked, and the help that follows.
use vstd::prelude::*;
use crate::lca::ComputError;
use crate::parser::{FileLocator, RunError};
use crate::error::{decimal, decimal_text};
use crate::text::{is_nonempty, string_of};
use vstd::string::StrSliceExecFns;

verus! {

/// How the lines of a located error are shown.
#[derive(PartialEq, Eq, Structural, Clone, Copy, Debug)]
pub enum LineStyle {
    /// Each line as it is.
    Plain,
    /// The line that sets `field` is marked with an arrow.
    SuggestionArrow,
    /// The line that sets `field` is struck out and replaced by `field`
    /// set to `suggestion`.
    ChangeSuggestion,
    /// The `suggestion` is proposed as a new line after the `database` line.
    AdditionSuggestion,
}

/// A report that points into an activity file.
#[derive(Debug)]
pub struct Diagnostic {
    pub locator: FileLocator,
    pub error_msg: String,
    pub help_msg: String,
    pub field: String,
    pub suggestion: String,
    pub line_style: LineStyle,
    /// Whether the suggestion is proposed as a new line after the lines.
    pub suggest_added_line: bool,
}

/// What an error report shows.
#[derive(Debug)]
pub enum Report {
    /// A one-line message.
    Message(String),
    /// A message located in an activity file.
    Located(Diagnostic),
}

/// `d` is the located report with these parts.
pub open spec fn is_located(
    r: Report,
    locator: FileLocator,
    error_msg: Seq<char>,
    help_msg: Seq<char>,
    field: Seq<char>,
    suggestion: Seq<char>,
    line_style: LineStyle,
    suggest_added_line: bool,
) -> bool {
    r matches Report::Located(d) && d.locator == locator && d.error_msg@ == error_msg
        && d.help_msg@ == help_msg && d.field@ == field && d.suggestion@ == suggestion
        && d.line_style == line_style && d.suggest_added_line == suggest_added_line
}

/// Whether a suggestion of these characters is empty.
pub open spec fn nonempty(s: Seq<char>) -> bool {
    s.len() > 0
}

/// `r` is the report of the computation error `e`.
pub open spec fn comput_report(r: Report, e: ComputError<FileLocator>) -> bool {
    match e {
        ComputError::OdysseyError(m) => r matches Report::Message(t) && t@ == "engine error: "@ + m@,
        ComputError::IoError(m) => r matches Report::Message(t) && t@ == "io error: "@ + m@,
        ComputError::SearchError(m) => r matches Report::Message(t) && t@ == m@,
        ComputError::MissingExchange(loc) => is_located(
            r,
            loc,
            "error: exchange flow not found"@,
            "the search query returned zero results in the current database | try searching for the exchange using: odyssey search \"your_exchange_name\""@,
            ""@,
            ""@,
            LineStyle::Plain,
            nonempty(""@),
        ),
        ComputError::NameError(loc) => is_located(
            r,
            loc,
            "error: exchange flow not found"@,
            "the search query returned zero results in the current database (the 'name' is likely incorrect) | try searching for the exchange using: odyssey search \"your_exchange_name\""@,
            ""@,
            ""@,
            LineStyle::Plain,
            false,
        ),
        ComputError::DatabaseError(loc) => is_located(
            r,
            loc,
            "error: exchange flow not found"@,
            "the search query returned zero results in the current database (the 'database' is likely incorrect) | try searching for the exchange using: odyssey search \"your_exchange_name\" -d \"database.name_database.version\""@,
            "database"@,
            "database"@,
            LineStyle::SuggestionArrow,
            false,
        ),
        ComputError::LocationError(loc) => is_located(
            r,
            loc,
            "error: exchange flow not found"@,
            "the search query returned zero results in the current database (the 'location' filter is likely incorrect) | try searching for the exchange using: odyssey search \"your_exchange_name\" -l \"your_location\""@,
            "location"@,
            "location"@,
            LineStyle::SuggestionArrow,
            false,
        ),
        ComputError::UnitError(loc) => is_located(
            r,
            loc,
            "error: exchange flow not found"@,
            "the search query returned zero results in the current database (the 'unit' filter is likely incorrect) | try searching for the exchange using: odyssey search \"your_exchange_name\" -l \"your_unit\""@,
            "unit"@,
            "unit"@,
            LineStyle::SuggestionArrow,
            false,
        ),
        ComputError::MultipleExchange(loc) => is_located(
            r,
            loc,
            "error: multiple exchanges found"@,
            "the search query returned multiple matching entries in the database | restrict the search by adding filters (e.g. location, unit) | try searching for the exchange using: odyssey search \"your_exchange_name\""@,
            ""@,
            ""@,
            LineStyle::Plain,
            nonempty(""@),
        ),
        ComputError::UnknownDatabase(loc) => is_located(
            r,
            loc,
            "error: a database was not found"@,
            ""@,
            ""@,
            ""@,
            LineStyle::Plain,
            false,
        ),
        ComputError::InternalError(loc) => is_located(
            r,
            loc,
            "error: an internal error occured due to the following exchange"@,
            ""@,
            ""@,
            ""@,
            LineStyle::Plain,
            false,
        ),
    }
}

/// `r` is the report of the run error `e`.
pub open spec fn run_report(r: Report, e: RunError) -> bool {
    match e {
        RunError::OdysseyError(m) => r matches Report::Message(t) && t@ == "engine error: "@ + m@,
        RunError::IoError(m) => r matches Report::Message(t) && t@ == "io error: "@ + m@,
        RunError::TantivyError(m) => r matches Report::Message(t) && t@ == "tantivy error: "@ + m@,
        RunError::SearchError(m) => r matches Report::Message(t) && t@ == m@,
        RunError::UnknownMethod(m) => r matches Report::Message(t) && t@ == m@,
        RunError::ComputError(c) => comput_report(r, c),
        RunError::YamlLoadError { error_locator, details } => is_located(
            r,
            error_locator,
            "error: error during yaml parsing"@,
            details@,
            ""@,
            ""@,
            LineStyle::Plain,
            false,
        ),
        RunError::InvalidYamlFormat { error_locator, details } => is_located(
            r,
            error_locator,
            "error: invalid YAML structure"@,
            details@,
            ""@,
            ""@,
            LineStyle::Plain,
            false,
        ),
        RunError::BothDatabaseAndFile(error_locator) => is_located(
            r,
            error_locator,
            "error: exchange contains both database and file links"@,
            "every exchange must take its values from file or from a database, not both"@,
            ""@,
            "Remove either the database or the file section"@,
            LineStyle::Plain,
            false,
        ),
        RunError::MissingExchangeName(error_locator) => is_located(
            r,
            error_locator,
            "error: missing exchange name"@,
            "every exchange must have a unique identifier name"@,
            "name"@,
            "name: \"your_exchange_name\""@,
            LineStyle::Plain,
            nonempty("name: \"your_exchange_name\""@),
        ),
        RunError::WrongFieldFormat { error_locator, field_name } => is_located(
            r,
            error_locator,
            "error: wrong field format"@,
            "this field should be a string"@,
            field_name@,
            ""@,
            LineStyle::SuggestionArrow,
            false,
        ),
        RunError::MissingExchangeLink(error_locator) => is_located(
            r,
            error_locator,
            "error: missing exchange link"@,
            "an exchange requires a data source definition, define either `file` OR `database`"@,
            "database"@,
            "database:\n            name: \"your_database_name\"\n            version: \"0.0.0\"\n    OR:\n         file: \"path/to/file.yaml\"\n  "@,
            LineStyle::Plain,
            nonempty("database:\n            name: \"your_database_name\"\n            version: \"0.0.0\"\n    OR:\n         file: \"path/to/file.yaml\"\n  "@),
        ),
        RunError::MissingDatabaseName(error_locator) => is_located(
            r,
            error_locator,
            "error: missing database name"@,
            "the `database` configuration block is incomplete, define a database name"@,
            "name"@,
            "name: \"your_database_name\""@,
            LineStyle::AdditionSuggestion,
            false,
        ),
        RunError::UnknownDatabase(error_locator) => is_located(
            r,
            error_locator,
            "error: unknown database"@,
            "the `database` provided is not supported by Odyssey"@,
            ""@,
            ""@,
            LineStyle::Plain,
            false,
        ),
        RunError::MissingDatabaseVersion(error_locator) => is_located(
            r,
            error_locator,
            "error: missing database version"@,
            "the `database` configuration block is incomplete, define a database version"@,
            "version"@,
            "version: \"0.0.0\""@,
            LineStyle::AdditionSuggestion,
            false,
        ),
        RunError::MissingExchangeAmount(error_locator) => is_located(
            r,
            error_locator,
            "error: missing exchange amount"@,
            "the numerical quantity `amount` for the flow is missing"@,
            "amount"@,
            "amount: 0.0"@,
            LineStyle::Plain,
            nonempty("amount: 0.0"@),
        ),
        RunError::AmountError(error_locator) => is_located(
            r,
            error_locator,
            "error: invalid exchange amount format"@,
            "the amount could not be parsed into a 64-bit float (f64)"@,
            "amount"@,
            ""@,
            LineStyle::SuggestionArrow,
            false,
        ),
        RunError::FileError(error_locator) => is_located(
            r,
            error_locator,
            "error: invalid exchange file"@,
            "Failed to open or read the exchange file. Verify that the file path exists and is accessible."@,
            "file"@,
            ""@,
            LineStyle::SuggestionArrow,
            false,
        ),
        RunError::UnitMismatch { error_locator, activity_unit } => is_located(
            r,
            error_locator,
            "error: unit mismatch between exchange and its defining activity and no conversion is possible"@,
            "consider changing the unit of that exchange to match that of the linked activity"@,
            "unit"@,
            activity_unit@,
            LineStyle::ChangeSuggestion,
            false,
        ),
        RunError::LocationMismatch { error_locator, activity_location } => is_located(
            r,
            error_locator,
            "error: location mismatch between exchange and its defining activity and no conversion is possible"@,
            "consider changing the location of that exchange to match that of the linked activity"@,
            "location"@,
            activity_location@,
            LineStyle::ChangeSuggestion,
            false,
        ),
        RunError::NameMismatch { error_locator, activity_name } => is_located(
            r,
            error_locator,
            "error: name mismatch between exchange and its defining activity and no conversion is possible"@,
            "consider changing the name of that exchange to match that of the linked activity"@,
            "name"@,
            activity_name@,
            LineStyle::ChangeSuggestion,
            false,
        ),
    }
}

/// `prefix` followed by `text`.
fn prefixed(prefix: &str, text: &String) -> (r: String)
    ensures
        r@ == prefix@ + text@,
{
    let mut r = string_of(prefix);
    r.append(text.as_str());
    r
}

/// A located report.
fn located(
    locator: &FileLocator,
    error_msg: String,
    help_msg: String,
    field: String,
    suggestion: String,
    line_style: LineStyle,
    suggest_added_line: bool,
) -> (r: Report)
    ensures
        is_located(
            r,
            *locator,
            error_msg@,
            help_msg@,
            field@,
            suggestion@,
            line_style,
            suggest_added_line,
        ),
{
    Report::Located(
        Diagnostic {
            locator: locator.duplicate(),
            error_msg,
            help_msg,
            field,
            suggestion,
            line_style,
            suggest_added_line,
        },
    )
}

impl ComputError<FileLocator> {
    /// The report of this error: engine, input/output and search errors
    /// are one-line messages; the others point at the exchange they
    /// concern.
    pub fn report(&self) -> (r: Report)
        ensures
            comput_report(r, *self),
    {
        match self {
            ComputError::OdysseyError(m) => Report::Message(prefixed("engine error: ", m)),
            ComputError::IoError(m) => Report::Message(prefixed("io error: ", m)),
            ComputError::SearchError(m) => Report::Message(m.clone()),
            ComputError::MissingExchange(loc) => {
                let suggest_added_line = is_nonempty("");
                located(
                    loc,
                    string_of("error: exchange flow not found"),
                    string_of("the search query returned zero results in the current database | try searching for the exchange using: odyssey search \"your_exchange_name\""),
                    string_of(""),
                    string_of(""),
                    LineStyle::Plain,
                    suggest_added_line,
                )
            },
            ComputError::NameError(loc) => {
                let suggest_added_line = false;
                located(
                    loc,
                    string_of("error: exchange flow not found"),
                    string_of("the search query returned zero results in the current database (the 'name' is likely incorrect) | try searching for the exchange using: odyssey search \"your_exchange_name\""),
                    string_of(""),
                    string_of(""),
                    LineStyle::Plain,
                    suggest_added_line,
                )
            },
            ComputError::DatabaseError(loc) => {
                let suggest_added_line = false;
                located(
                    loc,
                    string_of("error: exchange flow not found"),
                    string_of("the search query returned zero results in the current database (the 'database' is likely incorrect) | try searching for the exchange using: odyssey search \"your_exchange_name\" -d \"database.name_database.version\""),
                    string_of("database"),
                    string_of("database"),
                    LineStyle::SuggestionArrow,
                    suggest_added_line,
                )
            },
            ComputError::LocationError(loc) => {
                let suggest_added_line = false;
                located(
                    loc,
                    string_of("error: exchange flow not found"),
                    string_of("the search query returned zero results in the current database (the 'location' filter is likely incorrect) | try searching for the exchange using: odyssey search \"your_exchange_name\" -l \"your_location\""),
                    string_of("location"),
                    string_of("location"),
                    LineStyle::SuggestionArrow,
                    suggest_added_line,
                )
            },
            ComputError::UnitError(loc) => {
                let suggest_added_line = false;
                located(
                    loc,
                    string_of("error: exchange flow not found"),
                    string_of("the search query returned zero results in the current database (the 'unit' filter is likely incorrect) | try searching for the exchange using: odyssey search \"your_exchange_name\" -l \"your_unit\""),
                    string_of("unit"),
                    string_of("unit"),
                    LineStyle::SuggestionArrow,
                    suggest_added_line,
                )
            },
            ComputError::MultipleExchange(loc) => {
                let suggest_added_line = is_nonempty("");
                located(
                    loc,
                    string_of("error: multiple exchanges found"),
                    string_of("the search query returned multiple matching entries in the database | restrict the search by adding filters (e.g. location, unit) | try searching for the exchange using: odyssey search \"your_exchange_name\""),
                    string_of(""),
                    string_of(""),
                    LineStyle::Plain,
                    suggest_added_line,
                )
            },
            ComputError::UnknownDatabase(loc) => {
                let suggest_added_line = false;
                located(
                    loc,
                    string_of("error: a database was not found"),
                    string_of(""),
                    string_of(""),
                    string_of(""),
                    LineStyle::Plain,
                    suggest_added_line,
                )
            },
            ComputError::InternalError(loc) => {
                let suggest_added_line = false;
                located(
                    loc,
                    string_of("error: an internal error occured due to the following exchange"),
                    string_of(""),
                    string_of(""),
                    string_of(""),
                    LineStyle::Plain,
                    suggest_added_line,
                )
            },
        }
    }
}

impl RunError {
    /// The report of this error: engine, input/output, index and search
    /// errors and unknown methods are one-line messages; the others point
    /// at the part of the activity file they concern.
    pub fn report(&self) -> (r: Report)
        ensures
            run_report(r, *self),
    {
        match self {
            RunError::OdysseyError(m) => Report::Message(prefixed("engine error: ", m)),
            RunError::IoError(m) => Report::Message(prefixed("io error: ", m)),
            RunError::TantivyError(m) => Report::Message(prefixed("tantivy error: ", m)),
            RunError::SearchError(m) => Report::Message(m.clone()),
            RunError::UnknownMethod(m) => Report::Message(m.clone()),
            RunError::ComputError(c) => c.report(),
            RunError::YamlLoadError { error_locator, details } => {
                let suggestion = string_of("");
                let suggest_added_line = false;
                located(
                    error_locator,
                    string_of("error: error during yaml parsing"),
                    details.clone(),
                    string_of(""),
                    suggestion,
                    LineStyle::Plain,
                    suggest_added_line,
                )
            },
            RunError::InvalidYamlFormat { error_locator, details } => {
                let suggestion = string_of("");
                let suggest_added_line = false;
                located(
                    error_locator,
                    string_of("error: invalid YAML structure"),
                    details.clone(),
                    string_of(""),
                    suggestion,
                    LineStyle::Plain,
                    suggest_added_line,
                )
            },
            RunError::BothDatabaseAndFile(error_locator) => {
                let suggestion = string_of("Remove either the database or the file section");
                let suggest_added_line = false;
                located(
                    error_locator,
                    string_of("error: exchange contains both database and file links"),
                    string_of("every exchange must take its values from file or from a database, not both"),
                    string_of(""),
                    suggestion,
                    LineStyle::Plain,
                    suggest_added_line,
                )
            },
            RunError::MissingExchangeName(error_locator) => {
                let suggestion = string_of("name: \"your_exchange_name\"");
                let suggest_added_line = is_nonempty(suggestion.as_str());
                located(
                    error_locator,
                    string_of("error: missing exchange name"),
                    string_of("every exchange must have a unique identifier name"),
                    string_of("name"),
                    suggestion,
                    LineStyle::Plain,
                    suggest_added_line,
                )
            },
            RunError::WrongFieldFormat { error_locator, field_name } => {
                let suggestion = string_of("");
                let suggest_added_line = false;
                located(
                    error_locator,
                    string_of("error: wrong field format"),
                    string_of("this field should be a string"),
                    field_name.clone(),
                    suggestion,
                    LineStyle::SuggestionArrow,
                    suggest_added_line,
                )
            },
            RunError::MissingExchangeLink(error_locator) => {
                let suggestion = string_of("database:\n            name: \"your_database_name\"\n            version: \"0.0.0\"\n    OR:\n         file: \"path/to/file.yaml\"\n  ");
                let suggest_added_line = is_nonempty(suggestion.as_str());
                located(
                    error_locator,
                    string_of("error: missing exchange link"),
                    string_of("an exchange requires a data source definition, define either `file` OR `database`"),
                    string_of("database"),
                    suggestion,
                    LineStyle::Plain,
                    suggest_added_line,
                )
            },
            RunError::MissingDatabaseName(error_locator) => {
                let suggestion = string_of("name: \"your_database_name\"");
                let suggest_added_line = false;
                located(
                    error_locator,
                    string_of("error: missing database name"),
                    string_of("the `database` configuration block is incomplete, define a database name"),
                    string_of("name"),
                    suggestion,
                    LineStyle::AdditionSuggestion,
                    suggest_added_line,
                )
            },
            RunError::UnknownDatabase(error_locator) => {
                let suggestion = string_of("");
                let suggest_added_line = false;
                located(
                    error_locator,
                    string_of("error: unknown database"),
                    string_of("the `database` provided is not supported by Odyssey"),
                    string_of(""),
                    suggestion,
                    LineStyle::Plain,
                    suggest_added_line,
                )
            },
            RunError::MissingDatabaseVersion(error_locator) => {
                let suggestion = string_of("version: \"0.0.0\"");
                let suggest_added_line = false;
                located(
                    error_locator,
                    string_of("error: missing database version"),
                    string_of("the `database` configuration block is incomplete, define a database version"),
                    string_of("version"),
                    suggestion,
                    LineStyle::AdditionSuggestion,
                    suggest_added_line,
                )
            },
            RunError::MissingExchangeAmount(error_locator) => {
                let suggestion = string_of("amount: 0.0");
                let suggest_added_line = is_nonempty(suggestion.as_str());
                located(
                    error_locator,
                    string_of("error: missing exchange amount"),
                    string_of("the numerical quantity `amount` for the flow is missing"),
                    string_of("amount"),
                    suggestion,
                    LineStyle::Plain,
                    suggest_added_line,
                )
            },
            RunError::AmountError(error_locator) => {
                let suggestion = string_of("");
                let suggest_added_line = false;
                located(
                    error_locator,
                    string_of("error: invalid exchange amount format"),
                    string_of("the amount could not be parsed into a 64-bit float (f64)"),
                    string_of("amount"),
                    suggestion,
                    LineStyle::SuggestionArrow,
                    suggest_added_line,
                )
            },
            RunError::FileError(error_locator) => {
                let suggestion = string_of("");
                let suggest_added_line = false;
                located(
                    error_locator,
                    string_of("error: invalid exchange file"),
                    string_of("Failed to open or read the exchange file. Verify that the file path exists and is accessible."),
                    string_of("file"),
                    suggestion,
                    LineStyle::SuggestionArrow,
                    suggest_added_line,
                )
            },
            RunError::UnitMismatch { error_locator, activity_unit } => {
                let suggestion = activity_unit.clone();
                let suggest_added_line = false;
                located(
                    error_locator,
                    string_of("error: unit mismatch between exchange and its defining activity and no conversion is possible"),
                    string_of("consider changing the unit of that exchange to match that of the linked activity"),
                    string_of("unit"),
                    suggestion,
                    LineStyle::ChangeSuggestion,
                    suggest_added_line,
                )
            },
            RunError::LocationMismatch { error_locator, activity_location } => {
                let suggestion = activity_location.clone();
                let suggest_added_line = false;
                located(
                    error_locator,
                    string_of("error: location mismatch between exchange and its defining activity and no conversion is possible"),
                    string_of("consider changing the location of that exchange to match that of the linked activity"),
                    string_of("location"),
                    suggestion,
                    LineStyle::ChangeSuggestion,
                    suggest_added_line,
                )
            },
            RunError::NameMismatch { error_locator, activity_name } => {
                let suggestion = activity_name.clone();
                let suggest_added_line = false;
                located(
                    error_locator,
                    string_of("error: name mismatch between exchange and its defining activity and no conversion is possible"),
                    string_of("consider changing the name of that exchange to match that of the linked activity"),
                    string_of("name"),
                    suggestion,
                    LineStyle::ChangeSuggestion,
                    suggest_added_line,
                )
            },
        }
    }
}

/// The lines of the file that a report shows: it skips `skip` lines and
/// shows the next `take` ones (at least one).
pub open spec fn line_window(locator: FileLocator) -> (nat, nat) {
    let (start, end) = locator.lines;
    let skip: nat = if start >= 1 { (start - 1) as nat } else { 0 };
    let span: nat = if end >= start { (end - start) as nat } else { 0 };
    (skip, if span >= 1 { span } else { 1 })
}

/// How many lines to skip and to show for a report located at `locator`.
pub fn line_window_of(locator: &FileLocator) -> (r: (usize, usize))
    ensures
        r.0 == line_window(*locator).0,
        r.1 == line_window(*locator).1,
{
    let (start, end) = locator.lines;
    let skip = if start >= 1 { start - 1 } else { 0 };
    let span = if end >= start { end - start } else { 0 };
    (skip, if span >= 1 { span } else { 1 })
}

/// Number of decimal digits of `n`.
pub open spec fn decimal_digits(n: nat) -> nat
    decreases n,
{
    if n < 10 {
        1
    } else {
        1 + decimal_digits(n / 10)
    }
}

/// The margin printed before suggestions: one space per digit of the last
/// line number.
pub open spec fn margin_of(end_line: nat) -> Seq<char> {
    Seq::new(decimal_digits(end_line), |i: int| ' ')
}

/// The margin that aligns suggestions with the line numbers of a report
/// ending at line `end_line`.
pub fn margin(end_line: usize) -> (r: String)
    ensures
        r@ == margin_of(end_line as nat),
{
    proof {
        reveal_strlit(" ");
    }
    let mut r = string_of(" ");
    let mut n = end_line;
    while n >= 10
        invariant
            r@.len() >= 1,
            forall|i: int| 0 <= i < r@.len() ==> r@[i] == ' ',
            decimal_digits(end_line as nat) == r@.len() - 1 + decimal_digits(n as nat),
        decreases n,
    {
        proof {
            reveal_strlit(" ");
        }
        n = n / 10;
        r.append(" ");
    }
    assert(r@ =~= margin_of(end_line as nat));
    r
}

/// Whether `c` is white space in the sense of `char::is_whitespace`.
pub open spec fn is_white_space(c: char) -> bool {
    ||| ('\u{9}' <= c && c <= '\u{d}')
    ||| c == ' '
    ||| c == '\u{85}'
    ||| c == '\u{a0}'
    ||| c == '\u{1680}'
    ||| ('\u{2000}' <= c && c <= '\u{200a}')
    ||| c == '\u{2028}'
    ||| c == '\u{2029}'
    ||| c == '\u{202f}'
    ||| c == '\u{205f}'
    ||| c == '\u{3000}'
}

/// Whether `c` is white space in the sense of `char::is_whitespace`.
pub fn white_space(c: char) -> (r: bool)
    ensures
        r == is_white_space(c),
{
    ('\u{9}' <= c && c <= '\u{d}') || c == ' ' || c == '\u{85}' || c == '\u{a0}' || c
        == '\u{1680}' || ('\u{2000}' <= c && c <= '\u{200a}') || c == '\u{2028}' || c
        == '\u{2029}' || c == '\u{202f}' || c == '\u{205f}' || c == '\u{3000}'
}

/// A line is shown unless it is blank or a comment: its first character
/// that is not white space exists and is not `#`.
pub open spec fn is_shown_line(line: Seq<char>) -> bool {
    exists|k: int|
        #![trigger line[k]]
        0 <= k < line.len() && (forall|j: int| 0 <= j < k ==> is_white_space(line[j]))
            && !is_white_space(line[k]) && line[k] != '#'
}

/// Whether a report shows the file line `content`: blank lines and
/// comments are left out.
pub fn shows_line(content: &str) -> (r: bool)
    ensures
        r == is_shown_line(content@),
{
    let n = content.unicode_len();
    let mut i: usize = 0;
    while i < n
        invariant
            n == content@.len(),
            i <= n,
            forall|j: int| 0 <= j < i ==> is_white_space(content@[j]),
        decreases n - i,
    {
        let c = content.get_char(i);
        if !white_space(c) {
            if c == '#' {
                assert forall|k: int|
                    0 <= k < content@.len() && (forall|j: int| 0 <= j < k ==> is_white_space(content@[j]))
                        && !is_white_space(content@[k]) implies content@[k] == '#' by {
                    if k > i {
                        assert(is_white_space(content@[i as int]));
                    }
                    if k < i {
                        assert(is_white_space(content@[k]));
                    }
                }
                return false;
            } else {
                assert(content@[i as int] == c);
                return true;
            }
        }
        i = i + 1;
    }
    false
}

/// `s` with every space character removed.
pub open spec fn without_spaces(s: Seq<char>) -> Seq<char>
    decreases s.len(),
{
    if s.len() == 0 {
        s
    } else if s.last() == ' ' {
        without_spaces(s.drop_last())
    } else {
        without_spaces(s.drop_last()).push(s.last())
    }
}

/// `needle` occurs in `hay`.
pub open spec fn has_infix(hay: Seq<char>, needle: Seq<char>) -> bool {
    exists|i: int|
        0 <= i && i + needle.len() <= hay.len() && #[trigger] hay.subrange(i, i + needle.len())
            == needle
}

/// `line`, once its spaces are removed, contains `field` followed by `:`.
pub open spec fn sets_field(line: Seq<char>, field: Seq<char>) -> bool {
    has_infix(without_spaces(line), field + ":"@)
}

/// The characters of `s` that are not spaces.
fn chars_without_spaces(s: &str) -> (r: Vec<char>)
    ensures
        r@ == without_spaces(s@),
{
    let n = s.unicode_len();
    let mut r: Vec<char> = Vec::new();
    let mut i: usize = 0;
    while i < n
        invariant
            n == s@.len(),
            i <= n,
            r@ == without_spaces(s@.take(i as int)),
        decreases n - i,
    {
        let c = s.get_char(i);
        if c != ' ' {
            r.push(c);
        }
        assert(s@.take(i + 1).drop_last() == s@.take(i as int));
        i = i + 1;
    }
    assert(s@.take(n as int) == s@);
    r
}

/// The characters of `s`.
fn chars_of(s: &str) -> (r: Vec<char>)
    ensures
        r@ == s@,
{
    let n = s.unicode_len();
    let mut r: Vec<char> = Vec::new();
    let mut i: usize = 0;
    while i < n
        invariant
            n == s@.len(),
            i <= n,
            r@ == s@.take(i as int),
        decreases n - i,
    {
        r.push(s.get_char(i));
        i = i + 1;
        assert(r@ =~= s@.take(i as int));
    }
    assert(s@.take(n as int) == s@);
    r
}

/// Whether `needle` occurs in `hay`.
fn contains_chars(hay: &Vec<char>, needle: &Vec<char>) -> (r: bool)
    ensures
        r == has_infix(hay@, needle@),
{
    let n = hay.len();
    let m = needle.len();
    if m > n {
        return false;
    }
    let mut i: usize = 0;
    while i <= n - m
        invariant
            n == hay@.len(),
            m == needle@.len(),
            m <= n,
            i <= n - m + 1,
            forall|k: int| 0 <= k < i ==> #[trigger] hay@.subrange(k, k + m) != needle@,
        decreases n - m + 1 - i,
    {
        let mut j: usize = 0;
        let mut same = true;
        while j < m
            invariant
                n == hay@.len(),
                m == needle@.len(),
                i + m <= n,
                j <= m,
                same == (forall|k: int| 0 <= k < j ==> hay@[i + k] == needle@[k]),
            decreases m - j,
        {
            if hay[i + j] != needle[j] {
                same = false;
            }
            j = j + 1;
        }
        if same {
            assert(hay@.subrange(i as int, i + m) =~= needle@);
            return true;
        }
        assert(hay@.subrange(i as int, i + m)[0] == hay@[i as int]);
        assert(hay@.subrange(i as int, i + m) != needle@) by {
            let k = choose|k: int| 0 <= k < m && hay@[i + k] != needle@[k];
            assert(hay@.subrange(i as int, i + m)[k] == hay@[i + k]);
        }
        i = i + 1;
    }
    false
}

/// Whether `line`, once its spaces are removed, contains `field:`, that
/// is whether the line sets `field`.
pub fn mentions_field(line: &str, field: &str) -> (r: bool)
    ensures
        r == sets_field(line@, field@),
{
    let hay = chars_without_spaces(line);
    let mut key = string_of(field);
    key.append(":");
    let needle = chars_of(key.as_str());
    contains_chars(&hay, &needle)
}

/// How a report shows one line of the file.
#[derive(PartialEq, Eq, Structural, Clone, Copy, Debug)]
pub enum LineAction {
    /// The line is blank or a comment and is not shown.
    Skip,
    /// The line is shown as it is.
    Plain,
    /// The line is shown with an arrow that points at the error.
    Marked,
    /// The line is struck out and the field set to the suggestion instead.
    Replaced,
    /// The line is shown and the suggestion proposed after it.
    PlainThenAddition,
}

/// How the report `d` shows the line `line`.
pub open spec fn action_for(d: Diagnostic, line: Seq<char>) -> LineAction {
    if !is_shown_line(line) {
        LineAction::Skip
    } else {
        match d.line_style {
            LineStyle::Plain => LineAction::Plain,
            LineStyle::SuggestionArrow => if sets_field(line, d.field@) {
                LineAction::Marked
            } else {
                LineAction::Plain
            },
            LineStyle::ChangeSuggestion => if sets_field(line, d.field@) {
                LineAction::Replaced
            } else {
                LineAction::Plain
            },
            LineStyle::AdditionSuggestion => if sets_field(line, "database"@) {
                LineAction::PlainThenAddition
            } else {
                LineAction::Plain
            },
        }
    }
}

impl Diagnostic {
    /// How this report shows the file line `content`.
    pub fn line_action(&self, content: &str) -> (r: LineAction)
        ensures
            r == action_for(*self, content@),
    {
        if !shows_line(content) {
            return LineAction::Skip;
        }
        match self.line_style {
            LineStyle::Plain => LineAction::Plain,
            LineStyle::SuggestionArrow => if mentions_field(content, self.field.as_str()) {
                LineAction::Marked
            } else {
                LineAction::Plain
            },
            LineStyle::ChangeSuggestion => if mentions_field(content, self.field.as_str()) {
                LineAction::Replaced
            } else {
                LineAction::Plain
            },
            LineStyle::AdditionSuggestion => if mentions_field(content, "database") {
                LineAction::PlainThenAddition
            } else {
                LineAction::Plain
            },
        }
    }
}

/// How a piece of a printed report is colored.
#[derive(PartialEq, Eq, Structural, Clone, Copy, Debug)]
pub enum Paint {
    Plain,
    /// Red and bold: the error message.
    RedBold,
    /// Blue and bold: the arrow before the place and the help label.
    BlueBold,
    /// Yellow: the arrow that points at the line of the error.
    Yellow,
    /// Red and struck out: a line to be replaced.
    RedStruck,
    /// Green: a line or a text to be written instead.
    Green,
}

/// A piece of a printed line: its text and how it is colored.
#[derive(Debug)]
pub struct Piece {
    pub paint: Paint,
    pub text: String,
}

/// A printed line as its pieces, each a paint and a text.
pub open spec fn line_view(line: Seq<Piece>) -> Seq<(Paint, Seq<char>)> {
    line.map_values(|p: Piece| (p.paint, p.text@))
}

/// Printed lines as their pieces.
pub open spec fn lines_view(lines: Seq<Vec<Piece>>) -> Seq<Seq<(Paint, Seq<char>)>> {
    lines.map_values(|l: Vec<Piece>| line_view(l@))
}

/// The file line `content` with its number `number` before it: `N |content`.
pub open spec fn numbered(number: nat, content: Seq<char>) -> Seq<char> {
    decimal_text(number) + " |"@ + content
}

/// The line that proposes `suggestion` as a new line: a green `+`, the
/// margin, a bar, and the suggestion in green.
pub open spec fn added_line_spec(suggestion: Seq<char>, margin: Seq<char>) -> Seq<(Paint, Seq<char>)> {
    seq![(Paint::Green, "+"@), (Paint::Plain, margin + "|       "@), (Paint::Green, suggestion)]
}

/// The lines the report `d` prints for the file line `content`, numbered
/// `number`, with `margin` before proposed lines.
pub open spec fn file_line_spec(d: Diagnostic, content: Seq<char>, number: nat, margin: Seq<char>) -> Seq<
    Seq<(Paint, Seq<char>)>,
> {
    match action_for(d, content) {
        LineAction::Skip => Seq::empty(),
        LineAction::Plain => seq![seq![(Paint::Plain, numbered(number, content))]],
        LineAction::Marked => seq![
            seq![
                (Paint::Plain, numbered(number, content) + "      "@),
                (Paint::Yellow, "<-- error occurred here"@),
            ],
        ],
        LineAction::Replaced => seq![
            seq![(Paint::RedStruck, numbered(number, content))],
            seq![
                (
                    Paint::Green,
                    decimal_text(number) + " |    "@ + d.field@ + ": \""@ + d.suggestion@ + "\""@,
                ),
            ],
        ],
        LineAction::PlainThenAddition => seq![
            seq![(Paint::Plain, numbered(number, content))],
            added_line_spec(d.suggestion@, margin),
        ],
    }
}

/// The lines the report `d` prints for the file lines `lines`, the first
/// numbered `first`.
pub open spec fn file_lines_spec(d: Diagnostic, lines: Seq<String>, first: nat, margin: Seq<char>) -> Seq<
    Seq<(Paint, Seq<char>)>,
>
    decreases lines.len(),
{
    if lines.len() == 0 {
        Seq::empty()
    } else {
        file_lines_spec(d, lines.drop_last(), first, margin) + file_line_spec(
            d,
            lines.last()@,
            (first + lines.len() - 1) as nat,
            margin,
        )
    }
}

/// What a located report prints before the lines of the file: the message
/// in red and bold, then ` --> path:line` and an empty line.
pub open spec fn header_spec(d: Diagnostic) -> Seq<Seq<(Paint, Seq<char>)>> {
    seq![
        seq![(Paint::RedBold, d.error_msg@)],
        seq![
            (Paint::Plain, " "@),
            (Paint::BlueBold, "-->"@),
            (Paint::Plain, " "@ + d.locator.path@ + ":"@ + decimal_text(d.locator.lines.0 as nat)),
        ],
        Seq::empty(),
    ]
}

/// What a located report prints from the lines of the file it shows: each
/// line as [`file_line_spec`] says, numbered from the first line of the
/// report; the proposed line when the report adds one; an empty line, and
/// the help.
pub open spec fn body_lines_spec(d: Diagnostic, lines: Seq<String>) -> Seq<Seq<(Paint, Seq<char>)>> {
    let margin = margin_of(d.locator.lines.1 as nat);
    let added = if d.suggest_added_line {
        seq![added_line_spec(d.suggestion@, margin)]
    } else {
        Seq::empty()
    };
    let help = seq![Seq::empty(), seq![(Paint::BlueBold, "= help:"@), (Paint::Plain, " "@ + d.help_msg@)]];
    file_lines_spec(d, lines, d.locator.lines.0 as nat, margin) + added + help
}

/// Everything a located report prints, given the lines of the file that it
/// shows: the header, then the body.
pub open spec fn report_lines_spec(d: Diagnostic, lines: Seq<String>) -> Seq<Seq<(Paint, Seq<char>)>> {
    header_spec(d) + body_lines_spec(d, lines)
}

fn painted_text(paint: Paint, text: String) -> (r: Piece)
    ensures
        r.paint == paint,
        r.text == text,
{
    Piece { paint, text }
}

/// The line that proposes `suggestion` as a new line.
fn added_line(suggestion: &String, margin: &String) -> (r: Vec<Piece>)
    ensures
        line_view(r@) == added_line_spec(suggestion@, margin@),
{
    let mut bar = margin.clone();
    bar.append("|       ");
    let mut r: Vec<Piece> = Vec::new();
    r.push(painted_text(Paint::Green, string_of("+")));
    r.push(painted_text(Paint::Plain, bar));
    r.push(painted_text(Paint::Green, suggestion.clone()));
    assert(line_view(r@) =~= added_line_spec(suggestion@, margin@));
    r
}

impl Diagnostic {
    /// The lines this report prints for the file line `content`, numbered
    /// `number`, with `margin` before proposed lines.
    pub fn file_line_output(&self, content: &str, number: usize, margin: &String) -> (r: Vec<Vec<Piece>>)
        ensures
            lines_view(r@) == file_line_spec(*self, content@, number as nat, margin@),
    {
        let mut r: Vec<Vec<Piece>> = Vec::new();
        let mut numbered_line = decimal(number);
        numbered_line.append(" |");
        numbered_line.append(content);
        match self.line_action(content) {
            LineAction::Skip => {},
            LineAction::Plain => {
                let mut line: Vec<Piece> = Vec::new();
                line.push(painted_text(Paint::Plain, numbered_line));
                r.push(line);
            },
            LineAction::Marked => {
                numbered_line.append("      ");
                let mut line: Vec<Piece> = Vec::new();
                line.push(painted_text(Paint::Plain, numbered_line));
                line.push(painted_text(Paint::Yellow, string_of("<-- error occurred here")));
                r.push(line);
            },
            LineAction::Replaced => {
                let mut struck: Vec<Piece> = Vec::new();
                struck.push(painted_text(Paint::RedStruck, numbered_line));
                r.push(struck);
                let mut replacement = decimal(number);
                replacement.append(" |    ");
                replacement.append(self.field.as_str());
                replacement.append(": \"");
                replacement.append(self.suggestion.as_str());
                replacement.append("\"");
                let mut line: Vec<Piece> = Vec::new();
                line.push(painted_text(Paint::Green, replacement));
                r.push(line);
            },
            LineAction::PlainThenAddition => {
                let mut line: Vec<Piece> = Vec::new();
                line.push(painted_text(Paint::Plain, numbered_line));
                r.push(line);
                r.push(added_line(&self.suggestion, margin));
            },
        }
        assert(lines_view(r@) =~~= file_line_spec(*self, content@, number as nat, margin@));
        r
    }

    /// What this report prints before the lines of the file.
    pub fn header_lines(&self) -> (r: Vec<Vec<Piece>>)
        ensures
            lines_view(r@) == header_spec(*self),
    {
        let mut r: Vec<Vec<Piece>> = Vec::new();
        let mut message: Vec<Piece> = Vec::new();
        message.push(painted_text(Paint::RedBold, self.error_msg.clone()));
        r.push(message);
        let mut place = string_of(" ");
        place.append(self.locator.path.as_str());
        place.append(":");
        let line_number = decimal(self.locator.lines.0);
        place.append(line_number.as_str());
        let mut arrow: Vec<Piece> = Vec::new();
        arrow.push(painted_text(Paint::Plain, string_of(" ")));
        arrow.push(painted_text(Paint::BlueBold, string_of("-->")));
        arrow.push(painted_text(Paint::Plain, place));
        r.push(arrow);
        r.push(Vec::new());
        assert(lines_view(r@) =~~= header_spec(*self));
        r
    }

    /// What this report prints from the lines of the file it shows (see
    /// [`line_window_of`]).
    pub fn body_lines(&self, lines: &Vec<String>) -> (r: Vec<Vec<Piece>>)
        requires
            self.locator.lines.0 + lines@.len() <= usize::MAX,
        ensures
            lines_view(r@) == body_lines_spec(*self, lines@),
    {
        let margin = margin(self.locator.lines.1);
        let mut r: Vec<Vec<Piece>> = Vec::new();
        let mut i: usize = 0;
        while i < lines.len()
            invariant
                i <= lines@.len(),
                self.locator.lines.0 + lines@.len() <= usize::MAX,
                margin@ == margin_of(self.locator.lines.1 as nat),
                lines_view(r@) == file_lines_spec(
                    *self,
                    lines@.take(i as int),
                    self.locator.lines.0 as nat,
                    margin@,
                ),
            decreases lines@.len() - i,
        {
            let mut shown = self.file_line_output(lines[i].as_str(), self.locator.lines.0 + i, &margin);
            let ghost before = r@;
            let ghost shown_lines = shown@;
            r.append(&mut shown);
            proof {
                assert(lines@.take(i + 1).drop_last() =~= lines@.take(i as int));
                assert(lines_view(r@) =~= lines_view(before) + lines_view(shown_lines));
            }
            i = i + 1;
        }
        assert(lines@.take(lines@.len() as int) =~= lines@);
        let ghost body = lines_view(r@);
        if self.suggest_added_line {
            r.push(added_line(&self.suggestion, &margin));
        }
        let ghost with_added = lines_view(r@);
        assert(with_added =~= body + (if self.suggest_added_line {
            seq![added_line_spec(self.suggestion@, margin@)]
        } else {
            Seq::empty()
        }));
        r.push(Vec::new());
        let mut help: Vec<Piece> = Vec::new();
        help.push(painted_text(Paint::BlueBold, string_of("= help:")));
        let mut help_text = string_of(" ");
        help_text.append(self.help_msg.as_str());
        help.push(painted_text(Paint::Plain, help_text));
        r.push(help);
        assert(lines_view(r@) =~~= with_added + seq![
            Seq::empty(),
            seq![(Paint::BlueBold, "= help:"@), (Paint::Plain, " "@ + self.help_msg@)],
        ]);
        r
    }

    /// Everything this report prints, given the lines of the file that it
    /// shows: the header, then the body.
    pub fn report_lines(&self, lines: &Vec<String>) -> (r: Vec<Vec<Piece>>)
        requires
            self.locator.lines.0 + lines@.len() <= usize::MAX,
        ensures
            lines_view(r@) == report_lines_spec(*self, lines@),
    {
        let mut r = self.header_lines();
        let mut body = self.body_lines(lines);
        let ghost head = r@;
        let ghost tail = body@;
        r.append(&mut body);
        assert(lines_view(r@) =~= lines_view(head) + lines_view(tail));
        r
    }
}

} // verus!
