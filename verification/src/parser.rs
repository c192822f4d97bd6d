//! Reading an activity out of its YAML document.
//!
//! An activity file is a YAML mapping with a `name` (and optional `location`
//! and `unit`) and a sequence of `exchanges`.  Each exchange names an amount
//! and links either to a database entry or to another activity file.  The
//! caller reads the files and converts amounts to numbers; the functions of
//! this module take every decision in between, in the order the exchanges
//! are written.
use vstd::prelude::*;
use core::ops::Mul;
use vstd::std_specs::ops::MulSpec;
use crate::impacts::{method_of_name, ImpactMethod};
use crate::lca::{Activity, ActivityInfos, ComputError, DatabaseInfos, ExchangeLink};
use crate::text::{lowercase, string_of, to_lowercase};
use crate::yaml::{
    contains_key, get, lookup, mapping_of, parse_yaml_text, scalar_of, sequence_of, yaml_document, YamlNode,
};

verus! {

/// A place in an activity file: its path and the lines of the item.
#[derive(Debug)]
pub struct FileLocator {
    pub path: String,
    pub lines: (usize, usize),
}

impl FileLocator {
    /// A locator equal to this one.
    pub fn duplicate(&self) -> (r: FileLocator)
        ensures
            r == *self,
    {
        FileLocator { path: self.path.clone(), lines: self.lines }
    }
}

/// Errors raised while reading an activity or running an assessment.
#[derive(Debug)]
pub enum RunError {
    /// An error of the engine, by its message.
    OdysseyError(String),
    /// An input or output error, by its message.
    IoError(String),
    /// An error of the search index, by its message.
    TantivyError(String),
    /// An error of the search, by its message.
    SearchError(String),
    ComputError(ComputError<FileLocator>),
    YamlLoadError { error_locator: FileLocator, details: String },
    InvalidYamlFormat { error_locator: FileLocator, details: String },
    MissingExchangeName(FileLocator),
    WrongFieldFormat { error_locator: FileLocator, field_name: String },
    BothDatabaseAndFile(FileLocator),
    MissingExchangeLink(FileLocator),
    MissingDatabaseName(FileLocator),
    MissingDatabaseVersion(FileLocator),
    UnknownDatabase(FileLocator),
    UnknownMethod(String),
    MissingExchangeAmount(FileLocator),
    AmountError(FileLocator),
    FileError(FileLocator),
    UnitMismatch { error_locator: FileLocator, activity_unit: String },
    LocationMismatch { error_locator: FileLocator, activity_location: String },
    NameMismatch { error_locator: FileLocator, activity_name: String },
}

/// `r` is the invalid-format error at `loc` with these details.
pub open spec fn is_invalid_format<T>(r: Result<T, RunError>, loc: FileLocator, details: Seq<char>) -> bool {
    r matches Err(RunError::InvalidYamlFormat { error_locator, details: d }) && error_locator == loc
        && d@ == details
}

/// `r` is the wrong-format error of `field` at `loc`.
pub open spec fn is_wrong_field<T>(r: Result<T, RunError>, loc: FileLocator, field: Seq<char>) -> bool {
    r matches Err(RunError::WrongFieldFormat { error_locator, field_name }) && error_locator == loc
        && field_name@ == field
}

/// An optional text field: `Some(None)` when absent, `Some(Some(text))` when
/// a scalar, `None` when present but not a scalar.
pub open spec fn optional_scalar(entries: Seq<(String, YamlNode)>, key: Seq<char>) -> Option<
    Option<String>,
> {
    match lookup(entries, key) {
        None => Some(None),
        Some(n) => match scalar_of(n) {
            Some(s) => Some(Some(s)),
            None => None,
        },
    }
}

/// `r` is what reading the name, location and unit of `entries` gives.
pub open spec fn parsed_infos<A>(
    r: Result<ActivityInfos<FileLocator, A>, RunError>,
    entries: Seq<(String, YamlNode)>,
    locator: FileLocator,
    amount: A,
) -> bool {
    match lookup(entries, "name"@) {
        None => r == Err::<ActivityInfos<FileLocator, A>, RunError>(
            RunError::MissingExchangeName(locator),
        ),
        Some(n) => match scalar_of(n) {
            None => is_wrong_field(r, locator, "name"@),
            Some(name) => match optional_scalar(entries, "location"@) {
                None => is_wrong_field(r, locator, "location"@),
                Some(location) => match optional_scalar(entries, "unit"@) {
                    None => is_wrong_field(r, locator, "unit"@),
                    Some(unit) => r == Ok::<ActivityInfos<FileLocator, A>, RunError>(
                        ActivityInfos { name, location, unit, amount, locator },
                    ),
                },
            },
        },
    }
}

/// The infos read from the entries of an activity or an exchange hold what
/// the entries say: the name is the scalar under `name`; the location and
/// the unit are the scalars under `location` and `unit`, and none when the
/// key is absent; the amount and the locator are those it was read with.
pub proof fn law_infos_fields<A>(
    entries: Seq<(String, YamlNode)>,
    locator: FileLocator,
    amount: A,
    infos: ActivityInfos<FileLocator, A>,
)
    requires
        parsed_infos(Ok::<ActivityInfos<FileLocator, A>, RunError>(infos), entries, locator, amount),
    ensures
        lookup(entries, "name"@) matches Some(n) && scalar_of(n) == Some(infos.name),
        match lookup(entries, "location"@) {
            None => infos.location is None,
            Some(n) => scalar_of(n) is Some && infos.location == scalar_of(n),
        },
        match lookup(entries, "unit"@) {
            None => infos.unit is None,
            Some(n) => scalar_of(n) is Some && infos.unit == scalar_of(n),
        },
        infos.amount == amount,
        infos.locator == locator,
{
}

/// The infos of entries whose name is a scalar, and whose location and
/// unit are scalars where given, are read without error.
pub proof fn law_infos_read<A>(
    entries: Seq<(String, YamlNode)>,
    locator: FileLocator,
    amount: A,
    r: Result<ActivityInfos<FileLocator, A>, RunError>,
)
    requires
        parsed_infos(r, entries, locator, amount),
        lookup(entries, "name"@) matches Some(n) && scalar_of(n) is Some,
        lookup(entries, "location"@) matches Some(n) ==> scalar_of(n) is Some,
        lookup(entries, "unit"@) matches Some(n) ==> scalar_of(n) is Some,
    ensures
        r is Ok,
{
}

/// Reads an optional text field.
fn optional_field(entries: &Vec<(String, YamlNode)>, key: &str, locator: &FileLocator) -> (r:
    Result<Option<String>, RunError>)
    ensures
        match optional_scalar(entries@, key@) {
            None => is_wrong_field(r, *locator, key@),
            Some(v) => r == Ok::<Option<String>, RunError>(v),
        },
{
    match get(entries, key) {
        None => Ok(None),
        Some(node) => match node.as_scalar() {
            Some(s) => Ok(Some(s.clone())),
            None => Err(
                RunError::WrongFieldFormat {
                    error_locator: locator.duplicate(),
                    field_name: string_of(key),
                },
            ),
        },
    }
}

/// Reads the `name`, `location` and `unit` of an activity or exchange.
fn parse_activity_infos<A>(
    entries: &Vec<(String, YamlNode)>,
    locator: &FileLocator,
    amount: A,
) -> (r: Result<ActivityInfos<FileLocator, A>, RunError>)
    ensures
        parsed_infos(r, entries@, *locator, amount),
{
    let name = match get(entries, "name") {
        None => {
            return Err(RunError::MissingExchangeName(locator.duplicate()));
        },
        Some(node) => match node.as_scalar() {
            Some(s) => s.clone(),
            None => {
                return Err(
                    RunError::WrongFieldFormat {
                        error_locator: locator.duplicate(),
                        field_name: string_of("name"),
                    },
                );
            },
        },
    };
    let location = optional_field(entries, "location", locator)?;
    let unit = optional_field(entries, "unit", locator)?;
    Ok(ActivityInfos { name, location, unit, amount, locator: locator.duplicate() })
}

/// `r` is what reading the text field `key` gives, with `missing` when the
/// field is absent and `malformed` when it is not a scalar.
pub open spec fn read_string(
    r: Result<String, RunError>,
    entries: Seq<(String, YamlNode)>,
    key: Seq<char>,
    missing: RunError,
    malformed: RunError,
) -> bool {
    match lookup(entries, key) {
        None => r == Err::<String, RunError>(missing),
        Some(n) => match scalar_of(n) {
            None => r == Err::<String, RunError>(malformed),
            Some(s) => r == Ok::<String, RunError>(s),
        },
    }
}

/// Reads the text field `field`; fails with `missing_error` when it is absent
/// and with `parse_error` when it is not a scalar.
fn get_string(
    map: &Vec<(String, YamlNode)>,
    field: &str,
    missing_error: RunError,
    parse_error: RunError,
) -> (r: Result<String, RunError>)
    ensures
        read_string(r, map@, field@, missing_error, parse_error),
{
    match get(map, field) {
        None => Err(missing_error),
        Some(node) => match node.as_scalar() {
            Some(s) => Ok(s.clone()),
            None => Err(parse_error),
        },
    }
}

/// The name of a supported database, spelled as its loader expects it.
pub open spec fn corrected_database_name(r: Result<String, RunError>, name: Seq<char>, locator: FileLocator) -> bool {
    if lowercase(name) == "ecoinvent"@ {
        r matches Ok(n) && n@ == "Ecoinvent"@
    } else {
        r == Err::<String, RunError>(RunError::UnknownDatabase(locator))
    }
}

/// Spells the name of a supported database as its loader expects it;
/// any other name is an unknown database.
pub fn correct_database_name(name: String, locator: &FileLocator) -> (r: Result<String, RunError>)
    ensures
        corrected_database_name(r, name@, *locator),
{
    let lower = to_lowercase(name.as_str());
    if lower == string_of("ecoinvent") {
        Ok(string_of("Ecoinvent"))
    } else {
        Err(RunError::UnknownDatabase(locator.duplicate()))
    }
}

/// A line the loader may not know, as a locator holds it: 0 when unknown.
pub open spec fn known_line(line: Option<usize>) -> usize {
    match line {
        Some(l) => l,
        None => 0,
    }
}

/// A line the loader may not know, as a locator holds it: 0 when unknown.
pub fn line_or_zero(line: Option<usize>) -> (r: usize)
    ensures
        r == known_line(line),
{
    match line {
        Some(l) => l,
        None => 0,
    }
}

/// Loads the YAML text of the file `path`: the document, or the load error
/// located at the line of the loader's marker (line 0 for an error without
/// marker, a duplicate key), with the loader's message.
pub fn load_yaml(text: &str, path: &String) -> (r: Result<YamlNode, RunError>)
    ensures
        match yaml_document(text@) {
            Ok(n) => r == Ok::<YamlNode, RunError>(n),
            Err((line, details)) => r matches Err(RunError::YamlLoadError { error_locator, details: d })
                && error_locator == (FileLocator {
                    path: *path,
                    lines: (known_line(line), known_line(line)),
                })
                && d@ == details,
        },
{
    match parse_yaml_text(text) {
        Ok(n) => Ok(n),
        Err((line, details)) => {
            let l = line_or_zero(line);
            Err(
                RunError::YamlLoadError {
                    error_locator: FileLocator { path: path.clone(), lines: (l, l) },
                    details,
                },
            )
        },
    }
}

/// The impact method named `name`, whatever its case.
pub fn parse_method(name: String) -> (r: Result<ImpactMethod, RunError>)
    ensures
        match method_of_name(lowercase(name@)) {
            Some(m) => r == Ok::<ImpactMethod, RunError>(m),
            None => r == Err::<ImpactMethod, RunError>(RunError::UnknownMethod(name)),
        },
{
    let lower = to_lowercase(name.as_str());
    match ImpactMethod::from_name(lower.as_str()) {
        Some(m) => Ok(m),
        None => Err(RunError::UnknownMethod(name)),
    }
}

/// The parts of an activity file read before its exchanges: the activity's
/// own infos and the exchange nodes.
pub struct ActivityHead<'a, A> {
    pub activity_infos: ActivityInfos<FileLocator, A>,
    pub exchanges: &'a Vec<YamlNode>,
}

/// The locator of a whole file.
pub open spec fn file_locator(path: String) -> FileLocator {
    FileLocator { path, lines: (0, 0) }
}

/// `r` is what reading the head of the document `doc` of file `path` gives,
/// with `amount` as the activity's own amount.
pub open spec fn parsed_head<A>(
    r: Result<ActivityInfos<FileLocator, A>, RunError>,
    doc: YamlNode,
    path: String,
    amount: A,
) -> bool {
    let loc = file_locator(path);
    match mapping_of(doc) {
        None => is_invalid_format(r, loc, "error: the root of the document must be a YAML mapping"@),
        Some(top) => match lookup(top, "exchanges"@) {
            None => is_invalid_format(r, loc, "error: missing root key 'exchanges'"@),
            Some(ex) => match sequence_of(ex) {
                None => is_invalid_format(
                    r,
                    loc,
                    "The 'exchanges' key must contain a sequence (list) of items"@,
                ),
                Some(_) => parsed_infos(r, top, loc, amount),
            },
        },
    }
}

/// The exchange items of a document whose head reads without error.
pub open spec fn exchange_items(doc: YamlNode) -> Seq<YamlNode> {
    sequence_of(lookup(mapping_of(doc).unwrap(), "exchanges"@).unwrap()).unwrap()
}

/// Reads the head of the activity document `doc` of file `path`: the root
/// must be a mapping whose `exchanges` key holds a sequence, and the root
/// names the activity.  `amount` becomes the activity's own amount.
pub fn parse_activity_head<'a, A>(doc: &'a YamlNode, path: &String, amount: A) -> (r: Result<
    ActivityHead<'a, A>,
    RunError,
>)
    ensures
        match r {
            Ok(h) => parsed_head(Ok::<ActivityInfos<FileLocator, A>, RunError>(h.activity_infos), *doc, *path, amount)
                && h.exchanges@ == exchange_items(*doc),
            Err(e) => parsed_head(Err::<ActivityInfos<FileLocator, A>, RunError>(e), *doc, *path, amount),
        },
{
    let error_locator = FileLocator { lines: (0, 0), path: path.clone() };
    let top_mapping = match doc.as_mapping() {
        Some(m) => m,
        None => {
            return Err(
                RunError::InvalidYamlFormat {
                    error_locator,
                    details: string_of("error: the root of the document must be a YAML mapping"),
                },
            );
        },
    };
    let exchanges_node = match get(top_mapping, "exchanges") {
        Some(n) => n,
        None => {
            return Err(
                RunError::InvalidYamlFormat {
                    error_locator,
                    details: string_of("error: missing root key 'exchanges'"),
                },
            );
        },
    };
    let exchanges = match exchanges_node.as_sequence() {
        Some(s) => s,
        None => {
            return Err(
                RunError::InvalidYamlFormat {
                    error_locator,
                    details: string_of(
                        "The 'exchanges' key must contain a sequence (list) of items",
                    ),
                },
            );
        },
    };
    let activity_infos = parse_activity_infos(top_mapping, &error_locator, amount)?;
    Ok(ActivityHead { activity_infos, exchanges })
}

/// An exchange item as read before its amount is converted to a number.
pub struct ExchangeStart<'a> {
    pub locator: FileLocator,
    pub entries: &'a Vec<(String, YamlNode)>,
    pub amount: String,
}

/// The locator of an exchange item of file `path`: the lines of its span,
/// 0 for a line the loader does not know.
pub open spec fn item_locator(node: YamlNode, path: String) -> FileLocator {
    FileLocator { path, lines: (known_line(node.start_line), known_line(node.end_line)) }
}

/// `r` is what reading the amount text of exchange item `node` gives.
pub open spec fn started_exchange(r: Result<String, RunError>, node: YamlNode, path: String) -> bool {
    let loc = item_locator(node, path);
    match mapping_of(node) {
        None => is_invalid_format(r, loc, "Each exchange item must be a mapping block"@),
        Some(m) => read_string(
            r,
            m,
            "amount"@,
            RunError::MissingExchangeAmount(loc),
            RunError::AmountError(loc),
        ),
    }
}

/// Reads an exchange item of file `path` up to its amount: the item must be
/// a mapping with a scalar `amount`.  The caller converts the amount text
/// to a number, and reports [`RunError::AmountError`] at the returned
/// locator when it cannot.
pub fn start_exchange<'a>(node: &'a YamlNode, path: &String) -> (r: Result<ExchangeStart<'a>, RunError>)
    ensures
        match r {
            Ok(st) => {
                &&& started_exchange(Ok::<String, RunError>(st.amount), *node, *path)
                &&& st.locator == item_locator(*node, *path)
                &&& mapping_of(*node) == Some(st.entries@)
            },
            Err(e) => started_exchange(Err::<String, RunError>(e), *node, *path),
        },
{
    let locator = FileLocator {
        lines: (line_or_zero(node.start_line), line_or_zero(node.end_line)),
        path: path.clone(),
    };
    let entries = match node.as_mapping() {
        Some(m) => m,
        None => {
            return Err(
                RunError::InvalidYamlFormat {
                    error_locator: locator,
                    details: string_of("Each exchange item must be a mapping block"),
                },
            );
        },
    };
    let amount = get_string(
        entries,
        "amount",
        RunError::MissingExchangeAmount(locator.duplicate()),
        RunError::AmountError(locator.duplicate()),
    )?;
    Ok(ExchangeStart { locator, entries, amount })
}

/// An activity being assembled from its document: the head read so far and
/// the links of the first exchange items, in the order of the items.
pub struct ActivityAssembly<'a, A> {
    pub head: ActivityHead<'a, A>,
    pub links: Vec<ExchangeLink<FileLocator, A>>,
}

impl<'a, A> ActivityAssembly<'a, A> {
    /// No more links than exchange items.
    pub open spec fn well_formed(&self) -> bool {
        self.links@.len() <= self.head.exchanges@.len()
    }

    /// Every exchange item has its link.
    pub open spec fn is_complete(&self) -> bool {
        self.links@.len() == self.head.exchanges@.len()
    }

    /// Starts assembling the activity whose head was read: no item has a
    /// link yet.
    pub fn new(head: ActivityHead<'a, A>) -> (r: Self)
        ensures
            r.head == head,
            r.links@ == Seq::<ExchangeLink<FileLocator, A>>::empty(),
            r.well_formed(),
    {
        ActivityAssembly { head, links: Vec::new() }
    }

    /// Reads the exchange item whose link comes next up to its amount, as
    /// [`start_exchange`] does; `None` once every item has its link.
    pub fn start_next(&self, path: &String) -> (r: Option<Result<ExchangeStart<'a>, RunError>>)
        requires
            self.well_formed(),
        ensures
            self.is_complete() <==> r is None,
            r matches Some(res) ==> {
                let node = self.head.exchanges@[self.links@.len() as int];
                match res {
                    Ok(st) => {
                        &&& started_exchange(Ok::<String, RunError>(st.amount), node, *path)
                        &&& st.locator == item_locator(node, *path)
                        &&& mapping_of(node) == Some(st.entries@)
                    },
                    Err(e) => started_exchange(Err::<String, RunError>(e), node, *path),
                }
            },
    {
        let items: &'a Vec<YamlNode> = self.head.exchanges;
        if self.links.len() < items.len() {
            Some(start_exchange(&items[self.links.len()], path))
        } else {
            None
        }
    }

    /// Records the link of the exchange item that comes next.
    pub fn push_link(&mut self, link: ExchangeLink<FileLocator, A>)
        requires
            old(self).well_formed(),
            !old(self).is_complete(),
        ensures
            final(self).head == old(self).head,
            final(self).links@ == old(self).links@.push(link),
            final(self).well_formed(),
    {
        self.links.push(link);
    }

    /// The assembled activity: the head's infos, and one exchange per item,
    /// the link of item `i` at position `i`.
    pub fn finish(self) -> (r: Activity<FileLocator, A>)
        requires
            self.is_complete(),
        ensures
            r.activity_infos == self.head.activity_infos,
            r.exchanges@ == self.links@,
            r.exchanges@.len() == self.head.exchanges@.len(),
    {
        Activity { activity_infos: self.head.activity_infos, exchanges: self.links }
    }
}

/// The activity assembled from a document whose head reads without error
/// is named by the root's `name`, is located at the whole file, carries the
/// amount its head was read with, and has exactly one exchange per exchange
/// item, in the items' order.
pub proof fn law_assembled_activity<A>(
    doc: YamlNode,
    path: String,
    amount: A,
    infos: ActivityInfos<FileLocator, A>,
    links: Seq<ExchangeLink<FileLocator, A>>,
    act: Activity<FileLocator, A>,
)
    requires
        parsed_head(Ok::<ActivityInfos<FileLocator, A>, RunError>(infos), doc, path, amount),
        links.len() == exchange_items(doc).len(),
        act.activity_infos == infos,
        act.exchanges@ == links,
    ensures
        act.activity_infos.amount == amount,
        act.activity_infos.locator == file_locator(path),
        scalar_of(lookup(mapping_of(doc).unwrap(), "name"@).unwrap()) == Some(act.activity_infos.name),
        act.exchanges@.len() == exchange_items(doc).len(),
        forall|i: int| 0 <= i < links.len() ==> act.exchanges@[i] == links[i],
{
}

/// What reading an exchange leads to: a finished link, or another activity
/// file that the caller loads and hands to [`link_file_activity`].
#[derive(Debug)]
pub enum ExchangeStep<A> {
    Linked(ExchangeLink<FileLocator, A>),
    File { file: String, exchange_infos: ActivityInfos<FileLocator, A> },
}

/// `r` is what reading the `database` block of an exchange gives.
pub open spec fn parsed_database_exchange<A>(
    r: Result<ExchangeLink<FileLocator, A>, RunError>,
    entries: Seq<(String, YamlNode)>,
    infos: ActivityInfos<FileLocator, A>,
) -> bool {
    let loc = infos.locator;
    match mapping_of(lookup(entries, "database"@).unwrap()) {
        None => is_invalid_format(r, loc, "'database' must be a mapping block"@),
        Some(db) => match lookup(db, "name"@) {
            None => r == Err::<ExchangeLink<FileLocator, A>, RunError>(
                RunError::MissingDatabaseName(loc),
            ),
            Some(n) => match scalar_of(n) {
                None => r == Err::<ExchangeLink<FileLocator, A>, RunError>(
                    RunError::MissingDatabaseName(loc),
                ),
                Some(name) => if lowercase(name@) != "ecoinvent"@ {
                    r == Err::<ExchangeLink<FileLocator, A>, RunError>(
                        RunError::UnknownDatabase(loc),
                    )
                } else {
                    match lookup(db, "version"@) {
                        None => r == Err::<ExchangeLink<FileLocator, A>, RunError>(
                            RunError::MissingDatabaseVersion(loc),
                        ),
                        Some(v) => match scalar_of(v) {
                            None => r == Err::<ExchangeLink<FileLocator, A>, RunError>(
                                RunError::MissingDatabaseVersion(loc),
                            ),
                            Some(version) => r matches Ok(
                                ExchangeLink::Database { database_infos, activity_infos },
                            ) && database_infos.name@ == "Ecoinvent"@ && database_infos.version
                                == version && activity_infos == infos,
                        },
                    }
                },
            },
        },
    }
}

/// Reads the `database` block of an exchange into a database link.
fn parse_database_exchange<A>(
    map: &Vec<(String, YamlNode)>,
    activity_infos: ActivityInfos<FileLocator, A>,
) -> (r: Result<ExchangeLink<FileLocator, A>, RunError>)
    requires
        lookup(map@, "database"@) is Some,
    ensures
        parsed_database_exchange(r, map@, activity_infos),
{
    let db_node = match get(map, "database") {
        Some(n) => n,
        None => {
            return Err(RunError::MissingExchangeLink(activity_infos.locator));
        },
    };
    let db_map = match db_node.as_mapping() {
        Some(m) => m,
        None => {
            return Err(
                RunError::InvalidYamlFormat {
                    error_locator: activity_infos.locator.duplicate(),
                    details: string_of("'database' must be a mapping block"),
                },
            );
        },
    };
    let db_name = get_string(
        db_map,
        "name",
        RunError::MissingDatabaseName(activity_infos.locator.duplicate()),
        RunError::MissingDatabaseName(activity_infos.locator.duplicate()),
    )?;
    let db_name = correct_database_name(db_name, &activity_infos.locator)?;
    let db_version = get_string(
        db_map,
        "version",
        RunError::MissingDatabaseVersion(activity_infos.locator.duplicate()),
        RunError::MissingDatabaseVersion(activity_infos.locator.duplicate()),
    )?;
    Ok(
        ExchangeLink::Database {
            database_infos: DatabaseInfos { name: db_name, version: db_version },
            activity_infos,
        },
    )
}

/// An exchange names a file to link to (checked only when it names no
/// database).
pub open spec fn file_is_scalar(entries: Seq<(String, YamlNode)>) -> bool {
    lookup(entries, "file"@) is Some && lookup(entries, "database"@) is None ==> scalar_of(
        lookup(entries, "file"@).unwrap(),
    ) is Some
}

/// `r` is what reading the exchange `entries` located at `locator` with
/// amount `amount` gives.
pub open spec fn parsed_exchange<A>(
    r: Result<ExchangeStep<A>, RunError>,
    entries: Seq<(String, YamlNode)>,
    locator: FileLocator,
    amount: A,
) -> bool {
    let has_file = lookup(entries, "file"@) is Some;
    let has_db = lookup(entries, "database"@) is Some;
    match r {
        Err(e) => {
            ||| parsed_infos(Err::<ActivityInfos<FileLocator, A>, RunError>(e), entries, locator, amount)
            ||| exists|infos: ActivityInfos<FileLocator, A>|
                #![trigger parsed_infos(Ok::<ActivityInfos<FileLocator, A>, RunError>(infos), entries, locator, amount)]
                {
                    &&& parsed_infos(Ok::<ActivityInfos<FileLocator, A>, RunError>(infos), entries, locator, amount)
                    &&& if has_file && has_db {
                        e == RunError::BothDatabaseAndFile(locator)
                    } else if has_file {
                        false
                    } else if has_db {
                        parsed_database_exchange(Err::<ExchangeLink<FileLocator, A>, RunError>(e), entries, infos)
                    } else {
                        e == RunError::MissingExchangeLink(locator)
                    }
                }
        },
        Ok(step) => exists|infos: ActivityInfos<FileLocator, A>|
            #![trigger parsed_infos(Ok::<ActivityInfos<FileLocator, A>, RunError>(infos), entries, locator, amount)]
            {
                &&& parsed_infos(Ok::<ActivityInfos<FileLocator, A>, RunError>(infos), entries, locator, amount)
                &&& !(has_file && has_db)
                &&& if has_file {
                    step == ExchangeStep::File {
                        file: scalar_of(lookup(entries, "file"@).unwrap()).unwrap(),
                        exchange_infos: infos,
                    }
                } else {
                    &&& has_db
                    &&& step matches ExchangeStep::Linked(link)
                    &&& parsed_database_exchange(
                        Ok::<ExchangeLink<FileLocator, A>, RunError>(link),
                        entries,
                        infos,
                    )
                }
            },
    }
}

/// Reads an exchange whose amount is `amount`: its name, location and unit,
/// then its link, which is either a `database` block or a `file`, never
/// both.
pub fn parse_exchange<A>(entries: &Vec<(String, YamlNode)>, locator: &FileLocator, amount: A) -> (r:
    Result<ExchangeStep<A>, RunError>)
    requires
        file_is_scalar(entries@),
    ensures
        parsed_exchange(r, entries@, *locator, amount),
{
    let activity_infos = parse_activity_infos(entries, locator, amount)?;
    let ghost infos = activity_infos;
    assert(parsed_infos(Ok::<ActivityInfos<FileLocator, A>, RunError>(infos), entries@, *locator, amount));
    let has_file = contains_key(entries, "file");
    let has_db = contains_key(entries, "database");
    if has_file && has_db {
        Err(RunError::BothDatabaseAndFile(locator.duplicate()))
    } else if has_file {
        let file = match get(entries, "file") {
            Some(node) => match node.as_scalar() {
                Some(s) => s.clone(),
                None => {
                    return Err(RunError::MissingExchangeLink(locator.duplicate()));
                },
            },
            None => {
                return Err(RunError::MissingExchangeLink(locator.duplicate()));
            },
        };
        Ok(ExchangeStep::File { file, exchange_infos: activity_infos })
    } else if has_db {
        let link = parse_database_exchange(entries, activity_infos);
        match link {
            Ok(link) => Ok(ExchangeStep::Linked(link)),
            Err(e) => Err(e),
        }
    } else {
        Err(RunError::MissingExchangeLink(locator.duplicate()))
    }
}

/// Two optional texts agree unless both are given and differ.
pub open spec fn agree(lhs: Option<String>, rhs: Option<String>) -> bool {
    match (lhs, rhs) {
        (Some(l), Some(r)) => l@ == r@,
        _ => true,
    }
}

/// Whether two optional texts agree: they do unless both are given and
/// differ.
fn check_equality(lhs: &Option<String>, rhs: &Option<String>) -> (r: bool)
    ensures
        r == agree(*lhs, *rhs),
{
    match (lhs, rhs) {
        (Some(l), Some(r)) => *l == *r,
        _ => true,
    }
}

/// The first of two options that is given.
pub open spec fn or_else<T>(first: Option<T>, second: Option<T>) -> Option<T> {
    if first is Some {
        first
    } else {
        second
    }
}

/// The infos of an activity file once linked from an exchange: the name,
/// amount and locator of the exchange, and the location and unit of the
/// activity, or of the exchange where the activity gives none.
pub open spec fn merged_infos<A>(
    activity: ActivityInfos<FileLocator, A>,
    exchange: ActivityInfos<FileLocator, A>,
) -> ActivityInfos<FileLocator, A> {
    ActivityInfos {
        name: exchange.name,
        location: or_else(activity.location, exchange.location),
        unit: or_else(activity.unit, exchange.unit),
        amount: exchange.amount,
        locator: exchange.locator,
    }
}

/// Merges the infos of an activity with those of the exchange that links
/// to it.
fn merge_activiy_infos<A>(
    activity_infos: ActivityInfos<FileLocator, A>,
    exchange_infos: ActivityInfos<FileLocator, A>,
) -> (r: ActivityInfos<FileLocator, A>)
    ensures
        r == merged_infos(activity_infos, exchange_infos),
{
    let location = match activity_infos.location {
        Some(l) => Some(l),
        None => exchange_infos.location,
    };
    let unit = match activity_infos.unit {
        Some(u) => Some(u),
        None => exchange_infos.unit,
    };
    ActivityInfos {
        name: exchange_infos.name,
        location,
        unit,
        amount: exchange_infos.amount,
        locator: exchange_infos.locator,
    }
}

/// What linking an exchange to the activity of its file leads to: a link,
/// or a unit conversion that the caller computes and hands to
/// [`apply_unit_conversion`].
#[derive(Debug)]
pub enum FileLink<A> {
    Linked(ExchangeLink<FileLocator, A>),
    UnitConversion { activity_unit: String, exchange_unit: String, activity: Activity<FileLocator, A> },
}

/// `r` is what linking the exchange `exchange` to `activity` gives.
pub open spec fn linked_file<A>(
    r: Result<FileLink<A>, RunError>,
    exchange: ActivityInfos<FileLocator, A>,
    activity: Activity<FileLocator, A>,
) -> bool {
    let merged = merged_infos(activity.activity_infos, exchange);
    if exchange.name@ != activity.activity_infos.name@ {
        r matches Err(RunError::NameMismatch { error_locator, activity_name }) && error_locator
            == exchange.locator && activity_name == activity.activity_infos.name
    } else if !agree(exchange.location, activity.activity_infos.location) {
        r matches Err(RunError::LocationMismatch { error_locator, activity_location })
            && error_locator == exchange.locator && Some(activity_location)
            == activity.activity_infos.location
    } else if !agree(exchange.unit, merged.unit) {
        r matches Ok(FileLink::UnitConversion { activity_unit, exchange_unit, activity: a })
            && Some(activity_unit) == merged.unit && Some(exchange_unit) == exchange.unit
            && a.activity_infos == merged && a.exchanges == activity.exchanges
    } else {
        r matches Ok(FileLink::Linked(ExchangeLink::Activity(a))) && a.activity_infos == merged
            && a.exchanges == activity.exchanges
    }
}

/// Links an exchange to the activity read from its file: names must be
/// equal and locations agree; the activity then takes the exchange's name,
/// amount and locator.  When both give units that differ, the amount needs
/// a unit conversion.
pub fn link_file_activity<A>(
    exchange_infos: ActivityInfos<FileLocator, A>,
    activity: Activity<FileLocator, A>,
) -> (r: Result<FileLink<A>, RunError>)
    ensures
        linked_file(r, exchange_infos, activity),
{
    let Activity { activity_infos, exchanges } = activity;
    if exchange_infos.name != activity_infos.name {
        return Err(
            RunError::NameMismatch {
                error_locator: exchange_infos.locator,
                activity_name: activity_infos.name,
            },
        );
    }
    if !check_equality(&exchange_infos.location, &activity_infos.location) {
        let activity_location = match activity_infos.location {
            Some(l) => l,
            None => String::new(),
        };
        return Err(
            RunError::LocationMismatch { error_locator: exchange_infos.locator, activity_location },
        );
    }
    let exchange_unit = exchange_infos.unit.clone();
    let merged = merge_activiy_infos(activity_infos, exchange_infos);
    if !check_equality(&exchange_unit, &merged.unit) {
        let activity_unit = match &merged.unit {
            Some(u) => u.clone(),
            None => String::new(),
        };
        let exchange_unit = match exchange_unit {
            Some(u) => u,
            None => String::new(),
        };
        return Ok(
            FileLink::UnitConversion {
                activity_unit,
                exchange_unit,
                activity: Activity { activity_infos: merged, exchanges },
            },
        );
    }
    Ok(FileLink::Linked(ExchangeLink::Activity(Activity { activity_infos: merged, exchanges })))
}

/// `r` is what converting the amount of `activity` by `factor` gives:
/// without a factor the units do not convert.
pub open spec fn converted<A: Mul<Output = A>>(
    r: Result<ExchangeLink<FileLocator, A>, RunError>,
    factor: Option<A>,
    activity_unit: String,
    activity: Activity<FileLocator, A>,
) -> bool {
    match factor {
        None => r == Err::<ExchangeLink<FileLocator, A>, RunError>(
            RunError::UnitMismatch { error_locator: activity.activity_infos.locator, activity_unit },
        ),
        Some(f) => r matches Ok(ExchangeLink::Activity(a)) && a.exchanges == activity.exchanges
            && a.activity_infos.name == activity.activity_infos.name
            && a.activity_infos.location == activity.activity_infos.location
            && a.activity_infos.unit == activity.activity_infos.unit
            && a.activity_infos.locator == activity.activity_infos.locator && (A::obeys_mul_spec()
            ==> a.activity_infos.amount == activity.activity_infos.amount.mul_spec(f)),
    }
}

/// Scales the amount of a linked activity by the factor that converts the
/// exchange's unit into the activity's; `None` means the units do not
/// convert into one another.
pub fn apply_unit_conversion<A: Mul<Output = A>>(
    factor: Option<A>,
    activity_unit: String,
    activity: Activity<FileLocator, A>,
) -> (r: Result<ExchangeLink<FileLocator, A>, RunError>)
    requires
        factor matches Some(f) ==> activity.activity_infos.amount.mul_req(f),
    ensures
        converted(r, factor, activity_unit, activity),
{
    let Activity { activity_infos, exchanges } = activity;
    match factor {
        None => Err(
            RunError::UnitMismatch { error_locator: activity_infos.locator, activity_unit },
        ),
        Some(f) => {
            let ActivityInfos { name, location, unit, amount, locator } = activity_infos;
            let amount = amount * f;
            Ok(
                ExchangeLink::Activity(
                    Activity {
                        activity_infos: ActivityInfos { name, location, unit, amount, locator },
                        exchanges,
                    },
                ),
            )
        },
    }
}

} // verus!
