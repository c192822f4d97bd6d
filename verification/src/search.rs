//! Rendering the results of an inventory search.
use vstd::prelude::*;
use colored::Colorize;
use serde_json::Map as JsonMap;
use serde_json::Value as JsonValue;
use crate::text::string_of;

verus! {

/// An entry of the inventory index that a search returned.
#[derive(Debug)]
pub struct SearchResult {
    pub name: String,
    pub database_name: String,
    pub database_version: String,
    pub location: Option<String>,
    pub unit: String,
}

/// How search results are rendered.
#[derive(PartialEq, Eq, Structural, Clone, Copy, Debug)]
pub enum ResFormat {
    /// One block per result, with bold labels.
    Default,
    /// One line per result.
    Compact,
    /// One JSON object per result.
    Json,
}

/// The compact line of a search result.
pub open spec fn inline_text(sr: SearchResult) -> Seq<char> {
    let head = "["@ + sr.database_name@ + " v"@ + sr.database_version@ + "] "@ + sr.name@ + " "@;
    match sr.location {
        Some(l) => head + l@ + " "@ + sr.unit@ + "\n"@,
        None => head + sr.unit@ + "\n"@,
    }
}

/// Renders a search result on one line:
/// `[<database> v<version>] <name> [<location> ]<unit>`.
pub fn to_inline(sr: &SearchResult) -> (r: String)
    ensures
        r@ == inline_text(*sr),
{
    let mut r = string_of("[");
    r.append(sr.database_name.as_str());
    r.append(" v");
    r.append(sr.database_version.as_str());
    r.append("] ");
    r.append(sr.name.as_str());
    r.append(" ");
    match &sr.location {
        Some(l) => {
            r.append(l.as_str());
            r.append(" ");
        },
        None => {},
    }
    r.append(sr.unit.as_str());
    r.append("\n");
    r
}

/// A field value of the JSON object a search result is printed as: a
/// string, or an object whose fields are strings.
pub enum JsonField {
    Text(String),
    Object(Vec<(String, String)>),
}

/// The lowercase hexadecimal digit of `d` (0 to 15).
pub open spec fn hex_digit(d: int) -> char {
    if d < 10 {
        ('0' as int + d) as char
    } else {
        ('a' as int + d - 10) as char
    }
}

/// How `serde_json` writes the character `c` inside a string: `"` and `\`
/// behind a backslash, the control characters with a short escape where JSON
/// has one and as `\u00XX` otherwise, any other character as it is.
pub open spec fn json_escape_char(c: char) -> Seq<char> {
    if c == '"' {
        seq!['\\', '"']
    } else if c == '\\' {
        seq!['\\', '\\']
    } else if c == '\u{8}' {
        seq!['\\', 'b']
    } else if c == '\t' {
        seq!['\\', 't']
    } else if c == '\n' {
        seq!['\\', 'n']
    } else if c == '\u{c}' {
        seq!['\\', 'f']
    } else if c == '\r' {
        seq!['\\', 'r']
    } else if (c as int) < 0x20 {
        seq!['\\', 'u', '0', '0', hex_digit(c as int / 16), hex_digit(c as int % 16)]
    } else {
        seq![c]
    }
}

/// The characters of `s`, each written as `serde_json` writes it in a string.
pub open spec fn json_escaped(s: Seq<char>) -> Seq<char>
    decreases s.len(),
{
    if s.len() == 0 {
        Seq::empty()
    } else {
        json_escaped(s.drop_last()) + json_escape_char(s.last())
    }
}

/// The JSON string literal of `s`.
pub open spec fn json_string(s: Seq<char>) -> Seq<char> {
    seq!['"'] + json_escaped(s) + seq!['"']
}

/// The member `"key":value` of a JSON object.
pub open spec fn json_member(key: Seq<char>, value: Seq<char>) -> Seq<char> {
    json_string(key) + seq![':'] + value
}

/// The members, separated by commas.
pub open spec fn json_members(members: Seq<Seq<char>>) -> Seq<char>
    decreases members.len(),
{
    if members.len() == 0 {
        Seq::empty()
    } else if members.len() == 1 {
        members[0]
    } else {
        members[0] + seq![','] + json_members(members.drop_first())
    }
}

/// The compact JSON object with these members, in this order.
pub open spec fn json_object(members: Seq<Seq<char>>) -> Seq<char> {
    seq!['{'] + json_members(members) + seq!['}']
}

/// The JSON text of a field value.
pub open spec fn json_field_text(field: JsonField) -> Seq<char> {
    match field {
        JsonField::Text(s) => json_string(s@),
        JsonField::Object(entries) => json_object(
            entries@.map_values(|e: (String, String)| json_member(e.0@, json_string(e.1@))),
        ),
    }
}

/// The JSON text of the object with these fields, in this order.
pub open spec fn json_fields_text(fields: Seq<(String, JsonField)>) -> Seq<char> {
    json_object(fields.map_values(|e: (String, JsonField)| json_member(e.0@, json_field_text(e.1))))
}

/// `a` comes strictly before `b` in the order of Rust's `String`s (byte
/// order of UTF-8, which is the order of the characters' code points).
pub open spec fn text_precedes(a: Seq<char>, b: Seq<char>) -> bool
    decreases a.len(),
{
    if a.len() == 0 {
        b.len() > 0
    } else if b.len() == 0 {
        false
    } else if a[0] != b[0] {
        (a[0] as int) < (b[0] as int)
    } else {
        text_precedes(a.drop_first(), b.drop_first())
    }
}

/// The keys come in strictly increasing order.
pub open spec fn keys_ascending<X>(entries: Seq<(String, X)>) -> bool {
    forall|i: int, j: int|
        0 <= i < j < entries.len() ==> text_precedes(#[trigger] entries[i].0@, #[trigger] entries[j].0@)
}

/// Builds the `serde_json::Value` object with these fields and prints it
/// with `Display`.  `serde_json` orders an object's keys as `String`s (or
/// keeps them in insertion order when its `preserve_order` feature is on);
/// with the keys already in increasing order both give the fields in the
/// order given, each written in compact form with escaped strings.
#[verifier::external_body]
fn json_object_text(fields: &Vec<(String, JsonField)>) -> (r: String)
    requires
        keys_ascending(fields@),
        forall|i: int|
            0 <= i < fields@.len() ==> ((#[trigger] fields@[i]).1 matches JsonField::Object(
                entries,
            ) ==> keys_ascending(entries@)),
    ensures
        r@ == json_fields_text(fields@),
{
    let mut object = JsonMap::new();
    for (key, field) in fields.iter() {
        let value = match field {
            JsonField::Text(s) => JsonValue::from(s.as_str()),
            JsonField::Object(entries) => JsonValue::Object(
                entries.iter().map(|(k, v)| (k.clone(), JsonValue::from(v.as_str()))).collect(),
            ),
        };
        object.insert(key.clone(), value);
    }
    JsonValue::Object(object).to_string()
}

/// The JSON text of a search result: the object
/// `{"database":{"name":..,"version":..},"location":..,"name":..,"unit":..}`,
/// without `location` when the result has none.
pub open spec fn json_text(sr: SearchResult) -> Seq<char> {
    let database = json_object(
        seq![
            json_member("name"@, json_string(sr.database_name@)),
            json_member("version"@, json_string(sr.database_version@)),
        ],
    );
    let tail = seq![json_member("name"@, json_string(sr.name@)), json_member("unit"@, json_string(sr.unit@))];
    json_object(
        match sr.location {
            Some(l) => seq![json_member("database"@, database), json_member("location"@, json_string(l@))] + tail,
            None => seq![json_member("database"@, database)] + tail,
        },
    )
}

/// Renders a search result as a JSON object; the `location` key is left out
/// when the result has none.
pub fn to_json(sr: &SearchResult) -> (r: String)
    ensures
        r@ == json_text(*sr),
{
    let mut database: Vec<(String, String)> = Vec::new();
    database.push((string_of("name"), sr.database_name.clone()));
    database.push((string_of("version"), sr.database_version.clone()));
    let mut fields: Vec<(String, JsonField)> = Vec::new();
    fields.push((string_of("database"), JsonField::Object(database)));
    match &sr.location {
        Some(l) => fields.push((string_of("location"), JsonField::Text(l.clone()))),
        None => {},
    }
    fields.push((string_of("name"), JsonField::Text(sr.name.clone())));
    fields.push((string_of("unit"), JsonField::Text(sr.unit.clone())));
    proof {
        reveal_strlit("name");
        reveal_strlit("version");
        reveal_strlit("database");
        reveal_strlit("location");
        reveal_strlit("unit");
        assert(text_precedes("name"@, "version"@));
        assert(text_precedes("database"@, "location"@));
        assert(text_precedes("database"@, "name"@));
        assert(text_precedes("database"@, "unit"@));
        assert(text_precedes("location"@, "name"@));
        assert(text_precedes("location"@, "unit"@));
        assert(text_precedes("name"@, "unit"@));
        let members = fields@.map_values(
            |e: (String, JsonField)| json_member(e.0@, json_field_text(e.1)),
        );
        let db_members = database@.map_values(
            |e: (String, String)| json_member(e.0@, json_string(e.1@)),
        );
        assert(db_members =~= seq![
            json_member("name"@, json_string(sr.database_name@)),
            json_member("version"@, json_string(sr.database_version@)),
        ]);
        let tail = seq![json_member("name"@, json_string(sr.name@)), json_member("unit"@, json_string(sr.unit@))];
        if sr.location is Some {
            let l = sr.location->0;
            assert(members =~= seq![
                json_member("database"@, json_object(db_members)),
                json_member("location"@, json_string(l@)),
            ] + tail);
        } else {
            assert(members =~= seq![json_member("database"@, json_object(db_members))] + tail);
        }
    }
    json_object_text(&fields)
}

/// The escape character that starts terminal style sequences.
pub open spec fn escape() -> char {
    '\u{1b}'
}

/// `p` is `s` as the `colored` crate prints it with the style code
/// `code`: unchanged when colors are off, else between the style sequence
/// and the reset sequence.
pub open spec fn painted(p: Seq<char>, s: Seq<char>, code: Seq<char>) -> bool {
    ||| p == s
    ||| p == seq![escape(), '['] + code + seq!['m'] + s + seq![escape(), '[', '0', 'm']
}

/// Calls `colored`'s `bold` and prints the result.  Whether colors are on
/// depends on the environment and the terminal, so either form may come
/// back; for a text with an escape character nothing is claimed.
#[verifier::external_body]
fn bold(s: &str) -> (r: String)
    ensures
        !s@.contains(escape()) ==> painted(r@, s@, seq!['1']),
{
    s.bold().to_string()
}

/// Calls `colored`'s `bright_white` and prints the result.  Whether colors
/// are on depends on the environment and the terminal, so either form may
/// come back; for a text with an escape character nothing is claimed.
#[verifier::external_body]
fn bright_white(s: &str) -> (r: String)
    ensures
        !s@.contains(escape()) ==> painted(r@, s@, seq!['9', '7']),
{
    s.bright_white().to_string()
}

/// The styled pieces of the block of a search result.
pub struct ColumnPieces {
    pub database_label: String,
    pub database_value: String,
    pub location_label: String,
    pub location_value: String,
    pub unit_label: String,
    pub unit_value: String,
}

/// The block of a search result, with its labels and values styled as in
/// `pieces`.
pub open spec fn column_text(sr: SearchResult, pieces: ColumnPieces) -> Seq<char> {
    let head = sr.name@ + "\n"@ + " | "@ + pieces.database_label@ + " "@ + pieces.database_value@
        + "\n"@;
    let location = match sr.location {
        Some(_) => " | "@ + pieces.location_label@ + " "@ + pieces.location_value@ + "\n"@,
        None => Seq::empty(),
    };
    head + location + " | "@ + pieces.unit_label@ + " "@ + pieces.unit_value@ + "\n\n"@
}

/// The pieces are the labels and values of `sr`, each styled or not.
pub open spec fn styled_pieces(sr: SearchResult, pieces: ColumnPieces) -> bool {
    let no_escape = !sr.database_name@.contains(escape()) && !sr.database_version@.contains(
        escape(),
    ) && !sr.unit@.contains(escape()) && match sr.location {
        Some(l) => !l@.contains(escape()),
        None => true,
    };
    no_escape ==> {
        &&& painted(pieces.database_label@, "Database:"@, seq!['1'])
        &&& painted(pieces.database_value@, sr.database_name@ + " v"@ + sr.database_version@, seq!['9', '7'])
        &&& painted(pieces.unit_label@, "Unit:"@, seq!['1'])
        &&& painted(pieces.unit_value@, sr.unit@, seq!['9', '7'])
        &&& match sr.location {
            Some(l) => {
                &&& painted(pieces.location_label@, "Location:"@, seq!['1'])
                &&& painted(pieces.location_value@, l@, seq!['9', '7'])
            },
            None => true,
        }
    }
}

/// Assembles the block of a search result from its styled pieces.
pub fn column_from_pieces(sr: &SearchResult, pieces: &ColumnPieces) -> (r: String)
    ensures
        r@ == column_text(*sr, *pieces),
{
    let mut r = sr.name.clone();
    r.append("\n");
    r.append(" | ");
    r.append(pieces.database_label.as_str());
    r.append(" ");
    r.append(pieces.database_value.as_str());
    r.append("\n");
    match &sr.location {
        Some(_) => {
            r.append(" | ");
            r.append(pieces.location_label.as_str());
            r.append(" ");
            r.append(pieces.location_value.as_str());
            r.append("\n");
        },
        None => {},
    }
    r.append(" | ");
    r.append(pieces.unit_label.as_str());
    r.append(" ");
    r.append(pieces.unit_value.as_str());
    r.append("\n\n");
    r
}

proof fn lemma_no_escape_concat(a: Seq<char>, b: Seq<char>, c: Seq<char>)
    requires
        !a.contains(escape()),
        !b.contains(escape()),
        !c.contains(escape()),
    ensures
        !(a + b + c).contains(escape()),
{
    if (a + b + c).contains(escape()) {
        let i = choose|i: int| 0 <= i < (a + b + c).len() && (a + b + c)[i] == escape();
        if i < a.len() {
            assert(a[i] == escape());
        } else if i < a.len() + b.len() {
            assert(b[i - a.len()] == escape());
        } else {
            assert(c[i - a.len() - b.len()] == escape());
        }
    }
}

/// Renders a search result as a block: its name, then its database,
/// location (when it has one) and unit, each on a line with a bold label.
pub fn to_column(sr: &SearchResult) -> (r: String)
    ensures
        exists|pieces: ColumnPieces| #[trigger]
            styled_pieces(*sr, pieces) && r@ == column_text(*sr, pieces),
{
    proof {
        reveal_strlit("Database:");
        reveal_strlit(" v");
        reveal_strlit("Location:");
        reveal_strlit("Unit:");
    }
    let mut database = sr.database_name.clone();
    database.append(" v");
    database.append(sr.database_version.as_str());
    let (location_label, location_value) = match &sr.location {
        Some(l) => (bold("Location:"), bright_white(l.as_str())),
        None => (String::new(), String::new()),
    };
    let pieces = ColumnPieces {
        database_label: bold("Database:"),
        database_value: bright_white(database.as_str()),
        location_label,
        location_value,
        unit_label: bold("Unit:"),
        unit_value: bright_white(sr.unit.as_str()),
    };
    proof {
        if !sr.database_name@.contains(escape()) && !sr.database_version@.contains(escape()) {
            assert(!" v"@.contains(escape())) by {
                if " v"@.contains(escape()) {
                    let i = choose|i: int| 0 <= i < " v"@.len() && " v"@[i] == escape();
                }
            }
            lemma_no_escape_concat(sr.database_name@, " v"@, sr.database_version@);
        }
        assert(!"Database:"@.contains(escape())) by {
            if "Database:"@.contains(escape()) {
                let i = choose|i: int| 0 <= i < "Database:"@.len() && "Database:"@[i] == escape();
            }
        }
        assert(!"Location:"@.contains(escape())) by {
            if "Location:"@.contains(escape()) {
                let i = choose|i: int| 0 <= i < "Location:"@.len() && "Location:"@[i] == escape();
            }
        }
        assert(!"Unit:"@.contains(escape())) by {
            if "Unit:"@.contains(escape()) {
                let i = choose|i: int| 0 <= i < "Unit:"@.len() && "Unit:"@[i] == escape();
            }
        }
    }
    let r = column_from_pieces(sr, &pieces);
    assert(styled_pieces(*sr, pieces));
    r
}

/// The concatenation of texts.
pub open spec fn joined(texts: Seq<Seq<char>>) -> Seq<char>
    decreases texts.len(),
{
    if texts.len() == 0 {
        Seq::empty()
    } else {
        joined(texts.drop_last()) + texts.last()
    }
}

/// `text` renders `sr` in `format`.
pub open spec fn renders(format: ResFormat, sr: SearchResult, text: Seq<char>) -> bool {
    match format {
        ResFormat::Default => exists|pieces: ColumnPieces| #[trigger]
            styled_pieces(sr, pieces) && text == column_text(sr, pieces),
        ResFormat::Compact => text == inline_text(sr),
        ResFormat::Json => text == json_text(sr),
    }
}

/// The text of `sr` in a format whose rendering does not depend on the
/// terminal: compact or JSON.
pub open spec fn exact_text(format: ResFormat, sr: SearchResult) -> Seq<char> {
    match format {
        ResFormat::Json => json_text(sr),
        _ => inline_text(sr),
    }
}

/// The texts of the results in the compact or JSON format, one after the
/// other.
pub open spec fn formatted(format: ResFormat, results: Seq<SearchResult>) -> Seq<char> {
    joined(results.map_values(|sr: SearchResult| exact_text(format, sr)))
}

/// `text` is the texts of `results`, each rendered in `format`, one after
/// the other.
pub open spec fn renders_all(format: ResFormat, results: Seq<SearchResult>, text: Seq<char>) -> bool {
    exists|texts: Seq<Seq<char>>|
        {
            &&& texts.len() == results.len()
            &&& forall|i: int| 0 <= i < texts.len() ==> renders(format, results[i], #[trigger] texts[i])
            &&& text == joined(texts)
        }
}

/// Renders every search result in `format`, one after the other.
pub fn format_result(results: Vec<SearchResult>, format: ResFormat) -> (r: String)
    ensures
        renders_all(format, results@, r@),
        format != ResFormat::Default ==> r@ == formatted(format, results@),
{
    let mut output = String::new();
    let ghost mut texts: Seq<Seq<char>> = Seq::empty();
    let mut i: usize = 0;
    while i < results.len()
        invariant
            i <= results@.len(),
            texts.len() == i,
            forall|k: int| 0 <= k < i ==> renders(format, results@[k], #[trigger] texts[k]),
            output@ == joined(texts),
        decreases results@.len() - i,
    {
        let text = match format {
            ResFormat::Default => to_column(&results[i]),
            ResFormat::Compact => to_inline(&results[i]),
            ResFormat::Json => to_json(&results[i]),
        };
        output.append(text.as_str());
        proof {
            let previous = texts;
            texts = texts.push(text@);
            assert(texts.drop_last() =~= previous);
        }
        i = i + 1;
    }
    proof {
        if format != ResFormat::Default {
            assert(texts =~= results@.map_values(|sr: SearchResult| exact_text(format, sr)));
        }
    }
    output
}

proof fn lemma_joined_concat(a: Seq<Seq<char>>, b: Seq<Seq<char>>)
    ensures
        joined(a + b) == joined(a) + joined(b),
    decreases b.len(),
{
    if b.len() == 0 {
        assert(a + b =~= a);
        assert(joined(b) =~= Seq::<char>::empty());
        assert(joined(a) + joined(b) =~= joined(a));
    } else {
        lemma_joined_concat(a, b.drop_last());
        assert((a + b).drop_last() =~= a + b.drop_last());
        assert((a + b).last() == b.last());
        assert(joined(a) + joined(b) =~= joined(a) + joined(b.drop_last()) + b.last());
    }
}

/// In the compact and JSON formats the text of a list of results is the
/// text of each result in turn: no results give no text, and the text of
/// `a ++ b` is the text of `a` followed by the text of `b`.
pub proof fn law_formatted_concat(format: ResFormat, a: Seq<SearchResult>, b: Seq<SearchResult>)
    ensures
        formatted(format, Seq::empty()) == Seq::<char>::empty(),
        formatted(format, a + b) == formatted(format, a) + formatted(format, b),
{
    let f = |sr: SearchResult| exact_text(format, sr);
    assert(Seq::<SearchResult>::empty().map_values(f) =~= Seq::<Seq<char>>::empty());
    assert((a + b).map_values(f) =~= a.map_values(f) + b.map_values(f));
    lemma_joined_concat(a.map_values(f), b.map_values(f));
}

/// In every format, texts that render `a` and `b` one after the other
/// render `a ++ b`, and the empty text renders no results.
pub proof fn law_renders_concat(
    format: ResFormat,
    a: Seq<SearchResult>,
    b: Seq<SearchResult>,
    x: Seq<char>,
    y: Seq<char>,
)
    requires
        renders_all(format, a, x),
        renders_all(format, b, y),
    ensures
        renders_all(format, a + b, x + y),
        renders_all(format, Seq::empty(), Seq::empty()),
{
    let ta = choose|texts: Seq<Seq<char>>|
        {
            &&& texts.len() == a.len()
            &&& forall|i: int| 0 <= i < texts.len() ==> renders(format, a[i], #[trigger] texts[i])
            &&& x == joined(texts)
        };
    let tb = choose|texts: Seq<Seq<char>>|
        {
            &&& texts.len() == b.len()
            &&& forall|i: int| 0 <= i < texts.len() ==> renders(format, b[i], #[trigger] texts[i])
            &&& y == joined(texts)
        };
    lemma_joined_concat(ta, tb);
    let t = ta + tb;
    assert forall|i: int| 0 <= i < t.len() implies renders(format, (a + b)[i], #[trigger] t[i]) by {
        if i < ta.len() {
            assert(t[i] == ta[i]);
            assert((a + b)[i] == a[i]);
        } else {
            assert(t[i] == tb[i - ta.len()]);
            assert((a + b)[i] == b[i - a.len()]);
        }
    }
    let none = Seq::<Seq<char>>::empty();
    assert(joined(none) =~= Seq::<char>::empty());
    assert(none.len() == Seq::<SearchResult>::empty().len());
}

} // verus!
