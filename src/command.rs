//! The command language: one line is parsed into a command, which is then
//! applied to a database and answered with a reply.
//!
//! ```text
//! GET <key>
//! SET <key> <type> <value...>
//! DEBUG
//! ```

use crate::store::Database;
use crate::text::{
    bool_of_text, int_of_text, int_text, join_from, join_spaces, lower_of, parse_bool, parse_i64,
    same_text, split_tokens, to_lower, to_upper, tokens, upper_of, views, i64_to_text,
};
use crate::value::{
    bool_bytes, decode_bool, decode_float_bits, decode_int, decode_string, float_bytes, int_bytes,
    string_bytes, DataType, DbValue,
};
use vstd::prelude::*;
use vstd::string::StringExecFns;

verus! {

/// Which command a line names, by its upper-cased first token.
#[derive(Clone, Copy, Debug, PartialEq, Eq, Structural)]
pub enum CommandKind {
    Get,
    SetValue,
    Debug,
    Unknown,
}

/// The command that an upper-cased command word names.
pub open spec fn kind_of(upper: Seq<char>) -> CommandKind {
    if upper == "GET"@ {
        CommandKind::Get
    } else if upper == "SET"@ {
        CommandKind::SetValue
    } else if upper == "DEBUG"@ {
        CommandKind::Debug
    } else {
        CommandKind::Unknown
    }
}

/// The type that a lower-cased type name names.
pub open spec fn type_named(lower: Seq<char>) -> Option<DataType> {
    if lower == "str"@ || lower == "string"@ {
        Some(DataType::String)
    } else if lower == "int"@ || lower == "i64"@ {
        Some(DataType::Int)
    } else if lower == "float"@ || lower == "f64"@ {
        Some(DataType::Float)
    } else if lower == "bool"@ {
        Some(DataType::Bool)
    } else {
        None
    }
}

/// Names the command of an upper-cased command word.
pub fn command_kind(upper: &str) -> (r: CommandKind)
    ensures
        r == kind_of(upper@),
{
    if same_text(upper, "GET") {
        CommandKind::Get
    } else if same_text(upper, "SET") {
        CommandKind::SetValue
    } else if same_text(upper, "DEBUG") {
        CommandKind::Debug
    } else {
        CommandKind::Unknown
    }
}

/// Names the type of a lower-cased type name, if it is one.
pub fn type_of_name(lower: &str) -> (r: Option<DataType>)
    ensures
        r == type_named(lower@),
{
    if same_text(lower, "str") || same_text(lower, "string") {
        Some(DataType::String)
    } else if same_text(lower, "int") || same_text(lower, "i64") {
        Some(DataType::Int)
    } else if same_text(lower, "float") || same_text(lower, "f64") {
        Some(DataType::Float)
    } else if same_text(lower, "bool") {
        Some(DataType::Bool)
    } else {
        None
    }
}

/// A parsed line.
#[derive(Debug)]
pub enum Command {
    /// A blank line.
    Empty,
    Get { key: String },
    /// `GET` without a key.
    GetUsage,
    SetValue { key: String, kind: DataType, text: String },
    /// `SET` without a key, a type and a value.
    SetUsage,
    /// `SET` with a type name that names no type.
    InvalidType,
    Debug,
    Unknown,
}

/// A parsed line, over texts.
pub enum CommandView {
    Empty,
    Get { key: Seq<char> },
    GetUsage,
    SetValue { key: Seq<char>, kind: DataType, text: Seq<char> },
    SetUsage,
    InvalidType,
    Debug,
    Unknown,
}

impl View for Command {
    type V = CommandView;

    open spec fn view(&self) -> CommandView {
        match self {
            Command::Empty => CommandView::Empty,
            Command::Get { key } => CommandView::Get { key: key@ },
            Command::GetUsage => CommandView::GetUsage,
            Command::SetValue { key, kind, text } => CommandView::SetValue { key: key@, kind: *kind, text: text@ },
            Command::SetUsage => CommandView::SetUsage,
            Command::InvalidType => CommandView::InvalidType,
            Command::Debug => CommandView::Debug,
            Command::Unknown => CommandView::Unknown,
        }
    }
}

/// The command that a line's tokens form. The command word is matched
/// without regard to case, and so is the type name of `SET`; the value of
/// `SET` is every token from the fourth on, joined with single spaces.
pub open spec fn command_of(ts: Seq<Seq<char>>) -> CommandView {
    if ts.len() == 0 {
        CommandView::Empty
    } else {
        match kind_of(upper_of(ts[0])) {
            CommandKind::Get => if ts.len() < 2 {
                CommandView::GetUsage
            } else {
                CommandView::Get { key: ts[1] }
            },
            CommandKind::SetValue => if ts.len() < 4 {
                CommandView::SetUsage
            } else {
                match type_named(lower_of(ts[2])) {
                    Some(kind) => CommandView::SetValue {
                        key: ts[1],
                        kind,
                        text: join_spaces(ts.subrange(3, ts.len() as int)),
                    },
                    None => CommandView::InvalidType,
                }
            },
            CommandKind::Debug => CommandView::Debug,
            CommandKind::Unknown => CommandView::Unknown,
        }
    }
}

/// A stored value as its own tag decodes it.
#[derive(Debug)]
pub enum Shown {
    Text(String),
    Int(i64),
    /// A float, as its IEEE-754 bit pattern.
    FloatBits(u64),
    Bool(bool),
    /// The payload does not decode under the value's own tag.
    Malformed,
}

/// A shown value, over texts.
pub enum ShownView {
    Text(Seq<char>),
    Int(i64),
    FloatBits(u64),
    Bool(bool),
    Malformed,
}

impl View for Shown {
    type V = ShownView;

    open spec fn view(&self) -> ShownView {
        match self {
            Shown::Text(t) => ShownView::Text(t@),
            Shown::Int(i) => ShownView::Int(*i),
            Shown::FloatBits(b) => ShownView::FloatBits(*b),
            Shown::Bool(b) => ShownView::Bool(*b),
            Shown::Malformed => ShownView::Malformed,
        }
    }
}

/// How a stored value is shown: decoded by the accessor of its own tag.
pub open spec fn shown_of(v: (DataType, Seq<u8>)) -> ShownView {
    match v.0 {
        DataType::String => match decode_string(v) {
            Some(Ok(t)) => ShownView::Text(t),
            _ => ShownView::Malformed,
        },
        DataType::Int => match decode_int(v) {
            Some(i) => ShownView::Int(i),
            None => ShownView::Malformed,
        },
        DataType::Float => match decode_float_bits(v) {
            Some(b) => ShownView::FloatBits(b),
            None => ShownView::Malformed,
        },
        DataType::Bool => match decode_bool(v) {
            Some(b) => ShownView::Bool(b),
            None => ShownView::Malformed,
        },
    }
}

/// Decodes a value by the accessor of its own tag.
pub fn show(v: &DbValue) -> (r: Shown)
    ensures
        r@ == shown_of(v@),
{
    match v.typetag {
        DataType::String => match v.as_string() {
            Some(Ok(t)) => Shown::Text(t),
            _ => Shown::Malformed,
        },
        DataType::Int => match v.as_int() {
            Some(i) => Shown::Int(i),
            None => Shown::Malformed,
        },
        DataType::Float => match v.as_float_bits() {
            Some(b) => Shown::FloatBits(b),
            None => Shown::Malformed,
        },
        DataType::Bool => match v.as_bool() {
            Some(b) => Shown::Bool(b),
            None => Shown::Malformed,
        },
    }
}

/// The answer to one command.
#[derive(Debug)]
pub enum Reply {
    /// A blank line: nothing to say.
    Silent,
    Found { key: String, value: Shown },
    KeyNotFound,
    GetUsage,
    SetUsage,
    SetOk,
    InvalidInt,
    InvalidFloat,
    InvalidBool,
    InvalidType,
    UnknownCommand,
    /// `DEBUG`: the caller lists the database's entries.
    Listing,
    /// `SET` of a float: the caller parses `text` and hands the outcome to
    /// [`set_float`].
    FloatPending { key: String, text: String },
}

/// A reply, over texts.
pub enum ReplyView {
    Silent,
    Found { key: Seq<char>, value: ShownView },
    KeyNotFound,
    GetUsage,
    SetUsage,
    SetOk,
    InvalidInt,
    InvalidFloat,
    InvalidBool,
    InvalidType,
    UnknownCommand,
    Listing,
    FloatPending { key: Seq<char>, text: Seq<char> },
}

impl View for Reply {
    type V = ReplyView;

    open spec fn view(&self) -> ReplyView {
        match self {
            Reply::Silent => ReplyView::Silent,
            Reply::Found { key, value } => ReplyView::Found { key: key@, value: value@ },
            Reply::KeyNotFound => ReplyView::KeyNotFound,
            Reply::GetUsage => ReplyView::GetUsage,
            Reply::SetUsage => ReplyView::SetUsage,
            Reply::SetOk => ReplyView::SetOk,
            Reply::InvalidInt => ReplyView::InvalidInt,
            Reply::InvalidFloat => ReplyView::InvalidFloat,
            Reply::InvalidBool => ReplyView::InvalidBool,
            Reply::InvalidType => ReplyView::InvalidType,
            Reply::UnknownCommand => ReplyView::UnknownCommand,
            Reply::Listing => ReplyView::Listing,
            Reply::FloatPending { key, text } => ReplyView::FloatPending { key: key@, text: text@ },
        }
    }
}

/// The contents of a database, as a map from key to tag and bytes.
pub type Contents = Map<Seq<char>, (DataType, Seq<u8>)>;

/// What a command does to a database, and how it is answered. Only a
/// successful `SET` changes the database, and it replaces the key's value
/// whole.
pub open spec fn step(m: Contents, c: CommandView) -> (Contents, ReplyView) {
    match c {
        CommandView::Empty => (m, ReplyView::Silent),
        CommandView::Get { key } => if m.contains_key(key) {
            (m, ReplyView::Found { key, value: shown_of(m[key]) })
        } else {
            (m, ReplyView::KeyNotFound)
        },
        CommandView::GetUsage => (m, ReplyView::GetUsage),
        CommandView::SetValue { key, kind, text } => match kind {
            DataType::String => (
                m.insert(key, (DataType::String, string_bytes(text))),
                ReplyView::SetOk,
            ),
            DataType::Int => match int_of_text(text) {
                Some(i) => (m.insert(key, (DataType::Int, int_bytes(i))), ReplyView::SetOk),
                None => (m, ReplyView::InvalidInt),
            },
            DataType::Bool => match bool_of_text(text) {
                Some(b) => (m.insert(key, (DataType::Bool, bool_bytes(b))), ReplyView::SetOk),
                None => (m, ReplyView::InvalidBool),
            },
            DataType::Float => (m, ReplyView::FloatPending { key, text }),
        },
        CommandView::SetUsage => (m, ReplyView::SetUsage),
        CommandView::InvalidType => (m, ReplyView::InvalidType),
        CommandView::Debug => (m, ReplyView::Listing),
        CommandView::Unknown => (m, ReplyView::UnknownCommand),
    }
}

/// What setting a float does, given the bit pattern its text parsed to, or
/// `None` when it did not parse.
pub open spec fn float_step(m: Contents, key: Seq<char>, bits: Option<u64>) -> (
    Contents,
    ReplyView,
) {
    match bits {
        Some(b) => (m.insert(key, (DataType::Float, float_bytes(b))), ReplyView::SetOk),
        None => (m, ReplyView::InvalidFloat),
    }
}

/// Parses one line into a command.
pub fn parse_command(line: &str) -> (c: Command)
    ensures
        c@ == command_of(tokens(line@)),
{
    let ts = split_tokens(line);
    let ghost tv = views(ts@);
    if ts.len() == 0 {
        return Command::Empty;
    }
    assert(tv[0] == ts@[0]@);
    let upper = to_upper(ts[0].as_str());
    match command_kind(upper.as_str()) {
        CommandKind::Get => {
            if ts.len() < 2 {
                Command::GetUsage
            } else {
                assert(tv[1] == ts@[1]@);
                Command::Get { key: ts[1].clone() }
            }
        },
        CommandKind::SetValue => {
            if ts.len() < 4 {
                Command::SetUsage
            } else {
                assert(tv[1] == ts@[1]@);
                assert(tv[2] == ts@[2]@);
                let lower = to_lower(ts[2].as_str());
                match type_of_name(lower.as_str()) {
                    Some(kind) => Command::SetValue {
                        key: ts[1].clone(),
                        kind,
                        text: join_from(&ts, 3),
                    },
                    None => Command::InvalidType,
                }
            }
        },
        CommandKind::Debug => Command::Debug,
        CommandKind::Unknown => Command::Unknown,
    }
}

/// Applies a command to a database.
pub fn execute(db: &mut Database, c: Command) -> (r: Reply)
    requires
        old(db).wf(),
    ensures
        final(db).wf(),
        (final(db)@, r@) == step(old(db)@, c@),
{
    match c {
        Command::Empty => Reply::Silent,
        Command::Get { key } => match db.get(key.as_str()) {
            Some(v) => Reply::Found { value: show(v), key },
            None => Reply::KeyNotFound,
        },
        Command::GetUsage => Reply::GetUsage,
        Command::SetValue { key, kind, text } => match kind {
            DataType::String => {
                db.set(key, DbValue::from_str(text.as_str()));
                Reply::SetOk
            },
            DataType::Int => match parse_i64(text.as_str()) {
                Some(i) => {
                    db.set(key, DbValue::from_i64(i));
                    Reply::SetOk
                },
                None => Reply::InvalidInt,
            },
            DataType::Bool => match parse_bool(text.as_str()) {
                Some(b) => {
                    db.set(key, DbValue::from_bool(b));
                    Reply::SetOk
                },
                None => Reply::InvalidBool,
            },
            DataType::Float => Reply::FloatPending { key, text },
        },
        Command::SetUsage => Reply::SetUsage,
        Command::InvalidType => Reply::InvalidType,
        Command::Debug => Reply::Listing,
        Command::Unknown => Reply::UnknownCommand,
    }
}

/// Finishes a `SET` of a float: stores the bit pattern that its text parsed
/// to, or reports that it did not parse.
pub fn set_float(db: &mut Database, key: String, bits: Option<u64>) -> (r: Reply)
    requires
        old(db).wf(),
    ensures
        final(db).wf(),
        (final(db)@, r@) == float_step(old(db)@, key@, bits),
{
    match bits {
        Some(b) => {
            db.set(key, DbValue::from_float_bits(b));
            Reply::SetOk
        },
        None => Reply::InvalidFloat,
    }
}

/// Parses one line and applies it to a database.
pub fn process(line: &str, db: &mut Database) -> (r: Reply)
    requires
        old(db).wf(),
    ensures
        final(db).wf(),
        (final(db)@, r@) == step(old(db)@, command_of(tokens(line@))),
{
    let c = parse_command(line);
    execute(db, c)
}

/// The line that answers a reply, where it is a fixed text or a value that
/// is not a float. A float's rendering, the listing of `DEBUG` and a pending
/// float are left to the caller, and a blank line is answered by nothing.
pub open spec fn message_of(r: ReplyView) -> Option<Seq<char>> {
    match r {
        ReplyView::Silent => None,
        ReplyView::Found { key, value } => match value {
            ShownView::Text(t) => Some(key + ": "@ + t),
            ShownView::Int(i) => Some(key + ": "@ + int_text(i as int)),
            ShownView::Bool(b) => Some(
                key + ": "@ + if b {
                    "true"@
                } else {
                    "false"@
                },
            ),
            ShownView::FloatBits(_) => None,
            ShownView::Malformed => Some("Stored value cannot be decoded"@),
        },
        ReplyView::KeyNotFound => Some("Key not found"@),
        ReplyView::GetUsage => Some("Usage: GET <key>"@),
        ReplyView::SetUsage => Some("Usage: SET <key> <type> <value>\nTypes: str, int, float, bool"@),
        ReplyView::SetOk => Some("SET successful"@),
        ReplyView::InvalidInt => Some("Invalid integer value"@),
        ReplyView::InvalidFloat => Some("Invalid float value"@),
        ReplyView::InvalidBool => Some("Invalid boolean value (use 'true' or 'false')"@),
        ReplyView::InvalidType => Some("Invalid type. Use: str, int, float, bool"@),
        ReplyView::UnknownCommand => Some("Unknown command"@),
        ReplyView::Listing => None,
        ReplyView::FloatPending { .. } => None,
    }
}

impl Reply {
    /// The text that answers this reply; see [`message_of`].
    pub fn message(&self) -> (r: Option<String>)
        ensures
            r is Some <==> message_of(self@) is Some,
            r matches Some(s) ==> message_of(self@) == Some(s@),
    {
        match self {
            Reply::Silent => None,
            Reply::Found { key, value } => {
                let shown: Option<String> = match value {
                    Shown::Text(t) => Some(t.clone()),
                    Shown::Int(i) => Some(i64_to_text(*i)),
                    Shown::Bool(b) => Some(
                        if *b {
                            String::from_str("true")
                        } else {
                            String::from_str("false")
                        },
                    ),
                    Shown::FloatBits(_) => None,
                    Shown::Malformed => return Some(String::from_str("Stored value cannot be decoded")),
                };
                match shown {
                    Some(t) => {
                        let mut line = key.clone();
                        line.append(": ");
                        line.append(t.as_str());
                        Some(line)
                    },
                    None => None,
                }
            },
            Reply::KeyNotFound => Some(String::from_str("Key not found")),
            Reply::GetUsage => Some(String::from_str("Usage: GET <key>")),
            Reply::SetUsage => Some(String::from_str("Usage: SET <key> <type> <value>\nTypes: str, int, float, bool")),
            Reply::SetOk => Some(String::from_str("SET successful")),
            Reply::InvalidInt => Some(String::from_str("Invalid integer value")),
            Reply::InvalidFloat => Some(String::from_str("Invalid float value")),
            Reply::InvalidBool => Some(String::from_str("Invalid boolean value (use 'true' or 'false')")),
            Reply::InvalidType => Some(String::from_str("Invalid type. Use: str, int, float, bool")),
            Reply::UnknownCommand => Some(String::from_str("Unknown command")),
            Reply::Listing => None,
            Reply::FloatPending { .. } => None,
        }
    }
}

/// A later `SET` of a key replaces its value whole: once it succeeds, a `GET`
/// of the key answers as it would on an empty database that saw only that
/// `SET`, whatever the database held and whatever the earlier `SET` wrote.
pub proof fn lemma_overwrite_replaces(
    m: Contents,
    key: Seq<char>,
    first: CommandView,
    second: CommandView,
)
    requires
        first matches CommandView::SetValue { key: k, .. } && k == key,
        second matches CommandView::SetValue { key: k, .. } && k == key,
        step(step(m, first).0, second).1 is SetOk,
    ensures
        step(step(step(m, first).0, second).0, CommandView::Get { key }).1 == step(
            step(Map::empty(), second).0,
            CommandView::Get { key },
        ).1,
{
}

/// `GET` changes nothing, so asking again with no `SET` between gives the
/// same answer.
pub proof fn lemma_get_idempotent(m: Contents, key: Seq<char>)
    ensures
        step(m, CommandView::Get { key }).0 == m,
        step(step(m, CommandView::Get { key }).0, CommandView::Get { key }) == step(
            m,
            CommandView::Get { key },
        ),
{
}

/// A `GET` of a key that is not stored answers that the key is not found and
/// leaves the database as it was.
pub proof fn lemma_unknown_key(m: Contents, key: Seq<char>)
    requires
        !m.contains_key(key),
    ensures
        step(m, CommandView::Get { key }) == (m, ReplyView::KeyNotFound),
        message_of(ReplyView::KeyNotFound) == Some("Key not found"@),
{
}

/// A `GET` line without a key, and a `SET` line with fewer than three
/// arguments, are answered with their usage and leave the database as it was.
pub proof fn lemma_usage_gating(m: Contents, line: Seq<char>)
    ensures
        ({
            let ts = tokens(line);
            &&& ts.len() == 1 && kind_of(upper_of(ts[0])) == CommandKind::Get ==> step(
                m,
                command_of(ts),
            ) == (m, ReplyView::GetUsage)
            &&& 1 <= ts.len() < 4 && kind_of(upper_of(ts[0])) == CommandKind::SetValue ==> step(
                m,
                command_of(ts),
            ) == (m, ReplyView::SetUsage)
        }),
{
}

} // verus!
