use typed_kv::command::{
    command_kind, execute, parse_command, process, set_float, show, type_of_name, Command,
    CommandKind, Reply, Shown,
};
use typed_kv::store::Database;
use typed_kv::text::{join_from, same_text, split_tokens};
use typed_kv::value::{DataType, DbValue};

/// Runs a line as the front end does: a pending float is parsed here.
fn run(line: &str, db: &mut Database) -> Option<String> {
    match process(line, db) {
        Reply::FloatPending { key, text } => {
            let bits = text.parse::<f64>().ok().map(f64::to_bits);
            set_float(db, key, bits).message()
        }
        Reply::Found { key, value: Shown::FloatBits(b) } => {
            Some(format!("{}: {}", key, f64::from_bits(b)))
        }
        r => r.message(),
    }
}

fn line(db: &mut Database, l: &str) -> String {
    run(l, db).expect("a reply line")
}

#[test]
fn set_and_get_int() {
    let mut db = Database::new();
    assert_eq!(line(&mut db, "SET age int 42"), "SET successful");
    assert_eq!(line(&mut db, "GET age"), "age: 42");
}

#[test]
fn set_and_get_float() {
    let mut db = Database::new();
    assert_eq!(line(&mut db, "SET pi float 3.14"), "SET successful");
    assert_eq!(line(&mut db, "GET pi"), "pi: 3.14");
}

#[test]
fn set_and_get_bool() {
    let mut db = Database::new();
    assert_eq!(line(&mut db, "SET active bool true"), "SET successful");
    assert_eq!(line(&mut db, "GET active"), "active: true");
    assert_eq!(line(&mut db, "SET active bool false"), "SET successful");
    assert_eq!(line(&mut db, "GET active"), "active: false");
}

#[test]
fn set_and_get_string_with_spaces() {
    let mut db = Database::new();
    assert_eq!(line(&mut db, "SET name str Ada Lovelace"), "SET successful");
    assert_eq!(line(&mut db, "GET name"), "name: Ada Lovelace");
    assert_eq!(db.get("name").unwrap().as_string(), Some(Ok("Ada Lovelace".to_string())));
}

#[test]
fn failed_parse_leaves_prior_value() {
    let mut db = Database::new();
    assert_eq!(line(&mut db, "SET age int 42"), "SET successful");
    assert_eq!(line(&mut db, "SET age int notanumber"), "Invalid integer value");
    assert_eq!(line(&mut db, "GET age"), "age: 42");
}

#[test]
fn unknown_command() {
    let mut db = Database::new();
    assert_eq!(line(&mut db, "FOO bar"), "Unknown command");
}

#[test]
fn overwrite_replaces() {
    let mut db = Database::new();
    assert_eq!(line(&mut db, "SET k str first value"), "SET successful");
    assert_eq!(line(&mut db, "SET k int 7"), "SET successful");
    assert_eq!(line(&mut db, "GET k"), "k: 7");
    assert_eq!(line(&mut db, "SET k str x"), "SET successful");
    assert_eq!(line(&mut db, "GET k"), "k: x");
    assert_eq!(db.entries().len(), 1);
}

#[test]
fn get_is_idempotent() {
    let mut db = Database::new();
    line(&mut db, "SET a str hello");
    let first = line(&mut db, "GET a");
    let second = line(&mut db, "GET a");
    assert_eq!(first, "a: hello");
    assert_eq!(first, second);
}

#[test]
fn missing_key() {
    let mut db = Database::new();
    line(&mut db, "SET a int 1");
    assert_eq!(line(&mut db, "GET missing"), "Key not found");
    assert_eq!(db.entries().len(), 1);
    assert!(db.get("missing").is_none());
}

#[test]
fn keys_are_case_sensitive() {
    let mut db = Database::new();
    line(&mut db, "SET Key int 1");
    assert_eq!(line(&mut db, "GET key"), "Key not found");
    assert_eq!(line(&mut db, "GET Key"), "Key: 1");
}

#[test]
fn usage_messages() {
    let mut db = Database::new();
    assert_eq!(line(&mut db, "GET"), "Usage: GET <key>");
    assert_eq!(line(&mut db, "SET"), "Usage: SET <key> <type> <value>\nTypes: str, int, float, bool");
    assert_eq!(line(&mut db, "SET k"), "Usage: SET <key> <type> <value>\nTypes: str, int, float, bool");
    assert_eq!(line(&mut db, "SET k int"), "Usage: SET <key> <type> <value>\nTypes: str, int, float, bool");
    assert!(db.entries().is_empty());
}

#[test]
fn commands_ignore_case() {
    let mut db = Database::new();
    assert_eq!(line(&mut db, "set n INT -5"), "SET successful");
    assert_eq!(line(&mut db, "Get n"), "n: -5");
    assert_eq!(process("debug", &mut db).message(), None);
}

#[test]
fn type_aliases() {
    let mut db = Database::new();
    assert_eq!(line(&mut db, "SET a string x y"), "SET successful");
    assert_eq!(line(&mut db, "SET b i64 +12"), "SET successful");
    assert_eq!(line(&mut db, "SET c f64 2.5"), "SET successful");
    assert_eq!(line(&mut db, "GET a"), "a: x y");
    assert_eq!(line(&mut db, "GET b"), "b: 12");
    assert_eq!(line(&mut db, "GET c"), "c: 2.5");
}

#[test]
fn invalid_values_and_types() {
    let mut db = Database::new();
    assert_eq!(line(&mut db, "SET f float abc"), "Invalid float value");
    assert_eq!(line(&mut db, "SET b bool True"), "Invalid boolean value (use 'true' or 'false')");
    assert_eq!(line(&mut db, "SET b bool 1"), "Invalid boolean value (use 'true' or 'false')");
    assert_eq!(line(&mut db, "SET i int 1 2"), "Invalid integer value");
    assert_eq!(line(&mut db, "SET i int 9223372036854775808"), "Invalid integer value");
    assert_eq!(line(&mut db, "SET x date today"), "Invalid type. Use: str, int, float, bool");
    assert!(db.entries().is_empty());
}

#[test]
fn int_extremes() {
    let mut db = Database::new();
    assert_eq!(line(&mut db, "SET lo int -9223372036854775808"), "SET successful");
    assert_eq!(line(&mut db, "GET lo"), "lo: -9223372036854775808");
    assert_eq!(line(&mut db, "SET hi int 9223372036854775807"), "SET successful");
    assert_eq!(line(&mut db, "GET hi"), "hi: 9223372036854775807");
}

#[test]
fn blank_line_is_silent() {
    let mut db = Database::new();
    assert!(matches!(process("", &mut db), Reply::Silent));
    assert_eq!(process("", &mut db).message(), None);
}

#[test]
fn debug_lists_entries() {
    let mut db = Database::new();
    line(&mut db, "SET a int 1");
    line(&mut db, "SET b str two");
    assert!(matches!(process("DEBUG", &mut db), Reply::Listing));
    let mut keys: Vec<&str> = db.entries().iter().map(|(k, _)| k.as_str()).collect();
    keys.sort();
    assert_eq!(keys, vec!["a", "b"]);
}

#[test]
fn tokens_split_on_single_spaces() {
    let ts = split_tokens("SET  k str a  b");
    assert_eq!(ts, vec!["SET", "", "k", "str", "a", "", "b"]);
    assert!(split_tokens("").is_empty());
    assert_eq!(split_tokens("x"), vec!["x"]);
    assert_eq!(join_from(&ts, 4), "a  b");
}

#[test]
fn parse_command_shapes() {
    match parse_command("SET name str Ada Lovelace") {
        Command::SetValue { key, kind, text } => {
            assert_eq!(key, "name");
            assert_eq!(kind, DataType::String);
            assert_eq!(text, "Ada Lovelace");
        }
        other => panic!("unexpected {:?}", other),
    }
    assert!(matches!(parse_command("get"), Command::GetUsage));
    assert!(matches!(parse_command(""), Command::Empty));
    assert!(matches!(parse_command("SET a bogus 1"), Command::InvalidType));
}

#[test]
fn command_and_type_names() {
    assert_eq!(command_kind("GET"), CommandKind::Get);
    assert_eq!(command_kind("SET"), CommandKind::SetValue);
    assert_eq!(command_kind("DEBUG"), CommandKind::Debug);
    assert_eq!(command_kind("get"), CommandKind::Unknown);
    assert_eq!(type_of_name("str"), Some(DataType::String));
    assert_eq!(type_of_name("i64"), Some(DataType::Int));
    assert_eq!(type_of_name("float"), Some(DataType::Float));
    assert_eq!(type_of_name("bool"), Some(DataType::Bool));
    assert_eq!(type_of_name("STR"), None);
    assert!(same_text("abc", "abc"));
    assert!(!same_text("abc", "abd"));
}

#[test]
fn execute_and_show() {
    let mut db = Database::new();
    let r = execute(&mut db, Command::SetValue { key: "x".to_string(), kind: DataType::Bool, text: "true".to_string() });
    assert!(matches!(r, Reply::SetOk));
    assert!(matches!(show(db.get("x").unwrap()), Shown::Bool(true)));
    let bad = DbValue { typetag: DataType::String, data: vec![0xc3] };
    assert!(matches!(show(&bad), Shown::Malformed));
}

#[test]
fn malformed_value_is_reported() {
    let mut db = Database::new();
    db.set("bad".to_string(), DbValue { typetag: DataType::String, data: vec![0xff] });
    assert_eq!(line(&mut db, "GET bad"), "Stored value cannot be decoded");
}

#[test]
fn set_float_outcomes() {
    let mut db = Database::new();
    assert!(matches!(set_float(&mut db, "f".to_string(), None), Reply::InvalidFloat));
    assert!(db.get("f").is_none());
    assert!(matches!(set_float(&mut db, "f".to_string(), Some(0.25f64.to_bits())), Reply::SetOk));
    assert_eq!(db.get("f").unwrap().as_float_bits(), Some(0.25f64.to_bits()));
}
