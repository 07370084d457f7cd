use rustcache::cli::{
    command_handler, command_handler_at, execute_at, parse_command, split_words, Command, CommandError, Reply,
};
use rustcache::map_model::{KeyValueStore, Value};
use rustcache::model::StoreError;

fn words(line: &str) -> Vec<String> {
    split_words(line)
}

fn run(map: &mut KeyValueStore, line: &str, now: i64) -> Result<Reply, CommandError> {
    command_handler_at(&words(line), map, now)
}

#[test]
pub fn test_set_string() {
    let parts = words("SET name mahesh");

    let mut map = KeyValueStore::new();

    let reply = command_handler(&parts, &mut map);
    assert_eq!(reply, Ok(Reply::Inserted(false)));
    assert_eq!(map.get_value("name"), Value::String("mahesh".to_string()));
}

#[test]
fn scenario_set_then_get() {
    let mut map = KeyValueStore::new();
    assert_eq!(run(&mut map, "SET x 10", 0), Ok(Reply::Inserted(false)));
    assert_eq!(run(&mut map, "GET x", 0), Ok(Reply::Found(Value::Integer(10))));
}

#[test]
fn scenario_set_with_expiry() {
    let mut map = KeyValueStore::new();
    assert_eq!(run(&mut map, "SET x 10 EX 5", 0), Ok(Reply::Inserted(false)));
    assert_eq!(run(&mut map, "TTL x", 0), Ok(Reply::Ttl(5)));
    assert_eq!(run(&mut map, "GET x", 6), Ok(Reply::Found(Value::Nil)));
}

#[test]
fn scenario_increment_absent() {
    let mut map = KeyValueStore::new();
    assert_eq!(run(&mut map, "INCR y", 0), Ok(Reply::Incremented(1)));
    assert_eq!(run(&mut map, "GET y", 0), Ok(Reply::Found(Value::Integer(1))));
    assert_eq!(run(&mut map, "INCR y", 0), Ok(Reply::Incremented(2)));
    assert_eq!(run(&mut map, "GET y", 0), Ok(Reply::Found(Value::Integer(2))));
}

#[test]
fn scenario_increment_string() {
    let mut map = KeyValueStore::new();
    run(&mut map, "SET s hello", 0).unwrap();
    assert_eq!(run(&mut map, "INCR s", 0), Ok(Reply::Rejected(StoreError::WrongType)));
    assert_eq!(run(&mut map, "GET s", 0), Ok(Reply::Found(Value::String("hello".to_string()))));
}

#[test]
fn scenario_push_and_range() {
    let mut map = KeyValueStore::new();
    assert_eq!(run(&mut map, "LPUSH l a", 0), Ok(Reply::Pushed));
    assert_eq!(run(&mut map, "LPUSH l b", 0), Ok(Reply::Pushed));
    assert_eq!(
        run(&mut map, "LRANGE l 0 1", 0),
        Ok(Reply::Range(vec!["b".to_string(), "a".to_string()]))
    );
}

#[test]
fn scenario_expire_missing() {
    let mut map = KeyValueStore::new();
    assert_eq!(run(&mut map, "EXPIRE missing 10", 0), Ok(Reply::Expire(-2)));
    assert_eq!(run(&mut map, "TTL missing", 0), Ok(Reply::Ttl(-2)));
}

#[test]
fn expire_existing_key() {
    let mut map = KeyValueStore::new();
    run(&mut map, "SET k v", 0).unwrap();
    assert_eq!(run(&mut map, "EXPIRE k 10", 0), Ok(Reply::Expire(0)));
    assert_eq!(run(&mut map, "EXPIRE k 20", 0), Ok(Reply::Expire(-1)));
    assert_eq!(run(&mut map, "TTL k", 5), Ok(Reply::Ttl(15)));
}

#[test]
fn type_and_delete_commands() {
    let mut map = KeyValueStore::new();
    run(&mut map, "SET k v", 0).unwrap();
    assert_eq!(run(&mut map, "TYPE k", 0), Ok(Reply::Type("String")));
    assert_eq!(run(&mut map, "DEL k", 0), Ok(Reply::Removed(true)));
    assert_eq!(run(&mut map, "DEL k", 0), Ok(Reply::Removed(false)));
    assert_eq!(run(&mut map, "TYPE k", 0), Ok(Reply::Type("Nil")));
}

#[test]
fn dis_and_exit_commands() {
    let mut map = KeyValueStore::new();
    assert_eq!(run(&mut map, "DIS", 0), Ok(Reply::Dump));
    assert_eq!(run(&mut map, "EXIT", 0), Ok(Reply::Exit));
}

#[test]
fn range_command_errors() {
    let mut map = KeyValueStore::new();
    run(&mut map, "SET n 3", 0).unwrap();
    assert_eq!(run(&mut map, "LRANGE n 0 0", 0), Ok(Reply::Rejected(StoreError::WrongType)));
    assert_eq!(run(&mut map, "LRANGE none 0 0", 0), Ok(Reply::Rejected(StoreError::KeyNotFound)));
    run(&mut map, "LPUSH l a", 0).unwrap();
    assert_eq!(run(&mut map, "LRANGE l 0 5", 0), Ok(Reply::Rejected(StoreError::OutOfRange)));
    assert_eq!(run(&mut map, "LRANGE l -1 0", 0), Err(CommandError::NotANumber));
    assert_eq!(run(&mut map, "LRANGE l +0 0", 0), Ok(Reply::Range(vec!["a".to_string()])));
}

#[test]
fn syntax_errors_leave_store_alone() {
    let mut map = KeyValueStore::new();
    assert_eq!(run(&mut map, "", 0), Err(CommandError::Empty));
    assert_eq!(run(&mut map, "SET x", 0), Err(CommandError::Arity));
    assert_eq!(run(&mut map, "SET x 1 EX", 0), Err(CommandError::Arity));
    assert_eq!(run(&mut map, "SET x 1 PX 5", 0), Err(CommandError::Syntax));
    assert_eq!(run(&mut map, "SET x 1 EX five", 0), Err(CommandError::NotANumber));
    assert_eq!(run(&mut map, "SET x 1 EX 1", 0), Err(CommandError::SecondsTooSmall));
    assert_eq!(run(&mut map, "EXPIRE x 0", 0), Err(CommandError::SecondsTooSmall));
    assert_eq!(run(&mut map, "EXPIRE x ten", 0), Err(CommandError::NotANumber));
    assert_eq!(run(&mut map, "GET", 0), Err(CommandError::Arity));
    assert_eq!(run(&mut map, "FLUSH", 0), Err(CommandError::Unknown));
    assert_eq!(map.get_value_at("x", 0), Value::Nil);
}

#[test]
fn set_value_words() {
    let mut map = KeyValueStore::new();
    run(&mut map, "SET a -42", 0).unwrap();
    run(&mut map, "SET b +7", 0).unwrap();
    run(&mut map, "SET c 12ab", 0).unwrap();
    run(&mut map, "SET d 9223372036854775808", 0).unwrap();
    run(&mut map, "SET e -9223372036854775808", 0).unwrap();
    assert_eq!(map.get_value_at("a", 0), Value::Integer(-42));
    assert_eq!(map.get_value_at("b", 0), Value::Integer(7));
    assert_eq!(map.get_value_at("c", 0), Value::String("12ab".to_string()));
    assert_eq!(
        map.get_value_at("d", 0),
        Value::String("9223372036854775808".to_string())
    );
    assert_eq!(map.get_value_at("e", 0), Value::Integer(i64::MIN));
}

#[test]
fn parse_then_execute() {
    let cmd = parse_command(&words("SET k 5 EX 100")).unwrap();
    assert_eq!(cmd, Command::SetKey("k".to_string(), Value::Integer(5), Some(100)));
    let mut map = KeyValueStore::new();
    assert_eq!(execute_at(&mut map, cmd, 50), Reply::Inserted(false));
    assert_eq!(map.get_ttl_at("k", 50), 100);
}

#[test]
fn split_words_drops_runs_of_spaces() {
    assert_eq!(split_words("  SET   k  v "), vec!["SET".to_string(), "k".to_string(), "v".to_string()]);
    assert_eq!(split_words(""), Vec::<String>::new());
    assert_eq!(split_words("   "), Vec::<String>::new());
    assert_eq!(split_words("GET"), vec!["GET".to_string()]);
    assert_eq!(split_words("a\tb c"), vec!["a\tb".to_string(), "c".to_string()]);
}

#[test]
fn command_type_is_nil_only_for_missing_or_expired() {
    let mut map = KeyValueStore::new();
    assert_eq!(run(&mut map, "TYPE k", 0), Ok(Reply::Type("Nil")));
    run(&mut map, "SET k 1 EX 5", 0).unwrap();
    assert_eq!(run(&mut map, "TYPE k", 4), Ok(Reply::Type("Integer")));
    assert_eq!(run(&mut map, "TYPE k", 5), Ok(Reply::Type("Nil")));
}

#[test]
fn dis_and_exit_take_no_arguments() {
    let mut map = KeyValueStore::new();
    assert_eq!(run(&mut map, "DIS now", 0), Err(CommandError::Arity));
    assert_eq!(run(&mut map, "EXIT 0", 0), Err(CommandError::Arity));
}
