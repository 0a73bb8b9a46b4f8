use quaint::ast::{Comparable, Insert, ParameterizedValue, Select};
use quaint::bind::{BindError, SqliteValue};
use quaint::visitor::Sqlite;

#[test]
fn scalars_are_bound_as_sqlite_stores_them() {
    assert_eq!(Ok(SqliteValue::Null), ParameterizedValue::Null.to_sql());
    assert_eq!(
        Ok(SqliteValue::Integer(-7)),
        ParameterizedValue::Integer(-7).to_sql()
    );
    assert_eq!(
        Ok(SqliteValue::Real(42.69f64.to_bits())),
        ParameterizedValue::Real(42.69f64.to_bits()).to_sql()
    );
    assert_eq!(
        Ok(SqliteValue::Text(String::from("meow"))),
        ParameterizedValue::Text(String::from("meow")).to_sql()
    );
}

#[test]
fn booleans_are_bound_as_one_and_zero() {
    assert_eq!(
        Ok(SqliteValue::Integer(1)),
        ParameterizedValue::Boolean(true).to_sql()
    );
    assert_eq!(
        Ok(SqliteValue::Integer(0)),
        ParameterizedValue::Boolean(false).to_sql()
    );
}

#[test]
fn json_is_bound_as_compact_text() {
    let mut object = serde_json::Map::new();
    object.insert(
        String::from("name"),
        serde_json::Value::String(String::from("Alice")),
    );
    object.insert(
        String::from("tags"),
        serde_json::Value::Array(vec![
            serde_json::Value::Bool(true),
            serde_json::Value::Null,
            serde_json::Value::Number(serde_json::Number::from(3)),
        ]),
    );
    let document = ParameterizedValue::Json(serde_json::Value::Object(object));
    assert_eq!(
        Ok(SqliteValue::Text(String::from(
            "{\"name\":\"Alice\",\"tags\":[true,null,3]}"
        ))),
        document.to_sql()
    );
    assert_eq!(document, document.duplicate());
}

#[test]
fn a_document_that_was_not_written_is_a_conversion_error() {
    let failed: Result<String, ()> = Err(());
    assert_eq!(Err(BindError::BindConversion), quaint::bind::bind_text(failed));
    let written: Result<String, ()> = Ok(String::from("[]"));
    assert_eq!(
        Ok(SqliteValue::Text(String::from("[]"))),
        quaint::bind::bind_text(written)
    );
    assert_eq!(
        "the value could not be converted for binding",
        BindError::BindConversion.message()
    );
}

#[test]
fn sqlite_bind_test_1() {
    let insert = Insert::single_into("users")
        .value("id", 1)
        .value("name", "Alice")
        .value("age", ParameterizedValue::Real(42.69f64.to_bits()))
        .value("nice", true);
    let (sql, params) = Sqlite::build(insert);
    assert_eq!(
        "INSERT INTO `users` (`id`, `name`, `age`, `nice`) VALUES (?, ?, ?, ?)",
        sql
    );
    let bound: Vec<SqliteValue> = params.iter().map(|p| p.to_sql().unwrap()).collect();
    assert_eq!(
        vec![
            SqliteValue::Integer(1),
            SqliteValue::Text(String::from("Alice")),
            SqliteValue::Real(42.69f64.to_bits()),
            SqliteValue::Integer(1),
        ],
        bound
    );

    let conditions = "name"
        .equals("Alice")
        .and("age".less_than(ParameterizedValue::Real(100.0f64.to_bits())))
        .and("nice".equals(1));
    let query = Select::from_table("users").so_that(conditions);
    let (sql_str, params) = Sqlite::build(query);
    assert_eq!(
        "SELECT `users`.* FROM `users` WHERE ((`name` = ? AND `age` < ?) AND `nice` = ?)",
        sql_str
    );
    let bound: Vec<SqliteValue> = params.iter().map(|p| p.to_sql().unwrap()).collect();
    assert_eq!(
        vec![
            SqliteValue::Text(String::from("Alice")),
            SqliteValue::Real(100.0f64.to_bits()),
            SqliteValue::Integer(1),
        ],
        bound
    );
}

#[test]
fn integers_of_every_width_are_integer_parameters() {
    assert_eq!(ParameterizedValue::Integer(-3), ParameterizedValue::from(-3i8));
    assert_eq!(ParameterizedValue::Integer(-3), ParameterizedValue::from(-3i16));
    assert_eq!(ParameterizedValue::Integer(-3), ParameterizedValue::from(-3i32));
    assert_eq!(ParameterizedValue::Integer(-3), ParameterizedValue::from(-3i64));
    assert_eq!(ParameterizedValue::Integer(-3), ParameterizedValue::from(-3isize));
    assert_eq!(ParameterizedValue::Integer(200), ParameterizedValue::from(200u8));
    assert_eq!(
        ParameterizedValue::Integer(60000),
        ParameterizedValue::from(60000u16)
    );
    assert_eq!(
        ParameterizedValue::Integer(4000000000),
        ParameterizedValue::from(4000000000u32)
    );
    assert_eq!(
        Some(ParameterizedValue::Integer(i64::MAX)),
        ParameterizedValue::from_unsigned(i64::MAX as u64)
    );
    assert_eq!(None, ParameterizedValue::from_unsigned(i64::MAX as u64 + 1));
    assert_eq!(
        ParameterizedValue::Text(String::from("owned")),
        ParameterizedValue::from(String::from("owned"))
    );
    assert_eq!(
        ParameterizedValue::Boolean(false),
        ParameterizedValue::from(false)
    );
}
