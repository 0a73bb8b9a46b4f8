use quaint::ast::{
    Column, Comparable, ConditionTree, Joinable, Orderable, ParameterizedValue, ScalarLike, Select,
};
use quaint::visitor::Sqlite;

fn expected_values<T>(sql: &'static str, params: Vec<T>) -> (String, Vec<ParameterizedValue>)
where
    T: ScalarLike,
{
    (
        String::from(sql),
        params.into_iter().map(|p| p.into_scalar()).collect(),
    )
}

fn default_params(mut additional: Vec<ParameterizedValue>) -> Vec<ParameterizedValue> {
    let mut result = Vec::new();

    for param in additional.drain(0..) {
        result.push(param)
    }

    result
}

#[test]
fn test_select_1() {
    let expected = expected_values("SELECT ?", vec![1]);

    let query = Select::default().value(1);
    let (sql, params) = Sqlite::build(query);

    assert_eq!(expected.0, sql);
    assert_eq!(expected.1, params);
}

#[test]
fn test_select_star_from() {
    let expected_sql = "SELECT `musti`.* FROM `musti`";
    let query = Select::from_table("musti");
    let (sql, params) = Sqlite::build(query);

    assert_eq!(expected_sql, sql);
    assert_eq!(default_params(vec![]), params);
}

#[test]
fn test_select_order_by() {
    let expected_sql = "SELECT `musti`.* FROM `musti` ORDER BY `foo`, `baz` ASC, `bar` DESC";
    let query = Select::from_table("musti")
        .order_by("foo")
        .order_by("baz".ascend())
        .order_by("bar".descend());
    let (sql, params) = Sqlite::build(query);

    assert_eq!(expected_sql, sql);
    assert_eq!(default_params(vec![]), params);
}

#[test]
fn test_select_fields_from() {
    let expected_sql = "SELECT `paw`, `nose` FROM `cat`.`musti`";
    let query = Select::from_table(("cat", "musti"))
        .column("paw")
        .column("nose");
    let (sql, params) = Sqlite::build(query);

    assert_eq!(expected_sql, sql);
    assert_eq!(default_params(vec![]), params);
}

#[test]
fn test_select_where_equals() {
    let expected = expected_values(
        "SELECT `naukio`.* FROM `naukio` WHERE `word` = ?",
        vec!["meow"],
    );

    let query = Select::from_table("naukio").so_that("word".equals("meow"));
    let (sql, params) = Sqlite::build(query);

    assert_eq!(expected.0, sql);
    assert_eq!(default_params(expected.1), params);
}

#[test]
fn test_select_where_like() {
    let expected = expected_values(
        "SELECT `naukio`.* FROM `naukio` WHERE `word` LIKE ?",
        vec!["%meow%"],
    );

    let query = Select::from_table("naukio").so_that("word".like("meow"));
    let (sql, params) = Sqlite::build(query);

    assert_eq!(expected.0, sql);
    assert_eq!(default_params(expected.1), params);
}

#[test]
fn test_select_where_not_like() {
    let expected = expected_values(
        "SELECT `naukio`.* FROM `naukio` WHERE `word` NOT LIKE ?",
        vec!["%meow%"],
    );

    let query = Select::from_table("naukio").so_that("word".not_like("meow"));
    let (sql, params) = Sqlite::build(query);

    assert_eq!(expected.0, sql);
    assert_eq!(default_params(expected.1), params);
}

#[test]
fn test_select_where_begins_with() {
    let expected = expected_values(
        "SELECT `naukio`.* FROM `naukio` WHERE `word` LIKE ?",
        vec!["meow%"],
    );

    let query = Select::from_table("naukio").so_that("word".begins_with("meow"));
    let (sql, params) = Sqlite::build(query);

    assert_eq!(expected.0, sql);
    assert_eq!(default_params(expected.1), params);
}

#[test]
fn test_select_where_not_begins_with() {
    let expected = expected_values(
        "SELECT `naukio`.* FROM `naukio` WHERE `word` NOT LIKE ?",
        vec!["meow%"],
    );

    let query = Select::from_table("naukio").so_that("word".not_begins_with("meow"));
    let (sql, params) = Sqlite::build(query);

    assert_eq!(expected.0, sql);
    assert_eq!(default_params(expected.1), params);
}

#[test]
fn test_select_where_ends_into() {
    let expected = expected_values(
        "SELECT `naukio`.* FROM `naukio` WHERE `word` LIKE ?",
        vec!["%meow"],
    );

    let query = Select::from_table("naukio").so_that("word".ends_into("meow"));
    let (sql, params) = Sqlite::build(query);

    assert_eq!(expected.0, sql);
    assert_eq!(default_params(expected.1), params);
}

#[test]
fn test_select_where_not_ends_into() {
    let expected = expected_values(
        "SELECT `naukio`.* FROM `naukio` WHERE `word` NOT LIKE ?",
        vec!["%meow"],
    );

    let query = Select::from_table("naukio").so_that("word".not_ends_into("meow"));
    let (sql, params) = Sqlite::build(query);

    assert_eq!(expected.0, sql);
    assert_eq!(default_params(expected.1), params);
}

#[test]
fn test_select_and() {
    let expected_sql =
        "SELECT `naukio`.* FROM `naukio` WHERE ((`word` = ? AND `age` < ?) AND `paw` = ?)";

    let expected_params = vec![
        ParameterizedValue::Text(String::from("meow")),
        ParameterizedValue::Integer(10),
        ParameterizedValue::Text(String::from("warm")),
    ];

    let conditions = "word"
        .equals("meow")
        .and("age".less_than(10))
        .and("paw".equals("warm"));

    let query = Select::from_table("naukio").so_that(conditions);

    let (sql, params) = Sqlite::build(query);

    assert_eq!(expected_sql, sql);
    assert_eq!(default_params(expected_params), params);
}

#[test]
fn test_select_and_different_execution_order() {
    let expected_sql =
        "SELECT `naukio`.* FROM `naukio` WHERE (`word` = ? AND (`age` < ? AND `paw` = ?))";

    let expected_params = vec![
        ParameterizedValue::Text(String::from("meow")),
        ParameterizedValue::Integer(10),
        ParameterizedValue::Text(String::from("warm")),
    ];

    let conditions = "word"
        .equals("meow")
        .and("age".less_than(10).and("paw".equals("warm")));

    let query = Select::from_table("naukio").so_that(conditions);

    let (sql, params) = Sqlite::build(query);

    assert_eq!(expected_sql, sql);
    assert_eq!(default_params(expected_params), params);
}

#[test]
fn test_select_or() {
    let expected_sql =
        "SELECT `naukio`.* FROM `naukio` WHERE ((`word` = ? OR `age` < ?) AND `paw` = ?)";

    let expected_params = vec![
        ParameterizedValue::Text(String::from("meow")),
        ParameterizedValue::Integer(10),
        ParameterizedValue::Text(String::from("warm")),
    ];

    let conditions = "word"
        .equals("meow")
        .or("age".less_than(10))
        .and("paw".equals("warm"));

    let query = Select::from_table("naukio").so_that(conditions);

    let (sql, params) = Sqlite::build(query);

    assert_eq!(expected_sql, sql);
    assert_eq!(default_params(expected_params), params);
}

#[test]
fn test_select_negation() {
    let expected_sql =
        "SELECT `naukio`.* FROM `naukio` WHERE (NOT ((`word` = ? OR `age` < ?) AND `paw` = ?))";

    let expected_params = vec![
        ParameterizedValue::Text(String::from("meow")),
        ParameterizedValue::Integer(10),
        ParameterizedValue::Text(String::from("warm")),
    ];

    let conditions = "word"
        .equals("meow")
        .or("age".less_than(10))
        .and("paw".equals("warm"))
        .not();

    let query = Select::from_table("naukio").so_that(conditions);

    let (sql, params) = Sqlite::build(query);

    assert_eq!(expected_sql, sql);
    assert_eq!(default_params(expected_params), params);
}

#[test]
fn test_with_raw_condition_tree() {
    let expected_sql =
        "SELECT `naukio`.* FROM `naukio` WHERE (NOT ((`word` = ? OR `age` < ?) AND `paw` = ?))";

    let expected_params = vec![
        ParameterizedValue::Text(String::from("meow")),
        ParameterizedValue::Integer(10),
        ParameterizedValue::Text(String::from("warm")),
    ];

    let conditions = ConditionTree::not(ConditionTree::and(
        ConditionTree::or("word".equals("meow"), "age".less_than(10)),
        "paw".equals("warm"),
    ));

    let query = Select::from_table("naukio").so_that(conditions);

    let (sql, params) = Sqlite::build(query);

    assert_eq!(expected_sql, sql);
    assert_eq!(default_params(expected_params), params);
}

#[test]
fn test_simple_inner_join() {
    let expected_sql =
        "SELECT `users`.* FROM `users` INNER JOIN `posts` ON `users`.`id` = `posts`.`user_id`";

    let query = Select::from_table("users")
        .inner_join("posts".on(("users", "id").equals(Column::from(("posts", "user_id")))));
    let (sql, _) = Sqlite::build(query);

    assert_eq!(expected_sql, sql);
}

#[test]
fn test_additional_condition_inner_join() {
    let expected_sql =
        "SELECT `users`.* FROM `users` INNER JOIN `posts` ON (`users`.`id` = `posts`.`user_id` AND `posts`.`published` = ?)";

    let query = Select::from_table("users").inner_join(
        "posts".on(("users", "id")
            .equals(Column::from(("posts", "user_id")))
            .and(("posts", "published").equals(true))),
    );

    let (sql, params) = Sqlite::build(query);

    assert_eq!(expected_sql, sql);
    assert_eq!(
        default_params(vec![ParameterizedValue::Boolean(true),]),
        params
    );
}

#[test]
fn test_simple_left_join() {
    let expected_sql =
        "SELECT `users`.* FROM `users` LEFT OUTER JOIN `posts` ON `users`.`id` = `posts`.`user_id`";

    let query = Select::from_table("users").left_outer_join(
        "posts".on(("users", "id").equals(Column::from(("posts", "user_id")))),
    );
    let (sql, _) = Sqlite::build(query);

    assert_eq!(expected_sql, sql);
}

#[test]
fn test_additional_condition_left_join() {
    let expected_sql =
        "SELECT `users`.* FROM `users` LEFT OUTER JOIN `posts` ON (`users`.`id` = `posts`.`user_id` AND `posts`.`published` = ?)";

    let query = Select::from_table("users").left_outer_join(
        "posts".on(("users", "id")
            .equals(Column::from(("posts", "user_id")))
            .and(("posts", "published").equals(true))),
    );

    let (sql, params) = Sqlite::build(query);

    assert_eq!(expected_sql, sql);
    assert_eq!(
        default_params(vec![ParameterizedValue::Boolean(true),]),
        params
    );
}

#[test]
fn test_column_aliasing() {
    let expected_sql = "SELECT `bar` AS `foo` FROM `meow`";
    let query = Select::from_table("meow").column(Column::new("bar").alias("foo"));
    let (sql, _) = Sqlite::build(query);

    assert_eq!(expected_sql, sql);
}
