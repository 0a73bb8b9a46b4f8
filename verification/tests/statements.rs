use quaint::ast::{
    aggregate_to_string, asterisk, count, Column, Comparable, ConditionTree, DatabaseValue, Delete,
    Insert, Joinable, OnConflict, Orderable, ParameterizedValue, Query, QueryLike, Row, Select,
    Table, Update,
};
use quaint::visitor::Sqlite;

fn text(s: &str) -> ParameterizedValue {
    ParameterizedValue::Text(String::from(s))
}

#[test]
fn select_without_table_or_values_is_a_star() {
    let (sql, params) = Sqlite::build(Select::default());
    assert_eq!("SELECT *", sql);
    assert!(params.is_empty());
}

#[test]
fn offset_without_limit_binds_minus_one() {
    let (sql, params) = Sqlite::build(Select::from_table("x").offset(10));
    assert_eq!("SELECT `x`.* FROM `x` LIMIT ? OFFSET ?", sql);
    assert_eq!(
        vec![ParameterizedValue::Integer(-1), ParameterizedValue::Integer(10)],
        params
    );
}

#[test]
fn limit_alone_and_limit_with_offset() {
    let (sql, params) = Sqlite::build(Select::from_table("x").limit(5));
    assert_eq!("SELECT `x`.* FROM `x` LIMIT ?", sql);
    assert_eq!(vec![ParameterizedValue::Integer(5)], params);

    let (sql, params) = Sqlite::build(Select::from_table("x").offset(7).limit(5));
    assert_eq!("SELECT `x`.* FROM `x` LIMIT ? OFFSET ?", sql);
    assert_eq!(
        vec![ParameterizedValue::Integer(5), ParameterizedValue::Integer(7)],
        params
    );
}

#[test]
fn quote_characters_in_identifiers_are_doubled() {
    let (sql, params) = Sqlite::build(Select::from_table("a`b").column("c``d"));
    assert_eq!("SELECT `c````d` FROM `a``b`", sql);
    assert!(params.is_empty());
}

#[test]
fn text_values_never_enter_the_sql() {
    let hostile = "'; DROP TABLE users; --";
    let (sql, params) = Sqlite::build(Select::from_table("users").so_that("name".equals(hostile)));
    assert_eq!("SELECT `users`.* FROM `users` WHERE `name` = ?", sql);
    assert_eq!(vec![text(hostile)], params);

    let (other, _) = Sqlite::build(Select::from_table("users").so_that("name".equals(42)));
    assert_eq!(sql, other);
}

#[test]
fn markers_and_parameters_agree_in_number() {
    let conditions = "a"
        .equals(1)
        .and("b".between(2, 3))
        .or("c".in_selection(Row::new().push(4).push("five").push(true)));
    let query = Select::from_table("t")
        .value(6)
        .so_that(conditions)
        .limit(7)
        .offset(8);
    let (sql, params) = Sqlite::build(query);
    assert_eq!(
        "SELECT ? FROM `t` WHERE ((`a` = ? AND `b` BETWEEN ? AND ?) OR `c` IN (?, ?, ?)) LIMIT ? OFFSET ?",
        sql
    );
    assert_eq!(sql.matches('?').count(), params.len());
    assert_eq!(
        vec![
            ParameterizedValue::Integer(6),
            ParameterizedValue::Integer(1),
            ParameterizedValue::Integer(2),
            ParameterizedValue::Integer(3),
            ParameterizedValue::Integer(4),
            text("five"),
            ParameterizedValue::Boolean(true),
            ParameterizedValue::Integer(7),
            ParameterizedValue::Integer(8),
        ],
        params
    );
}

#[test]
fn no_condition_is_written_as_nothing() {
    let (sql, _) = Sqlite::build(Select::from_table("t").so_that(ConditionTree::NoCondition));
    assert_eq!("SELECT `t`.* FROM `t`", sql);

    let left = ConditionTree::NoCondition.and("a".equals(1));
    let (sql, params) = Sqlite::build(Select::from_table("t").so_that(left));
    assert_eq!("SELECT `t`.* FROM `t` WHERE `a` = ?", sql);
    assert_eq!(vec![ParameterizedValue::Integer(1)], params);

    let right = "a".equals(1).or(ConditionTree::NoCondition);
    let (sql, _) = Sqlite::build(Select::from_table("t").so_that(right));
    assert_eq!("SELECT `t`.* FROM `t` WHERE `a` = ?", sql);

    let negated = ConditionTree::NoCondition.not();
    let (sql, _) = Sqlite::build(Select::from_table("t").so_that(negated));
    assert_eq!("SELECT `t`.* FROM `t`", sql);
}

#[test]
fn comparisons_are_written_with_their_operators() {
    let cases = vec![
        ("a".not_equals(1), "`a` <> ?"),
        ("a".less_than_or_equals(1), "`a` <= ?"),
        ("a".greater_than(1), "`a` > ?"),
        ("a".greater_than_or_equals(1), "`a` >= ?"),
        ("a".not_in_selection(Row::new().push(1)), "`a` NOT IN (?)"),
        ("a".is_null(), "`a` IS NULL"),
        ("a".is_not_null(), "`a` IS NOT NULL"),
        ("a".not_between(1, 2), "`a` NOT BETWEEN ? AND ?"),
    ];
    for (condition, expected) in cases {
        let (sql, _) = Sqlite::build(Select::from_table("t").so_that(condition));
        assert_eq!(format!("SELECT `t`.* FROM `t` WHERE {}", expected), sql);
    }
}

#[test]
fn grouping_having_and_functions() {
    let query = Select::from_table("cats")
        .column("owner")
        .value(count(asterisk()).alias("n"))
        .value(aggregate_to_string(Column::new("name")))
        .group_by("owner")
        .having("age".greater_than(3))
        .order_by("owner".descend());
    let (sql, params) = Sqlite::build(query);
    assert_eq!(
        "SELECT `owner`, COUNT(*) AS `n`, group_concat(`name`) FROM `cats` GROUP BY `owner` HAVING `age` > ? ORDER BY `owner` DESC",
        sql
    );
    assert_eq!(vec![ParameterizedValue::Integer(3)], params);
}

#[test]
fn arithmetic_and_table_asterisk() {
    let join = "dogs".on(("dogs", "slave_id").equals(Column::from(("cats", "master_id"))));
    let query = Select::from_table("cats")
        .value(Table::from("cats").asterisk())
        .value(DatabaseValue::from(Column::from(("dogs", "age"))).minus(4))
        .inner_join(join);
    let (sql, params) = Sqlite::build(query);
    assert_eq!(
        "SELECT `cats`.*, (`dogs`.`age` - ?) FROM `cats` INNER JOIN `dogs` ON `dogs`.`slave_id` = `cats`.`master_id`",
        sql
    );
    assert_eq!(vec![ParameterizedValue::Integer(4)], params);
}

#[test]
fn derived_tables_and_subselects_bind_in_the_order_of_the_text() {
    let inner = Select::from_table("cats").so_that("age".less_than(2));
    let query = Select::from_table(Table::from(inner).alias("kittens"))
        .value(7)
        .so_that("id".in_selection(Select::from_table("owners").column("cat").so_that("rich".equals(true))));
    let (sql, params) = Sqlite::build(query);
    assert_eq!(
        "SELECT ? FROM (SELECT `cats`.* FROM `cats` WHERE `age` < ?) AS `kittens` WHERE `id` IN (SELECT `cat` FROM `owners` WHERE `rich` = ?)",
        sql
    );
    assert_eq!(
        vec![
            ParameterizedValue::Integer(7),
            ParameterizedValue::Integer(2),
            ParameterizedValue::Boolean(true),
        ],
        params
    );
}

#[test]
fn a_derived_table_without_values_selects_through_its_alias() {
    let inner = Select::from_table("cats");
    let (sql, _) = Sqlite::build(Select::from_table(Table::from(inner).alias("c")));
    assert_eq!("SELECT `c`.* FROM (SELECT `cats`.* FROM `cats`) AS `c`", sql);

    let inner = Select::from_table("cats");
    let (sql, _) = Sqlite::build(Select::from_table(inner));
    assert_eq!("SELECT * FROM (SELECT `cats`.* FROM `cats`)", sql);
}

#[test]
fn raw_sql_is_written_as_it_stands() {
    let query = Select::default().value(DatabaseValue::raw("CURRENT_TIMESTAMP"));
    let (sql, params) = Sqlite::build(query);
    assert_eq!("SELECT CURRENT_TIMESTAMP", sql);
    assert!(params.is_empty());
}

#[test]
fn insert_of_one_row() {
    let insert = Insert::single_into("users")
        .value("id", 1)
        .value("name", "Alice")
        .value("nice", true);
    let (sql, params) = Sqlite::build(insert);
    assert_eq!(
        "INSERT INTO `users` (`id`, `name`, `nice`) VALUES (?, ?, ?)",
        sql
    );
    assert_eq!(
        vec![
            ParameterizedValue::Integer(1),
            text("Alice"),
            ParameterizedValue::Boolean(true),
        ],
        params
    );
}

#[test]
fn insert_values_bind_in_the_order_in_which_they_were_added() {
    let (first_sql, first) = Sqlite::build(Insert::single_into("t").value("a", 1).value("b", "two"));
    let (second_sql, second) =
        Sqlite::build(Insert::single_into("t").value("b", "two").value("a", 1));
    assert_eq!("INSERT INTO `t` (`a`, `b`) VALUES (?, ?)", first_sql);
    assert_eq!("INSERT INTO `t` (`b`, `a`) VALUES (?, ?)", second_sql);
    assert_eq!(vec![ParameterizedValue::Integer(1), text("two")], first);
    assert_eq!(vec![text("two"), ParameterizedValue::Integer(1)], second);
}

#[test]
fn insert_without_values_inserts_defaults() {
    let (sql, params) = Sqlite::build(Insert::single_into(("main", "users")));
    assert_eq!("INSERT INTO `main`.`users` DEFAULT VALUES", sql);
    assert!(params.is_empty());
}

#[test]
fn insert_that_does_nothing_on_conflict() {
    let insert = Insert::single_into("users")
        .value("id", 1)
        .build()
        .on_conflict(OnConflict::DoNothing);
    let (sql, params) = Sqlite::build(insert);
    assert_eq!("INSERT OR IGNORE INTO `users` (`id`) VALUES (?)", sql);
    assert!(sql.contains("INSERT OR IGNORE"));
    assert_eq!(vec![ParameterizedValue::Integer(1)], params);

    let defaults = Insert::single_into("users")
        .build()
        .on_conflict(OnConflict::DoNothing);
    let (sql, _) = Sqlite::build(defaults);
    assert_eq!("INSERT OR IGNORE INTO `users` DEFAULT VALUES", sql);
}

#[test]
fn insert_of_several_rows() {
    let insert = Insert::multi_into("users", vec![Column::new("id"), Column::new("name")])
        .values(Row::new().push(1).push("Alice"))
        .values(Row::new().push(2).push("Bob"));
    let (sql, params) = Sqlite::build(insert);
    assert_eq!(
        "INSERT INTO `users` (`id`, `name`) VALUES (?, ?), (?, ?)",
        sql
    );
    assert_eq!(
        vec![
            ParameterizedValue::Integer(1),
            text("Alice"),
            ParameterizedValue::Integer(2),
            text("Bob"),
        ],
        params
    );
}

#[test]
fn column_builders() {
    let column = Column::new("id").table("users").alias("uid");
    assert_eq!("id", column.name);
    assert_eq!(Some(Table::from("users")), column.table);
    assert_eq!(Some(String::from("uid")), column.alias);

    let unqualified = Column::new(String::from("id")).opt_table(None::<&str>);
    assert_eq!(None, unqualified.table);
    let qualified = Column::new("id").opt_table(Some("users"));
    assert_eq!(Column::from(("users", "id")), qualified);
    assert_eq!(Column::from("id"), Column::new("id"));
}

#[test]
fn aliases_are_written_in_projections_only() {
    let aliased = Column::new("bar").alias("foo");
    let query = Select::from_table("meow").so_that(aliased.equals(1));
    let (sql, _) = Sqlite::build(query);
    assert_eq!("SELECT `meow`.* FROM `meow` WHERE `bar` = ?", sql);
}

#[test]
fn update_sets_columns_in_order() {
    let update = Update::table("users")
        .set("name", "Bob")
        .set("age", 7)
        .so_that("id".equals(1));
    let (sql, params) = Sqlite::build(update);
    assert_eq!("UPDATE `users` SET `name` = ?, `age` = ? WHERE `id` = ?", sql);
    assert_eq!(
        vec![
            text("Bob"),
            ParameterizedValue::Integer(7),
            ParameterizedValue::Integer(1),
        ],
        params
    );
}

#[test]
fn delete_with_and_without_condition() {
    let (sql, params) = Sqlite::build(Delete::from_table("users"));
    assert_eq!("DELETE FROM `users`", sql);
    assert!(params.is_empty());

    let (sql, params) = Sqlite::build(Delete::from_table("users").so_that("id".less_than(3)));
    assert_eq!("DELETE FROM `users` WHERE `id` < ?", sql);
    assert_eq!(vec![ParameterizedValue::Integer(3)], params);
}

#[test]
fn rows_that_do_not_match_the_columns_are_found() {
    let good = Insert::multi_into("t", vec![Column::new("a"), Column::new("b")])
        .values(Row::new().push(1).push(2))
        .build();
    assert!(good.is_well_formed());
    let bad = Insert::multi_into("t", vec![Column::new("a"), Column::new("b")])
        .values(Row::new().push(1).push(2))
        .values(Row::new().push(3))
        .build();
    assert!(!bad.is_well_formed());
    assert!(!Query::Insert(bad).is_well_formed());
    assert!(Select::from_table("t").into_query().is_well_formed());
}

#[test]
fn copies_are_equal_and_written_alike() {
    let inner = Select::from_table("cats").so_that("age".less_than(2));
    let query = Select::from_table(Table::from(inner).alias("kittens"))
        .column(Column::new("name").alias("n"))
        .value(count(asterisk()))
        .inner_join("owners".on(("owners", "cat").equals(Column::from(("kittens", "id")))))
        .so_that("name".like("x").and("id".between(1, 9)).not())
        .group_by("name")
        .order_by("name".ascend())
        .limit(3);
    let copy = query.clone();
    assert_eq!(query, copy);
    assert_eq!(Sqlite::build(query), Sqlite::build(copy));

    let insert = Insert::single_into("t").value("a", 1).build();
    assert_eq!(insert, insert.clone());
    let update = Update::table("t").set("a", 1);
    assert_eq!(update, update.clone());
    let delete = Delete::from_table("t").so_that("a".equals(1));
    assert_eq!(delete, delete.clone());
    assert_eq!(Column::default(), Column::new(""));
}
