use qorm::delete_item::DeleteConfig;
use qorm::insert_item::InsertConfig;
use qorm::select_item::SelectConfig;
use qorm::update_item::UpdateConfig;
use qorm::where_item::Or;
use qorm::{Bind, Builder, Delete, Insert, Select, Update};

fn dollar() -> Option<SelectConfig> {
    Some(SelectConfig {
        placeholder: "$%d".to_string(),
        start: Some(1),
    })
}

#[test]
fn bare_select_renders_table_twice() {
    for t in ["user", "t", "order_items", "schema.table"] {
        let mut builder = Select::new(t, None, None);
        assert_eq!(builder.to_sql(), format!("SELECT * FROM {} {}", t, t));
        let mut indexed = Select::new(t, None, dollar());
        assert_eq!(indexed.to_sql(), format!("SELECT * FROM {} {}", t, t));
    }
}

#[test]
fn alias_qualifies_table_in_from() {
    let mut builder = Select::new("user", Some("u"), None);
    builder.wheres("u.id", "=", Bind::Int(3));
    assert_eq!(builder.to_sql(), "SELECT * FROM user u WHERE u.id = ?");
    let mut plain = Select::new("user", None, None);
    plain.select("id");
    assert_eq!(plain.to_sql(), "SELECT id FROM user user");
}

#[test]
fn placeholders_align_with_binds() {
    let mut builder = Update::new(
        "t",
        Some(UpdateConfig {
            placeholder: "$%d".to_string(),
            start: Some(1),
        }),
    );
    builder.set(vec![("a", Bind::Int(10)), ("b", Bind::Null)]);
    builder.wheres("c", "=", Bind::Bool(false));
    builder.where_or(vec![
        Or {
            column: "d",
            operator: "<",
            value: Bind::String("x".to_string()),
        },
        Or {
            column: "e",
            operator: ">",
            value: Bind::Raw("now()".to_string()),
        },
    ]);
    let (sql, binds) = builder.to_sql_with_bind();
    assert_eq!(
        sql,
        "UPDATE t SET a = $1,b = $2 WHERE c = $3 AND ( d < $4 OR e > $5)"
    );
    assert_eq!(
        binds,
        vec![
            Bind::Int(10),
            Bind::Null,
            Bind::Bool(false),
            Bind::String("x".to_string()),
            Bind::Raw("now()".to_string()),
        ]
    );
    assert_eq!(sql.matches('$').count(), binds.len());
}

#[test]
fn select_null_is_literal_and_unbound() {
    let mut builder = Select::new("todo", Some("t"), None);
    builder.wheres("t.is_done", "=", Bind::Bool(true));
    builder.wheres("t.created_by", "IS NOT", Bind::Null);
    builder.where_or(vec![
        Or {
            column: "t.deleted_at",
            operator: "IS",
            value: Bind::Null,
        },
        Or {
            column: "t.id",
            operator: "<",
            value: Bind::Int(5),
        },
    ]);
    let (sql, binds) = builder.to_sql_with_bind();
    assert_eq!(
        sql,
        "SELECT * FROM todo t WHERE t.is_done = ? AND t.created_by IS NOT NULL AND ( t.deleted_at IS NULL OR t.id < ?)"
    );
    assert_eq!(binds, vec![Bind::Bool(true), Bind::Int(5)]);
}

#[test]
fn static_render_repeats() {
    let mut builder = Delete::new("user", None);
    builder.wheres("id", "=", Bind::Int(1));
    builder.where_or(vec![Or {
        column: "name",
        operator: "=",
        value: Bind::String("a".to_string()),
    }]);
    let first = builder.to_sql_with_bind();
    let second = builder.to_sql_with_bind();
    assert_eq!(first, second);
    assert_eq!(first.0, "DELETE FROM user WHERE id = ? AND ( name = ?)");
}

#[test]
fn indexed_cursor_persists_across_renders() {
    let mut builder = Select::new("user", None, dollar());
    builder.wheres("a", "=", Bind::Int(1));
    builder.wheres("b", "=", Bind::Int(2));
    builder.wheres("c", "=", Bind::Int(3));
    assert_eq!(
        builder.to_sql(),
        "SELECT * FROM user user WHERE a = $1 AND b = $2 AND c = $3"
    );
    assert_eq!(
        builder.to_sql(),
        "SELECT * FROM user user WHERE a = $4 AND b = $5 AND c = $6"
    );
}

#[test]
fn indexed_pattern_with_other_start() {
    let mut builder = Select::new(
        "todo",
        None,
        Some(SelectConfig {
            placeholder: "#%d".to_string(),
            start: Some(0),
        }),
    );
    builder.wheres("todo.id", "=", Bind::Int(1));
    builder.wheres("todo.name", "=", Bind::String("hello".to_string()));
    assert_eq!(
        builder.to_sql(),
        "SELECT * FROM todo todo WHERE todo.id = #0 AND todo.name = #1"
    );
    let mut negative = Delete::new(
        "t",
        Some(DeleteConfig {
            placeholder: ":p%d".to_string(),
            start: Some(-1),
        }),
    );
    negative.wheres("a", "=", Bind::Int(1));
    negative.wheres("b", "=", Bind::Int(2));
    assert_eq!(negative.to_sql(), "DELETE FROM t WHERE a = :p-1 AND b = :p0");
}

#[test]
fn static_pattern_without_marker() {
    let mut builder = Insert::new(
        "t",
        Some(InsertConfig {
            placeholder: "@x".to_string(),
            start: None,
        }),
    );
    builder.values(vec![("a", Bind::Int(1)), ("b", Bind::Int(2))]);
    assert_eq!(builder.to_sql(), "INSERT INTO t (a,b) VALUES (@x,@x)");
}

#[test]
fn or_groups_chain_with_and() {
    let mut builder = Delete::new("t", None);
    builder.where_or(vec![
        Or {
            column: "a",
            operator: "=",
            value: Bind::Int(1),
        },
        Or {
            column: "b",
            operator: "=",
            value: Bind::Int(2),
        },
    ]);
    builder.where_or(vec![
        Or {
            column: "c",
            operator: "=",
            value: Bind::Int(3),
        },
        Or {
            column: "d",
            operator: "=",
            value: Bind::Int(4),
        },
    ]);
    let (sql, binds) = builder.to_sql_with_bind();
    assert_eq!(
        sql,
        "DELETE FROM t WHERE ( a = ? OR b = ?) AND ( c = ? OR d = ?)"
    );
    assert_eq!(
        binds,
        vec![Bind::Int(1), Bind::Int(2), Bind::Int(3), Bind::Int(4)]
    );
}

#[test]
fn select_where_and_or_example() {
    let mut builder = Select::new("user", None, None);
    builder.wheres("id", "=", Bind::Int(1));
    builder.where_or(vec![
        Or {
            column: "id",
            operator: "=",
            value: Bind::Int(2),
        },
        Or {
            column: "active",
            operator: "=",
            value: Bind::Bool(true),
        },
    ]);
    let (sql, binds) = builder.to_sql_with_bind();
    assert_eq!(
        sql,
        "SELECT * FROM user user WHERE id = ? AND ( id = ? OR active = ?)"
    );
    assert_eq!(binds, vec![Bind::Int(1), Bind::Int(2), Bind::Bool(true)]);
}

#[test]
fn insert_example() {
    let mut builder = Insert::new("user", None);
    builder.values(vec![
        ("name", Bind::String("a".to_string())),
        ("ok", Bind::Bool(true)),
    ]);
    let (sql, binds) = builder.to_sql_with_bind();
    assert_eq!(sql, "INSERT INTO user (name,ok) VALUES (?,?)");
    assert_eq!(binds, vec![Bind::String("a".to_string()), Bind::Bool(true)]);
}

#[test]
fn delete_without_conditions() {
    let mut builder = Delete::new("user", None);
    let (sql, binds) = builder.to_sql_with_bind();
    assert_eq!(sql, "DELETE FROM user");
    assert!(binds.is_empty());
}

#[test]
fn insert_without_values() {
    let mut builder = Insert::new("user", None);
    let (sql, binds) = builder.to_sql_with_bind();
    assert_eq!(sql, "INSERT INTO user");
    assert!(binds.is_empty());
}

#[test]
fn update_without_assignments() {
    let mut builder = Update::new("user", None);
    builder.wheres("id", "=", Bind::Int(7));
    let (sql, binds) = builder.to_sql_with_bind();
    assert_eq!(sql, "UPDATE user WHERE id = ?");
    assert_eq!(binds, vec![Bind::Int(7)]);
}

#[test]
fn limit_and_offset() {
    let mut builder = Select::new("todo", Some("t"), None);
    builder.limit(10);
    builder.offset(-20);
    builder.limit(5);
    assert_eq!(builder.to_sql(), "SELECT * FROM todo t LIMIT 5 OFFSET -20");
    let mut big = Select::new("t", None, None);
    big.limit(i64::MAX).offset(i64::MIN);
    assert_eq!(
        big.to_sql(),
        "SELECT * FROM t t LIMIT 9223372036854775807 OFFSET -9223372036854775808"
    );
}

#[test]
fn select_sections_in_fixed_order() {
    let mut builder = Select::new("user", None, None);
    builder.offset(1);
    builder.group_by(vec!["g"]);
    builder.order_by(vec!["o"]);
    builder.wheres("w", "=", Bind::Int(1));
    builder.join(Some("INNER"), "r", "r.id = user.r");
    builder.select("s");
    builder.limit(2);
    assert_eq!(
        builder.to_sql(),
        "SELECT s FROM user user INNER JOIN r ON r.id = user.r WHERE w = ? ORDER BY o GROUP BY g LIMIT 2 OFFSET 1"
    );
}

#[test]
fn raw_builder_or_groups_without_ands() {
    let mut builder = Builder::new("user", Some("u"));
    builder.where_or_raw(vec!["a = 1", "b = 2"]);
    builder.where_or_raw(vec!["c = 3"]);
    builder.group_by_raw(vec!["u.id", "u.name"]);
    assert_eq!(
        builder.to_sql(),
        "SELECT * FROM user u WHERE ( a = 1 OR b = 2) AND ( c = 3) GROUP BY u.id, u.name"
    );
}

#[test]
fn raw_binds_follow_call_order() {
    let mut builder = Builder::new("user", None);
    builder.where_raw("a = ?").bind_raw(Bind::Int(1));
    builder.where_or_raw(vec!["b = ?", "c = ?"]);
    builder.bind_raw(Bind::Null).bind_raw(Bind::Raw("x".to_string()));
    let (sql, binds) = builder.to_sql_with_bind();
    assert_eq!(sql, "SELECT * FROM user user WHERE a = ? AND ( b = ? OR c = ?)");
    assert_eq!(
        binds,
        vec![Bind::Int(1), Bind::Null, Bind::Raw("x".to_string())]
    );
}

#[test]
fn select_raw_fragments_follow_structured_ones() {
    let mut builder = Select::new("user", Some("u"), dollar());
    builder.join_raw("LEFT JOIN role r ON r.id = u.role_id");
    builder.join(None, "team t", "t.id = u.team_id");
    builder.where_raw("u.age > $9");
    builder.wheres("u.id", "=", Bind::Int(1));
    builder.where_or_raw(vec!["u.a = 1", "u.b = 2"]);
    builder.where_or(vec![Or {
        column: "u.c",
        operator: "=",
        value: Bind::Bool(true),
    }]);
    builder.bind_raw(Bind::Int(18));
    let (sql, binds) = builder.to_sql_with_bind();
    assert_eq!(
        sql,
        "SELECT * FROM user u JOIN team t ON t.id = u.team_id LEFT JOIN role r ON r.id = u.role_id WHERE u.id = $1 AND u.age > $9 AND ( u.c = $2) AND ( u.a = 1 OR u.b = 2)"
    );
    assert_eq!(binds, vec![Bind::Int(1), Bind::Bool(true), Bind::Int(18)]);
}

#[test]
fn select_only_raw_conditions() {
    let mut builder = Select::new("user", None, None);
    builder.where_or_raw(vec!["a = ?"]);
    builder.bind_raw(Bind::String("x".to_string()));
    let (sql, binds) = builder.to_sql_with_bind();
    assert_eq!(sql, "SELECT * FROM user user WHERE ( a = ?)");
    assert_eq!(binds, vec![Bind::String("x".to_string())]);
}

#[test]
fn update_raw_fragments_and_binds() {
    let mut builder = Update::new("user", None);
    builder.set(vec![("name", Bind::String("n".to_string()))]);
    builder.where_raw("updated_at < now()");
    builder.where_or_raw(vec!["id = ?", "id = ?"]);
    builder.bind_raw(Bind::Int(4)).bind_raw(Bind::Int(5));
    let (sql, binds) = builder.to_sql_with_bind();
    assert_eq!(
        sql,
        "UPDATE user SET name = ? WHERE updated_at < now() AND ( id = ? OR id = ?)"
    );
    assert_eq!(
        binds,
        vec![Bind::String("n".to_string()), Bind::Int(4), Bind::Int(5)]
    );
}
