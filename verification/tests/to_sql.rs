use arel::collector::SqlCollector;
use arel::dsl::{SelectBuilder, Table};
use arel::nodes::{
    Assignment, Bind, ColumnAt, Function, FunctionKind, Limit, Literal, Node, SelectStatement,
    ToNode, UnqualifiedColumn,
};
use arel::to_sql::ToSqlVisitor;
use arel::{Conjunctions, OrderPredications, Predications};

fn star() -> Literal {
    Literal::new("*")
}

fn foo() -> Literal {
    Literal::new("foo")
}

fn to_sql(node: &Node) -> String {
    let mut collector = SqlCollector::new();
    node.visit(&ToSqlVisitor, &mut collector);
    collector.value().to_string()
}

fn expect_sql<N: ToNode>(node: N, value: &str) {
    assert_eq!(to_sql(&node.to_node()).as_str(), value)
}

fn expect_statement(statement: &SelectStatement, value: &str) {
    let mut collector = SqlCollector::new();
    ToSqlVisitor.select_statement(statement, &mut collector);
    assert_eq!(collector.value(), value)
}

fn node<N: ToNode>(node: N) -> Node {
    node.to_node()
}

#[test]
fn test_named_function() {
    let node = Function::named("omg", vec![node(star())]);
    expect_sql(node, "omg(*)")
}

#[test]
fn test_eq_predication() {
    let node = Function::named("omg", vec![node(star())]);
    expect_sql(node.eql(Bind::from(2u64)), "omg(*) = 2")
}

#[test]
fn test_builtin_functions() {
    let func = Function::builtin(FunctionKind::Sum, vec![node(star())]).distinct();
    expect_sql(func, "SUM(DISTINCT *)");

    let func = Function::builtin(FunctionKind::Exists, vec![node(star())]).distinct();
    expect_sql(func, "EXISTS(DISTINCT *)");

    let func = Function::builtin(FunctionKind::Max, vec![node(star())]).distinct();
    expect_sql(func, "MAX(DISTINCT *)");

    let func = Function::builtin(FunctionKind::Min, vec![node(star())]).distinct();
    expect_sql(func, "MIN(DISTINCT *)");

    let func = Function::builtin(FunctionKind::Count, vec![node(star())]).distinct();
    expect_sql(func, "COUNT(DISTINCT *)");

    let func = Function::builtin(FunctionKind::Avg, vec![node(star())]).distinct();
    expect_sql(func, "AVG(DISTINCT *)");
}

#[test]
fn test_named_function_with_list() {
    let func = Function::named("omg", vec![node(star()), node(star())]);
    expect_sql(func, "omg(*, *)");
}

#[test]
fn test_escape_strings() {
    let equality = star().eql("Aaron Patterson");
    expect_sql(equality, "* = 'Aaron Patterson'");
}

#[test]
fn test_boolean() {
    let equality = star().eql(false);
    expect_sql(equality, "* = 'f'");

    let equality = star().eql(true);
    expect_sql(equality, "* = 't'");
}

#[test]
fn test_number() {
    let equality = foo().eql(0u64);
    expect_sql(equality, "foo = 0");

    let equality = foo().eql(0i64);
    expect_sql(equality, "foo = 0");
}

#[test]
fn test_matches() {
    let table = Table::new("users");
    let matches = table.at("name").matches("foo%");

    expect_sql(matches, r#""users"."name" LIKE 'foo%'"#);
}

#[test]
fn test_not_matches() {
    let table = Table::new("users");
    let matches = table.at("name").does_not_match("foo%");

    expect_sql(matches, r#""users"."name" NOT LIKE 'foo%'"#);
}

#[test]
fn test_column_asc() {
    let table = Table::new("users");
    let asc = table.at("name").asc();

    expect_sql(asc, r#""users"."name" ASC"#);
}

#[test]
fn test_column_desc() {
    let table = Table::new("users");
    let asc = table.at("name").desc();

    expect_sql(asc, r#""users"."name" DESC"#);
}

#[test]
fn test_and() {
    let and = foo().and(2u64);
    expect_sql(and, "foo AND 2");
}

#[test]
fn test_or() {
    let and = foo().or(2u64);
    expect_sql(and, "foo OR 2");
}

#[test]
fn test_assignment() {
    let left = UnqualifiedColumn::new("foo");
    let right = UnqualifiedColumn::new("bar");

    let assign = Assignment { left: Box::new(node(left)), right: Box::new(node(right)) };

    expect_sql(assign, "\"foo\" = \"bar\"");
}

#[test]
fn test_qualified_column_assignment() {
    let table = Table::new("users");
    let assign = Assignment {
        left: Box::new(node(table.at("id"))),
        right: Box::new(node(table.at("name"))),
    };

    expect_sql(assign, r#""users"."id" = "users"."name""#);
}

#[test]
fn quotes_strings() {
    let limit = Limit { operand: Box::new(Bind::from("omg").to_node()) };
    expect_sql(limit, "LIMIT 'omg'");
}

#[test]
fn supports_numbers() {
    let limit = Limit { operand: Box::new(10u64.to_node()) };
    expect_sql(limit, "LIMIT 10")
}

#[test]
fn simple_select() {
    let table = Table::new("users");
    let select = table.project([star()]);

    expect_statement(select.statement(), "SELECT * FROM \"users\"");
}

#[test]
fn select_exists() {
    let table = Table::new("users");
    let select = table.project([star()]).exists_();

    expect_sql(select, "EXISTS(SELECT * FROM \"users\")");
}

#[test]
fn select_exists_alias() {
    let table = Table::new("users");
    let select = table.project([star()]).exists_().as_("foo");

    expect_sql(select, "EXISTS(SELECT * FROM \"users\") AS \"foo\"");
}

#[test]
fn select_lock_update() {
    let table = Table::new("users");
    let select = table.project([star()]).lock();

    expect_statement(select.statement(), "SELECT * FROM \"users\" FOR UPDATE");
}

#[test]
fn order_by() {
    let select = Table::new("users").project([star()]).order("foo");
    expect_statement(select.statement(), "SELECT * FROM \"users\" ORDER BY \"foo\"");
}

#[test]
fn order_by_asc_desc() {
    let table = Table::new("users");

    let select = table.project([star()]).order(UnqualifiedColumn::new("foo").asc());
    expect_statement(select.statement(), r#"SELECT * FROM "users" ORDER BY "foo" ASC"#);

    let select = table.project([star()]).order(table.at("foo").asc());
    expect_statement(select.statement(), r#"SELECT * FROM "users" ORDER BY "users"."foo" ASC"#);

    let select = table.project([star()]).order(UnqualifiedColumn::new("foo").desc());
    expect_statement(select.statement(), r#"SELECT * FROM "users" ORDER BY "foo" DESC"#);

    let select = table.project([star()]).order(table.at("foo").desc());
    expect_statement(select.statement(), r#"SELECT * FROM "users" ORDER BY "users"."foo" DESC"#);
}

#[test]
fn order_by_multiple() {
    let table = Table::new("users");

    let select = table.project([star()]).order("foo").order("bar");
    expect_statement(select.statement(), r#"SELECT * FROM "users" ORDER BY "foo", "bar""#);
}

#[test]
fn offset() {
    let table = Table::new("users");
    let select = table.project([star()]).offset(10);
    expect_statement(select.statement(), r#"SELECT * FROM "users" OFFSET 10"#);
}

#[test]
fn simple_where() {
    let table = Table::new("users");
    let select = table.project([star()]).where_(table.at("age").gt(12u64));
    expect_statement(select.statement(), r#"SELECT * FROM "users" WHERE "users"."age" > 12"#);
}

#[test]
fn select_column_where() {
    let table = Table::new("users");
    let select = table.project([table.at("id")]).where_(table.at("email").eql("stuff"));
    expect_statement(
        select.statement(),
        r#"SELECT "users"."id" FROM "users" WHERE "users"."email" = 'stuff'"#,
    );
}

#[test]
fn simple_join() {
    let left = Table::new("users");
    let right = left.alias();
    let predicate = left.at("id").eql(right.at("id"));

    let select = left.select().join(right).on(predicate);

    expect_statement(
        select.statement(),
        r#"SELECT FROM "users" INNER JOIN "users" "users_2" ON "users"."id" = "users_2"."id""#,
    );
}

#[test]
fn join_on_projected() {
    let left = Table::new("users");
    let right = left.alias();
    let predicate = left.at("id").eql(right.at("id"));

    let select = left.select().join(right).project([star()]).on(predicate);

    expect_statement(
        select.statement(),
        r#"SELECT * FROM "users" INNER JOIN "users" "users_2" ON "users"."id" = "users_2"."id""#,
    );
}

#[test]
fn outer_join() {
    let left = Table::new("users");
    let right = left.alias();
    let predicate = left.at("id").eql(right.at("id"));

    let select = left.select().outer_join(right).on(predicate);

    expect_statement(
        select.statement(),
        r#"SELECT FROM "users" LEFT OUTER JOIN "users" "users_2" ON "users"."id" = "users_2"."id""#,
    );
}

#[test]
fn right_outer_join() {
    let left = Table::new("users");
    let right = left.alias();
    let predicate = left.at("id").eql(right.at("id"));

    let select = left.select().right_outer_join(right).on(predicate);

    expect_statement(
        select.statement(),
        r#"SELECT FROM "users" RIGHT OUTER JOIN "users" "users_2" ON "users"."id" = "users_2"."id""#,
    );
}

#[test]
fn subselect() {
    let inner = Table::new("zomg").select().project([star()]).alias("foo");

    let select = SelectBuilder::from_node(inner).project([UnqualifiedColumn::new("name")]);

    expect_statement(select.statement(), r#"SELECT "name" FROM (SELECT * FROM "zomg") "foo""#);
}
