use arel::collector::{Collect, SqlCollector};
use arel::dsl::{SelectBuilder, Table};
use arel::nodes::{
    Addition, Bind, ColumnAt, Function, FunctionKind, Intersect, Join, JoinKind,
    JoinSource, Limit, Literal, Node, Not, Null, On, SelectCore, SelectStatement, Subselect,
    TableAlias, TableName, ToNode, ToProjection, True, Unary, UnqualifiedColumn,
};
use arel::to_sql::{to_sql, ToSqlVisitor};
use arel::visitor::Visitor;
use arel::{Conjunctions, OrderPredications, Predications};

fn star() -> Literal {
    Literal::new("*")
}

fn render(node: &Node) -> String {
    let mut collector = SqlCollector::new();
    node.visit(&ToSqlVisitor, &mut collector);
    collector.value().to_string()
}

fn render_statement(statement: &SelectStatement) -> String {
    let mut collector = SqlCollector::new();
    ToSqlVisitor.select_statement(statement, &mut collector);
    collector.value().to_string()
}

#[test]
fn rendering_twice_gives_the_same_text() {
    let table = Table::new("users");
    let select = table
        .project([star()])
        .where_(table.at("age").gt(12u64).and(table.at("name").matches("a%")))
        .order(table.at("age").desc())
        .offset(3);
    let first = render_statement(select.statement());
    let second = render_statement(select.statement());
    assert_eq!(first, second);
    assert_eq!(
        first,
        r#"SELECT * FROM "users" WHERE "users"."age" > 12 AND "users"."name" LIKE 'a%' ORDER BY "users"."age" DESC OFFSET 3"#
    );
}

#[test]
fn rendering_appends_to_what_the_collector_holds() {
    let node = Literal::new("b").to_node();
    let mut collector = SqlCollector::new();
    collector.push("a ");
    node.visit(&ToSqlVisitor, &mut collector);
    node.visit(&ToSqlVisitor, &mut collector);
    assert_eq!(collector.value(), "a bb");
}

#[test]
fn to_sql_gives_the_text_that_a_visit_writes() {
    let node = Literal::new("a").eql(1u64).or(Literal::new("b").eql("x")).to_node();
    assert_eq!(to_sql(&node), Some(render(&node)));
    assert_eq!(to_sql(&node).unwrap(), "a = 1 OR b = 'x'");
}

#[test]
fn order_by_lists_entries_in_insertion_order() {
    let table = Table::new("t");
    let select = table.project([star()]).order("a").order("b").order(table.at("c").desc());
    assert_eq!(
        render_statement(select.statement()),
        r#"SELECT * FROM "t" ORDER BY "a", "b", "t"."c" DESC"#
    );
    let select = select.order(Bind::from(1u64));
    assert_eq!(
        render_statement(select.statement()),
        r#"SELECT * FROM "t" ORDER BY "a", "b", "t"."c" DESC, 1"#
    );
}

#[test]
fn kinds_without_a_rule_are_refused() {
    let visitor = ToSqlVisitor;
    let not: Not = Unary::build(star());
    let refused = [
        True.to_node(),
        Null.to_node(),
        not.to_node(),
        Node::Group(Unary::build(star())),
        Node::Addition(Addition { left: Box::new(star().to_node()), right: Box::new(star().to_node()) }),
        Node::Intersect(Intersect {
            left: Box::new(star().to_node()),
            right: Box::new(star().to_node()),
        }),
    ];
    for node in refused.iter() {
        assert!(!visitor.accepts_node(node));
        assert!(!Visitor::<SqlCollector>::accepts(&visitor, node));
        assert_eq!(to_sql(node), None);
    }
}

#[test]
fn a_kind_without_a_rule_is_found_anywhere_in_the_tree() {
    let visitor = ToSqlVisitor;
    let hidden = |node: Node| -> bool { visitor.accepts_node(&node) };
    assert!(!hidden(star().eql(Null).to_node()));
    assert!(!hidden(Null.eql(star()).to_node()));
    assert!(!hidden(Function::named("f", vec![star().to_node(), Null.to_node()]).to_node()));
    assert!(!hidden(Node::Limit(Unary::build(Null))));
    assert!(!hidden(Node::On(Unary::build(Null))));

    let table = Table::new("t");
    assert!(!hidden(table.select().where_(Null).statement_node()));
    assert!(!hidden(table.select().order(Bind::from(1u64)).where_(True).statement_node()));
    assert!(!hidden(SelectBuilder::from_node(Null).statement_node()));
    assert!(!hidden(table.select().join(TableName::build("u")).on(Null).statement_node()));
    assert!(!hidden(table.select().subselect_with_null_offset()));
    assert!(hidden(table.select().where_(star()).statement_node()));
}

trait StatementNode {
    fn statement_node(self) -> Node;
    fn subselect_with_null_offset(self) -> Node;
}

impl StatementNode for SelectBuilder {
    fn statement_node(self) -> Node {
        self.alias("x").select.to_node()
    }

    fn subselect_with_null_offset(self) -> Node {
        let mut subselect = self.alias("x");
        subselect.select.offset = Some(Unary::build(Null));
        subselect.to_node()
    }
}

#[test]
fn the_limit_of_a_query_is_not_asked_for_and_not_written() {
    let mut statement = SelectStatement::build();
    statement.context().set_left(TableName::build("t"));
    let before = render_statement(&statement);
    statement.limit = Some(Unary::build(10u64));
    assert_eq!(render_statement(&statement), before);
    statement.limit = Some(Unary::build(Null));
    assert!(ToSqlVisitor.accepts_statement(&statement));
    assert_eq!(render_statement(&statement), "SELECT FROM \"t\"");

    let limit: Limit = Unary::build(10u64);
    assert_eq!(render(&limit.to_node()), "LIMIT 10");
}

#[test]
fn empty_lists_leave_their_clause_out() {
    let statement = SelectStatement::build();
    assert_eq!(render_statement(&statement), "SELECT FROM ");

    let core = SelectCore { source: None, wheres: vec![], projections: vec![] };
    assert_eq!(render(&core.to_node()), "SELECT");

    let core = SelectCore { source: None, wheres: vec![], projections: vec![star().to_projection()] };
    assert_eq!(render(&core.to_node()), "SELECT *");

    assert_eq!(render(&JoinSource::build().to_node()), "");
    assert_eq!(render(&Function::named("now", vec![]).to_node()), "now()");
}

#[test]
fn where_conditions_are_joined_by_commas() {
    let table = Table::new("t");
    let select = table
        .project((table.at("a"), table.at("b")))
        .where_(table.at("a").eql(1u64))
        .where_(table.at("b").eql(2u64));
    assert_eq!(
        render_statement(select.statement()),
        r#"SELECT "t"."a", "t"."b" FROM "t" WHERE "t"."a" = 1, "t"."b" = 2"#
    );
}

#[test]
fn projections_are_joined_by_commas() {
    let table = Table::new("t");
    let select = table.project((table.at("a"), table.at("b"), table.at("c")));
    assert_eq!(render_statement(select.statement()), r#"SELECT "t"."a", "t"."b", "t"."c" FROM "t""#);
    let select = table.project(vec![Bind::from(1u64), Bind::from("x")]);
    assert_eq!(render_statement(select.statement()), r#"SELECT 1, 'x' FROM "t""#);
}

#[test]
fn units_are_written_one_after_another() {
    let mut statement = SelectStatement::build();
    statement.context().set_left(TableName::build("c"));
    let mut first = SelectCore::build();
    first.set_left(TableName::build("a"));
    let mut second = SelectCore::build();
    second.set_left(TableName::build("b"));
    second.set_projections(vec![star().to_projection()]);
    statement.cores.push(first);
    statement.cores.push(second);
    assert_eq!(
        render_statement(&statement),
        r#"SELECT FROM "a"SELECT * FROM "b"SELECT FROM "c""#
    );
}

#[test]
fn the_lock_comes_before_the_offset() {
    let select = Table::new("t").project([star()]).offset(7).lock().order("a");
    assert_eq!(
        render_statement(select.statement()),
        r#"SELECT * FROM "t" ORDER BY "a" FOR UPDATE OFFSET 7"#
    );
}

#[test]
fn lock_for_names_the_purpose() {
    let select = Table::new("t").project([star()]).lock_for("SHARE");
    assert_eq!(render_statement(select.statement()), r#"SELECT * FROM "t" FOR SHARE"#);
}

#[test]
fn offsets_are_written_in_decimal() {
    let select = Table::new("t").select().offset(0);
    assert_eq!(render_statement(select.statement()), r#"SELECT FROM "t" OFFSET 0"#);
    let select = Table::new("t").select().offset(u64::MAX);
    assert_eq!(
        render_statement(select.statement()),
        r#"SELECT FROM "t" OFFSET 18446744073709551615"#
    );
}

#[test]
fn every_function_name_is_followed_at_once_by_the_bracket() {
    assert_eq!(render(&Function::named("EXISTS", vec![star().to_node()]).to_node()), "EXISTS(*)");
    assert_eq!(render(&Function::named("exists", vec![star().to_node()]).to_node()), "exists(*)");
    assert_eq!(
        render(&Function::builtin(FunctionKind::Exists, vec![star().to_node()]).to_node()),
        "EXISTS(*)"
    );
    assert_eq!(
        render(&Function::builtin(FunctionKind::Exists, vec![star().to_node()]).distinct().to_node()),
        "EXISTS(DISTINCT *)"
    );
    assert_eq!(
        render(&Function::builtin(FunctionKind::Max, vec![star().to_node()]).to_node()),
        "MAX(*)"
    );
}

#[test]
fn a_function_writes_distinct_arguments_and_alias() {
    let function = Function::builtin(FunctionKind::Count, vec![star().to_node(), 1u64.to_node()]);
    assert_eq!(render(&function.to_node()), "COUNT(*, 1)");
    let function = Function::builtin(FunctionKind::Sum, vec![star().to_node()]).distinct().as_("n");
    assert_eq!(render(&function.to_node()), "SUM(DISTINCT *) AS \"n\"");
    let mut collector = SqlCollector::new();
    ToSqlVisitor.function(&Function::named("f", vec![]).as_("x"), &mut collector);
    assert_eq!(collector.value(), "f() AS \"x\"");
}

#[test]
fn joins_are_joined_by_spaces() {
    let users = Table::new("users");
    let select = users
        .project([star()])
        .join(TableName::build("a"))
        .on(users.at("id").eql(1u64))
        .outer_join(TableName::build("b"))
        .right_outer_join(TableAlias::build(TableName::build("c"), "d"));
    assert_eq!(
        render_statement(select.statement()),
        r#"SELECT * FROM "users" INNER JOIN "a" ON "users"."id" = 1 LEFT OUTER JOIN "b" RIGHT OUTER JOIN "c" "d""#
    );
}

#[test]
fn a_full_outer_join_names_its_kind() {
    let join = Join::build(JoinKind::FullOuterJoin, TableName::build("t"));
    assert_eq!(render(&join.to_node()), "FULL OUTER JOIN \"t\"");
    let mut join = Join::build(JoinKind::FullOuterJoin, TableName::build("t"));
    join.on = Some(Unary::build(star()));
    assert_eq!(render(&join.to_node()), "FULL OUTER JOIN \"t\" ON *");
}

#[test]
fn joins_without_a_relation_follow_a_space() {
    let mut source = JoinSource::build();
    source.right.push(Join::build(JoinKind::InnerJoin, TableName::build("a")));
    assert_eq!(render(&source.to_node()), " INNER JOIN \"a\"");
}

#[test]
fn on_and_offset_alone() {
    let on: On = Unary::build(star().eql(1u64));
    assert_eq!(render(&on.to_node()), "ON * = 1");
    assert_eq!(render(&Node::Offset(Unary::build(5u64))), "OFFSET 5");
}

#[test]
fn a_query_as_a_relation_has_no_parentheses_of_its_own() {
    let inner = Table::new("users").project([star()]);
    let outer = inner.select().project([UnqualifiedColumn::new("id")]);
    assert_eq!(
        render_statement(outer.statement()),
        r#"SELECT "id" FROM SELECT * FROM "users""#
    );
}

#[test]
fn a_subselect_has_parentheses_and_maybe_an_alias() {
    let subselect = Subselect::build(Table::new("t").project([star()]).alias("x").select);
    assert_eq!(render(&subselect.to_node()), r#"(SELECT * FROM "t")"#);
    let subselect = Table::new("t").project([star()]).alias("x");
    assert_eq!(render(&subselect.to_node()), r#"(SELECT * FROM "t") "x""#);
    let joined = Table::new("u").select().join(Table::new("t").select().alias("s"));
    assert_eq!(
        render_statement(joined.statement()),
        r#"SELECT FROM "u" INNER JOIN (SELECT FROM "t") "s""#
    );
}

#[test]
fn names_are_quoted_as_they_are() {
    assert_eq!(render(&UnqualifiedColumn::new("a\"b").to_node()), "\"a\"b\"");
    assert_eq!(render(&UnqualifiedColumn::new("").to_node()), "\"\"");
    assert_eq!(render(&TableName::build("my table").to_node()), "\"my table\"");
    assert_eq!(
        render(&TableAlias::build(TableName::build("users"), "u").to_node()),
        "\"users\" \"u\""
    );
    assert_eq!(render(&Table::new("t").at("c").to_node()), "\"t\".\"c\"");
}

#[test]
fn literals_are_written_as_they_stand() {
    assert_eq!(render(&Literal::new("COUNT(*) -- 'x'").to_node()), "COUNT(*) -- 'x'");
    assert_eq!(render(&Literal::new("").to_node()), "");
}

#[test]
fn every_comparison_has_its_operator() {
    let pair = || (Literal::new("l"), Literal::new("r"));
    let (l, r) = pair();
    assert_eq!(render(&l.eql(r).to_node()), "l = r");
    let (l, r) = pair();
    assert_eq!(render(&l.matches(r).to_node()), "l LIKE r");
    let (l, r) = pair();
    assert_eq!(render(&l.does_not_match(r).to_node()), "l NOT LIKE r");
    let (l, r) = pair();
    assert_eq!(render(&l.gt(r).to_node()), "l > r");
    let (l, r) = pair();
    assert_eq!(render(&l.gte(r).to_node()), "l >= r");
    let (l, r) = pair();
    assert_eq!(render(&l.lt(r).to_node()), "l < r");
    let (l, r) = pair();
    assert_eq!(render(&l.lte(r).to_node()), "l <= r");
    let (l, r) = pair();
    assert_eq!(render(&l.and(r).to_node()), "l AND r");
    let (l, r) = pair();
    assert_eq!(render(&l.or(r).to_node()), "l OR r");
}

#[test]
fn nested_operands_are_written_without_parentheses() {
    let node = Literal::new("a").or(Literal::new("b")).and(Literal::new("c").or(Literal::new("d")));
    assert_eq!(render(&node.to_node()), "a OR b AND c OR d");
}

#[test]
fn bound_values_in_a_tree() {
    assert_eq!(render(&Literal::new("x").eql(-5i64).to_node()), "x = -5");
    assert_eq!(render(&Literal::new("x").eql("o'clock").to_node()), "x = 'o'clock'");
    assert_eq!(render(&Literal::new("x").eql("s".to_string()).to_node()), "x = 's'");
    assert_eq!(render(&Bind::from(true).asc().to_node()), "'t' ASC");
}
