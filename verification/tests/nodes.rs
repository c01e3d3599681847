use arel::collector::SqlCollector;
use arel::dsl::Table;
use arel::nodes::{
    Addition, Ascending, Binary, ColumnAt, Descending, DirectedOrder, Direction, Equality,
    Function, FunctionKind, Join, JoinKind, JoinSource, Limit, Literal, Node, Not, Order,
    ProjectionNode, QualifiedColumn, SelectCore, SelectStatement, Subselect, TableAlias,
    TableName, ToBorrowedNode, ToNode, ToOrder, ToProjection, ToProjections, Unary,
    UnqualifiedColumn,
};
use arel::to_sql::ToSqlVisitor;
use arel::{OrderPredications, Predications};

fn sql(node: &Node) -> String {
    let mut collector = SqlCollector::new();
    node.visit(&ToSqlVisitor, &mut collector);
    collector.value().to_string()
}

fn literal_text(node: &Node) -> &str {
    match node {
        Node::Literal(literal) => literal.value.as_str(),
        _ => panic!("not a literal"),
    }
}

fn projection_text(projection: &ProjectionNode) -> &str {
    match projection {
        ProjectionNode::Literal(literal) => literal.value.as_str(),
        _ => panic!("not a literal"),
    }
}

#[test]
fn binary_build_keeps_both_operands() {
    let equality: Equality = Binary::build(Literal::new("l"), Literal::new("r"));
    assert_eq!(literal_text(equality.left()), "l");
    assert_eq!(literal_text(equality.right()), "r");

    let sum: Addition = Binary::build(Literal::new("1"), Literal::new("2"));
    assert_eq!(literal_text(sum.left()), "1");
    assert_eq!(literal_text(sum.right()), "2");
}

#[test]
fn binary_build_keeps_a_whole_tree_as_operand() {
    let inner = Literal::new("a").eql(Literal::new("b"));
    let outer: Equality = Binary::build(inner, 3u64);
    assert_eq!(sql(outer.left()), "a = b");
    assert_eq!(sql(outer.right()), "3");
}

#[test]
fn unary_build_keeps_the_operand() {
    let not: Not = Unary::build(Literal::new("x"));
    assert_eq!(literal_text(not.operand()), "x");
    let limit: Limit = Unary::build(10u64);
    assert_eq!(sql(limit.operand()), "10");
}

#[test]
fn predications_put_the_receiver_on_the_left() {
    let lt = Literal::new("a").lt(Literal::new("b"));
    assert_eq!(literal_text(&lt.left), "a");
    assert_eq!(literal_text(&lt.right), "b");
    assert_eq!(sql(&Literal::new("a").lt(1u64).to_node()), "a < 1");
    assert_eq!(sql(&Literal::new("a").lte(1u64).to_node()), "a <= 1");
    assert_eq!(sql(&Literal::new("a").gt(1u64).to_node()), "a > 1");
    assert_eq!(sql(&Literal::new("a").gte(1u64).to_node()), "a >= 1");
}

#[test]
fn orders_have_a_direction() {
    let asc = UnqualifiedColumn::new("a").asc();
    assert_eq!(asc.direction(), Direction::Asc);
    assert!(asc.is_ascending());
    assert!(!asc.is_descending());
    let desc = UnqualifiedColumn::new("a").desc();
    assert_eq!(desc.direction(), Direction::Desc);
    assert!(desc.is_descending());
    assert!(!desc.is_ascending());
}

#[test]
fn reversing_an_order_gives_a_new_order_of_the_other_direction() {
    let reversed = UnqualifiedColumn::new("a").asc().reverse();
    assert_eq!(reversed.direction(), Direction::Desc);
    assert!(matches!(reversed, Order::Descending(_)));
    assert_eq!(sql(&reversed.to_node()), "\"a\" DESC");

    let reversed = UnqualifiedColumn::new("a").desc().reverse();
    assert_eq!(reversed.direction(), Direction::Asc);
    assert_eq!(sql(&reversed.to_node()), "\"a\" ASC");

    let twice = Ascending { operand: Box::new(Literal::new("x").to_node()) }.reverse().reverse();
    assert!(twice.is_ascending());
    assert_eq!(sql(&twice.to_node()), "x ASC");

    let twice = Descending { operand: Box::new(Literal::new("x").to_node()) }.reverse().reverse();
    assert!(twice.is_descending());
}

#[test]
fn function_names() {
    let none = || Vec::<Node>::new();
    assert_eq!(Function::builtin(FunctionKind::Sum, none()).name(), "SUM");
    assert_eq!(Function::builtin(FunctionKind::Exists, none()).name(), "EXISTS");
    assert_eq!(Function::builtin(FunctionKind::Max, none()).name(), "MAX");
    assert_eq!(Function::builtin(FunctionKind::Min, none()).name(), "MIN");
    assert_eq!(Function::builtin(FunctionKind::Avg, none()).name(), "AVG");
    assert_eq!(Function::builtin(FunctionKind::Count, none()).name(), "COUNT");
    assert_eq!(Function::named("lower", none()).name(), "lower");
}

#[test]
fn function_builders_change_one_thing() {
    let function = Function::named("f", vec![Literal::new("x").to_node()]);
    assert!(!function.distinct);
    assert!(function.alias.is_none());
    let function = function.distinct();
    assert!(function.distinct);
    assert!(function.alias.is_none());
    let function = function.as_("y");
    assert!(function.distinct);
    assert_eq!(function.alias.as_ref().unwrap().name, "y");
    assert_eq!(function.expressions.len(), 1);
    assert_eq!(function.name(), "f");
}

#[test]
fn a_new_join_has_no_condition() {
    let join = Join::build(JoinKind::FullOuterJoin, TableName::build("t"));
    assert_eq!(join.kind, JoinKind::FullOuterJoin);
    assert!(join.on.is_none());
    assert_eq!(sql(&join.relation), "\"t\"");
}

#[test]
fn on_goes_to_the_join_that_was_added_last() {
    let mut source = JoinSource::build();
    source.right.push(Join::build(JoinKind::InnerJoin, TableName::build("a")));
    source.right.push(Join::build(JoinKind::OuterJoin, TableName::build("b")));
    source.on(Literal::new("first"));
    assert!(source.right()[0].on.is_none());
    assert_eq!(literal_text(&source.right()[1].on.as_ref().unwrap().operand), "first");
    assert_eq!(source.right()[1].kind, JoinKind::OuterJoin);
    assert_eq!(sql(&source.right()[1].relation), "\"b\"");

    source.on(Literal::new("second"));
    assert!(source.right()[0].on.is_none());
    assert_eq!(literal_text(&source.right()[1].on.as_ref().unwrap().operand), "second");
    assert_eq!(source.right().len(), 2);
}

#[test]
fn on_without_a_join_changes_nothing() {
    let mut source = JoinSource::build();
    source.on(Literal::new("x"));
    assert!(source.left().is_none());
    assert!(source.right().is_empty());

    let mut core = SelectCore::build();
    core.on(Literal::new("x"));
    assert!(core.source().unwrap().right().is_empty());
}

#[test]
fn a_core_without_a_source_ignores_changes_to_it() {
    let mut core = SelectCore { source: None, wheres: vec![], projections: vec![] };
    core.set_left(TableName::build("t"));
    core.add_join(Join::build(JoinKind::InnerJoin, TableName::build("u")));
    core.on(Literal::new("x"));
    assert!(core.source().is_none());
}

#[test]
fn a_new_core_is_empty() {
    let core = SelectCore::build();
    assert!(core.projections().is_empty());
    assert!(core.wheres().is_empty());
    let source = core.source().unwrap();
    assert!(source.left().is_none());
    assert!(source.right().is_empty());
}

#[test]
fn core_lists_keep_insertion_order() {
    let mut core = SelectCore::build();
    core.add_where(Literal::new("a").to_node());
    core.add_where(Literal::new("b").to_node());
    assert_eq!(core.wheres().len(), 2);
    assert_eq!(literal_text(&core.wheres()[0]), "a");
    assert_eq!(literal_text(&core.wheres()[1]), "b");

    core.add_join(Join::build(JoinKind::InnerJoin, TableName::build("x")));
    core.add_join(Join::build(JoinKind::OuterJoin, TableName::build("y")));
    let joins = core.source().unwrap().right();
    assert_eq!(joins[0].kind, JoinKind::InnerJoin);
    assert_eq!(joins[1].kind, JoinKind::OuterJoin);
}

#[test]
fn set_left_and_set_projections_replace() {
    let mut core = SelectCore::build();
    core.set_left(TableName::build("a"));
    core.set_left(TableName::build("b"));
    assert_eq!(sql(core.source().unwrap().left().unwrap()), "\"b\"");

    core.set_projections(vec![Literal::new("1").to_projection(), Literal::new("2").to_projection()]);
    core.set_projections(vec![Literal::new("3").to_projection()]);
    assert_eq!(core.projections().len(), 1);
    assert_eq!(projection_text(&core.projections()[0]), "3");
}

#[test]
fn a_new_statement_is_empty() {
    let statement = SelectStatement::build();
    assert!(statement.cores.is_empty());
    assert!(statement.orders.is_empty());
    assert!(statement.limit.is_none());
    assert!(statement.offset.is_none());
    assert!(statement.lock.is_none());
    assert!(statement.context.wheres().is_empty());
    assert_eq!(statement.cores().len(), 1);
}

#[test]
fn cores_come_before_the_context() {
    let mut statement = SelectStatement::build();
    statement.context().add_where(Literal::new("context").to_node());
    let mut first = SelectCore::build();
    first.add_where(Literal::new("first").to_node());
    let mut second = SelectCore::build();
    second.add_where(Literal::new("second").to_node());
    statement.cores.push(first);
    statement.cores.push(second);

    let cores = statement.cores();
    assert_eq!(cores.len(), 3);
    assert_eq!(literal_text(&cores[0].wheres()[0]), "first");
    assert_eq!(literal_text(&cores[1].wheres()[0]), "second");
    assert_eq!(literal_text(&cores[2].wheres()[0]), "context");
}

#[test]
fn context_is_changed_in_place() {
    let mut statement = SelectStatement::build();
    statement.context().set_left(TableName::build("t"));
    statement.context().add_where(Literal::new("w").to_node());
    assert_eq!(statement.context.wheres().len(), 1);
    assert_eq!(sql(statement.context.source().unwrap().left().unwrap()), "\"t\"");
}

#[test]
fn table_alias_keeps_both_names() {
    let alias = TableAlias::build(TableName::build("users"), "u");
    assert_eq!(alias.get_table_name(), "users");
    assert_eq!(alias.name, "u");
    let column: QualifiedColumn = alias.at("id");
    assert_eq!(column.relation, "u");
    assert_eq!(column.name, "id");
}

#[test]
fn table_names_its_columns() {
    let table = Table::new("users");
    assert_eq!(table.get_name(), "users");
    let column = table.at("id");
    assert_eq!(column.relation, "users");
    assert_eq!(column.name, "id");
    let alias = table.alias();
    assert_eq!(alias.name, "users_2");
    assert_eq!(alias.get_table_name(), "users");
    let alias = table.alias_as("u");
    assert_eq!(alias.name, "u");
    assert_eq!(alias.get_table_name(), "users");
}

#[test]
fn projections_keep_their_order() {
    let list = vec![Literal::new("a"), Literal::new("b"), Literal::new("c"), Literal::new("d")]
        .to_projections();
    assert_eq!(list.len(), 4);
    assert_eq!(projection_text(&list[0]), "a");
    assert_eq!(projection_text(&list[1]), "b");
    assert_eq!(projection_text(&list[2]), "c");
    assert_eq!(projection_text(&list[3]), "d");

    let list = Vec::<Literal>::new().to_projections();
    assert!(list.is_empty());

    let list = [Literal::new("only")].to_projections();
    assert_eq!(list.len(), 1);
    assert_eq!(projection_text(&list[0]), "only");

    let list = (Literal::new("a"), Literal::new("b")).to_projections();
    assert_eq!(list.len(), 2);
    assert_eq!(projection_text(&list[0]), "a");
    assert_eq!(projection_text(&list[1]), "b");

    let list = (Literal::new("a"), Literal::new("b"), Literal::new("c")).to_projections();
    assert_eq!(list.len(), 3);
    assert_eq!(projection_text(&list[0]), "a");
    assert_eq!(projection_text(&list[1]), "b");
    assert_eq!(projection_text(&list[2]), "c");
}

#[test]
fn projections_keep_their_kind() {
    assert!(matches!(Literal::new("*").to_projection(), ProjectionNode::Literal(_)));
    assert!(matches!(arel::nodes::Bind::from(1u64).to_projection(), ProjectionNode::Bind(_)));
    assert!(matches!(
        UnqualifiedColumn::new("a").to_projection(),
        ProjectionNode::UnqualifiedColumn(_)
    ));
    assert!(matches!(
        Table::new("t").at("a").to_projection(),
        ProjectionNode::QualifiedColumn(_)
    ));
    assert!(matches!(UnqualifiedColumn::new("a").to_projection().to_node(), Node::UnqualifiedColumn(_)));
}

#[test]
fn a_name_orders_by_the_column_of_that_name() {
    match "created_at".to_order() {
        Node::UnqualifiedColumn(column) => assert_eq!(column.name, "created_at"),
        _ => panic!("a name orders by a column"),
    }
    assert!(matches!(UnqualifiedColumn::new("a").desc().to_order(), Node::Descending(_)));
    assert!(matches!(UnqualifiedColumn::new("a").to_order(), Node::UnqualifiedColumn(_)));
}

#[test]
fn nodes_are_read_through_boxes() {
    let boxed = Box::new(Literal::new("x").to_node());
    assert_eq!(literal_text(boxed.to_borrowed_node()), "x");
    let node = boxed.to_node();
    assert_eq!(literal_text(node.to_borrowed_node()), "x");
}

#[test]
fn a_subselect_gets_its_alias_later() {
    let subselect = Subselect::build(SelectStatement::build());
    assert!(subselect.alias.is_none());
    let subselect = subselect.alias("t");
    assert_eq!(subselect.alias.as_ref().unwrap().name, "t");
}
