use jpp_compiler::codegen::{
    expect_child, generate_c_code, walk_assignment, walk_block, walk_boolean_expression,
    walk_control_flow, walk_declaration, walk_expression, walk_function_call, walk_if_statement,
    walk_number_comparison, walk_params_list, walk_program, walk_statement, walk_while_loop,
};
use jpp_compiler::{Node, NodeKind, Violation};

fn leaf(kind: NodeKind, text: &str) -> Node {
    Node::leaf(kind, text)
}

fn number(text: &str) -> Node {
    Node::new(NodeKind::Expression, text, vec![leaf(NodeKind::Number, text)])
}

fn variable(text: &str) -> Node {
    Node::new(NodeKind::Expression, text, vec![leaf(NodeKind::Identifier, text)])
}

fn declaration(var_type: &str, name: &str) -> Node {
    Node::new(
        NodeKind::Declaration,
        &format!("{} {};", var_type, name),
        vec![leaf(NodeKind::Type, var_type), leaf(NodeKind::Identifier, name)],
    )
}

fn assignment(name: &str, value: Node) -> Node {
    Node::new(
        NodeKind::Assignment,
        &format!("{} = {};", name, value.text),
        vec![leaf(NodeKind::Identifier, name), value],
    )
}

fn call(name: &str, params: Vec<Node>) -> Node {
    let inner: Vec<String> = params.iter().map(|p| p.text.clone()).collect();
    let list = inner.join(", ");
    Node::new(
        NodeKind::FunctionCall,
        &format!("{}({})", name, list),
        vec![leaf(NodeKind::Identifier, name), Node::new(NodeKind::ParamsList, &list, params)],
    )
}

fn statement(inner: Node) -> Node {
    let text = inner.text.clone();
    Node::new(NodeKind::Statement, &text, vec![inner])
}

fn comparison(left: Node, operator: &str, right: Node) -> Node {
    Node::new(
        NodeKind::BooleanExpression,
        &format!("{} {} {}", left.text, operator, right.text),
        vec![left, leaf(NodeKind::ComparisonOperator, operator), right],
    )
}

fn block(statements: Vec<Node>) -> Node {
    Node::new(NodeKind::Block, "{ ... }", statements)
}

fn control(kind: NodeKind, condition: Node, body: Node) -> Node {
    Node::new(kind, "...", vec![condition, body])
}

fn program(mut statements: Vec<Node>) -> Node {
    statements.push(leaf(NodeKind::EndOfInput, ""));
    Node::new(NodeKind::Program, "...", statements)
}

fn unexpected(parent: NodeKind, found: NodeKind) -> Violation {
    Violation::UnexpectedKind { parent, found }
}

fn missing(parent: NodeKind, index: usize) -> Violation {
    Violation::MissingChild { parent, index }
}

#[test]
fn declaration_is_type_space_name_semicolon() {
    assert_eq!(walk_declaration(&declaration("int", "x")), Ok("int x;".to_string()));
    assert_eq!(walk_declaration(&declaration("float", "total")), Ok("float total;".to_string()));
}

#[test]
fn declaration_passes_type_through_unchecked() {
    assert_eq!(walk_declaration(&declaration("quux", "y")), Ok("quux y;".to_string()));
}

#[test]
fn declaration_ignores_further_children() {
    let node = Node::new(
        NodeKind::Declaration,
        "int x;",
        vec![
            leaf(NodeKind::Type, "int"),
            leaf(NodeKind::Identifier, "x"),
            leaf(NodeKind::Number, "7"),
        ],
    );
    assert_eq!(walk_declaration(&node), Ok("int x;".to_string()));
}

#[test]
fn declaration_without_children_misses_child_zero() {
    let node = leaf(NodeKind::Declaration, "");
    assert_eq!(walk_declaration(&node), Err(missing(NodeKind::Declaration, 0)));
}

#[test]
fn declaration_with_one_child_misses_child_one() {
    let node = Node::new(NodeKind::Declaration, "int", vec![leaf(NodeKind::Type, "int")]);
    assert_eq!(walk_declaration(&node), Err(missing(NodeKind::Declaration, 1)));
}

#[test]
fn declaration_rejects_wrong_kinds_in_order() {
    let both_wrong = Node::new(
        NodeKind::Declaration,
        "x 1",
        vec![leaf(NodeKind::Identifier, "x"), leaf(NodeKind::Number, "1")],
    );
    assert_eq!(
        walk_declaration(&both_wrong),
        Err(unexpected(NodeKind::Declaration, NodeKind::Identifier))
    );
    let second_wrong = Node::new(
        NodeKind::Declaration,
        "int 1",
        vec![leaf(NodeKind::Type, "int"), leaf(NodeKind::Number, "1")],
    );
    assert_eq!(
        walk_declaration(&second_wrong),
        Err(unexpected(NodeKind::Declaration, NodeKind::Number))
    );
    let first_wrong_alone = Node::new(NodeKind::Declaration, "x", vec![leaf(NodeKind::Number, "1")]);
    assert_eq!(
        walk_declaration(&first_wrong_alone),
        Err(unexpected(NodeKind::Declaration, NodeKind::Number))
    );
}

#[test]
fn assignment_is_name_equals_value_semicolon() {
    assert_eq!(walk_assignment(&assignment("x", number("5"))), Ok("x = 5;".to_string()));
    assert_eq!(walk_assignment(&assignment("x", variable("y"))), Ok("x = y;".to_string()));
}

#[test]
fn assignment_writes_the_expression_not_its_span() {
    let value = Node::new(NodeKind::Expression, "  5  ", vec![leaf(NodeKind::Number, "5")]);
    let node = Node::new(
        NodeKind::Assignment,
        "x =   5  ;",
        vec![leaf(NodeKind::Identifier, "x"), value],
    );
    assert_eq!(walk_assignment(&node), Ok("x = 5;".to_string()));
}

#[test]
fn assignment_of_bare_expression_echoes_its_span() {
    let node = assignment("x", leaf(NodeKind::Expression, "a + 1"));
    assert_eq!(walk_assignment(&node), Ok("x = a + 1;".to_string()));
}

#[test]
fn assignment_of_call_keeps_the_calls_terminator() {
    let value = Node::new(
        NodeKind::Expression,
        "foo(1)",
        vec![call("foo", vec![number("1")])],
    );
    assert_eq!(walk_assignment(&assignment("x", value)), Ok("x = foo(1);;".to_string()));
}

#[test]
fn assignment_rejects_wrong_shape() {
    let no_value = Node::new(NodeKind::Assignment, "x", vec![leaf(NodeKind::Identifier, "x")]);
    assert_eq!(walk_assignment(&no_value), Err(missing(NodeKind::Assignment, 1)));
    let empty = leaf(NodeKind::Assignment, "");
    assert_eq!(walk_assignment(&empty), Err(missing(NodeKind::Assignment, 0)));
    let number_first = Node::new(
        NodeKind::Assignment,
        "1 = 2",
        vec![leaf(NodeKind::Number, "1"), number("2")],
    );
    assert_eq!(
        walk_assignment(&number_first),
        Err(unexpected(NodeKind::Assignment, NodeKind::Number))
    );
    let raw_value = Node::new(
        NodeKind::Assignment,
        "x = 2",
        vec![leaf(NodeKind::Identifier, "x"), leaf(NodeKind::Number, "2")],
    );
    assert_eq!(
        walk_assignment(&raw_value),
        Err(unexpected(NodeKind::Assignment, NodeKind::Number))
    );
}

#[test]
fn assignment_hands_on_a_violation_in_its_expression() {
    let value = Node::new(NodeKind::Expression, "{}", vec![leaf(NodeKind::Block, "{}")]);
    assert_eq!(
        walk_assignment(&assignment("x", value)),
        Err(unexpected(NodeKind::Expression, NodeKind::Block))
    );
}

#[test]
fn expression_echoes_number_or_identifier_child() {
    assert_eq!(walk_expression(&number("42")), Ok("42".to_string()));
    assert_eq!(walk_expression(&variable("count")), Ok("count".to_string()));
}

#[test]
fn expression_echoes_the_child_not_itself() {
    let node = Node::new(NodeKind::Expression, " 42 ", vec![leaf(NodeKind::Number, "42")]);
    assert_eq!(walk_expression(&node), Ok("42".to_string()));
}

#[test]
fn expression_without_children_echoes_its_span() {
    assert_eq!(walk_expression(&leaf(NodeKind::Expression, "1 + 2")), Ok("1 + 2".to_string()));
    assert_eq!(walk_expression(&leaf(NodeKind::Expression, "")), Ok(String::new()));
}

#[test]
fn expression_looks_at_its_first_child_only() {
    let node = Node::new(
        NodeKind::Expression,
        "a b",
        vec![leaf(NodeKind::Identifier, "a"), leaf(NodeKind::Block, "b")],
    );
    assert_eq!(walk_expression(&node), Ok("a".to_string()));
}

#[test]
fn expression_delegates_a_call() {
    let node = Node::new(
        NodeKind::Expression,
        "foo(1, x)",
        vec![call("foo", vec![number("1"), variable("x")])],
    );
    assert_eq!(walk_expression(&node), Ok("foo(1, x);".to_string()));
}

#[test]
fn expression_rejects_any_other_child() {
    let kinds = [
        NodeKind::Program,
        NodeKind::Statement,
        NodeKind::Assignment,
        NodeKind::Declaration,
        NodeKind::Expression,
        NodeKind::ParamsList,
        NodeKind::IfStatement,
        NodeKind::WhileLoop,
        NodeKind::Block,
        NodeKind::BooleanExpression,
        NodeKind::ComparisonOperator,
        NodeKind::Type,
        NodeKind::EndOfInput,
    ];
    for kind in kinds {
        let node = Node::new(NodeKind::Expression, "?", vec![leaf(kind, "?")]);
        assert_eq!(walk_expression(&node), Err(unexpected(NodeKind::Expression, kind)));
    }
}

#[test]
fn function_call_with_two_parameters() {
    let node = call("foo", vec![number("1"), variable("x")]);
    assert_eq!(walk_function_call(&node), Ok("foo(1, x);".to_string()));
}

#[test]
fn function_call_without_parameters() {
    assert_eq!(walk_function_call(&call("tick", vec![])), Ok("tick();".to_string()));
}

#[test]
fn function_call_with_one_parameter() {
    assert_eq!(walk_function_call(&call("print", vec![variable("x")])), Ok("print(x);".to_string()));
}

#[test]
fn function_call_nested_as_argument_keeps_terminator() {
    let inner = Node::new(NodeKind::Expression, "g(2)", vec![call("g", vec![number("2")])]);
    let node = call("f", vec![number("1"), inner, variable("z")]);
    assert_eq!(walk_function_call(&node), Ok("f(1, g(2);, z);".to_string()));
}

#[test]
fn function_call_rejects_wrong_shape() {
    let empty = leaf(NodeKind::FunctionCall, "");
    assert_eq!(walk_function_call(&empty), Err(missing(NodeKind::FunctionCall, 0)));
    let name_only =
        Node::new(NodeKind::FunctionCall, "f", vec![leaf(NodeKind::Identifier, "f")]);
    assert_eq!(walk_function_call(&name_only), Err(missing(NodeKind::FunctionCall, 1)));
    let number_as_name = Node::new(
        NodeKind::FunctionCall,
        "1()",
        vec![leaf(NodeKind::Number, "1"), leaf(NodeKind::ParamsList, "")],
    );
    assert_eq!(
        walk_function_call(&number_as_name),
        Err(unexpected(NodeKind::FunctionCall, NodeKind::Number))
    );
    let block_as_params = Node::new(
        NodeKind::FunctionCall,
        "f{}",
        vec![leaf(NodeKind::Identifier, "f"), leaf(NodeKind::Block, "{}")],
    );
    assert_eq!(
        walk_function_call(&block_as_params),
        Err(unexpected(NodeKind::FunctionCall, NodeKind::Block))
    );
}

#[test]
fn params_list_joins_with_comma_and_space() {
    let list = Node::new(
        NodeKind::ParamsList,
        "a,b,c",
        vec![variable("a"), variable("b"), variable("c")],
    );
    assert_eq!(walk_params_list(&list), Ok("a, b, c".to_string()));
    assert_eq!(walk_params_list(&leaf(NodeKind::ParamsList, "")), Ok(String::new()));
    let one = Node::new(NodeKind::ParamsList, "7", vec![number("7")]);
    assert_eq!(walk_params_list(&one), Ok("7".to_string()));
}

#[test]
fn params_list_keeps_empty_parameters() {
    let list = Node::new(
        NodeKind::ParamsList,
        ",,",
        vec![
            leaf(NodeKind::Expression, ""),
            leaf(NodeKind::Expression, ""),
            leaf(NodeKind::Expression, "z"),
        ],
    );
    assert_eq!(walk_params_list(&list), Ok(", , z".to_string()));
}

#[test]
fn params_list_rejects_a_child_that_is_no_expression() {
    let list = Node::new(
        NodeKind::ParamsList,
        "a, 1",
        vec![variable("a"), leaf(NodeKind::Number, "1")],
    );
    assert_eq!(
        walk_params_list(&list),
        Err(unexpected(NodeKind::ParamsList, NodeKind::Number))
    );
}

#[test]
fn params_list_stops_at_the_first_violation() {
    let bad_block = Node::new(NodeKind::Expression, "{}", vec![leaf(NodeKind::Block, "{}")]);
    let list = Node::new(
        NodeKind::ParamsList,
        "a, {}, 1",
        vec![variable("a"), bad_block, leaf(NodeKind::Number, "1")],
    );
    assert_eq!(
        walk_params_list(&list),
        Err(unexpected(NodeKind::Expression, NodeKind::Block))
    );
}

#[test]
fn boolean_expression_puts_one_space_round_the_operator() {
    let node = comparison(variable("x"), "<", number("10"));
    assert_eq!(walk_boolean_expression(&node), Ok("x < 10".to_string()));
    let node = comparison(number("1"), "==", number("1"));
    assert_eq!(walk_boolean_expression(&node), Ok("1 == 1".to_string()));
}

#[test]
fn boolean_expression_passes_operator_through_unchecked() {
    let node = comparison(variable("a"), "<=>", variable("b"));
    assert_eq!(walk_boolean_expression(&node), Ok("a <=> b".to_string()));
}

#[test]
fn boolean_expression_rejects_wrong_shape() {
    let empty = leaf(NodeKind::BooleanExpression, "");
    assert_eq!(walk_boolean_expression(&empty), Err(missing(NodeKind::BooleanExpression, 0)));
    let one = Node::new(NodeKind::BooleanExpression, "x", vec![variable("x")]);
    assert_eq!(walk_boolean_expression(&one), Err(missing(NodeKind::BooleanExpression, 1)));
    let two = Node::new(
        NodeKind::BooleanExpression,
        "x <",
        vec![variable("x"), leaf(NodeKind::ComparisonOperator, "<")],
    );
    assert_eq!(walk_boolean_expression(&two), Err(missing(NodeKind::BooleanExpression, 2)));
    let no_operator = Node::new(
        NodeKind::BooleanExpression,
        "x y z",
        vec![variable("x"), variable("y"), variable("z")],
    );
    assert_eq!(
        walk_boolean_expression(&no_operator),
        Err(unexpected(NodeKind::BooleanExpression, NodeKind::Expression))
    );
    let raw_left = Node::new(
        NodeKind::BooleanExpression,
        "1 < 2",
        vec![leaf(NodeKind::Number, "1"), leaf(NodeKind::ComparisonOperator, "<"), number("2")],
    );
    assert_eq!(
        walk_boolean_expression(&raw_left),
        Err(unexpected(NodeKind::BooleanExpression, NodeKind::Number))
    );
    let raw_right = Node::new(
        NodeKind::BooleanExpression,
        "1 < x",
        vec![number("1"), leaf(NodeKind::ComparisonOperator, "<"), leaf(NodeKind::Identifier, "x")],
    );
    assert_eq!(
        walk_boolean_expression(&raw_right),
        Err(unexpected(NodeKind::BooleanExpression, NodeKind::Identifier))
    );
}

#[test]
fn boolean_expression_reports_left_side_before_right_side() {
    let bad_left = Node::new(NodeKind::Expression, "?", vec![leaf(NodeKind::Type, "int")]);
    let bad_right = Node::new(NodeKind::Expression, "?", vec![leaf(NodeKind::Block, "{}")]);
    let node = comparison(bad_left, "<", bad_right);
    assert_eq!(
        walk_boolean_expression(&node),
        Err(unexpected(NodeKind::Expression, NodeKind::Type))
    );
}

#[test]
fn number_comparison_is_the_operator_as_written() {
    assert_eq!(walk_number_comparison(&leaf(NodeKind::ComparisonOperator, ">=")), ">=");
    assert_eq!(walk_number_comparison(&leaf(NodeKind::ComparisonOperator, "")), "");
}

#[test]
fn statement_dispatches_on_its_child() {
    assert_eq!(walk_statement(&statement(declaration("int", "x"))), Ok("int x;".to_string()));
    assert_eq!(walk_statement(&statement(assignment("x", number("5")))), Ok("x = 5;".to_string()));
    assert_eq!(walk_statement(&statement(variable("x"))), Ok("x".to_string()));
    assert_eq!(
        walk_statement(&statement(call("foo", vec![number("1"), variable("x")]))),
        Ok("foo(1, x);".to_string())
    );
    let condition = comparison(variable("x"), "<", number("3"));
    let body = block(vec![statement(assignment("x", number("3")))]);
    assert_eq!(
        walk_statement(&statement(control(NodeKind::IfStatement, condition, body))),
        Ok("if(x < 3){x = 3;}".to_string())
    );
    let condition = comparison(variable("x"), "<", number("3"));
    let body = block(vec![statement(assignment("x", number("3")))]);
    assert_eq!(
        walk_statement(&statement(control(NodeKind::WhileLoop, condition, body))),
        Ok("while(x < 3){x = 3;}".to_string())
    );
}

#[test]
fn statement_without_children_is_empty() {
    assert_eq!(walk_statement(&leaf(NodeKind::Statement, ";")), Ok(String::new()));
}

#[test]
fn statement_is_decided_by_its_first_child() {
    let node = Node::new(
        NodeKind::Statement,
        "int x; ?",
        vec![declaration("int", "x"), leaf(NodeKind::Block, "?")],
    );
    assert_eq!(walk_statement(&node), Ok("int x;".to_string()));
}

#[test]
fn statement_rejects_any_other_child() {
    let kinds = [
        NodeKind::Program,
        NodeKind::Statement,
        NodeKind::ParamsList,
        NodeKind::Block,
        NodeKind::BooleanExpression,
        NodeKind::ComparisonOperator,
        NodeKind::Identifier,
        NodeKind::Number,
        NodeKind::Type,
        NodeKind::EndOfInput,
    ];
    for kind in kinds {
        let node = Node::new(NodeKind::Statement, "?", vec![leaf(kind, "?")]);
        assert_eq!(walk_statement(&node), Err(unexpected(NodeKind::Statement, kind)));
    }
}

#[test]
fn block_concatenates_without_separator() {
    let node = block(vec![
        statement(declaration("int", "x")),
        statement(assignment("x", number("5"))),
    ]);
    assert_eq!(walk_block(&node), Ok("int x;x = 5;".to_string()));
    assert_eq!(walk_block(&block(vec![])), Ok(String::new()));
}

#[test]
fn block_rejects_a_child_that_is_no_statement() {
    let node = block(vec![statement(declaration("int", "x")), declaration("int", "y")]);
    assert_eq!(walk_block(&node), Err(unexpected(NodeKind::Block, NodeKind::Declaration)));
}

#[test]
fn block_stops_at_the_first_violation() {
    let bad = Node::new(NodeKind::Statement, "?", vec![leaf(NodeKind::Number, "1")]);
    let node = block(vec![statement(declaration("int", "x")), bad, leaf(NodeKind::Type, "int")]);
    assert_eq!(walk_block(&node), Err(unexpected(NodeKind::Statement, NodeKind::Number)));
}

#[test]
fn if_statement_with_two_statements_in_its_block() {
    let condition = comparison(variable("x"), "<", number("10"));
    let body = block(vec![
        statement(assignment("x", number("1"))),
        statement(call("print", vec![variable("x")])),
    ]);
    let node = control(NodeKind::IfStatement, condition, body);
    assert_eq!(walk_if_statement(&node), Ok("if(x < 10){x = 1;print(x);}".to_string()));
}

#[test]
fn while_loop_with_two_statements_in_its_block() {
    let condition = comparison(variable("i"), "!=", variable("n"));
    let body = block(vec![
        statement(call("step", vec![])),
        statement(assignment("i", variable("j"))),
    ]);
    let node = control(NodeKind::WhileLoop, condition, body);
    assert_eq!(walk_while_loop(&node), Ok("while(i != n){step();i = j;}".to_string()));
}

#[test]
fn control_flow_with_empty_block() {
    let node = control(
        NodeKind::IfStatement,
        comparison(number("1"), "==", number("1")),
        block(vec![]),
    );
    assert_eq!(walk_if_statement(&node), Ok("if(1 == 1){}".to_string()));
    assert_eq!(walk_while_loop(&node), Ok("while(1 == 1){}".to_string()));
    assert_eq!(walk_control_flow(&node, "unless"), Ok("unless(1 == 1){}".to_string()));
}

#[test]
fn control_flow_nests() {
    let inner = control(
        NodeKind::WhileLoop,
        comparison(variable("b"), ">", number("0")),
        block(vec![statement(assignment("b", number("0")))]),
    );
    let outer = control(
        NodeKind::IfStatement,
        comparison(variable("a"), "<", variable("b")),
        block(vec![statement(inner), statement(declaration("int", "c"))]),
    );
    assert_eq!(
        walk_if_statement(&outer),
        Ok("if(a < b){while(b > 0){b = 0;}int c;}".to_string())
    );
}

#[test]
fn control_flow_rejects_wrong_shape() {
    let empty = leaf(NodeKind::IfStatement, "");
    assert_eq!(walk_if_statement(&empty), Err(missing(NodeKind::IfStatement, 0)));
    let no_block = Node::new(
        NodeKind::WhileLoop,
        "while(x < 1)",
        vec![comparison(variable("x"), "<", number("1"))],
    );
    assert_eq!(walk_while_loop(&no_block), Err(missing(NodeKind::WhileLoop, 1)));
    let swapped = control(
        NodeKind::IfStatement,
        block(vec![]),
        comparison(variable("x"), "<", number("1")),
    );
    assert_eq!(
        walk_if_statement(&swapped),
        Err(unexpected(NodeKind::IfStatement, NodeKind::Block))
    );
    let statement_as_body = control(
        NodeKind::WhileLoop,
        comparison(variable("x"), "<", number("1")),
        statement(declaration("int", "x")),
    );
    assert_eq!(
        walk_while_loop(&statement_as_body),
        Err(unexpected(NodeKind::WhileLoop, NodeKind::Statement))
    );
}

#[test]
fn control_flow_reports_condition_before_body() {
    let bad_condition = comparison(
        Node::new(NodeKind::Expression, "?", vec![leaf(NodeKind::Type, "int")]),
        "<",
        number("1"),
    );
    let bad_body = block(vec![leaf(NodeKind::Number, "1")]);
    let node = control(NodeKind::IfStatement, bad_condition, bad_body);
    assert_eq!(walk_if_statement(&node), Err(unexpected(NodeKind::Expression, NodeKind::Type)));
}

#[test]
fn program_puts_each_statement_on_a_line() {
    let tree = program(vec![
        statement(declaration("int", "x")),
        statement(assignment("x", number("5"))),
    ]);
    assert_eq!(walk_program(&tree), Ok("int x;\nx = 5;\n".to_string()));
}

#[test]
fn program_without_statements_is_empty() {
    assert_eq!(walk_program(&program(vec![])), Ok(String::new()));
    assert_eq!(walk_program(&leaf(NodeKind::Program, "")), Ok(String::new()));
}

#[test]
fn program_gives_an_empty_statement_a_line() {
    let tree = program(vec![leaf(NodeKind::Statement, ";"), statement(declaration("int", "x"))]);
    assert_eq!(walk_program(&tree), Ok("\nint x;\n".to_string()));
}

#[test]
fn program_skips_end_of_input_wherever_it_stands() {
    let tree = Node::new(
        NodeKind::Program,
        "...",
        vec![
            leaf(NodeKind::EndOfInput, ""),
            statement(declaration("int", "x")),
            leaf(NodeKind::EndOfInput, ""),
        ],
    );
    assert_eq!(walk_program(&tree), Ok("int x;\n".to_string()));
}

#[test]
fn program_rejects_any_other_child() {
    let kinds = [
        NodeKind::Program,
        NodeKind::Assignment,
        NodeKind::Declaration,
        NodeKind::Expression,
        NodeKind::FunctionCall,
        NodeKind::ParamsList,
        NodeKind::IfStatement,
        NodeKind::WhileLoop,
        NodeKind::Block,
        NodeKind::BooleanExpression,
        NodeKind::ComparisonOperator,
        NodeKind::Identifier,
        NodeKind::Number,
        NodeKind::Type,
    ];
    for kind in kinds {
        let tree = program(vec![statement(declaration("int", "x")), leaf(kind, "?")]);
        assert_eq!(walk_program(&tree), Err(unexpected(NodeKind::Program, kind)));
        assert_eq!(generate_c_code(&tree), Err(unexpected(NodeKind::Program, kind)));
    }
}

#[test]
fn program_stops_at_the_first_violation() {
    let bad = Node::new(NodeKind::Statement, "?", vec![leaf(NodeKind::Number, "1")]);
    let tree = program(vec![bad, leaf(NodeKind::Block, "{}")]);
    assert_eq!(walk_program(&tree), Err(unexpected(NodeKind::Statement, NodeKind::Number)));
}

#[test]
fn generate_wraps_the_body_in_main() {
    let tree = program(vec![
        statement(declaration("int", "x")),
        statement(assignment("x", number("5"))),
    ]);
    assert_eq!(
        generate_c_code(&tree),
        Ok("#include <stdio.h>\nint main() {\nint x;\nx = 5;\n\nreturn 0;\n}".to_string())
    );
}

#[test]
fn generate_emits_two_lines_for_two_statements() {
    let tree = program(vec![
        statement(declaration("int", "x")),
        statement(assignment("x", number("5"))),
    ]);
    let body = walk_program(&tree).unwrap();
    let lines: Vec<&str> = body.lines().collect();
    assert_eq!(lines, vec!["int x;", "x = 5;"]);
    let unit = generate_c_code(&tree).unwrap();
    let unit_lines: Vec<&str> = unit.lines().collect();
    assert_eq!(
        unit_lines,
        vec!["#include <stdio.h>", "int main() {", "int x;", "x = 5;", "", "return 0;", "}"]
    );
}

#[test]
fn generate_of_empty_program_is_the_bare_template() {
    assert_eq!(
        generate_c_code(&program(vec![])),
        Ok("#include <stdio.h>\nint main() {\n\nreturn 0;\n}".to_string())
    );
}

#[test]
fn generate_of_a_whole_program() {
    let tree = program(vec![
        statement(declaration("int", "i")),
        statement(assignment("i", number("0"))),
        statement(control(
            NodeKind::WhileLoop,
            comparison(variable("i"), "<", number("3")),
            block(vec![
                statement(call("printf", vec![variable("i")])),
                statement(control(
                    NodeKind::IfStatement,
                    comparison(variable("i"), "==", number("1")),
                    block(vec![statement(assignment("i", number("2")))]),
                )),
            ]),
        )),
    ]);
    assert_eq!(
        generate_c_code(&tree),
        Ok("#include <stdio.h>\nint main() {\nint i;\ni = 0;\nwhile(i < 3){printf(i);if(i == 1){i = 2;}}\n\nreturn 0;\n}"
            .to_string())
    );
}

#[test]
fn generate_rejects_a_root_that_is_no_program() {
    let kinds = [
        NodeKind::Statement,
        NodeKind::Assignment,
        NodeKind::Declaration,
        NodeKind::Expression,
        NodeKind::FunctionCall,
        NodeKind::ParamsList,
        NodeKind::IfStatement,
        NodeKind::WhileLoop,
        NodeKind::Block,
        NodeKind::BooleanExpression,
        NodeKind::ComparisonOperator,
        NodeKind::Identifier,
        NodeKind::Number,
        NodeKind::Type,
        NodeKind::EndOfInput,
    ];
    for kind in kinds {
        let tree = Node::new(kind, "int x;", vec![statement(declaration("int", "x"))]);
        assert_eq!(generate_c_code(&tree), Err(Violation::InvalidRoot { found: kind }));
    }
}

#[test]
fn generate_hands_on_a_violation_deep_in_the_tree() {
    let bad_param = Node::new(NodeKind::Expression, "int", vec![leaf(NodeKind::Type, "int")]);
    let tree = program(vec![statement(control(
        NodeKind::IfStatement,
        comparison(variable("a"), "<", variable("b")),
        block(vec![statement(call("f", vec![number("1"), bad_param]))]),
    ))]);
    assert_eq!(generate_c_code(&tree), Err(unexpected(NodeKind::Expression, NodeKind::Type)));
}

#[test]
fn expect_child_finds_checks_and_misses() {
    let node = declaration("int", "x");
    assert_eq!(expect_child(&node, 0, NodeKind::Type), Ok(&node.children[0]));
    assert_eq!(expect_child(&node, 1, NodeKind::Identifier), Ok(&node.children[1]));
    assert_eq!(
        expect_child(&node, 1, NodeKind::Type),
        Err(unexpected(NodeKind::Declaration, NodeKind::Identifier))
    );
    assert_eq!(expect_child(&node, 2, NodeKind::Type), Err(missing(NodeKind::Declaration, 2)));
    assert_eq!(
        expect_child(&node, usize::MAX, NodeKind::Type),
        Err(missing(NodeKind::Declaration, usize::MAX))
    );
}
