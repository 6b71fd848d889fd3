//! The code generator: a walk over the parse tree that writes C.

use vstd::prelude::*;
use vstd::string::StringExecFns;
use crate::translation::{
    assignment_code, block_code, block_prefix, boolean_expression_code, child_violation,
    control_flow_code, declaration_code, expression_code, function_call_code, if_statement_code,
    lemma_block_violation_is_final, lemma_params_violation_is_final,
    lemma_program_violation_is_final, outcome, params_list_code, params_prefix, program_code,
    program_prefix, statement_code, translation_unit, while_loop_code,
};
use crate::tree::{Node, NodeKind};
use crate::violation::Violation;

verus! {

/// Child number `index` of `node`, if it is there and of kind `expected`.
pub fn expect_child(node: &Node, index: usize, expected: NodeKind) -> (result: Result<
    &Node,
    Violation,
>)
    ensures
        match result {
            Ok(child) => child_violation(node, index as int, expected) is None
                && index < node.children.len() && *child == node.children[index as int],
            Err(violation) => child_violation(node, index as int, expected) == Some(violation),
        },
{
    if index >= node.children.len() {
        return Err(Violation::MissingChild { parent: node.kind, index });
    }
    let child = &node.children[index];
    if child.kind != expected {
        return Err(Violation::UnexpectedKind { parent: node.kind, found: child.kind });
    }
    Ok(child)
}

/// Writes a declaration: `<type> <identifier>;`.
pub fn walk_declaration(declaration: &Node) -> (result: Result<String, Violation>)
    ensures
        outcome(result) == declaration_code(declaration),
{
    let var_type = match expect_child(declaration, 0, NodeKind::Type) {
        Ok(child) => child,
        Err(violation) => { return Err(violation); },
    };
    let identifier = match expect_child(declaration, 1, NodeKind::Identifier) {
        Ok(child) => child,
        Err(violation) => { return Err(violation); },
    };
    let mut code = var_type.text.clone();
    code.append(" ");
    code.append(identifier.text.as_str());
    code.append(";");
    Ok(code)
}

/// Writes an expression: its own text where it has no children, else what
/// its first child stands for.
pub fn walk_expression(expression: &Node) -> (result: Result<String, Violation>)
    ensures
        outcome(result) == expression_code(expression),
    decreases expression, 0nat,
{
    if expression.children.len() == 0 {
        return Ok(expression.text.clone());
    }
    let child = &expression.children[0];
    match child.kind {
        NodeKind::Number | NodeKind::Identifier => Ok(child.text.clone()),
        NodeKind::FunctionCall => walk_function_call(child),
        _ => Err(Violation::UnexpectedKind { parent: expression.kind, found: child.kind }),
    }
}

/// Writes the parameters of a call, joined with `, `.
pub fn walk_params_list(params_list: &Node) -> (result: Result<String, Violation>)
    ensures
        outcome(result) == params_list_code(params_list),
    decreases params_list, 1nat,
{
    let mut params = String::new();
    let count = params_list.children.len();
    let mut index: usize = 0;
    while index < count
        invariant
            count == params_list.children.len(),
            index <= count,
            params_prefix(params_list, index as int) == Ok::<Seq<char>, Violation>(params@),
        decreases count - index,
    {
        proof {
            if params_prefix(params_list, index + 1) is Err {
                lemma_params_violation_is_final(params_list, index + 1, count as int);
            }
        }
        let param = match expect_child(params_list, index, NodeKind::Expression) {
            Ok(child) => child,
            Err(violation) => { return Err(violation); },
        };
        let code = match walk_expression(param) {
            Ok(code) => code,
            Err(violation) => { return Err(violation); },
        };
        if index == 0 {
            params = code;
        } else {
            params.append(", ");
            params.append(code.as_str());
        }
        index += 1;
    }
    Ok(params)
}

/// Writes a call: `<name>(<params>);`.
pub fn walk_function_call(function_call: &Node) -> (result: Result<String, Violation>)
    ensures
        outcome(result) == function_call_code(function_call),
    decreases function_call, 0nat,
{
    let name = match expect_child(function_call, 0, NodeKind::Identifier) {
        Ok(child) => child,
        Err(violation) => { return Err(violation); },
    };
    let params_list = match expect_child(function_call, 1, NodeKind::ParamsList) {
        Ok(child) => child,
        Err(violation) => { return Err(violation); },
    };
    let params = match walk_params_list(params_list) {
        Ok(params) => params,
        Err(violation) => { return Err(violation); },
    };
    let mut code = name.text.clone();
    code.append("(");
    code.append(params.as_str());
    code.append(");");
    Ok(code)
}

/// Writes an assignment: `<identifier> = <expression>;`.
pub fn walk_assignment(assignment: &Node) -> (result: Result<String, Violation>)
    ensures
        outcome(result) == assignment_code(assignment),
{
    let identifier = match expect_child(assignment, 0, NodeKind::Identifier) {
        Ok(child) => child,
        Err(violation) => { return Err(violation); },
    };
    let value_node = match expect_child(assignment, 1, NodeKind::Expression) {
        Ok(child) => child,
        Err(violation) => { return Err(violation); },
    };
    let value = match walk_expression(value_node) {
        Ok(value) => value,
        Err(violation) => { return Err(violation); },
    };
    let mut code = identifier.text.clone();
    code.append(" = ");
    code.append(value.as_str());
    code.append(";");
    Ok(code)
}

/// The comparison operator as it was written.
pub fn walk_number_comparison(comparison: &Node) -> (result: String)
    ensures
        result@ == comparison.text@,
{
    comparison.text.clone()
}

/// Writes a boolean expression: `<left> <operator> <right>`.
pub fn walk_boolean_expression(boolean_expression: &Node) -> (result: Result<String, Violation>)
    ensures
        outcome(result) == boolean_expression_code(boolean_expression),
{
    let left_side = match expect_child(boolean_expression, 0, NodeKind::Expression) {
        Ok(child) => child,
        Err(violation) => { return Err(violation); },
    };
    let comparison = match expect_child(boolean_expression, 1, NodeKind::ComparisonOperator) {
        Ok(child) => child,
        Err(violation) => { return Err(violation); },
    };
    let right_side = match expect_child(boolean_expression, 2, NodeKind::Expression) {
        Ok(child) => child,
        Err(violation) => { return Err(violation); },
    };
    let mut code = match walk_expression(left_side) {
        Ok(left) => left,
        Err(violation) => { return Err(violation); },
    };
    let right = match walk_expression(right_side) {
        Ok(right) => right,
        Err(violation) => { return Err(violation); },
    };
    let operator = walk_number_comparison(comparison);
    code.append(" ");
    code.append(operator.as_str());
    code.append(" ");
    code.append(right.as_str());
    Ok(code)
}

/// Writes a statement: what its first child stands for, or nothing where it
/// has no child.
pub fn walk_statement(statement: &Node) -> (result: Result<String, Violation>)
    ensures
        outcome(result) == statement_code(statement),
    decreases statement, 0nat,
{
    if statement.children.len() == 0 {
        return Ok(String::new());
    }
    let child = &statement.children[0];
    match child.kind {
        NodeKind::Assignment => walk_assignment(child),
        NodeKind::Declaration => walk_declaration(child),
        NodeKind::Expression => walk_expression(child),
        NodeKind::FunctionCall => walk_function_call(child),
        NodeKind::IfStatement => walk_if_statement(child),
        NodeKind::WhileLoop => walk_while_loop(child),
        _ => Err(Violation::UnexpectedKind { parent: statement.kind, found: child.kind }),
    }
}

/// Writes the statements of a block one after the other.
pub fn walk_block(block: &Node) -> (result: Result<String, Violation>)
    ensures
        outcome(result) == block_code(block),
    decreases block, 1nat,
{
    let mut code = String::new();
    let count = block.children.len();
    let mut index: usize = 0;
    while index < count
        invariant
            count == block.children.len(),
            index <= count,
            block_prefix(block, index as int) == Ok::<Seq<char>, Violation>(code@),
        decreases count - index,
    {
        proof {
            if block_prefix(block, index + 1) is Err {
                lemma_block_violation_is_final(block, index + 1, count as int);
            }
        }
        let statement = match expect_child(block, index, NodeKind::Statement) {
            Ok(child) => child,
            Err(violation) => { return Err(violation); },
        };
        let written = match walk_statement(statement) {
            Ok(written) => written,
            Err(violation) => { return Err(violation); },
        };
        code.append(written.as_str());
        index += 1;
    }
    Ok(code)
}

/// Writes a condition and a body under `keyword`:
/// `<keyword>(<condition>){<body>}`.
pub fn walk_control_flow(node: &Node, keyword: &str) -> (result: Result<String, Violation>)
    ensures
        outcome(result) == control_flow_code(node, keyword@),
    decreases node, 0nat,
{
    let boolean_expression = match expect_child(node, 0, NodeKind::BooleanExpression) {
        Ok(child) => child,
        Err(violation) => { return Err(violation); },
    };
    let block = match expect_child(node, 1, NodeKind::Block) {
        Ok(child) => child,
        Err(violation) => { return Err(violation); },
    };
    let condition = match walk_boolean_expression(boolean_expression) {
        Ok(condition) => condition,
        Err(violation) => { return Err(violation); },
    };
    let body = match walk_block(block) {
        Ok(body) => body,
        Err(violation) => { return Err(violation); },
    };
    let mut code = keyword.to_owned();
    code.append("(");
    code.append(condition.as_str());
    code.append("){");
    code.append(body.as_str());
    code.append("}");
    Ok(code)
}

/// Writes a conditional: `if(<condition>){<body>}`.
pub fn walk_if_statement(if_statement: &Node) -> (result: Result<String, Violation>)
    ensures
        outcome(result) == if_statement_code(if_statement),
    decreases if_statement, 1nat,
{
    walk_control_flow(if_statement, "if")
}

/// Writes a loop: `while(<condition>){<body>}`.
pub fn walk_while_loop(while_loop: &Node) -> (result: Result<String, Violation>)
    ensures
        outcome(result) == while_loop_code(while_loop),
    decreases while_loop, 1nat,
{
    walk_control_flow(while_loop, "while")
}

/// Writes the body of a program: each statement on a line of its own. The
/// end-of-input marker writes nothing.
pub fn walk_program(program: &Node) -> (result: Result<String, Violation>)
    ensures
        outcome(result) == program_code(program),
{
    let mut c_code = String::new();
    let count = program.children.len();
    let mut index: usize = 0;
    while index < count
        invariant
            count == program.children.len(),
            index <= count,
            program_prefix(program, index as int) == Ok::<Seq<char>, Violation>(c_code@),
        decreases count - index,
    {
        proof {
            if program_prefix(program, index + 1) is Err {
                lemma_program_violation_is_final(program, index + 1, count as int);
            }
        }
        let child = &program.children[index];
        match child.kind {
            NodeKind::Statement => {
                let written = match walk_statement(child) {
                    Ok(written) => written,
                    Err(violation) => { return Err(violation); },
                };
                c_code.append(written.as_str());
                c_code.append("\n");
            },
            NodeKind::EndOfInput => {},
            _ => {
                return Err(Violation::UnexpectedKind { parent: program.kind, found: child.kind });
            },
        }
        index += 1;
    }
    Ok(c_code)
}

/// Generates the C translation unit of a program: its statements inside
/// `int main()`, after the include and before `return 0;`.
pub fn generate_c_code(tree: &Node) -> (result: Result<String, Violation>)
    ensures
        outcome(result) == translation_unit(tree),
{
    if tree.kind != NodeKind::Program {
        return Err(Violation::InvalidRoot { found: tree.kind });
    }
    let body = match walk_program(tree) {
        Ok(body) => body,
        Err(violation) => { return Err(violation); },
    };
    let mut unit = "#include <stdio.h>\nint main() {\n".to_owned();
    unit.append(body.as_str());
    unit.append("\nreturn 0;\n}");
    Ok(unit)
}

} // verus!
