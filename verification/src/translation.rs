//! What each kind of node stands for in C, stated over the tree alone.
//!
//! Every function here is a specification: it gives the text that a node
//! translates to, or the first structural violation that a walk in child
//! order meets. The executable translators are held to these.

use vstd::prelude::*;
use crate::tree::{Node, NodeKind};
use crate::violation::Violation;

verus! {

/// The text of a fragment, or the violation that stopped the walk.
pub type Code = Result<Seq<char>, Violation>;

/// What is wrong with child number `index` of `node`, if it is to be of kind
/// `expected`: it is missing, or it is of another kind.
pub open spec fn child_violation(node: &Node, index: int, expected: NodeKind) -> Option<Violation> {
    if index < 0 || index >= node.children.len() {
        Some(Violation::MissingChild { parent: node.kind, index: index as usize })
    } else if node.children[index].kind != expected {
        Some(Violation::UnexpectedKind { parent: node.kind, found: node.children[index].kind })
    } else {
        None
    }
}

/// What is wrong with the first two children of `node`, looked at in order.
pub open spec fn pair_violation(node: &Node, first: NodeKind, second: NodeKind) -> Option<
    Violation,
> {
    match child_violation(node, 0, first) {
        Some(violation) => Some(violation),
        None => child_violation(node, 1, second),
    }
}

/// A declaration is its type and its name: `<type> <identifier>;`.
pub open spec fn declaration_code(node: &Node) -> Code {
    match pair_violation(node, NodeKind::Type, NodeKind::Identifier) {
        Some(violation) => Err(violation),
        None => Ok(node.children[0].text@ + " "@ + node.children[1].text@ + ";"@),
    }
}

/// An expression without children is its own source text. Otherwise its
/// first child decides: a number or an identifier is that child's text, a
/// function call is the translated call.
pub open spec fn expression_code(node: &Node) -> Code
    decreases node, 0nat,
{
    if node.children.len() == 0 {
        Ok(node.text@)
    } else {
        let child = &node.children[0];
        match child.kind {
            NodeKind::Number | NodeKind::Identifier => Ok(child.text@),
            NodeKind::FunctionCall => function_call_code(child),
            _ => Err(Violation::UnexpectedKind { parent: node.kind, found: child.kind }),
        }
    }
}

/// The first `upto` parameters of a parameter list, each translated as an
/// expression, with `, ` between neighbours.
pub open spec fn params_prefix(node: &Node, upto: int) -> Code
    decreases node, upto,
{
    if upto <= 0 || upto > node.children.len() {
        Ok(Seq::empty())
    } else {
        match params_prefix(node, upto - 1) {
            Err(violation) => Err(violation),
            Ok(before) => match child_violation(node, upto - 1, NodeKind::Expression) {
                Some(violation) => Err(violation),
                None => match expression_code(&node.children[upto - 1]) {
                    Err(violation) => Err(violation),
                    Ok(param) => Ok(
                        if upto == 1 {
                            param
                        } else {
                            before + ", "@ + param
                        },
                    ),
                },
            },
        }
    }
}

/// A parameter list is all its parameters joined with `, `.
pub open spec fn params_list_code(node: &Node) -> Code
    decreases node, node.children.len() + 1,
{
    params_prefix(node, node.children.len() as int)
}

/// A call is `<name>(<params>);`. The terminator is part of it wherever the
/// call stands, also inside an expression.
pub open spec fn function_call_code(node: &Node) -> Code
    decreases node, 0nat,
{
    match pair_violation(node, NodeKind::Identifier, NodeKind::ParamsList) {
        Some(violation) => Err(violation),
        None => match params_list_code(&node.children[1]) {
            Err(violation) => Err(violation),
            Ok(params) => Ok(node.children[0].text@ + "("@ + params + ");"@),
        },
    }
}

/// An assignment is `<identifier> = <expression>;`, the expression
/// translated.
pub open spec fn assignment_code(node: &Node) -> Code {
    match pair_violation(node, NodeKind::Identifier, NodeKind::Expression) {
        Some(violation) => Err(violation),
        None => match expression_code(&node.children[1]) {
            Err(violation) => Err(violation),
            Ok(value) => Ok(node.children[0].text@ + " = "@ + value + ";"@),
        },
    }
}

/// What is wrong with the three children of a boolean expression, looked at
/// in order.
pub open spec fn comparison_violation(node: &Node) -> Option<Violation> {
    match pair_violation(node, NodeKind::Expression, NodeKind::ComparisonOperator) {
        Some(violation) => Some(violation),
        None => child_violation(node, 2, NodeKind::Expression),
    }
}

/// A boolean expression is `<left> <operator> <right>`: both sides
/// translated, the operator as it was written.
pub open spec fn boolean_expression_code(node: &Node) -> Code {
    match comparison_violation(node) {
        Some(violation) => Err(violation),
        None => match expression_code(&node.children[0]) {
            Err(violation) => Err(violation),
            Ok(left) => match expression_code(&node.children[2]) {
                Err(violation) => Err(violation),
                Ok(right) => Ok(left + " "@ + node.children[1].text@ + " "@ + right),
            },
        },
    }
}

/// A statement without children is empty text. Otherwise its first child
/// decides, and must be one of the six kinds of statement.
pub open spec fn statement_code(node: &Node) -> Code
    decreases node, 0nat,
{
    if node.children.len() == 0 {
        Ok(Seq::empty())
    } else {
        let child = &node.children[0];
        match child.kind {
            NodeKind::Assignment => assignment_code(child),
            NodeKind::Declaration => declaration_code(child),
            NodeKind::Expression => expression_code(child),
            NodeKind::FunctionCall => function_call_code(child),
            NodeKind::IfStatement => if_statement_code(child),
            NodeKind::WhileLoop => while_loop_code(child),
            _ => Err(Violation::UnexpectedKind { parent: node.kind, found: child.kind }),
        }
    }
}

/// The first `upto` statements of a block, one after the other with nothing
/// between them.
pub open spec fn block_prefix(node: &Node, upto: int) -> Code
    decreases node, upto,
{
    if upto <= 0 || upto > node.children.len() {
        Ok(Seq::empty())
    } else {
        match block_prefix(node, upto - 1) {
            Err(violation) => Err(violation),
            Ok(before) => match child_violation(node, upto - 1, NodeKind::Statement) {
                Some(violation) => Err(violation),
                None => match statement_code(&node.children[upto - 1]) {
                    Err(violation) => Err(violation),
                    Ok(statement) => Ok(before + statement),
                },
            },
        }
    }
}

/// A block is all its statements, one after the other.
pub open spec fn block_code(node: &Node) -> Code
    decreases node, node.children.len() + 1,
{
    block_prefix(node, node.children.len() as int)
}

/// A condition and a body under a keyword: `<keyword>(<condition>){<body>}`.
pub open spec fn control_flow_code(node: &Node, keyword: Seq<char>) -> Code
    decreases node, 0nat,
{
    match pair_violation(node, NodeKind::BooleanExpression, NodeKind::Block) {
        Some(violation) => Err(violation),
        None => match boolean_expression_code(&node.children[0]) {
            Err(violation) => Err(violation),
            Ok(condition) => match block_code(&node.children[1]) {
                Err(violation) => Err(violation),
                Ok(body) => Ok(keyword + "("@ + condition + "){"@ + body + "}"@),
            },
        },
    }
}

/// `if(<condition>){<body>}`.
pub open spec fn if_statement_code(node: &Node) -> Code
    decreases node, 1nat,
{
    control_flow_code(node, "if"@)
}

/// `while(<condition>){<body>}`.
pub open spec fn while_loop_code(node: &Node) -> Code
    decreases node, 1nat,
{
    control_flow_code(node, "while"@)
}

/// The first `upto` children of a program: each statement translated and
/// followed by a line break, the end-of-input marker passed over.
pub open spec fn program_prefix(node: &Node, upto: int) -> Code
    decreases upto,
{
    if upto <= 0 || upto > node.children.len() {
        Ok(Seq::empty())
    } else {
        match program_prefix(node, upto - 1) {
            Err(violation) => Err(violation),
            Ok(before) => {
                let child = &node.children[upto - 1];
                match child.kind {
                    NodeKind::Statement => match statement_code(child) {
                        Err(violation) => Err(violation),
                        Ok(statement) => Ok(before + statement + "\n"@),
                    },
                    NodeKind::EndOfInput => Ok(before),
                    _ => Err(Violation::UnexpectedKind { parent: node.kind, found: child.kind }),
                }
            },
        }
    }
}

/// The body of a program: all its statements, one per line.
pub open spec fn program_code(node: &Node) -> Code {
    program_prefix(node, node.children.len() as int)
}

/// What stands before the body in every translation unit.
pub open spec fn unit_head() -> Seq<char> {
    "#include <stdio.h>\nint main() {\n"@
}

/// What stands after the body in every translation unit.
pub open spec fn unit_tail() -> Seq<char> {
    "\nreturn 0;\n}"@
}

/// A complete translation unit: the body of the program inside the fixed
/// entry point. Only a program can be the root.
pub open spec fn translation_unit(node: &Node) -> Code {
    if node.kind != NodeKind::Program {
        Err(Violation::InvalidRoot { found: node.kind })
    } else {
        match program_code(node) {
            Err(violation) => Err(violation),
            Ok(body) => Ok(unit_head() + body + unit_tail()),
        }
    }
}

/// A translator's result as the specification sees it: the text by its
/// characters.
pub open spec fn outcome(result: Result<String, Violation>) -> Code {
    match result {
        Ok(text) => Ok(text@),
        Err(violation) => Err(violation),
    }
}

/// A violation among the first parameters is the violation of the whole
/// list: the walk stops at the first one it meets.
pub proof fn lemma_params_violation_is_final(node: &Node, met: int, upto: int)
    requires
        0 <= met <= upto <= node.children.len(),
        params_prefix(node, met) is Err,
    ensures
        params_prefix(node, upto) == params_prefix(node, met),
    decreases upto - met,
{
    if met < upto {
        lemma_params_violation_is_final(node, met, upto - 1);
    }
}

/// A violation among the first statements of a block is the violation of
/// the whole block.
pub proof fn lemma_block_violation_is_final(node: &Node, met: int, upto: int)
    requires
        0 <= met <= upto <= node.children.len(),
        block_prefix(node, met) is Err,
    ensures
        block_prefix(node, upto) == block_prefix(node, met),
    decreases upto - met,
{
    if met < upto {
        lemma_block_violation_is_final(node, met, upto - 1);
    }
}

/// A violation among the first children of a program is the violation of
/// the whole program.
pub proof fn lemma_program_violation_is_final(node: &Node, met: int, upto: int)
    requires
        0 <= met <= upto <= node.children.len(),
        program_prefix(node, met) is Err,
    ensures
        program_prefix(node, upto) == program_prefix(node, met),
    decreases upto - met,
{
    if met < upto {
        lemma_program_violation_is_final(node, met, upto - 1);
    }
}

} // verus!
