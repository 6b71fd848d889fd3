//! The shape of a tree that a conformant parser produces, and the proof
//! that the generator succeeds on exactly those trees.

use vstd::prelude::*;
use crate::translation::{
    assignment_code, block_code, block_prefix, boolean_expression_code, comparison_violation,
    control_flow_code, declaration_code, expression_code, function_call_code, if_statement_code,
    pair_violation, params_list_code, params_prefix, program_code, program_prefix, statement_code,
    translation_unit, while_loop_code,
};
use crate::tree::{Node, NodeKind};

verus! {

/// An expression conforms if it has no children, or if its first child is a
/// number, an identifier or a conformant call.
pub open spec fn expression_conforms(node: &Node) -> bool
    decreases node, 0nat,
{
    node.children.len() == 0 || {
        let child = &node.children[0];
        match child.kind {
            NodeKind::Number | NodeKind::Identifier => true,
            NodeKind::FunctionCall => function_call_conforms(child),
            _ => false,
        }
    }
}

/// A parameter list conforms if every child is a conformant expression.
pub open spec fn params_list_conforms(node: &Node) -> bool
    decreases node, 0nat,
{
    forall|i: int|
        0 <= i < node.children.len() ==> (#[trigger] node.children[i]).kind
            == NodeKind::Expression && expression_conforms(&node.children[i])
}

/// A call conforms if it begins with a name and a conformant parameter
/// list.
pub open spec fn function_call_conforms(node: &Node) -> bool
    decreases node, 0nat,
{
    pair_violation(node, NodeKind::Identifier, NodeKind::ParamsList) is None
        && params_list_conforms(&node.children[1])
}

/// A declaration conforms if it begins with a type and a name.
pub open spec fn declaration_conforms(node: &Node) -> bool {
    pair_violation(node, NodeKind::Type, NodeKind::Identifier) is None
}

/// An assignment conforms if it begins with a name and a conformant
/// expression.
pub open spec fn assignment_conforms(node: &Node) -> bool {
    pair_violation(node, NodeKind::Identifier, NodeKind::Expression) is None
        && expression_conforms(&node.children[1])
}

/// A boolean expression conforms if it begins with a conformant expression,
/// a comparison operator and a conformant expression.
pub open spec fn boolean_expression_conforms(node: &Node) -> bool {
    comparison_violation(node) is None && expression_conforms(&node.children[0])
        && expression_conforms(&node.children[2])
}

/// A statement conforms if it has no children, or if its first child is a
/// conformant statement of one of the six kinds.
pub open spec fn statement_conforms(node: &Node) -> bool
    decreases node, 0nat,
{
    node.children.len() == 0 || {
        let child = &node.children[0];
        match child.kind {
            NodeKind::Assignment => assignment_conforms(child),
            NodeKind::Declaration => declaration_conforms(child),
            NodeKind::Expression => expression_conforms(child),
            NodeKind::FunctionCall => function_call_conforms(child),
            NodeKind::IfStatement | NodeKind::WhileLoop => control_flow_conforms(child),
            _ => false,
        }
    }
}

/// A block conforms if every child is a conformant statement.
pub open spec fn block_conforms(node: &Node) -> bool
    decreases node, 0nat,
{
    forall|i: int|
        0 <= i < node.children.len() ==> (#[trigger] node.children[i]).kind == NodeKind::Statement
            && statement_conforms(&node.children[i])
}

/// A conditional or a loop conforms if it begins with a conformant boolean
/// expression and a conformant block.
pub open spec fn control_flow_conforms(node: &Node) -> bool
    decreases node, 0nat,
{
    pair_violation(node, NodeKind::BooleanExpression, NodeKind::Block) is None
        && boolean_expression_conforms(&node.children[0]) && block_conforms(&node.children[1])
}

/// The children of a program conform if each is the end-of-input marker or
/// a conformant statement.
pub open spec fn program_conforms(node: &Node) -> bool {
    forall|i: int|
        0 <= i < node.children.len() ==> (#[trigger] node.children[i]).kind
            == NodeKind::EndOfInput || (node.children[i].kind == NodeKind::Statement
            && statement_conforms(&node.children[i]))
}

/// A tree conforms if its root is a program whose children conform.
pub open spec fn tree_conforms(node: &Node) -> bool {
    node.kind == NodeKind::Program && program_conforms(node)
}

/// An expression is translated if and only if it conforms.
pub proof fn lemma_expression_conforms(node: &Node)
    ensures
        expression_code(node) is Ok <==> expression_conforms(node),
    decreases node, 0nat,
{
    if node.children.len() > 0 && node.children[0].kind == NodeKind::FunctionCall {
        lemma_function_call_conforms(&node.children[0]);
    }
}

/// The first parameters of a list are translated if and only if each of
/// them is a conformant expression.
pub proof fn lemma_params_prefix_conforms(node: &Node, upto: int)
    requires
        0 <= upto <= node.children.len(),
    ensures
        params_prefix(node, upto) is Ok <==> forall|i: int|
            0 <= i < upto ==> (#[trigger] node.children[i]).kind == NodeKind::Expression
                && expression_conforms(&node.children[i]),
    decreases node, upto,
{
    if upto > 0 {
        lemma_params_prefix_conforms(node, upto - 1);
        lemma_expression_conforms(&node.children[upto - 1]);
    }
}

/// A parameter list is translated if and only if it conforms.
pub proof fn lemma_params_list_conforms(node: &Node)
    ensures
        params_list_code(node) is Ok <==> params_list_conforms(node),
    decreases node, node.children.len() + 1,
{
    lemma_params_prefix_conforms(node, node.children.len() as int);
}

/// A call is translated if and only if it conforms.
pub proof fn lemma_function_call_conforms(node: &Node)
    ensures
        function_call_code(node) is Ok <==> function_call_conforms(node),
    decreases node, 0nat,
{
    if pair_violation(node, NodeKind::Identifier, NodeKind::ParamsList) is None {
        lemma_params_list_conforms(&node.children[1]);
    }
}

/// A declaration is translated if and only if it conforms.
pub proof fn lemma_declaration_conforms(node: &Node)
    ensures
        declaration_code(node) is Ok <==> declaration_conforms(node),
{
}

/// An assignment is translated if and only if it conforms.
pub proof fn lemma_assignment_conforms(node: &Node)
    ensures
        assignment_code(node) is Ok <==> assignment_conforms(node),
{
    if pair_violation(node, NodeKind::Identifier, NodeKind::Expression) is None {
        lemma_expression_conforms(&node.children[1]);
    }
}

/// A boolean expression is translated if and only if it conforms.
pub proof fn lemma_boolean_expression_conforms(node: &Node)
    ensures
        boolean_expression_code(node) is Ok <==> boolean_expression_conforms(node),
{
    if comparison_violation(node) is None {
        lemma_expression_conforms(&node.children[0]);
        lemma_expression_conforms(&node.children[2]);
    }
}

/// A statement is translated if and only if it conforms.
pub proof fn lemma_statement_conforms(node: &Node)
    ensures
        statement_code(node) is Ok <==> statement_conforms(node),
    decreases node, 0nat,
{
    if node.children.len() > 0 {
        let child = &node.children[0];
        match child.kind {
            NodeKind::Assignment => lemma_assignment_conforms(child),
            NodeKind::Declaration => lemma_declaration_conforms(child),
            NodeKind::Expression => lemma_expression_conforms(child),
            NodeKind::FunctionCall => lemma_function_call_conforms(child),
            NodeKind::IfStatement => lemma_control_flow_conforms(child, "if"@),
            NodeKind::WhileLoop => lemma_control_flow_conforms(child, "while"@),
            _ => {},
        }
    }
}

/// The first statements of a block are translated if and only if each of
/// them is a conformant statement.
pub proof fn lemma_block_prefix_conforms(node: &Node, upto: int)
    requires
        0 <= upto <= node.children.len(),
    ensures
        block_prefix(node, upto) is Ok <==> forall|i: int|
            0 <= i < upto ==> (#[trigger] node.children[i]).kind == NodeKind::Statement
                && statement_conforms(&node.children[i]),
    decreases node, upto,
{
    if upto > 0 {
        lemma_block_prefix_conforms(node, upto - 1);
        lemma_statement_conforms(&node.children[upto - 1]);
    }
}

/// A block is translated if and only if it conforms.
pub proof fn lemma_block_conforms(node: &Node)
    ensures
        block_code(node) is Ok <==> block_conforms(node),
    decreases node, node.children.len() + 1,
{
    lemma_block_prefix_conforms(node, node.children.len() as int);
}

/// A conditional or a loop is translated if and only if it conforms,
/// whatever the keyword.
pub proof fn lemma_control_flow_conforms(node: &Node, keyword: Seq<char>)
    ensures
        control_flow_code(node, keyword) is Ok <==> control_flow_conforms(node),
    decreases node, 0nat,
{
    if pair_violation(node, NodeKind::BooleanExpression, NodeKind::Block) is None {
        lemma_boolean_expression_conforms(&node.children[0]);
        lemma_block_conforms(&node.children[1]);
    }
}

/// The first children of a program are translated if and only if each of
/// them is the end-of-input marker or a conformant statement.
pub proof fn lemma_program_prefix_conforms(node: &Node, upto: int)
    requires
        0 <= upto <= node.children.len(),
    ensures
        program_prefix(node, upto) is Ok <==> forall|i: int|
            0 <= i < upto ==> (#[trigger] node.children[i]).kind == NodeKind::EndOfInput || (
            node.children[i].kind == NodeKind::Statement && statement_conforms(
                &node.children[i],
            )),
    decreases upto,
{
    if upto > 0 {
        lemma_program_prefix_conforms(node, upto - 1);
        lemma_statement_conforms(&node.children[upto - 1]);
    }
}

/// A conditional is translated if and only if it conforms.
pub proof fn lemma_if_statement_conforms(node: &Node)
    ensures
        if_statement_code(node) is Ok <==> control_flow_conforms(node),
{
    lemma_control_flow_conforms(node, "if"@);
}

/// A loop is translated if and only if it conforms.
pub proof fn lemma_while_loop_conforms(node: &Node)
    ensures
        while_loop_code(node) is Ok <==> control_flow_conforms(node),
{
    lemma_control_flow_conforms(node, "while"@);
}

/// Generation succeeds on the conformant trees and on no others: a tree
/// with a node of a kind that its place does not accept, or with a node
/// that lacks a child, is never translated.
pub proof fn theorem_success_is_conformance(node: &Node)
    ensures
        program_code(node) is Ok <==> program_conforms(node),
        translation_unit(node) is Ok <==> tree_conforms(node),
{
    lemma_program_prefix_conforms(node, node.children.len() as int);
}

} // verus!
