//! What holds of the generator on every tree, stated character by
//! character and proved from the specification of each translator.

use vstd::prelude::*;
use crate::translation::{
    assignment_code, block_code, block_prefix, boolean_expression_code, comparison_violation,
    declaration_code, expression_code, function_call_code, if_statement_code,
    lemma_block_violation_is_final, lemma_params_violation_is_final,
    lemma_program_violation_is_final, pair_violation, params_list_code, program_code,
    statement_code, translation_unit, while_loop_code,
};
use crate::tree::{Node, NodeKind};
use crate::violation::Violation;

verus! {

/// A declaration of a type and a name is written `<type> <name>;`: the two
/// texts as they stand, one space between them, one semicolon behind them.
pub proof fn law_declaration(node: &Node)
    requires
        node.children.len() >= 2,
        node.children[0].kind == NodeKind::Type,
        node.children[1].kind == NodeKind::Identifier,
    ensures
        declaration_code(node) == Ok::<Seq<char>, Violation>(
            node.children[0].text@ + seq![' '] + node.children[1].text@ + seq![';'],
        ),
{
    reveal_strlit(" ");
    reveal_strlit(";");
    assert(" "@ =~= seq![' ']);
    assert(";"@ =~= seq![';']);
}

/// An assignment of an expression to a name is written
/// `<name> = <value>;`, where `<value>` is the expression as the generator
/// writes it; a violation inside the expression is the assignment's.
pub proof fn law_assignment(node: &Node)
    requires
        node.children.len() >= 2,
        node.children[0].kind == NodeKind::Identifier,
        node.children[1].kind == NodeKind::Expression,
    ensures
        match expression_code(&node.children[1]) {
            Ok(value) => assignment_code(node) == Ok::<Seq<char>, Violation>(
                node.children[0].text@ + seq![' ', '=', ' '] + value + seq![';'],
            ),
            Err(violation) => assignment_code(node) == Err::<Seq<char>, Violation>(violation),
        },
{
    reveal_strlit(" = ");
    reveal_strlit(";");
    assert(" = "@ =~= seq![' ', '=', ' ']);
    assert(";"@ =~= seq![';']);
}

/// An expression whose first child is a number or an identifier is that
/// child's source text, unchanged.
pub proof fn law_atom_is_echoed(node: &Node)
    requires
        node.children.len() >= 1,
        node.children[0].kind == NodeKind::Number || node.children[0].kind
            == NodeKind::Identifier,
    ensures
        expression_code(node) == Ok::<Seq<char>, Violation>(node.children[0].text@),
{
}

/// An expression without children is its own source text, unchanged.
pub proof fn law_bare_expression_is_echoed(node: &Node)
    requires
        node.children.len() == 0,
    ensures
        expression_code(node) == Ok::<Seq<char>, Violation>(node.text@),
{
}

/// A block of two statements is the first followed at once by the second.
pub proof fn law_block_of_two(block: &Node, first: Seq<char>, second: Seq<char>)
    requires
        block.children.len() == 2,
        block.children[0].kind == NodeKind::Statement,
        block.children[1].kind == NodeKind::Statement,
        statement_code(&block.children[0]) == Ok::<Seq<char>, Violation>(first),
        statement_code(&block.children[1]) == Ok::<Seq<char>, Violation>(second),
    ensures
        block_code(block) == Ok::<Seq<char>, Violation>(first + second),
{
    reveal_with_fuel(block_prefix, 3);
    assert(Seq::<char>::empty() + first =~= first);
}

/// A conditional over a block of two statements is written
/// `if(<condition>){<first><second>}`: the generator puts nothing between
/// the two statements.
pub proof fn law_if_nests_two(
    node: &Node,
    condition: Seq<char>,
    first: Seq<char>,
    second: Seq<char>,
)
    requires
        node.children.len() >= 2,
        node.children[0].kind == NodeKind::BooleanExpression,
        node.children[1].kind == NodeKind::Block,
        boolean_expression_code(&node.children[0]) == Ok::<Seq<char>, Violation>(condition),
        node.children[1].children.len() == 2,
        node.children[1].children[0].kind == NodeKind::Statement,
        node.children[1].children[1].kind == NodeKind::Statement,
        statement_code(&node.children[1].children[0]) == Ok::<Seq<char>, Violation>(first),
        statement_code(&node.children[1].children[1]) == Ok::<Seq<char>, Violation>(second),
    ensures
        if_statement_code(node) == Ok::<Seq<char>, Violation>(
            seq!['i', 'f', '('] + condition + seq![')', '{'] + first + second + seq!['}'],
        ),
{
    law_block_of_two(&node.children[1], first, second);
    reveal_strlit("if");
    reveal_strlit("(");
    reveal_strlit("){");
    reveal_strlit("}");
    let body = first + second;
    assert("if"@ + "("@ + condition + "){"@ + body + "}"@ =~= seq!['i', 'f', '('] + condition
        + seq![')', '{'] + first + second + seq!['}']);
}

/// A loop over a block of two statements is written
/// `while(<condition>){<first><second>}`.
pub proof fn law_while_nests_two(
    node: &Node,
    condition: Seq<char>,
    first: Seq<char>,
    second: Seq<char>,
)
    requires
        node.children.len() >= 2,
        node.children[0].kind == NodeKind::BooleanExpression,
        node.children[1].kind == NodeKind::Block,
        boolean_expression_code(&node.children[0]) == Ok::<Seq<char>, Violation>(condition),
        node.children[1].children.len() == 2,
        node.children[1].children[0].kind == NodeKind::Statement,
        node.children[1].children[1].kind == NodeKind::Statement,
        statement_code(&node.children[1].children[0]) == Ok::<Seq<char>, Violation>(first),
        statement_code(&node.children[1].children[1]) == Ok::<Seq<char>, Violation>(second),
    ensures
        while_loop_code(node) == Ok::<Seq<char>, Violation>(
            seq!['w', 'h', 'i', 'l', 'e', '('] + condition + seq![')', '{'] + first + second
                + seq!['}'],
        ),
{
    law_block_of_two(&node.children[1], first, second);
    reveal_strlit("while");
    reveal_strlit("(");
    reveal_strlit("){");
    reveal_strlit("}");
    let body = first + second;
    assert("while"@ + "("@ + condition + "){"@ + body + "}"@ =~= seq![
        'w',
        'h',
        'i',
        'l',
        'e',
        '(',
    ] + condition + seq![')', '{'] + first + second + seq!['}']);
}

/// Whether a statement may begin with a child of this kind.
pub open spec fn opens_statement(kind: NodeKind) -> bool {
    kind == NodeKind::Assignment || kind == NodeKind::Declaration || kind == NodeKind::Expression
        || kind == NodeKind::FunctionCall || kind == NodeKind::IfStatement || kind
        == NodeKind::WhileLoop
}

/// Whether an expression may begin with a child of this kind.
pub open spec fn opens_expression(kind: NodeKind) -> bool {
    kind == NodeKind::Number || kind == NodeKind::Identifier || kind == NodeKind::FunctionCall
}

/// A program with a child that is neither a statement nor the end-of-input
/// marker is not translated, and neither is the tree under it: the child is
/// not passed over.
pub proof fn law_program_rejects_stranger(node: &Node, index: int)
    requires
        0 <= index < node.children.len(),
        node.children[index].kind != NodeKind::Statement,
        node.children[index].kind != NodeKind::EndOfInput,
    ensures
        program_code(node) is Err,
        translation_unit(node) is Err,
{
    lemma_program_violation_is_final(node, index + 1, node.children.len() as int);
}

/// A root that is not a program is answered with its kind.
pub proof fn law_root_must_be_program(node: &Node)
    requires
        node.kind != NodeKind::Program,
    ensures
        translation_unit(node) == Err::<Seq<char>, Violation>(
            Violation::InvalidRoot { found: node.kind },
        ),
{
}

/// A statement whose first child is of no kind of statement is answered
/// with that child's kind.
pub proof fn law_statement_rejects_stranger(node: &Node)
    requires
        node.children.len() >= 1,
        !opens_statement(node.children[0].kind),
    ensures
        statement_code(node) == Err::<Seq<char>, Violation>(
            Violation::UnexpectedKind { parent: node.kind, found: node.children[0].kind },
        ),
{
}

/// An expression whose first child is neither a number, an identifier nor a
/// call is answered with that child's kind.
pub proof fn law_expression_rejects_stranger(node: &Node)
    requires
        node.children.len() >= 1,
        !opens_expression(node.children[0].kind),
    ensures
        expression_code(node) == Err::<Seq<char>, Violation>(
            Violation::UnexpectedKind { parent: node.kind, found: node.children[0].kind },
        ),
{
}

/// A block with a child that is not a statement is not translated.
pub proof fn law_block_rejects_stranger(node: &Node, index: int)
    requires
        0 <= index < node.children.len(),
        node.children[index].kind != NodeKind::Statement,
    ensures
        block_code(node) is Err,
{
    lemma_block_violation_is_final(node, index + 1, node.children.len() as int);
}

/// A parameter list with a child that is not an expression is not
/// translated.
pub proof fn law_params_reject_stranger(node: &Node, index: int)
    requires
        0 <= index < node.children.len(),
        node.children[index].kind != NodeKind::Expression,
    ensures
        params_list_code(node) is Err,
{
    lemma_params_violation_is_final(node, index + 1, node.children.len() as int);
}

/// A node whose first children are read by position is translated only if
/// each of them is there and of the kind that its position asks for.
pub proof fn law_positions_are_checked(node: &Node)
    ensures
        declaration_code(node) is Ok ==> pair_violation(
            node,
            NodeKind::Type,
            NodeKind::Identifier,
        ) is None,
        assignment_code(node) is Ok ==> pair_violation(
            node,
            NodeKind::Identifier,
            NodeKind::Expression,
        ) is None,
        function_call_code(node) is Ok ==> pair_violation(
            node,
            NodeKind::Identifier,
            NodeKind::ParamsList,
        ) is None,
        boolean_expression_code(node) is Ok ==> comparison_violation(node) is None,
        if_statement_code(node) is Ok ==> pair_violation(
            node,
            NodeKind::BooleanExpression,
            NodeKind::Block,
        ) is None,
        while_loop_code(node) is Ok ==> pair_violation(
            node,
            NodeKind::BooleanExpression,
            NodeKind::Block,
        ) is None,
{
}

/// A call ends with `);` wherever it stands.
pub proof fn law_call_keeps_terminator(node: &Node)
    requires
        function_call_code(node) is Ok,
    ensures
        ({
            let code = function_call_code(node)->Ok_0;
            code.len() >= 2 && code[code.len() - 2] == ')' && code[code.len() - 1] == ';'
        }),
{
    reveal_strlit(");");
}

/// An expression that is a call is written as the call is, terminator
/// included: the generator does not tell a call inside an expression from a
/// call that is a statement.
pub proof fn law_call_in_expression(node: &Node)
    requires
        node.children.len() >= 1,
        node.children[0].kind == NodeKind::FunctionCall,
    ensures
        expression_code(node) == function_call_code(&node.children[0]),
{
}

} // verus!
