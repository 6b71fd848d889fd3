//! The parse tree that the generator reads.

use vstd::prelude::*;

verus! {

/// The grammar rule that produced a node. The set is closed.
#[derive(Clone, Copy, Debug, PartialEq, Eq, Structural, PartialOrd, Ord, Hash)]
pub enum NodeKind {
    Program,
    Statement,
    Assignment,
    Declaration,
    Expression,
    FunctionCall,
    ParamsList,
    IfStatement,
    WhileLoop,
    Block,
    BooleanExpression,
    ComparisonOperator,
    Identifier,
    Number,
    Type,
    EndOfInput,
}

/// The tag of a kind as the grammar spells it.
pub open spec fn kind_name(kind: NodeKind) -> Seq<char> {
    match kind {
        NodeKind::Program => "program"@,
        NodeKind::Statement => "statement"@,
        NodeKind::Assignment => "assignment"@,
        NodeKind::Declaration => "declaration"@,
        NodeKind::Expression => "expression"@,
        NodeKind::FunctionCall => "function_call"@,
        NodeKind::ParamsList => "params_list"@,
        NodeKind::IfStatement => "if_statement"@,
        NodeKind::WhileLoop => "while_loop"@,
        NodeKind::Block => "block"@,
        NodeKind::BooleanExpression => "boolean_expression"@,
        NodeKind::ComparisonOperator => "comparison_operator"@,
        NodeKind::Identifier => "identifier"@,
        NodeKind::Number => "number"@,
        NodeKind::Type => "type"@,
        NodeKind::EndOfInput => "end_of_input"@,
    }
}

impl NodeKind {
    /// The tag of this kind as the grammar spells it.
    pub fn name(self) -> (tag: &'static str)
        ensures
            tag@ == kind_name(self),
    {
        match self {
            NodeKind::Program => "program",
            NodeKind::Statement => "statement",
            NodeKind::Assignment => "assignment",
            NodeKind::Declaration => "declaration",
            NodeKind::Expression => "expression",
            NodeKind::FunctionCall => "function_call",
            NodeKind::ParamsList => "params_list",
            NodeKind::IfStatement => "if_statement",
            NodeKind::WhileLoop => "while_loop",
            NodeKind::Block => "block",
            NodeKind::BooleanExpression => "boolean_expression",
            NodeKind::ComparisonOperator => "comparison_operator",
            NodeKind::Identifier => "identifier",
            NodeKind::Number => "number",
            NodeKind::Type => "type",
            NodeKind::EndOfInput => "end_of_input",
        }
    }
}

/// One node of a parse tree: the rule that matched, the exact source text it
/// spans, and its children in source order.
#[derive(Debug, PartialEq, Eq)]
pub struct Node {
    pub kind: NodeKind,
    pub text: String,
    pub children: Vec<Node>,
}

impl Node {
    /// A node with the given children.
    pub fn new(kind: NodeKind, text: &str, children: Vec<Node>) -> (node: Node)
        ensures
            node.kind == kind,
            node.text@ == text@,
            node.children == children,
    {
        Node { kind, text: text.to_owned(), children }
    }

    /// A node without children.
    pub fn leaf(kind: NodeKind, text: &str) -> (node: Node)
        ensures
            node.kind == kind,
            node.text@ == text@,
            node.children@ == Seq::<Node>::empty(),
    {
        Node { kind, text: text.to_owned(), children: Vec::new() }
    }

    /// The number of nodes in the tree rooted at the first `upto` children of
    /// this node, this node included.
    pub open spec fn count_prefix(&self, upto: int) -> nat
        decreases self, upto,
    {
        if upto <= 0 || upto > self.children.len() {
            1
        } else {
            self.count_prefix(upto - 1) + self.children[upto - 1].node_count()
        }
    }

    /// The number of nodes in the tree rooted here: this node and all its
    /// descendants.
    pub open spec fn node_count(&self) -> nat
        decreases self, self.children.len() + 1,
    {
        self.count_prefix(self.children.len() as int)
    }
}

} // verus!
