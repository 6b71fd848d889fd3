//! What the generator answers when a tree breaks the grammar's shape.

use vstd::prelude::*;
use vstd::string::StringExecFns;
use crate::tree::{kind_name, NodeKind};

verus! {

/// A structural violation: the tree was not produced by a conformant parser.
#[derive(Clone, Copy, Debug, PartialEq, Eq, Structural)]
pub enum Violation {
    /// The root of the tree is not a program.
    InvalidRoot { found: NodeKind },
    /// A node of kind `parent` holds a child of kind `found` where the
    /// grammar accepts none of that kind.
    UnexpectedKind { parent: NodeKind, found: NodeKind },
    /// A node of kind `parent` ends before its child number `index`, counted
    /// from zero.
    MissingChild { parent: NodeKind, index: usize },
}

/// The words in which a violation is reported. They name the kinds
/// involved and nothing else.
pub open spec fn violation_message(violation: Violation) -> Seq<char> {
    match violation {
        Violation::InvalidRoot { found } => "Invalid Top-Level Node: "@ + kind_name(found),
        Violation::UnexpectedKind { parent, found } => if parent == NodeKind::Expression {
            "Unexpected rule in expression: "@ + kind_name(found)
        } else {
            "Invalid Node in "@ + kind_name(parent) + ": "@ + kind_name(found)
        },
        Violation::MissingChild { parent, index } => "Missing Node in "@ + kind_name(parent),
    }
}

impl Violation {
    /// The words in which this violation is reported.
    pub fn message(&self) -> (text: String)
        ensures
            text@ == violation_message(*self),
    {
        match *self {
            Violation::InvalidRoot { found } => {
                let mut text = "Invalid Top-Level Node: ".to_owned();
                text.append(found.name());
                text
            },
            Violation::UnexpectedKind { parent, found } => {
                if parent == NodeKind::Expression {
                    let mut text = "Unexpected rule in expression: ".to_owned();
                    text.append(found.name());
                    text
                } else {
                    let mut text = "Invalid Node in ".to_owned();
                    text.append(parent.name());
                    text.append(": ");
                    text.append(found.name());
                    text
                }
            },
            Violation::MissingChild { parent, index } => {
                let mut text = "Missing Node in ".to_owned();
                text.append(parent.name());
                text
            },
        }
    }
}

} // verus!
