//! A dump of a parse tree for inspection: one line per node, children
//! indented under their parent.

use vstd::prelude::*;
use vstd::string::StringExecFns;
use crate::tree::{kind_name, Node, NodeKind};

verus! {

/// The text of a string in Rust's debug notation: between double quotes,
/// with quotes, backslashes, control characters and other characters that
/// do not print written as escapes.
pub uninterp spec fn debug_quoted(text: Seq<char>) -> Seq<char>;

/// Formats `text` with `{:?}`, which is `<str as Debug>::fmt` of std. The
/// contract only names what comes back: it is a function of the characters
/// of `text` and of nothing else.
#[verifier::external_body]
fn debug_quote(text: &str) -> (quoted: String)
    ensures
        quoted@ == debug_quoted(text@),
{
    format!("{:?}", text)
}

/// One step of indentation.
pub open spec fn indent_step() -> Seq<char> {
    "    "@
}

/// The indentation of a node at `depth`: one step for each level.
pub open spec fn indentation(depth: nat) -> Seq<char>
    decreases depth,
{
    if depth == 0 {
        Seq::empty()
    } else {
        indentation((depth - 1) as nat) + indent_step()
    }
}

/// The line of a node of kind `kind` under `indent`, its text already
/// quoted: `<indent>Rule: <kind>, Text: <quoted>`.
pub open spec fn line_text(indent: Seq<char>, kind: NodeKind, quoted: Seq<char>) -> Seq<char> {
    indent + "Rule: "@ + kind_name(kind) + ", Text: "@ + quoted
}

/// The line of `node` under `indent`.
pub open spec fn node_line(node: &Node, indent: Seq<char>) -> Seq<char> {
    line_text(indent, node.kind, debug_quoted(node.text@))
}

/// The line of `node` under `indent`, followed by the lines of the trees
/// under its first `upto` children, each one step deeper.
pub open spec fn lines_prefix(node: &Node, indent: Seq<char>, upto: int) -> Seq<Seq<char>>
    decreases node, upto,
{
    if upto <= 0 || upto > node.children.len() {
        seq![node_line(node, indent)]
    } else {
        lines_prefix(node, indent, upto - 1) + lines_under(
            &node.children[upto - 1],
            indent + indent_step(),
        )
    }
}

/// The lines of the tree under `node`, the node's own line under `indent`:
/// parents before children, children in order.
pub open spec fn lines_under(node: &Node, indent: Seq<char>) -> Seq<Seq<char>>
    decreases node, node.children.len() + 1,
{
    lines_prefix(node, indent, node.children.len() as int)
}

/// The lines of the tree under `node`, which stands at `depth`.
pub open spec fn tree_lines(node: &Node, depth: nat) -> Seq<Seq<char>> {
    lines_under(node, indentation(depth))
}

/// Lines by their characters.
pub open spec fn lines_of(lines: Seq<String>) -> Seq<Seq<char>> {
    lines.map_values(|line: String| line@)
}

/// The first children of a node bring one line for each node under them.
pub proof fn lemma_prefix_line_count(node: &Node, indent: Seq<char>, upto: int)
    requires
        0 <= upto <= node.children.len(),
    ensures
        lines_prefix(node, indent, upto).len() == node.count_prefix(upto),
    decreases node, upto,
{
    if upto > 0 {
        lemma_prefix_line_count(node, indent, upto - 1);
        lemma_line_count(&node.children[upto - 1], indent + indent_step());
    }
}

/// A dump has exactly one line for each node of the tree, whatever the
/// indentation.
pub proof fn lemma_line_count(node: &Node, indent: Seq<char>)
    ensures
        lines_under(node, indent).len() == node.node_count(),
    decreases node, node.children.len() + 1,
{
    lemma_prefix_line_count(node, indent, node.children.len() as int);
}

/// The indentation of a node at `depth`.
pub fn indent_of(depth: usize) -> (indent: String)
    ensures
        indent@ == indentation(depth as nat),
{
    let mut indent = String::new();
    let mut level: usize = 0;
    while level < depth
        invariant
            level <= depth,
            indent@ == indentation(level as nat),
        decreases depth - level,
    {
        indent.append("    ");
        level += 1;
    }
    indent
}

/// Writes the line of a node from its indentation, its kind and its quoted
/// text.
pub fn format_line(indent: &str, kind: NodeKind, quoted: &str) -> (line: String)
    ensures
        line@ == line_text(indent@, kind, quoted@),
{
    let mut line = indent.to_owned();
    line.append("Rule: ");
    line.append(kind.name());
    line.append(", Text: ");
    line.append(quoted);
    line
}

/// Appends the lines of the tree under `node` to `lines`, the node's own
/// line under `indent`.
pub fn collect_lines(node: &Node, indent: &str, lines: &mut Vec<String>)
    ensures
        lines_of(final(lines)@) == lines_of(old(lines)@) + lines_under(node, indent@),
    decreases node,
{
    let quoted = debug_quote(node.text.as_str());
    let line = format_line(indent, node.kind, quoted.as_str());
    let ghost before = lines_of(lines@);
    lines.push(line);
    assert(lines_of(lines@) =~= before + lines_prefix(node, indent@, 0));
    let mut deeper = indent.to_owned();
    deeper.append("    ");
    let count = node.children.len();
    let mut index: usize = 0;
    while index < count
        invariant
            count == node.children.len(),
            index <= count,
            deeper@ == indent@ + indent_step(),
            lines_of(lines@) == before + lines_prefix(node, indent@, index as int),
        decreases count - index,
    {
        collect_lines(&node.children[index], deeper.as_str(), lines);
        assert(lines_of(lines@) =~= before + lines_prefix(node, indent@, index + 1));
        index += 1;
    }
}

/// Dumps the tree under `pair`, which stands at `depth`: one line per node,
/// `Rule: <kind>, Text: <quoted text>`, indented by its depth, parents
/// before children.
pub fn print_parse_tree(pair: &Node, depth: usize) -> (lines: Vec<String>)
    ensures
        lines_of(lines@) == tree_lines(pair, depth as nat),
        lines.len() == pair.node_count(),
{
    let indent = indent_of(depth);
    let mut lines: Vec<String> = Vec::new();
    collect_lines(pair, indent.as_str(), &mut lines);
    proof {
        lemma_line_count(pair, indent@);
        assert(lines_of(lines@) =~= tree_lines(pair, depth as nat));
    }
    lines
}

} // verus!
