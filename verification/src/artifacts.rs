//! The names of the files that a compilation leaves behind, derived from the
//! path of the source file.

use vstd::prelude::*;
use vstd::string::{StrSliceExecFns, StringExecFns};

verus! {

/// The extension of a JPP source file.
pub open spec fn source_extension() -> Seq<char> {
    seq!['.', 'j', 'p', 'p']
}

/// Where the last component of `path` starts, looking only at its first
/// `upto` characters: behind the last `/` among them.
pub open spec fn base_start(path: Seq<char>, upto: int) -> int
    decreases upto,
{
    if upto <= 0 {
        0
    } else if path[upto - 1] == '/' {
        upto
    } else {
        base_start(path, upto - 1)
    }
}

/// The last component of `path`: what follows its last `/`, or all of it
/// where it has none.
pub open spec fn base_name(path: Seq<char>) -> Seq<char> {
    path.skip(base_start(path, path.len() as int))
}

/// Whether `text` begins with the source extension.
pub open spec fn begins_with_extension(text: Seq<char>) -> bool {
    text.len() >= 4 && text.subrange(0, 4) == source_extension()
}

/// `name` with every occurrence of the source extension taken out, read
/// from the left; what the removal joins is not read again.
pub open spec fn without_extension(name: Seq<char>) -> Seq<char>
    decreases name.len(),
{
    if name.len() == 0 {
        name
    } else if begins_with_extension(name) {
        without_extension(name.skip(4))
    } else {
        seq![name[0]] + without_extension(name.skip(1))
    }
}

/// The last component starts behind a `/` or at the start of the path, and
/// holds no `/` itself.
pub proof fn lemma_base_start(path: Seq<char>, upto: int)
    requires
        0 <= upto <= path.len(),
    ensures
        0 <= base_start(path, upto) <= upto,
        base_start(path, upto) == 0 || path[base_start(path, upto) - 1] == '/',
        forall|i: int| base_start(path, upto) <= i < upto ==> path[i] != '/',
    decreases upto,
{
    if upto > 0 && path[upto - 1] != '/' {
        lemma_base_start(path, upto - 1);
    }
}

/// The last component of a path: what follows its last `/`.
pub fn file_name(file_path: &str) -> (name: String)
    ensures
        name@ == base_name(file_path@),
        forall|i: int| 0 <= i < name@.len() ==> name@[i] != '/',
{
    let len = file_path.unicode_len();
    let mut start = len;
    while start > 0 && file_path.get_char(start - 1) != '/'
        invariant
            start <= len,
            len == file_path@.len(),
            base_start(file_path@, len as int) == base_start(file_path@, start as int),
        decreases start,
    {
        start -= 1;
    }
    let name = file_path.substring_char(start, len);
    proof {
        lemma_base_start(file_path@, len as int);
        assert(name@ =~= base_name(file_path@));
    }
    name.to_owned()
}

/// The name of the C file written for a source file: its name with `.c`
/// behind it.
pub fn c_file_path(file_name: &str) -> (path: String)
    ensures
        path@ == file_name@ + ".c"@,
{
    let mut path = file_name.to_owned();
    path.append(".c");
    path
}

/// Whether the source extension stands at `index` in `name`.
fn extension_at(name: &str, index: usize, len: usize) -> (found: bool)
    requires
        index <= len,
        len == name@.len(),
    ensures
        found == begins_with_extension(name@.skip(index as int)),
{
    if len - index < 4 {
        return false;
    }
    let found = name.get_char(index) == '.' && name.get_char(index + 1) == 'j' && name.get_char(
        index + 2,
    ) == 'p' && name.get_char(index + 3) == 'p';
    proof {
        let rest = name@.skip(index as int);
        let head = rest.subrange(0, 4);
        assert(head[0] == name@[index as int]);
        assert(head[1] == name@[index + 1]);
        assert(head[2] == name@[index + 2]);
        assert(head[3] == name@[index + 3]);
        if found {
            assert(head =~= source_extension());
        }
    }
    found
}

/// The name of the executable built for a source file: its name without the
/// source extension, wherever that stands in it.
pub fn binary_name(file_name: &str) -> (name: String)
    ensures
        name@ == without_extension(file_name@),
{
    let len = file_name.unicode_len();
    let mut name = String::new();
    let mut index: usize = 0;
    assert(file_name@.skip(0) =~= file_name@);
    while index < len
        invariant
            index <= len,
            len == file_name@.len(),
            name@ + without_extension(file_name@.skip(index as int)) == without_extension(
                file_name@,
            ),
        decreases len - index,
    {
        let ghost rest = file_name@.skip(index as int);
        if extension_at(file_name, index, len) {
            assert(rest.skip(4) =~= file_name@.skip(index + 4));
            index += 4;
        } else {
            let ghost before = name@;
            name.append(file_name.substring_char(index, index + 1));
            assert(rest.skip(1) =~= file_name@.skip(index + 1));
            assert(name@ =~= before + seq![rest[0]]);
            assert(name@ + without_extension(rest.skip(1)) =~= before + without_extension(rest));
            index += 1;
        }
    }
    assert(name@ + Seq::<char>::empty() =~= name@);
    name
}

} // verus!
