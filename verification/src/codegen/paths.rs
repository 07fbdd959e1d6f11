//! The file of a script: a directory joined with a path, and the extension
//! of the last component of a path.

use vstd::prelude::*;
use crate::text::collect_chars;
use crate::text::string_of;

verus! {

/// The character between the components of a path.
pub const SEPARATOR: char = '/';

/// The character before the extension of a file.
pub const EXTENSION_MARK: char = '.';

/// The directory, below the working directory, in which the scripts lie.
pub const SCRIPT_DIRECTORY: &'static str = "scripts";

/// The extension of a script file.
pub const SCRIPT_EXTENSION: &'static str = "sql";

/// The position of the last `mark` before position `upto` of a text; -1 if
/// there is none.
pub open spec fn last_position(text: Seq<char>, mark: char, upto: int) -> int
    decreases upto,
{
    if upto <= 0 || upto > text.len() {
        -1
    } else if text[upto - 1] == mark {
        upto - 1
    } else {
        last_position(text, mark, upto - 1)
    }
}

/// Whether a path starts at the root.
pub open spec fn is_absolute(path: Seq<char>) -> bool {
    path.len() > 0 && path[0] == SEPARATOR
}

/// A directory joined with a path: the path itself if it starts at the root
/// or if the directory is empty, else the path behind the directory, with
/// one separator between them.
pub open spec fn joined(directory: Seq<char>, path: Seq<char>) -> Seq<char> {
    if is_absolute(path) || directory.len() == 0 {
        path
    } else if directory.last() == SEPARATOR {
        directory + path
    } else {
        directory + seq![SEPARATOR] + path
    }
}

/// Where the last component of a path ends without its extension: at its
/// last mark, if that is not its first character, else at its end.
pub open spec fn stem_end(path: Seq<char>) -> int {
    let component = last_position(path, SEPARATOR, path.len() as int) + 1;
    let mark = last_position(path, EXTENSION_MARK, path.len() as int);
    if mark > component {
        mark
    } else {
        path.len() as int
    }
}

/// A path with the extension of its last component replaced by, or, where
/// it has none, with its last component extended by the given extension.
pub open spec fn with_extension(path: Seq<char>, extension: Seq<char>) -> Seq<char> {
    path.subrange(0, stem_end(path)) + seq![EXTENSION_MARK] + extension
}

/// The file of the script of the given name for a working directory: the
/// name, joined with the script directory of the working directory, with
/// the script extension.
pub open spec fn script_file(working_directory: Seq<char>, script_name: Seq<char>) -> Seq<char> {
    with_extension(
        joined(joined(working_directory, SCRIPT_DIRECTORY@), script_name),
        SCRIPT_EXTENSION@,
    )
}

/// The last position of a mark is that of a mark, and no mark stands behind
/// it.
pub proof fn lemma_last_position(text: Seq<char>, mark: char, upto: int)
    requires
        0 <= upto <= text.len(),
    ensures
        -1 <= last_position(text, mark, upto) < upto,
        last_position(text, mark, upto) >= 0 ==> text[last_position(text, mark, upto)] == mark,
        forall|i: int| last_position(text, mark, upto) < i < upto ==> text[i] != mark,
    decreases upto,
{
    if upto > 0 && text[upto - 1] != mark {
        lemma_last_position(text, mark, upto - 1);
    }
}

/// A plain name in a plain directory: the script of a name without a
/// separator and without a mark, for a working directory that does not end
/// in a separator, is the file of that name and of the script extension in
/// the script directory of the working directory.
pub proof fn lemma_plain_script_file(working_directory: Seq<char>, script_name: Seq<char>)
    requires
        working_directory.len() > 0,
        working_directory.last() != SEPARATOR,
        forall|i: int|
            0 <= i < script_name.len() ==> script_name[i] != SEPARATOR && script_name[i]
                != EXTENSION_MARK,
    ensures
        script_file(working_directory, script_name) == working_directory + seq![SEPARATOR]
            + SCRIPT_DIRECTORY@ + seq![SEPARATOR] + script_name + seq![EXTENSION_MARK]
            + SCRIPT_EXTENSION@,
{
    reveal_strlit("scripts");
    let directory = working_directory + seq![SEPARATOR] + SCRIPT_DIRECTORY@;
    assert(joined(working_directory, SCRIPT_DIRECTORY@) == directory);
    assert(directory.last() == 's');
    let path = directory + seq![SEPARATOR] + script_name;
    assert(joined(directory, script_name) == path);
    lemma_last_position(path, SEPARATOR, path.len() as int);
    lemma_last_position(path, EXTENSION_MARK, path.len() as int);
    assert(path[directory.len() as int] == SEPARATOR);
    assert(forall|i: int| directory.len() < i < path.len() ==> path[i] == script_name[i - directory.len() - 1]);
    assert(last_position(path, SEPARATOR, path.len() as int) == directory.len());
    assert(last_position(path, EXTENSION_MARK, path.len() as int) <= directory.len());
    assert(path.subrange(0, path.len() as int) =~= path);
}

/// The position of the last `mark` of a text, if there is one.
pub fn last_position_of(text: &Vec<char>, mark: char) -> (position: Option<usize>)
    ensures
        match position {
            Some(position) => position < text@.len() && last_position(
                text@,
                mark,
                text@.len() as int,
            ) == position,
            None => last_position(text@, mark, text@.len() as int) == -1,
        },
{
    let mut upto: usize = text.len();
    while upto > 0
        invariant
            upto <= text.len(),
            last_position(text@, mark, text@.len() as int) == last_position(
                text@,
                mark,
                upto as int,
            ),
        decreases upto,
    {
        if text[upto - 1] == mark {
            return Some(upto - 1);
        }
        upto = upto - 1;
    }
    None
}

/// Appends the characters of `source` before position `upto` to `target`.
pub fn append_chars(target: &mut Vec<char>, source: &Vec<char>, upto: usize)
    requires
        upto <= source@.len(),
    ensures
        final(target)@ == old(target)@ + source@.subrange(0, upto as int),
{
    let mut k: usize = 0;
    while k < upto
        invariant
            k <= upto <= source@.len(),
            target@ == old(target)@ + source@.subrange(0, k as int),
        decreases upto - k,
    {
        target.push(source[k]);
        assert(target@ =~= old(target)@ + source@.subrange(0, k + 1));
        k = k + 1;
    }
}

/// A directory joined with a path.
pub fn join_paths(directory: &Vec<char>, path: &Vec<char>) -> (whole: Vec<char>)
    ensures
        whole@ == joined(directory@, path@),
{
    let mut whole: Vec<char> = Vec::new();
    let absolute = path.len() > 0 && path[0] == SEPARATOR;
    if !absolute && directory.len() > 0 {
        append_chars(&mut whole, directory, directory.len());
        if directory[directory.len() - 1] != SEPARATOR {
            whole.push(SEPARATOR);
        }
    }
    append_chars(&mut whole, path, path.len());
    assert(directory@.subrange(0, directory@.len() as int) =~= directory@);
    assert(path@.subrange(0, path@.len() as int) =~= path@);
    assert(whole@ =~= joined(directory@, path@));
    whole
}

/// A path with the extension of its last component set to the given one.
pub fn set_extension(path: &Vec<char>, extension: &Vec<char>) -> (whole: Vec<char>)
    ensures
        whole@ == with_extension(path@, extension@),
{
    let end: usize = path.len();
    let component: usize = match last_position_of(path, SEPARATOR) {
        Some(separator) => separator + 1,
        None => 0,
    };
    let stem_end: usize = match last_position_of(path, EXTENSION_MARK) {
        Some(mark) => if mark > component {
            mark
        } else {
            end
        },
        None => end,
    };
    let mut whole: Vec<char> = Vec::new();
    append_chars(&mut whole, path, stem_end);
    whole.push(EXTENSION_MARK);
    append_chars(&mut whole, extension, extension.len());
    assert(extension@.subrange(0, extension@.len() as int) =~= extension@);
    assert(whole@ =~= with_extension(path@, extension@));
    whole
}

/// The file of the script of the given name for a working directory.
pub fn build_script_path(working_directory: &str, script_name: &str) -> (path: String)
    ensures
        path@ == script_file(working_directory@, script_name@),
{
    let directory = join_paths(&collect_chars(working_directory), &collect_chars(SCRIPT_DIRECTORY));
    let path = join_paths(&directory, &collect_chars(script_name));
    string_of(&set_extension(&path, &collect_chars(SCRIPT_EXTENSION)))
}

} // verus!
