use vstd::prelude::*;
use vstd::string::*;

verus! {

/// Whether `text` can name a file: it holds no NUL character.
pub open spec fn valid_path_text(text: Seq<char>) -> bool {
    forall|i: int| 0 <= i < text.len() ==> text[i] != '\0'
}

/// The text of a path that was checked to hold no NUL character.
#[derive(Debug, PartialEq, Eq)]
pub struct PathLiteral {
    text: String,
}

impl View for PathLiteral {
    type V = Seq<char>;

    closed spec fn view(&self) -> Seq<char> {
        self.text@
    }
}

impl PathLiteral {
    /// What every value of the type keeps: its text holds no NUL character.
    #[verifier::type_invariant]
    spec fn holds_no_nul(self) -> bool {
        valid_path_text(self.text@)
    }

    /// Checks `text` and wraps it; `None` exactly when it holds a NUL character.
    pub fn new_opt(text: &str) -> (path: Option<PathLiteral>)
        ensures
            path is Some <==> valid_path_text(text@),
            path matches Some(p) ==> p@ == text@,
    {
        for c in it: text.chars()
            invariant
                it.seq() == text@,
                forall|j: int| 0 <= j < it.index() ==> text@[j] != '\0',
        {
            if c == '\0' {
                return None;
            }
        }
        Some(PathLiteral { text: String::from_str(text) })
    }

    /// The checked text.
    pub fn as_str(&self) -> (text: &str)
        ensures
            text@ == self@,
            valid_path_text(text@),
    {
        proof {
            use_type_invariant(self);
        }
        self.text.as_str()
    }
}

/// How many characters of `file` come before the name of the file itself: the
/// length of `file` up to and including its last `/`, or 0 where it has none.
pub open spec fn directory_len(file: Seq<char>) -> nat
    decreases file.len(),
{
    if file.len() == 0 {
        0
    } else if file.last() == '/' {
        file.len()
    } else {
        directory_len(file.drop_last())
    }
}

/// The directory part of `file`, with its closing `/`; empty where `file` is a
/// bare name.
pub open spec fn directory_of(file: Seq<char>) -> Seq<char> {
    file.subrange(0, directory_len(file) as int)
}

/// Whether `dir` is a prefix of `file` that is empty or ends in `/`, and what
/// follows it in `file` holds no `/`.
pub open spec fn is_directory_of(dir: Seq<char>, file: Seq<char>) -> bool {
    &&& dir.len() <= file.len()
    &&& dir == file.subrange(0, dir.len() as int)
    &&& dir.len() == 0 || dir.last() == '/'
    &&& forall|i: int| dir.len() <= i < file.len() ==> file[i] != '/'
}

/// Whether `path` starts at the root.
pub open spec fn is_absolute(path: Seq<char>) -> bool {
    path.len() > 0 && path[0] == '/'
}

/// The path that `path`, written in the source file `file`, refers to: `path`
/// itself where it is absolute, else `path` below the directory of `file`.
pub open spec fn resolved_path(file: Seq<char>, path: Seq<char>) -> Seq<char> {
    if is_absolute(path) {
        path
    } else {
        directory_of(file) + path
    }
}

/// `directory_len` never exceeds the length of the text.
pub proof fn lemma_directory_len_bound(file: Seq<char>)
    ensures
        directory_len(file) <= file.len(),
    decreases file.len(),
{
    if file.len() > 0 && file.last() != '/' {
        lemma_directory_len_bound(file.drop_last());
    }
}

/// `directory_of(file)` is the one text that `is_directory_of` accepts for `file`.
pub proof fn lemma_directory_of_is_unique(dir: Seq<char>, file: Seq<char>)
    ensures
        is_directory_of(dir, file) <==> dir == directory_of(file),
    decreases file.len(),
{
    lemma_directory_len_bound(file);
    if file.len() == 0 {
        assert(directory_of(file) =~= Seq::<char>::empty());
        if is_directory_of(dir, file) {
            assert(dir =~= Seq::<char>::empty());
        }
    } else if file.last() == '/' {
        assert(directory_of(file) =~= file);
        if is_directory_of(dir, file) {
            if dir.len() < file.len() {
                assert(file[file.len() - 1] != '/');
            }
            assert(dir =~= file);
        }
        assert(file.subrange(0, file.len() as int) =~= file);
    } else {
        let shorter = file.drop_last();
        lemma_directory_of_is_unique(dir, shorter);
        lemma_directory_len_bound(shorter);
        assert(directory_of(file) =~= directory_of(shorter));
        if is_directory_of(dir, file) {
            if dir.len() == file.len() {
                assert(dir.last() == file.last());
            }
            assert(dir =~= shorter.subrange(0, dir.len() as int));
            assert(is_directory_of(dir, shorter));
        }
        if dir == directory_of(file) {
            assert(is_directory_of(dir, shorter));
            assert(dir =~= file.subrange(0, dir.len() as int));
            assert forall|i: int| dir.len() <= i < file.len() implies file[i] != '/' by {
                if i < shorter.len() {
                    assert(shorter[i] != '/');
                }
            }
        }
    }
}

/// A relative path written in a file that lies in directory `dir` resolves to
/// `dir` followed by that path.
pub proof fn lemma_resolves_below_directory(dir: Seq<char>, name: Seq<char>, path: Seq<char>)
    requires
        dir.len() == 0 || dir.last() == '/',
        forall|i: int| 0 <= i < name.len() ==> name[i] != '/',
        !is_absolute(path),
    ensures
        resolved_path(dir + name, path) == dir + path,
{
    let file = dir + name;
    assert(dir =~= file.subrange(0, dir.len() as int));
    assert(is_directory_of(dir, file));
    lemma_directory_of_is_unique(dir, file);
}

/// An absolute path resolves to itself, whatever file it was written in.
pub proof fn lemma_absolute_path_resolves_to_itself(file: Seq<char>, path: Seq<char>)
    requires
        is_absolute(path),
    ensures
        resolved_path(file, path) == path,
{
}

/// Resolves `path`, written in the source file `file`, against the directory
/// of that file.
pub fn resolve_path(file: &str, path: &PathLiteral) -> (resolved: String)
    ensures
        resolved@ == resolved_path(file@, path@),
{
    let text = path.as_str();
    if !text.is_empty() && text.get_char(0) == '/' {
        return String::from_str(text);
    }
    let n = file.unicode_len();
    let mut dir_len: usize = 0;
    let mut i: usize = 0;
    for c in it: file.chars()
        invariant
            it.seq() == file@,
            n == file@.len(),
            i == it.index(),
            dir_len <= i,
            dir_len == directory_len(file@.subrange(0, i as int)),
    {
        proof {
            assert(file@.subrange(0, i + 1).drop_last() =~= file@.subrange(0, i as int));
        }
        i += 1;
        if c == '/' {
            dir_len = i;
        }
    }
    proof {
        assert(file@.subrange(0, n as int) =~= file@);
    }
    String::from_str(file.substring_char(0, dir_len)).concat(text)
}

} // verus!
