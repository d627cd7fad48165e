use vstd::prelude::*;

pub mod csv;
pub mod http;
pub mod text;

verus! {

/// Relies on std::path::Path::exists: whether the named file is present on
/// disk at this moment. The outcome depends on the machine, so nothing is
/// promised of it.
#[verifier::external_body]
fn path_exists(name: &str) -> bool {
    std::path::Path::new(name).exists()
}

/// Relies on std::path::Path::is_dir: whether the named path points at a
/// directory on disk at this moment. The outcome depends on the machine, so
/// nothing is promised of it.
#[verifier::external_body]
fn path_is_dir(name: &str) -> bool {
    std::path::Path::new(name).is_dir()
}

/// Whether the name is the sentinel `"-"` that stands for standard input.
fn is_stdin_sentinel(name: &str) -> (r: bool)
    ensures
        r == (name@ == "-"@),
{
    proof {
        reveal_strlit("-");
    }
    if name.unicode_len() == 1 {
        let c = name.get_char(0);
        proof {
            if c == '-' {
                assert(name@ =~= "-"@);
            }
        }
        c == '-'
    } else {
        false
    }
}

/// A character of a plain relative file name: an ASCII letter or digit, a
/// dot, an underscore or a path separator. Glob metacharacters and
/// option-like characters such as `-` are not plain.
pub open spec fn spec_plain_name_char(c: char) -> bool {
    ||| ('a' as int) <= c as int <= ('z' as int)
    ||| ('A' as int) <= c as int <= ('Z' as int)
    ||| ('0' as int) <= c as int <= ('9' as int)
    ||| c == '.'
    ||| c == '_'
    ||| c == '/'
}

/// A name that plainly spells a file: nonempty, made of plain name
/// characters only, and carrying a dot, as a file extension does.
pub open spec fn spec_plain_file_name(s: Seq<char>) -> bool {
    &&& s.len() > 0
    &&& (forall|i: int| 0 <= i < s.len() ==> spec_plain_name_char(#[trigger] s[i]))
    &&& (exists|i: int| 0 <= i < s.len() && s[i] == '.')
}

fn is_plain_name_char(c: char) -> (r: bool)
    ensures
        r == spec_plain_name_char(c),
{
    let u = c as u32;
    (97 <= u && u <= 122) || (65 <= u && u <= 90) || (48 <= u && u <= 57) || c == '.' || c == '_'
        || c == '/'
}

fn is_plain_file_name(s: &str) -> (r: bool)
    ensures
        r == spec_plain_file_name(s@),
{
    let n = s.unicode_len();
    if n == 0 {
        return false;
    }
    let mut has_dot = false;
    let mut i: usize = 0;
    while i < n
        invariant
            n as nat == s@.len(),
            i <= n,
            forall|j: int| 0 <= j < i ==> spec_plain_name_char(#[trigger] s@[j]),
            has_dot == (exists|j: int| 0 <= j < i && s@[j] == '.'),
        decreases n - i,
    {
        let c = s.get_char(i);
        if !is_plain_name_char(c) {
            return false;
        }
        if c == '.' {
            has_dot = true;
        }
        i += 1;
    }
    has_dot
}

/// Accepts the standard-input sentinel `"-"` always; any name that is
/// present on disk; and any plain relative file name carrying an extension
/// (letters, digits, dots, underscores and slashes, with a dot among them),
/// whether or not such a file is on disk yet — reading a name that turns out
/// to be absent is the byte-stream reader's `SourceUnavailableError`, not
/// this parser's. Glob metacharacters, option-like names and bare words are
/// rejected at once. The accepted name is returned unaltered.
pub fn parse_input_file(filename: &str) -> (r: Result<String, &'static str>)
    ensures
        r matches Ok(f) ==> f@ == filename@,
        r matches Err(e) ==> e@ == "File does not exist"@,
        (filename@ == "-"@ || spec_plain_file_name(filename@)) ==> r is Ok,
        r is Err ==> filename@ != "-"@ && !spec_plain_file_name(filename@),
{
    if is_stdin_sentinel(filename) || path_exists(filename) || is_plain_file_name(filename) {
        Ok(filename.to_owned())
    } else {
        Err("File does not exist")
    }
}

/// Accepts a name only when it points at a directory on disk; the accepted
/// name is returned unaltered.
pub fn parse_path(path: &str) -> (r: Result<String, &'static str>)
    ensures
        r matches Ok(p) ==> p@ == path@,
        r matches Err(e) ==> e@ == "Path does not exist or is not a directory"@,
{
    if path_exists(path) && path_is_dir(path) {
        Ok(path.to_owned())
    } else {
        Err("Path does not exist or is not a directory")
    }
}

} // verus!
