use crate::error::InjectorError;
use vstd::prelude::*;

verus! {

/// Relies on std::path::Path::file_name: the final component of `path`, if
/// it has one and it is text. What counts as a component depends on the
/// platform's separators, so nothing more is claimed.
#[verifier::external_body]
fn path_file_name<'a>(path: &'a str) -> (r: Option<&'a str>) {
    std::path::Path::new(path).file_name().and_then(|n| n.to_str())
}

/// Relies on std::path::PathBuf::set_file_name: `path` with its final
/// component replaced by `name`. Separators depend on the platform, so
/// nothing is claimed of the result.
#[verifier::external_body]
fn path_with_file_name(path: &str, name: &str) -> (r: String) {
    let mut p = std::path::PathBuf::from(path);
    p.set_file_name(name);
    p.to_string_lossy().into_owned()
}

/// The index of the first `.` in `s` at or after `i`, or the length of `s`.
pub open spec fn first_dot_from(s: Seq<char>, i: int) -> int
    decreases s.len() - i,
{
    if i < 0 || i >= s.len() {
        s.len() as int
    } else if s[i] == '.' {
        i
    } else {
        first_dot_from(s, i + 1)
    }
}

/// A file name up to its first `.`.
pub open spec fn stem_of(name: Seq<char>) -> Seq<char> {
    name.take(first_dot_from(name, 0))
}

/// `s` holds no `.`.
pub open spec fn has_no_dot(s: Seq<char>) -> bool {
    forall|k: int| 0 <= k < s.len() ==> s[k] != '.'
}

proof fn lemma_first_dot(s: Seq<char>, i: int)
    requires
        0 <= i <= s.len(),
    ensures
        i <= first_dot_from(s, i) <= s.len(),
        forall|k: int| i <= k < first_dot_from(s, i) ==> s[k] != '.',
    decreases s.len() - i,
{
    if i < s.len() && s[i] != '.' {
        lemma_first_dot(s, i + 1);
    }
}

/// The stem of a file name: the name up to its first `.`.
pub fn file_stem(name: &str) -> (r: &str)
    ensures
        r@ == stem_of(name@),
        has_no_dot(r@),
{
    let n = name.unicode_len();
    let mut i: usize = 0;
    while i < n
        invariant
            n == name@.len(),
            i <= n,
            first_dot_from(name@, 0) == first_dot_from(name@, i as int),
        decreases n - i,
    {
        if name.get_char(i) == '.' {
            proof {
                lemma_first_dot(name@, 0);
            }
            let r = name.substring_char(0, i);
            assert(r@ =~= stem_of(name@));
            return r;
        }
        i = i + 1;
    }
    proof {
        lemma_first_dot(name@, 0);
    }
    let r = name.substring_char(0, n);
    assert(r@ =~= stem_of(name@));
    r
}

/// The file name of a path up to its first `.`; a path that names no file
/// (the root, `..`, an empty path) is a configuration error.
pub fn get_file_name(path: &str) -> (r: Result<&str, InjectorError>)
    ensures
        r is Err ==> r == Err::<&str, InjectorError>(InjectorError::Config),
        r matches Ok(s) ==> has_no_dot(s@),
{
    match path_file_name(path) {
        Some(name) => Ok(file_stem(name)),
        None => Err(InjectorError::Config),
    }
}

/// Replaces the file name of a path with what `mapper` makes of its stem
/// (the name up to its first `.`); fails as `get_file_name` does.
pub fn modify_file_name<F: Fn(&str) -> String>(path: &str, mapper: F) -> (r: Result<
    String,
    InjectorError,
>)
    requires
        forall|s: &str| #[trigger] mapper.requires((s,)),
    ensures
        r is Err ==> r == Err::<String, InjectorError>(InjectorError::Config),
        r is Ok ==> exists|s: &str, out: String| has_no_dot(s@) && #[trigger] mapper.ensures(
            (s,),
            out,
        ),
{
    let stem = get_file_name(path)?;
    let new_name = mapper(stem);
    Ok(path_with_file_name(path, new_name.as_str()))
}

} // verus!
