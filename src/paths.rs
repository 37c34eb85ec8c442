use vstd::prelude::*;

verus! {

/// The path `base/name`: the base, one `/`, then the name.
pub open spec fn joined(base: Seq<char>, name: Seq<char>) -> Seq<char> {
    base + seq!['/'] + name
}

/// A relative `name` placed under `base` as the platform's path join does:
/// the name alone under an empty base; appended directly when the base
/// already ends with a separator (`/`, or the platform's own `sep`);
/// otherwise after one `sep`.
pub open spec fn path_joined(base: Seq<char>, name: Seq<char>, sep: char) -> Seq<char> {
    if base.len() == 0 {
        name
    } else if base.last() == '/' || base.last() == sep {
        base + name
    } else {
        base + seq![sep] + name
    }
}

/// `s` without one trailing `/`, when it ends with one.
pub open spec fn without_trailing_slash(s: Seq<char>) -> Seq<char> {
    if s.len() > 0 && s.last() == '/' {
        s.drop_last()
    } else {
        s
    }
}

/// Joins a directory and an entry name with a single `/`.
pub fn join_path(base: &str, name: &str) -> (r: String)
    ensures
        r@ == joined(base@, name@),
{
    let mut r = String::from_str(base);
    r.append("/");
    r.append(name);
    proof {
        reveal_strlit("/");
    }
    r
}

/// Places a relative name under a directory as the platform's path join
/// does; `separator` is the platform's separator, as a one-character string.
pub fn join_relative(base: &str, name: &str, separator: &str) -> (r: String)
    requires
        separator@.len() == 1,
    ensures
        r@ == path_joined(base@, name@, separator@[0]),
{
    let n = base.unicode_len();
    let sep = separator.get_char(0);
    if n == 0 {
        String::from_str(name)
    } else {
        let last = base.get_char(n - 1);
        let mut r = String::from_str(base);
        if !(last == '/' || last == sep) {
            r.append(separator);
        }
        r.append(name);
        r
    }
}

/// Drops one trailing `/` from a directory path, as a destination is written
/// either way in configuration.
pub fn trim_trailing_slash(s: &str) -> (r: String)
    ensures
        r@ == without_trailing_slash(s@),
{
    let n = s.unicode_len();
    if n > 0 && s.get_char(n - 1) == '/' {
        String::from_str(s.substring_char(0, n - 1))
    } else {
        String::from_str(s)
    }
}

} // verus!
