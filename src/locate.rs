//! Where to look for the server binary, and which candidate to run.

use vstd::prelude::*;
use crate::encode::push_char;
use vstd::string::StringExecFns;
use vstd::string::StrSliceExecFns;

verus! {

/// `name` appended to `dir` with the separator `sep`, unless `dir` is empty
/// or already ends with it.
pub open spec fn join(dir: Seq<char>, name: Seq<char>, sep: char) -> Seq<char> {
    if dir.len() == 0 {
        name
    } else if dir.last() == sep {
        dir + name
    } else {
        dir.push(sep) + name
    }
}

/// Joins a directory and a relative name.
pub fn join_path(dir: &str, name: &str, sep: char) -> (r: String)
    ensures
        r@ == join(dir@, name@, sep),
{
    let mut r = String::from_str(dir);
    let n = dir.unicode_len();
    if n > 0 && dir.get_char(n - 1) != sep {
        push_char(&mut r, sep);
    }
    r.append(name);
    r
}

/// The places searched, in order: `<resources>/sidecar/<name>`,
/// `<resources>/<name>`, `<exe dir>/<name>`, `<cwd>/<name>`, `<cwd>/../<name>`;
/// a directory that is unknown contributes nothing.
pub open spec fn candidates(
    resource_dir: Option<Seq<char>>,
    exe_dir: Option<Seq<char>>,
    cwd: Option<Seq<char>>,
    name: Seq<char>,
    sep: char,
) -> Seq<Seq<char>> {
    (match resource_dir {
        Some(r) => seq![join(join(r, "sidecar"@, sep), name, sep), join(r, name, sep)],
        None => seq![],
    }) + (match exe_dir {
        Some(e) => seq![join(e, name, sep)],
        None => seq![],
    }) + (match cwd {
        Some(c) => seq![join(c, name, sep), join(join(c, ".."@, sep), name, sep)],
        None => seq![],
    })
}

/// The characters of an optional directory.
pub open spec fn opt_str_view(s: Option<&str>) -> Option<Seq<char>> {
    match s {
        Some(x) => Some(x@),
        None => None,
    }
}

/// The characters of each string.
pub open spec fn views(v: Seq<String>) -> Seq<Seq<char>> {
    v.map_values(|s: String| s@)
}

/// Lists the paths where the server binary is looked for, in order.
pub fn candidate_paths(
    resource_dir: Option<&str>,
    exe_dir: Option<&str>,
    cwd: Option<&str>,
    name: &str,
    sep: char,
) -> (r: Vec<String>)
    ensures
        views(r@) == candidates(opt_str_view(resource_dir), opt_str_view(exe_dir), opt_str_view(cwd), name@, sep),
{
    let mut r: Vec<String> = Vec::new();
    match resource_dir {
        Some(d) => {
            let sub = join_path(d, "sidecar", sep);
            r.push(join_path(sub.as_str(), name, sep));
            r.push(join_path(d, name, sep));
        },
        None => {},
    }
    match exe_dir {
        Some(d) => {
            r.push(join_path(d, name, sep));
        },
        None => {},
    }
    match cwd {
        Some(d) => {
            r.push(join_path(d, name, sep));
            let up = join_path(d, "..", sep);
            r.push(join_path(up.as_str(), name, sep));
        },
        None => {},
    }
    assert(views(r@) =~= candidates(
        opt_str_view(resource_dir),
        opt_str_view(exe_dir),
        opt_str_view(cwd),
        name@,
        sep,
    ));
    r
}

/// The first candidate that exists, from index `i` on; the bare name when none does.
pub open spec fn first_existing(c: Seq<Seq<char>>, exists: Seq<bool>, name: Seq<char>, i: int) -> Seq<
    char,
>
    decreases c.len() - i,
{
    if i < 0 || i >= c.len() {
        name
    } else if exists[i] {
        c[i]
    } else {
        first_existing(c, exists, name, i + 1)
    }
}

/// Picks the binary to run: the first candidate that exists on disk
/// (`exists[i]` tells of `candidates[i]`), or the bare name, left to the
/// system's search path.
pub fn sidecar_path(candidates: &Vec<String>, exists: &Vec<bool>, name: &str) -> (r: String)
    requires
        exists@.len() == candidates@.len(),
    ensures
        r@ == first_existing(views(candidates@), exists@, name@, 0),
{
    let mut i: usize = 0;
    while i < candidates.len()
        invariant
            exists@.len() == candidates@.len(),
            i <= candidates@.len(),
            first_existing(views(candidates@), exists@, name@, 0) == first_existing(
                views(candidates@),
                exists@,
                name@,
                i as int,
            ),
        decreases candidates@.len() - i,
    {
        if exists[i] {
            return candidates[i].clone();
        }
        i = i + 1;
    }
    String::from_str(name)
}

} // verus!
