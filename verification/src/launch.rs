//! Worker launch support: resolving the interpreter and the worker module
//! directory from what exists on the machine, deriving the module-search
//! root, and building the full argument vector a worker is spawned with.
//! The host performs the existence checks and the spawn; the choices made
//! from their outcomes are pinned down here.

use vstd::prelude::*;
use vstd::string::*;

verus! {

/// The well-known interpreter installations, tried in order.
pub fn python_candidates() -> (r: Vec<String>)
    ensures
        r@.len() == 3,
        r@[0]@ == "/opt/homebrew/bin/python3"@,
        r@[1]@ == "/usr/local/bin/python3"@,
        r@[2]@ == "/usr/bin/python3"@,
{
    let mut r: Vec<String> = Vec::new();
    r.push("/opt/homebrew/bin/python3".to_owned());
    r.push("/usr/local/bin/python3".to_owned());
    r.push("/usr/bin/python3".to_owned());
    r
}

/// Which interpreter a worker is launched with, given which of the three
/// well-known installations exist: the first existing one, else the bare
/// command name left to the environment's search path.
pub open spec fn spec_find_python(exists: Seq<bool>) -> Seq<char>
    recommends
        exists.len() == 3,
{
    if exists[0] {
        "/opt/homebrew/bin/python3"@
    } else if exists[1] {
        "/usr/local/bin/python3"@
    } else if exists[2] {
        "/usr/bin/python3"@
    } else {
        "python3"@
    }
}

/// Resolve the interpreter from the existence of the well-known
/// installations (in the order of `python_candidates`).
pub fn find_python(exists: &Vec<bool>) -> (r: String)
    requires
        exists@.len() == 3,
    ensures
        r@ == spec_find_python(exists@),
{
    if exists[0] {
        "/opt/homebrew/bin/python3".to_owned()
    } else if exists[1] {
        "/usr/local/bin/python3".to_owned()
    } else if exists[2] {
        "/usr/bin/python3".to_owned()
    } else {
        "python3".to_owned()
    }
}

/// The first candidate that exists, else the fallback.
pub open spec fn first_existing(
    candidates: Seq<Seq<char>>,
    exists: Seq<bool>,
    fallback: Seq<char>,
) -> Seq<char>
    decreases candidates.len(),
{
    if candidates.len() == 0 {
        fallback
    } else if exists[0] {
        candidates[0]
    } else {
        first_existing(candidates.drop_first(), exists.drop_first(), fallback)
    }
}

/// Select the worker module directory: the first candidate location that
/// exists and is a directory, falling back to the bare relative name
/// `"python"` when none does (the spawn will then fail with a clear error).
pub fn select_python_dir(candidates: &Vec<String>, exists: &Vec<bool>) -> (r: String)
    requires
        candidates@.len() == exists@.len(),
    ensures
        r@ == first_existing(candidates@.map_values(|c: String| c@), exists@, "python"@),
{
    let ghost cv = candidates@.map_values(|c: String| c@);
    proof {
        assert(cv.skip(0) =~= cv);
        assert(exists@.skip(0) =~= exists@);
    }
    let mut i: usize = 0;
    while i < candidates.len()
        invariant
            0 <= i <= candidates@.len(),
            candidates@.len() == exists@.len(),
            cv == candidates@.map_values(|c: String| c@),
            first_existing(cv, exists@, "python"@) == first_existing(
                cv.skip(i as int),
                exists@.skip(i as int),
                "python"@,
            ),
        decreases candidates@.len() - i,
    {
        proof {
            assert(cv.skip(i as int)[0] == cv[i as int]);
            assert(exists@.skip(i as int)[0] == exists@[i as int]);
            assert(cv.skip(i as int).drop_first() =~= cv.skip(i + 1));
            assert(exists@.skip(i as int).drop_first() =~= exists@.skip(i + 1));
        }
        if exists[i] {
            return candidates[i].clone();
        }
        i += 1;
    }
    proof {
        assert(cv.skip(candidates@.len() as int).len() == 0);
    }
    "python".to_owned()
}

/// The text of a path's parent directory: the path without its final
/// component, or nothing when the path is empty or ends in a root or
/// prefix. Pure text manipulation of the path, in the platform's path
/// syntax.
pub uninterp spec fn parent_dir_of(path: Seq<char>) -> Option<Seq<char>>;

/// Relies on `std::path::Path::parent` (and `to_string_lossy`, the identity
/// on text that came from a `str`): the path's parent directory. The result
/// depends on the path alone; its documentation states there is none for
/// the empty path.
#[verifier::external_body]
fn parent_of(dir: &str) -> (r: Option<String>)
    ensures
        (r is Some) == (parent_dir_of(dir@) is Some),
        r matches Some(p) ==> Some(p@) == parent_dir_of(dir@),
        dir@.len() == 0 ==> r is None,
{
    match std::path::Path::new(dir).parent() {
        Some(p) => Some(p.to_string_lossy().to_string()),
        None => None,
    }
}

/// The module-search root handed to the interpreter: the parent of the
/// worker module directory, or `"."` when it has none.
pub fn python_parent_of(dir: &str) -> (r: String)
    ensures
        r@ == match parent_dir_of(dir@) {
            Some(p) => p,
            None => "."@,
        },
        dir@.len() == 0 ==> r@ == "."@,
{
    match parent_of(dir) {
        Some(p) => p,
        None => ".".to_owned(),
    }
}

/// The full argument vector a worker is launched with:
/// `-m python.<module> <args...>`.
pub open spec fn worker_argv(module: Seq<char>, args: Seq<Seq<char>>) -> Seq<Seq<char>> {
    seq!["-m"@, "python."@ + module] + args
}

/// Build the worker argument vector for a command module and the caller's
/// arguments.
pub fn build_worker_argv(module: &str, args: &Vec<String>) -> (r: Vec<String>)
    ensures
        r@.map_values(|s: String| s@) == worker_argv(module@, args@.map_values(|s: String| s@)),
{
    let ghost av = args@.map_values(|s: String| s@);
    let mut r: Vec<String> = Vec::new();
    r.push("-m".to_owned());
    let mut m = "python.".to_owned();
    m.append(module);
    r.push(m);
    proof {
        assert(r@.map_values(|s: String| s@) =~= seq!["-m"@, "python."@ + module@]);
    }
    let ghost head = r@.map_values(|s: String| s@);
    let mut i: usize = 0;
    while i < args.len()
        invariant
            0 <= i <= args@.len(),
            av == args@.map_values(|s: String| s@),
            av.len() == args@.len(),
            r@.map_values(|s: String| s@) == head + av.take(i as int),
        decreases args@.len() - i,
    {
        let ghost before = r@;
        r.push(args[i].clone());
        proof {
            assert(av.take(i + 1) =~= av.take(i as int).push(av[i as int]));
            assert(r@.map_values(|s: String| s@) =~= before.map_values(|s: String| s@).push(
                av[i as int],
            ));
            assert(before.map_values(|s: String| s@).push(av[i as int]) =~= head + av.take(i + 1));
        }
        i += 1;
    }
    proof {
        assert(av.take(args@.len() as int) =~= av);
        assert(head + av =~= worker_argv(module@, av));
    }
    r
}

} // verus!
