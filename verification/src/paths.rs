//! Path model for the launcher.
//!
//! A filesystem path is modelled as its character sequence, with `/` as the
//! component separator. The only operations the launcher needs are taking a
//! parent directory and resolving the resource directory for a build mode:
//! the fixed local directory in development, and a fixed walk up from the
//! executable's own path, plus a fixed suffix, in production.

use vstd::prelude::*;
use vstd::string::*;

verus! {

/// Development versus production build. The distinction affects path
/// resolution only.
#[derive(Clone, Copy, Debug, PartialEq, Eq, Structural)]
pub enum BuildMode {
    Development,
    Production,
}

/// Index of the last `/` in `s`, or -1 when `s` has none.
pub open spec fn last_slash(s: Seq<char>) -> int
    decreases s.len(),
{
    if s.len() == 0 {
        -1
    } else if s[s.len() - 1] == '/' {
        s.len() - 1
    } else {
        last_slash(s.drop_last())
    }
}

/// The parent directory of a path: everything before the last `/`, or the
/// empty path when there is no separator at all.
pub open spec fn parent_of(s: Seq<char>) -> Seq<char> {
    if last_slash(s) >= 0 {
        s.subrange(0, last_slash(s))
    } else {
        Seq::<char>::empty()
    }
}

/// The n-th ancestor of a path: `parent_of` applied n times.
pub open spec fn ancestor(s: Seq<char>, n: nat) -> Seq<char>
    decreases n,
{
    if n == 0 {
        s
    } else {
        parent_of(ancestor(s, (n - 1) as nat))
    }
}

/// The fixed resource directory of a development build: the current working
/// directory, where the local build output lives.
pub open spec fn dev_resource_dir() -> Seq<char> {
    "."@
}

/// The suffix that names the bundled resources folder of a packaged build.
pub open spec fn resources_suffix() -> Seq<char> {
    "/Resources"@
}

/// How many parent steps separate the packaged executable from the bundle
/// root that holds the resources folder. This encodes the packaging layout
/// and nothing else.
pub open spec fn bundle_depth() -> nat {
    4
}

/// Where a production build expects its bundled resources: `bundle_depth()`
/// parent steps up from the executable, then the resources suffix.
pub open spec fn prod_resource_dir(exe: Seq<char>) -> Seq<char> {
    ancestor(exe, bundle_depth()) + resources_suffix()
}

/// The resource directory for a build mode. In development it is fixed,
/// independent of where the executable is; in production it is a function of
/// the executable's path alone.
pub open spec fn spec_resource_dir(mode: BuildMode, exe: Seq<char>) -> Seq<char> {
    match mode {
        BuildMode::Development => dev_resource_dir(),
        BuildMode::Production => prod_resource_dir(exe),
    }
}

proof fn lemma_last_slash_found(s: Seq<char>, k: int)
    requires
        0 <= k < s.len(),
        s[k] == '/',
        forall|j: int| k < j < s.len() ==> s[j] != '/',
    ensures
        last_slash(s) == k,
    decreases s.len(),
{
    if k < s.len() - 1 {
        lemma_last_slash_found(s.drop_last(), k);
    }
}

proof fn lemma_last_slash_none(s: Seq<char>)
    requires
        forall|j: int| 0 <= j < s.len() ==> s[j] != '/',
    ensures
        last_slash(s) == -1,
    decreases s.len(),
{
    if s.len() > 0 {
        lemma_last_slash_none(s.drop_last());
    }
}

/// Everything before the last `/` of `s`, or the empty string when `s` has
/// no separator.
pub fn parent_dir(s: &str) -> (r: String)
    ensures
        r@ == parent_of(s@),
{
    let len: usize = s.unicode_len();
    let mut i: usize = len;
    while i > 0
        invariant
            i <= len,
            len == s@.len(),
            forall|j: int| i <= j < len ==> s@[j] != '/',
        decreases i,
    {
        if s.get_char(i - 1) == '/' {
            proof {
                lemma_last_slash_found(s@, i - 1);
            }
            return s.substring_char(0, i - 1).to_owned();
        }
        i = i - 1;
    }
    proof {
        lemma_last_slash_none(s@);
    }
    String::new()
}

/// Resolves the resource directory for `mode`. A development build uses the
/// fixed local directory, whatever `exe_path` is; a production build walks
/// `bundle_depth()` parents up from `exe_path` and appends the resources
/// suffix, so moving the executable moves the result accordingly and changes
/// nothing else.
pub fn resolve_resource_directory(mode: BuildMode, exe_path: &str) -> (r: String)
    ensures
        r@ == spec_resource_dir(mode, exe_path@),
{
    match mode {
        BuildMode::Development => String::from_str("."),
        BuildMode::Production => {
            let d1 = parent_dir(exe_path);
            let d2 = parent_dir(d1.as_str());
            let d3 = parent_dir(d2.as_str());
            let d4 = parent_dir(d3.as_str());
            proof {
                let e = exe_path@;
                assert(ancestor(e, 0) == e);
                assert(ancestor(e, 1) == parent_of(ancestor(e, 0)));
                assert(ancestor(e, 2) == parent_of(ancestor(e, 1)));
                assert(ancestor(e, 3) == parent_of(ancestor(e, 2)));
                assert(ancestor(e, 4) == parent_of(ancestor(e, 3)));
            }
            d4.concat("/Resources")
        },
    }
}

} // verus!
