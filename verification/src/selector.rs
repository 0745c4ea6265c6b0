//! The selector: turns configured glob patterns into a concrete,
//! deduplicated file set. Per-pattern and per-path failures degrade to
//! "this pattern or path contributes nothing"; resolution itself never
//! fails, so one stray bad glob cannot abort a whole build's asset step.

use vstd::prelude::*;

verus! {

/// `path` occurs in `paths` (exact path-string equality).
pub open spec fn has_path(paths: Seq<String>, path: Seq<char>) -> bool {
    exists|i: int| 0 <= i < paths.len() && paths[i]@ == path
}

/// Some expansion in `lists` yields `path`.
pub open spec fn matched_by_some(lists: Seq<Vec<String>>, path: Seq<char>) -> bool {
    exists|i: int| 0 <= i < lists.len() && has_path(lists[i]@, path)
}

/// No two entries hold the same path.
pub open spec fn spec_no_dups(paths: Seq<String>) -> bool {
    forall|i: int, j: int| 0 <= i < j < paths.len() ==> paths[i]@ != paths[j]@
}

/// `path` occurs among the first `n` entries of `paths`.
spec fn has_path_in_prefix(paths: Seq<String>, n: int, path: Seq<char>) -> bool {
    exists|i: int| 0 <= i < n && paths[i]@ == path
}

/// Some expansion among the first `n` in `lists` yields `path`.
spec fn matched_in_prefix(lists: Seq<Vec<String>>, n: int, path: Seq<char>) -> bool {
    exists|i: int| 0 <= i < n && has_path(lists[i]@, path)
}

proof fn lemma_has_path_push(paths: Seq<String>, x: String, path: Seq<char>)
    ensures
        has_path(paths.push(x), path) <==> (has_path(paths, path) || x@ == path),
{
    if has_path(paths, path) {
        let i = choose|i: int| 0 <= i < paths.len() && paths[i]@ == path;
        assert(paths.push(x)[i]@ == path);
    }
    if x@ == path {
        assert(paths.push(x)[paths.len() as int]@ == path);
    }
    if has_path(paths.push(x), path) && x@ != path {
        let i = choose|i: int| 0 <= i < paths.push(x).len() && paths.push(x)[i]@ == path;
        assert(paths[i]@ == path);
    }
}

proof fn lemma_prefix_step(paths: Seq<String>, n: int, path: Seq<char>)
    requires
        0 <= n < paths.len(),
    ensures
        has_path_in_prefix(paths, n + 1, path) <==> (has_path_in_prefix(paths, n, path)
            || paths[n]@ == path),
{
    if has_path_in_prefix(paths, n, path) {
        let i = choose|i: int| 0 <= i < n && paths[i]@ == path;
        assert(0 <= i < n + 1 && paths[i]@ == path);
    }
    if has_path_in_prefix(paths, n + 1, path) && paths[n]@ != path {
        let i = choose|i: int| 0 <= i < n + 1 && paths[i]@ == path;
        assert(0 <= i < n && paths[i]@ == path);
    }
}

proof fn lemma_prefix_full(paths: Seq<String>, path: Seq<char>)
    ensures
        has_path_in_prefix(paths, paths.len() as int, path) <==> has_path(paths, path),
{
    if has_path_in_prefix(paths, paths.len() as int, path) {
        let i = choose|i: int| 0 <= i < paths.len() && paths[i]@ == path;
        assert(paths[i]@ == path);
    }
    if has_path(paths, path) {
        let i = choose|i: int| 0 <= i < paths.len() && paths[i]@ == path;
        assert(0 <= i < paths.len() as int && paths[i]@ == path);
    }
}

proof fn lemma_matched_prefix_step(lists: Seq<Vec<String>>, n: int, path: Seq<char>)
    requires
        0 <= n < lists.len(),
    ensures
        matched_in_prefix(lists, n + 1, path) <==> (matched_in_prefix(lists, n, path)
            || has_path(lists[n]@, path)),
{
    if matched_in_prefix(lists, n, path) {
        let i = choose|i: int| 0 <= i < n && has_path(lists[i]@, path);
        assert(0 <= i < n + 1 && has_path(lists[i]@, path));
    }
    if matched_in_prefix(lists, n + 1, path) && !has_path(lists[n]@, path) {
        let i = choose|i: int| 0 <= i < n + 1 && has_path(lists[i]@, path);
        assert(0 <= i < n && has_path(lists[i]@, path));
    }
}

proof fn lemma_matched_full(lists: Seq<Vec<String>>, path: Seq<char>)
    ensures
        matched_in_prefix(lists, lists.len() as int, path) <==> matched_by_some(lists, path),
{
    if matched_in_prefix(lists, lists.len() as int, path) {
        let i = choose|i: int| 0 <= i < lists.len() && has_path(lists[i]@, path);
        assert(has_path(lists[i]@, path));
    }
    if matched_by_some(lists, path) {
        let i = choose|i: int| 0 <= i < lists.len() && has_path(lists[i]@, path);
        assert(0 <= i < lists.len() as int && has_path(lists[i]@, path));
    }
}

/// Exact membership test against an already-expanded path list: no pattern
/// is re-evaluated once expansion is done.
fn contains_string(haystack: &Vec<String>, needle: &String) -> (r: bool)
    ensures
        r == has_path(haystack@, needle@),
{
    let mut i: usize = 0;
    while i < haystack.len()
        invariant
            i <= haystack.len(),
            !has_path_in_prefix(haystack@, i as int, needle@),
        decreases haystack.len() - i,
    {
        if haystack[i] == *needle {
            assert(has_path(haystack@, needle@));
            return true;
        }
        proof {
            lemma_prefix_step(haystack@, i as int, needle@);
        }
        i = i + 1;
    }
    proof {
        if has_path(haystack@, needle@) {
            lemma_prefix_full(haystack@, needle@);
        }
    }
    false
}

/// Flattens per-pattern match lists into one list whose membership is
/// exactly "some expansion yields the path".
fn flatten_matches(lists: &Vec<Vec<String>>) -> (r: Vec<String>)
    ensures
        forall|p: Seq<char>| #[trigger] has_path(r@, p) <==> matched_by_some(lists@, p),
{
    let mut r: Vec<String> = Vec::new();
    let mut i: usize = 0;
    while i < lists.len()
        invariant
            i <= lists.len(),
            forall|p: Seq<char>| #[trigger] has_path(r@, p) <==> matched_in_prefix(
                lists@,
                i as int,
                p,
            ),
        decreases lists.len() - i,
    {
        let mut j: usize = 0;
        while j < lists[i].len()
            invariant
                i < lists@.len(),
                j <= lists@[i as int]@.len(),
                forall|p: Seq<char>| #[trigger] has_path(r@, p) <==> (matched_in_prefix(
                    lists@,
                    i as int,
                    p,
                ) || has_path_in_prefix(lists@[i as int]@, j as int, p)),
            decreases lists@[i as int]@.len() - j,
        {
            let ghost r0 = r@;
            let entry = lists[i][j].clone();
            r.push(entry);
            proof {
                assert forall|p: Seq<char>| #[trigger] has_path(r@, p) <==> (matched_in_prefix(
                    lists@,
                    i as int,
                    p,
                ) || has_path_in_prefix(lists@[i as int]@, j + 1, p)) by {
                    lemma_has_path_push(r0, lists@[i as int]@[j as int], p);
                    lemma_prefix_step(lists@[i as int]@, j as int, p);
                }
            }
            j = j + 1;
        }
        proof {
            assert forall|p: Seq<char>| #[trigger] has_path(r@, p) <==> matched_in_prefix(
                lists@,
                i + 1,
                p,
            ) by {
                lemma_matched_prefix_step(lists@, i as int, p);
                lemma_prefix_full(lists@[i as int]@, p);
            }
        }
        i = i + 1;
    }
    proof {
        assert forall|p: Seq<char>| #[trigger] has_path(r@, p) <==> matched_by_some(
            lists@,
            p,
        ) by {
            lemma_matched_full(lists@, p);
        }
    }
    r
}

/// The deduplicated selection: exactly the paths yielded by some
/// wanted-pattern expansion and by no exclude expansion, each exactly once,
/// in unspecified order. Membership against the excluded matches is exact
/// path equality, never pattern re-evaluation.
pub fn select_files(found: &Vec<Vec<String>>, excluded: &Vec<Vec<String>>) -> (r: Vec<String>)
    ensures
        spec_no_dups(r@),
        forall|p: Seq<char>| #[trigger] has_path(r@, p) <==> (matched_by_some(found@, p)
            && !matched_by_some(excluded@, p)),
{
    let excl = flatten_matches(excluded);
    let mut r: Vec<String> = Vec::new();
    let mut i: usize = 0;
    while i < found.len()
        invariant
            i <= found.len(),
            spec_no_dups(r@),
            forall|p: Seq<char>| #[trigger] has_path(excl@, p) <==> matched_by_some(excluded@, p),
            forall|p: Seq<char>| #[trigger] has_path(r@, p) <==> (matched_in_prefix(
                found@,
                i as int,
                p,
            ) && !matched_by_some(excluded@, p)),
        decreases found.len() - i,
    {
        let mut j: usize = 0;
        while j < found[i].len()
            invariant
                i < found@.len(),
                j <= found@[i as int]@.len(),
                spec_no_dups(r@),
                forall|p: Seq<char>| #[trigger] has_path(excl@, p) <==> matched_by_some(
                    excluded@,
                    p,
                ),
                forall|p: Seq<char>| #[trigger] has_path(r@, p) <==> ((matched_in_prefix(
                    found@,
                    i as int,
                    p,
                ) || has_path_in_prefix(found@[i as int]@, j as int, p)) && !matched_by_some(
                    excluded@,
                    p,
                )),
            decreases found@[i as int]@.len() - j,
        {
            let ghost r0 = r@;
            let candidate = found[i][j].clone();
            let is_excluded = contains_string(&excl, &candidate);
            let is_present = contains_string(&r, &candidate);
            if !is_excluded && !is_present {
                r.push(candidate);
                proof {
                    assert forall|a: int| 0 <= a < r0.len() implies r0[a]@
                        != found@[i as int]@[j as int]@ by {
                        if r0[a]@ == found@[i as int]@[j as int]@ {
                            assert(has_path(r0, found@[i as int]@[j as int]@));
                        }
                    }
                    assert forall|p: Seq<char>| #[trigger] has_path(r@, p) <==> ((
                    matched_in_prefix(found@, i as int, p) || has_path_in_prefix(
                        found@[i as int]@,
                        j + 1,
                        p,
                    )) && !matched_by_some(excluded@, p)) by {
                        lemma_has_path_push(r0, found@[i as int]@[j as int], p);
                        lemma_prefix_step(found@[i as int]@, j as int, p);
                    }
                }
            } else {
                proof {
                    assert forall|p: Seq<char>| #[trigger] has_path(r@, p) <==> ((
                    matched_in_prefix(found@, i as int, p) || has_path_in_prefix(
                        found@[i as int]@,
                        j + 1,
                        p,
                    )) && !matched_by_some(excluded@, p)) by {
                        lemma_prefix_step(found@[i as int]@, j as int, p);
                    }
                }
            }
            j = j + 1;
        }
        proof {
            assert forall|p: Seq<char>| #[trigger] has_path(r@, p) <==> (matched_in_prefix(
                found@,
                i + 1,
                p,
            ) && !matched_by_some(excluded@, p)) by {
                lemma_matched_prefix_step(found@, i as int, p);
                lemma_prefix_full(found@[i as int]@, p);
            }
        }
        i = i + 1;
    }
    proof {
        assert forall|p: Seq<char>| #[trigger] has_path(r@, p) <==> (matched_by_some(found@, p)
            && !matched_by_some(excluded@, p)) by {
            lemma_matched_full(found@, p);
        }
    }
    r
}

/// Whether glob's pattern parser accepts a pattern string: a function of
/// the string alone, decided before any filesystem work.
pub uninterp spec fn glob_parses(pattern: Seq<char>) -> bool;

/// How many of the first `n` patterns parse.
spec fn spec_parseable_count(patterns: Seq<String>, n: int) -> int
    recommends
        n <= patterns.len(),
    decreases n,
{
    if n <= 0 {
        0
    } else {
        spec_parseable_count(patterns, n - 1) + if glob_parses(patterns[n - 1]@) {
            1int
        } else {
            0int
        }
    }
}

proof fn lemma_parseable_count_zero(patterns: Seq<String>, n: int)
    requires
        0 <= n <= patterns.len(),
        forall|i: int| 0 <= i < n ==> !glob_parses(patterns[i]@),
    ensures
        spec_parseable_count(patterns, n) == 0,
    decreases n,
{
    if n > 0 {
        lemma_parseable_count_zero(patterns, n - 1);
    }
}

/// Relies on `glob::glob`: it reports an error exactly when the pattern
/// does not parse (parse success is a function of the pattern string
/// alone), and otherwise expands the pattern against the filesystem. Which
/// paths come back depends on what is on disk, so nothing is promised of
/// the matches; an entry that cannot be read or is not valid UTF-8 is
/// skipped, as every per-path failure degrades to "contributes nothing".
#[verifier::external_body]
fn expand_pattern(pattern: &str) -> (r: Option<Vec<String>>)
    ensures
        r is Some <==> glob_parses(pattern@),
{
    match glob::glob(pattern) {
        Err(_) => None,
        Ok(paths) => Some(
            paths
                .filter_map(|entry| entry.ok())
                .filter_map(|path| path.into_os_string().into_string().ok())
                .collect(),
        ),
    }
}

/// Expands each pattern in turn; exactly the patterns that do not parse
/// are dropped, each contributing no expansion at all.
fn expand_all(patterns: &Vec<String>) -> (r: Vec<Vec<String>>)
    ensures
        r@.len() == spec_parseable_count(patterns@, patterns@.len() as int),
        r@.len() <= patterns@.len(),
{
    let mut r: Vec<Vec<String>> = Vec::new();
    let mut i: usize = 0;
    while i < patterns.len()
        invariant
            i <= patterns.len(),
            r@.len() == spec_parseable_count(patterns@, i as int),
            r@.len() <= i,
        decreases patterns.len() - i,
    {
        match expand_pattern(patterns[i].as_str()) {
            Some(matches) => r.push(matches),
            None => {},
        }
        i = i + 1;
    }
    r
}

/// Resolves the configured patterns into the final file set: the union of
/// every wanted-pattern match, minus every excluded match, deduplicated.
/// Resolution never fails; a malformed pattern on either side simply
/// contributes no matches, so a wanted list that is empty, or holds no
/// pattern that parses, yields the empty set.
pub fn resolve(patterns: &Vec<String>, exclude: &Vec<String>) -> (r: Vec<String>)
    ensures
        spec_no_dups(r@),
        patterns@.len() == 0 ==> r@.len() == 0,
        (forall|i: int| 0 <= i < patterns@.len() ==> !glob_parses(patterns@[i]@)) ==> r@.len()
            == 0,
{
    let excluded = expand_all(exclude);
    let found = expand_all(patterns);
    let r = select_files(&found, &excluded);
    proof {
        if forall|i: int| 0 <= i < patterns@.len() ==> !glob_parses(patterns@[i]@) {
            lemma_parseable_count_zero(patterns@, patterns@.len() as int);
        }
        if found@.len() == 0 && r@.len() > 0 {
            assert(has_path(r@, r@[0]@)) by {
                assert(0 <= 0 < r@.len() && r@[0]@ == r@[0]@);
            }
            assert(false);
        }
    }
    r
}

} // verus!
