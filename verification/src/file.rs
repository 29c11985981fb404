//! Path-rule matching for the console-strip transform.
//!
//! A rule is a `/`-separated pattern such as `**/tests/**/*.js`; a path is
//! matched against it component by component.  Paths are modelled as a
//! leading root step for an absolute path followed by the nonempty segments,
//! with `.` segments dropped and `..` a parent step.  Matching walks the
//! rule and the path together: a `**` segment skips path components until
//! the segment after it matches; any other segment stops the walk.  When the
//! rule's last segment carries an extension, the path matches only if it
//! ends with that extension and the walk consumed all but the path's last
//! component.

use vstd::prelude::*;

use crate::ast::word_is;
use crate::model::strings_view;

verus! {

broadcast use crate::model::group_view_facts;

/// One step of a path: the leading root of an absolute path, a parent step,
/// or a named component.
pub enum PathComp {
    Root,
    Parent,
    Normal(String),
}

pub enum PathCompV {
    Root,
    Parent,
    Normal(Seq<char>),
}

pub open spec fn comp_view(c: PathComp) -> PathCompV {
    match c {
        PathComp::Root => PathCompV::Root,
        PathComp::Parent => PathCompV::Parent,
        PathComp::Normal(s) => PathCompV::Normal(s@),
    }
}

pub open spec fn comps_view(v: Seq<PathComp>) -> Seq<PathCompV> {
    Seq::new(v.len(), |i: int| comp_view(v[i]))
}

/// The textual reading of a component, as it is compared against a rule
/// segment.
pub open spec fn comp_chars(c: PathCompV) -> Seq<char> {
    match c {
        PathCompV::Root => "/"@,
        PathCompV::Parent => ".."@,
        PathCompV::Normal(s) => s,
    }
}

/// Does a rule segment name this component directly (a named component with
/// exactly that text)?
pub open spec fn normal_is(c: PathCompV, name: Seq<char>) -> bool {
    match c {
        PathCompV::Normal(s) => s == name,
        _ => false,
    }
}

// ---------------------------------------------------------------------------
// Splitting strings.
// ---------------------------------------------------------------------------

/// The first position at or after `from` holding `sep`, or the length.
#[verifier::spinoff_prover]
pub open spec fn find_sep(s: Seq<char>, sep: char, from: nat) -> nat
    decreases s.len() - from,
{
    if from >= s.len() {
        s.len()
    } else if s[from as int] == sep {
        from
    } else {
        find_sep(s, sep, from + 1)
    }
}

#[verifier::spinoff_prover]
proof fn lemma_find_sep_bounds(s: Seq<char>, sep: char, from: nat)
    requires
        from <= s.len(),
    ensures
        from <= find_sep(s, sep, from) <= s.len(),
    decreases s.len() - from,
{
    if from < s.len() && s[from as int] != sep {
        lemma_find_sep_bounds(s, sep, from + 1);
    }
}

#[verifier::spinoff_prover]
proof fn lemma_find_sep_at(s: Seq<char>, sep: char, from: nat, i: nat)
    requires
        from <= i <= s.len(),
        forall|j: int| from <= j < i ==> s[j] != sep,
        i == s.len() || s[i as int] == sep,
    ensures
        find_sep(s, sep, from) == i,
    decreases i - from,
{
    if from < i {
        lemma_find_sep_at(s, sep, from + 1, i);
    }
}

/// Split at every separator; a string without one is a single segment, so
/// the result is never empty.
#[verifier::spinoff_prover]
pub open spec fn split_chars(s: Seq<char>, sep: char) -> Seq<Seq<char>>
    decreases s.len(),
{
    let i = find_sep(s, sep, 0);
    if i >= s.len() {
        seq![s]
    } else {
        seq![s.subrange(0, i as int)] + split_chars(
            s.subrange(i as int + 1, s.len() as int),
            sep,
        )
    }
}

/// Splitting, executed: the segments of `s` between occurrences of `sep`.
#[verifier::loop_isolation(false)]
#[verifier::spinoff_prover]
fn split_on(s: &str, sep: char) -> (r: Vec<String>)
    ensures
        strings_view(r@) == split_chars(s@, sep),
    decreases s@.len(),
{
    let len = s.unicode_len();
    let mut i: usize = 0;
    while i < len && s.get_char(i) != sep
        invariant
            i <= len,
            len == s@.len(),
            forall|j: int| 0 <= j < i ==> s@[j] != sep,
        decreases len - i,
    {
        i = i + 1;
    }
    proof {
        lemma_find_sep_at(s@, sep, 0, i as nat);
    }
    if i == len {
        let mut out: Vec<String> = Vec::new();
        out.push(s.to_owned());
        proof {
            assert(strings_view(out@) =~= seq![s@]);
        }
        out
    } else {
        let head = s.substring_char(0, i).to_owned();
        let tail = s.substring_char(i + 1, len);
        let mut out = split_on(tail, sep);
        out.insert(0, head);
        proof {
            assert(strings_view(out@) =~= seq![s@.subrange(0, i as int)] + split_chars(
                s@.subrange(i as int + 1, s@.len() as int),
                sep,
            ));
        }
        out
    }
}

// ---------------------------------------------------------------------------
// Character search and suffix tests.
// ---------------------------------------------------------------------------

pub open spec fn contains_char(s: Seq<char>, c: char) -> bool {
    exists|i: int| 0 <= i < s.len() && s[i] == c
}

#[verifier::loop_isolation(false)]
#[verifier::spinoff_prover]
fn has_char(s: &String, c: char) -> (r: bool)
    ensures
        r == contains_char(s@, c),
{
    let sl = s.as_str();
    let len = sl.unicode_len();
    let mut i: usize = 0;
    while i < len
        invariant
            i <= len,
            len == s@.len(),
            sl@ == s@,
            forall|j: int| 0 <= j < i ==> s@[j] != c,
        decreases len - i,
    {
        if sl.get_char(i) == c {
            return true;
        }
        i = i + 1;
    }
    false
}

pub open spec fn ends_with_chars(s: Seq<char>, suffix: Seq<char>) -> bool {
    suffix.len() <= s.len() && s.subrange(s.len() - suffix.len(), s.len() as int) == suffix
}

#[verifier::loop_isolation(false)]
#[verifier::spinoff_prover]
fn ends_with(s: &String, suffix: &String) -> (r: bool)
    ensures
        r == ends_with_chars(s@, suffix@),
{
    let sl = s.as_str();
    let su = suffix.as_str();
    let slen = sl.unicode_len();
    let ulen = su.unicode_len();
    if ulen > slen {
        return false;
    }
    let off = slen - ulen;
    let mut i: usize = 0;
    while i < ulen
        invariant
            i <= ulen,
            slen == s@.len(),
            ulen == suffix@.len(),
            off == slen - ulen,
            sl@ == s@,
            su@ == suffix@,
            forall|j: int| 0 <= j < i ==> s@[off + j] == suffix@[j],
        decreases ulen - i,
    {
        if sl.get_char(off + i) != su.get_char(i) {
            proof {
                assert(s@.subrange(s@.len() - suffix@.len(), s@.len() as int)[i as int]
                    == s@[off + i]);
            }
            return false;
        }
        i = i + 1;
    }
    proof {
        assert(s@.subrange(s@.len() - suffix@.len(), s@.len() as int) =~= suffix@);
    }
    true
}

// ---------------------------------------------------------------------------
// Path components.
// ---------------------------------------------------------------------------

/// Map raw segments to path steps: empty and `.` segments vanish, `..` is a
/// parent step, anything else a named component.
#[verifier::spinoff_prover]
pub open spec fn comps_of_segs(segs: Seq<Seq<char>>) -> Seq<PathCompV>
    decreases segs.len(),
{
    if segs.len() == 0 {
        Seq::empty()
    } else {
        let head: Seq<PathCompV> = if segs[0] == ""@ || segs[0] == "."@ {
            Seq::empty()
        } else if segs[0] == ".."@ {
            seq![PathCompV::Parent]
        } else {
            seq![PathCompV::Normal(segs[0])]
        };
        head + comps_of_segs(segs.drop_first())
    }
}

/// The steps of a path: a root step when it is absolute, then its segments.
pub open spec fn path_components(path: Seq<char>) -> Seq<PathCompV> {
    if path.len() == 0 {
        Seq::empty()
    } else {
        (if path[0] == '/' {
            seq![PathCompV::Root]
        } else {
            Seq::empty()
        }) + comps_of_segs(split_chars(path, '/'))
    }
}

/// Path components, executed.
#[verifier::loop_isolation(false)]
#[verifier::spinoff_prover]
fn components(path: &String) -> (r: Vec<PathComp>)
    ensures
        comps_view(r@) == path_components(path@),
{
    let mut out: Vec<PathComp> = Vec::new();
    let sl = path.as_str();
    if sl.unicode_len() == 0 {
        proof {
            assert(comps_view(out@) =~= path_components(path@));
        }
        return out;
    }
    if sl.get_char(0) == '/' {
        out.push(PathComp::Root);
    }
    let mut segs = split_on(sl, '/');
    let ghost segs0 = strings_view(segs@);
    let ghost head0 = comps_view(out@);
    proof {
        assert(head0 + comps_of_segs(segs0) =~= path_components(path@));
    }
    while segs.len() > 0
        invariant
            head0 + comps_of_segs(segs0) =~= path_components(path@),
            comps_view(out@) + comps_of_segs(strings_view(segs@)) =~= head0 + comps_of_segs(
                segs0,
            ),
        decreases segs@.len(),
    {
        let ghost rem_before = strings_view(segs@);
        let ghost out_before = comps_view(out@);
        let seg = segs.remove(0);
        proof {
            assert(rem_before =~= seq![seg@] + strings_view(segs@));
            assert(rem_before.drop_first() =~= strings_view(segs@));
        }
        if word_is(&seg, "") || word_is(&seg, ".") {
        } else if word_is(&seg, "..") {
            out.push(PathComp::Parent);
        } else {
            out.push(PathComp::Normal(seg));
        }
        proof {
            assert(comps_view(out@) + comps_of_segs(strings_view(segs@)) =~= out_before
                + comps_of_segs(rem_before));
        }
    }
    proof {
        assert(comps_of_segs(strings_view(segs@)) =~= Seq::empty());
        assert(comps_view(out@) =~= path_components(path@));
    }
    out
}

// ---------------------------------------------------------------------------
// The rule walk.
// ---------------------------------------------------------------------------

/// The extension named by the rule: the text after the last dot of its last
/// segment, when that segment has a dot at all.
pub open spec fn rule_ext(rv: Seq<Seq<char>>) -> Option<Seq<char>> {
    let last = rv[rv.len() - 1];
    if contains_char(last, '.') {
        Option::Some(split_chars(last, '.').last())
    } else {
        Option::None
    }
}

/// The walk over rule segments and path components: a `**` segment consumes
/// path components, advancing past the segment after it when that segment
/// names the component; any other segment ends the walk with a failure.
/// The result is the final rule index, path index, and whether the walk ran
/// to one of its bounds.
#[verifier::spinoff_prover]
pub open spec fn scan(rv: Seq<Seq<char>>, cv: Seq<PathCompV>, ri: nat, pi: nat) -> (nat, nat, bool)
    decreases cv.len() - pi,
{
    if ri + 1 < rv.len() && pi < cv.len() {
        if rv[ri as int] == "**"@ {
            let ri2: nat = if normal_is(cv[pi as int], rv[ri as int + 1]) {
                ri + 2
            } else {
                ri
            };
            scan(rv, cv, ri2, pi + 1)
        } else {
            let ri2: nat = if rv[ri as int] == comp_chars(cv[pi as int]) {
                ri + 1
            } else {
                ri
            };
            (ri2, pi, false)
        }
    } else {
        (ri, pi, true)
    }
}

/// The walk ends out of bounds exactly when the rule is not exhausted, names
/// no extension, and the walk consumed the whole path: there is then no
/// component left to compare the rule's last segment against.
pub open spec fn file_check_overruns(rule: Seq<char>, path: Seq<char>) -> bool {
    let rv = split_chars(rule, '/');
    let cv = path_components(path);
    let (ri, pi, res) = scan(rv, cv, 0, 0);
    ri < rv.len() && rule_ext(rv) is None && pi >= cv.len()
}

/// What `file_check` returns.
pub open spec fn file_check_spec(rule: Seq<char>, path: Seq<char>) -> bool {
    let rv = split_chars(rule, '/');
    let cv = path_components(path);
    let (ri, pi, res) = scan(rv, cv, 0, 0);
    if ri < rv.len() {
        match rule_ext(rv) {
            Option::Some(ext) => {
                if (cv.len() > 0 && pi < cv.len() - 1) || !ends_with_chars(path, ext) {
                    false
                } else {
                    res
                }
            },
            Option::None => {
                if rv[rv.len() - 1] != comp_chars(cv[pi as int]) {
                    false
                } else {
                    res
                }
            },
        }
    } else {
        res
    }
}

/// Does `path` fall under `rule`?
#[verifier::loop_isolation(false)]
#[verifier::spinoff_prover]
pub fn file_check(rule: String, path: String) -> (r: bool)
    requires
        !file_check_overruns(rule@, path@),
    ensures
        r == file_check_spec(rule@, path@),
{
    let rule_vec = split_on(rule.as_str(), '/');
    let comps = components(&path);
    let ghost rv = strings_view(rule_vec@);
    let ghost cv = comps_view(comps@);
    proof {
        assert(rv.len() >= 1);
    }

    let last = &rule_vec[rule_vec.len() - 1];
    proof {
        assert(rv[rv.len() - 1] == last@);
    }
    let ext: Option<String> = if has_char(last, '.') {
        let parts = split_on(last.as_str(), '.');
        let ghost pv = strings_view(parts@);
        proof {
            assert(pv.len() >= 1);
        }
        let e = parts[parts.len() - 1].clone();
        proof {
            assert(pv.last() == e@);
            assert(rule_ext(rv) == Option::Some(e@));
        }
        Option::Some(e)
    } else {
        proof {
            assert(rule_ext(rv) is None);
        }
        Option::None
    };

    let mut ri: usize = 0;
    let mut pi: usize = 0;
    let mut res = true;
    let mut done = false;
    while ri < rule_vec.len() - 1 && pi < comps.len()
        invariant
            rv.len() >= 1,
            ri <= rv.len(),
            pi <= cv.len(),
            scan(rv, cv, 0, 0) == (if done {
                (ri as nat, pi as nat, false)
            } else {
                scan(rv, cv, ri as nat, pi as nat)
            }),
            !done ==> res,
            done ==> !res,
            !done,
        decreases cv.len() - pi,
    {
        proof {
            assert(rule_vec[ri as int]@ == rv[ri as int]);
            assert(rule_vec[ri as int + 1]@ == rv[ri as int + 1]);
            assert(comp_view(comps[pi as int]) == cv[pi as int]);
        }
        let is_glob = word_is(&rule_vec[ri], "**");
        if is_glob {
            let matches_next = match &comps[pi] {
                PathComp::Normal(s) => *s == rule_vec[ri + 1],
                _ => false,
            };
            proof {
                assert(matches_next == normal_is(cv[pi as int], rv[ri as int + 1]));
            }
            if matches_next {
                ri = ri + 2;
            }
            pi = pi + 1;
        } else {
            let comp_text_eq = match &comps[pi] {
                PathComp::Root => word_is(&rule_vec[ri], "/"),
                PathComp::Parent => word_is(&rule_vec[ri], ".."),
                PathComp::Normal(s) => rule_vec[ri] == *s,
            };
            proof {
                assert(comp_text_eq == (rv[ri as int] == comp_chars(cv[pi as int])));
            }
            if comp_text_eq {
                ri = ri + 1;
            }
            res = false;
            done = true;
            break;
        }
    }
    proof {
        assert(scan(rv, cv, 0, 0) == (ri as nat, pi as nat, res));
    }
    if ri < rule_vec.len() {
        match ext {
            Option::Some(e) => {
                if (comps.len() > 0 && pi < comps.len() - 1) || !ends_with(&path, &e) {
                    false
                } else {
                    res
                }
            },
            Option::None => {
                proof {
                    assert(pi < cv.len());
                    assert(comp_view(comps[pi as int]) == cv[pi as int]);
                    assert(rule_vec[rule_vec.len() - 1]@ == rv[rv.len() - 1]);
                }
                let tail_eq = match &comps[pi] {
                    PathComp::Root => word_is(&rule_vec[rule_vec.len() - 1], "/"),
                    PathComp::Parent => word_is(&rule_vec[rule_vec.len() - 1], ".."),
                    PathComp::Normal(s) => rule_vec[rule_vec.len() - 1] == *s,
                };
                if !tail_eq {
                    false
                } else {
                    res
                }
            },
        }
    } else {
        res
    }
}

} // verus!
