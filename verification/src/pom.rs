//! Enumeration of the sub-modules a Maven descriptor declares.
//!
//! The descriptor is read only as far as the module list requires: every
//! piece of text standing between one `<module>` and the next `</module>`
//! is one declared sub-module name, in declaration order.

use vstd::prelude::*;
use vstd::string::*;

verus! {

/// Whether `pat` occurs in `s` starting exactly at position `i`.
pub open spec fn match_at(s: Seq<char>, pat: Seq<char>, i: int) -> bool {
    &&& 0 <= i
    &&& i + pat.len() <= s.len()
    &&& s.subrange(i, i + pat.len()) == pat
}

/// The first position at or past `i` where `pat` occurs in `s`.
pub open spec fn spec_find(s: Seq<char>, pat: Seq<char>, i: nat) -> Option<nat>
    decreases s.len() - i when i <= s.len()
{
    if i + pat.len() > s.len() {
        None
    } else if match_at(s, pat, i as int) {
        Some(i)
    } else {
        proof {
            if pat.len() == 0 {
                assert(s.subrange(i as int, i as int) =~= pat);
            }
        }
        spec_find(s, pat, i + 1)
    }
}

/// A found position lies between `i` and the end of `s`, with the whole of
/// `pat` matching there.
pub proof fn lemma_find_some(s: Seq<char>, pat: Seq<char>, i: nat)
    requires
        i <= s.len(),
        spec_find(s, pat, i) is Some,
    ensures
        i <= spec_find(s, pat, i)->Some_0,
        spec_find(s, pat, i)->Some_0 + pat.len() <= s.len(),
        match_at(s, pat, spec_find(s, pat, i)->Some_0 as int),
    decreases s.len() - i,
{
    if i + pat.len() > s.len() {
    } else if match_at(s, pat, i as int) {
    } else {
        if pat.len() == 0 {
            assert(s.subrange(i as int, i as int) =~= pat);
        }
        lemma_find_some(s, pat, i + 1);
    }
}

/// The opening tag of one declared sub-module.
pub open spec fn module_open_tag() -> Seq<char> {
    "<module>"@
}

/// The closing tag of one declared sub-module.
pub open spec fn module_close_tag() -> Seq<char> {
    "</module>"@
}

/// The sub-module names declared at or past position `i` of descriptor text
/// `s`: the text between each `<module>` and the following `</module>`.
pub open spec fn spec_declared_modules_from(s: Seq<char>, i: nat) -> Seq<Seq<char>>
    decreases s.len() - i when i <= s.len()
{
    match spec_find(s, module_open_tag(), i) {
        None => Seq::empty(),
        Some(j) => {
            let start = (j + module_open_tag().len()) as nat;
            proof {
                lemma_find_some(s, module_open_tag(), i);
            }
            match spec_find(s, module_close_tag(), start) {
                None => Seq::empty(),
                Some(k) => {
                    proof {
                        lemma_find_some(s, module_close_tag(), start);
                        reveal_strlit("<module>");
                        reveal_strlit("</module>");
                    }
                    seq![s.subrange(start as int, k as int)] + spec_declared_modules_from(
                        s,
                        (k + module_close_tag().len()) as nat,
                    )
                },
            }
        },
    }
}

/// The sub-module names a descriptor text declares, in declaration order.
pub open spec fn spec_declared_modules(s: Seq<char>) -> Seq<Seq<char>> {
    spec_declared_modules_from(s, 0)
}

/// Whether `pat` occurs in `s` starting exactly at position `at`.
fn match_prefix(s: &str, pat: &str, at: usize) -> (r: bool)
    requires
        at + pat@.len() <= s@.len(),
    ensures
        r == match_at(s@, pat@, at as int),
{
    let s_len = s.unicode_len();
    let pat_len = pat.unicode_len();
    let mut k: usize = 0;
    while k < pat_len
        invariant
            s_len == s@.len(),
            at + pat_len <= s_len,
            pat_len == pat@.len(),
            0 <= k <= pat_len,
            forall|t: int| 0 <= t < k ==> s@[at + t] == pat@[t],
        decreases pat_len - k,
    {
        if s.get_char(at + k) != pat.get_char(k) {
            proof {
                assert(s@.subrange(at as int, at + pat@.len())[k as int] == s@[at + k]);
            }
            return false;
        }
        k = k + 1;
    }
    proof {
        assert(s@.subrange(at as int, at + pat@.len()) =~= pat@);
    }
    true
}

/// The first position at or past `from` where `pat` occurs in `s`.
fn find_from(s: &str, pat: &str, from: usize) -> (r: Option<usize>)
    requires
        from <= s@.len(),
    ensures
        match r {
            Some(j) => spec_find(s@, pat@, from as nat) == Some(j as nat),
            None => spec_find(s@, pat@, from as nat) is None,
        },
{
    let s_len = s.unicode_len();
    let pat_len = pat.unicode_len();
    let mut j = from;
    loop
        invariant
            from <= j <= s_len,
            s_len == s@.len(),
            pat_len == pat@.len(),
            spec_find(s@, pat@, from as nat) == spec_find(s@, pat@, j as nat),
        decreases s_len - j,
    {
        if pat_len > s_len - j {
            return None;
        }
        if match_prefix(s, pat, j) {
            return Some(j);
        }
        proof {
            if pat@.len() == 0 {
                assert(s@.subrange(j as int, j as int) =~= pat@);
            }
        }
        j = j + 1;
    }
}

/// Extracts the declared sub-module names from a Maven descriptor's text, in
/// declaration order.
pub fn parse_module_declarations(descriptor: &str) -> (r: Vec<String>)
    ensures
        r.deep_view() == spec_declared_modules(descriptor@),
{
    let open = "<module>";
    let close = "</module>";
    let open_len = open.unicode_len();
    let close_len = close.unicode_len();
    let s_len = descriptor.unicode_len();
    let mut result: Vec<String> = Vec::new();
    let mut i: usize = 0;
    proof {
        assert(result.deep_view() + spec_declared_modules_from(descriptor@, 0) =~= spec_declared_modules(
            descriptor@,
        ));
    }
    loop
        invariant
            0 <= i <= s_len,
            s_len == descriptor@.len(),
            open@ == module_open_tag(),
            close@ == module_close_tag(),
            open_len == module_open_tag().len(),
            close_len == module_close_tag().len(),
            spec_declared_modules(descriptor@) == result.deep_view()
                + spec_declared_modules_from(descriptor@, i as nat),
        decreases s_len - i,
    {
        let j_opt = find_from(descriptor, open, i);
        let j = match j_opt {
            None => {
                proof {
                    assert(result.deep_view() + spec_declared_modules_from(descriptor@, i as nat)
                        =~= result.deep_view());
                }
                return result;
            },
            Some(j) => j,
        };
        proof {
            lemma_find_some(descriptor@, module_open_tag(), i as nat);
        }
        let start = j + open_len;
        let k_opt = find_from(descriptor, close, start);
        let k = match k_opt {
            None => {
                proof {
                    assert(result.deep_view() + spec_declared_modules_from(descriptor@, i as nat)
                        =~= result.deep_view());
                }
                return result;
            },
            Some(k) => k,
        };
        proof {
            lemma_find_some(descriptor@, module_close_tag(), start as nat);
        }
        let name = descriptor.substring_char(start, k).to_owned();
        let ghost prev = result.deep_view();
        result.push(name);
        proof {
            assert(result.deep_view() =~= prev + seq![name@]);
            assert(prev + seq![name@] + spec_declared_modules_from(
                descriptor@,
                (k + close_len) as nat,
            ) =~= prev + (seq![name@] + spec_declared_modules_from(
                descriptor@,
                (k + close_len) as nat,
            )));
        }
        i = k + close_len;
    }
}

} // verus!
