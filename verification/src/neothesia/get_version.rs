//! Whether a newer release of the application exists, from the body of the
//! release service's reply.
use vstd::prelude::*;
use vstd::std_specs::iter::IteratorSpec;
use vstd::string::StrSliceExecFns;

verus! {

broadcast use vstd::string::group_string_axioms;

/// `pat` occurs in `s` at position `i`.
pub open spec fn occurs_at(s: Seq<char>, pat: Seq<char>, i: int) -> bool {
    0 <= i && i + pat.len() <= s.len() && s.subrange(i, i + pat.len()) == pat
}

/// The first position at or after `from` where `pat` occurs in `s`.
pub open spec fn is_first_occurrence_from(s: Seq<char>, pat: Seq<char>, from: int, i: int) -> bool {
    from <= i && occurs_at(s, pat, i) && forall|j: int| from <= j < i ==> !occurs_at(s, pat, j)
}

/// `t` occurs somewhere in `s`.
pub open spec fn contains_seq(s: Seq<char>, t: Seq<char>) -> bool {
    exists|i: int| occurs_at(s, t, i)
}

/// The key of the release tag in the reply: `"tag_name":`.
pub open spec fn tag_key() -> Seq<char> {
    seq!['"', 't', 'a', 'g', '_', 'n', 'a', 'm', 'e', '"', ':']
}

/// The first position at or after `from` where `pat` occurs in `s`, if any.
pub open spec fn first_from(s: Seq<char>, pat: Seq<char>, from: int) -> Option<int> {
    if exists|i: int| #[trigger] is_first_occurrence_from(s, pat, from, i) {
        Some(choose|i: int| #[trigger] is_first_occurrence_from(s, pat, from, i))
    } else {
        None
    }
}

/// There is at most one first occurrence.
pub proof fn lemma_first_occurrence_unique(s: Seq<char>, pat: Seq<char>, from: int, i: int)
    requires
        is_first_occurrence_from(s, pat, from, i),
    ensures
        first_from(s, pat, from) == Some(i),
{
    let k = choose|k: int| #[trigger] is_first_occurrence_from(s, pat, from, k);
    assert(is_first_occurrence_from(s, pat, from, k));
    if k < i {
        assert(!occurs_at(s, pat, k));
    } else if i < k {
        assert(!occurs_at(s, pat, i));
    }
}

/// The tag named in a reply: after the first `"tag_name":`, the text between
/// the next two double quotes; none when any of the three is missing.
pub open spec fn latest_tag(body: Seq<char>) -> Option<Seq<char>> {
    let quote = seq!['"'];
    match first_from(body, tag_key(), 0) {
        None => None,
        Some(t) => match first_from(body, quote, t + tag_key().len()) {
            None => None,
            Some(q) => match first_from(body, quote, q + 1) {
                None => None,
                Some(r) => Some(body.subrange(q + 1, r)),
            },
        },
    }
}

/// The characters of a string.
fn chars_of(s: &str) -> (cs: Vec<char>)
    ensures
        cs@ == s@,
{
    let mut it = s.chars();
    let mut cs: Vec<char> = Vec::new();
    loop
        invariant
            cs@ + it.remaining() == s@,
            it.obeys_prophetic_iter_laws(),
            it.decrease() is Some,
        ensures
            cs@ == s@,
        decreases it.decrease()->0,
    {
        let ghost before = it.remaining();
        match it.next() {
            Some(c) => {
                cs.push(c);
                proof {
                    assert(cs@ + it.remaining() =~= s@);
                }
            },
            None => {
                proof {
                    assert(cs@ =~= s@);
                }
                break;
            },
        }
    }
    cs
}

/// Whether `pat` occurs in `s` at position `i`.
fn matches_at(s: &Vec<char>, pat: &Vec<char>, i: usize) -> (b: bool)
    ensures
        b == occurs_at(s@, pat@, i as int),
{
    if i > s.len() || pat.len() > s.len() - i {
        return false;
    }
    let mut k: usize = 0;
    while k < pat.len()
        invariant
            i + pat.len() <= s.len(),
            k <= pat.len(),
            forall|m: int| 0 <= m < k ==> s@[i + m] == pat@[m],
        decreases pat.len() - k,
    {
        if s[i + k] != pat[k] {
            proof {
                assert(s@.subrange(i as int, i + pat.len())[k as int] != pat@[k as int]);
            }
            return false;
        }
        k = k + 1;
    }
    proof {
        assert(s@.subrange(i as int, i + pat.len()) =~= pat@);
    }
    true
}

/// The first position at or after `from` where `pat` occurs in `s`.
fn find_from(s: &Vec<char>, pat: &Vec<char>, from: usize) -> (r: Option<usize>)
    ensures
        match r {
            Some(i) => is_first_occurrence_from(s@, pat@, from as int, i as int),
            None => forall|j: int| from <= j ==> !occurs_at(s@, pat@, j),
        },
{
    let mut i = from;
    loop
        invariant
            from <= i,
            forall|j: int| from <= j < i ==> !occurs_at(s@, pat@, j),
        decreases s.len() + 1 - i,
    {
        if matches_at(s, pat, i) {
            return Some(i);
        }
        if i >= s.len() {
            proof {
                assert forall|j: int| from <= j implies !occurs_at(s@, pat@, j) by {
                    if j > i {
                        assert(!(j + pat@.len() <= s@.len()));
                    }
                }
            }
            return None;
        }
        i = i + 1;
    }
}

/// The release tag named in the body of the release service's reply.
pub fn parse_latest_tag(body: &str) -> (tag: Option<String>)
    ensures
        match tag {
            Some(t) => latest_tag(body@) == Some(t@),
            None => latest_tag(body@) is None,
        },
{
    let cs = chars_of(body);
    let key: Vec<char> = vec!['"', 't', 'a', 'g', '_', 'n', 'a', 'm', 'e', '"', ':'];
    let quote: Vec<char> = vec!['"'];
    proof {
        assert(key@ =~= tag_key());
        assert(quote@ =~= seq!['"']);
    }
    let t = match find_from(&cs, &key, 0) {
        Some(t) => t,
        None => {
            proof {
                assert(!exists|i: int| #[trigger] is_first_occurrence_from(cs@, tag_key(), 0, i));
            }
            return None;
        },
    };
    proof {
        assert(occurs_at(cs@, key@, t as int));
        assert(t + key.len() <= cs.len());
    }
    let after_key = t + key.len();
    let q = match find_from(&cs, &quote, after_key) {
        Some(q) => q,
        None => {
            proof {
                lemma_first_occurrence_unique(cs@, tag_key(), 0, t as int);
            }
            return None;
        },
    };
    proof {
        assert(occurs_at(cs@, quote@, q as int));
        assert(q + 1 <= cs.len());
    }
    let r = match find_from(&cs, &quote, q + 1) {
        Some(r) => r,
        None => {
            proof {
                lemma_first_occurrence_unique(cs@, tag_key(), 0, t as int);
                lemma_first_occurrence_unique(cs@, seq!['"'], after_key as int, q as int);
            }
            return None;
        },
    };
    proof {
        lemma_first_occurrence_unique(cs@, tag_key(), 0, t as int);
        lemma_first_occurrence_unique(cs@, seq!['"'], after_key as int, q as int);
        lemma_first_occurrence_unique(cs@, seq!['"'], q + 1, r as int);
    }
    let tag = body.substring_char(q + 1, r);
    Some(tag.to_owned())
}

/// Whether `pat` occurs anywhere in `s`.
fn contains_chars(s: &Vec<char>, pat: &Vec<char>) -> (b: bool)
    ensures
        b == contains_seq(s@, pat@),
{
    match find_from(s, pat, 0) {
        Some(i) => true,
        None => {
            proof {
                assert forall|j: int| !occurs_at(s@, pat@, j) by {
                    if j < 0 {
                        assert(!occurs_at(s@, pat@, j));
                    }
                }
            }
            false
        },
    }
}

/// The latest released version, as the release service names it, and the
/// version of the running build.
#[derive(Debug)]
pub struct VersionCheck {
    pub latest: Option<String>,
    pub current: &'static str,
}

impl VersionCheck {
    /// The check made from the body of the release service's reply (empty
    /// when there was none) and the running version.
    pub fn from_release_body(body: &str, current: &'static str) -> (v: Self)
        ensures
            v.current == current,
            match v.latest {
                Some(t) => latest_tag(body@) == Some(t@),
                None => latest_tag(body@) is None,
            },
    {
        VersionCheck { latest: parse_latest_tag(body), current }
    }

    pub fn latest(&self) -> (r: Option<&str>)
        ensures
            match r {
                Some(l) => self.latest is Some && l@ == self.latest->0@,
                None => self.latest is None,
            },
    {
        match &self.latest {
            Some(l) => Some(l.as_str()),
            None => None,
        }
    }

    /// Whether the running build is the latest release: the latest tag names
    /// the running version; true when the latest release is not known.
    pub fn is_latest(&self) -> (b: bool)
        ensures
            b == match self.latest {
                Some(l) => contains_seq(l@, self.current@),
                None => true,
            },
    {
        match &self.latest {
            Some(l) => {
                let hay = chars_of(l.as_str());
                let needle = chars_of(self.current);
                contains_chars(&hay, &needle)
            },
            None => true,
        }
    }
}

/// A tag that is exactly the running version shows the build is the latest.
pub proof fn law_same_version_is_latest(v: Seq<char>)
    ensures
        contains_seq(v, v),
{
    assert(v.subrange(0, v.len() as int) =~= v);
    assert(occurs_at(v, v, 0));
}

} // verus!
