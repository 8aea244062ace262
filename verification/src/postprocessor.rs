//! Programs through which the finished script may be piped.

use crate::text::owned;
use crate::text::views;
use vstd::prelude::*;
use wildmatch::WildMatch;

verus! {

/// A program that rewrites a script: its name, and the path of its binary.
#[derive(Debug)]
pub struct PostProcessor {
    pub name: String,
    pub bin: String,
}

/// Whether the wildcard pattern matches the whole of `text`: `?` stands for
/// exactly one character, `*` for any number of characters, and every other
/// character for itself.
pub open spec fn wild_matches(pattern: Seq<char>, text: Seq<char>) -> bool
    decreases pattern.len(), text.len(),
{
    if pattern.len() == 0 {
        text.len() == 0
    } else if pattern[0] == '*' {
        wild_matches(pattern.skip(1), text) || (text.len() > 0 && wild_matches(
            pattern,
            text.skip(1),
        ))
    } else {
        text.len() > 0 && (pattern[0] == '?' || pattern[0] == text[0]) && wild_matches(
            pattern.skip(1),
            text.skip(1),
        )
    }
}

/// `WildMatch::new`, then `WildMatchPattern::matches`: whether the pattern
/// matches the whole of `text`, with `?` for one character and `*` for any
/// number of them, as the documentation of the two says.
#[verifier::external_body]
fn matches(pattern: &str, text: &str) -> (r: bool)
    ensures
        r == wild_matches(pattern@, text@),
{
    WildMatch::new(pattern).matches(text)
}

/// Whether one of the first `n` patterns matches `name`.
pub open spec fn matched_by(patterns: Seq<Seq<char>>, name: Seq<char>, n: int) -> bool
    decreases n,
{
    if n <= 0 || n > patterns.len() {
        false
    } else {
        matched_by(patterns, name, n - 1) || wild_matches(patterns[n - 1], name)
    }
}

/// Whether one of the patterns matches `name`.
pub open spec fn left_out(patterns: Seq<Seq<char>>, name: Seq<char>) -> bool {
    matched_by(patterns, name, patterns.len() as int)
}

/// Those of the first `n` names that none of the patterns matches, in their
/// order.
pub open spec fn kept_names(names: Seq<Seq<char>>, patterns: Seq<Seq<char>>, n: int) -> Seq<
    Seq<char>,
>
    decreases n,
{
    if n <= 0 || n > names.len() {
        Seq::empty()
    } else if left_out(patterns, names[n - 1]) {
        kept_names(names, patterns, n - 1)
    } else {
        kept_names(names, patterns, n - 1).push(names[n - 1])
    }
}

/// The names of a list of post-processors.
pub open spec fn names_of(all: Seq<PostProcessor>) -> Seq<Seq<char>> {
    Seq::new(all.len(), |i: int| all[i].name@)
}

/// Whether one of the patterns matches `name`.
pub fn is_left_out(patterns: &Vec<String>, name: &str) -> (r: bool)
    ensures
        r == left_out(views(patterns@), name@),
{
    let mut i: usize = 0;
    while i < patterns.len()
        invariant
            i <= patterns@.len(),
            !matched_by(views(patterns@), name@, i as int),
        decreases patterns.len() - i,
    {
        if matches(patterns[i].as_str(), name) {
            proof {
                assert(matched_by(views(patterns@), name@, i + 1));
                lemma_matched_stays(views(patterns@), name@, i + 1, patterns@.len() as int);
            }
            return true;
        }
        i = i + 1;
    }
    false
}

/// A name that one of the first `n` patterns matches is matched by one of
/// the first `m` patterns too, where `m` is larger.
pub proof fn lemma_matched_stays(patterns: Seq<Seq<char>>, name: Seq<char>, n: int, m: int)
    requires
        0 <= n <= m <= patterns.len(),
        matched_by(patterns, name, n),
    ensures
        matched_by(patterns, name, m),
    decreases m - n,
{
    if n < m {
        lemma_matched_stays(patterns, name, n, m - 1);
    }
}

impl PostProcessor {
    /// The post-processor `name` whose binary is `bin`.
    pub fn new(name: &str, bin: &str) -> (r: Self)
        ensures
            r.name@ == name@,
            r.bin@ == bin@,
    {
        PostProcessor { name: owned(name), bin: owned(bin) }
    }

    /// The names of the post-processors that are applied unless the user
    /// leaves them out.
    pub open spec fn default_names() -> Seq<Seq<char>> {
        seq!["shfmt"@, "bshchk"@]
    }

    /// The post-processors that are applied unless the user leaves them
    /// out, in the order in which they are applied. Each is found under its
    /// own name.
    pub fn get_default() -> (r: Vec<Self>)
        ensures
            names_of(r@) == Self::default_names(),
            forall|i: int| 0 <= i < r@.len() ==> (#[trigger] r@[i]).bin@ == r@[i].name@,
    {
        let mut all: Vec<PostProcessor> = Vec::new();
        all.push(PostProcessor::new("shfmt", "shfmt"));
        all.push(PostProcessor::new("bshchk", "bshchk"));
        assert(names_of(all@) =~= Self::default_names());
        all
    }

    /// The default post-processors without those whose name one of the
    /// wildcard patterns `filters` matches, in their order.
    pub fn filter_default(filters: &Vec<String>) -> (r: Vec<Self>)
        ensures
            names_of(r@) == kept_names(
                Self::default_names(),
                views(filters@),
                Self::default_names().len() as int,
            ),
            forall|i: int| 0 <= i < r@.len() ==> (#[trigger] r@[i]).bin@ == r@[i].name@,
    {
        let all = Self::get_default();
        let ghost names = names_of(all@);
        let ghost everything = all@;
        let mut kept: Vec<PostProcessor> = Vec::new();
        for processor in iter: all
            invariant
                iter.seq() == everything,
                names == names_of(everything),
                names == Self::default_names(),
                names_of(kept@) == kept_names(names, views(filters@), iter.index() as int),
                forall|i: int| 0 <= i < everything.len() ==> (#[trigger] everything[i]).bin@ == everything[i].name@,
                forall|i: int| 0 <= i < kept@.len() ==> (#[trigger] kept@[i]).bin@ == kept@[i].name@,
        {
            let ghost before = names_of(kept@);
            assert(processor.name@ == names[iter.index() as int]);
            if !is_left_out(filters, processor.name.as_str()) {
                kept.push(processor);
                assert(names_of(kept@) =~= before.push(names[iter.index() as int]));
            }
        }
        kept
    }
}

} // verus!
