//! Token-repair normalization of inline stylesheet text.
//!
//! When an inline stylesheet literal is serialized back to plain text by the
//! host's tokenizer, a single space is inserted around certain punctuation
//! boundaries. Two ordered repair passes undo the damage:
//!
//! 1. selector repair: a class (`.`) or id (`#`) marker followed by exactly
//!    one whitespace character and an identifier loses that whitespace;
//! 2. hyphen repair: `identifier - identifier` (single spaces around the
//!    hyphen) is rejoined to `identifier-identifier`.
//!
//! Both passes rewrite non-overlapping matches, leftmost first, across the
//! whole text. Text is handled as UTF-8 bytes; every byte the patterns touch
//! is ASCII, so multi-byte characters pass through unchanged.

use vstd::prelude::*;

verus! {

/// A selector marker: the class (`.`) or id (`#`) punctuation byte.
pub open spec fn is_marker(b: u8) -> bool {
    b == 46 || b == 35
}

/// An ASCII whitespace byte, the kind the host tokenizer inserts.
pub open spec fn is_space_byte(b: u8) -> bool {
    b == 32 || b == 9 || b == 10 || b == 13 || b == 11 || b == 12
}

/// An identifier byte: ASCII letter or digit.
pub open spec fn is_ident_byte(b: u8) -> bool {
    (97 <= b && b <= 122) || (65 <= b && b <= 90) || (48 <= b && b <= 57)
}

/// The selector-repair pass, from position `i` on: whenever a marker is
/// followed by one whitespace byte and an identifier byte, the whitespace is
/// dropped and scanning resumes at the identifier.
pub open spec fn selector_repaired_from(s: Seq<u8>, i: int) -> Seq<u8>
    decreases s.len() - i,
{
    if i < 0 || i >= s.len() {
        Seq::empty()
    } else if i + 2 < s.len() && is_marker(s[i]) && is_space_byte(s[i + 1]) && is_ident_byte(
        s[i + 2],
    ) {
        seq![s[i]] + selector_repaired_from(s, i + 2)
    } else {
        seq![s[i]] + selector_repaired_from(s, i + 1)
    }
}

/// The whole selector-repair pass.
pub open spec fn selector_repaired(s: Seq<u8>) -> Seq<u8> {
    selector_repaired_from(s, 0)
}

/// A selector-repair artifact sits at `i`: marker, one whitespace, identifier.
pub open spec fn selector_artifact_at(s: Seq<u8>, i: int) -> bool {
    0 <= i && i + 2 < s.len() && is_marker(s[i]) && is_space_byte(s[i + 1]) && is_ident_byte(
        s[i + 2],
    )
}

/// Repairs the selector-punctuation artifacts of `src`, leftmost first.
pub fn repair_selectors(src: &Vec<u8>) -> (out: Vec<u8>)
    ensures
        out@ == selector_repaired(src@),
{
    let mut out: Vec<u8> = Vec::new();
    let mut i: usize = 0;
    while i < src.len()
        invariant
            i <= src.len(),
            selector_repaired(src@) == out@ + selector_repaired_from(src@, i as int),
        decreases src.len() - i,
    {
        if src.len() - i > 2 && is_marker_exec(src[i]) && is_space_byte_exec(src[i + 1])
            && is_ident_byte_exec(src[i + 2]) {
            out.push(src[i]);
            proof {
                assert(selector_repaired_from(src@, i as int) == seq![src@[i as int]]
                    + selector_repaired_from(src@, i + 2));
            }
            i = i + 2;
        } else {
            out.push(src[i]);
            proof {
                assert(selector_repaired_from(src@, i as int) == seq![src@[i as int]]
                    + selector_repaired_from(src@, i + 1));
            }
            i = i + 1;
        }
    }
    proof {
        assert(selector_repaired_from(src@, i as int) =~= Seq::<u8>::empty());
        assert(out@ + Seq::<u8>::empty() =~= out@);
    }
    out
}

/// The end of the identifier run that starts at `i`: the first position at or
/// after `i` that does not hold an identifier byte.
pub open spec fn ident_run_end(s: Seq<u8>, i: int) -> int
    decreases s.len() - i,
{
    if i < 0 || i >= s.len() || !is_ident_byte(s[i]) {
        i
    } else {
        ident_run_end(s, i + 1)
    }
}

/// The run end lies between `i` and the text's end, everything before it in
/// the run is an identifier byte, and the run is maximal.
pub proof fn lemma_ident_run_end(s: Seq<u8>, i: int)
    requires
        0 <= i <= s.len(),
    ensures
        i <= ident_run_end(s, i) <= s.len(),
        forall|k: int| i <= k < ident_run_end(s, i) ==> is_ident_byte(s[k]),
        ident_run_end(s, i) < s.len() ==> !is_ident_byte(s[ident_run_end(s, i)]),
        i < s.len() && is_ident_byte(s[i]) ==> ident_run_end(s, i) > i,
    decreases s.len() - i,
{
    if i < s.len() && is_ident_byte(s[i]) {
        lemma_ident_run_end(s, i + 1);
    }
}

/// After an identifier run ending at `r`, a split hyphenated token continues:
/// one whitespace byte, a hyphen, one whitespace byte, an identifier byte.
pub open spec fn hyphen_joint_at(s: Seq<u8>, r: int) -> bool {
    r + 3 < s.len() && is_space_byte(s[r]) && s[r + 1] == 45 && is_space_byte(s[r + 2])
        && is_ident_byte(s[r + 3])
}

/// The hyphen-repair pass, from position `i` on: whenever an identifier run is
/// followed by `<space> - <space> <identifier>`, the two spaces are dropped,
/// and scanning resumes after the identifier run on the hyphen's right.
pub open spec fn hyphen_repaired_from(s: Seq<u8>, i: int) -> Seq<u8>
    decreases s.len() - i,
    via hyphen_repaired_from_decreases
{
    if i < 0 || i >= s.len() {
        Seq::empty()
    } else if !is_ident_byte(s[i]) {
        seq![s[i]] + hyphen_repaired_from(s, i + 1)
    } else {
        let r = ident_run_end(s, i);
        if hyphen_joint_at(s, r) {
            let r2 = ident_run_end(s, r + 3);
            s.subrange(i, r) + seq![45u8] + s.subrange(r + 3, r2) + hyphen_repaired_from(s, r2)
        } else {
            s.subrange(i, r) + hyphen_repaired_from(s, r)
        }
    }
}

#[via_fn]
proof fn hyphen_repaired_from_decreases(s: Seq<u8>, i: int) {
    if 0 <= i < s.len() && is_ident_byte(s[i]) {
        lemma_ident_run_end(s, i);
        let r = ident_run_end(s, i);
        if hyphen_joint_at(s, r) {
            lemma_ident_run_end(s, r + 3);
        }
    }
}

/// The whole hyphen-repair pass.
pub open spec fn hyphen_repaired(s: Seq<u8>) -> Seq<u8> {
    hyphen_repaired_from(s, 0)
}

/// A hyphen-repair artifact sits at `i`: identifier byte, one whitespace, a
/// hyphen, one whitespace, identifier byte.
pub open spec fn hyphen_artifact_at(s: Seq<u8>, i: int) -> bool {
    0 <= i && i + 4 < s.len() && is_ident_byte(s[i]) && is_space_byte(s[i + 1]) && s[i + 2] == 45
        && is_space_byte(s[i + 3]) && is_ident_byte(s[i + 4])
}

/// Both repair passes in order: selector repair first, hyphen repair second,
/// over the selector pass's output.
pub open spec fn token_repaired(s: Seq<u8>) -> Seq<u8> {
    hyphen_repaired(selector_repaired(s))
}

/// Scans to the end of the identifier run that starts at `from`.
pub fn find_ident_run_end(src: &Vec<u8>, from: usize) -> (r: usize)
    requires
        from <= src.len(),
    ensures
        r as int == ident_run_end(src@, from as int),
        from <= r <= src.len(),
    decreases src.len() - from,
{
    let mut j: usize = from;
    while j < src.len() && is_ident_byte_exec(src[j])
        invariant
            from <= j <= src.len(),
            ident_run_end(src@, from as int) == ident_run_end(src@, j as int),
        decreases src.len() - j,
    {
        proof {
            assert(ident_run_end(src@, j as int) == ident_run_end(src@, j + 1));
        }
        j = j + 1;
    }
    proof {
        assert(ident_run_end(src@, j as int) == j as int);
        lemma_ident_run_end(src@, from as int);
    }
    j
}

/// Repairs the split hyphenated tokens of `src`, leftmost first.
pub fn repair_hyphens(src: &Vec<u8>) -> (out: Vec<u8>)
    ensures
        out@ == hyphen_repaired(src@),
{
    let mut out: Vec<u8> = Vec::new();
    let mut i: usize = 0;
    while i < src.len()
        invariant
            i <= src.len(),
            hyphen_repaired(src@) == out@ + hyphen_repaired_from(src@, i as int),
        decreases src.len() - i,
    {
        if !is_ident_byte_exec(src[i]) {
            out.push(src[i]);
            proof {
                assert(hyphen_repaired_from(src@, i as int) == seq![src@[i as int]]
                    + hyphen_repaired_from(src@, i + 1));
            }
            i = i + 1;
        } else {
            proof {
                lemma_ident_run_end(src@, i as int);
            }
            let r = find_ident_run_end(src, i);
            let ghost prev = out@;
            if src.len() - r > 3 && is_space_byte_exec(src[r]) && src[r + 1] == 45
                && is_space_byte_exec(src[r + 2]) && is_ident_byte_exec(src[r + 3]) {
                proof {
                    lemma_ident_run_end(src@, r + 3);
                }
                let r2 = find_ident_run_end(src, r + 3);
                crate::bytes::append_range(&mut out, src, i, r);
                out.push(45);
                crate::bytes::append_range(&mut out, src, r + 3, r2);
                proof {
                    assert(hyphen_joint_at(src@, r as int));
                    assert(hyphen_repaired_from(src@, i as int) == src@.subrange(
                        i as int,
                        r as int,
                    ) + seq![45u8] + src@.subrange(r + 3, r2 as int) + hyphen_repaired_from(
                        src@,
                        r2 as int,
                    ));
                    assert(out@ + hyphen_repaired_from(src@, r2 as int) =~= prev
                        + hyphen_repaired_from(src@, i as int));
                }
                i = r2;
            } else {
                crate::bytes::append_range(&mut out, src, i, r);
                proof {
                    assert(!hyphen_joint_at(src@, r as int));
                    assert(hyphen_repaired_from(src@, i as int) == src@.subrange(
                        i as int,
                        r as int,
                    ) + hyphen_repaired_from(src@, r as int));
                    assert(out@ + hyphen_repaired_from(src@, r as int) =~= prev
                        + hyphen_repaired_from(src@, i as int));
                }
                i = r;
            }
        }
    }
    proof {
        assert(hyphen_repaired_from(src@, i as int) =~= Seq::<u8>::empty());
        assert(out@ + Seq::<u8>::empty() =~= out@);
    }
    out
}

/// Runs both repair passes on inline stylesheet text, in order: selector
/// repair first, then hyphen repair over its output.
pub fn repair_tokens(src: &Vec<u8>) -> (out: Vec<u8>)
    ensures
        out@ == token_repaired(src@),
{
    let selectors_fixed = repair_selectors(src);
    repair_hyphens(&selectors_fixed)
}

/// No artifact of either repair pattern occurs anywhere in the text.
pub open spec fn artifact_free(s: Seq<u8>) -> bool {
    (forall|i: int| !selector_artifact_at(s, i)) && (forall|i: int| !hyphen_artifact_at(s, i))
}

/// From a position past every selector artifact, the selector pass copies the
/// rest of the text unchanged.
proof fn lemma_selector_repair_skip(s: Seq<u8>, i: int)
    requires
        0 <= i <= s.len(),
        forall|j: int| i <= j ==> !selector_artifact_at(s, j),
    ensures
        selector_repaired_from(s, i) == s.skip(i),
    decreases s.len() - i,
{
    if i >= s.len() {
        assert(selector_repaired_from(s, i) =~= s.skip(i));
    } else {
        assert(!selector_artifact_at(s, i));
        lemma_selector_repair_skip(s, i + 1);
        assert(seq![s[i]] + s.skip(i + 1) =~= s.skip(i));
    }
}

/// On text with no hyphen artifact, the hyphen pass copies the rest of the
/// text unchanged from any position.
proof fn lemma_hyphen_repair_skip(s: Seq<u8>, i: int)
    requires
        0 <= i <= s.len(),
        forall|j: int| !hyphen_artifact_at(s, j),
    ensures
        hyphen_repaired_from(s, i) == s.skip(i),
    decreases s.len() - i,
{
    if i >= s.len() {
        assert(hyphen_repaired_from(s, i) =~= s.skip(i));
    } else if !is_ident_byte(s[i]) {
        lemma_hyphen_repair_skip(s, i + 1);
        assert(seq![s[i]] + s.skip(i + 1) =~= s.skip(i));
    } else {
        lemma_ident_run_end(s, i);
        let r = ident_run_end(s, i);
        if hyphen_joint_at(s, r) {
            assert(is_ident_byte(s[r - 1]));
            assert(hyphen_artifact_at(s, r - 1));
            assert(false);
        }
        lemma_hyphen_repair_skip(s, r);
        assert(s.subrange(i, r) + s.skip(r) =~= s.skip(i));
    }
}

/// The identifier run starting at `i` ends exactly where identifier bytes
/// stop.
proof fn lemma_ident_run_end_is(s: Seq<u8>, i: int, e: int)
    requires
        0 <= i <= e <= s.len(),
        forall|k: int| i <= k < e ==> is_ident_byte(s[k]),
        e < s.len() ==> !is_ident_byte(s[e]),
    ensures
        ident_run_end(s, i) == e,
    decreases e - i,
{
    if i < e {
        lemma_ident_run_end_is(s, i + 1, e);
    }
}

/// Law: token repair is the identity on artifact-free text, so running the
/// normalizer on such text a second time also yields the input.
pub proof fn lemma_token_repair_identity_on_clean(s: Seq<u8>)
    requires
        artifact_free(s),
    ensures
        token_repaired(s) == s,
        token_repaired(token_repaired(s)) == s,
{
    lemma_selector_repair_skip(s, 0);
    assert(s.skip(0) =~= s);
    lemma_hyphen_repair_skip(s, 0);
}

/// Law: a class or id marker split from its identifier by one whitespace byte
/// is rejoined: `<marker> <identifier>` normalizes to `<marker><identifier>`.
pub proof fn lemma_selector_repair_correct(m: u8, w: u8, ident: Seq<u8>)
    requires
        is_marker(m),
        is_space_byte(w),
        ident.len() > 0,
        forall|k: int| 0 <= k < ident.len() ==> is_ident_byte(ident[k]),
    ensures
        token_repaired(seq![m, w] + ident) == seq![m] + ident,
{
    let s = seq![m, w] + ident;
    assert(s.len() == ident.len() + 2);
    assert(is_ident_byte(s[2]));
    assert(selector_artifact_at(s, 0));
    assert(selector_repaired_from(s, 0) == seq![s[0]] + selector_repaired_from(s, 2));
    assert(forall|j: int| 2 <= j && j + 2 < s.len() ==> is_ident_byte(s[j])
        && !is_marker(s[j]));
    lemma_selector_repair_skip(s, 2);
    let t = seq![m] + ident;
    assert(seq![s[0]] + s.skip(2) =~= t);
    assert(forall|j: int| 0 < j && j < t.len() ==> is_ident_byte(t[j]));
    assert(forall|j: int| !hyphen_artifact_at(t, j));
    lemma_hyphen_repair_skip(t, 0);
    assert(t.skip(0) =~= t);
}

/// Law: a hyphenated token split by single spaces is rejoined:
/// `<identifier> - <identifier>` normalizes to `<identifier>-<identifier>`.
/// (An already-hyphenated token holds no artifact, so by the identity law it
/// stays untouched.)
pub proof fn lemma_hyphen_repair_correct(a: Seq<u8>, w1: u8, w2: u8, b: Seq<u8>)
    requires
        is_space_byte(w1),
        is_space_byte(w2),
        a.len() > 0,
        b.len() > 0,
        forall|k: int| 0 <= k < a.len() ==> is_ident_byte(a[k]),
        forall|k: int| 0 <= k < b.len() ==> is_ident_byte(b[k]),
    ensures
        token_repaired(a + seq![w1, 45u8, w2] + b) == a + seq![45u8] + b,
{
    let s = a + seq![w1, 45u8, w2] + b;
    let n = a.len() as int;
    assert(s.len() == a.len() + 3 + b.len());
    assert(forall|j: int| 0 <= j < s.len() ==> !is_marker(s[j]));
    assert(forall|j: int| !selector_artifact_at(s, j));
    lemma_selector_repair_skip(s, 0);
    assert(s.skip(0) =~= s);
    assert(is_ident_byte(s[0]));
    lemma_ident_run_end_is(s, 0, n);
    assert(hyphen_joint_at(s, n));
    lemma_ident_run_end_is(s, n + 3, s.len() as int);
    assert(hyphen_repaired_from(s, 0) == s.subrange(0, n) + seq![45u8] + s.subrange(
        n + 3,
        s.len() as int,
    ) + hyphen_repaired_from(s, s.len() as int));
    assert(hyphen_repaired_from(s, s.len() as int) =~= Seq::<u8>::empty());
    assert(s.subrange(0, n) =~= a);
    assert(s.subrange(n + 3, s.len() as int) =~= b);
    assert(s.subrange(0, n) + seq![45u8] + s.subrange(n + 3, s.len() as int)
        + hyphen_repaired_from(s, s.len() as int) =~= a + seq![45u8] + b);
}

/// Executable test for a selector marker byte.
pub fn is_marker_exec(b: u8) -> (r: bool)
    ensures
        r == is_marker(b),
{
    b == 46 || b == 35
}

/// Executable test for an ASCII whitespace byte.
pub fn is_space_byte_exec(b: u8) -> (r: bool)
    ensures
        r == is_space_byte(b),
{
    b == 32 || b == 9 || b == 10 || b == 13 || b == 11 || b == 12
}

/// Executable test for an identifier byte.
pub fn is_ident_byte_exec(b: u8) -> (r: bool)
    ensures
        r == is_ident_byte(b),
{
    (97 <= b && b <= 122) || (65 <= b && b <= 90) || (48 <= b && b <= 57)
}

} // verus!
