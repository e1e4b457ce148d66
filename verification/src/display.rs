//! Rendering of selectable language items and recovery of the tag from a
//! rendered item.
//!
//! A language `(tag, name)` is shown as `"<tag> (<name>)"`, or as
//! `"<tag> (<name>): <annotation>"` when an annotation accompanies it.  The
//! tag is recovered from a chosen item by taking everything before the first
//! occurrence of the two-character delimiter `" ("`.  A tag that itself
//! contains the delimiter cannot be recovered faithfully; the round-trip
//! lemmas below therefore assume the tag is delimiter-free.

use vstd::prelude::*;

verus! {

use vstd::string::StrSliceExecFns;
use vstd::string::StringExecFns;

/// The delimiter `" ("` that separates a tag from the display name.
pub open spec fn delim() -> Seq<char> {
    seq![' ', '(']
}

/// Whether the delimiter occurs in `s` starting at index `i`.
pub open spec fn is_delim_at(s: Seq<char>, i: int) -> bool {
    &&& 0 <= i
    &&& i + 2 <= s.len()
    &&& s[i] == ' '
    &&& s[i + 1] == '('
}

/// Whether the delimiter occurs anywhere in `s`.
pub open spec fn has_delim(s: Seq<char>) -> bool {
    exists|i: int| is_delim_at(s, i)
}

/// The index of the first occurrence of the delimiter in `s`, or `s.len()`
/// when the delimiter does not occur.
pub open spec fn delim_pos(s: Seq<char>) -> int
    decreases s.len(),
{
    if s.len() < 2 {
        s.len() as int
    } else if s[0] == ' ' && s[1] == '(' {
        0
    } else {
        1 + delim_pos(s.drop_first())
    }
}

/// The tag recovered from a rendered item: everything before the first `" ("`.
pub open spec fn tag_spec(s: Seq<char>) -> Seq<char> {
    s.subrange(0, delim_pos(s))
}

/// Plain rendering of a language: `"<tag> (<name>)"`.
pub open spec fn display_spec(tag: Seq<char>, name: Seq<char>) -> Seq<char> {
    tag + delim() + name + seq![')']
}

/// Annotated rendering of a language: `"<tag> (<name>): <annotation>"`.
pub open spec fn display_with_spec(tag: Seq<char>, name: Seq<char>, ann: Seq<char>) -> Seq<char> {
    tag + delim() + name + seq![')', ':', ' '] + ann
}

/// `delim_pos` is a position in `s`, carries the delimiter when it is a
/// proper position, and no earlier position does.
pub proof fn lemma_delim_pos(s: Seq<char>)
    ensures
        0 <= delim_pos(s) <= s.len(),
        delim_pos(s) < s.len() ==> is_delim_at(s, delim_pos(s)),
        forall|j: int| 0 <= j < delim_pos(s) ==> !is_delim_at(s, j),
    decreases s.len(),
{
    if s.len() < 2 {
    } else if s[0] == ' ' && s[1] == '(' {
    } else {
        let t = s.drop_first();
        lemma_delim_pos(t);
        let p = delim_pos(s);
        assert(p == 1 + delim_pos(t));
        assert forall|j: int| 0 <= j < p implies !is_delim_at(s, j) by {
            if j == 0 {
                assert(!(s[0] == ' ' && s[1] == '('));
            } else if is_delim_at(s, j) {
                assert(t[j - 1] == s[j]);
                assert(t[j] == s[j + 1]);
                assert(is_delim_at(t, j - 1));
                assert(false);
            }
        }
        if p < s.len() {
            assert(is_delim_at(t, p - 1));
            assert(s[p] == t[p - 1]);
            assert(s[p + 1] == t[p]);
        }
    }
}

/// A position carrying the delimiter with no earlier occurrence is exactly
/// `delim_pos`.
pub proof fn lemma_delim_pos_is(s: Seq<char>, k: int)
    requires
        is_delim_at(s, k),
        forall|j: int| 0 <= j < k ==> !is_delim_at(s, j),
    ensures
        delim_pos(s) == k,
{
    lemma_delim_pos(s);
    if delim_pos(s) < k {
        assert(is_delim_at(s, delim_pos(s)));
        assert(false);
    } else if delim_pos(s) > k {
        assert(!is_delim_at(s, k));
        assert(false);
    }
}

/// Round trip for the plain rendering: when the tag contains no `" ("`,
/// parsing the rendered item recovers the tag exactly.
pub proof fn lemma_display_round_trip(tag: Seq<char>, name: Seq<char>)
    requires
        !has_delim(tag),
    ensures
        tag_spec(display_spec(tag, name)) == tag,
{
    let s = display_spec(tag, name);
    let n = tag.len() as int;
    assert(s[n] == ' ');
    assert(s[n + 1] == '(');
    assert(is_delim_at(s, n));
    assert forall|j: int| 0 <= j < n implies !is_delim_at(s, j) by {
        if is_delim_at(s, j) {
            if j + 2 <= n {
                assert(tag[j] == s[j]);
                assert(tag[j + 1] == s[j + 1]);
                assert(is_delim_at(tag, j));
                assert(false);
            } else {
                assert(j == n - 1);
                assert(s[j + 1] == ' ');
                assert(false);
            }
        }
    }
    lemma_delim_pos_is(s, n);
    assert(tag_spec(s) =~= tag);
}

/// Round trip for the annotated rendering: when the tag contains no `" ("`,
/// parsing the rendered item recovers the tag exactly.
pub proof fn lemma_display_with_round_trip(tag: Seq<char>, name: Seq<char>, ann: Seq<char>)
    requires
        !has_delim(tag),
    ensures
        tag_spec(display_with_spec(tag, name, ann)) == tag,
{
    let s = display_with_spec(tag, name, ann);
    let n = tag.len() as int;
    assert(s[n] == ' ');
    assert(s[n + 1] == '(');
    assert(is_delim_at(s, n));
    assert forall|j: int| 0 <= j < n implies !is_delim_at(s, j) by {
        if is_delim_at(s, j) {
            if j + 2 <= n {
                assert(tag[j] == s[j]);
                assert(tag[j + 1] == s[j + 1]);
                assert(is_delim_at(tag, j));
                assert(false);
            } else {
                assert(j == n - 1);
                assert(s[j + 1] == ' ');
                assert(false);
            }
        }
    }
    lemma_delim_pos_is(s, n);
    assert(tag_spec(s) =~= tag);
}

/// Render a language as `"<tag> (<name>)"`.
pub fn display_item(tag: &str, name: &str) -> (r: String)
    ensures
        r@ == display_spec(tag@, name@),
{
    let mut s = tag.to_owned();
    s.append(" (");
    s.append(name);
    s.append(")");
    proof {
        reveal_strlit(" (");
        reveal_strlit(")");
        assert(" ("@ =~= delim());
        assert(")"@ =~= seq![')']);
        assert(s@ =~= display_spec(tag@, name@));
    }
    s
}

/// Render a language as `"<tag> (<name>): <annotation>"`.
pub fn display_item_with(tag: &str, name: &str, ann: &str) -> (r: String)
    ensures
        r@ == display_with_spec(tag@, name@, ann@),
{
    let mut s = tag.to_owned();
    s.append(" (");
    s.append(name);
    s.append("): ");
    s.append(ann);
    proof {
        reveal_strlit(" (");
        reveal_strlit("): ");
        assert(" ("@ =~= delim());
        assert("): "@ =~= seq![')', ':', ' ']);
        assert(s@ =~= display_with_spec(tag@, name@, ann@));
    }
    s
}

/// Recover the tag from a rendered item: everything before the first `" ("`,
/// or the whole string when the delimiter does not occur.
pub fn parse_tag(s: &str) -> (r: String)
    ensures
        r@ == tag_spec(s@),
{
    let n = s.unicode_len();
    if n < 2 {
        proof {
            lemma_delim_pos(s@);
            assert(tag_spec(s@) =~= s@);
        }
        return s.to_owned();
    }
    let mut i: usize = 0;
    while i < n - 1
        invariant
            2 <= n == s@.len(),
            0 <= i <= n - 1,
            forall|j: int| 0 <= j < i ==> !is_delim_at(s@, j),
        decreases n - i,
    {
        if s.get_char(i) == ' ' && s.get_char(i + 1) == '(' {
            proof {
                lemma_delim_pos_is(s@, i as int);
            }
            return s.substring_char(0, i).to_owned();
        }
        i += 1;
    }
    proof {
        lemma_delim_pos(s@);
        if delim_pos(s@) < s@.len() {
            let p = delim_pos(s@);
            assert(is_delim_at(s@, p));
            assert(p < n - 1);
            assert(false);
        }
        assert(tag_spec(s@) =~= s@);
    }
    s.to_owned()
}

} // verus!
