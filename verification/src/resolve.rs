//! Language resolution: picking a single tag out of a candidate set.
//!
//! A resolution first consults the optional preference: a preference that
//! exactly equals the tag of some candidate decides the outcome at once, with
//! no interactive step.  Otherwise the candidates are rendered into display
//! items and an interactive pick over those items is requested; an unmatched
//! preference additionally carries a warning.  The tag finally resolved from
//! a pick is the parse of the chosen item.
//!
//! Callers are expected to hand in a non-empty candidate set; on an empty set
//! the resolution degenerates to a pick over an empty item list.

use vstd::prelude::*;

verus! {

use vstd::string::StrSliceExecFns;
use vstd::string::StringExecFns;
use crate::display::display_spec;
use crate::display::display_with_spec;
use crate::display::tag_spec;
use crate::display::display_item;
use crate::display::display_item_with;
use crate::display::parse_tag;

/// Outcome of the preference phase of a language resolution: either the
/// preference decided the tag directly, or an interactive pick over the
/// rendered candidate items is required.
pub enum Resolution {
    /// The preference matched a candidate tag exactly.
    Chosen(String),
    /// An interactive pick is required; `warning` reports an unmatched
    /// preference, `items` are the rendered candidates, `prompt` the label to
    /// show beside the pick.
    Pick { warning: Option<String>, items: Vec<String>, prompt: String },
}

/// Whether some candidate in `langs` carries exactly the tag `p`.
pub open spec fn has_tag(langs: Seq<(String, String)>, p: Seq<char>) -> bool {
    exists|i: int| 0 <= i < langs.len() && langs[i].0@ == p
}

/// The rendered selection items for `langs`: annotated elementwise when
/// `anns` is present, plain otherwise.
pub open spec fn items_spec(langs: Seq<(String, String)>, anns: Option<Seq<Seq<char>>>) -> Seq<
    Seq<char>,
> {
    match anns {
        Option::None => Seq::new(langs.len(), |i: int| display_spec(langs[i].0@, langs[i].1@)),
        Option::Some(a) => Seq::new(
            langs.len(),
            |i: int| display_with_spec(langs[i].0@, langs[i].1@, a[i]),
        ),
    }
}

/// The annotation sequence carried by an optional annotation list.
pub open spec fn anns_of(with: Option<&Vec<String>>) -> Option<Seq<Seq<char>>> {
    match with {
        Option::Some(w) => Option::Some(w.deep_view()),
        Option::None => Option::None,
    }
}

/// The warning text reported for a preference tag that matches no candidate.
pub open spec fn warning_spec(p: Seq<char>) -> Seq<char> {
    "Unknown preference language: "@ + p
}

/// What a resolution must look like for the given inputs: a matched
/// preference is chosen directly; otherwise a pick over the rendered items is
/// requested, with a warning exactly when a preference was given.
pub open spec fn resolution_spec(
    langs: Seq<(String, String)>,
    anns: Option<Seq<Seq<char>>>,
    pref: Option<Seq<char>>,
    prompt: Seq<char>,
    r: Resolution,
) -> bool {
    match pref {
        Option::Some(p) => {
            &&& has_tag(langs, p) ==> (r matches Resolution::Chosen(t) && t@ == p)
            &&& !has_tag(langs, p) ==> (r matches Resolution::Pick { warning, items, prompt: pr }
                && warning matches Option::Some(w) && w@ == warning_spec(p)
                && items.deep_view() == items_spec(langs, anns) && pr@ == prompt)
        },
        Option::None => (r matches Resolution::Pick { warning, items, prompt: pr }
            && warning is None && items.deep_view() == items_spec(langs, anns) && pr@ == prompt),
    }
}

/// The view of an optional preference string.
pub open spec fn pref_view(pref: Option<&str>) -> Option<Seq<char>> {
    match pref {
        Option::Some(p) => Option::Some(p@),
        Option::None => Option::None,
    }
}

/// Character-for-character equality of two string slices.
pub fn str_eq(a: &str, b: &str) -> (r: bool)
    ensures
        r == (a@ == b@),
{
    let na = a.unicode_len();
    let nb = b.unicode_len();
    if na != nb {
        proof {
            assert(a@.len() != b@.len());
        }
        return false;
    }
    let mut i: usize = 0;
    while i < na
        invariant
            na == a@.len(),
            na == b@.len(),
            0 <= i <= na,
            forall|j: int| 0 <= j < i ==> a@[j] == b@[j],
        decreases na - i,
    {
        if a.get_char(i) != b.get_char(i) {
            proof {
                assert(a@[i as int] != b@[i as int]);
            }
            return false;
        }
        i += 1;
    }
    proof {
        assert(a@ =~= b@);
    }
    true
}

/// Render every candidate, zipping in the annotations when they are present.
fn build_items(langs: &Vec<(String, String)>, with: Option<&Vec<String>>) -> (items: Vec<String>)
    requires
        with matches Option::Some(w) ==> w@.len() == langs@.len(),
    ensures
        items.deep_view() == items_spec(langs@, anns_of(with)),
{
    let mut items: Vec<String> = Vec::new();
    let n = langs.len();
    match with {
        Option::Some(w) => {
            let mut k: usize = 0;
            while k < n
                invariant
                    n == langs@.len(),
                    w@.len() == n,
                    0 <= k <= n,
                    items@.len() == k,
                    forall|j: int|
                        0 <= j < k ==> items@[j]@ == display_with_spec(
                            langs@[j].0@,
                            langs@[j].1@,
                            w@[j]@,
                        ),
                decreases n - k,
            {
                let it = display_item_with(
                    langs[k].0.as_str(),
                    langs[k].1.as_str(),
                    w[k].as_str(),
                );
                items.push(it);
                k += 1;
            }
        },
        Option::None => {
            let mut k: usize = 0;
            while k < n
                invariant
                    n == langs@.len(),
                    0 <= k <= n,
                    items@.len() == k,
                    forall|j: int|
                        0 <= j < k ==> items@[j]@ == display_spec(langs@[j].0@, langs@[j].1@),
                decreases n - k,
            {
                let it = display_item(langs[k].0.as_str(), langs[k].1.as_str());
                items.push(it);
                k += 1;
            }
        },
    }
    proof {
        assert(items.deep_view() =~= items_spec(langs@, anns_of(with)));
    }
    items
}

/// Resolve a language from `langs`, showing each candidate with its
/// annotation from `with` when annotations are given.
///
/// A preference equal to some candidate tag decides the outcome directly; an
/// unmatched preference produces a warning beside the requested pick.
pub fn select_lang_with(
    langs: &Vec<(String, String)>,
    with: Option<&Vec<String>>,
    pref: Option<&str>,
    prompt: &str,
) -> (r: Resolution)
    requires
        with matches Option::Some(w) ==> w@.len() == langs@.len(),
    ensures
        resolution_spec(langs@, anns_of(with), pref_view(pref), prompt@, r),
{
    match pref {
        Option::Some(p) => {
            let n = langs.len();
            let mut k: usize = 0;
            while k < n
                invariant
                    n == langs@.len(),
                    0 <= k <= n,
                    pref matches Option::Some(q) && q@ == p@,
                    forall|j: int| 0 <= j < k ==> langs@[j].0@ != p@,
                decreases n - k,
            {
                if str_eq(langs[k].0.as_str(), p) {
                    let tag = langs[k].0.clone();
                    proof {
                        assert(langs@[k as int].0@ == p@);
                        assert(tag@ == p@);
                        assert(has_tag(langs@, p@)) by {
                            assert(0 <= k < langs@.len() && langs@[k as int].0@ == p@);
                        }
                    }
                    return Resolution::Chosen(tag);
                }
                k += 1;
            }
            proof {
                assert(!has_tag(langs@, p@));
            }
        },
        Option::None => {},
    }
    let items = build_items(langs, with);
    let warning = match pref {
        Option::Some(p) => {
            let mut w = "Unknown preference language: ".to_owned();
            w.append(p);
            Option::Some(w)
        },
        Option::None => Option::None,
    };
    Resolution::Pick { warning, items, prompt: prompt.to_owned() }
}

/// Resolve a language from `langs` with no annotations shown.
pub fn select_lang(langs: &Vec<(String, String)>, pref: Option<&str>, prompt: &str) -> (r:
    Resolution)
    ensures
        resolution_spec(langs@, Option::None, pref_view(pref), prompt@, r),
{
    select_lang_with(langs, Option::None, pref, prompt)
}

/// The tag finally resolved from an interactive pick: the parse of the chosen
/// item, or nothing when the pick was cancelled.
pub fn selected_tag(picked: Option<&str>) -> (r: Option<String>)
    ensures
        match picked {
            Option::Some(s) => r matches Option::Some(t) && t@ == tag_spec(s@),
            Option::None => r is None,
        },
{
    match picked {
        Option::Some(s) => Option::Some(parse_tag(s)),
        Option::None => Option::None,
    }
}

/// A preference equal to some candidate tag decides the resolution directly:
/// no interactive pick is requested, and the chosen tag is the preference.
pub proof fn lemma_matched_pref_decides(
    langs: Seq<(String, String)>,
    anns: Option<Seq<Seq<char>>>,
    p: Seq<char>,
    prompt: Seq<char>,
    r: Resolution,
)
    requires
        has_tag(langs, p),
        resolution_spec(langs, anns, Option::Some(p), prompt, r),
    ensures
        r matches Resolution::Chosen(t) && t@ == p,
{
}

/// An unmatched preference never decides the resolution: a warning is
/// reported, the pick is requested over exactly the rendered candidate items,
/// and the tag finally resolved is exactly the parse of whatever the pick
/// yields.
pub proof fn lemma_unmatched_pref_defers(
    langs: Seq<(String, String)>,
    anns: Option<Seq<Seq<char>>>,
    p: Seq<char>,
    prompt: Seq<char>,
    r: Resolution,
)
    requires
        !has_tag(langs, p),
        resolution_spec(langs, anns, Option::Some(p), prompt, r),
    ensures
        r matches Resolution::Pick { warning, items, prompt: pr } && warning matches Option::Some(
            w,
        ) && w@ == warning_spec(p) && items.deep_view() == items_spec(langs, anns) && pr@ == prompt,
{
}

} // verus!
