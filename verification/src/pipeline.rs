//! The translation pipeline: search-language resolution, title pick,
//! langlink filtering, target-language resolution, result extraction.
//!
//! The [`Orchestrator`] is a step machine.  Every network call and every
//! interactive prompt happens outside the library: each step returns an
//! [`Action`] telling the caller what to do next (run a pick, run a search,
//! fetch langlinks, print a line, stop), and the caller hands the outcome
//! back to the next step.  The orchestrator also models the client's active
//! search language: it is switched to the resolved search language for the
//! search and restored as soon as the langlinks are in, so that a finished
//! pipeline always leaves it as it found it.

use vstd::prelude::*;

verus! {

use vstd::string::StringExecFns;
use crate::display::tag_spec;
use crate::display::parse_tag;
use crate::resolve::Resolution;
use crate::resolve::has_tag;
use crate::resolve::items_spec;
use crate::resolve::warning_spec;
use crate::resolve::select_lang;
use crate::resolve::select_lang_with;
use crate::resolve::str_eq;

/// A cross-language link recorded on a page: the tag of the other language
/// and, when the service supplied one, the translated title there.
pub struct LangLink {
    pub lang: String,
    pub title: Option<String>,
}

/// The search phrase built from the positional term tokens: every token is
/// preceded by a single space, so the whole phrase carries a leading space.
pub open spec fn joined_term_spec(tokens: Seq<Seq<char>>) -> Seq<char>
    decreases tokens.len(),
{
    if tokens.len() == 0 {
        Seq::empty()
    } else {
        joined_term_spec(tokens.drop_last()) + seq![' '] + tokens.last()
    }
}

/// Whether some langlink in `links` carries exactly the tag `tag`.
pub open spec fn has_link(links: Seq<LangLink>, tag: Seq<char>) -> bool {
    exists|i: int| 0 <= i < links.len() && links[i].lang@ == tag
}

/// The target-language candidate set: the catalog entries whose tag appears
/// among the page's langlinks, in catalog order.
pub open spec fn target_langs_spec(
    catalog: Seq<(String, String)>,
    links: Seq<LangLink>,
) -> Seq<(String, String)> {
    catalog.filter(|l: (String, String)| has_link(links, l.0@))
}

/// The first langlink carrying `tag`, if any.
pub open spec fn find_link_spec(links: Seq<LangLink>, tag: Seq<char>) -> Option<LangLink>
    decreases links.len(),
{
    if links.len() == 0 {
        Option::None
    } else if links.first().lang@ == tag {
        Option::Some(links.first())
    } else {
        find_link_spec(links.drop_first(), tag)
    }
}

/// The annotation shown beside a target candidate: the translated title of
/// its langlink, or the empty string when the link carries none.
pub open spec fn link_title_spec(links: Seq<LangLink>, tag: Seq<char>) -> Seq<char> {
    match find_link_spec(links, tag) {
        Option::Some(l) => match l.title {
            Option::Some(t) => t@,
            Option::None => Seq::empty(),
        },
        Option::None => Seq::empty(),
    }
}

/// The annotation sequence for a target candidate set.
pub open spec fn annotations_spec(
    targets: Seq<(String, String)>,
    links: Seq<LangLink>,
) -> Seq<Seq<char>> {
    Seq::new(targets.len(), |i: int| link_title_spec(links, targets[i].0@))
}

/// Join the positional term tokens into the search phrase, one leading space
/// per token.
pub fn join_term(tokens: &Vec<String>) -> (r: String)
    ensures
        r@ == joined_term_spec(tokens.deep_view()),
{
    let mut s = String::new();
    let n = tokens.len();
    let mut k: usize = 0;
    while k < n
        invariant
            n == tokens@.len(),
            0 <= k <= n,
            s@ == joined_term_spec(tokens.deep_view().take(k as int)),
        decreases n - k,
    {
        s.append(" ");
        s.append(tokens[k].as_str());
        proof {
            reveal_strlit(" ");
            let dv = tokens.deep_view();
            assert(dv.take(k as int + 1).drop_last() =~= dv.take(k as int));
            assert(dv.take(k as int + 1).last() == dv[k as int]);
            assert(" "@ =~= seq![' ']);
            assert(tokens@[k as int]@ == dv[k as int]);
            assert(s@ =~= joined_term_spec(dv.take(k as int + 1)));
        }
        k += 1;
    }
    proof {
        assert(tokens.deep_view().take(n as int) =~= tokens.deep_view());
    }
    s
}

/// Extending the catalog by one entry extends its target-language filtering
/// by that entry exactly when the entry's tag has a langlink.
proof fn lemma_target_take_step(catalog: Seq<(String, String)>, links: Seq<LangLink>, k: int)
    requires
        0 <= k < catalog.len(),
    ensures
        target_langs_spec(catalog.take(k + 1), links) == if has_link(links, catalog[k].0@) {
            target_langs_spec(catalog.take(k), links).push(catalog[k])
        } else {
            target_langs_spec(catalog.take(k), links)
        },
{
    reveal_with_fuel(Seq::<(String, String)>::filter, 2);
    let c1 = catalog.take(k + 1);
    let c0 = catalog.take(k);
    assert(c1.len() == k + 1);
    assert(c1.drop_last() =~= c0);
    assert(c1.last() == catalog[k]);
}

/// Whether any langlink carries the given tag.
pub fn links_contain(links: &Vec<LangLink>, tag: &String) -> (r: bool)
    ensures
        r == has_link(links@, tag@),
{
    let n = links.len();
    let mut k: usize = 0;
    while k < n
        invariant
            n == links@.len(),
            0 <= k <= n,
            forall|j: int| 0 <= j < k ==> links@[j].lang@ != tag@,
        decreases n - k,
    {
        if str_eq(links[k].lang.as_str(), tag.as_str()) {
            proof {
                assert(has_link(links@, tag@)) by {
                    assert(0 <= k < links@.len() && links@[k as int].lang@ == tag@);
                }
            }
            return true;
        }
        k += 1;
    }
    false
}

/// Narrow the catalog to the languages for which the page has a langlink,
/// preserving catalog order.
pub fn filter_target_langs(catalog: &Vec<(String, String)>, links: &Vec<LangLink>) -> (r: Vec<
    (String, String),
>)
    ensures
        r@ == target_langs_spec(catalog@, links@),
{
    let mut out: Vec<(String, String)> = Vec::new();
    let n = catalog.len();
    let mut k: usize = 0;
    while k < n
        invariant
            n == catalog@.len(),
            0 <= k <= n,
            out@ == target_langs_spec(catalog@.take(k as int), links@),
        decreases n - k,
    {
        proof {
            lemma_target_take_step(catalog@, links@, k as int);
        }
        if links_contain(links, &catalog[k].0) {
            let entry = (catalog[k].0.clone(), catalog[k].1.clone());
            proof {
                assert(entry == catalog@[k as int]);
            }
            out.push(entry);
        }
        k += 1;
    }
    proof {
        assert(catalog@.take(n as int) =~= catalog@);
    }
    out
}

/// The target-language candidates are exactly the catalog entries whose tag
/// appears among the page's langlinks: a subset of the catalog, no larger
/// than it, in catalog order.
pub proof fn lemma_target_langs_characterization(
    catalog: Seq<(String, String)>,
    links: Seq<LangLink>,
)
    ensures
        forall|x: (String, String)| #[trigger]
            target_langs_spec(catalog, links).contains(x) <==> catalog.contains(x) && has_link(
                links,
                x.0@,
            ),
        target_langs_spec(catalog, links).len() <= catalog.len(),
    decreases catalog.len(),
{
    if catalog.len() == 0 {
        assert(target_langs_spec(catalog, links) =~= Seq::<(String, String)>::empty());
    } else {
        let rest = catalog.drop_last();
        lemma_target_langs_characterization(rest, links);
        lemma_target_take_step(catalog, links, catalog.len() - 1);
        assert(catalog.take(catalog.len() as int) =~= catalog);
        assert(catalog.take(catalog.len() - 1) =~= rest);
        let t = target_langs_spec(catalog, links);
        let tr = target_langs_spec(rest, links);
        let last = catalog.last();
        assert forall|x: (String, String)| #[trigger] t.contains(x) implies catalog.contains(x)
            && has_link(links, x.0@) by {
            if has_link(links, last.0@) && x == last {
                assert(catalog.contains(last)) by {
                    assert(catalog[catalog.len() - 1] == last);
                }
            } else {
                assert(tr.contains(x));
                let i = choose|i: int| 0 <= i < rest.len() && rest[i] == x;
                assert(catalog[i] == x);
            }
        }
        assert forall|x: (String, String)| catalog.contains(x) && has_link(links, x.0@)
            implies #[trigger] t.contains(x) by {
            let i = choose|i: int| 0 <= i < catalog.len() && catalog[i] == x;
            if i < catalog.len() - 1 {
                assert(rest[i] == x);
                assert(tr.contains(x));
                let j = choose|j: int| 0 <= j < tr.len() && tr[j] == x;
                assert(t[j] == x);
            } else {
                assert(x == last);
                assert(t[t.len() - 1] == x);
            }
        }
    }
}

/// A tag drawn from the target-language candidates always has a langlink.
pub proof fn lemma_target_tag_has_link(
    catalog: Seq<(String, String)>,
    links: Seq<LangLink>,
    p: Seq<char>,
)
    requires
        has_tag(target_langs_spec(catalog, links), p),
    ensures
        has_link(links, p),
{
    lemma_target_langs_characterization(catalog, links);
    let t = target_langs_spec(catalog, links);
    let i = choose|i: int| 0 <= i < t.len() && t[i].0@ == p;
    assert(t.contains(t[i]));
}

/// A langlink with the sought tag exists exactly when the first-match lookup
/// finds one; what it finds carries that tag.
pub proof fn lemma_find_link(links: Seq<LangLink>, tag: Seq<char>)
    ensures
        (find_link_spec(links, tag) is Some) <==> has_link(links, tag),
        find_link_spec(links, tag) matches Option::Some(l) ==> l.lang@ == tag && links.contains(l),
    decreases links.len(),
{
    if links.len() == 0 {
    } else if links.first().lang@ == tag {
        assert(has_link(links, tag)) by {
            assert(0 <= 0 < links.len() && links[0].lang@ == tag);
        }
        assert(links.contains(links.first())) by {
            assert(links[0] == links.first());
        }
    } else {
        let rest = links.drop_first();
        lemma_find_link(rest, tag);
        if has_link(links, tag) {
            let i = choose|i: int| 0 <= i < links.len() && links[i].lang@ == tag;
            assert(i != 0);
            assert(rest[i - 1] == links[i]);
            assert(has_link(rest, tag)) by {
                assert(0 <= i - 1 < rest.len() && rest[i - 1].lang@ == tag);
            }
        }
        if has_link(rest, tag) {
            let i = choose|i: int| 0 <= i < rest.len() && rest[i].lang@ == tag;
            assert(links[i + 1] == rest[i]);
            assert(has_link(links, tag)) by {
                assert(0 <= i + 1 < links.len() && links[i + 1].lang@ == tag);
            }
        }
        match find_link_spec(rest, tag) {
            Option::Some(l) => {
                let i = choose|i: int| 0 <= i < rest.len() && rest[i] == l;
                assert(links[i + 1] == l);
            },
            Option::None => {},
        }
    }
}

/// Index of the first langlink carrying `tag`, if any.
pub fn find_langlink_index(links: &Vec<LangLink>, tag: &String) -> (r: Option<usize>)
    ensures
        match r {
            Option::Some(i) => i < links@.len() && find_link_spec(links@, tag@)
                == Option::Some(links@[i as int]),
            Option::None => find_link_spec(links@, tag@) is None,
        },
{
    let n = links.len();
    let mut k: usize = 0;
    proof {
        assert(links@.skip(0) =~= links@);
    }
    while k < n
        invariant
            n == links@.len(),
            0 <= k <= n,
            find_link_spec(links@, tag@) == find_link_spec(links@.skip(k as int), tag@),
        decreases n - k,
    {
        proof {
            assert(links@.skip(k as int).first() == links@[k as int]);
            assert(links@.skip(k as int).drop_first() =~= links@.skip(k as int + 1));
        }
        if str_eq(links[k].lang.as_str(), tag.as_str()) {
            return Option::Some(k);
        }
        k += 1;
    }
    proof {
        assert(links@.skip(n as int) =~= Seq::<LangLink>::empty());
    }
    Option::None
}

/// Build the annotation list for the target candidates: each candidate's
/// langlink title, or the empty string where the link carries none.
pub fn build_annotations(targets: &Vec<(String, String)>, links: &Vec<LangLink>) -> (r: Vec<
    String,
>)
    ensures
        r@.len() == targets@.len(),
        r.deep_view() == annotations_spec(targets@, links@),
{
    let mut out: Vec<String> = Vec::new();
    let n = targets.len();
    let mut k: usize = 0;
    while k < n
        invariant
            n == targets@.len(),
            0 <= k <= n,
            out@.len() == k,
            forall|j: int| 0 <= j < k ==> out@[j]@ == link_title_spec(links@, targets@[j].0@),
        decreases n - k,
    {
        let ann = match find_langlink_index(links, &targets[k].0) {
            Option::Some(i) => match &links[i].title {
                Option::Some(t) => t.clone(),
                Option::None => String::new(),
            },
            Option::None => String::new(),
        };
        out.push(ann);
        k += 1;
    }
    proof {
        assert(out.deep_view() =~= annotations_spec(targets@, links@));
    }
    out
}

/// The diagnostic printed when a page has no langlinks at all.
pub open spec fn no_translations_spec(title: Seq<char>) -> Seq<char> {
    "No translations available for: "@ + title
}

/// The translated title carried by the first langlink with the sought tag:
/// the link's optional title, or nothing when no such link exists.
pub open spec fn found_title(links: Seq<LangLink>, tag: Seq<char>) -> Option<String> {
    match find_link_spec(links, tag) {
        Option::Some(l) => l.title,
        Option::None => Option::None,
    }
}

/// Where the pipeline stands: which outcome the orchestrator is waiting for,
/// or how it ended.
pub enum Stage {
    /// Created; nothing has run yet.
    Start,
    /// Waiting for the search-language pick.
    SearchLangPick,
    /// Waiting for the search results.
    AwaitTitles,
    /// Waiting for the title pick.
    TitlePick,
    /// Waiting for the page's langlinks.
    AwaitLangLinks,
    /// Waiting for the target-language pick.
    TargetPick,
    /// Finished; the result is in `Orchestrator::result`.
    Done,
    /// Aborted on a fatal condition.
    Failed,
}

/// What the caller must do next.
pub enum Action {
    /// Run an interactive pick over `items` under `prompt`; print `warning`
    /// to the diagnostic stream first when it is present.
    Pick { items: Vec<String>, warning: Option<String>, prompt: String },
    /// Run the term search for `term` with the client's search language set
    /// to `lang`.
    Search { term: String, lang: String },
    /// Fetch the langlinks of the page with this title.
    FetchLangLinks { title: String },
    /// No translations exist: print `message` and stop; the pipeline yields
    /// no result.
    NoTranslations { message: String },
    /// The pipeline finished with this result.
    Finish { result: Option<String> },
    /// A fatal condition: abort with `message`.
    Fail { message: String },
}

/// The pipeline orchestrator.
///
/// `active_lang` models the client's active search language.  The caller
/// keeps the real client in step with it: it is switched to the resolved
/// search language when a `Search` action is emitted and restored to
/// `original_lang` by the langlink step, so a pipeline that reaches `Done`
/// always leaves the client's language as it found it.
pub struct Orchestrator {
    pub catalog: Vec<(String, String)>,
    pub term_tokens: Vec<String>,
    pub lang_pref: Option<String>,
    pub trans_pref: Option<String>,
    pub original_lang: String,
    pub active_lang: String,
    pub title: String,
    pub links: Vec<LangLink>,
    pub result: Option<String>,
    pub stage: Stage,
}

impl Orchestrator {
    /// The stages in which the active search language must equal the
    /// original one: everywhere except between the search-language switch
    /// and the restoration that follows the langlink fetch.
    pub open spec fn wf(self) -> bool {
        (self.stage == Stage::Start || self.stage == Stage::SearchLangPick || self.stage
            == Stage::TargetPick || self.stage == Stage::Done) ==> self.active_lang@
            == self.original_lang@
    }

    /// The fields fixed at creation never change afterwards.
    pub open spec fn same_setup(self, o: Orchestrator) -> bool {
        &&& self.catalog == o.catalog
        &&& self.term_tokens == o.term_tokens
        &&& self.lang_pref == o.lang_pref
        &&& self.trans_pref == o.trans_pref
        &&& self.original_lang == o.original_lang
    }

    /// Create a pipeline over `catalog`, remembering the client's current
    /// search language `client_lang` for restoration.
    pub fn new(
        catalog: Vec<(String, String)>,
        client_lang: String,
        term_tokens: Vec<String>,
        lang_pref: Option<String>,
        trans_pref: Option<String>,
    ) -> (r: Orchestrator)
        ensures
            r.wf(),
            r.stage == Stage::Start,
            r.catalog == catalog,
            r.term_tokens == term_tokens,
            r.lang_pref == lang_pref,
            r.trans_pref == trans_pref,
            r.original_lang == client_lang,
            r.active_lang == client_lang,
            r.result is None,
    {
        let original_lang = client_lang.clone();
        Orchestrator {
            catalog,
            term_tokens,
            lang_pref,
            trans_pref,
            original_lang,
            active_lang: client_lang,
            title: String::new(),
            links: Vec::new(),
            result: Option::None,
            stage: Stage::Start,
        }
    }

    /// The client's active search language as the pipeline sees it.
    pub fn active_language(&self) -> (r: &String)
        ensures
            r@ == self.active_lang@,
    {
        &self.active_lang
    }

    /// First step: resolve the search language.  A matching preference skips
    /// the pick and goes straight to the search; otherwise a pick over the
    /// whole catalog is requested.
    pub fn start(&mut self) -> (a: Action)
        requires
            old(self).wf(),
            old(self).stage == Stage::Start,
        ensures
            final(self).same_setup(*old(self)),
            final(self).wf(),
            match old(self).lang_pref {
                Option::Some(p) => {
                    &&& has_tag(old(self).catalog@, p@) ==> (a matches Action::Search {
                        term,
                        lang,
                    } && term@ == joined_term_spec(old(self).term_tokens.deep_view()) && lang@
                        == p@ && final(self).stage == Stage::AwaitTitles
                        && final(self).active_lang@ == p@)
                    &&& !has_tag(old(self).catalog@, p@) ==> (a matches Action::Pick {
                        items,
                        warning,
                        prompt,
                    } && items.deep_view() == items_spec(old(self).catalog@, Option::None)
                        && (warning matches Option::Some(w) && w@ == warning_spec(p@)) && prompt@
                        == "Search language: "@ && final(self).stage == Stage::SearchLangPick
                        && final(self).active_lang == old(self).active_lang)
                },
                Option::None => (a matches Action::Pick { items, warning, prompt }
                    && items.deep_view() == items_spec(old(self).catalog@, Option::None)
                    && warning is None && prompt@ == "Search language: "@ && final(self).stage
                    == Stage::SearchLangPick && final(self).active_lang == old(
                    self,
                ).active_lang),
            },
    {
        let pref: Option<&str> = match &self.lang_pref {
            Option::Some(p) => Option::Some(p.as_str()),
            Option::None => Option::None,
        };
        let r = select_lang(&self.catalog, pref, "Search language: ");
        match r {
            Resolution::Chosen(tag) => {
                let term = join_term(&self.term_tokens);
                self.active_lang = tag.clone();
                self.stage = Stage::AwaitTitles;
                Action::Search { term, lang: tag }
            },
            Resolution::Pick { warning, items, prompt } => {
                self.stage = Stage::SearchLangPick;
                Action::Pick { items, warning, prompt }
            },
        }
    }

    /// Consume the search-language pick: a cancelled pick is fatal; a chosen
    /// item resolves to its parsed tag and the search is requested.
    pub fn on_search_lang_picked(&mut self, picked: Option<String>) -> (a: Action)
        requires
            old(self).wf(),
            old(self).stage == Stage::SearchLangPick,
        ensures
            final(self).same_setup(*old(self)),
            final(self).wf(),
            match picked {
                Option::None => (a matches Action::Fail { message } && message@
                    == "failed to select search language"@ && final(self).stage == Stage::Failed),
                Option::Some(s) => (a matches Action::Search { term, lang } && term@
                    == joined_term_spec(old(self).term_tokens.deep_view()) && lang@ == tag_spec(
                    s@,
                ) && final(self).stage == Stage::AwaitTitles && final(self).active_lang@
                    == tag_spec(s@)),
            },
    {
        match picked {
            Option::Some(s) => {
                let tag = parse_tag(s.as_str());
                let term = join_term(&self.term_tokens);
                self.active_lang = tag.clone();
                self.stage = Stage::AwaitTitles;
                Action::Search { term, lang: tag }
            },
            Option::None => {
                self.stage = Stage::Failed;
                Action::Fail { message: "failed to select search language".to_owned() }
            },
        }
    }

    /// Consume the search results: a pick over the returned titles is
    /// requested, with no preference involved.
    pub fn on_titles(&mut self, titles: Vec<String>) -> (a: Action)
        requires
            old(self).wf(),
            old(self).stage == Stage::AwaitTitles,
        ensures
            final(self).same_setup(*old(self)),
            final(self).wf(),
            final(self).active_lang == old(self).active_lang,
            final(self).stage == Stage::TitlePick,
            a matches Action::Pick { items, warning, prompt } && items == titles && warning
                is None && prompt@ == "Select term: "@,
    {
        self.stage = Stage::TitlePick;
        Action::Pick { items: titles, warning: Option::None, prompt: "Select term: ".to_owned() }
    }

    /// Consume the title pick: a cancelled pick is fatal; a chosen title has
    /// its langlinks fetched.
    pub fn on_title_picked(&mut self, picked: Option<String>) -> (a: Action)
        requires
            old(self).wf(),
            old(self).stage == Stage::TitlePick,
        ensures
            final(self).same_setup(*old(self)),
            final(self).wf(),
            final(self).active_lang == old(self).active_lang,
            match picked {
                Option::None => (a matches Action::Fail { message } && message@
                    == "failed to select page title"@ && final(self).stage == Stage::Failed),
                Option::Some(t) => (a matches Action::FetchLangLinks { title } && title == t
                    && final(self).stage == Stage::AwaitLangLinks && final(self).title == t),
            },
    {
        match picked {
            Option::Some(t) => {
                self.title = t.clone();
                self.stage = Stage::AwaitLangLinks;
                Action::FetchLangLinks { title: t }
            },
            Option::None => {
                self.stage = Stage::Failed;
                Action::Fail { message: "failed to select page title".to_owned() }
            },
        }
    }

    /// Consume the fetched langlinks.  The active search language is
    /// restored first, whatever follows.  An empty link set ends the
    /// pipeline with a diagnostic and no result.  Otherwise the catalog is
    /// narrowed to the linked languages and the target language is resolved:
    /// a matching preference finishes at once with that language's
    /// translated title, anything else requests an annotated pick.
    pub fn on_langlinks(&mut self, links: Vec<LangLink>) -> (a: Action)
        requires
            old(self).wf(),
            old(self).stage == Stage::AwaitLangLinks,
        ensures
            final(self).same_setup(*old(self)),
            final(self).wf(),
            final(self).active_lang@ == old(self).original_lang@,
            final(self).title == old(self).title,
            links@.len() == 0 ==> (a matches Action::NoTranslations { message } && message@
                == no_translations_spec(old(self).title@) && final(self).stage == Stage::Done
                && final(self).result is None),
            links@.len() > 0 ==> ({
                let targets = target_langs_spec(old(self).catalog@, links@);
                match old(self).trans_pref {
                    Option::Some(p) => {
                        &&& has_tag(targets, p@) ==> (a matches Action::Finish { result }
                            && result == found_title(links@, p@) && final(self).stage
                            == Stage::Done && final(self).result == found_title(links@, p@))
                        &&& !has_tag(targets, p@) ==> (a matches Action::Pick {
                            items,
                            warning,
                            prompt,
                        } && items.deep_view() == items_spec(
                            targets,
                            Option::Some(annotations_spec(targets, links@)),
                        ) && (warning matches Option::Some(w) && w@ == warning_spec(p@)) && prompt@
                            == "Translate to: "@ && final(self).stage == Stage::TargetPick
                            && final(self).links == links)
                    },
                    Option::None => (a matches Action::Pick { items, warning, prompt }
                        && items.deep_view() == items_spec(
                        targets,
                        Option::Some(annotations_spec(targets, links@)),
                    ) && warning is None && prompt@ == "Translate to: "@ && final(self).stage
                        == Stage::TargetPick && final(self).links == links),
                }
            }),
    {
        self.active_lang = self.original_lang.clone();
        if links.len() == 0 {
            let mut message = "No translations available for: ".to_owned();
            message.append(self.title.as_str());
            self.result = Option::None;
            self.stage = Stage::Done;
            return Action::NoTranslations { message };
        }
        let targets = filter_target_langs(&self.catalog, &links);
        let anns = build_annotations(&targets, &links);
        let pref: Option<&str> = match &self.trans_pref {
            Option::Some(p) => Option::Some(p.as_str()),
            Option::None => Option::None,
        };
        let r = select_lang_with(&targets, Option::Some(&anns), pref, "Translate to: ");
        match r {
            Resolution::Chosen(tag) => {
                proof {
                    lemma_target_tag_has_link(self.catalog@, links@, tag@);
                    lemma_find_link(links@, tag@);
                }
                match find_langlink_index(&links, &tag) {
                    Option::Some(i) => {
                        let result = match &links[i].title {
                            Option::Some(t) => Option::Some(t.clone()),
                            Option::None => Option::None,
                        };
                        let reported = match &links[i].title {
                            Option::Some(t) => Option::Some(t.clone()),
                            Option::None => Option::None,
                        };
                        self.result = result;
                        self.stage = Stage::Done;
                        Action::Finish { result: reported }
                    },
                    Option::None => {
                        // Unreachable: the chosen tag came from the narrowed
                        // catalog, so a langlink for it exists.
                        self.stage = Stage::Failed;
                        Action::Fail { message: "failed to select find langlink".to_owned() }
                    },
                }
            },
            Resolution::Pick { warning, items, prompt } => {
                self.links = links;
                self.stage = Stage::TargetPick;
                Action::Pick { items, warning, prompt }
            },
        }
    }

    /// Consume the target-language pick: a cancelled pick is fatal; a chosen
    /// item resolves to its parsed tag, whose langlink supplies the
    /// translated title.  A parsed tag with no langlink is fatal; that can
    /// only happen when the chosen item was not one of the offered ones.
    pub fn on_target_picked(&mut self, picked: Option<String>) -> (a: Action)
        requires
            old(self).wf(),
            old(self).stage == Stage::TargetPick,
        ensures
            final(self).same_setup(*old(self)),
            final(self).wf(),
            final(self).active_lang == old(self).active_lang,
            match picked {
                Option::None => (a matches Action::Fail { message } && message@
                    == "failed to select target language"@ && final(self).stage == Stage::Failed),
                Option::Some(s) => {
                    &&& (find_link_spec(old(self).links@, tag_spec(s@)) matches Option::Some(l)
                        ==> (a matches Action::Finish { result } && result == l.title
                        && final(self).stage == Stage::Done && final(self).result == l.title))
                    &&& (find_link_spec(old(self).links@, tag_spec(s@)) is None ==> (a
                        matches Action::Fail { message } && message@
                        == "failed to select find langlink"@ && final(self).stage
                        == Stage::Failed))
                },
            },
    {
        match picked {
            Option::Some(s) => {
                let tag = parse_tag(s.as_str());
                match find_langlink_index(&self.links, &tag) {
                    Option::Some(i) => {
                        let result = match &self.links[i].title {
                            Option::Some(t) => Option::Some(t.clone()),
                            Option::None => Option::None,
                        };
                        let reported = match &self.links[i].title {
                            Option::Some(t) => Option::Some(t.clone()),
                            Option::None => Option::None,
                        };
                        self.result = result;
                        self.stage = Stage::Done;
                        Action::Finish { result: reported }
                    },
                    Option::None => {
                        self.stage = Stage::Failed;
                        Action::Fail { message: "failed to select find langlink".to_owned() }
                    },
                }
            },
            Option::None => {
                self.stage = Stage::Failed;
                Action::Fail { message: "failed to select target language".to_owned() }
            },
        }
    }
}

/// A pipeline that has finished leaves the client's active search language
/// exactly as it was when the pipeline was created.
pub proof fn lemma_done_restores_language(o: Orchestrator)
    requires
        o.wf(),
        o.stage == Stage::Done,
    ensures
        o.active_lang@ == o.original_lang@,
{
}

} // verus!
