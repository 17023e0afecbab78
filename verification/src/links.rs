//! Discovered-endpoint model: classification of href/action/src values as
//! same-origin (inner) or cross-origin (outer), parsing of one response body
//! into a [`CrawlLink`], order-preserving combination of results, and
//! extraction of candidate paths from a robots.txt body.

use vstd::prelude::*;
use vstd::string::StrSliceExecFns;
use vstd::string::StringExecFns;
use crate::strutil::{starts_with, has_prefix, push_char};

verus! {

broadcast use vstd::string::group_string_axioms;

/// The endpoints discovered by parsing response bodies: same-origin paths in
/// `inner`, cross-origin URLs in `outer`, each in discovery order with
/// duplicates retained.
#[derive(Debug)]
pub struct CrawlLink {
    pub inner: Vec<String>,
    pub outer: Vec<String>,
}

impl CrawlLink {
    /// The inner endpoints as character sequences.
    pub open spec fn inner_view(self) -> Seq<Seq<char>> {
        self.inner.deep_view()
    }

    /// The outer endpoints as character sequences.
    pub open spec fn outer_view(self) -> Seq<Seq<char>> {
        self.outer.deep_view()
    }
}

/// A link value is same-origin when it starts with `/`, `./` or `../`, or
/// carries no `http://`/`https://` scheme prefix.
pub open spec fn is_internal_spec(v: Seq<char>) -> bool {
    starts_with(v, "/"@) || starts_with(v, "./"@) || starts_with(v, "../"@) || !(starts_with(
        v,
        "http://"@,
    ) || starts_with(v, "https://"@))
}

/// Classifies one href/action/src value: true exactly when it is same-origin.
pub fn is_internal(link: &str) -> (r: bool)
    ensures
        r == is_internal_spec(link@),
{
    has_prefix(link, "/") || has_prefix(link, "./") || has_prefix(link, "../") || !(has_prefix(
        link,
        "http://",
    ) || has_prefix(link, "https://"))
}

/// The values of attribute `attr` on the elements of an HTML body matching
/// the selector `tag`, in document order; a function of the three texts
/// alone, and empty when `tag` is no valid selector.
pub uninterp spec fn selected_attr_values(
    body: Seq<char>,
    tag: Seq<char>,
    attr: Seq<char>,
) -> Seq<Seq<char>>;

/// Relies on scraper's `Html::parse_document`, `Selector::parse`,
/// `Html::select` and `Element::attr` to select the values named by
/// [`selected_attr_values`].
#[verifier::external_body]
fn select_attr_values(body: &str, tag: &str, attr: &str) -> (r: Vec<String>)
    ensures
        r.deep_view() == selected_attr_values(body@, tag@, attr@),
{
    let mut vals = Vec::new();
    if let Ok(sel) = scraper::Selector::parse(tag) {
        let doc = scraper::Html::parse_document(body);
        for el in doc.select(&sel) {
            if let Some(v) = el.value().attr(attr) {
                vals.push(v.to_string());
            }
        }
    }
    vals
}

/// The candidate link values of one HTML body: the href values of its `a`
/// elements, then of its `link` elements, then its form actions, then its
/// script sources.
pub open spec fn link_values_of(body: Seq<char>) -> Seq<Seq<char>> {
    selected_attr_values(body, "a"@, "href"@) + selected_attr_values(body, "link"@, "href"@)
        + selected_attr_values(body, "form"@, "action"@) + selected_attr_values(
        body,
        "script"@,
        "src"@,
    )
}

/// Gathers the four attribute groups of [`link_values_of`], in that order.
fn extract_link_values(body: &str) -> (r: Vec<String>)
    ensures
        r.deep_view() == link_values_of(body@),
{
    let mut vals = select_attr_values(body, "a", "href");
    let mut from_links = select_attr_values(body, "link", "href");
    let mut from_forms = select_attr_values(body, "form", "action");
    let mut from_scripts = select_attr_values(body, "script", "src");
    vals.append(&mut from_links);
    vals.append(&mut from_forms);
    vals.append(&mut from_scripts);
    assert(vals.deep_view() =~= link_values_of(body@));
    vals
}

/// The same-origin members of `vals`, in order.
pub open spec fn classified_inner(vals: Seq<Seq<char>>) -> Seq<Seq<char>> {
    vals.filter(|v: Seq<char>| is_internal_spec(v))
}

/// The cross-origin members of `vals`, in order.
pub open spec fn classified_outer(vals: Seq<Seq<char>>) -> Seq<Seq<char>> {
    vals.filter(|v: Seq<char>| !is_internal_spec(v))
}

/// What parsing a body yields on the inner side: the sentinel single empty
/// entry for an empty body, else the same-origin link values.
pub open spec fn parsed_inner(body: Seq<char>) -> Seq<Seq<char>> {
    if body.len() == 0 {
        seq![Seq::<char>::empty()]
    } else {
        classified_inner(link_values_of(body))
    }
}

/// What parsing a body yields on the outer side.
pub open spec fn parsed_outer(body: Seq<char>) -> Seq<Seq<char>> {
    if body.len() == 0 {
        seq![Seq::<char>::empty()]
    } else {
        classified_outer(link_values_of(body))
    }
}

/// Parses one response body into discovered endpoints. An empty body yields
/// the sentinel result of exactly one empty inner entry and one empty outer
/// entry, never an empty pair of sequences; any other body yields its link
/// values, each classified as inner or outer.
pub fn parse(body: &String) -> (r: CrawlLink)
    ensures
        r.inner_view() == parsed_inner(body@),
        r.outer_view() == parsed_outer(body@),
{
    if body.as_str().is_empty() {
        let mut inner: Vec<String> = Vec::new();
        inner.push(String::new());
        let mut outer: Vec<String> = Vec::new();
        outer.push(String::new());
        let r = CrawlLink { inner, outer };
        assert(r.inner_view() =~= seq![Seq::<char>::empty()]);
        assert(r.outer_view() =~= seq![Seq::<char>::empty()]);
        r
    } else {
        let vals = extract_link_values(body.as_str());
        let ghost gvals = vals.deep_view();
        let mut inner: Vec<String> = Vec::new();
        let mut outer: Vec<String> = Vec::new();
        let n = vals.len();
        let mut i: usize = 0;
        while i < n
            invariant
                n == vals.len(),
                gvals == vals.deep_view(),
                i <= n,
                inner.deep_view() == classified_inner(gvals.take(i as int)),
                outer.deep_view() == classified_outer(gvals.take(i as int)),
            decreases n - i,
        {
            let v = &vals[i];
            let ghost prev_inner = inner.deep_view();
            let ghost prev_outer = outer.deep_view();
            proof {
                reveal(Seq::filter);
                assert(gvals.take(i + 1).drop_last() =~= gvals.take(i as int));
                assert(gvals.take(i + 1).last() == gvals[i as int]);
            }
            if is_internal(v.as_str()) {
                inner.push(v.clone());
                assert(inner.deep_view() =~= prev_inner.push(gvals[i as int]));
            } else {
                outer.push(v.clone());
                assert(outer.deep_view() =~= prev_outer.push(gvals[i as int]));
            }
            i += 1;
        }
        assert(gvals.take(n as int) =~= gvals);
        CrawlLink { inner, outer }
    }
}

/// The inner sequences of a list of results, concatenated in order.
pub open spec fn combined_inner(ls: Seq<CrawlLink>) -> Seq<Seq<char>> {
    ls.map_values(|l: CrawlLink| l.inner_view()).flatten()
}

/// The outer sequences of a list of results, concatenated in order.
pub open spec fn combined_outer(ls: Seq<CrawlLink>) -> Seq<Seq<char>> {
    ls.map_values(|l: CrawlLink| l.outer_view()).flatten()
}

impl CrawlLink {
    /// Merges many results into one by concatenating their inner and their
    /// outer sequences, keeping order and duplicates.
    pub fn combine(links: Vec<CrawlLink>) -> (r: CrawlLink)
        ensures
            r.inner_view() == combined_inner(links@),
            r.outer_view() == combined_outer(links@),
    {
        let ghost glinks = links@;
        let mut links = links;
        let mut combined_in: Vec<String> = Vec::new();
        let mut combined_out: Vec<String> = Vec::new();
        while links.len() > 0
            invariant
                combined_in.deep_view() + combined_inner(links@) == combined_inner(glinks),
                combined_out.deep_view() + combined_outer(links@) == combined_outer(glinks),
            decreases links.len(),
        {
            let ghost pre = links@;
            let mut link = links.remove(0);
            proof {
                assert(pre.map_values(|l: CrawlLink| l.inner_view()).first() == pre[0].inner_view());
                assert(pre.map_values(|l: CrawlLink| l.inner_view()).drop_first()
                    =~= pre.drop_first().map_values(|l: CrawlLink| l.inner_view()));
                assert(pre.map_values(|l: CrawlLink| l.outer_view()).drop_first()
                    =~= pre.drop_first().map_values(|l: CrawlLink| l.outer_view()));
                assert(links@ =~= pre.drop_first());
            }
            let ghost pre_in = combined_in.deep_view();
            let ghost pre_out = combined_out.deep_view();
            combined_in.append(&mut link.inner);
            combined_out.append(&mut link.outer);
            assert(combined_in.deep_view() =~= pre_in + pre[0].inner_view());
            assert(combined_out.deep_view() =~= pre_out + pre[0].outer_view());
        }
        assert(combined_inner(links@) =~= Seq::<Seq<char>>::empty());
        assert(combined_outer(links@) =~= Seq::<Seq<char>>::empty());
        let r = CrawlLink { inner: combined_in, outer: combined_out };
        assert(r.inner_view() =~= r.inner.deep_view() + Seq::<Seq<char>>::empty());
        assert(r.outer_view() =~= r.outer.deep_view() + Seq::<Seq<char>>::empty());
        r
    }

    /// Joins every inner endpoint onto the base URL; the sentinel result (a
    /// single empty entry) stays a single empty entry.
    pub fn scrape_all(&self, url: &str) -> (r: Vec<String>)
        ensures
            self.inner_view() == seq![Seq::<char>::empty()] ==> r.deep_view() == seq![
                Seq::<char>::empty(),
            ],
            self.inner_view() != seq![Seq::<char>::empty()] ==> r.deep_view()
                == self.inner_view().map_values(|l: Seq<char>| url@ + l),
    {
        let is_sentinel = self.inner.len() == 1 && self.inner[0].as_str().is_empty();
        proof {
            if is_sentinel {
                assert(self.inner_view() =~~= seq![Seq::<char>::empty()]);
            }
            if !is_sentinel && self.inner_view() == seq![Seq::<char>::empty()] {
                assert(self.inner_view().len() == seq![Seq::<char>::empty()].len());
                assert(self.inner_view().len() == self.inner@.len());
                assert(self.inner@[0]@ == self.inner_view()[0]);
                assert(false);
            }
        }
        if is_sentinel {
            let mut r: Vec<String> = Vec::new();
            r.push(String::new());
            assert(r.deep_view() =~= seq![Seq::<char>::empty()]);
            r
        } else {
            let mut r: Vec<String> = Vec::new();
            let n = self.inner.len();
            let mut i: usize = 0;
            while i < n
                invariant
                    n == self.inner.len(),
                    i <= n,
                    r.deep_view() == self.inner_view().take(i as int).map_values(
                        |l: Seq<char>| url@ + l,
                    ),
                decreases n - i,
            {
                let ghost pre = r.deep_view();
                let mut joined = String::new();
                joined.append(url);
                joined.append(self.inner[i].as_str());
                assert(joined@ =~= url@ + self.inner_view()[i as int]);
                r.push(joined);
                assert(r.deep_view() =~= pre.push(url@ + self.inner_view()[i as int]));
                assert(self.inner_view().take(i + 1) =~= self.inner_view().take(i as int).push(
                    self.inner_view()[i as int],
                ));
                assert(self.inner_view().take(i + 1).map_values(|l: Seq<char>| url@ + l)
                    =~= self.inner_view().take(i as int).map_values(|l: Seq<char>| url@ + l).push(
                    url@ + self.inner_view()[i as int],
                ));
                i += 1;
            }
            assert(self.inner_view().take(n as int) =~= self.inner_view());
            r
        }
    }
}

/// Grouping does not matter when combining: three results combined in one
/// call give the plain concatenation of their inner sequences and of their
/// outer sequences, and combining the first two and then the third reads the
/// same.
pub proof fn lemma_combine_is_concat(a: CrawlLink, b: CrawlLink, c: CrawlLink)
    ensures
        combined_inner(seq![a, b, c]) == a.inner_view() + b.inner_view() + c.inner_view(),
        combined_outer(seq![a, b, c]) == a.outer_view() + b.outer_view() + c.outer_view(),
        combined_inner(seq![a, b]) + c.inner_view() == combined_inner(seq![a, b, c]),
        a.inner_view() + combined_inner(seq![b, c]) == combined_inner(seq![a, b, c]),
{
    broadcast use Seq::group_seq_flatten;

    let m3i = seq![a, b, c].map_values(|l: CrawlLink| l.inner_view());
    let m3o = seq![a, b, c].map_values(|l: CrawlLink| l.outer_view());
    let m2i = seq![a, b].map_values(|l: CrawlLink| l.inner_view());
    let m2o = seq![a, b].map_values(|l: CrawlLink| l.outer_view());
    let m2i2 = seq![b, c].map_values(|l: CrawlLink| l.inner_view());
    assert(m3i =~= seq![a.inner_view()].push(b.inner_view()).push(c.inner_view()));
    assert(m3o =~= seq![a.outer_view()].push(b.outer_view()).push(c.outer_view()));
    assert(m2i =~= seq![a.inner_view()].push(b.inner_view()));
    assert(m2o =~= seq![a.outer_view()].push(b.outer_view()));
    assert(m2i2 =~= seq![b.inner_view()].push(c.inner_view()));
    assert(seq![a.inner_view()].len() == 1);
    assert(seq![a.outer_view()].len() == 1);
    assert(seq![b.inner_view()].len() == 1);
    assert(seq![a.inner_view()].flatten() == a.inner_view());
    assert(seq![a.outer_view()].flatten() == a.outer_view());
    assert(seq![b.inner_view()].flatten() == b.inner_view());
    assert(m3i.flatten() =~= a.inner_view() + b.inner_view() + c.inner_view());
    assert(m3o.flatten() =~= a.outer_view() + b.outer_view() + c.outer_view());
    assert(m2i.flatten() =~= a.inner_view() + b.inner_view());
    assert(m2o.flatten() =~= a.outer_view() + b.outer_view());
    assert(m2i2.flatten() =~= b.inner_view() + c.inner_view());
}

/// One step of the robots.txt scan: the candidate paths found from position
/// `i` on, with `cur` the partial token begun by an earlier `/`.
pub open spec fn robots_scan(s: Seq<char>, i: int, cur: Option<Seq<char>>) -> Seq<Seq<char>>
    recommends
        0 <= i <= s.len(),
    decreases s.len() - i,
{
    if i < 0 || i >= s.len() {
        match cur {
            Some(tok) => seq![tok],
            None => Seq::empty(),
        }
    } else {
        let c = s[i];
        match cur {
            Some(tok) => {
                if c == ' ' || c == '\n' {
                    seq![tok] + robots_scan(s, i + 1, None)
                } else {
                    robots_scan(s, i + 1, Some(tok.push(c)))
                }
            },
            None => {
                if c == '/' {
                    robots_scan(s, i + 1, Some(seq!['/']))
                } else {
                    robots_scan(s, i + 1, None)
                }
            },
        }
    }
}

/// The path-like tokens of a robots.txt body: each run starting at a `/` and
/// extending up to the next space or newline.
pub open spec fn robots_paths(s: Seq<char>) -> Seq<Seq<char>> {
    robots_scan(s, 0, None)
}

/// Extracts every path-like token from a robots.txt body: a token starts at a
/// `/` not already inside a token and runs until a space or newline.
pub fn extract_robots_paths(body: &str) -> (r: Vec<String>)
    ensures
        r.deep_view() == robots_paths(body@),
{
    let l = body.unicode_len();
    let mut r: Vec<String> = Vec::new();
    let mut cur: Option<String> = None;
    let mut i: usize = 0;
    while i < l
        invariant
            l == body@.len(),
            i <= l,
            r.deep_view() + robots_scan(
                body@,
                i as int,
                match cur {
                    Some(t) => Some(t@),
                    None => None,
                },
            ) == robots_paths(body@),
        decreases l - i,
    {
        let c = body.get_char(i);
        let ghost pre = r.deep_view();
        match cur {
            Some(mut tok) => {
                if c == ' ' || c == '\n' {
                    r.push(tok);
                    cur = None;
                    assert(r.deep_view() =~= pre.push(r.deep_view().last()));
                } else {
                    push_char(&mut tok, c);
                    cur = Some(tok);
                }
            },
            None => {
                if c == '/' {
                    let mut tok = String::new();
                    push_char(&mut tok, '/');
                    assert(tok@ =~= seq!['/']);
                    cur = Some(tok);
                } else {
                    cur = None;
                }
            },
        }
        i += 1;
    }
    match cur {
        Some(tok) => {
            let ghost pre = r.deep_view();
            r.push(tok);
            assert(r.deep_view() =~= pre + seq![r.deep_view().last()]);
        },
        None => {
            assert(r.deep_view() + Seq::<Seq<char>>::empty() =~= r.deep_view());
        },
    }
    r
}

} // verus!
