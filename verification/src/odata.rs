//! OData query options commonly used by Redfish implementations.
use vstd::prelude::*;
use crate::text::{decimal_string, decimal_text};
use crate::error::{plain_error, Error, ErrorKind};
use crate::url::{
    keeps_authority, pair_chars, pair_views, url_append_pairs, url_append_pairs_spec,
    url_query_pairs_spec, HttpUrl, UrlView,
};

verus! {

/// OData query options (`$select`, `$expand`, `$top`, `$skip`, `$filter`, `$orderby`)
/// plus any vendor-specific pairs, all string-based.
///
/// Values are URL-encoded when the query is applied to a URL.
#[derive(Debug, Clone)]
pub struct ODataQuery {
    select: Option<String>,
    expand: Option<String>,
    top: Option<u64>,
    skip: Option<u64>,
    filter: Option<String>,
    orderby: Option<String>,
    extra: Vec<(String, String)>,
}

/// The abstract content of an [`ODataQuery`].
pub struct ODataQueryView {
    pub select: Option<Seq<char>>,
    pub expand: Option<Seq<char>>,
    pub top: Option<u64>,
    pub skip: Option<u64>,
    pub filter: Option<Seq<char>>,
    pub orderby: Option<Seq<char>>,
    pub extra: Seq<(Seq<char>, Seq<char>)>,
}

/// The text of an optional `String`.
pub open spec fn opt_chars(o: Option<String>) -> Option<Seq<char>> {
    match o {
        Some(s) => Some(s@),
        None => None,
    }
}

impl View for ODataQuery {
    type V = ODataQueryView;

    closed spec fn view(&self) -> ODataQueryView {
        ODataQueryView {
            select: opt_chars(self.select),
            expand: opt_chars(self.expand),
            top: self.top,
            skip: self.skip,
            filter: opt_chars(self.filter),
            orderby: opt_chars(self.orderby),
            extra: pair_views(self.extra@),
        }
    }
}

/// The empty query.
pub open spec fn empty_query() -> ODataQueryView {
    ODataQueryView {
        select: None,
        expand: None,
        top: None,
        skip: None,
        filter: None,
        orderby: None,
        extra: Seq::empty(),
    }
}

/// One pair where the option is set, none where it is not.
pub open spec fn opt_pair(key: Seq<char>, v: Option<Seq<char>>) -> Seq<(Seq<char>, Seq<char>)> {
    match v {
        Some(x) => seq![(key, x)],
        None => Seq::empty(),
    }
}

/// The decimal text of an optional number.
pub open spec fn opt_num(v: Option<u64>) -> Option<Seq<char>> {
    match v {
        Some(n) => Some(decimal_text(n as nat)),
        None => None,
    }
}

/// The query's key/value pairs in the order they are applied: `$select`, `$expand`,
/// `$top`, `$skip`, `$filter`, `$orderby` where set, then the extra pairs as added.
pub open spec fn pairs_spec(q: ODataQueryView) -> Seq<(Seq<char>, Seq<char>)> {
    opt_pair("$select"@, q.select) + opt_pair("$expand"@, q.expand) + opt_pair(
        "$top"@,
        opt_num(q.top),
    ) + opt_pair("$skip"@, opt_num(q.skip)) + opt_pair("$filter"@, q.filter) + opt_pair(
        "$orderby"@,
        q.orderby,
    ) + q.extra
}

fn push_opt(out: &mut Vec<(String, String)>, key: &str, v: &Option<String>)
    ensures
        pair_views(final(out)@) == pair_views(old(out)@) + opt_pair(key@, opt_chars(*v)),
{
    let ghost before = pair_views(out@);
    if let Some(x) = v {
        out.push((key.to_string(), x.clone()));
    }
    assert(pair_views(out@) =~= before + opt_pair(key@, opt_chars(*v)));
}

fn push_num(out: &mut Vec<(String, String)>, key: &str, v: Option<u64>)
    ensures
        pair_views(final(out)@) == pair_views(old(out)@) + opt_pair(key@, opt_num(v)),
{
    let ghost before = pair_views(out@);
    if let Some(n) = v {
        out.push((key.to_string(), decimal_string(n)));
    }
    assert(pair_views(out@) =~= before + opt_pair(key@, opt_num(v)));
}

impl ODataQuery {
    /// Create an empty query.
    pub fn new() -> (r: ODataQuery)
        ensures
            r@ == empty_query(),
            pairs_spec(r@).len() == 0,
    {
        let r = ODataQuery {
            select: None,
            expand: None,
            top: None,
            skip: None,
            filter: None,
            orderby: None,
            extra: Vec::new(),
        };
        assert(r@.extra =~= Seq::<(Seq<char>, Seq<char>)>::empty());
        r
    }

    /// Set `$select`.
    pub fn select(self, value: String) -> (r: ODataQuery)
        ensures
            r@ == (ODataQueryView { select: Some(value@), ..self@ }),
    {
        ODataQuery { select: Some(value), ..self }
    }

    /// Set `$expand`.
    pub fn expand(self, value: String) -> (r: ODataQuery)
        ensures
            r@ == (ODataQueryView { expand: Some(value@), ..self@ }),
    {
        ODataQuery { expand: Some(value), ..self }
    }

    /// Set `$top`.
    pub fn top(self, value: u64) -> (r: ODataQuery)
        ensures
            r@ == (ODataQueryView { top: Some(value), ..self@ }),
    {
        ODataQuery { top: Some(value), ..self }
    }

    /// Set `$skip`.
    pub fn skip(self, value: u64) -> (r: ODataQuery)
        ensures
            r@ == (ODataQueryView { skip: Some(value), ..self@ }),
    {
        ODataQuery { skip: Some(value), ..self }
    }

    /// Set `$filter`.
    pub fn filter(self, value: String) -> (r: ODataQuery)
        ensures
            r@ == (ODataQueryView { filter: Some(value@), ..self@ }),
    {
        ODataQuery { filter: Some(value), ..self }
    }

    /// Set `$orderby`.
    pub fn orderby(self, value: String) -> (r: ODataQuery)
        ensures
            r@ == (ODataQueryView { orderby: Some(value@), ..self@ }),
    {
        ODataQuery { orderby: Some(value), ..self }
    }

    /// Add an arbitrary query pair (for OEM/vendor query extensions).
    pub fn with_pair(self, key: String, value: String) -> (r: ODataQuery)
        ensures
            r@ == (ODataQueryView { extra: self@.extra.push((key@, value@)), ..self@ }),
    {
        let mut q = self;
        let ghost before = pair_views(q.extra@);
        q.extra.push((key, value));
        assert(pair_views(q.extra@) =~= before.push((key@, value@)));
        q
    }

    /// Return query key/value pairs in the order they will be applied.
    pub fn pairs(&self) -> (r: Vec<(String, String)>)
        ensures
            pair_views(r@) == pairs_spec(self@),
    {
        let mut out: Vec<(String, String)> = Vec::new();
        proof {
            reveal_strlit("$select");
            reveal_strlit("$expand");
            reveal_strlit("$top");
            reveal_strlit("$skip");
            reveal_strlit("$filter");
            reveal_strlit("$orderby");
        }
        assert(pair_views(out@) =~= Seq::<(Seq<char>, Seq<char>)>::empty());
        push_opt(&mut out, "$select", &self.select);
        push_opt(&mut out, "$expand", &self.expand);
        push_num(&mut out, "$top", self.top);
        push_num(&mut out, "$skip", self.skip);
        push_opt(&mut out, "$filter", &self.filter);
        push_opt(&mut out, "$orderby", &self.orderby);
        let mut i: usize = 0;
        let ghost base = pair_views(out@);
        while i < self.extra.len()
            invariant
                i <= self.extra.len(),
                pair_views(out@) == base + pair_views(self.extra@).take(i as int),
            decreases self.extra.len() - i,
        {
            let ghost pre = out@;
            let k = self.extra[i].0.clone();
            let v = self.extra[i].1.clone();
            out.push((k, v));
            assert(pair_views(out@) =~= pair_views(pre).push((self.extra@[i as int].0@, self.extra@[i as int].1@)));
            assert(pair_views(self.extra@).take(i + 1) =~= pair_views(self.extra@).take(i as int).push(pair_views(self.extra@)[i as int]));
            assert(pair_views(out@) =~= base + pair_views(self.extra@).take(i + 1));
            i = i + 1;
        }
        assert(pair_views(self.extra@).take(self.extra.len() as int) =~= pair_views(self.extra@));
        assert(pair_views(out@) =~= pairs_spec(self@));
        out
    }

    /// Apply this query to a URL: its pairs are appended, URL-encoded, to the URL's query
    /// (an existing query string is kept). The scheme, credentials, host, port, path and
    /// fragment stay as they were, and the URL's query pairs become its former ones followed
    /// by the query's; an empty query leaves them as they were.
    pub fn apply_to_url(&self, url: HttpUrl) -> (r: HttpUrl)
        requires
            4 * url@.href.len() + 12 * pair_chars(pairs_spec(self@)) + 12 * pairs_spec(self@).len()
                + 64 < 0x1_0000_0000,
        ensures
            r@ == url_append_pairs_spec(url@, pairs_spec(self@)),
            applied(r@, url@, self@),
    {
        let p = self.pairs();
        let r = url_append_pairs(&url, &p);
        assert(url_query_pairs_spec(url@) + Seq::<(Seq<char>, Seq<char>)>::empty() =~= url_query_pairs_spec(url@));
        r
    }
}

/// What applying query `q` to URL `u` keeps and gives: `r` has the scheme, credentials,
/// host, port, path and fragment of `u`, and as query pairs those of `u` followed by the
/// pairs of `q` (so those of `u` alone where `q` has none).
pub open spec fn applied(r: UrlView, u: UrlView, q: ODataQueryView) -> bool {
    &&& keeps_authority(r, u)
    &&& r.path == u.path
    &&& r.fragment == u.fragment
    &&& url_query_pairs_spec(r) == url_query_pairs_spec(u) + pairs_spec(q)
    &&& pairs_spec(q).len() == 0 ==> url_query_pairs_spec(r) == url_query_pairs_spec(u)
}

/// Applying the empty query (that of [`ODataQuery::new`]) leaves a URL's query pairs as
/// they were.
pub proof fn lemma_empty_query_keeps_pairs(r: UrlView, u: UrlView)
    requires
        applied(r, u, empty_query()),
    ensures
        url_query_pairs_spec(r) == url_query_pairs_spec(u),
{
    assert(pairs_spec(empty_query()).len() == 0);
}

/// Whether the query's pairs can be appended to the URL within the `url` crate's limits.
pub open spec fn query_fits(url: UrlView, q: ODataQueryView) -> bool {
    4 * url.href.len() + 12 * pair_chars(pairs_spec(q)) + 12 * pairs_spec(q).len() + 64
        < 0x1_0000_0000
}

proof fn lemma_pair_chars_prefix(p: Seq<(Seq<char>, Seq<char>)>, i: int)
    requires
        0 <= i <= p.len(),
    ensures
        0 <= pair_chars(p.take(i)) <= pair_chars(p),
    decreases p.len() - i,
{
    if i < p.len() {
        lemma_pair_chars_prefix(p, i + 1);
        assert(p.take(i + 1).drop_last() =~= p.take(i));
        lemma_pair_chars_nonneg(p.take(i));
    } else {
        assert(p.take(i) =~= p);
        lemma_pair_chars_nonneg(p);
    }
}

proof fn lemma_pair_chars_nonneg(p: Seq<(Seq<char>, Seq<char>)>)
    ensures
        pair_chars(p) >= 0,
    decreases p.len(),
{
    if p.len() > 0 {
        lemma_pair_chars_nonneg(p.drop_last());
    }
}

impl ODataQuery {
    /// Applies the query to a URL (see [`ODataQuery::apply_to_url`]); a result too long for
    /// the `url` crate is refused with `URL is too long`.
    pub fn try_apply_to_url(&self, url: HttpUrl) -> (r: Result<HttpUrl, Error>)
        ensures
            query_fits(url@, self@) ==> (r matches Ok(u) && u@ == url_append_pairs_spec(
                url@,
                pairs_spec(self@),
            ) && applied(u@, url@, self@)),
            !query_fits(url@, self@) ==> (r matches Err(e) && e@ == plain_error(
                ErrorKind::InvalidConfig,
                "URL is too long"@,
            )),
    {
        let p = self.pairs();
        let ghost pv = pair_views(p@);
        let limit: u64 = 0x1_0000_0000;
        let href_len = url.as_str().unicode_len();
        if href_len as u64 >= 0x3FFF_FFF0 {
            proof {
                lemma_pair_chars_nonneg(pv);
            }
            return Err(Error::invalid_config("URL is too long".to_owned()));
        }
        let mut total: u64 = 4 * (href_len as u64) + 64;
        let mut i: usize = 0;
        assert(pv.take(0) =~= Seq::<(Seq<char>, Seq<char>)>::empty());
        while i < p.len()
            invariant
                i <= p@.len(),
                pv == pair_views(p@),
                pv == pairs_spec(self@),
                href_len == url@.href.len(),
                total == 4 * url@.href.len() + 64 + 12 * pair_chars(pv.take(i as int)) + 12 * i,
                total < limit,
                limit == 0x1_0000_0000,
            decreases p.len() - i,
        {
            let k = p[i].0.as_str().unicode_len() as u64;
            let v = p[i].1.as_str().unicode_len() as u64;
            proof {
                assert(pv.take(i + 1).drop_last() =~= pv.take(i as int));
                assert(pv.take(i + 1).last() == pv[i as int]);
                assert(pv[i as int].0.len() == k && pv[i as int].1.len() == v);
                lemma_pair_chars_prefix(pv, i + 1);
                lemma_pair_chars_nonneg(pv.take(i as int));
            }
            let too_long = if k >= limit || v >= limit {
                true
            } else {
                12 * (k + v + 1) >= limit - total
            };
            if too_long {
                assert(12 * pair_chars(pv) + 12 * pv.len() >= 12 * pair_chars(pv.take(i + 1)) + 12 * (
                i + 1));
                return Err(Error::invalid_config("URL is too long".to_owned()));
            }
            total = total + 12 * (k + v + 1);
            i = i + 1;
        }
        assert(pv.take(p@.len() as int) =~= pv);
        Ok(self.apply_to_url(url))
    }
}

impl Default for ODataQuery {
    fn default() -> (r: ODataQuery)
        ensures
            r@ == empty_query(),
    {
        ODataQuery::new()
    }
}

} // verus!
