use vstd::prelude::*;

use crate::error::GalleryError;

verus! {

/// The serialization of the URL that `url::Url::parse` makes of `s`, or
/// `None` where it refuses `s`.
pub uninterp spec fn parsed_url(s: Seq<char>) -> Option<Seq<char>>;

/// The serialization of the URL that `url::Url::join` makes of `raw` against
/// the URL parsed from `base`, or `None` where either step refuses its input.
pub uninterp spec fn joined_url(base: Seq<char>, raw: Seq<char>) -> Option<Seq<char>>;

/// The view of an optional string.
pub open spec fn opt_text(o: Option<String>) -> Option<Seq<char>> {
    match o {
        Some(s) => Some(s@),
        None => None,
    }
}

/// Relies on `url::Url::parse`: whether `s` is a well-formed absolute URL, and
/// its serialization when it is.
#[verifier::external_body]
fn url_parse(s: &str) -> (r: Option<String>)
    ensures
        opt_text(r) == parsed_url(s@),
{
    url::Url::parse(s).ok().map(String::from)
}

/// Relies on `url::Url::join`: relative-reference resolution of `raw` against
/// `base` (first parsed with `url::Url::parse`), serialized.
#[verifier::external_body]
fn url_join(base: &str, raw: &str) -> (r: Option<String>)
    ensures
        opt_text(r) == joined_url(base@, raw@),
{
    url::Url::parse(base).and_then(|b| b.join(raw)).ok().map(String::from)
}

/// The absolute URL that `raw` names on the page at `base`: `raw` itself when it
/// is already absolute, else `raw` joined against `base`.
pub open spec fn resolved_url(raw: Seq<char>, base: Seq<char>) -> Option<Seq<char>> {
    match parsed_url(raw) {
        Some(u) => Some(u),
        None => joined_url(base, raw),
    }
}

/// The resolved URLs of `refs` in order, those that do not resolve left out.
pub open spec fn resolved_urls(refs: Seq<Seq<char>>, base: Seq<char>) -> Seq<Seq<char>>
    decreases refs.len(),
{
    if refs.len() == 0 {
        Seq::empty()
    } else {
        let prev = resolved_urls(refs.drop_last(), base);
        match resolved_url(refs.last(), base) {
            Some(u) => prev.push(u),
            None => prev,
        }
    }
}

/// The views of a list of strings.
pub open spec fn texts(v: Seq<String>) -> Seq<Seq<char>> {
    v.map_values(|s: String| s@)
}

/// Checks that `page_url` is a well-formed absolute URL, against which image
/// references can be resolved.
pub fn validate_base(page_url: &str) -> (r: Result<(), GalleryError>)
    ensures
        r is Ok <==> parsed_url(page_url@) is Some,
        r is Err ==> r == Err::<(), GalleryError>(GalleryError::ResolutionFailure),
{
    match url_parse(page_url) {
        Some(_) => Ok(()),
        None => Err(GalleryError::ResolutionFailure),
    }
}

/// Resolves one image reference against the URL of the page it was found on.
pub fn resolve_reference(raw: &str, base: &str) -> (r: Option<String>)
    ensures
        opt_text(r) == resolved_url(raw@, base@),
{
    match url_parse(raw) {
        Some(u) => Some(u),
        None => url_join(base, raw),
    }
}

/// Resolves every reference against `base`, in order; a reference that does not
/// resolve is dropped and does not stop the others.
pub fn resolve_all(refs: &Vec<String>, base: &str) -> (r: Vec<String>)
    ensures
        texts(r@) == resolved_urls(texts(refs@), base@),
{
    let mut out: Vec<String> = Vec::new();
    let mut i: usize = 0;
    while i < refs.len()
        invariant
            i <= refs.len(),
            texts(out@) == resolved_urls(texts(refs@.subrange(0, i as int)), base@),
        decreases refs.len() - i,
    {
        let ghost before = out@;
        let resolved = resolve_reference(refs[i].as_str(), base);
        proof {
            let t = texts(refs@.subrange(0, i + 1));
            assert(t.drop_last() =~= texts(refs@.subrange(0, i as int)));
            assert(t.last() == refs@[i as int]@);
        }
        match resolved {
            Some(u) => {
                out.push(u);
                assert(texts(out@) =~= texts(before).push(out@.last()@));
            },
            None => {},
        }
        i = i + 1;
    }
    assert(refs@.subrange(0, refs.len() as int) =~= refs@);
    out
}


proof fn lemma_resolved_urls_concat(a: Seq<Seq<char>>, b: Seq<Seq<char>>, base: Seq<char>)
    ensures
        resolved_urls(a + b, base) == resolved_urls(a, base) + resolved_urls(b, base),
    decreases b.len(),
{
    if b.len() == 0 {
        assert(a + b =~= a);
        assert(resolved_urls(a, base) + resolved_urls(b, base) =~= resolved_urls(a, base));
    } else {
        lemma_resolved_urls_concat(a, b.drop_last(), base);
        assert((a + b).drop_last() =~= a + b.drop_last());
        assert((a + b).last() == b.last());
        match resolved_url(b.last(), base) {
            Some(u) => {
                assert(resolved_urls(a, base) + resolved_urls(b.drop_last(), base).push(u)
                    =~= (resolved_urls(a, base) + resolved_urls(b.drop_last(), base)).push(u));
            },
            None => {},
        }
    }
}

/// A reference that does not resolve is dropped without disturbing the others:
/// the references before and after it resolve as if it were not there.
pub proof fn lemma_unresolvable_dropped(
    before: Seq<Seq<char>>,
    bad: Seq<char>,
    after: Seq<Seq<char>>,
    base: Seq<char>,
)
    requires
        resolved_url(bad, base) is None,
    ensures
        resolved_urls(before + seq![bad] + after, base) == resolved_urls(before + after, base),
{
    lemma_resolved_urls_concat(before + seq![bad], after, base);
    lemma_resolved_urls_concat(before, seq![bad], base);
    lemma_resolved_urls_concat(before, after, base);
    reveal_with_fuel(resolved_urls, 2);
    assert(seq![bad].drop_last() =~= Seq::<Seq<char>>::empty());
    assert(seq![bad].last() == bad);
    assert(resolved_urls(seq![bad], base) =~= Seq::<Seq<char>>::empty());
    assert(resolved_urls(before, base) + Seq::<Seq<char>>::empty() =~= resolved_urls(before, base));
}

} // verus!
