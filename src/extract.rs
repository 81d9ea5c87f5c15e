use vstd::prelude::*;

use crate::error::GalleryError;
use crate::resolve::{opt_text, parsed_url, resolve_all, resolved_url, resolved_urls, texts, validate_base};

verus! {

/// For each element of the document `html` that the CSS selector `selector`
/// matches, in document order, the values of the attributes `attrs` on it, as
/// `scraper` parses the document; `None` where the selector does not parse.
pub uninterp spec fn selected_attributes(
    html: Seq<char>,
    selector: Seq<char>,
    attrs: Seq<Seq<char>>,
) -> Option<Seq<Seq<Option<Seq<char>>>>>;

/// The views of rows of optional attribute values.
pub open spec fn rows_text(rows: Seq<Vec<Option<String>>>) -> Seq<Seq<Option<Seq<char>>>> {
    rows.map_values(|row: Vec<Option<String>>| row@.map_values(|o: Option<String>| opt_text(o)))
}

/// Relies on `scraper::Selector::parse`, `scraper::Html::parse_document`,
/// `scraper::Html::select` and `scraper::node::Element::attr`: the matched
/// elements in document order, each with the values of `attrs`, in that order.
#[verifier::external_body]
fn select_attributes(html: &str, selector: &str, attrs: &Vec<String>) -> (r: Option<
    Vec<Vec<Option<String>>>,
>)
    ensures
        r is None ==> selected_attributes(html@, selector@, texts(attrs@)) is None,
        r is Some ==> selected_attributes(html@, selector@, texts(attrs@)) == Some(
            rows_text(r->0@),
        ),
        r is Some ==> forall|i: int| 0 <= i < r->0@.len() ==> #[trigger] r->0@[i]@.len() == attrs@.len(),
{
    let selector = scraper::Selector::parse(selector).ok()?;
    let document = scraper::Html::parse_document(html);
    let rows = document.select(&selector).map(
        |e| attrs.iter().map(|a| e.value().attr(a).map(String::from)).collect(),
    ).collect();
    Some(rows)
}

/// The selector of image-bearing elements.
pub open spec fn image_selector() -> Seq<char> {
    "img"@
}

/// The attributes that may name an image, in order of preference: the
/// lazy-load attribute first, then the standard one.
pub open spec fn image_attribute_names() -> Seq<Seq<char>> {
    seq!["data-src"@, "src"@]
}

/// The first value present in `row`.
pub open spec fn first_present_of(row: Seq<Option<Seq<char>>>) -> Option<Seq<char>>
    decreases row.len(),
{
    if row.len() == 0 {
        None
    } else if row[0] is Some {
        row[0]
    } else {
        first_present_of(row.drop_first())
    }
}

/// The reference of each row that has one, in order.
pub open spec fn references_of_rows(rows: Seq<Seq<Option<Seq<char>>>>) -> Seq<Seq<char>>
    decreases rows.len(),
{
    if rows.len() == 0 {
        Seq::empty()
    } else {
        let prev = references_of_rows(rows.drop_last());
        match first_present_of(rows.last()) {
            Some(r) => prev.push(r),
            None => prev,
        }
    }
}

/// The image references of the document `html`, in document order, or `None`
/// where no selection could be made.
pub open spec fn document_references(html: Seq<char>) -> Option<Seq<Seq<char>>> {
    match selected_attributes(html, image_selector(), image_attribute_names()) {
        Some(rows) => Some(references_of_rows(rows)),
        None => None,
    }
}

/// What extraction and resolution make of the page `html` found at `page_url`.
pub open spec fn gallery_urls(html: Seq<char>, page_url: Seq<char>) -> Result<
    Seq<Seq<char>>,
    GalleryError,
> {
    if parsed_url(page_url) is None {
        Err(GalleryError::ResolutionFailure)
    } else {
        match document_references(html) {
            None => Err(GalleryError::ExtractionFailure),
            Some(refs) => if refs.len() == 0 || resolved_urls(refs, page_url).len() == 0 {
                Err(GalleryError::ExtractionFailure)
            } else {
                Ok(resolved_urls(refs, page_url))
            },
        }
    }
}

/// The view of a list of strings or an error.
pub open spec fn result_texts(r: Result<Vec<String>, GalleryError>) -> Result<
    Seq<Seq<char>>,
    GalleryError,
> {
    match r {
        Ok(v) => Ok(texts(v@)),
        Err(e) => Err(e),
    }
}

/// The first attribute value present in `row`, the attributes being in order
/// of preference.
pub fn first_present(row: &Vec<Option<String>>) -> (r: Option<String>)
    ensures
        opt_text(r) == first_present_of(row@.map_values(|o: Option<String>| opt_text(o))),
{
    let ghost full = row@.map_values(|o: Option<String>| opt_text(o));
    let mut i: usize = 0;
    assert(full.subrange(0, full.len() as int) =~= full);
    while i < row.len()
        invariant
            i <= row.len(),
            full == row@.map_values(|o: Option<String>| opt_text(o)),
            first_present_of(full) == first_present_of(full.subrange(i as int, full.len() as int)),
        decreases row.len() - i,
    {
        let ghost rest = full.subrange(i as int, full.len() as int);
        assert(rest.drop_first() =~= full.subrange(i + 1, full.len() as int));
        match &row[i] {
            Some(v) => {
                return Some(v.clone());
            },
            None => {},
        }
        i = i + 1;
    }
    None
}

/// The image reference of each element that has one, in document order.
pub fn references_of(rows: &Vec<Vec<Option<String>>>) -> (r: Vec<String>)
    ensures
        texts(r@) == references_of_rows(rows_text(rows@)),
{
    let mut out: Vec<String> = Vec::new();
    let mut i: usize = 0;
    while i < rows.len()
        invariant
            i <= rows.len(),
            texts(out@) == references_of_rows(rows_text(rows@.subrange(0, i as int))),
        decreases rows.len() - i,
    {
        let ghost before = out@;
        let chosen = first_present(&rows[i]);
        proof {
            let t = rows_text(rows@.subrange(0, i + 1));
            assert(t.drop_last() =~= rows_text(rows@.subrange(0, i as int)));
            assert(t.last() == rows@[i as int]@.map_values(|o: Option<String>| opt_text(o)));
        }
        match chosen {
            Some(s) => {
                out.push(s);
                assert(texts(out@) =~= texts(before).push(out@.last()@));
            },
            None => {},
        }
        i = i + 1;
    }
    assert(rows@.subrange(0, rows.len() as int) =~= rows@);
    out
}

/// The image references of the rendered document `html`, in document order;
/// fails when there is none.
pub fn image_references(html: &str) -> (r: Result<Vec<String>, GalleryError>)
    ensures
        match document_references(html@) {
            None => r == Err::<Vec<String>, GalleryError>(GalleryError::ExtractionFailure),
            Some(refs) => if refs.len() == 0 {
                r == Err::<Vec<String>, GalleryError>(GalleryError::ExtractionFailure)
            } else {
                r is Ok && texts(r->Ok_0@) == refs
            },
        },
{
    let attrs = vec![String::from_str("data-src"), String::from_str("src")];
    proof {
        reveal_strlit("data-src");
        reveal_strlit("src");
        assert(texts(attrs@) =~= image_attribute_names());
    }
    match select_attributes(html, "img", &attrs) {
        None => Err(GalleryError::ExtractionFailure),
        Some(rows) => {
            proof {
                reveal_strlit("img");
            }
            let refs = references_of(&rows);
            if refs.len() == 0 {
                Err(GalleryError::ExtractionFailure)
            } else {
                Ok(refs)
            }
        },
    }
}

/// The absolute URLs of the images of the rendered page `html` found at
/// `page_url`, in document order. References that do not resolve are dropped;
/// the page URL must be well formed and at least one URL must remain.
pub fn parse_image_urls(html: &str, page_url: &str) -> (r: Result<Vec<String>, GalleryError>)
    ensures
        result_texts(r) == gallery_urls(html@, page_url@),
{
    validate_base(page_url)?;
    let refs = image_references(html)?;
    let urls = resolve_all(&refs, page_url);
    if urls.len() == 0 {
        Err(GalleryError::ExtractionFailure)
    } else {
        Ok(urls)
    }
}


/// On an element that carries both attributes the lazy-load one gives the
/// reference; otherwise whichever is present does.
pub proof fn lemma_lazy_attribute_preferred(data_src: Option<Seq<char>>, src: Option<Seq<char>>)
    ensures
        first_present_of(seq![data_src, src]) == (if data_src is Some {
            data_src
        } else {
            src
        }),
{
    let row = seq![data_src, src];
    reveal_with_fuel(first_present_of, 3);
    assert(row.drop_first() =~= seq![src]);
    assert(seq![src].drop_first() =~= Seq::<Option<Seq<char>>>::empty());
}

/// When every selected element carries a reference that resolves, the result
/// holds exactly one URL per element, in document order.
pub proof fn lemma_one_url_per_element(rows: Seq<Seq<Option<Seq<char>>>>, base: Seq<char>)
    requires
        forall|i: int|
            0 <= i < rows.len() ==> (#[trigger] first_present_of(rows[i])) is Some && resolved_url(
                first_present_of(rows[i])->0,
                base,
            ) is Some,
    ensures
        resolved_urls(references_of_rows(rows), base).len() == rows.len(),
        forall|i: int|
            0 <= i < rows.len() ==> resolved_urls(references_of_rows(rows), base)[i] == resolved_url(
                #[trigger] first_present_of(rows[i])->0,
                base,
            )->0,
    decreases rows.len(),
{
    if rows.len() > 0 {
        let prev = rows.drop_last();
        assert forall|i: int| 0 <= i < prev.len() implies (#[trigger] first_present_of(prev[i])) is Some
            && resolved_url(first_present_of(prev[i])->0, base) is Some by {
            assert(prev[i] == rows[i]);
        }
        lemma_one_url_per_element(prev, base);
        let last = rows.len() - 1;
        assert(first_present_of(rows[last]) is Some);
        let r = first_present_of(rows.last())->0;
        assert(references_of_rows(rows) == references_of_rows(prev).push(r));
        assert(references_of_rows(rows).drop_last() =~= references_of_rows(prev));
        assert forall|i: int| 0 <= i < rows.len() implies resolved_urls(references_of_rows(rows), base)[i]
            == resolved_url(#[trigger] first_present_of(rows[i])->0, base)->0 by {
            if i < last {
                assert(prev[i] == rows[i]);
            }
        }
    }
}

} // verus!
