use vstd::prelude::*;

use crate::error::GalleryError;
use crate::naming::{file_name_for, file_name_of};
use crate::resolve::texts;

verus! {

/// The download of one image: its URL, the file it goes to, and its position
/// in extraction order.
#[derive(Debug)]
pub struct FetchTask {
    pub url: String,
    pub file_name: String,
    pub ordinal_index: usize,
}

/// How the download of one image ended.
#[derive(Debug)]
pub enum FetchOutcome {
    /// The image was written under this file name.
    Written(String),
    /// Every attempt at this URL failed; the image is skipped.
    ExhaustedRetries(String),
    /// The task could not be run to its end.
    Fatal(GalleryError),
}

/// What a batch of downloads achieved: the files written and the URLs skipped,
/// each in task order.
#[derive(Debug)]
pub struct BatchReport {
    pub written: Vec<String>,
    pub skipped: Vec<String>,
}

/// The file names of the written images among `s`, in order.
pub open spec fn written_names(s: Seq<FetchOutcome>) -> Seq<Seq<char>>
    decreases s.len(),
{
    if s.len() == 0 {
        Seq::empty()
    } else {
        match s.last() {
            FetchOutcome::Written(n) => written_names(s.drop_last()).push(n@),
            _ => written_names(s.drop_last()),
        }
    }
}

/// The URLs of the skipped images among `s`, in order.
pub open spec fn skipped_urls(s: Seq<FetchOutcome>) -> Seq<Seq<char>>
    decreases s.len(),
{
    if s.len() == 0 {
        Seq::empty()
    } else {
        match s.last() {
            FetchOutcome::ExhaustedRetries(u) => skipped_urls(s.drop_last()).push(u@),
            _ => skipped_urls(s.drop_last()),
        }
    }
}

/// Whether some outcome of `s` is fatal.
pub open spec fn has_fatal(s: Seq<FetchOutcome>) -> bool {
    exists|i: int| 0 <= i < s.len() && #[trigger] s[i] is Fatal
}

/// Whether `s[i]` is the first fatal outcome of `s`.
pub open spec fn first_fatal_at(s: Seq<FetchOutcome>, i: int) -> bool {
    &&& 0 <= i < s.len()
    &&& s[i] is Fatal
    &&& forall|j: int| 0 <= j < i ==> !(#[trigger] s[j] is Fatal)
}

/// Whether `t` is the task for `url` at position `index`.
pub open spec fn task_for(t: FetchTask, url: Seq<char>, index: int) -> bool {
    &&& t.url@ == url
    &&& t.file_name@ == file_name_of(url, index as nat)
    &&& t.ordinal_index == index
}

/// One download task per URL, in order, each with its file name.
pub fn plan_tasks(urls: &Vec<String>) -> (r: Vec<FetchTask>)
    ensures
        r.len() == urls.len(),
        forall|i: int| 0 <= i < urls.len() ==> task_for(#[trigger] r@[i], urls@[i]@, i),
{
    let mut tasks: Vec<FetchTask> = Vec::new();
    let mut i: usize = 0;
    while i < urls.len()
        invariant
            i <= urls.len(),
            tasks.len() == i,
            forall|j: int| 0 <= j < i ==> task_for(#[trigger] tasks@[j], urls@[j]@, j),
        decreases urls.len() - i,
    {
        let file_name = file_name_for(urls[i].as_str(), i);
        tasks.push(FetchTask { url: urls[i].clone(), file_name, ordinal_index: i });
        i = i + 1;
    }
    tasks
}

/// Gathers the outcomes of a batch, in task order. Skipped images are only
/// reported; the first fatal outcome, if any, fails the batch.
pub fn aggregate_outcomes(outcomes: Vec<FetchOutcome>) -> (r: Result<BatchReport, GalleryError>)
    ensures
        r is Err <==> has_fatal(outcomes@),
        r is Err ==> exists|i: int|
            first_fatal_at(outcomes@, i) && outcomes@[i] == FetchOutcome::Fatal(r->Err_0),
        r is Ok ==> texts(r->Ok_0.written@) == written_names(outcomes@),
        r is Ok ==> texts(r->Ok_0.skipped@) == skipped_urls(outcomes@),
{
    let ghost all = outcomes@;
    let mut rest = outcomes;
    assert(all.len() == rest.len());
    let mut written: Vec<String> = Vec::new();
    let mut skipped: Vec<String> = Vec::new();
    let mut k: usize = 0;
    while rest.len() > 0
        invariant
            all == outcomes@,
            all.len() <= usize::MAX,
            k + rest.len() == all.len(),
            rest@ == all.subrange(k as int, all.len() as int),
            forall|j: int| 0 <= j < k ==> !(#[trigger] all[j] is Fatal),
            texts(written@) == written_names(all.subrange(0, k as int)),
            texts(skipped@) == skipped_urls(all.subrange(0, k as int)),
        decreases rest.len(),
    {
        let ghost prefix = all.subrange(0, k + 1);
        assert(prefix.drop_last() =~= all.subrange(0, k as int));
        assert(rest@[0] == all[k as int]);
        let o = rest.remove(0);
        assert(o == all[k as int]);
        match o {
            FetchOutcome::Written(n) => {
                let ghost before = written@;
                written.push(n);
                assert(texts(written@) =~= texts(before).push(written@.last()@));
            },
            FetchOutcome::ExhaustedRetries(u) => {
                let ghost before = skipped@;
                skipped.push(u);
                assert(texts(skipped@) =~= texts(before).push(skipped@.last()@));
            },
            FetchOutcome::Fatal(e) => {
                assert(all[k as int] == FetchOutcome::Fatal(e));
                assert(first_fatal_at(all, k as int));
                assert(has_fatal(all));
                assert(exists|i: int| first_fatal_at(all, i) && all[i] == FetchOutcome::Fatal(e));
                return Err(e);
            },
        }
        assert(rest@ =~= all.subrange(k + 1, all.len() as int));
        k = k + 1;
    }
    assert(all.subrange(0, k as int) =~= all);
    Ok(BatchReport { written, skipped })
}

} // verus!
