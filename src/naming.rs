use vstd::prelude::*;

verus! {

/// The characters after the final `/` of `s` (all of `s` when it holds none).
pub open spec fn last_segment_of(s: Seq<char>) -> Seq<char>
    decreases s.len(),
{
    if s.len() == 0 {
        s
    } else if s.last() == '/' {
        Seq::empty()
    } else {
        last_segment_of(s.drop_last()).push(s.last())
    }
}

/// The character of a decimal digit.
pub open spec fn digit_char(d: nat) -> char {
    if d == 0 { '0' }
    else if d == 1 { '1' }
    else if d == 2 { '2' }
    else if d == 3 { '3' }
    else if d == 4 { '4' }
    else if d == 5 { '5' }
    else if d == 6 { '6' }
    else if d == 7 { '7' }
    else if d == 8 { '8' }
    else { '9' }
}

/// The decimal notation of `n`, without leading zeros.
pub open spec fn decimal(n: nat) -> Seq<char>
    decreases n,
{
    if n < 10 {
        seq![digit_char(n)]
    } else {
        decimal(n / 10).push(digit_char(n % 10))
    }
}

/// The name used for an image whose URL gives no file name.
pub open spec fn fallback_name(index: nat) -> Seq<char> {
    "image_"@ + decimal(index) + ".jpg"@
}

/// The file name under which the image at `url` is stored, `index` being its
/// position in extraction order.
pub open spec fn file_name_of(url: Seq<char>, index: nat) -> Seq<char> {
    if last_segment_of(url).len() > 0 {
        last_segment_of(url)
    } else {
        fallback_name(index)
    }
}

/// The portion of `url` after its final `/`.
pub fn last_segment(url: &str) -> (r: String)
    ensures
        r@ == last_segment_of(url@),
{
    let n = url.unicode_len();
    let mut start: usize = n;
    assert(url@.subrange(0, n as int) =~= url@);
    assert(url@ + url@.subrange(n as int, n as int) =~= url@);
    while start > 0 && url.get_char(start - 1) != '/'
        invariant
            start <= n,
            n == url@.len(),
            last_segment_of(url@) == last_segment_of(url@.subrange(0, start as int)) + url@.subrange(
                start as int,
                n as int,
            ),
        decreases start,
    {
        let ghost pre = url@.subrange(0, start as int);
        assert(pre.drop_last() =~= url@.subrange(0, start - 1));
        assert(url@.subrange(start - 1, n as int) =~= seq![pre.last()] + url@.subrange(
            start as int,
            n as int,
        ));
        assert(last_segment_of(pre.drop_last()).push(pre.last()) + url@.subrange(start as int, n as int)
            =~= last_segment_of(pre.drop_last()) + url@.subrange(start - 1, n as int));
        start = start - 1;
    }
    proof {
        assert(url@.subrange(0, n as int) =~= url@);
        if start > 0 {
            let pre = url@.subrange(0, start as int);
            assert(pre.last() == '/');
        }
        assert(last_segment_of(url@.subrange(0, start as int)) =~= Seq::<char>::empty());
        assert(Seq::<char>::empty() + url@.subrange(start as int, n as int) =~= url@.subrange(start as int, n as int));
    }
    String::from_str(url.substring_char(start, n))
}

fn digit_text(d: usize) -> (r: &'static str)
    requires
        d < 10,
    ensures
        r@ == seq![digit_char(d as nat)],
{
    proof {
        reveal_strlit("0");
        reveal_strlit("1");
        reveal_strlit("2");
        reveal_strlit("3");
        reveal_strlit("4");
        reveal_strlit("5");
        reveal_strlit("6");
        reveal_strlit("7");
        reveal_strlit("8");
        reveal_strlit("9");
    }
    let r = if d == 0 { "0" }
    else if d == 1 { "1" }
    else if d == 2 { "2" }
    else if d == 3 { "3" }
    else if d == 4 { "4" }
    else if d == 5 { "5" }
    else if d == 6 { "6" }
    else if d == 7 { "7" }
    else if d == 8 { "8" }
    else { "9" };
    assert(r@ =~= seq![digit_char(d as nat)]);
    r
}

/// The decimal notation of `n`.
pub fn decimal_text(n: usize) -> (r: String)
    ensures
        r@ == decimal(n as nat),
    decreases n,
{
    if n < 10 {
        String::from_str(digit_text(n))
    } else {
        let prefix = decimal_text(n / 10);
        let r = prefix.concat(digit_text(n % 10));
        r
    }
}

/// The file name for the image at `url` found at position `index`: the last
/// path segment of the URL, or `image_<index>.jpg` when that segment is empty.
pub fn file_name_for(url: &str, index: usize) -> (r: String)
    ensures
        r@ == file_name_of(url@, index as nat),
{
    let segment = last_segment(url);
    if segment.as_str().unicode_len() > 0 {
        segment
    } else {
        proof {
            reveal_strlit("image_");
            reveal_strlit(".jpg");
        }
        let head = String::from_str("image_");
        let name = head.concat(decimal_text(index).as_str());
        name.concat(".jpg")
    }
}

} // verus!
