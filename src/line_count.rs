use vstd::prelude::*;

verus! {

/// The number of bytes equal to `needle` in `haystack`.
pub open spec fn occurrences(needle: u8, haystack: Seq<u8>) -> nat {
    haystack.filter(|b: u8| b == needle).len()
}

/// The number of line ends (`\n` bytes) in `buf`.
pub open spec fn newline_count(buf: Seq<u8>) -> nat {
    occurrences(10u8, buf)
}

/// Relies on `memchr::memchr_iter`, whose iterator yields each position of
/// `needle` in `haystack` once: counting its items counts the occurrences.
#[verifier::external_body]
fn count_byte(needle: u8, haystack: &[u8]) -> (r: usize)
    ensures
        r == occurrences(needle, haystack@),
{
    memchr::memchr_iter(needle, haystack).count()
}

/// The number of line ends in `chunk`.
pub fn count_newlines(chunk: &[u8]) -> (r: usize)
    ensures
        r == newline_count(chunk@),
{
    count_byte(10u8, chunk)
}

/// Adds the line ends of `chunk` to a running `total`, or gives `None` when the
/// sum does not fit in a `usize`.
pub fn add_chunk_lines(total: usize, chunk: &[u8]) -> (r: Option<usize>)
    ensures
        total + newline_count(chunk@) <= usize::MAX ==> r == Some(
            (total + newline_count(chunk@)) as usize,
        ),
        total + newline_count(chunk@) > usize::MAX ==> r is None,
{
    total.checked_add(count_newlines(chunk))
}

} // verus!
