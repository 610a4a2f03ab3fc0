//! How much memory the process uses.

use crate::text::{decimal_u64, second_word, second_word_u64};
use vstd::prelude::*;

verus! {

/// Kilobytes in a page of memory.
pub const PAGE_KB: u64 = 4;

/// The resident pages that the contents of `/proc/self/statm` tell: its second number.
pub open spec fn resident_pages(statm: Option<Seq<char>>) -> Option<u64> {
    match statm {
        Some(contents) => match second_word(contents) {
            Some(word) => decimal_u64(word),
            None => None,
        },
        None => None,
    }
}

/// The resident pages that the contents of `/proc/self/statm` tell, where there are any.
pub fn read_resident_pages(statm: Option<&str>) -> (pages: Option<u64>)
    ensures
        pages == resident_pages(
            match statm {
                Some(contents) => Some(contents@),
                None => None,
            },
        ),
{
    match statm {
        Some(contents) => second_word_u64(contents),
        None => None,
    }
}

/// The resident memory in kilobytes, from the contents of `/proc/self/statm`; 0 where
/// there are none or they cannot be read. Pages are taken to hold 4 KB.
pub fn get_rss_kb(statm: Option<&str>) -> (kb: u64)
    requires
        resident_pages(
            match statm {
                Some(contents) => Some(contents@),
                None => None,
            },
        ) matches Some(pages) ==> pages * PAGE_KB <= u64::MAX,
    ensures
        kb == match resident_pages(
            match statm {
                Some(contents) => Some(contents@),
                None => None,
            },
        ) {
            Some(pages) => pages * PAGE_KB,
            None => 0,
        },
{
    match read_resident_pages(statm) {
        Some(pages) => pages * PAGE_KB,
        None => 0,
    }
}

} // verus!
