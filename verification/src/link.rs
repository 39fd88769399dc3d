//! Extraction of a document element identifier from a pasted link: the
//! identifier is the first run of 32 hexadecimal digits found in the text.

use vstd::prelude::*;
use vstd::string::StrSliceExecFns;

verus! {

/// How many hexadecimal digits make up an element identifier.
pub const ID_CHAR_COUNT: usize = 32;

/// Whether `c` is a hexadecimal digit, in either letter case.
pub open spec fn is_hex_digit(c: char) -> bool {
    let u = c as u32;
    ||| '0' as u32 <= u && u <= '9' as u32
    ||| 'a' as u32 <= u && u <= 'f' as u32
    ||| 'A' as u32 <= u && u <= 'F' as u32
}

/// Whether an identifier starts at position `i` of `s`: the next
/// `ID_CHAR_COUNT` characters all are hexadecimal digits.
pub open spec fn hex_window(s: Seq<char>, i: int) -> bool {
    &&& 0 <= i
    &&& i + ID_CHAR_COUNT as int <= s.len()
    &&& forall|j: int| i <= j < i + ID_CHAR_COUNT as int ==> is_hex_digit(#[trigger] s[j])
}

fn is_hex_digit_char(c: char) -> (hex: bool)
    ensures
        hex == is_hex_digit(c),
{
    let u = c as u32;
    ('0' as u32 <= u && u <= '9' as u32) || ('a' as u32 <= u && u <= 'f' as u32) || ('A' as u32 <= u
        && u <= 'F' as u32)
}

#[verifier::loop_isolation(false)]
fn window_is_hex(link: &str, i: usize) -> (hex: bool)
    requires
        i + ID_CHAR_COUNT <= usize::MAX,
        i + ID_CHAR_COUNT <= link@.len(),
    ensures
        hex == hex_window(link@, i as int),
{
    let mut j: usize = 0;
    while j < ID_CHAR_COUNT
        invariant
            j <= ID_CHAR_COUNT,
            forall|p: int| i as int <= p < i as int + j ==> is_hex_digit(#[trigger] link@[p]),
        decreases ID_CHAR_COUNT - j,
    {
        let c = link.get_char(i + j);
        if !is_hex_digit_char(c) {
            assert(!is_hex_digit(link@[i as int + j as int]));
            return false;
        }
        j = j + 1;
    }
    true
}

/// Finds the first 32-digit hexadecimal identifier in `link`: the scan runs
/// left to right, so the identifier returned starts at the least position
/// where one occurs. Where the link holds no such run, there is nothing to
/// extract and `None` comes back.
#[verifier::loop_isolation(false)]
pub fn extract_element_id_from_link(link: &str) -> (extracted: Option<String>)
    ensures
        extracted is Some <==> exists|i: int| hex_window(link@, i),
        extracted matches Some(id) ==> exists|i: int|
            {
                &&& #[trigger] hex_window(link@, i)
                &&& forall|j: int| 0 <= j < i ==> !hex_window(link@, j)
                &&& id@ == link@.subrange(i, i + ID_CHAR_COUNT as int)
            },
{
    let n = link.unicode_len();
    if n < ID_CHAR_COUNT {
        return None;
    }
    let last = n - ID_CHAR_COUNT;
    let mut i: usize = 0;
    while i <= last
        invariant
            i <= last + 1,
            forall|j: int| 0 <= j < i ==> !hex_window(link@, j),
        decreases last - i + 1,
    {
        if window_is_hex(link, i) {
            let found = link.substring_char(i, i + ID_CHAR_COUNT);
            assert(hex_window(link@, i as int));
            return Some(found.to_owned());
        }
        i = i + 1;
    }
    None
}

} // verus!
