//! The text segmenter: partitions a text's characters into consecutive
//! chunks and assigns each chunk a color by cycling through a palette.

use vstd::arithmetic::div_mod::lemma_basic_div;
use vstd::arithmetic::div_mod::lemma_fundamental_div_mod_converse;
use vstd::arithmetic::div_mod::lemma_small_mod;
use vstd::math::min;
use vstd::prelude::*;
use vstd::string::StrSliceExecFns;

use crate::colors::ColorPalette;
use crate::colors::ColorToken;

verus! {

/// A contiguous, non-empty run of the input's characters paired with the one
/// color it is displayed in. Segments appear in the output in the order their
/// text appears in the input.
#[derive(Clone, Debug, PartialEq, Eq)]
pub struct TextSegment {
    pub text: String,
    pub color: ColorToken,
}

/// How many chunks a text of `len` characters splits into at `size`
/// characters per chunk: the ceiling of `len / size`.
pub open spec fn chunk_count(len: int, size: int) -> int
    recommends
        len >= 0,
        size >= 1,
{
    (len + size - 1) / size
}

/// The characters of the k-th chunk: the k-th consecutive run of `size`
/// characters, cut short at the end of the text.
pub open spec fn chunk_at(text: Seq<char>, size: int, k: int) -> Seq<char>
    recommends
        size >= 1,
        0 <= k < chunk_count(text.len() as int, size),
{
    text.subrange(k * size, min(k * size + size, text.len() as int))
}

/// The color of the k-th chunk: the palette repeats indefinitely, so chunk
/// `k` takes the palette entry at `k` modulo the palette length.
pub open spec fn cyclic_color(palette: Seq<ColorToken>, k: int) -> ColorToken
    recommends
        palette.len() >= 1,
        0 <= k,
{
    palette[k % palette.len() as int]
}

/// The segments' substrings joined back together, in order.
pub open spec fn concat_texts(segments: Seq<TextSegment>) -> Seq<char>
    decreases segments.len(),
{
    if segments.len() == 0 {
        Seq::empty()
    } else {
        concat_texts(segments.drop_last()) + segments.last().text@
    }
}

/// What it means for `segments` to be the segmentation of `text` into chunks
/// of `size` characters colored by `palette`:
/// - there is one segment per chunk, `ceil(len / size)` in all;
/// - the k-th segment carries exactly the k-th chunk of characters;
/// - the k-th segment's color cycles through the palette;
/// - every segment is non-empty;
/// - joining the segments' substrings in order reproduces the text exactly.
pub open spec fn is_segmentation(
    text: Seq<char>,
    size: int,
    palette: Seq<ColorToken>,
    segments: Seq<TextSegment>,
) -> bool {
    &&& segments.len() == chunk_count(text.len() as int, size)
    &&& (forall|k: int|
        0 <= k < segments.len() ==> (#[trigger] segments[k]).text@ == chunk_at(text, size, k))
    &&& (forall|k: int|
        0 <= k < segments.len() ==> (#[trigger] segments[k]).color == cyclic_color(palette, k))
    &&& (forall|k: int| 0 <= k < segments.len() ==> (#[trigger] segments[k]).text@.len() >= 1)
    &&& concat_texts(segments) == text
}

/// Splits `text` into consecutive chunks of `chunk_size` characters — the
/// last chunk keeps whatever remainder is left — and colors the chunks by
/// cycling through `palette`. An empty text yields no segments at all, and a
/// chunk size at or above the text length yields the whole text as one
/// segment in the palette's first color.
#[verifier::loop_isolation(false)]
pub fn segment_by_fixed_chunk(text: &str, chunk_size: usize, palette: &ColorPalette) -> (segments:
    Vec<TextSegment>)
    requires
        chunk_size >= 1,
        palette.wf(),
    ensures
        is_segmentation(text@, chunk_size as int, palette@, segments@),
        text@.len() == 0 ==> segments@.len() == 0,
        1 <= text@.len() <= chunk_size ==> {
            &&& segments@.len() == 1
            &&& segments@[0].text@ == text@
            &&& segments@[0].color == palette@[0]
        },
{
    let ghost l = text@.len() as int;
    let ghost size = chunk_size as int;
    let n = text.unicode_len();
    let mut segments: Vec<TextSegment> = Vec::new();
    let mut start: usize = 0;
    let mut k: usize = 0;
    while start < n
        invariant
            start <= n,
            k as int * size <= l ==> start as int == k as int * size,
            k as int * size > l ==> start as int == l,
            k >= 1 ==> (k as int - 1) * size < l,
            segments@.len() == k,
            forall|j: int|
                0 <= j < k ==> (#[trigger] segments@[j]).text@ == chunk_at(text@, size, j),
            forall|j: int|
                0 <= j < k ==> (#[trigger] segments@[j]).color == cyclic_color(palette@, j),
            forall|j: int| 0 <= j < k ==> (#[trigger] segments@[j]).text@.len() >= 1,
            concat_texts(segments@) == text@.take(start as int),
        decreases n - start,
    {
        proof {
            if k as int * size > l {
                assert(start as int == l);
                assert(false);
            }
            assert(start as int == k as int * size);
            assert((k as int + 1) * size == k as int * size + size) by (nonlinear_arith);
            assert(k as int <= k as int * size) by (nonlinear_arith)
                requires
                    size >= 1,
                    k as int >= 0,
            ;
        }
        let end = if n - start > chunk_size {
            start + chunk_size
        } else {
            n
        };
        let chunk = text.substring_char(start, end);
        let color = palette.color_at(k);
        let ghost segments_before = segments@;
        segments.push(TextSegment { text: chunk.to_owned(), color });
        proof {
            assert(chunk_at(text@, size, k as int) == text@.subrange(start as int, end as int));
            assert(segments@.drop_last() =~= segments_before);
            assert(text@.take(end as int) =~= text@.take(start as int) + text@.subrange(
                start as int,
                end as int,
            ));
        }
        start = end;
        k = k + 1;
    }
    proof {
        assert(start == n);
        if l == 0 {
            if k >= 1 {
                assert((k as int - 1) * size >= 0) by (nonlinear_arith)
                    requires
                        k as int - 1 >= 0,
                        size >= 1,
                ;
                assert(false);
            }
            lemma_basic_div(size - 1, size);
        } else {
            assert(k >= 1);
            assert((k as int - 1) * size < l);
            assert(l <= k as int * size);
            let q = k as int;
            let r = l + size - 1 - q * size;
            assert((q - 1) * size == q * size - size) by (nonlinear_arith);
            lemma_fundamental_div_mod_converse(l + size - 1, size, q, r);
            if l <= size {
                if k >= 2 {
                    assert((k as int - 1) * size >= size) by (nonlinear_arith)
                        requires
                            k as int - 1 >= 1,
                            size >= 1,
                    ;
                    assert(false);
                }
                assert(segments@[0].text@ == chunk_at(text@, size, 0));
                assert(text@.subrange(0, l) =~= text@);
                lemma_small_mod(0, palette@.len());
            }
        }
        assert(text@.take(l) =~= text@);
    }
    segments
}

/// One segmentation job: the text to split, how many characters go into each
/// chunk, and the palette to cycle through. A request is built once, used
/// once, and discarded; building one checks the preconditions the segmenter
/// relies on, so a well-formed request can always be run.
pub struct SegmentationRequest {
    pub text: String,
    pub chunk_size: usize,
    pub palette: ColorPalette,
}

impl SegmentationRequest {
    /// A request is well formed when its chunk size is positive and its
    /// palette offers at least one color.
    pub open spec fn wf(&self) -> bool {
        &&& self.chunk_size >= 1
        &&& self.palette.wf()
    }

    /// Builds a request, rejecting a zero chunk size and an empty palette.
    pub fn new(text: String, chunk_size: usize, palette: ColorPalette) -> (request: Option<
        SegmentationRequest,
    >)
        ensures
            chunk_size >= 1 && palette.wf() ==> (request matches Some(r) && {
                &&& r.wf()
                &&& r.text@ == text@
                &&& r.chunk_size == chunk_size
                &&& r.palette@ == palette@
            }),
            !(chunk_size >= 1 && palette.wf()) ==> request is None,
    {
        if chunk_size >= 1 && palette.len() >= 1 {
            Some(SegmentationRequest { text, chunk_size, palette })
        } else {
            None
        }
    }

    /// Runs the request: splits its text at its chunk size and colors the
    /// chunks from its palette.
    pub fn segments(&self) -> (segments: Vec<TextSegment>)
        requires
            self.wf(),
        ensures
            is_segmentation(self.text@, self.chunk_size as int, self.palette@, segments@),
    {
        segment_by_fixed_chunk(self.text.as_str(), self.chunk_size, &self.palette)
    }
}

/// The chunk size the automated-size variant derives: the floor of the text
/// length over the palette length, so that each palette color covers roughly
/// one chunk — raised to one when the text is shorter than the palette, since
/// a chunk size of zero would make no progress.
pub open spec fn automated_chunk_size(text_len: int, palette_len: int) -> int
    recommends
        text_len >= 0,
        palette_len >= 1,
{
    if text_len / palette_len >= 1 {
        text_len / palette_len
    } else {
        1
    }
}

/// Splits `text` so the palette is spread roughly evenly across it: the
/// chunk size is the text length divided by the palette length, so each
/// color appears about once. Texts shorter than the palette fall back to one
/// character per chunk.
pub fn segment_with_automated_size(text: &str, palette: &ColorPalette) -> (segments: Vec<
    TextSegment,
>)
    requires
        palette.wf(),
    ensures
        is_segmentation(
            text@,
            automated_chunk_size(text@.len() as int, palette@.len() as int),
            palette@,
            segments@,
        ),
        text@.len() == 0 ==> segments@.len() == 0,
{
    let n = text.unicode_len();
    let derived = n / palette.len();
    let chunk_size = if derived == 0 {
        1
    } else {
        derived
    };
    segment_by_fixed_chunk(text, chunk_size, palette)
}

/// Splits `text` into single-character segments: the palette repeats as many
/// times as needed to cover the whole text, one color per character.
pub fn segment_repeating(text: &str, palette: &ColorPalette) -> (segments: Vec<TextSegment>)
    requires
        palette.wf(),
    ensures
        is_segmentation(text@, 1, palette@, segments@),
        segments@.len() == text@.len(),
        forall|k: int|
            0 <= k < segments@.len() ==> (#[trigger] segments@[k]).text@ == text@.subrange(
                k,
                k + 1,
            ),
{
    let segments = segment_by_fixed_chunk(text, 1, palette);
    proof {
        let l = text@.len() as int;
        assert(chunk_count(l, 1) == l);
        assert(forall|k: int| 0 <= k < l ==> chunk_at(text@, 1, k) == text@.subrange(k, k + 1));
    }
    segments
}

} // verus!
