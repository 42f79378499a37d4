use vstd::prelude::*;
use vstd::slice::slice_to_vec;
use crate::dispatch::{routed, Delivery, Logger, Sink};
use crate::level::Level;

verus! {

/// The table that hexplay renders for `data`, the first byte at address
/// `offset` and `width` bytes a row: hex columns then the character column,
/// no color.
pub uninterp spec fn hex_table_text(data: Seq<u8>, offset: usize, width: usize) -> Seq<char>;

/// Whether termcolor reads `name` as a color (a name such as "red", an
/// ANSI-256 number, or an "r,g,b" triple).
pub uninterp spec fn termcolor_color_parses(name: Seq<char>) -> bool;

/// The table that hexplay writes for `data` (first byte at address `offset`,
/// `width` bytes a row) into an ANSI termcolor buffer, with each
/// `(color, start, end)` span highlighted; `None` when writing or reading the
/// buffer back as UTF-8 fails.
pub uninterp spec fn colored_hex_text(
    data: Seq<u8>,
    offset: usize,
    width: usize,
    spans: Seq<(Seq<char>, usize, usize)>,
) -> Option<Seq<char>>;

/// The address of a table's first byte.
pub const HEX_ADDRESS_OFFSET: usize = 0;

/// The number of bytes in one row of a table.
pub const HEX_ROW_WIDTH: usize = 16;

/// Relies on hexplay's `HexViewBuilder` (`address_offset`, `row_width`) and
/// the `Display` of the `HexView` it builds: the plain table of `data`. A zero
/// width makes `Display` fail, and addresses past `usize::MAX` overflow.
#[verifier::external_body]
fn hex_table(data: &[u8], offset: usize, width: usize) -> (r: String)
    requires
        0 < width,
        offset + data@.len() + 2 * width <= usize::MAX,
    ensures
        r@ == hex_table_text(data@, offset, width),
{
    let view = hexplay::HexViewBuilder::new(data).address_offset(offset).row_width(width).finish();
    format!("{}", view)
}

/// Relies on termcolor's `FromStr for Color`: whether `name` is a color.
#[verifier::external_body]
fn color_name_parses(name: &str) -> (r: bool)
    ensures
        r == termcolor_color_parses(name@),
{
    name.parse::<termcolor::Color>().is_ok()
}

/// Renders the plain hex table of `data`: addresses from zero, sixteen bytes
/// a row. (A slice never holds more than `isize::MAX` bytes.)
pub fn format_hex(data: &[u8]) -> (r: String)
    requires
        data@.len() <= isize::MAX,
    ensures
        r@ == hex_table_text(data@, 0, 16),
{
    hex_table(data, HEX_ADDRESS_OFFSET, HEX_ROW_WIDTH)
}

/// Emits the hex table of `data` at `Trace`; the table is rendered only
/// when `Trace` passes the threshold.
pub fn trace_hex<S: Sink>(logger: &Logger<S>, data: &[u8]) -> (r: Delivery)
    requires
        data@.len() <= isize::MAX,
    ensures
        !logger.passes(Level::Trace) ==> r == Delivery::Filtered,
        logger.passes(Level::Trace) ==> routed(
            logger.verdict(Level::Trace, hex_table_text(data@, 0, 16)),
            hex_table_text(data@, 0, 16),
            r,
        ),
{
    if !logger.log_level_enabled(Level::Trace) {
        return Delivery::Filtered;
    }
    logger.dispatch(Level::Trace, format_hex(data))
}

/// Relies on hexplay's `HexViewBuilder` (`address_offset`, `row_width`, one
/// `add_color` per span, whose color it parses with termcolor and unwraps)
/// and on `HexView::fmt` into termcolor's ANSI `Buffer`, read back as UTF-8.
#[verifier::external_body]
fn colored_hex_table(data: &[u8], offset: usize, width: usize, spans: &Vec<ColorSpan>) -> (r: Option<String>)
    requires
        0 < width,
        offset + data@.len() + 2 * width <= usize::MAX,
        forall|i: int| 0 <= i < spans@.len() ==> termcolor_color_parses(#[trigger] spans@[i].color@),
    ensures
        r is None <==> colored_hex_text(data@, offset, width, spans_view(spans@)) is None,
        r matches Some(s) ==> colored_hex_text(data@, offset, width, spans_view(spans@)) == Some(s@),
{
    let mut builder = hexplay::HexViewBuilder::new(data).address_offset(offset).row_width(width);
    for span in spans.iter() {
        builder = builder.add_color(&span.color, span.start..span.end);
    }
    let mut buffer = termcolor::Buffer::ansi();
    builder.finish().fmt(&mut buffer).ok()?;
    String::from_utf8(buffer.into_inner()).ok()
}

/// One highlighted byte range of a hex table: bytes `start..end` in `color`.
#[derive(Clone, Debug)]
pub struct ColorSpan {
    pub color: String,
    pub start: usize,
    pub end: usize,
}

impl View for ColorSpan {
    type V = (Seq<char>, usize, usize);

    open spec fn view(&self) -> (Seq<char>, usize, usize) {
        (self.color@, self.start, self.end)
    }
}

pub open spec fn spans_view(spans: Seq<ColorSpan>) -> Seq<(Seq<char>, usize, usize)> {
    spans.map_values(|s: ColorSpan| s@)
}

/// Why a colored hex table could not be built or rendered.
#[derive(Clone, Copy, Debug, PartialEq, Eq, Structural)]
pub enum HexError {
    /// A color name that termcolor does not read.
    UnknownColor,
    /// A range whose start lies after its end.
    MalformedRange,
    /// Consecutive lengths whose running end exceeds `usize::MAX`.
    RangeOverflow,
    /// Writing the table or reading it back as text failed.
    Render,
}

/// Every color name among `colors` is one that termcolor reads.
pub open spec fn lengths_colors_parse(colors: Seq<(&str, usize)>) -> bool {
    forall|i: int| 0 <= i < colors.len() ==> termcolor_color_parses(#[trigger] colors[i].0@)
}

/// Every color name among `colors` is one that termcolor reads.
pub open spec fn ranges_colors_parse(colors: Seq<(&str, usize, usize)>) -> bool {
    forall|i: int| 0 <= i < colors.len() ==> termcolor_color_parses(#[trigger] colors[i].0@)
}

/// Sum of the lengths in `colors`.
pub open spec fn lengths_total(colors: Seq<(&str, usize)>) -> int
    decreases colors.len(),
{
    if colors.len() == 0 {
        0
    } else {
        lengths_total(colors.drop_last()) + colors.last().1
    }
}

/// The spans that `colors` lays end to end from `start`: the i-th covers
/// its length right after the lengths before it.
pub open spec fn chained_spans(start: int, colors: Seq<(&str, usize)>) -> Seq<(Seq<char>, usize, usize)> {
    Seq::new(
        colors.len(),
        |i: int|
            (
                colors[i].0@,
                (start + lengths_total(colors.take(i))) as usize,
                (start + lengths_total(colors.take(i + 1))) as usize,
            ),
    )
}

/// The spans named by `(color, start, end)` triples.
pub open spec fn ranged_spans(colors: Seq<(&str, usize, usize)>) -> Seq<(Seq<char>, usize, usize)> {
    colors.map_values(|c: (&str, usize, usize)| (c.0@, c.1, c.2))
}

proof fn lemma_lengths_total_monotone(colors: Seq<(&str, usize)>, i: int, j: int)
    requires
        0 <= i <= j <= colors.len(),
    ensures
        lengths_total(colors.take(i)) <= lengths_total(colors.take(j)),
        lengths_total(colors.take(colors.len() as int)) == lengths_total(colors),
    decreases j - i,
{
    assert(colors.take(colors.len() as int) =~= colors);
    if i < j {
        assert(colors.take(j).drop_last() =~= colors.take(j - 1));
        lemma_lengths_total_monotone(colors, i, j - 1);
    }
}

/// A hex table of a byte buffer with highlighted byte ranges, addresses from
/// zero and sixteen bytes a row. Every color it holds is one that termcolor
/// reads.
pub struct ColorHexView {
    data: Vec<u8>,
    spans: Vec<ColorSpan>,
    color_start: usize,
}

impl ColorHexView {
    #[verifier::type_invariant]
    spec fn well_formed(&self) -> bool {
        &&& self.data@.len() <= isize::MAX
        &&& forall|i: int|
            0 <= i < self.spans@.len() ==> termcolor_color_parses(#[trigger] self.spans@[i].color@)
    }

    pub closed spec fn spec_data(&self) -> Seq<u8> {
        self.data@
    }

    pub closed spec fn spec_spans(&self) -> Seq<(Seq<char>, usize, usize)> {
        spans_view(self.spans@)
    }

    pub closed spec fn spec_color_start(&self) -> usize {
        self.color_start
    }

    /// A table of `data` with the spans that `colors` lays end to end from
    /// byte zero.
    pub fn new(data: &[u8], colors: Vec<(&str, usize)>) -> (r: Result<Self, HexError>)
        requires
            data@.len() <= isize::MAX,
        ensures
            r is Ok <==> lengths_colors_parse(colors@) && lengths_total(colors@) <= usize::MAX,
            !lengths_colors_parse(colors@) <==> r == Err::<Self, HexError>(HexError::UnknownColor),
            lengths_colors_parse(colors@) && lengths_total(colors@) > usize::MAX <==> r == Err::<
                Self,
                HexError,
            >(HexError::RangeOverflow),
            r matches Ok(v) ==> v.spec_data() == data@ && v.spec_spans() == chained_spans(
                0,
                colors@,
            ) && v.spec_color_start() == lengths_total(colors@),
    {
        let empty = ColorHexView { data: slice_to_vec(data), spans: Vec::new(), color_start: 0 };
        proof {
            assert(spans_view(empty.spans@) =~= Seq::<(Seq<char>, usize, usize)>::empty());
        }
        let r = empty.add_colors(colors);
        proof {
            if r is Ok {
                assert(Seq::<(Seq<char>, usize, usize)>::empty() + chained_spans(0, colors@)
                    =~= chained_spans(0, colors@));
            }
        }
        r
    }

    /// The bytes shown.
    pub fn data(&self) -> (r: &Vec<u8>)
        ensures
            r@ == self.spec_data(),
    {
        &self.data
    }

    /// The highlighted spans, in the order they were added.
    pub fn spans(&self) -> (r: &Vec<ColorSpan>)
        ensures
            spans_view(r@) == self.spec_spans(),
    {
        &self.spans
    }

    /// Where the next span that `add_colors` lays begins.
    pub fn color_start(&self) -> (r: usize)
        ensures
            r == self.spec_color_start(),
    {
        self.color_start
    }

    /// Lays `colors` end to end after the spans laid so far: each entry
    /// `(color, len)` highlights the next `len` bytes.
    pub fn add_colors(self, colors: Vec<(&str, usize)>) -> (r: Result<Self, HexError>)
        ensures
            r is Ok <==> lengths_colors_parse(colors@) && self.spec_color_start() + lengths_total(
                colors@,
            ) <= usize::MAX,
            !lengths_colors_parse(colors@) <==> r == Err::<Self, HexError>(HexError::UnknownColor),
            lengths_colors_parse(colors@) && self.spec_color_start() + lengths_total(colors@)
                > usize::MAX <==> r == Err::<Self, HexError>(HexError::RangeOverflow),
            r matches Ok(v) ==> v.spec_data() == self.spec_data() && v.spec_spans()
                == self.spec_spans() + chained_spans(self.spec_color_start() as int, colors@)
                && v.spec_color_start() == self.spec_color_start() + lengths_total(colors@),
    {
        proof {
            use_type_invariant(&self);
        }
        let mut k: usize = 0;
        while k < colors.len()
            invariant
                k <= colors.len(),
                forall|i: int| 0 <= i < k ==> termcolor_color_parses(#[trigger] colors@[i].0@),
            decreases colors.len() - k,
        {
            if !color_name_parses(colors[k].0) {
                return Err(HexError::UnknownColor);
            }
            k = k + 1;
        }
        let ghost start0 = self.color_start as int;
        let ghost old_spans = spans_view(self.spans@);
        let ColorHexView { data, mut spans, color_start } = self;
        let mut start: usize = color_start;
        let mut i: usize = 0;
        while i < colors.len()
            invariant
                i <= colors.len(),
                lengths_colors_parse(colors@),
                start0 == self.color_start,
                old_spans == spans_view(self.spans@),
                data@ == self.data@,
                start == start0 + lengths_total(colors@.take(i as int)),
                spans_view(spans@) == old_spans + chained_spans(start0, colors@.take(i as int)),
                forall|j: int| 0 <= j < spans@.len() ==> termcolor_color_parses(#[trigger] spans@[j].color@),
            decreases colors.len() - i,
        {
            let (color, len) = colors[i];
            proof {
                assert(colors@.take(i + 1).drop_last() =~= colors@.take(i as int));
                assert(colors@.take(i + 1).last() == colors@[i as int]);
                assert(lengths_total(colors@.take(i + 1)) == lengths_total(colors@.take(i as int))
                    + len);
            }
            if len > usize::MAX - start {
                proof {
                    lemma_lengths_total_monotone(colors@, i + 1, colors@.len() as int);
                }
                return Err(HexError::RangeOverflow);
            }
            let end = start + len;
            let ghost before = spans@;
            spans.push(ColorSpan { color: color.to_owned(), start, end });
            proof {
                assert(spans_view(spans@) =~= spans_view(before).push((color@, start, end)));
                let next = colors@.take(i + 1);
                assert forall|j: int| 0 <= j < next.len() implies next.take(j) == colors@.take(j) by {
                    assert(next.take(j) =~= colors@.take(j));
                }
                assert(next.take(i + 1) =~= colors@.take(i + 1));
                let want = chained_spans(start0, next);
                let prev = chained_spans(start0, colors@.take(i as int));
                assert forall|j: int| 0 <= j < i implies #[trigger] want[j] == prev[j] by {
                    assert(next.take(j) == colors@.take(j));
                    assert(next.take(j + 1) == colors@.take(j + 1));
                    assert(colors@.take(i as int).take(j) =~= colors@.take(j));
                    assert(colors@.take(i as int).take(j + 1) =~= colors@.take(j + 1));
                }
                assert(want[i as int] == (color@, start, end));
                assert(spans_view(spans@) =~= old_spans + chained_spans(start0, next));
            }
            start = end;
            i = i + 1;
        }
        proof {
            assert(colors@.take(colors@.len() as int) =~= colors@);
        }
        Ok(ColorHexView { data, spans, color_start: start })
    }

    /// Adds spans at explicit ranges `(color, start, end)`; where the next
    /// `add_colors` begins is unchanged.
    pub fn add_colors_with_range(self, colors: Vec<(&str, usize, usize)>) -> (r: Result<Self, HexError>)
        ensures
            r is Ok <==> ranges_colors_parse(colors@) && forall|i: int|
                0 <= i < colors@.len() ==> (#[trigger] colors@[i]).1 <= colors@[i].2,
            !ranges_colors_parse(colors@) <==> r == Err::<Self, HexError>(HexError::UnknownColor),
            ranges_colors_parse(colors@) && (exists|i: int|
                0 <= i < colors@.len() && (#[trigger] colors@[i]).1 > colors@[i].2) <==> r == Err::<
                Self,
                HexError,
            >(HexError::MalformedRange),
            r matches Ok(v) ==> v.spec_data() == self.spec_data() && v.spec_spans()
                == self.spec_spans() + ranged_spans(colors@) && v.spec_color_start()
                == self.spec_color_start(),
    {
        proof {
            use_type_invariant(&self);
        }
        let mut k: usize = 0;
        while k < colors.len()
            invariant
                k <= colors.len(),
                forall|i: int| 0 <= i < k ==> termcolor_color_parses(#[trigger] colors@[i].0@),
            decreases colors.len() - k,
        {
            if !color_name_parses(colors[k].0) {
                return Err(HexError::UnknownColor);
            }
            k = k + 1;
        }
        let mut m: usize = 0;
        while m < colors.len()
            invariant
                m <= colors.len(),
                ranges_colors_parse(colors@),
                forall|i: int| 0 <= i < m ==> (#[trigger] colors@[i]).1 <= colors@[i].2,
            decreases colors.len() - m,
        {
            if colors[m].1 > colors[m].2 {
                assert(colors@[m as int].1 > colors@[m as int].2);
                return Err(HexError::MalformedRange);
            }
            m = m + 1;
        }
        let ghost old_spans = spans_view(self.spans@);
        let ColorHexView { data, mut spans, color_start } = self;
        let mut i: usize = 0;
        while i < colors.len()
            invariant
                i <= colors.len(),
                ranges_colors_parse(colors@),
                old_spans == spans_view(self.spans@),
                data@ == self.data@,
                color_start == self.color_start,
                spans_view(spans@) == old_spans + ranged_spans(colors@.take(i as int)),
                forall|j: int| 0 <= j < spans@.len() ==> termcolor_color_parses(#[trigger] spans@[j].color@),
            decreases colors.len() - i,
        {
            let (color, start, end) = colors[i];
            let ghost before = spans@;
            spans.push(ColorSpan { color: color.to_owned(), start, end });
            proof {
                assert(spans@ == before.push(spans@.last()));
                assert(spans_view(spans@) =~= spans_view(before).push((color@, start, end)));
                assert(ranged_spans(colors@.take(i + 1)) =~= ranged_spans(colors@.take(i as int)).push(
                    (color@, start, end),
                ));
                assert(spans_view(spans@) =~= old_spans + ranged_spans(colors@.take(i + 1)));
            }
            i = i + 1;
        }
        proof {
            assert(colors@.take(colors@.len() as int) =~= colors@);
        }
        Ok(ColorHexView { data, spans, color_start })
    }

    /// Renders the table with its spans highlighted by ANSI escapes.
    pub fn render(&self) -> (r: Result<String, HexError>)
        ensures
            r is Err <==> colored_hex_text(self.spec_data(), 0, 16, self.spec_spans()) is None,
            r matches Ok(s) ==> colored_hex_text(self.spec_data(), 0, 16, self.spec_spans()) == Some(s@),
            r matches Err(e) ==> e == HexError::Render,
    {
        proof {
            use_type_invariant(self);
        }
        match colored_hex_table(self.data.as_slice(), HEX_ADDRESS_OFFSET, HEX_ROW_WIDTH, &self.spans) {
            Some(s) => Ok(s),
            None => Err(HexError::Render),
        }
    }

    /// Emits the highlighted table at `Trace`; the table is rendered only
    /// when `Trace` passes the threshold.
    pub fn try_print<S: Sink>(&self, logger: &Logger<S>) -> (r: Result<Delivery, HexError>)
        ensures
            !logger.passes(Level::Trace) ==> r == Ok::<Delivery, HexError>(Delivery::Filtered),
            logger.passes(Level::Trace) ==> (r is Err <==> colored_hex_text(
                self.spec_data(),
                0,
                16,
                self.spec_spans(),
            ) is None),
            r matches Err(e) ==> e == HexError::Render,
            logger.passes(Level::Trace) ==> (r matches Ok(d) ==> routed(
                logger.verdict(Level::Trace, colored_hex_text(self.spec_data(), 0, 16, self.spec_spans())->0),
                colored_hex_text(self.spec_data(), 0, 16, self.spec_spans())->0,
                d,
            )),
    {
        if !logger.log_level_enabled(Level::Trace) {
            return Ok(Delivery::Filtered);
        }
        match self.render() {
            Ok(text) => Ok(logger.dispatch(Level::Trace, text)),
            Err(e) => Err(e),
        }
    }
}

/// A table of `data` with the spans that `colors` lays end to end from
/// byte zero.
pub fn format_hex_with_colors(data: &[u8], colors: Vec<(&str, usize)>) -> (r: Result<ColorHexView, HexError>)
    requires
        data@.len() <= isize::MAX,
    ensures
        r is Ok <==> lengths_colors_parse(colors@) && lengths_total(colors@) <= usize::MAX,
        !lengths_colors_parse(colors@) <==> r == Err::<ColorHexView, HexError>(HexError::UnknownColor),
        lengths_colors_parse(colors@) && lengths_total(colors@) > usize::MAX <==> r == Err::<
            ColorHexView,
            HexError,
        >(HexError::RangeOverflow),
        r matches Ok(v) ==> v.spec_data() == data@ && v.spec_spans() == chained_spans(0, colors@)
            && v.spec_color_start() == lengths_total(colors@),
{
    ColorHexView::new(data, colors)
}

} // verus!
