//! Writing styled regions as text with escape sequences.

use crate::escape::{Attribute, Directive};
use crate::palette::Color;
use crate::style::{FontStyle, Style, BOLD, ITALIC, UNDERLINE};
use vstd::prelude::*;

verus! {

/// A region asked for a foreground colour that the palette does not hold.
#[derive(Clone, Copy, Debug, PartialEq, Eq, Structural)]
pub struct UnrecognizedColorError {
    /// The place of the region among those handed in.
    pub index: usize,
    /// The colour that it asked for.
    pub color: Color,
}

/// The codes of `directives`, one after the other.
pub open spec fn codes(directives: Seq<Directive>) -> Seq<char>
    decreases directives.len(),
{
    if directives.len() == 0 {
        Seq::empty()
    } else {
        codes(directives.drop_last()) + directives.last().code()
    }
}

impl Style {
    /// Whether the palette holds the foreground colour.
    pub open spec fn recognized(self) -> bool {
        self.foreground.target().is_some()
    }

    /// The directives that open a region of this style, in the order in
    /// which they are sent: the colour, then one directive for each of bold,
    /// italic and underline, which sets the attribute or clears it.
    pub open spec fn opening(self) -> Seq<Directive>
        recommends
            self.recognized(),
    {
        seq![
            Directive::Foreground(self.foreground.target().unwrap()),
            Directive::switch(Attribute::Bold, self.font_style.has(Attribute::Bold)),
            Directive::switch(Attribute::Italic, self.font_style.has(Attribute::Italic)),
            Directive::switch(Attribute::Underline, self.font_style.has(Attribute::Underline)),
        ]
    }
}

/// What one region adds to the sink: its opening directives, its text as it
/// is, and a reset of everything.
pub open spec fn region_output(style: Style, text: Seq<char>) -> Seq<char>
    recommends
        style.recognized(),
{
    codes(style.opening()) + text + Directive::Reset.code()
}

/// What a run of regions adds to the sink: the output of each, in their
/// order.
pub open spec fn output(regions: Seq<(Style, &str)>) -> Seq<char>
    decreases regions.len(),
{
    if regions.len() == 0 {
        Seq::empty()
    } else {
        output(regions.drop_last()) + region_output(regions.last().0, regions.last().1@)
    }
}

/// Whether a sink that held `before` may hold `after` once `regions` were
/// written to it with the result `result`. With `Ok`, every colour is in the
/// palette and the whole output was added. With an error, it names the first
/// region whose colour is not, and the output of the regions before that one
/// was added.
pub open spec fn written(
    regions: Seq<(Style, &str)>,
    before: Seq<char>,
    after: Seq<char>,
    result: Result<(), UnrecognizedColorError>,
) -> bool {
    match result {
        Ok(_) => {
            &&& forall|i: int| 0 <= i < regions.len() ==> (#[trigger] regions[i]).0.recognized()
            &&& after == before + output(regions)
        },
        Err(error) => {
            &&& error.index < regions.len()
            &&& forall|i: int| 0 <= i < error.index ==> (#[trigger] regions[i]).0.recognized()
            &&& !regions[error.index as int].0.recognized()
            &&& error.color == regions[error.index as int].0.foreground
            &&& after == before + output(regions.take(error.index as int))
        },
    }
}

/// Appending one directive appends its code.
pub proof fn lemma_codes_push(directives: Seq<Directive>, directive: Directive)
    ensures
        codes(directives.push(directive)) == codes(directives) + directive.code(),
{
    assert(directives.push(directive).drop_last() =~= directives);
}

/// A region is laid out as: the colour of its foreground, then bold set or
/// cleared, then italic, then underline, then its text, then the reset.
pub proof fn lemma_region_layout(style: Style, text: Seq<char>)
    requires
        style.recognized(),
    ensures
        region_output(style, text) == Directive::Foreground(
            style.foreground.target().unwrap(),
        ).code() + Directive::switch(Attribute::Bold, style.font_style.is_bold()).code()
            + Directive::switch(Attribute::Italic, style.font_style.is_italic()).code()
            + Directive::switch(Attribute::Underline, style.font_style.is_underline()).code()
            + text + Directive::Reset.code(),
{
    let opening = style.opening();
    let none = Seq::<Directive>::empty();
    lemma_codes_push(none, opening[0]);
    lemma_codes_push(none.push(opening[0]), opening[1]);
    lemma_codes_push(none.push(opening[0]).push(opening[1]), opening[2]);
    lemma_codes_push(none.push(opening[0]).push(opening[1]).push(opening[2]), opening[3]);
    assert(opening =~= none.push(opening[0]).push(opening[1]).push(opening[2]).push(opening[3]));
    assert(codes(none) + opening[0].code() =~= opening[0].code());
}

/// Each of bold, italic and underline has exactly one directive among those
/// that open a region: the one that sets it where the font has the flag, the
/// one that clears it where it has not.
pub proof fn lemma_one_directive_per_attribute(style: Style, attribute: Attribute)
    ensures
        exists|i: int|
            0 <= i < style.opening().len() && (#[trigger] style.opening()[i]).attribute() == Some(
                attribute,
            ),
        forall|i: int, j: int|
            0 <= i < style.opening().len() && 0 <= j < style.opening().len() && (
            #[trigger] style.opening()[i]).attribute() == Some(attribute) && (
            #[trigger] style.opening()[j]).attribute() == Some(attribute) ==> i == j,
        forall|i: int|
            0 <= i < style.opening().len() && (#[trigger] style.opening()[i]).attribute() == Some(
                attribute,
            ) ==> style.opening()[i] == Directive::switch(
                attribute,
                style.font_style.has(attribute),
            ),
        forall|i: int|
            0 <= i < style.opening().len() ==> ((#[trigger] style.opening()[i]).sets()
                <==> style.opening()[i].attribute().is_some() && style.font_style.has(
                style.opening()[i].attribute().unwrap(),
            )),
{
    let opening = style.opening();
    let at: int = match attribute {
        Attribute::Bold => 1,
        Attribute::Italic => 2,
        Attribute::Underline => 3,
    };
    assert(opening[at].attribute() == Some(attribute));
}

/// The output of a run of one region is that region's output.
pub proof fn lemma_output_one(style: Style, text: &str)
    ensures
        output(seq![(style, text)]) == region_output(style, text@),
{
    let one = seq![(style, text)];
    assert(one.drop_last() =~= Seq::<(Style, &str)>::empty());
    assert(output(one.drop_last()) + region_output(style, text@) =~= region_output(style, text@));
}

/// Regions come out in the order in which they were handed in: the output
/// of two runs joined is the output of the first followed by that of the
/// second.
pub proof fn lemma_output_joined(first: Seq<(Style, &str)>, second: Seq<(Style, &str)>)
    ensures
        output(first + second) == output(first) + output(second),
    decreases second.len(),
{
    if second.len() == 0 {
        assert(first + second =~= first);
        assert(output(first) + output(second) =~= output(first));
    } else {
        let joined = first + second;
        lemma_output_joined(first, second.drop_last());
        assert(joined.drop_last() =~= first + second.drop_last());
        assert(joined.last() == second.last());
        let tail = region_output(second.last().0, second.last().1@);
        assert(output(first) + output(second.drop_last()) + tail =~= output(first) + (output(
            second.drop_last(),
        ) + tail));
    }
}

/// Writing is a function of the regions and of what the sink held: two
/// calls on the same regions, each into a sink with the same content, leave
/// the same content behind and return the same result.
pub proof fn lemma_written_once(
    regions: Seq<(Style, &str)>,
    before: Seq<char>,
    after: Seq<char>,
    result: Result<(), UnrecognizedColorError>,
    again: Seq<char>,
    result_again: Result<(), UnrecognizedColorError>,
)
    requires
        written(regions, before, after, result),
        written(regions, before, again, result_again),
    ensures
        after == again,
        result == result_again,
{
    match (result, result_again) {
        (Ok(unit), Ok(unit_again)) => {
            assert(unit == unit_again);
        },
        (Err(error), Err(other)) => {
            if error.index < other.index {
                assert(regions[error.index as int].0.recognized());
            }
            if other.index < error.index {
                assert(regions[other.index as int].0.recognized());
            }
        },
        (Ok(_), Err(other)) => {
            assert(regions[other.index as int].0.recognized());
        },
        (Err(error), Ok(_)) => {
            assert(regions[error.index as int].0.recognized());
        },
    }
}

/// A colour outside the palette is never passed over: the call fails exactly
/// when some region has such a colour, and no output of that region or of a
/// later one reaches the sink.
pub proof fn lemma_unrecognized_fails(
    regions: Seq<(Style, &str)>,
    before: Seq<char>,
    after: Seq<char>,
    result: Result<(), UnrecognizedColorError>,
    at: int,
)
    requires
        written(regions, before, after, result),
        0 <= at < regions.len(),
        !regions[at].0.recognized(),
    ensures
        result.is_err(),
        result.unwrap_err().index <= at,
        after == before + output(regions.take(result.unwrap_err().index as int)),
{
    if result.is_ok() {
        assert(regions[at].0.recognized());
    } else {
        let error = result.unwrap_err();
        if at < error.index {
            assert(regions[at].0.recognized());
        }
    }
}

/// Appends the escape sequence of `directive` to `sink`.
fn send(sink: &mut String, directive: Directive)
    ensures
        final(sink)@ == old(sink)@ + directive.code(),
{
    let text = directive.escape();
    sink.append(text.as_str());
}

/// Writes one region to `sink`, unless its colour is not in the palette:
/// then the colour comes back and the sink stays as it was.
pub fn write_region(sink: &mut String, style: Style, text: &str) -> (result: Result<(), Color>)
    ensures
        result.is_ok() <==> style.recognized(),
        result.is_ok() ==> final(sink)@ == old(sink)@ + region_output(style, text@),
        result.is_err() ==> final(sink)@ == old(sink)@ && result == Err::<(), Color>(
            style.foreground,
        ),
{
    let color = match style.foreground.ansi() {
        Some(color) => color,
        None => {
            return Err(style.foreground);
        },
    };
    let font = style.font_style;
    proof {
        font.lemma_holds_one();
    }
    let bold = if font.contains(FontStyle { bits: BOLD }) {
        Directive::Bold
    } else {
        Directive::NoBold
    };
    let italic = if font.contains(FontStyle { bits: ITALIC }) {
        Directive::Italic
    } else {
        Directive::NoItalic
    };
    let underline = if font.contains(FontStyle { bits: UNDERLINE }) {
        Directive::Underline
    } else {
        Directive::NoUnderline
    };
    send(sink, Directive::Foreground(color));
    send(sink, bold);
    send(sink, italic);
    send(sink, underline);
    sink.append(text);
    send(sink, Directive::Reset);
    proof {
        lemma_region_layout(style, text@);
        assert(sink@ =~= old(sink)@ + region_output(style, text@));
    }
    Ok(())
}

/// Writes `regions` to `sink` in their order, each as [`write_region`]
/// does. The first region whose colour the palette does not hold ends the
/// call: it is named in the error, and the sink holds the regions before it
/// and nothing of what follows.
pub fn write_as_ansi(sink: &mut String, regions: &[(Style, &str)]) -> (result: Result<
    (),
    UnrecognizedColorError,
>)
    ensures
        written(regions@, old(sink)@, final(sink)@, result),
{
    let mut index: usize = 0;
    while index < regions.len()
        invariant
            index <= regions@.len(),
            forall|i: int| 0 <= i < index ==> (#[trigger] regions@[i]).0.recognized(),
            sink@ == old(sink)@ + output(regions@.take(index as int)),
        decreases regions@.len() - index,
    {
        let (style, text) = regions[index];
        match write_region(sink, style, text) {
            Ok(_) => {},
            Err(color) => {
                return Err(UnrecognizedColorError { index, color });
            },
        }
        proof {
            let done = regions@.take(index + 1);
            assert(done.drop_last() =~= regions@.take(index as int));
            assert(done.last() == regions@[index as int]);
            assert(sink@ =~= old(sink)@ + output(done));
        }
        index += 1;
    }
    assert(regions@.take(index as int) =~= regions@);
    Ok(())
}

} // verus!
