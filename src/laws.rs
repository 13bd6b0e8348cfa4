//! What holds of every style and every text, stated over the models that the
//! serializer's contracts use.

use vstd::prelude::*;

use crate::ansi::{
    attribute_codes, code_if, join_codes, lemma_join_push, painted, prefix_of, reset_chars, separator,
    style_codes, suffix_of,
};
use crate::colour::{bg_code, fg_code, is_basic, Colour};
use crate::style::{spec_is_plain, Style};

verus! {

/// Painting text in a plain style gives back the text itself, without a
/// single escape character.
pub proof fn lemma_plain_paints_text(s: Style, t: Seq<char>)
    requires
        spec_is_plain(s),
    ensures
        painted(s, t) == t,
        prefix_of(s).len() == 0,
        suffix_of(s).len() == 0,
{
    assert(painted(s, t) =~= t);
}

/// Painting text in a style that is not plain gives the prefix, `ESC [`, the
/// codes joined by semicolons and `m`, then the text unchanged, then the
/// reset sequence `ESC [ 0 m`.
pub proof fn lemma_styled_paints_framed_text(s: Style, t: Seq<char>)
    requires
        !spec_is_plain(s),
    ensures
        painted(s, t) == prefix_of(s) + t + reset_chars(),
        prefix_of(s) == seq!['\x1B', '['] + join_codes(style_codes(s)) + seq!['m'],
        reset_chars() == seq!['\x1B', '[', '0', 'm'],
{
}

/// Setting bold and underline gives the same style, and so the same
/// prefix, in either order.
pub proof fn lemma_bold_underline_commute(s: Style)
    ensures
        (Style { is_underline: true, ..Style { is_bold: true, ..s } }) == (Style {
            is_bold: true,
            ..Style { is_underline: true, ..s }
        }),
        prefix_of(Style { is_underline: true, ..Style { is_bold: true, ..s } }) == prefix_of(
            Style { is_bold: true, ..Style { is_underline: true, ..s } },
        ),
{
}

/// Every code of `codes` is one character below `bound`, and each is below
/// the codes after it.
pub open spec fn ascending_below(codes: Seq<Seq<char>>, bound: char) -> bool {
    &&& forall|i: int|
        0 <= i < codes.len() ==> (#[trigger] codes[i]).len() == 1 && codes[i][0] < bound
    &&& forall|i: int, j: int|
        0 <= i < j < codes.len() ==> (#[trigger] codes[i])[0] < (#[trigger] codes[j])[0]
}

/// Adding a code below `next` to codes below it keeps them ascending.
proof fn lemma_ascending_step(a: Seq<Seq<char>>, b: bool, x: char, next: char)
    requires
        ascending_below(a, x),
        x < next,
    ensures
        ascending_below(a + code_if(b, seq![x]), next),
{
    let r = a + code_if(b, seq![x]);
    assert forall|i: int| 0 <= i < r.len() implies (#[trigger] r[i]).len() == 1 && r[i][0] < next by {
        if i >= a.len() {
            assert(r[i] == seq![x]);
        }
    }
    assert forall|i: int, j: int| 0 <= i < j < r.len() implies (#[trigger] r[i])[0] < (
    #[trigger] r[j])[0] by {
        if j >= a.len() {
            assert(r[j] == seq![x]);
            assert(r[i] == a[i]);
        } else {
            assert(r[i] == a[i] && r[j] == a[j]);
        }
    }
}

/// Whatever the order of construction, the attribute codes come in one
/// fixed order: each is one character, and below every code after it.
pub proof fn lemma_attribute_codes_ascend(s: Style)
    ensures
        ascending_below(attribute_codes(s), ':'),
{
    let empty: Seq<Seq<char>> = seq![];
    lemma_ascending_step(empty, s.is_bold, '1', '2');
    let a1 = code_if(s.is_bold, seq!['1']);
    assert(empty + a1 =~= a1);
    lemma_ascending_step(a1, s.is_dimmed, '2', '3');
    let a2 = a1 + code_if(s.is_dimmed, seq!['2']);
    lemma_ascending_step(a2, s.is_italic, '3', '4');
    let a3 = a2 + code_if(s.is_italic, seq!['3']);
    lemma_ascending_step(a3, s.is_underline, '4', '5');
    let a4 = a3 + code_if(s.is_underline, seq!['4']);
    lemma_ascending_step(a4, s.is_blink, '5', '7');
    let a5 = a4 + code_if(s.is_blink, seq!['5']);
    lemma_ascending_step(a5, s.is_reverse, '7', '8');
    let a6 = a5 + code_if(s.is_reverse, seq!['7']);
    lemma_ascending_step(a6, s.is_hidden, '8', '9');
    let a7 = a6 + code_if(s.is_hidden, seq!['8']);
    lemma_ascending_step(a7, s.is_strikethrough, '9', ':');
}

/// When both colours are set, the background code comes right before the
/// foreground code, and both come after the attribute codes.
pub proof fn lemma_background_before_foreground(s: Style, bg: Colour, fg: Colour)
    requires
        s.background == Some(bg),
        s.foreground == Some(fg),
    ensures
        style_codes(s) == attribute_codes(s).push(bg_code(bg)).push(fg_code(fg)),
        prefix_of(s) == seq!['\x1B', '['] + join_codes(attribute_codes(s)) + separator(
            attribute_codes(s).len() > 0,
        ) + bg_code(bg) + seq![';'] + fg_code(fg) + seq!['m'],
{
    let a = attribute_codes(s);
    assert(style_codes(s) =~= a.push(bg_code(bg)).push(fg_code(fg)));
    lemma_join_push(a, bg_code(bg));
    lemma_join_push(a.push(bg_code(bg)), fg_code(fg));
    assert(prefix_of(s) =~= seq!['\x1B', '['] + join_codes(a) + separator(a.len() > 0) + bg_code(
        bg,
    ) + seq![';'] + fg_code(fg) + seq!['m']);
}

/// A basic colour's code is two characters, `3x` or `4x` with `x` from `0`
/// to `7`; a palette or true colour's code begins with `38;` or `48;`. So
/// the two kinds of code never meet.
pub proof fn lemma_extended_codes_distinct(c: Colour, d: Colour)
    requires
        !is_basic(c),
        is_basic(d),
    ensures
        fg_code(c).len() > 3,
        fg_code(c).subrange(0, 3) == seq!['3', '8', ';'],
        bg_code(c).len() > 3,
        bg_code(c).subrange(0, 3) == seq!['4', '8', ';'],
        fg_code(d).len() == 2,
        fg_code(d)[0] == '3',
        '0' <= fg_code(d)[1] <= '7',
        bg_code(d).len() == 2,
        bg_code(d)[0] == '4',
        '0' <= bg_code(d)[1] <= '7',
        fg_code(c) != fg_code(d),
        fg_code(c) != bg_code(d),
        bg_code(c) != fg_code(d),
        bg_code(c) != bg_code(d),
{
    assert(fg_code(c).subrange(0, 3) =~= seq!['3', '8', ';']);
    assert(bg_code(c).subrange(0, 3) =~= seq!['4', '8', ';']);
}

} // verus!
