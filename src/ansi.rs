//! The escape sequences written before and after a piece of styled text.

use vstd::prelude::*;
use vstd::string::*;

use crate::colour::{bg_code, fg_code, Colour};
use crate::style::{plain_style, spec_is_plain, Style};

verus! {

/// The sequence that resets every attribute and colour to the default.
pub const RESET: &'static str = "\x1B[0m";

/// The characters of `RESET`.
pub open spec fn reset_chars() -> Seq<char> {
    seq!['\x1B', '[', '0', 'm']
}

/// `x` alone when `b` holds; no code otherwise.
pub open spec fn code_if(b: bool, x: Seq<char>) -> Seq<Seq<char>> {
    if b {
        seq![x]
    } else {
        seq![]
    }
}

/// The background code of `c`, or no code when `c` is unset.
pub open spec fn bg_slot_codes(c: Option<Colour>) -> Seq<Seq<char>> {
    match c {
        Some(c) => seq![bg_code(c)],
        None => seq![],
    }
}

/// The foreground code of `c`, or no code when `c` is unset.
pub open spec fn fg_slot_codes(c: Option<Colour>) -> Seq<Seq<char>> {
    match c {
        Some(c) => seq![fg_code(c)],
        None => seq![],
    }
}

/// The attribute codes of style `s`, in their fixed order.
pub open spec fn attribute_codes(s: Style) -> Seq<Seq<char>> {
    code_if(s.is_bold, seq!['1']) + code_if(s.is_dimmed, seq!['2']) + code_if(
        s.is_italic,
        seq!['3'],
    ) + code_if(s.is_underline, seq!['4']) + code_if(s.is_blink, seq!['5']) + code_if(
        s.is_reverse,
        seq!['7'],
    ) + code_if(s.is_hidden, seq!['8']) + code_if(s.is_strikethrough, seq!['9'])
}

/// The codes that select style `s`, in the order in which they are written:
/// the attributes, then the background, then the foreground.
pub open spec fn style_codes(s: Style) -> Seq<Seq<char>> {
    attribute_codes(s) + bg_slot_codes(s.background) + fg_slot_codes(s.foreground)
}

/// The codes of `codes` joined by semicolons.
#[verifier::opaque]
pub open spec fn join_codes(codes: Seq<Seq<char>>) -> Seq<char>
    decreases codes.len(),
{
    if codes.len() == 0 {
        seq![]
    } else if codes.len() == 1 {
        codes[0]
    } else {
        join_codes(codes.drop_last()) + seq![';'] + codes.last()
    }
}

/// What goes before text in style `s`: nothing for the plain style, else
/// `ESC [`, the codes of `s` joined by semicolons, and `m`.
pub open spec fn prefix_of(s: Style) -> Seq<char> {
    if spec_is_plain(s) {
        seq![]
    } else {
        seq!['\x1B', '['] + join_codes(style_codes(s)) + seq!['m']
    }
}

/// What goes after text in style `s`: nothing for the plain style, else the
/// reset sequence.
pub open spec fn suffix_of(s: Style) -> Seq<char> {
    if spec_is_plain(s) {
        seq![]
    } else {
        reset_chars()
    }
}

/// Text `t` painted in style `s`.
pub open spec fn painted(s: Style, t: Seq<char>) -> Seq<char> {
    prefix_of(s) + t + suffix_of(s)
}

/// The delimiter written before a code: a semicolon once something was written.
pub open spec fn separator(written: bool) -> Seq<char> {
    if written {
        seq![';']
    } else {
        seq![]
    }
}

/// Joining one more code adds the delimiter, unless it is the first, and the code.
pub proof fn lemma_join_push(codes: Seq<Seq<char>>, x: Seq<char>)
    ensures
        join_codes(codes.push(x)) == join_codes(codes) + separator(codes.len() > 0) + x,
{
    reveal(join_codes);
    assert(codes.push(x).drop_last() =~= codes);
    if codes.len() == 0 {
        assert(join_codes(codes) + separator(false) + x =~= x);
    }
}

/// Appends `code`, after a semicolon when something was written already.
fn write_code(f: &mut String, written: bool, code: &str)
    ensures
        final(f)@ == old(f)@ + separator(written) + code@,
{
    write_separator(f, written);
    f.append(code);
}

/// Appends a semicolon when something was written already.
fn write_separator(f: &mut String, written: bool)
    ensures
        final(f)@ == old(f)@ + separator(written),
{
    proof {
        reveal_strlit(";");
    }
    let ghost start = f@;
    if written {
        f.append(";");
    }
    assert(f@ =~= start + separator(written));
}

/// Adding the code that a flag gives to a list pushes it when the flag is set.
proof fn lemma_add_code_if(done: Seq<Seq<char>>, b: bool, x: Seq<char>)
    ensures
        done + code_if(b, x) == (if b {
            done.push(x)
        } else {
            done
        }),
{
    assert(done + code_if(b, x) =~= (if b {
        done.push(x)
    } else {
        done
    }));
}

/// A style writes some code exactly when it is not plain.
pub proof fn lemma_codes_empty_iff_plain(s: Style)
    ensures
        style_codes(s).len() == 0 <==> spec_is_plain(s),
{
    assert(style_codes(s).len() == code_if(s.is_bold, seq!['1']).len() + code_if(
        s.is_dimmed,
        seq!['2'],
    ).len() + code_if(s.is_italic, seq!['3']).len() + code_if(s.is_underline, seq!['4']).len()
        + code_if(s.is_blink, seq!['5']).len() + code_if(s.is_reverse, seq!['7']).len()
        + code_if(s.is_hidden, seq!['8']).len() + code_if(s.is_strikethrough, seq!['9']).len()
        + bg_slot_codes(s.background).len() + fg_slot_codes(s.foreground).len());
}

/// No codes join to nothing.
proof fn lemma_join_empty()
    ensures
        join_codes(seq![]) == Seq::<char>::empty(),
{
    reveal(join_codes);
}

/// Appends `code` when `on` holds, as the next of the codes joined after
/// `csi`. Returns whether any code has been written.
fn write_flag(
    f: &mut String,
    on: bool,
    written: bool,
    code: &str,
    Ghost(csi): Ghost<Seq<char>>,
    Ghost(done): Ghost<Seq<Seq<char>>>,
) -> (w: bool)
    requires
        old(f)@ == csi + join_codes(done),
        written == (done.len() > 0),
    ensures
        final(f)@ == csi + join_codes(done + code_if(on, code@)),
        w == ((done + code_if(on, code@)).len() > 0),
{
    proof {
        lemma_add_code_if(done, on, code@);
    }
    if on {
        write_code(f, written, code);
        proof {
            lemma_join_push(done, code@);
        }
        true
    } else {
        written
    }
}

/// Appends the code of the background colour, when one is set, as the next
/// of the codes joined after `csi`. Returns whether any code has been written.
fn write_background_slot(
    f: &mut String,
    slot: Option<Colour>,
    written: bool,
    Ghost(csi): Ghost<Seq<char>>,
    Ghost(done): Ghost<Seq<Seq<char>>>,
) -> (w: bool)
    requires
        old(f)@ == csi + join_codes(done),
        written == (done.len() > 0),
    ensures
        final(f)@ == csi + join_codes(done + bg_slot_codes(slot)),
        w == ((done + bg_slot_codes(slot)).len() > 0),
{
    if let Some(bg) = slot {
        assert(done + bg_slot_codes(slot) =~= done.push(bg_code(bg)));
        write_separator(f, written);
        bg.write_background_code(f);
        proof {
            lemma_join_push(done, bg_code(bg));
            assert(f@ =~= csi + join_codes(done.push(bg_code(bg))));
        }
        true
    } else {
        assert(done + bg_slot_codes(slot) =~= done);
        written
    }
}

/// Appends the code of the foreground colour, when one is set, as the next
/// of the codes joined after `csi`. Returns whether any code has been written.
fn write_foreground_slot(
    f: &mut String,
    slot: Option<Colour>,
    written: bool,
    Ghost(csi): Ghost<Seq<char>>,
    Ghost(done): Ghost<Seq<Seq<char>>>,
) -> (w: bool)
    requires
        old(f)@ == csi + join_codes(done),
        written == (done.len() > 0),
    ensures
        final(f)@ == csi + join_codes(done + fg_slot_codes(slot)),
        w == ((done + fg_slot_codes(slot)).len() > 0),
{
    if let Some(fg) = slot {
        assert(done + fg_slot_codes(slot) =~= done.push(fg_code(fg)));
        write_separator(f, written);
        fg.write_foreground_code(f);
        proof {
            lemma_join_push(done, fg_code(fg));
            assert(f@ =~= csi + join_codes(done.push(fg_code(fg))));
        }
        true
    } else {
        assert(done + fg_slot_codes(slot) =~= done);
        written
    }
}

/// The views of the one-digit attribute codes.
proof fn lemma_attribute_literals()
    ensures
        "1"@ == seq!['1'],
        "2"@ == seq!['2'],
        "3"@ == seq!['3'],
        "4"@ == seq!['4'],
        "5"@ == seq!['5'],
        "7"@ == seq!['7'],
        "8"@ == seq!['8'],
        "9"@ == seq!['9'],
{
    reveal_strlit("1");
    reveal_strlit("2");
    reveal_strlit("3");
    reveal_strlit("4");
    reveal_strlit("5");
    reveal_strlit("7");
    reveal_strlit("8");
    reveal_strlit("9");
    assert("1"@ =~= seq!['1']);
    assert("2"@ =~= seq!['2']);
    assert("3"@ =~= seq!['3']);
    assert("4"@ =~= seq!['4']);
    assert("5"@ =~= seq!['5']);
    assert("7"@ =~= seq!['7']);
    assert("8"@ =~= seq!['8']);
    assert("9"@ =~= seq!['9']);
}

impl Style {
    /// Appends the codes of this style joined by semicolons. Returns whether
    /// any code was written.
    fn write_codes(&self, f: &mut String) -> (r: bool)
        ensures
            final(f)@ == old(f)@ + join_codes(style_codes(*self)),
            r == (style_codes(*self).len() > 0),
    {
        proof {
            lemma_attribute_literals();
        }
        let ghost csi = f@;
        let mut written = false;
        let ghost mut done: Seq<Seq<char>> = seq![];
        proof {
            lemma_join_empty();
            assert(f@ =~= csi + join_codes(done));
        }
        written = write_flag(f, self.is_bold, written, "1", Ghost(csi), Ghost(done));
        proof {
            assert(done + code_if(self.is_bold, seq!['1']) =~= code_if(self.is_bold, seq!['1']));
            done = code_if(self.is_bold, seq!['1']);
        }
        written = write_flag(f, self.is_dimmed, written, "2", Ghost(csi), Ghost(done));
        proof {
            done = done + code_if(self.is_dimmed, seq!['2']);
        }
        written = write_flag(f, self.is_italic, written, "3", Ghost(csi), Ghost(done));
        proof {
            done = done + code_if(self.is_italic, seq!['3']);
        }
        written = write_flag(f, self.is_underline, written, "4", Ghost(csi), Ghost(done));
        proof {
            done = done + code_if(self.is_underline, seq!['4']);
        }
        written = write_flag(f, self.is_blink, written, "5", Ghost(csi), Ghost(done));
        proof {
            done = done + code_if(self.is_blink, seq!['5']);
        }
        written = write_flag(f, self.is_reverse, written, "7", Ghost(csi), Ghost(done));
        proof {
            done = done + code_if(self.is_reverse, seq!['7']);
        }
        written = write_flag(f, self.is_hidden, written, "8", Ghost(csi), Ghost(done));
        proof {
            done = done + code_if(self.is_hidden, seq!['8']);
        }
        written = write_flag(f, self.is_strikethrough, written, "9", Ghost(csi), Ghost(done));
        proof {
            done = done + code_if(self.is_strikethrough, seq!['9']);
        }
        assert(done == attribute_codes(*self));
        // The colours come last, background first.
        written = write_background_slot(f, self.background, written, Ghost(csi), Ghost(done));
        proof {
            done = done + bg_slot_codes(self.background);
        }
        written = write_foreground_slot(f, self.foreground, written, Ghost(csi), Ghost(done));
        proof {
            done = done + fg_slot_codes(self.foreground);
        }
        assert(done == style_codes(*self));
        written
    }

    /// Appends what goes before text in this style: nothing when the style is
    /// plain, else the escape sequence that selects it. Returns whether a
    /// sequence was written.
    pub fn write_prefix(&self, f: &mut String) -> (r: bool)
        ensures
            final(f)@ == old(f)@ + prefix_of(*self),
            r == !spec_is_plain(*self),
    {
        let ghost start = f@;
        if self.is_plain() {
            assert(f@ =~= start + prefix_of(*self));
            return false;
        }
        proof {
            reveal_strlit("\x1B[");
            reveal_strlit("m");
            lemma_codes_empty_iff_plain(*self);
        }
        f.append("\x1B[");
        let written = self.write_codes(f);
        f.append("m");
        assert(f@ =~= start + prefix_of(*self));
        written
    }

    /// Appends what goes after text in this style: nothing when the style is
    /// plain, else the reset sequence.
    pub fn write_suffix(&self, f: &mut String)
        ensures
            final(f)@ == old(f)@ + suffix_of(*self),
    {
        proof {
            reveal_strlit("\x1B[0m");
        }
        let ghost start = f@;
        if !self.is_plain() {
            f.append(RESET);
        }
        assert(f@ =~= start + suffix_of(*self));
    }

    /// Text `text` painted in this style: the prefix, the text unchanged, and
    /// the suffix.
    pub fn paint(&self, text: &str) -> (r: String)
        ensures
            r@ == painted(*self, text@),
    {
        let mut f = String::new();
        self.write_prefix(&mut f);
        f.append(text);
        self.write_suffix(&mut f);
        assert(f@ =~= painted(*self, text@));
        f
    }
}

impl Colour {
    /// Text `text` painted in this foreground colour and nothing else.
    pub fn paint(self, text: &str) -> (r: String)
        ensures
            r@ == painted(Style { foreground: Some(self), ..plain_style() }, text@),
    {
        self.normal().paint(text)
    }
}

} // verus!
