//! The fixed set of terminal colors a status label can take, and the
//! rendering of a label into a string with the matching escape sequences.

use vstd::prelude::*;

verus! {

/// Cargo terminal colors.
#[derive(Copy, Clone)]
pub enum CargoColor {
    Green,
    Cyan,
    Yellow,
    Red,
    White,
    Black,
}

impl Default for CargoColor {
    /// The default status color is white.
    fn default() -> (r: Self)
        ensures
            r is White,
    {
        CargoColor::White
    }
}

/// The two-digit terminal color code of each color. Yellow and red use the
/// bright variants, as cargo's own warning and error lines do.
pub open spec fn spec_color_code(c: CargoColor) -> Seq<char> {
    match c {
        CargoColor::Green => seq!['3', '2'],
        CargoColor::Cyan => seq!['3', '6'],
        CargoColor::Yellow => seq!['9', '3'],
        CargoColor::Red => seq!['9', '1'],
        CargoColor::White => seq!['3', '7'],
        CargoColor::Black => seq!['3', '0'],
    }
}

/// The escape sequence that opens a colored span: `ESC [`, then `1;` when the
/// span is bold, then the color code, then `m`.
pub open spec fn spec_color_prefix(c: CargoColor, bold: bool) -> Seq<char> {
    seq!['\u{1b}', '['] + (if bold {
        seq!['1', ';']
    } else {
        Seq::<char>::empty()
    }) + spec_color_code(c) + seq!['m']
}

/// The escape sequence that closes a colored span.
pub open spec fn spec_reset() -> Seq<char> {
    seq!['\u{1b}', '[', '0', 'm']
}

/// A rendered label: the color prefix, the raw text, then the reset sequence.
/// The bold marker, when present, sits inside the color prefix, so the whole
/// wrapping is a single opening sequence and a single reset.
pub open spec fn spec_render(c: CargoColor, bold: bool, text: Seq<char>) -> Seq<char> {
    spec_color_prefix(c, bold) + text + spec_reset()
}

/// Renders `text` wrapped in the escape sequences for `color`, with the bold
/// marker added when `bold` is set.
pub fn color_str(color: CargoColor, bold: bool, text: &str) -> (r: String)
    ensures
        r@ == spec_render(color, bold, text@),
{
    proof {
        reveal_strlit("\u{1b}[");
        reveal_strlit("1;");
        reveal_strlit("m");
        reveal_strlit("\u{1b}[0m");
        reveal_strlit("32");
        reveal_strlit("36");
        reveal_strlit("93");
        reveal_strlit("91");
        reveal_strlit("37");
        reveal_strlit("30");
    }
    let mut s = "\u{1b}[".to_owned();
    if bold {
        s.append("1;");
    }
    match color {
        CargoColor::Green => s.append("32"),
        CargoColor::Cyan => s.append("36"),
        CargoColor::Yellow => s.append("93"),
        CargoColor::Red => s.append("91"),
        CargoColor::White => s.append("37"),
        CargoColor::Black => s.append("30"),
    }
    s.append("m");
    s.append(text);
    s.append("\u{1b}[0m");
    proof {
        assert(s@ =~= spec_render(color, bold, text@));
    }
    s
}

/// Rendering a non-empty label always opens with exactly the color's escape
/// prefix and closes with exactly the reset sequence, whatever the text is.
pub proof fn lemma_render_framing(c: CargoColor, bold: bool, text: Seq<char>)
    requires
        text.len() > 0,
    ensures
        spec_render(c, bold, text).len() == spec_color_prefix(c, bold).len() + text.len()
            + spec_reset().len(),
        spec_render(c, bold, text).take(spec_color_prefix(c, bold).len() as int)
            == spec_color_prefix(c, bold),
        spec_render(c, bold, text).skip(
            spec_render(c, bold, text).len() - spec_reset().len(),
        ) == spec_reset(),
{
    assert(spec_render(c, bold, text).take(spec_color_prefix(c, bold).len() as int)
        =~= spec_color_prefix(c, bold));
    assert(spec_render(c, bold, text).skip(
        spec_render(c, bold, text).len() - spec_reset().len(),
    ) =~= spec_reset());
}

} // verus!
