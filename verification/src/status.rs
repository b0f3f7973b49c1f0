//! The `Status` builder: a short label with justification, bold and color
//! flags, rendered and written together with a message as one output line.

use vstd::prelude::*;

use crate::color::CargoColor;
use crate::color::color_str;
use crate::color::spec_render;
use crate::stream::CarlogStream;
use crate::stream::IoError;
use crate::stream::stderr_flush;
use crate::stream::stderr_write;
use crate::stream::stdout_flush;
use crate::stream::stdout_write;

verus! {

/// The column width a justified label is padded to.
pub const JUSTIFY_WIDTH: usize = 12;

/// A run of `n` space characters.
pub open spec fn spec_spaces(n: nat) -> Seq<char> {
    Seq::new(n, |i: int| ' ')
}

/// The number of padding spaces before a label of `len` characters: enough
/// to bring it up to the fixed column width when justification is on, and
/// none when it is off or the label already fills the column.
pub open spec fn spec_pad_width(justify: bool, len: nat) -> nat {
    if justify && len < JUSTIFY_WIDTH {
        (JUSTIFY_WIDTH - len) as nat
    } else {
        0
    }
}

/// A whole output line: the padding, the rendered label, the message with no
/// separator, and a newline.
pub open spec fn spec_line(
    justify: bool,
    bold: bool,
    color: CargoColor,
    status: Seq<char>,
    msg: Seq<char>,
) -> Seq<char> {
    spec_spaces(spec_pad_width(justify, status.len())) + spec_render(color, bold, status) + msg
        + seq!['\n']
}

/// A run of `n` spaces as a string.
fn spaces(n: usize) -> (r: String)
    ensures
        r@ == spec_spaces(n as nat),
{
    let mut s = String::new();
    proof {
        assert(s@ =~= spec_spaces(0));
    }
    let mut i: usize = 0;
    while i < n
        invariant
            i <= n,
            s@ == spec_spaces(i as nat),
        decreases n - i,
    {
        s.append(" ");
        i = i + 1;
        proof {
            reveal_strlit(" ");
            assert(s@ =~= spec_spaces(i as nat));
        }
    }
    s
}

/// A cargo-style status label and its formatting flags, built fluently and
/// consumed by one print call.
pub struct Status {
    /// Pad the raw label to the fixed column width before printing.
    pub justify: bool,
    /// Render the label bold.
    pub bold: bool,
    /// The color the label is rendered in.
    pub color: CargoColor,
    /// The label text itself.
    pub status: String,
}

impl Default for Status {
    /// A fresh status: not justified, not bold, white, with an empty label.
    fn default() -> (r: Self)
        ensures
            !r.justify,
            !r.bold,
            r.color is White,
            r.status@ == Seq::<char>::empty(),
    {
        Status { justify: false, bold: false, color: CargoColor::White, status: String::new() }
    }
}

impl Status {
    /// Creates a new status: not justified, not bold, white, empty label.
    pub fn new() -> (r: Self)
        ensures
            !r.justify,
            !r.bold,
            r.color is White,
            r.status@ == Seq::<char>::empty(),
    {
        Status::default()
    }

    /// Turns justification on; everything else is kept.
    pub fn justify(self) -> (r: Self)
        ensures
            r.justify,
            r.bold == self.bold,
            r.color == self.color,
            r.status == self.status,
    {
        Status { justify: true, ..self }
    }

    /// Turns bold rendering on; everything else is kept.
    pub fn bold(self) -> (r: Self)
        ensures
            r.bold,
            r.justify == self.justify,
            r.color == self.color,
            r.status == self.status,
    {
        Status { bold: true, ..self }
    }

    /// Sets the label color; everything else is kept.
    pub fn color(self, color: CargoColor) -> (r: Self)
        ensures
            r.color == color,
            r.justify == self.justify,
            r.bold == self.bold,
            r.status == self.status,
    {
        Status { color, ..self }
    }

    /// Sets the label text; everything else is kept.
    pub fn status(self, text: &str) -> (r: Self)
        ensures
            r.status@ == text@,
            r.justify == self.justify,
            r.bold == self.bold,
            r.color == self.color,
    {
        Status { status: text.to_owned(), ..self }
    }

    /// The exact line this status writes for a given message.
    pub open spec fn spec_output(&self, msg: Seq<char>) -> Seq<char> {
        spec_line(self.justify, self.bold, self.color, self.status@, msg)
    }

    /// Builds the full output line for `msg`: padding when justified, then
    /// the rendered label, then the message and a newline.
    pub fn render_line(&self, msg: &str) -> (r: String)
        ensures
            r@ == self.spec_output(msg@),
    {
        let width: usize = if self.justify {
            let len = self.status.as_str().unicode_len();
            if len < JUSTIFY_WIDTH {
                JUSTIFY_WIDTH - len
            } else {
                0
            }
        } else {
            0
        };
        let mut out = spaces(width);
        let rendered = color_str(self.color, self.bold, self.status.as_str());
        out.append(rendered.as_str());
        out.append(msg);
        out.append("\n");
        proof {
            reveal_strlit("\n");
            assert(out@ =~= self.spec_output(msg@));
        }
        out
    }

    /// Writes the line for `msg` to the chosen stream and flushes it. A
    /// capture buffer always succeeds and grows by exactly the line; the
    /// standard streams keep their variant and may fail with an I/O error.
    pub fn print(self, stream: &mut CarlogStream, msg: &str) -> (r: Result<(), IoError>)
        ensures
            *old(stream) is Custom ==> {
                &&& r is Ok
                &&& *final(stream) is Custom
                &&& (*final(stream))->Custom_0@ == (*old(stream))->Custom_0@ + self.spec_output(
                    msg@,
                )
            },
            *old(stream) is Stdout ==> *final(stream) is Stdout,
            *old(stream) is Stderr ==> *final(stream) is Stderr,
    {
        let line = self.render_line(msg);
        match stream {
            CarlogStream::Stdout => {
                match stdout_write(line.as_str()) {
                    Ok(_) => stdout_flush(),
                    Err(e) => Err(e),
                }
            },
            CarlogStream::Stderr => {
                match stderr_write(line.as_str()) {
                    Ok(_) => stderr_flush(),
                    Err(e) => Err(e),
                }
            },
            CarlogStream::Custom(buf) => {
                buf.append(line.as_str());
                Ok(())
            },
        }
    }

    /// Writes the line for `msg` to standard output and flushes it.
    pub fn print_stdout(self, msg: &str) -> (r: Result<(), IoError>) {
        let mut stream = CarlogStream::Stdout;
        self.print(&mut stream, msg)
    }

    /// Writes the line for `msg` to standard error and flushes it.
    pub fn print_stderr(self, msg: &str) -> (r: Result<(), IoError>) {
        let mut stream = CarlogStream::Stderr;
        self.print(&mut stream, msg)
    }
}

/// Justified padding is exact: a label of `len` ≤ 12 characters gets
/// 12 − `len` spaces, a longer label gets none, and the padding consists of
/// space characters only.
pub proof fn lemma_pad_width(len: nat)
    ensures
        len <= JUSTIFY_WIDTH ==> spec_pad_width(true, len) == JUSTIFY_WIDTH - len,
        len > JUSTIFY_WIDTH ==> spec_pad_width(true, len) == 0,
        spec_spaces(spec_pad_width(true, len)).len() == spec_pad_width(true, len),
        forall|i: int|
            0 <= i < spec_pad_width(true, len) ==> spec_spaces(spec_pad_width(true, len))[i]
                == ' ',
{
}

/// Output is a function of the configuration alone: two statuses with the
/// same flags, color and label text write identical lines for the same
/// message, wherever they are sent.
pub proof fn lemma_output_depends_on_config(a: Status, b: Status, msg: Seq<char>)
    requires
        a.justify == b.justify,
        a.bold == b.bold,
        a.color == b.color,
        a.status@ == b.status@,
    ensures
        a.spec_output(msg) == b.spec_output(msg),
{
}

} // verus!
