//! The writer of one package's file: text with indentation and blank lines.

use vstd::prelude::*;
use vstd::string::*;

verus! {

/// The state of a package writer: the text written so far, what is owed
/// before the next text, and the current indentation.
pub struct WriterState {
    /// The text written so far.
    pub out: Seq<char>,
    /// Whether a blank line is owed before the next text.
    pub needs_nl: bool,
    /// Whether the next text starts a line and so is to be indented.
    pub needs_indent: bool,
    /// The indentation of a line.
    pub indent: Seq<char>,
}

/// The state after `chunk` is written in one piece.
///
/// A line feed at the start of the chunk ends the line and cancels an owed
/// blank line. The rest of the chunk follows the owed blank line and the
/// indentation, if either is due, and is not looked into but for its last
/// character: a line feed there makes the next chunk start a line.
pub open spec fn emit(w: WriterState, chunk: Seq<char>) -> WriterState
    decreases chunk.len(),
{
    if chunk.len() == 0 {
        w
    } else if chunk[0] == '\n' {
        emit(
            WriterState { out: w.out.push('\n'), needs_nl: false, needs_indent: true, ..w },
            chunk.drop_first(),
        )
    } else {
        let blank = if w.needs_nl {
            seq!['\n']
        } else {
            Seq::<char>::empty()
        };
        let margin = if w.needs_indent {
            w.indent
        } else {
            Seq::<char>::empty()
        };
        WriterState {
            out: w.out + blank + margin + chunk,
            needs_nl: false,
            needs_indent: chunk.last() == '\n',
            indent: w.indent,
        }
    }
}

/// Writing a chunk leaves the indentation as it is and only adds text.
pub proof fn lemma_emit_extends(w: WriterState, chunk: Seq<char>)
    ensures
        emit(w, chunk).indent == w.indent,
        w.out.is_prefix_of(emit(w, chunk).out),
    decreases chunk.len(),
{
    if chunk.len() > 0 && chunk[0] == '\n' {
        lemma_emit_extends(
            WriterState { out: w.out.push('\n'), needs_nl: false, needs_indent: true, ..w },
            chunk.drop_first(),
        );
    }
}

/// The state after the indentation grows by one step of two spaces.
pub open spec fn indented(w: WriterState) -> WriterState {
    WriterState { indent: w.indent + seq![' ', ' '], ..w }
}

/// The state after the indentation shrinks by one step. An owed blank line
/// is cancelled, so that none stands before a closing brace.
pub open spec fn unindented(w: WriterState) -> WriterState {
    WriterState { indent: w.indent.take(w.indent.len() - 2), needs_nl: false, ..w }
}

/// The state in which a blank line is owed before the next text.
pub open spec fn nl_owed(w: WriterState) -> WriterState {
    WriterState { needs_nl: true, ..w }
}

/// The state of a writer that has written nothing.
pub open spec fn fresh() -> WriterState {
    WriterState {
        out: Seq::<char>::empty(),
        needs_nl: false,
        needs_indent: false,
        indent: Seq::<char>::empty(),
    }
}

/// Writes the text of one package's file into memory.
pub struct PackageWriter<'a> {
    out: String,
    needs_nl: bool,
    needs_indent: bool,
    indent: String,
    package: &'a str,
}

impl<'a> View for PackageWriter<'a> {
    type V = WriterState;

    closed spec fn view(&self) -> WriterState {
        WriterState {
            out: self.out@,
            needs_nl: self.needs_nl,
            needs_indent: self.needs_indent,
            indent: self.indent@,
        }
    }
}

impl<'a> PackageWriter<'a> {
    /// The package whose file is written.
    pub closed spec fn package(&self) -> Seq<char> {
        self.package@
    }

    /// A writer for the file of `package` that has written nothing.
    pub fn new(package: &'a str) -> (w: Self)
        ensures
            w@ == fresh(),
            w.package() == package@,
    {
        PackageWriter {
            out: String::new(),
            needs_nl: false,
            needs_indent: false,
            indent: String::new(),
            package,
        }
    }

    /// Grows the indentation by one step.
    pub fn indent(&mut self)
        ensures
            final(self)@ == indented(old(self)@),
            final(self).package() == old(self).package(),
    {
        self.indent.append("  ");
        proof {
            reveal_strlit("  ");
            assert("  "@ =~= seq![' ', ' ']);
        }
    }

    /// Shrinks the indentation by one step and cancels an owed blank line.
    pub fn unindent(&mut self)
        requires
            old(self)@.indent.len() >= 2,
        ensures
            final(self)@ == unindented(old(self)@),
            final(self).package() == old(self).package(),
    {
        let n = self.indent.as_str().unicode_len();
        let shorter = String::from_str(self.indent.as_str().substring_char(0, n - 2));
        self.indent = shorter;
        self.needs_nl = false;
    }

    /// Makes the next text follow a blank line.
    pub fn nl_next(&mut self)
        ensures
            final(self)@ == nl_owed(old(self)@),
            final(self).package() == old(self).package(),
    {
        self.needs_nl = true;
    }

    /// Writes `chunk` in one piece.
    pub fn write_all(&mut self, chunk: &str)
        ensures
            final(self)@ == emit(old(self)@, chunk@),
            final(self)@.indent == old(self)@.indent,
            final(self).package() == old(self).package(),
    {
        proof {
            lemma_emit_extends(old(self)@, chunk@);
        }
        let mut rest = chunk;
        while !rest.is_empty() && rest.get_char(0) == '\n'
            invariant
                emit(old(self)@, chunk@) == emit(self@, rest@),
                self.package() == old(self).package(),
            decreases rest@.len(),
        {
            let ghost before = self@;
            self.out.append("\n");
            self.needs_nl = false;
            self.needs_indent = true;
            let n = rest.unicode_len();
            rest = rest.substring_char(1, n);
            proof {
                reveal_strlit("\n");
                assert(self@.out =~= before.out.push('\n'));
            }
        }
        if rest.is_empty() {
            return ;
        }
        if self.needs_nl {
            self.out.append("\n");
            self.needs_nl = false;
            proof {
                reveal_strlit("\n");
                assert("\n"@ =~= seq!['\n']);
            }
        }
        if self.needs_indent {
            self.out.append(self.indent.as_str());
            self.needs_indent = false;
        }
        self.out.append(rest);
        let n = rest.unicode_len();
        if rest.get_char(n - 1) == '\n' {
            self.needs_indent = true;
        }
    }

    /// The text written.
    pub fn into_text(self) -> (text: String)
        ensures
            text@ == self@.out,
    {
        self.out
    }
}

} // verus!
