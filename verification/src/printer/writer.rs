//! A writer of indented text that records where printed nodes start.

use vstd::prelude::*;
use vstd::string::{StrSliceExecFns, StringExecFns};

use crate::ast::base::Pos;

verus! {

/// A piece of printed output: text, the start of a node at a source position, or a change
/// of the indentation level.
pub enum Chunk {
    Text(String),
    Mark(Pos),
    Indent,
    Dedent,
}

/// The content of a piece of printed output.
pub enum ChunkView {
    Text(Seq<char>),
    Mark(Pos),
    Indent,
    Dedent,
}

impl View for Chunk {
    type V = ChunkView;

    open spec fn view(&self) -> ChunkView {
        match self {
            Chunk::Text(s) => ChunkView::Text(s@),
            Chunk::Mark(p) => ChunkView::Mark(*p),
            Chunk::Indent => ChunkView::Indent,
            Chunk::Dedent => ChunkView::Dedent,
        }
    }
}

/// One piece of text.
pub open spec fn text(s: Seq<char>) -> Seq<ChunkView> {
    seq![ChunkView::Text(s)]
}

/// Collects printed output.
pub struct GraphQLWriter {
    pub chunks: Vec<Chunk>,
}

impl View for GraphQLWriter {
    type V = Seq<ChunkView>;

    open spec fn view(&self) -> Seq<ChunkView> {
        self.chunks@.map_values(|c: Chunk| c@)
    }
}

impl GraphQLWriter {
    /// An empty writer.
    pub fn new() -> (w: Self)
        ensures
            w@ == Seq::<ChunkView>::empty(),
    {
        let w = GraphQLWriter { chunks: Vec::new() };
        assert(w@ =~= Seq::<ChunkView>::empty());
        w
    }

    fn push(&mut self, c: Chunk)
        ensures
            final(self)@ == old(self)@.push(c@),
    {
        self.chunks.push(c);
        assert(self@ =~= old(self)@.push(c@));
    }

    /// Writes text.
    pub fn write(&mut self, s: &str)
        ensures
            final(self)@ == old(self)@ + text(s@),
    {
        self.push(Chunk::Text(s.to_owned()));
        assert(final(self)@ =~= old(self)@ + text(s@));
    }

    /// Writes text that starts the node at the given position.
    pub fn write_for(&mut self, s: &str, position: Pos)
        ensures
            final(self)@ == old(self)@ + seq![ChunkView::Mark(position), ChunkView::Text(s@)],
    {
        self.push(Chunk::Mark(position));
        self.push(Chunk::Text(s.to_owned()));
        assert(final(self)@ =~= old(self)@ + seq![ChunkView::Mark(position), ChunkView::Text(s@)]);
    }

    /// Indents the lines that follow one level more.
    pub fn indent(&mut self)
        ensures
            final(self)@ == old(self)@.push(ChunkView::Indent),
    {
        self.push(Chunk::Indent);
    }

    /// Indents the lines that follow one level less.
    pub fn dedent(&mut self)
        ensures
            final(self)@ == old(self)@.push(ChunkView::Dedent),
    {
        self.push(Chunk::Dedent);
    }
}

/// The indentation of a line at a level: two spaces per level.
pub open spec fn indentation(level: nat) -> Seq<char>
    decreases level,
{
    if level == 0 {
        Seq::empty()
    } else {
        indentation((level - 1) as nat) + "  "@
    }
}

/// Laying out the first `n` characters of a text at an indentation level, starting at the
/// start of a line or not: every line that gets a character other than a line break is
/// indented first. Gives the output and whether it ends at the start of a line.
pub open spec fn lay_out_text(t: Seq<char>, n: nat, level: nat, line_start: bool) -> (Seq<char>, bool)
    decreases n,
{
    if n == 0 || n > t.len() {
        (Seq::empty(), line_start)
    } else {
        let prev = lay_out_text(t, (n - 1) as nat, level, line_start);
        let c = t[n - 1];
        if prev.1 && c != '\n' {
            (prev.0 + indentation(level) + seq![c], false)
        } else {
            (prev.0 + seq![c], c == '\n')
        }
    }
}

/// The state of laying out the first `n` chunks of output: the text so far, the
/// indentation level and whether it is at the start of a line. Marks print nothing; a
/// dedent below level zero stays at zero.
pub open spec fn lay_out(cs: Seq<ChunkView>, n: nat) -> (Seq<char>, nat, bool)
    decreases n,
{
    if n == 0 || n > cs.len() {
        (Seq::empty(), 0, true)
    } else {
        let prev = lay_out(cs, (n - 1) as nat);
        match cs[n - 1] {
            ChunkView::Text(t) => {
                let r = lay_out_text(t, t.len(), prev.1, prev.2);
                (prev.0 + r.0, prev.1, r.1)
            },
            ChunkView::Mark(_) => prev,
            ChunkView::Indent => (prev.0, prev.1 + 1, prev.2),
            ChunkView::Dedent => (prev.0, if prev.1 == 0 {
                0
            } else {
                (prev.1 - 1) as nat
            }, prev.2),
        }
    }
}

/// The text that printed output renders to.
pub open spec fn rendered(cs: Seq<ChunkView>) -> Seq<char> {
    lay_out(cs, cs.len()).0
}

fn append_indentation(out: &mut String, level: usize)
    ensures
        final(out)@ == old(out)@ + indentation(level as nat),
{
    let mut i: usize = 0;
    while i < level
        invariant
            i <= level,
            out@ == old(out)@ + indentation(i as nat),
        decreases level - i,
    {
        out.append("  ");
        i += 1;
    }
}

fn render_text(out: &mut String, t: &str, level: usize, line_start: bool) -> (r: bool)
    ensures
        final(out)@ == old(out)@ + lay_out_text(t@, t@.len(), level as nat, line_start).0,
        r == lay_out_text(t@, t@.len(), level as nat, line_start).1,
{
    let len = t.unicode_len();
    let mut at_start = line_start;
    let mut i: usize = 0;
    while i < len
        invariant
            i <= len == t@.len(),
            out@ == old(out)@ + lay_out_text(t@, i as nat, level as nat, line_start).0,
            at_start == lay_out_text(t@, i as nat, level as nat, line_start).1,
        decreases len - i,
    {
        let c = t.get_char(i);
        if at_start && c != '\n' {
            append_indentation(out, level);
        }
        out.append(t.substring_char(i, i + 1));
        at_start = c == '\n';
        assert(out@ =~= old(out)@ + lay_out_text(t@, (i + 1) as nat, level as nat, line_start).0);
        i += 1;
    }
    at_start
}

impl GraphQLWriter {
    /// Renders the output written so far as text: each line is indented two spaces per
    /// level of indentation in force where it starts getting text.
    pub fn render(&self) -> (r: String)
        ensures
            r@ == rendered(self@),
    {
        let mut out = String::new();
        let mut level: usize = 0;
        let mut line_start = true;
        let mut i: usize = 0;
        while i < self.chunks.len()
            invariant
                i <= self.chunks@.len(),
                self@.len() == self.chunks@.len(),
                ({
                    let st = lay_out(self@, i as nat);
                    &&& out@ == st.0
                    &&& level as nat == st.1
                    &&& line_start == st.2
                }),
                level <= i,
            decreases self.chunks@.len() - i,
        {
            assert(self@[i as int] == self.chunks@[i as int]@);
            match &self.chunks[i] {
                Chunk::Text(t) => {
                    line_start = render_text(&mut out, t.as_str(), level, line_start);
                },
                Chunk::Mark(_) => {},
                Chunk::Indent => {
                    level = level + 1;
                },
                Chunk::Dedent => {
                    if level > 0 {
                        level = level - 1;
                    }
                },
            }
            i += 1;
        }
        out
    }
}

} // verus!
