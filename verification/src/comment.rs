use crate::text::{
    absent, join, lemma_replace_absent, line_end, occurs, push_range, replace, spec_join,
    spec_lines, spec_replace, to_chars,
};
use vstd::prelude::*;
use vstd::string::*;
use vstd::utf8::*;

verus! {

/// The width to which the paragraphs of a comment are wrapped.
pub const WIDTH: usize = 72;

/// What `textwrap::fill` makes of `text` at the given width: the text
/// broken into lines of at most that width where its words allow it, the
/// lines joined by line feeds.
pub uninterp spec fn textwrap_fill(text: Seq<char>, width: usize) -> Seq<char>;

/// `s` without the spaces at its end.
pub open spec fn trim_end_spaces(s: Seq<char>) -> Seq<char>
    decreases s.len(),
{
    if s.len() > 0 && s.last() == ' ' {
        trim_end_spaces(s.drop_last())
    } else {
        s
    }
}

/// Whether `text` is one line that is shorter than `width`, counted in
/// the bytes of its UTF-8.
pub open spec fn fits_one_line(text: Seq<char>, width: usize) -> bool {
    encode_utf8(text).len() < width && !text.contains('\n')
}

/// Calls `textwrap::fill` with a plain width, so with the crate's default
/// options. The result is a function of the text and the width alone.
/// A text of one line that is shorter than the width comes back as it
/// is, less the spaces at its end; of any other text this says no more
/// than that its result has a name.
#[verifier::external_body]
fn fill(text: &str, width: usize) -> (r: String)
    ensures
        r@ == textwrap_fill(text@, width),
        fits_one_line(text@, width) ==> r@ == trim_end_spaces(text@),
{
    textwrap::fill(text, width)
}

/// `s` as one line: every line feed becomes a space, and then, from the
/// left, every two spaces become one.
pub open spec fn one_line(s: Seq<char>) -> Seq<char> {
    spec_replace(spec_replace(s, seq!['\n'], seq![' ']), seq![' ', ' '], seq![' '])
}

/// The paragraph that `Comment::add_paragraph` makes of `s`.
pub open spec fn paragraph(s: Seq<char>) -> Seq<char> {
    textwrap_fill(one_line(s), WIDTH)
}

/// Whether `t` is a plain line: of ASCII characters, shorter than the
/// width, without a line feed, without two spaces in a row and without a
/// space at its end.
pub open spec fn plain_line(t: Seq<char>) -> bool {
    &&& is_ascii_chars(t)
    &&& t.len() < WIDTH
    &&& absent(t, seq!['\n'])
    &&& absent(t, seq![' ', ' '])
    &&& (t.len() == 0 || t.last() != ' ')
}

/// A plain line is already one line, fits the width, and has nothing to
/// trim: as a paragraph it stays as it is.
pub proof fn lemma_plain_line(t: Seq<char>)
    requires
        plain_line(t),
    ensures
        one_line(t) == t,
        fits_one_line(t, WIDTH),
        trim_end_spaces(t) == t,
{
    lemma_replace_absent(t, seq!['\n'], seq![' ']);
    lemma_replace_absent(t, seq![' ', ' '], seq![' ']);
    is_ascii_chars_encode_utf8(t);
    if t.contains('\n') {
        let i = choose|i: int| 0 <= i < t.len() && t[i] == '\n';
        assert(t.subrange(i, i + 1) =~= seq!['\n']);
        assert(occurs(t, i, seq!['\n']));
    }
}

/// Every line of `lines` behind `// ` and ended by a line feed.
pub open spec fn commented(lines: Seq<Seq<char>>) -> Seq<char>
    decreases lines.len(),
{
    if lines.len() == 0 {
        Seq::empty()
    } else {
        seq!['/', '/', ' '] + lines[0] + seq!['\n'] + commented(lines.skip(1))
    }
}

/// The text of a comment with the given paragraphs: the paragraphs with an
/// empty line between each two, every line commented out.
pub open spec fn comment_text(paragraphs: Seq<Seq<char>>) -> Seq<char> {
    commented(spec_lines(spec_join(paragraphs, seq!['\n', '\n'])))
}

/// The comment above a generated function: its paragraphs, each already
/// wrapped.
#[derive(Debug)]
pub struct Comment(pub Vec<String>);

impl View for Comment {
    type V = Seq<Seq<char>>;

    open spec fn view(&self) -> Seq<Seq<char>> {
        self.0.deep_view()
    }
}

impl Comment {
    pub fn new() -> (r: Comment)
        ensures
            r@ == Seq::<Seq<char>>::empty(),
    {
        let r = Comment(Vec::new());
        r
    }

    /// Adds a paragraph that is already wrapped.
    pub fn push_wrapped(&mut self, wrapped: String)
        ensures
            final(self)@ == old(self)@.push(wrapped@),
    {
        self.0.push(wrapped);
    }

    /// Adds `s` as a paragraph. However `s` is broken into lines, it is
    /// first made one line and then wrapped anew. A line that is shorter
    /// than the width stays one line, without the spaces at its end.
    pub fn add_paragraph(&mut self, s: &str)
        ensures
            final(self)@ == old(self)@.push(paragraph(s@)),
            fits_one_line(one_line(s@), WIDTH) ==> paragraph(s@) == trim_end_spaces(one_line(s@)),
    {
        proof {
            reveal_strlit("\n");
            reveal_strlit(" ");
            reveal_strlit("  ");
            assert("\n"@ =~= seq!['\n']);
            assert(" "@ =~= seq![' ']);
            assert("  "@ =~= seq![' ', ' ']);
        }
        let unbroken = replace(s, "\n", " ");
        let line = replace(unbroken.as_str(), "  ", " ");
        let wrapped = fill(line.as_str(), WIDTH);
        self.push_wrapped(wrapped);
    }

    /// The comment as source text.
    pub fn format(&self) -> (out: String)
        ensures
            out@ == comment_text(self@),
    {
        proof {
            reveal_strlit("\n\n");
            reveal_strlit("// ");
            assert("\n\n"@ =~= seq!['\n', '\n']);
        }
        let all = join(&self.0, "\n\n");
        let t = to_chars(all.as_str());
        let ghost whole = commented(spec_lines(t@));
        let mut out = String::new();
        let mut i: usize = 0;
        assert(t@.skip(0) =~= t@);
        while i < t.len()
            invariant
                i <= t.len(),
                "// "@ == seq!['/', '/', ' '],
                out@ + commented(spec_lines(t@.skip(i as int))) == whole,
            decreases t.len() - i,
        {
            let ghost before = out@;
            let ghost rest = t@.skip(i as int);
            let j = line_end(&t, i);
            out.append("// ");
            if j < t.len() {
                if j > i && t[j - 1] == '\r' {
                    push_range(&mut out, &t, i, j - 1);
                } else {
                    push_range(&mut out, &t, i, j);
                }
                out.push('\n');
                proof {
                    assert(rest.skip(j - i + 1) =~= t@.skip(j + 1));
                    let tail = spec_lines(t@.skip(j + 1));
                    let ls = spec_lines(rest);
                    assert(ls.skip(1) =~= tail);
                }
                i = j + 1;
            } else {
                push_range(&mut out, &t, i, j);
                out.push('\n');
                proof {
                    let ls = spec_lines(rest);
                    assert(ls.skip(1) =~= Seq::<Seq<char>>::empty());
                    assert(out@ + commented(spec_lines(t@.skip(j as int))) =~= before + commented(
                        ls,
                    ));
                }
                i = j;
            }
        }
        out
    }
}

} // verus!
