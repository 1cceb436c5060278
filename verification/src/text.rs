//! From the lines of a file to its text, and from Markdown text to HTML.

use vstd::prelude::*;
use vstd::string::StringExecFns;

verus! {

/// The characters of each line.
pub open spec fn line_texts(lines: Seq<String>) -> Seq<Seq<char>> {
    lines.map_values(|line: String| line@)
}

/// The text of a file whose lines are `lines`: every line, in order, each
/// closed by one line feed.
pub open spec fn joined_lines(lines: Seq<Seq<char>>) -> Seq<char>
    decreases lines.len(),
{
    if lines.len() == 0 {
        Seq::empty()
    } else {
        joined_lines(lines.drop_last()) + lines.last() + seq!['\n']
    }
}

/// Puts the lines of a file back together, each followed by a line feed.
pub fn join_lines(lines: &Vec<String>) -> (text: String)
    ensures
        text@ == joined_lines(line_texts(lines@)),
{
    let mut text = String::new();
    let mut i: usize = 0;
    while i < lines.len()
        invariant
            i <= lines.len(),
            text@ == joined_lines(line_texts(lines@).take(i as int)),
        decreases lines.len() - i,
    {
        proof {
            reveal_strlit("\n");
            let all = line_texts(lines@);
            assert(all.take(i + 1).drop_last() =~= all.take(i as int));
            assert(all.take(i + 1).last() == lines@[i as int]@);
            assert("\n"@ =~= seq!['\n']);
        }
        text.append(lines[i].as_str());
        text.append("\n");
        i += 1;
    }
    proof {
        assert(line_texts(lines@).take(lines.len() as int) =~= line_texts(lines@));
    }
    text
}

/// The HTML that the Markdown renderer produces for `text` with every
/// extension of its dialect switched on (tables, footnotes, strikethrough,
/// task lists, smart punctuation and the rest).
pub uninterp spec fn markdown_html(text: Seq<char>) -> Seq<char>;

/// Calls `pulldown_cmark::Parser::new_ext` with `Options::all()` and feeds the
/// events to `pulldown_cmark::html::push_html`.
///
/// Trusted: the output depends on the input text alone. The parser walks the
/// bytes of the text, so an empty text has no events and nothing is written
/// for it. The parser takes every text as Markdown, and writing into a
/// `String` cannot fail.
#[verifier::external_body]
fn push_markdown_html(text: &str) -> (html: String)
    ensures
        html@ == markdown_html(text@),
        text@.len() == 0 ==> html@.len() == 0,
{
    let parser = pulldown_cmark::Parser::new_ext(text, pulldown_cmark::Options::all());
    let mut html = String::new();
    pulldown_cmark::html::push_html(&mut html, parser);
    html
}

/// Converts Markdown text to HTML.
pub fn render_html(text: &str) -> (html: String)
    ensures
        html@ == markdown_html(text@),
        text@.len() == 0 ==> html@.len() == 0,
{
    push_markdown_html(text)
}

} // verus!
