//! The document tree that a story is compiled from.
//!
//! The tree holds what the compiler reads of a Markdown document: headings,
//! thematic breaks and paragraphs, and in them text, links and images. Every
//! other kind of node is kept as a description of itself.

use vstd::prelude::*;

verus! {

/// One place in a source file.
#[derive(Clone, Copy, Debug, PartialEq, Eq, Structural)]
pub struct Point {
    /// The line, counted from 1.
    pub line: usize,
    /// The column, counted from 1.
    pub column: usize,
    /// The offset, counted from 0.
    pub offset: usize,
}

/// The part of a source file that a node was read from.
#[derive(Clone, Copy, Debug, PartialEq, Eq, Structural)]
pub struct Span {
    /// Where the first character stands.
    pub start: Point,
    /// Where the first character after the part stands.
    pub end: Point,
}

/// A run of text.
#[derive(Debug, PartialEq, Eq)]
pub struct Text {
    pub value: String,
    pub position: Option<Span>,
}

/// A link: what it shows, and where it leads.
#[derive(Debug, PartialEq, Eq)]
pub struct Link {
    pub children: Vec<Inline>,
    pub url: String,
    pub position: Option<Span>,
}

/// An image: its alternative text, its source and its title.
#[derive(Debug, PartialEq, Eq)]
pub struct Image {
    pub alt: String,
    pub url: String,
    pub title: Option<String>,
    pub position: Option<Span>,
}

/// A node of a kind that the compiler does not read.
#[derive(Debug, PartialEq, Eq)]
pub struct Unknown {
    /// The node, written out.
    pub description: String,
    pub position: Option<Span>,
}

/// A node inside a heading, a paragraph or a link.
#[derive(Debug, PartialEq, Eq)]
pub enum Inline {
    Text(Text),
    Link(Link),
    Image(Image),
    Other(Unknown),
}

/// A heading.
#[derive(Debug, PartialEq, Eq)]
pub struct Heading {
    pub children: Vec<Inline>,
    pub position: Option<Span>,
}

/// A thematic break.
#[derive(Debug, PartialEq, Eq)]
pub struct ThematicBreak {
    pub position: Option<Span>,
}

/// A paragraph.
#[derive(Debug, PartialEq, Eq)]
pub struct Paragraph {
    pub children: Vec<Inline>,
    pub position: Option<Span>,
}

/// A node at the top of a document.
#[derive(Debug, PartialEq, Eq)]
pub enum Block {
    Heading(Heading),
    ThematicBreak(ThematicBreak),
    Paragraph(Paragraph),
    Other(Unknown),
}

/// A document.
#[derive(Debug, PartialEq, Eq)]
pub struct Root {
    pub children: Vec<Block>,
    pub position: Option<Span>,
}

#[verifier::external_type_specification]
#[verifier::external_body]
pub struct ExMdast(markdown::mdast::Node);

/// The document that `markdown::to_mdast` reads from a text with its default
/// options, or the message that it fails with.
pub uninterp spec fn mdast_of(text: Seq<char>) -> Result<Root, String>;

/// Reads a text as Markdown: calls `markdown::to_mdast` with the default
/// options, and hands on its tree as a [`Root`], or its message as a string.
/// Nothing is claimed of the tree but that the same text gives the same one:
/// what Markdown is, is left to `markdown`.
#[verifier::external_body]
pub(crate) fn to_mdast(text: &str) -> (r: Result<Root, String>)
    ensures
        r == mdast_of(text@),
{
    match markdown::to_mdast(text, &markdown::ParseOptions::default()) {
        Ok(tree) => Ok(
            Root {
                children: tree.children().into_iter().flatten().map(block_of).collect(),
                position: span_of(&tree),
            },
        ),
        Err(message) => Err(message.to_string()),
    }
}

/// The place of a node: what `markdown::mdast::Node::position` gives, field
/// by field. Nothing is claimed of it.
#[verifier::external_body]
fn span_of(node: &markdown::mdast::Node) -> Option<Span> {
    node.position().map(
        |p|
            Span {
                start: Point { line: p.start.line, column: p.start.column, offset: p.start.offset },
                end: Point { line: p.end.line, column: p.end.column, offset: p.end.offset },
            },
    )
}

/// A node of `markdown::mdast` as a [`Block`]: the fields of a heading, a
/// thematic break or a paragraph, and of any other node its `Debug` text.
/// Nothing is claimed of it.
#[verifier::external_body]
fn block_of(node: &markdown::mdast::Node) -> Block {
    let position = span_of(node);
    match node {
        markdown::mdast::Node::Heading(x) => Block::Heading(
            Heading { children: x.children.iter().map(inline_of).collect(), position },
        ),
        markdown::mdast::Node::ThematicBreak(_) => Block::ThematicBreak(ThematicBreak { position }),
        markdown::mdast::Node::Paragraph(x) => Block::Paragraph(
            Paragraph { children: x.children.iter().map(inline_of).collect(), position },
        ),
        other => Block::Other(Unknown { description: format!("{other:?}"), position }),
    }
}

/// A node of `markdown::mdast` as an [`Inline`]: the fields of a text, a link
/// or an image, and of any other node its `Debug` text. Nothing is claimed of
/// it.
#[verifier::external_body]
fn inline_of(node: &markdown::mdast::Node) -> Inline {
    let position = span_of(node);
    match node {
        markdown::mdast::Node::Text(x) => Inline::Text(Text { value: x.value.clone(), position }),
        markdown::mdast::Node::Link(x) => Inline::Link(
            Link {
                children: x.children.iter().map(inline_of).collect(),
                url: x.url.clone(),
                position,
            },
        ),
        markdown::mdast::Node::Image(x) => Inline::Image(
            Image { alt: x.alt.clone(), url: x.url.clone(), title: x.title.clone(), position },
        ),
        other => Inline::Other(Unknown { description: format!("{other:?}"), position }),
    }
}

} // verus!
