//! The compiler: from a document to a story.

use vstd::prelude::*;
use crate::document::{
    mdast_of, to_mdast, Block, Heading, Image, Inline, Link, Paragraph, Root, Span,
};
use crate::duration::Duration;
use crate::number::{parse_signed_decimal, signed_decimal};
use crate::story::{Story, StoryAction, StoryActionView, StoryStep};
use crate::text::{chars_of, str_eq};
use crate::token::{
    animation_lacks_size, animation_of, lacks_size, lemma_location_len, lemma_tokens_nonempty,
    location_len, location_of, tokens, transition_of, Tokenizer,
};

verus! {

/// What is wrong with a script.
#[derive(Debug, PartialEq, Eq)]
pub enum ParseErrorType {
    /// The text could not be read as a document.
    DocumentError(String),
    /// A node stands at the top of the document that is no heading, thematic
    /// break or paragraph.
    UnknownNode(String),
    /// A heading holds anything but one run of text.
    InvalidHeading,
    /// A link holds anything but one run of text, or its text starts with no
    /// directive.
    InvalidLink,
    /// The alternative text of an image starts with no directive.
    InvalidImage,
    /// The title of a figure is empty.
    NoFigureName,
    /// The target of a `wait` is no count of milliseconds.
    InvalidWaitTime(String),
    /// A target could not be resolved.
    InvalidUrl(String),
    /// A node stands in a paragraph that is no text, link or image.
    UnsupportedInline,
}

/// What a [`ParseErrorType`] holds.
pub enum ParseErrorTypeView {
    DocumentError(Seq<char>),
    UnknownNode(Seq<char>),
    InvalidHeading,
    InvalidLink,
    InvalidImage,
    NoFigureName,
    InvalidWaitTime(Seq<char>),
    InvalidUrl(Seq<char>),
    UnsupportedInline,
}

impl DeepView for ParseErrorType {
    type V = ParseErrorTypeView;

    open spec fn deep_view(&self) -> ParseErrorTypeView {
        match self {
            ParseErrorType::DocumentError(detail) => ParseErrorTypeView::DocumentError(detail@),
            ParseErrorType::UnknownNode(detail) => ParseErrorTypeView::UnknownNode(detail@),
            ParseErrorType::InvalidHeading => ParseErrorTypeView::InvalidHeading,
            ParseErrorType::InvalidLink => ParseErrorTypeView::InvalidLink,
            ParseErrorType::InvalidImage => ParseErrorTypeView::InvalidImage,
            ParseErrorType::NoFigureName => ParseErrorTypeView::NoFigureName,
            ParseErrorType::InvalidWaitTime(raw) => ParseErrorTypeView::InvalidWaitTime(raw@),
            ParseErrorType::InvalidUrl(raw) => ParseErrorTypeView::InvalidUrl(raw@),
            ParseErrorType::UnsupportedInline => ParseErrorTypeView::UnsupportedInline,
        }
    }
}

/// What an error of the given kind says.
pub open spec fn message_of(ty: ParseErrorTypeView) -> Seq<char> {
    match ty {
        ParseErrorTypeView::DocumentError(detail) => "failed to parse markdown: "@ + detail,
        ParseErrorTypeView::UnknownNode(detail) => "unknown markdown node: "@ + detail,
        ParseErrorTypeView::InvalidHeading => "invalid heading"@,
        ParseErrorTypeView::InvalidLink => "invalid link"@,
        ParseErrorTypeView::InvalidImage => "invalid image"@,
        ParseErrorTypeView::NoFigureName => "figure should have a name"@,
        ParseErrorTypeView::InvalidWaitTime(raw) => "invalid wait time: "@ + raw,
        ParseErrorTypeView::InvalidUrl(raw) => "invalid url: "@ + raw,
        ParseErrorTypeView::UnsupportedInline => "unsupported inline node"@,
    }
}

impl ParseErrorType {
    /// What the error says.
    pub fn message(&self) -> (r: String)
        ensures
            r@ == message_of(self.deep_view()),
    {
        match self {
            ParseErrorType::DocumentError(detail) => "failed to parse markdown: ".to_owned().concat(
                detail.as_str(),
            ),
            ParseErrorType::UnknownNode(detail) => "unknown markdown node: ".to_owned().concat(
                detail.as_str(),
            ),
            ParseErrorType::InvalidHeading => "invalid heading".to_owned(),
            ParseErrorType::InvalidLink => "invalid link".to_owned(),
            ParseErrorType::InvalidImage => "invalid image".to_owned(),
            ParseErrorType::NoFigureName => "figure should have a name".to_owned(),
            ParseErrorType::InvalidWaitTime(raw) => "invalid wait time: ".to_owned().concat(
                raw.as_str(),
            ),
            ParseErrorType::InvalidUrl(raw) => "invalid url: ".to_owned().concat(raw.as_str()),
            ParseErrorType::UnsupportedInline => "unsupported inline node".to_owned(),
        }
    }
}

/// What is wrong with a script, and where.
#[derive(Debug, PartialEq, Eq)]
pub struct ParseError {
    pub ty: ParseErrorType,
    /// The place of the node that was read when the error was found, where
    /// one is known.
    pub position: Option<Span>,
}

/// What a [`ParseError`] holds.
pub struct ParseErrorView {
    pub ty: ParseErrorTypeView,
    pub position: Option<Span>,
}

impl DeepView for ParseError {
    type V = ParseErrorView;

    open spec fn deep_view(&self) -> ParseErrorView {
        ParseErrorView { ty: self.ty.deep_view(), position: self.position }
    }
}

/// What a result holds.
pub open spec fn outcome<T: DeepView>(r: Result<T, ParseError>) -> Result<T::V, ParseErrorView> {
    match r {
        Ok(value) => Ok(value.deep_view()),
        Err(error) => Err(error.deep_view()),
    }
}

/// The text of a list of nodes that is one run of text, and nothing else.
pub open spec fn sole_text(children: Seq<Inline>) -> Option<Seq<char>> {
    if children.len() == 1 {
        match children[0] {
            Inline::Text(text) => Some(text.value@),
            _ => None,
        }
    } else {
        None
    }
}

/// The name that a heading gives: its text.
pub open spec fn heading_name(heading: Heading) -> Result<Seq<char>, ParseErrorView> {
    match sole_text(heading.children@) {
        Some(name) => Ok(name),
        None => Err(
            ParseErrorView { ty: ParseErrorTypeView::InvalidHeading, position: heading.position },
        ),
    }
}

/// A text without the `#` that it may start with.
pub open spec fn without_hash(s: Seq<char>) -> Seq<char> {
    if s.len() > 0 && s[0] == '#' {
        s.skip(1)
    } else {
        s
    }
}

/// The action that a link stands for: its text starts with `goto`, `end` or
/// `wait`. The first two lead to the target of the link; the last waits as
/// many milliseconds as the target, without the `#` that it may start with,
/// counts.
pub open spec fn link_action(link: Link) -> Result<StoryActionView, ParseErrorView> {
    let directive = match sole_text(link.children@) {
        Some(text) => tokens(text),
        None => seq![],
    };
    if directive.len() > 0 && directive[0] == "goto"@ {
        Ok(StoryActionView::Navigate { url: link.url@, ret: false })
    } else if directive.len() > 0 && directive[0] == "end"@ {
        Ok(StoryActionView::Navigate { url: link.url@, ret: true })
    } else if directive.len() > 0 && directive[0] == "wait"@ {
        match signed_decimal(without_hash(link.url@)) {
            Some(millis) => Ok(StoryActionView::Wait { time: Duration { millis: millis as u128 } }),
            None => Err(
                ParseErrorView {
                    ty: ParseErrorTypeView::InvalidWaitTime(without_hash(link.url@)),
                    position: link.position,
                },
            ),
        }
    } else {
        Err(ParseErrorView { ty: ParseErrorTypeView::InvalidLink, position: link.position })
    }
}

/// The tokens of the title of an image; an image without a title has none.
pub open spec fn title_tokens(image: Image) -> Seq<Seq<char>> {
    match image.title {
        Some(title) => tokens(title@),
        None => seq![],
    }
}

/// The action that an image stands for: its alternative text starts with
/// `bg`, `fig`, `bgm` or `sfx`. What follows there says the transition, after
/// a `remove` that may stand first for a figure. The title says the location
/// and then the animation, after the name that stands first for a figure.
pub open spec fn image_action(image: Image) -> Result<StoryActionView, ParseErrorView> {
    let alt = tokens(image.alt@);
    let title = title_tokens(image);
    if alt.len() > 0 && alt[0] == "bg"@ {
        Ok(
            StoryActionView::Bg {
                url: image.url@,
                transition: transition_of(alt.skip(1)),
                animation: animation_of(title.skip(location_len(title) as int)),
                location: location_of(title),
            },
        )
    } else if alt.len() > 0 && alt[0] == "fig"@ {
        let removal = alt.len() > 1 && alt[1] == "remove"@;
        if title.len() == 0 {
            Err(ParseErrorView { ty: ParseErrorTypeView::NoFigureName, position: image.position })
        } else {
            Ok(
                StoryActionView::Fig {
                    name: title[0],
                    url: image.url@,
                    transition: transition_of(
                        if removal {
                            alt.skip(2)
                        } else {
                            alt.skip(1)
                        },
                    ),
                    animation: animation_of(title.skip(1 + location_len(title.skip(1)) as int)),
                    location: location_of(title.skip(1)),
                    removal,
                },
            )
        }
    } else if alt.len() > 0 && alt[0] == "bgm"@ {
        Ok(StoryActionView::Bgm { url: image.url@ })
    } else if alt.len() > 0 && alt[0] == "sfx"@ {
        Ok(StoryActionView::Sfx { url: image.url@ })
    } else {
        Err(ParseErrorView { ty: ParseErrorTypeView::InvalidImage, position: image.position })
    }
}

/// The tokens of the title of an image that say its location and its
/// animation: all of them for a background, those behind the name for a
/// figure that has one, and none for any other image.
pub open spec fn placing_tokens(image: Image) -> Option<Seq<Seq<char>>> {
    let alt = tokens(image.alt@);
    let title = title_tokens(image);
    if alt.len() > 0 && alt[0] == "bg"@ {
        Some(title)
    } else if alt.len() > 0 && alt[0] == "fig"@ && title.len() > 0 {
        Some(title.skip(1))
    } else {
        None
    }
}

/// Whether an image announces a size with a `/` and says none behind it, in
/// its location or in the location that its animation moves to.
pub open spec fn image_lacks_size(image: Image) -> bool {
    match placing_tokens(image) {
        Some(placing) => lacks_size(placing) || animation_lacks_size(
            placing.skip(location_len(placing) as int),
        ),
        None => false,
    }
}

/// The action that a node of a paragraph stands for, under the name of who
/// speaks.
pub open spec fn inline_action(node: Inline, name: Option<Seq<char>>) -> Result<
    StoryActionView,
    ParseErrorView,
> {
    match node {
        Inline::Text(text) => Ok(StoryActionView::Text { name, text: text.value@ }),
        Inline::Link(link) => link_action(link),
        Inline::Image(image) => image_action(image),
        Inline::Other(other) => Err(
            ParseErrorView { ty: ParseErrorTypeView::UnsupportedInline, position: other.position },
        ),
    }
}

/// `first`, and then what `rest` holds; the error of `rest` if it is one.
pub open spec fn followed<T>(first: Seq<T>, rest: Result<Seq<T>, ParseErrorView>) -> Result<
    Seq<T>,
    ParseErrorView,
> {
    match rest {
        Ok(rest) => Ok(first + rest),
        Err(error) => Err(error),
    }
}

/// The actions that the nodes of a paragraph stand for, in their order; the
/// error of the first node that stands for none.
pub open spec fn actions(children: Seq<Inline>, name: Option<Seq<char>>) -> Result<
    Seq<StoryActionView>,
    ParseErrorView,
>
    decreases children.len(),
{
    if children.len() == 0 {
        Ok(seq![])
    } else {
        match inline_action(children[0], name) {
            Ok(action) => followed(seq![action], actions(children.skip(1), name)),
            Err(error) => Err(error),
        }
    }
}

/// The steps that a list of blocks stands for when `name` speaks at its
/// start: one for each paragraph, in their order. A heading changes who
/// speaks, a thematic break leaves no one speaking. The error of the first
/// block that is in error.
pub open spec fn steps(blocks: Seq<Block>, name: Option<Seq<char>>) -> Result<
    Seq<Seq<StoryActionView>>,
    ParseErrorView,
>
    decreases blocks.len(),
{
    if blocks.len() == 0 {
        Ok(seq![])
    } else {
        match blocks[0] {
            Block::Heading(heading) => match heading_name(heading) {
                Ok(name) => steps(blocks.skip(1), Some(name)),
                Err(error) => Err(error),
            },
            Block::ThematicBreak(_) => steps(blocks.skip(1), None),
            Block::Paragraph(paragraph) => match actions(paragraph.children@, name) {
                Ok(step) => followed(seq![step], steps(blocks.skip(1), name)),
                Err(error) => Err(error),
            },
            Block::Other(other) => Err(
                ParseErrorView {
                    ty: ParseErrorTypeView::UnknownNode(other.description@),
                    position: other.position,
                },
            ),
        }
    }
}

/// The story that a document stands for.
pub open spec fn compile(root: Root) -> Result<Seq<Seq<StoryActionView>>, ParseErrorView> {
    steps(root.children@, None)
}

/// The story that a text stands for: that of the document that it is read
/// as.
pub open spec fn compile_text(text: Seq<char>) -> Result<Seq<Seq<StoryActionView>>, ParseErrorView> {
    match mdast_of(text) {
        Ok(root) => compile(root),
        Err(message) => Err(
            ParseErrorView { ty: ParseErrorTypeView::DocumentError(message@), position: None },
        ),
    }
}

/// The text of a list of nodes that is one run of text.
fn sole_text_of(children: &Vec<Inline>) -> (r: Option<&str>)
    ensures
        r.deep_view() == sole_text(children@),
{
    if children.len() == 1 {
        match &children[0] {
            Inline::Text(text) => Some(text.value.as_str()),
            _ => None,
        }
    } else {
        None
    }
}

/// Reads the count of milliseconds that a target of a `wait` writes, or hands
/// back the target without the `#` that it may start with.
fn wait_time(url: &str) -> (r: Result<u64, String>)
    ensures
        match r {
            Ok(millis) => signed_decimal(without_hash(url@)) == Some(millis),
            Err(raw) => signed_decimal(without_hash(url@)) is None && raw@ == without_hash(url@),
        },
{
    let chars = chars_of(url);
    let n = chars.len();
    let start: usize = if n > 0 && chars[0] == '#' {
        1
    } else {
        0
    };
    let count = vstd::slice::slice_subrange(chars.as_slice(), start, n);
    assert(count@ == chars@.skip(start as int));
    assert(chars@.skip(0) == chars@);
    match parse_signed_decimal(count) {
        Some(millis) => Ok(millis),
        None => Err(url.substring_char(start, n).to_owned()),
    }
}

/// Whether an image announces a size with a `/` and says none behind it.
/// Such an image is compiled all the same; whoever compiles may warn of it.
pub fn lacks_size_words(image: &Image) -> (r: bool)
    ensures
        r == image_lacks_size(*image),
{
    let mut alt = Tokenizer::new(image.alt.as_str());
    let mut title = match &image.title {
        Some(title) => Tokenizer::new(title.as_str()),
        None => Tokenizer::new(""),
    };
    proof {
        reveal_strlit("");
    }
    let placed = match alt.next() {
        Some(directive) => {
            if str_eq(directive, "bg") {
                true
            } else if str_eq(directive, "fig") {
                title.parse_name().is_some()
            } else {
                false
            }
        },
        None => false,
    };
    if placed {
        title.parse_location();
        title.parse_animation();
        title.lacks_size()
    } else {
        false
    }
}

/// A compiler of stories.
#[derive(Debug, Default)]
pub struct NahidaParser {}

impl NahidaParser {
    /// Compiles a text: reads it as Markdown, and compiles the document.
    pub fn parse_text(&mut self, text: &str) -> (r: Result<Story, ParseError>)
        ensures
            outcome(r) == compile_text(text@),
    {
        match self.parse_document(text) {
            Ok(root) => self.parse_root(&root),
            Err(error) => Err(error),
        }
    }

    /// Reads a text as Markdown: the document that it is, or the error that
    /// says why it is none.
    pub fn parse_document(&mut self, text: &str) -> (r: Result<Root, ParseError>)
        ensures
            match r {
                Ok(root) => mdast_of(text@) == Ok::<Root, String>(root),
                Err(error) => mdast_of(text@) matches Err(message) && error.deep_view() == (
                ParseErrorView {
                    ty: ParseErrorTypeView::DocumentError(message@),
                    position: None,
                }),
            },
    {
        match to_mdast(text) {
            Ok(root) => Ok(root),
            Err(message) => Err(
                ParseError { ty: ParseErrorType::DocumentError(message), position: None },
            ),
        }
    }

    /// Compiles a document: walks its blocks once, in their order, and keeps
    /// who speaks.
    pub fn parse_root(&mut self, root: &Root) -> (r: Result<Story, ParseError>)
        ensures
            outcome(r) == compile(*root),
    {
        let mut story = Story { steps: Vec::new() };
        let mut name: Option<String> = None;
        let n = root.children.len();
        let mut i: usize = 0;
        assert(root.children@.skip(0) == root.children@);
        while i < n
            invariant
                n == root.children@.len(),
                i <= n,
                followed(story.deep_view(), steps(root.children@.skip(i as int), name.deep_view()))
                    == compile(*root),
            decreases n - i,
        {
            let ghost rest = root.children@.skip(i as int);
            let ghost before = story.deep_view();
            assert(rest.skip(1) == root.children@.skip(i + 1));
            match &root.children[i] {
                Block::Heading(heading) => {
                    match self.parse_heading(heading) {
                        Ok(n) => {
                            name = Some(n);
                        },
                        Err(error) => {
                            return Err(error);
                        },
                    }
                },
                Block::ThematicBreak(_) => {
                    name = None;
                },
                Block::Paragraph(paragraph) => {
                    match self.parse_paragraph(paragraph, &name) {
                        Ok(step) => {
                            story.steps.push(step);
                            assert(story.deep_view() == before.push(step.deep_view()));
                            assert(before.push(step.deep_view()) == before + seq![
                                step.deep_view(),
                            ]);
                            proof {
                                match steps(rest.skip(1), name.deep_view()) {
                                    Ok(more) => {
                                        assert((before + seq![step.deep_view()]) + more == before
                                            + (seq![step.deep_view()] + more));
                                    },
                                    Err(_) => {},
                                }
                            }
                        },
                        Err(error) => {
                            return Err(error);
                        },
                    }
                },
                Block::Other(other) => {
                    return Err(
                        ParseError {
                            ty: ParseErrorType::UnknownNode(other.description.clone()),
                            position: other.position,
                        },
                    );
                },
            }
            i += 1;
        }
        assert(story.deep_view() + seq![] == story.deep_view());
        Ok(story)
    }

    /// Reads the name that a heading gives.
    pub fn parse_heading(&mut self, heading: &Heading) -> (r: Result<String, ParseError>)
        ensures
            outcome(r) == heading_name(*heading),
    {
        match sole_text_of(&heading.children) {
            Some(value) => Ok(value.to_owned()),
            None => Err(
                ParseError { ty: ParseErrorType::InvalidHeading, position: heading.position },
            ),
        }
    }

    /// Compiles a paragraph to a step, under the name of who speaks.
    pub fn parse_paragraph(&mut self, paragraph: &Paragraph, name: &Option<String>) -> (r: Result<
        StoryStep,
        ParseError,
    >)
        ensures
            outcome(r) == actions(paragraph.children@, name.deep_view()),
    {
        let mut step = StoryStep { actions: Vec::new() };
        let n = paragraph.children.len();
        let mut i: usize = 0;
        assert(paragraph.children@.skip(0) == paragraph.children@);
        while i < n
            invariant
                n == paragraph.children@.len(),
                i <= n,
                followed(
                    step.deep_view(),
                    actions(paragraph.children@.skip(i as int), name.deep_view()),
                ) == actions(paragraph.children@, name.deep_view()),
            decreases n - i,
        {
            let ghost rest = paragraph.children@.skip(i as int);
            let ghost before = step.deep_view();
            assert(rest.skip(1) == paragraph.children@.skip(i + 1));
            let action = match &paragraph.children[i] {
                Inline::Text(text) => StoryAction::Text {
                    name: name.clone(),
                    text: text.value.clone(),
                },
                Inline::Link(link) => match self.parse_link(link) {
                    Ok(action) => action,
                    Err(error) => {
                        return Err(error);
                    },
                },
                Inline::Image(image) => match self.parse_image(image) {
                    Ok(action) => action,
                    Err(error) => {
                        return Err(error);
                    },
                },
                Inline::Other(other) => {
                    return Err(
                        ParseError {
                            ty: ParseErrorType::UnsupportedInline,
                            position: other.position,
                        },
                    );
                },
            };
            assert(Ok::<StoryActionView, ParseErrorView>(action.deep_view()) == inline_action(
                rest[0],
                name.deep_view(),
            ));
            step.actions.push(action);
            assert(step.deep_view() == before.push(action.deep_view()));
            assert(before.push(action.deep_view()) == before + seq![action.deep_view()]);
            proof {
                match actions(rest.skip(1), name.deep_view()) {
                    Ok(more) => {
                        assert((before + seq![action.deep_view()]) + more == before + (
                        seq![action.deep_view()] + more));
                    },
                    Err(_) => {},
                }
            }
            i += 1;
        }
        assert(step.deep_view() + seq![] == step.deep_view());
        Ok(step)
    }

    /// Reads a link as an action.
    pub fn parse_link(&mut self, link: &Link) -> (r: Result<StoryAction, ParseError>)
        ensures
            outcome(r) == link_action(*link),
    {
        let text = match sole_text_of(&link.children) {
            Some(value) => value,
            None => {
                return Err(
                    ParseError { ty: ParseErrorType::InvalidLink, position: link.position },
                );
            },
        };
        let mut text = Tokenizer::new(text);
        match text.next() {
            Some(directive) => {
                if str_eq(directive, "goto") {
                    Ok(StoryAction::Navigate { url: link.url.clone(), ret: false })
                } else if str_eq(directive, "end") {
                    Ok(StoryAction::Navigate { url: link.url.clone(), ret: true })
                } else if str_eq(directive, "wait") {
                    match wait_time(link.url.as_str()) {
                        Ok(millis) => Ok(StoryAction::Wait { time: Duration::from_millis(millis) }),
                        Err(raw) => Err(
                            ParseError {
                                ty: ParseErrorType::InvalidWaitTime(raw),
                                position: link.position,
                            },
                        ),
                    }
                } else {
                    Err(ParseError { ty: ParseErrorType::InvalidLink, position: link.position })
                }
            },
            None => Err(ParseError { ty: ParseErrorType::InvalidLink, position: link.position }),
        }
    }

    /// Reads an image as an action.
    pub fn parse_image(&mut self, image: &Image) -> (r: Result<StoryAction, ParseError>)
        ensures
            outcome(r) == image_action(*image),
    {
        let mut alt = Tokenizer::new(image.alt.as_str());
        let mut title = match &image.title {
            Some(title) => Tokenizer::new(title.as_str()),
            None => Tokenizer::new(""),
        };
        proof {
            reveal_strlit("");
            lemma_location_len(title@);
            if title@.len() > 0 {
                lemma_location_len(title@.skip(1));
                assert(title@.skip(1).skip(location_len(title@.skip(1)) as int) == title@.skip(
                    1 + location_len(title@.skip(1)) as int,
                ));
            }
            if alt@.len() > 1 {
                assert(alt@.skip(1).skip(1) == alt@.skip(2));
                assert(alt@.skip(1)[0] == alt@[1]);
            }
        }
        let url = image.url.clone();
        match alt.next() {
            Some(directive) => {
                if str_eq(directive, "bg") {
                    let transition = alt.parse_transition();
                    let location = title.parse_location();
                    let animation = title.parse_animation();
                    Ok(StoryAction::Bg { url, transition, animation, location })
                } else if str_eq(directive, "fig") {
                    let removal = alt.parse_remove();
                    let transition = alt.parse_transition();
                    let name = match title.parse_name() {
                        Some(name) => name,
                        None => {
                            return Err(
                                ParseError {
                                    ty: ParseErrorType::NoFigureName,
                                    position: image.position,
                                },
                            );
                        },
                    };
                    let location = title.parse_location();
                    let animation = title.parse_animation();
                    Ok(StoryAction::Fig { name, url, transition, animation, location, removal })
                } else if str_eq(directive, "bgm") {
                    Ok(StoryAction::Bgm { url })
                } else if str_eq(directive, "sfx") {
                    Ok(StoryAction::Sfx { url })
                } else {
                    Err(ParseError { ty: ParseErrorType::InvalidImage, position: image.position })
                }
            },
            None => Err(ParseError { ty: ParseErrorType::InvalidImage, position: image.position }),
        }
    }
}

/// Compiles the text of a script to a story.
pub fn parse_story(text: &str) -> (r: Result<Story, ParseError>)
    ensures
        outcome(r) == compile_text(text@),
{
    let mut parser = NahidaParser {  };
    parser.parse_text(text)
}

/// How many of a list of blocks are paragraphs.
pub open spec fn paragraphs(blocks: Seq<Block>) -> nat
    decreases blocks.len(),
{
    if blocks.len() == 0 {
        0
    } else if blocks[0] is Paragraph {
        1 + paragraphs(blocks.skip(1))
    } else {
        paragraphs(blocks.skip(1))
    }
}

/// A story has one step for each paragraph of its document, and each step
/// has one action for each node of its paragraph: headings and thematic
/// breaks make no step of their own.
pub proof fn lemma_one_step_per_paragraph(blocks: Seq<Block>, name: Option<Seq<char>>)
    ensures
        steps(blocks, name) matches Ok(story) ==> story.len() == paragraphs(blocks),
    decreases blocks.len(),
{
    if blocks.len() > 0 {
        match blocks[0] {
            Block::Heading(heading) => match heading_name(heading) {
                Ok(name) => lemma_one_step_per_paragraph(blocks.skip(1), Some(name)),
                Err(_) => {},
            },
            Block::ThematicBreak(_) => lemma_one_step_per_paragraph(blocks.skip(1), None),
            Block::Paragraph(_) => lemma_one_step_per_paragraph(blocks.skip(1), name),
            Block::Other(_) => {},
        }
    }
}

/// A step has one action for each node of its paragraph, in their order.
pub proof fn lemma_one_action_per_node(children: Seq<Inline>, name: Option<Seq<char>>)
    ensures
        actions(children, name) matches Ok(step) ==> {
            &&& step.len() == children.len()
            &&& forall|i: int|
                0 <= i < children.len() ==> inline_action(children[i], name) == Ok::<
                    StoryActionView,
                    ParseErrorView,
                >(#[trigger] step[i])
        },
    decreases children.len(),
{
    if children.len() > 0 {
        lemma_one_action_per_node(children.skip(1), name);
        match actions(children, name) {
            Ok(step) => {
                let rest = actions(children.skip(1), name)->Ok_0;
                assert forall|i: int| 0 <= i < children.len() implies inline_action(
                    children[i],
                    name,
                ) == Ok::<StoryActionView, ParseErrorView>(#[trigger] step[i]) by {
                    if i > 0 {
                        assert(children[i] == children.skip(1)[i - 1]);
                        assert(step[i] == rest[i - 1]);
                    }
                }
            },
            Err(_) => {},
        }
    }
}

/// A figure has a name, and its name is not empty.
pub proof fn lemma_figure_is_named(image: Image)
    ensures
        image_action(image) matches Ok(StoryActionView::Fig { name, .. }) ==> name.len() > 0,
{
    match image.title {
        Some(title) => {
            lemma_tokens_nonempty(title@);
        },
        None => {},
    }
}

/// A line of text is spoken by whoever the last heading before it names, and
/// by no one after a thematic break: the steps of a list of blocks behind a
/// heading or a thematic break are those of the rest, under the new speaker.
pub proof fn lemma_speaker(blocks: Seq<Block>, name: Option<Seq<char>>)
    requires
        blocks.len() > 0,
    ensures
        blocks[0] is ThematicBreak ==> steps(blocks, name) == steps(blocks.skip(1), None),
        blocks[0] matches Block::Heading(heading) ==> (heading_name(heading) matches Ok(speaker)
            ==> steps(blocks, name) == steps(blocks.skip(1), Some(speaker))),
{
}

} // verus!
