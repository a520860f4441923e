use nahida::document::{
    Block, Heading, Image, Inline, Link, Paragraph, Point, Root, Span, Text, ThematicBreak, Unknown,
};
use nahida::duration::Duration;
use nahida::easing::EasingFunction;
use nahida::location::{Coordinate, Percent};
use nahida::parser::{lacks_size_words, parse_story, NahidaParser, ParseError, ParseErrorType};
use nahida::story::{StoryAction as A, Transition, TransitionType};

#[derive(Debug, PartialEq)]
struct Position(f32, f32);

#[derive(Debug, PartialEq)]
enum Size {
    Cover,
    Contain,
    FixedWidth(f32),
    FixedHeight(f32),
    Fixed(f32, f32),
}

#[derive(Debug, PartialEq)]
struct Location {
    position: Position,
    size: Size,
}

impl Location {
    fn default() -> Location {
        Location { position: Position(0.0, 0.0), size: Size::Contain }
    }
}

#[derive(Debug, PartialEq)]
enum AnimationType {
    To { location: Location },
    Shake,
}

#[derive(Debug, PartialEq)]
struct Animation {
    ty: AnimationType,
    time: Duration,
    easing: EasingFunction,
}

#[derive(Debug, PartialEq)]
enum StoryAction {
    Wait { time: Duration },
    Text { name: Option<String>, text: String },
    Bg { url: String, transition: Option<Transition>, animation: Option<Animation>, location: Location },
    Fig {
        name: String,
        url: String,
        transition: Option<Transition>,
        animation: Option<Animation>,
        location: Location,
        removal: bool,
    },
    Bgm { url: String },
    Sfx { url: String },
    Navigate { url: String, ret: bool },
}

#[derive(Debug, PartialEq)]
struct StoryStep {
    actions: Vec<StoryAction>,
}

#[derive(Debug, PartialEq)]
struct Story {
    steps: Vec<StoryStep>,
}

fn number(p: &Percent) -> f32 {
    p.literal().parse::<f32>().unwrap() / 100.0
}

fn coordinate(c: &Coordinate) -> f32 {
    match c {
        Coordinate::Start => 0.0,
        Coordinate::Center => 0.5,
        Coordinate::End => 1.0,
        Coordinate::Percent(p) => number(p),
        Coordinate::PercentFromEnd(p) => 1.0 - number(p),
    }
}

fn location(l: &nahida::location::Location) -> Location {
    Location {
        position: Position(coordinate(&l.position.0), coordinate(&l.position.1)),
        size: match &l.size {
            nahida::location::Size::Cover => Size::Cover,
            nahida::location::Size::Contain => Size::Contain,
            nahida::location::Size::FixedWidth(w) => Size::FixedWidth(number(w)),
            nahida::location::Size::FixedHeight(h) => Size::FixedHeight(number(h)),
            nahida::location::Size::Fixed(w, h) => Size::Fixed(number(w), number(h)),
        },
    }
}

fn animation(a: &Option<nahida::story::Animation>) -> Option<Animation> {
    a.as_ref().map(|a| Animation {
        ty: match &a.ty {
            nahida::story::AnimationType::To { location: l } => AnimationType::To { location: location(l) },
            nahida::story::AnimationType::Shake => AnimationType::Shake,
        },
        time: a.time,
        easing: a.easing,
    })
}

fn action(a: &nahida::story::StoryAction) -> StoryAction {
    match a {
        A::Wait { time } => StoryAction::Wait { time: *time },
        A::Text { name, text } => StoryAction::Text { name: name.clone(), text: text.clone() },
        A::Bg { url, transition, animation: a, location: l } => StoryAction::Bg {
            url: url.clone(),
            transition: *transition,
            animation: animation(a),
            location: location(l),
        },
        A::Fig { name, url, transition, animation: a, location: l, removal } => StoryAction::Fig {
            name: name.clone(),
            url: url.clone(),
            transition: *transition,
            animation: animation(a),
            location: location(l),
            removal: *removal,
        },
        A::Bgm { url } => StoryAction::Bgm { url: url.clone() },
        A::Sfx { url } => StoryAction::Sfx { url: url.clone() },
        A::Navigate { url, ret } => StoryAction::Navigate { url: url.clone(), ret: *ret },
    }
}

fn parse(text: &str) -> Result<Story, ParseError> {
    NahidaParser::default().parse_text(text).map(|story| Story {
        steps: story
            .steps
            .iter()
            .map(|step| StoryStep { actions: step.actions.iter().map(action).collect() })
            .collect(),
    })
}

fn kind(text: &str) -> ParseErrorType {
    parse(text).unwrap_err().ty
}

fn story(steps: Vec<StoryStep>) -> Story {
    Story { steps }
}

fn steps(actions: Vec<StoryAction>) -> StoryStep {
    StoryStep { actions }
}

#[test]
fn test_basic() {
    let story = story(vec![
        steps(vec![StoryAction::Text {
            name: Some("纳西妲".to_string()),
            text: "「你好呀」".to_string(),
        }]),
        steps(vec![StoryAction::Text {
            name: Some("我".to_string()),
            text: "「……」".to_string(),
        }]),
        steps(vec![StoryAction::Text {
            name: Some("我".to_string()),
            text: "「……你好」".to_string(),
        }]),
        steps(vec![StoryAction::Text {
            name: None,
            text: "突然有个羽毛球上前向我搭话，我莫名感觉到有些慌乱".to_string(),
        }]),
        steps(vec![StoryAction::Text {
            name: None,
            text: "定睛一看，才发现是个少女".to_string(),
        }]),
    ]);

    let text = "# 纳西妲\n\n「你好呀」\n\n# 我\n\n「……」\n\n「……你好」\n\n---\n\n突然有个羽毛球上前向我搭话，我莫名感觉到有些慌乱\n\n定睛一看，才发现是个少女\n";
    assert_eq!(parse(text).unwrap(), story);
}

#[test]
fn test_background() {
    let url = || "file:///background.png".to_string();
    let story = story(vec![
        steps(vec![StoryAction::Bg {
            url: url(),
            transition: None,
            animation: None,
            location: Location::default(),
        }]),
        steps(vec![StoryAction::Bg {
            url: url(),
            transition: None,
            animation: None,
            location: Location { position: Position(0.0, 0.5), size: Size::Contain },
        }]),
        steps(vec![StoryAction::Bg {
            url: url(),
            transition: None,
            animation: None,
            location: Location { position: Position(0.0, 0.5), size: Size::Cover },
        }]),
        steps(vec![StoryAction::Bg {
            url: url(),
            transition: None,
            animation: None,
            location: Location { position: Position(0.0, 0.2), size: Size::FixedHeight(0.3) },
        }]),
        steps(vec![StoryAction::Bg {
            url: url(),
            transition: None,
            animation: Some(Animation {
                ty: AnimationType::To {
                    location: Location { position: Position(0.2, 0.8), size: Size::FixedWidth(0.4) },
                },
                time: Duration::from_secs(60),
                easing: EasingFunction::Linear,
            }),
            location: Location { position: Position(0.7, 1.0), size: Size::Fixed(0.3, 0.2) },
        }]),
        steps(vec![StoryAction::Bg {
            url: url(),
            transition: None,
            animation: Some(Animation {
                ty: AnimationType::To {
                    location: Location { position: Position(0.2, 0.0), size: Size::FixedHeight(0.3) },
                },
                time: Duration::from_secs(20),
                easing: EasingFunction::ease_in_out(),
            }),
            location: Location { position: Position(0.7, 1.0), size: Size::Fixed(0.3, 0.2) },
        }]),
        steps(vec![StoryAction::Bg {
            url: url(),
            transition: Some(Transition {
                ty: TransitionType::FadeIn,
                time: Duration::from_secs(1),
                easing: EasingFunction::Linear,
            }),
            animation: None,
            location: Location::default(),
        }]),
        steps(vec![StoryAction::Bg {
            url: url(),
            transition: Some(Transition {
                ty: TransitionType::FadeOut,
                time: Duration::from_secs(5),
                easing: EasingFunction::StepStart,
            }),
            animation: None,
            location: Location::default(),
        }]),
    ]);

    let text = "![bg](file:///background.png)\n\n\
![bg](file:///background.png \"left\")\n\n\
![bg](file:///background.png \"left / cover\")\n\n\
![bg](file:///background.png \"left 20% / auto 30%\")\n\n\
![bg](file:///background.png \"70% bottom / 30% 20% to 20% 80% / 40%\")\n\n\
![bg](file:///background.png \"70% bottom / 30% 20% to 20% top / auto 30% 20s ease-in-out\")\n\n\
![bg fade-in](file:///background.png)\n\n\
![bg fade-out 5s step-start](file:///background.png)\n";
    assert_eq!(parse(text).unwrap(), story);
}

#[test]
fn test_figure() {
    let story = story(vec![
        steps(vec![StoryAction::Fig {
            name: "nahida".to_string(),
            url: "./figure.png".to_string(),
            transition: None,
            animation: None,
            location: Location::default(),
            removal: false,
        }]),
        steps(vec![StoryAction::Fig {
            name: "nahida".to_string(),
            url: "./figure.png".to_string(),
            transition: Some(Transition {
                ty: TransitionType::FadeIn,
                time: Duration::from_secs(4),
                easing: EasingFunction::ease_out(),
            }),
            animation: Some(Animation {
                ty: AnimationType::To {
                    location: Location { position: Position(0.2, 0.0), size: Size::FixedHeight(0.3) },
                },
                time: Duration::from_secs(20),
                easing: EasingFunction::ease_in_out(),
            }),
            location: Location { position: Position(0.7, 1.0), size: Size::Fixed(0.3, 0.2) },
            removal: false,
        }]),
        steps(vec![StoryAction::Fig {
            name: "nahida".to_string(),
            url: "./figure.png".to_string(),
            transition: Some(Transition {
                ty: TransitionType::ConicOut,
                time: Duration::from_secs(4),
                easing: EasingFunction::Linear,
            }),
            animation: None,
            location: Location::default(),
            removal: true,
        }]),
    ]);

    let text = "![fig](./figure.png \"nahida\")\n\n\
![fig fade-in 4s ease-out](./figure.png \"nahida 70% bottom / 30% 20% to 20% top / auto 30% 20s ease-in-out\")\n\n\
![fig remove conic-out 4s](./figure.png \"nahida\")\n";
    assert_eq!(parse(text), Ok(story));
}

#[test]
fn a_heading_names_who_speaks_and_a_break_no_one() {
    assert_eq!(
        parse("# Alice\n\nHello\n").unwrap(),
        story(vec![steps(vec![StoryAction::Text {
            name: Some("Alice".to_string()),
            text: "Hello".to_string(),
        }])])
    );
    assert_eq!(
        parse("# Alice\n\nHello\n\n---\n\nBye\n").unwrap(),
        story(vec![
            steps(vec![StoryAction::Text { name: Some("Alice".to_string()), text: "Hello".to_string() }]),
            steps(vec![StoryAction::Text { name: None, text: "Bye".to_string() }]),
        ])
    );
    assert_eq!(parse("").unwrap(), story(vec![]));
    assert_eq!(parse("# Alice\n\n---\n").unwrap(), story(vec![]));
    assert_eq!(parse_story("Hello\n").unwrap().steps.len(), 1);
}

#[test]
fn an_image_of_the_background() {
    assert_eq!(
        parse("![bg fade-in 1s linear](bg.png \"left top / cover\")").unwrap(),
        story(vec![steps(vec![StoryAction::Bg {
            url: "bg.png".to_string(),
            transition: Some(Transition {
                ty: TransitionType::FadeIn,
                time: Duration::from_secs(1),
                easing: EasingFunction::Linear,
            }),
            location: Location { position: Position(0.0, 0.0), size: Size::Cover },
            animation: None,
        }])])
    );
}

#[test]
fn links_wait_and_lead_on() {
    assert_eq!(
        parse("[wait](#500)").unwrap(),
        story(vec![steps(vec![StoryAction::Wait { time: Duration::from_millis(500) }])])
    );
    assert_eq!(
        parse("[wait](7)").unwrap(),
        story(vec![steps(vec![StoryAction::Wait { time: Duration::from_millis(7) }])])
    );
    assert_eq!(kind("[wait](##500)"), ParseErrorType::InvalidWaitTime("#500".to_string()));
    assert_eq!(kind("[wait](###7)"), ParseErrorType::InvalidWaitTime("##7".to_string()));
    assert_eq!(kind("[wait](#)"), ParseErrorType::InvalidWaitTime("".to_string()));
    assert_eq!(
        parse("[goto](./next.md) [end here](./over.md)").unwrap(),
        story(vec![steps(vec![
            StoryAction::Navigate { url: "./next.md".to_string(), ret: false },
            StoryAction::Text { name: None, text: " ".to_string() },
            StoryAction::Navigate { url: "./over.md".to_string(), ret: true },
        ])])
    );
    assert_eq!(kind("[wait](#abc)"), ParseErrorType::InvalidWaitTime("abc".to_string()));
    assert_eq!(kind("[wait](#-5)"), ParseErrorType::InvalidWaitTime("-5".to_string()));
    assert_eq!(kind("[wait](<>)"), ParseErrorType::InvalidWaitTime("".to_string()));
    assert_eq!(kind("[x](#abc)"), ParseErrorType::InvalidLink);
    assert_eq!(kind("[*goto*](a.md)"), ParseErrorType::InvalidLink);
    assert_eq!(kind("[](a.md)"), ParseErrorType::InvalidLink);
}

#[test]
fn sounds_and_figures() {
    assert_eq!(
        parse("![bgm](a.ogg) ![sfx x](b.ogg \"y\")").unwrap(),
        story(vec![steps(vec![
            StoryAction::Bgm { url: "a.ogg".to_string() },
            StoryAction::Text { name: None, text: " ".to_string() },
            StoryAction::Sfx { url: "b.ogg".to_string() },
        ])])
    );
    assert_eq!(kind("![fig](f.png)"), ParseErrorType::NoFigureName);
    assert_eq!(kind("![fig](f.png \"  \")"), ParseErrorType::NoFigureName);
    assert_eq!(kind("![figure](f.png \"a\")"), ParseErrorType::InvalidImage);
    assert_eq!(kind("![](f.png)"), ParseErrorType::InvalidImage);
    let late = parse("![fig fade-in remove](f.png \"a\")").unwrap();
    assert_eq!(
        late.steps[0].actions[0],
        StoryAction::Fig {
            name: "a".to_string(),
            url: "f.png".to_string(),
            transition: Some(Transition {
                ty: TransitionType::FadeIn,
                time: Duration::from_secs(1),
                easing: EasingFunction::Linear,
            }),
            animation: None,
            location: Location::default(),
            removal: false,
        }
    );
}

#[test]
fn errors_say_what_and_where() {
    let error = parse("Hello\n\n# *Alice*\n").unwrap_err();
    assert_eq!(error.ty, ParseErrorType::InvalidHeading);
    assert_eq!(
        error.position,
        Some(Span {
            start: Point { line: 3, column: 1, offset: 7 },
            end: Point { line: 3, column: 10, offset: 16 },
        })
    );
    let error = parse("a\n\n- b\n").unwrap_err();
    assert!(matches!(error.ty, ParseErrorType::UnknownNode(ref d) if d.starts_with("List")));
    assert_eq!(error.position.unwrap().start.line, 3);
    let error = parse("a *b*\n").unwrap_err();
    assert_eq!(error.ty, ParseErrorType::UnsupportedInline);
    assert_eq!(error.position.unwrap().start.column, 3);
    let error = parse("ok\n\n![fig](f.png)\n\n- never read\n").unwrap_err();
    assert_eq!(error.ty, ParseErrorType::NoFigureName);
    assert_eq!(error.position.unwrap().start.line, 3);
}

#[test]
fn a_document_is_compiled_as_it_stands() {
    let text = |s: &str| Inline::Text(Text { value: s.to_string(), position: None });
    let at = Some(Span {
        start: Point { line: 1, column: 1, offset: 0 },
        end: Point { line: 1, column: 2, offset: 1 },
    });
    let root = Root {
        children: vec![
            Block::Heading(Heading { children: vec![text("A")], position: None }),
            Block::Paragraph(Paragraph {
                children: vec![
                    text("one"),
                    Inline::Link(Link { children: vec![text("wait")], url: "#3".to_string(), position: None }),
                    Inline::Image(Image {
                        alt: "bgm".to_string(),
                        url: "m.ogg".to_string(),
                        title: None,
                        position: None,
                    }),
                ],
                position: None,
            }),
            Block::ThematicBreak(ThematicBreak { position: None }),
            Block::Paragraph(Paragraph { children: vec![text("two")], position: None }),
        ],
        position: None,
    };
    let story = NahidaParser::default().parse_root(&root).unwrap();
    assert_eq!(story.steps.len(), 2);
    assert_eq!(
        story.steps[0].actions,
        vec![
            nahida::story::StoryAction::Text { name: Some("A".to_string()), text: "one".to_string() },
            nahida::story::StoryAction::Wait { time: Duration::from_millis(3) },
            nahida::story::StoryAction::Bgm { url: "m.ogg".to_string() },
        ]
    );
    assert_eq!(
        story.steps[1].actions,
        vec![nahida::story::StoryAction::Text { name: None, text: "two".to_string() }]
    );

    let mut parser = NahidaParser::default();
    let two = Heading { children: vec![text("a"), text("b")], position: at };
    assert_eq!(
        parser.parse_heading(&two),
        Err(ParseError { ty: ParseErrorType::InvalidHeading, position: at })
    );
    let none = Heading { children: vec![], position: None };
    assert_eq!(parser.parse_heading(&none).unwrap_err().ty, ParseErrorType::InvalidHeading);
    let other = Unknown { description: "Code".to_string(), position: at };
    let root = Root { children: vec![Block::Other(other)], position: None };
    assert_eq!(
        parser.parse_root(&root),
        Err(ParseError { ty: ParseErrorType::UnknownNode("Code".to_string()), position: at })
    );
    let odd = Paragraph {
        children: vec![Inline::Other(Unknown { description: "Break".to_string(), position: at })],
        position: None,
    };
    assert_eq!(
        parser.parse_paragraph(&odd, &None),
        Err(ParseError { ty: ParseErrorType::UnsupportedInline, position: at })
    );
    let link = Link { children: vec![text("goto")], url: "x".to_string(), position: at };
    assert_eq!(
        parser.parse_link(&link),
        Ok(nahida::story::StoryAction::Navigate { url: "x".to_string(), ret: false })
    );
    let image = Image { alt: "fig".to_string(), url: "f".to_string(), title: None, position: at };
    assert_eq!(
        parser.parse_image(&image),
        Err(ParseError { ty: ParseErrorType::NoFigureName, position: at })
    );
}

#[test]
fn every_kind_of_error_has_its_message() {
    assert_eq!(
        ParseErrorType::DocumentError("x".to_string()).message(),
        "failed to parse markdown: x"
    );
    assert_eq!(ParseErrorType::UnknownNode("List".to_string()).message(), "unknown markdown node: List");
    assert_eq!(ParseErrorType::InvalidHeading.message(), "invalid heading");
    assert_eq!(ParseErrorType::InvalidLink.message(), "invalid link");
    assert_eq!(ParseErrorType::InvalidImage.message(), "invalid image");
    assert_eq!(ParseErrorType::NoFigureName.message(), "figure should have a name");
    assert_eq!(ParseErrorType::InvalidWaitTime("abc".to_string()).message(), "invalid wait time: abc");
    assert_eq!(ParseErrorType::InvalidUrl("::".to_string()).message(), "invalid url: ::");
    assert_eq!(ParseErrorType::UnsupportedInline.message(), "unsupported inline node");
}

#[test]
fn an_image_may_announce_a_size_and_say_none() {
    let image = |alt: &str, title: Option<&str>| Image {
        alt: alt.to_string(),
        url: "a.png".to_string(),
        title: title.map(|t| t.to_string()),
        position: None,
    };
    assert!(lacks_size_words(&image("bg", Some("left /"))));
    assert!(lacks_size_words(&image("bg", Some("/"))));
    assert!(lacks_size_words(&image("bg", Some("left / 20s"))));
    assert!(lacks_size_words(&image("bg fade-in", Some("left / cover to right / 5s"))));
    assert!(lacks_size_words(&image("fig", Some("nahida top/"))));
    assert!(!lacks_size_words(&image("bg", Some("left / cover"))));
    assert!(!lacks_size_words(&image("bg", Some("left cover /"))));
    assert!(!lacks_size_words(&image("bg", Some("left"))));
    assert!(!lacks_size_words(&image("bg", None)));
    assert!(!lacks_size_words(&image("fig", Some("/"))));
    assert!(!lacks_size_words(&image("fig", None)));
    assert!(!lacks_size_words(&image("bgm", Some("left /"))));
    assert!(!lacks_size_words(&image("", Some("left /"))));
    assert_eq!(
        NahidaParser::default().parse_image(&image("bg", Some("left /"))),
        Ok(A::Bg {
            url: "a.png".to_string(),
            transition: None,
            animation: None,
            location: nahida::location::Location {
                position: nahida::location::Position(Coordinate::Start, Coordinate::Center),
                size: nahida::location::Size::Contain,
            },
        })
    );
}

#[test]
fn a_text_is_read_and_then_compiled() {
    let mut parser = NahidaParser::default();
    let root = parser.parse_document("# A\n\none\n").unwrap();
    assert_eq!(root.children.len(), 2);
    assert!(matches!(root.children[0], Block::Heading(_)));
    assert_eq!(parser.parse_root(&root), parser.parse_text("# A\n\none\n"));
}
