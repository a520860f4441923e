use nahida::duration::Duration;
use nahida::easing::EasingFunction;
use nahida::location::{Coordinate, Location, Percent, Position, Size};
use nahida::story::{Animation, AnimationType, Transition, TransitionType};
use nahida::token::Tokenizer;

fn all(text: &str) -> Vec<String> {
    let mut tokens = Tokenizer::new(text);
    let mut out = Vec::new();
    while let Some(token) = tokens.next() {
        out.push(token.to_string());
    }
    out
}

fn percent(s: &str) -> Percent {
    Percent::new(s).unwrap()
}

#[test]
fn tokens_are_words_split_at_a_slash() {
    assert_eq!(all(""), Vec::<String>::new());
    assert_eq!(all("   \t\n "), Vec::<String>::new());
    assert_eq!(all("left top"), vec!["left", "top"]);
    assert_eq!(all("  left \u{3000} top\u{a0}"), vec!["left", "top"]);
    assert_eq!(all("20%/cover"), vec!["20%", "/", "cover"]);
    assert_eq!(all("20% / cover"), vec!["20%", "/", "cover"]);
    assert_eq!(all("20%/ cover"), vec!["20%", "/", "cover"]);
    assert_eq!(all("20% /cover"), vec!["20%", "/", "cover"]);
    assert_eq!(all("/"), vec!["/"]);
    assert_eq!(all("//"), vec!["/", "/"]);
    assert_eq!(all("a/b/c"), vec!["a", "/", "b/c"]);
    assert_eq!(all("纳西妲/妲 x"), vec!["纳西妲", "/", "妲", "x"]);
}

#[test]
fn compact_and_spaced_slashes_give_the_same_tokens() {
    for (a, b) in [("20%", "cover"), ("left", "30%"), ("x", ""), ("", "y"), ("", "")] {
        assert_eq!(all(&format!("{a}/{b}")), all(&format!("{a} / {b}")));
    }
}

#[test]
fn peek_leaves_and_next_takes() {
    let mut tokens = Tokenizer::new("a b");
    assert_eq!(tokens.peek(), Some("a"));
    assert_eq!(tokens.peek(), Some("a"));
    assert_eq!(tokens.next(), Some("a"));
    assert_eq!(tokens.peek(), Some("b"));
    assert_eq!(tokens.next(), Some("b"));
    assert_eq!(tokens.peek(), None);
    assert_eq!(tokens.next(), None);
    assert_eq!(tokens.next(), None);
}

#[test]
fn name_is_the_next_token() {
    let mut tokens = Tokenizer::new("nahida left");
    assert_eq!(tokens.parse_name(), Some("nahida".to_string()));
    assert_eq!(tokens.parse_name(), Some("left".to_string()));
    assert_eq!(tokens.parse_name(), None);
    assert_eq!(Tokenizer::new("").parse_name(), None);
}

#[test]
fn remove_is_read_only_where_it_comes_next() {
    let mut tokens = Tokenizer::new("remove fade-in");
    assert!(tokens.parse_remove());
    assert_eq!(tokens.peek(), Some("fade-in"));
    assert!(!tokens.parse_remove());
    assert_eq!(tokens.peek(), Some("fade-in"));
    let mut tokens = Tokenizer::new("fade-in remove");
    assert!(!tokens.parse_remove());
    assert_eq!(tokens.next(), Some("fade-in"));
    assert!(tokens.parse_remove());
    assert!(!tokens.parse_remove());
    assert!(!Tokenizer::new("Remove").parse_remove());
}

#[test]
fn location_reads_places_then_sizes() {
    let mut tokens = Tokenizer::new("left top / cover rest");
    assert_eq!(
        tokens.parse_location(),
        Location { position: Position(Coordinate::Start, Coordinate::Start), size: Size::Cover }
    );
    assert_eq!(tokens.next(), Some("rest"));

    let mut tokens = Tokenizer::new("70% bottom/30% 20% to");
    assert_eq!(
        tokens.parse_location(),
        Location {
            position: Position(Coordinate::Percent(percent("70")), Coordinate::End),
            size: Size::Fixed(percent("30"), percent("20")),
        }
    );
    assert_eq!(tokens.next(), Some("to"));

    let mut tokens = Tokenizer::new("");
    assert_eq!(tokens.parse_location(), Location::default());
    let mut tokens = Tokenizer::new("20s left");
    assert_eq!(tokens.parse_location(), Location::default());
    assert_eq!(tokens.next(), Some("20s"));
}

#[test]
fn location_is_lenient() {
    let mut tokens = Tokenizer::new("20% left / cover cover x");
    assert_eq!(tokens.parse_location(), Location::default());
    assert_eq!(tokens.next(), Some("x"));

    let mut tokens = Tokenizer::new("left / x");
    assert_eq!(
        tokens.parse_location(),
        Location { position: Position(Coordinate::Start, Coordinate::Center), size: Size::Contain }
    );
    assert_eq!(tokens.next(), Some("x"));

    let mut tokens = Tokenizer::new("/ 40% / left");
    assert_eq!(
        tokens.parse_location(),
        Location {
            position: Position(Coordinate::Start, Coordinate::Start),
            size: Size::FixedWidth(percent("40")),
        }
    );
    assert_eq!(tokens.next(), Some("/"));

    let mut tokens = Tokenizer::new("left cover");
    assert_eq!(
        tokens.parse_location(),
        Location { position: Position(Coordinate::Start, Coordinate::Center), size: Size::Contain }
    );
    assert_eq!(tokens.next(), Some("cover"));
}

#[test]
fn transition_takes_what_is_said_last() {
    let t = |s: &str| Tokenizer::new(s).parse_transition();
    assert_eq!(t(""), None);
    assert_eq!(t("4s ease"), None);
    assert_eq!(
        t("fade-in"),
        Some(Transition {
            ty: TransitionType::FadeIn,
            time: Duration::from_secs(1),
            easing: EasingFunction::Linear
        })
    );
    assert_eq!(
        t("ease-out 4s fade-in"),
        Some(Transition {
            ty: TransitionType::FadeIn,
            time: Duration::from_secs(4),
            easing: EasingFunction::ease_out()
        })
    );
    assert_eq!(
        t("fade-in 4s 250ms ease step-end junk conic-out"),
        Some(Transition {
            ty: TransitionType::ConicOut,
            time: Duration::from_millis(250),
            easing: EasingFunction::StepEnd
        })
    );
    for (word, ty) in [
        ("fade-in", TransitionType::FadeIn),
        ("fade-out", TransitionType::FadeOut),
        ("conic-in", TransitionType::ConicIn),
        ("conic-out", TransitionType::ConicOut),
        ("blinds-in", TransitionType::BlindsIn),
        ("blinds-out", TransitionType::BlindsOut),
        ("shake", TransitionType::Shake),
    ] {
        assert_eq!(t(word).unwrap().ty, ty);
    }
    let mut tokens = Tokenizer::new("fade-in x y");
    tokens.parse_transition();
    assert_eq!(tokens.next(), None);
}

#[test]
fn animation_takes_what_is_said_last() {
    let a = |s: &str| Tokenizer::new(s).parse_animation();
    assert_eq!(a(""), None);
    assert_eq!(a("20s ease"), None);
    assert_eq!(
        a("shake"),
        Some(Animation {
            ty: AnimationType::Shake,
            time: Duration::from_secs(60),
            easing: EasingFunction::Linear
        })
    );
    assert_eq!(
        a("to 20% top / auto 30% 20s ease-in-out"),
        Some(Animation {
            ty: AnimationType::To {
                location: Location {
                    position: Position(Coordinate::Percent(percent("20")), Coordinate::Start),
                    size: Size::FixedHeight(percent("30")),
                }
            },
            time: Duration::from_secs(20),
            easing: EasingFunction::ease_in_out()
        })
    );
    assert_eq!(
        a("5s to left shake 7s to right"),
        Some(Animation {
            ty: AnimationType::To {
                location: Location {
                    position: Position(Coordinate::End, Coordinate::Center),
                    size: Size::Contain,
                }
            },
            time: Duration::from_secs(7),
            easing: EasingFunction::Linear
        })
    );
    assert_eq!(
        a("to"),
        Some(Animation {
            ty: AnimationType::To { location: Location::default() },
            time: Duration::from_secs(60),
            easing: EasingFunction::Linear
        })
    );
    let mut tokens = Tokenizer::new("to left x y");
    tokens.parse_animation();
    assert_eq!(tokens.next(), None);
}

#[test]
fn no_token_and_no_name_is_empty() {
    for text in ["", " ", "/", " / ", "a//b", "/a/", "  x  /  ", "纳/\u{3000}/"] {
        let mut tokens = Tokenizer::new(text);
        while let Some(token) = tokens.peek() {
            assert!(!token.is_empty());
            assert!(!tokens.parse_name().unwrap().is_empty());
        }
        assert_eq!(tokens.parse_name(), None);
    }
}

#[test]
fn a_slash_without_a_size_is_noted() {
    let mut tokens = Tokenizer::new("left / x");
    assert!(!tokens.lacks_size());
    tokens.parse_location();
    assert!(tokens.lacks_size());
    tokens.next();
    assert!(tokens.lacks_size());

    let mut tokens = Tokenizer::new("left / cover to / 5s");
    tokens.parse_location();
    assert!(!tokens.lacks_size());
    tokens.parse_animation();
    assert!(tokens.lacks_size());

    let mut tokens = Tokenizer::new("remove fade-in / x");
    tokens.parse_remove();
    tokens.parse_transition();
    assert!(!tokens.lacks_size());

    let mut tokens = Tokenizer::new("to left / auto shake to top");
    tokens.parse_animation();
    assert!(!tokens.lacks_size());
}
