//! The tokens of an attribute string, and the directives read from them.

use vstd::prelude::*;
use crate::animation::{easing_name, parse_easing, parse_time, time_literal};
use crate::duration::Duration;
use crate::easing::EasingFunction;
use crate::location::{default_position, Location, LocationView, Position, Size, SizeView};
use crate::position::{
    parse_position, parse_position_keyword, position_keyword, resolve_position, PositionKeyword,
    PositionKeywordView,
};
use crate::size::{
    parse_size, parse_size_keyword, resolve_size, size_keyword, SizeKeyword, SizeKeywordView,
};
use crate::story::{
    Animation, AnimationType, AnimationTypeView, AnimationView, Transition, TransitionType,
};
use crate::text::{char_is_whitespace, chars_of, is_whitespace, str_eq};

verus! {

/// How many characters stand before the first whitespace of a text.
pub open spec fn word_len(s: Seq<char>) -> nat
    decreases s.len(),
{
    if s.len() == 0 || is_whitespace(s[0]) {
        0
    } else {
        1 + word_len(s.skip(1))
    }
}

/// How many characters stand before the first `/` of a text.
pub open spec fn slash_at(s: Seq<char>) -> nat
    decreases s.len(),
{
    if s.len() == 0 || s[0] == '/' {
        0
    } else {
        1 + slash_at(s.skip(1))
    }
}

/// A text as a list of one, or of none if it is empty.
pub open spec fn piece(s: Seq<char>) -> Seq<Seq<char>> {
    if s.len() == 0 {
        seq![]
    } else {
        seq![s]
    }
}

/// The tokens of one word: the word itself, or, where it holds a `/`, what
/// stands before the first one, the `/`, and what stands after it, of which
/// the empty ones are left out.
pub open spec fn pieces(word: Seq<char>) -> Seq<Seq<char>> {
    let at = slash_at(word) as int;
    if at == word.len() {
        piece(word)
    } else {
        piece(word.take(at)) + seq![seq!['/']] + piece(word.skip(at + 1))
    }
}

/// The tokens of an attribute string: the pieces of its words, which
/// whitespace separates, in their order.
pub open spec fn tokens(s: Seq<char>) -> Seq<Seq<char>>
    decreases s.len(),
{
    if s.len() == 0 {
        seq![]
    } else if is_whitespace(s[0]) {
        tokens(s.skip(1))
    } else {
        proof {
            lemma_word_len_bound(s);
        }
        pieces(s.take(word_len(s) as int)) + tokens(s.skip(word_len(s) as int))
    }
}

/// A word is no longer than the text that it starts.
pub proof fn lemma_word_len_bound(s: Seq<char>)
    ensures
        word_len(s) <= s.len(),
    decreases s.len(),
{
    if s.len() > 0 && !is_whitespace(s[0]) {
        lemma_word_len_bound(s.skip(1));
    }
}

/// The texts of a list of string slices.
pub open spec fn texts(v: Seq<&str>) -> Seq<Seq<char>> {
    Seq::new(v.len(), |i: int| v[i]@)
}

/// The first whitespace of a text stands where no whitespace stands before
/// and one stands, or the text ends.
pub proof fn lemma_word_len(s: Seq<char>, n: int)
    requires
        0 <= n <= s.len(),
        forall|k: int| 0 <= k < n ==> !is_whitespace(#[trigger] s[k]),
        n < s.len() ==> is_whitespace(s[n]),
    ensures
        word_len(s) == n,
    decreases n,
{
    if n > 0 {
        let t = s.skip(1);
        assert forall|k: int| 0 <= k < n - 1 implies !is_whitespace(#[trigger] t[k]) by {
            assert(t[k] == s[k + 1]);
        }
        lemma_word_len(t, n - 1);
    }
}

/// The first `/` of a text stands where none stands before and one stands, or
/// the text ends.
pub proof fn lemma_slash_at(s: Seq<char>, n: int)
    requires
        0 <= n <= s.len(),
        forall|k: int| 0 <= k < n ==> #[trigger] s[k] != '/',
        n < s.len() ==> s[n] == '/',
    ensures
        slash_at(s) == n,
    decreases n,
{
    if n > 0 {
        let t = s.skip(1);
        assert forall|k: int| 0 <= k < n - 1 implies #[trigger] t[k] != '/' by {
            assert(t[k] == s[k + 1]);
        }
        lemma_slash_at(t, n - 1);
    }
}

/// No token is empty.
pub proof fn lemma_tokens_nonempty(s: Seq<char>)
    ensures
        forall|i: int| 0 <= i < tokens(s).len() ==> (#[trigger] tokens(s)[i]).len() > 0,
    decreases s.len(),
{
    if s.len() == 0 {
        assert(tokens(s).len() == 0);
    } else if is_whitespace(s[0]) {
        lemma_tokens_nonempty(s.skip(1));
        assert(tokens(s) == tokens(s.skip(1)));
    } else {
        lemma_word_len_bound(s);
        lemma_tokens_nonempty(s.skip(word_len(s) as int));
        assert(word_len(s) >= 1);
        let first = pieces(s.take(word_len(s) as int));
        let rest = tokens(s.skip(word_len(s) as int));
        assert forall|i: int| 0 <= i < first.len() implies (#[trigger] first[i]).len() > 0 by {}
        assert forall|i: int| 0 <= i < tokens(s).len() implies (#[trigger] tokens(s)[i]).len()
            > 0 by {
            if i >= first.len() {
                assert(tokens(s)[i] == rest[i - first.len()]);
            } else {
                assert(tokens(s)[i] == first[i]);
            }
        }
    }
}

/// Neither whitespace nor a `/` stands in a text.
pub open spec fn is_plain(s: Seq<char>) -> bool {
    forall|i: int| 0 <= i < s.len() ==> !is_whitespace(#[trigger] s[i]) && s[i] != '/'
}

/// The tokens of a word and of what follows it behind a space are the
/// pieces of the word, and then the tokens of what follows.
pub proof fn lemma_tokens_after_word(word: Seq<char>, rest: Seq<char>)
    requires
        forall|i: int| 0 <= i < word.len() ==> !is_whitespace(#[trigger] word[i]),
    ensures
        tokens(word + seq![' '] + rest) == (if word.len() == 0 {
            seq![]
        } else {
            pieces(word)
        }) + tokens(rest),
{
    let whole = word + seq![' '] + rest;
    let behind = seq![' '] + rest;
    assert(is_whitespace(' '));
    assert(behind.skip(1) == rest);
    assert(tokens(behind) == tokens(rest));
    if word.len() == 0 {
        assert(whole == behind);
    } else {
        assert(whole[word.len() as int] == ' ');
        assert forall|k: int| 0 <= k < word.len() implies !is_whitespace(#[trigger] whole[k]) by {
            assert(whole[k] == word[k]);
        }
        lemma_word_len(whole, word.len() as int);
        assert(whole.take(word.len() as int) == word);
        assert(whole.skip(word.len() as int) == behind);
    }
}

/// The tokens of a text without whitespace or `/` are the text itself, if
/// there is any.
pub proof fn lemma_tokens_of_plain(word: Seq<char>)
    requires
        is_plain(word),
    ensures
        tokens(word) == piece(word),
        word.len() > 0 ==> pieces(word) == piece(word),
{
    if word.len() > 0 {
        lemma_word_len(word, word.len() as int);
        lemma_slash_at(word, word.len() as int);
        assert(!is_whitespace(word[0]));
        assert(word.take(word.len() as int) == word);
        assert(tokens(word.skip(word.len() as int)) == Seq::<Seq<char>>::empty());
        assert(piece(word) + Seq::<Seq<char>>::empty() == piece(word));
    } else {
        assert(tokens(word) == Seq::<Seq<char>>::empty());
    }
}

/// A `/` between two texts gives the same tokens whether it stands close to
/// them or apart: `20%/cover` reads as `20% / cover`.
pub proof fn lemma_slash_close_or_apart(before: Seq<char>, after: Seq<char>)
    requires
        is_plain(before),
        is_plain(after),
    ensures
        tokens(before + seq!['/'] + after) == tokens(before + seq![' ', '/', ' '] + after),
        tokens(before + seq!['/'] + after) == piece(before) + seq![seq!['/']] + piece(after),
{
    let close = before + seq!['/'] + after;
    let at = before.len() as int;
    assert(!is_whitespace('/'));
    assert forall|k: int| 0 <= k < close.len() implies !is_whitespace(#[trigger] close[k]) by {
        if k < at {
            assert(close[k] == before[k]);
        } else if k > at {
            assert(close[k] == after[k - at - 1]);
        }
    }
    lemma_word_len(close, close.len() as int);
    assert forall|k: int| 0 <= k < at implies #[trigger] close[k] != '/' by {
        assert(close[k] == before[k]);
    }
    assert(close[at] == '/');
    lemma_slash_at(close, at);
    assert(!is_whitespace(close[0]));
    assert(close.take(close.len() as int) == close);
    assert(tokens(close.skip(close.len() as int)) == Seq::<Seq<char>>::empty());
    assert(close.take(at) == before);
    assert(close.skip(at + 1) == after);
    assert(pieces(close) + Seq::<Seq<char>>::empty() == pieces(close));
    assert(tokens(close) == piece(before) + seq![seq!['/']] + piece(after));

    let slash = seq!['/'];
    assert(before + seq![' ', '/', ' '] + after == before + seq![' '] + (slash + seq![' '] + after));
    lemma_tokens_after_word(before, slash + seq![' '] + after);
    lemma_tokens_after_word(slash, after);
    lemma_slash_at(slash, 0);
    assert(slash.take(0).len() == 0);
    assert(slash.skip(1).len() == 0);
    assert(pieces(slash) == seq![slash]);
    lemma_tokens_of_plain(after);
    lemma_tokens_of_plain(before);
    assert(seq![slash] + piece(after) == seq![seq!['/']] + piece(after));
    assert(piece(before) + (seq![slash] + piece(after)) == piece(before) + seq![slash] + piece(
        after,
    ));
}

/// Adds the pieces of the word that stands at `from..to` of `text` to `out`.
fn push_pieces<'a>(out: &mut Vec<&'a str>, text: &'a str, chars: &Vec<char>, from: usize, to: usize)
    requires
        chars@ == text@,
        from < to <= chars@.len(),
    ensures
        texts(final(out)@) == texts(old(out)@) + pieces(chars@.subrange(from as int, to as int)),
{
    let ghost word = chars@.subrange(from as int, to as int);
    let ghost before = texts(out@);
    let mut at: usize = from;
    while at < to && chars[at] != '/'
        invariant
            from <= at <= to <= chars@.len(),
            word == chars@.subrange(from as int, to as int),
            forall|k: int| 0 <= k < at - from ==> #[trigger] word[k] != '/',
        decreases to - at,
    {
        at += 1;
    }
    proof {
        lemma_slash_at(word, at - from);
    }
    if at == to {
        out.push(text.substring_char(from, to));
        assert(texts(out@) == before + pieces(word));
    } else {
        if from < at {
            out.push(text.substring_char(from, at));
        }
        assert(word.take(at - from) == chars@.subrange(from as int, at as int));
        assert(texts(out@) == before + piece(word.take(at - from)));
        out.push(text.substring_char(at, at + 1));
        assert(chars@.subrange(at as int, at + 1) == seq!['/']);
        if at + 1 < to {
            out.push(text.substring_char(at + 1, to));
        }
        assert(word.skip(at - from + 1) == chars@.subrange(at + 1, to as int));
        assert(texts(out@) == before + pieces(word));
    }
}

/// The keywords of places that a list of tokens starts with.
pub open spec fn position_run(tokens: Seq<Seq<char>>) -> Seq<PositionKeywordView>
    decreases tokens.len(),
{
    if tokens.len() > 0 && position_keyword(tokens[0]) is Some {
        seq![position_keyword(tokens[0]).unwrap()] + position_run(tokens.skip(1))
    } else {
        seq![]
    }
}

/// The keywords of sizes that a list of tokens starts with.
pub open spec fn size_run(tokens: Seq<Seq<char>>) -> Seq<SizeKeywordView>
    decreases tokens.len(),
{
    if tokens.len() > 0 && size_keyword(tokens[0]) is Some {
        seq![size_keyword(tokens[0]).unwrap()] + size_run(tokens.skip(1))
    } else {
        seq![]
    }
}

/// Whether a `/` follows the keywords of places that a list of tokens starts
/// with.
pub open spec fn has_size(tokens: Seq<Seq<char>>) -> bool {
    let places = position_run(tokens).len() as int;
    places < tokens.len() && tokens[places] == "/"@
}

/// How many tokens say a location at the start of a list: the keywords of
/// places that it starts with and, if a `/` follows them, the `/` and the
/// keywords of sizes behind it.
pub open spec fn location_len(tokens: Seq<Seq<char>>) -> nat {
    let places = position_run(tokens).len();
    if has_size(tokens) {
        places + 1 + size_run(tokens.skip(places + 1 as int)).len()
    } else {
        places
    }
}

/// The location that a list of tokens starts with. A run of keywords that
/// the grammar of places or of sizes does not accept says nothing: the place
/// is then the top left corner, the size the one that fits.
pub open spec fn location_of(tokens: Seq<Seq<char>>) -> LocationView {
    let places = position_run(tokens);
    let sizes = if has_size(tokens) {
        size_run(tokens.skip(places.len() + 1 as int))
    } else {
        seq![]
    };
    LocationView {
        position: match resolve_position(places) {
            Some(position) => position,
            None => default_position(),
        },
        size: match resolve_size(sizes) {
            Some(size) => size,
            None => SizeView::Contain,
        },
    }
}

/// Whether a `/` follows the keywords of places that a list of tokens starts
/// with, and no keyword of sizes follows the `/`: a size was announced, and
/// none is said.
pub open spec fn lacks_size(tokens: Seq<Seq<char>>) -> bool {
    has_size(tokens) && size_run(tokens.skip(position_run(tokens).len() + 1 as int)).len() == 0
}

/// No more tokens say a location than there are.
pub proof fn lemma_location_len(tokens: Seq<Seq<char>>)
    ensures
        location_len(tokens) <= tokens.len(),
{
    lemma_position_run_len(tokens);
    if has_size(tokens) {
        lemma_size_run_len(tokens.skip(position_run(tokens).len() + 1 as int));
    }
}

/// No more keywords of places start a list of tokens than it has tokens.
pub proof fn lemma_position_run_len(tokens: Seq<Seq<char>>)
    ensures
        position_run(tokens).len() <= tokens.len(),
    decreases tokens.len(),
{
    if tokens.len() > 0 && position_keyword(tokens[0]) is Some {
        lemma_position_run_len(tokens.skip(1));
    }
}

/// No more keywords of sizes start a list of tokens than it has tokens.
pub proof fn lemma_size_run_len(tokens: Seq<Seq<char>>)
    ensures
        size_run(tokens).len() <= tokens.len(),
    decreases tokens.len(),
{
    if tokens.len() > 0 && size_keyword(tokens[0]) is Some {
        lemma_size_run_len(tokens.skip(1));
    }
}

/// What a token, or a `to` with its location, says of a transition or an
/// animation of the kind `T`.
pub enum Directive<T> {
    /// Its kind.
    Kind(T),
    /// How long it takes.
    Time(Duration),
    /// How it is eased.
    Easing(EasingFunction),
    /// Nothing.
    Nothing,
}

/// The kind that the last directive of kind says, if any does.
pub open spec fn last_kind<T>(directives: Seq<Directive<T>>) -> Option<T>
    decreases directives.len(),
{
    if directives.len() == 0 {
        None
    } else {
        match directives.last() {
            Directive::Kind(kind) => Some(kind),
            _ => last_kind(directives.drop_last()),
        }
    }
}

/// The time that the last directive of time says, or `default`.
pub open spec fn last_time<T>(directives: Seq<Directive<T>>, default: Duration) -> Duration
    decreases directives.len(),
{
    if directives.len() == 0 {
        default
    } else {
        match directives.last() {
            Directive::Time(time) => time,
            _ => last_time(directives.drop_last(), default),
        }
    }
}

/// The easing that the last directive of easing says, or the linear one.
pub open spec fn last_easing<T>(directives: Seq<Directive<T>>) -> EasingFunction
    decreases directives.len(),
{
    if directives.len() == 0 {
        EasingFunction::Linear
    } else {
        match directives.last() {
            Directive::Easing(easing) => easing,
            _ => last_easing(directives.drop_last()),
        }
    }
}

/// The time or the easing that a word says, if it says either: a word that
/// is a span of time says the time, and no easing.
pub open spec fn timing<T>(word: Seq<char>) -> Directive<T> {
    match time_literal(word) {
        Some(time) => Directive::Time(time),
        None => match easing_name(word) {
            Some(easing) => Directive::Easing(easing),
            None => Directive::Nothing,
        },
    }
}

/// The kind of transition that a word names, if any.
pub open spec fn transition_type(word: Seq<char>) -> Option<TransitionType> {
    if word == "fade-in"@ {
        Some(TransitionType::FadeIn)
    } else if word == "fade-out"@ {
        Some(TransitionType::FadeOut)
    } else if word == "conic-in"@ {
        Some(TransitionType::ConicIn)
    } else if word == "conic-out"@ {
        Some(TransitionType::ConicOut)
    } else if word == "blinds-in"@ {
        Some(TransitionType::BlindsIn)
    } else if word == "blinds-out"@ {
        Some(TransitionType::BlindsOut)
    } else if word == "shake"@ {
        Some(TransitionType::Shake)
    } else {
        None
    }
}

/// What each token says of a transition: its kind if it names one, else its
/// time or its easing.
pub open spec fn transition_directives(tokens: Seq<Seq<char>>) -> Seq<Directive<TransitionType>> {
    Seq::new(
        tokens.len(),
        |i: int|
            match transition_type(tokens[i]) {
                Some(ty) => Directive::Kind(ty),
                None => timing(tokens[i]),
            },
    )
}

/// The transition that a list of tokens says: of its kind, its time and its
/// easing, what was said last. Without a kind there is none; the time is one
/// second and the easing linear unless they are said.
pub open spec fn transition_of(tokens: Seq<Seq<char>>) -> Option<Transition> {
    let directives = transition_directives(tokens);
    match last_kind(directives) {
        Some(ty) => Some(
            Transition {
                ty,
                time: last_time(directives, Duration { millis: 1000 }),
                easing: last_easing(directives),
            },
        ),
        None => None,
    }
}

/// What a list of tokens says of an animation: `to` with the location that
/// follows it says that kind, `shake` says the other, and every other token
/// says its time or its easing.
pub open spec fn animation_directives(tokens: Seq<Seq<char>>) -> Seq<Directive<AnimationTypeView>>
    decreases tokens.len(),
{
    if tokens.len() == 0 {
        seq![]
    } else if tokens[0] == "to"@ {
        proof {
            lemma_location_len(tokens.skip(1));
        }
        seq![Directive::Kind(AnimationTypeView::To { location: location_of(tokens.skip(1)) })]
            + animation_directives(tokens.skip(1 + location_len(tokens.skip(1)) as int))
    } else if tokens[0] == "shake"@ {
        seq![Directive::Kind(AnimationTypeView::Shake)] + animation_directives(tokens.skip(1))
    } else {
        seq![timing(tokens[0])] + animation_directives(tokens.skip(1))
    }
}

/// Whether the location behind some `to` of a list of tokens lacks its size.
pub open spec fn animation_lacks_size(tokens: Seq<Seq<char>>) -> bool
    decreases tokens.len(),
{
    if tokens.len() == 0 {
        false
    } else if tokens[0] == "to"@ {
        proof {
            lemma_location_len(tokens.skip(1));
        }
        lacks_size(tokens.skip(1)) || animation_lacks_size(
            tokens.skip(1 + location_len(tokens.skip(1)) as int),
        )
    } else {
        animation_lacks_size(tokens.skip(1))
    }
}

/// The animation that a list of tokens says: of its kind, its time and its
/// easing, what was said last. Without a kind there is none; the time is
/// sixty seconds and the easing linear unless they are said.
pub open spec fn animation_of(tokens: Seq<Seq<char>>) -> Option<AnimationView> {
    let directives = animation_directives(tokens);
    match last_kind(directives) {
        Some(ty) => Some(
            AnimationView {
                ty,
                time: last_time(directives, Duration { millis: 60000 }),
                easing: last_easing(directives),
            },
        ),
        None => None,
    }
}

/// A reader of the tokens of an attribute string, one after another. No token
/// is empty. The reader notes when a location that it reads announces a size
/// with a `/` and says none.
pub struct Tokenizer<'a> {
    tokens: Vec<&'a str>,
    cursor: usize,
    lacking: bool,
}

impl<'a> View for Tokenizer<'a> {
    type V = Seq<Seq<char>>;

    /// The tokens that are still to be read.
    closed spec fn view(&self) -> Seq<Seq<char>> {
        if self.cursor <= self.tokens@.len() {
            texts(self.tokens@).skip(self.cursor as int)
        } else {
            seq![]
        }
    }
}

impl<'a> Tokenizer<'a> {
    /// No token is empty.
    #[verifier::type_invariant]
    spec fn well_formed(self) -> bool {
        forall|i: int| 0 <= i < self.tokens@.len() ==> (#[trigger] self.tokens@[i])@.len() > 0
    }

    /// Whether a location was read that lacked its size: a `/` with no
    /// keyword of sizes behind it.
    pub closed spec fn lacking(&self) -> bool {
        self.lacking
    }

    /// Whether a location was read that lacked its size.
    pub fn lacks_size(&self) -> (r: bool)
        ensures
            r == self.lacking(),
    {
        self.lacking
    }

    /// A reader of the tokens of `title`.
    pub fn new(title: &'a str) -> (r: Self)
        ensures
            r@ == tokens(title@),
            !r.lacking(),
    {
        let chars = chars_of(title);
        let n = chars.len();
        let mut out: Vec<&'a str> = Vec::new();
        let mut i: usize = 0;
        assert(chars@.skip(0) == chars@);
        while i < n
            invariant
                chars@ == title@,
                n == chars@.len(),
                i <= n,
                texts(out@) + tokens(chars@.skip(i as int)) == tokens(chars@),
            decreases n - i,
        {
            let ghost rest = chars@.skip(i as int);
            if char_is_whitespace(chars[i]) {
                assert(rest.skip(1) == chars@.skip(i + 1));
                i += 1;
            } else {
                let mut end: usize = i + 1;
                while end < n && !char_is_whitespace(chars[end])
                    invariant
                        n == chars@.len(),
                        i < end <= n,
                        rest == chars@.skip(i as int),
                        forall|k: int| 0 <= k < end - i ==> !is_whitespace(#[trigger] rest[k]),
                    decreases n - end,
                {
                    end += 1;
                }
                proof {
                    lemma_word_len(rest, end - i);
                    assert(rest.take(end - i) == chars@.subrange(i as int, end as int));
                    assert(rest.skip(end - i) == chars@.skip(end as int));
                }
                let ghost before = texts(out@);
                push_pieces(&mut out, title, &chars, i, end);
                assert(texts(out@) + tokens(chars@.skip(end as int)) == before + tokens(rest));
                i = end;
            }
        }
        assert(texts(out@) + tokens(chars@.skip(n as int)) == texts(out@));
        proof {
            lemma_tokens_nonempty(title@);
            assert forall|i: int| 0 <= i < out@.len() implies (#[trigger] out@[i])@.len() > 0 by {
                assert(texts(out@)[i] == out@[i]@);
            }
        }
        Tokenizer { tokens: out, cursor: 0, lacking: false }
    }

    /// The next token, which stays to be read.
    pub fn peek(&self) -> (r: Option<&'a str>)
        ensures
            r.deep_view() == (if self@.len() > 0 {
                Some(self@[0])
            } else {
                None
            }),
            r matches Some(token) ==> token@.len() > 0,
    {
        proof {
            use_type_invariant(self);
        }
        if self.cursor < self.tokens.len() {
            Some(self.tokens[self.cursor])
        } else {
            None
        }
    }

    /// Reads the next token.
    pub fn next(&mut self) -> (r: Option<&'a str>)
        ensures
            r.deep_view() == (if old(self)@.len() > 0 {
                Some(old(self)@[0])
            } else {
                None
            }),
            final(self)@ == (if old(self)@.len() > 0 {
                old(self)@.skip(1)
            } else {
                old(self)@
            }),
            r matches Some(token) ==> token@.len() > 0,
            final(self).lacking() == old(self).lacking(),
    {
        proof {
            use_type_invariant(&*self);
        }
        if self.cursor < self.tokens.len() {
            let token = self.tokens[self.cursor];
            assert(texts(self.tokens@).skip(self.cursor as int).skip(1) == texts(
                self.tokens@,
            ).skip(self.cursor + 1));
            self.cursor = self.cursor + 1;
            Some(token)
        } else {
            None
        }
    }

    /// Reads the next token as a name.
    pub fn parse_name(&mut self) -> (r: Option<String>)
        ensures
            r.deep_view() == (if old(self)@.len() > 0 {
                Some(old(self)@[0])
            } else {
                None
            }),
            final(self)@ == (if old(self)@.len() > 0 {
                old(self)@.skip(1)
            } else {
                old(self)@
            }),
            r matches Some(name) ==> name@.len() > 0,
            final(self).lacking() == old(self).lacking(),
    {
        match self.next() {
            Some(token) => Some(token.to_owned()),
            None => None,
        }
    }

    /// Reads the next token if it is `remove`, and says whether it was.
    pub fn parse_remove(&mut self) -> (r: bool)
        ensures
            r == (old(self)@.len() > 0 && old(self)@[0] == "remove"@),
            final(self)@ == (if r {
                old(self)@.skip(1)
            } else {
                old(self)@
            }),
            final(self).lacking() == old(self).lacking(),
    {
        let remove = match self.peek() {
            Some(token) => str_eq(token, "remove"),
            None => false,
        };
        if remove {
            self.next();
        }
        remove
    }

    /// Reads a location, `[ <position> ] [ / <size> ]`: the keywords of places
    /// that come next and, if a `/` follows them, the `/` and the keywords of
    /// sizes behind it. What comes after them stays to be read.
    pub fn parse_location(&mut self) -> (r: Location)
        ensures
            r.deep_view() == location_of(old(self)@),
            final(self)@ == old(self)@.skip(location_len(old(self)@) as int),
            final(self).lacking() == (old(self).lacking() || lacks_size(old(self)@)),
    {
        let ghost start = self@;
        let ghost lacked = self.lacking();
        let mut position_words: Vec<PositionKeyword> = Vec::new();
        let mut size_words: Vec<SizeKeyword> = Vec::new();
        let mut more = true;
        assert(start.skip(0) == start);
        while more
            invariant
                position_words@.len() <= start.len(),
                self@ == start.skip(position_words@.len() as int),
                position_words.deep_view() + position_run(self@) == position_run(start),
                !more ==> position_run(self@).len() == 0,
                self.lacking() == lacked,
            decreases self@.len() + (if more { 1nat } else { 0nat }),
        {
            let ghost rest = self@;
            let ghost seen = position_words.deep_view();
            more = match self.peek() {
                Some(token) => match parse_position_keyword(token) {
                    Some(word) => {
                        position_words.push(word);
                        self.next();
                        assert(rest.skip(1) == start.skip(position_words@.len() as int));
                        assert(position_words.deep_view() == seen.push(word.deep_view()));
                        assert(seen.push(word.deep_view()) + position_run(rest.skip(1)) == seen
                            + position_run(rest));
                        true
                    },
                    None => false,
                },
                None => false,
            };
        }
        assert(position_words.deep_view() == position_run(start));
        let slash = match self.peek() {
            Some(token) => str_eq(token, "/"),
            None => false,
        };
        assert(slash == has_size(start));
        if slash {
            self.next();
            let ghost behind = self@;
            assert(behind == start.skip(position_words@.len() + 1 as int));
            more = true;
            assert(behind.skip(0) == behind);
            while more
                invariant
                    size_words@.len() <= behind.len(),
                    self@ == behind.skip(size_words@.len() as int),
                    size_words.deep_view() + size_run(self@) == size_run(behind),
                    !more ==> size_run(self@).len() == 0,
                    self.lacking() == lacked,
                decreases self@.len() + (if more { 1nat } else { 0nat }),
            {
                let ghost rest = self@;
                let ghost seen = size_words.deep_view();
                more = match self.peek() {
                    Some(token) => match parse_size_keyword(token) {
                        Some(word) => {
                            size_words.push(word);
                            self.next();
                            assert(rest.skip(1) == behind.skip(size_words@.len() as int));
                            assert(size_words.deep_view() == seen.push(word.deep_view()));
                            assert(seen.push(word.deep_view()) + size_run(rest.skip(1)) == seen
                                + size_run(rest));
                            true
                        },
                        None => false,
                    },
                    None => false,
                };
            }
            assert(size_words.deep_view() == size_run(behind));
            assert(self@ == start.skip(location_len(start) as int));
            if size_words.len() == 0 {
                proof {
                    use_type_invariant(&*self);
                }
                self.lacking = true;
            }
        }
        let position = match parse_position(position_words.as_slice()) {
            Some(position) => position,
            None => Position::default(),
        };
        let size = match parse_size(size_words.as_slice()) {
            Some(size) => size,
            None => Size::default(),
        };
        Location { position, size }
    }

    /// Reads what is left as an animation.
    pub fn parse_animation(&mut self) -> (r: Option<Animation>)
        ensures
            r.deep_view() == animation_of(old(self)@),
            final(self)@.len() == 0,
            final(self).lacking() == (old(self).lacking() || animation_lacks_size(old(self)@)),
    {
        let ghost start = self@;
        let ghost lacked = self.lacking();
        let ghost seen: Seq<Directive<AnimationTypeView>> = seq![];
        let mut ty: Option<AnimationType> = None;
        let mut time = Duration::from_secs(60);
        let mut easing = EasingFunction::Linear;
        let mut more = true;
        while more
            invariant
                seen + animation_directives(self@) == animation_directives(start),
                (self.lacking() || animation_lacks_size(self@)) == (lacked || animation_lacks_size(
                    start,
                )),
                ty.deep_view() == last_kind(seen),
                time == last_time(seen, Duration { millis: 60000 }),
                easing == last_easing(seen),
                !more ==> self@.len() == 0,
            decreases self@.len() + (if more { 1nat } else { 0nat }),
        {
            let ghost rest = self@;
            let ghost before = seen;
            more = match self.next() {
                Some(param) => {
                    if str_eq(param, "to") {
                        let location = self.parse_location();
                        proof {
                            lemma_location_len(rest.skip(1));
                            assert(rest.skip(1).skip(location_len(rest.skip(1)) as int)
                                == rest.skip(1 + location_len(rest.skip(1)) as int));
                            seen = seen.push(
                                Directive::Kind(
                                    AnimationTypeView::To { location: location.deep_view() },
                                ),
                            );
                        }
                        ty = Some(AnimationType::To { location });
                    } else if str_eq(param, "shake") {
                        proof {
                            seen = seen.push(Directive::Kind(AnimationTypeView::Shake));
                        }
                        ty = Some(AnimationType::Shake);
                    } else {
                        proof {
                            seen = seen.push(timing(param@));
                        }
                        match parse_time(param) {
                            Some(t) => {
                                time = t;
                            },
                            None => match parse_easing(param) {
                                Some(e) => {
                                    easing = e;
                                },
                                None => {},
                            },
                        }
                    }
                    proof {
                        assert(seen.drop_last() == before);
                        assert(seen + animation_directives(self@) == before
                            + animation_directives(rest));
                    }
                    true
                },
                None => false,
            };
        }
        assert(seen + animation_directives(self@) == seen);
        match ty {
            Some(ty) => Some(Animation { ty, time, easing }),
            None => None,
        }
    }

    /// Reads what is left as a transition.
    pub fn parse_transition(&mut self) -> (r: Option<Transition>)
        ensures
            r == transition_of(old(self)@),
            final(self)@.len() == 0,
            final(self).lacking() == old(self).lacking(),
    {
        let ghost start = self@;
        let ghost lacked = self.lacking();
        let ghost all = transition_directives(start);
        let ghost seen: Seq<Directive<TransitionType>> = seq![];
        let mut ty: Option<TransitionType> = None;
        let mut time = Duration::from_secs(1);
        let mut easing = EasingFunction::linear();
        let mut more = true;
        assert(start.skip(0) == start);
        while more
            invariant
                all == transition_directives(start),
                seen.len() <= start.len(),
                self@ == start.skip(seen.len() as int),
                seen == all.take(seen.len() as int),
                self.lacking() == lacked,
                ty == last_kind(seen),
                time == last_time(seen, Duration { millis: 1000 }),
                easing == last_easing(seen),
                !more ==> self@.len() == 0,
            decreases self@.len() + (if more { 1nat } else { 0nat }),
        {
            let ghost rest = self@;
            let ghost before = seen;
            more = match self.next() {
                Some(token) => {
                    proof {
                        assert(token@ == start[before.len() as int]);
                        seen = all.take(before.len() + 1 as int);
                        assert(seen.drop_last() == before);
                        assert(rest.skip(1) == start.skip(seen.len() as int));
                    }
                    if str_eq(token, "fade-in") {
                        ty = Some(TransitionType::FadeIn);
                    } else if str_eq(token, "fade-out") {
                        ty = Some(TransitionType::FadeOut);
                    } else if str_eq(token, "conic-in") {
                        ty = Some(TransitionType::ConicIn);
                    } else if str_eq(token, "conic-out") {
                        ty = Some(TransitionType::ConicOut);
                    } else if str_eq(token, "blinds-in") {
                        ty = Some(TransitionType::BlindsIn);
                    } else if str_eq(token, "blinds-out") {
                        ty = Some(TransitionType::BlindsOut);
                    } else if str_eq(token, "shake") {
                        ty = Some(TransitionType::Shake);
                    } else {
                        match parse_time(token) {
                            Some(t) => {
                                time = t;
                            },
                            None => match parse_easing(token) {
                                Some(e) => {
                                    easing = e;
                                },
                                None => {},
                            },
                        }
                    }
                    true
                },
                None => false,
            };
        }
        assert(seen == all);
        match ty {
            Some(ty) => Some(Transition { ty, time, easing }),
            None => None,
        }
    }
}

} // verus!
