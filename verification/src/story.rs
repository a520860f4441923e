//! The compiled story: steps of actions, in the order of the script.

use vstd::prelude::*;
use crate::duration::Duration;
use crate::easing::EasingFunction;
use crate::location::{Location, LocationView};

verus! {

/// How a picture comes or goes.
#[derive(Clone, Copy, Debug, PartialEq, Eq, Structural)]
pub enum TransitionType {
    FadeIn,
    FadeOut,
    ConicIn,
    ConicOut,
    BlindsIn,
    BlindsOut,
    Shake,
}

/// A transition: its kind, how long it takes, and how it is eased.
#[derive(Clone, Copy, Debug, PartialEq, Eq, Structural)]
pub struct Transition {
    pub ty: TransitionType,
    pub time: Duration,
    pub easing: EasingFunction,
}

impl DeepView for Transition {
    type V = Transition;

    open spec fn deep_view(&self) -> Transition {
        *self
    }
}

/// What a picture does while it is shown.
#[derive(Debug, PartialEq, Eq)]
pub enum AnimationType {
    /// It moves to another location.
    To { location: Location },
    /// It shakes.
    Shake,
}

/// What an [`AnimationType`] holds.
pub enum AnimationTypeView {
    To { location: LocationView },
    Shake,
}

impl DeepView for AnimationType {
    type V = AnimationTypeView;

    open spec fn deep_view(&self) -> AnimationTypeView {
        match self {
            AnimationType::To { location } => AnimationTypeView::To {
                location: location.deep_view(),
            },
            AnimationType::Shake => AnimationTypeView::Shake,
        }
    }
}

/// An animation: its kind, how long it takes, and how it is eased.
#[derive(Debug, PartialEq, Eq)]
pub struct Animation {
    pub ty: AnimationType,
    pub time: Duration,
    pub easing: EasingFunction,
}

/// What an [`Animation`] holds.
pub struct AnimationView {
    pub ty: AnimationTypeView,
    pub time: Duration,
    pub easing: EasingFunction,
}

impl DeepView for Animation {
    type V = AnimationView;

    open spec fn deep_view(&self) -> AnimationView {
        AnimationView { ty: self.ty.deep_view(), time: self.time, easing: self.easing }
    }
}

/// One thing that happens in a story.
#[derive(Debug, PartialEq, Eq)]
#[allow(inconsistent_fields)]
pub enum StoryAction {
    /// Nothing happens for a while.
    Wait { time: Duration },
    /// A line is shown; `name` is who speaks it, if anyone does.
    Text { name: Option<String>, text: String },
    /// The background changes.
    Bg {
        url: String,
        transition: Option<Transition>,
        animation: Option<Animation>,
        location: Location,
    },
    /// A figure comes, changes or goes.
    Fig {
        name: String,
        url: String,
        transition: Option<Transition>,
        animation: Option<Animation>,
        location: Location,
        removal: bool,
    },
    /// The music changes.
    Bgm { url: String },
    /// A sound is played.
    Sfx { url: String },
    /// The story goes on in another script; with `ret`, this one ends there.
    Navigate { url: String, ret: bool },
}

/// What a [`StoryAction`] holds.
#[allow(inconsistent_fields)]
pub enum StoryActionView {
    Wait { time: Duration },
    Text { name: Option<Seq<char>>, text: Seq<char> },
    Bg {
        url: Seq<char>,
        transition: Option<Transition>,
        animation: Option<AnimationView>,
        location: LocationView,
    },
    Fig {
        name: Seq<char>,
        url: Seq<char>,
        transition: Option<Transition>,
        animation: Option<AnimationView>,
        location: LocationView,
        removal: bool,
    },
    Bgm { url: Seq<char> },
    Sfx { url: Seq<char> },
    Navigate { url: Seq<char>, ret: bool },
}

impl DeepView for StoryAction {
    type V = StoryActionView;

    open spec fn deep_view(&self) -> StoryActionView {
        match self {
            StoryAction::Wait { time } => StoryActionView::Wait { time: *time },
            StoryAction::Text { name, text } => StoryActionView::Text {
                name: name.deep_view(),
                text: text@,
            },
            StoryAction::Bg { url, transition, animation, location } => StoryActionView::Bg {
                url: url@,
                transition: *transition,
                animation: animation.deep_view(),
                location: location.deep_view(),
            },
            StoryAction::Fig {
                name,
                url,
                transition,
                animation,
                location,
                removal,
            } => StoryActionView::Fig {
                name: name@,
                url: url@,
                transition: *transition,
                animation: animation.deep_view(),
                location: location.deep_view(),
                removal: *removal,
            },
            StoryAction::Bgm { url } => StoryActionView::Bgm { url: url@ },
            StoryAction::Sfx { url } => StoryActionView::Sfx { url: url@ },
            StoryAction::Navigate { url, ret } => StoryActionView::Navigate { url: url@, ret: *ret },
        }
    }
}

/// The actions of one paragraph of the script, in its order.
#[derive(Debug, PartialEq, Eq)]
pub struct StoryStep {
    pub actions: Vec<StoryAction>,
}

impl DeepView for StoryStep {
    type V = Seq<StoryActionView>;

    open spec fn deep_view(&self) -> Seq<StoryActionView> {
        self.actions.deep_view()
    }
}

/// A story: the steps of a script, in its order.
#[derive(Debug, PartialEq, Eq)]
pub struct Story {
    pub steps: Vec<StoryStep>,
}

impl DeepView for Story {
    type V = Seq<Seq<StoryActionView>>;

    open spec fn deep_view(&self) -> Seq<Seq<StoryActionView>> {
        self.steps.deep_view()
    }
}

} // verus!
