//! A compiler of visual-novel scripts.
//!
//! A script is a Markdown text. Its headings name who speaks, its paragraphs
//! are the steps of the story, and the links and images in them stand for
//! what happens: waiting, going to another script, a change of background,
//! figure or sound. Short keyword strings in the text of a link and in the
//! alternative text and the title of an image say where a picture stands, how
//! large it is, and how it comes, moves and goes.
//!
//! [`parser::parse_story`] compiles a text to a [`story::Story`]. Everything
//! here is exact: a percentage keeps its literal and a curve its coefficients
//! in hundredths, and no number in floating point is computed.

pub mod animation;
pub mod document;
pub mod duration;
pub mod easing;
pub mod location;
pub mod number;
pub mod parser;
pub mod position;
pub mod size;
pub mod story;
pub mod text;
pub mod token;

pub use location::{Location, Position, Size};
pub use parser::{parse_story, NahidaParser, ParseError, ParseErrorType};
pub use story::{Story, StoryAction, StoryStep};
