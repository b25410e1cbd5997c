//! The core of an immediate-mode user interface: client code declares its
//! whole interface again every frame through a [`Builder`], and the
//! [`Context`] keeps what has to outlive a single declaration: which widget
//! holds focus, which one the pointer is over, the style overrides in force
//! and the layers painted so far, in the order in which they were finished.

pub mod builder;
pub mod button;
pub mod color;
pub mod context;
pub mod geometry;
pub mod id;
pub mod input;
pub mod input_state;
pub mod label;
pub mod layout;
pub mod painter;
pub mod style;

pub use builder::Builder;
pub use button::{Button, ButtonResponse};
pub use color::Rgba;
pub use context::{Context, Layer};
pub use geometry::{Point, Rect};
pub use id::Id;
pub use input::{Input, InputVariant, NUM_INPUTS};
pub use input_state::InputState;
pub use label::Label;
pub use layout::{Direction, Layout};
pub use painter::{Painter, Shape};
pub use style::{ColorStyle, LayoutStyle, Style, StyleCategory, StyleMap, StyleValue, TextStyle};
