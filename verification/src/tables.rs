//! The codes that a [`Service`](crate::Service) block carries, with their
//! arguments and their byte forms.

pub mod args;
pub mod attrs;
pub mod code;
pub mod codec;
pub mod error;
pub mod ext1;
pub mod pen;
pub mod roundtrip;
pub mod unicode;
pub mod window;

pub use attrs::{
    Anchor, BorderType, ColorValue, Direction, DisplayEffect, EdgeType, FontStyle, Justify,
    Opacity, PenSize, TextOffset, TextTag,
};
pub use args::{Color, WindowBits};
pub use pen::{SetPenAttributesArgs, SetPenColorArgs, SetPenLocationArgs};
pub use window::{DefineWindowArgs, SetWindowAttributesArgs};
pub use code::{Code, CodeView};
pub use error::CodeError;
pub use ext1::{Ext1, Ext1View};
