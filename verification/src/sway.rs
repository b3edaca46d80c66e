//! What the sway compositor reports about its outputs, as far as the daemon
//! reads it.

use vstd::prelude::*;

use crate::scale;
use crate::scale::{Scale, ScaleView};
use crate::text;

verus! {

/// One mode of an output; the refresh rate is in mHz.
#[derive(Debug, Clone, Copy, PartialEq, Eq, Structural)]
pub struct Mode {
    pub width: i32,
    pub height: i32,
    pub refresh: i32,
}

/// Position and size of an output in the global layout.
#[derive(Debug, Clone, Copy, PartialEq, Eq, Structural)]
pub struct Rect {
    pub x: i32,
    pub y: i32,
    pub width: i32,
    pub height: i32,
}

/// One output.
#[derive(Debug)]
pub struct Output {
    pub name: String,
    pub make: String,
    pub model: String,
    pub serial: String,
    pub active: bool,
    pub primary: bool,
    pub scale: Option<Scale>,
    pub transform: Option<String>,
    pub modes: Vec<Mode>,
    pub current_mode: Option<Mode>,
    pub rect: Rect,
}

/// What an [`Output`] stands for.
pub struct OutputView {
    pub name: Seq<char>,
    pub make: Seq<char>,
    pub model: Seq<char>,
    pub serial: Seq<char>,
    pub active: bool,
    pub primary: bool,
    pub scale: Option<ScaleView>,
    pub transform: Option<Seq<char>>,
    pub modes: Seq<Mode>,
    pub current_mode: Option<Mode>,
    pub rect: Rect,
}

impl View for Output {
    type V = OutputView;

    open spec fn view(&self) -> OutputView {
        OutputView {
            name: self.name@,
            make: self.make@,
            model: self.model@,
            serial: self.serial@,
            active: self.active,
            primary: self.primary,
            scale: scale::option_scale(self.scale),
            transform: text::option_text(self.transform),
            modes: self.modes@,
            current_mode: self.current_mode,
            rect: self.rect,
        }
    }
}

/// What a list of outputs stands for.
pub open spec fn output_views(outputs: Seq<Output>) -> Seq<OutputView> {
    Seq::new(outputs.len(), |i: int| outputs[i]@)
}

} // verus!
