use vstd::prelude::*;

verus! {

/// Something the presentation layer can show: it refreshes its inputs,
/// waits between frames and paints a frame.
pub trait Drawable {
    fn update(&mut self);

    fn pause(&mut self);

    fn draw(&mut self);
}

/// A drawable window of the presentation layer.
pub trait Window: Drawable {

}

} // verus!
