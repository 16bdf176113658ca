use crate::world::{World, BOX_SIZE, HEIGHT, WIDTH};
use vstd::prelude::*;

verus! {

/// Whether pixel `(x, y)` lies inside the box.
pub open spec fn inside_box(w: World, x: int, y: int) -> bool {
    &&& w.box_x <= x < w.box_x + BOX_SIZE
    &&& w.box_y <= y < w.box_y + BOX_SIZE
}

/// The RGBA bytes of the box colour.
pub open spec fn box_rgba() -> Seq<u8> {
    seq![0x5eu8, 0x48u8, 0xe8u8, 0xffu8]
}

/// The RGBA bytes of the background colour.
pub open spec fn background_rgba() -> Seq<u8> {
    seq![0x48u8, 0xb2u8, 0xe8u8, 0xffu8]
}

/// The colour of pixel `i`, counted row by row from the top-left corner.
pub open spec fn pixel_rgba(w: World, i: int) -> Seq<u8> {
    if inside_box(w, i % (WIDTH as int), i / (WIDTH as int)) {
        box_rgba()
    } else {
        background_rgba()
    }
}

/// The whole frame for a state: four bytes per pixel, row-major.
pub open spec fn frame_for(w: World) -> Seq<u8> {
    Seq::new((WIDTH * HEIGHT * 4) as nat, |j: int| pixel_rgba(w, j / 4)[j % 4])
}

/// Pixel `i` of a frame: its four bytes.
pub open spec fn pixel_of(frame: Seq<u8>, i: int) -> Seq<u8> {
    frame.subrange(4 * i, 4 * i + 4)
}

impl World {
    /// Paints the whole frame: the box's square in the box colour, every other
    /// pixel in the background colour. Every byte is overwritten.
    pub fn draw(&self, frame: &mut [u8])
        requires
            old(frame)@.len() == WIDTH * HEIGHT * 4,
        ensures
            final(frame)@ == frame_for(*self),
    {
        let n: usize = WIDTH as usize * HEIGHT as usize;
        let mut i: usize = 0;
        while i < n
            invariant
                n == WIDTH * HEIGHT,
                i <= n,
                frame@.len() == n * 4,
                forall|j: int| 0 <= j < 4 * i ==> frame@[j] == #[trigger] frame_for(*self)[j],
            decreases n - i,
        {
            let x = (i % WIDTH as usize) as i32;
            let y = (i / WIDTH as usize) as i32;
            let inside = x >= self.box_x as i32 && x < self.box_x as i32 + BOX_SIZE as i32
                && y >= self.box_y as i32 && y < self.box_y as i32 + BOX_SIZE as i32;
            let rgba: [u8; 4] = if inside {
                [0x5e, 0x48, 0xe8, 0xff]
            } else {
                [0x48, 0xb2, 0xe8, 0xff]
            };
            assert(rgba@ == pixel_rgba(*self, i as int));
            let k: usize = 4 * i;
            frame[k] = rgba[0];
            frame[k + 1] = rgba[1];
            frame[k + 2] = rgba[2];
            frame[k + 3] = rgba[3];
            assert forall|j: int| 0 <= j < 4 * (i + 1) implies frame@[j] == #[trigger] frame_for(*self)[j] by {
                if j >= 4 * i {
                    assert(j / 4 == i as int);
                }
            }
            i = i + 1;
        }
        assert(frame@ =~= frame_for(*self));
    }
}

/// A drawn frame holds exactly `WIDTH * HEIGHT` pixels, and each of them is
/// either the box colour or the background colour.
pub proof fn lemma_two_colours(w: World, i: int)
    requires
        0 <= i < WIDTH * HEIGHT,
    ensures
        frame_for(w).len() == WIDTH * HEIGHT * 4,
        pixel_of(frame_for(w), i) == box_rgba() || pixel_of(frame_for(w), i) == background_rgba(),
        pixel_of(frame_for(w), i) == box_rgba() <==> inside_box(w, i % (WIDTH as int), i / (WIDTH as int)),
{
    assert(pixel_of(frame_for(w), i) =~= pixel_rgba(w, i));
}

/// Drawing depends on the state alone: two draws of equal states, over any
/// earlier frame contents, give byte-identical frames.
pub proof fn lemma_redraw_identical(a: World, b: World)
    requires
        a@ == b@,
    ensures
        frame_for(a) == frame_for(b),
{
    assert(a == b);
}

} // verus!
