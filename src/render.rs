//! Control of the render pass over the image.
//!
//! Pixels are shaded row by row, left to right. After each pixel the caller
//! polls the window's input; the first quit or escape among the polled events
//! decides: quit ends the program, escape stops rendering and leaves the
//! finished part on screen. A row that completes is presented. When the pass
//! is over the window idles until a quit or an escape.
use vstd::prelude::*;

verus! {

/// A window event, as far as rendering cares.
#[derive(Clone, Copy, Debug, PartialEq, Eq, Structural)]
pub enum Input {
    Quit,
    Escape,
    Other,
}

/// What the render loop does next.
#[derive(Clone, Copy, Debug, PartialEq, Eq, Structural)]
pub enum Control {
    /// Shade the pixel in column `col` of row `row`.
    Shade { col: u32, row: u32 },
    /// Stop rendering and idle.
    Idle,
    /// End the program.
    Exit,
}

/// The decision after one pixel.
#[derive(Clone, Copy, Debug, PartialEq, Eq, Structural)]
pub struct Progress {
    pub control: Control,
    /// Present the canvas: the pixel completed its row.
    pub present_row: bool,
}

/// The first event among `events` that is not `Other`, or `Other` if none is.
pub open spec fn decisive(events: Seq<Input>) -> Input
    decreases events.len(),
{
    if events.len() == 0 {
        Input::Other
    } else if events[0] is Other {
        decisive(events.drop_first())
    } else {
        events[0]
    }
}

/// The pixel after (`col`, `row`) in a `width` by `height` image, if any.
pub open spec fn successor(col: u32, row: u32, width: u32, height: u32) -> Control {
    if col + 1 < width {
        Control::Shade { col: (col + 1) as u32, row }
    } else if row + 1 < height {
        Control::Shade { col: 0, row: (row + 1) as u32 }
    } else {
        Control::Idle
    }
}

proof fn lemma_decisive_suffix(events: Seq<Input>, i: int)
    requires
        0 <= i < events.len(),
        events[i] is Other,
    ensures
        decisive(events.subrange(i, events.len() as int)) == decisive(events.subrange(i + 1, events.len() as int)),
{
    let s = events.subrange(i, events.len() as int);
    assert(s.drop_first() =~= events.subrange(i + 1, events.len() as int));
}

/// The first quit or escape among the polled events.
pub fn first_decisive(events: &Vec<Input>) -> (r: Input)
    ensures
        r == decisive(events@),
{
    let mut i: usize = 0;
    assert(events@.subrange(0, events@.len() as int) =~= events@);
    while i < events.len()
        invariant
            i <= events.len(),
            decisive(events@) == decisive(events@.subrange(i as int, events@.len() as int)),
        decreases events.len() - i,
    {
        let e = events[i];
        match e {
            Input::Other => {
                proof {
                    lemma_decisive_suffix(events@, i as int);
                }
            },
            _ => {
                assert(events@.subrange(i as int, events@.len() as int)[0] == e);
                return e;
            },
        }
        i = i + 1;
    }
    assert(events@.subrange(i as int, events@.len() as int).len() == 0);
    Input::Other
}

/// Where the pass starts: the top-left pixel, or straight to idling for an
/// empty image.
pub fn first_pixel(width: u32, height: u32) -> (r: Control)
    ensures
        r == (if width == 0 || height == 0 {
            Control::Idle
        } else {
            Control::Shade { col: 0, row: 0 }
        }),
{
    if width == 0 || height == 0 {
        Control::Idle
    } else {
        Control::Shade { col: 0, row: 0 }
    }
}

/// The decision after shading pixel (`col`, `row`), given the events polled
/// since.
pub fn after_pixel(col: u32, row: u32, width: u32, height: u32, events: &Vec<Input>) -> (r: Progress)
    requires
        col < width,
        row < height,
    ensures
        decisive(events@) == Input::Quit ==> r == (Progress { control: Control::Exit, present_row: false }),
        decisive(events@) == Input::Escape ==> r == (Progress { control: Control::Idle, present_row: false }),
        decisive(events@) == Input::Other ==> r == (Progress {
            control: successor(col, row, width, height),
            present_row: col + 1 == width,
        }),
{
    match first_decisive(events) {
        Input::Quit => Progress { control: Control::Exit, present_row: false },
        Input::Escape => Progress { control: Control::Idle, present_row: false },
        Input::Other => {
            let control = if col + 1 < width {
                Control::Shade { col: col + 1, row }
            } else if row + 1 < height {
                Control::Shade { col: 0, row: row + 1 }
            } else {
                Control::Idle
            };
            Progress { control, present_row: col + 1 == width }
        },
    }
}

/// Whether the idling window closes: any quit or escape among the polled
/// events.
pub fn idle_ends(events: &Vec<Input>) -> (r: bool)
    ensures
        r == (decisive(events@) != Input::Other),
{
    match first_decisive(events) {
        Input::Other => false,
        _ => true,
    }
}

} // verus!
