//! The arrangements of the parts of a dialog, and which parts each of them has.
use vstd::prelude::*;

use super::Indicator;

verus! {

/// An arrangement of the parts.
#[derive(Clone, Copy, Debug, PartialEq, Eq, Structural)]
pub enum Layout {
    BottomLeft,
    Center,
    MiddleCompact,
    TopRight,
}

/// The parts that a dialog has besides its label, its indicator and the buttons to accept
/// and to cancel.
#[derive(Clone, Copy, Debug, PartialEq, Eq, Structural)]
pub struct Parts {
    pub indicator_label: bool,
    pub clipboard_button: bool,
    pub plaintext_button: bool,
}

impl Layout {
    /// The parts that the arrangement has with `indicator`.
    pub open spec fn spec_parts(self, indicator: Indicator) -> Parts {
        Parts {
            indicator_label: self == Layout::Center && indicator is Circle,
            clipboard_button: self == Layout::Center,
            plaintext_button: self == Layout::Center && indicator is Strings,
        }
    }

    /// The parts that the arrangement has with `indicator`: only the centred one has more
    /// than every dialog has.
    pub fn parts(self, indicator: &Indicator) -> (r: Parts)
        ensures
            r == self.spec_parts(*indicator),
    {
        match self {
            Layout::Center => Parts {
                indicator_label: match indicator {
                    Indicator::Circle(_) => true,
                    _ => false,
                },
                clipboard_button: true,
                plaintext_button: indicator.has_plaintext(),
            },
            Layout::BottomLeft | Layout::MiddleCompact | Layout::TopRight => Parts {
                indicator_label: false,
                clipboard_button: false,
                plaintext_button: false,
            },
        }
    }
}

/// The number of buttons.
pub open spec fn button_count(parts: Parts) -> int {
    2 + (if parts.clipboard_button {
        1int
    } else {
        0
    }) + (if parts.plaintext_button {
        1int
    } else {
        0
    })
}

/// The width that is left for a label after halving it and doubling the number of lines,
/// as long as it is over `wanted` and the text stays wider than high.
pub open spec fn halved(width: nat, height: nat, wanted: nat) -> nat
    decreases width,
{
    if width <= wanted || width == 0 {
        width
    } else if 2 * height >= width / 2 {
        2 * (width / 2)
    } else {
        halved(width / 2, 2 * height, wanted)
    }
}

/// The width at which a label is wrapped: `None` where it is narrow enough as it is.
pub open spec fn wrapped(width: u32, height: u32, wanted: Option<u32>) -> Option<u32> {
    match wanted {
        Some(wanted) if width > wanted => {
            let left = halved(width as nat, height as nat, wanted as nat);
            if left > wanted {
                Some(left as u32)
            } else {
                Some(wanted)
            }
        },
        _ => None,
    }
}

/// Halving the width never makes a label wider.
proof fn lemma_halved_bounds(width: nat, height: nat, wanted: nat)
    ensures
        halved(width, height, wanted) <= width,
    decreases width,
{
    if !(width <= wanted || width == 0 || 2 * height >= width / 2) {
        lemma_halved_bounds(width / 2, 2 * height, wanted);
    }
}

/// A label that is wrapped gets a width between the one that was asked for and its own.
pub proof fn lemma_wrapped_between(width: u32, height: u32, wanted: u32)
    ensures
        match wrapped(width, height, Some(wanted)) {
            Some(r) => wanted <= r <= width && wanted < width,
            None => width <= wanted,
        },
{
    lemma_halved_bounds(width as nat, height as nat, wanted as nat);
}

/// The width at which a label of `width` and `height` pixels is wrapped so that it is not
/// much wider than `wanted`, if it has to be.
pub fn wrap_width(width: u32, height: u32, wanted: Option<u32>) -> (r: Option<u32>)
    requires
        height <= i32::MAX,
    ensures
        r == wrapped(width, height, wanted),
{
    let wanted: u32 = match wanted {
        Some(wanted) => wanted,
        None => return None,
    };
    if width <= wanted {
        return None;
    }
    let mut left: u32 = width;
    let mut high: u32 = height;
    while left > wanted
        invariant_except_break
            high <= i32::MAX,
            halved(width as nat, height as nat, wanted as nat) == halved(
                left as nat,
                high as nat,
                wanted as nat,
            ),
        ensures
            left == halved(width as nat, height as nat, wanted as nat),
        decreases left,
    {
        left /= 2;
        high *= 2;
        if high >= left {
            left *= 2;
            break;
        }
    }
    if left > wanted {
        Some(left)
    } else {
        Some(wanted)
    }
}

/// Lengths of text are counted in parts of a pixel.
pub const SCALE: i32 = 1024;

/// A length in pixels in those parts, where it fits.
pub fn text_units(pixels: u32) -> (r: Option<i32>)
    ensures
        match r {
            Some(units) => units == pixels * SCALE,
            None => pixels * SCALE > i32::MAX,
        },
{
    let units: u64 = pixels as u64 * 1024;
    if units <= i32::MAX as u64 {
        Some(units as i32)
    } else {
        None
    }
}

/// The size of the font, eleven points where none was configured.
pub fn font_size(size: i32) -> (r: i32)
    ensures
        r == (if size == 0 {
            11 * SCALE
        } else {
            size as int
        }),
{
    if size == 0 {
        11 * SCALE
    } else {
        size
    }
}

/// The height of a screen on which nothing is enlarged.
pub const USUAL_HEIGHT: u16 = 1080;

/// The ratio by which the dialog is enlarged on a screen of the given height, where no scale
/// was configured: only on screens that are higher than usual.
pub fn screen_scale(height: u16) -> (r: Option<(u16, u16)>)
    ensures
        r == (if height > USUAL_HEIGHT {
            Some((height, USUAL_HEIGHT))
        } else {
            None
        }),
{
    if height > USUAL_HEIGHT {
        Some((height, USUAL_HEIGHT))
    } else {
        None
    }
}

/// The space before a dialog that is centred in a window.
pub open spec fn centered(window: u16, dialog: u16) -> u16 {
    if window > dialog {
        ((window - dialog) / 2) as u16
    } else {
        0
    }
}

/// The space before a dialog of the length `dialog` that is centred in a window.
pub fn center_offset(window: u16, dialog: u16) -> (r: u16)
    ensures
        r == centered(window, dialog),
{
    if window > dialog {
        (window - dialog) / 2
    } else {
        0
    }
}

/// A dialog that fits is wholly within the window, and at most one pixel nearer to one end
/// than to the other.
pub proof fn lemma_centered_fits(window: u16, dialog: u16)
    requires
        dialog <= window,
    ensures
        centered(window, dialog) + dialog <= window,
        0 <= window - dialog - 2 * centered(window, dialog) <= 1,
{
}

/// A dialog that does not fit starts where its window does.
pub proof fn lemma_too_large_starts_at_the_edge(window: u16, dialog: u16)
    requires
        window <= dialog,
    ensures
        centered(window, dialog) == 0,
{
}

/// How a label is wrapped: not at all where it is as narrow as wanted or nothing is wanted. Else
/// it gets the width that half of it, with twice the lines, would get, as long as that is wider
/// than high; where that half is not too wide it gets just the width that is wanted. A label
/// that would become higher than wide keeps its width.
pub proof fn lemma_wrapping(width: u32, height: u32, wanted: u32)
    requires
        height <= i32::MAX,
    ensures
        wrapped(width, height, None) is None,
        width <= wanted <==> wrapped(width, height, Some(wanted)) is None,
        width > wanted && 2 * height < width / 2 && width / 2 > wanted ==> wrapped(
            width,
            height,
            Some(wanted),
        ) == wrapped(width / 2, (2 * height) as u32, Some(wanted)),
        width > wanted && 2 * height < width / 2 && width / 2 <= wanted ==> wrapped(
            width,
            height,
            Some(wanted),
        ) == Some(wanted),
        width > wanted && 2 * height >= width / 2 ==> {
            let kept = if width % 2 == 0 {
                width as int
            } else {
                width - 1
            };
            wrapped(width, height, Some(wanted)) == Some(
                if kept > wanted {
                    kept as u32
                } else {
                    wanted
                },
            )
        },
{
    reveal_with_fuel(halved, 2);
    lemma_halved_bounds(width as nat, height as nat, wanted as nat);
}

} // verus!
