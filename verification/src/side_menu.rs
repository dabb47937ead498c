//! The hover behaviour of the side menu's entries: a wrapper remembers whether
//! the pointer is over its child, and the entry's label is greyed out while it is.
use vstd::prelude::*;

verus! {

/// Wraps a menu entry and remembers whether the pointer is over it.
pub struct HoverDetector<W> {
    pub child: W,
    pub is_hovering: bool,
}

impl<W> HoverDetector<W> {
    /// Wraps `child`; the pointer is not over it yet.
    pub fn new(child: W) -> (res: Self)
        ensures
            res.child == child,
            !res.is_hovering,
    {
        HoverDetector { child: child, is_hovering: false }
    }

    /// Takes note of an event: the entry counts as hovered while the pointer is
    /// over it and while it is disabled. Returns whether an animation frame is to
    /// be requested, which is the case while the entry is disabled.
    pub fn observe(&mut self, is_hot: bool, is_disabled: bool) -> (request_frame: bool)
        ensures
            final(self).is_hovering == (is_hot || is_disabled),
            final(self).child == old(self).child,
            request_frame == is_disabled,
    {
        self.is_hovering = is_hot;
        if is_disabled {
            self.is_hovering = true;
        }
        is_disabled
    }
}

/// The colour of a menu entry's label: the disabled text colour while the entry
/// reports that it is hovered, the ordinary text colour otherwise (also when the
/// entry reports nothing).
pub fn label_color<C>(is_hovering: Option<bool>, text_color: C, disabled_color: C) -> (res: C)
    ensures
        res == (if is_hovering == Some(true) {
            disabled_color
        } else {
            text_color
        }),
{
    match is_hovering {
        Some(true) => disabled_color,
        _ => text_color,
    }
}

} // verus!
