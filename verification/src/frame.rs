//! The order of the passes that make up one frame of the editor.

use vstd::prelude::*;

verus! {

/// One pass of a frame.
#[derive(Clone, Copy, PartialEq, Eq, Debug, Structural)]
pub enum FramePass {
    /// The menu bar, with the on/off switch and the "open window" menu.
    MenuBar,
    /// The left docking slot.
    LeftPanel,
    /// The right docking slot.
    RightPanel,
    /// The central area: the bottom docking slot, then the viewport, which
    /// is what the docked panels leave free.
    CentralPanel,
    /// All floating windows.
    FloatingWindows,
    /// The resolution of a drag that ended in this frame.
    DragAndDrop,
}

impl FramePass {
    /// The pass that follows `self`, given whether the editor is shown once
    /// the menu bar has been handled. A hidden editor draws its floating
    /// windows and nothing else.
    pub open spec fn spec_next(self, active: bool) -> Option<FramePass> {
        match self {
            FramePass::MenuBar => if active {
                Some(FramePass::LeftPanel)
            } else {
                Some(FramePass::FloatingWindows)
            },
            FramePass::LeftPanel => Some(FramePass::RightPanel),
            FramePass::RightPanel => Some(FramePass::CentralPanel),
            FramePass::CentralPanel => Some(FramePass::FloatingWindows),
            FramePass::FloatingWindows => if active {
                Some(FramePass::DragAndDrop)
            } else {
                None
            },
            FramePass::DragAndDrop => None,
        }
    }

    /// The passes of a whole frame, in order.
    pub open spec fn frame(active: bool) -> Seq<FramePass> {
        if active {
            seq![
                FramePass::MenuBar,
                FramePass::LeftPanel,
                FramePass::RightPanel,
                FramePass::CentralPanel,
                FramePass::FloatingWindows,
                FramePass::DragAndDrop,
            ]
        } else {
            seq![FramePass::MenuBar, FramePass::FloatingWindows]
        }
    }

    /// Every frame starts with the menu bar.
    pub fn first() -> (pass: FramePass)
        ensures
            pass == FramePass::MenuBar,
    {
        FramePass::MenuBar
    }

    /// The pass that follows `self`, or `None` at the end of the frame.
    pub fn next(self, active: bool) -> (following: Option<FramePass>)
        ensures
            following == self.spec_next(active),
    {
        match self {
            FramePass::MenuBar => if active {
                Some(FramePass::LeftPanel)
            } else {
                Some(FramePass::FloatingWindows)
            },
            FramePass::LeftPanel => Some(FramePass::RightPanel),
            FramePass::RightPanel => Some(FramePass::CentralPanel),
            FramePass::CentralPanel => Some(FramePass::FloatingWindows),
            FramePass::FloatingWindows => if active {
                Some(FramePass::DragAndDrop)
            } else {
                None
            },
            FramePass::DragAndDrop => None,
        }
    }
}

/// Stepping with `next` from the first pass walks through exactly the passes
/// of `frame`, in order, and ends after the last of them.
pub proof fn lemma_next_walks_the_frame(active: bool)
    ensures
        FramePass::frame(active)[0] == FramePass::MenuBar,
        forall|k: int|
            0 <= k < FramePass::frame(active).len() - 1 ==> (#[trigger] FramePass::frame(
                active,
            )[k]).spec_next(active) == Some(FramePass::frame(active)[k + 1]),
        FramePass::frame(active).last().spec_next(active) is None,
{
}

/// A drag is resolved only while the editor is shown, and then only after
/// every slot and every floating window has been handled.
pub proof fn lemma_drag_and_drop_comes_last(active: bool, k: int)
    requires
        0 <= k < FramePass::frame(active).len(),
        FramePass::frame(active)[k] == FramePass::DragAndDrop,
    ensures
        active,
        k == FramePass::frame(active).len() - 1,
{
}

} // verus!
