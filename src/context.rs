//! The control-stack simulator: an abstract operand-stack height and the
//! stack of open control regions.
use crate::module::StackHeightError;
use vstd::prelude::*;

verus! {

/// One open control region (the function body, a `block`, a `loop` or an `if`).
#[derive(Clone, Copy, Debug, PartialEq, Eq, Structural)]
pub struct Frame {
    /// Set once an instruction that never passes control further was met in
    /// this region: the stack is then polymorphic until the region closes.
    pub is_polymorphic: bool,
    /// Count of values pushed when the region closes normally.
    pub end_arity: u32,
    /// Count of values popped by a branch to this region. It differs from
    /// `end_arity` for a loop, since a branch to a loop header takes no values.
    pub branch_arity: u32,
    /// Stack height when the region was entered.
    pub start_height: u32,
}

/// The abstract state of one function's analysis.
pub struct Context {
    height: u32,
    control_stack: Vec<Frame>,
}

/// The mathematical model of a [`Context`]: the height and the open
/// regions, innermost last.
pub struct ContextView {
    pub height: u32,
    pub frames: Seq<Frame>,
}

impl View for Context {
    type V = ContextView;

    closed spec fn view(&self) -> ContextView {
        ContextView { height: self.height, frames: self.control_stack@ }
    }
}

/// The frame at distance `rel_depth` from the innermost one.
pub open spec fn frame_at(frames: Seq<Frame>, rel_depth: int) -> Frame {
    frames[frames.len() - 1 - rel_depth]
}

/// Looks up the frame at distance `rel_depth` from the innermost one.
pub open spec fn lookup_frame(frames: Seq<Frame>, rel_depth: int) -> Result<Frame, StackHeightError> {
    if frames.len() == 0 {
        Err(StackHeightError::EmptyControlStack)
    } else if rel_depth >= frames.len() {
        Err(StackHeightError::DepthOutOfRange)
    } else {
        Ok(frame_at(frames, rel_depth))
    }
}

/// The state after `n` values are pushed; the height must fit in a `u32`.
pub open spec fn push_spec(s: ContextView, n: int) -> Result<ContextView, StackHeightError> {
    if s.height + n > u32::MAX {
        Err(StackHeightError::StackOverflow)
    } else {
        Ok(ContextView { height: (s.height + n) as u32, ..s })
    }
}

/// The state after `n` values are popped.
///
/// At the innermost region's start height a pop is harmless in a polymorphic
/// region and a defect in any other.
pub open spec fn pop_spec(s: ContextView, n: int) -> Result<ContextView, StackHeightError> {
    if s.frames.len() == 0 {
        Err(StackHeightError::EmptyControlStack)
    } else if s.height == s.frames.last().start_height {
        if s.frames.last().is_polymorphic {
            Ok(s)
        } else {
            Err(StackHeightError::PopBeyondFrame)
        }
    } else if s.height < n {
        Err(StackHeightError::StackUnderflow)
    } else {
        Ok(ContextView { height: (s.height - n) as u32, ..s })
    }
}

/// The state after the innermost region is marked polymorphic.
pub open spec fn unreachable_spec(s: ContextView) -> Result<ContextView, StackHeightError> {
    if s.frames.len() == 0 {
        Err(StackHeightError::EmptyControlStack)
    } else {
        Ok(
            ContextView {
                frames: s.frames.update(
                    s.frames.len() - 1,
                    Frame { is_polymorphic: true, ..s.frames.last() },
                ),
                ..s
            },
        )
    }
}

/// Whether an operation that returned `r` and left the state `after` did
/// what `expected` describes: the same error, or success with that state.
pub open spec fn outcome(
    r: Result<(), StackHeightError>,
    after: ContextView,
    expected: Result<ContextView, StackHeightError>,
) -> bool {
    match expected {
        Ok(s) => r is Ok && after == s,
        Err(e) => r == Err::<(), StackHeightError>(e),
    }
}

impl Context {
    /// A context with height zero and no open region.
    pub fn new() -> (r: Context)
        ensures
            r@.height == 0,
            r@.frames == Seq::<Frame>::empty(),
    {
        Context { height: 0, control_stack: Vec::new() }
    }

    /// Returns the current height of the value stack.
    pub fn height(&self) -> (r: u32)
        ensures
            r == self@.height,
    {
        self.height
    }

    /// Returns the count of open regions.
    pub fn depth(&self) -> (r: usize)
        ensures
            r == self@.frames.len(),
    {
        self.control_stack.len()
    }

    /// Returns the frame at distance `rel_depth` from the innermost one.
    ///
    /// A depth beyond the open regions is a defect of the module, which a
    /// caller tests for with [`Context::depth`].
    pub fn frame(&self, rel_depth: u32) -> (r: &Frame)
        requires
            (rel_depth as int) < self@.frames.len(),
        ensures
            *r == frame_at(self@.frames, rel_depth as int),
    {
        let last_idx = self.control_stack.len() - 1;
        &self.control_stack[last_idx - rel_depth as usize]
    }

    /// Marks the instructions that follow, up to the end of the innermost
    /// region, as unreachable: the stack becomes polymorphic there.
    pub fn mark_unreachable(&mut self)
        requires
            old(self)@.frames.len() > 0,
        ensures
            unreachable_spec(old(self)@) == Ok::<ContextView, StackHeightError>(final(self)@),
    {
        let top = self.control_stack.pop().unwrap();
        self.control_stack.push(Frame { is_polymorphic: true, ..top });
        proof {
            assert(self.control_stack@ =~= unreachable_spec(old(self)@)->Ok_0.frames);
        }
    }

    /// Opens a new innermost region.
    pub fn push_frame(&mut self, frame: Frame)
        ensures
            final(self)@.height == old(self)@.height,
            final(self)@.frames == old(self)@.frames.push(frame),
    {
        self.control_stack.push(frame);
    }

    /// Closes the innermost region and returns it.
    pub fn pop_frame(&mut self) -> (r: Frame)
        requires
            old(self)@.frames.len() > 0,
        ensures
            r == old(self)@.frames.last(),
            final(self)@.frames == old(self)@.frames.drop_last(),
            final(self)@.height == old(self)@.height,
    {
        self.control_stack.pop().unwrap()
    }

    /// Sets the height of the value stack.
    pub fn trunc(&mut self, new_height: u32)
        ensures
            final(self)@.height == new_height,
            final(self)@.frames == old(self)@.frames,
    {
        self.height = new_height;
    }

    /// Pushes `value_count` values; the new height must fit in a `u32`.
    pub fn push_values(&mut self, value_count: u32)
        requires
            old(self)@.height + value_count <= u32::MAX,
        ensures
            push_spec(old(self)@, value_count as int) == Ok::<ContextView, StackHeightError>(
                final(self)@,
            ),
    {
        self.height = self.height + value_count;
    }

    /// Pops `value_count` values.
    ///
    /// At the innermost region's start height this does nothing, which the
    /// caller may ask only of a polymorphic region; elsewhere the height must
    /// not become negative.
    pub fn pop_values(&mut self, value_count: u32)
        requires
            pop_spec(old(self)@, value_count as int) is Ok,
        ensures
            pop_spec(old(self)@, value_count as int) == Ok::<ContextView, StackHeightError>(
                final(self)@,
            ),
    {
        let top_frame = self.frame(0);
        if self.height == top_frame.start_height {
            return;
        }
        self.height = self.height - value_count;
    }
}

} // verus!
