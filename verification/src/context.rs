//! The evaluation context stack: the root input, the frames that iterating
//! operators push (array index, object key, reduce state), and the
//! breadcrumb of node ids that an error passed while unwinding.

use vstd::prelude::*;
use crate::value::{DataValue, JsonValue};

verus! {

/// One frame of the context stack.
#[derive(Clone, Copy)]
pub enum ContextFrame<'a> {
    /// An array element and its index.
    Indexed { data: &'a DataValue, index: usize },
    /// An object entry's value, its position and its key.
    Keyed { data: &'a DataValue, index: usize, key: &'a str },
    /// The reduce state: current element and accumulator.
    Reduce { current: &'a DataValue, accumulator: &'a DataValue },
    /// A plain data frame.
    Data(&'a DataValue),
}

/// The data a frame exposes to `var`: the element, or the reduce element.
pub open spec fn frame_data_spec<'a>(f: ContextFrame<'a>) -> &'a DataValue {
    match f {
        ContextFrame::Indexed { data, .. } => data,
        ContextFrame::Keyed { data, .. } => data,
        ContextFrame::Data(data) => data,
        ContextFrame::Reduce { current, .. } => current,
    }
}

/// The index a frame carries, if any.
pub open spec fn frame_index_spec(f: ContextFrame) -> Option<usize> {
    match f {
        ContextFrame::Indexed { index, .. } => Some(index),
        ContextFrame::Keyed { index, .. } => Some(index),
        _ => None,
    }
}

impl<'a> ContextFrame<'a> {
    /// The data this frame exposes.
    pub fn data(&self) -> (r: &'a DataValue)
        ensures
            r == frame_data_spec(*self),
    {
        match self {
            ContextFrame::Indexed { data, .. } => data,
            ContextFrame::Keyed { data, .. } => data,
            ContextFrame::Data(data) => data,
            ContextFrame::Reduce { current, .. } => current,
        }
    }

    /// The iteration index, for indexed and keyed frames.
    pub fn get_index(&self) -> (r: Option<usize>)
        ensures
            r == frame_index_spec(*self),
    {
        match self {
            ContextFrame::Indexed { index, .. } => Some(*index),
            ContextFrame::Keyed { index, .. } => Some(*index),
            _ => None,
        }
    }

    /// The key, for keyed frames.
    pub fn get_key(&self) -> (r: Option<&'a str>)
        ensures
            r == (match *self {
                ContextFrame::Keyed { key, .. } => Some(key),
                _ => None,
            }),
    {
        match self {
            ContextFrame::Keyed { key, .. } => Some(key),
            _ => None,
        }
    }

    /// The current element, for reduce frames.
    pub fn get_reduce_current(&self) -> (r: Option<&'a DataValue>)
        ensures
            r == (match *self {
                ContextFrame::Reduce { current, .. } => Some(current),
                _ => None,
            }),
    {
        match self {
            ContextFrame::Reduce { current, .. } => Some(current),
            _ => None,
        }
    }

    /// The accumulator, for reduce frames.
    pub fn get_reduce_accumulator(&self) -> (r: Option<&'a DataValue>)
        ensures
            r == (match *self {
                ContextFrame::Reduce { accumulator, .. } => Some(accumulator),
                _ => None,
            }),
    {
        match self {
            ContextFrame::Reduce { accumulator, .. } => Some(accumulator),
            _ => None,
        }
    }
}

/// What a lookup in the stack lands on: a frame, or the root input.
#[derive(Clone, Copy)]
pub enum ContextRef<'a> {
    Frame(ContextFrame<'a>),
    Root(&'a DataValue),
}

impl<'a> ContextRef<'a> {
    /// The iteration index, when this is an indexed or keyed frame.
    pub fn get_index(&self) -> (r: Option<usize>)
        ensures
            r == (match *self {
                ContextRef::Frame(f) => frame_index_spec(f),
                ContextRef::Root(_) => None,
            }),
    {
        match self {
            ContextRef::Frame(f) => f.get_index(),
            ContextRef::Root(_) => None,
        }
    }

    /// The key, when this is a keyed frame.
    pub fn get_key(&self) -> (r: Option<&'a str>)
        ensures
            r == (match *self {
                ContextRef::Frame(ContextFrame::Keyed { key, .. }) => Some(key),
                _ => None,
            }),
    {
        match self {
            ContextRef::Frame(f) => f.get_key(),
            ContextRef::Root(_) => None,
        }
    }

    /// The root input, when this is the root.
    pub fn root_data(&self) -> (r: Option<&'a DataValue>)
        ensures
            r == (match *self {
                ContextRef::Root(d) => Some(d),
                _ => None,
            }),
    {
        match self {
            ContextRef::Root(d) => Some(*d),
            ContextRef::Frame(_) => None,
        }
    }

    /// The frame's data, when this is a frame.
    pub fn frame_data(&self) -> (r: Option<&'a DataValue>)
        ensures
            r == (match *self {
                ContextRef::Frame(f) => Some(frame_data_spec(f)),
                _ => None,
            }),
    {
        match self {
            ContextRef::Frame(f) => Some(f.data()),
            ContextRef::Root(_) => None,
        }
    }
}

/// The current context of a stack: its top frame, or the root when no
/// frame is pushed.
pub open spec fn current_spec<'a>(frames: Seq<ContextFrame<'a>>, root: &'a DataValue) -> ContextRef<'a> {
    if frames.len() == 0 {
        ContextRef::Root(root)
    } else {
        ContextRef::Frame(frames.last())
    }
}

/// Where a lookup `levels_up` levels above the current context lands: the
/// current context for zero, the frame `levels_up` below the top while
/// there is one, and the root beyond the bottom frame.
pub open spec fn at_level_spec<'a>(frames: Seq<ContextFrame<'a>>, root: &'a DataValue, levels_up: nat) -> ContextRef<'a> {
    if levels_up == 0 {
        current_spec(frames, root)
    } else if levels_up >= frames.len() {
        ContextRef::Root(root)
    } else {
        ContextRef::Frame(frames[frames.len() - 1 - levels_up])
    }
}

/// The model of a frame: what it holds, by value.
pub enum FrameView {
    Indexed(JsonValue, usize),
    Keyed(JsonValue, usize, Seq<char>),
    Reduce(JsonValue, JsonValue),
    Data(JsonValue),
}

/// Model of one frame.
pub open spec fn frame_view(f: ContextFrame) -> FrameView {
    match f {
        ContextFrame::Indexed { data, index } => FrameView::Indexed(data@, index),
        ContextFrame::Keyed { data, index, key } => FrameView::Keyed(data@, index, key@),
        ContextFrame::Reduce { current, accumulator } => FrameView::Reduce(current@, accumulator@),
        ContextFrame::Data(data) => FrameView::Data(data@),
    }
}

/// Models of frames, oldest first.
pub open spec fn frames_view(fs: Seq<ContextFrame>) -> Seq<FrameView> {
    fs.map_values(|f: ContextFrame| frame_view(f))
}

/// The frame `level` levels below the top, if there is one.
pub open spec fn scope_frame<'a>(frames: Seq<ContextFrame<'a>>, level: nat) -> Option<ContextFrame<'a>> {
    if level < frames.len() {
        Some(frames[frames.len() - 1 - level])
    } else {
        None
    }
}

/// Magnitude of a signed level.
pub open spec fn level_magnitude(level: isize) -> nat {
    if level < 0 {
        (-level) as nat
    } else {
        level as nat
    }
}

/// The context stack used while a rule is evaluated.
pub struct DataContextStack<'a> {
    root: &'a DataValue,
    frames: Vec<ContextFrame<'a>>,
    error_path: Vec<u32>,
}

impl<'a> DataContextStack<'a> {
    /// The pushed frames, oldest first.
    pub closed spec fn frames(&self) -> Seq<ContextFrame<'a>> {
        self.frames@
    }

    /// The root input.
    pub closed spec fn root(&self) -> &'a DataValue {
        self.root
    }

    /// The node ids recorded while an error unwound.
    pub closed spec fn error_path(&self) -> Seq<u32> {
        self.error_path@
    }

    /// A stack over `root` with no frames and an empty error path.
    pub fn new(root: &'a DataValue) -> (r: Self)
        ensures
            r.root() == root,
            r.frames() == Seq::<ContextFrame<'a>>::empty(),
            r.error_path() == Seq::<u32>::empty(),
    {
        DataContextStack { root, frames: Vec::new(), error_path: Vec::new() }
    }

    /// The root input.
    pub fn root_input(&self) -> (r: &'a DataValue)
        ensures
            r == self.root(),
    {
        self.root
    }

    /// The number of pushed frames.
    pub fn depth(&self) -> (r: usize)
        ensures
            r == self.frames().len(),
    {
        self.frames.len()
    }

    /// The top frame, or the root when no frame is pushed.
    pub fn current(&self) -> (r: ContextRef<'a>)
        ensures
            r == current_spec(self.frames(), self.root()),
    {
        let n = self.frames.len();
        if n > 0 {
            ContextRef::Frame(self.frames[n - 1])
        } else {
            ContextRef::Root(self.root)
        }
    }

    /// The context `level` levels above the current one (level 1 is the
    /// parent); the sign of `level` is ignored.
    pub fn get_at_level(&self, level: isize) -> (r: Option<ContextRef<'a>>)
        ensures
            r == Some(at_level_spec(self.frames(), self.root(), level_magnitude(level))),
    {
        let levels_up: usize = if level < 0 {
            if level == isize::MIN {
                (isize::MAX as usize) + 1
            } else {
                (-level) as usize
            }
        } else {
            level as usize
        };
        if levels_up == 0 {
            return Some(self.current());
        }
        let frame_count = self.frames.len();
        if levels_up >= frame_count {
            return Some(ContextRef::Root(self.root));
        }
        let target_index = frame_count - 1 - levels_up;
        Some(ContextRef::Frame(self.frames[target_index]))
    }

    /// The frame `level` levels below the top, or `None` where the lookup
    /// reaches past the bottom frame to the root.
    pub fn frame_at_level(&self, level: u32) -> (r: Option<ContextFrame<'a>>)
        ensures
            r == scope_frame(self.frames(), level as nat),
    {
        let n = self.frames.len();
        let l = level as usize;
        if l < n {
            Some(self.frames[n - 1 - l])
        } else {
            None
        }
    }

    /// A stack with this one's root and frames and `f` pushed on top, for
    /// a frame over data that lives shorter than this stack's.
    pub fn with_frame<'b>(&self, f: ContextFrame<'b>) -> (r: DataContextStack<'b>)
        where 'a: 'b
        ensures
            frames_view(r.frames()) == frames_view(self.frames()).push(frame_view(f)),
            r.root()@ == self.root()@,
    {
        let mut frames: Vec<ContextFrame<'b>> = Vec::new();
        let mut i: usize = 0;
        while i < self.frames.len()
            invariant
                i <= self.frames@.len(),
                frames_view(frames@) == frames_view(self.frames@.take(i as int)),
            decreases self.frames@.len() - i,
        {
            let ghost before = frames_view(frames@);
            frames.push(self.frames[i]);
            assert(frames_view(frames@) =~= before.push(frame_view(self.frames@[i as int])));
            assert(frames_view(self.frames@.take(i as int + 1)) =~= frames_view(self.frames@.take(i as int)).push(
                frame_view(self.frames@[i as int]),
            ));
            i = i + 1;
        }
        assert(self.frames@.take(self.frames@.len() as int) =~= self.frames@);
        let ghost before = frames_view(frames@);
        frames.push(f);
        assert(frames_view(frames@) =~= before.push(frame_view(f)));
        DataContextStack { root: self.root, frames, error_path: Vec::new() }
    }

    /// Pushes a plain data frame.
    pub fn push(&mut self, data: &'a DataValue)
        ensures
            final(self).frames() == old(self).frames().push(ContextFrame::Data(data)),
            final(self).root() == old(self).root(),
            final(self).error_path() == old(self).error_path(),
    {
        self.frames.push(ContextFrame::Data(data));
    }

    /// Pushes an array-element frame.
    pub fn push_with_index(&mut self, data: &'a DataValue, index: usize)
        ensures
            final(self).frames() == old(self).frames().push(ContextFrame::Indexed { data, index }),
            final(self).root() == old(self).root(),
            final(self).error_path() == old(self).error_path(),
    {
        self.frames.push(ContextFrame::Indexed { data, index });
    }

    /// Pushes an object-entry frame.
    pub fn push_with_key_index(&mut self, data: &'a DataValue, index: usize, key: &'a str)
        ensures
            final(self).frames() == old(self).frames().push(ContextFrame::Keyed { data, index, key }),
            final(self).root() == old(self).root(),
            final(self).error_path() == old(self).error_path(),
    {
        self.frames.push(ContextFrame::Keyed { data, index, key });
    }

    /// Pushes a reduce frame.
    pub fn push_reduce(&mut self, current: &'a DataValue, accumulator: &'a DataValue)
        ensures
            final(self).frames() == old(self).frames().push(ContextFrame::Reduce { current, accumulator }),
            final(self).root() == old(self).root(),
            final(self).error_path() == old(self).error_path(),
    {
        self.frames.push(ContextFrame::Reduce { current, accumulator });
    }

    /// Replaces the top frame; does nothing when no frame is pushed.
    fn replace_top(&mut self, frame: ContextFrame<'a>)
        ensures
            final(self).frames() == (if old(self).frames().len() == 0 {
                old(self).frames()
            } else {
                old(self).frames().update(old(self).frames().len() - 1, frame)
            }),
            final(self).root() == old(self).root(),
            final(self).error_path() == old(self).error_path(),
    {
        let n = self.frames.len();
        if n > 0 {
            self.frames.set(n - 1, frame);
        }
    }

    /// Replaces the top frame with an array-element frame; does nothing
    /// when no frame is pushed.
    pub fn replace_top_data(&mut self, data: &'a DataValue, index: usize)
        ensures
            final(self).frames() == (if old(self).frames().len() == 0 {
                old(self).frames()
            } else {
                old(self).frames().update(
                    old(self).frames().len() - 1,
                    ContextFrame::Indexed { data, index },
                )
            }),
            final(self).root() == old(self).root(),
            final(self).error_path() == old(self).error_path(),
    {
        self.replace_top(ContextFrame::Indexed { data, index });
    }

    /// Replaces the top frame with an object-entry frame; does nothing when
    /// no frame is pushed.
    pub fn replace_top_key_data(&mut self, data: &'a DataValue, index: usize, key: &'a str)
        ensures
            final(self).frames() == (if old(self).frames().len() == 0 {
                old(self).frames()
            } else {
                old(self).frames().update(
                    old(self).frames().len() - 1,
                    ContextFrame::Keyed { data, index, key },
                )
            }),
            final(self).root() == old(self).root(),
            final(self).error_path() == old(self).error_path(),
    {
        self.replace_top(ContextFrame::Keyed { data, index, key });
    }

    /// Replaces the top frame with a reduce frame; does nothing when no
    /// frame is pushed.
    pub fn replace_reduce_data(&mut self, current: &'a DataValue, accumulator: &'a DataValue)
        ensures
            final(self).frames() == (if old(self).frames().len() == 0 {
                old(self).frames()
            } else {
                old(self).frames().update(
                    old(self).frames().len() - 1,
                    ContextFrame::Reduce { current, accumulator },
                )
            }),
            final(self).root() == old(self).root(),
            final(self).error_path() == old(self).error_path(),
    {
        self.replace_top(ContextFrame::Reduce { current, accumulator });
    }

    /// Pops the top frame, if any.
    pub fn pop(&mut self) -> (r: Option<ContextFrame<'a>>)
        ensures
            old(self).frames().len() == 0 ==> r is None && final(self).frames() == old(self).frames(),
            old(self).frames().len() > 0 ==> r == Some(old(self).frames().last())
                && final(self).frames() == old(self).frames().drop_last(),
            final(self).root() == old(self).root(),
            final(self).error_path() == old(self).error_path(),
    {
        self.frames.pop()
    }

    /// Records a node id on the error breadcrumb.
    pub fn push_error_step(&mut self, id: u32)
        ensures
            final(self).error_path() == old(self).error_path().push(id),
            final(self).frames() == old(self).frames(),
            final(self).root() == old(self).root(),
    {
        self.error_path.push(id);
    }

    /// Length of the error breadcrumb.
    pub fn error_path_len(&self) -> (r: usize)
        ensures
            r == self.error_path().len(),
    {
        self.error_path.len()
    }

    /// Shortens the error breadcrumb to at most `len` entries.
    pub fn truncate_error_path(&mut self, len: usize)
        ensures
            final(self).error_path() == (if len < old(self).error_path().len() {
                old(self).error_path().take(len as int)
            } else {
                old(self).error_path()
            }),
            final(self).frames() == old(self).frames(),
            final(self).root() == old(self).root(),
    {
        self.error_path.truncate(len);
    }

    /// Takes the error breadcrumb out, leaving it empty.
    pub fn take_error_path(&mut self) -> (r: Vec<u32>)
        ensures
            r@ == old(self).error_path(),
            final(self).error_path() == Seq::<u32>::empty(),
            final(self).frames() == old(self).frames(),
            final(self).root() == old(self).root(),
    {
        let mut out: Vec<u32> = Vec::new();
        std::mem::swap(&mut out, &mut self.error_path);
        out
    }
}

/// Drives the push-once-then-replace pattern of iterating operators: the
/// first step pushes a frame, later steps replace it, and `release` pops it
/// again, handing back the stack as it was before the iteration.
pub struct IterGuard<'a> {
    actx: DataContextStack<'a>,
    pushed: bool,
    base: Ghost<Seq<ContextFrame<'a>>>,
}

impl<'a> IterGuard<'a> {
    /// The frames the stack had when the guard was made.
    pub closed spec fn base(&self) -> Seq<ContextFrame<'a>> {
        self.base@
    }

    /// The stack the guard holds.
    pub closed spec fn held(&self) -> DataContextStack<'a> {
        self.actx
    }

    /// True once a step has pushed the iteration frame.
    pub closed spec fn has_pushed(&self) -> bool {
        self.pushed
    }

    /// The guard's frame discipline: before the first step the stack is as
    /// it was; after it, one frame sits on top of the frames it began with.
    pub open spec fn wf(&self) -> bool {
        if self.has_pushed() {
            &&& self.held().frames().len() == self.base().len() + 1
            &&& self.held().frames().drop_last() == self.base()
        } else {
            self.held().frames() == self.base()
        }
    }

    /// Takes the stack for one iteration.
    pub fn new(actx: DataContextStack<'a>) -> (r: Self)
        ensures
            r.wf(),
            !r.has_pushed(),
            r.held() == actx,
            r.base() == actx.frames(),
    {
        let ghost base = actx.frames();
        IterGuard { actx, pushed: false, base: Ghost(base) }
    }

    /// Makes `(data, index)` the iteration frame.
    pub fn step_indexed(&mut self, data: &'a DataValue, index: usize)
        requires
            old(self).wf(),
        ensures
            final(self).wf(),
            final(self).has_pushed(),
            final(self).base() == old(self).base(),
            final(self).held().frames() == old(self).base().push(ContextFrame::Indexed { data, index }),
            final(self).held().root() == old(self).held().root(),
            final(self).held().error_path() == old(self).held().error_path(),
    {
        if self.pushed {
            self.actx.replace_top_data(data, index);
        } else {
            self.actx.push_with_index(data, index);
            self.pushed = true;
        }
        proof {
            assert(self.actx.frames().drop_last() =~= self.base@);
        }
    }

    /// Makes `(data, index, key)` the iteration frame.
    pub fn step_keyed(&mut self, data: &'a DataValue, index: usize, key: &'a str)
        requires
            old(self).wf(),
        ensures
            final(self).wf(),
            final(self).has_pushed(),
            final(self).base() == old(self).base(),
            final(self).held().frames() == old(self).base().push(ContextFrame::Keyed { data, index, key }),
            final(self).held().root() == old(self).held().root(),
            final(self).held().error_path() == old(self).held().error_path(),
    {
        if self.pushed {
            self.actx.replace_top_key_data(data, index, key);
        } else {
            self.actx.push_with_key_index(data, index, key);
            self.pushed = true;
        }
        proof {
            assert(self.actx.frames().drop_last() =~= self.base@);
        }
    }

    /// Makes `(current, accumulator)` the iteration frame.
    pub fn step_reduce(&mut self, current: &'a DataValue, accumulator: &'a DataValue)
        requires
            old(self).wf(),
        ensures
            final(self).wf(),
            final(self).has_pushed(),
            final(self).base() == old(self).base(),
            final(self).held().frames() == old(self).base().push(ContextFrame::Reduce { current, accumulator }),
            final(self).held().root() == old(self).held().root(),
            final(self).held().error_path() == old(self).held().error_path(),
    {
        if self.pushed {
            self.actx.replace_reduce_data(current, accumulator);
        } else {
            self.actx.push_reduce(current, accumulator);
            self.pushed = true;
        }
        proof {
            assert(self.actx.frames().drop_last() =~= self.base@);
        }
    }

    /// Read access to the held stack.
    pub fn stack(&self) -> (r: &DataContextStack<'a>)
        ensures
            *r == self.held(),
    {
        &self.actx
    }

    /// Ends the iteration: pops the iteration frame if one was pushed and
    /// returns the stack with exactly the frames it had before.
    pub fn release(self) -> (r: DataContextStack<'a>)
        requires
            self.wf(),
        ensures
            r.frames() == self.base(),
            r.root() == self.held().root(),
            r.error_path() == self.held().error_path(),
    {
        let mut actx = self.actx;
        if self.pushed {
            actx.pop();
        }
        actx
    }
}

/// Pushing a frame and popping it again gives back that frame and leaves
/// the frames as they were.
pub proof fn law_push_then_pop<'a>(frames: Seq<ContextFrame<'a>>, f: ContextFrame<'a>)
    ensures
        frames.push(f).len() > 0,
        frames.push(f).last() == f,
        frames.push(f).drop_last() == frames,
{
    assert(frames.push(f).drop_last() =~= frames);
}

/// Level zero is the current context, level one the frame below it, and a
/// distance that reaches the number of frames lands on the root.
pub proof fn law_levels<'a>(frames: Seq<ContextFrame<'a>>, root: &'a DataValue, levels_up: nat)
    ensures
        at_level_spec(frames, root, 0) == current_spec(frames, root),
        frames.len() >= 2 ==> at_level_spec(frames, root, 1) == ContextRef::Frame(frames[frames.len() - 2]),
        levels_up >= frames.len() ==> at_level_spec(frames, root, levels_up) == ContextRef::Root(root),
{
}

/// One call on a context stack.
pub enum StackCall<'a> {
    Push(&'a DataValue),
    PushIndexed(&'a DataValue, usize),
    PushKeyed(&'a DataValue, usize, &'a str),
    PushReduce(&'a DataValue, &'a DataValue),
    ReplaceIndexed(&'a DataValue, usize),
    ReplaceKeyed(&'a DataValue, usize, &'a str),
    ReplaceReduce(&'a DataValue, &'a DataValue),
    Pop,
    PushErrorStep(u32),
    TruncateErrorPath(usize),
    TakeErrorPath,
}

/// The top frame replaced by `f`; nothing when there is no frame.
pub open spec fn replace_last<'a>(frames: Seq<ContextFrame<'a>>, f: ContextFrame<'a>) -> Seq<ContextFrame<'a>> {
    if frames.len() == 0 {
        frames
    } else {
        frames.update(frames.len() - 1, f)
    }
}

/// The frames after one call.
pub open spec fn frames_after<'a>(frames: Seq<ContextFrame<'a>>, c: StackCall<'a>) -> Seq<ContextFrame<'a>> {
    match c {
        StackCall::Push(d) => frames.push(ContextFrame::Data(d)),
        StackCall::PushIndexed(data, index) => frames.push(ContextFrame::Indexed { data, index }),
        StackCall::PushKeyed(data, index, key) => frames.push(ContextFrame::Keyed { data, index, key }),
        StackCall::PushReduce(current, accumulator) => frames.push(ContextFrame::Reduce { current, accumulator }),
        StackCall::ReplaceIndexed(data, index) => replace_last(frames, ContextFrame::Indexed { data, index }),
        StackCall::ReplaceKeyed(data, index, key) => replace_last(frames, ContextFrame::Keyed { data, index, key }),
        StackCall::ReplaceReduce(current, accumulator) => replace_last(
            frames,
            ContextFrame::Reduce { current, accumulator },
        ),
        StackCall::Pop => if frames.len() == 0 {
            frames
        } else {
            frames.drop_last()
        },
        _ => frames,
    }
}

/// The frames after a sequence of calls.
pub open spec fn frames_after_all<'a>(frames: Seq<ContextFrame<'a>>, cs: Seq<StackCall<'a>>) -> Seq<ContextFrame<'a>>
    decreases cs.len(),
{
    if cs.len() == 0 {
        frames
    } else {
        frames_after(frames_after_all(frames, cs.drop_last()), cs.last())
    }
}

/// The call pushes a frame.
pub open spec fn is_push(c: StackCall) -> bool {
    c is Push || c is PushIndexed || c is PushKeyed || c is PushReduce
}

/// How many calls push, and how many pop.
pub open spec fn push_pop_counts(cs: Seq<StackCall>) -> (nat, nat)
    decreases cs.len(),
{
    if cs.len() == 0 {
        (0, 0)
    } else {
        let (p, q) = push_pop_counts(cs.drop_last());
        if is_push(cs.last()) {
            (p + 1, q)
        } else if cs.last() is Pop {
            (p, q + 1)
        } else {
            (p, q)
        }
    }
}

/// Every pop in `cs` is made while a frame is pushed.
pub open spec fn pops_on_frames<'a>(frames: Seq<ContextFrame<'a>>, cs: Seq<StackCall<'a>>) -> bool {
    forall|i: int| 0 <= i < cs.len() && #[trigger] cs[i] is Pop ==> frames_after_all(frames, cs.take(i)).len() > 0
}

/// Makes the calls `calls` on `ctx`, in order. Whatever the calls, the
/// root input stays the one the stack was made with.
pub fn apply_calls<'a>(ctx: &mut DataContextStack<'a>, calls: &Vec<StackCall<'a>>)
    ensures
        final(ctx).root() == old(ctx).root(),
        final(ctx).frames() == frames_after_all(old(ctx).frames(), calls@),
{
    let mut i: usize = 0;
    while i < calls.len()
        invariant
            i <= calls@.len(),
            ctx.root() == old(ctx).root(),
            ctx.frames() == frames_after_all(old(ctx).frames(), calls@.take(i as int)),
        decreases calls@.len() - i,
    {
        assert(calls@.take(i as int + 1).drop_last() =~= calls@.take(i as int));
        assert(calls@.take(i as int + 1).last() == calls@[i as int]);
        match &calls[i] {
            StackCall::Push(d) => ctx.push(d),
            StackCall::PushIndexed(d, k) => ctx.push_with_index(d, *k),
            StackCall::PushKeyed(d, k, key) => ctx.push_with_key_index(d, *k, key),
            StackCall::PushReduce(c, a) => ctx.push_reduce(c, a),
            StackCall::ReplaceIndexed(d, k) => ctx.replace_top_data(d, *k),
            StackCall::ReplaceKeyed(d, k, key) => ctx.replace_top_key_data(d, *k, key),
            StackCall::ReplaceReduce(c, a) => ctx.replace_reduce_data(c, a),
            StackCall::Pop => {
                let _ = ctx.pop();
            },
            StackCall::PushErrorStep(id) => ctx.push_error_step(*id),
            StackCall::TruncateErrorPath(n) => ctx.truncate_error_path(*n),
            StackCall::TakeErrorPath => {
                let _ = ctx.take_error_path();
            },
        }
        i = i + 1;
    }
    assert(calls@.take(calls@.len() as int) =~= calls@);
}

/// The depth counts the frames pushed and not yet popped: after any
/// sequence of calls in which every pop finds a frame, the number of
/// frames is the starting number plus the pushes minus the pops.
pub proof fn law_depth_counts_pushes_and_pops<'a>(frames: Seq<ContextFrame<'a>>, cs: Seq<StackCall<'a>>)
    requires
        pops_on_frames(frames, cs),
    ensures
        frames_after_all(frames, cs).len() + push_pop_counts(cs).1 == frames.len() + push_pop_counts(cs).0,
    decreases cs.len(),
{
    if cs.len() > 0 {
        let prev = cs.drop_last();
        assert forall|i: int| 0 <= i < prev.len() && #[trigger] prev[i] is Pop implies frames_after_all(
            frames,
            prev.take(i),
        ).len() > 0 by {
            assert(prev.take(i) =~= cs.take(i));
            assert(cs[i] is Pop);
        }
        law_depth_counts_pushes_and_pops(frames, prev);
        if cs.last() is Pop {
            assert(cs.take(cs.len() - 1) =~= prev);
            assert(cs[cs.len() - 1] is Pop);
        }
    }
}

/// One step of an iterating operator under a guard.
pub enum GuardStep<'a> {
    Indexed(&'a DataValue, usize),
    Keyed(&'a DataValue, usize, &'a str),
    Reduce(&'a DataValue, &'a DataValue),
}

/// Runs an iteration under a guard: makes the guard, takes the steps in
/// order and releases it. The stack comes back with the frames it had,
/// whether no step or many were taken.
pub fn run_guarded<'a>(ctx: DataContextStack<'a>, steps: &Vec<GuardStep<'a>>) -> (r: DataContextStack<'a>)
    ensures
        r.frames() == ctx.frames(),
        r.root() == ctx.root(),
{
    let ghost base = ctx.frames();
    let ghost root = ctx.root();
    let mut g = IterGuard::new(ctx);
    let mut i: usize = 0;
    while i < steps.len()
        invariant
            i <= steps@.len(),
            g.wf(),
            g.base() == base,
            g.held().root() == root,
        decreases steps@.len() - i,
    {
        match &steps[i] {
            GuardStep::Indexed(d, k) => g.step_indexed(d, *k),
            GuardStep::Keyed(d, k, key) => g.step_keyed(d, *k, key),
            GuardStep::Reduce(c, a) => g.step_reduce(c, a),
        }
        i = i + 1;
    }
    g.release()
}

} // verus!
