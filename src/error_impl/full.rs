//! The full backend: every step of the history, kept on the heap.

use crate::error_code::ErrorCodeInfo;
use crate::error_impl::code_after;
use crate::error_impl::lemma_code_after_push;
use crate::error_impl::static_frame_data;
use crate::error_impl::DecodedLocation;
use crate::error_impl::ErrorFrame;
use crate::error_impl::ErrorFrameData;
use crate::error_impl::ErrorOrigin;
use crate::error_impl::ErrorSourceStatic;
use crate::error_impl::MessageContainer;
use vstd::prelude::*;

verus! {

/// One step of an error's history: its origin or one pushed context frame.
pub struct ErrorSourceStep {
    /// The origin, for the first step; the pushed descriptor, for the others.
    pub static_info: ErrorOrigin,
    /// The call site that recorded this step, if the caller gave one.
    pub location: Option<DecodedLocation>,
    /// The message rendered at run time for this step, if any.
    pub formatted_message: Option<String>,
}

/// The rendered message of a step as a frame message.
pub open spec fn formatted_container(message: Option<String>) -> Option<MessageContainer> {
    match message {
        Some(m) => Some(MessageContainer::Formatted(m)),
        None => None,
    }
}

/// The frame of one step: the step's rendered message if present, else its descriptor's
/// static message, with the descriptor's code and the step's location. A type origin that
/// brings a descriptor is reported through that descriptor; a bare type origin without a
/// rendered message is reported as the type it was converted from.
pub open spec fn step_frame(step: ErrorSourceStep) -> ErrorFrame {
    ErrorFrame {
        data: match step.static_info {
            ErrorOrigin::StaticOrigin(s) => static_frame_data(
                s,
                formatted_container(step.formatted_message),
            ),
            ErrorOrigin::TypeOrigin(_, Some(s)) => static_frame_data(
                s,
                formatted_container(step.formatted_message),
            ),
            ErrorOrigin::TypeOrigin(name, None) => match step.formatted_message {
                Some(m) => ErrorFrameData::NormalFrame(Some(MessageContainer::Formatted(m)), None),
                None => ErrorFrameData::TypeFrame(name, None),
            },
        },
        location: step.location,
    }
}

/// The frames of a run of steps, one per step, in order.
pub open spec fn step_frames(steps: Seq<ErrorSourceStep>) -> Seq<ErrorFrame> {
    steps.map_values(|step: ErrorSourceStep| step_frame(step))
}

/// The descriptors pushed after the origin step.
pub open spec fn pushed_descriptors(steps: Seq<ErrorSourceStep>) -> Seq<&'static ErrorSourceStatic> {
    Seq::new(
        (steps.len() - 1) as nat,
        |i: int|
            match steps[i + 1].static_info {
                ErrorOrigin::StaticOrigin(s) => s,
                ErrorOrigin::TypeOrigin(_, Some(s)) => s,
                ErrorOrigin::TypeOrigin(_, None) => arbitrary(),
            },
    )
}

/// Builds the frame of one step.
fn decode_step(step: &ErrorSourceStep) -> (r: ErrorFrame)
    ensures
        r == step_frame(*step),
{
    let formatted = match &step.formatted_message {
        Some(m) => Some(MessageContainer::Formatted(m.clone())),
        None => None,
    };
    let data = match step.static_info {
        ErrorOrigin::StaticOrigin(s) => ErrorFrameData::decode_static(s, formatted),
        ErrorOrigin::TypeOrigin(_, Some(s)) => ErrorFrameData::decode_static(s, formatted),
        ErrorOrigin::TypeOrigin(name, None) => match formatted {
            Some(m) => ErrorFrameData::NormalFrame(Some(m), None),
            None => ErrorFrameData::TypeFrame(name, None),
        },
    };
    ErrorFrame { data, location: step.location }
}

struct ErrorImplInner {
    steps: Vec<ErrorSourceStep>,
    current_code: Option<&'static ErrorCodeInfo>,
}

/// The full error representation.
pub struct ErrorImpl {
    inner: Box<ErrorImplInner>,
}

impl ErrorImpl {
    /// The history starts with the origin, every later step is a pushed descriptor, and the
    /// tracked code is the code of that history.
    pub closed spec fn wf(&self) -> bool {
        let steps = self.inner.steps@;
        &&& steps.len() >= 1
        &&& forall|i: int| 1 <= i < steps.len() ==> (#[trigger] steps[i]).static_info is StaticOrigin
        &&& self.inner.current_code == code_after(steps[0].static_info, pushed_descriptors(steps))
    }

    /// The stored steps, oldest first.
    pub closed spec fn steps(&self) -> Seq<ErrorSourceStep> {
        self.inner.steps@
    }

    /// The origin the error was constructed from.
    pub open spec fn origin(&self) -> ErrorOrigin {
        self.steps()[0].static_info
    }

    /// The context frames pushed onto the error, oldest first.
    pub open spec fn pushes(&self) -> Seq<&'static ErrorSourceStatic> {
        pushed_descriptors(self.steps())
    }

    /// The frames a decode yields.
    pub open spec fn spec_frames(&self) -> Seq<ErrorFrame> {
        step_frames(self.steps())
    }

    /// Creates an error from its origin, with the rendered message and call site of its
    /// construction.
    pub fn new(
        source: ErrorOrigin,
        message: Option<String>,
        location: Option<DecodedLocation>,
    ) -> (r: ErrorImpl)
        ensures
            r.wf(),
            r.steps() == seq![
                ErrorSourceStep { static_info: source, location, formatted_message: message },
            ],
            r.origin() == source,
            r.pushes() == Seq::<&'static ErrorSourceStatic>::empty(),
    {
        let current_code = match source {
            ErrorOrigin::StaticOrigin(o) => o.error_code,
            ErrorOrigin::TypeOrigin(_, Some(code)) => code.error_code,
            ErrorOrigin::TypeOrigin(_, None) => None,
        };
        let mut steps: Vec<ErrorSourceStep> = Vec::new();
        steps.push(ErrorSourceStep { static_info: source, location, formatted_message: message });
        proof {
            assert(pushed_descriptors(steps@) =~= Seq::<&'static ErrorSourceStatic>::empty());
        }
        ErrorImpl { inner: Box::new(ErrorImplInner { steps, current_code }) }
    }

    /// Pushes a new context frame, with its rendered message and call site.
    pub fn push_context(
        &mut self,
        source: &'static ErrorSourceStatic,
        message: Option<String>,
        location: Option<DecodedLocation>,
    )
        requires
            old(self).wf(),
        ensures
            final(self).wf(),
            final(self).steps() == old(self).steps().push(
                ErrorSourceStep {
                    static_info: ErrorOrigin::StaticOrigin(source),
                    location,
                    formatted_message: message,
                },
            ),
            final(self).origin() == old(self).origin(),
            final(self).pushes() == old(self).pushes().push(source),
    {
        let step = ErrorSourceStep {
            static_info: ErrorOrigin::StaticOrigin(source),
            location,
            formatted_message: message,
        };
        let ghost old_steps = self.inner.steps@;
        let current_code = if source.error_code.is_some() {
            source.error_code
        } else {
            self.inner.current_code
        };
        self.inner.steps.push(step);
        self.inner.current_code = current_code;
        proof {
            assert(pushed_descriptors(self.inner.steps@) =~= pushed_descriptors(old_steps).push(
                source,
            ));
            lemma_code_after_push(old_steps[0].static_info, pushed_descriptors(old_steps), source);
        }
    }

    /// Gets the current error code.
    pub fn code(&self) -> (r: Option<&'static ErrorCodeInfo>)
        requires
            self.wf(),
        ensures
            r == code_after(self.origin(), self.pushes()),
    {
        self.inner.current_code
    }

    /// Starts a fresh walk over the frames of this error.
    pub fn iter(&self) -> (r: ErrorImplIter<'_>)
        requires
            self.wf(),
        ensures
            r@ == self.spec_frames(),
    {
        assert(self.inner.steps@.subrange(0, self.inner.steps@.len() as int) =~= self.inner.steps@);
        ErrorImplIter { underlying: &self.inner.steps, idx: 0 }
    }

    /// Decodes all frames of this error.
    pub fn frames(&self) -> (r: Vec<ErrorFrame>)
        requires
            self.wf(),
        ensures
            r@ == self.spec_frames(),
    {
        let mut it = self.iter();
        let mut out: Vec<ErrorFrame> = Vec::new();
        loop
            invariant
                out@ + it@ == self.spec_frames(),
            ensures
                out@ == self.spec_frames(),
            decreases it@.len(),
        {
            match it.next() {
                Some(frame) => {
                    out.push(frame);
                },
                None => {
                    assert(out@ =~= out@ + it@);
                    break;
                },
            }
        }
        out
    }
}

/// A one-shot walk over the frames of a full error.
pub struct ErrorImplIter<'a> {
    underlying: &'a Vec<ErrorSourceStep>,
    idx: usize,
}

impl<'a> View for ErrorImplIter<'a> {
    type V = Seq<ErrorFrame>;

    /// The frames not yet yielded.
    closed spec fn view(&self) -> Seq<ErrorFrame> {
        if self.idx < self.underlying@.len() {
            step_frames(self.underlying@.subrange(self.idx as int, self.underlying@.len() as int))
        } else {
            Seq::empty()
        }
    }
}

impl<'a> ErrorImplIter<'a> {
    /// Yields the next frame, or `None` once all were yielded.
    pub fn next(&mut self) -> (r: Option<ErrorFrame>)
        ensures
            old(self)@.len() == 0 ==> r is None && final(self)@ == old(self)@,
            old(self)@.len() > 0 ==> r == Some(old(self)@[0]) && final(self)@ == old(self)@.drop_first(),
    {
        if self.idx < self.underlying.len() {
            let frame = decode_step(&self.underlying[self.idx]);
            proof {
                let all = self.underlying@;
                let rest = all.subrange(self.idx as int, all.len() as int);
                assert(rest.drop_first() =~= all.subrange(self.idx + 1, all.len() as int));
                assert(step_frames(rest).drop_first() =~= step_frames(rest.drop_first()));
            }
            self.idx = self.idx + 1;
            Some(frame)
        } else {
            None
        }
    }
}

/// Decoding a full error after N pushes yields exactly N + 1 frames: the origin's frame,
/// then one frame per pushed descriptor in push order, each built from that push; and no
/// diagnostic marker among them.
pub proof fn lemma_full_completeness(e: &ErrorImpl)
    requires
        e.wf(),
    ensures
        e.spec_frames().len() == e.pushes().len() + 1,
        e.steps().len() == e.pushes().len() + 1,
        e.steps()[0].static_info == e.origin(),
        e.spec_frames()[0] == step_frame(e.steps()[0]),
        forall|i: int|
            0 <= i < e.pushes().len() ==> e.steps()[i + 1].static_info == ErrorOrigin::StaticOrigin(
                #[trigger] e.pushes()[i],
            ) && e.spec_frames()[i + 1] == step_frame(e.steps()[i + 1]) && e.spec_frames()[i
                + 1].data == static_frame_data(
                e.pushes()[i],
                formatted_container(e.steps()[i + 1].formatted_message),
            ),
        forall|i: int|
            0 <= i < e.spec_frames().len() ==> !((#[trigger] e.spec_frames()[i]).data is InternalContext),
{
    let steps = e.steps();
    assert forall|i: int| 0 <= i < e.pushes().len() implies steps[i + 1].static_info
        == ErrorOrigin::StaticOrigin(#[trigger] e.pushes()[i]) by {
        assert(steps[i + 1].static_info is StaticOrigin);
    }
}

/// Pushing a step keeps every frame decoded so far, and appends the frame of the new step.
pub proof fn lemma_full_frames_extend(steps: Seq<ErrorSourceStep>, step: ErrorSourceStep)
    ensures
        step_frames(steps.push(step)) == step_frames(steps).push(step_frame(step)),
{
    assert(step_frames(steps.push(step)) =~= step_frames(steps).push(step_frame(step)));
}

} // verus!
