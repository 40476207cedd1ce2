//! The compact backend: a bounded summary of the context history.
//!
//! The summary keeps the origin (or, for an error converted from a foreign type, the first
//! context frame pushed onto it), one later "last" frame, and a flag recording that frames in
//! between were dropped. The last frame is chosen so that the most recently pushed frame that
//! carries an error code is never lost to a later frame without one.
//!
//! The summary is a tagged union rather than a word with tag bits stolen from aligned
//! pointers: the three states are the same, the layout is an enum of references. This costs
//! the single-word size of the packed form and needs no alignment assumption, and no length
//! limit on type names.

use crate::error_code::ErrorCodeInfo;
use crate::error_impl::last_code_index;
use crate::error_impl::lemma_last_code_index;
use crate::error_impl::code_after;
use crate::error_impl::lemma_code_after_push;
use crate::error_impl::static_frame_data;
use crate::error_impl::DecodedLocation;
use crate::error_impl::ErrorFrame;
use crate::error_impl::ErrorFrameData;
use crate::error_impl::ErrorOrigin;
use crate::error_impl::ErrorSourceStatic;
use crate::error_impl::InternalContextType;
use vstd::prelude::*;

verus! {

/// The state whose first frame is the static origin itself.
pub const TAG_STATIC_ORIGINAL: usize = 0;

/// The state of a converted foreign type with no context pushed yet.
pub const TAG_STATIC_TYPE_ONLY: usize = 1;

/// The state of a converted foreign type whose first pushed frame took the origin's place.
pub const TAG_STATIC_CONTEXT_ONLY: usize = 2;

/// The compact summary of an error's origin and context.
#[derive(Copy, Clone)]
pub enum PackedOriginInfo {
    /// The origin is a static call site, `first`. `last` is the kept later frame, if any
    /// context was pushed; `omitted` records that some pushed frame was dropped.
    Original {
        first: &'static ErrorSourceStatic,
        last: Option<&'static ErrorSourceStatic>,
        omitted: bool,
    },
    /// The origin is a foreign type, by name, and no context has been pushed yet.
    TypeOnly { name: &'static str },
    /// The origin was a foreign type; `first` is the first context frame pushed onto it.
    /// `last` and `omitted` are as for `Original`.
    ContextOnly {
        first: &'static ErrorSourceStatic,
        last: Option<&'static ErrorSourceStatic>,
        omitted: bool,
    },
}

/// The frame kept in the "last" slot when `source` is pushed onto a slot holding `last`:
/// the new frame, unless the kept one carries a code and the new one does not.
pub open spec fn merge_last(
    last: Option<&'static ErrorSourceStatic>,
    source: &'static ErrorSourceStatic,
) -> &'static ErrorSourceStatic {
    match last {
        None => source,
        Some(l) => if l.error_code is None || source.error_code is Some {
            source
        } else {
            l
        },
    }
}

/// The frame the summary keeps out of the later frames `ctx`: the most recent one that
/// carries a code, or else the most recent one.
pub open spec fn kept_last(ctx: Seq<&'static ErrorSourceStatic>) -> Option<
    &'static ErrorSourceStatic,
> {
    if ctx.len() == 0 {
        None
    } else if last_code_index(ctx) >= 0 {
        Some(ctx[last_code_index(ctx)])
    } else {
        Some(ctx.last())
    }
}

/// What the compact summary holds after the frames `pushes` were pushed, in order, onto an
/// error with origin `origin`.
///
/// A static origin (or a type origin that brings its own descriptor) is the first frame, and
/// every push is a later frame. A bare type origin is replaced by the first push, and the
/// pushes after it are the later frames. Of the later frames, one is kept, and the omitted
/// flag is set once there were two or more.
pub open spec fn summarize(origin: ErrorOrigin, pushes: Seq<&'static ErrorSourceStatic>) -> PackedOriginInfo {
    match origin {
        ErrorOrigin::StaticOrigin(s) => PackedOriginInfo::Original {
            first: s,
            last: kept_last(pushes),
            omitted: pushes.len() >= 2,
        },
        ErrorOrigin::TypeOrigin(_, Some(s)) => PackedOriginInfo::Original {
            first: s,
            last: kept_last(pushes),
            omitted: pushes.len() >= 2,
        },
        ErrorOrigin::TypeOrigin(name, None) => if pushes.len() == 0 {
            PackedOriginInfo::TypeOnly { name }
        } else {
            PackedOriginInfo::ContextOnly {
                first: pushes[0],
                last: kept_last(pushes.drop_first()),
                omitted: pushes.len() >= 3,
            }
        },
    }
}

impl PackedOriginInfo {
    /// The summaries that pushes can produce: a set omitted flag comes with a kept last
    /// frame.
    pub open spec fn well_formed(self) -> bool {
        self.omitted_spec() ==> self.last_spec() is Some
    }

    /// The first frame, for the states that have one.
    pub open spec fn first_spec(self) -> Option<&'static ErrorSourceStatic> {
        match self {
            PackedOriginInfo::Original { first, .. } => Some(first),
            PackedOriginInfo::ContextOnly { first, .. } => Some(first),
            PackedOriginInfo::TypeOnly { .. } => None,
        }
    }

    /// The kept later frame, if any.
    pub open spec fn last_spec(self) -> Option<&'static ErrorSourceStatic> {
        match self {
            PackedOriginInfo::Original { last, .. } => last,
            PackedOriginInfo::ContextOnly { last, .. } => last,
            PackedOriginInfo::TypeOnly { .. } => None,
        }
    }

    /// Whether later frames were dropped.
    pub open spec fn omitted_spec(self) -> bool {
        match self {
            PackedOriginInfo::Original { omitted, .. } => omitted,
            PackedOriginInfo::ContextOnly { omitted, .. } => omitted,
            PackedOriginInfo::TypeOnly { .. } => false,
        }
    }

    /// The state discriminant.
    pub open spec fn tag_spec(self) -> usize {
        match self {
            PackedOriginInfo::Original { .. } => TAG_STATIC_ORIGINAL,
            PackedOriginInfo::TypeOnly { .. } => TAG_STATIC_TYPE_ONLY,
            PackedOriginInfo::ContextOnly { .. } => TAG_STATIC_CONTEXT_ONLY,
        }
    }

    /// The current code: the kept later frame's code if it has one, else the first frame's.
    pub open spec fn code_spec(self) -> Option<&'static ErrorCodeInfo> {
        match self.first_spec() {
            None => None,
            Some(first) => match self.last_spec() {
                Some(l) => if l.error_code is Some {
                    l.error_code
                } else {
                    first.error_code
                },
                None => first.error_code,
            },
        }
    }

    /// The summary after `source` is pushed: a bare type origin gives way to `source` as the
    /// first frame; otherwise the last slot merges `source` in, and the omitted flag is set
    /// when the slot already held a frame.
    pub open spec fn merged(self, source: &'static ErrorSourceStatic) -> PackedOriginInfo {
        match self {
            PackedOriginInfo::Original { first, last, omitted } => PackedOriginInfo::Original {
                first,
                last: Some(merge_last(last, source)),
                omitted: omitted || last is Some,
            },
            PackedOriginInfo::ContextOnly { first, last, omitted } => PackedOriginInfo::ContextOnly {
                first,
                last: Some(merge_last(last, source)),
                omitted: omitted || last is Some,
            },
            PackedOriginInfo::TypeOnly { .. } => PackedOriginInfo::ContextOnly {
                first: source,
                last: None,
                omitted: false,
            },
        }
    }

    /// Builds the summary of an error that has no context yet.
    pub fn for_origin(e: ErrorOrigin) -> (r: Self)
        ensures
            r == summarize(e, Seq::empty()),
            r.well_formed(),
    {
        match e {
            ErrorOrigin::StaticOrigin(ptr) => PackedOriginInfo::Original {
                first: ptr,
                last: None,
                omitted: false,
            },
            ErrorOrigin::TypeOrigin(_, Some(ptr)) => PackedOriginInfo::Original {
                first: ptr,
                last: None,
                omitted: false,
            },
            ErrorOrigin::TypeOrigin(name, None) => PackedOriginInfo::TypeOnly { name },
        }
    }

    pub fn tag(&self) -> (r: usize)
        ensures
            r == self.tag_spec(),
    {
        match self {
            PackedOriginInfo::Original { .. } => TAG_STATIC_ORIGINAL,
            PackedOriginInfo::TypeOnly { .. } => TAG_STATIC_TYPE_ONLY,
            PackedOriginInfo::ContextOnly { .. } => TAG_STATIC_CONTEXT_ONLY,
        }
    }

    /// Pushes a context frame onto the summary.
    pub fn with_context(self, source: &'static ErrorSourceStatic) -> (r: Self)
        requires
            self.well_formed(),
        ensures
            r == self.merged(source),
            r.well_formed(),
    {
        match self {
            PackedOriginInfo::Original { first, last, omitted } => PackedOriginInfo::Original {
                first,
                last: Some(Self::merge_into_last(last, source)),
                omitted: omitted || last.is_some(),
            },
            PackedOriginInfo::ContextOnly { first, last, omitted } => PackedOriginInfo::ContextOnly {
                first,
                last: Some(Self::merge_into_last(last, source)),
                omitted: omitted || last.is_some(),
            },
            PackedOriginInfo::TypeOnly { .. } => PackedOriginInfo::ContextOnly {
                first: source,
                last: None,
                omitted: false,
            },
        }
    }

    /// Chooses the frame the last slot keeps when `source` is pushed onto it.
    fn merge_into_last(
        last: Option<&'static ErrorSourceStatic>,
        source: &'static ErrorSourceStatic,
    ) -> (r: &'static ErrorSourceStatic)
        ensures
            r == merge_last(last, source),
    {
        match last {
            None => source,
            Some(original) => {
                if original.error_code.is_none() || source.error_code.is_some() {
                    source
                } else {
                    original
                }
            },
        }
    }

    /// The name of the foreign type, for a bare type origin.
    pub fn ty_name(&self) -> (r: &'static str)
        requires
            self is TypeOnly,
        ensures
            r == self->name,
    {
        match self {
            PackedOriginInfo::TypeOnly { name } => name,
            _ => unreached(),
        }
    }

    /// The first frame, for the states that have one.
    pub fn context_first(&self) -> (r: &'static ErrorSourceStatic)
        requires
            !(self is TypeOnly),
        ensures
            Some(r) == self.first_spec(),
    {
        match self {
            PackedOriginInfo::Original { first, .. } => first,
            PackedOriginInfo::ContextOnly { first, .. } => first,
            PackedOriginInfo::TypeOnly { .. } => unreached(),
        }
    }

    /// The kept later frame, if any.
    pub fn context_second(&self) -> (r: Option<&'static ErrorSourceStatic>)
        ensures
            r == self.last_spec(),
    {
        match self {
            PackedOriginInfo::Original { last, .. } => *last,
            PackedOriginInfo::ContextOnly { last, .. } => *last,
            PackedOriginInfo::TypeOnly { .. } => None,
        }
    }

    /// Whether later frames were dropped.
    pub fn has_omitted_context(self) -> (r: bool)
        ensures
            r == self.omitted_spec(),
    {
        match self {
            PackedOriginInfo::Original { omitted, .. } => omitted,
            PackedOriginInfo::ContextOnly { omitted, .. } => omitted,
            PackedOriginInfo::TypeOnly { .. } => false,
        }
    }

    /// The current code.
    pub fn code(&self) -> (r: Option<&'static ErrorCodeInfo>)
        ensures
            r == self.code_spec(),
    {
        match self {
            PackedOriginInfo::TypeOnly { .. } => None,
            _ => {
                if let Some(context_second) = self.context_second() {
                    if context_second.error_code.is_some() {
                        return context_second.error_code;
                    }
                }
                self.context_first().error_code
            },
        }
    }
}

/// Keeping a frame out of `ctx` and then merging `source` into the slot keeps the same
/// frame as keeping one out of `ctx` followed by `source`.
pub proof fn lemma_kept_last_push(
    ctx: Seq<&'static ErrorSourceStatic>,
    source: &'static ErrorSourceStatic,
)
    ensures
        kept_last(ctx.push(source)) == Some(merge_last(kept_last(ctx), source)),
{
    let ext = ctx.push(source);
    assert(ext.drop_last() =~= ctx);
    lemma_last_code_index(ctx);
    if source.error_code is None {
        assert(last_code_index(ext) == last_code_index(ctx));
        if last_code_index(ctx) >= 0 {
            assert(ext[last_code_index(ctx)] == ctx[last_code_index(ctx)]);
        } else if ctx.len() > 0 {
            assert(ctx[ctx.len() - 1].error_code is None);
        }
    }
}

/// Every summary of a history is well formed.
pub proof fn lemma_summarize_well_formed(
    origin: ErrorOrigin,
    pushes: Seq<&'static ErrorSourceStatic>,
)
    ensures
        summarize(origin, pushes).well_formed(),
{
}

/// Pushing one more frame onto an error moves its summary by one merge step.
pub proof fn lemma_summarize_push(
    origin: ErrorOrigin,
    pushes: Seq<&'static ErrorSourceStatic>,
    source: &'static ErrorSourceStatic,
)
    ensures
        summarize(origin, pushes.push(source)) == summarize(origin, pushes).merged(source),
{
    lemma_kept_last_push(pushes, source);
    match origin {
        ErrorOrigin::TypeOrigin(_, None) => {
            if pushes.len() == 0 {
                assert(pushes.push(source).drop_first() =~= Seq::<&'static ErrorSourceStatic>::empty());
            } else {
                assert(pushes.push(source).drop_first() =~= pushes.drop_first().push(source));
                lemma_kept_last_push(pushes.drop_first(), source);
            }
        },
        _ => {},
    }
}

/// The code of a summary moves as the code of the history does: a pushed code becomes
/// current, a push without one keeps the current code.
pub proof fn lemma_merged_code(info: PackedOriginInfo, source: &'static ErrorSourceStatic)
    ensures
        info.merged(source).code_spec() == if source.error_code is Some {
            source.error_code
        } else {
            info.code_spec()
        },
{
}

/// The code a summary reports is the code of the history it summarizes.
pub proof fn lemma_summary_code(origin: ErrorOrigin, pushes: Seq<&'static ErrorSourceStatic>)
    ensures
        summarize(origin, pushes).code_spec() == code_after(origin, pushes),
    decreases pushes.len(),
{
    if pushes.len() > 0 {
        let prefix = pushes.drop_last();
        let source = pushes.last();
        assert(prefix.push(source) =~= pushes);
        lemma_summary_code(origin, prefix);
        lemma_summarize_push(origin, prefix, source);
        lemma_merged_code(summarize(origin, prefix), source);
        lemma_code_after_push(origin, prefix, source);
    }
}

/// The phases of the compact decoder, in the order they run.
#[derive(Copy, Clone, PartialEq, Eq, Structural)]
pub enum ErrorIterPhase {
    TypeContext,
    LocationMismatchFrame,
    FirstContext,
    LastContext,
    FramesOmitted,
    Ended,
}

impl ErrorIterPhase {
    /// How many phases are left to run.
    pub open spec fn rank(self) -> nat {
        match self {
            ErrorIterPhase::TypeContext => 5,
            ErrorIterPhase::LocationMismatchFrame => 4,
            ErrorIterPhase::FirstContext => 3,
            ErrorIterPhase::LastContext => 2,
            ErrorIterPhase::FramesOmitted => 1,
            ErrorIterPhase::Ended => 0,
        }
    }

    /// The phase that runs after this one.
    pub open spec fn successor(self) -> ErrorIterPhase {
        match self {
            ErrorIterPhase::TypeContext => ErrorIterPhase::LocationMismatchFrame,
            ErrorIterPhase::LocationMismatchFrame => ErrorIterPhase::FirstContext,
            ErrorIterPhase::FirstContext => ErrorIterPhase::LastContext,
            ErrorIterPhase::LastContext => ErrorIterPhase::FramesOmitted,
            ErrorIterPhase::FramesOmitted => ErrorIterPhase::Ended,
            ErrorIterPhase::Ended => ErrorIterPhase::Ended,
        }
    }
}

/// The location a descriptor records for itself.
pub open spec fn own_location(s: &'static ErrorSourceStatic) -> Option<DecodedLocation> {
    match s.location {
        Some(l) => Some(*l),
        None => None,
    }
}

/// The frame that one phase of the compact decoder contributes, if any, for the summary
/// `info` and the retained construction location `loc`.
pub open spec fn phase_frame(
    phase: ErrorIterPhase,
    info: PackedOriginInfo,
    loc: Option<DecodedLocation>,
) -> Option<ErrorFrame> {
    match phase {
        ErrorIterPhase::TypeContext => match info {
            PackedOriginInfo::TypeOnly { name } => Some(
                ErrorFrame { data: ErrorFrameData::TypeFrame(name, None), location: loc },
            ),
            PackedOriginInfo::ContextOnly { .. } => Some(
                ErrorFrame {
                    data: ErrorFrameData::InternalContext(InternalContextType::OriginalTypeLost),
                    location: loc,
                },
            ),
            PackedOriginInfo::Original { .. } => None,
        },
        ErrorIterPhase::LocationMismatchFrame => match info {
            PackedOriginInfo::Original { first, .. } => match (first.location, loc) {
                (Some(a), Some(b)) => if !a.is_same_spec(b) {
                    Some(
                        ErrorFrame {
                            data: ErrorFrameData::InternalContext(
                                InternalContextType::ErrorTypeConstructed,
                            ),
                            location: Some(*a),
                        },
                    )
                } else {
                    None
                },
                _ => None,
            },
            _ => None,
        },
        ErrorIterPhase::FirstContext => match info {
            PackedOriginInfo::Original { first, .. } => Some(
                ErrorFrame { data: static_frame_data(first, None), location: loc },
            ),
            PackedOriginInfo::ContextOnly { first, .. } => Some(
                ErrorFrame { data: static_frame_data(first, None), location: own_location(first) },
            ),
            PackedOriginInfo::TypeOnly { .. } => None,
        },
        ErrorIterPhase::LastContext => match info.last_spec() {
            Some(l) => Some(ErrorFrame { data: static_frame_data(l, None), location: own_location(l) }),
            None => None,
        },
        ErrorIterPhase::FramesOmitted => if info.omitted_spec() {
            Some(
                ErrorFrame {
                    data: ErrorFrameData::InternalContext(InternalContextType::FurtherFramesOmitted),
                    location: None,
                },
            )
        } else {
            None
        },
        ErrorIterPhase::Ended => None,
    }
}

/// The frames that the compact decoder yields from `phase` on: each phase's frame, if it
/// has one, in phase order.
pub open spec fn frames_from(
    phase: ErrorIterPhase,
    info: PackedOriginInfo,
    loc: Option<DecodedLocation>,
) -> Seq<ErrorFrame>
    decreases phase.rank(),
{
    if phase is Ended {
        Seq::empty()
    } else {
        match phase_frame(phase, info, loc) {
            Some(f) => seq![f] + frames_from(phase.successor(), info, loc),
            None => frames_from(phase.successor(), info, loc),
        }
    }
}

/// All frames the compact decoder yields for the summary `info`.
pub open spec fn compact_frames(info: PackedOriginInfo, loc: Option<DecodedLocation>) -> Seq<
    ErrorFrame,
> {
    frames_from(ErrorIterPhase::TypeContext, info, loc)
}

/// A bare type origin has nothing to decode after its type frame.
proof fn lemma_type_only_tail(info: PackedOriginInfo, loc: Option<DecodedLocation>)
    requires
        info is TypeOnly,
    ensures
        frames_from(ErrorIterPhase::LocationMismatchFrame, info, loc) == Seq::<ErrorFrame>::empty(),
{
    assert(frames_from(ErrorIterPhase::Ended, info, loc) == Seq::<ErrorFrame>::empty());
    assert(frames_from(ErrorIterPhase::FramesOmitted, info, loc) == Seq::<ErrorFrame>::empty());
    assert(frames_from(ErrorIterPhase::LastContext, info, loc) == Seq::<ErrorFrame>::empty());
    assert(frames_from(ErrorIterPhase::FirstContext, info, loc) == Seq::<ErrorFrame>::empty());
}

/// A one-shot walk over the frames of a compact error.
pub struct ErrorImplIter {
    phase: ErrorIterPhase,
    origin_info: PackedOriginInfo,
    original_location: Option<DecodedLocation>,
}

impl View for ErrorImplIter {
    type V = Seq<ErrorFrame>;

    /// The frames not yet yielded.
    closed spec fn view(&self) -> Seq<ErrorFrame> {
        frames_from(self.phase, self.origin_info, self.original_location)
    }
}

impl ErrorImplIter {
    /// Yields the next frame, or `None` once all were yielded.
    pub fn next(&mut self) -> (r: Option<ErrorFrame>)
        ensures
            old(self)@.len() == 0 ==> r is None && final(self)@ == old(self)@,
            old(self)@.len() > 0 ==> r == Some(old(self)@[0]) && final(self)@ == old(self)@.drop_first(),
    {
        proof {
            reveal_with_fuel(frames_from, 6);
        }
        let tag = self.origin_info.tag();
        let ghost info = self.origin_info;
        let ghost loc = self.original_location;

        // emits a type context frame if we are a static type node.
        if self.phase == ErrorIterPhase::TypeContext {
            self.phase = ErrorIterPhase::LocationMismatchFrame;
            if tag == TAG_STATIC_TYPE_ONLY {
                // nothing follows the type frame of a bare type origin
                self.phase = ErrorIterPhase::Ended;
                proof {
                    lemma_type_only_tail(info, loc);
                }
                let frame = ErrorFrame {
                    data: ErrorFrameData::TypeFrame(self.origin_info.ty_name(), None),
                    location: self.original_location,
                };
                assert(seq![frame].drop_first() =~= Seq::<ErrorFrame>::empty());
                return Some(frame);
            } else if tag == TAG_STATIC_CONTEXT_ONLY {
                // a former type node that had context appended to it
                let frame = ErrorFrame {
                    data: ErrorFrameData::InternalContext(InternalContextType::OriginalTypeLost),
                    location: self.original_location,
                };
                assert((seq![frame] + self@).drop_first() =~= self@);
                return Some(frame);
            }
        }
        // emits a "location mismatch" frame if the error was constructed far from where its
        // origin descriptor was declared
        if self.phase == ErrorIterPhase::LocationMismatchFrame {
            self.phase = ErrorIterPhase::FirstContext;
            if tag == TAG_STATIC_ORIGINAL {
                let context_first = self.origin_info.context_first();
                if let Some(location_a) = context_first.location {
                    if let Some(location_b) = self.original_location {
                        if !location_a.is_same(location_b) {
                            let frame = ErrorFrame {
                                data: ErrorFrameData::InternalContext(
                                    InternalContextType::ErrorTypeConstructed,
                                ),
                                location: Some(*location_a),
                            };
                            assert((seq![frame] + self@).drop_first() =~= self@);
                            return Some(frame);
                        }
                    }
                }
            }
        }
        // returns the first context frame
        if self.phase == ErrorIterPhase::FirstContext {
            self.phase = ErrorIterPhase::LastContext;
            if tag == TAG_STATIC_ORIGINAL || tag == TAG_STATIC_CONTEXT_ONLY {
                let context_first = self.origin_info.context_first();
                let location = if tag == TAG_STATIC_ORIGINAL {
                    self.original_location
                } else {
                    match context_first.location {
                        Some(l) => Some(*l),
                        None => None,
                    }
                };
                let frame = ErrorFrame {
                    data: ErrorFrameData::decode_static(context_first, None),
                    location,
                };
                assert((seq![frame] + self@).drop_first() =~= self@);
                return Some(frame);
            }
        }
        // returns the last context frame
        if self.phase == ErrorIterPhase::LastContext {
            self.phase = ErrorIterPhase::FramesOmitted;
            if let Some(context_second) = self.origin_info.context_second() {
                let location = match context_second.location {
                    Some(l) => Some(*l),
                    None => None,
                };
                let frame = ErrorFrame {
                    data: ErrorFrameData::decode_static(context_second, None),
                    location,
                };
                assert((seq![frame] + self@).drop_first() =~= self@);
                return Some(frame);
            }
        }
        // returns the frames omitted message, if needed
        if self.phase == ErrorIterPhase::FramesOmitted {
            self.phase = ErrorIterPhase::Ended;
            if self.origin_info.has_omitted_context() {
                let frame = ErrorFrame {
                    data: ErrorFrameData::InternalContext(InternalContextType::FurtherFramesOmitted),
                    location: None,
                };
                assert((seq![frame] + self@).drop_first() =~= self@);
                return Some(frame);
            }
        }
        None
    }
}

/// The compact error representation.
pub struct ErrorImpl {
    origin_info: PackedOriginInfo,
    original_location: Option<DecodedLocation>,
    origin: Ghost<ErrorOrigin>,
    pushes: Ghost<Seq<&'static ErrorSourceStatic>>,
}

impl ErrorImpl {
    /// The stored summary is the summary of the error's history.
    #[verifier::type_invariant]
    spec fn summary_matches(self) -> bool {
        self.origin_info == summarize(self.origin@, self.pushes@)
    }

    /// The origin the error was constructed from.
    pub closed spec fn origin(&self) -> ErrorOrigin {
        self.origin@
    }

    /// The context frames pushed onto the error, oldest first.
    pub closed spec fn pushes(&self) -> Seq<&'static ErrorSourceStatic> {
        self.pushes@
    }

    /// The construction call site, where the representation retains it.
    pub closed spec fn original_location(&self) -> Option<DecodedLocation> {
        self.original_location
    }

    /// What the representation stores of the history.
    pub open spec fn summary(&self) -> PackedOriginInfo {
        summarize(self.origin(), self.pushes())
    }

    /// The frames a decode yields.
    pub open spec fn spec_frames(&self) -> Seq<ErrorFrame> {
        compact_frames(self.summary(), self.original_location())
    }

    /// Creates an error from its origin; `original_location` is the construction call site
    /// when it is to be retained, else `None`.
    pub fn new(source: ErrorOrigin, original_location: Option<DecodedLocation>) -> (r: ErrorImpl)
        ensures
            r.origin() == source,
            r.pushes() == Seq::<&'static ErrorSourceStatic>::empty(),
            r.original_location() == original_location,
    {
        ErrorImpl {
            origin_info: PackedOriginInfo::for_origin(source),
            original_location,
            origin: Ghost(source),
            pushes: Ghost(Seq::empty()),
        }
    }

    /// Pushes a new context frame onto this error.
    pub fn push_context(&mut self, source: &'static ErrorSourceStatic)
        ensures
            final(self).origin() == old(self).origin(),
            final(self).pushes() == old(self).pushes().push(source),
            final(self).original_location() == old(self).original_location(),
    {
        proof {
            use_type_invariant(&*self);
            lemma_summarize_well_formed(self.origin@, self.pushes@);
            lemma_summarize_push(self.origin@, self.pushes@, source);
        }
        let info = self.origin_info.with_context(source);
        *self = ErrorImpl {
            origin_info: info,
            original_location: self.original_location,
            origin: self.origin,
            pushes: Ghost(self.pushes@.push(source)),
        };
    }

    /// Gets the current error code.
    pub fn code(&self) -> (r: Option<&'static ErrorCodeInfo>)
        ensures
            r == code_after(self.origin(), self.pushes()),
    {
        proof {
            use_type_invariant(self);
            lemma_summary_code(self.origin@, self.pushes@);
        }
        self.origin_info.code()
    }

    /// Starts a fresh walk over the frames of this error.
    pub fn iter(&self) -> (r: ErrorImplIter)
        ensures
            r@ == self.spec_frames(),
    {
        proof {
            use_type_invariant(self);
        }
        ErrorImplIter {
            phase: ErrorIterPhase::TypeContext,
            origin_info: self.origin_info,
            original_location: self.original_location,
        }
    }

    /// Decodes all frames of this error.
    pub fn frames(&self) -> (r: Vec<ErrorFrame>)
        ensures
            r@ == self.spec_frames(),
    {
        let mut it = self.iter();
        let mut out: Vec<ErrorFrame> = Vec::new();
        loop
            invariant
                out@ + it@ == self.spec_frames(),
            ensures
                out@ == self.spec_frames(),
            decreases it@.len(),
        {
            match it.next() {
                Some(frame) => {
                    out.push(frame);
                },
                None => {
                    assert(out@ =~= out@ + it@);
                    break;
                },
            }
        }
        out
    }
}

/// How many pushed frames came after the first frame: all of them for a static origin, all
/// but the first for a bare type origin, whose first push takes the origin's place.
pub open spec fn later_frame_count(origin: ErrorOrigin, pushes: Seq<&'static ErrorSourceStatic>) -> int {
    match origin {
        ErrorOrigin::TypeOrigin(_, None) => if pushes.len() == 0 {
            0
        } else {
            pushes.len() - 1
        },
        _ => pushes.len() as int,
    }
}

/// Once an error has a first frame, pushing more frames never changes it, nor the frame the
/// decoder yields for it.
pub proof fn lemma_first_frame_fixed(
    origin: ErrorOrigin,
    pushes: Seq<&'static ErrorSourceStatic>,
    more: Seq<&'static ErrorSourceStatic>,
    loc: Option<DecodedLocation>,
)
    requires
        !(summarize(origin, pushes) is TypeOnly),
    ensures
        summarize(origin, pushes + more).first_spec() == summarize(origin, pushes).first_spec(),
        phase_frame(ErrorIterPhase::FirstContext, summarize(origin, pushes + more), loc)
            == phase_frame(ErrorIterPhase::FirstContext, summarize(origin, pushes), loc),
{
    if pushes.len() > 0 {
        assert((pushes + more)[0] == pushes[0]);
    }
}

/// An error converted from a foreign type, with no context pushed, decodes to exactly one
/// frame: the type frame naming that type.
pub proof fn lemma_type_origin_frames(name: &'static str, loc: Option<DecodedLocation>)
    ensures
        compact_frames(
            summarize(ErrorOrigin::TypeOrigin(name, None), Seq::empty()),
            loc,
        ) == seq![ErrorFrame { data: ErrorFrameData::TypeFrame(name, None), location: loc }],
{
    let info = summarize(ErrorOrigin::TypeOrigin(name, None), Seq::empty());
    lemma_type_only_tail(info, loc);
    let f = ErrorFrame { data: ErrorFrameData::TypeFrame(name, None), location: loc };
    assert(seq![f] + Seq::<ErrorFrame>::empty() =~= seq![f]);
}

/// The omitted marker is set exactly when two or more frames were pushed after the first
/// frame: never after zero or one.
pub proof fn lemma_omission(origin: ErrorOrigin, pushes: Seq<&'static ErrorSourceStatic>)
    ensures
        summarize(origin, pushes).omitted_spec() == (later_frame_count(origin, pushes) >= 2),
{
}

/// When a frame is pushed onto an error that already keeps a last frame `l`, the new last
/// frame is the pushed one if it carries a code or `l` carries none, and `l` otherwise; and
/// the omitted marker is set.
pub proof fn lemma_last_frame_choice(
    origin: ErrorOrigin,
    pushes: Seq<&'static ErrorSourceStatic>,
    source: &'static ErrorSourceStatic,
)
    requires
        summarize(origin, pushes).last_spec() is Some,
    ensures
        ({
            let l = summarize(origin, pushes).last_spec()->0;
            summarize(origin, pushes.push(source)).last_spec() == Some(
                if source.error_code is Some || l.error_code is None {
                    source
                } else {
                    l
                },
            )
        }),
        summarize(origin, pushes.push(source)).omitted_spec(),
        phase_frame(ErrorIterPhase::FramesOmitted, summarize(origin, pushes.push(source)), None)
            is Some,
{
    lemma_summarize_push(origin, pushes, source);
}

} // verus!
