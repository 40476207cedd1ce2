//! The shared vocabulary of the backends: static descriptors, origins, and decoded frames.

use crate::error_code::ErrorCodeInfo;
use vstd::prelude::*;
use vstd::string::*;

verus! {

/// Returns whether two strings hold the same characters.
///
/// Compares the UTF-8 encodings byte by byte; equal encodings decode to equal text.
pub fn str_equal(a: &str, b: &str) -> (r: bool)
    ensures
        r == (a@ == b@),
{
    let ab = a.as_bytes();
    let bb = b.as_bytes();
    if ab.len() != bb.len() {
        return false;
    }
    let mut i: usize = 0;
    while i < ab.len()
        invariant
            ab@ == a.spec_bytes(),
            bb@ == b.spec_bytes(),
            ab@.len() == bb@.len(),
            0 <= i <= ab@.len(),
            forall|j: int| 0 <= j < i ==> ab@[j] == bb@[j],
        decreases ab@.len() - i,
    {
        if ab[i] != bb[i] {
            return false;
        }
        i = i + 1;
    }
    proof {
        assert(ab@ =~= bb@);
        vstd::utf8::encode_utf8_decode_utf8(a@);
        vstd::utf8::encode_utf8_decode_utf8(b@);
    }
    true
}

/// A call site: the file it lies in, its line and its column.
#[derive(Copy, Clone)]
pub struct DecodedLocation {
    pub module: &'static str,
    pub line: u32,
    pub column: u32,
}

impl DecodedLocation {
    /// Two locations are the same place when file and line agree; columns are ignored.
    pub open spec fn is_same_spec(&self, other: DecodedLocation) -> bool {
        self.module@ == other.module@ && self.line == other.line
    }

    /// Returns whether `other` lies on the same line of the same file.
    pub fn is_same(&self, other: DecodedLocation) -> (r: bool)
        ensures
            r == self.is_same_spec(other),
    {
        str_equal(self.module, other.module) && self.line == other.line
    }
}

/// A static descriptor of one place where an error or a context frame can originate.
pub struct ErrorSourceStatic {
    pub error_code: Option<&'static ErrorCodeInfo>,
    pub message_static: Option<&'static str>,
    pub is_static_message_incomplete: bool,
    pub location: Option<&'static DecodedLocation>,
}

impl ErrorSourceStatic {
    /// Returns `true` if the only information in this object is the error code itself.
    pub fn is_code_only(&self) -> (r: bool)
        ensures
            r == self.location.is_none(),
    {
        self.location.is_none()
    }
}

/// The root cause of an error.
#[derive(Copy, Clone)]
pub enum ErrorOrigin {
    /// A static call site.
    StaticOrigin(&'static ErrorSourceStatic),
    /// The name of a foreign type that was converted into this error, with an optional
    /// descriptor that supplies its code.
    TypeOrigin(&'static str, Option<&'static ErrorSourceStatic>),
}

impl ErrorOrigin {
    /// The code an error has before any context is pushed onto it.
    pub open spec fn code(self) -> Option<&'static ErrorCodeInfo> {
        match self {
            ErrorOrigin::StaticOrigin(s) => s.error_code,
            ErrorOrigin::TypeOrigin(_, Some(s)) => s.error_code,
            ErrorOrigin::TypeOrigin(_, None) => None,
        }
    }
}

/// The index of the most recent frame of `ctx` that carries a code, or -1 if none does.
pub open spec fn last_code_index(ctx: Seq<&'static ErrorSourceStatic>) -> int
    decreases ctx.len(),
{
    if ctx.len() == 0 {
        -1
    } else if ctx.last().error_code is Some {
        ctx.len() - 1
    } else {
        last_code_index(ctx.drop_last())
    }
}

/// `last_code_index` names a frame with a code, and no later frame has one.
pub proof fn lemma_last_code_index(ctx: Seq<&'static ErrorSourceStatic>)
    ensures
        -1 <= last_code_index(ctx) < ctx.len(),
        last_code_index(ctx) >= 0 ==> ctx[last_code_index(ctx)].error_code is Some,
        forall|j: int|
            last_code_index(ctx) < j < ctx.len() ==> (#[trigger] ctx[j]).error_code is None,
    decreases ctx.len(),
{
    if ctx.len() > 0 && ctx.last().error_code is None {
        lemma_last_code_index(ctx.drop_last());
        assert forall|j: int| last_code_index(ctx) < j < ctx.len() implies (
        #[trigger] ctx[j]).error_code is None by {
            if j < ctx.len() - 1 {
                assert(ctx[j] == ctx.drop_last()[j]);
            }
        }
    }
}

/// The code of an error with origin `origin` after the frames `pushes` were pushed onto it:
/// the code of the most recently pushed frame that carries one, else the origin's code.
pub open spec fn code_after(origin: ErrorOrigin, pushes: Seq<&'static ErrorSourceStatic>) -> Option<
    &'static ErrorCodeInfo,
> {
    if last_code_index(pushes) >= 0 {
        pushes[last_code_index(pushes)].error_code
    } else {
        origin.code()
    }
}

/// Pushing a frame with a code makes that code current; pushing one without a code keeps
/// the current code.
pub proof fn lemma_code_after_push(
    origin: ErrorOrigin,
    pushes: Seq<&'static ErrorSourceStatic>,
    source: &'static ErrorSourceStatic,
)
    ensures
        code_after(origin, pushes.push(source)) == if source.error_code is Some {
            source.error_code
        } else {
            code_after(origin, pushes)
        },
{
    let ext = pushes.push(source);
    assert(ext.drop_last() =~= pushes);
    lemma_last_code_index(pushes);
    if source.error_code is None && last_code_index(pushes) >= 0 {
        assert(ext[last_code_index(pushes)] == pushes[last_code_index(pushes)]);
    }
}

/// The current code is the code of the most recently pushed frame that carries one; when no
/// pushed frame carries a code, it is the origin's code.
pub proof fn lemma_code_is_latest_pushed_code(
    origin: ErrorOrigin,
    pushes: Seq<&'static ErrorSourceStatic>,
)
    ensures
        (exists|i: int| 0 <= i < pushes.len() && (#[trigger] pushes[i]).error_code is Some) ==> (
        exists|i: int|
            0 <= i < pushes.len() && (#[trigger] pushes[i]).error_code is Some && code_after(
                origin,
                pushes,
            ) == pushes[i].error_code && forall|j: int|
                i < j < pushes.len() ==> (#[trigger] pushes[j]).error_code is None),
        (forall|i: int| 0 <= i < pushes.len() ==> (#[trigger] pushes[i]).error_code is None)
            ==> code_after(origin, pushes) == origin.code(),
{
    lemma_last_code_index(pushes);
    let k = last_code_index(pushes);
    if k >= 0 {
        assert(pushes[k].error_code is Some);
    } else {
        assert forall|i: int| 0 <= i < pushes.len() implies (
        #[trigger] pushes[i]).error_code is None by {}
    }
}

/// A decoded frame of error information, retrieved from an error.
pub struct ErrorFrame {
    pub data: ErrorFrameData,
    pub location: Option<DecodedLocation>,
}

/// The data represented by an error frame.
pub enum ErrorFrameData {
    /// Used to represent a frame of context that doesn't "really" exist, but should be reported
    /// to the user anyway.
    InternalContext(InternalContextType),
    /// Used to represent a frame where the only information known is the type of a converted
    /// error.
    TypeFrame(&'static str, Option<&'static ErrorCodeInfo>),
    /// A normal frame that contains a message, an error code or both.
    NormalFrame(Option<MessageContainer>, Option<&'static ErrorCodeInfo>),
}

/// The message of a frame.
pub enum MessageContainer {
    /// Used to represent a static message given by the user.
    Static(&'static str),
    /// Used to represent a static message that couldn't be formatted.
    IncompleteStatic(&'static str),
    /// Used to represent a message rendered at run time.
    Formatted(String),
}

/// A diagnostic frame that the decoder adds on its own.
#[derive(Copy, Clone)]
pub enum InternalContextType {
    /// Used to represent when an error type is constructed at a significantly different location
    /// from the location stored in its origin descriptor.
    ///
    /// This often implies that the call site was forwarded through a wrapper function, though
    /// it could also just be a code style that broke the macro call into a different line.
    ErrorTypeConstructed,
    /// Used to represent when the original type the error type was converted from was lost. This
    /// occurs fairly often on the compact representation.
    OriginalTypeLost,
    /// Used to note to the user that additional frames of context may have been omitted from the
    /// trace. This occurs on the compact representation.
    FurtherFramesOmitted,
}

/// The frame data for a static descriptor: the rendered message if one is given, else the
/// descriptor's static message (marked incomplete when it needed data it never received),
/// together with the descriptor's code.
pub open spec fn static_frame_data(
    data: &'static ErrorSourceStatic,
    formatted: Option<MessageContainer>,
) -> ErrorFrameData {
    ErrorFrameData::NormalFrame(
        match formatted {
            Some(m) => Some(m),
            None => match data.message_static {
                Some(msg) => Some(
                    if data.is_static_message_incomplete {
                        MessageContainer::IncompleteStatic(msg)
                    } else {
                        MessageContainer::Static(msg)
                    },
                ),
                None => None,
            },
        },
        data.error_code,
    )
}

impl ErrorFrameData {
    /// Builds the frame data for a static descriptor, preferring a rendered message.
    pub fn decode_static(
        data: &'static ErrorSourceStatic,
        formatted: Option<MessageContainer>,
    ) -> (r: ErrorFrameData)
        ensures
            r == static_frame_data(data, formatted),
    {
        let message = match formatted {
            Some(m) => Some(m),
            None => match data.message_static {
                Some(msg) => {
                    if data.is_static_message_incomplete {
                        Some(MessageContainer::IncompleteStatic(msg))
                    } else {
                        Some(MessageContainer::Static(msg))
                    }
                },
                None => None,
            },
        };
        ErrorFrameData::NormalFrame(message, data.error_code)
    }
}

impl MessageContainer {
    /// The text of the message, without any marker.
    pub open spec fn text(&self) -> Seq<char> {
        match self {
            MessageContainer::Static(v) => v@,
            MessageContainer::IncompleteStatic(v) => v@,
            MessageContainer::Formatted(v) => v@,
        }
    }

    /// The message as it is displayed: incomplete messages carry a marker in front.
    pub open spec fn rendered(&self) -> Seq<char> {
        if self is IncompleteStatic {
            "<unformatted message:>"@ + self.text()
        } else {
            self.text()
        }
    }

    pub fn as_str(&self) -> (r: &str)
        ensures
            r@ == self.text(),
    {
        match self {
            MessageContainer::Static(v) => v,
            MessageContainer::IncompleteStatic(v) => v,
            MessageContainer::Formatted(v) => v.as_str(),
        }
    }

    pub fn is_incomplete(&self) -> (r: bool)
        ensures
            r == (self is IncompleteStatic),
    {
        matches!(self, MessageContainer::IncompleteStatic(_))
    }

    /// Renders the message for display.
    pub fn render(&self) -> (r: String)
        ensures
            r@ == self.rendered(),
    {
        let mut out = String::new();
        if self.is_incomplete() {
            out.append("<unformatted message:>");
        }
        out.append(self.as_str());
        out
    }
}

impl InternalContextType {
    /// The fixed text of each diagnostic frame.
    pub open spec fn message_spec(&self) -> Seq<char> {
        match self {
            InternalContextType::ErrorTypeConstructed => "<ErrorInfo constructed at:>"@,
            InternalContextType::OriginalTypeLost => "<original error type lost>"@,
            InternalContextType::FurtherFramesOmitted => "<some frames have been omitted>"@,
        }
    }

    pub fn message(&self) -> (r: &'static str)
        ensures
            r@ == self.message_spec(),
    {
        match self {
            InternalContextType::ErrorTypeConstructed => "<ErrorInfo constructed at:>",
            InternalContextType::OriginalTypeLost => "<original error type lost>",
            InternalContextType::FurtherFramesOmitted => "<some frames have been omitted>",
        }
    }
}

/// How a code is named after a message: ` (Type::Variant)`.
pub open spec fn code_suffix(info: &ErrorCodeInfo) -> Seq<char> {
    " ("@ + info.enum_name@ + "::"@ + info.variant_name@ + ")"@
}

/// Appends ` (Type::Variant)` for a code.
fn append_code_suffix(out: &mut String, info: &ErrorCodeInfo)
    ensures
        final(out)@ == old(out)@ + code_suffix(info),
{
    out.append(" (");
    out.append(info.enum_name);
    out.append("::");
    out.append(info.variant_name);
    out.append(")");
}

impl ErrorFrame {
    /// The frame as it is displayed.
    pub open spec fn rendered(&self) -> Seq<char> {
        match self.data {
            ErrorFrameData::InternalContext(ctx) => ctx.message_spec(),
            ErrorFrameData::TypeFrame(ty, Some(info)) => match info.message {
                Some(m) => m@ + code_suffix(info),
                None => "<converted from type: "@ + ty@ + ">"@ + code_suffix(info),
            },
            ErrorFrameData::TypeFrame(ty, None) => "<converted from type: "@ + ty@ + ">"@,
            ErrorFrameData::NormalFrame(Some(msg), Some(info)) => msg.rendered() + code_suffix(info),
            ErrorFrameData::NormalFrame(None, Some(info)) => match info.message {
                Some(m) => m@ + code_suffix(info),
                None => "<no message given>"@ + code_suffix(info),
            },
            ErrorFrameData::NormalFrame(Some(msg), None) => msg.rendered(),
            ErrorFrameData::NormalFrame(None, None) => "<no message or code given???>"@,
        }
    }

    /// Renders the frame for display: its message, then the code it carries.
    pub fn render(&self) -> (r: String)
        ensures
            r@ == self.rendered(),
    {
        let mut out = String::new();
        match &self.data {
            ErrorFrameData::InternalContext(ctx) => {
                out.append(ctx.message());
            },
            ErrorFrameData::TypeFrame(ty, info) => match info {
                Some(info) => {
                    match info.message {
                        Some(m) => {
                            out.append(m);
                        },
                        None => {
                            out.append("<converted from type: ");
                            out.append(ty);
                            out.append(">");
                        },
                    }
                    append_code_suffix(&mut out, info);
                },
                None => {
                    out.append("<converted from type: ");
                    out.append(ty);
                    out.append(">");
                },
            },
            ErrorFrameData::NormalFrame(msg, info) => match info {
                Some(info) => {
                    match msg {
                        Some(msg) => {
                            let text = msg.render();
                            out.append(text.as_str());
                        },
                        None => match info.message {
                            Some(m) => {
                                out.append(m);
                            },
                            None => {
                                out.append("<no message given>");
                            },
                        },
                    }
                    append_code_suffix(&mut out, info);
                },
                None => match msg {
                    Some(msg) => {
                        let text = msg.render();
                        out.append(text.as_str());
                    },
                    None => {
                        out.append("<no message or code given???>");
                    },
                },
            },
        }
        out
    }
}

/// The contract every backend meets: construct from an origin, push context frames, report
/// the current code, and decode the frames.
pub trait ErrorImplFunctions: Sized {
    spec fn wf(&self) -> bool;

    /// The origin the error was constructed from.
    spec fn origin(&self) -> ErrorOrigin;

    /// The context frames pushed onto the error, oldest first.
    spec fn pushes(&self) -> Seq<&'static ErrorSourceStatic>;

    /// The frames a decode yields.
    spec fn spec_frames(&self) -> Seq<ErrorFrame>;

    /// Creates a new error; `location` is the construction call site, where the backend is
    /// to keep it.
    fn new(source: ErrorOrigin, message: Option<String>, location: Option<DecodedLocation>) -> (r:
        Self)
        ensures
            r.wf(),
            r.origin() == source,
            r.pushes() == Seq::<&'static ErrorSourceStatic>::empty(),
    ;

    /// Pushes a new context frame onto this error.
    fn push_context(
        &mut self,
        source: &'static ErrorSourceStatic,
        message: Option<String>,
        location: Option<DecodedLocation>,
    )
        requires
            old(self).wf(),
        ensures
            final(self).wf(),
            final(self).origin() == old(self).origin(),
            final(self).pushes() == old(self).pushes().push(source),
    ;

    /// Gets the current error code of this error.
    fn code(&self) -> (r: Option<&'static ErrorCodeInfo>)
        requires
            self.wf(),
        ensures
            r == code_after(self.origin(), self.pushes()),
    ;

    /// Decodes the frames of this error.
    fn frames(&self) -> (r: Vec<ErrorFrame>)
        requires
            self.wf(),
        ensures
            r@ == self.spec_frames(),
    ;
}

impl ErrorImplFunctions for full::ErrorImpl {
    open spec fn wf(&self) -> bool {
        full::ErrorImpl::wf(self)
    }

    open spec fn origin(&self) -> ErrorOrigin {
        full::ErrorImpl::origin(self)
    }

    open spec fn pushes(&self) -> Seq<&'static ErrorSourceStatic> {
        full::ErrorImpl::pushes(self)
    }

    open spec fn spec_frames(&self) -> Seq<ErrorFrame> {
        full::ErrorImpl::spec_frames(self)
    }

    fn new(source: ErrorOrigin, message: Option<String>, location: Option<DecodedLocation>) -> (r:
        Self) {
        full::ErrorImpl::new(source, message, location)
    }

    fn push_context(
        &mut self,
        source: &'static ErrorSourceStatic,
        message: Option<String>,
        location: Option<DecodedLocation>,
    ) {
        full::ErrorImpl::push_context(self, source, message, location)
    }

    fn code(&self) -> (r: Option<&'static ErrorCodeInfo>) {
        full::ErrorImpl::code(self)
    }

    fn frames(&self) -> (r: Vec<ErrorFrame>) {
        full::ErrorImpl::frames(self)
    }
}

/// The compact backend keeps the construction call site exactly when one is given; its
/// summary has no room for rendered messages or for the call sites of pushes.
impl ErrorImplFunctions for unboxed::ErrorImpl {
    open spec fn wf(&self) -> bool {
        true
    }

    open spec fn origin(&self) -> ErrorOrigin {
        unboxed::ErrorImpl::origin(self)
    }

    open spec fn pushes(&self) -> Seq<&'static ErrorSourceStatic> {
        unboxed::ErrorImpl::pushes(self)
    }

    open spec fn spec_frames(&self) -> Seq<ErrorFrame> {
        unboxed::ErrorImpl::spec_frames(self)
    }

    fn new(source: ErrorOrigin, message: Option<String>, location: Option<DecodedLocation>) -> (r:
        Self) {
        unboxed::ErrorImpl::new(source, location)
    }

    fn push_context(
        &mut self,
        source: &'static ErrorSourceStatic,
        message: Option<String>,
        location: Option<DecodedLocation>,
    ) {
        unboxed::ErrorImpl::push_context(self, source)
    }

    fn code(&self) -> (r: Option<&'static ErrorCodeInfo>) {
        unboxed::ErrorImpl::code(self)
    }

    fn frames(&self) -> (r: Vec<ErrorFrame>) {
        unboxed::ErrorImpl::frames(self)
    }
}

/// The backend an error instance lives in.
pub enum ErrorImpl {
    /// Every step of the history is kept.
    Full(full::ErrorImpl),
    /// A bounded summary of the history is kept.
    Unboxed(unboxed::ErrorImpl),
}

impl ErrorImpl {
    pub open spec fn wf(&self) -> bool {
        match self {
            ErrorImpl::Full(f) => f.wf(),
            ErrorImpl::Unboxed(_) => true,
        }
    }

    /// The origin the error was constructed from.
    pub open spec fn origin(&self) -> ErrorOrigin {
        match self {
            ErrorImpl::Full(f) => f.origin(),
            ErrorImpl::Unboxed(u) => u.origin(),
        }
    }

    /// The context frames pushed onto the error, oldest first.
    pub open spec fn pushes(&self) -> Seq<&'static ErrorSourceStatic> {
        match self {
            ErrorImpl::Full(f) => f.pushes(),
            ErrorImpl::Unboxed(u) => u.pushes(),
        }
    }

    /// The frames a decode yields.
    pub open spec fn spec_frames(&self) -> Seq<ErrorFrame> {
        match self {
            ErrorImpl::Full(f) => f.spec_frames(),
            ErrorImpl::Unboxed(u) => u.spec_frames(),
        }
    }

    /// Pushes a new context frame; the full backend also keeps its message and call site.
    pub fn push_context(
        &mut self,
        source: &'static ErrorSourceStatic,
        message: Option<String>,
        location: DecodedLocation,
    )
        requires
            old(self).wf(),
        ensures
            final(self).wf(),
            final(self).origin() == old(self).origin(),
            final(self).pushes() == old(self).pushes().push(source),
            *old(self) is Full <==> *final(self) is Full,
            *old(self) is Full ==> (*final(self))->Full_0.steps() == (*old(self))->Full_0.steps().push(
                full::ErrorSourceStep {
                    static_info: ErrorOrigin::StaticOrigin(source),
                    location: Some(location),
                    formatted_message: message,
                },
            ),
            *old(self) is Unboxed ==> (*final(self))->Unboxed_0.original_location()
                == (*old(self))->Unboxed_0.original_location(),
    {
        match self {
            ErrorImpl::Full(f) => f.push_context(source, message, Some(location)),
            ErrorImpl::Unboxed(u) => u.push_context(source),
        }
    }

    /// Gets the current error code.
    pub fn code(&self) -> (r: Option<&'static ErrorCodeInfo>)
        requires
            self.wf(),
        ensures
            r == code_after(self.origin(), self.pushes()),
    {
        match self {
            ErrorImpl::Full(f) => f.code(),
            ErrorImpl::Unboxed(u) => u.code(),
        }
    }

    /// Decodes all frames of the error.
    pub fn frames(&self) -> (r: Vec<ErrorFrame>)
        requires
            self.wf(),
        ensures
            r@ == self.spec_frames(),
    {
        match self {
            ErrorImpl::Full(f) => f.frames(),
            ErrorImpl::Unboxed(u) => u.frames(),
        }
    }
}

} // verus!

pub mod full;
pub mod unboxed;
