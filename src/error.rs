//! The user-facing error type.

use crate::error_code::ErrorCode;
use crate::error_code::type_id_of;
use crate::error_code::ErrorCodeInfo;
use crate::error_impl::code_after;
use crate::error_impl::full;
use crate::error_impl::unboxed;
use crate::error_impl::DecodedLocation;
use crate::error_impl::ErrorFrame;
use crate::error_impl::ErrorImpl;
use crate::error_impl::ErrorOrigin;
use crate::error_impl::ErrorSourceStatic;
use core::any::TypeId;
use vstd::prelude::*;

verus! {

/// How an error stores its history. One representation is chosen for a program.
#[derive(Copy, Clone, PartialEq, Eq, Structural)]
pub enum Representation {
    /// Every frame is kept on the heap, with its rendered message and call site.
    Full,
    /// A fixed-size summary is kept and no call site is retained.
    Compact,
    /// A fixed-size summary is kept together with the construction call site.
    CompactWithLocation,
}

impl Default for Representation {
    fn default() -> (r: Representation)
        ensures
            r == Representation::Compact,
    {
        Representation::Compact
    }
}

/// The descriptor that supplies the code of a converted foreign error. None is known for
/// an arbitrary value.
pub fn error_code_for_error<T>(value: T) -> (r: Option<&'static ErrorSourceStatic>)
    ensures
        r is None,
{
    None
}

/// An error: an origin, the context pushed onto it since, and its current code.
pub struct Error {
    underlying: ErrorImpl,
}

impl Error {
    /// The backend instance the error lives in.
    pub closed spec fn backend(&self) -> ErrorImpl {
        self.underlying
    }

    pub open spec fn wf(&self) -> bool {
        self.backend().wf()
    }

    /// The origin the error was constructed from.
    pub open spec fn origin(&self) -> ErrorOrigin {
        self.backend().origin()
    }

    /// The context frames pushed onto the error, oldest first.
    pub open spec fn pushes(&self) -> Seq<&'static ErrorSourceStatic> {
        self.backend().pushes()
    }

    /// The current code.
    pub open spec fn current_code(&self) -> Option<&'static ErrorCodeInfo> {
        code_after(self.origin(), self.pushes())
    }

    /// Whether the current code is the code `candidate` describes.
    pub open spec fn has_code(&self, candidate: &ErrorCodeInfo) -> bool {
        match self.current_code() {
            Some(code) => code.same_code_spec(candidate),
            None => false,
        }
    }

    /// The frames a decode yields.
    pub open spec fn spec_frames(&self) -> Seq<ErrorFrame> {
        self.backend().spec_frames()
    }

    /// Creates an error from its origin, in the representation `repr`. `message` is the
    /// origin's rendered message and `location` the call site that constructs the error;
    /// each is kept where the representation keeps it.
    pub fn new(
        repr: Representation,
        origin: ErrorOrigin,
        message: Option<String>,
        location: DecodedLocation,
    ) -> (r: Error)
        ensures
            r.wf(),
            r.origin() == origin,
            r.pushes() == Seq::<&'static ErrorSourceStatic>::empty(),
            repr == Representation::Full ==> r.backend() is Full && r.backend()->Full_0.steps()
                == seq![
                full::ErrorSourceStep {
                    static_info: origin,
                    location: Some(location),
                    formatted_message: message,
                },
            ],
            repr == Representation::Compact ==> r.backend() is Unboxed
                && r.backend()->Unboxed_0.original_location() == None::<DecodedLocation>,
            repr == Representation::CompactWithLocation ==> r.backend() is Unboxed
                && r.backend()->Unboxed_0.original_location() == Some(location),
    {
        let underlying = match repr {
            Representation::Full => ErrorImpl::Full(
                full::ErrorImpl::new(origin, message, Some(location)),
            ),
            Representation::Compact => ErrorImpl::Unboxed(unboxed::ErrorImpl::new(origin, None)),
            Representation::CompactWithLocation => ErrorImpl::Unboxed(
                unboxed::ErrorImpl::new(origin, Some(location)),
            ),
        };
        Error { underlying }
    }

    /// Converts a foreign error value, whose type is named `name`, into an error.
    pub fn from_foreign<T>(
        repr: Representation,
        name: &'static str,
        value: T,
        location: DecodedLocation,
    ) -> (r: Error)
        ensures
            r.wf(),
            r.origin() == ErrorOrigin::TypeOrigin(name, None),
            r.pushes() == Seq::<&'static ErrorSourceStatic>::empty(),
            repr == Representation::Full ==> r.backend() is Full && r.backend()->Full_0.steps()
                == seq![
                full::ErrorSourceStep {
                    static_info: ErrorOrigin::TypeOrigin(name, None),
                    location: Some(location),
                    formatted_message: None,
                },
            ],
            repr == Representation::Compact ==> r.backend() is Unboxed
                && r.backend()->Unboxed_0.original_location() == None::<DecodedLocation>,
            repr == Representation::CompactWithLocation ==> r.backend() is Unboxed
                && r.backend()->Unboxed_0.original_location() == Some(location),
    {
        Error::new(repr, ErrorOrigin::TypeOrigin(name, error_code_for_error(value)), None, location)
    }

    /// Pushes a context frame onto the error, with its rendered message and call site.
    pub fn push_context(
        &mut self,
        source: &'static ErrorSourceStatic,
        message: Option<String>,
        location: DecodedLocation,
    )
        requires
            old(self).wf(),
        ensures
            final(self).wf(),
            final(self).origin() == old(self).origin(),
            final(self).pushes() == old(self).pushes().push(source),
            final(self).current_code() == if source.error_code is Some {
                source.error_code
            } else {
                old(self).current_code()
            },
            old(self).backend() is Full <==> final(self).backend() is Full,
            old(self).backend() is Full ==> final(self).backend()->Full_0.steps() == old(
                self,
            ).backend()->Full_0.steps().push(
                full::ErrorSourceStep {
                    static_info: ErrorOrigin::StaticOrigin(source),
                    location: Some(location),
                    formatted_message: message,
                },
            ),
            old(self).backend() is Unboxed ==> final(self).backend()->Unboxed_0.original_location()
                == old(self).backend()->Unboxed_0.original_location(),
    {
        proof {
            crate::error_impl::lemma_code_after_push(self.origin(), self.pushes(), source);
        }
        self.underlying.push_context(source, message, location);
    }

    /// Gets the current error code.
    pub fn code(&self) -> (r: Option<&'static ErrorCodeInfo>)
        requires
            self.wf(),
        ensures
            r == self.current_code(),
    {
        self.underlying.code()
    }

    /// Returns whether the current code is the code `candidate` describes: the same owning
    /// type and the same value.
    pub fn is_code_info(&self, candidate: &ErrorCodeInfo) -> (r: bool)
        requires
            self.wf(),
        ensures
            r == self.has_code(candidate),
    {
        match self.underlying.code() {
            Some(code) => code.same_code(candidate),
            None => false,
        }
    }

    /// Returns whether this error has a given error code: there is a current code, it
    /// belongs to the type `T`, and `T` reports `value` as that code's value.
    pub fn is_code<T: ErrorCode>(&self, value: T) -> (r: bool)
        requires
            self.wf(),
        ensures
            r ==> self.current_code() is Some,
    {
        self.is_code_with_id(&type_id_of::<T>(), value)
    }

    /// Returns whether this error has the code `value`, of a type whose id is `tid`. Without
    /// a current code, or with one of another type, the answer is false; otherwise the type
    /// decides by its own test of the value.
    pub fn is_code_with_id<T: ErrorCode>(&self, tid: &TypeId, value: T) -> (r: bool)
        requires
            self.wf(),
        ensures
            r ==> (self.current_code() is Some && self.current_code()->0.tid == *tid),
    {
        if let Some(code) = self.underlying.code() {
            code.is_value_with_id(tid, value)
        } else {
            false
        }
    }

    /// Decodes the frames of the error, in order.
    pub fn frames(&self) -> (r: Vec<ErrorFrame>)
        requires
            self.wf(),
        ensures
            r@ == self.spec_frames(),
    {
        self.underlying.frames()
    }
}

/// A code of another type never matches the current code, even when the numeric values
/// coincide.
pub proof fn lemma_cross_type_code_rejected(e: &Error, candidate: &ErrorCodeInfo)
    requires
        e.current_code() is Some ==> e.current_code()->0.tid != candidate.tid,
    ensures
        !e.has_code(candidate),
{
}

} // verus!
