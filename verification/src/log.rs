//! Log streams.
//!
//! The import engine writes its log to the streams that are attached to it.
//! A [`LogStream`] keeps track of whether one stream is attached, and says
//! when a call to the engine is due: attaching a stream that is attached, or
//! detaching one that is not, calls for nothing.
//!
//! How much the engine logs is one setting for the whole process. It is not
//! kept here, and it is the same for every stream.

use vstd::prelude::*;

verus! {

/// The call to the engine that a change of a stream asks for.
#[derive(Clone, Copy, Debug, PartialEq, Eq, Structural)]
pub enum LogCall {
    /// Attach the stream.
    Attach,
    /// Detach the stream.
    Detach,
    /// No call.
    Nothing,
}

/// A log stream. `H` is what the engine gave for the stream.
pub struct LogStream<H> {
    raw: H,
    attached: bool,
}

impl<H> LogStream<H> {
    /// What the engine gave for the stream.
    pub closed spec fn spec_raw(&self) -> H {
        self.raw
    }

    /// Whether the stream is attached.
    pub closed spec fn spec_attached(&self) -> bool {
        self.attached
    }

    /// A stream that the engine made, not yet attached.
    pub fn new(raw: H) -> (r: LogStream<H>)
        ensures
            r.spec_raw() == raw,
            !r.spec_attached(),
    {
        LogStream { raw, attached: false }
    }

    /// A stream that the engine was asked to make for a file. The engine
    /// gives a stream without a callback when it could not make one: then
    /// there is no stream.
    pub fn file(raw: H, has_callback: bool) -> (r: Option<LogStream<H>>)
        ensures
            r is Some <==> has_callback,
            r is Some ==> r->0.spec_raw() == raw && !r->0.spec_attached(),
    {
        if has_callback {
            Some(LogStream { raw, attached: false })
        } else {
            None
        }
    }

    /// What the engine gave for the stream.
    pub fn raw(&self) -> (r: &H)
        ensures
            *r == self.spec_raw(),
    {
        &self.raw
    }

    /// Whether the stream is attached.
    pub fn attached(&self) -> (r: bool)
        ensures
            r == self.spec_attached(),
    {
        self.attached
    }

    /// Attaches the stream. The call is `Attach` if the stream was not
    /// attached, `Nothing` if it was.
    pub fn attach(&mut self) -> (call: LogCall)
        ensures
            final(self).spec_attached(),
            final(self).spec_raw() == old(self).spec_raw(),
            call == (if old(self).spec_attached() {
                LogCall::Nothing
            } else {
                LogCall::Attach
            }),
            old(self).spec_attached() ==> *final(self) == *old(self),
    {
        if !self.attached {
            self.attached = true;
            LogCall::Attach
        } else {
            LogCall::Nothing
        }
    }

    /// Detaches the stream. The call is `Detach` if the stream was
    /// attached, `Nothing` if it was not.
    pub fn detach(&mut self) -> (call: LogCall)
        ensures
            !final(self).spec_attached(),
            final(self).spec_raw() == old(self).spec_raw(),
            call == (if old(self).spec_attached() {
                LogCall::Detach
            } else {
                LogCall::Nothing
            }),
            !old(self).spec_attached() ==> *final(self) == *old(self),
    {
        if self.attached {
            self.attached = false;
            LogCall::Detach
        } else {
            LogCall::Nothing
        }
    }
}

/// The value that switches verbose logging on or off in the engine.
pub fn verbose_logging_value(state: bool) -> (r: i32)
    ensures
        r == (if state {
            1i32
        } else {
            0i32
        }),
{
    if state {
        1
    } else {
        0
    }
}

} // verus!
