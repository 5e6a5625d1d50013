//! Session: ownership of one opaque native encoder handle, and the typed
//! convenience operations built on the control dispatcher.
//!
//! A session is *Live* from successful construction until it is dropped;
//! construction failure never yields a session, so every value of
//! [`OpusEncoder`] that exists holds a valid handle. Rust ownership, not a
//! runtime flag, rules out use after destruction. The handle is not
//! thread-safe: at most one owner may drive it at a time, which exclusive
//! ownership of the session enforces.

use vstd::prelude::*;

use crate::dispatch::{
    complete_scalar_out, complete_unit, prepare_scalar_in, prepare_scalar_out, scalar_outcome,
    unit_outcome, ControlArgs, ControlCall,
};
use crate::error::{classify, OpusError};
use crate::request::OpusRequest;

verus! {

/// The sampling rates the native constructor accepts, each bound to the
/// native integer constant passed for it.
#[derive(Clone, Copy, Debug, PartialEq, Eq, Structural)]
pub enum SamplingRate {
    _8000,
    _12000,
    _16000,
    _48000,
}

/// The channel counts the native constructor accepts.
#[derive(Clone, Copy, Debug, PartialEq, Eq, Structural)]
pub enum Channels {
    One,
    Two,
}

/// The application profiles the native constructor accepts, each bound to
/// the native integer constant passed for it.
#[derive(Clone, Copy, Debug, PartialEq, Eq, Structural)]
pub enum Application {
    VoIP,
    Audio,
    LowDelay,
}

impl SamplingRate {
    /// The native integer constant bound to each rate.
    pub open spec fn native_spec(&self) -> int {
        match self {
            SamplingRate::_8000 => 8000,
            SamplingRate::_12000 => 12000,
            SamplingRate::_16000 => 16000,
            SamplingRate::_48000 => 48000,
        }
    }

    /// The native integer constant to pass at construction.
    pub fn native_value(&self) -> (r: i32)
        ensures
            r as int == self.native_spec(),
    {
        match self {
            SamplingRate::_8000 => 8000,
            SamplingRate::_12000 => 12000,
            SamplingRate::_16000 => 16000,
            SamplingRate::_48000 => 48000,
        }
    }
}

impl Channels {
    /// The native integer constant bound to each channel count.
    pub open spec fn native_spec(&self) -> int {
        match self {
            Channels::One => 1,
            Channels::Two => 2,
        }
    }

    /// The native integer constant to pass at construction.
    pub fn native_value(&self) -> (r: i32)
        ensures
            r as int == self.native_spec(),
    {
        match self {
            Channels::One => 1,
            Channels::Two => 2,
        }
    }
}

impl Application {
    /// The native integer constant bound to each application profile.
    pub open spec fn native_spec(&self) -> int {
        match self {
            Application::VoIP => 2048,
            Application::Audio => 2049,
            Application::LowDelay => 2051,
        }
    }

    /// The native integer constant to pass at construction.
    pub fn native_value(&self) -> (r: i32)
        ensures
            r as int == self.native_spec(),
    {
        match self {
            Application::VoIP => 2048,
            Application::Audio => 2049,
            Application::LowDelay => 2051,
        }
    }
}

/// An owned, live encoder session: exactly one opaque native handle plus the
/// status code observed when it was constructed. The handle is never
/// interpreted here, only carried to the native control entry point.
#[derive(Debug)]
pub struct OpusEncoder {
    ptr: usize,
    error: i32,
}

impl OpusEncoder {
    /// Every session that exists is live: its handle is non-null and the
    /// status observed at construction was the success code.
    #[verifier::type_invariant]
    pub closed spec fn wf(&self) -> bool {
        self.ptr != 0 && self.error == 0
    }

    /// The opaque native handle the session owns.
    pub closed spec fn handle(&self) -> int {
        self.ptr as int
    }

    /// The three native integer constants to forward to the native
    /// construction entry point for this configuration.
    pub fn create_request(
        sampling_rate: SamplingRate,
        channels: Channels,
        application: Application,
    ) -> (r: (i32, i32, i32))
        ensures
            r.0 as int == sampling_rate.native_spec(),
            r.1 as int == channels.native_spec(),
            r.2 as int == application.native_spec(),
    {
        (sampling_rate.native_value(), channels.native_value(), application.native_value())
    }

    /// Decides construction from what the native constructor handed back: the
    /// handle it returned and the status code it wrote. A session comes back
    /// exactly when the status classifies as success and the handle is
    /// non-null; a failed status yields its classified kind, and a null
    /// handle under a success status (contradictory native behavior) yields
    /// `UnknownError`. No partially constructed session is ever observable.
    pub fn new(ptr: usize, error: i32) -> (r: Result<OpusEncoder, OpusError>)
        ensures
            classify(error as int) != OpusError::Success ==> r == Err::<OpusEncoder, OpusError>(
                classify(error as int),
            ),
            classify(error as int) == OpusError::Success && ptr == 0 ==> r == Err::<
                OpusEncoder,
                OpusError,
            >(OpusError::UnknownError),
            classify(error as int) == OpusError::Success && ptr != 0 ==> (r matches Ok(s)
                && s.handle() == ptr as int),
    {
        let status = OpusError::new(error);
        match status {
            OpusError::Success => {
                if ptr == 0 {
                    Err(OpusError::UnknownError)
                } else {
                    Ok(OpusEncoder { ptr, error })
                }
            },
            _ => Err(status),
        }
    }

    /// The raw handle value, for the unverified shell to forward to the
    /// native entry points. Never null for a live session.
    pub fn handle_value(&self) -> (r: usize)
        ensures
            r as int == self.handle(),
            r != 0,
    {
        proof {
            use_type_invariant(&*self);
        }
        self.ptr
    }

    /// The control call that asks the native layer to store `bitrate`:
    /// the set-bitrate opcode with the value as its one scalar-in argument.
    /// Validation of the value is the native layer's judgment, not repeated
    /// here, so validity never diverges between the two sides.
    pub fn set_bitrate_request(&self, bitrate: i32) -> (c: ControlCall)
        ensures
            c == (ControlCall {
                request: OpusRequest::SetBitrate,
                args: ControlArgs::ScalarIn(bitrate),
            }),
            c.wf(),
    {
        prepare_scalar_in(OpusRequest::SetBitrate, bitrate)
    }

    /// Completes a set-bitrate call from the status the native layer
    /// returned: success exactly when the status classifies as success,
    /// otherwise the classified kind (an invalid value surfaces as
    /// `InvalidArgument`, which is how the native layer reports it). The
    /// session itself is unchanged.
    pub fn set_bitrate(&mut self, status: i32) -> (r: Result<(), OpusError>)
        ensures
            r == unit_outcome(status as int),
            *final(self) == *old(self),
    {
        complete_unit(status)
    }

    /// The control call that asks the native layer for the current bitrate:
    /// the get-bitrate opcode with one scalar-out slot.
    pub fn get_bitrate_request(&self) -> (c: ControlCall)
        ensures
            c == (ControlCall { request: OpusRequest::GetBitrate, args: ControlArgs::ScalarOut }),
            c.wf(),
    {
        prepare_scalar_out(OpusRequest::GetBitrate)
    }

    /// Completes a get-bitrate call from the status the native layer
    /// returned and the value it wrote into the output slot: on success
    /// exactly that value, otherwise the classified kind and no partial
    /// result. The session itself is unchanged, so the request a later query
    /// sends is identical to this one.
    pub fn get_bitrate(&mut self, status: i32, out: i32) -> (r: Result<i32, OpusError>)
        ensures
            r == scalar_outcome(status as int, out),
            *final(self) == *old(self),
    {
        complete_scalar_out(status, out)
    }
}

} // verus!
