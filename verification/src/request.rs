//! Opcode registry: the closed set of named control operations, each bound
//! to its fixed native opcode value and to the argument shape the native
//! control entry point expects for it.
//!
//! The registry is compile-time data: adding an operation means adding one
//! variant here with its code and shape, and nothing else changes.

use vstd::prelude::*;

verus! {

/// The calling convention a control opcode demands of the single variadic
/// native entry point: no extra argument, one scalar passed in by value, or
/// one writable scalar slot the native layer fills.
#[derive(Clone, Copy, Debug, PartialEq, Eq, Structural)]
pub enum ArgShape {
    Niladic,
    ScalarIn,
    ScalarOut,
}

/// A named control operation of the native encoder. Each variant stands for
/// one (opcode value, argument shape) pair; see [`OpusRequest::code`] and
/// [`OpusRequest::shape`].
#[derive(Clone, Copy, Debug, PartialEq, Eq, Structural)]
pub enum OpusRequest {
    SetApplication,
    GetApplication,
    SetBitrate,
    GetBitrate,
    SetMaxBandwidth,
    GetMaxBandwidth,
    SetVBR,
    GetVBR,
    SetBandwidth,
    GetBandwidth,
    SetComplexity,
    GetComplexity,
    SetInbandFEC,
    GetInbandFEC,
    SetPacketLossPerc,
    GetPacketLossPerc,
    SetDtxRequest,
    GetDtxRequest,
    SetVBRConstraint,
    GetVBRConstraint,
    SetForceChannels,
    GetForceChannels,
    SetSignalRequest,
    GetSignalRequest,
    GetLookahead,
    GetSampleRate,
    GetFinalRange,
    GetPitch,
    SetGain,
    GetGain,
    SetLSBDepth,
    GetLSBDepth,
    GetLastPacketDuration,
    SetExpertFrameDuration,
    GetExpertFrameDuration,
    SetPredictionDisabled,
    GetPredictionDisabled,
}

impl OpusRequest {
    /// The fixed native opcode value bound to each operation.
    pub open spec fn code_spec(&self) -> int {
        match self {
            OpusRequest::SetApplication => 4000,
            OpusRequest::GetApplication => 4001,
            OpusRequest::SetBitrate => 4002,
            OpusRequest::GetBitrate => 4003,
            OpusRequest::SetMaxBandwidth => 4004,
            OpusRequest::GetMaxBandwidth => 4005,
            OpusRequest::SetVBR => 4006,
            OpusRequest::GetVBR => 4007,
            OpusRequest::SetBandwidth => 4008,
            OpusRequest::GetBandwidth => 4009,
            OpusRequest::SetComplexity => 4010,
            OpusRequest::GetComplexity => 4011,
            OpusRequest::SetInbandFEC => 4012,
            OpusRequest::GetInbandFEC => 4013,
            OpusRequest::SetPacketLossPerc => 4014,
            OpusRequest::GetPacketLossPerc => 4015,
            OpusRequest::SetDtxRequest => 4016,
            OpusRequest::GetDtxRequest => 4017,
            OpusRequest::SetVBRConstraint => 4020,
            OpusRequest::GetVBRConstraint => 4021,
            OpusRequest::SetForceChannels => 4022,
            OpusRequest::GetForceChannels => 4023,
            OpusRequest::SetSignalRequest => 4024,
            OpusRequest::GetSignalRequest => 4025,
            OpusRequest::GetLookahead => 4027,
            OpusRequest::GetSampleRate => 4029,
            OpusRequest::GetFinalRange => 4031,
            OpusRequest::GetPitch => 4033,
            OpusRequest::SetGain => 4034,
            OpusRequest::GetGain => 4035,
            OpusRequest::SetLSBDepth => 4036,
            OpusRequest::GetLSBDepth => 4037,
            OpusRequest::GetLastPacketDuration => 4039,
            OpusRequest::SetExpertFrameDuration => 4040,
            OpusRequest::GetExpertFrameDuration => 4041,
            OpusRequest::SetPredictionDisabled => 4042,
            OpusRequest::GetPredictionDisabled => 4043,
        }
    }

    /// The argument shape bound to each operation: setters take one scalar
    /// in, getters hand one scalar out.
    pub open spec fn shape_spec(&self) -> ArgShape {
        match self {
            OpusRequest::SetApplication => ArgShape::ScalarIn,
            OpusRequest::GetApplication => ArgShape::ScalarOut,
            OpusRequest::SetBitrate => ArgShape::ScalarIn,
            OpusRequest::GetBitrate => ArgShape::ScalarOut,
            OpusRequest::SetMaxBandwidth => ArgShape::ScalarIn,
            OpusRequest::GetMaxBandwidth => ArgShape::ScalarOut,
            OpusRequest::SetVBR => ArgShape::ScalarIn,
            OpusRequest::GetVBR => ArgShape::ScalarOut,
            OpusRequest::SetBandwidth => ArgShape::ScalarIn,
            OpusRequest::GetBandwidth => ArgShape::ScalarOut,
            OpusRequest::SetComplexity => ArgShape::ScalarIn,
            OpusRequest::GetComplexity => ArgShape::ScalarOut,
            OpusRequest::SetInbandFEC => ArgShape::ScalarIn,
            OpusRequest::GetInbandFEC => ArgShape::ScalarOut,
            OpusRequest::SetPacketLossPerc => ArgShape::ScalarIn,
            OpusRequest::GetPacketLossPerc => ArgShape::ScalarOut,
            OpusRequest::SetDtxRequest => ArgShape::ScalarIn,
            OpusRequest::GetDtxRequest => ArgShape::ScalarOut,
            OpusRequest::SetVBRConstraint => ArgShape::ScalarIn,
            OpusRequest::GetVBRConstraint => ArgShape::ScalarOut,
            OpusRequest::SetForceChannels => ArgShape::ScalarIn,
            OpusRequest::GetForceChannels => ArgShape::ScalarOut,
            OpusRequest::SetSignalRequest => ArgShape::ScalarIn,
            OpusRequest::GetSignalRequest => ArgShape::ScalarOut,
            OpusRequest::GetLookahead => ArgShape::ScalarOut,
            OpusRequest::GetSampleRate => ArgShape::ScalarOut,
            OpusRequest::GetFinalRange => ArgShape::ScalarOut,
            OpusRequest::GetPitch => ArgShape::ScalarOut,
            OpusRequest::SetGain => ArgShape::ScalarIn,
            OpusRequest::GetGain => ArgShape::ScalarOut,
            OpusRequest::SetLSBDepth => ArgShape::ScalarIn,
            OpusRequest::GetLSBDepth => ArgShape::ScalarOut,
            OpusRequest::GetLastPacketDuration => ArgShape::ScalarOut,
            OpusRequest::SetExpertFrameDuration => ArgShape::ScalarIn,
            OpusRequest::GetExpertFrameDuration => ArgShape::ScalarOut,
            OpusRequest::SetPredictionDisabled => ArgShape::ScalarIn,
            OpusRequest::GetPredictionDisabled => ArgShape::ScalarOut,
        }
    }

    /// The native opcode value to forward to the control entry point.
    pub fn code(&self) -> (r: i32)
        ensures
            r as int == self.code_spec(),
    {
        match self {
            OpusRequest::SetApplication => 4000,
            OpusRequest::GetApplication => 4001,
            OpusRequest::SetBitrate => 4002,
            OpusRequest::GetBitrate => 4003,
            OpusRequest::SetMaxBandwidth => 4004,
            OpusRequest::GetMaxBandwidth => 4005,
            OpusRequest::SetVBR => 4006,
            OpusRequest::GetVBR => 4007,
            OpusRequest::SetBandwidth => 4008,
            OpusRequest::GetBandwidth => 4009,
            OpusRequest::SetComplexity => 4010,
            OpusRequest::GetComplexity => 4011,
            OpusRequest::SetInbandFEC => 4012,
            OpusRequest::GetInbandFEC => 4013,
            OpusRequest::SetPacketLossPerc => 4014,
            OpusRequest::GetPacketLossPerc => 4015,
            OpusRequest::SetDtxRequest => 4016,
            OpusRequest::GetDtxRequest => 4017,
            OpusRequest::SetVBRConstraint => 4020,
            OpusRequest::GetVBRConstraint => 4021,
            OpusRequest::SetForceChannels => 4022,
            OpusRequest::GetForceChannels => 4023,
            OpusRequest::SetSignalRequest => 4024,
            OpusRequest::GetSignalRequest => 4025,
            OpusRequest::GetLookahead => 4027,
            OpusRequest::GetSampleRate => 4029,
            OpusRequest::GetFinalRange => 4031,
            OpusRequest::GetPitch => 4033,
            OpusRequest::SetGain => 4034,
            OpusRequest::GetGain => 4035,
            OpusRequest::SetLSBDepth => 4036,
            OpusRequest::GetLSBDepth => 4037,
            OpusRequest::GetLastPacketDuration => 4039,
            OpusRequest::SetExpertFrameDuration => 4040,
            OpusRequest::GetExpertFrameDuration => 4041,
            OpusRequest::SetPredictionDisabled => 4042,
            OpusRequest::GetPredictionDisabled => 4043,
        }
    }

    /// The argument shape to use when dispatching this operation.
    pub fn shape(&self) -> (r: ArgShape)
        ensures
            r == self.shape_spec(),
    {
        match self {
            OpusRequest::SetApplication
            | OpusRequest::SetBitrate
            | OpusRequest::SetMaxBandwidth
            | OpusRequest::SetVBR
            | OpusRequest::SetBandwidth
            | OpusRequest::SetComplexity
            | OpusRequest::SetInbandFEC
            | OpusRequest::SetPacketLossPerc
            | OpusRequest::SetDtxRequest
            | OpusRequest::SetVBRConstraint
            | OpusRequest::SetForceChannels
            | OpusRequest::SetSignalRequest
            | OpusRequest::SetGain
            | OpusRequest::SetLSBDepth
            | OpusRequest::SetExpertFrameDuration
            | OpusRequest::SetPredictionDisabled => ArgShape::ScalarIn,
            _ => ArgShape::ScalarOut,
        }
    }
}

} // verus!
