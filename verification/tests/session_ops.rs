use opus_ctl::dispatch::{ControlArgs, ControlCall};
use opus_ctl::error::OpusError;
use opus_ctl::request::OpusRequest;
use opus_ctl::session::{Application, Channels, OpusEncoder, SamplingRate};

/// A stand-in for the native layer: accepts the documented configuration
/// constants at construction, stores a bitrate when the set-bitrate opcode
/// carries a positive value (or one of the two sentinel auto values), and
/// answers the get-bitrate opcode with the stored value.
struct NativeStub {
    bitrate: i32,
}

impl NativeStub {
    fn new() -> NativeStub {
        NativeStub { bitrate: 64000 }
    }

    /// Mimics the native constructor: a non-null handle and success status
    /// for a recognized configuration, a null handle and a bad-argument
    /// status otherwise.
    fn create(&mut self, fs: i32, ch: i32, app: i32) -> (usize, i32) {
        let rate_ok = fs == 8000 || fs == 12000 || fs == 16000 || fs == 24000 || fs == 48000;
        let ch_ok = ch == 1 || ch == 2;
        let app_ok = app == 2048 || app == 2049 || app == 2051;
        if rate_ok && ch_ok && app_ok {
            (1, 0)
        } else {
            (0, -1)
        }
    }

    /// Mimics the native control entry point: returns (status, out-slot).
    fn ctl(&mut self, call: &ControlCall) -> (i32, i32) {
        match (call.request, call.args) {
            (OpusRequest::SetBitrate, ControlArgs::ScalarIn(v)) => {
                if v > 0 || v == -1 || v == -1000 {
                    self.bitrate = v;
                    (0, 0)
                } else {
                    (-1, 0)
                }
            }
            (OpusRequest::GetBitrate, ControlArgs::ScalarOut) => (0, self.bitrate),
            _ => (-5, 0),
        }
    }
}

fn make_encoder(stub: &mut NativeStub) -> Result<OpusEncoder, OpusError> {
    let (fs, ch, app) =
        OpusEncoder::create_request(SamplingRate::_48000, Channels::Two, Application::Audio);
    let (ptr, error) = stub.create(fs, ch, app);
    OpusEncoder::new(ptr, error)
}

fn drive_set_bitrate(
    enc: &mut OpusEncoder,
    stub: &mut NativeStub,
    bitrate: i32,
) -> Result<(), OpusError> {
    let call = enc.set_bitrate_request(bitrate);
    let (status, _) = stub.ctl(&call);
    enc.set_bitrate(status)
}

fn drive_get_bitrate(enc: &mut OpusEncoder, stub: &mut NativeStub) -> Result<i32, OpusError> {
    let call = enc.get_bitrate_request();
    let (status, out) = stub.ctl(&call);
    enc.get_bitrate(status, out)
}

#[test]
fn create_encoder() {
    let mut stub = NativeStub::new();
    let opus_enc = make_encoder(&mut stub);
    if let Err(e) = opus_enc {
        panic!("Test failed with error: {:?}", e);
    }
}

#[test]
fn create_yields_live_session() {
    let mut stub = NativeStub::new();
    let enc = make_encoder(&mut stub).unwrap();
    assert_ne!(enc.handle_value(), 0);
}

#[test]
fn create_rejects_failure() {
    assert_eq!(
        OpusEncoder::new(1, -7).err().unwrap(),
        OpusError::MemoryAllocationFailed
    );
    assert_eq!(OpusEncoder::new(1, -1).err().unwrap(), OpusError::InvalidArgument);
    assert_eq!(OpusEncoder::new(0, 3).err().unwrap(), OpusError::UnknownError);
    // A null handle under a success status is contradictory native behavior
    // and never yields a session.
    assert_eq!(OpusEncoder::new(0, 0).err().unwrap(), OpusError::UnknownError);
}

#[test]
fn encoder_set_bitrate() {
    let mut stub = NativeStub::new();
    let mut opus_enc = make_encoder(&mut stub).unwrap();
    assert!(drive_set_bitrate(&mut opus_enc, &mut stub, 500).is_ok());
    assert!(drive_set_bitrate(&mut opus_enc, &mut stub, 0).is_err());
    assert_eq!(
        drive_set_bitrate(&mut opus_enc, &mut stub, 0).err().unwrap(),
        OpusError::InvalidArgument
    );
}

#[test]
fn encoder_get_bitrate() {
    let mut stub = NativeStub::new();
    let mut opus_enc = make_encoder(&mut stub).unwrap();
    let _ = drive_set_bitrate(&mut opus_enc, &mut stub, 4000);
    assert_eq!(drive_get_bitrate(&mut opus_enc, &mut stub).unwrap(), 4000);
}

#[test]
fn rejected_bitrate_leaves_value() {
    let mut stub = NativeStub::new();
    let mut enc = make_encoder(&mut stub).unwrap();
    assert!(drive_set_bitrate(&mut enc, &mut stub, 4000).is_ok());
    assert!(drive_set_bitrate(&mut enc, &mut stub, 0).is_err());
    assert_eq!(drive_get_bitrate(&mut enc, &mut stub).unwrap(), 4000);
}

#[test]
fn get_bitrate_idempotent() {
    let mut stub = NativeStub::new();
    let mut enc = make_encoder(&mut stub).unwrap();
    assert!(drive_set_bitrate(&mut enc, &mut stub, 4000).is_ok());
    let first = drive_get_bitrate(&mut enc, &mut stub).unwrap();
    let second = drive_get_bitrate(&mut enc, &mut stub).unwrap();
    let third = drive_get_bitrate(&mut enc, &mut stub).unwrap();
    assert_eq!(first, second);
    assert_eq!(second, third);
    assert_eq!(first, 4000);
}

#[test]
fn dispatcher_reports_classified_kind() {
    let expected = [
        (-1, OpusError::InvalidArgument),
        (-2, OpusError::BufferTooSmall),
        (-3, OpusError::InternalError),
        (-4, OpusError::CorruptedStream),
        (-5, OpusError::RequestNotImplemented),
        (-6, OpusError::InvalidState),
        (-7, OpusError::MemoryAllocationFailed),
        (1, OpusError::UnknownError),
        (-8, OpusError::UnknownError),
    ];
    for (code, kind) in expected {
        let mut stub = NativeStub::new();
        let mut enc = make_encoder(&mut stub).unwrap();
        // The native layer stubbed to return `code`: the session reports
        // exactly its classified kind, for both completion shapes.
        assert_eq!(enc.set_bitrate(code).err().unwrap(), kind);
        assert_eq!(enc.get_bitrate(code, 123).err().unwrap(), kind);
        assert_eq!(kind, OpusError::new(code));
    }
    // A success status is never reported as an error, and the scalar-out
    // completion surfaces exactly the value the native layer wrote.
    let mut stub = NativeStub::new();
    let mut enc = make_encoder(&mut stub).unwrap();
    assert_eq!(enc.set_bitrate(0), Ok(()));
    assert_eq!(enc.get_bitrate(0, 123).unwrap(), 123);
}
