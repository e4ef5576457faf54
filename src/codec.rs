use crate::error::{protocol_violation, Error};
use vstd::prelude::*;
use vstd::slice::slice_to_vec;

verus! {

/// Bit 31 marks the type code of an event; command codes leave it clear.
pub const EVENT_BIT: u32 = 0x8000_0000;

/// Length of the fixed part of a frame: magic, payload length, type code.
pub const HEADER_LEN: usize = 14;

/// The six bytes `i3-ipc` that open every frame.
pub open spec fn magic() -> Seq<u8> {
    seq![105u8, 51u8, 45u8, 105u8, 112u8, 99u8]
}

pub open spec fn is_event_code(code: u32) -> bool {
    code & EVENT_BIT != 0
}

/// The four bytes of `n` in the byte order of the compilation target.
pub uninterp spec fn native_u32_bytes(n: u32) -> Seq<u8>;

/// Relies on `u32::to_ne_bytes`: four bytes, and no other `u32` has the same ones.
#[verifier::external_body]
fn u32_to_native(n: u32) -> (r: Vec<u8>)
    ensures
        r@ == native_u32_bytes(n),
        r@.len() == 4,
        forall|y: u32| #[trigger] native_u32_bytes(y) == r@ ==> y == n,
{
    n.to_ne_bytes().to_vec()
}

/// Relies on `byteorder::NativeEndian::read_u32`: the inverse of `u32::to_ne_bytes`
/// on four bytes (it panics on fewer).
#[verifier::external_body]
fn u32_from_native(b: &[u8]) -> (r: u32)
    requires
        b@.len() == 4,
    ensures
        native_u32_bytes(r) == b@,
        forall|y: u32| #[trigger] native_u32_bytes(y) == b@ ==> y == r,
{
    <byteorder::NativeEndian as byteorder::ByteOrder>::read_u32(b)
}

/// `h` is a frame header whose length field is `len` and whose type field is `code`.
pub open spec fn header_decodes_to(h: Seq<u8>, len: u32, code: u32) -> bool {
    &&& h.len() == 14
    &&& h.subrange(0, 6) == magic()
    &&& native_u32_bytes(len) == h.subrange(6, 10)
    &&& native_u32_bytes(code) == h.subrange(10, 14)
    &&& forall|x: u32| #[trigger] native_u32_bytes(x) == h.subrange(6, 10) ==> x == len
    &&& forall|x: u32| #[trigger] native_u32_bytes(x) == h.subrange(10, 14) ==> x == code
}

/// `v` is the frame of a request with op-code `code` and payload `payload`.
pub open spec fn is_frame_of(v: Seq<u8>, code: u32, payload: Seq<u8>) -> bool {
    &&& payload.len() <= u32::MAX
    &&& v.len() == 14 + payload.len()
    &&& header_decodes_to(v.subrange(0, 14), payload.len() as u32, code)
    &&& v.subrange(14, v.len() as int) == payload
}

/// What `decode_header` reads from the header of a frame that `encode` wrote is
/// the payload length and the op-code that were written, and the rest of the
/// frame is the payload, byte for byte.
pub proof fn lemma_header_round_trip(
    frame: Seq<u8>,
    code: u32,
    payload: Seq<u8>,
    len2: u32,
    code2: u32,
)
    requires
        is_frame_of(frame, code, payload),
        header_decodes_to(frame.subrange(0, 14), len2, code2),
    ensures
        len2 == payload.len(),
        code2 == code,
        frame.subrange(14, frame.len() as int) == payload,
{
}

/// Builds a frame: magic, payload length and type code in native byte order,
/// then the payload.
pub fn encode_frame(code: u32, payload: Vec<u8>) -> (r: Vec<u8>)
    requires
        payload@.len() <= u32::MAX,
    ensures
        is_frame_of(r@, code, payload@),
{
    let mut out: Vec<u8> = vec![105u8, 51u8, 45u8, 105u8, 112u8, 99u8];
    let mut len_bytes = u32_to_native(payload.len() as u32);
    let mut code_bytes = u32_to_native(code);
    let ghost lb = len_bytes@;
    let ghost cb = code_bytes@;
    let mut body = payload;
    let ghost p = body@;
    out.append(&mut len_bytes);
    out.append(&mut code_bytes);
    out.append(&mut body);
    proof {
        assert(out@ == magic() + lb + cb + p);
        assert(out@.subrange(0, 14).subrange(0, 6) =~= magic());
        assert(out@.subrange(0, 14).subrange(6, 10) =~= lb);
        assert(out@.subrange(0, 14).subrange(10, 14) =~= cb);
        assert(out@.subrange(14, out@.len() as int) =~= p);
    }
    out
}

/// Reads the fixed part of a frame. Fails with `Error::Io` exactly when the
/// magic does not match: the stream is out of step, which is fatal.
pub fn decode_header(h: &[u8]) -> (r: Result<(u32, u32), Error>)
    requires
        h@.len() == HEADER_LEN,
    ensures
        r is Ok <==> h@.subrange(0, 6) == magic(),
        r matches Ok((len, code)) ==> header_decodes_to(h@, len, code),
        r matches Err(e) ==> e is Io,
{
    let m: [u8; 6] = [105u8, 51u8, 45u8, 105u8, 112u8, 99u8];
    let mut i: usize = 0;
    while i < 6
        invariant
            0 <= i <= 6,
            h@.len() == 14,
            m@ == magic(),
            forall|j: int| 0 <= j < i ==> h@[j] == magic()[j],
        decreases 6 - i,
    {
        if h[i] != m[i] {
            proof {
                assert(h@.subrange(0, 6)[i as int] != magic()[i as int]);
            }
            return Err(Error::Io(protocol_violation()));
        }
        i = i + 1;
    }
    proof {
        assert(h@.subrange(0, 6) =~= magic());
    }
    let len = u32_from_native(vstd::slice::slice_subrange(h, 6, 10));
    let code = u32_from_native(vstd::slice::slice_subrange(h, 10, 14));
    Ok((len, code))
}

/// The kinds of event that a subscription can ask for.
#[derive(Debug, Clone, Copy, PartialEq, Eq, Structural)]
pub enum IpcEvent {
    Workspace,
    Mode,
    Window,
    BarconfigUpdate,
    Binding,
    Shutdown,
    Tick,
    BarStatusUpdate,
}

impl IpcEvent {
    pub open spec fn spec_code(self) -> u32 {
        match self {
            IpcEvent::Workspace => 0x8000_0000,
            IpcEvent::Mode => 0x8000_0002,
            IpcEvent::Window => 0x8000_0003,
            IpcEvent::BarconfigUpdate => 0x8000_0004,
            IpcEvent::Binding => 0x8000_0005,
            IpcEvent::Shutdown => 0x8000_0006,
            IpcEvent::Tick => 0x8000_0007,
            IpcEvent::BarStatusUpdate => 0x8000_0014,
        }
    }

    /// The lower snake case name that a subscribe request lists.
    pub open spec fn spec_name(self) -> Seq<char> {
        match self {
            IpcEvent::Workspace => "workspace"@,
            IpcEvent::Mode => "mode"@,
            IpcEvent::Window => "window"@,
            IpcEvent::BarconfigUpdate => "barconfig_update"@,
            IpcEvent::Binding => "binding"@,
            IpcEvent::Shutdown => "shutdown"@,
            IpcEvent::Tick => "tick"@,
            IpcEvent::BarStatusUpdate => "bar_status_update"@,
        }
    }

    /// The type code that frames of this event carry.
    pub fn code(&self) -> (r: u32)
        ensures
            r == self.spec_code(),
    {
        match self {
            IpcEvent::Workspace => 0x8000_0000,
            IpcEvent::Mode => 0x8000_0002,
            IpcEvent::Window => 0x8000_0003,
            IpcEvent::BarconfigUpdate => 0x8000_0004,
            IpcEvent::Binding => 0x8000_0005,
            IpcEvent::Shutdown => 0x8000_0006,
            IpcEvent::Tick => 0x8000_0007,
            IpcEvent::BarStatusUpdate => 0x8000_0014,
        }
    }

    /// The event whose type code is `code`, if there is one.
    pub fn from_code(code: u32) -> (r: Option<IpcEvent>)
        ensures
            r matches Some(e) ==> e.spec_code() == code,
            r is None ==> forall|e: IpcEvent| e.spec_code() != code,
    {
        if code == 0x8000_0000 {
            Some(IpcEvent::Workspace)
        } else if code == 0x8000_0002 {
            Some(IpcEvent::Mode)
        } else if code == 0x8000_0003 {
            Some(IpcEvent::Window)
        } else if code == 0x8000_0004 {
            Some(IpcEvent::BarconfigUpdate)
        } else if code == 0x8000_0005 {
            Some(IpcEvent::Binding)
        } else if code == 0x8000_0006 {
            Some(IpcEvent::Shutdown)
        } else if code == 0x8000_0007 {
            Some(IpcEvent::Tick)
        } else if code == 0x8000_0014 {
            Some(IpcEvent::BarStatusUpdate)
        } else {
            None
        }
    }

    pub fn name(&self) -> (r: &'static str)
        ensures
            r@ == self.spec_name(),
    {
        match self {
            IpcEvent::Workspace => "workspace",
            IpcEvent::Mode => "mode",
            IpcEvent::Window => "window",
            IpcEvent::BarconfigUpdate => "barconfig_update",
            IpcEvent::Binding => "binding",
            IpcEvent::Shutdown => "shutdown",
            IpcEvent::Tick => "tick",
            IpcEvent::BarStatusUpdate => "bar_status_update",
        }
    }
}

/// Whether `code` has the event bit set.
pub fn is_event(code: u32) -> (r: bool)
    ensures
        r == is_event_code(code),
{
    code & EVENT_BIT != 0
}

/// The requests that the client sends.
#[derive(Debug)]
pub enum IpcCommand {
    Run(String),
    GetBarConfig,
    GetBindingModes,
    GetConfig,
    GetMarks,
    GetOutputs,
    GetTree,
    GetVersion,
    GetWorkspaces,
    SendTick(Vec<u8>),
    Subscribe(Vec<IpcEvent>),
}

/// The compact JSON text of an array of strings.
pub uninterp spec fn json_string_array(items: Seq<Seq<char>>) -> Seq<u8>;

/// Relies on `serde_json::to_vec` on a list of strings: on success, the JSON array
/// of those strings.
#[verifier::external_body]
fn json_of_names(names: &Vec<&'static str>) -> (r: Result<Vec<u8>, serde_json::Error>)
    ensures
        r matches Ok(v) ==> v@ == json_string_array(names@.map_values(|s: &'static str| s@)),
{
    serde_json::to_vec(names)
}

pub open spec fn event_names(events: Seq<IpcEvent>) -> Seq<Seq<char>> {
    events.map_values(|e: IpcEvent| e.spec_name())
}

impl IpcCommand {
    /// The op-code of the request, echoed by its reply.
    pub open spec fn spec_code(&self) -> u32 {
        match self {
            IpcCommand::Run(_) => 0,
            IpcCommand::GetWorkspaces => 1,
            IpcCommand::Subscribe(_) => 2,
            IpcCommand::GetOutputs => 3,
            IpcCommand::GetTree => 4,
            IpcCommand::GetMarks => 5,
            IpcCommand::GetBarConfig => 6,
            IpcCommand::GetVersion => 7,
            IpcCommand::GetBindingModes => 8,
            IpcCommand::GetConfig => 9,
            IpcCommand::SendTick(_) => 10,
        }
    }

    /// The payload of the request: the command text in UTF-8, the tick bytes, the
    /// JSON array of event names, or nothing.
    pub open spec fn spec_payload(&self) -> Seq<u8> {
        match self {
            IpcCommand::Run(s) => vstd::utf8::encode_utf8(s@),
            IpcCommand::SendTick(b) => b@,
            IpcCommand::Subscribe(events) => json_string_array(event_names(events@)),
            _ => Seq::empty(),
        }
    }

    pub fn code(&self) -> (r: u32)
        ensures
            r == self.spec_code(),
    {
        match self {
            IpcCommand::Run(_) => 0,
            IpcCommand::GetWorkspaces => 1,
            IpcCommand::Subscribe(_) => 2,
            IpcCommand::GetOutputs => 3,
            IpcCommand::GetTree => 4,
            IpcCommand::GetMarks => 5,
            IpcCommand::GetBarConfig => 6,
            IpcCommand::GetVersion => 7,
            IpcCommand::GetBindingModes => 8,
            IpcCommand::GetConfig => 9,
            IpcCommand::SendTick(_) => 10,
        }
    }

    fn payload(&self) -> (r: Result<Vec<u8>, Error>)
        ensures
            r matches Ok(p) ==> p@ == self.spec_payload(),
            r is Err ==> self is Subscribe && r->Err_0 is Json,
            !(self is Subscribe) ==> r is Ok,
    {
        match self {
            IpcCommand::Run(s) => Ok(slice_to_vec(s.as_str().as_bytes())),
            IpcCommand::SendTick(b) => Ok(b.clone()),
            IpcCommand::Subscribe(events) => {
                let mut names: Vec<&'static str> = Vec::new();
                let mut i: usize = 0;
                while i < events.len()
                    invariant
                        0 <= i <= events@.len(),
                        names@.len() == i,
                        forall|j: int| 0 <= j < i ==> (#[trigger] names@[j])@ == events@[j].spec_name(),
                    decreases events@.len() - i,
                {
                    names.push(events[i].name());
                    i = i + 1;
                }
                proof {
                    assert(names@.map_values(|s: &'static str| s@) =~= event_names(events@));
                }
                match json_of_names(&names) {
                    Ok(v) => Ok(v),
                    Err(e) => Err(Error::Json(e)),
                }
            }
            _ => Ok(Vec::new()),
        }
    }

    /// The wire frame of the request. Fails with `Error::Io` when the payload does
    /// not fit the 32-bit length field, and for `Subscribe` with `Error::Json` when
    /// the event list cannot be written as JSON.
    pub fn encode(&self) -> (r: Result<Vec<u8>, Error>)
        ensures
            r matches Ok(v) ==> is_frame_of(v@, self.spec_code(), self.spec_payload()),
            r matches Err(e) ==> (e is Io && self.spec_payload().len() > u32::MAX) || (
            self is Subscribe && e is Json),
            !(self is Subscribe) && self.spec_payload().len() <= u32::MAX ==> r is Ok,
    {
        let payload = self.payload()?;
        if payload.len() > 0xFFFF_FFFF {
            return Err(Error::Io(protocol_violation()));
        }
        Ok(encode_frame(self.code(), payload))
    }
}

/// Event codes have bit 31 set and op-codes have it clear, which is what lets
/// one stream carry both.
pub proof fn lemma_code_classes()
    ensures
        forall|e: IpcEvent| #[trigger] is_event_code(e.spec_code()),
        forall|c: IpcCommand| !#[trigger] is_event_code(c.spec_code()),
{
    assert forall|x: u32| #[trigger] is_event_code(x) <==> x >= 0x8000_0000u32 by {
        assert((x & 0x8000_0000u32 != 0) <==> x >= 0x8000_0000u32) by (bit_vector);
    }
}

} // verus!
