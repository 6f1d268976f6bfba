use vstd::prelude::*;

verus! {

/// Fixed capacity of a shell data frame's payload buffer, imposed by the wire
/// format: a frame never carries more than this many payload bytes.
pub const PAYLOAD_CAPACITY: usize = 70;

/// Device-class tag addressing the remote shell endpoint.
pub const DEVICE_SHELL: u8 = 10;

/// Flag bit: the sender asks the receiver to send a response frame.
pub const FLAG_RESPOND: u8 = 2;
/// Flag bit: the sender asks for exclusive access to the serial port.
pub const FLAG_EXCLUSIVE: u8 = 4;
/// Flag bit: the receiver may answer with multiple frames until drained.
pub const FLAG_MULTI: u8 = 16;

/// A shell data frame: one protocol message carrying bytes to or from the
/// remote shell. The payload buffer may hold more bytes than are meaningful;
/// only the first `count` of them are.
pub struct ShellDataFrame {
    /// Target baud rate; unused for shell traffic and always zero here.
    pub baudrate: u32,
    /// Reply timeout in milliseconds; unused here and always zero.
    pub timeout: u16,
    /// Device-class tag of the virtual endpoint the frame addresses.
    pub device: u8,
    /// Bitmask of request flags.
    pub flags: u8,
    /// The payload buffer.
    pub data: Vec<u8>,
    /// How many leading bytes of `data` are meaningful.
    pub count: u8,
}

impl ShellDataFrame {
    /// A well-formed frame never claims more meaningful bytes than its buffer
    /// holds, and its buffer never exceeds the wire format's fixed capacity.
    pub open spec fn wf(self) -> bool {
        &&& self.count as int <= self.data@.len()
        &&& self.data@.len() <= PAYLOAD_CAPACITY as int
    }

    /// The meaningful part of the payload: the first `count` bytes.
    pub open spec fn visible(self) -> Seq<u8> {
        self.data@.take(self.count as int)
    }
}

/// The `count` field of a well-formed frame never exceeds the payload
/// buffer's fixed capacity.
pub proof fn lemma_count_within_capacity(f: ShellDataFrame)
    requires
        f.wf(),
    ensures
        f.count as int <= PAYLOAD_CAPACITY as int,
{
}

/// Builds an outbound shell request around the given payload, truncating it
/// at the buffer's fixed capacity so that `count` can never overflow it.
pub fn make_shell_frame(payload: &Vec<u8>) -> (r: ShellDataFrame)
    ensures
        r.wf(),
        payload@.len() <= PAYLOAD_CAPACITY as int ==> r.count as int == payload@.len(),
        payload@.len() > PAYLOAD_CAPACITY as int ==> r.count as int == PAYLOAD_CAPACITY as int,
        r.data@ == payload@.take(r.count as int),
        r.visible() == payload@.take(r.count as int),
        r.baudrate == 0u32,
        r.timeout == 0u16,
        r.device == DEVICE_SHELL,
        r.flags == (FLAG_RESPOND | FLAG_EXCLUSIVE | FLAG_MULTI),
{
    let n: usize = if payload.len() <= PAYLOAD_CAPACITY {
        payload.len()
    } else {
        PAYLOAD_CAPACITY
    };
    let mut data: Vec<u8> = Vec::new();
    let mut i: usize = 0;
    while i < n
        invariant
            i <= n,
            n <= payload@.len(),
            n <= PAYLOAD_CAPACITY,
            data@ == payload@.take(i as int),
        decreases n - i,
    {
        data.push(payload[i]);
        proof {
            assert(payload@.take(i as int + 1)
                =~= payload@.take(i as int).push(payload@[i as int]));
        }
        i = i + 1;
    }
    let frame = ShellDataFrame {
        baudrate: 0,
        timeout: 0,
        device: DEVICE_SHELL,
        flags: FLAG_RESPOND | FLAG_EXCLUSIVE | FLAG_MULTI,
        data,
        count: n as u8,
    };
    proof {
        assert(frame.data@ =~= payload@.take(frame.count as int));
    }
    frame
}

/// The bytes of the fixed diagnostic command line, `ver all` and a newline.
pub open spec fn diagnostic_command() -> Seq<u8> {
    seq![118u8, 101u8, 114u8, 32u8, 97u8, 108u8, 108u8, 10u8]
}

/// Builds the frame sent for one line of console input. The line itself is
/// intentionally not transmitted: a fixed diagnostic command is sent in its
/// place, a known quirk of this tool that is kept deliberately.
pub fn build_msg(line: String) -> (r: ShellDataFrame)
    ensures
        r.wf(),
        r.visible() == diagnostic_command(),
        r.data@ == diagnostic_command(),
        r.count == 8u8,
        r.baudrate == 0u32,
        r.timeout == 0u16,
        r.device == DEVICE_SHELL,
        r.flags == (FLAG_RESPOND | FLAG_EXCLUSIVE | FLAG_MULTI),
{
    let cmd: Vec<u8> = vec![118u8, 101u8, 114u8, 32u8, 97u8, 108u8, 108u8, 10u8];
    proof {
        assert(cmd@ =~= diagnostic_command());
    }
    let frame = make_shell_frame(&cmd);
    proof {
        assert(frame.data@ =~= diagnostic_command());
        assert(frame.visible() =~= diagnostic_command());
    }
    frame
}

/// Copies out the meaningful part of a frame's payload: exactly the first
/// `count` bytes, never the trailing buffer bytes beyond `count`.
pub fn visible_payload(f: &ShellDataFrame) -> (r: Vec<u8>)
    requires
        f.wf(),
    ensures
        r@ == f.visible(),
        r@.len() == f.count as int,
{
    let n: usize = f.count as usize;
    let mut out: Vec<u8> = Vec::new();
    let mut i: usize = 0;
    while i < n
        invariant
            i <= n,
            n == f.count as int,
            n <= f.data@.len(),
            out@ == f.data@.take(i as int),
        decreases n - i,
    {
        out.push(f.data[i]);
        proof {
            assert(f.data@.take(i as int + 1)
                =~= f.data@.take(i as int).push(f.data@[i as int]));
        }
        i = i + 1;
    }
    proof {
        assert(out@ =~= f.visible());
    }
    out
}

} // verus!
