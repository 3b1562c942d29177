//! The call-frame protocol.
//!
//! Every firmware service is invoked through one generic entry point that
//! receives a frame: a header naming the service and declaring how many
//! positional input and output fields follow, then those fields.  Field
//! order, width and count are an external ABI contract fixed per service;
//! the constructors here are the only way frames are built, and each one
//! guarantees the exact documented shape.
//!
//! Handles and addresses travel as tagged words; a buffer a frame points at
//! is carried as its byte contents.  The entry function writes a frame's
//! result fields in place, so a frame stays where it is for the duration of
//! a call and [`inputs_preserved`] spells out, per service, which fields the
//! firmware may write.

use vstd::prelude::*;

use crate::handles::IHandle;
use crate::handles::PHandle;

verus! {

/// The dispatch-level sentinel: an entry function returns it when the named
/// service is unknown or failed at the call level.
pub const OF_SIZE_ERR: usize = usize::MAX;

/// Name of the `exit` service, null-terminated.
pub open spec fn service_exit() -> Seq<u8> {
    seq!['e' as u8, 'x' as u8, 'i' as u8, 't' as u8, 0u8]
}

/// Name of the `write` service, null-terminated.
pub open spec fn service_write() -> Seq<u8> {
    seq!['w' as u8, 'r' as u8, 'i' as u8, 't' as u8, 'e' as u8, 0u8]
}

/// Name of the `finddevice` service, null-terminated.
pub open spec fn service_finddevice() -> Seq<u8> {
    seq!['f' as u8, 'i' as u8, 'n' as u8, 'd' as u8, 'd' as u8, 'e' as u8, 'v' as u8, 'i' as u8, 'c' as u8, 'e' as u8, 0u8]
}

/// Name of the `getprop` service, null-terminated.
pub open spec fn service_getprop() -> Seq<u8> {
    seq!['g' as u8, 'e' as u8, 't' as u8, 'p' as u8, 'r' as u8, 'o' as u8, 'p' as u8, 0u8]
}

/// Name of the `claim` service, null-terminated.
pub open spec fn service_claim() -> Seq<u8> {
    seq!['c' as u8, 'l' as u8, 'a' as u8, 'i' as u8, 'm' as u8, 0u8]
}

/// Name of the `release` service, null-terminated.
pub open spec fn service_release() -> Seq<u8> {
    seq!['r' as u8, 'e' as u8, 'l' as u8, 'e' as u8, 'a' as u8, 's' as u8, 'e' as u8, 0u8]
}

/// Name of the `open` service, null-terminated.
pub open spec fn service_open() -> Seq<u8> {
    seq!['o' as u8, 'p' as u8, 'e' as u8, 'n' as u8, 0u8]
}

/// Name of the `read` service, null-terminated.
pub open spec fn service_read() -> Seq<u8> {
    seq!['r' as u8, 'e' as u8, 'a' as u8, 'd' as u8, 0u8]
}

/// Name of the `close` service, null-terminated.
pub open spec fn service_close() -> Seq<u8> {
    seq!['c' as u8, 'l' as u8, 'o' as u8, 's' as u8, 'e' as u8, 0u8]
}

/// Name of the `seek` service, null-terminated.
pub open spec fn service_seek() -> Seq<u8> {
    seq!['s' as u8, 'e' as u8, 'e' as u8, 'k' as u8, 0u8]
}

/// Name of the `call-method` service, null-terminated.
pub open spec fn service_call_method() -> Seq<u8> {
    seq!['c' as u8, 'a' as u8, 'l' as u8, 'l' as u8, '-' as u8, 'm' as u8, 'e' as u8, 't' as u8, 'h' as u8, 'o' as u8, 'd' as u8, 0u8]
}

/// Name of the `block-size` device method, null-terminated.
pub open spec fn method_block_size() -> Seq<u8> {
    seq!['b' as u8, 'l' as u8, 'o' as u8, 'c' as u8, 'k' as u8, '-' as u8, 's' as u8, 'i' as u8, 'z' as u8, 'e' as u8, 0u8]
}

/// Name of the `read-blocks` device method, null-terminated.
pub open spec fn method_read_blocks() -> Seq<u8> {
    seq!['r' as u8, 'e' as u8, 'a' as u8, 'd' as u8, '-' as u8, 'b' as u8, 'l' as u8, 'o' as u8, 'c' as u8, 'k' as u8, 's' as u8, 0u8]
}

/// Header for service arguments: the null-terminated service name and the
/// declared count of input and output fields that follow it.
pub struct Args {
    /// Null-terminated service name the entry point dispatches on.
    pub service: Vec<u8>,
    /// Declared number of positional input fields.
    pub nargs: usize,
    /// Declared number of positional output fields.
    pub nret: usize,
}

impl Args {
    /// Whether two headers are identical.
    pub open spec fn same_header(self, other: Args) -> bool {
        &&& other.service@ == self.service@
        &&& other.nargs == self.nargs
        &&& other.nret == self.nret
    }

    /// Builds the header of an `exit` call.  The service takes no output
    /// field and at most one input field.
    pub fn exit_header(nargs: usize) -> (r: Args)
        requires
            nargs <= 1,
        ensures
            r.service@ == service_exit(),
            r.nargs == nargs,
            r.nret == 0,
    {
        let service: Vec<u8> = vec!['e' as u8, 'x' as u8, 'i' as u8, 't' as u8, 0u8];
        proof {
            assert(service@ =~= service_exit());
        }
        Args { service, nargs, nret: 0 }
    }
}

/// Frame of the `write` service: 3 inputs (console handle, buffer, length),
/// 1 output (count written, or the sentinel).
pub struct WriteArgs {
    /// Service header: `write`, 3 inputs, 1 output.
    pub args: Args,
    /// Console instance handle to write through.
    pub stdout: IHandle,
    /// The bytes the buffer argument points at.
    pub msg: Vec<u8>,
    /// Declared length of the buffer.
    pub len: usize,
    /// Output: count of bytes written, or the sentinel.
    pub ret: usize,
}

impl WriteArgs {
    /// The documented shape of a `write` frame.
    pub open spec fn wf(self) -> bool {
        &&& self.args.service@ == service_write()
        &&& self.args.nargs == 3
        &&& self.args.nret == 1
        &&& self.len == self.msg@.len()
    }

    /// Builds a `write` frame for a message, with the output field cleared.
    pub fn new(stdout: IHandle, msg: Vec<u8>) -> (r: WriteArgs)
        ensures
            r.wf(),
            r.stdout == stdout,
            r.msg@ == msg@,
            r.ret == 0,
    {
        let service: Vec<u8> = vec!['w' as u8, 'r' as u8, 'i' as u8, 't' as u8, 'e' as u8, 0u8];
        proof {
            assert(service@ =~= service_write());
        }
        let len = msg.len();
        WriteArgs { args: Args { service, nargs: 3, nret: 1 }, stdout, msg, len, ret: 0 }
    }
}

/// Frame of the `finddevice` service: 1 input (device path), 1 output
/// (package handle).
pub struct FindDeviceArgs {
    /// Service header: `finddevice`, 1 input, 1 output.
    pub args: Args,
    /// The null-terminated device path the path argument points at.
    pub device: Vec<u8>,
    /// Output: handle of the named device-tree node.
    pub phandle: PHandle,
}

impl FindDeviceArgs {
    /// The documented shape of a `finddevice` frame.
    pub open spec fn wf(self) -> bool {
        &&& self.args.service@ == service_finddevice()
        &&& self.args.nargs == 1
        &&& self.args.nret == 1
    }

    /// Builds a `finddevice` frame for a path, with a null output handle.
    pub fn new(device: Vec<u8>) -> (r: FindDeviceArgs)
        ensures
            r.wf(),
            r.device@ == device@,
            r.phandle.addr == 0,
    {
        let service: Vec<u8> = vec![
            'f' as u8, 'i' as u8, 'n' as u8, 'd' as u8, 'd' as u8, 'e' as u8, 'v' as u8, 'i' as u8, 'c' as u8, 'e' as u8, 0u8,
        ];
        proof {
            assert(service@ =~= service_finddevice());
        }
        FindDeviceArgs { args: Args { service, nargs: 1, nret: 1 }, device, phandle: PHandle { addr: 0 } }
    }
}

/// Frame of the `getprop` service: 4 inputs (node handle, property name,
/// buffer, buffer length), 1 output (property size, or the sentinel).
pub struct PropArgs {
    /// Service header: `getprop`, 4 inputs, 1 output.
    pub args: Args,
    /// Handle of the device-tree node to read from.
    pub phandle: PHandle,
    /// The null-terminated property name the name argument points at.
    pub prop: Vec<u8>,
    /// The buffer the firmware writes the value into; its length never
    /// changes, only its contents.
    pub buf: Vec<u8>,
    /// Declared length of the buffer.
    pub buflen: usize,
    /// Output: the property's size in bytes, or the sentinel.
    pub size: usize,
}

impl PropArgs {
    /// The documented shape of a `getprop` frame.
    pub open spec fn wf(self) -> bool {
        &&& self.args.service@ == service_getprop()
        &&& self.args.nargs == 4
        &&& self.args.nret == 1
        &&& self.buflen == self.buf@.len()
    }

    /// Builds a `getprop` frame around a caller-supplied buffer, with the
    /// output field cleared.
    pub fn new(phandle: PHandle, prop: Vec<u8>, buf: Vec<u8>) -> (r: PropArgs)
        ensures
            r.wf(),
            r.phandle == phandle,
            r.prop@ == prop@,
            r.buf@ == buf@,
            r.size == 0,
    {
        let service: Vec<u8> = vec!['g' as u8, 'e' as u8, 't' as u8, 'p' as u8, 'r' as u8, 'o' as u8, 'p' as u8, 0u8];
        proof {
            assert(service@ =~= service_getprop());
        }
        let buflen = buf.len();
        PropArgs { args: Args { service, nargs: 4, nret: 1 }, phandle, prop, buf, buflen, size: 0 }
    }
}

/// Frame of the `claim` service: 3 inputs (address hint, size, alignment),
/// 1 output (address of the claimed region).
pub struct ClaimArgs {
    /// Service header: `claim`, 3 inputs, 1 output.
    pub args: Args,
    /// Requested address, or 0 to let the firmware choose.
    pub virt: u64,
    /// Size in bytes of the region to claim.
    pub size: usize,
    /// Alignment boundary in bytes; must not be 0.
    pub align: usize,
    /// Output: address of the claimed region.
    pub ret: u64,
}

impl ClaimArgs {
    /// The documented shape of a `claim` frame.
    pub open spec fn wf(self) -> bool {
        &&& self.args.service@ == service_claim()
        &&& self.args.nargs == 3
        &&& self.args.nret == 1
    }

    /// Builds a `claim` frame with no address hint and the output cleared.
    pub fn new(size: usize, align: usize) -> (r: ClaimArgs)
        ensures
            r.wf(),
            r.virt == 0,
            r.size == size,
            r.align == align,
            r.ret == 0,
    {
        let service: Vec<u8> = vec!['c' as u8, 'l' as u8, 'a' as u8, 'i' as u8, 'm' as u8, 0u8];
        proof {
            assert(service@ =~= service_claim());
        }
        ClaimArgs { args: Args { service, nargs: 3, nret: 1 }, virt: 0, size, align, ret: 0 }
    }
}

/// Frame of the `release` service: 2 inputs (address, size), no outputs.
pub struct ReleaseArgs {
    /// Service header: `release`, 2 inputs, 0 outputs.
    pub args: Args,
    /// Address of the region to return, as `claim` handed it out.
    pub virt: u64,
    /// Size in bytes of the region.
    pub size: usize,
}

impl ReleaseArgs {
    /// The documented shape of a `release` frame.
    pub open spec fn wf(self) -> bool {
        &&& self.args.service@ == service_release()
        &&& self.args.nargs == 2
        &&& self.args.nret == 0
    }

    /// Builds a `release` frame for a claimed region.
    pub fn new(virt: u64, size: usize) -> (r: ReleaseArgs)
        ensures
            r.wf(),
            r.virt == virt,
            r.size == size,
    {
        let service: Vec<u8> = vec!['r' as u8, 'e' as u8, 'l' as u8, 'e' as u8, 'a' as u8, 's' as u8, 'e' as u8, 0u8];
        proof {
            assert(service@ =~= service_release());
        }
        ReleaseArgs { args: Args { service, nargs: 2, nret: 0 }, virt, size }
    }
}

/// Frame of the `open` service: 1 input (device specifier), 1 output
/// (instance handle, null on failure).
pub struct OpenArgs {
    /// Service header: `open`, 1 input, 1 output.
    pub args: Args,
    /// The null-terminated device specifier the argument points at.
    pub dev: Vec<u8>,
    /// Output: instance handle of the opened device, or null.
    pub handle: IHandle,
}

impl OpenArgs {
    /// The documented shape of an `open` frame.
    pub open spec fn wf(self) -> bool {
        &&& self.args.service@ == service_open()
        &&& self.args.nargs == 1
        &&& self.args.nret == 1
    }

    /// Builds an `open` frame for a device specifier, with a null output
    /// handle.
    pub fn new(dev: Vec<u8>) -> (r: OpenArgs)
        ensures
            r.wf(),
            r.dev@ == dev@,
            r.handle.addr == 0,
    {
        let service: Vec<u8> = vec!['o' as u8, 'p' as u8, 'e' as u8, 'n' as u8, 0u8];
        proof {
            assert(service@ =~= service_open());
        }
        OpenArgs { args: Args { service, nargs: 1, nret: 1 }, dev, handle: IHandle { addr: 0 } }
    }
}

/// Frame of the `read` service: 3 inputs (instance handle, buffer, size),
/// 1 output (count read, or the sentinel).
pub struct ReadArgs {
    /// Service header: `read`, 3 inputs, 1 output.
    pub args: Args,
    /// Instance handle to read from.
    pub handle: IHandle,
    /// The buffer the firmware reads into; its length never changes, only
    /// its contents.
    pub buffer: Vec<u8>,
    /// Declared length of the buffer.
    pub size: usize,
    /// Output: count of bytes read, or the sentinel.
    pub actual_size: usize,
}

impl ReadArgs {
    /// The documented shape of a `read` frame.
    pub open spec fn wf(self) -> bool {
        &&& self.args.service@ == service_read()
        &&& self.args.nargs == 3
        &&& self.args.nret == 1
        &&& self.size == self.buffer@.len()
    }

    /// Builds a `read` frame around a caller-supplied buffer, with the
    /// output field cleared.
    pub fn new(handle: IHandle, buffer: Vec<u8>) -> (r: ReadArgs)
        ensures
            r.wf(),
            r.handle == handle,
            r.buffer@ == buffer@,
            r.actual_size == 0,
    {
        let service: Vec<u8> = vec!['r' as u8, 'e' as u8, 'a' as u8, 'd' as u8, 0u8];
        proof {
            assert(service@ =~= service_read());
        }
        let size = buffer.len();
        ReadArgs { args: Args { service, nargs: 3, nret: 1 }, handle, buffer, size, actual_size: 0 }
    }
}

/// Frame of the `close` service: 1 input (instance handle), no outputs.
pub struct CloseArgs {
    /// Service header: `close`, 1 input, 0 outputs.
    pub args: Args,
    /// Instance handle to close.
    pub handle: IHandle,
}

impl CloseArgs {
    /// The documented shape of a `close` frame.
    pub open spec fn wf(self) -> bool {
        &&& self.args.service@ == service_close()
        &&& self.args.nargs == 1
        &&& self.args.nret == 0
    }

    /// Builds a `close` frame for an instance handle.
    pub fn new(handle: IHandle) -> (r: CloseArgs)
        ensures
            r.wf(),
            r.handle == handle,
    {
        let service: Vec<u8> = vec!['c' as u8, 'l' as u8, 'o' as u8, 's' as u8, 'e' as u8, 0u8];
        proof {
            assert(service@ =~= service_close());
        }
        CloseArgs { args: Args { service, nargs: 1, nret: 0 }, handle }
    }
}

/// Frame of the `seek` service: 3 inputs (instance handle, position split
/// into a high and a low word), 1 output (status; -1 means the device does
/// not seek).
pub struct SeekArgs {
    /// Service header: `seek`, 3 inputs, 1 output.
    pub args: Args,
    /// Instance handle to position.
    pub handle: IHandle,
    /// High word of the position.
    pub pos_hi: isize,
    /// Low word of the position.
    pub pos_low: isize,
    /// Output: the device's status word; -1 means seek is unsupported.
    pub status: isize,
}

impl SeekArgs {
    /// The documented shape of a `seek` frame.
    pub open spec fn wf(self) -> bool {
        &&& self.args.service@ == service_seek()
        &&& self.args.nargs == 3
        &&& self.args.nret == 1
    }

    /// Builds a `seek` frame with the whole position in the low word, as
    /// the target firmware's native word width takes it.
    pub fn new(handle: IHandle, pos: isize) -> (r: SeekArgs)
        ensures
            r.wf(),
            r.handle == handle,
            r.pos_hi == 0,
            r.pos_low == pos,
            r.status == 0,
    {
        let service: Vec<u8> = vec!['s' as u8, 'e' as u8, 'e' as u8, 'k' as u8, 0u8];
        proof {
            assert(service@ =~= service_seek());
        }
        SeekArgs { args: Args { service, nargs: 3, nret: 1 }, handle, pos_hi: 0, pos_low: pos, status: 0 }
    }
}

/// Common prefix of every `call-method` frame: the method name and the
/// instance handle come first, then the method's own fields.
pub struct CallMethodArgs {
    /// Service header: `call-method`, 2 plus the method's inputs, 1 plus
    /// the method's outputs.
    pub args: Args,
    /// The null-terminated method name the argument points at.
    pub method: Vec<u8>,
    /// Instance handle the method is called on.
    pub handle: IHandle,
}

impl CallMethodArgs {
    /// Whether the call-method prefix of two frames carries the same inputs.
    pub open spec fn same_inputs(self, other: CallMethodArgs) -> bool {
        &&& self.args.same_header(other.args)
        &&& other.method@ == self.method@
        &&& other.handle == self.handle
    }
}

/// Frame of the `block-size` device method: no extra inputs, 2 outputs
/// (result code, block size).
pub struct BlockSizeArgs {
    /// Call-method prefix: `block-size`, 2 inputs, 2 outputs in all.
    pub args: CallMethodArgs,
    /// Output: the method's result code; 0 means success.
    pub result: isize,
    /// Output: the device's block size in bytes.
    pub block_size: isize,
}

impl BlockSizeArgs {
    /// The documented shape of a `block-size` frame.
    pub open spec fn wf(self) -> bool {
        &&& self.args.args.service@ == service_call_method()
        &&& self.args.args.nargs == 2
        &&& self.args.args.nret == 2
        &&& self.args.method@ == method_block_size()
    }

    /// Builds a `block-size` frame for a device, with the outputs cleared.
    pub fn new(handle: IHandle) -> (r: BlockSizeArgs)
        ensures
            r.wf(),
            r.args.handle == handle,
            r.result == 0,
            r.block_size == 0,
    {
        let service: Vec<u8> = vec![
            'c' as u8, 'a' as u8, 'l' as u8, 'l' as u8, '-' as u8, 'm' as u8, 'e' as u8, 't' as u8, 'h' as u8, 'o' as u8, 'd' as u8, 0u8,
        ];
        let method: Vec<u8> = vec![
            'b' as u8, 'l' as u8, 'o' as u8, 'c' as u8, 'k' as u8, '-' as u8, 's' as u8, 'i' as u8, 'z' as u8, 'e' as u8, 0u8,
        ];
        proof {
            assert(service@ =~= service_call_method());
            assert(method@ =~= method_block_size());
        }
        BlockSizeArgs {
            args: CallMethodArgs { args: Args { service, nargs: 2, nret: 2 }, method, handle },
            result: 0,
            block_size: 0,
        }
    }
}

/// Frame of the `read-blocks` device method: 3 extra inputs (buffer, first
/// block index, block count), 2 outputs (result code, blocks read).
pub struct ReadBlocks {
    /// Call-method prefix: `read-blocks`, 5 inputs, 2 outputs in all.
    pub args: CallMethodArgs,
    /// The buffer the firmware reads blocks into; its length never changes,
    /// only its contents.
    pub buf: Vec<u8>,
    /// Index of the first block to read.
    pub block_index: usize,
    /// Count of blocks to read.
    pub nblocks: usize,
    /// Output: the method's result code; 0 means success.
    pub result: usize,
    /// Output: count of blocks read.
    pub blocks_read: usize,
}

impl ReadBlocks {
    /// The documented shape of a `read-blocks` frame.
    pub open spec fn wf(self) -> bool {
        &&& self.args.args.service@ == service_call_method()
        &&& self.args.args.nargs == 5
        &&& self.args.args.nret == 2
        &&& self.args.method@ == method_read_blocks()
    }

    /// Builds a `read-blocks` frame around a caller-supplied buffer, with
    /// the outputs cleared.
    pub fn new(handle: IHandle, buf: Vec<u8>, block_index: usize, nblocks: usize) -> (r: ReadBlocks)
        ensures
            r.wf(),
            r.args.handle == handle,
            r.buf@ == buf@,
            r.block_index == block_index,
            r.nblocks == nblocks,
            r.result == 0,
            r.blocks_read == 0,
    {
        let service: Vec<u8> = vec![
            'c' as u8, 'a' as u8, 'l' as u8, 'l' as u8, '-' as u8, 'm' as u8, 'e' as u8, 't' as u8, 'h' as u8, 'o' as u8, 'd' as u8, 0u8,
        ];
        let method: Vec<u8> = vec![
            'r' as u8, 'e' as u8, 'a' as u8, 'd' as u8, '-' as u8, 'b' as u8, 'l' as u8, 'o' as u8, 'c' as u8, 'k' as u8, 's' as u8, 0u8,
        ];
        proof {
            assert(service@ =~= service_call_method());
            assert(method@ =~= method_read_blocks());
        }
        ReadBlocks {
            args: CallMethodArgs { args: Args { service, nargs: 5, nret: 2 }, method, handle },
            buf,
            block_index,
            nblocks,
            result: 0,
            blocks_read: 0,
        }
    }
}

/// A generic call frame, as the entry point receives it: one variant per
/// frame shape, each carrying its own header.
pub enum Frame {
    /// A bare header with no fields, as `exit` uses it.
    Base(Args),
    /// A `write` frame.
    Write(WriteArgs),
    /// A `finddevice` frame.
    FindDevice(FindDeviceArgs),
    /// A `getprop` frame.
    Prop(PropArgs),
    /// A `claim` frame.
    Claim(ClaimArgs),
    /// A `release` frame.
    Release(ReleaseArgs),
    /// An `open` frame.
    Open(OpenArgs),
    /// A `read` frame.
    Read(ReadArgs),
    /// A `close` frame.
    Close(CloseArgs),
    /// A `seek` frame.
    Seek(SeekArgs),
    /// A `block-size` frame.
    BlockSize(BlockSizeArgs),
    /// A `read-blocks` frame.
    ReadBlocks(ReadBlocks),
}

/// The in-place discipline of the entry function: it dispatches on the
/// header and writes only the frame's output fields.  The header, every
/// input field, and the length of every buffer stay as the client built
/// them; only output fields and buffer contents may change.
pub open spec fn inputs_preserved(pre: Frame, post: Frame) -> bool {
    match (pre, post) {
        (Frame::Base(a), Frame::Base(b)) => a.same_header(b),
        (Frame::Write(a), Frame::Write(b)) => {
            &&& a.args.same_header(b.args)
            &&& b.stdout == a.stdout
            &&& b.msg@ == a.msg@
            &&& b.len == a.len
        },
        (Frame::FindDevice(a), Frame::FindDevice(b)) => {
            &&& a.args.same_header(b.args)
            &&& b.device@ == a.device@
        },
        (Frame::Prop(a), Frame::Prop(b)) => {
            &&& a.args.same_header(b.args)
            &&& b.phandle == a.phandle
            &&& b.prop@ == a.prop@
            &&& b.buf@.len() == a.buf@.len()
            &&& b.buflen == a.buflen
        },
        (Frame::Claim(a), Frame::Claim(b)) => {
            &&& a.args.same_header(b.args)
            &&& b.virt == a.virt
            &&& b.size == a.size
            &&& b.align == a.align
        },
        (Frame::Release(a), Frame::Release(b)) => {
            &&& a.args.same_header(b.args)
            &&& b.virt == a.virt
            &&& b.size == a.size
        },
        (Frame::Open(a), Frame::Open(b)) => {
            &&& a.args.same_header(b.args)
            &&& b.dev@ == a.dev@
        },
        (Frame::Read(a), Frame::Read(b)) => {
            &&& a.args.same_header(b.args)
            &&& b.handle == a.handle
            &&& b.buffer@.len() == a.buffer@.len()
            &&& b.size == a.size
        },
        (Frame::Close(a), Frame::Close(b)) => {
            &&& a.args.same_header(b.args)
            &&& b.handle == a.handle
        },
        (Frame::Seek(a), Frame::Seek(b)) => {
            &&& a.args.same_header(b.args)
            &&& b.handle == a.handle
            &&& b.pos_hi == a.pos_hi
            &&& b.pos_low == a.pos_low
        },
        (Frame::BlockSize(a), Frame::BlockSize(b)) => a.args.same_inputs(b.args),
        (Frame::ReadBlocks(a), Frame::ReadBlocks(b)) => {
            &&& a.args.same_inputs(b.args)
            &&& b.buf@.len() == a.buf@.len()
            &&& b.block_index == a.block_index
            &&& b.nblocks == a.nblocks
        },
        _ => false,
    }
}

} // verus!
