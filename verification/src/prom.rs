//! The firmware environment and its operations.
//!
//! [`PROM`] holds the entry point into the firmware together with the two
//! handles the bootstrap looks up: the `/chosen` device-tree node and the
//! console it names.  Every operation builds one frame from the
//! [`crate::services`] module, hands it to the entry point once, and reads
//! the outcome from the dispatch word and the frame's output fields.  The
//! reading is done by the `*_outcome` functions, whose contracts pin, for
//! every possible firmware answer, exactly which error or success value the
//! operation returns.

use vstd::pervasive::unreached;
use vstd::prelude::*;
use vstd::slice::slice_to_vec;

use crate::handles::IHandle;
use crate::handles::PHandle;
use crate::services::Args;
use crate::services::BlockSizeArgs;
use crate::services::ClaimArgs;
use crate::services::CloseArgs;
use crate::services::FindDeviceArgs;
use crate::services::Frame;
use crate::services::OpenArgs;
use crate::services::PropArgs;
use crate::services::ReadArgs;
use crate::services::ReleaseArgs;
use crate::services::SeekArgs;
use crate::services::WriteArgs;
use crate::services::inputs_preserved;
use crate::services::OF_SIZE_ERR;
use crate::wire::word_from_le8;

verus! {

/// Everything an operation can fail with.  Each operation documents which
/// of these it returns, and its contract says on what firmware answer.
#[derive(Clone, Copy, PartialEq, Eq, Structural, Debug)]
pub enum PromError {
    /// `finddevice` did not resolve the path.
    DeviceNotFound,
    /// `getprop` did not produce the property.
    PropertyUnavailable,
    /// The console handle is null, so nothing can be written.
    NoConsole,
    /// The console rejected the write.
    WriteError,
    /// `claim` was asked for alignment 0, which the service does not take.
    InvalidAlignment,
    /// `claim` could not reserve the memory.
    AllocationFailed,
    /// `open` did not produce an instance handle.
    OpenFailed,
    /// `read` failed on the device.
    ReadFailed,
    /// `close` failed on the device.
    CloseFailed,
    /// The device does not support seeking.
    SeekUnsupported,
    /// `seek` failed at the dispatch level.
    SeekFailed,
    /// A device method returned a nonzero result code or did not run.
    MethodError,
    /// The entry point reported that the service is unknown or erred at the
    /// call level.
    DispatchFailed,
}

/// The client interface: the single entry point a firmware exposes to a
/// booted client.  An implementor receives a generic call frame, dispatches
/// it by the service name embedded in its header, writes the frame's output
/// fields in place, and returns a raw word — [`OF_SIZE_ERR`] when dispatch
/// itself failed, anything else when the service ran.
///
/// The one promise an implementor makes is the in-place discipline of the
/// ABI: the frame keeps its shape, header, input fields and buffer lengths
/// across the call ([`inputs_preserved`]).  Nothing is promised about which
/// outputs come back: every operation built on this trait states what it
/// returns for each possible answer.
pub trait ClientInterface {
    /// Dispatches one call frame and returns the raw word.
    fn dispatch(&mut self, frame: &mut Frame) -> (r: usize)
        ensures
            inputs_preserved(*old(frame), *final(frame)),
    ;
}

/// The entry point a client holds before the firmware has handed it a real
/// one: it refuses every service at the dispatch level.
pub struct FallbackEntry {}

impl ClientInterface for FallbackEntry {
    fn dispatch(&mut self, frame: &mut Frame) -> (r: usize)
        ensures
            inputs_preserved(*old(frame), *final(frame)),
            r == OF_SIZE_ERR,
            *final(frame) == *old(frame),
    {
        OF_SIZE_ERR
    }
}

/// Reports one dispatch at the call level: the sentinel word means the
/// service is unknown or erred, any other word means the service ran.
pub fn dispatch_outcome(word: usize) -> (r: Result<usize, PromError>)
    ensures
        word == OF_SIZE_ERR ==> r == Err::<usize, PromError>(PromError::DispatchFailed),
        word != OF_SIZE_ERR ==> r == Ok::<usize, PromError>(word),
{
    if word == OF_SIZE_ERR {
        Err(PromError::DispatchFailed)
    } else {
        Ok(word)
    }
}

/// Performs one dispatch of a fully built frame and reports dispatch-level
/// success or failure; service-specific outcomes stay in the frame.
pub fn invoke<F: ClientInterface>(entry: &mut F, frame: &mut Frame) -> (r: Result<
    usize,
    PromError,
>)
    ensures
        inputs_preserved(*old(frame), *final(frame)),
        r matches Ok(w) ==> w != OF_SIZE_ERR,
        r matches Err(e) ==> e == PromError::DispatchFailed,
{
    let w = entry.dispatch(frame);
    dispatch_outcome(w)
}

/// What `write` returned: the count written, or [`PromError::WriteError`]
/// exactly when the dispatch word or the count is the sentinel.
pub fn write_outcome(word: usize, ret: usize) -> (r: Result<usize, PromError>)
    ensures
        word == OF_SIZE_ERR || ret == OF_SIZE_ERR ==> r == Err::<usize, PromError>(
            PromError::WriteError,
        ),
        word != OF_SIZE_ERR && ret != OF_SIZE_ERR ==> r == Ok::<usize, PromError>(ret),
{
    if word == OF_SIZE_ERR || ret == OF_SIZE_ERR {
        Err(PromError::WriteError)
    } else {
        Ok(ret)
    }
}

/// What `finddevice` returned: the package handle, or
/// [`PromError::DeviceNotFound`] exactly when the dispatch word is the
/// sentinel.
pub fn find_outcome(word: usize, phandle: PHandle) -> (r: Result<PHandle, PromError>)
    ensures
        word == OF_SIZE_ERR ==> r == Err::<PHandle, PromError>(PromError::DeviceNotFound),
        word != OF_SIZE_ERR ==> r == Ok::<PHandle, PromError>(phandle),
{
    if word == OF_SIZE_ERR {
        Err(PromError::DeviceNotFound)
    } else {
        Ok(phandle)
    }
}

/// What `getprop` returned: the property's size, or
/// [`PromError::PropertyUnavailable`] exactly when the dispatch word is the
/// sentinel.
pub fn prop_outcome(word: usize, size: usize) -> (r: Result<usize, PromError>)
    ensures
        word == OF_SIZE_ERR ==> r == Err::<usize, PromError>(PromError::PropertyUnavailable),
        word != OF_SIZE_ERR ==> r == Ok::<usize, PromError>(size),
{
    if word == OF_SIZE_ERR {
        Err(PromError::PropertyUnavailable)
    } else {
        Ok(size)
    }
}

/// What `claim` returned: the address of the region, or
/// [`PromError::AllocationFailed`] exactly when the dispatch word is the
/// sentinel.
pub fn claim_outcome(word: usize, ret: u64) -> (r: Result<u64, PromError>)
    ensures
        word == OF_SIZE_ERR ==> r == Err::<u64, PromError>(PromError::AllocationFailed),
        word != OF_SIZE_ERR ==> r == Ok::<u64, PromError>(ret),
{
    if word == OF_SIZE_ERR {
        Err(PromError::AllocationFailed)
    } else {
        Ok(ret)
    }
}

/// What `open` returned: the instance handle, or [`PromError::OpenFailed`]
/// exactly when the dispatch word is the sentinel or the handle came back
/// null.  A successful open never hands out the null handle.
pub fn open_outcome(word: usize, handle: IHandle) -> (r: Result<IHandle, PromError>)
    ensures
        word == OF_SIZE_ERR || handle.addr == 0 ==> r == Err::<IHandle, PromError>(
            PromError::OpenFailed,
        ),
        word != OF_SIZE_ERR && handle.addr != 0 ==> r == Ok::<IHandle, PromError>(handle),
{
    if word == OF_SIZE_ERR || handle.is_null() {
        Err(PromError::OpenFailed)
    } else {
        Ok(handle)
    }
}

/// What `read` returned: the count read (0 is a valid end of data), or
/// [`PromError::ReadFailed`] exactly when the dispatch word or the count is
/// the sentinel.
pub fn read_outcome(word: usize, actual_size: usize) -> (r: Result<usize, PromError>)
    ensures
        word == OF_SIZE_ERR || actual_size == OF_SIZE_ERR ==> r == Err::<usize, PromError>(
            PromError::ReadFailed,
        ),
        word != OF_SIZE_ERR && actual_size != OF_SIZE_ERR ==> r == Ok::<usize, PromError>(
            actual_size,
        ),
{
    if word == OF_SIZE_ERR || actual_size == OF_SIZE_ERR {
        Err(PromError::ReadFailed)
    } else {
        Ok(actual_size)
    }
}

/// What `close` returned: [`PromError::CloseFailed`] exactly when the
/// dispatch word is the sentinel.
pub fn close_outcome(word: usize) -> (r: Result<(), PromError>)
    ensures
        word == OF_SIZE_ERR ==> r == Err::<(), PromError>(PromError::CloseFailed),
        word != OF_SIZE_ERR ==> r == Ok::<(), PromError>(()),
{
    if word == OF_SIZE_ERR {
        Err(PromError::CloseFailed)
    } else {
        Ok(())
    }
}

/// What `seek` returned: [`PromError::SeekFailed`] exactly when the
/// dispatch word is the sentinel; otherwise [`PromError::SeekUnsupported`]
/// exactly when the status word is -1; otherwise success.
pub fn seek_outcome(word: usize, status: isize) -> (r: Result<(), PromError>)
    ensures
        word == OF_SIZE_ERR ==> r == Err::<(), PromError>(PromError::SeekFailed),
        word != OF_SIZE_ERR && status == -1 ==> r == Err::<(), PromError>(
            PromError::SeekUnsupported,
        ),
        word != OF_SIZE_ERR && status != -1 ==> r == Ok::<(), PromError>(()),
{
    if word == OF_SIZE_ERR {
        Err(PromError::SeekFailed)
    } else if status == -1 {
        Err(PromError::SeekUnsupported)
    } else {
        Ok(())
    }
}

/// What a device method returned: its second output word, or
/// [`PromError::MethodError`] exactly when the dispatch word is the
/// sentinel or the result code is nonzero.
pub fn method_outcome(word: usize, result: isize, value: isize) -> (r: Result<isize, PromError>)
    ensures
        word == OF_SIZE_ERR || result != 0 ==> r == Err::<isize, PromError>(
            PromError::MethodError,
        ),
        word != OF_SIZE_ERR && result == 0 ==> r == Ok::<isize, PromError>(value),
{
    if word == OF_SIZE_ERR || result != 0 {
        Err(PromError::MethodError)
    } else {
        Ok(value)
    }
}

/// An Open Firmware environment: the entry function and the two handles
/// the bootstrap resolves.  Built once by [`PROM::new`]; the handles never
/// change afterwards, and every operation's contract says so.
pub struct PROM<F: ClientInterface> {
    /// Entry function into the firmware services.
    pub entry_fn: F,
    /// Package handle of `/chosen`, the node holding parameters chosen at
    /// run time.
    pub chosen: PHandle,
    /// Instance handle of the console named by the `stdout` property of
    /// `/chosen`.
    pub stdout: IHandle,
}

impl<F: ClientInterface> PROM<F> {
    /// Creates an environment from an entry point by running the bootstrap:
    /// resolve `/chosen`, then read its `stdout` property.  Fails with
    /// exactly the error of the bootstrap step that failed, and with no
    /// other.
    pub fn new(entry: F) -> (r: Result<PROM<F>, PromError>)
        ensures
            r matches Err(e) ==> e == PromError::DeviceNotFound || e
                == PromError::PropertyUnavailable,
    {
        let mut ret = PROM { entry_fn: entry, chosen: PHandle::null(), stdout: IHandle::null() };
        match ret.init() {
            Ok(_) => Ok(ret),
            Err(e) => Err(e),
        }
    }

    /// The bootstrap sequence, run before anything may allocate: resolve
    /// `/chosen` with `finddevice`, then read its `stdout` property into a
    /// buffer sized to one handle word, and store both results.
    fn init(&mut self) -> (r: Result<(), PromError>)
        ensures
            r matches Err(e) ==> e == PromError::DeviceNotFound || e
                == PromError::PropertyUnavailable,
    {
        let path: Vec<u8> = vec![
            '/' as u8, 'c' as u8, 'h' as u8, 'o' as u8, 's' as u8, 'e' as u8, 'n' as u8, 0u8,
        ];
        proof {
            assert(path@[7] == 0u8);
        }
        let chosen = match self.find_device(path.as_slice()) {
            Ok(h) => h,
            Err(e) => {
                return Err(e);
            },
        };
        let prop: Vec<u8> = vec!['s' as u8, 't' as u8, 'd' as u8, 'o' as u8, 'u' as u8, 't' as u8, 0u8];
        proof {
            assert(prop@[6] == 0u8);
        }
        let mut buf: Vec<u8> = vec![0u8; 8];
        match self.get_property(chosen, prop.as_slice(), &mut buf) {
            Ok(_) => {},
            Err(e) => {
                return Err(e);
            },
        };
        let stdout = IHandle { addr: word_from_le8(buf.as_slice()) };
        self.stdout = stdout;
        self.chosen = chosen;
        Ok(())
    }

    /// Exits the client program back into the firmware.  A firmware never
    /// hands control back from `exit`; a simulated entry point may, and
    /// then the client has nothing left to do and hands the decision back
    /// to its caller.
    pub fn exit(&mut self)
        ensures
            final(self).chosen == old(self).chosen,
            final(self).stdout == old(self).stdout,
    {
        let mut frame = Frame::Base(Args::exit_header(1));
        let _ = self.entry_fn.dispatch(&mut frame);
    }

    /// Writes bytes to the console and returns the count written.
    ///
    /// Fails with [`PromError::NoConsole`], before anything is dispatched,
    /// exactly when the console handle is null; otherwise any failure is
    /// [`PromError::WriteError`], exactly on a sentinel answer.
    pub fn write_stdout(&mut self, msg: &[u8]) -> (r: Result<usize, PromError>)
        ensures
            final(self).chosen == old(self).chosen,
            final(self).stdout == old(self).stdout,
            old(self).stdout.addr == 0 ==> r == Err::<usize, PromError>(PromError::NoConsole)
                && *final(self) == *old(self),
            old(self).stdout.addr != 0 ==> (r matches Err(e) ==> e == PromError::WriteError),
            r matches Ok(n) ==> n != OF_SIZE_ERR,
    {
        if self.stdout.is_null() {
            return Err(PromError::NoConsole);
        }
        let mut frame = Frame::Write(WriteArgs::new(self.stdout, slice_to_vec(msg)));
        let w = self.entry_fn.dispatch(&mut frame);
        match frame {
            Frame::Write(a) => write_outcome(w, a.ret),
            _ => unreached(),
        }
    }

    /// Writes bytes to the console and ends the line with a newline and a
    /// carriage return.  Write errors, of the message as of the
    /// terminator, are suppressed: terminal output is best effort.
    pub fn write_line(&mut self, msg: &[u8])
        ensures
            final(self).chosen == old(self).chosen,
            final(self).stdout == old(self).stdout,
            old(self).stdout.addr == 0 ==> *final(self) == *old(self),
    {
        let _ = self.write_stdout(msg);
        let term: [u8; 2] = [10u8, 13u8];
        let _ = self.write_stdout(term.as_slice());
    }

    /// Resolves a null-terminated device path to its package handle.
    /// Any failure is [`PromError::DeviceNotFound`], exactly on a sentinel
    /// answer.
    pub fn find_device(&mut self, name: &[u8]) -> (r: Result<PHandle, PromError>)
        requires
            name@.contains(0u8),
        ensures
            final(self).chosen == old(self).chosen,
            final(self).stdout == old(self).stdout,
            r matches Err(e) ==> e == PromError::DeviceNotFound,
    {
        let mut frame = Frame::FindDevice(FindDeviceArgs::new(slice_to_vec(name)));
        let w = self.entry_fn.dispatch(&mut frame);
        match frame {
            Frame::FindDevice(a) => find_outcome(w, a.phandle),
            _ => unreached(),
        }
    }

    /// Reads a property of a device-tree node into the caller's buffer,
    /// whose length tells the firmware how much room there is, and returns
    /// the property's full size in bytes.  The buffer keeps its length;
    /// only its contents are written.  Any failure is
    /// [`PromError::PropertyUnavailable`], exactly on a sentinel answer.
    pub fn get_property(&mut self, phandle: PHandle, prop: &[u8], buf: &mut Vec<u8>) -> (r: Result<
        usize,
        PromError,
    >)
        requires
            prop@.contains(0u8),
        ensures
            final(self).chosen == old(self).chosen,
            final(self).stdout == old(self).stdout,
            final(buf)@.len() == old(buf)@.len(),
            r matches Err(e) ==> e == PromError::PropertyUnavailable,
    {
        let mut room: Vec<u8> = Vec::new();
        core::mem::swap(buf, &mut room);
        let mut frame = Frame::Prop(PropArgs::new(phandle, slice_to_vec(prop), room));
        let w = self.entry_fn.dispatch(&mut frame);
        match frame {
            Frame::Prop(a) => {
                let mut filled = a.buf;
                core::mem::swap(buf, &mut filled);
                prop_outcome(w, a.size)
            },
            _ => unreached(),
        }
    }

    /// Reserves `size` bytes of memory on an `align` byte boundary and
    /// returns the region's address.
    ///
    /// Fails with [`PromError::InvalidAlignment`], before anything is
    /// dispatched, exactly when `align` is 0; otherwise any failure is
    /// [`PromError::AllocationFailed`], exactly on a sentinel answer.
    pub fn claim(&mut self, size: usize, align: usize) -> (r: Result<u64, PromError>)
        ensures
            final(self).chosen == old(self).chosen,
            final(self).stdout == old(self).stdout,
            align == 0 ==> r == Err::<u64, PromError>(PromError::InvalidAlignment) && *final(self)
                == *old(self),
            align != 0 ==> (r matches Err(e) ==> e == PromError::AllocationFailed),
    {
        if align == 0 {
            return Err(PromError::InvalidAlignment);
        }
        let mut frame = Frame::Claim(ClaimArgs::new(size, align));
        let w = self.entry_fn.dispatch(&mut frame);
        match frame {
            Frame::Claim(a) => claim_outcome(w, a.ret),
            _ => unreached(),
        }
    }

    /// Returns a region reserved by [`PROM::claim`] to the firmware.  Best
    /// effort: the service reports nothing, so neither does this.
    pub fn release(&mut self, virt: u64, size: usize)
        ensures
            final(self).chosen == old(self).chosen,
            final(self).stdout == old(self).stdout,
    {
        let mut frame = Frame::Release(ReleaseArgs::new(virt, size));
        let _ = self.entry_fn.dispatch(&mut frame);
    }

    /// Opens the device a null-terminated specifier names and returns its
    /// instance handle, which is never null.  Any failure is
    /// [`PromError::OpenFailed`], exactly on a sentinel answer or a null
    /// handle.
    pub fn open(&mut self, dev_spec: &[u8]) -> (r: Result<IHandle, PromError>)
        requires
            dev_spec@.contains(0u8),
        ensures
            final(self).chosen == old(self).chosen,
            final(self).stdout == old(self).stdout,
            r matches Err(e) ==> e == PromError::OpenFailed,
            r matches Ok(h) ==> h.addr != 0,
    {
        let mut frame = Frame::Open(OpenArgs::new(slice_to_vec(dev_spec)));
        let w = self.entry_fn.dispatch(&mut frame);
        match frame {
            Frame::Open(a) => open_outcome(w, a.handle),
            _ => unreached(),
        }
    }

    /// Reads from an open device into the caller's buffer and returns the
    /// count of bytes read; 0 is a valid end of data.  The buffer keeps
    /// its length; only its contents are written.  Any failure is
    /// [`PromError::ReadFailed`], exactly on a sentinel answer.
    pub fn read(&mut self, handle: IHandle, buffer: &mut Vec<u8>) -> (r: Result<usize, PromError>)
        ensures
            final(self).chosen == old(self).chosen,
            final(self).stdout == old(self).stdout,
            final(buffer)@.len() == old(buffer)@.len(),
            r matches Err(e) ==> e == PromError::ReadFailed,
            r matches Ok(n) ==> n != OF_SIZE_ERR,
    {
        let mut room: Vec<u8> = Vec::new();
        core::mem::swap(buffer, &mut room);
        let mut frame = Frame::Read(ReadArgs::new(handle, room));
        let w = self.entry_fn.dispatch(&mut frame);
        match frame {
            Frame::Read(a) => {
                let mut filled = a.buffer;
                core::mem::swap(buffer, &mut filled);
                read_outcome(w, a.actual_size)
            },
            _ => unreached(),
        }
    }

    /// Closes an open device.  Any failure is [`PromError::CloseFailed`],
    /// exactly on a sentinel answer.
    pub fn close(&mut self, handle: IHandle) -> (r: Result<(), PromError>)
        ensures
            final(self).chosen == old(self).chosen,
            final(self).stdout == old(self).stdout,
            r matches Err(e) ==> e == PromError::CloseFailed,
    {
        let mut frame = Frame::Close(CloseArgs::new(handle));
        let w = self.entry_fn.dispatch(&mut frame);
        close_outcome(w)
    }

    /// Positions an open device, with the whole position in the low word
    /// of the frame.  Fails with [`PromError::SeekFailed`] exactly on a
    /// sentinel answer, with [`PromError::SeekUnsupported`] exactly when
    /// the device answered with status -1, and succeeds on every other
    /// status.
    pub fn seek(&mut self, handle: IHandle, pos: isize) -> (r: Result<(), PromError>)
        ensures
            final(self).chosen == old(self).chosen,
            final(self).stdout == old(self).stdout,
            r matches Err(e) ==> e == PromError::SeekFailed || e == PromError::SeekUnsupported,
    {
        let mut frame = Frame::Seek(SeekArgs::new(handle, pos));
        let w = self.entry_fn.dispatch(&mut frame);
        match frame {
            Frame::Seek(a) => seek_outcome(w, a.status),
            _ => unreached(),
        }
    }

    /// Asks a block device for its block size through the `block-size`
    /// method.  Any failure is [`PromError::MethodError`], exactly on a
    /// sentinel answer or a nonzero result code.
    pub fn get_block_size(&mut self, block_device: IHandle) -> (r: Result<isize, PromError>)
        ensures
            final(self).chosen == old(self).chosen,
            final(self).stdout == old(self).stdout,
            r matches Err(e) ==> e == PromError::MethodError,
    {
        let mut frame = Frame::BlockSize(BlockSizeArgs::new(block_device));
        let w = self.entry_fn.dispatch(&mut frame);
        match frame {
            Frame::BlockSize(a) => method_outcome(w, a.result, a.block_size),
            _ => unreached(),
        }
    }

}

/// Builds the process's firmware environment from the entry point the
/// firmware handed to the start routine.  When the bootstrap fails there is
/// no console to report on, so the only remaining action is taken: `exit`
/// is invoked directly through the raw entry point, which a firmware never
/// comes back from.  Should a simulated entry point come back anyway, the
/// fallback environment is handed out: its handles are null, so its console
/// operations all fail before dispatching anything.
pub fn prom_init<F: ClientInterface>(entry: F) -> (r: PROM<F>) {
    let mut ret = PROM { entry_fn: entry, chosen: PHandle::null(), stdout: IHandle::null() };
    match ret.init() {
        Ok(_) => ret,
        Err(_) => {
            let mut frame = Frame::Base(Args::exit_header(0));
            let _ = ret.entry_fn.dispatch(&mut frame);
            ret
        },
    }
}

} // verus!
