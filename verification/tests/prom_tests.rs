//! Tests of the environment operations against a mock firmware: an
//! in-process implementor of the client interface that resolves `/chosen`,
//! serves a console, a tracked heap and one disk device, and answers the
//! sentinel for everything else.

use std::collections::HashMap;

use ieee1275::prom::claim_outcome;
use ieee1275::prom::dispatch_outcome;
use ieee1275::prom::invoke;
use ieee1275::prom::method_outcome;
use ieee1275::prom::open_outcome;
use ieee1275::prom::read_outcome;
use ieee1275::prom::seek_outcome;
use ieee1275::prom::write_outcome;
use ieee1275::prom_init;
use ieee1275::services::Args;
use ieee1275::services::BlockSizeArgs;
use ieee1275::services::CloseArgs;
use ieee1275::services::Frame;
use ieee1275::services::ReadBlocks;
use ieee1275::services::WriteArgs;
use ieee1275::services::OF_SIZE_ERR;
use ieee1275::ClientInterface;
use ieee1275::FallbackEntry;
use ieee1275::IHandle;
use ieee1275::PHandle;
use ieee1275::PromError;
use ieee1275::PROM;

const CHOSEN_PHANDLE: u64 = 0xdeadbeef;
const STDOUT_IHANDLE: u64 = 0xdecafbad;
const DISK_IHANDLE: u64 = 0xfeedd15c;
const NOSEEK_IHANDLE: u64 = 0x0beefbee;

/// A mock Open Firmware: one entry point, dispatching on the service name
/// embedded in the frame header, exactly as a real client interface does.
struct MockProm {
    stdout: String,
    stdout_ihandle: u64,
    chosen_phandle: u64,
    heap: HashMap<u64, Vec<u8>>,
    next_addr: u64,
    read_data: Vec<u8>,
    calls: usize,
}

impl MockProm {
    fn new() -> MockProm {
        MockProm {
            stdout: String::new(),
            stdout_ihandle: STDOUT_IHANDLE,
            chosen_phandle: CHOSEN_PHANDLE,
            heap: HashMap::new(),
            next_addr: 0x1000,
            read_data: Vec::new(),
            calls: 0,
        }
    }
}

impl ClientInterface for MockProm {
    fn dispatch(&mut self, frame: &mut Frame) -> usize {
        self.calls += 1;
        match frame {
            Frame::Base(a) => {
                if a.service.starts_with(b"exit\0") {
                    0
                } else {
                    OF_SIZE_ERR
                }
            }
            Frame::FindDevice(a) => {
                assert!(a.args.service.starts_with(b"finddevice\0"));
                assert_eq!(a.args.nargs, 1);
                assert_eq!(a.args.nret, 1);
                if a.device.starts_with(b"/chosen\0") {
                    a.phandle = PHandle {
                        addr: self.chosen_phandle,
                    };
                    8
                } else {
                    OF_SIZE_ERR
                }
            }
            Frame::Prop(a) => {
                assert!(a.args.service.starts_with(b"getprop\0"));
                assert_eq!(a.args.nargs, 4);
                assert_eq!(a.args.nret, 1);
                if a.prop.starts_with(b"stdout\0") {
                    assert!(a.buflen >= 8);
                    let bytes = self.stdout_ihandle.to_le_bytes();
                    for i in 0..8 {
                        a.buf[i] = bytes[i];
                    }
                    a.size = 8;
                    8
                } else {
                    a.size = OF_SIZE_ERR;
                    OF_SIZE_ERR
                }
            }
            Frame::Write(a) => {
                assert!(a.args.service.starts_with(b"write\0"));
                assert_eq!(a.args.nargs, 3);
                assert_eq!(a.args.nret, 1);
                if a.stdout.addr == self.stdout_ihandle {
                    for &b in a.msg.iter() {
                        self.stdout.push(b as char);
                    }
                    a.ret = a.len;
                    a.len
                } else {
                    a.ret = OF_SIZE_ERR;
                    OF_SIZE_ERR
                }
            }
            Frame::Claim(a) => {
                assert!(a.args.service.starts_with(b"claim\0"));
                assert_eq!(a.args.nargs, 3);
                assert_eq!(a.args.nret, 1);
                if a.size == usize::MAX || a.align == 0 {
                    return OF_SIZE_ERR;
                }
                let align = a.align as u64;
                let addr = self.next_addr.div_ceil(align) * align;
                self.next_addr = addr + (a.size as u64) + 16;
                self.heap.insert(addr, vec![0u8; a.size]);
                a.ret = addr;
                addr as usize
            }
            Frame::Release(a) => {
                assert!(a.args.service.starts_with(b"release\0"));
                assert_eq!(a.args.nargs, 2);
                assert_eq!(a.args.nret, 0);
                let _ = self.heap.remove(&a.virt);
                0
            }
            Frame::Open(a) => {
                assert!(a.args.service.starts_with(b"open\0"));
                assert_eq!(a.args.nargs, 1);
                assert_eq!(a.args.nret, 1);
                if a.dev.starts_with(b"disk\0") {
                    a.handle = IHandle { addr: DISK_IHANDLE };
                    0
                } else {
                    OF_SIZE_ERR
                }
            }
            Frame::Read(a) => {
                assert!(a.args.service.starts_with(b"read\0"));
                assert_eq!(a.args.nargs, 3);
                assert_eq!(a.args.nret, 1);
                if a.handle.addr == DISK_IHANDLE {
                    let n = self.read_data.len().min(a.buffer.len());
                    for i in 0..n {
                        a.buffer[i] = self.read_data[i];
                    }
                    a.actual_size = n;
                    n
                } else {
                    a.actual_size = OF_SIZE_ERR;
                    OF_SIZE_ERR
                }
            }
            Frame::Close(a) => {
                assert!(a.args.service.starts_with(b"close\0"));
                assert_eq!(a.args.nargs, 1);
                assert_eq!(a.args.nret, 0);
                if a.handle.addr == DISK_IHANDLE || a.handle.addr == self.stdout_ihandle {
                    0
                } else {
                    OF_SIZE_ERR
                }
            }
            Frame::Seek(a) => {
                assert!(a.args.service.starts_with(b"seek\0"));
                assert_eq!(a.args.nargs, 3);
                assert_eq!(a.args.nret, 1);
                if a.handle.addr == DISK_IHANDLE {
                    a.status = 0;
                    0
                } else if a.handle.addr == NOSEEK_IHANDLE {
                    a.status = -1;
                    0
                } else {
                    OF_SIZE_ERR
                }
            }
            Frame::BlockSize(a) => {
                assert!(a.args.args.service.starts_with(b"call-method\0"));
                assert_eq!(a.args.args.nargs, 2);
                assert_eq!(a.args.args.nret, 2);
                if a.args.method.starts_with(b"block-size\0") && a.args.handle.addr == DISK_IHANDLE
                {
                    a.result = 0;
                    a.block_size = 512;
                    0
                } else {
                    OF_SIZE_ERR
                }
            }
            Frame::ReadBlocks(_) => OF_SIZE_ERR,
        }
    }
}

/// A mock environment whose bootstrap has already run.
fn booted() -> PROM<MockProm> {
    PROM::new(MockProm::new()).unwrap()
}

#[test]
fn prom_new() {
    let prom = PROM::new(MockProm::new()).unwrap();
    assert_eq!(prom.chosen.addr, 0xdeadbeef);
    assert_eq!(prom.stdout.addr, 0xdecafbad);
}

#[test]
fn write_stdout() {
    let mut prom = booted();
    prom.write_line(b"one two three");
    assert_eq!(prom.entry_fn.stdout, "one two three\n\r");
}

#[test]
fn claim_release() {
    let mut prom = booted();

    const ALLOC_LENGHT: usize = 4;

    let ret = prom.claim(ALLOC_LENGHT, 1);
    assert!(ret.is_ok());
    let buffer_ptr = ret.unwrap();

    let memchunk = prom.entry_fn.heap.get(&buffer_ptr);
    assert!(memchunk.is_some(), "Heap did not find returned address");

    let region = prom.entry_fn.heap.get_mut(&buffer_ptr).unwrap();
    region[0] = 1u8;
    region[1] = 2u8;
    region[2] = 3u8;
    region[3] = 4u8;

    assert_eq!(
        prom.entry_fn.heap.get(&buffer_ptr).unwrap(),
        &vec![1u8, 2u8, 3u8, 4u8],
        "Allocated memory did not point to the same area"
    );

    prom.release(buffer_ptr, ALLOC_LENGHT);
    assert!(
        prom.entry_fn.heap.get(&buffer_ptr).is_none(),
        "Heap did not get empty after prom.release()"
    );
}

#[test]
fn block_size() {
    let mut prom = booted();

    let disk = prom.open(b"disk\0").unwrap();
    assert_eq!(disk, IHandle { addr: DISK_IHANDLE });
    let dsize = prom.get_block_size(disk).unwrap();
    assert_eq!(dsize, 512);
}

#[test]
fn open() {
    let mut prom = booted();

    let disk = prom.open(b"disk\0").unwrap();
    assert_eq!(disk, IHandle { addr: DISK_IHANDLE });
}

#[test]
fn read() {
    let mut prom = booted();
    prom.entry_fn.read_data = b"hello".to_vec();

    let disk = prom.open(b"disk\0").unwrap();
    let mut buf: Vec<u8> = vec![0u8; 16];
    let n = prom.read(disk, &mut buf).unwrap();
    assert_eq!(n, 5);
    assert_eq!(buf.len(), 16);
    assert_eq!(&buf[0..5], b"hello");
    assert_eq!(&buf[5..], &[0u8; 11]);
}

#[test]
fn close() {
    let mut prom = booted();

    let disk = prom.open(b"disk\0").unwrap();
    assert!(prom.close(disk).is_ok());
    assert_eq!(
        prom.close(IHandle { addr: 0x42 }),
        Err(PromError::CloseFailed)
    );
}

#[test]
fn write_without_console() {
    let mut prom = PROM {
        entry_fn: MockProm::new(),
        chosen: PHandle {
            addr: CHOSEN_PHANDLE,
        },
        stdout: IHandle { addr: 0 },
    };
    assert_eq!(prom.write_stdout(b"anything"), Err(PromError::NoConsole));
    assert_eq!(prom.entry_fn.stdout, "");
    assert_eq!(prom.entry_fn.calls, 0);
}

#[test]
fn write_to_wrong_console() {
    let mut prom = PROM {
        entry_fn: MockProm::new(),
        chosen: PHandle {
            addr: CHOSEN_PHANDLE,
        },
        stdout: IHandle { addr: 0x1234 },
    };
    assert_eq!(prom.write_stdout(b"anything"), Err(PromError::WriteError));
    assert_eq!(prom.entry_fn.stdout, "");
}

#[test]
fn claim_zero_alignment() {
    let mut prom = booted();
    let calls_before = prom.entry_fn.calls;
    assert_eq!(prom.claim(64, 0), Err(PromError::InvalidAlignment));
    assert_eq!(prom.entry_fn.calls, calls_before);
    assert!(prom.entry_fn.heap.is_empty());
}

#[test]
fn claim_refused_by_firmware() {
    let mut prom = booted();
    assert_eq!(
        prom.claim(usize::MAX, 1),
        Err(PromError::AllocationFailed)
    );
}

#[test]
fn find_device_unknown_path() {
    let mut prom = booted();
    assert_eq!(
        prom.find_device(b"/nvram\0"),
        Err(PromError::DeviceNotFound)
    );
}

#[test]
fn get_property_known() {
    let mut prom = booted();
    let chosen = prom.chosen;
    let mut buf: Vec<u8> = vec![0u8; 8];
    let size = prom.get_property(chosen, b"stdout\0", &mut buf).unwrap();
    assert_eq!(size, 8);
    assert_eq!(buf, STDOUT_IHANDLE.to_le_bytes().to_vec());
}

#[test]
fn get_property_unknown() {
    let mut prom = booted();
    let chosen = prom.chosen;
    let mut buf: Vec<u8> = vec![0u8; 32];
    assert_eq!(
        prom.get_property(chosen, b"bootpath\0", &mut buf),
        Err(PromError::PropertyUnavailable)
    );
    assert_eq!(buf.len(), 32);
}

#[test]
fn open_unknown_device() {
    let mut prom = booted();
    assert_eq!(prom.open(b"tape\0"), Err(PromError::OpenFailed));
}

#[test]
fn seek_statuses() {
    let mut prom = booted();
    let disk = prom.open(b"disk\0").unwrap();
    assert_eq!(prom.seek(disk, 512), Ok(()));
    assert_eq!(
        prom.seek(IHandle { addr: NOSEEK_IHANDLE }, 0),
        Err(PromError::SeekUnsupported)
    );
    assert_eq!(
        prom.seek(IHandle { addr: 0x77 }, 0),
        Err(PromError::SeekFailed)
    );
}

#[test]
fn block_size_on_wrong_handle() {
    let mut prom = booted();
    assert_eq!(
        prom.get_block_size(IHandle {
            addr: STDOUT_IHANDLE
        }),
        Err(PromError::MethodError)
    );
}

#[test]
fn every_operation_fails_on_sentinel() {
    assert_eq!(
        PROM::new(FallbackEntry {}).err().unwrap(),
        PromError::DeviceNotFound
    );

    let mut prom = PROM {
        entry_fn: FallbackEntry {},
        chosen: PHandle { addr: 1 },
        stdout: IHandle { addr: 2 },
    };
    assert_eq!(prom.write_stdout(b"x"), Err(PromError::WriteError));
    assert_eq!(
        prom.find_device(b"/chosen\0"),
        Err(PromError::DeviceNotFound)
    );
    let chosen = prom.chosen;
    let mut buf: Vec<u8> = vec![0u8; 8];
    assert_eq!(
        prom.get_property(chosen, b"stdout\0", &mut buf),
        Err(PromError::PropertyUnavailable)
    );
    assert_eq!(prom.claim(4, 1), Err(PromError::AllocationFailed));
    assert_eq!(prom.open(b"disk\0"), Err(PromError::OpenFailed));
    let mut rbuf: Vec<u8> = vec![0u8; 4];
    assert_eq!(
        prom.read(IHandle { addr: 3 }, &mut rbuf),
        Err(PromError::ReadFailed)
    );
    assert_eq!(prom.close(IHandle { addr: 3 }), Err(PromError::CloseFailed));
    assert_eq!(prom.seek(IHandle { addr: 3 }, 0), Err(PromError::SeekFailed));
    assert_eq!(
        prom.get_block_size(IHandle { addr: 3 }),
        Err(PromError::MethodError)
    );
}

#[test]
fn fallback_entry_refuses_dispatch() {
    let mut entry = FallbackEntry {};
    let mut frame = Frame::Close(CloseArgs::new(IHandle { addr: 1 }));
    assert_eq!(entry.dispatch(&mut frame), OF_SIZE_ERR);
}

#[test]
fn invoke_reports_dispatch_level() {
    let mut entry = FallbackEntry {};
    let mut frame = Frame::Close(CloseArgs::new(IHandle { addr: 1 }));
    assert_eq!(
        invoke(&mut entry, &mut frame),
        Err(PromError::DispatchFailed)
    );

    let mut mock = MockProm::new();
    let mut exit_frame = Frame::Base(Args::exit_header(1));
    assert_eq!(invoke(&mut mock, &mut exit_frame), Ok(0));
}

#[test]
fn prom_init_resolves_handles() {
    let prom = prom_init(MockProm::new());
    assert_eq!(prom.chosen.addr, CHOSEN_PHANDLE);
    assert_eq!(prom.stdout.addr, STDOUT_IHANDLE);
}

#[test]
fn prom_init_falls_back_without_firmware() {
    let prom = prom_init(FallbackEntry {});
    assert_eq!(prom.chosen.addr, 0);
    assert_eq!(prom.stdout.addr, 0);
}

#[test]
fn exit_dispatches_exit_service() {
    let mut prom = booted();
    let calls_before = prom.entry_fn.calls;
    prom.exit();
    assert_eq!(prom.entry_fn.calls, calls_before + 1);
}

#[test]
fn frame_constructors_declare_documented_counts() {
    let w = WriteArgs::new(IHandle { addr: 7 }, b"ab".to_vec());
    assert_eq!(w.args.service, b"write\0");
    assert_eq!(w.args.nargs, 3);
    assert_eq!(w.args.nret, 1);
    assert_eq!(w.len, 2);
    assert_eq!(w.ret, 0);

    let b = BlockSizeArgs::new(IHandle { addr: 7 });
    assert_eq!(b.args.args.service, b"call-method\0");
    assert_eq!(b.args.method, b"block-size\0");
    assert_eq!(b.args.args.nargs, 2);
    assert_eq!(b.args.args.nret, 2);

    let rb = ReadBlocks::new(IHandle { addr: 7 }, vec![0u8; 1024], 3, 2);
    assert_eq!(rb.args.args.service, b"call-method\0");
    assert_eq!(rb.args.method, b"read-blocks\0");
    assert_eq!(rb.args.args.nargs, 5);
    assert_eq!(rb.args.args.nret, 2);
    assert_eq!(rb.block_index, 3);
    assert_eq!(rb.nblocks, 2);
    assert_eq!(rb.result, 0);
    assert_eq!(rb.blocks_read, 0);
}

#[test]
fn outcome_functions_pin_every_answer() {
    assert_eq!(dispatch_outcome(OF_SIZE_ERR), Err(PromError::DispatchFailed));
    assert_eq!(dispatch_outcome(5), Ok(5));
    assert_eq!(write_outcome(3, 3), Ok(3));
    assert_eq!(write_outcome(3, OF_SIZE_ERR), Err(PromError::WriteError));
    assert_eq!(write_outcome(OF_SIZE_ERR, 0), Err(PromError::WriteError));
    assert_eq!(
        claim_outcome(OF_SIZE_ERR, 0),
        Err(PromError::AllocationFailed)
    );
    assert_eq!(claim_outcome(0x2000, 0x2000), Ok(0x2000));
    assert_eq!(
        open_outcome(0, IHandle { addr: 0 }),
        Err(PromError::OpenFailed)
    );
    assert_eq!(
        open_outcome(0, IHandle { addr: 9 }),
        Ok(IHandle { addr: 9 })
    );
    assert_eq!(read_outcome(0, 0), Ok(0));
    assert_eq!(
        read_outcome(0, OF_SIZE_ERR),
        Err(PromError::ReadFailed)
    );
    assert_eq!(seek_outcome(OF_SIZE_ERR, 0), Err(PromError::SeekFailed));
    assert_eq!(seek_outcome(0, -1), Err(PromError::SeekUnsupported));
    assert_eq!(seek_outcome(0, 7), Ok(()));
    assert_eq!(method_outcome(0, 1, 512), Err(PromError::MethodError));
    assert_eq!(method_outcome(0, 0, 512), Ok(512));
}
