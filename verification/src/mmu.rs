//! The memory-management unit: one flat emulated address space holding a
//! contiguous RAM region, a UART region and a single audio register. Every
//! access dispatches purely on the range its address falls in; an address
//! outside all mapped ranges faults with the cause matching the access kind
//! (fetch, load or store), carrying the offending address.
//!
//! Reads and writes of RAM interpret bytes little-endian. A multi-byte
//! access whose first byte is in RAM but whose span runs past the end of
//! RAM also faults. The UART read path and all UART accesses other than a
//! byte store to the queue register are not implemented and degrade to the
//! access fault of their kind rather than stopping the emulator.

use crate::primitive_audio::PrimitiveAudioProducer;
use crate::primitive_audio::PrimitiveAudioReciever;
use crate::primitive_audio::create_primitive_audio_pair;
use crate::traps::Trap;
use crate::traps::TrapType;
use crate::uart::UART;
use vstd::prelude::*;

verus! {

/// RAM is 64 MiB.
pub const RAM_SIZE: usize = 64 * 1024 * 1024;

/// The base address of RAM.
pub const RAM_ADDRESS: u32 = 0x8000_0000;

/// The last address of RAM: `RAM_ADDRESS + RAM_SIZE - 1`.
pub const RAM_ADDRESS_END: u32 = 0x83FF_FFFF;

/// The UART region is 256 bytes.
pub const UART_REGION_SIZE: usize = 0x100;

/// The first address of the UART region: a byte store here enqueues the
/// byte for the host.
pub const UART_ADDRESS: u32 = 0x1000_0000;

/// The last address of the UART region: `UART_ADDRESS + UART_REGION_SIZE - 1`.
pub const UART_ADDRESS_END: u32 = 0x1000_00FF;

/// The single audio register: a word load reads the ring's fill level, a
/// halfword store enqueues one sample.
pub const PRIMITIVE_AUDIO_ADDRESS: u32 = 0x1000_0200;

/// Whether an `n`-byte access starting at `a` lies entirely inside RAM.
pub open spec fn spec_ram_span(a: u32, n: u32) -> bool {
    RAM_ADDRESS <= a && a + n - 1 <= RAM_ADDRESS_END
}

/// The RAM byte offset of address `a`.
pub open spec fn spec_ram_index(a: u32) -> int {
    a - RAM_ADDRESS
}

/// Four bytes read little-endian.
pub open spec fn spec_le_word(b0: u8, b1: u8, b2: u8, b3: u8) -> u32 {
    (b0 as u32) | ((b1 as u32) << 8) | ((b2 as u32) << 16) | ((b3 as u32) << 24)
}

/// Two bytes read little-endian.
pub open spec fn spec_le_halfword(b0: u8, b1: u8) -> u16 {
    (b0 as u16) | ((b1 as u16) << 8)
}

/// The word stored little-endian at RAM offset `i` of `mem`.
pub open spec fn spec_ram_word(mem: Seq<u8>, i: int) -> u32 {
    spec_le_word(mem[i], mem[i + 1], mem[i + 2], mem[i + 3])
}

/// The halfword stored little-endian at RAM offset `i` of `mem`.
pub open spec fn spec_ram_halfword(mem: Seq<u8>, i: int) -> u16 {
    spec_le_halfword(mem[i], mem[i + 1])
}

/// A buffer of `n` copies of `byte`.
fn byte_buffer(byte: u8, n: usize) -> (v: Vec<u8>)
    ensures
        v@ == Seq::new(n as nat, |i: int| byte),
{
    let mut v: Vec<u8> = Vec::with_capacity(n);
    let mut i: usize = 0;
    while i < n
        invariant
            i <= n,
            v@.len() == i,
            forall|j: int| 0 <= j < i ==> v@[j] == byte,
        decreases n - i,
    {
        v.push(byte);
        i += 1;
    }
    proof {
        assert(v@ =~= Seq::new(n as nat, |i: int| byte));
    }
    v
}

/// The flat address space: the RAM bytes and the two devices.
pub struct MMU {
    pub memory: Vec<u8>,
    pub uart: UART,
    pub audio: PrimitiveAudioReciever,
}

impl MMU {
    /// The RAM contents, by byte offset from `RAM_ADDRESS`.
    pub open spec fn ram(&self) -> Seq<u8> {
        self.memory@
    }

    /// The RAM buffer always spans exactly `RAM_SIZE` bytes.
    pub open spec fn wf(&self) -> bool {
        self.ram().len() == RAM_SIZE
    }

    /// A fresh address space: RAM zeroed, the UART queues empty, and a
    /// fresh audio ring (no sample handed to it yet) whose playback half
    /// is handed back beside it.
    pub fn new() -> (r: (MMU, PrimitiveAudioProducer))
        ensures
            r.0.wf(),
            r.0.ram() == Seq::new(RAM_SIZE as nat, |i: int| 0u8),
            r.0.uart.from_emu() == Seq::<u8>::empty(),
            r.0.audio.handed_log() == Seq::<i16>::empty(),
    {
        let memory = byte_buffer(0, RAM_SIZE);
        let (audio_res, audio_prod) = create_primitive_audio_pair();
        (MMU { memory, uart: UART::new(), audio: audio_res }, audio_prod)
    }

    /// Fetches the instruction word at `address`. Exactly the word-spanning
    /// RAM addresses fetch; everything else, the devices included, faults
    /// with `InstructionAccessFault` carrying the address.
    pub fn fetch_word(&self, address: u32) -> (r: Result<u32, Trap>)
        requires
            self.wf(),
        ensures
            spec_ram_span(address, 4) ==> r == Ok::<u32, Trap>(
                spec_ram_word(self.ram(), spec_ram_index(address)),
            ),
            !spec_ram_span(address, 4) ==> r == Err::<u32, Trap>(
                Trap { tcause: TrapType::InstructionAccessFault, tval: address },
            ),
    {
        if RAM_ADDRESS <= address && address <= RAM_ADDRESS_END - 3 {
            let mem_adr = (address - RAM_ADDRESS) as usize;
            Ok(
                le_word(
                    self.memory[mem_adr],
                    self.memory[mem_adr + 1],
                    self.memory[mem_adr + 2],
                    self.memory[mem_adr + 3],
                ),
            )
        } else {
            Err(Trap { tcause: TrapType::InstructionAccessFault, tval: address })
        }
    }

    /// Loads a word. Word-spanning RAM addresses read little-endian; the
    /// audio register reads the ring's momentary fill level (some count
    /// never above the ring's capacity); everything else faults with
    /// `LoadAccessFault` carrying the address.
    pub fn read_word(&self, address: u32) -> (r: Result<u32, Trap>)
        requires
            self.wf(),
        ensures
            spec_ram_span(address, 4) ==> r == Ok::<u32, Trap>(
                spec_ram_word(self.ram(), spec_ram_index(address)),
            ),
            address == PRIMITIVE_AUDIO_ADDRESS ==> r is Ok && r->Ok_0
                <= crate::primitive_audio::AUDIO_RING_CAPACITY as u32,
            !spec_ram_span(address, 4) && address != PRIMITIVE_AUDIO_ADDRESS ==> r == Err::<
                u32,
                Trap,
            >(Trap { tcause: TrapType::LoadAccessFault, tval: address }),
    {
        if RAM_ADDRESS <= address && address <= RAM_ADDRESS_END - 3 {
            let mem_adr = (address - RAM_ADDRESS) as usize;
            Ok(
                le_word(
                    self.memory[mem_adr],
                    self.memory[mem_adr + 1],
                    self.memory[mem_adr + 2],
                    self.memory[mem_adr + 3],
                ),
            )
        } else if address == PRIMITIVE_AUDIO_ADDRESS {
            Ok(self.audio.get_size())
        } else {
            Err(Trap { tcause: TrapType::LoadAccessFault, tval: address })
        }
    }

    /// Loads a halfword. Halfword-spanning RAM addresses read
    /// little-endian; everything else faults with `LoadAccessFault`.
    pub fn read_halfword(&self, address: u32) -> (r: Result<u16, Trap>)
        requires
            self.wf(),
        ensures
            spec_ram_span(address, 2) ==> r == Ok::<u16, Trap>(
                spec_ram_halfword(self.ram(), spec_ram_index(address)),
            ),
            !spec_ram_span(address, 2) ==> r == Err::<u16, Trap>(
                Trap { tcause: TrapType::LoadAccessFault, tval: address },
            ),
    {
        if RAM_ADDRESS <= address && address <= RAM_ADDRESS_END - 1 {
            let mem_adr = (address - RAM_ADDRESS) as usize;
            Ok(le_halfword(self.memory[mem_adr], self.memory[mem_adr + 1]))
        } else {
            Err(Trap { tcause: TrapType::LoadAccessFault, tval: address })
        }
    }

    /// Loads a byte. RAM addresses read the byte; everything else faults
    /// with `LoadAccessFault`.
    pub fn read_byte(&self, address: u32) -> (r: Result<u8, Trap>)
        requires
            self.wf(),
        ensures
            spec_ram_span(address, 1) ==> r == Ok::<u8, Trap>(
                self.ram()[spec_ram_index(address)],
            ),
            !spec_ram_span(address, 1) ==> r == Err::<u8, Trap>(
                Trap { tcause: TrapType::LoadAccessFault, tval: address },
            ),
    {
        if RAM_ADDRESS <= address && address <= RAM_ADDRESS_END {
            Ok(self.memory[(address - RAM_ADDRESS) as usize])
        } else {
            Err(Trap { tcause: TrapType::LoadAccessFault, tval: address })
        }
    }

    /// Stores a word. Word-spanning RAM addresses take the four bytes
    /// little-endian; everything else faults with `StoreAccessFault` and
    /// leaves the whole address space unchanged.
    pub fn write_word(&mut self, address: u32, word: u32) -> (r: Result<(), Trap>)
        requires
            old(self).wf(),
        ensures
            final(self).wf(),
            spec_ram_span(address, 4) ==> r == Ok::<(), Trap>(()) && final(self).ram() == old(
                self,
            ).ram().update(spec_ram_index(address), word as u8).update(
                spec_ram_index(address) + 1,
                (word >> 8) as u8,
            ).update(spec_ram_index(address) + 2, (word >> 16) as u8).update(
                spec_ram_index(address) + 3,
                (word >> 24) as u8,
            ) && final(self).uart == old(self).uart && final(self).audio == old(self).audio,
            !spec_ram_span(address, 4) ==> r == Err::<(), Trap>(
                Trap { tcause: TrapType::StoreAccessFault, tval: address },
            ) && *final(self) == *old(self),
    {
        if RAM_ADDRESS <= address && address <= RAM_ADDRESS_END - 3 {
            let mem_adr = (address - RAM_ADDRESS) as usize;
            self.memory[mem_adr] = word as u8;
            self.memory[mem_adr + 1] = (word >> 8) as u8;
            self.memory[mem_adr + 2] = (word >> 16) as u8;
            self.memory[mem_adr + 3] = (word >> 24) as u8;
            Ok(())
        } else {
            Err(Trap { tcause: TrapType::StoreAccessFault, tval: address })
        }
    }

    /// Stores a halfword. Halfword-spanning RAM addresses take the two
    /// bytes little-endian; the audio register hands the halfword to the
    /// device as exactly one signed sample (its log grows by it) and
    /// touches neither RAM nor the UART; everything else faults with
    /// `StoreAccessFault` and changes nothing.
    pub fn write_halfword(&mut self, address: u32, halfword: u16) -> (r: Result<(), Trap>)
        requires
            old(self).wf(),
        ensures
            final(self).wf(),
            spec_ram_span(address, 2) ==> r == Ok::<(), Trap>(()) && final(self).ram() == old(
                self,
            ).ram().update(spec_ram_index(address), halfword as u8).update(
                spec_ram_index(address) + 1,
                (halfword >> 8) as u8,
            ) && final(self).uart == old(self).uart && final(self).audio == old(self).audio,
            address == PRIMITIVE_AUDIO_ADDRESS ==> r == Ok::<(), Trap>(()) && final(self).ram()
                == old(self).ram() && final(self).uart == old(self).uart
                && final(self).audio.handed_log() == old(self).audio.handed_log().push(halfword as i16),
            !spec_ram_span(address, 2) && address != PRIMITIVE_AUDIO_ADDRESS ==> r == Err::<
                (),
                Trap,
            >(Trap { tcause: TrapType::StoreAccessFault, tval: address }) && *final(self) == *old(self),
    {
        if RAM_ADDRESS <= address && address <= RAM_ADDRESS_END - 1 {
            let mem_adr = (address - RAM_ADDRESS) as usize;
            self.memory[mem_adr] = halfword as u8;
            self.memory[mem_adr + 1] = (halfword >> 8) as u8;
            Ok(())
        } else if address == PRIMITIVE_AUDIO_ADDRESS {
            self.audio.write(halfword as i16);
            Ok(())
        } else {
            Err(Trap { tcause: TrapType::StoreAccessFault, tval: address })
        }
    }

    /// Stores a byte. RAM addresses take the byte; the UART queue register
    /// appends the byte to the outbound queue and touches nothing else;
    /// everything else, the rest of the UART region included, faults with
    /// `StoreAccessFault` and changes nothing.
    pub fn write_byte(&mut self, address: u32, byte: u8) -> (r: Result<(), Trap>)
        requires
            old(self).wf(),
        ensures
            final(self).wf(),
            spec_ram_span(address, 1) ==> r == Ok::<(), Trap>(()) && final(self).ram() == old(
                self,
            ).ram().update(spec_ram_index(address), byte) && final(self).uart == old(self).uart
                && final(self).audio == old(self).audio,
            address == UART_ADDRESS ==> r == Ok::<(), Trap>(()) && final(self).ram() == old(
                self,
            ).ram() && final(self).uart.from_emu() == old(self).uart.from_emu().push(byte)
                && final(self).uart.to_emu() == old(self).uart.to_emu() && final(self).audio
                == old(self).audio,
            !spec_ram_span(address, 1) && address != UART_ADDRESS ==> r == Err::<(), Trap>(
                Trap { tcause: TrapType::StoreAccessFault, tval: address },
            ) && *final(self) == *old(self),
    {
        if RAM_ADDRESS <= address && address <= RAM_ADDRESS_END {
            self.memory[(address - RAM_ADDRESS) as usize] = byte;
            Ok(())
        } else if address == UART_ADDRESS {
            self.uart.emu_push(byte);
            Ok(())
        } else {
            Err(Trap { tcause: TrapType::StoreAccessFault, tval: address })
        }
    }

    /// Unchecked RAM write for the debug bridge: stores the byte and
    /// reports success for RAM addresses, reports failure and changes
    /// nothing everywhere else. Never faults.
    pub fn write_raw_to_ram(&mut self, address: u32, byte: u8) -> (r: bool)
        requires
            old(self).wf(),
        ensures
            final(self).wf(),
            spec_ram_span(address, 1) ==> r && final(self).ram() == old(self).ram().update(
                spec_ram_index(address),
                byte,
            ) && final(self).uart == old(self).uart && final(self).audio == old(self).audio,
            !spec_ram_span(address, 1) ==> !r && *final(self) == *old(self),
    {
        if RAM_ADDRESS <= address && address <= RAM_ADDRESS_END {
            self.memory[(address - RAM_ADDRESS) as usize] = byte;
            true
        } else {
            false
        }
    }

    /// Unchecked RAM read for the debug bridge: the byte for RAM
    /// addresses, `None` everywhere else. Never faults.
    pub fn read_raw_from_ram(&self, address: u32) -> (r: Option<u8>)
        requires
            self.wf(),
        ensures
            spec_ram_span(address, 1) ==> r == Some(self.ram()[spec_ram_index(address)]),
            !spec_ram_span(address, 1) ==> r is None,
    {
        if RAM_ADDRESS <= address && address <= RAM_ADDRESS_END {
            Some(self.memory[(address - RAM_ADDRESS) as usize])
        } else {
            None
        }
    }
}

fn le_word(b0: u8, b1: u8, b2: u8, b3: u8) -> (r: u32)
    ensures
        r == spec_le_word(b0, b1, b2, b3),
{
    (b0 as u32) | ((b1 as u32) << 8) | ((b2 as u32) << 16) | ((b3 as u32) << 24)
}

fn le_halfword(b0: u8, b1: u8) -> (r: u16)
    ensures
        r == spec_le_halfword(b0, b1),
{
    (b0 as u16) | ((b1 as u16) << 8)
}

} // verus!
