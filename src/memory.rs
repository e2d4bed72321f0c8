//! The two address spaces: instruction memory, and data memory whose
//! screen range turns each write into sixteen pixel events.
use vstd::prelude::*;

verus! {

/// Number of words in each address space.
pub const MEM_WORDS: usize = 0x8000;

/// First data address of the memory-mapped screen.
pub const SCREEN_BASE: u16 = 0x4000;

/// First data address past the memory-mapped screen.
pub const SCREEN_END: u16 = 0x6000;

/// Data address that a driver fills with the key currently pressed.
pub const KEYBOARD: u16 = 0x6000;

/// One pixel of the 512 x 256 screen set on or off.
#[derive(Clone, Copy, Debug, PartialEq, Eq, Structural)]
pub struct PixelEvent {
    pub x: u16,
    pub y: u16,
    pub on: bool,
}

/// The contents of a `Memory`.
pub struct MemState {
    pub rom: Seq<u16>,
    pub ram: Seq<u16>,
    /// Pixel events emitted and not yet taken, oldest first.
    pub events: Seq<PixelEvent>,
}

pub open spec fn in_screen(addr: u16) -> bool {
    SCREEN_BASE <= addr < SCREEN_END
}

/// Whether bit `b` of `v` is set.
pub open spec fn bit_set(v: u16, b: u16) -> bool {
    (v >> b) & 1 == 1
}

/// The event for pixel `i` (0 is leftmost, from bit 15) of the screen word
/// at `addr` holding `value`.
pub open spec fn pixel_event(addr: u16, value: u16, i: int) -> PixelEvent {
    PixelEvent {
        x: (((addr - SCREEN_BASE) % 32) * 16 + i) as u16,
        y: ((addr - SCREEN_BASE) / 32) as u16,
        on: bit_set(value, (15 - i) as u16),
    }
}

/// The events that writing `value` at data address `addr` emits: sixteen,
/// from bit 15 down to bit 0, inside the screen range; none elsewhere.
pub open spec fn write_events(addr: u16, value: u16) -> Seq<PixelEvent> {
    if in_screen(addr) {
        Seq::new(16, |i: int| pixel_event(addr, value, i))
    } else {
        Seq::empty()
    }
}

/// Writing `value` at data address `addr`; an address past data memory
/// changes nothing.
pub open spec fn store_spec(m: MemState, addr: u16, value: u16) -> MemState {
    if addr < MEM_WORDS {
        MemState {
            rom: m.rom,
            ram: m.ram.update(addr as int, value),
            events: m.events + write_events(addr, value),
        }
    } else {
        m
    }
}

/// Both memories zeroed, no pending events.
pub open spec fn zeroed_mem() -> MemState {
    MemState {
        rom: Seq::new(MEM_WORDS as nat, |i: int| 0u16),
        ram: Seq::new(MEM_WORDS as nat, |i: int| 0u16),
        events: Seq::empty(),
    }
}

/// Instruction memory after loading `words` from address 0.
pub open spec fn loaded_rom(rom: Seq<u16>, words: Seq<u16>) -> Seq<u16> {
    Seq::new(rom.len(), |i: int| if i < words.len() { words[i] } else { rom[i] })
}

/// Instruction and data memory, with the pixel events of screen writes
/// waiting to be taken by a display.
pub struct Memory {
    rom: Vec<u16>,
    ram: Vec<u16>,
    events: Vec<PixelEvent>,
}

impl View for Memory {
    type V = MemState;

    closed spec fn view(&self) -> MemState {
        MemState { rom: self.rom@, ram: self.ram@, events: self.events@ }
    }
}

fn zeros() -> (v: Vec<u16>)
    ensures
        v@ == Seq::new(MEM_WORDS as nat, |i: int| 0u16),
{
    let mut v: Vec<u16> = Vec::new();
    while v.len() < MEM_WORDS
        invariant
            v.len() <= MEM_WORDS,
            forall|i: int| 0 <= i < v.len() ==> v@[i] == 0u16,
        decreases MEM_WORDS - v.len(),
    {
        v.push(0);
    }
    assert(v@ =~= Seq::new(MEM_WORDS as nat, |i: int| 0u16));
    v
}

impl Memory {
    /// Both memories hold exactly `MEM_WORDS` words.
    pub closed spec fn wf(&self) -> bool {
        &&& self.rom@.len() == MEM_WORDS
        &&& self.ram@.len() == MEM_WORDS
    }

    pub fn new() -> (r: Memory)
        ensures
            r.wf(),
            r@ == zeroed_mem(),
    {
        Memory { rom: zeros(), ram: zeros(), events: Vec::new() }
    }

    pub fn read_instruction(&self, addr: u16) -> (r: u16)
        requires
            self.wf(),
            addr < MEM_WORDS,
        ensures
            r == self@.rom[addr as int],
    {
        self.rom[addr as usize]
    }

    pub fn read_data(&self, addr: u16) -> (r: u16)
        requires
            self.wf(),
            addr < MEM_WORDS,
        ensures
            r == self@.ram[addr as int],
    {
        self.ram[addr as usize]
    }

    /// Stores `value` at data address `addr` and, inside the screen range,
    /// emits one event per bit, leftmost pixel (bit 15) first.
    pub fn write_data(&mut self, addr: u16, value: u16)
        requires
            old(self).wf(),
        ensures
            final(self).wf(),
            final(self)@ == store_spec(old(self)@, addr, value),
    {
        if addr < 0x8000 {
            self.ram.set(addr as usize, value);
            if addr >= SCREEN_BASE && addr < SCREEN_END {
                let offset = addr - SCREEN_BASE;
                let row = offset / 32;
                let col = offset % 32;
                let ghost start = self.events@;
                let mut i: u16 = 0;
                while i < 16
                    invariant
                        i <= 16,
                        in_screen(addr),
                        self.rom@ == old(self)@.rom,
                        self.ram@ == old(self)@.ram.update(addr as int, value),
                        old(self).wf(),
                        offset == addr - SCREEN_BASE,
                        row == offset / 32,
                        col == offset % 32,
                        self.events@ =~= start + Seq::new(i as nat, |k: int| pixel_event(addr, value, k)),
                    decreases 16 - i,
                {
                    let on = (value >> (15 - i)) & 1 == 1;
                    self.events.push(PixelEvent { x: col * 16 + i, y: row, on });
                    i = i + 1;
                }
            }
        }
        proof {
            if addr < 0x8000 {
                assert(self.events@ =~= old(self)@.events + write_events(addr, value));
            }
        }
    }

    /// Overwrites instruction memory from address 0 with `words`.
    pub fn load_program(&mut self, words: &[u16])
        requires
            old(self).wf(),
            words@.len() <= MEM_WORDS,
        ensures
            final(self).wf(),
            final(self)@ == (MemState { rom: loaded_rom(old(self)@.rom, words@), ..old(self)@ }),
    {
        let mut i: usize = 0;
        while i < words.len()
            invariant
                i <= words@.len() <= MEM_WORDS,
                self.rom@.len() == MEM_WORDS,
                self.ram@ == old(self)@.ram,
                self.events@ == old(self)@.events,
                old(self)@.rom.len() == MEM_WORDS,
                forall|k: int|
                    0 <= k < MEM_WORDS ==> #[trigger] self.rom@[k] == (if k < i {
                        words@[k]
                    } else {
                        old(self)@.rom[k]
                    }),
            decreases words.len() - i,
        {
            self.rom.set(i, words[i]);
            i = i + 1;
        }
        assert(self.rom@ =~= loaded_rom(old(self)@.rom, words@));
    }

    /// Zeroes data memory and drops pending events; instruction memory stays.
    pub fn reset(&mut self)
        requires
            old(self).wf(),
        ensures
            final(self).wf(),
            final(self)@ == (MemState { ram: zeroed_mem().ram, events: Seq::empty(), ..old(self)@ }),
    {
        self.ram = zeros();
        self.events = Vec::new();
    }

    /// Hands out the pending pixel events, oldest first, and forgets them.
    pub fn take_events(&mut self) -> (r: Vec<PixelEvent>)
        requires
            old(self).wf(),
        ensures
            final(self).wf(),
            r@ == old(self)@.events,
            final(self)@ == (MemState { events: Seq::empty(), ..old(self)@ }),
    {
        let mut out: Vec<PixelEvent> = Vec::new();
        std::mem::swap(&mut out, &mut self.events);
        out
    }
}

} // verus!
