use vstd::prelude::*;

verus! {

/// The four phases of a scanline.
#[derive(Debug, Clone, Copy, PartialEq, Eq, Structural)]
pub enum Mode {
    ScanlineOam,
    ScanlineVram,
    Hblank,
    Vblank,
}

pub const OAM_SCAN_CYCLES: u32 = 80;
pub const VRAM_SCAN_CYCLES: u32 = 172;
pub const HBLANK_CYCLES: u32 = 204;
pub const VBLANK_LINE_CYCLES: u32 = 456;
/// The first scanline of vertical blank; lines 0 to 143 are visible.
pub const VBLANK_FIRST_LINE: u8 = 144;
pub const LAST_LINE: u8 = 153;

/// How many cycles a mode lasts before the next one starts.
pub open spec fn mode_cycles(mode: Mode) -> u32 {
    match mode {
        Mode::ScanlineOam => OAM_SCAN_CYCLES,
        Mode::ScanlineVram => VRAM_SCAN_CYCLES,
        Mode::Hblank => HBLANK_CYCLES,
        Mode::Vblank => VBLANK_LINE_CYCLES,
    }
}

/// The timing state of the graphics unit: its mode, the cycles spent in the
/// mode so far, and the current scanline.
#[derive(Debug, Clone, Copy, PartialEq, Eq, Structural)]
pub struct Gpu {
    pub mode: Mode,
    pub modeclock: u32,
    pub line: u8,
}

impl Gpu {
    /// Lines 144 to 153 are vertical blank and no other line is; the mode
    /// clock stays below the length of the mode.
    pub open spec fn wf(self) -> bool {
        &&& self.line <= LAST_LINE
        &&& (self.mode == Mode::Vblank <==> self.line >= VBLANK_FIRST_LINE)
        &&& self.modeclock < mode_cycles(self.mode)
    }

    /// The state after `ticks` more cycles.
    pub open spec fn advanced(self, ticks: u8) -> Gpu {
        let clock = self.modeclock + ticks;
        if clock < mode_cycles(self.mode) {
            Gpu { modeclock: clock as u32, ..self }
        } else {
            match self.mode {
                Mode::ScanlineOam => Gpu { mode: Mode::ScanlineVram, modeclock: 0, ..self },
                Mode::ScanlineVram => Gpu { mode: Mode::Hblank, modeclock: 0, ..self },
                Mode::Hblank => if self.line + 1 == VBLANK_FIRST_LINE {
                    Gpu { mode: Mode::Vblank, modeclock: 0, line: (self.line + 1) as u8 }
                } else {
                    Gpu { mode: Mode::ScanlineOam, modeclock: 0, line: (self.line + 1) as u8 }
                },
                Mode::Vblank => if self.line + 1 > LAST_LINE {
                    Gpu { mode: Mode::ScanlineOam, modeclock: 0, line: 0 }
                } else {
                    Gpu { modeclock: 0, line: (self.line + 1) as u8, ..self }
                },
            }
        }
    }

    pub open spec fn spec_power_on() -> Gpu {
        Gpu { mode: Mode::Hblank, modeclock: 0, line: 0 }
    }

    /// Power-on state: horizontal blank on line 0.
    pub fn new() -> (r: Self)
        ensures
            r == Gpu::spec_power_on(),
            r.wf(),
    {
        Self { mode: Mode::Hblank, modeclock: 0, line: 0 }
    }

    /// Advances the timing by the cycles the CPU just spent. Returns whether
    /// a frame was completed, which is when vertical blank starts.
    pub fn step(&mut self, ticks: u8) -> (frame_complete: bool)
        requires
            old(self).wf(),
        ensures
            *final(self) == old(self).advanced(ticks),
            final(self).wf(),
            frame_complete == (old(self).mode != Mode::Vblank && final(self).mode == Mode::Vblank),
    {
        self.modeclock = self.modeclock + ticks as u32;
        let mut frame_complete = false;
        match self.mode {
            Mode::ScanlineOam => {
                if self.modeclock >= OAM_SCAN_CYCLES {
                    self.mode = Mode::ScanlineVram;
                    self.modeclock = 0;
                }
            },
            Mode::ScanlineVram => {
                if self.modeclock >= VRAM_SCAN_CYCLES {
                    self.mode = Mode::Hblank;
                    self.modeclock = 0;
                }
            },
            Mode::Hblank => {
                if self.modeclock >= HBLANK_CYCLES {
                    self.modeclock = 0;
                    self.line = self.line + 1;
                    if self.line == VBLANK_FIRST_LINE {
                        self.mode = Mode::Vblank;
                        frame_complete = true;
                    } else {
                        self.mode = Mode::ScanlineOam;
                    }
                }
            },
            Mode::Vblank => {
                if self.modeclock >= VBLANK_LINE_CYCLES {
                    self.modeclock = 0;
                    self.line = self.line + 1;
                    if self.line > LAST_LINE {
                        self.mode = Mode::ScanlineOam;
                        self.line = 0;
                    }
                }
            },
        }
        frame_complete
    }
}

/// The state after one visible scanline's worth of cycles: OAM scan, VRAM
/// scan and horizontal blank in turn.
pub open spec fn after_scanline(g: Gpu) -> Gpu {
    g.advanced(80).advanced(172).advanced(204)
}

pub open spec fn after_scanlines(g: Gpu, n: nat) -> Gpu
    decreases n,
{
    if n == 0 {
        g
    } else {
        after_scanline(after_scanlines(g, (n - 1) as nat))
    }
}

/// From the start of an OAM scan, 80 cycles end the scan: the unit is in VRAM
/// scan with its mode clock back at zero.
pub proof fn lemma_oam_scan_ends(line: u8)
    requires
        line < VBLANK_FIRST_LINE,
    ensures
        (Gpu { mode: Mode::ScanlineOam, modeclock: 0, line }).advanced(80) == (Gpu {
            mode: Mode::ScanlineVram,
            modeclock: 0,
            line,
        }),
{
}

/// A scanline's worth of cycles from the start of a visible line's OAM scan
/// starts the next line, in OAM scan, or in vertical blank after line 143.
pub proof fn lemma_one_scanline(line: u8)
    requires
        line < VBLANK_FIRST_LINE,
    ensures
        after_scanline(Gpu { mode: Mode::ScanlineOam, modeclock: 0, line }) == (if line + 1
            == VBLANK_FIRST_LINE {
            Gpu { mode: Mode::Vblank, modeclock: 0, line: VBLANK_FIRST_LINE }
        } else {
            Gpu { mode: Mode::ScanlineOam, modeclock: 0, line: (line + 1) as u8 }
        }),
{
}

/// Repeating the 80 + 172 + 204 cycle sequence from OAM scan on line 0
/// walks the visible lines one by one.
pub proof fn lemma_scanlines(n: nat)
    requires
        n < VBLANK_FIRST_LINE,
    ensures
        after_scanlines(Gpu { mode: Mode::ScanlineOam, modeclock: 0, line: 0 }, n) == (Gpu {
            mode: Mode::ScanlineOam,
            modeclock: 0,
            line: n as u8,
        }),
    decreases n,
{
    if n > 0 {
        lemma_scanlines((n - 1) as nat);
        lemma_one_scanline((n - 1) as u8);
    }
}

/// Repeating the 80 + 172 + 204 cycle sequence 144 times from OAM scan on
/// line 0 reaches vertical blank on line 144.
pub proof fn lemma_frame_reaches_vblank()
    ensures
        after_scanlines(Gpu { mode: Mode::ScanlineOam, modeclock: 0, line: 0 }, 144) == (Gpu {
            mode: Mode::Vblank,
            modeclock: 0,
            line: VBLANK_FIRST_LINE,
        }),
{
    lemma_scanlines(143);
    lemma_one_scanline(143);
}

} // verus!
