//! Clock Control Unit peripheral.
//!
//! Models the CCU register block: the byte offsets of its registers, the
//! bitfield encodings of the bus-gating/reset and clock-source/divider
//! registers, and the ordered read-modify-write sequences that bring a
//! peripheral clock into and out of operation.

use crate::time::Hz;
use vstd::prelude::*;

verus! {

/// Clock configuration on current SoC.
#[derive(Copy, Clone, Debug)]
pub struct Clocks {
    /// PSI clock frequency.
    pub psi: Hz,
    /// Advanced Peripheral Bus 1 clock frequency.
    pub apb1: Hz,
}

// --- Register layout ---
//
// The hardware register block is a fixed byte layout from the CCU base
// address; everything between the registers of interest is reserved padding.
// The word counts below are the layout's single source of truth, and the
// byte offsets computed from them are hard compatibility constants of the
// SoC (see `lemma_register_offsets`).

/// Reserved 32-bit words from the block base up to `uart_bgr`.
pub const RESERVED0_WORDS: usize = 579;
/// Reserved 32-bit words between `uart_bgr` and the `spi_clk` pair.
pub const RESERVED1_WORDS: usize = 12;
/// Reserved 32-bit words between the `spi_clk` pair and `spi_bgr`.
pub const RESERVED2_WORDS: usize = 9;

/// Byte offset of the UART Bus Gating Reset register.
pub const UART_BGR_OFFSET: usize = 0x90c;
/// Byte offset of the first of the two SPI Clock registers.
pub const SPI_CLK_OFFSET: usize = 0x940;
/// Byte offset of the SPI Bus Gating Reset register.
pub const SPI_BGR_OFFSET: usize = 0x96c;

/// Law: the registers lie at their documented byte offsets. Each offset is
/// exactly the sum of the sizes of everything laid out before it, so the
/// padding word counts force `uart_bgr` to 0x90c, the SPI clock pair to
/// 0x940 and `spi_bgr` to 0x96c.
pub proof fn lemma_register_offsets()
    ensures
        UART_BGR_OFFSET == RESERVED0_WORDS * 4,
        SPI_CLK_OFFSET == UART_BGR_OFFSET + 4 + RESERVED1_WORDS * 4,
        SPI_BGR_OFFSET == SPI_CLK_OFFSET + 2 * 4 + RESERVED2_WORDS * 4,
{
}

// --- Bit-level model of the gating/reset registers ---
//
// Per instance index `i` (0-based, below 16), bit `i` of a gating register
// is the clock-gate enable bit (1 = clock passes, 0 = masked) and bit
// `i + 16` is the reset-deassert bit (1 = out of reset, 0 = held in reset).

/// True when bit `i` of `v` is set.
pub open spec fn bit_is_set(v: u32, i: u32) -> bool {
    v & (1u32 << i) != 0
}

/// `v` with the clock-gate bit of instance `i` cleared (clock masked).
pub open spec fn spec_gate_mask(v: u32, i: u32) -> u32 {
    v & !(1u32 << i)
}

/// `v` with the clock-gate bit of instance `i` set (clock passes).
pub open spec fn spec_gate_pass(v: u32, i: u32) -> u32 {
    v | (1u32 << i)
}

/// `v` with the reset-deassert bit of instance `i` cleared (held in reset).
pub open spec fn spec_assert_reset(v: u32, i: u32) -> u32 {
    v & !((1u32 << i) << 16)
}

/// `v` with the reset-deassert bit of instance `i` set (out of reset).
pub open spec fn spec_deassert_reset(v: u32, i: u32) -> u32 {
    v | ((1u32 << i) << 16)
}

/// The safe halted value: gate masked and reset asserted for instance `i`.
/// This is the single power-down write and the first bring-up write.
pub open spec fn spec_halt(v: u32, i: u32) -> u32 {
    spec_assert_reset(spec_gate_mask(v, i), i)
}

/// The running value: gate passed and reset deasserted for instance `i`.
/// This is the second bring-up write.
pub open spec fn spec_run(v: u32, i: u32) -> u32 {
    spec_deassert_reset(spec_gate_pass(v, i), i)
}

/// Law: each gate/reset transform touches exactly one bit. For any starting
/// value `v`, instance index `i` and bit position `j`, the transformed value
/// agrees with `v` on every bit but the transform's own, which is forced to
/// its target state.
pub proof fn lemma_transform_touches_single_bit(v: u32, i: u32, j: u32)
    requires
        i < 16,
        j < 32,
    ensures
        bit_is_set(spec_gate_mask(v, i), j) == (j != i && bit_is_set(v, j)),
        bit_is_set(spec_gate_pass(v, i), j) == (j == i || bit_is_set(v, j)),
        bit_is_set(spec_assert_reset(v, i), j) == (j != i + 16 && bit_is_set(v, j)),
        bit_is_set(spec_deassert_reset(v, i), j) == (j == i + 16 || bit_is_set(v, j)),
{
    assert(bit_is_set(spec_gate_mask(v, i), j) == (j != i && bit_is_set(v, j)))
        by (bit_vector)
        requires i < 16, j < 32,
    ;
    assert(bit_is_set(spec_gate_pass(v, i), j) == (j == i || bit_is_set(v, j)))
        by (bit_vector)
        requires i < 16, j < 32,
    ;
    assert(bit_is_set(spec_assert_reset(v, i), j) == (j != i + 16 && bit_is_set(v, j)))
        by (bit_vector)
        requires i < 16, j < 32,
    ;
    assert(bit_is_set(spec_deassert_reset(v, i), j) == (j == i + 16 || bit_is_set(v, j)))
        by (bit_vector)
        requires i < 16, j < 32,
    ;
}

/// Law: opposite transforms are mutual inverses wherever the starting bit
/// already has the state the second transform restores. Masking then passing
/// instance `i`'s clock gate gives back `v` exactly when `v`'s gate bit was
/// set, and dually for the other three orders and for the reset bit.
pub proof fn lemma_gate_reset_symmetry(v: u32, i: u32)
    requires
        i < 16,
    ensures
        bit_is_set(v, i) ==> spec_gate_pass(spec_gate_mask(v, i), i) == v,
        !bit_is_set(v, i) ==> spec_gate_mask(spec_gate_pass(v, i), i) == v,
        bit_is_set(v, (i + 16) as u32) ==> spec_deassert_reset(spec_assert_reset(v, i), i) == v,
        !bit_is_set(v, (i + 16) as u32) ==> spec_assert_reset(spec_deassert_reset(v, i), i) == v,
{
    assert(bit_is_set(v, i) ==> spec_gate_pass(spec_gate_mask(v, i), i) == v)
        by (bit_vector)
        requires i < 16,
    ;
    assert(!bit_is_set(v, i) ==> spec_gate_mask(spec_gate_pass(v, i), i) == v)
        by (bit_vector)
        requires i < 16,
    ;
    assert(bit_is_set(v, (i + 16) as u32) ==> spec_deassert_reset(spec_assert_reset(v, i), i) == v)
        by (bit_vector)
        requires i < 16,
    ;
    assert(!bit_is_set(v, (i + 16) as u32) ==> spec_assert_reset(spec_deassert_reset(v, i), i) == v)
        by (bit_vector)
        requires i < 16,
    ;
}

/// Law: the two bring-up write values. The first, `spec_halt(v, i)`, has
/// instance `i`'s clock gate masked and its reset asserted; the second,
/// `spec_run(spec_halt(v, i), i)`, has its clock gate passed and the reset
/// deasserted; and on every other bit position `j` both agree with `v`.
pub proof fn lemma_bringup_write_values(v: u32, i: u32, j: u32)
    requires
        i < 16,
        j < 32,
    ensures
        !bit_is_set(spec_halt(v, i), i),
        !bit_is_set(spec_halt(v, i), (i + 16) as u32),
        bit_is_set(spec_run(spec_halt(v, i), i), i),
        bit_is_set(spec_run(spec_halt(v, i), i), (i + 16) as u32),
        j != i && j != i + 16 ==> bit_is_set(spec_halt(v, i), j) == bit_is_set(v, j),
        j != i && j != i + 16 ==> bit_is_set(spec_run(spec_halt(v, i), i), j) == bit_is_set(v, j),
{
    assert(!bit_is_set(spec_halt(v, i), i) && !bit_is_set(spec_halt(v, i), (i + 16) as u32))
        by (bit_vector)
        requires i < 16,
    ;
    assert(bit_is_set(spec_run(spec_halt(v, i), i), i)
        && bit_is_set(spec_run(spec_halt(v, i), i), (i + 16) as u32))
        by (bit_vector)
        requires i < 16,
    ;
    assert(j != i && j != i + 16 ==> bit_is_set(spec_halt(v, i), j) == bit_is_set(v, j)
        && bit_is_set(spec_run(spec_halt(v, i), i), j) == bit_is_set(v, j))
        by (bit_vector)
        requires i < 16, j < 32,
    ;
}

/// Law: non-interference across instances. A full bring-up of instance `i`
/// leaves every other instance `j`'s gate bit and reset bit unchanged.
pub proof fn lemma_bringup_noninterference(v: u32, i: u32, j: u32)
    requires
        i < 16,
        j < 16,
        j != i,
    ensures
        bit_is_set(spec_run(spec_halt(v, i), i), j) == bit_is_set(v, j),
        bit_is_set(spec_run(spec_halt(v, i), i), (j + 16) as u32) == bit_is_set(v, (j + 16) as u32),
        bit_is_set(spec_halt(v, i), j) == bit_is_set(v, j),
        bit_is_set(spec_halt(v, i), (j + 16) as u32) == bit_is_set(v, (j + 16) as u32),
{
    assert(bit_is_set(spec_run(spec_halt(v, i), i), j) == bit_is_set(v, j)
        && bit_is_set(spec_run(spec_halt(v, i), i), (j + 16) as u32) == bit_is_set(v, (j + 16) as u32)
        && bit_is_set(spec_halt(v, i), j) == bit_is_set(v, j)
        && bit_is_set(spec_halt(v, i), (j + 16) as u32) == bit_is_set(v, (j + 16) as u32))
        by (bit_vector)
        requires i < 16, j < 16, j != i,
    ;
}

// --- Bit-level model of the SPI clock registers ---
//
// Each SPI instance has a dedicated clock register with three sub-fields:
// the clock-source selector (3 bits at bit offset 24, valid encodings 0..=4),
// divide factor N (2 bits at bit offset 8, encodings 0..=3) and divide
// factor M (4 bits at bit offset 0, raw value 0..=15). No field overlaps
// another, and every bit outside the three fields is preserved by the
// encoders.

/// Clock divide factor N.
#[derive(Clone, Copy, Debug, Eq, PartialEq, Structural)]
pub enum FactorN {
    /// Don't divide.
    N1,
    /// Divide frequency by 2.
    N2,
    /// Divide frequency by 4.
    N4,
    /// Divide frequency by 8.
    N8,
}

/// SPI clock source.
#[derive(Clone, Copy, Debug, Eq, PartialEq, Structural)]
pub enum SpiClockSource {
    /// HOSC.
    Hosc,
    /// Peripheral PLL (1x).
    PllPeri1x,
    /// Peripheral PLL (2x).
    PllPeri2x,
    /// Audio PLL (div 2).
    PllAudio1Div2,
    /// Audio PLL (div 5).
    PllAudio1Div5,
}

/// The clock-source selector field of a clock register value.
pub open spec fn spec_source_field(v: u32) -> u32 {
    (v >> 24) & 0x7
}

/// The divide factor N field of a clock register value.
pub open spec fn spec_factor_n_field(v: u32) -> u32 {
    (v >> 8) & 0x3
}

/// The divide factor M field of a clock register value.
pub open spec fn spec_factor_m_field(v: u32) -> u32 {
    v & 0xf
}

/// The fixed numeric code of a clock source selection.
pub open spec fn spec_source_encoding(s: SpiClockSource) -> u32 {
    match s {
        SpiClockSource::Hosc => 0,
        SpiClockSource::PllPeri1x => 1,
        SpiClockSource::PllPeri2x => 2,
        SpiClockSource::PllAudio1Div2 => 3,
        SpiClockSource::PllAudio1Div5 => 4,
    }
}

/// The clock source a valid selector encoding stands for; encodings above 4
/// are unassigned and decode to no source.
pub open spec fn spec_decode_source(e: u32) -> SpiClockSource
    recommends
        e <= 4,
{
    if e == 0 {
        SpiClockSource::Hosc
    } else if e == 1 {
        SpiClockSource::PllPeri1x
    } else if e == 2 {
        SpiClockSource::PllPeri2x
    } else if e == 3 {
        SpiClockSource::PllAudio1Div2
    } else {
        SpiClockSource::PllAudio1Div5
    }
}

/// The fixed numeric code of a divide factor N selection.
pub open spec fn spec_factor_n_encoding(n: FactorN) -> u32 {
    match n {
        FactorN::N1 => 0,
        FactorN::N2 => 1,
        FactorN::N4 => 2,
        FactorN::N8 => 3,
    }
}

/// The divide factor N a 2-bit encoding stands for.
pub open spec fn spec_decode_factor_n(e: u32) -> FactorN
    recommends
        e <= 3,
{
    if e == 0 {
        FactorN::N1
    } else if e == 1 {
        FactorN::N2
    } else if e == 2 {
        FactorN::N4
    } else {
        FactorN::N8
    }
}

/// `v` with the clock-source selector field set to `s`'s encoding and every
/// other bit unchanged.
pub open spec fn spec_with_source(v: u32, s: SpiClockSource) -> u32 {
    (v & !(0x7u32 << 24)) | (spec_source_encoding(s) << 24)
}

/// `v` with the divide factor N field set to `n`'s encoding and every other
/// bit unchanged.
pub open spec fn spec_with_factor_n(v: u32, n: FactorN) -> u32 {
    (v & !(0x3u32 << 8)) | (spec_factor_n_encoding(n) << 8)
}

/// `v` with the divide factor M field set to `m` and every other bit
/// unchanged.
pub open spec fn spec_with_factor_m(v: u32, m: u32) -> u32 {
    (v & !0xfu32) | m
}

/// Law: round trips of the three codecs. Encoding a clock source, a factor N
/// or a factor M into any starting register value and decoding the same
/// field gives back the original selection.
pub proof fn lemma_codec_roundtrip(v: u32, s: SpiClockSource, n: FactorN, m: u32)
    requires
        m <= 15,
    ensures
        spec_source_field(spec_with_source(v, s)) == spec_source_encoding(s),
        spec_decode_source(spec_source_field(spec_with_source(v, s))) == s,
        spec_factor_n_field(spec_with_factor_n(v, n)) == spec_factor_n_encoding(n),
        spec_decode_factor_n(spec_factor_n_field(spec_with_factor_n(v, n))) == n,
        spec_factor_m_field(spec_with_factor_m(v, m)) == m,
{
    let es = spec_source_encoding(s);
    let en = spec_factor_n_encoding(n);
    assert(((v & !(0x7u32 << 24)) | (es << 24)) >> 24 & 0x7 == es)
        by (bit_vector)
        requires es <= 4,
    ;
    assert(((v & !(0x3u32 << 8)) | (en << 8)) >> 8 & 0x3 == en)
        by (bit_vector)
        requires en <= 3,
    ;
    assert(((v & !0xfu32) | m) & 0xf == m)
        by (bit_vector)
        requires m <= 15,
    ;
}

/// Law: the three encoders only move their own field. Setting the source,
/// factor N and factor M in turn yields a value whose three fields hold
/// exactly the encoded selections and whose every other bit equals the
/// starting value's, bit `j` by bit `j`.
pub proof fn lemma_configure_fields(v: u32, s: SpiClockSource, n: FactorN, m: u32, j: u32)
    requires
        m <= 15,
        j < 32,
    ensures
        ({
            let w = spec_with_factor_n(spec_with_factor_m(spec_with_source(v, s), m), n);
            &&& spec_source_field(w) == spec_source_encoding(s)
            &&& spec_factor_n_field(w) == spec_factor_n_encoding(n)
            &&& spec_factor_m_field(w) == m
            &&& !(24 <= j < 27) && !(8 <= j < 10) && !(j < 4) ==> bit_is_set(w, j) == bit_is_set(
                v,
                j,
            )
        }),
{
    let es = spec_source_encoding(s);
    let en = spec_factor_n_encoding(n);
    let w0 = spec_with_source(v, s);
    let w1 = spec_with_factor_m(w0, m);
    let w = spec_with_factor_n(w1, n);
    assert(es <= 4);
    assert(en <= 3);
    assert(w == (((((v & !(0x7u32 << 24)) | (es << 24)) & !0xfu32) | m) & !(0x3u32 << 8)) | (en
        << 8));
    assert({
        let x = (((((v & !(0x7u32 << 24)) | (es << 24)) & !0xfu32) | m) & !(0x3u32 << 8)) | (en
            << 8);
        &&& x >> 24 & 0x7 == es
        &&& x >> 8 & 0x3 == en
        &&& x & 0xf == m
        &&& !(24 <= j < 27) && !(8 <= j < 10) && !(j < 4) ==> (x & (1u32 << j) != 0) == (v & (1u32
            << j) != 0)
    })
        by (bit_vector)
        requires es <= 4, en <= 3, m <= 15, j < 32,
    ;
}

/// SPI Clock Register.
#[derive(Clone, Copy, PartialEq, Eq, Structural, Debug)]
pub struct SpiClock(pub u32);

impl SpiClock {
    /// Get SPI clock source.
    ///
    /// A selector encoding above 4 is unassigned: observing one means the
    /// hardware state or the caller's programming model is corrupt, so such
    /// values are ruled out up front rather than decoded.
    pub fn clock_source(self) -> (s: SpiClockSource)
        requires
            spec_source_field(self.0) <= 4,
        ensures
            s == spec_decode_source(spec_source_field(self.0)),
    {
        let e = (self.0 >> 24) & 0x7;
        if e == 0 {
            SpiClockSource::Hosc
        } else if e == 1 {
            SpiClockSource::PllPeri1x
        } else if e == 2 {
            SpiClockSource::PllPeri2x
        } else if e == 3 {
            SpiClockSource::PllAudio1Div2
        } else {
            SpiClockSource::PllAudio1Div5
        }
    }

    /// Set SPI clock source.
    pub fn set_clock_source(self, val: SpiClockSource) -> (r: Self)
        ensures
            r.0 == spec_with_source(self.0, val),
    {
        let e: u32 = match val {
            SpiClockSource::Hosc => 0,
            SpiClockSource::PllPeri1x => 1,
            SpiClockSource::PllPeri2x => 2,
            SpiClockSource::PllAudio1Div2 => 3,
            SpiClockSource::PllAudio1Div5 => 4,
        };
        Self((self.0 & !(0x7u32 << 24)) | (e << 24))
    }

    /// Get SPI clock divide factor N.
    pub fn factor_n(self) -> (n: FactorN)
        ensures
            n == spec_decode_factor_n(spec_factor_n_field(self.0)),
    {
        let e = (self.0 >> 8) & 0x3;
        proof {
            let v = self.0;
            assert(v >> 8 & 0x3 <= 3) by (bit_vector);
        }
        if e == 0 {
            FactorN::N1
        } else if e == 1 {
            FactorN::N2
        } else if e == 2 {
            FactorN::N4
        } else {
            FactorN::N8
        }
    }

    /// Set SPI clock divide factor N.
    pub fn set_factor_n(self, val: FactorN) -> (r: Self)
        ensures
            r.0 == spec_with_factor_n(self.0, val),
    {
        let e: u32 = match val {
            FactorN::N1 => 0,
            FactorN::N2 => 1,
            FactorN::N4 => 2,
            FactorN::N8 => 3,
        };
        Self((self.0 & !(0x3u32 << 8)) | (e << 8))
    }

    /// Get SPI clock divide factor M.
    pub fn factor_m(self) -> (m: u8)
        ensures
            m == spec_factor_m_field(self.0),
            m <= 15,
    {
        proof {
            let v = self.0;
            assert(v & 0xf <= 15) by (bit_vector);
        }
        (self.0 & 0xf) as u8
    }

    /// Set SPI clock divide factor M.
    ///
    /// Value `val` should be in 0 ..= 15.
    pub fn set_factor_m(self, val: u8) -> (r: Self)
        requires
            val <= 15,
        ensures
            r.0 == spec_with_factor_m(self.0, val as u32),
    {
        Self((self.0 & !0xfu32) | val as u32)
    }
}

/// UART Bus Gating Reset register.
#[derive(Clone, Copy, PartialEq, Eq, Structural, Debug)]
pub struct UartBusGating(pub u32);

impl UartBusGating {
    /// Disable clock gate for UART `i`.
    pub fn gate_mask(self, i: u32) -> (r: Self)
        requires
            i < 16,
        ensures
            r.0 == spec_gate_mask(self.0, i),
    {
        Self(self.0 & !(1u32 << i))
    }

    /// Enable clock gate for UART `i`.
    pub fn gate_pass(self, i: u32) -> (r: Self)
        requires
            i < 16,
        ensures
            r.0 == spec_gate_pass(self.0, i),
    {
        Self(self.0 | (1u32 << i))
    }

    /// Assert reset signal for UART `i`.
    pub fn assert_reset(self, i: u32) -> (r: Self)
        requires
            i < 16,
        ensures
            r.0 == spec_assert_reset(self.0, i),
    {
        Self(self.0 & !((1u32 << i) << 16))
    }

    /// Deassert reset signal for UART `i`.
    pub fn deassert_reset(self, i: u32) -> (r: Self)
        requires
            i < 16,
        ensures
            r.0 == spec_deassert_reset(self.0, i),
    {
        Self(self.0 | ((1u32 << i) << 16))
    }
}

/// SPI Bus Gating Reset register.
#[derive(Clone, Copy, PartialEq, Eq, Structural, Debug)]
pub struct SpiBusGating(pub u32);

impl SpiBusGating {
    /// Disable clock gate for SPI `i`.
    pub fn gate_mask(self, i: u32) -> (r: Self)
        requires
            i < 16,
        ensures
            r.0 == spec_gate_mask(self.0, i),
    {
        Self(self.0 & !(1u32 << i))
    }

    /// Enable clock gate for SPI `i`.
    pub fn gate_pass(self, i: u32) -> (r: Self)
        requires
            i < 16,
        ensures
            r.0 == spec_gate_pass(self.0, i),
    {
        Self(self.0 | (1u32 << i))
    }

    /// Assert reset signal for SPI `i`.
    pub fn assert_reset(self, i: u32) -> (r: Self)
        requires
            i < 16,
        ensures
            r.0 == spec_assert_reset(self.0, i),
    {
        Self(self.0 & !((1u32 << i) << 16))
    }

    /// Deassert reset signal for SPI `i`.
    pub fn deassert_reset(self, i: u32) -> (r: Self)
        requires
            i < 16,
        ensures
            r.0 == spec_deassert_reset(self.0, i),
    {
        Self(self.0 | ((1u32 << i) << 16))
    }
}

/// Model of one 32-bit hardware register: the value a read returns now,
/// and the ordered history of every value written, oldest first. A write
/// is a single synchronous access; the history makes the write sequencing
/// of the operations below part of their contracts.
#[derive(Clone, Copy)]
pub struct Reg<T: Copy> {
    /// The value a read returns now.
    pub value: T,
    /// Every value written so far, in write order.
    pub writes: Ghost<Seq<T>>,
}

impl<T: Copy> Reg<T> {
    /// A register model holding `value`, with no writes recorded yet.
    pub fn new(value: T) -> (r: Self)
        ensures
            r.value == value,
            r.writes@ == Seq::<T>::empty(),
    {
        Reg { value, writes: Ghost(Seq::empty()) }
    }

    /// Read the current value.
    pub fn read(&self) -> (v: T)
        ensures
            v == self.value,
    {
        self.value
    }

    /// Write `v`: it becomes the current value and is appended to the
    /// write history.
    pub fn write(&mut self, v: T)
        ensures
            final(self).value == v,
            final(self).writes@ == old(self).writes@.push(v),
    {
        self.writes = Ghost(self.writes@.push(v));
        self.value = v;
    }
}

/// Clock Control Unit registers.
///
/// Models the CCU register block as the registers of interest holding plain
/// values; their fixed byte offsets within the hardware block are the
/// layout constants above (see `lemma_register_offsets`).
pub struct RegisterBlock {
    /// 0x90c - UART Bus Gating Reset register.
    pub uart_bgr: Reg<UartBusGating>,
    /// 0x940..=0x944 - SPI0 Clock Register and SPI1 Clock Register.
    pub spi_clk: [Reg<SpiClock>; 2],
    /// 0x96c - SPI Bus Gating Reset register.
    pub spi_bgr: Reg<SpiBusGating>,
}

impl RegisterBlock {
    /// A snapshot of the block from the current value of each register,
    /// with empty write histories.
    pub fn new(uart_bgr: UartBusGating, spi_clk0: SpiClock, spi_clk1: SpiClock, spi_bgr: SpiBusGating) -> (r: Self)
        ensures
            r.uart_bgr.value == uart_bgr,
            r.uart_bgr.writes@ == Seq::<UartBusGating>::empty(),
            r.spi_clk[0].value == spi_clk0,
            r.spi_clk[0].writes@ == Seq::<SpiClock>::empty(),
            r.spi_clk[1].value == spi_clk1,
            r.spi_clk[1].writes@ == Seq::<SpiClock>::empty(),
            r.spi_bgr.value == spi_bgr,
            r.spi_bgr.writes@ == Seq::<SpiBusGating>::empty(),
    {
        RegisterBlock {
            uart_bgr: Reg::new(uart_bgr),
            spi_clk: [Reg::new(spi_clk0), Reg::new(spi_clk1)],
            spi_bgr: Reg::new(spi_bgr),
        }
    }

    /// Byte offset of `uart_bgr` within the hardware block: everything
    /// before it is the reserved padding.
    pub fn uart_bgr_offset() -> (n: usize)
        ensures
            n == UART_BGR_OFFSET,
    {
        RESERVED0_WORDS * 4
    }

    /// Byte offset of the `spi_clk` pair within the hardware block.
    pub fn spi_clk_offset() -> (n: usize)
        ensures
            n == SPI_CLK_OFFSET,
    {
        RESERVED0_WORDS * 4 + 4 + RESERVED1_WORDS * 4
    }

    /// Byte offset of `spi_bgr` within the hardware block.
    pub fn spi_bgr_offset() -> (n: usize)
        ensures
            n == SPI_BGR_OFFSET,
    {
        RESERVED0_WORDS * 4 + 4 + RESERVED1_WORDS * 4 + 2 * 4 + RESERVED2_WORDS * 4
    }
}

/// Peripheral that can be clock gated by CCU.
///
/// Every operation is a caller-synchronized read-modify-write sequence on a
/// gating register whose bits are shared between instances of one
/// peripheral kind: the caller must ensure that no two operations touch the
/// same physical register concurrently.
pub trait ClockGate {
    /// Index of the clock-gate and reset bit pair this peripheral instance
    /// owns in its gating register.
    spec fn index() -> u32;

    /// Current raw value of the gating register this peripheral kind
    /// shares.
    spec fn gate_value(c: RegisterBlock) -> u32;

    /// Raw values written to that gating register so far, in write order.
    spec fn gate_writes(c: RegisterBlock) -> Seq<u32>;

    /// True when every register of the block but that gating register is
    /// unchanged between `pre` and `post`.
    spec fn rest_unchanged(pre: RegisterBlock, post: RegisterBlock) -> bool;

    /// Reset this peripheral by provided `ccu`: exactly two ordered writes
    /// to its gating register, first into the safe halted state (gate
    /// masked, reset asserted), then into the running state (gate passed,
    /// reset deasserted).
    fn reset(ccu: &mut RegisterBlock)
        requires
            Self::index() < 16,
        ensures
            ({
                let v0 = Self::gate_value(*old(ccu));
                let w1 = spec_halt(v0, Self::index());
                let w2 = spec_run(w1, Self::index());
                &&& Self::gate_value(*final(ccu)) == w2
                &&& Self::gate_writes(*final(ccu)) == Self::gate_writes(*old(ccu)).push(w1).push(
                    w2,
                )
                &&& Self::rest_unchanged(*old(ccu), *final(ccu))
            }),
    ;

    /// Free this peripheral by provided `ccu`: exactly one write to its
    /// gating register, into the safe halted state (gate masked, reset
    /// asserted).
    fn free(ccu: &mut RegisterBlock)
        requires
            Self::index() < 16,
        ensures
            ({
                let w = spec_halt(Self::gate_value(*old(ccu)), Self::index());
                &&& Self::gate_value(*final(ccu)) == w
                &&& Self::gate_writes(*final(ccu)) == Self::gate_writes(*old(ccu)).push(w)
                &&& Self::rest_unchanged(*old(ccu), *final(ccu))
            }),
    ;
}

/// Peripheral whose clock can be configurated by CCU.
pub trait ClockConfig {
    /// Type of clock source.
    type Source;

    /// True when this peripheral instance owns a dedicated clock register
    /// in the block.
    spec fn clock_ok() -> bool;

    /// Current raw value of this instance's dedicated clock register.
    spec fn clock_value(c: RegisterBlock) -> u32;

    /// Raw values written to that clock register so far, in write order.
    spec fn clock_writes(c: RegisterBlock) -> Seq<u32>;

    /// True when every register of the block but that clock register is
    /// unchanged between `pre` and `post`.
    spec fn rest_unchanged(pre: RegisterBlock, post: RegisterBlock) -> bool;

    /// The register value one configure write produces: `v` with the
    /// clock-source, factor M and factor N fields replaced and every other
    /// bit kept.
    spec fn config_value(v: u32, source: Self::Source, factor_m: u32, factor_n: FactorN) -> u32;

    /// Configure peripheral clock: exactly one write to this instance's
    /// clock register, setting the clock source, factor M and factor N
    /// fields together and preserving every other bit.
    ///
    /// Value `factor_m` should be in 0 ..= 15.
    fn config(source: Self::Source, factor_m: u8, factor_n: FactorN, ccu: &mut RegisterBlock)
        requires
            factor_m <= 15,
            Self::clock_ok(),
        ensures
            ({
                let w = Self::config_value(
                    Self::clock_value(*old(ccu)),
                    source,
                    factor_m as u32,
                    factor_n,
                );
                &&& Self::clock_value(*final(ccu)) == w
                &&& Self::clock_writes(*final(ccu)) == Self::clock_writes(*old(ccu)).push(w)
                &&& Self::rest_unchanged(*old(ccu), *final(ccu))
            }),
    ;
}

/// Universal Asynchronous Receiver-Transmitter clock gate.
///
/// UART peripheral should be indexed by type parameter `IDX`.
pub struct UART<const IDX: usize>;

impl<const I: usize> ClockGate for UART<I> {
    open spec fn index() -> u32 {
        I as u32
    }

    open spec fn gate_value(c: RegisterBlock) -> u32 {
        c.uart_bgr.value.0
    }

    open spec fn gate_writes(c: RegisterBlock) -> Seq<u32> {
        c.uart_bgr.writes@.map_values(|g: UartBusGating| g.0)
    }

    open spec fn rest_unchanged(pre: RegisterBlock, post: RegisterBlock) -> bool {
        post.spi_clk == pre.spi_clk && post.spi_bgr == pre.spi_bgr
    }

    fn reset(ccu: &mut RegisterBlock)
        ensures
            ({
                let v0 = old(ccu).uart_bgr.value.0;
                let w1 = UartBusGating(spec_halt(v0, I as u32));
                let w2 = UartBusGating(spec_run(spec_halt(v0, I as u32), I as u32));
                &&& final(ccu).uart_bgr.value == w2
                &&& final(ccu).uart_bgr.writes@ == old(ccu).uart_bgr.writes@.push(w1).push(w2)
            }),
    {
        let i = I as u32;
        let uart_bgr = ccu.uart_bgr.read();
        ccu.uart_bgr.write(uart_bgr.gate_mask(i).assert_reset(i));
        let uart_bgr = ccu.uart_bgr.read();
        ccu.uart_bgr.write(uart_bgr.gate_pass(i).deassert_reset(i));
        proof {
            assert(Self::gate_writes(*ccu) =~= Self::gate_writes(*old(ccu)).push(
                spec_halt(Self::gate_value(*old(ccu)), i),
            ).push(spec_run(spec_halt(Self::gate_value(*old(ccu)), i), i)));
        }
    }

    fn free(ccu: &mut RegisterBlock)
        ensures
            ({
                let w = UartBusGating(spec_halt(old(ccu).uart_bgr.value.0, I as u32));
                &&& final(ccu).uart_bgr.value == w
                &&& final(ccu).uart_bgr.writes@ == old(ccu).uart_bgr.writes@.push(w)
            }),
    {
        let i = I as u32;
        let uart_bgr = ccu.uart_bgr.read();
        ccu.uart_bgr.write(uart_bgr.gate_mask(i).assert_reset(i));
        proof {
            assert(Self::gate_writes(*ccu) =~= Self::gate_writes(*old(ccu)).push(
                spec_halt(Self::gate_value(*old(ccu)), i),
            ));
        }
    }
}

/// Serial Peripheral Interface clock gate.
pub struct SPI<const IDX: usize>;

impl<const I: usize> ClockGate for SPI<I> {
    open spec fn index() -> u32 {
        I as u32
    }

    open spec fn gate_value(c: RegisterBlock) -> u32 {
        c.spi_bgr.value.0
    }

    open spec fn gate_writes(c: RegisterBlock) -> Seq<u32> {
        c.spi_bgr.writes@.map_values(|g: SpiBusGating| g.0)
    }

    open spec fn rest_unchanged(pre: RegisterBlock, post: RegisterBlock) -> bool {
        post.uart_bgr == pre.uart_bgr && post.spi_clk == pre.spi_clk
    }

    fn reset(ccu: &mut RegisterBlock)
        ensures
            ({
                let v0 = old(ccu).spi_bgr.value.0;
                let w1 = SpiBusGating(spec_halt(v0, I as u32));
                let w2 = SpiBusGating(spec_run(spec_halt(v0, I as u32), I as u32));
                &&& final(ccu).spi_bgr.value == w2
                &&& final(ccu).spi_bgr.writes@ == old(ccu).spi_bgr.writes@.push(w1).push(w2)
            }),
    {
        let i = I as u32;
        let spi_bgr = ccu.spi_bgr.read();
        ccu.spi_bgr.write(spi_bgr.gate_mask(i).assert_reset(i));
        let spi_bgr = ccu.spi_bgr.read();
        ccu.spi_bgr.write(spi_bgr.gate_pass(i).deassert_reset(i));
        proof {
            assert(Self::gate_writes(*ccu) =~= Self::gate_writes(*old(ccu)).push(
                spec_halt(Self::gate_value(*old(ccu)), i),
            ).push(spec_run(spec_halt(Self::gate_value(*old(ccu)), i), i)));
        }
    }

    fn free(ccu: &mut RegisterBlock)
        ensures
            ({
                let w = SpiBusGating(spec_halt(old(ccu).spi_bgr.value.0, I as u32));
                &&& final(ccu).spi_bgr.value == w
                &&& final(ccu).spi_bgr.writes@ == old(ccu).spi_bgr.writes@.push(w)
            }),
    {
        let i = I as u32;
        let spi_bgr = ccu.spi_bgr.read();
        ccu.spi_bgr.write(spi_bgr.gate_mask(i).assert_reset(i));
        proof {
            assert(Self::gate_writes(*ccu) =~= Self::gate_writes(*old(ccu)).push(
                spec_halt(Self::gate_value(*old(ccu)), i),
            ));
        }
    }
}

impl<const I: usize> ClockConfig for SPI<I> {
    type Source = SpiClockSource;

    open spec fn clock_ok() -> bool {
        I < 2
    }

    open spec fn clock_value(c: RegisterBlock) -> u32 {
        c.spi_clk[I as int].value.0
    }

    open spec fn clock_writes(c: RegisterBlock) -> Seq<u32> {
        c.spi_clk[I as int].writes@.map_values(|g: SpiClock| g.0)
    }

    open spec fn rest_unchanged(pre: RegisterBlock, post: RegisterBlock) -> bool {
        &&& post.uart_bgr == pre.uart_bgr
        &&& post.spi_bgr == pre.spi_bgr
        &&& forall|j: int| 0 <= j < 2 && j != I as int ==> post.spi_clk[j] == pre.spi_clk[j]
    }

    open spec fn config_value(v: u32, source: SpiClockSource, factor_m: u32, factor_n: FactorN) -> u32 {
        spec_with_factor_n(spec_with_factor_m(spec_with_source(v, source), factor_m), factor_n)
    }

    fn config(source: SpiClockSource, factor_m: u8, factor_n: FactorN, ccu: &mut RegisterBlock)
        ensures
            ({
                let w = SpiClock(
                    Self::config_value(
                        old(ccu).spi_clk[I as int].value.0,
                        source,
                        factor_m as u32,
                        factor_n,
                    ),
                );
                &&& final(ccu).spi_clk[I as int].value == w
                &&& final(ccu).spi_clk[I as int].writes@ == old(ccu).spi_clk[
                    I as int
                ].writes@.push(w)
            }),
    {
        let spi_clk = ccu.spi_clk[I].read();
        let mut reg = ccu.spi_clk[I];
        reg.write(spi_clk.set_clock_source(source).set_factor_m(factor_m).set_factor_n(factor_n));
        ccu.spi_clk[I] = reg;
        proof {
            assert(Self::clock_writes(*ccu) =~= Self::clock_writes(*old(ccu)).push(
                Self::config_value(
                    Self::clock_value(*old(ccu)),
                    source,
                    factor_m as u32,
                    factor_n,
                ),
            ));
        }
    }
}

} // verus!
