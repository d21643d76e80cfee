use allwinner_hal::ccu::{
    ClockConfig, ClockGate, Clocks, FactorN, Reg, RegisterBlock, SpiBusGating, SpiClock,
    SpiClockSource, UartBusGating, SPI, UART,
};
use allwinner_hal::time::{Bps, Hz, U32Ext};

#[test]
fn offset_ccu() {
    assert_eq!(RegisterBlock::uart_bgr_offset(), 0x90c);
    assert_eq!(RegisterBlock::spi_clk_offset(), 0x940);
    assert_eq!(RegisterBlock::spi_bgr_offset(), 0x96c);
}

#[test]
fn clock_source_roundtrip() {
    let sources = [
        SpiClockSource::Hosc,
        SpiClockSource::PllPeri1x,
        SpiClockSource::PllPeri2x,
        SpiClockSource::PllAudio1Div2,
        SpiClockSource::PllAudio1Div5,
    ];
    for s in sources {
        assert_eq!(SpiClock(0).set_clock_source(s).clock_source(), s);
        assert_eq!(SpiClock(0xffff_ffff).set_clock_source(s).clock_source(), s);
        assert_eq!(SpiClock(0xdead_beef).set_clock_source(s).clock_source(), s);
    }
}

#[test]
fn factor_n_roundtrip() {
    let factors = [FactorN::N1, FactorN::N2, FactorN::N4, FactorN::N8];
    for n in factors {
        assert_eq!(SpiClock(0).set_factor_n(n).factor_n(), n);
        assert_eq!(SpiClock(0xffff_ffff).set_factor_n(n).factor_n(), n);
        assert_eq!(SpiClock(0xdead_beef).set_factor_n(n).factor_n(), n);
    }
}

#[test]
fn factor_m_roundtrip() {
    let mut m: u8 = 0;
    while m <= 15 {
        assert_eq!(SpiClock(0).set_factor_m(m).factor_m(), m);
        assert_eq!(SpiClock(0xffff_ffff).set_factor_m(m).factor_m(), m);
        m += 1;
    }
}

#[test]
fn clock_source_encodings() {
    assert_eq!(SpiClock(0x0000_0000).clock_source(), SpiClockSource::Hosc);
    assert_eq!(SpiClock(0x0100_0000).clock_source(), SpiClockSource::PllPeri1x);
    assert_eq!(SpiClock(0x0200_0000).clock_source(), SpiClockSource::PllPeri2x);
    assert_eq!(SpiClock(0x0300_0000).clock_source(), SpiClockSource::PllAudio1Div2);
    assert_eq!(SpiClock(0x0400_0000).clock_source(), SpiClockSource::PllAudio1Div5);
    assert_eq!(SpiClock(0x0000_0300).factor_n(), FactorN::N8);
    assert_eq!(SpiClock(0x0000_0200).factor_n(), FactorN::N4);
    assert_eq!(SpiClock(0x0000_000f).factor_m(), 15);
}

#[test]
fn gate_bit_isolation() {
    // Each transform flips exactly its own bit of the 32-bit word.
    assert_eq!(UartBusGating(0xdead_beef).gate_mask(3).0, 0xdead_bee7);
    assert_eq!(UartBusGating(0xdead_beef).gate_pass(4).0, 0xdead_beff);
    assert_eq!(UartBusGating(0xffff_ffff).assert_reset(1).0, 0xfffd_ffff);
    assert_eq!(UartBusGating(0x0000_0000).deassert_reset(2).0, 0x0004_0000);
    assert_eq!(SpiBusGating(0xdead_beef).gate_mask(3).0, 0xdead_bee7);
    assert_eq!(SpiBusGating(0xdead_beef).gate_pass(4).0, 0xdead_beff);
    assert_eq!(SpiBusGating(0xffff_ffff).assert_reset(1).0, 0xfffd_ffff);
    assert_eq!(SpiBusGating(0x0000_0000).deassert_reset(2).0, 0x0004_0000);
}

#[test]
fn gate_reset_symmetry() {
    let v = 0xdead_beef;
    // Bit 0 of v is set: masking then passing its clock gate restores v.
    assert_eq!(UartBusGating(v).gate_mask(0).gate_pass(0).0, v);
    // Bit 4 of v is clear: passing then masking its clock gate restores v.
    assert_eq!(UartBusGating(v).gate_pass(4).gate_mask(4).0, v);
    // Bit 16 of v is set: asserting then deasserting reset restores v.
    assert_eq!(SpiBusGating(v).assert_reset(0).deassert_reset(0).0, v);
    // Bit 17 of v is clear: deasserting then asserting reset restores v.
    assert_eq!(SpiBusGating(v).deassert_reset(1).assert_reset(1).0, v);
}

#[test]
fn uart_bringup_sets_gate_and_reset() {
    let mut ccu = RegisterBlock::new(
        UartBusGating(0),
        SpiClock(0),
        SpiClock(0),
        SpiBusGating(0),
    );
    UART::<1>::reset(&mut ccu);
    // Gate bit 1 passed and reset bit 17 deasserted, nothing else touched.
    assert_eq!(ccu.uart_bgr.value.0, 0x0002_0002);
    assert_eq!(ccu.spi_bgr.value.0, 0);

    // Starting from all-ones, the two writes end back at all-ones.
    let mut ccu = RegisterBlock::new(
        UartBusGating(0xffff_ffff),
        SpiClock(0),
        SpiClock(0),
        SpiBusGating(0),
    );
    UART::<0>::reset(&mut ccu);
    assert_eq!(ccu.uart_bgr.value.0, 0xffff_ffff);
}

#[test]
fn spi_powerdown_masks_gate_and_asserts_reset() {
    let mut ccu = RegisterBlock::new(
        UartBusGating(0xffff_ffff),
        SpiClock(0),
        SpiClock(0),
        SpiBusGating(0xffff_ffff),
    );
    SPI::<0>::free(&mut ccu);
    assert_eq!(ccu.spi_bgr.value.0, 0xfffe_fffe);
    assert_eq!(ccu.uart_bgr.value.0, 0xffff_ffff);

    UART::<2>::free(&mut ccu);
    assert_eq!(ccu.uart_bgr.value.0, 0xfffb_fffb);
}

#[test]
fn spi_configure_combined_write() {
    let mut ccu = RegisterBlock::new(
        UartBusGating(0),
        SpiClock(0xffff_ffff),
        SpiClock(0x1234_5678),
        SpiBusGating(0),
    );
    SPI::<0>::config(SpiClockSource::PllPeri1x, 4, FactorN::N4, &mut ccu);
    // Source field = 1, N field = 2, M field = 4, every other bit untouched.
    assert_eq!(ccu.spi_clk[0].value.0, 0xf9ff_fef4);
    assert_eq!(ccu.spi_clk[0].value.clock_source(), SpiClockSource::PllPeri1x);
    assert_eq!(ccu.spi_clk[0].value.factor_n(), FactorN::N4);
    assert_eq!(ccu.spi_clk[0].value.factor_m(), 4);
    // The other instance's clock register is untouched.
    assert_eq!(ccu.spi_clk[1].value.0, 0x1234_5678);

    SPI::<1>::config(SpiClockSource::Hosc, 15, FactorN::N1, &mut ccu);
    assert_eq!(ccu.spi_clk[1].value.0, 0x1034_547f);
    assert_eq!(ccu.spi_clk[0].value.0, 0xf9ff_fef4);
}

#[test]
fn bringup_does_not_disturb_other_instance() {
    // Instance 0 of the SPI kind is up (gate passed, reset deasserted).
    let mut ccu = RegisterBlock::new(
        UartBusGating(0),
        SpiClock(0),
        SpiClock(0),
        SpiBusGating(0x0001_0001),
    );
    SPI::<1>::reset(&mut ccu);
    // Instance 1's bits are now set too; instance 0's bits kept their state.
    assert_eq!(ccu.spi_bgr.value.0, 0x0003_0003);
    assert_eq!(ccu.spi_bgr.value.0 & 0x0001_0001, 0x0001_0001);

    let mut ccu = RegisterBlock::new(
        UartBusGating(0),
        SpiClock(0),
        SpiClock(0),
        SpiBusGating(0),
    );
    SPI::<1>::reset(&mut ccu);
    // Instance 0's bits stay clear.
    assert_eq!(ccu.spi_bgr.value.0 & 0x0001_0001, 0);
}

#[test]
fn register_model_read_write() {
    let mut reg = Reg::new(UartBusGating(5));
    assert_eq!(reg.read().0, 5);
    reg.write(UartBusGating(9));
    assert_eq!(reg.read().0, 9);
    assert_eq!(reg.value.0, 9);
}

#[test]
fn time_wrappers() {
    assert_eq!(9600u32.bps(), Bps(9600));
    assert_eq!(100u32.hz(), Hz(100));
    assert!(Bps(1) < Bps(2));
    assert!(Hz(24_000_000) > Hz(32_768));
}

#[test]
fn clocks_hold_frequencies() {
    let clocks = Clocks { psi: 600_000_000u32.hz(), apb1: 24_000_000u32.hz() };
    assert_eq!(clocks.psi, Hz(600_000_000));
    assert_eq!(clocks.apb1, Hz(24_000_000));
}
