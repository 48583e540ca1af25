//! Serial-peripheral-interface driver: mode, framing, interrupt and DMA
//! control, and blocking data transfer against the register image.

use vstd::prelude::*;

use crate::rcc;
use crate::volatile_cell::VolatileCell;

verus! {

pub const SPI1_ADDR: usize = 0x40013000;
pub const SPI2_ADDR: usize = 0x40003800;
pub const SPI3_ADDR: usize = 0x40003c00;
pub const SPI4_ADDR: usize = 0x40013400;
pub const SPI5_ADDR: usize = 0x40015000;
pub const SPI6_ADDR: usize = 0x40015400;

/* CR1 */
pub const CR1_BIDIMODE: u32 = 1 << 15;
pub const CR1_BIDIOE: u32 = 1 << 14;
pub const CR1_CRCEN: u32 = 1 << 13;
pub const CR1_CRCNEXT: u32 = 1 << 12;
pub const CR1_CRCL: u32 = 1 << 11;
pub const CR1_DFF: u32 = 1 << 11;
pub const CR1_RXONLY: u32 = 1 << 10;
pub const CR1_SSM: u32 = 1 << 9;
pub const CR1_SSI: u32 = 1 << 8;
pub const CR1_LSBFIRST: u32 = 1 << 7;
pub const CR1_SPE: u32 = 1 << 6;
pub const CR1_MSTR: u32 = 1 << 2;
pub const CR1_CPOL: u32 = 1 << 1;
pub const CR1_CPHA: u32 = 1 << 0;

pub const CR1_BAUDRATE_FPCLK_DIV_2: u32 = 0x00 << 3;
pub const CR1_BAUDRATE_FPCLK_DIV_4: u32 = 0x01 << 3;
pub const CR1_BAUDRATE_FPCLK_DIV_8: u32 = 0x02 << 3;
pub const CR1_BAUDRATE_FPCLK_DIV_16: u32 = 0x03 << 3;
pub const CR1_BAUDRATE_FPCLK_DIV_32: u32 = 0x04 << 3;
pub const CR1_BAUDRATE_FPCLK_DIV_64: u32 = 0x05 << 3;
pub const CR1_BAUDRATE_FPCLK_DIV_128: u32 = 0x06 << 3;
pub const CR1_BAUDRATE_FPCLK_DIV_256: u32 = 0x07 << 3;

/* CR2 */
pub const CR2_LDMA_TX: u32 = 1 << 14;
pub const CR2_LDMA_RX: u32 = 1 << 13;
pub const CR2_FRXTH: u32 = 1 << 12;
pub const CR2_DS_MASK: u32 = 0xF << 8;
pub const CR2_TXEIE: u32 = 1 << 7;
pub const CR2_RXNEIE: u32 = 1 << 6;
pub const CR2_ERRIE: u32 = 1 << 5;
pub const CR2_FRF: u32 = 1 << 4;
pub const CR2_NSSP: u32 = 1 << 3;
pub const CR2_SSOE: u32 = 1 << 2;
pub const CR2_TXDMAEN: u32 = 1 << 1;
pub const CR2_RXDMAEN: u32 = 1 << 0;

/* SR */
pub const SR_TIFRFE: u32 = 1 << 8;
pub const SR_BSY: u32 = 1 << 7;
pub const SR_OVR: u32 = 1 << 6;
pub const SR_MODF: u32 = 1 << 5;
pub const SR_CRCERR: u32 = 1 << 4;
pub const SR_UDR: u32 = 1 << 3;
pub const SR_CHSIDE: u32 = 1 << 2;
pub const SR_TXE: u32 = 1 << 1;
pub const SR_RXNE: u32 = 1 << 0;

/* I2SCFGR */
pub const I2SCFGR_I2SMOD: u32 = 1 << 11;

/// Image of one interface's register block.
#[derive(Clone, Copy, PartialEq, Eq, Structural, Debug)]
pub struct Registers {
    pub cr1: VolatileCell,
    pub cr2: VolatileCell,
    pub sr: VolatileCell,
    pub dr: VolatileCell,
    pub crcpr: VolatileCell,
    pub rxcrcr: VolatileCell,
    pub txcrcr: VolatileCell,
    pub i2scfgr: VolatileCell,
    pub i2spr: VolatileCell,
}

/// The plain values behind a `Registers` image.
pub struct RegistersView {
    pub cr1: u32,
    pub cr2: u32,
    pub sr: u32,
    pub dr: u32,
    pub crcpr: u32,
    pub rxcrcr: u32,
    pub txcrcr: u32,
    pub i2scfgr: u32,
    pub i2spr: u32,
}

impl View for Registers {
    type V = RegistersView;

    open spec fn view(&self) -> RegistersView {
        RegistersView {
            cr1: self.cr1@,
            cr2: self.cr2@,
            sr: self.sr@,
            dr: self.dr@,
            crcpr: self.crcpr@,
            rxcrcr: self.rxcrcr@,
            txcrcr: self.txcrcr@,
            i2scfgr: self.i2scfgr@,
            i2spr: self.i2spr@,
        }
    }
}

/// The all-zero interface image.
pub open spec fn spec_spi_registers_zero() -> RegistersView {
    RegistersView {
        cr1: 0,
        cr2: 0,
        sr: 0,
        dr: 0,
        crcpr: 0,
        rxcrcr: 0,
        txcrcr: 0,
        i2scfgr: 0,
        i2spr: 0,
    }
}

/// One serial-peripheral interface: its base address and its register
/// image.
#[derive(Clone, Copy, PartialEq, Eq, Structural, Debug)]
pub struct Spi {
    pub addr: usize,
    pub regs: Registers,
}

/// The clock-control effect of resetting the interface at `addr`: the
/// reset pulse of the matching peripheral, or nothing for an unknown
/// address.
pub open spec fn spec_spi_reset(v: rcc::RegistersView, addr: usize) -> rcc::RegistersView {
    if addr == SPI1_ADDR {
        rcc::spec_reset_pulse(v, rcc::Peripheral::SPI1)
    } else if addr == SPI2_ADDR {
        rcc::spec_reset_pulse(v, rcc::Peripheral::SPI2)
    } else if addr == SPI3_ADDR {
        rcc::spec_reset_pulse(v, rcc::Peripheral::SPI3)
    } else if addr == SPI4_ADDR {
        rcc::spec_reset_pulse(v, rcc::Peripheral::SPI4)
    } else if addr == SPI5_ADDR {
        rcc::spec_reset_pulse(v, rcc::Peripheral::SPI5)
    } else if addr == SPI6_ADDR {
        rcc::spec_reset_pulse(v, rcc::Peripheral::SPI6)
    } else {
        v
    }
}

impl Spi {
    /// The interface at `addr`, with a fresh register image.
    pub fn new(addr: usize) -> (r: Spi)
        ensures
            r.addr == addr,
            r.regs@ == spec_spi_registers_zero(),
    {
        Spi {
            addr,
            regs: Registers {
                cr1: VolatileCell::new(0),
                cr2: VolatileCell::new(0),
                sr: VolatileCell::new(0),
                dr: VolatileCell::new(0),
                crcpr: VolatileCell::new(0),
                rxcrcr: VolatileCell::new(0),
                txcrcr: VolatileCell::new(0),
                i2scfgr: VolatileCell::new(0),
                i2spr: VolatileCell::new(0),
            },
        }
    }

    /// Place the interface and its configuration in the reset state,
    /// through the clock controller's peripheral reset system.
    pub fn reset(&self, rcc: &mut rcc::Registers)
        ensures
            final(rcc)@ == spec_spi_reset(old(rcc)@, self.addr),
    {
        if self.addr == SPI1_ADDR {
            rcc::reset_pulse(rcc, rcc::Peripheral::SPI1);
        } else if self.addr == SPI2_ADDR {
            rcc::reset_pulse(rcc, rcc::Peripheral::SPI2);
        } else if self.addr == SPI3_ADDR {
            rcc::reset_pulse(rcc, rcc::Peripheral::SPI3);
        } else if self.addr == SPI4_ADDR {
            rcc::reset_pulse(rcc, rcc::Peripheral::SPI4);
        } else if self.addr == SPI5_ADDR {
            rcc::reset_pulse(rcc, rcc::Peripheral::SPI5);
        } else if self.addr == SPI6_ADDR {
            rcc::reset_pulse(rcc, rcc::Peripheral::SPI6);
        }
    }

    /// Enable the interface.
    pub fn enable(&mut self)
        ensures
            final(self).regs@ == (RegistersView {
                cr1: old(self).regs@.cr1 | CR1_SPE,
                ..old(self).regs@
            }),
            final(self).addr == old(self).addr,
    {
        self.regs.cr1.check(CR1_SPE);
    }

    /// Disable the interface immediately.
    pub fn disable(&mut self)
        ensures
            final(self).regs@ == (RegistersView {
                cr1: old(self).regs@.cr1 & !CR1_SPE,
                ..old(self).regs@
            }),
            final(self).addr == old(self).addr,
    {
        self.regs.cr1.uncheck(CR1_SPE);
    }

    /// Disable the interface by the clean procedure of the reference
    /// manual: drain the last received word, wait for the transmitter
    /// and the bus, then clear the enable.  The status image must show
    /// data received, transmitter empty and bus idle, as the procedure
    /// awaits on the hardware.
    #[verifier::loop_isolation(false)]
    pub fn clean_disable(&mut self) -> (data: u16)
        requires
            old(self).regs@.sr & SR_RXNE != 0,
            old(self).regs@.sr & SR_TXE != 0,
            old(self).regs@.sr & SR_BSY == 0,
        ensures
            final(self).regs@ == (RegistersView {
                cr1: old(self).regs@.cr1 & !CR1_SPE,
                ..old(self).regs@
            }),
            final(self).addr == old(self).addr,
            data == (old(self).regs@.dr as u16),
    {
        /* Wait to receive the last data. */
        while !self.regs.sr.test(SR_RXNE)
            decreases 0int,
        {
        }
        let data = self.regs.dr.get();
        /* Wait to transmit the last data. */
        while !self.regs.sr.test(SR_TXE)
            decreases 0int,
        {
        }
        /* Wait until not busy. */
        while self.regs.sr.test(SR_BSY)
            decreases 0int,
        {
        }
        self.regs.cr1.uncheck(CR1_SPE);
        data as u16
    }

    /// Write one data word into the data register.
    pub fn write(&mut self, data: u16)
        ensures
            final(self).regs@ == (RegistersView { dr: data as u32, ..old(self).regs@ }),
            final(self).addr == old(self).addr,
    {
        self.regs.dr.set(data as u32);
    }

    /// Write one data word after the previous transfer has finished.
    /// The status image must show the transmit buffer empty, as the
    /// routine awaits that flag on the hardware.
    #[verifier::loop_isolation(false)]
    pub fn send(&mut self, data: u16)
        requires
            old(self).regs@.sr & SR_TXE != 0,
        ensures
            final(self).regs@ == (RegistersView { dr: data as u32, ..old(self).regs@ }),
            final(self).addr == old(self).addr,
    {
        /* Wait for transfer finished. */
        while !self.regs.sr.test(SR_TXE)
            decreases 0int,
        {
        }
        self.regs.dr.set(data as u32);
    }

    /// Read one data word after the incoming transfer has finished.
    /// The status image must show the receive buffer not empty, as the
    /// routine awaits that flag on the hardware.
    #[verifier::loop_isolation(false)]
    pub fn read(&self) -> (data: u16)
        requires
            self.regs@.sr & SR_RXNE != 0,
        ensures
            data == (self.regs@.dr as u16),
    {
        /* Wait for transfer finished. */
        while !self.regs.sr.test(SR_RXNE)
            decreases 0int,
        {
        }
        self.regs.dr.get() as u16
    }

    /// Write one data word, then read the word that the incoming
    /// transfer leaves in the data register.
    #[verifier::loop_isolation(false)]
    pub fn xfer(&mut self, data: u16) -> (r: u16)
        requires
            old(self).regs@.sr & SR_RXNE != 0,
        ensures
            final(self).regs@ == (RegistersView { dr: data as u32, ..old(self).regs@ }),
            final(self).addr == old(self).addr,
            r == ((data as u32) as u16),
    {
        self.write(data);
        /* Wait for transfer finished. */
        while !self.regs.sr.test(SR_RXNE)
            decreases 0int,
        {
        }
        self.regs.dr.get() as u16
    }

    /// Two-wire simplex mode: one clock wire, one bidirectional data
    /// wire.
    pub fn set_bidirectional_mode(&mut self)
        ensures
            final(self).regs@ == (RegistersView {
                cr1: old(self).regs@.cr1 | CR1_BIDIMODE,
                ..old(self).regs@
            }),
            final(self).addr == old(self).addr,
    {
        self.regs.cr1.check(CR1_BIDIMODE);
    }

    /// Unidirectional transfers (full duplex, or simplex with one data
    /// wire each way).
    pub fn set_unidirectional_mode(&mut self)
        ensures
            final(self).regs@ == (RegistersView {
                cr1: old(self).regs@.cr1 & !CR1_BIDIMODE,
                ..old(self).regs@
            }),
            final(self).addr == old(self).addr,
    {
        self.regs.cr1.uncheck(CR1_BIDIMODE);
    }

    /// Two-wire simplex mode, receiving.
    pub fn set_bidirectional_receive_only_mode(&mut self)
        ensures
            final(self).regs@ == (RegistersView {
                cr1: (old(self).regs@.cr1 | CR1_BIDIMODE) & !CR1_BIDIOE,
                ..old(self).regs@
            }),
            final(self).addr == old(self).addr,
    {
        self.regs.cr1.check(CR1_BIDIMODE);
        self.regs.cr1.uncheck(CR1_BIDIOE);
    }

    /// Two-wire simplex mode, transmitting.
    pub fn set_bidirectional_transmit_only_mode(&mut self)
        ensures
            final(self).regs@ == (RegistersView {
                cr1: (old(self).regs@.cr1 | CR1_BIDIMODE) | CR1_BIDIOE,
                ..old(self).regs@
            }),
            final(self).addr == old(self).addr,
    {
        self.regs.cr1.check(CR1_BIDIMODE);
        self.regs.cr1.check(CR1_BIDIOE);
    }

    /// Use a hardware CRC field on transmit and receive.
    pub fn enable_crc(&mut self)
        ensures
            final(self).regs@ == (RegistersView {
                cr1: old(self).regs@.cr1 | CR1_CRCEN,
                ..old(self).regs@
            }),
            final(self).addr == old(self).addr,
    {
        self.regs.cr1.check(CR1_CRCEN);
    }

    /// Stop using the hardware CRC.
    pub fn disable_crc(&mut self)
        ensures
            final(self).regs@ == (RegistersView {
                cr1: old(self).regs@.cr1 & !CR1_CRCEN,
                ..old(self).regs@
            }),
            final(self).addr == old(self).addr,
    {
        self.regs.cr1.uncheck(CR1_CRCEN);
    }

    /// The next word transmitted comes from the transmit buffer.
    pub fn set_next_tx_from_buffer(&mut self)
        ensures
            final(self).regs@ == (RegistersView {
                cr1: old(self).regs@.cr1 & !CR1_CRCNEXT,
                ..old(self).regs@
            }),
            final(self).addr == old(self).addr,
    {
        self.regs.cr1.uncheck(CR1_CRCNEXT);
    }

    /// The next word transmitted comes from the hardware CRC unit.
    pub fn set_next_tx_from_crc(&mut self)
        ensures
            final(self).regs@ == (RegistersView {
                cr1: old(self).regs@.cr1 | CR1_CRCNEXT,
                ..old(self).regs@
            }),
            final(self).addr == old(self).addr,
    {
        self.regs.cr1.check(CR1_CRCNEXT);
    }

    /// Full-duplex mode.
    pub fn set_full_duplex_mode(&mut self)
        ensures
            final(self).regs@ == (RegistersView {
                cr1: old(self).regs@.cr1 & !CR1_RXONLY,
                ..old(self).regs@
            }),
            final(self).addr == old(self).addr,
    {
        self.regs.cr1.uncheck(CR1_RXONLY);
    }

    /// Receive-only mode for simplex unidirectional transfers.
    pub fn set_receive_only_mode(&mut self)
        ensures
            final(self).regs@ == (RegistersView {
                cr1: old(self).regs@.cr1 | CR1_RXONLY,
                ..old(self).regs@
            }),
            final(self).addr == old(self).addr,
    {
        self.regs.cr1.check(CR1_RXONLY);
    }

    /// Slave selection by the hardware select input.
    pub fn disable_software_slave_management(&mut self)
        ensures
            final(self).regs@ == (RegistersView {
                cr1: old(self).regs@.cr1 & !CR1_SSM,
                ..old(self).regs@
            }),
            final(self).addr == old(self).addr,
    {
        self.regs.cr1.uncheck(CR1_SSM);
    }

    /// Slave selection by software; the select pin becomes an input.
    pub fn enable_software_slave_management(&mut self)
        ensures
            final(self).regs@ == (RegistersView {
                cr1: old(self).regs@.cr1 | CR1_SSM,
                cr2: old(self).regs@.cr2 & !CR2_SSOE,
                ..old(self).regs@
            }),
            final(self).addr == old(self).addr,
    {
        self.regs.cr1.check(CR1_SSM);
        /* allow slave select to be an input */
        self.regs.cr2.uncheck(CR2_SSOE);
    }

    /// Drive the software slave-select signal high.
    pub fn set_nss_high(&mut self)
        ensures
            final(self).regs@ == (RegistersView {
                cr1: old(self).regs@.cr1 | CR1_SSI,
                ..old(self).regs@
            }),
            final(self).addr == old(self).addr,
    {
        self.regs.cr1.check(CR1_SSI);
    }

    /// Drive the software slave-select signal low.
    pub fn set_nss_low(&mut self)
        ensures
            final(self).regs@ == (RegistersView {
                cr1: old(self).regs@.cr1 & !CR1_SSI,
                ..old(self).regs@
            }),
            final(self).addr == old(self).addr,
    {
        self.regs.cr1.uncheck(CR1_SSI);
    }

    /// Send the least significant bit first.
    pub fn send_lsb_first(&mut self)
        ensures
            final(self).regs@ == (RegistersView {
                cr1: old(self).regs@.cr1 | CR1_LSBFIRST,
                ..old(self).regs@
            }),
            final(self).addr == old(self).addr,
    {
        self.regs.cr1.check(CR1_LSBFIRST);
    }

    /// Send the most significant bit first.
    pub fn send_msb_first(&mut self)
        ensures
            final(self).regs@ == (RegistersView {
                cr1: old(self).regs@.cr1 & !CR1_LSBFIRST,
                ..old(self).regs@
            }),
            final(self).addr == old(self).addr,
    {
        self.regs.cr1.uncheck(CR1_LSBFIRST);
    }

    /// Set the baud-rate prescaler field.  A value above seven does not
    /// fit the field and leaves the interface untouched.
    pub fn set_baudrate_prescaler(&mut self, baudrate: u8)
        ensures
            baudrate > 7 ==> final(self).regs@ == old(self).regs@,
            baudrate <= 7 ==> final(self).regs@ == (RegistersView {
                cr1: (old(self).regs@.cr1 & 0xffc7) | ((baudrate as u32) << 3),
                ..old(self).regs@
            }),
            final(self).addr == old(self).addr,
    {
        if baudrate > 7 {
            return ;
        }
        let mut reg32 = self.regs.cr1.get() & 0xffc7;  /* Clear bits [5:3]. */
        reg32 |= (baudrate as u32) << 3;
        self.regs.cr1.set(reg32);
    }

    /// Master mode.
    pub fn set_master_mode(&mut self)
        ensures
            final(self).regs@ == (RegistersView {
                cr1: old(self).regs@.cr1 | CR1_MSTR,
                ..old(self).regs@
            }),
            final(self).addr == old(self).addr,
    {
        self.regs.cr1.check(CR1_MSTR);
    }

    /// Slave mode.
    pub fn set_slave_mode(&mut self)
        ensures
            final(self).regs@ == (RegistersView {
                cr1: old(self).regs@.cr1 & !CR1_MSTR,
                ..old(self).regs@
            }),
            final(self).addr == old(self).addr,
    {
        self.regs.cr1.uncheck(CR1_MSTR);
    }

    /// Clock high when idle.
    pub fn set_clock_polarity_1(&mut self)
        ensures
            final(self).regs@ == (RegistersView {
                cr1: old(self).regs@.cr1 | CR1_CPOL,
                ..old(self).regs@
            }),
            final(self).addr == old(self).addr,
    {
        self.regs.cr1.check(CR1_CPOL);
    }

    /// Clock low when idle.
    pub fn set_clock_polarity_0(&mut self)
        ensures
            final(self).regs@ == (RegistersView {
                cr1: old(self).regs@.cr1 & !CR1_CPOL,
                ..old(self).regs@
            }),
            final(self).addr == old(self).addr,
    {
        self.regs.cr1.uncheck(CR1_CPOL);
    }

    /// Capture on the trailing edge.
    pub fn set_clock_phase_1(&mut self)
        ensures
            final(self).regs@ == (RegistersView {
                cr1: old(self).regs@.cr1 | CR1_CPHA,
                ..old(self).regs@
            }),
            final(self).addr == old(self).addr,
    {
        self.regs.cr1.check(CR1_CPHA);
    }

    /// Capture on the leading edge.
    pub fn set_clock_phase_0(&mut self)
        ensures
            final(self).regs@ == (RegistersView {
                cr1: old(self).regs@.cr1 & !CR1_CPHA,
                ..old(self).regs@
            }),
            final(self).addr == old(self).addr,
    {
        self.regs.cr1.uncheck(CR1_CPHA);
    }

    /// Interrupt when the transmit buffer empties.
    pub fn enable_tx_buffer_empty_interrupt(&mut self)
        ensures
            final(self).regs@ == (RegistersView {
                cr2: old(self).regs@.cr2 | CR2_TXEIE,
                ..old(self).regs@
            }),
            final(self).addr == old(self).addr,
    {
        self.regs.cr2.check(CR2_TXEIE);
    }

    /// Stop interrupting on transmit-buffer empty.
    pub fn disable_tx_buffer_empty_interrupt(&mut self)
        ensures
            final(self).regs@ == (RegistersView {
                cr2: old(self).regs@.cr2 & !CR2_TXEIE,
                ..old(self).regs@
            }),
            final(self).addr == old(self).addr,
    {
        self.regs.cr2.uncheck(CR2_TXEIE);
    }

    /// Interrupt when the receive buffer fills.
    pub fn enable_rx_buffer_not_empty_interrupt(&mut self)
        ensures
            final(self).regs@ == (RegistersView {
                cr2: old(self).regs@.cr2 | CR2_RXNEIE,
                ..old(self).regs@
            }),
            final(self).addr == old(self).addr,
    {
        self.regs.cr2.check(CR2_RXNEIE);
    }

    /// Stop interrupting on receive-buffer not empty.
    pub fn disable_rx_buffer_not_empty_interrupt(&mut self)
        ensures
            final(self).regs@ == (RegistersView {
                cr2: old(self).regs@.cr2 & !CR2_RXNEIE,
                ..old(self).regs@
            }),
            final(self).addr == old(self).addr,
    {
        self.regs.cr2.uncheck(CR2_RXNEIE);
    }

    /// Interrupt on error conditions.
    pub fn enable_error_interrupt(&mut self)
        ensures
            final(self).regs@ == (RegistersView {
                cr2: old(self).regs@.cr2 | CR2_ERRIE,
                ..old(self).regs@
            }),
            final(self).addr == old(self).addr,
    {
        self.regs.cr2.check(CR2_ERRIE);
    }

    /// Stop interrupting on errors.
    pub fn disable_error_interrupt(&mut self)
        ensures
            final(self).regs@ == (RegistersView {
                cr2: old(self).regs@.cr2 & !CR2_ERRIE,
                ..old(self).regs@
            }),
            final(self).addr == old(self).addr,
    {
        self.regs.cr2.uncheck(CR2_ERRIE);
    }

    /// Drive the slave-select pin as an output.
    pub fn enable_ss_output(&mut self)
        ensures
            final(self).regs@ == (RegistersView {
                cr2: old(self).regs@.cr2 | CR2_SSOE,
                ..old(self).regs@
            }),
            final(self).addr == old(self).addr,
    {
        self.regs.cr2.check(CR2_SSOE);
    }

    /// Sense the slave-select pin as an input.
    pub fn disable_ss_output(&mut self)
        ensures
            final(self).regs@ == (RegistersView {
                cr2: old(self).regs@.cr2 & !CR2_SSOE,
                ..old(self).regs@
            }),
            final(self).addr == old(self).addr,
    {
        self.regs.cr2.uncheck(CR2_SSOE);
    }

    /// Feed the transmit buffer by DMA.
    pub fn enable_tx_dma(&mut self)
        ensures
            final(self).regs@ == (RegistersView {
                cr2: old(self).regs@.cr2 | CR2_TXDMAEN,
                ..old(self).regs@
            }),
            final(self).addr == old(self).addr,
    {
        self.regs.cr2.check(CR2_TXDMAEN);
    }

    /// Stop feeding the transmit buffer by DMA.
    pub fn disable_tx_dma(&mut self)
        ensures
            final(self).regs@ == (RegistersView {
                cr2: old(self).regs@.cr2 & !CR2_TXDMAEN,
                ..old(self).regs@
            }),
            final(self).addr == old(self).addr,
    {
        self.regs.cr2.uncheck(CR2_TXDMAEN);
    }

    /// Drain the receive buffer by DMA.
    pub fn enable_rx_dma(&mut self)
        ensures
            final(self).regs@ == (RegistersView {
                cr2: old(self).regs@.cr2 | CR2_RXDMAEN,
                ..old(self).regs@
            }),
            final(self).addr == old(self).addr,
    {
        self.regs.cr2.check(CR2_RXDMAEN);
    }

    /// Stop draining the receive buffer by DMA.
    pub fn disable_rx_dma(&mut self)
        ensures
            final(self).regs@ == (RegistersView {
                cr2: old(self).regs@.cr2 & !CR2_RXDMAEN,
                ..old(self).regs@
            }),
            final(self).addr == old(self).addr,
    {
        self.regs.cr2.uncheck(CR2_RXDMAEN);
    }

    /// One of the four standard clock modes (polarity and phase in the
    /// low two bits).  A mode above three is not a standard mode and
    /// leaves the interface untouched.
    pub fn set_standard_mode(&mut self, mode: u8)
        ensures
            mode > 3 ==> final(self).regs@ == old(self).regs@,
            mode <= 3 ==> final(self).regs@ == (RegistersView {
                cr1: (old(self).regs@.cr1 & !(CR1_CPOL | CR1_CPHA)) | (mode as u32),
                ..old(self).regs@
            }),
            final(self).addr == old(self).addr,
    {
        if mode > 3 {
            return ;
        }
        let reg32 = self.regs.cr1.get() & !(CR1_CPOL | CR1_CPHA);
        self.regs.cr1.set(reg32 | mode as u32);
    }

    /// Configure the interface as a master with the given baud rate,
    /// clock polarity and phase, CRC length and frame format.  The
    /// enable, CRC-enable and CRC-next controls are left as they are.
    pub fn init_master(&mut self, br: u32, cpol: u32, cpha: u32, crcl: u32, lsbfirst: u32)
        ensures
            final(self).regs@ == (RegistersView {
                cr1: ((((((old(self).regs@.cr1 & (CR1_SPE | CR1_CRCEN | CR1_CRCNEXT)) | CR1_MSTR)
                    | br) | cpol) | cpha) | crcl) | lsbfirst,
                ..old(self).regs@
            }),
            final(self).addr == old(self).addr,
    {
        let mut reg32 = self.regs.cr1.get();
        /* Reset all bits omitting SPE, CRCEN and CRCNEXT bits. */
        reg32 &= CR1_SPE | CR1_CRCEN | CR1_CRCNEXT;
        reg32 |= CR1_MSTR;  /* Configure SPI as master. */
        reg32 |= br;  /* Set baud rate bits. */
        reg32 |= cpol;  /* Set CPOL value. */
        reg32 |= cpha;  /* Set CPHA value. */
        reg32 |= crcl;  /* Set crc length (8 or 16 bits). */
        reg32 |= lsbfirst;  /* Set frame format (LSB- or MSB-first). */
        self.regs.cr1.set(reg32);
    }

    /// Write one byte after the previous transfer has finished.  The
    /// status image must show the transmit buffer empty, as the routine
    /// awaits that flag on the hardware.
    #[verifier::loop_isolation(false)]
    pub fn send8(&mut self, data: u8)
        requires
            old(self).regs@.sr & SR_TXE != 0,
        ensures
            final(self).regs@ == (RegistersView { dr: data as u32, ..old(self).regs@ }),
            final(self).addr == old(self).addr,
    {
        /* Wait for transfer finished. */
        while !self.regs.sr.test(SR_TXE)
            decreases 0int,
        {
        }
        self.regs.dr.set(data as u32);
    }

    /// Read one byte after the incoming transfer has finished.
    #[verifier::loop_isolation(false)]
    fn read8(&self) -> (data: u8)
        requires
            self.regs@.sr & SR_RXNE != 0,
        ensures
            data == (self.regs@.dr as u8),
    {
        /* Wait for transfer finished. */
        while !self.regs.sr.test(SR_RXNE)
            decreases 0int,
        {
        }
        self.regs.dr.get() as u8
    }

    /// Eight-bit CRC length.
    pub fn set_crcl_8bit(&mut self)
        ensures
            final(self).regs@ == (RegistersView {
                cr1: old(self).regs@.cr1 & !CR1_CRCL,
                ..old(self).regs@
            }),
            final(self).addr == old(self).addr,
    {
        self.regs.cr1.uncheck(CR1_CRCL);
    }

    /// Sixteen-bit CRC length.
    pub fn set_crcl_16bit(&mut self)
        ensures
            final(self).regs@ == (RegistersView {
                cr1: old(self).regs@.cr1 | CR1_CRCL,
                ..old(self).regs@
            }),
            final(self).addr == old(self).addr,
    {
        self.regs.cr1.check(CR1_CRCL);
    }

    /// Replace the data-size field.
    pub fn set_data_size(&mut self, data_size: u32)
        ensures
            final(self).regs@ == (RegistersView {
                cr2: (old(self).regs@.cr2 & !CR2_DS_MASK) | (data_size & CR2_DS_MASK),
                ..old(self).regs@
            }),
            final(self).addr == old(self).addr,
    {
        let mut reg32 = self.regs.cr2.get();
        reg32 &= !CR2_DS_MASK;
        reg32 |= data_size & CR2_DS_MASK;
        self.regs.cr2.set(reg32);
    }

    /// Receive-buffer ready as soon as eight bits arrive.
    pub fn fifo_reception_threshold_8bit(&mut self)
        ensures
            final(self).regs@ == (RegistersView {
                cr2: old(self).regs@.cr2 | CR2_FRXTH,
                ..old(self).regs@
            }),
            final(self).addr == old(self).addr,
    {
        self.regs.cr2.check(CR2_FRXTH);
    }

    /// Receive-buffer ready once sixteen bits arrive.
    pub fn fifo_reception_threshold_16bit(&mut self)
        ensures
            final(self).regs@ == (RegistersView {
                cr2: old(self).regs@.cr2 & !CR2_FRXTH,
                ..old(self).regs@
            }),
            final(self).addr == old(self).addr,
    {
        self.regs.cr2.uncheck(CR2_FRXTH);
    }

    /// Leave sound-interface mode and run as a serial-peripheral
    /// interface.
    pub fn i2s_mode_spi_mode(&mut self)
        ensures
            final(self).regs@ == (RegistersView {
                i2scfgr: old(self).regs@.i2scfgr & !I2SCFGR_I2SMOD,
                ..old(self).regs@
            }),
            final(self).addr == old(self).addr,
    {
        self.regs.i2scfgr.uncheck(I2SCFGR_I2SMOD);
    }

    /// Eight-bit data frames.
    pub fn set_dff_8bit(&mut self)
        ensures
            final(self).regs@ == (RegistersView {
                cr1: old(self).regs@.cr1 & !CR1_DFF,
                ..old(self).regs@
            }),
            final(self).addr == old(self).addr,
    {
        self.regs.cr1.uncheck(CR1_DFF);
    }

    /// Sixteen-bit data frames.
    pub fn set_dff_16bit(&mut self)
        ensures
            final(self).regs@ == (RegistersView {
                cr1: old(self).regs@.cr1 | CR1_DFF,
                ..old(self).regs@
            }),
            final(self).addr == old(self).addr,
    {
        self.regs.cr1.check(CR1_DFF);
    }
}

} // verus!
