//! Power, clock, and reset management (PRCM).
//!
//! The PRCM register bank gates the power domains (RF core, serial,
//! peripherals) and the per-peripheral clocks. This module models the bank
//! as plain register words and states each operation's effect bit by bit;
//! the board layer mirrors every write into the memory-mapped bank.
//!
//! Two hardware waits are folded into post-states: committing clock
//! settings spins until the load-done bit rises, and enabling a power
//! domain spins until its status register reports the domain on. Each such
//! operation returns only once the transition is complete, so its contract
//! shows the status bits already set.

use vstd::prelude::*;

verus! {

/// The PRCM register bank: one word per register this driver set touches.
pub struct PrcmRegisters {
    /// MCU voltage domain control; bit 0 requests the ULDO power source.
    pub vd_ctl: u32,
    /// Clock-settings load trigger (bit 0) and load-done status (bit 1).
    pub clk_load_ctl: u32,
    /// RF core clock gate; bit 0 enables the clock.
    pub rfc_clk_gate: u32,
    /// TRNG (bit 1), crypto (bit 0) and DMA (bit 8) clock gates, run mode.
    pub sec_dma_clk_run: u32,
    /// The same gates for sleep mode.
    pub sec_dma_clk_sleep: u32,
    /// The same gates for deep-sleep mode.
    pub sec_dma_clk_deep_sleep: u32,
    /// GPIO clock gate (bit 0), run mode.
    pub gpio_clk_gate_run: u32,
    /// GPIO clock gate, sleep mode.
    pub gpio_clk_gate_sleep: u32,
    /// GPIO clock gate, deep-sleep mode.
    pub gpio_clk_gate_deep_sleep: u32,
    /// Timer clock gate (bit 0), run mode.
    pub gpt_clk_gate_run: u32,
    /// Timer clock gate, sleep mode.
    pub gpt_clk_gate_sleep: u32,
    /// Timer clock gate, deep-sleep mode.
    pub gpt_clk_gate_deep_sleep: u32,
    /// I2C clock gate (bit 0), run mode.
    pub i2c_clk_gate_run: u32,
    /// I2C clock gate, sleep mode.
    pub i2c_clk_gate_sleep: u32,
    /// I2C clock gate, deep-sleep mode.
    pub i2c_clk_gate_deep_sleep: u32,
    /// UART clock gates (bits 1:0), run mode.
    pub uart_clk_gate_run: u32,
    /// UART clock gates, sleep mode.
    pub uart_clk_gate_sleep: u32,
    /// UART clock gates, deep-sleep mode.
    pub uart_clk_gate_deep_sleep: u32,
    /// Power domain control 0: peripherals (bit 2), serial (bit 1), RF
    /// core (bit 0).
    pub pd_ctl0: u32,
    /// Power domain control 1: VIMS (bit 2), RF core (bit 1), CPU (bit 0).
    pub pd_ctl1: u32,
    /// Power domain status 0; bit 0 reports the RF core domain on.
    pub pd_stat0: u32,
    /// Serial domain status; bit 0 reports the domain on.
    pub pd_stat0_serial: u32,
    /// Peripherals domain status; bit 0 reports the domain on.
    pub pd_stat0_periph: u32,
    /// Power domain status 1: VIMS (bit 2), RF core (bit 1), CPU (bit 0).
    pub pd_stat1: u32,
    /// RF core mode selection word.
    pub rfc_mode_sel: u32,
}

impl PrcmRegisters {
    /// The bank at reset: every modelled register zero.
    pub fn new() -> (r: PrcmRegisters)
        ensures
            r == PrcmRegisters::spec_reset(),
    {
        PrcmRegisters {
            vd_ctl: 0,
            clk_load_ctl: 0,
            rfc_clk_gate: 0,
            sec_dma_clk_run: 0,
            sec_dma_clk_sleep: 0,
            sec_dma_clk_deep_sleep: 0,
            gpio_clk_gate_run: 0,
            gpio_clk_gate_sleep: 0,
            gpio_clk_gate_deep_sleep: 0,
            gpt_clk_gate_run: 0,
            gpt_clk_gate_sleep: 0,
            gpt_clk_gate_deep_sleep: 0,
            i2c_clk_gate_run: 0,
            i2c_clk_gate_sleep: 0,
            i2c_clk_gate_deep_sleep: 0,
            uart_clk_gate_run: 0,
            uart_clk_gate_sleep: 0,
            uart_clk_gate_deep_sleep: 0,
            pd_ctl0: 0,
            pd_ctl1: 0,
            pd_stat0: 0,
            pd_stat0_serial: 0,
            pd_stat0_periph: 0,
            pd_stat1: 0,
            rfc_mode_sel: 0,
        }
    }

    /// The reset value of the bank.
    pub open spec fn spec_reset() -> PrcmRegisters {
        PrcmRegisters {
            vd_ctl: 0,
            clk_load_ctl: 0,
            rfc_clk_gate: 0,
            sec_dma_clk_run: 0,
            sec_dma_clk_sleep: 0,
            sec_dma_clk_deep_sleep: 0,
            gpio_clk_gate_run: 0,
            gpio_clk_gate_sleep: 0,
            gpio_clk_gate_deep_sleep: 0,
            gpt_clk_gate_run: 0,
            gpt_clk_gate_sleep: 0,
            gpt_clk_gate_deep_sleep: 0,
            i2c_clk_gate_run: 0,
            i2c_clk_gate_sleep: 0,
            i2c_clk_gate_deep_sleep: 0,
            uart_clk_gate_run: 0,
            uart_clk_gate_sleep: 0,
            uart_clk_gate_deep_sleep: 0,
            pd_ctl0: 0,
            pd_ctl1: 0,
            pd_stat0: 0,
            pd_stat0_serial: 0,
            pd_stat0_periph: 0,
            pd_stat1: 0,
            rfc_mode_sel: 0,
        }
    }
}

/// The always-on power-management control register block.
pub struct AonPMCtlRegisters {
    /// Wake-up/power-down clock source selector; bits 1:0 choose the
    /// source (0b00 no clock, 0b01 the low-frequency system clock).
    pub mcu_clk: u32,
}

impl AonPMCtlRegisters {
    /// The block at reset.
    pub fn new() -> (r: AonPMCtlRegisters)
        ensures
            r.mcu_clk == 0u32,
    {
        AonPMCtlRegisters { mcu_clk: 0 }
    }
}

/// Commit staged clock settings: pulse the load trigger, then wait for the
/// load-done status. The post-state shows both bits up.
fn prcm_commit(regs: &mut PrcmRegisters)
    ensures
        *final(regs) == (PrcmRegisters { clk_load_ctl: 3u32, ..*old(regs) }),
{
    regs.clk_load_ctl = 3;
}

/// Turn off the DMA and crypto deep-sleep clocks wherever their run-mode
/// clock is currently enabled, and commit.
pub fn force_disable_dma_and_crypto(regs: &mut PrcmRegisters)
    ensures
        *final(regs) == (PrcmRegisters {
            clk_load_ctl: 3u32,
            sec_dma_clk_deep_sleep: spec_dma_crypto_disabled(
                old(regs).sec_dma_clk_run,
                old(regs).sec_dma_clk_deep_sleep,
            ),
            ..*old(regs)
        }),
{
    if regs.sec_dma_clk_run & 0x100 != 0 {
        regs.sec_dma_clk_deep_sleep = regs.sec_dma_clk_deep_sleep & !0x100;
    }
    if regs.sec_dma_clk_run & 0x1 != 0 {
        regs.sec_dma_clk_deep_sleep = regs.sec_dma_clk_deep_sleep & !0x1;
    }
    prcm_commit(regs);
}

/// The deep-sleep gate word after DMA (bit 8) and crypto (bit 0) are
/// cleared for each of the two whose run-mode clock is on.
pub open spec fn spec_dma_crypto_disabled(run: u32, deep_sleep: u32) -> u32 {
    let after_dma = if run & 0x100 != 0 {
        deep_sleep & !0x100
    } else {
        deep_sleep
    };
    if run & 0x1 != 0 {
        after_dma & !0x1
    } else {
        after_dma
    }
}

/// Request the ULDO power source, a temporary source able to drive the
/// peripherals in deep sleep.
pub fn acquire_uldo(regs: &mut PrcmRegisters)
    ensures
        *final(regs) == (PrcmRegisters { vd_ctl: old(regs).vd_ctl | 1u32, ..*old(regs) }),
{
    regs.vd_ctl = regs.vd_ctl | 1;
}

/// Release the ULDO power source; it is of no use outside deep sleep.
pub fn release_uldo(regs: &mut PrcmRegisters)
    ensures
        *final(regs) == (PrcmRegisters { vd_ctl: old(regs).vd_ctl & !1u32, ..*old(regs) }),
{
    regs.vd_ctl = regs.vd_ctl & !1;
}

/// A gateable power domain. Enabling the RF core drives both control
/// registers, since the domain spans them.
#[derive(Debug, Clone, Copy, PartialEq, Eq, Structural)]
pub enum PowerDomain {
    RFC,
    Serial,
    Peripherals,
    VIMS,
    CPU,
}

impl PowerDomain {
    /// The domain a numeric selector names, if any.
    pub fn from_u32(n: u32) -> (r: Option<PowerDomain>)
        ensures
            r == PowerDomain::spec_from_u32(n),
    {
        match n {
            0 => Some(PowerDomain::RFC),
            1 => Some(PowerDomain::Serial),
            2 => Some(PowerDomain::Peripherals),
            3 => Some(PowerDomain::VIMS),
            4 => Some(PowerDomain::CPU),
            _ => None,
        }
    }

    /// Numeric selectors 0 through 4 name the domains in declaration
    /// order; every other value names none.
    pub open spec fn spec_from_u32(n: u32) -> Option<PowerDomain> {
        if n == 0 {
            Some(PowerDomain::RFC)
        } else if n == 1 {
            Some(PowerDomain::Serial)
        } else if n == 2 {
            Some(PowerDomain::Peripherals)
        } else if n == 3 {
            Some(PowerDomain::VIMS)
        } else if n == 4 {
            Some(PowerDomain::CPU)
        } else {
            None
        }
    }
}

/// Power domain control.
pub struct Power(());

/// The bank after `domain` is switched on: its control bits raised, and
/// the matching status bits raised with them, the wait for the domain
/// transition being folded into the post-state.
pub open spec fn spec_enable_domain(pre: PrcmRegisters, domain: PowerDomain) -> PrcmRegisters {
    match domain {
        PowerDomain::Peripherals => PrcmRegisters {
            pd_ctl0: pre.pd_ctl0 | 0x4,
            pd_stat0_periph: pre.pd_stat0_periph | 0x1,
            ..pre
        },
        PowerDomain::Serial => PrcmRegisters {
            pd_ctl0: pre.pd_ctl0 | 0x2,
            pd_stat0_serial: pre.pd_stat0_serial | 0x1,
            ..pre
        },
        PowerDomain::RFC => PrcmRegisters {
            pd_ctl0: pre.pd_ctl0 | 0x1,
            pd_ctl1: pre.pd_ctl1 | 0x2,
            pd_stat0: pre.pd_stat0 | 0x1,
            pd_stat1: pre.pd_stat1 | 0x2,
            ..pre
        },
        PowerDomain::CPU => PrcmRegisters {
            pd_ctl1: pre.pd_ctl1 | 0x1,
            pd_stat1: pre.pd_stat1 | 0x1,
            ..pre
        },
        PowerDomain::VIMS => PrcmRegisters {
            pd_ctl1: pre.pd_ctl1 | 0x4,
            pd_stat1: pre.pd_stat1 | 0x4,
            ..pre
        },
    }
}

/// The bank after `domain` is switched off: the same bits cleared.
pub open spec fn spec_disable_domain(pre: PrcmRegisters, domain: PowerDomain) -> PrcmRegisters {
    match domain {
        PowerDomain::Peripherals => PrcmRegisters {
            pd_ctl0: pre.pd_ctl0 & !0x4,
            pd_stat0_periph: pre.pd_stat0_periph & !0x1,
            ..pre
        },
        PowerDomain::Serial => PrcmRegisters {
            pd_ctl0: pre.pd_ctl0 & !0x2,
            pd_stat0_serial: pre.pd_stat0_serial & !0x1,
            ..pre
        },
        PowerDomain::RFC => PrcmRegisters {
            pd_ctl0: pre.pd_ctl0 & !0x1,
            pd_ctl1: pre.pd_ctl1 & !0x2,
            pd_stat0: pre.pd_stat0 & !0x1,
            pd_stat1: pre.pd_stat1 & !0x2,
            ..pre
        },
        PowerDomain::CPU => PrcmRegisters {
            pd_ctl1: pre.pd_ctl1 & !0x1,
            pd_stat1: pre.pd_stat1 & !0x1,
            ..pre
        },
        PowerDomain::VIMS => PrcmRegisters {
            pd_ctl1: pre.pd_ctl1 & !0x4,
            pd_stat1: pre.pd_stat1 & !0x4,
            ..pre
        },
    }
}

/// Whether the status registers report `domain` on. The RF core domain
/// counts as on only when both status registers agree.
pub open spec fn spec_domain_enabled(regs: PrcmRegisters, domain: PowerDomain) -> bool {
    match domain {
        PowerDomain::Peripherals => regs.pd_stat0_periph & 0x1 != 0,
        PowerDomain::Serial => regs.pd_stat0_serial & 0x1 != 0,
        PowerDomain::RFC => regs.pd_stat0 & 0x1 != 0 && regs.pd_stat1 & 0x2 != 0,
        PowerDomain::VIMS => regs.pd_stat1 & 0x4 != 0,
        PowerDomain::CPU => regs.pd_stat1 & 0x1 != 0,
    }
}

impl Power {
    /// Switch `domain` on and wait for its status to report the domain up.
    pub fn enable_domain(regs: &mut PrcmRegisters, domain: PowerDomain)
        ensures
            *final(regs) == spec_enable_domain(*old(regs), domain),
            spec_domain_enabled(*final(regs), domain),
    {
        match domain {
            PowerDomain::Peripherals => {
                let ghost s = regs.pd_stat0_periph;
                regs.pd_ctl0 = regs.pd_ctl0 | 0x4;
                regs.pd_stat0_periph = regs.pd_stat0_periph | 0x1;
                proof {
                    assert((s | 0x1u32) & 0x1 != 0) by (bit_vector);
                }
            },
            PowerDomain::Serial => {
                let ghost s = regs.pd_stat0_serial;
                regs.pd_ctl0 = regs.pd_ctl0 | 0x2;
                regs.pd_stat0_serial = regs.pd_stat0_serial | 0x1;
                proof {
                    assert((s | 0x1u32) & 0x1 != 0) by (bit_vector);
                }
            },
            PowerDomain::RFC => {
                let ghost s0 = regs.pd_stat0;
                let ghost s1 = regs.pd_stat1;
                regs.pd_ctl0 = regs.pd_ctl0 | 0x1;
                regs.pd_ctl1 = regs.pd_ctl1 | 0x2;
                regs.pd_stat0 = regs.pd_stat0 | 0x1;
                regs.pd_stat1 = regs.pd_stat1 | 0x2;
                proof {
                    assert((s0 | 0x1u32) & 0x1 != 0) by (bit_vector);
                    assert((s1 | 0x2u32) & 0x2 != 0) by (bit_vector);
                }
            },
            PowerDomain::CPU => {
                let ghost s = regs.pd_stat1;
                regs.pd_ctl1 = regs.pd_ctl1 | 0x1;
                regs.pd_stat1 = regs.pd_stat1 | 0x1;
                proof {
                    assert((s | 0x1u32) & 0x1 != 0) by (bit_vector);
                }
            },
            PowerDomain::VIMS => {
                let ghost s = regs.pd_stat1;
                regs.pd_ctl1 = regs.pd_ctl1 | 0x4;
                regs.pd_stat1 = regs.pd_stat1 | 0x4;
                proof {
                    assert((s | 0x4u32) & 0x4 != 0) by (bit_vector);
                }
            },
        }
    }

    /// Switch `domain` off.
    pub fn disable_domain(regs: &mut PrcmRegisters, domain: PowerDomain)
        ensures
            *final(regs) == spec_disable_domain(*old(regs), domain),
    {
        match domain {
            PowerDomain::Peripherals => {
                regs.pd_ctl0 = regs.pd_ctl0 & !0x4;
                regs.pd_stat0_periph = regs.pd_stat0_periph & !0x1;
            },
            PowerDomain::Serial => {
                regs.pd_ctl0 = regs.pd_ctl0 & !0x2;
                regs.pd_stat0_serial = regs.pd_stat0_serial & !0x1;
            },
            PowerDomain::RFC => {
                regs.pd_ctl0 = regs.pd_ctl0 & !0x1;
                regs.pd_ctl1 = regs.pd_ctl1 & !0x2;
                regs.pd_stat0 = regs.pd_stat0 & !0x1;
                regs.pd_stat1 = regs.pd_stat1 & !0x2;
            },
            PowerDomain::CPU => {
                regs.pd_ctl1 = regs.pd_ctl1 & !0x1;
                regs.pd_stat1 = regs.pd_stat1 & !0x1;
            },
            PowerDomain::VIMS => {
                regs.pd_ctl1 = regs.pd_ctl1 & !0x4;
                regs.pd_stat1 = regs.pd_stat1 & !0x4;
            },
        }
    }

    /// Whether the status registers report `domain` on.
    pub fn is_enabled(regs: &PrcmRegisters, domain: PowerDomain) -> (r: bool)
        ensures
            r == spec_domain_enabled(*regs, domain),
    {
        match domain {
            PowerDomain::Peripherals => regs.pd_stat0_periph & 0x1 != 0,
            PowerDomain::Serial => regs.pd_stat0_serial & 0x1 != 0,
            PowerDomain::RFC => regs.pd_stat0 & 0x1 != 0 && regs.pd_stat1 & 0x2 != 0,
            PowerDomain::VIMS => regs.pd_stat1 & 0x4 != 0,
            PowerDomain::CPU => regs.pd_stat1 & 0x1 != 0,
        }
    }
}

/// Peripheral clock control. Every operation stages its gate bits and then
/// commits, so the post-state always shows the load-done word.
pub struct Clock(());

impl Clock {
    /// Enable the GPIO clock for run, sleep and deep-sleep mode.
    pub fn enable_gpio(regs: &mut PrcmRegisters)
        ensures
            *final(regs) == (PrcmRegisters {
                gpio_clk_gate_run: 1u32,
                gpio_clk_gate_sleep: 1u32,
                gpio_clk_gate_deep_sleep: 1u32,
                clk_load_ctl: 3u32,
                ..*old(regs)
            }),
    {
        regs.gpio_clk_gate_run = 1;
        regs.gpio_clk_gate_sleep = 1;
        regs.gpio_clk_gate_deep_sleep = 1;
        prcm_commit(regs);
    }

    /// Enable the TRNG clock (bit 1 of the security gates) in all modes.
    pub fn enable_trng(regs: &mut PrcmRegisters)
        ensures
            *final(regs) == (PrcmRegisters {
                sec_dma_clk_run: old(regs).sec_dma_clk_run | 0x2u32,
                sec_dma_clk_sleep: old(regs).sec_dma_clk_sleep | 0x2u32,
                sec_dma_clk_deep_sleep: old(regs).sec_dma_clk_deep_sleep | 0x2u32,
                clk_load_ctl: 3u32,
                ..*old(regs)
            }),
    {
        regs.sec_dma_clk_run = regs.sec_dma_clk_run | 0x2;
        regs.sec_dma_clk_sleep = regs.sec_dma_clk_sleep | 0x2;
        regs.sec_dma_clk_deep_sleep = regs.sec_dma_clk_deep_sleep | 0x2;
        prcm_commit(regs);
    }

    /// Enable both UART clocks (bits 1:0) for run, sleep and deep-sleep
    /// mode.
    pub fn enable_uart(regs: &mut PrcmRegisters)
        ensures
            *final(regs) == (PrcmRegisters {
                uart_clk_gate_run: old(regs).uart_clk_gate_run | 0x3u32,
                uart_clk_gate_sleep: old(regs).uart_clk_gate_sleep | 0x3u32,
                uart_clk_gate_deep_sleep: old(regs).uart_clk_gate_deep_sleep | 0x3u32,
                clk_load_ctl: 3u32,
                ..*old(regs)
            }),
    {
        regs.uart_clk_gate_run = regs.uart_clk_gate_run | 0x3;
        regs.uart_clk_gate_sleep = regs.uart_clk_gate_sleep | 0x3;
        regs.uart_clk_gate_deep_sleep = regs.uart_clk_gate_deep_sleep | 0x3;
        prcm_commit(regs);
    }

    /// Disable both UART clocks in all modes.
    pub fn disable_uart(regs: &mut PrcmRegisters)
        ensures
            *final(regs) == (PrcmRegisters {
                uart_clk_gate_run: old(regs).uart_clk_gate_run & !0x3u32,
                uart_clk_gate_sleep: old(regs).uart_clk_gate_sleep & !0x3u32,
                uart_clk_gate_deep_sleep: old(regs).uart_clk_gate_deep_sleep & !0x3u32,
                clk_load_ctl: 3u32,
                ..*old(regs)
            }),
    {
        regs.uart_clk_gate_run = regs.uart_clk_gate_run & !0x3;
        regs.uart_clk_gate_sleep = regs.uart_clk_gate_sleep & !0x3;
        regs.uart_clk_gate_deep_sleep = regs.uart_clk_gate_deep_sleep & !0x3;
        prcm_commit(regs);
    }

    /// Enable the RF core clock.
    pub fn enable_rfc(regs: &mut PrcmRegisters)
        ensures
            *final(regs) == (PrcmRegisters {
                rfc_clk_gate: 1u32,
                clk_load_ctl: 3u32,
                ..*old(regs)
            }),
    {
        regs.rfc_clk_gate = 1;
        prcm_commit(regs);
    }

    /// Disable the RF core clock.
    pub fn disable_rfc(regs: &mut PrcmRegisters)
        ensures
            *final(regs) == (PrcmRegisters {
                rfc_clk_gate: 0u32,
                clk_load_ctl: 3u32,
                ..*old(regs)
            }),
    {
        regs.rfc_clk_gate = 0;
        prcm_commit(regs);
    }

    /// Enable the timer clock for run, sleep and deep-sleep mode.
    pub fn enable_gpt(regs: &mut PrcmRegisters)
        ensures
            *final(regs) == (PrcmRegisters {
                gpt_clk_gate_run: 1u32,
                gpt_clk_gate_sleep: 1u32,
                gpt_clk_gate_deep_sleep: 1u32,
                clk_load_ctl: 3u32,
                ..*old(regs)
            }),
    {
        regs.gpt_clk_gate_run = 1;
        regs.gpt_clk_gate_sleep = 1;
        regs.gpt_clk_gate_deep_sleep = 1;
        prcm_commit(regs);
    }

    /// Disable the timer clock in all modes.
    pub fn disable_gpt(regs: &mut PrcmRegisters)
        ensures
            *final(regs) == (PrcmRegisters {
                gpt_clk_gate_run: 0u32,
                gpt_clk_gate_sleep: 0u32,
                gpt_clk_gate_deep_sleep: 0u32,
                clk_load_ctl: 3u32,
                ..*old(regs)
            }),
    {
        regs.gpt_clk_gate_run = 0;
        regs.gpt_clk_gate_sleep = 0;
        regs.gpt_clk_gate_deep_sleep = 0;
        prcm_commit(regs);
    }

    /// Enable the I2C clock for run, sleep and deep-sleep mode.
    pub fn enable_i2c(regs: &mut PrcmRegisters)
        ensures
            *final(regs) == (PrcmRegisters {
                i2c_clk_gate_run: old(regs).i2c_clk_gate_run | 0x1u32,
                i2c_clk_gate_sleep: old(regs).i2c_clk_gate_sleep | 0x1u32,
                i2c_clk_gate_deep_sleep: old(regs).i2c_clk_gate_deep_sleep | 0x1u32,
                clk_load_ctl: 3u32,
                ..*old(regs)
            }),
    {
        regs.i2c_clk_gate_run = regs.i2c_clk_gate_run | 0x1;
        regs.i2c_clk_gate_sleep = regs.i2c_clk_gate_sleep | 0x1;
        regs.i2c_clk_gate_deep_sleep = regs.i2c_clk_gate_deep_sleep | 0x1;
        prcm_commit(regs);
    }

    /// Select the clock source used for wake-up and power-down control;
    /// only the low bit of `source` reaches the register.
    pub fn set_power_down_source(aon: &mut AonPMCtlRegisters, source: u32)
        ensures
            final(aon).mcu_clk == source & 0x1u32,
    {
        aon.mcu_clk = source & 0x1;
    }
}

/// Select the RF core's operating mode word.
pub fn rf_mode_sel(regs: &mut PrcmRegisters, mode: u32)
    ensures
        *final(regs) == (PrcmRegisters { rfc_mode_sel: mode, ..*old(regs) }),
{
    regs.rfc_mode_sel = mode;
}

} // verus!
