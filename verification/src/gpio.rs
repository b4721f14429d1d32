//! Pin and external-interrupt configuration for the push button and the
//! three LEDs, modelled as plain register values.

use vstd::prelude::*;

verus! {

/// Configuration of one GPIO pin.
#[derive(Clone, Copy, PartialEq, Eq, Structural, Debug)]
pub struct PinCfg {
    /// Pin mode: input, output, alternate or analog.
    pub moder: u8,
    /// Open-drain rather than push-pull output.
    pub open_drain: bool,
    /// Output speed.
    pub ospeedr: u8,
    /// Pull-up / pull-down selection.
    pub pupdr: u8,
}

impl PinCfg {
    /// A pin at hardware reset.
    pub open spec fn reset_spec() -> PinCfg {
        PinCfg { moder: 0, open_drain: false, ospeedr: 0, pupdr: 0 }
    }
}

/// The pin and external-interrupt register fields this firmware configures.
#[derive(Clone, Copy, PartialEq, Eq, Structural, Debug)]
pub struct GpioRegs {
    /// System configuration controller clock enable.
    pub apb2_syscfgen: bool,
    /// GPIO port B clock enable.
    pub ahb2_gpioben: bool,
    /// GPIO port C clock enable.
    pub ahb2_gpiocen: bool,
    /// Port selection for external interrupt line 13.
    pub exticr4_exti13: u8,
    /// Interrupt mask bit of line 13 (unmasked when set).
    pub exti_imr13: bool,
    /// Rising-edge trigger selection of line 13.
    pub exti_rtsr13: bool,
    /// LED pin B7.
    pub pb7: PinCfg,
    /// LED pin B14.
    pub pb14: PinCfg,
    /// LED pin C7.
    pub pc7: PinCfg,
    /// Button pin C13.
    pub pc13: PinCfg,
}

impl GpioRegs {
    /// The pin registers at hardware reset.
    pub open spec fn reset_spec() -> GpioRegs {
        GpioRegs {
            apb2_syscfgen: false,
            ahb2_gpioben: false,
            ahb2_gpiocen: false,
            exticr4_exti13: 0,
            exti_imr13: false,
            exti_rtsr13: false,
            pb7: PinCfg::reset_spec(),
            pb14: PinCfg::reset_spec(),
            pc7: PinCfg::reset_spec(),
            pc13: PinCfg::reset_spec(),
        }
    }

    /// The pin registers at hardware reset.
    pub fn at_reset() -> (g: GpioRegs)
        ensures
            g == GpioRegs::reset_spec(),
    {
        GpioRegs {
            apb2_syscfgen: false,
            ahb2_gpioben: false,
            ahb2_gpiocen: false,
            exticr4_exti13: 0,
            exti_imr13: false,
            exti_rtsr13: false,
            pb7: PinCfg { moder: 0, open_drain: false, ospeedr: 0, pupdr: 0 },
            pb14: PinCfg { moder: 0, open_drain: false, ospeedr: 0, pupdr: 0 },
            pc7: PinCfg { moder: 0, open_drain: false, ospeedr: 0, pupdr: 0 },
            pc13: PinCfg { moder: 0, open_drain: false, ospeedr: 0, pupdr: 0 },
        }
    }
}

/// What pin configuration does to the registers: the three LED pins become
/// very-high-speed push-pull outputs, the button pin an input pulled down,
/// and external interrupt line 13 is routed to port C and unmasked on the
/// rising edge.
pub open spec fn gpio_init_spec(pre: GpioRegs) -> GpioRegs {
    GpioRegs {
        apb2_syscfgen: true,
        ahb2_gpioben: true,
        ahb2_gpiocen: true,
        exticr4_exti13: 2,
        exti_imr13: true,
        exti_rtsr13: true,
        pb7: PinCfg { moder: 1, open_drain: false, ospeedr: 3, pupdr: pre.pb7.pupdr },
        pb14: PinCfg { moder: 1, open_drain: false, ospeedr: 3, pupdr: pre.pb14.pupdr },
        pc7: PinCfg { moder: 1, open_drain: false, ospeedr: 3, pupdr: pre.pc7.pupdr },
        pc13: PinCfg { moder: 0, open_drain: pre.pc13.open_drain, ospeedr: pre.pc13.ospeedr, pupdr: 2 },
    }
}

/// Configures the push-button and LED pins and arms the button's
/// edge-interrupt line.
pub fn gpio_init(gpio: &mut GpioRegs)
    ensures
        *final(gpio) == gpio_init_spec(*old(gpio)),
{
    gpio.apb2_syscfgen = true;
    gpio.ahb2_gpioben = true;
    gpio.ahb2_gpiocen = true;
    gpio.exticr4_exti13 = 2;
    gpio.exti_imr13 = true;
    gpio.exti_rtsr13 = true;
    gpio.pb7.moder = 1;
    gpio.pb14.moder = 1;
    gpio.pc7.moder = 1;
    gpio.pc13.moder = 0;
    gpio.pb7.open_drain = false;
    gpio.pb14.open_drain = false;
    gpio.pc7.open_drain = false;
    gpio.pb7.ospeedr = 3;
    gpio.pb14.ospeedr = 3;
    gpio.pc7.ospeedr = 3;
    gpio.pc13.pupdr = 2;
}

} // verus!
