//! Peripheral models: UART, GPIO and timer.
//!
//! Each driver owns exclusive access to one device, so its model state is the
//! single source of truth for that device while the system runs. The drivers
//! are chip-agnostic: they hold register values as plain data and decide what
//! to write, and the unverified glue around the library performs the actual
//! memory-mapped accesses (and supplies the raw values that reads return).

use vstd::prelude::*;

verus! {

/// The GPIO pin carrying the heartbeat LED.
pub const LED_PIN: u8 = 13;

/// The output register with `pin` driven to `state` and every other bit kept.
pub open spec fn set_bit(reg: u32, pin: u8, state: bool) -> u32 {
    if state {
        reg | (1u32 << (pin as u32))
    } else {
        reg & !(1u32 << (pin as u32))
    }
}

/// What a UART poll returns: a byte only when the data-ready bit (bit 0) of
/// the status register is set, else nothing, immediately.
pub open spec fn uart_rx_spec(status: u32, data: u8) -> Option<u8> {
    if status & 0x01 != 0 {
        Some(data)
    } else {
        None
    }
}

/// The UART driver. Bring-up is tracked so that the device is used only after
/// its one-time initialization.
pub struct Uart {
    initialized: bool,
}

impl Uart {
    /// The one-time bring-up has run.
    pub closed spec fn is_initialized(&self) -> bool {
        self.initialized
    }

    pub fn new() -> (r: Uart)
        ensures
            !r.is_initialized(),
    {
        Uart { initialized: false }
    }

    /// One-time device bring-up; idempotency is not guaranteed, so it must be
    /// called exactly once, before any use.
    pub fn init(&mut self)
        requires
            !old(self).is_initialized(),
        ensures
            final(self).is_initialized(),
    {
        self.initialized = true;
    }

    /// Whether the status register's data-ready bit (bit 0) reports a byte.
    /// The glue gates its read of the data register on this: on a real device
    /// that read itself pops the receive FIFO, so it must happen only when a
    /// byte is there.
    pub fn data_ready(status: u32) -> (r: bool)
        ensures
            r == (status & 0x01 != 0),
    {
        status & 0x01 != 0
    }

    /// Non-blocking receive: decides from the raw status and data register
    /// values (read by the caller) whether a byte arrived. Returns the byte
    /// only when the data-ready bit says so; never blocks.
    pub fn read(&self, status: u32, data: u8) -> (r: Option<u8>)
        requires
            self.is_initialized(),
        ensures
            r == uart_rx_spec(status, data),
    {
        if Uart::data_ready(status) {
            Some(data)
        } else {
            None
        }
    }
}

/// Register-level model of the GPIO block: the 32-bit output register and the
/// tracked LED state. The tracked boolean is the single source of truth for
/// the LED; `toggle_led` is its only writer.
pub struct Gpio {
    initialized: bool,
    output: u32,
    led_state: bool,
}

impl Gpio {
    /// The one-time bring-up has run.
    pub closed spec fn is_initialized(&self) -> bool {
        self.initialized
    }

    /// The value of the 32-bit output register.
    pub closed spec fn output_reg(&self) -> u32 {
        self.output
    }

    /// The tracked heartbeat LED state.
    pub closed spec fn led_on(&self) -> bool {
        self.led_state
    }

    pub fn new() -> (r: Gpio)
        ensures
            !r.is_initialized(),
            r.output_reg() == 0,
            !r.led_on(),
    {
        Gpio { initialized: false, output: 0, led_state: false }
    }

    /// Enables the GPIO block, once.
    pub fn init(&mut self)
        requires
            !old(self).is_initialized(),
        ensures
            final(self).is_initialized(),
            final(self).output_reg() == old(self).output_reg(),
            final(self).led_on() == old(self).led_on(),
    {
        self.initialized = true;
    }

    /// Read-modify-write of one output bit: drives `pin` to `state` and
    /// preserves every other pin. Pin numbers address bits of the one 32-bit
    /// register, so they must be below 32.
    pub fn set_pin(&mut self, pin: u8, state: bool)
        requires
            pin < 32,
        ensures
            final(self).output_reg() == set_bit(old(self).output_reg(), pin, state),
            final(self).led_on() == old(self).led_on(),
            final(self).is_initialized() == old(self).is_initialized(),
    {
        let mask: u32 = 1u32 << (pin as u32);
        if state {
            self.output = self.output | mask;
        } else {
            self.output = self.output & !mask;
        }
    }

    /// Flips the tracked LED state and drives the LED pin to it.
    pub fn toggle_led(&mut self)
        ensures
            final(self).led_on() == !old(self).led_on(),
            final(self).output_reg() == set_bit(
                old(self).output_reg(),
                LED_PIN,
                !old(self).led_on(),
            ),
            final(self).is_initialized() == old(self).is_initialized(),
    {
        self.led_state = !self.led_state;
        let state = self.led_state;
        self.set_pin(LED_PIN, state);
    }

    /// The current value of the output register (the value the glue writes to
    /// the device).
    pub fn output_value(&self) -> (r: u32)
        ensures
            r == self.output_reg(),
    {
        self.output
    }

    /// The tracked LED state.
    pub fn led(&self) -> (r: bool)
        ensures
            r == self.led_on(),
    {
        self.led_state
    }
}

/// Law: `set_pin` touches only its own bit. Every pin other than the one
/// driven keeps its level.
pub proof fn lemma_set_pin_isolates(reg: u32, pin: u8, state: bool, other: u8)
    requires
        pin < 32,
        other < 32,
        other != pin,
    ensures
        set_bit(reg, pin, state) & (1u32 << (other as u32)) == reg & (1u32 << (other as u32)),
{
    assert((if state {
        reg | (1u32 << (pin as u32))
    } else {
        reg & !(1u32 << (pin as u32))
    }) & (1u32 << (other as u32)) == reg & (1u32 << (other as u32))) by (bit_vector)
        requires
            pin < 32,
            other < 32,
            other != pin,
    ;
}

/// Law: driving a pin high and then low leaves the pin's bit clear and every
/// other bit of the register exactly as it was before the first call.
pub proof fn lemma_set_then_clear(reg: u32, pin: u8)
    requires
        pin < 32,
    ensures
        set_bit(set_bit(reg, pin, true), pin, false) & (1u32 << (pin as u32)) == 0,
        forall|other: u8|
            other < 32 && other != pin ==> set_bit(set_bit(reg, pin, true), pin, false) & (
            #[trigger] (1u32 << (other as u32))) == reg & (1u32 << (other as u32)),
{
    assert((reg | (1u32 << (pin as u32))) & !(1u32 << (pin as u32)) & (1u32 << (pin as u32))
        == 0) by (bit_vector)
        requires
            pin < 32,
    ;
    assert forall|other: u8| other < 32 && other != pin implies set_bit(
        set_bit(reg, pin, true),
        pin,
        false,
    ) & (#[trigger] (1u32 << (other as u32))) == reg & (1u32 << (other as u32)) by {
        lemma_set_pin_isolates(reg, pin, true, other);
        lemma_set_pin_isolates(set_bit(reg, pin, true), pin, false, other);
    }
}

/// The timer driver: a free-running millisecond counter. `last_read` mirrors
/// the counter value most recently read from the device.
pub struct Timer {
    initialized: bool,
    counter: u32,
}

impl Timer {
    /// The one-time bring-up has run.
    pub closed spec fn is_initialized(&self) -> bool {
        self.initialized
    }

    /// The counter value most recently read.
    pub closed spec fn last_read(&self) -> u32 {
        self.counter
    }

    pub fn new() -> (r: Timer)
        ensures
            !r.is_initialized(),
            r.last_read() == 0,
    {
        Timer { initialized: false, counter: 0 }
    }

    /// Starts the free-running counter, once.
    pub fn init(&mut self)
        requires
            !old(self).is_initialized(),
        ensures
            final(self).is_initialized(),
            final(self).last_read() == old(self).last_read(),
    {
        self.initialized = true;
    }

    /// Takes the raw counter value the caller just read from the device,
    /// updates the internal mirror, and hands it on. The hardware counter is
    /// monotonically non-decreasing barring wraparound; no caching happens
    /// across calls beyond the mirror.
    pub fn get_tick(&mut self, raw: u32) -> (r: u32)
        ensures
            r == raw,
            final(self).last_read() == raw,
            final(self).is_initialized() == old(self).is_initialized(),
    {
        self.counter = raw;
        raw
    }
}

} // verus!
