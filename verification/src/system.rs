//! The control loop: a cooperative, non-preemptive scheduler over the command
//! queue and the peripherals.
//!
//! The loop body is the verified `step`: one iteration drains at most one
//! queued command, checks the heartbeat window, and polls the UART, in that
//! fixed order. The surrounding glue owns the actual loop: each turn it reads
//! the raw tick counter and UART registers, calls `step`, performs the
//! register writes `step` decided on, and restarts the process when a reset
//! was dispatched.

use vstd::prelude::*;

use crate::peripheral::{set_bit, uart_rx_spec, Gpio, Timer, Uart, LED_PIN};
use crate::protocol::Command;
use crate::queue::{CommandQueue, QueueFull, QUEUE_CAPACITY};

verus! {

/// The heartbeat window: the heartbeat fires when more than this many ticks
/// (1 tick = 1 ms) have elapsed since it last fired.
pub const HEARTBEAT_PERIOD_TICKS: u32 = 1000;

/// Ticks elapsed from `last` to `now` on the wrapping 32-bit counter.
pub open spec fn elapsed_ticks(last: u32, now: u32) -> int {
    if now >= last {
        now - last
    } else {
        now + 0x1_0000_0000 - last
    }
}

/// The heartbeat decision: more than 1000 ticks have elapsed.
pub open spec fn heartbeat_due(last: u32, now: u32) -> bool {
    elapsed_ticks(last, now) > HEARTBEAT_PERIOD_TICKS
}

/// Ticks elapsed from `last` to `now`, as the loop computes them.
fn elapsed(last: u32, now: u32) -> (r: u32)
    ensures
        r == elapsed_ticks(last, now),
{
    if now >= last {
        now - last
    } else {
        (u32::MAX - last) + now + 1
    }
}

/// The bytes a command hands to the UART: the payload of `SendMessage`,
/// nothing for the other commands.
pub open spec fn command_tx(cmd: Command) -> Option<heapless::Vec<u8, 128>> {
    match cmd {
        Command::SendMessage { data } => Some(data),
        _ => None,
    }
}

/// Whether a command writes the GPIO output register: only `SetGpio`, and only
/// for a pin that addresses a bit of the 32-bit register. An out-of-range pin
/// is rejected by a bounds check and does nothing.
pub open spec fn command_writes_gpio(cmd: Command) -> bool {
    match cmd {
        Command::SetGpio { pin, state: _ } => pin < 32,
        _ => false,
    }
}

/// The GPIO output register after dispatching `cmd` over `reg`.
pub open spec fn output_after_command(cmd: Command, reg: u32) -> u32 {
    match cmd {
        Command::SetGpio { pin, state } => if pin < 32 {
            set_bit(reg, pin, state)
        } else {
            reg
        },
        _ => reg,
    }
}

/// What one `step` asked of the glue: the register-level side effects of this
/// iteration, to be performed in order.
pub struct StepOutput {
    /// Bytes a `SendMessage` command handed to the UART this iteration, to be
    /// written to the device one byte at a time.
    pub uart_tx: Option<heapless::Vec<u8, 128>>,
    /// The new value of the GPIO output register, when this iteration changed
    /// it (by a `SetGpio` command, a heartbeat, or both).
    pub gpio_write: Option<u32>,
    /// A byte the UART poll received this iteration. Current policy: observed
    /// only, no protocol parsing.
    pub uart_rx: Option<u8>,
    /// The heartbeat fired this iteration.
    pub heartbeat: bool,
    /// A `Reset` command was dispatched: the glue must reset the system, and
    /// no further iteration may run.
    pub reset: bool,
}

/// The whole system: the three peripheral drivers, the command queue, and the
/// tick at which the heartbeat last fired.
pub struct System {
    uart: Uart,
    gpio: Gpio,
    timer: Timer,
    commands: CommandQueue,
    last_tick: u32,
}

impl System {
    /// The pending commands, front (next to be dispatched) to back.
    pub closed spec fn pending(&self) -> Seq<Command> {
        self.commands.commands()
    }

    /// The modelled value of the GPIO output register.
    pub closed spec fn gpio_output(&self) -> u32 {
        self.gpio.output_reg()
    }

    /// The tracked heartbeat LED state.
    pub closed spec fn led_on(&self) -> bool {
        self.gpio.led_on()
    }

    /// The tick at which the heartbeat last fired.
    pub closed spec fn last_heartbeat_tick(&self) -> u32 {
        self.last_tick
    }

    /// The tick counter value most recently read.
    pub closed spec fn timer_mirror(&self) -> u32 {
        self.timer.last_read()
    }

    /// No peripheral has been brought up yet.
    pub closed spec fn is_fresh(&self) -> bool {
        &&& !self.uart.is_initialized()
        &&& !self.gpio.is_initialized()
        &&& !self.timer.is_initialized()
    }

    /// All three peripherals have been brought up.
    pub closed spec fn is_initialized(&self) -> bool {
        &&& self.uart.is_initialized()
        &&& self.gpio.is_initialized()
        &&& self.timer.is_initialized()
    }

    /// The heartbeat decision `step` makes when the counter reads `now`.
    pub open spec fn heartbeat_fires(&self, now: u32) -> bool {
        heartbeat_due(self.last_heartbeat_tick(), now)
    }

    /// The front of the queue is a `Reset` command.
    pub open spec fn head_is_reset(&self) -> bool {
        self.pending().len() > 0 && self.pending()[0] is Reset
    }

    /// The bytes the command at the front of the queue (if any) hands to the
    /// UART.
    pub open spec fn head_tx(&self) -> Option<heapless::Vec<u8, 128>> {
        if self.pending().len() > 0 {
            command_tx(self.pending()[0])
        } else {
            None
        }
    }

    /// Whether the command at the front of the queue (if any) writes the GPIO
    /// output register.
    pub open spec fn head_writes_gpio(&self) -> bool {
        self.pending().len() > 0 && command_writes_gpio(self.pending()[0])
    }

    /// The GPIO output register after dispatching the command at the front of
    /// the queue (if any).
    pub open spec fn output_after_head(&self) -> u32 {
        if self.pending().len() > 0 {
            output_after_command(self.pending()[0], self.gpio_output())
        } else {
            self.gpio_output()
        }
    }

    /// Builds the system: fresh peripherals and the command queue, whose
    /// storage is created here, exactly once, and owned by this value alone.
    pub fn new() -> (r: System)
        ensures
            r.is_fresh(),
            r.pending() == Seq::<Command>::empty(),
            r.gpio_output() == 0,
            !r.led_on(),
            r.last_heartbeat_tick() == 0,
            r.timer_mirror() == 0,
    {
        System {
            uart: Uart::new(),
            gpio: Gpio::new(),
            timer: Timer::new(),
            commands: CommandQueue::new(),
            last_tick: 0,
        }
    }

    /// One-time bring-up of the three peripherals, before the loop runs.
    pub fn init(&mut self)
        requires
            old(self).is_fresh(),
        ensures
            final(self).is_initialized(),
            final(self).pending() == old(self).pending(),
            final(self).gpio_output() == old(self).gpio_output(),
            final(self).led_on() == old(self).led_on(),
            final(self).last_heartbeat_tick() == old(self).last_heartbeat_tick(),
            final(self).timer_mirror() == old(self).timer_mirror(),
    {
        self.uart.init();
        self.gpio.init();
        self.timer.init();
    }

    /// The command injection boundary: the producer side of the queue, driven
    /// from outside the loop. Appends in FIFO order; when the queue is full
    /// the command is not taken and the producer is told so.
    pub fn enqueue_command(&mut self, c: Command) -> (r: Result<(), QueueFull>)
        ensures
            old(self).pending().len() < QUEUE_CAPACITY ==> {
                &&& r == Ok::<(), QueueFull>(())
                &&& final(self).pending() == old(self).pending().push(c)
            },
            old(self).pending().len() >= QUEUE_CAPACITY ==> {
                &&& r == Err::<(), QueueFull>(QueueFull)
                &&& final(self).pending() == old(self).pending()
            },
            final(self).gpio_output() == old(self).gpio_output(),
            final(self).led_on() == old(self).led_on(),
            final(self).last_heartbeat_tick() == old(self).last_heartbeat_tick(),
            final(self).timer_mirror() == old(self).timer_mirror(),
            final(self).is_initialized() == old(self).is_initialized(),
            final(self).is_fresh() == old(self).is_fresh(),
    {
        self.commands.enqueue(c)
    }

    /// Dispatches one command. `SetGpio` drives one pin of the output register
    /// (a pin outside the register is rejected by a bounds check and does
    /// nothing); `SendMessage` hands its bytes on for the UART; `Reset`
    /// decides a reset. Returns what the UART is to send, whether the GPIO
    /// register was written, and whether a reset was decided: on `Reset`
    /// nothing is touched and nothing is output, only the decision is handed
    /// up.
    pub fn process_command(&mut self, cmd: Command) -> (r: (Option<heapless::Vec<u8, 128>>, bool, bool))
        ensures
            final(self).gpio_output() == output_after_command(cmd, old(self).gpio_output()),
            final(self).led_on() == old(self).led_on(),
            final(self).last_heartbeat_tick() == old(self).last_heartbeat_tick(),
            final(self).pending() == old(self).pending(),
            final(self).timer_mirror() == old(self).timer_mirror(),
            final(self).is_initialized() == old(self).is_initialized(),
            r.0 == command_tx(cmd),
            r.1 == command_writes_gpio(cmd),
            r.2 == (cmd is Reset),
    {
        match cmd {
            Command::SetGpio { pin, state } => {
                if pin < 32 {
                    self.gpio.set_pin(pin, state);
                    (None, true, false)
                } else {
                    (None, false, false)
                }
            },
            Command::SendMessage { data } => (Some(data), false, false),
            Command::Reset => (None, false, true),
        }
    }

    /// The periodic liveness signal: toggles the heartbeat LED.
    fn heartbeat(&mut self)
        ensures
            final(self).led_on() == !old(self).led_on(),
            final(self).gpio_output() == set_bit(
                old(self).gpio_output(),
                LED_PIN,
                !old(self).led_on(),
            ),
            final(self).last_heartbeat_tick() == old(self).last_heartbeat_tick(),
            final(self).pending() == old(self).pending(),
            final(self).timer_mirror() == old(self).timer_mirror(),
            final(self).is_initialized() == old(self).is_initialized(),
    {
        self.gpio.toggle_led();
    }

    /// One iteration of the control loop, in fixed order: drain at most one
    /// queued command, check the heartbeat window against the tick counter,
    /// poll the UART. `now` is the raw tick counter value and `uart_status`
    /// and `uart_data` the raw UART register values, all read by the caller
    /// for this iteration.
    ///
    /// A dispatched `Reset` ends the iteration at once: nothing further is
    /// observable, and the caller must restart the process. When the
    /// heartbeat fires, the window restarts at `now` itself (not at
    /// `last + 1000`), so drift accumulates when iterations are slow — kept
    /// behavior, not corrected.
    pub fn step(&mut self, now: u32, uart_status: u32, uart_data: u8) -> (r: StepOutput)
        requires
            old(self).is_initialized(),
        ensures
            final(self).is_initialized(),
            old(self).pending().len() > 0 ==> final(self).pending() == old(
                self,
            ).pending().drop_first(),
            old(self).pending().len() == 0 ==> final(self).pending() == old(self).pending(),
            r.reset == old(self).head_is_reset(),
            r.reset ==> {
                &&& final(self).gpio_output() == old(self).gpio_output()
                &&& final(self).led_on() == old(self).led_on()
                &&& final(self).last_heartbeat_tick() == old(self).last_heartbeat_tick()
                &&& final(self).timer_mirror() == old(self).timer_mirror()
                &&& r.uart_tx is None
                &&& r.gpio_write is None
                &&& r.uart_rx is None
                &&& !r.heartbeat
            },
            !r.reset ==> {
                &&& r.heartbeat == old(self).heartbeat_fires(now)
                &&& final(self).timer_mirror() == now
                &&& r.uart_tx == old(self).head_tx()
                &&& r.uart_rx == uart_rx_spec(uart_status, uart_data)
                &&& final(self).led_on() == (if old(self).heartbeat_fires(now) {
                    !old(self).led_on()
                } else {
                    old(self).led_on()
                })
                &&& final(self).gpio_output() == (if old(self).heartbeat_fires(now) {
                    set_bit(old(self).output_after_head(), LED_PIN, !old(self).led_on())
                } else {
                    old(self).output_after_head()
                })
                &&& final(self).last_heartbeat_tick() == (if old(self).heartbeat_fires(now) {
                    now
                } else {
                    old(self).last_heartbeat_tick()
                })
                &&& r.gpio_write == (if old(self).head_writes_gpio() || old(self).heartbeat_fires(
                    now,
                ) {
                    Some(final(self).gpio_output())
                } else {
                    None::<u32>
                })
            },
    {
        let mut uart_tx: Option<heapless::Vec<u8, 128>> = None;
        let mut wrote_gpio = false;

        // 1. Drain at most one command, bounding the iteration's latency.
        if let Some(cmd) = self.commands.dequeue() {
            let (tx, wrote, reset) = self.process_command(cmd);
            if reset {
                return StepOutput {
                    uart_tx: None,
                    gpio_write: None,
                    uart_rx: None,
                    heartbeat: false,
                    reset: true,
                };
            }
            uart_tx = tx;
            wrote_gpio = wrote;
        }

        // 2. Heartbeat check against the elapsed-time window.
        let current = self.timer.get_tick(now);
        let fired = elapsed(self.last_tick, current) > HEARTBEAT_PERIOD_TICKS;
        if fired {
            self.heartbeat();
            self.last_tick = current;
            wrote_gpio = true;
        }

        // 3. UART poll; a received byte is observed only.
        let uart_rx = self.uart.read(uart_status, uart_data);

        let gpio_write = if wrote_gpio {
            Some(self.gpio.output_value())
        } else {
            None
        };
        StepOutput { uart_tx, gpio_write, uart_rx, heartbeat: fired, reset: false }
    }

    /// The number of pending commands, at most the queue capacity of 16.
    pub fn pending_count(&self) -> (r: usize)
        ensures
            r == self.pending().len(),
            r <= QUEUE_CAPACITY,
    {
        self.commands.len()
    }

    /// The tracked heartbeat LED state.
    pub fn led_is_on(&self) -> (r: bool)
        ensures
            r == self.led_on(),
    {
        self.gpio.led()
    }

    /// The modelled value of the GPIO output register.
    pub fn gpio_register(&self) -> (r: u32)
        ensures
            r == self.gpio_output(),
    {
        self.gpio.output_value()
    }
}

/// Law: the heartbeat fires exactly once per window. With a monotonic tick
/// source (`last <= now`, no wraparound), the heartbeat is due exactly when
/// more than 1000 ticks have passed since it last fired; and since a firing
/// step restarts the window at the tick it fired on, no tick within the next
/// 1000 fires again.
pub proof fn lemma_heartbeat_once_per_window(last: u32, now: u32)
    requires
        last <= now,
    ensures
        heartbeat_due(last, now) <==> now - last > 1000,
{
}

/// Law: heartbeats alternate the LED. A firing step flips the tracked state
/// (`l1 == !l0`), so the LED after it differs from before, and a second firing
/// step restores it: the run of states reads on, off, on, ...
pub proof fn lemma_led_alternates(l0: bool, l1: bool, l2: bool)
    requires
        l1 == !l0,
        l2 == !l1,
    ensures
        l1 != l0,
        l2 != l1,
        l2 == l0,
{
}

} // verus!
