//! UART split-phase transport.
//!
//! Transmit and receive each run as a split-phase operation: a request
//! returns immediately, and completion is reported later, from the drained
//! run-loop context, never from an interrupt. Interrupt context only
//! stages: received bytes go into a private staging buffer and a pending
//! flag is set; the run loop later copies the staged bytes into the
//! client's buffer and hands both completions out.
//!
//! Hardware is kept outside this state machine. The board layer reads the
//! FIFO and passes the drained bytes in, asks how many bytes fit in the
//! transmit queue and writes out the bytes these functions hand back, and
//! delivers the returned completions to the client. Every decision — what
//! is staged, what is sent, when a completion fires and with which buffer —
//! is made and proved here.

use vstd::prelude::*;

use crate::events::{clear_event_flag, set_event_flag, spec_clear_flag, spec_set_flag, EventFlags,
    EventPriority};
use crate::prcm::{spec_enable_domain, Clock, Power, PowerDomain, PrcmRegisters};
use crate::returncode::ReturnCode;
use crate::slot::BufferSlot;

verus! {

/// Parameters a client configures the port with.
#[derive(Debug, Clone, Copy, PartialEq, Eq, Structural)]
pub struct UARTParameters {
    pub baud_rate: u32,
    pub stop_bits: StopBits,
    pub parity: Parity,
    pub hw_flow_control: bool,
}

/// Number of stop bits per frame.
#[derive(Debug, Clone, Copy, PartialEq, Eq, Structural)]
pub enum StopBits {
    One,
    Two,
}

/// Parity protection of a frame.
#[derive(Debug, Clone, Copy, PartialEq, Eq, Structural)]
pub enum Parity {
    NoParity,
    Odd,
    Even,
}

/// Code delivered with a completion callback.
#[derive(Debug, Clone, Copy, PartialEq, Eq, Structural)]
pub enum Error {
    /// The request ran to completion.
    CommandComplete,
    /// A transmit was requested for zero bytes; nothing was sent.
    TxLenZero,
    /// A transmit was requested for more bytes than the buffer holds.
    TxLenLargerThanBuffer,
}

/// An outstanding transmit: the client's buffer, how many bytes were
/// requested, and how many have been handed to hardware so far. The
/// transport owns it exclusively until `index` reaches `length`, then the
/// buffer goes back to the client.
pub struct Transaction {
    pub buffer: Vec<u8>,
    pub length: usize,
    pub index: usize,
}

impl Transaction {
    /// Progress never passes the request, and the request fits the buffer.
    pub open spec fn wf(&self) -> bool {
        self.index <= self.length <= self.buffer@.len()
    }
}

/// What a transmit request does immediately.
pub enum TransmitOutcome {
    /// The request was malformed: it completes synchronously, before any
    /// hardware byte is sent, with the unmodified buffer and an error.
    Rejected(Vec<u8>, Error),
    /// The request was accepted; the carried bytes are what fit into the
    /// hardware transmit queue right now and must be written to it.
    Started(Vec<u8>),
}

/// A receive completion to hand to the client: the client's buffer, how
/// many leading bytes are newly received, and a code.
#[derive(Debug)]
pub struct RxCompletion {
    pub buffer: Vec<u8>,
    pub byte_count: usize,
    pub error: Error,
}

/// A transmit completion to hand to the client: the original buffer and a
/// code.
#[derive(Debug)]
pub struct TxCompletion {
    pub buffer: Vec<u8>,
    pub error: Error,
}

/// `dst` with `src` copied over its first `src.len()` bytes.
pub open spec fn spec_copy_prefix(dst: Seq<u8>, src: Seq<u8>) -> Seq<u8> {
    src + dst.skip(src.len() as int)
}

/// The run-loop drain of an outstanding transmit: once progress has
/// reached the requested length the transaction is consumed and the buffer
/// goes back to the client in a completion; otherwise it stays staged.
pub open spec fn spec_drain_tx(t: Option<Transaction>) -> (Option<TxCompletion>, Option<
    Transaction,
>) {
    match t {
        Some(tr) => {
            if tr.index >= tr.length {
                (Some(TxCompletion { buffer: tr.buffer, error: Error::CommandComplete }), None)
            } else {
                (None, Some(tr))
            }
        },
        None => (None, None),
    }
}

/// Law: the transmit completion fires exactly once per request. A drain
/// that delivers it consumes the transaction — so a second drain delivers
/// nothing — and what it delivers is the original buffer, with progress
/// exactly at the requested length.
pub proof fn lemma_tx_completion_once(t: Option<Transaction>)
    requires
        t matches Some(tr) ==> tr.wf(),
    ensures
        spec_drain_tx(t).0 matches Some(c) ==> t matches Some(tr) && c.buffer == tr.buffer
            && tr.index == tr.length && c.error == Error::CommandComplete,
        spec_drain_tx(t).0 is Some ==> spec_drain_tx(spec_drain_tx(t).1).0 is None,
{
}

/// One UART port's transport state.
pub struct UART {
    transaction: BufferSlot<Transaction>,
    rx_buf: BufferSlot<Vec<u8>>,
    staging: Vec<u8>,
    isr_len: usize,
    event_priority: EventPriority,
    interrupts_enabled: bool,
    uart_enabled: bool,
    fifo_enabled: bool,
    ibrd: u32,
    fbrd: u32,
}

impl UART {
    /// The outstanding transmit, if one is in flight.
    pub closed spec fn spec_transaction(&self) -> Option<Transaction> {
        self.transaction@
    }

    /// The client's receive buffer, if one is supplied.
    pub closed spec fn spec_rx_buffer(&self) -> Option<Vec<u8>> {
        self.rx_buf@
    }

    /// The bytes staged by interrupt context, not yet handed to a client.
    pub closed spec fn spec_staged(&self) -> Seq<u8> {
        self.staging@.take(self.isr_len as int)
    }

    /// How many bytes the private staging buffer can hold.
    pub closed spec fn spec_staging_capacity(&self) -> int {
        self.staging@.len() as int
    }

    /// The staged-length counter the interrupt handler maintains.
    pub closed spec fn spec_isr_len(&self) -> int {
        self.isr_len as int
    }

    /// The pending-work flag this port raises.
    pub closed spec fn spec_priority(&self) -> EventPriority {
        self.event_priority
    }

    /// Whether receive and end-of-transmission interrupts are armed.
    pub closed spec fn spec_interrupts_enabled(&self) -> bool {
        self.interrupts_enabled
    }

    /// Whether the port is enabled.
    pub closed spec fn spec_enabled(&self) -> bool {
        self.uart_enabled
    }

    /// Whether the hardware FIFOs are enabled.
    pub closed spec fn spec_fifo_enabled(&self) -> bool {
        self.fifo_enabled
    }

    /// The integer baud-rate divisor the port is configured with.
    pub closed spec fn spec_ibrd(&self) -> u32 {
        self.ibrd
    }

    /// The fractional baud-rate divisor the port is configured with.
    pub closed spec fn spec_fbrd(&self) -> u32 {
        self.fbrd
    }

    /// Whether two transport states agree on everything the transmit and
    /// receive paths touch.
    pub open spec fn spec_same_transport(a: UART, b: UART) -> bool {
        &&& a.spec_transaction() == b.spec_transaction()
        &&& a.spec_rx_buffer() == b.spec_rx_buffer()
        &&& a.spec_staged() == b.spec_staged()
        &&& a.spec_isr_len() == b.spec_isr_len()
        &&& a.spec_staging_capacity() == b.spec_staging_capacity()
        &&& a.spec_priority() == b.spec_priority()
    }

    /// Whether two transport states agree on the configuration mirror.
    pub open spec fn spec_same_config(a: UART, b: UART) -> bool {
        &&& a.spec_enabled() == b.spec_enabled()
        &&& a.spec_fifo_enabled() == b.spec_fifo_enabled()
        &&& a.spec_ibrd() == b.spec_ibrd()
        &&& a.spec_fbrd() == b.spec_fbrd()
        &&& a.spec_interrupts_enabled() == b.spec_interrupts_enabled()
    }

    /// Transport invariant: staged bytes fit the staging buffer, an
    /// outstanding transmit is well formed, and a supplied receive buffer
    /// can absorb everything the staging buffer may hold.
    pub open spec fn wf(&self) -> bool {
        &&& self.spec_isr_len() <= self.spec_staging_capacity()
        &&& (self.spec_transaction() matches Some(t) ==> t.wf())
        &&& (self.spec_rx_buffer() matches Some(b) ==> b@.len() >= self.spec_staging_capacity())
    }

    /// A fresh port raising `event_priority`, with nothing staged, nothing
    /// in flight, and the hardware mirror at reset.
    pub fn new(event_priority: EventPriority) -> (r: UART)
        ensures
            r.wf(),
            r.spec_transaction() is None,
            r.spec_rx_buffer() is None,
            r.spec_staged() == Seq::<u8>::empty(),
            r.spec_staging_capacity() == 0,
            r.spec_priority() == event_priority,
            !r.spec_interrupts_enabled(),
            !r.spec_enabled(),
    {
        let r = UART {
            transaction: BufferSlot::empty(),
            rx_buf: BufferSlot::empty(),
            staging: Vec::new(),
            isr_len: 0,
            event_priority,
            interrupts_enabled: false,
            uart_enabled: false,
            fifo_enabled: false,
            ibrd: 0,
            fbrd: 0,
        };
        proof {
            assert(r.spec_staged() =~= Seq::<u8>::empty());
        }
        r
    }

    /// Bring the port up: adopt `isr_buf` as the private staging buffer,
    /// power the serial domain, enable the UART clocks, and arm the
    /// interrupts. Must run before the port is used.
    pub fn initialize(&mut self, regs: &mut PrcmRegisters, isr_buf: Vec<u8>)
        requires
            old(self).wf(),
            old(self).spec_rx_buffer() is None,
        ensures
            final(self).wf(),
            final(self).spec_staging_capacity() == isr_buf@.len(),
            final(self).spec_staged() == Seq::<u8>::empty(),
            final(self).spec_interrupts_enabled(),
            final(self).spec_transaction() == old(self).spec_transaction(),
            final(self).spec_rx_buffer() is None,
            final(self).spec_priority() == old(self).spec_priority(),
            *final(regs) == (PrcmRegisters {
                uart_clk_gate_run: spec_enable_domain(*old(regs), PowerDomain::Serial)
                    .uart_clk_gate_run | 0x3u32,
                uart_clk_gate_sleep: spec_enable_domain(*old(regs), PowerDomain::Serial)
                    .uart_clk_gate_sleep | 0x3u32,
                uart_clk_gate_deep_sleep: spec_enable_domain(*old(regs), PowerDomain::Serial)
                    .uart_clk_gate_deep_sleep | 0x3u32,
                clk_load_ctl: 3u32,
                ..spec_enable_domain(*old(regs), PowerDomain::Serial)
            }),
    {
        self.staging = isr_buf;
        self.isr_len = 0;
        self.power_and_clock(regs);
        self.enable_interrupts();
        proof {
            assert(self.spec_staged() =~= Seq::<u8>::empty());
        }
    }

    /// Power the serial domain and enable the UART clocks. The domain wait
    /// is folded into `Power::enable_domain`'s post-state.
    fn power_and_clock(&self, regs: &mut PrcmRegisters)
        ensures
            *final(regs) == (PrcmRegisters {
                uart_clk_gate_run: spec_enable_domain(*old(regs), PowerDomain::Serial)
                    .uart_clk_gate_run | 0x3u32,
                uart_clk_gate_sleep: spec_enable_domain(*old(regs), PowerDomain::Serial)
                    .uart_clk_gate_sleep | 0x3u32,
                uart_clk_gate_deep_sleep: spec_enable_domain(*old(regs), PowerDomain::Serial)
                    .uart_clk_gate_deep_sleep | 0x3u32,
                clk_load_ctl: 3u32,
                ..spec_enable_domain(*old(regs), PowerDomain::Serial)
            }),
    {
        Power::enable_domain(regs, PowerDomain::Serial);
        Clock::enable_uart(regs);
    }

    /// Arm the receive, receive-timeout and end-of-transmission
    /// interrupts.
    pub fn enable_interrupts(&mut self)
        ensures
            final(self).spec_interrupts_enabled(),
            UART::spec_same_transport(*final(self), *old(self)),
            final(self).spec_enabled() == old(self).spec_enabled(),
            final(self).spec_fifo_enabled() == old(self).spec_fifo_enabled(),
            final(self).spec_ibrd() == old(self).spec_ibrd(),
            final(self).spec_fbrd() == old(self).spec_fbrd(),
    {
        self.interrupts_enabled = true;
    }

    /// The integer baud divisor for `baud_rate` at the 48 MHz system
    /// clock.
    pub open spec fn spec_baud_div(baud_rate: u32) -> int {
        ((384_000_000int / (baud_rate as int)) + 1) / 2
    }

    /// Configure frame format and baud rate. Two stop bits, parity and
    /// hardware flow control are unsupported and rejected; otherwise the
    /// port is disabled, the divisors set, the FIFOs enabled, and the port
    /// re-enabled.
    pub fn configure(&mut self, params: UARTParameters) -> (r: ReturnCode)
        requires
            old(self).wf(),
            params.baud_rate >= 1,
        ensures
            final(self).wf(),
            !(params.stop_bits == StopBits::One && params.parity == Parity::NoParity
                && !params.hw_flow_control) ==> r == ReturnCode::ENOSUPPORT && *final(self) == *old(self),
            params.stop_bits == StopBits::One && params.parity == Parity::NoParity
                && !params.hw_flow_control ==> {
                &&& r == ReturnCode::SUCCESS
                &&& UART::spec_same_transport(*final(self), *old(self))
                &&& final(self).spec_enabled()
                &&& final(self).spec_fifo_enabled()
                &&& final(self).spec_interrupts_enabled() == old(self).spec_interrupts_enabled()
                &&& final(self).spec_ibrd() == UART::spec_baud_div(params.baud_rate) / 64
                &&& final(self).spec_fbrd() == UART::spec_baud_div(params.baud_rate) % 64
            },
    {
        if !matches!(params.stop_bits, StopBits::One) {
            return ReturnCode::ENOSUPPORT;
        }
        if !matches!(params.parity, Parity::NoParity) {
            return ReturnCode::ENOSUPPORT;
        }
        if params.hw_flow_control != false {
            return ReturnCode::ENOSUPPORT;
        }
        self.disable();
        self.set_baud_rate(params.baud_rate);
        self.fifo_enable();
        self.uart_enabled = true;
        ReturnCode::SUCCESS
    }

    /// Compute and store the two baud-rate divisors.
    fn set_baud_rate(&mut self, baud_rate: u32)
        requires
            baud_rate >= 1,
        ensures
            *final(self) == (UART {
                ibrd: (UART::spec_baud_div(baud_rate) / 64) as u32,
                fbrd: (UART::spec_baud_div(baud_rate) % 64) as u32,
                ..*old(self)
            }),
    {
        let div: u32 = ((48_000_000u32 * 8) / baud_rate + 1) / 2;
        self.ibrd = div / 64;
        self.fbrd = div % 64;
    }

    /// The configured integer and fractional baud-rate divisors, as the
    /// board layer writes them to the divisor registers.
    pub fn baud_divisors(&self) -> (r: (u32, u32))
        ensures
            r.0 == self.spec_ibrd(),
            r.1 == self.spec_fbrd(),
    {
        (self.ibrd, self.fbrd)
    }

    /// Enable the hardware FIFOs.
    fn fifo_enable(&mut self)
        ensures
            *final(self) == (UART { fifo_enabled: true, ..*old(self) }),
    {
        self.fifo_enabled = true;
    }

    /// Disable the hardware FIFOs.
    fn fifo_disable(&mut self)
        ensures
            *final(self) == (UART { fifo_enabled: false, ..*old(self) }),
    {
        self.fifo_enabled = false;
    }

    /// Disable the port and its FIFOs.
    fn disable(&mut self)
        ensures
            *final(self) == (UART { fifo_enabled: false, uart_enabled: false, ..*old(self) }),
    {
        self.fifo_disable();
        self.uart_enabled = false;
    }

    /// Start a transmit of the first `tx_len` bytes of `tx_data`. A
    /// malformed request — zero length, or a length beyond the buffer —
    /// completes at once with an error and the unmodified buffer, before
    /// any hardware byte is sent. Otherwise as many bytes as the hardware
    /// queue accepts now (`fifo_space`) are handed back for the board layer
    /// to write out, and the rest follow from transmit interrupts; the
    /// completion is delivered by the run loop once progress reaches the
    /// requested length.
    pub fn transmit(&mut self, tx_data: Vec<u8>, tx_len: usize, fifo_space: usize) -> (r:
        TransmitOutcome)
        requires
            old(self).wf(),
            old(self).spec_transaction() is None,
        ensures
            final(self).wf(),
            final(self).spec_rx_buffer() == old(self).spec_rx_buffer(),
            final(self).spec_staged() == old(self).spec_staged(),
            final(self).spec_staging_capacity() == old(self).spec_staging_capacity(),
            final(self).spec_priority() == old(self).spec_priority(),
            tx_len == 0 ==> {
                &&& r matches TransmitOutcome::Rejected(b, e) && b@ == tx_data@ && e
                    == Error::TxLenZero
                &&& final(self).spec_transaction() is None
            },
            tx_len > tx_data@.len() ==> {
                &&& r matches TransmitOutcome::Rejected(b, e) && b@ == tx_data@ && e
                    == Error::TxLenLargerThanBuffer
                &&& final(self).spec_transaction() is None
            },
            1 <= tx_len <= tx_data@.len() ==> {
                let sent = if tx_len <= fifo_space {
                    tx_len as int
                } else {
                    fifo_space as int
                };
                &&& r matches TransmitOutcome::Started(bytes) && bytes@ == tx_data@.take(sent)
                &&& final(self).spec_transaction() matches Some(t) && t.buffer@ == tx_data@
                    && t.length == tx_len && t.index == sent
            },
    {
        if tx_len == 0 {
            return TransmitOutcome::Rejected(tx_data, Error::TxLenZero);
        }
        if tx_len > tx_data.len() {
            return TransmitOutcome::Rejected(tx_data, Error::TxLenLargerThanBuffer);
        }
        let k: usize = if tx_len <= fifo_space {
            tx_len
        } else {
            fifo_space
        };
        let mut fifo_bytes: Vec<u8> = Vec::new();
        let mut i: usize = 0;
        while i < k
            invariant
                i <= k,
                k <= tx_len <= tx_data@.len(),
                fifo_bytes@ == tx_data@.take(i as int),
            decreases k - i,
        {
            fifo_bytes.push(tx_data[i]);
            i = i + 1;
            proof {
                assert(fifo_bytes@ =~= tx_data@.take(i as int));
            }
        }
        let t = Transaction { buffer: tx_data, length: tx_len, index: k };
        let put_result = self.transaction.put(t);
        proof {
            assert(put_result is Ok);
        }
        TransmitOutcome::Started(fifo_bytes)
    }

    /// Supply a buffer for the next receive. Rejected, with the buffer
    /// handed back, if a receive buffer is already in place.
    pub fn receive(&mut self, rx_buffer: Vec<u8>) -> (r: Result<(), Vec<u8>>)
        requires
            old(self).wf(),
            rx_buffer@.len() >= old(self).spec_staging_capacity(),
        ensures
            final(self).wf(),
            old(self).spec_rx_buffer() is None ==> r == Ok::<(), Vec<u8>>(()) && final(self).spec_rx_buffer() == Some(rx_buffer),
            old(self).spec_rx_buffer() is Some ==> r == Err::<(), Vec<u8>>(rx_buffer) && final(self).spec_rx_buffer() == old(self).spec_rx_buffer(),
            final(self).spec_transaction() == old(self).spec_transaction(),
            final(self).spec_staged() == old(self).spec_staged(),
            final(self).spec_staging_capacity() == old(self).spec_staging_capacity(),
            final(self).spec_priority() == old(self).spec_priority(),
    {
        self.rx_buf.put(rx_buffer)
    }

    /// Interrupt-context receive path: append the bytes drained from the
    /// hardware FIFO to the private staging buffer — never to the client's
    /// buffer, which must not be exposed to a context that can preempt a
    /// copy — and raise this port's pending flag. Bytes beyond the staging
    /// capacity are dropped.
    pub fn handle_rx_interrupt(&mut self, flags: &mut EventFlags, incoming: &Vec<u8>)
        requires
            old(self).wf(),
            old(flags).wf(),
        ensures
            final(self).wf(),
            final(flags).wf(),
            final(flags)@ == spec_set_flag(old(flags)@, old(self).spec_priority()),
            final(self).spec_staged() == old(self).spec_staged() + incoming@.take(
                vstd::math::min(
                    incoming@.len() as int,
                    old(self).spec_staging_capacity() - old(self).spec_staged().len(),
                ),
            ),
            final(self).spec_transaction() == old(self).spec_transaction(),
            final(self).spec_rx_buffer() == old(self).spec_rx_buffer(),
            final(self).spec_staging_capacity() == old(self).spec_staging_capacity(),
            final(self).spec_priority() == old(self).spec_priority(),
    {
        set_event_flag(flags, self.event_priority);
        let available = self.staging.len() - self.isr_len;
        let k: usize = if incoming.len() <= available {
            incoming.len()
        } else {
            available
        };
        let mut i: usize = 0;
        while i < k
            invariant
                i <= k,
                k <= incoming@.len(),
                old(self).spec_isr_len() + k <= old(self).spec_staging_capacity(),
                self.isr_len == old(self).spec_isr_len() + i,
                self.staging@.len() == old(self).spec_staging_capacity(),
                self.staging@.len() <= usize::MAX,
                self.spec_staged() == old(self).spec_staged() + incoming@.take(i as int),
                self.transaction == old(self).transaction,
                self.rx_buf == old(self).rx_buf,
                self.event_priority == old(self).event_priority,
            decreases k - i,
        {
            let b = incoming[i];
            let ghost staging0 = self.staging@;
            let ghost isr0 = self.isr_len as int;
            let idx = self.isr_len;
            self.staging[idx] = b;
            self.isr_len = idx + 1;
            i = i + 1;
            proof {
                assert(self.staging@ == staging0.update(isr0, b));
                assert(self.spec_staged() =~= staging0.take(isr0) + seq![b]);
                assert(incoming@.take(i as int) =~= incoming@.take(i - 1) + seq![incoming@[i - 1]]);
                assert(self.spec_staged() =~= old(self).spec_staged() + incoming@.take(i as int));
            }
        }
    }

    /// Interrupt-context transmit path: on an end-of-transmission
    /// interrupt, hand back the next unsent bytes of the outstanding
    /// transaction, as many as the hardware queue accepts now
    /// (`fifo_space`), advance the progress index by that many, and raise
    /// this port's pending flag.
    pub fn handle_tx_interrupt(&mut self, flags: &mut EventFlags, fifo_space: usize) -> (r: Vec<
        u8,
    >)
        requires
            old(self).wf(),
            old(flags).wf(),
        ensures
            final(self).wf(),
            final(flags).wf(),
            final(flags)@ == spec_set_flag(old(flags)@, old(self).spec_priority()),
            old(self).spec_transaction() is None ==> r@ == Seq::<u8>::empty() && final(self).spec_transaction() is None,
            old(self).spec_transaction() matches Some(t) ==> {
                let k = vstd::math::min(fifo_space as int, t.length - t.index);
                &&& r@ == t.buffer@.subrange(t.index as int, t.index + k)
                &&& final(self).spec_transaction() matches Some(t2) && t2.buffer == t.buffer
                    && t2.length == t.length && t2.index == t.index + k
            },
            final(self).spec_rx_buffer() == old(self).spec_rx_buffer(),
            final(self).spec_staged() == old(self).spec_staged(),
            final(self).spec_staging_capacity() == old(self).spec_staging_capacity(),
            final(self).spec_priority() == old(self).spec_priority(),
    {
        set_event_flag(flags, self.event_priority);
        match self.transaction.take() {
            None => Vec::new(),
            Some(mut t) => {
                let remaining = t.length - t.index;
                let k: usize = if fifo_space <= remaining {
                    fifo_space
                } else {
                    remaining
                };
                let mut out: Vec<u8> = Vec::new();
                let mut i: usize = 0;
                while i < k
                    invariant
                        i <= k,
                        t.index + k <= t.length <= t.buffer@.len(),
                        out@ == t.buffer@.subrange(t.index as int, t.index + i),
                    decreases k - i,
                {
                    out.push(t.buffer[t.index + i]);
                    i = i + 1;
                    proof {
                        assert(out@ =~= t.buffer@.subrange(t.index as int, t.index + i));
                    }
                }
                t.index = t.index + k;
                let put_result = self.transaction.put(t);
                proof {
                    assert(put_result is Ok);
                }
                out
            },
        }
    }

    /// Run-loop drain for this port, called outside interrupt context once
    /// its pending flag is seen. Staged receive bytes are copied into the
    /// client's buffer (or dropped when none is supplied) and returned as a
    /// receive completion; a transmit whose progress has reached its
    /// requested length is consumed and returned as a transmit completion.
    /// The pending flag is cleared and the interrupts re-armed.
    pub fn handle_event(&mut self, flags: &mut EventFlags) -> (r: (
        Option<RxCompletion>,
        Option<TxCompletion>,
    ))
        requires
            old(self).wf(),
            old(flags).wf(),
        ensures
            final(self).wf(),
            final(flags).wf(),
            final(flags)@ == spec_clear_flag(old(flags)@, old(self).spec_priority()),
            final(self).spec_interrupts_enabled(),
            // Receive: staged bytes reach the client only as a whole, with
            // their count, only when a buffer was supplied.
            old(self).spec_staged().len() > 0 && old(self).spec_rx_buffer() is Some ==> {
                &&& r.0 matches Some(c) && c.buffer@ == spec_copy_prefix(
                    old(self).spec_rx_buffer()->Some_0@,
                    old(self).spec_staged(),
                ) && c.byte_count == old(self).spec_staged().len() && c.error
                    == Error::CommandComplete
                &&& final(self).spec_rx_buffer() is None
            },
            old(self).spec_staged().len() > 0 && old(self).spec_rx_buffer() is None ==> r.0 is None
                && final(self).spec_rx_buffer() is None,
            old(self).spec_staged().len() == 0 ==> r.0 is None && final(self).spec_rx_buffer()
                == old(self).spec_rx_buffer(),
            final(self).spec_staged() == Seq::<u8>::empty(),
            // Transmit: completion exactly per the drain relation.
            (r.1, final(self).spec_transaction()) == spec_drain_tx(old(self).spec_transaction()),
            final(self).spec_staging_capacity() == old(self).spec_staging_capacity(),
            final(self).spec_priority() == old(self).spec_priority(),
    {
        let staged_len = self.isr_len;
        let mut rx_completion: Option<RxCompletion> = None;
        if staged_len != 0 {
            match self.rx_buf.take() {
                Some(mut buf) => {
                    let mut i: usize = 0;
                    while i < staged_len
                        invariant
                            i <= staged_len,
                            staged_len <= self.staging@.len(),
                            staged_len <= buf@.len(),
                            buf@.len() == old(self).spec_rx_buffer()->Some_0@.len(),
                            self.staging == old(self).staging,
                            forall|j: int|
                                0 <= j < i ==> buf@[j] == self.staging@[j],
                            forall|j: int|
                                i <= j < buf@.len() ==> buf@[j] == old(self).spec_rx_buffer()->Some_0@[j],
                        decreases staged_len - i,
                    {
                        let b = self.staging[i];
                        buf[i] = b;
                        i = i + 1;
                    }
                    self.isr_len = 0;
                    proof {
                        assert(buf@ =~= spec_copy_prefix(
                            old(self).spec_rx_buffer()->Some_0@,
                            old(self).spec_staged(),
                        ));
                    }
                    rx_completion = Some(
                        RxCompletion {
                            buffer: buf,
                            byte_count: staged_len,
                            error: Error::CommandComplete,
                        },
                    );
                },
                None => {
                    self.isr_len = 0;
                },
            }
        }
        let mut tx_completion: Option<TxCompletion> = None;
        match self.transaction.take() {
            Some(t) => {
                if t.index >= t.length {
                    tx_completion = Some(
                        TxCompletion { buffer: t.buffer, error: Error::CommandComplete },
                    );
                } else {
                    let put_result = self.transaction.put(t);
                    proof {
                        assert(put_result is Ok);
                    }
                }
            },
            None => {},
        }
        clear_event_flag(flags, self.event_priority);
        self.enable_interrupts();
        proof {
            assert(final(self).spec_staged() =~= Seq::<u8>::empty());
        }
        (rx_completion, tx_completion)
    }

    /// Forward a hardware interrupt for this port into the run-loop drain.
    pub fn handle_interrupt(&mut self, flags: &mut EventFlags) -> (r: (
        Option<RxCompletion>,
        Option<TxCompletion>,
    ))
        requires
            old(self).wf(),
            old(flags).wf(),
        ensures
            final(self).wf(),
            final(flags).wf(),
            final(flags)@ == spec_clear_flag(old(flags)@, old(self).spec_priority()),
            final(self).spec_interrupts_enabled(),
            (r.1, final(self).spec_transaction()) == spec_drain_tx(old(self).spec_transaction()),
            final(self).spec_staged() == Seq::<u8>::empty(),
    {
        self.handle_event(flags)
    }
}

} // verus!
