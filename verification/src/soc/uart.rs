//! The serial port of the system-on-chip: transmit only, one character at a
//! time.

use vstd::prelude::*;
use vstd::string::StringSliceAdditionalSpecFns;
use crate::soc::bus::{last_value, lemma_written_to_push, register_address, written_to, BusAccess, RegisterBus};

verus! {

/// Number of the register that takes the character to send.
pub const UART_TX_DATA: u32 = 4;

/// Number of the register that tells whether the transmitter is ready.
pub const UART_TX_READY: u32 = 5;

/// How often the transmitter is asked whether it is ready before a
/// character is given up.
pub const UART_PATIENCE: u32 = 0xffff_ffff;

/// The sixteen hexadecimal digits, in lower case.
pub const HEXCHAR: [u8; 16] = [
    0x30, 0x31, 0x32, 0x33, 0x34, 0x35, 0x36, 0x37, 0x38, 0x39, 0x61, 0x62, 0x63, 0x64, 0x65, 0x66,
];

/// The digit of `v` that stands `position` places from the right.
pub open spec fn hex_nibble(v: u32, position: u32) -> u32 {
    (v >> (4 * position) as u32) & 0x0fu32
}

/// The character of a hexadecimal digit: `0` to `9`, then `a` to `f`.
pub open spec fn hex_char(nibble: u32) -> u8 {
    if nibble < 10 {
        (0x30 + nibble) as u8
    } else {
        (0x61 + nibble - 10) as u8
    }
}

/// The lowest `digits` hexadecimal digits of `v` as characters, the highest
/// of them first.
pub open spec fn hex_text(v: u32, digits: usize) -> Seq<u8> {
    Seq::new(digits as nat, |i: int| hex_char(hex_nibble(v, (digits - 1 - i) as u32)))
}

/// The characters as the words that go to the transmitter.
pub open spec fn as_words(text: Seq<u8>) -> Seq<u32> {
    Seq::new(text.len(), |i: int| text[i] as u32)
}

/// `after` continues `before` with nothing written but `sent` to the
/// register at `data`.
pub open spec fn only_sent(before: Seq<BusAccess>, after: Seq<BusAccess>, data: u32, sent: Seq<u8>) -> bool {
    forall|address: u32| #[trigger]
        written_to(after, address) == if address == data {
            written_to(before, address) + as_words(sent)
        } else {
            written_to(before, address)
        }
}

/// `count` enquiries at the register at `ready` that found the transmitter
/// busy.
pub open spec fn busy_polls(ready: u32, count: nat) -> Seq<BusAccess> {
    Seq::new(count, |i: int| BusAccess::Read { address: ready, value: 0 })
}

proof fn lemma_hexchar(nibble: u32)
    requires
        nibble < 16,
    ensures
        HEXCHAR[nibble as int] == hex_char(nibble),
{
    assert(nibble == 0 || nibble == 1 || nibble == 2 || nibble == 3 || nibble == 4 || nibble == 5 || nibble == 6
        || nibble == 7 || nibble == 8 || nibble == 9 || nibble == 10 || nibble == 11 || nibble == 12 || nibble
        == 13 || nibble == 14 || nibble == 15);
}

/// An offensively simple serial port: it waits for the transmitter before
/// every character.
pub struct Uart {
    p: u32,
}

impl Uart {
    pub const EOL: u8 = 0x0a;

    pub const SPACE: u8 = 0x20;

    pub fn new(p: u32) -> (uart: Self)
        ensures
            uart.base() == p,
    {
        Self { p }
    }

    /// The address of register 0.
    pub closed spec fn base(&self) -> u32 {
        self.p
    }

    /// The address of the register that takes the character to send.
    pub open spec fn data_address(&self) -> u32 {
        register_address(self.base(), UART_TX_DATA)
    }

    /// The address of the register that tells whether the transmitter is
    /// ready.
    pub open spec fn ready_address(&self) -> u32 {
        register_address(self.base(), UART_TX_READY)
    }

    /// Sending the character `c` leads from the accesses `before` to the
    /// accesses `after`. If it was sent, the transmitter was found busy
    /// `polls` times, at most [`UART_PATIENCE`] times, then answered
    /// `answer`, which is not zero, and was given the character. If it was
    /// not, the transmitter was found busy once more than
    /// [`UART_PATIENCE`] times, and nothing else was done.
    pub open spec fn char_outcome(
        &self,
        before: Seq<BusAccess>,
        after: Seq<BusAccess>,
        c: u8,
        sent: bool,
        polls: nat,
        answer: u32,
    ) -> bool {
        if sent {
            &&& polls <= UART_PATIENCE
            &&& answer != 0
            &&& after == before + busy_polls(self.ready_address(), polls) + seq![
                BusAccess::Read { address: self.ready_address(), value: answer },
                BusAccess::Write { address: self.data_address(), value: c as u32 },
            ]
        } else {
            after == before + busy_polls(self.ready_address(), (UART_PATIENCE + 1) as nat)
        }
    }

    /// The last accesses were the enquiries after which a character is
    /// given up: one more than [`UART_PATIENCE`], and all found the
    /// transmitter busy.
    pub open spec fn gave_up(&self, accesses: Seq<BusAccess>) -> bool {
        &&& accesses.len() > UART_PATIENCE
        &&& accesses.subrange(accesses.len() - (UART_PATIENCE + 1), accesses.len() as int) == busy_polls(
            self.ready_address(),
            (UART_PATIENCE + 1) as nat,
        )
    }

    fn address(&self, n: u32) -> (address: u32)
        ensures
            address == register_address(self.base(), n),
    {
        ((self.p as u64 + 4 * (n as u64)) % 0x1_0000_0000) as u32
    }

    fn register_write<B: RegisterBus>(&self, bus: &mut B, n: u32, v: u32)
        ensures
            final(bus).accesses() == old(bus).accesses().push(
                BusAccess::Write { address: register_address(self.base(), n), value: v },
            ),
    {
        bus.write(self.address(n), v);
    }

    fn register_read<B: RegisterBus>(&self, bus: &mut B, n: u32) -> (value: u32)
        ensures
            final(bus).accesses() == old(bus).accesses().push(
                BusAccess::Read { address: register_address(self.base(), n), value },
            ),
    {
        bus.read(self.address(n))
    }

    fn tx_data<B: RegisterBus>(&self, bus: &mut B, v: u32)
        requires
            v < 256,
        ensures
            only_sent(old(bus).accesses(), final(bus).accesses(), self.data_address(), seq![v as u8]),
            final(bus).accesses() == old(bus).accesses().push(
                BusAccess::Write { address: self.data_address(), value: v },
            ),
    {
        self.register_write(bus, UART_TX_DATA, v);
        proof {
            assert forall|address: u32| #[trigger]
                written_to(bus.accesses(), address) == if address == self.data_address() {
                    written_to(old(bus).accesses(), address) + as_words(seq![v as u8])
                } else {
                    written_to(old(bus).accesses(), address)
                } by {
                lemma_written_to_push(
                    old(bus).accesses(),
                    BusAccess::Write { address: self.data_address(), value: v },
                    address,
                );
                assert(as_words(seq![v as u8]) =~= seq![v]);
                assert(written_to(old(bus).accesses(), address).push(v) =~= written_to(
                    old(bus).accesses(),
                    address,
                ) + seq![v]);
            }
        }
    }

    fn tx_rdy<B: RegisterBus>(&self, bus: &mut B) -> (ready: bool)
        ensures
            only_sent(old(bus).accesses(), final(bus).accesses(), self.data_address(), Seq::empty()),
            final(bus).accesses() == old(bus).accesses().push(
                BusAccess::Read { address: self.ready_address(), value: last_value(final(bus).accesses()) },
            ),
            ready == (last_value(final(bus).accesses()) != 0),
    {
        let ready = self.register_read(bus, UART_TX_READY) != 0;
        proof {
            assert forall|address: u32| #[trigger]
                written_to(bus.accesses(), address) == if address == self.data_address() {
                    written_to(old(bus).accesses(), address) + as_words(Seq::empty())
                } else {
                    written_to(old(bus).accesses(), address)
                } by {
                lemma_written_to_push(old(bus).accesses(), bus.accesses().last(), address);
                assert(bus.accesses().drop_last() =~= old(bus).accesses());
                assert(written_to(old(bus).accesses(), address) + as_words(Seq::<u8>::empty()) =~= written_to(
                    old(bus).accesses(),
                    address,
                ));
            }
        }
        ready
    }

    /// Waits for the transmitter and gives it the character `c`. Returns
    /// whether the character was sent: it is given up if the transmitter is
    /// still not ready after [`UART_PATIENCE`] enquiries.
    pub fn write_char<B: RegisterBus>(&self, bus: &mut B, c: u8) -> (sent: bool)
        ensures
            only_sent(
                old(bus).accesses(),
                final(bus).accesses(),
                self.data_address(),
                if sent { seq![c] } else { Seq::empty() },
            ),
            exists|polls: nat, answer: u32| #[trigger]
                self.char_outcome(old(bus).accesses(), final(bus).accesses(), c, sent, polls, answer),
    {
        let mut patience: u32 = UART_PATIENCE;
        let mut ready = self.tx_rdy(bus);
        let ghost mut polls: nat = 0;
        let ghost mut answer: u32 = last_value(bus.accesses());
        proof {
            let first = BusAccess::Read { address: self.ready_address(), value: answer };
            if ready {
                assert(bus.accesses() =~= old(bus).accesses() + busy_polls(self.ready_address(), 0) + seq![first]);
            } else {
                assert(bus.accesses() =~= old(bus).accesses() + busy_polls(self.ready_address(), 1));
            }
        }
        while !ready && patience > 0
            invariant
                only_sent(old(bus).accesses(), bus.accesses(), self.data_address(), Seq::empty()),
                !ready ==> bus.accesses() == old(bus).accesses() + busy_polls(
                    self.ready_address(),
                    (UART_PATIENCE - patience + 1) as nat,
                ),
                ready ==> answer != 0 && polls <= UART_PATIENCE - patience && bus.accesses() == old(
                    bus,
                ).accesses() + busy_polls(self.ready_address(), polls) + seq![
                    BusAccess::Read { address: self.ready_address(), value: answer },
                ],
            decreases patience,
        {
            let ghost before = bus.accesses();
            ready = self.tx_rdy(bus);
            proof {
                let busy = (UART_PATIENCE - patience + 1) as nat;
                answer = last_value(bus.accesses());
                let latest = BusAccess::Read { address: self.ready_address(), value: answer };
                if ready {
                    polls = busy;
                    assert(bus.accesses() =~= old(bus).accesses() + busy_polls(self.ready_address(), polls)
                        + seq![latest]);
                } else {
                    assert(bus.accesses() =~= old(bus).accesses() + busy_polls(self.ready_address(), busy + 1));
                }
            }
            patience -= 1;
            proof {
                lemma_only_sent_chain(
                    old(bus).accesses(),
                    before,
                    bus.accesses(),
                    self.data_address(),
                    Seq::empty(),
                    Seq::empty(),
                );
            }
        }
        if ready {
            let ghost before = bus.accesses();
            self.tx_data(bus, c as u32);
            proof {
                lemma_only_sent_chain(
                    old(bus).accesses(),
                    before,
                    bus.accesses(),
                    self.data_address(),
                    Seq::empty(),
                    seq![c],
                );
                assert(bus.accesses() =~= old(bus).accesses() + busy_polls(self.ready_address(), polls) + seq![
                    BusAccess::Read { address: self.ready_address(), value: answer },
                    BusAccess::Write { address: self.data_address(), value: c as u32 },
                ]);
            }
        }
        proof {
            assert(self.char_outcome(old(bus).accesses(), bus.accesses(), c, ready, polls, answer));
        }
        ready
    }

    /// After a character was given up, the last accesses are the enquiries
    /// that were made in vain.
    proof fn lemma_given_up(&self, before: Seq<BusAccess>, after: Seq<BusAccess>, c: u8)
        requires
            exists|polls: nat, answer: u32| #[trigger] self.char_outcome(before, after, c, false, polls, answer),
        ensures
            self.gave_up(after),
    {
        let (polls, answer) = choose|polls: nat, answer: u32| #[trigger]
            self.char_outcome(before, after, c, false, polls, answer);
        assert(self.char_outcome(before, after, c, false, polls, answer));
        let waited = busy_polls(self.ready_address(), (UART_PATIENCE + 1) as nat);
        assert(after.subrange(after.len() - (UART_PATIENCE + 1), after.len() as int) =~= waited);
    }

    /// Sends the lowest `digits` hexadecimal digits of `v`, the highest of
    /// them first. Returns how many were sent: fewer than `digits` only if
    /// one was given up, and then none after it is tried.
    fn write_hex<B: RegisterBus>(&self, bus: &mut B, v: u32, digits: usize) -> (sent: usize)
        requires
            digits <= 8,
        ensures
            sent <= digits,
            only_sent(
                old(bus).accesses(),
                final(bus).accesses(),
                self.data_address(),
                hex_text(v, digits).subrange(0, sent as int),
            ),
            sent < digits ==> self.gave_up(final(bus).accesses()),
    {
        let mut n: usize = 0;
        proof {
            lemma_only_sent_nothing(bus.accesses(), self.data_address());
            assert(hex_text(v, digits).subrange(0, 0) =~= Seq::<u8>::empty());
        }
        while n < digits
            invariant
                n <= digits <= 8,
                only_sent(
                    old(bus).accesses(),
                    bus.accesses(),
                    self.data_address(),
                    hex_text(v, digits).subrange(0, n as int),
                ),
            decreases digits - n,
        {
            let ghost before = bus.accesses();
            let position: u32 = (digits - 1 - n) as u32;
            let nibble: u32 = (v >> (4 * position)) & 0x0fu32;
            proof {
                assert((v >> (4 * position) as u32) & 0x0fu32 < 16) by (bit_vector);
                lemma_hexchar(nibble);
            }
            let c: u8 = HEXCHAR[nibble as usize];
            let sent = self.write_char(bus, c);
            if !sent {
                proof {
                    self.lemma_given_up(before, bus.accesses(), c);
                    lemma_only_sent_chain(
                        old(bus).accesses(),
                        before,
                        bus.accesses(),
                        self.data_address(),
                        hex_text(v, digits).subrange(0, n as int),
                        Seq::empty(),
                    );
                    assert(hex_text(v, digits).subrange(0, n as int) + Seq::<u8>::empty() =~= hex_text(
                        v,
                        digits,
                    ).subrange(0, n as int));
                }
                return n;
            }
            proof {
                lemma_only_sent_chain(
                    old(bus).accesses(),
                    before,
                    bus.accesses(),
                    self.data_address(),
                    hex_text(v, digits).subrange(0, n as int),
                    seq![c],
                );
                assert(hex_text(v, digits).subrange(0, n as int) + seq![c] =~= hex_text(v, digits).subrange(
                    0,
                    n + 1,
                ));
            }
            n += 1;
        }
        n
    }

    /// Sends `v` as two hexadecimal digits. Returns how many were sent:
    /// fewer than all only if one was given up.
    pub fn write_hex_u8<B: RegisterBus>(&self, bus: &mut B, v: u8) -> (sent: usize)
        ensures
            sent <= 2,
            only_sent(
                old(bus).accesses(),
                final(bus).accesses(),
                self.data_address(),
                hex_text(v as u32, 2).subrange(0, sent as int),
            ),
            sent < 2 ==> self.gave_up(final(bus).accesses()),
    {
        self.write_hex(bus, v as u32, 2)
    }

    /// Sends `v` as four hexadecimal digits. Returns how many were sent:
    /// fewer than all only if one was given up.
    pub fn write_hex_u16<B: RegisterBus>(&self, bus: &mut B, v: u16) -> (sent: usize)
        ensures
            sent <= 4,
            only_sent(
                old(bus).accesses(),
                final(bus).accesses(),
                self.data_address(),
                hex_text(v as u32, 4).subrange(0, sent as int),
            ),
            sent < 4 ==> self.gave_up(final(bus).accesses()),
    {
        self.write_hex(bus, v as u32, 4)
    }

    /// Sends `v` as eight hexadecimal digits. Returns how many were sent:
    /// fewer than all only if one was given up.
    pub fn write_hex_u32<B: RegisterBus>(&self, bus: &mut B, v: u32) -> (sent: usize)
        ensures
            sent <= 8,
            only_sent(
                old(bus).accesses(),
                final(bus).accesses(),
                self.data_address(),
                hex_text(v, 8).subrange(0, sent as int),
            ),
            sent < 8 ==> self.gave_up(final(bus).accesses()),
    {
        self.write_hex(bus, v, 8)
    }

    /// Sends the bytes of `s`, one after the other. Returns how many were
    /// sent: fewer than all only if one was given up.
    pub fn write_str<B: RegisterBus>(&self, bus: &mut B, s: &str) -> (sent: usize)
        ensures
            sent <= s.spec_bytes().len(),
            only_sent(
                old(bus).accesses(),
                final(bus).accesses(),
                self.data_address(),
                s.spec_bytes().subrange(0, sent as int),
            ),
            sent < s.spec_bytes().len() ==> self.gave_up(final(bus).accesses()),
    {
        let bytes = s.as_bytes();
        let mut n: usize = 0;
        proof {
            lemma_only_sent_nothing(bus.accesses(), self.data_address());
            assert(bytes@.subrange(0, 0) =~= Seq::<u8>::empty());
        }
        while n < bytes.len()
            invariant
                n <= bytes@.len(),
                bytes@ == s.spec_bytes(),
                only_sent(old(bus).accesses(), bus.accesses(), self.data_address(), bytes@.subrange(0, n as int)),
            decreases bytes@.len() - n,
        {
            let ghost before = bus.accesses();
            let c = bytes[n];
            let sent = self.write_char(bus, c);
            if !sent {
                proof {
                    self.lemma_given_up(before, bus.accesses(), c);
                    lemma_only_sent_chain(
                        old(bus).accesses(),
                        before,
                        bus.accesses(),
                        self.data_address(),
                        bytes@.subrange(0, n as int),
                        Seq::empty(),
                    );
                    assert(bytes@.subrange(0, n as int) + Seq::<u8>::empty() =~= bytes@.subrange(0, n as int));
                }
                return n;
            }
            proof {
                lemma_only_sent_chain(
                    old(bus).accesses(),
                    before,
                    bus.accesses(),
                    self.data_address(),
                    bytes@.subrange(0, n as int),
                    seq![c],
                );
                assert(bytes@.subrange(0, n as int) + seq![c] =~= bytes@.subrange(0, n + 1));
            }
            n += 1;
        }
        n
    }
}

/// Doing nothing sends nothing.
pub proof fn lemma_only_sent_nothing(accesses: Seq<BusAccess>, data: u32)
    ensures
        only_sent(accesses, accesses, data, Seq::empty()),
{
    assert forall|address: u32| #[trigger]
        written_to(accesses, address) == if address == data {
            written_to(accesses, address) + as_words(Seq::empty())
        } else {
            written_to(accesses, address)
        } by {
        assert(written_to(accesses, address) + as_words(Seq::<u8>::empty()) =~= written_to(accesses, address));
    }
}

/// What is sent in two steps is sent in one.
pub proof fn lemma_only_sent_chain(
    start: Seq<BusAccess>,
    middle: Seq<BusAccess>,
    end: Seq<BusAccess>,
    data: u32,
    first: Seq<u8>,
    second: Seq<u8>,
)
    requires
        only_sent(start, middle, data, first),
        only_sent(middle, end, data, second),
    ensures
        only_sent(start, end, data, first + second),
{
    assert forall|address: u32| #[trigger]
        written_to(end, address) == if address == data {
            written_to(start, address) + as_words(first + second)
        } else {
            written_to(start, address)
        } by {
        assert(written_to(middle, address) == if address == data {
            written_to(start, address) + as_words(first)
        } else {
            written_to(start, address)
        });
        assert(as_words(first + second) =~= as_words(first) + as_words(second));
        assert((written_to(start, address) + as_words(first)) + as_words(second) =~= written_to(start, address) + (
        as_words(first) + as_words(second)));
    }
}

} // verus!
