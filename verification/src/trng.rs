//! True-random-number-generator driver: an interrupt-driven entropy source
//! built on one peripheral clock handle and the generator's register block.
//!
//! The register block is modelled as plain state: the two control bits, the
//! two error flags, and the words the hardware has buffered as ready — the
//! data-ready flag reads as set exactly while at least one word is buffered,
//! and reading the data register consumes the front word.

use crate::periph::{
    line_of, PeripheralClock, PeripheralClockInterface, PeripheralClockType, HCLK2,
};
use crate::rcc::{rng_configured_step, same_clock_tree, same_rng_config, Rcc, RtcClockSource};
use vstd::prelude::*;

verus! {

/// A client's answer after consuming entropy: whether it wants more words
/// later or is done, in which case the driver disables itself.
#[derive(Clone, Copy, PartialEq, Eq, Structural, Debug)]
pub enum Continue {
    /// More entropy is wanted; the generator stays armed.
    More,
    /// No more entropy is wanted; the driver returns to its disabled state.
    Done,
}

/// Error type of the entropy interface. `get` and `cancel` only manipulate
/// control bits and always succeed; the type exists for symmetry with other
/// entropy sources.
#[derive(Clone, Copy, PartialEq, Eq, Structural, Debug)]
pub enum ErrorCode {
    Fail,
    Busy,
    Off,
}

/// The generator's register block: control bits, error flags, and the words
/// the hardware has buffered as ready.
pub struct RngRegisters {
    /// Control: interrupt enable.
    pub ie: bool,
    /// Control: generator enable.
    pub rngen: bool,
    /// Status: seed-error interrupt flag.
    pub seis: bool,
    /// Status: clock-error interrupt flag.
    pub ceis: bool,
    /// Words ready to be read; the data-ready flag is set exactly while this
    /// is non-empty, and a data-register read consumes the front word.
    pub ready_words: Vec<u32>,
}

/// Holds when the control bits and the error flags agree between two register
/// states, so at most the buffered words differ.
pub open spec fn same_control_and_errors(a: RngRegisters, b: RngRegisters) -> bool {
    &&& a.ie == b.ie
    &&& a.rngen == b.rngen
    &&& a.seis == b.seis
    &&& a.ceis == b.ceis
}

/// Holds when `post`'s buffered words are `pre`'s with the first `k` consumed
/// in order from the front.
pub open spec fn consumed_prefix(pre: RngRegisters, post: RngRegisters, k: int) -> bool {
    &&& 0 <= k <= pre.ready_words@.len()
    &&& post.ready_words@ == pre.ready_words@.skip(k)
}

impl RngRegisters {
    /// Registers with both control bits clear, no error reported and nothing
    /// buffered: the generator's disabled state.
    pub fn new() -> (r: RngRegisters)
        ensures
            !r.ie,
            !r.rngen,
            !r.seis,
            !r.ceis,
            r.ready_words@.len() == 0,
    {
        RngRegisters { ie: false, rngen: false, seis: false, ceis: false, ready_words: Vec::new() }
    }

    /// Whether the data-ready flag is set.
    pub open spec fn data_ready(self) -> bool {
        self.ready_words@.len() > 0
    }

    /// One pull of the lazy word sequence handed to a client: reads the data
    /// register if and only if the data-ready flag is set, which both returns
    /// the front word and clears the flag for it; yields nothing once the
    /// flag is clear.
    pub fn next_word(&mut self) -> (r: Option<u32>)
        ensures
            same_control_and_errors(*old(self), *final(self)),
            old(self).data_ready() ==> {
                &&& r == Some(old(self).ready_words@[0])
                &&& final(self).ready_words@ == old(self).ready_words@.skip(1)
            },
            !old(self).data_ready() ==> {
                &&& r is None
                &&& final(self).ready_words@ == old(self).ready_words@
            },
    {
        if self.ready_words.len() > 0 {
            Some(self.ready_words.remove(0))
        } else {
            None
        }
    }
}

/// A consumer of entropy, registered with the driver and invoked from the
/// interrupt handler with the driver's one-shot word sequence. An
/// implementation may pull zero or more ready words through
/// [`RngRegisters::next_word`]; it must not touch the control bits or the
/// error flags.
pub trait Client32 {
    /// The completion signal this client returns when invoked with itself and
    /// the word sequence in the given states. A client decides from what it
    /// holds and what it pulls, so the signal is a function of those two
    /// states alone.
    spec fn completion(&self, source: RngRegisters) -> Continue;

    /// Called with entropy available. `source` yields one buffered 32-bit
    /// word per pull while the data-ready flag holds, then nothing. The
    /// returned signal says whether the driver should stay armed.
    fn entropy_available(&mut self, source: &mut RngRegisters) -> (c: Continue)
        ensures
            c == old(self).completion(*old(source)),
            same_control_and_errors(*old(source), *final(source)),
            exists|k: int| consumed_prefix(*old(source), *final(source), k),
    ;
}

/// A client that pulls every word for which the data-ready flag holds, keeps
/// them in order, and always asks for more, so the generator stays armed.
pub struct WordCollector {
    pub collected: Vec<u32>,
}

impl WordCollector {
    pub fn new() -> (r: WordCollector)
        ensures
            r.collected@.len() == 0,
    {
        WordCollector { collected: Vec::new() }
    }
}

impl Client32 for WordCollector {
    /// The collector always asks for more.
    open spec fn completion(&self, source: RngRegisters) -> Continue {
        Continue::More
    }

    /// Consumes exactly the words for which data-ready was true, appending
    /// them in order to `collected`.
    fn entropy_available(&mut self, source: &mut RngRegisters) -> (c: Continue)
        ensures
            final(source).ready_words@.len() == 0,
            final(self).collected@ == old(self).collected@ + old(source).ready_words@,
            c == Continue::More,
    {
        let ghost orig = *source;
        let ghost start = self.collected@;
        proof {
            assert(orig.ready_words@.skip(0) =~= orig.ready_words@);
            assert(start + orig.ready_words@.take(0) =~= start);
            assert(consumed_prefix(orig, *source, 0) && self.collected@ == start
                + orig.ready_words@.take(0));
        }
        loop
            invariant
                same_control_and_errors(orig, *source),
                exists|k: int|
                    {
                        &&& #[trigger] consumed_prefix(orig, *source, k)
                        &&& self.collected@ == start + orig.ready_words@.take(k)
                    },
            ensures
                same_control_and_errors(orig, *source),
                exists|k: int| consumed_prefix(orig, *source, k),
                source.ready_words@.len() == 0,
                self.collected@ == start + orig.ready_words@,
            decreases source.ready_words@.len(),
        {
            let ghost before = *source;
            let ghost coll_before = self.collected@;
            match source.next_word() {
                Some(word) => {
                    self.collected.push(word);
                    proof {
                        let k0 = choose|k: int|
                            #[trigger] consumed_prefix(orig, before, k) && coll_before == start
                                + orig.ready_words@.take(k);
                        assert(orig.ready_words@.skip(k0).skip(1) =~= orig.ready_words@.skip(
                            k0 + 1,
                        ));
                        assert(start + orig.ready_words@.take(k0 + 1) =~= (start
                            + orig.ready_words@.take(k0)).push(word));
                        assert(consumed_prefix(orig, *source, k0 + 1) && self.collected@ == start
                            + orig.ready_words@.take(k0 + 1));
                    }
                },
                None => {
                    proof {
                        let k0 = choose|k: int|
                            #[trigger] consumed_prefix(orig, before, k) && coll_before == start
                                + orig.ready_words@.take(k);
                        assert(orig.ready_words@.take(k0) =~= orig.ready_words@);
                        assert(consumed_prefix(orig, *source, k0));
                        assert(self.collected@ == start + orig.ready_words@);
                    }
                    break ;
                },
            }
        }
        Continue::More
    }
}

/// The entropy driver: the generator's registers, the clock handle for its
/// own clock domain, and an optional slot holding at most one registered
/// client.
pub struct Trng<Cl> {
    pub registers: RngRegisters,
    pub clock: PeripheralClock,
    pub client: Option<Cl>,
}

impl<Cl: Client32> Trng<Cl> {
    pub fn new(registers: RngRegisters, clock: PeripheralClock) -> (r: Trng<Cl>)
        ensures
            r.registers == registers,
            r.clock == clock,
            r.client is None,
    {
        Trng { registers, clock, client: None }
    }

    /// Whether the driver's own clock domain is gated on.
    pub fn is_enabled_clock(&self, rcc: &Rcc) -> (r: bool)
        ensures
            r == rcc.gates@[line_of(self.clock.clock)],
    {
        self.clock.is_enabled(rcc)
    }

    /// Gates the driver's own clock domain on, for board setup code.
    pub fn enable_clock(&self, rcc: &mut Rcc)
        ensures
            final(rcc).gates@ == old(rcc).gates@.insert(line_of(self.clock.clock), true),
            same_clock_tree(*old(rcc), *final(rcc)),
            same_rng_config(*old(rcc), *final(rcc)),
            final(rcc).rtc_clock_source == (if self.clock.clock is RTC {
                Some(RtcClockSource::LSI)
            } else {
                old(rcc).rtc_clock_source
            }),
    {
        self.clock.enable(rcc);
    }

    /// Gates the driver's own clock domain off, for board setup code.
    pub fn disable_clock(&self, rcc: &mut Rcc)
        ensures
            final(rcc).gates@ == old(rcc).gates@.insert(line_of(self.clock.clock), false),
            same_clock_tree(*old(rcc), *final(rcc)),
            same_rng_config(*old(rcc), *final(rcc)),
            final(rcc).rtc_clock_source == old(rcc).rtc_clock_source,
    {
        self.clock.disable(rcc);
    }

    /// Arms the generator: sets the interrupt-enable and generator-enable
    /// bits. Always succeeds; re-arming while armed is idempotent.
    pub fn get(&mut self) -> (r: Result<(), ErrorCode>)
        ensures
            r is Ok,
            final(self).registers.ie,
            final(self).registers.rngen,
            final(self).registers.seis == old(self).registers.seis,
            final(self).registers.ceis == old(self).registers.ceis,
            final(self).registers.ready_words@ == old(self).registers.ready_words@,
            final(self).clock == old(self).clock,
            final(self).client == old(self).client,
    {
        self.registers.ie = true;
        self.registers.rngen = true;
        Ok(())
    }

    /// Disarms the generator: clears the generator-enable then the
    /// interrupt-enable bit. Always succeeds; a no-op from the disabled
    /// state.
    pub fn cancel(&mut self) -> (r: Result<(), ErrorCode>)
        ensures
            r is Ok,
            !final(self).registers.ie,
            !final(self).registers.rngen,
            final(self).registers.seis == old(self).registers.seis,
            final(self).registers.ceis == old(self).registers.ceis,
            final(self).registers.ready_words@ == old(self).registers.ready_words@,
            final(self).clock == old(self).clock,
            final(self).client == old(self).client,
    {
        self.registers.rngen = false;
        self.registers.ie = false;
        Ok(())
    }

    /// Registers `client` as the one consumer of entropy, silently replacing
    /// any previous one.
    pub fn set_client(&mut self, client: Cl)
        ensures
            final(self).client == Some(client),
            final(self).registers == old(self).registers,
            final(self).clock == old(self).clock,
    {
        self.client = Some(client);
    }

    /// Applies the client's completion answer: on [`Continue::Done`] the
    /// driver returns to its disabled state by clearing both enable bits; on
    /// [`Continue::More`] it stays exactly as it is.
    pub fn apply_client_answer(&mut self, res: Continue)
        ensures
            res == Continue::Done ==> {
                &&& !final(self).registers.ie
                &&& !final(self).registers.rngen
                &&& final(self).registers.seis == old(self).registers.seis
                &&& final(self).registers.ceis == old(self).registers.ceis
                &&& final(self).registers.ready_words@ == old(self).registers.ready_words@
            },
            res == Continue::More ==> final(self).registers == old(self).registers,
            final(self).client == old(self).client,
            final(self).clock == old(self).clock,
    {
        if matches!(res, Continue::Done) {
            self.registers.ie = false;
            self.registers.rngen = false;
        }
    }

    /// The interrupt handler. Classifies the hardware condition and acts on
    /// the first reported one, in priority order:
    ///
    /// - seed error: clear the flag, read and drop the data register, and
    ///   restart the generator by toggling its enable bit off then on — no
    ///   client is notified;
    /// - clock error: run the clock handle's reconfiguration hook once and
    ///   clear the flag, leaving the generator-enable bits alone — no client
    ///   is notified;
    /// - otherwise: hand the registered client, if any, the one-shot word
    ///   sequence; if the client signals done, clear both enable bits before
    ///   returning.
    pub fn handle_interrupt(&mut self, rcc: &mut Rcc)
        ensures
            old(self).registers.seis ==> {
                &&& !final(self).registers.seis
                &&& final(self).registers.ceis == old(self).registers.ceis
                &&& final(self).registers.ie == old(self).registers.ie
                &&& final(self).registers.rngen
                &&& final(self).registers.ready_words@ == (if old(self).registers.data_ready() {
                    old(self).registers.ready_words@.skip(1)
                } else {
                    old(self).registers.ready_words@
                })
                &&& final(self).client == old(self).client
                &&& final(self).clock == old(self).clock
                &&& *final(rcc) == *old(rcc)
            },
            !old(self).registers.seis && old(self).registers.ceis ==> {
                &&& !final(self).registers.ceis
                &&& !final(self).registers.seis
                &&& final(self).registers.ie == old(self).registers.ie
                &&& final(self).registers.rngen == old(self).registers.rngen
                &&& final(self).registers.ready_words@ == old(self).registers.ready_words@
                &&& final(self).client == old(self).client
                &&& final(self).clock == old(self).clock
                &&& (old(self).clock.clock == PeripheralClockType::AHB2(HCLK2::RNG)
                    ==> rng_configured_step(*old(rcc), *final(rcc)))
                &&& (old(self).clock.clock != PeripheralClockType::AHB2(HCLK2::RNG)
                    ==> *final(rcc) == *old(rcc))
            },
            !old(self).registers.seis && !old(self).registers.ceis && old(self).client is None ==> {
                &&& final(self).registers == old(self).registers
                &&& final(self).client == old(self).client
                &&& final(self).clock == old(self).clock
                &&& *final(rcc) == *old(rcc)
            },
            !old(self).registers.seis && !old(self).registers.ceis ==> (old(
                self,
            ).client matches Some(cl) ==> {
                &&& exists|k: int|
                    consumed_prefix(old(self).registers, final(self).registers, k)
                &&& !final(self).registers.seis
                &&& !final(self).registers.ceis
                &&& (cl.completion(old(self).registers) == Continue::More
                    ==> final(self).registers.ie == old(self).registers.ie
                        && final(self).registers.rngen == old(self).registers.rngen)
                &&& (cl.completion(old(self).registers) == Continue::Done
                    ==> !final(self).registers.ie && !final(self).registers.rngen)
                &&& final(self).client is Some
                &&& final(self).clock == old(self).clock
                &&& *final(rcc) == *old(rcc)
            }),
    {
        if self.registers.seis {
            self.registers.seis = false;
            // Throw away the content of the data register.
            let _ = self.registers.next_word();
            // Restart the generator.
            self.registers.rngen = false;
            self.registers.rngen = true;
            return ;
        } else if self.registers.ceis {
            self.clock.configure(rcc);
            self.registers.ceis = false;
            return ;
        }
        let slot = self.client.take();
        match slot {
            Some(mut client) => {
                let res = client.entropy_available(&mut self.registers);
                let ghost mid = self.registers;
                self.client = Some(client);
                self.apply_client_answer(res);
                proof {
                    let k0 = choose|k: int| consumed_prefix(old(self).registers, mid, k);
                    assert(consumed_prefix(old(self).registers, self.registers, k0));
                }
            },
            None => {},
        }
    }
}

} // verus!
