use stm32f4xx::periph::{PeripheralClock, PeripheralClockType, HCLK2};
use stm32f4xx::rcc::{APBPrescaler, Rcc};
use stm32f4xx::trng::{Client32, Continue, RngRegisters, Trng, WordCollector};

/// Pulls every available word and always asks for more.
struct Greedy {
    got: Vec<u32>,
    calls: u32,
}

impl Client32 for Greedy {
    fn completion(&self, _source: RngRegisters) -> Continue {
        Continue::More
    }

    fn entropy_available(&mut self, source: &mut RngRegisters) -> Continue {
        self.calls += 1;
        while let Some(word) = source.next_word() {
            self.got.push(word);
        }
        Continue::More
    }
}

/// Pulls at most one word, then reports completion.
struct OneShot {
    got: Vec<u32>,
    calls: u32,
}

impl Client32 for OneShot {
    fn completion(&self, _source: RngRegisters) -> Continue {
        Continue::Done
    }

    fn entropy_available(&mut self, source: &mut RngRegisters) -> Continue {
        self.calls += 1;
        if let Some(word) = source.next_word() {
            self.got.push(word);
        }
        Continue::Done
    }
}

fn rng_clock() -> PeripheralClock {
    PeripheralClock::new(PeripheralClockType::AHB2(HCLK2::RNG))
}

fn fresh_rcc() -> Rcc {
    Rcc::new(16_000_000, APBPrescaler::DivideBy1, APBPrescaler::DivideBy1, false)
}

fn armed_registers(words: &[u32]) -> RngRegisters {
    let mut regs = RngRegisters::new();
    regs.ie = true;
    regs.rngen = true;
    regs.ready_words = words.to_vec();
    regs
}

#[test]
fn get_arms_the_generator_and_always_succeeds() {
    let mut trng: Trng<Greedy> = Trng::new(RngRegisters::new(), rng_clock());
    assert!(trng.get().is_ok());
    assert!(trng.registers.ie);
    assert!(trng.registers.rngen);
    // Re-arming while armed is idempotent.
    assert!(trng.get().is_ok());
    assert!(trng.registers.ie);
    assert!(trng.registers.rngen);
}

#[test]
fn cancel_disarms_the_generator_and_always_succeeds() {
    let mut trng: Trng<Greedy> = Trng::new(armed_registers(&[]), rng_clock());
    assert!(trng.cancel().is_ok());
    assert!(!trng.registers.ie);
    assert!(!trng.registers.rngen);
    // Safe to call from the disabled state.
    assert!(trng.cancel().is_ok());
    assert!(!trng.registers.ie);
    assert!(!trng.registers.rngen);
}

#[test]
fn set_client_replaces_the_previous_client() {
    let mut trng: Trng<Greedy> = Trng::new(RngRegisters::new(), rng_clock());
    trng.set_client(Greedy { got: vec![], calls: 7 });
    trng.set_client(Greedy { got: vec![], calls: 9 });
    assert_eq!(trng.client.as_ref().unwrap().calls, 9);
}

#[test]
fn clock_passthrough_gates_the_drivers_own_domain() {
    let mut rcc = fresh_rcc();
    let trng: Trng<Greedy> = Trng::new(RngRegisters::new(), rng_clock());
    assert!(!trng.is_enabled_clock(&rcc));
    trng.enable_clock(&mut rcc);
    assert!(trng.is_enabled_clock(&rcc));
    trng.disable_clock(&mut rcc);
    assert!(!trng.is_enabled_clock(&rcc));
}

#[test]
fn seed_error_recovers_without_notifying_the_client() {
    let mut rcc = fresh_rcc();
    let mut regs = armed_registers(&[0xdead_beef]);
    regs.seis = true;
    let mut trng: Trng<Greedy> = Trng::new(regs, rng_clock());
    trng.set_client(Greedy { got: vec![], calls: 0 });
    trng.handle_interrupt(&mut rcc);
    // Flag cleared, pending data discarded, generator restarted.
    assert!(!trng.registers.seis);
    assert!(trng.registers.ready_words.is_empty());
    assert!(trng.registers.rngen);
    assert!(trng.registers.ie);
    // The client was not invoked.
    assert_eq!(trng.client.as_ref().unwrap().calls, 0);
    assert!(trng.client.as_ref().unwrap().got.is_empty());
}

#[test]
fn seed_error_with_nothing_buffered_only_restarts() {
    let mut rcc = fresh_rcc();
    let mut regs = armed_registers(&[]);
    regs.seis = true;
    let mut trng: Trng<Greedy> = Trng::new(regs, rng_clock());
    trng.handle_interrupt(&mut rcc);
    assert!(!trng.registers.seis);
    assert!(trng.registers.ready_words.is_empty());
    assert!(trng.registers.rngen);
}

#[test]
fn clock_error_runs_the_recovery_hook_once_and_clears_the_flag() {
    let mut rcc = fresh_rcc();
    assert!(!rcc.rng_clock_configured);
    let mut regs = armed_registers(&[0x1234_5678]);
    regs.ceis = true;
    let mut trng: Trng<Greedy> = Trng::new(regs, rng_clock());
    trng.set_client(Greedy { got: vec![], calls: 0 });
    trng.handle_interrupt(&mut rcc);
    // Flag cleared, hook invoked, enable bits untouched, data untouched.
    assert!(!trng.registers.ceis);
    assert!(rcc.rng_clock_configured);
    assert!(trng.registers.ie);
    assert!(trng.registers.rngen);
    assert_eq!(trng.registers.ready_words, vec![0x1234_5678]);
    // The client was not invoked.
    assert_eq!(trng.client.as_ref().unwrap().calls, 0);
}

#[test]
fn seed_error_takes_priority_over_clock_error() {
    let mut rcc = fresh_rcc();
    let mut regs = armed_registers(&[]);
    regs.seis = true;
    regs.ceis = true;
    let mut trng: Trng<Greedy> = Trng::new(regs, rng_clock());
    trng.handle_interrupt(&mut rcc);
    // Only the seed-error branch ran.
    assert!(!trng.registers.seis);
    assert!(trng.registers.ceis);
    assert!(!rcc.rng_clock_configured);
}

#[test]
fn data_ready_delivers_every_buffered_word_to_a_continuing_client() {
    let mut rcc = fresh_rcc();
    let mut trng: Trng<Greedy> = Trng::new(armed_registers(&[1, 2, 3]), rng_clock());
    trng.set_client(Greedy { got: vec![], calls: 0 });
    trng.handle_interrupt(&mut rcc);
    let client = trng.client.as_ref().unwrap();
    assert_eq!(client.calls, 1);
    assert_eq!(client.got, vec![1, 2, 3]);
    // The client asked for more: the generator stays armed.
    assert!(trng.registers.ie);
    assert!(trng.registers.rngen);
    assert!(trng.registers.ready_words.is_empty());
}

#[test]
fn data_ready_with_nothing_buffered_delivers_nothing() {
    let mut rcc = fresh_rcc();
    let mut trng: Trng<Greedy> = Trng::new(armed_registers(&[]), rng_clock());
    trng.set_client(Greedy { got: vec![], calls: 0 });
    trng.handle_interrupt(&mut rcc);
    let client = trng.client.as_ref().unwrap();
    assert_eq!(client.calls, 1);
    assert!(client.got.is_empty());
    assert!(trng.registers.ie);
    assert!(trng.registers.rngen);
}

#[test]
fn client_done_disables_both_enable_bits() {
    let mut rcc = fresh_rcc();
    let mut trng: Trng<OneShot> = Trng::new(armed_registers(&[42, 43]), rng_clock());
    trng.set_client(OneShot { got: vec![], calls: 0 });
    trng.handle_interrupt(&mut rcc);
    let client = trng.client.as_ref().unwrap();
    assert_eq!(client.calls, 1);
    assert_eq!(client.got, vec![42]);
    // Done: the driver returned to its disabled state within this invocation.
    assert!(!trng.registers.ie);
    assert!(!trng.registers.rngen);
    // The word the client did not pull stays buffered.
    assert_eq!(trng.registers.ready_words, vec![43]);
}

#[test]
fn interrupt_without_a_client_changes_nothing() {
    let mut rcc = fresh_rcc();
    let mut trng: Trng<Greedy> = Trng::new(armed_registers(&[5]), rng_clock());
    trng.handle_interrupt(&mut rcc);
    assert!(trng.registers.ie);
    assert!(trng.registers.rngen);
    assert_eq!(trng.registers.ready_words, vec![5]);
    assert!(trng.client.is_none());
}

#[test]
fn word_collector_takes_every_ready_word_in_order() {
    let mut rcc = fresh_rcc();
    let mut trng: Trng<WordCollector> = Trng::new(armed_registers(&[9, 8, 7]), rng_clock());
    trng.set_client(WordCollector::new());
    trng.handle_interrupt(&mut rcc);
    assert_eq!(trng.client.as_ref().unwrap().collected, vec![9, 8, 7]);
    assert!(trng.registers.ready_words.is_empty());
    // The collector always asks for more: the generator stays armed.
    assert!(trng.registers.ie);
    assert!(trng.registers.rngen);
}
