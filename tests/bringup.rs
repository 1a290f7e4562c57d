use si5324::error::{Error, Signal};
use si5324::lock::{LockMonitor, LockPoll, LOCK_TIMEOUT_MS};
use si5324::mapper::{Field, FrequencySettings, Reason, ValidationError};
use si5324::registers::{
    check_ident, has_clkin2, has_xtal, ident, locked, require_signal, RegUpdate, IDENT_HI_REG, IDENT_LO_REG,
    LOL_STATUS_REG, LOS_STATUS_REG,
};
use si5324::setup::{select_ext_input, setup, Step, Topology};
use si5324::timestamp::split_timestamp;

/// A chip model: a register file, a loss-of-lock flag that clears after
/// `lock_after` polls, and a clock that advances `ms_per_poll` per poll.
struct SimChip {
    regs: [u8; 256],
    lock_after: Option<usize>,
    polls: usize,
    now: u64,
    ms_per_poll: u64,
    events: Vec<String>,
}

impl SimChip {
    fn new() -> SimChip {
        let mut regs = [0u8; 256];
        regs[IDENT_HI_REG as usize] = 0x01;
        regs[IDENT_LO_REG as usize] = 0x82;
        regs[LOL_STATUS_REG as usize] = 0x01;
        SimChip { regs, lock_after: Some(1), polls: 0, now: 0, ms_per_poll: 1, events: Vec::new() }
    }

    fn read(&mut self, reg: u8) -> u8 {
        self.events.push(format!("r{}", reg));
        if reg == LOL_STATUS_REG {
            self.polls += 1;
            return match self.lock_after {
                Some(k) if self.polls >= k => 0,
                _ => 1,
            };
        }
        self.regs[reg as usize]
    }

    fn write(&mut self, reg: u8, val: u8) {
        self.events.push(format!("wr{}", reg));
        self.regs[reg as usize] = val;
    }

    fn monitor(&mut self) -> Result<(), Error> {
        let m = LockMonitor::new(self.now);
        loop {
            let status = self.read(LOL_STATUS_REG);
            self.now += self.ms_per_poll;
            match m.poll(status, self.now) {
                LockPoll::Locked => return Ok(()),
                LockPoll::Pending => {}
                LockPoll::TimedOut => return Err(Error::LockTimeout),
            }
        }
    }

    fn run(&mut self, steps: &[Step]) -> Result<(), Error> {
        for s in steps {
            match *s {
                Step::Reset(a) => self.events.push(format!("reset{}", a)),
                Step::WaitUs(us) => self.events.push(format!("spin{}", us)),
                Step::Select(c) => self.events.push(format!("select{}", c)),
                Step::CheckIdent => {
                    let hi = self.read(IDENT_HI_REG);
                    let lo = self.read(IDENT_LO_REG);
                    check_ident(hi, lo)?;
                }
                Step::Update(u) => {
                    let old = if u.reads_first() { self.read(u.reg) } else { 0 };
                    self.write(u.reg, u.apply(old));
                }
                Step::RequireSignal(sig) => {
                    let st = self.read(LOS_STATUS_REG);
                    require_signal(sig, st)?;
                }
                Step::MonitorLock => self.monitor()?,
            }
        }
        Ok(())
    }
}

fn settings() -> FrequencySettings {
    FrequencySettings { n1_hs: 10, nc1_ls: 4, n2_hs: 10, n2_ls: 260, n31: 65, n32: 52, bwsel: 4 }
}

#[test]
fn setup_programs_registers() {
    let plan = setup(&settings(), Topology::Direct).unwrap();
    let mut chip = SimChip::new();
    chip.regs[2] = 0xa5;
    chip.regs[3] = 0xff;
    chip.regs[6] = 0xff;
    assert_eq!(chip.run(&plan), Ok(()));
    assert_eq!(chip.regs[0], 0x40);
    assert_eq!(chip.regs[2], 0x45);
    assert_eq!(chip.regs[3], 0x3f | 0x50);
    assert_eq!(chip.regs[6], 0xcf);
    assert_eq!(chip.regs[25], 6 << 5);
    assert_eq!(&chip.regs[31..34], &[0, 0, 3]);
    assert_eq!(&chip.regs[40..43], &[6 << 5, 1, 3]);
    assert_eq!(&chip.regs[43..46], &[0, 0, 64]);
    assert_eq!(&chip.regs[46..49], &[0, 0, 51]);
    assert_eq!(chip.regs[137], 0x01);
    assert_eq!(chip.regs[136], 0x40);
}

#[test]
fn setup_plan_shape() {
    let plan = setup(&settings(), Topology::Muxed(7)).unwrap();
    assert_eq!(&plan[..6], &[Step::Reset(true), Step::WaitUs(1000), Step::Reset(false), Step::WaitUs(10000), Step::Select(7), Step::CheckIdent]);
    assert_eq!(plan.len(), 6 + 21 + 3);
    assert_eq!(plan[6], Step::Update(RegUpdate { reg: 0, keep: 0xff, set: 0x40 }));
    assert_eq!(&plan[27..], &[Step::RequireSignal(Signal::Crystal), Step::RequireSignal(Signal::Clkin2), Step::MonitorLock]);
    let direct = setup(&settings(), Topology::Direct).unwrap();
    assert_eq!(direct.len(), 29);
    assert_eq!(direct[4], Step::CheckIdent);
}

#[test]
fn setup_rejects_invalid_settings() {
    let s = FrequencySettings { n1_hs: 3, ..settings() };
    assert_eq!(
        setup(&s, Topology::Direct),
        Err(Error::Validation(ValidationError { field: Field::N1Hs, reason: Reason::InvalidValue }))
    );
}

#[test]
fn identity_mismatch_writes_nothing() {
    let plan = setup(&settings(), Topology::Direct).unwrap();
    let mut chip = SimChip::new();
    chip.regs[IDENT_LO_REG as usize] = 0x83;
    assert_eq!(chip.run(&plan), Err(Error::IdentityMismatch));
    assert!(!chip.events.iter().any(|e| e.starts_with("wr")));
    assert_eq!(chip.events.last().unwrap(), "r135");
}

#[test]
fn ident_read_before_any_write() {
    let plan = setup(&settings(), Topology::Direct).unwrap();
    let mut chip = SimChip::new();
    chip.run(&plan).unwrap();
    let first_write = chip.events.iter().position(|e| e.starts_with("wr")).unwrap();
    let ident_read = chip.events.iter().position(|e| e == "r134").unwrap();
    assert!(ident_read < first_write);
}

#[test]
fn missing_signals() {
    let plan = setup(&settings(), Topology::Direct).unwrap();
    let mut chip = SimChip::new();
    chip.regs[LOS_STATUS_REG as usize] = 0x01;
    assert_eq!(chip.run(&plan), Err(Error::MissingSignal(Signal::Crystal)));
    let mut chip = SimChip::new();
    chip.regs[LOS_STATUS_REG as usize] = 0x04;
    assert_eq!(chip.run(&plan), Err(Error::MissingSignal(Signal::Clkin2)));
}

#[test]
fn status_decoding() {
    assert_eq!(ident(0x01, 0x82), 0x0182);
    assert_eq!(ident(0xab, 0xcd), 0xabcd);
    assert_eq!(check_ident(0x01, 0x82), Ok(()));
    assert_eq!(check_ident(0x82, 0x01), Err(Error::IdentityMismatch));
    assert!(has_xtal(0xfe) && !has_xtal(0x01));
    assert!(has_clkin2(0xfb) && !has_clkin2(0x04));
    assert!(locked(0x02) && !locked(0x03));
    assert_eq!(require_signal(Signal::Crystal, 0x04), Ok(()));
    assert_eq!(require_signal(Signal::Clkin2, 0x01), Ok(()));
}

#[test]
fn register_update_apply() {
    let u = RegUpdate { reg: 2, keep: 0x0f, set: 0x40 };
    assert!(u.reads_first());
    assert_eq!(u.apply(0xff), 0x4f);
    let b = RegUpdate { reg: 25, keep: 0, set: 0xc0 };
    assert!(!b.reads_first());
    assert_eq!(b.apply(0x12), 0xc0);
}

#[test]
fn locks_after_k_polls() {
    for k in [1usize, 2, 5, 100] {
        let mut chip = SimChip::new();
        chip.lock_after = Some(k);
        chip.ms_per_poll = 10;
        assert_eq!(chip.monitor(), Ok(()));
        assert_eq!(chip.polls, k);
        assert!(chip.now < LOCK_TIMEOUT_MS);
    }
}

#[test]
fn never_locks_times_out_at_deadline() {
    let mut chip = SimChip::new();
    chip.lock_after = None;
    chip.ms_per_poll = 1;
    assert_eq!(chip.monitor(), Err(Error::LockTimeout));
    assert_eq!(chip.now, LOCK_TIMEOUT_MS + 1);
    assert_eq!(chip.polls as u64, LOCK_TIMEOUT_MS + 1);
}

#[test]
fn poll_decisions() {
    let m = LockMonitor::new(1000);
    assert_eq!(m.poll(0x00, 50_000), LockPoll::Locked);
    assert_eq!(m.poll(0x01, 1000), LockPoll::Pending);
    assert_eq!(m.poll(0x01, 21_000), LockPoll::Pending);
    assert_eq!(m.poll(0x01, 21_001), LockPoll::TimedOut);
    assert_eq!(m.poll(0x01, 999), LockPoll::Pending);
    let late = LockMonitor::new(u64::MAX - 5);
    assert_eq!(late.poll(0x01, u64::MAX), LockPoll::Pending);
}

#[test]
fn select_input_codes() {
    let ext = select_ext_input(true);
    assert_eq!(ext, vec![Step::Update(RegUpdate { reg: 3, keep: 0x3f, set: 0x00 }), Step::MonitorLock]);
    let int = select_ext_input(false);
    assert_eq!(int, vec![Step::Update(RegUpdate { reg: 3, keep: 0x3f, set: 0x40 }), Step::MonitorLock]);
    let mut chip = SimChip::new();
    chip.regs[3] = 0xd5;
    assert_eq!(chip.run(&ext), Ok(()));
    assert_eq!(chip.regs[3], 0x15);
    assert_eq!(chip.regs[3] >> 6, 0b00);
    assert_eq!(chip.run(&int), Ok(()));
    assert_eq!(chip.regs[3] >> 6, 0b01);
    assert_eq!(chip.polls, 2);
}

#[test]
fn select_input_propagates_timeout() {
    let mut chip = SimChip::new();
    chip.lock_after = None;
    chip.ms_per_poll = 1000;
    assert_eq!(chip.run(&select_ext_input(true)), Err(Error::LockTimeout));
}

#[test]
fn timestamp_split() {
    assert_eq!(split_timestamp(0), (0, 0));
    assert_eq!(split_timestamp(12_345_678), (12, 345_678));
    assert_eq!(split_timestamp(999_999), (0, 999_999));
}
