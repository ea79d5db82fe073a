//! Capture configuration, the per-tick delay calibration and the capture
//! engine, driven one port snapshot at a time.
use vstd::prelude::*;
use crate::protocol::Command;
use crate::meta::{id_bytes, id_reply, metadata_bytes, metadata_reply};

verus! {

/// Shortest sampling period the engine supports, in nanoseconds.
pub const MIN_PERIOD_NS: u32 = 20;

/// What the engine waits after each port snapshot.
#[derive(PartialEq, Eq, Structural, Clone, Copy, Debug)]
pub enum TickDelay {
    /// No wait: snapshots are taken back to back.
    Immediate,
    /// The given number of single-cycle no-operations.
    Spin(u32),
    /// A delay of the given number of microseconds.
    Micros(u32),
}

/// First bucket of `b`, from index `i` on, whose period is `p`.
pub open spec fn bucket_from(b: Seq<(u32, u32)>, p: u32, i: int) -> Option<u32>
    decreases b.len() - i,
{
    if i >= b.len() {
        None
    } else if b[i].0 == p {
        Some(b[i].1)
    } else {
        bucket_from(b, p, i + 1)
    }
}

/// The delay that a calibration with no-wait floor `floor` and buckets `b`
/// gives to period `p`.
pub open spec fn delay_for(floor: u32, b: Seq<(u32, u32)>, p: u32) -> TickDelay {
    if p <= floor {
        TickDelay::Immediate
    } else {
        match bucket_from(b, p, 0) {
            Some(n) => TickDelay::Spin(n),
            None => TickDelay::Micros(p / 1000),
        }
    }
}

/// Buckets tuned against a 100 MHz core clock.
pub open spec fn standard_buckets() -> Seq<(u32, u32)> {
    seq![(50u32, 1u32), (100u32, 7u32), (200u32, 16u32), (500u32, 40u32), (1000u32, 100u32)]
}

/// The standard table: no wait up to the shortest period, 1, 7, 16, 40 and
/// 100 no-operations at 50, 100, 200, 500 and 1000 ns, whole microseconds
/// otherwise.
pub proof fn lemma_standard_delays(p: u32)
    ensures
        delay_for(MIN_PERIOD_NS, standard_buckets(), p) == if p <= MIN_PERIOD_NS {
            TickDelay::Immediate
        } else if p == 50 {
            TickDelay::Spin(1)
        } else if p == 100 {
            TickDelay::Spin(7)
        } else if p == 200 {
            TickDelay::Spin(16)
        } else if p == 500 {
            TickDelay::Spin(40)
        } else if p == 1000 {
            TickDelay::Spin(100)
        } else {
            TickDelay::Micros(p / 1000)
        },
{
    reveal_with_fuel(bucket_from, 6);
}

/// Maps a sampling period to the wait after each snapshot. Periods up to
/// `floor_ns` get no wait; a period equal to a bucket's gets that bucket's
/// count of no-operations; any other period waits whole microseconds.
pub struct Calibration {
    pub floor_ns: u32,
    /// Pairs of (period in ns, no-operation count), looked up in order.
    pub buckets: Vec<(u32, u32)>,
}

impl Calibration {
    pub open spec fn delay_spec(&self, period_ns: u32) -> TickDelay {
        delay_for(self.floor_ns, self.buckets@, period_ns)
    }

    /// The table for a 100 MHz core clock.
    pub fn standard() -> (c: Calibration)
        ensures
            c.floor_ns == MIN_PERIOD_NS,
            c.buckets@ == standard_buckets(),
    {
        let mut buckets: Vec<(u32, u32)> = Vec::new();
        buckets.push((50, 1));
        buckets.push((100, 7));
        buckets.push((200, 16));
        buckets.push((500, 40));
        buckets.push((1000, 100));
        assert(buckets@ =~= standard_buckets());
        Calibration { floor_ns: MIN_PERIOD_NS, buckets }
    }

    /// The wait after each snapshot when sampling every `period_ns`.
    pub fn tick_delay(&self, period_ns: u32) -> (d: TickDelay)
        ensures
            d == self.delay_spec(period_ns),
    {
        if period_ns <= self.floor_ns {
            return TickDelay::Immediate;
        }
        let mut i: usize = 0;
        while i < self.buckets.len()
            invariant
                i <= self.buckets@.len(),
                period_ns > self.floor_ns,
                bucket_from(self.buckets@, period_ns, i as int) == bucket_from(
                    self.buckets@,
                    period_ns,
                    0,
                ),
            decreases self.buckets@.len() - i,
        {
            let (p, n) = self.buckets[i];
            if p == period_ns {
                assert(bucket_from(self.buckets@, period_ns, i as int) == Some(n));
                return TickDelay::Spin(n);
            }
            i = i + 1;
        }
        TickDelay::Micros(period_ns / 1000)
    }
}

/// The capture settings, as a plain value.
#[derive(PartialEq, Eq, Structural, Clone, Copy, Debug)]
pub struct Config {
    /// Sampling period, ns.
    pub period: u32,
    /// Number of samples to take.
    pub read_cnt: usize,
    /// Wait before the first sample, us.
    pub start_delay: u32,
    pub flags: u32,
    pub trigger_mask: u32,
    pub trigger_val: u32,
    pub trigger_conf: u32,
}

/// The period set by divider `v`: `10 + 10 * v` ns, modulo 2^32.
pub open spec fn divider_period(v: u32) -> u32 {
    ((10 + 10 * v as int) % 0x1_0000_0000) as u32
}

impl Config {
    /// The settings after command `cmd`. Commands that set nothing leave
    /// them as they are.
    pub open spec fn apply(self, cmd: Command) -> Config {
        match cmd {
            Command::SetDivider(v) => Config { period: divider_period(v), ..self },
            Command::SetReadDelay(n, d) => Config {
                read_cnt: (4 + 4 * n as int) as usize,
                start_delay: (4 * d as int) as u32,
                ..self
            },
            Command::SetFlags(v) => Config { flags: v, ..self },
            Command::SetTriggerMask(v) => Config { trigger_mask: v, ..self },
            Command::SetTriggerValue(v) => Config { trigger_val: v, ..self },
            Command::SetTriggerConf(v) => Config { trigger_conf: v, ..self },
            _ => self,
        }
    }

    /// The settings with the sample count capped by the sample memory and the
    /// period raised to the shortest supported.
    pub open spec fn clamped(self) -> Config {
        Config {
            read_cnt: if self.read_cnt > Sampler::SAMPLE_MEMORY {
                Sampler::SAMPLE_MEMORY
            } else {
                self.read_cnt
            },
            period: if self.period < MIN_PERIOD_NS {
                MIN_PERIOD_NS
            } else {
                self.period
            },
            ..self
        }
    }
}

/// Emission order of captured samples: the last captured goes first.
pub open spec fn emission_order(s: Seq<u8>) -> Seq<u8> {
    Seq::new(s.len(), |i: int| s[s.len() - 1 - i])
}

/// One capture pass in progress: its plan and the snapshots taken so far.
pub struct Capture {
    count: usize,
    start_delay_us: u32,
    tick: TickDelay,
    samples: Vec<u8>,
}

impl Capture {
    /// Number of samples this pass takes.
    pub closed spec fn planned(&self) -> nat {
        self.count as nat
    }

    /// The snapshots taken so far, in capture order.
    pub closed spec fn recorded(&self) -> Seq<u8> {
        self.samples@
    }

    /// Wait before the first snapshot, us.
    pub closed spec fn wait_us(&self) -> u32 {
        self.start_delay_us
    }

    /// Wait after each snapshot.
    pub closed spec fn delay(&self) -> TickDelay {
        self.tick
    }

    pub closed spec fn wf(&self) -> bool {
        self.samples@.len() <= self.count <= Sampler::SAMPLE_MEMORY
    }

    pub proof fn lemma_bounded(&self)
        requires
            self.wf(),
        ensures
            self.recorded().len() <= self.planned() <= Sampler::SAMPLE_MEMORY,
    {
    }

    pub fn count(&self) -> (r: usize)
        ensures
            r == self.planned(),
    {
        self.count
    }

    pub fn start_delay_us(&self) -> (r: u32)
        ensures
            r == self.wait_us(),
    {
        self.start_delay_us
    }

    pub fn tick(&self) -> (r: TickDelay)
        ensures
            r == self.delay(),
    {
        self.tick
    }

    /// Whether every planned snapshot has been taken.
    pub fn is_complete(&self) -> (r: bool)
        requires
            self.wf(),
        ensures
            r == (self.recorded().len() == self.planned()),
    {
        self.samples.len() == self.count
    }

    /// Stores the next port snapshot.
    pub fn record(&mut self, sample: u8)
        requires
            old(self).wf(),
            old(self).recorded().len() < old(self).planned(),
        ensures
            final(self).wf(),
            final(self).recorded() == old(self).recorded().push(sample),
            final(self).planned() == old(self).planned(),
            final(self).wait_us() == old(self).wait_us(),
            final(self).delay() == old(self).delay(),
    {
        self.samples.push(sample);
    }

    /// Ends the pass, giving the samples in emission order.
    pub fn finish(self) -> (out: Vec<u8>)
        requires
            self.wf(),
            self.recorded().len() == self.planned(),
        ensures
            out@ == emission_order(self.recorded()),
            out@.len() == self.planned(),
    {
        let mut v = self.samples;
        let n = v.len();
        let ghost s = v@;
        let mut i: usize = 0;
        while i < n / 2
            invariant
                n == s.len(),
                v@.len() == n,
                i <= n / 2,
                forall|k: int| 0 <= k < i ==> v@[k] == s[n - 1 - k],
                forall|k: int| n - i <= k < n ==> v@[k] == s[n - 1 - k],
                forall|k: int| i <= k < n - i ==> v@[k] == s[k],
            decreases n / 2 - i,
        {
            let j = n - 1 - i;
            let a = v[i];
            let b = v[j];
            v[i] = b;
            v[j] = a;
            i = i + 1;
        }
        assert(v@ =~= emission_order(s));
        v
    }
}

/// What the device does in answer to a command.
pub enum Reply {
    /// Nothing is sent.
    Silent,
    /// These bytes are sent.
    Send(Vec<u8>),
    /// This capture pass is to be run and its samples sent.
    Capture(Capture),
}

/// The capture settings and the calibration that the engine samples with.
pub struct Sampler {
    /// Sampling period, ns.
    pub period: u32,
    /// Number of samples to take.
    pub read_cnt: usize,
    /// Wait before the first sample, us.
    pub start_delay: u32,
    pub flags: u32,
    pub trigger_mask: u32,
    pub trigger_val: u32,
    pub trigger_conf: u32,
    pub calibration: Calibration,
}

impl Sampler {
    /// Capacity of the sample buffer, in samples.
    pub const SAMPLE_MEMORY: usize = 100_000;
    /// Highest sample rate reported, Hz.
    pub const MAX_SAMPLERATE: usize = 50_000_000;

    pub open spec fn config(&self) -> Config {
        Config {
            period: self.period,
            read_cnt: self.read_cnt,
            start_delay: self.start_delay,
            flags: self.flags,
            trigger_mask: self.trigger_mask,
            trigger_val: self.trigger_val,
            trigger_conf: self.trigger_conf,
        }
    }

    /// A sampler with every setting zero and the standard calibration.
    pub fn new() -> (s: Sampler)
        ensures
            s.config() == (Config {
                period: 0,
                read_cnt: 0,
                start_delay: 0,
                flags: 0,
                trigger_mask: 0,
                trigger_val: 0,
                trigger_conf: 0,
            }),
            s.calibration.floor_ns == MIN_PERIOD_NS,
            s.calibration.buckets@ == standard_buckets(),
    {
        Sampler::with_calibration(Calibration::standard())
    }

    /// A sampler with every setting zero and the given calibration.
    pub fn with_calibration(calibration: Calibration) -> (s: Sampler)
        ensures
            s.config() == (Config {
                period: 0,
                read_cnt: 0,
                start_delay: 0,
                flags: 0,
                trigger_mask: 0,
                trigger_val: 0,
                trigger_conf: 0,
            }),
            s.calibration == calibration,
    {
        Sampler {
            period: 0,
            read_cnt: 0,
            start_delay: 0,
            flags: 0,
            trigger_mask: 0,
            trigger_val: 0,
            trigger_conf: 0,
            calibration,
        }
    }

    /// Caps the settings and plans a capture pass from them.
    pub fn run(&mut self) -> (cap: Capture)
        ensures
            final(self).config() == old(self).config().clamped(),
            final(self).calibration == old(self).calibration,
            cap.wf(),
            cap.planned() == final(self).read_cnt,
            cap.recorded() == Seq::<u8>::empty(),
            cap.wait_us() == final(self).start_delay,
            cap.delay() == final(self).calibration.delay_spec(final(self).period),
    {
        if self.read_cnt > Sampler::SAMPLE_MEMORY {
            self.read_cnt = Sampler::SAMPLE_MEMORY;
        }
        if self.period < MIN_PERIOD_NS {
            self.period = MIN_PERIOD_NS;
        }
        let tick = self.calibration.tick_delay(self.period);
        let cap = Capture {
            count: self.read_cnt,
            start_delay_us: self.start_delay,
            tick,
            samples: Vec::with_capacity(self.read_cnt),
        };
        assert(cap.samples@ =~= Seq::<u8>::empty());
        cap
    }

    /// Carries out one command: updates the settings it sets and says what
    /// to send back.
    pub fn handle(&mut self, cmd: Command) -> (r: Reply)
        ensures
            final(self).calibration == old(self).calibration,
            cmd is Arm ==> final(self).config() == old(self).config().clamped() && r is Capture
                && r->Capture_0.wf() && r->Capture_0.planned() == final(self).read_cnt
                && r->Capture_0.recorded() == Seq::<u8>::empty()
                && r->Capture_0.wait_us() == final(self).start_delay
                && r->Capture_0.delay() == final(self).calibration.delay_spec(final(self).period),
            cmd is Id ==> final(self).config() == old(self).config() && r is Send
                && r->Send_0@ == id_bytes(),
            cmd is GetMetadata ==> final(self).config() == old(self).config() && r is Send
                && r->Send_0@ == metadata_bytes(),
            !(cmd is Arm || cmd is Id || cmd is GetMetadata) ==> final(self).config() == old(
                self,
            ).config().apply(cmd) && r is Silent,
    {
        match cmd {
            Command::Arm => Reply::Capture(self.run()),
            Command::Id => Reply::Send(id_reply()),
            Command::GetMetadata => Reply::Send(metadata_reply()),
            Command::SetDivider(v) => {
                let p: u64 = 10 + 10 * (v as u64);
                self.period = (p % 0x1_0000_0000) as u32;
                Reply::Silent
            },
            Command::SetReadDelay(n, d) => {
                self.read_cnt = 4 + 4 * (n as usize);
                self.start_delay = 4 * (d as u32);
                Reply::Silent
            },
            Command::SetFlags(v) => {
                self.flags = v;
                Reply::Silent
            },
            Command::SetTriggerMask(v) => {
                self.trigger_mask = v;
                Reply::Silent
            },
            Command::SetTriggerValue(v) => {
                self.trigger_val = v;
                Reply::Silent
            },
            Command::SetTriggerConf(v) => {
                self.trigger_conf = v;
                Reply::Silent
            },
            Command::Reset => Reply::Silent,
            Command::Unknown(_) => Reply::Silent,
        }
    }
}

/// A divider `v` sets the period to `10 + 10 * v` ns, wherever that fits in
/// 32 bits; nothing else changes.
pub proof fn lemma_divider_period(c: Config, v: u32)
    requires
        10 + 10 * v <= u32::MAX,
    ensures
        c.apply(Command::SetDivider(v)).period == 10 + 10 * v,
        c.apply(Command::SetDivider(v)) == (Config { period: (10 + 10 * v) as u32, ..c }),
{
}

/// A read/delay command with factors `n` and `d` sets the sample count to
/// `4 + 4 * n` and the start delay to `4 * d` us.
pub proof fn lemma_read_delay(c: Config, n: u16, d: u16)
    ensures
        c.apply(Command::SetReadDelay(n, d)).read_cnt == 4 + 4 * n,
        c.apply(Command::SetReadDelay(n, d)).start_delay == 4 * d,
{
}

/// Whatever the settings were, a capture pass takes at most the sample
/// memory's worth of samples, at no shorter a period than the shortest
/// supported.
pub proof fn lemma_clamped_bounds(c: Config)
    ensures
        c.clamped().read_cnt <= Sampler::SAMPLE_MEMORY,
        c.clamped().period >= MIN_PERIOD_NS,
        c.read_cnt <= Sampler::SAMPLE_MEMORY ==> c.clamped().read_cnt == c.read_cnt,
{
}

/// A finished pass emits exactly as many samples as it planned, and never
/// more than the sample memory holds.
pub proof fn lemma_emitted_len(cap: Capture)
    requires
        cap.wf(),
        cap.recorded().len() == cap.planned(),
    ensures
        emission_order(cap.recorded()).len() == cap.planned(),
        cap.planned() <= Sampler::SAMPLE_MEMORY,
{
    cap.lemma_bounded();
}

/// The sample captured at position `n - 1 - i` is emitted at position `i`.
pub proof fn lemma_reversal(s: Seq<u8>, i: int)
    requires
        0 <= i < s.len(),
    ensures
        emission_order(s)[i] == s[s.len() - 1 - i],
        emission_order(s)[s.len() - 1 - i] == s[i],
{
}

/// Reversing the emission order gives back the capture order.
pub proof fn lemma_reversal_round_trip(s: Seq<u8>)
    ensures
        emission_order(emission_order(s)) == s,
{
    assert(emission_order(emission_order(s)) =~= s);
}

} // verus!
