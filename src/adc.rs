//! The ADC sampler: calibration of raw counts to millivolts, the buffer of
//! consecutive samples per channel, and the latest scalar view.
use vstd::prelude::*;

verus! {

/// Samples per buffer.
pub const ADC_BUFFER_SIZE: usize = 125;

/// Interval between two samples of a buffer, in milliseconds.
pub const ADC_SAMPLE_INTERVAL_MS: u64 = 2;

/// One value per channel: battery, boost rail, and the five auxiliary inputs.
#[derive(Clone, Copy, Debug, PartialEq, Eq, Structural)]
pub struct AdcState {
    pub battery_voltage: u16,
    pub boost_voltage: u16,
    pub a0: u16,
    pub a1: u16,
    pub a2: u16,
    pub a3: u16,
    pub a4: u16,
}

/// Gain of each channel: millivolts per thousand raw counts.
#[derive(Clone, Copy, Debug, PartialEq, Eq, Structural)]
pub struct VoltageMonitorCalibrationConfig {
    pub battery_voltage_calibration: u32,
    pub boost_voltage_calibration: u32,
    pub a0_calibration: u32,
    pub a1_calibration: u32,
    pub a2_calibration: u32,
    pub a3_calibration: u32,
    pub a4_calibration: u32,
}

pub open spec fn default_calibration() -> VoltageMonitorCalibrationConfig {
    VoltageMonitorCalibrationConfig {
        battery_voltage_calibration: 5624,
        boost_voltage_calibration: 13717,
        a0_calibration: 4774,
        a1_calibration: 3100,
        a2_calibration: 3129,
        a3_calibration: 3136,
        a4_calibration: 14316,
    }
}

impl Default for VoltageMonitorCalibrationConfig {
    fn default() -> (r: Self)
        ensures
            r == default_calibration(),
    {
        VoltageMonitorCalibrationConfig {
            battery_voltage_calibration: 5624,
            boost_voltage_calibration: 13717,
            // 39K / 10K divider
            a0_calibration: 4774,
            // 22K / 10K dividers
            a1_calibration: 3100,
            a2_calibration: 3129,
            a3_calibration: 3136,
            // 10K divider and the one on the connector board
            a4_calibration: 14316,
        }
    }
}

/// Millivolts for `raw` counts at gain `cal`: `raw * cal / 1000`, saturated to
/// 16 bits.
pub open spec fn millivolts(raw: u16, cal: u32) -> u16 {
    let mv = (raw as int) * (cal as int) / 1000;
    if mv > 0xFFFF { 0xFFFF } else { mv as u16 }
}

pub fn calibrate(raw: u16, cal: u32) -> (r: u16)
    ensures
        r == millivolts(raw, cal),
{
    assert((raw as u64) * (cal as u64) <= 0xFFFF * 0xFFFF_FFFFu64) by (nonlinear_arith);
    let product: u64 = (raw as u64) * (cal as u64);
    let mv: u64 = product / 1000;
    if mv > 0xFFFF {
        0xFFFF
    } else {
        mv as u16
    }
}

/// Every channel of a raw sample converted to millivolts.
pub open spec fn calibrated(raw: AdcState, c: VoltageMonitorCalibrationConfig) -> AdcState {
    AdcState {
        battery_voltage: millivolts(raw.battery_voltage, c.battery_voltage_calibration),
        boost_voltage: millivolts(raw.boost_voltage, c.boost_voltage_calibration),
        a0: millivolts(raw.a0, c.a0_calibration),
        a1: millivolts(raw.a1, c.a1_calibration),
        a2: millivolts(raw.a2, c.a2_calibration),
        a3: millivolts(raw.a3, c.a3_calibration),
        a4: millivolts(raw.a4, c.a4_calibration),
    }
}

/// Converts one raw sample (counts per channel) to millivolts.
pub fn calibrate_sample(raw: &AdcState, c: &VoltageMonitorCalibrationConfig) -> (r: AdcState)
    ensures
        r == calibrated(*raw, *c),
{
    AdcState {
        battery_voltage: calibrate(raw.battery_voltage, c.battery_voltage_calibration),
        boost_voltage: calibrate(raw.boost_voltage, c.boost_voltage_calibration),
        a0: calibrate(raw.a0, c.a0_calibration),
        a1: calibrate(raw.a1, c.a1_calibration),
        a2: calibrate(raw.a2, c.a2_calibration),
        a3: calibrate(raw.a3, c.a3_calibration),
        a4: calibrate(raw.a4, c.a4_calibration),
    }
}

/// A published buffer: its sequence number and the consecutive samples of
/// each channel.
#[derive(Clone, Debug)]
pub struct AdcBufferData {
    pub sequence: u32,
    pub battery_voltage: Vec<u16>,
    pub boost_voltage: Vec<u16>,
    pub a0: Vec<u16>,
    pub a1: Vec<u16>,
    pub a2: Vec<u16>,
    pub a3: Vec<u16>,
    pub a4: Vec<u16>,
}

impl AdcBufferData {
    /// Every channel holds `n` samples.
    pub open spec fn has_len(&self, n: nat) -> bool {
        &&& self.battery_voltage@.len() == n
        &&& self.boost_voltage@.len() == n
        &&& self.a0@.len() == n
        &&& self.a1@.len() == n
        &&& self.a2@.len() == n
        &&& self.a3@.len() == n
        &&& self.a4@.len() == n
    }

    /// The values of all channels at index `i`.
    pub open spec fn sample(&self, i: int) -> AdcState {
        AdcState {
            battery_voltage: self.battery_voltage@[i],
            boost_voltage: self.boost_voltage@[i],
            a0: self.a0@[i],
            a1: self.a1@[i],
            a2: self.a2@[i],
            a3: self.a3@[i],
            a4: self.a4@[i],
        }
    }

    /// The values of all channels at the last index.
    pub fn last_sample(&self) -> (r: Option<AdcState>)
        requires
            self.has_len(self.battery_voltage@.len()),
        ensures
            self.battery_voltage@.len() == 0 ==> r is None,
            self.battery_voltage@.len() > 0 ==> r == Some(self.sample(self.battery_voltage@.len() - 1)),
    {
        let n = self.battery_voltage.len();
        if n == 0 {
            None
        } else {
            let i = n - 1;
            Some(
                AdcState {
                    battery_voltage: self.battery_voltage[i],
                    boost_voltage: self.boost_voltage[i],
                    a0: self.a0[i],
                    a1: self.a1[i],
                    a2: self.a2[i],
                    a3: self.a3[i],
                    a4: self.a4[i],
                },
            )
        }
    }
}

/// Sequence number that follows `s`, wrapping at 2^32.
pub open spec fn next_sequence(s: u32) -> u32 {
    ((s as int + 1) % 0x1_0000_0000) as u32
}

/// The sampler's state between buffers.
pub struct AdcSampler {
    pub sequence: u32,
    pub calibration: VoltageMonitorCalibrationConfig,
}

/// `before` turned the raw samples `raws` into the buffer `buf` and the
/// latest scalar `latest`, and became `after`.
pub open spec fn completed(
    before: AdcSampler,
    raws: Seq<AdcState>,
    after: AdcSampler,
    latest: AdcState,
    buf: AdcBufferData,
) -> bool {
    &&& raws.len() == ADC_BUFFER_SIZE
    &&& buf.sequence == before.sequence
    &&& buf.has_len(ADC_BUFFER_SIZE as nat)
    &&& forall|i: int| 0 <= i < ADC_BUFFER_SIZE ==> #[trigger] buf.sample(i) == calibrated(raws[i], before.calibration)
    &&& latest == buf.sample(ADC_BUFFER_SIZE - 1)
    &&& after.sequence == next_sequence(before.sequence)
    &&& after.calibration == before.calibration
}

impl AdcSampler {
    /// A sampler whose first buffer has sequence 0.
    pub fn new(calibration: VoltageMonitorCalibrationConfig) -> (r: AdcSampler)
        ensures
            r.sequence == 0,
            r.calibration == calibration,
    {
        AdcSampler { sequence: 0, calibration }
    }

    /// Turns one buffer's worth of raw samples into the published buffer and
    /// the latest scalar, and advances the sequence.
    pub fn complete_buffer(&mut self, raws: &Vec<AdcState>) -> (r: (AdcState, AdcBufferData))
        requires
            raws@.len() == ADC_BUFFER_SIZE,
        ensures
            completed(*old(self), raws@, *final(self), r.0, r.1),
    {
        let c = self.calibration;
        let mut buf = AdcBufferData {
            sequence: self.sequence,
            battery_voltage: Vec::new(),
            boost_voltage: Vec::new(),
            a0: Vec::new(),
            a1: Vec::new(),
            a2: Vec::new(),
            a3: Vec::new(),
            a4: Vec::new(),
        };
        let mut i: usize = 0;
        while i < ADC_BUFFER_SIZE
            invariant
                i <= ADC_BUFFER_SIZE,
                raws@.len() == ADC_BUFFER_SIZE,
                c == self.calibration,
                buf.sequence == self.sequence,
                buf.has_len(i as nat),
                forall|j: int| 0 <= j < i ==> #[trigger] buf.sample(j) == calibrated(raws@[j], c),
            decreases ADC_BUFFER_SIZE - i,
        {
            let s = calibrate_sample(&raws[i], &c);
            let ghost prev = buf;
            buf.battery_voltage.push(s.battery_voltage);
            buf.boost_voltage.push(s.boost_voltage);
            buf.a0.push(s.a0);
            buf.a1.push(s.a1);
            buf.a2.push(s.a2);
            buf.a3.push(s.a3);
            buf.a4.push(s.a4);
            assert(buf.sample(i as int) == s);
            assert forall|j: int| 0 <= j < i + 1 implies #[trigger] buf.sample(j) == calibrated(raws@[j], c) by {
                if j < i {
                    assert(buf.sample(j) == prev.sample(j));
                }
            }
            i = i + 1;
        }
        let latest = calibrate_sample(&raws[ADC_BUFFER_SIZE - 1], &c);
        self.sequence = self.sequence.wrapping_add(1);
        (latest, buf)
    }
}

/// Buffer monotonicity: of two consecutive buffers the second's sequence is
/// the first's plus one, modulo 2^32, and each latest scalar is the last
/// sample of its buffer.
pub proof fn law_buffer_monotonic(
    s0: AdcSampler,
    raws1: Seq<AdcState>,
    s1: AdcSampler,
    latest1: AdcState,
    b1: AdcBufferData,
    raws2: Seq<AdcState>,
    s2: AdcSampler,
    latest2: AdcState,
    b2: AdcBufferData,
)
    requires
        completed(s0, raws1, s1, latest1, b1),
        completed(s1, raws2, s2, latest2, b2),
    ensures
        b2.sequence as int == (b1.sequence as int + 1) % 0x1_0000_0000,
        latest1 == b1.sample(ADC_BUFFER_SIZE - 1),
        latest2 == b2.sample(ADC_BUFFER_SIZE - 1),
        latest2.battery_voltage == b2.battery_voltage@.last(),
        latest2.boost_voltage == b2.boost_voltage@.last(),
        latest2.a0 == b2.a0@.last(),
        latest2.a1 == b2.a1@.last(),
        latest2.a2 == b2.a2@.last(),
        latest2.a3 == b2.a3@.last(),
        latest2.a4 == b2.a4@.last(),
{
}

} // verus!
