use logicalrust::arbiter::{ceiling, priority, Arbiter, Resource, Task};
use logicalrust::meta::{id_reply, metadata_reply, Meta};
use logicalrust::protocol::{decode, le_u16, le_u32, param_len, parse, Cmd, Command};
use logicalrust::sampler::{Calibration, Capture, Reply, Sampler, TickDelay, MIN_PERIOD_NS};

fn send(s: &mut Sampler, bytes: &[u8]) -> Reply {
    let (cmd, used) = parse(bytes).expect("whole command");
    assert_eq!(used, bytes.len());
    s.handle(cmd)
}

fn sent(r: Reply) -> Vec<u8> {
    match r {
        Reply::Send(b) => b,
        _ => panic!("expected bytes"),
    }
}

fn capture(r: Reply) -> Capture {
    match r {
        Reply::Capture(c) => c,
        _ => panic!("expected a capture"),
    }
}

fn is_silent(r: &Reply) -> bool {
    matches!(r, Reply::Silent)
}

fn metadata_expected() -> Vec<u8> {
    let mut v = vec![0x01];
    v.extend_from_slice(b"logicalrust");
    v.push(0x00);
    v.extend_from_slice(&[0x21, 0x00, 0x01, 0x86, 0xA0]);
    v.extend_from_slice(&[0x22, 0x00, 0x00, 0x00, 0x00]);
    v.extend_from_slice(&[0x23, 0x02, 0xFA, 0xF0, 0x80]);
    v.extend_from_slice(&[0x40, 0x08, 0x41, 0x02, 0x00]);
    v
}

#[test]
fn scenario_id() {
    let mut s = Sampler::new();
    assert_eq!(sent(send(&mut s, &[0x02])), b"1ALS".to_vec());
}

#[test]
fn id_reply_bytes() {
    assert_eq!(id_reply(), vec![0x31, 0x41, 0x4C, 0x53]);
}

#[test]
fn scenario_set_read_delay() {
    let mut s = Sampler::new();
    assert!(is_silent(&send(&mut s, &[0x81, 0x01, 0x00, 0x00, 0x00])));
    assert_eq!(s.read_cnt, 8);
    assert_eq!(s.start_delay, 0);
}

#[test]
fn read_delay_factors() {
    let mut s = Sampler::new();
    send(&mut s, &[0x81, 0x10, 0x02, 0x03, 0x01]);
    assert_eq!(s.read_cnt, 4 + 4 * 0x0210);
    assert_eq!(s.start_delay, 4 * 0x0103);
}

#[test]
fn scenario_set_divider() {
    let mut s = Sampler::new();
    assert!(is_silent(&send(&mut s, &[0x80, 0x01, 0x00, 0x00, 0x00])));
    assert_eq!(s.period, 20);
}

#[test]
fn divider_little_endian() {
    let mut s = Sampler::new();
    send(&mut s, &[0x80, 0x00, 0x01, 0x00, 0x00]);
    assert_eq!(s.period, 10 + 10 * 256);
}

#[test]
fn divider_largest_exact() {
    let mut s = Sampler::new();
    s.handle(Command::SetDivider(429_496_728));
    assert_eq!(s.period, 4_294_967_290);
}

#[test]
fn divider_wraps_past_u32() {
    let mut s = Sampler::new();
    s.handle(Command::SetDivider(u32::MAX));
    assert_eq!(s.period, 0);
    s.handle(Command::SetDivider(429_496_729));
    assert_eq!(s.period, 4);
}

#[test]
fn scenario_arm_reverses() {
    let mut s = Sampler::new();
    send(&mut s, &[0x81, 0x01, 0x00, 0x00, 0x00]);
    let mut cap = capture(send(&mut s, &[0x01]));
    assert_eq!(cap.count(), 8);
    let snapshots = [3u8, 1, 4, 1, 5, 9, 2, 6];
    for b in snapshots {
        assert!(!cap.is_complete());
        cap.record(b);
    }
    assert!(cap.is_complete());
    let out = cap.finish();
    assert_eq!(out, vec![6, 2, 9, 5, 1, 4, 1, 3]);
}

#[test]
fn arm_with_zero_count_is_empty() {
    let mut s = Sampler::new();
    let cap = capture(s.handle(Command::Arm));
    assert_eq!(cap.count(), 0);
    assert!(cap.is_complete());
    assert!(cap.finish().is_empty());
}

#[test]
fn arm_odd_count_reverses() {
    let mut s = Sampler::new();
    s.read_cnt = 5;
    let mut cap = s.run();
    for b in 10u8..15 {
        cap.record(b);
    }
    assert_eq!(cap.finish(), vec![14, 13, 12, 11, 10]);
}

#[test]
fn run_clamps_count_to_sample_memory() {
    let mut s = Sampler::new();
    s.handle(Command::SetReadDelay(u16::MAX, 0));
    assert_eq!(s.read_cnt, 262_144);
    let cap = s.run();
    assert_eq!(s.read_cnt, Sampler::SAMPLE_MEMORY);
    assert_eq!(cap.count(), 100_000);
}

#[test]
fn full_capture_emits_read_count() {
    let mut s = Sampler::new();
    s.read_cnt = 200_000;
    let mut cap = s.run();
    let mut k: usize = 0;
    while !cap.is_complete() {
        cap.record((k % 251) as u8);
        k += 1;
    }
    let out = cap.finish();
    assert_eq!(out.len(), s.read_cnt);
    assert_eq!(out.len(), 100_000);
    assert_eq!(out[0], (99_999 % 251) as u8);
    assert_eq!(out[99_999], 0);
}

#[test]
fn run_raises_short_period() {
    let mut s = Sampler::new();
    let cap = s.run();
    assert_eq!(s.period, MIN_PERIOD_NS);
    assert_eq!(cap.tick(), TickDelay::Immediate);
}

#[test]
fn run_keeps_start_delay() {
    let mut s = Sampler::new();
    s.handle(Command::SetReadDelay(0, 25));
    let cap = s.run();
    assert_eq!(cap.start_delay_us(), 100);
    assert_eq!(cap.count(), 4);
}

#[test]
fn calibration_buckets() {
    let c = Calibration::standard();
    assert_eq!(c.tick_delay(20), TickDelay::Immediate);
    assert_eq!(c.tick_delay(50), TickDelay::Spin(1));
    assert_eq!(c.tick_delay(100), TickDelay::Spin(7));
    assert_eq!(c.tick_delay(200), TickDelay::Spin(16));
    assert_eq!(c.tick_delay(500), TickDelay::Spin(40));
    assert_eq!(c.tick_delay(1000), TickDelay::Spin(100));
}

#[test]
fn calibration_falls_back_to_micros() {
    let c = Calibration::standard();
    assert_eq!(c.tick_delay(30), TickDelay::Micros(0));
    assert_eq!(c.tick_delay(60), TickDelay::Micros(0));
    assert_eq!(c.tick_delay(2_000), TickDelay::Micros(2));
    assert_eq!(c.tick_delay(1_000_010), TickDelay::Micros(1_000));
}

#[test]
fn custom_calibration_is_used() {
    let c = Calibration { floor_ns: 10, buckets: vec![(40, 3), (40, 9)] };
    assert_eq!(c.tick_delay(40), TickDelay::Spin(3));
    assert_eq!(c.tick_delay(20), TickDelay::Micros(0));
    let mut s = Sampler::with_calibration(c);
    s.handle(Command::SetDivider(3));
    s.read_cnt = 1;
    let cap = s.run();
    assert_eq!(cap.tick(), TickDelay::Spin(3));
}

#[test]
fn divider_period_picks_bucket() {
    let mut s = Sampler::new();
    s.handle(Command::SetDivider(9));
    assert_eq!(s.period, 100);
    assert_eq!(s.run().tick(), TickDelay::Spin(7));
}

#[test]
fn scenario_metadata() {
    let mut s = Sampler::new();
    assert_eq!(sent(send(&mut s, &[0x04])), metadata_expected());
}

#[test]
fn metadata_ends_with_end_tag() {
    let m = metadata_reply();
    assert_eq!(*m.last().unwrap(), Meta::END);
    let at = m.iter().position(|b| *b == Meta::SAMPLE_MEMORY).unwrap();
    assert_eq!(&m[at..at + 5], &[0x21, 0x00, 0x01, 0x86, 0xA0]);
}

#[test]
fn trigger_and_flag_settings() {
    let mut s = Sampler::new();
    assert!(is_silent(&send(&mut s, &[0x82, 0x01, 0x02, 0x03, 0x04])));
    assert!(is_silent(&send(&mut s, &[0xC0, 0xFF, 0x00, 0x00, 0x00])));
    assert!(is_silent(&send(&mut s, &[0xC1, 0x00, 0x00, 0x00, 0x80])));
    assert!(is_silent(&send(&mut s, &[0xC2, 0x00, 0x00, 0x01, 0x00])));
    assert_eq!(s.flags, 0x0403_0201);
    assert_eq!(s.trigger_mask, 0xFF);
    assert_eq!(s.trigger_val, 0x8000_0000);
    assert_eq!(s.trigger_conf, 0x0001_0000);
}

#[test]
fn reset_and_unknown_change_nothing() {
    let mut s = Sampler::new();
    send(&mut s, &[0x81, 0x01, 0x00, 0x02, 0x00]);
    assert!(is_silent(&send(&mut s, &[0x00])));
    assert!(is_silent(&send(&mut s, &[0x11])));
    assert_eq!(s.read_cnt, 8);
    assert_eq!(s.start_delay, 8);
    assert_eq!(s.period, 0);
}

#[test]
fn parse_unknown_takes_one_byte() {
    assert_eq!(parse(&[0x11, 0x80]), Some((Command::Unknown(0x11), 1)));
}

#[test]
fn parse_waits_for_parameters() {
    assert_eq!(parse(&[]), None);
    assert_eq!(parse(&[0x80, 0x01, 0x00, 0x00]), None);
    assert_eq!(parse(&[0x81, 0x01]), None);
}

#[test]
fn parse_takes_first_command_only() {
    let bytes = [0x80, 0x04, 0x03, 0x02, 0x01, 0x02];
    assert_eq!(parse(&bytes), Some((Command::SetDivider(0x0102_0304), 5)));
    assert_eq!(parse(&bytes[5..]), Some((Command::Id, 1)));
}

#[test]
fn parameter_lengths() {
    assert_eq!(param_len(Cmd::RESET), 0);
    assert_eq!(param_len(Cmd::ARM), 0);
    assert_eq!(param_len(Cmd::ID), 0);
    assert_eq!(param_len(Cmd::GET_METADATA), 0);
    assert_eq!(param_len(Cmd::SET_DIVIDER), 4);
    assert_eq!(param_len(Cmd::SET_READ_DELAY), 4);
    assert_eq!(param_len(Cmd::SET_FLAGS), 4);
    assert_eq!(param_len(Cmd::SET_TRIGGER_MASK), 4);
    assert_eq!(param_len(Cmd::SET_TRIGGER_VALUE), 4);
    assert_eq!(param_len(Cmd::SET_TRIGGER_CONF), 4);
    assert_eq!(param_len(0x03), 0);
}

#[test]
fn decode_each_opcode() {
    assert_eq!(decode(0x00, &[]), Command::Reset);
    assert_eq!(decode(0x01, &[]), Command::Arm);
    assert_eq!(decode(0x02, &[]), Command::Id);
    assert_eq!(decode(0x04, &[]), Command::GetMetadata);
    assert_eq!(decode(0x81, &[0x34, 0x12, 0x78, 0x56]), Command::SetReadDelay(0x1234, 0x5678));
    assert_eq!(decode(0x82, &[1, 0, 0, 0]), Command::SetFlags(1));
    assert_eq!(decode(0xC0, &[0, 1, 0, 0]), Command::SetTriggerMask(256));
    assert_eq!(decode(0xC1, &[0, 0, 1, 0]), Command::SetTriggerValue(65536));
    assert_eq!(decode(0xC2, &[0, 0, 0, 1]), Command::SetTriggerConf(16_777_216));
    assert_eq!(decode(0xFF, &[]), Command::Unknown(0xFF));
}

#[test]
fn little_endian_assembly() {
    assert_eq!(le_u16(0x34, 0x12), 0x1234);
    assert_eq!(le_u32(0x78, 0x56, 0x34, 0x12), 0x1234_5678);
    assert_eq!(le_u32(0xFF, 0xFF, 0xFF, 0xFF), u32::MAX);
}

#[test]
fn capture_plan_survives_later_commands() {
    let mut s = Sampler::new();
    s.handle(Command::SetReadDelay(0, 1));
    s.handle(Command::SetDivider(49));
    let mut cap = capture(s.handle(Command::Arm));
    s.handle(Command::SetReadDelay(10, 10));
    s.handle(Command::SetDivider(0));
    assert_eq!(cap.count(), 4);
    assert_eq!(cap.start_delay_us(), 4);
    assert_eq!(cap.tick(), TickDelay::Spin(40));
    for b in 0u8..4 {
        cap.record(b);
    }
    assert_eq!(cap.finish(), vec![3, 2, 1, 0]);
}

#[test]
fn arbiter_priorities_and_ceilings() {
    assert_eq!(priority(Task::Command), 2);
    assert_eq!(priority(Task::Sampling), 1);
    assert_eq!(ceiling(Resource::Config), 2);
    assert_eq!(ceiling(Resource::Rx), 2);
    assert_eq!(ceiling(Resource::Tx), 2);
}

#[test]
fn holder_of_config_is_not_preempted() {
    let mut a = Arbiter::new(Task::Sampling);
    assert_eq!(a.current(), 1);
    assert!(a.preempts(Task::Command));
    a.lock(Resource::Config);
    assert_eq!(a.current(), 2);
    assert!(!a.preempts(Task::Command));
    a.lock(Resource::Tx);
    assert!(!a.preempts(Task::Command));
    assert_eq!(a.unlock(), Resource::Tx);
    assert_eq!(a.unlock(), Resource::Config);
    assert_eq!(a.current(), 1);
    assert!(a.preempts(Task::Command));
}

#[test]
fn equal_priority_never_preempts() {
    let a = Arbiter::new(Task::Command);
    assert!(!a.preempts(Task::Command));
    assert!(!a.preempts(Task::Sampling));
}
