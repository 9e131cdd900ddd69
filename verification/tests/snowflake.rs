use id_generator::layout::{compose, parse, MAX_MACHINE_ID, MAX_SEQUENCE, TIMESTAMP_LIMIT};
use id_generator::snowflake::{InvalidWorkerId, Phase, Snowflake, Step};
use std::collections::HashSet;

/// Makes passes until one issues an id, as a blocking caller would, without
/// sleeping in between.
fn issue(snowflake: &mut Snowflake) -> u64 {
    let mut phase = Phase::Fresh;
    loop {
        match snowflake.next_id(&mut phase) {
            Step::Issued(id) => {
                assert_eq!(phase, Phase::Fresh);
                return id;
            }
            Step::Wait => assert_eq!(phase, Phase::Waiting),
            Step::ClockFailed => panic!("时钟异常"),
        }
    }
}

/// One pass of a call that stands in `phase`, with the clock at `now`: what
/// it issued, and where it left the call.
fn pass(snowflake: &mut Snowflake, phase: Phase, now: u64) -> (Option<u64>, Phase) {
    let mut phase = phase;
    let id = snowflake.advance(&mut phase, now);
    (id, phase)
}

#[test]
fn test_snowflake_basic() {
    let mut snowflake = Snowflake::new(1).unwrap();
    let id1 = issue(&mut snowflake);
    let id2 = issue(&mut snowflake);

    assert!(id1 < id2, "ID 应该单调递增");

    let (timestamp, machine_id, _sequence) = snowflake.parse_id(id1);
    assert_eq!(machine_id, 1);
    assert!(timestamp > 0);
}

#[test]
fn test_machine_id_validation() {
    assert!(Snowflake::new(1024).is_err());
    assert!(Snowflake::new(1023).is_ok());
}

#[test]
fn new_reports_the_refused_id() {
    assert_eq!(Snowflake::new(1024).err(), Some(InvalidWorkerId { worker_id: 1024 }));
    assert_eq!(Snowflake::new(u64::MAX).err(), Some(InvalidWorkerId { worker_id: u64::MAX }));
    assert_eq!(InvalidWorkerId { worker_id: 1024 }.message(), "Machine ID 超出范围 (0-1023)");
}

#[test]
fn new_starts_at_zero() {
    let snowflake = Snowflake::new(0).unwrap();
    assert_eq!(snowflake.machine_id(), 0);
    assert_eq!(snowflake.last_timestamp(), 0);
    assert_eq!(snowflake.sequence(), 0);
    let snowflake = Snowflake::new(1023).unwrap();
    assert_eq!(snowflake.machine_id(), 1023);
}

#[test]
fn compose_has_the_documented_layout() {
    assert_eq!(compose(1000, 7, 0), 4_194_332_672);
    assert_eq!(compose(1000, 7, 1), 4_194_332_673);
    assert_eq!(compose(1, 0, 0), 1 << 22);
    assert_eq!(compose(0, 1, 0), 1 << 12);
    assert_eq!(compose(0, 0, 1), 1);
    assert_eq!(compose(TIMESTAMP_LIMIT - 1, MAX_MACHINE_ID, MAX_SEQUENCE), u64::MAX);
    assert_eq!(compose((1 << 41) - 1, MAX_MACHINE_ID, MAX_SEQUENCE), u64::MAX >> 1);
}

#[test]
fn parse_id_is_total() {
    let snowflake = Snowflake::new(5).unwrap();
    assert_eq!(snowflake.parse_id(0), (0, 0, 0));
    assert_eq!(snowflake.parse_id(u64::MAX), ((1 << 42) - 1, 1023, 4095));
    assert_eq!(snowflake.parse_id(4_194_332_673), (1000, 7, 1));
    assert_eq!(snowflake.parse_id(0xFFF), (0, 0, 4095));
    assert_eq!(snowflake.parse_id(0x3FF000), (0, 1023, 0));
    assert_eq!(parse(0x400000), (1, 0, 0));
}

#[test]
fn parse_undoes_compose() {
    for &(timestamp, machine_id, sequence) in
        &[(0u64, 0u64, 0u64), (1, 2, 3), (1_790_000_000_000, 1023, 4095), (TIMESTAMP_LIMIT - 1, 512, 2048)]
    {
        assert_eq!(parse(compose(timestamp, machine_id, sequence)), (timestamp, machine_id, sequence));
    }
    for &id in &[0u64, 1, 4095, 4096, 0xDEAD_BEEF_0BAD_F00D, u64::MAX] {
        let (timestamp, machine_id, sequence) = parse(id);
        assert_eq!(compose(timestamp, machine_id, sequence), id);
    }
}

#[test]
fn advance_follows_the_clock() {
    let mut snowflake = Snowflake::new(7).unwrap();
    assert_eq!(pass(&mut snowflake, Phase::Fresh, 1000), (Some(4_194_332_672), Phase::Fresh));
    assert_eq!((snowflake.last_timestamp(), snowflake.sequence()), (1000, 0));
    assert_eq!(pass(&mut snowflake, Phase::Fresh, 1000), (Some(4_194_332_673), Phase::Fresh));
    assert_eq!((snowflake.last_timestamp(), snowflake.sequence()), (1000, 1));
    assert_eq!(pass(&mut snowflake, Phase::Fresh, 1001), (Some(compose(1001, 7, 0)), Phase::Fresh));
    assert_eq!((snowflake.last_timestamp(), snowflake.sequence()), (1001, 0));
    assert_eq!(pass(&mut snowflake, Phase::Fresh, 5000), (Some(compose(5000, 7, 0)), Phase::Fresh));
}

#[test]
fn advance_on_a_fresh_generator_at_time_zero() {
    let mut snowflake = Snowflake::new(0).unwrap();
    assert_eq!(pass(&mut snowflake, Phase::Fresh, 0), (Some(1), Phase::Fresh));
    assert_eq!(pass(&mut snowflake, Phase::Waiting, 0), (None, Phase::Waiting));
    assert_eq!(pass(&mut snowflake, Phase::Waiting, 1), (Some(1 << 22), Phase::Fresh));
}

#[test]
fn advance_waits_out_a_clock_that_fell_back() {
    let mut snowflake = Snowflake::new(9).unwrap();
    assert_eq!(pass(&mut snowflake, Phase::Fresh, 2000), (Some(compose(2000, 9, 0)), Phase::Fresh));
    assert_eq!(pass(&mut snowflake, Phase::Fresh, 1999), (None, Phase::Waiting));
    assert_eq!((snowflake.last_timestamp(), snowflake.sequence()), (2000, 0));
    assert_eq!(pass(&mut snowflake, Phase::Waiting, 1500), (None, Phase::Waiting));
    assert_eq!(pass(&mut snowflake, Phase::Waiting, 2000), (None, Phase::Waiting));
    assert_eq!((snowflake.last_timestamp(), snowflake.sequence()), (2000, 0));
    assert_eq!(pass(&mut snowflake, Phase::Waiting, 2001), (Some(compose(2001, 9, 0)), Phase::Fresh));
    assert_eq!((snowflake.last_timestamp(), snowflake.sequence()), (2001, 0));
}

#[test]
fn a_fresh_call_may_use_the_millisecond_that_another_call_waits_out() {
    let mut snowflake = Snowflake::new(9).unwrap();
    assert_eq!(pass(&mut snowflake, Phase::Fresh, 2000), (Some(compose(2000, 9, 0)), Phase::Fresh));
    assert_eq!(pass(&mut snowflake, Phase::Fresh, 1999), (None, Phase::Waiting));
    assert_eq!(pass(&mut snowflake, Phase::Fresh, 2000), (Some(compose(2000, 9, 1)), Phase::Fresh));
}

#[test]
fn sequence_rolls_over_into_the_next_millisecond() {
    let now = 1_790_000_000_000u64;
    let mut snowflake = Snowflake::new(3).unwrap();
    let mut seen = HashSet::new();
    let mut last = 0u64;
    for sequence in 0..=MAX_SEQUENCE {
        let id = pass(&mut snowflake, Phase::Fresh, now).0.unwrap();
        assert_eq!(id, compose(now, 3, sequence));
        assert_eq!(snowflake.parse_id(id), (now, 3, sequence));
        assert!(id > last);
        assert!(seen.insert(id));
        last = id;
    }
    assert_eq!(seen.len(), 4096);
    assert_eq!(snowflake.sequence(), 4095);

    assert_eq!(pass(&mut snowflake, Phase::Fresh, now), (None, Phase::Waiting));
    assert_eq!(pass(&mut snowflake, Phase::Waiting, now), (None, Phase::Waiting));
    assert_eq!((snowflake.last_timestamp(), snowflake.sequence()), (now, 4095));

    let id = pass(&mut snowflake, Phase::Waiting, now + 1).0.unwrap();
    assert_eq!(id, compose(now + 1, 3, 0));
    assert_eq!(snowflake.parse_id(id), (now + 1, 3, 0));
    assert!(id > last);
    assert!(seen.insert(id));
}

#[test]
fn ids_increase_whatever_the_clock_does() {
    let readings = [
        (Phase::Fresh, 100u64),
        (Phase::Fresh, 100),
        (Phase::Fresh, 99),
        (Phase::Waiting, 100),
        (Phase::Waiting, 103),
        (Phase::Fresh, 50),
        (Phase::Fresh, 103),
        (Phase::Fresh, 103),
        (Phase::Fresh, 1_000_000),
        (Phase::Fresh, 0),
        (Phase::Fresh, TIMESTAMP_LIMIT - 1),
        (Phase::Fresh, TIMESTAMP_LIMIT - 1),
    ];
    let mut snowflake = Snowflake::new(1023).unwrap();
    let mut issued = Vec::new();
    for &(phase, now) in &readings {
        if let (Some(id), _) = pass(&mut snowflake, phase, now) {
            issued.push(id);
        }
    }
    assert_eq!(
        issued,
        vec![
            compose(100, 1023, 0),
            compose(100, 1023, 1),
            compose(103, 1023, 0),
            compose(103, 1023, 1),
            compose(103, 1023, 2),
            compose(1_000_000, 1023, 0),
            compose(TIMESTAMP_LIMIT - 1, 1023, 0),
            compose(TIMESTAMP_LIMIT - 1, 1023, 1),
        ]
    );
    for pair in issued.windows(2) {
        assert!(pair[0] < pair[1]);
    }
}

#[test]
fn a_timestamp_beyond_the_field_is_cut() {
    let mut snowflake = Snowflake::new(1).unwrap();
    let before = pass(&mut snowflake, Phase::Fresh, TIMESTAMP_LIMIT - 1).0.unwrap();
    let id = pass(&mut snowflake, Phase::Fresh, TIMESTAMP_LIMIT).0.unwrap();
    assert_eq!(id, 1 << 12);
    assert_eq!(snowflake.parse_id(id), (0, 1, 0));
    assert!(id < before);
    assert_eq!(snowflake.last_timestamp(), TIMESTAMP_LIMIT);
}

#[test]
fn next_id_carries_the_machine_id_and_the_time() {
    let mut snowflake = Snowflake::new(77).unwrap();
    let before = snowflake.current_timestamp().unwrap();
    let id = issue(&mut snowflake);
    let after = snowflake.current_timestamp().unwrap();
    let (timestamp, machine_id, sequence) = snowflake.parse_id(id);
    assert_eq!(machine_id, 77);
    assert!(sequence <= 4095);
    assert!(before <= timestamp && timestamp <= after);
    assert_eq!(timestamp, snowflake.last_timestamp());
    assert_eq!(sequence, snowflake.sequence());
}

#[test]
fn current_timestamp_is_milliseconds_since_the_epoch() {
    let snowflake = Snowflake::new(0).unwrap();
    let now = snowflake.current_timestamp().unwrap();
    let std_now = std::time::SystemTime::now()
        .duration_since(std::time::UNIX_EPOCH)
        .unwrap()
        .as_millis() as u64;
    assert!(now <= std_now);
    assert!(std_now - now < 60_000);
}

#[test]
fn a_thousand_ids_are_distinct_and_increase() {
    let mut snowflake = Snowflake::new(2).unwrap();
    let mut seen = HashSet::new();
    let mut last = 0u64;
    for _ in 0..1000 {
        let id = issue(&mut snowflake);
        assert!(id > last);
        assert!(seen.insert(id));
        last = id;
    }
    assert_eq!(seen.len(), 1000);
}

#[test]
fn more_ids_than_a_millisecond_holds() {
    let mut snowflake = Snowflake::new(4).unwrap();
    let mut last = 0u64;
    for _ in 0..10_000 {
        let id = issue(&mut snowflake);
        assert!(id > last);
        let (_, machine_id, sequence) = snowflake.parse_id(id);
        assert_eq!(machine_id, 4);
        assert!(sequence <= 4095);
        last = id;
    }
}

#[test]
fn test_snowflake_uniqueness() {
    let mut snowflake = Snowflake::new(2).unwrap();
    let mut id_set = HashSet::new();

    // Ten callers take turns on one generator, a pass each, every caller
    // with its own phase, until each has its hundred ids.
    let mut phases = [Phase::Fresh; 10];
    let mut issued = [0usize; 10];
    while issued.iter().any(|&count| count < 100) {
        for caller in 0..10 {
            if issued[caller] < 100 {
                match snowflake.next_id(&mut phases[caller]) {
                    Step::Issued(id) => {
                        id_set.insert(id);
                        issued[caller] += 1;
                    }
                    Step::Wait => {}
                    Step::ClockFailed => panic!("时钟异常"),
                }
            }
        }
    }

    assert_eq!(id_set.len(), 1000);
}

#[test]
fn callers_taking_turns_on_a_stuck_clock_share_the_millisecond() {
    let now = 1_790_000_000_000u64;
    let mut snowflake = Snowflake::new(8).unwrap();
    let mut phases = [Phase::Fresh; 3];
    let mut issued: Vec<Vec<u64>> = vec![Vec::new(), Vec::new(), Vec::new()];
    let mut seen = HashSet::new();
    // 4096 ids fit the millisecond; the three callers get them in turn.
    for turn in 0..4096usize {
        let caller = turn % 3;
        let id = snowflake.advance(&mut phases[caller], now).unwrap();
        assert_eq!(id, compose(now, 8, turn as u64));
        assert!(seen.insert(id));
        issued[caller].push(id);
    }
    // The millisecond is used up for all of them, and stays so.
    for caller in 0..3 {
        assert_eq!(snowflake.advance(&mut phases[caller], now), None);
        assert_eq!(phases[caller], Phase::Waiting);
    }
    // The clock moves on: whoever comes first gets number 0 and is fresh
    // again; one who still waits gets nothing on this millisecond, a fresh
    // caller does.
    assert_eq!(snowflake.advance(&mut phases[1], now + 1), Some(compose(now + 1, 8, 0)));
    assert_eq!(phases[1], Phase::Fresh);
    assert_eq!(snowflake.advance(&mut phases[0], now + 1), None);
    assert_eq!(snowflake.advance(&mut phases[1], now + 1), Some(compose(now + 1, 8, 1)));
    assert_eq!(snowflake.advance(&mut phases[0], now + 2), Some(compose(now + 2, 8, 0)));
    assert_eq!(snowflake.advance(&mut phases[2], now + 2), None);
    assert_eq!(snowflake.advance(&mut phases[2], now + 3), Some(compose(now + 3, 8, 0)));
    for ids in &issued {
        for pair in ids.windows(2) {
            assert!(pair[0] < pair[1]);
        }
    }
}
