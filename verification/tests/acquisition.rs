use home_env_log::acquisition::LoopAction;
use home_env_log::acquisition::LoopEvent;
use home_env_log::acquisition::LoopState;
use home_env_log::codec::calculate_checksum;
use home_env_log::measurement::Measurement;
use home_env_log::mh_z19c::ReadTransaction;
use home_env_log::retry::RetryAction;
use home_env_log::retry::RetryPolicy;
use home_env_log::sensor::AggregatorError;
use home_env_log::sensor::ClimateReading;
use home_env_log::sensor::MeasureAction;
use home_env_log::sensor::MeasureSession;

/// Runs one full acquisition cycle against the loop state machine: a tick,
/// the (already retried) measurement outcome, and the storage outcome.
/// Stored records land in `stored`.
fn cycle(
    state: LoopState,
    measure_result: Result<Measurement, AggregatorError>,
    storage_ok: bool,
    stored: &mut Vec<Measurement>,
) -> LoopState {
    let (state, action) = state.on_event(LoopEvent::Tick);
    assert!(matches!(action, LoopAction::StartMeasurement));
    let event = match measure_result {
        Ok(measurement) => LoopEvent::Measured { measurement },
        Err(_) => LoopEvent::MeasureFailed,
    };
    let (state, action) = state.on_event(event);
    match action {
        LoopAction::Insert { measurement } => {
            if storage_ok {
                stored.push(measurement);
                let (state, action) = state.on_event(LoopEvent::Inserted { measurement });
                assert!(matches!(action, LoopAction::AnnounceStored { .. }));
                state
            } else {
                let (state, action) = state.on_event(LoopEvent::InsertFailed);
                assert!(matches!(action, LoopAction::DropRecord));
                state
            }
        }
        LoopAction::SkipCycle => state,
        _ => panic!("unexpected loop action"),
    }
}

/// A well-formed response frame carrying the given concentration.
fn frame_for(concentration: u16) -> [u8; 9] {
    let mut frame: [u8; 9] = [
        0xff,
        0x86,
        (concentration >> 8) as u8,
        (concentration & 0xff) as u8,
        0x00,
        0x00,
        0x00,
        0x00,
        0x00,
    ];
    frame[8] = calculate_checksum(&frame);
    frame
}

/// One measurement through the retry policy, with scripted response frames:
/// attempt `i` of the CO2 exchange sees `co2_frames[i]` (the last frame
/// repeating once the script runs out).
fn acquire(
    policy: &RetryPolicy,
    co2_frames: &[[u8; 9]],
    climate: ClimateReading,
    timestamp: i64,
) -> Result<Measurement, AggregatorError> {
    let mut attempts: u64 = 0;
    loop {
        let frame = co2_frames[(attempts as usize).min(co2_frames.len() - 1)];
        attempts += 1;
        let mut session = MeasureSession::begin();
        let result = loop {
            match session.next_action() {
                MeasureAction::ReadCo2 => {
                    let transaction = ReadTransaction::begin()
                        .write_result(true)
                        .read_result(Some((frame, 9)));
                    session = session.co2_result(transaction.result());
                }
                MeasureAction::ReadClimate => session = session.climate_result(Ok(climate)),
                MeasureAction::TakeTimestamp => session = session.stamp(timestamp),
                MeasureAction::Finish => break session.outcome(),
            }
        };
        match result {
            Ok(m) => return Ok(m),
            Err(e) => match policy.after_failure(attempts) {
                RetryAction::Retry { delay_ms: _ } => continue,
                RetryAction::GiveUp => return Err(e),
            },
        }
    }
}

fn sample(timestamp: i64, co2: u16) -> Measurement {
    Measurement {
        timestamp,
        temperature: 21_000,
        humidity: 45_000,
        pressure: 100_000_000,
        co2_concentration: co2,
    }
}

#[test]
fn test_measure_failure_skips_cycle_without_affecting_the_next() {
    let mut stored = Vec::new();
    let state = LoopState::begin();
    let state = cycle(
        state,
        Err(AggregatorError::Climate),
        true,
        &mut stored,
    );
    assert_eq!(state, LoopState::Idle);
    assert_eq!(stored.len(), 0);
    let state = cycle(state, Ok(sample(2000, 450)), true, &mut stored);
    assert_eq!(state, LoopState::Idle);
    assert_eq!(stored, vec![sample(2000, 450)]);
}

#[test]
fn test_storage_failure_does_not_stop_the_loop() {
    let mut stored = Vec::new();
    let state = LoopState::begin();
    let state = cycle(state, Ok(sample(1000, 400)), false, &mut stored);
    assert_eq!(state, LoopState::Idle);
    assert_eq!(stored.len(), 0);
    let state = cycle(state, Ok(sample(2000, 410)), true, &mut stored);
    assert_eq!(state, LoopState::Idle);
    assert_eq!(stored, vec![sample(2000, 410)]);
}

#[test]
fn test_three_cycles_store_three_increasing_records() {
    let policy = RetryPolicy::standard();
    let climates = [
        ClimateReading { temperature: 20_500, humidity: 41_000, pressure: 99_900_000 },
        ClimateReading { temperature: 21_000, humidity: 42_000, pressure: 99_910_000 },
        ClimateReading { temperature: 21_500, humidity: 43_000, pressure: 99_920_000 },
    ];
    let concentrations: [u16; 3] = [480, 520, 560];
    let timestamps: [i64; 3] = [60_000, 120_000, 180_000];

    // The second cycle's first exchange is corrupted and succeeds on retry.
    let mut corrupted = frame_for(concentrations[1]);
    corrupted[8] ^= 0x01;

    let mut stored = Vec::new();
    let mut state = LoopState::begin();
    for i in 0..3 {
        let frames: Vec<[u8; 9]> = if i == 1 {
            vec![corrupted, frame_for(concentrations[1])]
        } else {
            vec![frame_for(concentrations[i])]
        };
        let measured = acquire(&policy, &frames, climates[i], timestamps[i]);
        state = cycle(state, measured, true, &mut stored);
        assert_eq!(state, LoopState::Idle);
    }

    assert_eq!(stored.len(), 3);
    for i in 0..3 {
        assert_eq!(stored[i].timestamp, timestamps[i]);
        assert_eq!(stored[i].co2_concentration, concentrations[i]);
        assert_eq!(stored[i].temperature, climates[i].temperature);
        assert_eq!(stored[i].humidity, climates[i].humidity);
        assert_eq!(stored[i].pressure, climates[i].pressure);
    }
    assert!(stored[0].timestamp < stored[1].timestamp);
    assert!(stored[1].timestamp < stored[2].timestamp);
    assert!(stored[0] != stored[1] && stored[1] != stored[2] && stored[0] != stored[2]);
}

#[test]
fn test_short_read_is_a_read_error() {
    let frame = frame_for(500);
    let transaction = ReadTransaction::begin().write_result(true).read_result(Some((frame, 5)));
    assert!(matches!(
        transaction.result(),
        Err(home_env_log::mh_z19c::DriverError::ReadError)
    ));
}

#[test]
fn test_write_failure_is_a_write_error() {
    let transaction = ReadTransaction::begin().write_result(false);
    assert!(matches!(
        transaction.result(),
        Err(home_env_log::mh_z19c::DriverError::WriteError)
    ));
}
