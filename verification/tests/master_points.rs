use dnp3::app::control::CommandStatus;
use dnp3::app::Iin2;
use dnp3::master::{CommandError, CommandResponseError, TaskError, TimeSyncError};
use oo_bindgen::driver::{
    BindingBuilderSettings, JavaBindingBuilder, MavenGoal, PlatformLocations, Preparation,
};
use oo_bindgen::indications::{flags_is_set, iin1_is_set, iin2_is_set, Flag, IIN1Flag, IIN2Flag};
use oo_bindgen::points::{
    Binary, BinaryOutputStatus, Control, Counter, DoubleBit, DoubleBitBinary, Flags,
    FrozenCounter, PointIterator, ResponseFunction, ResponseHeader, Time, TimeQuality, Timestamp,
    IIN1, IIN2,
};
use oo_bindgen::tasks::{
    association_add_poll, association_destroy, association_operate, association_perform_time_sync,
    association_read, blocking_step, command_result, operate_result, perform_time_sync_result,
    poll_demand, poll_destroy, read_result, reentry_warning, response_timeout_valid,
    runtime_add_master_tcp, runtime_new, time_sync_result, BlockingStep, CommandFailure,
    CommandResult, MasterStep, ReadResult, RuntimeConfig, TimeSyncFailure, TimeSyncResult,
};

#[test]
fn first_indication_byte() {
    let flags = [
        IIN1Flag::Broadcast,
        IIN1Flag::Class1Events,
        IIN1Flag::Class2Events,
        IIN1Flag::Class3Events,
        IIN1Flag::NeedTime,
        IIN1Flag::LocalControl,
        IIN1Flag::DeviceTrouble,
        IIN1Flag::DeviceRestart,
    ];
    for (bit, flag) in flags.iter().enumerate() {
        for value in 0..=255u8 {
            let byte = IIN1 { value };
            assert_eq!(iin1_is_set(Some(&byte), *flag), value & (1 << bit) != 0);
        }
        assert!(!iin1_is_set(None, *flag));
    }
}

#[test]
fn second_indication_byte() {
    let flags = [
        IIN2Flag::NoFuncCodeSupport,
        IIN2Flag::ObjectUnknown,
        IIN2Flag::ParameterError,
        IIN2Flag::EventBufferOverflow,
        IIN2Flag::AlreadyExecuting,
        IIN2Flag::ConfigCorrupt,
    ];
    for (bit, flag) in flags.iter().enumerate() {
        for value in 0..=255u8 {
            let byte = IIN2 { value };
            assert_eq!(iin2_is_set(Some(&byte), *flag), value & (1 << bit) != 0);
        }
        assert!(!iin2_is_set(None, *flag));
    }
}

#[test]
fn quality_flags() {
    let flags = [
        (Flag::Online, 0),
        (Flag::Restart, 1),
        (Flag::CommLost, 2),
        (Flag::RemoteForced, 3),
        (Flag::LocalForced, 4),
        (Flag::ChatterFilter, 5),
        (Flag::Rollover, 5),
        (Flag::OverRange, 5),
        (Flag::Discontinuity, 6),
        (Flag::ReferenceErr, 6),
    ];
    for (flag, bit) in flags {
        assert_eq!(flag.mask(), 1 << bit);
        for value in 0..=255u8 {
            let f = Flags::from(value);
            assert_eq!(flags_is_set(Some(&f), flag), value & (1 << bit) != 0);
        }
        assert!(!flags_is_set(None, flag));
    }
    assert!(flags_is_set(Some(&Flags { value: 0x41 }), Flag::Online));
    assert!(!flags_is_set(Some(&Flags { value: 0x41 }), Flag::Restart));
}

#[test]
fn time_of_a_point() {
    assert_eq!(
        Timestamp::from(Time::Synchronized(1500)),
        Timestamp { value: 1500, quality: TimeQuality::Synchronized }
    );
    assert_eq!(
        Timestamp::from(Time::NotSynchronized(7)),
        Timestamp { value: 7, quality: TimeQuality::NotSynchronized }
    );
    assert_eq!(Timestamp::from(Time::Invalid), Timestamp { value: 0, quality: TimeQuality::Invalid });
}

#[test]
fn points_hold_their_parts() {
    let time = Timestamp { value: 9, quality: TimeQuality::Synchronized };
    assert_eq!(
        Binary::new(3, true, 0x01, Time::Synchronized(9)),
        Binary { index: 3, value: true, flags: Flags { value: 1 }, time }
    );
    assert_eq!(
        DoubleBitBinary::new(4, DoubleBit::DeterminedOn, 0x81, Time::Synchronized(9)),
        DoubleBitBinary { index: 4, value: DoubleBit::DeterminedOn, flags: Flags { value: 0x81 }, time }
    );
    assert_eq!(
        BinaryOutputStatus::new(5, false, 0, Time::Synchronized(9)),
        BinaryOutputStatus { index: 5, value: false, flags: Flags { value: 0 }, time }
    );
    assert_eq!(
        Counter::new(6, 70000, 2, Time::Synchronized(9)),
        Counter { index: 6, value: 70000, flags: Flags { value: 2 }, time }
    );
    assert_eq!(
        FrozenCounter::new(7, 1, 3, Time::Invalid),
        FrozenCounter {
            index: 7,
            value: 1,
            flags: Flags { value: 3 },
            time: Timestamp { value: 0, quality: TimeQuality::Invalid }
        }
    );
    let control = Control { fir: true, fin: false, con: true, uns: false, seq: 11 };
    let header = ResponseHeader::new(control, true, 0x90, 0x04);
    assert_eq!(header.control, control);
    assert_eq!(header.func, ResponseFunction::UnsolicitedResponse);
    assert_eq!(header.iin.iin1, IIN1 { value: 0x90 });
    assert_eq!(header.iin.iin2, IIN2 { value: 0x04 });
    assert_eq!(ResponseHeader::new(control, false, 0, 0).func, ResponseFunction::Response);
}

#[test]
fn iterator_traversal() {
    let items = vec![
        Counter::new(0, 10, 1, Time::Invalid),
        Counter::new(1, 20, 1, Time::Invalid),
        Counter::new(2, 30, 1, Time::Invalid),
    ];
    let mut it = PointIterator::new(items.clone());
    let mut seen = Vec::new();
    while let Some(p) = it.next() {
        seen.push(*p);
    }
    assert_eq!(seen, items);
    assert!(it.next().is_none());
    assert!(it.next().is_none());
    let mut empty: PointIterator<Counter> = PointIterator::new(Vec::new());
    assert!(empty.next().is_none());
}

#[test]
fn command_results() {
    assert_eq!(command_result(None), CommandResult::Success);
    assert_eq!(command_result(Some(CommandFailure::Task)), CommandResult::TaskError);
    assert_eq!(command_result(Some(CommandFailure::Request)), CommandResult::TaskError);
    assert_eq!(command_result(Some(CommandFailure::BadStatus)), CommandResult::BadStatus);
    assert_eq!(
        command_result(Some(CommandFailure::HeaderCountMismatch)),
        CommandResult::HeaderCountMismatch
    );
    assert_eq!(
        command_result(Some(CommandFailure::HeaderTypeMismatch)),
        CommandResult::HeaderTypeMismatch
    );
    assert_eq!(
        command_result(Some(CommandFailure::ObjectCountMismatch)),
        CommandResult::ObjectCountMismatch
    );
    assert_eq!(
        command_result(Some(CommandFailure::ObjectValueMismatch)),
        CommandResult::ObjectValueMismatch
    );
}

#[test]
fn command_results_of_the_master() {
    assert_eq!(operate_result(&Ok(())), CommandResult::Success);
    let cases = [
        (CommandError::Task(TaskError::Shutdown), CommandResult::TaskError),
        (
            CommandError::Response(CommandResponseError::Request(TaskError::ResponseTimeout)),
            CommandResult::TaskError,
        ),
        (
            CommandError::Response(CommandResponseError::BadStatus(CommandStatus::Timeout)),
            CommandResult::BadStatus,
        ),
        (
            CommandError::Response(CommandResponseError::HeaderCountMismatch),
            CommandResult::HeaderCountMismatch,
        ),
        (
            CommandError::Response(CommandResponseError::HeaderTypeMismatch),
            CommandResult::HeaderTypeMismatch,
        ),
        (
            CommandError::Response(CommandResponseError::ObjectCountMismatch),
            CommandResult::ObjectCountMismatch,
        ),
        (
            CommandError::Response(CommandResponseError::ObjectValueMismatch),
            CommandResult::ObjectValueMismatch,
        ),
    ];
    for (error, expected) in cases {
        assert_eq!(operate_result(&Err(error)), expected);
    }
}

#[test]
fn time_sync_results() {
    assert_eq!(time_sync_result(None), TimeSyncResult::Success);
    assert_eq!(time_sync_result(Some(TimeSyncFailure::Task)), TimeSyncResult::TaskError);
    assert_eq!(perform_time_sync_result(&Ok(())), TimeSyncResult::Success);
    let cases = [
        (TimeSyncError::Task(TaskError::Shutdown), TimeSyncResult::TaskError),
        (TimeSyncError::ClockRollback, TimeSyncResult::ClockRollback),
        (TimeSyncError::SystemTimeNotUnix, TimeSyncResult::SystemTimeNotUnix),
        (TimeSyncError::BadOutstationTimeDelay(3), TimeSyncResult::BadOutstationTimeDelay),
        (TimeSyncError::Overflow, TimeSyncResult::Overflow),
        (TimeSyncError::StillNeedsTime, TimeSyncResult::StillNeedsTime),
        (TimeSyncError::SystemTimeNotAvailable, TimeSyncResult::SystemTimeNotAvailable),
        (TimeSyncError::IinError(Iin2::new(1)), TimeSyncResult::IINError),
    ];
    for (error, expected) in cases {
        assert_eq!(perform_time_sync_result(&Err(error)), expected);
    }
}

#[test]
fn read_results_and_task_starts() {
    assert_eq!(read_result(true), ReadResult::Success);
    assert_eq!(read_result(false), ReadResult::TaskError);
    assert_eq!(association_read(true, true), None);
    assert_eq!(association_read(false, true), Some(ReadResult::TaskError));
    assert_eq!(association_read(true, false), Some(ReadResult::TaskError));
    assert_eq!(association_operate(true, true), None);
    assert_eq!(association_operate(false, true), Some(CommandResult::TaskError));
    assert_eq!(association_operate(true, false), Some(CommandResult::TaskError));
    assert_eq!(association_perform_time_sync(true), None);
    assert_eq!(association_perform_time_sync(false), Some(TimeSyncResult::TaskError));
}

#[test]
fn blocking_calls_outside_a_runtime() {
    assert_eq!(blocking_step(false, false), BlockingStep::Nothing);
    assert_eq!(blocking_step(false, true), BlockingStep::Nothing);
    assert_eq!(blocking_step(true, true), BlockingStep::Warn);
    assert_eq!(blocking_step(true, false), BlockingStep::Run);
    assert_eq!(association_destroy(false), BlockingStep::Nothing);
    assert_eq!(association_destroy(true), BlockingStep::Run);
    assert_eq!(poll_demand(true), BlockingStep::Run);
    assert_eq!(poll_destroy(true), BlockingStep::Run);
    assert_eq!(poll_destroy(false), BlockingStep::Nothing);
    assert_eq!(association_add_poll(true, true), BlockingStep::Run);
    assert_eq!(association_add_poll(true, false), BlockingStep::Nothing);
    assert_eq!(association_add_poll(false, true), BlockingStep::Nothing);
}

#[test]
fn blocking_calls_inside_a_runtime() {
    let runtime = tokio::runtime::Builder::new_current_thread().build().unwrap();
    let steps = runtime.block_on(async {
        [association_destroy(true), poll_demand(true), poll_destroy(true), association_add_poll(true, true), poll_demand(false)]
    });
    assert_eq!(
        steps,
        [
            BlockingStep::Warn,
            BlockingStep::Warn,
            BlockingStep::Warn,
            BlockingStep::Warn,
            BlockingStep::Nothing
        ]
    );
    assert_eq!(
        reentry_warning("poll_destroy"),
        "Tried calling 'poll_destroy' from within a tokio thread"
    );
}

#[test]
fn runtime_and_master() {
    assert_eq!(runtime_new(None), None);
    assert_eq!(runtime_new(Some(&RuntimeConfig { num_core_threads: 4 })), Some(4));
    assert!(!response_timeout_valid(0));
    assert!(response_timeout_valid(1));
    assert!(response_timeout_valid(5000));
    assert!(response_timeout_valid(3_600_000));
    assert!(!response_timeout_valid(3_600_001));
    assert!(!response_timeout_valid(u64::MAX));
    assert_eq!(runtime_add_master_tcp(false, 0, true), MasterStep::Refuse);
    assert_eq!(runtime_add_master_tcp(true, 5000, true), MasterStep::CreateAndSpawn);
    assert_eq!(runtime_add_master_tcp(true, 5000, false), MasterStep::CreateAndDrop);
}

#[test]
fn java_driver() {
    let settings = BindingBuilderSettings {
        ffi_name: "foo_ffi".to_string(),
        destination_path: vec!["target".to_string(), "bindings".to_string()],
        java_group_id: "io.stepfunc".to_string(),
        library_name: "foo".to_string(),
    };
    let extra = vec!["LICENSE.txt".to_string()];
    let b = JavaBindingBuilder::new(settings, PlatformLocations { locations: Vec::new() }, &extra);
    assert_eq!(b.extra_files, extra);
    assert_eq!(JavaBindingBuilder::name(), "java");
    assert_eq!(b.output_dir(), vec!["target", "bindings", "java"]);
    assert_eq!(b.java_build_dir(), vec!["target", "bindings", "java", "foo"]);
    assert_eq!(JavaBindingBuilder::maven(false, MavenGoal::Build), vec!["mvn", "-B", "compile"]);
    assert_eq!(JavaBindingBuilder::maven(false, MavenGoal::Test), vec!["mvn", "-B", "verify"]);
    assert_eq!(
        JavaBindingBuilder::maven(true, MavenGoal::Package),
        vec!["cmd", "/c", "mvn.cmd", "-B", "package", "-DskipTests"]
    );
    assert_eq!(b.generate(true), Preparation::ClearAndCreate);
    assert_eq!(b.generate(false), Preparation::Create);
}
