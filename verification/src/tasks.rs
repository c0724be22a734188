//! What the native entry points of a master decide: whether a call may block,
//! whether a task can start, and what result its callback gets.

use vstd::prelude::*;
use crate::formatting::concat3;

verus! {

/// Makes `dnp3::master::CommandError` known as a type; nothing is claimed of
/// what a value of it holds.
#[verifier::external_type_specification]
#[verifier::external_body]
pub struct ExCommandError(dnp3::master::CommandError);

/// Makes `dnp3::master::TimeSyncError` known as a type; nothing is claimed
/// of what a value of it holds.
#[verifier::external_type_specification]
#[verifier::external_body]
pub struct ExTimeSyncError(dnp3::master::TimeSyncError);

/// What the callback of a read task is told.
#[derive(Clone, Copy, Debug, PartialEq, Eq, Structural)]
pub enum ReadResult {
    Success,
    TaskError,
}

/// What the callback of a command task is told.
#[derive(Clone, Copy, Debug, PartialEq, Eq, Structural)]
pub enum CommandResult {
    Success,
    TaskError,
    BadStatus,
    HeaderCountMismatch,
    HeaderTypeMismatch,
    ObjectCountMismatch,
    ObjectValueMismatch,
}

/// What the callback of a time synchronization is told.
#[derive(Clone, Copy, Debug, PartialEq, Eq, Structural)]
pub enum TimeSyncResult {
    Success,
    TaskError,
    ClockRollback,
    SystemTimeNotUnix,
    BadOutstationTimeDelay,
    Overflow,
    StillNeedsTime,
    SystemTimeNotAvailable,
    IINError,
}

/// How a command task failed.
#[derive(Clone, Copy, Debug, PartialEq, Eq, Structural)]
pub enum CommandFailure {
    /// The task could not be run.
    Task,
    /// The task failed before a response came.
    Request,
    BadStatus,
    HeaderCountMismatch,
    HeaderTypeMismatch,
    ObjectCountMismatch,
    ObjectValueMismatch,
}

/// How a time synchronization failed.
#[derive(Clone, Copy, Debug, PartialEq, Eq, Structural)]
pub enum TimeSyncFailure {
    Task,
    ClockRollback,
    SystemTimeNotUnix,
    BadOutstationTimeDelay,
    Overflow,
    StillNeedsTime,
    SystemTimeNotAvailable,
    IINError,
}

/// Tells the variants of `dnp3::master::CommandError` and of the
/// `dnp3::master::CommandResponseError` inside it apart. Nothing is claimed
/// of which one comes out.
#[verifier::external_body]
fn command_failure(error: &dnp3::master::CommandError) -> CommandFailure {
    match error {
        dnp3::master::CommandError::Task(_) => CommandFailure::Task,
        dnp3::master::CommandError::Response(response) => match response {
            dnp3::master::CommandResponseError::Request(_) => CommandFailure::Request,
            dnp3::master::CommandResponseError::BadStatus(_) => CommandFailure::BadStatus,
            dnp3::master::CommandResponseError::HeaderCountMismatch => CommandFailure::HeaderCountMismatch,
            dnp3::master::CommandResponseError::HeaderTypeMismatch => CommandFailure::HeaderTypeMismatch,
            dnp3::master::CommandResponseError::ObjectCountMismatch => CommandFailure::ObjectCountMismatch,
            dnp3::master::CommandResponseError::ObjectValueMismatch => CommandFailure::ObjectValueMismatch,
        },
    }
}

/// Tells the variants of `dnp3::master::TimeSyncError` apart. Nothing is
/// claimed of which one comes out.
#[verifier::external_body]
fn time_sync_failure(error: &dnp3::master::TimeSyncError) -> TimeSyncFailure {
    match error {
        dnp3::master::TimeSyncError::Task(_) => TimeSyncFailure::Task,
        dnp3::master::TimeSyncError::ClockRollback => TimeSyncFailure::ClockRollback,
        dnp3::master::TimeSyncError::SystemTimeNotUnix => TimeSyncFailure::SystemTimeNotUnix,
        dnp3::master::TimeSyncError::BadOutstationTimeDelay(_) => TimeSyncFailure::BadOutstationTimeDelay,
        dnp3::master::TimeSyncError::Overflow => TimeSyncFailure::Overflow,
        dnp3::master::TimeSyncError::StillNeedsTime => TimeSyncFailure::StillNeedsTime,
        dnp3::master::TimeSyncError::SystemTimeNotAvailable => TimeSyncFailure::SystemTimeNotAvailable,
        dnp3::master::TimeSyncError::IinError(_) => TimeSyncFailure::IINError,
    }
}

/// Calls `tokio::runtime::Handle::try_current` and says whether it found a
/// runtime. The answer depends on the thread that asks, so nothing is
/// claimed of it.
#[verifier::external_body]
fn inside_runtime() -> bool {
    tokio::runtime::Handle::try_current().is_ok()
}

/// Calls `dnp3::app::Timeout::from_millis` and says whether it accepted the
/// count: it accepts from one millisecond to one hour.
#[verifier::external_body]
fn timeout_accepts(milliseconds: u64) -> (r: bool)
    ensures
        r == (1 <= milliseconds <= 3_600_000),
{
    dnp3::app::Timeout::from_millis(milliseconds).is_ok()
}

/// The result that stands for a failure of a command task. A task that could
/// not run and a request that failed are both errors of the task.
pub open spec fn spec_command_result(outcome: Option<CommandFailure>) -> CommandResult {
    match outcome {
        None => CommandResult::Success,
        Some(CommandFailure::Task) => CommandResult::TaskError,
        Some(CommandFailure::Request) => CommandResult::TaskError,
        Some(CommandFailure::BadStatus) => CommandResult::BadStatus,
        Some(CommandFailure::HeaderCountMismatch) => CommandResult::HeaderCountMismatch,
        Some(CommandFailure::HeaderTypeMismatch) => CommandResult::HeaderTypeMismatch,
        Some(CommandFailure::ObjectCountMismatch) => CommandResult::ObjectCountMismatch,
        Some(CommandFailure::ObjectValueMismatch) => CommandResult::ObjectValueMismatch,
    }
}

/// What the callback of a command task is told: success, or the result that
/// stands for the failure.
pub fn command_result(outcome: Option<CommandFailure>) -> (r: CommandResult)
    ensures
        r == spec_command_result(outcome),
{
    match outcome {
        None => CommandResult::Success,
        Some(CommandFailure::Task) => CommandResult::TaskError,
        Some(CommandFailure::Request) => CommandResult::TaskError,
        Some(CommandFailure::BadStatus) => CommandResult::BadStatus,
        Some(CommandFailure::HeaderCountMismatch) => CommandResult::HeaderCountMismatch,
        Some(CommandFailure::HeaderTypeMismatch) => CommandResult::HeaderTypeMismatch,
        Some(CommandFailure::ObjectCountMismatch) => CommandResult::ObjectCountMismatch,
        Some(CommandFailure::ObjectValueMismatch) => CommandResult::ObjectValueMismatch,
    }
}

pub open spec fn spec_time_sync_result(outcome: Option<TimeSyncFailure>) -> TimeSyncResult {
    match outcome {
        None => TimeSyncResult::Success,
        Some(TimeSyncFailure::Task) => TimeSyncResult::TaskError,
        Some(TimeSyncFailure::ClockRollback) => TimeSyncResult::ClockRollback,
        Some(TimeSyncFailure::SystemTimeNotUnix) => TimeSyncResult::SystemTimeNotUnix,
        Some(TimeSyncFailure::BadOutstationTimeDelay) => TimeSyncResult::BadOutstationTimeDelay,
        Some(TimeSyncFailure::Overflow) => TimeSyncResult::Overflow,
        Some(TimeSyncFailure::StillNeedsTime) => TimeSyncResult::StillNeedsTime,
        Some(TimeSyncFailure::SystemTimeNotAvailable) => TimeSyncResult::SystemTimeNotAvailable,
        Some(TimeSyncFailure::IINError) => TimeSyncResult::IINError,
    }
}

/// What the callback of a time synchronization is told: success, or the
/// result that stands for the failure.
pub fn time_sync_result(outcome: Option<TimeSyncFailure>) -> (r: TimeSyncResult)
    ensures
        r == spec_time_sync_result(outcome),
{
    match outcome {
        None => TimeSyncResult::Success,
        Some(TimeSyncFailure::Task) => TimeSyncResult::TaskError,
        Some(TimeSyncFailure::ClockRollback) => TimeSyncResult::ClockRollback,
        Some(TimeSyncFailure::SystemTimeNotUnix) => TimeSyncResult::SystemTimeNotUnix,
        Some(TimeSyncFailure::BadOutstationTimeDelay) => TimeSyncResult::BadOutstationTimeDelay,
        Some(TimeSyncFailure::Overflow) => TimeSyncResult::Overflow,
        Some(TimeSyncFailure::StillNeedsTime) => TimeSyncResult::StillNeedsTime,
        Some(TimeSyncFailure::SystemTimeNotAvailable) => TimeSyncResult::SystemTimeNotAvailable,
        Some(TimeSyncFailure::IINError) => TimeSyncResult::IINError,
    }
}

/// What the callback of a read task is told.
pub fn read_result(succeeded: bool) -> (r: ReadResult)
    ensures
        r == if succeeded {
            ReadResult::Success
        } else {
            ReadResult::TaskError
        },
{
    if succeeded {
        ReadResult::Success
    } else {
        ReadResult::TaskError
    }
}

/// What the callback of a command task is told of the outcome that the
/// master reports. Success is reported as success, and a failure never is.
pub fn operate_result(outcome: &Result<(), dnp3::master::CommandError>) -> (r: CommandResult)
    ensures
        outcome is Ok <==> r == CommandResult::Success,
{
    match outcome {
        Ok(_) => command_result(None),
        Err(error) => command_result(Some(command_failure(error))),
    }
}

/// What the callback of a time synchronization is told of the outcome that
/// the master reports. Success is reported as success, and a failure never
/// is.
pub fn perform_time_sync_result(outcome: &Result<(), dnp3::master::TimeSyncError>) -> (r:
    TimeSyncResult)
    ensures
        outcome is Ok <==> r == TimeSyncResult::Success,
{
    match outcome {
        Ok(_) => time_sync_result(None),
        Err(error) => time_sync_result(Some(time_sync_failure(error))),
    }
}

/// What an entry point that waits for the master does next.
#[derive(Clone, Copy, Debug, PartialEq, Eq, Structural)]
pub enum BlockingStep {
    /// There is nothing to act on.
    Nothing,
    /// Wait for the master.
    Run,
    /// The caller is a thread of the runtime, which must not wait: warn.
    Warn,
}

/// An entry point that waits for the master does nothing for a null handle,
/// warns on a thread of the runtime, and otherwise waits.
pub open spec fn spec_blocking_step(present: bool, inside: bool) -> BlockingStep {
    if !present {
        BlockingStep::Nothing
    } else if inside {
        BlockingStep::Warn
    } else {
        BlockingStep::Run
    }
}

pub fn blocking_step(present: bool, inside: bool) -> (step: BlockingStep)
    ensures
        step == spec_blocking_step(present, inside),
{
    if !present {
        BlockingStep::Nothing
    } else if inside {
        BlockingStep::Warn
    } else {
        BlockingStep::Run
    }
}

/// The warning for a call from a thread of the runtime.
pub fn reentry_warning(function: &str) -> (text: String)
    ensures
        text@ == "Tried calling '"@ + function@ + "' from within a tokio thread"@,
{
    concat3("Tried calling '", function, "' from within a tokio thread")
}

/// What destroying an association does next. `present` says whether the
/// handle is not null.
pub fn association_destroy(present: bool) -> (step: BlockingStep)
    ensures
        present <==> step != BlockingStep::Nothing,
{
    if present {
        blocking_step(true, inside_runtime())
    } else {
        BlockingStep::Nothing
    }
}

/// What demanding a poll does next. `present` says whether the handle is not
/// null.
pub fn poll_demand(present: bool) -> (step: BlockingStep)
    ensures
        present <==> step != BlockingStep::Nothing,
{
    if present {
        blocking_step(true, inside_runtime())
    } else {
        BlockingStep::Nothing
    }
}

/// What destroying a poll does next. `present` says whether the handle is
/// not null.
pub fn poll_destroy(present: bool) -> (step: BlockingStep)
    ensures
        present <==> step != BlockingStep::Nothing,
{
    if present {
        blocking_step(true, inside_runtime())
    } else {
        BlockingStep::Nothing
    }
}

/// What adding a poll does next. Without an association or without a request
/// there is nothing to act on.
pub fn association_add_poll(has_association: bool, has_request: bool) -> (step: BlockingStep)
    ensures
        has_association && has_request <==> step != BlockingStep::Nothing,
{
    if has_association && has_request {
        blocking_step(true, inside_runtime())
    } else {
        BlockingStep::Nothing
    }
}

/// How a read task starts: with a result at once, when the association or
/// the request is null, or by being spawned.
pub fn association_read(has_association: bool, has_request: bool) -> (at_once: Option<ReadResult>)
    ensures
        at_once == if has_association && has_request {
            None
        } else {
            Some(ReadResult::TaskError)
        },
{
    if has_association && has_request {
        None
    } else {
        Some(ReadResult::TaskError)
    }
}

/// How a command task starts: with a result at once, when the association or
/// the command is null, or by being spawned.
pub fn association_operate(has_association: bool, has_command: bool) -> (at_once: Option<
    CommandResult,
>)
    ensures
        at_once == if has_association && has_command {
            None
        } else {
            Some(CommandResult::TaskError)
        },
{
    if has_association && has_command {
        None
    } else {
        Some(CommandResult::TaskError)
    }
}

/// How a time synchronization starts: with a result at once, when the
/// association is null, or by being spawned.
pub fn association_perform_time_sync(has_association: bool) -> (at_once: Option<TimeSyncResult>)
    ensures
        at_once == if has_association {
            None
        } else {
            Some(TimeSyncResult::TaskError)
        },
{
    if has_association {
        None
    } else {
        Some(TimeSyncResult::TaskError)
    }
}

/// How a runtime is configured.
#[derive(Clone, Copy, Debug, PartialEq, Eq, Structural)]
pub struct RuntimeConfig {
    pub num_core_threads: u16,
}

/// How many worker threads a new runtime is asked to have; without a
/// configuration it is left to the runtime.
pub fn runtime_new(config: Option<&RuntimeConfig>) -> (threads: Option<usize>)
    ensures
        threads == match config {
            None => None,
            Some(c) => Some(c.num_core_threads as usize),
        },
{
    match config {
        None => None,
        Some(x) => Some(x.num_core_threads as usize),
    }
}

/// What adding a TCP master does.
#[derive(Clone, Copy, Debug, PartialEq, Eq, Structural)]
pub enum MasterStep {
    /// The endpoint is no socket address: no master is created.
    Refuse,
    /// The master is created; without a runtime to run it, it is dropped.
    CreateAndDrop,
    /// The master is created and its task is spawned on the runtime.
    CreateAndSpawn,
}

/// Whether a count of milliseconds can be the response timeout of a master:
/// from one millisecond to one hour.
pub fn response_timeout_valid(milliseconds: u64) -> (r: bool)
    ensures
        r == (1 <= milliseconds <= 3_600_000),
{
    timeout_accepts(milliseconds)
}

pub open spec fn spec_master_step(endpoint_parses: bool, has_runtime: bool) -> MasterStep {
    if !endpoint_parses {
        MasterStep::Refuse
    } else if has_runtime {
        MasterStep::CreateAndSpawn
    } else {
        MasterStep::CreateAndDrop
    }
}

/// What adding a TCP master does, given whether the endpoint is a socket
/// address, the response timeout in milliseconds, and whether the runtime is
/// not null. Where a master is created, the response timeout must be valid.
pub fn runtime_add_master_tcp(endpoint_parses: bool, response_timeout: u64, has_runtime: bool) -> (step:
    MasterStep)
    requires
        endpoint_parses ==> 1 <= response_timeout <= 3_600_000,
    ensures
        step == spec_master_step(endpoint_parses, has_runtime),
{
    if !endpoint_parses {
        MasterStep::Refuse
    } else if has_runtime {
        MasterStep::CreateAndSpawn
    } else {
        MasterStep::CreateAndDrop
    }
}

} // verus!
