//! Outcomes of calls into the codec library.
use crate::text::{trim_end, trimmed_end};
use vstd::prelude::*;

verus! {

/// The status codes that mean "no output now": more input is needed, or the
/// stream has ended.
#[derive(Clone, Copy, Debug, PartialEq, Eq, Structural)]
pub struct PauseCodes {
    pub again: i32,
    pub eof: i32,
}

/// What a status code says: failures are negative.
pub fn check_status(ret: i32) -> (r: Result<(), i32>)
    ensures
        r == if ret < 0 {
            Err::<(), i32>(ret)
        } else {
            Ok::<(), i32>(())
        },
{
    if ret < 0 {
        Err(ret)
    } else {
        Ok(())
    }
}

/// What the status of a receiving call says: `Ok(true)` when there is output,
/// `Ok(false)` when there is none now.
pub open spec fn received(ret: i32, pause: PauseCodes) -> Result<bool, i32> {
    if ret == pause.again || ret == pause.eof {
        Ok(false)
    } else if ret < 0 {
        Err(ret)
    } else {
        Ok(true)
    }
}

/// What the status of a receiving call says.
pub fn receive_outcome(ret: i32, pause: PauseCodes) -> (r: Result<bool, i32>)
    ensures
        r == received(ret, pause),
{
    if ret == pause.again || ret == pause.eof {
        return Ok(false);
    }
    if ret < 0 {
        return Err(ret);
    }
    Ok(true)
}

/// Why a demuxed frame cannot be handed on.
#[derive(Clone, Copy, Debug, PartialEq, Eq, Structural)]
pub enum ReadError {
    /// The demuxer failed with this status.
    Failed(i32),
    /// The frame names a stream that does not exist.
    NoSuchStream { stream_index: i32, stream_count: usize },
}

/// What reading a frame gave: the index of its stream, or `None` where there is
/// no frame now. The index is checked against the number of streams.
pub open spec fn read_result(
    ret: i32,
    pause: PauseCodes,
    stream_index: i32,
    stream_count: usize,
) -> Result<Option<usize>, ReadError> {
    match received(ret, pause) {
        Err(e) => Err(ReadError::Failed(e)),
        Ok(false) => Ok(None),
        Ok(true) => if 0 <= stream_index < stream_count {
            Ok(Some(stream_index as usize))
        } else {
            Err(ReadError::NoSuchStream { stream_index, stream_count })
        },
    }
}

/// What reading a frame gave.
pub fn read_outcome(
    ret: i32,
    pause: PauseCodes,
    stream_index: i32,
    stream_count: usize,
) -> (r: Result<Option<usize>, ReadError>)
    ensures
        r == read_result(ret, pause, stream_index, stream_count),
{
    match receive_outcome(ret, pause) {
        Err(e) => Err(ReadError::Failed(e)),
        Ok(has_frame) => {
            if !has_frame {
                return Ok(None);
            }
            if stream_index < 0 || stream_index as usize >= stream_count {
                return Err(ReadError::NoSuchStream { stream_index, stream_count });
            }
            Ok(Some(stream_index as usize))
        },
    }
}

/// A log level.
#[derive(Clone, Copy, Debug, PartialEq, Eq, Structural)]
pub enum LogLevel {
    Error,
    Warn,
    Info,
    Debug,
    Trace,
}

/// The log levels of the codec library.
#[derive(Clone, Copy, Debug, PartialEq, Eq, Structural)]
pub struct NativeLogLevels {
    pub panic: i32,
    pub fatal: i32,
    pub error: i32,
    pub warning: i32,
    pub info: i32,
    pub debug: i32,
    pub trace: i32,
}

/// The level of a message of the codec library; unknown levels are information.
pub open spec fn log_level_of(level: i32, native: NativeLogLevels) -> LogLevel {
    if level == native.fatal || level == native.panic || level == native.error {
        LogLevel::Error
    } else if level == native.warning {
        LogLevel::Warn
    } else if level == native.info {
        LogLevel::Info
    } else if level == native.debug {
        LogLevel::Debug
    } else if level == native.trace {
        LogLevel::Trace
    } else {
        LogLevel::Info
    }
}

/// The level of a message of the codec library.
pub fn log_level(level: i32, native: NativeLogLevels) -> (r: LogLevel)
    ensures
        r == log_level_of(level, native),
{
    if level == native.fatal || level == native.panic || level == native.error {
        LogLevel::Error
    } else if level == native.warning {
        LogLevel::Warn
    } else if level == native.info {
        LogLevel::Info
    } else if level == native.debug {
        LogLevel::Debug
    } else if level == native.trace {
        LogLevel::Trace
    } else {
        LogLevel::Info
    }
}

/// A line of the codec library's log, white space at its end left out, or `None`
/// where nothing is left of it.
pub fn log_line(text: &str) -> (r: Option<String>)
    ensures
        match r {
            Some(line) => line@ == trimmed_end(text@) && line@.len() > 0,
            None => trimmed_end(text@).len() == 0,
        },
{
    let line: String = trim_end(text);
    if line.as_str().is_empty() {
        None
    } else {
        Some(line)
    }
}

/// The codec library's number for a level.
pub fn native_log_level(level: LogLevel, native: NativeLogLevels) -> (r: i32)
    ensures
        r == match level {
            LogLevel::Error => native.error,
            LogLevel::Warn => native.warning,
            LogLevel::Info => native.info,
            LogLevel::Debug => native.debug,
            LogLevel::Trace => native.trace,
        },
{
    match level {
        LogLevel::Error => native.error,
        LogLevel::Warn => native.warning,
        LogLevel::Info => native.info,
        LogLevel::Debug => native.debug,
        LogLevel::Trace => native.trace,
    }
}

/// A receiving call has output, has none now, or failed, and one of these only: the two
/// pausing codes mean none now, any other negative code is the failure, and what is not
/// negative is output.
pub proof fn law_receiving_has_three_outcomes(ret: i32, pause: PauseCodes)
    requires
        pause.again < 0,
        pause.eof < 0,
    ensures
        received(ret, pause) == Ok::<bool, i32>(true) <==> ret >= 0,
        received(ret, pause) == Ok::<bool, i32>(false) <==> ret == pause.again || ret == pause.eof,
        received(ret, pause) is Err <==> ret < 0 && ret != pause.again && ret != pause.eof,
        received(ret, pause) matches Err(code) ==> code == ret,
{
}

/// A frame is handed on exactly where there is one and its stream exists.
pub proof fn law_frames_name_an_existing_stream(
    ret: i32,
    pause: PauseCodes,
    stream_index: i32,
    stream_count: usize,
)
    requires
        pause.again < 0,
        pause.eof < 0,
    ensures
        ({
            let r = read_result(ret, pause, stream_index, stream_count);
            &&& r matches Ok(Some(i)) ==> i == stream_index && i < stream_count
            &&& ret >= 0 && 0 <= stream_index < stream_count ==> r == Ok::<
                Option<usize>,
                ReadError,
            >(Some(stream_index as usize))
            &&& ret >= 0 && !(0 <= stream_index < stream_count) ==> r == Err::<
                Option<usize>,
                ReadError,
            >(ReadError::NoSuchStream { stream_index, stream_count })
            &&& ret == pause.again || ret == pause.eof ==> r == Ok::<Option<usize>, ReadError>(None)
            &&& ret < 0 && ret != pause.again && ret != pause.eof ==> r == Err::<
                Option<usize>,
                ReadError,
            >(ReadError::Failed(ret))
        }),
{
}

/// Whether the codec library's levels are all different.
pub open spec fn levels_differ(n: NativeLogLevels) -> bool {
    seq![n.panic, n.fatal, n.error, n.warning, n.info, n.debug, n.trace].no_duplicates()
}

/// A level survives the way to the codec library and back; its two levels above errors
/// are errors, and a level that it does not name is information.
pub proof fn law_log_levels_roundtrip(level: LogLevel, native: NativeLogLevels, r: i32, other: i32)
    requires
        levels_differ(native),
        call_ensures(native_log_level, (level, native), r),
    ensures
        log_level_of(r, native) == level,
        log_level_of(native.panic, native) == LogLevel::Error,
        log_level_of(native.fatal, native) == LogLevel::Error,
        !seq![
            native.panic,
            native.fatal,
            native.error,
            native.warning,
            native.info,
            native.debug,
            native.trace,
        ].contains(other) ==> log_level_of(other, native) == LogLevel::Info,
        level == LogLevel::Error ==> r == native.error,
        level == LogLevel::Warn ==> r == native.warning,
        level == LogLevel::Info ==> r == native.info,
        level == LogLevel::Debug ==> r == native.debug,
        level == LogLevel::Trace ==> r == native.trace,
{
    let all = seq![
        native.panic,
        native.fatal,
        native.error,
        native.warning,
        native.info,
        native.debug,
        native.trace,
    ];
    assert(all[0] == native.panic && all[1] == native.fatal && all[2] == native.error);
    assert(all[3] == native.warning && all[4] == native.info);
    assert(all[5] == native.debug && all[6] == native.trace);
    if !all.contains(other) {
        assert(other != all[0] && other != all[1] && other != all[2] && other != all[3]);
        assert(other != all[4] && other != all[5] && other != all[6]);
    }
}

/// A status is a failure exactly where it is negative, and the failure names it.
pub proof fn law_negative_statuses_fail(ret: i32, r: Result<(), i32>)
    requires
        call_ensures(check_status, (ret,), r),
    ensures
        r is Ok <==> ret >= 0,
        r matches Err(code) ==> code == ret,
{
}

} // verus!
