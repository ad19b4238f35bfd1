use vstd::prelude::*;

verus! {

/// Native code of `HITRACE_LEVEL_DEBUG`.
pub const HITRACE_LEVEL_DEBUG: u32 = 0;

/// Native code of `HITRACE_LEVEL_INFO`.
pub const HITRACE_LEVEL_INFO: u32 = 1;

/// Native code of `HITRACE_LEVEL_CRITICAL`.
pub const HITRACE_LEVEL_CRITICAL: u32 = 2;

/// Native code of `HITRACE_LEVEL_COMMERCIAL`.
pub const HITRACE_LEVEL_COMMERCIAL: u32 = 3;

/// Native code of `HITRACE_LEVEL_MAX`, the range limit. The platform header
/// gives it the same value as `HITRACE_LEVEL_COMMERCIAL`.
pub const HITRACE_LEVEL_MAX: u32 = 3;

/// HiTrace output levels (API level 19 and later).
#[derive(Debug, Clone, Copy, PartialEq, Eq, Structural)]
pub enum HiTraceOutputLevel {
    /// Output level only for debug usage.
    Debug,
    /// Output level for log version usage.
    Info,
    /// Output level for log version usage, with higher priority than Info.
    Critical,
    /// Output level for nolog version usage.
    Commercial,
    /// Range limit; stands for every native code that is not a known level.
    Max,
}

/// The five severities of a generic structured-logging front end, from the
/// most verbose to the least.
#[derive(Debug, Clone, Copy, PartialEq, Eq, Structural)]
pub enum LogLevel {
    Trace,
    Debug,
    Info,
    Warn,
    Error,
}

/// The native code that stands for `level`.
pub open spec fn native_code(level: HiTraceOutputLevel) -> u32 {
    match level {
        HiTraceOutputLevel::Debug => HITRACE_LEVEL_DEBUG,
        HiTraceOutputLevel::Info => HITRACE_LEVEL_INFO,
        HiTraceOutputLevel::Critical => HITRACE_LEVEL_CRITICAL,
        HiTraceOutputLevel::Commercial => HITRACE_LEVEL_COMMERCIAL,
        HiTraceOutputLevel::Max => HITRACE_LEVEL_MAX,
    }
}

/// The level that a native code stands for: the first known level with that
/// code, and `Max` for any code that is not a known level.
pub open spec fn level_of_code(raw: u32) -> HiTraceOutputLevel {
    if raw == HITRACE_LEVEL_DEBUG {
        HiTraceOutputLevel::Debug
    } else if raw == HITRACE_LEVEL_INFO {
        HiTraceOutputLevel::Info
    } else if raw == HITRACE_LEVEL_CRITICAL {
        HiTraceOutputLevel::Critical
    } else if raw == HITRACE_LEVEL_COMMERCIAL {
        HiTraceOutputLevel::Commercial
    } else {
        HiTraceOutputLevel::Max
    }
}

/// Whether `raw` is the code of one of the platform's levels.
pub open spec fn is_known_code(raw: u32) -> bool {
    raw == HITRACE_LEVEL_DEBUG || raw == HITRACE_LEVEL_INFO || raw == HITRACE_LEVEL_CRITICAL
        || raw == HITRACE_LEVEL_COMMERCIAL || raw == HITRACE_LEVEL_MAX
}

/// The output level for a generic severity: the two most verbose severities
/// share the `Debug` bucket, the others move up one level each.
pub open spec fn level_for_log(level: LogLevel) -> HiTraceOutputLevel {
    match level {
        LogLevel::Trace => HiTraceOutputLevel::Debug,
        LogLevel::Debug => HiTraceOutputLevel::Debug,
        LogLevel::Info => HiTraceOutputLevel::Info,
        LogLevel::Warn => HiTraceOutputLevel::Critical,
        LogLevel::Error => HiTraceOutputLevel::Commercial,
    }
}

impl HiTraceOutputLevel {
    /// The native code of this level, as the platform's `HiTrace_Output_Level`
    /// holds it.
    pub fn to_native(self) -> (r: u32)
        ensures
            r == native_code(self),
    {
        match self {
            HiTraceOutputLevel::Debug => HITRACE_LEVEL_DEBUG,
            HiTraceOutputLevel::Info => HITRACE_LEVEL_INFO,
            HiTraceOutputLevel::Critical => HITRACE_LEVEL_CRITICAL,
            HiTraceOutputLevel::Commercial => HITRACE_LEVEL_COMMERCIAL,
            HiTraceOutputLevel::Max => HITRACE_LEVEL_MAX,
        }
    }

    /// The level for a native code. Never fails: a code that is not a known
    /// level gives `Max`.
    pub fn from_native(raw: u32) -> (r: HiTraceOutputLevel)
        ensures
            r == level_of_code(raw),
    {
        if raw == HITRACE_LEVEL_DEBUG {
            HiTraceOutputLevel::Debug
        } else if raw == HITRACE_LEVEL_INFO {
            HiTraceOutputLevel::Info
        } else if raw == HITRACE_LEVEL_CRITICAL {
            HiTraceOutputLevel::Critical
        } else if raw == HITRACE_LEVEL_COMMERCIAL {
            HiTraceOutputLevel::Commercial
        } else {
            HiTraceOutputLevel::Max
        }
    }

    /// The output level for a generic severity.
    pub fn from_log_level(level: LogLevel) -> (r: HiTraceOutputLevel)
        ensures
            r == level_for_log(level),
    {
        match level {
            LogLevel::Trace => HiTraceOutputLevel::Debug,
            LogLevel::Debug => HiTraceOutputLevel::Debug,
            LogLevel::Info => HiTraceOutputLevel::Info,
            LogLevel::Warn => HiTraceOutputLevel::Critical,
            LogLevel::Error => HiTraceOutputLevel::Commercial,
        }
    }
}

/// Going to the native code, back to a level and to the native code again
/// gives the code that the first step gave, for every level.
pub proof fn lemma_native_round_trip(level: HiTraceOutputLevel)
    ensures
        native_code(level_of_code(native_code(level))) == native_code(level),
{
}

/// Every native code that is not one of the platform's levels reads as `Max`.
pub proof fn lemma_unknown_code_is_max(raw: u32)
    requires
        !is_known_code(raw),
    ensures
        level_of_code(raw) == HiTraceOutputLevel::Max,
{
}

/// Every generic severity lands on one of the four informative levels, never
/// on `Max`, and the two most verbose severities land on the same level.
pub proof fn lemma_log_levels_compress(level: LogLevel)
    ensures
        level_for_log(level) != HiTraceOutputLevel::Max,
        level_for_log(LogLevel::Trace) == level_for_log(LogLevel::Debug),
{
}

} // verus!
