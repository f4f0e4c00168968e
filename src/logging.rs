use vstd::prelude::*;

verus! {

/// How much the program logs.
#[derive(Clone, Copy, Debug, PartialEq, Eq, Structural)]
pub enum LogLevel {
    Error,
    Warning,
    Info,
    Debug,
    Silent,
}

/// The level of an emitted log event.
#[derive(Clone, Copy, Debug, PartialEq, Eq, Structural)]
pub enum TraceLevel {
    Error,
    Warn,
    Info,
    Debug,
    Trace,
}

/// The most verbose level that a filter lets through.
#[derive(Clone, Copy, Debug, PartialEq, Eq, Structural)]
pub enum LevelFilter {
    Off,
    Error,
    Warn,
    Info,
    Debug,
}

/// The filter that a configured log level sets.
pub fn level_filter(level: LogLevel) -> (r: LevelFilter)
    ensures
        r == match level {
            LogLevel::Error => LevelFilter::Error,
            LogLevel::Warning => LevelFilter::Warn,
            LogLevel::Info => LevelFilter::Info,
            LogLevel::Debug => LevelFilter::Debug,
            LogLevel::Silent => LevelFilter::Off,
        },
{
    match level {
        LogLevel::Error => LevelFilter::Error,
        LogLevel::Warning => LevelFilter::Warn,
        LogLevel::Info => LevelFilter::Info,
        LogLevel::Debug => LevelFilter::Debug,
        LogLevel::Silent => LevelFilter::Off,
    }
}

/// The level under which an event of level `t` is reported; trace events
/// are reported as debug.
pub open spec fn spec_event_level(t: TraceLevel) -> LogLevel {
    match t {
        TraceLevel::Error => LogLevel::Error,
        TraceLevel::Warn => LogLevel::Warning,
        TraceLevel::Info => LogLevel::Info,
        TraceLevel::Debug => LogLevel::Debug,
        TraceLevel::Trace => LogLevel::Debug,
    }
}

pub fn event_level(t: TraceLevel) -> (r: LogLevel)
    ensures
        r == spec_event_level(t),
{
    match t {
        TraceLevel::Error => LogLevel::Error,
        TraceLevel::Warn => LogLevel::Warning,
        TraceLevel::Info => LogLevel::Info,
        TraceLevel::Debug => LogLevel::Debug,
        TraceLevel::Trace => LogLevel::Debug,
    }
}

/// The texts of `v` joined by single spaces.
pub open spec fn joined(v: Seq<Seq<char>>) -> Seq<char>
    decreases v.len(),
{
    if v.len() == 0 {
        Seq::empty()
    } else if v.len() == 1 {
        v[0]
    } else {
        joined(v.drop_last()) + seq![' '] + v.last()
    }
}

/// The texts of a list of strings.
pub open spec fn field_texts(v: Seq<String>) -> Seq<Seq<char>> {
    v.map_values(|s: String| s@)
}

/// One event as it is handed to the collectors.
#[derive(Clone, Debug)]
pub struct LogEvent {
    pub level: LogLevel,
    pub msg: String,
}

/// The event reported for one emitted at level `t` whose recorded fields
/// read `fields`: their texts joined by single spaces.
pub fn log_event(t: TraceLevel, fields: &Vec<String>) -> (r: LogEvent)
    ensures
        r.level == spec_event_level(t),
        r.msg@ == joined(field_texts(fields@)),
{
    let mut msg = String::new();
    let mut i: usize = 0;
    while i < fields.len()
        invariant
            i <= fields@.len(),
            msg@ == joined(field_texts(fields@.subrange(0, i as int))),
        decreases fields@.len() - i,
    {
        let ghost before = fields@.subrange(0, i as int);
        let ghost prior = msg@;
        if i > 0 {
            msg.append(" ");
        }
        msg.append(fields[i].as_str());
        proof {
            reveal_strlit(" ");
            let after = fields@.subrange(0, i + 1);
            assert(after.drop_last() =~= before);
            assert(field_texts(after).drop_last() =~= field_texts(before));
            assert(field_texts(after).len() == i + 1);
            assert(field_texts(after).last() == fields@[i as int]@);
            if i == 0 {
                assert(msg@ =~= joined(field_texts(after)));
            } else {
                assert(msg@ =~= prior + seq![' '] + fields@[i as int]@);
                assert(msg@ =~= joined(field_texts(after)));
            }
        }
        i = i + 1;
    }
    assert(fields@.subrange(0, fields@.len() as int) =~= fields@);
    LogEvent { level: event_level(t), msg }
}

} // verus!
