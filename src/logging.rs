use vstd::prelude::*;

verus! {

/// Severity of a log event, from the most severe to the most verbose.
#[derive(Clone, Copy, Debug, PartialEq, Eq, Structural)]
pub enum LogLevel {
    Error,
    Warn,
    Info,
    Debug,
    Trace,
}

/// The level is `Info` or more verbose.
pub open spec fn at_least_info(l: LogLevel) -> bool {
    l is Info || l is Debug || l is Trace
}

/// Module paths whose events at `Info` and more verbose are dropped: those that
/// start with `wgpu`, a crate that logs too much.
pub open spec fn is_noisy_module(path: Seq<u8>) -> bool {
    path.len() >= 4 && path.take(4) == seq![119u8, 103u8, 112u8, 117u8]
}

/// Whether the file log keeps an event from `source` at `level`.
pub fn keep_event(source: Option<&[u8]>, level: LogLevel) -> (r: bool)
    ensures
        r == !(source matches Some(p) && is_noisy_module(p@) && at_least_info(level)),
{
    match source {
        None => true,
        Some(p) => {
            let verbose = match level {
                LogLevel::Info | LogLevel::Debug | LogLevel::Trace => true,
                _ => false,
            };
            if !verbose || p.len() < 4 {
                return true;
            }
            let noisy = p[0] == 119u8 && p[1] == 103u8 && p[2] == 112u8 && p[3] == 117u8;
            proof {
                if noisy {
                    assert(p@.take(4) =~= seq![119u8, 103u8, 112u8, 117u8]);
                } else {
                    assert(p@.take(4)[0] == p@[0] && p@.take(4)[1] == p@[1] && p@.take(4)[2]
                        == p@[2] && p@.take(4)[3] == p@[3]);
                }
            }
            !noisy
        },
    }
}

} // verus!
