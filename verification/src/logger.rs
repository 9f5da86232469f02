//! The logging bridge: severity translation and record formatting.
//!
//! Structured log records (level, optional file and line, message) are
//! re-emitted through the backend's native logging sink.  Severities
//! translate as: debug and trace to verbose, info to info, warn and
//! error to error, disabled to silent.  A record whose source location
//! — file and line — is known is formatted as `[<file>:<line>]
//! <message>`; otherwise the message stands alone.  This module decides
//! and formats; the emission into the backend sink happens outside it.

use vstd::prelude::*;

verus! {

/// Severity of one log record.
#[derive(Clone, Copy, PartialEq, Eq, Structural, Debug)]
pub enum LogLevel {
    Error,
    Warn,
    Info,
    Debug,
    Trace,
}

/// The most verbose severity that is let through; `Off` silences all.
#[derive(Clone, Copy, PartialEq, Eq, Structural, Debug)]
pub enum LogFilter {
    Off,
    Error,
    Warn,
    Info,
    Debug,
    Trace,
}

/// The backend sink's own verbosity scale.
#[derive(Clone, Copy, PartialEq, Eq, Structural, Debug)]
pub enum Verbosity {
    Silent,
    Error,
    Info,
    Verbose,
}

/// Rank of a record severity: lower is more severe.
pub open spec fn level_rank(level: LogLevel) -> int {
    match level {
        LogLevel::Error => 1,
        LogLevel::Warn => 2,
        LogLevel::Info => 3,
        LogLevel::Debug => 4,
        LogLevel::Trace => 5,
    }
}

/// Rank of a filter: how much it lets through.
pub open spec fn filter_rank(filter: LogFilter) -> int {
    match filter {
        LogFilter::Off => 0,
        LogFilter::Error => 1,
        LogFilter::Warn => 2,
        LogFilter::Info => 3,
        LogFilter::Debug => 4,
        LogFilter::Trace => 5,
    }
}

/// The backend verbosity a filter selects at start-up: debug and trace
/// are verbose, info is info, warn and error are error, off is silent.
pub open spec fn filter_verbosity(filter: LogFilter) -> Verbosity {
    match filter {
        LogFilter::Off => Verbosity::Silent,
        LogFilter::Error => Verbosity::Error,
        LogFilter::Warn => Verbosity::Error,
        LogFilter::Info => Verbosity::Info,
        LogFilter::Debug => Verbosity::Verbose,
        LogFilter::Trace => Verbosity::Verbose,
    }
}

/// The backend verbosity a record's severity maps to.
pub open spec fn record_verbosity(level: LogLevel) -> Verbosity {
    match level {
        LogLevel::Error => Verbosity::Error,
        LogLevel::Warn => Verbosity::Error,
        LogLevel::Info => Verbosity::Info,
        LogLevel::Debug => Verbosity::Verbose,
        LogLevel::Trace => Verbosity::Verbose,
    }
}

/// The decimal digits of `n`, most significant first.
pub open spec fn decimal(n: nat) -> Seq<u8>
    decreases n,
{
    if n < 10 {
        seq![(48 + n) as u8]
    } else {
        decimal(n / 10) + seq![(48 + n % 10) as u8]
    }
}

/// The formatted form of one record: `[<file>:<line>] <message>` when
/// the source location — file and line — is known, and the bare message
/// otherwise.
pub open spec fn formatted(file: Option<Seq<u8>>, line: Option<u32>, msg: Seq<u8>) -> Seq<u8> {
    match (file, line) {
        (Some(f), Some(l)) => seq![91u8] + f + seq![58u8] + decimal(l as nat) + seq![93u8, 32u8]
            + msg,
        _ => msg,
    }
}

/// Append the decimal digits of `n` to `out`.
fn push_decimal(n: u32, out: &mut Vec<u8>)
    ensures
        final(out)@ == old(out)@ + decimal(n as nat),
    decreases n,
{
    if n >= 10 {
        push_decimal(n / 10, out);
    }
    out.push((n % 10) as u8 + 48);
    proof {
        assert(out@ =~= old(out)@ + decimal(n as nat));
    }
}

/// Append a copy of `src` to `out`.
fn push_bytes(out: &mut Vec<u8>, src: &Vec<u8>)
    ensures
        final(out)@ == old(out)@ + src@,
{
    let mut i: usize = 0;
    while i < src.len()
        invariant
            i <= src@.len(),
            out@ == old(out)@ + src@.subrange(0, i as int),
        decreases src@.len() - i,
    {
        out.push(src[i]);
        proof {
            assert(out@ =~= old(out)@ + src@.subrange(0, i + 1));
        }
        i += 1;
    }
    proof {
        assert(src@.subrange(0, src@.len() as int) =~= src@);
    }
}

/// The compositor's logger: filters records and prepares them for the
/// backend sink.
pub struct Logger;

impl Logger {
    /// Whether a record of this severity passes the filter.
    pub fn enabled(&self, level: LogLevel, max_level: LogFilter) -> (r: bool)
        ensures
            r == (level_rank(level) <= filter_rank(max_level)),
    {
        let lr: u32 = match level {
            LogLevel::Error => 1,
            LogLevel::Warn => 2,
            LogLevel::Info => 3,
            LogLevel::Debug => 4,
            LogLevel::Trace => 5,
        };
        let fr: u32 = match max_level {
            LogFilter::Off => 0,
            LogFilter::Error => 1,
            LogFilter::Warn => 2,
            LogFilter::Info => 3,
            LogFilter::Debug => 4,
            LogFilter::Trace => 5,
        };
        lr <= fr
    }

    /// Prepare one record for the sink: when its severity passes the
    /// filter, the translated verbosity and the formatted message;
    /// otherwise nothing, and the record is dropped.
    pub fn log(
        &self,
        level: LogLevel,
        max_level: LogFilter,
        file: Option<&Vec<u8>>,
        line: Option<u32>,
        msg: &Vec<u8>,
    ) -> (r: Option<(Verbosity, Vec<u8>)>)
        ensures
            r is Some <==> level_rank(level) <= filter_rank(max_level),
            r matches Some(out) ==> {
                &&& out.0 == record_verbosity(level)
                &&& out.1@ == formatted(
                    match file {
                        Some(f) => Some(f@),
                        None => None,
                    },
                    line,
                    msg@,
                )
            },
    {
        if !self.enabled(level, max_level) {
            return None;
        }
        let verbosity = match level {
            LogLevel::Error => Verbosity::Error,
            LogLevel::Warn => Verbosity::Error,
            LogLevel::Info => Verbosity::Info,
            LogLevel::Debug => Verbosity::Verbose,
            LogLevel::Trace => Verbosity::Verbose,
        };
        let mut out: Vec<u8> = Vec::new();
        match (file, line) {
            (Some(f), Some(l)) => {
                out.push(91);
                push_bytes(&mut out, f);
                out.push(58);
                push_decimal(l, &mut out);
                out.push(93);
                out.push(32);
                push_bytes(&mut out, msg);
            }
            _ => {
                push_bytes(&mut out, msg);
            }
        }
        proof {
            assert(out@ =~= formatted(
                match file {
                    Some(f) => Some(f@),
                    None => None,
                },
                line,
                msg@,
            ));
        }
        Some((verbosity, out))
    }
}

/// Select the backend sink's verbosity for a filter at start-up.
pub fn init_verbosity(filter: LogFilter) -> (v: Verbosity)
    ensures
        v == filter_verbosity(filter),
{
    match filter {
        LogFilter::Off => Verbosity::Silent,
        LogFilter::Error => Verbosity::Error,
        LogFilter::Warn => Verbosity::Error,
        LogFilter::Info => Verbosity::Info,
        LogFilter::Debug => Verbosity::Verbose,
        LogFilter::Trace => Verbosity::Verbose,
    }
}

} // verus!
