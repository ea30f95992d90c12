//! The command line of a run: `[concurrency] [count_per_source]`, both
//! optional, both at least 1.
use vstd::prelude::*;

use crate::fields::{decimal, read_decimal};

verus! {

/// Books fetched at once when the command line does not say.
pub const DEFAULT_PARSE_COUNT: usize = 3;

/// Books taken from each bookstore when the command line does not say.
pub const PARSE_FROM_ONE_SITE: usize = 1500;

#[derive(Debug, Clone, Copy, PartialEq, Eq)]
pub enum ArgumentError {
    /// More than two arguments were given.
    TooMany,
    /// The argument at this position (from 0) is not an unsigned number.
    NotANumber(usize),
    /// The argument at this position (from 0) is 0.
    BelowOne(usize),
}

#[derive(Debug, Clone, Copy, PartialEq, Eq)]
pub struct RunConfig {
    /// Tasks in flight at most.
    pub concurrency: usize,
    /// URLs taken from each bookstore at most.
    pub per_source: usize,
}

/// The count an argument gives: `Ok` when it is a number from 1 up to the
/// largest `usize`.
pub open spec fn count_outcome(arg: Seq<char>, position: usize) -> Result<usize, ArgumentError> {
    match decimal(arg) {
        Some(v) => if v > usize::MAX {
            Err(ArgumentError::NotANumber(position))
        } else if v == 0 {
            Err(ArgumentError::BelowOne(position))
        } else {
            Ok(v as usize)
        },
        None => Err(ArgumentError::NotANumber(position)),
    }
}

/// Reads the argument at `position` as a count.
pub fn parse_count(arg: &str, position: usize) -> (r: Result<usize, ArgumentError>)
    ensures
        r == count_outcome(arg@, position),
{
    match read_decimal(arg, false) {
        Some(v) => if v > usize::MAX as u128 {
            Err(ArgumentError::NotANumber(position))
        } else if v == 0 {
            Err(ArgumentError::BelowOne(position))
        } else {
            Ok(v as usize)
        },
        None => Err(ArgumentError::NotANumber(position)),
    }
}

/// The settings that the arguments (program name excluded) give.
pub open spec fn config_outcome(args: Seq<Seq<char>>) -> Result<RunConfig, ArgumentError> {
    if args.len() > 2 {
        Err(ArgumentError::TooMany)
    } else {
        let concurrency = if args.len() >= 1 {
            count_outcome(args[0], 0)
        } else {
            Ok(DEFAULT_PARSE_COUNT)
        };
        let per_source = if args.len() >= 2 {
            count_outcome(args[1], 1)
        } else {
            Ok(PARSE_FROM_ONE_SITE)
        };
        match concurrency {
            Err(e) => Err(e),
            Ok(c) => match per_source {
                Err(e) => Err(e),
                Ok(p) => Ok(RunConfig { concurrency: c, per_source: p }),
            },
        }
    }
}

/// Reads the command line; any error is fatal to the run, before any fetch.
pub fn parse_args(args: &Vec<String>) -> (r: Result<RunConfig, ArgumentError>)
    ensures
        r == config_outcome(args@.map_values(|s: String| s@)),
        r matches Ok(c) ==> c.concurrency >= 1 && c.per_source >= 1,
{
    let ghost v = args@.map_values(|s: String| s@);
    if args.len() > 2 {
        return Err(ArgumentError::TooMany);
    }
    let concurrency = if args.len() >= 1 {
        parse_count(args[0].as_str(), 0)?
    } else {
        DEFAULT_PARSE_COUNT
    };
    let per_source = if args.len() >= 2 {
        parse_count(args[1].as_str(), 1)?
    } else {
        PARSE_FROM_ONE_SITE
    };
    Ok(RunConfig { concurrency, per_source })
}

} // verus!
