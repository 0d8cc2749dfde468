//! The game's configuration, parsed from positional command-line arguments.

use vstd::prelude::*;
use crate::decimal::{dec_digits, parse_u32, u32_parses, u32_value, u64_to_decimal};

verus! {

/// The configuration of one game: the word-list source name and how many
/// rounds to play.
pub struct Rules {
    pub file_name: String,
    pub amount_of_rounds: u32,
}

/// The argument-count error: how many positional arguments were expected, and
/// how many came in.
#[derive(Debug)]
pub struct InvalidNumberOfArguments {
    pub expected: u32,
    pub provided: u32,
}

impl InvalidNumberOfArguments {
    /// The error text shown to the user, naming expected and provided counts.
    pub fn message(&self) -> (s: String)
        ensures
            s@ == "Invalid number of arguments, expected: "@ + dec_digits(self.expected as nat)
                + ", provided: "@ + dec_digits(self.provided as nat),
    {
        let mut s = String::from_str("Invalid number of arguments, expected: ");
        let expected_txt = u64_to_decimal(self.expected as u64);
        s.append(expected_txt.as_str());
        s.append(", provided: ");
        let provided_txt = u64_to_decimal(self.provided as u64);
        s.append(provided_txt.as_str());
        s
    }
}

/// A startup error: the argument count is wrong, or the round count is not a
/// `u32` numeral.
#[derive(Debug)]
pub enum RulesError {
    WrongArgumentCount(InvalidNumberOfArguments),
    InvalidRoundCount,
}

/// The number of positional arguments in a full argument vector, whose first
/// element is the program name.
pub open spec fn positional_count(args: Seq<String>) -> int {
    if args.len() == 0 {
        0
    } else {
        args.len() - 1
    }
}

/// Exactly two positional arguments are accepted.
pub fn verify_args(args: &Vec<String>) -> (r: Result<(), InvalidNumberOfArguments>)
    requires
        args@.len() <= u32::MAX,
    ensures
        r is Ok <==> args@.len() == 2,
        r matches Err(e) ==> e.expected == 2 && e.provided == args@.len(),
{
    let provided = args.len() as u32;
    let expected: u32 = 2;
    if provided != expected {
        return Err(InvalidNumberOfArguments { expected, provided });
    }
    Ok(())
}

impl Rules {
    /// Builds the rules from the positional arguments
    /// `[file_name, round_count]`: the file name is taken verbatim, and the
    /// round count must be a `u32` numeral.
    pub fn new(args: Vec<String>) -> (r: Result<Rules, RulesError>)
        requires
            args@.len() <= u32::MAX,
        ensures
            args@.len() != 2 ==> (r matches Err(RulesError::WrongArgumentCount(e))
                && e.expected == 2 && e.provided == args@.len()),
            args@.len() == 2 && !u32_parses(args@[1]@) ==> r matches Err(
                RulesError::InvalidRoundCount,
            ),
            args@.len() == 2 && u32_parses(args@[1]@) ==> (r matches Ok(rules)
                && rules.file_name@ == args@[0]@
                && rules.amount_of_rounds == u32_value(args@[1]@)),
    {
        match verify_args(&args) {
            Err(e) => {
                return Err(RulesError::WrongArgumentCount(e));
            },
            Ok(()) => {},
        }
        let amount_of_rounds = match parse_u32(args[1].as_str()) {
            Some(v) => v,
            None => {
                return Err(RulesError::InvalidRoundCount);
            },
        };
        Ok(Rules { file_name: args[0].clone(), amount_of_rounds })
    }
}

/// Builds the rules from a full argument vector whose first element is the
/// program name, so exactly three elements are accepted.
pub fn parse_arguments(args: Vec<String>) -> (r: Result<Rules, RulesError>)
    requires
        args@.len() <= u32::MAX,
    ensures
        args@.len() != 3 ==> (r matches Err(RulesError::WrongArgumentCount(e))
            && e.expected == 2 && e.provided == positional_count(args@)),
        args@.len() == 3 && !u32_parses(args@[2]@) ==> r matches Err(RulesError::InvalidRoundCount),
        args@.len() == 3 && u32_parses(args@[2]@) ==> (r matches Ok(rules)
            && rules.file_name@ == args@[1]@
            && rules.amount_of_rounds == u32_value(args@[2]@)),
{
    if args.len() != 3 {
        let provided: u32 = if args.len() == 0 {
            0
        } else {
            (args.len() - 1) as u32
        };
        return Err(RulesError::WrongArgumentCount(InvalidNumberOfArguments {
            expected: 2,
            provided,
        }));
    }
    let amount_of_rounds = match parse_u32(args[2].as_str()) {
        Some(v) => v,
        None => {
            return Err(RulesError::InvalidRoundCount);
        },
    };
    Ok(Rules { file_name: args[1].clone(), amount_of_rounds })
}

} // verus!
