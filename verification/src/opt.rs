use crate::fractal::Fractal;
use crate::rating::Boss;
use crate::rating::Rating;
use crate::text::parse_u16;
use crate::text::spec_parse_u16;
use crate::text::str_eq;
use vstd::prelude::*;

verus! {

/// What the command line asks for.
#[derive(Debug, Copy, Clone, PartialEq, Eq, Structural)]
pub struct Opts {
    /// How many days to show.
    pub num: u16,
    /// The boss to rate the days for.
    pub boss: Option<Boss>,
    /// The fractal to rate the days for.
    pub fractal: Option<Fractal>,
    /// The rating that a day needs to be shown.
    pub threshold: Rating,
}

/// Why a command line is refused.
#[derive(Debug, Copy, Clone, PartialEq, Eq, Structural)]
pub enum OptsError {
    /// `-n` is not followed by a number.
    NoNumber,
    /// `-b` is not followed by the short name of a boss.
    NoBoss,
    /// `-f` is not followed by the short name of a fractal.
    NoFractal,
    /// `-t` is not followed by the name of a rating.
    NoRating,
    /// The argument at this place is none of `-n`, `-b`, `-f` and `-t`.
    InvalidArg(usize),
}

/// The arguments of a command line as sequences of characters.
pub open spec fn spec_args(args: Seq<String>) -> Seq<Seq<char>> {
    Seq::new(args.len(), |i: int| args[i]@)
}

impl Opts {
    /// What is asked for where nothing is said: one day, no boss, no fractal,
    /// any rating.
    pub open spec fn spec_default() -> Opts {
        Opts { num: 1, boss: None, fractal: None, threshold: Rating::Unplayable }
    }

    /// Reads the arguments from place `i` on, starting from `opts`. Each of
    /// `-n`, `-b`, `-f`, `-t` takes the argument after it as its value; `-f`
    /// also takes back a boss given before it.
    pub open spec fn spec_parse_from(args: Seq<Seq<char>>, i: int, opts: Opts) -> Result<
        Opts,
        OptsError,
    >
        decreases args.len() - i,
    {
        if i < 0 || i >= args.len() {
            Ok(opts)
        } else if args[i] == "-n"@ {
            if i + 1 < args.len() && spec_parse_u16(args[i + 1]) is Some {
                Self::spec_parse_from(
                    args,
                    i + 2,
                    Opts { num: spec_parse_u16(args[i + 1]).unwrap(), ..opts },
                )
            } else {
                Err(OptsError::NoNumber)
            }
        } else if args[i] == "-b"@ {
            if i + 1 < args.len() && Boss::spec_from_str(args[i + 1]) is Some {
                Self::spec_parse_from(
                    args,
                    i + 2,
                    Opts { boss: Boss::spec_from_str(args[i + 1]), ..opts },
                )
            } else {
                Err(OptsError::NoBoss)
            }
        } else if args[i] == "-f"@ {
            if i + 1 < args.len() && Fractal::spec_from_str(args[i + 1]) is Some {
                Self::spec_parse_from(
                    args,
                    i + 2,
                    Opts { fractal: Fractal::spec_from_str(args[i + 1]), boss: None, ..opts },
                )
            } else {
                Err(OptsError::NoFractal)
            }
        } else if args[i] == "-t"@ {
            if i + 1 < args.len() && Rating::spec_from_str(args[i + 1]) is Some {
                Self::spec_parse_from(
                    args,
                    i + 2,
                    Opts { threshold: Rating::spec_from_str(args[i + 1]).unwrap(), ..opts },
                )
            } else {
                Err(OptsError::NoRating)
            }
        } else {
            Err(OptsError::InvalidArg(i as usize))
        }
    }

    /// What a command line asks for. The first argument, the program's name,
    /// is passed over.
    pub open spec fn spec_parse(args: Seq<Seq<char>>) -> Result<Opts, OptsError> {
        Self::spec_parse_from(args, 1, Self::spec_default())
    }

    /// Reads the command line.
    pub fn parse(args: &Vec<String>) -> (r: Result<Opts, OptsError>)
        ensures
            r == Self::spec_parse(spec_args(args@)),
    {
        let mut opts = Opts { num: 1, boss: None, fractal: None, threshold: Rating::Unplayable };
        let ghost all = spec_args(args@);
        let len = args.len();
        let mut i: usize = 1;
        while i < len
            invariant
                1 <= i,
                len == args@.len(),
                all == spec_args(args@),
                Self::spec_parse_from(all, i as int, opts) == Self::spec_parse(all),
            decreases len - i,
        {
            let arg = args[i].as_str();
            assert(arg@ == all[i as int]);
            let value: Option<&str> = if i + 1 < len {
                Some(args[i + 1].as_str())
            } else {
                None
            };
            assert(value matches Some(v) ==> v@ == all[i + 1]);
            if str_eq(arg, "-n") {
                let num = match value {
                    Some(v) => parse_u16(v),
                    None => None,
                };
                match num {
                    Some(num) => {
                        opts.num = num;
                    },
                    None => {
                        return Err(OptsError::NoNumber);
                    },
                }
            } else if str_eq(arg, "-b") {
                let boss = match value {
                    Some(v) => Boss::from_str(v),
                    None => None,
                };
                match boss {
                    Some(boss) => {
                        opts.boss = Some(boss);
                    },
                    None => {
                        return Err(OptsError::NoBoss);
                    },
                }
            } else if str_eq(arg, "-f") {
                let fractal = match value {
                    Some(v) => Fractal::from_str(v),
                    None => None,
                };
                match fractal {
                    Some(fractal) => {
                        opts.fractal = Some(fractal);
                        opts.boss = None;
                    },
                    None => {
                        return Err(OptsError::NoFractal);
                    },
                }
            } else if str_eq(arg, "-t") {
                let rating = match value {
                    Some(v) => Rating::from_str(v),
                    None => None,
                };
                match rating {
                    Some(rating) => {
                        opts.threshold = rating;
                    },
                    None => {
                        return Err(OptsError::NoRating);
                    },
                }
            } else {
                return Err(OptsError::InvalidArg(i));
            }
            i += 2;
        }
        Ok(opts)
    }
}

} // verus!
