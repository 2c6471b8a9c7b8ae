//! The start command the installer registers: the target executable, its
//! argument list rebuilt from the options that were given, and the textual
//! command line made of both.

use crate::opts::Opts;
use vstd::prelude::*;
use vstd::string::*;

verus! {

/// The character for one decimal digit.
pub open spec fn spec_digit_char(d: int) -> char {
    if d == 0 {
        '0'
    } else if d == 1 {
        '1'
    } else if d == 2 {
        '2'
    } else if d == 3 {
        '3'
    } else if d == 4 {
        '4'
    } else if d == 5 {
        '5'
    } else if d == 6 {
        '6'
    } else if d == 7 {
        '7'
    } else if d == 8 {
        '8'
    } else {
        '9'
    }
}

/// The decimal numeral of a non-negative integer, most significant digit
/// first.
pub open spec fn spec_decimal(n: int) -> Seq<char>
    decreases n,
{
    if n < 10 {
        seq![spec_digit_char(n)]
    } else {
        spec_decimal(n / 10).push(spec_digit_char(n % 10))
    }
}

/// The given sequences joined by single spaces, in order, with no leading
/// or trailing space.
pub open spec fn spec_join_spaced(items: Seq<Seq<char>>) -> Seq<char>
    decreases items.len(),
{
    if items.len() == 0 {
        Seq::empty()
    } else if items.len() == 1 {
        items[0]
    } else {
        spec_join_spaced(items.drop_last()) + seq![' '] + items.last()
    }
}

/// Extending a join by one more item appends a separating space except
/// before the first item.
proof fn lemma_join_spaced_step(items: Seq<Seq<char>>, i: int)
    requires
        0 <= i < items.len(),
    ensures
        spec_join_spaced(items.take(i + 1)) == if i == 0 {
            items[0]
        } else {
            spec_join_spaced(items.take(i)) + seq![' '] + items[i]
        },
{
    let t = items.take(i + 1);
    if i == 0 {
        assert(t.len() == 1);
        assert(t[0] == items[0]);
    } else {
        assert(t.drop_last() =~= items.take(i));
        assert(t.last() == items[i]);
    }
}

/// The one-character string for a decimal digit.
fn digit_str(d: u64) -> (s: &'static str)
    requires
        d < 10,
    ensures
        s@ == seq![spec_digit_char(d as int)],
{
    if d == 0 {
        proof {
            reveal_strlit("0");
            assert("0"@ =~= seq![spec_digit_char(0)]);
        }
        "0"
    } else if d == 1 {
        proof {
            reveal_strlit("1");
            assert("1"@ =~= seq![spec_digit_char(1)]);
        }
        "1"
    } else if d == 2 {
        proof {
            reveal_strlit("2");
            assert("2"@ =~= seq![spec_digit_char(2)]);
        }
        "2"
    } else if d == 3 {
        proof {
            reveal_strlit("3");
            assert("3"@ =~= seq![spec_digit_char(3)]);
        }
        "3"
    } else if d == 4 {
        proof {
            reveal_strlit("4");
            assert("4"@ =~= seq![spec_digit_char(4)]);
        }
        "4"
    } else if d == 5 {
        proof {
            reveal_strlit("5");
            assert("5"@ =~= seq![spec_digit_char(5)]);
        }
        "5"
    } else if d == 6 {
        proof {
            reveal_strlit("6");
            assert("6"@ =~= seq![spec_digit_char(6)]);
        }
        "6"
    } else if d == 7 {
        proof {
            reveal_strlit("7");
            assert("7"@ =~= seq![spec_digit_char(7)]);
        }
        "7"
    } else if d == 8 {
        proof {
            reveal_strlit("8");
            assert("8"@ =~= seq![spec_digit_char(8)]);
        }
        "8"
    } else {
        proof {
            reveal_strlit("9");
            assert("9"@ =~= seq![spec_digit_char(9)]);
        }
        "9"
    }
}

/// The decimal numeral of `n` as a string.
pub fn u64_to_decimal(n: u64) -> (s: String)
    ensures
        s@ == spec_decimal(n as int),
    decreases n,
{
    if n < 10 {
        String::from_str(digit_str(n))
    } else {
        let mut s = u64_to_decimal(n / 10);
        s.append(digit_str(n % 10));
        proof {
            assert(s@ =~= spec_decimal(n as int));
        }
        s
    }
}

/// The command the installer registers for startup: the target executable,
/// the arguments to hand it, and the directory to start it in.
#[derive(Debug, Clone, Default, PartialEq, Eq)]
pub struct StartArgs {
    pub target: String,
    pub args: Vec<String>,
    pub start_location: Option<String>,
}

/// The argument list that reproduces the given options on the next start:
/// the clamped timer value if one was requested, and — when the cleaner is
/// enabled — its flag followed by every setting that differs from its
/// default.
pub open spec fn spec_rebuilt_args(opts: Opts) -> Seq<Seq<char>> {
    let items = Seq::<Seq<char>>::empty();
    let items = match opts.timer {
        Some(timer_value) => items.push("--timer "@ + spec_decimal(timer_value as int)),
        None => items,
    };
    if opts.clean_standby_list {
        let items = items.push("--islc"@);
        let items = if opts.clean_standby_list_poll_freq != 10 {
            items.push("--islc-timer "@ + spec_decimal(opts.clean_standby_list_poll_freq as int))
        } else {
            items
        };
        let items = if opts.clear_standby_cached_mem != 1024 {
            items.push("--cscm "@ + spec_decimal(opts.clear_standby_cached_mem as int))
        } else {
            items
        };
        if opts.clear_standby_free_mem != 1024 {
            items.push("--csfm "@ + spec_decimal(opts.clear_standby_free_mem as int))
        } else {
            items
        }
    } else {
        items
    }
}

impl StartArgs {
    /// The textual command line: the target in quotes, a space, then the
    /// arguments joined with spaces.
    pub open spec fn spec_display(self) -> Seq<char> {
        "\""@ + self.target@ + "\" "@ + spec_join_spaced(self.args.deep_view())
    }

    /// Joins the arguments with single spaces, in order.
    pub fn args_to_string(args: &[String]) -> (r: String)
        ensures
            r@ == spec_join_spaced(args.deep_view()),
    {
        let mut s = String::new();
        let mut i: usize = 0;
        while i < args.len()
            invariant
                i <= args@.len(),
                s@ == spec_join_spaced(args.deep_view().take(i as int)),
            decreases args@.len() - i,
        {
            if i > 0 {
                s.append(" ");
            }
            s.append(args[i].as_str());
            proof {
                reveal_strlit(" ");
                lemma_join_spaced_step(args.deep_view(), i as int);
                assert(s@ =~= spec_join_spaced(args.deep_view().take(i + 1)));
            }
            i = i + 1;
        }
        proof {
            assert(args.deep_view().take(args.deep_view().len() as int) =~= args.deep_view());
        }
        s
    }

    /// Builds the start command: the installed executable as the target,
    /// its parent directory (when the caller found one) as the start
    /// location, and the argument list rebuilt from the options.
    pub fn build_from_args(dest_path: String, start_location: Option<String>, args: &Opts) -> (r: Self)
        ensures
            r.target == dest_path,
            r.start_location == start_location,
            r.args.deep_view() == spec_rebuilt_args(*args),
    {
        let mut rebuilt: Vec<String> = Vec::new();
        let ghost mut dv: Seq<Seq<char>> = Seq::empty();
        proof {
            assert(rebuilt.deep_view() =~= dv);
        }
        if let Some(timer_value) = args.timer {
            let mut s = String::from_str("--timer ");
            let numeral = u64_to_decimal(timer_value as u64);
            s.append(numeral.as_str());
            rebuilt.push(s);
            proof {
                dv = dv.push("--timer "@ + spec_decimal(timer_value as int));
                assert(rebuilt.deep_view() =~= dv);
            }
        }
        if args.clean_standby_list {
            rebuilt.push(String::from_str("--islc"));
            proof {
                dv = dv.push("--islc"@);
                assert(rebuilt.deep_view() =~= dv);
            }
            if args.clean_standby_list_poll_freq != 10 {
                let mut s = String::from_str("--islc-timer ");
                let numeral = u64_to_decimal(args.clean_standby_list_poll_freq);
                s.append(numeral.as_str());
                rebuilt.push(s);
                proof {
                    dv = dv.push("--islc-timer "@ + spec_decimal(args.clean_standby_list_poll_freq as int));
                    assert(rebuilt.deep_view() =~= dv);
                }
            }
            if args.clear_standby_cached_mem != 1024 {
                let mut s = String::from_str("--cscm ");
                let numeral = u64_to_decimal(args.clear_standby_cached_mem as u64);
                s.append(numeral.as_str());
                rebuilt.push(s);
                proof {
                    dv = dv.push("--cscm "@ + spec_decimal(args.clear_standby_cached_mem as int));
                    assert(rebuilt.deep_view() =~= dv);
                }
            }
            if args.clear_standby_free_mem != 1024 {
                let mut s = String::from_str("--csfm ");
                let numeral = u64_to_decimal(args.clear_standby_free_mem as u64);
                s.append(numeral.as_str());
                rebuilt.push(s);
                proof {
                    dv = dv.push("--csfm "@ + spec_decimal(args.clear_standby_free_mem as int));
                    assert(rebuilt.deep_view() =~= dv);
                }
            }
        }
        proof {
            assert(dv =~~= spec_rebuilt_args(*args));
        }
        StartArgs { target: dest_path, args: rebuilt, start_location }
    }

    /// Renders the command line: the quoted target followed by a space and
    /// the joined arguments.
    pub fn to_display_string(&self) -> (r: String)
        ensures
            r@ == self.spec_display(),
    {
        let mut s = String::from_str("\"");
        s.append(self.target.as_str());
        s.append("\" ");
        let joined = Self::args_to_string(self.args.as_slice());
        s.append(joined.as_str());
        s
    }
}

} // verus!
