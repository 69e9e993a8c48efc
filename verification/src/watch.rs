//! The watch-list validator and the numbered listing it reports.

use vstd::prelude::*;
use vstd::string::*;
use crate::tokens::{is_valid_address, valid_address};

verus! {

/// The candidates that have a valid address shape, in order.
pub open spec fn filter_valid(args: Seq<Seq<char>>) -> Seq<Seq<char>>
    decreases args.len(),
{
    if args.len() == 0 {
        Seq::empty()
    } else {
        let rest = filter_valid(args.drop_last());
        if valid_address(args.last()) {
            rest.push(args.last())
        } else {
            rest
        }
    }
}

/// Keeps exactly the structurally valid wallet addresses, silently dropping
/// the rest.
pub fn filter_wallets(args: &Vec<String>) -> (r: Vec<String>)
    ensures
        r.deep_view() == filter_valid(args.deep_view()),
{
    let mut r: Vec<String> = Vec::new();
    let mut i: usize = 0;
    while i < args.len()
        invariant
            i <= args.len(),
            r.deep_view() =~~= filter_valid(args.deep_view().take(i as int)),
        decreases args.len() - i,
    {
        let ghost dv = args.deep_view();
        proof {
            assert(dv.take(i + 1 as int).drop_last() =~~= dv.take(i as int));
            assert(dv.take(i + 1 as int).last() == dv[i as int]);
            assert(dv[i as int] == args@[i as int]@);
        }
        if is_valid_address(args[i].as_str()) {
            let ghost prev = r.deep_view();
            let w = args[i].clone();
            r.push(w);
            proof {
                assert(r.deep_view() =~~= prev.push(dv[i as int]));
            }
        }
        i += 1;
    }
    proof {
        assert(args.deep_view().take(args.deep_view().len() as int) =~~= args.deep_view());
    }
    r
}

/// The filtered list when it is non-empty, else `None`: no valid wallet was
/// supplied.
pub fn validate_watchwallets_args(args: &Vec<String>) -> (r: Option<Vec<String>>)
    ensures
        match r {
            Some(v) => filter_valid(args.deep_view()).len() > 0 && v.deep_view() == filter_valid(
                args.deep_view(),
            ),
            None => filter_valid(args.deep_view()).len() == 0,
        },
{
    let v = filter_wallets(args);
    if v.len() == 0 {
        None
    } else {
        Some(v)
    }
}

pub open spec fn digit_char(d: int) -> char {
    if d == 0 {
        '0'
    } else if d == 1 {
        '1'
    } else if d == 2 {
        '2'
    } else if d == 3 {
        '3'
    } else if d == 4 {
        '4'
    } else if d == 5 {
        '5'
    } else if d == 6 {
        '6'
    } else if d == 7 {
        '7'
    } else if d == 8 {
        '8'
    } else {
        '9'
    }
}

/// The decimal spelling of `n`.
pub open spec fn dec_str(n: nat) -> Seq<char>
    decreases n via dec_str_decreases
{
    if n < 10 {
        seq![digit_char(n as int)]
    } else {
        dec_str(n / 10) + seq![digit_char((n % 10) as int)]
    }
}

#[via_fn]
proof fn dec_str_decreases(n: nat) {
    if n >= 10 {
        assert(n / 10 < n) by (nonlinear_arith)
            requires
                n >= 10,
        ;
    }
}

fn digit_str(d: u64) -> (r: &'static str)
    requires
        d < 10,
    ensures
        r@ == seq![digit_char(d as int)],
{
    proof {
        reveal_strlit("0");
        reveal_strlit("1");
        reveal_strlit("2");
        reveal_strlit("3");
        reveal_strlit("4");
        reveal_strlit("5");
        reveal_strlit("6");
        reveal_strlit("7");
        reveal_strlit("8");
        reveal_strlit("9");
    }
    let r = if d == 0 {
        "0"
    } else if d == 1 {
        "1"
    } else if d == 2 {
        "2"
    } else if d == 3 {
        "3"
    } else if d == 4 {
        "4"
    } else if d == 5 {
        "5"
    } else if d == 6 {
        "6"
    } else if d == 7 {
        "7"
    } else if d == 8 {
        "8"
    } else {
        "9"
    };
    proof {
        assert(r@ =~= seq![digit_char(d as int)]);
    }
    r
}

/// Renders `n` in decimal.
pub fn u64_dec(n: u64) -> (r: String)
    ensures
        r@ == dec_str(n as nat),
    decreases n,
{
    if n < 10 {
        String::from_str(digit_str(n))
    } else {
        proof {
            assert(n / 10 < n) by (nonlinear_arith)
                requires
                    n >= 10,
            ;
        }
        let mut s = u64_dec(n / 10);
        s.append(digit_str(n % 10));
        s
    }
}

/// The numbered lines of the watch listing, from entry `k` on.
pub open spec fn watch_lines(ws: Seq<Seq<char>>, k: int) -> Seq<char>
    decreases ws.len() - k when 0 <= k <= ws.len()
{
    if k >= ws.len() {
        Seq::empty()
    } else {
        "\n"@ + dec_str((k + 1) as nat) + ". "@ + ws[k] + watch_lines(ws, k + 1)
    }
}

/// The acknowledgement listing every watched wallet, numbered from 1.
pub open spec fn watch_text(ws: Seq<Seq<char>>) -> Seq<char> {
    "Wallets to watch:\n"@ + watch_lines(ws, 0)
}

/// Renders the numbered listing of the wallets now being watched.
pub fn build_watch_message(ws: &Vec<String>) -> (r: String)
    ensures
        r@ == watch_text(ws.deep_view()),
{
    let mut s = String::from_str("Wallets to watch:\n");
    let mut i: usize = 0;
    while i < ws.len()
        invariant
            i <= ws.len(),
            s@ + watch_lines(ws.deep_view(), i as int) =~= watch_text(ws.deep_view()),
        decreases ws.len() - i,
    {
        let ghost dv = ws.deep_view();
        let ghost before = s@;
        s.append("\n");
        let num = u64_dec((i + 1) as u64);
        s.append(num.as_str());
        s.append(". ");
        s.append(ws[i].as_str());
        proof {
            assert(dv[i as int] == ws@[i as int]@);
            assert(s@ =~= before + ("\n"@ + dec_str((i + 1) as nat) + ". "@ + dv[i as int]));
            assert(s@ + watch_lines(dv, i + 1 as int) =~= before + watch_lines(dv, i as int));
        }
        i += 1;
    }
    proof {
        assert(s@ + watch_lines(ws.deep_view(), ws.len() as int) =~= s@);
    }
    s
}

} // verus!
