//! Address resolution and command building for the external content
//! fetch: the caller-supplied multiaddress and timeout are replaced by
//! fixed defaults when absent, and the full argument list for the fetch
//! call is assembled in a fixed order.

use vstd::prelude::*;
use vstd::string::StringExecFns;

verus! {

/// Content-store multiaddress used when the caller passes an empty one.
pub const DEFAULT_IPFS_MULTIADDR: &'static str = "/ip4/127.0.0.1/tcp/5001";

/// Fetch timeout in seconds used when the caller passes zero.
pub const DEFAULT_TIMEOUT_SEC: u64 = 1;

/// The character for one decimal or hexadecimal digit value.
pub open spec fn digit_char(d: u8) -> char
    recommends
        d < 16,
{
    if d < 10 {
        ((48 + d) as u8) as char
    } else {
        ((87 + d) as u8) as char
    }
}

/// The decimal digit string of `n`, most significant digit first.
pub open spec fn dec_chars(n: nat) -> Seq<char>
    decreases n,
{
    if n < 10 {
        seq![digit_char(n as u8)]
    } else {
        dec_chars(n / 10) + seq![digit_char((n % 10) as u8)]
    }
}

/// The digit characters of `ds`, emitted last digit first.
pub open spec fn rev_digit_chars(ds: Seq<u8>) -> Seq<char> {
    Seq::new(ds.len(), |i: int| digit_char(ds[ds.len() - 1 - i]))
}

/// The one-character string for a digit value below sixteen.
pub fn digit_str(d: u8) -> (r: &'static str)
    requires
        d < 16,
    ensures
        r@ == seq![digit_char(d)],
{
    proof {
        reveal_strlit("0");
        reveal_strlit("1");
        reveal_strlit("2");
        reveal_strlit("3");
        reveal_strlit("4");
        reveal_strlit("5");
        reveal_strlit("6");
        reveal_strlit("7");
        reveal_strlit("8");
        reveal_strlit("9");
        reveal_strlit("a");
        reveal_strlit("b");
        reveal_strlit("c");
        reveal_strlit("d");
        reveal_strlit("e");
        reveal_strlit("f");
    }
    match d {
        0 => "0",
        1 => "1",
        2 => "2",
        3 => "3",
        4 => "4",
        5 => "5",
        6 => "6",
        7 => "7",
        8 => "8",
        9 => "9",
        10 => "a",
        11 => "b",
        12 => "c",
        13 => "d",
        14 => "e",
        _ => "f",
    }
}

/// Renders `n` in decimal, most significant digit first.
pub fn u64_dec_string(n: u64) -> (r: String)
    ensures
        r@ == dec_chars(n as nat),
{
    let mut digits: Vec<u8> = Vec::new();
    let mut m: u64 = n;
    while m >= 10
        invariant
            dec_chars(n as nat) == dec_chars(m as nat) + rev_digit_chars(digits@),
            forall|i: int| 0 <= i < digits@.len() ==> digits@[i] < 10,
        decreases m,
    {
        let d: u8 = (m % 10) as u8;
        proof {
            assert(rev_digit_chars(digits@.push(d)) =~= seq![digit_char(d)] + rev_digit_chars(
                digits@,
            ));
            assert(dec_chars(m as nat) == dec_chars((m as nat) / 10) + seq![
                digit_char(((m as nat) % 10) as u8),
            ]);
            assert(dec_chars(m as nat) + rev_digit_chars(digits@) =~= dec_chars((m as nat) / 10)
                + rev_digit_chars(digits@.push(d)));
        }
        digits.push(d);
        m = m / 10;
    }
    let d: u8 = m as u8;
    proof {
        assert(rev_digit_chars(digits@.push(d)) =~= seq![digit_char(d)] + rev_digit_chars(
            digits@,
        ));
        assert(dec_chars(n as nat) =~= rev_digit_chars(digits@.push(d)));
    }
    digits.push(d);
    let mut s = String::new();
    let mut i: usize = digits.len();
    while i > 0
        invariant
            i <= digits@.len(),
            forall|k: int| 0 <= k < digits@.len() ==> digits@[k] < 16,
            dec_chars(n as nat) == rev_digit_chars(digits@),
            s@ == rev_digit_chars(digits@).take(digits@.len() - i),
        decreases i,
    {
        let d = digits[i - 1];
        s.append(digit_str(d));
        proof {
            assert(s@ =~= rev_digit_chars(digits@).take(digits@.len() - (i - 1)));
        }
        i = i - 1;
    }
    proof {
        assert(s@ =~= rev_digit_chars(digits@));
    }
    s
}

/// The timeout argument: the decimal seconds with an `s` suffix.
pub open spec fn timeout_chars(t: u64) -> Seq<char> {
    dec_chars(t as nat) + "s"@
}

/// Renders the timeout argument, e.g. `90s` for ninety seconds.
pub fn get_timeout_string(timeout: u64) -> (r: String)
    ensures
        r@ == timeout_chars(timeout),
{
    u64_dec_string(timeout).concat("s")
}

/// The effective multiaddress: the caller's, or the default when empty.
pub open spec fn resolved_multiaddr(a: Seq<char>) -> Seq<char> {
    if a.len() == 0 {
        DEFAULT_IPFS_MULTIADDR@
    } else {
        a
    }
}

/// The effective timeout: the caller's, or the default when zero.
pub open spec fn resolved_timeout(t: u64) -> u64 {
    if t == 0 {
        DEFAULT_TIMEOUT_SEC
    } else {
        t
    }
}

/// Picks the effective content-store multiaddress.
pub fn resolve_multiaddr(api_multiaddr: String) -> (r: String)
    ensures
        r@ == resolved_multiaddr(api_multiaddr@),
{
    if api_multiaddr.as_str().is_empty() {
        String::from_str(DEFAULT_IPFS_MULTIADDR)
    } else {
        api_multiaddr
    }
}

/// Picks the effective fetch timeout.
pub fn resolve_timeout(timeout_sec: u64) -> (r: u64)
    ensures
        r == resolved_timeout(timeout_sec),
{
    if timeout_sec == 0 {
        DEFAULT_TIMEOUT_SEC
    } else {
        timeout_sec
    }
}

/// Appends the timeout and api arguments, in that fixed order, to a
/// base command.
pub fn make_cmd_args(args: Vec<String>, api_multiaddr: String, timeout_sec: u64) -> (r: Vec<
    String,
>)
    ensures
        r@.len() == args@.len() + 4,
        forall|i: int| 0 <= i < args@.len() ==> r@[i] == args@[i],
        r@[args@.len() as int]@ == "--timeout"@,
        r@[args@.len() as int + 1]@ == timeout_chars(timeout_sec),
        r@[args@.len() as int + 2]@ == "--api"@,
        r@[args@.len() as int + 3] == api_multiaddr,
{
    let mut v = args;
    v.push(String::from_str("--timeout"));
    v.push(get_timeout_string(timeout_sec));
    v.push(String::from_str("--api"));
    v.push(api_multiaddr);
    v
}

/// The full argument list of one content fetch: the `dag get` base
/// command for the identifier, then the resolved timeout and address.
pub open spec fn fetch_command_model(cid: Seq<char>, addr: Seq<char>, t: u64) -> Seq<Seq<char>> {
    seq![
        "dag"@,
        "get"@,
        cid,
        "--timeout"@,
        timeout_chars(resolved_timeout(t)),
        "--api"@,
        resolved_multiaddr(addr),
    ]
}

/// Builds the full fetch command for one content identifier.
pub fn fetch_command(cid: String, api_multiaddr: String, timeout_sec: u64) -> (r: Vec<String>)
    ensures
        r.deep_view() == fetch_command_model(cid@, api_multiaddr@, timeout_sec),
{
    let ghost cid_view = cid@;
    let address = resolve_multiaddr(api_multiaddr);
    let t = resolve_timeout(timeout_sec);
    let mut args: Vec<String> = Vec::new();
    args.push(String::from_str("dag"));
    args.push(String::from_str("get"));
    args.push(cid);
    let r = make_cmd_args(args, address, t);
    proof {
        assert(r.deep_view() =~= fetch_command_model(cid_view, api_multiaddr@, timeout_sec));
    }
    r
}

} // verus!
