//! Where a client connects: straight to the game server, or through the
//! Facepunch companion proxy.
use vstd::prelude::*;
use vstd::string::StringExecFns;

verus! {

/// The character of the decimal digit `d`.
pub open spec fn digit_char(d: nat) -> char {
    if d == 0 {
        '0'
    } else if d == 1 {
        '1'
    } else if d == 2 {
        '2'
    } else if d == 3 {
        '3'
    } else if d == 4 {
        '4'
    } else if d == 5 {
        '5'
    } else if d == 6 {
        '6'
    } else if d == 7 {
        '7'
    } else if d == 8 {
        '8'
    } else {
        '9'
    }
}

/// The decimal digits of `n`, most significant first, without leading
/// zeros.
pub open spec fn decimal(n: nat) -> Seq<char>
    decreases n,
{
    if n < 10 {
        seq![digit_char(n)]
    } else {
        decimal(n / 10).push(digit_char(n % 10))
    }
}

/// The decimal form of `n`, with a leading `-` when it is negative.
pub open spec fn signed_decimal(n: int) -> Seq<char> {
    if n < 0 {
        seq!['-'] + decimal((-n) as nat)
    } else {
        decimal(n as nat)
    }
}

/// The address of a direct connection: `ws://{server}:{port}`.
pub open spec fn direct_address(server: Seq<char>, port: u16) -> Seq<char> {
    "ws://"@ + server + ":"@ + decimal(port as nat)
}

/// The address of a connection through the proxy:
/// `wss://companion-rust.facepunch.com/game/{server}/{port}?v={version}`.
pub open spec fn proxy_address(server: Seq<char>, port: u16, version: i64) -> Seq<char> {
    "wss://companion-rust.facepunch.com/game/"@ + server + "/"@ + decimal(port as nat) + "?v="@
        + signed_decimal(version as int)
}

/// The one-character string of the digit `d`, which is below 10.
fn digit(d: u64) -> (c: &'static str)
    requires
        d < 10,
    ensures
        c@ == seq![digit_char(d as nat)],
{
    proof {
        reveal_strlit("0");
        reveal_strlit("1");
        reveal_strlit("2");
        reveal_strlit("3");
        reveal_strlit("4");
        reveal_strlit("5");
        reveal_strlit("6");
        reveal_strlit("7");
        reveal_strlit("8");
        reveal_strlit("9");
    }
    match d {
        0 => "0",
        1 => "1",
        2 => "2",
        3 => "3",
        4 => "4",
        5 => "5",
        6 => "6",
        7 => "7",
        8 => "8",
        _ => "9",
    }
}

/// Appends the decimal digits of `n` to `s`.
fn push_decimal(s: &mut String, n: u64)
    ensures
        final(s)@ == old(s)@ + decimal(n as nat),
    decreases n,
{
    if n >= 10 {
        push_decimal(s, n / 10);
    }
    s.append(digit(n % 10));
    proof {
        if n >= 10 {
            assert(old(s)@ + decimal(n as nat) =~= (old(s)@ + decimal((n / 10) as nat)).push(
                digit_char((n % 10) as nat),
            ));
        } else {
            assert(old(s)@ + decimal(n as nat) =~= old(s)@.push(digit_char(n as nat)));
        }
    }
}

/// Appends the decimal form of `n` to `s`, with a leading `-` when it is
/// negative.
fn push_signed_decimal(s: &mut String, n: i64)
    ensures
        final(s)@ == old(s)@ + signed_decimal(n as int),
{
    if n < 0 {
        s.append("-");
        proof {
            reveal_strlit("-");
        }
        let magnitude: u64 = if n == i64::MIN {
            9_223_372_036_854_775_808u64
        } else {
            (-n) as u64
        };
        push_decimal(s, magnitude);
        proof {
            assert(old(s)@ + signed_decimal(n as int) =~= old(s)@ + "-"@ + decimal(
                magnitude as nat,
            ));
        }
    } else {
        push_decimal(s, n as u64);
    }
}

/// The server a client connects to, and how.
#[derive(Clone, Debug, PartialEq, Eq)]
pub struct ConnectionTarget {
    pub server: String,
    pub port: u16,
    pub use_facepunch_proxy: bool,
}

impl ConnectionTarget {
    /// Whether connecting needs the proxy's version parameter.
    pub fn needs_proxy_version(&self) -> (r: bool)
        ensures
            r == self.use_facepunch_proxy,
    {
        self.use_facepunch_proxy
    }

    /// The WebSocket address to connect to. `proxy_version` is used only for
    /// connections through the proxy.
    pub fn address(&self, proxy_version: i64) -> (r: String)
        ensures
            r@ == (if self.use_facepunch_proxy {
                proxy_address(self.server@, self.port, proxy_version)
            } else {
                direct_address(self.server@, self.port)
            }),
    {
        if self.use_facepunch_proxy {
            let mut s = String::from_str("wss://companion-rust.facepunch.com/game/");
            s.append(self.server.as_str());
            s.append("/");
            push_decimal(&mut s, self.port as u64);
            s.append("?v=");
            push_signed_decimal(&mut s, proxy_version);
            s
        } else {
            let mut s = String::from_str("ws://");
            s.append(self.server.as_str());
            s.append(":");
            push_decimal(&mut s, self.port as u64);
            s
        }
    }

    /// The extra headers of the WebSocket handshake, as (name, value)
    /// pairs: the proxy expects the companion app's origin and user agent;
    /// a direct connection sends none.
    pub fn handshake_headers(&self) -> (r: Vec<(&'static str, &'static str)>)
        ensures
            !self.use_facepunch_proxy ==> r@.len() == 0,
            self.use_facepunch_proxy ==> {
                &&& r@.len() == 2
                &&& r@[0].0@ == "origin"@
                &&& r@[0].1@ == "https://rustplus.facepunch.com"@
                &&& r@[1].0@ == "user-agent"@
                &&& r@[1].1@ == "@facepunch/RustCompanion"@
            },
    {
        let mut headers: Vec<(&'static str, &'static str)> = Vec::new();
        if self.use_facepunch_proxy {
            headers.push(("origin", "https://rustplus.facepunch.com"));
            headers.push(("user-agent", "@facepunch/RustCompanion"));
        }
        headers
    }
}

/// The value of a decimal digit character, or `None` for any other
/// character.
pub open spec fn digit_value(c: char) -> Option<nat> {
    if '0' <= c && c <= '9' {
        Some((c as nat - '0' as nat) as nat)
    } else {
        None
    }
}

/// The number that a string of decimal digits, most significant first,
/// denotes; `None` if some character is not a digit.
pub open spec fn decimal_value(s: Seq<char>) -> Option<nat>
    decreases s.len(),
{
    if s.len() == 0 {
        Some(0)
    } else {
        match (decimal_value(s.drop_last()), digit_value(s.last())) {
            (Some(high), Some(d)) => Some(high * 10 + d),
            _ => None,
        }
    }
}

/// The digit characters stand for their digits.
proof fn lemma_digit_char_value(d: nat)
    requires
        d < 10,
    ensures
        digit_value(digit_char(d)) == Some(d),
{
}

/// The decimal form of `n` consists of digits only, has no leading zero
/// (unless `n` is zero), and reads back as `n`.
pub proof fn lemma_decimal_reads_back(n: nat)
    ensures
        decimal_value(decimal(n)) == Some(n),
        decimal(n).len() >= 1,
        n > 0 ==> decimal(n)[0] != '0',
    decreases n,
{
    if n < 10 {
        lemma_digit_char_value(n);
        let s = decimal(n);
        assert(s.drop_last() =~= Seq::<char>::empty());
        assert(s.last() == digit_char(n));
        assert(decimal_value(s.drop_last()) == Some(0nat));
    } else {
        lemma_decimal_reads_back(n / 10);
        lemma_digit_char_value(n % 10);
        let s = decimal(n);
        assert(s.drop_last() =~= decimal(n / 10));
        assert(s.last() == digit_char(n % 10));
        assert(s[0] == decimal(n / 10)[0]);
        assert((n / 10) * 10 + n % 10 == n) by (nonlinear_arith);
    }
}

} // verus!
