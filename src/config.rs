//! Configuration of the application: the environment it runs in and the
//! address it binds to.
use vstd::prelude::*;

verus! {

/// The application runs in one of three environments. Some settings differ
/// between them (the test environment isolates each connection's writes).
#[derive(Debug, Clone, Copy, PartialEq, Eq, Structural)]
pub enum Environment {
    /// Automated testing
    Test,
    /// Local development
    Development,
    /// Production or staging
    Production,
}

/// The characters of Unicode's `White_Space` property, which `str::trim`
/// removes at both ends of a string.
pub open spec fn is_white_space(c: char) -> bool {
    let u = c as u32;
    (0x09 <= u && u <= 0x0d) || u == 0x20 || u == 0x85 || u == 0xa0 || u == 0x1680 || (0x2000
        <= u && u <= 0x200a) || u == 0x2028 || u == 0x2029 || u == 0x202f || u == 0x205f || u
        == 0x3000
}

/// ASCII upper-case letters become lower case; every other character stays.
pub open spec fn ascii_lower(c: char) -> char {
    if 'A' <= c && c <= 'Z' {
        ((c as u32) + 32) as char
    } else {
        c
    }
}

pub open spec fn lowered(s: Seq<char>) -> Seq<char> {
    s.map_values(|c: char| ascii_lower(c))
}

pub open spec fn trim_start(s: Seq<char>) -> Seq<char>
    decreases s.len(),
{
    if s.len() > 0 && is_white_space(s[0]) {
        trim_start(s.drop_first())
    } else {
        s
    }
}

pub open spec fn trim_end(s: Seq<char>) -> Seq<char>
    decreases s.len(),
{
    if s.len() > 0 && is_white_space(s.last()) {
        trim_end(s.drop_last())
    } else {
        s
    }
}

/// `s` without white space at either end.
pub open spec fn trimmed(s: Seq<char>) -> Seq<char> {
    trim_end(trim_start(s))
}

/// The environment that a name denotes, ignoring ASCII case and surrounding
/// white space.
pub open spec fn parse_environment(s: Seq<char>) -> Result<Environment, ()> {
    let name = trimmed(lowered(s));
    if name == "test"@ {
        Ok(Environment::Test)
    } else if name == "development"@ {
        Ok(Environment::Development)
    } else if name == "production"@ {
        Ok(Environment::Production)
    } else {
        Err(())
    }
}

fn is_white_space_char(c: char) -> (r: bool)
    ensures
        r == is_white_space(c),
{
    let u = c as u32;
    (0x09 <= u && u <= 0x0d) || u == 0x20 || u == 0x85 || u == 0xa0 || u == 0x1680 || (0x2000
        <= u && u <= 0x200a) || u == 0x2028 || u == 0x2029 || u == 0x202f || u == 0x205f || u
        == 0x3000
}

fn lower_ascii(c: char) -> (r: char)
    ensures
        r == ascii_lower(c),
{
    if 'A' <= c && c <= 'Z' {
        ((c as u8) + 32) as char
    } else {
        c
    }
}

/// Whether the characters `from..to` of `s`, lowered, spell `word`.
fn lowered_region_is(s: &str, from: usize, to: usize, word: &str) -> (r: bool)
    requires
        from <= to <= s@.len(),
    ensures
        r == (lowered(s@).subrange(from as int, to as int) == word@),
{
    let ghost region = lowered(s@).subrange(from as int, to as int);
    let m = word.unicode_len();
    if to - from != m {
        assert(region.len() != word@.len());
        return false;
    }
    let mut k: usize = 0;
    while k < m
        invariant
            from <= to <= s@.len(),
            to - from == m,
            m == word@.len(),
            region == lowered(s@).subrange(from as int, to as int),
            0 <= k <= m,
            forall|t: int| 0 <= t < k ==> region[t] == word@[t],
        decreases m - k,
    {
        let c = lower_ascii(s.get_char(from + k));
        if c != word.get_char(k) {
            assert(region[k as int] != word@[k as int]);
            return false;
        }
        k = k + 1;
    }
    assert(region =~= word@);
    true
}

impl Environment {
    /// The lower-case name of the environment, which `from_str` reads back.
    pub fn name(&self) -> (r: &'static str)
        ensures
            parse_environment(r@) == Ok::<Environment, ()>(*self),
    {
        proof {
            reveal_strlit("test");
            reveal_strlit("development");
            reveal_strlit("production");
        }
        let r = match self {
            Environment::Test => "test",
            Environment::Development => "development",
            Environment::Production => "production",
        };
        proof {
            assert(lowered(r@) =~= r@);
            assert(trim_start(r@) == r@);
            assert(trim_end(r@) == r@);
        }
        r
    }

    /// Reads an environment from its name, ignoring ASCII case and
    /// surrounding white space.
    pub fn from_str(s: &str) -> (r: Result<Environment, ()>)
        ensures
            r == parse_environment(s@),
    {
        let ghost low = lowered(s@);
        let n = s.unicode_len();
        assert(low.subrange(0, n as int) =~= low);
        let mut i: usize = 0;
        while i < n
            invariant
                low == lowered(s@),
                n == s@.len(),
                0 <= i <= n,
                trim_start(low) == trim_start(low.subrange(i as int, n as int)),
            ensures
                0 <= i <= n,
                trim_start(low) == trim_start(low.subrange(i as int, n as int)),
                i == n || !is_white_space(low[i as int]),
            decreases n - i,
        {
            if !is_white_space_char(lower_ascii(s.get_char(i))) {
                break;
            }
            assert(low.subrange(i as int, n as int).drop_first() =~= low.subrange(
                i + 1,
                n as int,
            ));
            i = i + 1;
        }
        assert(trim_start(low) == low.subrange(i as int, n as int));
        let mut j: usize = n;
        while j > i
            invariant
                low == lowered(s@),
                n == s@.len(),
                0 <= i <= j <= n,
                trim_start(low) == low.subrange(i as int, n as int),
                trimmed(low) == trim_end(low.subrange(i as int, j as int)),
            ensures
                i <= j <= n,
                trimmed(low) == trim_end(low.subrange(i as int, j as int)),
                j == i || !is_white_space(low[j - 1]),
            decreases j,
        {
            if !is_white_space_char(lower_ascii(s.get_char(j - 1))) {
                break;
            }
            assert(low.subrange(i as int, j as int).drop_last() =~= low.subrange(
                i as int,
                j - 1,
            ));
            j = j - 1;
        }
        assert(trimmed(low) == low.subrange(i as int, j as int));
        if lowered_region_is(s, i, j, "test") {
            Ok(Environment::Test)
        } else if lowered_region_is(s, i, j, "development") {
            Ok(Environment::Development)
        } else if lowered_region_is(s, i, j, "production") {
            Ok(Environment::Production)
        } else {
            Err(())
        }
    }
}

/// Why a set of configuration values was refused.
#[derive(Debug, Clone, Copy, PartialEq, Eq, Structural)]
pub enum ConfigError {
    /// The environment name is none of test, development and production.
    InvalidEnvironment,
    /// The port is not a decimal `i32`.
    InvalidPort,
}

/// The configurable parameters of the application.
#[derive(Debug, Clone)]
pub struct Config {
    /// The environment the application is running in.
    pub env: Environment,
    /// The IP address that the application binds to.
    pub host: String,
    /// The port that the application binds to.
    pub port: i32,
}

/// The character of the decimal digit `d`.
pub open spec fn digit_char(d: nat) -> char {
    ((d + 48) as u32) as char
}

/// The decimal digits of `n`, most significant first, without leading zeros.
pub open spec fn digits_of(n: nat) -> Seq<char>
    decreases n,
{
    if n < 10 {
        seq![digit_char(n)]
    } else {
        digits_of(n / 10).push(digit_char(n % 10))
    }
}

/// `i` written in decimal, with a minus sign when negative.
pub open spec fn decimal(i: int) -> Seq<char> {
    if i < 0 {
        seq!['-'] + digits_of((-i) as nat)
    } else {
        digits_of(i as nat)
    }
}

/// The address `host:port` that a configuration binds to.
pub open spec fn address_of(host: Seq<char>, port: int) -> Seq<char> {
    host + seq![':'] + decimal(port)
}

pub open spec fn is_digit(c: char) -> bool {
    '0' <= c && c <= '9'
}

pub open spec fn digit_value(c: char) -> int {
    (c as u32) as int - 48
}

/// The number that a run of decimal digits spells.
pub open spec fn digits_value(s: Seq<char>) -> int
    decreases s.len(),
{
    if s.len() == 0 {
        0
    } else {
        digits_value(s.drop_last()) * 10 + digit_value(s.last())
    }
}

pub open spec fn all_digits(s: Seq<char>) -> bool {
    forall|i: int| 0 <= i < s.len() ==> is_digit(#[trigger] s[i])
}

/// An `i32` written in decimal: an optional `+` or `-`, then one or more
/// digits, with a value in range.
pub open spec fn parse_i32(s: Seq<char>) -> Option<i32> {
    let signed = s.len() > 0 && (s[0] == '-' || s[0] == '+');
    let body = if signed {
        s.drop_first()
    } else {
        s
    };
    let v = if s.len() > 0 && s[0] == '-' {
        -digits_value(body)
    } else {
        digits_value(body)
    };
    if body.len() > 0 && all_digits(body) && i32::MIN <= v && v <= i32::MAX {
        Some(v as i32)
    } else {
        None
    }
}

proof fn lemma_digits_value_nonnegative(s: Seq<char>)
    requires
        all_digits(s),
    ensures
        digits_value(s) >= 0,
    decreases s.len(),
{
    if s.len() > 0 {
        assert(is_digit(s[s.len() - 1]));
        lemma_digits_value_nonnegative(s.drop_last());
    }
}

/// Appends the decimal digits of `n`.
fn append_digits(out: &mut String, n: u32)
    ensures
        final(out)@ == old(out)@ + digits_of(n as nat),
    decreases n,
{
    if n >= 10 {
        append_digits(out, n / 10);
    }
    let d = (n % 10) as usize;
    let digits = "0123456789";
    proof {
        reveal_strlit("0123456789");
    }
    let one = digits.substring_char(d, d + 1);
    assert(one@ =~= seq![digit_char(d as nat)]);
    out.append(one);
}

/// Appends `i` in decimal.
fn append_decimal(out: &mut String, i: i32)
    ensures
        final(out)@ == old(out)@ + decimal(i as int),
{
    if i < 0 {
        proof {
            reveal_strlit("-");
        }
        out.append("-");
        let magnitude = (-(i as i64)) as u32;
        append_digits(out, magnitude);
    } else {
        append_digits(out, i as u32);
    }
}

/// Reads an `i32` written in decimal, as `str::parse` does.
fn parse_decimal_i32(s: &str) -> (r: Option<i32>)
    ensures
        r == parse_i32(s@),
{
    let n = s.unicode_len();
    if n == 0 {
        return None;
    }
    let first = s.get_char(0);
    let negative = first == '-';
    let start: usize = if first == '-' || first == '+' {
        1
    } else {
        0
    };
    let ghost body = if start == 1 {
        s@.drop_first()
    } else {
        s@
    };
    assert(body =~= s@.subrange(start as int, n as int));
    if start == n {
        return None;
    }
    // Beyond `cap` the value is out of range whatever its sign.
    let cap: u64 = 2147483649;
    let mut acc: u64 = 0;
    let mut k: usize = start;
    while k < n
        invariant
            n == s@.len(),
            n > 0,
            start <= k <= n,
            (start == 1) == (s@[0] == '-' || s@[0] == '+'),
            body == if start == 1 {
                s@.drop_first()
            } else {
                s@
            },
            body == s@.subrange(start as int, n as int),
            cap == 2147483649,
            all_digits(body.subrange(0, k - start)),
            digits_value(body.subrange(0, k - start)) >= 0,
            acc as int == if digits_value(body.subrange(0, k - start)) < cap {
                digits_value(body.subrange(0, k - start))
            } else {
                cap as int
            },
        decreases n - k,
    {
        let c = s.get_char(k);
        if !('0' <= c && c <= '9') {
            assert(body[k - start] == c);
            assert(!all_digits(body));
            return None;
        }
        let ghost prefix = body.subrange(0, k - start);
        let ghost next = body.subrange(0, k + 1 - start);
        assert(next.drop_last() =~= prefix);
        assert(next.last() == c);
        let d = (c as u32 - 48) as u64;
        let grown = acc * 10 + d;
        acc = if grown < cap {
            grown
        } else {
            cap
        };
        proof {
            assert(digits_value(next) == digits_value(prefix) * 10 + d);
            if digits_value(prefix) >= cap {
                assert(digits_value(prefix) * 10 >= digits_value(prefix)) by (nonlinear_arith)
                    requires
                        digits_value(prefix) >= 0,
                ;
            }
            assert forall|t: int| 0 <= t < next.len() implies is_digit(#[trigger] next[t]) by {
                if t < prefix.len() {
                    assert(next[t] == prefix[t]);
                }
            }
        }
        k = k + 1;
    }
    assert(body.subrange(0, n - start) =~= body);
    let v: i64 = if negative {
        -(acc as i64)
    } else {
        acc as i64
    };
    if -2147483648 <= v && v <= 2147483647 {
        Some(v as i32)
    } else {
        None
    }
}

impl Config {
    /// The address `host:port` that the server binds to.
    pub fn server_address(&self) -> (r: String)
        ensures
            r@ == address_of(self.host@, self.port as int),
    {
        let mut out = self.host.clone();
        proof {
            reveal_strlit(":");
        }
        out.append(":");
        append_decimal(&mut out, self.port);
        out
    }

    /// Builds a configuration from the values that were set, each of which
    /// may be missing: the environment defaults to development, the host to
    /// `0.0.0.0` and the port to `3000`.
    pub fn from_settings(env: Option<String>, host: Option<String>, port: Option<String>) -> (r:
        Result<Config, ConfigError>)
        ensures
            ({
                let env_name = match env {
                    Some(e) => e@,
                    None => "development"@,
                };
                let host_name = match host {
                    Some(h) => h@,
                    None => "0.0.0.0"@,
                };
                let port_text = match port {
                    Some(p) => p@,
                    None => "3000"@,
                };
                match r {
                    Ok(c) => parse_environment(env_name) == Ok::<Environment, ()>(c.env)
                        && c.host@ == host_name && parse_i32(port_text) == Some(c.port),
                    Err(ConfigError::InvalidEnvironment) => parse_environment(env_name) is Err,
                    Err(ConfigError::InvalidPort) => parse_environment(env_name) is Ok
                        && parse_i32(port_text) is None,
                }
            }),
    {
        let env_value = match env {
            Some(e) => Environment::from_str(e.as_str()),
            None => Environment::from_str("development"),
        };
        let environment = match env_value {
            Ok(e) => e,
            Err(()) => {
                return Err(ConfigError::InvalidEnvironment);
            },
        };
        let port_value = match port {
            Some(p) => parse_decimal_i32(p.as_str()),
            None => parse_decimal_i32("3000"),
        };
        let port_number = match port_value {
            Some(p) => p,
            None => {
                return Err(ConfigError::InvalidPort);
            },
        };
        let host_name = match host {
            Some(h) => h,
            None => String::from_str("0.0.0.0"),
        };
        Ok(Config { env: environment, host: host_name, port: port_number })
    }
}

} // verus!
