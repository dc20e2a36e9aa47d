//! The gateway's startup configuration: listen host, listen port, and
//! the RPC endpoint URL.
//!
//! The configuration is built once from the raw environment values and
//! then only read. A missing RPC URL is tolerated here and reported as
//! `MissingConfiguration` when a request needs it; malformed port text
//! is the one value that refuses to build.

use crate::decimal::{dec_val, digit_val};
use vstd::prelude::*;
use vstd::string::StrSliceExecFns;

verus! {

/// Whether `c` is a decimal digit.
pub open spec fn is_dec_digit(c: char) -> bool {
    48 <= c as u32 && c as u32 <= 57
}

/// Whether `s` is text that denotes a listen port: at least one digit,
/// nothing but digits, and a value that fits in sixteen bits.
pub open spec fn is_valid_port_text(s: Seq<char>) -> bool {
    &&& s.len() > 0
    &&& forall|i: int| 0 <= i < s.len() ==> is_dec_digit(#[trigger] s[i])
    &&& dec_val(s) <= 65535
}

/// The immutable configuration the gateway runs with.
pub struct Config {
    /// The JSON-RPC endpoint URL, if one was configured.
    pub rpc_url: Option<String>,
    /// The host to listen on.
    pub host: String,
    /// The port to listen on.
    pub port: u16,
}

/// The value of a digit prefix never exceeds the value of the whole
/// digit string.
proof fn lemma_dec_val_prefix_le(s: Seq<char>, i: int)
    requires
        0 <= i <= s.len(),
    ensures
        dec_val(s.subrange(0, i)) <= dec_val(s),
    decreases s.len() - i,
{
    if i == s.len() {
        assert(s.subrange(0, i) =~= s);
    } else {
        lemma_dec_val_prefix_le(s, i + 1);
        assert(s.subrange(0, i + 1).drop_last() =~= s.subrange(0, i));
        assert(dec_val(s.subrange(0, i + 1)) == dec_val(s.subrange(0, i)) * 10 + digit_val(
            s.subrange(0, i + 1).last(),
        ));
    }
}

/// Parses listen-port text.
///
/// Returns `Some` exactly when the text is all digits, nonempty, and
/// denotes a value of at most 65535; the value returned is the number
/// the digits denote.
pub fn parse_port(s: &str) -> (r: Option<u16>)
    ensures
        r is Some <==> is_valid_port_text(s@),
        r matches Some(p) ==> p == dec_val(s@),
{
    let n: usize = s.unicode_len();
    if n == 0 {
        return None;
    }
    let mut acc: u32 = 0;
    let mut i: usize = 0;
    proof {
        assert(s@.subrange(0, 0) =~= Seq::<char>::empty());
    }
    while i < n
        invariant
            n == s@.len(),
            i <= n,
            acc == dec_val(s@.subrange(0, i as int)),
            acc <= 65535,
            forall|k: int| 0 <= k < i ==> is_dec_digit(#[trigger] s@[k]),
        decreases n - i,
    {
        let c = s.get_char(i);
        let u = c as u32;
        if !(48 <= u && u <= 57) {
            return None;
        }
        proof {
            assert(s@.subrange(0, i + 1).drop_last() =~= s@.subrange(0, i as int));
            assert(s@.subrange(0, i + 1).last() == s@[i as int]);
        }
        acc = acc * 10 + (u - 48);
        if acc > 65535 {
            proof {
                lemma_dec_val_prefix_le(s@, i + 1);
            }
            return None;
        }
        i = i + 1;
    }
    proof {
        assert(s@.subrange(0, n as int) =~= s@);
    }
    Some(acc as u16)
}

impl Config {
    /// Builds the configuration from the raw environment values,
    /// applying the defaults: host 127.0.0.1 and port 3000. Returns
    /// `None` exactly when port text was supplied but is not a valid
    /// sixteen-bit decimal number; the process then refuses to start.
    pub fn build(rpc_url: Option<String>, host: Option<String>, port_text: Option<String>) -> (r:
        Option<Config>)
        ensures
            r is Some <==> (port_text matches Some(t) ==> is_valid_port_text(t@)),
            r matches Some(c) ==> {
                &&& c.rpc_url == rpc_url
                &&& (match host {
                    Some(h) => c.host == h,
                    None => c.host@ == "127.0.0.1"@,
                })
                &&& (match port_text {
                    Some(t) => c.port == dec_val(t@),
                    None => c.port == 3000,
                })
            },
    {
        let port: u16 = match &port_text {
            Some(t) => {
                match parse_port(t.as_str()) {
                    Some(p) => p,
                    None => {
                        return None;
                    },
                }
            },
            None => 3000,
        };
        let host: String = match host {
            Some(h) => h,
            None => "127.0.0.1".to_owned(),
        };
        Some(Config { rpc_url, host, port })
    }

    /// Whether an RPC endpoint URL is configured.
    pub fn has_rpc_url(&self) -> (r: bool)
        ensures
            r <==> self.rpc_url is Some,
    {
        match &self.rpc_url {
            Some(_) => true,
            None => false,
        }
    }
}

} // verus!
