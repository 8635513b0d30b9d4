//! Startup configuration: the values the process needs before any
//! pipeline starts, and their validation. Reading the environment is
//! outside this crate; the rules for accepting or rejecting what was
//! read are here.

use vstd::prelude::*;

use crate::events::Address20;
use vstd::string::*;

verus! {

/// The value of a hexadecimal digit character, or sixteen for any
/// other character.
pub open spec fn hex_val(c: char) -> int {
    let u = c as u32;
    if 48 <= u <= 57 {
        u - 48
    } else if 97 <= u <= 102 {
        u - 87
    } else if 65 <= u <= 70 {
        u - 55
    } else {
        16
    }
}

/// Whether a character is a hexadecimal digit, of either case.
pub open spec fn is_hex_digit(c: char) -> bool {
    hex_val(c) < 16
}

/// An address text with its optional `0x` prefix removed.
pub open spec fn spec_addr_digits(s: Seq<char>) -> Seq<char> {
    if s.len() >= 2 && s[0] == '0' && s[1] == 'x' {
        s.skip(2)
    } else {
        s
    }
}

/// Whether a text is a fixed-width address: an optional `0x` prefix
/// and then exactly forty hexadecimal digits.
pub open spec fn spec_addr_ok(s: Seq<char>) -> bool {
    let d = spec_addr_digits(s);
    d.len() == 40 && (forall|i: int| 0 <= i < 40 ==> is_hex_digit(#[trigger] d[i]))
}

/// The twenty bytes an address text denotes.
pub open spec fn spec_addr_bytes(s: Seq<char>) -> Seq<u8> {
    let d = spec_addr_digits(s);
    Seq::new(20, |i: int| (16 * hex_val(d[2 * i]) + hex_val(d[2 * i + 1])) as u8)
}

/// The value of a hexadecimal digit character, or sixteen for any
/// other character.
pub fn hex_char_val(c: char) -> (v: u8)
    ensures
        v == hex_val(c),
{
    let u = c as u32;
    if 48 <= u && u <= 57 {
        (u - 48) as u8
    } else if 97 <= u && u <= 102 {
        (u - 87) as u8
    } else if 65 <= u && u <= 70 {
        (u - 55) as u8
    } else {
        16
    }
}

/// Parses a fixed-width address: an optional `0x` prefix, then exactly
/// forty hexadecimal digits of either case. Returns the twenty bytes,
/// or nothing exactly when the text is not such an address.
pub fn parse_address(s: &str) -> (r: Option<Address20>)
    ensures
        r is Some <==> spec_addr_ok(s@),
        r matches Some(a) ==> a.wf() && a.bytes@ == spec_addr_bytes(s@),
{
    let len = s.unicode_len();
    let has_prefix = len >= 2 && s.get_char(0) == '0' && s.get_char(1) == 'x';
    let start: usize = if has_prefix {
        2
    } else {
        0
    };
    let ghost d = spec_addr_digits(s@);
    proof {
        assert(d.len() == len - start);
        assert(forall|j: int| 0 <= j < d.len() ==> d[j] == s@[start + j]);
    }
    if len < start || len - start != 40 {
        return None;
    }
    let mut bytes: Vec<u8> = Vec::new();
    let mut i: usize = 0;
    while i < 20
        invariant
            s@.len() == len,
            start == 0 || start == 2,
            start + 40 == len,
            d == spec_addr_digits(s@),
            d.len() == 40,
            forall|j: int| 0 <= j < d.len() ==> d[j] == s@[start + j],
            i <= 20,
            bytes@.len() == i,
            forall|j: int| 0 <= j < 2 * i ==> is_hex_digit(#[trigger] d[j]),
            forall|j: int|
                0 <= j < i ==> #[trigger] bytes@[j] == 16 * hex_val(d[2 * j]) + hex_val(
                    d[2 * j + 1],
                ),
        decreases 20 - i,
    {
        let c1 = s.get_char(start + 2 * i);
        let c2 = s.get_char(start + 2 * i + 1);
        let v1 = hex_char_val(c1);
        let v2 = hex_char_val(c2);
        if v1 >= 16 || v2 >= 16 {
            proof {
                assert(!is_hex_digit(d[2 * i]) || !is_hex_digit(d[2 * i + 1]));
            }
            return None;
        }
        bytes.push(16 * v1 + v2);
        i = i + 1;
    }
    proof {
        assert(bytes@ =~= spec_addr_bytes(s@));
    }
    Some(Address20::new(bytes))
}

/// The shared, read-only configuration the dispatcher builds once.
#[derive(Debug)]
pub struct RelayConfig {
    pub rpc_url: String,
    pub contract_addr: Address20,
    pub api_base_url: String,
}

/// Why startup configuration was rejected. Each failure is fatal: the
/// process aborts before any pipeline starts.
#[derive(Clone, Copy, PartialEq, Eq, Structural, Debug)]
pub enum ConfigError {
    MissingRpcUrl,
    MissingContractAddr,
    InvalidContractAddr,
    MissingApiBaseUrl,
}

/// Validates the startup configuration, in the order the process reads
/// it: the chain endpoint, then the contract address (which must be a
/// fixed-width address), then the downstream service's base URL.
pub fn build_config(
    rpc_url: Option<String>,
    contract_addr: Option<String>,
    api_base_url: Option<String>,
) -> (r: Result<RelayConfig, ConfigError>)
    ensures
        r is Ok <==> (rpc_url is Some && contract_addr is Some && spec_addr_ok(
            contract_addr.unwrap()@,
        ) && api_base_url is Some),
        r == Err::<RelayConfig, ConfigError>(ConfigError::MissingRpcUrl) <==> rpc_url is None,
        r == Err::<RelayConfig, ConfigError>(ConfigError::MissingContractAddr) <==> (rpc_url
            is Some && contract_addr is None),
        r == Err::<RelayConfig, ConfigError>(ConfigError::InvalidContractAddr) <==> (rpc_url
            is Some && contract_addr is Some && !spec_addr_ok(contract_addr.unwrap()@)),
        r == Err::<RelayConfig, ConfigError>(ConfigError::MissingApiBaseUrl) <==> (rpc_url is Some
            && contract_addr is Some && spec_addr_ok(contract_addr.unwrap()@) && api_base_url
            is None),
        r matches Ok(cfg) ==> cfg.rpc_url@ == rpc_url.unwrap()@ && cfg.contract_addr.wf()
            && cfg.contract_addr.bytes@ == spec_addr_bytes(contract_addr.unwrap()@)
            && cfg.api_base_url@ == api_base_url.unwrap()@,
{
    let rpc_url = match rpc_url {
        Some(u) => u,
        None => {
            return Err(ConfigError::MissingRpcUrl);
        },
    };
    let contract_text = match contract_addr {
        Some(t) => t,
        None => {
            return Err(ConfigError::MissingContractAddr);
        },
    };
    let contract_addr = match parse_address(contract_text.as_str()) {
        Some(a) => a,
        None => {
            return Err(ConfigError::InvalidContractAddr);
        },
    };
    let api_base_url = match api_base_url {
        Some(u) => u,
        None => {
            return Err(ConfigError::MissingApiBaseUrl);
        },
    };
    Ok(RelayConfig { rpc_url, contract_addr, api_base_url })
}

} // verus!
