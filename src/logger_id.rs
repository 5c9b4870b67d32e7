use vstd::prelude::*;

verus! {

/// The four characters at `i` spell `-enc`, the marker before the short
/// enclave identifier.
pub open spec fn spec_marker_at(s: Seq<char>, i: int) -> bool {
    &&& 0 <= i && i + 4 <= s.len()
    &&& s[i] == '-' && s[i + 1] == 'e' && s[i + 2] == 'n' && s[i + 3] == 'c'
}

/// What follows the last marker that ends at or before `k`; all of `s`
/// where there is none.
pub open spec fn spec_token_before(s: Seq<char>, k: int) -> Seq<char>
    decreases k,
{
    if k < 4 {
        s
    } else if spec_marker_at(s, k - 4) {
        s.subrange(k, s.len() as int)
    } else {
        spec_token_before(s, k - 1)
    }
}

/// The short identifier in a full enclave identifier `i-(...)-enc<id>`: what
/// follows the last `-enc`, or the whole identifier where it holds none.
pub open spec fn spec_logger_token(s: Seq<char>) -> Seq<char> {
    spec_token_before(s, s.len() as int)
}

/// The decimal digit of `d`.
pub open spec fn spec_digit(d: nat) -> char {
    (d + 48) as char
}

/// `n` in decimal, without sign or leading zeros.
pub open spec fn spec_decimal(n: nat) -> Seq<char>
    decreases n,
{
    if n < 10 {
        seq![spec_digit(n)]
    } else {
        spec_decimal(n / 10).push(spec_digit(n % 10))
    }
}

/// The logger identity of the enclave with the given full identifier, in
/// the process `pid`: `enc-<id>:<pid>`.
pub open spec fn spec_logger_id(enclave_id: Seq<char>, pid: u32) -> Seq<char> {
    seq!['e', 'n', 'c', '-'] + spec_logger_token(enclave_id) + seq![':'] + spec_decimal(
        pid as nat,
    )
}

/// The logger identity of the process `pid` before any enclave is known:
/// `enc-xxxxxxx:<pid>`.
pub open spec fn spec_placeholder_logger_id(pid: u32) -> Seq<char> {
    seq!['e', 'n', 'c', '-', 'x', 'x', 'x', 'x', 'x', 'x', 'x', ':'] + spec_decimal(pid as nat)
}

/// Relies on `u32::to_string`: `Display` writes an unsigned integer in decimal.
#[verifier::external_body]
fn decimal(n: u32) -> (r: String)
    ensures
        r@ == spec_decimal(n as nat),
{
    n.to_string()
}

/// Where the short identifier begins in `s`: just past its last `-enc`, or at 0.
fn logger_token_start(s: &str) -> (r: usize)
    ensures
        r <= s@.len(),
        s@.subrange(r as int, s@.len() as int) == spec_logger_token(s@),
{
    let len = s.unicode_len();
    let mut k: usize = len;
    loop
        invariant
            len == s@.len(),
            k <= len,
            spec_token_before(s@, k as int) == spec_logger_token(s@),
        decreases k,
    {
        if k < 4 {
            assert(s@.subrange(0, s@.len() as int) =~= s@);
            return 0;
        }
        if s.get_char(k - 4) == '-' && s.get_char(k - 3) == 'e' && s.get_char(k - 2) == 'n'
            && s.get_char(k - 1) == 'c' {
            return k;
        }
        k = k - 1;
    }
}

/// The logger identity `enc-<id>:<pid>` of the enclave with the full
/// identifier `enclave_id`, where `<id>` is what follows its last `-enc`.
pub fn get_logger_id(enclave_id: &str, pid: u32) -> (r: String)
    ensures
        r@ == spec_logger_id(enclave_id@, pid),
{
    let start = logger_token_start(enclave_id);
    let token = enclave_id.substring_char(start, enclave_id.unicode_len());
    let digits = decimal(pid);
    proof {
        reveal_strlit("enc-");
        reveal_strlit(":");
    }
    let r = String::from_str("enc-").concat(token).concat(":").concat(digits.as_str());
    assert(r@ =~= spec_logger_id(enclave_id@, pid));
    r
}

/// The logger identity `enc-xxxxxxx:<pid>` used until an enclave is known.
pub fn placeholder_logger_id(pid: u32) -> (r: String)
    ensures
        r@ == spec_placeholder_logger_id(pid),
{
    let digits = decimal(pid);
    proof {
        reveal_strlit("enc-xxxxxxx:");
    }
    let r = String::from_str("enc-xxxxxxx:").concat(digits.as_str());
    assert(r@ =~= spec_placeholder_logger_id(pid));
    r
}

} // verus!
