//! Library-level runtime queries: version, initialization outcome,
//! hypervisor support and system capabilities.

use vstd::prelude::*;

use crate::boundary::{opt_text, string_or_empty, RawCapabilities};
use crate::error::{
    error_from_cc, is_translation, Error, ForeignError, CC_ERR_HYPERVISOR_UNAVAILABLE, CC_OK,
};
use crate::types::Capabilities;
use crate::version::{GUEST_PROTOCOL, MAJOR, MINOR, PATCH};

verus! {

/// The API version string of this layer: `major.minor.patch`, rendered
/// from the version constants.
pub fn api_version() -> (r: String)
    ensures
        r@ == "0.1.0"@,
{
    let mut out = decimal_string(MAJOR);
    out.append(".");
    let minor = decimal_string(MINOR);
    out.append(minor.as_str());
    out.append(".");
    let patch = decimal_string(PATCH);
    out.append(patch.as_str());
    proof {
        reveal_strlit(".");
        reveal_strlit("0.1.0");
        assert(out@ =~= "0.1.0"@);
    }
    out
}

/// Whether code compiled against the given `major.minor` version can use
/// this layer: the major versions must agree and the requested minor
/// version must not be newer.
pub fn api_version_compatible(major: i32, minor: i32) -> (r: bool)
    ensures
        r == (major == MAJOR && minor <= MINOR),
{
    major == MAJOR && minor <= MINOR
}

/// The guest protocol version this layer speaks.
pub fn guest_protocol_version() -> (r: i32)
    ensures
        r == GUEST_PROTOCOL,
{
    GUEST_PROTOCOL
}

/// The decimal digit character for a value below ten.
pub open spec fn digit_char(d: nat) -> char {
    if d == 0 {
        '0'
    } else if d == 1 {
        '1'
    } else if d == 2 {
        '2'
    } else if d == 3 {
        '3'
    } else if d == 4 {
        '4'
    } else if d == 5 {
        '5'
    } else if d == 6 {
        '6'
    } else if d == 7 {
        '7'
    } else if d == 8 {
        '8'
    } else {
        '9'
    }
}

/// The decimal digits of a natural number, most significant first.
pub open spec fn spec_digits(n: nat) -> Seq<char>
    decreases n,
{
    if n < 10 {
        seq![digit_char(n)]
    } else {
        spec_digits(n / 10).push(digit_char(n % 10))
    }
}

/// The decimal rendering of an integer: a minus sign before the digits
/// of the magnitude when it is negative.
pub open spec fn spec_decimal(i: int) -> Seq<char> {
    if i < 0 {
        seq!['-'] + spec_digits((-i) as nat)
    } else {
        spec_digits(i as nat)
    }
}

/// One decimal digit as text.
fn digit_str(d: u64) -> (r: &'static str)
    requires
        d < 10,
    ensures
        r@ == seq![digit_char(d as nat)],
{
    proof {
        reveal_strlit("0");
        reveal_strlit("1");
        reveal_strlit("2");
        reveal_strlit("3");
        reveal_strlit("4");
        reveal_strlit("5");
        reveal_strlit("6");
        reveal_strlit("7");
        reveal_strlit("8");
        reveal_strlit("9");
    }
    let r = if d == 0 {
        "0"
    } else if d == 1 {
        "1"
    } else if d == 2 {
        "2"
    } else if d == 3 {
        "3"
    } else if d == 4 {
        "4"
    } else if d == 5 {
        "5"
    } else if d == 6 {
        "6"
    } else if d == 7 {
        "7"
    } else if d == 8 {
        "8"
    } else {
        "9"
    };
    proof {
        assert(r@ =~= seq![digit_char(d as nat)]);
    }
    r
}

/// Append the decimal digits of `n` to `out`.
fn push_digits(n: u64, out: &mut String)
    ensures
        final(out)@ == old(out)@ + spec_digits(n as nat),
    decreases n,
{
    if n < 10 {
        out.append(digit_str(n));
    } else {
        push_digits(n / 10, out);
        out.append(digit_str(n % 10));
        proof {
            assert(out@ =~= old(out)@ + spec_digits(n as nat));
        }
    }
}

/// Render an integer in decimal.
pub fn decimal_string(i: i32) -> (r: String)
    ensures
        r@ == spec_decimal(i as int),
{
    let mut out = String::new();
    if i < 0 {
        out.append("-");
        let magnitude = (-(i as i64)) as u64;
        push_digits(magnitude, &mut out);
        proof {
            reveal_strlit("-");
            assert(out@ =~= spec_decimal(i as int));
        }
    } else {
        push_digits(i as u64, &mut out);
    }
    out
}

/// Settle the outcome of the boundary's initialization, which answers
/// with a bare status code and no record. A failure is unclassified,
/// with the offending code preserved in the message.
pub fn finish_init(code: i32) -> (r: Result<(), Error>)
    ensures
        code == CC_OK <==> r is Ok,
        code != CC_OK ==> (r matches Err(e) && e matches Error::Unknown(m) && m@
            == "init failed with code "@ + spec_decimal(code as int)),
{
    if code == CC_OK {
        Ok(())
    } else {
        let mut m = "init failed with code ".to_owned();
        let rendered = decimal_string(code);
        m.append(rendered.as_str());
        Err(Error::Unknown(m))
    }
}

/// Settle the outcome of the hypervisor-support probe: success means
/// support, the dedicated status code means no support (and the record
/// is released without raising), anything else is a real error.
pub fn finish_supports_hypervisor(code: i32, rec: ForeignError) -> (r: Result<bool, Error>)
    ensures
        code == CC_OK ==> (r matches Ok(b) && b == true),
        code == CC_ERR_HYPERVISOR_UNAVAILABLE ==> (r matches Ok(b) && b == false),
        code != CC_OK && code != CC_ERR_HYPERVISOR_UNAVAILABLE ==> (r matches Err(e)
            && is_translation(rec, e)),
{
    if code == CC_OK {
        Ok(true)
    } else if code == CC_ERR_HYPERVISOR_UNAVAILABLE {
        Ok(false)
    } else {
        Err(error_from_cc(rec))
    }
}

/// Turn the boundary's reply to a capabilities query into a host record;
/// a null architecture string counts as empty.
pub fn finish_query_capabilities(rec: ForeignError, caps: RawCapabilities) -> (r: Result<
    Capabilities,
    Error,
>)
    ensures
        rec.code == CC_OK ==> (r matches Ok(c) && c.hypervisor_available
            == caps.hypervisor_available && c.max_memory_mb == caps.max_memory_mb && c.max_cpus
            == caps.max_cpus && c.architecture@ == opt_text(caps.architecture)),
        rec.code != CC_OK ==> (r matches Err(e) && is_translation(rec, e)),
{
    let code = rec.code;
    if code != CC_OK {
        return Err(error_from_cc(rec));
    }
    Ok(
        Capabilities {
            hypervisor_available: caps.hypervisor_available,
            max_memory_mb: caps.max_memory_mb,
            max_cpus: caps.max_cpus,
            architecture: string_or_empty(caps.architecture),
        },
    )
}

} // verus!
