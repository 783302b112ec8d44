//! Human-readable text about the backend.
use vstd::prelude::*;
use crate::backend::Api;

verus! {

/// The decimal digit for `d`, which is below ten.
pub open spec fn digit_char(d: nat) -> char {
    if d == 0 { '0' } else if d == 1 { '1' } else if d == 2 { '2' } else if d == 3 { '3' }
    else if d == 4 { '4' } else if d == 5 { '5' } else if d == 6 { '6' } else if d == 7 { '7' }
    else if d == 8 { '8' } else { '9' }
}

/// The decimal notation of `n`, without leading zeros.
pub open spec fn decimal(n: nat) -> Seq<char>
    decreases n,
{
    if n < 10 {
        seq![digit_char(n)]
    } else {
        decimal(n / 10) + seq![digit_char(n % 10)]
    }
}

/// The number that a string of decimal digits denotes, reading each character
/// by its code: `'0'` stands for 0, `'1'` for 1, and so on.
pub open spec fn digits_value(s: Seq<char>) -> int
    decreases s.len(),
{
    if s.len() == 0 {
        0
    } else {
        10 * digits_value(s.drop_last()) + (s.last() as int - '0' as int)
    }
}

/// Each decimal digit is the character whose code is that of `'0'` plus the digit.
pub proof fn lemma_digit_char_code(d: nat)
    requires
        d < 10,
    ensures
        digit_char(d) as int == '0' as int + d,
        '0' <= digit_char(d) <= '9',
{
}

/// The decimal notation of a number denotes that number, and is made of digits only.
pub proof fn lemma_decimal_denotes(n: nat)
    ensures
        digits_value(decimal(n)) == n,
        decimal(n).len() >= 1,
        forall|i: int| 0 <= i < decimal(n).len() ==> '0' <= #[trigger] decimal(n)[i] <= '9',
    decreases n,
{
    if n < 10 {
        lemma_digit_char_code(n);
        let s = decimal(n);
        assert(s.drop_last() =~= Seq::<char>::empty());
        assert(digits_value(Seq::<char>::empty()) == 0);
        assert(digits_value(s) == 10 * digits_value(s.drop_last()) + (s.last() as int - '0' as int));
    } else {
        lemma_decimal_denotes(n / 10);
        lemma_digit_char_code(n % 10);
        let s = decimal(n);
        assert(s.drop_last() =~= decimal(n / 10));
        assert(s.last() == digit_char(n % 10));
        assert(digits_value(s) == 10 * digits_value(s.drop_last()) + (s.last() as int - '0' as int));
        assert(10 * (n / 10) + n % 10 == n) by (nonlinear_arith);
        assert forall|i: int| 0 <= i < s.len() implies '0' <= #[trigger] s[i] <= '9' by {
            if i < s.len() - 1 {
                assert(s[i] == decimal(n / 10)[i]);
            }
        }
    }
}

/// The name of an API as its `Debug` text writes it.
pub open spec fn api_name(api: Api) -> Seq<char> {
    match api {
        Api::OpenGl => "OpenGl"@,
        Api::OpenGlEs => "OpenGlEs"@,
        Api::WebGl => "WebGl"@,
    }
}

/// The one-character string of the decimal digit `d`.
fn digit_str(d: u32) -> (s: &'static str)
    requires
        d < 10,
    ensures
        s@ == seq![digit_char(d as nat)],
{
    proof {
        reveal_strlit("0");
        reveal_strlit("1");
        reveal_strlit("2");
        reveal_strlit("3");
        reveal_strlit("4");
        reveal_strlit("5");
        reveal_strlit("6");
        reveal_strlit("7");
        reveal_strlit("8");
        reveal_strlit("9");
    }
    if d == 0 { "0" } else if d == 1 { "1" } else if d == 2 { "2" } else if d == 3 { "3" }
    else if d == 4 { "4" } else if d == 5 { "5" } else if d == 6 { "6" } else if d == 7 { "7" }
    else if d == 8 { "8" } else { "9" }
}

/// Appends the decimal notation of `n` to `out`.
pub fn push_decimal(out: &mut String, n: u32)
    ensures
        final(out)@ == old(out)@ + decimal(n as nat),
    decreases n,
{
    if n < 10 {
        out.append(digit_str(n));
    } else {
        push_decimal(out, n / 10);
        out.append(digit_str(n % 10));
        proof {
            assert(decimal(n as nat) == decimal((n / 10) as nat) + seq![digit_char((n % 10) as nat)]);
        }
    }
}

/// Appends the name of `api` to `out`.
pub fn push_api_name(out: &mut String, api: Api)
    ensures
        final(out)@ == old(out)@ + api_name(api),
{
    proof {
        reveal_strlit("OpenGl");
        reveal_strlit("OpenGlEs");
        reveal_strlit("WebGl");
    }
    match api {
        Api::OpenGl => out.append("OpenGl"),
        Api::OpenGlEs => out.append("OpenGlEs"),
        Api::WebGl => out.append("WebGl"),
    }
}

/// A version of an OpenGL implementation, or of its shading language.
#[derive(Clone, Debug)]
pub struct GlVersion {
    pub is_embedded: bool,
    pub major: u32,
    pub minor: u32,
    pub revision: Option<u32>,
    pub vendor_info: String,
}

/// What the OpenGL driver reports about itself.
#[derive(Clone, Debug)]
pub struct DeviceInfo {
    pub vendor: String,
    pub renderer: String,
    pub version: GlVersion,
    pub shading_language: GlVersion,
}

/// The text of a version: `major.minor`, then `.revision` if there is one, then
/// `, vendor_info` if that is not empty.
pub open spec fn version_text(v: GlVersion) -> Seq<char> {
    decimal(v.major as nat) + "."@ + decimal(v.minor as nat) + match v.revision {
        Some(r) => "."@ + decimal(r as nat),
        None => Seq::<char>::empty(),
    } + if v.vendor_info@.len() == 0 {
        Seq::<char>::empty()
    } else {
        ", "@ + v.vendor_info@
    }
}

/// The description of the driver that the renderer information quotes.
pub open spec fn device_info_text(info: DeviceInfo) -> Seq<char> {
    "Driver vendor: "@ + info.vendor@ + ", renderer "@ + info.renderer@ + ", version "@
        + version_text(info.version) + ", shading language "@ + version_text(info.shading_language)
}

/// Appends the text of a version to `out`.
pub fn push_version(out: &mut String, v: &GlVersion)
    ensures
        final(out)@ == old(out)@ + version_text(*v),
{
    proof {
        reveal_strlit(".");
        reveal_strlit(", ");
    }
    let ghost start = out@;
    push_decimal(out, v.major);
    out.append(".");
    push_decimal(out, v.minor);
    let ghost after_minor = out@;
    match v.revision {
        Some(r) => {
            out.append(".");
            push_decimal(out, r);
        },
        None => {},
    }
    let ghost after_revision = out@;
    if !v.vendor_info.as_str().is_empty() {
        out.append(", ");
        out.append(v.vendor_info.as_str());
    }
    proof {
        let rev = match v.revision {
            Some(r) => "."@ + decimal(r as nat),
            None => Seq::<char>::empty(),
        };
        let vend = if v.vendor_info@.len() == 0 {
            Seq::<char>::empty()
        } else {
            ", "@ + v.vendor_info@
        };
        assert(after_minor =~= start + (decimal(v.major as nat) + "."@ + decimal(v.minor as nat)));
        assert(after_revision =~= after_minor + rev);
        assert(out@ =~= after_revision + vend);
        assert(version_text(*v) =~= decimal(v.major as nat) + "."@ + decimal(v.minor as nat) + rev + vend);
    }
}

} // verus!
