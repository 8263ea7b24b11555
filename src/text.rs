use vstd::prelude::*;
use vstd::string::*;

verus! {

/// What `str::to_lowercase` returns for the characters `s`.
pub uninterp spec fn lower_of(s: Seq<char>) -> Seq<char>;

/// Relies on `str::to_lowercase`: the result depends on the characters alone.
#[verifier::external_body]
fn lowercase(s: &str) -> (r: String)
    ensures
        r@ == lower_of(s@),
{
    s.to_lowercase()
}

/// `needle` occurs in `hay` starting at `p`.
pub open spec fn occurs_at(hay: Seq<char>, needle: Seq<char>, p: int) -> bool {
    0 <= p && p + needle.len() <= hay.len() && hay.subrange(p, p + needle.len()) == needle
}

/// `needle` occurs somewhere in `hay`.
pub open spec fn contains_spec(hay: Seq<char>, needle: Seq<char>) -> bool {
    exists|p: int| occurs_at(hay, needle, p)
}

/// Tells whether `needle` occurs in `hay`.
pub fn contains(hay: &str, needle: &str) -> (r: bool)
    ensures
        r == contains_spec(hay@, needle@),
{
    let n: usize = hay.unicode_len();
    let m: usize = needle.unicode_len();
    if m > n {
        assert(forall|p: int| !occurs_at(hay@, needle@, p));
        return false;
    }
    let mut p: usize = 0;
    while p <= n - m
        invariant
            m <= n,
            n == hay@.len(),
            m == needle@.len(),
            p <= n - m + 1,
            forall|q: int| 0 <= q < p ==> !occurs_at(hay@, needle@, q),
        decreases n - m + 1 - p,
    {
        let mut j: usize = 0;
        let mut same: bool = true;
        while j < m
            invariant
                m <= n,
                n == hay@.len(),
                m == needle@.len(),
                p + m <= n,
                j <= m,
                same == (forall|k: int| 0 <= k < j ==> hay@[p + k] == needle@[k]),
            decreases m - j,
        {
            if hay.get_char(p + j) != needle.get_char(j) {
                same = false;
            }
            j = j + 1;
        }
        if same {
            assert(hay@.subrange(p as int, p + m) =~= needle@);
            assert(occurs_at(hay@, needle@, p as int));
            return true;
        }
        assert(!occurs_at(hay@, needle@, p as int)) by {
            if occurs_at(hay@, needle@, p as int) {
                assert forall|k: int| 0 <= k < m implies hay@[p + k] == needle@[k] by {
                    assert(hay@.subrange(p as int, p + m)[k] == hay@[p + k]);
                }
            }
        }
        p = p + 1;
    }
    false
}

/// The lower-cased message of a device error reports a refusal of access.
pub open spec fn access_denied_spec(lowered: Seq<char>) -> bool {
    contains_spec(lowered, "access denied"@) || contains_spec(lowered, "exclusive access"@)
        || contains_spec(lowered, "permission denied"@)
}

/// Tells whether the lower-cased message of a device error reports a refusal
/// of access (the device is held elsewhere, or permissions are missing).
pub fn is_access_denied(lowered: &str) -> (r: bool)
    ensures
        r == access_denied_spec(lowered@),
{
    contains(lowered, "access denied") || contains(lowered, "exclusive access") || contains(
        lowered,
        "permission denied",
    )
}

/// The line that reports a device error: `title` names the step that failed,
/// `lowered` is the error's message in lower case, `message` its message and
/// `debug` its debug form.
pub open spec fn device_error_text(
    title: Seq<char>,
    lowered: Seq<char>,
    message: Seq<char>,
    debug: Seq<char>,
) -> Seq<char> {
    if access_denied_spec(lowered) {
        title + ": Device access denied. Try running with elevated privileges (sudo). Error message was "@
            + debug
    } else {
        title + ": Failed to open device: "@ + message
    }
}

/// Builds the line that reports a device error from its lower-cased message.
pub fn describe_device_error(title: &str, lowered: &str, message: &str, debug: &str) -> (r: String)
    ensures
        r@ == device_error_text(title@, lowered@, message@, debug@),
{
    let r = String::from_str(title);
    if is_access_denied(lowered) {
        let r = r.concat(
            ": Device access denied. Try running with elevated privileges (sudo). Error message was ",
        );
        r.concat(debug)
    } else {
        let r = r.concat(": Failed to open device: ");
        r.concat(message)
    }
}

/// Builds the line that reports a device error, given the error's message and
/// its debug form; a message that speaks of denied or exclusive access, in any
/// case, gets the advice to run with elevated privileges.
pub fn translate_device_error(title: &str, message: &str, debug: &str) -> (r: String)
    ensures
        r@ == device_error_text(title@, lower_of(message@), message@, debug@),
{
    let lowered = lowercase(message);
    describe_device_error(title, lowered.as_str(), message, debug)
}

/// The character of the decimal digit `d`.
pub open spec fn digit_text(d: nat) -> Seq<char> {
    if d == 0 {
        "0"@
    } else if d == 1 {
        "1"@
    } else if d == 2 {
        "2"@
    } else if d == 3 {
        "3"@
    } else if d == 4 {
        "4"@
    } else if d == 5 {
        "5"@
    } else if d == 6 {
        "6"@
    } else if d == 7 {
        "7"@
    } else if d == 8 {
        "8"@
    } else {
        "9"@
    }
}

/// `n` written in decimal, without leading zeros.
pub open spec fn decimal_text(n: nat) -> Seq<char>
    decreases n,
{
    if n < 10 {
        digit_text(n)
    } else {
        decimal_text(n / 10) + digit_text(n % 10)
    }
}

fn digit(d: usize) -> (r: &'static str)
    requires
        d < 10,
    ensures
        r@ == digit_text(d as nat),
{
    if d == 0 {
        "0"
    } else if d == 1 {
        "1"
    } else if d == 2 {
        "2"
    } else if d == 3 {
        "3"
    } else if d == 4 {
        "4"
    } else if d == 5 {
        "5"
    } else if d == 6 {
        "6"
    } else if d == 7 {
        "7"
    } else if d == 8 {
        "8"
    } else {
        "9"
    }
}

/// Writes `n` in decimal.
pub fn decimal(n: usize) -> (r: String)
    ensures
        r@ == decimal_text(n as nat),
    decreases n,
{
    if n < 10 {
        String::from_str(digit(n))
    } else {
        let r = decimal(n / 10);
        r.concat(digit(n % 10))
    }
}

} // verus!
