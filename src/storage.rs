use vstd::prelude::*;
use crate::error::{concat2, concat3, StorageError};

verus! {

/// Classifies a failed request to a provider from what the HTTP client
/// reports of it: a timeout or a refused connection is a network error; an
/// answer with status 404 means the object is missing, 401 or 403 that the
/// credentials were refused, any other status a provider error; anything
/// else is internal.
pub fn classify_transport_error(
    timed_out: bool,
    connect_failed: bool,
    status: Option<u16>,
    detail: String,
) -> (r: StorageError)
    ensures
        timed_out ==> (r matches StorageError::NetworkError(m) && m@ == "Request timeout"@),
        !timed_out && connect_failed ==> (r matches StorageError::NetworkError(m) && m@
            == "Connection failed: "@ + detail@),
        !timed_out && !connect_failed ==> match status {
            Some(404) => r == StorageError::NotFound(detail),
            Some(401) | Some(403) => r == StorageError::Unauthorized(detail),
            Some(_) => r == StorageError::ProviderError(detail),
            None => r == StorageError::InternalError(detail),
        },
{
    if timed_out {
        StorageError::NetworkError("Request timeout".to_owned())
    } else if connect_failed {
        StorageError::NetworkError(concat2("Connection failed: ", detail.as_str()))
    } else {
        match status {
            Some(404) => StorageError::NotFound(detail),
            Some(401) | Some(403) => StorageError::Unauthorized(detail),
            Some(_) => StorageError::ProviderError(detail),
            None => StorageError::InternalError(detail),
        }
    }
}

/// Checks a provider's answer about `file_id`: a success status (2xx) is
/// fine, 404 means the object is missing, any other status fails the
/// operation named `what`.
pub fn check_provider_status(status: u16, file_id: &String, what: &str) -> (r: Result<(), StorageError>)
    ensures
        200 <= status < 300 ==> r is Ok,
        status == 404 ==> r == Err::<(), StorageError>(StorageError::NotFound(*file_id)),
        !(200 <= status < 300) && status != 404 ==> (r matches Err(
            StorageError::ProviderError(m),
        ) && m@ == what@ + " failed"@),
{
    if 200 <= status && status < 300 {
        Ok(())
    } else if status == 404 {
        Err(StorageError::NotFound(file_id.clone()))
    } else {
        Err(StorageError::ProviderError(concat2(what, " failed")))
    }
}

/// Whether `char::is_alphanumeric` holds of `c`.
pub uninterp spec fn alphanumeric(c: char) -> bool;

/// Relies on `char::is_alphanumeric`: a letter or a digit in Unicode's sense.
#[verifier::external_body]
fn is_alphanumeric(c: char) -> (r: bool)
    ensures
        r == alphanumeric(c),
{
    c.is_alphanumeric()
}

/// A file name character as it may stand in an object path: letters,
/// digits, `.` and `-` stay, anything else becomes `_`.
pub open spec fn safe_char(c: char) -> char {
    if alphanumeric(c) || c == '.' || c == '-' {
        c
    } else {
        '_'
    }
}

/// A file name with every character made safe for an object path.
pub fn safe_file_name(name: &str) -> (r: String)
    ensures
        r@ == name@.map_values(|c: char| safe_char(c)),
{
    let n = name.unicode_len();
    let mut out = String::new();
    let mut i: usize = 0;
    while i < n
        invariant
            n == name@.len(),
            i <= n,
            out@ == name@.subrange(0, i as int).map_values(|c: char| safe_char(c)),
        decreases n - i,
    {
        let c = name.get_char(i);
        if is_alphanumeric(c) || c == '.' || c == '-' {
            let piece = name.substring_char(i, i + 1);
            assert(piece@ =~= seq![c]);
            out.append(piece);
        } else {
            proof {
                reveal_strlit("_");
            }
            out.append("_");
        }
        assert(name@.subrange(0, i + 1) == name@.subrange(0, i as int).push(c));
        i = i + 1;
    }
    assert(name@.subrange(0, n as int) == name@);
    out
}

/// The decimal digits of `n`, most significant first.
pub open spec fn decimal_of(n: nat) -> Seq<char>
    decreases n,
{
    if n < 10 {
        seq![digit_char(n)]
    } else {
        decimal_of(n / 10).push(digit_char(n % 10))
    }
}

pub open spec fn digit_char(d: nat) -> char {
    if d == 0 { '0' } else if d == 1 { '1' } else if d == 2 { '2' } else if d == 3 { '3' }
    else if d == 4 { '4' } else if d == 5 { '5' } else if d == 6 { '6' } else if d == 7 { '7' }
    else if d == 8 { '8' } else { '9' }
}

/// The one-character text of the digit `d`.
fn digit_text(d: u128) -> (r: &'static str)
    requires
        d < 10,
    ensures
        r@ == seq![digit_char(d as nat)],
{
    proof {
        reveal_strlit("0");
        reveal_strlit("1");
        reveal_strlit("2");
        reveal_strlit("3");
        reveal_strlit("4");
        reveal_strlit("5");
        reveal_strlit("6");
        reveal_strlit("7");
        reveal_strlit("8");
        reveal_strlit("9");
    }
    let r = if d == 0 { "0" } else if d == 1 { "1" } else if d == 2 { "2" } else if d == 3 { "3" }
    else if d == 4 { "4" } else if d == 5 { "5" } else if d == 6 { "6" } else if d == 7 { "7" }
    else if d == 8 { "8" } else { "9" };
    assert(r@ =~= seq![digit_char(d as nat)]);
    r
}

/// The decimal digits of `n`.
pub fn decimal_text(n: u128) -> (r: String)
    ensures
        r@ == decimal_of(n as nat),
    decreases n,
{
    if n < 10 {
        digit_text(n).to_owned()
    } else {
        let mut s = decimal_text(n / 10);
        s.append(digit_text(n % 10));
        s
    }
}

/// The path under which an object is stored: the upload time in
/// milliseconds, a slash, and the file name made safe.
pub fn object_path(millis: u128, file_name: &str) -> (r: String)
    ensures
        r@ == decimal_of(millis as nat) + "/"@ + file_name@.map_values(|c: char| safe_char(c)),
{
    let stamp = decimal_text(millis);
    let safe = safe_file_name(file_name);
    concat3(stamp.as_str(), "/", safe.as_str())
}

} // verus!
