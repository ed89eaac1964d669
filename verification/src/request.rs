//! The request model and its validation: the first inbound message decodes
//! into a `Request`, which must name a known language, carry a timeout in
//! range, and contain no null byte in any argument or option.

use vstd::prelude::*;
use vstd::string::StringExecFns;
use crate::numfmt::{dec_chars_signed, i64_to_string};

verus! {

/// A language of the catalog: the image names the read-only rootfs tree and
/// per-image environment file the container is built from.
#[derive(Debug)]
pub struct Language {
    pub image: String,
}

/// The catalog maps a language identifier to its `Language` entry. It is
/// loaded once at process start and read-only thereafter.
pub type Catalog = Vec<(String, Language)>;

/// One execution request, as decoded from the first client message.
#[derive(Debug)]
pub struct Request {
    pub language: String,
    pub code: Vec<u8>,
    pub input: Vec<u8>,
    pub arguments: Vec<Vec<u8>>,
    pub options: Vec<Vec<u8>>,
    pub timeout: i32,
}

/// A control message sent by the client while a request runs. Any tag other
/// than `Kill` is rejected by the codec as a policy violation.
#[derive(Debug)]
pub enum ControlMessage {
    Kill,
}

/// The error taxonomy of the service. The gateway reacts to the tag alone:
/// a policy violation or oversize message is the client's fault, an internal
/// error is the server's, and a client that went away is no error at all.
#[derive(Debug)]
pub enum Error {
    ClientWentAway,
    TooLarge(usize),
    UnsupportedData,
    PolicyViolation(String),
    InternalError(String),
}

/// Timeouts are accepted in whole seconds from 1 to 60.
pub open spec fn valid_timeout(t: i32) -> bool {
    1 <= t && t <= 60
}

/// Whether any of the byte strings contains a null byte.
pub open spec fn any_has_null(args: Seq<Vec<u8>>) -> bool {
    exists|i: int| 0 <= i < args.len() && (#[trigger] args[i])@.contains(0u8)
}

/// Whether any argument or option of the request contains a null byte.
pub open spec fn has_null_arg(args: Seq<Vec<u8>>, opts: Seq<Vec<u8>>) -> bool {
    any_has_null(args) || any_has_null(opts)
}

/// Whether the catalog has an entry for the given language identifier.
pub open spec fn catalog_has(catalog: Seq<(String, Language)>, language: Seq<char>) -> bool {
    exists|i: int| 0 <= i < catalog.len() && #[trigger] catalog[i].0@ == language
}

fn contains_zero(v: &Vec<u8>) -> (r: bool)
    ensures
        r == v@.contains(0u8),
{
    let mut i: usize = 0;
    while i < v.len()
        invariant
            i <= v@.len(),
            forall|j: int| 0 <= j < i ==> v@[j] != 0u8,
        decreases v@.len() - i,
    {
        if v[i] == 0 {
            return true;
        }
        i = i + 1;
    }
    false
}

fn any_contains_zero(args: &Vec<Vec<u8>>) -> (r: bool)
    ensures
        r == any_has_null(args@),
{
    let mut i: usize = 0;
    while i < args.len()
        invariant
            i <= args@.len(),
            forall|j: int| 0 <= j < i ==> !(#[trigger] args@[j])@.contains(0u8),
        decreases args@.len() - i,
    {
        if contains_zero(&args[i]) {
            assert(any_has_null(args@));
            return true;
        }
        i = i + 1;
    }
    false
}

/// Checks a decoded request against the policy: timeout in range, no null
/// byte in any option or argument, and a language the catalog knows. On
/// success returns the catalog entry for the request's language; every
/// failure is a policy violation naming the offending part.
pub fn validate<'a>(request: &Request, catalog: &'a Catalog) -> (r: Result<&'a Language, Error>)
    ensures
        r is Ok <==> (valid_timeout(request.timeout) && !has_null_arg(
            request.arguments@,
            request.options@,
        ) && catalog_has(catalog@, request.language@)),
        r matches Ok(l) ==> exists|i: int|
            0 <= i < catalog@.len() && #[trigger] catalog@[i].0@ == request.language@ && *l
                == catalog@[i].1,
        !valid_timeout(request.timeout) ==> (r matches Err(e) && e matches Error::PolicyViolation(
            m,
        ) && m@ == "timeout not in range 1-60: "@ + dec_chars_signed(request.timeout as int)),
        valid_timeout(request.timeout) && has_null_arg(
            request.arguments@,
            request.options@,
        ) ==> (r matches Err(e) && e matches Error::PolicyViolation(m) && m@
            == "argument contains null byte"@),
        valid_timeout(request.timeout) && !has_null_arg(
            request.arguments@,
            request.options@,
        ) && !catalog_has(catalog@, request.language@) ==> (r matches Err(e) && e matches Error::PolicyViolation(
            m,
        ) && m@ == "no such language: "@ + request.language@),
{
    if request.timeout < 1 || request.timeout > 60 {
        let mut m = String::new();
        m.append("timeout not in range 1-60: ");
        let digits = i64_to_string(request.timeout as i64);
        m.append(digits.as_str());
        assert(m@ =~= "timeout not in range 1-60: "@ + dec_chars_signed(
            request.timeout as int,
        ));
        return Err(Error::PolicyViolation(m));
    }
    if any_contains_zero(&request.options) || any_contains_zero(&request.arguments) {
        let mut m = String::new();
        m.append("argument contains null byte");
        assert(m@ =~= "argument contains null byte"@);
        return Err(Error::PolicyViolation(m));
    }
    let mut i: usize = 0;
    while i < catalog.len()
        invariant
            i <= catalog@.len(),
            valid_timeout(request.timeout),
            !has_null_arg(request.arguments@, request.options@),
            forall|j: int| 0 <= j < i ==> #[trigger] catalog@[j].0@ != request.language@,
        decreases catalog@.len() - i,
    {
        if catalog[i].0 == request.language {
            assert(catalog@[i as int].0@ == request.language@);
            assert(catalog_has(catalog@, request.language@));
            return Ok(&catalog[i].1);
        }
        i = i + 1;
    }
    let mut m = String::new();
    m.append("no such language: ");
    m.append(request.language.as_str());
    assert(m@ =~= "no such language: "@ + request.language@);
    Err(Error::PolicyViolation(m))
}

} // verus!
