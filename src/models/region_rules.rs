//! Validation and display rules for regions and cloud providers.
use vstd::prelude::*;
use vstd::string::StringSliceAdditionalSpecFns;
use crate::error::CloudPingError;
use crate::network::{parse_url, trim_text, trimmed, url_parts};

verus! {

/// Longest region name accepted, in bytes.
pub const MAX_REGION_NAME_BYTES: usize = 100;

/// `p` is a prefix of `s`.
pub open spec fn has_prefix(s: Seq<char>, p: Seq<char>) -> bool {
    p.len() <= s.len() && s.subrange(0, p.len() as int) == p
}

/// The code point of the ASCII lower-case form of `c`; other characters stay.
pub open spec fn ascii_lower(c: char) -> u32 {
    if 'A' <= c && c <= 'Z' {
        ((c as u32) + 32) as u32
    } else {
        c as u32
    }
}

/// Equality of two texts when ASCII letters are compared without case.
pub open spec fn eq_ignoring_ascii_case(a: Seq<char>, b: Seq<char>) -> bool {
    a.len() == b.len() && forall|i: int| 0 <= i < a.len() ==> ascii_lower(a[i]) == ascii_lower(b[i])
}

/// Why a region name is refused (field and message), if it is.
pub open spec fn region_name_violation(name: &str) -> Option<(Seq<char>, Seq<char>)> {
    name_violation(trimmed(name@).len() == 0, name.spec_bytes().len())
}

/// Why a name that is blank or not, and `len` bytes long, is refused.
pub open spec fn name_violation(blank: bool, len: nat) -> Option<(Seq<char>, Seq<char>)> {
    if blank {
        Some(("name"@, "cannot be empty"@))
    } else if len > MAX_REGION_NAME_BYTES {
        Some(("name"@, "cannot exceed 100 characters"@))
    } else {
        None
    }
}

/// Why a region URL is refused (field and message), if it is.
pub open spec fn region_url_violation(url: Seq<char>) -> Option<(Seq<char>, Seq<char>)> {
    url_violation(url, trimmed(url).len() == 0, url_parts(url) is Some)
}

/// Why `url`, blank or not and parsing or not, is refused as a region URL.
pub open spec fn url_violation(url: Seq<char>, blank: bool, parses: bool) -> Option<
    (Seq<char>, Seq<char>),
> {
    if blank {
        Some(("url"@, "cannot be empty"@))
    } else if !has_prefix(url, "http://"@) && !has_prefix(url, "https://"@) {
        Some(("url"@, "must start with http:// or https://"@))
    } else if !parses {
        Some(("url"@, "invalid URL format"@))
    } else {
        None
    }
}

/// The outcome of a validation: `Ok` when nothing is violated, else the
/// validation error for the violated field.
pub open spec fn validation_outcome(
    v: Option<(Seq<char>, Seq<char>)>,
    r: Result<(), CloudPingError>,
) -> bool {
    match v {
        None => r is Ok,
        Some((f, m)) => r matches Err(CloudPingError::Validation { field, message }) && field@
            == f && message@ == m,
    }
}

/// Whether `s` starts with `p`.
pub fn starts_with(s: &str, p: &str) -> (r: bool)
    ensures
        r == has_prefix(s@, p@),
{
    let n = p.unicode_len();
    if n > s.unicode_len() {
        return false;
    }
    let mut i: usize = 0;
    while i < n
        invariant
            n == p@.len(),
            n <= s@.len(),
            i <= n,
            forall|j: int| 0 <= j < i ==> s@[j] == p@[j],
        decreases n - i,
    {
        if s.get_char(i) != p.get_char(i) {
            return false;
        }
        i = i + 1;
    }
    assert(s@.subrange(0, n as int) =~= p@);
    true
}

fn lower_char(c: char) -> (r: u32)
    ensures
        r == ascii_lower(c),
{
    if 'A' <= c && c <= 'Z' {
        (c as u32) + 32
    } else {
        c as u32
    }
}

/// Whether two texts are equal when ASCII letters are compared without case.
pub fn eq_ignore_ascii_case(a: &str, b: &str) -> (r: bool)
    ensures
        r == eq_ignoring_ascii_case(a@, b@),
{
    let n = a.unicode_len();
    if n != b.unicode_len() {
        return false;
    }
    let mut i: usize = 0;
    while i < n
        invariant
            n == a@.len(),
            n == b@.len(),
            i <= n,
            forall|j: int| 0 <= j < i ==> ascii_lower(a@[j]) == ascii_lower(b@[j]),
        decreases n - i,
    {
        if lower_char(a.get_char(i)) != lower_char(b.get_char(i)) {
            return false;
        }
        i = i + 1;
    }
    true
}

/// Check a name that is `blank` or not: it must not be, and must be at most
/// 100 bytes long.
pub fn check_region_name(name: &str, blank: bool) -> (r: Result<(), CloudPingError>)
    requires
        name.spec_bytes().len() <= usize::MAX,
    ensures
        validation_outcome(name_violation(blank, name.spec_bytes().len()), r),
{
    proof {
        reveal_strlit("name");
        reveal_strlit("cannot be empty");
        reveal_strlit("cannot exceed 100 characters");
    }
    if blank {
        return Err(CloudPingError::validation("name", "cannot be empty"));
    }
    if name.len() > MAX_REGION_NAME_BYTES {
        return Err(CloudPingError::validation("name", "cannot exceed 100 characters"));
    }
    Ok(())
}

/// Check a region name: not blank, and at most 100 bytes long.
pub fn validate_region_name(name: &str) -> (r: Result<(), CloudPingError>)
    requires
        name.spec_bytes().len() <= usize::MAX,
    ensures
        validation_outcome(region_name_violation(name), r),
{
    check_region_name(name, trim_text(name).is_empty())
}

/// Check a region URL that is `blank` or not and `parses` or not: it must
/// not be blank, must start with `http://` or `https://`, and must parse.
pub fn check_region_url(url: &str, blank: bool, parses: bool) -> (r: Result<(), CloudPingError>)
    ensures
        validation_outcome(url_violation(url@, blank, parses), r),
{
    proof {
        reveal_strlit("url");
        reveal_strlit("cannot be empty");
        reveal_strlit("must start with http:// or https://");
        reveal_strlit("invalid URL format");
    }
    if blank {
        return Err(CloudPingError::validation("url", "cannot be empty"));
    }
    if !starts_with(url, "http://") && !starts_with(url, "https://") {
        return Err(CloudPingError::validation("url", "must start with http:// or https://"));
    }
    if !parses {
        return Err(CloudPingError::validation("url", "invalid URL format"));
    }
    Ok(())
}

/// Check a region URL: not blank, an `http://` or `https://` URL, and one
/// that parses.
pub fn validate_region_url(url: &str) -> (r: Result<(), CloudPingError>)
    ensures
        validation_outcome(region_url_violation(url@), r),
{
    let blank = trim_text(url).is_empty();
    let parses = parse_url(url).is_ok();
    check_region_url(url, blank, parses)
}

/// Check a provider name: not blank.
pub fn validate_provider_name(name: &str) -> (r: Result<(), CloudPingError>)
    ensures
        validation_outcome(
            if trimmed(name@).len() == 0 {
                Some(("name"@, "cannot be empty"@))
            } else {
                None
            },
            r,
        ),
{
    proof {
        reveal_strlit("name");
        reveal_strlit("cannot be empty");
    }
    if trim_text(name).is_empty() {
        return Err(CloudPingError::validation("name", "cannot be empty"));
    }
    Ok(())
}

/// The name of a region as displayed: with its provider in parentheses,
/// when it has one.
pub fn region_display_name(name: &str, provider: &str) -> (r: String)
    ensures
        r@ == if provider@.len() == 0 {
            name@
        } else {
            name@ + " ("@ + provider@ + ")"@
        },
{
    let mut s = name.to_owned();
    if !provider.is_empty() {
        s.append(" (");
        s.append(provider);
        s.append(")");
        proof {
            reveal_strlit(" (");
            reveal_strlit(")");
        }
    }
    s
}

/// Whether a region's country is the given country code, ignoring ASCII case.
pub fn is_in_country(country: &str, country_code: &str) -> (r: bool)
    ensures
        r == eq_ignoring_ascii_case(country@, country_code@),
{
    eq_ignore_ascii_case(country, country_code)
}

} // verus!
