use vstd::prelude::*;
use crate::text::{lower_of, lowercase, same_text, text_of, trim_text, trimmed};

verus! {

/// The only refresh-header value that can ask for regeneration.
pub const REFRESH_TOKEN: &'static str = "true";

/// A refresh is forced when the refresh header is present, equals the
/// configured secret (the empty text where none is configured) and is the
/// token `true`. Both conditions are kept as stated, so a refresh can only be
/// forced where the secret itself is `true`.
pub open spec fn refresh_forced(refresh: Option<Seq<char>>, secret: Option<Seq<char>>) -> bool {
    match refresh {
        Some(v) => v == secret.unwrap_or(Seq::empty()) && v == REFRESH_TOKEN@,
        None => false,
    }
}

/// Decides whether a request bypasses the cache and replaces the stored
/// schema. `refresh` is the refresh header's value (empty where it is not
/// readable text), `secret` the configured authorisation key.
pub fn is_refresh_forced(refresh: Option<&str>, secret: Option<&str>) -> (r: bool)
    ensures
        r == refresh_forced(text_of(refresh), text_of(secret)),
{
    match refresh {
        None => false,
        Some(v) => {
            let expected = match secret {
                Some(s) => s,
                None => "",
            };
            proof {
                reveal_strlit("");
                assert(""@ =~= Seq::<char>::empty());
            }
            same_text(v, expected) && same_text(v, REFRESH_TOKEN)
        },
    }
}

/// A request passes the authorisation gate when no key is configured, or when
/// its authorisation header, trimmed and lower-cased, equals the key treated
/// the same way. A missing header counts as the empty text.
pub open spec fn request_authorized(header: Option<Seq<char>>, key: Option<Seq<char>>) -> bool {
    match key {
        None => true,
        Some(k) => lower_of(trimmed(header.unwrap_or(Seq::empty()))) == lower_of(trimmed(k)),
    }
}

/// The authorisation gate in front of every route.
pub fn is_request_authorized(header: Option<&str>, key: Option<&str>) -> (r: bool)
    ensures
        r == request_authorized(text_of(header), text_of(key)),
{
    match key {
        None => true,
        Some(k) => {
            let given = match header {
                Some(h) => h,
                None => "",
            };
            proof {
                reveal_strlit("");
                assert(""@ =~= Seq::<char>::empty());
            }
            let given_norm = lowercase(trim_text(given));
            let key_norm = lowercase(trim_text(k));
            same_text(given_norm.as_str(), key_norm.as_str())
        },
    }
}

} // verus!
