use vstd::prelude::*;
use crate::text::text_of;

verus! {

/// Marker in the landing page where the analytics script goes.
pub const SCRIPT_PLACEHOLDER: &'static str = "<!-- POSTHOG-PLACEHOLDER -->";

/// Marker in the analytics script for the project key.
pub const KEY_PLACEHOLDER: &'static str = "${Bun.env.POSTHOG_PROJECT_API_KEY}";

/// Marker in the analytics script for the host.
pub const HOST_PLACEHOLDER: &'static str = "${Bun.env.POSTHOG_API_HOST}";

/// Page shown when the landing page cannot be read.
pub const FALLBACK_PAGE: &'static str = "<h1 color=\"red\">Failed to get HTML</h1>";

/// `s` with every occurrence of `from` replaced by `to`.
pub uninterp spec fn replaced(s: Seq<char>, from: Seq<char>, to: Seq<char>) -> Seq<char>;

/// Relies on str::replace: every non-overlapping occurrence of `from`, left to
/// right, replaced by `to`.
#[verifier::external_body]
fn replace_all(s: &str, from: &str, to: &str) -> (r: String)
    ensures
        r@ == replaced(s@, from@, to@),
{
    s.replace(from, to)
}

/// The landing page as served: where both analytics settings are given, the
/// script goes in at its marker and the settings into the script; otherwise
/// the page is unchanged.
pub open spec fn landing_page(
    html: Seq<char>,
    script: Seq<char>,
    key: Option<Seq<char>>,
    host: Option<Seq<char>>,
) -> Seq<char> {
    match (key, host) {
        (Some(k), Some(h)) => replaced(
            replaced(replaced(html, SCRIPT_PLACEHOLDER@, script), KEY_PLACEHOLDER@, k),
            HOST_PLACEHOLDER@,
            h,
        ),
        _ => html,
    }
}

/// Fills the analytics markers of the landing page.
pub fn render_landing_page(html: String, script: &str, key: Option<&str>, host: Option<&str>) -> (r: String)
    ensures
        r@ == landing_page(html@, script@, text_of(key), text_of(host)),
{
    match (key, host) {
        (Some(k), Some(h)) => {
            let with_script = replace_all(html.as_str(), SCRIPT_PLACEHOLDER, script);
            let with_key = replace_all(with_script.as_str(), KEY_PLACEHOLDER, k);
            replace_all(with_key.as_str(), HOST_PLACEHOLDER, h)
        },
        _ => html,
    }
}

} // verus!
