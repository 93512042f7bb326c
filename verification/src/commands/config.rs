//! Changing the configuration, and showing it.

use crate::config::{resolve_base_url, resolve_token, Config, ConfigView};
use vstd::prelude::*;
use vstd::string::{StringExecFns, StringSliceAdditionalSpecFns};
use vstd::utf8::{decode_utf8, encode_utf8, is_char_boundary};

verus! {

broadcast use {vstd::slice::group_slice_axioms, vstd::utf8::encode_utf8_decode_utf8};

/// What is shown once a token has been saved.
pub const TOKEN_SAVED: &'static str = "API token saved successfully!";

/// Takes the place of the middle of a token on display.
pub const ELLIPSIS: &'static str = "...";

/// How many bytes of a token are shown at each end.
pub const SHOWN_BYTES: usize = 4;

/// Whether a token can be shown masked: its UTF-8 encoding has at least
/// [`SHOWN_BYTES`] bytes, and no character straddles the ends of its first
/// or of its last [`SHOWN_BYTES`] bytes.
pub open spec fn maskable(token: Seq<char>) -> bool {
    let bytes = encode_utf8(token);
    &&& bytes.len() >= SHOWN_BYTES
    &&& is_char_boundary(bytes, SHOWN_BYTES as int)
    &&& is_char_boundary(bytes, bytes.len() - SHOWN_BYTES)
}

/// A token as it is shown: the first and the last [`SHOWN_BYTES`] bytes of
/// its UTF-8 encoding as text, with [`ELLIPSIS`] between them.
pub open spec fn masked(token: Seq<char>) -> Seq<char> {
    let bytes = encode_utf8(token);
    decode_utf8(bytes.subrange(0, SHOWN_BYTES as int)) + ELLIPSIS@ + decode_utf8(
        bytes.subrange(bytes.len() - SHOWN_BYTES, bytes.len() as int),
    )
}

/// What the configuration in force looks like on display: a heading, the
/// base URL, and the token, masked, or a note that none is set.
pub open spec fn shown(
    config: ConfigView,
    token_variable: Option<Seq<char>>,
    base_url_variable: Option<Seq<char>>,
) -> Seq<Seq<char>> {
    seq![
        "Configuration:"@,
        "  Base URL: "@ + resolve_base_url(base_url_variable, config),
        match resolve_token(token_variable, config) {
            Some(token) => "  API Token: "@ + masked(token),
            None => "  API Token: Not set"@,
        },
    ]
}

/// Whether `token` can be shown masked.
pub fn can_mask(token: &str) -> (yes: bool)
    ensures
        yes == maskable(token@),
{
    let length = token.as_bytes().len();
    length >= SHOWN_BYTES && token.is_char_boundary(SHOWN_BYTES) && token.is_char_boundary(
        length - SHOWN_BYTES,
    )
}

/// Masks `token` for display.
pub fn mask(token: &str) -> (text: String)
    requires
        maskable(token@),
    ensures
        text@ == masked(token@),
{
    let length = token.as_bytes().len();
    let (head, _) = token.split_at(SHOWN_BYTES);
    let (_, tail) = token.split_at(length - SHOWN_BYTES);
    proof {
        assert(decode_utf8(encode_utf8(head@)) == head@);
        assert(decode_utf8(encode_utf8(tail@)) == tail@);
    }
    String::from_str(head).concat(ELLIPSIS).concat(tail)
}

/// The configuration with `token` as its API token, and what to show once
/// it has been saved.
pub fn set_token(config: Config, token: &str) -> (saved: (Config, String))
    ensures
        saved.0@ == (ConfigView { api_token: Some(token@), base_url: config@.base_url }),
        saved.1@ == TOKEN_SAVED@,
{
    let updated = Config { api_token: Some(String::from_str(token)), base_url: config.base_url };
    (updated, String::from_str(TOKEN_SAVED))
}

/// The configuration with `url` as its base URL, and what to show once it
/// has been saved.
pub fn set_base_url(config: Config, url: &str) -> (saved: (Config, String))
    ensures
        saved.0@ == (ConfigView { api_token: config@.api_token, base_url: Some(url@) }),
        saved.1@ == "Base URL set to: "@ + url@,
{
    let updated = Config { api_token: config.api_token, base_url: Some(String::from_str(url)) };
    (updated, String::from_str("Base URL set to: ").concat(url))
}

/// The lines that show the configuration in force, given the values of the
/// two environment variables as far as they are set. The token is masked.
pub fn show_config(
    config: &Config,
    token_variable: Option<String>,
    base_url_variable: Option<String>,
) -> (lines: Vec<String>)
    requires
        resolve_token(token_variable.deep_view(), config@) matches Some(token) ==> maskable(
            token,
        ),
    ensures
        lines.deep_view() == shown(
            config@,
            token_variable.deep_view(),
            base_url_variable.deep_view(),
        ),
{
    let mut lines: Vec<String> = Vec::new();
    lines.push(String::from_str("Configuration:"));
    let url = config.base_url(base_url_variable);
    lines.push(String::from_str("  Base URL: ").concat(url.as_str()));
    match config.api_token(token_variable) {
        Ok(token) => {
            let hidden = mask(token.as_str());
            lines.push(String::from_str("  API Token: ").concat(hidden.as_str()));
        },
        Err(_) => {
            lines.push(String::from_str("  API Token: Not set"));
        },
    }
    proof {
        assert(lines.deep_view() =~= shown(
            config@,
            token_variable.deep_view(),
            base_url_variable.deep_view(),
        ));
    }
    lines
}

} // verus!
