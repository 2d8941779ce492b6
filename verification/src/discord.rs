//! Which Discord application the rich presence belongs to.

use vstd::prelude::*;

verus! {

/// The application that the presence belongs to unless the user says otherwise.
pub const DEFAULT_DISCORD_CLIENT_ID: &'static str = "1464235043462447166";

/// Does the character have the Unicode property White_Space?
pub open spec fn is_space(c: char) -> bool {
    let n = c as u32;
    ||| 0x9 <= n <= 0xd
    ||| n == 0x20
    ||| n == 0x85
    ||| n == 0xa0
    ||| n == 0x1680
    ||| 0x2000 <= n <= 0x200a
    ||| n == 0x2028
    ||| n == 0x2029
    ||| n == 0x202f
    ||| n == 0x205f
    ||| n == 0x3000
}

/// Is the text empty but for white space?
pub open spec fn blank(text: Seq<char>) -> bool {
    forall|i: int| 0 <= i < text.len() ==> is_space(#[trigger] text[i])
}

/// Does the character have the Unicode property White_Space?
fn is_space_char(c: char) -> (r: bool)
    ensures
        r == is_space(c),
{
    let n: u32 = c as u32;
    (0x9 <= n && n <= 0xd) || n == 0x20 || n == 0x85 || n == 0xa0 || n == 0x1680 || (0x2000 <= n
        && n <= 0x200a) || n == 0x2028 || n == 0x2029 || n == 0x202f || n == 0x205f || n == 0x3000
}

/// Is the text empty but for white space?
pub fn is_blank(text: &str) -> (r: bool)
    ensures
        r == blank(text@),
{
    let n: usize = text.unicode_len();
    let mut k: usize = 0;
    while k < n
        invariant
            k <= n,
            n == text@.len(),
            forall|i: int| 0 <= i < k ==> is_space(#[trigger] text@[i]),
        decreases n - k,
    {
        if !is_space_char(text.get_char(k)) {
            return false;
        }
        k += 1;
    }
    true
}

/// The application's identifier: what the environment says, unless that is
/// blank; or else what the configuration says; or else the default.
pub open spec fn app_id(env_value: Option<Seq<char>>, configured: Option<Seq<char>>) -> Seq<char> {
    if env_value is Some && !blank(env_value->0) {
        env_value->0
    } else if configured is Some {
        configured->0
    } else {
        DEFAULT_DISCORD_CLIENT_ID@
    }
}

/// The application's identifier: what the environment says, unless that is
/// blank; or else what the configuration says; or else the default.
pub fn resolve_discord_app_id(env_value: Option<String>, configured: Option<String>) -> (r: Option<
    String,
>)
    ensures
        r is Some,
        r->0@ == app_id(
            crate::macos_media::opt_text(env_value),
            crate::macos_media::opt_text(configured),
        ),
{
    if let Some(value) = env_value {
        if !is_blank(value.as_str()) {
            return Some(value);
        }
    }
    if configured.is_some() {
        return configured;
    }
    Some(DEFAULT_DISCORD_CLIENT_ID.to_owned())
}

} // verus!
