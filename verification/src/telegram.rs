//! Approvals over Telegram: the message that asks a human, the buttons that
//! answer it, and how an answer is read back.
use vstd::prelude::*;
use crate::models::{ApprovalRequest, ResourceType, Timestamp};
use crate::audit::utc_representable;
use crate::encoding::{hex_text, is_lower_hex_digit, lemma_hex_text_shape, uuid_bytes, uuid_from_text, uuid_hyphenated, uuid_parse, uuid_to_text};
use crate::flow::unlock_resource;
use crate::text::{join2, same_text};

verus! {

/// The decimal digit of `n < 10`.
pub open spec fn decimal_digit(n: int) -> char {
    (('0' as u32) + (n as u32)) as char
}

/// `n < 100` in two decimal digits.
pub open spec fn two_digits(n: int) -> Seq<char> {
    seq![decimal_digit(n / 10), decimal_digit(n % 10)]
}

/// The UTC time of day of an instant as `HH:MM:SS UTC` (chrono's
/// `%H:%M:%S UTC`; a leap second, held as a nanosecond count of a billion or
/// more, shows as second 60).
pub open spec fn utc_clock_text(secs: i64, nanos: u32) -> Seq<char> {
    let d = secs % 86400;
    let leap: int = if nanos >= 1_000_000_000 {
        1
    } else {
        0
    };
    two_digits(d / 3600) + ":"@ + two_digits((d % 3600) / 60) + ":"@ + two_digits(d % 60 + leap) + " UTC"@
}

/// The UTC time of day of `ts` formatted by chrono as `%H:%M:%S UTC`; `None`
/// exactly where chrono cannot represent the instant
/// (`DateTime::from_timestamp`). The text is stated as chrono's formatting
/// code writes it.
#[verifier::external_body]
fn utc_clock(ts: Timestamp) -> (r: Option<String>)
    ensures
        r is Some <==> utc_representable(ts.secs, ts.nanos),
        r matches Some(s) ==> s@ == utc_clock_text(ts.secs, ts.nanos),
{
    chrono::DateTime::from_timestamp(ts.secs, ts.nanos).map(|d| d.format("%H:%M:%S UTC").to_string())
}

/// `c` escaped for Telegram's HTML: `&`, `<` and `>` become entities.
pub open spec fn html_escaped_char(c: char) -> Seq<char> {
    if c == '&' {
        "&amp;"@
    } else if c == '<' {
        "&lt;"@
    } else if c == '>' {
        "&gt;"@
    } else {
        seq![c]
    }
}

/// `s` escaped for Telegram's HTML.
pub open spec fn html_escaped(s: Seq<char>) -> Seq<char>
    decreases s.len(),
{
    if s.len() == 0 {
        Seq::empty()
    } else {
        html_escaped(s.drop_last()) + html_escaped_char(s.last())
    }
}

/// Sends approval requests to a Telegram chat.
pub struct TelegramApprovalBackend {
    token: String,
    chat_id: i64,
}

/// The icon and title of the message for a request.
pub open spec fn card_of(resource_type: ResourceType, resource_id: Seq<char>) -> (Seq<char>, Seq<char>) {
    match resource_type {
        ResourceType::Secret => ("\u{1F511}"@, "Secret Request"@),
        ResourceType::Package => ("\u{1F4E6}"@, "Package Request"@),
        ResourceType::Command => ("\u{1F4BB}"@, "Command Request"@),
        ResourceType::System => if resource_id == unlock_resource() {
            ("\u{1F513}"@, "Keychain Unlock Request"@)
        } else {
            ("\u{2699}\u{FE0F}"@, "System Request"@)
        },
    }
}

/// The message that asks a human to decide on a request.
pub open spec fn approval_message_text(req: ApprovalRequest) -> Seq<char> {
    let card = card_of(req.resource_type, req.resource_id@);
    card.0 + " <b>"@ + card.1 + "</b>\n\n<b>Resource</b>: <code>"@ + html_escaped(req.resource_id@)
        + "</code>\n<b>Rationale</b>: <i>"@ + html_escaped(req.reason@) + "</i>\n<b>Expires</b>: "@
        + utc_clock_text(req.expires_at.secs, req.expires_at.nanos)
}

/// The data of the button that approves approval `id`.
pub open spec fn approve_data(id: u128) -> Seq<char> {
    "approve:"@ + uuid_hyphenated(id)
}

/// The data of the button that denies approval `id`.
pub open spec fn deny_data(id: u128) -> Seq<char> {
    "deny:"@ + uuid_hyphenated(id)
}

/// What a button press asks for: where the data is an action and an
/// approval id separated by the only ':' in it, the action is "approve" or
/// "deny" and the id is a UUID, the status to record ("Approved" or "Denied")
/// and the approval id; nothing otherwise.
pub open spec fn callback_decision(data: Seq<char>) -> Option<(Seq<char>, u128)> {
    if exists|k: int| 0 <= k < data.len() && data[k] == ':' && forall|j: int|
        0 <= j < data.len() && data[j] == ':' ==> j == k {
        let k = choose|k: int| 0 <= k < data.len() && data[k] == ':';
        let action = data.subrange(0, k);
        let id_text = data.subrange(k + 1, data.len() as int);
        match uuid_from_text(id_text) {
            Some(id) => if action == "approve"@ {
                Some(("Approved"@, id))
            } else if action == "deny"@ {
                Some(("Denied"@, id))
            } else {
                None
            },
            None => None,
        }
    } else {
        None
    }
}

proof fn lemma_uuid_text_has_no_colon(x: u128)
    ensures
        !uuid_hyphenated(x).contains(':'),
{
    let b = uuid_bytes(x);
    lemma_hex_text_shape(b.subrange(0, 4));
    lemma_hex_text_shape(b.subrange(4, 6));
    lemma_hex_text_shape(b.subrange(6, 8));
    lemma_hex_text_shape(b.subrange(8, 10));
    lemma_hex_text_shape(b.subrange(10, 16));
    reveal_strlit("-");
    let t = uuid_hyphenated(x);
    if t.contains(':') {
        let i = choose|i: int| 0 <= i < t.len() && t[i] == ':';
        assert(false);
    }
}

impl TelegramApprovalBackend {
    /// A backend that posts to chat `chat_id` with the bot `token`.
    pub fn new(token: String, chat_id: i64) -> (r: Self)
        ensures
            r.token() == token@,
            r.chat_id() == chat_id,
    {
        TelegramApprovalBackend { token, chat_id }
    }

    /// The bot token.
    pub closed spec fn token(&self) -> Seq<char> {
        self.token@
    }

    /// The chat the requests go to.
    pub closed spec fn chat_id(&self) -> i64 {
        self.chat_id
    }

    /// The bot token.
    pub fn bot_token(&self) -> (r: &str)
        ensures
            r@ == self.token(),
    {
        self.token.as_str()
    }

    /// The chat the requests go to.
    pub fn chat(&self) -> (r: i64)
        ensures
            r == self.chat_id(),
    {
        self.chat_id
    }

    /// `text` escaped for Telegram's HTML.
    pub fn escape_html(text: &str) -> (r: String)
        ensures
            r@ == html_escaped(text@),
    {
        let n = text.unicode_len();
        let mut r = String::new();
        let mut i: usize = 0;
        while i < n
            invariant
                n == text@.len(),
                i <= n,
                r@ == html_escaped(text@.subrange(0, i as int)),
            decreases n - i,
        {
            let c = text.get_char(i);
            if c == '&' {
                r.append("&amp;");
            } else if c == '<' {
                r.append("&lt;");
            } else if c == '>' {
                r.append("&gt;");
            } else {
                r.append(text.substring_char(i, i + 1));
                assert(text@.subrange(i as int, i + 1) =~= seq![c]);
            }
            assert(text@.subrange(0, i + 1).drop_last() =~= text@.subrange(0, i as int));
            i = i + 1;
        }
        assert(text@.subrange(0, n as int) =~= text@);
        r
    }

    /// The icon and title of the message for a request.
    pub fn card(resource_type: ResourceType, resource_id: &str) -> (r: (&'static str, &'static str))
        ensures
            r.0@ == card_of(resource_type, resource_id@).0,
            r.1@ == card_of(resource_type, resource_id@).1,
    {
        match resource_type {
            ResourceType::Secret => ("\u{1F511}", "Secret Request"),
            ResourceType::Package => ("\u{1F4E6}", "Package Request"),
            ResourceType::Command => ("\u{1F4BB}", "Command Request"),
            ResourceType::System => if same_text(resource_id, "keychain-unlock") {
                ("\u{1F513}", "Keychain Unlock Request")
            } else {
                ("\u{2699}\u{FE0F}", "System Request")
            },
        }
    }

    /// The message that asks a human to decide on `req`; `None` exactly where
    /// its expiry cannot be represented as a UTC date and time.
    pub fn approval_message(req: &ApprovalRequest) -> (r: Option<String>)
        ensures
            r is Some <==> utc_representable(req.expires_at.secs, req.expires_at.nanos),
            r matches Some(m) ==> m@ == approval_message_text(*req),
    {
        let clock = match utc_clock(req.expires_at) {
            Some(c) => c,
            None => return None,
        };
        let (icon, title) = Self::card(req.resource_type, req.resource_id.as_str());
        let mut m = join2(icon, " <b>");
        m.append(title);
        m.append("</b>\n\n<b>Resource</b>: <code>");
        let rid = Self::escape_html(req.resource_id.as_str());
        m.append(rid.as_str());
        m.append("</code>\n<b>Rationale</b>: <i>");
        let reason = Self::escape_html(req.reason.as_str());
        m.append(reason.as_str());
        m.append("</i>\n<b>Expires</b>: ");
        m.append(clock.as_str());
        Some(m)
    }

    /// The data of the two buttons under the message: approve, then deny.
    pub fn button_data(approval_id: u128) -> (r: (String, String))
        ensures
            r.0@ == approve_data(approval_id),
            r.1@ == deny_data(approval_id),
    {
        let id = uuid_to_text(approval_id);
        (join2("approve:", id.as_str()), join2("deny:", id.as_str()))
    }
}

/// What a button press asks for: see [`callback_decision`]. The data of the
/// buttons under a message reads back as the decision they stand for.
pub fn parse_callback(data: &str) -> (r: Option<(String, u128)>)
    ensures
        match (r, callback_decision(data@)) {
            (Some(p), Some(q)) => p.0@ == q.0 && p.1 == q.1,
            (None, None) => true,
            _ => false,
        },
        forall|x: u128| data@ == approve_data(x) ==> (r matches Some(p) && p.0@ == "Approved"@ && p.1 == x),
        forall|x: u128| data@ == deny_data(x) ==> (r matches Some(p) && p.0@ == "Denied"@ && p.1 == x),
{
    let n = data.unicode_len();
    let mut colons: usize = 0;
    let mut at: usize = 0;
    let mut i: usize = 0;
    while i < n
        invariant
            n == data@.len(),
            i <= n,
            colons <= i,
            colons == 0 ==> forall|j: int| 0 <= j < i ==> data@[j] != ':',
            colons >= 1 ==> at < i && data@[at as int] == ':',
            colons == 1 ==> forall|j: int| 0 <= j < i && data@[j] == ':' ==> j == at,
            colons >= 2 ==> exists|j: int| 0 <= j < i && data@[j] == ':' && j != at,
        decreases n - i,
    {
        if data.get_char(i) == ':' {
            if colons == 0 {
                at = i;
            }
            colons = colons + 1;
        }
        i = i + 1;
    }
    proof {
        reveal_strlit("approve:");
        reveal_strlit("deny:");
        reveal_strlit("approve");
        reveal_strlit("deny");
        assert forall|x: u128| data@ == approve_data(x) implies data@[7] == ':' && forall|j: int|
            0 <= j < data@.len() && data@[j] == ':' ==> j == 7 by {
            lemma_uuid_text_has_no_colon(x);
            assert forall|j: int| 0 <= j < data@.len() && data@[j] == ':' implies j == 7 by {
                if j > 7 {
                    assert(uuid_hyphenated(x)[j - 8] == data@[j]);
                }
            }
        }
        assert forall|x: u128| data@ == deny_data(x) implies data@[4] == ':' && forall|j: int|
            0 <= j < data@.len() && data@[j] == ':' ==> j == 4 by {
            lemma_uuid_text_has_no_colon(x);
            assert forall|j: int| 0 <= j < data@.len() && data@[j] == ':' implies j == 4 by {
                if j > 4 {
                    assert(uuid_hyphenated(x)[j - 5] == data@[j]);
                }
            }
        }
    }
    if colons != 1 {
        return None;
    }
    proof {
        let k = choose|k: int| 0 <= k < data@.len() && data@[k] == ':';
        assert(k == at);
        assert forall|x: u128| data@ == approve_data(x) implies at == 7 by {}
        assert forall|x: u128| data@ == approve_data(x) implies data@.subrange(at + 1, n as int)
            == uuid_hyphenated(x) && data@.subrange(0, at as int) == "approve"@ by {
            assert(data@.subrange(8, n as int) =~= uuid_hyphenated(x));
            assert(data@.subrange(0, 7) =~= "approve"@);
        }
        assert forall|x: u128| data@ == deny_data(x) implies data@.subrange(at + 1, n as int)
            == uuid_hyphenated(x) && data@.subrange(0, at as int) == "deny"@ by {
            assert(data@.subrange(5, n as int) =~= uuid_hyphenated(x));
            assert(data@.subrange(0, 4) =~= "deny"@);
        }
        assert("approve"@.len() != "deny"@.len());
    }
    let action = data.substring_char(0, at);
    let id_text = data.substring_char(at + 1, n);
    let id = match uuid_parse(id_text) {
        Some(id) => id,
        None => return None,
    };
    if same_text(action, "approve") {
        Some((String::from_str("Approved"), id))
    } else if same_text(action, "deny") {
        Some((String::from_str("Denied"), id))
    } else {
        None
    }
}

/// Whether an approval request asks to unlock the keychain (approving it
/// unlocks the keychain at once).
pub fn is_unlock_request(req: &ApprovalRequest) -> (r: bool)
    ensures
        r == (req.resource_type == ResourceType::System && req.resource_id@ == unlock_resource()),
{
    req.resource_type == ResourceType::System && same_text(req.resource_id.as_str(), "keychain-unlock")
}

/// Whether `s` begins with `p`.
pub open spec fn begins_with_text(s: Seq<char>, p: Seq<char>) -> bool {
    p.len() <= s.len() && s.subrange(0, p.len() as int) == p
}

proof fn lemma_message_head(req: ApprovalRequest)
    ensures
        begins_with_text(
            approval_message_text(req),
            card_of(req.resource_type, req.resource_id@).0 + " <b>"@ + card_of(req.resource_type, req.resource_id@).1
                + "</b>"@,
        ),
{
    let c = card_of(req.resource_type, req.resource_id@);
    let head = c.0 + " <b>"@ + c.1;
    reveal_strlit("</b>\n\n<b>Resource</b>: <code>");
    reveal_strlit("</b>");
    reveal_strlit("\n\n<b>Resource</b>: <code>");
    assert("</b>\n\n<b>Resource</b>: <code>"@ =~= "</b>"@ + "\n\n<b>Resource</b>: <code>"@);
    let rest = "\n\n<b>Resource</b>: <code>"@ + html_escaped(req.resource_id@) + "</code>\n<b>Rationale</b>: <i>"@
        + html_escaped(req.reason@) + "</i>\n<b>Expires</b>: "@ + utc_clock_text(
        req.expires_at.secs,
        req.expires_at.nanos,
    );
    assert(approval_message_text(req) =~= (head + "</b>"@) + rest);
    assert(((head + "</b>"@) + rest).subrange(0, (head + "</b>"@).len() as int) =~= head + "</b>"@);
}

/// The message names what is asked for: a package request is announced as
/// "📦 Package Request", a secret request as "🔑 Secret Request", a command as
/// "💻 Command Request", a keychain unlock as "🔓 Keychain Unlock Request" and
/// any other system request as "⚙️ System Request"; and requests of different
/// resource types never get the same title.
pub proof fn lemma_message_names_the_resource_type(req: ApprovalRequest, other: ApprovalRequest)
    ensures
        req.resource_type == ResourceType::Package ==> begins_with_text(
            approval_message_text(req),
            "\u{1F4E6} <b>Package Request</b>"@,
        ),
        req.resource_type == ResourceType::Secret ==> begins_with_text(
            approval_message_text(req),
            "\u{1F511} <b>Secret Request</b>"@,
        ),
        req.resource_type == ResourceType::Command ==> begins_with_text(
            approval_message_text(req),
            "\u{1F4BB} <b>Command Request</b>"@,
        ),
        (req.resource_type == ResourceType::System && req.resource_id@ == "keychain-unlock"@) ==> begins_with_text(
            approval_message_text(req),
            "\u{1F513} <b>Keychain Unlock Request</b>"@,
        ),
        (req.resource_type == ResourceType::System && req.resource_id@ != "keychain-unlock"@) ==> begins_with_text(
            approval_message_text(req),
            "\u{2699}\u{FE0F} <b>System Request</b>"@,
        ),
        req.resource_type != other.resource_type ==> card_of(req.resource_type, req.resource_id@).1 != card_of(
            other.resource_type,
            other.resource_id@,
        ).1,
{
    lemma_message_head(req);
    reveal_strlit(" <b>");
    reveal_strlit("</b>");
    reveal_strlit("keychain-unlock");
    reveal_strlit("\u{1F4E6}");
    reveal_strlit("Package Request");
    reveal_strlit("\u{1F4E6} <b>Package Request</b>");
    reveal_strlit("\u{1F511}");
    reveal_strlit("Secret Request");
    reveal_strlit("\u{1F511} <b>Secret Request</b>");
    reveal_strlit("\u{1F4BB}");
    reveal_strlit("Command Request");
    reveal_strlit("\u{1F4BB} <b>Command Request</b>");
    reveal_strlit("\u{1F513}");
    reveal_strlit("Keychain Unlock Request");
    reveal_strlit("\u{1F513} <b>Keychain Unlock Request</b>");
    reveal_strlit("\u{2699}\u{FE0F}");
    reveal_strlit("System Request");
    reveal_strlit("\u{2699}\u{FE0F} <b>System Request</b>");
    assert("\u{1F4E6}"@ + " <b>"@ + "Package Request"@ + "</b>"@ =~= "\u{1F4E6} <b>Package Request</b>"@);
    assert("\u{1F511}"@ + " <b>"@ + "Secret Request"@ + "</b>"@ =~= "\u{1F511} <b>Secret Request</b>"@);
    assert("\u{1F4BB}"@ + " <b>"@ + "Command Request"@ + "</b>"@ =~= "\u{1F4BB} <b>Command Request</b>"@);
    assert("\u{1F513}"@ + " <b>"@ + "Keychain Unlock Request"@ + "</b>"@ =~= "\u{1F513} <b>Keychain Unlock Request</b>"@);
    assert("\u{2699}\u{FE0F}"@ + " <b>"@ + "System Request"@ + "</b>"@ =~= "\u{2699}\u{FE0F} <b>System Request</b>"@);
    reveal_strlit("keychain-unlock");
    assert(unlock_resource() == "keychain-unlock"@);
    assert("Package Request"@[0] != "Secret Request"@[0]);
    assert("Package Request"@[0] != "Command Request"@[0]);
    assert("Package Request"@[0] != "Keychain Unlock Request"@[0]);
    assert("Package Request"@[0] != "System Request"@[0]);
    assert("Secret Request"@[1] != "System Request"@[1]);
    assert("Secret Request"@[0] != "Command Request"@[0]);
    assert("Secret Request"@[0] != "Keychain Unlock Request"@[0]);
    assert("Command Request"@[0] != "Keychain Unlock Request"@[0]);
    assert("Command Request"@[0] != "System Request"@[0]);
    assert("Keychain Unlock Request"@[0] != "System Request"@[0]);
}

} // verus!
