//! The keyboards attached to received messages and the bot profiles of a chat,
//! as plain values, and the actions discovered in them.
use vstd::prelude::*;
use crate::telegram::actions::{
    ActionView, action_view, base64url_decode, bot_command_action, bot_menu_url_action,
    inline_callback_action, inline_url_action, normalize_command, ov, reply_keyboard_text_action,
    spec_base64url_decode, spec_bot_command, spec_bot_menu_url, spec_inline_callback, spec_inline_url,
    spec_normalize_command, spec_reply_text, spec_unsupported_reply, unsupported_reply_action,
};
use crate::telegram::messages::{InteractiveAction, InteractiveActionKind};
use crate::text::{bytes_eq, bytes_to_vec, concat2, concat3, int_decimal, owned, str_eq};
use crate::json::i64_decimal;

verus! {

/// One button of a received keyboard, by what pressing it does.
#[derive(Debug, Clone, PartialEq, Eq)]
pub enum KeyboardButton {
    /// Plain reply-keyboard button: sends its text.
    Text { text: String },
    Callback { text: String, data: Vec<u8> },
    Url { text: String, url: String },
    UrlAuth { text: String, url: String },
    WebView { text: String, url: String },
    SimpleWebView { text: String, url: String },
    RequestPhone { text: String },
    RequestGeoLocation { text: String },
    RequestPoll { text: String },
    RequestPeer { text: String },
    /// Any other kind of button.
    Other,
}

/// The keyboard attached to a received message.
#[derive(Debug, Clone, PartialEq, Eq)]
pub enum MessageMarkup {
    /// Buttons under the message.
    Inline { rows: Vec<Vec<KeyboardButton>> },
    /// A reply keyboard replacing the user's keyboard.
    Keyboard { rows: Vec<Vec<KeyboardButton>> },
    /// Any other markup (hiding or forcing a reply).
    Other,
}

/// The mathematical form of a button.
pub ghost enum ButtonView {
    Text(Seq<char>),
    Callback(Seq<char>, Seq<u8>),
    Url(Seq<char>, Seq<char>),
    RequestPhone(Seq<char>),
    RequestGeo(Seq<char>),
    RequestPoll(Seq<char>),
    RequestPeer(Seq<char>),
    Other,
}

/// The mathematical form of a button; every URL-opening kind is a URL button.
pub open spec fn button_view(b: KeyboardButton) -> ButtonView {
    match b {
        KeyboardButton::Text { text } => ButtonView::Text(text@),
        KeyboardButton::Callback { text, data } => ButtonView::Callback(text@, data@),
        KeyboardButton::Url { text, url } => ButtonView::Url(text@, url@),
        KeyboardButton::UrlAuth { text, url } => ButtonView::Url(text@, url@),
        KeyboardButton::WebView { text, url } => ButtonView::Url(text@, url@),
        KeyboardButton::SimpleWebView { text, url } => ButtonView::Url(text@, url@),
        KeyboardButton::RequestPhone { text } => ButtonView::RequestPhone(text@),
        KeyboardButton::RequestGeoLocation { text } => ButtonView::RequestGeo(text@),
        KeyboardButton::RequestPoll { text } => ButtonView::RequestPoll(text@),
        KeyboardButton::RequestPeer { text } => ButtonView::RequestPeer(text@),
        KeyboardButton::Other => ButtonView::Other,
    }
}

/// The rows of a keyboard, button by button.
pub open spec fn rows_view(rows: Seq<Vec<KeyboardButton>>) -> Seq<Seq<ButtonView>> {
    Seq::new(rows.len(), |i: int| Seq::new(rows[i]@.len(), |j: int| button_view(rows[i]@[j])))
}

/// Why a phone-request button cannot be pressed.
pub open spec fn phone_reason() -> Seq<char> {
    "reply keyboard phone requests require contact-sharing support, which telegram-agent-cli does not automate yet"@
}

/// Why a location-request button cannot be pressed.
pub open spec fn geo_reason() -> Seq<char> {
    "reply keyboard geo requests require location input, which telegram-agent-cli does not automate yet"@
}

/// Why a poll-request button cannot be pressed.
pub open spec fn poll_reason() -> Seq<char> {
    "reply keyboard poll requests require poll creation, which telegram-agent-cli does not automate yet"@
}

/// Why a peer-request button cannot be pressed.
pub open spec fn peer_reason() -> Seq<char> {
    "reply keyboard peer requests require peer-selection input, which telegram-agent-cli does not automate yet"@
}

/// The action of an inline-keyboard button, if it has one.
pub open spec fn spec_inline_button_action(message_id: int, b: ButtonView) -> Option<ActionView> {
    match b {
        ButtonView::Callback(text, data) => Some(spec_inline_callback(message_id, text, data)),
        ButtonView::Url(text, url) => Some(spec_inline_url(message_id, text, url)),
        _ => None,
    }
}

/// The action of a reply-keyboard button, if it has one.
pub open spec fn spec_reply_button_action(message_id: int, b: ButtonView) -> Option<ActionView> {
    match b {
        ButtonView::Text(text) => Some(spec_reply_text(message_id, text)),
        ButtonView::RequestPhone(text) => Some(
            spec_unsupported_reply(message_id, InteractiveActionKind::ReplyKeyboardRequestPhone, text, phone_reason()),
        ),
        ButtonView::RequestGeo(text) => Some(
            spec_unsupported_reply(message_id, InteractiveActionKind::ReplyKeyboardRequestGeo, text, geo_reason()),
        ),
        ButtonView::RequestPoll(text) => Some(
            spec_unsupported_reply(message_id, InteractiveActionKind::ReplyKeyboardRequestPoll, text, poll_reason()),
        ),
        ButtonView::RequestPeer(text) => Some(
            spec_unsupported_reply(message_id, InteractiveActionKind::ReplyKeyboardRequestPeer, text, peer_reason()),
        ),
        _ => None,
    }
}

/// The present values, in order.
pub open spec fn somes(s: Seq<Option<ActionView>>) -> Seq<ActionView>
    decreases s.len(),
{
    if s.len() == 0 {
        Seq::empty()
    } else {
        somes(s.drop_last()) + match s.last() {
            Some(a) => seq![a],
            None => Seq::empty(),
        }
    }
}

/// The actions of keyboard rows, row by row and button by button.
pub open spec fn rows_actions(message_id: int, rows: Seq<Seq<ButtonView>>, inline: bool) -> Seq<ActionView>
    decreases rows.len(),
{
    if rows.len() == 0 {
        Seq::empty()
    } else {
        rows_actions(message_id, rows.drop_last(), inline) + somes(
            Seq::new(
                rows.last().len(),
                |j: int|
                    if inline {
                        spec_inline_button_action(message_id, rows.last()[j])
                    } else {
                        spec_reply_button_action(message_id, rows.last()[j])
                    },
            ),
        )
    }
}

/// The actions a message's keyboard offers.
pub open spec fn spec_markup_actions(message_id: int, markup: Option<MessageMarkup>) -> Seq<ActionView> {
    match markup {
        Some(MessageMarkup::Inline { rows }) => rows_actions(message_id, rows_view(rows@), true),
        Some(MessageMarkup::Keyboard { rows }) => rows_actions(message_id, rows_view(rows@), false),
        _ => Seq::empty(),
    }
}

/// The action of an inline-keyboard button, if it has one.
pub fn inline_action_from_button(message_id: i64, button: &KeyboardButton) -> (r: Option<InteractiveAction>)
    ensures
        match r {
            Some(a) => spec_inline_button_action(message_id as int, button_view(*button)) == Some(action_view(a)),
            None => spec_inline_button_action(message_id as int, button_view(*button)) is None,
        },
{
    match button {
        KeyboardButton::Callback { text, data } => Some(inline_callback_action(message_id, text.as_str(), data.as_slice())),
        KeyboardButton::Url { text, url } => Some(inline_url_action(message_id, text.as_str(), url.as_str())),
        KeyboardButton::UrlAuth { text, url } => Some(inline_url_action(message_id, text.as_str(), url.as_str())),
        KeyboardButton::WebView { text, url } => Some(inline_url_action(message_id, text.as_str(), url.as_str())),
        KeyboardButton::SimpleWebView { text, url } => Some(inline_url_action(message_id, text.as_str(), url.as_str())),
        _ => None,
    }
}

/// The action of a reply-keyboard button, if it has one.
pub fn reply_action_from_button(message_id: i64, button: &KeyboardButton) -> (r: Option<InteractiveAction>)
    ensures
        match r {
            Some(a) => spec_reply_button_action(message_id as int, button_view(*button)) == Some(action_view(a)),
            None => spec_reply_button_action(message_id as int, button_view(*button)) is None,
        },
{
    match button {
        KeyboardButton::Text { text } => Some(reply_keyboard_text_action(message_id, text.as_str())),
        KeyboardButton::RequestPhone { text } => Some(unsupported_reply_action(
            message_id,
            InteractiveActionKind::ReplyKeyboardRequestPhone,
            text.as_str(),
            "reply keyboard phone requests require contact-sharing support, which telegram-agent-cli does not automate yet",
        )),
        KeyboardButton::RequestGeoLocation { text } => Some(unsupported_reply_action(
            message_id,
            InteractiveActionKind::ReplyKeyboardRequestGeo,
            text.as_str(),
            "reply keyboard geo requests require location input, which telegram-agent-cli does not automate yet",
        )),
        KeyboardButton::RequestPoll { text } => Some(unsupported_reply_action(
            message_id,
            InteractiveActionKind::ReplyKeyboardRequestPoll,
            text.as_str(),
            "reply keyboard poll requests require poll creation, which telegram-agent-cli does not automate yet",
        )),
        KeyboardButton::RequestPeer { text } => Some(unsupported_reply_action(
            message_id,
            InteractiveActionKind::ReplyKeyboardRequestPeer,
            text.as_str(),
            "reply keyboard peer requests require peer-selection input, which telegram-agent-cli does not automate yet",
        )),
        _ => None,
    }
}

/// The mathematical forms of a list of actions.
pub open spec fn views_of(actions: Seq<InteractiveAction>) -> Seq<ActionView> {
    Seq::new(actions.len(), |i: int| action_view(actions[i]))
}

/// `views_of` of a pushed sequence.
pub proof fn lemma_views_of_push(v: Seq<InteractiveAction>, x: InteractiveAction)
    ensures
        views_of(v.push(x)) == views_of(v).push(action_view(x)),
{
    assert(views_of(v.push(x)) =~= views_of(v).push(action_view(x)));
}

/// Appends the actions of keyboard rows.
fn push_rows_actions(message_id: i64, rows: &Vec<Vec<KeyboardButton>>, inline: bool, out: &mut Vec<InteractiveAction>)
    ensures
        views_of(final(out)@) == views_of(old(out)@) + rows_actions(message_id as int, rows_view(rows@), inline),
{
    let ghost start = views_of(out@);
    let ghost rv = rows_view(rows@);
    let mut i: usize = 0;
    assert(start + rows_actions(message_id as int, rv.subrange(0, 0), inline) =~= start);
    while i < rows.len()
        invariant
            rv == rows_view(rows@),
            i <= rows@.len(),
            views_of(out@) == start + rows_actions(message_id as int, rv.subrange(0, i as int), inline),
        decreases rows@.len() - i,
    {
        let row = &rows[i];
        let ghost row_v = rv[i as int];
        let ghost before_row = views_of(out@);
        let ghost opts = Seq::new(
            row_v.len(),
            |j: int|
                if inline {
                    spec_inline_button_action(message_id as int, row_v[j])
                } else {
                    spec_reply_button_action(message_id as int, row_v[j])
                },
        );
        let mut j: usize = 0;
        assert(before_row + somes(opts.subrange(0, 0)) =~= before_row);
        while j < row.len()
            invariant
                rv == rows_view(rows@),
                i < rows@.len(),
                row == rows@[i as int],
                row_v == rv[i as int],
                opts.len() == row_v.len(),
                opts == Seq::new(
                    row_v.len(),
                    |k: int|
                        if inline {
                            spec_inline_button_action(message_id as int, row_v[k])
                        } else {
                            spec_reply_button_action(message_id as int, row_v[k])
                        },
                ),
                j <= row@.len(),
                views_of(out@) == before_row + somes(opts.subrange(0, j as int)),
            decreases row@.len() - j,
        {
            assert(row_v[j as int] == button_view(row@[j as int]));
            let a = if inline {
                inline_action_from_button(message_id, &row[j])
            } else {
                reply_action_from_button(message_id, &row[j])
            };
            assert(opts.subrange(0, j + 1).drop_last() =~= opts.subrange(0, j as int));
            assert(opts.subrange(0, j + 1).last() == opts[j as int]);
            match a {
                Some(action) => {
                    assert(opts[j as int] == Some(action_view(action)));
                    let ghost s1 = opts.subrange(0, j + 1);
                    assert(somes(s1) == somes(s1.drop_last()) + seq![action_view(action)]);
                    proof {
                        lemma_views_of_push(out@, action);
                    }
                    out.push(action);
                    assert(views_of(out@) =~= before_row + somes(opts.subrange(0, j + 1)));
                },
                None => {
                    let ghost s1 = opts.subrange(0, j + 1);
                    assert(somes(s1) == somes(s1.drop_last()));
                    assert(views_of(out@) =~= before_row + somes(opts.subrange(0, j + 1)));
                },
            }
            j = j + 1;
        }
        assert(opts.subrange(0, row@.len() as int) =~= opts);
        assert(rv.subrange(0, i + 1).drop_last() =~= rv.subrange(0, i as int));
        assert(rv.subrange(0, i + 1).last() == row_v);
        i = i + 1;
        assert(views_of(out@) =~= start + rows_actions(message_id as int, rv.subrange(0, i as int), inline));
    }
    assert(rv.subrange(0, rows@.len() as int) =~= rv);
}

/// The actions a message's keyboard offers: every callback and URL button of
/// an inline keyboard, every button of a reply keyboard (special requests marked
/// unsupported), in row order.
pub fn actions_from_reply_markup(message_id: i64, reply_markup: &Option<MessageMarkup>) -> (r: Vec<InteractiveAction>)
    ensures
        views_of(r@) == spec_markup_actions(message_id as int, *reply_markup),
{
    let mut out: Vec<InteractiveAction> = Vec::new();
    assert(views_of(out@) =~= Seq::<ActionView>::empty());
    match reply_markup {
        Some(MessageMarkup::Inline { rows }) => {
            push_rows_actions(message_id, rows, true, &mut out);
        },
        Some(MessageMarkup::Keyboard { rows }) => {
            push_rows_actions(message_id, rows, false, &mut out);
        },
        _ => {},
    }
    assert(views_of(out@) =~= spec_markup_actions(message_id as int, *reply_markup));
    out
}

// ---------------------------------------------------------------------------
// Finding a callback button
// ---------------------------------------------------------------------------

/// Whether a callback button answers to a query: by its text, its raw data, or
/// its data in URL-safe base64.
pub open spec fn spec_callback_matches(text: Seq<char>, data: Seq<u8>, query: Seq<char>) -> bool {
    ||| text == query
    ||| data == vstd::utf8::encode_utf8(query)
    ||| (spec_base64url_decode(query) is Ok && spec_base64url_decode(query)->Ok_0 == data)
}

/// Whether a callback button answers to a query.
pub fn callback_button_matches(text: &str, data: &[u8], button_query: &str) -> (r: bool)
    ensures
        r == spec_callback_matches(text@, data@, button_query@),
{
    if str_eq(text, button_query) || bytes_eq(data, button_query.as_bytes()) {
        return true;
    }
    match base64url_decode(button_query) {
        Ok(decoded) => bytes_eq(decoded.as_slice(), data),
        Err(_) => false,
    }
}

/// The data of the first callback button, row by row, that answers to the
/// query, in an inline keyboard.
pub open spec fn first_callback_in_rows(rows: Seq<Seq<ButtonView>>, query: Seq<char>) -> Option<Seq<u8>>
    decreases rows.len(),
{
    if rows.len() == 0 {
        None
    } else {
        match first_callback_in_row(rows[0], query) {
            Some(d) => Some(d),
            None => first_callback_in_rows(rows.subrange(1, rows.len() as int), query),
        }
    }
}

/// The data of the first callback button of a row that answers to the query.
pub open spec fn first_callback_in_row(row: Seq<ButtonView>, query: Seq<char>) -> Option<Seq<u8>>
    decreases row.len(),
{
    if row.len() == 0 {
        None
    } else {
        match row[0] {
            ButtonView::Callback(text, data) => if spec_callback_matches(text, data, query) {
                Some(data)
            } else {
                first_callback_in_row(row.subrange(1, row.len() as int), query)
            },
            _ => first_callback_in_row(row.subrange(1, row.len() as int), query),
        }
    }
}

/// The callback data a query picks in a message's keyboard, if it is inline.
pub open spec fn spec_find_callback(markup: Option<MessageMarkup>, query: Seq<char>) -> Option<Seq<u8>> {
    match markup {
        Some(MessageMarkup::Inline { rows }) => first_callback_in_rows(rows_view(rows@), query),
        _ => None,
    }
}

/// The callback data of the first button of an inline keyboard that answers to
/// the query; nothing for other keyboards.
pub fn find_callback_data_in_markup(reply_markup: &Option<MessageMarkup>, button_query: &str) -> (r: Option<Vec<u8>>)
    ensures
        match spec_find_callback(*reply_markup, button_query@) {
            Some(d) => r is Some && r->0@ == d,
            None => r is None,
        },
{
    let rows = match reply_markup {
        Some(MessageMarkup::Inline { rows }) => rows,
        _ => {
            return None;
        },
    };
    let ghost rv = rows_view(rows@);
    let ghost q = button_query@;
    let mut i: usize = 0;
    assert(rv.subrange(0, rv.len() as int) =~= rv);
    while i < rows.len()
        invariant
            rv == rows_view(rows@),
            *reply_markup == Some(MessageMarkup::Inline { rows: *rows }),
            i <= rows@.len(),
            q == button_query@,
            first_callback_in_rows(rv, q) == first_callback_in_rows(rv.subrange(i as int, rv.len() as int), q),
        decreases rows@.len() - i,
    {
        let row = &rows[i];
        let ghost row_v = rv[i as int];
        let ghost rest = rv.subrange(i as int, rv.len() as int);
        assert(rest[0] == row_v);
        assert(rest.subrange(1, rest.len() as int) =~= rv.subrange(i + 1, rv.len() as int));
        let mut j: usize = 0;
        assert(row_v.subrange(0, row_v.len() as int) =~= row_v);
        while j < row.len()
            invariant
                rv == rows_view(rows@),
                i < rows@.len(),
                row == rows@[i as int],
                row_v == rv[i as int],
                row_v.len() == row@.len(),
                j <= row@.len(),
                q == button_query@,
                *reply_markup == Some(MessageMarkup::Inline { rows: *rows }),
                rest == rv.subrange(i as int, rv.len() as int),
                rest[0] == row_v,
                rest.len() > 0,
                first_callback_in_rows(rv, q) == first_callback_in_rows(rest, q),
                first_callback_in_row(row_v, q) == first_callback_in_row(row_v.subrange(j as int, row_v.len() as int), q),
            decreases row@.len() - j,
        {
            let ghost here = row_v.subrange(j as int, row_v.len() as int);
            assert(here[0] == row_v[j as int]);
            assert(here.subrange(1, here.len() as int) =~= row_v.subrange(j + 1, row_v.len() as int));
            assert(row_v[j as int] == button_view(row@[j as int]));
            match &row[j] {
                KeyboardButton::Callback { text, data } => {
                    if callback_button_matches(text.as_str(), data.as_slice(), button_query) {
                        return Some(bytes_to_vec(data.as_slice()));
                    }
                },
                _ => {},
            }
            j = j + 1;
        }
        assert(row_v.subrange(j as int, row_v.len() as int) =~= Seq::<ButtonView>::empty());
        i = i + 1;
    }
    assert(rv.subrange(i as int, rv.len() as int) =~= Seq::<Seq<ButtonView>>::empty());
    None
}

// ---------------------------------------------------------------------------
// Bot profiles
// ---------------------------------------------------------------------------

/// What a bot profile advertises: its user id, its commands and its menu button.
#[derive(Debug, Clone, PartialEq, Eq)]
pub struct BotInfo {
    pub user_id: Option<i64>,
    pub commands: Option<Vec<BotCommandInfo>>,
    pub menu_button: Option<BotMenuButton>,
}

/// One advertised bot command.
#[derive(Debug, Clone, PartialEq, Eq)]
pub struct BotCommandInfo {
    pub command: String,
    pub description: String,
}

/// A bot menu button that opens a URL.
#[derive(Debug, Clone, PartialEq, Eq)]
pub struct BotMenuButton {
    pub text: String,
    pub url: String,
}

/// A user known from the same response: its id and username.
#[derive(Debug, Clone, PartialEq, Eq)]
pub struct KnownUser {
    pub id: i64,
    pub username: Option<String>,
}

/// The username of the first listed user with the id (it may have none).
pub open spec fn spec_lookup_username(users: Seq<KnownUser>, user_id: int) -> Option<Seq<char>>
    decreases users.len(),
{
    if users.len() == 0 {
        None
    } else if users[0].id == user_id {
        ov(users[0].username)
    } else {
        spec_lookup_username(users.subrange(1, users.len() as int), user_id)
    }
}

/// The username of the first listed user with that id.
pub fn lookup_bot_username(users: &[KnownUser], user_id: i64) -> (r: Option<String>)
    ensures
        ov(r) == spec_lookup_username(users@, user_id as int),
{
    let mut i: usize = 0;
    assert(users@.subrange(0, users@.len() as int) =~= users@);
    while i < users.len()
        invariant
            i <= users@.len(),
            spec_lookup_username(users@, user_id as int) == spec_lookup_username(users@.subrange(i as int, users@.len() as int), user_id as int),
        decreases users@.len() - i,
    {
        let ghost rest = users@.subrange(i as int, users@.len() as int);
        assert(rest[0] == users@[i as int]);
        if users[i].id == user_id {
            return crate::telegram::peers::copy_opt(&users[i].username);
        }
        assert(rest.subrange(1, rest.len() as int) =~= users@.subrange(i + 1, users@.len() as int));
        i = i + 1;
    }
    None
}

/// A command as shown for a peer: normalized, and in groups qualified with
/// `@username` when the bot's username is known.
pub open spec fn spec_format_command(command: Seq<char>, bot_username: Option<Seq<char>>, qualify: bool) -> Seq<char> {
    let normalized = spec_normalize_command(command);
    if qualify {
        match bot_username {
            Some(u) => normalized + "@"@ + u,
            None => normalized,
        }
    } else {
        normalized
    }
}

/// A command as shown for a peer.
pub fn format_command_for_peer(command: &str, bot_username: Option<&str>, qualify_commands: bool) -> (r: String)
    ensures
        r@ == spec_format_command(
            command@,
            match bot_username {
                Some(u) => Some(u@),
                None => None,
            },
            qualify_commands,
        ),
{
    let normalized = normalize_command(command);
    if qualify_commands {
        match bot_username {
            Some(username) => concat3(normalized.as_str(), "@", username),
            None => normalized,
        }
    } else {
        normalized
    }
}

/// Why a group command without a known bot username cannot be triggered.
pub open spec fn missing_username_reason() -> Seq<char> {
    "bot commands in group or channel chats require a bot username, but Telegram did not provide one"@
}

/// How a bot is named in action ids: its username, else `bot_<id>`, else `bot`.
pub open spec fn spec_bot_identity(username: Option<Seq<char>>, user_id: Option<i64>) -> Seq<char> {
    match username {
        Some(u) => u,
        None => match user_id {
            Some(id) => "bot_"@ + int_decimal(id as int),
            None => "bot"@,
        },
    }
}

/// The actions a bot profile offers: one per command, then the menu button.
pub open spec fn spec_bot_info_actions(info: BotInfo, users: Seq<KnownUser>, qualify: bool) -> Seq<ActionView> {
    let username = match info.user_id {
        Some(id) => spec_lookup_username(users, id as int),
        None => None,
    };
    let identity = spec_bot_identity(username, info.user_id);
    let supported = !qualify || username is Some;
    let reason: Option<Seq<char>> = if supported { None } else { Some(missing_username_reason()) };
    let commands: Seq<ActionView> = match info.commands {
        Some(cs) => Seq::new(
            cs@.len(),
            |i: int|
                spec_bot_command(
                    identity,
                    spec_format_command(cs@[i].command@, username, qualify),
                    cs@[i].description@,
                    supported,
                    reason,
                ),
        ),
        None => Seq::empty(),
    };
    commands + match info.menu_button {
        Some(b) => seq![spec_bot_menu_url(identity, b.text@, b.url@)],
        None => Seq::empty(),
    }
}

/// The actions a bot profile offers: its commands (qualified with the bot's
/// username in groups, and unsupported there when the username is unknown),
/// then its menu button.
pub fn actions_from_bot_info(bot_info: &BotInfo, users: &[KnownUser], qualify_commands: bool) -> (r: Vec<InteractiveAction>)
    ensures
        views_of(r@) == spec_bot_info_actions(*bot_info, users@, qualify_commands),
{
    let bot_username: Option<String> = match bot_info.user_id {
        Some(id) => lookup_bot_username(users, id),
        None => None,
    };
    let bot_identity: String = match &bot_username {
        Some(u) => owned(u.as_str()),
        None => match bot_info.user_id {
            Some(id) => {
                let n = i64_decimal(id);
                concat2("bot_", n.as_str())
            },
            None => owned("bot"),
        },
    };
    let supported = !qualify_commands || bot_username.is_some();
    let ghost username_v = ov(bot_username);
    let ghost reason_v: Option<Seq<char>> = if supported { None } else { Some(missing_username_reason()) };
    let mut actions: Vec<InteractiveAction> = Vec::new();
    match &bot_info.commands {
        Some(commands) => {
            let mut i: usize = 0;
            while i < commands.len()
                invariant
                    i <= commands@.len(),
                    username_v == ov(bot_username),
                    views_of(actions@) == Seq::new(
                        i as nat,
                        |k: int|
                            spec_bot_command(
                                bot_identity@,
                                spec_format_command(commands@[k].command@, username_v, qualify_commands),
                                commands@[k].description@,
                                supported,
                                reason_v,
                            ),
                    ),
                    supported == (!qualify_commands || username_v is Some),
                    reason_v == if supported { None } else { Some(missing_username_reason()) },
                decreases commands@.len() - i,
            {
                let username_ref: Option<&str> = match &bot_username {
                    Some(u) => Some(u.as_str()),
                    None => None,
                };
                assert(match username_ref {
                    Some(u) => Some(u@),
                    None => None,
                } == username_v);
                let display = format_command_for_peer(commands[i].command.as_str(), username_ref, qualify_commands);
                let reason: Option<String> = if supported {
                    None
                } else {
                    Some(owned("bot commands in group or channel chats require a bot username, but Telegram did not provide one"))
                };
                assert(ov(reason) == reason_v);
                let a = bot_command_action(bot_identity.as_str(), display.as_str(), commands[i].description.as_str(), supported, reason);
                proof {
                    lemma_views_of_push(actions@, a);
                }
                actions.push(a);
                i = i + 1;
                assert(views_of(actions@) =~= Seq::new(
                    i as nat,
                    |k: int|
                        spec_bot_command(
                            bot_identity@,
                            spec_format_command(commands@[k].command@, username_v, qualify_commands),
                            commands@[k].description@,
                            supported,
                            reason_v,
                        ),
                ));
            }
        },
        None => {},
    }
    let ghost cmds = views_of(actions@);
    match &bot_info.menu_button {
        Some(button) => {
            let a = bot_menu_url_action(bot_identity.as_str(), button.text.as_str(), button.url.as_str());
            proof {
                lemma_views_of_push(actions@, a);
            }
            actions.push(a);
            assert(views_of(actions@) =~= cmds.push(spec_bot_menu_url(bot_identity@, button.text@, button.url@)));
        },
        None => {},
    }
    assert(views_of(actions@) =~= spec_bot_info_actions(*bot_info, users@, qualify_commands));
    actions
}

} // verus!
