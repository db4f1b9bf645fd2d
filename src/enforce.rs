//! What to do with one inbound message: which classifier to ask, and, for an
//! unsafe verdict, the ordered enforcement steps and how long a mute lasts.

use vstd::prelude::*;
use crate::classify::{content_type_is_image, names_image};
use crate::decimal::{decimal_text, is_digit, law_decimal_round_trip, parse_u64, push_decimal, u64_of_text};
use crate::policy::{opt_text_view, PolicyUpdate, ServerSettings, SettingsView, updated_view};

verus! {

/// The pause after an enforcement, and the time a warning stays up, in seconds.
pub const GRACE_SECONDS: u64 = 5;

/// The mute length where the policy's duration text cannot be read: ten minutes.
pub const DEFAULT_MUTE_SECONDS: u64 = 600;

/// A file attached to a message.
#[derive(Debug, Clone, PartialEq, Eq)]
pub struct AttachmentInfo {
    pub content_type: Option<String>,
    pub url: String,
}

/// An inbound chat message, as far as moderation reads it.
#[derive(Debug, PartialEq, Eq)]
pub struct InboundMessage {
    pub author_is_bot: bool,
    pub guild_id: Option<u64>,
    pub channel_id: u64,
    pub message_id: u64,
    pub author_id: u64,
    pub content: String,
    pub attachments: Vec<AttachmentInfo>,
}

/// Which check, if any, a message gets.
#[derive(PartialEq, Eq, Structural, Debug, Clone, Copy)]
pub enum Route {
    /// From a bot, or from outside any guild: not moderated.
    Ignore,
    /// The first attachment is not an image: nothing is checked.
    Unchecked,
    /// The first attachment is an image: it alone is classified.
    Image,
    /// No attachment: the text is classified.
    Text,
}

pub open spec fn route_of(m: InboundMessage) -> Route {
    if m.author_is_bot || m.guild_id is None {
        Route::Ignore
    } else if m.attachments@.len() > 0 {
        if names_image(opt_text_view(m.attachments@[0].content_type)) {
            Route::Image
        } else {
            Route::Unchecked
        }
    } else {
        Route::Text
    }
}

/// Decides which check `m` gets. An attachment, when there is one, decides
/// alone: the text of a message with an attachment is never classified.
pub fn route_message(m: &InboundMessage) -> (r: Route)
    ensures
        r == route_of(*m),
{
    if m.author_is_bot || m.guild_id.is_none() {
        return Route::Ignore;
    }
    if m.attachments.len() > 0 {
        let ct = match &m.attachments[0].content_type {
            Some(c) => Some(c.as_str()),
            None => None,
        };
        if content_type_is_image(ct) {
            Route::Image
        } else {
            Route::Unchecked
        }
    } else {
        Route::Text
    }
}

/// One enforcement side effect.
#[derive(Debug, PartialEq, Eq)]
pub enum Step {
    /// Post `text` to the guild's logs channel.
    PostLog { channel_id: u64, text: String },
    /// Post a warning to the author in the message's channel.
    PostWarning { channel_id: u64, text: String },
    /// Delete the offending message.
    DeleteMessage,
    /// Wait before going on.
    Pause { seconds: u64 },
    /// Delete the warning posted before.
    DeleteWarning,
    /// Stop the author from talking for `millis` milliseconds from now.
    Mute { millis: i64 },
}

pub enum StepView {
    PostLog { channel_id: u64, text: Seq<char> },
    PostWarning { channel_id: u64, text: Seq<char> },
    DeleteMessage,
    Pause { seconds: u64 },
    DeleteWarning,
    Mute { millis: i64 },
}

impl View for Step {
    type V = StepView;

    open spec fn view(&self) -> StepView {
        match self {
            Step::PostLog { channel_id, text } => StepView::PostLog {
                channel_id: *channel_id,
                text: text@,
            },
            Step::PostWarning { channel_id, text } => StepView::PostWarning {
                channel_id: *channel_id,
                text: text@,
            },
            Step::DeleteMessage => StepView::DeleteMessage,
            Step::Pause { seconds } => StepView::Pause { seconds: *seconds },
            Step::DeleteWarning => StepView::DeleteWarning,
            Step::Mute { millis } => StepView::Mute { millis: *millis },
        }
    }
}

pub open spec fn step_fatal(s: StepView) -> bool {
    s is Mute
}

impl Step {
    /// Whether a failure of this step ends the enforcement of the message. A
    /// failed post or deletion is logged and passed over; only a failed mute
    /// stops the event.
    pub fn failure_is_fatal(&self) -> (r: bool)
        ensures
            r == step_fatal(self@),
    {
        match self {
            Step::Mute { .. } => true,
            _ => false,
        }
    }
}

pub open spec fn steps_view(v: Seq<Step>) -> Seq<StepView> {
    v.map_values(|s: Step| s@)
}

pub open spec fn image_log_text(message_id: u64) -> Seq<char> {
    "Deleted unsafe image message: "@ + decimal_text(message_id as nat)
}

pub open spec fn text_log_text(message_id: u64, content: Seq<char>) -> Seq<char> {
    "Deleted unsafe message: "@ + decimal_text(message_id as nat) + " with content: "@
        + content
}

pub open spec fn warning_text(author_id: u64) -> Seq<char> {
    "Hey! Don't use that language! <@"@ + decimal_text(author_id as nat) + ">"@
}

/// The log post, where the policy names a logs channel that is a number.
pub open spec fn audit_steps(logs_channel_id: Option<Seq<char>>, text: Seq<char>) -> Seq<
    StepView,
> {
    match logs_channel_id {
        Some(c) => match u64_of_text(c) {
            Some(id) => seq![StepView::PostLog { channel_id: id, text }],
            None => seq![],
        },
        None => seq![],
    }
}

/// An unsafe image: log, delete, then pause.
pub open spec fn image_plan(s: SettingsView, message_id: u64) -> Seq<StepView> {
    audit_steps(s.logs_channel_id, image_log_text(message_id)) + seq![
        StepView::DeleteMessage,
        StepView::Pause { seconds: 5 },
    ]
}

/// Unsafe text: log, warn, wait, remove the warning, delete the message, and
/// mute where the policy asks for it and the length can be had.
pub open spec fn text_plan(
    s: SettingsView,
    message_id: u64,
    channel_id: u64,
    author_id: u64,
    content: Seq<char>,
    mute_millis: Option<i64>,
) -> Seq<StepView> {
    audit_steps(s.logs_channel_id, text_log_text(message_id, content)) + seq![
        StepView::PostWarning { channel_id, text: warning_text(author_id) },
        StepView::Pause { seconds: 5 },
        StepView::DeleteWarning,
        StepView::DeleteMessage,
    ] + if s.mute_enabled && mute_millis is Some {
        seq![StepView::Mute { millis: mute_millis.unwrap() }]
    } else {
        seq![]
    }
}

fn push_audit(steps: &mut Vec<Step>, logs_channel_id: &Option<String>, text: String)
    ensures
        steps_view(final(steps)@) =~= steps_view(old(steps)@) + audit_steps(
            opt_text_view(*logs_channel_id),
            text@,
        ),
{
    let ghost before = steps@;
    match logs_channel_id {
        Some(c) => match parse_u64(c.as_str()) {
            Some(id) => {
                steps.push(Step::PostLog { channel_id: id, text });
                assert(steps_view(steps@) =~= steps_view(before).push(
                    StepView::PostLog { channel_id: id, text: text@ },
                ));
            },
            None => {},
        },
        None => {},
    }
}

/// The steps for an image that was classified unsafe.
pub fn image_steps(settings: &ServerSettings, message_id: u64) -> (r: Vec<Step>)
    ensures
        steps_view(r@) == image_plan(settings@, message_id),
{
    let mut steps: Vec<Step> = Vec::new();
    let mut text = String::from_str("Deleted unsafe image message: ");
    push_decimal(&mut text, message_id);
    push_audit(&mut steps, &settings.logs_channel_id, text);
    let ghost audited = steps@;
    steps.push(Step::DeleteMessage);
    steps.push(Step::Pause { seconds: GRACE_SECONDS });
    assert(steps_view(steps@) =~= steps_view(audited) + seq![
        StepView::DeleteMessage,
        StepView::Pause { seconds: 5 },
    ]);
    steps
}

/// The steps for a text message that was classified unsafe, given the mute
/// length in milliseconds (`None` where it could not be had).
pub fn text_steps_with(
    settings: &ServerSettings,
    message_id: u64,
    channel_id: u64,
    author_id: u64,
    content: &str,
    mute_millis: Option<i64>,
) -> (r: Vec<Step>)
    ensures
        steps_view(r@) == text_plan(
            settings@,
            message_id,
            channel_id,
            author_id,
            content@,
            mute_millis,
        ),
{
    let mut steps: Vec<Step> = Vec::new();
    let mut log = String::from_str("Deleted unsafe message: ");
    push_decimal(&mut log, message_id);
    log.append(" with content: ");
    log.append(content);
    push_audit(&mut steps, &settings.logs_channel_id, log);
    let ghost audited = steps@;
    let mut warning = String::from_str("Hey! Don't use that language! <@");
    push_decimal(&mut warning, author_id);
    warning.append(">");
    steps.push(Step::PostWarning { channel_id, text: warning });
    steps.push(Step::Pause { seconds: GRACE_SECONDS });
    steps.push(Step::DeleteWarning);
    steps.push(Step::DeleteMessage);
    let ghost warned = steps@;
    assert(steps_view(warned) =~= steps_view(audited) + seq![
        StepView::PostWarning { channel_id, text: warning_text(author_id) },
        StepView::Pause { seconds: 5 },
        StepView::DeleteWarning,
        StepView::DeleteMessage,
    ]);
    if settings.mute_enabled {
        match mute_millis {
            Some(ms) => {
                steps.push(Step::Mute { millis: ms });
                assert(steps_view(steps@) =~= steps_view(warned) + seq![
                    StepView::Mute { millis: ms },
                ]);
            },
            None => {
                assert(steps_view(steps@) =~= steps_view(warned) + seq![]);
            },
        }
    } else {
        assert(steps_view(steps@) =~= steps_view(warned) + seq![]);
    }
    steps
}

/// What `parse_duration::parse` reads from a duration text: whole seconds and
/// the nanoseconds past them, or `None` where the text is not a duration.
pub uninterp spec fn parsed_duration(text: Seq<char>) -> Option<(u64, u32)>;

/// An exponent in a duration text (`1e3s`, `2E+4m`): an `e` or `E` followed by a
/// digit, or by a sign and a digit.
pub open spec fn exponent_at(t: Seq<char>, i: int) -> bool {
    &&& 0 <= i
    &&& i + 1 < t.len()
    &&& (t[i] == 'e' || t[i] == 'E')
    &&& (is_digit(t[i + 1]) || ((t[i + 1] == '+' || t[i + 1] == '-') && i + 2 < t.len()
        && is_digit(t[i + 2])))
}

pub open spec fn has_exponent(t: Seq<char>) -> bool {
    exists|i: int| exponent_at(t, i)
}

/// Whether `text` holds an exponent; such a duration text is not read, as its
/// value could be too large to compute.
pub fn contains_exponent(text: &str) -> (r: bool)
    ensures
        r == has_exponent(text@),
{
    let n = text.unicode_len();
    let mut i: usize = 0;
    while i < n
        invariant
            n == text@.len(),
            i <= n,
            forall|k: int| 0 <= k < i ==> !exponent_at(text@, k),
        decreases n - i,
    {
        let c = text.get_char(i);
        if (c == 'e' || c == 'E') && i + 1 < n {
            let d = text.get_char(i + 1);
            if '0' <= d && d <= '9' {
                assert(exponent_at(text@, i as int));
                return true;
            }
            if (d == '+' || d == '-') && i + 2 < n {
                let d2 = text.get_char(i + 2);
                if '0' <= d2 && d2 <= '9' {
                    assert(exponent_at(text@, i as int));
                    return true;
                }
            }
        }
        i = i + 1;
    }
    assert forall|k: int| !exponent_at(text@, k) by {
        if 0 <= k < i {
        }
    }
    false
}

/// Relies on `parse_duration::parse`: the duration that a text such as `10m`
/// or `1h 30m` denotes. Its result depends on the text alone, and a
/// `std::time::Duration` keeps its nanoseconds below one second. A text with an
/// exponent is left out: `parse` raises ten to it and may not return.
#[verifier::external_body]
fn parse_duration_text(text: &str) -> (r: Option<(u64, u32)>)
    requires
        !has_exponent(text@),
    ensures
        r == parsed_duration(text@),
        r matches Some(d) ==> d.1 < 1_000_000_000,
{
    match parse_duration::parse(text) {
        Ok(d) => Some((d.as_secs(), d.subsec_nanos())),
        Err(_) => None,
    }
}

/// The largest millisecond timestamp that a `chrono::DateTime<Utc>` holds: the
/// last millisecond of the year 262142, with room for a leap second.
pub const MAX_NOW_MILLIS: i64 = 8_210_266_876_800_999;

/// Relies on `chrono::Utc::now` and `DateTime::timestamp_millis`: the time now,
/// in milliseconds since the Unix epoch. `Utc::now` measures from the epoch and
/// does not return a time before it, and what it returns is a `DateTime<Utc>`,
/// which ends with the year 262142.
#[verifier::external_body]
fn now_millis() -> (r: i64)
    ensures
        0 <= r <= MAX_NOW_MILLIS,
{
    chrono::Utc::now().timestamp_millis()
}

pub open spec fn duration_or_default(parsed: Option<(u64, u32)>) -> (u64, u32) {
    match parsed {
        Some(d) => d,
        None => (DEFAULT_MUTE_SECONDS, 0),
    }
}

/// A duration in whole milliseconds, where that fits in an `i64`.
pub open spec fn millis_of(d: (u64, u32)) -> Option<i64> {
    let ms = d.0 as int * 1000 + d.1 as int / 1_000_000;
    if ms <= i64::MAX {
        Some(ms as i64)
    } else {
        None
    }
}

/// The mute duration from what the duration text parsed to: ten minutes where
/// it did not parse.
pub fn mute_duration_or_default(parsed: Option<(u64, u32)>) -> (r: (u64, u32))
    ensures
        r == duration_or_default(parsed),
{
    match parsed {
        Some(d) => d,
        None => (DEFAULT_MUTE_SECONDS, 0),
    }
}

/// A duration of `secs` seconds and `nanos` nanoseconds in whole milliseconds;
/// `None` past `i64::MAX` milliseconds, the longest span that a timestamp
/// offset can hold.
pub fn duration_millis(secs: u64, nanos: u32) -> (r: Option<i64>)
    ensures
        r == millis_of((secs, nanos)),
{
    let limit: u64 = (i64::MAX as u64) / 1000;
    if secs > limit {
        return None;
    }
    let whole: u64 = secs * 1000;
    let extra: u64 = (nanos / 1_000_000) as u64;
    if whole > i64::MAX as u64 - extra {
        return None;
    }
    Some((whole + extra) as i64)
}

/// What a policy's duration text reads as: nothing where it holds an exponent.
pub open spec fn mute_time_reading(t: Seq<char>) -> Option<(u64, u32)> {
    if has_exponent(t) {
        None
    } else {
        parsed_duration(t)
    }
}

/// The mute length in milliseconds for a policy's duration text; a text that
/// does not read as a duration, or holds an exponent, gives ten minutes.
pub fn mute_length_millis(mute_time: &str) -> (r: Option<i64>)
    ensures
        r == millis_of(duration_or_default(mute_time_reading(mute_time@))),
{
    let parsed = if contains_exponent(mute_time) {
        None
    } else {
        parse_duration_text(mute_time)
    };
    let d = mute_duration_or_default(parsed);
    duration_millis(d.0, d.1)
}

/// The instant a mute of `length_millis` that starts at `now_millis` ends;
/// `None` where it is past the range of an `i64`.
pub fn mute_until(now_millis: i64, length_millis: i64) -> (r: Option<i64>)
    requires
        length_millis >= 0,
    ensures
        r == (if now_millis + length_millis <= i64::MAX {
            Some((now_millis + length_millis) as i64)
        } else {
            None
        }),
{
    now_millis.checked_add(length_millis)
}

/// The instant a mute of `length_millis` that starts now ends; it is there
/// whenever the length leaves room for any time that the clock can read.
pub fn mute_until_now(length_millis: i64) -> (r: Option<i64>)
    requires
        length_millis >= 0,
    ensures
        r matches Some(t) ==> t >= length_millis,
        length_millis <= i64::MAX - MAX_NOW_MILLIS ==> r is Some,
{
    mute_until(now_millis(), length_millis)
}

/// The steps for a text message that was classified unsafe; the mute length
/// comes from the policy's duration text.
pub fn text_steps(
    settings: &ServerSettings,
    message_id: u64,
    channel_id: u64,
    author_id: u64,
    content: &str,
) -> (r: Vec<Step>)
    ensures
        steps_view(r@) == text_plan(
            settings@,
            message_id,
            channel_id,
            author_id,
            content@,
            millis_of(duration_or_default(mute_time_reading(settings.mute_time@))),
        ),
{
    let mute_millis = if settings.mute_enabled {
        mute_length_millis(settings.mute_time.as_str())
    } else {
        None
    };
    proof {
        if !settings.mute_enabled {
            assert(text_plan(settings@, message_id, channel_id, author_id, content@, mute_millis)
                =~= text_plan(
                settings@,
                message_id,
                channel_id,
                author_id,
                content@,
                millis_of(duration_or_default(mute_time_reading(settings.mute_time@))),
            ));
        }
    }
    text_steps_with(settings, message_id, channel_id, author_id, content, mute_millis)
}

/// The steps for message `m`, routed to `route`, once its classifier said
/// `safe`. A safe verdict, or a route with no check, gives no step.
pub fn enforcement_steps(m: &InboundMessage, route: Route, safe: bool, settings: &ServerSettings) -> (r: Vec<Step>)
    ensures
        steps_view(r@) == (if safe {
            Seq::empty()
        } else {
            match route {
                Route::Image => image_plan(settings@, m.message_id),
                Route::Text => text_plan(
                    settings@,
                    m.message_id,
                    m.channel_id,
                    m.author_id,
                    m.content@,
                    millis_of(duration_or_default(mute_time_reading(settings.mute_time@))),
                ),
                _ => Seq::empty(),
            }
        }),
{
    if safe {
        let r: Vec<Step> = Vec::new();
        assert(steps_view(r@) =~= Seq::empty());
        return r;
    }
    match route {
        Route::Image => image_steps(settings, m.message_id),
        Route::Text => text_steps(
            settings,
            m.message_id,
            m.channel_id,
            m.author_id,
            m.content.as_str(),
        ),
        _ => {
            let r: Vec<Step> = Vec::new();
            assert(steps_view(r@) =~= Seq::empty());
            r
        },
    }
}

/// An unsafe image is never met with a mute: its plan is at most one log post,
/// then exactly one deletion, then a five-second pause. The log post is there
/// exactly when the policy names a logs channel that is a number.
pub proof fn law_image_plan_shape(s: SettingsView, message_id: u64)
    ensures
        forall|i: int|
            0 <= i < image_plan(s, message_id).len() ==> !(#[trigger] image_plan(
                s,
                message_id,
            )[i] is Mute),
        forall|i: int|
            0 <= i < image_plan(s, message_id).len() ==> (#[trigger] image_plan(s, message_id)[i]
                is DeleteMessage <==> i == image_plan(s, message_id).len() - 2),
        image_plan(s, message_id).last() == (StepView::Pause { seconds: 5 }),
        image_plan(s, message_id).len() == 2 + audit_steps(
            s.logs_channel_id,
            image_log_text(message_id),
        ).len(),
        image_plan(s, message_id).len() == 3 <==> (s.logs_channel_id matches Some(c)
            && u64_of_text(c) is Some),
        image_plan(s, message_id).len() == 3 ==> image_plan(s, message_id)[0] is PostLog,
{
    let a = audit_steps(s.logs_channel_id, image_log_text(message_id));
    let p = image_plan(s, message_id);
    assert(a.len() <= 1);
    assert forall|i: int| 0 <= i < p.len() implies !(#[trigger] p[i] is Mute) && (p[i]
        is DeleteMessage <==> i == p.len() - 2) by {
        if i < a.len() {
            assert(p[i] == a[i]);
        }
    }
}

/// For unsafe text, the warning goes up, stays five seconds, comes down, and
/// only then is the message deleted; a mute, where the policy enables it and
/// its length fits in milliseconds, comes last. A duration text that does not
/// parse mutes for ten minutes.
pub proof fn law_text_plan_order(
    s: SettingsView,
    message_id: u64,
    channel_id: u64,
    author_id: u64,
    content: Seq<char>,
)
    ensures
        ({
            let mute = millis_of(duration_or_default(mute_time_reading(s.mute_time)));
            let p = text_plan(s, message_id, channel_id, author_id, content, mute);
            let k = audit_steps(s.logs_channel_id, text_log_text(message_id, content)).len() as int;
            &&& p[k] == (StepView::PostWarning { channel_id, text: warning_text(author_id) })
            &&& p[k + 1] == (StepView::Pause { seconds: 5 })
            &&& p[k + 2] == StepView::DeleteWarning
            &&& p[k + 3] == StepView::DeleteMessage
            &&& (s.mute_enabled && mute is Some ==> p.len() == k + 5 && p[k + 4] == (
            StepView::Mute { millis: mute.unwrap() }))
            &&& (!(s.mute_enabled && mute is Some) ==> p.len() == k + 4)
            &&& (s.mute_enabled && mute_time_reading(s.mute_time) is None ==> p[k + 4]
                == (StepView::Mute { millis: 600_000 }))
        }),
{
    let mute = millis_of(duration_or_default(mute_time_reading(s.mute_time)));
    let a = audit_steps(s.logs_channel_id, text_log_text(message_id, content));
    let mid = seq![
        StepView::PostWarning { channel_id, text: warning_text(author_id) },
        StepView::Pause { seconds: 5 },
        StepView::DeleteWarning,
        StepView::DeleteMessage,
    ];
    let tail = if s.mute_enabled && mute is Some {
        seq![StepView::Mute { millis: mute.unwrap() }]
    } else {
        seq![]
    };
    let p = text_plan(s, message_id, channel_id, author_id, content, mute);
    let k = a.len() as int;
    assert(p == a + mid + tail);
    assert(p[k] == mid[0]);
    assert(p[k + 1] == mid[1]);
    assert(p[k + 2] == mid[2]);
    assert(p[k + 3] == mid[3]);
    if mute_time_reading(s.mute_time) is None {
        assert(mute == Some(600_000i64));
    }
    if s.mute_enabled && mute is Some {
        assert(p[k + 4] == tail[0]);
    }
}

/// A logs channel set through an update is the channel that the log post of a
/// later enforcement goes to.
pub proof fn law_logs_channel_update_is_audited(s: SettingsView, channel: u64, text: Seq<char>)
    ensures
        audit_steps(updated_view(s, PolicyUpdate::LogsChannel(channel)).logs_channel_id, text)
            == seq![StepView::PostLog { channel_id: channel, text }],
{
    law_decimal_round_trip(channel);
}

} // verus!
