//! The status line: pulse and age of the reading, with alert markers.

use vstd::prelude::*;
use crate::decimal::{decimal, decimal_string, digit_char, is_digit, lemma_decimal_is_digits};

verus! {

/// Pulse, in beats per minute, from which the pulse field is marked.
pub const BPM_ALERT_THRESHOLD: u8 = 80;

/// Age of a reading, in minutes, from which the age field is marked.
pub const MINUTES_THRESHOLD: u64 = 60;

/// A pulse and the age of its reading.
#[derive(Clone, Copy, Debug, PartialEq, Eq)]
pub struct HeartData {
    /// Beats per minute.
    pub bpm: u8,
    /// Whole minutes since the reading was taken.
    pub minutes_ago: u64,
}

/// The values from which a field of the status line is marked. A field is
/// marked when its value is at or above its threshold.
#[derive(Clone, Copy, Debug, PartialEq, Eq)]
pub struct AlertThresholds {
    /// Threshold of the pulse, in beats per minute.
    pub bpm: u8,
    /// Threshold of the age, in minutes.
    pub minutes: u64,
}

impl AlertThresholds {
    /// The thresholds of the status line: `BPM_ALERT_THRESHOLD` and
    /// `MINUTES_THRESHOLD`.
    pub open spec fn standard() -> AlertThresholds {
        AlertThresholds { bpm: BPM_ALERT_THRESHOLD, minutes: MINUTES_THRESHOLD }
    }
}

impl Default for AlertThresholds {
    fn default() -> (r: AlertThresholds)
        ensures
            r == AlertThresholds::standard(),
    {
        AlertThresholds { bpm: BPM_ALERT_THRESHOLD, minutes: MINUTES_THRESHOLD }
    }
}

/// What opens a marked field.
pub open spec fn alert_open() -> Seq<char> {
    ">>>>> "@
}

/// What closes a marked field.
pub open spec fn alert_close() -> Seq<char> {
    " <<<<<"@
}

/// What stands between the two fields of the status line.
pub open spec fn field_separator() -> Seq<char> {
    " | "@
}

/// `content` between the alert markers.
pub open spec fn alert_text(content: Seq<char>) -> Seq<char> {
    alert_open() + content + alert_close()
}

/// Whether `text` occurs in `line`, starting at position `at`.
pub open spec fn occurs_at(line: Seq<char>, text: Seq<char>, at: int) -> bool {
    &&& 0 <= at
    &&& at + text.len() <= line.len()
    &&& line.subrange(at, at + text.len()) == text
}

/// Whether `field` opens and closes with the alert markers.
pub open spec fn is_marked(field: Seq<char>) -> bool {
    &&& field.len() >= alert_open().len() + alert_close().len()
    &&& occurs_at(field, alert_open(), 0)
    &&& occurs_at(field, alert_close(), field.len() - alert_close().len())
}

/// The pulse as it is written: its decimal numeral.
pub open spec fn bpm_token(bpm: u8) -> Seq<char> {
    decimal(bpm as nat)
}

/// The age as it is written: its decimal numeral and the letter `m`.
pub open spec fn minutes_token(minutes_ago: u64) -> Seq<char> {
    decimal(minutes_ago as nat) + "m"@
}

/// The pulse field: the token, marked from the threshold on.
pub open spec fn bpm_field(bpm: u8, threshold: u8) -> Seq<char> {
    if bpm >= threshold {
        alert_text(bpm_token(bpm))
    } else {
        bpm_token(bpm)
    }
}

/// The age field: the token, marked from the threshold on.
pub open spec fn minutes_field(minutes_ago: u64, threshold: u64) -> Seq<char> {
    if minutes_ago >= threshold {
        alert_text(minutes_token(minutes_ago))
    } else {
        minutes_token(minutes_ago)
    }
}

/// The status line: pulse field, separator, age field.
pub open spec fn display_text(heart_data: HeartData, thresholds: AlertThresholds) -> Seq<char> {
    bpm_field(heart_data.bpm, thresholds.bpm) + field_separator() + minutes_field(
        heart_data.minutes_ago,
        thresholds.minutes,
    )
}

/// Where the token starts inside its field: behind the opening marker of a
/// marked field, at the very start of a plain one.
pub open spec fn token_offset(marked: bool) -> int {
    if marked {
        alert_open().len() as int
    } else {
        0
    }
}

/// A digit is not the character that the opening marker starts with.
proof fn lemma_digit_is_no_marker(c: char)
    requires
        is_digit(c),
    ensures
        c != '>',
{
    let d = choose|d: nat| d < 10 && c == #[trigger] digit_char(d);
    assert(d == 0 || d == 1 || d == 2 || d == 3 || d == 4 || d == 5 || d == 6 || d == 7 || d == 8
        || d == 9);
}

/// A text that starts with a decimal numeral is not marked.
proof fn lemma_numeral_start_is_plain(n: nat, rest: Seq<char>)
    ensures
        !is_marked(decimal(n) + rest),
{
    reveal_strlit(">>>>> ");
    lemma_decimal_is_digits(n);
    let text = decimal(n) + rest;
    assert(text[0] == decimal(n)[0]);
    lemma_digit_is_no_marker(decimal(n)[0]);
    if is_marked(text) {
        assert(text.subrange(0, 6)[0] == '>');
    }
}

/// A text set between the markers is marked, is twelve characters longer
/// than its content, and holds the content unchanged behind the opening
/// marker.
pub proof fn lemma_alert_text_marks(content: Seq<char>)
    ensures
        is_marked(alert_text(content)),
        alert_text(content).len() == content.len() + 12,
        occurs_at(alert_text(content), content, token_offset(true)),
{
    reveal_strlit(">>>>> ");
    reveal_strlit(" <<<<<");
    let text = alert_text(content);
    assert(text.subrange(0, 6) =~= alert_open());
    assert(text.subrange(text.len() - 6, text.len() as int) =~= alert_close());
    assert(text.subrange(6, 6 + content.len() as int) =~= content);
}

/// The pulse field is marked exactly when the pulse is at or above the
/// threshold. So a pulse one below the threshold is written plain, and a
/// pulse at the threshold is written between the markers.
pub proof fn lemma_bpm_marked_from_threshold(bpm: u8, threshold: u8)
    ensures
        is_marked(bpm_field(bpm, threshold)) <==> bpm >= threshold,
        bpm < threshold ==> bpm_field(bpm, threshold) == bpm_token(bpm),
        bpm >= threshold ==> bpm_field(bpm, threshold) == alert_text(bpm_token(bpm)),
{
    if bpm >= threshold {
        lemma_alert_text_marks(bpm_token(bpm));
    } else {
        lemma_numeral_start_is_plain(bpm as nat, Seq::empty());
        assert(decimal(bpm as nat) + Seq::<char>::empty() =~= bpm_token(bpm));
    }
}

/// The age field is marked exactly when the age is at or above the
/// threshold, whatever the pulse is.
pub proof fn lemma_minutes_marked_from_threshold(minutes_ago: u64, threshold: u64)
    ensures
        is_marked(minutes_field(minutes_ago, threshold)) <==> minutes_ago >= threshold,
        minutes_ago < threshold ==> minutes_field(minutes_ago, threshold) == minutes_token(
            minutes_ago,
        ),
        minutes_ago >= threshold ==> minutes_field(minutes_ago, threshold) == alert_text(
            minutes_token(minutes_ago),
        ),
{
    if minutes_ago >= threshold {
        lemma_alert_text_marks(minutes_token(minutes_ago));
    } else {
        lemma_numeral_start_is_plain(minutes_ago as nat, "m"@);
    }
}

/// The status line holds the pulse token, the separator behind the pulse
/// field, and the age token behind the separator, each unchanged; and it is
/// as long as the two fields and the separator together.
pub proof fn lemma_display_holds_tokens(heart_data: HeartData, thresholds: AlertThresholds)
    ensures
        ({
            let line = display_text(heart_data, thresholds);
            let pulse = bpm_field(heart_data.bpm, thresholds.bpm);
            let age = minutes_field(heart_data.minutes_ago, thresholds.minutes);
            let age_start = pulse.len() + field_separator().len();
            &&& line.len() == age_start + age.len()
            &&& occurs_at(
                line,
                bpm_token(heart_data.bpm),
                token_offset(heart_data.bpm >= thresholds.bpm),
            )
            &&& occurs_at(line, field_separator(), pulse.len() as int)
            &&& occurs_at(
                line,
                minutes_token(heart_data.minutes_ago),
                age_start + token_offset(heart_data.minutes_ago >= thresholds.minutes),
            )
        }),
{
    reveal_strlit(">>>>> ");
    reveal_strlit(" <<<<<");
    reveal_strlit(" | ");
    let line = display_text(heart_data, thresholds);
    let pulse = bpm_field(heart_data.bpm, thresholds.bpm);
    let age = minutes_field(heart_data.minutes_ago, thresholds.minutes);
    let pulse_token = bpm_token(heart_data.bpm);
    let age_token = minutes_token(heart_data.minutes_ago);
    let pulse_at = token_offset(heart_data.bpm >= thresholds.bpm);
    let age_at = pulse.len() + 3 + token_offset(heart_data.minutes_ago >= thresholds.minutes);
    assert(line.subrange(pulse_at, pulse_at + pulse_token.len()) =~= pulse_token);
    assert(line.subrange(pulse.len() as int, pulse.len() as int + 3) =~= field_separator());
    assert(line.subrange(age_at, age_at + age_token.len()) =~= age_token);
}

/// The status line shows which values crossed their thresholds, each on its
/// own: it opens with the opening marker exactly when the pulse is at or above
/// its threshold, whatever the age is, and it closes with the closing marker
/// exactly when the age is at or above its threshold, whatever the pulse is.
pub proof fn lemma_display_marks_from_thresholds(
    heart_data: HeartData,
    thresholds: AlertThresholds,
)
    ensures
        occurs_at(display_text(heart_data, thresholds), alert_open(), 0) <==> heart_data.bpm
            >= thresholds.bpm,
        occurs_at(
            display_text(heart_data, thresholds),
            alert_close(),
            display_text(heart_data, thresholds).len() - alert_close().len(),
        ) <==> heart_data.minutes_ago >= thresholds.minutes,
{
    reveal_strlit(">>>>> ");
    reveal_strlit(" <<<<<");
    reveal_strlit(" | ");
    reveal_strlit("m");
    let line = display_text(heart_data, thresholds);
    lemma_decimal_is_digits(heart_data.bpm as nat);
    lemma_decimal_is_digits(heart_data.minutes_ago as nat);
    if heart_data.bpm >= thresholds.bpm {
        assert(line.subrange(0, 6) =~= alert_open());
    } else {
        assert(line[0] == decimal(heart_data.bpm as nat)[0]);
        lemma_digit_is_no_marker(line[0]);
        if occurs_at(line, alert_open(), 0) {
            assert(line.subrange(0, 6)[0] == '>');
        }
    }
    let close_at = line.len() - 6;
    if heart_data.minutes_ago >= thresholds.minutes {
        assert(line.subrange(close_at, close_at + 6) =~= alert_close());
    } else {
        assert(line[line.len() - 1] == 'm');
        if occurs_at(line, alert_close(), close_at) {
            assert(line.subrange(close_at, close_at + 6)[5] == '<');
        }
    }
}

/// Sets `content` between the alert markers, once: what comes back is
/// `>>>>> `, the content as it was given, and ` <<<<<`.
pub fn alert_wrap(content: &str) -> (r: String)
    ensures
        r@ == alert_text(content@),
{
    let mut r = String::from_str(">>>>> ");
    r.append(content);
    r.append(" <<<<<");
    r
}

/// The pulse field as a string.
fn bpm_field_string(bpm: u8, threshold: u8) -> (r: String)
    ensures
        r@ == bpm_field(bpm, threshold),
{
    let token = decimal_string(bpm as u64);
    if bpm >= threshold {
        alert_wrap(token.as_str())
    } else {
        token
    }
}

/// The age field as a string.
fn minutes_field_string(minutes_ago: u64, threshold: u64) -> (r: String)
    ensures
        r@ == minutes_field(minutes_ago, threshold),
{
    let mut token = decimal_string(minutes_ago);
    token.append("m");
    if minutes_ago >= threshold {
        alert_wrap(token.as_str())
    } else {
        token
    }
}

/// Renders the status line for the given thresholds.
pub fn get_display_with(heart_data: HeartData, thresholds: AlertThresholds) -> (r: String)
    ensures
        r@ == display_text(heart_data, thresholds),
{
    let mut r = bpm_field_string(heart_data.bpm, thresholds.bpm);
    let age = minutes_field_string(heart_data.minutes_ago, thresholds.minutes);
    r.append(" | ");
    r.append(age.as_str());
    r
}

/// Renders the status line for the standard thresholds.
pub fn get_display(heart_data: HeartData) -> (r: String)
    ensures
        r@ == display_text(heart_data, AlertThresholds::standard()),
{
    get_display_with(
        heart_data,
        AlertThresholds { bpm: BPM_ALERT_THRESHOLD, minutes: MINUTES_THRESHOLD },
    )
}

} // verus!
