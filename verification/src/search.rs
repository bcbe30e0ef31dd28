//! Search-result handling. The extraction tool prints one JSON document
//! per line; each line is decoded with serde_json, the usable results are
//! collected (at most five, in order), and the reply's cards and buttons
//! are laid out. Only the JSON decoding itself is delegated; everything
//! around it is verified.

use vstd::prelude::*;
use crate::format::decimal_digits;
use crate::format::digit_value;
use crate::format::is_digit;
use crate::format::padded_two_digits;
use crate::format::push_decimal;

verus! {

/// One usable search result, as read from the extractor's output.
#[derive(Debug)]
pub struct SearchResult {
    pub id: String,
    pub title: String,
    /// Whole seconds; a fractional duration is truncated.
    pub duration_seconds: Option<u64>,
    /// The last listed thumbnail, usually the largest.
    pub thumbnail_url: Option<String>,
}

/// The view of an optional string.
pub open spec fn option_text(o: Option<String>) -> Option<Seq<char>> {
    match o {
        Some(s) => Some(s@),
        None => None,
    }
}

/// What one line of the extractor's output decodes to, as a function of
/// the line's text alone: the video id, the title, and the JSON text of
/// the duration number where one is given. A line that is not a JSON
/// object with a string `id`, a string `title`, and a `duration` that is
/// a number, null or absent decodes to nothing.
pub uninterp spec fn json_line_fields(line: Seq<char>) -> Option<
    (Seq<char>, Seq<char>, Option<Seq<char>>),
>;

/// The url of the last listed thumbnail of one line of the extractor's
/// output, as a function of the line's text alone. The outer option is
/// nothing when the line is not valid JSON or its `thumbnails` member is
/// present but not an array of objects each holding a string `url`; the
/// inner option is empty when no thumbnail is listed.
pub uninterp spec fn json_line_thumbnail(line: Seq<char>) -> Option<Option<Seq<char>>>;

/// Relies on serde_json::from_str::<Value>, Value::get, Value::as_str,
/// Value::is_number, Value::is_null and the Display rendering of a JSON
/// number: reads the id, the title and the duration number's text out of
/// one output line, exactly when the line decodes (`json_line_fields`).
#[verifier::external_body]
fn decode_search_line(line: &str) -> (r: Option<(String, String, Option<String>)>)
    ensures
        r is Some <==> json_line_fields(line@) is Some,
        r matches Some(f) ==> (json_line_fields(line@) matches Some(g) && f.0@ == g.0 && f.1@
            == g.1 && option_text(f.2) == g.2),
{
    let value: serde_json::Value = serde_json::from_str(line).ok()?;
    let id = value.get("id")?.as_str()?.to_owned();
    let title = value.get("title")?.as_str()?.to_owned();
    let duration = match value.get("duration") {
        Some(d) if d.is_number() => Some(d.to_string()),
        Some(d) if !d.is_null() => return None,
        _ => None,
    };
    Some((id, title, duration))
}

/// Relies on serde_json::from_str::<Value>, Value::get, Value::as_array
/// and Value::as_str: reads the last thumbnail url out of one output
/// line, exactly when the line's thumbnails decode (`json_line_thumbnail`).
#[verifier::external_body]
fn decode_search_thumbnail(line: &str) -> (r: Option<Option<String>>)
    ensures
        r is Some <==> json_line_thumbnail(line@) is Some,
        r matches Some(t) ==> (json_line_thumbnail(line@) matches Some(u) && option_text(t) == u),
{
    let value: serde_json::Value = serde_json::from_str(line).ok()?;
    let mut urls: Vec<String> = match value.get("thumbnails") {
        Some(list) => list
            .as_array()?
            .iter()
            .map(|e| e.get("url").and_then(|u| u.as_str()).map(|s| s.to_owned()))
            .collect::<Option<Vec<String>>>()?,
        None => Vec::new(),
    };
    Some(urls.pop())
}

/// The digits of a number's decimal text that stand before any decimal
/// point: the longest prefix without a `.`.
pub open spec fn whole_part(s: Seq<char>) -> Seq<char>
    decreases s.len(),
{
    if s.len() == 0 {
        s
    } else if s[0] == '.' {
        Seq::empty()
    } else {
        seq![s[0]] + whole_part(s.drop_first())
    }
}

/// The value of a sequence of decimal digits, most significant first.
pub open spec fn digits_value(s: Seq<char>) -> int
    decreases s.len(),
{
    if s.len() == 0 {
        0
    } else {
        10 * digits_value(s.drop_last()) + digit_value(s.last())
    }
}

/// The whole seconds a number's decimal text stands for: the value of the
/// digits before the decimal point. Text whose whole part is empty or not
/// all digits stands for nothing.
pub open spec fn whole_seconds_of(s: Seq<char>) -> Option<int> {
    let w = whole_part(s);
    if w.len() > 0 && (forall|i: int| 0 <= i < w.len() ==> is_digit(#[trigger] w[i])) {
        Some(digits_value(w))
    } else {
        None
    }
}

proof fn lemma_whole_part_take(s: Seq<char>, k: int)
    requires
        0 <= k <= s.len(),
        forall|j: int| 0 <= j < k ==> s[j] != '.',
        k < s.len() ==> s[k] == '.',
    ensures
        whole_part(s) == s.take(k),
    decreases k,
{
    if s.len() == 0 {
        assert(whole_part(s) =~= s.take(k));
    } else if k == 0 {
        if s.len() > 0 {
            assert(s[0] == '.');
        }
        assert(whole_part(s) =~= s.take(0));
    } else {
        lemma_whole_part_take(s.drop_first(), k - 1);
        assert(whole_part(s) =~= seq![s[0]] + s.drop_first().take(k - 1));
        assert(seq![s[0]] + s.drop_first().take(k - 1) =~= s.take(k));
    }
}

/// Parses the whole seconds out of a number's decimal text: the digits
/// before any decimal point. Nothing comes back when that prefix is empty,
/// holds a non-digit, or overflows.
pub fn parse_whole_seconds(text: &str) -> (r: Option<u64>)
    ensures
        r is Some <==> (whole_seconds_of(text@) matches Some(v) && v <= u64::MAX),
        r matches Some(n) ==> whole_seconds_of(text@) == Some(n as int),
{
    let n = text.unicode_len();
    let mut k: usize = 0;
    let mut value: u64 = 0;
    let mut overflowed = false;
    while k < n && (!matches!(text.get_char(k), '.'))
        invariant
            n == text@.len(),
            k <= n,
            forall|j: int| 0 <= j < k ==> text@[j] != '.',
            !overflowed ==> (forall|j: int| 0 <= j < k ==> is_digit(#[trigger] text@[j])),
            !overflowed ==> value == digits_value(text@.take(k as int)),
            overflowed ==> !(whole_seconds_of(text@) matches Some(v) && v <= u64::MAX),
        decreases n - k,
    {
        let c = text.get_char(k);
        if !overflowed {
            if '0' <= c && c <= '9' {
                let d: u64 = (c as u32 as u64) - ('0' as u32 as u64);
                if value > (u64::MAX - d) / 10 {
                    proof {
                        lemma_overflow_stays(text@, k as int, value as int, d as int);
                    }
                    overflowed = true;
                } else {
                    value = value * 10 + d;
                    proof {
                        assert(text@.take(k + 1).drop_last() =~= text@.take(k as int));
                        assert(text@.take(k + 1).last() == text@[k as int]);
                    }
                }
            } else {
                proof {
                    lemma_non_digit_spoils(text@, k as int);
                }
                return None;
            }
        }
        k = k + 1;
    }
    proof {
        lemma_whole_part_take(text@, k as int);
    }
    if overflowed {
        None
    } else if k == 0 {
        None
    } else {
        Some(value)
    }
}

proof fn lemma_non_digit_spoils(s: Seq<char>, k: int)
    requires
        0 <= k < s.len(),
        forall|j: int| 0 <= j < k ==> s[j] != '.',
        s[k] != '.',
        !is_digit(s[k]),
    ensures
        whole_seconds_of(s) is None,
{
    let w = whole_part(s);
    if w.len() > 0 && (forall|i: int| 0 <= i < w.len() ==> is_digit(#[trigger] w[i])) {
        lemma_whole_part_at_least(s, k + 1);
        assert(w[k] == s[k]);
    }
}

proof fn lemma_whole_part_at_least(s: Seq<char>, k: int)
    requires
        0 <= k <= s.len(),
        forall|j: int| 0 <= j < k ==> s[j] != '.',
    ensures
        whole_part(s).len() >= k,
        forall|j: int| 0 <= j < k ==> whole_part(s)[j] == s[j],
    decreases k,
{
    if k > 0 {
        lemma_whole_part_at_least(s.drop_first(), k - 1);
        assert(whole_part(s) =~= seq![s[0]] + whole_part(s.drop_first()));
        assert forall|j: int| 0 <= j < k implies whole_part(s)[j] == s[j] by {
            if j > 0 {
                assert(whole_part(s)[j] == whole_part(s.drop_first())[j - 1]);
                assert(s.drop_first()[j - 1] == s[j]);
            }
        }
    }
}

proof fn lemma_digits_value_nonneg(s: Seq<char>)
    requires
        forall|i: int| 0 <= i < s.len() ==> is_digit(#[trigger] s[i]),
    ensures
        digits_value(s) >= 0,
    decreases s.len(),
{
    if s.len() > 0 {
        assert(forall|i: int|
            0 <= i < s.drop_last().len() ==> is_digit(#[trigger] s.drop_last()[i]));
        lemma_digits_value_nonneg(s.drop_last());
    }
}

proof fn lemma_digits_value_prefix_grows(s: Seq<char>, k: int)
    requires
        0 <= k <= s.len(),
        forall|i: int| 0 <= i < s.len() ==> is_digit(#[trigger] s[i]),
    ensures
        digits_value(s) >= digits_value(s.take(k)),
    decreases s.len() - k,
{
    if k < s.len() {
        lemma_digits_value_prefix_grows(s, k + 1);
        assert(s.take(k + 1).drop_last() =~= s.take(k));
        assert(is_digit(s.take(k + 1).last()));
        lemma_digits_value_nonneg(s.take(k));
    } else {
        assert(s.take(k) =~= s);
    }
}

proof fn lemma_overflow_stays(s: Seq<char>, k: int, value: int, d: int)
    requires
        0 <= k < s.len(),
        forall|j: int| 0 <= j < k ==> s[j] != '.',
        s[k] != '.',
        is_digit(s[k]),
        d == digit_value(s[k]),
        value == digits_value(s.take(k)),
        10 * value + d > u64::MAX,
    ensures
        !(whole_seconds_of(s) matches Some(v) && v <= u64::MAX),
{
    let w = whole_part(s);
    if w.len() > 0 && (forall|i: int| 0 <= i < w.len() ==> is_digit(#[trigger] w[i])) {
        lemma_whole_part_at_least(s, k + 1);
        assert(w.take(k + 1) =~= s.take(k + 1));
        assert(s.take(k + 1).drop_last() =~= s.take(k));
        assert(digits_value(s.take(k + 1)) == 10 * value + d);
        lemma_digits_value_prefix_grows(w, k + 1);
    }
}

/// The whole seconds a duration field stands for: the value of the
/// digits before any decimal point of its JSON text, where that fits in
/// a `u64`.
pub open spec fn duration_from_text(text: Option<Seq<char>>) -> Option<u64> {
    match text {
        Some(t) => match whole_seconds_of(t) {
            Some(v) => if 0 <= v <= u64::MAX {
                Some(v as u64)
            } else {
                None
            },
            None => None,
        },
        None => None,
    }
}

/// Whether one output line yields a result.
pub open spec fn line_usable(line: Seq<char>) -> bool {
    json_line_fields(line) is Some && json_line_thumbnail(line) is Some
}

/// What the result read from a usable line holds: the decoded id and
/// title, the truncated whole seconds of the duration, and the last
/// listed thumbnail url.
pub open spec fn result_matches_line(result: SearchResult, line: Seq<char>) -> bool {
    &&& json_line_fields(line) matches Some(f) && result.id@ == f.0 && result.title@ == f.1
        && result.duration_seconds == duration_from_text(f.2)
    &&& json_line_thumbnail(line) matches Some(t) && option_text(result.thumbnail_url) == t
}

/// Reads one line of the extractor's output. A line is usable only as a
/// whole: it must be a JSON object with a string `id` and `title`, a
/// numeric, null or absent `duration`, and, where `thumbnails` is
/// present, an array of objects each holding a string `url`; any other
/// line is skipped entirely.
pub fn parse_search_line(line: &str) -> (r: Option<SearchResult>)
    ensures
        r is Some <==> line_usable(line@),
        r matches Some(result) ==> result_matches_line(result, line@),
{
    let fields = match decode_search_line(line) {
        Some(f) => f,
        None => {
            return None;
        },
    };
    let thumbnail_url = match decode_search_thumbnail(line) {
        Some(t) => t,
        None => {
            return None;
        },
    };
    let duration_seconds = match &fields.2 {
        Some(t) => parse_whole_seconds(t.as_str()),
        None => None,
    };
    Some(SearchResult { id: fields.0, title: fields.1, duration_seconds, thumbnail_url })
}

/// The index of the first line break in `s`, or its length when there is
/// none.
pub open spec fn first_newline(s: Seq<char>) -> int
    decreases s.len(),
{
    if s.len() == 0 {
        0
    } else if s[0] == '\n' {
        0
    } else {
        1 + first_newline(s.drop_first())
    }
}

/// The first line break lies within the text.
pub proof fn lemma_first_newline_bounds(s: Seq<char>)
    ensures
        0 <= first_newline(s) <= s.len(),
    decreases s.len(),
{
    if s.len() > 0 && s[0] != '\n' {
        lemma_first_newline_bounds(s.drop_first());
    }
}

/// The lines of `s`: the runs of characters between line breaks. A final
/// line break closes the last line without opening an empty one.
pub open spec fn lines_of(s: Seq<char>) -> Seq<Seq<char>>
    decreases s.len(),
    via lines_of_decreases
{
    if s.len() == 0 {
        Seq::empty()
    } else {
        let i = first_newline(s);
        if i == s.len() {
            seq![s]
        } else {
            seq![s.take(i)] + lines_of(s.skip(i + 1))
        }
    }
}

#[via_fn]
proof fn lines_of_decreases(s: Seq<char>) {
    lemma_first_newline_bounds(s);
}

proof fn lemma_first_newline_at(s: Seq<char>, k: int)
    requires
        0 <= k <= s.len(),
        forall|j: int| 0 <= j < k ==> s[j] != '\n',
        k < s.len() ==> s[k] == '\n',
    ensures
        first_newline(s) == k,
    decreases k,
{
    if s.len() > 0 && k > 0 {
        lemma_first_newline_at(s.drop_first(), k - 1);
    }
}

/// The views of the split lines.
pub open spec fn line_views(lines: Seq<String>) -> Seq<Seq<char>> {
    Seq::new(lines.len(), |i: int| lines[i]@)
}

/// Splits text into its lines.
pub fn split_lines(text: &str) -> (r: Vec<String>)
    ensures
        line_views(r@) == lines_of(text@),
{
    let n = text.unicode_len();
    let mut lines: Vec<String> = Vec::new();
    let mut start: usize = 0;
    let mut p: usize = 0;
    proof {
        assert(text@.skip(0) =~= text@);
        assert(line_views(lines@) + lines_of(text@) =~= lines_of(text@));
    }
    while p < n
        invariant
            n == text@.len(),
            start <= p <= n,
            forall|j: int| start <= j < p ==> text@[j] != '\n',
            lines_of(text@) =~= line_views(lines@) + lines_of(text@.skip(start as int)),
        decreases n - p,
    {
        if text.get_char(p) == '\n' {
            let line = text.substring_char(start, p);
            let line_string = String::from_str(line);
            proof {
                let rest = text@.skip(start as int);
                lemma_first_newline_at(rest, p - start);
                assert(rest.take(p - start) =~= text@.subrange(start as int, p as int));
                assert(rest.skip(p - start + 1) =~= text@.skip(p + 1));
                assert(line_views(lines@.push(line_string)) =~= line_views(lines@)
                    + seq![text@.subrange(start as int, p as int)]);
            }
            lines.push(line_string);
            start = p + 1;
        }
        p = p + 1;
    }
    if start < n {
        let line = text.substring_char(start, n);
        let line_string = String::from_str(line);
        proof {
            let rest = text@.skip(start as int);
            lemma_first_newline_at(rest, n - start);
            assert(rest.take(n - start) =~= rest);
            assert(rest =~= text@.subrange(start as int, n as int));
            assert(line_views(lines@.push(line_string)) =~= line_views(lines@) + seq![
                rest,
            ]);
        }
        lines.push(line_string);
    } else {
        proof {
            assert(text@.skip(start as int).len() == 0);
        }
    }
    proof {
        assert(line_views(lines@) =~= lines_of(text@));
    }
    lines
}

/// The usable entries of a sequence of read attempts, in order.
pub open spec fn usable_results(parsed: Seq<Option<SearchResult>>) -> Seq<SearchResult>
    decreases parsed.len(),
{
    if parsed.len() == 0 {
        Seq::empty()
    } else {
        let rest = usable_results(parsed.drop_first());
        match parsed.first() {
            Some(r) => seq![r] + rest,
            None => rest,
        }
    }
}

/// At most this many search results are offered.
pub const MAX_RESULTS: usize = 5;

/// Keeps the usable results, in order, up to the first five.
pub fn collect_results(parsed: Vec<Option<SearchResult>>) -> (r: Vec<SearchResult>)
    ensures
        r@ == usable_results(parsed@).take(vstd::math::min(usable_results(parsed@).len() as int,
            MAX_RESULTS as int)),
{
    let ghost all = usable_results(parsed@);
    let mut rest = parsed;
    let mut out: Vec<SearchResult> = Vec::new();
    while out.len() < MAX_RESULTS && rest.len() > 0
        invariant
            out@.len() <= MAX_RESULTS,
            all =~= out@ + usable_results(rest@),
            out@ =~= all.take(out@.len() as int),
        decreases rest@.len(),
    {
        let ghost rest0 = rest@;
        let first = rest.remove(0);
        proof {
            assert(rest@ =~= rest0.drop_first());
            assert(rest0.first() == first);
        }
        match first {
            Some(result) => {
                proof {
                    assert(usable_results(rest0) =~= seq![result] + usable_results(rest@));
                    assert(all.take(out@.len() as int + 1) =~= out@.push(result));
                }
                out.push(result);
            },
            None => {
                proof {
                    assert(usable_results(rest0) =~= usable_results(rest@));
                }
            },
        }
    }
    proof {
        if rest@.len() == 0 {
            assert(usable_results(rest@) =~= Seq::<SearchResult>::empty());
            assert(all =~= out@);
            assert(out@ =~= all.take(vstd::math::min(all.len() as int, MAX_RESULTS as int)));
        } else {
            assert(out@.len() == MAX_RESULTS);
            assert(all.len() >= MAX_RESULTS);
            assert(out@ =~= all.take(vstd::math::min(all.len() as int, MAX_RESULTS as int)));
        }
    }
    out
}

/// One card of a search reply: what one result shows, and the button that
/// selects it.
#[derive(Debug)]
pub struct ResultCard {
    pub heading: String,
    pub duration_line: String,
    pub watch_url: String,
    pub thumbnail_url: Option<String>,
    pub button_id: String,
    pub button_label: String,
}

/// The duration line of a result: the whole minutes, then the seconds
/// padded to two digits; `Unknown` when the extractor reported none.
pub open spec fn duration_line_text(duration_seconds: Option<u64>) -> Seq<char> {
    match duration_seconds {
        Some(d) => "Duration: "@ + decimal_digits(d as int / 60) + seq![':'] + padded_two_digits(
            d as int % 60,
        ),
        None => "Duration: Unknown"@,
    }
}

/// What the card at one-based `position` shows for `result`.
pub open spec fn card_matches(card: ResultCard, position: int, result: SearchResult) -> bool {
    &&& card.heading@ == decimal_digits(position) + ". "@ + result.title@
    &&& card.duration_line@ == duration_line_text(result.duration_seconds)
    &&& card.watch_url@ == "https://www.youtube.com/watch?v="@ + result.id@
    &&& card.thumbnail_url == result.thumbnail_url
    &&& card.button_id@ == "search_play_"@ + result.id@
    &&& card.button_label@ == "Option "@ + decimal_digits(position)
}

/// The address a video id plays from.
pub fn watch_url(video_id: &str) -> (r: String)
    ensures
        r@ == "https://www.youtube.com/watch?v="@ + video_id@,
{
    let mut out = String::new();
    out.append("https://www.youtube.com/watch?v=");
    out.append(video_id);
    out
}

/// Renders the duration line of one result.
fn duration_line(duration_seconds: Option<u64>) -> (r: String)
    ensures
        r@ == duration_line_text(duration_seconds),
{
    match duration_seconds {
        Some(d) => {
            let mut out = String::new();
            out.append("Duration: ");
            push_decimal(&mut out, d / 60);
            out.append(":");
            crate::format::push_padded_two_digits(&mut out, d % 60);
            proof {
                reveal_strlit(":");
                assert(out@ =~= duration_line_text(duration_seconds));
            }
            out
        },
        None => String::from_str("Duration: Unknown"),
    }
}

/// Builds the card for the result at one-based `position`.
fn make_card(position: u64, result: &SearchResult) -> (r: ResultCard)
    ensures
        card_matches(r, position as int, *result),
{
    let mut heading = String::new();
    push_decimal(&mut heading, position);
    heading.append(". ");
    heading.append(result.title.as_str());
    let mut button_id = String::new();
    button_id.append("search_play_");
    button_id.append(result.id.as_str());
    let mut button_label = String::new();
    button_label.append("Option ");
    push_decimal(&mut button_label, position);
    let thumbnail_url = match &result.thumbnail_url {
        Some(u) => Some(u.clone()),
        None => None,
    };
    ResultCard {
        heading,
        duration_line: duration_line(result.duration_seconds),
        watch_url: watch_url(result.id.as_str()),
        thumbnail_url,
        button_id,
        button_label,
    }
}

/// Builds the cards for a list of results, first to last.
pub fn build_result_cards(results: &Vec<SearchResult>) -> (r: Vec<ResultCard>)
    requires
        results@.len() <= usize::MAX,
    ensures
        r@.len() == results@.len(),
        forall|i: int|
            0 <= i < r@.len() ==> card_matches(#[trigger] r@[i], i + 1, results@[i]),
{
    let mut cards: Vec<ResultCard> = Vec::new();
    let mut i: usize = 0;
    while i < results.len()
        invariant
            i <= results@.len(),
            results@.len() <= usize::MAX,
            cards@.len() == i,
            forall|j: int|
                0 <= j < i ==> card_matches(#[trigger] cards@[j], j + 1, results@[j]),
        decreases results@.len() - i,
    {
        let card = make_card((i as u64) + 1, &results[i]);
        cards.push(card);
        i = i + 1;
    }
    cards
}

/// The search reply: the result cards with their buttons, or — when not
/// one line of the output was usable — a plain notice naming the query,
/// with no buttons at all.
#[derive(Debug)]
pub enum SearchReply {
    NoResults(String),
    Results(Vec<ResultCard>),
}

/// Lays out the reply to a search from the usable results.
pub fn search_reply(query: &str, results: Vec<SearchResult>) -> (r: SearchReply)
    ensures
        results@.len() == 0 ==> (r matches SearchReply::NoResults(t) && t@
            == "No results found for \""@ + query@ + "\""@),
        results@.len() > 0 ==> (r matches SearchReply::Results(cards) && cards@.len()
            == results@.len() && (forall|i: int|
            0 <= i < cards@.len() ==> card_matches(#[trigger] cards@[i], i + 1, results@[i]))),
{
    if results.len() == 0 {
        SearchReply::NoResults(crate::messages::no_results_text(query))
    } else {
        let cards = build_result_cards(&results);
        SearchReply::Results(cards)
    }
}

/// The usable lines, in order.
pub open spec fn usable_lines(lines: Seq<Seq<char>>) -> Seq<Seq<char>>
    decreases lines.len(),
{
    if lines.len() == 0 {
        Seq::empty()
    } else if line_usable(lines.first()) {
        seq![lines.first()] + usable_lines(lines.drop_first())
    } else {
        usable_lines(lines.drop_first())
    }
}

proof fn lemma_usable_results_match(parsed: Seq<Option<SearchResult>>, lines: Seq<Seq<char>>)
    requires
        parsed.len() == lines.len(),
        forall|i: int|
            0 <= i < parsed.len() ==> ((#[trigger] parsed[i]) is Some <==> line_usable(lines[i])),
        forall|i: int|
            0 <= i < parsed.len() ==> ((#[trigger] parsed[i]) matches Some(result)
                ==> result_matches_line(result, lines[i])),
    ensures
        usable_results(parsed).len() == usable_lines(lines).len(),
        forall|j: int|
            0 <= j < usable_results(parsed).len() ==> result_matches_line(
                #[trigger] usable_results(parsed)[j], usable_lines(lines)[j]),
    decreases parsed.len(),
{
    if parsed.len() > 0 {
        let pt = parsed.drop_first();
        let lt = lines.drop_first();
        assert(forall|i: int| 0 <= i < pt.len() ==> #[trigger] pt[i] == parsed[i + 1]);
        assert(forall|i: int| 0 <= i < lt.len() ==> #[trigger] lt[i] == lines[i + 1]);
        lemma_usable_results_match(pt, lt);
        match parsed.first() {
            Some(result) => {
                assert(parsed[0] is Some);
                assert(line_usable(lines.first()));
                assert(usable_results(parsed) =~= seq![result] + usable_results(pt));
                assert(usable_lines(lines) =~= seq![lines.first()] + usable_lines(lt));
                assert(result_matches_line(result, lines[0]));
                assert forall|j: int| 0 <= j < usable_results(parsed).len() implies
                    result_matches_line(usable_results(parsed)[j], usable_lines(lines)[j]) by {
                    if j == 0 {
                        assert(usable_results(parsed)[0] == result);
                        assert(usable_lines(lines)[0] == lines.first());
                    } else {
                        assert(usable_results(parsed)[j] == usable_results(pt)[j - 1]);
                        assert(usable_lines(lines)[j] == usable_lines(lt)[j - 1]);
                    }
                }
            },
            None => {
                assert(parsed[0] is None);
                assert(!line_usable(lines.first()));
                assert(usable_results(parsed) =~= usable_results(pt));
                assert(usable_lines(lines) =~= usable_lines(lt));
            },
        }
    }
}

/// Reads the extractor's whole output: each line read on its own, the
/// unusable ones skipped, and the first five results kept in order.
pub fn search_results_from_output(output: &str) -> (r: Vec<SearchResult>)
    ensures
        r@.len() == vstd::math::min(usable_lines(lines_of(output@)).len() as int,
            MAX_RESULTS as int),
        r@.len() == 0 <==> usable_lines(lines_of(output@)).len() == 0,
        forall|i: int|
            0 <= i < r@.len() ==> result_matches_line(#[trigger] r@[i], usable_lines(lines_of(
                output@))[i]),
{
    let lines = split_lines(output);
    let mut parsed: Vec<Option<SearchResult>> = Vec::new();
    let mut i: usize = 0;
    while i < lines.len()
        invariant
            line_views(lines@) == lines_of(output@),
            parsed@.len() == i,
            i <= lines@.len(),
            forall|j: int|
                0 <= j < i ==> ((#[trigger] parsed@[j]) is Some <==> line_usable(lines@[j]@)),
            forall|j: int|
                0 <= j < i ==> ((#[trigger] parsed@[j]) matches Some(result)
                    ==> result_matches_line(result, lines@[j]@)),
        decreases lines@.len() - i,
    {
        parsed.push(parse_search_line(lines[i].as_str()));
        i = i + 1;
    }
    proof {
        assert(forall|j: int|
            0 <= j < lines@.len() ==> #[trigger] line_views(lines@)[j] == lines@[j]@);
        lemma_usable_results_match(parsed@, line_views(lines@));
    }
    let results = collect_results(parsed);
    proof {
        let found = usable_results(parsed@);
        let usable = usable_lines(lines_of(output@));
        assert(found.len() == usable.len());
        assert forall|k: int| 0 <= k < results@.len() implies result_matches_line(results@[k],
            usable[k]) by {
            assert(results@[k] == found.take(vstd::math::min(found.len() as int,
                MAX_RESULTS as int))[k]);
            assert(results@[k] == found[k]);
        }
    }
    results
}

} // verus!
