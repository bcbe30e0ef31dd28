//! Rendering of user-visible text: track durations as `MM:SS` /
//! `HH:MM:SS`, the playback progress bar, and the numbered queue listing.

use vstd::prelude::*;

verus! {

/// The character for one decimal digit.
pub open spec fn digit_char(d: int) -> char {
    if d == 0 {
        '0'
    } else if d == 1 {
        '1'
    } else if d == 2 {
        '2'
    } else if d == 3 {
        '3'
    } else if d == 4 {
        '4'
    } else if d == 5 {
        '5'
    } else if d == 6 {
        '6'
    } else if d == 7 {
        '7'
    } else if d == 8 {
        '8'
    } else {
        '9'
    }
}

/// Whether `c` is a decimal digit.
pub open spec fn is_digit(c: char) -> bool {
    '0' <= c && c <= '9'
}

/// The value of a decimal digit.
pub open spec fn digit_value(c: char) -> int {
    c as int - '0' as int
}

/// The decimal digits of a nonnegative integer, most significant first.
pub open spec fn decimal_digits(n: int) -> Seq<char>
    decreases n,
{
    if n < 10 {
        seq![digit_char(n)]
    } else {
        decimal_digits(n / 10).push(digit_char(n % 10))
    }
}

/// A nonnegative integer rendered with at least two digits, zero padded.
pub open spec fn padded_two_digits(n: int) -> Seq<char> {
    if n < 10 {
        seq!['0', digit_char(n)]
    } else {
        decimal_digits(n)
    }
}

/// The text for a duration of `total_seconds`: `HH:MM:SS` when there is an
/// hour component, `MM:SS` otherwise.
pub open spec fn duration_text(total_seconds: int) -> Seq<char> {
    let hours = total_seconds / 3600;
    let minutes = (total_seconds % 3600) / 60;
    let seconds = total_seconds % 60;
    if hours > 0 {
        padded_two_digits(hours) + seq![':'] + padded_two_digits(minutes) + seq![':']
            + padded_two_digits(seconds)
    } else {
        padded_two_digits(minutes) + seq![':'] + padded_two_digits(seconds)
    }
}

/// A rendered number is never empty and holds digits only.
pub proof fn lemma_decimal_digits_are_digits(n: int)
    ensures
        decimal_digits(n).len() >= 1,
        forall|i: int| 0 <= i < decimal_digits(n).len() ==> is_digit(#[trigger] decimal_digits(n)[i]),
    decreases n,
{
    if n >= 10 {
        lemma_decimal_digits_are_digits(n / 10);
    }
}

/// A duration of an hour or more always shows an hour component — its text
/// ends in `:MM:SS` after at least two hour digits — and a shorter duration
/// never does: its text is exactly `MM:SS`, with no other colon anywhere.
pub proof fn lemma_duration_text_hour_component(total_seconds: int)
    requires
        total_seconds >= 0,
    ensures
        total_seconds < 3600 ==> duration_text(total_seconds).len() == 5 && duration_text(
            total_seconds,
        )[2] == ':' && (forall|i: int|
            0 <= i < 5 && i != 2 ==> is_digit(#[trigger] duration_text(total_seconds)[i])),
        total_seconds >= 3600 ==> duration_text(total_seconds).len() >= 8 && duration_text(
            total_seconds,
        )[duration_text(total_seconds).len() - 3] == ':' && duration_text(
            total_seconds,
        )[duration_text(total_seconds).len() - 6] == ':' && (forall|i: int|
            0 <= i < duration_text(total_seconds).len() && i != duration_text(
                total_seconds,
            ).len() - 3 && i != duration_text(total_seconds).len() - 6 ==> is_digit(
                #[trigger] duration_text(total_seconds)[i],
            )),
{
    let dt = duration_text(total_seconds);
    let hours = total_seconds / 3600;
    let minutes = (total_seconds % 3600) / 60;
    let seconds = total_seconds % 60;
    assert(0 <= minutes < 60);
    assert(0 <= seconds < 60);
    lemma_padded_two_digits_props(minutes);
    lemma_padded_two_digits_props(seconds);
    if hours > 0 {
        lemma_padded_two_digits_props(hours);
        let p = padded_two_digits(hours).len() as int;
        assert(dt.len() == p + 6);
        assert(dt[p] == ':');
        assert(dt[p + 3] == ':');
        assert forall|i: int|
            0 <= i < dt.len() && i != dt.len() - 3 && i != dt.len() - 6 implies is_digit(
            dt[i]) by {
            if i < p {
                assert(dt[i] == padded_two_digits(hours)[i]);
            } else if p < i < p + 3 {
                assert(dt[i] == padded_two_digits(minutes)[i - p - 1]);
            } else {
                assert(dt[i] == padded_two_digits(seconds)[i - p - 4]);
            }
        }
    } else {
        assert(dt.len() == 5);
        assert(dt[2] == ':');
        assert forall|i: int| 0 <= i < 5 && i != 2 implies is_digit(dt[i]) by {
            if i < 2 {
                assert(dt[i] == padded_two_digits(minutes)[i]);
            } else {
                assert(dt[i] == padded_two_digits(seconds)[i - 3]);
            }
        }
    }
}

/// A zero-padded number is at least two characters, exactly two below one
/// hundred, and all of them digits.
pub proof fn lemma_padded_two_digits_props(n: int)
    requires
        n >= 0,
    ensures
        padded_two_digits(n).len() >= 2,
        n < 100 ==> padded_two_digits(n).len() == 2,
        forall|i: int|
            0 <= i < padded_two_digits(n).len() ==> is_digit(#[trigger] padded_two_digits(n)[i]),
{
    lemma_decimal_digits_are_digits(n);
    if n < 10 {
        assert(is_digit(digit_char(n)));
    } else {
        assert(decimal_digits(n) == decimal_digits(n / 10).push(digit_char(n % 10)));
        lemma_decimal_digits_are_digits(n / 10);
        if n < 100 {
            assert(decimal_digits(n / 10) == seq![digit_char(n / 10)]);
        }
    }
}
fn digit_str(d: u64) -> (r: &'static str)
    requires
        d < 10,
    ensures
        r@ == seq![digit_char(d as int)],
{
    proof {
        reveal_strlit("0");
        reveal_strlit("1");
        reveal_strlit("2");
        reveal_strlit("3");
        reveal_strlit("4");
        reveal_strlit("5");
        reveal_strlit("6");
        reveal_strlit("7");
        reveal_strlit("8");
        reveal_strlit("9");
    }
    let r: &'static str = if d == 0 {
        "0"
    } else if d == 1 {
        "1"
    } else if d == 2 {
        "2"
    } else if d == 3 {
        "3"
    } else if d == 4 {
        "4"
    } else if d == 5 {
        "5"
    } else if d == 6 {
        "6"
    } else if d == 7 {
        "7"
    } else if d == 8 {
        "8"
    } else {
        "9"
    };
    proof {
        assert(r@ =~= seq![digit_char(d as int)]);
    }
    r
}

/// Appends the decimal digits of `n` to `out`.
pub(crate) fn push_decimal(out: &mut String, n: u64)
    ensures
        final(out)@ == old(out)@ + decimal_digits(n as int),
    decreases n,
{
    if n >= 10 {
        push_decimal(out, n / 10);
        out.append(digit_str(n % 10));
        proof {
            assert(final(out)@ =~= old(out)@ + decimal_digits(n as int));
        }
    } else {
        out.append(digit_str(n));
        proof {
            assert(final(out)@ =~= old(out)@ + decimal_digits(n as int));
        }
    }
}

/// Appends `n` to `out`, zero padded to at least two digits.
pub(crate) fn push_padded_two_digits(out: &mut String, n: u64)
    ensures
        final(out)@ == old(out)@ + padded_two_digits(n as int),
{
    if n < 10 {
        out.append("0");
        push_decimal(out, n);
        proof {
            reveal_strlit("0");
            assert(final(out)@ =~= old(out)@ + padded_two_digits(n as int));
        }
    } else {
        push_decimal(out, n);
    }
}

/// Formats a duration given in whole seconds as `MM:SS`, or `HH:MM:SS` when
/// it is an hour or longer.
pub fn format_duration(total_seconds: u64) -> (r: String)
    ensures
        r@ == duration_text(total_seconds as int),
{
    let hours = total_seconds / 3600;
    let minutes = (total_seconds % 3600) / 60;
    let seconds = total_seconds % 60;
    let mut out = String::new();
    if hours > 0 {
        push_padded_two_digits(&mut out, hours);
        out.append(":");
        push_padded_two_digits(&mut out, minutes);
        out.append(":");
        push_padded_two_digits(&mut out, seconds);
        proof {
            reveal_strlit(":");
            assert(out@ =~= duration_text(total_seconds as int));
        }
    } else {
        push_padded_two_digits(&mut out, minutes);
        out.append(":");
        push_padded_two_digits(&mut out, seconds);
        proof {
            reveal_strlit(":");
            assert(out@ =~= duration_text(total_seconds as int));
        }
    }
    out
}

/// `n` copies of the character `c`.
pub open spec fn repeat_char(c: char, n: int) -> Seq<char>
    decreases n,
{
    if n <= 0 {
        Seq::empty()
    } else {
        repeat_char(c, n - 1).push(c)
    }
}

/// The filled cells of a `len`-cell progress bar at `current` of `total`
/// seconds: the fraction `current / total`, clamped to [0, 1], rounded to
/// the nearest cell (half up). A zero total shows an empty bar.
pub open spec fn fill_count(current: int, total: int, len: int) -> int {
    if total <= 0 {
        0
    } else if current >= total {
        len
    } else {
        (current * len + total / 2) / total
    }
}

/// The filled cells never exceed the bar, approximate `current / total` of
/// it to within half a cell, and saturate once `current` reaches `total`.
pub proof fn lemma_fill_count_bounds(current: int, total: int, len: int)
    requires
        0 < total,
        0 <= current,
        0 <= len,
    ensures
        0 <= fill_count(current, total, len) <= len,
        current >= total ==> fill_count(current, total, len) == len,
        current < total ==> 2 * (total * fill_count(current, total, len)) <= 2 * (current * len)
            + total,
        current < total ==> 2 * (total * fill_count(current, total, len)) >= 2 * (current * len)
            - total,
{
    if current < total {
        let a = current * len + total / 2;
        let f = a / total;
        assert(0 <= current * len) by (nonlinear_arith)
            requires 0 <= current && 0 <= len;
        vstd::arithmetic::div_mod::lemma_fundamental_div_mod(a, total);
        assert(a == total * f + a % total);
        assert(0 <= a % total < total);
        assert(current * len <= (total - 1) * len) by (nonlinear_arith)
            requires current <= total - 1 && 0 <= len;
        assert((total - 1) * len == total * len - len) by (nonlinear_arith);
        assert(a < total * (len + 1)) by (nonlinear_arith)
            requires a <= total * len - len + total / 2 && 0 < total && 0 <= len;
        assert(f <= len) by (nonlinear_arith)
            requires total * f + a % total == a && a < total * (len + 1) && 0 <= a % total
                && 0 < total;
        assert(f >= 0) by (nonlinear_arith)
            requires total * f + a % total == a && 0 <= a && a % total < total && 0 < total;
        assert(2 * (total * f) <= 2 * a - 2 * (a % total)) by (nonlinear_arith)
            requires total * f + a % total == a;
        vstd::arithmetic::div_mod::lemma_fundamental_div_mod(total, 2);
        assert(total == 2 * (total / 2) + total % 2);
        assert(0 <= total % 2 < 2);
        assert(2 * a <= 2 * (current * len) + total);
        assert(2 * (total * f) >= 2 * a - 2 * total + 2) by (nonlinear_arith)
            requires total * f + a % total == a && a % total < total;
        assert(2 * a >= 2 * (current * len) + total - 1);
    }
}

/// The text of the progress bar: the filled and empty cells in brackets,
/// then the elapsed and total durations.
pub open spec fn progress_bar_text(current: int, total: int, len: int) -> Seq<char> {
    let fill = fill_count(current, total, len);
    seq!['['] + repeat_char('\u{2593}', fill) + repeat_char('\u{2591}', len - fill) + seq![
        ']',
        ' ',
    ] + duration_text(current) + seq![' ', '/', ' '] + duration_text(total)
}

/// Appends `count` copies of the single-character string `cell` to `out`.
fn push_repeated(out: &mut String, cell: &str, count: usize)
    requires
        cell@.len() == 1,
    ensures
        final(out)@ == old(out)@ + repeat_char(cell@[0], count as int),
{
    let mut i: usize = 0;
    while i < count
        invariant
            cell@.len() == 1,
            i <= count,
            out@ == old(out)@ + repeat_char(cell@[0], i as int),
        decreases count - i,
    {
        out.append(cell);
        i = i + 1;
        proof {
            assert(out@ =~= old(out)@ + repeat_char(cell@[0], i as int));
        }
    }
}

/// Renders the playback progress bar: `bar_length` cells, filled in
/// proportion to `current_seconds` of `total_seconds` (all of them once the
/// track has run past its length), followed by `current / total` durations.
/// Without a known total the track's position stands in for it.
pub fn create_progress_bar(current_seconds: u64, total_seconds: Option<u64>, bar_length: usize)
    -> (r: String)
    ensures
        r@ == progress_bar_text(current_seconds as int, (match total_seconds {
            Some(t) => t,
            None => current_seconds,
        }) as int, bar_length as int),
{
    let total: u64 = match total_seconds {
        Some(t) => t,
        None => current_seconds,
    };
    let fill: usize = if total == 0 {
        0
    } else if current_seconds >= total {
        bar_length
    } else {
        proof {
            assert((current_seconds as int) * (bar_length as int) + (total as int) / 2
                < 0x100000000000000000000000000000000) by (nonlinear_arith)
                requires
                    current_seconds <= 0xFFFFFFFFFFFFFFFFu64,
                    bar_length as int <= 0xFFFFFFFFFFFFFFFFu64,
                    total <= 0xFFFFFFFFFFFFFFFFu64;
        }
        let num: u128 = (current_seconds as u128) * (bar_length as u128) + ((total / 2) as u128);
        let den: u128 = total as u128;
        let f = num / den;
        proof {
            lemma_fill_count_bounds(current_seconds as int, total as int, bar_length as int);
            assert(f == fill_count(current_seconds as int, total as int, bar_length as int));
        }
        f as usize
    };
    proof {
        if total > 0 {
            lemma_fill_count_bounds(current_seconds as int, total as int, bar_length as int);
        }
        assert(fill == fill_count(current_seconds as int, total as int, bar_length as int));
        assert(fill <= bar_length);
    }
    proof {
        reveal_strlit("\u{2593}");
        reveal_strlit("\u{2591}");
    }
    let mut out = String::new();
    out.append("[");
    push_repeated(&mut out, "\u{2593}", fill);
    push_repeated(&mut out, "\u{2591}", bar_length - fill);
    out.append("] ");
    let current_text = format_duration(current_seconds);
    out.append(current_text.as_str());
    out.append(" / ");
    let total_text = format_duration(total);
    out.append(total_text.as_str());
    proof {
        reveal_strlit("[");
        reveal_strlit("] ");
        reveal_strlit(" / ");
        reveal_strlit("\u{2593}");
        reveal_strlit("\u{2591}");
        assert(out@ =~= progress_bar_text(current_seconds as int, total as int,
            bar_length as int));
    }
    out
}

/// One line of the queue listing: `**<index>:** <title>` and a newline.
pub open spec fn queue_line(index: int, title: Seq<char>) -> Seq<char> {
    seq!['*', '*'] + decimal_digits(index) + seq![':', '*', '*', ' '] + title + seq!['\n']
}

/// The queue listing from `next_index` on: one numbered line per title.
pub open spec fn queue_description_text(titles: Seq<Seq<char>>, next_index: int) -> Seq<char>
    decreases titles.len(),
{
    if titles.len() == 0 {
        Seq::empty()
    } else {
        queue_line(next_index, titles.first()) + queue_description_text(titles.drop_first(),
            next_index + 1)
    }
}

/// The views of a list of titles.
pub open spec fn title_views(titles: Seq<String>) -> Seq<Seq<char>> {
    Seq::new(titles.len(), |i: int| titles[i]@)
}

proof fn lemma_queue_description_step(titles: Seq<Seq<char>>, i: int, next_index: int)
    requires
        0 <= i < titles.len(),
    ensures
        queue_description_text(titles.skip(i), next_index + i) == queue_line(next_index + i,
            titles[i]) + queue_description_text(titles.skip(i + 1), next_index + i + 1),
{
    assert(titles.skip(i).first() == titles[i]);
    assert(titles.skip(i).drop_first() =~= titles.skip(i + 1));
}

/// Renders the queue as numbered lines, `**1:** <first title>` onward; an
/// empty queue gives the empty string.
pub fn format_queue_description(list_of_titles: Vec<String>) -> (r: String)
    ensures
        r@ == queue_description_text(title_views(list_of_titles@), 1),
{
    let ghost views = title_views(list_of_titles@);
    let mut out = String::new();
    let mut i: usize = 0;
    proof {
        assert(views.skip(0) =~= views);
    }
    while i < list_of_titles.len()
        invariant
            i <= list_of_titles@.len(),
            views == title_views(list_of_titles@),
            queue_description_text(views, 1) == out@ + queue_description_text(views.skip(i as int),
                1 + i),
        decreases list_of_titles@.len() - i,
    {
        let ghost out0 = out@;
        out.append("**");
        push_decimal(&mut out, (i as u64) + 1);
        out.append(":** ");
        out.append(list_of_titles[i].as_str());
        out.append("\n");
        i = i + 1;
        proof {
            reveal_strlit("**");
            reveal_strlit(":** ");
            reveal_strlit("\n");
            lemma_queue_description_step(views, i - 1, 1);
            assert(out@ =~= out0 + queue_line(i as int, views[i - 1]));
            assert(out@ + queue_description_text(views.skip(i as int), 1 + i) =~= out0
                + queue_description_text(views.skip(i - 1), i as int));
        }
    }
    proof {
        assert(views.skip(i as int).len() == 0);
        assert(queue_description_text(views.skip(i as int), 1 + i) =~= Seq::<char>::empty());
        assert(queue_description_text(views, 1) =~= out@);
    }
    out
}

/// What an enqueue reports: `**Queued** <title>!` when the queue already
/// had a current track, `**Playing** <title>!` when it starts at once.
pub open spec fn description_text(title: Seq<char>, should_enqueue: bool) -> Seq<char> {
    if should_enqueue {
        "**Queued** "@ + title + "!"@
    } else {
        "**Playing** "@ + title + "!"@
    }
}

/// Renders the enqueue report for a track title.
pub fn format_description(source_title: String, should_enqueue: bool) -> (r: String)
    ensures
        r@ == description_text(source_title@, should_enqueue),
{
    let mut out = String::new();
    if should_enqueue {
        out.append("**Queued** ");
    } else {
        out.append("**Playing** ");
    }
    out.append(source_title.as_str());
    out.append("!");
    out
}

} // verus!
