//! The short labels of the user pages: relative times, avatar initials and
//! watch-time durations.

use vstd::prelude::*;
use crate::text::{chars_of, int_decimal, is_white_space, push_char, push_decimal, white_space};
use crate::time::{
    trunc_div,
    chrono_format_ymd, chrono_now, chrono_parse_rfc3339, chrono_rfc3339_instant,
    chrono_seconds_between, chrono_seconds_since, chrono_ymd_text, instant_of, Timestamp,
};

verus! {

/// The em dash shown where no time is known.
pub open spec fn dash() -> Seq<char> {
    seq!['\u{2014}']
}

/// `"<n><unit> ago"`.
pub open spec fn ago(n: int, unit: char) -> Seq<char> {
    int_decimal(n) + seq![unit, ' ', 'a', 'g', 'o']
}

/// The label for an age of `secs` seconds, or `None` from 30 days on, where
/// the date itself is shown instead.
pub open spec fn age_text(secs: int) -> Option<Seq<char>> {
    let mins = secs / 60;
    let hours = mins / 60;
    let days = hours / 24;
    if secs < 0 {
        Some(dash())
    } else if secs < 60 {
        Some(ago(secs, 's'))
    } else if mins < 60 {
        Some(ago(mins, 'm'))
    } else if hours < 24 {
        Some(ago(hours, 'h'))
    } else if days < 30 {
        Some(ago(days, 'd'))
    } else {
        None
    }
}

/// What `relative_time` shows for `dt` when the clock reads `now`.
pub open spec fn relative_text(now: Timestamp, dt: Option<Timestamp>) -> Seq<char> {
    match dt {
        None => dash(),
        Some(d) => match age_text(
            chrono_seconds_between(now.secs, now.nanos, d.secs, d.nanos) as int,
        ) {
            Some(label) => label,
            None => chrono_ymd_text(d.secs, d.nanos),
        },
    }
}

fn push_ago_suffix(s: &mut String, unit: char)
    ensures
        final(s)@ == old(s)@ + seq![unit, ' ', 'a', 'g', 'o'],
{
    push_char(s, unit);
    push_char(s, ' ');
    push_char(s, 'a');
    push_char(s, 'g');
    push_char(s, 'o');
    assert(final(s)@ =~= old(s)@ + seq![unit, ' ', 'a', 'g', 'o']);
}

fn ago_label(n: i64, unit: char) -> (res: String)
    ensures
        res@ == ago(n as int, unit),
{
    let mut s = String::new();
    push_decimal(&mut s, n);
    push_ago_suffix(&mut s, unit);
    assert(s@ =~= ago(n as int, unit));
    s
}

fn dash_label() -> (res: String)
    ensures
        res@ == dash(),
{
    let mut s = String::new();
    push_char(&mut s, '\u{2014}');
    assert(s@ =~= dash());
    s
}

/// The label for an age of `secs` seconds: "—" for a time in the future,
/// then seconds, minutes, hours or days ago, and `None` from 30 days on.
pub fn age_label(secs: i64) -> (res: Option<String>)
    ensures
        res is Some <==> age_text(secs as int) is Some,
        res matches Some(l) ==> l@ == age_text(secs as int)->0,
{
    if secs < 0 {
        return Some(dash_label());
    }
    if secs < 60 {
        return Some(ago_label(secs, 's'));
    }
    let mins = secs / 60;
    if mins < 60 {
        return Some(ago_label(mins, 'm'));
    }
    let hours = mins / 60;
    if hours < 24 {
        return Some(ago_label(hours, 'h'));
    }
    let days = hours / 24;
    if days < 30 {
        return Some(ago_label(days, 'd'));
    }
    None
}

/// Renders `dt` as a short label relative to `now` ("3m ago", "2h ago",
/// "5d ago"), as its date `YYYY-MM-DD` from 30 days on, and as "—" when it is
/// unknown or in the future.
pub fn relative_time_at(now: Timestamp, dt: Option<Timestamp>) -> (res: String)
    requires
        now.valid(),
        dt matches Some(d) ==> d.valid(),
    ensures
        res@ == relative_text(now, dt),
{
    match dt {
        None => dash_label(),
        Some(d) => {
            let secs = chrono_seconds_since(now, d);
            match age_label(secs) {
                Some(label) => label,
                None => chrono_format_ymd(d),
            }
        },
    }
}

/// Renders `dt` relative to the current time (see `relative_time_at`).
pub fn relative_time(dt: Option<Timestamp>) -> (res: String)
    requires
        dt matches Some(d) ==> d.valid(),
    ensures
        dt is None ==> res@ == dash(),
        exists|now: Timestamp|
            now.valid() && now.is_regular() && now.secs >= 0 && res@ == relative_text(now, dt),
{
    let now = chrono_now();
    relative_time_at(now, dt)
}

/// Parses an RFC 3339 timestamp string produced by the server into an instant
/// in UTC; `None` for a missing or unparseable value.
pub fn parse_dt(s: &Option<String>) -> (res: Option<Timestamp>)
    ensures
        res == match s {
            Some(v) => instant_of(chrono_rfc3339_instant(v@)),
            None => None,
        },
        res matches Some(t) ==> t.valid(),
{
    match s {
        Some(v) => chrono_parse_rfc3339(v.as_str()),
        None => None,
    }
}

/// Position `i` of `s` begins a word: it is not white space and follows white
/// space or the start.
pub open spec fn starts_word(s: Seq<char>, i: int) -> bool {
    !is_white_space(s[i]) && (i == 0 || is_white_space(s[i - 1]))
}

/// The first character of each white-space separated word of `s`, in order
/// (the first characters of what `split_whitespace` yields).
pub open spec fn word_initials(s: Seq<char>) -> Seq<char>
    decreases s.len(),
{
    if s.len() == 0 {
        seq![]
    } else {
        let prev = word_initials(s.drop_last());
        if starts_word(s, s.len() - 1) {
            prev.push(s.last())
        } else {
            prev
        }
    }
}

/// The avatar letters for a name: the first letters of its first two words,
/// or of its only word, or "?" when it has none.
pub open spec fn initials_text(name: Seq<char>) -> Seq<char> {
    let w = word_initials(name);
    if w.len() >= 2 {
        seq![w[0], w[1]]
    } else if w.len() == 1 {
        seq![w[0]]
    } else {
        seq!['?']
    }
}

/// First-letter avatar fallback (up to two letters).
pub fn initials(name: &str) -> (res: String)
    ensures
        res@ == initials_text(name@),
{
    let cs = chars_of(name);
    let mut found: Vec<char> = Vec::new();
    let mut prev_ws = true;
    let mut i: usize = 0;
    while i < cs.len()
        invariant
            i <= cs.len(),
            found@ == word_initials(cs@.take(i as int)),
            prev_ws == (i == 0 || is_white_space(cs@[i - 1])),
        decreases cs.len() - i,
    {
        let c = cs[i];
        let ws = white_space(c);
        proof {
            let t = cs@.take(i + 1);
            assert(t.drop_last() =~= cs@.take(i as int));
            assert(t.last() == c);
            assert(i > 0 ==> t[i - 1] == cs@[i - 1]);
            assert(starts_word(t, i as int) == (!ws && prev_ws));
        }
        if !ws && prev_ws {
            found.push(c);
        }
        prev_ws = ws;
        i = i + 1;
    }
    assert(cs@.take(cs.len() as int) =~= name@);
    let mut s = String::new();
    if found.len() >= 2 {
        push_char(&mut s, found[0]);
        push_char(&mut s, found[1]);
    } else if found.len() == 1 {
        push_char(&mut s, found[0]);
    } else {
        push_char(&mut s, '?');
    }
    assert(s@ =~= initials_text(name@));
    s
}

/// The watch-time label for `secs` seconds: "Xh Ym" from an hour on, "Ym"
/// from a minute on, "Xs" below, and "0m" for no time at all.
pub open spec fn duration_text(secs: int) -> Seq<char> {
    let h = secs / 3600;
    let m = (secs % 3600) / 60;
    if secs <= 0 {
        seq!['0', 'm']
    } else if h > 0 {
        int_decimal(h) + seq!['h', ' '] + int_decimal(m) + seq!['m']
    } else if m > 0 {
        int_decimal(m) + seq!['m']
    } else {
        int_decimal(secs) + seq!['s']
    }
}

/// Humanizes a duration of seconds into "Xh Ym" / "Ym" / "Xs".
pub fn humanize_seconds(secs: i64) -> (res: String)
    ensures
        res@ == duration_text(secs as int),
{
    let mut s = String::new();
    if secs <= 0 {
        push_char(&mut s, '0');
        push_char(&mut s, 'm');
        assert(s@ =~= duration_text(secs as int));
        return s;
    }
    let h = secs / 3600;
    let m = (secs % 3600) / 60;
    if h > 0 {
        push_decimal(&mut s, h);
        push_char(&mut s, 'h');
        push_char(&mut s, ' ');
        push_decimal(&mut s, m);
        push_char(&mut s, 'm');
    } else if m > 0 {
        push_decimal(&mut s, m);
        push_char(&mut s, 'm');
    } else {
        push_decimal(&mut s, secs);
        push_char(&mut s, 's');
    }
    assert(s@ =~= duration_text(secs as int));
    s
}

/// A time a second or more after `now` shows the dash (outside leap seconds,
/// where `chrono`'s difference is the exact one).
pub proof fn lemma_future_shows_dash(now: Timestamp, d: Timestamp)
    requires
        now.is_regular(),
        d.is_regular(),
        (d.secs - now.secs) * 1_000_000_000 + d.nanos - now.nanos >= 1_000_000_000,
        chrono_seconds_between(now.secs, now.nanos, d.secs, d.nanos) == trunc_div(
            (now.secs - d.secs) * 1_000_000_000 + now.nanos - d.nanos,
            1_000_000_000,
        ),
    ensures
        relative_text(now, Some(d)) == dash(),
{
    let diff = (now.secs - d.secs) * 1_000_000_000 + now.nanos - d.nanos;
    assert(-diff >= 1_000_000_000);
    assert((-diff) / 1_000_000_000 >= 1);
}

proof fn lemma_word_initials_len(s: Seq<char>)
    ensures
        word_initials(s).len() > 0 <==> exists|i: int| 0 <= i < s.len() && !is_white_space(#[trigger] s[i]),
    decreases s.len(),
{
    if s.len() > 0 {
        let p = s.drop_last();
        lemma_word_initials_len(p);
        let last = s.len() - 1;
        if word_initials(p).len() > 0 {
            let i = choose|i: int| 0 <= i < p.len() && !is_white_space(#[trigger] p[i]);
            assert(s[i] == p[i]);
        } else if !is_white_space(s[last]) {
            // the last character is the first non-white one, so it starts a word
            assert forall|j: int| 0 <= j < p.len() implies is_white_space(#[trigger] p[j]) by {}
            if last > 0 {
                assert(is_white_space(p[last - 1]));
            }
        }
        if exists|i: int| 0 <= i < s.len() && !is_white_space(#[trigger] s[i]) {
            let i = choose|i: int| 0 <= i < s.len() && !is_white_space(#[trigger] s[i]);
            if i < last {
                assert(!is_white_space(p[i]));
            }
        }
    }
}

/// Avatar initials are one or two characters: "?" for a name of nothing but
/// white space, and otherwise letters that are not white space.
pub proof fn lemma_initials_shape(name: Seq<char>)
    ensures
        1 <= initials_text(name).len() <= 2,
        (forall|i: int| 0 <= i < name.len() ==> is_white_space(#[trigger] name[i])) ==> initials_text(name)
            == seq!['?'],
        (exists|i: int| 0 <= i < name.len() && !is_white_space(#[trigger] name[i])) ==> forall|k: int|
            0 <= k < initials_text(name).len() ==> !is_white_space(#[trigger] initials_text(name)[k]),
{
    lemma_word_initials_len(name);
    lemma_initials_are_word_starts(name);
    let w = word_initials(name);
    if w.len() == 0 {
        assert forall|i: int| 0 <= i < name.len() implies is_white_space(#[trigger] name[i]) by {}
    } else {
        assert(!is_white_space(w[0]));
        if w.len() >= 2 {
            assert(!is_white_space(w[1]));
        }
    }
}

proof fn lemma_initials_are_word_starts(s: Seq<char>)
    ensures
        forall|k: int| 0 <= k < word_initials(s).len() ==> !is_white_space(#[trigger] word_initials(s)[k]),
    decreases s.len(),
{
    if s.len() > 0 {
        let p = word_initials(s.drop_last());
        lemma_initials_are_word_starts(s.drop_last());
        assert forall|k: int| 0 <= k < word_initials(s).len() implies !is_white_space(
            #[trigger] word_initials(s)[k],
        ) by {
            if k < p.len() {
                assert(word_initials(s)[k] == p[k]);
            }
        }
    }
}

/// The hours and minutes a watch-time label shows account for the duration
/// to within its last minute: they never overstate it, and fall short of it
/// by less than 60 seconds.
pub proof fn lemma_duration_label_within_a_minute(secs: int)
    requires
        secs > 0,
    ensures
        ({
            let h = secs / 3600;
            let m = (secs % 3600) / 60;
            0 <= secs - (h * 3600 + m * 60) < 60 && 0 <= m < 60
        }),
{
}

} // verus!
