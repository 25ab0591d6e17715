use vstd::prelude::*;

verus! {

/// The decimal text of a digit.
pub open spec fn digit_text(d: nat) -> Seq<char> {
    if d == 0 {
        "0"@
    } else if d == 1 {
        "1"@
    } else if d == 2 {
        "2"@
    } else if d == 3 {
        "3"@
    } else if d == 4 {
        "4"@
    } else if d == 5 {
        "5"@
    } else if d == 6 {
        "6"@
    } else if d == 7 {
        "7"@
    } else if d == 8 {
        "8"@
    } else {
        "9"@
    }
}

/// The decimal text of `n`, without leading zeros.
pub open spec fn decimal_text(n: nat) -> Seq<char>
    decreases n,
{
    if n < 10 {
        digit_text(n)
    } else {
        decimal_text(n / 10) + digit_text(n % 10)
    }
}

/// The decimal text of `n`, padded with a leading zero to at least two digits.
pub open spec fn two_digit_text(n: nat) -> Seq<char> {
    if n < 10 {
        "0"@ + digit_text(n)
    } else {
        decimal_text(n)
    }
}

fn digit_str(d: u64) -> (r: &'static str)
    requires
        d < 10,
    ensures
        r@ == digit_text(d as nat),
{
    if d == 0 {
        "0"
    } else if d == 1 {
        "1"
    } else if d == 2 {
        "2"
    } else if d == 3 {
        "3"
    } else if d == 4 {
        "4"
    } else if d == 5 {
        "5"
    } else if d == 6 {
        "6"
    } else if d == 7 {
        "7"
    } else if d == 8 {
        "8"
    } else {
        "9"
    }
}

/// Appends the decimal text of `n` to `s`.
pub fn push_decimal(s: &mut String, n: u64)
    ensures
        final(s)@ == old(s)@ + decimal_text(n as nat),
    decreases n,
{
    if n < 10 {
        s.append(digit_str(n));
    } else {
        push_decimal(s, n / 10);
        s.append(digit_str(n % 10));
        assert(old(s)@ + decimal_text(n as nat) =~= old(s)@ + decimal_text((n / 10) as nat)
            + digit_text((n % 10) as nat));
    }
}

/// The decimal text of `n`.
pub fn decimal(n: u64) -> (r: String)
    ensures
        r@ == decimal_text(n as nat),
{
    let mut s = String::new();
    push_decimal(&mut s, n);
    assert(s@ =~= decimal_text(n as nat));
    s
}

/// Appends `n` as at least two digits to `s`.
pub fn push_two_digits(s: &mut String, n: u64)
    ensures
        final(s)@ == old(s)@ + two_digit_text(n as nat),
{
    if n < 10 {
        s.append("0");
        push_decimal(s, n);
        assert(s@ =~= old(s)@ + two_digit_text(n as nat));
    } else {
        push_decimal(s, n);
    }
}

/// Relies on str::chars: the characters of `s` in order.
#[verifier::external_body]
pub(crate) fn chars_of(s: &str) -> (r: Vec<char>)
    ensures
        r@ == s@,
{
    s.chars().collect()
}

/// Relies on String's FromIterator<char>: the string of these characters.
#[verifier::external_body]
pub(crate) fn string_of(v: &Vec<char>) -> (r: String)
    ensures
        r@ == v@,
{
    v.iter().collect()
}

/// The value of a run of decimal digits.
pub open spec fn digits_value(s: Seq<char>) -> nat
    decreases s.len(),
{
    if s.len() == 0 {
        0
    } else {
        digits_value(s.drop_last()) * 10 + (s.last() as nat - '0' as nat) as nat
    }
}

pub open spec fn all_digits(s: Seq<char>) -> bool {
    forall|i: int| 0 <= i < s.len() ==> '0' <= #[trigger] s[i] <= '9'
}

/// What `u32::from_str` accepts: an optional '+', then one or more decimal digits
/// whose value fits in a `u32`.
pub open spec fn parse_u32(s: Seq<char>) -> Option<u32> {
    let d = if s.len() > 0 && s[0] == '+' {
        s.drop_first()
    } else {
        s
    };
    if d.len() > 0 && all_digits(d) && digits_value(d) <= u32::MAX {
        Some(digits_value(d) as u32)
    } else {
        None
    }
}

proof fn lemma_digits_value_step(s: Seq<char>, c: char)
    ensures
        digits_value(s.push(c)) == digits_value(s) * 10 + (c as nat - '0' as nat) as nat,
{
    assert(s.push(c).drop_last() =~= s);
}

/// `u32::from_str` on characters, as `parse_u32` says.
pub(crate) fn parse_code(d: &Vec<char>, start: usize) -> (r: Option<u32>)
    requires
        start <= d@.len(),
    ensures
        r == parse_u32(d@.subrange(start as int, d@.len() as int)),
{
    let ghost s = d@.subrange(start as int, d@.len() as int);
    let mut i = start;
    if i < d.len() && d[i] == '+' {
        i = i + 1;
    }
    let ghost t = d@.subrange(i as int, d@.len() as int);
    assert(t =~= if s.len() > 0 && s[0] == '+' { s.drop_first() } else { s });
    if i >= d.len() {
        return None;
    }
    let mut value: u64 = 0;
    let mut k = i;
    while k < d.len()
        invariant
            i <= k <= d@.len(),
            t == d@.subrange(i as int, d@.len() as int),
            s == d@.subrange(start as int, d@.len() as int),
            t == (if s.len() > 0 && s[0] == '+' { s.drop_first() } else { s }),
            t.len() > 0,
            all_digits(d@.subrange(i as int, k as int)),
            value == digits_value(d@.subrange(i as int, k as int)),
            value <= u32::MAX,
        decreases d.len() - k,
    {
        let c = d[k];
        if c < '0' || c > '9' {
            assert(t[k - i] == c);
            assert(!all_digits(t));
            return None;
        }
        let digit = (c as u32 - '0' as u32) as u64;
        proof {
            assert(d@.subrange(i as int, k as int + 1) =~= d@.subrange(i as int, k as int).push(c));
            lemma_digits_value_step(d@.subrange(i as int, k as int), c);
        }
        value = value * 10 + digit;
        if value > u32::MAX as u64 {
            proof {
                lemma_digits_prefix_bound(t, (k + 1 - i) as int);
                assert(t.subrange(0, (k + 1 - i) as int) =~= d@.subrange(i as int, k as int + 1));
            }
            return None;
        }
        k = k + 1;
    }
    assert(d@.subrange(i as int, k as int) =~= t);
    Some(value as u32)
}

/// A prefix's value bounds the value of the whole run from below.
proof fn lemma_digits_prefix_bound(t: Seq<char>, n: int)
    requires
        0 <= n <= t.len(),
    ensures
        all_digits(t) ==> digits_value(t.subrange(0, n)) <= digits_value(t),
    decreases t.len() - n,
{
    if n < t.len() && all_digits(t) {
        let p = t.subrange(0, n + 1);
        assert(p.drop_last() =~= t.subrange(0, n));
        assert('0' <= p.last() <= '9');
        lemma_digits_prefix_bound(t, n + 1);
    }
    if n == t.len() {
        assert(t.subrange(0, n) =~= t);
    }
}

/// Playback time "mm:ss" of `ms` milliseconds; minutes are not capped.
pub fn format_time(ms: u32) -> (r: String)
    ensures
        r@ == two_digit_text((ms / 1000 / 60) as nat) + ":"@ + two_digit_text(
            ((ms / 1000) % 60) as nat,
        ),
{
    let seconds = ms / 1000;
    let minutes = seconds / 60;
    let seconds = seconds % 60;
    let mut s = String::new();
    push_two_digits(&mut s, minutes as u64);
    s.append(":");
    push_two_digits(&mut s, seconds as u64);
    assert(s@ =~= two_digit_text((ms / 1000 / 60) as nat) + ":"@ + two_digit_text(
        ((ms / 1000) % 60) as nat,
    ));
    s
}

/// The part of `s` before its first 'T' (all of `s` when there is none).
pub open spec fn before_t(s: Seq<char>) -> Seq<char>
    decreases s.len(),
{
    if s.len() == 0 {
        s
    } else if s[0] == 'T' {
        seq![]
    } else {
        seq![s[0]] + before_t(s.drop_first())
    }
}

/// The date part of an ISO 8601 timestamp: the text before the first 'T'.
pub fn format_published_date(iso_date: &str) -> (r: String)
    ensures
        r@ == before_t(iso_date@),
{
    let v = chars_of(iso_date);
    let mut n: usize = 0;
    assert(v@.subrange(0, v@.len() as int) =~= v@);
    assert(v@.take(0) + before_t(v@) =~= before_t(v@));
    while n < v.len() && v[n] != 'T'
        invariant
            v@ == iso_date@,
            0 <= n <= v@.len(),
            before_t(v@) == v@.take(n as int) + before_t(v@.subrange(n as int, v@.len() as int)),
        decreases v.len() - n,
    {
        let ghost rest = v@.subrange(n as int, v@.len() as int);
        assert(rest.drop_first() =~= v@.subrange(n as int + 1, v@.len() as int));
        assert(v@.take(n as int + 1) =~= v@.take(n as int) + seq![rest[0]]);
        n += 1;
    }
    let ghost rest = v@.subrange(n as int, v@.len() as int);
    assert(before_t(rest) =~= seq![]);
    let mut out: Vec<char> = Vec::new();
    let mut i: usize = 0;
    while i < n
        invariant
            0 <= i <= n <= v@.len(),
            out@ == v@.take(i as int),
        decreases n - i,
    {
        out.push(v[i]);
        assert(out@ =~= v@.take(i as int + 1));
        i += 1;
    }
    assert(v@.take(n as int) + seq![] =~= v@.take(n as int));
    string_of(&out)
}

/// A description cut to 97 characters and an ellipsis when over 100 characters.
pub fn truncate_description(desc: &str) -> (r: String)
    ensures
        r@ == if desc@.len() > 100 {
            desc@.take(97) + "..."@
        } else {
            desc@
        },
{
    let v = chars_of(desc);
    if v.len() > 100 {
        let mut out: Vec<char> = Vec::new();
        let mut i: usize = 0;
        while i < 97
            invariant
                v@ == desc@,
                v@.len() > 100,
                0 <= i <= 97,
                out@ == v@.take(i as int),
            decreases 97 - i,
        {
            out.push(v[i]);
            assert(out@ =~= v@.take(i as int + 1));
            i += 1;
        }
        let mut s = string_of(&out);
        s.append("...");
        s
    } else {
        desc.to_owned()
    }
}

/// The text after every leading "PT" is removed.
pub open spec fn without_pt(s: Seq<char>) -> Seq<char>
    decreases s.len(),
{
    if s.len() >= 2 && s[0] == 'P' && s[1] == 'T' {
        without_pt(s.subrange(2, s.len() as int))
    } else {
        s
    }
}

/// Hours, minutes and seconds read so far, and the pending digits.
pub struct DurationState {
    pub hours: u32,
    pub minutes: u32,
    pub seconds: u32,
    pub current: Seq<char>,
}

/// A digit extends the pending number; any other character ends it, and 'H', 'M'
/// or 'S' store it (zero when it is empty or too large) in its field.
pub open spec fn duration_step(st: DurationState, ch: char) -> DurationState {
    if '0' <= ch <= '9' {
        DurationState { current: st.current.push(ch), ..st }
    } else {
        let v = match parse_u32(st.current) {
            Some(x) => x,
            None => 0,
        };
        if ch == 'H' {
            DurationState { hours: v, current: seq![], ..st }
        } else if ch == 'M' {
            DurationState { minutes: v, current: seq![], ..st }
        } else if ch == 'S' {
            DurationState { seconds: v, current: seq![], ..st }
        } else {
            DurationState { current: seq![], ..st }
        }
    }
}

pub open spec fn duration_run(s: Seq<char>) -> DurationState
    decreases s.len(),
{
    if s.len() == 0 {
        DurationState { hours: 0, minutes: 0, seconds: 0, current: seq![] }
    } else {
        duration_step(duration_run(s.drop_last()), s.last())
    }
}

/// "h:mm:ss" when there are hours, else "m:ss", of an ISO 8601 duration such as
/// "PT1H2M10S".
pub open spec fn duration_text(iso: Seq<char>) -> Seq<char> {
    let st = duration_run(without_pt(iso));
    if st.hours > 0 {
        decimal_text(st.hours as nat) + ":"@ + two_digit_text(st.minutes as nat) + ":"@
            + two_digit_text(st.seconds as nat)
    } else {
        decimal_text(st.minutes as nat) + ":"@ + two_digit_text(st.seconds as nat)
    }
}

pub fn format_duration(iso_duration: &str) -> (r: String)
    ensures
        r@ == duration_text(iso_duration@),
{
    let v = chars_of(iso_duration);
    let mut start: usize = 0;
    assert(v@.subrange(0, v@.len() as int) =~= v@);
    while start < v.len() && v.len() - start >= 2 && v[start] == 'P' && v[start + 1] == 'T'
        invariant
            v@ == iso_duration@,
            0 <= start <= v@.len(),
            without_pt(v@) == without_pt(v@.subrange(start as int, v@.len() as int)),
        decreases v.len() - start,
    {
        let ghost rest = v@.subrange(start as int, v@.len() as int);
        assert(rest.subrange(2, rest.len() as int) =~= v@.subrange(start as int + 2, v@.len() as int));
        start += 2;
    }
    let ghost body = v@.subrange(start as int, v@.len() as int);
    assert(without_pt(body) == body);
    let mut hours: u32 = 0;
    let mut minutes: u32 = 0;
    let mut seconds: u32 = 0;
    let mut current: Vec<char> = Vec::new();
    let mut i = start;
    while i < v.len()
        invariant
            start <= i <= v@.len(),
            body == v@.subrange(start as int, v@.len() as int),
            duration_run(v@.subrange(start as int, i as int)) == (DurationState {
                hours,
                minutes,
                seconds,
                current: current@,
            }),
        decreases v.len() - i,
    {
        let ch = v[i];
        assert(v@.subrange(start as int, i as int + 1).drop_last() =~= v@.subrange(
            start as int,
            i as int,
        ));
        assert(v@.subrange(start as int, i as int + 1).last() == ch);
        if '0' <= ch && ch <= '9' {
            current.push(ch);
        } else {
            let value = match parse_code(&current, 0) {
                Some(x) => x,
                None => 0,
            };
            assert(current@.subrange(0, current@.len() as int) =~= current@);
            if ch == 'H' {
                hours = value;
            } else if ch == 'M' {
                minutes = value;
            } else if ch == 'S' {
                seconds = value;
            }
            current = Vec::new();
        }
        assert(current@ =~= duration_run(v@.subrange(start as int, i as int + 1)).current);
        i += 1;
    }
    assert(v@.subrange(start as int, i as int) =~= body);
    let mut s = String::new();
    if hours > 0 {
        push_decimal(&mut s, hours as u64);
        s.append(":");
        push_two_digits(&mut s, minutes as u64);
        s.append(":");
        push_two_digits(&mut s, seconds as u64);
    } else {
        push_decimal(&mut s, minutes as u64);
        s.append(":");
        push_two_digits(&mut s, seconds as u64);
    }
    assert(s@ =~= duration_text(iso_duration@));
    s
}

/// The text of each string slice.
pub open spec fn str_views(s: Seq<&str>) -> Seq<Seq<char>> {
    s.map_values(|x: &str| x@)
}

/// Owned copies of string slices.
pub fn text_lines(items: &[&str]) -> (r: Vec<String>)
    ensures
        crate::creature::ids(r@) == str_views(items@),
{
    let mut r: Vec<String> = Vec::new();
    let mut i: usize = 0;
    while i < items.len()
        invariant
            0 <= i <= items@.len(),
            r@.len() == i,
            forall|j: int| 0 <= j < i ==> (#[trigger] r@[j])@ == items@[j]@,
        decreases items.len() - i,
    {
        r.push(items[i].to_owned());
        i += 1;
    }
    assert(crate::creature::ids(r@) =~= str_views(items@));
    r
}
} // verus!
