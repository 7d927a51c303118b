use vstd::prelude::*;
use vstd::string::{StringExecFns, StrSliceExecFns};
use crate::digits::{digits_val, is_digit_char, digit_val, pow10, lemma_pow10_mono};
use crate::moment::TimeOfDay;

verus! {

/// The views of a script of input lines.
pub open spec fn line_views(ls: Seq<String>) -> Seq<Seq<char>> {
    ls.map_values(|s: String| s@)
}

/// The line that confirms the current state of a prompt.
pub open spec fn is_confirm(s: Seq<char>) -> bool {
    s.len() == 1 && s[0] == '0'
}

fn is_confirm_line(line: &str) -> (r: bool)
    ensures
        r == is_confirm(line@),
{
    line.unicode_len() == 1 && line.get_char(0) == '0'
}

/// A line read as a selection number: one to eighteen digits and nothing
/// else. Anything longer could not index a list held in memory anyway.
pub open spec fn spec_parse_index(s: Seq<char>) -> Option<int> {
    if 1 <= s.len() <= 18 && (forall|k: int| 0 <= k < s.len() ==> is_digit_char(s[k])) {
        Some(digits_val(s))
    } else {
        None
    }
}

fn parse_index(line: &str) -> (r: Option<u64>)
    ensures
        r is Some <==> spec_parse_index(line@) is Some,
        r matches Some(v) ==> spec_parse_index(line@) == Some(v as int),
{
    let len = line.unicode_len();
    if len < 1 || len > 18 {
        return None;
    }
    let mut v: u64 = 0;
    let mut k: usize = 0;
    proof {
        assert(line@.subrange(0, 0) =~= Seq::<char>::empty());
    }
    while k < len
        invariant
            k <= len,
            1 <= len <= 18,
            line@.len() == len,
            forall|j: int| 0 <= j < k ==> is_digit_char(line@[j]),
            v == digits_val(line@.subrange(0, k as int)),
            v < pow10(k as nat),
        decreases len - k,
    {
        proof {
            reveal_with_fuel(pow10, 19);
            assert(pow10(k as nat) <= pow10(17)) by {
                lemma_pow10_mono(k as nat, 17);
            }
        }
        let c = line.get_char(k);
        let cu = c as u32;
        if !(48 <= cu && cu <= 57) {
            return None;
        }
        let d = (cu - 48) as u64;
        proof {
            let pre = line@.subrange(0, k as int);
            let post = line@.subrange(0, k as int + 1);
            assert(post.drop_last() =~= pre);
            assert(post.last() == line@[k as int]);
        }
        v = v * 10 + d;
        k = k + 1;
    }
    proof {
        assert(line@.subrange(0, len as int) =~= line@);
    }
    Some(v)
}

/// One round of the single-choice prompt over a list of `n` items: only a
/// number in 1..=n picks an item; anything else asks again.
pub fn single_choice_step(n: usize, line: &str) -> (r: Option<usize>)
    ensures
        r is Some <==> (spec_parse_index(line@) matches Some(v) && 1 <= v <= n),
        r matches Some(i) ==> spec_parse_index(line@) == Some(i as int + 1) && i < n,
{
    match parse_index(line) {
        None => None,
        Some(v) => if 1 <= v && v <= n as u64 {
            Some((v - 1) as usize)
        } else {
            None
        },
    }
}

/// What a single-choice prompt answers for a script of lines: the first line
/// holding a number in 1..=n picks that item; an empty list picks nothing.
pub open spec fn spec_run_single(n: int, lines: Seq<Seq<char>>) -> Option<int>
    decreases lines.len(),
{
    if n == 0 || lines.len() == 0 {
        None
    } else if spec_parse_index(lines[0]) matches Some(v) && 1 <= v <= n {
        Some(spec_parse_index(lines[0])->Some_0 - 1)
    } else {
        spec_run_single(n, lines.drop_first())
    }
}

/// Runs the single-choice prompt over a script of input lines.
pub fn run_single_choice(n: usize, lines: &Vec<String>) -> (r: Option<usize>)
    ensures
        ({
            let res = spec_run_single(n as int, line_views(lines@));
            match r {
                None => res is None,
                Some(i) => res == Some(i as int),
            }
        }),
        r matches Some(i) ==> i < n,
{
    if n == 0 {
        return None;
    }
    let ghost all = line_views(lines@);
    proof {
        assert(all.skip(0) =~= all);
    }
    let mut j: usize = 0;
    while j < lines.len()
        invariant
            j <= lines.len(),
            n > 0,
            all == line_views(lines@),
            all.len() == lines@.len(),
            spec_run_single(n as int, all.skip(j as int)) == spec_run_single(n as int, all),
        decreases lines.len() - j,
    {
        proof {
            assert(all.skip(j as int)[0] == all[j as int]);
            assert(all[j as int] == lines@[j as int]@);
            assert(all.skip(j as int).drop_first() =~= all.skip(j as int + 1));
        }
        match single_choice_step(n, lines[j].as_str()) {
            Some(i) => {
                return Some(i);
            },
            None => {
                j = j + 1;
            },
        }
    }
    proof {
        assert(all.skip(j as int).len() == 0);
    }
    None
}

/// No index appears twice in a selection.
pub open spec fn distinct_seq(s: Seq<usize>) -> bool {
    forall|i: int, j: int| 0 <= i < j < s.len() ==> s[i] != s[j]
}

/// Toggling membership: a present value leaves, an absent one joins.
pub open spec fn spec_toggle(s: Seq<usize>, x: usize) -> Seq<usize> {
    if s.contains(x) {
        s.remove_value(x)
    } else {
        s.push(x)
    }
}

/// Toggles one index in a selection, keeping indexes distinct.
pub fn toggle_index(sel: &mut Vec<usize>, x: usize)
    requires
        distinct_seq(old(sel)@),
    ensures
        final(sel)@ == spec_toggle(old(sel)@, x),
        distinct_seq(final(sel)@),
        forall|y: usize| final(sel)@.contains(y) ==> old(sel)@.contains(y) || y == x,
{
    let ghost orig = sel@;
    let mut i: usize = 0;
    while i < sel.len()
        invariant
            sel@ == orig,
            old(sel)@ == orig,
            distinct_seq(orig),
            i <= orig.len(),
            forall|j: int| 0 <= j < i ==> orig[j] != x,
        decreases sel@.len() - i,
    {
        if sel[i] == x {
            proof {
                orig.index_of_first_ensures(x);
                assert(orig.contains(x));
                assert(orig.index_of_first(x) == Some(i as int));
                orig.remove_ensures(i as int);
                assert(orig.remove(i as int) =~= spec_toggle(orig, x));
            }
            sel.remove(i);
            proof {
                assert(sel@ == orig.remove(i as int));
                assert(sel@ =~= spec_toggle(orig, x));
                assert forall|a: int, b: int| 0 <= a < b < sel@.len() implies sel@[a] != sel@[b] by {
                    orig.remove_ensures(i as int);
                    let aa: int = if a < i { a } else { a + 1 };
                    let bb: int = if b < i { b } else { b + 1 };
                    assert(sel@[a] == orig[aa]);
                    assert(sel@[b] == orig[bb]);
                }
                assert forall|y: usize| sel@.contains(y) implies orig.contains(y) || y == x by {
                    let idx = choose|idx: int| 0 <= idx < sel@.len() && sel@[idx] == y;
                    orig.remove_ensures(i as int);
                    if idx < i {
                        assert(orig[idx] == y);
                    } else {
                        assert(orig[idx + 1] == y);
                    }
                }
            }
            return ;
        }
        i = i + 1;
    }
    proof {
        assert(!orig.contains(x));
    }
    sel.push(x);
    proof {
        assert(sel@ == spec_toggle(orig, x));
        assert forall|a: int, b: int| 0 <= a < b < sel@.len() implies sel@[a] != sel@[b] by {
            if b == sel@.len() - 1 {
                assert(sel@[a] == orig[a]);
                assert(orig.contains(orig[a]));
            }
        }
        assert forall|y: usize| sel@.contains(y) implies orig.contains(y) || y == x by {
            let idx = choose|idx: int| 0 <= idx < sel@.len() && sel@[idx] == y;
            if idx < sel@.len() - 1 {
                assert(orig[idx] == y);
            }
        }
    }
}

/// Toggling the same index twice leaves membership in the selection exactly
/// as it was.
pub proof fn lemma_toggle_twice(s: Seq<usize>, x: usize)
    requires
        distinct_seq(s),
    ensures
        forall|y: usize| spec_toggle(spec_toggle(s, x), x).contains(y) <==> s.contains(y),
{
    if s.contains(x) {
        let t1 = s.remove_value(x);
        s.index_of_first_ensures(x);
        let i = s.index_of_first(x)->Some_0;
        s.remove_ensures(i);
        assert forall|y: usize| t1.contains(y) implies s.contains(y) by {
            let idx = choose|idx: int| 0 <= idx < t1.len() && t1[idx] == y;
            if idx < i {
                assert(s[idx] == y);
            } else {
                assert(s[idx + 1] == y);
            }
        }
        assert(!t1.contains(x)) by {
            if t1.contains(x) {
                let idx = choose|idx: int| 0 <= idx < t1.len() && t1[idx] == x;
                if idx < i {
                    assert(s[idx] == x);
                } else {
                    assert(s[idx + 1] == x);
                }
            }
        }
        let t2 = spec_toggle(t1, x);
        assert(t2 == t1.push(x));
        assert forall|y: usize| t2.contains(y) implies s.contains(y) by {
            let idx = choose|idx: int| 0 <= idx < t2.len() && t2[idx] == y;
            if idx < t2.len() - 1 {
                assert(t1[idx] == y);
            }
        }
        assert forall|y: usize| s.contains(y) implies t2.contains(y) by {
            if y == x {
                assert(t2[t2.len() - 1] == x);
            } else {
                let idx = choose|idx: int| 0 <= idx < s.len() && s[idx] == y;
                if idx < i {
                    assert(t1[idx] == y);
                    assert(t2[idx] == y);
                } else {
                    assert(idx != i);
                    assert(t1[idx - 1] == y);
                    assert(t2[idx - 1] == y);
                }
            }
        }
    } else {
        let t1 = s.push(x);
        assert(t1.contains(x)) by {
            assert(t1[t1.len() - 1] == x);
        }
        t1.index_of_first_ensures(x);
        let i = t1.index_of_first(x)->Some_0;
        assert(i == t1.len() - 1) by {
            if i < t1.len() - 1 {
                assert(s[i] == t1[i]);
                assert(s.contains(s[i]));
            }
        }
        let t2 = t1.remove(i);
        t1.remove_ensures(i);
        assert(t2 =~= s);
    }
}

/// One round of the multi-choice prompt: `0` finishes with the selection as
/// it stands, a number in 1..=n toggles that item, anything else asks again.
pub fn multi_choice_step(n: usize, sel: &mut Vec<usize>, line: &str) -> (done: bool)
    requires
        distinct_seq(old(sel)@),
        forall|k: int| 0 <= k < old(sel)@.len() ==> old(sel)@[k] < n,
    ensures
        done == is_confirm(line@),
        done ==> final(sel)@ == old(sel)@,
        !done ==> ({
            if spec_parse_index(line@) matches Some(v) && 1 <= v <= n {
                final(sel)@ == spec_toggle(old(sel)@, (spec_parse_index(line@)->Some_0 - 1) as usize)
            } else {
                final(sel)@ == old(sel)@
            }
        }),
        distinct_seq(final(sel)@),
        forall|k: int| 0 <= k < final(sel)@.len() ==> final(sel)@[k] < n,
{
    if is_confirm_line(line) {
        return true;
    }
    match single_choice_step(n, line) {
        Some(i) => {
            toggle_index(sel, i);
            proof {
                assert forall|k: int| 0 <= k < sel@.len() implies sel@[k] < n by {
                    assert(sel@.contains(sel@[k]));
                }
            }
        },
        None => {
            proof {
                if spec_parse_index(line@) matches Some(v) && 1 <= v <= n {
                    assert(false);
                }
            }
        },
    }
    false
}

/// What a multi-choice prompt answers for a script of lines: toggles apply
/// in order until a confirming line returns the accumulated selection.
pub open spec fn spec_run_multi(n: int, sel: Seq<usize>, lines: Seq<Seq<char>>) -> Option<
    Seq<usize>,
>
    decreases lines.len(),
{
    if lines.len() == 0 {
        None
    } else if is_confirm(lines[0]) {
        Some(sel)
    } else if spec_parse_index(lines[0]) matches Some(v) && 1 <= v <= n {
        spec_run_multi(
            n,
            spec_toggle(sel, (spec_parse_index(lines[0])->Some_0 - 1) as usize),
            lines.drop_first(),
        )
    } else {
        spec_run_multi(n, sel, lines.drop_first())
    }
}

/// Runs the multi-choice prompt over a script of input lines, starting from
/// an empty selection.
pub fn run_multi_choice(n: usize, lines: &Vec<String>) -> (r: Option<Vec<usize>>)
    ensures
        ({
            let res = spec_run_multi(n as int, Seq::empty(), line_views(lines@));
            match r {
                None => res is None,
                Some(v) => res == Some(v@),
            }
        }),
        r matches Some(v) ==> distinct_seq(v@) && (forall|k: int| 0 <= k < v@.len() ==> v@[k] < n),
{
    let ghost all = line_views(lines@);
    proof {
        assert(all.skip(0) =~= all);
    }
    let mut sel: Vec<usize> = Vec::new();
    let mut j: usize = 0;
    while j < lines.len()
        invariant
            j <= lines.len(),
            all == line_views(lines@),
            all.len() == lines@.len(),
            distinct_seq(sel@),
            forall|k: int| 0 <= k < sel@.len() ==> sel@[k] < n,
            spec_run_multi(n as int, sel@, all.skip(j as int)) == spec_run_multi(
                n as int,
                Seq::empty(),
                all,
            ),
        decreases lines.len() - j,
    {
        proof {
            assert(all.skip(j as int)[0] == all[j as int]);
            assert(all[j as int] == lines@[j as int]@);
            assert(all.skip(j as int).drop_first() =~= all.skip(j as int + 1));
        }
        let done = multi_choice_step(n, &mut sel, lines[j].as_str());
        if done {
            return Some(sel);
        }
        j = j + 1;
    }
    proof {
        assert(all.skip(j as int).len() == 0);
    }
    None
}

/// A wall-clock time read as zero-padded `HH:MM`, rejected unless it names a
/// real time of day.
pub open spec fn spec_parse_time(s: Seq<char>) -> Option<TimeOfDay> {
    if s.len() == 5 && is_digit_char(s[0]) && is_digit_char(s[1]) && s[2] == ':' && is_digit_char(
        s[3],
    ) && is_digit_char(s[4]) {
        let h = digit_val(s[0]) * 10 + digit_val(s[1]);
        let mi = digit_val(s[3]) * 10 + digit_val(s[4]);
        if h < 24 && mi < 60 {
            Some(TimeOfDay { hour: h as u8, minute: mi as u8 })
        } else {
            None
        }
    } else {
        None
    }
}

pub fn parse_time(line: &str) -> (r: Option<TimeOfDay>)
    ensures
        r == spec_parse_time(line@),
        r matches Some(t) ==> t.valid(),
{
    if line.unicode_len() != 5 {
        return None;
    }
    let c0 = line.get_char(0) as u32;
    let c1 = line.get_char(1) as u32;
    let c2 = line.get_char(2);
    let c3 = line.get_char(3) as u32;
    let c4 = line.get_char(4) as u32;
    if !(48 <= c0 && c0 <= 57 && 48 <= c1 && c1 <= 57 && c2 == ':' && 48 <= c3 && c3 <= 57 && 48
        <= c4 && c4 <= 57) {
        return None;
    }
    let h = (c0 - 48) * 10 + (c1 - 48);
    let mi = (c3 - 48) * 10 + (c4 - 48);
    if h < 24 && mi < 60 {
        Some(TimeOfDay { hour: h as u8, minute: mi as u8 })
    } else {
        None
    }
}

/// One round of the time-of-day prompt.
pub enum TimePromptStep {
    /// A confirming line returns the last accepted time, if any.
    Confirmed(Option<TimeOfDay>),
    /// A readable time no earlier than the given start becomes current.
    Updated(TimeOfDay),
    /// Unreadable input, or an end time before the start, asks again.
    Rejected,
}

/// One round of the time-of-day prompt. When a start time is given, a time
/// strictly earlier than it is rejected, so a confirmed end never precedes
/// the start.
pub fn time_step(start: Option<TimeOfDay>, current: Option<TimeOfDay>, line: &str) -> (r:
    TimePromptStep)
    requires
        start matches Some(st) ==> st.valid(),
        current matches Some(c) ==> c.valid() && (start matches Some(st) ==> st.spec_seconds()
            <= c.spec_seconds()),
    ensures
        is_confirm(line@) ==> r == TimePromptStep::Confirmed(current),
        !is_confirm(line@) ==> r == ({
            match spec_parse_time(line@) {
                None => TimePromptStep::Rejected,
                Some(t) => if start matches Some(st) && st.spec_seconds() > t.spec_seconds() {
                    TimePromptStep::Rejected
                } else {
                    TimePromptStep::Updated(t)
                },
            }
        }),
        r matches TimePromptStep::Confirmed(c) ==> c == current,
        r matches TimePromptStep::Updated(t) ==> t.valid() && (start matches Some(st) ==> st.spec_seconds()
            <= t.spec_seconds()),
{
    if is_confirm_line(line) {
        return TimePromptStep::Confirmed(current);
    }
    match parse_time(line) {
        None => TimePromptStep::Rejected,
        Some(t) => {
            match start {
                Some(st) => {
                    if st.seconds() > t.seconds() {
                        TimePromptStep::Rejected
                    } else {
                        TimePromptStep::Updated(t)
                    }
                },
                None => TimePromptStep::Updated(t),
            }
        },
    }
}

/// What the time prompt answers for a script of lines.
pub open spec fn spec_run_time(
    start: Option<TimeOfDay>,
    current: Option<TimeOfDay>,
    lines: Seq<Seq<char>>,
) -> Option<Option<TimeOfDay>>
    decreases lines.len(),
{
    if lines.len() == 0 {
        None
    } else if is_confirm(lines[0]) {
        Some(current)
    } else {
        match spec_parse_time(lines[0]) {
            None => spec_run_time(start, current, lines.drop_first()),
            Some(t) => if start matches Some(st) && st.spec_seconds() > t.spec_seconds() {
                spec_run_time(start, current, lines.drop_first())
            } else {
                spec_run_time(start, Some(t), lines.drop_first())
            },
        }
    }
}

/// Runs the time-of-day prompt over a script of input lines. A confirmed
/// time never stands strictly before the given start time.
pub fn run_time_prompt(start: Option<TimeOfDay>, lines: &Vec<String>) -> (r: Option<
    Option<TimeOfDay>,
>)
    requires
        start matches Some(st) ==> st.valid(),
    ensures
        r == spec_run_time(start, None::<TimeOfDay>, line_views(lines@)),
        r matches Some(c) ==> (c matches Some(t) ==> t.valid() && (start matches Some(st)
            ==> st.spec_seconds() <= t.spec_seconds())),
{
    let ghost all = line_views(lines@);
    proof {
        assert(all.skip(0) =~= all);
    }
    let mut current: Option<TimeOfDay> = None;
    let mut j: usize = 0;
    while j < lines.len()
        invariant
            j <= lines.len(),
            all == line_views(lines@),
            all.len() == lines@.len(),
            start matches Some(st) ==> st.valid(),
            current matches Some(c) ==> c.valid() && (start matches Some(st) ==> st.spec_seconds()
                <= c.spec_seconds()),
            spec_run_time(start, current, all.skip(j as int)) == spec_run_time(
                start,
                None::<TimeOfDay>,
                all,
            ),
        decreases lines.len() - j,
    {
        proof {
            assert(all.skip(j as int)[0] == all[j as int]);
            assert(all[j as int] == lines@[j as int]@);
            assert(all.skip(j as int).drop_first() =~= all.skip(j as int + 1));
        }
        match time_step(start, current, lines[j].as_str()) {
            TimePromptStep::Confirmed(c) => {
                return Some(c);
            },
            TimePromptStep::Updated(t) => {
                current = Some(t);
            },
            TimePromptStep::Rejected => {
            },
        }
        j = j + 1;
    }
    proof {
        assert(all.skip(j as int).len() == 0);
    }
    None
}

/// The value a yes/no line sets: `y` turns the flag on, `n` off, anything
/// else leaves it alone.
pub open spec fn spec_bool_value(current: bool, s: Seq<char>) -> bool {
    if s.len() == 1 && s[0] == 'y' {
        true
    } else if s.len() == 1 && s[0] == 'n' {
        false
    } else {
        current
    }
}

/// One round of the yes/no prompt: `0` confirms the flag as it stands.
pub fn bool_step(current: bool, line: &str) -> (r: (bool, bool))
    ensures
        r.0 == is_confirm(line@),
        r.0 ==> r.1 == current,
        !r.0 ==> r.1 == spec_bool_value(current, line@),
{
    if is_confirm_line(line) {
        return (true, current);
    }
    if line.unicode_len() == 1 {
        let c = line.get_char(0);
        if c == 'y' {
            return (false, true);
        }
        if c == 'n' {
            return (false, false);
        }
    }
    (false, current)
}

/// What the yes/no prompt answers for a script of lines; the flag starts off.
pub open spec fn spec_run_bool(current: bool, lines: Seq<Seq<char>>) -> Option<bool>
    decreases lines.len(),
{
    if lines.len() == 0 {
        None
    } else if is_confirm(lines[0]) {
        Some(current)
    } else {
        spec_run_bool(spec_bool_value(current, lines[0]), lines.drop_first())
    }
}

/// Runs the yes/no prompt over a script of input lines.
pub fn run_bool_prompt(lines: &Vec<String>) -> (r: Option<bool>)
    ensures
        r == spec_run_bool(false, line_views(lines@)),
{
    let ghost all = line_views(lines@);
    proof {
        assert(all.skip(0) =~= all);
    }
    let mut current = false;
    let mut j: usize = 0;
    while j < lines.len()
        invariant
            j <= lines.len(),
            all == line_views(lines@),
            all.len() == lines@.len(),
            spec_run_bool(current, all.skip(j as int)) == spec_run_bool(false, all),
        decreases lines.len() - j,
    {
        proof {
            assert(all.skip(j as int)[0] == all[j as int]);
            assert(all[j as int] == lines@[j as int]@);
            assert(all.skip(j as int).drop_first() =~= all.skip(j as int + 1));
        }
        let (done, value) = bool_step(current, lines[j].as_str());
        if done {
            return Some(value);
        }
        current = value;
        j = j + 1;
    }
    proof {
        assert(all.skip(j as int).len() == 0);
    }
    None
}

/// One round of the free-text prompt: `0` confirms the current value, any
/// other line replaces it.
pub fn text_step(current: String, line: &str) -> (r: (bool, String))
    ensures
        r.0 == is_confirm(line@),
        r.0 ==> r.1@ == current@,
        !r.0 ==> r.1@ == line@,
{
    if is_confirm_line(line) {
        (true, current)
    } else {
        (false, line.to_owned())
    }
}

/// What the free-text prompt answers for a script of lines, from a default.
pub open spec fn spec_run_text(current: Seq<char>, lines: Seq<Seq<char>>) -> Option<Seq<char>>
    decreases lines.len(),
{
    if lines.len() == 0 {
        None
    } else if is_confirm(lines[0]) {
        Some(current)
    } else {
        spec_run_text(lines[0], lines.drop_first())
    }
}

/// Runs the free-text prompt over a script of input lines.
pub fn run_text_prompt(default: &str, lines: &Vec<String>) -> (r: Option<String>)
    ensures
        ({
            let res = spec_run_text(default@, line_views(lines@));
            match r {
                None => res is None,
                Some(s) => res == Some(s@),
            }
        }),
{
    let ghost all = line_views(lines@);
    proof {
        assert(all.skip(0) =~= all);
    }
    let mut current: String = default.to_owned();
    let mut j: usize = 0;
    while j < lines.len()
        invariant
            j <= lines.len(),
            all == line_views(lines@),
            all.len() == lines@.len(),
            spec_run_text(current@, all.skip(j as int)) == spec_run_text(default@, all),
        decreases lines.len() - j,
    {
        proof {
            assert(all.skip(j as int)[0] == all[j as int]);
            assert(all[j as int] == lines@[j as int]@);
            assert(all.skip(j as int).drop_first() =~= all.skip(j as int + 1));
        }
        let (done, value) = text_step(current, lines[j].as_str());
        if done {
            return Some(value);
        }
        current = value;
        j = j + 1;
    }
    proof {
        assert(all.skip(j as int).len() == 0);
    }
    None
}

} // verus!
