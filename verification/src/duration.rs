use vstd::prelude::*;
use vstd::string::{StringExecFns, StrSliceExecFns};
use crate::digits::{dec_str, digits_val, is_digit_char, pow10, push_u32, lemma_pow10_mono};

verus! {

/// The unit codes a duration component may carry.
pub open spec fn is_unit_char(c: char) -> bool {
    c == 'H' || c == 'M' || c == 'S'
}

/// The plural English name of a unit code.
pub open spec fn unit_name(c: char) -> Seq<char> {
    if c == 'H' {
        "hours"@
    } else if c == 'M' {
        "minutes"@
    } else {
        "seconds"@
    }
}

/// The phrase reported when a duration carries no usable components.
pub open spec fn no_time() -> Seq<char> {
    "No time registered"@
}

/// How many digit characters stand at the front of a string.
pub open spec fn leading_digit_count(s: Seq<char>) -> nat
    decreases s.len(),
{
    if s.len() == 0 {
        0
    } else if is_digit_char(s[0]) {
        1 + leading_digit_count(s.drop_first())
    } else {
        0
    }
}

/// Splits a duration body into components: each a run of one to nine digits
/// followed by a unit code. Anything else makes the whole body unreadable.
pub open spec fn parse_comps(s: Seq<char>) -> Option<Seq<(Seq<char>, char)>>
    decreases s.len(),
{
    if s.len() == 0 {
        Some(Seq::empty())
    } else {
        let nd = leading_digit_count(s);
        if nd == 0 || nd > 9 || nd >= s.len() || !is_unit_char(s[nd as int]) {
            None
        } else {
            match parse_comps(s.skip(nd as int + 1)) {
                None => None,
                Some(rest) => Some(seq![(s.take(nd as int), s[nd as int])] + rest),
            }
        }
    }
}

/// The human-readable phrase for a duration string: a two-character
/// designator prefix, then one to three number-and-unit components.
pub open spec fn spec_duration_phrase(s: Seq<char>) -> Seq<char> {
    if s.len() < 2 {
        no_time()
    } else {
        match parse_comps(s.skip(2)) {
            None => no_time(),
            Some(cs) => if cs.len() == 1 {
                let v = digits_val(cs[0].0);
                if v == 0 {
                    no_time()
                } else {
                    dec_str(v as nat) + " "@ + unit_name(cs[0].1)
                }
            } else if cs.len() == 2 {
                cs[0].0 + " "@ + unit_name(cs[0].1) + " & "@ + cs[1].0 + " "@ + unit_name(cs[1].1)
            } else if cs.len() == 3 {
                cs[0].0 + " "@ + unit_name(cs[0].1) + ", "@ + cs[1].0 + " "@ + unit_name(cs[1].1)
                    + " & "@ + cs[2].0 + " "@ + unit_name(cs[2].1)
            } else {
                no_time()
            },
        }
    }
}

/// Counts the digit characters from a position onward.
fn count_digits(s: &str, from: usize) -> (nd: usize)
    requires
        from <= s@.len(),
    ensures
        nd == leading_digit_count(s@.skip(from as int)),
        from + nd <= s@.len(),
    decreases s@.len() - from,
{
    let len = s.unicode_len();
    if from == len {
        proof {
            assert(s@.skip(from as int) =~= Seq::<char>::empty());
        }
        0
    } else {
        let c = s.get_char(from);
        let cu = c as u32;
        proof {
            assert(s@.skip(from as int)[0] == s@[from as int]);
        }
        if 48 <= cu && cu <= 57 {
            let rest = count_digits(s, from + 1);
            proof {
                assert(s@.skip(from as int).drop_first() =~= s@.skip(from as int + 1));
            }
            1 + rest
        } else {
            0
        }
    }
}

/// Reads the numeric value of a run of at most nine digit characters.
fn digits_value(s: &str, from: usize, nd: usize) -> (v: u32)
    requires
        from + nd <= s@.len(),
        nd <= 9,
        forall|k: int| from <= k < from + nd ==> is_digit_char(s@[k]),
    ensures
        v == digits_val(s@.subrange(from as int, from as int + nd as int)),
{
    let len = s.unicode_len();
    let mut v: u32 = 0;
    let mut k: usize = 0;
    proof {
        assert(s@.subrange(from as int, from as int) =~= Seq::<char>::empty());
    }
    while k < nd
        invariant
            k <= nd,
            nd <= 9,
            from + nd <= s@.len(),
            s@.len() == len,
            forall|j: int| from <= j < from + nd ==> is_digit_char(s@[j]),
            v == digits_val(s@.subrange(from as int, from as int + k as int)),
            v < pow10(k as nat),
        decreases nd - k,
    {
        proof {
            reveal_with_fuel(pow10, 10);
            assert(pow10(k as nat) <= pow10(8)) by {
                lemma_pow10_mono(k as nat, 8);
            }
        }
        let c = s.get_char(from + k);
        let d = (c as u32) - 48;
        proof {
            let pre = s@.subrange(from as int, from as int + k as int);
            let post = s@.subrange(from as int, from as int + k as int + 1);
            assert(post.drop_last() =~= pre);
            assert(post.last() == s@[from as int + k as int]);
        }
        v = v * 10 + d;
        k = k + 1;
    }
    v
}

/// Parses the components of a duration body from a position onward.
fn parse_comps_exec(s: &str, from: usize) -> (r: Option<Vec<(String, char, u32)>>)
    requires
        from <= s@.len(),
    ensures
        ({
            let cs = parse_comps(s@.skip(from as int));
            match r {
                None => cs is None,
                Some(v) => cs matches Some(cspec) && v@.len() == cspec.len() && (forall|k: int|
                    0 <= k < cspec.len() ==> v@[k].0@ == cspec[k].0 && v@[k].1 == cspec[k].1
                        && v@[k].2 == digits_val(cspec[k].0)),
            }
        }),
        r matches Some(v) ==> forall|k: int| 0 <= k < v@.len() ==> is_unit_char(#[trigger] v@[k].1),
    decreases s@.len() - from,
{
    let len = s.unicode_len();
    let ghost t = s@.skip(from as int);
    if from == len {
        proof {
            assert(t =~= Seq::<char>::empty());
        }
        return Some(Vec::new());
    }
    let nd = count_digits(s, from);
    proof {
        assert(t.len() == s@.len() - from);
        assert forall|j: int| 0 <= j < t.len() implies t[j] == s@[from + j] by {}
    }
    if nd == 0 || nd > 9 || from + nd == len {
        return None;
    }
    let u = s.get_char(from + nd);
    if !(u == 'H' || u == 'M' || u == 'S') {
        return None;
    }
    proof {
        assert(t[nd as int] == s@[from + nd]);
        assert forall|k: int| from <= k < from + nd implies is_digit_char(s@[k]) by {
            lemma_leading_digits_are_digits(t, nd as nat);
            assert(t[k - from] == s@[k]);
        }
    }
    let val = digits_value(s, from, nd);
    let digits_str = s.substring_char(from, from + nd).to_owned();
    match parse_comps_exec(s, from + nd + 1) {
        None => {
            proof {
                assert(t.skip(nd as int + 1) =~= s@.skip(from as int + nd as int + 1));
            }
            None
        },
        Some(mut rest) => {
            rest.insert(0, (digits_str, u, val));
            proof {
                assert(t.skip(nd as int + 1) =~= s@.skip(from as int + nd as int + 1));
                assert(t.take(nd as int) =~= s@.subrange(from as int, from as int + nd as int));
                let cspec = parse_comps(t)->Some_0;
                let head = (t.take(nd as int), t[nd as int]);
                let restspec = parse_comps(t.skip(nd as int + 1))->Some_0;
                assert(cspec =~= seq![head] + restspec);
                assert forall|k: int| 0 <= k < cspec.len() implies rest@[k].0@ == cspec[k].0
                    && rest@[k].1 == cspec[k].1 && rest@[k].2 == digits_val(cspec[k].0) by {
                    if k > 0 {
                        assert(cspec[k] == restspec[k - 1]);
                    }
                }
            }
            Some(rest)
        },
    }
}

/// Every character inside the leading digit run is a digit.
proof fn lemma_leading_digits_are_digits(s: Seq<char>, nd: nat)
    requires
        nd <= leading_digit_count(s),
        nd <= s.len(),
    ensures
        forall|k: int| 0 <= k < nd ==> is_digit_char(s[k]),
    decreases nd,
{
    if nd > 0 {
        lemma_leading_digits_are_digits(s.drop_first(), (nd - 1) as nat);
        assert forall|k: int| 0 <= k < nd implies is_digit_char(s[k]) by {
            if k > 0 {
                assert(s.drop_first()[k - 1] == s[k]);
            }
        }
    }
}

fn no_time_string() -> (r: String)
    ensures
        r@ == no_time(),
{
    String::from_str("No time registered")
}

fn unit_str(c: char) -> (r: &'static str)
    requires
        is_unit_char(c),
    ensures
        r@ == unit_name(c),
{
    if c == 'H' {
        "hours"
    } else if c == 'M' {
        "minutes"
    } else {
        "seconds"
    }
}

/// Converts a duration string of the transport form, a two-character prefix
/// followed by number-and-unit components, into a human-readable phrase.
/// A single zero-valued component, or anything other than one to three
/// readable components, reports that no time was registered.
pub fn format_duration(s: &str) -> (r: String)
    ensures
        r@ == spec_duration_phrase(s@),
{
    let len = s.unicode_len();
    if len < 2 {
        return no_time_string();
    }
    match parse_comps_exec(s, 2) {
        None => no_time_string(),
        Some(v) => {
            if v.len() == 1 {
                if v[0].2 == 0 {
                    no_time_string()
                } else {
                    let mut out = String::new();
                    push_u32(&mut out, v[0].2);
                    out.append(" ");
                    out.append(unit_str(v[0].1));
                    proof {
                        assert(out@ =~= spec_duration_phrase(s@));
                    }
                    out
                }
            } else if v.len() == 2 {
                let mut out = String::new();
                out.append(v[0].0.as_str());
                out.append(" ");
                out.append(unit_str(v[0].1));
                out.append(" & ");
                out.append(v[1].0.as_str());
                out.append(" ");
                out.append(unit_str(v[1].1));
                proof {
                    assert(out@ =~= spec_duration_phrase(s@));
                }
                out
            } else if v.len() == 3 {
                let mut out = String::new();
                out.append(v[0].0.as_str());
                out.append(" ");
                out.append(unit_str(v[0].1));
                out.append(", ");
                out.append(v[1].0.as_str());
                out.append(" ");
                out.append(unit_str(v[1].1));
                out.append(" & ");
                out.append(v[2].0.as_str());
                out.append(" ");
                out.append(unit_str(v[2].1));
                proof {
                    assert(out@ =~= spec_duration_phrase(s@));
                }
                out
            } else {
                no_time_string()
            }
        },
    }
}

} // verus!
