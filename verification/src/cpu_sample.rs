//! Self-sampling of the agent's CPU usage, for benchmarking.
//!
//! When [`ENV`] is set to a sampling period in milliseconds, the agent periodically reads
//! its cumulative CPU time from `/proc/self/stat` and prints
//! `CPUSAMPLE <epoch_ms> <utime+stime ticks>` lines.

use crate::text::{
    all_digits, chars_of, decimal, decimal_text, is_digit, is_space, is_word,
    law_decimals_are_read_back, law_words_are_read_back, numbered, parse_unsigned, separated,
    split_words, unsigned_value, words,
};
use vstd::prelude::*;
use vstd::slice::slice_subrange;

verus! {

/// The environment variable that holds the sampling period.
pub const ENV: &'static str = "MIRRORD_AGENT_CPU_SAMPLE_MS";

/// What follows the last closing parenthesis of a text, if it has one.
pub open spec fn after_paren(s: Seq<char>) -> Option<Seq<char>>
    decreases s.len(),
{
    if s.len() == 0 {
        None
    } else if s.last() == ')' {
        Some(Seq::empty())
    } else {
        match after_paren(s.drop_last()) {
            Some(rest) => Some(rest.push(s.last())),
            None => None,
        }
    }
}

/// The word number `i`, read as an unsigned 64-bit number.
pub open spec fn number_at(words: Seq<Seq<char>>, i: int) -> Option<nat> {
    if i < words.len() {
        unsigned_value(words[i], u64::MAX as nat)
    } else {
        None
    }
}

/// The user time and the system time in a line of process statistics: the twelfth and the
/// thirteenth field after the name, which stands in parentheses and may hold spaces.
pub open spec fn times(stat: Seq<char>) -> Option<(nat, nat)> {
    match after_paren(stat) {
        None => None,
        Some(fields) => match (number_at(words(fields), 11), number_at(words(fields), 12)) {
            (Some(utime), Some(stime)) => Some((utime, stime)),
            _ => None,
        },
    }
}

proof fn lemma_after_paren(s: Seq<char>, k: int)
    requires
        0 <= k <= s.len(),
        k == 0 || s[k - 1] == ')',
        forall|i: int| k <= i < s.len() ==> s[i] != ')',
    ensures
        after_paren(s) == if k == 0 {
            None
        } else {
            Some(s.skip(k))
        },
    decreases s.len(),
{
    if s.len() > 0 && k < s.len() {
        lemma_after_paren(s.drop_last(), k);
        assert(s.drop_last().skip(k).push(s.last()) =~= s.skip(k));
    } else if s.len() > 0 {
        assert(s.skip(k) =~= Seq::empty());
    }
}

/// Reads the user time and the system time, in ticks, from a line of process statistics.
pub fn cpu_times(stat: &str) -> (r: Option<(u64, u64)>)
    ensures
        match times(stat@) {
            Some((utime, stime)) => r matches Some((u, s)) && u == utime && s == stime,
            None => r is None,
        },
{
    let chars = chars_of(stat);
    let mut k: usize = chars.len();
    while k > 0 && chars[k - 1] != ')'
        invariant
            k <= chars.len(),
            forall|i: int| k <= i < chars.len() ==> chars[i] != ')',
        decreases k,
    {
        k = k - 1;
    }
    proof {
        lemma_after_paren(chars@, k as int);
    }
    if k == 0 {
        return None;
    }
    let rest = slice_subrange(chars.as_slice(), k, chars.len());
    assert(rest@ =~= chars@.skip(k as int));
    let fields = split_words(rest);
    if fields.len() <= 11 {
        return None;
    }
    let utime: u64 = match parse_unsigned(fields[11].as_slice(), u64::MAX) {
        Some(n) => n,
        None => {
            return None;
        },
    };
    if fields.len() <= 12 {
        return None;
    }
    match parse_unsigned(fields[12].as_slice(), u64::MAX) {
        Some(stime) => Some((utime, stime)),
        None => None,
    }
}

/// The cumulative CPU time, in ticks, that a line of process statistics tells: user time
/// and system time together.
pub fn cpu_ticks(stat: &str) -> (r: Option<u64>)
    requires
        times(stat@) matches Some((utime, stime)) ==> utime + stime <= u64::MAX,
    ensures
        match times(stat@) {
            Some((utime, stime)) => r == Some((utime + stime) as u64),
            None => r is None,
        },
{
    match cpu_times(stat) {
        Some((utime, stime)) => Some(utime + stime),
        None => None,
    }
}

/// The sampling period, in milliseconds, that a value of [`ENV`] asks for: a number
/// greater than zero.
pub fn sampling_period(value: Option<&str>) -> (r: Option<u64>)
    ensures
        match r {
            Some(period) => period > 0 && (value matches Some(text) && unsigned_value(
                text@,
                u64::MAX as nat,
            ) == Some(period as nat)),
            None => value matches Some(text) ==> (unsigned_value(text@, u64::MAX as nat) is None
                || unsigned_value(text@, u64::MAX as nat) == Some(0nat)),
        },
{
    match value {
        Some(text) => match parse_unsigned(chars_of(text).as_slice(), u64::MAX) {
            Some(period) => if period > 0 {
                Some(period)
            } else {
                None
            },
            None => None,
        },
        None => None,
    }
}

/// The line that tells a sample.
pub fn sample_line(epoch_ms: u128, ticks: u64) -> (r: String)
    ensures
        r@ == "CPUSAMPLE "@ + decimal(epoch_ms as nat) + " "@ + decimal(ticks as nat),
{
    let mut line = numbered("CPUSAMPLE ", epoch_ms, " ");
    let ticks = decimal_text(ticks as u128);
    line.append(ticks.as_str());
    line
}

/// Whatever the name of the process is, and whatever comes before it, the times are those
/// in the fields after it.
pub proof fn law_the_name_makes_no_difference(
    before: Seq<char>,
    name: Seq<char>,
    fields: Seq<char>,
)
    requires
        !fields.contains(')'),
    ensures
        times(before + seq!['('] + name + seq![')'] + fields) == (match (
            number_at(words(fields), 11),
            number_at(words(fields), 12),
        ) {
            (Some(utime), Some(stime)) => Some((utime, stime)),
            _ => None,
        }),
{
    let stat = before + seq!['('] + name + seq![')'] + fields;
    let k = stat.len() - fields.len();
    assert(stat.skip(k) =~= fields);
    assert forall|i: int| k <= i < stat.len() implies stat[i] != ')' by {
        assert(stat[i] == fields[i - k]);
        assert(fields.contains(fields[i - k]));
    }
    lemma_after_paren(stat, k);
}

/// The times are the twelfth and the thirteenth field after the name, whatever the other
/// fields are: times that are written there are read back, and where there are fewer fields,
/// there are no times.
pub proof fn law_times_are_read_back(
    before: Seq<char>,
    name: Seq<char>,
    fields: Seq<Seq<char>>,
    utime: nat,
    stime: nat,
)
    requires
        forall|i: int| 0 <= i < fields.len() ==> is_word(#[trigger] fields[i]),
        !separated(fields, ' ').contains(')'),
        fields.len() > 11 ==> fields[11] == decimal(utime),
        fields.len() > 12 ==> fields[12] == decimal(stime),
    ensures
        times(before + seq!['('] + name + seq![')'] + (seq![' '] + separated(fields, ' ')))
            == if fields.len() > 12 && utime <= u64::MAX && stime <= u64::MAX {
            Some((utime, stime))
        } else {
            None
        },
{
    let text = seq![' '] + separated(fields, ' ');
    assert(!text.contains(')')) by {
        if text.contains(')') {
            let i = choose|i: int| 0 <= i < text.len() && text[i] == ')';
            assert(i > 0);
            assert(separated(fields, ' ')[i - 1] == ')');
        }
    }
    law_the_name_makes_no_difference(before, name, text);
    law_decimals_are_read_back(utime, u64::MAX as nat);
    law_decimals_are_read_back(stime, u64::MAX as nat);
    let word = seq!['x'];
    assert(is_word(word));
    law_words_are_read_back(fields, ' ', word);
}

/// A period that is asked for is the period that is sampled with, but for zero, which asks for
/// no sampling, as does anything that is no number.
pub proof fn law_the_period_is_the_one_asked_for(
    value: Option<&str>,
    period: Option<u64>,
    asked: nat,
)
    requires
        call_ensures(sampling_period, (value,), period),
    ensures
        value is None ==> period is None,
        value matches Some(text) ==> text@ == decimal(asked) ==> (period is Some <==> 0 < asked
            <= u64::MAX),
        value matches Some(text) ==> text@ == decimal(asked) ==> (period matches Some(n) ==> n
            == asked),
        value matches Some(text) ==> unsigned_value(text@, u64::MAX as nat) is None ==> period
            is None,
{
    law_decimals_are_read_back(asked, u64::MAX as nat);
}

/// The ticks that are told are the user time and the system time together, wherever both are
/// there.
pub proof fn law_ticks_are_both_times(
    stat: &str,
    both: Option<(u64, u64)>,
    ticks: Option<u64>,
)
    requires
        times(stat@) matches Some((utime, stime)) ==> utime + stime <= u64::MAX,
        call_ensures(cpu_times, (stat,), both),
        call_ensures(cpu_ticks, (stat,), ticks),
    ensures
        ticks is Some <==> both is Some,
        both matches Some((utime, stime)) ==> (ticks matches Some(n) && n == utime + stime),
        both is Some <==> times(stat@) is Some,
{
}

/// A line that tells a sample is read back as the sample: its words are a mark, the time and
/// the ticks.
pub proof fn law_samples_are_read_back(epoch_ms: u128, ticks: u64, line: String)
    requires
        call_ensures(sample_line, (epoch_ms, ticks), line),
    ensures
        words(line@) == seq!["CPUSAMPLE"@, decimal(epoch_ms as nat), decimal(ticks as nat)],
        unsigned_value(words(line@)[1], u128::MAX as nat) == Some(epoch_ms as nat),
        unsigned_value(words(line@)[2], u64::MAX as nat) == Some(ticks as nat),
{
    let time = decimal(epoch_ms as nat);
    let last = decimal(ticks as nat);
    let list = seq!["CPUSAMPLE"@, time];
    reveal_strlit("CPUSAMPLE");
    reveal_strlit("CPUSAMPLE ");
    reveal_strlit(" ");
    law_decimals_are_read_back(epoch_ms as nat, u128::MAX as nat);
    law_decimals_are_read_back(ticks as nat, u64::MAX as nat);
    lemma_digits_are_a_word(time);
    lemma_digits_are_a_word(last);
    assert(is_word("CPUSAMPLE"@));
    assert forall|i: int| 0 <= i < list.len() implies is_word(#[trigger] list[i]) by {}
    law_words_are_read_back(list, ' ', last);
    assert(list.skip(1) =~= seq![time]);
    assert(seq![time].skip(1) =~= Seq::empty());
    reveal_with_fuel(separated, 3);
    assert("CPUSAMPLE "@ =~= "CPUSAMPLE"@ + seq![' ']);
    assert(" "@ =~= seq![' ']);
    assert(separated(list, ' ') =~= "CPUSAMPLE "@ + time + " "@);
    assert(line@ =~= separated(list, ' ') + last);
    assert(list.push(last) =~= seq!["CPUSAMPLE"@, time, last]);
}

proof fn lemma_digits_are_a_word(s: Seq<char>)
    requires
        s.len() > 0,
        all_digits(s),
    ensures
        is_word(s),
{
    assert forall|i: int| 0 <= i < s.len() implies !is_space(#[trigger] s[i]) by {
        assert(is_digit(s[i]));
    }
}

} // verus!
