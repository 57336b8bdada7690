//! Names of environment variables, as they travel in the protocol.

use crate::text::{chars_of, text_of};
use vstd::hash_set::StringHashSet;
use vstd::prelude::*;

verus! {

/// Names of environment variables, each of them ended by a `;`. The last `;` may be left
/// out.
#[derive(Debug, Clone, PartialEq, Eq, PartialOrd, Ord)]
pub struct EnvVars(pub String);

/// The number of characters before the first `;`.
pub open spec fn name_len(s: Seq<char>) -> nat
    decreases s.len(),
{
    if s.len() == 0 || s[0] == ';' {
        0
    } else {
        1 + name_len(s.skip(1))
    }
}

/// A name is no longer than the text it starts.
pub proof fn lemma_name_len_bound(s: Seq<char>)
    ensures
        name_len(s) <= s.len(),
    decreases s.len(),
{
    if s.len() > 0 && s[0] != ';' {
        lemma_name_len_bound(s.skip(1));
    }
}

/// The names in a text. One that is not ended by a `;` counts unless it is empty.
pub open spec fn names_in(s: Seq<char>) -> Seq<Seq<char>>
    decreases s.len(),
{
    if s.len() == 0 {
        Seq::empty()
    } else {
        proof {
            lemma_name_len_bound(s);
        }
        let n = name_len(s) as int;
        if n < s.len() {
            seq![s.take(n)] + names_in(s.skip(n + 1))
        } else {
            seq![s]
        }
    }
}

proof fn lemma_name_len(s: Seq<char>, k: nat)
    requires
        k <= s.len(),
        forall|i: int| 0 <= i < k ==> #[trigger] s[i] != ';',
        k == s.len() || s[k as int] == ';',
    ensures
        name_len(s) == k,
    decreases s.len(),
{
    if k > 0 {
        assert forall|i: int| 0 <= i < k - 1 implies #[trigger] s.skip(1)[i] != ';' by {
            assert(s.skip(1)[i] == s[i + 1]);
        }
        lemma_name_len(s.skip(1), (k - 1) as nat);
    }
}

impl std::ops::Deref for EnvVars {
    type Target = String;

    /// The text that holds the names.
    fn deref(&self) -> (r: &String)
        ensures
            *r == self.0,
    {
        &self.0
    }
}

impl EnvVars {
    /// The set of the names.
    pub fn into_set(self) -> (r: StringHashSet)
        ensures
            forall|name: Seq<char>| r@.contains(name) <==> names_in(self.0@).contains(name),
    {
        let text = chars_of(self.0.as_str());
        let mut set = StringHashSet::new();
        let mut i: usize = 0;
        assert(text@.skip(0) =~= text@);
        while i < text.len()
            invariant
                i <= text.len(),
                text@ == self.0@,
                forall|name: Seq<char>|
                    names_in(text@).contains(name) <==> set@.contains(name) || names_in(
                        text@.skip(i as int),
                    ).contains(name),
            decreases text.len() - i,
        {
            let ghost rest = text@.skip(i as int);
            let ghost before = set@;
            let start: usize = i;
            while i < text.len() && text[i] != ';'
                invariant
                    start <= i <= text.len(),
                    forall|k: int| start <= k < i ==> #[trigger] text@[k] != ';',
                decreases text.len() - i,
            {
                i = i + 1;
            }
            let ghost tail = if i < text.len() {
                names_in(text@.skip(i + 1))
            } else {
                Seq::empty()
            };
            let name = vstd::slice::slice_subrange(text.as_slice(), start, i);
            set.insert(text_of(name));
            proof {
                let k = (i - start) as nat;
                assert forall|j: int| 0 <= j < k implies #[trigger] rest[j] != ';' by {
                    assert(rest[j] == text@[start + j]);
                }
                lemma_name_len(rest, k);
                assert(rest.take(k as int) =~= name@);
                if i < text.len() {
                    assert(rest.skip(k as int + 1) =~= text@.skip(i + 1));
                } else {
                    assert(rest =~= name@);
                    assert(text@.skip(i as int) =~= Seq::empty());
                }
                assert(names_in(rest) =~= seq![name@] + tail);
                assert forall|n: Seq<char>| #[trigger]
                    names_in(rest).contains(n) <==> n == name@ || tail.contains(n) by {
                    if tail.contains(n) {
                        let j = tail.index_of(n);
                        assert(names_in(rest)[j + 1] == n);
                    }
                    if n == name@ {
                        assert(names_in(rest)[0] == n);
                    }
                    if names_in(rest).contains(n) {
                        let j = names_in(rest).index_of(n);
                        if j > 0 {
                            assert(tail[j - 1] == n);
                        }
                    }
                }
            }
            if i < text.len() {
                i = i + 1;
            }
            assert(names_in(text@.skip(i as int)) =~= tail);
            assert forall|n: Seq<char>|
                names_in(text@).contains(n) <==> set@.contains(n) || names_in(
                    text@.skip(i as int),
                ).contains(n) by {
                assert(names_in(text@).contains(n) <==> before.contains(n) || names_in(
                    rest,
                ).contains(n));
                assert(names_in(rest).contains(n) <==> n == name@ || tail.contains(n));
                assert(set@.contains(n) <==> before.contains(n) || n == name@);
            }
        }
        set
    }
}

impl From<EnvVars> for StringHashSet {
    fn from(env_vars: EnvVars) -> (r: StringHashSet)
        ensures
            forall|name: Seq<char>| r@.contains(name) <==> names_in(env_vars.0@).contains(name),
    {
        env_vars.into_set()
    }
}

// Which set comes out is told by the names in it, not by an equation.
impl vstd::std_specs::convert::FromSpecImpl<EnvVars> for StringHashSet {
    open spec fn obeys_from_spec() -> bool {
        false
    }

    open spec fn from_spec(env_vars: EnvVars) -> StringHashSet {
        arbitrary()
    }
}

/// The text that holds some names, each of them ended by a `;`.
pub open spec fn terminated(names: Seq<Seq<char>>) -> Seq<char>
    decreases names.len(),
{
    if names.len() == 0 {
        Seq::empty()
    } else {
        names[0] + seq![';'] + terminated(names.skip(1))
    }
}

/// Names that hold no `;`, written one after the other and each ended by a `;`, are read
/// back as they were.
pub proof fn law_names_are_read_back(names: Seq<Seq<char>>)
    requires
        forall|i: int| 0 <= i < names.len() ==> !(#[trigger] names[i]).contains(';'),
    ensures
        names_in(terminated(names)) == names,
    decreases names.len(),
{
    if names.len() > 0 {
        let rest = names.skip(1);
        assert forall|i: int| 0 <= i < rest.len() implies !(#[trigger] rest[i]).contains(';') by {
            assert(rest[i] == names[i + 1]);
        }
        law_names_are_read_back(rest);
        let s = terminated(names);
        let k = names[0].len();
        assert forall|i: int| 0 <= i < k implies #[trigger] s[i] != ';' by {
            assert(s[i] == names[0][i]);
            assert(!names[0].contains(';'));
        }
        assert(s[k as int] == ';');
        lemma_name_len(s, k);
        assert(s.take(k as int) =~= names[0]);
        assert(s.skip(k as int + 1) =~= terminated(rest));
        assert(names =~= seq![names[0]] + rest);
    } else {
        assert(names =~= Seq::empty());
    }
}

/// The last name counts too if its `;` is left out, as long as it is not empty.
pub proof fn law_the_last_name_may_be_unended(names: Seq<Seq<char>>, last: Seq<char>)
    requires
        forall|i: int| 0 <= i < names.len() ==> !(#[trigger] names[i]).contains(';'),
        !last.contains(';'),
        last.len() > 0,
    ensures
        names_in(terminated(names) + last) == names.push(last),
    decreases names.len(),
{
    let s = terminated(names) + last;
    if names.len() > 0 {
        let rest = names.skip(1);
        assert forall|i: int| 0 <= i < rest.len() implies !(#[trigger] rest[i]).contains(';') by {
            assert(rest[i] == names[i + 1]);
        }
        law_the_last_name_may_be_unended(rest, last);
        let k = names[0].len();
        assert forall|i: int| 0 <= i < k implies #[trigger] s[i] != ';' by {
            assert(s[i] == names[0][i]);
            assert(!names[0].contains(';'));
        }
        assert(s[k as int] == ';');
        lemma_name_len(s, k);
        assert(s.take(k as int) =~= names[0]);
        assert(s.skip(k as int + 1) =~= terminated(rest) + last);
        assert(names.push(last) =~= seq![names[0]] + rest.push(last));
    } else {
        assert(s =~= last);
        assert forall|i: int| 0 <= i < last.len() implies #[trigger] last[i] != ';' by {
            assert(last.contains(last[i]));
        }
        lemma_name_len(last, last.len());
        assert(names.push(last) =~= seq![last]);
    }
}

/// The names that are written into a text are the names that are read out of it, and no
/// others, whether or not the last one is ended.
pub proof fn law_the_set_holds_the_names(
    names: Seq<Seq<char>>,
    last: Seq<char>,
    vars: EnvVars,
    set: StringHashSet,
    name: Seq<char>,
)
    requires
        forall|i: int| 0 <= i < names.len() ==> !(#[trigger] names[i]).contains(';'),
        !last.contains(';'),
        last.len() > 0,
        vars.0@ == terminated(names) + last,
        call_ensures(EnvVars::into_set, (vars,), set),
    ensures
        set@.contains(name) <==> names.contains(name) || name == last,
{
    law_the_last_name_may_be_unended(names, last);
    let all = names.push(last);
    assert(set@.contains(name) <==> all.contains(name));
    if names.contains(name) {
        let i = names.index_of(name);
        assert(all[i] == name);
    }
    if name == last {
        assert(all[names.len() as int] == name);
    }
    if all.contains(name) {
        let i = all.index_of(name);
        if i < names.len() {
            assert(names[i] == name);
        }
    }
}

} // verus!
