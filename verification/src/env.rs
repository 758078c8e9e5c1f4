//! The container's environment and the settings that the shim reads from it.
//!
//! The environment is handed over as a list of `NAME=VALUE` entries. It is kept as a
//! value and looked up where a setting is needed: nothing is written to the process
//! environment.

use vstd::prelude::*;
use crate::text::{
    chars_of, find_char, first_index, lemma_first_index_is, owned, slice_of, str_eq, texts,
};

verus! {

/// Names the address on which the HTTP trigger listens.
pub const SPIN_HTTP_LISTEN_ADDR_ENV: &'static str = "SPIN_HTTP_LISTEN_ADDR";

/// The address on which the HTTP trigger listens where the environment names none.
pub const SPIN_ADDR_DEFAULT: &'static str = "0.0.0.0:80";

/// Names the components to retain, separated by commas.
pub const SPIN_COMPONENTS_TO_RETAIN_ENV: &'static str = "SPIN_COMPONENTS_TO_RETAIN";

/// Names the limit on the memory of one instance, in bytes.
pub const SPIN_MAX_INSTANCE_MEMORY_ENV: &'static str = "SPIN_MAX_INSTANCE_MEMORY";

/// Names the container, and with it the running application.
pub const HOSTNAME_ENV: &'static str = "HOSTNAME";

/// The application's name where the environment gives none.
pub const UNKNOWN_APP_ID: &'static str = "unknown";

/// One environment variable.
#[derive(Clone, Debug, PartialEq, Eq)]
pub struct Variable {
    pub name: String,
    pub value: String,
}

/// The name of an entry: what stands before its first `=`, or all of it.
pub open spec fn entry_name(entry: Seq<char>) -> Seq<char> {
    entry.subrange(0, first_index(entry, '='))
}

/// The value of an entry: what follows its first `=`, or nothing where it holds none.
pub open spec fn entry_value(entry: Seq<char>) -> Seq<char> {
    let at = first_index(entry, '=');
    if 0 <= at < entry.len() {
        entry.subrange(at + 1, entry.len() as int)
    } else {
        Seq::empty()
    }
}

/// Splits a `NAME=VALUE` entry at its first `=`.
pub fn split_entry(entry: &str) -> (variable: Variable)
    ensures
        variable.name@ == entry_name(entry@),
        variable.value@ == entry_value(entry@),
{
    let chars = chars_of(entry);
    let at = find_char(&chars, 0, '=');
    proof {
        lemma_first_index_is(entry@, '=', at as int);
    }
    if at < chars.len() {
        Variable { name: slice_of(entry, 0, at), value: slice_of(entry, at + 1, chars.len()) }
    } else {
        let variable = Variable { name: slice_of(entry, 0, at), value: owned("") };
        proof {
            reveal_strlit("");
        }
        variable
    }
}

/// The value that the last variable named `name` has, if any has that name.
pub open spec fn lookup(vars: Seq<Variable>, name: Seq<char>) -> Option<Seq<char>>
    decreases vars.len(),
{
    if vars.len() == 0 {
        None
    } else if vars.last().name@ == name {
        Some(vars.last().value@)
    } else {
        lookup(vars.drop_last(), name)
    }
}

/// The variables that a list of entries sets, in the order of the list.
pub open spec fn parsed(entries: Seq<Seq<char>>, vars: Seq<Variable>) -> bool {
    &&& vars.len() == entries.len()
    &&& forall|i: int|
        0 <= i < entries.len() ==> (#[trigger] vars[i]).name@ == entry_name(entries[i])
            && vars[i].value@ == entry_value(entries[i])
}

/// An environment: variables in the order in which they were set. Where a name
/// occurs more than once, the last one counts.
#[derive(Clone, Debug, PartialEq, Eq)]
pub struct Environment {
    pub vars: Vec<Variable>,
}

impl Environment {
    /// The environment that the entries set, first to last.
    pub fn from_entries(entries: &Vec<String>) -> (env: Environment)
        ensures
            parsed(texts(entries@), env.vars@),
    {
        let mut vars: Vec<Variable> = Vec::new();
        let mut i: usize = 0;
        while i < entries.len()
            invariant
                i <= entries.len(),
                parsed(texts(entries@).take(i as int), vars@),
            decreases entries.len() - i,
        {
            vars.push(split_entry(entries[i].as_str()));
            i += 1;
        }
        Environment { vars }
    }

    /// The value of the variable `name`.
    pub fn get(&self, name: &str) -> (value: Option<&str>)
        ensures
            value is Some == lookup(self.vars@, name@) is Some,
            value is Some ==> value->0@ == lookup(self.vars@, name@)->0,
    {
        let mut i: usize = self.vars.len();
        assert(self.vars@.take(i as int) == self.vars@);
        while i > 0
            invariant
                i <= self.vars.len(),
                lookup(self.vars@, name@) == lookup(self.vars@.take(i as int), name@),
            decreases i,
        {
            i -= 1;
            proof {
                assert(self.vars@.take(i + 1).drop_last() == self.vars@.take(i as int));
            }
            if str_eq(self.vars[i].name.as_str(), name) {
                return Some(self.vars[i].value.as_str());
            }
        }
        None
    }
}

/// The items of a list written with commas between them. Items without a character are
/// dropped, so neither a comma at either end nor two in a row give an item.
pub open spec fn list_items(s: Seq<char>) -> Seq<Seq<char>>
    decreases s.len(),
{
    let at = first_index(s, ',');
    let head = s.subrange(0, at);
    let rest = if 0 <= at < s.len() {
        list_items(s.subrange(at + 1, s.len() as int))
    } else {
        Seq::empty()
    };
    if head.len() > 0 {
        seq![head] + rest
    } else {
        rest
    }
}

/// Splits a list written with commas into its items, dropping empty ones.
pub fn split_list(s: &str) -> (items: Vec<String>)
    ensures
        texts(items@) == list_items(s@),
{
    let chars = chars_of(s);
    let n = chars.len();
    let mut items: Vec<String> = Vec::new();
    let mut start: usize = 0;
    let mut done = false;
    assert(s@.subrange(0, n as int) == s@);
    while !done
        invariant
            chars@ == s@,
            n == chars.len(),
            start <= n,
            !done ==> list_items(s@) == texts(items@) + list_items(s@.subrange(start as int, n as int)),
            done ==> list_items(s@) == texts(items@),
        decreases n - start + if done { 0int } else { 1int },
    {
        let at = find_char(&chars, start, ',');
        let ghost tail = s@.subrange(start as int, n as int);
        proof {
            lemma_first_index_is(tail, ',', at - start);
            assert(tail.subrange(0, at - start) == s@.subrange(start as int, at as int));
            if at < n {
                assert(tail.subrange(at - start + 1, tail.len() as int) == s@.subrange(
                    at + 1,
                    n as int,
                ));
            }
        }
        if at > start {
            items.push(slice_of(s, start, at));
        }
        if at < n {
            start = at + 1;
        } else {
            done = true;
            start = n;
        }
    }
    items
}

/// Whether `c` is one of the digits `0` to `9`.
pub open spec fn is_digit(c: char) -> bool {
    '0' <= c <= '9'
}

/// The number that a string of digits writes in decimal.
pub open spec fn digits_value(s: Seq<char>) -> nat
    decreases s.len(),
{
    if s.len() == 0 {
        0
    } else {
        digits_value(s.drop_last()) * 10 + (s.last() as u32 - '0' as u32) as nat
    }
}

/// The digits of a number as written: without a leading `+`, if it has one.
pub open spec fn unsigned_part(s: Seq<char>) -> Seq<char> {
    if s.len() > 0 && s[0] == '+' {
        s.subrange(1, s.len() as int)
    } else {
        s
    }
}

/// The number that a string writes: decimal digits, at least one, with at most one `+`
/// before them and nothing else around them, if the number fits the machine's word.
pub open spec fn parsed_limit(s: Seq<char>) -> Option<usize> {
    let body = unsigned_part(s);
    if body.len() > 0 && (forall|i: int| 0 <= i < body.len() ==> is_digit(body[i]))
        && digits_value(body) <= usize::MAX {
        Some(digits_value(body) as usize)
    } else {
        None
    }
}

/// The number that a prefix of digits writes is no more than what the whole writes.
pub proof fn lemma_digits_prefix(s: Seq<char>, upto: int)
    requires
        0 <= upto <= s.len(),
        forall|i: int| 0 <= i < s.len() ==> is_digit(s[i]),
    ensures
        digits_value(s.take(upto)) <= digits_value(s),
    decreases s.len() - upto,
{
    if upto < s.len() {
        lemma_digits_prefix(s, upto + 1);
        assert(s.take(upto + 1).drop_last() == s.take(upto));
    } else {
        assert(s.take(upto) == s);
    }
}

/// Reads a memory limit. What is no number in the sense of [`parsed_limit`] gives `None`.
pub fn parse_limit(s: &str) -> (limit: Option<usize>)
    ensures
        limit == parsed_limit(s@),
{
    let chars = chars_of(s);
    let n = chars.len();
    let from: usize = if n > 0 && chars[0] == '+' {
        1
    } else {
        0
    };
    let ghost body = unsigned_part(s@);
    if from == n {
        return None;
    }
    let mut value: usize = 0;
    let mut i: usize = from;
    while i < n
        invariant
            chars@ == s@,
            n == chars.len(),
            from <= i <= n,
            body == unsigned_part(s@),
            body == s@.subrange(from as int, n as int),
            forall|j: int| 0 <= j < i - from ==> is_digit(body[j]),
            value == digits_value(body.take(i - from)),
        decreases n - i,
    {
        let c = chars[i];
        assert(body[i - from] == c);
        if c < '0' || c > '9' {
            return None;
        }
        let digit = (c as u32 - '0' as u32) as usize;
        proof {
            assert(body.take(i - from + 1).drop_last() == body.take(i - from));
        }
        let shifted = match value.checked_mul(10) {
            Some(shifted) => shifted,
            None => {
                proof {
                    if forall|j: int| 0 <= j < body.len() ==> is_digit(body[j]) {
                        lemma_digits_prefix(body, i - from + 1);
                    }
                }
                return None;
            },
        };
        value = match shifted.checked_add(digit) {
            Some(sum) => sum,
            None => {
                proof {
                    if forall|j: int| 0 <= j < body.len() ==> is_digit(body[j]) {
                        lemma_digits_prefix(body, i - from + 1);
                    }
                }
                return None;
            },
        };
        i += 1;
    }
    assert(body.take(n - from) == body);
    Some(value)
}

} // verus!
