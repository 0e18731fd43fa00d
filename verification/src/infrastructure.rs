use vstd::prelude::*;
use vstd::string::*;
use crate::text::{
    chars_of, decimal_string, decimal_text, lemma_decimal_text_is_injective, lemma_equal_middles,
    texts,
};

verus! {

/// Whether `c` may stand in a word of a kebab-case name: a lower-case letter
/// or a digit.
pub open spec fn is_word_char(c: char) -> bool {
    ('a' <= c && c <= 'z') || ('0' <= c && c <= '9')
}

/// Whether `c` separates two words of a kebab-case name.
pub open spec fn is_separator(c: char) -> bool {
    c == '-' || c == '_'
}

/// Whether two separators stand side by side at `i` and after it.
pub open spec fn separators_meet(name: Seq<char>, i: int) -> bool {
    is_separator(name[i]) && is_separator(name[i + 1])
}

/// Whether `name` is made of one or more words of lower-case letters and
/// digits, each two joined by one hyphen or underscore.
pub open spec fn kebab_case(name: Seq<char>) -> bool {
    &&& name.len() > 0
    &&& forall|i: int| 0 <= i < name.len() ==> is_word_char(name[i]) || is_separator(name[i])
    &&& is_word_char(name[0])
    &&& is_word_char(name.last())
    &&& forall|i: int| 0 <= i < name.len() - 1 ==> !separators_meet(name, i)
}

/// Whether `input` is a kebab-case name.
pub fn is_kebab_case(input: &str) -> (res: bool)
    ensures
        res == kebab_case(input@),
{
    let chars = chars_of(input);
    let n: usize = chars.len();
    if n == 0 {
        return false;
    }
    let mut after_word: bool = false;
    let mut i: usize = 0;
    while i < n
        invariant
            n == chars.len(),
            n > 0,
            i <= n,
            chars@ == input@,
            forall|k: int| 0 <= k < i ==> is_word_char(chars@[k]) || is_separator(chars@[k]),
            i > 0 ==> is_word_char(chars@[0]),
            i > 0 ==> after_word == is_word_char(chars@[i - 1]),
            i == 0 ==> !after_word,
            forall|k: int| 0 <= k < i - 1 ==> !separators_meet(chars@, k),
        decreases n - i,
    {
        let c = chars[i];
        let word = ('a' <= c && c <= 'z') || ('0' <= c && c <= '9');
        let separator = c == '-' || c == '_';
        if word {
            after_word = true;
        } else if separator && after_word {
            after_word = false;
        } else {
            proof {
                if !separator {
                    assert(!(is_word_char(input@[i as int]) || is_separator(input@[i as int])));
                } else if i == 0 {
                    assert(!is_word_char(input@[0]));
                } else {
                    assert(separators_meet(input@, i - 1));
                }
            }
            return false;
        }
        i = i + 1;
    }
    after_word
}

/// `name` with a hyphen in place of each space.
pub open spec fn hyphenated(name: Seq<char>) -> Seq<char> {
    name.map_values(|c: char| if c == ' ' { '-' } else { c })
}

/// The `i`-th other name for `base`: `<base> (<i>)`.
pub open spec fn numbered(base: Seq<char>, i: nat) -> Seq<char> {
    base + " ("@ + decimal_text(i) + ")"@
}

/// Different numbers give different names.
pub proof fn lemma_numbered_names_differ(base: Seq<char>, i: nat, j: nat)
    requires
        numbered(base, i) == numbered(base, j),
    ensures
        i == j,
{
    lemma_equal_middles(base + " ("@, decimal_text(i), decimal_text(j), ")"@);
    lemma_decimal_text_is_injective(i, j);
}

/// Writes `name` with a hyphen in place of each space.
pub fn hyphenate(name: &str) -> (res: String)
    ensures
        res@ == hyphenated(name@),
{
    let chars = chars_of(name);
    let n: usize = chars.len();
    let mut out = String::new();
    let mut i: usize = 0;
    while i < n
        invariant
            n == chars.len(),
            chars@ == name@,
            i <= n,
            out@ == hyphenated(name@).take(i as int),
        decreases n - i,
    {
        proof {
            reveal_strlit("-");
            assert("-"@ =~= seq!['-']);
            assert(name@.subrange(i as int, i + 1) =~= seq![name@[i as int]]);
            assert(hyphenated(name@).take(i + 1) =~= hyphenated(name@).take(i as int).push(
                hyphenated(name@)[i as int],
            ));
        }
        if chars[i] == ' ' {
            out.append("-");
        } else {
            out.append(name.substring_char(i, i + 1));
        }
        proof {
            assert(out@ =~= hyphenated(name@).take(i + 1));
        }
        i = i + 1;
    }
    proof {
        assert(hyphenated(name@).take(n as int) =~= hyphenated(name@));
    }
    out
}

/// The first place in `names` that holds `name`, if any.
fn position_of_name(names: &Vec<String>, name: &String) -> (res: Option<usize>)
    ensures
        match res {
            Some(k) => k < names.len() && names@[k as int]@ == name@,
            None => !texts(names@).contains(name@),
        },
{
    let n: usize = names.len();
    let mut k: usize = 0;
    while k < n
        invariant
            n == names.len(),
            k <= n,
            forall|m: int| 0 <= m < k ==> texts(names@)[m] != name@,
        decreases n - k,
    {
        if names[k] == *name {
            return Some(k);
        }
        k = k + 1;
    }
    None
}

/// Writes the `i`-th other name for `base`.
fn write_numbered(base: &str, i: usize) -> (res: String)
    ensures
        res@ == numbered(base@, i as nat),
{
    let number = decimal_string(i as u64);
    let mut out = String::from_str(base);
    out.append(" (");
    out.append(number.as_str());
    out.append(")");
    out
}

/// A copy of `names`.
fn copy_names(names: &Vec<String>) -> (res: Vec<String>)
    ensures
        res.len() == names.len(),
        texts(res@) == texts(names@),
{
    let mut out: Vec<String> = Vec::new();
    let n: usize = names.len();
    let mut i: usize = 0;
    while i < n
        invariant
            n == names.len(),
            i <= n,
            out.len() == i,
            forall|k: int| 0 <= k < i ==> (#[trigger] out@[k])@ == names@[k]@,
        decreases n - i,
    {
        out.push(names[i].clone());
        i = i + 1;
    }
    proof {
        assert(texts(out@) =~= texts(names@));
    }
    out
}

/// Whether `name` is `base` with one of the numbers from 1 up to, not
/// including, `i`.
pub open spec fn numbered_below(base: Seq<char>, i: nat, name: Seq<char>) -> bool {
    exists|j: nat| 1 <= j < i && name == numbered(base, j)
}

/// The name under which a new entry called `filename` can be stored beside
/// the entries called `existing`: `filename` with hyphens for spaces where
/// that name is free; else that name with the first number, from 1, that
/// makes a free name.
pub fn compute_file_path(filename: &str, existing: &Vec<String>) -> (res: String)
    requires
        existing.len() < usize::MAX,
    ensures
        !texts(existing@).contains(res@),
        !texts(existing@).contains(hyphenated(filename@)) ==> res@ == hyphenated(filename@),
        texts(existing@).contains(hyphenated(filename@)) ==> exists|i: nat|
            {
                &&& 1 <= i
                &&& res@ == numbered(hyphenated(filename@), i)
                &&& forall|j: nat|
                    1 <= j < i ==> texts(existing@).contains(
                        #[trigger] numbered(hyphenated(filename@), j),
                    )
            },
{
    let base = hyphenate(filename);
    match position_of_name(existing, &base) {
        None => {
            return base;
        },
        Some(k) => {
            proof {
                assert(texts(existing@)[k as int] == base@);
            }
        },
    }
    let ghost names = texts(existing@);
    let mut remaining = copy_names(existing);
    let mut i: usize = 1;
    loop
        invariant
            names == texts(existing@),
            names.contains(hyphenated(filename@)),
            base@ == hyphenated(filename@),
            existing.len() < usize::MAX,
            remaining.len() <= existing.len(),
            1 <= i,
            i == existing.len() - remaining.len() + 1,
            forall|name: Seq<char>|
                names.contains(name) <==> texts(remaining@).contains(name) || numbered_below(
                    base@,
                    i as nat,
                    name,
                ),
            forall|j: nat| 1 <= j < i ==> names.contains(#[trigger] numbered(base@, j)),
        decreases remaining.len(),
    {
        let candidate = write_numbered(base.as_str(), i);
        proof {
            if numbered_below(base@, i as nat, candidate@) {
                let j = choose|j: nat| 1 <= j < i && candidate@ == numbered(base@, j);
                lemma_numbered_names_differ(base@, i as nat, j);
            }
        }
        match position_of_name(&remaining, &candidate) {
            None => {
                return candidate;
            },
            Some(k) => {
                let ghost before = texts(remaining@);
                remaining.remove(k);
                proof {
                    let after = texts(remaining@);
                    assert(after =~= before.remove(k as int));
                    assert(before[k as int] == candidate@);
                    assert(names.contains(candidate@));
                    assert forall|name: Seq<char>|
                        names.contains(name) <==> after.contains(name) || numbered_below(
                            base@,
                            (i + 1) as nat,
                            name,
                        ) by {
                        if after.contains(name) {
                            let m = choose|m: int| 0 <= m < after.len() && after[m] == name;
                            if m < k {
                                assert(before[m] == name);
                            } else {
                                assert(before[m + 1] == name);
                            }
                            assert(before.contains(name));
                        }
                        if numbered_below(base@, (i + 1) as nat, name) {
                            let j = choose|j: nat| 1 <= j < i + 1 && name == numbered(base@, j);
                            if j < i {
                                assert(numbered_below(base@, i as nat, name));
                            }
                        }
                        if names.contains(name) && !numbered_below(base@, (i + 1) as nat, name) {
                            if numbered_below(base@, i as nat, name) {
                                let j = choose|j: nat| 1 <= j < i && name == numbered(base@, j);
                                assert(1 <= j < i + 1 && name == numbered(base@, j));
                            }
                            assert(name != candidate@) by {
                                if name == candidate@ {
                                    assert(1 <= i < i + 1 && name == numbered(base@, i as nat));
                                }
                            }
                            assert(before.contains(name));
                            let m = choose|m: int| 0 <= m < before.len() && before[m] == name;
                            if m < k {
                                assert(after[m] == name);
                            } else {
                                assert(after[m - 1] == name);
                            }
                        }
                    }
                }
                i = i + 1;
            },
        }
    }
}

} // verus!
