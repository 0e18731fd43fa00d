use vstd::prelude::*;
use vstd::string::*;

verus! {

/// The texts of `parts` as one text, with `separator` between each two.
pub open spec fn join_texts(parts: Seq<Seq<char>>, separator: Seq<char>) -> Seq<char>
    decreases parts.len(),
{
    if parts.len() == 0 {
        Seq::empty()
    } else if parts.len() == 1 {
        parts[0]
    } else {
        join_texts(parts.drop_last(), separator) + separator + parts.last()
    }
}

/// The texts of `parts` as one text, joined by single line feeds.
pub open spec fn join_lines(parts: Seq<Seq<char>>) -> Seq<char> {
    join_texts(parts, "\n"@)
}

/// The views of a sequence of strings.
pub open spec fn texts(parts: Seq<String>) -> Seq<Seq<char>> {
    Seq::new(parts.len(), |i: int| parts[i]@)
}

/// Appends `part` to `parts`.
pub fn push_text(parts: &mut Vec<String>, part: String)
    ensures
        texts(final(parts)@) == texts(old(parts)@).push(part@),
{
    parts.push(part);
    proof {
        assert(texts(parts@) =~= texts(old(parts)@).push(part@));
    }
}

/// The characters of `text`, in order.
pub fn chars_of(text: &str) -> (res: Vec<char>)
    ensures
        res@ == text@,
{
    let mut out: Vec<char> = Vec::new();
    for c in it: text.chars()
        invariant
            it.seq() == text@,
            out@ == text@.take(it.index() as int),
    {
        proof {
            assert(c == text@[it.index() as int]);
            assert(text@.take(it.index() + 1) =~= text@.take(it.index() as int).push(c));
        }
        out.push(c);
    }
    proof {
        assert(text@.take(text@.len() as int) =~= text@);
    }
    out
}

/// A list of one text, or of none where the text is absent.
pub open spec fn optional_text(text: Option<Seq<char>>) -> Seq<Seq<char>> {
    match text {
        Some(present) => Seq::empty().push(present),
        None => Seq::empty(),
    }
}

/// Appends `text` to `parts`, where there is one.
pub fn push_optional_text(parts: &mut Vec<String>, text: Option<String>)
    ensures
        texts(final(parts)@) == texts(old(parts)@) + optional_text(text.deep_view()),
{
    match text {
        Some(present) => {
            parts.push(present);
            proof {
                assert(texts(parts@) =~= texts(old(parts)@) + Seq::empty().push(present@));
            }
        },
        None => {
            proof {
                assert(texts(parts@) =~= texts(old(parts)@) + Seq::<Seq<char>>::empty());
            }
        },
    }
}

/// Appending to what was appended is appending the two at once.
pub proof fn lemma_texts_appended_twice(
    before: Seq<Seq<char>>,
    done: Seq<Seq<char>>,
    next: Seq<Seq<char>>,
)
    ensures
        before + done + next == before + (done + next),
{
    assert(before + done + next =~= before + (done + next));
}

/// Joins `parts` with `separator`, keeping their order.
pub fn join_with(parts: &Vec<String>, separator: &str) -> (res: String)
    ensures
        res@ == join_texts(texts(parts@), separator@),
{
    let mut out = String::new();
    let n: usize = parts.len();
    let mut i: usize = 0;
    while i < n
        invariant
            n == parts.len(),
            i <= n,
            out@ == join_texts(texts(parts@).take(i as int), separator@),
        decreases n - i,
    {
        let ghost before = texts(parts@).take(i as int);
        let ghost after = texts(parts@).take(i + 1);
        proof {
            assert(after.drop_last() =~= before);
            assert(after.last() == parts@[i as int]@);
        }
        if i > 0 {
            out.append(separator);
        } else {
            proof {
                assert(before =~= Seq::<Seq<char>>::empty());
                assert(out@ + parts@[i as int]@ =~= parts@[i as int]@);
            }
        }
        out.append(parts[i].as_str());
        i = i + 1;
    }
    proof {
        assert(texts(parts@).take(n as int) =~= texts(parts@));
    }
    out
}

/// Joins `parts` with line feeds, keeping their order.
pub fn join_with_newlines(parts: &Vec<String>) -> (res: String)
    ensures
        res@ == join_lines(texts(parts@)),
{
    join_with(parts, "\n")
}

/// The decimal digit `d` as a text.
pub open spec fn digit_text(d: nat) -> Seq<char> {
    if d == 0 {
        "0"@
    } else if d == 1 {
        "1"@
    } else if d == 2 {
        "2"@
    } else if d == 3 {
        "3"@
    } else if d == 4 {
        "4"@
    } else if d == 5 {
        "5"@
    } else if d == 6 {
        "6"@
    } else if d == 7 {
        "7"@
    } else if d == 8 {
        "8"@
    } else {
        "9"@
    }
}

/// The number `n` in decimal notation, without leading zeros.
pub open spec fn decimal_text(n: nat) -> Seq<char>
    decreases n,
{
    if n < 10 {
        digit_text(n)
    } else {
        decimal_text(n / 10) + digit_text(n % 10)
    }
}

/// The decimal digit `d` as a text.
fn digit_str(d: u64) -> (res: &'static str)
    requires
        d < 10,
    ensures
        res@ == digit_text(d as nat),
{
    if d == 0 {
        "0"
    } else if d == 1 {
        "1"
    } else if d == 2 {
        "2"
    } else if d == 3 {
        "3"
    } else if d == 4 {
        "4"
    } else if d == 5 {
        "5"
    } else if d == 6 {
        "6"
    } else if d == 7 {
        "7"
    } else if d == 8 {
        "8"
    } else {
        "9"
    }
}

/// Writes `n` in decimal notation.
pub fn decimal_string(n: u64) -> (res: String)
    ensures
        res@ == decimal_text(n as nat),
    decreases n,
{
    if n < 10 {
        String::from_str(digit_str(n))
    } else {
        let mut out = decimal_string(n / 10);
        out.append(digit_str(n % 10));
        out
    }
}

/// Whether `text` begins with `prefix`.
pub fn starts_with(text: &str, prefix: &str) -> (res: bool)
    ensures
        res == prefix@.is_prefix_of(text@),
{
    let subject = chars_of(text);
    let wanted = chars_of(prefix);
    if wanted.len() > subject.len() {
        return false;
    }
    let n: usize = wanted.len();
    let mut i: usize = 0;
    while i < n
        invariant
            n == wanted.len(),
            n <= subject.len(),
            i <= n,
            subject@ == text@,
            wanted@ == prefix@,
            forall|k: int| 0 <= k < i ==> subject@[k] == wanted@[k],
        decreases n - i,
    {
        if subject[i] != wanted[i] {
            proof {
                assert(text@.subrange(0, n as int)[i as int] != prefix@[i as int]);
            }
            return false;
        }
        i = i + 1;
    }
    proof {
        assert(text@.subrange(0, n as int) =~= prefix@);
    }
    true
}

/// Whether `part` stands in `text` at the place `i`.
pub open spec fn occurs_at(text: Seq<char>, part: Seq<char>, i: int) -> bool {
    &&& 0 <= i
    &&& i + part.len() <= text.len()
    &&& text.subrange(i, i + part.len()) == part
}

/// Whether `part` stands somewhere in `text`.
pub open spec fn contains_text(text: Seq<char>, part: Seq<char>) -> bool {
    exists|i: int| occurs_at(text, part, i)
}

/// Every text stands in itself.
pub proof fn lemma_contains_itself(text: Seq<char>)
    ensures
        contains_text(text, text),
{
    assert(text.subrange(0, text.len() as int) =~= text);
    assert(occurs_at(text, text, 0));
}

/// What stands in a text also stands in that text with something before
/// and something after it.
pub proof fn lemma_contains_in_context(before: Seq<char>, text: Seq<char>, after: Seq<char>, part: Seq<char>)
    requires
        contains_text(text, part),
    ensures
        contains_text(before + text + after, part),
        contains_text(before + text, part),
        contains_text(text + after, part),
{
    let i = choose|i: int| occurs_at(text, part, i);
    assert((before + text + after).subrange(before.len() + i, before.len() + i + part.len())
        =~= text.subrange(i, i + part.len()));
    assert(occurs_at(before + text + after, part, before.len() + i));
    assert((before + text).subrange(before.len() + i, before.len() + i + part.len())
        =~= text.subrange(i, i + part.len()));
    assert(occurs_at(before + text, part, before.len() + i));
    assert((text + after).subrange(i, i + part.len()) =~= text.subrange(i, i + part.len()));
    assert(occurs_at(text + after, part, i));
}

/// What stands in a part of a text stands in the text.
pub proof fn lemma_contains_transitive(text: Seq<char>, middle: Seq<char>, part: Seq<char>)
    requires
        contains_text(text, middle),
        contains_text(middle, part),
    ensures
        contains_text(text, part),
{
    let i = choose|i: int| occurs_at(text, middle, i);
    let j = choose|j: int| occurs_at(middle, part, j);
    assert(text.subrange(i + j, i + j + part.len()) =~= text.subrange(
        i,
        i + middle.len(),
    ).subrange(j, j + part.len()));
    assert(occurs_at(text, part, i + j));
}

/// Each of the joined texts stands in the result of the join.
pub proof fn lemma_join_lines_contains(parts: Seq<Seq<char>>, i: int)
    requires
        0 <= i < parts.len(),
    ensures
        contains_text(join_lines(parts), parts[i]),
    decreases parts.len(),
{
    if parts.len() == 1 {
        lemma_contains_itself(parts[0]);
    } else if i == parts.len() - 1 {
        lemma_contains_itself(parts.last());
        lemma_contains_in_context(
            join_lines(parts.drop_last()) + "\n"@,
            parts.last(),
            Seq::empty(),
            parts.last(),
        );
    } else {
        lemma_join_lines_contains(parts.drop_last(), i);
        assert(parts.drop_last()[i] == parts[i]);
        lemma_contains_in_context(
            Seq::empty(),
            join_lines(parts.drop_last()),
            "\n"@ + parts.last(),
            parts[i],
        );
        assert(join_lines(parts.drop_last()) + ("\n"@ + parts.last()) =~= join_lines(parts));
        assert(Seq::<char>::empty() + join_lines(parts.drop_last()) =~= join_lines(
            parts.drop_last(),
        ));
    }
}

/// Each text of a list stands in the result of joining the list.
pub proof fn lemma_join_lines_holds_member(parts: Seq<Seq<char>>, part: Seq<char>)
    requires
        parts.contains(part),
    ensures
        contains_text(join_lines(parts), part),
{
    let i = choose|i: int| 0 <= i < parts.len() && parts[i] == part;
    lemma_join_lines_contains(parts, i);
}

/// What one of two lists holds, the two lists one behind the other hold.
pub proof fn lemma_member_of_either(first: Seq<Seq<char>>, second: Seq<Seq<char>>, part: Seq<char>)
    requires
        first.contains(part) || second.contains(part),
    ensures
        (first + second).contains(part),
{
    if first.contains(part) {
        let i = choose|i: int| 0 <= i < first.len() && first[i] == part;
        assert((first + second)[i] == part);
    } else {
        let i = choose|i: int| 0 <= i < second.len() && second[i] == part;
        assert((first + second)[first.len() + i] == part);
    }
}

/// Joining two lists of texts that each hold a text, one behind the other,
/// gives the two joined texts with a line feed between them.
pub proof fn lemma_join_lines_of_two(first: Seq<Seq<char>>, second: Seq<Seq<char>>)
    requires
        first.len() > 0,
        second.len() > 0,
    ensures
        join_lines(first + second) == join_lines(first) + "\n"@ + join_lines(second),
    decreases second.len(),
{
    let all = first + second;
    assert(all.drop_last() =~= first + second.drop_last());
    assert(all.last() == second.last());
    if second.len() == 1 {
        assert(first + second.drop_last() =~= first);
    } else {
        lemma_join_lines_of_two(first, second.drop_last());
        assert(join_lines(first) + "\n"@ + join_lines(second.drop_last()) + "\n"@ + second.last()
            =~= join_lines(first) + "\n"@ + (join_lines(second.drop_last()) + "\n"@
            + second.last()));
    }
}

/// The text of a digit is one sign, and different digits have different signs.
proof fn lemma_digit_texts_differ(a: nat, b: nat)
    requires
        a < 10,
        b < 10,
    ensures
        digit_text(a).len() == 1,
        digit_text(a) == digit_text(b) ==> a == b,
{
    reveal_strlit("0");
    reveal_strlit("1");
    reveal_strlit("2");
    reveal_strlit("3");
    reveal_strlit("4");
    reveal_strlit("5");
    reveal_strlit("6");
    reveal_strlit("7");
    reveal_strlit("8");
    reveal_strlit("9");
    if digit_text(a) == digit_text(b) {
        assert(digit_text(a)[0] == digit_text(b)[0]);
    }
}

/// A number of two or more digits is written with two or more signs.
proof fn lemma_decimal_text_length(n: nat)
    ensures
        decimal_text(n).len() >= 1,
        n >= 10 ==> decimal_text(n).len() >= 2,
    decreases n,
{
    lemma_digit_texts_differ(n % 10, 0);
    if n >= 10 {
        lemma_decimal_text_length(n / 10);
    }
}

/// Different numbers are written differently.
pub proof fn lemma_decimal_text_is_injective(a: nat, b: nat)
    requires
        decimal_text(a) == decimal_text(b),
    ensures
        a == b,
    decreases a,
{
    lemma_decimal_text_length(a);
    lemma_decimal_text_length(b);
    if a < 10 && b < 10 {
        lemma_digit_texts_differ(a, b);
    } else if a < 10 {
        lemma_digit_texts_differ(a, 0);
    } else if b < 10 {
        lemma_digit_texts_differ(b, 0);
    } else {
        lemma_digit_texts_differ(a % 10, b % 10);
        lemma_digit_texts_differ(b % 10, a % 10);
        let front_a = decimal_text(a / 10);
        let front_b = decimal_text(b / 10);
        let text = decimal_text(a);
        assert(text == front_a + digit_text(a % 10));
        assert(text == front_b + digit_text(b % 10));
        assert(front_a.len() == front_b.len());
        assert(digit_text(a % 10) =~= text.subrange(front_a.len() as int, text.len() as int));
        assert(digit_text(b % 10) =~= text.subrange(front_b.len() as int, text.len() as int));
        assert(front_a =~= text.subrange(0, front_a.len() as int));
        assert(front_b =~= text.subrange(0, front_b.len() as int));
        lemma_decimal_text_is_injective(a / 10, b / 10);
    }
}

/// Two texts that begin and end alike and are equal have equal middles.
pub proof fn lemma_equal_middles(before: Seq<char>, a: Seq<char>, b: Seq<char>, after: Seq<char>)
    requires
        before + a + after == before + b + after,
    ensures
        a == b,
{
    let left = before + a + after;
    let right = before + b + after;
    assert(left.len() == right.len());
    assert(a.len() == b.len());
    assert(a =~= left.subrange(before.len() as int, (before.len() + a.len()) as int));
    assert(b =~= right.subrange(before.len() as int, (before.len() + b.len()) as int));
}

} // verus!
