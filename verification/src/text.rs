//! Text building blocks: joining, labelled fields, decimal numerals and the
//! splitting rules the report formats rely on.

use vstd::prelude::*;

verus! {

/// `items` joined by `sep`, as `[T]::join` does it: the separator stands between
/// consecutive items only.
pub open spec fn seq_join(items: Seq<Seq<char>>, sep: Seq<char>) -> Seq<char>
    decreases items.len(),
{
    if items.len() == 0 {
        Seq::<char>::empty()
    } else if items.len() == 1 {
        items[0]
    } else {
        seq_join(items.drop_last(), sep) + sep + items.last()
    }
}

/// The concatenation of all `items`, in order.
pub open spec fn seq_concat<A>(items: Seq<Seq<A>>) -> Seq<A>
    decreases items.len(),
{
    if items.len() == 0 {
        Seq::<A>::empty()
    } else {
        seq_concat(items.drop_last()) + items.last()
    }
}

/// A field line: the label followed by the value.
pub fn labeled(label: &str, value: &str) -> (res: String)
    ensures
        res@ == label@ + value@,
{
    let mut res = String::from_str(label);
    res.append(value);
    res
}

/// Joins `items` with `sep` between consecutive ones.
pub fn join(items: &Vec<String>, sep: &str) -> (res: String)
    ensures
        res@ == seq_join(items.deep_view(), sep@),
{
    let mut res = String::new();
    let n = items.len();
    let ghost all = items.deep_view();
    for i in 0..n
        invariant
            n == items.len(),
            all == items.deep_view(),
            res@ == seq_join(all.take(i as int), sep@),
    {
        assert(all.take(i + 1).drop_last() =~= all.take(i as int));
        if i != 0 {
            res.append(sep);
        }
        res.append(items[i].as_str());
    }
    assert(all.take(n as int) =~= all);
    res
}

/// The character of a decimal digit.
pub open spec fn digit_char(d: int) -> char {
    if d == 0 { '0' }
    else if d == 1 { '1' }
    else if d == 2 { '2' }
    else if d == 3 { '3' }
    else if d == 4 { '4' }
    else if d == 5 { '5' }
    else if d == 6 { '6' }
    else if d == 7 { '7' }
    else if d == 8 { '8' }
    else { '9' }
}

/// The decimal numeral of `n`, without leading zeros (`0` is `"0"`).
pub open spec fn decimal(n: nat) -> Seq<char>
    decreases n,
{
    if n < 10 {
        seq![digit_char(n as int)]
    } else {
        decimal(n / 10).push(digit_char((n % 10) as int))
    }
}

fn digit_str(d: u64) -> (res: &'static str)
    requires
        d < 10,
    ensures
        res@ == seq![digit_char(d as int)],
{
    proof {
        reveal_strlit("0");
        reveal_strlit("1");
        reveal_strlit("2");
        reveal_strlit("3");
        reveal_strlit("4");
        reveal_strlit("5");
        reveal_strlit("6");
        reveal_strlit("7");
        reveal_strlit("8");
        reveal_strlit("9");
    }
    let res = if d == 0 { "0" }
    else if d == 1 { "1" }
    else if d == 2 { "2" }
    else if d == 3 { "3" }
    else if d == 4 { "4" }
    else if d == 5 { "5" }
    else if d == 6 { "6" }
    else if d == 7 { "7" }
    else if d == 8 { "8" }
    else { "9" };
    assert(res@ =~= seq![digit_char(d as int)]);
    res
}

/// The decimal numeral of `n`, as `format!("{}", n)` writes it.
pub fn decimal_string(n: u64) -> (res: String)
    ensures
        res@ == decimal(n as nat),
    decreases n,
{
    if n < 10 {
        String::from_str(digit_str(n))
    } else {
        let mut res = decimal_string(n / 10);
        res.append(digit_str(n % 10));
        assert(res@ =~= decimal(n as nat));
        res
    }
}

/// Whether `pat` occurs in `s` at position `i`.
pub open spec fn matches_at(s: Seq<char>, pat: Seq<char>, i: int) -> bool {
    0 <= i && i + pat.len() <= s.len() && s.subrange(i, i + pat.len()) == pat
}

/// The last piece of `s` split at `pat`, where the occurrences of `pat` are taken
/// from left to right without overlap (the splitting of `str::split`);
/// the current piece began at `piece_start` and `i` is the next position to look at.
/// An empty `pat` leaves `s` whole.
pub open spec fn last_piece_from(s: Seq<char>, pat: Seq<char>, piece_start: int, i: int) -> Seq<
    char,
>
    decreases s.len() - i,
{
    if i >= s.len() || pat.len() == 0 {
        s.subrange(piece_start, s.len() as int)
    } else if matches_at(s, pat, i) {
        last_piece_from(s, pat, i + pat.len(), i + pat.len())
    } else {
        last_piece_from(s, pat, piece_start, i + 1)
    }
}

/// The last piece of `s` split at `pat` (`s.split(pat).last()`).
pub open spec fn last_split_piece(s: Seq<char>, pat: Seq<char>) -> Seq<char> {
    last_piece_from(s, pat, 0, 0)
}

/// What follows the first `c` in `s`, or nothing when `c` does not occur
/// (`s.split(c).skip(1)` joined by `c` again).
pub open spec fn after_first(s: Seq<char>, c: char) -> Seq<char>
    decreases s.len(),
{
    if s.len() == 0 {
        Seq::<char>::empty()
    } else if s[0] == c {
        s.drop_first()
    } else {
        after_first(s.drop_first(), c)
    }
}

/// The characters of `s`.
pub fn chars_of(s: &str) -> (res: Vec<char>)
    ensures
        res@ == s@,
{
    broadcast use vstd::string::group_string_axioms;
    let mut res: Vec<char> = Vec::new();
    for c in it: s.chars()
        invariant
            res@ == it.seq().take(it.index() as int),
    {
        res.push(c);
    }
    res
}

pub fn matches_at_exec(s: &Vec<char>, pat: &Vec<char>, i: usize) -> (res: bool)
    ensures
        res == matches_at(s@, pat@, i as int),
{
    if i > s.len() || pat.len() > s.len() - i {
        return false;
    }
    let mut k: usize = 0;
    while k < pat.len()
        invariant
            i + pat.len() <= s.len(),
            k <= pat.len(),
            forall|j: int| 0 <= j < k ==> s@[i + j] == pat@[j],
        decreases pat.len() - k,
    {
        if s[i + k] != pat[k] {
            assert(s@.subrange(i as int, i + pat.len())[k as int] != pat@[k as int]);
            return false;
        }
        k += 1;
    }
    assert(s@.subrange(i as int, i + pat.len()) =~= pat@);
    true
}

/// The first position at or after `i` where `pat` occurs in `s`.
pub open spec fn find_from(s: Seq<char>, pat: Seq<char>, i: int) -> Option<int>
    decreases s.len() + 1 - i,
{
    if i < 0 || i + pat.len() > s.len() {
        None
    } else if matches_at(s, pat, i) {
        Some(i)
    } else {
        find_from(s, pat, i + 1)
    }
}

/// What precedes the first `c` in `s`, or all of `s` when `c` does not occur.
pub open spec fn before_first(s: Seq<char>, c: char) -> Seq<char>
    decreases s.len(),
{
    if s.len() == 0 {
        s
    } else if s[0] == c {
        Seq::<char>::empty()
    } else {
        seq![s[0]] + before_first(s.drop_first(), c)
    }
}

/// A found position lies where `pat` occurs, at or after `i`.
pub proof fn lemma_find_from(s: Seq<char>, pat: Seq<char>, i: int)
    ensures
        find_from(s, pat, i) matches Some(k) ==> i <= k && k + pat.len() <= s.len() && matches_at(
            s,
            pat,
            k,
        ),
    decreases s.len() + 1 - i,
{
    if 0 <= i && i + pat.len() <= s.len() && !matches_at(s, pat, i) {
        lemma_find_from(s, pat, i + 1);
    }
}

/// The first position at or after `from` where `pat` occurs in `s`.
pub fn find_in(s: &Vec<char>, pat: &Vec<char>, from: usize) -> (res: Option<usize>)
    ensures
        res matches Some(k) ==> find_from(s@, pat@, from as int) == Some(k as int),
        res is None ==> find_from(s@, pat@, from as int) is None,
{
    let mut i = from;
    while i <= s.len() && pat.len() <= s.len() - i
        invariant
            find_from(s@, pat@, from as int) == find_from(s@, pat@, i as int),
            from <= i,
        decreases s.len() + 1 - i,
    {
        if matches_at_exec(s, pat, i) {
            return Some(i);
        }
        if i == s.len() {
            assert(find_from(s@, pat@, i + 1) is None);
            return None;
        }
        i = i + 1;
    }
    None
}

/// The characters `from..to` of `s` as a string.
pub fn string_of(s: &str, from: usize, to: usize) -> (res: String)
    requires
        from <= to <= s@.len(),
    ensures
        res@ == s@.subrange(from as int, to as int),
{
    String::from_str(s.substring_char(from, to))
}

/// What precedes the first `c` in `s`, or all of `s`.
pub fn before_first_of(s: &str, c: char) -> (res: String)
    ensures
        res@ == before_first(s@, c),
{
    let cs = chars_of(s);
    let n = cs.len();
    let mut i: usize = 0;
    while i < n
        invariant
            n == s@.len(),
            cs@ == s@,
            i <= n,
            forall|k: int| 0 <= k < i ==> s@[k] != c,
        decreases n - i,
    {
        if cs[i] == c {
            proof {
                lemma_before_first(s@, c, i as int);
            }
            return string_of(s, 0, i);
        }
        i = i + 1;
    }
    proof {
        lemma_before_first(s@, c, i as int);
    }
    string_of(s, 0, i)
}

/// Where the first `c` stands at `i` (or `c` does not occur and `i` is the end),
/// what precedes it is the first `i` characters.
proof fn lemma_before_first(s: Seq<char>, c: char, i: int)
    requires
        0 <= i <= s.len(),
        forall|k: int| 0 <= k < i ==> s[k] != c,
        i == s.len() || s[i] == c,
    ensures
        before_first(s, c) == s.subrange(0, i),
    decreases s.len(),
{
    if s.len() > 0 && i > 0 {
        lemma_before_first(s.drop_first(), c, i - 1);
        assert(s.subrange(0, i) =~= seq![s[0]] + s.drop_first().subrange(0, i - 1));
    } else if s.len() > 0 {
        assert(s.subrange(0, 0) =~= Seq::<char>::empty());
    } else {
        assert(s.subrange(0, 0) =~= s);
    }
}

/// The last piece of `s` split at `pat`.
pub fn last_split_piece_of(s: &str, pat: &str) -> (res: String)
    ensures
        res@ == last_split_piece(s@, pat@),
{
    let cs = chars_of(s);
    let ps = chars_of(pat);
    let n = cs.len();
    if ps.len() == 0 {
        return String::from_str(s.substring_char(0, n));
    }
    let mut start: usize = 0;
    let mut i: usize = 0;
    while i < n
        invariant
            n == s@.len(),
            cs@ == s@,
            ps@ == pat@,
            pat@.len() > 0,
            start <= i <= n,
            last_split_piece(s@, pat@) == last_piece_from(s@, pat@, start as int, i as int),
        decreases n - i,
    {
        if matches_at_exec(&cs, &ps, i) {
            i = i + ps.len();
            start = i;
        } else {
            i = i + 1;
        }
    }
    String::from_str(s.substring_char(start, n))
}

/// What follows the first `c` in `s`, or the empty string.
pub fn after_first_of(s: &str, c: char) -> (res: String)
    ensures
        res@ == after_first(s@, c),
{
    let n = s.unicode_len();
    let mut i: usize = 0;
    assert(s@.skip(0) =~= s@);
    while i < n
        invariant
            n == s@.len(),
            i <= n,
            after_first(s@, c) == after_first(s@.skip(i as int), c),
        decreases n - i,
    {
        assert(s@.skip(i as int)[0] == s@[i as int]);
        assert(s@.skip(i as int).drop_first() =~= s@.skip(i + 1));
        if s.get_char(i) == c {
            return String::from_str(s.substring_char(i + 1, n));
        }
        i = i + 1;
    }
    assert(s@.skip(n as int).len() == 0);
    String::new()
}

} // verus!
