//! Character-level string helpers shared by the rest of the library.
//!
//! Every function here works on the `Seq<char>` view of its arguments, so the
//! contracts elsewhere in the crate can be stated over plain sequences.
use vstd::prelude::*;

verus! {

broadcast use vstd::string::group_string_axioms;

/// The views of a sequence of strings.
pub open spec fn views(v: Seq<String>) -> Seq<Seq<char>> {
    v.map_values(|s: String| s@)
}

/// `needle` occurs in `hay` starting at position `i`.
pub open spec fn occurs_at(hay: Seq<char>, needle: Seq<char>, i: int) -> bool {
    &&& 0 <= i
    &&& i + needle.len() <= hay.len()
    &&& hay.subrange(i, i + needle.len()) == needle
}

/// `needle` occurs somewhere in `hay` (the empty needle occurs everywhere).
pub open spec fn contains_seq(hay: Seq<char>, needle: Seq<char>) -> bool {
    exists|i: int| #[trigger] occurs_at(hay, needle, i)
}

/// The pieces of `s` between occurrences of `sep`, empty pieces included:
/// there is always one more piece than there are separators.
pub open spec fn split_on(s: Seq<char>, sep: char) -> Seq<Seq<char>>
    decreases s.len(),
{
    if s.len() == 0 {
        seq![Seq::<char>::empty()]
    } else {
        let init = split_on(s.drop_last(), sep);
        if s.last() == sep {
            init.push(Seq::<char>::empty())
        } else {
            init.update(init.len() - 1, init.last().push(s.last()))
        }
    }
}

/// The pieces of `parts` glued together with `sep` between neighbours.
pub open spec fn join(parts: Seq<Seq<char>>, sep: Seq<char>) -> Seq<char>
    decreases parts.len(),
{
    if parts.len() == 0 {
        Seq::<char>::empty()
    } else if parts.len() == 1 {
        parts[0]
    } else {
        join(parts.drop_last(), sep) + sep + parts.last()
    }
}

/// The non-empty pieces of `parts`, in order.
pub open spec fn nonempty(parts: Seq<Seq<char>>) -> Seq<Seq<char>> {
    parts.filter(|p: Seq<char>| p.len() > 0)
}

/// `s` with every `from` replaced by `to`.
pub open spec fn replace_char(s: Seq<char>, from: char, to: char) -> Seq<char> {
    s.map_values(|c: char| if c == from { to } else { c })
}

proof fn lemma_join_extend_last(parts: Seq<Seq<char>>, sep: Seq<char>, c: char)
    requires
        parts.len() >= 1,
    ensures
        join(parts.update(parts.len() - 1, parts.last().push(c)), sep) == join(parts, sep).push(c),
{
    let updated = parts.update(parts.len() - 1, parts.last().push(c));
    if parts.len() == 1 {
    } else {
        assert(updated.drop_last() =~= parts.drop_last());
        assert(join(updated, sep) == join(parts.drop_last(), sep) + sep + parts.last().push(c));
        assert(join(parts, sep) == join(parts.drop_last(), sep) + sep + parts.last());
        assert((join(parts.drop_last(), sep) + sep + parts.last()).push(c) =~= join(
            parts.drop_last(),
            sep,
        ) + sep + parts.last().push(c));
    }
}

/// Splitting at every `sep` and joining the pieces with `glue` replaces
/// every `sep` by `glue`; with `glue == sep` it gives back the text.
pub proof fn lemma_join_split(s: Seq<char>, sep: char, glue: char)
    ensures
        join(split_on(s, sep), seq![glue]) == replace_char(s, sep, glue),
    decreases s.len(),
{
    if s.len() == 0 {
        assert(replace_char(s, sep, glue) =~= Seq::<char>::empty());
    } else {
        let init = s.drop_last();
        lemma_join_split(init, sep, glue);
        lemma_split_nonempty(init, sep);
        assert(replace_char(s, sep, glue) =~= replace_char(init, sep, glue).push(
            if s.last() == sep { glue } else { s.last() },
        ));
        let pieces = split_on(init, sep);
        if s.last() == sep {
            let pushed = pieces.push(Seq::<char>::empty());
            assert(pushed.drop_last() =~= pieces);
            assert(join(pushed, seq![glue]) == join(pieces, seq![glue]) + seq![glue] + Seq::<
                char,
            >::empty());
            assert(join(pieces, seq![glue]) + seq![glue] + Seq::<char>::empty() =~= join(
                pieces,
                seq![glue],
            ).push(glue));
        } else {
            lemma_join_extend_last(pieces, seq![glue], s.last());
        }
    }
}

/// The characters of `s`, in order.
pub fn chars_of(s: &str) -> (v: Vec<char>)
    ensures
        v@ == s@,
{
    let mut v: Vec<char> = Vec::new();
    for c in it: s.chars()
        invariant
            it.seq() == s@,
            v@ == it.seq().take(it.index() as int),
    {
        v.push(c);
    }
    v
}

/// Whether `needle` occurs in `chars` at position `i`.
pub fn occurs_at_exec(chars: &Vec<char>, needle: &Vec<char>, i: usize) -> (b: bool)
    ensures
        b == occurs_at(chars@, needle@, i as int),
{
    if i > chars.len() || needle.len() > chars.len() - i {
        return false;
    }
    let mut k: usize = 0;
    while k < needle.len()
        invariant
            i + needle.len() <= chars.len(),
            k <= needle.len(),
            forall|j: int| 0 <= j < k ==> chars@[i + j] == needle@[j],
        decreases needle.len() - k,
    {
        if chars[i + k] != needle[k] {
            assert(chars@.subrange(i as int, i + needle.len())[k as int] != needle@[k as int]);
            return false;
        }
        k = k + 1;
    }
    assert(chars@.subrange(i as int, i + needle.len()) =~= needle@);
    true
}

/// Whether `needle` occurs as a substring of `hay` (as `str::contains`).
pub fn contains_str(hay: &str, needle: &str) -> (b: bool)
    ensures
        b == contains_seq(hay@, needle@),
{
    let h = chars_of(hay);
    let n = chars_of(needle);
    if n.len() > h.len() {
        assert forall|i: int| !occurs_at(hay@, needle@, i) by {}
        return false;
    }
    let last: usize = h.len() - n.len();
    let mut i: usize = 0;
    loop
        invariant
            h@ == hay@,
            n@ == needle@,
            last == h.len() - n.len(),
            i <= last,
            forall|j: int| 0 <= j < i ==> !#[trigger] occurs_at(hay@, needle@, j),
        ensures
            forall|j: int| 0 <= j <= last ==> !#[trigger] occurs_at(hay@, needle@, j),
        decreases last - i,
    {
        if occurs_at_exec(&h, &n, i) {
            return true;
        }
        if i == last {
            break;
        }
        i = i + 1;
    }
    assert forall|j: int| !occurs_at(hay@, needle@, j) by {
        if 0 <= j <= last {
        }
    }
    false
}

/// The first character of `s` left out.
pub fn drop_first_char(s: &str) -> (r: String)
    requires
        s@.len() > 0,
    ensures
        r@ == s@.drop_first(),
{
    let n: usize = s.unicode_len();
    String::from_str(s.substring_char(1, n))
}

pub proof fn lemma_split_nonempty(s: Seq<char>, sep: char)
    ensures
        split_on(s, sep).len() >= 1,
    decreases s.len(),
{
    if s.len() > 0 {
        lemma_split_nonempty(s.drop_last(), sep);
    }
}

/// `s` split at every occurrence of `sep` (as `str::split` with a char pattern).
pub fn split_on_char(s: &str, sep: char) -> (parts: Vec<String>)
    ensures
        views(parts@) == split_on(s@, sep),
{
    let chars = chars_of(s);
    let n: usize = chars.len();
    let mut parts: Vec<String> = Vec::new();
    let mut start: usize = 0;
    let mut i: usize = 0;
    proof {
        assert(s@.take(0) =~= Seq::<char>::empty());
        assert(views(parts@) =~= Seq::<Seq<char>>::empty());
        assert(s@.subrange(0, 0) =~= Seq::<char>::empty());
    }
    while i < n
        invariant
            chars@ == s@,
            n == chars.len(),
            start <= i <= n,
            views(parts@).push(s@.subrange(start as int, i as int)) == split_on(
                s@.take(i as int),
                sep,
            ),
        decreases n - i,
    {
        let c = chars[i];
        proof {
            assert(s@.take(i + 1).drop_last() =~= s@.take(i as int));
            assert(s@.take(i + 1).last() == c);
            lemma_split_nonempty(s@.take(i as int), sep);
        }
        if c == sep {
            let piece = String::from_str(s.substring_char(start, i));
            let ghost old_parts = parts@;
            parts.push(piece);
            proof {
                old_parts.lemma_push_map_commute(|x: String| x@, piece);
                assert(s@.subrange((i + 1) as int, (i + 1) as int) =~= Seq::<char>::empty());
            }
            start = i + 1;
        } else {
            proof {
                assert(s@.subrange(start as int, i + 1) =~= s@.subrange(start as int, i as int).push(c));
                let prev = views(parts@).push(s@.subrange(start as int, i as int));
                assert(views(parts@).push(s@.subrange(start as int, i + 1)) =~= prev.update(
                    prev.len() - 1,
                    prev.last().push(c),
                ));
            }
        }
        i = i + 1;
    }
    let last_piece = String::from_str(s.substring_char(start, n));
    let ghost old_parts = parts@;
    parts.push(last_piece);
    proof {
        old_parts.lemma_push_map_commute(|x: String| x@, last_piece);
        assert(s@.take(n as int) =~= s@);
    }
    parts
}

/// The non-empty strings of `parts`, in order.
pub fn keep_nonempty(parts: &Vec<String>) -> (r: Vec<String>)
    ensures
        views(r@) == nonempty(views(parts@)),
{
    let mut r: Vec<String> = Vec::new();
    let mut i: usize = 0;
    while i < parts.len()
        invariant
            i <= parts.len(),
            views(r@) == nonempty(views(parts@).take(i as int)),
        decreases parts.len() - i,
    {
        let p = &parts[i];
        let ghost before = views(parts@).take(i as int);
        proof {
            assert(views(parts@).take(i + 1) =~= before.push(p@));
            before.lemma_filter_push(p@, |q: Seq<char>| q.len() > 0);
        }
        if p.unicode_len() > 0 {
            let ghost old_r = r@;
            r.push(p.clone());
            proof {
                old_r.lemma_push_map_commute(|x: String| x@, parts@[i as int]);
            }
        }
        i = i + 1;
    }
    proof {
        assert(views(parts@).take(parts.len() as int) =~= views(parts@));
    }
    r
}

/// The strings of `parts` glued together with `sep` between neighbours
/// (as `[String]::join`).
pub fn join_with(parts: &Vec<String>, sep: &str) -> (r: String)
    ensures
        r@ == join(views(parts@), sep@),
{
    let mut r = String::new();
    let mut i: usize = 0;
    while i < parts.len()
        invariant
            i <= parts.len(),
            r@ == join(views(parts@).take(i as int), sep@),
        decreases parts.len() - i,
    {
        let ghost before = views(parts@).take(i as int);
        proof {
            assert(views(parts@).take(i + 1).drop_last() =~= before);
            assert(views(parts@).take(i + 1).last() == parts@[i as int]@);
        }
        if i > 0 {
            r.append(sep);
        } else {
            assert(views(parts@).take(1) =~= seq![parts@[0]@]);
        }
        r.append(parts[i].as_str());
        i = i + 1;
    }
    proof {
        assert(views(parts@).take(parts.len() as int) =~= views(parts@));
    }
    r
}

/// Whether some string of `list` equals `s`.
pub fn list_contains(list: &Vec<String>, s: &String) -> (b: bool)
    ensures
        b == exists|i: int| 0 <= i < list@.len() && #[trigger] list@[i]@ == s@,
{
    let mut i: usize = 0;
    while i < list.len()
        invariant
            i <= list.len(),
            forall|j: int| 0 <= j < i ==> #[trigger] list@[j]@ != s@,
        decreases list.len() - i,
    {
        if list[i] == *s {
            return true;
        }
        i = i + 1;
    }
    false
}

/// Unicode `White_Space` characters: what `char::is_whitespace` accepts and
/// what `\s` matches in a Unicode-aware regular expression.
pub open spec fn is_white_space(c: char) -> bool {
    let u = c as u32;
    ||| 0x09 <= u <= 0x0D
    ||| u == 0x20
    ||| u == 0x85
    ||| u == 0xA0
    ||| u == 0x1680
    ||| 0x2000 <= u <= 0x200A
    ||| u == 0x2028
    ||| u == 0x2029
    ||| u == 0x202F
    ||| u == 0x205F
    ||| u == 0x3000
}

/// Whether `c` is a Unicode `White_Space` character.
pub fn is_white_space_char(c: char) -> (b: bool)
    ensures
        b == is_white_space(c),
{
    let u = c as u32;
    (0x09 <= u && u <= 0x0D) || u == 0x20 || u == 0x85 || u == 0xA0 || u == 0x1680 || (0x2000
        <= u && u <= 0x200A) || u == 0x2028 || u == 0x2029 || u == 0x202F || u == 0x205F || u
        == 0x3000
}

/// The decimal digit character for `d`.
pub open spec fn digit_char(d: nat) -> char {
    seq!['0', '1', '2', '3', '4', '5', '6', '7', '8', '9'][d as int]
}

/// The decimal numeral of `n`, without leading zeros.
pub open spec fn decimal(n: nat) -> Seq<char>
    decreases n,
{
    if n < 10 {
        seq![digit_char(n)]
    } else {
        decimal(n / 10).push(digit_char(n % 10))
    }
}

/// The number that the decimal numeral `s` denotes.
pub open spec fn numeral_value(s: Seq<char>) -> nat
    decreases s.len(),
{
    if s.len() == 0 {
        0
    } else {
        numeral_value(s.drop_last()) * 10 + ((s.last() as u32) - 48) as nat
    }
}

/// The numeral that `decimal_string` writes denotes the number it was given.
pub proof fn law_decimal_denotes(n: nat)
    ensures
        numeral_value(decimal(n)) == n,
        decimal(n).len() >= 1,
    decreases n,
{
    let d: nat = (n % 10) as nat;
    assert(seq!['0', '1', '2', '3', '4', '5', '6', '7', '8', '9'][d as int] as u32 == 48 + d) by {
        assert(seq!['0', '1', '2', '3', '4', '5', '6', '7', '8', '9'][0] == '0');
        assert(seq!['0', '1', '2', '3', '4', '5', '6', '7', '8', '9'][1] == '1');
        assert(seq!['0', '1', '2', '3', '4', '5', '6', '7', '8', '9'][2] == '2');
        assert(seq!['0', '1', '2', '3', '4', '5', '6', '7', '8', '9'][3] == '3');
        assert(seq!['0', '1', '2', '3', '4', '5', '6', '7', '8', '9'][4] == '4');
        assert(seq!['0', '1', '2', '3', '4', '5', '6', '7', '8', '9'][5] == '5');
        assert(seq!['0', '1', '2', '3', '4', '5', '6', '7', '8', '9'][6] == '6');
        assert(seq!['0', '1', '2', '3', '4', '5', '6', '7', '8', '9'][7] == '7');
        assert(seq!['0', '1', '2', '3', '4', '5', '6', '7', '8', '9'][8] == '8');
        assert(seq!['0', '1', '2', '3', '4', '5', '6', '7', '8', '9'][9] == '9');
    }
    if n < 10 {
        assert(decimal(n).drop_last() =~= Seq::<char>::empty());
        assert(d == n);
        assert(numeral_value(decimal(n).drop_last()) == 0);
        assert(decimal(n).last() == digit_char(d));
        assert(numeral_value(decimal(n)) == 0 * 10 + d);
    } else {
        law_decimal_denotes(n / 10);
        assert(decimal(n).drop_last() =~= decimal(n / 10));
        assert(decimal(n).last() == digit_char(d));
        vstd::arithmetic::div_mod::lemma_fundamental_div_mod(n as int, 10);
        assert(numeral_value(decimal(n)) == (n / 10) * 10 + d);
    }
}

fn digit_str(d: u64) -> (s: &'static str)
    requires
        d < 10,
    ensures
        s@ == seq![digit_char(d as nat)],
{
    proof {
        reveal_strlit("0");
        reveal_strlit("1");
        reveal_strlit("2");
        reveal_strlit("3");
        reveal_strlit("4");
        reveal_strlit("5");
        reveal_strlit("6");
        reveal_strlit("7");
        reveal_strlit("8");
        reveal_strlit("9");
    }
    let s = match d {
        0 => "0",
        1 => "1",
        2 => "2",
        3 => "3",
        4 => "4",
        5 => "5",
        6 => "6",
        7 => "7",
        8 => "8",
        _ => "9",
    };
    assert(s@ =~= seq![digit_char(d as nat)]);
    s
}

/// The decimal numeral of `n` (as `u64::to_string`).
pub fn decimal_string(n: u64) -> (s: String)
    ensures
        s@ == decimal(n as nat),
    decreases n,
{
    if n < 10 {
        String::from_str(digit_str(n))
    } else {
        let mut s = decimal_string(n / 10);
        s.append(digit_str(n % 10));
        s
    }
}

} // verus!
