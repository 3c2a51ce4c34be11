use vstd::prelude::*;
use vstd::string::*;

verus! {

/// The text without its line breaks.
pub open spec fn strip_newlines(s: Seq<char>) -> Seq<char>
    decreases s.len(),
{
    if s.len() == 0 {
        s
    } else if s.last() == '\n' {
        strip_newlines(s.drop_last())
    } else {
        strip_newlines(s.drop_last()).push(s.last())
    }
}

/// The pieces of `s` between the occurrences of `d`, as `str::split` gives
/// them: always at least one, possibly empty.
pub open spec fn split(s: Seq<char>, d: char) -> Seq<Seq<char>>
    decreases s.len(),
{
    if s.len() == 0 {
        seq![Seq::empty()]
    } else {
        let prev = split(s.drop_last(), d);
        if s.last() == d {
            prev.push(Seq::empty())
        } else {
            prev.update(prev.len() - 1, prev.last().push(s.last()))
        }
    }
}

pub proof fn lemma_split_nonempty(s: Seq<char>, d: char)
    ensures
        split(s, d).len() >= 1,
    decreases s.len(),
{
    if s.len() > 0 {
        lemma_split_nonempty(s.drop_last(), d);
    }
}

/// The pieces seen through their characters.
pub open spec fn view_pieces(v: Seq<Vec<char>>) -> Seq<Seq<char>> {
    v.map_values(|t: Vec<char>| t@)
}

pub open spec fn is_digit(c: char) -> bool {
    '0' <= c <= '9'
}

pub open spec fn all_digits(s: Seq<char>) -> bool {
    forall|i: int| 0 <= i < s.len() ==> is_digit(#[trigger] s[i])
}

/// The number written with the decimal digits `s`.
pub open spec fn digits_value(s: Seq<char>) -> int
    decreases s.len(),
{
    if s.len() == 0 {
        0
    } else {
        digits_value(s.drop_last()) * 10 + (s.last() as int - '0' as int)
    }
}

/// The number written in `s` as `str::parse` reads integers: an optional sign
/// (`-` only when `signed`) and at least one decimal digit. The range of the
/// target type is checked apart.
pub open spec fn int_text_value(s: Seq<char>, signed: bool) -> Option<int> {
    if s.len() == 0 {
        None
    } else if (s[0] == '+' || s[0] == '-') && s.len() == 1 {
        None
    } else if s[0] == '+' {
        if all_digits(s.skip(1)) { Some(digits_value(s.skip(1))) } else { None }
    } else if s[0] == '-' && signed {
        if all_digits(s.skip(1)) { Some(-digits_value(s.skip(1))) } else { None }
    } else {
        if all_digits(s) { Some(digits_value(s)) } else { None }
    }
}

/// `str::parse::<i8>`, read as an option.
pub open spec fn parse_i8_spec(s: Seq<char>) -> Option<i8> {
    match int_text_value(s, true) {
        Some(v) => if -128 <= v <= 127 { Some(v as i8) } else { None },
        None => None,
    }
}

/// `str::parse::<u8>`, read as an option.
pub open spec fn parse_u8_spec(s: Seq<char>) -> Option<u8> {
    match int_text_value(s, false) {
        Some(v) => if 0 <= v <= 255 { Some(v as u8) } else { None },
        None => None,
    }
}

/// `str::parse::<usize>`, read as an option.
pub open spec fn parse_usize_spec(s: Seq<char>) -> Option<usize> {
    match int_text_value(s, false) {
        Some(v) => if 0 <= v <= usize::MAX { Some(v as usize) } else { None },
        None => None,
    }
}

/// The text with its ASCII capitals made small.
pub open spec fn ascii_lower(s: Seq<char>) -> Seq<char> {
    s.map_values(|c: char| if 'A' <= c <= 'Z' { ((c as int) + 32) as char } else { c })
}

/// The text without its line breaks.
pub(crate) fn strip_newlines_of(v: &Vec<char>) -> (r: Vec<char>)
    ensures
        r@ == strip_newlines(v@),
{
    let mut r: Vec<char> = Vec::new();
    let mut i: usize = 0;
    while i < v.len()
        invariant
            i <= v.len(),
            r@ == strip_newlines(v@.take(i as int)),
        decreases v.len() - i,
    {
        proof {
            assert(v@.take(i + 1).drop_last() =~= v@.take(i as int));
        }
        if v[i] != '\n' {
            r.push(v[i]);
        }
        i = i + 1;
    }
    proof {
        assert(v@.take(i as int) =~= v@);
    }
    r
}

/// The pieces of `v` between the occurrences of `d`.
pub(crate) fn split_of(v: &Vec<char>, d: char) -> (r: Vec<Vec<char>>)
    ensures
        view_pieces(r@) == split(v@, d),
{
    let mut done: Vec<Vec<char>> = Vec::new();
    let mut current: Vec<char> = Vec::new();
    let mut i: usize = 0;
    while i < v.len()
        invariant
            i <= v.len(),
            view_pieces(done@).push(current@) == split(v@.take(i as int), d),
        decreases v.len() - i,
    {
        proof {
            assert(v@.take(i + 1).drop_last() =~= v@.take(i as int));
            lemma_split_nonempty(v@.take(i as int), d);
        }
        let ghost prev = split(v@.take(i as int), d);
        let c = v[i];
        if c == d {
            let piece = current;
            current = Vec::new();
            done.push(piece);
            proof {
                assert(view_pieces(done@).push(current@) =~= prev.push(Seq::empty()));
            }
        } else {
            current.push(c);
            proof {
                assert(view_pieces(done@).push(current@) =~= prev.update(prev.len() - 1, prev.last().push(c)));
            }
        }
        i = i + 1;
    }
    proof {
        assert(v@.take(i as int) =~= v@);
    }
    let ghost before = view_pieces(done@).push(current@);
    done.push(current);
    proof {
        assert(view_pieces(done@) =~= before);
    }
    done
}

/// Whether the characters spell the text `lit`.
pub(crate) fn eq_lit(v: &Vec<char>, lit: &str) -> (r: bool)
    ensures
        r == (v@ == lit@),
{
    let n = lit.unicode_len();
    if v.len() != n {
        return false;
    }
    let mut i: usize = 0;
    while i < n
        invariant
            i <= n,
            n == lit@.len(),
            v@.len() == n,
            forall|j: int| 0 <= j < i ==> v@[j] == lit@[j],
        decreases n - i,
    {
        if v[i] != lit.get_char(i) {
            return false;
        }
        i = i + 1;
    }
    proof {
        assert(v@ =~= lit@);
    }
    true
}

/// The characters with their ASCII capitals made small.
pub(crate) fn lower_ascii(v: &Vec<char>) -> (r: Vec<char>)
    ensures
        r@ == ascii_lower(v@),
{
    let mut r: Vec<char> = Vec::new();
    let mut i: usize = 0;
    while i < v.len()
        invariant
            i <= v.len(),
            r@ == ascii_lower(v@.take(i as int)),
        decreases v.len() - i,
    {
        let c = v[i];
        let l: char = if 'A' <= c && c <= 'Z' {
            ((c as u32 + 32) as u8) as char
        } else {
            c
        };
        r.push(l);
        proof {
            assert(r@ =~= ascii_lower(v@.take(i + 1)));
        }
        i = i + 1;
    }
    proof {
        assert(v@.take(i as int) =~= v@);
    }
    r
}

/// Reads decimal digits from position `start` on; the value is capped at 1000.
fn digits_from(v: &Vec<char>, start: usize) -> (r: Option<u16>)
    requires
        start <= v.len(),
    ensures
        r is Some <==> all_digits(v@.skip(start as int)),
        r is Some ==> r->Some_0 == (if digits_value(v@.skip(start as int)) >= 1000 { 1000 } else { digits_value(v@.skip(start as int)) }),
{
    let ghost s = v@.skip(start as int);
    let mut acc: u16 = 0;
    let mut i: usize = start;
    while i < v.len()
        invariant
            start <= i <= v.len(),
            s == v@.skip(start as int),
            all_digits(s.take(i - start)),
            acc == (if digits_value(s.take(i - start)) >= 1000 { 1000 } else { digits_value(s.take(i - start)) }),
            digits_value(s.take(i - start)) >= 0,
        decreases v.len() - i,
    {
        let c = v[i];
        proof {
            assert(s.take(i + 1 - start).drop_last() =~= s.take(i - start));
            assert(s.take(i + 1 - start).last() == c);
        }
        if !('0' <= c && c <= '9') {
            proof {
                assert(s[i - start] == c);
            }
            return None;
        }
        let d: u16 = (c as u32 - 48) as u16;
        if acc >= 100 {
            acc = 1000;
        } else {
            acc = acc * 10 + d;
            if acc >= 1000 {
                acc = 1000;
            }
        }
        proof {
            assert forall|j: int| 0 <= j < s.take(i + 1 - start).len() implies is_digit(#[trigger] s.take(i + 1 - start)[j]) by {
                if j < i - start {
                    assert(s.take(i + 1 - start)[j] == s.take(i - start)[j]);
                }
            }
        }
        i = i + 1;
    }
    proof {
        assert(s.take(i - start) =~= s);
    }
    Some(acc)
}

/// `str::parse` of an integer, keeping values from -1000 to 1000 and telling
/// which sign was read.
fn int_of(v: &Vec<char>, signed: bool) -> (r: Option<i32>)
    ensures
        r is Some <==> int_text_value(v@, signed) is Some,
        r is Some ==> {
            let x = int_text_value(v@, signed)->Some_0;
            &&& (-1000 < x < 1000 ==> r->Some_0 == x)
            &&& (x >= 1000 ==> r->Some_0 >= 1000)
            &&& (x <= -1000 ==> r->Some_0 <= -1000)
        },
{
    if v.len() == 0 {
        return None;
    }
    let first = v[0];
    if (first == '+' || first == '-') && v.len() == 1 {
        return None;
    }
    if first == '+' {
        match digits_from(v, 1) {
            Some(x) => Some(x as i32),
            None => None,
        }
    } else if first == '-' && signed {
        match digits_from(v, 1) {
            Some(x) => Some(-(x as i32)),
            None => None,
        }
    } else {
        proof {
            assert(v@.skip(0) =~= v@);
        }
        match digits_from(v, 0) {
            Some(x) => Some(x as i32),
            None => None,
        }
    }
}

/// `str::parse::<i8>` on the characters.
pub(crate) fn parse_i8(v: &Vec<char>) -> (r: Option<i8>)
    ensures
        r == parse_i8_spec(v@),
{
    match int_of(v, true) {
        Some(x) => {
            if -128 <= x && x <= 127 {
                Some(x as i8)
            } else {
                None
            }
        },
        None => None,
    }
}

/// `str::parse::<u8>` on the characters.
pub(crate) fn parse_u8(v: &Vec<char>) -> (r: Option<u8>)
    ensures
        r == parse_u8_spec(v@),
{
    match int_of(v, false) {
        Some(x) => {
            if 0 <= x && x <= 255 {
                Some(x as u8)
            } else {
                None
            }
        },
        None => None,
    }
}

proof fn lemma_digits_value_grows(s: Seq<char>, i: int)
    requires
        0 <= i <= s.len(),
        all_digits(s),
    ensures
        digits_value(s) >= digits_value(s.take(i)) >= 0,
    decreases s.len() - i,
{
    if i == s.len() {
        assert(s.take(i) =~= s);
        lemma_digits_value_nonnegative(s);
    } else {
        lemma_digits_value_grows(s, i + 1);
        assert(s.take(i + 1).drop_last() =~= s.take(i));
        assert(s.take(i + 1).last() == s[i]);
        assert(is_digit(s[i]));
        lemma_digits_value_nonnegative(s.take(i));
    }
}

proof fn lemma_digits_value_nonnegative(s: Seq<char>)
    requires
        all_digits(s),
    ensures
        digits_value(s) >= 0,
    decreases s.len(),
{
    if s.len() > 0 {
        assert(is_digit(s[s.len() - 1]));
        lemma_digits_value_nonnegative(s.drop_last());
    }
}

/// Reads decimal digits from position `start` on as a `usize`, if they are all
/// digits and their value fits.
fn usize_digits_from(v: &Vec<char>, start: usize) -> (r: Option<usize>)
    requires
        start <= v.len(),
    ensures
        r is Some <==> (all_digits(v@.skip(start as int)) && digits_value(v@.skip(start as int)) <= usize::MAX),
        r is Some ==> r->Some_0 == digits_value(v@.skip(start as int)),
{
    let ghost s = v@.skip(start as int);
    let mut acc: usize = 0;
    let mut i: usize = start;
    while i < v.len()
        invariant
            start <= i <= v.len(),
            s == v@.skip(start as int),
            all_digits(s.take(i - start)),
            acc == digits_value(s.take(i - start)),
        decreases v.len() - i,
    {
        let c = v[i];
        proof {
            assert(s.take(i + 1 - start).drop_last() =~= s.take(i - start));
            assert(s.take(i + 1 - start).last() == c);
            assert(s[i - start] == c);
        }
        if !('0' <= c && c <= '9') {
            return None;
        }
        let d: usize = (c as u32 - 48) as usize;
        proof {
            assert forall|j: int| 0 <= j < s.take(i + 1 - start).len() implies is_digit(#[trigger] s.take(i + 1 - start)[j]) by {
                if j < i - start {
                    assert(s.take(i + 1 - start)[j] == s.take(i - start)[j]);
                }
            }
        }
        let next = match acc.checked_mul(10) {
            Some(m) => m.checked_add(d),
            None => None,
        };
        match next {
            Some(n) => {
                acc = n;
            },
            None => {
                proof {
                    if all_digits(s) {
                        lemma_digits_value_grows(s, i + 1 - start);
                    }
                }
                return None;
            },
        }
        i = i + 1;
    }
    proof {
        assert(s.take(i - start) =~= s);
    }
    Some(acc)
}

/// `str::parse::<usize>` on the characters.
pub(crate) fn parse_usize(v: &Vec<char>) -> (r: Option<usize>)
    ensures
        r == parse_usize_spec(v@),
{
    if v.len() == 0 {
        return None;
    }
    let first = v[0];
    if (first == '+' || first == '-') && v.len() == 1 {
        return None;
    }
    if first == '+' {
        usize_digits_from(v, 1)
    } else {
        proof {
            assert(v@.skip(0) =~= v@);
        }
        usize_digits_from(v, 0)
    }
}

/// The words written one after the other, a single space between two.
pub open spec fn spaced(words: Seq<Seq<char>>) -> Seq<char>
    decreases words.len(),
{
    if words.len() == 0 {
        Seq::empty()
    } else if words.len() == 1 {
        words[0]
    } else {
        spaced(words.drop_last()).push(' ') + words.last()
    }
}

/// Text without line breaks loses nothing when they are dropped.
pub proof fn lemma_strip_newlines_keeps(s: Seq<char>)
    requires
        !s.contains('\n'),
    ensures
        strip_newlines(s) == s,
    decreases s.len(),
{
    if s.len() > 0 {
        assert(!s.drop_last().contains('\n')) by {
            if s.drop_last().contains('\n') {
                let i = choose|i: int| 0 <= i < s.drop_last().len() && s.drop_last()[i] == '\n';
                assert(s[i] == '\n');
            }
        }
        lemma_strip_newlines_keeps(s.drop_last());
        assert(s.last() != '\n') by {
            assert(s[s.len() - 1] == s.last());
        }
        assert(s.drop_last().push(s.last()) =~= s);
    }
}

/// Text without the separator is a single piece.
pub proof fn lemma_split_single(s: Seq<char>, d: char)
    requires
        !s.contains(d),
    ensures
        split(s, d) == seq![s],
    decreases s.len(),
{
    if s.len() == 0 {
        assert(s =~= Seq::<char>::empty());
    } else {
        assert(!s.drop_last().contains(d)) by {
            if s.drop_last().contains(d) {
                let i = choose|i: int| 0 <= i < s.drop_last().len() && s.drop_last()[i] == d;
                assert(s[i] == d);
            }
        }
        lemma_split_single(s.drop_last(), d);
        assert(s.last() != d) by {
            assert(s[s.len() - 1] == s.last());
        }
        assert(s.drop_last().push(s.last()) =~= s);
        assert(seq![s.drop_last()].update(0, s.drop_last().push(s.last())) =~= seq![s]);
    }
}

/// Behind a separator, a piece without the separator comes out as one more piece.
pub proof fn lemma_split_after_separator(a: Seq<char>, b: Seq<char>, d: char)
    requires
        !b.contains(d),
    ensures
        split(a.push(d) + b, d) == split(a, d).push(b),
    decreases b.len(),
{
    lemma_split_nonempty(a, d);
    if b.len() == 0 {
        assert(a.push(d) + b =~= a.push(d));
        assert(a.push(d).drop_last() =~= a);
        assert(b =~= Seq::<char>::empty());
    } else {
        let s = a.push(d) + b;
        assert(!b.drop_last().contains(d)) by {
            if b.drop_last().contains(d) {
                let i = choose|i: int| 0 <= i < b.drop_last().len() && b.drop_last()[i] == d;
                assert(b[i] == d);
            }
        }
        assert(b.last() != d) by {
            assert(b[b.len() - 1] == b.last());
        }
        assert(s.drop_last() =~= a.push(d) + b.drop_last());
        assert(s.last() == b.last());
        lemma_split_after_separator(a, b.drop_last(), d);
        let prev = split(a, d).push(b.drop_last());
        assert(b.drop_last().push(b.last()) =~= b);
        assert(prev.update(prev.len() - 1, prev.last().push(s.last())) =~= split(a, d).push(b));
    }
}

/// Words without spaces or line breaks, written with single spaces between
/// them, are cut back into the same words.
pub proof fn lemma_split_spaced(words: Seq<Seq<char>>)
    requires
        words.len() >= 1,
        forall|i: int| 0 <= i < words.len() ==> !(#[trigger] words[i]).contains(' ') && !words[i].contains('\n'),
    ensures
        !spaced(words).contains('\n'),
        split(strip_newlines(spaced(words)), ' ') == words,
    decreases words.len(),
{
    if words.len() == 1 {
        lemma_split_single(words[0], ' ');
        lemma_strip_newlines_keeps(words[0]);
        assert(seq![words[0]] =~= words);
    } else {
        let front = words.drop_last();
        assert forall|i: int| 0 <= i < front.len() implies !(#[trigger] front[i]).contains(' ') && !front[i].contains('\n') by {
            assert(front[i] == words[i]);
        }
        lemma_split_spaced(front);
        lemma_strip_newlines_keeps(spaced(front));
        let last = words.last();
        assert(last == words[words.len() - 1]);
        let whole = spaced(front).push(' ') + last;
        assert(whole == spaced(words));
        assert(!whole.contains('\n')) by {
            if whole.contains('\n') {
                let i = choose|i: int| 0 <= i < whole.len() && whole[i] == '\n';
                if i < spaced(front).len() {
                    assert(spaced(front)[i] == '\n');
                } else if i > spaced(front).len() {
                    assert(last[i - spaced(front).len() - 1] == '\n');
                }
            }
        }
        lemma_strip_newlines_keeps(whole);
        lemma_split_after_separator(spaced(front), last, ' ');
        assert(front.push(last) =~= words);
    }
}

/// A readable number holds only a sign and digits: no space and no line break.
pub proof fn lemma_number_text_has_no_separator(s: Seq<char>)
    requires
        parse_i8_spec(s) is Some,
    ensures
        !s.contains(' '),
        !s.contains('\n'),
{
    assert forall|i: int| 0 <= i < s.len() implies s[i] != ' ' && s[i] != '\n' by {
        if (s[0] == '+' || s[0] == '-') {
            if i > 0 {
                assert(s.skip(1)[i - 1] == s[i]);
                assert(is_digit(s.skip(1)[i - 1]));
            }
        } else {
            assert(is_digit(s[i]));
        }
    }
}

} // verus!
