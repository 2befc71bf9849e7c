//! Character-sequence helpers: decimal rendering of integers, prefix and
//! substring tests, and the building blocks of the other modules' texts.

use vstd::prelude::*;

verus! {

/// The decimal digit character for `d` (`0 <= d < 10`).
pub open spec fn digit_char(d: int) -> char {
    (48 + d) as char
}

/// Decimal text of a natural number, most significant digit first,
/// without leading zeros (as `Display` writes unsigned integers).
pub open spec fn nat_text(n: nat) -> Seq<char>
    decreases n,
{
    if n < 10 {
        seq![digit_char(n as int)]
    } else {
        nat_text(n / 10).push(digit_char((n % 10) as int))
    }
}

/// Decimal text of an integer, with a leading `-` for negative values
/// (as `Display` writes signed integers).
pub open spec fn int_text(n: int) -> Seq<char> {
    if n < 0 {
        seq!['-'] + nat_text((-n) as nat)
    } else {
        nat_text(n as nat)
    }
}

/// Appends one character to a string.
/// Calls `String::push`, which std documents as appending the given char to
/// the end of the string; the contract claims exactly that.
#[verifier::external_body]
pub(crate) fn push_char(s: &mut String, c: char)
    ensures
        final(s)@ == old(s)@.push(c),
{
    s.push(c)
}

fn digit_of(d: u128) -> (c: char)
    requires
        d < 10,
    ensures
        c == digit_char(d as int),
{
    let b: u8 = 48u8 + (d as u8);
    b as char
}

/// Appends the decimal text of `n` to `s`.
pub fn append_u128(s: &mut String, n: u128)
    ensures
        final(s)@ == old(s)@ + nat_text(n as nat),
    decreases n,
{
    if n >= 10 {
        append_u128(s, n / 10);
    }
    let c = digit_of(n % 10);
    push_char(s, c);
    proof {
        assert(old(s)@ + nat_text(n as nat) =~= if n >= 10 {
            (old(s)@ + nat_text((n / 10) as nat)).push(c)
        } else {
            old(s)@.push(c)
        });
    }
}


/// Appends the decimal text of `n` to `s`, with a `-` before negative values.
pub fn append_i64(s: &mut String, n: i64)
    ensures
        final(s)@ == old(s)@ + int_text(n as int),
{
    if n < 0 {
        push_char(s, '-');
        let m: i128 = -(n as i128);
        let mag: u128 = m as u128;
        append_u128(s, mag);
        proof {
            assert(old(s)@ + int_text(n as int) =~= old(s)@.push('-') + nat_text(mag as nat));
        }
    } else {
        append_u128(s, n as u128);
    }
}

/// `p` occurs in `s` starting at position `i`.
pub open spec fn occurs_at(s: Seq<char>, p: Seq<char>, i: int) -> bool {
    &&& 0 <= i
    &&& i + p.len() <= s.len()
    &&& s.subrange(i, i + p.len()) == p
}

/// `p` occurs somewhere in `s`.
pub open spec fn seq_contains(s: Seq<char>, p: Seq<char>) -> bool {
    exists|i: int| occurs_at(s, p, i)
}

/// The characters of a string slice, one by one.
pub fn chars_of(s: &str) -> (v: Vec<char>)
    ensures
        v@ == s@,
{
    let n = s.unicode_len();
    let mut v: Vec<char> = Vec::new();
    let mut i: usize = 0;
    while i < n
        invariant
            n == s@.len(),
            i <= n,
            v@ == s@.subrange(0, i as int),
        decreases n - i,
    {
        let c = s.get_char(i);
        v.push(c);
        i = i + 1;
        assert(v@ =~= s@.subrange(0, i as int));
    }
    assert(v@ =~= s@);
    v
}

fn occurs_at_exec(s: &Vec<char>, p: &Vec<char>, i: usize) -> (b: bool)
    ensures
        b == occurs_at(s@, p@, i as int),
{
    let n = s.len();
    if p.len() > n || i > n - p.len() {
        return false;
    }
    let mut k: usize = 0;
    while k < p.len()
        invariant
            n == s@.len(),
            i + p@.len() <= s@.len(),
            k <= p@.len(),
            forall|j: int| 0 <= j < k ==> s@[i + j] == p@[j],
        decreases p.len() - k,
    {
        assert(i + k < s@.len());
        if s[i + k] != p[k] {
            assert(s@.subrange(i as int, i + p@.len())[k as int] != p@[k as int]);
            return false;
        }
        k = k + 1;
    }
    assert(s@.subrange(i as int, i + p@.len()) =~= p@);
    true
}

/// Whether `p` occurs anywhere in `s`.
pub fn contains(s: &str, p: &str) -> (b: bool)
    ensures
        b == seq_contains(s@, p@),
{
    let sv = chars_of(s);
    let pv = chars_of(p);
    if pv.len() > sv.len() {
        assert forall|i: int| !occurs_at(s@, p@, i) by {}
        return false;
    }
    let last = sv.len() - pv.len();
    let mut i: usize = 0;
    loop
        invariant
            sv@ == s@,
            pv@ == p@,
            last == s@.len() - p@.len(),
            i <= last,
            forall|j: int| 0 <= j < i ==> !occurs_at(s@, p@, j),
        ensures
            forall|j: int| 0 <= j <= last ==> !occurs_at(s@, p@, j),
        decreases last - i,
    {
        if occurs_at_exec(&sv, &pv, i) {
            return true;
        }
        if i == last {
            break;
        }
        i = i + 1;
    }
    assert forall|j: int| !occurs_at(s@, p@, j) by {
        if 0 <= j && j <= last {
        }
    }
    false
}

/// Whether two string slices hold the same characters.
pub fn same_text(a: &str, b: &str) -> (r: bool)
    ensures
        r == (a@ == b@),
{
    let av = chars_of(a);
    let bv = chars_of(b);
    if av.len() != bv.len() {
        return false;
    }
    let r = occurs_at_exec(&av, &bv, 0);
    assert(a@ =~= a@.subrange(0, b@.len() as int));
    r
}

/// The optional text is given and equals `t`.
pub fn opt_text_is(o: &Option<String>, t: &str) -> (b: bool)
    ensures
        b == (o is Some && o.unwrap()@ == t@),
{
    match o {
        Some(s) => same_text(s.as_str(), t),
        None => false,
    }
}

/// A fresh string holding the characters of `v`.
pub fn string_of_chars(v: &Vec<char>) -> (res: String)
    ensures
        res@ == v@,
{
    let mut s = String::new();
    let mut i: usize = 0;
    while i < v.len()
        invariant
            i <= v@.len(),
            s@ == v@.subrange(0, i as int),
        decreases v.len() - i,
    {
        push_char(&mut s, v[i]);
        i = i + 1;
        assert(s@ =~= v@.subrange(0, i as int));
    }
    assert(s@ =~= v@);
    s
}

/// The concatenation of two string slices.
pub fn cat(a: &str, b: &str) -> (res: String)
    ensures
        res@ == a@ + b@,
{
    let mut s = String::from_str(a);
    s.append(b);
    s
}

/// The concatenation of three string slices.
pub fn cat3(a: &str, b: &str, c: &str) -> (res: String)
    ensures
        res@ == a@ + b@ + c@,
{
    let mut s = String::from_str(a);
    s.append(b);
    s.append(c);
    s
}


/// The views of a sequence of strings.
pub open spec fn views(v: Seq<String>) -> Seq<Seq<char>> {
    v.map_values(|s: String| s@)
}

/// The view of an optional string.
pub open spec fn opt_view(o: Option<String>) -> Option<Seq<char>> {
    match o {
        Some(s) => Some(s@),
        None => None,
    }
}

/// The parts joined with `sep` between consecutive parts.
pub open spec fn join(parts: Seq<Seq<char>>, sep: Seq<char>) -> Seq<char>
    decreases parts.len(),
{
    if parts.len() == 0 {
        seq![]
    } else if parts.len() == 1 {
        parts[0]
    } else {
        join(parts.drop_last(), sep) + sep + parts.last()
    }
}

/// Joins strings with a separator between consecutive ones.
pub fn join_strings(parts: &Vec<String>, sep: &str) -> (res: String)
    ensures
        res@ == join(views(parts@), sep@),
{
    let mut res = String::new();
    let ghost all = views(parts@);
    let mut i: usize = 0;
    while i < parts.len()
        invariant
            i <= parts@.len(),
            all == views(parts@),
            res@ == join(all.take(i as int), sep@),
        decreases parts.len() - i,
    {
        if i != 0 {
            res.append(sep);
        }
        res.append(parts[i].as_str());
        assert(all.take(i + 1).drop_last() =~= all.take(i as int));
        assert(all.take(i + 1).last() == parts@[i as int]@);
        if i == 0 {
            assert(res@ =~= join(all.take(1), sep@));
        }
        i = i + 1;
    }
    assert(all.take(parts@.len() as int) =~= all);
    res
}

/// Pushes a string onto a list, keeping track of the views.
pub fn push_text(list: &mut Vec<String>, s: String)
    ensures
        views(final(list)@) == views(old(list)@).push(s@),
{
    list.push(s);
    assert(views(list@) =~= views(old(list)@).push(s@));
}

/// Unicode `White_Space`, the characters `char::is_whitespace` accepts.
pub open spec fn is_white_space(c: char) -> bool {
    let u = c as u32;
    ||| 9 <= u <= 13
    ||| u == 32
    ||| u == 0x85
    ||| u == 0xa0
    ||| u == 0x1680
    ||| 0x2000 <= u <= 0x200a
    ||| u == 0x2028
    ||| u == 0x2029
    ||| u == 0x202f
    ||| u == 0x205f
    ||| u == 0x3000
}

/// The text without leading white space.
pub open spec fn trim_start(s: Seq<char>) -> Seq<char>
    decreases s.len(),
{
    if s.len() > 0 && is_white_space(s[0]) {
        trim_start(s.drop_first())
    } else {
        s
    }
}

/// The text without trailing white space.
pub open spec fn trim_end(s: Seq<char>) -> Seq<char>
    decreases s.len(),
{
    if s.len() > 0 && is_white_space(s.last()) {
        trim_end(s.drop_last())
    } else {
        s
    }
}

/// The text without leading or trailing white space (as `str::trim`).
pub open spec fn trim(s: Seq<char>) -> Seq<char> {
    trim_end(trim_start(s))
}

/// Whether a character is white space.
pub fn white_space(c: char) -> (b: bool)
    ensures
        b == is_white_space(c),
{
    let u = c as u32;
    (9 <= u && u <= 13) || u == 32 || u == 0x85 || u == 0xa0 || u == 0x1680 || (0x2000 <= u && u
        <= 0x200a) || u == 0x2028 || u == 0x2029 || u == 0x202f || u == 0x205f || u == 0x3000
}

/// The characters without leading or trailing white space.
pub fn trim_chars(v: &Vec<char>) -> (res: Vec<char>)
    ensures
        res@ == trim(v@),
{
    let n = v.len();
    let mut lo: usize = 0;
    assert(v@.subrange(0, n as int) =~= v@);
    while lo < n && white_space(v[lo])
        invariant
            n == v@.len(),
            lo <= n,
            trim_start(v@) == trim_start(v@.subrange(lo as int, n as int)),
        decreases n - lo,
    {
        assert(v@.subrange(lo as int, n as int).drop_first() =~= v@.subrange(lo + 1, n as int));
        lo = lo + 1;
    }
    assert(trim_start(v@) == v@.subrange(lo as int, n as int));
    let ghost t = v@.subrange(lo as int, n as int);
    let mut hi: usize = n;
    while hi > lo && white_space(v[hi - 1])
        invariant
            n == v@.len(),
            lo <= hi <= n,
            t == v@.subrange(lo as int, n as int),
            trim_end(t) == trim_end(v@.subrange(lo as int, hi as int)),
        decreases hi - lo,
    {
        assert(v@.subrange(lo as int, hi as int).drop_last() =~= v@.subrange(lo as int, hi - 1));
        hi = hi - 1;
    }
    let mut res: Vec<char> = Vec::new();
    let mut k: usize = lo;
    while k < hi
        invariant
            n == v@.len(),
            lo <= k <= hi <= n,
            res@ == v@.subrange(lo as int, k as int),
        decreases hi - k,
    {
        res.push(v[k]);
        k = k + 1;
        assert(res@ =~= v@.subrange(lo as int, k as int));
    }
    res
}

/// The pieces of `s` between occurrences of `sep`, found left to right
/// without overlap (as `str::split` with a string pattern).
pub open spec fn split_on(s: Seq<char>, sep: Seq<char>) -> Seq<Seq<char>>
    recommends
        sep.len() > 0,
    decreases s.len(),
{
    if s.len() == 0 || sep.len() == 0 {
        seq![s]
    } else if occurs_at(s, sep, 0) {
        seq![seq![]] + split_on(s.skip(sep.len() as int), sep)
    } else {
        let r = split_on(s.drop_first(), sep);
        r.update(0, seq![s[0]] + r[0])
    }
}

proof fn lemma_split_on_nonempty(s: Seq<char>, sep: Seq<char>)
    ensures
        split_on(s, sep).len() >= 1,
    decreases s.len(),
{
    if s.len() > 0 && sep.len() > 0 {
        if occurs_at(s, sep, 0) {
            lemma_split_on_nonempty(s.skip(sep.len() as int), sep);
        } else {
            lemma_split_on_nonempty(s.drop_first(), sep);
        }
    }
}

/// Splits the characters at every occurrence of a non-empty separator.
pub fn split_chars(v: &Vec<char>, sep: &Vec<char>) -> (res: Vec<Vec<char>>)
    requires
        sep@.len() > 0,
    ensures
        res@.map_values(|p: Vec<char>| p@) == split_on(v@, sep@),
{
    let ghost s = v@;
    let mut done: Vec<Vec<char>> = Vec::new();
    let mut cur: Vec<char> = Vec::new();
    let mut i: usize = 0;
    assert(s.skip(0) =~= s);
    proof {
        lemma_split_on_nonempty(s, sep@);
        assert(split_on(s, sep@) =~= seq![seq![] + split_on(s.skip(0), sep@)[0]] + split_on(
            s.skip(0),
            sep@,
        ).drop_first());
    }
    while i < v.len()
        invariant
            s == v@,
            sep@.len() > 0,
            i <= s.len(),
            split_on(s, sep@) == done@.map_values(|p: Vec<char>| p@) + seq![
                cur@ + split_on(s.skip(i as int), sep@)[0],
            ] + split_on(s.skip(i as int), sep@).drop_first(),
        decreases v.len() - i,
    {
        let ghost rest = s.skip(i as int);
        proof {
            lemma_split_on_nonempty(rest, sep@);
        }
        if occurs_at_exec(v, sep, i) {
            let ghost after = s.skip(i + sep@.len());
            proof {
                lemma_split_on_nonempty(after, sep@);
                assert(occurs_at(rest, sep@, 0)) by {
                    assert(rest.subrange(0, sep@.len() as int) =~= s.subrange(
                        i as int,
                        i + sep@.len(),
                    ));
                }
                assert(rest.skip(sep@.len() as int) =~= after);
                assert(split_on(rest, sep@) == seq![seq![]] + split_on(after, sep@));
            }
            let ghost old_done = done@.map_values(|p: Vec<char>| p@);
            let ghost old_cur = cur@;
            done.push(cur);
            cur = Vec::new();
            proof {
                assert(done@.map_values(|p: Vec<char>| p@) =~= old_done.push(old_cur));
                assert(old_cur + split_on(rest, sep@)[0] =~= old_cur);
                assert(split_on(rest, sep@).drop_first() =~= split_on(after, sep@));
                assert(split_on(after, sep@) =~= seq![cur@ + split_on(after, sep@)[0]]
                    + split_on(after, sep@).drop_first());
            }
            i = i + sep.len();
            proof {
                assert(split_on(s, sep@) =~= done@.map_values(|p: Vec<char>| p@) + seq![
                    cur@ + split_on(s.skip(i as int), sep@)[0],
                ] + split_on(s.skip(i as int), sep@).drop_first());
            }
        } else {
            let c = v[i];
            let ghost after = s.skip(i + 1);
            proof {
                assert(!occurs_at(rest, sep@, 0)) by {
                    if occurs_at(rest, sep@, 0) {
                        assert(s.subrange(i as int, i + sep@.len()) =~= rest.subrange(
                            0,
                            sep@.len() as int,
                        ));
                    }
                }
                assert(rest.drop_first() =~= after);
                lemma_split_on_nonempty(after, sep@);
                let r = split_on(after, sep@);
                assert(split_on(rest, sep@) == r.update(0, seq![c] + r[0]));
                assert(split_on(rest, sep@).drop_first() =~= r.drop_first());
            }
            let ghost old_cur = cur@;
            cur.push(c);
            i = i + 1;
            proof {
                assert(old_cur + (seq![c] + split_on(after, sep@)[0]) =~= cur@ + split_on(
                    after,
                    sep@,
                )[0]);
            }
        }
    }
    proof {
        assert(s.skip(i as int) =~= Seq::<char>::empty());
        assert(split_on(Seq::<char>::empty(), sep@) =~= seq![Seq::<char>::empty()]);
        assert(cur@ + Seq::<char>::empty() =~= cur@);
    }
    let ghost old_done = done@.map_values(|p: Vec<char>| p@);
    done.push(cur);
    proof {
        assert(done@.map_values(|p: Vec<char>| p@) =~= old_done.push(cur@));
        assert(seq![Seq::<char>::empty()].drop_first() =~= Seq::<Seq<char>>::empty());
        assert(split_on(s, sep@) =~= done@.map_values(|p: Vec<char>| p@));
    }
    done
}

} // verus!
