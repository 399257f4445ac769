//! Decimal rendering of integers and the quoting that SQL values lists use.

use vstd::prelude::*;
use vstd::string::*;

verus! {

/// The decimal digit `d` (for `0 <= d < 10`) as a character.
pub open spec fn digit_char(d: int) -> char {
    if d == 0 {
        '0'
    } else if d == 1 {
        '1'
    } else if d == 2 {
        '2'
    } else if d == 3 {
        '3'
    } else if d == 4 {
        '4'
    } else if d == 5 {
        '5'
    } else if d == 6 {
        '6'
    } else if d == 7 {
        '7'
    } else if d == 8 {
        '8'
    } else {
        '9'
    }
}

/// Decimal text of a natural number, most significant digit first, no leading zeros.
pub open spec fn nat_text(n: nat) -> Seq<char>
    decreases n,
{
    if n < 10 {
        seq![digit_char(n as int)]
    } else {
        nat_text(n / 10).push(digit_char((n % 10) as int))
    }
}

/// Decimal text of an integer as Rust's `Display` writes it: a leading `-` for negatives.
pub open spec fn int_text(n: int) -> Seq<char> {
    if n < 0 {
        seq!['-'] + nat_text((-n) as nat)
    } else {
        nat_text(n as nat)
    }
}

fn digit_str(d: u64) -> (s: &'static str)
    requires
        d < 10,
    ensures
        s@ == seq![digit_char(d as int)],
{
    if d == 0 {
        proof { reveal_strlit("0"); }
        "0"
    } else if d == 1 {
        proof { reveal_strlit("1"); }
        "1"
    } else if d == 2 {
        proof { reveal_strlit("2"); }
        "2"
    } else if d == 3 {
        proof { reveal_strlit("3"); }
        "3"
    } else if d == 4 {
        proof { reveal_strlit("4"); }
        "4"
    } else if d == 5 {
        proof { reveal_strlit("5"); }
        "5"
    } else if d == 6 {
        proof { reveal_strlit("6"); }
        "6"
    } else if d == 7 {
        proof { reveal_strlit("7"); }
        "7"
    } else if d == 8 {
        proof { reveal_strlit("8"); }
        "8"
    } else {
        proof { reveal_strlit("9"); }
        "9"
    }
}

/// Decimal text of an unsigned integer.
pub fn u64_text(n: u64) -> (s: String)
    ensures
        s@ == nat_text(n as nat),
    decreases n,
{
    if n < 10 {
        String::from_str(digit_str(n))
    } else {
        let mut s = u64_text(n / 10);
        s.append(digit_str(n % 10));
        s
    }
}

/// Decimal text of a signed integer, as `format!("{}", n)` writes it.
pub fn i64_text(n: i64) -> (s: String)
    ensures
        s@ == int_text(n as int),
{
    if n < 0 {
        let magnitude: u64 = if n == i64::MIN {
            9223372036854775808u64
        } else {
            (-n) as u64
        };
        proof { reveal_strlit("-"); }
        let mut s = String::from_str("-");
        s.append(u64_text(magnitude).as_str());
        s
    } else {
        u64_text(n as u64)
    }
}


/// `true` or `false`, as `format!("{}", b)` writes a `bool`.
pub open spec fn bool_text(b: bool) -> Seq<char> {
    if b {
        seq!['t', 'r', 'u', 'e']
    } else {
        seq!['f', 'a', 'l', 's', 'e']
    }
}

/// Text of a `bool`, as `format!("{}", b)` writes it.
pub fn bool_str(b: bool) -> (s: &'static str)
    ensures
        s@ == bool_text(b),
{
    if b {
        proof { reveal_strlit("true"); }
        "true"
    } else {
        proof { reveal_strlit("false"); }
        "false"
    }
}

/// The texts of a sequence of strings.
pub open spec fn string_views(v: Seq<String>) -> Seq<Seq<char>> {
    v.map_values(|s: String| s@)
}

/// The texts of a sequence of string slices.
pub open spec fn str_views(v: Seq<&str>) -> Seq<Seq<char>> {
    v.map_values(|s: &str| s@)
}

/// A value between single quotes, as the SQL statements of this server write it.
pub open spec fn quote(s: Seq<char>) -> Seq<char> {
    seq!['\''] + s + seq!['\'']
}

/// Each value quoted, the quoted values separated by `", "`: `'a', 'b', 'c'`.
pub open spec fn quoted_join(fields: Seq<Seq<char>>) -> Seq<char>
    decreases fields.len(),
{
    if fields.len() == 0 {
        Seq::empty()
    } else if fields.len() == 1 {
        quote(fields[0])
    } else {
        quoted_join(fields.drop_last()) + seq![',', ' '] + quote(fields.last())
    }
}

/// `'a', 'b', 'c'` for the values `a`, `b`, `c`.
pub fn quoted_list(fields: &[String]) -> (s: String)
    ensures
        s@ == quoted_join(string_views(fields@)),
{
    let ghost views = string_views(fields@);
    proof {
        reveal_strlit("'");
        reveal_strlit(", '");
    }
    let mut s = String::new();
    let n = fields.len();
    let mut i: usize = 0;
    while i < n
        invariant
            n == fields@.len(),
            views == string_views(fields@),
            i <= n,
            s@ == quoted_join(views.take(i as int)),
        decreases n - i,
    {
        let ghost before = views.take(i as int);
        let ghost prev = s@;
        if i == 0 {
            s.append("'");
        } else {
            s.append(", '");
        }
        s.append(fields[i].as_str());
        s.append("'");
        proof {
            let after = views.take(i + 1);
            assert(after.drop_last() =~= before);
            assert(after.last() == fields@[i as int]@);
            let f = fields@[i as int]@;
            reveal_strlit("'");
            reveal_strlit(", '");
            if i == 0 {
                assert(before =~= Seq::<Seq<char>>::empty());
                assert(s@ =~= quote(f));
            } else {
                assert(s@ =~= prev + seq![',', ' '] + quote(f));
            }
        }
        i = i + 1;
    }
    proof {
        assert(views.take(n as int) =~= views);
    }
    s
}

/// The text that a format string makes: `parts[0] + args[0] + parts[1] + ... + args[n-1] + parts[n]`.
pub open spec fn fill(parts: Seq<Seq<char>>, args: Seq<Seq<char>>) -> Seq<char>
    recommends
        parts.len() == args.len() + 1,
    decreases args.len(),
{
    if args.len() == 0 {
        parts[0]
    } else {
        fill(parts.drop_last(), args.drop_last()) + args.last() + parts.last()
    }
}

/// The text that `format!` makes of a format string cut at its `{}` into `parts`,
/// with `args` in place of the `{}`.
pub fn fill_template(parts: &[&str], args: &[String]) -> (s: String)
    requires
        parts@.len() == args@.len() + 1,
    ensures
        s@ == fill(str_views(parts@), string_views(args@)),
{
    let ghost ps = str_views(parts@);
    let ghost xs = string_views(args@);
    let mut s = String::from_str(parts[0]);
    let n = args.len();
    let mut i: usize = 0;
    proof {
        assert(xs.take(0).len() == 0);
    }
    while i < n
        invariant
            n == args@.len(),
            parts@.len() == n + 1,
            ps == str_views(parts@),
            xs == string_views(args@),
            i <= n,
            s@ == fill(ps.take(i + 1), xs.take(i as int)),
        decreases n - i,
    {
        s.append(args[i].as_str());
        s.append(parts[i + 1]);
        proof {
            assert(ps.take(i + 2).drop_last() =~= ps.take(i + 1));
            assert(xs.take(i + 1).drop_last() =~= xs.take(i as int));
        }
        i = i + 1;
    }
    proof {
        assert(ps.take(n + 1) =~= ps);
        assert(xs.take(n as int) =~= xs);
    }
    s
}


/// The characters of `s` before the first `c`; all of `s` when it holds no `c`.
pub open spec fn before_first(s: Seq<char>, c: char) -> Seq<char>
    decreases s.len(),
{
    if s.len() == 0 {
        s
    } else if s[0] == c {
        Seq::empty()
    } else {
        seq![s[0]] + before_first(s.drop_first(), c)
    }
}

/// The characters of `s` after the last `c`; all of `s` when it holds no `c`.
pub open spec fn after_last(s: Seq<char>, c: char) -> Seq<char>
    decreases s.len(),
{
    if s.len() == 0 {
        s
    } else if s.last() == c {
        Seq::empty()
    } else {
        after_last(s.drop_last(), c).push(s.last())
    }
}

/// `before_first` is a prefix that holds no `c`, and it is all of `s` or is followed by a `c`.
pub proof fn lemma_before_first(s: Seq<char>, c: char)
    ensures
        before_first(s, c).len() <= s.len(),
        before_first(s, c) == s.take(before_first(s, c).len() as int),
        !before_first(s, c).contains(c),
        before_first(s, c).len() == s.len() || s[before_first(s, c).len() as int] == c,
    decreases s.len(),
{
    if s.len() > 0 && s[0] != c {
        let rest = s.drop_first();
        lemma_before_first(rest, c);
        let r = before_first(rest, c);
        assert(before_first(s, c) =~= seq![s[0]] + r);
        assert(s.take(r.len() + 1int) =~= seq![s[0]] + rest.take(r.len() as int));
        if r.len() < rest.len() {
            assert(s[r.len() + 1int] == rest[r.len() as int]);
        }
        if before_first(s, c).contains(c) {
            let k = choose|k: int| 0 <= k < before_first(s, c).len() && before_first(s, c)[k] == c;
            if k > 0 {
                assert(r[k - 1] == c);
            }
        }
    } else if s.len() > 0 {
        assert(s.take(0) =~= Seq::<char>::empty());
    }
}

/// `after_last` is a suffix that holds no `c`, and it is all of `s` or follows a `c`.
pub proof fn lemma_after_last(s: Seq<char>, c: char)
    ensures
        after_last(s, c).len() <= s.len(),
        after_last(s, c) == s.skip(s.len() - after_last(s, c).len()),
        !after_last(s, c).contains(c),
        after_last(s, c).len() == s.len() || s[s.len() - after_last(s, c).len() - 1] == c,
    decreases s.len(),
{
    if s.len() > 0 && s.last() != c {
        let rest = s.drop_last();
        lemma_after_last(rest, c);
        let r = after_last(rest, c);
        assert(s.skip(s.len() - (r.len() + 1int)) =~= rest.skip(rest.len() - r.len()).push(
            s.last(),
        ));
        if r.len() < rest.len() {
            assert(s[s.len() - (r.len() + 1int) - 1] == rest[rest.len() - r.len() - 1]);
        }
        if after_last(s, c).contains(c) {
            let k = choose|k: int| 0 <= k < after_last(s, c).len() && after_last(s, c)[k] == c;
            if k < r.len() {
                assert(r[k] == c);
            }
        }
    } else if s.len() > 0 {
        assert(s.skip(s.len() as int) =~= Seq::<char>::empty());
    }
}

/// The characters of a string, one by one.
pub fn chars_of(s: &str) -> (v: Vec<char>)
    ensures
        v@ == s@,
{
    let n = s.unicode_len();
    let mut v: Vec<char> = Vec::new();
    let mut i: usize = 0;
    while i < n
        invariant
            n == s@.len(),
            i <= n,
            v@ == s@.take(i as int),
        decreases n - i,
    {
        v.push(s.get_char(i));
        assert(s@.take(i + 1) =~= s@.take(i as int).push(s@[i as int]));
        i = i + 1;
    }
    assert(s@.take(n as int) =~= s@);
    v
}

/// The characters of `s` before the first `c` (all of `s` when it holds none), as
/// `s.split(c).next()` gives them.
pub fn text_before_first(s: &str, c: char) -> (r: String)
    ensures
        r@ == before_first(s@, c),
{
    let chars = chars_of(s);
    let n = chars.len();
    let mut i: usize = 0;
    assert(s@.skip(0) =~= s@);
    assert(s@.take(0) =~= Seq::<char>::empty());
    while i < n && chars[i] != c
        invariant
            n == s@.len(),
            chars@ == s@,
            i <= n,
            before_first(s@, c) == s@.take(i as int) + before_first(s@.skip(i as int), c),
        decreases n - i,
    {
        let ghost rest = s@.skip(i as int);
        assert(rest.drop_first() =~= s@.skip(i + 1));
        assert(s@.take(i + 1) =~= s@.take(i as int) + seq![s@[i as int]]);
        assert(before_first(rest, c) == seq![rest[0]] + before_first(rest.drop_first(), c));
        assert(s@.take(i as int) + before_first(rest, c) =~= s@.take(i + 1) + before_first(
            s@.skip(i + 1),
            c,
        ));
        i = i + 1;
    }
    if i < n {
        assert(before_first(s@.skip(i as int), c) =~= Seq::<char>::empty());
    } else {
        assert(s@.skip(i as int) =~= Seq::<char>::empty());
    }
    assert(before_first(s@, c) =~= s@.subrange(0, i as int));
    s.substring_char(0, i).to_owned()
}

/// The characters of `s` after the last `c` (all of `s` when it holds none), as
/// `s.split(c).last()` gives them.
pub fn text_after_last(s: &str, c: char) -> (r: String)
    ensures
        r@ == after_last(s@, c),
{
    let chars = chars_of(s);
    let n = chars.len();
    let mut i: usize = n;
    assert(s@.take(n as int) =~= s@);
    assert(s@.skip(n as int) =~= Seq::<char>::empty());
    while i > 0 && chars[i - 1] != c
        invariant
            n == s@.len(),
            chars@ == s@,
            i <= n,
            after_last(s@, c) == after_last(s@.take(i as int), c) + s@.skip(i as int),
        decreases i,
    {
        let ghost front = s@.take(i as int);
        assert(front.drop_last() =~= s@.take(i - 1));
        assert(s@.skip(i - 1) =~= seq![s@[i - 1]] + s@.skip(i as int));
        assert(after_last(front, c) == after_last(front.drop_last(), c).push(front.last()));
        assert(after_last(front, c) + s@.skip(i as int) =~= after_last(s@.take(i - 1), c)
            + s@.skip(i - 1));
        i = i - 1;
    }
    if i > 0 {
        assert(after_last(s@.take(i as int), c) =~= Seq::<char>::empty());
    } else {
        assert(s@.take(0) =~= Seq::<char>::empty());
    }
    assert(after_last(s@, c) =~= s@.subrange(i as int, n as int));
    s.substring_char(i, n).to_owned()
}

/// Whether `needle` occurs in `hay` at index `i`.
pub open spec fn occurs_at(hay: Seq<char>, needle: Seq<char>, i: int) -> bool {
    0 <= i && i + needle.len() <= hay.len() && hay.subrange(i, i + needle.len()) == needle
}

/// Whether `needle` occurs somewhere in `hay`, as `str::contains` tells.
pub open spec fn contains_text(hay: Seq<char>, needle: Seq<char>) -> bool {
    exists|i: int| occurs_at(hay, needle, i)
}

fn occurs_at_exec(hay: &Vec<char>, needle: &Vec<char>, i: usize) -> (b: bool)
    requires
        i + needle.len() <= hay.len(),
    ensures
        b == occurs_at(hay@, needle@, i as int),
{
    let m = needle.len();
    let mut j: usize = 0;
    while j < m
        invariant
            m == needle@.len(),
            i + m <= hay.len(),
            j <= m,
            forall|k: int| 0 <= k < j ==> hay@[i + k] == needle@[k],
        decreases m - j,
    {
        if hay[i + j] != needle[j] {
            assert(hay@.subrange(i as int, i + m)[j as int] != needle@[j as int]);
            return false;
        }
        j = j + 1;
    }
    assert(hay@.subrange(i as int, i + m) =~= needle@);
    true
}

/// Whether `needle` occurs in `hay`.
pub fn text_contains(hay: &str, needle: &str) -> (b: bool)
    ensures
        b == contains_text(hay@, needle@),
{
    let h = chars_of(hay);
    let nd = chars_of(needle);
    if nd.len() > h.len() {
        assert forall|i: int| !occurs_at(hay@, needle@, i) by {}
        return false;
    }
    let last = h.len() - nd.len();
    if occurs_at_exec(&h, &nd, last) {
        return true;
    }
    let mut i: usize = 0;
    while i < last
        invariant
            h@ == hay@,
            nd@ == needle@,
            last == hay@.len() - needle@.len(),
            !occurs_at(hay@, needle@, last as int),
            i <= last,
            forall|k: int| 0 <= k < i ==> !occurs_at(hay@, needle@, k),
        decreases last - i,
    {
        if occurs_at_exec(&h, &nd, i) {
            return true;
        }
        i = i + 1;
    }
    assert forall|k: int| !occurs_at(hay@, needle@, k) by {}
    false
}

/// Whether two texts are equal.
pub fn text_eq(a: &str, b: &str) -> (r: bool)
    ensures
        r == (a@ == b@),
{
    a.to_owned() == b.to_owned()
}


/// The number that a string of decimal digits denotes, most significant digit first.
pub open spec fn decimal_value(s: Seq<char>) -> int
    decreases s.len(),
{
    if s.len() == 0 {
        0
    } else {
        decimal_value(s.drop_last()) * 10 + (s.last() as int - '0' as int)
    }
}

/// `nat_text(n)` is the decimal numeral of `n`: only the digits `0` to `9`, no leading
/// zero unless `n` is 0, and it denotes `n`.
pub proof fn lemma_nat_text_is_decimal(n: nat)
    ensures
        nat_text(n).len() >= 1,
        forall|i: int| 0 <= i < nat_text(n).len() ==> '0' <= #[trigger] nat_text(n)[i] <= '9',
        nat_text(n)[0] == '0' ==> n == 0,
        decimal_value(nat_text(n)) == n,
    decreases n,
{
    let d = (n % 10) as int;
    assert('0' as int == 48 && '1' as int == 49 && '2' as int == 50 && '3' as int == 51 && '4' as int
        == 52 && '5' as int == 53 && '6' as int == 54 && '7' as int == 55 && '8' as int == 56 && '9' as int
        == 57);
    assert(digit_char(d) as int == 48 + d);
    if n < 10 {
        assert(decimal_value(nat_text(n).drop_last()) == 0);
    } else {
        lemma_nat_text_is_decimal(n / 10);
        let t = nat_text(n / 10);
        assert(nat_text(n) == t.push(digit_char(d)));
        assert(nat_text(n).drop_last() =~= t);
        assert forall|i: int| 0 <= i < nat_text(n).len() implies '0' <= #[trigger] nat_text(n)[i]
            <= '9' by {
            if i < t.len() {
                assert(nat_text(n)[i] == t[i]);
            }
        }
        assert(nat_text(n)[0] == t[0]);
    }
}

/// `int_text(n)` is how Rust writes `n`: the decimal numeral of `n`, after a `-` when
/// `n` is negative.
pub proof fn lemma_int_text_is_decimal(n: int)
    ensures
        n >= 0 ==> int_text(n) == nat_text(n as nat) && decimal_value(int_text(n)) == n,
        n < 0 ==> int_text(n)[0] == '-' && int_text(n).drop_first() == nat_text((-n) as nat)
            && decimal_value(int_text(n).drop_first()) == -n,
{
    if n >= 0 {
        lemma_nat_text_is_decimal(n as nat);
    } else {
        lemma_nat_text_is_decimal((-n) as nat);
        assert(int_text(n).drop_first() =~= nat_text((-n) as nat));
    }
}

/// Quoted lists compose: a one-value list is the value between single quotes, and the
/// list of two non-empty lists one after the other is the first list, `", "`, and the
/// second. So the `k`-th quoted item of a list is its `k`-th value.
pub proof fn lemma_quoted_join_composes(fs: Seq<Seq<char>>, gs: Seq<Seq<char>>, x: Seq<char>)
    ensures
        quoted_join(seq![x]) == seq!['\''] + x + seq!['\''],
        fs.len() > 0 && gs.len() > 0 ==> quoted_join(fs + gs) == quoted_join(fs) + seq![',', ' ']
            + quoted_join(gs),
    decreases gs.len(),
{
    if fs.len() > 0 && gs.len() > 0 {
        if gs.len() == 1 {
            assert((fs + gs).drop_last() =~= fs);
            assert(quoted_join(gs) == quote(gs[0]));
        } else {
            lemma_quoted_join_composes(fs, gs.drop_last(), x);
            assert((fs + gs).drop_last() =~= fs + gs.drop_last());
            assert((fs + gs).last() == gs.last());
            assert(quoted_join(fs + gs) =~= quoted_join(fs) + seq![',', ' '] + quoted_join(gs));
        }
    }
}

} // verus!
