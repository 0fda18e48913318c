use vstd::prelude::*;

verus! {

/// Whether `c` has the Unicode `White_Space` property, which is what
/// `char::is_whitespace` tests.
pub open spec fn is_white_space(c: char) -> bool {
    let u = c as u32;
    ||| 0x09 <= u <= 0x0d
    ||| u == 0x20
    ||| u == 0x85
    ||| u == 0xa0
    ||| u == 0x1680
    ||| 0x2000 <= u <= 0x200a
    ||| u == 0x2028
    ||| u == 0x2029
    ||| u == 0x202f
    ||| u == 0x205f
    ||| u == 0x3000
}

/// Executable test for `is_white_space`.
pub fn char_is_white_space(c: char) -> (r: bool)
    ensures
        r == is_white_space(c),
{
    let u = c as u32;
    (0x09 <= u && u <= 0x0d) || u == 0x20 || u == 0x85 || u == 0xa0 || u == 0x1680 || (0x2000
        <= u && u <= 0x200a) || u == 0x2028 || u == 0x2029 || u == 0x202f || u == 0x205f || u
        == 0x3000
}

/// The characters of `s`, in order.
pub fn chars_of(s: &str) -> (v: Vec<char>)
    ensures
        v@ == s@,
{
    let mut v: Vec<char> = Vec::new();
    for c in it: s.chars()
        invariant
            v@ == it.seq().take(it.index() as int),
            it.seq() == s@,
    {
        v.push(c);
    }
    v
}

/// `String::push`: appends one character.
#[verifier::external_body]
pub(crate) fn push_char(s: &mut String, c: char)
    ensures
        final(s)@ == old(s)@.push(c),
{
    s.push(c);
}

/// The words of `s`: its maximal runs of characters that are not white
/// space, in order (what `str::split_whitespace` yields).
pub open spec fn words(s: Seq<char>) -> Seq<Seq<char>>
    decreases s.len(),
{
    if s.len() == 0 {
        seq![]
    } else {
        let p = s.drop_last();
        let c = s.last();
        if is_white_space(c) {
            words(p)
        } else if p.len() == 0 || is_white_space(p.last()) {
            words(p).push(seq![c])
        } else {
            let w = words(p);
            w.update(w.len() - 1, w.last().push(c))
        }
    }
}

/// The words of `ws` joined by single spaces.
pub open spec fn join_with_spaces(ws: Seq<Seq<char>>) -> Seq<char>
    decreases ws.len(),
{
    if ws.len() == 0 {
        seq![]
    } else if ws.len() == 1 {
        ws[0]
    } else {
        join_with_spaces(ws.drop_last()) + seq![' '] + ws.last()
    }
}

/// Whether every character of `s` is white space (so that `s.trim()` is empty).
pub open spec fn all_white_space(s: Seq<char>) -> bool {
    forall|i: int| 0 <= i < s.len() ==> is_white_space(#[trigger] s[i])
}

/// The words of `s`, in order, each as a `String`.
pub fn split_whitespace(s: &str) -> (r: Vec<String>)
    ensures
        r.deep_view() == words(s@),
{
    let v = chars_of(s);
    let mut done: Vec<String> = Vec::new();
    let mut cur = String::new();
    let mut in_word = false;
    for i in 0..v.len()
        invariant
            v@ == s@,
            in_word <==> (i > 0 && !is_white_space(v@[i - 1])),
            in_word ==> words(v@.take(i as int)) == done.deep_view().push(cur@),
            !in_word ==> words(v@.take(i as int)) == done.deep_view(),
            !in_word ==> cur@.len() == 0,
    {
        let c = v[i];
        proof {
            let t = v@.take(i + 1);
            assert(t.drop_last() == v@.take(i as int));
            assert(t.last() == c);
        }
        if char_is_white_space(c) {
            if in_word {
                let ghost before = done.deep_view();
                let ghost wv = cur@;
                let w = cur;
                cur = String::new();
                done.push(w);
                proof {
                    assert(done.deep_view() == before.push(wv));
                }
            }
            in_word = false;
        } else {
            let ghost before = done.deep_view();
            let ghost cv = cur@;
            push_char(&mut cur, c);
            proof {
                let t = v@.take(i + 1);
                let p = v@.take(i as int);
                if in_word {
                    let w = before.push(cv);
                    assert(words(t) == w.update(w.len() - 1, w.last().push(c)));
                    assert(w.update(w.len() - 1, w.last().push(c)) == before.push(cur@));
                } else {
                    assert(p.len() == 0 || is_white_space(p.last()));
                    assert(cv.len() == 0);
                    assert(cur@ == seq![c]);
                }
            }
            in_word = true;
        }
    }
    if in_word {
        done.push(cur);
    }
    proof {
        assert(v@.take(v.len() as int) == v@);
    }
    done
}


/// The decimal digit character for `d < 10`.
pub open spec fn digit_char(d: nat) -> char {
    (48 + d) as char
}

/// The decimal notation of `n`, without leading zeros.
pub open spec fn decimal(n: nat) -> Seq<char>
    decreases n,
{
    if n < 10 {
        seq![digit_char(n)]
    } else {
        decimal(n / 10).push(digit_char(n % 10))
    }
}

/// The decimal notation of `i`, with a leading `-` when it is negative.
pub open spec fn signed_decimal(i: int) -> Seq<char> {
    if i < 0 {
        seq!['-'] + decimal((-i) as nat)
    } else {
        decimal(i as nat)
    }
}

/// `n` spaces.
pub open spec fn spaces(n: nat) -> Seq<char> {
    Seq::new(n, |_i: int| ' ')
}

/// `s` followed by spaces up to `width` characters (format's `{:<width}`).
pub open spec fn pad_end(s: Seq<char>, width: nat) -> Seq<char> {
    if s.len() < width {
        s + spaces((width - s.len()) as nat)
    } else {
        s
    }
}

/// `s` preceded by spaces up to `width` characters (format's `{:>width}`).
pub open spec fn pad_start(s: Seq<char>, width: nat) -> Seq<char> {
    if s.len() < width {
        spaces((width - s.len()) as nat) + s
    } else {
        s
    }
}

/// The decimal notation of `n`.
pub fn decimal_string(n: u64) -> (s: String)
    ensures
        s@ == decimal(n as nat),
    decreases n,
{
    let d: u8 = (n % 10) as u8;
    let c: char = (48u8 + d) as char;
    assert(c == digit_char((n % 10) as nat));
    if n < 10 {
        let mut s = String::new();
        push_char(&mut s, c);
        s
    } else {
        let mut s = decimal_string(n / 10);
        push_char(&mut s, c);
        s
    }
}

/// The decimal notation of `i`, with a leading `-` when it is negative.
pub fn signed_decimal_string(i: i64) -> (s: String)
    ensures
        s@ == signed_decimal(i as int),
{
    if i < 0 {
        let m: u64 = (-(i as i128)) as u64;
        let digits = decimal_string(m);
        let mut s = String::new();
        push_char(&mut s, '-');
        s.append(digits.as_str());
        s
    } else {
        decimal_string(i as u64)
    }
}

/// `s` followed by spaces up to `width` characters.
pub fn pad_end_string(s: String, width: usize) -> (r: String)
    ensures
        r@ == pad_end(s@, width as nat),
{
    let n = s.as_str().unicode_len();
    let mut r = s;
    let mut k = n;
    while k < width
        invariant
            n == s@.len(),
            n <= k <= width || (k == n && n >= width),
            k >= width ==> k == n || k == width,
            r@ == s@ + spaces((k - n) as nat),
        decreases width - k,
    {
        push_char(&mut r, ' ');
        k = k + 1;
        assert(r@ == s@ + spaces((k - n) as nat));
    }
    r
}

/// `s` preceded by spaces up to `width` characters.
pub fn pad_start_string(s: &str, width: usize) -> (r: String)
    ensures
        r@ == pad_start(s@, width as nat),
{
    let n = s.unicode_len();
    let mut r = String::new();
    let mut k = n;
    while k < width
        invariant
            n == s@.len(),
            n <= k <= width || (k == n && n >= width),
            k >= width ==> k == n || k == width,
            r@ == spaces((k - n) as nat),
        decreases width - k,
    {
        push_char(&mut r, ' ');
        k = k + 1;
        assert(r@ == spaces((k - n) as nat));
    }
    r.append(s);
    r
}


/// `s` without its leading white space.
pub open spec fn trim_start(s: Seq<char>) -> Seq<char>
    decreases s.len(),
{
    if s.len() > 0 && is_white_space(s[0]) {
        trim_start(s.drop_first())
    } else {
        s
    }
}

/// `s` without its trailing white space.
pub open spec fn trim_end(s: Seq<char>) -> Seq<char>
    decreases s.len(),
{
    if s.len() > 0 && is_white_space(s.last()) {
        trim_end(s.drop_last())
    } else {
        s
    }
}

/// `s` without its leading and trailing white space (what `str::trim` gives).
pub open spec fn trim(s: Seq<char>) -> Seq<char> {
    trim_end(trim_start(s))
}

/// `s` without its leading and trailing white space.
pub fn trimmed(s: &str) -> (r: String)
    ensures
        r@ == trim(s@),
{
    let v = chars_of(s);
    let n = v.len();
    let mut lo: usize = 0;
    assert(v@.subrange(0, n as int) == v@);
    while lo < n && char_is_white_space(v[lo])
        invariant
            v@ == s@,
            n == v.len(),
            lo <= n,
            trim_start(v@) == trim_start(v@.subrange(lo as int, n as int)),
        decreases n - lo,
    {
        assert(v@.subrange(lo as int, n as int).drop_first() == v@.subrange(lo + 1, n as int));
        lo = lo + 1;
    }
    assert(trim_start(v@) == v@.subrange(lo as int, n as int));
    let mut hi: usize = n;
    while hi > lo && char_is_white_space(v[hi - 1])
        invariant
            lo <= hi <= n,
            n == v.len(),
            trim_end(v@.subrange(lo as int, n as int)) == trim_end(
                v@.subrange(lo as int, hi as int),
            ),
        decreases hi,
    {
        assert(v@.subrange(lo as int, hi as int).drop_last() == v@.subrange(lo as int, hi - 1));
        hi = hi - 1;
    }
    assert(trim_end(v@.subrange(lo as int, hi as int)) == v@.subrange(lo as int, hi as int));
    let mut r = String::new();
    let mut i = lo;
    while i < hi
        invariant
            lo <= i <= hi,
            hi <= n,
            n == v.len(),
            r@ == v@.subrange(lo as int, i as int),
        decreases hi - i,
    {
        push_char(&mut r, v[i]);
        assert(v@.subrange(lo as int, i + 1) == v@.subrange(lo as int, i as int).push(v@[i as int]));
        i = i + 1;
    }
    r
}

/// Whether every character of `s` is white space.
pub fn is_blank(s: &str) -> (r: bool)
    ensures
        r == all_white_space(s@),
{
    let v = chars_of(s);
    for i in 0..v.len()
        invariant
            v@ == s@,
            forall|j: int| 0 <= j < i ==> is_white_space(#[trigger] v@[j]),
    {
        if !char_is_white_space(v[i]) {
            return false;
        }
    }
    true
}

/// `String::pop`: removes the last character, if any, and returns it.
#[verifier::external_body]
pub(crate) fn pop_char(s: &mut String) -> (r: Option<char>)
    ensures
        old(s)@.len() == 0 ==> r is None && final(s)@ == old(s)@,
        old(s)@.len() > 0 ==> r == Some(old(s)@.last()) && final(s)@ == old(s)@.drop_last(),
{
    s.pop()
}


/// A word in the sense of `words`: not empty, and free of white space.
pub open spec fn is_word(w: Seq<char>) -> bool {
    w.len() > 0 && forall|j: int| 0 <= j < w.len() ==> !is_white_space(#[trigger] w[j])
}

/// Every entry of `ws` is a word.
pub open spec fn all_words(ws: Seq<Seq<char>>) -> bool {
    forall|i: int| 0 <= i < ws.len() ==> is_word(#[trigger] ws[i])
}

/// What `words` yields are words.
pub proof fn lemma_words_are_words(s: Seq<char>)
    ensures
        all_words(words(s)),
    decreases s.len(),
{
    if s.len() > 0 {
        let p = s.drop_last();
        let c = s.last();
        lemma_words_are_words(p);
        if is_white_space(c) {
        } else if p.len() == 0 || is_white_space(p.last()) {
            let w = words(p).push(seq![c]);
            assert forall|i: int| 0 <= i < w.len() implies is_word(#[trigger] w[i]) by {
                if i < words(p).len() {
                    assert(w[i] == words(p)[i]);
                }
            }
        } else {
            let w = words(p);
            lemma_words_nonempty(p);
            let u = w.update(w.len() - 1, w.last().push(c));
            assert forall|i: int| 0 <= i < u.len() implies is_word(#[trigger] u[i]) by {
                if i < w.len() - 1 {
                    assert(u[i] == w[i]);
                } else {
                    let lw = w.last();
                    assert(is_word(w[w.len() - 1]));
                    assert forall|j: int| 0 <= j < lw.push(c).len() implies !is_white_space(
                        #[trigger] lw.push(c)[j],
                    ) by {
                        if j < lw.len() {
                            assert(lw.push(c)[j] == lw[j]);
                        }
                    }
                }
            }
        }
    }
}

/// A text that ends in a character that is not white space has a word.
pub proof fn lemma_words_nonempty(s: Seq<char>)
    requires
        s.len() > 0,
        !is_white_space(s.last()),
    ensures
        words(s).len() > 0,
    decreases s.len(),
{
    let p = s.drop_last();
    if p.len() > 0 && !is_white_space(p.last()) {
        lemma_words_nonempty(p);
    }
}

/// A single word splits into itself.
pub proof fn lemma_words_of_word(w: Seq<char>)
    requires
        is_word(w),
    ensures
        words(w) == seq![w],
    decreases w.len(),
{
    let p = w.drop_last();
    assert(!is_white_space(w[w.len() - 1]));
    if p.len() == 0 {
        assert(words(p) == Seq::<Seq<char>>::empty());
        assert(w == seq![w.last()]);
    } else {
        assert(is_word(p)) by {
            assert forall|j: int| 0 <= j < p.len() implies !is_white_space(#[trigger] p[j]) by {
                assert(p[j] == w[j]);
            }
        }
        lemma_words_of_word(p);
        assert(!is_white_space(p.last())) by {
            assert(p.last() == w[p.len() - 1]);
        }
        assert(p.push(w.last()) == w);
    }
}

/// Appending a space and a word adds that word.
pub proof fn lemma_words_append_word(s: Seq<char>, w: Seq<char>)
    requires
        is_word(w),
    ensures
        words(s + seq![' '] + w) == words(s).push(w),
    decreases w.len(),
{
    let t = s + seq![' '] + w;
    let p = t.drop_last();
    let c = w.last();
    assert(t.last() == c);
    assert(!is_white_space(c)) by {
        assert(c == w[w.len() - 1]);
    }
    assert(is_white_space(' '));
    if w.len() == 1 {
        assert(p == s + seq![' ']);
        assert((s + seq![' ']).drop_last() == s);
        assert(words(s + seq![' ']) == words(s));
        assert(w == seq![c]);
    } else {
        let v = w.drop_last();
        assert(is_word(v)) by {
            assert forall|j: int| 0 <= j < v.len() implies !is_white_space(#[trigger] v[j]) by {
                assert(v[j] == w[j]);
            }
        }
        assert(p == s + seq![' '] + v);
        lemma_words_append_word(s, v);
        assert(p.last() == v.last());
        assert(!is_white_space(v.last())) by {
            assert(v.last() == w[v.len() - 1]);
        }
        let wp = words(p);
        assert(wp.update(wp.len() - 1, wp.last().push(c)) == words(s).push(w)) by {
            assert(v.push(c) == w);
        }
    }
}

/// Words joined by spaces split back into the same words.
pub proof fn lemma_words_of_join(ws: Seq<Seq<char>>)
    requires
        all_words(ws),
    ensures
        words(join_with_spaces(ws)) == ws,
    decreases ws.len(),
{
    if ws.len() == 0 {
        assert(words(Seq::<char>::empty()) == Seq::<Seq<char>>::empty());
    } else if ws.len() == 1 {
        assert(is_word(ws[0]));
        lemma_words_of_word(ws[0]);
        assert(ws == seq![ws[0]]);
    } else {
        let init = ws.drop_last();
        assert(all_words(init)) by {
            assert forall|i: int| 0 <= i < init.len() implies is_word(#[trigger] init[i]) by {
                assert(init[i] == ws[i]);
            }
        }
        lemma_words_of_join(init);
        assert(is_word(ws[ws.len() - 1]));
        lemma_words_append_word(join_with_spaces(init), ws.last());
        assert(init.push(ws.last()) == ws);
    }
}

/// Different numbers have different decimal notations.
pub proof fn lemma_decimal_injective(a: nat, b: nat)
    requires
        decimal(a) == decimal(b),
    ensures
        a == b,
    decreases a,
{
    lemma_decimal_length(a);
    lemma_decimal_length(b);
    if a < 10 && b < 10 {
        assert(decimal(a)[0] == digit_char(a));
        assert(decimal(b)[0] == digit_char(b));
        assert((digit_char(a) as u32) == 48 + a);
        assert((digit_char(b) as u32) == 48 + b);
    } else if a >= 10 && b >= 10 {
        let da = decimal(a);
        let db = decimal(b);
        assert(da.drop_last() == decimal(a / 10));
        assert(db.drop_last() == decimal(b / 10));
        lemma_decimal_injective(a / 10, b / 10);
        assert(da.last() == digit_char(a % 10));
        assert(db.last() == digit_char(b % 10));
        assert((digit_char(a % 10) as u32) == 48 + a % 10);
        assert((digit_char(b % 10) as u32) == 48 + b % 10);
    }
}

/// One digit below ten, at least two from ten on.
pub proof fn lemma_decimal_length(n: nat)
    ensures
        decimal(n).len() >= 1,
        n < 10 <==> decimal(n).len() == 1,
    decreases n,
{
    if n >= 10 {
        lemma_decimal_length(n / 10);
    }
}


/// Whether `c` is one of the digits `0` to `9`.
pub open spec fn is_digit(c: char) -> bool {
    48 <= (c as u32) <= 57
}

/// The number that a string of decimal digits stands for.
pub open spec fn digits_value(s: Seq<char>) -> nat
    decreases s.len(),
{
    if s.len() == 0 {
        0
    } else {
        digits_value(s.drop_last()) * 10 + ((s.last() as u32) - 48) as nat
    }
}

/// Whether `s` is the usual decimal notation of `n`: digits only, no
/// leading zero (but `0` itself), reading as `n`.
pub open spec fn reads_as(s: Seq<char>, n: nat) -> bool {
    &&& s.len() > 0
    &&& forall|i: int| 0 <= i < s.len() ==> is_digit(#[trigger] s[i])
    &&& (s.len() == 1 || s[0] != '0')
    &&& digits_value(s) == n
}

/// Whether `s` is the usual decimal notation of the signed number `i`:
/// a minus sign before the notation of `-i` when `i` is negative.
pub open spec fn reads_as_signed(s: Seq<char>, i: int) -> bool {
    if i < 0 {
        s.len() > 0 && s[0] == '-' && reads_as(s.drop_first(), (-i) as nat)
    } else {
        reads_as(s, i as nat)
    }
}

/// The decimal notation of `n` reads as `n`.
pub proof fn lemma_decimal_reads(n: nat)
    ensures
        reads_as(decimal(n), n),
    decreases n,
{
    lemma_decimal_length(n);
    let d = decimal(n);
    if n < 10 {
        assert(d[0] == digit_char(n));
        assert((digit_char(n) as u32) == 48 + n);
        assert(d.drop_last() =~= Seq::<char>::empty());
        assert(is_digit(d[0]));
        assert(digits_value(d.drop_last()) == 0);
    } else {
        lemma_decimal_reads(n / 10);
        lemma_decimal_length(n / 10);
        let h = decimal(n / 10);
        assert(d.drop_last() == h);
        assert((digit_char(n % 10) as u32) == 48 + n % 10);
        assert forall|i: int| 0 <= i < d.len() implies is_digit(#[trigger] d[i]) by {
            if i < h.len() {
                assert(d[i] == h[i]);
            }
        }
        assert(d[0] == h[0]);
        assert(d.last() == digit_char(n % 10));
        assert(digits_value(d) == digits_value(h) * 10 + (n % 10));
    }
}

/// The signed decimal notation of `i` reads as `i`.
pub proof fn lemma_signed_decimal_reads(i: int)
    ensures
        reads_as_signed(signed_decimal(i), i),
{
    if i < 0 {
        lemma_decimal_reads((-i) as nat);
        assert((seq!['-'] + decimal((-i) as nat)).drop_first() == decimal((-i) as nat));
    } else {
        lemma_decimal_reads(i as nat);
    }
}

} // verus!
