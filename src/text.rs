use vstd::prelude::*;

verus! {

broadcast use vstd::string::group_string_axioms;

/// The characters that Unicode lists as `White_Space` (what `char::is_whitespace` tests).
pub open spec fn is_space_spec(c: char) -> bool {
    let u = c as u32;
    ||| 0x09 <= u <= 0x0d
    ||| u == 0x20
    ||| u == 0x85
    ||| u == 0xa0
    ||| u == 0x1680
    ||| 0x2000 <= u <= 0x200a
    ||| u == 0x2028
    ||| u == 0x2029
    ||| u == 0x202f
    ||| u == 0x205f
    ||| u == 0x3000
}

/// The characters of general category `Cc` (what `char::is_control` tests).
pub open spec fn is_control_spec(c: char) -> bool {
    let u = c as u32;
    u <= 0x1f || (0x7f <= u && u <= 0x9f)
}

/// Sentence-terminal punctuation.
pub open spec fn is_terminal_spec(c: char) -> bool {
    c == '.' || c == '?' || c == '!'
}

pub fn is_space(c: char) -> (r: bool)
    ensures
        r == is_space_spec(c),
{
    let u = c as u32;
    (0x09 <= u && u <= 0x0d) || u == 0x20 || u == 0x85 || u == 0xa0 || u == 0x1680 || (0x2000
        <= u && u <= 0x200a) || u == 0x2028 || u == 0x2029 || u == 0x202f || u == 0x205f || u
        == 0x3000
}

pub fn is_control(c: char) -> (r: bool)
    ensures
        r == is_control_spec(c),
{
    let u = c as u32;
    u <= 0x1f || (0x7f <= u && u <= 0x9f)
}

/// `s` without its leading white space.
pub open spec fn trim_start_spec(s: Seq<char>) -> Seq<char>
    decreases s.len(),
{
    if s.len() > 0 && is_space_spec(s[0]) {
        trim_start_spec(s.drop_first())
    } else {
        s
    }
}

/// `s` without its trailing white space.
pub open spec fn trim_end_spec(s: Seq<char>) -> Seq<char>
    decreases s.len(),
{
    if s.len() > 0 && is_space_spec(s.last()) {
        trim_end_spec(s.drop_last())
    } else {
        s
    }
}

/// `s` without white space at either end, as `str::trim` gives it.
pub open spec fn trim_spec(s: Seq<char>) -> Seq<char> {
    trim_end_spec(trim_start_spec(s))
}

/// The number of maximal runs of non-white-space characters in `s`
/// (what `split_whitespace().count()` gives).
pub open spec fn word_count_spec(s: Seq<char>) -> nat
    decreases s.len(),
{
    if s.len() == 0 {
        0
    } else {
        let p = s.drop_last();
        if is_space_spec(s.last()) {
            word_count_spec(p)
        } else if p.len() == 0 || is_space_spec(p.last()) {
            word_count_spec(p) + 1
        } else {
            word_count_spec(p)
        }
    }
}

/// `s` with control characters dropped and each run of white space turned into one blank.
pub open spec fn collapse_spec(s: Seq<char>) -> Seq<char>
    decreases s.len(),
{
    if s.len() == 0 {
        Seq::empty()
    } else {
        let out = collapse_spec(s.drop_last());
        let c = s.last();
        if is_control_spec(c) {
            out
        } else if is_space_spec(c) {
            if out.len() > 0 && out.last() == ' ' {
                out
            } else {
                out.push(' ')
            }
        } else {
            out.push(c)
        }
    }
}

/// Plain text: no control characters, single blanks between words, no blank at either end.
pub open spec fn sanitized_spec(s: Seq<char>) -> Seq<char> {
    trim_spec(collapse_spec(s))
}

/// `k` is where the first line of `t` ends: the first line feed, or the end of `t`.
pub open spec fn is_line_end(t: Seq<char>, k: int) -> bool {
    &&& 0 <= k <= t.len()
    &&& k == t.len() || t[k] == '\n'
    &&& forall|j: int| 0 <= j < k ==> t[j] != '\n'
}

/// Where the first line of `t` ends.
pub open spec fn first_line_end(t: Seq<char>) -> int {
    if exists|k: int| is_line_end(t, k) {
        choose|k: int| is_line_end(t, k)
    } else {
        t.len() as int
    }
}

/// `s` without its control characters, the others kept in order.
pub open spec fn strip_controls_spec(s: Seq<char>) -> Seq<char>
    decreases s.len(),
{
    if s.len() == 0 {
        Seq::empty()
    } else if is_control_spec(s.last()) {
        strip_controls_spec(s.drop_last())
    } else {
        strip_controls_spec(s.drop_last()).push(s.last())
    }
}

/// A reply as it is spoken: the first line of the trimmed text, with its
/// control characters removed, trimmed again.
pub open spec fn cleaned_reply_spec(s: Seq<char>) -> Seq<char> {
    let t = trim_spec(s);
    trim_spec(strip_controls_spec(t.take(first_line_end(t))))
}

/// Whether no character of `s` is a control character.
pub open spec fn has_no_control(s: Seq<char>) -> bool {
    forall|i: int| 0 <= i < s.len() ==> !is_control_spec(#[trigger] s[i])
}

proof fn lemma_trim_start_keeps_plain(s: Seq<char>)
    requires
        has_no_control(s),
    ensures
        has_no_control(trim_start_spec(s)),
    decreases s.len(),
{
    if s.len() > 0 && is_space_spec(s[0]) {
        let d = s.drop_first();
        assert forall|i: int| 0 <= i < d.len() implies !is_control_spec(#[trigger] d[i]) by {
            assert(d[i] == s[i + 1]);
        }
        lemma_trim_start_keeps_plain(d);
    }
}

proof fn lemma_trim_end_keeps_plain(s: Seq<char>)
    requires
        has_no_control(s),
    ensures
        has_no_control(trim_end_spec(s)),
    decreases s.len(),
{
    if s.len() > 0 && is_space_spec(s.last()) {
        let d = s.drop_last();
        assert forall|i: int| 0 <= i < d.len() implies !is_control_spec(#[trigger] d[i]) by {
            assert(d[i] == s[i]);
        }
        lemma_trim_end_keeps_plain(d);
    }
}

/// A cleaned reply holds no control character, so in particular no line feed,
/// and it has no white space at either end.
pub proof fn lemma_cleaned_reply_is_plain(s: Seq<char>)
    ensures
        has_no_control(cleaned_reply_spec(s)),
        !cleaned_reply_spec(s).contains('\n'),
        cleaned_reply_spec(s).len() > 0 ==> !is_space_spec(cleaned_reply_spec(s)[0])
            && !is_space_spec(cleaned_reply_spec(s).last()),
{
    let t = trim_spec(s);
    let line = strip_controls_spec(t.take(first_line_end(t)));
    lemma_strip_controls_has_none(t.take(first_line_end(t)));
    lemma_trim_start_keeps_plain(line);
    lemma_trim_end_keeps_plain(trim_start_spec(line));
    lemma_trim_ends_not_space(line);
    let r = cleaned_reply_spec(s);
    if r.contains('\n') {
        let i = choose|i: int| 0 <= i < r.len() && r[i] == '\n';
        assert(is_control_spec(r[i]));
    }
}

/// A trimmed text starts and ends with a character that is not white space.
pub proof fn lemma_trim_ends_not_space(s: Seq<char>)
    ensures
        trim_spec(s).len() > 0 ==> !is_space_spec(trim_spec(s)[0]) && !is_space_spec(
            trim_spec(s).last(),
        ),
{
    lemma_trim_start_first(s);
    lemma_trim_end_shape(trim_start_spec(s));
}

proof fn lemma_trim_start_first(s: Seq<char>)
    ensures
        trim_start_spec(s).len() > 0 ==> !is_space_spec(trim_start_spec(s)[0]),
    decreases s.len(),
{
    if s.len() > 0 && is_space_spec(s[0]) {
        lemma_trim_start_first(s.drop_first());
    }
}

proof fn lemma_trim_end_shape(s: Seq<char>)
    ensures
        trim_end_spec(s).len() <= s.len(),
        trim_end_spec(s) == s.take(trim_end_spec(s).len() as int),
        trim_end_spec(s).len() > 0 ==> !is_space_spec(trim_end_spec(s).last()),
    decreases s.len(),
{
    if s.len() > 0 && is_space_spec(s.last()) {
        lemma_trim_end_shape(s.drop_last());
        let r = trim_end_spec(s.drop_last());
        assert(s.drop_last().take(r.len() as int) == s.take(r.len() as int));
    } else {
        assert(s.take(s.len() as int) == s);
    }
}

/// A stripped text holds no control character.
pub proof fn lemma_strip_controls_has_none(s: Seq<char>)
    ensures
        forall|i: int|
            0 <= i < strip_controls_spec(s).len() ==> !is_control_spec(
                #[trigger] strip_controls_spec(s)[i],
            ),
    decreases s.len(),
{
    if s.len() > 0 {
        let p = s.drop_last();
        lemma_strip_controls_has_none(p);
        let r = strip_controls_spec(s);
        assert forall|i: int| 0 <= i < r.len() implies !is_control_spec(#[trigger] r[i]) by {
            if i < strip_controls_spec(p).len() {
                assert(r[i] == strip_controls_spec(p)[i]);
            }
        }
    }
}

/// `s` ends, white space aside, in `.`, `?` or `!`.
pub open spec fn ends_sentence_spec(s: Seq<char>) -> bool {
    let t = trim_end_spec(s);
    t.len() > 0 && is_terminal_spec(t.last())
}

/// The characters of `s`, in order.
pub fn chars_of(s: &str) -> (r: Vec<char>)
    ensures
        r@ == s@,
{
    let mut out: Vec<char> = Vec::new();
    for c in it: s.chars()
        invariant
            it.seq() == s@,
            out@ == it.seq().take(it.index() as int),
    {
        out.push(c);
    }
    out
}

/// Relies on `String::push`: appends one character at the end.
#[verifier::external_body]
pub(crate) fn push_char(s: &mut String, c: char)
    ensures
        final(s)@ == old(s)@.push(c),
{
    s.push(c)
}

/// Relies on `String::push_str`: appends the characters of `t` at the end.
#[verifier::external_body]
pub(crate) fn push_str(s: &mut String, t: &str)
    ensures
        final(s)@ == old(s)@ + t@,
{
    s.push_str(t)
}

/// The digit that stands for `d`, for `d` below ten.
pub open spec fn digit_char(d: int) -> char {
    if d == 0 {
        '0'
    } else if d == 1 {
        '1'
    } else if d == 2 {
        '2'
    } else if d == 3 {
        '3'
    } else if d == 4 {
        '4'
    } else if d == 5 {
        '5'
    } else if d == 6 {
        '6'
    } else if d == 7 {
        '7'
    } else if d == 8 {
        '8'
    } else {
        '9'
    }
}

/// The decimal digits of `n`, most significant first, with no leading zero.
pub open spec fn decimal_spec(n: nat) -> Seq<char>
    decreases n,
{
    if n < 10 {
        seq![digit_char(n as int)]
    } else {
        decimal_spec(n / 10).push(digit_char((n % 10) as int))
    }
}

/// `n` in decimal, with a leading `-` when negative.
pub open spec fn signed_decimal_spec(n: int) -> Seq<char> {
    if n < 0 {
        seq!['-'] + decimal_spec((-n) as nat)
    } else {
        decimal_spec(n as nat)
    }
}

fn digit(d: u64) -> (c: char)
    requires
        d < 10,
    ensures
        c == digit_char(d as int),
{
    if d == 0 {
        '0'
    } else if d == 1 {
        '1'
    } else if d == 2 {
        '2'
    } else if d == 3 {
        '3'
    } else if d == 4 {
        '4'
    } else if d == 5 {
        '5'
    } else if d == 6 {
        '6'
    } else if d == 7 {
        '7'
    } else if d == 8 {
        '8'
    } else {
        '9'
    }
}

/// Appends the decimal digits of `n`.
pub fn push_decimal(out: &mut String, n: u64)
    ensures
        final(out)@ == old(out)@ + decimal_spec(n as nat),
    decreases n,
{
    if n >= 10 {
        push_decimal(out, n / 10);
    }
    push_char(out, digit(n % 10));
    assert(old(out)@ + decimal_spec(n as nat) == if n >= 10 {
        old(out)@ + decimal_spec((n / 10) as nat) + seq![digit_char((n % 10) as int)]
    } else {
        old(out)@ + seq![digit_char(n as int)]
    });
}

/// Appends `n` in decimal, with a leading `-` when negative.
pub fn push_signed_decimal(out: &mut String, n: i64)
    ensures
        final(out)@ == old(out)@ + signed_decimal_spec(n as int),
{
    if n < 0 {
        push_char(out, '-');
        let magnitude: u64 = ((-(n + 1)) as u64) + 1;
        push_decimal(out, magnitude);
        assert(old(out)@ + signed_decimal_spec(n as int) == old(out)@.push('-') + decimal_spec(
            magnitude as nat,
        ));
    } else {
        push_decimal(out, n as u64);
    }
}

/// Whether `a` and `b` hold the same characters.
pub fn same_text(a: &str, b: &str) -> (r: bool)
    ensures
        r == (a@ == b@),
{
    let x = chars_of(a);
    let y = chars_of(b);
    if x.len() != y.len() {
        return false;
    }
    let mut i: usize = 0;
    while i < x.len()
        invariant
            i <= x.len() == y.len(),
            x@ == a@,
            y@ == b@,
            forall|j: int| 0 <= j < i ==> x@[j] == y@[j],
        decreases x.len() - i,
    {
        if x[i] != y[i] {
            return false;
        }
        i = i + 1;
    }
    assert(x@ == y@);
    true
}

/// The code of `c` with ASCII upper-case letters folded to lower case.
pub open spec fn ascii_fold_spec(c: char) -> u32 {
    let u = c as u32;
    if 65 <= u <= 90 {
        (u + 32) as u32
    } else {
        u
    }
}

/// `a` and `b` are equal once ASCII letters are compared without regard to case.
pub open spec fn same_ignoring_ascii_case_spec(a: Seq<char>, b: Seq<char>) -> bool {
    a.len() == b.len() && forall|i: int| 0 <= i < a.len() ==> ascii_fold_spec(a[i]) == ascii_fold_spec(b[i])
}

fn ascii_fold(c: char) -> (r: u32)
    ensures
        r == ascii_fold_spec(c),
{
    let u = c as u32;
    if 65 <= u && u <= 90 {
        u + 32
    } else {
        u
    }
}

/// Whether `a` and `b` are equal when ASCII letters are compared without regard to case.
pub fn same_ignoring_ascii_case(a: &str, b: &str) -> (r: bool)
    ensures
        r == same_ignoring_ascii_case_spec(a@, b@),
{
    let x = chars_of(a);
    let y = chars_of(b);
    if x.len() != y.len() {
        return false;
    }
    let mut i: usize = 0;
    while i < x.len()
        invariant
            i <= x.len() == y.len(),
            x@ == a@,
            y@ == b@,
            forall|j: int| 0 <= j < i ==> ascii_fold_spec(x@[j]) == ascii_fold_spec(y@[j]),
        decreases x.len() - i,
    {
        if ascii_fold(x[i]) != ascii_fold(y[i]) {
            return false;
        }
        i = i + 1;
    }
    true
}

/// A `String` holding the characters `v[from..to]`.
pub fn string_of_range(v: &Vec<char>, from: usize, to: usize) -> (r: String)
    requires
        from <= to <= v.len(),
    ensures
        r@ == v@.subrange(from as int, to as int),
{
    let mut out = String::new();
    let mut i: usize = from;
    while i < to
        invariant
            from <= i <= to <= v.len(),
            out@ == v@.subrange(from as int, i as int),
        decreases to - i,
    {
        push_char(&mut out, v[i]);
        i = i + 1;
        assert(out@ == v@.subrange(from as int, i as int));
    }
    out
}

/// The bounds `[a, b)` of `v[from..to]` once white space is cut from both ends.
pub fn trim_bounds(v: &Vec<char>, from: usize, to: usize) -> (r: (usize, usize))
    requires
        from <= to <= v.len(),
    ensures
        from <= r.0 <= r.1 <= to,
        v@.subrange(r.0 as int, r.1 as int) == trim_spec(v@.subrange(from as int, to as int)),
{
    let ghost s = v@.subrange(from as int, to as int);
    let mut a: usize = from;
    while a < to && is_space(v[a])
        invariant
            from <= a <= to <= v.len(),
            trim_start_spec(v@.subrange(a as int, to as int)) == trim_start_spec(s),
        decreases to - a,
    {
        assert(v@.subrange(a as int, to as int).drop_first() == v@.subrange(a + 1, to as int));
        a = a + 1;
    }
    assert(trim_start_spec(s) == v@.subrange(a as int, to as int));
    let mut b: usize = to;
    while b > a && is_space(v[b - 1])
        invariant
            from <= a <= b <= to <= v.len(),
            trim_end_spec(v@.subrange(a as int, b as int)) == trim_spec(s),
        decreases b - a,
    {
        assert(v@.subrange(a as int, b as int).drop_last() == v@.subrange(a as int, b - 1));
        b = b - 1;
    }
    (a, b)
}

/// `s` without white space at either end.
pub fn trim(s: &str) -> (r: String)
    ensures
        r@ == trim_spec(s@),
{
    let v = chars_of(s);
    let (a, b) = trim_bounds(&v, 0, v.len());
    assert(v@.subrange(0, v.len() as int) == v@);
    string_of_range(&v, a, b)
}

/// The number of white-space separated words in `s`.
pub fn word_count(s: &str) -> (r: usize)
    ensures
        r == word_count_spec(s@),
{
    let v = chars_of(s);
    let mut count: usize = 0;
    let mut i: usize = 0;
    while i < v.len()
        invariant
            i <= v.len(),
            v@ == s@,
            count == word_count_spec(v@.take(i as int)),
            count <= i,
        decreases v.len() - i,
    {
        let c = v[i];
        assert(v@.take(i + 1).drop_last() == v@.take(i as int));
        if !is_space(c) && (i == 0 || is_space(v[i - 1])) {
            count = count + 1;
        }
        i = i + 1;
    }
    assert(v@.take(v.len() as int) == v@);
    count
}

/// `s` ends, white space aside, in sentence-terminal punctuation.
pub fn ends_sentence(s: &str) -> (r: bool)
    ensures
        r == ends_sentence_spec(s@),
{
    let v = chars_of(s);
    let mut b: usize = v.len();
    assert(v@.take(v.len() as int) == v@);
    while b > 0 && is_space(v[b - 1])
        invariant
            b <= v.len(),
            v@ == s@,
            trim_end_spec(v@.take(b as int)) == trim_end_spec(s@),
        decreases b,
    {
        assert(v@.take(b as int).drop_last() == v@.take(b - 1));
        b = b - 1;
    }
    b > 0 && (v[b - 1] == '.' || v[b - 1] == '?' || v[b - 1] == '!')
}

/// Keeps printable text only: control characters are dropped, every run of
/// white space becomes a single blank, and blanks at either end are removed.
pub fn sanitize_plain(input: &str) -> (r: String)
    ensures
        r@ == sanitized_spec(input@),
{
    let v = chars_of(input);
    let mut cleaned: Vec<char> = Vec::new();
    let mut last_space = false;
    let mut i: usize = 0;
    while i < v.len()
        invariant
            i <= v.len(),
            v@ == input@,
            cleaned@ == collapse_spec(v@.take(i as int)),
            last_space == (cleaned@.len() > 0 && cleaned@.last() == ' '),
        decreases v.len() - i,
    {
        let c = v[i];
        assert(v@.take(i + 1).drop_last() == v@.take(i as int));
        if !is_control(c) {
            let ch = if is_space(c) {
                ' '
            } else {
                c
            };
            if ch == ' ' {
                if !last_space {
                    cleaned.push(' ');
                    last_space = true;
                }
            } else {
                cleaned.push(ch);
                last_space = false;
            }
        }
        i = i + 1;
    }
    assert(v@.take(v.len() as int) == v@);
    let (a, b) = trim_bounds(&cleaned, 0, cleaned.len());
    assert(cleaned@.subrange(0, cleaned.len() as int) == cleaned@);
    string_of_range(&cleaned, a, b)
}

/// Cuts a generated reply down to what is spoken: the text is trimmed, only
/// its first line is kept, its control characters are removed, and what is
/// left is trimmed again.
pub fn clean_reply(text: &str) -> (r: String)
    ensures
        r@ == cleaned_reply_spec(text@),
{
    let v = chars_of(text);
    let (a, b) = trim_bounds(&v, 0, v.len());
    assert(v@.subrange(0, v.len() as int) == v@);
    let ghost t = v@.subrange(a as int, b as int);
    let mut k: usize = a;
    while k < b && v[k] != '\n'
        invariant
            a <= k <= b <= v.len(),
            t == v@.subrange(a as int, b as int),
            forall|j: int| 0 <= j < k - a ==> t[j] != '\n',
        decreases b - k,
    {
        k = k + 1;
    }
    proof {
        assert(is_line_end(t, k - a));
        let e = first_line_end(t);
        assert(is_line_end(t, e));
        if e < k - a {
            assert(t[e] != '\n');
        }
        if e > k - a {
            assert(t[k - a] != '\n');
        }
        assert(e == k - a);
        assert(t.take(e) == v@.subrange(a as int, k as int));
    }
    let mut line: Vec<char> = Vec::new();
    let mut i: usize = a;
    while i < k
        invariant
            a <= i <= k <= v.len(),
            line@ == strip_controls_spec(v@.subrange(a as int, i as int)),
        decreases k - i,
    {
        assert(v@.subrange(a as int, i + 1).drop_last() == v@.subrange(a as int, i as int));
        if !is_control(v[i]) {
            line.push(v[i]);
        }
        i = i + 1;
    }
    let (c, d) = trim_bounds(&line, 0, line.len());
    assert(line@.subrange(0, line.len() as int) == line@);
    string_of_range(&line, c, d)
}

} // verus!
