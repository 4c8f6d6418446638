//! Character-level text operations used by the tools: whitespace tests,
//! substring search and replacement, and the lossy decoding of command output.
use vstd::prelude::*;
use vstd::string::*;
use vstd::utf8::*;

verus! {

// ---------------------------------------------------------------------------
// Specifications
// ---------------------------------------------------------------------------

/// Unicode `White_Space` characters, the set that `char::is_whitespace`
/// and `str::trim` use.
pub open spec fn is_white_space(c: char) -> bool {
    let u = c as u32;
    ||| 0x09 <= u <= 0x0d
    ||| u == 0x20
    ||| u == 0x85
    ||| u == 0xa0
    ||| u == 0x1680
    ||| 0x2000 <= u <= 0x200a
    ||| u == 0x2028
    ||| u == 0x2029
    ||| u == 0x202f
    ||| u == 0x205f
    ||| u == 0x3000
}

/// A text is blank when trimming its whitespace leaves nothing.
pub open spec fn is_blank_text(s: Seq<char>) -> bool {
    forall|i: int| 0 <= i < s.len() ==> is_white_space(#[trigger] s[i])
}

/// `pat` occurs in `s` at position `i`.
pub open spec fn occurs_at(s: Seq<char>, pat: Seq<char>, i: int) -> bool {
    &&& 0 <= i
    &&& i + pat.len() <= s.len()
    &&& s.subrange(i, i + pat.len()) == pat
}

/// `pat` occurs somewhere in `s` (the empty pattern occurs in every text).
pub open spec fn contains_text(s: Seq<char>, pat: Seq<char>) -> bool {
    exists|i: int| #[trigger] occurs_at(s, pat, i)
}

/// The text `rep` put before every character of `s` and once more at the end,
/// which is what replacing the empty pattern does.
pub open spec fn insert_everywhere(s: Seq<char>, rep: Seq<char>) -> Seq<char>
    decreases s.len(),
{
    if s.len() == 0 {
        rep
    } else {
        rep + seq![s[0]] + insert_everywhere(s.skip(1), rep)
    }
}

/// Every non-overlapping occurrence of `pat` in `s`, taken from left to right,
/// replaced by `rep` (the behaviour of `str::replace`).
pub open spec fn replace_all(s: Seq<char>, pat: Seq<char>, rep: Seq<char>) -> Seq<char>
    decreases s.len(),
{
    if pat.len() == 0 {
        insert_everywhere(s, rep)
    } else if s.len() == 0 {
        s
    } else if occurs_at(s, pat, 0) {
        rep + replace_all(s.skip(pat.len() as int), pat, rep)
    } else {
        seq![s[0]] + replace_all(s.skip(1), pat, rep)
    }
}

/// What `String::from_utf8_lossy` makes of a byte sequence: the decoded text,
/// with each invalid sequence replaced by U+FFFD.
pub uninterp spec fn utf8_lossy(bytes: Seq<u8>) -> Seq<char>;

// ---------------------------------------------------------------------------
// Trusted items (std functions that vstd does not specify)
// ---------------------------------------------------------------------------

/// `String::push`: appends the character at the end of the string.
#[verifier::external_body]
fn push_char(s: &mut String, c: char)
    ensures
        final(s)@ == old(s)@.push(c),
{
    s.push(c);
}

/// `String::from_utf8_lossy`: a byte sequence that is valid UTF-8 is decoded
/// as such; otherwise the result is named by `utf8_lossy` and nothing more
/// is said of the replacement of the invalid sequences.
#[verifier::external_body]
pub(crate) fn lossy_text(bytes: &[u8]) -> (s: String)
    ensures
        s@ == utf8_lossy(bytes@),
        valid_utf8(bytes@) ==> s@ == decode_utf8(bytes@),
{
    String::from_utf8_lossy(bytes).into_owned()
}

// ---------------------------------------------------------------------------
// Conversions
// ---------------------------------------------------------------------------

/// The characters of `s`, in order.
pub fn chars_of(s: &str) -> (v: Vec<char>)
    ensures
        v@ == s@,
{
    let mut v: Vec<char> = Vec::new();
    for c in it: s.chars()
        invariant
            v@ == it.seq().take(it.index() as int),
    {
        v.push(c);
    }
    v
}

/// The string made of the characters of `v`.
pub fn string_from_chars(v: &Vec<char>) -> (s: String)
    ensures
        s@ == v@,
{
    let mut s = String::new();
    let mut i: usize = 0;
    while i < v.len()
        invariant
            i <= v.len(),
            s@ == v@.take(i as int),
        decreases v.len() - i,
    {
        push_char(&mut s, v[i]);
        assert(v@.take(i + 1) == v@.take(i as int).push(v@[i as int]));
        i = i + 1;
    }
    assert(v@.take(v.len() as int) == v@);
    s
}

/// `a` followed by `b`.
pub fn join_text(a: &str, b: &str) -> (s: String)
    ensures
        s@ == a@ + b@,
{
    let mut s = a.to_owned();
    s.append(b);
    s
}

/// The owned copy of a string slice.
pub fn owned(a: &str) -> (s: String)
    ensures
        s@ == a@,
{
    a.to_owned()
}

/// Equality of two texts.
pub fn same_text(a: &str, b: &str) -> (r: bool)
    ensures
        r == (a@ == b@),
{
    let x = a.to_owned();
    let y = b.to_owned();
    x == y
}

// ---------------------------------------------------------------------------
// Whitespace
// ---------------------------------------------------------------------------

/// `char::is_whitespace`.
pub fn is_white_space_char(c: char) -> (r: bool)
    ensures
        r == is_white_space(c),
{
    let u = c as u32;
    (0x09 <= u && u <= 0x0d) || u == 0x20 || u == 0x85 || u == 0xa0 || u == 0x1680 || (0x2000
        <= u && u <= 0x200a) || u == 0x2028 || u == 0x2029 || u == 0x202f || u == 0x205f || u
        == 0x3000
}

/// `s.trim().is_empty()`: every character of `s` is whitespace.
pub fn is_blank(s: &str) -> (r: bool)
    ensures
        r == is_blank_text(s@),
{
    let v = chars_of(s);
    let mut i: usize = 0;
    while i < v.len()
        invariant
            i <= v.len(),
            v@ == s@,
            forall|j: int| 0 <= j < i ==> is_white_space(#[trigger] v@[j]),
        decreases v.len() - i,
    {
        if !is_white_space_char(v[i]) {
            return false;
        }
        i = i + 1;
    }
    true
}

// ---------------------------------------------------------------------------
// Search and replacement
// ---------------------------------------------------------------------------

/// Whether `pat` occurs in `s` at position `i`.
fn occurs_at_exec(s: &Vec<char>, pat: &Vec<char>, i: usize) -> (r: bool)
    requires
        i <= s.len(),
    ensures
        r == occurs_at(s@, pat@, i as int),
{
    if pat.len() > s.len() - i {
        return false;
    }
    let mut k: usize = 0;
    while k < pat.len()
        invariant
            k <= pat.len(),
            i + pat.len() <= s.len(),
            forall|j: int| 0 <= j < k ==> s@[i + j] == pat@[j],
        decreases pat.len() - k,
    {
        if s[i + k] != pat[k] {
            assert(s@.subrange(i as int, i + pat.len())[k as int] != pat@[k as int]);
            return false;
        }
        k = k + 1;
    }
    assert(s@.subrange(i as int, i + pat.len()) =~= pat@);
    true
}

/// Whether `pat` occurs in `s` (`str::contains`).
pub fn contains(s: &str, pat: &str) -> (r: bool)
    ensures
        r == contains_text(s@, pat@),
{
    let sv = chars_of(s);
    let pv = chars_of(pat);
    let mut i: usize = 0;
    while i < sv.len()
        invariant
            i <= sv.len(),
            sv@ == s@,
            pv@ == pat@,
            forall|j: int| 0 <= j < i ==> !occurs_at(s@, pat@, j),
        decreases sv.len() - i,
    {
        if occurs_at_exec(&sv, &pv, i) {
            return true;
        }
        i = i + 1;
    }
    if occurs_at_exec(&sv, &pv, i) {
        return true;
    }
    assert forall|j: int| !occurs_at(s@, pat@, j) by {
        if 0 <= j && j <= i {
        }
    }
    false
}

proof fn lemma_insert_everywhere_skip(s: Seq<char>, rep: Seq<char>, i: int)
    requires
        0 <= i < s.len(),
    ensures
        insert_everywhere(s.skip(i), rep) == rep + seq![s[i]] + insert_everywhere(
            s.skip(i + 1),
            rep,
        ),
{
    assert(s.skip(i).skip(1) =~= s.skip(i + 1));
}

/// `replace_all` with the empty pattern.
fn insert_everywhere_exec(s: &Vec<char>, rep: &Vec<char>) -> (out: Vec<char>)
    ensures
        out@ == insert_everywhere(s@, rep@),
{
    let mut out: Vec<char> = Vec::new();
    let mut i: usize = 0;
    assert(s@.skip(0) =~= s@);
    while i < s.len()
        invariant
            i <= s.len(),
            out@ + insert_everywhere(s@.skip(i as int), rep@) == insert_everywhere(s@, rep@),
        decreases s.len() - i,
    {
        proof {
            lemma_insert_everywhere_skip(s@, rep@, i as int);
        }
        let ghost before = out@;
        let mut k: usize = 0;
        while k < rep.len()
            invariant
                k <= rep.len(),
                out@ == before + rep@.take(k as int),
            decreases rep.len() - k,
        {
            out.push(rep[k]);
            assert(rep@.take(k + 1) =~= rep@.take(k as int).push(rep@[k as int]));
            k = k + 1;
        }
        assert(rep@.take(rep.len() as int) =~= rep@);
        out.push(s[i]);
        assert(before + (rep@ + seq![s@[i as int]] + insert_everywhere(s@.skip(i + 1), rep@))
            =~= out@ + insert_everywhere(s@.skip(i + 1), rep@));
        i = i + 1;
    }
    let ghost before = out@;
    let mut k: usize = 0;
    while k < rep.len()
        invariant
            k <= rep.len(),
            out@ == before + rep@.take(k as int),
        decreases rep.len() - k,
    {
        out.push(rep[k]);
        assert(rep@.take(k + 1) =~= rep@.take(k as int).push(rep@[k as int]));
        k = k + 1;
    }
    assert(rep@.take(rep.len() as int) =~= rep@);
    out
}

proof fn lemma_replace_step_match(s: Seq<char>, pat: Seq<char>, rep: Seq<char>, i: int)
    requires
        pat.len() > 0,
        0 <= i < s.len(),
        occurs_at(s, pat, i),
    ensures
        replace_all(s.skip(i), pat, rep) == rep + replace_all(s.skip(i + pat.len()), pat, rep),
{
    assert(s.skip(i).subrange(0, pat.len() as int) =~= s.subrange(i, i + pat.len()));
    assert(occurs_at(s.skip(i), pat, 0));
    assert(s.skip(i).skip(pat.len() as int) =~= s.skip(i + pat.len()));
}

proof fn lemma_replace_step_miss(s: Seq<char>, pat: Seq<char>, rep: Seq<char>, i: int)
    requires
        pat.len() > 0,
        0 <= i < s.len(),
        !occurs_at(s, pat, i),
    ensures
        replace_all(s.skip(i), pat, rep) == seq![s[i]] + replace_all(s.skip(i + 1), pat, rep),
{
    if occurs_at(s.skip(i), pat, 0) {
        assert(s.skip(i).subrange(0, pat.len() as int) =~= s.subrange(i, i + pat.len()));
    }
    assert(s.skip(i).skip(1) =~= s.skip(i + 1));
}

/// `replace_all` on character vectors.
fn replace_chars(s: &Vec<char>, pat: &Vec<char>, rep: &Vec<char>) -> (out: Vec<char>)
    ensures
        out@ == replace_all(s@, pat@, rep@),
{
    if pat.len() == 0 {
        return insert_everywhere_exec(s, rep);
    }
    let mut out: Vec<char> = Vec::new();
    let mut i: usize = 0;
    assert(s@.skip(0) =~= s@);
    while i < s.len()
        invariant
            pat.len() > 0,
            i <= s.len(),
            out@ + replace_all(s@.skip(i as int), pat@, rep@) == replace_all(s@, pat@, rep@),
        decreases s.len() - i,
    {
        if occurs_at_exec(s, pat, i) {
            proof {
                lemma_replace_step_match(s@, pat@, rep@, i as int);
            }
            let ghost before = out@;
            let mut k: usize = 0;
            while k < rep.len()
                invariant
                    k <= rep.len(),
                    out@ == before + rep@.take(k as int),
                decreases rep.len() - k,
            {
                out.push(rep[k]);
                assert(rep@.take(k + 1) =~= rep@.take(k as int).push(rep@[k as int]));
                k = k + 1;
            }
            assert(rep@.take(rep.len() as int) =~= rep@);
            assert(before + (rep@ + replace_all(s@.skip(i + pat.len()), pat@, rep@)) =~= out@
                + replace_all(s@.skip(i + pat.len()), pat@, rep@));
            i = i + pat.len();
        } else {
            proof {
                lemma_replace_step_miss(s@, pat@, rep@, i as int);
            }
            let ghost before = out@;
            out.push(s[i]);
            assert(before + (seq![s@[i as int]] + replace_all(s@.skip(i + 1), pat@, rep@))
                =~= out@ + replace_all(s@.skip(i + 1), pat@, rep@));
            i = i + 1;
        }
    }
    assert(s@.skip(i as int) =~= Seq::<char>::empty());
    assert(out@ + Seq::<char>::empty() =~= out@);
    out
}

/// `s.replace(pat, rep)`: every non-overlapping occurrence of `pat`, from left
/// to right, replaced by `rep`.
pub fn replace(s: &str, pat: &str, rep: &str) -> (r: String)
    ensures
        r@ == replace_all(s@, pat@, rep@),
{
    let sv = chars_of(s);
    let pv = chars_of(pat);
    let rv = chars_of(rep);
    let out = replace_chars(&sv, &pv, &rv);
    string_from_chars(&out)
}

// ---------------------------------------------------------------------------
// Properties of replacement
// ---------------------------------------------------------------------------

proof fn lemma_insert_nothing(s: Seq<char>)
    ensures
        insert_everywhere(s, Seq::empty()) == s,
    decreases s.len(),
{
    if s.len() > 0 {
        lemma_insert_nothing(s.skip(1));
        assert(Seq::<char>::empty() + seq![s[0]] + s.skip(1) =~= s);
    }
}

/// Replacing a text by itself leaves every text as it was.
pub proof fn lemma_replace_by_itself(s: Seq<char>, pat: Seq<char>)
    ensures
        replace_all(s, pat, pat) == s,
    decreases s.len(),
{
    if pat.len() == 0 {
        assert(pat =~= Seq::<char>::empty());
        lemma_insert_nothing(s);
    } else if s.len() == 0 {
    } else if occurs_at(s, pat, 0) {
        lemma_replace_by_itself(s.skip(pat.len() as int), pat);
        assert(s.subrange(0, pat.len() as int) + s.skip(pat.len() as int) =~= s);
    } else {
        lemma_replace_by_itself(s.skip(1), pat);
        assert(seq![s[0]] + s.skip(1) =~= s);
    }
}

/// A text in which a non-empty pattern does not occur is left as it is.
pub proof fn lemma_replace_absent(s: Seq<char>, pat: Seq<char>, rep: Seq<char>)
    requires
        pat.len() > 0,
        !contains_text(s, pat),
    ensures
        replace_all(s, pat, rep) == s,
    decreases s.len(),
{
    if s.len() > 0 {
        assert(!occurs_at(s, pat, 0));
        assert forall|i: int| !occurs_at(s.skip(1), pat, i) by {
            if occurs_at(s.skip(1), pat, i) {
                assert(s.skip(1).subrange(i, i + pat.len()) =~= s.subrange(i + 1, i + 1 + pat.len()));
                assert(occurs_at(s, pat, i + 1));
            }
        }
        lemma_replace_absent(s.skip(1), pat, rep);
        assert(seq![s[0]] + s.skip(1) =~= s);
    }
}

proof fn lemma_insert_keeps_out(s: Seq<char>, rep: Seq<char>, c: char)
    requires
        !s.contains(c),
        !rep.contains(c),
    ensures
        !insert_everywhere(s, rep).contains(c),
    decreases s.len(),
{
    if s.len() > 0 {
        assert(!s.skip(1).contains(c)) by {
            if s.skip(1).contains(c) {
                let i = choose|i: int| 0 <= i < s.skip(1).len() && s.skip(1)[i] == c;
                assert(s[i + 1] == c);
            }
        }
        lemma_insert_keeps_out(s.skip(1), rep, c);
        let t = insert_everywhere(s.skip(1), rep);
        let whole = rep + seq![s[0]] + t;
        assert(!whole.contains(c)) by {
            if whole.contains(c) {
                let i = choose|i: int| 0 <= i < whole.len() && whole[i] == c;
                if i < rep.len() {
                    assert(rep[i] == c);
                } else if i == rep.len() {
                    assert(s[0] == c);
                } else {
                    assert(t[i - rep.len() - 1] == c);
                }
            }
        }
    }
}

/// A character that occurs neither in the text nor in the replacement does
/// not occur in the result of the replacement.
pub proof fn lemma_replace_keeps_out(s: Seq<char>, pat: Seq<char>, rep: Seq<char>, c: char)
    requires
        !s.contains(c),
        !rep.contains(c),
    ensures
        !replace_all(s, pat, rep).contains(c),
    decreases s.len(),
{
    if pat.len() == 0 {
        lemma_insert_keeps_out(s, rep, c);
    } else if s.len() == 0 {
    } else if occurs_at(s, pat, 0) {
        let rest = s.skip(pat.len() as int);
        assert(!rest.contains(c)) by {
            if rest.contains(c) {
                let i = choose|i: int| 0 <= i < rest.len() && rest[i] == c;
                assert(s[i + pat.len()] == c);
            }
        }
        lemma_replace_keeps_out(rest, pat, rep, c);
        let t = replace_all(rest, pat, rep);
        assert(!(rep + t).contains(c)) by {
            if (rep + t).contains(c) {
                let i = choose|i: int| 0 <= i < (rep + t).len() && (rep + t)[i] == c;
                if i < rep.len() {
                    assert(rep[i] == c);
                } else {
                    assert(t[i - rep.len()] == c);
                }
            }
        }
    } else {
        let rest = s.skip(1);
        assert(!rest.contains(c)) by {
            if rest.contains(c) {
                let i = choose|i: int| 0 <= i < rest.len() && rest[i] == c;
                assert(s[i + 1] == c);
            }
        }
        lemma_replace_keeps_out(rest, pat, rep, c);
        let t = replace_all(rest, pat, rep);
        assert(!(seq![s[0]] + t).contains(c)) by {
            if (seq![s[0]] + t).contains(c) {
                let i = choose|i: int| 0 <= i < (seq![s[0]] + t).len() && (seq![s[0]] + t)[i] == c;
                if i == 0 {
                    assert(s[0] == c);
                } else {
                    assert(t[i - 1] == c);
                }
            }
        }
    }
}

/// Replacing every occurrence of a character by a text that does not hold
/// it removes the character.
pub proof fn lemma_replace_removes_char(s: Seq<char>, c: char, rep: Seq<char>)
    requires
        !rep.contains(c),
    ensures
        !replace_all(s, seq![c], rep).contains(c),
    decreases s.len(),
{
    if s.len() > 0 {
        if occurs_at(s, seq![c], 0) {
            lemma_replace_removes_char(s.skip(1), c, rep);
            let t = replace_all(s.skip(1), seq![c], rep);
            assert(!(rep + t).contains(c)) by {
                if (rep + t).contains(c) {
                    let i = choose|i: int| 0 <= i < (rep + t).len() && (rep + t)[i] == c;
                    if i < rep.len() {
                        assert(rep[i] == c);
                    } else {
                        assert(t[i - rep.len()] == c);
                    }
                }
            }
        } else {
            assert(s[0] != c) by {
                if s[0] == c {
                    assert(s.subrange(0, 1) =~= seq![c]);
                }
            }
            lemma_replace_removes_char(s.skip(1), c, rep);
            let t = replace_all(s.skip(1), seq![c], rep);
            assert(!(seq![s[0]] + t).contains(c)) by {
                if (seq![s[0]] + t).contains(c) {
                    let i = choose|i: int| 0 <= i < (seq![s[0]] + t).len() && (seq![s[0]] + t)[i]
                        == c;
                    if i == 0 {
                    } else {
                        assert(t[i - 1] == c);
                    }
                }
            }
        }
    }
}

/// A pattern placed between any two texts occurs in the result, right after
/// the first text, whatever characters it holds (line breaks included).
pub proof fn lemma_occurrence_between(x: Seq<char>, pat: Seq<char>, y: Seq<char>)
    ensures
        occurs_at(x + pat + y, pat, x.len() as int),
        contains_text(x + pat + y, pat),
{
    let s = x + pat + y;
    assert(s.subrange(x.len() as int, (x.len() + pat.len()) as int) =~= pat);
}

/// A text that begins with a non-empty pattern has that occurrence replaced
/// first, whatever characters the pattern holds.
pub proof fn lemma_replace_leading(pat: Seq<char>, y: Seq<char>, rep: Seq<char>)
    requires
        pat.len() > 0,
    ensures
        replace_all(pat + y, pat, rep) == rep + replace_all(y, pat, rep),
{
    let s = pat + y;
    lemma_occurrence_between(Seq::empty(), pat, y);
    assert(Seq::<char>::empty() + pat + y =~= s);
    assert(s.skip(pat.len() as int) =~= y);
}

} // verus!
