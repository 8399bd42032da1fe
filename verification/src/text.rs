//! Text helpers on the character view of strings: substring search and the
//! line-break rewriting used when a server log is shown in a web page.
use vstd::prelude::*;

verus! {

/// `p` occurs in `s` as a contiguous run of characters.
pub open spec fn has_substring(s: Seq<char>, p: Seq<char>) -> bool {
    exists|i: int| 0 <= i <= s.len() - p.len() && #[trigger] s.subrange(i, i + p.len()) == p
}

/// `s` with every newline written as the HTML break `<br/>`.
pub open spec fn newlines_as_breaks(s: Seq<char>) -> Seq<char>
    decreases s.len(),
{
    if s.len() == 0 {
        Seq::empty()
    } else {
        newlines_as_breaks(s.drop_last()) + (if s.last() == '\n' {
            "<br/>"@
        } else {
            seq![s.last()]
        })
    }
}

/// Whether two strings hold the same characters.
pub fn same_text(a: &str, b: &str) -> (r: bool)
    ensures
        r == (a@ == b@),
{
    let x = String::from_str(a);
    let y = String::from_str(b);
    x.eq(&y)
}

/// Appends one character to a string.
#[verifier::external_body]
fn push_char(s: &mut String, c: char)
    ensures
        final(s)@ == old(s)@.push(c),
{
    s.push(c);
}

/// The characters of `s`, in order.
pub fn chars_of(s: &str) -> (v: Vec<char>)
    ensures
        v@ == s@,
{
    let ghost whole = s@;
    let mut it = s.chars();
    let mut v: Vec<char> = Vec::new();
    proof {
        assert(vstd::std_specs::iter::IteratorSpec::remaining(&it) == whole);
    }
    loop
        invariant
            whole == s@,
            vstd::std_specs::iter::IteratorSpec::obeys_prophetic_iter_laws(&it),
            v@ + vstd::std_specs::iter::IteratorSpec::remaining(&it) == whole,
        decreases whole.len() - v.len(),
    {
        let ghost before = vstd::std_specs::iter::IteratorSpec::remaining(&it);
        match it.next() {
            Some(c) => {
                v.push(c);
                assert(v@ + vstd::std_specs::iter::IteratorSpec::remaining(&it) =~= whole) by {
                    assert(before =~= seq![c] + vstd::std_specs::iter::IteratorSpec::remaining(&it));
                }
            },
            None => {
                assert(v@ =~= whole);
                return v;
            },
        }
    }
}

/// Whether `p` occurs in `s` (what `str::contains` answers for a string pattern).
pub fn contains(s: &str, p: &str) -> (b: bool)
    ensures
        b == has_substring(s@, p@),
{
    let sv = chars_of(s);
    let pv = chars_of(p);
    let n = sv.len();
    let m = pv.len();
    if m > n {
        return false;
    }
    let mut i: usize = 0;
    while i <= n - m
        invariant
            sv@ == s@,
            pv@ == p@,
            n == sv.len(),
            m == pv.len(),
            m <= n,
            i <= n - m,
            forall|j: int| 0 <= j < i ==> #[trigger] s@.subrange(j, j + m) != p@,
        ensures
            forall|j: int| 0 <= j <= n - m ==> #[trigger] s@.subrange(j, j + m) != p@,
        decreases n - m - i,
    {
        let mut k: usize = 0;
        let mut same = true;
        while k < m
            invariant
                sv@ == s@,
                pv@ == p@,
                n == sv.len(),
                m == pv.len(),
                i + m <= n,
                k <= m,
                same ==> forall|t: int| 0 <= t < k ==> sv@[i + t] == pv@[t],
                !same ==> s@.subrange(i as int, i + m) != p@,
            decreases m - k,
        {
            if sv[i + k] != pv[k] {
                assert(s@.subrange(i as int, i + m)[k as int] == sv@[i + k]);
                same = false;
            }
            k = k + 1;
        }
        if same {
            assert(s@.subrange(i as int, i + m) =~= p@);
            return true;
        }
        if i == n - m {
            break;
        }
        i = i + 1;
    }
    proof {
        assert forall|j: int| 0 <= j <= s@.len() - p@.len() implies #[trigger] s@.subrange(j, j + p@.len()) != p@ by {
            assert(j <= n - m);
        }
    }
    false
}

/// `s` with each newline replaced by `<br/>`, as `s.replace("\n", "<br/>")` gives.
pub fn newlines_to_breaks(s: &str) -> (r: String)
    ensures
        r@ == newlines_as_breaks(s@),
{
    let sv = chars_of(s);
    let mut r = String::new();
    let mut i: usize = 0;
    proof {
        reveal_strlit("<br/>");
        assert(sv@.take(0) =~= Seq::<char>::empty());
    }
    while i < sv.len()
        invariant
            i <= sv.len(),
            sv@ == s@,
            r@ == newlines_as_breaks(sv@.take(i as int)),
        decreases sv.len() - i,
    {
        let c = sv[i];
        proof {
            reveal_strlit("<br/>");
            assert(sv@.take(i + 1).drop_last() =~= sv@.take(i as int));
        }
        if c == '\n' {
            push_char(&mut r, '<');
            push_char(&mut r, 'b');
            push_char(&mut r, 'r');
            push_char(&mut r, '/');
            push_char(&mut r, '>');
            assert(r@ =~= newlines_as_breaks(sv@.take(i as int)) + "<br/>"@);
        } else {
            push_char(&mut r, c);
            assert(r@ =~= newlines_as_breaks(sv@.take(i as int)) + seq![c]);
        }
        i = i + 1;
    }
    assert(sv@.take(sv.len() as int) =~= sv@);
    r
}


/// A log shown as HTML holds no newline: each became a `<br/>`.
pub proof fn lemma_breaks_leave_no_newline(s: Seq<char>)
    ensures
        !newlines_as_breaks(s).contains('\n'),
    decreases s.len(),
{
    reveal_strlit("<br/>");
    if s.len() > 0 {
        lemma_breaks_leave_no_newline(s.drop_last());
        let before = newlines_as_breaks(s.drop_last());
        let piece = if s.last() == '\n' {
            "<br/>"@
        } else {
            seq![s.last()]
        };
        assert forall|i: int| 0 <= i < newlines_as_breaks(s).len() implies newlines_as_breaks(s)[i]
            != '\n' by {
            if i >= before.len() {
                assert(newlines_as_breaks(s)[i] == piece[i - before.len()]);
            } else {
                assert(newlines_as_breaks(s)[i] == before[i]);
            }
        }
    }
}

/// Text without newlines is shown as it is.
pub proof fn lemma_breaks_keep_single_lines(s: Seq<char>)
    requires
        !s.contains('\n'),
    ensures
        newlines_as_breaks(s) == s,
    decreases s.len(),
{
    if s.len() > 0 {
        assert(!s.drop_last().contains('\n')) by {
            if s.drop_last().contains('\n') {
                let i = choose|i: int| 0 <= i < s.drop_last().len() && s.drop_last()[i] == '\n';
                assert(s[i] == '\n');
            }
        }
        lemma_breaks_keep_single_lines(s.drop_last());
        assert(s.last() != '\n') by {
            assert(s[s.len() - 1] == s.last());
        }
        assert(s.drop_last() + seq![s.last()] =~= s);
    }
}


/// Rewriting line breaks works piece by piece: the rewriting of two texts
/// joined is the two rewritings joined.
pub proof fn lemma_breaks_distribute(a: Seq<char>, b: Seq<char>)
    ensures
        newlines_as_breaks(a + b) == newlines_as_breaks(a) + newlines_as_breaks(b),
    decreases b.len(),
{
    if b.len() == 0 {
        assert(a + b =~= a);
        assert(newlines_as_breaks(b) =~= Seq::<char>::empty());
        assert(newlines_as_breaks(a) + newlines_as_breaks(b) =~= newlines_as_breaks(a));
    } else {
        lemma_breaks_distribute(a, b.drop_last());
        assert((a + b).drop_last() =~= a + b.drop_last());
        assert((a + b).last() == b.last());
        let piece = if b.last() == '\n' {
            "<br/>"@
        } else {
            seq![b.last()]
        };
        assert(newlines_as_breaks(a + b) =~= newlines_as_breaks(a) + newlines_as_breaks(b.drop_last())
            + piece);
    }
}

/// A newline is written as `<br/>`, and any other character as itself.
pub proof fn lemma_breaks_of_one_char(c: char)
    ensures
        newlines_as_breaks(seq![c]) == (if c == '\n' {
            "<br/>"@
        } else {
            seq![c]
        }),
{
    assert(seq![c].drop_last() =~= Seq::<char>::empty());
    assert(newlines_as_breaks(seq![c].drop_last()) =~= Seq::<char>::empty());
    assert(seq![c].last() == c);
    assert(Seq::<char>::empty() + seq![c] =~= seq![c]);
    assert(Seq::<char>::empty() + "<br/>"@ =~= "<br/>"@);
}

/// Every character counts once, and every newline four more: the rewriting
/// is as long as the text plus four for each newline in it.
pub proof fn lemma_breaks_length(s: Seq<char>)
    ensures
        newlines_as_breaks(s).len() == s.len() + 4 * s.filter(|c: char| c == '\n').len(),
    decreases s.len(),
{
    reveal_strlit("<br/>");
    reveal_with_fuel(Seq::filter, 1);
    if s.len() > 0 {
        lemma_breaks_length(s.drop_last());
    }
}

} // verus!
