//! Text utilities shared by the surrounding application.

use vstd::prelude::*;
use vstd::std_specs::iter::IteratorSpec;

verus! {

broadcast use vstd::string::next_postcondition, vstd::string::axiom_spec_iter;

/// A Unicode whitespace character: the White_Space code points.
pub open spec fn spec_is_space(c: char) -> bool {
    let v = c as u32;
    ||| v == 0x09
    ||| v == 0x0A
    ||| v == 0x0B
    ||| v == 0x0C
    ||| v == 0x0D
    ||| v == 0x20
    ||| v == 0x85
    ||| v == 0xA0
    ||| v == 0x1680
    ||| (0x2000 <= v && v <= 0x200A)
    ||| v == 0x2028
    ||| v == 0x2029
    ||| v == 0x202F
    ||| v == 0x205F
    ||| v == 0x3000
}

/// Executable Unicode whitespace test; see [`spec_is_space`].
fn is_space(c: char) -> (r: bool)
    ensures
        r == spec_is_space(c),
{
    let v = c as u32;
    v == 0x09 || v == 0x0A || v == 0x0B || v == 0x0C || v == 0x0D || v == 0x20 || v == 0x85 || v
        == 0xA0 || v == 0x1680 || (0x2000 <= v && v <= 0x200A) || v == 0x2028 || v == 0x2029 || v
        == 0x202F || v == 0x205F || v == 0x3000
}

/// The state of the tag-stripping scan: inside a tag, a space owed
/// before the next visible character, and the output so far.
#[verifier::ext_equal]
pub struct StripState {
    pub in_tag: bool,
    pub pending: bool,
    pub out: Seq<char>,
}

/// The scan's starting state.
pub open spec fn strip_init() -> StripState {
    StripState { in_tag: false, pending: false, out: Seq::empty() }
}

/// One character consumed by the tag-stripping scan. Tag content is
/// dropped; whitespace runs and tag boundaries collapse to a single
/// space between visible characters; the output never begins or ends
/// with a space.
pub open spec fn strip_step(st: StripState, c: char) -> StripState {
    if c == '<' {
        StripState { in_tag: true, ..st }
    } else if c == '>' {
        StripState { in_tag: false, pending: true, ..st }
    } else if st.in_tag {
        st
    } else if spec_is_space(c) {
        if st.out.len() > 0 {
            StripState { pending: true, ..st }
        } else {
            st
        }
    } else {
        let out1 = if st.pending && st.out.len() > 0 {
            st.out.push(' ')
        } else {
            st.out
        };
        StripState { in_tag: false, pending: false, out: out1.push(c) }
    }
}

/// The scan folded over a character sequence.
pub open spec fn strip_fold(st: StripState, cs: Seq<char>) -> StripState
    decreases cs.len(),
{
    if cs.len() == 0 {
        st
    } else {
        strip_fold(strip_step(st, cs[0]), cs.drop_first())
    }
}

/// What stripping the markup from a text yields.
pub open spec fn spec_strip(cs: Seq<char>) -> Seq<char> {
    strip_fold(strip_init(), cs).out
}

proof fn lemma_strip_fold_snoc(st0: StripState, cs: Seq<char>, i: int)
    requires
        0 <= i < cs.len(),
    ensures
        strip_fold(st0, cs.take(i + 1)) == strip_step(strip_fold(st0, cs.take(i)), cs[i]),
    decreases i,
{
    if i == 0 {
        let t1 = cs.take(1);
        assert(t1.len() == 1);
        assert(t1[0] == cs[0]);
        assert(t1.drop_first() =~= Seq::<char>::empty());
        assert(strip_fold(st0, t1) == strip_fold(strip_step(st0, cs[0]), t1.drop_first()));
        assert(cs.take(0).len() == 0);
    } else {
        let st1 = strip_step(st0, cs[0]);
        let rest = cs.drop_first();
        assert(cs.take(i + 1).len() == i + 1);
        assert(cs.take(i + 1)[0] == cs[0]);
        assert(cs.take(i + 1).drop_first() =~= rest.take(i));
        assert(strip_fold(st0, cs.take(i + 1)) == strip_fold(st1, rest.take(i)));
        assert(cs.take(i).len() == i);
        assert(cs.take(i)[0] == cs[0]);
        assert(cs.take(i).drop_first() =~= rest.take(i - 1));
        assert(strip_fold(st0, cs.take(i)) == strip_fold(st1, rest.take(i - 1)));
        lemma_strip_fold_snoc(st1, rest, i - 1);
        assert(rest[i - 1] == cs[i]);
    }
}

/// The output of the scan never begins or ends with a space.
pub open spec fn strip_out_trimmed(out: Seq<char>) -> bool {
    out.len() > 0 ==> out[0] != ' ' && out[out.len() - 1] != ' '
}

proof fn lemma_strip_fold_trimmed(st: StripState, cs: Seq<char>)
    requires
        strip_out_trimmed(st.out),
    ensures
        strip_out_trimmed(strip_fold(st, cs).out),
    decreases cs.len(),
{
    if cs.len() > 0 {
        let st1 = strip_step(st, cs[0]);
        assert(strip_out_trimmed(st1.out));
        lemma_strip_fold_trimmed(st1, cs.drop_first());
    }
}

/// Relies on `String::push`: appends exactly one character.
#[verifier::external_body]
fn push_char(s: &mut String, c: char)
    ensures
        final(s)@ == old(s)@.push(c),
{
    s.push(c);
}

/// Strips markup tags from a string, returning the plain text.
///
/// Everything between `<` and `>` is removed; whitespace runs and tag
/// boundaries collapse to a single space between visible characters;
/// the result carries no leading or trailing spaces. The exact behavior
/// is [`spec_strip`].
pub fn strip_html_tags(html: &str) -> (r: String)
    ensures
        r@ == spec_strip(html@),
        strip_out_trimmed(r@),
{
    let mut out = String::new();
    let mut in_tag = false;
    let mut pending = false;
    let mut it = html.chars();
    let ghost mut k: int = 0;
    proof {
        assert(html@.take(0) =~= Seq::<char>::empty());
        assert(html@.skip(0) =~= html@);
    }
    loop
        invariant
            0 <= k <= html@.len(),
            it.remaining() == html@.skip(k),
            ({
                let st = strip_fold(strip_init(), html@.take(k));
                st.in_tag == in_tag && st.pending == pending && st.out == out@
            }),
        ensures
            ({
                let st = strip_fold(strip_init(), html@);
                st.out == out@
            }),
        decreases html@.len() - k,
    {
        let ghost st_pre = strip_fold(strip_init(), html@.take(k));
        match it.next() {
            Some(c) => {
                proof {
                    assert(html@.skip(k)[0] == html@[k]);
                    assert(html@.skip(k).drop_first() =~= html@.skip(k + 1));
                }
                if c == '<' {
                    in_tag = true;
                } else if c == '>' {
                    in_tag = false;
                    pending = true;
                } else if in_tag {
                } else if is_space(c) {
                    if !out.as_str().is_empty() {
                        pending = true;
                    }
                } else {
                    if pending && !out.as_str().is_empty() {
                        push_char(&mut out, ' ');
                    }
                    pending = false;
                    push_char(&mut out, c);
                }
                proof {
                    lemma_strip_fold_snoc(strip_init(), html@, k);
                    assert(strip_fold(strip_init(), html@.take(k + 1)) == strip_step(st_pre, c));
                    k = k + 1;
                }
            },
            None => {
                proof {
                    assert(html@.skip(k).len() == 0);
                    assert(html@.take(k) =~= html@);
                }
                break ;
            },
        }
    }
    proof {
        lemma_strip_fold_trimmed(strip_init(), html@);
    }
    out
}

} // verus!
