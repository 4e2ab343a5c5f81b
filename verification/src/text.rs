//! Small operations on text that the rest of the library is built from.

use vstd::prelude::*;
use vstd::string::*;
use vstd::utf8::*;
use vstd::relations::*;

verus! {

/// What an optional string holds.
pub open spec fn opt_text(text: Option<String>) -> Option<Seq<char>> {
    match text {
        Some(t) => Some(t@),
        None => None,
    }
}

/// The given string, or the empty one.
pub open spec fn text_or_empty(text: Option<Seq<char>>) -> Seq<char> {
    match text {
        Some(t) => t,
        None => Seq::empty(),
    }
}

/// The parts written one after another with `sep` between neighbours.
pub open spec fn joined(parts: Seq<Seq<char>>, sep: Seq<char>) -> Seq<char>
    decreases parts.len(),
{
    if parts.len() == 0 {
        Seq::empty()
    } else if parts.len() == 1 {
        parts[0]
    } else {
        joined(parts.drop_last(), sep) + sep + parts.last()
    }
}

/// `text` without its leading and trailing white space, as `str::trim` of the
/// standard library gives it.
pub uninterp spec fn trimmed(text: Seq<char>) -> Seq<char>;

/// Calls `str::trim`. Trusted: the result is what [`trimmed`] names.
#[verifier::external_body]
fn trim(text: &str) -> (out: &str)
    ensures
        out@ == trimmed(text@),
{
    text.trim()
}

/// Whether `answer` holds nothing but white space.
pub open spec fn blank(answer: Seq<char>) -> bool {
    trimmed(answer).len() == 0
}

/// Tells whether `answer` holds nothing but white space.
pub fn is_blank(answer: &str) -> (out: bool)
    ensures
        out == blank(answer@),
{
    trim(answer).is_empty()
}

/// A copy of an optional string, or the empty string where there is none.
pub fn or_empty(text: &Option<String>) -> (out: String)
    ensures
        out@ == text_or_empty(opt_text(*text)),
{
    match text {
        Some(t) => t.clone(),
        None => String::new(),
    }
}

/// A copy of an optional string.
pub fn copy_opt(text: &Option<String>) -> (out: Option<String>)
    ensures
        opt_text(out) == opt_text(*text),
{
    match text {
        Some(t) => Some(t.clone()),
        None => None,
    }
}

/// A copy of a list of strings.
pub fn copy_all(list: &Vec<String>) -> (out: Vec<String>)
    ensures
        out.deep_view() == list.deep_view(),
{
    let mut out: Vec<String> = Vec::new();
    let mut i: usize = 0;
    while i < list.len()
        invariant
            i <= list.len(),
            out.len() == i,
            forall|j: int| 0 <= j < i ==> out[j]@ == list[j]@,
        decreases list.len() - i,
    {
        out.push(list[i].clone());
        i = i + 1;
    }
    assert(out.deep_view() =~= list.deep_view());
    out
}

/// `head` followed by `tail`.
pub fn concat2(head: &str, tail: &str) -> (out: String)
    ensures
        out@ == head@ + tail@,
{
    head.to_owned().concat(tail)
}

/// Joins `parts` with `sep` between neighbours.
pub fn join(parts: &Vec<String>, sep: &str) -> (out: String)
    ensures
        out@ == joined(parts.deep_view(), sep@),
{
    let mut out = String::new();
    let mut i: usize = 0;
    while i < parts.len()
        invariant
            i <= parts.len(),
            out@ == joined(parts.deep_view().take(i as int), sep@),
        decreases parts.len() - i,
    {
        let ghost before = parts.deep_view().take(i as int);
        let ghost after = parts.deep_view().take(i + 1);
        assert(after.drop_last() =~= before);
        assert(after.last() == parts[i as int]@);
        if i > 0 {
            out.append(sep);
        } else {
            assert(out@ + parts[i as int]@ =~= parts[i as int]@);
        }
        out.append(parts[i].as_str());
        i = i + 1;
    }
    assert(parts.deep_view().take(parts.len() as int) =~= parts.deep_view());
    out
}

/// Lexicographic order on byte strings: `a` is a prefix of `b`, or at the
/// first place where they differ `a` holds the smaller byte.
pub open spec fn bytes_le(a: Seq<u8>, b: Seq<u8>) -> bool {
    ||| (a.len() <= b.len() && a =~= b.take(a.len() as int))
    ||| exists|k: int|
        0 <= k < a.len() && k < b.len() && a.take(k) =~= b.take(k) && a[k] < #[trigger] b[k]
}

/// The order of strings: by their bytes in UTF-8.
pub open spec fn text_le(a: Seq<char>, b: Seq<char>) -> bool {
    bytes_le(encode_utf8(a), encode_utf8(b))
}

/// The order of strings as a relation.
pub open spec fn text_order() -> spec_fn(Seq<char>, Seq<char>) -> bool {
    |a: Seq<char>, b: Seq<char>| text_le(a, b)
}

/// Each string is no later than the strings that follow it.
pub open spec fn ascending(list: Seq<Seq<char>>) -> bool {
    sorted_by(list, text_order())
}

/// The strings of `list` in ascending order.
pub open spec fn in_order(list: Seq<Seq<char>>) -> Seq<Seq<char>> {
    list.sort_by(text_order())
}

/// Of two byte strings one comes no later than the other.
pub proof fn lemma_bytes_le_total(a: Seq<u8>, b: Seq<u8>)
    ensures
        bytes_le(a, b) || bytes_le(b, a),
{
    let k = first_difference(a, b, 0);
    lemma_first_difference(a, b, 0);
    if k < a.len() && k < b.len() {
        if a[k] < b[k] {
            assert(bytes_le(a, b));
        } else {
            assert(b[k] < a[k]);
            assert(b.take(k) =~= a.take(k));
            assert(bytes_le(b, a));
        }
    } else if k == a.len() {
        assert(a =~= a.take(k));
    } else {
        assert(b =~= b.take(k));
        assert(b.take(k) =~= a.take(k));
    }
}

/// The order on byte strings is transitive.
pub proof fn lemma_bytes_le_transitive(a: Seq<u8>, b: Seq<u8>, c: Seq<u8>)
    requires
        bytes_le(a, b),
        bytes_le(b, c),
    ensures
        bytes_le(a, c),
{
    let ab_prefix = a.len() <= b.len() && a =~= b.take(a.len() as int);
    let bc_prefix = b.len() <= c.len() && b =~= c.take(b.len() as int);
    if ab_prefix && bc_prefix {
        assert(a =~= c.take(a.len() as int));
    } else if ab_prefix {
        let k = choose|k: int|
            0 <= k < b.len() && k < c.len() && b.take(k) =~= c.take(k) && b[k] < #[trigger] c[k];
        if k < a.len() {
            assert(a.take(k) =~= b.take(k)) by {
                assert forall|i: int| 0 <= i < k implies a.take(k)[i] == b.take(k)[i] by {
                    assert(a[i] == b.take(a.len() as int)[i]);
                }
            }
            assert(a[k] == b.take(a.len() as int)[k]);
            assert(a.take(k) =~= c.take(k));
            assert(a[k] < c[k]);
        } else {
            assert(a =~= c.take(a.len() as int)) by {
                assert forall|i: int| 0 <= i < a.len() implies a[i] == c[i] by {
                    assert(a[i] == b.take(a.len() as int)[i]);
                    assert(b[i] == b.take(k)[i]);
                    assert(c[i] == c.take(k)[i]);
                }
            }
        }
    } else if bc_prefix {
        let k = choose|k: int|
            0 <= k < a.len() && k < b.len() && a.take(k) =~= b.take(k) && a[k] < #[trigger] b[k];
        assert(b[k] == c.take(b.len() as int)[k]);
        assert(a.take(k) =~= c.take(k)) by {
            assert forall|i: int| 0 <= i < k implies a.take(k)[i] == c.take(k)[i] by {
                assert(a[i] == a.take(k)[i]);
                assert(b[i] == b.take(k)[i]);
                assert(b[i] == c.take(b.len() as int)[i]);
            }
        }
        assert(a[k] < c[k]);
    } else {
        let k1 = choose|k: int|
            0 <= k < a.len() && k < b.len() && a.take(k) =~= b.take(k) && a[k] < #[trigger] b[k];
        let k2 = choose|k: int|
            0 <= k < b.len() && k < c.len() && b.take(k) =~= c.take(k) && b[k] < #[trigger] c[k];
        let k = if k1 <= k2 {
            k1
        } else {
            k2
        };
        assert(a.take(k) =~= c.take(k)) by {
            assert forall|i: int| 0 <= i < k implies a.take(k)[i] == c.take(k)[i] by {
                assert(a[i] == a.take(k1)[i]);
                assert(b[i] == b.take(k1)[i]);
                assert(b[i] == b.take(k2)[i]);
                assert(c[i] == c.take(k2)[i]);
            }
        }
        if k1 < k2 {
            assert(b[k1] == b.take(k2)[k1]);
            assert(c[k1] == c.take(k2)[k1]);
        } else if k2 < k1 {
            assert(a[k2] == a.take(k1)[k2]);
            assert(b[k2] == b.take(k1)[k2]);
        }
        assert(a[k] < c[k]);
    }
}

/// Two byte strings that each come no later than the other are equal.
pub proof fn lemma_bytes_le_antisymmetric(a: Seq<u8>, b: Seq<u8>)
    requires
        bytes_le(a, b),
        bytes_le(b, a),
    ensures
        a == b,
{
    let ab_prefix = a.len() <= b.len() && a =~= b.take(a.len() as int);
    let ba_prefix = b.len() <= a.len() && b =~= a.take(b.len() as int);
    if ab_prefix && ba_prefix {
        assert(a =~= b);
    } else if ab_prefix {
        let k = choose|k: int|
            0 <= k < b.len() && k < a.len() && b.take(k) =~= a.take(k) && b[k] < #[trigger] a[k];
        assert(a[k] == b.take(a.len() as int)[k]);
    } else if ba_prefix {
        let k = choose|k: int|
            0 <= k < a.len() && k < b.len() && a.take(k) =~= b.take(k) && a[k] < #[trigger] b[k];
        assert(b[k] == a.take(b.len() as int)[k]);
    } else {
        let k1 = choose|k: int|
            0 <= k < a.len() && k < b.len() && a.take(k) =~= b.take(k) && a[k] < #[trigger] b[k];
        let k2 = choose|k: int|
            0 <= k < b.len() && k < a.len() && b.take(k) =~= a.take(k) && b[k] < #[trigger] a[k];
        if k1 < k2 {
            assert(a[k1] == a.take(k2)[k1]);
            assert(b[k1] == b.take(k2)[k1]);
        } else if k2 < k1 {
            assert(a[k2] == a.take(k1)[k2]);
            assert(b[k2] == b.take(k1)[k2]);
        }
    }
}

/// The order of strings is a total order: any two strings compare, and only
/// equal strings compare both ways.
pub proof fn lemma_text_order_total()
    ensures
        total_ordering(text_order()),
{
    let r = text_order();
    assert forall|x: Seq<char>| #[trigger] r(x, x) by {
        let e = encode_utf8(x);
        assert(e =~= e.take(e.len() as int));
    }
    assert forall|x: Seq<char>, y: Seq<char>| #[trigger] r(x, y) && #[trigger] r(y, x) implies x
        == y by {
        lemma_bytes_le_antisymmetric(encode_utf8(x), encode_utf8(y));
        encode_utf8_decode_utf8(x);
        encode_utf8_decode_utf8(y);
    }
    assert forall|x: Seq<char>, y: Seq<char>, z: Seq<char>| #[trigger]
        r(x, y) && #[trigger] r(y, z) implies r(x, z) by {
        lemma_bytes_le_transitive(encode_utf8(x), encode_utf8(y), encode_utf8(z));
    }
    assert forall|x: Seq<char>, y: Seq<char>| #[trigger] r(x, y) || #[trigger] r(y, x) by {
        lemma_bytes_le_total(encode_utf8(x), encode_utf8(y));
    }
}

/// The first place from `from` on where `a` and `b` differ or one of them ends.
spec fn first_difference(a: Seq<u8>, b: Seq<u8>, from: int) -> int
    decreases a.len() - from,
{
    if 0 <= from < a.len() && from < b.len() && a[from] == b[from] {
        first_difference(a, b, from + 1)
    } else {
        from
    }
}

proof fn lemma_first_difference(a: Seq<u8>, b: Seq<u8>, from: int)
    requires
        0 <= from <= a.len(),
        from <= b.len(),
        a.take(from) =~= b.take(from),
    ensures
        from <= first_difference(a, b, from) <= a.len(),
        first_difference(a, b, from) <= b.len(),
        a.take(first_difference(a, b, from)) =~= b.take(first_difference(a, b, from)),
        first_difference(a, b, from) < a.len() && first_difference(a, b, from) < b.len()
            ==> a[first_difference(a, b, from)] != b[first_difference(a, b, from)],
    decreases a.len() - from,
{
    if from < a.len() && from < b.len() && a[from] == b[from] {
        assert(a.take(from + 1) =~= a.take(from).push(a[from]));
        assert(b.take(from + 1) =~= b.take(from).push(b[from]));
        lemma_first_difference(a, b, from + 1);
    }
}

/// Tells whether `a` comes no later than `b` in the order of strings.
pub fn precedes(a: &str, b: &str) -> (out: bool)
    ensures
        out == text_le(a@, b@),
{
    let x = a.as_bytes();
    let y = b.as_bytes();
    let mut i: usize = 0;
    while i < x.len() && i < y.len()
        invariant
            i <= x.len(),
            i <= y.len(),
            x@.take(i as int) =~= y@.take(i as int),
            x@ == encode_utf8(a@),
            y@ == encode_utf8(b@),
        decreases x.len() - i,
    {
        if x[i] != y[i] {
            let ghost k = i as int;
            if x[i] < y[i] {
                assert(bytes_le(x@, y@));
                return true;
            }
            assert(!bytes_le(x@, y@)) by {
                if x@.len() <= y@.len() && x@ =~= y@.take(x@.len() as int) {
                    assert(x@[k] == y@.take(x@.len() as int)[k]);
                }
                assert forall|j: int|
                    0 <= j < x@.len() && j < y@.len() && x@.take(j) =~= y@.take(j) implies !(x@[j]
                    < #[trigger] y@[j]) by {
                    if j < k {
                        assert(x@[j] == x@.take(k)[j]);
                        assert(y@[j] == y@.take(k)[j]);
                    } else if j > k {
                        assert(x@[k] == x@.take(j)[k]);
                        assert(y@[k] == y@.take(j)[k]);
                    }
                }
            }
            return false;
        }
        assert(x@.take(i + 1) =~= x@.take(i as int).push(x@[i as int]));
        assert(y@.take(i + 1) =~= y@.take(i as int).push(y@[i as int]));
        i = i + 1;
    }
    if x.len() <= y.len() {
        assert(x@ =~= x@.take(i as int));
        true
    } else {
        assert(!bytes_le(x@, y@)) by {
            assert forall|j: int|
                0 <= j < x@.len() && j < y@.len() && x@.take(j) =~= y@.take(j) implies !(x@[j]
                < #[trigger] y@[j]) by {
                assert(x@[j] == x@.take(i as int)[j]);
                assert(y@[j] == y@.take(i as int)[j]);
            }
        }
        false
    }
}

} // verus!
