use vstd::prelude::*;

verus! {

/// The single style class that the first inline tag of a text asks for.
#[derive(Clone, Copy, Debug, PartialEq, Eq, Structural)]
pub enum StyleClass {
    Plain,
    Bold,
    Italic,
    Underline,
    Hyperlink,
}

/// The style that the character after a `<` selects.
pub open spec fn style_of_tag_char(c: char) -> StyleClass {
    if c == 'b' {
        StyleClass::Bold
    } else if c == 'i' {
        StyleClass::Italic
    } else if c == 'u' {
        StyleClass::Underline
    } else if c == 'h' {
        StyleClass::Hyperlink
    } else {
        StyleClass::Plain
    }
}

/// The style of a text: decided by the character after its first `<`, plain
/// where there is none.
pub open spec fn first_tag_style(s: Seq<char>) -> StyleClass
    decreases s.len(),
{
    if s.len() == 0 {
        StyleClass::Plain
    } else if s[0] == '<' {
        if s.len() > 1 {
            style_of_tag_char(s[1])
        } else {
            StyleClass::Plain
        }
    } else {
        first_tag_style(s.subrange(1, s.len() as int))
    }
}

/// `s` with every occurrence of `pat` taken out, matched from the left without overlap.
pub open spec fn remove_all(s: Seq<char>, pat: Seq<char>) -> Seq<char>
    decreases s.len(),
{
    if pat.len() == 0 || s.len() == 0 {
        s
    } else if pat.len() <= s.len() && s.subrange(0, pat.len() as int) == pat {
        remove_all(s.subrange(pat.len() as int, s.len() as int), pat)
    } else {
        seq![s[0]] + remove_all(s.subrange(1, s.len() as int), pat)
    }
}

/// The text that is shown for `s`: the recognised open and close tags are
/// taken out one kind after the other.
pub open spec fn displayed_text(s: Seq<char>) -> Seq<char> {
    let s = remove_all(s, "<b>"@);
    let s = remove_all(s, "</b>"@);
    let s = remove_all(s, "<i>"@);
    let s = remove_all(s, "</i>"@);
    let s = remove_all(s, "<a href=\">"@);
    let s = remove_all(s, "</a>"@);
    let s = remove_all(s, "<u>"@);
    remove_all(s, "</u>"@)
}

/// The recognised tags, in the order in which they are taken out.
pub open spec fn tag(k: int) -> Seq<char> {
    if k == 0 {
        "<b>"@
    } else if k == 1 {
        "</b>"@
    } else if k == 2 {
        "<i>"@
    } else if k == 3 {
        "</i>"@
    } else if k == 4 {
        "<a href=\">"@
    } else if k == 5 {
        "</a>"@
    } else if k == 6 {
        "<u>"@
    } else {
        "</u>"@
    }
}

/// One character that is no angle bracket.
pub open spec fn is_plain(t: Seq<char>) -> bool {
    t.len() == 1 && t[0] != '<' && t[0] != '>'
}

/// A piece of marked-up text: a plain character, or a recognised tag from
/// the `n`-th on.
pub open spec fn is_piece_from(t: Seq<char>, n: int) -> bool {
    is_plain(t) || exists|k: int| n <= k < 8 && t == #[trigger] tag(k)
}

/// The text that a sequence of pieces spells.
pub open spec fn joined(ts: Seq<Seq<char>>) -> Seq<char>
    decreases ts.len(),
{
    if ts.len() == 0 {
        Seq::empty()
    } else {
        ts[0] + joined(ts.subrange(1, ts.len() as int))
    }
}

/// The pieces other than `p`.
pub open spec fn without(ts: Seq<Seq<char>>, p: Seq<char>) -> Seq<Seq<char>>
    decreases ts.len(),
{
    if ts.len() == 0 {
        ts
    } else if ts[0] == p {
        without(ts.subrange(1, ts.len() as int), p)
    } else {
        seq![ts[0]] + without(ts.subrange(1, ts.len() as int), p)
    }
}

/// Opens with `<`, closes with `>`, and holds neither bracket in between.
pub open spec fn tag_shaped(t: Seq<char>) -> bool {
    &&& t.len() >= 2
    &&& t[0] == '<'
    &&& t[t.len() - 1] == '>'
    &&& forall|i: int| 0 < i < t.len() - 1 ==> t[i] != '<' && t[i] != '>'
}

/// `p` occurs in `s` at position `i`.
pub open spec fn occurs(s: Seq<char>, p: Seq<char>, i: int) -> bool {
    i + p.len() <= s.len() && s.subrange(i, i + p.len()) == p
}

proof fn lemma_tag_shaped(k: int)
    requires
        0 <= k < 8,
    ensures
        tag_shaped(tag(k)),
{
    reveal_strlit("<b>");
    reveal_strlit("</b>");
    reveal_strlit("<i>");
    reveal_strlit("</i>");
    reveal_strlit("<a href=\">");
    reveal_strlit("</a>");
    reveal_strlit("<u>");
    reveal_strlit("</u>");
}

/// A tag occurs at no position inside a different piece.
proof fn lemma_no_occurrence_in_piece(t: Seq<char>, rest: Seq<char>, p: Seq<char>, n: int)
    requires
        0 <= n,
        tag_shaped(p),
        is_piece_from(t, n),
        t != p,
    ensures
        forall|i: int| 0 <= i < t.len() ==> !occurs(t + rest, p, i),
{
    let s = t + rest;
    if !is_plain(t) {
        let k = choose|k: int| n <= k < 8 && t == #[trigger] tag(k);
        lemma_tag_shaped(k);
    }
    assert forall|i: int| 0 <= i < t.len() implies !occurs(s, p, i) by {
        if occurs(s, p, i) {
            assert(s.subrange(i, i + p.len())[0] == p[0]);
            assert(s[i] == t[i]);
            if !is_plain(t) {
                assert(i == 0);
                if p.len() <= t.len() {
                    assert(s.subrange(0, p.len() as int)[p.len() - 1] == t[p.len() - 1]);
                    assert(p =~= t);
                } else {
                    assert(s.subrange(0, p.len() as int)[t.len() - 1] == t[t.len() - 1]);
                }
            }
        }
    }
}

proof fn lemma_remove_after_prefix(a: Seq<char>, b: Seq<char>, p: Seq<char>)
    requires
        p.len() > 0,
        forall|i: int| 0 <= i < a.len() ==> !occurs(a + b, p, i),
    ensures
        remove_all(a + b, p) == a + remove_all(b, p),
    decreases a.len(),
{
    let s = a + b;
    if a.len() == 0 {
        assert(s =~= b);
        assert(a + remove_all(b, p) =~= remove_all(b, p));
    } else {
        assert(!occurs(s, p, 0));
        let a1 = a.subrange(1, a.len() as int);
        assert(s.subrange(1, s.len() as int) =~= a1 + b);
        assert forall|i: int| 0 <= i < a1.len() implies !occurs(a1 + b, p, i) by {
            if i + p.len() <= (a1 + b).len() {
                assert((a1 + b).subrange(i, i + p.len()) =~= s.subrange(i + 1, i + 1 + p.len()));
            }
            assert(!occurs(s, p, i + 1));
        }
        lemma_remove_after_prefix(a1, b, p);
        assert(seq![s[0]] + (a1 + remove_all(b, p)) =~= a + remove_all(b, p));
    }
}

/// Taking out the `k`-th tag from joined pieces joins the other pieces.
proof fn lemma_remove_pass(ts: Seq<Seq<char>>, k: int)
    requires
        0 <= k < 8,
        forall|j: int| 0 <= j < ts.len() ==> is_piece_from(#[trigger] ts[j], k),
    ensures
        remove_all(joined(ts), tag(k)) == joined(without(ts, tag(k))),
        forall|j: int|
            0 <= j < without(ts, tag(k)).len() ==> is_piece_from(
                #[trigger] without(ts, tag(k))[j],
                k + 1,
            ),
    decreases ts.len(),
{
    let p = tag(k);
    lemma_tag_shaped(k);
    if ts.len() > 0 {
        let t = ts[0];
        let rest = ts.subrange(1, ts.len() as int);
        assert forall|j: int| 0 <= j < rest.len() implies is_piece_from(#[trigger] rest[j], k) by {
            assert(rest[j] == ts[j + 1]);
        }
        lemma_remove_pass(rest, k);
        let jr = joined(rest);
        assert(joined(ts) == t + jr);
        if t == p {
            let s = t + jr;
            assert(s.subrange(0, p.len() as int) =~= p);
            assert(s.subrange(p.len() as int, s.len() as int) =~= jr);
        } else {
            assert(is_piece_from(ts[0], k));
            lemma_no_occurrence_in_piece(t, jr, p, k);
            lemma_remove_after_prefix(t, jr, p);
            let w = without(rest, p);
            let tw = seq![t] + w;
            assert(tw.subrange(1, tw.len() as int) =~= w);
            assert(joined(tw) == t + joined(w));
            if !is_plain(t) {
                let m = choose|m: int| k <= m < 8 && t == #[trigger] tag(m);
                assert(m != k);
                assert(is_piece_from(t, k + 1));
            }
            assert forall|j: int| 0 <= j < tw.len() implies is_piece_from(#[trigger] tw[j], k + 1) by {
                if j > 0 {
                    assert(tw[j] == w[j - 1]);
                }
            }
        }
    }
}

proof fn lemma_plain_joined(ts: Seq<Seq<char>>)
    requires
        forall|j: int| 0 <= j < ts.len() ==> is_piece_from(#[trigger] ts[j], 8),
    ensures
        forall|i: int| 0 <= i < joined(ts).len() ==> joined(ts)[i] != '<' && joined(ts)[i] != '>',
    decreases ts.len(),
{
    if ts.len() > 0 {
        let rest = ts.subrange(1, ts.len() as int);
        assert forall|j: int| 0 <= j < rest.len() implies is_piece_from(#[trigger] rest[j], 8) by {
            assert(rest[j] == ts[j + 1]);
        }
        lemma_plain_joined(rest);
        assert(is_piece_from(ts[0], 8));
        assert(joined(ts) == ts[0] + joined(rest));
    }
}

/// A text made only of characters other than brackets and of the recognised
/// tags, none of them overlapping, is shown without any `<` or `>`: all of its
/// tags are taken out, and only its plain characters remain.
pub proof fn lemma_well_formed_markup_shows_no_brackets(ts: Seq<Seq<char>>)
    requires
        forall|j: int| 0 <= j < ts.len() ==> is_piece_from(#[trigger] ts[j], 0),
    ensures
        forall|i: int|
            0 <= i < displayed_text(joined(ts)).len() ==> displayed_text(joined(ts))[i] != '<'
                && displayed_text(joined(ts))[i] != '>',
{
    lemma_remove_pass(ts, 0);
    let t1 = without(ts, tag(0));
    lemma_remove_pass(t1, 1);
    let t2 = without(t1, tag(1));
    lemma_remove_pass(t2, 2);
    let t3 = without(t2, tag(2));
    lemma_remove_pass(t3, 3);
    let t4 = without(t3, tag(3));
    lemma_remove_pass(t4, 4);
    let t5 = without(t4, tag(4));
    lemma_remove_pass(t5, 5);
    let t6 = without(t5, tag(5));
    lemma_remove_pass(t6, 6);
    let t7 = without(t6, tag(6));
    lemma_remove_pass(t7, 7);
    let t8 = without(t7, tag(7));
    lemma_plain_joined(t8);
    assert(displayed_text(joined(ts)) == joined(t8));
}

impl StyleClass {
    /// The name of the style class; empty for plain text.
    pub fn css_name(&self) -> (r: &'static str)
        ensures
            *self == StyleClass::Plain ==> r@ == ""@,
            *self == StyleClass::Bold ==> r@ == "bold"@,
            *self == StyleClass::Italic ==> r@ == "italic"@,
            *self == StyleClass::Underline ==> r@ == "underline"@,
            *self == StyleClass::Hyperlink ==> r@ == "hyperlink"@,
    {
        match self {
            StyleClass::Plain => "",
            StyleClass::Bold => "bold",
            StyleClass::Italic => "italic",
            StyleClass::Underline => "underline",
            StyleClass::Hyperlink => "hyperlink",
        }
    }
}

/// The characters of `s`, one per element.
pub fn char_vec(s: &str) -> (r: Vec<char>)
    ensures
        r@ == s@,
{
    let n = s.unicode_len();
    let mut r: Vec<char> = Vec::new();
    let mut i: usize = 0;
    while i < n
        invariant
            n == s@.len(),
            i <= n,
            r@ == s@.subrange(0, i as int),
        decreases n - i,
    {
        r.push(s.get_char(i));
        i = i + 1;
        assert(r@ =~= s@.subrange(0, i as int));
    }
    assert(r@ =~= s@);
    r
}

/// Whether `pat` occurs in `s` at position `i`.
fn occurs_at(s: &Vec<char>, i: usize, pat: &Vec<char>) -> (r: bool)
    requires
        i <= s@.len(),
    ensures
        r == (pat@.len() <= s@.len() - i && s@.subrange(i as int, i + pat@.len()) == pat@),
{
    let n = s.len();
    if pat.len() > n - i {
        return false;
    }
    let mut k: usize = 0;
    while k < pat.len()
        invariant
            n == s@.len(),
            pat@.len() <= s@.len() - i,
            k <= pat@.len(),
            s@.subrange(i as int, i + k) == pat@.subrange(0, k as int),
        decreases pat@.len() - k,
    {
        if s[i + k] != pat[k] {
            assert(s@.subrange(i as int, i + pat@.len())[k as int] != pat@[k as int]);
            return false;
        }
        k = k + 1;
        assert(s@.subrange(i as int, i + k) =~= pat@.subrange(0, k as int));
    }
    assert(pat@.subrange(0, k as int) =~= pat@);
    true
}

proof fn lemma_remove_all_match(s: Seq<char>, pat: Seq<char>, i: int)
    requires
        pat.len() > 0,
        0 <= i,
        i + pat.len() <= s.len(),
        s.subrange(i, i + pat.len()) == pat,
    ensures
        remove_all(s.subrange(i, s.len() as int), pat) == remove_all(
            s.subrange(i + pat.len(), s.len() as int),
            pat,
        ),
{
    let t = s.subrange(i, s.len() as int);
    assert(t.subrange(0, pat.len() as int) =~= pat);
    assert(t.subrange(pat.len() as int, t.len() as int) =~= s.subrange(
        i + pat.len(),
        s.len() as int,
    ));
}

proof fn lemma_remove_all_keep(s: Seq<char>, pat: Seq<char>, i: int)
    requires
        pat.len() > 0,
        0 <= i < s.len(),
        !(i + pat.len() <= s.len() && s.subrange(i, i + pat.len()) == pat),
    ensures
        remove_all(s.subrange(i, s.len() as int), pat) == seq![s[i]] + remove_all(
            s.subrange(i + 1, s.len() as int),
            pat,
        ),
{
    let t = s.subrange(i, s.len() as int);
    if pat.len() <= t.len() {
        assert(t.subrange(0, pat.len() as int) =~= s.subrange(i, i + pat.len()));
    }
    assert(t.subrange(1, t.len() as int) =~= s.subrange(i + 1, s.len() as int));
}

/// `s` with every occurrence of `pat` taken out, matched from the left without overlap.
pub fn remove_matches(s: &str, pat: &str) -> (r: String)
    ensures
        r@ == remove_all(s@, pat@),
{
    let cs = char_vec(s);
    let ps = char_vec(pat);
    if ps.len() == 0 {
        return String::from_str(s);
    }
    let n = cs.len();
    let mut out = String::new();
    let mut start: usize = 0;
    let mut i: usize = 0;
    assert(s@.subrange(0, n as int) =~= s@);
    while i < n
        invariant
            cs@ == s@,
            ps@ == pat@,
            pat@.len() > 0,
            n == s@.len(),
            start <= i <= n,
            remove_all(s@, pat@) == out@ + s@.subrange(start as int, i as int) + remove_all(
                s@.subrange(i as int, n as int),
                pat@,
            ),
        decreases n - i,
    {
        if occurs_at(&cs, i, &ps) {
            proof {
                lemma_remove_all_match(s@, pat@, i as int);
            }
            let seg = s.substring_char(start, i);
            out.append(seg);
            i = i + ps.len();
            start = i;
            assert(s@.subrange(start as int, i as int) =~= Seq::<char>::empty());
        } else {
            proof {
                lemma_remove_all_keep(s@, pat@, i as int);
                assert(s@.subrange(start as int, i as int) + seq![s@[i as int]] =~= s@.subrange(
                    start as int,
                    i + 1,
                ));
            }
            i = i + 1;
        }
    }
    assert(s@.subrange(n as int, n as int) =~= Seq::<char>::empty());
    let seg = s.substring_char(start, n);
    out.append(seg);
    assert(remove_all(s@.subrange(n as int, n as int), pat@) =~= Seq::<char>::empty());
    out
}

/// The style that the first tag of `text` asks for.
pub fn first_tag_class(text: &str) -> (r: StyleClass)
    ensures
        r == first_tag_style(text@),
{
    let cs = char_vec(text);
    let n = cs.len();
    let mut i: usize = 0;
    assert(text@.subrange(0, n as int) =~= text@);
    while i < n
        invariant
            cs@ == text@,
            n == text@.len(),
            i <= n,
            first_tag_style(text@) == first_tag_style(text@.subrange(i as int, n as int)),
        decreases n - i,
    {
        if cs[i] == '<' {
            if i + 1 < n {
                let c = cs[i + 1];
                return if c == 'b' {
                    StyleClass::Bold
                } else if c == 'i' {
                    StyleClass::Italic
                } else if c == 'u' {
                    StyleClass::Underline
                } else if c == 'h' {
                    StyleClass::Hyperlink
                } else {
                    StyleClass::Plain
                };
            }
            return StyleClass::Plain;
        }
        let ghost t = text@.subrange(i as int, n as int);
        assert(t.subrange(1, t.len() as int) =~= text@.subrange(i + 1, n as int));
        i = i + 1;
    }
    StyleClass::Plain
}

/// Splits a text with inline markup into what is shown and the style class
/// that its first tag selects.
pub fn class_from_html(body: &str) -> (r: (String, StyleClass))
    ensures
        r.0@ == displayed_text(body@),
        r.1 == first_tag_style(body@),
{
    let style = first_tag_class(body);
    let s = remove_matches(body, "<b>");
    let s = remove_matches(s.as_str(), "</b>");
    let s = remove_matches(s.as_str(), "<i>");
    let s = remove_matches(s.as_str(), "</i>");
    let s = remove_matches(s.as_str(), "<a href=\">");
    let s = remove_matches(s.as_str(), "</a>");
    let s = remove_matches(s.as_str(), "<u>");
    let s = remove_matches(s.as_str(), "</u>");
    (s, style)
}

/// Whether two texts hold the same characters.
pub fn same_text(a: &str, b: &str) -> (r: bool)
    ensures
        r == (a@ == b@),
{
    let x = char_vec(a);
    let y = char_vec(b);
    if x.len() != y.len() {
        return false;
    }
    let mut i: usize = 0;
    while i < x.len()
        invariant
            x@ == a@,
            y@ == b@,
            x@.len() == y@.len(),
            i <= x@.len(),
            forall|j: int| 0 <= j < i ==> x@[j] == y@[j],
        decreases x@.len() - i,
    {
        if x[i] != y[i] {
            return false;
        }
        i = i + 1;
    }
    assert(x@ =~= y@);
    true
}

} // verus!
