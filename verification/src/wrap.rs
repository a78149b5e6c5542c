//! Word-wrapping of body text into lines of a bounded width.
//!
//! The text is split into words at spaces; words are packed greedily
//! into lines, joined by single spaces, so that no line exceeds the
//! width; a word too long for a whole line is clipped to the width.
//! Because lines are built only out of words and single joining spaces,
//! a wrapped line never starts or ends with whitespace.
//!
//! [`words_of`], [`pack`] and [`wrap_spec`] are the mathematical model;
//! [`wrap`] computes it.

use vstd::prelude::*;

verus! {

/// The views of a sequence of character vectors.
pub open spec fn views(vs: Seq<Vec<char>>) -> Seq<Seq<char>> {
    vs.map_values(|v: Vec<char>| v@)
}

/// The words of `s`: the maximal runs of non-space characters, in order.
pub open spec fn words_of(s: Seq<char>) -> Seq<Seq<char>>
    decreases s.len(),
{
    if s.len() == 0 {
        seq![]
    } else if s[0] == ' ' {
        words_of(s.skip(1))
    } else {
        let rest = words_of(s.skip(1));
        if s.len() > 1 && s[1] != ' ' {
            seq![seq![s[0]] + rest[0]] + rest.skip(1)
        } else {
            seq![seq![s[0]]] + rest
        }
    }
}

/// A text that starts inside a word has at least that word.
pub proof fn lemma_words_of_nonempty(s: Seq<char>)
    requires
        s.len() > 0,
        s[0] != ' ',
    ensures
        words_of(s).len() > 0,
    decreases s.len(),
{
    if s.len() > 1 && s[1] != ' ' {
        lemma_words_of_nonempty(s.skip(1));
    }
}

/// `w` clipped to at most `width` characters.
pub open spec fn clip(w: Seq<char>, width: int) -> Seq<char> {
    if w.len() <= width {
        w
    } else {
        w.take(width)
    }
}

/// Greedy packing: `cur` is the line being filled; each next word joins
/// it after a single space when the line stays within `width`, else the
/// line is emitted and the word — clipped to the width — starts the next
/// one.
pub open spec fn pack(cur: Seq<char>, ws: Seq<Seq<char>>, width: int) -> Seq<Seq<char>>
    decreases ws.len(),
{
    if ws.len() == 0 {
        seq![cur]
    } else if cur.len() + 1 + ws[0].len() <= width {
        pack(cur + seq![' '] + ws[0], ws.skip(1), width)
    } else {
        seq![cur] + pack(clip(ws[0], width), ws.skip(1), width)
    }
}

/// The wrapped lines of `text` at width `width`: no lines at all for a
/// degenerate width or a text without words.
pub open spec fn wrap_spec(text: Seq<char>, width: int) -> Seq<Seq<char>> {
    let ws = words_of(text);
    if width <= 0 || ws.len() == 0 {
        seq![]
    } else {
        pack(clip(ws[0], width), ws.skip(1), width)
    }
}

/// Law: no packed line exceeds the width, provided the line being filled
/// does not.
pub proof fn lemma_pack_lines_fit(cur: Seq<char>, ws: Seq<Seq<char>>, width: int)
    requires
        0 < width,
        cur.len() <= width,
    ensures
        forall|j: int|
            0 <= j < pack(cur, ws, width).len() ==> (#[trigger] pack(cur, ws, width)[j]).len()
                <= width,
    decreases ws.len(),
{
    if ws.len() == 0 {
    } else if cur.len() + 1 + ws[0].len() <= width {
        lemma_pack_lines_fit(cur + seq![' '] + ws[0], ws.skip(1), width);
        assert(pack(cur, ws, width) == pack(cur + seq![' '] + ws[0], ws.skip(1), width));
    } else {
        lemma_pack_lines_fit(clip(ws[0], width), ws.skip(1), width);
        assert forall|j: int| 0 <= j < pack(cur, ws, width).len() implies (#[trigger] pack(
            cur,
            ws,
            width,
        )[j]).len() <= width by {
            if j > 0 {
                assert(pack(cur, ws, width)[j] == pack(clip(ws[0], width), ws.skip(1), width)[j
                    - 1]);
            }
        }
    }
}

/// Law: every wrapped line fits the width — text never overflows the
/// region it is wrapped for.
pub proof fn lemma_wrap_lines_fit(text: Seq<char>, width: int)
    ensures
        forall|j: int|
            0 <= j < wrap_spec(text, width).len() ==> (#[trigger] wrap_spec(text, width)[j]).len()
                <= width,
{
    let ws = words_of(text);
    if width <= 0 || ws.len() == 0 {
    } else {
        lemma_pack_lines_fit(clip(ws[0], width), ws.skip(1), width);
    }
}

/// A word: nonempty, with no space in it.
pub open spec fn is_word(w: Seq<char>) -> bool {
    w.len() > 0 && forall|j: int| 0 <= j < w.len() ==> w[j] != ' '
}

/// Every element is a word.
pub open spec fn all_words(ws: Seq<Seq<char>>) -> bool {
    forall|i: int| 0 <= i < ws.len() ==> is_word(#[trigger] ws[i])
}

/// A trimmed line: nonempty, starting and ending with a non-space.
pub open spec fn trimmed_line(line: Seq<char>) -> bool {
    line.len() > 0 && line[0] != ' ' && line[line.len() - 1] != ' '
}

/// What splitting yields really are words: nonempty and space-free.
pub proof fn lemma_words_of_are_words(s: Seq<char>)
    ensures
        all_words(words_of(s)),
    decreases s.len(),
{
    if s.len() == 0 {
    } else if s[0] == ' ' {
        lemma_words_of_are_words(s.skip(1));
    } else {
        lemma_words_of_are_words(s.skip(1));
        let rest = words_of(s.skip(1));
        if s.len() > 1 && s[1] != ' ' {
            lemma_words_of_nonempty(s.skip(1));
            assert forall|i: int| 0 <= i < words_of(s).len() implies is_word(
                #[trigger] words_of(s)[i],
            ) by {
                if i == 0 {
                    assert(is_word(rest[0]));
                    assert(forall|j: int|
                        0 <= j < (seq![s[0]] + rest[0]).len() ==> (seq![s[0]] + rest[0])[j]
                            != ' ');
                } else {
                    assert(words_of(s)[i] == rest[i]);
                }
            }
        } else {
            assert forall|i: int| 0 <= i < words_of(s).len() implies is_word(
                #[trigger] words_of(s)[i],
            ) by {
                if i > 0 {
                    assert(words_of(s)[i] == rest[i - 1]);
                }
            }
        }
    }
}

/// A word clipped to a positive width is still a trimmed line.
pub proof fn lemma_clip_trimmed(w: Seq<char>, width: int)
    requires
        0 < width,
        is_word(w),
    ensures
        trimmed_line(clip(w, width)),
{
}

/// Law: no packed line starts or ends with a space, provided the line
/// being filled does not and only words remain to pack.
pub proof fn lemma_pack_lines_trimmed(cur: Seq<char>, ws: Seq<Seq<char>>, width: int)
    requires
        0 < width,
        trimmed_line(cur),
        all_words(ws),
    ensures
        forall|j: int| 0 <= j < pack(cur, ws, width).len() ==> trimmed_line(
            #[trigger] pack(cur, ws, width)[j],
        ),
    decreases ws.len(),
{
    if ws.len() == 0 {
    } else {
        assert(is_word(ws[0]));
        assert(all_words(ws.skip(1))) by {
            assert forall|i: int| 0 <= i < ws.skip(1).len() implies is_word(
                #[trigger] ws.skip(1)[i],
            ) by {
                assert(ws.skip(1)[i] == ws[i + 1]);
            }
        }
        if cur.len() + 1 + ws[0].len() <= width {
            let cur2 = cur + seq![' '] + ws[0];
            assert(trimmed_line(cur2)) by {
                assert(cur2[0] == cur[0]);
                assert(cur2[cur2.len() - 1] == ws[0][ws[0].len() - 1]);
            }
            lemma_pack_lines_trimmed(cur2, ws.skip(1), width);
            assert(pack(cur, ws, width) == pack(cur2, ws.skip(1), width));
        } else {
            lemma_clip_trimmed(ws[0], width);
            lemma_pack_lines_trimmed(clip(ws[0], width), ws.skip(1), width);
            assert forall|j: int| 0 <= j < pack(cur, ws, width).len() implies trimmed_line(
                #[trigger] pack(cur, ws, width)[j],
            ) by {
                if j > 0 {
                    assert(pack(cur, ws, width)[j] == pack(clip(ws[0], width), ws.skip(1), width)[j
                        - 1]);
                }
            }
        }
    }
}

/// Law: every wrapped line is trimmed — nonempty, with no leading or
/// trailing whitespace.
pub proof fn lemma_wrap_lines_trimmed(text: Seq<char>, width: int)
    ensures
        forall|j: int| 0 <= j < wrap_spec(text, width).len() ==> trimmed_line(
            #[trigger] wrap_spec(text, width)[j],
        ),
{
    lemma_words_of_are_words(text);
    let ws = words_of(text);
    if width <= 0 || ws.len() == 0 {
    } else {
        assert(is_word(ws[0]));
        lemma_clip_trimmed(ws[0], width);
        assert(all_words(ws.skip(1))) by {
            assert forall|i: int| 0 <= i < ws.skip(1).len() implies is_word(
                #[trigger] ws.skip(1)[i],
            ) by {
                assert(ws.skip(1)[i] == ws[i + 1]);
            }
        }
        lemma_pack_lines_trimmed(clip(ws[0], width), ws.skip(1), width);
    }
}

/// Copy at most `width` characters of `w`.
fn clip_word(w: &Vec<char>, width: usize) -> (r: Vec<char>)
    ensures
        r@ == clip(w@, width as int),
{
    let n: usize = if w.len() <= width {
        w.len()
    } else {
        width
    };
    let mut r: Vec<char> = Vec::new();
    let mut j: usize = 0;
    while j < n
        invariant
            j <= n,
            n <= w@.len(),
            r@ == w@.take(j as int),
        decreases n - j,
    {
        r.push(w[j]);
        proof {
            assert(w@.take(j as int).push(w@[j as int]) =~= w@.take(j as int + 1));
        }
        j = j + 1;
    }
    proof {
        if w@.len() <= width {
            assert(w@.take(n as int) =~= w@);
        }
    }
    r
}

/// Append the characters of `src` to `dst`.
fn extend_chars(dst: &mut Vec<char>, src: &Vec<char>)
    ensures
        final(dst)@ == old(dst)@ + src@,
{
    let mut j: usize = 0;
    while j < src.len()
        invariant
            j <= src@.len(),
            dst@ == old(dst)@ + src@.take(j as int),
        decreases src@.len() - j,
    {
        dst.push(src[j]);
        proof {
            assert((old(dst)@ + src@.take(j as int)).push(src@[j as int]) =~= old(dst)@ + src@.take(
                j as int + 1,
            ));
        }
        j = j + 1;
    }
    proof {
        assert(src@.take(src@.len() as int) =~= src@);
    }
}

/// The words of `s` from position `i` on.
fn words_from(s: &Vec<char>, i: usize) -> (r: Vec<Vec<char>>)
    requires
        i <= s@.len(),
    ensures
        views(r@) == words_of(s@.skip(i as int)),
    decreases s@.len() - i,
{
    proof {
        if i < s@.len() {
            assert(s@.skip(i as int).skip(1) =~= s@.skip(i as int + 1));
        }
    }
    if i == s.len() {
        let r: Vec<Vec<char>> = Vec::new();
        proof {
            assert(views(r@) =~= words_of(s@.skip(i as int)));
        }
        r
    } else if s[i] == ' ' {
        let r = words_from(s, i + 1);
        r
    } else {
        let mut rest = words_from(s, i + 1);
        if i + 1 < s.len() && s[i + 1] != ' ' {
            proof {
                lemma_words_of_nonempty(s@.skip(i as int + 1));
                assert(rest@.len() > 0);
            }
            let mut w = rest.remove(0);
            w.insert(0, s[i]);
            rest.insert(0, w);
            proof {
                assert(views(rest@) =~~= words_of(s@.skip(i as int)));
            }
            rest
        } else {
            let mut w: Vec<char> = Vec::new();
            w.push(s[i]);
            rest.insert(0, w);
            proof {
                assert(views(rest@) =~~= words_of(s@.skip(i as int)));
            }
            rest
        }
    }
}

/// Pack the words of `ws` from position `i` on, continuing the line
/// `cur`.
fn pack_from(cur: Vec<char>, ws: &Vec<Vec<char>>, i: usize, width: usize) -> (r: Vec<Vec<char>>)
    requires
        i <= ws@.len(),
    ensures
        views(r@) == pack(cur@, views(ws@).skip(i as int), width as int),
    decreases ws@.len() - i,
{
    proof {
        if i < ws@.len() {
            assert(views(ws@).skip(i as int).skip(1) =~= views(ws@).skip(i as int + 1));
            assert(views(ws@).skip(i as int)[0] == ws@[i as int]@);
        }
    }
    if i == ws.len() {
        let mut r: Vec<Vec<char>> = Vec::new();
        r.push(cur);
        proof {
            assert(views(r@) =~= seq![r@[0]@]);
        }
        r
    } else {
        let w = &ws[i];
        let fits: bool = w.len() < width && cur.len() <= width - 1 - w.len();
        proof {
            assert(fits == (cur@.len() + 1 + ws@[i as int]@.len() <= width as int));
        }
        if fits {
            let mut cur2 = cur;
            cur2.push(' ');
            extend_chars(&mut cur2, w);
            proof {
                assert(cur2@ =~= cur@ + seq![' '] + ws@[i as int]@);
            }
            pack_from(cur2, ws, i + 1, width)
        } else {
            let clipped = clip_word(w, width);
            let mut r = pack_from(clipped, ws, i + 1, width);
            r.insert(0, cur);
            proof {
                assert(views(r@) =~~= seq![cur@] + pack(
                    clip(ws@[i as int]@, width as int),
                    views(ws@).skip(i as int + 1),
                    width as int,
                ));
            }
            r
        }
    }
}

/// The wrapped lines of `content` at width `width`.
pub fn wrap(content: &Vec<char>, width: u16) -> (r: Vec<Vec<char>>)
    ensures
        views(r@) == wrap_spec(content@, width as int),
{
    proof {
        assert(content@.skip(0) =~= content@);
    }
    let ws = words_from(content, 0);
    if width == 0 || ws.len() == 0 {
        let r: Vec<Vec<char>> = Vec::new();
        proof {
            assert(views(r@) =~= Seq::<Seq<char>>::empty());
            assert(wrap_spec(content@, width as int) =~= Seq::<Seq<char>>::empty());
        }
        r
    } else {
        proof {
            assert(views(ws@)[0] == ws@[0]@);
            assert(views(ws@).skip(1) =~= views(ws@).skip(1));
        }
        let first = clip_word(&ws[0], width as usize);
        let r = pack_from(first, &ws, 1, width as usize);
        r
    }
}

} // verus!
