//! Text layout for the movie information screen: word wrapping and the
//! breaking of long URLs.
use vstd::prelude::*;
use crate::text::{byte_len, char_len_utf8, chars_of, lemma_byte_len_concat, push_char, sat, split_words, utf8_len, words, concat2};

verus! {

/// One step of the greedy wrapping: a word that does not fit ends the
/// current line and starts the next (a word too long for any line stands on
/// a line of its own); otherwise it joins the current line after a space.
pub open spec fn wrap_step(st: (Seq<Seq<char>>, Seq<char>), word: Seq<char>, width: nat, indent: Seq<char>) -> (Seq<Seq<char>>, Seq<char>) {
    if byte_len(st.1) + byte_len(word) + 1 > width {
        if st.1.len() > 0 {
            (st.0.push(indent + st.1), word)
        } else {
            (st.0, word)
        }
    } else {
        (st.0, if st.1.len() > 0 { st.1 + seq![' '] + word } else { word })
    }
}

/// The lines and the current line after wrapping the given words.
pub open spec fn wrap_state(ws: Seq<Seq<char>>, width: nat, indent: Seq<char>) -> (Seq<Seq<char>>, Seq<char>)
    decreases ws.len(),
{
    if ws.len() == 0 {
        (seq![], seq![])
    } else {
        wrap_step(wrap_state(ws.drop_last(), width, indent), ws.last(), width, indent)
    }
}

/// The wrapped lines of a text, each prefixed with `indent`; lengths are
/// counted in UTF-8 bytes.
pub open spec fn wrapped(text: Seq<char>, width: nat, indent: Seq<char>) -> Seq<Seq<char>> {
    let st = wrap_state(words(text), width, indent);
    if st.1.len() > 0 {
        st.0.push(indent + st.1)
    } else {
        st.0
    }
}

/// Wraps a text into lines of at most `width` bytes (a line may hold one
/// longer word), each line prefixed with `indent`.
pub fn wrap_text(text: &str, width: usize, indent: &str) -> (r: Vec<String>)
    ensures
        r@.map_values(|s: String| s@) == wrapped(text@, width as nat, indent@),
{
    let ws = split_words(text);
    let ghost wv = ws@.map_values(|w: String| w@);
    let mut lines: Vec<String> = Vec::new();
    let mut cur = String::new();
    let mut cur_len: usize = 0;
    let mut i: usize = 0;
    while i < ws.len()
        invariant
            i <= ws@.len(),
            wv == ws@.map_values(|w: String| w@),
            wv == words(text@),
            cur_len as nat == sat(byte_len(cur@)),
            (lines@.map_values(|s: String| s@), cur@) == wrap_state(wv.subrange(0, i as int), width as nat, indent@),
        decreases ws@.len() - i,
    {
        let word = &ws[i];
        let wl = utf8_len(word.as_str());
        assert(wv.subrange(0, i + 1).drop_last() =~= wv.subrange(0, i as int));
        assert(wv[i as int] == word@);
        if cur_len as u128 + wl as u128 + 1 > width as u128 {
            if cur.unicode_len() > 0 {
                let line = concat2(indent, cur.as_str());
                lines.push(line);
                cur = word.clone();
                cur_len = wl;
                assert(lines@.map_values(|s: String| s@) =~= wrap_state(wv.subrange(0, i as int), width as nat, indent@).0.push(indent@ + wrap_state(wv.subrange(0, i as int), width as nat, indent@).1));
            } else {
                cur = word.clone();
                cur_len = wl;
            }
        } else {
            if cur.unicode_len() > 0 {
                let ghost before = cur@;
                cur.append(" ");
                cur.append(word.as_str());
                proof {
                    reveal_strlit(" ");
                    assert(" "@ =~= seq![' ']);
                    lemma_byte_len_concat(before, seq![' ']);
                    lemma_byte_len_concat(before + seq![' '], word@);
                    assert(byte_len(seq![' ']) == 1) by {
                        assert(seq![' '].drop_last() =~= Seq::<char>::empty());
                        assert((' ' as u32) < 0x80);
                        assert(byte_len(Seq::<char>::empty()) == 0);
                        assert(seq![' '].last() == ' ');
                    }
                }
                cur_len = cur_len + 1 + wl;
            } else {
                cur = word.clone();
                cur_len = wl;
            }
        }
        i = i + 1;
    }
    assert(wv.subrange(0, ws@.len() as int) =~= wv);
    if cur.unicode_len() > 0 {
        let line = concat2(indent, cur.as_str());
        lines.push(line);
        assert(lines@.map_values(|s: String| s@) =~= wrapped(text@, width as nat, indent@));
    }
    lines
}


/// After the first `k` characters of a long URL: the finished lines and the
/// line being built (each line starts with three spaces). A line ends after
/// every 70th character and after a `&` once the line is over 40 bytes.
pub open spec fn url_break_state(url: Seq<char>, k: nat) -> (Seq<Seq<char>>, Seq<char>)
    decreases k,
{
    if k == 0 || k > url.len() {
        (seq![], "   "@)
    } else {
        let prev = url_break_state(url, (k - 1) as nat);
        let i = k - 1;
        let ch = url[i];
        let line = prev.1.push(ch);
        if (i > 0 && i % 70 == 0) || (ch == '&' && byte_len(line) > 40) {
            (prev.0.push(line), "   "@)
        } else {
            (prev.0, line)
        }
    }
}

/// The lines that show a stream URL: a URL over 75 bytes is broken as
/// `url_break_state` says (a last partial line is kept when it holds more
/// than the indent); a shorter one is one indented line.
pub open spec fn url_lines(url: Seq<char>) -> Seq<Seq<char>> {
    if byte_len(url) > 75 {
        let st = url_break_state(url, url.len());
        if byte_len(st.1) > 3 {
            st.0.push(st.1)
        } else {
            st.0
        }
    } else {
        seq!["   "@ + url]
    }
}

/// Breaks a stream URL into display lines.
pub fn break_url(url: &str) -> (r: Vec<String>)
    ensures
        r@.map_values(|s: String| s@) == url_lines(url@),
{
    let mut out: Vec<String> = Vec::new();
    if utf8_len(url) > 75 {
        let cs = chars_of(url);
        let mut line = String::from_str("   ");
        let mut line_len: usize = 3;
        proof {
            reveal_strlit("   ");
            lemma_byte_len_spaces();
        }
        let mut i: usize = 0;
        while i < cs.len()
            invariant
                i <= cs@.len(),
                cs@ == url@,
                line_len as nat == sat(byte_len(line@)),
                (out@.map_values(|s: String| s@), line@) == url_break_state(url@, i as nat),
            decreases cs@.len() - i,
        {
            let ch = cs[i];
            let ghost before = line@;
            push_char(&mut line, ch);
            proof {
                lemma_byte_len_concat(before, seq![ch]);
                assert(before + seq![ch] =~= before.push(ch));
                assert(seq![ch].drop_last() =~= Seq::<char>::empty());
                assert(byte_len(Seq::<char>::empty()) == 0);
                assert(seq![ch].last() == ch);
                assert(byte_len(seq![ch]) == crate::text::char_width(ch));
            }
            let w = char_len_utf8(ch);
            line_len = if line_len > usize::MAX - w { usize::MAX } else { line_len + w };
            if (i > 0 && i % 70 == 0) || (ch == '&' && line_len > 40) {
                out.push(line);
                line = String::from_str("   ");
                line_len = 3;
                proof { lemma_byte_len_spaces(); }
            }
            i = i + 1;
        }
        if line_len > 3 {
            out.push(line);
        }
        assert(out@.map_values(|s: String| s@) =~= url_lines(url@));
    } else {
        out.push(concat2("   ", url));
        assert(out@.map_values(|s: String| s@) =~= url_lines(url@));
    }
    out
}

proof fn lemma_byte_len_spaces()
    ensures
        byte_len("   "@) == 3,
{
    reveal_strlit("   ");
    let s = "   "@;
    assert(s.drop_last().drop_last().drop_last() =~= Seq::<char>::empty());
    assert((' ' as u32) < 0x80);
    assert(byte_len(Seq::<char>::empty()) == 0);
    assert(byte_len(s.drop_last().drop_last()) == 1);
    assert(byte_len(s.drop_last()) == 2);
}

} // verus!
