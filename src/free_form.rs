//! Recognition of the free-form geometry statements of the OBJ format
//! (curves, surfaces and their attributes), which the importer refuses.
use vstd::prelude::*;

verus! {

/// A byte that ends a word: ASCII whitespace, a backslash (which joins lines),
/// or any byte of a multi-byte character (some of which are whitespace).
pub open spec fn is_word_break(b: u8) -> bool {
    b == 32 || (9 <= b && b <= 13) || b == 92 || b >= 128
}

/// `#`, which starts a comment that runs to the end of the line.
pub const COMMENT_MARK: u8 = 35;

/// `\n`, which ends a line.
pub const LINE_END: u8 = 10;

/// The statement keywords of free-form geometry.
pub open spec fn is_free_form_keyword(w: Seq<u8>) -> bool {
    w == seq![99u8, 115, 116, 121, 112, 101]  // cstype
        || w == seq![100u8, 101, 103]  // deg
        || w == seq![98u8, 109, 97, 116]  // bmat
        || w == seq![115u8, 116, 101, 112]  // step
        || w == seq![99u8, 117, 114, 118]  // curv
        || w == seq![99u8, 117, 114, 118, 50]  // curv2
        || w == seq![115u8, 117, 114, 102]  // surf
        || w == seq![112u8, 97, 114, 109]  // parm
        || w == seq![116u8, 114, 105, 109]  // trim
        || w == seq![104u8, 111, 108, 101]  // hole
        || w == seq![115u8, 99, 114, 118]  // scrv
        || w == seq![115u8, 112]  // sp
        || w == seq![101u8, 110, 100]  // end
        || w == seq![99u8, 111, 110]  // con
        || w == seq![98u8, 101, 118, 101, 108]  // bevel
        || w == seq![99u8, 95, 105, 110, 116, 101, 114, 112]  // c_interp
        || w == seq![100u8, 95, 105, 110, 116, 101, 114, 112]  // d_interp
        || w == seq![108u8, 111, 100]  // lod
        || w == seq![115u8, 104, 97, 100, 111, 119, 95, 111, 98, 106]  // shadow_obj
        || w == seq![116u8, 114, 97, 99, 101, 95, 111, 98, 106]  // trace_obj
        || w == seq![99u8, 116, 101, 99, 104]  // ctech
        || w == seq![115u8, 116, 101, 99, 104]  // stech
}


/// A blank byte: ASCII whitespace, or any byte of a multi-byte character
/// (some of which are whitespace).
pub open spec fn is_blank(b: u8) -> bool {
    b == 32 || (9 <= b && b <= 13) || b >= 128
}

/// Whether `s[p..q]` equals `kw`.
fn word_is(s: &Vec<u8>, p: usize, q: usize, kw: &Vec<u8>) -> (r: bool)
    requires
        p <= q <= s@.len(),
    ensures
        r == (s@.subrange(p as int, q as int) == kw@),
{
    if q - p != kw.len() {
        return false;
    }
    let mut k: usize = 0;
    while k < kw.len()
        invariant
            q - p == kw@.len(),
            p <= q <= s@.len(),
            k <= kw@.len(),
            forall|t: int| 0 <= t < k ==> s@[p + t] == kw@[t],
        decreases kw@.len() - k,
    {
        if s[p + k] != kw[k] {
            assert(s@.subrange(p as int, q as int)[k as int] != kw@[k as int]);
            return false;
        }
        k = k + 1;
    }
    assert(s@.subrange(p as int, q as int) =~= kw@);
    true
}

/// Whether `s[p..q]` is a free-form keyword.
pub fn is_free_form_word(s: &Vec<u8>, p: usize, q: usize) -> (r: bool)
    requires
        p <= q <= s@.len(),
    ensures
        r == is_free_form_keyword(s@.subrange(p as int, q as int)),
{
    word_is(s, p, q, &vec![99u8, 115, 116, 121, 112, 101])  // cstype
        || word_is(s, p, q, &vec![100u8, 101, 103])  // deg
        || word_is(s, p, q, &vec![98u8, 109, 97, 116])  // bmat
        || word_is(s, p, q, &vec![115u8, 116, 101, 112])  // step
        || word_is(s, p, q, &vec![99u8, 117, 114, 118])  // curv
        || word_is(s, p, q, &vec![99u8, 117, 114, 118, 50])  // curv2
        || word_is(s, p, q, &vec![115u8, 117, 114, 102])  // surf
        || word_is(s, p, q, &vec![112u8, 97, 114, 109])  // parm
        || word_is(s, p, q, &vec![116u8, 114, 105, 109])  // trim
        || word_is(s, p, q, &vec![104u8, 111, 108, 101])  // hole
        || word_is(s, p, q, &vec![115u8, 99, 114, 118])  // scrv
        || word_is(s, p, q, &vec![115u8, 112])  // sp
        || word_is(s, p, q, &vec![101u8, 110, 100])  // end
        || word_is(s, p, q, &vec![99u8, 111, 110])  // con
        || word_is(s, p, q, &vec![98u8, 101, 118, 101, 108])  // bevel
        || word_is(s, p, q, &vec![99u8, 95, 105, 110, 116, 101, 114, 112])  // c_interp
        || word_is(s, p, q, &vec![100u8, 95, 105, 110, 116, 101, 114, 112])  // d_interp
        || word_is(s, p, q, &vec![108u8, 111, 100])  // lod
        || word_is(s, p, q, &vec![115u8, 104, 97, 100, 111, 119, 95, 111, 98, 106])  // shadow_obj
        || word_is(s, p, q, &vec![116u8, 114, 97, 99, 101, 95, 111, 98, 106])  // trace_obj
        || word_is(s, p, q, &vec![99u8, 116, 101, 99, 104])  // ctech
        || word_is(s, p, q, &vec![115u8, 116, 101, 99, 104])  // stech
}

/// Whether the byte is a word break (see `is_word_break`).
fn word_break(b: u8) -> (r: bool)
    ensures
        r == is_word_break(b),
{
    b == 32 || (9 <= b && b <= 13) || b == 92 || b >= 128
}


/// Whether the byte is blank (see `is_blank`).
fn blank(b: u8) -> (r: bool)
    ensures
        r == is_blank(b),
{
    b == 32 || (9 <= b && b <= 13) || b >= 128
}

/// Two line heads with no line end between them are one position.

/// `\`, which at the end of a line joins the next line to it.
pub const BACKSLASH: u8 = 92;

/// A carriage return, which before a line end belongs to the line end.
pub const CARRIAGE_RETURN: u8 = 13;

/// Where the reader's lexer stands after a prefix of the document. The
/// reader cuts each line at `#`, joins a line whose remaining text ends in
/// `\` to the next one, and takes the first word of each joined line as its
/// statement.
pub struct LexState {
    /// No word has been met yet in the current joined line.
    pub pending: bool,
    /// Inside a comment.
    pub comment: bool,
    /// How the line's text before any comment ends: 1 in a backslash, 2 in a
    /// backslash and a carriage return, 0 otherwise.
    pub tail: u8,
    /// The statement word of the joined line began at `start` and runs on.
    pub open: bool,
    pub start: int,
    /// A statement word that is a free-form keyword has been met.
    pub found: bool,
}

/// The lexer's state before the first byte.
pub open spec fn lex_start() -> LexState {
    LexState { pending: true, comment: false, tail: 0, open: false, start: 0, found: false }
}

/// The lexer's state after byte `i` of `s`, from its state before it.
pub open spec fn lex_step(s: Seq<u8>, st: LexState, i: int) -> LexState {
    let b = s[i];
    let closes = st.open && (is_word_break(b) || b == COMMENT_MARK);
    let found = st.found || (closes && is_free_form_keyword(s.subrange(st.start, i)));
    let open = st.open && !closes;
    if b == LINE_END {
        let joined = if st.comment {
            st.tail == 1
        } else {
            st.tail == 1 || st.tail == 2
        };
        LexState { pending: st.pending || !joined, comment: false, tail: 0, open, start: st.start, found }
    } else if st.comment {
        LexState { open, found, ..st }
    } else if b == COMMENT_MARK {
        LexState { comment: true, open, found, ..st }
    } else {
        let tail: u8 = if b == BACKSLASH {
            1
        } else if b == CARRIAGE_RETURN && st.tail == 1 {
            2
        } else {
            0
        };
        if st.pending && !is_blank(b) && b != BACKSLASH {
            LexState { pending: false, comment: false, tail, open: true, start: i, found }
        } else {
            LexState { tail, open, found, ..st }
        }
    }
}

/// The lexer's state after the first `i` bytes of `s`.
pub open spec fn lex_state(s: Seq<u8>, i: nat) -> LexState
    decreases i,
{
    if i == 0 {
        lex_start()
    } else {
        lex_step(s, lex_state(s, (i - 1) as nat), i - 1)
    }
}

/// Some statement of the document is a free-form keyword: the statement
/// word of a joined line, cut at a blank, a backslash, `#` or the end. Bytes
/// of multi-byte characters count as blanks, and a backslash that opens a
/// joined line is passed over; either way the reader would refuse the
/// statement that it really sees there.
pub open spec fn uses_free_form(s: Seq<u8>) -> bool {
    let st = lex_state(s, s.len());
    st.found || (st.open && is_free_form_keyword(s.subrange(st.start, s.len() as int)))
}

/// Whether some statement of the document is a free-form keyword.
pub fn uses_free_form_statements(s: &Vec<u8>) -> (r: bool)
    ensures
        r == uses_free_form(s@),
{
    let n = s.len();
    let mut i: usize = 0;
    let mut pending = true;
    let mut comment = false;
    let mut tail: u8 = 0;
    let mut open = false;
    let mut start: usize = 0;
    let mut found = false;
    while i < n
        invariant
            n == s@.len(),
            i <= n,
            start <= i,
            lex_state(s@, i as nat) == (LexState {
                pending,
                comment,
                tail,
                open,
                start: start as int,
                found,
            }),
        decreases n - i,
    {
        let b = s[i];
        let closes = open && (word_break(b) || b == COMMENT_MARK);
        if closes && !found && is_free_form_word(s, start, i) {
            found = true;
        }
        if closes {
            open = false;
        }
        if b == LINE_END {
            let joined = if comment {
                tail == 1
            } else {
                tail == 1 || tail == 2
            };
            pending = pending || !joined;
            comment = false;
            tail = 0;
        } else if comment {
        } else if b == COMMENT_MARK {
            comment = true;
        } else {
            tail = if b == BACKSLASH {
                1
            } else if b == CARRIAGE_RETURN && tail == 1 {
                2
            } else {
                0
            };
            if pending && !blank(b) && b != BACKSLASH {
                pending = false;
                open = true;
                start = i;
            }
        }
        i = i + 1;
    }
    found || (open && is_free_form_word(s, start, n))
}

} // verus!
