//! Text layout for the render engine: greedy wrapping of a message into
//! physical lines of bounded visible width.
//!
//! Style-escape sequences (an escape character up to the next ASCII letter)
//! are passed through uninterpreted and excluded from width accounting.
//! Wrapping is greedy, left to right, with mid-word breaks allowed.

use vstd::prelude::*;

verus! {

/// The escape character that opens a terminal style sequence.
pub open spec fn esc_char() -> char {
    '\x1b'
}

pub open spec fn is_alpha_char(c: char) -> bool {
    ('a' <= c && c <= 'z') || ('A' <= c && c <= 'Z')
}

/// Whether the scanner is inside a style-escape sequence after reading `c`
/// in state `in_esc`: an escape character opens a sequence, and the first
/// ASCII letter inside one closes it.
pub open spec fn esc_step(in_esc: bool, c: char) -> bool {
    if c == esc_char() {
        true
    } else if in_esc {
        !is_alpha_char(c)
    } else {
        false
    }
}

/// Whether `c`, read in state `in_esc`, occupies a display column.
pub open spec fn counts_column(in_esc: bool, c: char) -> bool {
    c != esc_char() && !in_esc
}

/// The escape-scanner state after reading all of `s`, starting in `in_esc`.
pub open spec fn esc_after(s: Seq<char>, in_esc: bool) -> bool
    decreases s.len(),
{
    if s.len() == 0 {
        in_esc
    } else {
        esc_after(s.drop_first(), esc_step(in_esc, s[0]))
    }
}

/// Number of display columns `s` occupies, starting in state `in_esc`.
pub open spec fn visible_count(s: Seq<char>, in_esc: bool) -> nat
    decreases s.len(),
{
    if s.len() == 0 {
        0
    } else {
        (if counts_column(in_esc, s[0]) {
            1nat
        } else {
            0nat
        }) + visible_count(s.drop_first(), esc_step(in_esc, s[0]))
    }
}

/// Visible width of one physical line (scanned from outside any sequence).
pub open spec fn visible_len(s: Seq<char>) -> nat {
    visible_count(s, false)
}

/// Greedy wrapping of the remaining input `s` at `avail` visible columns,
/// with `cur` the physical line under construction, `vis` its visible width
/// so far and `in_esc` the scanner state.
pub open spec fn wrap_go(
    s: Seq<char>,
    avail: int,
    cur: Seq<char>,
    vis: int,
    in_esc: bool,
) -> Seq<Seq<char>>
    decreases s.len(),
{
    if s.len() == 0 {
        if cur.len() > 0 {
            seq![cur]
        } else {
            Seq::empty()
        }
    } else {
        let c = s[0];
        if c == esc_char() {
            wrap_go(s.drop_first(), avail, cur.push(c), vis, true)
        } else if in_esc {
            wrap_go(s.drop_first(), avail, cur.push(c), vis, !is_alpha_char(c))
        } else if vis + 1 > avail {
            seq![cur] + wrap_go(s.drop_first(), avail, seq![c], 1, false)
        } else {
            wrap_go(s.drop_first(), avail, cur.push(c), vis + 1, false)
        }
    }
}

/// The physical lines that greedy wrapping cuts `s` into at `avail` visible
/// columns.
pub open spec fn wrap_spec(s: Seq<char>, avail: int) -> Seq<Seq<char>> {
    wrap_go(s, avail, Seq::empty(), 0, false)
}

/// Reading one more character advances the scanner state and adds one column
/// exactly when the character is visible.
proof fn lemma_scan_push(s: Seq<char>, in_esc: bool, c: char)
    ensures
        esc_after(s.push(c), in_esc) == esc_step(esc_after(s, in_esc), c),
        visible_count(s.push(c), in_esc) == visible_count(s, in_esc) + (if counts_column(
            esc_after(s, in_esc),
            c,
        ) {
            1nat
        } else {
            0nat
        }),
    decreases s.len(),
{
    if s.len() == 0 {
        assert(s.push(c).drop_first() =~= Seq::<char>::empty());
        assert(s.push(c)[0] == c);
        assert(esc_after(s.push(c), in_esc) == esc_after(
            Seq::<char>::empty(),
            esc_step(in_esc, c),
        ));
        assert(esc_after(Seq::<char>::empty(), esc_step(in_esc, c)) == esc_step(in_esc, c));
        assert(visible_count(Seq::<char>::empty(), esc_step(in_esc, c)) == 0);
    } else {
        assert(s.push(c)[0] == s[0]);
        assert(s.push(c).drop_first() =~= s.drop_first().push(c));
        lemma_scan_push(s.drop_first(), esc_step(in_esc, s[0]), c);
        assert(esc_after(s.push(c), in_esc) == esc_after(
            s.drop_first().push(c),
            esc_step(in_esc, s[0]),
        ));
        assert(visible_count(s.push(c), in_esc) == (if counts_column(in_esc, s[0]) {
            1nat
        } else {
            0nat
        }) + visible_count(s.drop_first().push(c), esc_step(in_esc, s[0])));
        assert(esc_after(s, in_esc) == esc_after(s.drop_first(), esc_step(in_esc, s[0])));
        assert(visible_count(s, in_esc) == (if counts_column(in_esc, s[0]) {
            1nat
        } else {
            0nat
        }) + visible_count(s.drop_first(), esc_step(in_esc, s[0])));
    }
}

/// Every line that wrapping produces is non-empty and fits in `avail`
/// columns, provided the state invariants of the scan hold of `cur`.
proof fn lemma_wrap_go_lines(s: Seq<char>, avail: int, cur: Seq<char>, vis: int, in_esc: bool)
    requires
        avail >= 1,
        0 <= vis <= avail,
        visible_count(cur, false) == vis,
        esc_after(cur, false) == in_esc,
        vis > 0 ==> cur.len() > 0,
    ensures
        forall|k: int|
            0 <= k < wrap_go(s, avail, cur, vis, in_esc).len() ==> visible_len(
                #[trigger] wrap_go(s, avail, cur, vis, in_esc)[k],
            ) <= avail && wrap_go(s, avail, cur, vis, in_esc)[k].len() > 0,
    decreases s.len(),
{
    let res = wrap_go(s, avail, cur, vis, in_esc);
    if s.len() == 0 {
        if cur.len() > 0 {
            assert(res[0] == cur);
        }
    } else {
        let c = s[0];
        if c == esc_char() {
            lemma_scan_push(cur, false, c);
            lemma_wrap_go_lines(s.drop_first(), avail, cur.push(c), vis, true);
            let sub = wrap_go(s.drop_first(), avail, cur.push(c), vis, true);
            assert forall|k: int| 0 <= k < res.len() implies visible_len(res[k]) <= avail
                && res[k].len() > 0 by {
                assert(res[k] == sub[k]);
            }
        } else if in_esc {
            lemma_scan_push(cur, false, c);
            lemma_wrap_go_lines(s.drop_first(), avail, cur.push(c), vis, !is_alpha_char(c));
            let sub = wrap_go(s.drop_first(), avail, cur.push(c), vis, !is_alpha_char(c));
            assert forall|k: int| 0 <= k < res.len() implies visible_len(res[k]) <= avail
                && res[k].len() > 0 by {
                assert(res[k] == sub[k]);
            }
        } else if vis + 1 > avail {
            assert(visible_count(seq![c], false) == 1 && esc_after(seq![c], false) == false) by {
                assert(seq![c].drop_first() =~= Seq::<char>::empty());
                assert(visible_count(Seq::<char>::empty(), esc_step(false, c)) == 0);
                assert(esc_after(Seq::<char>::empty(), esc_step(false, c)) == esc_step(false, c));
            }
            lemma_wrap_go_lines(s.drop_first(), avail, seq![c], 1, false);
            let sub = wrap_go(s.drop_first(), avail, seq![c], 1, false);
            assert(res == seq![cur] + sub);
            assert forall|k: int| 0 <= k < res.len() implies visible_len(res[k]) <= avail
                && res[k].len() > 0 by {
                if k == 0 {
                    assert(res[0] == cur);
                } else {
                    assert(res[k] == sub[k - 1]);
                }
            }
        } else {
            lemma_scan_push(cur, false, c);
            lemma_wrap_go_lines(s.drop_first(), avail, cur.push(c), vis + 1, false);
            let sub = wrap_go(s.drop_first(), avail, cur.push(c), vis + 1, false);
            assert forall|k: int| 0 <= k < res.len() implies visible_len(res[k]) <= avail
                && res[k].len() > 0 by {
                assert(res[k] == sub[k]);
            }
        }
    }
}

/// When the input fits within `avail` columns, wrapping never cuts: the
/// output is the single line `cur + s` (or nothing at all when both are
/// empty).
proof fn lemma_wrap_go_no_cut(s: Seq<char>, avail: int, cur: Seq<char>, vis: int, in_esc: bool)
    requires
        visible_count(cur, false) == vis,
        esc_after(cur, false) == in_esc,
        vis + visible_count(s, in_esc) <= avail,
    ensures
        wrap_go(s, avail, cur, vis, in_esc) == if cur.len() + s.len() > 0 {
            seq![cur + s]
        } else {
            Seq::<Seq<char>>::empty()
        },
    decreases s.len(),
{
    if s.len() == 0 {
        assert(cur + s =~= cur);
    } else {
        let c = s[0];
        lemma_scan_push(cur, false, c);
        assert(cur.push(c) + s.drop_first() =~= cur + s);
        if c == esc_char() {
            lemma_wrap_go_no_cut(s.drop_first(), avail, cur.push(c), vis, true);
        } else if in_esc {
            lemma_wrap_go_no_cut(s.drop_first(), avail, cur.push(c), vis, !is_alpha_char(c));
        } else {
            assert(vis + 1 <= avail);
            lemma_wrap_go_no_cut(s.drop_first(), avail, cur.push(c), vis + 1, false);
        }
    }
}

/// Wrapping only cuts: the lines, in order, hold exactly the input.
proof fn lemma_wrap_go_content(s: Seq<char>, avail: int, cur: Seq<char>, vis: int, in_esc: bool)
    ensures
        wrap_go(s, avail, cur, vis, in_esc).flatten() == cur + s,
    decreases s.len(),
{
    if s.len() == 0 {
        if cur.len() > 0 {
            assert(seq![cur].drop_first() =~= Seq::<Seq<char>>::empty());
            assert(Seq::<Seq<char>>::empty().flatten() =~= Seq::<char>::empty());
            assert(seq![cur].flatten() =~= cur + s);
        } else {
            assert(Seq::<Seq<char>>::empty().flatten() =~= cur + s);
        }
    } else {
        let c = s[0];
        assert(cur.push(c) + s.drop_first() =~= cur + s);
        if c == esc_char() {
            lemma_wrap_go_content(s.drop_first(), avail, cur.push(c), vis, true);
        } else if in_esc {
            lemma_wrap_go_content(s.drop_first(), avail, cur.push(c), vis, !is_alpha_char(c));
        } else if vis + 1 > avail {
            lemma_wrap_go_content(s.drop_first(), avail, seq![c], 1, false);
            let rest = wrap_go(s.drop_first(), avail, seq![c], 1, false);
            assert((seq![cur] + rest).drop_first() =~= rest);
            assert((seq![cur] + rest).flatten() == cur + rest.flatten());
            assert(seq![c] + s.drop_first() =~= s);
            assert(cur + (seq![c] + s.drop_first()) =~= cur + s);
        } else {
            lemma_wrap_go_content(s.drop_first(), avail, cur.push(c), vis + 1, false);
        }
    }
}

/// Wrapping preserves the message: concatenating the wrapped lines, in
/// order, gives back exactly the input characters.
pub proof fn lemma_wrap_preserves_content(s: Seq<char>, avail: int)
    ensures
        wrap_spec(s, avail).flatten() == s,
{
    lemma_wrap_go_content(s, avail, Seq::empty(), 0, false);
    assert(Seq::<char>::empty() + s =~= s);
}

/// Width bound: with at least one column available, every wrapped line is
/// non-empty and its visible width is at most `avail`.
pub proof fn lemma_wrap_width(s: Seq<char>, avail: int)
    requires
        avail >= 1,
    ensures
        forall|k: int|
            0 <= k < wrap_spec(s, avail).len() ==> visible_len(#[trigger] wrap_spec(s, avail)[k])
                <= avail && wrap_spec(s, avail)[k].len() > 0,
{
    lemma_wrap_go_lines(s, avail, Seq::empty(), 0, false);
}

/// Idempotence: re-wrapping any line that wrapping produced, at the same
/// width, reproduces exactly that line.
pub proof fn lemma_wrap_idempotent(s: Seq<char>, avail: int)
    requires
        avail >= 1,
    ensures
        forall|k: int|
            0 <= k < wrap_spec(s, avail).len() ==> wrap_spec(
                #[trigger] wrap_spec(s, avail)[k],
                avail,
            ) == seq![wrap_spec(s, avail)[k]],
{
    lemma_wrap_width(s, avail);
    assert forall|k: int| 0 <= k < wrap_spec(s, avail).len() implies wrap_spec(
        wrap_spec(s, avail)[k],
        avail,
    ) == seq![wrap_spec(s, avail)[k]] by {
        let l = wrap_spec(s, avail)[k];
        lemma_wrap_go_no_cut(l, avail, Seq::empty(), 0, false);
        assert(Seq::<char>::empty() + l =~= l);
    }
}

/// Greedy wrapping of `msg` at `avail` visible columns.
pub fn wrap_chars(msg: &Vec<char>, avail: usize) -> (lines: Vec<Vec<char>>)
    ensures
        lines.deep_view() == wrap_spec(msg@, avail as int),
{
    let mut lines: Vec<Vec<char>> = Vec::new();
    let mut cur: Vec<char> = Vec::new();
    let mut vis: usize = 0;
    let mut in_esc: bool = false;
    let mut i: usize = 0;
    proof {
        assert(msg@.skip(0) =~= msg@);
        assert(lines.deep_view() =~= Seq::<Seq<char>>::empty());
        assert(Seq::<Seq<char>>::empty() + wrap_spec(msg@, avail as int) =~= wrap_spec(
            msg@,
            avail as int,
        ));
    }
    while i < msg.len()
        invariant
            i <= msg.len(),
            vis <= i,
            wrap_spec(msg@, avail as int) == lines.deep_view() + wrap_go(
                msg@.skip(i as int),
                avail as int,
                cur@,
                vis as int,
                in_esc,
            ),
        decreases msg.len() - i,
    {
        let c = msg[i];
        proof {
            assert(msg@.skip(i as int)[0] == msg@[i as int]);
            assert(msg@.skip(i as int).drop_first() =~= msg@.skip(i + 1));
        }
        if c == '\x1b' {
            cur.push(c);
            in_esc = true;
        } else if in_esc {
            cur.push(c);
            in_esc = !(('a' <= c && c <= 'z') || ('A' <= c && c <= 'Z'));
        } else if vis >= avail {
            let ghost lines0 = lines.deep_view();
            let ghost cur0 = cur@;
            let mut next: Vec<char> = Vec::new();
            next.push(c);
            lines.push(cur);
            cur = next;
            vis = 1;
            proof {
                assert(lines.deep_view() =~~= lines0.push(cur0));
                assert(cur@ =~= seq![c]);
                assert(lines0 + (seq![cur0] + wrap_go(
                    msg@.skip(i + 1),
                    avail as int,
                    seq![c],
                    1,
                    false,
                )) =~= lines0.push(cur0) + wrap_go(msg@.skip(i + 1), avail as int, seq![c], 1, false));
            }
        } else {
            cur.push(c);
            vis = vis + 1;
        }
        i += 1;
    }
    proof {
        assert(msg@.skip(msg@.len() as int) =~= Seq::<char>::empty());
    }
    if cur.len() > 0 {
        let ghost lines0 = lines.deep_view();
        let ghost cur0 = cur@;
        lines.push(cur);
        proof {
            assert(lines.deep_view() =~~= lines0.push(cur0));
            assert(lines0 + seq![cur0] =~= lines0.push(cur0));
        }
    } else {
        proof {
            assert(lines.deep_view() + Seq::<Seq<char>>::empty() =~= lines.deep_view());
        }
    }
    lines
}

/// A run of `n` spaces.
pub open spec fn spaces(n: nat) -> Seq<char> {
    Seq::new(n, |i: int| ' ')
}

/// One wrapped line as the terminal shows it: `left` spaces of padding, the
/// content, then spaces out to `width` characters when the result is shorter.
pub open spec fn pad_line_spec(l: Seq<char>, left: nat, width: nat) -> Seq<char> {
    let padded = spaces(left) + l;
    if padded.len() < width {
        padded + spaces((width - padded.len()) as nat)
    } else {
        padded
    }
}

fn pad_line(l: &Vec<char>, left: usize, width: usize) -> (r: Vec<char>)
    ensures
        r@ == pad_line_spec(l@, left as nat, width as nat),
{
    let mut r: Vec<char> = Vec::new();
    let mut k: usize = 0;
    while k < left
        invariant
            k <= left,
            r@ == spaces(k as nat),
        decreases left - k,
    {
        r.push(' ');
        proof {
            assert(spaces(k as nat).push(' ') =~= spaces((k + 1) as nat));
        }
        k += 1;
    }
    let mut m: usize = 0;
    while m < l.len()
        invariant
            m <= l.len(),
            r@ == spaces(left as nat) + l@.subrange(0, m as int),
        decreases l.len() - m,
    {
        r.push(l[m]);
        proof {
            assert((spaces(left as nat) + l@.subrange(0, m as int)).push(l@[m as int]) =~= spaces(
                left as nat,
            ) + l@.subrange(0, m + 1));
        }
        m += 1;
    }
    proof {
        assert(l@.subrange(0, l@.len() as int) =~= l@);
    }
    let ghost base = spaces(left as nat) + l@;
    let ghost base_len = r@.len();
    proof {
        assert(base + spaces(0) =~= base);
    }
    while r.len() < width
        invariant
            base_len == base.len(),
            base_len <= r@.len(),
            r@.len() == base_len || r@.len() <= width,
            r@ == base + spaces((r@.len() - base_len) as nat),
        decreases width - r.len(),
    {
        r.push(' ');
        proof {
            assert((base + spaces((r@.len() - 1 - base_len) as nat)).push(' ') =~= base + spaces(
                (r@.len() - base_len) as nat,
            ));
        }
    }
    proof {
        if base.len() >= width {
            assert(spaces(0) =~= Seq::<char>::empty());
            assert(base + Seq::<char>::empty() =~= base);
        }
        assert(r@ =~= pad_line_spec(l@, left as nat, width as nat));
    }
    r
}

/// The columns available for message content at terminal width `width` with
/// `left` columns of padding.
pub open spec fn avail_width(width: nat, left: nat) -> int {
    if left <= width {
        width - left
    } else {
        0
    }
}

/// The fully rendered physical lines of one logical message: wrapped at the
/// available width, then padded.
pub open spec fn format_message_spec(msg: Seq<char>, width: nat, left: nat) -> Seq<Seq<char>> {
    wrap_spec(msg, avail_width(width, left)).map_values(
        |l: Seq<char>| pad_line_spec(l, left, width),
    )
}

/// Wraps and pads one logical message for display.
pub fn format_message(msg: &str, width: usize, left: usize) -> (lines: Vec<String>)
    ensures
        lines.deep_view() == format_message_spec(msg@, width as nat, left as nat),
{
    let cv = crate::text::chars_of(msg);
    let avail: usize = if left <= width {
        width - left
    } else {
        0
    };
    let wrapped = wrap_chars(&cv, avail);
    let mut lines: Vec<String> = Vec::new();
    let ghost target = format_message_spec(msg@, width as nat, left as nat);
    let mut k: usize = 0;
    while k < wrapped.len()
        invariant
            k <= wrapped.len(),
            wrapped.deep_view() == wrap_spec(msg@, avail_width(width as nat, left as nat)),
            target == format_message_spec(msg@, width as nat, left as nat),
            lines.deep_view() =~= target.subrange(0, k as int),
        decreases wrapped.len() - k,
    {
        let ghost lines0 = lines.deep_view();
        let padded = pad_line(&wrapped[k], left, width);
        lines.push(crate::text::string_of(&padded));
        proof {
            assert(wrapped@[k as int].deep_view() =~= wrapped@[k as int]@);
            assert(wrapped.deep_view()[k as int] == wrapped@[k as int]@);
            assert(target[k as int] == pad_line_spec(
                wrapped@[k as int]@,
                left as nat,
                width as nat,
            ));
            assert(lines.deep_view() =~~= lines0.push(padded@));
            assert(lines0.push(padded@) =~= target.subrange(0, k + 1));
        }
        k += 1;
    }
    proof {
        assert(target.subrange(0, target.len() as int) =~= target);
        assert(lines.deep_view() =~= target);
    }
    lines
}

} // verus!
