//! The scrollback buffer: an ordered sequence of wrapped line-groups, one
//! per logical message, bounded at `SCROLLBACK_CAPACITY` groups. Appending
//! beyond the bound evicts the oldest group; nothing else removes anything.
//!
//! The visible window over the flattened physical lines is the last
//! `height` lines, shifted up by the scroll offset.

use vstd::prelude::*;

verus! {

/// Most logical messages the scrollback keeps.
pub const SCROLLBACK_CAPACITY: usize = 100;

/// A scrollback of wrapped line-groups; the view is the sequence of groups,
/// oldest first, each group a sequence of physical lines.
pub struct ScrollbackBuffer {
    pub groups: Vec<Vec<String>>,
}

/// Appending a group to a scrollback at capacity evicts the oldest group.
pub open spec fn push_group_spec(sb: Seq<Seq<Seq<char>>>, g: Seq<Seq<char>>) -> Seq<
    Seq<Seq<char>>,
> {
    if sb.len() < SCROLLBACK_CAPACITY {
        sb.push(g)
    } else {
        sb.drop_first().push(g)
    }
}

impl View for ScrollbackBuffer {
    type V = Seq<Seq<Seq<char>>>;

    open spec fn view(&self) -> Seq<Seq<Seq<char>>> {
        self.groups.deep_view()
    }
}

impl ScrollbackBuffer {
    /// The buffer never holds more logical messages than its capacity.
    pub open spec fn inv(&self) -> bool {
        self@.len() <= SCROLLBACK_CAPACITY
    }

    pub fn new() -> (s: Self)
        ensures
            s.inv(),
            s@ =~= Seq::<Seq<Seq<char>>>::empty(),
    {
        let s = ScrollbackBuffer { groups: Vec::new() };
        proof {
            assert(s@ =~= Seq::<Seq<Seq<char>>>::empty());
        }
        s
    }

    /// Number of logical messages stored.
    pub fn group_count(&self) -> (n: usize)
        ensures
            n == self@.len(),
    {
        self.groups.len()
    }

    /// Appends one wrapped line-group, evicting the oldest group when the
    /// buffer is at capacity; the bound is never exceeded.
    pub fn push_group(&mut self, g: Vec<String>)
        requires
            old(self).inv(),
        ensures
            final(self).inv(),
            final(self)@ == push_group_spec(old(self)@, g.deep_view()),
            final(self)@.len() <= SCROLLBACK_CAPACITY,
    {
        let ghost before = self@;
        if self.groups.len() == SCROLLBACK_CAPACITY {
            self.groups.remove(0);
            proof {
                assert(self.groups.deep_view() =~~= before.drop_first());
            }
        }
        let ghost mid = self@;
        self.groups.push(g);
        proof {
            assert(self.groups.deep_view() =~~= mid.push(g.deep_view()));
        }
    }

    /// All physical lines, oldest first.
    pub fn flat_lines(&self) -> (r: Vec<String>)
        ensures
            r.deep_view() == self@.flatten(),
    {
        let mut r: Vec<String> = Vec::new();
        let mut i: usize = 0;
        proof {
            assert(self@.subrange(0, 0) =~= Seq::<Seq<Seq<char>>>::empty());
            assert(Seq::<Seq<Seq<char>>>::empty().flatten() =~= Seq::<Seq<char>>::empty());
            assert(r.deep_view() =~= Seq::<Seq<char>>::empty());
        }
        while i < self.groups.len()
            invariant
                i <= self.groups@.len(),
                r.deep_view() == self@.subrange(0, i as int).flatten(),
            decreases self.groups@.len() - i,
        {
            let ghost group_dv = self@[i as int];
            let ghost r0 = r.deep_view();
            let mut j: usize = 0;
            proof {
                assert(self.groups@[i as int].deep_view() == group_dv);
                assert(r0 + group_dv.subrange(0, 0) =~= r0);
            }
            while j < self.groups[i].len()
                invariant
                    i < self.groups@.len(),
                    j <= self.groups@[i as int]@.len(),
                    group_dv == self.groups@[i as int].deep_view(),
                    r.deep_view() == r0 + group_dv.subrange(0, j as int),
                decreases self.groups@[i as int]@.len() - j,
            {
                let ghost rprev = r.deep_view();
                let line = self.groups[i][j].clone();
                r.push(line);
                proof {
                    assert(r.deep_view() =~~= rprev.push(self.groups@[i as int]@[j as int]@));
                    assert(group_dv[j as int] == self.groups@[i as int]@[j as int]@);
                    assert((r0 + group_dv.subrange(0, j as int)).push(group_dv[j as int]) =~= r0
                        + group_dv.subrange(0, j + 1));
                }
                j += 1;
            }
            proof {
                assert(group_dv.subrange(0, group_dv.len() as int) =~= group_dv);
                assert(self@.subrange(0, i + 1) =~= self@.subrange(0, i as int).push(
                    self@[i as int],
                ));
                self@.subrange(0, i as int).lemma_flatten_push(self@[i as int]);
            }
            i += 1;
        }
        proof {
            assert(self@.subrange(0, self@.len() as int) =~= self@);
        }
        r
    }

    /// The window of physical lines the terminal shows: the last `height`
    /// lines, shifted up by `offset`.
    pub fn visible_lines(&self, height: usize, offset: usize) -> (r: Vec<String>)
        ensures
            r.deep_view() == self@.flatten().subrange(
                visible_start_spec(self@.flatten().len(), height as nat, offset as nat),
                visible_end_spec(self@.flatten().len(), offset as nat),
            ),
    {
        let flat = self.flat_lines();
        let start = visible_start(flat.len(), height, offset);
        let end = visible_end(flat.len(), offset);
        let mut r: Vec<String> = Vec::new();
        let mut k: usize = start;
        proof {
            assert(r.deep_view() =~= flat.deep_view().subrange(start as int, start as int));
        }
        while k < end
            invariant
                start <= k <= end <= flat@.len(),
                r.deep_view() == flat.deep_view().subrange(start as int, k as int),
            decreases end - k,
        {
            let ghost rprev = r.deep_view();
            let line = flat[k].clone();
            r.push(line);
            proof {
                assert(r.deep_view() =~~= rprev.push(flat@[k as int]@));
                assert(flat.deep_view()[k as int] == flat@[k as int]@);
                assert(flat.deep_view().subrange(start as int, k as int).push(
                    flat.deep_view()[k as int],
                ) =~= flat.deep_view().subrange(start as int, k + 1));
            }
            k += 1;
        }
        r
    }
}

/// Index of the first visible physical line.
pub open spec fn visible_start_spec(flat_len: nat, height: nat, offset: nat) -> int {
    if flat_len > height + offset {
        flat_len - height - offset
    } else {
        0
    }
}

/// One past the index of the last visible physical line.
pub open spec fn visible_end_spec(flat_len: nat, offset: nat) -> int {
    if flat_len >= offset {
        flat_len - offset
    } else {
        0
    }
}

pub fn visible_start(flat_len: usize, height: usize, offset: usize) -> (s: usize)
    ensures
        s == visible_start_spec(flat_len as nat, height as nat, offset as nat),
        s <= flat_len,
        s <= visible_end_spec(flat_len as nat, offset as nat),
{
    if flat_len > height && flat_len - height > offset {
        flat_len - height - offset
    } else {
        0
    }
}

pub fn visible_end(flat_len: usize, offset: usize) -> (e: usize)
    ensures
        e == visible_end_spec(flat_len as nat, offset as nat),
        e <= flat_len,
{
    if offset >= flat_len {
        0
    } else {
        flat_len - offset
    }
}

/// The scroll offset after one page up: five lines further back, clamped to
/// one less than the number of physical lines (and zero when there are
/// none).
pub open spec fn page_up_spec(offset: nat, flat_len: nat) -> nat {
    let cap: nat = if flat_len > 0 {
        (flat_len - 1) as nat
    } else {
        0
    };
    if offset + 5 <= cap {
        (offset + 5) as nat
    } else {
        cap
    }
}

pub fn page_up(offset: usize, flat_len: usize) -> (r: usize)
    ensures
        r == page_up_spec(offset as nat, flat_len as nat),
{
    let cap: usize = if flat_len > 0 {
        flat_len - 1
    } else {
        0
    };
    if offset >= cap {
        cap
    } else if cap - offset < 5 {
        cap
    } else {
        offset + 5
    }
}

/// The scroll offset after one page down: five lines forward, clamped at
/// zero.
pub open spec fn page_down_spec(offset: nat) -> nat {
    if offset >= 5 {
        (offset - 5) as nat
    } else {
        0
    }
}

pub fn page_down(offset: usize) -> (r: usize)
    ensures
        r == page_down_spec(offset as nat),
{
    if offset >= 5 {
        offset - 5
    } else {
        0
    }
}

} // verus!
