//! Input history: previously submitted non-empty input lines, append-only,
//! with an optional browsing cursor.
//!
//! Up moves the cursor toward older entries, clamped at the oldest; Down
//! moves toward newer entries and clears the cursor (reverting to an empty
//! line) once past the newest. Typing or submitting resets the cursor.

use vstd::prelude::*;
use crate::text::{chars_of, trim, trim_spec};

verus! {

pub struct InputHistory {
    pub entries: Vec<String>,
    pub cursor: Option<usize>,
}

impl InputHistory {
    /// The cursor, when set, points at an entry.
    pub open spec fn inv(&self) -> bool {
        match self.cursor {
            Some(i) => i < self.entries@.len(),
            None => true,
        }
    }

    /// The submitted lines, oldest first.
    pub open spec fn lines(&self) -> Seq<Seq<char>> {
        self.entries.deep_view()
    }

    pub fn new() -> (h: Self)
        ensures
            h.inv(),
            h.lines() =~= Seq::<Seq<char>>::empty(),
            h.cursor is None,
    {
        let h = InputHistory { entries: Vec::new(), cursor: None };
        proof {
            assert(h.lines() =~= Seq::<Seq<char>>::empty());
        }
        h
    }

    /// Records a submitted line: appended when it holds a non-whitespace
    /// character, ignored otherwise; browsing always stops.
    pub fn submit(&mut self, line: &str)
        requires
            old(self).inv(),
        ensures
            final(self).inv(),
            final(self).cursor is None,
            final(self).lines() == if trim_spec(line@).len() > 0 {
                old(self).lines().push(line@)
            } else {
                old(self).lines()
            },
    {
        let cv = chars_of(line);
        let trimmed = trim(&cv);
        let ghost before = self.lines();
        if trimmed.len() > 0 {
            self.entries.push(line.to_owned());
            proof {
                assert(self.lines() =~~= before.push(line@));
            }
        }
        self.cursor = None;
    }

    /// Stops browsing, as any ordinary edit of the input line does.
    pub fn reset_cursor(&mut self)
        requires
            old(self).inv(),
        ensures
            final(self).inv(),
            final(self).entries == old(self).entries,
            final(self).cursor is None,
    {
        self.cursor = None;
    }

    /// The index Up moves the cursor to: one step older, clamped at the
    /// oldest entry, entering at the newest.
    pub open spec fn up_index(&self) -> int
        recommends
            self.entries@.len() > 0,
    {
        match self.cursor {
            Some(i) => if i == 0 {
                0
            } else {
                i - 1
            },
            None => self.entries@.len() - 1,
        }
    }

    /// Browses one step toward older entries. With no history there is no
    /// change; otherwise the cursor moves to `up_index` and the entry there
    /// is returned, to become the input line.
    pub fn up(&mut self) -> (shown: Option<String>)
        requires
            old(self).inv(),
        ensures
            final(self).inv(),
            final(self).entries == old(self).entries,
            old(self).entries@.len() == 0 ==> final(self).cursor == old(self).cursor && shown
                is None,
            old(self).entries@.len() > 0 ==> ({
                &&& final(self).cursor == Some(old(self).up_index() as usize)
                &&& shown matches Some(s) && s@ == old(self).lines()[old(self).up_index()]
            }),
    {
        if self.entries.len() == 0 {
            return None;
        }
        let idx: usize = match self.cursor {
            Some(i) => if i == 0 {
                0
            } else {
                i - 1
            },
            None => self.entries.len() - 1,
        };
        self.cursor = Some(idx);
        Some(self.entries[idx].clone())
    }

    /// Browses one step toward newer entries. With no history there is no
    /// change and the input line is left alone. While the cursor is on an
    /// entry with a newer one after it, it advances and that entry is
    /// returned. Otherwise browsing ends: the cursor clears and the empty
    /// string is returned, reverting the input line.
    pub fn down(&mut self) -> (shown: Option<String>)
        requires
            old(self).inv(),
        ensures
            final(self).inv(),
            final(self).entries == old(self).entries,
            old(self).entries@.len() == 0 ==> final(self).cursor == old(self).cursor && shown
                is None,
            old(self).entries@.len() > 0 ==> match old(self).cursor {
                Some(i) if i + 1 < old(self).entries@.len() => ({
                    &&& final(self).cursor == Some((i + 1) as usize)
                    &&& shown matches Some(s) && s@ == old(self).lines()[i + 1]
                }),
                _ => ({
                    &&& final(self).cursor is None
                    &&& shown matches Some(s) && s@ == Seq::<char>::empty()
                }),
            },
    {
        if self.entries.len() == 0 {
            return None;
        }
        match self.cursor {
            Some(i) if i + 1 < self.entries.len() => {
                self.cursor = Some(i + 1);
                Some(self.entries[i + 1].clone())
            },
            _ => {
                self.cursor = None;
                Some(String::new())
            },
        }
    }
}

} // verus!
