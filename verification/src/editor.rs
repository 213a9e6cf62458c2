//! A gap buffer: text held in one vector with a run of unused slots at the
//! cursor, so that typing and backspacing touch a single slot.

use vstd::prelude::*;
use vstd::std_specs::iter::IteratorSpec;
use crate::strings::push_char;

verus! {

/// The filler stored in every unused slot.
pub const FILLER: char = '\0';

/// What a gap buffer stands for: the text to the left of the cursor, the
/// text to the right of it, and the room that the gap between them has.
pub struct Text {
    pub before: Seq<char>,
    pub after: Seq<char>,
    pub shape: Shape,
}

impl Text {
    /// The whole text in document order.
    pub open spec fn content(self) -> Seq<char> {
        self.before + self.after
    }

    /// The cursor's offset into `content`.
    pub open spec fn cursor(self) -> int {
        self.before.len() as int
    }

    /// Typing `c` at the cursor: it takes a slot of the gap, which grows
    /// first where it runs short.
    pub open spec fn insert(self, c: char) -> Text {
        Text { before: self.before.push(c), after: self.after, shape: self.shape.typed() }
    }

    /// Backspace: the character left of the cursor goes, if there is one,
    /// and its slot joins the gap.
    pub open spec fn delete(self) -> Text {
        if self.before.len() == 0 {
            self
        } else {
            Text {
                before: self.before.drop_last(),
                after: self.after,
                shape: self.shape.erased(),
            }
        }
    }

    /// The same content in the same room, with the cursor at `index`.
    pub open spec fn relocate(self, index: int) -> Text
        recommends
            0 <= index <= self.content().len(),
    {
        Text {
            before: self.content().take(index),
            after: self.content().skip(index),
            shape: self.shape,
        }
    }

    /// The same text around a grown gap.
    pub open spec fn grown(self) -> Text {
        Text { before: self.before, after: self.after, shape: self.shape.grown() }
    }
}

/// One editing step at the cursor.
pub enum Edit {
    Insert(char),
    Delete,
}

impl Text {
    /// The text after one editing step.
    pub open spec fn apply(self, edit: Edit) -> Text {
        match edit {
            Edit::Insert(c) => self.insert(c),
            Edit::Delete => self.delete(),
        }
    }

    /// The text after a run of editing steps, first to last.
    pub open spec fn replay(self, edits: Seq<Edit>) -> Text
        decreases edits.len(),
    {
        if edits.len() == 0 {
            self
        } else {
            self.replay(edits.drop_last()).apply(edits.last())
        }
    }

    /// The same text held as one sequence with a cursor offset.
    pub open spec fn flat(self) -> Flat {
        Flat { chars: self.content(), cursor: self.cursor() }
    }
}

/// A text held the plain way: one sequence of characters and the offset of
/// the cursor in it.
pub struct Flat {
    pub chars: Seq<char>,
    pub cursor: int,
}

impl Flat {
    /// Typing `c`: it lands at the cursor, which moves past it.
    pub open spec fn insert(self, c: char) -> Flat {
        Flat { chars: self.chars.insert(self.cursor, c), cursor: self.cursor + 1 }
    }

    /// Backspace: the character before the cursor is removed and the cursor
    /// steps back; at offset 0 nothing changes.
    pub open spec fn delete(self) -> Flat {
        if self.cursor == 0 {
            self
        } else {
            Flat { chars: self.chars.remove(self.cursor - 1), cursor: self.cursor - 1 }
        }
    }

    pub open spec fn apply(self, edit: Edit) -> Flat {
        match edit {
            Edit::Insert(c) => self.insert(c),
            Edit::Delete => self.delete(),
        }
    }

    pub open spec fn replay(self, edits: Seq<Edit>) -> Flat
        decreases edits.len(),
    {
        if edits.len() == 0 {
            self
        } else {
            self.replay(edits.drop_last()).apply(edits.last())
        }
    }
}

/// One editing step on the two halves around the gap is the same step on
/// the flat sequence.
pub proof fn lemma_edit_matches_flat(text: Text, edit: Edit)
    ensures
        text.apply(edit).flat() == text.flat().apply(edit),
{
    match edit {
        Edit::Insert(c) => {
            assert(text.insert(c).content() =~= text.content().insert(text.cursor(), c));
        },
        Edit::Delete => {
            if text.before.len() > 0 {
                assert(text.delete().content() =~= text.content().remove(text.cursor() - 1));
            }
        },
    }
}

/// Whatever run of insertions and deletions is applied, the gap buffer's
/// text and cursor are those of a plain character sequence that went
/// through the same run.
pub proof fn lemma_edits_match_flat(text: Text, edits: Seq<Edit>)
    ensures
        text.replay(edits).flat() == text.flat().replay(edits),
    decreases edits.len(),
{
    if edits.len() > 0 {
        lemma_edits_match_flat(text, edits.drop_last());
        lemma_edit_matches_flat(text.replay(edits.drop_last()), edits.last());
    }
}

/// Moving the cursor leaves the content as it is.
pub proof fn lemma_relocate_keeps_content(text: Text, index: int)
    requires
        0 <= index <= text.content().len(),
    ensures
        text.relocate(index).content() == text.content(),
        text.relocate(index).cursor() == index,
{
    assert(text.relocate(index).content() =~= text.content());
}

/// The layout of a gap buffer beside its text: how many unused slots the
/// gap has, and the spare capacity that the backing vector was last laid
/// out with.
pub struct Shape {
    pub width: int,
    pub capacity: int,
}

impl Shape {
    /// The layout after growing: the gap gets twice the larger of the spare
    /// capacity and its own width, and that is the new spare capacity.
    pub open spec fn grown(self) -> Shape {
        let span = 2 * if self.capacity >= self.width {
            self.capacity
        } else {
            self.width
        };
        Shape { width: span, capacity: span }
    }

    /// The layout after one character has been typed: a gap of one or two
    /// slots grows first, then the character takes a slot.
    pub open spec fn typed(self) -> Shape {
        if self.width <= 2 {
            Shape { width: self.grown().width - 1, capacity: self.grown().capacity }
        } else {
            Shape { width: self.width - 1, capacity: self.capacity }
        }
    }

    /// The layout after a character has been deleted: its slot joins the
    /// gap.
    pub open spec fn erased(self) -> Shape {
        Shape { width: self.width + 1, capacity: self.capacity }
    }
}

/// Whether `n` characters can be typed in a row into a buffer of `len`
/// characters laid out as `shape`: each growth on the way must stay within
/// what a vector can address.
pub open spec fn room_for(len: int, shape: Shape, n: nat) -> bool
    decreases n,
{
    if n == 0 {
        true
    } else {
        &&& shape.width <= 2 ==> len + shape.grown().width <= usize::MAX
        &&& room_for(len + 1, shape.typed(), (n - 1) as nat)
    }
}

/// Text with a gap at the cursor. `buffer` is the backing vector,
/// `gap_start` and `gap_end` are the first and the last unused slot, and
/// `capacity` is the number of spare slots that the vector was last laid
/// out with.
pub struct GapBuffer {
    pub buffer: Vec<char>,
    pub capacity: usize,
    pub gap_start: usize,
    pub gap_end: usize,
}

impl View for GapBuffer {
    type V = Text;

    open spec fn view(&self) -> Text {
        Text {
            before: self.buffer@.take(self.gap_start as int),
            after: self.buffer@.skip(self.gap_end + 1),
            shape: Shape { width: self.gap_end - self.gap_start + 1, capacity: self.capacity as int },
        }
    }
}

impl GapBuffer {
    /// The gap is the inclusive range `gap_start ..= gap_end` of the backing
    /// vector; it is never empty and holds only filler. `capacity` is the
    /// number of spare slots the vector was last laid out with.
    pub open spec fn wf(&self) -> bool {
        &&& self.capacity >= 1
        &&& self.gap_start <= self.gap_end < self.buffer@.len()
        &&& forall|i: int| self.gap_start <= i <= self.gap_end ==> self.buffer@[i] == FILLER
    }

    /// Number of unused slots.
    pub open spec fn gap_width(&self) -> int {
        self.gap_end - self.gap_start + 1
    }

    /// Number of live characters.
    pub open spec fn spec_len(&self) -> int {
        self.buffer@.len() - self.gap_width()
    }

    /// The live characters are the text: whatever is not gap is content.
    pub proof fn lemma_spec_len(&self)
        requires
            self.wf(),
        ensures
            self.spec_len() == self@.content().len(),
            self.gap_start == self@.cursor(),
            self.buffer@ =~= self@.before + Seq::new(self.gap_width() as nat, |i: int| FILLER)
                + self@.after,
    {
    }

    /// The room of the gap: its width and the spare capacity.
    pub open spec fn shape(&self) -> Shape {
        self@.shape
    }

    /// A buffer holding `text` followed by `capacity` unused slots, with the
    /// cursor at the end of the text.
    pub fn from_str(text: &str, capacity: usize) -> (buf: GapBuffer)
        requires
            capacity >= 1,
            text@.len() + capacity <= usize::MAX,
        ensures
            buf.wf(),
            buf@.before == text@,
            buf@.after == Seq::<char>::empty(),
            buf.capacity == capacity,
            buf.gap_start == text@.len(),
            buf.gap_end == text@.len() + capacity - 1,
            buf.buffer@ == text@ + Seq::new(capacity as nat, |i: int| FILLER),
    {
        let mut buffer: Vec<char> = Vec::new();
        let mut chars = text.chars();
        loop
            invariant
                chars.obeys_prophetic_iter_laws(),
                chars.decrease() is Some,
                buffer@ + chars.remaining() == text@,
            ensures
                buffer@ == text@,
            decreases chars.decrease()->0,
        {
            let ghost prev = chars;
            match chars.next() {
                Some(c) => {
                    buffer.push(c);
                    assert(buffer@ + chars.remaining() == text@) by {
                        assert(prev.remaining() == seq![c] + chars.remaining());
                        assert(buffer@ + chars.remaining() =~= (buffer@.drop_last() + prev.remaining()));
                    }
                },
                None => {
                    assert(buffer@ =~= buffer@ + chars.remaining());
                    break;
                },
            }
        }
        let length: usize = buffer.len();
        let mut filled: usize = 0;
        while filled < capacity
            invariant
                filled <= capacity,
                length + capacity <= usize::MAX,
                buffer@ == text@ + Seq::new(filled as nat, |i: int| FILLER),
                length == text@.len(),
            decreases capacity - filled,
        {
            buffer.push(FILLER);
            filled = filled + 1;
            assert(buffer@ =~= text@ + Seq::new(filled as nat, |i: int| FILLER));
        }
        let buf = GapBuffer { buffer, capacity, gap_start: length, gap_end: length + capacity - 1 };
        assert(buf@.before =~= text@);
        assert(buf@.after =~= Seq::<char>::empty());
        buf
    }

    /// Moves the gap towards the front until it starts at `index`, one slot at
    /// a time. Nothing happens when the gap already starts at or before `index`.
    pub fn move_gap_left(&mut self, index: usize)
        requires
            old(self).wf(),
        ensures
            final(self).wf(),
            final(self).capacity == old(self).capacity,
            final(self).buffer@.len() == old(self).buffer@.len(),
            final(self).gap_width() == old(self).gap_width(),
            index < old(self).gap_start ==> final(self).gap_start == index && final(self)@
                == old(self)@.relocate(index as int),
            index >= old(self).gap_start ==> *final(self) == *old(self),
    {
        let ghost start = self@;
        while self.gap_start > index
            invariant
                self.wf(),
                self.capacity == old(self).capacity,
                self.buffer@.len() == old(self).buffer@.len(),
                self.gap_width() == old(self).gap_width(),
                self@.content() == start.content(),
                index < old(self).gap_start ==> index <= self.gap_start <= old(self).gap_start,
                index >= old(self).gap_start ==> *self == *old(self),
            decreases self.gap_start,
        {
            let ghost prev = *self;
            self.gap_start = self.gap_start - 1;
            self.gap_end = self.gap_end - 1;
            let moved = self.buffer[self.gap_start];
            self.buffer.set(self.gap_end + 1, moved);
            self.buffer.set(self.gap_start, FILLER);
            proof {
                assert(self@.before =~= prev@.before.drop_last());
                assert(self@.after =~= seq![moved] + prev@.after);
                assert(prev@.before =~= prev@.before.drop_last().push(moved));
                assert(self@.content() =~= prev@.content());
            }
        }
        proof {
            if index < old(self).gap_start {
                assert(self@.before =~= start.content().take(index as int));
                assert(self@.after =~= start.content().skip(index as int));
            }
        }
    }

    /// Moves the gap towards the back until it starts at `index`, one slot at
    /// a time. Nothing happens when the gap already starts at or after `index`.
    pub fn move_gap_right(&mut self, index: usize)
        requires
            old(self).wf(),
            index > old(self).gap_start ==> index <= old(self).spec_len(),
        ensures
            final(self).wf(),
            final(self).capacity == old(self).capacity,
            final(self).buffer@.len() == old(self).buffer@.len(),
            final(self).gap_width() == old(self).gap_width(),
            index > old(self).gap_start ==> final(self).gap_start == index && final(self)@
                == old(self)@.relocate(index as int),
            index <= old(self).gap_start ==> *final(self) == *old(self),
    {
        let ghost start = self@;
        while self.gap_start < index
            invariant
                self.wf(),
                self.capacity == old(self).capacity,
                self.buffer@.len() == old(self).buffer@.len(),
                self.gap_width() == old(self).gap_width(),
                self@.content() == start.content(),
                index > old(self).gap_start ==> old(self).gap_start <= self.gap_start <= index
                    <= self.spec_len(),
                index <= old(self).gap_start ==> *self == *old(self),
            decreases index - self.gap_start,
        {
            let ghost prev = *self;
            assert(self.gap_end + 1 < self.buffer.len());
            self.gap_start = self.gap_start + 1;
            self.gap_end = self.gap_end + 1;
            let moved = self.buffer[self.gap_end];
            self.buffer.set(self.gap_start - 1, moved);
            self.buffer.set(self.gap_end, FILLER);
            proof {
                assert(self@.before =~= prev@.before.push(moved));
                assert(prev@.after =~= seq![moved] + self@.after);
                assert(self@.content() =~= prev@.content());
            }
        }
        proof {
            if index > old(self).gap_start {
                assert(self@.before =~= start.content().take(index as int));
                assert(self@.after =~= start.content().skip(index as int));
            }
        }
    }

    /// Whether a backing vector around the grown gap can be addressed.
    pub open spec fn grow_fits(&self) -> bool {
        self.spec_len() + self.shape().grown().width <= usize::MAX
    }

    /// Lays the text out anew around a larger gap: twice the larger of the
    /// spare capacity and the gap's own width. The text and the cursor stay
    /// as they are; the gap and the backing vector get strictly larger.
    pub fn grow(&mut self)
        requires
            old(self).wf(),
            old(self).grow_fits(),
        ensures
            final(self).wf(),
            final(self)@ == old(self)@.grown(),
            final(self)@.content() == old(self)@.content(),
            final(self).gap_start == old(self).gap_start,
            final(self).buffer@ == old(self)@.before + Seq::new(
                old(self).shape().grown().width as nat,
                |i: int| FILLER,
            ) + old(self)@.after,
            final(self).gap_width() > old(self).gap_width(),
            final(self).buffer@.len() > old(self).buffer@.len(),
    {
        let width: usize = self.gap_end - self.gap_start + 1;
        let base: usize = if self.capacity >= width {
            self.capacity
        } else {
            width
        };
        let new_capacity: usize = base * 2;
        let total: usize = self.buffer.len();
        let mut new_buffer: Vec<char> = Vec::new();
        let mut i: usize = 0;
        while i < self.gap_start
            invariant
                i <= self.gap_start < self.buffer@.len(),
                new_buffer@ == self.buffer@.take(i as int),
            decreases self.gap_start - i,
        {
            new_buffer.push(self.buffer[i]);
            i = i + 1;
            assert(new_buffer@ =~= self.buffer@.take(i as int));
        }
        let mut filled: usize = 0;
        while filled < new_capacity
            invariant
                filled <= new_capacity,
                new_buffer@ == self@.before + Seq::new(filled as nat, |i: int| FILLER),
            decreases new_capacity - filled,
        {
            new_buffer.push(FILLER);
            filled = filled + 1;
            assert(new_buffer@ =~= self@.before + Seq::new(filled as nat, |i: int| FILLER));
        }
        let ghost head = new_buffer@;
        let mut j: usize = self.gap_end + 1;
        while j < total
            invariant
                self.gap_end < j <= total,
                total == self.buffer@.len(),
                new_buffer@ == head + self.buffer@.subrange(self.gap_end + 1, j as int),
            decreases total - j,
        {
            new_buffer.push(self.buffer[j]);
            j = j + 1;
            assert(new_buffer@ =~= head + self.buffer@.subrange(self.gap_end + 1, j as int));
        }
        assert(self.buffer@.subrange(self.gap_end + 1, total as int) =~= self@.after);
        let ghost prev = self@;
        self.gap_end = self.gap_start + new_capacity - 1;
        self.capacity = new_capacity;
        self.buffer = new_buffer;
        proof {
            assert(self@.before =~= prev.before);
            assert(self@.after =~= prev.after);
        }
    }

    /// Whether there is room to type one more character: either the gap
    /// keeps a slot to spare, or the backing vector can grow.
    pub open spec fn insert_fits(&self) -> bool {
        self.gap_width() <= 2 ==> self.grow_fits()
    }

    /// Whether there is room to type `n` more characters, one after the
    /// other.
    pub open spec fn fits(&self, n: nat) -> bool {
        room_for(self.spec_len(), self.shape(), n)
    }

    /// Whether there is room to type `n` more characters, one after the
    /// other.
    pub fn has_room(&self, n: usize) -> (ok: bool)
        requires
            self.wf(),
        ensures
            ok == self.fits(n as nat),
    {
        let total: usize = self.buffer.len();
        let mut width: usize = self.gap_end - self.gap_start + 1;
        let mut len: usize = total - width;
        let mut capacity: usize = self.capacity;
        let mut left: usize = n;
        while left > 0
            invariant
                width >= 1,
                capacity >= 1,
                len + width <= usize::MAX,
                self.fits(n as nat) == room_for(
                    len as int,
                    Shape { width: width as int, capacity: capacity as int },
                    left as nat,
                ),
            decreases left,
        {
            if width <= 2 {
                let base: usize = if capacity >= width {
                    capacity
                } else {
                    width
                };
                if base > usize::MAX / 2 {
                    return false;
                }
                let doubled: usize = base * 2;
                if len > usize::MAX - doubled {
                    return false;
                }
                len = len + 1;
                width = doubled - 1;
                capacity = doubled;
            } else {
                len = len + 1;
                width = width - 1;
            }
            left = left - 1;
        }
        true
    }

    /// Types `c` at the cursor. A gap of one or two slots is grown first, so
    /// that a slot is left over after the write.
    pub fn insert_char(&mut self, c: char)
        requires
            old(self).wf(),
            old(self).insert_fits(),
        ensures
            final(self).wf(),
            final(self)@ == old(self)@.insert(c),
            final(self).gap_start == old(self).gap_start + 1,
            final(self).spec_len() == old(self).spec_len() + 1,
            old(self).gap_width() > 2 ==> final(self).buffer@ == old(self).buffer@.update(
                old(self).gap_start as int,
                c,
            ),
    {
        let gap_range: usize = self.gap_end - self.gap_start;
        if gap_range <= 1 {
            self.grow();
        }
        let ghost prev = *self;
        self.buffer.set(self.gap_start, c);
        self.gap_start = self.gap_start + 1;
        proof {
            assert(self@.before =~= prev@.before.push(c));
            assert(self@.after =~= prev@.after);
        }
    }

    /// Backspace: removes the character left of the cursor and clears its
    /// slot. With the cursor at the very start nothing changes.
    pub fn delete_char(&mut self)
        requires
            old(self).wf(),
        ensures
            final(self).wf(),
            final(self)@ == old(self)@.delete(),
            final(self).capacity == old(self).capacity,
            final(self).gap_end == old(self).gap_end,
            old(self).gap_start == 0 ==> *final(self) == *old(self),
            old(self).gap_start > 0 ==> final(self).gap_start == old(self).gap_start - 1
                && final(self).buffer@ == old(self).buffer@.update(
                old(self).gap_start - 1,
                FILLER,
            ),
    {
        if self.gap_start == 0 {
            assert(self@.before.len() == 0);
            return ;
        }
        let ghost prev = *self;
        self.gap_start = self.gap_start - 1;
        self.buffer.set(self.gap_start, FILLER);
        proof {
            assert(self@.before =~= prev@.before.drop_last());
            assert(self@.after =~= prev@.after);
        }
    }

    /// Puts the cursor at `index`. An `index` beyond the end of the text is
    /// ignored.
    pub fn move_gap(&mut self, index: usize)
        requires
            old(self).wf(),
        ensures
            final(self).wf(),
            final(self).capacity == old(self).capacity,
            final(self).buffer@.len() == old(self).buffer@.len(),
            final(self).gap_width() == old(self).gap_width(),
            final(self)@.content() == old(self)@.content(),
            index <= old(self).spec_len() ==> final(self).gap_start == index && final(self)@
                == old(self)@.relocate(index as int),
            index > old(self).spec_len() || index == old(self).gap_start ==> *final(self) == *old(
                self,
            ),
    {
        let gap_size: usize = self.gap_end - self.gap_start;
        if index >= self.buffer.len() - gap_size {
            return ;
        }
        if index == self.gap_start {
            proof {
                assert(self@.before =~= self@.content().take(index as int));
                assert(self@.after =~= self@.content().skip(index as int));
            }
            return ;
        }
        if index < self.gap_start {
            self.move_gap_left(index);
        } else {
            self.move_gap_right(index);
        }
        proof {
            let old_text = old(self)@;
            assert(old_text.relocate(index as int).content() =~= old_text.content());
        }
    }

    /// The text in document order, without the gap.
    pub fn to_string(&self) -> (text: String)
        requires
            self.wf(),
        ensures
            text@ == self@.content(),
    {
        let mut text = String::new();
        let mut i: usize = 0;
        while i < self.gap_start
            invariant
                i <= self.gap_start < self.buffer@.len(),
                text@ == self.buffer@.take(i as int),
            decreases self.gap_start - i,
        {
            push_char(&mut text, self.buffer[i]);
            i = i + 1;
            assert(text@ =~= self.buffer@.take(i as int));
        }
        let total: usize = self.buffer.len();
        let mut j: usize = self.gap_end + 1;
        while j < total
            invariant
                self.gap_end < j <= total,
                total == self.buffer@.len(),
                text@ == self@.before + self.buffer@.subrange(self.gap_end + 1, j as int),
            decreases total - j,
        {
            push_char(&mut text, self.buffer[j]);
            j = j + 1;
            assert(text@ =~= self@.before + self.buffer@.subrange(self.gap_end + 1, j as int));
        }
        assert(self.buffer@.subrange(self.gap_end + 1, total as int) =~= self@.after);
        text
    }

    /// Number of characters in the text.
    pub fn len(&self) -> (n: usize)
        requires
            self.wf(),
        ensures
            n == self.spec_len(),
            n == self@.content().len(),
    {
        self.buffer.len() - (self.gap_end - self.gap_start) - 1
    }
}

} // verus!
