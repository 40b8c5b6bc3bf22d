//! Splits a body that is one top-level JSON array into its elements, chunk
//! by chunk, without waiting for the end of the array.

use vstd::prelude::*;

verus! {

/// Whether a byte is JSON whitespace: space, tab, line feed, carriage return.
pub open spec fn is_space(byte: u8) -> bool {
    byte == 0x20 || byte == 0x09 || byte == 0x0a || byte == 0x0d
}

/// Where a scan of the body stands.
pub struct Framing {
    /// The bracket that opens the array has been read.
    pub opened: bool,
    /// The bracket that closes the array has been read.
    pub closed: bool,
    /// The bytes read so far do not frame an array.
    pub broken: bool,
    /// How many brackets and braces stand open inside the element under way.
    pub depth: nat,
    /// The scan stands inside a string literal.
    pub in_string: bool,
    /// The byte before was a backslash that escapes the next one.
    pub escaped: bool,
    /// The bytes of the element under way, if one has begun.
    pub pending: Option<Seq<u8>>,
}

impl Framing {
    /// Before the first byte.
    pub open spec fn start() -> Framing {
        Framing {
            opened: false,
            closed: false,
            broken: false,
            depth: 0,
            in_string: false,
            escaped: false,
            pending: None,
        }
    }

    /// The element under way with one more byte.
    pub open spec fn grown(self, byte: u8) -> Seq<u8> {
        match self.pending {
            Some(bytes) => bytes.push(byte),
            None => seq![byte],
        }
    }

    /// Reads one byte: the state after it, and the element that it completes
    /// if it completes one.
    ///
    /// Outside the array only whitespace may stand. Inside it, an element
    /// begins at the first byte that is neither whitespace nor a comma. One
    /// that nests ends with the bracket or brace that brings the nesting back
    /// to the array's own level; a string at that level ends with its closing
    /// quote; any other ends before the comma or the closing bracket that
    /// follows it. Inside a string literal brackets, braces and commas are
    /// text, and a backslash takes the next byte with it.
    pub open spec fn step(self, byte: u8) -> (Framing, Option<Seq<u8>>) {
        let more = Some(self.grown(byte));
        if self.broken {
            (self, None)
        } else if !self.opened {
            if is_space(byte) {
                (self, None)
            } else if byte == 0x5b {
                (Framing { opened: true, ..self }, None)
            } else {
                (Framing { broken: true, ..self }, None)
            }
        } else if self.closed {
            if is_space(byte) {
                (self, None)
            } else {
                (Framing { broken: true, ..self }, None)
            }
        } else if self.in_string {
            if self.escaped {
                (Framing { escaped: false, pending: more, ..self }, None)
            } else if byte == 0x5c {
                (Framing { escaped: true, pending: more, ..self }, None)
            } else if byte == 0x22 {
                if self.depth == 0 {
                    (Framing { in_string: false, pending: None, ..self }, more)
                } else {
                    (Framing { in_string: false, pending: more, ..self }, None)
                }
            } else {
                (Framing { pending: more, ..self }, None)
            }
        } else if byte == 0x22 {
            (Framing { in_string: true, pending: more, ..self }, None)
        } else if byte == 0x7b || byte == 0x5b {
            (Framing { depth: self.depth + 1, pending: more, ..self }, None)
        } else if byte == 0x7d || byte == 0x5d {
            if self.depth > 1 {
                (Framing { depth: (self.depth - 1) as nat, pending: more, ..self }, None)
            } else if self.depth == 1 {
                (Framing { depth: 0, pending: None, ..self }, more)
            } else if byte == 0x5d {
                (Framing { closed: true, pending: None, ..self }, self.pending)
            } else {
                (Framing { broken: true, pending: None, ..self }, None)
            }
        } else if byte == 0x2c {
            if self.depth > 0 {
                (Framing { pending: more, ..self }, None)
            } else {
                (Framing { pending: None, ..self }, self.pending)
            }
        } else if is_space(byte) && self.pending is None {
            (self, None)
        } else {
            (Framing { pending: more, ..self }, None)
        }
    }

    /// Reads a run of bytes: the state after them, and the elements that
    /// they complete, in order.
    pub open spec fn run(self, bytes: Seq<u8>) -> (Framing, Seq<Seq<u8>>)
        decreases bytes.len(),
    {
        if bytes.len() == 0 {
            (self, Seq::empty())
        } else {
            let (before, frames) = self.run(bytes.drop_last());
            let (after, frame) = before.step(bytes.last());
            (
                after,
                match frame {
                    Some(bytes) => frames.push(bytes),
                    None => frames,
                },
            )
        }
    }

    /// What holds of every state that a scan reaches.
    pub open spec fn sound(self) -> bool {
        &&& self.escaped ==> self.in_string
        &&& self.broken || !self.opened || self.closed ==> self.pending is None
        &&& match self.pending {
            Some(bytes) => bytes.len() > 0 && self.depth <= bytes.len(),
            None => self.depth == 0 && !self.in_string,
        }
    }

    /// Whether the body may end here: the bytes frame an array so far, and no
    /// element is under way.
    pub open spec fn settled(self) -> bool {
        !self.broken && self.pending is None
    }

    /// A step keeps a state sound.
    pub proof fn lemma_step_sound(self, byte: u8)
        requires
            self.sound(),
        ensures
            self.step(byte).0.sound(),
    {
    }

    /// A run keeps a state sound.
    pub proof fn lemma_run_sound(self, bytes: Seq<u8>)
        requires
            self.sound(),
        ensures
            self.run(bytes).0.sound(),
        decreases bytes.len(),
    {
        if bytes.len() > 0 {
            self.lemma_run_sound(bytes.drop_last());
            self.run(bytes.drop_last()).0.lemma_step_sound(bytes.last());
        }
    }

    /// Reading two runs one after the other is reading them as one: the
    /// state is the same, and the elements of the first run are followed by
    /// those of the second. So it does not matter where a body is cut into
    /// chunks.
    pub proof fn lemma_run_concat(self, first: Seq<u8>, second: Seq<u8>)
        ensures
            self.run(first + second).0 == self.run(first).0.run(second).0,
            self.run(first + second).1 == self.run(first).1 + self.run(first).0.run(second).1,
        decreases second.len(),
    {
        if second.len() > 0 {
            assert((first + second).drop_last() =~= first + second.drop_last());
            self.lemma_run_concat(first, second.drop_last());
        }
    }

    /// Where the element under way begins in the bytes read so far: at their
    /// end where none is under way.
    pub open spec fn mark(self, read: int) -> int {
        match self.pending {
            Some(bytes) => read - bytes.len(),
            None => read,
        }
    }

    /// The elements of a body are pieces of the body: read from the start,
    /// they lie in it one after the other, in the order in which they come
    /// out, and no two overlap.
    pub proof fn lemma_frames_lie_in_order(bytes: Seq<u8>)
        ensures
            laid_out(Framing::start().run(bytes).1, bytes, bytes.len() as int),
    {
        Self::lemma_scan_lays_out(bytes);
        let (state, frames) = Framing::start().run(bytes);
        assert(bytes.subrange(0, bytes.len() as int) =~= bytes);
        lemma_laid_out_extends(
            frames,
            bytes,
            state.mark(bytes.len() as int),
            bytes,
            bytes.len() as int,
        );
    }

    proof fn lemma_scan_lays_out(bytes: Seq<u8>)
        ensures
            ({
                let (state, frames) = Framing::start().run(bytes);
                let mark = state.mark(bytes.len() as int);
                &&& 0 <= mark <= bytes.len()
                &&& state.pending matches Some(held) ==> held == bytes.subrange(
                    mark,
                    bytes.len() as int,
                )
                &&& laid_out(frames, bytes, mark)
            }),
        decreases bytes.len(),
    {
        if bytes.len() > 0 {
            let shorter = bytes.drop_last();
            let byte = bytes.last();
            Self::lemma_scan_lays_out(shorter);
            Framing::start().lemma_run_sound(shorter);
            let (before, seen) = Framing::start().run(shorter);
            let (after, frame) = before.step(byte);
            let begun = before.mark(shorter.len() as int);
            let end = bytes.len() as int;
            // The element under way, with the new byte, is the tail of the
            // bytes from where it began.
            assert(before.grown(byte) =~= bytes.subrange(begun, end));
            match frame {
                Some(piece) => {
                    // A piece that comes out now ends with the new byte or
                    // just before it.
                    let to = if piece == before.grown(byte) {
                        end
                    } else {
                        end - 1
                    };
                    assert(bytes.subrange(begun, to) == piece);
                    assert(seen.push(piece).drop_last() =~= seen);
                    lemma_laid_out_extends(seen, shorter, begun, bytes, begun);
                },
                None => {
                    lemma_laid_out_extends(seen, shorter, begun, bytes, after.mark(end));
                },
            }
        }
    }

    /// A broken scan stays broken and completes nothing more.
    pub proof fn lemma_broken_is_final(self, bytes: Seq<u8>)
        requires
            self.broken,
        ensures
            self.run(bytes).0 == self,
            self.run(bytes).1 == Seq::<Seq<u8>>::empty(),
        decreases bytes.len(),
    {
        if bytes.len() > 0 {
            self.lemma_broken_is_final(bytes.drop_last());
        }
    }
}

/// Whether the pieces lie in the bytes one after the other, in order and
/// without overlap, the last of them ending at or before `end`.
pub open spec fn laid_out(pieces: Seq<Seq<u8>>, bytes: Seq<u8>, end: int) -> bool
    decreases pieces.len(),
{
    pieces.len() == 0 || exists|from: int, to: int|
        0 <= from <= to <= end && end <= bytes.len() && #[trigger] bytes.subrange(from, to)
            == pieces.last() && laid_out(pieces.drop_last(), bytes, from)
}

proof fn lemma_laid_out_extends(
    pieces: Seq<Seq<u8>>,
    bytes: Seq<u8>,
    end: int,
    longer: Seq<u8>,
    later: int,
)
    requires
        laid_out(pieces, bytes, end),
        bytes.len() <= longer.len(),
        longer.subrange(0, bytes.len() as int) == bytes,
        0 <= end <= later <= longer.len(),
        end <= bytes.len(),
    ensures
        laid_out(pieces, longer, later),
    decreases pieces.len(),
{
    if pieces.len() > 0 {
        let (from, to) = choose|from: int, to: int|
            0 <= from <= to <= end && end <= bytes.len() && #[trigger] bytes.subrange(from, to)
                == pieces.last() && laid_out(pieces.drop_last(), bytes, from);
        lemma_laid_out_extends(pieces.drop_last(), bytes, from, longer, from);
        assert(longer.subrange(from, to) =~= bytes.subrange(from, to));
    }
}

/// What a list of elements holds.
pub open spec fn frames_view(frames: Seq<Vec<u8>>) -> Seq<Seq<u8>> {
    frames.map_values(|frame: Vec<u8>| frame@)
}

/// What an element holds, where there is one.
pub open spec fn frame_view(frame: Option<Vec<u8>>) -> Option<Seq<u8>> {
    match frame {
        Some(bytes) => Some(bytes@),
        None => None,
    }
}

fn is_space_byte(byte: u8) -> (space: bool)
    ensures
        space == is_space(byte),
{
    byte == 0x20 || byte == 0x09 || byte == 0x0a || byte == 0x0d
}

struct Cursor {
    opened: bool,
    closed: bool,
    broken: bool,
    depth: usize,
    in_string: bool,
    escaped: bool,
    has_pending: bool,
    pending: Vec<u8>,
}

impl View for Cursor {
    type V = Framing;

    closed spec fn view(&self) -> Framing {
        Framing {
            opened: self.opened,
            closed: self.closed,
            broken: self.broken,
            depth: self.depth as nat,
            in_string: self.in_string,
            escaped: self.escaped,
            pending: if self.has_pending {
                Some(self.pending@)
            } else {
                None
            },
        }
    }
}

impl Cursor {
    fn start() -> (cursor: Cursor)
        ensures
            cursor@ == Framing::start(),
            cursor.tidy(),
    {
        Cursor {
            opened: false,
            closed: false,
            broken: false,
            depth: 0,
            in_string: false,
            escaped: false,
            has_pending: false,
            pending: Vec::new(),
        }
    }

    /// While no element is under way the buffer is empty.
    spec fn tidy(&self) -> bool {
        !self.has_pending ==> self.pending@.len() == 0
    }

    fn grow(&mut self, byte: u8)
        requires
            old(self).tidy(),
        ensures
            *final(self) == (Cursor { has_pending: true, pending: final(self).pending, ..*old(self) }),
            final(self).pending@ == old(self)@.grown(byte),
    {
        self.pending.push(byte);
        self.has_pending = true;
    }

    fn take(&mut self) -> (frame: Vec<u8>)
        ensures
            *final(self) == (Cursor { has_pending: false, pending: final(self).pending, ..*old(self) }),
            final(self).pending@.len() == 0,
            frame@ == old(self).pending@,
    {
        let mut frame: Vec<u8> = Vec::new();
        std::mem::swap(&mut self.pending, &mut frame);
        self.has_pending = false;
        frame
    }

    fn step(&mut self, byte: u8) -> (frame: Option<Vec<u8>>)
        requires
            old(self)@.sound(),
            old(self).tidy(),
        ensures
            final(self)@ == old(self)@.step(byte).0,
            frame_view(frame) == old(self)@.step(byte).1,
            final(self)@.sound(),
            final(self).tidy(),
    {
        if self.broken {
            None
        } else if !self.opened {
            if byte == 0x5b {
                self.opened = true;
            } else if !is_space_byte(byte) {
                self.broken = true;
            }
            None
        } else if self.closed {
            if !is_space_byte(byte) {
                self.broken = true;
            }
            None
        } else if self.in_string {
            self.grow(byte);
            if self.escaped {
                self.escaped = false;
                None
            } else if byte == 0x5c {
                self.escaped = true;
                None
            } else if byte == 0x22 {
                self.in_string = false;
                if self.depth == 0 {
                    Some(self.take())
                } else {
                    None
                }
            } else {
                None
            }
        } else if byte == 0x22 {
            self.grow(byte);
            self.in_string = true;
            None
        } else if byte == 0x7b || byte == 0x5b {
            self.grow(byte);
            // Each bracket that stands open is a byte of the element, so the
            // count stays below the element's length.
            assert(self.depth < self.pending.len());
            self.depth = self.depth + 1;
            None
        } else if byte == 0x7d || byte == 0x5d {
            if self.depth > 1 {
                self.grow(byte);
                self.depth = self.depth - 1;
                None
            } else if self.depth == 1 {
                self.grow(byte);
                self.depth = 0;
                Some(self.take())
            } else if byte == 0x5d {
                self.closed = true;
                if self.has_pending {
                    Some(self.take())
                } else {
                    None
                }
            } else {
                self.broken = true;
                if self.has_pending {
                    let _ = self.take();
                }
                None
            }
        } else if byte == 0x2c {
            if self.depth > 0 {
                self.grow(byte);
                None
            } else if self.has_pending {
                Some(self.take())
            } else {
                None
            }
        } else if is_space_byte(byte) && !self.has_pending {
            None
        } else {
            self.grow(byte);
            None
        }
    }
}

/// Reads the body of a streamed array chunk by chunk and hands out each
/// element as soon as its last byte has been read. Only the element under
/// way is kept between chunks.
pub struct ArrayDecoder {
    cursor: Cursor,
}

impl View for ArrayDecoder {
    type V = Framing;

    closed spec fn view(&self) -> Framing {
        self.cursor@
    }
}

impl ArrayDecoder {
    #[verifier::type_invariant]
    spec fn consistent(self) -> bool {
        self.cursor@.sound() && self.cursor.tidy()
    }

    /// A decoder that has read nothing.
    pub fn new() -> (decoder: ArrayDecoder)
        ensures
            decoder@ == Framing::start(),
    {
        ArrayDecoder { cursor: Cursor::start() }
    }

    /// Reads the next chunk. Returns the elements that it completes, in
    /// order; an element that began in an earlier chunk comes out whole.
    pub fn feed(&mut self, chunk: &[u8]) -> (frames: Vec<Vec<u8>>)
        ensures
            final(self)@ == old(self)@.run(chunk@).0,
            frames_view(frames@) == old(self)@.run(chunk@).1,
    {
        proof {
            use_type_invariant(&*self);
        }
        let ghost origin = self@;
        let mut cursor = Cursor::start();
        std::mem::swap(&mut self.cursor, &mut cursor);
        let mut frames: Vec<Vec<u8>> = Vec::new();
        let mut i: usize = 0;
        while i < chunk.len()
            invariant
                i <= chunk.len(),
                cursor@.sound(),
                cursor.tidy(),
                cursor@ == origin.run(chunk@.subrange(0, i as int)).0,
                frames_view(frames@) =~= origin.run(chunk@.subrange(0, i as int)).1,
            decreases chunk.len() - i,
        {
            assert(chunk@.subrange(0, i + 1).drop_last() =~= chunk@.subrange(0, i as int));
            if let Some(frame) = cursor.step(chunk[i]) {
                frames.push(frame);
            }
            i += 1;
        }
        assert(chunk@.subrange(0, i as int) =~= chunk@);
        std::mem::swap(&mut self.cursor, &mut cursor);
        frames
    }

    /// Whether the bytes read so far fail to frame an array.
    pub fn is_broken(&self) -> (broken: bool)
        ensures
            broken == self@.broken,
    {
        self.cursor.broken
    }

    /// Whether the body may end here.
    pub fn is_settled(&self) -> (settled: bool)
        ensures
            settled == self@.settled(),
    {
        !self.cursor.broken && !self.cursor.has_pending
    }
}

} // verus!
