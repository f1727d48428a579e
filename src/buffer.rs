//! The rolling buffer of the current word.
use vstd::prelude::*;

verus! {

/// Capacity of the rolling key buffer.
pub const KEY_BUFSIZE: usize = 40;

/// How many of the most recent keys survive when a full buffer is compacted.
pub const KEYS_MAINTAIN: usize = 20;

/// A buffer that has reached capacity keeps only its last `KEYS_MAINTAIN` keys.
pub open spec fn compacted(s: Seq<char>) -> Seq<char> {
    if s.len() >= KEY_BUFSIZE {
        s.subrange(s.len() - KEYS_MAINTAIN, s.len() as int)
    } else {
        s
    }
}

/// Appending a key: compact first when full, then add the key at the tail.
pub open spec fn pushed(s: Seq<char>, c: char) -> Seq<char> {
    compacted(s).push(c)
}

/// Relies on `String::push`: the string grows by exactly the given char at its end.
#[verifier::external_body]
pub(crate) fn push_char(s: &mut String, c: char)
    ensures
        final(s)@ == old(s)@.push(c),
{
    s.push(c);
}

/// The characters of the current word as they stand on screen, oldest first.
#[derive(Debug)]
pub struct KeyBuffer {
    keys: Vec<char>,
}

impl View for KeyBuffer {
    type V = Seq<char>;

    closed spec fn view(&self) -> Seq<char> {
        self.keys@
    }
}

impl KeyBuffer {
    pub fn new() -> (r: Self)
        ensures
            r@ == Seq::<char>::empty(),
    {
        KeyBuffer { keys: Vec::new() }
    }

    pub fn len(&self) -> (r: usize)
        ensures
            r == self@.len(),
    {
        self.keys.len()
    }

    pub fn get(&self, i: usize) -> (r: char)
        requires
            i < self@.len(),
        ensures
            r == self@[i as int],
    {
        self.keys[i]
    }

    /// Drops the oldest keys of a full buffer, keeping the last `KEYS_MAINTAIN`.
    fn throw_buf(&mut self)
        ensures
            final(self)@ == compacted(old(self)@),
    {
        let n = self.keys.len();
        if n >= KEY_BUFSIZE {
            let start = n - KEYS_MAINTAIN;
            let mut kept: Vec<char> = Vec::new();
            let mut i: usize = start;
            while i < n
                invariant
                    start <= i <= n,
                    n == self.keys@.len(),
                    kept@ == self.keys@.subrange(start as int, i as int),
                decreases n - i,
            {
                kept.push(self.keys[i]);
                i += 1;
                assert(kept@ =~= self.keys@.subrange(start as int, i as int));
            }
            self.keys = kept;
        }
    }

    /// Appends a key, compacting first when the buffer is full.
    pub fn push(&mut self, c: char)
        ensures
            final(self)@ == pushed(old(self)@, c),
    {
        self.throw_buf();
        self.keys.push(c);
    }

    /// Removes and returns the tail key.
    pub fn pop(&mut self) -> (r: Option<char>)
        ensures
            old(self)@.len() == 0 ==> r is None && final(self)@ == old(self)@,
            old(self)@.len() > 0 ==> r == Some(old(self)@.last()) && final(self)@
                == old(self)@.drop_last(),
    {
        self.keys.pop()
    }

    /// Overwrites the key at `i` in place.
    pub fn set(&mut self, i: usize, c: char)
        requires
            i < old(self)@.len(),
        ensures
            final(self)@ == old(self)@.update(i as int, c),
    {
        self.keys[i] = c;
    }

    pub fn clear(&mut self)
        ensures
            final(self)@ == Seq::<char>::empty(),
    {
        self.keys.clear();
    }

    /// The keys from position `from` to the tail, as text.
    pub fn text_from(&self, from: usize) -> (r: String)
        requires
            from <= self@.len(),
        ensures
            r@ == self@.subrange(from as int, self@.len() as int),
    {
        let n = self.keys.len();
        let mut s = String::new();
        let mut i: usize = from;
        while i < n
            invariant
                from <= i <= n,
                n == self@.len(),
                s@ == self@.subrange(from as int, i as int),
            decreases n - i,
        {
            push_char(&mut s, self.keys[i]);
            i += 1;
            assert(s@ =~= self@.subrange(from as int, i as int));
        }
        s
    }
}

} // verus!
