//! The input stream as data: what successive raw reads of the terminal
//! delivered, in the order in which they arrived.

use std::collections::VecDeque;
use vstd::prelude::*;

verus! {

/// One unit of the input stream: a byte that was read, or the mark left by
/// a read that failed.
#[derive(Debug, Clone, Copy, PartialEq, Eq)]
pub enum ReadItem {
    Byte(u8),
    Fault,
}

/// A read of the underlying stream failed for a reason other than an
/// interruption.
#[derive(Debug, Clone, Copy, PartialEq, Eq)]
pub struct ReadFault;

/// What one raw read of the underlying stream came back with.
#[derive(Debug)]
pub enum ReadOutcome {
    /// The bytes that the read delivered (none at the end of the stream).
    Data(Vec<u8>),
    /// The read was interrupted by a signal and has to be repeated.
    Interrupted,
    /// The read failed.
    Failed,
}

/// The items that a slice of bytes stands for, one `Byte` each.
pub open spec fn byte_items(bytes: Seq<u8>) -> Seq<ReadItem> {
    bytes.map_values(|b: u8| ReadItem::Byte(b))
}

/// What a raw read adds to the stream: its bytes, a fault mark, or, for an
/// interrupted read, nothing at all.
pub open spec fn outcome_items(outcome: ReadOutcome) -> Seq<ReadItem> {
    match outcome {
        ReadOutcome::Data(bytes) => byte_items(bytes@),
        ReadOutcome::Interrupted => Seq::empty(),
        ReadOutcome::Failed => seq![ReadItem::Fault],
    }
}

/// What pulling one item off the front of a stream yields.
pub open spec fn front(stream: Seq<ReadItem>) -> Option<Result<u8, ReadFault>> {
    if stream.len() == 0 {
        None
    } else {
        match stream[0] {
            ReadItem::Byte(b) => Some(Ok(b)),
            ReadItem::Fault => Some(Err(ReadFault)),
        }
    }
}

/// The number of items that pulling one item takes off a stream.
pub open spec fn front_len(stream: Seq<ReadItem>) -> nat {
    if stream.len() == 0 {
        0
    } else {
        1
    }
}

/// A byte source that is read front to back. It is filled from the
/// outcomes of raw reads and handed to the key decoder. It remembers
/// whether it has been asked for an item when it had none.
#[derive(Debug)]
pub struct ByteSource {
    items: VecDeque<ReadItem>,
    dry: bool,
}

impl ByteSource {
    /// The items that have not been pulled yet.
    pub closed spec fn remaining(&self) -> Seq<ReadItem> {
        self.items@
    }

    /// The source has been asked for an item when it had none.
    pub closed spec fn ran_dry(&self) -> bool {
        self.dry
    }

    /// An empty source.
    pub fn new() -> (source: Self)
        ensures
            source.remaining() == Seq::<ReadItem>::empty(),
            !source.ran_dry(),
    {
        ByteSource { items: VecDeque::new(), dry: false }
    }

    /// A source that holds exactly the given bytes.
    pub fn from_bytes(bytes: &[u8]) -> (source: Self)
        ensures
            source.remaining() == byte_items(bytes@),
            !source.ran_dry(),
    {
        let mut source = ByteSource::new();
        source.push_bytes(bytes);
        source
    }

    /// Appends bytes to the end of the stream.
    pub fn push_bytes(&mut self, bytes: &[u8])
        ensures
            final(self).remaining() == old(self).remaining() + byte_items(bytes@),
            final(self).ran_dry() == old(self).ran_dry(),
    {
        let mut i: usize = 0;
        while i < bytes.len()
            invariant
                i <= bytes@.len(),
                self.dry == old(self).dry,
                self.items@ == old(self).items@ + byte_items(bytes@.take(i as int)),
            decreases bytes@.len() - i,
        {
            self.items.push_back(ReadItem::Byte(bytes[i]));
            i += 1;
        }
    }

    /// Records the outcome of one raw read. An interrupted read leaves the
    /// stream as it was, so that the caller simply reads again.
    pub fn push_read(&mut self, outcome: &ReadOutcome)
        ensures
            final(self).remaining() == old(self).remaining() + outcome_items(*outcome),
            final(self).ran_dry() == old(self).ran_dry(),
    {
        match outcome {
            ReadOutcome::Data(bytes) => {
                self.push_bytes(bytes.as_slice());
            },
            ReadOutcome::Interrupted => {},
            ReadOutcome::Failed => {
                self.items.push_back(ReadItem::Fault);
            },
        }
    }

    /// The number of items that have not been pulled yet.
    pub fn len(&self) -> (n: usize)
        ensures
            n == self.remaining().len(),
    {
        self.items.len()
    }

    /// The source has been asked for an item when it had none.
    pub fn has_run_dry(&self) -> (dry: bool)
        ensures
            dry == self.ran_dry(),
    {
        self.dry
    }

    /// Forgets that the source has run dry.
    pub fn refill(&mut self)
        ensures
            final(self).remaining() == old(self).remaining(),
            !final(self).ran_dry(),
    {
        self.dry = false;
    }

    /// A copy of the source as it is.
    pub fn snapshot(&self) -> (copy: Self)
        ensures
            copy.remaining() == self.remaining(),
            copy.ran_dry() == self.ran_dry(),
    {
        let mut items: VecDeque<ReadItem> = VecDeque::new();
        let mut i: usize = 0;
        while i < self.items.len()
            invariant
                i <= self.items@.len(),
                items@ == self.items@.take(i as int),
            decreases self.items@.len() - i,
        {
            items.push_back(self.items[i]);
            i += 1;
        }
        ByteSource { items, dry: self.dry }
    }

    /// The item at the front, without pulling it.
    pub fn peek(&self) -> (item: Option<ReadItem>)
        ensures
            item == if self.remaining().len() == 0 {
                None
            } else {
                Some(self.remaining()[0])
            },
    {
        if self.items.len() > 0 {
            Some(self.items[0])
        } else {
            None
        }
    }

    /// Pulls the item at the front: a byte, the fault of a failed read, or
    /// `None` at the end of the stream.
    pub fn next(&mut self) -> (item: Option<Result<u8, ReadFault>>)
        ensures
            item == front(old(self).remaining()),
            final(self).remaining() == old(self).remaining().skip(
                front_len(old(self).remaining()) as int,
            ),
            final(self).ran_dry() == (old(self).ran_dry() || old(self).remaining().len() == 0),
    {
        match self.items.pop_front() {
            Some(ReadItem::Byte(b)) => Some(Ok(b)),
            Some(ReadItem::Fault) => Some(Err(ReadFault)),
            None => {
                self.dry = true;
                None
            },
        }
    }
}

} // verus!
