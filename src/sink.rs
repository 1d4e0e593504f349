//! A blocking sink of values.
use vstd::prelude::*;

verus! {

/// A value into which other values can be sent.
pub trait IterSink<Item> {
    /// What the sink reports when it fails.
    type Error;

    /// Whether the sink keeps the record `sent`; by default it does not, and
    /// then its methods promise nothing of it.
    open spec fn tracks_sent() -> bool {
        false
    }

    /// The items the sink has accepted so far, in order.
    open spec fn sent(&self) -> Seq<Item> {
        Seq::empty()
    }

    /// Prepares the sink to receive a value; must be called before each
    /// `start_send`. It accepts no item.
    fn ready(&mut self) -> (r: Result<(), Self::Error>)
        ensures
            Self::tracks_sent() ==> final(self).sent() == old(self).sent(),
    ;

    /// Begins sending a value; must follow a successful `ready`. On success
    /// the item is accepted after the others; on failure it is not.
    fn start_send(&mut self, item: Item) -> (r: Result<(), Self::Error>)
        ensures
            Self::tracks_sent() && r is Ok ==> final(self).sent() == old(self).sent().push(item),
            Self::tracks_sent() && r is Err ==> final(self).sent() == old(self).sent(),
    ;

    /// Flushes any remaining output. It accepts no item.
    fn flush(&mut self) -> (r: Result<(), Self::Error>)
        ensures
            Self::tracks_sent() ==> final(self).sent() == old(self).sent(),
    ;
}

/// Combinators over an `IterSink`.
pub trait IterSinkExt<Item>: IterSink<Item> {
    /// Sends one item and flushes.
    fn send(&mut self, item: Item) -> (r: Result<(), Self::Error>)
        ensures
            Self::tracks_sent() && r is Ok ==> final(self).sent() == old(self).sent().push(item),
            Self::tracks_sent() ==> old(self).sent().is_prefix_of(final(self).sent()),
    {
        let r = self.send_all(vec![item]);
        proof {
            if Self::tracks_sent() && r is Ok {
                assert(seq![item] =~= Seq::<Item>::empty().push(item));
                assert(old(self).sent() + seq![item] =~= old(self).sent().push(item));
            }
        }
        r
    }

    /// Sends every item in order, each after a successful `ready`, then
    /// flushes. The first failure stops the sending and is returned; the items
    /// accepted until then stay accepted, in order.
    fn send_all(&mut self, items: Vec<Item>) -> (r: Result<(), Self::Error>)
        ensures
            Self::tracks_sent() && r is Ok ==> final(self).sent() == old(self).sent() + items@,
            Self::tracks_sent() ==> ({
                let k = (final(self).sent().len() - old(self).sent().len()) as int;
                &&& old(self).sent().len() <= final(self).sent().len() <= old(self).sent().len()
                    + items@.len()
                &&& final(self).sent() == old(self).sent() + items@.subrange(0, k)
            }),
    {
        let mut rest = items;
        let ghost start = self.sent();
        proof {
            assert(items@.subrange(0, 0) =~= Seq::<Item>::empty());
            assert(start + items@.subrange(0, 0) =~= start);
            assert(items@.subrange(0, items@.len() as int) =~= items@);
        }
        while rest.len() > 0
            invariant
                start == old(self).sent(),
                Self::tracks_sent() ==> self.sent() == start + items@.subrange(
                    0,
                    items@.len() - rest@.len(),
                ),
                rest@.len() <= items@.len(),
                rest@ == items@.subrange(items@.len() - rest@.len(), items@.len() as int),
            decreases rest.len(),
        {
            let ghost before = rest@;
            let item = rest.remove(0);
            proof {
                assert(rest@ =~= items@.subrange(items@.len() - rest@.len(), items@.len() as int));
                assert(item == items@[items@.len() - before.len()]);
            }
            let ghost done = items@.subrange(0, items@.len() - before.len());
            match self.ready() {
                Ok(()) => {},
                Err(e) => {
                    proof {
                        if Self::tracks_sent() {
                            assert(self.sent().len() - start.len() == done.len());
                            assert(items@.subrange(0, done.len() as int) == done);
                        }
                    }
                    return Err(e);
                },
            }
            match self.start_send(item) {
                Ok(()) => {},
                Err(e) => {
                    proof {
                        if Self::tracks_sent() {
                            assert(self.sent().len() - start.len() == done.len());
                            assert(items@.subrange(0, done.len() as int) == done);
                        }
                    }
                    return Err(e);
                },
            }
            proof {
                assert(items@.subrange(0, items@.len() - rest@.len()) =~= items@.subrange(
                    0,
                    items@.len() - before.len(),
                ).push(item));
            }
        }
        let r = self.flush();
        proof {
            assert(items@.subrange(0, items@.len() as int) =~= items@);
        }
        r
    }
}

impl<T: IterSink<Item>, Item> IterSinkExt<Item> for T {

}

} // verus!
