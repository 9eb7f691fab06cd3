//! One-way, first-in first-out channel of commands from the logic thread to
//! the render thread. Sending never blocks; receiving takes everything that
//! is pending and never waits for more.

use vstd::prelude::*;

verus! {

/// Why a channel operation failed.
#[derive(PartialEq, Eq, Structural, Copy, Clone, Debug)]
pub enum ChannelError {
    /// The other end has gone away.
    Disconnected,
}

/// The channel: the commands sent and not yet drained, oldest first, and
/// whether each end is still there.
pub struct CommandChannel<T> {
    queue: Vec<T>,
    producer_connected: bool,
    consumer_connected: bool,
}

impl<T> View for CommandChannel<T> {
    type V = Seq<T>;

    /// The pending commands, oldest first.
    closed spec fn view(&self) -> Seq<T> {
        self.queue@
    }
}

impl<T> CommandChannel<T> {
    pub closed spec fn producer_connected(&self) -> bool {
        self.producer_connected
    }

    pub closed spec fn consumer_connected(&self) -> bool {
        self.consumer_connected
    }

    /// An empty channel with both ends connected.
    pub fn new() -> (r: CommandChannel<T>)
        ensures
            r@ == Seq::<T>::empty(),
            r.producer_connected(),
            r.consumer_connected(),
    {
        CommandChannel { queue: Vec::new(), producer_connected: true, consumer_connected: true }
    }

    /// Appends `command`; fails, handing the command back, only when the
    /// consumer has gone away.
    pub fn send(&mut self, command: T) -> (r: Result<(), (ChannelError, T)>)
        ensures
            old(self).consumer_connected() ==> r is Ok && final(self)@ == old(self)@.push(command),
            !old(self).consumer_connected() ==> r == Err::<(), (ChannelError, T)>((ChannelError::Disconnected, command))
                && final(self)@ == old(self)@,
            final(self).producer_connected() == old(self).producer_connected(),
            final(self).consumer_connected() == old(self).consumer_connected(),
    {
        if self.consumer_connected {
            self.queue.push(command);
            Ok(())
        } else {
            Err((ChannelError::Disconnected, command))
        }
    }

    /// Takes every pending command, oldest first, leaving the channel empty;
    /// it never waits for more. Once the producer has gone away the
    /// pending commands come with the disconnect, which is fatal: the
    /// producer left without a clean shutdown.
    pub fn drain(&mut self) -> (r: Result<Vec<T>, (ChannelError, Vec<T>)>)
        ensures
            final(self)@ == Seq::<T>::empty(),
            old(self).producer_connected() ==> r is Ok && r->Ok_0@ == old(self)@,
            !old(self).producer_connected() ==> r is Err && r->Err_0.0 == ChannelError::Disconnected
                && r->Err_0.1@ == old(self)@,
            final(self).producer_connected() == old(self).producer_connected(),
            final(self).consumer_connected() == old(self).consumer_connected(),
    {
        let mut taken: Vec<T> = Vec::new();
        std::mem::swap(&mut taken, &mut self.queue);
        if self.producer_connected {
            Ok(taken)
        } else {
            Err((ChannelError::Disconnected, taken))
        }
    }

    /// The producer hangs up.
    pub fn close_producer(&mut self)
        ensures
            final(self)@ == old(self)@,
            !final(self).producer_connected(),
            final(self).consumer_connected() == old(self).consumer_connected(),
    {
        self.producer_connected = false;
    }

    /// The consumer hangs up; later sends fail.
    pub fn close_consumer(&mut self)
        ensures
            final(self)@ == old(self)@,
            final(self).producer_connected() == old(self).producer_connected(),
            !final(self).consumer_connected(),
    {
        self.consumer_connected = false;
    }

    /// Number of pending commands.
    pub fn len(&self) -> (r: usize)
        ensures
            r == self@.len(),
    {
        self.queue.len()
    }
}

} // verus!
