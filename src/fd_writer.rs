use vstd::prelude::*;

use std::collections::VecDeque;

verus! {

/// Most descriptors the kernel takes in one `sendmsg` call.
pub const SCM_MAX_FD: usize = 253;

/// What one send call carries: the first `data_len` bytes of the caller's buffer and
/// the first `fd_count` queued descriptors.
#[derive(Debug, Clone, Copy, PartialEq, Eq, Structural)]
pub struct WritePlan {
    pub data_len: usize,
    pub fd_count: usize,
}

/// The batch of one send call. An empty buffer sends nothing: descriptors never
/// travel without a data byte. A queue over the kernel's limit sends a single byte,
/// so that the caller calls again while the queue drains.
pub open spec fn planned_write(buf_len: nat, queue_len: nat) -> WritePlan {
    if buf_len == 0 {
        WritePlan { data_len: 0, fd_count: 0 }
    } else if queue_len > SCM_MAX_FD {
        WritePlan { data_len: 1, fd_count: SCM_MAX_FD }
    } else {
        WritePlan { data_len: buf_len as usize, fd_count: queue_len as usize }
    }
}

/// Writes bytes to a Unix-domain stream socket together with a queue of descriptors
/// that travel as ancillary data.
pub struct WriteWithFileDescriptors<Sock, Fd> {
    socket: Sock,
    fds: VecDeque<Fd>,
}

impl<Sock, Fd> WriteWithFileDescriptors<Sock, Fd> {
    pub closed spec fn sock(&self) -> Sock {
        self.socket
    }

    /// The descriptors still to be sent, front first.
    pub closed spec fn queue(&self) -> Seq<Fd> {
        self.fds@
    }

    pub fn new(socket: Sock, fds: VecDeque<Fd>) -> (r: Self)
        ensures
            r.sock() == socket,
            r.queue() == fds@,
    {
        WriteWithFileDescriptors { socket, fds }
    }

    /// Hands back the socket and the descriptors not sent yet.
    pub fn into_parts(self) -> (r: (Sock, VecDeque<Fd>))
        ensures
            r.0 == self.sock(),
            r.1@ == self.queue(),
    {
        (self.socket, self.fds)
    }

    pub fn socket(&self) -> (r: &Sock)
        ensures
            *r == self.sock(),
    {
        &self.socket
    }

    pub fn fds(&self) -> (r: &VecDeque<Fd>)
        ensures
            r@ == self.queue(),
    {
        &self.fds
    }

    pub fn fds_mut(&mut self) -> (r: &mut VecDeque<Fd>)
        ensures
            r@ == old(self).queue(),
            final(self).queue() == final(r)@,
            final(self).sock() == old(self).sock(),
    {
        &mut self.fds
    }

    pub fn socket_mut(&mut self) -> (r: &mut Sock)
        ensures
            *r == old(self).sock(),
            final(self).sock() == *final(r),
            final(self).queue() == old(self).queue(),
    {
        &mut self.socket
    }

    /// The batch that the next send call of `buf_len` bytes carries.
    pub fn plan_write(&self, buf_len: usize) -> (p: WritePlan)
        ensures
            p == planned_write(buf_len as nat, self.queue().len()),
    {
        if buf_len == 0 {
            return WritePlan { data_len: 0, fd_count: 0 };
        }
        let queued = self.fds.len();
        if queued > SCM_MAX_FD {
            WritePlan { data_len: 1, fd_count: SCM_MAX_FD }
        } else {
            WritePlan { data_len: buf_len, fd_count: queued }
        }
    }

    /// Drops the descriptors that a successful send call carried from the front of
    /// the queue; the rest wait for the next call.
    pub fn complete_write(&mut self, plan: WritePlan)
        requires
            plan.fd_count <= old(self).queue().len(),
        ensures
            final(self).queue() == old(self).queue().subrange(
                plan.fd_count as int,
                old(self).queue().len() as int,
            ),
            final(self).sock() == old(self).sock(),
    {
        let ghost start = self.fds@;
        let mut i: usize = 0;
        while i < plan.fd_count
            invariant
                plan.fd_count <= start.len(),
                i <= plan.fd_count,
                self.fds@ == start.subrange(i as int, start.len() as int),
                self.socket == old(self).socket,
            decreases plan.fd_count - i,
        {
            self.fds.pop_front();
            i = i + 1;
        }
    }

    /// Flushing has nothing to do: the socket keeps no buffer of its own.
    pub fn flush(&mut self)
        ensures
            *final(self) == *old(self),
    {
    }
}

/// One send call of a non-empty buffer takes `min(K, SCM_MAX_FD)` descriptors off a
/// queue of `K`, carries at least one byte and at most the buffer, and carries a
/// single byte where the queue is over the limit.
pub proof fn lemma_send_takes_one_batch<Fd>(queue: Seq<Fd>, buf_len: nat)
    requires
        0 < buf_len <= usize::MAX,
    ensures
        ({
            let p = planned_write(buf_len, queue.len());
            let rest = queue.subrange(p.fd_count as int, queue.len() as int);
            &&& p.fd_count as nat == if queue.len() < SCM_MAX_FD {
                queue.len()
            } else {
                SCM_MAX_FD as nat
            }
            &&& rest.len() == queue.len() - p.fd_count
            &&& 1 <= p.data_len <= buf_len
            &&& queue.len() > SCM_MAX_FD ==> p.data_len == 1
        }),
{
}

/// A send call of an empty buffer carries nothing and leaves the queue as it is.
pub proof fn lemma_empty_write_sends_nothing<Fd>(queue: Seq<Fd>)
    ensures
        planned_write(0, queue.len()) == (WritePlan { data_len: 0, fd_count: 0 }),
        queue.subrange(planned_write(0, queue.len()).fd_count as int, queue.len() as int) == queue,
{
    assert(queue.subrange(0, queue.len() as int) =~= queue);
}

} // verus!
